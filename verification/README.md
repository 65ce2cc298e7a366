# stfu

A service that server-mutes (and unmutes) everyone in a Discord voice channel: a bot daemon,
a command-line shortcut that asks it to act, and a GraphQL web server behind Discord oauth.

`src/` is the library, verified with Verus:

- `ids` — snowflake ids as decimal text, read and written;
- `text` — splitting on a separator and trimming white space;
- `model` — members, voice states, channels, guilds and users as plain values;
- `cache` — the reads of the gateway-fed in-memory cache;
- `lookup` — what a list of cache lookups comes to;
- `permissions` — which of the permissions that muting needs a user lacks in a channel;
- `colors` — a member's colour from their highest coloured role;
- `query`, `objects` — the decisions of the GraphQL queries and mutations;
- `auth` — configuration, the oauth cookie, what a request's cookie decides and the login state;
- `cli` — the arguments, the daemon's action, and the shortcut's connection steps;
- `errors` — the errors the queries answer with.

`app/` holds the programs around it: the web server's routes and GraphQL objects, the daemon
and the shortcut. `tests/` runs the library on concrete values.
