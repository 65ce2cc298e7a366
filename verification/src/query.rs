//! The decisions of the GraphQL queries and mutations: reading ids, the guilds shared by the
//! bot and the user, and who a (un)mute of a voice channel applies to.

use vstd::prelude::*;
use crate::cache::{CacheRead, DiscordCache, cached_channel, cached_voice_states, channel_ids_nonzero, states_of, voice_states_fit};
use crate::errors::QueryError;
use crate::ids::{decimal_text, id_from_text, id_to_string, parse_id};
use crate::model::{GuildChannel, Role, VoiceChannel, VoiceChannelState, WrongVariantError};
use crate::permissions::{lookups_fit, missing_permissions, permission_answer, permission_check_read, MemberRoles};
use crate::model::GUILD_VOICE;

verus! {

/// Reads a guild id given as text.
pub fn parse_guild_id(text: &str) -> (r: Result<u64, QueryError>)
    ensures
        r is Ok <==> id_from_text(text@) is Some,
        r matches Ok(x) ==> id_from_text(text@) == Some(x),
        r matches Err(e) ==> e is InvalidGuildId,
{
    match parse_id(text) {
        Some(id) => Ok(id),
        None => Err(QueryError::InvalidGuildId),
    }
}

/// Reads a channel id given as text.
pub fn parse_channel_id(text: &str) -> (r: Result<u64, QueryError>)
    ensures
        r is Ok <==> id_from_text(text@) is Some,
        r matches Ok(x) ==> id_from_text(text@) == Some(x),
        r matches Err(e) ==> e is InvalidChannelId,
{
    match parse_id(text) {
        Some(id) => Ok(id),
        None => Err(QueryError::InvalidChannelId),
    }
}

/// Reads a user id given as text.
pub fn parse_user_id(text: &str) -> (r: Result<u64, QueryError>)
    ensures
        r is Ok <==> id_from_text(text@) is Some,
        r matches Ok(x) ==> id_from_text(text@) == Some(x),
        r matches Err(e) ==> e is InvalidUserId,
{
    match parse_id(text) {
        Some(id) => Ok(id),
        None => Err(QueryError::InvalidUserId),
    }
}

/// The decimal texts of the ids, in order.
pub fn ids_to_strings(ids: &Vec<u64>) -> (r: Vec<String>)
    ensures
        r.len() == ids.len(),
        forall|i: int| 0 <= i < ids.len() ==> #[trigger] r[i]@ == decimal_text(ids[i] as nat),
{
    let mut r: Vec<String> = Vec::new();
    let mut i: usize = 0;
    while i < ids.len()
        invariant
            0 <= i <= ids.len(),
            r.len() == i,
            forall|j: int| 0 <= j < i ==> #[trigger] r[j]@ == decimal_text(ids[j] as nat),
        decreases ids.len() - i,
    {
        r.push(id_to_string(ids[i]));
        i = i + 1;
    }
    r
}

/// Whether `x` occurs in `v`.
fn contains_id(v: &Vec<u64>, x: u64) -> (b: bool)
    ensures
        b == v@.contains(x),
{
    let mut i: usize = 0;
    while i < v.len()
        invariant
            0 <= i <= v.len(),
            forall|j: int| 0 <= j < i ==> v@[j] != x,
        decreases v.len() - i,
    {
        if v[i] == x {
            return true;
        }
        i = i + 1;
    }
    false
}

/// The ids shared in order are exactly the ids of both lists, each once.
pub proof fn law_shared_in_order_is_both(bot: Seq<u64>, user: Seq<u64>)
    ensures
        forall|x: u64| #[trigger] shared_in_order(bot, user).contains(x) <==> (bot.contains(x) && user.contains(x)),
        shared_in_order(bot, user).no_duplicates(),
    decreases bot.len(),
{
    if bot.len() > 0 {
        let init = bot.drop_last();
        law_shared_in_order_is_both(init, user);
        let r = shared_in_order(init, user);
        let g = bot.last();
        assert forall|x: u64| bot.contains(x) <==> (init.contains(x) || x == g) by {
            if bot.contains(x) && x != g {
                let k = choose|k: int| 0 <= k < bot.len() && bot[k] == x;
                assert(init[k] == x);
            }
            if x == g {
                assert(bot[bot.len() - 1] == g);
            }
            if init.contains(x) {
                let k = choose|k: int| 0 <= k < init.len() && init[k] == x;
                assert(bot[k] == x);
            }
        }
        if user.contains(g) && !r.contains(g) {
            let r2 = r.push(g);
            assert forall|x: u64| r2.contains(x) <==> (r.contains(x) || x == g) by {
                if r2.contains(x) && x != g {
                    let k = choose|k: int| 0 <= k < r2.len() && r2[k] == x;
                    assert(r[k] == x);
                }
                if x == g {
                    assert(r2[r.len() as int] == g);
                }
                if r.contains(x) {
                    let k = choose|k: int| 0 <= k < r.len() && r[k] == x;
                    assert(r2[k] == x);
                }
            }
            assert forall|a: int, b: int| 0 <= a < r2.len() && 0 <= b < r2.len() && a != b implies r2[a] != r2[b] by {
                if a < r.len() && b < r.len() {
                    assert(r2[a] == r[a] && r2[b] == r[b]);
                } else if a < r.len() {
                    assert(r2[a] == r[a]);
                    assert(r.contains(r[a]));
                } else {
                    assert(r2[b] == r[b]);
                    assert(r.contains(r[b]));
                }
            }
        }
    }
}

/// The guilds of both lists.
pub open spec fn shared_ids(a: Seq<u64>, b: Seq<u64>) -> Set<u64> {
    a.to_set().intersect(b.to_set())
}

/// The ids of `bot` that `user` holds too, each once, in the order in which they first come
/// in `bot`.
pub open spec fn shared_in_order(bot: Seq<u64>, user: Seq<u64>) -> Seq<u64>
    decreases bot.len(),
{
    if bot.len() == 0 {
        Seq::<u64>::empty()
    } else {
        let r = shared_in_order(bot.drop_last(), user);
        let g = bot.last();
        if user.contains(g) && !r.contains(g) {
            r.push(g)
        } else {
            r
        }
    }
}

/// Whether a voice state's server mute status differs from `mute`.
pub open spec fn differs_from(mute: bool) -> spec_fn(VoiceChannelState) -> bool {
    |s: VoiceChannelState| s.mute != mute
}

/// Who a (un)mute applies to: the users of the voice states whose server mute status differs
/// from the one asked for, in the order of the states.
pub open spec fn mute_targets(states: Seq<VoiceChannelState>, mute: bool) -> Seq<u64> {
    states.filter(differs_from(mute)).map_values(|s: VoiceChannelState| s.user_id)
}

/// The voice states once each user's server mute status is set to `mute`.
pub open spec fn all_set_to(states: Seq<VoiceChannelState>, mute: bool) -> Seq<VoiceChannelState> {
    states.map_values(|s: VoiceChannelState| VoiceChannelState { mute, ..s })
}

/// Once every user of a channel has been (un)muted, the same request again applies to nobody.
pub proof fn law_mass_update_settles(states: Seq<VoiceChannelState>, mute: bool)
    ensures
        mute_targets(all_set_to(states, mute), mute).len() == 0,
    decreases states.len(),
{
    reveal(Seq::filter);
    if states.len() > 0 {
        law_mass_update_settles(states.drop_last(), mute);
        assert(all_set_to(states, mute).drop_last() =~= all_set_to(states.drop_last(), mute));
    }
}

/// Every voice state's user is a target of exactly one of muting and unmuting.
pub proof fn law_mute_unmute_partition(states: Seq<VoiceChannelState>)
    ensures
        mute_targets(states, true).len() + mute_targets(states, false).len() == states.len(),
    decreases states.len(),
{
    reveal(Seq::filter);
    if states.len() > 0 {
        law_mute_unmute_partition(states.drop_last());
    }
}

/// The root object for GraphQL queries.
#[derive(Copy, Clone, Debug)]
pub struct QueryRoot;

impl QueryRoot {
    /// The guilds that both the bot and the logged in user are in: every id of both lists,
    /// once each, in the order of the bot's list.
    pub fn shared_guild_ids(bot_guilds: &Vec<u64>, user_guilds: &Vec<u64>) -> (r: Vec<u64>)
        ensures
            r@ == shared_in_order(bot_guilds@, user_guilds@),
            r@.to_set() == shared_ids(bot_guilds@, user_guilds@),
            r@.no_duplicates(),
    {
        let mut r: Vec<u64> = Vec::new();
        let mut i: usize = 0;
        while i < bot_guilds.len()
            invariant
                0 <= i <= bot_guilds.len(),
                r@.no_duplicates(),
                r@ == shared_in_order(bot_guilds@.take(i as int), user_guilds@),
                forall|x: u64| r@.contains(x) <==> (bot_guilds@.take(i as int).contains(x) && user_guilds@.contains(x)),
            decreases bot_guilds.len() - i,
        {
            let g = bot_guilds[i];
            let ghost old_r = r@;
            assert(bot_guilds@.take(i + 1) =~= bot_guilds@.take(i as int).push(g));
            assert(bot_guilds@.take(i + 1).drop_last() =~= bot_guilds@.take(i as int));
            if contains_id(user_guilds, g) && !contains_id(&r, g) {
                r.push(g);
                assert forall|x: u64| r@.contains(x) <==> (old_r.contains(x) || x == g) by {
                    if r@.contains(x) && x != g {
                        let k = choose|k: int| 0 <= k < r@.len() && r@[k] == x;
                        assert(old_r[k] == x);
                    }
                    if x == g {
                        assert(r@[old_r.len() as int] == g);
                    }
                    if old_r.contains(x) {
                        let k = choose|k: int| 0 <= k < old_r.len() && old_r[k] == x;
                        assert(r@[k] == x);
                    }
                }
            }
            assert forall|x: u64| bot_guilds@.take(i + 1).contains(x) <==> (bot_guilds@.take(i as int).contains(x) || x == g) by {
                let t = bot_guilds@.take(i as int);
                let t1 = bot_guilds@.take(i + 1);
                if t1.contains(x) && x != g {
                    let k = choose|k: int| 0 <= k < t1.len() && t1[k] == x;
                    assert(t[k] == x);
                }
                if x == g {
                    assert(t1[i as int] == g);
                }
                if t.contains(x) {
                    let k = choose|k: int| 0 <= k < t.len() && t[k] == x;
                    assert(t1[k] == x);
                }
            }
            assert forall|x: u64| r@.contains(x) <==> (bot_guilds@.take(i + 1).contains(x) && user_guilds@.contains(x)) by {
                assert(old_r.contains(x) <==> (bot_guilds@.take(i as int).contains(x) && user_guilds@.contains(x)));
            }
            i = i + 1;
        }
        assert(bot_guilds@.take(i as int) =~= bot_guilds@);
        assert(r@.to_set() =~= shared_ids(bot_guilds@, user_guilds@));
        r
    }
}

/// The guilds shared by two lists do not depend on which list comes first.
pub proof fn law_shared_ids_symmetric(a: Seq<u64>, b: Seq<u64>)
    ensures
        shared_ids(a, b) == shared_ids(b, a),
{
    assert(shared_ids(a, b) =~= shared_ids(b, a));
}

/// The root object for GraphQL mutations.
#[derive(Copy, Clone, Debug)]
pub struct MutationRoot;

impl MutationRoot {
    /// Reads the guild and channel ids of a mutation; the guild id is read first.
    pub fn parse_target(guild_id: &str, channel_id: &str) -> (r: Result<(u64, u64), QueryError>)
        ensures
            id_from_text(guild_id@) is None ==> (r matches Err(QueryError::InvalidGuildId)),
            id_from_text(guild_id@) is Some && id_from_text(channel_id@) is None ==> (r matches Err(QueryError::InvalidChannelId)),
            r is Ok <==> (id_from_text(guild_id@) is Some && id_from_text(channel_id@) is Some),
            r matches Ok((x, y)) ==> id_from_text(guild_id@) == Some(x) && id_from_text(channel_id@) == Some(y),
    {
        let g = match parse_guild_id(guild_id) {
            Ok(g) => g,
            Err(e) => return Err(e),
        };
        let c = match parse_channel_id(channel_id) {
            Ok(c) => c,
            Err(e) => return Err(e),
        };
        Ok((g, c))
    }

    /// The users of the voice states to (un)mute: those whose mute status differs from `mute`.
    pub fn mass_update_targets(states: &Vec<VoiceChannelState>, mute: bool) -> (r: Vec<u64>)
        ensures
            r@ == mute_targets(states@, mute),
    {
        let mut r: Vec<u64> = Vec::new();
        let mut i: usize = 0;
        while i < states.len()
            invariant
                0 <= i <= states.len(),
                r@ == mute_targets(states@.take(i as int), mute),
            decreases states.len() - i,
        {
            let s = &states[i];
            let ghost before = states@.take(i as int);
            assert(states@.take(i + 1) =~= before.push(*s));
            proof {
                let f = differs_from(mute);
                assert(before.push(*s).filter(f) == if f(*s) { before.filter(f).push(*s) } else { before.filter(f) }) by {
                    reveal(Seq::filter);
                    assert(before.push(*s).drop_last() =~= before);
                }
            }
            if s.mute != mute {
                r.push(s.user_id);
                assert(r@ =~= mute_targets(states@.take(i + 1), mute));
            } else {
                assert(r@ =~= mute_targets(states@.take(i + 1), mute));
            }
            i = i + 1;
        }
        assert(states@.take(i as int) =~= states@);
        r
    }

    /// The channel that a mutation applies to: reads the guild id, then the channel id, and
    /// the channel must be a cached voice channel. Gives the guild id and the channel. No
    /// channel has the id 0.
    pub fn target_channel(cache: &DiscordCache, guild_id: &str, channel_id: &str) -> (r: Result<(u64, VoiceChannel), QueryError>)
        ensures
            id_from_text(guild_id@) is None <==> (r matches Err(QueryError::InvalidGuildId)),
            (id_from_text(guild_id@) is Some && id_from_text(channel_id@) is None) <==> (r matches Err(QueryError::InvalidChannelId)),
            exists|found: Option<GuildChannel>| #[trigger] target_answer(guild_id@, channel_id@, found, r),
            id_from_text(guild_id@) is Some ==> id_from_text(channel_id@) == Some(0u64) ==> (r matches Err(QueryError::ChannelNotFound)),
            id_from_text(guild_id@) is Some ==> (id_from_text(channel_id@) matches Some(c) ==> c != 0 ==>
                exists|read: CacheRead<u64, Option<GuildChannel>>| #![trigger read.answer()]
                    read.key() == c && target_answer(guild_id@, channel_id@, read.answer(), r)),
    {
        let (g, c) = match Self::parse_target(guild_id, channel_id) {
            Ok(ids) => ids,
            Err(e) => {
                assert(target_answer(guild_id@, channel_id@, None, Err(e)));
                return Err(e);
            },
        };
        if c == 0 {
            let r = Err(QueryError::ChannelNotFound);
            assert(target_answer(guild_id@, channel_id@, None, r));
            return r;
        }
        let read = cached_channel(cache, c);
        let ghost rd = read;
        let found = read.into_answer();
        let ghost looked_up = found;
        let r = match found {
            Some(channel) => match VoiceChannel::try_from(channel) {
                Ok(v) => Ok((g, v)),
                Err(e) => Err(QueryError::WrongVariant(e)),
            },
            None => Err(QueryError::ChannelNotFound),
        };
        assert(target_answer(guild_id@, channel_id@, looked_up, r));
        assert(target_answer(guild_id@, channel_id@, rd.answer(), r));
        r
    }

    /// Decides a (un)mute of every user in a voice channel: the logged in user must be known
    /// and must not lack any permission that muting needs. Then the users to (un)mute are those
    /// of the channel's cached voice states whose mute status differs from `mute`, in order;
    /// none when the cache holds no voice states for the channel. Gives the voice states read
    /// and the users to (un)mute.
    pub fn authorize(cache: &DiscordCache, channel: &VoiceChannel, oauth_user: Option<u64>, mute: bool) -> (r: Result<(Vec<VoiceChannelState>, Vec<u64>), QueryError>)
        requires
            channel_ids_nonzero(channel@),
            oauth_user matches Some(u) ==> u != 0,
        ensures
            oauth_user is None <==> (r matches Err(QueryError::OauthUserUnavailable)),
            oauth_user matches Some(u) ==> exists|checked: Result<Option<Vec<String>>, QueryError>|
                #[trigger] authorize_answer(channel@, u, checked, mute, r),
            oauth_user matches Some(u) ==> exists|checked: Result<Option<Vec<String>>, QueryError>|
                #[trigger] authorize_read_answer(channel@, u, checked, mute, r),
    {
        let user_id = match oauth_user {
            Some(u) => u,
            None => return Err(QueryError::OauthUserUnavailable),
        };
        let checked = missing_permissions(cache, channel, user_id);
        let ghost answer = checked;
        let r = match checked {
            Ok(Some(missing)) => Err(QueryError::PermissionDenied(missing)),
            Ok(None) => {
                let read = cached_voice_states(cache, channel.channel().id);
                let ghost rd = read;
                let states = match read.into_answer() {
                    Some(s) => s,
                    None => Vec::new(),
                };
                assert(states_of(rd.answer()) == states@);
                assert(voice_states_read(channel@.id, states@));
                let targets = Self::mass_update_targets(&states, mute);
                Ok((states, targets))
            },
            Err(e) => Err(e),
        };
        assert(authorize_answer(channel@, user_id, answer, mute, r));
        assert(authorize_read_answer(channel@, user_id, answer, mute, r));
        r
    }

    /// Mute all users in a voice channel: finds the channel as `target_channel` does, then
    /// decides as `authorize` does. Gives the guild id, the voice states read and the users
    /// to mute.
    pub fn mute(cache: &DiscordCache, guild_id: &str, channel_id: &str, oauth_user: Option<u64>) -> (r: Result<(u64, Vec<VoiceChannelState>, Vec<u64>), QueryError>)
        requires
            oauth_user matches Some(u) ==> u != 0,
        ensures
            id_from_text(guild_id@) is None <==> (r matches Err(QueryError::InvalidGuildId)),
            (id_from_text(guild_id@) is Some && id_from_text(channel_id@) is None) <==> (r matches Err(QueryError::InvalidChannelId)),
            exists|found: Option<GuildChannel>, checked: Result<Option<Vec<String>>, QueryError>|
                #[trigger] mutation_answer(guild_id@, channel_id@, found, oauth_user, checked, true, r),
            id_from_text(guild_id@) is Some ==> id_from_text(channel_id@) == Some(0u64) ==> (r matches Err(QueryError::ChannelNotFound)),
            id_from_text(guild_id@) matches Some(g) ==> (id_from_text(channel_id@) matches Some(c) ==> c != 0 ==>
                exists|read: CacheRead<u64, Option<GuildChannel>>| #![trigger read.answer()]
                    read.key() == c && mutation_read_answer(g, c, read.answer(), oauth_user, true, r)),
    {
        Self::mutate(cache, guild_id, channel_id, oauth_user, true)
    }

    /// Unmute all users in a voice channel: finds the channel as `target_channel` does, then
    /// decides as `authorize` does. Gives the guild id, the voice states read and the users
    /// to unmute.
    pub fn unmute(cache: &DiscordCache, guild_id: &str, channel_id: &str, oauth_user: Option<u64>) -> (r: Result<(u64, Vec<VoiceChannelState>, Vec<u64>), QueryError>)
        requires
            oauth_user matches Some(u) ==> u != 0,
        ensures
            id_from_text(guild_id@) is None <==> (r matches Err(QueryError::InvalidGuildId)),
            (id_from_text(guild_id@) is Some && id_from_text(channel_id@) is None) <==> (r matches Err(QueryError::InvalidChannelId)),
            exists|found: Option<GuildChannel>, checked: Result<Option<Vec<String>>, QueryError>|
                #[trigger] mutation_answer(guild_id@, channel_id@, found, oauth_user, checked, false, r),
            id_from_text(guild_id@) is Some ==> id_from_text(channel_id@) == Some(0u64) ==> (r matches Err(QueryError::ChannelNotFound)),
            id_from_text(guild_id@) matches Some(g) ==> (id_from_text(channel_id@) matches Some(c) ==> c != 0 ==>
                exists|read: CacheRead<u64, Option<GuildChannel>>| #![trigger read.answer()]
                    read.key() == c && mutation_read_answer(g, c, read.answer(), oauth_user, false, r)),
    {
        Self::mutate(cache, guild_id, channel_id, oauth_user, false)
    }

    fn mutate(cache: &DiscordCache, guild_id: &str, channel_id: &str, oauth_user: Option<u64>, mute: bool) -> (r: Result<(u64, Vec<VoiceChannelState>, Vec<u64>), QueryError>)
        requires
            oauth_user matches Some(u) ==> u != 0,
        ensures
            id_from_text(guild_id@) is None <==> (r matches Err(QueryError::InvalidGuildId)),
            (id_from_text(guild_id@) is Some && id_from_text(channel_id@) is None) <==> (r matches Err(QueryError::InvalidChannelId)),
            exists|found: Option<GuildChannel>, checked: Result<Option<Vec<String>>, QueryError>|
                #[trigger] mutation_answer(guild_id@, channel_id@, found, oauth_user, checked, mute, r),
            id_from_text(guild_id@) is Some ==> id_from_text(channel_id@) == Some(0u64) ==> (r matches Err(QueryError::ChannelNotFound)),
            id_from_text(guild_id@) matches Some(g) ==> (id_from_text(channel_id@) matches Some(c) ==> c != 0 ==>
                exists|read: CacheRead<u64, Option<GuildChannel>>| #![trigger read.answer()]
                    read.key() == c && mutation_read_answer(g, c, read.answer(), oauth_user, mute, r)),
    {
        let target = Self::target_channel(cache, guild_id, channel_id);
        let ghost t = target;
        let ghost channel_read = choose|read: CacheRead<u64, Option<GuildChannel>>| #![trigger read.answer()]
            read.key() == id_from_text(channel_id@)->0 && target_answer(guild_id@, channel_id@, read.answer(), t);
        let ghost found = choose|found: Option<GuildChannel>| #[trigger] target_answer(guild_id@, channel_id@, found, t);
        let (g, channel) = match target {
            Ok(x) => x,
            Err(e) => {
                let r = Err(e);
                assert(mutation_answer(guild_id@, channel_id@, found, oauth_user, Ok(None), mute, r));
                proof {
                    if id_from_text(guild_id@) is Some && id_from_text(channel_id@) is Some && id_from_text(channel_id@)->0 != 0 {
                        let c = id_from_text(channel_id@)->0;
                        assert(mutation_read_answer(id_from_text(guild_id@)->0, c, channel_read.answer(), oauth_user, mute, r));
                    }
                }
                return r;
            },
        };
        let decided = Self::authorize(cache, &channel, oauth_user, mute);
        let ghost d = decided;
        let r = match decided {
            Ok((states, targets)) => Ok((g, states, targets)),
            Err(e) => Err(e),
        };
        proof {
            match oauth_user {
                Some(u) => {
                    let checked = choose|checked: Result<Option<Vec<String>>, QueryError>|
                        #[trigger] authorize_answer(channel@, u, checked, mute, d);
                    assert(mutation_answer(guild_id@, channel_id@, found, oauth_user, checked, mute, r));
                    let checked_read = choose|checked: Result<Option<Vec<String>>, QueryError>|
                        #[trigger] authorize_read_answer(channel@, u, checked, mute, d);
                    assert(mutation_outcome_read(channel@, u, checked_read, mute, g, r));
                },
                None => {
                    assert(mutation_answer(guild_id@, channel_id@, found, oauth_user, Ok(None), mute, r));
                },
            }
            let c = id_from_text(channel_id@)->0;
            assert(mutation_read_answer(g, c, channel_read.answer(), oauth_user, mute, r));
        }
        r
    }
}

/// What finding a mutation's channel answers, given the guild and channel texts and what the
/// cache gave for the channel id: the guild id is read first, then the channel id; the channel
/// must have been found and be a voice channel.
pub open spec fn target_answer(
    guild_text: Seq<char>,
    channel_text: Seq<char>,
    found: Option<GuildChannel>,
    r: Result<(u64, VoiceChannel), QueryError>,
) -> bool {
    match (id_from_text(guild_text), id_from_text(channel_text)) {
        (None, _) => r matches Err(QueryError::InvalidGuildId),
        (Some(_), None) => r matches Err(QueryError::InvalidChannelId),
        (Some(g), Some(c)) => match found {
            None => r matches Err(QueryError::ChannelNotFound),
            Some(ch) => {
                &&& ch.id == c
                &&& channel_ids_nonzero(ch)
                &&& if ch.kind == GUILD_VOICE {
                    (r matches Ok((x, v)) && x == g && v@ == ch)
                } else {
                    r == Err::<(u64, VoiceChannel), QueryError>(QueryError::WrongVariant(WrongVariantError::NotAVoiceChannel))
                }
            },
        },
    }
}

/// What deciding a (un)mute in `channel` for the logged in user `user_id` answers, given what
/// checking the user's permissions gave: the check's error, `PermissionDenied` with the
/// missing permissions, or voice states of the channel and the users among them to (un)mute.
pub open spec fn authorize_answer(
    channel: GuildChannel,
    user_id: u64,
    checked: Result<Option<Vec<String>>, QueryError>,
    mute: bool,
    r: Result<(Vec<VoiceChannelState>, Vec<u64>), QueryError>,
) -> bool {
    &&& exists|member_roles: Option<MemberRoles>, everyone: Option<Role>, found: Seq<Option<Role>>|
        lookups_fit(channel, user_id, member_roles, everyone, found)
        && #[trigger] permission_answer(channel, user_id, member_roles, everyone, found, checked)
    &&& match checked {
        Err(e) => r == Err::<(Vec<VoiceChannelState>, Vec<u64>), QueryError>(e),
        Ok(Some(missing)) => r == Err::<(Vec<VoiceChannelState>, Vec<u64>), QueryError>(QueryError::PermissionDenied(missing)),
        Ok(None) => (r matches Ok((states, targets)) && voice_states_fit(channel.id, states@)
            && targets@ == mute_targets(states@, mute)),
    }
}

/// What a (un)mute answers, given the guild and channel texts, what the cache gave for the
/// channel, the logged in user and what the permission check gave.
pub open spec fn mutation_answer(
    guild_text: Seq<char>,
    channel_text: Seq<char>,
    found: Option<GuildChannel>,
    oauth_user: Option<u64>,
    checked: Result<Option<Vec<String>>, QueryError>,
    mute: bool,
    r: Result<(u64, Vec<VoiceChannelState>, Vec<u64>), QueryError>,
) -> bool {
    match (id_from_text(guild_text), id_from_text(channel_text)) {
        (None, _) => r matches Err(QueryError::InvalidGuildId),
        (Some(_), None) => r matches Err(QueryError::InvalidChannelId),
        (Some(g), Some(c)) => match found {
            None => r matches Err(QueryError::ChannelNotFound),
            Some(ch) => {
                &&& ch.id == c
                &&& channel_ids_nonzero(ch)
                &&& if ch.kind != GUILD_VOICE {
                    r == Err::<(u64, Vec<VoiceChannelState>, Vec<u64>), QueryError>(QueryError::WrongVariant(WrongVariantError::NotAVoiceChannel))
                } else {
                    match oauth_user {
                        None => r matches Err(QueryError::OauthUserUnavailable),
                        Some(u) => exists|d: Result<(Vec<VoiceChannelState>, Vec<u64>), QueryError>|
                            #[trigger] authorize_answer(ch, u, checked, mute, d) && match d {
                                Ok((states, targets)) => r == Ok::<(u64, Vec<VoiceChannelState>, Vec<u64>), QueryError>((g, states, targets)),
                                Err(e) => r == Err::<(u64, Vec<VoiceChannelState>, Vec<u64>), QueryError>(e),
                            },
                    }
                }
            },
        },
    }
}

/// Whether `states` are the voice states that a read of the channel `channel_id` gave.
pub open spec fn voice_states_read(channel_id: u64, states: Seq<VoiceChannelState>) -> bool {
    exists|read: CacheRead<u64, Option<Vec<VoiceChannelState>>>| #![trigger read.answer()]
        read.key() == channel_id && states_of(read.answer()) == states
}

/// What deciding a (un)mute in `channel` for `user_id` answers, from the cache's answers to
/// the reads it makes: the permission check as `permission_check_read` states it, then, when
/// nothing is missing, every voice state that the read of the channel's states gave, and of
/// them the users whose server mute status differs from `mute`.
pub open spec fn authorize_read_answer(
    channel: GuildChannel,
    user_id: u64,
    checked: Result<Option<Vec<String>>, QueryError>,
    mute: bool,
    r: Result<(Vec<VoiceChannelState>, Vec<u64>), QueryError>,
) -> bool {
    &&& permission_check_read(channel, user_id, checked)
    &&& match checked {
        Err(e) => r == Err::<(Vec<VoiceChannelState>, Vec<u64>), QueryError>(e),
        Ok(Some(missing)) => r == Err::<(Vec<VoiceChannelState>, Vec<u64>), QueryError>(QueryError::PermissionDenied(missing)),
        Ok(None) => (r matches Ok((states, targets)) && voice_states_read(channel.id, states@)
            && targets@ == mute_targets(states@, mute)),
    }
}

/// As `authorize_read_answer`, for the answer of a mutation on the guild `guild_id`.
pub open spec fn mutation_outcome_read(
    channel: GuildChannel,
    user_id: u64,
    checked: Result<Option<Vec<String>>, QueryError>,
    mute: bool,
    guild_id: u64,
    r: Result<(u64, Vec<VoiceChannelState>, Vec<u64>), QueryError>,
) -> bool {
    &&& permission_check_read(channel, user_id, checked)
    &&& match checked {
        Err(e) => r == Err::<(u64, Vec<VoiceChannelState>, Vec<u64>), QueryError>(e),
        Ok(Some(missing)) => r == Err::<(u64, Vec<VoiceChannelState>, Vec<u64>), QueryError>(QueryError::PermissionDenied(missing)),
        Ok(None) => (r matches Ok((g, states, targets)) && g == guild_id && voice_states_read(channel.id, states@)
            && targets@ == mute_targets(states@, mute)),
    }
}

/// What a (un)mute on the guild `guild_id` and the channel `channel_id` answers, from the
/// cache's answer for the channel and then the reads that deciding makes.
pub open spec fn mutation_read_answer(
    guild_id: u64,
    channel_id: u64,
    found: Option<GuildChannel>,
    oauth_user: Option<u64>,
    mute: bool,
    r: Result<(u64, Vec<VoiceChannelState>, Vec<u64>), QueryError>,
) -> bool {
    match found {
        None => r matches Err(QueryError::ChannelNotFound),
        Some(ch) => {
            &&& ch.id == channel_id
            &&& channel_ids_nonzero(ch)
            &&& if ch.kind != GUILD_VOICE {
                r == Err::<(u64, Vec<VoiceChannelState>, Vec<u64>), QueryError>(QueryError::WrongVariant(WrongVariantError::NotAVoiceChannel))
            } else {
                match oauth_user {
                    None => r matches Err(QueryError::OauthUserUnavailable),
                    Some(u) => exists|checked: Result<Option<Vec<String>>, QueryError>|
                        #[trigger] mutation_outcome_read(ch, u, checked, mute, guild_id, r),
                }
            }
        },
    }
}

/// The targets of a (un)mute are the users of the voice states whose server mute status
/// differs from the one asked for: every such state's user is a target, whatever its self-mute
/// and self-deafen flags, and every target is the user of such a state.
pub proof fn law_targets_are_the_differing_states(states: Seq<VoiceChannelState>, mute: bool)
    ensures
        forall|i: int| 0 <= i < states.len() && (#[trigger] states[i]).mute != mute
            ==> mute_targets(states, mute).contains(states[i].user_id),
        forall|t: u64| #[trigger] mute_targets(states, mute).contains(t)
            ==> exists|i: int| 0 <= i < states.len() && (#[trigger] states[i]).user_id == t && states[i].mute != mute,
{
    let f = differs_from(mute);
    let kept = states.filter(f);
    assert forall|i: int| 0 <= i < states.len() && (#[trigger] states[i]).mute != mute
        implies mute_targets(states, mute).contains(states[i].user_id) by {
        states.lemma_filter_contains(f, i);
        let j = choose|j: int| 0 <= j < kept.len() && kept[j] == states[i];
        assert(mute_targets(states, mute)[j] == states[i].user_id);
    }
    assert forall|t: u64| #[trigger] mute_targets(states, mute).contains(t)
        implies exists|i: int| 0 <= i < states.len() && (#[trigger] states[i]).user_id == t && states[i].mute != mute by {
        let j = choose|j: int| 0 <= j < mute_targets(states, mute).len() && mute_targets(states, mute)[j] == t;
        states.lemma_filter_pred(f, j);
        assert(kept.contains(kept[j]));
        states.lemma_filter_contains_rev(f, kept[j]);
        let i = choose|i: int| 0 <= i < states.len() && states[i] == kept[j];
        assert(states[i].user_id == t && states[i].mute != mute);
    }
}

/// Whom a (un)mute applies to depends on each state's user and server mute status alone: two
/// lists of states that agree on those give the same targets, whatever their self-mute and
/// self-deafen flags.
pub proof fn law_targets_ignore_self_flags(a: Seq<VoiceChannelState>, b: Seq<VoiceChannelState>, mute: bool)
    requires
        a.len() == b.len(),
        forall|i: int| 0 <= i < a.len() ==> (#[trigger] a[i]).user_id == b[i].user_id && a[i].mute == b[i].mute,
    ensures
        mute_targets(a, mute) == mute_targets(b, mute),
    decreases a.len(),
{
    reveal(Seq::filter);
    if a.len() > 0 {
        let ai = a.drop_last();
        let bi = b.drop_last();
        assert forall|i: int| 0 <= i < ai.len() implies (#[trigger] ai[i]).user_id == bi[i].user_id && ai[i].mute == bi[i].mute by {
            assert(ai[i] == a[i]);
            assert(bi[i] == b[i]);
        }
        law_targets_ignore_self_flags(ai, bi, mute);
        assert(a.last() == a[a.len() - 1]);
        assert(b.last() == b[b.len() - 1]);
        let f = differs_from(mute);
        assert(a.filter(f) == if f(a.last()) { ai.filter(f).push(a.last()) } else { ai.filter(f) });
        assert(b.filter(f) == if f(b.last()) { bi.filter(f).push(b.last()) } else { bi.filter(f) });
        if f(a.last()) {
            assert(mute_targets(a, mute) =~= mute_targets(ai, mute).push(a.last().user_id));
            assert(mute_targets(b, mute) =~= mute_targets(bi, mute).push(b.last().user_id));
        } else {
            assert(mute_targets(a, mute) =~= mute_targets(ai, mute));
            assert(mute_targets(b, mute) =~= mute_targets(bi, mute));
        }
    }
}

/// When the permission check of an (un)mute finds nothing missing, the answer is every voice
/// state that the read of the channel gave, and every one of them whose server mute status
/// differs from the one asked for has its user among the targets.
pub proof fn law_authorized_mutation_targets_every_differing_state(
    channel: GuildChannel,
    user_id: u64,
    mute: bool,
    r: Result<(Vec<VoiceChannelState>, Vec<u64>), QueryError>,
)
    requires
        authorize_read_answer(channel, user_id, Ok(None), mute, r),
    ensures
        r matches Ok((states, targets)) && voice_states_read(channel.id, states@)
            && (forall|i: int| 0 <= i < states@.len() && (#[trigger] states@[i]).mute != mute
                ==> targets@.contains(states@[i].user_id)),
{
    let (states, targets) = r->Ok_0;
    law_targets_are_the_differing_states(states@, mute);
}

/// A channel without cached voice states gives nobody to (un)mute.
pub proof fn law_no_states_no_targets(mute: bool)
    ensures
        mute_targets(Seq::<VoiceChannelState>::empty(), mute).len() == 0,
{
    reveal(Seq::filter);
}

} // verus!
