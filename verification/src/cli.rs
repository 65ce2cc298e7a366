//! The command-line tools: the arguments they take, the action sent to the daemon, how the
//! shortcut reaches the daemon, and whom the daemon (un)mutes.

use vstd::prelude::*;

verus! {

/// Key under which the parsed arguments are kept in the bot client's shared data.
#[derive(Copy, Clone, Debug)]
pub struct ArgsKey;

/// The channel muted when none is given.
pub const DEFAULT_CHANNEL: u64 = 717435160378867772;

/// Program to make people stop talking.
#[derive(Clone, Debug)]
pub struct Args {
    pub command: Command,
    /// The channel id to mute.
    pub channel: u64,
    /// The token to the bot.
    pub token: String,
}

/// Mute all people in the channel.
#[derive(Clone, Copy, Debug, PartialEq, Eq, Structural)]
pub struct Mute {}

/// Unmute all people in the channel.
#[derive(Clone, Copy, Debug, PartialEq, Eq, Structural)]
pub struct Unmute {}

/// What to do with the people in the channel.
#[derive(Clone, Copy, Debug, PartialEq, Eq, Structural)]
pub enum Command {
    Mute(Mute),
    Unmute(Unmute),
}

impl Command {
    /// Whether the command mutes (rather than unmutes).
    pub fn mutes(&self) -> (r: bool)
        ensures
            r == (self is Mute),
    {
        match self {
            Command::Mute(_) => true,
            Command::Unmute(_) => false,
        }
    }
}

/// What the shortcut asks the daemon to do, with the channel.
#[derive(Clone, Copy, Debug, PartialEq, Eq, Structural)]
pub enum Action {
    Mute(u64),
    Unmute(u64),
}

impl Action {
    /// The action for a command on a channel.
    pub fn for_command(command: &Command, channel: u64) -> (a: Action)
        ensures
            command is Mute ==> a == Action::Mute(channel),
            command is Unmute ==> a == Action::Unmute(channel),
    {
        match command {
            Command::Mute(_) => Action::Mute(channel),
            Command::Unmute(_) => Action::Unmute(channel),
        }
    }
}

/// The daemon's answer to an action.
#[derive(Clone, Copy, Debug, PartialEq, Eq, Structural)]
pub enum Acknowledgement {
    /// The daemon carried out this action.
    Success(Action),
}

impl Acknowledgement {
    /// Whether the answer confirms that `sent` was carried out.
    pub fn confirms(&self, sent: &Action) -> (r: bool)
        ensures
            r == (*self == Acknowledgement::Success(*sent)),
    {
        match self {
            Acknowledgement::Success(done) => *done == *sent,
        }
    }
}

/// What the shortcut does after trying to connect to the daemon.
#[derive(Clone, Copy, Debug, PartialEq, Eq, Structural)]
pub enum ConnectStep {
    /// Send the action over the connection.
    Dispatch,
    /// Start the daemon, wait, and try again.
    StartDaemon,
    /// Report that the daemon cannot be reached, and stop.
    GiveUp,
}

/// The number of the last attempt to connect.
pub const LAST_ATTEMPT: u8 = 1;

/// The step after attempt number `attempt` (counting from 0) to connect: dispatch when
/// connected; else start the daemon, unless this was the last attempt.
pub open spec fn spec_next_step(attempt: u8, connected: bool) -> ConnectStep {
    if connected {
        ConnectStep::Dispatch
    } else if attempt == LAST_ATTEMPT {
        ConnectStep::GiveUp
    } else {
        ConnectStep::StartDaemon
    }
}

/// The step after attempt number `attempt` to connect to the daemon.
pub fn next_step(attempt: u8, connected: bool) -> (s: ConnectStep)
    requires
        attempt <= LAST_ATTEMPT,
    ensures
        s == spec_next_step(attempt, connected),
{
    if connected {
        ConnectStep::Dispatch
    } else if attempt == LAST_ATTEMPT {
        ConnectStep::GiveUp
    } else {
        ConnectStep::StartDaemon
    }
}

/// The steps taken for the outcomes of successive attempts, up to the first step that is not
/// starting the daemon.
pub open spec fn steps_taken(outcomes: Seq<bool>, attempt: u8) -> Seq<ConnectStep>
    decreases outcomes.len(),
{
    if outcomes.len() == 0 || attempt > LAST_ATTEMPT {
        Seq::<ConnectStep>::empty()
    } else {
        let s = spec_next_step(attempt, outcomes[0]);
        if s == ConnectStep::StartDaemon {
            seq![s] + steps_taken(outcomes.drop_first(), (attempt + 1) as u8)
        } else {
            seq![s]
        }
    }
}

/// Whatever the connection attempts give, the shortcut starts the daemon at most once, and
/// ends by dispatching or giving up once every attempt has been made.
pub proof fn law_daemon_started_at_most_once(outcomes: Seq<bool>)
    requires
        outcomes.len() >= 2,
    ensures
        steps_taken(outcomes, 0).len() >= 1,
        steps_taken(outcomes, 0).len() <= 2,
        steps_taken(outcomes, 0).last() != ConnectStep::StartDaemon,
        forall|i: int| 0 < i < steps_taken(outcomes, 0).len() ==> #[trigger] steps_taken(outcomes, 0)[i] != ConnectStep::StartDaemon,
{
    let rest = outcomes.drop_first();
    assert(steps_taken(rest.drop_first(), 2) == Seq::<ConnectStep>::empty());
    assert(steps_taken(rest, 1) =~= seq![spec_next_step(1, rest[0])]);
}

/// The bot's event handler: on start it (un)mutes everyone in the channel and stops.
#[derive(Copy, Clone, Debug)]
pub struct Handler;

/// The users to (un)mute among the members of a channel given as (user id, is a bot): every
/// member but the bots, in order.
pub open spec fn humans(members: Seq<(u64, bool)>) -> Seq<u64> {
    members.filter(|m: (u64, bool)| !m.1).map_values(|m: (u64, bool)| m.0)
}

impl Handler {
    /// The members to edit: all of them but the bots, in order.
    pub fn members_to_edit(members: &Vec<(u64, bool)>) -> (r: Vec<u64>)
        ensures
            r@ == humans(members@),
    {
        let mut r: Vec<u64> = Vec::new();
        let mut i: usize = 0;
        while i < members.len()
            invariant
                0 <= i <= members.len(),
                r@ == humans(members@.take(i as int)),
            decreases members.len() - i,
        {
            let m = members[i];
            let ghost before = members@.take(i as int);
            assert(members@.take(i + 1) =~= before.push(m));
            proof {
                reveal(Seq::filter);
                assert(before.push(m).drop_last() =~= before);
            }
            if !m.1 {
                r.push(m.0);
            }
            assert(r@ =~= humans(members@.take(i + 1)));
            i = i + 1;
        }
        assert(members@.take(i as int) =~= members@);
        r
    }

    /// The notification shown when done: its summary and its body.
    pub fn notification(mute: bool) -> (r: (&'static str, &'static str))
        ensures
            r.0@ == "Success"@,
            mute ==> r.1@ == "Muted everyone"@,
            !mute ==> r.1@ == "Unmuted everyone"@,
    {
        if mute {
            ("Success", "Muted everyone")
        } else {
            ("Success", "Unmuted everyone")
        }
    }
}

/// No bot is ever among the members edited.
pub proof fn law_bots_never_edited(members: Seq<(u64, bool)>, bot_id: u64)
    requires
        forall|i: int| 0 <= i < members.len() && #[trigger] members[i].0 == bot_id ==> members[i].1,
    ensures
        !humans(members).contains(bot_id),
    decreases members.len(),
{
    reveal(Seq::filter);
    if members.len() > 0 {
        let p = members.drop_last();
        assert forall|i: int| 0 <= i < p.len() && #[trigger] p[i].0 == bot_id implies p[i].1 by {
            assert(p[i] == members[i]);
        }
        law_bots_never_edited(p, bot_id);
        let last = members.last();
        assert(members[members.len() - 1] == last);
        if !last.1 {
            assert(humans(members) =~= humans(p).push(last.0));
        } else {
            assert(humans(members) =~= humans(p));
        }
    }
}

} // verus!
