//! The fields of the GraphQL objects that look things up in the cache: members of voice
//! states and guilds, a voice channel's category and voice states, a guild's voice channels,
//! and the guilds and the bot user that queries start from.

use vstd::prelude::*;
use crate::cache::{
    CacheRead, DiscordCache, MemberEntryRead, UserEntryRead, cached_channel, cached_current_user, cached_guild,
    cached_guild_channel_ids, cached_guild_member_ids, cached_voice_states, channel_ids_nonzero, ids_nonzero,
    states_of, voice_states_fit,
};
use crate::lookup::{
    answers, found_items, law_found_items_are_kept, found_or_error, lemma_somes_from_lookups, lookups_match, reads_of_ids, require_found, somes,
};
use crate::cache::is_member_lookup;
use crate::members::{cached_member, member_of_reads, member_reads_fit};
use crate::errors::QueryError;
use crate::ids::id_from_text;
use crate::model::{
    channel_ids_distinct, channels_of, voice_channels_of, CategoryChannel, CurrentUser, GUILD_CATEGORY, GUILD_VOICE, Guild,
    GuildChannel, Member, VoiceChannel, VoiceChannelState,
};
use crate::query::{QueryRoot, law_shared_in_order_is_both, parse_channel_id, parse_guild_id, parse_user_id, shared_ids, shared_in_order};

verus! {

/// Whether `found` may be what looking up the guild `guild_id` gave.
pub open spec fn is_guild_lookup(guild_id: u64, found: Option<Guild>) -> bool {
    found matches Some(g) ==> g.id == guild_id && g.owner_id != 0
}

/// Whether `found` may be what looking up the channel `channel_id` gave.
pub open spec fn is_channel_lookup(channel_id: u64, found: Option<GuildChannel>) -> bool {
    found matches Some(c) ==> c.id == channel_id && channel_ids_nonzero(c)
}

/// Whether `found` may be what looking up the bot user gave.
pub open spec fn is_bot_lookup(found: Option<CurrentUser>) -> bool {
    found matches Some(u) ==> u.id != 0
}

/// Whether the member lookups are those of the member list `ids` of the guild `guild_id`, the
/// list being the one kept under that guild's id, one lookup per id in turn; no lookups when
/// the cache does not know the guild's members.
pub open spec fn member_lookups_fit(guild_id: u64, ids: Option<(u64, Vec<u64>)>, lookups: Seq<Option<Member>>) -> bool {
    match ids {
        None => lookups.len() == 0,
        Some((g, v)) => {
            &&& g == guild_id
            &&& v@.no_duplicates()
            &&& lookups.len() == v.len()
            &&& forall|k: int| 0 <= k < lookups.len() ==> is_member_lookup(guild_id, v@[k], #[trigger] lookups[k])
        },
    }
}

/// Whether the channel lookups are those of the channel list `ids` of the guild `guild_id`,
/// the list being the one kept under that guild's id, one lookup per id in turn; no lookups
/// when the cache does not know the guild's channels.
pub open spec fn channel_lookups_fit(guild_id: u64, ids: Option<(u64, Vec<u64>)>, lookups: Seq<Option<GuildChannel>>) -> bool {
    match ids {
        None => lookups.len() == 0,
        Some((g, v)) => {
            &&& g == guild_id
            &&& v@.no_duplicates()
            &&& lookups.len() == v.len()
            &&& forall|k: int| 0 <= k < lookups.len() ==> is_channel_lookup(v@[k], #[trigger] lookups[k])
        },
    }
}

/// What looking up a voice channel of the guild `guild_id` answers, given what the cache gave
/// for the channel id: the channel, when it is a voice channel of this guild.
pub open spec fn voice_channel_answer(guild_id: u64, found: Option<GuildChannel>, v: Option<VoiceChannel>) -> bool {
    match found {
        Some(c) if c.kind == GUILD_VOICE && c.guild_id == Some(guild_id) => (v matches Some(vc) && vc@ == c),
        _ => v is None,
    }
}

/// Whether the reads are those of the channel list of the guild `guild_id` and then of each
/// channel on it in turn.
pub open spec fn channel_reads_fit(
    guild_id: u64,
    list: CacheRead<u64, Option<(u64, Vec<u64>)>>,
    reads: Seq<CacheRead<u64, Option<GuildChannel>>>,
) -> bool {
    &&& list.key() == guild_id
    &&& match list.answer() {
        None => reads.len() == 0,
        Some((_, v)) => reads_of_ids(v@, reads),
    }
}

/// The members that reads of member and user entries give, in order.
pub open spec fn member_answers(reads: Seq<(MemberEntryRead, UserEntryRead)>) -> Seq<Option<Member>> {
    reads.map_values(|p: (MemberEntryRead, UserEntryRead)| member_of_reads(p.0, p.1))
}

/// Whether the reads are those of the member list of the guild `guild_id` and then of each
/// member on it in turn.
pub open spec fn member_list_reads_fit(
    guild_id: u64,
    list: CacheRead<u64, Option<(u64, Vec<u64>)>>,
    reads: Seq<(MemberEntryRead, UserEntryRead)>,
) -> bool {
    &&& list.key() == guild_id
    &&& match list.answer() {
        None => reads.len() == 0,
        Some((_, v)) => {
            &&& reads.len() == v.len()
            &&& forall|k: int| 0 <= k < reads.len() ==> member_reads_fit(guild_id, v@[k], (#[trigger] reads[k]).0, reads[k].1)
        },
    }
}

/// No voice channel that the lookups of a guild's channels found is left out: every found
/// channel that is a voice channel is among the guild's voice channels.
pub proof fn law_voice_channels_keep_every_found_voice_channel(lookups: Seq<Option<GuildChannel>>)
    ensures
        forall|k: int| 0 <= k < lookups.len() ==> (#[trigger] lookups[k] matches Some(c)
            ==> (c.kind == GUILD_VOICE ==> voice_channels_of(somes(lookups)).contains(c))),
{
    law_found_items_are_kept(lookups);
    let found = somes(lookups);
    assert forall|k: int| 0 <= k < lookups.len() implies (#[trigger] lookups[k] matches Some(c)
        ==> (c.kind == GUILD_VOICE ==> voice_channels_of(found).contains(c))) by {
        if lookups[k] is Some && lookups[k]->0.kind == GUILD_VOICE {
            let c = lookups[k]->0;
            assert(found.contains(c));
            let m = choose|m: int| 0 <= m < found.len() && found[m] == c;
            found.lemma_filter_contains(|c: GuildChannel| crate::model::is_voice_channel(c), m);
        }
    }
}

/// The shared guilds are read for every id of both lists, each once, and every guild that a
/// read found is kept: a shared id is missing from the answer only when the cache had no
/// guild under it.
pub proof fn law_shared_guilds_keep_every_cached_guild(bot: Seq<u64>, user: Seq<u64>, reads: Seq<CacheRead<u64, Option<Guild>>>)
    requires
        reads_of_ids(shared_in_order(bot, user), reads),
    ensures
        forall|x: u64| bot.contains(x) && user.contains(x) ==> exists|k: int| 0 <= k < reads.len() && (#[trigger] reads[k]).key() == x,
        forall|k: int| 0 <= k < reads.len() ==> bot.contains((#[trigger] reads[k]).key()) && user.contains(reads[k].key()),
        forall|k: int| 0 <= k < reads.len() ==> ((#[trigger] reads[k]).answer() matches Some(g)
            ==> somes(answers(reads)).contains(g)),
{
    law_shared_in_order_is_both(bot, user);
    let ids = shared_in_order(bot, user);
    let found = answers(reads);
    law_found_items_are_kept(found);
    assert forall|x: u64| bot.contains(x) && user.contains(x) implies exists|k: int| 0 <= k < reads.len() && (#[trigger] reads[k]).key() == x by {
        assert(ids.contains(x));
        let k = choose|k: int| 0 <= k < ids.len() && ids[k] == x;
        assert(reads[k].key() == x);
    }
    assert forall|k: int| 0 <= k < reads.len() implies bot.contains((#[trigger] reads[k]).key()) && user.contains(reads[k].key()) by {
        assert(ids.contains(ids[k]));
    }
    assert forall|k: int| 0 <= k < reads.len() implies ((#[trigger] reads[k]).answer() matches Some(g)
        ==> somes(found).contains(g)) by {
        assert(found[k] == reads[k].answer());
    }
}

impl VoiceChannelState {
    /// Member object associated with the voice state: the voice state must be in a guild, and
    /// the member must be cached.
    pub fn member(&self, cache: &DiscordCache) -> (r: Result<Member, QueryError>)
        requires
            self.user_id != 0,
            self.guild_id matches Some(g) ==> g != 0,
        ensures
            self.guild_id is None ==> r == Err::<Member, QueryError>(QueryError::NotInGuild),
            self.guild_id matches Some(g) ==> exists|found: Option<Member>|
                is_member_lookup(g, self.user_id, found) && #[trigger] found_or_error(found, QueryError::MemberNotCached) == r,
            self.guild_id matches Some(g) ==> exists|entry: MemberEntryRead, user: UserEntryRead|
                member_reads_fit(g, self.user_id, entry, user)
                && #[trigger] found_or_error(member_of_reads(entry, user), QueryError::MemberNotCached) == r,
    {
        let guild_id = match self.guild_id {
            Some(g) => g,
            None => return Err(QueryError::NotInGuild),
        };
        let found = cached_member(cache, guild_id, self.user_id);
        let r = require_found(found, QueryError::MemberNotCached);
        assert(found_or_error(found, QueryError::MemberNotCached) == r);
        proof {
            let (e, u) = choose|e: MemberEntryRead, u: UserEntryRead|
                member_reads_fit(guild_id, self.user_id, e, u) && #[trigger] member_of_reads(e, u) == found;
            assert(found_or_error(member_of_reads(e, u), QueryError::MemberNotCached) == r);
        }
        r
    }
}

impl VoiceChannel {
    /// The parent channel category, when the channel has one that is cached and is a category.
    pub fn category(&self, cache: &DiscordCache) -> (r: Option<CategoryChannel>)
        requires
            self@.parent_id matches Some(p) ==> p != 0,
        ensures
            self@.parent_id is None ==> r is None,
            self@.parent_id matches Some(p) ==> exists|found: Option<GuildChannel>|
                is_channel_lookup(p, found) && #[trigger] category_answer(found, r),
            self@.parent_id matches Some(p) ==> exists|read: CacheRead<u64, Option<GuildChannel>>|
                read.key() == p && #[trigger] category_answer(read.answer(), r),
    {
        let parent_id = match self.channel().parent_id {
            Some(p) => p,
            None => return None,
        };
        let read = cached_channel(cache, parent_id);
        let ghost rd = read;
        let found = read.into_answer();
        let ghost looked_up = found;
        let r = match found {
            Some(parent) => match CategoryChannel::try_from(parent) {
                Ok(c) => Some(c),
                Err(_) => None,
            },
            None => None,
        };
        assert(category_answer(looked_up, r));
        assert(category_answer(rd.answer(), r));
        r
    }

    /// Voice channel states in this voice channel, as cached; none when the cache does not know
    /// the channel.
    pub fn states(&self, cache: &DiscordCache) -> (r: Vec<VoiceChannelState>)
        requires
            self@.id != 0,
        ensures
            voice_states_fit(self@.id, r@),
            exists|read: CacheRead<u64, Option<Vec<VoiceChannelState>>>|
                read.key() == self@.id && #[trigger] states_of(read.answer()) == r@,
    {
        let read = cached_voice_states(cache, self.channel().id);
        let ghost rd = read;
        let r = match read.into_answer() {
            Some(states) => states,
            None => Vec::new(),
        };
        assert(states_of(rd.answer()) == r@);
        r
    }
}

/// What the category of a channel is, given what the cache gave for its parent id: the parent,
/// when it is a category.
pub open spec fn category_answer(found: Option<GuildChannel>, r: Option<CategoryChannel>) -> bool {
    match found {
        Some(c) if c.kind == GUILD_CATEGORY => (r matches Some(cat) && cat@ == c),
        _ => r is None,
    }
}

impl Guild {
    /// Guild member object of the owner of the guild, which must be cached.
    pub fn owner(&self, cache: &DiscordCache) -> (r: Result<Member, QueryError>)
        requires
            self.id != 0,
            self.owner_id != 0,
        ensures
            exists|found: Option<Member>|
                is_member_lookup(self.id, self.owner_id, found) && #[trigger] found_or_error(found, QueryError::OwnerNotCached) == r,
            exists|entry: MemberEntryRead, user: UserEntryRead|
                member_reads_fit(self.id, self.owner_id, entry, user)
                && #[trigger] found_or_error(member_of_reads(entry, user), QueryError::OwnerNotCached) == r,
    {
        let found = cached_member(cache, self.id, self.owner_id);
        let r = require_found(found, QueryError::OwnerNotCached);
        assert(found_or_error(found, QueryError::OwnerNotCached) == r);
        proof {
            let (e, u) = choose|e: MemberEntryRead, u: UserEntryRead|
                member_reads_fit(self.id, self.owner_id, e, u) && #[trigger] member_of_reads(e, u) == found;
            assert(found_or_error(member_of_reads(e, u), QueryError::OwnerNotCached) == r);
        }
        r
    }

    /// Voice channels in the guild: of its cached channels, in the order of its channel list,
    /// those that are voice channels, each once.
    pub fn voice_channels(&self, cache: &DiscordCache) -> (r: Vec<VoiceChannel>)
        requires
            self.id != 0,
        ensures
            exists|ids: Option<(u64, Vec<u64>)>, lookups: Seq<Option<GuildChannel>>|
                #[trigger] channel_lookups_fit(self.id, ids, lookups) && channels_of(r@) == voice_channels_of(somes(lookups)),
            exists|list: CacheRead<u64, Option<(u64, Vec<u64>)>>, reads: Seq<CacheRead<u64, Option<GuildChannel>>>|
                #[trigger] channel_reads_fit(self.id, list, reads) && channels_of(r@) == voice_channels_of(somes(answers(reads))),
            forall|i: int| 0 <= i < r.len() ==> (#[trigger] r[i])@.kind == GUILD_VOICE,
            forall|i: int, j: int| 0 <= i < j < r.len() ==> (#[trigger] r[i])@.id != (#[trigger] r[j])@.id,
    {
        let list_read = cached_guild_channel_ids(cache, self.id);
        let ghost list = list_read;
        let channel_ids = list_read.into_answer();
        let ghost listed = channel_ids;
        let ids = match channel_ids {
            Some((_, ids)) => ids,
            None => Vec::new(),
        };
        let mut lookups: Vec<Option<GuildChannel>> = Vec::new();
        let ghost mut reads: Seq<CacheRead<u64, Option<GuildChannel>>> = Seq::empty();
        let mut i: usize = 0;
        while i < ids.len()
            invariant
                0 <= i <= ids.len(),
                ids_nonzero(ids@),
                lookups.len() == i,
                forall|k: int| 0 <= k < i ==> is_channel_lookup(ids@[k], #[trigger] lookups@[k]),
                reads_of_ids(ids@.take(i as int), reads),
                lookups@ == answers(reads),
            decreases ids.len() - i,
        {
            let read = cached_channel(cache, ids[i]);
            proof {
                assert(answers(reads.push(read)) =~= answers(reads).push(read.answer()));
                reads = reads.push(read);
            }
            lookups.push(read.into_answer());
            i = i + 1;
        }
        assert(ids@.take(i as int) =~= ids@);
        let ghost found = lookups@;
        let ghost key: spec_fn(GuildChannel) -> u64 = |c: GuildChannel| c.id;
        assert(lookups_match(ids@, found, key)) by {
            assert forall|k: int| 0 <= k < found.len() implies (#[trigger] found[k] matches Some(x) ==> key(x) == ids@[k]) by {
                assert(is_channel_lookup(ids@[k], found[k]));
            }
        }
        proof {
            lemma_somes_from_lookups(ids@, found, key);
        }
        let channels = found_items(lookups);
        assert(channel_ids_distinct(channels@)) by {
            assert forall|a: int, b: int| 0 <= a < b < channels@.len() implies (#[trigger] channels@[a]).id != (#[trigger] channels@[b]).id by {
                assert(key(somes(found)[a]) != key(somes(found)[b]));
            }
        }
        let ghost all = channels@;
        let r = Self::voice_channels_among(channels);
        proof {
            crate::model::lemma_voice_channels_are_voice(r@, all);
            crate::model::lemma_voice_channels_distinct(all);
            assert forall|i: int, j: int| 0 <= i < j < r.len() implies (#[trigger] r[i])@.id != (#[trigger] r[j])@.id by {
                assert(channels_of(r@)[i] == r@[i]@);
                assert(channels_of(r@)[j] == r@[j]@);
            }
            assert(channel_lookups_fit(self.id, listed, found));
            assert(channel_reads_fit(self.id, list, reads));
        }
        r
    }

    /// A specific voice channel in the guild, by id: `None` when it is not cached, not a voice
    /// channel or not one of this guild's channels. No channel has the id 0.
    pub fn voice_channel(&self, cache: &DiscordCache, id: &str) -> (r: Result<Option<VoiceChannel>, QueryError>)
        ensures
            id_from_text(id@) is None <==> (r matches Err(QueryError::InvalidChannelId)),
            id_from_text(id@) is Some ==> r is Ok,
            id_from_text(id@) == Some(0u64) ==> r == Ok::<Option<VoiceChannel>, QueryError>(None),
            id_from_text(id@) matches Some(c) ==> c != 0 ==> exists|found: Option<GuildChannel>|
                is_channel_lookup(c, found) && #[trigger] voice_channel_answer(self.id, found, r->Ok_0),
            id_from_text(id@) matches Some(c) ==> c != 0 ==> exists|read: CacheRead<u64, Option<GuildChannel>>|
                read.key() == c && #[trigger] voice_channel_answer(self.id, read.answer(), r->Ok_0),
    {
        let channel_id = match parse_channel_id(id) {
            Ok(c) => c,
            Err(e) => return Err(e),
        };
        if channel_id == 0 {
            return Ok(None);
        }
        let read = cached_channel(cache, channel_id);
        let ghost rd = read;
        let found = read.into_answer();
        let ghost looked_up = found;
        let v = match found {
            Some(c) => {
                let in_guild = match c.guild_id {
                    Some(g) => g == self.id,
                    None => false,
                };
                if in_guild {
                    match VoiceChannel::try_from(c) {
                        Ok(v) => Some(v),
                        Err(_) => None,
                    }
                } else {
                    None
                }
            },
            None => None,
        };
        let r: Result<Option<VoiceChannel>, QueryError> = Ok(v);
        assert(is_channel_lookup(channel_id, looked_up));
        assert(voice_channel_answer(self.id, looked_up, r->Ok_0));
        assert(voice_channel_answer(self.id, rd.answer(), r->Ok_0));
        r
    }

    /// All the members of the guild that are cached: of the guild's member list, in its order,
    /// those whose member and user the cache holds, each once.
    pub fn members(&self, cache: &DiscordCache) -> (r: Vec<Member>)
        requires
            self.id != 0,
        ensures
            exists|ids: Option<(u64, Vec<u64>)>, lookups: Seq<Option<Member>>|
                #[trigger] member_lookups_fit(self.id, ids, lookups) && somes(lookups) == r@,
            exists|list: CacheRead<u64, Option<(u64, Vec<u64>)>>, reads: Seq<(MemberEntryRead, UserEntryRead)>|
                #[trigger] member_list_reads_fit(self.id, list, reads) && somes(member_answers(reads)) == r@,
            forall|i: int| 0 <= i < r.len() ==> (#[trigger] r[i]).guild_id == self.id,
            forall|i: int, j: int| 0 <= i < j < r.len() ==> (#[trigger] r[i]).user_id != (#[trigger] r[j]).user_id,
    {
        let list_read = cached_guild_member_ids(cache, self.id);
        let ghost list = list_read;
        let member_ids = list_read.into_answer();
        let ghost listed = member_ids;
        let ids = match member_ids {
            Some((_, ids)) => ids,
            None => Vec::new(),
        };
        let mut lookups: Vec<Option<Member>> = Vec::new();
        let ghost mut reads: Seq<(MemberEntryRead, UserEntryRead)> = Seq::empty();
        let mut i: usize = 0;
        while i < ids.len()
            invariant
                0 <= i <= ids.len(),
                self.id != 0,
                ids_nonzero(ids@),
                lookups.len() == i,
                forall|k: int| 0 <= k < i ==> is_member_lookup(self.id, ids@[k], #[trigger] lookups@[k]),
                reads.len() == i,
                forall|k: int| 0 <= k < i ==> member_reads_fit(self.id, ids@[k], (#[trigger] reads[k]).0, reads[k].1),
                lookups@ == member_answers(reads),
            decreases ids.len() - i,
        {
            let found = cached_member(cache, self.id, ids[i]);
            proof {
                let (e, u) = choose|e: MemberEntryRead, u: UserEntryRead|
                    member_reads_fit(self.id, ids@[i as int], e, u) && #[trigger] member_of_reads(e, u) == found;
                assert(member_answers(reads.push((e, u))) =~= member_answers(reads).push(found));
                reads = reads.push((e, u));
            }
            lookups.push(found);
            i = i + 1;
        }
        let ghost found = lookups@;
        let ghost key: spec_fn(Member) -> u64 = |m: Member| m.user_id;
        assert(lookups_match(ids@, found, key)) by {
            assert forall|k: int| 0 <= k < found.len() implies (#[trigger] found[k] matches Some(x) ==> key(x) == ids@[k]) by {
                assert(is_member_lookup(self.id, ids@[k], found[k]));
            }
        }
        proof {
            lemma_somes_from_lookups(ids@, found, key);
        }
        let r = found_items(lookups);
        assert forall|i: int| 0 <= i < r.len() implies (#[trigger] r[i]).guild_id == self.id by {
            assert(found.contains(Some(somes(found)[i])));
            let k = choose|k: int| 0 <= k < found.len() && found[k] == Some(somes(found)[i]);
            assert(is_member_lookup(self.id, ids@[k], found[k]));
        }
        assert forall|i: int, j: int| 0 <= i < j < r.len() implies (#[trigger] r[i]).user_id != (#[trigger] r[j]).user_id by {
            assert(key(somes(found)[i]) != key(somes(found)[j]));
        }
        assert(member_lookups_fit(self.id, listed, found));
        assert(member_list_reads_fit(self.id, list, reads));
        r
    }

    /// A specific member of the guild, by user id; `None` when not cached. No user has the id 0.
    pub fn member(&self, cache: &DiscordCache, id: &str) -> (r: Result<Option<Member>, QueryError>)
        requires
            self.id != 0,
        ensures
            id_from_text(id@) is None <==> (r matches Err(QueryError::InvalidUserId)),
            id_from_text(id@) is Some ==> r is Ok,
            id_from_text(id@) == Some(0u64) ==> r == Ok::<Option<Member>, QueryError>(None),
            id_from_text(id@) matches Some(u) ==> u != 0 ==> exists|found: Option<Member>|
                #[trigger] is_member_lookup(self.id, u, found) && Ok::<Option<Member>, QueryError>(found) == r,
            id_from_text(id@) matches Some(u) ==> u != 0 ==> exists|entry: MemberEntryRead, user: UserEntryRead|
                #[trigger] member_reads_fit(self.id, u, entry, user)
                && Ok::<Option<Member>, QueryError>(member_of_reads(entry, user)) == r,
    {
        let user_id = match parse_user_id(id) {
            Ok(u) => u,
            Err(e) => return Err(e),
        };
        if user_id == 0 {
            return Ok(None);
        }
        let found = cached_member(cache, self.id, user_id);
        assert(is_member_lookup(self.id, user_id, found));
        proof {
            let (e, u) = choose|e: MemberEntryRead, u: UserEntryRead|
                member_reads_fit(self.id, user_id, e, u) && #[trigger] member_of_reads(e, u) == found;
            assert(member_reads_fit(self.id, user_id, e, u));
        }
        Ok(found)
    }

    /// The logged in user, `user_id`, as a member of the guild, which must be cached.
    pub fn me(&self, cache: &DiscordCache, user_id: u64) -> (r: Result<Member, QueryError>)
        requires
            self.id != 0,
            user_id != 0,
        ensures
            exists|found: Option<Member>|
                is_member_lookup(self.id, user_id, found) && #[trigger] found_or_error(found, QueryError::MeNotCached) == r,
            exists|entry: MemberEntryRead, user: UserEntryRead|
                member_reads_fit(self.id, user_id, entry, user)
                && #[trigger] found_or_error(member_of_reads(entry, user), QueryError::MeNotCached) == r,
    {
        let found = cached_member(cache, self.id, user_id);
        let r = require_found(found, QueryError::MeNotCached);
        assert(found_or_error(found, QueryError::MeNotCached) == r);
        proof {
            let (e, u) = choose|e: MemberEntryRead, u: UserEntryRead|
                member_reads_fit(self.id, user_id, e, u) && #[trigger] member_of_reads(e, u) == found;
            assert(found_or_error(member_of_reads(e, u), QueryError::MeNotCached) == r);
        }
        r
    }
}

impl QueryRoot {
    /// Get a guild by id; `None` when it is not cached. No guild has the id 0.
    pub fn guild(cache: &DiscordCache, id: &str) -> (r: Result<Option<Guild>, QueryError>)
        ensures
            id_from_text(id@) is None <==> (r matches Err(QueryError::InvalidGuildId)),
            id_from_text(id@) is Some ==> r is Ok,
            id_from_text(id@) == Some(0u64) ==> r == Ok::<Option<Guild>, QueryError>(None),
            id_from_text(id@) matches Some(g) ==> g != 0 ==> exists|found: Option<Guild>|
                #[trigger] is_guild_lookup(g, found) && Ok::<Option<Guild>, QueryError>(found) == r,
            id_from_text(id@) matches Some(g) ==> g != 0 ==> exists|read: CacheRead<u64, Option<Guild>>|
                #![trigger read.answer()]
                read.key() == g && Ok::<Option<Guild>, QueryError>(read.answer()) == r,
    {
        let guild_id = match parse_guild_id(id) {
            Ok(g) => g,
            Err(e) => return Err(e),
        };
        if guild_id == 0 {
            return Ok(None);
        }
        let read = cached_guild(cache, guild_id);
        let ghost rd = read;
        let found = read.into_answer();
        assert(is_guild_lookup(guild_id, found));
        assert(rd.key() == guild_id && Ok::<Option<Guild>, QueryError>(rd.answer()) == Ok::<Option<Guild>, QueryError>(found));
        Ok(found)
    }

    /// The cached guilds among those that both the bot and the logged in user are in, in the
    /// order of the bot's list, each once.
    pub fn shared_guilds(cache: &DiscordCache, bot_guilds: &Vec<u64>, user_guilds: &Vec<u64>) -> (r: Vec<Guild>)
        requires
            ids_nonzero(bot_guilds@),
        ensures
            exists|lookups: Seq<Option<Guild>>|
                lookups.len() == shared_in_order(bot_guilds@, user_guilds@).len()
                && (forall|k: int| 0 <= k < lookups.len()
                    ==> is_guild_lookup(shared_in_order(bot_guilds@, user_guilds@)[k], #[trigger] lookups[k]))
                && #[trigger] somes(lookups) == r@,
            exists|reads: Seq<CacheRead<u64, Option<Guild>>>|
                #[trigger] reads_of_ids(shared_in_order(bot_guilds@, user_guilds@), reads) && somes(answers(reads)) == r@,
            forall|i: int| 0 <= i < r.len() ==> shared_ids(bot_guilds@, user_guilds@).contains(#[trigger] r[i].id),
            forall|i: int, j: int| 0 <= i < j < r.len() ==> (#[trigger] r[i]).id != (#[trigger] r[j]).id,
    {
        let ids = Self::shared_guild_ids(bot_guilds, user_guilds);
        let mut lookups: Vec<Option<Guild>> = Vec::new();
        let ghost mut reads: Seq<CacheRead<u64, Option<Guild>>> = Seq::empty();
        let mut i: usize = 0;
        while i < ids.len()
            invariant
                0 <= i <= ids.len(),
                ids@.to_set() == shared_ids(bot_guilds@, user_guilds@),
                ids_nonzero(bot_guilds@),
                lookups.len() == i,
                forall|k: int| 0 <= k < i ==> is_guild_lookup(ids@[k], #[trigger] lookups@[k]),
                reads_of_ids(ids@.take(i as int), reads),
                lookups@ == answers(reads),
            decreases ids.len() - i,
        {
            let g = ids[i];
            assert(ids@.to_set().contains(g));
            assert(bot_guilds@.to_set().contains(g));
            assert(g != 0) by {
                let k = choose|k: int| 0 <= k < bot_guilds@.len() && bot_guilds@[k] == g;
                assert(bot_guilds@[k] != 0);
            }
            let read = cached_guild(cache, g);
            proof {
                assert(answers(reads.push(read)) =~= answers(reads).push(read.answer()));
                reads = reads.push(read);
            }
            lookups.push(read.into_answer());
            i = i + 1;
        }
        assert(ids@.take(i as int) =~= ids@);
        let ghost found = lookups@;
        let ghost key: spec_fn(Guild) -> u64 = |g: Guild| g.id;
        assert(lookups_match(ids@, found, key)) by {
            assert forall|k: int| 0 <= k < found.len() implies (#[trigger] found[k] matches Some(x) ==> key(x) == ids@[k]) by {
                assert(is_guild_lookup(ids@[k], found[k]));
            }
        }
        proof {
            lemma_somes_from_lookups(ids@, found, key);
        }
        let r = found_items(lookups);
        assert forall|k: int| 0 <= k < r.len() implies shared_ids(bot_guilds@, user_guilds@).contains(#[trigger] r[k].id) by {
            assert(ids@.contains(key(somes(found)[k])));
            assert(ids@.to_set().contains(r[k].id));
        }
        assert forall|a: int, b: int| 0 <= a < b < r.len() implies (#[trigger] r[a]).id != (#[trigger] r[b]).id by {
            assert(key(somes(found)[a]) != key(somes(found)[b]));
        }
        r
    }

    /// Get information about the bot user, which must be cached.
    pub fn bot(cache: &DiscordCache) -> (r: Result<CurrentUser, QueryError>)
        ensures
            exists|found: Option<CurrentUser>|
                is_bot_lookup(found) && #[trigger] found_or_error(found, QueryError::BotNotCached) == r,
            exists|read: CacheRead<(), Option<CurrentUser>>|
                #[trigger] found_or_error(read.answer(), QueryError::BotNotCached) == r,
    {
        let read = cached_current_user(cache);
        let ghost rd = read;
        let found = read.into_answer();
        let r = require_found(found, QueryError::BotNotCached);
        assert(found_or_error(found, QueryError::BotNotCached) == r);
        assert(found_or_error(rd.answer(), QueryError::BotNotCached) == r);
        r
    }
}

} // verus!
