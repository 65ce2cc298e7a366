//! The in-memory cache that the gateway fills, and what the library reads from it.
//!
//! The cache is written by the gateway's event loop while the library reads it, so two reads
//! of one entry may differ: nothing here names what the cache holds, and each read states only
//! what holds of every answer. The cache keys each entry by the entry's own ids, so an entry
//! found has the ids asked for; and discord ids are never zero.
//!
//! Each read hands back a `CacheRead`: the key asked for and the answer, which only the reads
//! here can make. What the library answers is stated over such reads, so that an answer can
//! only be one that the cache gave.

use vstd::prelude::*;
use std::sync::Arc;
use twilight_cache_inmemory::InMemoryCache;
use twilight_model::id::Id;
use crate::model::{CurrentUser, Guild, GuildChannel, Member, PermissionOverwrite, Role, VoiceChannelState};

pub use crate::members::{cached_member, member_from_entries};

verus! {

/// The in-memory store of guilds, members, roles, channels and voice states that the
/// gateway keeps filling.
#[verifier::external_body]
pub struct DiscordCache {
    pub store: Arc<InMemoryCache>,
}

/// One answer of the cache: the key looked up and what the cache gave for it. Only the reads
/// of this module make one.
pub struct CacheRead<K, T> {
    key: K,
    answer: T,
}

impl<K, T> CacheRead<K, T> {
    /// The key that was looked up.
    pub closed spec fn key(self) -> K {
        self.key
    }

    /// What the cache gave for the key.
    pub closed spec fn answer(self) -> T {
        self.answer
    }

    /// What the cache gave for the key.
    pub fn into_answer(self) -> (r: T)
        ensures
            r == self.answer(),
    {
        self.answer
    }
}

/// What the cache holds of a member, apart from the user: (the (guild id, user id) key it is
/// kept under, joined at, server mute status, server deafened status, nickname, role ids).
pub type MemberEntry = ((u64, u64), Option<String>, Option<bool>, Option<bool>, Option<String>, Vec<u64>);

/// What the cache holds of a user: (user id, avatar hash, discriminator, name, is a bot).
pub type UserEntry = (u64, Option<String>, String, String, bool);

/// A read of a member entry, under its (guild id, user id) key.
pub type MemberEntryRead = CacheRead<(u64, u64), Option<MemberEntry>>;

/// A read of a user entry, under its user id.
pub type UserEntryRead = CacheRead<u64, Option<UserEntry>>;

/// The voice states that a read of a channel's states gives: none when the cache does not know
/// the channel.
pub open spec fn states_of(states: Option<Vec<VoiceChannelState>>) -> Seq<VoiceChannelState> {
    match states {
        Some(v) => v@,
        None => Seq::<VoiceChannelState>::empty(),
    }
}

/// Whether every id in a channel is non-zero.
pub open spec fn channel_ids_nonzero(c: GuildChannel) -> bool {
    &&& c.id != 0
    &&& c.guild_id matches Some(g) ==> g != 0
    &&& c.parent_id matches Some(p) ==> p != 0
    &&& forall|i: int| 0 <= i < c.overwrites().len() ==> #[trigger] c.overwrites()[i].id != 0
}

/// Whether every id in a list is non-zero.
pub open spec fn ids_nonzero(ids: Seq<u64>) -> bool {
    forall|i: int| 0 <= i < ids.len() ==> #[trigger] ids[i] != 0
}

/// `InMemoryCache::role`: the cached role with this id, if any.
#[verifier::external_body]
pub fn cached_role(cache: &DiscordCache, role_id: u64) -> (r: CacheRead<u64, Option<Role>>)
    requires
        role_id != 0,
    ensures
        r.key() == role_id,
        r.answer() matches Some(role) ==> role.id == role_id,
{
    let answer = cache.store.role(Id::new(role_id)).map(
        |r| Role { id: r.id.get(), position: r.position, color: r.color, permissions: r.permissions.bits() },
    );
    CacheRead { key: role_id, answer }
}

/// `InMemoryCache::member`: what the cache holds of the member of this guild with this user
/// id, if anything. The members are kept in a map keyed by (guild id, user id) and the entry
/// found is the one under the key asked for; that key is read back from the entry.
#[verifier::external_body]
pub fn cached_member_entry(cache: &DiscordCache, guild_id: u64, user_id: u64) -> (r: CacheRead<(u64, u64), Option<MemberEntry>>)
    requires
        guild_id != 0,
        user_id != 0,
    ensures
        r.key() == (guild_id, user_id),
        r.answer() matches Some(m) ==> m.0 == (guild_id, user_id) && ids_nonzero(m.5@),
{
    let answer = cache.store.member(Id::new(guild_id), Id::new(user_id)).map(|m| (
        (m.key().0.get(), m.key().1.get()),
        m.joined_at().map(|t| t.iso_8601().to_string()),
        m.mute(),
        m.deaf(),
        m.nick().map(str::to_string),
        m.roles().iter().map(|id| id.get()).collect(),
    ));
    CacheRead { key: (guild_id, user_id), answer }
}

/// `InMemoryCache::user`: what the cache holds of the user with this id, if anything; the
/// discriminator as discord shows it. Users are kept in a map keyed by their id, so the user
/// found has the id asked for.
#[verifier::external_body]
pub fn cached_user_entry(cache: &DiscordCache, user_id: u64) -> (r: CacheRead<u64, Option<UserEntry>>)
    requires
        user_id != 0,
    ensures
        r.key() == user_id,
        r.answer() matches Some(u) ==> u.0 == user_id,
{
    let answer = cache.store.user(Id::new(user_id)).map(|u| (
        u.key().get(),
        u.avatar.map(|hash| hash.to_string()),
        u.discriminator().to_string(),
        u.name.clone(),
        u.bot,
    ));
    CacheRead { key: user_id, answer }
}

/// `InMemoryCache::current_user`: the bot user, once the gateway has announced it.
#[verifier::external_body]
pub fn cached_current_user(cache: &DiscordCache) -> (r: CacheRead<(), Option<CurrentUser>>)
    ensures
        r.answer() matches Some(u) ==> u.id != 0,
{
    let answer = cache.store.current_user().map(|u| CurrentUser {
        id: u.id.get(),
        name: u.name.clone(),
        discriminator: u.discriminator().to_string(),
        mfa_enabled: u.mfa_enabled,
        avatar: u.avatar.map(|hash| hash.to_string()),
    });
    CacheRead { key: (), answer }
}

/// `InMemoryCache::guild`: the cached guild with this id, if any.
#[verifier::external_body]
pub fn cached_guild(cache: &DiscordCache, guild_id: u64) -> (r: CacheRead<u64, Option<Guild>>)
    requires
        guild_id != 0,
    ensures
        r.key() == guild_id,
        r.answer() matches Some(g) ==> g.id == guild_id && g.owner_id != 0,
{
    let answer = cache.store.guild(Id::new(guild_id)).map(|g| Guild {
        id: g.id().get(),
        name: g.name().to_string(),
        unavailable: g.unavailable(),
        owner_id: g.owner_id().get(),
        icon: g.icon().map(|hash| hash.to_string()),
        banner: g.banner().map(|hash| hash.to_string()),
    });
    CacheRead { key: guild_id, answer }
}

/// `InMemoryCache::channel`: the cached channel with this id, if any.
#[verifier::external_body]
pub fn cached_channel(cache: &DiscordCache, channel_id: u64) -> (r: CacheRead<u64, Option<GuildChannel>>)
    requires
        channel_id != 0,
    ensures
        r.key() == channel_id,
        r.answer() matches Some(c) ==> c.id == channel_id && channel_ids_nonzero(c),
{
    let answer = cache.store.channel(Id::new(channel_id)).map(|c| GuildChannel {
        id: c.id.get(),
        guild_id: c.guild_id.map(Id::get),
        kind: c.kind.into(),
        name: c.name.clone(),
        position: c.position,
        user_limit: c.user_limit,
        parent_id: c.parent_id.map(Id::get),
        permission_overwrites: c.permission_overwrites.as_ref().map(|v| v.iter().map(
            |o| PermissionOverwrite { kind: o.kind.into(), id: o.id.get(), allow: o.allow.bits(), deny: o.deny.bits() },
        ).collect()),
    });
    CacheRead { key: channel_id, answer }
}

/// `InMemoryCache::guild_channels`: the guild id that the set is kept under, and the ids of
/// the guild's cached channels, each once (the cache keeps them in a set), when the cache
/// knows the guild. The sets are kept in a map keyed by guild id, so the key read back is the
/// guild id asked for.
#[verifier::external_body]
pub fn cached_guild_channel_ids(cache: &DiscordCache, guild_id: u64) -> (r: CacheRead<u64, Option<(u64, Vec<u64>)>>)
    requires
        guild_id != 0,
    ensures
        r.key() == guild_id,
        r.answer() matches Some((g, ids)) ==> g == guild_id && ids_nonzero(ids@) && ids@.no_duplicates(),
{
    let answer = cache.store.guild_channels(Id::new(guild_id)).map(|ids| (ids.key().get(), ids.iter().map(|id| id.get()).collect()));
    CacheRead { key: guild_id, answer }
}

/// `InMemoryCache::guild_members`: the guild id that the set is kept under, and the user ids
/// of the guild's cached members, each once (the cache keeps them in a set), when the cache
/// knows the guild. The sets are kept in a map keyed by guild id, so the key read back is the
/// guild id asked for.
#[verifier::external_body]
pub fn cached_guild_member_ids(cache: &DiscordCache, guild_id: u64) -> (r: CacheRead<u64, Option<(u64, Vec<u64>)>>)
    requires
        guild_id != 0,
    ensures
        r.key() == guild_id,
        r.answer() matches Some((g, ids)) ==> g == guild_id && ids_nonzero(ids@) && ids@.no_duplicates(),
{
    let answer = cache.store.guild_members(Id::new(guild_id)).map(|ids| (ids.key().get(), ids.iter().map(|id| id.get()).collect()));
    CacheRead { key: guild_id, answer }
}

/// Whether `states` may be what the cache holds for the voice channel `channel_id`: each is a
/// state in that channel of a user of a guild, and no (guild, user) pair comes twice.
pub open spec fn voice_states_fit(channel_id: u64, states: Seq<VoiceChannelState>) -> bool {
    &&& forall|i: int| 0 <= i < states.len() ==> {
        &&& (#[trigger] states[i]).user_id != 0
        &&& states[i].channel_id == Some(channel_id)
        &&& states[i].guild_id matches Some(g) && g != 0
    }
    &&& forall|i: int, j: int| 0 <= i < j < states.len()
        ==> ((#[trigger] states[i]).guild_id, states[i].user_id) != ((#[trigger] states[j]).guild_id, states[j].user_id)
}

/// `InMemoryCache::voice_channel_states`: the voice states cached for the channel, when the
/// cache knows the channel. The iterator walks the channel's set of (guild, user) pairs, each
/// once, and gives the state cached under each pair; while it holds the channel's set, the
/// gateway cannot move a user into or out of the channel, so every state it gives is one in
/// this channel.
#[verifier::external_body]
pub fn cached_voice_states(cache: &DiscordCache, channel_id: u64) -> (r: CacheRead<u64, Option<Vec<VoiceChannelState>>>)
    requires
        channel_id != 0,
    ensures
        r.key() == channel_id,
        r.answer() matches Some(states) ==> voice_states_fit(channel_id, states@),
{
    let answer = cache.store.voice_channel_states(Id::new(channel_id)).map(|states| states.map(|s| VoiceChannelState {
        user_id: s.user_id().get(),
        guild_id: Some(s.guild_id().get()),
        channel_id: Some(s.channel_id().get()),
        deaf: s.deaf(),
        mute: s.mute(),
        self_deaf: s.self_deaf(),
        self_mute: s.self_mute(),
    }).collect());
    CacheRead { key: channel_id, answer }
}

/// The member that the cache's entries for the member and for the user give, with the ids of
/// the member entry's key; none when either is missing or the user entry is of another user.
pub open spec fn member_of_entries(entry: Option<MemberEntry>, user: Option<UserEntry>) -> Option<Member> {
    match (entry, user) {
        (Some(e), Some(u)) => if u.0 == e.0.1 {
            Some(Member {
                guild_id: e.0.0,
                user_id: e.0.1,
                avatar: u.1,
                joined_at: e.1,
                mute: e.2,
                deaf: e.3,
                nick: e.4,
                discriminator: u.2,
                name: u.3,
                bot: u.4,
                roles: e.5,
            })
        } else {
            None
        },
        _ => None,
    }
}

/// Whether `found` may be what looking up the member of guild `guild_id` with user id
/// `user_id` gave: a member found is that one.
pub open spec fn is_member_lookup(guild_id: u64, user_id: u64, found: Option<Member>) -> bool {
    found matches Some(m) ==> m.guild_id == guild_id && m.user_id == user_id && ids_nonzero(m.roles@)
}

} // verus!
