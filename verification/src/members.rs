//! A guild member as the cache holds it: the member entry and the user entry put together.

use vstd::prelude::*;
use crate::cache::{
    CacheRead, DiscordCache, MemberEntry, UserEntry, cached_member_entry, cached_user_entry, ids_nonzero, is_member_lookup,
    member_of_entries,
};
use crate::model::Member;

verus! {

/// The member that the cache's entries for the member and for the user give, with the ids of
/// the member entry's key; none when either is missing or the user entry is of another user.
pub fn member_from_entries(entry: Option<MemberEntry>, user: Option<UserEntry>) -> (r: Option<Member>)
    ensures
        r == member_of_entries(entry, user),
{
    match (entry, user) {
        (Some(((guild_id, user_id), joined_at, mute, deaf, nick, roles)), Some((id, avatar, discriminator, name, bot))) => {
            if id == user_id {
                Some(Member { guild_id, user_id, avatar, joined_at, mute, deaf, nick, discriminator, name, bot, roles })
            } else {
                None
            }
        },
        _ => None,
    }
}

/// Whether the reads are those of the member of guild `guild_id` with user id `user_id`: the
/// member entry under the key (guild, user) and the user entry under the user id.
pub open spec fn member_reads_fit(
    guild_id: u64,
    user_id: u64,
    entry: CacheRead<(u64, u64), Option<MemberEntry>>,
    user: CacheRead<u64, Option<UserEntry>>,
) -> bool {
    &&& entry.key() == (guild_id, user_id)
    &&& user.key() == user_id
    &&& (entry.answer() matches Some(e) ==> e.0 == (guild_id, user_id) && ids_nonzero(e.5@))
    &&& (user.answer() matches Some(u) ==> u.0 == user_id)
}

/// The member that the two reads give.
pub open spec fn member_of_reads(
    entry: CacheRead<(u64, u64), Option<MemberEntry>>,
    user: CacheRead<u64, Option<UserEntry>>,
) -> Option<Member> {
    member_of_entries(entry.answer(), user.answer())
}

/// The cached member of this guild with this user id, with what the cache holds of the user;
/// `None` when the cache lacks either.
pub fn cached_member(cache: &DiscordCache, guild_id: u64, user_id: u64) -> (r: Option<Member>)
    requires
        guild_id != 0,
        user_id != 0,
    ensures
        is_member_lookup(guild_id, user_id, r),
        exists|entry: Option<MemberEntry>, user: Option<UserEntry>|
            (entry matches Some(e) ==> e.0 == (guild_id, user_id) && ids_nonzero(e.5@))
            && (user matches Some(u) ==> u.0 == user_id)
            && #[trigger] member_of_entries(entry, user) == r,
        exists|entry: CacheRead<(u64, u64), Option<MemberEntry>>, user: CacheRead<u64, Option<UserEntry>>|
            member_reads_fit(guild_id, user_id, entry, user) && #[trigger] member_of_reads(entry, user) == r,
{
    let entry_read = cached_member_entry(cache, guild_id, user_id);
    let user_read = cached_user_entry(cache, user_id);
    let ghost er = entry_read;
    let ghost ur = user_read;
    let entry = entry_read.into_answer();
    let user = user_read.into_answer();
    let r = member_from_entries(entry, user);
    assert(member_reads_fit(guild_id, user_id, er, ur));
    assert(member_of_reads(er, ur) == r);
    assert(member_of_entries(entry, user) == r);
    r
}

} // verus!
