//! Which of the permissions that muting needs a user lacks in a voice channel.

use vstd::prelude::*;
use twilight_model::channel::permission_overwrite::{
    PermissionOverwrite as OverwriteModel, PermissionOverwriteType,
};
use twilight_model::channel::ChannelType;
use twilight_model::guild::Permissions;
use twilight_model::id::Id;
use twilight_util::permission_calculator::PermissionCalculator;
use crate::cache::{
    CacheRead, DiscordCache, MemberEntry, MemberEntryRead, cached_current_user, cached_member_entry, cached_role, ids_nonzero,
};
use crate::lookup::{answers, reads_of_ids};
use crate::model::CurrentUser;
use crate::errors::QueryError;
use crate::model::{GuildChannel, PermissionOverwrite, Role, VoiceChannel};
use crate::text::{is_white_space, join_with, law_split_join, split_and_trim, trim, trim_end, trim_start};

verus! {

/// Permission bit to see a channel.
pub const VIEW_CHANNEL: u64 = 1u64 << 10;
/// Permission bit to mute members in voice channels.
pub const MUTE_MEMBERS: u64 = 1u64 << 22;
/// Permission bit to deafen members in voice channels.
pub const DEAFEN_MEMBERS: u64 = 1u64 << 23;

/// The permissions that both the bot and the user need in a channel to mute its members.
pub const REQUIRED_PERMISSIONS: u64 = MUTE_MEMBERS | DEAFEN_MEMBERS | VIEW_CHANNEL;

/// The permission bits that the permission calculator of `twilight-util` works out for a
/// member in a channel: a name for what `PermissionCalculator::in_channel` returns, given the
/// guild, the user, the permissions of the `@everyone` role, the member's other roles as
/// (id, permissions), the channel type number and the channel's overwrites. Permission bits
/// that twilight does not know are dropped before the calculation.
pub uninterp spec fn channel_permissions_of(
    guild_id: u64,
    user_id: u64,
    everyone: u64,
    member_roles: Seq<(u64, u64)>,
    channel_kind: u8,
    overwrites: Seq<PermissionOverwrite>,
) -> u64;

/// `PermissionCalculator::in_channel` of `twilight-util`: the member's permissions in the
/// channel, as the name `channel_permissions_of` gives them. Ids must be non-zero.
#[verifier::external_body]
fn calculate_channel_permissions(
    guild_id: u64,
    user_id: u64,
    everyone: u64,
    member_roles: &Vec<(u64, u64)>,
    channel_kind: u8,
    overwrites: &Vec<PermissionOverwrite>,
) -> (p: u64)
    requires
        guild_id != 0,
        user_id != 0,
        forall|i: int| 0 <= i < member_roles.len() ==> #[trigger] member_roles[i].0 != 0,
        forall|i: int| 0 <= i < overwrites.len() ==> #[trigger] overwrites[i].id != 0,
    ensures
        p == channel_permissions_of(guild_id, user_id, everyone, member_roles@, channel_kind, overwrites@),
{
    let roles: Vec<_> = member_roles.iter().map(|&(id, p)| (Id::new(id), Permissions::from_bits_truncate(p))).collect();
    let overwrites: Vec<_> = overwrites.iter().map(|o| OverwriteModel {
        allow: Permissions::from_bits_truncate(o.allow),
        deny: Permissions::from_bits_truncate(o.deny),
        id: Id::new(o.id),
        kind: PermissionOverwriteType::from(o.kind),
    }).collect();
    let calculator = PermissionCalculator::new(Id::new(guild_id), Id::new(user_id), Permissions::from_bits_truncate(everyone), &roles);
    calculator.in_channel(ChannelType::from(channel_kind), &overwrites).bits()
}

/// The names of the required permissions set in `bits`, in the order in which `Permissions`
/// declares them.
pub open spec fn required_flag_names(bits: u64) -> Seq<Seq<char>> {
    (if bits & VIEW_CHANNEL != 0 { seq!["VIEW_CHANNEL"@] } else { Seq::<Seq<char>>::empty() })
        + (if bits & MUTE_MEMBERS != 0 { seq!["MUTE_MEMBERS"@] } else { Seq::<Seq<char>>::empty() })
        + (if bits & DEAFEN_MEMBERS != 0 { seq!["DEAFEN_MEMBERS"@] } else { Seq::<Seq<char>>::empty() })
}

/// `bitflags::parser::to_writer` on `Permissions`: for bits among the required permissions,
/// the names of the flags set, in declaration order, separated by `" | "`. No other flag of
/// `Permissions` has any of these bits, so no flag of several bits is written and nothing is
/// left over to write in hexadecimal.
#[verifier::external_body]
fn permission_names(bits: u64) -> (s: String)
    requires
        bits & !REQUIRED_PERMISSIONS == 0,
    ensures
        s@ == join_with(required_flag_names(bits), " | "@),
{
    let mut s = String::new();
    let _ = bitflags::parser::to_writer(&Permissions::from_bits_truncate(bits), &mut s);
    s
}

/// The required permissions that `granted` lacks.
pub open spec fn missing_bits(granted: u64) -> u64 {
    REQUIRED_PERMISSIONS & !granted
}

/// The names of the required permissions that `granted` lacks, or `None` when it lacks none.
pub open spec fn missing_names(granted: u64) -> Option<Seq<Seq<char>>> {
    if missing_bits(granted) == 0 {
        None
    } else {
        Some(required_flag_names(missing_bits(granted)))
    }
}

/// The permissions reported missing are required ones that are not granted, and together
/// with the required ones granted they make up all that is required; none are reported
/// exactly when every required permission is granted.
pub proof fn law_missing_is_required_minus_granted(granted: u64)
    ensures
        missing_bits(granted) & granted == 0,
        missing_bits(granted) & REQUIRED_PERMISSIONS == missing_bits(granted),
        missing_bits(granted) | (granted & REQUIRED_PERMISSIONS) == REQUIRED_PERMISSIONS,
        missing_names(granted) is None <==> granted & REQUIRED_PERMISSIONS == REQUIRED_PERMISSIONS,
{
    let r = REQUIRED_PERMISSIONS;
    assert(r & !granted & granted == 0) by (bit_vector);
    assert((r & !granted) & r == r & !granted) by (bit_vector);
    assert((r & !granted) | (granted & r) == r) by (bit_vector);
    assert((r & !granted == 0) <==> (granted & r == r)) by (bit_vector);
}

/// The texts of a list of strings.
pub open spec fn texts(v: Seq<String>) -> Seq<Seq<char>> {
    v.map_values(|s: String| s@)
}

/// The texts of an optional list of strings.
pub open spec fn opt_texts(v: Option<Vec<String>>) -> Option<Seq<Seq<char>>> {
    match v {
        Some(v) => Some(texts(v@)),
        None => None,
    }
}

/// The entries (id, permissions) that the permission calculator takes for roles.
pub open spec fn role_entries(roles: Seq<Role>) -> Seq<(u64, u64)> {
    roles.map_values(|r: Role| (r.id, r.permissions))
}

/// Whether every id in the channel that permissions depend on is non-zero.
pub open spec fn channel_ids_valid(c: GuildChannel) -> bool {
    &&& c.guild_id matches Some(g) ==> g != 0
    &&& forall|i: int| 0 <= i < c.overwrites().len() ==> #[trigger] c.overwrites()[i].id != 0
}

/// What the missing permissions of `user_id` in `channel` are, given the permissions of the
/// guild's `@everyone` role and the member's roles as (id, permissions).
pub open spec fn channel_outcome(channel: GuildChannel, user_id: u64, everyone: u64, roles: Seq<(u64, u64)>) -> Option<Seq<Seq<char>>> {
    missing_names(
        channel_permissions_of(channel.guild_id->0, user_id, everyone, roles, channel.kind, channel.overwrites()),
    )
}

/// Nothing is reported missing for a user in a channel exactly when the permissions calculated
/// for them there include every permission that muting needs.
pub proof fn law_nothing_missing_iff_all_granted(channel: GuildChannel, user_id: u64, everyone: u64, roles: Seq<(u64, u64)>)
    ensures
        channel_outcome(channel, user_id, everyone, roles) is None
            <==> channel_permissions_of(channel.guild_id->0, user_id, everyone, roles, channel.kind, channel.overwrites())
                & REQUIRED_PERMISSIONS == REQUIRED_PERMISSIONS,
{
    law_missing_is_required_minus_granted(
        channel_permissions_of(channel.guild_id->0, user_id, everyone, roles, channel.kind, channel.overwrites()),
    );
}

/// A flag name is upper-case letters and `_`: it holds no `|` and no white space at its ends.
proof fn lemma_flag_name(name: Seq<char>)
    requires
        name.len() > 0,
        forall|i: int| 0 <= i < name.len() ==> ('A' <= #[trigger] name[i] <= 'Z' || name[i] == '_'),
    ensures
        !name.contains('|'),
        trim(name) == name,
{
    assert(!is_white_space(name[0]));
    assert(!is_white_space(name.last()));
    assert(trim_start(name) == name);
    assert(trim_end(name) == name);
}

/// The names of a non-empty set of required permissions: at least one, each a flag name.
proof fn lemma_required_flag_names(bits: u64)
    requires
        bits != 0,
        bits & !REQUIRED_PERMISSIONS == 0,
    ensures
        required_flag_names(bits).len() > 0,
        forall|i: int| 0 <= i < required_flag_names(bits).len()
            ==> !(#[trigger] required_flag_names(bits)[i]).contains('|'),
        forall|i: int| 0 <= i < required_flag_names(bits).len()
            ==> trim(#[trigger] required_flag_names(bits)[i]) == required_flag_names(bits)[i],
{
    reveal_strlit("VIEW_CHANNEL");
    reveal_strlit("MUTE_MEMBERS");
    reveal_strlit("DEAFEN_MEMBERS");
    assert(bits & (1u64 << 10) != 0 || bits & (1u64 << 22) != 0 || bits & (1u64 << 23) != 0) by (bit_vector)
        requires
            bits != 0,
            bits & !((1u64 << 22) | (1u64 << 23) | (1u64 << 10)) == 0,
    ;
    lemma_flag_name("VIEW_CHANNEL"@);
    lemma_flag_name("MUTE_MEMBERS"@);
    lemma_flag_name("DEAFEN_MEMBERS"@);
    let names = required_flag_names(bits);
    assert forall|i: int| 0 <= i < names.len() implies
        (names[i] == "VIEW_CHANNEL"@ || names[i] == "MUTE_MEMBERS"@ || names[i] == "DEAFEN_MEMBERS"@) by {}
}

/// The names of the required permissions that `granted` lacks, or `None` when it has them all.
pub fn missing_permission_names(granted: u64) -> (r: Option<Vec<String>>)
    ensures
        opt_texts(r) == missing_names(granted),
        r is None <==> missing_bits(granted) == 0,
{
    let missing = REQUIRED_PERMISSIONS & !granted;
    if missing == 0 {
        None
    } else {
        assert(missing & !REQUIRED_PERMISSIONS == 0) by (bit_vector)
            requires
                missing == REQUIRED_PERMISSIONS & !granted,
        ;
        let text = permission_names(missing);
        let names = split_and_trim(text.as_str(), '|');
        proof {
            lemma_required_flag_names(missing);
            law_split_join(required_flag_names(missing));
        }
        assert(texts(names@) =~= required_flag_names(missing));
        Some(names)
    }
}

/// Puts together what the permission calculator needs from the roles looked up: the
/// `@everyone` role must have been found, then every role of the member.
pub fn combine_role_lookups(everyone: Option<Role>, member_roles: Vec<Option<Role>>) -> (r: Result<(u64, Vec<(u64, u64)>), QueryError>)
    ensures
        everyone is None ==> (r matches Err(QueryError::EveryoneRoleMissing)),
        everyone is Some && (exists|i: int| 0 <= i < member_roles.len() && #[trigger] member_roles[i] is None)
            ==> (r matches Err(QueryError::RolesMissing)),
        everyone is Some && (forall|i: int| 0 <= i < member_roles.len() ==> #[trigger] member_roles[i] is Some)
            ==> (r matches Ok((e, v)) && e == everyone->0.permissions
                && v@ == member_roles@.map_values(|o: Option<Role>| (o->0.id, o->0.permissions))),
{
    let everyone_role = match &everyone {
        Some(role) => role.permissions,
        None => return Err(QueryError::EveryoneRoleMissing),
    };
    let mut entries: Vec<(u64, u64)> = Vec::new();
    let mut i: usize = 0;
    while i < member_roles.len()
        invariant
            0 <= i <= member_roles.len(),
            everyone is Some,
            forall|j: int| 0 <= j < i ==> #[trigger] member_roles[j] is Some,
            entries@ == member_roles@.take(i as int).map_values(|o: Option<Role>| (o->0.id, o->0.permissions)),
        decreases member_roles.len() - i,
    {
        match &member_roles[i] {
            Some(role) => {
                entries.push((role.id, role.permissions));
                assert(member_roles@.take(i + 1) =~= member_roles@.take(i as int).push(member_roles@[i as int]));
            },
            None => return Err(QueryError::RolesMissing),
        }
        i = i + 1;
    }
    assert(member_roles@.take(i as int) =~= member_roles@);
    Ok((everyone_role, entries))
}

/// The missing permissions of `user_id` in `channel`, given the permissions of the guild's
/// `@everyone` role and the member's other roles as (id, permissions).
pub fn missing_permissions_with(channel: &VoiceChannel, user_id: u64, everyone: u64, roles: &Vec<(u64, u64)>) -> (r: Option<Vec<String>>)
    requires
        channel@.guild_id matches Some(g) && g != 0,
        channel_ids_valid(channel@),
        user_id != 0,
        forall|i: int| 0 <= i < roles.len() ==> #[trigger] roles[i].0 != 0,
    ensures
        opt_texts(r) == channel_outcome(channel@, user_id, everyone, roles@),
{
    let c = channel.channel();
    let guild_id = match c.guild_id {
        Some(g) => g,
        None => 0,
    };
    let no_overwrites: Vec<PermissionOverwrite> = Vec::new();
    let overwrites = match &c.permission_overwrites {
        Some(v) => v,
        None => &no_overwrites,
    };
    assert(overwrites@ == c.overwrites());
    let granted = calculate_channel_permissions(guild_id, user_id, everyone, roles, channel.kind(), overwrites);
    missing_permission_names(granted)
}

/// Whether `found` holds, for each of the member's role ids in turn, what looking it up gave.
pub open spec fn lookups_aligned(ids: Seq<u64>, found: Seq<Option<Role>>) -> bool {
    &&& found.len() == ids.len()
    &&& forall|i: int| 0 <= i < found.len() ==> (#[trigger] found[i] matches Some(role) ==> role.id == ids[i])
}

/// The (id, permissions) entries of the roles found.
pub open spec fn found_entries(found: Seq<Option<Role>>) -> Seq<(u64, u64)> {
    found.map_values(|o: Option<Role>| (o->0.id, o->0.permissions))
}

/// What the cache gave for a member, as far as permissions go: the (guild id, user id) key the
/// member entry was found under, and the member's role ids.
pub type MemberRoles = ((u64, u64), Vec<u64>);

/// Whether the lookups are those of `user_id` in the channel's guild: the member entry found
/// is the one under the key (guild id, `user_id`), the `@everyone` role found is the one whose
/// id is the guild's, and once it is found, the member's roles were each looked up.
pub open spec fn lookups_fit(
    channel: GuildChannel,
    user_id: u64,
    member_roles: Option<MemberRoles>,
    everyone: Option<Role>,
    found: Seq<Option<Role>>,
) -> bool {
    &&& (member_roles matches Some(m) ==> channel.guild_id == Some(m.0.0) && m.0.1 == user_id)
    &&& (everyone matches Some(role) ==> channel.guild_id == Some(role.id))
    &&& everyone is Some ==> (member_roles matches Some(m) ==> lookups_aligned(m.1@, found))
}

/// What the missing permissions of `user_id` in `channel` come to, given what the cache gave
/// for the member's role ids, for the `@everyone` role and for each of the member's roles:
/// the first lookup that found nothing is the error, and otherwise the names of the required
/// permissions that the calculation leaves out.
pub open spec fn permission_answer(
    channel: GuildChannel,
    user_id: u64,
    member_roles: Option<MemberRoles>,
    everyone: Option<Role>,
    found: Seq<Option<Role>>,
    r: Result<Option<Vec<String>>, QueryError>,
) -> bool {
    if channel.guild_id is None {
        r matches Err(QueryError::ChannelMissingGuild)
    } else if member_roles is None {
        r matches Err(QueryError::UserNotInGuild)
    } else if everyone is None {
        r matches Err(QueryError::EveryoneRoleMissing)
    } else if exists|i: int| 0 <= i < found.len() && #[trigger] found[i] is None {
        r matches Err(QueryError::RolesMissing)
    } else {
        (r matches Ok(names) && opt_texts(names) == channel_outcome(channel, user_id, everyone->0.permissions, found_entries(found)))
    }
}

/// The same lookups give the same answer: whatever two runs of the check read alike from the
/// cache, they answer alike.
pub proof fn law_same_lookups_same_answer(
    channel: GuildChannel,
    user_id: u64,
    member_roles: Option<MemberRoles>,
    everyone: Option<Role>,
    found: Seq<Option<Role>>,
    r1: Result<Option<Vec<String>>, QueryError>,
    r2: Result<Option<Vec<String>>, QueryError>,
)
    requires
        permission_answer(channel, user_id, member_roles, everyone, found, r1),
        permission_answer(channel, user_id, member_roles, everyone, found, r2),
    ensures
        r1 is Ok <==> r2 is Ok,
        r1 matches Err(e1) ==> (r2 matches Err(e2) && e1 == e2),
        r1 matches Ok(n1) ==> (r2 matches Ok(n2) && opt_texts(n1) == opt_texts(n2)),
{
}

/// The missing permissions of `user_id` in `channel`, from what the cache gave for the
/// member's role ids, the `@everyone` role and each of the member's roles in turn.
pub fn permissions_from_lookups(
    channel: &VoiceChannel,
    user_id: u64,
    member_roles: Option<MemberRoles>,
    everyone: Option<Role>,
    found: Vec<Option<Role>>,
) -> (r: Result<Option<Vec<String>>, QueryError>)
    requires
        channel_ids_valid(channel@),
        user_id != 0,
        member_roles matches Some(m) ==> ids_nonzero(m.1@),
        lookups_fit(channel@, user_id, member_roles, everyone, found@),
    ensures
        permission_answer(channel@, user_id, member_roles, everyone, found@, r),
{
    if channel.channel().guild_id.is_none() {
        return Err(QueryError::ChannelMissingGuild);
    }
    let role_ids = match member_roles {
        Some((_, ids)) => ids,
        None => return Err(QueryError::UserNotInGuild),
    };
    let ghost found_view = found@;
    let combined = combine_role_lookups(everyone, found);
    match combined {
        Ok((everyone_bits, entries)) => {
            assert(forall|i: int| 0 <= i < found_view.len() ==> #[trigger] found_view[i] is Some);
            assert(entries@ == found_entries(found_view));
            assert forall|j: int| 0 <= j < entries.len() implies #[trigger] entries[j].0 != 0 by {
                assert(found_view[j] is Some);
                assert(entries@[j] == (found_view[j]->0.id, found_view[j]->0.permissions));
                assert(role_ids@[j] != 0);
            }
            let names = missing_permissions_with(channel, user_id, everyone_bits, &entries);
            Ok(names)
        },
        Err(e) => Err(e),
    }
}

/// The member's (key, role ids) that a read of a member entry gives.
pub open spec fn member_roles_of(entry: Option<MemberEntry>) -> Option<MemberRoles> {
    match entry {
        Some(e) => Some((e.0, e.5)),
        None => None,
    }
}

/// The role ids that a read of a member entry gives; none without an entry.
pub open spec fn role_ids_of(entry: Option<MemberEntry>) -> Seq<u64> {
    match entry {
        Some(e) => e.5@,
        None => Seq::<u64>::empty(),
    }
}

/// Whether the reads are those that checking `user_id` in the guild `guild_id` makes: the
/// member entry under (guild, user), the `@everyone` role under the guild's id and, once both
/// are found, the role under each of the member's role ids in turn.
pub open spec fn permission_reads_fit(
    guild_id: u64,
    user_id: u64,
    member: MemberEntryRead,
    everyone: CacheRead<u64, Option<Role>>,
    roles: Seq<CacheRead<u64, Option<Role>>>,
) -> bool {
    &&& member.key() == (guild_id, user_id)
    &&& everyone.key() == guild_id
    &&& (member.answer() matches Some(e) ==> e.0 == (guild_id, user_id) && ids_nonzero(e.5@))
    &&& (everyone.answer() matches Some(role) ==> role.id == guild_id)
    &&& forall|k: int| 0 <= k < roles.len() ==> ((#[trigger] roles[k]).answer() matches Some(role) ==> role.id == roles[k].key())
    &&& if member.answer() is Some && everyone.answer() is Some {
        reads_of_ids(role_ids_of(member.answer()), roles)
    } else {
        roles.len() == 0
    }
}

/// What the check of `user_id`'s missing permissions in `channel` answers from the cache's
/// answers to the reads it makes.
pub open spec fn permission_check_read(channel: GuildChannel, user_id: u64, r: Result<Option<Vec<String>>, QueryError>) -> bool {
    match channel.guild_id {
        None => r matches Err(QueryError::ChannelMissingGuild),
        Some(g) => exists|member: MemberEntryRead, everyone: CacheRead<u64, Option<Role>>, roles: Seq<CacheRead<u64, Option<Role>>>|
            #[trigger] permission_reads_fit(g, user_id, member, everyone, roles)
            && permission_answer(channel, user_id, member_roles_of(member.answer()), everyone.answer(), answers(roles), r),
    }
}

/// A check that answers reads the member's roles one by one: the roles it weighs are, for
/// each of the member's role ids in turn, the role that the cache gave for that id, with that
/// role's own permissions; and the answer is what the calculation over exactly those roles and
/// the `@everyone` role found leaves out.
pub proof fn law_check_weighs_each_role_read(
    channel: GuildChannel,
    guild_id: u64,
    user_id: u64,
    member: MemberEntryRead,
    everyone: CacheRead<u64, Option<Role>>,
    roles: Seq<CacheRead<u64, Option<Role>>>,
    r: Result<Option<Vec<String>>, QueryError>,
)
    requires
        channel.guild_id == Some(guild_id),
        permission_reads_fit(guild_id, user_id, member, everyone, roles),
        permission_answer(channel, user_id, member_roles_of(member.answer()), everyone.answer(), answers(roles), r),
        r is Ok,
    ensures
        member.answer() is Some && everyone.answer() is Some,
        roles.len() == role_ids_of(member.answer()).len(),
        forall|k: int| 0 <= k < roles.len() ==> {
            &&& (#[trigger] roles[k]).key() == role_ids_of(member.answer())[k]
            &&& roles[k].answer() is Some
            &&& found_entries(answers(roles))[k] == (roles[k].key(), roles[k].answer()->0.permissions)
        },
        r matches Ok(names) && opt_texts(names) == channel_outcome(
            channel, user_id, everyone.answer()->0.permissions, found_entries(answers(roles))),
{
    assert forall|k: int| 0 <= k < roles.len() implies {
        &&& (#[trigger] roles[k]).key() == role_ids_of(member.answer())[k]
        &&& roles[k].answer() is Some
        &&& found_entries(answers(roles))[k] == (roles[k].key(), roles[k].answer()->0.permissions)
    } by {
        assert(answers(roles)[k] == roles[k].answer());
        if roles[k].answer() is None {
            assert(answers(roles)[k] is None);
        }
    }
}

/// What the check of the bot's missing permissions in `channel` answers, given the cache's
/// answer for the bot user: `BotUserUnavailable` without one, else the check of its id.
pub open spec fn bot_check_read(channel: GuildChannel, bot: Option<CurrentUser>, r: Result<Option<Vec<String>>, QueryError>) -> bool {
    match bot {
        None => r matches Err(QueryError::BotUserUnavailable),
        Some(u) => u.id != 0 && permission_check_read(channel, u.id, r),
    }
}

/// The required permissions that `user_id` lacks in `channel`, reading the member's roles and
/// the guild's `@everyone` role from the cache; `None` when the user has them all.
///
/// The channel must have a guild id, the user must be a cached member of that guild, and the
/// `@everyone` role and every role of the member must be cached; the first of these that fails
/// is the error.
pub fn missing_permissions(cache: &DiscordCache, channel: &VoiceChannel, user_id: u64) -> (r: Result<Option<Vec<String>>, QueryError>)
    requires
        channel_ids_valid(channel@),
        user_id != 0,
    ensures
        channel@.guild_id is None <==> (r matches Err(QueryError::ChannelMissingGuild)),
        exists|member_roles: Option<MemberRoles>, everyone: Option<Role>, found: Seq<Option<Role>>|
            lookups_fit(channel@, user_id, member_roles, everyone, found)
            && #[trigger] permission_answer(channel@, user_id, member_roles, everyone, found, r),
        permission_check_read(channel@, user_id, r),
{
    let c = channel.channel();
    let guild_id = match c.guild_id {
        Some(g) => g,
        None => {
            let r = Err(QueryError::ChannelMissingGuild);
            assert(permission_answer(channel@, user_id, None, None, Seq::empty(), r));
            return r;
        },
    };
    let member_read = cached_member_entry(cache, guild_id, user_id);
    let ghost mr = member_read;
    let member_roles = match member_read.into_answer() {
        Some((key, _, _, _, _, roles)) => Some((key, roles)),
        None => None,
    };
    assert(member_roles == member_roles_of(mr.answer()));
    let everyone_read = cached_role(cache, guild_id);
    let ghost er = everyone_read;
    let everyone = everyone_read.into_answer();
    let mut found: Vec<Option<Role>> = Vec::new();
    let ghost mut reads: Seq<CacheRead<u64, Option<Role>>> = Seq::empty();
    if everyone.is_some() {
        if let Some((_, role_ids)) = &member_roles {
            let mut i: usize = 0;
            while i < role_ids.len()
                invariant
                    0 <= i <= role_ids.len(),
                    found.len() == i,
                    forall|j: int| 0 <= j < role_ids.len() ==> #[trigger] role_ids[j] != 0,
                    forall|j: int| 0 <= j < i ==> (#[trigger] found[j] matches Some(role) ==> role.id == role_ids[j]),
                    reads_of_ids(role_ids@.take(i as int), reads),
                    found@ == answers(reads),
                    forall|k: int| 0 <= k < reads.len() ==> ((#[trigger] reads[k]).answer() matches Some(role) ==> role.id == reads[k].key()),
                decreases role_ids.len() - i,
            {
                let read = cached_role(cache, role_ids[i]);
                proof {
                    assert(answers(reads.push(read)) =~= answers(reads).push(read.answer()));
                    reads = reads.push(read);
                }
                found.push(read.into_answer());
                i = i + 1;
            }
            assert(role_ids@.take(i as int) =~= role_ids@);
        }
    }
    assert(permission_reads_fit(guild_id, user_id, mr, er, reads));
    let ghost found_view = found@;
    let ghost roles_view = member_roles;
    let r = permissions_from_lookups(channel, user_id, member_roles, everyone, found);
    assert(lookups_fit(channel@, user_id, roles_view, everyone, found_view));
    assert(permission_answer(channel@, user_id, roles_view, everyone, found_view, r));
    assert(permission_answer(channel@, user_id, member_roles_of(mr.answer()), er.answer(), answers(reads), r));
    r
}

impl VoiceChannel {
    /// The permissions that the logged in user, `user_id`, is missing in this channel;
    /// `None` if the user has enough permissions.
    pub fn user_missing_permissions(&self, cache: &DiscordCache, user_id: u64) -> (r: Result<Option<Vec<String>>, QueryError>)
        requires
            channel_ids_valid(self@),
            user_id != 0,
        ensures
            self@.guild_id is None <==> (r matches Err(QueryError::ChannelMissingGuild)),
            exists|member_roles: Option<MemberRoles>, everyone: Option<Role>, found: Seq<Option<Role>>|
                lookups_fit(self@, user_id, member_roles, everyone, found)
                && #[trigger] permission_answer(self@, user_id, member_roles, everyone, found, r),
            permission_check_read(self@, user_id, r),
    {
        missing_permissions(cache, self, user_id)
    }

    /// The permissions that the bot is missing in this channel; `None` if the bot has enough
    /// permissions. The bot user must be cached: `bot` below is what the cache gave for it.
    pub fn bot_missing_permissions(&self, cache: &DiscordCache) -> (r: Result<Option<Vec<String>>, QueryError>)
        requires
            channel_ids_valid(self@),
        ensures
            exists|bot: Option<u64>, member_roles: Option<MemberRoles>, everyone: Option<Role>, found: Seq<Option<Role>>|
                #[trigger] bot_answer(self@, bot, member_roles, everyone, found, r),
            r matches Err(QueryError::BotUserUnavailable) ==> forall|bot: Option<u64>, member_roles: Option<MemberRoles>, everyone: Option<Role>, found: Seq<Option<Role>>|
                #[trigger] bot_answer(self@, bot, member_roles, everyone, found, r) ==> bot is None,
            exists|bot: CacheRead<(), Option<CurrentUser>>| #[trigger] bot_check_read(self@, bot.answer(), r),
    {
        let bot_read = cached_current_user(cache);
        let ghost br = bot_read;
        let bot_id = match bot_read.into_answer() {
            Some(user) => user.id,
            None => {
                let r = Err(QueryError::BotUserUnavailable);
                assert(bot_answer(self@, None, None, None, Seq::empty(), r));
                assert(bot_check_read(self@, br.answer(), r));
                return r;
            },
        };
        let r = missing_permissions(cache, self, bot_id);
        proof {
            let (m, e, f) = choose|m: Option<MemberRoles>, e: Option<Role>, f: Seq<Option<Role>>|
                lookups_fit(self@, bot_id, m, e, f) && #[trigger] permission_answer(self@, bot_id, m, e, f, r);
            assert(bot_answer(self@, Some(bot_id), m, e, f, r));
            assert(bot_check_read(self@, br.answer(), r));
        }
        r
    }
}

/// What the bot's missing permissions in `channel` come to, given what the cache gave for the
/// bot user's id and then, as for any user, for the bot's roles in the channel's guild.
pub open spec fn bot_answer(
    channel: GuildChannel,
    bot: Option<u64>,
    member_roles: Option<MemberRoles>,
    everyone: Option<Role>,
    found: Seq<Option<Role>>,
    r: Result<Option<Vec<String>>, QueryError>,
) -> bool {
    match bot {
        None => r matches Err(QueryError::BotUserUnavailable),
        Some(b) => b != 0 && lookups_fit(channel, b, member_roles, everyone, found)
            && permission_answer(channel, b, member_roles, everyone, found, r),
    }
}

} // verus!
