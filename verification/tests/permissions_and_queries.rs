use std::sync::Arc;
use stfu::cache::{cached_member, member_from_entries, DiscordCache};
use stfu::colors::highest_role_color;
use stfu::errors::QueryError;
use stfu::lookup::{found_items, require_found};
use stfu::model::{
    Guild, GuildChannel, Member, OutOfRange, PermissionOverwrite, Role, VoiceChannel, VoiceChannelState,
    WrongVariantError, GUILD_VOICE, OVERWRITE_MEMBER, OVERWRITE_ROLE,
};
use twilight_model::channel::{Channel, ChannelType};
use twilight_model::gateway::payload::incoming::ChannelCreate;
use stfu::permissions::{
    combine_role_lookups, missing_permission_names, missing_permissions, missing_permissions_with, permissions_from_lookups,
    DEAFEN_MEMBERS,
    MUTE_MEMBERS, REQUIRED_PERMISSIONS, VIEW_CHANNEL,
};
use stfu::query::{parse_channel_id, parse_guild_id, parse_user_id, ids_to_strings, MutationRoot, QueryRoot};
use twilight_cache_inmemory::InMemoryCache;
use twilight_model::gateway::payload::incoming::{MemberAdd, RoleCreate, UserUpdate, VoiceStateUpdate};
use twilight_model::guild::{MemberFlags, Permissions, RoleFlags};
use twilight_model::id::Id;
use twilight_model::user::{CurrentUser, User};
use twilight_model::voice::VoiceState;

const GUILD: u64 = 100;
const USER: u64 = 7;
const BOT: u64 = 8;
const ROLE_MOD: u64 = 500;
const CHANNEL: u64 = 900;
const CATEGORY: u64 = 800;

fn twilight_role(id: u64, position: i64, color: u32, permissions: Permissions) -> twilight_model::guild::Role {
    twilight_model::guild::Role {
        color,
        hoist: false,
        icon: None,
        id: Id::new(id),
        managed: false,
        mentionable: false,
        name: format!("role {id}"),
        permissions,
        position,
        flags: RoleFlags::empty(),
        tags: None,
        unicode_emoji: None,
    }
}

fn user(id: u64, bot: bool) -> User {
    User {
        accent_color: None,
        avatar: None,
        avatar_decoration: None,
        avatar_decoration_data: None,
        banner: None,
        bot,
        discriminator: 1,
        email: None,
        flags: None,
        global_name: None,
        id: Id::new(id),
        locale: None,
        mfa_enabled: None,
        name: format!("user {id}"),
        premium_type: None,
        public_flags: None,
        system: None,
        verified: None,
    }
}

fn add_member(cache: &InMemoryCache, id: u64, roles: &[u64]) {
    cache.update(&MemberAdd {
        guild_id: Id::new(GUILD),
        member: twilight_model::guild::Member {
            avatar: None,
            communication_disabled_until: None,
            deaf: false,
            flags: MemberFlags::empty(),
            joined_at: None,
            mute: false,
            nick: None,
            pending: false,
            premium_since: None,
            roles: roles.iter().map(|&r| Id::new(r)).collect(),
            user: user(id, id == BOT),
        },
    });
}

fn add_voice_state(cache: &InMemoryCache, user_id: u64, mute: bool) {
    cache.update(&VoiceStateUpdate(VoiceState {
        channel_id: Some(Id::new(CHANNEL)),
        deaf: false,
        guild_id: Some(Id::new(GUILD)),
        member: None,
        mute,
        self_deaf: false,
        self_mute: false,
        self_stream: false,
        self_video: false,
        session_id: format!("session {user_id}"),
        suppress: false,
        user_id: Id::new(user_id),
        request_to_speak_timestamp: None,
    }));
}

/// A guild whose `@everyone` role may view channels, with a moderator role that may mute and
/// deafen; the user has the moderator role, the bot has none.
fn guild_cache() -> DiscordCache {
    let cache = InMemoryCache::new();
    cache.update(&RoleCreate { guild_id: Id::new(GUILD), role: twilight_role(GUILD, 0, 0, Permissions::VIEW_CHANNEL) });
    cache.update(&RoleCreate {
        guild_id: Id::new(GUILD),
        role: twilight_role(ROLE_MOD, 3, 0x00ff00, Permissions::MUTE_MEMBERS | Permissions::DEAFEN_MEMBERS),
    });
    add_member(&cache, USER, &[ROLE_MOD]);
    add_member(&cache, BOT, &[]);
    cache.update(&UserUpdate(CurrentUser {
        accent_color: None,
        avatar: None,
        banner: None,
        bot: true,
        discriminator: 1,
        email: None,
        flags: None,
        id: Id::new(BOT),
        locale: None,
        mfa_enabled: false,
        name: "bot".to_string(),
        premium_type: None,
        public_flags: None,
        verified: None,
    }));
    DiscordCache { store: Arc::new(cache) }
}

fn voice_channel(overwrites: Vec<PermissionOverwrite>) -> GuildChannel {
    GuildChannel {
        id: CHANNEL,
        guild_id: Some(GUILD),
        kind: GUILD_VOICE,
        name: Some("General".to_string()),
        position: Some(1),
        user_limit: None,
        parent_id: None,
        permission_overwrites: Some(overwrites),
    }
}

fn voice(overwrites: Vec<PermissionOverwrite>) -> VoiceChannel {
    VoiceChannel::try_from(voice_channel(overwrites)).unwrap()
}

#[test]
fn required_permissions_are_twilights_flags() {
    assert_eq!(VIEW_CHANNEL, Permissions::VIEW_CHANNEL.bits());
    assert_eq!(MUTE_MEMBERS, Permissions::MUTE_MEMBERS.bits());
    assert_eq!(DEAFEN_MEMBERS, Permissions::DEAFEN_MEMBERS.bits());
    assert_eq!(
        REQUIRED_PERMISSIONS,
        (Permissions::MUTE_MEMBERS | Permissions::DEAFEN_MEMBERS | Permissions::VIEW_CHANNEL).bits()
    );
}

#[test]
fn missing_permission_names_lists_flag_names() {
    assert_eq!(missing_permission_names(0), Some(vec!["VIEW_CHANNEL".to_string(), "MUTE_MEMBERS".to_string(), "DEAFEN_MEMBERS".to_string()]));
    assert_eq!(missing_permission_names(VIEW_CHANNEL), Some(vec!["MUTE_MEMBERS".to_string(), "DEAFEN_MEMBERS".to_string()]));
    assert_eq!(missing_permission_names(VIEW_CHANNEL | MUTE_MEMBERS | 1), Some(vec!["DEAFEN_MEMBERS".to_string()]));
    assert_eq!(missing_permission_names(REQUIRED_PERMISSIONS), None);
    assert_eq!(missing_permission_names(u64::MAX), None);
}

#[test]
fn missing_permissions_with_runs_the_calculator() {
    let channel = voice(vec![]);
    // The everyone role alone grants viewing only.
    assert_eq!(
        missing_permissions_with(&channel, USER, VIEW_CHANNEL, &vec![]),
        Some(vec!["MUTE_MEMBERS".to_string(), "DEAFEN_MEMBERS".to_string()])
    );
    // A role adds muting and deafening.
    assert_eq!(missing_permissions_with(&channel, USER, VIEW_CHANNEL, &vec![(ROLE_MOD, MUTE_MEMBERS | DEAFEN_MEMBERS)]), None);
    // An administrator role grants everything.
    assert_eq!(missing_permissions_with(&channel, USER, 0, &vec![(ROLE_MOD, Permissions::ADMINISTRATOR.bits())]), None);
    // A member overwrite denying mute takes it away again.
    let denied = voice(vec![PermissionOverwrite { kind: OVERWRITE_MEMBER, id: USER, allow: 0, deny: MUTE_MEMBERS }]);
    assert_eq!(
        missing_permissions_with(&denied, USER, VIEW_CHANNEL, &vec![(ROLE_MOD, MUTE_MEMBERS | DEAFEN_MEMBERS)]),
        Some(vec!["MUTE_MEMBERS".to_string()])
    );
    // Denying the everyone role's view in the channel takes viewing away.
    let hidden = voice(vec![PermissionOverwrite { kind: OVERWRITE_ROLE, id: GUILD, allow: 0, deny: VIEW_CHANNEL }]);
    assert_eq!(
        missing_permissions_with(&hidden, USER, VIEW_CHANNEL, &vec![(ROLE_MOD, MUTE_MEMBERS | DEAFEN_MEMBERS)]),
        Some(vec!["VIEW_CHANNEL".to_string()])
    );
}

#[test]
fn combine_role_lookups_reports_the_first_missing_lookup() {
    let role = |id, p| Some(Role { id, position: 0, color: 0, permissions: p });
    assert!(matches!(combine_role_lookups(None, vec![role(2, 1)]), Err(QueryError::EveryoneRoleMissing)));
    assert!(matches!(combine_role_lookups(None, vec![None]), Err(QueryError::EveryoneRoleMissing)));
    assert!(matches!(combine_role_lookups(role(1, 4), vec![role(2, 1), None]), Err(QueryError::RolesMissing)));
    match combine_role_lookups(role(1, 4), vec![role(2, 1), role(3, 8)]) {
        Ok((everyone, entries)) => {
            assert_eq!(everyone, 4);
            assert_eq!(entries, vec![(2, 1), (3, 8)]);
        },
        Err(e) => panic!("unexpected {e:?}"),
    }
}

#[test]
fn missing_permissions_reads_the_cache() {
    let cache = guild_cache();
    let channel = voice(vec![]);
    assert_eq!(missing_permissions(&cache, &channel, USER).unwrap(), None);
    assert_eq!(
        channel.user_missing_permissions(&cache, USER).unwrap(),
        None
    );
    assert_eq!(
        channel.bot_missing_permissions(&cache).unwrap(),
        Some(vec!["MUTE_MEMBERS".to_string(), "DEAFEN_MEMBERS".to_string()])
    );
    assert!(matches!(missing_permissions(&cache, &channel, 12345), Err(QueryError::UserNotInGuild)));
    let mut elsewhere = voice_channel(vec![]);
    elsewhere.guild_id = None;
    let elsewhere = VoiceChannel::try_from(elsewhere).unwrap();
    assert!(matches!(missing_permissions(&cache, &elsewhere, USER), Err(QueryError::ChannelMissingGuild)));
}

#[test]
fn missing_permissions_needs_every_role() {
    let store = InMemoryCache::new();
    add_member(&store, USER, &[ROLE_MOD]);
    let cache = DiscordCache { store: Arc::new(store) };
    assert!(matches!(missing_permissions(&cache, &voice(vec![]), USER), Err(QueryError::EveryoneRoleMissing)));
    cache.store.update(&RoleCreate { guild_id: Id::new(GUILD), role: twilight_role(GUILD, 0, 0, Permissions::VIEW_CHANNEL) });
    assert!(matches!(missing_permissions(&cache, &voice(vec![]), USER), Err(QueryError::RolesMissing)));
}

#[test]
fn permissions_from_lookups_answers_by_the_first_missing_lookup() {
    let channel = voice(vec![]);
    let everyone = Some(role(GUILD, 0, 0));
    let everyone_view = Some(Role { permissions: VIEW_CHANNEL, ..role(GUILD, 0, 0) });
    let moderator = Some(Role { permissions: MUTE_MEMBERS | DEAFEN_MEMBERS, ..role(ROLE_MOD, 3, 0) });
    assert!(matches!(
        permissions_from_lookups(&channel, USER, None, everyone, vec![]),
        Err(QueryError::UserNotInGuild)
    ));
    assert!(matches!(
        permissions_from_lookups(&channel, USER, Some(((GUILD, USER), vec![ROLE_MOD])), None, vec![]),
        Err(QueryError::EveryoneRoleMissing)
    ));
    assert!(matches!(
        permissions_from_lookups(&channel, USER, Some(((GUILD, USER), vec![ROLE_MOD])), everyone, vec![None]),
        Err(QueryError::RolesMissing)
    ));
    assert_eq!(
        permissions_from_lookups(&channel, USER, Some(((GUILD, USER), vec![ROLE_MOD])), everyone_view, vec![moderator]).unwrap(),
        None
    );
    assert_eq!(
        permissions_from_lookups(&channel, USER, Some(((GUILD, USER), vec![])), everyone_view, vec![]).unwrap(),
        Some(vec!["MUTE_MEMBERS".to_string(), "DEAFEN_MEMBERS".to_string()])
    );
    let mut elsewhere = voice_channel(vec![]);
    elsewhere.guild_id = None;
    let elsewhere = VoiceChannel::try_from(elsewhere).unwrap();
    assert!(matches!(
        permissions_from_lookups(&elsewhere, USER, None, None, vec![]),
        Err(QueryError::ChannelMissingGuild)
    ));
}

#[test]
fn missing_permissions_of_an_empty_cache_is_an_error() {
    let empty = DiscordCache { store: Arc::new(InMemoryCache::new()) };
    let result = missing_permissions(&empty, &voice(vec![]), 2);
    assert_eq!(result.unwrap_err().message(), "Unable to get information about the user in the guild");
}

#[test]
fn lookups_keep_what_was_found_in_order() {
    assert_eq!(found_items(vec![Some(3), None, Some(1), None]), vec![3, 1]);
    assert_eq!(found_items(Vec::<Option<u8>>::new()), Vec::<u8>::new());
    assert!(matches!(require_found(Some(4), QueryError::BotNotCached), Ok(4)));
    assert!(matches!(require_found(None::<u8>, QueryError::BotNotCached), Err(QueryError::BotNotCached)));
}

#[test]
fn bot_missing_permissions_needs_the_bot_user() {
    let cache = DiscordCache { store: Arc::new(InMemoryCache::new()) };
    assert!(matches!(voice(vec![]).bot_missing_permissions(&cache), Err(QueryError::BotUserUnavailable)));
}

fn role(id: u64, position: i64, color: u32) -> Role {
    Role { id, position, color, permissions: 0 }
}

#[test]
fn highest_role_color_ignores_order_of_distinct_positions() {
    let roles = vec![role(1, 2, 10), role(2, 7, 20), role(3, 4, 30), role(4, 9, 0)];
    let mut reversed = roles.clone();
    reversed.reverse();
    let rotated = vec![roles[2], roles[3], roles[0], roles[1]];
    assert_eq!(highest_role_color(&roles), Ok(Some(20)));
    assert_eq!(highest_role_color(&reversed), Ok(Some(20)));
    assert_eq!(highest_role_color(&rotated), Ok(Some(20)));
    assert_eq!(MutationRoot::mass_update_targets(&vec![], true), Vec::<u64>::new());
}

#[test]
fn highest_role_color_takes_the_last_highest_role() {
    assert_eq!(highest_role_color(&vec![]), Ok(None));
    assert_eq!(highest_role_color(&vec![role(1, 2, 10), role(2, 5, 20), role(3, 1, 30)]), Ok(Some(20)));
    assert_eq!(highest_role_color(&vec![role(1, 5, 10), role(2, 5, 20), role(3, 1, 30)]), Ok(Some(20)));
    assert_eq!(highest_role_color(&vec![role(1, -1, 10)]), Ok(Some(10)));
    assert_eq!(highest_role_color(&vec![role(1, 9, u32::MAX), role(2, 1, 3)]), Err(OutOfRange));
    // Roles without a colour do not count.
    assert_eq!(highest_role_color(&vec![role(1, 2, 10), role(2, 9, 0)]), Ok(Some(10)));
    assert_eq!(highest_role_color(&vec![role(1, 2, 0), role(2, 9, 0)]), Ok(None));
}

#[test]
fn member_color_uses_cached_roles() {
    let cache = guild_cache();
    let member = Member {
        guild_id: GUILD,
        user_id: USER,
        avatar: None,
        joined_at: None,
        mute: Some(false),
        deaf: Some(false),
        nick: None,
        discriminator: "0001".to_string(),
        name: "user".to_string(),
        bot: false,
        roles: vec![ROLE_MOD, 4242],
    };
    assert_eq!(member.color(&cache), Ok(Some(0x00ff00)));
    let plain = Member { roles: vec![4242], ..member };
    assert_eq!(plain.color(&cache), Ok(None));
}

#[test]
fn query_ids_are_read_with_their_own_errors() {
    assert_eq!(parse_guild_id("100").unwrap(), 100);
    assert!(matches!(parse_guild_id("x"), Err(QueryError::InvalidGuildId)));
    assert!(matches!(parse_channel_id("-1"), Err(QueryError::InvalidChannelId)));
    assert_eq!(parse_channel_id("0").unwrap(), 0);
    assert!(matches!(parse_user_id(""), Err(QueryError::InvalidUserId)));
    assert_eq!(MutationRoot::parse_target("1", "2").unwrap(), (1, 2));
    assert!(matches!(MutationRoot::parse_target("a", "b"), Err(QueryError::InvalidGuildId)));
    assert!(matches!(MutationRoot::parse_target("1", "b"), Err(QueryError::InvalidChannelId)));
}

#[test]
fn shared_guild_ids_intersects() {
    assert_eq!(QueryRoot::shared_guild_ids(&vec![1, 2, 3, 2], &vec![3, 2, 9]), vec![2, 3]);
    assert_eq!(QueryRoot::shared_guild_ids(&vec![1], &vec![]), Vec::<u64>::new());
    assert_eq!(QueryRoot::shared_guild_ids(&vec![], &vec![1]), Vec::<u64>::new());
}

#[test]
fn ids_to_strings_formats_each() {
    assert_eq!(ids_to_strings(&vec![7, 0, 12]), vec!["7", "0", "12"]);
}

fn state(user_id: u64, mute: bool) -> VoiceChannelState {
    VoiceChannelState { user_id, guild_id: Some(GUILD), channel_id: Some(CHANNEL), deaf: false, mute, self_deaf: false, self_mute: false }
}

#[test]
fn mass_update_targets_skips_settled_states() {
    let states = vec![state(1, false), state(2, true), state(3, false)];
    assert_eq!(MutationRoot::mass_update_targets(&states, true), vec![1, 3]);
    assert_eq!(MutationRoot::mass_update_targets(&states, false), vec![2]);
    let settled: Vec<VoiceChannelState> = states.iter().map(|s| VoiceChannelState { mute: true, ..s.clone() }).collect();
    assert!(MutationRoot::mass_update_targets(&settled, true).is_empty());
}

fn add_channel(cache: &InMemoryCache, id: u64, kind: ChannelType, parent: Option<u64>) {
    cache.update(&ChannelCreate(Channel {
        application_id: None,
        applied_tags: None,
        available_tags: None,
        bitrate: None,
        default_auto_archive_duration: None,
        default_forum_layout: None,
        default_reaction_emoji: None,
        default_sort_order: None,
        default_thread_rate_limit_per_user: None,
        flags: None,
        guild_id: Some(Id::new(GUILD)),
        icon: None,
        id: Id::new(id),
        invitable: None,
        kind,
        last_message_id: None,
        last_pin_timestamp: None,
        managed: None,
        member: None,
        member_count: None,
        message_count: None,
        name: Some(format!("channel {id}")),
        newly_created: None,
        nsfw: None,
        owner_id: None,
        parent_id: parent.map(Id::new),
        permission_overwrites: Some(vec![]),
        position: Some(1),
        rate_limit_per_user: None,
        recipients: None,
        rtc_region: None,
        thread_metadata: None,
        topic: None,
        user_limit: Some(5),
        video_quality_mode: None,
    }));
}

#[test]
fn mutation_checks_channel_user_and_permissions() {
    let cache = guild_cache();
    add_channel(&cache.store, CHANNEL, ChannelType::GuildVoice, Some(CATEGORY));
    add_channel(&cache.store, CATEGORY, ChannelType::GuildCategory, None);
    add_channel(&cache.store, 902, ChannelType::GuildVoice, None);
    add_voice_state(&cache.store, USER, false);
    add_voice_state(&cache.store, BOT, true);
    let guild = GUILD.to_string();
    let channel = CHANNEL.to_string();
    assert!(matches!(MutationRoot::mute(&cache, "g", &channel, Some(USER)), Err(QueryError::InvalidGuildId)));
    assert!(matches!(MutationRoot::mute(&cache, &guild, "c", Some(USER)), Err(QueryError::InvalidChannelId)));
    assert!(matches!(MutationRoot::mute(&cache, &guild, "4444", Some(USER)), Err(QueryError::ChannelNotFound)));
    assert!(matches!(
        MutationRoot::mute(&cache, &guild, &CATEGORY.to_string(), Some(USER)),
        Err(QueryError::WrongVariant(WrongVariantError::NotAVoiceChannel))
    ));
    assert!(matches!(MutationRoot::mute(&cache, &guild, &channel, None), Err(QueryError::OauthUserUnavailable)));
    match MutationRoot::mute(&cache, &guild, &channel, Some(BOT)) {
        Err(QueryError::PermissionDenied(missing)) => assert_eq!(missing, vec!["MUTE_MEMBERS", "DEAFEN_MEMBERS"]),
        other => panic!("unexpected {other:?}"),
    }
    let (g, states, targets) = MutationRoot::mute(&cache, &guild, &channel, Some(USER)).unwrap();
    assert_eq!((g, targets), (GUILD, vec![USER]));
    assert_eq!(states.len(), 2);
    assert!(states.iter().all(|s| s.channel_id == Some(CHANNEL)));
    let (g, _, targets) = MutationRoot::unmute(&cache, &guild, &channel, Some(USER)).unwrap();
    assert_eq!((g, targets), (GUILD, vec![BOT]));
    let (g, states, targets) = MutationRoot::unmute(&cache, &guild, "902", Some(USER)).unwrap();
    assert_eq!((g, states.len(), targets), (GUILD, 0, Vec::<u64>::new()));
    assert!(matches!(MutationRoot::mute(&cache, &guild, "0", Some(USER)), Err(QueryError::ChannelNotFound)));
    let (g, _, targets) = MutationRoot::mute(&cache, "0", &channel, Some(USER)).unwrap();
    assert_eq!((g, targets), (0, vec![USER]));
}

#[test]
fn target_channel_is_found_before_any_user_is_asked_for() {
    let cache = guild_cache();
    add_channel(&cache.store, CHANNEL, ChannelType::GuildVoice, None);
    add_channel(&cache.store, CATEGORY, ChannelType::GuildCategory, None);
    assert!(matches!(MutationRoot::target_channel(&cache, "abc", "1"), Err(QueryError::InvalidGuildId)));
    assert!(matches!(MutationRoot::target_channel(&cache, "1", "x"), Err(QueryError::InvalidChannelId)));
    let empty = DiscordCache { store: Arc::new(InMemoryCache::new()) };
    assert!(matches!(MutationRoot::target_channel(&empty, "1", "2"), Err(QueryError::ChannelNotFound)));
    assert!(matches!(
        MutationRoot::target_channel(&cache, "1", &CATEGORY.to_string()),
        Err(QueryError::WrongVariant(WrongVariantError::NotAVoiceChannel))
    ));
    let (g, channel) = MutationRoot::target_channel(&cache, "+1", &CHANNEL.to_string()).unwrap();
    assert_eq!((g, channel.channel().id), (1, CHANNEL));
    let (states, targets) = MutationRoot::authorize(&cache, &channel, Some(USER), true).unwrap();
    assert!(states.is_empty() && targets.is_empty());
    assert!(matches!(MutationRoot::authorize(&cache, &channel, None, true), Err(QueryError::OauthUserUnavailable)));
}

#[test]
fn voice_channel_fields_read_the_cache() {
    let cache = guild_cache();
    add_channel(&cache.store, CHANNEL, ChannelType::GuildVoice, Some(CATEGORY));
    add_channel(&cache.store, CATEGORY, ChannelType::GuildCategory, None);
    add_channel(&cache.store, 903, ChannelType::GuildText, None);
    add_voice_state(&cache.store, USER, false);
    let guild = Guild { id: GUILD, name: "g".to_string(), unavailable: Some(false), owner_id: USER, icon: None, banner: None };
    let channel = guild.voice_channel(&cache, &CHANNEL.to_string()).unwrap().unwrap();
    assert_eq!(channel.name(), format!("channel {CHANNEL}"));
    assert_eq!(channel.user_limit(), Ok(Some(5)));
    let category = channel.category(&cache).unwrap();
    assert_eq!(category.id(), CATEGORY.to_string());
    let states = channel.states(&cache);
    assert_eq!(states.len(), 1);
    assert_eq!(states[0].user_id, USER);
    assert!(!states[0].mute());
    let member = states[0].member(&cache).unwrap();
    assert_eq!(member.user_id, USER);
    assert_eq!(member.name(), format!("user {USER}"));
    assert!(guild.voice_channel(&cache, "903").unwrap().is_none());
    assert!(matches!(guild.voice_channel(&cache, "x"), Err(QueryError::InvalidChannelId)));
    assert!(guild.voice_channel(&cache, "0").unwrap().is_none());
    let other = Guild { id: GUILD + 1, ..guild.clone() };
    assert!(other.voice_channel(&cache, &CHANNEL.to_string()).unwrap().is_none());
    let voice: Vec<u64> = guild.voice_channels(&cache).iter().map(|v| v.channel().id).collect();
    assert_eq!(voice, vec![CHANNEL]);
    let lone = VoiceChannelState { guild_id: None, ..states[0].clone() };
    assert!(matches!(lone.member(&cache), Err(QueryError::NotInGuild)));
    let stranger = VoiceChannelState { user_id: 31337, ..states[0].clone() };
    assert!(matches!(stranger.member(&cache), Err(QueryError::MemberNotCached)));
}

#[test]
fn guild_fields_read_the_cache() {
    let cache = guild_cache();
    let guild = Guild { id: GUILD, name: "g".to_string(), unavailable: Some(false), owner_id: USER, icon: None, banner: None };
    assert_eq!(guild.owner(&cache).unwrap().user_id, USER);
    let orphan = Guild { owner_id: 31337, ..guild.clone() };
    assert!(matches!(orphan.owner(&cache), Err(QueryError::OwnerNotCached)));
    let mut ids: Vec<u64> = guild.members(&cache).iter().map(|m| m.user_id).collect();
    ids.sort();
    assert_eq!(ids, vec![USER, BOT]);
    assert!(guild.members(&cache).iter().all(|m| m.guild_id == GUILD));
    let unknown = Guild { id: 55, ..guild.clone() };
    assert!(unknown.members(&cache).is_empty());
    assert_eq!(guild.member(&cache, &BOT.to_string()).unwrap().unwrap().bot(), true);
    assert!(guild.member(&cache, "31337").unwrap().is_none());
    assert!(matches!(guild.member(&cache, "-1"), Err(QueryError::InvalidUserId)));
    assert_eq!(guild.me(&cache, USER).unwrap().user_id, USER);
    assert!(matches!(guild.me(&cache, 31337), Err(QueryError::MeNotCached)));
    assert_eq!(QueryRoot::bot(&cache).unwrap().id, BOT);
    let empty = DiscordCache { store: Arc::new(InMemoryCache::new()) };
    assert!(matches!(QueryRoot::bot(&empty), Err(QueryError::BotNotCached)));
    assert!(matches!(QueryRoot::guild(&cache, "guild"), Err(QueryError::InvalidGuildId)));
    assert!(QueryRoot::guild(&cache, "5").unwrap().is_none());
    assert!(QueryRoot::guild(&cache, "0").unwrap().is_none());
    assert!(guild.member(&cache, "0").unwrap().is_none());
    assert!(QueryRoot::shared_guilds(&cache, &vec![5, 6], &vec![6]).is_empty());
}

#[test]
fn query_errors_read_as_before() {
    assert_eq!(QueryError::InvalidGuildId.message(), "Invalid guild id");
    assert_eq!(QueryError::NotInGuild.message(), "Voice channel provided was not in a guild");
    assert_eq!(QueryError::WrongVariant(WrongVariantError::NotACategory).message(), "Channel is not a category");
    assert_eq!(QueryError::OutOfRange(OutOfRange).message(), "out of range integral type conversion attempted");
    assert_eq!(
        QueryError::PermissionDenied(vec![]).message(),
        "Permission denied: user does not have enough permissions to perform that action"
    );
}

#[test]
fn shared_guild_ids_do_not_depend_on_order() {
    let a = vec![4, 1, 9, 1, 7];
    let b = vec![7, 2, 4, 4];
    let mut ab = QueryRoot::shared_guild_ids(&a, &b);
    let mut ba = QueryRoot::shared_guild_ids(&b, &a);
    ab.sort();
    ba.sort();
    assert_eq!(ab, vec![4, 7]);
    assert_eq!(ab, ba);
}

#[test]
fn every_state_is_a_target_of_mute_or_unmute() {
    let states = vec![state(1, false), state(2, true), state(3, true), state(4, false)];
    let muted = MutationRoot::mass_update_targets(&states, true);
    let unmuted = MutationRoot::mass_update_targets(&states, false);
    assert_eq!(muted.len() + unmuted.len(), states.len());
    assert!(muted.iter().all(|id| !unmuted.contains(id)));
}

#[test]
fn members_are_read_under_their_own_key() {
    let cache = guild_cache();
    let m = cached_member(&cache, GUILD, USER).unwrap();
    assert_eq!((m.guild_id, m.user_id, m.roles.clone()), (GUILD, USER, vec![ROLE_MOD]));
    assert!(cached_member(&cache, GUILD + 1, USER).is_none());
    assert!(cached_member(&cache, GUILD, 31337).is_none());
    let entry = ((GUILD, USER), None, Some(false), None, None, vec![ROLE_MOD]);
    let user = (USER, None, "0001".to_string(), "u".to_string(), false);
    assert_eq!(member_from_entries(Some(entry.clone()), Some(user.clone())).unwrap().user_id, USER);
    let other_user = (BOT, None, "0001".to_string(), "b".to_string(), true);
    assert!(member_from_entries(Some(entry.clone()), Some(other_user)).is_none());
    assert!(member_from_entries(Some(entry), None).is_none());
    assert!(member_from_entries(None, Some(user)).is_none());
}
