use stfu::auth::{authorize_failure_page, login_state, AuthOutcome, Config, CookieRead, OauthCookie, OauthUser, INTERNAL_SERVER_ERROR};
use stfu::cli::{next_step, Acknowledgement, Action, Args, ArgsKey, Command, ConnectStep, Handler, Mute, Unmute, DEFAULT_CHANNEL};
use stfu::model::{
    u32_to_i32, CategoryChannel, CurrentUser, Guild, GuildChannel, Member, OutOfRange,
    VoiceChannel, VoiceChannelState, WrongVariantError, GUILD_CATEGORY, GUILD_STAGE_VOICE, GUILD_TEXT, GUILD_VOICE,
};
use twilight_model::channel::ChannelType;

fn channel(kind: u8) -> GuildChannel {
    GuildChannel {
        id: 55,
        guild_id: Some(1),
        kind,
        name: Some("Lounge".to_string()),
        position: Some(3),
        user_limit: Some(10),
        parent_id: None,
        permission_overwrites: Some(vec![]),
    }
}

#[test]
fn channel_kinds_are_twilights_numbers() {
    assert_eq!(GUILD_TEXT, u8::from(ChannelType::GuildText));
    assert_eq!(GUILD_VOICE, u8::from(ChannelType::GuildVoice));
    assert_eq!(GUILD_CATEGORY, u8::from(ChannelType::GuildCategory));
    assert_eq!(GUILD_STAGE_VOICE, u8::from(ChannelType::GuildStageVoice));
}

#[test]
fn channels_convert_only_from_their_kind() {
    let v = VoiceChannel::try_from(channel(GUILD_VOICE)).unwrap();
    assert_eq!(v.name(), "Lounge");
    assert_eq!(v.id(), "55");
    assert_eq!(v.kind(), GUILD_VOICE);
    assert_eq!(v.position(), 3);
    assert_eq!(v.user_limit(), Ok(Some(10)));
    assert_eq!(VoiceChannel::try_from(channel(GUILD_CATEGORY)).unwrap_err(), WrongVariantError::NotAVoiceChannel);
    assert_eq!(VoiceChannel::try_from(channel(GUILD_TEXT)).unwrap_err().message(), "Channel is not a voice channel");
    let c = CategoryChannel::try_from(channel(GUILD_CATEGORY)).unwrap();
    assert_eq!(c.name(), "Lounge");
    assert_eq!(c.id(), "55");
    assert_eq!(c.position(), 3);
    assert_eq!(c.channel().kind, GUILD_CATEGORY);
    assert_eq!(CategoryChannel::try_from(channel(GUILD_VOICE)).unwrap_err(), WrongVariantError::NotACategory);
}

#[test]
fn channel_numbers_must_fit_in_i32() {
    let mut big = channel(GUILD_VOICE);
    big.user_limit = Some(u32::MAX);
    let v = VoiceChannel::try_from(big).unwrap();
    assert_eq!(v.user_limit(), Err(OutOfRange));
    let mut bare = channel(GUILD_VOICE);
    bare.user_limit = None;
    bare.position = None;
    bare.name = None;
    let v = VoiceChannel::try_from(bare).unwrap();
    assert_eq!(v.user_limit(), Ok(None));
    assert_eq!(v.position(), 0);
    assert_eq!(v.name(), "");
    assert_eq!(u32_to_i32(2147483647), Ok(i32::MAX));
    assert_eq!(u32_to_i32(2147483648), Err(OutOfRange));
}

#[test]
fn member_getters_read_the_member() {
    let m = Member {
        guild_id: 1,
        user_id: 42,
        avatar: Some("abc".to_string()),
        joined_at: Some("2020-11-01T00:00:00.000000+00:00".to_string()),
        mute: Some(true),
        deaf: None,
        nick: Some("nick".to_string()),
        discriminator: "0042".to_string(),
        name: "name".to_string(),
        bot: false,
        roles: vec![],
    };
    assert_eq!(m.avatar(), Some(&"abc".to_string()));
    assert_eq!(m.joined_at().map(String::as_str), Some("2020-11-01T00:00:00.000000+00:00"));
    assert!(m.mute());
    assert!(!m.deaf());
    assert_eq!(m.nick(), &Some("nick".to_string()));
    assert_eq!(m.discriminator(), "0042");
    assert_eq!(m.id(), "42");
    assert_eq!(m.name(), "name");
    assert!(!m.bot());
}

#[test]
fn voice_state_getters_read_the_state() {
    let s = VoiceChannelState { user_id: 9, guild_id: Some(1), channel_id: Some(77), deaf: true, mute: false, self_deaf: false, self_mute: true };
    assert_eq!(s.id(), "9");
    assert!(s.deaf());
    assert!(!s.mute());
    assert!(!s.self_deaf());
    assert!(s.self_mute());
    assert_eq!(s.channel_id(), Some("77".to_string()));
    let t = VoiceChannelState { channel_id: None, ..s };
    assert_eq!(t.channel_id(), None);
}

#[test]
fn guild_and_user_getters_read_them() {
    let g = Guild { id: 123, name: "Guild".to_string(), unavailable: None, owner_id: 5, icon: None, banner: Some("b".to_string()) };
    assert_eq!(g.id(), "123");
    assert_eq!(g.name(), "Guild");
    assert!(!g.unavailable());
    assert_eq!(g.icon(), None);
    assert_eq!(g.banner(), Some(&"b".to_string()));
    let u = CurrentUser { id: 8, name: "bot".to_string(), discriminator: "0001".to_string(), mfa_enabled: true, avatar: None };
    assert_eq!(u.name(), "bot");
    assert_eq!(u.id(), "8");
    assert_eq!(u.discriminator(), "0001");
    assert!(u.mfa());
    assert_eq!(u.avatar(), None);
}

fn cookie() -> OauthCookie {
    OauthCookie::create("token".to_string(), 604800, "refresh".to_string(), 42, 1600000000)
}

#[test]
fn oauth_cookie_keeps_the_exchange() {
    let c = cookie();
    assert_eq!(c.access_token, "token");
    assert_eq!(c.expires_in, 604800);
    assert_eq!(c.refresh_token, "refresh");
    assert_eq!(c.user_id, 42);
    assert_eq!(c.created_at, 1600000000);
    assert_eq!(c.authorization(), "Bearer token");
}

#[test]
fn authentication_decides_by_config_and_cookie() {
    assert!(matches!(OauthUser::from_request(false, CookieRead::Parsed(cookie())), AuthOutcome::Failure { status: INTERNAL_SERVER_ERROR }));
    assert_eq!(INTERNAL_SERVER_ERROR, 500);
    assert!(matches!(OauthUser::from_request(true, CookieRead::Absent), AuthOutcome::Forward { clear_cookie: false }));
    assert!(matches!(OauthUser::from_request(true, CookieRead::Malformed), AuthOutcome::Forward { clear_cookie: true }));
    match OauthUser::from_request(true, CookieRead::Parsed(cookie())) {
        AuthOutcome::Success(c) => assert_eq!(c.user_id, 42),
        other => panic!("unexpected {other:?}"),
    }
    assert_eq!(OauthUser::failure_message(), "Config was not mounted on the rocket");
}

#[test]
fn failure_page_shows_error_and_link_back() {
    assert_eq!(
        authorize_failure_page("access_denied", "The user denied", "/home"),
        "<h1>access_denied</h1><pre>The user denied</pre><a href=\"/home\">Go back to <b>/home<b></a>"
    );
}

#[test]
fn config_holds_its_settings() {
    let c = Config { token: "t".to_string(), client_secret: "s".to_string(), redirect_url: "r".to_string(), auth_cookie_name: "n".to_string() };
    assert_eq!(c.clone().auth_cookie_name, "n");
}

#[test]
fn commands_become_actions() {
    let mute = Command::Mute(Mute {});
    let unmute = Command::Unmute(Unmute {});
    assert!(mute.mutes());
    assert!(!unmute.mutes());
    assert_eq!(Action::for_command(&mute, 3), Action::Mute(3));
    assert_eq!(Action::for_command(&unmute, 4), Action::Unmute(4));
    let args = Args { command: mute, channel: DEFAULT_CHANNEL, token: "x".to_string() };
    assert_eq!(args.channel, 717435160378867772);
    let _ = ArgsKey;
}

#[test]
fn acknowledgement_confirms_only_its_action() {
    let ack = Acknowledgement::Success(Action::Mute(3));
    assert!(ack.confirms(&Action::Mute(3)));
    assert!(!ack.confirms(&Action::Mute(4)));
    assert!(!ack.confirms(&Action::Unmute(3)));
}

#[test]
fn connection_attempts_start_the_daemon_once() {
    assert_eq!(next_step(0, true), ConnectStep::Dispatch);
    assert_eq!(next_step(0, false), ConnectStep::StartDaemon);
    assert_eq!(next_step(1, true), ConnectStep::Dispatch);
    assert_eq!(next_step(1, false), ConnectStep::GiveUp);
}

#[test]
fn handler_edits_every_member_but_bots() {
    assert_eq!(Handler::members_to_edit(&vec![(1, false), (2, true), (3, false)]), vec![1, 3]);
    assert!(Handler::members_to_edit(&vec![(2, true)]).is_empty());
    assert_eq!(Handler::notification(true), ("Success", "Muted everyone"));
    assert_eq!(Handler::notification(false), ("Success", "Unmuted everyone"));
}

#[test]
fn guild_voice_channels_keeps_voice_channels_in_order() {
    let mut a = channel(GUILD_VOICE);
    a.id = 1;
    let mut b = channel(GUILD_TEXT);
    b.id = 2;
    let mut c = channel(GUILD_VOICE);
    c.id = 3;
    let d = channel(GUILD_CATEGORY);
    let voice = Guild::voice_channels_among(vec![a, b, c, d]);
    let ids: Vec<String> = voice.iter().map(|v| v.id()).collect();
    assert_eq!(ids, vec!["1", "3"]);
    assert!(Guild::voice_channels_among(vec![]).is_empty());
}

#[test]
fn bearer_authorization_prefixes_the_token() {
    assert_eq!(stfu::auth::bearer_authorization("abc"), "Bearer abc");
    assert_eq!(stfu::auth::bearer_authorization(""), "Bearer ");
}

#[test]
fn login_state_percent_encodes_where_the_user_came_from() {
    assert_eq!(login_state("/a b"), "%2Fa%20b");
    assert_eq!(login_state("/guilds?id=1&x=ü"), "%2Fguilds%3Fid%3D1%26x%3D%C3%BC");
    assert_eq!(login_state("plain-._~AZaz09"), "plain-._~AZaz09");
    assert_eq!(login_state(""), "");
}
