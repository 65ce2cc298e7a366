//! The Discord objects that the GraphQL api exposes, held as plain values: members, voice
//! states, channels, guilds, users and roles.

use vstd::prelude::*;
use crate::ids::{decimal_text, id_to_string};

verus! {

/// Channel type number of a guild text channel.
pub const GUILD_TEXT: u8 = 0;
/// Channel type number of a guild voice channel.
pub const GUILD_VOICE: u8 = 2;
/// Channel type number of a channel category.
pub const GUILD_CATEGORY: u8 = 4;
/// Channel type number of a guild stage channel.
pub const GUILD_STAGE_VOICE: u8 = 13;

/// Permission overwrite type number of an overwrite that targets a role.
pub const OVERWRITE_ROLE: u8 = 0;
/// Permission overwrite type number of an overwrite that targets a member.
pub const OVERWRITE_MEMBER: u8 = 1;

/// A guild role, as far as permissions and colours go.
#[derive(Clone, Copy, Debug)]
pub struct Role {
    pub id: u64,
    /// Relative position; higher roles take precedence.
    pub position: i64,
    /// RGB colour; 0 when the role has no colour.
    pub color: u32,
    /// Permission bits granted on the guild level.
    pub permissions: u64,
}

/// An allow/deny overwrite of permissions in one channel, for a role or a member.
#[derive(Clone, Copy, Debug)]
pub struct PermissionOverwrite {
    /// Overwrite type number: `OVERWRITE_ROLE`, `OVERWRITE_MEMBER` or another, unknown one.
    pub kind: u8,
    /// Id of the role or member targeted.
    pub id: u64,
    pub allow: u64,
    pub deny: u64,
}

/// A channel of a guild.
#[derive(Clone, Debug)]
pub struct GuildChannel {
    pub id: u64,
    pub guild_id: Option<u64>,
    /// Channel type number.
    pub kind: u8,
    pub name: Option<String>,
    /// Relative position among the guild's channels.
    pub position: Option<i32>,
    pub user_limit: Option<u32>,
    pub parent_id: Option<u64>,
    pub permission_overwrites: Option<Vec<PermissionOverwrite>>,
}

impl GuildChannel {
    /// The channel's name; empty when it has none.
    pub open spec fn spec_name(self) -> Seq<char> {
        match self.name {
            Some(n) => n@,
            None => Seq::<char>::empty(),
        }
    }

    /// The channel's position; 0 when it has none.
    pub open spec fn spec_position(self) -> i32 {
        match self.position {
            Some(p) => p,
            None => 0,
        }
    }

    /// The channel's permission overwrites; none when it has no list of them.
    pub open spec fn overwrites(self) -> Seq<PermissionOverwrite> {
        match self.permission_overwrites {
            Some(v) => v@,
            None => Seq::<PermissionOverwrite>::empty(),
        }
    }

    /// The channel's name; empty when it has none.
    pub fn name(&self) -> (r: &str)
        ensures
            r@ == self.spec_name(),
    {
        match &self.name {
            Some(n) => n.as_str(),
            None => {
                proof {
                    reveal_strlit("");
                }
                ""
            },
        }
    }

    /// The channel's position; 0 when it has none.
    pub fn position(&self) -> (r: i32)
        ensures
            r == self.spec_position(),
    {
        match self.position {
            Some(p) => p,
            None => 0,
        }
    }
}

/// Why a conversion into a narrower integer failed (`TryFromIntError`).
#[derive(Clone, Copy, Debug, PartialEq, Eq, Structural)]
pub struct OutOfRange;

impl OutOfRange {
    /// The error's text.
    pub fn message(&self) -> (m: &'static str)
        ensures
            m@ == "out of range integral type conversion attempted"@,
    {
        "out of range integral type conversion attempted"
    }
}

/// A channel given as a category or a voice channel was of another type.
#[derive(Clone, Copy, Debug, PartialEq, Eq, Structural)]
pub enum WrongVariantError {
    NotACategory,
    NotAVoiceChannel,
}

impl WrongVariantError {
    /// What the error says.
    pub open spec fn spec_message(self) -> Seq<char> {
        match self {
            WrongVariantError::NotACategory => "Channel is not a category"@,
            WrongVariantError::NotAVoiceChannel => "Channel is not a voice channel"@,
        }
    }

    /// The error's text.
    pub fn message(&self) -> (m: &'static str)
        ensures
            m@ == self.spec_message(),
    {
        match self {
            WrongVariantError::NotACategory => "Channel is not a category",
            WrongVariantError::NotAVoiceChannel => "Channel is not a voice channel",
        }
    }
}

/// `v` as an `i32`, or `OutOfRange` when it does not fit.
pub fn u32_to_i32(v: u32) -> (r: Result<i32, OutOfRange>)
    ensures
        r matches Ok(x) ==> x as int == v as int,
        r is Ok <==> v <= i32::MAX,
{
    if v > 2147483647u32 {
        Err(OutOfRange)
    } else {
        Ok(v as i32)
    }
}

/// A member of a guild, with the user it is.
#[derive(Clone, Debug)]
pub struct Member {
    pub guild_id: u64,
    pub user_id: u64,
    /// Avatar hash of the user.
    pub avatar: Option<String>,
    /// When the member joined the guild.
    pub joined_at: Option<String>,
    /// Server mute status, when known.
    pub mute: Option<bool>,
    /// Server deafened status, when known.
    pub deaf: Option<bool>,
    pub nick: Option<String>,
    pub discriminator: String,
    pub name: String,
    pub bot: bool,
    /// Ids of the member's roles, without the `@everyone` role.
    pub roles: Vec<u64>,
}

impl Member {
    /// Avatar hash of the member.
    pub fn avatar(&self) -> (r: Option<&String>)
        ensures
            r is Some <==> self.avatar is Some,
            r is Some ==> *r->0 == self.avatar->0,
    {
        self.avatar.as_ref()
    }

    /// Time the member joined the guild.
    pub fn joined_at(&self) -> (r: Option<&String>)
        ensures
            r is Some <==> self.joined_at is Some,
            r is Some ==> *r->0 == self.joined_at->0,
    {
        self.joined_at.as_ref()
    }

    /// Member's server mute status; not muted when unknown.
    pub fn mute(&self) -> (r: bool)
        ensures
            r == (self.mute == Some(true)),
    {
        match self.mute {
            Some(m) => m,
            None => false,
        }
    }

    /// Member's server deafened status; not deafened when unknown.
    pub fn deaf(&self) -> (r: bool)
        ensures
            r == (self.deaf == Some(true)),
    {
        match self.deaf {
            Some(d) => d,
            None => false,
        }
    }

    /// Member's nickname.
    pub fn nick(&self) -> (r: &Option<String>)
        ensures
            *r == self.nick,
    {
        &self.nick
    }

    /// Member's discriminator.
    pub fn discriminator(&self) -> (r: &str)
        ensures
            r@ == self.discriminator@,
    {
        self.discriminator.as_str()
    }

    /// Member's unique identifier, in decimal.
    pub fn id(&self) -> (r: String)
        ensures
            r@ == decimal_text(self.user_id as nat),
    {
        id_to_string(self.user_id)
    }

    /// Member's discord username.
    pub fn name(&self) -> (r: &str)
        ensures
            r@ == self.name@,
    {
        self.name.as_str()
    }

    /// Member's bot status.
    pub fn bot(&self) -> (r: bool)
        ensures
            r == self.bot,
    {
        self.bot
    }
}

/// State of a member in a voice channel.
#[derive(Clone, Debug)]
pub struct VoiceChannelState {
    pub user_id: u64,
    pub guild_id: Option<u64>,
    pub channel_id: Option<u64>,
    pub deaf: bool,
    pub mute: bool,
    pub self_deaf: bool,
    pub self_mute: bool,
}

impl VoiceChannelState {
    /// Id of the member who this voice state is about, in decimal.
    pub fn id(&self) -> (r: String)
        ensures
            r@ == decimal_text(self.user_id as nat),
    {
        id_to_string(self.user_id)
    }

    /// Server deafened status of the member.
    pub fn deaf(&self) -> (r: bool)
        ensures
            r == self.deaf,
    {
        self.deaf
    }

    /// Server mute status of the member.
    pub fn mute(&self) -> (r: bool)
        ensures
            r == self.mute,
    {
        self.mute
    }

    /// Self deafened status of the member.
    pub fn self_deaf(&self) -> (r: bool)
        ensures
            r == self.self_deaf,
    {
        self.self_deaf
    }

    /// Self muted status of the member.
    pub fn self_mute(&self) -> (r: bool)
        ensures
            r == self.self_mute,
    {
        self.self_mute
    }

    /// Id of the channel that this voice state is in, in decimal.
    pub fn channel_id(&self) -> (r: Option<String>)
        ensures
            r is Some <==> self.channel_id is Some,
            r is Some ==> r->0@ == decimal_text(self.channel_id->0 as nat),
    {
        match self.channel_id {
            Some(id) => Some(id_to_string(id)),
            None => None,
        }
    }
}

/// A channel category for grouping channels: a guild channel of the category type.
#[derive(Debug)]
pub struct CategoryChannel {
    channel: GuildChannel,
}

impl View for CategoryChannel {
    type V = GuildChannel;

    closed spec fn view(&self) -> GuildChannel {
        self.channel
    }
}

impl CategoryChannel {
    #[verifier::type_invariant]
    closed spec fn is_category(self) -> bool {
        self.channel.kind == GUILD_CATEGORY
    }

    /// The channel as a category: an error unless it is one.
    pub fn try_from(channel: GuildChannel) -> (r: Result<CategoryChannel, WrongVariantError>)
        ensures
            channel.kind == GUILD_CATEGORY ==> (r matches Ok(c) && c@ == channel),
            channel.kind != GUILD_CATEGORY ==> r == Err::<CategoryChannel, _>(WrongVariantError::NotACategory),
    {
        if channel.kind == GUILD_CATEGORY {
            Ok(CategoryChannel { channel })
        } else {
            Err(WrongVariantError::NotACategory)
        }
    }

    /// The channel type number, which is always that of a category.
    pub fn kind(&self) -> (r: u8)
        ensures
            r == self@.kind,
            r == GUILD_CATEGORY,
    {
        proof {
            use_type_invariant(self);
        }
        self.channel.kind
    }

    /// The guild channel that this category is.
    pub fn channel(&self) -> (r: &GuildChannel)
        ensures
            *r == self@,
    {
        &self.channel
    }

    /// Id of the category, in decimal.
    pub fn id(&self) -> (r: String)
        ensures
            r@ == decimal_text(self@.id as nat),
    {
        id_to_string(self.channel.id)
    }

    /// Name of the category; empty when it has none.
    pub fn name(&self) -> (r: &str)
        ensures
            r@ == self@.spec_name(),
    {
        self.channel.name()
    }

    /// Relative position of the category; 0 when it has none.
    pub fn position(&self) -> (r: i32)
        ensures
            r == self@.spec_position(),
    {
        self.channel.position()
    }
}

/// A voice channel in a guild: a guild channel of the voice type.
#[derive(Debug)]
pub struct VoiceChannel {
    channel: GuildChannel,
}

impl View for VoiceChannel {
    type V = GuildChannel;

    closed spec fn view(&self) -> GuildChannel {
        self.channel
    }
}

impl VoiceChannel {
    #[verifier::type_invariant]
    closed spec fn is_voice(self) -> bool {
        self.channel.kind == GUILD_VOICE
    }

    /// The channel as a voice channel: an error unless it is one.
    pub fn try_from(channel: GuildChannel) -> (r: Result<VoiceChannel, WrongVariantError>)
        ensures
            channel.kind == GUILD_VOICE ==> (r matches Ok(c) && c@ == channel),
            channel.kind != GUILD_VOICE ==> r == Err::<VoiceChannel, _>(WrongVariantError::NotAVoiceChannel),
    {
        if channel.kind == GUILD_VOICE {
            Ok(VoiceChannel { channel })
        } else {
            Err(WrongVariantError::NotAVoiceChannel)
        }
    }

    /// The channel type number, which is always that of a voice channel.
    pub fn kind(&self) -> (r: u8)
        ensures
            r == self@.kind,
            r == GUILD_VOICE,
    {
        proof {
            use_type_invariant(self);
        }
        self.channel.kind
    }

    /// The guild channel that this voice channel is.
    pub fn channel(&self) -> (r: &GuildChannel)
        ensures
            *r == self@,
    {
        &self.channel
    }

    /// Name of the voice channel; empty when it has none.
    pub fn name(&self) -> (r: &str)
        ensures
            r@ == self@.spec_name(),
    {
        self.channel.name()
    }

    /// Unique id of the voice channel, in decimal.
    pub fn id(&self) -> (r: String)
        ensures
            r@ == decimal_text(self@.id as nat),
    {
        id_to_string(self.channel.id)
    }

    /// Maximum amount of users allowed in the channel, when it fits in an `i32`.
    pub fn user_limit(&self) -> (r: Result<Option<i32>, OutOfRange>)
        ensures
            self@.user_limit is None ==> r == Ok::<Option<i32>, OutOfRange>(None),
            self@.user_limit matches Some(l) ==> (r is Ok <==> l <= i32::MAX),
            self@.user_limit matches Some(l) ==> (r matches Ok(x) ==> (x matches Some(y) && y as int == l as int)),
    {
        match self.channel.user_limit {
            None => Ok(None),
            Some(l) => match u32_to_i32(l) {
                Ok(x) => Ok(Some(x)),
                Err(e) => Err(e),
            },
        }
    }

    /// Relative position of the voice channel; 0 when it has none.
    pub fn position(&self) -> (r: i32)
        ensures
            r == self@.spec_position(),
    {
        self.channel.position()
    }
}

/// A discord guild.
#[derive(Clone, Debug)]
pub struct Guild {
    pub id: u64,
    pub name: String,
    /// Whether the guild is unavailable, when known.
    pub unavailable: Option<bool>,
    pub owner_id: u64,
    /// Icon hash of the guild.
    pub icon: Option<String>,
    /// Banner hash of the guild.
    pub banner: Option<String>,
}

impl Guild {
    /// Guild's snowflake id, in decimal.
    pub fn id(&self) -> (r: String)
        ensures
            r@ == decimal_text(self.id as nat),
    {
        id_to_string(self.id)
    }

    /// Guild's name.
    pub fn name(&self) -> (r: &str)
        ensures
            r@ == self.name@,
    {
        self.name.as_str()
    }

    /// Whether or not the guild is unavailable; available when unknown.
    pub fn unavailable(&self) -> (r: bool)
        ensures
            r == (self.unavailable == Some(true)),
    {
        match self.unavailable {
            Some(u) => u,
            None => false,
        }
    }

    /// Icon hash of the guild.
    pub fn icon(&self) -> (r: Option<&String>)
        ensures
            r is Some <==> self.icon is Some,
            r is Some ==> *r->0 == self.icon->0,
    {
        self.icon.as_ref()
    }

    /// Banner hash of the guild.
    pub fn banner(&self) -> (r: Option<&String>)
        ensures
            r is Some <==> self.banner is Some,
            r is Some ==> *r->0 == self.banner->0,
    {
        self.banner.as_ref()
    }
}

/// Whether a channel is a voice channel.
pub open spec fn is_voice_channel(c: GuildChannel) -> bool {
    c.kind == GUILD_VOICE
}

/// The channels of `channels` that are voice channels, in order.
pub open spec fn voice_channels_of(channels: Seq<GuildChannel>) -> Seq<GuildChannel> {
    channels.filter(|c: GuildChannel| is_voice_channel(c))
}

/// The guild channels behind a list of voice channels.
pub open spec fn channels_of(voice: Seq<VoiceChannel>) -> Seq<GuildChannel> {
    voice.map_values(|v: VoiceChannel| v@)
}

/// Whether no two of the channels have the same id.
pub open spec fn channel_ids_distinct(channels: Seq<GuildChannel>) -> bool {
    forall|i: int, j: int| 0 <= i < j < channels.len() ==> (#[trigger] channels[i]).id != (#[trigger] channels[j]).id
}

/// Keeping only the voice channels keeps channel ids distinct.
pub proof fn lemma_voice_channels_distinct(channels: Seq<GuildChannel>)
    requires
        channel_ids_distinct(channels),
    ensures
        channel_ids_distinct(voice_channels_of(channels)),
    decreases channels.len(),
{
    reveal(Seq::filter);
    if channels.len() > 0 {
        let init = channels.drop_last();
        let last = channels.last();
        assert(channel_ids_distinct(init)) by {
            assert forall|i: int, j: int| 0 <= i < j < init.len() implies (#[trigger] init[i]).id != (#[trigger] init[j]).id by {
                assert(init[i] == channels[i]);
                assert(init[j] == channels[j]);
            }
        }
        lemma_voice_channels_distinct(init);
        let f = init.filter(|c: GuildChannel| is_voice_channel(c));
        if is_voice_channel(last) {
            assert forall|i: int| 0 <= i < f.len() implies (#[trigger] f[i]).id != last.id by {
                assert(f.contains(f[i]));
                init.lemma_filter_contains_rev(|c: GuildChannel| is_voice_channel(c), f[i]);
                let k = choose|k: int| 0 <= k < init.len() && init[k] == f[i];
                assert(channels[k] == init[k]);
                assert(channels[channels.len() - 1] == last);
            }
            let g = f.push(last);
            assert forall|i: int, j: int| 0 <= i < j < g.len() implies (#[trigger] g[i]).id != (#[trigger] g[j]).id by {
                if j == g.len() - 1 {
                    assert(g[i] == f[i]);
                } else {
                    assert(g[i] == f[i]);
                    assert(g[j] == f[j]);
                }
            }
        }
    }
}

/// The voice channels among any channels are voice channels.
pub proof fn lemma_voice_channels_are_voice(voice: Seq<VoiceChannel>, channels: Seq<GuildChannel>)
    requires
        channels_of(voice) == voice_channels_of(channels),
    ensures
        forall|i: int| 0 <= i < voice.len() ==> (#[trigger] voice[i])@.kind == GUILD_VOICE,
{
    assert forall|i: int| 0 <= i < voice.len() implies (#[trigger] voice[i])@.kind == GUILD_VOICE by {
        assert(channels_of(voice)[i] == voice[i]@);
        channels.lemma_filter_pred(|c: GuildChannel| is_voice_channel(c), i);
    }
}

impl Guild {
    /// The voice channels among the guild's channels, in order; channels of other types are
    /// left out.
    pub fn voice_channels_among(channels: Vec<GuildChannel>) -> (r: Vec<VoiceChannel>)
        ensures
            channels_of(r@) == voice_channels_of(channels@),
    {
        let ghost all = channels@;
        let n = channels.len();
        assert(all.len() == n);
        let mut rest = channels;
        let mut r: Vec<VoiceChannel> = Vec::new();
        let mut taken: usize = 0;
        while rest.len() > 0
            invariant
                taken + rest@.len() == all.len(),
                all.len() <= usize::MAX,
                rest@ == all.subrange(taken as int, all.len() as int),
                channels_of(r@) == voice_channels_of(all.take(taken as int)),
            decreases rest.len(),
        {
            let c = rest.remove(0);
            proof {
                reveal(Seq::filter);
                assert(all.take(taken + 1).drop_last() =~= all.take(taken as int));
                assert(all.take(taken + 1).last() == c);
            }
            let ghost old_r = r@;
            let ghost kind = c.kind;
            match VoiceChannel::try_from(c) {
                Ok(v) => {
                    r.push(v);
                    assert(r@.drop_last() =~= old_r);
                    assert(channels_of(r@) =~= channels_of(old_r).push(r@.last()@));
                },
                Err(_) => {},
            }
            assert(channels_of(r@) =~= voice_channels_of(all.take(taken + 1)));
            taken = taken + 1;
        }
        assert(all.take(taken as int) =~= all);
        r
    }
}

/// A current user, either the bot or an oauth user, detached from any guild.
#[derive(Clone, Debug)]
pub struct CurrentUser {
    pub id: u64,
    pub name: String,
    pub discriminator: String,
    pub mfa_enabled: bool,
    pub avatar: Option<String>,
}

impl CurrentUser {
    /// Discord username of the user.
    pub fn name(&self) -> (r: &str)
        ensures
            r@ == self.name@,
    {
        self.name.as_str()
    }

    /// Unique identifying id of the user, in decimal.
    pub fn id(&self) -> (r: String)
        ensures
            r@ == decimal_text(self.id as nat),
    {
        id_to_string(self.id)
    }

    /// Discriminator of the user.
    pub fn discriminator(&self) -> (r: &str)
        ensures
            r@ == self.discriminator@,
    {
        self.discriminator.as_str()
    }

    /// Whether the user has multi-factor authentication enabled.
    pub fn mfa(&self) -> (r: bool)
        ensures
            r == self.mfa_enabled,
    {
        self.mfa_enabled
    }

    /// User's avatar hash.
    pub fn avatar(&self) -> (r: Option<&String>)
        ensures
            r is Some <==> self.avatar is Some,
            r is Some ==> *r->0 == self.avatar->0,
    {
        self.avatar.as_ref()
    }
}

} // verus!
