//! The errors that the GraphQL queries and mutations answer with.

use vstd::prelude::*;
use crate::model::{OutOfRange, WrongVariantError};

verus! {

/// Why a query or a mutation could not be answered.
#[derive(Debug)]
pub enum QueryError {
    InvalidGuildId,
    InvalidChannelId,
    InvalidUserId,
    /// A voice state was not in a guild.
    NotInGuild,
    /// The member of a voice state is not cached.
    MemberNotCached,
    /// The logged in user could not be fetched.
    CurrentUserUnavailable,
    /// The bot user is not cached.
    BotUserUnavailable,
    /// A voice channel has no guild id.
    ChannelMissingGuild,
    /// The user is not a cached member of the channel's guild.
    UserNotInGuild,
    /// The guild's `@everyone` role is not cached.
    EveryoneRoleMissing,
    /// One of the member's roles is not cached.
    RolesMissing,
    /// The guild's owner is not a cached member.
    OwnerNotCached,
    /// The logged in user is not a cached member of the guild.
    MeNotCached,
    /// The bot user is not cached, asked for as a user.
    BotNotCached,
    /// The logged in oauth user could not be fetched.
    OauthUserUnavailable,
    /// No cached channel has the id given.
    ChannelNotFound,
    WrongVariant(WrongVariantError),
    OutOfRange(OutOfRange),
    /// The user lacks the permissions named to perform a mutation.
    PermissionDenied(Vec<String>),
}

impl QueryError {
    /// What the error says.
    pub open spec fn spec_message(&self) -> Seq<char> {
        match self {
            QueryError::InvalidGuildId => "Invalid guild id"@,
            QueryError::InvalidChannelId => "Invalid channel id"@,
            QueryError::InvalidUserId => "Invalid user id"@,
            QueryError::NotInGuild => "Voice channel provided was not in a guild"@,
            QueryError::MemberNotCached => "Member does not exist in cache"@,
            QueryError::CurrentUserUnavailable => "Unable to get information on the current user"@,
            QueryError::BotUserUnavailable => "Unable to get information on the bot current"@,
            QueryError::ChannelMissingGuild => "Voice channel missing guild_id"@,
            QueryError::UserNotInGuild => "Unable to get information about the user in the guild"@,
            QueryError::EveryoneRoleMissing => "The bot was unable to get information on the @everyone role for the guild the voice channel is in"@,
            QueryError::RolesMissing => "The bot was unable to get information on its roles"@,
            QueryError::OwnerNotCached => "The guild owner was not found in the cache"@,
            QueryError::MeNotCached => "Failed to lookup current user in cache"@,
            QueryError::BotNotCached => "Unable to get information on the bot user from the cache"@,
            QueryError::OauthUserUnavailable => "Unable to get information on the current oauth user"@,
            QueryError::ChannelNotFound => "Channel does not exist on the guild"@,
            QueryError::WrongVariant(e) => e.spec_message(),
            QueryError::OutOfRange(_) => "out of range integral type conversion attempted"@,
            QueryError::PermissionDenied(_) => "Permission denied: user does not have enough permissions to perform that action"@,
        }
    }

    /// The error's text.
    pub fn message(&self) -> (m: &'static str)
        ensures
            m@ == self.spec_message(),
    {
        match self {
            QueryError::InvalidGuildId => "Invalid guild id",
            QueryError::InvalidChannelId => "Invalid channel id",
            QueryError::InvalidUserId => "Invalid user id",
            QueryError::NotInGuild => "Voice channel provided was not in a guild",
            QueryError::MemberNotCached => "Member does not exist in cache",
            QueryError::CurrentUserUnavailable => "Unable to get information on the current user",
            QueryError::BotUserUnavailable => "Unable to get information on the bot current",
            QueryError::ChannelMissingGuild => "Voice channel missing guild_id",
            QueryError::UserNotInGuild => "Unable to get information about the user in the guild",
            QueryError::EveryoneRoleMissing => "The bot was unable to get information on the @everyone role for the guild the voice channel is in",
            QueryError::RolesMissing => "The bot was unable to get information on its roles",
            QueryError::OwnerNotCached => "The guild owner was not found in the cache",
            QueryError::MeNotCached => "Failed to lookup current user in cache",
            QueryError::BotNotCached => "Unable to get information on the bot user from the cache",
            QueryError::OauthUserUnavailable => "Unable to get information on the current oauth user",
            QueryError::ChannelNotFound => "Channel does not exist on the guild",
            QueryError::WrongVariant(e) => e.message(),
            QueryError::OutOfRange(e) => e.message(),
            QueryError::PermissionDenied(_) => "Permission denied: user does not have enough permissions to perform that action",
        }
    }
}

} // verus!
