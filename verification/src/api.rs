//! The request/response side of the service: where each resource is found,
//! and what a response's status means. Sending the request is the host's
//! business.

use crate::decimal::{decimal_text, u64_to_decimal};
use vstd::prelude::*;
use vstd::string::StringExecFns;

verus! {

/// Why a request for a resource failed. The host shows the label.
#[derive(Clone, Copy, Debug, PartialEq, Eq, Structural)]
pub enum ApiError {
    /// No credential is stored.
    NotAuthenticated,
    /// The request never got an answer.
    RequestFailed,
    /// The service answered with this status, which is no success.
    Http(u16),
    /// The answer's body could not be read.
    ParseFailed,
}

/// The address of the current user.
pub open spec fn users_me() -> Seq<char> {
    "https://discord.com/api/v10/users/@me"@
}

/// The address of the current user's guilds.
pub open spec fn user_guilds() -> Seq<char> {
    "https://discord.com/api/v10/users/@me/guilds"@
}

/// The address of the current user's private channels.
pub open spec fn user_channels() -> Seq<char> {
    "https://discord.com/api/v10/users/@me/channels"@
}

/// The address of a guild's channels.
pub open spec fn guild_channels(guild_id: Seq<char>) -> Seq<char> {
    "https://discord.com/api/v10/guilds/"@ + guild_id + "/channels"@
}

/// The address of a channel's messages, with the limit where one is given.
pub open spec fn channel_messages(channel_id: Seq<char>, limit: Option<u32>) -> Seq<char> {
    let base = "https://discord.com/api/v10/channels/"@ + channel_id + "/messages"@;
    match limit {
        Some(count) => base + "?limit="@ + decimal_text(count as nat),
        None => base,
    }
}

/// Whether a status is a success: the two hundreds.
pub open spec fn is_success(status: u16) -> bool {
    200 <= status < 300
}

/// The label of an error, as the host shows it.
pub open spec fn error_label(error: ApiError) -> Seq<char> {
    match error {
        ApiError::NotAuthenticated => "not_authenticated"@,
        ApiError::RequestFailed => "request_failed"@,
        ApiError::Http(status) => "http_"@ + decimal_text(status as nat),
        ApiError::ParseFailed => "parse_failed"@,
    }
}

/// The address of the current user; a request there tells whether a
/// credential is good.
pub fn users_me_url() -> (url: String)
    ensures
        url@ == users_me(),
{
    String::from_str("https://discord.com/api/v10/users/@me")
}

/// The address of the current user's guilds.
pub fn user_guilds_url() -> (url: String)
    ensures
        url@ == user_guilds(),
{
    String::from_str("https://discord.com/api/v10/users/@me/guilds")
}

/// The address of the current user's private channels.
pub fn user_channels_url() -> (url: String)
    ensures
        url@ == user_channels(),
{
    String::from_str("https://discord.com/api/v10/users/@me/channels")
}

/// The address of the channels of guild `guild_id`.
pub fn guild_channels_url(guild_id: &str) -> (url: String)
    ensures
        url@ == guild_channels(guild_id@),
{
    let mut url = String::from_str("https://discord.com/api/v10/guilds/");
    url.append(guild_id);
    url.append("/channels");
    url
}

/// The address of the messages of channel `channel_id`, at most `limit` of
/// them where a limit is given.
pub fn channel_messages_url(channel_id: &str, limit: Option<u32>) -> (url: String)
    ensures
        url@ == channel_messages(channel_id@, limit),
{
    let mut url = String::from_str("https://discord.com/api/v10/channels/");
    url.append(channel_id);
    url.append("/messages");
    match limit {
        Some(count) => {
            url.append("?limit=");
            let digits = u64_to_decimal(count as u64);
            url.append(digits.as_str());
        },
        None => {},
    }
    url
}

/// The credential to send, or `NotAuthenticated` where none is stored.
pub fn require_token(token: Option<String>) -> (held: Result<String, ApiError>)
    ensures
        match token {
            Some(secret) => held == Ok::<String, ApiError>(secret),
            None => held == Err::<String, ApiError>(ApiError::NotAuthenticated),
        },
{
    match token {
        Some(secret) => Ok(secret),
        None => Err(ApiError::NotAuthenticated),
    }
}

/// Sorts a response by its status: a success goes on to its body, anything
/// else is an error that carries the status.
pub fn check_status(status: u16) -> (outcome: Result<(), ApiError>)
    ensures
        is_success(status) ==> outcome == Ok::<(), ApiError>(()),
        !is_success(status) ==> outcome == Err::<(), ApiError>(ApiError::Http(status)),
{
    if 200 <= status && status < 300 {
        Ok(())
    } else {
        Err(ApiError::Http(status))
    }
}

impl ApiError {
    /// The label of this error.
    pub fn label(&self) -> (label: String)
        ensures
            label@ == error_label(*self),
    {
        match self {
            ApiError::NotAuthenticated => String::from_str("not_authenticated"),
            ApiError::RequestFailed => String::from_str("request_failed"),
            ApiError::Http(status) => {
                let mut label = String::from_str("http_");
                let digits = u64_to_decimal(*status as u64);
                label.append(digits.as_str());
                label
            },
            ApiError::ParseFailed => String::from_str("parse_failed"),
        }
    }
}

} // verus!
