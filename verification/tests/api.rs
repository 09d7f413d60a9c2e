use messagify::api::{
    channel_messages_url, check_status, guild_channels_url, require_token, user_channels_url,
    user_guilds_url, users_me_url, ApiError,
};

#[test]
fn fixed_addresses() {
    assert_eq!(users_me_url(), "https://discord.com/api/v10/users/@me");
    assert_eq!(user_guilds_url(), "https://discord.com/api/v10/users/@me/guilds");
    assert_eq!(user_channels_url(), "https://discord.com/api/v10/users/@me/channels");
}

#[test]
fn guild_channels_address_holds_the_guild() {
    assert_eq!(guild_channels_url("123"), "https://discord.com/api/v10/guilds/123/channels");
    assert_eq!(guild_channels_url(""), "https://discord.com/api/v10/guilds//channels");
}

#[test]
fn channel_messages_address_holds_channel_and_limit() {
    assert_eq!(
        channel_messages_url("77", None),
        "https://discord.com/api/v10/channels/77/messages"
    );
    assert_eq!(
        channel_messages_url("77", Some(50)),
        "https://discord.com/api/v10/channels/77/messages?limit=50"
    );
    assert_eq!(
        channel_messages_url("77", Some(0)),
        "https://discord.com/api/v10/channels/77/messages?limit=0"
    );
    assert_eq!(
        channel_messages_url("77", Some(u32::MAX)),
        "https://discord.com/api/v10/channels/77/messages?limit=4294967295"
    );
}

#[test]
fn only_the_two_hundreds_succeed() {
    assert_eq!(check_status(200), Ok(()));
    assert_eq!(check_status(204), Ok(()));
    assert_eq!(check_status(299), Ok(()));
    assert_eq!(check_status(199), Err(ApiError::Http(199)));
    assert_eq!(check_status(300), Err(ApiError::Http(300)));
    assert_eq!(check_status(401), Err(ApiError::Http(401)));
    assert_eq!(check_status(0), Err(ApiError::Http(0)));
    assert_eq!(check_status(u16::MAX), Err(ApiError::Http(u16::MAX)));
}

#[test]
fn every_error_has_its_label() {
    assert_eq!(ApiError::NotAuthenticated.label(), "not_authenticated");
    assert_eq!(ApiError::RequestFailed.label(), "request_failed");
    assert_eq!(ApiError::ParseFailed.label(), "parse_failed");
    assert_eq!(ApiError::Http(404).label(), "http_404");
    assert_eq!(ApiError::Http(500).label(), "http_500");
}

#[test]
fn a_request_needs_a_stored_token() {
    assert_eq!(require_token(Some("abc".to_string())), Ok("abc".to_string()));
    assert_eq!(require_token(None), Err(ApiError::NotAuthenticated));
}
