//! The refreshing OAuth token: freshness, refresh and status classification.

use twitch_emote_api::platform::Platform;
use twitch_emote_api::platform::PlatformError;
use twitch_emote_api::token::classify_oauth_status;
use twitch_emote_api::token::OauthResponse;
use twitch_emote_api::token::TwitchRefreshingToken;

#[test]
fn token_is_served_within_its_validity() {
    let tok = TwitchRefreshingToken::new(
        OauthResponse { access_token: "abc".to_string(), expires_in: 60 },
        1_000,
    );
    assert_eq!(tok.get_token(1_000), Some(&"abc".to_string()));
    assert_eq!(tok.get_token(60_999), Some(&"abc".to_string()));
}

#[test]
fn token_expires_exactly_at_the_expiry_instant() {
    let tok = TwitchRefreshingToken::new(
        OauthResponse { access_token: "abc".to_string(), expires_in: 60 },
        1_000,
    );
    assert_eq!(tok.get_token(61_000), None);
    assert_eq!(tok.get_token(u64::MAX), None);
}

#[test]
fn refresh_installs_a_new_window() {
    let mut tok = TwitchRefreshingToken::new(
        OauthResponse { access_token: "abc".to_string(), expires_in: 60 },
        0,
    );
    // Force the expiry: at the boundary a refresh is due.
    assert_eq!(tok.get_token(60_000), None);
    tok.apply_refresh(
        OauthResponse { access_token: "next".to_string(), expires_in: 30 },
        60_000,
    );
    // Every later read inside the new window needs no further refresh.
    assert_eq!(tok.get_token(60_000), Some(&"next".to_string()));
    assert_eq!(tok.get_token(89_999), Some(&"next".to_string()));
    assert_eq!(tok.get_token(90_000), None);
}

#[test]
fn oauth_status_classification() {
    assert!(classify_oauth_status(200).is_ok());
    assert!(classify_oauth_status(204).is_ok());
    assert_eq!(
        classify_oauth_status(401),
        Err(PlatformError::Unauthorized(Platform::Twitch))
    );
    assert_eq!(classify_oauth_status(500), Err(PlatformError::RequestFailure));
    assert_eq!(classify_oauth_status(302), Err(PlatformError::RequestFailure));
}
