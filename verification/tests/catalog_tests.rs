//! Catalog construction and the aggregator's merge.

use twitch_emote_api::catalog::merge_channel_emotes;
use twitch_emote_api::catalog::Catalog;
use twitch_emote_api::platform::ChannelEmote;
use twitch_emote_api::platform::Platform;
use twitch_emote_api::platform::PlatformError;

fn emote(platform: Platform, id: &str, name: &str) -> ChannelEmote {
    ChannelEmote { platform, id: id.to_string(), name: name.to_string(), animated: false }
}

#[test]
fn merge_order_last_provider_wins() {
    let s = Ok(vec![emote(Platform::SevenTv, "a", "x")]);
    let b = Ok(vec![emote(Platform::BetterTtv, "b", "x")]);
    let f = Ok(vec![emote(Platform::FrancerFaceZ, "c", "x")]);
    let merged = merge_channel_emotes(&s, &b, &f);
    assert_eq!(merged.len(), 1);
    let hit = merged.get(&"x".to_string()).unwrap();
    assert_eq!(hit.id, "c");
    assert!(matches!(hit.platform, Platform::FrancerFaceZ));
}

#[test]
fn merge_middle_provider_wins_when_last_lacks_name() {
    let s = Ok(vec![emote(Platform::SevenTv, "a", "x")]);
    let b = Ok(vec![emote(Platform::BetterTtv, "b", "x")]);
    let f = Ok(vec![emote(Platform::FrancerFaceZ, "c", "y")]);
    let merged = merge_channel_emotes(&s, &b, &f);
    assert_eq!(merged.len(), 2);
    assert_eq!(merged.get(&"x".to_string()).unwrap().id, "b");
    assert_eq!(merged.get(&"y".to_string()).unwrap().id, "c");
}

#[test]
fn merge_tolerates_partial_failure() {
    let s: Result<Vec<ChannelEmote>, PlatformError> = Err(PlatformError::RequestFailure);
    let b = Ok(vec![
        emote(Platform::BetterTtv, "1", "pog"),
        emote(Platform::BetterTtv, "2", "kek"),
    ]);
    let f: Result<Vec<ChannelEmote>, PlatformError> =
        Err(PlatformError::PlatformError(Platform::FrancerFaceZ));
    let merged = merge_channel_emotes(&s, &b, &f);
    assert_eq!(merged.len(), 2);
    assert_eq!(merged.get(&"pog".to_string()).unwrap().id, "1");
    assert_eq!(merged.get(&"kek".to_string()).unwrap().id, "2");
}

#[test]
fn merge_of_three_failures_is_empty() {
    let s: Result<Vec<ChannelEmote>, PlatformError> = Err(PlatformError::RequestFailure);
    let b: Result<Vec<ChannelEmote>, PlatformError> = Err(PlatformError::RequestFailure);
    let f: Result<Vec<ChannelEmote>, PlatformError> = Err(PlatformError::RequestFailure);
    let merged = merge_channel_emotes(&s, &b, &f);
    assert_eq!(merged.len(), 0);
}

#[test]
fn insert_replaces_by_name() {
    let mut c = Catalog::new();
    c.insert(emote(Platform::SevenTv, "a", "x"));
    c.insert(emote(Platform::SevenTv, "b", "x"));
    assert_eq!(c.len(), 1);
    assert_eq!(c.get(&"x".to_string()).unwrap().id, "b");
    assert!(c.get(&"missing".to_string()).is_none());
}
