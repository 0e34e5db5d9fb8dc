use mtg_spoilers::card::Timestamp;
use mtg_spoilers::config::{Config, FilterConfig};
use mtg_spoilers::reddit::RedditPost;
use mtg_spoilers::verify::AuthenticityScorer;

#[test]
fn defaults_match_the_documented_values() {
    let c = Config::default();
    assert_eq!(c.app.tick_rate_ms, 250);
    assert_eq!(c.app.auto_refresh_minutes, 0);
    assert_eq!(c.reddit.subreddit, "magicTCG");
    assert_eq!(c.reddit.fetch_limit, 25);
    assert!(c.reddit.trusted_users.is_empty());
    assert_eq!(c.scryfall.api_url, "https://api.scryfall.com");
    assert_eq!(c.scryfall.rate_limit_ms, 100);
    assert_eq!(c.filter.min_authenticity_score, 30);
    assert_eq!(c.filter.dedup_hash_threshold, 10);
    assert!(c.filter.hide_fake_by_default);
    assert!(c.display.confidence_colors);
    assert!(!c.display.show_thumbnails);
}

#[test]
fn loaded_settings_win_over_defaults() {
    let mut loaded = Config::default();
    loaded.filter = FilterConfig { min_authenticity_score: 80, dedup_hash_threshold: 3, hide_fake_by_default: false };
    let c = Config::or_default(Some(loaded));
    assert_eq!(c.filter.min_authenticity_score, 80);
    let d = Config::or_default(None);
    assert_eq!(d.filter.min_authenticity_score, 30);
}

#[test]
fn every_reddit_post_scores_one_half() {
    let p = RedditPost {
        id: "x".to_string(),
        title: "anything".to_string(),
        url: String::new(),
        author: "a".to_string(),
        created_utc: Timestamp { secs: 0, nanos: 0 },
        upvotes: -3,
        thumbnail: None,
        is_self: true,
        selftext: String::new(),
        flair: None,
    };
    assert_eq!(AuthenticityScorer::score_reddit(&p, &[]), 50);
    assert_eq!(AuthenticityScorer::score_reddit(&p, &["trusted".to_string()]), 50);
}
