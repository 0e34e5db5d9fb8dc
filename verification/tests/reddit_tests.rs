use mtg_spoilers::card::Timestamp;
use mtg_spoilers::reddit::card_name_from_captures;
use mtg_spoilers::card::Platform;
use mtg_spoilers::reddit::{is_spoiler_post, RawRedditPost, RedditClient, RedditPost};

fn raw(id: &str, title: &str, flair: Option<&str>) -> RawRedditPost {
    RawRedditPost {
        id: id.to_string(),
        title: title.to_string(),
        url: Some(format!("/r/magicTCG/comments/{}", id)),
        author: "someone".to_string(),
        created_utc: Timestamp { secs: 1_700_000_000, nanos: 0 },
        upvotes: 42,
        thumbnail: String::new(),
        is_self: false,
        selftext: String::new(),
        flair: flair.map(|f| f.to_string()),
    }
}

fn post(title: &str) -> RedditPost {
    RedditPost {
        id: "p1".to_string(),
        title: title.to_string(),
        url: "/r/magicTCG/comments/p1".to_string(),
        author: "someone".to_string(),
        created_utc: Timestamp { secs: 1_700_000_000, nanos: 250 },
        upvotes: 42,
        thumbnail: None,
        is_self: false,
        selftext: String::new(),
        flair: None,
    }
}

#[test]
fn spoiler_posts_are_recognised_by_title_or_flair() {
    assert!(is_spoiler_post("[MH3] New SPOILER!", &None));
    assert!(is_spoiler_post("Card Leaked early", &None));
    assert!(is_spoiler_post("Officially REVEALED today", &None));
    assert!(!is_spoiler_post("Deck tech: mono red", &None));
    assert!(is_spoiler_post("Look at this", &Some("Spoiler".to_string())));
    assert!(is_spoiler_post("Look at this", &Some("LEAK".to_string())));
    assert!(!is_spoiler_post("Look at this", &Some("Revealed".to_string())));
    assert!(!is_spoiler_post("Look at this", &Some("Discussion".to_string())));
}

#[test]
fn card_name_from_set_pattern() {
    let p = post("[MH3] Lightning Bolt (1R) - new art");
    assert_eq!(p.extract_card_name(), Some("Lightning Bolt".to_string()));
}

#[test]
fn card_name_from_spoiler_pattern() {
    assert_eq!(post("Spoiler: Sol Ring from Commander").extract_card_name(), Some("Sol Ring".to_string()));
    assert_eq!(post("SPOILER  Black Lotus").extract_card_name(), Some("Black Lotus".to_string()));
    assert_eq!(post("spoiler: Counterspell [MH3]").extract_card_name(), Some("Counterspell".to_string()));
}

#[test]
fn no_card_name_without_a_pattern() {
    assert_eq!(post("What a great set").extract_card_name(), None);
}

#[test]
fn to_source_prefixes_the_url_and_truncates_upvotes() {
    let mut p = post("x");
    p.upvotes = (1i64 << 32) + 5;
    let s = p.to_source(50);
    assert_eq!(s.url, "https://reddit.com/r/magicTCG/comments/p1");
    assert!(matches!(s.platform, Platform::Reddit));
    assert_eq!(s.author, Some("someone".to_string()));
    assert_eq!(s.raw_title, "x");
    assert_eq!(s.upvotes, Some(5));
    assert_eq!(s.posted_at, Timestamp { secs: 1_700_000_000, nanos: 250 });
    assert_eq!(s.authenticity_score, 50);
}

#[test]
fn accept_posts_keeps_new_spoilers_only() {
    let mut client = RedditClient::new();
    assert_eq!(client.subreddit(), "magicTCG");
    let mut with_thumb = raw("c", "leak: Thing", None);
    with_thumb.thumbnail = "https://thumbs/x.jpg".to_string();
    with_thumb.url = None;
    let listing = vec![
        raw("a", "Spoiler: Card A", None),
        raw("b", "Deck tech", None),
        with_thumb,
        raw("a", "Spoiler: Card A again", None),
    ];
    let kept = client.accept_posts(listing);
    assert_eq!(kept.len(), 2);
    assert_eq!(kept[0].id, "a");
    assert_eq!(kept[0].title, "Spoiler: Card A");
    assert_eq!(kept[0].thumbnail, None);
    assert_eq!(kept[1].id, "c");
    assert_eq!(kept[1].url, "");
    assert_eq!(kept[1].thumbnail, Some("https://thumbs/x.jpg".to_string()));
}

#[test]
fn accepting_the_same_listing_twice_yields_nothing() {
    let mut client = RedditClient::with_subreddit("mtgleaks");
    assert_eq!(client.subreddit(), "mtgleaks");
    let listing = || vec![raw("a", "Spoiler: A", None), raw("b", "B", Some("Leak")), raw("c", "nothing", None)];
    assert_eq!(client.accept_posts(listing()).len(), 2);
    assert_eq!(client.accept_posts(listing()).len(), 0);
}

#[test]
fn card_name_from_given_captures() {
    let s = |x: &str| Some(Some(x.to_string()));
    assert_eq!(card_name_from_captures(s("  Bolt "), s("Other")), Some("Bolt".to_string()));
    assert_eq!(card_name_from_captures(Some(None), s("Other")), None);
    assert_eq!(card_name_from_captures(None, s(" Other\t")), Some("Other".to_string()));
    assert_eq!(card_name_from_captures(None, Some(None)), None);
    assert_eq!(card_name_from_captures(None, None), None);
}

#[test]
fn no_id_is_kept_twice_over_calls() {
    let mut client = RedditClient::new();
    let first = client.accept_posts(vec![raw("a", "spoiler a", None), raw("a", "spoiler a", None), raw("b", "leak b", None)]);
    let second = client.accept_posts(vec![raw("b", "leak b", None), raw("c", "spoiler c", None)]);
    let ids: Vec<&str> = first.iter().chain(second.iter()).map(|p| p.id.as_str()).collect();
    assert_eq!(ids, vec!["a", "b", "c"]);
}

#[test]
fn no_id_is_handed_out_twice_over_many_calls() {
    let mut client = RedditClient::new();
    let mut all = Vec::new();
    for round in 0..4 {
        let listing = vec![
            raw("a", "spoiler a", None),
            raw(&format!("r{}", round), "leak", None),
            raw(&format!("r{}", round), "leak", None),
            raw("b", "Spoiler: B", None),
        ];
        all.extend(client.accept_posts(listing).into_iter().map(|p| p.id));
    }
    assert_eq!(all, vec!["a", "r0", "b", "r1", "r2", "r3"]);
}
