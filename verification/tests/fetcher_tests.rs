use mtg_spoilers::card::Timestamp;

fn at(secs: i64) -> Timestamp {
    Timestamp { secs, nanos: 0 }
}

use mtg_spoilers::fetcher::set_code_from_capture;
use mtg_spoilers::card::{Card, Confidence, Platform};
use mtg_spoilers::fetcher::{extract_set_from_title, Fetcher, LookupOutcome, PostStep};
use mtg_spoilers::reddit::{RawRedditPost, RedditPost};

fn post(id: &str, title: &str) -> RedditPost {
    RedditPost {
        id: id.to_string(),
        title: title.to_string(),
        url: format!("/r/magicTCG/comments/{}", id),
        author: "someone".to_string(),
        created_utc: Timestamp { secs: 1_700_000_000, nanos: 7 },
        upvotes: 7,
        thumbnail: None,
        is_self: false,
        selftext: String::new(),
        flair: None,
    }
}

fn scryfall_card(name: &str) -> Card {
    Card {
        id: "scryfall_abc".to_string(),
        name: name.to_string(),
        set_code: "MH3".to_string(),
        mana_cost: Some("{R}".to_string()),
        card_type: Some("Instant".to_string()),
        text: Some("Deal 3.".to_string()),
        power_toughness: None,
        loyalty: None,
        image_url: Some("https://cards.scryfall.io/x.jpg".to_string()),
        confidence: Confidence::Verified,
        sources: vec![],
        first_seen: at(5),
        last_updated: at(5),
        is_fake: false,
    }
}

#[test]
fn set_code_comes_from_brackets() {
    assert_eq!(extract_set_from_title("[mh3] Lightning Bolt (1R)"), Some("MH3".to_string()));
    assert_eq!(extract_set_from_title("[ab] x"), Some("AB".to_string()));
    assert_eq!(extract_set_from_title("[a] x"), None);
    assert_eq!(extract_set_from_title("no brackets"), None);
}

#[test]
fn new_post_asks_for_a_lookup_by_extracted_name() {
    let f = Fetcher::new("magicTCG", 100, &vec![]);
    match f.plan_post(&post("p1", "[MH3] Lightning Bolt (1R)")) {
        PostStep::Lookup { card_name } => assert_eq!(card_name, "Lightning Bolt"),
        _ => panic!("expected a lookup"),
    }
    match f.plan_post(&post("p2", "Weird title")) {
        PostStep::Lookup { card_name } => assert_eq!(card_name, "Weird title"),
        _ => panic!("expected a lookup"),
    }
}

#[test]
fn unverified_card_when_scryfall_has_nothing() {
    let mut f = Fetcher::new("magicTCG", 100, &vec![]);
    let p = post("p1", "[dsk] Scary Thing (2B)");
    let c = f.complete_post_at(&p, "Scary Thing", LookupOutcome::NotFound, at(99));
    assert_eq!(c.id, "reddit_p1");
    assert_eq!(c.name, "Scary Thing");
    assert_eq!(c.set_code, "DSK");
    assert_eq!(c.confidence, Confidence::Unverified);
    assert_eq!(c.sources.len(), 1);
    assert_eq!(c.sources[0].authenticity_score, 50);
    assert_eq!(c.first_seen, Timestamp { secs: 1_700_000_000, nanos: 7 });
    assert_eq!(c.last_updated, at(99));
    assert!(!c.is_fake);
    let p2 = post("p2", "Spoiler: Scary Thing");
    match f.plan_post(&p2) {
        PostStep::Duplicate { card_id, source } => {
            assert_eq!(card_id, "reddit_p1");
            assert_eq!(source.url, "https://reddit.com/r/magicTCG/comments/p2");
        }
        _ => panic!("expected a duplicate"),
    }
}

#[test]
fn failed_lookup_falls_back_to_unk() {
    let mut f = Fetcher::new("magicTCG", 100, &vec![]);
    let c = f.complete_post_at(&post("q", "Spoiler: Thing"), "Thing", LookupOutcome::Failed, at(1));
    assert_eq!(c.set_code, "UNK");
    assert_eq!(c.confidence, Confidence::Unverified);
}

#[test]
fn found_card_is_verified_and_gains_the_post() {
    let mut f = Fetcher::new("magicTCG", 100, &vec![]);
    let p = post("p1", "[MH3] Lightning Bolt (1R)");
    let c = f.complete_post_at(&p, "Lightning Bolt", LookupOutcome::Found(scryfall_card("Lightning Bolt")), Timestamp { secs: 77, nanos: 123_456_789 });
    assert_eq!(c.id, "scryfall_abc");
    assert_eq!(c.confidence, Confidence::Verified);
    assert_eq!(c.sources.len(), 1);
    assert!(matches!(c.sources[0].platform, Platform::Reddit));
    assert_eq!(c.first_seen, Timestamp { secs: 1_700_000_000, nanos: 7 });
    assert_eq!(c.last_updated, Timestamp { secs: 77, nanos: 123_456_789 });
    // Found by image URL too.
    match f.plan_post(&post("p9", "Totally different")) {
        PostStep::Lookup { .. } => {}
        _ => panic!("expected a lookup"),
    }
    match f.plan_post(&post("p3", "spoiler: lightning-bolt")) {
        PostStep::Duplicate { card_id, .. } => assert_eq!(card_id, "scryfall_abc"),
        _ => panic!("expected a duplicate"),
    }
}

#[test]
fn known_cards_are_duplicates_from_the_start() {
    let known = vec![scryfall_card("Sol Ring")];
    let mut f = Fetcher::new("magicTCG", 250, &known);
    assert_eq!(f.subreddit(), "magicTCG");
    assert_eq!(f.scryfall().rate_limit_ms(), 250);
    match f.plan_post(&post("p1", "Spoiler: Sol Ring")) {
        PostStep::Duplicate { card_id, .. } => assert_eq!(card_id, "scryfall_abc"),
        _ => panic!("expected a duplicate"),
    }
    let c = f.complete_post(&post("p2", "x"), "x", LookupOutcome::NotFound);
    assert!(c.last_updated.secs > 1_600_000_000);
}

#[test]
fn no_post_is_ever_skipped() {
    let f = Fetcher::new("magicTCG", 100, &vec![]);
    for t in ["", "a", "[XX] y (1", "Spoiler:"] {
        assert!(!matches!(f.plan_post(&post("z", t)), PostStep::Skip));
    }
}

#[test]
fn fetcher_accepts_posts_through_its_client() {
    let mut f = Fetcher::new("magicTCG", 100, &vec![]);
    let r = RawRedditPost {
        id: "a".to_string(),
        title: "spoiler: A".to_string(),
        url: None,
        author: "u".to_string(),
        created_utc: at(1),
        upvotes: 1,
        thumbnail: String::new(),
        is_self: true,
        selftext: "body".to_string(),
        flair: None,
    };
    let kept = f.accept_posts(vec![r]);
    assert_eq!(kept.len(), 1);
    assert_eq!(kept[0].selftext, "body");
}

#[test]
fn set_code_from_given_capture() {
    assert_eq!(set_code_from_capture(Some(Some("dsk".to_string()))), Some("DSK".to_string()));
    assert_eq!(set_code_from_capture(Some(None)), None);
    assert_eq!(set_code_from_capture(None), None);
}

#[test]
fn the_same_post_is_a_duplicate_the_second_time() {
    let mut f = Fetcher::new("magicTCG", 100, &vec![]);
    let p = post("p7", "Spoiler: Brand New Card");
    let name = match f.plan_post(&p) {
        PostStep::Lookup { card_name } => card_name,
        _ => panic!("expected a lookup"),
    };
    let c = f.complete_post_at(&p, &name, LookupOutcome::NotFound, at(3));
    match f.plan_post(&p) {
        PostStep::Duplicate { card_id, .. } => assert_eq!(card_id, c.id),
        _ => panic!("expected a duplicate"),
    }
}

#[test]
fn a_cycle_counts_the_new_cards() {
    let mut f = Fetcher::new("magicTCG", 100, &vec![]);
    assert_eq!(f.new_cards(), 0);
    f.complete_post_at(&post("a", "Spoiler: A"), "A", LookupOutcome::NotFound, at(1));
    f.complete_post_at(&post("b", "Spoiler: B"), "B", LookupOutcome::Failed, at(2));
    assert_eq!(f.new_cards(), 2);
    // A duplicate is planned, not counted.
    assert!(matches!(f.plan_post(&post("c", "Spoiler: A")), PostStep::Duplicate { .. }));
    assert_eq!(f.new_cards(), 2);
    f.start_cycle();
    assert_eq!(f.new_cards(), 0);
}

#[test]
fn the_last_card_saved_under_a_name_wins() {
    let mut f = Fetcher::new("magicTCG", 100, &vec![]);
    f.complete_post_at(&post("a", "x"), "Lightning Bolt", LookupOutcome::NotFound, at(1));
    f.complete_post_at(&post("b", "y"), "lightning bolt", LookupOutcome::NotFound, at(2));
    match f.plan_post(&post("c", "Spoiler: LIGHTNING BOLT")) {
        PostStep::Duplicate { card_id, .. } => assert_eq!(card_id, "reddit_b"),
        _ => panic!("expected a duplicate"),
    }
}
