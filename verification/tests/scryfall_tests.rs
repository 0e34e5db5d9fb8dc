use mtg_spoilers::clock::{now_timestamp, timestamp_from_epoch_offset};
use mtg_spoilers::card::Timestamp;
use mtg_spoilers::card::{Confidence, Platform};
use mtg_spoilers::scryfall::{
    card_from_scryfall, classify_status, preview_query, scryfall_to_card, PreviewSearch, ResponseKind,
    ScryfallCard, ScryfallClient, ScryfallImageUris, SearchPage, SearchRequest,
};

fn sc(id: &str, name: &str) -> ScryfallCard {
    ScryfallCard {
        id: id.to_string(),
        name: name.to_string(),
        set: "mh3".to_string(),
        mana_cost: Some("{1}{G}".to_string()),
        type_line: Some("Creature — Elf".to_string()),
        oracle_text: Some("Tap: add G.".to_string()),
        power: Some("2".to_string()),
        toughness: Some("3".to_string()),
        loyalty: None,
        image_uris: Some(ScryfallImageUris { normal: None, small: Some("https://img/small.jpg".to_string()) }),
        scryfall_uri: "https://scryfall.com/card/mh3/1".to_string(),
    }
}

#[test]
fn scryfall_answer_becomes_a_verified_card() {
    let c = card_from_scryfall(sc("abc", "Elf"), Timestamp { secs: 1234, nanos: 5 });
    assert_eq!(c.id, "scryfall_abc");
    assert_eq!(c.name, "Elf");
    assert_eq!(c.set_code, "MH3");
    assert_eq!(c.mana_cost, Some("{1}{G}".to_string()));
    assert_eq!(c.card_type, Some("Creature — Elf".to_string()));
    assert_eq!(c.power_toughness, Some("2/3".to_string()));
    assert_eq!(c.image_url, Some("https://img/small.jpg".to_string()));
    assert_eq!(c.confidence, Confidence::Verified);
    assert_eq!(c.first_seen, Timestamp { secs: 1234, nanos: 5 });
    assert_eq!(c.last_updated, Timestamp { secs: 1234, nanos: 5 });
    assert_eq!(c.sources.len(), 1);
    let s = &c.sources[0];
    assert!(matches!(s.platform, Platform::Scryfall));
    assert_eq!(s.url, "https://scryfall.com/card/mh3/1");
    assert_eq!(s.author, Some("Scryfall".to_string()));
    assert_eq!(s.raw_title, "Elf (mh3) — official Scryfall listing");
    assert_eq!(s.upvotes, None);
    assert_eq!(s.authenticity_score, 100);
    assert!(!c.is_fake);
}

#[test]
fn normal_image_is_preferred_and_partial_stats_are_dropped() {
    let mut a = sc("x", "X");
    a.image_uris = Some(ScryfallImageUris {
        normal: Some("https://img/normal.jpg".to_string()),
        small: Some("https://img/small.jpg".to_string()),
    });
    a.toughness = None;
    let c = card_from_scryfall(a, Timestamp { secs: 0, nanos: 0 });
    assert_eq!(c.image_url, Some("https://img/normal.jpg".to_string()));
    assert_eq!(c.power_toughness, None);
    let mut b = sc("y", "Y");
    b.image_uris = None;
    assert_eq!(card_from_scryfall(b, Timestamp { secs: 0, nanos: 0 }).image_url, None);
}

#[test]
fn scryfall_to_card_stamps_one_time() {
    let c = scryfall_to_card(sc("abc", "Elf"));
    assert_eq!(c.first_seen, c.last_updated);
    assert_eq!(c.sources[0].posted_at, c.first_seen);
    assert!(c.first_seen.secs > 1_600_000_000);
}

#[test]
fn status_codes_are_classified() {
    assert_eq!(classify_status(404), ResponseKind::NotFound);
    assert_eq!(classify_status(500), ResponseKind::Failed);
    assert_eq!(classify_status(199), ResponseKind::Failed);
    assert_eq!(classify_status(300), ResponseKind::Failed);
    assert_eq!(classify_status(200), ResponseKind::Success);
    assert_eq!(classify_status(299), ResponseKind::Success);
}

#[test]
fn client_urls_and_query() {
    let c = ScryfallClient::new();
    assert_eq!(c.named_url(), "https://api.scryfall.com/cards/named");
    assert_eq!(c.search_url(), "https://api.scryfall.com/cards/search");
    assert_eq!(c.rate_limit_ms(), 100);
    let d = ScryfallClient::with_config("http://localhost:8080", 0);
    assert_eq!(d.named_url(), "http://localhost:8080/cards/named");
    assert_eq!(d.rate_limit_ms(), 0);
    assert_eq!(preview_query("DSK"), "s:DSK is:preview");
}

#[test]
fn preview_search_follows_pages_until_the_last() {
    let mut s = PreviewSearch::new();
    assert!(!s.is_done());
    assert!(matches!(s.next_request(), SearchRequest::First));
    assert!(s.on_status(200));
    s.on_page(SearchPage {
        data: vec![sc("1", "One"), sc("2", "Two")],
        has_more: true,
        next_page: Some("https://api/page2".to_string()),
        total_cards: Some(3),
    });
    assert!(!s.is_done());
    match s.next_request() {
        SearchRequest::Page(u) => assert_eq!(u, "https://api/page2"),
        SearchRequest::First => panic!("expected the second page"),
    }
    assert!(s.on_status(200));
    s.on_page(SearchPage { data: vec![sc("3", "Three")], has_more: false, next_page: None, total_cards: Some(3) });
    assert!(s.is_done());
    let cards = s.into_cards();
    let ids: Vec<&str> = cards.iter().map(|c| c.id.as_str()).collect();
    assert_eq!(ids, vec!["scryfall_1", "scryfall_2", "scryfall_3"]);
}

#[test]
fn preview_search_ends_on_404_or_failure() {
    let mut s = PreviewSearch::new();
    assert!(!s.on_status(404));
    assert!(s.is_done());
    assert!(s.into_cards().is_empty());
    let mut t = PreviewSearch::new();
    assert!(!t.on_status(503));
    assert!(t.is_done());
}

#[test]
fn epoch_offsets_become_timestamps() {
    assert_eq!(timestamp_from_epoch_offset(true, 5, 7), Timestamp { secs: 5, nanos: 7 });
    assert_eq!(timestamp_from_epoch_offset(false, 5, 0), Timestamp { secs: -5, nanos: 0 });
    assert_eq!(timestamp_from_epoch_offset(false, 5, 250_000_000), Timestamp { secs: -6, nanos: 750_000_000 });
    assert_eq!(timestamp_from_epoch_offset(true, u64::MAX, 1), Timestamp { secs: i64::MAX, nanos: 1 });
    assert_eq!(timestamp_from_epoch_offset(false, u64::MAX, 1), Timestamp { secs: i64::MIN, nanos: 0 });
    assert_eq!(timestamp_from_epoch_offset(false, 1u64 << 63, 0), Timestamp { secs: i64::MIN, nanos: 0 });
    let now = now_timestamp();
    assert!(now.secs > 1_600_000_000 && now.nanos < 1_000_000_000);
}
