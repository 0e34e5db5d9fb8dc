use mtg_spoilers::card::Timestamp;
use mtg_spoilers::card::{Card, Confidence};
use mtg_spoilers::dedup::{normalize_name, normalize_url, Deduplicator};

fn make_card(id: &str, name: &str, set: &str, image_url: Option<&str>) -> Card {
    Card {
        id: id.to_string(),
        name: name.to_string(),
        set_code: set.to_string(),
        mana_cost: None,
        card_type: None,
        text: None,
        power_toughness: None,
        loyalty: None,
        image_url: image_url.map(|s| s.to_string()),
        confidence: Confidence::Unverified,
        sources: vec![],
        first_seen: Timestamp { secs: 0, nanos: 0 },
        last_updated: Timestamp { secs: 0, nanos: 0 },
        is_fake: false,
    }
}

#[test]
fn reprint_same_name_different_set_is_falsely_deduplicated() {
    let mut dedup = Deduplicator::new();
    let mh3_bolt = make_card("scryfall_mh3_bolt", "Lightning Bolt", "MH3", None);
    dedup.register(&mh3_bolt, None);
    let result = dedup.check_duplicate("Lightning Bolt", None, None);
    assert_eq!(result, Some("scryfall_mh3_bolt".to_string()));
}

#[test]
fn normalize_name_strips_punctuation_and_lowercases() {
    assert_eq!(normalize_name("Gideon's Intervention"), "gideonsintervention");
    assert_eq!(normalize_name("Lightning Bolt"), normalize_name("Lightning  Bolt"));
}

#[test]
fn url_normalization_collapses_redd_it_variants() {
    let url1 = "https://i.redd.it/abc123.png?width=640";
    let url2 = "https://preview.redd.it/abc123.png";
    assert_eq!(normalize_url(url1), normalize_url(url2));
    assert_eq!(normalize_url(url1), "https://reddit.com/abc123.png");
}

#[test]
fn normalize_name_handles_unicode_letters() {
    assert_eq!(normalize_name("Æther Vial"), "æthervial");
    assert_eq!(normalize_name("Jötun Grunt!"), "jötungrunt");
    assert_eq!(normalize_name(""), "");
    assert_eq!(normalize_name("?!- "), "");
}

#[test]
fn normalize_url_lowercases_after_replacing() {
    // The host replacement is case-sensitive and happens before lower-casing.
    assert_eq!(normalize_url("https://I.REDD.IT/X.PNG"), "https://i.redd.it/x.png");
    assert_eq!(normalize_url("no-query"), "no-query");
    assert_eq!(normalize_url("?only=query"), "");
    assert_eq!(normalize_url("a?b?c"), "a");
}

#[test]
fn empty_deduplicator_knows_nothing() {
    let dedup = Deduplicator::new();
    assert_eq!(dedup.check_duplicate("Anything", Some("https://i.redd.it/a.png"), None), None);
}

#[test]
fn url_match_is_found_when_name_differs() {
    let mut dedup = Deduplicator::new();
    dedup.register(&make_card("c1", "Mystery Card", "UNK", Some("https://i.redd.it/img.png?w=1")), None);
    assert_eq!(
        dedup.check_duplicate("Other Name", Some("https://preview.redd.it/img.png"), None),
        Some("c1".to_string())
    );
    assert_eq!(dedup.check_duplicate("Other Name", None, None), None);
    assert_eq!(dedup.check_duplicate("Other Name", Some("https://example.com/img.png"), None), None);
}

#[test]
fn name_match_wins_over_url_match() {
    let mut dedup = Deduplicator::new();
    dedup.register(&make_card("by_url", "First", "UNK", Some("https://x.com/a.png")), None);
    dedup.register(&make_card("by_name", "Second", "UNK", None), None);
    assert_eq!(
        dedup.check_duplicate("second", Some("https://x.com/a.png"), None),
        Some("by_name".to_string())
    );
}

#[test]
fn registering_again_replaces_the_id() {
    let mut dedup = Deduplicator::new();
    dedup.register(&make_card("old", "Sol Ring", "UNK", None), None);
    dedup.register(&make_card("new", "SOL RING", "C21", None), None);
    assert_eq!(dedup.check_duplicate("Sol-Ring", None, Some(&())), Some("new".to_string()));
}

#[test]
fn from_cards_knows_every_card() {
    let cards = vec![
        make_card("a", "Alpha", "A", None),
        make_card("b", "Beta", "B", Some("https://i.redd.it/b.png")),
    ];
    let dedup = Deduplicator::from_cards(&cards);
    assert_eq!(dedup.check_duplicate("alpha", None, None), Some("a".to_string()));
    assert_eq!(dedup.check_duplicate("zzz", Some("https://reddit.com/b.png"), None), Some("b".to_string()));
    assert_eq!(dedup.check_duplicate("gamma", None, None), None);
}

#[test]
fn registering_more_cards_keeps_earlier_duplicates() {
    let mut dedup = Deduplicator::new();
    dedup.register(&make_card("a", "Alpha", "A", Some("https://x.com/a.png")), None);
    dedup.register(&make_card("b", "Beta", "B", Some("https://x.com/b.png")), None);
    dedup.register(&make_card("c", "Gamma", "C", None), None);
    assert_eq!(dedup.check_duplicate("ALPHA", None, None), Some("a".to_string()));
    assert_eq!(dedup.check_duplicate("zzz", Some("https://x.com/a.png"), None), Some("a".to_string()));
}

#[test]
fn query_strings_do_not_matter() {
    let base = "https://i.redd.it/xyz.png";
    assert_eq!(normalize_url(&format!("{}?a=1&b=2", base)), normalize_url(base));
    assert!(!normalize_url("https://EXAMPLE.com/a?b?c").contains('?'));
}
