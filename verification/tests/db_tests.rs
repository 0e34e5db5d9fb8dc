use mtg_spoilers::card::{Confidence, Platform};
use mtg_spoilers::db::{parse_confidence, parse_platform, CardFilter};

const SELECT: &str = "SELECT id, name, mana_cost, set_code, card_type, text,\n                    power_toughness, loyalty, image_url, confidence,\n                    is_fake, first_seen, last_updated FROM cards WHERE 1=1";

#[test]
fn confidence_names_round_trip() {
    for c in [Confidence::Verified, Confidence::Unverified] {
        assert_eq!(parse_confidence(c.storage_name()), c);
    }
    assert_eq!(parse_confidence("verified"), Confidence::Unverified);
    assert_eq!(parse_confidence(""), Confidence::Unverified);
}

#[test]
fn platform_names_round_trip() {
    for p in [Platform::Reddit, Platform::Scryfall, Platform::WotC, Platform::MythicSpoiler, Platform::Unknown] {
        assert_eq!(parse_platform(p.as_str()), p);
    }
    assert_eq!(parse_platform("Twitter"), Platform::Unknown);
}

#[test]
fn labels_for_display() {
    assert_eq!(Confidence::Verified.as_str(), "⚪ Official");
    assert_eq!(Confidence::Unverified.as_str(), "🟡 Rumor");
    assert_eq!(Platform::MythicSpoiler.as_str(), "MythicSpoiler");
}

#[test]
fn query_without_conditions() {
    let f = CardFilter { confidence: None, set_code: None, hide_fake: false, search: None };
    assert_eq!(f.query_text(), format!("{} ORDER BY first_seen DESC", SELECT));
}

#[test]
fn query_with_every_condition() {
    let f = CardFilter {
        confidence: Some(Confidence::Verified),
        set_code: Some("M'H3; DROP TABLE cards".to_string()),
        hide_fake: true,
        search: Some("Gideon's".to_string()),
    };
    let expected = format!(
        "{} AND confidence = 'Verified' AND set_code = 'MH3DROPTABLEcards' AND is_fake = false AND (name LIKE '%Gideon''s%' OR text LIKE '%Gideon''s%' OR set_code LIKE '%Gideon''s%') ORDER BY first_seen DESC",
        SELECT
    );
    assert_eq!(f.query_text(), expected);
}
