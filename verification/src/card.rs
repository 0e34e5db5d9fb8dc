//! The card model: what a spoiled card is, where it was seen, and how sure we are of it.
use vstd::prelude::*;

verus! {

/// How sure the tracker is that a card is real.
///
/// A card is `Verified` once Scryfall lists it; everything seen only on
/// community sources stays `Unverified`.
#[derive(Clone, Copy, Debug, PartialEq, Eq, Structural)]
pub enum Confidence {
    Verified,
    Unverified,
}

/// The label a confidence level is shown with.
pub open spec fn confidence_label(c: Confidence) -> Seq<char> {
    match c {
        Confidence::Verified => "⚪ Official"@,
        Confidence::Unverified => "🟡 Rumor"@,
    }
}

/// The name a confidence level is stored under.
pub open spec fn confidence_name(c: Confidence) -> Seq<char> {
    match c {
        Confidence::Verified => "Verified"@,
        Confidence::Unverified => "Unverified"@,
    }
}

impl Confidence {
    /// The label shown in the card list: an Official (Scryfall) card or a Rumor.
    pub fn as_str(&self) -> (r: &'static str)
        ensures
            r@ == confidence_label(*self),
    {
        match self {
            Confidence::Verified => "⚪ Official",
            Confidence::Unverified => "🟡 Rumor",
        }
    }

    /// The name under which the level is stored in the database.
    pub fn storage_name(&self) -> (r: &'static str)
        ensures
            r@ == confidence_name(*self),
    {
        match self {
            Confidence::Verified => "Verified",
            Confidence::Unverified => "Unverified",
        }
    }
}

/// Where a sighting of a card came from.
#[derive(Clone, Copy, Debug, PartialEq, Eq, Structural)]
pub enum Platform {
    Reddit,
    Scryfall,
    WotC,
    MythicSpoiler,
    Unknown,
}

/// The name of a platform, as displayed and as stored.
pub open spec fn platform_name(p: Platform) -> Seq<char> {
    match p {
        Platform::Reddit => "Reddit"@,
        Platform::Scryfall => "Scryfall"@,
        Platform::WotC => "WotC"@,
        Platform::MythicSpoiler => "MythicSpoiler"@,
        Platform::Unknown => "Unknown"@,
    }
}

impl Platform {
    /// The platform's name, as displayed and as stored.
    pub fn as_str(&self) -> (r: &'static str)
        ensures
            r@ == platform_name(*self),
    {
        match self {
            Platform::Reddit => "Reddit",
            Platform::Scryfall => "Scryfall",
            Platform::WotC => "WotC",
            Platform::MythicSpoiler => "MythicSpoiler",
            Platform::Unknown => "Unknown",
        }
    }
}

/// A point in time (UTC): whole seconds since the Unix epoch and the
/// nanoseconds past that second.
#[derive(Clone, Copy, Debug, PartialEq, Eq, Structural)]
pub struct Timestamp {
    pub secs: i64,
    pub nanos: u32,
}

/// One sighting of a card.
///
/// `authenticity_score` is in
/// hundredths: 100 means fully confirmed, 0 means certainly fake.
#[derive(Clone, Debug)]
pub struct Source {
    pub platform: Platform,
    pub url: String,
    pub author: Option<String>,
    pub posted_at: Timestamp,
    pub raw_title: String,
    pub upvotes: Option<i32>,
    pub authenticity_score: u8,
}

/// A spoiled card with everything known about it.
#[derive(Clone, Debug)]
pub struct Card {
    pub id: String,
    pub name: String,
    pub mana_cost: Option<String>,
    pub set_code: String,
    pub card_type: Option<String>,
    pub text: Option<String>,
    pub power_toughness: Option<String>,
    pub loyalty: Option<String>,
    pub image_url: Option<String>,
    pub confidence: Confidence,
    pub sources: Vec<Source>,
    pub first_seen: Timestamp,
    pub last_updated: Timestamp,
    /// Marked fake by the user.
    pub is_fake: bool,
}

/// A copy of an optional text.
pub fn copy_opt(o: &Option<String>) -> (r: Option<String>)
    ensures
        r == *o,
{
    match o {
        Some(s) => Some(s.clone()),
        None => None,
    }
}

} // verus!
