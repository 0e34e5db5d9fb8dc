//! Scryfall: the official card database, and how its answers become cards.
use vstd::prelude::*;

use crate::card::{copy_opt, Card, Confidence, Platform, Source, Timestamp};
use crate::clock::now_timestamp;
use crate::text::{all_ascii, ascii_upper, concat_str, copy_str, upper, to_uppercase};

verus! {

/// Image links of a Scryfall card.
pub struct ScryfallImageUris {
    pub normal: Option<String>,
    pub small: Option<String>,
}

/// The fields of a Scryfall card answer that the tracker uses.
pub struct ScryfallCard {
    pub id: String,
    pub name: String,
    pub set: String,
    pub mana_cost: Option<String>,
    pub type_line: Option<String>,
    pub oracle_text: Option<String>,
    pub power: Option<String>,
    pub toughness: Option<String>,
    pub loyalty: Option<String>,
    pub image_uris: Option<ScryfallImageUris>,
    pub scryfall_uri: String,
}

/// One page of a Scryfall search answer.
pub struct SearchPage {
    pub data: Vec<ScryfallCard>,
    pub has_more: bool,
    pub next_page: Option<String>,
    pub total_cards: Option<u32>,
}

/// The image of a Scryfall card: the normal-size image, else the small one.
pub open spec fn image_of(uris: Option<ScryfallImageUris>) -> Option<String> {
    match uris {
        Some(u) => match u.normal {
            Some(n) => Some(n),
            None => u.small,
        },
        None => None,
    }
}

/// Power and toughness shown as `power/toughness`, when both are known.
pub open spec fn power_toughness_of(power: Option<String>, toughness: Option<String>) -> Option<
    Seq<char>,
> {
    match (power, toughness) {
        (Some(p), Some(t)) => Some(p@ + "/"@ + t@),
        _ => None,
    }
}

/// `c` is the Verified card that Scryfall's answer `sc` describes, seen once
/// on Scryfall (its timestamps are left open).
pub open spec fn card_from_scryfall_spec(c: Card, sc: ScryfallCard) -> bool {
    &&& c.id@ == "scryfall_"@ + sc.id@
    &&& c.name == sc.name
    &&& c.set_code@ == upper(sc.set@)
    &&& c.mana_cost == sc.mana_cost
    &&& c.card_type == sc.type_line
    &&& c.text == sc.oracle_text
    &&& match c.power_toughness {
        Some(pt) => power_toughness_of(sc.power, sc.toughness) == Some(pt@),
        None => power_toughness_of(sc.power, sc.toughness) is None,
    }
    &&& c.loyalty == sc.loyalty
    &&& c.image_url == image_of(sc.image_uris)
    &&& c.confidence == Confidence::Verified
    &&& c.sources@.len() == 1
    &&& c.sources@[0].platform == Platform::Scryfall
    &&& c.sources@[0].url == sc.scryfall_uri
    &&& c.sources@[0].author is Some
    &&& c.sources@[0].author->0@ == "Scryfall"@
    &&& c.sources@[0].raw_title@ == sc.name@ + " ("@ + sc.set@ + ") — official Scryfall listing"@
    &&& c.sources@[0].upvotes is None
    &&& c.sources@[0].authenticity_score == 100
    &&& !c.is_fake
}

/// The Verified card that Scryfall's answer describes, first seen and last
/// updated at `now`, with Scryfall as its one fully trusted source.
pub fn card_from_scryfall(sc: ScryfallCard, now: Timestamp) -> (c: Card)
    ensures
        card_from_scryfall_spec(c, sc),
        c.first_seen == now,
        c.last_updated == now,
        c.sources@[0].posted_at == now,
{
    let image_url = match &sc.image_uris {
        Some(u) => match &u.normal {
            Some(n) => Some(n.clone()),
            None => copy_opt(&u.small),
        },
        None => None,
    };
    let power_toughness = match (&sc.power, &sc.toughness) {
        (Some(p), Some(t)) => {
            let pt = concat_str(p.as_str(), "/");
            Some(concat_str(pt.as_str(), t.as_str()))
        },
        _ => None,
    };
    let t1 = concat_str(sc.name.as_str(), " (");
    let t2 = concat_str(t1.as_str(), sc.set.as_str());
    let raw_title = concat_str(t2.as_str(), ") — official Scryfall listing");
    let source = Source {
        platform: Platform::Scryfall,
        url: sc.scryfall_uri,
        author: Some(copy_str("Scryfall")),
        posted_at: now,
        raw_title,
        upvotes: None,
        authenticity_score: 100,
    };
    let mut sources: Vec<Source> = Vec::new();
    sources.push(source);
    Card {
        id: concat_str("scryfall_", sc.id.as_str()),
        name: sc.name,
        set_code: to_uppercase(sc.set.as_str()),
        mana_cost: sc.mana_cost,
        card_type: sc.type_line,
        text: sc.oracle_text,
        power_toughness,
        loyalty: sc.loyalty,
        image_url,
        confidence: Confidence::Verified,
        sources,
        first_seen: now,
        last_updated: now,
        is_fake: false,
    }
}

/// The Verified card that Scryfall's answer describes, stamped with the
/// current time (first seen, last updated and seen on Scryfall all at once).
pub fn scryfall_to_card(sc: ScryfallCard) -> (c: Card)
    ensures
        card_from_scryfall_spec(c, sc),
        c.last_updated == c.first_seen,
        c.sources@[0].posted_at == c.first_seen,
{
    let now = now_timestamp();
    card_from_scryfall(sc, now)
}

/// How an HTTP answer from Scryfall is treated.
#[derive(Clone, Copy, Debug, PartialEq, Eq, Structural)]
pub enum ResponseKind {
    /// 404: nothing found.
    NotFound,
    /// Any other status outside 200..=299: the request failed.
    Failed,
    /// A 2xx status: the body holds the answer.
    Success,
}

/// The treatment of an HTTP status code.
pub open spec fn response_kind_spec(status: u16) -> ResponseKind {
    if status == 404 {
        ResponseKind::NotFound
    } else if status < 200 || status > 299 {
        ResponseKind::Failed
    } else {
        ResponseKind::Success
    }
}

/// Classifies an HTTP status code from Scryfall.
pub fn classify_status(status: u16) -> (r: ResponseKind)
    ensures
        r == response_kind_spec(status),
{
    if status == 404 {
        ResponseKind::NotFound
    } else if status < 200 || status > 299 {
        ResponseKind::Failed
    } else {
        ResponseKind::Success
    }
}

/// Where to reach Scryfall and how long to wait between requests.
pub struct ScryfallClient {
    api_url: String,
    rate_limit_ms: u64,
}

impl ScryfallClient {
    /// The base URL of the API.
    pub closed spec fn api_url_spec(&self) -> Seq<char> {
        self.api_url@
    }

    /// The pause before each request, in milliseconds.
    pub closed spec fn rate_limit_spec(&self) -> u64 {
        self.rate_limit_ms
    }

    /// The public Scryfall API, with 100 ms between requests.
    pub fn new() -> (r: Self)
        ensures
            r.api_url_spec() == "https://api.scryfall.com"@,
            r.rate_limit_spec() == 100,
    {
        Self::with_config("https://api.scryfall.com", 100)
    }

    /// A client for the given base URL and pause between requests.
    pub fn with_config(api_url: &str, rate_limit_ms: u64) -> (r: Self)
        ensures
            r.api_url_spec() == api_url@,
            r.rate_limit_spec() == rate_limit_ms,
    {
        ScryfallClient { api_url: copy_str(api_url), rate_limit_ms }
    }

    /// The pause before each request, in milliseconds.
    pub fn rate_limit_ms(&self) -> (r: u64)
        ensures
            r == self.rate_limit_spec(),
    {
        self.rate_limit_ms
    }

    /// The URL of the fuzzy name lookup.
    pub fn named_url(&self) -> (r: String)
        ensures
            r@ == self.api_url_spec() + "/cards/named"@,
    {
        concat_str(self.api_url.as_str(), "/cards/named")
    }

    /// The URL of the card search.
    pub fn search_url(&self) -> (r: String)
        ensures
            r@ == self.api_url_spec() + "/cards/search"@,
    {
        concat_str(self.api_url.as_str(), "/cards/search")
    }
}

/// The search query for the previewed cards of a set.
pub fn preview_query(set_code: &str) -> (r: String)
    ensures
        r@ == "s:"@ + set_code@ + " is:preview"@,
{
    let a = concat_str("s:", set_code);
    concat_str(a.as_str(), " is:preview")
}

/// The next request of a preview search.
pub enum SearchRequest {
    /// The first page: the search URL with the query.
    First,
    /// A follow-up page at this URL.
    Page(String),
}

/// A paged search for the previewed cards of a set, driven by the caller:
/// ask `next_request`, perform it, report the status with `on_status` and,
/// when told to, the parsed page with `on_page`, until `is_done`.
pub struct PreviewSearch {
    cards: Vec<Card>,
    next_page: Option<String>,
    done: bool,
}

impl PreviewSearch {
    /// The cards collected so far.
    pub closed spec fn collected(&self) -> Seq<Card> {
        self.cards@
    }

    /// The follow-up page to fetch, if any.
    pub closed spec fn pending_page(&self) -> Option<Seq<char>> {
        match self.next_page {
            Some(u) => Some(u@),
            None => None,
        }
    }

    /// The search has ended.
    pub closed spec fn finished(&self) -> bool {
        self.done
    }

    /// A search that has fetched nothing yet.
    pub fn new() -> (r: Self)
        ensures
            r.collected() == Seq::<Card>::empty(),
            r.pending_page() is None,
            !r.finished(),
    {
        PreviewSearch { cards: Vec::new(), next_page: None, done: false }
    }

    /// Whether the search has ended.
    pub fn is_done(&self) -> (r: bool)
        ensures
            r == self.finished(),
    {
        self.done
    }

    /// The request to perform next: the follow-up page if one is pending,
    /// else the first page.
    pub fn next_request(&self) -> (r: SearchRequest)
        ensures
            match r {
                SearchRequest::First => self.pending_page() is None,
                SearchRequest::Page(u) => self.pending_page() == Some(u@),
            },
    {
        match &self.next_page {
            Some(u) => SearchRequest::Page(u.clone()),
            None => SearchRequest::First,
        }
    }

    /// Reports the HTTP status of the last request; returns whether its body
    /// should be parsed and handed to `on_page`.  A 404 (no previewed cards)
    /// or any other failure ends the search.
    pub fn on_status(&mut self, status: u16) -> (r: bool)
        ensures
            r == (response_kind_spec(status) == ResponseKind::Success),
            final(self).finished() == (old(self).finished() || !r),
            final(self).collected() == old(self).collected(),
            final(self).pending_page() == old(self).pending_page(),
    {
        match classify_status(status) {
            ResponseKind::Success => true,
            _ => {
                self.done = true;
                false
            },
        }
    }

    /// Adds the cards of a parsed page, in order, and follows the page's link
    /// when it says more pages exist; otherwise the search ends.
    pub fn on_page(&mut self, page: SearchPage)
        ensures
            final(self).collected().len() == old(self).collected().len() + page.data@.len(),
            final(self).collected().take(old(self).collected().len() as int)
                == old(self).collected(),
            forall|j: int|
                0 <= j < page.data@.len() ==> card_from_scryfall_spec(
                    #[trigger] final(self).collected()[old(self).collected().len() + j],
                    page.data@[j],
                ),
            page.has_more ==> final(self).pending_page() == match page.next_page {
                Some(u) => Some(u@),
                None => None::<Seq<char>>,
            } && final(self).finished() == old(self).finished(),
            !page.has_more ==> final(self).finished() && final(self).pending_page()
                == old(self).pending_page(),
    {
        let ghost old_cards = self.cards@;
        let ghost data = page.data@;
        let SearchPage { data: mut items, has_more, next_page, total_cards: _ } = page;
        let mut added: Vec<Card> = Vec::new();
        let n = items.len();
        let mut i: usize = 0;
        while i < n
            invariant
                n == data.len(),
                i <= n,
                items@ == data.take(n - i),
                added@.len() == i,
                forall|j: int| 0 <= j < i ==> card_from_scryfall_spec(#[trigger] added@[j], data[n - 1 - j]),
            decreases n - i,
        {
            let sc = items.pop().unwrap();
            assert(sc == data[n - 1 - i]);
            assert(items@ =~= data.take(n - i - 1));
            added.push(scryfall_to_card(sc));
            i = i + 1;
        }
        let mut k: usize = added.len();
        while k > 0
            invariant
                k <= n,
                added@.len() == k,
                self.cards@.len() == old_cards.len() + (n - k),
                self.cards@.take(old_cards.len() as int) == old_cards,
                forall|j: int| 0 <= j < n - k ==> card_from_scryfall_spec(
                    #[trigger] self.cards@[old_cards.len() + j],
                    data[j],
                ),
                forall|j: int| 0 <= j < k ==> card_from_scryfall_spec(#[trigger] added@[j], data[n - 1 - j]),
                self.done == old(self).done,
                self.next_page == old(self).next_page,
            decreases k,
        {
            let ghost prev_added = added@;
            let c = added.pop().unwrap();
            assert(c == prev_added[k - 1]);
            assert(forall|j: int| 0 <= j < k - 1 ==> added@[j] == prev_added[j]);
            let ghost before = self.cards@;
            self.cards.push(c);
            assert(self.cards@.take(old_cards.len() as int) =~= before.take(old_cards.len() as int));
            assert(self.cards@[old_cards.len() + (n - k)] == c);
            k = k - 1;
        }
        if has_more {
            self.next_page = next_page;
        } else {
            self.done = true;
        }
    }

    /// The cards collected, in the order the pages listed them.
    pub fn into_cards(self) -> (r: Vec<Card>)
        ensures
            r@ == self.collected(),
    {
        self.cards
    }
}

/// Status 404 means nothing was found, every 2xx status carries an answer,
/// and every other status is a failed request.
pub proof fn law_status_classes(status: u16)
    ensures
        (response_kind_spec(status) == ResponseKind::NotFound) == (status == 404),
        (response_kind_spec(status) == ResponseKind::Success) == (200 <= status && status <= 299),
        (response_kind_spec(status) == ResponseKind::Failed) == (status != 404 && (status < 200
            || status > 299)),
{
}

/// A card from Scryfall: id `scryfall_` and the Scryfall id, the set code in
/// capitals (letter by letter for ASCII codes), power and toughness as
/// `power/toughness` when both are known, the normal image else the small
/// one, Verified, not fake, with Scryfall as its one fully trusted source.
pub proof fn law_scryfall_card_fields(c: Card, sc: ScryfallCard)
    requires
        card_from_scryfall_spec(c, sc),
    ensures
        c.id@ == "scryfall_"@ + sc.id@,
        all_ascii(sc.set@) ==> c.set_code@ == sc.set@.map_values(|x: char| ascii_upper(x)),
        sc.power matches Some(p) ==> (sc.toughness matches Some(t) ==> (c.power_toughness matches Some(
            pt,
        ) && pt@ == p@ + "/"@ + t@)),
        (sc.power is None || sc.toughness is None) ==> c.power_toughness is None,
        sc.image_uris matches Some(u) ==> c.image_url == (if u.normal is Some {
            u.normal
        } else {
            u.small
        }),
        sc.image_uris is None ==> c.image_url is None,
        c.confidence == Confidence::Verified,
        !c.is_fake,
        c.sources@.len() == 1,
        c.sources@[0].platform == Platform::Scryfall,
        c.sources@[0].authenticity_score == 100,
{
}

} // verus!
