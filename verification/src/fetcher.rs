//! The fetch pipeline's decisions: for each new spoiler post, score it, check
//! it against the cards already known, and turn the Scryfall lookup into a card.
//!
//! The caller performs the network and database work; each step here takes
//! what that work produced and says what to do next.
use vstd::prelude::*;

use crate::captures::{capture_group, regex_group};
use crate::card::{Card, Confidence, Source, Timestamp};
use crate::clock::now_timestamp;
use crate::dedup::{duplicate_of, names_after, normalize_name_spec, opt_view, urls_after, Deduplicator};
use crate::reddit::{card_name_from_title, is_reddit_source, RawRedditPost, RedditClient, RedditPost};
use crate::scryfall::ScryfallClient;
use crate::text::{all_ascii, ascii_upper, concat_str, copy_str, upper, to_uppercase};
use crate::verify::{reddit_score, AuthenticityScorer};

verus! {

/// `[XYZ]`: group 1 is a set code of two to four word characters.
pub open spec fn set_code_pattern() -> Seq<char> {
    "\\[(\\w{2,4})\\]"@
}

/// The set code given the capture of the `[XYZ]` pattern: upper-cased.
pub open spec fn set_code_from_capture_spec(capture: Option<Option<Seq<char>>>) -> Option<Seq<char>> {
    match capture {
        Some(Some(code)) => Some(upper(code)),
        _ => None,
    }
}

/// The upper-cased set code in square brackets in a title, if any.
pub open spec fn set_from_title_spec(title: Seq<char>) -> Option<Seq<char>> {
    set_code_from_capture_spec(regex_group(set_code_pattern(), title, 1))
}

/// The set code given the capture of the `[XYZ]` pattern: upper-cased.
pub fn set_code_from_capture(capture: Option<Option<String>>) -> (r: Option<String>)
    ensures
        opt_view(r) == set_code_from_capture_spec(capture.deep_view()),
{
    match capture {
        Some(Some(code)) => Some(to_uppercase(code.as_str())),
        _ => None,
    }
}

/// The upper-cased set code in square brackets in a title, if any.
pub fn extract_set_from_title(title: &str) -> (r: Option<String>)
    ensures
        opt_view(r) == set_from_title_spec(title@),
{
    set_code_from_capture(capture_group("\\[(\\w{2,4})\\]", title, 1))
}

/// Posts scoring below this many hundredths are dropped.
pub open spec fn min_post_score() -> u8 {
    30
}

/// The card name a post is filed under: the name its title announces, else the whole title.
pub open spec fn post_card_name(post: RedditPost) -> Seq<char> {
    match card_name_from_title(post.title@) {
        Some(n) => n,
        None => post.title@,
    }
}

/// What to do with a new spoiler post.
pub enum PostStep {
    /// The post scored too low to keep.
    Skip,
    /// The post shows a card already known: record it as one more source of that card.
    Duplicate { card_id: String, source: Source },
    /// The post shows a card not known yet: look this name up on Scryfall,
    /// then hand the outcome to `complete_post`.
    Lookup { card_name: String },
}

/// What a Scryfall name lookup gave.
pub enum LookupOutcome {
    /// Scryfall lists the card.
    Found(Card),
    /// Scryfall does not list it (or answered with an error status).
    NotFound,
    /// The lookup could not be made or its answer not read.
    Failed,
}

/// The Unverified card that a post stands for when Scryfall does not confirm it.
pub open spec fn unverified_card_spec(c: Card, post: RedditPost, card_name: Seq<char>, now: Timestamp) -> bool {
    &&& c.id@ == "reddit_"@ + post.id@
    &&& c.name@ == card_name
    &&& c.set_code@ == match set_from_title_spec(post.title@) {
        Some(code) => code,
        None => "UNK"@,
    }
    &&& c.mana_cost is None
    &&& c.card_type is None
    &&& c.text is None
    &&& c.power_toughness is None
    &&& c.loyalty is None
    &&& c.image_url is None
    &&& c.confidence == Confidence::Unverified
    &&& c.sources@.len() == 1
    &&& is_reddit_source(c.sources@[0], post, reddit_score())
    &&& c.first_seen == post.created_utc
    &&& c.last_updated == now
    &&& !c.is_fake
}

/// The Scryfall card `found`, confirmed by `post`: Verified, with the post
/// added as its last source, first seen when the post was made.
pub open spec fn confirmed_card_spec(c: Card, found: Card, post: RedditPost, now: Timestamp) -> bool {
    &&& c.id == found.id
    &&& c.name == found.name
    &&& c.set_code == found.set_code
    &&& c.mana_cost == found.mana_cost
    &&& c.card_type == found.card_type
    &&& c.text == found.text
    &&& c.power_toughness == found.power_toughness
    &&& c.loyalty == found.loyalty
    &&& c.image_url == found.image_url
    &&& c.confidence == Confidence::Verified
    &&& c.sources@.len() == found.sources@.len() + 1
    &&& c.sources@.take(found.sources@.len() as int) == found.sources@
    &&& is_reddit_source(c.sources@.last(), post, reddit_score())
    &&& c.first_seen == post.created_utc
    &&& c.last_updated == now
    &&& c.is_fake == found.is_fake
}

/// The card a post becomes once the lookup of `card_name` gave `outcome`.
pub open spec fn completed_card_spec(
    c: Card,
    post: RedditPost,
    card_name: Seq<char>,
    outcome: LookupOutcome,
    now: Timestamp,
) -> bool {
    match outcome {
        LookupOutcome::Found(found) => confirmed_card_spec(c, found, post, now),
        _ => unverified_card_spec(c, post, card_name, now),
    }
}

/// The pipeline's memory: the Reddit client with the posts it has handed out,
/// the Scryfall endpoint, the index of known cards, and how many new cards the
/// current fetch cycle has produced.
pub struct Fetcher {
    reddit: RedditClient,
    scryfall: ScryfallClient,
    dedup: Deduplicator,
    new_count: usize,
}

impl Fetcher {
    /// Normalized card name -> id of every known card.
    pub closed spec fn names(&self) -> Map<Seq<char>, Seq<char>> {
        self.dedup.names()
    }

    /// Normalized image URL -> id of every known card.
    pub closed spec fn urls(&self) -> Map<Seq<char>, Seq<char>> {
        self.dedup.urls()
    }

    /// The ids of the posts handed out so far.
    pub closed spec fn seen(&self) -> Seq<Seq<char>> {
        self.reddit.seen()
    }

    /// The subreddit followed.
    pub closed spec fn subreddit_name(&self) -> Seq<char> {
        self.reddit.subreddit_name()
    }

    /// The Scryfall endpoint used.
    pub closed spec fn scryfall_spec(&self) -> ScryfallClient {
        self.scryfall
    }

    /// The number of new cards the current fetch cycle has produced.
    pub closed spec fn cycle_count(&self) -> nat {
        self.new_count as nat
    }

    /// A pipeline following `subreddit`, pausing `scryfall_rate_limit_ms`
    /// between Scryfall requests to the public API, and knowing `known_cards`.
    pub fn new(subreddit: &str, scryfall_rate_limit_ms: u64, known_cards: &Vec<Card>) -> (r: Self)
        ensures
            r.subreddit_name() == subreddit@,
            r.seen() == Seq::<Seq<char>>::empty(),
            r.scryfall_spec().api_url_spec() == "https://api.scryfall.com"@,
            r.scryfall_spec().rate_limit_spec() == scryfall_rate_limit_ms,
            r.names() == crate::dedup::names_after_all(Map::empty(), known_cards@),
            r.urls() == crate::dedup::urls_after_all(Map::empty(), known_cards@),
            r.cycle_count() == 0,
    {
        Fetcher {
            reddit: RedditClient::with_subreddit(subreddit),
            scryfall: ScryfallClient::with_config("https://api.scryfall.com", scryfall_rate_limit_ms),
            dedup: Deduplicator::from_cards(known_cards),
            new_count: 0,
        }
    }

    /// Starts a fetch cycle: no new card counted yet.
    pub fn start_cycle(&mut self)
        ensures
            final(self).cycle_count() == 0,
            final(self).names() == old(self).names(),
            final(self).urls() == old(self).urls(),
            final(self).seen() == old(self).seen(),
            final(self).subreddit_name() == old(self).subreddit_name(),
            final(self).scryfall_spec() == old(self).scryfall_spec(),
    {
        self.new_count = 0;
    }

    /// How many new cards the current fetch cycle has produced: the result
    /// of a fetch cycle.
    pub fn new_cards(&self) -> (r: usize)
        ensures
            r == self.cycle_count(),
    {
        self.new_count
    }

    /// The subreddit followed.
    pub fn subreddit(&self) -> (r: &str)
        ensures
            r@ == self.subreddit_name(),
    {
        self.reddit.subreddit()
    }

    /// The Scryfall endpoint used.
    pub fn scryfall(&self) -> (r: &ScryfallClient)
        ensures
            *r == self.scryfall_spec(),
    {
        &self.scryfall
    }

    /// Keeps the spoiler posts of a listing not handed out before (see
    /// `RedditClient::accept_posts`).
    pub fn accept_posts(&mut self, raw: Vec<RawRedditPost>) -> (r: Vec<RedditPost>)
        ensures
            final(self).seen() == crate::reddit::accept_spec(old(self).seen(), raw@).0,
            r.len() == crate::reddit::accept_spec(old(self).seen(), raw@).1.len(),
            forall|j: int|
                0 <= j < r.len() ==> crate::reddit::post_from_raw(
                    #[trigger] r[j],
                    crate::reddit::accept_spec(old(self).seen(), raw@).1[j],
                ),
            final(self).names() == old(self).names(),
            final(self).urls() == old(self).urls(),
            final(self).subreddit_name() == old(self).subreddit_name(),
            final(self).scryfall_spec() == old(self).scryfall_spec(),
            final(self).cycle_count() == old(self).cycle_count(),
    {
        self.reddit.accept_posts(raw)
    }

    /// The first step for a new post: drop it if it scores too low, report it as
    /// a duplicate of a known card (by name, then image URL), or ask for a lookup.
    pub fn plan_post(&self, post: &RedditPost) -> (r: PostStep)
        ensures
            match r {
                PostStep::Skip => reddit_score() < min_post_score(),
                PostStep::Duplicate { card_id, source } => reddit_score() >= min_post_score()
                    && duplicate_of(self.names(), self.urls(), post_card_name(*post), Some(post.url@))
                    == Some(card_id@) && is_reddit_source(source, *post, reddit_score()),
                PostStep::Lookup { card_name } => reddit_score() >= min_post_score()
                    && duplicate_of(self.names(), self.urls(), post_card_name(*post), Some(post.url@))
                    is None && card_name@ == post_card_name(*post),
            },
    {
        let score = AuthenticityScorer::score_reddit(post, &[]);
        if score < 30 {
            return PostStep::Skip;
        }
        let card_name = match post.extract_card_name() {
            Some(n) => n,
            None => post.title.clone(),
        };
        match self.dedup.check_duplicate(card_name.as_str(), Some(post.url.as_str()), None) {
            Some(card_id) => PostStep::Duplicate { card_id, source: post.to_source(score) },
            None => PostStep::Lookup { card_name },
        }
    }

    /// The last step for a post that needed a lookup: the card to save, which
    /// is also registered as known and counted as new in this cycle.  A card Scryfall lists becomes Verified with
    /// the post as one more source; otherwise the post becomes an Unverified
    /// card of its own, in the set its title names (or `UNK`).  `now` is the
    /// time of the update.
    pub fn complete_post_at(
        &mut self,
        post: &RedditPost,
        card_name: &str,
        outcome: LookupOutcome,
        now: Timestamp,
    ) -> (r: Card)
        requires
            old(self).cycle_count() < usize::MAX,
        ensures
            completed_card_spec(r, *post, card_name@, outcome, now),
            final(self).cycle_count() == old(self).cycle_count() + 1,
            final(self).names() == names_after(old(self).names(), r),
            final(self).urls() == urls_after(old(self).urls(), r),
            final(self).seen() == old(self).seen(),
            final(self).subreddit_name() == old(self).subreddit_name(),
            final(self).scryfall_spec() == old(self).scryfall_spec(),
    {
        let score = AuthenticityScorer::score_reddit(post, &[]);
        let card = match outcome {
            LookupOutcome::Found(found) => {
                let ghost f = found;
                let mut c = found;
                c.confidence = Confidence::Verified;
                c.sources.push(post.to_source(score));
                assert(c.sources@.take(f.sources@.len() as int) =~= f.sources@);
                c.first_seen = post.created_utc;
                c.last_updated = now;
                c
            },
            _ => {
                let set_code = match extract_set_from_title(post.title.as_str()) {
                    Some(code) => code,
                    None => copy_str("UNK"),
                };
                let mut sources: Vec<Source> = Vec::new();
                sources.push(post.to_source(score));
                Card {
                    id: concat_str("reddit_", post.id.as_str()),
                    name: copy_str(card_name),
                    mana_cost: None,
                    set_code,
                    card_type: None,
                    text: None,
                    power_toughness: None,
                    loyalty: None,
                    image_url: None,
                    confidence: Confidence::Unverified,
                    sources,
                    first_seen: post.created_utc,
                    last_updated: now,
                    is_fake: false,
                }
            },
        };
        self.dedup.register(&card, None);
        self.new_count = self.new_count + 1;
        card
    }

    /// `complete_post_at` stamped with the current time.
    pub fn complete_post(&mut self, post: &RedditPost, card_name: &str, outcome: LookupOutcome) -> (r: Card)
        requires
            old(self).cycle_count() < usize::MAX,
        ensures
            completed_card_spec(r, *post, card_name@, outcome, r.last_updated),
            final(self).cycle_count() == old(self).cycle_count() + 1,
            final(self).names() == names_after(old(self).names(), r),
            final(self).urls() == urls_after(old(self).urls(), r),
            final(self).seen() == old(self).seen(),
            final(self).subreddit_name() == old(self).subreddit_name(),
            final(self).scryfall_spec() == old(self).scryfall_spec(),
    {
        let now = now_timestamp();
        self.complete_post_at(post, card_name, outcome, now)
    }
}

/// No post is ever dropped for its score: every Reddit post scores one half,
/// above the threshold.
pub proof fn law_no_post_is_skipped()
    ensures
        reddit_score() >= min_post_score(),
{
}

/// Once a post's card has been saved, any later post filed under a name with
/// the same normalized key is reported as a duplicate of that card.
pub proof fn law_saved_card_catches_later_posts(
    names: Map<Seq<char>, Seq<char>>,
    urls: Map<Seq<char>, Seq<char>>,
    saved: Card,
    later: RedditPost,
)
    requires
        normalize_name_spec(post_card_name(later)) == normalize_name_spec(saved.name@),
    ensures
        duplicate_of(
            names_after(names, saved),
            urls_after(urls, saved),
            post_card_name(later),
            Some(later.url@),
        ) == Some(saved.id@),
{
    crate::dedup::law_registered_name_is_duplicate(
        names,
        urls,
        saved,
        post_card_name(later),
        Some(later.url@),
    );
}

/// A post whose own lookup found nothing is caught by its own name afterwards:
/// planning the same post again reports it as a duplicate of the card it became.
pub proof fn law_unverified_post_is_caught_again(
    names: Map<Seq<char>, Seq<char>>,
    urls: Map<Seq<char>, Seq<char>>,
    saved: Card,
    post: RedditPost,
    now: Timestamp,
)
    requires
        unverified_card_spec(saved, post, post_card_name(post), now),
    ensures
        duplicate_of(names_after(names, saved), urls_after(urls, saved), post_card_name(post), Some(post.url@))
            == Some(saved.id@),
{
}

/// Over any number of fetch cycles: once cards have been saved (registered in
/// the order `saved`, as successive `complete_post` calls do), any later post
/// filed under a name that normalizes like one of them is planned as a
/// duplicate of the card saved last under that key, whatever its set: it
/// is recorded as one more source and never looked up or saved again.
pub proof fn law_saved_cards_catch_later_posts(
    names: Map<Seq<char>, Seq<char>>,
    urls: Map<Seq<char>, Seq<char>>,
    saved: Seq<Card>,
    i: int,
    later: RedditPost,
)
    requires
        0 <= i < saved.len(),
        normalize_name_spec(post_card_name(later)) == normalize_name_spec(saved[i].name@),
    ensures
        duplicate_of(
            crate::dedup::names_after_all(names, saved),
            crate::dedup::urls_after_all(urls, saved),
            post_card_name(later),
            Some(later.url@),
        ) == Some(saved[crate::dedup::last_with_name_key(saved, normalize_name_spec(post_card_name(later)))].id@),
{
    crate::dedup::law_last_registration_wins(names, urls, saved, i, post_card_name(later), Some(later.url@));
}

/// The set code taken from a title is the captured code in capitals (letter
/// by letter for ASCII codes); no capture gives no code.
pub proof fn law_set_code_is_capitalised(code: Seq<char>)
    ensures
        all_ascii(code) ==> set_code_from_capture_spec(Some(Some(code))) == Some(
            code.map_values(|c: char| ascii_upper(c)),
        ),
        set_code_from_capture_spec(Some(Some(code))) is Some,
        set_code_from_capture_spec(Some(None)) is None,
        set_code_from_capture_spec(None) is None,
{
}

/// A post that Scryfall did not confirm becomes a card of its own: id
/// `reddit_` and the post id, the name it was looked up under, the set its
/// title names or `UNK`, Unverified, not fake, with the post as its one source
/// and first seen when the post was made.
pub proof fn law_unconfirmed_post_card(
    c: Card,
    post: RedditPost,
    card_name: Seq<char>,
    outcome: LookupOutcome,
    now: Timestamp,
)
    requires
        !(outcome is Found),
        completed_card_spec(c, post, card_name, outcome, now),
    ensures
        c.id@ == "reddit_"@ + post.id@,
        c.name@ == card_name,
        set_from_title_spec(post.title@) is None ==> c.set_code@ == "UNK"@,
        set_from_title_spec(post.title@) matches Some(code) ==> c.set_code@ == code,
        c.confidence == Confidence::Unverified,
        !c.is_fake,
        c.sources@.len() == 1,
        c.sources@[0].platform == crate::card::Platform::Reddit,
        c.first_seen == post.created_utc,
        c.last_updated == now,
{
}

/// A post that Scryfall confirmed makes the Scryfall card Verified, keeps its
/// sources and adds the post as the last one.
pub proof fn law_confirmed_post_card(c: Card, post: RedditPost, card_name: Seq<char>, found: Card, now: Timestamp)
    requires
        completed_card_spec(c, post, card_name, LookupOutcome::Found(found), now),
    ensures
        c.id == found.id,
        c.name == found.name,
        c.confidence == Confidence::Verified,
        c.sources@.len() == found.sources@.len() + 1,
        forall|k: int| 0 <= k < found.sources@.len() ==> c.sources@[k] == found.sources@[k],
        c.sources@.last().platform == crate::card::Platform::Reddit,
        c.first_seen == post.created_utc,
        c.last_updated == now,
{
    assert forall|k: int| 0 <= k < found.sources@.len() implies c.sources@[k] == found.sources@[k] by {
        assert(c.sources@.take(found.sources@.len() as int)[k] == c.sources@[k]);
    }
}

} // verus!
