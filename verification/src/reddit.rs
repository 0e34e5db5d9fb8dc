//! Reddit posts: which ones are spoilers, which are new, and what card they name.
use vstd::prelude::*;

use crate::captures::{capture_group, regex_group};
use crate::card::{copy_opt, Platform, Source, Timestamp};
use crate::dedup::opt_view;
use crate::text::{
    chars_of, concat_str, copy_str, contains, contains_seq, lower, occurs_at, to_lowercase, trim,
    trim_end_spec, trim_spec, trim_start_spec, white,
};

verus! {

/// `[SET] Card Name (cost`: group 2 is the card name.
pub open spec fn card_set_pattern() -> Seq<char> {
    "\\[(\\w{2,4})\\]\\s+(.+?)\\s+\\(\\d"@
}

/// `Spoiler: Card Name`: group 1 is the card name.
pub open spec fn spoiler_name_pattern() -> Seq<char> {
    "(?i)spoiler[:\\s]+(.+?)(?:\\s+from|\\s+\\[|$)"@
}

/// The card name given the captures of the two title patterns: the
/// `[SET] Name (cost` capture if that pattern matched (nothing if its name
/// group is missing), else the `Spoiler: Name` capture, trimmed.
pub open spec fn card_name_from_captures_spec(
    set_capture: Option<Option<Seq<char>>>,
    spoiler_capture: Option<Option<Seq<char>>>,
) -> Option<Seq<char>> {
    match set_capture {
        Some(g) => match g {
            Some(name) => Some(trim_spec(name)),
            None => None,
        },
        None => match spoiler_capture {
            Some(Some(name)) => Some(trim_spec(name)),
            _ => None,
        },
    }
}

/// The card name that a post title announces: group 2 of the `[SET] Name (cost`
/// pattern if it matches, else group 1 of the `Spoiler: Name` pattern, trimmed.
pub open spec fn card_name_from_title(title: Seq<char>) -> Option<Seq<char>> {
    card_name_from_captures_spec(
        regex_group(card_set_pattern(), title, 2),
        regex_group(spoiler_name_pattern(), title, 1),
    )
}

/// The card name given the captures of the two title patterns (see
/// `card_name_from_captures_spec`).
pub fn card_name_from_captures(
    set_capture: Option<Option<String>>,
    spoiler_capture: Option<Option<String>>,
) -> (r: Option<String>)
    ensures
        r.deep_view() == card_name_from_captures_spec(set_capture.deep_view(), spoiler_capture.deep_view()),
{
    match set_capture {
        Some(g) => match g {
            Some(name) => Some(trim(name.as_str())),
            None => None,
        },
        None => match spoiler_capture {
            Some(Some(name)) => Some(trim(name.as_str())),
            _ => None,
        },
    }
}

/// The lower-cased title mentions a spoiler, a leak or a reveal.
pub open spec fn title_is_spoiler(title: Seq<char>) -> bool {
    let t = lower(title);
    contains_seq(t, "spoiler"@) || contains_seq(t, "spoilers"@) || contains_seq(t, "leak"@)
        || contains_seq(t, "leaked"@) || contains_seq(t, "revealed"@)
}

/// The lower-cased flair mentions a spoiler or a leak.
pub open spec fn flair_is_spoiler(flair: Option<Seq<char>>) -> bool {
    match flair {
        Some(f) => contains_seq(lower(f), "spoiler"@) || contains_seq(
            lower(f),
            "leak"@,
        ),
        None => false,
    }
}

/// A post counts as a spoiler when its title or its flair says so.
pub open spec fn is_spoiler_spec(title: Seq<char>, flair: Option<Seq<char>>) -> bool {
    title_is_spoiler(title) || flair_is_spoiler(flair)
}

/// Whether a post with this title and flair is a spoiler post.
pub fn is_spoiler_post(title: &str, flair: &Option<String>) -> (r: bool)
    ensures
        r == is_spoiler_spec(title@, opt_view(*flair)),
{
    let lower = to_lowercase(title);
    let t = chars_of(lower.as_str());
    let a = contains(&t, &chars_of("spoiler"));
    let b = contains(&t, &chars_of("spoilers"));
    let c = contains(&t, &chars_of("leak"));
    let d = contains(&t, &chars_of("leaked"));
    let e = contains(&t, &chars_of("revealed"));
    if a || b || c || d || e {
        return true;
    }
    match flair {
        Some(f) => {
            let fl = to_lowercase(f.as_str());
            let fv = chars_of(fl.as_str());
            contains(&fv, &chars_of("spoiler")) || contains(&fv, &chars_of("leak"))
        },
        None => false,
    }
}

/// A post as the Reddit listing delivers it.  `thumbnail` is empty when the
/// post has none.
pub struct RawRedditPost {
    pub id: String,
    pub title: String,
    pub url: Option<String>,
    pub author: String,
    pub created_utc: Timestamp,
    pub upvotes: i64,
    pub thumbnail: String,
    pub is_self: bool,
    pub selftext: String,
    pub flair: Option<String>,
}

/// A spoiler post that the tracker has accepted.
#[derive(Clone, Debug)]
pub struct RedditPost {
    pub id: String,
    pub title: String,
    pub url: String,
    pub author: String,
    pub created_utc: Timestamp,
    pub upvotes: i64,
    pub thumbnail: Option<String>,
    pub is_self: bool,
    pub selftext: String,
    pub flair: Option<String>,
}

/// `post` carries the data of `raw`: a missing URL becomes empty, an empty
/// thumbnail becomes `None`, everything else is kept.
pub open spec fn post_from_raw(post: RedditPost, raw: RawRedditPost) -> bool {
    &&& post.id == raw.id
    &&& post.title == raw.title
    &&& post.url@ == match raw.url {
        Some(u) => u@,
        None => Seq::<char>::empty(),
    }
    &&& post.author == raw.author
    &&& post.created_utc == raw.created_utc
    &&& post.upvotes == raw.upvotes
    &&& post.thumbnail == if raw.thumbnail@.len() == 0 {
        None
    } else {
        Some(raw.thumbnail)
    }
    &&& post.is_self == raw.is_self
    &&& post.selftext == raw.selftext
    &&& post.flair == raw.flair
}

/// The ids already seen and the posts kept, after going through `raw` in order
/// starting from the ids in `seen`: a post is kept when its id has not been
/// seen and it is a spoiler post; its id is then recorded as seen.
pub open spec fn accept_spec(seen: Seq<Seq<char>>, raw: Seq<RawRedditPost>) -> (
    Seq<Seq<char>>,
    Seq<RawRedditPost>,
)
    decreases raw.len(),
{
    if raw.len() == 0 {
        (seen, Seq::empty())
    } else {
        let prev = accept_spec(seen, raw.drop_last());
        let r = raw.last();
        if !prev.0.contains(r.id@) && is_spoiler_spec(r.title@, opt_view(r.flair)) {
            (prev.0.push(r.id@), prev.1.push(r))
        } else {
            prev
        }
    }
}

/// `s` records a sighting of `post` on Reddit with the given score.
pub open spec fn is_reddit_source(s: Source, post: RedditPost, score: u8) -> bool {
    &&& s.platform == Platform::Reddit
    &&& s.url@ == "https://reddit.com"@ + post.url@
    &&& s.author == Some(post.author)
    &&& s.posted_at == post.created_utc
    &&& s.raw_title == post.title
    &&& s.upvotes == Some(post.upvotes as i32)
    &&& s.authenticity_score == score
}

impl RedditPost {
    /// The card name that the title announces, if a title pattern matches.
    pub fn extract_card_name(&self) -> (r: Option<String>)
        ensures
            r.deep_view() == card_name_from_title(self.title@),
    {
        let set_capture = capture_group("\\[(\\w{2,4})\\]\\s+(.+?)\\s+\\(\\d", self.title.as_str(), 2);
        let spoiler_capture = if set_capture.is_some() {
            None
        } else {
            capture_group("(?i)spoiler[:\\s]+(.+?)(?:\\s+from|\\s+\\[|$)", self.title.as_str(), 1)
        };
        card_name_from_captures(set_capture, spoiler_capture)
    }

    /// This post as a Reddit sighting with the given authenticity score
    /// (in hundredths).  The upvote count is truncated to 32 bits.
    pub fn to_source(&self, score: u8) -> (r: Source)
        ensures
            is_reddit_source(r, *self, score),
    {
        Source {
            platform: Platform::Reddit,
            url: concat_str("https://reddit.com", self.url.as_str()),
            author: Some(self.author.clone()),
            posted_at: self.created_utc,
            raw_title: self.title.clone(),
            upvotes: Some(self.upvotes as i32),
            authenticity_score: score,
        }
    }
}

/// The post that `raw` becomes once accepted.
pub fn post_of(raw: &RawRedditPost) -> (r: RedditPost)
    ensures
        post_from_raw(r, *raw),
{
    RedditPost {
        id: raw.id.clone(),
        title: raw.title.clone(),
        url: match &raw.url {
            Some(u) => u.clone(),
            None => String::new(),
        },
        author: raw.author.clone(),
        created_utc: raw.created_utc,
        upvotes: raw.upvotes,
        thumbnail: if raw.thumbnail.as_str().is_empty() {
            None
        } else {
            Some(raw.thumbnail.clone())
        },
        is_self: raw.is_self,
        selftext: raw.selftext.clone(),
        flair: copy_opt(&raw.flair),
    }
}

/// Follows one subreddit and remembers which posts it has already handed out.
pub struct RedditClient {
    subreddit: String,
    seen_ids: Vec<String>,
}

impl RedditClient {
    /// The subreddit followed.
    pub closed spec fn subreddit_name(&self) -> Seq<char> {
        self.subreddit@
    }

    /// The ids of the posts handed out so far, in the order they were first seen.
    pub closed spec fn seen(&self) -> Seq<Seq<char>> {
        self.seen_ids@.map_values(|s: String| s@)
    }

    /// A client for r/magicTCG that has seen nothing.
    pub fn new() -> (r: Self)
        ensures
            r.subreddit_name() == "magicTCG"@,
            r.seen() == Seq::<Seq<char>>::empty(),
    {
        Self::with_subreddit("magicTCG")
    }

    /// A client for the given subreddit that has seen nothing.
    pub fn with_subreddit(subreddit: &str) -> (r: Self)
        ensures
            r.subreddit_name() == subreddit@,
            r.seen() == Seq::<Seq<char>>::empty(),
    {
        let r = RedditClient { subreddit: copy_str(subreddit), seen_ids: Vec::new() };
        assert(r.seen() =~= Seq::<Seq<char>>::empty());
        r
    }

    /// The name of the subreddit followed.
    pub fn subreddit(&self) -> (r: &str)
        ensures
            r@ == self.subreddit_name(),
    {
        self.subreddit.as_str()
    }

    fn has_seen(&self, id: &String) -> (r: bool)
        ensures
            r == self.seen().contains(id@),
    {
        let mut i: usize = 0;
        while i < self.seen_ids.len()
            invariant
                i <= self.seen_ids@.len(),
                forall|j: int| 0 <= j < i ==> self.seen_ids@[j]@ != id@,
            decreases self.seen_ids@.len() - i,
        {
            if self.seen_ids[i] == *id {
                assert(self.seen()[i as int] == id@);
                return true;
            }
            i = i + 1;
        }
        assert forall|j: int| 0 <= j < self.seen().len() implies self.seen()[j] != id@ by {
            assert(self.seen()[j] == self.seen_ids@[j]@);
        }
        false
    }

    /// Goes through a listing in order and keeps the spoiler posts not handed
    /// out before, recording their ids (the filtering step of a fetch).
    pub fn accept_posts(&mut self, raw: Vec<RawRedditPost>) -> (r: Vec<RedditPost>)
        ensures
            final(self).subreddit_name() == old(self).subreddit_name(),
            final(self).seen() == accept_spec(old(self).seen(), raw@).0,
            r.len() == accept_spec(old(self).seen(), raw@).1.len(),
            forall|j: int|
                0 <= j < r.len() ==> post_from_raw(#[trigger] r[j], accept_spec(old(self).seen(), raw@).1[j]),
    {
        let ghost seen0 = self.seen();
        let mut out: Vec<RedditPost> = Vec::new();
        let ghost mut kept: Seq<RawRedditPost> = Seq::empty();
        let mut i: usize = 0;
        while i < raw.len()
            invariant
                i <= raw.len(),
                self.subreddit_name() == old(self).subreddit_name(),
                (self.seen(), kept) == accept_spec(seen0, raw@.take(i as int)),
                out.len() == kept.len(),
                forall|j: int| 0 <= j < out.len() ==> post_from_raw(#[trigger] out[j], kept[j]),
            decreases raw.len() - i,
        {
            assert(raw@.take(i + 1).drop_last() =~= raw@.take(i as int));
            let r = &raw[i];
            if !self.has_seen(&r.id) && is_spoiler_post(r.title.as_str(), &r.flair) {
                let ghost before = self.seen();
                self.seen_ids.push(r.id.clone());
                assert(self.seen() =~= before.push(r.id@));
                out.push(post_of(r));
                proof {
                    kept = kept.push(*r);
                }
            }
            i = i + 1;
        }
        assert(raw@.take(raw.len() as int) =~= raw@);
        out
    }
}

spec fn kept_ok(seen: Seq<Seq<char>>, r: RawRedditPost) -> bool {
    is_spoiler_spec(r.title@, opt_view(r.flair)) && !seen.contains(r.id@)
}

proof fn lemma_accept_monotone(seen: Seq<Seq<char>>, raw: Seq<RawRedditPost>)
    ensures
        forall|x: Seq<char>| seen.contains(x) ==> #[trigger] accept_spec(seen, raw).0.contains(x),
        forall|k: int|
            0 <= k < raw.len() && is_spoiler_spec(raw[k].title@, opt_view(raw[k].flair))
                ==> accept_spec(seen, raw).0.contains(#[trigger] raw[k].id@),
        forall|k: int|
            0 <= k < accept_spec(seen, raw).1.len() ==> kept_ok(seen, #[trigger] accept_spec(seen, raw).1[k]),
    decreases raw.len(),
{
    if raw.len() > 0 {
        let prev = accept_spec(seen, raw.drop_last());
        lemma_accept_monotone(seen, raw.drop_last());
        let r = raw.last();
        if !prev.0.contains(r.id@) && is_spoiler_spec(r.title@, opt_view(r.flair)) {
            assert(prev.0.push(r.id@).contains(r.id@)) by {
                assert(prev.0.push(r.id@)[prev.0.len() as int] == r.id@);
            }
            assert forall|x: Seq<char>| prev.0.contains(x) implies #[trigger] prev.0.push(
                r.id@,
            ).contains(x) by {
                let w = choose|w: int| 0 <= w < prev.0.len() && prev.0[w] == x;
                assert(prev.0.push(r.id@)[w] == x);
            }
            assert forall|k: int|
                0 <= k < raw.len() && is_spoiler_spec(raw[k].title@, opt_view(raw[k].flair))
                implies accept_spec(seen, raw).0.contains(#[trigger] raw[k].id@) by {
                if k < raw.len() - 1 {
                    assert(raw.drop_last()[k] == raw[k]);
                }
            }
            let now = accept_spec(seen, raw);
            assert forall|k: int| 0 <= k < now.1.len() implies kept_ok(seen, #[trigger] now.1[k]) by {
                if k < prev.1.len() {
                    assert(now.1[k] == prev.1[k]);
                } else {
                    assert(now.1[k] == r);
                    if seen.contains(r.id@) {
                        assert(prev.0.contains(r.id@));
                    }
                }
            }
        } else {
            assert forall|k: int|
                0 <= k < raw.len() && is_spoiler_spec(raw[k].title@, opt_view(raw[k].flair))
                implies accept_spec(seen, raw).0.contains(#[trigger] raw[k].id@) by {
                if k < raw.len() - 1 {
                    assert(raw.drop_last()[k] == raw[k]);
                }
            }
            let now = accept_spec(seen, raw);
            assert(now == prev);
            assert forall|k: int| 0 <= k < now.1.len() implies kept_ok(seen, #[trigger] now.1[k]) by {
                assert(now.1[k] == prev.1[k]);
            }
        }
    }
}

proof fn lemma_accept_nothing_new(seen: Seq<Seq<char>>, raw: Seq<RawRedditPost>)
    requires
        forall|k: int|
            0 <= k < raw.len() && is_spoiler_spec(raw[k].title@, opt_view(raw[k].flair))
                ==> seen.contains(#[trigger] raw[k].id@),
    ensures
        accept_spec(seen, raw) == (seen, Seq::<RawRedditPost>::empty()),
    decreases raw.len(),
{
    if raw.len() > 0 {
        assert forall|k: int|
            0 <= k < raw.drop_last().len() && is_spoiler_spec(
                raw.drop_last()[k].title@,
                opt_view(raw.drop_last()[k].flair),
            ) implies seen.contains(#[trigger] raw.drop_last()[k].id@) by {
            assert(raw.drop_last()[k] == raw[k]);
        }
        lemma_accept_nothing_new(seen, raw.drop_last());
        let r = raw.last();
        assert(raw[raw.len() - 1] == r);
    }
}

/// Every post kept is a spoiler post that had not been seen before.
pub proof fn law_accepted_posts_are_new_spoilers(
    seen: Seq<Seq<char>>,
    raw: Seq<RawRedditPost>,
    k: int,
)
    requires
        0 <= k < accept_spec(seen, raw).1.len(),
    ensures
        is_spoiler_spec(
            accept_spec(seen, raw).1[k].title@,
            opt_view(accept_spec(seen, raw).1[k].flair),
        ),
        !seen.contains(accept_spec(seen, raw).1[k].id@),
{
    lemma_accept_monotone(seen, raw);
    assert(kept_ok(seen, accept_spec(seen, raw).1[k]));
}

/// Handing out a listing a second time yields nothing: every spoiler post of
/// the listing was recorded as seen the first time.
pub proof fn law_accept_twice_yields_nothing(seen: Seq<Seq<char>>, raw: Seq<RawRedditPost>)
    ensures
        accept_spec(accept_spec(seen, raw).0, raw) == (
            accept_spec(seen, raw).0,
            Seq::<RawRedditPost>::empty(),
        ),
{
    lemma_accept_monotone(seen, raw);
    lemma_accept_nothing_new(accept_spec(seen, raw).0, raw);
}

/// Ids already seen stay seen.
pub proof fn law_seen_ids_are_kept(seen: Seq<Seq<char>>, raw: Seq<RawRedditPost>, id: Seq<char>)
    requires
        seen.contains(id),
    ensures
        accept_spec(seen, raw).0.contains(id),
{
    lemma_accept_monotone(seen, raw);
}

/// The ids of a list of posts, in order.
pub open spec fn ids_of(posts: Seq<RawRedditPost>) -> Seq<Seq<char>> {
    posts.map_values(|r: RawRedditPost| r.id@)
}

proof fn lemma_accept_records(seen: Seq<Seq<char>>, raw: Seq<RawRedditPost>)
    ensures
        accept_spec(seen, raw).0 == seen + ids_of(accept_spec(seen, raw).1),
        forall|i: int, j: int|
            0 <= i < j < accept_spec(seen, raw).1.len() ==> #[trigger] accept_spec(seen, raw).1[i].id@
                != #[trigger] accept_spec(seen, raw).1[j].id@,
    decreases raw.len(),
{
    if raw.len() == 0 {
        assert(seen + ids_of(Seq::<RawRedditPost>::empty()) =~= seen);
    } else {
        let prev = accept_spec(seen, raw.drop_last());
        lemma_accept_records(seen, raw.drop_last());
        let r = raw.last();
        if !prev.0.contains(r.id@) && is_spoiler_spec(r.title@, opt_view(r.flair)) {
            let now = accept_spec(seen, raw);
            assert(ids_of(prev.1.push(r)) =~= ids_of(prev.1).push(r.id@));
            assert(now.0 =~= seen + ids_of(now.1));
            assert forall|i: int, j: int| 0 <= i < j < now.1.len() implies #[trigger] now.1[i].id@
                != #[trigger] now.1[j].id@ by {
                if j == now.1.len() - 1 {
                    assert(now.1[j] == r);
                    assert(now.1[i] == prev.1[i]);
                    assert(prev.0[seen.len() + i] == prev.1[i].id@);
                } else {
                    assert(now.1[i] == prev.1[i]);
                    assert(now.1[j] == prev.1[j]);
                }
            }
        }
    }
}

/// The ids of the posts kept are recorded as seen, after those seen before
/// and in the order the posts were kept, and no id is kept twice in one call.
pub proof fn law_kept_ids_recorded_and_distinct(seen: Seq<Seq<char>>, raw: Seq<RawRedditPost>)
    ensures
        accept_spec(seen, raw).0 == seen + ids_of(accept_spec(seen, raw).1),
        forall|i: int, j: int|
            0 <= i < j < accept_spec(seen, raw).1.len() ==> #[trigger] accept_spec(seen, raw).1[i].id@
                != #[trigger] accept_spec(seen, raw).1[j].id@,
{
    lemma_accept_records(seen, raw);
}

/// Across two successive calls no post id is kept twice: what the second
/// call keeps was not kept by the first.
pub proof fn law_no_id_kept_in_two_calls(
    seen: Seq<Seq<char>>,
    first: Seq<RawRedditPost>,
    second: Seq<RawRedditPost>,
    i: int,
    j: int,
)
    requires
        0 <= i < accept_spec(seen, first).1.len(),
        0 <= j < accept_spec(accept_spec(seen, first).0, second).1.len(),
    ensures
        accept_spec(seen, first).1[i].id@ != accept_spec(accept_spec(seen, first).0, second).1[j].id@,
{
    let a = accept_spec(seen, first);
    lemma_accept_records(seen, first);
    law_accepted_posts_are_new_spoilers(a.0, second, j);
    assert(a.0[seen.len() + i] == a.1[i].id@);
}

/// The ids seen and all the posts kept, in order, after a series of calls of
/// `RedditClient::accept_posts` with the listings `batches`, starting from the
/// ids in `seen`.
pub open spec fn accept_batches(seen: Seq<Seq<char>>, batches: Seq<Seq<RawRedditPost>>) -> (
    Seq<Seq<char>>,
    Seq<RawRedditPost>,
)
    decreases batches.len(),
{
    if batches.len() == 0 {
        (seen, Seq::empty())
    } else {
        let prev = accept_batches(seen, batches.drop_last());
        let step = accept_spec(prev.0, batches.last());
        (step.0, prev.1 + step.1)
    }
}

proof fn lemma_accept_batches(seen: Seq<Seq<char>>, batches: Seq<Seq<RawRedditPost>>)
    ensures
        accept_batches(seen, batches).0 == seen + ids_of(accept_batches(seen, batches).1),
        forall|i: int, j: int|
            0 <= i < j < accept_batches(seen, batches).1.len() ==> #[trigger] accept_batches(
                seen,
                batches,
            ).1[i].id@ != #[trigger] accept_batches(seen, batches).1[j].id@,
        forall|i: int|
            0 <= i < accept_batches(seen, batches).1.len() ==> !seen.contains(
                #[trigger] accept_batches(seen, batches).1[i].id@,
            ),
    decreases batches.len(),
{
    if batches.len() == 0 {
        assert(seen + ids_of(Seq::<RawRedditPost>::empty()) =~= seen);
    } else {
        let prev = accept_batches(seen, batches.drop_last());
        lemma_accept_batches(seen, batches.drop_last());
        let step = accept_spec(prev.0, batches.last());
        lemma_accept_records(prev.0, batches.last());
        let all = prev.1 + step.1;
        assert(ids_of(all) =~= ids_of(prev.1) + ids_of(step.1));
        assert(step.0 =~= seen + ids_of(all));
        assert forall|i: int, j: int| 0 <= i < j < all.len() implies #[trigger] all[i].id@
            != #[trigger] all[j].id@ by {
            if j < prev.1.len() {
                assert(all[i] == prev.1[i]);
                assert(all[j] == prev.1[j]);
            } else if i >= prev.1.len() {
                assert(all[i] == step.1[i - prev.1.len()]);
                assert(all[j] == step.1[j - prev.1.len()]);
            } else {
                assert(all[i] == prev.1[i]);
                assert(all[j] == step.1[j - prev.1.len()]);
                law_accepted_posts_are_new_spoilers(prev.0, batches.last(), j - prev.1.len());
                assert(prev.0[seen.len() + i] == prev.1[i].id@);
            }
        }
        assert forall|i: int| 0 <= i < all.len() implies !seen.contains(#[trigger] all[i].id@) by {
            if i >= prev.1.len() {
                assert(all[i] == step.1[i - prev.1.len()]);
                law_accepted_posts_are_new_spoilers(prev.0, batches.last(), i - prev.1.len());
                if seen.contains(all[i].id@) {
                    let w = choose|w: int| 0 <= w < seen.len() && seen[w] == all[i].id@;
                    assert(prev.0[w] == seen[w]);
                }
            } else {
                assert(all[i] == prev.1[i]);
            }
        }
    }
}

/// Over any number of calls, no post id is handed out twice: all the posts
/// kept by a series of calls, taken together, have distinct ids, none of them
/// seen before the first call, and they are exactly what is recorded as seen.
pub proof fn law_no_id_kept_twice_over_calls(seen: Seq<Seq<char>>, batches: Seq<Seq<RawRedditPost>>)
    ensures
        accept_batches(seen, batches).0 == seen + ids_of(accept_batches(seen, batches).1),
        forall|i: int, j: int|
            0 <= i < j < accept_batches(seen, batches).1.len() ==> #[trigger] accept_batches(
                seen,
                batches,
            ).1[i].id@ != #[trigger] accept_batches(seen, batches).1[j].id@,
        forall|i: int|
            0 <= i < accept_batches(seen, batches).1.len() ==> !seen.contains(
                #[trigger] accept_batches(seen, batches).1[i].id@,
            ),
{
    lemma_accept_batches(seen, batches);
}

/// The announced name is the whole capture with only the white space at its
/// ends removed (see `law_trim_removes_only_outer_white_space`): that of the
/// `[SET] Name (cost` pattern when it matched, else that of the
/// `Spoiler: Name` pattern.  A capture that neither starts nor ends with white
/// space is the name as it stands, commas and all.
pub proof fn law_name_is_trimmed_capture(name: Seq<char>, other: Option<Option<Seq<char>>>)
    ensures
        card_name_from_captures_spec(Some(Some(name)), other) == Some(trim_spec(name)),
        card_name_from_captures_spec(None, Some(Some(name))) == Some(trim_spec(name)),
        card_name_from_captures_spec(Some(None), other) is None,
        card_name_from_captures_spec(None, Some(None)) is None,
        card_name_from_captures_spec(None, None) is None,
        name.len() > 0 && !white(name[0]) && !white(name.last()) ==> card_name_from_captures_spec(
            Some(Some(name)),
            other,
        ) == Some(name),
        name.len() > 0 && !white(name[0]) && !white(name.last()) ==> card_name_from_captures_spec(
            None,
            Some(Some(name)),
        ) == Some(name),
{
    if name.len() > 0 && !white(name[0]) && !white(name.last()) {
        assert(trim_start_spec(name) == name);
        assert(trim_end_spec(name) == name);
    }
}

/// A text holding a word holds each beginning of that word.
proof fn lemma_contains_prefix(s: Seq<char>, p: Seq<char>, n: int)
    requires
        contains_seq(s, p),
        0 <= n <= p.len(),
    ensures
        contains_seq(s, p.subrange(0, n)),
{
    let i = choose|i: int| occurs_at(s, p, i);
    assert(s.subrange(i, i + n) =~= p.subrange(0, n)) by {
        assert forall|k: int| 0 <= k < n implies s.subrange(i, i + n)[k] == p.subrange(0, n)[k] by {
            assert(s.subrange(i, i + p.len())[k] == p[k]);
        }
    }
    assert(occurs_at(s, p.subrange(0, n), i));
}

/// What makes a post a spoiler: its title mentions, in any letter case, a
/// spoiler, a leak or a reveal, whatever its flair says (or if it has none);
/// or its flair mentions a spoiler or a leak, whatever its title says.
/// Nothing else does.
pub proof fn law_spoiler_words(title: Seq<char>, flair: Option<Seq<char>>)
    ensures
        contains_seq(lower(title), "spoiler"@) ==> is_spoiler_spec(title, flair),
        contains_seq(lower(title), "leak"@) ==> is_spoiler_spec(title, flair),
        contains_seq(lower(title), "revealed"@) ==> is_spoiler_spec(title, flair),
        (flair matches Some(f) && (contains_seq(lower(f), "spoiler"@) || contains_seq(
            lower(f),
            "leak"@,
        ))) ==> is_spoiler_spec(title, flair),
        is_spoiler_spec(title, flair) ==> contains_seq(lower(title), "spoiler"@) || contains_seq(
            lower(title),
            "leak"@,
        ) || contains_seq(lower(title), "revealed"@) || (flair matches Some(f) && (contains_seq(
            lower(f),
            "spoiler"@,
        ) || contains_seq(lower(f), "leak"@))),
{
    reveal_strlit("spoiler");
    reveal_strlit("spoilers");
    reveal_strlit("leak");
    reveal_strlit("leaked");
    assert("spoilers"@.subrange(0, 7) =~= "spoiler"@);
    assert("leaked"@.subrange(0, 4) =~= "leak"@);
    let t = lower(title);
    if contains_seq(t, "spoilers"@) {
        lemma_contains_prefix(t, "spoilers"@, 7);
    }
    if contains_seq(t, "leaked"@) {
        lemma_contains_prefix(t, "leaked"@, 4);
    }
}

} // verus!
