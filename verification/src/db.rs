//! What the card database stores and how it is queried: the stored names of
//! confidence levels and platforms, and the text of the card listing query.
use vstd::prelude::*;

use crate::card::{confidence_name, platform_name, Confidence, Platform, Timestamp};
use crate::text::{
    alphanumeric_only, append, contains_seq, copy_str, keep_alphanumeric, occurs_at, replace_all,
    replace_spec, str_eq, alnum,
};

verus! {

/// The confidence level a stored name stands for: `Verified`, else `Unverified`.
pub open spec fn parse_confidence_spec(s: Seq<char>) -> Confidence {
    if s == "Verified"@ {
        Confidence::Verified
    } else {
        Confidence::Unverified
    }
}

/// Reads a stored confidence level; anything but `Verified` is `Unverified`.
pub fn parse_confidence(s: &str) -> (r: Confidence)
    ensures
        r == parse_confidence_spec(s@),
{
    if str_eq(s, "Verified") {
        Confidence::Verified
    } else {
        Confidence::Unverified
    }
}

/// The platform a stored name stands for; unknown names give `Unknown`.
pub open spec fn parse_platform_spec(s: Seq<char>) -> Platform {
    if s == "Reddit"@ {
        Platform::Reddit
    } else if s == "Scryfall"@ {
        Platform::Scryfall
    } else if s == "WotC"@ {
        Platform::WotC
    } else if s == "MythicSpoiler"@ {
        Platform::MythicSpoiler
    } else {
        Platform::Unknown
    }
}

/// Reads a stored platform name.
pub fn parse_platform(s: &str) -> (r: Platform)
    ensures
        r == parse_platform_spec(s@),
{
    if str_eq(s, "Reddit") {
        Platform::Reddit
    } else if str_eq(s, "Scryfall") {
        Platform::Scryfall
    } else if str_eq(s, "WotC") {
        Platform::WotC
    } else if str_eq(s, "MythicSpoiler") {
        Platform::MythicSpoiler
    } else {
        Platform::Unknown
    }
}

/// Which cards the list shows.
pub struct CardFilter {
    pub confidence: Option<Confidence>,
    pub set_code: Option<String>,
    pub hide_fake: bool,
    pub search: Option<String>,
}

/// The columns and table of the card listing.
pub open spec fn select_cards_sql() -> Seq<char> {
    "SELECT id, name, mana_cost, set_code, card_type, text,\n                    power_toughness, loyalty, image_url, confidence,\n                    is_fake, first_seen, last_updated FROM cards WHERE 1=1"@
}

/// The condition on the confidence level, if one is asked for.
pub open spec fn confidence_condition(c: Option<Confidence>) -> Seq<char> {
    match c {
        Some(c) => " AND confidence = '"@ + confidence_name(c) + "'"@,
        None => Seq::empty(),
    }
}

/// The condition on the set, if one is asked for: only the letters and digits
/// of the requested code are kept.
pub open spec fn set_condition(set_code: Option<String>) -> Seq<char> {
    match set_code {
        Some(s) => " AND set_code = '"@ + keep_alphanumeric(s@) + "'"@,
        None => Seq::empty(),
    }
}

/// The condition hiding cards marked fake, if asked for.
pub open spec fn fake_condition(hide_fake: bool) -> Seq<char> {
    if hide_fake {
        " AND is_fake = false"@
    } else {
        Seq::empty()
    }
}

/// A search text with each single quote doubled.
pub open spec fn escape_quotes(s: Seq<char>) -> Seq<char> {
    replace_spec(s, "'"@, "''"@)
}

/// The condition on the search text, if any: it must occur in the name, the
/// rules text or the set code.
pub open spec fn search_condition(search: Option<String>) -> Seq<char> {
    match search {
        Some(s) => {
            let e = escape_quotes(s@);
            " AND (name LIKE '%"@ + e + "%' OR text LIKE '%"@ + e + "%' OR set_code LIKE '%"@ + e
                + "%')"@
        },
        None => Seq::empty(),
    }
}

/// The full query listing the cards a filter lets through, newest first.
pub open spec fn card_query_spec(f: CardFilter) -> Seq<char> {
    select_cards_sql() + confidence_condition(f.confidence) + set_condition(f.set_code)
        + fake_condition(f.hide_fake) + search_condition(f.search) + " ORDER BY first_seen DESC"@
}

fn push_confidence_condition(q: &mut String, c: &Option<Confidence>)
    ensures
        final(q)@ == old(q)@ + confidence_condition(*c),
{
    if let Some(conf) = c {
        let ghost q0 = q@;
        append(q, " AND confidence = '");
        append(q, conf.storage_name());
        append(q, "'");
        assert(q@ =~= q0 + confidence_condition(*c));
    } else {
        assert(q@ =~= q@ + confidence_condition(*c));
    }
}

fn push_set_condition(q: &mut String, set_code: &Option<String>)
    ensures
        final(q)@ == old(q)@ + set_condition(*set_code),
{
    if let Some(set) = set_code {
        let ghost q0 = q@;
        let safe_set = alphanumeric_only(set.as_str());
        append(q, " AND set_code = '");
        append(q, safe_set.as_str());
        append(q, "'");
        assert(q@ =~= q0 + set_condition(*set_code));
    } else {
        assert(q@ =~= q@ + set_condition(*set_code));
    }
}

fn push_fake_condition(q: &mut String, hide_fake: bool)
    ensures
        final(q)@ == old(q)@ + fake_condition(hide_fake),
{
    if hide_fake {
        append(q, " AND is_fake = false");
    } else {
        assert(q@ =~= q@ + fake_condition(hide_fake));
    }
}

fn push_search_condition(q: &mut String, search: &Option<String>)
    ensures
        final(q)@ == old(q)@ + search_condition(*search),
{
    if let Some(s) = search {
        proof {
            reveal_strlit("'");
        }
        let ghost q0 = q@;
        let safe = replace_all(s.as_str(), "'", "''");
        append(q, " AND (name LIKE '%");
        append(q, safe.as_str());
        append(q, "%' OR text LIKE '%");
        append(q, safe.as_str());
        append(q, "%' OR set_code LIKE '%");
        append(q, safe.as_str());
        append(q, "%')");
        assert(q@ =~= q0 + search_condition(*search));
    } else {
        assert(q@ =~= q@ + search_condition(*search));
    }
}

impl CardFilter {
    /// The SQL query listing the cards this filter lets through, newest first.
    pub fn query_text(&self) -> (r: String)
        ensures
            r@ == card_query_spec(*self),
    {
        let mut q = copy_str(
            "SELECT id, name, mana_cost, set_code, card_type, text,\n                    power_toughness, loyalty, image_url, confidence,\n                    is_fake, first_seen, last_updated FROM cards WHERE 1=1",
        );
        push_confidence_condition(&mut q, &self.confidence);
        push_set_condition(&mut q, &self.set_code);
        push_fake_condition(&mut q, self.hide_fake);
        push_search_condition(&mut q, &self.search);
        append(&mut q, " ORDER BY first_seen DESC");
        q
    }
}

/// How long a card is kept without an update: seven days, in seconds.
pub open spec fn retention_seconds() -> int {
    604800
}

/// The time before which a card's last update makes it stale and due for
/// purging at startup: seven days before `now` (the earliest representable
/// second if that lies before it).
pub fn stale_before(now: Timestamp) -> (r: Timestamp)
    ensures
        r.secs == if now.secs - retention_seconds() < i64::MIN {
            i64::MIN as int
        } else {
            now.secs - retention_seconds()
        },
        r.nanos == now.nanos,
{
    let secs = if now.secs < i64::MIN + 604800 {
        i64::MIN
    } else {
        now.secs - 604800
    };
    Timestamp { secs, nanos: now.nanos }
}

/// Storing a confidence level and reading it back gives the same level.
pub proof fn law_confidence_round_trip(c: Confidence)
    ensures
        parse_confidence_spec(confidence_name(c)) == c,
{
    reveal_strlit("Verified");
    reveal_strlit("Unverified");
    if c == Confidence::Unverified {
        assert("Unverified"@.len() != "Verified"@.len());
    }
}

/// Storing a platform and reading it back gives the same platform.
pub proof fn law_platform_round_trip(p: Platform)
    ensures
        parse_platform_spec(platform_name(p)) == p,
{
    reveal_strlit("Reddit");
    reveal_strlit("Scryfall");
    reveal_strlit("WotC");
    reveal_strlit("MythicSpoiler");
    reveal_strlit("Unknown");
    assert("Reddit"@[0] != "Scryfall"@[0]);
    assert("Reddit"@[0] != "WotC"@[0]);
    assert("Reddit"@[0] != "MythicSpoiler"@[0]);
    assert("Reddit"@[0] != "Unknown"@[0]);
    assert("Scryfall"@[0] != "WotC"@[0]);
    assert("Scryfall"@[0] != "MythicSpoiler"@[0]);
    assert("Scryfall"@[0] != "Unknown"@[0]);
    assert("WotC"@[0] != "MythicSpoiler"@[0]);
    assert("WotC"@[0] != "Unknown"@[0]);
    assert("MythicSpoiler"@[0] != "Unknown"@[0]);
}

/// The set code in a query holds only letters and digits, whatever was asked
/// for: a quote or other SQL syntax in the requested code never reaches the query.
pub proof fn law_set_condition_is_alphanumeric(s: Seq<char>, i: int)
    requires
        0 <= i < keep_alphanumeric(s).len(),
    ensures
        alnum(keep_alphanumeric(s)[i]),
    decreases s.len(),
{
    if s.len() > 0 {
        let prev = keep_alphanumeric(s.drop_last());
        if i < prev.len() {
            law_set_condition_is_alphanumeric(s.drop_last(), i);
        }
    }
}

/// A filter on a confidence level, whichever level it is, puts the condition
/// `AND confidence = '<stored name of the level>'` in the query, right after
/// the column list; a filter on no level puts no condition there.
pub proof fn law_query_checks_requested_confidence(f: CardFilter, c: Confidence)
    ensures
        confidence_condition(Some(c)) == " AND confidence = '"@ + confidence_name(c) + "'"@,
        confidence_condition(None) == Seq::<char>::empty(),
        f.confidence == Some(c) ==> contains_seq(
            card_query_spec(f),
            " AND confidence = '"@ + confidence_name(c) + "'"@,
        ),
        f.confidence == Some(c) ==> occurs_at(
            card_query_spec(f),
            " AND confidence = '"@ + confidence_name(c) + "'"@,
            select_cards_sql().len() as int,
        ),
{
    let clause = " AND confidence = '"@ + confidence_name(c) + "'"@;
    if f.confidence == Some(c) {
        let q = card_query_spec(f);
        let i = select_cards_sql().len() as int;
        assert(q.subrange(i, i + clause.len()) =~= clause);
        assert(occurs_at(q, clause, i));
    }
}

/// Text that occurs in `a` still occurs there once more text follows, and `b`
/// occurs in `a + b` right after `a`.
proof fn lemma_occurs_in_join(a: Seq<char>, b: Seq<char>, p: Seq<char>, i: int)
    ensures
        occurs_at(a + b, b, a.len() as int),
        occurs_at(a, p, i) ==> occurs_at(a + b, p, i),
{
    assert((a + b).subrange(a.len() as int, (a.len() + b.len()) as int) =~= b);
    if occurs_at(a, p, i) {
        assert((a + b).subrange(i, i + p.len()) =~= a.subrange(i, i + p.len()));
    }
}

/// The other parts of a filter reach the query too: a set code as the
/// condition `AND set_code = '<its letters and digits>'`, hiding fakes as
/// `AND is_fake = false`, a search text (its quotes doubled) as a match on the
/// name, the rules text or the set code; and the query always starts with the
/// column list and ends with the newest-first order.
pub proof fn law_query_holds_each_condition(f: CardFilter)
    ensures
        card_query_spec(f).subrange(0, select_cards_sql().len() as int) == select_cards_sql(),
        card_query_spec(f).subrange(
            card_query_spec(f).len() - " ORDER BY first_seen DESC"@.len(),
            card_query_spec(f).len() as int,
        ) == " ORDER BY first_seen DESC"@,
        f.set_code matches Some(code) ==> contains_seq(
            card_query_spec(f),
            " AND set_code = '"@ + keep_alphanumeric(code@) + "'"@,
        ),
        f.hide_fake ==> contains_seq(card_query_spec(f), " AND is_fake = false"@),
        f.search matches Some(t) ==> contains_seq(
            card_query_spec(f),
            " AND (name LIKE '%"@ + replace_spec(t@, "'"@, "''"@) + "%' OR text LIKE '%"@
                + replace_spec(t@, "'"@, "''"@) + "%' OR set_code LIKE '%"@ + replace_spec(
                t@,
                "'"@,
                "''"@,
            ) + "%')"@,
        ),
{
    let s0 = select_cards_sql();
    let s1 = s0 + confidence_condition(f.confidence);
    let s2 = s1 + set_condition(f.set_code);
    let s3 = s2 + fake_condition(f.hide_fake);
    let s4 = s3 + search_condition(f.search);
    let o = " ORDER BY first_seen DESC"@;
    let q = s4 + o;
    assert(q == card_query_spec(f));
    assert(q.subrange(0, s0.len() as int) =~= s0);
    assert(q.subrange(q.len() - o.len(), q.len() as int) =~= o);
    let t = set_condition(f.set_code);
    lemma_occurs_in_join(s1, t, t, 0);
    lemma_occurs_in_join(s2, fake_condition(f.hide_fake), t, s1.len() as int);
    lemma_occurs_in_join(s3, search_condition(f.search), t, s1.len() as int);
    lemma_occurs_in_join(s4, o, t, s1.len() as int);
    let k = fake_condition(f.hide_fake);
    lemma_occurs_in_join(s2, k, k, 0);
    lemma_occurs_in_join(s3, search_condition(f.search), k, s2.len() as int);
    lemma_occurs_in_join(s4, o, k, s2.len() as int);
    let e = search_condition(f.search);
    lemma_occurs_in_join(s3, e, e, 0);
    lemma_occurs_in_join(s4, o, e, s3.len() as int);
}

} // verus!
