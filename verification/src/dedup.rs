//! Duplicate detection: the same card seen twice, by name or by image URL.
use vstd::prelude::*;

use crate::card::Card;
use crate::index::TextIndex;
use crate::text::{
    all_ascii, ascii_lower, is_ascii_char,
    alphanumeric_only, before_char, keep_alphanumeric, prefix_before, replace_all, replace_spec,
    lower, to_lowercase,
};

verus! {

/// The key under which a card name is indexed: lower-cased, with everything
/// but letters and digits removed.
pub open spec fn normalize_name_spec(name: Seq<char>) -> Seq<char> {
    keep_alphanumeric(lower(name))
}

/// The key under which an image URL is indexed: the query string dropped, the
/// Reddit image hosts folded into `reddit.com`, then lower-cased.
pub open spec fn normalize_url_spec(url: Seq<char>) -> Seq<char> {
    lower(
        replace_spec(
            replace_spec(before_char(url, '?'), "i.redd.it"@, "reddit.com"@),
            "preview.redd.it"@,
            "reddit.com"@,
        ),
    )
}

/// The canonical id that a sighting with this name and image URL duplicates,
/// given the two indexes: a name match wins over a URL match.
pub open spec fn duplicate_of(
    names: Map<Seq<char>, Seq<char>>,
    urls: Map<Seq<char>, Seq<char>>,
    card_name: Seq<char>,
    image_url: Option<Seq<char>>,
) -> Option<Seq<char>> {
    let nk = normalize_name_spec(card_name);
    if names.contains_key(nk) {
        Some(names[nk])
    } else {
        match image_url {
            Some(u) => {
                let uk = normalize_url_spec(u);
                if urls.contains_key(uk) {
                    Some(urls[uk])
                } else {
                    None
                }
            },
            None => None,
        }
    }
}

/// The view of an optional text.
pub open spec fn opt_view(o: Option<String>) -> Option<Seq<char>> {
    match o {
        Some(s) => Some(s@),
        None => None,
    }
}

/// The name index after registering `card`.
pub open spec fn names_after(names: Map<Seq<char>, Seq<char>>, card: Card) -> Map<
    Seq<char>,
    Seq<char>,
> {
    names.insert(normalize_name_spec(card.name@), card.id@)
}

/// The URL index after registering `card`.
pub open spec fn urls_after(urls: Map<Seq<char>, Seq<char>>, card: Card) -> Map<
    Seq<char>,
    Seq<char>,
> {
    match card.image_url {
        Some(u) => urls.insert(normalize_url_spec(u@), card.id@),
        None => urls,
    }
}

/// The name index after registering each of `cards` in order.
pub open spec fn names_after_all(names: Map<Seq<char>, Seq<char>>, cards: Seq<Card>) -> Map<
    Seq<char>,
    Seq<char>,
>
    decreases cards.len(),
{
    if cards.len() == 0 {
        names
    } else {
        names_after(names_after_all(names, cards.drop_last()), cards.last())
    }
}

/// The URL index after registering each of `cards` in order.
pub open spec fn urls_after_all(urls: Map<Seq<char>, Seq<char>>, cards: Seq<Card>) -> Map<
    Seq<char>,
    Seq<char>,
>
    decreases cards.len(),
{
    if cards.len() == 0 {
        urls
    } else {
        urls_after(urls_after_all(urls, cards.drop_last()), cards.last())
    }
}

/// The key under which a card name is indexed (lower-cased, letters and digits only).
pub fn normalize_name(name: &str) -> (r: String)
    ensures
        r@ == normalize_name_spec(name@),
{
    let lower = to_lowercase(name);
    alphanumeric_only(lower.as_str())
}

/// The key under which an image URL is indexed.
pub fn normalize_url(url: &str) -> (r: String)
    ensures
        r@ == normalize_url_spec(url@),
{
    proof {
        reveal_strlit("i.redd.it");
        reveal_strlit("preview.redd.it");
    }
    let base = prefix_before(url, '?');
    let a = replace_all(base.as_str(), "i.redd.it", "reddit.com");
    let b = replace_all(a.as_str(), "preview.redd.it", "reddit.com");
    to_lowercase(b.as_str())
}

/// Remembers which card every name and image URL already belongs to.
pub struct Deduplicator {
    name_index: TextIndex,
    url_index: TextIndex,
}

impl Deduplicator {
    /// Normalized card name -> canonical card id.
    pub closed spec fn names(&self) -> Map<Seq<char>, Seq<char>> {
        self.name_index@
    }

    /// Normalized image URL -> canonical card id.
    pub closed spec fn urls(&self) -> Map<Seq<char>, Seq<char>> {
        self.url_index@
    }

    /// A deduplicator that knows no card.
    pub fn new() -> (r: Self)
        ensures
            r.names() == Map::<Seq<char>, Seq<char>>::empty(),
            r.urls() == Map::<Seq<char>, Seq<char>>::empty(),
    {
        Deduplicator { name_index: TextIndex::new(), url_index: TextIndex::new() }
    }

    /// A deduplicator that knows each of `cards`, registered in order.
    pub fn from_cards(cards: &Vec<Card>) -> (r: Self)
        ensures
            r.names() == names_after_all(Map::empty(), cards@),
            r.urls() == urls_after_all(Map::empty(), cards@),
    {
        let mut d = Deduplicator::new();
        let mut i: usize = 0;
        while i < cards.len()
            invariant
                i <= cards.len(),
                d.names() == names_after_all(Map::empty(), cards@.take(i as int)),
                d.urls() == urls_after_all(Map::empty(), cards@.take(i as int)),
            decreases cards.len() - i,
        {
            assert(cards@.take(i + 1).drop_last() =~= cards@.take(i as int));
            d.register(&cards[i], None);
            i = i + 1;
        }
        assert(cards@.take(cards.len() as int) =~= cards@);
        d
    }

    /// The canonical id of the card that this sighting duplicates, if any:
    /// first by normalized name, then by normalized image URL.  Image contents
    /// are not compared; `_image_data` is accepted and ignored.
    pub fn check_duplicate(
        &self,
        card_name: &str,
        image_url: Option<&str>,
        _image_data: Option<&()>,
    ) -> (r: Option<String>)
        ensures
            opt_view(r) == duplicate_of(
                self.names(),
                self.urls(),
                card_name@,
                match image_url {
                    Some(u) => Some(u@),
                    None => None,
                },
            ),
    {
        let key = normalize_name(card_name);
        if let Some(id) = self.name_index.get(&key) {
            return Some(id);
        }
        if let Some(url) = image_url {
            let canonical = normalize_url(url);
            if let Some(id) = self.url_index.get(&canonical) {
                return Some(id);
            }
        }
        None
    }

    /// Registers `card` under its normalized name and, if it has one, its
    /// normalized image URL.  `_image_data` is accepted and ignored.
    pub fn register(&mut self, card: &Card, _image_data: Option<&()>)
        ensures
            final(self).names() == names_after(old(self).names(), *card),
            final(self).urls() == urls_after(old(self).urls(), *card),
    {
        self.name_index.insert(normalize_name(card.name.as_str()), card.id.clone());
        if let Some(url) = &card.image_url {
            self.url_index.insert(normalize_url(url.as_str()), card.id.clone());
        }
    }
}

/// Once a card is registered, a sighting with a name that normalizes to the
/// same key is reported as a duplicate of that card, whatever its image URL.
pub proof fn law_registered_name_is_duplicate(
    names: Map<Seq<char>, Seq<char>>,
    urls: Map<Seq<char>, Seq<char>>,
    card: Card,
    card_name: Seq<char>,
    image_url: Option<Seq<char>>,
)
    requires
        normalize_name_spec(card_name) == normalize_name_spec(card.name@),
    ensures
        duplicate_of(names_after(names, card), urls_after(urls, card), card_name, image_url)
            == Some(card.id@),
{
}

/// Once a card with an image URL is registered, any sighting whose image URL
/// normalizes to the same key is reported as a duplicate of some card.
pub proof fn law_registered_url_is_duplicate(
    names: Map<Seq<char>, Seq<char>>,
    urls: Map<Seq<char>, Seq<char>>,
    card: Card,
    card_name: Seq<char>,
    url: Seq<char>,
)
    requires
        card.image_url is Some,
        normalize_url_spec(url) == normalize_url_spec(card.image_url->0@),
    ensures
        duplicate_of(names_after(names, card), urls_after(urls, card), card_name, Some(url))
            is Some,
{
}

/// Registering never forgets: whatever was a duplicate before still is one
/// (of the same card, unless the new card took over its key).
pub proof fn law_register_keeps_duplicates(
    names: Map<Seq<char>, Seq<char>>,
    urls: Map<Seq<char>, Seq<char>>,
    card: Card,
    card_name: Seq<char>,
    image_url: Option<Seq<char>>,
)
    requires
        duplicate_of(names, urls, card_name, image_url) is Some,
    ensures
        duplicate_of(names_after(names, card), urls_after(urls, card), card_name, image_url)
            is Some,
{
}


/// The index of the last card in `cards` whose name normalizes to `key`
/// (-1 if there is none).
pub open spec fn last_with_name_key(cards: Seq<Card>, key: Seq<char>) -> int
    decreases cards.len(),
{
    if cards.len() == 0 {
        -1
    } else if normalize_name_spec(cards.last().name@) == key {
        cards.len() - 1
    } else {
        last_with_name_key(cards.drop_last(), key)
    }
}

proof fn lemma_last_registration(names: Map<Seq<char>, Seq<char>>, cards: Seq<Card>, i: int)
    requires
        0 <= i < cards.len(),
    ensures
        i <= last_with_name_key(cards, normalize_name_spec(cards[i].name@)) < cards.len(),
        normalize_name_spec(
            cards[last_with_name_key(cards, normalize_name_spec(cards[i].name@))].name@,
        ) == normalize_name_spec(cards[i].name@),
        names_after_all(names, cards).contains_key(normalize_name_spec(cards[i].name@)),
        names_after_all(names, cards)[normalize_name_spec(cards[i].name@)]
            == cards[last_with_name_key(cards, normalize_name_spec(cards[i].name@))].id@,
    decreases cards.len(),
{
    let k = normalize_name_spec(cards[i].name@);
    if normalize_name_spec(cards.last().name@) != k {
        lemma_last_registration(names, cards.drop_last(), i);
        assert(cards.drop_last()[i] == cards[i]);
        let j = last_with_name_key(cards.drop_last(), k);
        assert(cards.drop_last()[j] == cards[j]);
    }
}

/// After any sequence of registrations, a sighting whose name normalizes like
/// the name of one of the registered cards is a duplicate of the card
/// registered last under that key (whatever its set or image URL).
pub proof fn law_last_registration_wins(
    names: Map<Seq<char>, Seq<char>>,
    urls: Map<Seq<char>, Seq<char>>,
    cards: Seq<Card>,
    i: int,
    card_name: Seq<char>,
    image_url: Option<Seq<char>>,
)
    requires
        0 <= i < cards.len(),
        normalize_name_spec(card_name) == normalize_name_spec(cards[i].name@),
    ensures
        i <= last_with_name_key(cards, normalize_name_spec(card_name)) < cards.len(),
        duplicate_of(names_after_all(names, cards), urls_after_all(urls, cards), card_name, image_url)
            == Some(cards[last_with_name_key(cards, normalize_name_spec(card_name))].id@),
{
    lemma_last_registration(names, cards, i);
}

proof fn lemma_before_char_of_query(u: Seq<char>, q: Seq<char>)
    requires
        !u.contains('?'),
    ensures
        before_char(u + seq!['?'] + q, '?') == u,
    decreases u.len(),
{
    let s = u + seq!['?'] + q;
    if u.len() == 0 {
        assert(s[0] == '?');
    } else {
        assert(s[0] == u[0]);
        assert(!u.drop_first().contains('?')) by {
            if u.drop_first().contains('?') {
                let w = choose|w: int| 0 <= w < u.drop_first().len() && u.drop_first()[w] == '?';
                assert(u[w + 1] == '?');
            }
        }
        lemma_before_char_of_query(u.drop_first(), q);
        assert(s.drop_first() =~= u.drop_first() + seq!['?'] + q);
        assert(seq![u[0]] + u.drop_first() =~= u);
    }
}

/// The query string of an image URL does not matter: a URL with `?` and a
/// query after it is indexed like the part before the `?`.
pub proof fn law_query_string_is_ignored(u: Seq<char>, q: Seq<char>)
    requires
        !u.contains('?'),
    ensures
        normalize_url_spec(u + seq!['?'] + q) == normalize_url_spec(u),
{
    lemma_before_char_of_query(u, q);
    lemma_before_char_of_query(u, Seq::empty());
    assert(before_char(u, '?') == u) by {
        lemma_before_char_plain(u);
    }
}

proof fn lemma_before_char_plain(u: Seq<char>)
    requires
        !u.contains('?'),
    ensures
        before_char(u, '?') == u,
    decreases u.len(),
{
    if u.len() > 0 {
        assert(u[0] != '?');
        assert(!u.drop_first().contains('?')) by {
            if u.drop_first().contains('?') {
                let w = choose|w: int| 0 <= w < u.drop_first().len() && u.drop_first()[w] == '?';
                assert(u[w + 1] == '?');
            }
        }
        lemma_before_char_plain(u.drop_first());
        assert(seq![u[0]] + u.drop_first() =~= u);
    }
}

/// ASCII text without a question mark.
pub open spec fn plain_ascii(s: Seq<char>) -> bool {
    forall|i: int| 0 <= i < s.len() ==> s[i] != '?' && is_ascii_char(#[trigger] s[i])
}

proof fn lemma_before_char_is_plain(s: Seq<char>)
    requires
        all_ascii(s),
    ensures
        plain_ascii(before_char(s, '?')),
    decreases s.len(),
{
    if s.len() > 0 && s[0] != '?' {
        assert(all_ascii(s.drop_first())) by {
            assert forall|i: int| 0 <= i < s.drop_first().len() implies is_ascii_char(
                #[trigger] s.drop_first()[i],
            ) by {
                assert(s.drop_first()[i] == s[i + 1]);
            }
        }
        lemma_before_char_is_plain(s.drop_first());
        let r = seq![s[0]] + before_char(s.drop_first(), '?');
        assert forall|i: int| 0 <= i < r.len() implies r[i] != '?' && is_ascii_char(#[trigger] r[i]) by {
            if i > 0 {
                assert(r[i] == before_char(s.drop_first(), '?')[i - 1]);
            }
        }
    }
}

proof fn lemma_replace_is_plain(s: Seq<char>, p: Seq<char>, r: Seq<char>)
    requires
        plain_ascii(s),
        plain_ascii(r),
    ensures
        plain_ascii(replace_spec(s, p, r)),
    decreases s.len(),
{
    if s.len() == 0 || p.len() == 0 {
    } else if p.len() <= s.len() && s.take(p.len() as int) == p {
        let rest = s.skip(p.len() as int);
        assert(plain_ascii(rest)) by {
            assert forall|i: int| 0 <= i < rest.len() implies rest[i] != '?' && is_ascii_char(
                #[trigger] rest[i],
            ) by {
                assert(rest[i] == s[i + p.len()]);
            }
        }
        lemma_replace_is_plain(rest, p, r);
        let out = r + replace_spec(rest, p, r);
        assert forall|i: int| 0 <= i < out.len() implies out[i] != '?' && is_ascii_char(#[trigger] out[i]) by {
            if i >= r.len() {
                assert(out[i] == replace_spec(rest, p, r)[i - r.len()]);
            }
        }
    } else {
        let rest = s.drop_first();
        assert(plain_ascii(rest)) by {
            assert forall|i: int| 0 <= i < rest.len() implies rest[i] != '?' && is_ascii_char(
                #[trigger] rest[i],
            ) by {
                assert(rest[i] == s[i + 1]);
            }
        }
        lemma_replace_is_plain(rest, p, r);
        let out = seq![s[0]] + replace_spec(rest, p, r);
        assert forall|i: int| 0 <= i < out.len() implies out[i] != '?' && is_ascii_char(#[trigger] out[i]) by {
            if i >= 1 {
                assert(out[i] == replace_spec(rest, p, r)[i - 1]);
            }
        }
    }
}

/// For an ASCII image URL, the index key holds no `?`: the query string is
/// always cut off.  (For other URLs the Unicode lower-casing is only named,
/// so nothing is claimed of it.)
pub proof fn law_normalized_ascii_url_has_no_query_mark(url: Seq<char>)
    requires
        all_ascii(url),
    ensures
        !normalize_url_spec(url).contains('?'),
{
    reveal_strlit("reddit.com");
    let a = before_char(url, '?');
    lemma_before_char_is_plain(url);
    assert(plain_ascii("reddit.com"@));
    let b = replace_spec(a, "i.redd.it"@, "reddit.com"@);
    lemma_replace_is_plain(a, "i.redd.it"@, "reddit.com"@);
    let c = replace_spec(b, "preview.redd.it"@, "reddit.com"@);
    lemma_replace_is_plain(b, "preview.redd.it"@, "reddit.com"@);
    assert(all_ascii(c));
    let l = c.map_values(|x: char| ascii_lower(x));
    assert(normalize_url_spec(url) == l);
    if l.contains('?') {
        let w = choose|w: int| 0 <= w < l.len() && l[w] == '?';
        assert(l[w] == ascii_lower(c[w]));
        assert(c[w] != '?');
    }
}

/// The letters and digits kept from ASCII text without capitals are ASCII
/// without capitals too.
proof fn lemma_kept_have_no_capitals(s: Seq<char>, i: int)
    requires
        forall|j: int| 0 <= j < s.len() ==> is_ascii_char(#[trigger] s[j]) && !('A' <= s[j] && s[j] <= 'Z'),
        0 <= i < keep_alphanumeric(s).len(),
    ensures
        is_ascii_char(keep_alphanumeric(s)[i]),
        !('A' <= keep_alphanumeric(s)[i] && keep_alphanumeric(s)[i] <= 'Z'),
    decreases s.len(),
{
    let t = s.drop_last();
    assert forall|j: int| 0 <= j < t.len() implies is_ascii_char(#[trigger] t[j]) && !('A' <= t[j]
        && t[j] <= 'Z') by {
        assert(t[j] == s[j]);
    }
    if i < keep_alphanumeric(t).len() {
        lemma_kept_have_no_capitals(t, i);
    } else {
        assert(keep_alphanumeric(s)[i] == s.last());
        assert(s.last() == s[s.len() - 1]);
    }
}

/// The index key of an ASCII name holds only lower-case letters and digits:
/// capitals are folded, and spaces, commas, apostrophes and other punctuation
/// are dropped.
pub proof fn law_name_key_is_lower_case_letters_and_digits(name: Seq<char>, i: int)
    requires
        all_ascii(name),
        0 <= i < normalize_name_spec(name).len(),
    ensures
        ('a' <= normalize_name_spec(name)[i] && normalize_name_spec(name)[i] <= 'z') || ('0'
            <= normalize_name_spec(name)[i] && normalize_name_spec(name)[i] <= '9'),
{
    let l = name.map_values(|c: char| ascii_lower(c));
    assert(lower(name) == l);
    assert forall|j: int| 0 <= j < l.len() implies is_ascii_char(#[trigger] l[j]) && !('A' <= l[j]
        && l[j] <= 'Z') by {
        assert(l[j] == ascii_lower(name[j]));
        assert(is_ascii_char(name[j]));
    }
    lemma_kept_have_no_capitals(l, i);
    crate::db::law_set_condition_is_alphanumeric(l, i);
}

/// Names that differ only in ASCII letter case share their index key.
pub proof fn law_name_key_ignores_letter_case(name: Seq<char>)
    requires
        all_ascii(name),
    ensures
        normalize_name_spec(name.map_values(|c: char| crate::text::ascii_upper(c)))
            == normalize_name_spec(name),
{
    let u = name.map_values(|c: char| crate::text::ascii_upper(c));
    assert forall|j: int| 0 <= j < u.len() implies is_ascii_char(#[trigger] u[j]) by {
        assert(u[j] == crate::text::ascii_upper(name[j]));
        assert(is_ascii_char(name[j]));
    }
    assert(all_ascii(u));
    assert(lower(u) =~= lower(name)) by {
        assert forall|j: int| 0 <= j < name.len() implies lower(u)[j] == lower(name)[j] by {
            assert(lower(u)[j] == ascii_lower(u[j]));
            assert(lower(name)[j] == ascii_lower(name[j]));
            assert(u[j] == crate::text::ascii_upper(name[j]));
        }
    }
}

} // verus!
