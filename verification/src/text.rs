//! Character-level text operations on which the spoiler pipeline is built.
//!
//! Strings are modelled by their views, sequences of `char`.  The Unicode
//! case mappings and character classes come from std; everything built on top
//! of them (substring search, replacement, trimming, filtering) is verified here.
use vstd::prelude::*;

verus! {

// ---------------------------------------------------------------------------
// Plain specifications
// ---------------------------------------------------------------------------

/// A character in the ASCII range.
pub open spec fn is_ascii_char(c: char) -> bool {
    (c as u32) < 128
}

/// Every character of `s` is ASCII.
pub open spec fn all_ascii(s: Seq<char>) -> bool {
    forall|i: int| 0 <= i < s.len() ==> is_ascii_char(#[trigger] s[i])
}

/// ASCII lower-casing of one character; other characters are unchanged.
pub open spec fn ascii_lower(c: char) -> char {
    if 'A' <= c && c <= 'Z' {
        ((c as u32) + 32) as char
    } else {
        c
    }
}

/// ASCII upper-casing of one character; other characters are unchanged.
pub open spec fn ascii_upper(c: char) -> char {
    if 'a' <= c && c <= 'z' {
        ((c as u32) - 32) as char
    } else {
        c
    }
}

/// ASCII letters and digits.
pub open spec fn ascii_alphanumeric(c: char) -> bool {
    ('a' <= c && c <= 'z') || ('A' <= c && c <= 'Z') || ('0' <= c && c <= '9')
}

/// The ASCII characters that Unicode counts as white space.
pub open spec fn ascii_white_space(c: char) -> bool {
    c == ' ' || c == '\t' || c == '\n' || c == '\x0B' || c == '\x0C' || c == '\r'
}

/// The lower-cased text, as `str::to_lowercase` gives it: letter by letter
/// for ASCII text, by the Unicode case mapping otherwise.
pub open spec fn lower(s: Seq<char>) -> Seq<char> {
    if all_ascii(s) {
        s.map_values(|c: char| ascii_lower(c))
    } else {
        str_lowercase(s)
    }
}

/// The upper-cased text, as `str::to_uppercase` gives it.
pub open spec fn upper(s: Seq<char>) -> Seq<char> {
    if all_ascii(s) {
        s.map_values(|c: char| ascii_upper(c))
    } else {
        str_uppercase(s)
    }
}

/// A letter or digit, as `char::is_alphanumeric` decides.
pub open spec fn alnum(c: char) -> bool {
    if is_ascii_char(c) {
        ascii_alphanumeric(c)
    } else {
        char_is_alphanumeric(c)
    }
}

/// White space, as `char::is_whitespace` decides.
pub open spec fn white(c: char) -> bool {
    if is_ascii_char(c) {
        ascii_white_space(c)
    } else {
        char_is_whitespace(c)
    }
}

/// `p` occurs in `s` starting at index `i`.
pub open spec fn occurs_at(s: Seq<char>, p: Seq<char>, i: int) -> bool {
    0 <= i && i + p.len() <= s.len() && s.subrange(i, i + p.len()) == p
}

/// `p` occurs somewhere in `s` (the empty pattern occurs everywhere).
pub open spec fn contains_seq(s: Seq<char>, p: Seq<char>) -> bool {
    exists|i: int| occurs_at(s, p, i)
}

/// Left-to-right, non-overlapping replacement of every occurrence of the
/// non-empty pattern `p` in `s` by `r`.
pub open spec fn replace_spec(s: Seq<char>, p: Seq<char>, r: Seq<char>) -> Seq<char>
    decreases s.len(),
{
    if s.len() == 0 || p.len() == 0 {
        s
    } else if p.len() <= s.len() && s.take(p.len() as int) == p {
        r + replace_spec(s.skip(p.len() as int), p, r)
    } else {
        seq![s[0]] + replace_spec(s.drop_first(), p, r)
    }
}

/// The part of `s` before the first occurrence of `c` (all of `s` if `c` does not occur).
pub open spec fn before_char(s: Seq<char>, c: char) -> Seq<char>
    decreases s.len(),
{
    if s.len() == 0 {
        s
    } else if s[0] == c {
        Seq::empty()
    } else {
        seq![s[0]] + before_char(s.drop_first(), c)
    }
}

/// `s` with its leading white space removed.
pub open spec fn trim_start_spec(s: Seq<char>) -> Seq<char>
    decreases s.len(),
{
    if s.len() > 0 && white(s[0]) {
        trim_start_spec(s.drop_first())
    } else {
        s
    }
}

/// `s` with its trailing white space removed.
pub open spec fn trim_end_spec(s: Seq<char>) -> Seq<char>
    decreases s.len(),
{
    if s.len() > 0 && white(s.last()) {
        trim_end_spec(s.drop_last())
    } else {
        s
    }
}

/// `s` with leading and trailing white space removed.
pub open spec fn trim_spec(s: Seq<char>) -> Seq<char> {
    trim_end_spec(trim_start_spec(s))
}

/// The alphanumeric characters of `s`, in order.
pub open spec fn keep_alphanumeric(s: Seq<char>) -> Seq<char>
    decreases s.len(),
{
    if s.len() == 0 {
        s
    } else if alnum(s.last()) {
        keep_alphanumeric(s.drop_last()).push(s.last())
    } else {
        keep_alphanumeric(s.drop_last())
    }
}

// ---------------------------------------------------------------------------
// What std computes: Unicode case mapping and character classes
// ---------------------------------------------------------------------------

/// What `str::to_lowercase` returns for a string with these characters.
pub uninterp spec fn str_lowercase(s: Seq<char>) -> Seq<char>;

/// What `str::to_uppercase` returns for a string with these characters.
pub uninterp spec fn str_uppercase(s: Seq<char>) -> Seq<char>;

/// What `char::is_alphanumeric` returns.
pub uninterp spec fn char_is_alphanumeric(c: char) -> bool;

/// What `char::is_whitespace` returns.
pub uninterp spec fn char_is_whitespace(c: char) -> bool;

/// Calls `str::to_lowercase`.  The contract names the Unicode result and states
/// it exactly for ASCII strings (each letter mapped to its lower case); for
/// other strings it says no more than the name.
#[verifier::external_body]
pub(crate) fn to_lowercase(s: &str) -> (r: String)
    ensures
        r@ == str_lowercase(s@),
        all_ascii(s@) ==> r@ == s@.map_values(|c: char| ascii_lower(c)),
{
    s.to_lowercase()
}

/// Calls `str::to_uppercase`.  The contract names the Unicode result and states
/// it exactly for ASCII strings; for other strings it says no more than the name.
#[verifier::external_body]
pub(crate) fn to_uppercase(s: &str) -> (r: String)
    ensures
        r@ == str_uppercase(s@),
        all_ascii(s@) ==> r@ == s@.map_values(|c: char| ascii_upper(c)),
{
    s.to_uppercase()
}

/// Calls `char::is_alphanumeric` (Unicode Alphabetic or Numeric); exact on ASCII.
#[verifier::external_body]
pub(crate) fn is_alphanumeric(c: char) -> (r: bool)
    ensures
        r == char_is_alphanumeric(c),
        is_ascii_char(c) ==> (r == ascii_alphanumeric(c)),
{
    c.is_alphanumeric()
}

/// Calls `char::is_whitespace` (Unicode White_Space); exact on ASCII.
#[verifier::external_body]
pub(crate) fn is_whitespace(c: char) -> (r: bool)
    ensures
        r == char_is_whitespace(c),
        is_ascii_char(c) ==> (r == ascii_white_space(c)),
{
    c.is_whitespace()
}

/// Calls `String::push`.
#[verifier::external_body]
pub(crate) fn push_char(s: &mut String, c: char)
    ensures
        final(s)@ == old(s)@.push(c),
{
    s.push(c)
}

/// Calls `String::pop`.
#[verifier::external_body]
pub(crate) fn pop_char(s: &mut String) -> (r: Option<char>)
    ensures
        old(s)@.len() == 0 ==> r is None && final(s)@ == old(s)@,
        old(s)@.len() > 0 ==> r == Some(old(s)@.last()) && final(s)@ == old(s)@.drop_last(),
{
    s.pop()
}

// ---------------------------------------------------------------------------
// Verified operations
// ---------------------------------------------------------------------------

/// The characters of `s`, in order.
pub fn chars_of(s: &str) -> (r: Vec<char>)
    ensures
        r@ == s@,
{
    let mut r: Vec<char> = Vec::new();
    for c in it: s.chars()
        invariant
            r@ == it.seq().take(it.index() as int),
    {
        r.push(c);
    }
    r
}

/// The string whose characters are `v[from..to]`.
pub fn string_of(v: &Vec<char>, from: usize, to: usize) -> (r: String)
    requires
        from <= to <= v.len(),
    ensures
        r@ == v@.subrange(from as int, to as int),
{
    let mut r = String::new();
    let mut i = from;
    while i < to
        invariant
            from <= i <= to <= v.len(),
            r@ == v@.subrange(from as int, i as int),
        decreases to - i,
    {
        push_char(&mut r, v[i]);
        assert(v@.subrange(from as int, i + 1) =~= v@.subrange(from as int, i as int).push(v@[i as int]));
        i = i + 1;
    }
    r
}

/// A copy of `s` (same characters).
pub fn copy_str(s: &str) -> (r: String)
    ensures
        r@ == s@,
{
    let v = chars_of(s);
    let r = string_of(&v, 0, v.len());
    assert(v@.subrange(0, v@.len() as int) =~= v@);
    r
}

/// `a` followed by `b`.
pub fn concat_str(a: &str, b: &str) -> (r: String)
    ensures
        r@ == a@ + b@,
{
    let mut r = copy_str(a);
    append(&mut r, b);
    r
}

/// Appends the characters of `b` to `s`.
pub fn append(s: &mut String, b: &str)
    ensures
        final(s)@ == old(s)@ + b@,
{
    let v = chars_of(b);
    let mut i: usize = 0;
    while i < v.len()
        invariant
            i <= v.len(),
            v@ == b@,
            s@ == old(s)@ + v@.take(i as int),
        decreases v.len() - i,
    {
        push_char(s, v[i]);
        assert(v@.take(i + 1) =~= v@.take(i as int).push(v@[i as int]));
        i = i + 1;
    }
    assert(v@.take(v.len() as int) =~= v@);
}

/// Whether `a` and `b` hold the same characters.
pub fn str_eq(a: &str, b: &str) -> (r: bool)
    ensures
        r == (a@ == b@),
{
    let x = chars_of(a);
    let y = chars_of(b);
    if x.len() != y.len() {
        return false;
    }
    let mut i: usize = 0;
    while i < x.len()
        invariant
            x@ == a@,
            y@ == b@,
            x.len() == y.len(),
            i <= x.len(),
            forall|j: int| 0 <= j < i ==> x@[j] == y@[j],
        decreases x.len() - i,
    {
        if x[i] != y[i] {
            return false;
        }
        i = i + 1;
    }
    assert(x@ =~= y@);
    true
}

/// Whether `p` occurs in `s` at index `i`.
pub fn matches_at(s: &Vec<char>, p: &Vec<char>, i: usize) -> (r: bool)
    ensures
        r == occurs_at(s@, p@, i as int),
{
    if i > s.len() || p.len() > s.len() - i {
        return false;
    }
    let mut k: usize = 0;
    while k < p.len()
        invariant
            i + p.len() <= s.len(),
            k <= p.len(),
            forall|j: int| 0 <= j < k ==> s@[i + j] == p@[j],
        decreases p.len() - k,
    {
        if s[i + k] != p[k] {
            assert(s@.subrange(i as int, i + p.len())[k as int] != p@[k as int]);
            return false;
        }
        k = k + 1;
    }
    assert(s@.subrange(i as int, i + p.len()) =~= p@);
    true
}

/// Whether `p` occurs in `s` (as `str::contains` with a string pattern).
pub fn contains(s: &Vec<char>, p: &Vec<char>) -> (r: bool)
    ensures
        r == contains_seq(s@, p@),
{
    if p.len() > s.len() {
        assert forall|i: int| !occurs_at(s@, p@, i) by {}
        return false;
    }
    if p.len() == 0 {
        assert(s@.subrange(0, 0) =~= p@);
        assert(occurs_at(s@, p@, 0));
        return true;
    }
    let last = s.len() - p.len();
    let mut i: usize = 0;
    while i <= last
        invariant
            last == s.len() - p.len(),
            0 < p.len() <= s.len(),
            i <= last + 1,
            forall|j: int| 0 <= j < i ==> !occurs_at(s@, p@, j),
        decreases last + 1 - i,
    {
        if matches_at(s, p, i) {
            return true;
        }
        i = i + 1;
    }
    assert forall|j: int| !occurs_at(s@, p@, j) by {
        if 0 <= j < i {
        }
    }
    false
}

/// Whether the text of `s` contains the text of `p`.
pub fn str_contains(s: &str, p: &str) -> (r: bool)
    ensures
        r == contains_seq(s@, p@),
{
    let a = chars_of(s);
    let b = chars_of(p);
    contains(&a, &b)
}

proof fn lemma_skip_step(s: Seq<char>, i: int, n: int)
    requires
        0 <= i,
        0 <= n,
        i + n <= s.len(),
    ensures
        s.skip(i).skip(n) == s.skip(i + n),
        s.skip(i).take(n) == s.subrange(i, i + n),
{
    assert(s.skip(i).skip(n) =~= s.skip(i + n));
    assert(s.skip(i).take(n) =~= s.subrange(i, i + n));
}

/// Every occurrence of the non-empty pattern `p` in `s` replaced by `r`, left to
/// right and without overlap (as `str::replace`).
pub fn replace_all(s: &str, p: &str, r: &str) -> (out: String)
    requires
        p@.len() > 0,
    ensures
        out@ == replace_spec(s@, p@, r@),
{
    let sv = chars_of(s);
    let pv = chars_of(p);
    let mut out = String::new();
    let mut i: usize = 0;
    assert(s@.skip(0) =~= s@);
    assert(out@ + replace_spec(s@, p@, r@) =~= replace_spec(s@, p@, r@));
    while i < sv.len()
        invariant
            sv@ == s@,
            pv@ == p@,
            pv@.len() > 0,
            i <= sv.len(),
            replace_spec(s@, p@, r@) == out@ + replace_spec(s@.skip(i as int), p@, r@),
        decreases sv.len() - i,
    {
        let ghost rest = s@.skip(i as int);
        if matches_at(&sv, &pv, i) {
            proof {
                lemma_skip_step(s@, i as int, p@.len() as int);
                assert(rest.take(p@.len() as int) == p@);
            }
            let ghost before = out@;
            append(&mut out, r);
            assert(out@ + replace_spec(s@.skip(i + pv.len()), p@, r@) =~= before + (r@
                + replace_spec(rest.skip(p@.len() as int), p@, r@)));
            i = i + pv.len();
        } else {
            proof {
                if p@.len() <= rest.len() {
                    lemma_skip_step(s@, i as int, p@.len() as int);
                }
                assert(rest.drop_first() =~= s@.skip(i + 1));
                assert(rest[0] == sv@[i as int]);
            }
            let ghost before = out@;
            push_char(&mut out, sv[i]);
            assert(out@ + replace_spec(s@.skip(i + 1), p@, r@) =~= before + (seq![rest[0]]
                + replace_spec(rest.drop_first(), p@, r@)));
            i = i + 1;
        }
    }
    assert(s@.skip(i as int) =~= Seq::<char>::empty());
    assert(out@ + Seq::<char>::empty() =~= out@);
    out
}

/// The part of `s` before the first `c` (as `s.split(c).next()`).
pub fn prefix_before(s: &str, c: char) -> (r: String)
    ensures
        r@ == before_char(s@, c),
{
    let v = chars_of(s);
    let mut i: usize = 0;
    assert(v@.skip(0) =~= v@);
    assert(v@.take(0) + before_char(v@, c) =~= before_char(v@, c));
    while i < v.len() && v[i] != c
        invariant
            v@ == s@,
            i <= v.len(),
            before_char(s@, c) == v@.take(i as int) + before_char(v@.skip(i as int), c),
        decreases v.len() - i,
    {
        let ghost rest = v@.skip(i as int);
        assert(rest.drop_first() =~= v@.skip(i + 1));
        assert(v@.take(i + 1) =~= v@.take(i as int) + seq![rest[0]]);
        assert(v@.take(i as int) + (seq![rest[0]] + before_char(rest.drop_first(), c))
            =~= v@.take(i + 1) + before_char(v@.skip(i + 1), c));
        i = i + 1;
    }
    proof {
        let rest = v@.skip(i as int);
        if i == v.len() {
            assert(rest =~= Seq::<char>::empty());
        }
        assert(before_char(rest, c) =~= Seq::<char>::empty());
        assert(v@.take(i as int) + Seq::<char>::empty() =~= v@.subrange(0, i as int));
    }
    string_of(&v, 0, i)
}

/// `s` with leading and trailing white space removed (as `str::trim`).
pub fn trim(s: &str) -> (r: String)
    ensures
        r@ == trim_spec(s@),
{
    let v = chars_of(s);
    let mut i: usize = 0;
    assert(v@.skip(0) =~= v@);
    while i < v.len() && is_whitespace(v[i])
        invariant
            v@ == s@,
            i <= v.len(),
            trim_start_spec(s@) == trim_start_spec(v@.skip(i as int)),
        decreases v.len() - i,
    {
        assert(v@.skip(i as int).drop_first() =~= v@.skip(i + 1));
        i = i + 1;
    }
    assert(trim_start_spec(v@.skip(i as int)) == v@.skip(i as int));
    assert(v@.skip(i as int) =~= v@.subrange(i as int, v.len() as int));
    let mut j: usize = v.len();
    while j > i && is_whitespace(v[j - 1])
        invariant
            v@ == s@,
            i <= j <= v.len(),
            trim_spec(s@) == trim_end_spec(v@.subrange(i as int, j as int)),
        decreases j - i,
    {
        assert(v@.subrange(i as int, j as int).drop_last() =~= v@.subrange(i as int, j - 1));
        j = j - 1;
    }
    string_of(&v, i, j)
}

/// The alphanumeric characters of `s`, in order.
pub fn alphanumeric_only(s: &str) -> (r: String)
    ensures
        r@ == keep_alphanumeric(s@),
{
    let v = chars_of(s);
    let mut r = String::new();
    let mut i: usize = 0;
    while i < v.len()
        invariant
            v@ == s@,
            i <= v.len(),
            r@ == keep_alphanumeric(v@.take(i as int)),
        decreases v.len() - i,
    {
        assert(v@.take(i + 1).drop_last() =~= v@.take(i as int));
        if is_alphanumeric(v[i]) {
            push_char(&mut r, v[i]);
        }
        i = i + 1;
    }
    assert(v@.take(v.len() as int) =~= v@);
    r
}

/// Where the leading white space of `s` ends.
proof fn lemma_trim_start_index(s: Seq<char>) -> (i: int)
    ensures
        0 <= i <= s.len(),
        trim_start_spec(s) == s.subrange(i, s.len() as int),
        forall|k: int| 0 <= k < i ==> white(#[trigger] s[k]),
        i < s.len() ==> !white(s[i]),
    decreases s.len(),
{
    if s.len() > 0 && white(s[0]) {
        let t = s.drop_first();
        let j = lemma_trim_start_index(t);
        assert(t.subrange(j, t.len() as int) =~= s.subrange(j + 1, s.len() as int));
        assert forall|k: int| 0 <= k < j + 1 implies white(#[trigger] s[k]) by {
            if k > 0 {
                assert(s[k] == t[k - 1]);
            }
        }
        j + 1
    } else {
        assert(s.subrange(0, s.len() as int) =~= s);
        0
    }
}

/// Where the trailing white space of `s` starts.
proof fn lemma_trim_end_index(s: Seq<char>) -> (j: int)
    ensures
        0 <= j <= s.len(),
        trim_end_spec(s) == s.subrange(0, j),
        forall|k: int| j <= k < s.len() ==> white(#[trigger] s[k]),
        j > 0 ==> !white(s[j - 1]),
    decreases s.len(),
{
    if s.len() > 0 && white(s.last()) {
        let t = s.drop_last();
        let j = lemma_trim_end_index(t);
        assert(t.subrange(0, j) =~= s.subrange(0, j));
        assert forall|k: int| j <= k < s.len() implies white(#[trigger] s[k]) by {
            if k < s.len() - 1 {
                assert(s[k] == t[k]);
            }
        }
        j
    } else {
        assert(s.subrange(0, s.len() as int) =~= s);
        s.len() as int
    }
}

/// Trimming removes exactly the white space at both ends: what is left is one
/// stretch of `s`, everything before and after that stretch is white space,
/// and the stretch neither starts nor ends with white space.
pub proof fn law_trim_removes_only_outer_white_space(s: Seq<char>)
    ensures
        exists|i: int, j: int|
            #![trigger s.subrange(i, j)]
            0 <= i <= j <= s.len() && trim_spec(s) == s.subrange(i, j) && (forall|k: int|
                0 <= k < i ==> white(#[trigger] s[k])) && (forall|k: int|
                j <= k < s.len() ==> white(#[trigger] s[k])) && (i < j ==> !white(s[i]) && !white(
                s[j - 1],
            )),
{
    let i = lemma_trim_start_index(s);
    let t = s.subrange(i, s.len() as int);
    let m = lemma_trim_end_index(t);
    let j = i + m;
    assert(t.subrange(0, m) =~= s.subrange(i, j));
    assert forall|k: int| j <= k < s.len() implies white(#[trigger] s[k]) by {
        assert(s[k] == t[k - i]);
    }
    if i < j {
        assert(s[j - 1] == t[m - 1]);
    }
    assert(trim_spec(s) == s.subrange(i, j));
}

} // verus!
