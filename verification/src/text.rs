//! Character-level text utilities with exact specifications.
//!
//! Tool output is handled as a vector of `char`s; sub-strings are handled as
//! index ranges into that vector, so parsing never copies until a value is
//! kept.

use vstd::prelude::*;

verus! {

// ---------------------------------------------------------------------------
// Specifications
// ---------------------------------------------------------------------------

/// Unicode `White_Space` (what `char::is_whitespace` and `str::trim` use).
pub open spec fn is_ws(c: char) -> bool {
    ||| ('\u{9}' <= c && c <= '\u{d}')
    ||| c == ' '
    ||| c == '\u{85}'
    ||| c == '\u{a0}'
    ||| c == '\u{1680}'
    ||| ('\u{2000}' <= c && c <= '\u{200a}')
    ||| c == '\u{2028}'
    ||| c == '\u{2029}'
    ||| c == '\u{202f}'
    ||| c == '\u{205f}'
    ||| c == '\u{3000}'
}

pub open spec fn trim_start(s: Seq<char>) -> Seq<char>
    decreases s.len(),
{
    if s.len() > 0 && is_ws(s[0]) {
        trim_start(s.drop_first())
    } else {
        s
    }
}

pub open spec fn trim_end(s: Seq<char>) -> Seq<char>
    decreases s.len(),
{
    if s.len() > 0 && is_ws(s.last()) {
        trim_end(s.drop_last())
    } else {
        s
    }
}

/// `str::trim`: leading and trailing white space removed.
pub open spec fn trim(s: Seq<char>) -> Seq<char> {
    trim_end(trim_start(s))
}

/// ASCII lower-casing of one character (`char::to_ascii_lowercase`).
pub open spec fn lower(c: char) -> char {
    if 'A' <= c && c <= 'Z' {
        ((c as u32) + 32) as char
    } else {
        c
    }
}

/// ASCII upper-casing of one character (`char::to_ascii_uppercase`).
pub open spec fn upper(c: char) -> char {
    if 'a' <= c && c <= 'z' {
        ((c as u32) - 32) as char
    } else {
        c
    }
}

/// `str::to_ascii_lowercase`.
pub open spec fn lower_seq(s: Seq<char>) -> Seq<char> {
    Seq::new(s.len(), |i: int| lower(s[i]))
}

/// `str::to_ascii_uppercase`.
pub open spec fn upper_seq(s: Seq<char>) -> Seq<char> {
    Seq::new(s.len(), |i: int| upper(s[i]))
}

/// `str::eq_ignore_ascii_case`.
pub open spec fn eq_ignore_case(a: Seq<char>, b: Seq<char>) -> bool {
    lower_seq(a) == lower_seq(b)
}

pub open spec fn occurs_at(s: Seq<char>, pat: Seq<char>, i: int) -> bool {
    0 <= i && i + pat.len() <= s.len() && s.subrange(i, i + pat.len()) == pat
}

/// First occurrence of `pat` in `s` at or after position `i`.
pub open spec fn find_from(s: Seq<char>, pat: Seq<char>, i: int) -> Option<int>
    decreases s.len() - i,
{
    if i < 0 || i + pat.len() > s.len() {
        None
    } else if s.subrange(i, i + pat.len()) == pat {
        Some(i)
    } else if i >= s.len() {
        None
    } else {
        find_from(s, pat, i + 1)
    }
}

/// `str::find` (character positions).
pub open spec fn find(s: Seq<char>, pat: Seq<char>) -> Option<int> {
    find_from(s, pat, 0)
}

/// `str::contains`.
pub open spec fn contains(s: Seq<char>, pat: Seq<char>) -> bool {
    find(s, pat) is Some
}

/// Last occurrence of `c` strictly before position `j`.
pub open spec fn rfind_before(s: Seq<char>, c: char, j: int) -> Option<int>
    decreases j,
{
    if j <= 0 || j > s.len() {
        None
    } else if s[j - 1] == c {
        Some(j - 1)
    } else {
        rfind_before(s, c, j - 1)
    }
}

/// `str::rfind` of a character.
pub open spec fn rfind(s: Seq<char>, c: char) -> Option<int> {
    rfind_before(s, c, s.len() as int)
}

/// `str::starts_with`.
pub open spec fn starts_with(s: Seq<char>, p: Seq<char>) -> bool {
    p.len() <= s.len() && s.subrange(0, p.len() as int) == p
}

/// `str::ends_with`.
pub open spec fn ends_with(s: Seq<char>, p: Seq<char>) -> bool {
    p.len() <= s.len() && s.subrange(s.len() - p.len(), s.len() as int) == p
}

/// `str::split` with a non-empty separator.
pub open spec fn split(s: Seq<char>, sep: Seq<char>) -> Seq<Seq<char>>
    decreases s.len(),
{
    if sep.len() == 0 {
        seq![s]
    } else {
        match find(s, sep) {
            None => seq![s],
            Some(i) => {
                proof {
                    lemma_find_from_bounds(s, sep, 0);
                }
                seq![s.subrange(0, i)] + split(s.subrange(i + sep.len(), s.len() as int), sep)
            },
        }
    }
}

/// Everything before the first occurrence of `sep` (`split(sep).next()`).
pub open spec fn before(s: Seq<char>, sep: Seq<char>) -> Seq<char> {
    match find(s, sep) {
        None => s,
        Some(i) => s.subrange(0, i),
    }
}

/// Drops one trailing carriage return.
pub open spec fn strip_cr(s: Seq<char>) -> Seq<char> {
    if s.len() > 0 && s.last() == '\r' {
        s.drop_last()
    } else {
        s
    }
}

/// `str::lines`: split at `\n` (a `\r` right before it is dropped too); a
/// final line ending is optional and produces no extra empty line.
pub open spec fn lines(s: Seq<char>) -> Seq<Seq<char>>
    decreases s.len(),
{
    match find(s, seq!['\n']) {
        None => if s.len() == 0 { seq![] } else { seq![s] },
        Some(i) => {
            proof {
                lemma_find_from_bounds(s, seq!['\n'], 0);
            }
            seq![strip_cr(s.subrange(0, i))] + lines(s.subrange(i + 1, s.len() as int))
        },
    }
}

/// Length of the run of non-white-space characters at the start of `s`.
pub open spec fn word_len(s: Seq<char>) -> nat
    decreases s.len(),
{
    if s.len() == 0 || is_ws(s[0]) {
        0
    } else {
        1 + word_len(s.drop_first())
    }
}

/// `str::split_whitespace`.
pub open spec fn words(s: Seq<char>) -> Seq<Seq<char>>
    decreases s.len(),
{
    if s.len() == 0 {
        seq![]
    } else if is_ws(s[0]) {
        words(s.drop_first())
    } else {
        let n = word_len(s);
        proof {
            lemma_word_len(s);
        }
        seq![s.subrange(0, n as int)] + words(s.subrange(n as int, s.len() as int))
    }
}

pub open spec fn is_digit(c: char) -> bool {
    '0' <= c && c <= '9'
}

pub open spec fn digit_val(c: char) -> nat {
    ((c as u32) - ('0' as u32)) as nat
}

pub open spec fn all_digits(s: Seq<char>) -> bool {
    forall|i: int| 0 <= i < s.len() ==> is_digit(#[trigger] s[i])
}

/// Decimal value of a digit string.
pub open spec fn digits_val(s: Seq<char>) -> nat
    decreases s.len(),
{
    if s.len() == 0 {
        0
    } else {
        digits_val(s.drop_last()) * 10 + digit_val(s.last())
    }
}

/// `str::parse` for an unsigned integer type bounded by `max`: an optional
/// `+`, then one or more ASCII digits, whose value must not exceed `max`.
pub open spec fn parse_uint(s: Seq<char>, max: nat) -> Option<nat> {
    let d = if s.len() > 0 && s[0] == '+' { s.drop_first() } else { s };
    if d.len() > 0 && all_digits(d) && digits_val(d) <= max {
        Some(digits_val(d))
    } else {
        None
    }
}

/// Decimal rendering of a natural number (`Display` for unsigned integers).
pub open spec fn decimal(n: nat) -> Seq<char>
    decreases n,
{
    if n < 10 {
        seq![digit_char(n)]
    } else {
        decimal(n / 10).push(digit_char(n % 10))
    }
}

pub open spec fn digit_char(d: nat) -> char {
    (('0' as u32) + d) as char
}

pub proof fn lemma_find_from_bounds(s: Seq<char>, pat: Seq<char>, i: int)
    requires
        0 <= i,
    ensures
        find_from(s, pat, i) matches Some(j) ==> {
            &&& i <= j
            &&& j + pat.len() <= s.len()
            &&& 0 <= j
            &&& s.subrange(j, j + pat.len()) == pat
        },
        find_from(s, pat, i) is None && pat.len() > 0 ==> forall|j: int| i <= j ==> !occurs_at(s, pat, j),
        find_from(s, pat, i) matches Some(j) ==> forall|k: int| i <= k < j ==> !occurs_at(s, pat, k),
    decreases s.len() - i,
{
    if i + pat.len() > s.len() {
    } else if s.subrange(i, i + pat.len()) == pat {
    } else if i >= s.len() {
    } else {
        lemma_find_from_bounds(s, pat, i + 1);
    }
}

pub proof fn lemma_word_len(s: Seq<char>)
    ensures
        word_len(s) <= s.len(),
        s.len() > 0 && !is_ws(s[0]) ==> word_len(s) > 0,
        forall|k: int| 0 <= k < word_len(s) ==> !is_ws(#[trigger] s[k]),
        word_len(s) < s.len() ==> is_ws(s[word_len(s) as int]),
    decreases s.len(),
{
    if s.len() > 0 && !is_ws(s[0]) {
        lemma_word_len(s.drop_first());
        assert forall|k: int| 0 <= k < word_len(s) implies !is_ws(#[trigger] s[k]) by {
            if k > 0 {
                assert(s[k] == s.drop_first()[k - 1]);
            }
        }
    }
}

/// The characters of `v` between `lo` and `hi`.
pub open spec fn range_of(v: Seq<char>, r: (usize, usize)) -> Seq<char> {
    v.subrange(r.0 as int, r.1 as int)
}

pub open spec fn valid_ranges(v: Seq<char>, rs: Seq<(usize, usize)>) -> bool {
    forall|k: int| 0 <= k < rs.len() ==> (#[trigger] rs[k]).0 <= rs[k].1 <= v.len()
}

pub open spec fn ranges_text(v: Seq<char>, rs: Seq<(usize, usize)>) -> Seq<Seq<char>> {
    Seq::new(rs.len(), |k: int| range_of(v, rs[k]))
}

// ---------------------------------------------------------------------------
// Executable functions
// ---------------------------------------------------------------------------

/// Copies the characters of a string slice into a vector.
pub fn chars_of(s: &str) -> (v: Vec<char>)
    ensures
        v@ == s@,
{
    let mut v: Vec<char> = Vec::new();
    for c in it: s.chars()
        invariant
            v@ == it.seq().take(it.index() as int),
            it.seq() == s@,
    {
        v.push(c);
    }
    v
}

/// Whether two string slices hold the same characters.
pub fn same_text(a: &str, b: &str) -> (r: bool)
    ensures
        r == (a@ == b@),
{
    let x = chars_of(a);
    let y = chars_of(b);
    let n = x.len();
    let r = eq_in(&x, 0, n, &y);
    assert(x@.subrange(0, n as int) =~= x@);
    r
}

/// Appends one character to a string (`String::push`).
#[verifier::external_body]
pub(crate) fn push_char(s: &mut String, c: char)
    ensures
        final(s)@ == old(s)@.push(c),
{
    s.push(c);
}

/// Appends a string slice to a string.
pub fn push_str(s: &mut String, t: &str)
    ensures
        final(s)@ == old(s)@ + t@,
{
    s.append(t);
}

/// A new string holding the characters of `v` in `[lo, hi)`.
pub fn string_of(v: &Vec<char>, lo: usize, hi: usize) -> (s: String)
    requires
        lo <= hi <= v.len(),
    ensures
        s@ == v@.subrange(lo as int, hi as int),
{
    let mut s = String::new();
    let mut i = lo;
    while i < hi
        invariant
            lo <= i <= hi <= v.len(),
            s@ == v@.subrange(lo as int, i as int),
        decreases hi - i,
    {
        push_char(&mut s, v[i]);
        assert(v@.subrange(lo as int, i + 1) == v@.subrange(lo as int, i as int).push(v@[i as int]));
        i = i + 1;
    }
    s
}

/// A new string holding all the characters of `v`.
pub fn string_of_all(v: &Vec<char>) -> (s: String)
    ensures
        s@ == v@,
{
    let s = string_of(v, 0, v.len());
    assert(v@.subrange(0, v@.len() as int) == v@);
    s
}

pub fn is_ws_char(c: char) -> (b: bool)
    ensures
        b == is_ws(c),
{
    ('\u{9}' <= c && c <= '\u{d}') || c == ' ' || c == '\u{85}' || c == '\u{a0}' || c == '\u{1680}'
        || ('\u{2000}' <= c && c <= '\u{200a}') || c == '\u{2028}' || c == '\u{2029}' || c
        == '\u{202f}' || c == '\u{205f}' || c == '\u{3000}'
}

pub fn lower_char(c: char) -> (d: char)
    ensures
        d == lower(c),
{
    if 'A' <= c && c <= 'Z' {
        let n: u32 = c as u32;
        let m: u32 = n + 32;
        assert(m < 128);
        let b: u8 = m as u8;
        b as char
    } else {
        c
    }
}

pub fn upper_char(c: char) -> (d: char)
    ensures
        d == upper(c),
{
    if 'a' <= c && c <= 'z' {
        let n: u32 = c as u32;
        let m: u32 = n - 32;
        let b: u8 = m as u8;
        b as char
    } else {
        c
    }
}

pub proof fn lemma_word_len_exact(s: Seq<char>, n: int)
    requires
        0 <= n <= s.len(),
        forall|k: int| 0 <= k < n ==> !is_ws(#[trigger] s[k]),
        n == s.len() || is_ws(s[n]),
    ensures
        word_len(s) == n,
    decreases n,
{
    if n > 0 {
        assert(!is_ws(s[0]));
        let t = s.drop_first();
        assert forall|k: int| 0 <= k < n - 1 implies !is_ws(#[trigger] t[k]) by {
            assert(t[k] == s[k + 1]);
        }
        if n < s.len() {
            assert(t[n - 1] == s[n]);
        }
        lemma_word_len_exact(t, n - 1);
    }
}

pub proof fn lemma_digits_val_prefix(s: Seq<char>, k: int)
    requires
        0 <= k <= s.len(),
    ensures
        digits_val(s) >= digits_val(s.take(k)),
    decreases s.len() - k,
{
    if k < s.len() {
        lemma_digits_val_prefix(s.drop_last(), k);
        assert(s.drop_last().take(k) == s.take(k));
    } else {
        assert(s.take(k) == s);
    }
}

/// Index of the first `c` in `v[lo..hi)`, as an absolute position.
pub fn find_char_in(v: &Vec<char>, lo: usize, hi: usize, c: char) -> (r: Option<usize>)
    requires
        lo <= hi <= v.len(),
    ensures
        r matches Some(j) ==> lo <= j < hi && v@[j as int] == c,
        find(v@.subrange(lo as int, hi as int), seq![c]) == (match r {
            Some(j) => Some(j - lo),
            None => None::<int>,
        }),
{
    let ghost s = v@.subrange(lo as int, hi as int);
    let ghost p = seq![c];
    let mut k = lo;
    while k < hi
        invariant
            lo <= k <= hi <= v.len(),
            s == v@.subrange(lo as int, hi as int),
            p == seq![c],
            find_from(s, p, 0) == find_from(s, p, k - lo),
        decreases hi - k,
    {
        assert(s.subrange(k - lo, k - lo + 1) =~= seq![v@[k as int]]);
        if v[k] == c {
            return Some(k);
        }
        assert(s.subrange(k - lo, k - lo + 1) != p) by {
            if s.subrange(k - lo, k - lo + 1) == p {
                assert(s.subrange(k - lo, k - lo + 1)[0] == p[0]);
            }
        }
        k = k + 1;
    }
    None
}

/// Index of the last `c` in `v[lo..hi)`, as an absolute position.
pub fn rfind_char_in(v: &Vec<char>, lo: usize, hi: usize, c: char) -> (r: Option<usize>)
    requires
        lo <= hi <= v.len(),
    ensures
        r matches Some(j) ==> lo <= j < hi && v@[j as int] == c,
        rfind(v@.subrange(lo as int, hi as int), c) == (match r {
            Some(j) => Some(j - lo),
            None => None::<int>,
        }),
{
    let ghost s = v@.subrange(lo as int, hi as int);
    let mut k = hi;
    while k > lo
        invariant
            lo <= k <= hi <= v.len(),
            s == v@.subrange(lo as int, hi as int),
            rfind(s, c) == rfind_before(s, c, k - lo),
        decreases k - lo,
    {
        assert(s[k - lo - 1] == v@[k - 1]);
        if v[k - 1] == c {
            return Some(k - 1);
        }
        k = k - 1;
    }
    None
}

/// Whether `pat` occurs in `v` at position `i`.
pub fn matches_at(v: &Vec<char>, i: usize, pat: &Vec<char>) -> (b: bool)
    requires
        i <= v.len(),
    ensures
        b == (i + pat.len() <= v.len() && v@.subrange(i as int, i + pat.len()) == pat@),
{
    if pat.len() > v.len() - i {
        return false;
    }
    let mut k: usize = 0;
    while k < pat.len()
        invariant
            i + pat.len() <= v.len(),
            k <= pat.len(),
            forall|m: int| 0 <= m < k ==> v@[i + m] == pat@[m],
        decreases pat.len() - k,
    {
        if v[i + k] != pat[k] {
            assert(v@.subrange(i as int, i + pat.len())[k as int] != pat@[k as int]);
            return false;
        }
        k = k + 1;
    }
    assert(v@.subrange(i as int, i + pat.len()) =~= pat@);
    true
}

/// First occurrence of `pat` in `v[lo..hi)`, as an absolute position.
pub fn find_in(v: &Vec<char>, lo: usize, hi: usize, pat: &Vec<char>) -> (r: Option<usize>)
    requires
        lo <= hi <= v.len(),
    ensures
        r matches Some(j) ==> lo <= j && j + pat.len() <= hi,
        find(v@.subrange(lo as int, hi as int), pat@) == (match r {
            Some(j) => Some(j - lo),
            None => None::<int>,
        }),
{
    let ghost s = v@.subrange(lo as int, hi as int);
    let mut k = lo;
    while k <= hi
        invariant
            lo <= k <= hi + 1,
            hi <= v.len(),
            s == v@.subrange(lo as int, hi as int),
            k <= hi ==> find_from(s, pat@, 0) == find_from(s, pat@, k - lo),
            k > hi ==> find_from(s, pat@, 0) is None,
        decreases hi + 1 - k,
    {
        if pat.len() > hi - k {
            return None;
        }
        let m = matches_at(v, k, pat);
        assert(s.subrange(k - lo, k - lo + pat.len()) =~= v@.subrange(k as int, k + pat.len()));
        if m {
            return Some(k);
        }
        if k == hi {
            return None;
        }
        k = k + 1;
    }
    None
}

/// Whether `pat` occurs anywhere in `v[lo..hi)`.
pub fn contains_in(v: &Vec<char>, lo: usize, hi: usize, pat: &Vec<char>) -> (b: bool)
    requires
        lo <= hi <= v.len(),
    ensures
        b == contains(v@.subrange(lo as int, hi as int), pat@),
{
    find_in(v, lo, hi, pat).is_some()
}

/// Whether `v[lo..hi)` equals `pat`.
pub fn eq_in(v: &Vec<char>, lo: usize, hi: usize, pat: &Vec<char>) -> (b: bool)
    requires
        lo <= hi <= v.len(),
    ensures
        b == (v@.subrange(lo as int, hi as int) == pat@),
{
    if hi - lo != pat.len() {
        assert(v@.subrange(lo as int, hi as int).len() != pat@.len());
        return false;
    }
    matches_at(v, lo, pat)
}

/// Whether `v[lo..hi)` starts with `pat`.
pub fn starts_with_in(v: &Vec<char>, lo: usize, hi: usize, pat: &Vec<char>) -> (b: bool)
    requires
        lo <= hi <= v.len(),
    ensures
        b == starts_with(v@.subrange(lo as int, hi as int), pat@),
{
    if pat.len() > hi - lo {
        return false;
    }
    let b = matches_at(v, lo, pat);
    assert(v@.subrange(lo as int, hi as int).subrange(0, pat.len() as int) =~= v@.subrange(
        lo as int,
        lo + pat.len(),
    ));
    b
}

/// Whether `v[lo..hi)` ends with `pat`.
pub fn ends_with_in(v: &Vec<char>, lo: usize, hi: usize, pat: &Vec<char>) -> (b: bool)
    requires
        lo <= hi <= v.len(),
    ensures
        b == ends_with(v@.subrange(lo as int, hi as int), pat@),
{
    if pat.len() > hi - lo {
        return false;
    }
    let b = matches_at(v, hi - pat.len(), pat);
    assert(v@.subrange(lo as int, hi as int).subrange(hi - lo - pat.len(), hi - lo) =~= v@.subrange(
        hi - pat.len(),
        hi as int,
    ));
    b
}

/// The ASCII-lower-cased characters of `v[lo..hi)`.
pub fn lower_in(v: &Vec<char>, lo: usize, hi: usize) -> (r: Vec<char>)
    requires
        lo <= hi <= v.len(),
    ensures
        r@ == lower_seq(v@.subrange(lo as int, hi as int)),
{
    let mut r: Vec<char> = Vec::new();
    let mut k = lo;
    while k < hi
        invariant
            lo <= k <= hi <= v.len(),
            r@ == lower_seq(v@.subrange(lo as int, k as int)),
        decreases hi - k,
    {
        let c = lower_char(v[k]);
        r.push(c);
        k = k + 1;
        assert(r@ =~= lower_seq(v@.subrange(lo as int, k as int)));
    }
    r
}

/// The ASCII-upper-cased characters of `v[lo..hi)`.
pub fn upper_in(v: &Vec<char>, lo: usize, hi: usize) -> (r: Vec<char>)
    requires
        lo <= hi <= v.len(),
    ensures
        r@ == upper_seq(v@.subrange(lo as int, hi as int)),
{
    let mut r: Vec<char> = Vec::new();
    let mut k = lo;
    while k < hi
        invariant
            lo <= k <= hi <= v.len(),
            r@ == upper_seq(v@.subrange(lo as int, k as int)),
        decreases hi - k,
    {
        let c = upper_char(v[k]);
        r.push(c);
        k = k + 1;
        assert(r@ =~= upper_seq(v@.subrange(lo as int, k as int)));
    }
    r
}

/// Whether the ASCII-lower-cased `v[lo..hi)` equals `pat`.
pub fn eq_lower_in(v: &Vec<char>, lo: usize, hi: usize, pat: &Vec<char>) -> (b: bool)
    requires
        lo <= hi <= v.len(),
    ensures
        b == (lower_seq(v@.subrange(lo as int, hi as int)) == pat@),
{
    let l = lower_in(v, lo, hi);
    let n = l.len();
    let b = eq_in(&l, 0, n, pat);
    assert(l@.subrange(0, n as int) =~= l@);
    b
}

/// Whether the ASCII-lower-cased `v[lo..hi)` contains `pat`.
pub fn contains_lower_in(v: &Vec<char>, lo: usize, hi: usize, pat: &Vec<char>) -> (b: bool)
    requires
        lo <= hi <= v.len(),
    ensures
        b == contains(lower_seq(v@.subrange(lo as int, hi as int)), pat@),
{
    let l = lower_in(v, lo, hi);
    let n = l.len();
    let b = contains_in(&l, 0, n, pat);
    assert(l@.subrange(0, n as int) =~= l@);
    b
}

/// The range of `v[lo..hi)` left after `str::trim`.
pub fn trim_in(v: &Vec<char>, lo: usize, hi: usize) -> (r: (usize, usize))
    requires
        lo <= hi <= v.len(),
    ensures
        lo <= r.0 <= r.1 <= hi,
        v@.subrange(r.0 as int, r.1 as int) == trim(v@.subrange(lo as int, hi as int)),
{
    let mut a = lo;
    while a < hi && is_ws_char(v[a])
        invariant
            lo <= a <= hi <= v.len(),
            trim_start(v@.subrange(lo as int, hi as int)) == trim_start(v@.subrange(a as int, hi as int)),
        decreases hi - a,
    {
        assert(v@.subrange(a as int, hi as int).drop_first() =~= v@.subrange(a + 1, hi as int));
        a = a + 1;
    }
    let mut b = hi;
    while b > a && is_ws_char(v[b - 1])
        invariant
            lo <= a <= b <= hi <= v.len(),
            trim(v@.subrange(lo as int, hi as int)) == trim_end(v@.subrange(a as int, b as int)),
        decreases b - a,
    {
        assert(v@.subrange(a as int, b as int).drop_last() =~= v@.subrange(a as int, b - 1));
        b = b - 1;
    }
    (a, b)
}

/// The ranges of the pieces of `v[lo..hi)` split at `sep` (`str::split`).
pub fn split_in(v: &Vec<char>, lo: usize, hi: usize, sep: &Vec<char>) -> (r: Vec<(usize, usize)>)
    requires
        lo <= hi <= v.len(),
        sep.len() > 0,
    ensures
        valid_ranges(v@, r@),
        ranges_text(v@, r@) == split(v@.subrange(lo as int, hi as int), sep@),
        forall|k: int| 0 <= k < r@.len() ==> lo <= (#[trigger] r@[k]).0 && r@[k].1 <= hi,
{
    let mut r: Vec<(usize, usize)> = Vec::new();
    let mut pos = lo;
    loop
        invariant
            lo <= pos <= hi <= v.len(),
            sep.len() > 0,
            valid_ranges(v@, r@),
            forall|k: int| 0 <= k < r@.len() ==> lo <= (#[trigger] r@[k]).0 && r@[k].1 <= hi,
            split(v@.subrange(lo as int, hi as int), sep@) == ranges_text(v@, r@) + split(
                v@.subrange(pos as int, hi as int),
                sep@,
            ),
        decreases hi - pos,
    {
        let ghost rest = v@.subrange(pos as int, hi as int);
        let ghost old_r = r@;
        match find_in(v, pos, hi, sep) {
            None => {
                r.push((pos, hi));
                assert(ranges_text(v@, r@) =~= ranges_text(v@, old_r) + seq![rest]);
                return r;
            },
            Some(j) => {
                proof {
                    lemma_find_from_bounds(rest, sep@, 0);
                }
                r.push((pos, j));
                assert(rest.subrange(0, j - pos) =~= v@.subrange(pos as int, j as int));
                assert(rest.subrange(j - pos + sep.len(), rest.len() as int) =~= v@.subrange(
                    j + sep.len(),
                    hi as int,
                ));
                assert(ranges_text(v@, r@) =~= ranges_text(v@, old_r) + seq![v@.subrange(pos as int, j as int)]);
                pos = j + sep.len();
            },
        }
    }
}

/// The ranges of the lines of `v` (`str::lines`).
pub fn line_ranges(v: &Vec<char>) -> (r: Vec<(usize, usize)>)
    ensures
        valid_ranges(v@, r@),
        ranges_text(v@, r@) == lines(v@),
{
    let mut r: Vec<(usize, usize)> = Vec::new();
    let mut pos: usize = 0;
    let n = v.len();
    assert(v@.subrange(0, n as int) =~= v@);
    loop
        invariant
            pos <= n == v.len(),
            valid_ranges(v@, r@),
            lines(v@) == ranges_text(v@, r@) + lines(v@.subrange(pos as int, n as int)),
        decreases n - pos,
    {
        let ghost rest = v@.subrange(pos as int, n as int);
        let ghost old_r = r@;
        match find_char_in(v, pos, n, '\n') {
            None => {
                if pos < n {
                    r.push((pos, n));
                    assert(ranges_text(v@, r@) =~= ranges_text(v@, old_r) + seq![rest]);
                } else {
                    assert(ranges_text(v@, r@) =~= ranges_text(v@, old_r) + seq![]);
                }
                return r;
            },
            Some(j) => {
                proof {
                    lemma_find_from_bounds(rest, seq!['\n'], 0);
                }
                let end = if j > pos && v[j - 1] == '\r' {
                    j - 1
                } else {
                    j
                };
                r.push((pos, end));
                assert(v@.subrange(pos as int, end as int) == strip_cr(rest.subrange(0, j - pos))) by {
                    if j > pos && v@[j - 1] == '\r' {
                        assert(rest.subrange(0, j - pos).drop_last() =~= v@.subrange(pos as int, end as int));
                    } else {
                        assert(rest.subrange(0, j - pos) =~= v@.subrange(pos as int, end as int));
                    }
                }
                assert(rest.subrange(j - pos + 1, rest.len() as int) =~= v@.subrange(j + 1, n as int));
                assert(ranges_text(v@, r@) =~= ranges_text(v@, old_r) + seq![v@.subrange(pos as int, end as int)]);
                pos = j + 1;
            },
        }
    }
}

/// The ranges of the white-space-separated words of `v[lo..hi)`
/// (`str::split_whitespace`).
pub fn word_ranges(v: &Vec<char>, lo: usize, hi: usize) -> (r: Vec<(usize, usize)>)
    requires
        lo <= hi <= v.len(),
    ensures
        valid_ranges(v@, r@),
        ranges_text(v@, r@) == words(v@.subrange(lo as int, hi as int)),
{
    let mut r: Vec<(usize, usize)> = Vec::new();
    let mut pos = lo;
    while pos < hi
        invariant
            lo <= pos <= hi <= v.len(),
            valid_ranges(v@, r@),
            words(v@.subrange(lo as int, hi as int)) == ranges_text(v@, r@) + words(
                v@.subrange(pos as int, hi as int),
            ),
        decreases hi - pos,
    {
        let ghost rest = v@.subrange(pos as int, hi as int);
        if is_ws_char(v[pos]) {
            assert(rest.drop_first() =~= v@.subrange(pos + 1, hi as int));
            pos = pos + 1;
        } else {
            let mut e = pos;
            while e < hi && !is_ws_char(v[e])
                invariant
                    pos <= e <= hi <= v.len(),
                    forall|k: int| pos <= k < e ==> !is_ws(#[trigger] v@[k]),
                decreases hi - e,
            {
                e = e + 1;
            }
            proof {
                assert forall|k: int| 0 <= k < e - pos implies !is_ws(#[trigger] rest[k]) by {
                    assert(rest[k] == v@[pos + k]);
                }
                if e < hi {
                    assert(rest[e - pos] == v@[e as int]);
                }
                lemma_word_len_exact(rest, e - pos);
            }
            let ghost old_r = r@;
            r.push((pos, e));
            assert(rest.subrange(0, e - pos) =~= v@.subrange(pos as int, e as int));
            assert(rest.subrange(e - pos, rest.len() as int) =~= v@.subrange(e as int, hi as int));
            assert(ranges_text(v@, r@) =~= ranges_text(v@, old_r) + seq![v@.subrange(pos as int, e as int)]);
            pos = e;
        }
    }
    assert(ranges_text(v@, r@) + words(v@.subrange(pos as int, hi as int)) =~= ranges_text(v@, r@));
    r
}

/// `str::parse` into an unsigned integer no larger than `max`.
pub fn parse_uint_in(v: &Vec<char>, lo: usize, hi: usize, max: u64) -> (r: Option<u64>)
    requires
        lo <= hi <= v.len(),
    ensures
        parse_uint(v@.subrange(lo as int, hi as int), max as nat) == (match r {
            Some(n) => Some(n as nat),
            None => None::<nat>,
        }),
{
    let ghost s = v@.subrange(lo as int, hi as int);
    let start = if lo < hi && v[lo] == '+' {
        lo + 1
    } else {
        lo
    };
    let ghost d = v@.subrange(start as int, hi as int);
    assert(d == (if s.len() > 0 && s[0] == '+' { s.drop_first() } else { s }));
    if start == hi {
        return None;
    }
    let mut acc: u128 = 0;
    let mut k = start;
    while k < hi
        invariant
            start <= k <= hi <= v.len(),
            d == v@.subrange(start as int, hi as int),
            s == v@.subrange(lo as int, hi as int),
            d == (if s.len() > 0 && s[0] == '+' { s.drop_first() } else { s }),
            all_digits(d.take(k - start)),
            acc == digits_val(d.take(k - start)),
            acc <= max,
        decreases hi - k,
    {
        let c = v[k];
        if !('0' <= c && c <= '9') {
            assert(d[k - start] == c);
            assert(!is_digit(d[k - start]));
            assert(!all_digits(d));
            assert(parse_uint(s, max as nat) is None);
            return None;
        }
        let dv: u32 = (c as u32) - ('0' as u32);
        assert(d.take(k - start + 1).drop_last() =~= d.take(k - start));
        acc = acc * 10 + (dv as u128);
        k = k + 1;
        assert(d.take(k - start).drop_last() =~= d.take(k - start - 1));
        assert(d.take(k - start).last() == c);
        assert(acc == digits_val(d.take(k - start)));
        assert(all_digits(d.take(k - start))) by {
            assert forall|i: int| 0 <= i < k - start implies is_digit(#[trigger] d.take(k - start)[i]) by {
                if i < k - start - 1 {
                    assert(d.take(k - start)[i] == d.take(k - start - 1)[i]);
                }
            }
        }
        if acc > (max as u128) {
            proof {
                lemma_digits_val_prefix(d, k - start);
                assert(digits_val(d) > max);
                assert(parse_uint(s, max as nat) is None);
            }
            return None;
        }
    }
    assert(d.take(k - start) =~= d);
    Some(acc as u64)
}

pub fn digit_char_exec(d: u64) -> (c: char)
    requires
        d < 10,
    ensures
        c == digit_char(d as nat),
{
    let b: u8 = (48 + d) as u8;
    b as char
}

/// Decimal rendering of an unsigned integer.
pub fn decimal_string(n: u64) -> (s: String)
    ensures
        s@ == decimal(n as nat),
    decreases n,
{
    if n < 10 {
        let mut s = String::new();
        push_char(&mut s, digit_char_exec(n));
        s
    } else {
        let mut s = decimal_string(n / 10);
        push_char(&mut s, digit_char_exec(n % 10));
        s
    }
}

// ---------------------------------------------------------------------------
// Lists of strings
// ---------------------------------------------------------------------------

/// The parts joined with `sep` in between (`[..].join(sep)`).
pub open spec fn join(parts: Seq<Seq<char>>, sep: Seq<char>) -> Seq<char>
    decreases parts.len(),
{
    if parts.len() == 0 {
        seq![]
    } else if parts.len() == 1 {
        parts[0]
    } else {
        join(parts.drop_last(), sep) + sep + parts.last()
    }
}

/// The distinct values of `s`, each at its first appearance.
pub open spec fn dedup(s: Seq<Seq<char>>) -> Seq<Seq<char>>
    decreases s.len(),
{
    if s.len() == 0 {
        seq![]
    } else if dedup(s.drop_last()).contains(s.last()) {
        dedup(s.drop_last())
    } else {
        dedup(s.drop_last()).push(s.last())
    }
}

/// Number of occurrences of `c` in `s`.
pub open spec fn count_char(s: Seq<char>, c: char) -> nat
    decreases s.len(),
{
    if s.len() == 0 {
        0
    } else {
        count_char(s.drop_last(), c) + if s.last() == c {
            1nat
        } else {
            0nat
        }
    }
}

/// Views of a list of strings.
pub open spec fn texts(v: Seq<String>) -> Seq<Seq<char>> {
    Seq::new(v.len(), |i: int| v[i]@)
}

/// The values `f` gives for the lines of `ls`, skipping lines it gives none for.
pub open spec fn collect<T>(ls: Seq<Seq<char>>, f: spec_fn(Seq<char>) -> Option<T>) -> Seq<T>
    decreases ls.len(),
{
    if ls.len() == 0 {
        seq![]
    } else {
        collect(ls.drop_last(), f) + match f(ls.last()) {
            Some(x) => seq![x],
            None => seq![],
        }
    }
}

/// Views of a list of string slices.
pub open spec fn str_texts(v: Seq<&str>) -> Seq<Seq<char>> {
    Seq::new(v.len(), |i: int| v[i]@)
}

pub proof fn lemma_texts_deep_view(v: Vec<String>)
    ensures
        texts(v@) == v.deep_view(),
{
    assert(texts(v@) =~= v.deep_view());
}

/// Whether `list` holds a string slice equal to `x`.
pub fn in_list(list: &Vec<&str>, x: &str) -> (b: bool)
    ensures
        b == str_texts(list@).contains(x@),
{
    let mut k: usize = 0;
    while k < list.len()
        invariant
            k <= list@.len(),
            forall|m: int| 0 <= m < k ==> str_texts(list@)[m] != x@,
        decreases list@.len() - k,
    {
        if same_text(list[k], x) {
            assert(str_texts(list@)[k as int] == x@);
            return true;
        }
        k = k + 1;
    }
    false
}

/// Joins strings with `sep` in between.
pub fn join_strings(parts: &Vec<String>, sep: &str) -> (s: String)
    ensures
        s@ == join(texts(parts@), sep@),
{
    let mut s = String::new();
    let mut k: usize = 0;
    while k < parts.len()
        invariant
            k <= parts@.len(),
            s@ == join(texts(parts@).take(k as int), sep@),
        decreases parts@.len() - k,
    {
        assert(texts(parts@).take(k + 1).drop_last() =~= texts(parts@).take(k as int));
        if k > 0 {
            push_str(&mut s, sep);
        } else {
            assert(texts(parts@).take(0) =~= seq![]);
        }
        push_str(&mut s, parts[k].as_str());
        k = k + 1;
    }
    assert(texts(parts@).take(k as int) =~= texts(parts@));
    s
}

/// Whether `v` holds a string equal to `x`.
pub fn has_string(v: &Vec<String>, x: &str) -> (b: bool)
    ensures
        b == texts(v@).contains(x@),
{
    let mut k: usize = 0;
    while k < v.len()
        invariant
            k <= v@.len(),
            forall|m: int| 0 <= m < k ==> texts(v@)[m] != x@,
        decreases v@.len() - k,
    {
        if same_text(v[k].as_str(), x) {
            assert(texts(v@)[k as int] == x@);
            return true;
        }
        k = k + 1;
    }
    false
}

/// The distinct strings of `v`, each at its first appearance.
pub fn dedup_strings(v: &Vec<String>) -> (r: Vec<String>)
    ensures
        texts(r@) == dedup(texts(v@)),
{
    let mut r: Vec<String> = Vec::new();
    let mut k: usize = 0;
    while k < v.len()
        invariant
            k <= v@.len(),
            texts(r@) == dedup(texts(v@).take(k as int)),
        decreases v@.len() - k,
    {
        assert(texts(v@).take(k + 1).drop_last() =~= texts(v@).take(k as int));
        assert(texts(v@).take(k + 1).last() == v@[k as int]@);
        if !has_string(&r, v[k].as_str()) {
            let ghost before = r@;
            r.push(v[k].clone());
            assert(texts(r@) =~= texts(before).push(v@[k as int]@));
        }
        k = k + 1;
    }
    assert(texts(v@).take(k as int) =~= texts(v@));
    r
}

/// Number of occurrences of `c` in `v[lo..hi)`.
pub fn count_char_in(v: &Vec<char>, lo: usize, hi: usize, c: char) -> (n: usize)
    requires
        lo <= hi <= v.len(),
    ensures
        n == count_char(v@.subrange(lo as int, hi as int), c),
{
    let mut n: usize = 0;
    let mut k = lo;
    while k < hi
        invariant
            lo <= k <= hi <= v.len(),
            n == count_char(v@.subrange(lo as int, k as int), c),
            n <= k - lo,
        decreases hi - k,
    {
        assert(v@.subrange(lo as int, k + 1).drop_last() =~= v@.subrange(lo as int, k as int));
        if v[k] == c {
            n = n + 1;
        }
        k = k + 1;
    }
    n
}

/// A new string holding `s` followed by `t`.
pub fn concat2(s: &str, t: &str) -> (r: String)
    ensures
        r@ == s@ + t@,
{
    let mut r = String::from_str(s);
    push_str(&mut r, t);
    r
}

/// A new string holding `a`, `b` and `c` in order.
pub fn concat3(a: &str, b: &str, c: &str) -> (r: String)
    ensures
        r@ == a@ + b@ + c@,
{
    let mut r = String::from_str(a);
    push_str(&mut r, b);
    push_str(&mut r, c);
    r
}

/// A new string holding `a`, `b`, `c`, `d` and `e` in order.
pub fn concat5(a: &str, b: &str, c: &str, d: &str, e: &str) -> (r: String)
    ensures
        r@ == a@ + b@ + c@ + d@ + e@,
{
    let mut r = String::from_str(a);
    push_str(&mut r, b);
    push_str(&mut r, c);
    push_str(&mut r, d);
    push_str(&mut r, e);
    r
}

/// Decimal rendering of a count.
pub fn count_string(n: usize) -> (s: String)
    ensures
        s@ == decimal(n as nat),
{
    decimal_string(n as u64)
}

/// The end of `v[lo..hi)` left after `str::trim_end`.
pub fn trim_end_in(v: &Vec<char>, lo: usize, hi: usize) -> (e: usize)
    requires
        lo <= hi <= v.len(),
    ensures
        lo <= e <= hi,
        v@.subrange(lo as int, e as int) == trim_end(v@.subrange(lo as int, hi as int)),
{
    let mut b = hi;
    while b > lo && is_ws_char(v[b - 1])
        invariant
            lo <= b <= hi <= v.len(),
            trim_end(v@.subrange(lo as int, hi as int)) == trim_end(v@.subrange(lo as int, b as int)),
        decreases b - lo,
    {
        assert(v@.subrange(lo as int, b as int).drop_last() =~= v@.subrange(lo as int, b - 1));
        b = b - 1;
    }
    b
}

/// `str::trim_start_matches(c)`.
pub open spec fn strip_start_char(s: Seq<char>, c: char) -> Seq<char>
    decreases s.len(),
{
    if s.len() > 0 && s[0] == c {
        strip_start_char(s.drop_first(), c)
    } else {
        s
    }
}

/// `str::trim_end_matches(c)`.
pub open spec fn strip_end_char(s: Seq<char>, c: char) -> Seq<char>
    decreases s.len(),
{
    if s.len() > 0 && s.last() == c {
        strip_end_char(s.drop_last(), c)
    } else {
        s
    }
}

/// The end of `v[lo..hi)` with trailing `c` characters removed
/// (`trim_end_matches(c)`).
pub fn strip_end_char_in(v: &Vec<char>, lo: usize, hi: usize, c: char) -> (e: usize)
    requires
        lo <= hi <= v.len(),
    ensures
        lo <= e <= hi,
        v@.subrange(lo as int, e as int) == strip_end_char(v@.subrange(lo as int, hi as int), c),
{
    let mut e = hi;
    while e > lo && v[e - 1] == c
        invariant
            lo <= e <= hi <= v.len(),
            strip_end_char(v@.subrange(lo as int, hi as int), c) == strip_end_char(v@.subrange(lo as int, e as int), c),
        decreases e,
    {
        assert(v@.subrange(lo as int, e as int).drop_last() =~= v@.subrange(lo as int, e - 1));
        e = e - 1;
    }
    e
}

/// The range of `v[lo..hi)` with leading `open` and trailing `close`
/// characters removed (`trim_start_matches(open).trim_end_matches(close)`).
pub fn strip_chars_in(v: &Vec<char>, lo: usize, hi: usize, open: char, close: char) -> (r: (usize, usize))
    requires
        lo <= hi <= v.len(),
    ensures
        lo <= r.0 <= r.1 <= hi,
        v@.subrange(r.0 as int, r.1 as int) == strip_end_char(strip_start_char(v@.subrange(lo as int, hi as int), open), close),
{
    let mut a = lo;
    while a < hi && v[a] == open
        invariant
            lo <= a <= hi <= v.len(),
            strip_start_char(v@.subrange(lo as int, hi as int), open) == strip_start_char(
                v@.subrange(a as int, hi as int),
                open,
            ),
        decreases hi - a,
    {
        assert(v@.subrange(a as int, hi as int).drop_first() =~= v@.subrange(a + 1, hi as int));
        a = a + 1;
    }
    let mut b = hi;
    while b > a && v[b - 1] == close
        invariant
            lo <= a <= b <= hi <= v.len(),
            strip_end_char(strip_start_char(v@.subrange(lo as int, hi as int), open), close) == strip_end_char(
                v@.subrange(a as int, b as int),
                close,
            ),
        decreases b - a,
    {
        assert(v@.subrange(a as int, b as int).drop_last() =~= v@.subrange(a as int, b - 1));
        b = b - 1;
    }
    (a, b)
}

// ---------------------------------------------------------------------------
// Unicode properties from std
// ---------------------------------------------------------------------------

/// Whether `c` has the Unicode `Alphabetic` property (`char::is_alphabetic`).
pub uninterp spec fn unicode_alphabetic(c: char) -> bool;

/// Calls `char::is_alphabetic`. Its documentation: true exactly for the
/// characters with the Unicode `Alphabetic` property; among ASCII
/// characters those are the letters `a`-`z` and `A`-`Z`.
#[verifier::external_body]
pub(crate) fn is_alphabetic(c: char) -> (b: bool)
    ensures
        b == unicode_alphabetic(c),
        ('a' <= c && c <= 'z') || ('A' <= c && c <= 'Z') ==> b,
        (c as u32) < 128 && !(('a' <= c && c <= 'z') || ('A' <= c && c <= 'Z')) ==> !b,
{
    c.is_alphabetic()
}

/// The Unicode lower-case mapping of a string (`str::to_lowercase`).
pub uninterp spec fn unicode_lowercase(s: Seq<char>) -> Seq<char>;

pub open spec fn is_ascii_text(s: Seq<char>) -> bool {
    forall|i: int| 0 <= i < s.len() ==> (s[i] as u32) < 128
}

/// Calls `str::to_lowercase`. Its documentation: the lower-case
/// equivalent under the Unicode `Lowercase` mapping, which on ASCII text is
/// ASCII lower-casing.
#[verifier::external_body]
pub(crate) fn to_lowercase(s: &str) -> (r: String)
    ensures
        r@ == unicode_lowercase(s@),
        is_ascii_text(s@) ==> r@ == lower_seq(s@),
{
    s.to_lowercase()
}

} // verus!
