//! Character-level string helpers shared by the parsers and formatters.
use vstd::prelude::*;

verus! {

/// Names the result of `str::to_lowercase`: the lower-case form of a string as
/// defined by the Unicode `Lowercase` mapping.
pub uninterp spec fn lowercase(s: Seq<char>) -> Seq<char>;

/// Calls `str::to_lowercase`. Its contract claims only that the result is the
/// (deterministic) lower-case form named by [`lowercase`]; which characters
/// that form holds is left unsaid.
#[verifier::external_body]
pub(crate) fn to_lowercase(s: &str) -> (r: String)
    ensures
        r@ == lowercase(s@),
{
    s.to_lowercase()
}

/// Upper-case ASCII letters mapped to lower case; other characters kept.
pub open spec fn ascii_lower(s: Seq<char>) -> Seq<char> {
    s.map_values(|c: char| if 'A' <= c && c <= 'Z' { ((c as u32) + 32) as char } else { c })
}

/// Calls `str::to_ascii_lowercase`, which its documentation says maps the ASCII
/// letters `'A'` to `'Z'` to `'a'` to `'z'` and leaves every other character
/// unchanged.
#[verifier::external_body]
pub(crate) fn to_ascii_lowercase(s: &str) -> (r: String)
    ensures
        r@ == ascii_lower(s@),
{
    s.to_ascii_lowercase()
}

/// The lower-case form that the parsers compare: ASCII text is lower-cased
/// letter by letter (where Unicode lower-casing does the same), any other text
/// by `str::to_lowercase`.
pub open spec fn folded(s: Seq<char>) -> Seq<char> {
    if vstd::utf8::is_ascii_chars(s) {
        ascii_lower(s)
    } else {
        lowercase(s)
    }
}

/// Lower-cases a string for comparison: with `str::to_ascii_lowercase` when it
/// is ASCII, with `str::to_lowercase` otherwise.
pub(crate) fn fold_case(s: &str) -> (r: String)
    ensures
        r@ == folded(s@),
{
    if s.is_ascii() {
        to_ascii_lowercase(s)
    } else {
        to_lowercase(s)
    }
}

/// The decimal digit character for a value below ten.
pub open spec fn digit_char(d: nat) -> char
    recommends
        d < 10,
{
    if d == 0 { '0' }
    else if d == 1 { '1' }
    else if d == 2 { '2' }
    else if d == 3 { '3' }
    else if d == 4 { '4' }
    else if d == 5 { '5' }
    else if d == 6 { '6' }
    else if d == 7 { '7' }
    else if d == 8 { '8' }
    else { '9' }
}

/// The value of a decimal digit character.
pub open spec fn digit_value(c: char) -> nat {
    (c as int - '0' as int) as nat
}

pub open spec fn is_digit(c: char) -> bool {
    '0' <= c && c <= '9'
}

/// Decimal representation of `n`, most significant digit first, without leading zeros
/// (zero is written as a single `'0'`).
pub open spec fn decimal(n: nat) -> Seq<char>
    decreases n,
{
    if n < 10 {
        seq![digit_char(n)]
    } else {
        decimal(n / 10).push(digit_char(n % 10))
    }
}

/// The number written by a sequence of decimal digits.
pub open spec fn digits_value(s: Seq<char>) -> nat
    decreases s.len(),
{
    if s.len() == 0 {
        0
    } else {
        digits_value(s.drop_last()) * 10 + digit_value(s.last())
    }
}

pub open spec fn all_digits(s: Seq<char>) -> bool {
    forall|i: int| 0 <= i < s.len() ==> is_digit(#[trigger] s[i])
}

/// Equality of two string slices, character by character.
pub fn str_eq(a: &str, b: &str) -> (r: bool)
    ensures
        r == (a@ == b@),
{
    let n = a.unicode_len();
    let m = b.unicode_len();
    if n != m {
        return false;
    }
    let mut i: usize = 0;
    while i < n
        invariant
            n == a@.len(),
            m == b@.len(),
            n == m,
            i <= n,
            forall|j: int| 0 <= j < i ==> a@[j] == b@[j],
        decreases n - i,
    {
        if a.get_char(i) != b.get_char(i) {
            return false;
        }
        i = i + 1;
    }
    assert(a@ =~= b@);
    true
}

/// Equality of a character buffer and a string slice.
pub fn chars_eq_str(a: &Vec<char>, b: &str) -> (r: bool)
    ensures
        r == (a@ == b@),
{
    let m = b.unicode_len();
    if a.len() != m {
        return false;
    }
    let mut i: usize = 0;
    while i < m
        invariant
            m == b@.len(),
            a@.len() == m,
            i <= m,
            forall|j: int| 0 <= j < i ==> a@[j] == b@[j],
        decreases m - i,
    {
        if a[i] != b.get_char(i) {
            return false;
        }
        i = i + 1;
    }
    assert(a@ =~= b@);
    true
}

/// The characters of a string slice.
pub fn chars_of(s: &str) -> (v: Vec<char>)
    ensures
        v@ == s@,
{
    let n = s.unicode_len();
    let mut v: Vec<char> = Vec::new();
    let mut i: usize = 0;
    while i < n
        invariant
            n == s@.len(),
            i <= n,
            v@ == s@.subrange(0, i as int),
        decreases n - i,
    {
        v.push(s.get_char(i));
        i = i + 1;
        assert(v@ =~= s@.subrange(0, i as int));
    }
    assert(v@ =~= s@);
    v
}

/// Appends one character to a string (`String::push`).
#[verifier::external_body]
pub(crate) fn push_char(s: &mut String, c: char)
    ensures
        final(s)@ == old(s)@.push(c),
{
    s.push(c);
}

/// A string made of the given characters.
pub fn string_from_chars(v: &Vec<char>) -> (s: String)
    ensures
        s@ == v@,
{
    let mut s = String::new();
    let mut i: usize = 0;
    while i < v.len()
        invariant
            i <= v.len(),
            s@ == v@.subrange(0, i as int),
        decreases v.len() - i,
    {
        push_char(&mut s, v[i]);
        i = i + 1;
        assert(s@ =~= v@.subrange(0, i as int));
    }
    assert(s@ =~= v@);
    s
}

/// A string made of the characters `v[lo..hi]`.
pub fn string_from_range(v: &Vec<char>, lo: usize, hi: usize) -> (s: String)
    requires
        lo <= hi <= v.len(),
    ensures
        s@ == v@.subrange(lo as int, hi as int),
{
    let mut s = String::new();
    let mut i = lo;
    while i < hi
        invariant
            lo <= i <= hi <= v.len(),
            s@ == v@.subrange(lo as int, i as int),
        decreases hi - i,
    {
        push_char(&mut s, v[i]);
        i = i + 1;
        assert(s@ =~= v@.subrange(lo as int, i as int));
    }
    s
}

/// Appends a string slice to a string.
pub fn push_str(s: &mut String, t: &str)
    ensures
        final(s)@ == old(s)@ + t@,
{
    let n = t.unicode_len();
    let ghost s0 = s@;
    let mut i: usize = 0;
    while i < n
        invariant
            n == t@.len(),
            i <= n,
            s@ == s0 + t@.subrange(0, i as int),
        decreases n - i,
    {
        push_char(s, t.get_char(i));
        i = i + 1;
        assert(s@ =~= s0 + t@.subrange(0, i as int));
    }
    assert(t@.subrange(0, n as int) =~= t@);
}

proof fn lemma_digit_char(d: nat)
    requires
        d < 10,
    ensures
        is_digit(digit_char(d)),
        digit_value(digit_char(d)) == d,
{
}

/// `decimal(n)` is a non-empty run of digits that reads back as `n`.
pub proof fn lemma_decimal(n: nat)
    ensures
        decimal(n).len() >= 1,
        all_digits(decimal(n)),
        digits_value(decimal(n)) == n,
    decreases n,
{
    if n < 10 {
        lemma_digit_char(n);
        assert(decimal(n).drop_last() =~= Seq::<char>::empty());
        assert(digits_value(Seq::<char>::empty()) == 0);
        assert(digits_value(decimal(n)) == digits_value(decimal(n).drop_last()) * 10
            + digit_value(decimal(n).last()));
    } else {
        lemma_decimal(n / 10);
        lemma_digit_char(n % 10);
        let s = decimal(n);
        assert(s.drop_last() =~= decimal(n / 10));
        assert(s.last() == digit_char(n % 10));
        assert(digits_value(s) == digits_value(s.drop_last()) * 10 + digit_value(s.last()));
        assert(n == (n / 10) * 10 + n % 10);
        assert forall|i: int| 0 <= i < s.len() implies is_digit(#[trigger] s[i]) by {
            if i < s.len() - 1 {
                assert(s[i] == decimal(n / 10)[i]);
            }
        }
    }
}

/// Decimal text of an unsigned integer.
pub fn u64_to_decimal(n: u64) -> (v: Vec<char>)
    ensures
        v@ == decimal(n as nat),
    decreases n,
{
    if n < 10 {
        let mut v: Vec<char> = Vec::new();
        v.push(digit_to_char((n % 10) as u8));
        v
    } else {
        let mut v = u64_to_decimal(n / 10);
        v.push(digit_to_char((n % 10) as u8));
        v
    }
}

fn digit_to_char(d: u8) -> (c: char)
    requires
        d < 10,
    ensures
        c == digit_char(d as nat),
{
    if d == 0 { '0' }
    else if d == 1 { '1' }
    else if d == 2 { '2' }
    else if d == 3 { '3' }
    else if d == 4 { '4' }
    else if d == 5 { '5' }
    else if d == 6 { '6' }
    else if d == 7 { '7' }
    else if d == 8 { '8' }
    else { '9' }
}

/// Decimal text of an unsigned integer as a `String`.
pub fn u64_to_string(n: u64) -> (s: String)
    ensures
        s@ == decimal(n as nat),
{
    let v = u64_to_decimal(n);
    string_from_chars(&v)
}

/// Characters with the Unicode `White_Space` property, the set that
/// `char::is_whitespace` and `str::trim` use.
pub open spec fn is_whitespace(c: char) -> bool {
    ('\u{9}' <= c && c <= '\u{d}') || c == ' ' || c == '\u{85}' || c == '\u{a0}'
        || c == '\u{1680}' || ('\u{2000}' <= c && c <= '\u{200a}') || c == '\u{2028}'
        || c == '\u{2029}' || c == '\u{202f}' || c == '\u{205f}' || c == '\u{3000}'
}

/// Number of leading whitespace characters of `s`.
pub open spec fn leading_ws(s: Seq<char>) -> nat
    decreases s.len(),
{
    if s.len() > 0 && is_whitespace(s[0]) {
        1 + leading_ws(s.drop_first())
    } else {
        0
    }
}

/// Number of trailing whitespace characters of `s`.
pub open spec fn trailing_ws(s: Seq<char>) -> nat
    decreases s.len(),
{
    if s.len() > 0 && is_whitespace(s.last()) {
        1 + trailing_ws(s.drop_last())
    } else {
        0
    }
}

/// `s` with leading and trailing whitespace removed (as `str::trim` does).
pub open spec fn trim(s: Seq<char>) -> Seq<char> {
    let t = s.skip(leading_ws(s) as int);
    t.take(t.len() - trailing_ws(t))
}

proof fn lemma_leading_ws_bound(s: Seq<char>)
    ensures
        leading_ws(s) <= s.len(),
    decreases s.len(),
{
    if s.len() > 0 && is_whitespace(s[0]) {
        lemma_leading_ws_bound(s.drop_first());
    }
}

proof fn lemma_trailing_ws_bound(s: Seq<char>)
    ensures
        trailing_ws(s) <= s.len(),
    decreases s.len(),
{
    if s.len() > 0 && is_whitespace(s.last()) {
        lemma_trailing_ws_bound(s.drop_last());
    }
}

fn is_whitespace_char(c: char) -> (r: bool)
    ensures
        r == is_whitespace(c),
{
    ('\u{9}' <= c && c <= '\u{d}') || c == ' ' || c == '\u{85}' || c == '\u{a0}'
        || c == '\u{1680}' || ('\u{2000}' <= c && c <= '\u{200a}') || c == '\u{2028}'
        || c == '\u{2029}' || c == '\u{202f}' || c == '\u{205f}' || c == '\u{3000}'
}

/// Bounds `lo..hi` of `s[from..to]` once surrounding whitespace is removed.
pub fn trim_bounds(s: &Vec<char>, from: usize, to: usize) -> (r: (usize, usize))
    requires
        from <= to <= s.len(),
    ensures
        from <= r.0 <= r.1 <= to,
        s@.subrange(r.0 as int, r.1 as int) == trim(s@.subrange(from as int, to as int)),
{
    let ghost w = s@.subrange(from as int, to as int);
    let mut lo = from;
    while lo < to && is_whitespace_char(s[lo])
        invariant
            from <= lo <= to <= s.len(),
            w == s@.subrange(from as int, to as int),
            leading_ws(w) == (lo - from) + leading_ws(s@.subrange(lo as int, to as int)),
        decreases to - lo,
    {
        assert(s@.subrange(lo as int, to as int).drop_first() =~= s@.subrange(lo + 1, to as int));
        lo = lo + 1;
    }
    assert(leading_ws(s@.subrange(lo as int, to as int)) == 0);
    let ghost t = w.skip(leading_ws(w) as int);
    assert(t =~= s@.subrange(lo as int, to as int));
    let mut hi = to;
    while hi > lo && is_whitespace_char(s[hi - 1])
        invariant
            from <= lo <= hi <= to <= s.len(),
            t == s@.subrange(lo as int, to as int),
            trailing_ws(t) == (to - hi) + trailing_ws(s@.subrange(lo as int, hi as int)),
        decreases hi - lo,
    {
        assert(s@.subrange(lo as int, hi as int).drop_last() =~= s@.subrange(lo as int, hi - 1));
        hi = hi - 1;
    }
    assert(trailing_ws(s@.subrange(lo as int, hi as int)) == 0);
    assert(t.take(t.len() - trailing_ws(t)) =~= s@.subrange(lo as int, hi as int));
    (lo, hi)
}

/// The value that `u64::from_str` gives for `t`: an optional `+` followed by at
/// least one ASCII digit, with a value that fits in 64 bits.
pub open spec fn parse_u64(t: Seq<char>) -> Option<nat> {
    let d = if t.len() > 0 && t[0] == '+' { t.drop_first() } else { t };
    if d.len() == 0 || !all_digits(d) || digits_value(d) > u64::MAX {
        None
    } else {
        Some(digits_value(d))
    }
}

proof fn lemma_digits_value_push(s: Seq<char>, c: char)
    ensures
        digits_value(s.push(c)) == digits_value(s) * 10 + digit_value(c),
{
    assert(s.push(c).drop_last() =~= s);
}

/// Parses `s[from..to]` as `u64::from_str` does.
pub fn parse_u64_range(s: &Vec<char>, from: usize, to: usize) -> (r: Option<u64>)
    requires
        from <= to <= s.len(),
    ensures
        match parse_u64(s@.subrange(from as int, to as int)) {
            Some(n) => r == Some(n as u64),
            None => r is None,
        },
{
    let ghost t = s@.subrange(from as int, to as int);
    let mut i = from;
    if i < to && s[i] == '+' {
        i = i + 1;
    }
    let ghost d = if t.len() > 0 && t[0] == '+' { t.drop_first() } else { t };
    assert(d =~= s@.subrange(i as int, to as int));
    if i == to {
        return None;
    }
    let start = i;
    let mut acc: u64 = 0;
    while i < to
        invariant
            from <= start <= i <= to <= s.len(),
            t == s@.subrange(from as int, to as int),
            d == (if t.len() > 0 && t[0] == '+' { t.drop_first() } else { t }),
            d == s@.subrange(start as int, to as int),
            all_digits(s@.subrange(start as int, i as int)),
            acc as nat == digits_value(s@.subrange(start as int, i as int)),
        decreases to - i,
    {
        let c = s[i];
        let ghost prefix = s@.subrange(start as int, i as int);
        proof {
            assert(s@.subrange(start as int, i + 1) =~= prefix.push(c));
            lemma_digits_value_push(prefix, c);
        }
        if !('0' <= c && c <= '9') {
            assert(d[i - start] == c);
            assert(!is_digit(d[i - start]));
            assert(!all_digits(d));
            return None;
        }
        let dv = (c as u32 - '0' as u32) as u64;
        if acc > (u64::MAX - dv) / 10 {
            proof {
                assert(d.take(i + 1 - start) =~= prefix.push(c));
                if all_digits(d) {
                    lemma_digits_prefix_bound(d, (i + 1 - start) as int);
                }
            }
            return None;
        }
        acc = acc * 10 + dv;
        i = i + 1;
        assert forall|j: int| 0 <= j < s@.subrange(start as int, i as int).len()
            implies is_digit(#[trigger] s@.subrange(start as int, i as int)[j]) by {
            if j < i - 1 - start {
                assert(s@.subrange(start as int, i as int)[j] == prefix[j]);
            }
        }
    }
    assert(s@.subrange(start as int, to as int) =~= d);
    Some(acc)
}

/// A digit string is worth at least as much as any of its prefixes.
proof fn lemma_digits_prefix_bound(d: Seq<char>, k: int)
    requires
        0 <= k <= d.len(),
        all_digits(d),
    ensures
        digits_value(d.take(k)) <= digits_value(d),
    decreases d.len() - k,
{
    if k < d.len() {
        lemma_digits_prefix_bound(d, k + 1);
        assert(d.take(k + 1).drop_last() =~= d.take(k));
        assert(digits_value(d.take(k + 1)) == digits_value(d.take(k + 1).drop_last()) * 10
            + digit_value(d.take(k + 1).last()));
    } else {
        assert(d.take(k) =~= d);
    }
}


/// A non-empty run of digits has no whitespace to trim.
pub proof fn lemma_trim_digits(s: Seq<char>)
    requires
        s.len() > 0,
        all_digits(s),
    ensures
        trim(s) == s,
{
    assert(is_digit(s[0]));
    assert(is_digit(s.last()));
    assert(leading_ws(s) == 0);
    assert(s.skip(0) =~= s);
    assert(trailing_ws(s) == 0);
    assert(s.take(s.len() as int) =~= s);
}

/// The decimal text of a `u64` value parses back to it.
pub proof fn lemma_parse_decimal(k: nat)
    requires
        k <= u64::MAX,
    ensures
        parse_u64(trim(decimal(k))) == Some(k),
{
    lemma_decimal(k);
    lemma_trim_digits(decimal(k));
    assert(is_digit(decimal(k)[0]));
}

} // verus!
