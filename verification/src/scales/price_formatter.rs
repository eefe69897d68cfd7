//! Price label formatting for the Y axis.
//!
//! The formatter configurations ([`DefaultPriceFormatter`], [`CurrencyFormatter`],
//! [`VolumeFormatter`], [`ScientificFormatter`]) and the fluent
//! [`PriceFormatterBuilder`] live here, together with the text rules that turn
//! a number already printed with a fixed count of decimals into the final label:
//! trimming trailing zeros, grouping thousands, and attaching a currency symbol.
use crate::text::{chars_of, push_char, push_str, string_from_chars};
use vstd::prelude::*;

verus! {

/// `s` with every trailing occurrence of `c` removed (as `str::trim_end_matches`).
pub open spec fn trim_end(s: Seq<char>, c: char) -> Seq<char>
    decreases s.len(),
{
    if s.len() > 0 && s.last() == c {
        trim_end(s.drop_last(), c)
    } else {
        s
    }
}

/// `s` with `sep` inserted between every group of three characters, counting
/// from the right.
pub open spec fn group_thousands(s: Seq<char>, sep: char) -> Seq<char>
    decreases s.len(),
{
    if s.len() <= 3 {
        s
    } else {
        group_thousands(s.take(s.len() - 3), sep) + seq![sep] + s.skip(s.len() - 3)
    }
}

/// `i` is the index of the first `'.'` of `s`, or its length if it has none.
pub open spec fn is_first_dot(s: Seq<char>, i: int) -> bool {
    &&& 0 <= i <= s.len()
    &&& forall|j: int| 0 <= j < i ==> s[j] != '.'
    &&& i < s.len() ==> s[i] == '.'
}

pub open spec fn first_dot(s: Seq<char>) -> int {
    choose|i: int| is_first_dot(s, i)
}

/// The integer part of a printed number grouped by thousands; a leading minus
/// sign stays in front and is not counted in a group.
pub open spec fn group_integer(s: Seq<char>, sep: char) -> Seq<char> {
    if s.len() > 0 && s[0] == '-' {
        seq!['-'] + group_thousands(s.skip(1), sep)
    } else {
        group_thousands(s, sep)
    }
}

/// A printed number with thousands separators in its integer part. The text
/// is split at its dots: the part before the first dot is grouped (after its
/// minus sign, if any), and the part between the first and a second dot, when
/// not empty, follows after a dot.
pub open spec fn with_thousands_separator(s: Seq<char>, sep: char) -> Seq<char> {
    let i = first_dot(s);
    let integer = s.take(i);
    if i == s.len() {
        group_integer(integer, sep)
    } else {
        let rest = s.skip(i + 1);
        let decimals = rest.take(first_dot(rest));
        if decimals.len() == 0 {
            group_integer(integer, sep)
        } else {
            group_integer(integer, sep) + "."@ + decimals
        }
    }
}

proof fn lemma_first_dot_unique(s: Seq<char>, i: int, k: int)
    requires
        is_first_dot(s, i),
        is_first_dot(s, k),
    ensures
        i == k,
{
    if i < k {
        assert(s[i] == '.');
    } else if k < i {
        assert(s[k] == '.');
    }
}

/// Index of the first `'.'` in `s[from..]`, or `s.len()`.
fn find_dot(s: &Vec<char>, from: usize) -> (r: usize)
    requires
        from <= s.len(),
    ensures
        from <= r <= s.len(),
        is_first_dot(s@.skip(from as int), r - from),
        first_dot(s@.skip(from as int)) == r - from,
{
    let mut i = from;
    while i < s.len() && s[i] != '.'
        invariant
            from <= i <= s.len(),
            forall|j: int| from <= j < i ==> s@[j] != '.',
        decreases s.len() - i,
    {
        i = i + 1;
    }
    proof {
        let t = s@.skip(from as int);
        assert(is_first_dot(t, i - from));
        lemma_first_dot_unique(t, i - from, first_dot(t));
    }
    i
}

/// Characters `s[from..to]` grouped by thousands.
fn group_range(s: &Vec<char>, from: usize, to: usize, sep: char) -> (r: Vec<char>)
    requires
        from <= to <= s.len(),
    ensures
        r@ == group_thousands(s@.subrange(from as int, to as int), sep),
    decreases to - from,
{
    if to - from <= 3 {
        let mut r: Vec<char> = Vec::new();
        let mut i = from;
        while i < to
            invariant
                from <= i <= to <= s.len(),
                r@ == s@.subrange(from as int, i as int),
            decreases to - i,
        {
            r.push(s[i]);
            i = i + 1;
            assert(r@ =~= s@.subrange(from as int, i as int));
        }
        r
    } else {
        let mut r = group_range(s, from, to - 3, sep);
        r.push(sep);
        r.push(s[to - 3]);
        r.push(s[to - 2]);
        r.push(s[to - 1]);
        proof {
            let w = s@.subrange(from as int, to as int);
            assert(w.take(w.len() - 3) =~= s@.subrange(from as int, to - 3));
            assert(w.skip(w.len() - 3) =~= seq![s@[to - 3], s@[to - 2], s@[to - 1]]);
            assert(r@ =~= group_thousands(w, sep));
        }
        r
    }
}

/// Inserts a thousands separator into a number printed with a fixed count of
/// decimals, e.g. `"1234567.89"` becomes `"1,234,567.89"` with `','`.
pub fn insert_thousands_separator(formatted: &str, sep: char) -> (r: String)
    ensures
        r@ == with_thousands_separator(formatted@, sep),
{
    let s = chars_of(formatted);
    let i = find_dot(&s, 0);
    assert(s@.skip(0) =~= s@);
    let mut out: Vec<char>;
    if s.len() > 0 && s[0] == '-' {
        assert(s@.skip(0)[0] != '.');
        let grouped = group_range(&s, 1, i, sep);
        out = vec!['-'];
        let mut k: usize = 0;
        while k < grouped.len()
            invariant
                k <= grouped@.len(),
                out@ == seq!['-'] + grouped@.take(k as int),
            decreases grouped@.len() - k,
        {
            out.push(grouped[k]);
            k = k + 1;
            assert(out@ =~= seq!['-'] + grouped@.take(k as int));
        }
        assert(grouped@.take(grouped@.len() as int) =~= grouped@);
        assert(s@.take(i as int).skip(1) =~= s@.subrange(1, i as int));
    } else {
        out = group_range(&s, 0, i, sep);
        assert(s@.subrange(0, i as int) =~= s@.take(i as int));
    }
    assert(out@ == group_integer(s@.take(i as int), sep));
    if i < s.len() {
        let j = find_dot(&s, i + 1);
        if j > i + 1 {
            out.push('.');
            let mut k = i + 1;
            let ghost g = out@;
            while k < j
                invariant
                    i + 1 <= k <= j <= s.len(),
                    out@ == g + s@.subrange(i + 1, k as int),
                decreases j - k,
            {
                out.push(s[k]);
                k = k + 1;
                assert(out@ =~= g + s@.subrange(i + 1, k as int));
            }
            proof {
                reveal_strlit(".");
                let rest = s@.skip(i + 1);
                assert(rest.take(j - (i + 1)) =~= s@.subrange(i + 1, j as int));
                assert(out@ =~= group_integer(s@.take(i as int), sep) + "."@ + rest.take(
                    j - (i + 1),
                ));
            }
        } else {
            assert(s@.skip(i + 1).take(first_dot(s@.skip(i + 1))).len() == 0);
        }
    }
    string_from_chars(&out)
}

/// Removes trailing `'0'` characters and then trailing `'.'` characters,
/// e.g. `"12.50000000"` becomes `"12.5"` and `"3.00"` becomes `"3"`.
pub fn trim_trailing_zeros(formatted: &str) -> (r: String)
    ensures
        r@ == trim_end(trim_end(formatted@, '0'), '.'),
{
    let s = chars_of(formatted);
    let mut end = s.len();
    assert(s@.take(end as int) =~= s@);
    while end > 0 && s[end - 1] == '0'
        invariant
            end <= s.len(),
            trim_end(s@, '0') == trim_end(s@.take(end as int), '0'),
        decreases end,
    {
        assert(s@.take(end as int).drop_last() =~= s@.take(end - 1));
        end = end - 1;
    }
    let ghost t = s@.take(end as int);
    assert(trim_end(t, '0') == t);
    let mut end2 = end;
    while end2 > 0 && s[end2 - 1] == '.'
        invariant
            end2 <= end <= s.len(),
            t == s@.take(end as int),
            trim_end(t, '.') == trim_end(s@.take(end2 as int), '.'),
        decreases end2,
    {
        assert(s@.take(end2 as int).drop_last() =~= s@.take(end2 - 1));
        end2 = end2 - 1;
    }
    assert(t.take(end as int) =~= t);
    let mut out: Vec<char> = Vec::new();
    let mut k: usize = 0;
    while k < end2
        invariant
            k <= end2 <= s.len(),
            out@ == s@.take(k as int),
        decreases end2 - k,
    {
        out.push(s[k]);
        k = k + 1;
        assert(out@ =~= s@.take(k as int));
    }
    string_from_chars(&out)
}

/// Default price formatter with configurable precision
#[derive(Debug, Clone)]
pub struct DefaultPriceFormatter {
    /// Number of decimal places
    pub precision: usize,
    /// Min number of decimal places (0 = auto)
    pub min_precision: usize,
}

impl Default for DefaultPriceFormatter {
    fn default() -> (r: Self)
        ensures
            r.precision == 2,
            r.min_precision == 0,
    {
        DefaultPriceFormatter { precision: 2, min_precision: 0 }
    }
}

impl DefaultPriceFormatter {
    /// Create formatter with fixed precision
    pub fn with_precision(precision: usize) -> (r: Self)
        ensures
            r.precision == precision,
            r.min_precision == precision,
    {
        DefaultPriceFormatter { precision, min_precision: precision }
    }

    /// Create formatter with auto precision (shows significant digits)
    pub fn auto() -> (r: Self)
        ensures
            r.precision == 8,
            r.min_precision == 0,
    {
        DefaultPriceFormatter { precision: 8, min_precision: 0 }
    }

    /// Final label for a price printed with `precision` decimals: kept as it is
    /// with a fixed precision; in auto mode (`min_precision == 0`) the zeros
    /// that end its decimals, then the dot if no decimal is left, are removed.
    /// A number printed without decimals keeps every digit.
    pub fn finish_label(&self, formatted: &str) -> (r: String)
        ensures
            r@ == if self.min_precision > 0 || !formatted@.contains('.') {
                formatted@
            } else {
                trim_end(trim_end(formatted@, '0'), '.')
            },
    {
        if self.min_precision > 0 {
            return formatted.to_owned();
        }
        let chars = chars_of(formatted);
        let i = find_dot(&chars, 0);
        proof {
            assert(chars@.skip(0) =~= chars@);
            if i < chars.len() {
                assert(formatted@[i as int] == '.');
            } else {
                assert forall|j: int| 0 <= j < formatted@.len() implies formatted@[j] != '.' by {
                    assert(chars@.skip(0)[j] == chars@[j]);
                }
            }
        }
        if i < chars.len() {
            trim_trailing_zeros(formatted)
        } else {
            formatted.to_owned()
        }
    }
}

/// Currency formatter with symbol
#[derive(Debug, Clone)]
pub struct CurrencyFormatter {
    /// Currency symbol (e.g., "$", "€", "£", "¥")
    pub symbol: String,
    /// Number of decimal places
    pub precision: usize,
    /// Whether to place symbol before or after price
    pub symbol_before: bool,
    /// Whether to add space between symbol and value
    pub add_space: bool,
    /// Thousands separator (e.g., "," for US, "." for EU)
    pub thousands_sep: Option<char>,
}

impl CurrencyFormatter {
    /// The label for a price printed with `precision` decimals.
    pub open spec fn spec_label(&self, formatted: Seq<char>) -> Seq<char> {
        let value = match self.thousands_sep {
            Some(sep) => with_thousands_separator(formatted, sep),
            None => formatted,
        };
        let space = if self.add_space { " "@ } else { Seq::<char>::empty() };
        if self.symbol_before {
            self.symbol@ + space + value
        } else {
            value + space + self.symbol@
        }
    }

    /// Create USD formatter
    pub fn usd() -> (r: Self)
        ensures
            r.symbol@ == "$"@,
            r.precision == 2,
            r.symbol_before,
            !r.add_space,
            r.thousands_sep == Some(','),
    {
        CurrencyFormatter {
            symbol: "$".to_owned(),
            precision: 2,
            symbol_before: true,
            add_space: false,
            thousands_sep: Some(','),
        }
    }

    /// Create EUR formatter
    pub fn eur() -> (r: Self)
        ensures
            r.symbol@ == "€"@,
            r.precision == 2,
            !r.symbol_before,
            r.add_space,
            r.thousands_sep == Some('.'),
    {
        CurrencyFormatter {
            symbol: "€".to_owned(),
            precision: 2,
            symbol_before: false,
            add_space: true,
            thousands_sep: Some('.'),
        }
    }

    /// Create BTC formatter
    pub fn btc() -> (r: Self)
        ensures
            r.symbol@ == "₿"@,
            r.precision == 8,
            !r.symbol_before,
            r.add_space,
            r.thousands_sep == Some(','),
    {
        CurrencyFormatter {
            symbol: "₿".to_owned(),
            precision: 8,
            symbol_before: false,
            add_space: true,
            thousands_sep: Some(','),
        }
    }

    /// Create custom currency formatter
    pub fn new(symbol: &str, precision: usize) -> (r: Self)
        ensures
            r.symbol@ == symbol@,
            r.precision == precision,
            r.symbol_before,
            !r.add_space,
            r.thousands_sep == Some(','),
    {
        CurrencyFormatter {
            symbol: symbol.to_owned(),
            precision,
            symbol_before: true,
            add_space: false,
            thousands_sep: Some(','),
        }
    }

    /// Final label for a price printed with `precision` decimals: grouped by
    /// thousands when a separator is set, with the symbol before or after it.
    pub fn finish_label(&self, formatted: &str) -> (r: String)
        ensures
            r@ == self.spec_label(formatted@),
    {
        let value = match self.thousands_sep {
            Some(sep) => insert_thousands_separator(formatted, sep),
            None => formatted.to_owned(),
        };
        let space = if self.add_space { " " } else { "" };
        proof {
            reveal_strlit("");
            assert(""@ =~= Seq::<char>::empty());
        }
        if self.symbol_before {
            let mut r = self.symbol.clone();
            push_str(&mut r, space);
            push_str(&mut r, value.as_str());
            r
        } else {
            let mut r = value;
            push_str(&mut r, space);
            push_str(&mut r, self.symbol.as_str());
            r
        }
    }
}

/// Volume formatter (K, M, B suffixes)
#[derive(Debug, Clone)]
pub struct VolumeFormatter {
    /// Number of decimal places
    pub precision: usize,
}

impl Default for VolumeFormatter {
    fn default() -> (r: Self)
        ensures
            r.precision == 2,
    {
        VolumeFormatter { precision: 2 }
    }
}

/// Scientific notation formatter
#[derive(Debug, Clone)]
pub struct ScientificFormatter {
    /// Number of significant digits
    pub precision: usize,
}

impl Default for ScientificFormatter {
    fn default() -> (r: Self)
        ensures
            r.precision == 3,
    {
        ScientificFormatter { precision: 3 }
    }
}

/// The formatter that a [`PriceFormatterBuilder`] builds.
#[derive(Debug, Clone)]
pub enum PriceFormatterKind {
    /// Percentage change from a base of 100.
    Percentage { precision: usize },
    /// Volume with K/M/B suffixes.
    Volume { precision: usize },
    /// Currency with the given symbol (see [`CurrencyFormatter::new`]).
    Currency { symbol: String, precision: usize },
    /// Fixed precision (see [`DefaultPriceFormatter::with_precision`]).
    Fixed { precision: usize },
}

/// Builder for creating price formatters
pub struct PriceFormatterBuilder {
    precision: usize,
    currency: Option<String>,
    percentage: bool,
    volume: bool,
}

impl PriceFormatterBuilder {
    pub closed spec fn spec_precision(&self) -> usize {
        self.precision
    }

    pub closed spec fn spec_currency(&self) -> Option<Seq<char>> {
        match self.currency {
            Some(s) => Some(s@),
            None => None,
        }
    }

    pub closed spec fn spec_percentage(&self) -> bool {
        self.percentage
    }

    pub closed spec fn spec_volume(&self) -> bool {
        self.volume
    }

    /// Create a new formatter builder
    pub fn new() -> (r: Self)
        ensures
            r.spec_precision() == 2,
            r.spec_currency() is None,
            !r.spec_percentage(),
            !r.spec_volume(),
    {
        PriceFormatterBuilder { precision: 2, currency: None, percentage: false, volume: false }
    }

    /// Set precision
    pub fn with_precision(self, precision: usize) -> (r: Self)
        ensures
            r.spec_precision() == precision,
            r.spec_currency() == self.spec_currency(),
            r.spec_percentage() == self.spec_percentage(),
            r.spec_volume() == self.spec_volume(),
    {
        let mut b = self;
        b.precision = precision;
        b
    }

    /// Set currency symbol
    pub fn with_currency(self, symbol: &str) -> (r: Self)
        ensures
            r.spec_precision() == self.spec_precision(),
            r.spec_currency() == Some(symbol@),
            r.spec_percentage() == self.spec_percentage(),
            r.spec_volume() == self.spec_volume(),
    {
        let mut b = self;
        b.currency = Some(symbol.to_owned());
        b
    }

    /// Enable percentage formatting
    pub fn as_percentage(self) -> (r: Self)
        ensures
            r.spec_precision() == self.spec_precision(),
            r.spec_currency() == self.spec_currency(),
            r.spec_percentage(),
            r.spec_volume() == self.spec_volume(),
    {
        let mut b = self;
        b.percentage = true;
        b
    }

    /// Enable volume formatting
    pub fn as_volume(self) -> (r: Self)
        ensures
            r.spec_precision() == self.spec_precision(),
            r.spec_currency() == self.spec_currency(),
            r.spec_percentage() == self.spec_percentage(),
            r.spec_volume(),
    {
        let mut b = self;
        b.volume = true;
        b
    }

    /// Which formatter to build: percentage wins over volume, volume over a
    /// currency symbol, and with none of them a fixed-precision formatter.
    pub fn kind(self) -> (r: PriceFormatterKind)
        ensures
            self.spec_percentage() ==> r == (PriceFormatterKind::Percentage {
                precision: self.spec_precision(),
            }),
            !self.spec_percentage() && self.spec_volume() ==> r == (PriceFormatterKind::Volume {
                precision: self.spec_precision(),
            }),
            !self.spec_percentage() && !self.spec_volume() && self.spec_currency() is Some ==> (
            r matches PriceFormatterKind::Currency { symbol, precision } && symbol@
                == self.spec_currency()->Some_0 && precision == self.spec_precision()),
            !self.spec_percentage() && !self.spec_volume() && self.spec_currency() is None ==> r
                == (PriceFormatterKind::Fixed { precision: self.spec_precision() }),
    {
        if self.percentage {
            PriceFormatterKind::Percentage { precision: self.precision }
        } else if self.volume {
            PriceFormatterKind::Volume { precision: self.precision }
        } else {
            match self.currency {
                Some(symbol) => PriceFormatterKind::Currency { symbol, precision: self.precision },
                None => PriceFormatterKind::Fixed { precision: self.precision },
            }
        }
    }
}

} // verus!
