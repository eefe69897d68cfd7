//! Price scale modes.
//!
//! | Mode            | Axis labels             | Use case                         |
//! |-----------------|-------------------------|----------------------------------|
//! | Normal          | Absolute prices         | Default for most instruments     |
//! | Logarithmic     | Log-spaced prices       | Long-term trends, large ranges   |
//! | Percentage      | `+5.2%`, `-3.1%`        | Comparing relative performance   |
//! | IndexedTo100    | Rebased to 100          | Portfolio benchmarking           |
use crate::text::{ascii_lower, chars_eq_str, chars_of, fold_case, folded, push_str};
use std::str::FromStr;
use vstd::prelude::*;

verus! {

/// Scaling mode for the price (Y) axis.
///
/// Determines how raw price values are transformed before being mapped to
/// pixel coordinates.  The default is [`Normal`](PriceScaleMode::Normal).
#[derive(Debug, Clone, Copy, PartialEq, Eq, Hash, Structural)]
pub enum PriceScaleMode {
    /// Price scale shows prices. Price range changes linearly.
    Normal,
    /// Price scale shows prices. Price range changes logarithmically.
    Logarithmic,
    /// Price scale shows percentage values according to the first visible value.
    /// The first visible value is 0% in this mode.
    Percentage,
    /// The same as percentage mode, but the first value is moved to 100.
    IndexedTo100,
}

impl PriceScaleMode {
    pub open spec fn spec_display_name(self) -> Seq<char> {
        match self {
            PriceScaleMode::Normal => "Normal"@,
            PriceScaleMode::Logarithmic => "Logarithmic"@,
            PriceScaleMode::Percentage => "Percentage"@,
            PriceScaleMode::IndexedTo100 => "Indexed to 100"@,
        }
    }

    /// The mode named by a lower-cased string, if any.
    pub open spec fn spec_parse_lower(l: Seq<char>) -> Option<PriceScaleMode> {
        if l == "normal"@ {
            Some(PriceScaleMode::Normal)
        } else if l == "logarithmic"@ || l == "log"@ {
            Some(PriceScaleMode::Logarithmic)
        } else if l == "percentage"@ || l == "percent"@ || l == "%"@ {
            Some(PriceScaleMode::Percentage)
        } else if l == "indexedto100"@ || l == "indexed to 100"@ || l == "indexed"@ {
            Some(PriceScaleMode::IndexedTo100)
        } else {
            None
        }
    }

    /// Human-readable name of the mode.
    pub fn display_name(&self) -> (r: &'static str)
        ensures
            r@ == self.spec_display_name(),
    {
        match self {
            PriceScaleMode::Normal => "Normal",
            PriceScaleMode::Logarithmic => "Logarithmic",
            PriceScaleMode::Percentage => "Percentage",
            PriceScaleMode::IndexedTo100 => "Indexed to 100",
        }
    }

    /// Text shown when this value is displayed.
    pub fn to_string(&self) -> (r: String)
        ensures
            r@ == self.spec_display_name(),
    {
        self.display_name().to_owned()
    }

    fn parse_lowercase(l: &Vec<char>) -> (r: Option<PriceScaleMode>)
        ensures
            r == Self::spec_parse_lower(l@),
    {
        if chars_eq_str(l, "normal") {
            Some(PriceScaleMode::Normal)
        } else if chars_eq_str(l, "logarithmic") || chars_eq_str(l, "log") {
            Some(PriceScaleMode::Logarithmic)
        } else if chars_eq_str(l, "percentage") || chars_eq_str(l, "percent") || chars_eq_str(l, "%") {
            Some(PriceScaleMode::Percentage)
        } else if chars_eq_str(l, "indexedto100") || chars_eq_str(l, "indexed to 100")
            || chars_eq_str(l, "indexed") {
            Some(PriceScaleMode::IndexedTo100)
        } else {
            None
        }
    }

    /// Parses a mode name, ignoring case (`"log"`, `"percent"`, `"indexed"`, ...).
    ///
    /// Fails with `Invalid price scale mode: <s>` for any other string.
    pub fn parse_str(s: &str) -> (r: Result<PriceScaleMode, String>)
        ensures
            match Self::spec_parse_lower(folded(s@)) {
                Some(m) => r == Ok::<PriceScaleMode, String>(m),
                None => r is Err && r->Err_0@ == "Invalid price scale mode: "@ + s@,
            },
    {
        let lower = fold_case(s);
        let chars = chars_of(lower.as_str());
        match Self::parse_lowercase(&chars) {
            Some(m) => Ok(m),
            None => {
                let mut msg = "Invalid price scale mode: ".to_owned();
                push_str(&mut msg, s);
                Err(msg)
            },
        }
    }
}

impl Default for PriceScaleMode {
    fn default() -> (r: Self)
        ensures
            r == PriceScaleMode::Normal,
    {
        PriceScaleMode::Normal
    }
}

impl FromStr for PriceScaleMode {
    type Err = String;

    fn from_str(s: &str) -> (r: Result<Self, Self::Err>)
        ensures
            match Self::spec_parse_lower(folded(s@)) {
                Some(m) => r == Ok::<PriceScaleMode, String>(m),
                None => r is Err && r->Err_0@ == "Invalid price scale mode: "@ + s@,
            },
    {
        PriceScaleMode::parse_str(s)
    }
}

/// Every mode's display name parses back to the mode: `from_str` of
/// `to_string` gives the mode.
pub proof fn display_name_parses_back(m: PriceScaleMode)
    ensures
        PriceScaleMode::spec_parse_lower(folded(m.spec_display_name())) == Some(m),
{
    reveal_strlit("Normal");
    reveal_strlit("normal");
    reveal_strlit("Logarithmic");
    reveal_strlit("logarithmic");
    reveal_strlit("Percentage");
    reveal_strlit("percentage");
    reveal_strlit("Indexed to 100");
    reveal_strlit("indexed to 100");
    reveal_strlit("log");
    reveal_strlit("percent");
    reveal_strlit("%");
    reveal_strlit("indexedto100");
    reveal_strlit("indexed");
    let name = m.spec_display_name();
    let expected: Seq<char> = match m {
        PriceScaleMode::Normal => "normal"@,
        PriceScaleMode::Logarithmic => "logarithmic"@,
        PriceScaleMode::Percentage => "percentage"@,
        PriceScaleMode::IndexedTo100 => "indexed to 100"@,
    };
    assert(vstd::utf8::is_ascii_chars(name));
    assert(ascii_lower(name) =~= expected);
}

} // verus!
