//! Trading symbol identification.
//!
//! A lightweight symbol handle used throughout the chart engine to identify
//! which financial instrument is being displayed or subscribed to.
use vstd::prelude::*;

verus! {

/// Represents a trading symbol (financial instrument identifier).
///
/// A `Symbol` is the canonical way to reference a tradable instrument in the chart
/// engine. It pairs a machine-readable `name` (e.g. `"BTCUSDT"`, `"AAPL"`) with a
/// human-readable `display_name` (e.g. `"Bitcoin / Tether"`, `"Apple Inc."`).
///
/// The `active` flag indicates whether the symbol is currently subscribed to a
/// live data feed. Symbols default to active on creation.
#[derive(Debug, Clone)]
pub struct Symbol {
    /// Machine-readable symbol identifier (e.g. `"AAPL"`, `"BTCUSDT"`).
    pub name: String,
    /// Human-readable display name (e.g. `"Apple Inc."`, `"Bitcoin / Tether"`).
    pub display_name: String,
    /// Whether this symbol is actively subscribed to a data feed.
    pub active: bool,
}

impl Symbol {
    /// Creates a new active symbol with the given name and display name.
    pub fn new(name: &str, display_name: &str) -> (r: Self)
        ensures
            r.name@ == name@,
            r.display_name@ == display_name@,
            r.active,
    {
        Symbol { name: name.to_owned(), display_name: display_name.to_owned(), active: true }
    }
}

} // verus!
