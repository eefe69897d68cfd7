//! Real-time quote types: trade sides and quote-source errors.
use crate::text::push_str;
use vstd::prelude::*;

verus! {

/// Side of a trade (buy or sell aggressor).
///
/// Indicates whether a trade was initiated by a buyer lifting the offer
/// or a seller hitting the bid. This is essential for computing delta
/// (buy volume minus sell volume) in footprint and order-flow analysis.
#[derive(Debug, Clone, Copy, PartialEq, Eq, Hash, Structural)]
pub enum TradeSide {
    /// Buy side (aggressor was buyer)
    Buy,
    /// Sell side (aggressor was seller)
    Sell,
    /// Unknown/unclassified
    Unknown,
}

/// Error returned by quote, order-book and tick sources.
#[derive(Debug, Clone)]
pub enum QuoteSourceError {
    /// Symbol not found or invalid
    InvalidSymbol(String),
    /// Conn error
    ConnError(String),
    /// Subscription limit reached
    SubscriptionLimitReached,
    /// General error
    Other(String),
}

impl QuoteSourceError {
    /// The message shown for this error.
    pub open spec fn spec_message(&self) -> Seq<char> {
        match self {
            QuoteSourceError::InvalidSymbol(s) => "Invalid symbol: "@ + s@,
            QuoteSourceError::ConnError(e) => "Conn error: "@ + e@,
            QuoteSourceError::SubscriptionLimitReached => "Subscription limit reached"@,
            QuoteSourceError::Other(e) => "Error: "@ + e@,
        }
    }

    /// The message shown for this error.
    pub fn to_string(&self) -> (r: String)
        ensures
            r@ == self.spec_message(),
    {
        match self {
            QuoteSourceError::InvalidSymbol(s) => {
                let mut m = "Invalid symbol: ".to_owned();
                push_str(&mut m, s.as_str());
                m
            },
            QuoteSourceError::ConnError(e) => {
                let mut m = "Conn error: ".to_owned();
                push_str(&mut m, e.as_str());
                m
            },
            QuoteSourceError::SubscriptionLimitReached => "Subscription limit reached".to_owned(),
            QuoteSourceError::Other(e) => {
                let mut m = "Error: ".to_owned();
                push_str(&mut m, e.as_str());
                m
            },
        }
    }
}

} // verus!
