//! Kagi line thickness.
//!
//! Kagi charts switch between thick and thin lines as price breaks the
//! previous shoulder or waist, encoding the trend state.
use vstd::prelude::*;

verus! {

/// Kagi line thickness, encoding the current trend direction.
#[derive(Debug, Clone, Copy, PartialEq, Eq, Hash, Structural)]
pub enum KagiThickness {
    /// Thin line -- downtrend (Yang).
    Thin,
    /// Thick line -- uptrend (Yin).
    Thick,
}

} // verus!
