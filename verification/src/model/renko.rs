//! Renko brick direction.
//!
//! Renko charts plot uniform-sized bricks, each one brick size above or
//! below the previous one; a brick is either rising or falling.
use vstd::prelude::*;

verus! {

/// Direction of a Renko brick.
#[derive(Debug, Clone, Copy, PartialEq, Eq, Hash, Structural)]
pub enum RenkoDirection {
    /// Bullish brick (price moved up by one brick size).
    Up,
    /// Bearish brick (price moved down by one brick size).
    Down,
}

} // verus!
