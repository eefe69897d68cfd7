//! Point & Figure column direction.
//!
//! A P&F chart alternates rising columns of Xs and falling columns of Os.
use vstd::prelude::*;

verus! {

/// Direction of a P&F column.
#[derive(Debug, Clone, Copy, PartialEq, Eq, Hash, Structural)]
pub enum ColumnDirection {
    /// Rising column (Xs)
    Up,
    /// Falling column (Os)
    Down,
}

} // verus!
