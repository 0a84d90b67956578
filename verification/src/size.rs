//! Terminal dimensions with a floor of one row and one column.

use vstd::prelude::*;

verus! {

/// Rows and columns of a terminal; both are at least 1 for every value made by
/// [`TerminalSize::new`].
#[derive(Clone, Copy, Debug, PartialEq, Eq, Structural)]
pub struct TerminalSize {
    pub rows: u16,
    pub cols: u16,
}

/// The larger of `value` and 1.
pub open spec fn at_least_one(value: u16) -> u16 {
    if value == 0 {
        1
    } else {
        value
    }
}

impl TerminalSize {
    /// Both dimensions are at least 1.
    pub open spec fn wf(self) -> bool {
        self.rows >= 1 && self.cols >= 1
    }

    /// Builds a size, raising a zero dimension to 1.
    pub fn new(rows: u16, cols: u16) -> (size: Self)
        ensures
            size.rows == at_least_one(rows),
            size.cols == at_least_one(cols),
            size.wf(),
    {
        TerminalSize { rows: if rows == 0 { 1 } else { rows }, cols: if cols == 0 { 1 } else { cols } }
    }
}

} // verus!
