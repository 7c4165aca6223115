//! Terminal sizes.

use vstd::prelude::*;

use crate::input::Rect;

verus! {

/// A terminal size in cells; never empty.
#[derive(Clone, Copy, Debug, PartialEq, Eq, Structural)]
pub struct TerminalGeometry {
    cols: u16,
    rows: u16,
}

impl TerminalGeometry {
    #[verifier::type_invariant]
    spec fn holds_a_cell(self) -> bool {
        self.cols > 0 && self.rows > 0
    }

    /// The columns and rows.
    pub closed spec fn size(self) -> (u16, u16) {
        (self.cols, self.rows)
    }

    /// A size, unless it would hold no cell.
    pub fn new(cols: u16, rows: u16) -> (r: Option<Self>)
        ensures
            r is Some <==> cols > 0 && rows > 0,
            r is Some ==> r->0.size() == (cols, rows),
    {
        if cols == 0 || rows == 0 {
            None
        } else {
            Some(TerminalGeometry { cols, rows })
        }
    }

    /// The size of a pane; an empty side counts as one cell.
    pub fn from_pane(area: Rect) -> (r: Self)
        ensures
            r.size() == (
                if area.width == 0 {
                    1
                } else {
                    area.width
                },
                if area.height == 0 {
                    1
                } else {
                    area.height
                },
            ),
    {
        TerminalGeometry {
            cols: if area.width == 0 {
                1
            } else {
                area.width
            },
            rows: if area.height == 0 {
                1
            } else {
                area.height
            },
        }
    }

    /// The columns, at least one.
    pub fn cols(self) -> (r: u16)
        ensures
            r == self.size().0,
            r > 0,
    {
        proof {
            use_type_invariant(&self);
        }
        self.cols
    }

    /// The rows, at least one.
    pub fn rows(self) -> (r: u16)
        ensures
            r == self.size().1,
            r > 0,
    {
        proof {
            use_type_invariant(&self);
        }
        self.rows
    }
}

/// The size of a terminal that reports none.
impl Default for TerminalGeometry {
    fn default() -> (r: Self)
        ensures
            r.size() == (80u16, 24u16),
    {
        TerminalGeometry { cols: 80, rows: 24 }
    }
}

} // verus!
