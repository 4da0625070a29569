//! The cursor: a (row, column) position in the text buffer, moved by the
//! four arrow keys, and its resolution to a fixed-point pixel position.
//!
//! Per frame at most one directional adjustment is applied, in the fixed
//! priority order Left, Right, Up, Down.  Every move is clamped at the
//! buffer's edges rather than failing.  Up and Down deliberately do not
//! clamp the column to the new line's length, so the column may exceed it
//! transiently; pixel resolution caps the column at the line length.

use vstd::prelude::*;
use crate::fixed::{Fx, Fx3};
use crate::text::TextBuffer;

verus! {

/// Which of the four directional keys are held this frame.
#[derive(Clone, Copy, PartialEq, Eq, Structural, Debug)]
pub struct ArrowKeys {
    pub left: bool,
    pub right: bool,
    pub up: bool,
    pub down: bool,
}

impl ArrowKeys {
    /// No key held.
    pub fn none() -> (r: ArrowKeys)
        ensures
            r == (ArrowKeys { left: false, right: false, up: false, down: false }),
    {
        ArrowKeys { left: false, right: false, up: false, down: false }
    }

    /// Whether any directional key is held.
    pub open spec fn any(self) -> bool {
        self.left || self.right || self.up || self.down
    }

    /// Whether any directional key is held.
    pub fn any_pressed(self) -> (r: bool)
        ensures
            r == self.any(),
    {
        self.left || self.right || self.up || self.down
    }
}

/// The row after one frame of navigation: Up and Down move it one step,
/// clamped at the first and the last row; a held Left or Right takes
/// priority and leaves the row alone.
pub open spec fn nav_row(row: int, nrows: int, k: ArrowKeys) -> int {
    if k.left || k.right {
        row
    } else if k.up {
        if row > 0 {
            row - 1
        } else {
            row
        }
    } else if k.down {
        if row + 1 < nrows {
            row + 1
        } else {
            row
        }
    } else {
        row
    }
}

/// The column after one frame of navigation: Left and Right move it one
/// step, clamped at zero and at the current line's length (`rowlen`).
pub open spec fn nav_col(col: int, rowlen: int, k: ArrowKeys) -> int {
    if k.left {
        if col > 0 {
            col - 1
        } else {
            col
        }
    } else if k.right {
        if col < rowlen {
            col + 1
        } else {
            col
        }
    } else {
        col
    }
}

/// The cursor's pixel x coordinate, in raw fixed-point units: one fixed
/// advance of 18 units per character left of the cursor, capped at the
/// line's end.
pub open spec fn cursor_x_raw(col: int, rowlen: int) -> int {
    (if col <= rowlen {
        col
    } else {
        rowlen
    }) * 18_000_000
}

/// The cursor's pixel y coordinate, in raw fixed-point units: text flows
/// downward from the origin in lines 18 units tall, with the cursor
/// vertically centered on its line.
pub open spec fn cursor_y_raw(row: int) -> int {
    -(18 * row + 9) * 1_000_000
}

/// Law: the cursor's pixel y coordinate is monotonically non-increasing
/// as the row increases.
pub proof fn lemma_cursor_y_monotonic(r1: int, r2: int)
    requires
        0 <= r1 <= r2,
    ensures
        cursor_y_raw(r2) <= cursor_y_raw(r1),
{
}

/// Law: a directional key whose move is already at its boundary leaves the
/// cursor exactly where it was: Left at column zero, Right at the end of
/// the line, Up at the first row, Down at the last row.  (A key is only
/// effective when no earlier key in the priority order is held.)
pub proof fn lemma_navigation_boundary_noop(row: int, col: int, rowlen: int, nrows: int, k: ArrowKeys)
    ensures
        k.left && col == 0 ==> nav_col(col, rowlen, k) == col,
        !k.left && k.right && col == rowlen ==> nav_col(col, rowlen, k) == col,
        !k.left && !k.right && k.up && row == 0 ==> nav_row(row, nrows, k) == row,
        !k.left && !k.right && !k.up && k.down && row == nrows - 1 ==> nav_row(row, nrows, k)
            == row,
        nav_row(row, nrows, k) == row || nav_col(col, rowlen, k) == col,
{
}

/// The cursor and, beside it, the per-frame scale velocity of the camera's
/// follow filter (the one piece of camera state that lives with the cursor
/// rather than in the transform).
pub struct TextEditor {
    pub row: usize,
    pub column: usize,
    pub camera_scale_velocity: Fx3,
}

impl TextEditor {
    /// The cursor points at a row of the buffer.
    pub open spec fn in_buffer(&self, lines: Seq<Seq<char>>) -> bool {
        self.row < lines.len()
    }

    /// The startup cursor: row zero, column zero, no scale velocity.
    pub fn new() -> (r: TextEditor)
        ensures
            r.row == 0,
            r.column == 0,
            r.camera_scale_velocity.x.raw == 0,
            r.camera_scale_velocity.y.raw == 0,
            r.camera_scale_velocity.z.raw == 0,
    {
        TextEditor { row: 0, column: 0, camera_scale_velocity: Fx3::zero() }
    }

    /// Applies at most one directional move, in the priority order Left,
    /// Right, Up, Down, each clamped at the buffer's edge.
    pub fn navigate(&mut self, buf: &TextBuffer, keys: ArrowKeys)
        requires
            old(self).in_buffer(buf@),
        ensures
            final(self).row == nav_row(old(self).row as int, buf@.len() as int, keys),
            final(self).column == nav_col(
                old(self).column as int,
                buf@[old(self).row as int].len() as int,
                keys,
            ),
            final(self).camera_scale_velocity == old(self).camera_scale_velocity,
            final(self).in_buffer(buf@),
    {
        if keys.left {
            if self.column > 0 {
                self.column = self.column - 1;
            }
        } else if keys.right {
            let rowlen = buf.line_len(self.row);
            if self.column < rowlen {
                self.column = self.column + 1;
            }
        } else if keys.up {
            if self.row > 0 {
                self.row = self.row - 1;
            }
        } else if keys.down {
            let nrows = buf.line_count();
            if self.row + 1 < nrows {
                self.row = self.row + 1;
            }
        }
    }

    /// The cursor's pixel position: `x` advances 18 units per character up
    /// to the cursor's column, capped at the line's end; `y` centers the
    /// cursor on its line, 18 units per row downward from the origin.
    pub fn pixel_position(&self, buf: &TextBuffer) -> (r: Fx3)
        requires
            self.in_buffer(buf@),
            buf.wf(),
        ensures
            r.x.raw == cursor_x_raw(self.column as int, buf@[self.row as int].len() as int),
            r.y.raw == cursor_y_raw(self.row as int),
            r.z.raw == 0,
    {
        let rowlen = buf.line_len(self.row);
        let capped: usize = if self.column <= rowlen {
            self.column
        } else {
            rowlen
        };
        let x_raw: i64 = (capped as i64) * 18_000_000;
        let y_raw: i64 = -((self.row as i64) * 18_000_000 + 9_000_000);
        Fx3::new(Fx::from_raw(x_raw), Fx::from_raw(y_raw), Fx::zero())
    }
}

} // verus!
