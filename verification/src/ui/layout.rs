//! Where a laid-out box is painted on the terminal.

use vstd::prelude::*;

verus! {

/// A rectangle of terminal cells.
#[derive(Clone, Copy, Debug, PartialEq, Eq, Structural)]
pub struct CellRect {
    pub x: u16,
    pub y: u16,
    pub width: u16,
    pub height: u16,
}

/// The rectangle of a box placed at `location` inside its parent at
/// `offset`, of size `width` × `height` (all in cells).
pub fn node_rect(offset_x: u16, offset_y: u16, loc_x: u16, loc_y: u16, width: u16, height: u16) -> (r: CellRect)
    requires
        offset_x + loc_x <= u16::MAX,
        offset_y + loc_y <= u16::MAX,
    ensures
        r == (CellRect { x: (offset_x + loc_x) as u16, y: (offset_y + loc_y) as u16, width, height }),
{
    CellRect { x: offset_x + loc_x, y: offset_y + loc_y, width, height }
}

/// Where a box's text goes: inside the border when it has one.
pub fn content_rect(r: CellRect, borders: bool) -> (c: CellRect)
    requires
        borders ==> r.x < u16::MAX && r.y < u16::MAX,
    ensures
        borders ==> c == (CellRect {
            x: (r.x + 1) as u16,
            y: (r.y + 1) as u16,
            width: if r.width >= 2 { (r.width - 2) as u16 } else { 0 },
            height: if r.height >= 2 { (r.height - 2) as u16 } else { 0 },
        }),
        !borders ==> c == r,
{
    if borders {
        CellRect {
            x: r.x + 1,
            y: r.y + 1,
            width: r.width.saturating_sub(2),
            height: r.height.saturating_sub(2),
        }
    } else {
        r
    }
}

} // verus!
