//! Where things stand on the terminal.

use vstd::prelude::*;
use vstd::utf8::encode_utf8;

verus! {

/// A rectangle of cells.
#[derive(Debug, Clone, Copy, PartialEq, Eq, Structural)]
pub struct Area {
    pub x: u16,
    pub y: u16,
    pub width: u16,
    pub height: u16,
}

/// Where something of `size` begins when it is centred on `len` cells from `start`. What is
/// too large begins at `start`.
pub open spec fn centre(start: u16, len: u16, size: u16) -> int {
    if size < len {
        start + (len - size) / 2
    } else {
        start as int
    }
}

pub open spec fn at_most(size: u16, len: u16) -> u16 {
    if size < len {
        size
    } else {
        len
    }
}

/// A box of `width` by `height`, cut to the area and centred in it.
pub open spec fn centred_box(area: Area, width: u16, height: u16) -> Area {
    Area {
        x: centre(area.x, area.width, width) as u16,
        y: centre(area.y, area.height, height) as u16,
        width: at_most(width, area.width),
        height: at_most(height, area.height),
    }
}

/// The cells that are set aside for a text: its bytes, as a 16-bit number.
pub open spec fn cells(text: Seq<char>) -> u16 {
    (encode_utf8(text).len() % 0x10000) as u16
}

/// One row for a text, centred in the area.
pub open spec fn centred_line(area: Area, text: Seq<char>, row: int) -> Area {
    Area {
        x: centre(area.x, area.width, cells(text)) as u16,
        y: row as u16,
        width: at_most(cells(text), area.width),
        height: 1,
    }
}

/// The row for a notice: the last but one.
pub open spec fn notice_row(area: Area) -> Area {
    Area {
        x: 0,
        y: if area.height < 2 {
            0
        } else {
            (area.height - 2) as u16
        },
        width: area.width,
        height: 1,
    }
}

pub fn centred_at(start: u16, len: u16, size: u16) -> (r: u16)
    requires
        centre(start, len, size) <= u16::MAX,
    ensures
        r == centre(start, len, size),
{
    if size < len {
        start + (len - size) / 2
    } else {
        start
    }
}

pub fn cut(size: u16, len: u16) -> (r: u16)
    ensures
        r == at_most(size, len),
{
    if size < len {
        size
    } else {
        len
    }
}

pub fn centred(area: Area, width: u16, height: u16) -> (r: Area)
    requires
        centre(area.x, area.width, width) <= u16::MAX,
        centre(area.y, area.height, height) <= u16::MAX,
    ensures
        r == centred_box(area, width, height),
{
    Area {
        x: centred_at(area.x, area.width, width),
        y: centred_at(area.y, area.height, height),
        width: cut(width, area.width),
        height: cut(height, area.height),
    }
}

pub fn text_cells(text: &str) -> (r: u16)
    ensures
        r == cells(text@),
{
    let n: usize = text.as_bytes().len();
    (n % 0x10000) as u16
}

pub fn text_line(area: Area, text: &str, row: u16) -> (r: Area)
    requires
        centre(area.x, area.width, cells(text@)) <= u16::MAX,
    ensures
        r == centred_line(area, text@, row as int),
{
    let n: u16 = text_cells(text);
    Area { x: centred_at(area.x, area.width, n), y: row, width: cut(n, area.width), height: 1 }
}

pub fn notice(area: Area) -> (r: Area)
    ensures
        r == notice_row(area),
{
    let y: u16 = if area.height < 2 {
        0
    } else {
        area.height - 2
    };
    Area { x: 0, y, width: area.width, height: 1 }
}

/// A centred box lies inside its area, with at most one cell more on the far side.
pub proof fn law_centred_box_is_inside(area: Area, width: u16, height: u16)
    requires
        area.x + area.width <= u16::MAX,
        area.y + area.height <= u16::MAX,
    ensures
        ({
            let b = centred_box(area, width, height);
            let left = b.x - area.x;
            let right = area.x + area.width - (b.x + b.width);
            let above = b.y - area.y;
            let below = area.y + area.height - (b.y + b.height);
            &&& 0 <= left <= right <= left + 1
            &&& 0 <= above <= below <= above + 1
        }),
{
}

} // verus!
