//! The layout engine: splits the terminal area into a header band, a list
//! pane, a detail pane and a footer band, all spanning the full width.
//!
//! The header takes up to 2 rows, the footer up to 1 of what the header
//! leaves, and the content band takes the rest, split into two near-equal
//! halves, the list on top. A degenerate area only shrinks bands to zero,
//! never below.

use vstd::prelude::*;

verus! {

/// A rectangular region of the terminal, in character cells.
#[derive(Clone, Copy, Debug, PartialEq, Eq)]
pub struct Rect {
    pub x: u16,
    pub y: u16,
    pub width: u16,
    pub height: u16,
}

impl Rect {
    /// The region fits in the terminal's coordinate space: its far edges do
    /// not run past the largest representable cell position.
    pub open spec fn wf(self) -> bool {
        self.x + self.width <= u16::MAX && self.y + self.height <= u16::MAX
    }

    /// Builds a region from its corner and size.
    pub fn new(x: u16, y: u16, width: u16, height: u16) -> (r: Rect)
        requires
            x + width <= u16::MAX,
            y + height <= u16::MAX,
        ensures
            r == (Rect { x, y, width, height }),
            r.wf(),
    {
        Rect { x, y, width, height }
    }
}

/// Rows of the header band: exactly 2 when the area allows it.
pub open spec fn header_rows(h: int) -> int {
    if h < 2 {
        h
    } else {
        2
    }
}

/// Rows of the footer band: exactly 1 of what the header leaves.
pub open spec fn footer_rows(h: int) -> int {
    if h - header_rows(h) < 1 {
        h - header_rows(h)
    } else {
        1
    }
}

/// Rows left for the list and detail panes together.
pub open spec fn content_rows(h: int) -> int {
    h - header_rows(h) - footer_rows(h)
}

/// Rows of the list pane: the upper half of the content band, taking the
/// extra row when the band is odd.
pub open spec fn list_rows(h: int) -> int {
    (content_rows(h) + 1) / 2
}

/// Rows of the detail pane: the rest of the content band.
pub open spec fn detail_rows(h: int) -> int {
    content_rows(h) - list_rows(h)
}

/// The four regions of a frame, top to bottom.
#[derive(Clone, Copy, Debug, PartialEq, Eq)]
pub struct LayoutRegions {
    pub header: Rect,
    pub list: Rect,
    pub detail: Rect,
    pub footer: Rect,
}

/// The four regions that splitting an area yields: full width, stacked
/// without gap, header then list then detail then footer.
pub open spec fn layout_spec(area: Rect) -> LayoutRegions {
    let hh = header_rows(area.height as int);
    let lh = list_rows(area.height as int);
    let dh = detail_rows(area.height as int);
    let fh = footer_rows(area.height as int);
    LayoutRegions {
        header: Rect { x: area.x, y: area.y, width: area.width, height: hh as u16 },
        list: Rect { x: area.x, y: (area.y + hh) as u16, width: area.width, height: lh as u16 },
        detail: Rect {
            x: area.x,
            y: (area.y + hh + lh) as u16,
            width: area.width,
            height: dh as u16,
        },
        footer: Rect {
            x: area.x,
            y: (area.y + hh + lh + dh) as u16,
            width: area.width,
            height: fh as u16,
        },
    }
}

/// Splits `area` into the four bands. All regions keep the area's full width
/// and stack without gap or overlap; their heights sum to the area's.
pub fn layout(area: Rect) -> (r: LayoutRegions)
    requires
        area.wf(),
    ensures
        r == layout_spec(area),
        r.header.x == area.x && r.list.x == area.x && r.detail.x == area.x && r.footer.x
            == area.x,
        r.header.width == area.width && r.list.width == area.width && r.detail.width
            == area.width && r.footer.width == area.width,
        r.header.height == header_rows(area.height as int),
        r.list.height == list_rows(area.height as int),
        r.detail.height == detail_rows(area.height as int),
        r.footer.height == footer_rows(area.height as int),
        r.header.y == area.y,
        r.list.y == area.y + r.header.height,
        r.detail.y == r.list.y + r.list.height,
        r.footer.y == r.detail.y + r.detail.height,
        r.header.height + r.list.height + r.detail.height + r.footer.height == area.height,
        r.header.wf() && r.list.wf() && r.detail.wf() && r.footer.wf(),
{
    let h = area.height;
    let header_h: u16 = if h < 2 { h } else { 2 };
    let after_header: u16 = h - header_h;
    let footer_h: u16 = if after_header < 1 { after_header } else { 1 };
    let content_h: u16 = after_header - footer_h;
    let list_h: u16 = content_h / 2 + content_h % 2;
    let detail_h: u16 = content_h - list_h;
    let header = Rect { x: area.x, y: area.y, width: area.width, height: header_h };
    let list = Rect { x: area.x, y: area.y + header_h, width: area.width, height: list_h };
    let detail = Rect { x: area.x, y: list.y + list_h, width: area.width, height: detail_h };
    let footer = Rect { x: area.x, y: detail.y + detail_h, width: area.width, height: footer_h };
    LayoutRegions { header, list, detail, footer }
}

} // verus!
