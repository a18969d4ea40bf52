//! The client-decorated window frame: which edge or corner the pointer is
//! on, and the cursor shown there.

use vstd::prelude::*;

verus! {

/// An edge or a corner of the window, where a drag resizes it.
#[derive(Clone, Copy, PartialEq, Eq, Structural, Debug)]
pub enum ResizeEdge {
    Top,
    TopRight,
    Right,
    BottomRight,
    Bottom,
    BottomLeft,
    Left,
    TopLeft,
}

/// The resize cursors.
#[derive(Clone, Copy, PartialEq, Eq, Structural, Debug)]
pub enum CursorStyle {
    ResizeUpDown,
    ResizeLeftRight,
    ResizeUpLeftDownRight,
    ResizeUpRightDownLeft,
}

/// Where the pointer is against the window's resize border: each flag says
/// that it lies within the shadow's width of that side (above the top
/// border line, below the bottom one, and so on).
#[derive(Clone, Copy, PartialEq, Eq, Structural, Debug)]
pub struct BorderHits {
    pub top: bool,
    pub bottom: bool,
    pub left: bool,
    pub right: bool,
}

/// The edge or corner under the pointer: corners first (top ones before
/// bottom ones, left before right), then the top and bottom edges, then
/// the left and right ones.
pub open spec fn edge_for(h: BorderHits) -> Option<ResizeEdge> {
    if h.top && h.left {
        Some(ResizeEdge::TopLeft)
    } else if h.top && h.right {
        Some(ResizeEdge::TopRight)
    } else if h.top {
        Some(ResizeEdge::Top)
    } else if h.bottom && h.left {
        Some(ResizeEdge::BottomLeft)
    } else if h.bottom && h.right {
        Some(ResizeEdge::BottomRight)
    } else if h.bottom {
        Some(ResizeEdge::Bottom)
    } else if h.left {
        Some(ResizeEdge::Left)
    } else if h.right {
        Some(ResizeEdge::Right)
    } else {
        None
    }
}

/// The sides of the window that an edge or corner lies on:
/// (top, bottom, left, right).
pub open spec fn sides_of(e: ResizeEdge) -> (bool, bool, bool, bool) {
    match e {
        ResizeEdge::Top => (true, false, false, false),
        ResizeEdge::TopRight => (true, false, false, true),
        ResizeEdge::Right => (false, false, false, true),
        ResizeEdge::BottomRight => (false, true, false, true),
        ResizeEdge::Bottom => (false, true, false, false),
        ResizeEdge::BottomLeft => (false, true, true, false),
        ResizeEdge::Left => (false, false, true, false),
        ResizeEdge::TopLeft => (true, false, true, false),
    }
}

/// The edge or corner of the window under the pointer, if any.
pub fn resize_edge(hits: BorderHits) -> (e: Option<ResizeEdge>)
    ensures
        e == edge_for(hits),
{
    let edge = if hits.top && hits.left {
        ResizeEdge::TopLeft
    } else if hits.top && hits.right {
        ResizeEdge::TopRight
    } else if hits.top {
        ResizeEdge::Top
    } else if hits.bottom && hits.left {
        ResizeEdge::BottomLeft
    } else if hits.bottom && hits.right {
        ResizeEdge::BottomRight
    } else if hits.bottom {
        ResizeEdge::Bottom
    } else if hits.left {
        ResizeEdge::Left
    } else if hits.right {
        ResizeEdge::Right
    } else {
        return None;
    };
    Some(edge)
}

/// The cursor shown over an edge or corner.
pub fn cursor_style(edge: ResizeEdge) -> (c: CursorStyle)
    ensures
        c == (match edge {
            ResizeEdge::Top | ResizeEdge::Bottom => CursorStyle::ResizeUpDown,
            ResizeEdge::Left | ResizeEdge::Right => CursorStyle::ResizeLeftRight,
            ResizeEdge::TopLeft | ResizeEdge::BottomRight => CursorStyle::ResizeUpLeftDownRight,
            ResizeEdge::TopRight | ResizeEdge::BottomLeft => CursorStyle::ResizeUpRightDownLeft,
        }),
{
    match edge {
        ResizeEdge::Top | ResizeEdge::Bottom => CursorStyle::ResizeUpDown,
        ResizeEdge::Left | ResizeEdge::Right => CursorStyle::ResizeLeftRight,
        ResizeEdge::TopLeft | ResizeEdge::BottomRight => CursorStyle::ResizeUpLeftDownRight,
        ResizeEdge::TopRight | ResizeEdge::BottomLeft => CursorStyle::ResizeUpRightDownLeft,
    }
}

/// A resize happens exactly when the pointer is on the border; the edge
/// found lies only on sides that the pointer is on, and a corner is found
/// whenever the pointer is on a top or bottom side and a left or right one.
pub proof fn lemma_edge_matches_hits(h: BorderHits)
    ensures
        edge_for(h) is None <==> !(h.top || h.bottom || h.left || h.right),
        edge_for(h) matches Some(e) ==> {
            let (t, b, l, r) = sides_of(e);
            &&& t ==> h.top
            &&& b ==> h.bottom
            &&& l ==> h.left
            &&& r ==> h.right
        },
        (h.top || h.bottom) && (h.left || h.right) ==> (edge_for(h) matches Some(e) && {
            let (t, b, l, r) = sides_of(e);
            (t || b) && (l || r)
        }),
{
}

} // verus!
