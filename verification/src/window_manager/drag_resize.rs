//! Which edge or corner of the window a resize takes hold of.

use vstd::prelude::*;

verus! {

/// The edge or corner by which a window is resized.
#[derive(Debug, Clone, Copy, PartialEq, Eq, Structural)]
pub enum ResizeDirection {
    North,
    South,
    East,
    West,
    NorthEast,
    NorthWest,
    SouthEast,
    SouthWest,
}

impl ResizeDirection {
    /// Whether a resize in this direction moves the left edge.
    pub open spec fn spec_moves_left_edge(self) -> bool {
        self == ResizeDirection::West || self == ResizeDirection::NorthWest || self
            == ResizeDirection::SouthWest
    }

    /// Whether a resize in this direction moves the top edge.
    pub open spec fn spec_moves_top_edge(self) -> bool {
        self == ResizeDirection::North || self == ResizeDirection::NorthEast || self
            == ResizeDirection::NorthWest
    }

    /// Whether a resize in this direction moves the left edge, so that the
    /// window's position follows a change of its width.
    pub fn moves_left_edge(&self) -> (r: bool)
        ensures
            r == self.spec_moves_left_edge(),
    {
        match self {
            ResizeDirection::West | ResizeDirection::NorthWest | ResizeDirection::SouthWest => true,
            _ => false,
        }
    }

    /// Whether a resize in this direction moves the top edge, so that the
    /// window's position follows a change of its height.
    pub fn moves_top_edge(&self) -> (r: bool)
        ensures
            r == self.spec_moves_top_edge(),
    {
        match self {
            ResizeDirection::North | ResizeDirection::NorthEast | ResizeDirection::NorthWest => true,
            _ => false,
        }
    }
}

/// The resize zone under the mouse, from the edges that it is near. A
/// corner needs exactly its two edges, an edge exactly itself; a mouse near
/// two opposite edges, or near none, is in no zone.
pub open spec fn spec_resize_zone(at_left: bool, at_right: bool, at_top: bool, at_bottom: bool) -> Option<
    ResizeDirection,
> {
    if at_left && at_right || at_top && at_bottom {
        None
    } else if at_left && at_top {
        Some(ResizeDirection::NorthWest)
    } else if at_right && at_top {
        Some(ResizeDirection::NorthEast)
    } else if at_left && at_bottom {
        Some(ResizeDirection::SouthWest)
    } else if at_right && at_bottom {
        Some(ResizeDirection::SouthEast)
    } else if at_left {
        Some(ResizeDirection::West)
    } else if at_right {
        Some(ResizeDirection::East)
    } else if at_top {
        Some(ResizeDirection::North)
    } else if at_bottom {
        Some(ResizeDirection::South)
    } else {
        None
    }
}

/// The resize zone under the mouse, from the edges that it is near.
pub fn detect_resize_zone(at_left: bool, at_right: bool, at_top: bool, at_bottom: bool) -> (r:
    Option<ResizeDirection>)
    ensures
        r == spec_resize_zone(at_left, at_right, at_top, at_bottom),
{
    match (at_left, at_right, at_top, at_bottom) {
        (true, false, true, false) => Some(ResizeDirection::NorthWest),
        (false, true, true, false) => Some(ResizeDirection::NorthEast),
        (true, false, false, true) => Some(ResizeDirection::SouthWest),
        (false, true, false, true) => Some(ResizeDirection::SouthEast),
        (true, false, false, false) => Some(ResizeDirection::West),
        (false, true, false, false) => Some(ResizeDirection::East),
        (false, false, true, false) => Some(ResizeDirection::North),
        (false, false, false, true) => Some(ResizeDirection::South),
        _ => None,
    }
}

} // verus!
