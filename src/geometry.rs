//! Integer geometry in physical or logical pixels, and output transforms.
use vstd::prelude::*;

verus! {

/// A point with integer coordinates.
#[derive(Clone, Copy, Debug, PartialEq, Eq, Structural)]
pub struct Point {
    pub x: i32,
    pub y: i32,
}

/// A size with integer extents; negative extents count as empty.
#[derive(Clone, Copy, Debug, PartialEq, Eq, Structural)]
pub struct Size {
    pub w: i32,
    pub h: i32,
}

/// An axis-aligned rectangle: its top-left corner and its size.
#[derive(Clone, Copy, Debug, PartialEq, Eq, Structural)]
pub struct Rect {
    pub loc: Point,
    pub size: Size,
}

/// The eight orientations an output can have.
#[derive(Clone, Copy, Debug, PartialEq, Eq, Structural)]
pub enum Transform {
    Normal,
    Rot90,
    Rot180,
    Rot270,
    Flipped,
    Flipped90,
    Flipped180,
    Flipped270,
}

impl Size {
    pub open spec fn is_empty_spec(self) -> bool {
        self.w <= 0 || self.h <= 0
    }

    /// Whether either extent is zero or negative.
    pub fn is_empty(&self) -> (r: bool)
        ensures
            r == self.is_empty_spec(),
    {
        self.w <= 0 || self.h <= 0
    }
}

impl Transform {
    /// Whether the transform turns the picture by a quarter or three quarters,
    /// exchanging width and height.
    pub open spec fn swaps_axes(self) -> bool {
        match self {
            Transform::Rot90 | Transform::Rot270 | Transform::Flipped90 | Transform::Flipped270 => true,
            _ => false,
        }
    }

    pub open spec fn transform_size_spec(self, s: Size) -> Size {
        if self.swaps_axes() {
            Size { w: s.h, h: s.w }
        } else {
            s
        }
    }

    /// The size of an area of size `s` once this transform is applied to it.
    pub fn transform_size(&self, s: Size) -> (r: Size)
        ensures
            r == self.transform_size_spec(s),
    {
        match self {
            Transform::Rot90 | Transform::Rot270 | Transform::Flipped90 | Transform::Flipped270 => {
                Size { w: s.h, h: s.w }
            },
            _ => s,
        }
    }

    /// Whether true blur can sample an output with this transform: real-time
    /// sampling is not supported on quarter-turned outputs.
    pub fn allows_true_blur(&self) -> (r: bool)
        ensures
            r == !self.swaps_axes(),
    {
        match self {
            Transform::Rot90 | Transform::Rot270 | Transform::Flipped90 | Transform::Flipped270 => false,
            _ => true,
        }
    }
}

/// The rectangle `r` grown by `d` on every side.
pub open spec fn expanded(r: Rect, d: int) -> (int, int, int, int) {
    (r.loc.x - d, r.loc.y - d, r.size.w + 2 * d, r.size.h + 2 * d)
}

pub open spec fn fits_i32(v: int) -> bool {
    i32::MIN <= v <= i32::MAX
}

/// Whether growing `r` by `d` on every side keeps its coordinates in range.
pub open spec fn can_expand(r: Rect, d: int) -> bool {
    let e = expanded(r, d);
    fits_i32(e.0) && fits_i32(e.1) && fits_i32(e.2) && fits_i32(e.3)
}

pub open spec fn rect_tuple(r: Rect) -> (int, int, int, int) {
    (r.loc.x as int, r.loc.y as int, r.size.w as int, r.size.h as int)
}

impl Rect {
    /// This rectangle grown by `d` pixels on every side.
    pub fn expand(&self, d: i64) -> (r: Rect)
        requires
            can_expand(*self, d as int),
        ensures
            rect_tuple(r) == expanded(*self, d as int),
    {
        let x = self.loc.x as i64 - d;
        let y = self.loc.y as i64 - d;
        let w = self.size.w as i64 + 2 * d;
        let h = self.size.h as i64 + 2 * d;
        Rect { loc: Point { x: x as i32, y: y as i32 }, size: Size { w: w as i32, h: h as i32 } }
    }
}

} // verus!
