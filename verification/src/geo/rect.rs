use crate::geo::single::appx_eq;
use crate::geo::single::approx_equal;
use crate::geo::single::equal;
use crate::geo::single::is_nan;
use crate::geo::single::larger;
use crate::geo::single::lemma_approx_equal_symmetric;
use crate::geo::single::less;
use crate::geo::single::nan;
use crate::geo::single::smaller;
use vstd::prelude::*;

verus! {

/// A point of the plane, each coordinate a single-precision bit pattern.
#[derive(Clone, Copy, Debug, PartialEq, Eq)]
pub struct Point {
    pub x: u32,
    pub y: u32,
}

impl Point {
    /// The point as `[x, y]`.
    pub fn to_array(&self) -> (r: [u32; 2])
        ensures
            r@ == seq![self.x, self.y],
    {
        [self.x, self.y]
    }
}

/// An axis-aligned rectangle in screen orientation: the origin is the
/// upper-left corner of the screen, so the upper-left corner of a rectangle
/// holds its smaller coordinates. Two rectangles are equal where their
/// coordinates are equal as numbers.
#[derive(Clone, Copy, Debug, Eq)]
pub struct Rect {
    left: u32,
    top: u32,
    right: u32,
    bottom: u32,
}

/// Two corners do not span a rectangle: they are nearly on one vertical or
/// on one horizontal line.
pub open spec fn degenerate(x1: u32, y1: u32, x2: u32, y2: u32) -> bool {
    approx_equal(x1, x2) || approx_equal(y1, y2)
}

/// One of the four coordinates is not a number.
pub open spec fn has_nan(x1: u32, y1: u32, x2: u32, y2: u32) -> bool {
    is_nan(x1) || is_nan(y1) || is_nan(x2) || is_nan(y2)
}

/// Two corners span a rectangle: all four coordinates are numbers, and the
/// corners are not nearly on one line.
pub open spec fn spans(x1: u32, y1: u32, x2: u32, y2: u32) -> bool {
    !has_nan(x1, y1, x2, y2) && !degenerate(x1, y1, x2, y2)
}

/// The coordinates of the rectangle between two corners: left, top, right,
/// bottom.
pub open spec fn normalized(x1: u32, y1: u32, x2: u32, y2: u32) -> Seq<u32> {
    seq![smaller(x1, x2), smaller(y1, y2), larger(x1, x2), larger(y1, y2)]
}

impl PartialEq for Rect {
    fn eq(&self, other: &Rect) -> (r: bool) {
        crate::geo::single::eq(self.left, other.left) && crate::geo::single::eq(
            self.top,
            other.top,
        ) && crate::geo::single::eq(self.right, other.right) && crate::geo::single::eq(
            self.bottom,
            other.bottom,
        )
    }
}

impl vstd::std_specs::cmp::PartialEqSpecImpl for Rect {
    open spec fn obeys_eq_spec() -> bool {
        true
    }

    open spec fn eq_spec(&self, other: &Rect) -> bool {
        &&& equal(self.corners()[0], other.corners()[0])
        &&& equal(self.corners()[1], other.corners()[1])
        &&& equal(self.corners()[2], other.corners()[2])
        &&& equal(self.corners()[3], other.corners()[3])
    }
}

impl Rect {
    /// The four coordinates: left, top, right, bottom.
    pub closed spec fn corners(self) -> Seq<u32> {
        seq![self.left, self.top, self.right, self.bottom]
    }

    /// The rectangle between two corners, if there is one.
    pub closed spec fn between(x1: u32, y1: u32, x2: u32, y2: u32) -> Option<Rect> {
        if !spans(x1, y1, x2, y2) {
            None
        } else {
            Some(
                Rect {
                    left: smaller(x1, x2),
                    top: smaller(y1, y2),
                    right: larger(x1, x2),
                    bottom: larger(y1, y2),
                },
            )
        }
    }

    /// The upper-left corner lies strictly left of and above the lower-right
    /// one, and neither the width nor the height is nearly zero.
    pub open spec fn wf(self) -> bool {
        let c = self.corners();
        &&& less(c[0], c[2])
        &&& less(c[1], c[3])
        &&& !approx_equal(c[0], c[2])
        &&& !approx_equal(c[1], c[3])
    }

    #[verifier::type_invariant]
    spec fn spans_an_area(self) -> bool {
        self.wf()
    }

    /// The rectangle between the corners `(x1, y1)` and `(x2, y2)`, given in
    /// any order; none where the width or the height would be nearly zero,
    /// and none where a coordinate is not a number.
    pub fn new(x1: u32, y1: u32, x2: u32, y2: u32) -> (r: Option<Rect>)
        ensures
            r == Rect::between(x1, y1, x2, y2),
            r is None <==> degenerate(x1, y1, x2, y2) || is_nan(x1) || is_nan(y1) || is_nan(x2)
                || is_nan(y2),
            r matches Some(rect) ==> rect.corners() == normalized(x1, y1, x2, y2),
            r matches Some(rect) ==> rect.wf(),
    {
        if nan(x1) || nan(y1) || nan(x2) || nan(y2) {
            None
        } else if appx_eq(x1, x2) || appx_eq(y1, y2) {
            None
        } else {
            proof {
                lemma_approx_equal_symmetric(x1, x2);
                lemma_approx_equal_symmetric(y1, y2);
            }
            Some(
                Rect {
                    left: crate::geo::single::min(x1, x2),
                    top: crate::geo::single::min(y1, y2),
                    right: crate::geo::single::max(x1, x2),
                    bottom: crate::geo::single::max(y1, y2),
                },
            )
        }
    }

    /// The rectangle of `[x1, y1, x2, y2]`, which must span one.
    pub fn from_corners(arr: [u32; 4]) -> (r: Rect)
        requires
            spans(arr[0], arr[1], arr[2], arr[3]),
        ensures
            Some(r) == Rect::between(arr[0], arr[1], arr[2], arr[3]),
            r.corners() == normalized(arr[0], arr[1], arr[2], arr[3]),
            r.wf(),
    {
        match Rect::new(arr[0], arr[1], arr[2], arr[3]) {
            Some(r) => r,
            None => unreached(),
        }
    }

    /// The rectangle of `[[x1, y1], [x2, y2]]`, which must span one.
    pub fn from_point_pair(arr: [[u32; 2]; 2]) -> (r: Rect)
        requires
            spans(arr[0][0], arr[0][1], arr[1][0], arr[1][1]),
        ensures
            Some(r) == Rect::between(arr[0][0], arr[0][1], arr[1][0], arr[1][1]),
            r.corners() == normalized(arr[0][0], arr[0][1], arr[1][0], arr[1][1]),
            r.wf(),
    {
        Rect::from_corners([arr[0][0], arr[0][1], arr[1][0], arr[1][1]])
    }

    /// The rectangle between two points, which must span one.
    pub fn from_points(points: [Point; 2]) -> (r: Rect)
        requires
            spans(points[0].x, points[0].y, points[1].x, points[1].y),
        ensures
            Some(r) == Rect::between(points[0].x, points[0].y, points[1].x, points[1].y),
            r.corners() == normalized(points[0].x, points[0].y, points[1].x, points[1].y),
            r.wf(),
    {
        Rect::from_point_pair([points[0].to_array(), points[1].to_array()])
    }

    pub fn upper_left(&self) -> (r: [u32; 2])
        ensures
            r@ == self.corners().subrange(0, 2),
    {
        let r: [u32; 2] = [self.left, self.top];
        assert(r@ =~= self.corners().subrange(0, 2));
        r
    }

    pub fn lower_right(&self) -> (r: [u32; 2])
        ensures
            r@ == self.corners().subrange(2, 4),
    {
        let r: [u32; 2] = [self.right, self.bottom];
        assert(r@ =~= self.corners().subrange(2, 4));
        r
    }

    /// The corner array `[left, top, right, bottom]`.
    pub fn to_array(&self) -> (r: [u32; 4])
        ensures
            r@ == self.corners(),
    {
        let r: [u32; 4] = [self.left, self.top, self.right, self.bottom];
        assert(r@ =~= self.corners());
        r
    }

    /// A rectangle is its four coordinates.
    pub proof fn lemma_corners_decide(self, other: Rect)
        requires
            self.corners() == other.corners(),
        ensures
            self == other,
    {
        let a = self.corners();
        let b = other.corners();
        assert(a[0] == b[0] && a[1] == b[1] && a[2] == b[2] && a[3] == b[3]);
    }

    /// The corner array of a rectangle gives the same rectangle back.
    pub proof fn lemma_corner_round_trip(self)
        requires
            self.wf(),
        ensures
            Rect::between(
                self.corners()[0],
                self.corners()[1],
                self.corners()[2],
                self.corners()[3],
            ) == Some(self),
    {
    }

    /// A rectangle between two corners is well-formed, and it is the same
    /// one whichever order the corners come in.
    pub proof fn lemma_between_wf(x1: u32, y1: u32, x2: u32, y2: u32)
        ensures
            Rect::between(x1, y1, x2, y2) matches Some(rect) ==> rect.wf(),
            Rect::between(x1, y1, x2, y2) == Rect::between(x2, y2, x1, y1),
            Rect::between(x1, y1, x2, y2) == Rect::between(x1, y2, x2, y1),
    {
        lemma_approx_equal_symmetric(x1, x2);
        lemma_approx_equal_symmetric(y1, y2);
    }
}

} // verus!
