//! Rectangle areas, the `Shape` capability, and the large-shape filter.

use vstd::prelude::*;

verus! {

/// The mathematical area of a `width` by `height` rectangle.
pub open spec fn area_spec(width: u32, height: u32) -> int {
    width * height
}

/// Product of the two dimensions.
pub fn area(width: u32, height: u32) -> (r: u32)
    requires
        area_spec(width, height) <= u32::MAX,
    ensures
        r == area_spec(width, height),
{
    width * height
}

/// The area does not depend on which dimension is called the width:
/// for all non-overflowing dimensions, `area(a, b) == area(b, a)`.
pub proof fn lemma_area_commutative(a: u32, b: u32)
    requires
        area_spec(a, b) <= u32::MAX,
    ensures
        area_spec(a, b) == area_spec(b, a),
{
    assert(a * b == b * a) by (nonlinear_arith);
}

/// A rectangle with two unsigned dimensions.
#[derive(Clone, Copy, Debug, PartialEq, Eq, Structural)]
pub struct Rectangle {
    pub width: u32,
    pub height: u32,
}

impl Rectangle {
    /// The product of the dimensions, identical to the standalone `area`.
    pub fn area(&self) -> (r: u32)
        requires
            area_spec(self.width, self.height) <= u32::MAX,
        ensures
            r == area_spec(self.width, self.height),
    {
        self.width * self.height
    }
}

/// A coordinate pair over any one numeric type.
pub struct Point<T> {
    pub x: T,
    pub y: T,
}

impl<T> Point<T> {
    /// Pairs the two coordinates up.
    pub fn new(x: T, y: T) -> (res: Point<T>)
        ensures
            res.x == x,
            res.y == y,
    {
        Point { x, y }
    }
}

/// A capability a type can implement to report its own area.
pub trait Shape {
    /// The mathematical area of this shape.
    spec fn size(&self) -> int;

    /// The area of this shape, as the capability reports it.
    fn area(&self) -> (r: u32)
        requires
            self.size() <= u32::MAX,
        ensures
            r == self.size(),
    ;
}

impl Shape for Rectangle {
    open spec fn size(&self) -> int {
        area_spec(self.width, self.height)
    }

    fn area(&self) -> (r: u32) {
        self.width * self.height
    }
}

/// A rectangle's area equals the standalone computation on its dimensions.
pub proof fn lemma_shape_area_matches(rect: Rectangle)
    ensures
        rect.size() == area_spec(rect.width, rect.height),
{
}

/// A shape's area is large when it exceeds this threshold.
pub const LARGE_AREA: u32 = 100;

/// The rectangle built from a `(width, height)` pair.
pub open spec fn rect_of(p: (u32, u32)) -> Rectangle {
    Rectangle { width: p.0, height: p.1 }
}

/// The rectangles built from `pairs`, keeping only those whose area
/// exceeds `LARGE_AREA`, in input order.
pub open spec fn large_rects(pairs: Seq<(u32, u32)>) -> Seq<Rectangle>
    decreases pairs.len(),
{
    if pairs.len() == 0 {
        Seq::<Rectangle>::empty()
    } else {
        let rest = large_rects(pairs.drop_last());
        let r = rect_of(pairs.last());
        if area_spec(r.width, r.height) > LARGE_AREA {
            rest.push(r)
        } else {
            rest
        }
    }
}

/// Builds a rectangle from each pair and retains exactly those whose
/// area exceeds `LARGE_AREA`, in input order.
pub fn filter_large(pairs: &Vec<(u32, u32)>) -> (res: Vec<Rectangle>)
    requires
        forall|i: int| 0 <= i < pairs@.len() ==> area_spec(pairs@[i].0, pairs@[i].1) <= u32::MAX,
    ensures
        res@ == large_rects(pairs@),
{
    let mut res: Vec<Rectangle> = Vec::new();
    let n: usize = pairs.len();
    for k in 0..n
        invariant
            n == pairs@.len(),
            forall|i: int| 0 <= i < pairs@.len() ==> area_spec(pairs@[i].0, pairs@[i].1)
                <= u32::MAX,
            res@ == large_rects(pairs@.subrange(0, k as int)),
    {
        let (w, h) = pairs[k];
        let rect = Rectangle { width: w, height: h };
        if rect.area() > LARGE_AREA {
            res.push(rect);
        }
        proof {
            let prefix = pairs@.subrange(0, k + 1);
            assert(prefix.drop_last() =~= pairs@.subrange(0, k as int));
            assert(prefix.last() == pairs@[k as int]);
        }
    }
    proof {
        assert(pairs@.subrange(0, n as int) =~= pairs@);
    }
    res
}

} // verus!
