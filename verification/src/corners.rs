use vstd::prelude::*;

verus! {

/// One of the four corners of an axis-aligned box, in screen orientation
/// (y grows downwards).
#[derive(Clone, Copy, Debug, PartialEq, Eq, Structural)]
pub enum Corner {
    TopLeft,
    TopRight,
    BottomRight,
    BottomLeft,
}

impl Corner {
    /// The corner lies on the right edge of the box.
    pub open spec fn is_right(self) -> bool {
        self is TopRight || self is BottomRight
    }

    /// The corner lies on the bottom edge of the box.
    pub open spec fn is_bottom(self) -> bool {
        self is BottomRight || self is BottomLeft
    }

    /// The corner at the other end of the box's diagonal.
    pub open spec fn opposite(self) -> Corner {
        match self {
            Corner::TopLeft => Corner::BottomRight,
            Corner::TopRight => Corner::BottomLeft,
            Corner::BottomRight => Corner::TopLeft,
            Corner::BottomLeft => Corner::TopRight,
        }
    }

    /// The two corners share exactly one edge of the box.
    pub open spec fn adjacent(self, other: Corner) -> bool {
        (self.is_right() != other.is_right()) != (self.is_bottom() != other.is_bottom())
    }

    /// The corner on the given edges.
    pub open spec fn on_edges(right: bool, bottom: bool) -> Corner {
        if right {
            if bottom { Corner::BottomRight } else { Corner::TopRight }
        } else {
            if bottom { Corner::BottomLeft } else { Corner::TopLeft }
        }
    }
}

/// The four corners of a box, by name.
#[derive(Clone, Copy, Debug)]
pub struct TrailQuad<P> {
    pub top_left: P,
    pub top_right: P,
    pub bottom_left: P,
    pub bottom_right: P,
}

impl<P> TrailQuad<P> {
    /// The point stored for corner `c`.
    pub open spec fn at(self, c: Corner) -> P {
        match c {
            Corner::TopLeft => self.top_left,
            Corner::TopRight => self.top_right,
            Corner::BottomRight => self.bottom_right,
            Corner::BottomLeft => self.bottom_left,
        }
    }
}

impl<P: Copy> TrailQuad<P> {
    /// Names the corners of a box given in clockwise order from the top
    /// left: top left, top right, bottom right, bottom left.
    pub fn from_corners(corners: [P; 4]) -> (quad: Self)
        ensures
            quad == quad_of(corners@),
    {
        TrailQuad {
            top_left: corners[0],
            top_right: corners[1],
            bottom_right: corners[2],
            bottom_left: corners[3],
        }
    }
}

/// The quad that names the points of `corners`, read in clockwise order
/// from the top left.
pub open spec fn quad_of<P>(corners: Seq<P>) -> TrailQuad<P>
    recommends
        corners.len() == 4,
{
    TrailQuad {
        top_left: corners[0],
        top_right: corners[1],
        bottom_right: corners[2],
        bottom_left: corners[3],
    }
}

/// The order in which the corners of a box are listed: clockwise from the
/// top left.
pub open spec fn corner_order() -> Seq<Corner> {
    seq![Corner::TopLeft, Corner::TopRight, Corner::BottomRight, Corner::BottomLeft]
}

/// The point `(x, y)` at corner `c` of the box with the given edges.
pub open spec fn edge_point<C>(left: C, top: C, right: C, bottom: C, c: Corner) -> (C, C) {
    (if c.is_right() { right } else { left }, if c.is_bottom() { bottom } else { top })
}

/// The corners of the box with the given edges, in clockwise order from the
/// top left.
pub open spec fn edge_corners<C>(left: C, top: C, right: C, bottom: C) -> Seq<(C, C)> {
    seq![(left, top), (right, top), (right, bottom), (left, bottom)]
}

/// The four corners `(x, y)` of the box with the given edges, clockwise from
/// the top left.
pub fn corners_from_edges<C: Copy>(left: C, top: C, right: C, bottom: C) -> (corners: [(C, C); 4])
    ensures
        corners@ == edge_corners(left, top, right, bottom),
{
    let corners = [(left, top), (right, top), (right, bottom), (left, bottom)];
    assert(corners@ =~= edge_corners(left, top, right, bottom));
    corners
}

/// Corner `i` of the clockwise listing is the box's corner named
/// `corner_order()[i]`, and the quad built from the listing stores at each
/// named corner the point on that corner's edges.
pub proof fn lemma_edge_corners_are_labelled<C>(left: C, top: C, right: C, bottom: C)
    ensures
        forall|i: int|
            0 <= i < 4 ==> #[trigger] edge_corners(left, top, right, bottom)[i] == edge_point(
                left,
                top,
                right,
                bottom,
                corner_order()[i],
            ),
        forall|c: Corner|
            #[trigger] quad_of(edge_corners(left, top, right, bottom)).at(c) == edge_point(
                left,
                top,
                right,
                bottom,
                c,
            ),
{
}

/// Walking the corners in the listed order goes round the box one edge at a
/// time: each corner and the next (wrapping round) differ on exactly one of
/// the two axes, and every corner is listed once.
pub proof fn lemma_corner_order_walks_the_edges()
    ensures
        corner_order().len() == 4,
        forall|i: int|
            0 <= i < 4 ==> (#[trigger] corner_order()[i]).adjacent(corner_order()[(i + 1) % 4]),
        forall|i: int, j: int|
            0 <= i < 4 && 0 <= j < 4 && i != j ==> #[trigger] corner_order()[i]
                != #[trigger] corner_order()[j],
        forall|c: Corner| #[trigger] corner_order().contains(c),
{
    assert(corner_order().contains(Corner::TopLeft)) by { assert(corner_order()[0] == Corner::TopLeft); }
    assert(corner_order().contains(Corner::TopRight)) by { assert(corner_order()[1] == Corner::TopRight); }
    assert(corner_order().contains(Corner::BottomRight)) by { assert(corner_order()[2] == Corner::BottomRight); }
    assert(corner_order().contains(Corner::BottomLeft)) by { assert(corner_order()[3] == Corner::BottomLeft); }
}

} // verus!
