use vstd::prelude::*;

use crate::corners::{Corner, TrailQuad};

verus! {

/// The direction the cursor is travelling in, by the sign of each axis of its
/// motion (screen orientation: y grows downwards). A zero component counts as
/// positive.
#[derive(Clone, Copy, Debug, PartialEq, Eq, Structural)]
pub struct Heading {
    pub rightward: bool,
    pub downward: bool,
}

/// Which corner of a quad each of the four trail anchor points is taken from,
/// for a cursor moving in direction `heading`.
pub open spec fn trail_roles(heading: Heading) -> Seq<Corner> {
    let sx = heading.rightward;
    let sy = heading.downward;
    seq![
        Corner::on_edges(!sx, sy),
        Corner::on_edges(sy, sx),
        Corner::on_edges(!sy, !sx),
        Corner::on_edges(sx, !sy),
    ]
}

/// `a` when `take_second` is false, `b` when it is true.
fn pick<P: Copy>(a: P, b: P, take_second: bool) -> (p: P)
    ensures
        p == if take_second { b } else { a },
{
    if take_second {
        b
    } else {
        a
    }
}

/// The first three trail anchors of `quad` for a cursor moving in direction
/// `heading`: the corner that the trail is drawn from and the two corners
/// that flank it.
pub fn select_trail_corners<P: Copy>(quad: TrailQuad<P>, heading: Heading) -> (anchors: (P, P, P))
    ensures
        anchors.0 == quad.at(trail_roles(heading)[0]),
        anchors.1 == quad.at(trail_roles(heading)[1]),
        anchors.2 == quad.at(trail_roles(heading)[2]),
{
    let sel_x = heading.rightward;
    let sel_y = heading.downward;
    let p1 = pick(
        pick(quad.top_right, quad.top_left, sel_x),
        pick(quad.bottom_right, quad.bottom_left, sel_x),
        sel_y,
    );
    let p2 = pick(
        pick(quad.top_left, quad.bottom_left, sel_x),
        pick(quad.top_right, quad.bottom_right, sel_x),
        sel_y,
    );
    let p3 = pick(
        pick(quad.bottom_right, quad.top_right, sel_x),
        pick(quad.bottom_left, quad.top_left, sel_x),
        sel_y,
    );
    (p1, p2, p3)
}

/// All four trail anchors of `quad` for a cursor moving in direction
/// `heading`: those of `select_trail_corners`, then the corner diagonally
/// opposite the first.
pub fn select_corners<P: Copy>(quad: TrailQuad<P>, heading: Heading) -> (anchors: (P, P, P, P))
    ensures
        anchors.0 == quad.at(trail_roles(heading)[0]),
        anchors.1 == quad.at(trail_roles(heading)[1]),
        anchors.2 == quad.at(trail_roles(heading)[2]),
        anchors.3 == quad.at(trail_roles(heading)[3]),
{
    let (p1, p2, p3) = select_trail_corners(quad, heading);
    let sel_x = heading.rightward;
    let sel_y = heading.downward;
    let p4 = pick(
        pick(quad.bottom_left, quad.bottom_right, sel_x),
        pick(quad.top_left, quad.top_right, sel_x),
        sel_y,
    );
    (p1, p2, p3, p4)
}

/// The outline of the smear polygon: from the eased head point, along the
/// first eased side point, round the live cursor's second, fourth and third
/// anchors, and back along the second eased side point.
pub fn smear_outline<P: Copy>(head: P, side_a: P, side_b: P, live: (P, P, P, P)) -> (outline: [P; 6])
    ensures
        outline@ == seq![head, side_a, live.1, live.3, live.2, side_b],
{
    let outline = [head, side_a, live.1, live.3, live.2, side_b];
    assert(outline@ =~= seq![head, side_a, live.1, live.3, live.2, side_b]);
    outline
}

/// For every heading the four trail anchors are four different corners, so
/// together they are the whole quad; the fourth is diagonally opposite the
/// first, and the third diagonally opposite the second, so that the second
/// and third anchors are each one edge away from both the first and the
/// fourth.
pub proof fn lemma_trail_roles_cover_the_quad(heading: Heading)
    ensures
        trail_roles(heading).len() == 4,
        forall|i: int, j: int|
            0 <= i < 4 && 0 <= j < 4 && i != j ==> #[trigger] trail_roles(heading)[i]
                != #[trigger] trail_roles(heading)[j],
        forall|c: Corner| #[trigger] trail_roles(heading).contains(c),
        trail_roles(heading)[3] == trail_roles(heading)[0].opposite(),
        trail_roles(heading)[2] == trail_roles(heading)[1].opposite(),
        trail_roles(heading)[1].adjacent(trail_roles(heading)[0]),
        trail_roles(heading)[1].adjacent(trail_roles(heading)[3]),
        trail_roles(heading)[2].adjacent(trail_roles(heading)[0]),
        trail_roles(heading)[2].adjacent(trail_roles(heading)[3]),
{
    let r = trail_roles(heading);
    assert forall|c: Corner| #[trigger] r.contains(c) by {
        if c == r[0] {
            assert(r[0] == c);
        } else if c == r[1] {
            assert(r[1] == c);
        } else if c == r[2] {
            assert(r[2] == c);
        } else {
            assert(r[3] == c);
        }
    }
}

} // verus!
