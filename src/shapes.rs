//! Rules of the 2D shapes that do not depend on their coordinates.
use vstd::prelude::*;

verus! {

/// The colors of a rectangle's four corners, chosen from what the caller
/// gave: one color for all four corners, one for each corner, or else
/// `fallback` for all four.
pub open spec fn spec_corner_colors<C>(colors: Option<Seq<C>>, fallback: C) -> Seq<C> {
    match colors {
        Some(v) => if v.len() == 1 {
            seq![v[0], v[0], v[0], v[0]]
        } else if v.len() == 4 {
            v
        } else {
            seq![fallback, fallback, fallback, fallback]
        },
        None => seq![fallback, fallback, fallback, fallback],
    }
}

/// Chooses the colors of a rectangle's four corners, in corner order.
pub fn corner_colors<C: Copy>(colors: Option<Vec<C>>, fallback: C) -> (r: Vec<C>)
    ensures
        r@ == spec_corner_colors(
            match colors {
                Some(v) => Some(v@),
                None => None,
            },
            fallback,
        ),
        r@.len() == 4,
{
    match colors {
        Some(v) => {
            if v.len() == 1 {
                let c = v[0];
                let r = vec![c, c, c, c];
                assert(r@ =~= seq![v@[0], v@[0], v@[0], v@[0]]);
                r
            } else if v.len() == 4 {
                v
            } else {
                let r = vec![fallback, fallback, fallback, fallback];
                assert(r@ =~= seq![fallback, fallback, fallback, fallback]);
                r
            }
        },
        None => {
            let r = vec![fallback, fallback, fallback, fallback];
            assert(r@ =~= seq![fallback, fallback, fallback, fallback]);
            r
        },
    }
}

} // verus!
