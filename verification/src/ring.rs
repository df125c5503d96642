//! Display-ring navigation: which display holds the pointer, and which
//! display comes next or previous in the cyclic order the operating
//! system lists them in.

use vstd::prelude::*;

use crate::geometry::Point;
use crate::geometry::Rect;

verus! {

/// Every rectangle in the list is usable.
pub open spec fn all_wf(displays: Seq<Rect>) -> bool {
    forall|i: int| 0 <= i < displays.len() ==> #[trigger] displays[i].wf()
}

/// One step around the ring 0..n-1: forward wraps from the last index to
/// 0, backward wraps from 0 to the last index.
pub open spec fn ring_step(i: int, n: int, forward: bool) -> int
    recommends
        0 <= i < n,
{
    if forward {
        if i == n - 1 {
            0
        } else {
            i + 1
        }
    } else {
        if i == 0 {
            n - 1
        } else {
            i - 1
        }
    }
}

/// Index `i` is the first display in the list whose bounds contain `p`.
pub open spec fn is_first_hit(displays: Seq<Rect>, p: Point, i: int) -> bool {
    &&& 0 <= i < displays.len()
    &&& displays[i].spec_contains(p)
    &&& forall|k: int| 0 <= k < i ==> !(#[trigger] displays[k]).spec_contains(p)
}

/// The ring neighbour of the display under the pointer, taken one step
/// forward or backward.
pub fn next_index(i: usize, n: usize, forward: bool) -> (j: usize)
    requires
        i < n,
    ensures
        j == ring_step(i as int, n as int, forward),
        j < n,
        n >= 2 ==> j != i,
{
    if forward {
        if i == n - 1 {
            0
        } else {
            i + 1
        }
    } else {
        if i == 0 {
            n - 1
        } else {
            i - 1
        }
    }
}

/// The first display whose bounds contain the pointer, if any.
pub fn display_under(displays: &Vec<Rect>, p: Point) -> (r: Option<usize>)
    requires
        all_wf(displays@),
    ensures
        match r {
            Some(i) => is_first_hit(displays@, p, i as int),
            None => forall|k: int|
                0 <= k < displays@.len() ==> !(#[trigger] displays@[k]).spec_contains(p),
        },
{
    let mut i: usize = 0;
    while i < displays.len()
        invariant
            all_wf(displays@),
            i <= displays@.len(),
            forall|k: int| 0 <= k < i ==> !(#[trigger] displays@[k]).spec_contains(p),
        decreases displays@.len() - i,
    {
        if displays[i].contains(p) {
            return Some(i);
        }
        i = i + 1;
    }
    None
}

/// The bounds of the display one ring step away from the display under
/// the pointer.  Nothing to aim at is reported as `None`: either fewer
/// than two displays exist, or no display's bounds contain the pointer.
pub fn next_display(displays: &Vec<Rect>, p: Point, forward: bool) -> (r: Option<Rect>)
    requires
        all_wf(displays@),
    ensures
        match r {
            Some(b) => displays@.len() >= 2 && exists|i: int|
                #[trigger] is_first_hit(displays@, p, i) && b == displays@[ring_step(
                    i,
                    displays@.len() as int,
                    forward,
                )],
            None => displays@.len() < 2 || forall|k: int|
                0 <= k < displays@.len() ==> !(#[trigger] displays@[k]).spec_contains(p),
        },
{
    if displays.len() < 2 {
        return None;
    }
    match display_under(displays, p) {
        None => None,
        Some(i) => {
            let j = next_index(i, displays.len(), forward);
            Some(displays[j])
        },
    }
}

/// Ring wrap law: going forward from the last index lands on the first,
/// and going backward from the first index lands on the last.
pub proof fn lemma_ring_wrap(n: int)
    requires
        1 <= n,
    ensures
        ring_step(n - 1, n, true) == 0,
        ring_step(0, n, false) == n - 1,
{
}

/// Neighbour law: when the pointer lies inside exactly one display's
/// bounds and at least two displays exist, that display is the first
/// hit, and its ring neighbour — the display `next_display` reports —
/// is a different display, whichever direction is taken.
pub proof fn lemma_neighbor_is_other_display(displays: Seq<Rect>, p: Point, i: int, forward: bool)
    requires
        2 <= displays.len(),
        0 <= i < displays.len(),
        displays[i].spec_contains(p),
        forall|k: int|
            0 <= k < displays.len() && k != i ==> !(#[trigger] displays[k]).spec_contains(p),
    ensures
        is_first_hit(displays, p, i),
        forall|k: int| is_first_hit(displays, p, k) ==> k == i,
        0 <= ring_step(i, displays.len() as int, forward) < displays.len(),
        ring_step(i, displays.len() as int, forward) != i,
{
}

} // verus!
