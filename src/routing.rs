use vstd::prelude::*;

use crate::chain::views;
use crate::handle::{after_pointer, Handle, HandleState, HandleView};
use crate::point::Point;

verus! {

/// Whether `r` is the anchor that a pointer event goes to, among anchors `hs`
/// whose distances to the pointer are `dists` (as `f32` bits): the first
/// selected anchor if there is one, else the first of the nearest, and none
/// when there are no anchors.
pub open spec fn is_route(hs: Seq<HandleView>, dists: Seq<u32>, r: Option<usize>) -> bool {
    if exists|i: int| 0 <= i < hs.len() && hs[i].state == HandleState::Selected {
        &&& r is Some
        &&& r->0 < hs.len()
        &&& hs[r->0 as int].state == HandleState::Selected
        &&& forall|j: int| 0 <= j < r->0 ==> hs[j].state != HandleState::Selected
    } else if hs.len() == 0 {
        r is None
    } else {
        &&& r is Some
        &&& r->0 < hs.len()
        &&& forall|j: int| 0 <= j < hs.len() ==> dists[r->0 as int] <= #[trigger] dists[j]
        &&& forall|j: int| 0 <= j < r->0 ==> dists[r->0 as int] < #[trigger] dists[j]
    }
}

/// The anchor that a pointer event goes to: the first selected one, else the
/// first of those nearest to the pointer. `dists[i]` is the distance from
/// anchor `i` to the pointer, as `f32` bits.
pub fn route_pointer(handles: &Vec<Handle>, dists: &Vec<u32>) -> (r: Option<usize>)
    requires
        dists.len() == handles.len(),
    ensures
        is_route(views(handles@), dists@, r),
{
    let n = handles.len();
    let mut i: usize = 0;
    while i < n
        invariant
            n == handles.len(),
            i <= n,
            forall|j: int| 0 <= j < i ==> handles@[j]@.state != HandleState::Selected,
        decreases n - i,
    {
        if handles[i].is_selected() {
            return Some(i);
        }
        i = i + 1;
    }
    if n == 0 {
        return None;
    }
    let mut best: usize = 0;
    let mut k: usize = 1;
    while k < n
        invariant
            n == handles.len(),
            n == dists.len(),
            0 < k <= n,
            best < k,
            forall|j: int| 0 <= j < k ==> dists@[best as int] <= dists@[j],
            forall|j: int| 0 <= j < best ==> dists@[best as int] < dists@[j],
        decreases n - k,
    {
        if dists[k] < dists[best] {
            best = k;
        }
        k = k + 1;
    }
    Some(best)
}

/// Hands a pointer event at `pointer` to the anchor that `route_pointer`
/// picks, which then moves through its state machine. Returns that anchor's
/// index; no anchor changes when there are none.
pub fn dispatch_pointer_moved(handles: &mut Vec<Handle>, pointer: Point, dists: &Vec<u32>, pressed: bool) -> (r: Option<usize>)
    requires
        dists.len() == old(handles).len(),
    ensures
        is_route(views(old(handles)@), dists@, r),
        r is None ==> final(handles)@ == old(handles)@,
        r is Some ==> views(final(handles)@) == views(old(handles)@).update(
            r->0 as int,
            after_pointer(old(handles)@[r->0 as int]@, pointer, dists@[r->0 as int], pressed),
        ),
{
    let r = route_pointer(handles, dists);
    match r {
        Some(k) => {
            let mut h = handles[k];
            h.apply_mouse_moved(pointer, dists[k], pressed);
            handles.set(k, h);
            assert(views(handles@) =~= views(old(handles)@).update(
                k as int,
                after_pointer(old(handles)@[k as int]@, pointer, dists@[k as int], pressed),
            ));
        },
        None => {},
    }
    r
}

} // verus!
