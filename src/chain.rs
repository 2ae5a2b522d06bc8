use vstd::prelude::*;

use crate::handle::{moved_to, Handle, HandleState, HandleView};
use crate::point::Point;

verus! {

/// Toward what the loose ends of a taut chain are pulled.
#[derive(Clone, Copy, Debug, PartialEq, Eq, Structural)]
pub enum Target {
    /// The first end point, which is selected.
    First,
    /// The second end point, which is selected.
    Second,
    /// The midpoint of the two end points, neither of which is selected.
    Midpoint,
}

/// What the library knows of a chain: its rest length (as `f32` bits) and the
/// indexes of its two end points among the anchors.
pub struct ChainView {
    pub length: u32,
    pub start: usize,
    pub end: usize,
}

/// The correction owed to a chain whose end points are `dist` apart (as `f32`
/// bits), given whether each end point is selected: none for a chain that
/// loops onto one anchor, for a slack chain, and when both ends are held.
pub open spec fn correction_of(c: ChainView, dist: u32, first_selected: bool, second_selected: bool) -> Option<Target> {
    if c.start == c.end || dist < c.length {
        None
    } else if first_selected && second_selected {
        None
    } else if first_selected {
        Some(Target::First)
    } else if second_selected {
        Some(Target::Second)
    } else {
        Some(Target::Midpoint)
    }
}

/// Whether both end points of `c` stand among `n` anchors; a chain that loops
/// onto one anchor never reads it.
pub open spec fn endpoints_in(c: ChainView, n: nat) -> bool {
    c.start != c.end ==> c.start < n && c.end < n
}

/// The anchors `hs` after the end points of `c` that are not selected were
/// moved to `first` and `second`. A chain that loops onto one anchor moves
/// nothing.
pub open spec fn corrected(c: ChainView, hs: Seq<HandleView>, first: Point, second: Point) -> Seq<HandleView> {
    Seq::new(
        hs.len(),
        |i: int|
            if c.start == c.end || hs[i].state == HandleState::Selected {
                hs[i]
            } else if i == c.start {
                moved_to(hs[i], first)
            } else if i == c.end {
                moved_to(hs[i], second)
            } else {
                hs[i]
            },
    )
}

/// The views of a sequence of anchors.
pub open spec fn views(hs: Seq<Handle>) -> Seq<HandleView> {
    hs.map_values(|h: Handle| h@)
}

/// A chain of fixed rest length between two anchors, named by their indexes.
#[derive(Debug)]
pub struct Chain {
    length: u32,
    indexes: (usize, usize),
}

impl View for Chain {
    type V = ChainView;

    closed spec fn view(&self) -> ChainView {
        ChainView { length: self.length, start: self.indexes.0, end: self.indexes.1 }
    }
}

impl Chain {
    /// A chain from anchor `start` to anchor `end` whose rest length is
    /// `length` (as `f32` bits).
    pub fn new(start: usize, end: usize, length: u32) -> (r: Chain)
        ensures
            r@ == (ChainView { length, start, end }),
    {
        Chain { length, indexes: (start, end) }
    }

    pub fn length(&self) -> (r: u32)
        ensures
            r == self@.length,
    {
        self.length
    }

    pub fn indexes(&self) -> (r: (usize, usize))
        ensures
            r == (self@.start, self@.end),
    {
        self.indexes
    }

    /// Decides this tick's correction for the chain, whose end points stand
    /// `dist` apart (as `f32` bits).
    pub fn correction(&self, handles: &Vec<Handle>, dist: u32) -> (r: Option<Target>)
        requires
            endpoints_in(self@, handles.len() as nat),
        ensures
            self@.start == self@.end ==> r is None,
            self@.start != self@.end ==> r == correction_of(
                self@,
                dist,
                handles@[self@.start as int]@.state == HandleState::Selected,
                handles@[self@.end as int]@.state == HandleState::Selected,
            ),
    {
        let (a, b) = self.indexes;
        if a == b {
            return None;
        }
        if dist < self.length {
            return None;
        }
        match (handles[a].is_selected(), handles[b].is_selected()) {
            (true, true) => None,
            (true, false) => Some(Target::First),
            (false, true) => Some(Target::Second),
            (false, false) => Some(Target::Midpoint),
        }
    }

    /// Moves each end point that is not selected: the first to `first`, the
    /// second to `second`. A selected anchor keeps its position, and a chain
    /// that loops onto one anchor changes nothing.
    pub fn apply_correction(&self, handles: &mut Vec<Handle>, first: Point, second: Point)
        requires
            endpoints_in(self@, old(handles).len() as nat),
        ensures
            views(final(handles)@) == corrected(self@, views(old(handles)@), first, second),
            self@.start == self@.end ==> final(handles)@ == old(handles)@,
            forall|i: int|
                0 <= i < old(handles).len() && old(handles)@[i]@.state == HandleState::Selected
                    ==> final(handles)@[i]@.pos == old(handles)@[i]@.pos,
    {
        let (a, b) = self.indexes;
        if a == b {
            return;
        }
        let ghost before = views(handles@);
        if !handles[a].is_selected() {
            let mut h = handles[a];
            h.set_pos(first);
            handles.set(a, h);
        }
        if !handles[b].is_selected() {
            let mut h = handles[b];
            h.set_pos(second);
            handles.set(b, h);
        }
        assert(views(handles@) =~= corrected(self@, before, first, second));
    }
}

} // verus!
