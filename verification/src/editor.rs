//! The control-point editing protocol: a state machine deciding which of
//! the four control points a pointer drag is allowed to move.
//!
//! At most one point is ever dragged at a time. A press that hits a point
//! while the editor is idle starts a drag of that point; every update tick
//! with a drag-plane intersection moves exactly that point to the
//! intersection; releasing the pointer ends the drag and freezes the point.
//! When the drag-plane raycast misses during a drag, the caller simply
//! skips the update for that tick, so the point holds its last valid
//! position rather than cancelling the drag.

use vstd::prelude::*;

verus! {

use crate::vec::{fits3, Vec3};
use crate::COORD_MAX;

/// Whether a drag is in progress, and of which control point.
#[derive(Clone, Copy, Debug, PartialEq, Eq, Structural)]
pub enum DragState {
    Idle,
    Dragging { point: usize },
}

/// The four control-point positions together with the drag state that
/// guards their mutation.
#[derive(Clone, Copy, Debug, PartialEq, Eq, Structural)]
pub struct ControlPointEditor {
    pub p0: Vec3,
    pub p1: Vec3,
    pub p2: Vec3,
    pub p3: Vec3,
    pub drag: DragState,
}

/// The editor after one drag update at intersection point p: while a drag
/// of point i is in progress the update moves exactly point i there; an
/// idle editor ignores it.
pub open spec fn drag_step(s: ControlPointEditor, p: Vec3) -> ControlPointEditor {
    match s.drag {
        DragState::Idle => s,
        DragState::Dragging { point } => (ControlPointEditor {
            p0: if point == 0 {
                p
            } else {
                s.p0
            },
            p1: if point == 1 {
                p
            } else {
                s.p1
            },
            p2: if point == 2 {
                p
            } else {
                s.p2
            },
            p3: if point == 3 {
                p
            } else {
                s.p3
            },
            drag: s.drag,
        }),
    }
}

/// The editor after a whole drag session: one drag update per intersection
/// point, in order.
pub open spec fn apply_drags(s: ControlPointEditor, ps: Seq<Vec3>) -> ControlPointEditor
    decreases ps.len(),
{
    if ps.len() == 0 {
        s
    } else {
        apply_drags(drag_step(s, ps[0]), ps.drop_first())
    }
}

impl ControlPointEditor {
    /// The positions as a sequence, index 0 to 3.
    pub open spec fn points_seq(&self) -> Seq<Vec3> {
        seq![self.p0, self.p1, self.p2, self.p3]
    }

    /// All positions on the grid, and any dragged index in range.
    pub open spec fn wf(&self) -> bool {
        &&& fits3(self.p0, COORD_MAX as int)
        &&& fits3(self.p1, COORD_MAX as int)
        &&& fits3(self.p2, COORD_MAX as int)
        &&& fits3(self.p3, COORD_MAX as int)
        &&& match self.drag {
            DragState::Idle => true,
            DragState::Dragging { point } => point < 4,
        }
    }

    /// A fresh editor over the given positions, with no drag in progress.
    pub fn new(p0: Vec3, p1: Vec3, p2: Vec3, p3: Vec3) -> (r: ControlPointEditor)
        requires
            fits3(p0, COORD_MAX as int),
            fits3(p1, COORD_MAX as int),
            fits3(p2, COORD_MAX as int),
            fits3(p3, COORD_MAX as int),
        ensures
            r.points_seq() == seq![p0, p1, p2, p3],
            r.drag == DragState::Idle,
            r.wf(),
    {
        let r = ControlPointEditor { p0, p1, p2, p3, drag: DragState::Idle };
        proof {
            assert(r.points_seq() =~= seq![p0, p1, p2, p3]);
        }
        r
    }

    /// The position of control point i.
    pub fn point(&self, i: usize) -> (r: Vec3)
        requires
            i < 4,
        ensures
            r == self.points_seq()[i as int],
    {
        if i == 0 {
            self.p0
        } else if i == 1 {
            self.p1
        } else if i == 2 {
            self.p2
        } else {
            self.p3
        }
    }

    /// The current drag state.
    pub fn drag_state(&self) -> (r: DragState)
        ensures
            r == self.drag,
    {
        self.drag
    }

    /// A pointer press whose raycast hit control point i: an idle editor
    /// starts dragging that point; during a drag, or for an index that
    /// names no point, nothing changes, so no second point can ever join a
    /// drag in progress.
    pub fn begin_drag(&mut self, i: usize)
        requires
            old(self).wf(),
        ensures
            final(self).wf(),
            old(self).drag == DragState::Idle && i < 4 ==> *final(self) == (ControlPointEditor {
                drag: DragState::Dragging { point: i },
                ..*old(self)
            }),
            !(old(self).drag == DragState::Idle && i < 4) ==> *final(self) == *old(self),
    {
        if i < 4 {
            match self.drag {
                DragState::Idle => {
                    self.drag = DragState::Dragging { point: i };
                },
                DragState::Dragging { .. } => {
                },
            }
        }
    }

    /// One update tick whose drag-plane raycast hit p: moves exactly the
    /// dragged point there and keeps dragging it; an idle editor ignores
    /// the update. On a tick whose raycast misses, the caller does not call
    /// this at all, which holds the last valid position.
    pub fn drag_to(&mut self, p: Vec3)
        requires
            old(self).wf(),
            fits3(p, COORD_MAX as int),
        ensures
            final(self).wf(),
            *final(self) == drag_step(*old(self), p),
            final(self).drag == old(self).drag,
            old(self).drag matches DragState::Dragging { point } ==> final(self).points_seq()
                == old(self).points_seq().update(point as int, p),
            old(self).drag == DragState::Idle ==> *final(self) == *old(self),
    {
        match self.drag {
            DragState::Idle => {
            },
            DragState::Dragging { point } => {
                if point == 0 {
                    self.p0 = p;
                } else if point == 1 {
                    self.p1 = p;
                } else if point == 2 {
                    self.p2 = p;
                } else {
                    self.p3 = p;
                }
                proof {
                    assert(final(self).points_seq() =~= old(self).points_seq().update(
                        point as int,
                        p,
                    ));
                }
            },
        }
    }

    /// The pointer button was released: the drag ends, and every position
    /// is left exactly where it was.
    pub fn release(&mut self)
        requires
            old(self).wf(),
        ensures
            final(self).wf(),
            final(self).drag == DragState::Idle,
            final(self).points_seq() == old(self).points_seq(),
    {
        self.drag = DragState::Idle;
    }
}

/// A whole drag session does what each tick does: starting with a drag of
/// point i in progress, a run of drag updates keeps dragging point i, moves
/// it to each successive intersection — so afterwards it sits at the last
/// one — and leaves every other control point untouched.
pub proof fn lemma_drag_session(s: ControlPointEditor, i: usize, ps: Seq<Vec3>)
    requires
        i < 4,
        s.drag == (DragState::Dragging { point: i }),
        ps.len() > 0,
    ensures
        apply_drags(s, ps).drag == s.drag,
        apply_drags(s, ps).points_seq() == s.points_seq().update(i as int, ps.last()),
    decreases ps.len(),
{
    let s1 = drag_step(s, ps[0]);
    assert(s1.points_seq() =~= s.points_seq().update(i as int, ps[0]));
    if ps.len() == 1 {
        assert(apply_drags(s, ps) == s1);
        assert(ps.last() == ps[0]);
    } else {
        lemma_drag_session(s1, i, ps.drop_first());
        assert(ps.drop_first().last() == ps.last());
        assert(apply_drags(s, ps).points_seq() =~= s.points_seq().update(i as int, ps.last()));
    }
}

} // verus!
