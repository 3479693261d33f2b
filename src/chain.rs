use crate::angle::{
    angle_diff, constrain_angle, constrained, lemma_angle_diff_congruent, same_direction,
    FULL_TURN, HALF_TURN,
};
use vstd::prelude::*;

verus! {

/// The largest number of joints a chain may have.
pub const MAX_JOINTS: usize = 1_000_000;

/// No angle of a chain is larger than this in magnitude.
pub const MAX_ANGLE: i64 = 180_000_360_000_000;

/// The orientations of a chain of equal links, solved head first.
///
/// `angles[i]` (for `i >= 1`) is the direction of the link from joint `i - 1`
/// to joint `i`, pointing back toward the parent; `angles[0]` is the head's
/// heading. The joint positions are held by the host, which measures the
/// direction of each old joint from its freshly placed parent and places the
/// joint again along the angle that the chain decides.
///
/// A resolve pass is `begin_resolve`, then `resolve_next` once for each link
/// in order, then `finish_resolve`.
pub struct Chain {
    angles: Vec<i64>,
    angle_constraint: i64,
    next: usize,
}

/// Link `j` turns at most `limit` away from link `j - 1`.
pub open spec fn link_within(angles: Seq<i64>, j: int, limit: int) -> bool {
    -limit <= angle_diff(angles[j - 1] as int, angles[j] as int) <= limit
}

/// The largest magnitude that `angles[j]` can reach.
pub open spec fn angle_bound(j: int) -> int {
    FULL_TURN + j * HALF_TURN
}

impl Chain {
    pub closed spec fn angles_view(&self) -> Seq<i64> {
        self.angles@
    }

    pub closed spec fn constraint_view(&self) -> int {
        self.angle_constraint as int
    }

    /// The link that the running pass places next.
    pub closed spec fn next_view(&self) -> int {
        self.next as int
    }

    pub closed spec fn wf(&self) -> bool {
        &&& self.angles@.len() <= MAX_JOINTS
        &&& 0 <= self.angle_constraint
        &&& self.next <= self.angles@.len()
        &&& (self.angles@.len() > 0 ==> 1 <= self.next)
        &&& forall|j: int|
            0 <= j < self.angles@.len() ==> -angle_bound(j) <= #[trigger] self.angles@[j]
                <= angle_bound(j)
        &&& forall|j: int|
            2 <= j < self.next ==> #[trigger] link_within(
                self.angles@,
                j,
                self.angle_constraint as int,
            )
    }

    /// A straight chain of `count` joints, every link pointing back along -X
    /// (half a turn).
    pub fn new(count: usize, angle_constraint: i64) -> (r: Chain)
        requires
            count <= MAX_JOINTS,
            0 <= angle_constraint,
        ensures
            r.wf(),
            r.angles_view() == Seq::new(count as nat, |i: int| HALF_TURN),
            r.constraint_view() == angle_constraint,
            r.next_view() == count,
    {
        let mut angles: Vec<i64> = Vec::with_capacity(count);
        let mut i: usize = 0;
        while i < count
            invariant
                i <= count,
                angles@ == Seq::new(i as nat, |k: int| HALF_TURN),
            decreases count - i,
        {
            angles.push(HALF_TURN);
            i = i + 1;
        }
        let r = Chain { angles, angle_constraint, next: count };
        assert forall|j: int| 2 <= j < r.next implies #[trigger] link_within(
            r.angles@,
            j,
            angle_constraint as int,
        ) by {
            assert(angle_diff(HALF_TURN as int, HALF_TURN as int) == 0);
        }
        r
    }

    pub fn len(&self) -> (r: usize)
        ensures
            r == self.angles_view().len(),
    {
        self.angles.len()
    }

    pub fn angle(&self, i: usize) -> (r: i64)
        requires
            self.wf(),
            i < self.angles_view().len(),
        ensures
            r == self.angles_view()[i as int],
            -MAX_ANGLE <= r <= MAX_ANGLE,
    {
        proof {
            assert(-angle_bound(i as int) <= self.angles@[i as int] <= angle_bound(i as int));
            assert(angle_bound(i as int) <= MAX_ANGLE) by (nonlinear_arith)
                requires
                    i < MAX_JOINTS,
            ;
        }
        self.angles[i]
    }

    pub fn angle_constraint(&self) -> (r: i64)
        ensures
            r == self.constraint_view(),
    {
        self.angle_constraint
    }

    /// The link that the running pass places next; equal to `len()` when no
    /// pass is running.
    pub fn next_link(&self) -> (r: usize)
        ensures
            r == self.next_view(),
    {
        self.next
    }

    /// In a chain at rest (no pass running), every link behind the neck
    /// turns at most `angle_constraint` from the link before it.
    pub proof fn lemma_links_within(&self)
        requires
            self.wf(),
            self.next_view() == self.angles_view().len(),
        ensures
            forall|j: int|
                2 <= j < self.angles_view().len() ==> #[trigger] link_within(
                    self.angles_view(),
                    j,
                    self.constraint_view(),
                ),
    {
    }

    /// Starts a pass: the head has been moved to its target, and every link
    /// is to be placed again, from the neck back.
    pub fn begin_resolve(&mut self)
        requires
            old(self).wf(),
        ensures
            final(self).wf(),
            final(self).angles_view() == old(self).angles_view(),
            final(self).constraint_view() == old(self).constraint_view(),
            final(self).next_view() == if old(self).angles_view().len() == 0 {
                0int
            } else {
                1int
            },
    {
        if self.angles.len() > 0 {
            self.next = 1;
        }
    }

    /// Places the next link. `measured` is the direction from the freshly
    /// placed parent joint to the link's old joint, or `None` where the two
    /// coincide and no direction exists; the link then keeps its previous
    /// angle as the direction it wants. The link turns toward that direction
    /// from its parent link's new angle, at most `angle_constraint`; the
    /// angle is stored and returned, and the host places the joint along it.
    pub fn resolve_next(&mut self, measured: Option<i64>) -> (r: i64)
        requires
            old(self).wf(),
            old(self).next_view() < old(self).angles_view().len(),
        ensures
            final(self).wf(),
            ({
                let i = old(self).next_view();
                let a = old(self).angles_view();
                let desired = match measured {
                    Some(m) => m as int,
                    None => a[i] as int,
                };
                &&& r == constrained(a[i - 1] as int, desired, old(self).constraint_view())
                &&& final(self).angles_view() == a.update(i, r)
                &&& final(self).next_view() == i + 1
                &&& link_within(final(self).angles_view(), i, old(self).constraint_view())
            }),
            final(self).constraint_view() == old(self).constraint_view(),
    {
        let i = self.next;
        let reference = self.angles[i - 1];
        let desired = match measured {
            Some(m) => m,
            None => self.angles[i],
        };
        proof {
            assert(-angle_bound(i - 1) <= self.angles@[i - 1] <= angle_bound(i - 1));
            assert(angle_bound(i - 1) <= FULL_TURN + MAX_JOINTS * HALF_TURN) by (nonlinear_arith)
                requires
                    i < MAX_JOINTS,
            ;
        }
        let r = constrain_angle(reference, desired, self.angle_constraint);
        let ghost before = self.angles@;
        self.angles.set(i, r);
        self.next = i + 1;
        proof {
            assert(self.angles@[i as int] == r);
            assert forall|j: int| 0 <= j < self.angles@.len() implies -angle_bound(j)
                <= #[trigger] self.angles@[j] <= angle_bound(j) by {
                if j != i {
                    assert(self.angles@[j] == before[j]);
                }
            }
            assert forall|j: int| 2 <= j < self.next implies #[trigger] link_within(
                self.angles@,
                j,
                self.angle_constraint as int,
            ) by {
                if j < i {
                    assert(link_within(before, j, self.angle_constraint as int));
                }
            }
        }
        r
    }

    /// Ends a pass: the head's heading becomes `heading`, the measured
    /// direction from the new head to the new neck joint, or stays as it was
    /// where none exists. Every link behind the neck then turns at most
    /// `angle_constraint` from the one before it; so does the neck, when the
    /// heading points along it.
    pub fn finish_resolve(&mut self, heading: Option<i64>)
        requires
            old(self).wf(),
            old(self).next_view() == old(self).angles_view().len(),
            heading matches Some(h) ==> 0 <= h <= FULL_TURN,
        ensures
            final(self).wf(),
            final(self).constraint_view() == old(self).constraint_view(),
            final(self).next_view() == old(self).next_view(),
            final(self).angles_view() == match heading {
                Some(h) => if old(self).angles_view().len() == 0 {
                    old(self).angles_view()
                } else {
                    old(self).angles_view().update(0, h)
                },
                None => old(self).angles_view(),
            },
            forall|j: int|
                2 <= j < final(self).angles_view().len() ==> #[trigger] link_within(
                    final(self).angles_view(),
                    j,
                    final(self).constraint_view(),
                ),
            heading matches Some(h) ==> (final(self).angles_view().len() >= 2 && same_direction(
                h as int,
                old(self).angles_view()[1] as int,
            ) ==> link_within(final(self).angles_view(), 1, final(self).constraint_view())),
    {
        let ghost before = self.angles@;
        match heading {
            Some(h) => {
                if self.angles.len() > 0 {
                    self.angles.set(0, h);
                }
            },
            None => {},
        }
        proof {
            assert forall|j: int| 0 <= j < self.angles@.len() implies -angle_bound(j)
                <= #[trigger] self.angles@[j] <= angle_bound(j) by {
                if j != 0 {
                    assert(self.angles@[j] == before[j]);
                }
            }
            assert forall|j: int| 2 <= j < self.next implies #[trigger] link_within(
                self.angles@,
                j,
                self.angle_constraint as int,
            ) by {
                assert(link_within(before, j, self.angle_constraint as int));
                assert(self.angles@[j] == before[j]);
                assert(self.angles@[j - 1] == before[j - 1]);
            }
            if let Some(h) = heading {
                if self.angles@.len() >= 2 && same_direction(h as int, before[1] as int) {
                    // The neck points along the heading: they differ by nothing.
                    lemma_neg_multiple(h - before[1]);
                    lemma_angle_diff_congruent(h as int, before[1] as int, h as int, h as int);
                }
            }
        }
    }
}

proof fn lemma_neg_multiple(x: int)
    requires
        x % (FULL_TURN as int) == 0,
    ensures
        (-x) % (FULL_TURN as int) == 0,
{
    let f = FULL_TURN as int;
    vstd::arithmetic::div_mod::lemma_fundamental_div_mod(x, f);
    let q = x / f;
    assert(-x == (-q) * f) by (nonlinear_arith)
        requires
            x == f * q + x % f,
            x % f == 0,
    ;
    vstd::arithmetic::div_mod::lemma_mod_multiples_basic(-q, f);
}

} // verus!
