//! The scene renderer state: the placed-die collection, one instance
//! transform set per die kind, and the per-frame planning step that
//! refreshes stale instance sets and lists one instanced draw call per
//! kind whose set is non-empty. The GPU work that executes a plan lives
//! outside this library.

use vstd::prelude::*;

use crate::die::{Die, DieKind};

verus! {

/// A world transform placing one die instance in scene space: a
/// translation in thousandths of a scene unit, with the rotation left at
/// the identity. The zero translation is the identity transform.
#[derive(Clone, Copy, Debug, PartialEq, Eq, Structural)]
pub struct Transform {
    pub x: i32,
    pub y: i32,
    pub z: i32,
}

impl Transform {
    /// The identity transform: no rotation, zero translation.
    pub open spec fn id() -> Transform {
        Transform { x: 0, y: 0, z: 0 }
    }

    /// The identity transform: no rotation, zero translation.
    pub fn identity() -> (t: Transform)
        ensures
            t == Transform::id(),
    {
        Transform { x: 0, y: 0, z: 0 }
    }
}

/// The position of each kind's instance set in the renderer's per-kind
/// vector.
pub open spec fn kind_index(kind: DieKind) -> int {
    match kind {
        DieKind::Four => 0,
        DieKind::Six => 1,
        DieKind::Eight => 2,
        DieKind::Ten => 3,
        DieKind::Twelve => 4,
        DieKind::Twenty => 5,
    }
}

/// The kind whose instance set sits at the given position.
pub open spec fn index_kind(i: int) -> DieKind {
    if i == 0 {
        DieKind::Four
    } else if i == 1 {
        DieKind::Six
    } else if i == 2 {
        DieKind::Eight
    } else if i == 3 {
        DieKind::Ten
    } else if i == 4 {
        DieKind::Twelve
    } else {
        DieKind::Twenty
    }
}

/// The position of each kind's instance set in the renderer's per-kind
/// vector.
pub fn kind_slot(kind: DieKind) -> (i: usize)
    ensures
        i == kind_index(kind),
        0 <= i < 6,
        index_kind(i as int) == kind,
{
    match kind {
        DieKind::Four => 0,
        DieKind::Six => 1,
        DieKind::Eight => 2,
        DieKind::Ten => 3,
        DieKind::Twelve => 4,
        DieKind::Twenty => 5,
    }
}

/// The kind whose instance set sits at the given position.
pub fn slot_kind(i: usize) -> (kind: DieKind)
    requires
        0 <= i < 6,
    ensures
        kind == index_kind(i as int),
        kind_index(kind) == i,
{
    if i == 0 {
        DieKind::Four
    } else if i == 1 {
        DieKind::Six
    } else if i == 2 {
        DieKind::Eight
    } else if i == 3 {
        DieKind::Ten
    } else if i == 4 {
        DieKind::Twelve
    } else {
        DieKind::Twenty
    }
}

/// How many dice of the given kind a collection holds.
pub open spec fn count_kind(s: Seq<Die>, kind: DieKind) -> nat
    decreases s.len(),
{
    if s.len() == 0 {
        0
    } else {
        count_kind(s.drop_last(), kind) + if s.last().kind == kind {
            1nat
        } else {
            0nat
        }
    }
}

/// Appending a die raises its kind's count by one and no other.
pub proof fn lemma_count_push(s: Seq<Die>, d: Die, kind: DieKind)
    ensures
        d.kind == kind ==> count_kind(s.push(d), kind) == count_kind(s, kind) + 1,
        d.kind != kind ==> count_kind(s.push(d), kind) == count_kind(s, kind),
{
    assert(s.push(d).drop_last() =~= s);
    assert(s.push(d).last() == d);
}

/// A kind's count never exceeds the collection's size.
pub proof fn lemma_count_le_len(s: Seq<Die>, kind: DieKind)
    ensures
        count_kind(s, kind) <= s.len(),
    decreases s.len(),
{
    if s.len() > 0 {
        lemma_count_le_len(s.drop_last(), kind);
    }
}

/// In a one-die collection, the die's own kind counts one and every other
/// kind counts zero.
pub proof fn lemma_count_single(s: Seq<Die>, kind: DieKind)
    requires
        s.len() == 1,
    ensures
        s[0].kind == kind ==> count_kind(s, kind) == 1,
        s[0].kind != kind ==> count_kind(s, kind) == 0,
{
    assert(s.drop_last().len() == 0);
    assert(count_kind(s.drop_last(), kind) == 0);
    assert(s.last() == s[0]);
}

/// Counts depend on the dice's kinds alone.
pub proof fn lemma_count_same_kinds(s1: Seq<Die>, s2: Seq<Die>, kind: DieKind)
    requires
        s1.len() == s2.len(),
        forall|i: int| 0 <= i < s1.len() ==> s1[i].kind == s2[i].kind,
    ensures
        count_kind(s1, kind) == count_kind(s2, kind),
    decreases s1.len(),
{
    if s1.len() > 0 {
        assert(forall|i: int|
            0 <= i < s1.drop_last().len() ==> s1.drop_last()[i].kind == s2.drop_last()[i].kind);
        lemma_count_same_kinds(s1.drop_last(), s2.drop_last(), kind);
    }
}

/// One instanced draw call of a frame: the kind picking the static mesh,
/// and one world transform per drawn instance.
pub struct DrawCall {
    pub kind: DieKind,
    pub transforms: Vec<Transform>,
}

/// One planned frame: the viewport whose aspect ratio fixes the
/// projection (scale x by height over width, identity otherwise), and the
/// instanced draw calls to issue after clearing the frame. Kinds with an
/// empty instance set get no call.
pub struct FramePlan {
    pub width: u32,
    pub height: u32,
    pub calls: Vec<DrawCall>,
}

/// The scene renderer state: every placed die, the size the collection
/// had when instance sets were last rebuilt, and one instance transform
/// set per kind, indexed by `kind_index`.
pub struct Renderer {
    pub dice: Vec<Die>,
    pub prev_size: usize,
    pub instance_sets: Vec<Vec<Transform>>,
}

impl Renderer {
    /// The instance set of the kind at the given position.
    pub open spec fn set_at(self, k: int) -> Seq<Transform> {
        self.instance_sets@[k]@
    }

    /// The renderer's invariant: six instance sets; every die valid; no
    /// set larger than its kind's die count; every stored transform the
    /// identity (the only placement the layout produces); the rebuild
    /// size never ahead of the collection; and after a rebuild at size
    /// one, the single die's set holding its one transform.
    pub open spec fn wf(self) -> bool {
        &&& self.instance_sets@.len() == 6
        &&& forall|i: int| 0 <= i < self.dice@.len() ==> self.dice@[i].valid()
        &&& forall|k: int|
            0 <= k < 6 ==> (#[trigger] self.set_at(k)).len() <= count_kind(
                self.dice@,
                index_kind(k),
            )
        &&& forall|k: int, j: int|
            0 <= k < 6 && 0 <= j < self.set_at(k).len() ==> #[trigger] self.set_at(k)[j]
                == Transform::id()
        &&& self.prev_size <= self.dice@.len()
        &&& (self.prev_size == 1 && self.dice@.len() == 1) ==> self.set_at(
            kind_index(self.dice@[0].kind),
        ).len() == 1
    }

    /// A fresh renderer: no dice placed, all six instance sets empty.
    /// Building this state never fails; whether a renderer may be built
    /// at all is decided by the surface's realize step, which refuses a
    /// dead context before any construction, and GPU-side upload or
    /// shader failures are fatal in the layer that talks to the GPU.
    pub fn new() -> (r: Renderer)
        ensures
            r.wf(),
            r.dice@.len() == 0,
            r.prev_size == 0,
            forall|k: int| 0 <= k < 6 ==> (#[trigger] r.set_at(k)).len() == 0,
    {
        let mut instance_sets: Vec<Vec<Transform>> = Vec::new();
        let mut k: usize = 0;
        while k < 6
            invariant
                k <= 6,
                instance_sets@.len() == k,
                forall|i: int| 0 <= i < k ==> (#[trigger] instance_sets@[i]@).len() == 0,
            decreases 6 - k,
        {
            instance_sets.push(Vec::new());
            k += 1;
        }
        let r = Renderer { dice: Vec::new(), prev_size: 0, instance_sets };
        proof {
            assert(forall|kind: DieKind| count_kind(r.dice@, kind) == 0);
        }
        r
    }

    /// Appends a fresh die of the requested kind. The kind's placed-die
    /// count rises by exactly one and every other kind's count is
    /// untouched; instance sets are left stale for the next frame.
    pub fn add_die(&mut self, kind: DieKind)
        requires
            old(self).wf(),
        ensures
            final(self).wf(),
            final(self).dice@.len() == old(self).dice@.len() + 1,
            forall|i: int| 0 <= i < old(self).dice@.len() ==> final(self).dice@[i] == old(
                self,
            ).dice@[i],
            final(self).dice@.last().kind == kind,
            final(self).dice@.last().valid(),
            final(self).dice@.last().time is Some,
            count_kind(final(self).dice@, kind) == count_kind(old(self).dice@, kind) + 1,
            forall|k2: DieKind|
                k2 != kind ==> count_kind(final(self).dice@, k2) == count_kind(
                    old(self).dice@,
                    k2,
                ),
            final(self).instance_sets == old(self).instance_sets,
            final(self).prev_size == old(self).prev_size,
    {
        let d = Die::new(kind);
        self.dice.push(d);
        proof {
            assert forall|k2: DieKind| k2 != kind implies #[trigger] count_kind(self.dice@, k2)
                == count_kind(old(self).dice@, k2) by {
                lemma_count_push(old(self).dice@, d, k2);
            }
            lemma_count_push(old(self).dice@, d, kind);
            assert(forall|k: int| #[trigger] self.set_at(k) == old(self).set_at(k));
        }
    }

    /// Rolls every placed die in place: each keeps its kind and gets a
    /// fresh uniform value and timestamp. No geometry or instance set
    /// changes.
    pub fn roll_all(&mut self)
        requires
            old(self).wf(),
        ensures
            final(self).wf(),
            final(self).dice@.len() == old(self).dice@.len(),
            forall|i: int|
                0 <= i < old(self).dice@.len() ==> #[trigger] final(self).dice@[i].kind == old(
                    self,
                ).dice@[i].kind && final(self).dice@[i].valid(),
            forall|i: int|
                0 <= i < final(self).dice@.len() ==> (#[trigger] final(self).dice@[i].time)
                    is Some,
            final(self).instance_sets == old(self).instance_sets,
            final(self).prev_size == old(self).prev_size,
    {
        let n = self.dice.len();
        let mut i: usize = 0;
        while i < n
            invariant
                i <= n,
                n == self.dice@.len(),
                n == old(self).dice@.len(),
                self.instance_sets == old(self).instance_sets,
                self.prev_size == old(self).prev_size,
                forall|j: int|
                    0 <= j < i ==> #[trigger] self.dice@[j].kind == old(self).dice@[j].kind
                        && self.dice@[j].valid(),
                forall|j: int| 0 <= j < i ==> (#[trigger] self.dice@[j].time) is Some,
                forall|j: int| i <= j < n ==> #[trigger] self.dice@[j] == old(self).dice@[j],
            decreases n - i,
        {
            self.dice[i].roll();
            i += 1;
        }
        proof {
            assert forall|kind: DieKind| #[trigger] count_kind(self.dice@, kind) == count_kind(
                old(self).dice@,
                kind,
            ) by {
                lemma_count_same_kinds(self.dice@, old(self).dice@, kind);
            }
            assert(forall|k: int| #[trigger] self.set_at(k) == old(self).set_at(k));
        }
    }

    /// The draw calls of a planned frame match the renderer's instance
    /// sets: every call carries a non-empty set's contents, calls come in
    /// kind order, and every kind with a non-empty set gets a call.
    pub open spec fn calls_match(self, calls: Seq<DrawCall>) -> bool {
        &&& forall|j: int|
            0 <= j < calls.len() ==> (#[trigger] calls[j]).transforms@ == self.set_at(
                kind_index(calls[j].kind),
            ) && self.set_at(kind_index(calls[j].kind)).len() > 0
        &&& forall|j1: int, j2: int|
            0 <= j1 < j2 < calls.len() ==> kind_index(#[trigger] calls[j1].kind) < kind_index(
                #[trigger] calls[j2].kind,
            )
        &&& forall|k: int|
            0 <= k < 6 && (#[trigger] self.set_at(k)).len() > 0 ==> exists|j: int|
                0 <= j < calls.len() && (#[trigger] calls[j]).kind == index_kind(k)
    }

    /// Plans one frame. If the number of placed dice changed since the
    /// last frame and exactly one die is placed, that die's kind gets its
    /// instance set rebuilt as the single identity transform (origin,
    /// identity rotation); any other change of size leaves the sets as
    /// they are. The plan carries the viewport for the projection and one
    /// instanced draw call per kind whose instance set is non-empty, in
    /// kind order. With no placed dice the plan has no draw calls.
    pub fn draw(&mut self, width: u32, height: u32) -> (plan: FramePlan)
        requires
            old(self).wf(),
        ensures
            final(self).wf(),
            final(self).dice@ == old(self).dice@,
            plan.width == width,
            plan.height == height,
            (old(self).dice@.len() == old(self).prev_size || old(self).dice@.len() != 1) ==> {
                &&& final(self).instance_sets == old(self).instance_sets
                &&& final(self).prev_size == old(self).prev_size
            },
            (old(self).dice@.len() != old(self).prev_size && old(self).dice@.len() == 1) ==> {
                &&& final(self).prev_size == 1
                &&& final(self).set_at(kind_index(old(self).dice@[0].kind)) =~= seq![
                    Transform::id(),
                ]
                &&& forall|k: int|
                    0 <= k < 6 && k != kind_index(old(self).dice@[0].kind)
                        ==> #[trigger] final(self).set_at(k) == old(self).set_at(k)
            },
            final(self).calls_match(plan.calls@),
            old(self).dice@.len() == 0 ==> plan.calls@.len() == 0,
            old(self).dice@.len() == 1 ==> plan.calls@.len() == 1 && plan.calls@[0].kind == old(
                self,
            ).dice@[0].kind && plan.calls@[0].transforms@ =~= seq![Transform::id()],
    {
        let size = self.dice.len();
        if size != self.prev_size && size == 1 {
            let kind = self.dice[0].kind;
            let slot = kind_slot(kind);
            let mut single: Vec<Transform> = Vec::new();
            single.push(Transform::identity());
            self.instance_sets.set(slot, single);
            self.prev_size = size;
            proof {
                lemma_count_single(self.dice@, kind);
                assert(self.set_at(slot as int) =~= seq![Transform::id()]);
                assert(forall|k: int|
                    0 <= k < 6 && k != slot ==> #[trigger] self.set_at(k) == old(self).set_at(k));
            }
        } else {
            proof {
                assert(forall|k: int| #[trigger] self.set_at(k) == old(self).set_at(k));
            }
        }
        let mut calls: Vec<DrawCall> = Vec::new();
        let mut k: usize = 0;
        while k < 6
            invariant
                k <= 6,
                self.wf(),
                forall|j: int|
                    0 <= j < calls@.len() ==> (#[trigger] calls@[j]).transforms@ == self.set_at(
                        kind_index(calls@[j].kind),
                    ) && self.set_at(kind_index(calls@[j].kind)).len() > 0 && kind_index(
                        calls@[j].kind,
                    ) < k,
                forall|j1: int, j2: int|
                    0 <= j1 < j2 < calls@.len() ==> kind_index(#[trigger] calls@[j1].kind)
                        < kind_index(#[trigger] calls@[j2].kind),
                forall|k2: int|
                    0 <= k2 < k && (#[trigger] self.set_at(k2)).len() > 0 ==> exists|j: int|
                        0 <= j < calls@.len() && (#[trigger] calls@[j]).kind == index_kind(k2),
            decreases 6 - k,
        {
            let ghost calls0 = calls@;
            if self.instance_sets[k].len() > 0 {
                let m = self.instance_sets[k].len();
                let mut ts: Vec<Transform> = Vec::new();
                let mut j: usize = 0;
                while j < m
                    invariant
                        j <= m,
                        k < 6,
                        self.instance_sets@.len() == 6,
                        m == self.set_at(k as int).len(),
                        ts@ =~= self.set_at(k as int).subrange(0, j as int),
                    decreases m - j,
                {
                    let t = self.instance_sets[k][j];
                    ts.push(t);
                    j += 1;
                }
                proof {
                    assert(ts@ =~= self.set_at(k as int));
                }
                let dk = slot_kind(k);
                calls.push(DrawCall { kind: dk, transforms: ts });
            }
            proof {
                assert forall|k2: int|
                    0 <= k2 <= k && (#[trigger] self.set_at(k2)).len() > 0 implies exists|j: int|
                        0 <= j < calls@.len() && (#[trigger] calls@[j]).kind == index_kind(k2) by {
                    if k2 == k {
                        assert(calls@[calls@.len() - 1].kind == index_kind(k2));
                    } else {
                        let j0 = choose|j: int|
                            0 <= j < calls0.len() && (#[trigger] calls0[j]).kind == index_kind(k2);
                        assert(calls@[j0].kind == index_kind(k2));
                    }
                }
            }
            k += 1;
        }
        proof {
            if old(self).dice@.len() == 0 {
                assert forall|k2: int| 0 <= k2 < 6 implies (#[trigger] self.set_at(k2)).len()
                    == 0 by {
                    assert(count_kind(self.dice@, index_kind(k2)) == 0);
                }
                if calls@.len() > 0 {
                    assert(self.set_at(kind_index(calls@[0].kind)).len() > 0);
                }
            }
            if old(self).dice@.len() == 1 {
                let kidx = kind_index(self.dice@[0].kind);
                assert(index_kind(kidx) == self.dice@[0].kind);
                assert forall|k2: int| 0 <= k2 < 6 && k2 != kidx implies (#[trigger] self.set_at(
                    k2,
                )).len() == 0 by {
                    lemma_count_single(self.dice@, index_kind(k2));
                }
                assert(self.set_at(kidx).len() == 1);
                assert(self.set_at(kidx) =~= seq![Transform::id()]);
                assert(calls@.len() >= 1);
                if calls@.len() >= 2 {
                    assert(kind_index(calls@[0].kind) < kind_index(calls@[1].kind));
                    assert(self.set_at(kind_index(calls@[0].kind)).len() > 0);
                    assert(self.set_at(kind_index(calls@[1].kind)).len() > 0);
                }
                assert(calls@[0].kind == self.dice@[0].kind);
            }
        }
        FramePlan { width, height, calls }
    }

    /// How many dice of the given kind are placed.
    pub fn die_count(&self, kind: DieKind) -> (n: usize)
        ensures
            n == count_kind(self.dice@, kind),
    {
        let mut n: usize = 0;
        let mut i: usize = 0;
        while i < self.dice.len()
            invariant
                i <= self.dice@.len(),
                n == count_kind(self.dice@.subrange(0, i as int), kind),
                n <= i,
            decreases self.dice@.len() - i,
        {
            proof {
                assert(self.dice@.subrange(0, i + 1).drop_last() =~= self.dice@.subrange(
                    0,
                    i as int,
                ));
                assert(self.dice@.subrange(0, i + 1).last() == self.dice@[i as int]);
                lemma_count_le_len(self.dice@.subrange(0, i + 1), kind);
            }
            if self.dice[i].kind == kind {
                n += 1;
            }
            i += 1;
        }
        proof {
            assert(self.dice@.subrange(0, self.dice@.len() as int) =~= self.dice@);
        }
        n
    }
}

} // verus!
