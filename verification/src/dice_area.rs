//! The rendering surface's state machine. A surface starts unrealized;
//! realizing it with a live context constructs the scene renderer, and
//! unrealizing destroys it. Die additions and rolls arriving while the
//! surface is unrealized are no-ops reported to the caller; drawing is
//! only valid while realized.

use vstd::pervasive::unreached;
use vstd::prelude::*;

use crate::die::DieKind;
use crate::scene::{count_kind, FramePlan, Renderer, Transform};

verus! {

/// The fatal construction failure: the rendering context could not be
/// made, so no renderer was built and no geometry was registered.
#[derive(Clone, Copy, Debug, PartialEq, Eq, Structural)]
pub enum RealizeError {
    ContextUnavailable,
}

/// One die was appended to a realized surface's scene: its kind's count
/// rose by exactly one, every other kind's count is untouched, the new
/// die carries a roll time, and the instance sets were left for the next
/// frame to refresh.
pub open spec fn added_one(pre: DiceArea, post: DiceArea, kind: DieKind) -> bool {
    &&& pre.is_realized() && post.is_realized()
    &&& post.renderer->0.dice@.len() == pre.renderer->0.dice@.len() + 1
    &&& forall|i: int|
        0 <= i < pre.renderer->0.dice@.len() ==> post.renderer->0.dice@[i]
            == pre.renderer->0.dice@[i]
    &&& post.renderer->0.dice@.last().kind == kind
    &&& post.renderer->0.dice@.last().valid()
    &&& post.renderer->0.dice@.last().time is Some
    &&& count_kind(post.renderer->0.dice@, kind) == count_kind(pre.renderer->0.dice@, kind) + 1
    &&& forall|k2: DieKind|
        k2 != kind ==> count_kind(post.renderer->0.dice@, k2) == count_kind(
            pre.renderer->0.dice@,
            k2,
        )
    &&& post.renderer->0.instance_sets == pre.renderer->0.instance_sets
    &&& post.renderer->0.prev_size == pre.renderer->0.prev_size
}

/// The widget state around the scene renderer: the renderer exists
/// exactly while the surface is realized.
pub struct DiceArea {
    pub renderer: Option<Renderer>,
}

impl DiceArea {
    /// A realized surface holds a well-formed scene.
    pub open spec fn wf(self) -> bool {
        self.renderer matches Some(r) ==> r.wf()
    }

    /// Whether the surface is realized, that is, holds a live renderer.
    pub open spec fn is_realized(self) -> bool {
        self.renderer is Some
    }

    /// A fresh surface: unrealized, with no renderer and no geometry.
    pub fn new() -> (area: DiceArea)
        ensures
            area.wf(),
            !area.is_realized(),
    {
        DiceArea { renderer: None }
    }

    /// Realizes the surface. With a live context this constructs the
    /// scene renderer: empty die collection, all instance sets empty.
    /// Without one it fails fatally and registers nothing: the state is
    /// exactly as before.
    pub fn realize(&mut self, context_ok: bool) -> (result: Result<(), RealizeError>)
        requires
            old(self).wf(),
        ensures
            final(self).wf(),
            context_ok ==> {
                &&& result is Ok
                &&& final(self).is_realized()
                &&& final(self).renderer->0.dice@.len() == 0
                &&& final(self).renderer->0.prev_size == 0
                &&& forall|k: int|
                    0 <= k < 6 ==> (#[trigger] final(self).renderer->0.set_at(k)).len() == 0
            },
            !context_ok ==> {
                &&& result == Result::<(), RealizeError>::Err(RealizeError::ContextUnavailable)
                &&& *final(self) == *old(self)
            },
    {
        if context_ok {
            self.renderer = Some(Renderer::new());
            Ok(())
        } else {
            Err(RealizeError::ContextUnavailable)
        }
    }

    /// Tears the surface down, destroying the renderer and every
    /// GPU-side resource it stood for.
    pub fn unrealize(&mut self)
        ensures
            final(self).wf(),
            !final(self).is_realized(),
    {
        self.renderer = None;
    }

    /// Appends a die of the given kind, or does nothing and reports it
    /// when the surface is unrealized.
    pub fn add_die(&mut self, kind: DieKind) -> (added: bool)
        requires
            old(self).wf(),
        ensures
            final(self).wf(),
            added == old(self).is_realized(),
            !added ==> *final(self) == *old(self),
            added ==> added_one(*old(self), *final(self), kind),
    {
        match &mut self.renderer {
            Some(r) => {
                r.add_die(kind);
                true
            },
            None => false,
        }
    }

    /// Appends a four-sided die, if the surface is realized.
    pub fn add_four(&mut self) -> (added: bool)
        requires
            old(self).wf(),
        ensures
            final(self).wf(),
            added == old(self).is_realized(),
            !added ==> *final(self) == *old(self),
            added ==> added_one(*old(self), *final(self), DieKind::Four),
    {
        self.add_die(DieKind::Four)
    }

    /// Appends a six-sided die, if the surface is realized.
    pub fn add_six(&mut self) -> (added: bool)
        requires
            old(self).wf(),
        ensures
            final(self).wf(),
            added == old(self).is_realized(),
            !added ==> *final(self) == *old(self),
            added ==> added_one(*old(self), *final(self), DieKind::Six),
    {
        self.add_die(DieKind::Six)
    }

    /// Appends an eight-sided die, if the surface is realized.
    pub fn add_eight(&mut self) -> (added: bool)
        requires
            old(self).wf(),
        ensures
            final(self).wf(),
            added == old(self).is_realized(),
            !added ==> *final(self) == *old(self),
            added ==> added_one(*old(self), *final(self), DieKind::Eight),
    {
        self.add_die(DieKind::Eight)
    }

    /// Appends a ten-sided die, if the surface is realized.
    pub fn add_ten(&mut self) -> (added: bool)
        requires
            old(self).wf(),
        ensures
            final(self).wf(),
            added == old(self).is_realized(),
            !added ==> *final(self) == *old(self),
            added ==> added_one(*old(self), *final(self), DieKind::Ten),
    {
        self.add_die(DieKind::Ten)
    }

    /// Appends a twelve-sided die, if the surface is realized.
    pub fn add_twelve(&mut self) -> (added: bool)
        requires
            old(self).wf(),
        ensures
            final(self).wf(),
            added == old(self).is_realized(),
            !added ==> *final(self) == *old(self),
            added ==> added_one(*old(self), *final(self), DieKind::Twelve),
    {
        self.add_die(DieKind::Twelve)
    }

    /// Appends a twenty-sided die, if the surface is realized.
    pub fn add_twenty(&mut self) -> (added: bool)
        requires
            old(self).wf(),
        ensures
            final(self).wf(),
            added == old(self).is_realized(),
            !added ==> *final(self) == *old(self),
            added ==> added_one(*old(self), *final(self), DieKind::Twenty),
    {
        self.add_die(DieKind::Twenty)
    }

    /// Rolls every placed die in place, or does nothing and reports it
    /// when the surface is unrealized. Each die keeps its kind and gets
    /// a fresh uniform value and a fresh roll time.
    pub fn roll(&mut self) -> (rolled: bool)
        requires
            old(self).wf(),
        ensures
            final(self).wf(),
            rolled == old(self).is_realized(),
            !rolled ==> *final(self) == *old(self),
            rolled ==> {
                &&& final(self).is_realized()
                &&& final(self).renderer->0.dice@.len() == old(self).renderer->0.dice@.len()
                &&& forall|i: int|
                    0 <= i < old(self).renderer->0.dice@.len()
                        ==> #[trigger] final(self).renderer->0.dice@[i].kind
                        == old(self).renderer->0.dice@[i].kind
                        && final(self).renderer->0.dice@[i].valid()
                        && final(self).renderer->0.dice@[i].time is Some
                &&& final(self).renderer->0.instance_sets == old(self).renderer->0.instance_sets
                &&& final(self).renderer->0.prev_size == old(self).renderer->0.prev_size
            },
    {
        match &mut self.renderer {
            Some(r) => {
                r.roll_all();
                true
            },
            None => false,
        }
    }

    /// Plans one frame of the realized surface: refreshes stale instance
    /// sets and lists one instanced draw call per kind with instances,
    /// as `Renderer::draw` states in full. The host guarantees the
    /// context is current and the surface realized before each tick.
    pub fn render(&mut self, width: u32, height: u32) -> (plan: FramePlan)
        requires
            old(self).wf(),
            old(self).is_realized(),
        ensures
            final(self).wf(),
            final(self).is_realized(),
            final(self).renderer->0.dice@ == old(self).renderer->0.dice@,
            plan.width == width,
            plan.height == height,
            final(self).renderer->0.calls_match(plan.calls@),
            old(self).renderer->0.dice@.len() == 0 ==> plan.calls@.len() == 0,
            old(self).renderer->0.dice@.len() == 1 ==> plan.calls@.len() == 1
                && plan.calls@[0].kind == old(self).renderer->0.dice@[0].kind
                && plan.calls@[0].transforms@ =~= seq![Transform::id()],
    {
        match &mut self.renderer {
            Some(r) => r.draw(width, height),
            None => unreached(),
        }
    }
}

} // verus!
