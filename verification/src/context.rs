//! Async context frames: which value each context is bound to, how `run`
//! stacks the bindings, and how a continuation that was scheduled under one
//! frame finds it again when it runs.
//!
//! A frame is never changed once it exists. Binding a value makes a new
//! frame that points at the one it extends, so that capturing the active
//! frame for a timer or a promise reaction copies one number.

use vstd::prelude::*;

verus! {

/// The name of a frame. `EMPTY` names the frame without a binding.
pub type FrameId = usize;

/// The frame that is active when no `run` is under way.
pub const EMPTY: FrameId = 0;

/// One binding on top of another frame.
#[derive(Clone, Copy, Debug, PartialEq, Eq, Structural)]
pub struct Binding {
    /// The frame that this one extends.
    pub parent: FrameId,
    /// The context that is bound.
    pub context: u64,
    /// The value that it is bound to.
    pub value: u64,
}

/// The bindings of frame `id`, where `nodes[i]` is the frame `i + 1`: those
/// of its parent, with its own on top.
pub open spec fn bindings(nodes: Seq<Binding>, id: int) -> Map<u64, u64>
    decreases id,
{
    if 0 < id <= nodes.len() && nodes[id - 1].parent < id {
        bindings(nodes, nodes[id - 1].parent as int).insert(
            nodes[id - 1].context,
            nodes[id - 1].value,
        )
    } else {
        Map::empty()
    }
}

/// Every frame extends one that was made before it.
pub open spec fn rooted(nodes: Seq<Binding>) -> bool {
    forall|i: int| 0 <= i < nodes.len() ==> (#[trigger] nodes[i]).parent <= i
}

/// A new frame leaves the bindings of the frames before it as they were.
pub proof fn lemma_bindings_stable(nodes: Seq<Binding>, more: Binding, id: int)
    requires
        rooted(nodes),
        0 <= id <= nodes.len(),
    ensures
        bindings(nodes.push(more), id) == bindings(nodes, id),
    decreases id,
{
    if id > 0 {
        assert(nodes.push(more)[id - 1] == nodes[id - 1]);
        lemma_bindings_stable(nodes, more, nodes[id - 1].parent as int);
    }
}

/// What a tracker stands for: the bindings of the active frame, and those of
/// the frames that wait for the running callbacks to return, innermost last.
pub struct ContextModel {
    pub active: Map<u64, u64>,
    pub saved: Seq<Map<u64, u64>>,
}

impl ContextModel {
    /// The state before anything ran: the empty frame, nothing saved.
    pub open spec fn initial() -> ContextModel {
        ContextModel { active: Map::empty(), saved: Seq::empty() }
    }

    /// The value that `context` is bound to, if it is bound.
    pub open spec fn lookup(self, context: u64) -> Option<u64> {
        if self.active.contains_key(context) {
            Some(self.active[context])
        } else {
            None
        }
    }

    /// The state inside `run(value, ..)` on `context`.
    pub open spec fn entered(self, context: u64, value: u64) -> ContextModel {
        ContextModel {
            active: self.active.insert(context, value),
            saved: self.saved.push(self.active),
        }
    }

    /// The state while a callback runs that was scheduled under `frame`.
    pub open spec fn resumed(self, frame: Map<u64, u64>) -> ContextModel {
        ContextModel { active: frame, saved: self.saved.push(self.active) }
    }

    /// The state after the innermost `run` or callback has returned or thrown.
    pub open spec fn left(self) -> ContextModel
        recommends
            self.saved.len() > 0,
    {
        ContextModel { active: self.saved.last(), saved: self.saved.drop_last() }
    }
}

/// The async contexts of one isolate.
#[derive(Debug)]
pub struct ContextTracker {
    nodes: Vec<Binding>,
    active: FrameId,
    saved: Vec<FrameId>,
}

impl ContextTracker {
    /// Frames point backwards, and every frame in use exists.
    pub closed spec fn wf(&self) -> bool {
        &&& rooted(self.nodes@)
        &&& self.active <= self.nodes.len()
        &&& forall|i: int| 0 <= i < self.saved.len() ==> #[trigger] self.saved[i] <= self.nodes.len()
    }

    /// How many frames were made; they are named 1 to this number.
    pub closed spec fn frame_count(&self) -> nat {
        self.nodes.len() as nat
    }

    /// Whether `frame` names a frame of this tracker.
    pub open spec fn knows(&self, frame: FrameId) -> bool {
        frame <= self.frame_count()
    }

    /// The bindings of `frame`.
    pub closed spec fn frame(&self, frame: FrameId) -> Map<u64, u64> {
        bindings(self.nodes@, frame as int)
    }

    /// The name of the active frame.
    pub closed spec fn active_id(&self) -> FrameId {
        self.active
    }

    /// The tracker keeps what it knew: every frame of `before` is a frame of
    /// `self` with the same bindings.
    pub open spec fn extends(&self, before: &ContextTracker) -> bool {
        &&& before.frame_count() <= self.frame_count()
        &&& forall|f: FrameId| #[trigger]
            before.knows(f) ==> self.knows(f) && self.frame(f) == before.frame(f)
    }
}

impl View for ContextTracker {
    type V = ContextModel;

    closed spec fn view(&self) -> ContextModel {
        ContextModel {
            active: bindings(self.nodes@, self.active as int),
            saved: self.saved@.map_values(|f: FrameId| bindings(self.nodes@, f as int)),
        }
    }
}

impl ContextTracker {
    /// A tracker in the initial state.
    pub fn new() -> (r: ContextTracker)
        ensures
            r.wf(),
            r@ == ContextModel::initial(),
            r.knows(EMPTY),
            r.frame(EMPTY) == Map::<u64, u64>::empty(),
    {
        let r = ContextTracker { nodes: Vec::new(), active: EMPTY, saved: Vec::new() };
        assert(r@.saved =~= Seq::empty());
        r
    }

    /// Whether `frame` names a frame of this tracker.
    pub fn is_known(&self, frame: FrameId) -> (r: bool)
        ensures
            r == self.knows(frame),
    {
        frame <= self.nodes.len()
    }

    /// How many `run` calls and callbacks are under way.
    pub fn depth(&self) -> (n: usize)
        ensures
            n == self@.saved.len(),
    {
        self.saved.len()
    }

    /// `context.get()`: the value that the active frame binds `context` to,
    /// or `None`, which the script sees as `undefined`.
    pub fn get(&self, context: u64) -> (r: Option<u64>)
        requires
            self.wf(),
        ensures
            r == self@.lookup(context),
    {
        let mut at = self.active;
        while at > 0
            invariant
                self.wf(),
                at <= self.nodes.len(),
                self@.lookup(context) == (if bindings(self.nodes@, at as int).contains_key(
                    context,
                ) {
                    Some(bindings(self.nodes@, at as int)[context])
                } else {
                    None
                }),
            decreases at,
        {
            let node = self.nodes[at - 1];
            if node.context == context {
                return Some(node.value);
            }
            at = node.parent;
        }
        None
    }

    /// The active frame, for a continuation that is scheduled now.
    pub fn capture(&self) -> (frame: FrameId)
        requires
            self.wf(),
        ensures
            self.knows(frame),
            self.frame(frame) == self@.active,
            frame == self.active_id(),
    {
        self.active
    }

    /// Enters `context.run(value, ..)`: binds `context` to `value` on top of
    /// the active frame, and keeps that frame for `leave`.
    pub fn enter_run(&mut self, context: u64, value: u64)
        requires
            old(self).wf(),
        ensures
            final(self).wf(),
            final(self)@ == old(self)@.entered(context, value),
            final(self).extends(old(self)),
    {
        let ghost before = self.nodes@;
        let node = Binding { parent: self.active, context, value };
        self.saved.push(self.active);
        self.nodes.push(node);
        self.active = self.nodes.len();
        proof {
            assert forall|id: int| 0 <= id <= before.len() implies bindings(self.nodes@, id)
                == bindings(before, id) by {
                lemma_bindings_stable(before, node, id);
            }
            assert(self.nodes@[self.active - 1] == node);
            assert(self@.saved =~= old(self)@.saved.push(old(self)@.active));
        }
    }

    /// Runs a continuation under the frame it was scheduled under: `frame`
    /// becomes the active frame, and the frame that was active is kept for
    /// `leave`.
    pub fn resume(&mut self, frame: FrameId)
        requires
            old(self).wf(),
            old(self).knows(frame),
        ensures
            final(self).wf(),
            final(self)@ == old(self)@.resumed(old(self).frame(frame)),
            final(self).extends(old(self)),
            final(self).active_id() == frame,
    {
        self.saved.push(self.active);
        self.active = frame;
        proof {
            assert(self@.saved =~= old(self)@.saved.push(old(self)@.active));
        }
    }

    /// Leaves the innermost `run` or callback, whether it returned or threw:
    /// the frame that was active when it was entered is active again.
    pub fn leave(&mut self)
        requires
            old(self).wf(),
            old(self)@.saved.len() > 0,
        ensures
            final(self).wf(),
            final(self)@ == old(self)@.left(),
            final(self).extends(old(self)),
    {
        let frame = self.saved.pop().unwrap();
        self.active = frame;
        proof {
            assert(self@.saved =~= old(self)@.saved.drop_last());
        }
    }
}

/// Nested `run` calls on one context: inside the inner one the context has
/// the inner value, after the inner one has returned it has the outer value
/// again, and after the outer one has returned it has whatever it had
/// before, with nothing left on the stack of frames.
pub proof fn law_nested_run(start: ContextModel, context: u64, outer: u64, inner: u64)
    ensures
        start.entered(context, outer).lookup(context) == Some(outer),
        start.entered(context, outer).entered(context, inner).lookup(context) == Some(inner),
        start.entered(context, outer).entered(context, inner).left().lookup(context) == Some(
            outer,
        ),
        start.entered(context, outer).entered(context, inner).left().left() == start,
{
    let a = start.entered(context, outer);
    let b = a.entered(context, inner);
    assert(b.left() == a) by {
        assert(b.saved.drop_last() =~= a.saved);
    }
    assert(a.left() == start) by {
        assert(a.saved.drop_last() =~= start.saved);
    }
}

/// From the initial state, the context is unbound once both `run` calls
/// have returned.
pub proof fn law_nested_run_from_initial(context: u64, outer: u64, inner: u64)
    ensures
        ContextModel::initial().entered(context, outer).entered(context, inner).left().left().lookup(
            context,
        ) is None,
{
    law_nested_run(ContextModel::initial(), context, outer, inner);
}

/// A `run` on one context leaves every other context as it was.
pub proof fn law_run_shadows_only_its_context(
    start: ContextModel,
    context: u64,
    value: u64,
    other: u64,
)
    requires
        other != context,
    ensures
        start.entered(context, value).lookup(other) == start.lookup(other),
{
}

/// A callback runs under the frame it was scheduled under, whatever is
/// active when it is run, and the frame that was active then is restored
/// when it returns.
pub proof fn law_resume_restores(now: ContextModel, scheduled: Map<u64, u64>)
    ensures
        now.resumed(scheduled).active == scheduled,
        now.resumed(scheduled).left() == now,
{
    assert(now.resumed(scheduled).saved.drop_last() =~= now.saved);
}

} // verus!
