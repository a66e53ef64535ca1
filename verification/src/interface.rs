//! The boundary collaborators of the engine and the rendering semantics.
//!
//! The engine borrows three collaborators for the duration of a run: a
//! [`PinController`] that performs timed hardware pin transitions, an
//! [`ActionSource`] that decides what should happen next, and a
//! [`LoopControl`] that carries the asynchronous stop signal and performs the
//! idle delay between refill checks. All three are caller-supplied; verified
//! scripted implementations live in [`crate::scripted`].

use vstd::prelude::*;
use crate::action::Action;

verus! {

/// One observable operation on the pin controller.
#[derive(Clone, Copy, PartialEq, Eq, Debug, Structural)]
pub enum PinOp {
    /// Raise the bits of `on`, lower the bits of `off`.
    Transition { on: u32, off: u32 },
    /// Hold the current pin state for the given duration.
    Hold { microseconds: u32 },
}

/// The pin operations a single action renders to. An idle action renders to
/// nothing: it has no hardware effect.
pub open spec fn render_one(a: Action) -> Seq<PinOp> {
    match a {
        Action::Idle => Seq::empty(),
        Action::Wait { microseconds } => seq![(PinOp::Hold { microseconds })],
        Action::Pin { on, off } => seq![(PinOp::Transition { on, off })],
    }
}

/// The pin operations a sequence of actions renders to, in order.
pub open spec fn render_seq(s: Seq<Action>) -> Seq<PinOp>
    decreases s.len(),
{
    if s.len() == 0 {
        Seq::empty()
    } else {
        render_one(s[0]) + render_seq(s.skip(1))
    }
}

/// The renderable actions of a sequence: everything but the idle markers,
/// in their original order.
pub open spec fn pending_work(s: Seq<Action>) -> Seq<Action> {
    s.filter(|a: Action| !(a is Idle))
}

/// Rendering distributes over concatenation.
pub proof fn lemma_render_distributes(a: Seq<Action>, b: Seq<Action>)
    ensures
        render_seq(a + b) == render_seq(a) + render_seq(b),
    decreases a.len(),
{
    if a.len() == 0 {
        assert(a + b =~= b);
        assert(render_seq(a) + render_seq(b) =~= render_seq(b));
    } else {
        assert((a + b).skip(1) =~= a.skip(1) + b);
        lemma_render_distributes(a.skip(1), b);
        assert(render_one(a[0]) + (render_seq(a.skip(1)) + render_seq(b)) =~= (render_one(a[0])
            + render_seq(a.skip(1))) + render_seq(b));
    }
}

/// A single action renders to exactly its own operations.
pub proof fn lemma_render_singleton(a: Action)
    ensures
        render_seq(seq![a]) == render_one(a),
{
    assert(render_seq(Seq::<Action>::empty()) == Seq::<PinOp>::empty());
    assert(seq![a].skip(1) =~= Seq::<Action>::empty());
    assert(render_seq(seq![a]) == render_one(a) + render_seq(seq![a].skip(1)));
    assert(render_one(a) + Seq::<PinOp>::empty() =~= render_one(a));
}

/// Rendering one more action of a sequence extends the rendered operations by
/// exactly that action's operations.
pub proof fn lemma_render_take_succ(s: Seq<Action>, j: int)
    requires
        0 <= j < s.len(),
    ensures
        render_seq(s.take(j + 1)) == render_seq(s.take(j)) + render_one(s[j]),
{
    assert(s.take(j + 1) =~= s.take(j) + seq![s[j]]);
    lemma_render_distributes(s.take(j), seq![s[j]]);
    lemma_render_singleton(s[j]);
}

/// An empty production has no renderable part.
pub proof fn lemma_work_empty()
    ensures
        pending_work(Seq::<Action>::empty()) == Seq::<Action>::empty(),
{
    reveal(Seq::filter);
}

/// Appending an action to a sequence extends its renderable part by that
/// action if it is renderable, and leaves it unchanged if it is idle.
pub proof fn lemma_work_push(s: Seq<Action>, a: Action)
    ensures
        a is Idle ==> pending_work(s.push(a)) == pending_work(s),
        !(a is Idle) ==> pending_work(s.push(a)) == pending_work(s).push(a),
{
    reveal(Seq::filter);
    assert(s.push(a).drop_last() =~= s);
    assert(s.push(a).last() == a);
}

/// Idle actions render to nothing: a sequence of actions and its renderable
/// part render to the same pin operations.
pub proof fn lemma_render_ignores_idle(s: Seq<Action>)
    ensures
        render_seq(pending_work(s)) == render_seq(s),
    decreases s.len(),
{
    reveal(Seq::filter);
    if s.len() == 0 {
    } else {
        lemma_render_ignores_idle(s.drop_last());
        assert(s =~= s.drop_last().push(s.last()));
        lemma_work_push(s.drop_last(), s.last());
        assert(s.drop_last().push(s.last()) =~= s.drop_last() + seq![s.last()]);
        lemma_render_distributes(s.drop_last(), seq![s.last()]);
        lemma_render_singleton(s.last());
        if s.last() is Idle {
            assert(render_seq(s.drop_last()) + Seq::<PinOp>::empty() =~= render_seq(
                s.drop_last(),
            ));
        } else {
            assert(pending_work(s) =~= pending_work(s.drop_last()) + seq![s.last()]);
            lemma_render_distributes(pending_work(s.drop_last()), seq![s.last()]);
        }
    }
}

/// The renderable part of a production contains no idle markers.
pub proof fn lemma_work_all_renderable(s: Seq<Action>)
    ensures
        forall|i: int|
            0 <= i < pending_work(s).len() ==> !((#[trigger] pending_work(s)[i]) is Idle),
{
    assert forall|i: int|
        0 <= i < pending_work(s).len() implies !((#[trigger] pending_work(s)[i]) is Idle) by {
        s.lemma_filter_pred(|a: Action| !(a is Idle), i);
    }
}

/// Rendering a sequence without idle markers yields exactly one pin operation
/// per action, in the same order: no drops, no duplicates, no reordering.
pub proof fn lemma_render_pointwise(s: Seq<Action>)
    requires
        forall|i: int| 0 <= i < s.len() ==> !((#[trigger] s[i]) is Idle),
    ensures
        render_seq(s).len() == s.len(),
        forall|i: int| 0 <= i < s.len() ==> render_seq(s)[i] == #[trigger] render_one(s[i])[0],
    decreases s.len(),
{
    if s.len() > 0 {
        assert(!(s[0] is Idle));
        assert(render_one(s[0]).len() == 1);
        lemma_render_pointwise(s.skip(1));
        assert(render_seq(s) == render_one(s[0]) + render_seq(s.skip(1)));
        assert forall|i: int|
            0 <= i < s.len() implies render_seq(s)[i] == #[trigger] render_one(s[i])[0] by {
            if i > 0 {
                assert(s.skip(1)[i - 1] == s[i]);
                assert(render_seq(s)[i] == render_seq(s.skip(1))[i - 1]);
                assert(render_seq(s.skip(1))[i - 1] == render_one(s.skip(1)[i - 1])[0]);
            }
        }
    }
}

/// The external collaborator that performs the actual timed hardware pin
/// transitions. Its specification records the operations it has observed, in
/// order: the generation loop's contracts are stated over that record.
pub trait PinController {
    /// The operations this controller has performed, oldest first.
    spec fn ops(&self) -> Seq<PinOp>;

    /// Raise the bits of `on` and lower the bits of `off`.
    fn set_masks(&mut self, on: u32, off: u32)
        ensures
            final(self).ops() == old(self).ops().push((PinOp::Transition { on, off })),
    ;

    /// Hold the current pin state for the given number of microseconds.
    fn hold(&mut self, microseconds: u32)
        ensures
            final(self).ops() == old(self).ops().push((PinOp::Hold { microseconds })),
    ;
}

/// The caller-supplied decision function: produces the next action on demand.
/// Its specification records every action it has produced, in order. An idle
/// action means "nothing to render right now"; it ends the current refill
/// batch and the loop asks again later.
pub trait ActionSource {
    /// Every action this source has produced, oldest first.
    spec fn produced(&self) -> Seq<Action>;

    /// Produce the next action.
    fn next_action(&mut self) -> (a: Action)
        ensures
            final(self).produced() == old(self).produced().push(a),
    ;
}

/// The execution context of a generation loop: it carries the asynchronous
/// stop signal and performs the idle delay between refill checks.
///
/// The stop signal is polled once per loop iteration and is meant to be set
/// from a second context (an atomic flag, on a real host). The specification
/// records the answer of every poll and the duration of every idle performed,
/// oldest first: the generation loop's contract is stated over those records,
/// so every granted poll is owed an iteration of work. An implementation also
/// provides a termination measure for the loop: every poll that does not
/// request a stop lowers the remaining `budget`, so a generation loop
/// provably returns once the budget runs out at the latest.
pub trait LoopControl {
    /// An upper bound on the polls this control will answer with "keep
    /// running".
    spec fn budget(&self) -> nat;

    /// The answer of every poll so far, oldest first (`true` = stop).
    spec fn polls(&self) -> Seq<bool>;

    /// The idle delays performed so far, in microseconds, oldest first.
    spec fn idled(&self) -> Seq<u32>;

    /// Poll the stop signal; observed once per iteration, at the iteration
    /// boundary, never mid-render.
    fn stop_requested(&mut self) -> (stop: bool)
        ensures
            final(self).budget() <= old(self).budget(),
            !stop ==> final(self).budget() < old(self).budget(),
            final(self).polls() == old(self).polls().push(stop),
            final(self).idled() == old(self).idled(),
    ;

    /// Idle for the given number of microseconds; used when the buffer runs
    /// empty (backpressure from the action source).
    fn idle(&mut self, microseconds: u32)
        ensures
            final(self).budget() <= old(self).budget(),
            final(self).idled() == old(self).idled().push(microseconds),
            final(self).polls() == old(self).polls(),
    ;
}

} // verus!
