//! Verified in-memory implementations of the boundary collaborators.
//!
//! They make the engine's contracts exercisable without hardware: a pin
//! controller that records every operation, an action source that plays a
//! fixed script and then reports idle forever, and a loop control that lets a
//! chosen number of polls pass before requesting a stop.

use vstd::prelude::*;
use crate::action::Action;
use crate::interface::ActionSource;
use crate::interface::LoopControl;
use crate::interface::PinController;
use crate::interface::PinOp;

verus! {

/// A pin controller that performs no hardware work and records every
/// operation it is asked to perform, in order.
pub struct RecordingPin {
    log: Vec<PinOp>,
}

impl RecordingPin {
    /// A controller with an empty record.
    pub fn new() -> (p: RecordingPin)
        ensures
            p.ops() == Seq::<PinOp>::empty(),
    {
        RecordingPin { log: Vec::new() }
    }

    /// The recorded operations, oldest first.
    pub fn recorded(&self) -> (r: &Vec<PinOp>)
        ensures
            r@ == self.ops(),
    {
        &self.log
    }
}

impl PinController for RecordingPin {
    closed spec fn ops(&self) -> Seq<PinOp> {
        self.log@
    }

    fn set_masks(&mut self, on: u32, off: u32) {
        self.log.push(PinOp::Transition { on, off });
    }

    fn hold(&mut self, microseconds: u32) {
        self.log.push(PinOp::Hold { microseconds });
    }
}

/// An action source that yields the actions of a fixed script, in order, and
/// reports idle on every request after the script is exhausted.
pub struct ScriptedSource {
    script: Vec<Action>,
    cursor: usize,
    history: Ghost<Seq<Action>>,
}

impl ScriptedSource {
    /// The script this source plays.
    pub closed spec fn script_view(&self) -> Seq<Action> {
        self.script@
    }

    /// How many script actions have been handed out.
    pub closed spec fn position(&self) -> nat {
        self.cursor as nat
    }

    /// A source that will play the given script.
    pub fn new(script: Vec<Action>) -> (s: ScriptedSource)
        ensures
            s.produced() == Seq::<Action>::empty(),
            s.script_view() == script@,
            s.position() == 0,
    {
        ScriptedSource { script, cursor: 0, history: Ghost(Seq::empty()) }
    }
}

impl ActionSource for ScriptedSource {
    closed spec fn produced(&self) -> Seq<Action> {
        self.history@
    }

    fn next_action(&mut self) -> (a: Action)
        ensures
            final(self).script_view() == old(self).script_view(),
            old(self).position() < old(self).script_view().len() ==> a
                == old(self).script_view()[old(self).position() as int] && final(self).position()
                == old(self).position() + 1,
            old(self).position() >= old(self).script_view().len() ==> a is Idle
                && final(self).position() == old(self).position(),
    {
        let a = if self.cursor < self.script.len() {
            let a = self.script[self.cursor];
            self.cursor = self.cursor + 1;
            a
        } else {
            Action::Idle
        };
        proof {
            self.history@ = self.history@.push(a);
        }
        a
    }
}

/// A loop control that answers a chosen number of polls with "keep running"
/// and requests a stop from then on; it counts the idle delays it was asked
/// to perform instead of sleeping.
pub struct CountdownControl {
    polls_left: usize,
    idles: Vec<u32>,
    answers: Ghost<Seq<bool>>,
}

impl CountdownControl {
    /// A control that lets `polls` iterations pass before requesting a stop.
    pub fn new(polls: usize) -> (c: CountdownControl)
        ensures
            c.budget() == polls,
            c.polls() == Seq::<bool>::empty(),
            c.idled() == Seq::<u32>::empty(),
    {
        CountdownControl { polls_left: polls, idles: Vec::new(), answers: Ghost(Seq::empty()) }
    }

    /// The idle delays requested so far, for inspection.
    pub fn idle_calls(&self) -> (r: &Vec<u32>)
        ensures
            r@ == self.idled(),
    {
        &self.idles
    }
}

impl LoopControl for CountdownControl {
    closed spec fn budget(&self) -> nat {
        self.polls_left as nat
    }

    closed spec fn polls(&self) -> Seq<bool> {
        self.answers@
    }

    closed spec fn idled(&self) -> Seq<u32> {
        self.idles@
    }

    fn stop_requested(&mut self) -> (stop: bool)
        ensures
            stop == (old(self).budget() == 0),
            stop ==> final(self).budget() == old(self).budget(),
            !stop ==> final(self).budget() == old(self).budget() - 1,
    {
        let stop = if self.polls_left == 0 {
            true
        } else {
            self.polls_left = self.polls_left - 1;
            false
        };
        proof {
            self.answers@ = self.answers@.push(stop);
        }
        stop
    }

    fn idle(&mut self, microseconds: u32)
        ensures
            final(self).budget() == old(self).budget(),
    {
        self.idles.push(microseconds);
    }
}

} // verus!
