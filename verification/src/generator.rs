//! The engine handle: configuration, lifecycle, and the generation loop.
//!
//! A [`Generator`] owns the circular action buffer and the loop state. `run`
//! drives the generation loop: it repeatedly refills the buffer from the
//! action source when occupancy is low, pops the next record, and renders it
//! onto the pin controller, until the loop control requests a stop. Actions
//! are rendered in exactly the order the source produced them.

use vstd::prelude::*;
use crate::action::Action;
use crate::buffer::ActionBuffer;
use crate::codec::decode;
use crate::codec::encode;
use crate::codec::encode_spec;
use crate::codec::lemma_codec_round_trip;
use crate::error::Error;
use crate::interface::ActionSource;
use crate::interface::LoopControl;
use crate::interface::PinController;
use crate::interface::PinOp;
use crate::interface::lemma_render_take_succ;
use crate::interface::lemma_work_all_renderable;
use crate::interface::lemma_work_empty;
use crate::interface::lemma_work_push;
use crate::interface::pending_work;
use crate::interface::render_seq;

verus! {

/// Default capacity of the circular action buffer, in records.
pub const DEFAULT_BUFFER_SIZE: u32 = 16;
/// Default size of a rendering batch pulled per refill request, in records.
pub const DEFAULT_WAVE_SIZE: u32 = 256;
/// Default idle delay between refill checks, in microseconds.
pub const DEFAULT_LOOP_DELAY: u32 = 10000;

/// The generation loop's lifecycle.
#[derive(Clone, Copy, PartialEq, Eq, Debug, Structural)]
pub enum LoopState {
    /// No loop is running.
    Idle,
    /// A loop is actively rendering.
    Running,
    /// A stop was requested; the loop exits at the next iteration boundary.
    Stopping,
    /// The loop has exited and is tearing down its per-run state.
    Stopped,
}

/// The lifecycle transition a stop request causes: a running (or already
/// stopping) loop moves to `Stopping`; in any other state the request is a
/// no-op.
pub open spec fn stop_transition(s: LoopState) -> LoopState {
    if s is Running || s is Stopping {
        LoopState::Stopping
    } else {
        s
    }
}

/// Teardown is idempotent: requesting a stop twice leaves the lifecycle
/// exactly where one request left it, and a request in a state with no
/// running loop changes nothing.
pub proof fn lemma_stop_idempotent(s: LoopState)
    ensures
        stop_transition(stop_transition(s)) == stop_transition(s),
        !(s is Running) && !(s is Stopping) ==> stop_transition(s) == s,
{
}

/// Configuration collected before constructing a [`Generator`]. The fields
/// may be set freely; they are validated at construction, which requires all
/// three to be strictly positive.
#[derive(Clone, Copy, PartialEq, Eq, Debug, Structural)]
pub struct GeneratorOptions {
    /// Capacity of the circular action buffer, in records.
    pub buffer_size: u32,
    /// Size of a rendering batch pulled per refill request, in records.
    pub wave_size: u32,
    /// Microseconds the loop idles when the buffer runs empty.
    pub loop_delay: u32,
}

impl GeneratorOptions {
    /// The default configuration.
    pub fn new() -> (r: GeneratorOptions)
        ensures
            r.buffer_size == DEFAULT_BUFFER_SIZE,
            r.wave_size == DEFAULT_WAVE_SIZE,
            r.loop_delay == DEFAULT_LOOP_DELAY,
    {
        GeneratorOptions {
            buffer_size: DEFAULT_BUFFER_SIZE,
            wave_size: DEFAULT_WAVE_SIZE,
            loop_delay: DEFAULT_LOOP_DELAY,
        }
    }

    /// Replace the buffer capacity.
    pub fn buffer_size(self, size: u32) -> (r: GeneratorOptions)
        ensures
            r.buffer_size == size,
            r.wave_size == self.wave_size,
            r.loop_delay == self.loop_delay,
    {
        GeneratorOptions { buffer_size: size, wave_size: self.wave_size, loop_delay: self.loop_delay }
    }

    /// Replace the rendering batch size.
    pub fn wave_size(self, size: u32) -> (r: GeneratorOptions)
        ensures
            r.buffer_size == self.buffer_size,
            r.wave_size == size,
            r.loop_delay == self.loop_delay,
    {
        GeneratorOptions { buffer_size: self.buffer_size, wave_size: size, loop_delay: self.loop_delay }
    }

    /// Replace the idle delay.
    pub fn loop_delay(self, delay: u32) -> (r: GeneratorOptions)
        ensures
            r.buffer_size == self.buffer_size,
            r.wave_size == self.wave_size,
            r.loop_delay == delay,
    {
        GeneratorOptions { buffer_size: self.buffer_size, wave_size: self.wave_size, loop_delay: delay }
    }

    /// Construct a generator from this configuration.
    pub fn build(self) -> (r: Result<Generator, Error>)
        ensures
            (self.buffer_size > 0 && self.wave_size > 0 && self.loop_delay > 0) <==> r is Ok,
            r matches Ok(g) ==> g.wf() && g.capacity_spec() == self.buffer_size
                && g.wave_size_spec() == self.wave_size && g.loop_delay_spec() == self.loop_delay,
            r matches Err(e) ==> e == Error::Initialization,
    {
        Generator::from_options(self)
    }
}

/// The engine handle: owns the circular action buffer and the loop state for
/// its lifetime. Dropping it releases everything exactly once, whether or not
/// a loop ever ran.
pub struct Generator {
    buffer: ActionBuffer,
    wave_size: u32,
    loop_delay: u32,
    state: LoopState,
}

impl Generator {
    /// Capacity of the action buffer, in records.
    pub closed spec fn capacity_spec(&self) -> nat {
        self.buffer.cap()
    }

    /// Size of a rendering batch pulled per refill request.
    pub closed spec fn wave_size_spec(&self) -> u32 {
        self.wave_size
    }

    /// Microseconds the loop idles when the buffer runs empty.
    pub closed spec fn loop_delay_spec(&self) -> u32 {
        self.loop_delay
    }

    /// The lifecycle state.
    pub closed spec fn state_spec(&self) -> LoopState {
        self.state
    }

    /// The buffered records, oldest first.
    pub closed spec fn buffered(&self) -> Seq<Seq<u32>> {
        self.buffer@
    }

    /// A valid generator between runs: positive configuration, a structurally
    /// sound ring, no loop running, and no stale records buffered.
    pub closed spec fn wf(&self) -> bool {
        &&& self.buffer.wf()
        &&& self.buffer.cap() >= 1
        &&& self.wave_size >= 1
        &&& self.loop_delay >= 1
        &&& self.state is Idle
        &&& self.buffer@.len() == 0
    }

    /// Between runs a valid generator is idle with nothing buffered.
    pub proof fn lemma_wf_idle(&self)
        requires
            self.wf(),
        ensures
            self.state_spec() is Idle,
            self.buffered().len() == 0,
            self.capacity_spec() >= 1,
            self.wave_size_spec() >= 1,
            self.loop_delay_spec() >= 1,
    {
    }

    /// Construct a generator with the default configuration.
    pub fn new() -> (r: Result<Generator, Error>)
        ensures
            r matches Ok(g) && g.wf() && g.capacity_spec() == DEFAULT_BUFFER_SIZE
                && g.wave_size_spec() == DEFAULT_WAVE_SIZE
                && g.loop_delay_spec() == DEFAULT_LOOP_DELAY,
    {
        Generator::from_options(GeneratorOptions::new())
    }

    /// Validate the configuration and allocate the engine state. Construction
    /// succeeds exactly when all three configuration values are strictly
    /// positive; otherwise it fails with the initialization error.
    pub fn from_options(opt: GeneratorOptions) -> (r: Result<Generator, Error>)
        ensures
            (opt.buffer_size > 0 && opt.wave_size > 0 && opt.loop_delay > 0) <==> r is Ok,
            r matches Ok(g) ==> g.wf() && g.capacity_spec() == opt.buffer_size
                && g.wave_size_spec() == opt.wave_size && g.loop_delay_spec() == opt.loop_delay,
            r matches Err(e) ==> e == Error::Initialization,
    {
        if opt.buffer_size == 0 || opt.wave_size == 0 || opt.loop_delay == 0 {
            Err(Error::new())
        } else {
            let buffer = ActionBuffer::new(opt.buffer_size as usize);
            Ok(
                Generator {
                    buffer,
                    wave_size: opt.wave_size,
                    loop_delay: opt.loop_delay,
                    state: LoopState::Idle,
                },
            )
        }
    }

    /// The default configuration, as a starting point for the builder chain.
    pub fn options() -> (r: GeneratorOptions)
        ensures
            r.buffer_size == DEFAULT_BUFFER_SIZE,
            r.wave_size == DEFAULT_WAVE_SIZE,
            r.loop_delay == DEFAULT_LOOP_DELAY,
    {
        GeneratorOptions::new()
    }

    /// Capacity of the action buffer, in records.
    pub fn capacity(&self) -> (n: usize)
        ensures
            n == self.capacity_spec(),
    {
        self.buffer.capacity()
    }

    /// The lifecycle state.
    pub fn state(&self) -> (s: LoopState)
        ensures
            s == self.state_spec(),
    {
        self.state
    }

    /// Request that a running loop exit at its next iteration boundary.
    ///
    /// Safe to call in any state and never an error: when no loop is running
    /// this is a no-op, and calling it repeatedly changes nothing more
    /// (idempotent teardown). A caller on a second context signals a loop
    /// that is executing `run` through the [`LoopControl`] it handed to
    /// `run`, since the generator itself is exclusively borrowed meanwhile.
    pub fn stop(&mut self)
        ensures
            final(self).capacity_spec() == old(self).capacity_spec(),
            final(self).wave_size_spec() == old(self).wave_size_spec(),
            final(self).loop_delay_spec() == old(self).loop_delay_spec(),
            final(self).buffered() == old(self).buffered(),
            final(self).state_spec() == stop_transition(old(self).state_spec()),
            old(self).wf() ==> final(self).wf(),
    {
        match self.state {
            LoopState::Running | LoopState::Stopping => {
                self.state = LoopState::Stopping;
            },
            _ => {},
        }
    }

    /// Drive the generation loop until the loop control requests a stop.
    ///
    /// Per iteration: poll the stop signal at the iteration boundary; refill
    /// the buffer from the action source while occupancy is below the wave
    /// size (an idle action ends the batch without being buffered); then pop
    /// the oldest record and render it onto the pin controller, or idle for
    /// the configured delay if the buffer ran empty.
    ///
    /// The contract pins the observable product down: the pin controller
    /// observes exactly the renders of a prefix of the renderable actions the
    /// source produced during the call, in production order, with no drops,
    /// duplicates or reordering; at most a buffer's worth of renderable
    /// actions was produced but not rendered (the staleness a stop request
    /// may leave behind). The loop polls the control at least once and
    /// returns exactly when a poll answers "stop"; every granted poll buys
    /// one iteration, which renders one action or idles once for the
    /// configured delay. The generator itself returns to idle with its
    /// per-run state discarded.
    pub fn run<P: PinController, S: ActionSource, C: LoopControl>(
        &mut self,
        pin: &mut P,
        source: &mut S,
        control: &mut C,
    )
        requires
            old(self).wf(),
        ensures
            final(self).wf(),
            final(self).capacity_spec() == old(self).capacity_spec(),
            final(self).wave_size_spec() == old(self).wave_size_spec(),
            final(self).loop_delay_spec() == old(self).loop_delay_spec(),
            old(source).produced().is_prefix_of(final(source).produced()),
            final(pin).ops().len() <= old(pin).ops().len() + old(control).budget(),
            final(control).polls().len() > old(control).polls().len(),
            final(control).polls().take(old(control).polls().len() as int) == old(
                control,
            ).polls(),
            final(control).polls().last(),
            forall|i: int|
                old(control).polls().len() <= i < final(control).polls().len() - 1
                    ==> !(#[trigger] final(control).polls()[i]),
            final(control).idled().len() >= old(control).idled().len(),
            final(control).idled().take(old(control).idled().len() as int) == old(
                control,
            ).idled(),
            forall|i: int|
                old(control).idled().len() <= i < final(control).idled().len()
                    ==> #[trigger] final(control).idled()[i] == old(self).loop_delay_spec(),
            final(pin).ops().len() - old(pin).ops().len() + final(control).idled().len() - old(
                control,
            ).idled().len() == final(control).polls().len() - old(control).polls().len() - 1,
            ({
                let d = final(source).produced().skip(old(source).produced().len() as int);
                final(control).idled().len() + pending_work(d).len() <= old(
                    control,
                ).idled().len() + d.len()
            }),
            ({
                let d = final(source).produced().skip(old(source).produced().len() as int);
                exists|j: int|
                    0 <= j <= pending_work(d).len() && final(pin).ops() == old(pin).ops()
                        + render_seq(#[trigger] pending_work(d).take(j)) && pending_work(d).len()
                        - j <= old(self).capacity_spec()
            }),
    {
        let ghost init_prod = source.produced();
        let ghost init_ops = pin.ops();
        let ghost init_polls = control.polls();
        let ghost init_idled = control.idled();
        let ghost g_cap: nat = self.buffer.cap();
        let ghost g_wave: u32 = self.wave_size;
        let ghost g_delay: u32 = self.loop_delay;
        let ghost init_budget: nat = control.budget();

        self.state = LoopState::Running;

        let ghost mut extra: Seq<Action> = Seq::empty();
        let ghost mut w: Seq<Action> = Seq::empty();
        let ghost mut j: int = 0;

        proof {
            lemma_work_empty();
            assert(source.produced() =~= init_prod + extra);
            assert(self.buffer@ =~= w.skip(j).map_values(|x: Action| encode_spec(x)));
            assert(w.take(0) =~= Seq::<Action>::empty());
            assert(render_seq(w.take(j)) =~= Seq::<PinOp>::empty());
            assert(pin.ops() =~= init_ops + render_seq(w.take(j)));
        }

        loop
            invariant_except_break
                self.state is Running,
                forall|i: int|
                    init_polls.len() <= i < control.polls().len()
                        ==> !(#[trigger] control.polls()[i]),
                pin.ops().len() - init_ops.len() + control.idled().len() - init_idled.len()
                    == control.polls().len() - init_polls.len(),
            invariant
                self.buffer.wf(),
                self.buffer.cap() == g_cap,
                self.wave_size == g_wave,
                self.loop_delay == g_delay,
                g_wave >= 1,
                g_cap >= 1,
                self.buffer@.len() <= g_cap,
                source.produced() == init_prod + extra,
                w == pending_work(extra),
                0 <= j <= w.len(),
                pin.ops() == init_ops + render_seq(w.take(j)),
                self.buffer@ == w.skip(j).map_values(|x: Action| encode_spec(x)),
                pin.ops().len() + control.budget() <= init_ops.len() + init_budget,
                control.polls().len() >= init_polls.len(),
                control.polls().take(init_polls.len() as int) == init_polls,
                control.idled().len() >= init_idled.len(),
                control.idled().take(init_idled.len() as int) == init_idled,
                forall|i: int|
                    init_idled.len() <= i < control.idled().len()
                        ==> #[trigger] control.idled()[i] == g_delay,
                control.idled().len() + pending_work(extra).len() <= init_idled.len()
                    + extra.len(),
            ensures
                self.state is Stopping,
                control.polls().len() > init_polls.len(),
                control.polls().last(),
                forall|i: int|
                    init_polls.len() <= i < control.polls().len() - 1
                        ==> !(#[trigger] control.polls()[i]),
                pin.ops().len() - init_ops.len() + control.idled().len() - init_idled.len()
                    == control.polls().len() - init_polls.len() - 1,
            decreases control.budget(),
        {
            if control.stop_requested() {
                self.state = LoopState::Stopping;
                break;
            }
            if self.buffer.is_low(self.wave_size as usize) {
                let mut pulled: u32 = 0;
                let mut exhausted = false;
                let ghost pre_refill_len: nat = self.buffer@.len();
                while pulled < self.wave_size && !exhausted && self.buffer.len()
                    < self.buffer.capacity()
                    invariant
                        self.buffer.wf(),
                        self.buffer.cap() == g_cap,
                        self.wave_size == g_wave,
                        self.loop_delay == g_delay,
                        self.state is Running,
                        self.buffer@.len() <= g_cap,
                        pulled <= g_wave,
                        source.produced() == init_prod + extra,
                        w == pending_work(extra),
                        0 <= j <= w.len(),
                        pin.ops() == init_ops + render_seq(w.take(j)),
                        self.buffer@ == w.skip(j).map_values(|x: Action| encode_spec(x)),
                        control.idled().len() + pending_work(extra).len() <= init_idled.len()
                            + extra.len(),
                        !exhausted ==> self.buffer@.len() == pre_refill_len + pulled,
                        exhausted ==> control.idled().len() + pending_work(extra).len() + 1
                            <= init_idled.len() + extra.len(),
                    decreases g_wave - pulled,
                {
                    let a = source.next_action();
                    pulled = pulled + 1;
                    proof {
                        assert(source.produced() =~= init_prod + extra.push(a));
                        lemma_work_push(extra, a);
                        extra = extra.push(a);
                    }
                    match a {
                        Action::Idle => {
                            exhausted = true;
                        },
                        Action::Wait { .. } | Action::Pin { .. } => {
                            let rec = encode(a);
                            proof {
                                assert(w.push(a).take(j) =~= w.take(j));
                            }
                            self.buffer.push(rec);
                            proof {
                                let we = w.push(a);
                                assert(self.buffer@ =~= we.skip(j).map_values(
                                    |x: Action| encode_spec(x),
                                ));
                                w = we;
                            }
                        },
                    }
                }
            }
            let popped = self.buffer.pop();
            match popped {
                Option::Some(rec) => {
                    proof {
                        assert(w.skip(j).len() > 0);
                        assert(rec@ == encode_spec(w.skip(j)[0]));
                        assert(w.skip(j)[0] == w[j]);
                        lemma_codec_round_trip(w[j]);
                    }
                    let a = decode(&rec);
                    proof {
                        lemma_render_take_succ(w, j);
                    }
                    match a {
                        Action::Idle => {
                            proof {
                                // Only renderable actions are ever buffered,
                                // so an idle record cannot come out.
                                lemma_work_all_renderable(extra);
                                assert(!(pending_work(extra)[j] is Idle));
                                assert(false);
                            }
                        },
                        Action::Wait { microseconds } => {
                            pin.hold(microseconds);
                            proof {
                                assert(pin.ops() =~= init_ops + render_seq(w.take(j + 1)));
                            }
                        },
                        Action::Pin { on, off } => {
                            pin.set_masks(on, off);
                            proof {
                                assert(pin.ops() =~= init_ops + render_seq(w.take(j + 1)));
                            }
                        },
                    }
                    proof {
                        j = j + 1;
                        assert(self.buffer@ =~= w.skip(j).map_values(|x: Action| encode_spec(x)));
                    }
                },
                Option::None => {
                    control.idle(self.loop_delay);
                },
            }
        }
        self.state = LoopState::Stopped;
        self.buffer.clear();
        self.state = LoopState::Idle;
        proof {
            let d = source.produced().skip(init_prod.len() as int);
            assert(d =~= extra);
            assert(source.produced().take(init_prod.len() as int) =~= init_prod);
            assert(init_prod.is_prefix_of(source.produced()));
            assert(0 <= j <= pending_work(d).len() && pin.ops() == init_ops + render_seq(
                pending_work(d).take(j),
            ) && pending_work(d).len() - j <= g_cap);
        }
    }
}

} // verus!
