//! The turn-taking session: capturing live input, playing replies back.
use vstd::prelude::*;

use crate::apps::CwController;
use crate::classifier::{classify, signals_to_symbols};
use crate::generator::{generate, no_double_off, symbols_to_signals};
use crate::symbol::{CwString, CwSymbol};
use crate::timing::{CwConfig, Signal, TimingProfile};

verus! {

/// After this long without input, a capture is finished and decoded.
pub const MAX_IDLE_MS: u32 = 3000;

/// Who has the line: the person keying (`Input`, capturing) or the
/// machine (`Output`, playing a reply back).
#[derive(Clone, Copy, Debug, PartialEq, Eq, Structural)]
pub enum Mode {
    Input,
    Output,
}

impl Default for Mode {
    fn default() -> (r: Self)
        ensures
            r == Mode::Input,
    {
        Mode::Input
    }
}

/// The state of a session as the contracts see it.
pub struct SessionView {
    pub mode: Mode,
    /// Time since the last change of level, or in the current playback
    /// signal.
    pub elapsed_ms: u32,
    /// The input level at the last tick.
    pub last_level: bool,
    /// The signals captured so far.
    pub live: Seq<Signal>,
    /// The signals still to play.
    pub queue: Seq<Signal>,
    pub input_profile: TimingProfile,
    pub output_profile: TimingProfile,
}

/// What one step of the session yields: the output level, or the decoded
/// text of a capture that has just finished and awaits its reply.
#[derive(Debug)]
pub enum Step {
    Level(bool),
    Decoded(CwString),
}

impl SessionView {
    /// A new session: capturing, nothing captured, the line off.
    pub open spec fn initial(config: CwConfig) -> SessionView {
        SessionView {
            mode: Mode::Input,
            elapsed_ms: 0,
            last_level: false,
            live: seq![],
            queue: seq![],
            input_profile: config.input.signal.profile(),
            output_profile: config.output.signal.profile(),
        }
    }

    /// Only one buffer is in use at a time; the capture starts with a key
    /// press and alternates on and off, its last signal being the level
    /// before the current one; the playback never holds two silences in a
    /// row.
    pub open spec fn wf(self) -> bool {
        &&& self.mode == Mode::Input ==> self.queue.len() == 0
        &&& self.mode == Mode::Output ==> self.live.len() == 0 && !self.last_level
        &&& self.live.len() > 0 ==> self.live[0].on && self.live.last().on != self.last_level
        &&& forall|k: int|
            0 <= k < self.live.len() - 1 ==> #[trigger] self.live[k].on != self.live[k + 1].on
        &&& no_double_off(self.queue)
    }

    /// Both buffers emptied, the level back to off, the time back to zero.
    pub open spec fn cleared(self) -> SessionView {
        SessionView { live: seq![], queue: seq![], last_level: false, elapsed_ms: 0, ..self }
    }

    /// A capturing tick at `elapsed` ms since the last change of level.
    /// A change of level closes the signal before it (but for a leading
    /// silence); a silence of `MAX_IDLE_MS` after a capture finishes it.
    pub open spec fn capture(self, elapsed: u32, input: bool) -> SessionView {
        if self.last_level != input {
            let live = if !self.last_level && self.live.len() == 0 {
                self.live
            } else {
                self.live.push(Signal { on: self.last_level, duration: elapsed })
            };
            SessionView { mode: Mode::Input, live, elapsed_ms: 0, last_level: input, ..self }
        } else if !input && elapsed >= MAX_IDLE_MS && self.live.len() > 0 {
            SessionView { mode: Mode::Output, ..self.cleared() }
        } else {
            SessionView { mode: Mode::Input, elapsed_ms: elapsed, ..self }
        }
    }

    /// The step finishes a capture: the line has been idle long enough
    /// after some input.
    pub open spec fn idle_fires(self, delta_ms: u32, input: bool) -> bool {
        &&& self.mode == Mode::Input
        &&& !self.last_level
        &&& !input
        &&& self.elapsed_ms.saturating_add(delta_ms) >= MAX_IDLE_MS
        &&& self.live.len() > 0
    }

    /// The capture that a firing step finishes, closed by its final silence.
    pub open spec fn captured(self, delta_ms: u32) -> Seq<Signal> {
        self.live.push(Signal { on: false, duration: self.elapsed_ms.saturating_add(delta_ms) })
    }

    /// The state after one step and the level it outputs. Where the step
    /// finishes a capture, the state plays nothing yet.
    pub open spec fn step(self, delta_ms: u32, input: bool) -> (SessionView, bool) {
        let elapsed = self.elapsed_ms.saturating_add(delta_ms);
        match self.mode {
            Mode::Input => (self.capture(elapsed, input), input),
            Mode::Output => if input {
                (SessionView { mode: Mode::Input, ..self.cleared() }.capture(0, true), true)
            } else if self.queue.len() > 0 {
                let front = self.queue[0];
                if elapsed >= front.duration {
                    (SessionView { elapsed_ms: 0, queue: self.queue.drop_first(), ..self }, front.on)
                } else {
                    (SessionView { elapsed_ms: elapsed, ..self }, front.on)
                }
            } else {
                (SessionView { mode: Mode::Input, ..self.cleared() }, false)
            },
        }
    }

    /// `post` and `out` are what a tick from `self` can give: the step
    /// itself, or, where it finishes a capture, the step with the signals
    /// of some reply queued for playback.
    pub open spec fn ticked(self, delta_ms: u32, input: bool, post: SessionView, out: bool) -> bool {
        if self.idle_fires(delta_ms, input) {
            &&& !out
            &&& post == SessionView { queue: post.queue, ..self.step(delta_ms, input).0 }
            &&& exists|reply: Seq<CwSymbol>|
                post.queue == #[trigger] generate(reply, self.output_profile)
        } else {
            post == self.step(delta_ms, input).0 && out == self.step(delta_ms, input).1
        }
    }
}

/// The session controller: it owns the mode, the capture and the playback.
pub struct SignalController {
    input_profile: TimingProfile,
    output_profile: TimingProfile,
    mode: Mode,
    live: Vec<Signal>,
    queue: Vec<Signal>,
    last_level: bool,
    elapsed_ms: u32,
}

impl View for SignalController {
    type V = SessionView;

    closed spec fn view(&self) -> SessionView {
        SessionView {
            mode: self.mode,
            elapsed_ms: self.elapsed_ms,
            last_level: self.last_level,
            live: self.live@,
            queue: self.queue@,
            input_profile: self.input_profile,
            output_profile: self.output_profile,
        }
    }
}

impl SignalController {
    /// A session capturing, with the thresholds of the two speeds.
    pub fn new(config: &CwConfig) -> (r: SignalController)
        requires
            config.fits(),
        ensures
            r@ == SessionView::initial(*config),
            r@.wf(),
    {
        SignalController {
            input_profile: TimingProfile::from_config(config.input.signal),
            output_profile: TimingProfile::from_config(config.output.signal),
            mode: Mode::Input,
            live: Vec::new(),
            queue: Vec::new(),
            last_level: false,
            elapsed_ms: 0,
        }
    }

    pub fn get_mode(&self) -> (r: Mode)
        ensures
            r == self@.mode,
    {
        self.mode
    }

    /// How many signals the current capture holds.
    pub fn capture_len(&self) -> (r: usize)
        ensures
            r == self@.live.len(),
    {
        self.live.len()
    }

    /// How many signals are still to play.
    pub fn playback_len(&self) -> (r: usize)
        ensures
            r == self@.queue.len(),
    {
        self.queue.len()
    }

    /// Empties both buffers and restarts the timing; the mode stays.
    pub fn reset(&mut self)
        requires
            old(self)@.wf(),
        ensures
            final(self)@ == old(self)@.cleared(),
            final(self)@.wf(),
    {
        self.live.clear();
        self.queue.clear();
        self.last_level = false;
        self.elapsed_ms = 0;
    }

    fn capture(&mut self, elapsed: u32, input: bool)
        requires
            old(self)@.wf(),
            old(self)@.mode == Mode::Input,
        ensures
            final(self)@ == old(self)@.capture(elapsed, input),
            final(self)@.wf(),
    {
        let last = self.last_level;
        if last != input {
            if last || self.live.len() > 0 {
                self.live.push(Signal { on: last, duration: elapsed });
            }
            self.elapsed_ms = 0;
            self.last_level = input;
        } else if !input && elapsed >= MAX_IDLE_MS && self.live.len() > 0 {
            self.reset();
            self.mode = Mode::Output;
        } else {
            self.elapsed_ms = elapsed;
        }
    }

    /// One step of the session, short of asking for a reply: the level to
    /// output, or the decoded text of a capture that this step finishes.
    /// After a capture the session is playing, with nothing queued yet; if
    /// no reply is queued (the responder failed), the next step hands the
    /// line back. Time adds up saturating at `u32::MAX` milliseconds.
    pub fn step(&mut self, delta_ms: u32, input_state: bool) -> (r: Step)
        requires
            old(self)@.wf(),
        ensures
            final(self)@ == old(self)@.step(delta_ms, input_state).0,
            final(self)@.wf(),
            old(self)@.idle_fires(delta_ms, input_state) ==> (r matches Step::Decoded(symbols)
                && symbols@ == classify(old(self)@.captured(delta_ms), old(self)@.input_profile)),
            !old(self)@.idle_fires(delta_ms, input_state) ==> r == Step::Level(
                old(self)@.step(delta_ms, input_state).1,
            ),
    {
        let elapsed = self.elapsed_ms.saturating_add(delta_ms);
        match self.mode {
            Mode::Input => {
                if !self.last_level && !input_state && elapsed >= MAX_IDLE_MS && self.live.len()
                    > 0 {
                    self.live.push(Signal { on: false, duration: elapsed });
                    let symbols = signals_to_symbols(&self.live, &self.input_profile);
                    self.live.pop();
                    self.capture(elapsed, input_state);
                    Step::Decoded(symbols)
                } else {
                    self.capture(elapsed, input_state);
                    Step::Level(input_state)
                }
            },
            Mode::Output => {
                if input_state {
                    self.reset();
                    self.mode = Mode::Input;
                    self.capture(0, true);
                    Step::Level(true)
                } else if self.queue.len() > 0 {
                    let front = self.queue[0];
                    if elapsed >= front.duration {
                        self.elapsed_ms = 0;
                        self.queue.remove(0);
                    } else {
                        self.elapsed_ms = elapsed;
                    }
                    Step::Level(front.on)
                } else {
                    self.reset();
                    self.mode = Mode::Input;
                    Step::Level(false)
                }
            },
        }
    }

    /// Queues the signals of a reply for playback, once a step has
    /// finished a capture.
    pub fn play(&mut self, reply: &CwString)
        requires
            old(self)@.wf(),
            old(self)@.mode == Mode::Output,
            old(self)@.queue.len() == 0,
        ensures
            final(self)@ == (SessionView {
                queue: generate(reply@, old(self)@.output_profile),
                ..old(self)@
            }),
            final(self)@.wf(),
    {
        self.queue = symbols_to_signals(reply, &self.output_profile);
    }

    /// One tick of `delta_ms` with the input at `input_state`; returns the
    /// output level. A capture that this tick finishes is decoded, handed
    /// to `responder`, and its reply queued for playback, all in this tick.
    pub fn tick<R: CwController>(
        &mut self,
        delta_ms: u32,
        input_state: bool,
        responder: &mut R,
    ) -> (r: bool)
        requires
            old(self)@.wf(),
        ensures
            final(self)@.wf(),
            old(self)@.ticked(delta_ms, input_state, final(self)@, r),
            !old(self)@.idle_fires(delta_ms, input_state) ==> *final(responder) == *old(
                responder,
            ),
            // input during playback takes the line back at once
            old(self)@.mode == Mode::Output && input_state ==> final(self)@.mode == Mode::Input
                && final(self)@.queue.len() == 0,
            // an idle line with nothing captured stays with the person keying
            old(self)@.mode == Mode::Input && old(self)@.live.len() == 0 && !input_state
                ==> final(self)@.mode == Mode::Input && *final(responder) == *old(responder),
    {
        let ghost pre = self@;
        match self.step(delta_ms, input_state) {
            Step::Level(level) => level,
            Step::Decoded(symbols) => {
                let reply = responder.tick(symbols);
                self.play(&reply);
                assert(self@ == SessionView {
                    queue: generate(reply@, pre.output_profile),
                    ..pre.step(delta_ms, input_state).0
                });
                false
            },
        }
    }
}

/// A session driven by a millisecond clock: it holds its responder, takes
/// each tick's length from the time, and names the tone to sound, which
/// tells the person keying from the machine.
pub struct LinearController<C: CwController> {
    controller: C,
    session: SignalController,
    input_freq: u32,
    output_freq: u32,
    last_time: u32,
}

impl<C: CwController> LinearController<C> {
    pub closed spec fn session(&self) -> SessionView {
        self.session@
    }

    pub closed spec fn responder(&self) -> C {
        self.controller
    }

    /// The clock reading of the previous tick; zero before the first.
    pub closed spec fn last_time(&self) -> u32 {
        self.last_time
    }

    /// The tones of the person keying and of the machine.
    pub closed spec fn freqs(&self) -> (u32, u32) {
        (self.input_freq, self.output_freq)
    }

    /// The length of a tick at clock reading `time`: nothing at the first
    /// tick, else the difference modulo 2^32, which stays right when the
    /// clock wraps.
    pub open spec fn delta(&self, time: u32) -> u32 {
        if self.last_time() == 0 {
            0
        } else {
            time.wrapping_sub(self.last_time())
        }
    }

    pub fn new(controller: C, config: &CwConfig) -> (r: Self)
        requires
            config.fits(),
        ensures
            r.session() == SessionView::initial(*config),
            r.session().wf(),
            r.responder() == controller,
            r.last_time() == 0,
            r.freqs() == (config.input.signal.freq, config.output.signal.freq),
    {
        LinearController {
            controller,
            session: SignalController::new(config),
            input_freq: config.input.signal.freq,
            output_freq: config.output.signal.freq,
            last_time: 0,
        }
    }

    /// One tick at clock reading `time`; returns the tone to sound, if the
    /// line is on: the tone of whoever has the line after the tick.
    pub fn tick(&mut self, time: u32, input: bool) -> (r: Option<u32>)
        requires
            old(self).session().wf(),
        ensures
            final(self).session().wf(),
            old(self).session().ticked(old(self).delta(time), input, final(self).session(), r is Some),
            !old(self).session().idle_fires(old(self).delta(time), input) ==> final(self).responder()
                == old(self).responder(),
            r matches Some(f) ==> f == if final(self).session().mode == Mode::Input {
                old(self).freqs().0
            } else {
                old(self).freqs().1
            },
            final(self).last_time() == time,
            final(self).freqs() == old(self).freqs(),
    {
        if self.last_time == 0 {
            self.last_time = time;
        }
        let delta_ms = time.wrapping_sub(self.last_time);
        let on = self.session.tick(delta_ms, input, &mut self.controller);
        self.last_time = time;
        if on {
            match self.session.get_mode() {
                Mode::Input => Some(self.input_freq),
                Mode::Output => Some(self.output_freq),
            }
        } else {
            None
        }
    }

    pub fn get_mode(&self) -> (r: Mode)
        ensures
            r == self.session().mode,
    {
        self.session.get_mode()
    }

    /// Empties both buffers and restarts the timing; the mode stays.
    pub fn reset(&mut self)
        requires
            old(self).session().wf(),
        ensures
            final(self).session() == old(self).session().cleared(),
            final(self).session().wf(),
            final(self).responder() == old(self).responder(),
            final(self).last_time() == old(self).last_time(),
            final(self).freqs() == old(self).freqs(),
    {
        self.session.reset();
    }
}

} // verus!
