//! Signals to the actuator, and the two loops that act on them.
//!
//! The signaler takes requests from outside and keeps at most one of each
//! kind pending. The auto-fire loop and the pulse loop are state machines: a
//! caller performs the action that a step hands out (wait for a signal,
//! sleep, write to the hardware) and reports the outcome to the next step.

use vstd::prelude::*;
use crate::config::freq_max;
use crate::config::freq_min;
use crate::config::stored_or;
use crate::config::ConfigError;
use crate::config::DefaultConfig;
use crate::queue::RendezvousQueue;
use rand::rngs::SmallRng;
use rand::Rng;

verus! {

/// A request to the actuator.
#[derive(Debug, Clone, Copy, PartialEq, Eq, Structural)]
pub enum Signal {
    /// Pulse once.
    Fire,
    /// Pulse at random intervals until stopped.
    StartAuto,
    /// Stop pulsing at random intervals.
    StopAuto,
}

/// What a signaler holds.
pub struct SignalerState {
    /// A fire request waits for the pulse loop.
    pub fire_pending: bool,
    /// The mode request that waits for the auto-fire loop.
    pub auto_pending: Option<bool>,
    /// The mode that was requested last.
    pub is_auto: bool,
}

/// The signaler after `signal` was sent to it. A fire request joins no
/// queue: one is pending afterwards, however many were sent. A mode request
/// replaces the pending one.
pub open spec fn after_signal(state: SignalerState, signal: Signal) -> SignalerState {
    match signal {
        Signal::Fire => SignalerState { fire_pending: true, ..state },
        Signal::StartAuto => SignalerState { auto_pending: Some(true), is_auto: true, ..state },
        Signal::StopAuto => SignalerState { auto_pending: Some(false), is_auto: false, ..state },
    }
}

/// The signaler after each signal of `signals` was sent to it in turn, with
/// nothing consumed in between.
pub open spec fn after_signals(state: SignalerState, signals: Seq<Signal>) -> SignalerState
    decreases signals.len(),
{
    if signals.len() == 0 {
        state
    } else {
        after_signal(after_signals(state, signals.drop_last()), signals.last())
    }
}

/// Whether `signal` asks for a mode, and for which.
pub open spec fn requested_mode(signal: Signal) -> Option<bool> {
    match signal {
        Signal::Fire => None,
        Signal::StartAuto => Some(true),
        Signal::StopAuto => Some(false),
    }
}

/// The mode that the last mode request among `signals` asks for, if there
/// is a mode request among them.
pub open spec fn last_mode(signals: Seq<Signal>) -> Option<bool>
    decreases signals.len(),
{
    if signals.len() == 0 {
        None
    } else {
        match requested_mode(signals.last()) {
            Some(mode) => Some(mode),
            None => last_mode(signals.drop_last()),
        }
    }
}

/// The fire queue, the mode queue and a snapshot of the requested mode.
#[derive(Debug)]
pub struct Signaler {
    fire_queue: RendezvousQueue<()>,
    auto_queue: RendezvousQueue<bool>,
    is_auto: bool,
}

impl View for Signaler {
    type V = SignalerState;

    closed spec fn view(&self) -> SignalerState {
        SignalerState {
            fire_pending: self.fire_queue@ is Some,
            auto_pending: self.auto_queue@,
            is_auto: self.is_auto,
        }
    }
}

impl Signaler {
    /// A signaler with nothing pending and auto mode off.
    pub fn new() -> (signaler: Self)
        ensures
            signaler@ == (SignalerState { fire_pending: false, auto_pending: None, is_auto: false }),
    {
        Self { fire_queue: RendezvousQueue::new(), auto_queue: RendezvousQueue::new(), is_auto: false }
    }

    /// Sends `signal`. A fire request is dropped while another is pending,
    /// so that pulses never queue up. A mode request first discards a stale
    /// one that the auto-fire loop has not read yet: the loop sees only the
    /// latest.
    pub fn send(&mut self, signal: Signal)
        ensures
            final(self)@ == after_signal(old(self)@, signal),
    {
        match signal {
            Signal::Fire => {
                let _ = self.fire_queue.try_send(());
            },
            Signal::StartAuto => {
                let _ = self.auto_queue.try_recv();
                self.auto_queue.send(true);
                self.is_auto = true;
            },
            Signal::StopAuto => {
                let _ = self.auto_queue.try_recv();
                self.auto_queue.send(false);
                self.is_auto = false;
            },
        }
    }

    /// The mode that was requested last.
    pub fn is_auto(&self) -> (auto: bool)
        ensures
            auto == self@.is_auto,
    {
        self.is_auto
    }

    /// Whether a fire request is pending.
    pub fn fire_pending(&self) -> (pending: bool)
        ensures
            pending == self@.fire_pending,
    {
        self.fire_queue.is_full()
    }

    /// The pending mode request, which stays pending.
    pub fn auto_pending(&self) -> (pending: Option<bool>)
        ensures
            pending == self@.auto_pending,
    {
        self.auto_queue.try_peek()
    }

    /// Takes the pending fire request and says whether there was one. The
    /// pulse loop calls this when it starts a pulse, so that one more request
    /// can be left while the actuator is busy.
    pub fn take_fire(&mut self) -> (taken: bool)
        ensures
            taken == old(self)@.fire_pending,
            final(self)@ == (SignalerState { fire_pending: false, ..old(self)@ }),
    {
        self.fire_queue.try_recv().is_some()
    }
}

/// However many fire requests are sent while none is consumed, the signaler
/// ends as after a single one: one request is pending, and the mode is
/// untouched.
pub proof fn lemma_fire_requests_collapse(state: SignalerState, signals: Seq<Signal>)
    requires
        signals.len() >= 1,
        forall|i: int| 0 <= i < signals.len() ==> signals[i] == Signal::Fire,
    ensures
        after_signals(state, signals) == after_signal(state, Signal::Fire),
    decreases signals.len(),
{
    let earlier = signals.drop_last();
    assert(signals.last() == Signal::Fire);
    if earlier.len() >= 1 {
        lemma_fire_requests_collapse(state, earlier);
    } else {
        assert(after_signals(state, earlier) == state);
    }
}

/// What any run of signals leaves behind when nothing is consumed meanwhile:
/// a fire request is pending if one was pending or one was sent, however
/// many were; and of the mode requests only the last one counts.
pub proof fn lemma_signals_summary(state: SignalerState, signals: Seq<Signal>)
    ensures
        after_signals(state, signals).fire_pending == (state.fire_pending || signals.contains(
            Signal::Fire,
        )),
        after_signals(state, signals).auto_pending == match last_mode(signals) {
            Some(mode) => Some(mode),
            None => state.auto_pending,
        },
        after_signals(state, signals).is_auto == match last_mode(signals) {
            Some(mode) => mode,
            None => state.is_auto,
        },
    decreases signals.len(),
{
    if signals.len() > 0 {
        let earlier = signals.drop_last();
        lemma_signals_summary(state, earlier);
        if earlier.contains(Signal::Fire) {
            let i = choose|i: int| 0 <= i < earlier.len() && earlier[i] == Signal::Fire;
            assert(signals[i] == Signal::Fire);
        }
        if signals.last() == Signal::Fire {
            assert(signals[signals.len() - 1] == Signal::Fire);
        }
        if signals.contains(Signal::Fire) && signals.last() != Signal::Fire {
            let i = choose|i: int| 0 <= i < signals.len() && signals[i] == Signal::Fire;
            assert(earlier[i] == Signal::Fire);
        }
    }
}

/// Whatever was sent before, the mode request that was sent last is the one
/// that is pending, and the snapshot agrees with it.
pub proof fn lemma_last_mode_request_wins(state: SignalerState, signals: Seq<Signal>, mode: bool)
    requires
        signals.len() >= 1,
        requested_mode(signals.last()) == Some(mode),
    ensures
        after_signals(state, signals).auto_pending == Some(mode),
        after_signals(state, signals).is_auto == mode,
{
}

/// The state of the auto-fire loop.
#[derive(Debug, Clone, Copy, PartialEq, Eq, Structural)]
pub enum AutoFireState {
    /// Auto mode is off: the loop waits for a mode request.
    NotArmed,
    /// Auto mode is on: the loop pulses at random intervals.
    Armed,
}

/// What the auto-fire loop does after a step.
#[derive(Debug, Clone, Copy, PartialEq, Eq, Structural)]
pub enum AutoFireAction {
    /// Block until a mode request is pending, then step again.
    AwaitMode,
    /// Step again at once.
    Continue,
    /// Draw a wait, sleep for it, then finish the cycle.
    Wait,
}

/// How a cycle of the auto-fire loop ended.
#[derive(Debug, Clone, Copy, PartialEq, Eq, Structural)]
pub enum CycleOutcome {
    /// A fire request was left for the pulse loop.
    Fired,
    /// A fire request was pending already: none was added.
    Dropped,
    /// Auto mode was switched off during the wait: no fire request.
    Cancelled,
}

/// One step of the auto-fire loop in `state`, when `pending` is the mode
/// request that it finds. Not armed, it arms on `true` and ignores `false`.
/// Armed, it disarms on `false` without waiting, and goes on otherwise.
pub open spec fn auto_fire_step(state: AutoFireState, pending: Option<bool>) -> (
    AutoFireState,
    AutoFireAction,
) {
    match (state, pending) {
        (AutoFireState::NotArmed, None) => (AutoFireState::NotArmed, AutoFireAction::AwaitMode),
        (AutoFireState::NotArmed, Some(true)) => (AutoFireState::Armed, AutoFireAction::Wait),
        (AutoFireState::NotArmed, Some(false)) => (
            AutoFireState::NotArmed,
            AutoFireAction::Continue,
        ),
        (AutoFireState::Armed, Some(false)) => (AutoFireState::NotArmed, AutoFireAction::Continue),
        (AutoFireState::Armed, _) => (AutoFireState::Armed, AutoFireAction::Wait),
    }
}

/// How a cycle ends when the wait is over and the signaler is in `state`.
pub open spec fn cycle_outcome(state: SignalerState) -> CycleOutcome {
    if state.auto_pending == Some(false) {
        CycleOutcome::Cancelled
    } else if state.fire_pending {
        CycleOutcome::Dropped
    } else {
        CycleOutcome::Fired
    }
}

/// Starts an iteration of the auto-fire loop: reads the pending mode
/// request, which is consumed, and decides by it.
pub fn begin_cycle(state: AutoFireState, signaler: &mut Signaler) -> (next: (
    AutoFireState,
    AutoFireAction,
))
    ensures
        next == auto_fire_step(state, old(signaler)@.auto_pending),
        final(signaler)@ == (SignalerState { auto_pending: None, ..old(signaler)@ }),
{
    let pending = signaler.auto_queue.try_recv();
    match state {
        AutoFireState::NotArmed => match pending {
            None => (AutoFireState::NotArmed, AutoFireAction::AwaitMode),
            Some(true) => (AutoFireState::Armed, AutoFireAction::Wait),
            Some(false) => (AutoFireState::NotArmed, AutoFireAction::Continue),
        },
        AutoFireState::Armed => match pending {
            Some(false) => (AutoFireState::NotArmed, AutoFireAction::Continue),
            _ => (AutoFireState::Armed, AutoFireAction::Wait),
        },
    }
}

/// The generator of the waits, of the crate rand.
#[verifier::external_type_specification]
#[verifier::external_body]
pub struct ExSmallRng(rand::rngs::SmallRng);

/// `Rng::gen_range` of rand, on the half-open range from `low` to `high`.
/// The range must not be empty, on which the call panics. The value lies in
/// the range; nothing else is known of it.
#[verifier::external_body]
fn gen_range(rng: &mut SmallRng, low: u32, high: u32) -> (value: u32)
    requires
        low < high,
    ensures
        low <= value < high,
{
    rng.gen_range(low..high)
}

/// Draws the seconds to wait before the next pulse: at least `min_seconds`
/// and less than `max_seconds`. There is no such wait where the bounds leave
/// no room, and then none is drawn.
pub fn random_wait(rng: &mut SmallRng, min_seconds: u32, max_seconds: u32) -> (wait: Option<u32>)
    ensures
        wait is Some <==> min_seconds < max_seconds,
        wait matches Some(seconds) ==> min_seconds <= seconds < max_seconds,
{
    if min_seconds < max_seconds {
        Some(gen_range(rng, min_seconds, max_seconds))
    } else {
        None
    }
}

/// Draws the wait of a cycle from the bounds that are configured now: the
/// stored bounds win over the defaults, and a change applies to the very
/// next cycle. Bounds that leave no room are an error of this cycle.
pub fn auto_wait(
    rng: &mut SmallRng,
    store: &DefaultConfig,
    stored_min: Option<u32>,
    stored_max: Option<u32>,
) -> (wait: Result<u32, ConfigError>)
    ensures
        store@ is None ==> wait == Err::<u32, ConfigError>(ConfigError::NotInitialized),
        store@ matches Some(c) ==> ({
            let min_seconds = stored_or(stored_min, c.frequency.default_min);
            let max_seconds = stored_or(stored_max, c.frequency.default_max);
            if min_seconds < max_seconds {
                wait matches Ok(seconds) && min_seconds <= seconds < max_seconds
            } else {
                wait == Err::<u32, ConfigError>(ConfigError::EmptyFrequencyRange)
            }
        }),
{
    let min_seconds = freq_min(store, stored_min)?;
    let max_seconds = freq_max(store, stored_max)?;
    match random_wait(rng, min_seconds, max_seconds) {
        Some(seconds) => Ok(seconds),
        None => Err(ConfigError::EmptyFrequencyRange),
    }
}

/// Ends a cycle of the auto-fire loop after the wait. The mode request is
/// looked at, not consumed: if auto mode was switched off meanwhile, nothing
/// fires, and the next step disarms the loop. Otherwise a fire request is
/// left, unless one is pending.
pub fn finish_cycle(signaler: &mut Signaler) -> (outcome: CycleOutcome)
    ensures
        outcome == cycle_outcome(old(signaler)@),
        outcome == CycleOutcome::Cancelled ==> final(signaler)@ == old(signaler)@,
        outcome != CycleOutcome::Cancelled ==> final(signaler)@ == after_signal(
            old(signaler)@,
            Signal::Fire,
        ),
{
    match signaler.auto_queue.try_peek() {
        Some(false) => CycleOutcome::Cancelled,
        _ => {
            if signaler.fire_queue.try_send(()) {
                CycleOutcome::Fired
            } else {
                CycleOutcome::Dropped
            }
        },
    }
}

/// After a start request and then a stop request that the loop has read
/// neither of, the loop finds the stop request alone: it never arms, and
/// nothing is left for it to read afterwards.
pub proof fn lemma_start_then_stop_reads_stop(state: SignalerState, loop_state: AutoFireState)
    ensures
        ({
            let sent = after_signal(after_signal(state, Signal::StartAuto), Signal::StopAuto);
            &&& sent.auto_pending == Some(false)
            &&& !sent.is_auto
            &&& auto_fire_step(loop_state, sent.auto_pending) == (
                AutoFireState::NotArmed,
                AutoFireAction::Continue,
            )
        }),
{
}

/// A stop request that arrives during the wait cancels the cycle: no fire
/// request is left, and the next step disarms the loop without waiting.
pub proof fn lemma_stop_during_wait_cancels(state: SignalerState)
    ensures
        cycle_outcome(after_signal(state, Signal::StopAuto)) == CycleOutcome::Cancelled,
        auto_fire_step(AutoFireState::Armed, after_signal(state, Signal::StopAuto).auto_pending)
            == (AutoFireState::NotArmed, AutoFireAction::Continue),
{
}

/// The state of the pulse loop, which alone drives the actuator.
#[derive(Debug, Clone, Copy, PartialEq, Eq, Structural)]
pub enum PulseState {
    /// The actuator is inactive: the loop waits for a fire request.
    Idle,
    /// The write that activates the actuator was issued.
    Activating,
    /// The actuator is active for the configured duration.
    Holding,
    /// The write that returns the actuator to inactive was issued.
    Releasing,
}

/// What the pulse loop is told.
#[derive(Debug, Clone, Copy, PartialEq, Eq, Structural)]
pub enum PulseEvent {
    /// A fire request was taken from the signaler.
    Fire,
    /// The action of the last step is done.
    Done,
    /// The action of the last step failed at the hardware.
    Failed,
}

/// What the pulse loop does after a step.
#[derive(Debug, Clone, Copy, PartialEq, Eq, Structural)]
pub enum PulseAction {
    /// Block until a fire request is pending, take it, and report `Fire`.
    AwaitFire,
    /// Read the parameters afresh and drive the actuator to active.
    Activate,
    /// Keep the actuator active for the configured duration.
    Hold,
    /// Return the actuator to inactive.
    Release,
}

/// The action that the pulse loop is busy with in `state`.
pub open spec fn pulse_action(state: PulseState) -> PulseAction {
    match state {
        PulseState::Idle => PulseAction::AwaitFire,
        PulseState::Activating => PulseAction::Activate,
        PulseState::Holding => PulseAction::Hold,
        PulseState::Releasing => PulseAction::Release,
    }
}

/// The state of the pulse loop after `event` in `state`. A failure never
/// ends the loop: a failed activation goes straight to the release, and a
/// failed release back to waiting. A fire request only counts while idle.
pub open spec fn after_pulse_event(state: PulseState, event: PulseEvent) -> PulseState {
    match (state, event) {
        (PulseState::Idle, PulseEvent::Fire) => PulseState::Activating,
        (PulseState::Idle, _) => PulseState::Idle,
        (_, PulseEvent::Fire) => state,
        (PulseState::Activating, PulseEvent::Done) => PulseState::Holding,
        (PulseState::Activating, PulseEvent::Failed) => PulseState::Releasing,
        (PulseState::Holding, _) => PulseState::Releasing,
        (PulseState::Releasing, _) => PulseState::Idle,
    }
}

/// One step of the pulse loop: the next state, and the action to perform in
/// it.
pub fn pulse_step(state: PulseState, event: PulseEvent) -> (next: (PulseState, PulseAction))
    ensures
        next.0 == after_pulse_event(state, event),
        next.1 == pulse_action(next.0),
{
    let next_state = match state {
        PulseState::Idle => match event {
            PulseEvent::Fire => PulseState::Activating,
            _ => PulseState::Idle,
        },
        PulseState::Activating => match event {
            PulseEvent::Fire => PulseState::Activating,
            PulseEvent::Done => PulseState::Holding,
            PulseEvent::Failed => PulseState::Releasing,
        },
        PulseState::Holding => match event {
            PulseEvent::Fire => PulseState::Holding,
            _ => PulseState::Releasing,
        },
        PulseState::Releasing => match event {
            PulseEvent::Fire => PulseState::Releasing,
            _ => PulseState::Idle,
        },
    };
    let action = match next_state {
        PulseState::Idle => PulseAction::AwaitFire,
        PulseState::Activating => PulseAction::Activate,
        PulseState::Holding => PulseAction::Hold,
        PulseState::Releasing => PulseAction::Release,
    };
    (next_state, action)
}

/// Whatever the hardware reports, a pulse that was started is released
/// before the loop waits for the next fire request: the actuator is never
/// left active.
pub proof fn lemma_pulse_is_released(first: PulseEvent, second: PulseEvent, third: PulseEvent)
    requires
        first != PulseEvent::Fire,
        second != PulseEvent::Fire,
        third != PulseEvent::Fire,
    ensures
        ({
            let started = after_pulse_event(PulseState::Idle, PulseEvent::Fire);
            let one = after_pulse_event(started, first);
            let two = after_pulse_event(one, second);
            &&& started == PulseState::Activating
            &&& one == PulseState::Releasing || two == PulseState::Releasing
            &&& one == PulseState::Releasing ==> two == PulseState::Idle
            &&& one != PulseState::Releasing ==> after_pulse_event(two, third) == PulseState::Idle
        }),
{
}

} // verus!
