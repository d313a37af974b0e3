//! The connection supervisor: the decisions that keep a station-mode radio
//! associated to one network for the device's lifetime.
//!
//! The supervisor never touches the radio. It hands out one [`Step`] at a
//! time (a delay to await, then a [`Command`] to perform) and is told what
//! came of it through a [`RadioEvent`]. The caller owns the radio and the
//! timer and runs the loop.
use vstd::arithmetic::power2::{lemma2_to64, lemma_pow2_strictly_increases, lemma_pow2_unfold, pow2};
use vstd::prelude::*;

verus! {

/// Consecutive failures that are retried without delay.
pub const FREE_RETRIES: u32 = 3;

/// Delay before the first delayed retry, in milliseconds.
pub const BASE_DELAY_MS: u32 = 500;

/// Longest delay between attempts, in milliseconds.
pub const MAX_DELAY_MS: u32 = 10000;

/// The delay awaited before an attempt that follows `failures` consecutive
/// failures: none for the first [`FREE_RETRIES`], then [`BASE_DELAY_MS`]
/// doubling with each failure, capped at [`MAX_DELAY_MS`].
pub open spec fn backoff_spec(failures: u32) -> u32 {
    if failures < FREE_RETRIES {
        0
    } else if BASE_DELAY_MS * pow2((failures - FREE_RETRIES) as nat) < MAX_DELAY_MS {
        (BASE_DELAY_MS * pow2((failures - FREE_RETRIES) as nat)) as u32
    } else {
        MAX_DELAY_MS
    }
}

/// The backoff delay, in milliseconds, after `failures` consecutive failures.
pub fn backoff_delay(failures: u32) -> (r: u32)
    ensures
        r == backoff_spec(failures),
{
    if failures < FREE_RETRIES {
        return 0;
    }
    proof {
        lemma2_to64();
    }
    if failures >= 8 {
        proof {
            if failures > 8 {
                lemma_pow2_strictly_increases(5, (failures - FREE_RETRIES) as nat);
            }
        }
        return MAX_DELAY_MS;
    }
    let mut delay: u32 = BASE_DELAY_MS;
    let mut i: u32 = FREE_RETRIES;
    while i < failures
        invariant
            FREE_RETRIES <= i <= failures < 8,
            delay == BASE_DELAY_MS * pow2((i - FREE_RETRIES) as nat),
            pow2(0) == 1 && pow2(1) == 2 && pow2(2) == 4 && pow2(3) == 8 && pow2(4) == 16,
        decreases failures - i,
    {
        proof {
            lemma_pow2_unfold((i + 1 - FREE_RETRIES) as nat);
        }
        delay = delay * 2;
        i += 1;
    }
    delay
}

/// No delay for the first free retries; never more than [`MAX_DELAY_MS`].
pub proof fn lemma_backoff_bounds(failures: u32)
    ensures
        failures < FREE_RETRIES ==> backoff_spec(failures) == 0,
        backoff_spec(failures) <= MAX_DELAY_MS,
{
}

/// The backoff delay never shrinks as failures accumulate.
pub proof fn lemma_backoff_monotone(a: u32, b: u32)
    requires
        a <= b,
    ensures
        backoff_spec(a) <= backoff_spec(b),
{
    if a >= FREE_RETRIES && a < b {
        lemma_pow2_strictly_increases((a - FREE_RETRIES) as nat, (b - FREE_RETRIES) as nat);
    }
}

/// The supervisor's view of the radio.
#[derive(Debug, Clone, Copy, PartialEq, Eq, Structural)]
pub enum ConnectionState {
    /// The radio is stopped; the next attempt configures and starts it.
    Stopped,
    /// The radio is started and not associated.
    StartedDisconnected,
    /// A connect attempt is in flight.
    Connecting,
    /// The radio is associated; the supervisor waits for the next disconnect.
    Connected,
}

/// What the caller performs for the supervisor.
#[derive(Debug, Clone, Copy, PartialEq, Eq, Structural)]
pub enum Command {
    /// Apply the station configuration, then start the radio.
    Start,
    /// Connect to the configured network.
    Connect,
    /// Wait for the radio's next disconnect event.
    WaitForDisconnect,
    /// Force a disconnect, then stop the radio, ignoring errors of both.
    Reset,
}

/// A delay to await, then a command to perform.
#[derive(Debug, Clone, Copy, PartialEq, Eq, Structural)]
pub struct Step {
    pub delay_ms: u32,
    pub command: Command,
}

/// What came of a command, or what the radio reported on its own.
#[derive(Debug, Clone, Copy, PartialEq, Eq, Structural)]
pub enum RadioEvent {
    /// `Start` succeeded.
    Started,
    /// `Start` failed.
    StartFailed,
    /// `Connect` succeeded.
    Connected,
    /// `Connect` failed, for the radio's reason code `reason`.
    ConnectFailed { reason: u16 },
    /// The link was lost, for the radio's reason code `reason`.
    Disconnected { reason: u16 },
    /// `Reset` was carried out.
    ResetDone,
}

/// The mathematical content of a supervisor.
pub struct SupervisorView {
    pub state: ConnectionState,
    /// Consecutive failed attempts since the last successful connection.
    pub failures: u32,
    /// An unrecoverable fault was seen and the radio has not been reset since.
    pub reset_pending: bool,
    /// Reason codes after which the radio must be stopped before it accepts
    /// another connect.
    pub unrecoverable: Seq<u16>,
}

impl SupervisorView {
    /// A forced reset is only ever pending while the radio counts as stopped.
    pub open spec fn valid(self) -> bool {
        self.reset_pending ==> self.state == ConnectionState::Stopped
    }

    pub open spec fn is_unrecoverable(self, reason: u16) -> bool {
        self.unrecoverable.contains(reason)
    }
}

/// `n + 1`, saturating.
pub open spec fn count_failure(n: u32) -> u32 {
    if n == u32::MAX {
        n
    } else {
        (n + 1) as u32
    }
}

/// The fresh supervisor: stopped, with no failures.
pub open spec fn initial_spec(unrecoverable: Seq<u16>) -> SupervisorView {
    SupervisorView { state: ConnectionState::Stopped, failures: 0, reset_pending: false, unrecoverable }
}

/// The next step from `v`, and the supervisor after handing it out.
pub open spec fn step_spec(v: SupervisorView) -> (SupervisorView, Step) {
    if v.reset_pending {
        (v, Step { delay_ms: 0, command: Command::Reset })
    } else {
        match v.state {
            ConnectionState::Stopped => (
                v,
                Step { delay_ms: backoff_spec(v.failures), command: Command::Start },
            ),
            ConnectionState::StartedDisconnected | ConnectionState::Connecting => (
                SupervisorView { state: ConnectionState::Connecting, ..v },
                Step { delay_ms: backoff_spec(v.failures), command: Command::Connect },
            ),
            ConnectionState::Connected => (v, Step { delay_ms: 0, command: Command::WaitForDisconnect }),
        }
    }
}

/// The supervisor after `event` in `v`. An unrecoverable fault forces a reset
/// from any state and leaves the failure count alone; every other event is
/// taken in the state that expects it and ignored elsewhere.
pub open spec fn event_spec(v: SupervisorView, event: RadioEvent) -> SupervisorView {
    if is_fault(v, event) {
        SupervisorView { state: ConnectionState::Stopped, reset_pending: true, ..v }
    } else {
        ordinary_event_spec(v, event)
    }
}

/// `event` is an unrecoverable fault for `v`.
pub open spec fn is_fault(v: SupervisorView, event: RadioEvent) -> bool {
    match event {
        RadioEvent::ConnectFailed { reason } => v.is_unrecoverable(reason),
        RadioEvent::Disconnected { reason } => v.is_unrecoverable(reason),
        _ => false,
    }
}

/// The supervisor after an event that is no unrecoverable fault.
pub open spec fn ordinary_event_spec(v: SupervisorView, event: RadioEvent) -> SupervisorView {
    match event {
        RadioEvent::Started => if v.state == ConnectionState::Stopped && !v.reset_pending {
            SupervisorView { state: ConnectionState::StartedDisconnected, ..v }
        } else {
            v
        },
        RadioEvent::StartFailed => if v.state == ConnectionState::Stopped && !v.reset_pending {
            SupervisorView { failures: count_failure(v.failures), ..v }
        } else {
            v
        },
        RadioEvent::Connected => if v.state == ConnectionState::Connecting {
            SupervisorView { state: ConnectionState::Connected, failures: 0, ..v }
        } else {
            v
        },
        RadioEvent::ConnectFailed { .. } => if v.state == ConnectionState::Connecting {
            SupervisorView {
                state: ConnectionState::StartedDisconnected,
                failures: count_failure(v.failures),
                ..v
            }
        } else {
            v
        },
        RadioEvent::Disconnected { .. } => if v.state == ConnectionState::Connected || v.state
            == ConnectionState::Connecting {
            SupervisorView {
                state: ConnectionState::StartedDisconnected,
                failures: count_failure(v.failures),
                ..v
            }
        } else {
            v
        },
        RadioEvent::ResetDone => SupervisorView { reset_pending: false, ..v },
    }
}

/// Keeps a station-mode radio associated to one network.
pub struct Supervisor {
    state: ConnectionState,
    failures: u32,
    reset_pending: bool,
    unrecoverable: Vec<u16>,
}

impl View for Supervisor {
    type V = SupervisorView;

    closed spec fn view(&self) -> SupervisorView {
        SupervisorView {
            state: self.state,
            failures: self.failures,
            reset_pending: self.reset_pending,
            unrecoverable: self.unrecoverable@,
        }
    }
}

impl Supervisor {
    #[verifier::type_invariant]
    spec fn inv(self) -> bool {
        self@.valid()
    }

    /// A stopped supervisor with no failures. A disconnect or connect failure
    /// whose reason code is in `unrecoverable` forces a full reset.
    pub fn new(unrecoverable: Vec<u16>) -> (r: Supervisor)
        ensures
            r@ == initial_spec(unrecoverable@),
    {
        Supervisor { state: ConnectionState::Stopped, failures: 0, reset_pending: false, unrecoverable }
    }

    /// The supervisor's view of the radio.
    pub fn state(&self) -> (r: ConnectionState)
        ensures
            r == self@.state,
    {
        self.state
    }

    /// Consecutive failures since the last successful connection.
    pub fn failures(&self) -> (r: u32)
        ensures
            r == self@.failures,
    {
        self.failures
    }

    /// Whether the radio is associated, as far as the supervisor knows.
    pub fn is_connected(&self) -> (r: bool)
        ensures
            r == (self@.state == ConnectionState::Connected),
    {
        self.state == ConnectionState::Connected
    }

    /// Whether `reason` is one of the unrecoverable reason codes.
    pub fn is_unrecoverable(&self, reason: u16) -> (r: bool)
        ensures
            r == self@.is_unrecoverable(reason),
    {
        let mut i: usize = 0;
        while i < self.unrecoverable.len()
            invariant
                i <= self.unrecoverable@.len(),
                forall|j: int| 0 <= j < i ==> self.unrecoverable@[j] != reason,
            decreases self.unrecoverable@.len() - i,
        {
            if self.unrecoverable[i] == reason {
                return true;
            }
            i += 1;
        }
        false
    }

    /// The next delay and command. Issuing `Connect` moves the supervisor to
    /// `Connecting`.
    pub fn next_step(&mut self) -> (r: Step)
        ensures
            (final(self)@, r) == step_spec(old(self)@),
    {
        proof {
            use_type_invariant(&*self);
        }
        if self.reset_pending {
            return Step { delay_ms: 0, command: Command::Reset };
        }
        match self.state {
            ConnectionState::Stopped => Step { delay_ms: backoff_delay(self.failures), command: Command::Start },
            ConnectionState::StartedDisconnected | ConnectionState::Connecting => {
                self.state = ConnectionState::Connecting;
                Step { delay_ms: backoff_delay(self.failures), command: Command::Connect }
            },
            ConnectionState::Connected => Step { delay_ms: 0, command: Command::WaitForDisconnect },
        }
    }

    /// Takes in what the radio reported.
    pub fn on_event(&mut self, event: RadioEvent)
        ensures
            final(self)@ == event_spec(old(self)@, event),
    {
        proof {
            use_type_invariant(&*self);
        }
        let fatal = match event {
            RadioEvent::ConnectFailed { reason } => self.is_unrecoverable(reason),
            RadioEvent::Disconnected { reason } => self.is_unrecoverable(reason),
            _ => false,
        };
        if fatal {
            self.state = ConnectionState::Stopped;
            self.reset_pending = true;
            return;
        }
        let failed = if self.failures == u32::MAX {
            self.failures
        } else {
            self.failures + 1
        };
        match event {
            RadioEvent::Started => {
                if self.state == ConnectionState::Stopped && !self.reset_pending {
                    self.state = ConnectionState::StartedDisconnected;
                }
            },
            RadioEvent::StartFailed => {
                if self.state == ConnectionState::Stopped && !self.reset_pending {
                    self.failures = failed;
                }
            },
            RadioEvent::Connected => {
                if self.state == ConnectionState::Connecting {
                    self.state = ConnectionState::Connected;
                    self.failures = 0;
                }
            },
            RadioEvent::ConnectFailed { .. } => {
                if self.state == ConnectionState::Connecting {
                    self.state = ConnectionState::StartedDisconnected;
                    self.failures = failed;
                }
            },
            RadioEvent::Disconnected { .. } => {
                if self.state == ConnectionState::Connected || self.state
                    == ConnectionState::Connecting {
                    self.state = ConnectionState::StartedDisconnected;
                    self.failures = failed;
                }
            },
            RadioEvent::ResetDone => {
                self.reset_pending = false;
            },
        }
    }
}

/// What a radio that always succeeds reports after `command`. On such a
/// radio the wait for a disconnect never ends; [`run_ok`] stops before it.
pub open spec fn success_event(command: Command) -> RadioEvent {
    match command {
        Command::Start => RadioEvent::Started,
        Command::Connect => RadioEvent::Connected,
        Command::Reset => RadioEvent::ResetDone,
        Command::WaitForDisconnect => RadioEvent::Connected,
    }
}

/// One step of the supervisor against a radio that always succeeds.
pub open spec fn advance_ok(v: SupervisorView) -> SupervisorView {
    let (w, step) = step_spec(v);
    event_spec(w, success_event(step.command))
}

/// At most `n` steps against a radio that always succeeds, stopping once
/// connected.
pub open spec fn run_ok(v: SupervisorView, n: nat) -> SupervisorView
    decreases n,
{
    if n == 0 || v.state == ConnectionState::Connected {
        v
    } else {
        run_ok(advance_ok(v), (n - 1) as nat)
    }
}

/// Handing out a step and taking in an event keep a supervisor valid.
pub proof fn lemma_valid_preserved(v: SupervisorView, event: RadioEvent)
    requires
        v.valid(),
    ensures
        step_spec(v).0.valid(),
        event_spec(v, event).valid(),
{
}

/// A successful connection clears the failure count, so the disconnect that
/// follows counts as the first failure and the reconnect is not delayed.
pub proof fn lemma_success_resets(v: SupervisorView, reason: u16)
    requires
        v.valid(),
        v.state == ConnectionState::Connecting,
        !v.is_unrecoverable(reason),
    ensures
        event_spec(v, RadioEvent::Connected).state == ConnectionState::Connected,
        event_spec(v, RadioEvent::Connected).failures == 0,
        event_spec(event_spec(v, RadioEvent::Connected), RadioEvent::Disconnected { reason }).failures
            == 1,
        step_spec(
            event_spec(event_spec(v, RadioEvent::Connected), RadioEvent::Disconnected { reason }),
        ).1 == (Step { delay_ms: 0, command: Command::Connect }),
{
}

/// From any valid state, in particular `Stopped` with a reset pending or not,
/// a radio that always succeeds gets the supervisor to `Connected` within
/// three steps.
pub proof fn lemma_reaches_connected(v: SupervisorView)
    requires
        v.valid(),
    ensures
        run_ok(v, 3).state == ConnectionState::Connected,
{
    reveal_with_fuel(run_ok, 4);
}

/// After a disconnect in `Connected`, the supervisor issues `Connect` again
/// without outside help: at once for an ordinary disconnect, after a reset
/// and a restart for an unrecoverable one; a radio that then succeeds gets
/// it back to `Connected` within three steps.
pub proof fn lemma_disconnect_recovers(v: SupervisorView, reason: u16)
    requires
        v.valid(),
        v.state == ConnectionState::Connected,
    ensures
        !v.is_unrecoverable(reason) ==> step_spec(
            event_spec(v, RadioEvent::Disconnected { reason }),
        ).1.command == Command::Connect,
        !v.is_unrecoverable(reason) ==> step_spec(
            event_spec(v, RadioEvent::Disconnected { reason }),
        ).0.state == ConnectionState::Connecting,
        v.is_unrecoverable(reason) ==> step_spec(
            event_spec(v, RadioEvent::Disconnected { reason }),
        ).1.command == Command::Reset,
        v.is_unrecoverable(reason) ==> step_spec(
            advance_ok(advance_ok(event_spec(v, RadioEvent::Disconnected { reason }))),
        ).1.command == Command::Connect,
        v.is_unrecoverable(reason) ==> step_spec(
            advance_ok(advance_ok(event_spec(v, RadioEvent::Disconnected { reason }))),
        ).0.state == ConnectionState::Connecting,
        run_ok(event_spec(v, RadioEvent::Disconnected { reason }), 3).state
            == ConnectionState::Connected,
{
    reveal_with_fuel(run_ok, 4);
}

} // verus!
