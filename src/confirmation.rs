//! The confirmation step that stands before every decryption of a private key.
//!
//! A `ConfirmationConfig` says whether and how the user is asked. The state
//! machine runs `Idle -> AwaitingConfirmation -> {Confirmed, Cancelled,
//! TimedOut}`, and `finish` turns a terminal state into its outcome and
//! returns to `Idle`. Only the first transition out of
//! `AwaitingConfirmation` counts: later signals change nothing.
use vstd::prelude::*;
use crate::authenticator::ConfigurationError;

verus! {

/// How the confirmation is presented. It does not change any transition.
#[derive(Clone, Copy, Debug, PartialEq, Eq, Structural)]
pub enum ConfirmationUIMode {
    Native,
    Shadow,
    Embedded,
    Popup,
}

/// The rule for leaving `AwaitingConfirmation`.
#[derive(Clone, Copy, Debug, PartialEq, Eq, Structural)]
pub enum ConfirmationBehavior {
    /// Wait for an explicit confirm or cancel; no timeout.
    RequireClick,
    /// Confirm as soon as the UI is shown.
    AutoProceed,
    /// Confirm once the delay has passed, unless cancelled first.
    AutoProceedWithDelay,
}

/// Whether and how confirmation is shown before a sensitive decryption.
#[derive(Clone, Copy, Debug, PartialEq, Eq, Structural)]
pub struct ConfirmationConfig {
    pub show_pre_confirm: bool,
    pub ui_mode: ConfirmationUIMode,
    pub behavior: ConfirmationBehavior,
    /// Milliseconds before proceeding; read only under `AutoProceedWithDelay`.
    pub auto_proceed_delay: Option<u32>,
}

/// The state of one confirmation instance. It is not `Copy`: a terminal
/// state is consumed by `finish`, so it serves one decryption only.
#[derive(Clone, Debug, PartialEq, Eq, Structural)]
pub enum ConfirmationState {
    Idle,
    /// Waiting under `behavior`; `delay_ms` counts only under
    /// `AutoProceedWithDelay`.
    AwaitingConfirmation { behavior: ConfirmationBehavior, delay_ms: u32 },
    Confirmed,
    Cancelled,
    TimedOut,
}

/// A signal from the UI presenter or the clock.
#[derive(Clone, Copy, Debug, PartialEq, Eq, Structural)]
pub enum ConfirmationSignal {
    Confirm,
    Cancel,
    Timeout,
    /// Milliseconds elapsed since entry into `AwaitingConfirmation`.
    Elapsed(u64),
}

/// Why a confirmation could not start.
#[derive(Clone, Copy, Debug, PartialEq, Eq, Structural)]
pub enum StartError {
    /// The config was rejected.
    Configuration(ConfigurationError),
    /// The instance is not `Idle`: it is waiting, or holds a decision that
    /// `finish` has not consumed.
    NotIdle,
}

/// Why a decryption did not proceed.
#[derive(Clone, Copy, Debug, PartialEq, Eq, Structural)]
pub enum AbortReason {
    Cancelled,
    TimedOut,
}

/// What a confirmation says to the decryption waiting behind it.
#[derive(Clone, Copy, Debug, PartialEq, Eq, Structural)]
pub enum GateOutcome {
    /// The decryption may proceed.
    Proceed,
    /// The operation was aborted.
    OperationAborted(AbortReason),
    /// No decision yet.
    Pending,
}

/// The outcome of validating a confirmation config.
pub open spec fn config_check(c: ConfirmationConfig) -> Result<(), ConfigurationError> {
    if c.behavior == ConfirmationBehavior::AutoProceedWithDelay && c.auto_proceed_delay is None {
        Err(ConfigurationError::MissingAutoProceedDelay)
    } else {
        Ok(())
    }
}

/// The state that starting a confirmation under `c` leads to from `s`.
pub open spec fn start_spec(s: ConfirmationState, c: ConfirmationConfig) -> Result<
    ConfirmationState,
    StartError,
> {
    if config_check(c) is Err {
        Err(StartError::Configuration(config_check(c)->Err_0))
    } else if !(s is Idle) {
        Err(StartError::NotIdle)
    } else if !c.show_pre_confirm {
        Ok(ConfirmationState::Confirmed)
    } else {
        match c.behavior {
            ConfirmationBehavior::AutoProceed => Ok(ConfirmationState::Confirmed),
            ConfirmationBehavior::RequireClick => Ok(
                ConfirmationState::AwaitingConfirmation {
                    behavior: ConfirmationBehavior::RequireClick,
                    delay_ms: 0,
                },
            ),
            ConfirmationBehavior::AutoProceedWithDelay => Ok(
                ConfirmationState::AwaitingConfirmation {
                    behavior: ConfirmationBehavior::AutoProceedWithDelay,
                    delay_ms: c.auto_proceed_delay.unwrap(),
                },
            ),
        }
    }
}

/// The state that `sig` leads to from `s`.
pub open spec fn signal_spec(s: ConfirmationState, sig: ConfirmationSignal) -> ConfirmationState {
    match s {
        ConfirmationState::AwaitingConfirmation { behavior, delay_ms } => match sig {
            ConfirmationSignal::Confirm => ConfirmationState::Confirmed,
            ConfirmationSignal::Cancel => ConfirmationState::Cancelled,
            ConfirmationSignal::Timeout => if behavior == ConfirmationBehavior::AutoProceedWithDelay {
                ConfirmationState::TimedOut
            } else {
                s
            },
            ConfirmationSignal::Elapsed(t) => if behavior
                == ConfirmationBehavior::AutoProceedWithDelay && t >= delay_ms {
                ConfirmationState::Confirmed
            } else {
                s
            },
        },
        _ => s,
    }
}

/// The state reached from `s` by applying `sigs` in arrival order.
pub open spec fn apply_signals(s: ConfirmationState, sigs: Seq<ConfirmationSignal>) -> ConfirmationState
    decreases sigs.len(),
{
    if sigs.len() == 0 {
        s
    } else {
        apply_signals(signal_spec(s, sigs[0]), sigs.drop_first())
    }
}

/// The outcome that a state gives to the waiting decryption.
pub open spec fn outcome_spec(s: ConfirmationState) -> GateOutcome {
    match s {
        ConfirmationState::Confirmed => GateOutcome::Proceed,
        ConfirmationState::Cancelled => GateOutcome::OperationAborted(AbortReason::Cancelled),
        ConfirmationState::TimedOut => GateOutcome::OperationAborted(AbortReason::TimedOut),
        _ => GateOutcome::Pending,
    }
}

/// Whether a state is one of the three terminal states.
pub open spec fn is_terminal(s: ConfirmationState) -> bool {
    s is Confirmed || s is Cancelled || s is TimedOut
}

impl ConfirmationConfig {
    /// Rejects `AutoProceedWithDelay` without a delay.
    pub fn validate(&self) -> (r: Result<(), ConfigurationError>)
        ensures
            r == config_check(*self),
    {
        match (self.behavior, self.auto_proceed_delay) {
            (ConfirmationBehavior::AutoProceedWithDelay, None) => Err(
                ConfigurationError::MissingAutoProceedDelay,
            ),
            _ => Ok(()),
        }
    }
}

impl Default for ConfirmationConfig {
    /// Show the confirmation, in shadow mode, and wait for a click.
    fn default() -> (r: ConfirmationConfig)
        ensures
            r == (ConfirmationConfig {
                show_pre_confirm: true,
                ui_mode: ConfirmationUIMode::Shadow,
                behavior: ConfirmationBehavior::RequireClick,
                auto_proceed_delay: Some(2000),
            }),
    {
        ConfirmationConfig {
            show_pre_confirm: true,
            ui_mode: ConfirmationUIMode::Shadow,
            behavior: ConfirmationBehavior::RequireClick,
            auto_proceed_delay: Some(2000),
        }
    }
}

impl ConfirmationState {
    /// Starts a confirmation under `config`. An invalid config is rejected
    /// before anything else; a start outside `Idle` is refused, so a decision
    /// already reached cannot be started, and so passed, a second time.
    pub fn start(self, config: &ConfirmationConfig) -> (r: Result<
        ConfirmationState,
        StartError,
    >)
        ensures
            r == start_spec(self, *config),
    {
        match config.validate() {
            Err(e) => Err(StartError::Configuration(e)),
            Ok(()) => {
                match self {
                    ConfirmationState::Idle => {},
                    _ => {
                        return Err(StartError::NotIdle);
                    },
                }
                if !config.show_pre_confirm {
                    return Ok(ConfirmationState::Confirmed);
                }
                match config.behavior {
                    ConfirmationBehavior::AutoProceed => Ok(ConfirmationState::Confirmed),
                    ConfirmationBehavior::RequireClick => Ok(
                        ConfirmationState::AwaitingConfirmation {
                            behavior: ConfirmationBehavior::RequireClick,
                            delay_ms: 0,
                        },
                    ),
                    ConfirmationBehavior::AutoProceedWithDelay => {
                        let delay_ms: u32 = match config.auto_proceed_delay {
                            Some(d) => d,
                            None => 0,
                        };
                        Ok(
                            ConfirmationState::AwaitingConfirmation {
                                behavior: ConfirmationBehavior::AutoProceedWithDelay,
                                delay_ms,
                            },
                        )
                    },
                }
            },
        }
    }

    /// Applies one signal. Outside `AwaitingConfirmation` every signal is
    /// ignored.
    pub fn on_signal(self, signal: ConfirmationSignal) -> (r: ConfirmationState)
        ensures
            r == signal_spec(self, signal),
    {
        match self {
            ConfirmationState::AwaitingConfirmation { behavior, delay_ms } => match signal {
                ConfirmationSignal::Confirm => ConfirmationState::Confirmed,
                ConfirmationSignal::Cancel => ConfirmationState::Cancelled,
                ConfirmationSignal::Timeout => {
                    if behavior == ConfirmationBehavior::AutoProceedWithDelay {
                        ConfirmationState::TimedOut
                    } else {
                        self
                    }
                },
                ConfirmationSignal::Elapsed(t) => {
                    if behavior == ConfirmationBehavior::AutoProceedWithDelay && t
                        >= delay_ms as u64 {
                        ConfirmationState::Confirmed
                    } else {
                        self
                    }
                },
            },
            _ => self,
        }
    }

    /// Applies `signals` one by one, in arrival order.
    pub fn on_signals(self, signals: &Vec<ConfirmationSignal>) -> (r: ConfirmationState)
        ensures
            r == apply_signals(self, signals@),
    {
        let mut cur = self;
        let mut i: usize = 0;
        assert(signals@.subrange(0, signals@.len() as int) =~= signals@);
        while i < signals.len()
            invariant
                i <= signals@.len(),
                apply_signals(cur, signals@.subrange(i as int, signals@.len() as int))
                    == apply_signals(self, signals@),
            decreases signals@.len() - i,
        {
            let ghost rest = signals@.subrange(i as int, signals@.len() as int);
            assert(rest.drop_first() =~= signals@.subrange(i + 1, signals@.len() as int));
            cur = cur.on_signal(signals[i]);
            i = i + 1;
        }
        assert(signals@.subrange(i as int, signals@.len() as int) =~= Seq::<ConfirmationSignal>::empty());
        cur
    }

    /// The outcome in this state.
    pub fn outcome(&self) -> (r: GateOutcome)
        ensures
            r == outcome_spec(*self),
    {
        match self {
            ConfirmationState::Confirmed => GateOutcome::Proceed,
            ConfirmationState::Cancelled => GateOutcome::OperationAborted(AbortReason::Cancelled),
            ConfirmationState::TimedOut => GateOutcome::OperationAborted(AbortReason::TimedOut),
            _ => GateOutcome::Pending,
        }
    }

    /// Consumes a terminal state: returns its outcome and `Idle`, so that one
    /// confirmation serves one decryption. Any other state is kept, with
    /// `Pending`.
    pub fn finish(self) -> (r: (GateOutcome, ConfirmationState))
        ensures
            r.0 == outcome_spec(self),
            is_terminal(self) ==> r.1 == ConfirmationState::Idle,
            !is_terminal(self) ==> r.1 == self,
    {
        let outcome = self.outcome();
        match outcome {
            GateOutcome::Pending => (outcome, self),
            _ => (outcome, ConfirmationState::Idle),
        }
    }
}

/// Under `requireClick`, a start followed by a confirm ends in `Confirmed`,
/// and the decryption may proceed.
pub proof fn lemma_require_click_then_confirm(c: ConfirmationConfig)
    requires
        c.show_pre_confirm,
        c.behavior == ConfirmationBehavior::RequireClick,
    ensures
        start_spec(ConfirmationState::Idle, c) is Ok,
        signal_spec(start_spec(ConfirmationState::Idle, c)->Ok_0, ConfirmationSignal::Confirm)
            == ConfirmationState::Confirmed,
        outcome_spec(ConfirmationState::Confirmed) == GateOutcome::Proceed,
{
}

/// Under `requireClick` or `autoProceedWithDelay`, a start followed by a
/// cancel ends in `Cancelled`, and the operation is aborted.
pub proof fn lemma_start_then_cancel(c: ConfirmationConfig)
    requires
        config_check(c) is Ok,
        c.show_pre_confirm,
        c.behavior != ConfirmationBehavior::AutoProceed,
    ensures
        start_spec(ConfirmationState::Idle, c) is Ok,
        signal_spec(start_spec(ConfirmationState::Idle, c)->Ok_0, ConfirmationSignal::Cancel)
            == ConfirmationState::Cancelled,
        outcome_spec(ConfirmationState::Cancelled) == GateOutcome::OperationAborted(
            AbortReason::Cancelled,
        ),
{
}

/// Under `autoProceedWithDelay` with delay `d`: once at least `d` ms have
/// passed, with no other signal, the state is `Confirmed`; before that it
/// still waits; and a cancel before then wins over any later signal.
pub proof fn lemma_delay_then_proceed_unless_cancelled(
    c: ConfirmationConfig,
    t: u64,
    later: ConfirmationSignal,
)
    requires
        c.show_pre_confirm,
        c.behavior == ConfirmationBehavior::AutoProceedWithDelay,
        c.auto_proceed_delay is Some,
    ensures
        start_spec(ConfirmationState::Idle, c) is Ok,
        t >= c.auto_proceed_delay->Some_0 ==> signal_spec(
            start_spec(ConfirmationState::Idle, c)->Ok_0,
            ConfirmationSignal::Elapsed(t),
        ) == ConfirmationState::Confirmed,
        t < c.auto_proceed_delay->Some_0 ==> signal_spec(
            start_spec(ConfirmationState::Idle, c)->Ok_0,
            ConfirmationSignal::Elapsed(t),
        ) == start_spec(ConfirmationState::Idle, c)->Ok_0,
        signal_spec(
            signal_spec(start_spec(ConfirmationState::Idle, c)->Ok_0, ConfirmationSignal::Cancel),
            later,
        ) == ConfirmationState::Cancelled,
{
}

/// Terminal states ignore every signal: only the first transition out of
/// `AwaitingConfirmation` is honoured.
pub proof fn lemma_terminal_states_ignore_signals(s: ConfirmationState, sig: ConfirmationSignal)
    requires
        is_terminal(s),
    ensures
        signal_spec(s, sig) == s,
{
}

/// Only `Idle` can start a confirmation: a waiting instance, or a decision
/// that `finish` has not consumed, cannot be started again, whatever the
/// config.
pub proof fn lemma_start_only_from_idle(s: ConfirmationState, c: ConfirmationConfig)
    requires
        !(s is Idle),
    ensures
        start_spec(s, c) is Err,
{
}

/// A terminal state stays as it is under any sequence of signals.
pub proof fn lemma_terminal_state_absorbs(s: ConfirmationState, sigs: Seq<ConfirmationSignal>)
    requires
        is_terminal(s),
    ensures
        apply_signals(s, sigs) == s,
    decreases sigs.len(),
{
    if sigs.len() > 0 {
        lemma_terminal_state_absorbs(signal_spec(s, sigs[0]), sigs.drop_first());
    }
}

/// Signals are honoured in arrival order and only the first transition out of
/// `AwaitingConfirmation` counts: once a signal ends the wait, the signals
/// after it change nothing.
pub proof fn lemma_first_transition_wins(
    s: ConfirmationState,
    before: Seq<ConfirmationSignal>,
    sig: ConfirmationSignal,
    after: Seq<ConfirmationSignal>,
)
    requires
        is_terminal(signal_spec(apply_signals(s, before), sig)),
    ensures
        apply_signals(s, before + seq![sig] + after) == signal_spec(apply_signals(s, before), sig),
    decreases before.len(),
{
    if before.len() == 0 {
        assert((before + seq![sig] + after).drop_first() =~= after);
        lemma_terminal_state_absorbs(signal_spec(s, sig), after);
    } else {
        assert((before + seq![sig] + after).drop_first() =~= before.drop_first() + seq![sig] + after);
        lemma_first_transition_wins(signal_spec(s, before[0]), before.drop_first(), sig, after);
    }
}

/// Under `autoProceed`, or when no confirmation is shown, a valid config
/// is confirmed at once.
pub proof fn lemma_no_wait_confirms_at_once(c: ConfirmationConfig)
    requires
        config_check(c) is Ok,
        !c.show_pre_confirm || c.behavior == ConfirmationBehavior::AutoProceed,
    ensures
        start_spec(ConfirmationState::Idle, c) == Ok::<_, StartError>(
            ConfirmationState::Confirmed,
        ),
{
}

/// `autoProceedWithDelay` without a delay is rejected at start, whatever the
/// state.
pub proof fn lemma_missing_delay_rejected(s: ConfirmationState, c: ConfirmationConfig)
    requires
        c.behavior == ConfirmationBehavior::AutoProceedWithDelay,
        c.auto_proceed_delay is None,
    ensures
        start_spec(s, c) == Err::<ConfirmationState, _>(
            StartError::Configuration(ConfigurationError::MissingAutoProceedDelay),
        ),
{
}

} // verus!
