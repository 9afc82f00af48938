use passkey::authenticator::ConfigurationError;
use passkey::confirmation::{
    AbortReason, ConfirmationBehavior, ConfirmationConfig, ConfirmationSignal, ConfirmationState,
    ConfirmationUIMode, GateOutcome, StartError,
};

fn config(behavior: ConfirmationBehavior, delay: Option<u32>) -> ConfirmationConfig {
    ConfirmationConfig {
        show_pre_confirm: true,
        ui_mode: ConfirmationUIMode::Popup,
        behavior,
        auto_proceed_delay: delay,
    }
}

#[test]
fn default_config_values() {
    let c = ConfirmationConfig::default();
    assert!(c.show_pre_confirm);
    assert_eq!(c.ui_mode, ConfirmationUIMode::Shadow);
    assert_eq!(c.behavior, ConfirmationBehavior::RequireClick);
    assert_eq!(c.auto_proceed_delay, Some(2000));
    assert_eq!(c.validate(), Ok(()));
}

#[test]
fn missing_delay_is_configuration_error() {
    let c = config(ConfirmationBehavior::AutoProceedWithDelay, None);
    assert_eq!(c.validate(), Err(ConfigurationError::MissingAutoProceedDelay));
    assert_eq!(
        ConfirmationState::Idle.start(&c),
        Err(StartError::Configuration(ConfigurationError::MissingAutoProceedDelay))
    );
    assert_eq!(
        ConfirmationState::Confirmed.start(&c),
        Err(StartError::Configuration(ConfigurationError::MissingAutoProceedDelay))
    );
}

#[test]
fn delay_ignored_outside_delay_behavior() {
    assert_eq!(config(ConfirmationBehavior::RequireClick, None).validate(), Ok(()));
    assert_eq!(config(ConfirmationBehavior::AutoProceed, None).validate(), Ok(()));
}

#[test]
fn require_click_then_confirm() {
    let s = ConfirmationState::Idle.start(&config(ConfirmationBehavior::RequireClick, None)).unwrap();
    assert!(matches!(s, ConfirmationState::AwaitingConfirmation { .. }));
    let s = s.on_signal(ConfirmationSignal::Elapsed(100_000));
    assert!(matches!(s, ConfirmationState::AwaitingConfirmation { .. }));
    let s = s.on_signal(ConfirmationSignal::Timeout);
    assert!(matches!(s, ConfirmationState::AwaitingConfirmation { .. }));
    let s = s.on_signal(ConfirmationSignal::Confirm);
    assert_eq!(s, ConfirmationState::Confirmed);
    let (outcome, next) = s.finish();
    assert_eq!(outcome, GateOutcome::Proceed);
    assert_eq!(next, ConfirmationState::Idle);
}

#[test]
fn require_click_then_cancel() {
    let s = ConfirmationState::Idle.start(&config(ConfirmationBehavior::RequireClick, None)).unwrap();
    let s = s.on_signal(ConfirmationSignal::Cancel);
    assert_eq!(s, ConfirmationState::Cancelled);
    assert_eq!(s.clone().on_signal(ConfirmationSignal::Confirm), ConfirmationState::Cancelled);
    let (outcome, next) = s.finish();
    assert_eq!(outcome, GateOutcome::OperationAborted(AbortReason::Cancelled));
    assert_eq!(next, ConfirmationState::Idle);
}

#[test]
fn delay_elapses_to_confirmed() {
    let s = ConfirmationState::Idle
        .start(&config(ConfirmationBehavior::AutoProceedWithDelay, Some(50)))
        .unwrap();
    let s = s.on_signal(ConfirmationSignal::Elapsed(49));
    assert_eq!(
        s,
        ConfirmationState::AwaitingConfirmation {
            behavior: ConfirmationBehavior::AutoProceedWithDelay,
            delay_ms: 50
        }
    );
    let s = s.on_signal(ConfirmationSignal::Elapsed(50));
    assert_eq!(s, ConfirmationState::Confirmed);
}

#[test]
fn cancel_before_delay_wins() {
    let s = ConfirmationState::Idle
        .start(&config(ConfirmationBehavior::AutoProceedWithDelay, Some(50)))
        .unwrap();
    let s = s.on_signal(ConfirmationSignal::Elapsed(10));
    let s = s.on_signal(ConfirmationSignal::Cancel);
    assert_eq!(s, ConfirmationState::Cancelled);
    let s = s.on_signal(ConfirmationSignal::Elapsed(50));
    assert_eq!(s, ConfirmationState::Cancelled);
    assert_eq!(s.outcome(), GateOutcome::OperationAborted(AbortReason::Cancelled));
}

#[test]
fn timeout_under_delay_aborts() {
    let s = ConfirmationState::Idle
        .start(&config(ConfirmationBehavior::AutoProceedWithDelay, Some(50)))
        .unwrap();
    let s = s.on_signal(ConfirmationSignal::Timeout);
    assert_eq!(s, ConfirmationState::TimedOut);
    assert_eq!(s.clone().on_signal(ConfirmationSignal::Elapsed(60)), ConfirmationState::TimedOut);
    let (outcome, next) = s.finish();
    assert_eq!(outcome, GateOutcome::OperationAborted(AbortReason::TimedOut));
    assert_eq!(next, ConfirmationState::Idle);
}

#[test]
fn auto_proceed_confirms_at_once() {
    let s = ConfirmationState::Idle.start(&config(ConfirmationBehavior::AutoProceed, None));
    assert_eq!(s, Ok(ConfirmationState::Confirmed));
}

#[test]
fn no_pre_confirm_passes_gate() {
    let mut c = config(ConfirmationBehavior::RequireClick, None);
    c.show_pre_confirm = false;
    assert_eq!(ConfirmationState::Idle.start(&c), Ok(ConfirmationState::Confirmed));
}

#[test]
fn start_outside_idle_changes_nothing() {
    let c = config(ConfirmationBehavior::AutoProceed, None);
    assert_eq!(ConfirmationState::Cancelled.start(&c), Err(StartError::NotIdle));
    let waiting = ConfirmationState::AwaitingConfirmation {
        behavior: ConfirmationBehavior::RequireClick,
        delay_ms: 0,
    };
    assert_eq!(waiting.start(&c), Err(StartError::NotIdle));
}

#[test]
fn finish_while_waiting_is_pending() {
    let waiting = ConfirmationState::AwaitingConfirmation {
        behavior: ConfirmationBehavior::RequireClick,
        delay_ms: 0,
    };
    assert_eq!(waiting.clone().finish(), (GateOutcome::Pending, waiting));
    assert_eq!(ConfirmationState::Idle.finish(), (GateOutcome::Pending, ConfirmationState::Idle));
}

#[test]
fn signal_sequence_first_transition_wins() {
    let s = ConfirmationState::Idle
        .start(&config(ConfirmationBehavior::AutoProceedWithDelay, Some(50)))
        .unwrap();
    let signals = vec![
        ConfirmationSignal::Elapsed(10),
        ConfirmationSignal::Cancel,
        ConfirmationSignal::Elapsed(50),
        ConfirmationSignal::Confirm,
    ];
    assert_eq!(s.clone().on_signals(&signals), ConfirmationState::Cancelled);
    let signals = vec![
        ConfirmationSignal::Elapsed(49),
        ConfirmationSignal::Elapsed(50),
        ConfirmationSignal::Cancel,
    ];
    assert_eq!(s.on_signals(&signals), ConfirmationState::Confirmed);
}

#[test]
fn empty_signal_sequence_keeps_state() {
    let s = ConfirmationState::Idle.start(&config(ConfirmationBehavior::RequireClick, None)).unwrap();
    assert_eq!(s.clone().on_signals(&vec![]), s);
    let signals = vec![ConfirmationSignal::Elapsed(5000), ConfirmationSignal::Timeout];
    assert_eq!(s.clone().on_signals(&signals), s);
}

#[test]
fn confirmed_decision_serves_one_decryption() {
    let c = config(ConfirmationBehavior::RequireClick, None);
    let s = ConfirmationState::Idle.start(&c).unwrap().on_signal(ConfirmationSignal::Confirm);
    assert_eq!(s, ConfirmationState::Confirmed);
    assert_eq!(s.clone().start(&c), Err(StartError::NotIdle));
    let (outcome, next) = s.finish();
    assert_eq!(outcome, GateOutcome::Proceed);
    assert_eq!(next.finish(), (GateOutcome::Pending, ConfirmationState::Idle));
    let again = ConfirmationState::Idle.start(&c).unwrap();
    assert_eq!(again.outcome(), GateOutcome::Pending);
}
