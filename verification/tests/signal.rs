use secp256k1_guest::OutcomeSignal;

#[test]
fn fresh_signal_is_pending() {
    let signal = OutcomeSignal::new();
    assert_eq!(signal, OutcomeSignal::Pending);
    assert!(!signal.is_spoiled());
}

#[test]
fn successful_step_leaves_signal_unchanged() {
    let mut signal = OutcomeSignal::new();
    signal.absorb(true);
    assert_eq!(signal, OutcomeSignal::Pending);
}

#[test]
fn failed_step_spoils_signal() {
    let mut signal = OutcomeSignal::new();
    signal.absorb(false);
    assert_eq!(signal, OutcomeSignal::Spoiled);
    assert!(signal.is_spoiled());
}

#[test]
fn spoiled_signal_never_reverts() {
    let mut signal = OutcomeSignal::new();
    signal.absorb(false);
    signal.absorb(true);
    assert_eq!(signal, OutcomeSignal::Spoiled);
    signal.absorb(true);
    assert_eq!(signal, OutcomeSignal::Spoiled);
}

#[test]
fn spoil_is_idempotent() {
    let mut signal = OutcomeSignal::new();
    signal.spoil();
    assert!(signal.is_spoiled());
    signal.spoil();
    assert!(signal.is_spoiled());
}
