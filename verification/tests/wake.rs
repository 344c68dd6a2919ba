use winserial::WakeSignal;

#[test]
fn raises_coalesce_into_one_take() {
    let mut w = WakeSignal::new();
    assert!(!w.pending);
    w.raise();
    w.raise();
    w.raise();
    assert!(w.pending);
    assert!(w.take());
    assert!(!w.take());
    assert!(!w.pending);
}

#[test]
fn take_clears_and_raise_rearms() {
    let mut w = WakeSignal::new();
    assert!(!w.take());
    w.raise();
    assert!(w.take());
    w.raise();
    assert!(w.take());
}
