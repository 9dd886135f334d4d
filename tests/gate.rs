use human_index_prover::gate::AdmissionGate;

#[test]
fn burst_never_exceeds_capacity() {
    for n in 1..5usize {
        let mut gate = AdmissionGate::new(n);
        let mut held = Vec::new();
        for _ in 0..(3 * n) {
            if let Some(p) = gate.try_acquire() {
                held.push(p);
            }
            assert!(gate.active() <= n);
        }
        assert_eq!(held.len(), n);
        assert_eq!(gate.available(), 0);
        for p in held {
            gate.release(p);
        }
        assert_eq!(gate.active(), 0);
        assert_eq!(gate.available(), n);
    }
}

#[test]
fn single_permit_serializes_two_requests() {
    let mut gate = AdmissionGate::new(1);
    let first = gate.try_acquire().expect("first request is admitted");
    assert!(gate.try_acquire().is_none(), "second request must wait for the first");
    gate.release(first);
    let second = gate.try_acquire().expect("second request is admitted after the first ends");
    assert_eq!(gate.active(), 1);
    gate.release(second);
    assert_eq!(gate.active(), 0);
    assert_eq!(gate.capacity(), 1);
}

#[test]
fn released_permit_returns_capacity() {
    let mut gate = AdmissionGate::new(2);
    let a = gate.try_acquire().unwrap();
    let b = gate.try_acquire().unwrap();
    assert!(gate.try_acquire().is_none());
    gate.release(a);
    assert_eq!(gate.available(), 1);
    let c = gate.try_acquire().unwrap();
    gate.release(b);
    gate.release(c);
    assert_eq!(gate.active(), 0);
}
