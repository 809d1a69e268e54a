use voice_agent_server::session::{ActiveTurnLimiter, GenerationGate};

#[test]
fn invalidation_rejects_the_old_turn_but_not_a_newer_turn() {
    let mut gate = GenerationGate::new();
    assert!(gate.admits(1));
    gate.invalidate(1);
    assert!(!gate.admits(1));
    assert!(gate.admits(2));
}

#[test]
fn invalidation_never_moves_backwards() {
    let mut gate = GenerationGate::new();
    gate.invalidate(5);
    gate.invalidate(3);
    assert!(!gate.admits(4));
    assert!(!gate.admits(5));
    assert!(gate.admits(6));
}

#[test]
fn gate_admits_only_above_every_invalidation_in_any_order() {
    for order in [[7u64, 2, 9, 4], [9, 4, 7, 2], [2, 4, 7, 9]] {
        let mut gate = GenerationGate::new();
        for generation in order {
            gate.invalidate(generation);
        }
        for h in 0..12u64 {
            assert_eq!(gate.admits(h), h > 9, "generation {h}");
        }
    }
    assert!(!GenerationGate::new().admits(0));
    assert!(GenerationGate::new().admits(1));
}

#[test]
fn limiter_admits_exactly_its_capacity() {
    let mut limiter = ActiveTurnLimiter::new(3);
    let outcomes: Vec<bool> = (0..6).map(|_| limiter.try_acquire()).collect();
    assert_eq!(outcomes, vec![true, true, true, false, false, false]);
    assert_eq!(limiter.active(), 3);
    limiter.release();
    assert!(limiter.try_acquire());
    assert!(!limiter.try_acquire());
}
