use indoor_sensors::guard::{Access, BusGuard, GuardEvent, GuardState};

#[test]
fn free_guard_grants_the_token() {
    let mut g = BusGuard::new();
    assert_eq!(g.state(), GuardState::Free);
    assert_eq!(g.acquire(1), Access::Granted);
    assert_eq!(g.state(), GuardState::Held(1));
}

#[test]
fn held_guard_is_busy_for_everybody() {
    let mut g = BusGuard::new();
    assert_eq!(g.acquire(1), Access::Granted);
    assert_eq!(g.acquire(2), Access::Busy);
    assert_eq!(g.acquire(1), Access::Busy);
    assert_eq!(g.state(), GuardState::Held(1));
}

#[test]
fn released_guard_grants_again() {
    let mut g = BusGuard::new();
    g.acquire(1);
    assert!(g.release(1));
    assert_eq!(g.state(), GuardState::Free);
    assert_eq!(g.acquire(2), Access::Granted);
    assert_eq!(g.state(), GuardState::Held(2));
}

#[test]
fn only_the_holder_releases() {
    let mut g = BusGuard::new();
    assert!(!g.release(1));
    g.acquire(1);
    assert!(!g.release(2));
    assert_eq!(g.state(), GuardState::Held(1));
}

#[test]
fn only_the_holder_breaks_the_guard() {
    let mut g = BusGuard::new();
    assert!(!g.fail(1));
    assert_eq!(g.state(), GuardState::Free);
    g.acquire(1);
    assert!(!g.fail(2));
    assert_eq!(g.state(), GuardState::Held(1));
    assert!(g.fail(1));
    assert_eq!(g.state(), GuardState::Broken);
}

#[test]
fn broken_guard_is_never_granted_again() {
    let mut g = BusGuard::new();
    g.acquire(3);
    g.fail(3);
    let mut worker: u32 = 0;
    while worker < 10 {
        assert_eq!(g.acquire(worker), Access::Broken);
        assert!(!g.release(worker));
        assert!(!g.fail(worker));
        assert_eq!(g.state(), GuardState::Broken);
        worker += 1;
    }
}

#[test]
fn events_are_applied() {
    let mut g = BusGuard::new();
    assert_eq!(g.apply(GuardEvent::Acquire(7)), Some(Access::Granted));
    assert_eq!(g.apply(GuardEvent::Acquire(8)), Some(Access::Busy));
    assert_eq!(g.apply(GuardEvent::Release(7)), None);
    assert_eq!(g.apply(GuardEvent::Acquire(8)), Some(Access::Granted));
    assert_eq!(g.apply(GuardEvent::Fail(8)), None);
    assert_eq!(g.apply(GuardEvent::Acquire(7)), Some(Access::Broken));
}

/// A small generator of numbers that look random, so that the runs below are
/// the same every time.
fn next(seed: &mut u64) -> u64 {
    *seed = seed.wrapping_mul(6364136223846793005).wrapping_add(1442695040888963407);
    *seed >> 33
}

#[test]
fn at_most_one_worker_is_inside_under_any_interleaving() {
    let workers: usize = 7;
    let mut seed: u64 = 42;
    let mut run: u32 = 0;
    while run < 200 {
        let mut g = BusGuard::new();
        let mut inside = vec![false; workers];
        let mut step: u32 = 0;
        while step < 500 {
            let w = (next(&mut seed) % workers as u64) as usize;
            match next(&mut seed) % 3 {
                0 => {
                    if g.acquire(w as u32) == Access::Granted {
                        inside[w] = true;
                    }
                }
                1 => {
                    if inside[w] {
                        assert!(g.release(w as u32));
                        inside[w] = false;
                    } else {
                        assert!(!g.release(w as u32));
                    }
                }
                _ => {
                    if next(&mut seed) % 50 == 0 {
                        if inside[w] {
                            assert!(g.fail(w as u32));
                            inside[w] = false;
                        } else {
                            assert!(!g.fail(w as u32));
                        }
                    }
                }
            }
            assert!(inside.iter().filter(|b| **b).count() <= 1);
            step += 1;
        }
        run += 1;
    }
}

#[test]
fn a_failure_inside_breaks_the_guard_for_every_worker_and_for_good() {
    let workers: u64 = 5;
    let mut seed: u64 = 7;
    let mut run: u32 = 0;
    while run < 100 {
        let mut g = BusGuard::new();
        let holder = (next(&mut seed) % workers) as u32;
        assert_eq!(g.acquire(holder), Access::Granted);
        assert!(g.fail(holder));
        let mut step: u32 = 0;
        while step < 200 {
            let w = (next(&mut seed) % workers) as u32;
            match next(&mut seed) % 3 {
                0 => assert_eq!(g.acquire(w), Access::Broken),
                1 => assert!(!g.release(w)),
                _ => assert!(!g.fail(w)),
            }
            step += 1;
        }
        run += 1;
    }
}
