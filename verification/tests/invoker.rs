use rust_iptables::failure::Failure;
use rust_iptables::invoker::{
    Attempt, Exclusion, Finished, Invocation, Locking, Running, LOCK_FILE, RETRIES, WAIT_FLAG,
};
use rust_iptables::iptables::{new, IPTables};
use rust_iptables::outcome::Outcome;

fn words(items: &[&str]) -> Vec<String> {
    items.iter().map(|s| s.to_string()).collect()
}

fn waiting() -> IPTables {
    new("linux").unwrap().handle(1, 4, 20)
}

fn locking() -> IPTables {
    new("linux").unwrap().handle(1, 4, 19)
}

fn outcome(code: i32) -> Outcome {
    Outcome { code: Some(code), stdout: b"out".to_vec(), stderr: b"err".to_vec() }
}

fn lock_of(next: Invocation) -> Locking {
    match next {
        Invocation::Lock(l) => l,
        other => panic!("no lock is asked for: {:?}", other),
    }
}

#[test]
fn the_names_are_fixed() {
    assert_eq!(LOCK_FILE, "/var/run/xtables_old.lock");
    assert_eq!(WAIT_FLAG, "--wait");
    assert_eq!(RETRIES, 10);
}

#[test]
fn a_tool_that_waits_is_started_at_once_with_the_wait_flag() {
    match waiting().run(&words(&["-t", "nat", "-S"])) {
        Invocation::Spawn(running) => {
            assert_eq!(running.command(), &words(&["-t", "nat", "-S", "--wait"]));
            assert!(!running.locked());
            let end = running.finished(Some(outcome(0)));
            assert_eq!(end, Finished { release: false, result: Ok(outcome(0)) });
        }
        other => panic!("expected a spawn: {:?}", other),
    }
}

#[test]
fn an_older_tool_asks_for_the_lock_first() {
    let l = lock_of(locking().run(&words(&["-F"])));
    assert_eq!(l.retries(), 10);
    assert_eq!(l.file(), "/var/run/xtables_old.lock");
}

#[test]
fn exclusion_follows_the_version() {
    assert_eq!(waiting().exclusion(), Exclusion::NativeWait);
    assert_eq!(locking().exclusion(), Exclusion::FileLock);
}

#[test]
fn once_the_lock_is_held_the_tool_runs_without_the_wait_flag() {
    let l = lock_of(locking().run(&words(&["-t", "nat", "-S"])));
    match l.attempted(Attempt::Acquired) {
        Invocation::Spawn(running) => {
            assert_eq!(running.command(), &words(&["-t", "nat", "-S"]));
            assert!(running.locked());
        }
        other => panic!("expected a spawn: {:?}", other),
    }
}

#[test]
fn the_lock_is_released_after_success_and_after_failure() {
    for result in [Some(outcome(0)), Some(outcome(1)), None] {
        let l = lock_of(locking().run(&words(&["-F"])));
        match l.attempted(Attempt::Acquired) {
            Invocation::Spawn(running) => {
                let end = running.finished(result.clone());
                assert!(end.release);
                match result {
                    Some(o) => assert_eq!(end.result, Ok(o)),
                    None => assert_eq!(end.result, Err(Failure::SpawnFailure)),
                }
            }
            other => panic!("expected a spawn: {:?}", other),
        }
    }
}

#[test]
fn a_tool_that_cannot_start_is_a_spawn_failure() {
    match waiting().run(&words(&["-F"])) {
        Invocation::Spawn(running) => {
            assert_eq!(running.finished(None), Finished { release: false, result: Err(Failure::SpawnFailure) });
        }
        other => panic!("expected a spawn: {:?}", other),
    }
}

#[test]
fn a_contended_lock_is_tried_eleven_times() {
    let mut next = locking().run(&words(&["-F"]));
    let mut tries = 0;
    loop {
        match next {
            Invocation::Lock(l) => {
                tries += 1;
                assert_eq!(l.retries() as i32, 11 - tries);
                next = l.attempted(Attempt::Contended);
            }
            Invocation::Fail(e) => {
                assert_eq!(e, Failure::LockTimeout);
                break;
            }
            Invocation::Spawn(_) => panic!("the tool must not run without the lock"),
        }
    }
    assert_eq!(tries, 11);
}

#[test]
fn the_lock_may_be_acquired_at_the_last_try() {
    let mut l = lock_of(locking().run(&words(&["-F"])));
    for _ in 0..10 {
        l = lock_of(l.attempted(Attempt::Contended));
    }
    assert_eq!(l.retries(), 0);
    match l.attempted(Attempt::Acquired) {
        Invocation::Spawn(running) => assert!(running.locked()),
        other => panic!("expected a spawn: {:?}", other),
    }
}

#[test]
fn a_lock_that_fails_otherwise_is_not_retried() {
    let l = lock_of(locking().run(&words(&["-F"])));
    assert_eq!(l.attempted(Attempt::Failed), Invocation::Fail(Failure::LockTimeout));
}

/// One caller of the tool, stepped by hand against a lock that one holder
/// at a time can have.
struct Caller {
    waiting: Option<Locking>,
    running: Option<Running>,
    ended: bool,
}

impl Caller {
    fn new(ipt: &IPTables) -> Caller {
        Caller { waiting: Some(lock_of(ipt.run(&words(&["-F"])))), running: None, ended: false }
    }

    fn holds(&self) -> bool {
        match &self.running {
            Some(r) => r.locked(),
            None => false,
        }
    }

    fn step(&mut self, held: &mut bool) {
        if let Some(l) = self.waiting.take() {
            let attempt = if *held { Attempt::Contended } else { Attempt::Acquired };
            match l.attempted(attempt) {
                Invocation::Lock(again) => self.waiting = Some(again),
                Invocation::Spawn(r) => {
                    *held = true;
                    self.running = Some(r);
                }
                Invocation::Fail(_) => self.ended = true,
            }
        } else if let Some(r) = self.running.take() {
            let end = r.finished(Some(outcome(0)));
            if end.release {
                *held = false;
            }
            self.ended = true;
        }
    }
}

#[test]
fn two_callers_never_hold_the_lock_together() {
    let ipt = locking();
    for pattern in 0u32..64 {
        let mut held = false;
        let mut a = Caller::new(&ipt);
        let mut b = Caller::new(&ipt);
        let mut turn = 0;
        while !(a.ended && b.ended) {
            if (pattern >> (turn % 6)) & 1 == 0 {
                a.step(&mut held);
            } else {
                b.step(&mut held);
            }
            if turn > 40 {
                a.step(&mut held);
                b.step(&mut held);
            }
            let holders = a.holds() as u32 + b.holds() as u32;
            assert!(holders <= 1);
            assert_eq!(held, holders == 1);
            turn += 1;
        }
        assert!(!held);
    }
}
