use computer_use_hyprland::session_lock::{
    acquire_at, lock_path, pid_line, read_pid, FlockOutcome, IdleCheck, IdleRelease, InputLock,
    LockError,
};

const IDLE: u64 = 30;
const LOCK: &str = "/run/user/1000/computer-use-hyprland.lock";

/// One process: its lock, its pid, and when its release timer looks next.
struct Process {
    pid: u32,
    lock: InputLock,
    idle_ms: Option<u64>,
    looks_at: Option<u64>,
}

/// The lock file, which one process holds at a time, and a clock in milliseconds.
struct Desk {
    holder: Option<u32>,
    now: u64,
}

impl Process {
    fn new(pid: u32, release: IdleRelease) -> Self {
        Process {
            pid,
            lock: InputLock::new(release),
            idle_ms: None,
            looks_at: None,
        }
    }

    fn acquire(&mut self, desk: &mut Desk) -> Result<(), LockError> {
        if self.lock.hold(desk.now) {
            return Ok(());
        }
        let outcome = match desk.holder {
            Some(pid) => FlockOutcome::WouldBlock(Some(pid_line(pid))),
            None => FlockOutcome::Taken,
        };
        self.idle_ms = self.lock.acquire(desk.now, LOCK, outcome)?;
        desk.holder = Some(self.pid);
        self.looks_at = self.idle_ms.map(|idle| desk.now + idle);
        Ok(())
    }

    fn end(&mut self, desk: &Desk) {
        self.lock.drop_hold(desk.now);
    }
}

/// Move the clock and let the release timer of a process run.
fn pass(desk: &mut Desk, process: &mut Process, seconds: u64) {
    let until = desk.now + seconds * 1000;
    while let (Some(at), Some(idle)) = (process.looks_at, process.idle_ms) {
        if at > until {
            break;
        }
        desk.now = at;
        match process.lock.release_if_idle(idle, at) {
            IdleCheck::Done => {
                desk.holder = None;
                process.looks_at = None;
            }
            IdleCheck::Again(next) => process.looks_at = Some(next),
        }
    }
    desk.now = until;
}

fn pair(release: IdleRelease) -> (Desk, Process, Process) {
    (
        Desk {
            holder: None,
            now: 0,
        },
        Process::new(4242, release),
        Process::new(77, release),
    )
}

fn assert_busy(result: Result<(), LockError>, holder: u32) {
    match result {
        Err(LockError::Busy { pid }) => {
            assert_eq!(pid, Some(holder), "the lock file names the holder");
        }
        Ok(()) => panic!("expected a busy lock, got a lease"),
        Err(other) => panic!("expected a busy lock, got {other:?}"),
    }
}

#[test]
fn second_acquisition_names_the_holder_until_the_first_is_dropped() {
    assert!(acquire_at(LOCK, FlockOutcome::Taken).is_ok());
    assert_busy(
        acquire_at(LOCK, FlockOutcome::WouldBlock(Some(pid_line(4242)))),
        4242,
    );
    assert!(acquire_at(LOCK, FlockOutcome::Taken).is_ok());
}

#[test]
fn busy_message_says_when_the_lock_frees() {
    let busy = LockError::Busy { pid: Some(4242) };
    assert_eq!(
        busy.message(IdleRelease::After(IDLE)),
        "Computer use is in use by another session (pid 4242). It frees 30 s after that session's last call (COMPUTER_USE_HYPRLAND_LOCK_IDLE_SECS), so wait that long and retry once."
    );
    assert_eq!(
        busy.message(IdleRelease::Never),
        "Computer use is in use by another session (pid 4242). It is held until that session exits (COMPUTER_USE_HYPRLAND_LOCK_IDLE_SECS=0)."
    );
    assert_eq!(
        LockError::Busy { pid: None }.message(IdleRelease::After(IDLE)),
        "Computer use is in use by another session (pid unknown). It frees 30 s after that session's last call (COMPUTER_USE_HYPRLAND_LOCK_IDLE_SECS), so wait that long and retry once."
    );
}

#[test]
fn idle_seconds_come_from_the_variable_and_zero_means_never() {
    let default = IdleRelease::After(IDLE);
    assert_eq!(IdleRelease::from_env_value(None), default);
    assert_eq!(IdleRelease::from_env_value(Some("")), default);
    assert_eq!(IdleRelease::from_env_value(Some("soon")), default);
    assert_eq!(IdleRelease::from_env_value(Some("-5")), default);
    assert_eq!(
        IdleRelease::from_env_value(Some(" 45 ")),
        IdleRelease::After(45)
    );
    assert_eq!(
        IdleRelease::from_env_value(Some("18446744073709551615")),
        IdleRelease::After(u64::from(u32::MAX)),
        "an absurd value is capped rather than overflowing a deadline"
    );
    assert_eq!(IdleRelease::from_env_value(Some("0")), IdleRelease::Never);
}

#[test]
fn lock_is_given_back_after_the_idle_window_and_not_before() {
    let (mut desk, mut ours, mut theirs) = pair(IdleRelease::After(IDLE));
    ours.acquire(&mut desk).unwrap();
    assert_busy(theirs.acquire(&mut desk), 4242);
    ours.end(&desk);

    pass(&mut desk, &mut ours, 29);
    assert!(ours.lock.is_held(), "released before the idle window closed");
    assert_busy(theirs.acquire(&mut desk), 4242);

    pass(&mut desk, &mut ours, 2);
    assert!(!ours.lock.is_held(), "still held after the idle window closed");
    theirs
        .acquire(&mut desk)
        .expect("the released lock is free for the next process");
    assert_busy(ours.acquire(&mut desk), 77);
}

#[test]
fn an_operation_in_flight_holds_the_lock_past_the_window() {
    let (mut desk, mut ours, mut theirs) = pair(IdleRelease::After(IDLE));
    ours.acquire(&mut desk).unwrap();

    pass(&mut desk, &mut ours, IDLE * 3);
    assert!(ours.lock.is_held(), "released under a live operation");
    assert_busy(theirs.acquire(&mut desk), 4242);

    ours.end(&desk);
    pass(&mut desk, &mut ours, IDLE / 2);
    assert!(
        ours.lock.is_held(),
        "the idle window starts when the operation ends, not when it began"
    );
    pass(&mut desk, &mut ours, IDLE);
    assert!(!ours.lock.is_held(), "still held after the idle window closed");
}

#[test]
fn any_call_renews_the_lease() {
    let (mut desk, mut ours, mut theirs) = pair(IdleRelease::After(IDLE));
    ours.acquire(&mut desk).unwrap();
    ours.end(&desk);

    pass(&mut desk, &mut ours, 20);
    ours.lock.touch(desk.now);
    pass(&mut desk, &mut ours, 20);
    assert!(ours.lock.is_held(), "released 20 s after a renewal");
    assert_busy(theirs.acquire(&mut desk), 4242);

    pass(&mut desk, &mut ours, 20);
    assert!(!ours.lock.is_held(), "still held 40 s after the last renewal");
}

#[test]
fn a_detached_operation_holds_the_lock_like_its_caller_did() {
    let (mut desk, mut ours, _theirs) = pair(IdleRelease::After(IDLE));
    assert!(
        !ours.lock.hold(desk.now),
        "nothing to hold before the first acquisition"
    );

    ours.acquire(&mut desk).unwrap();
    assert!(ours.lock.hold(desk.now), "a held lock can be joined");
    ours.end(&desk);
    pass(&mut desk, &mut ours, IDLE * 2);
    assert!(
        ours.lock.is_held(),
        "released while a detached operation still held it"
    );

    ours.end(&desk);
    pass(&mut desk, &mut ours, IDLE * 2);
    assert!(!ours.lock.is_held(), "still held after the last hold ended");
}

#[test]
fn zero_keeps_the_lock_for_the_life_of_the_process() {
    let (mut desk, mut ours, mut theirs) = pair(IdleRelease::Never);
    ours.acquire(&mut desk).unwrap();
    ours.end(&desk);

    pass(&mut desk, &mut ours, 3600);
    assert!(ours.lock.is_held(), "released although the policy says never");
    assert_busy(theirs.acquire(&mut desk), 4242);
}

#[test]
fn the_lock_file_stands_in_the_runtime_directory_or_is_named_by_the_user() {
    assert_eq!(
        lock_path(Some("/run/user/1000"), 1000),
        "/run/user/1000/computer-use-hyprland.lock"
    );
    assert!(lock_path(None, 1000).contains("1000"));
}

#[test]
fn the_holder_reads_back_from_its_line() {
    assert_eq!(pid_line(4242), "4242\n");
    assert_eq!(read_pid(&pid_line(4242)), Some(4242));
    assert_eq!(read_pid(" 7 "), Some(7));
    assert_eq!(read_pid("someone"), None);
    assert_eq!(read_pid(""), None);
}

#[test]
fn a_lock_file_that_cannot_be_used_says_why() {
    for outcome in [
        FlockOutcome::OpenFailed("Permission denied".to_string()),
        FlockOutcome::FlockFailed("Permission denied".to_string()),
        FlockOutcome::WriteFailed("Permission denied".to_string()),
    ] {
        let error = acquire_at(LOCK, outcome).expect_err("the file cannot be used");
        let message = error.message(IdleRelease::Never);
        assert!(
            message.starts_with("Could not take the computer-use session lock: "),
            "{message}"
        );
        assert!(message.contains("Permission denied"), "{message}");
    }
    assert!(matches!(
        acquire_at(LOCK, FlockOutcome::WouldBlock(None)),
        Err(LockError::Busy { pid: None })
    ));
}

#[test]
fn two_processes_take_turns_with_the_lock() {
    let mut desk = Desk {
        holder: None,
        now: 0,
    };
    let mut ours = Process::new(4242, IdleRelease::After(IDLE));
    let mut theirs = Process::new(77, IdleRelease::After(IDLE));

    ours.acquire(&mut desk).unwrap();
    assert_busy(theirs.acquire(&mut desk), 4242);
    assert!(!theirs.lock.is_held());
    ours.acquire(&mut desk).unwrap();
    ours.end(&desk);
    ours.end(&desk);

    pass(&mut desk, &mut ours, IDLE + 1);
    theirs.acquire(&mut desk).unwrap();
    assert_busy(ours.acquire(&mut desk), 77);
    assert!(!ours.lock.is_held());
}

#[test]
fn a_held_lock_is_joined_without_asking_for_the_file() {
    let mut lock = InputLock::new(IdleRelease::After(IDLE));
    assert_eq!(lock.acquire(5, LOCK, FlockOutcome::Taken).unwrap(), Some(30_000));
    let busy = FlockOutcome::WouldBlock(Some(pid_line(77)));
    assert_eq!(lock.acquire(6, LOCK, busy).unwrap(), None);
    let lease = lock.held.unwrap();
    assert_eq!((lease.last_used, lease.in_flight), (6, 2));
}
