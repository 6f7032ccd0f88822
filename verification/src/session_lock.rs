//! Machine-wide input lock.
//!
//! Two servers driving the same desktop interleave their pointer and keyboard
//! events, so the first input action of a process takes a lock on one file of
//! the machine. Read-only tools never take it. The file carries the holder's
//! pid so a second server can name it.
//!
//! The lock is a lease rather than a lifetime. Every call to this server
//! renews it, and once no call has arrived for some seconds (30 unless set; 0
//! means never) it is given back, so a session that finished driving the
//! desktop without exiting stops blocking the next one. The next input action
//! takes the lock again. A release never lands in the middle of an operation:
//! each one holds the lease, and the timer only lets go while none does.
//!
//! Instants are milliseconds of one clock, which its caller reads.

use vstd::prelude::*;
use vstd::string::StringExecFns;
use crate::input::{joined_path, path_join};
use crate::numerals::{
    decimal, decimal_of, decimal_reads_back, digits_are_visible, parse_unsigned, unsigned_of,
};
use crate::text::{blank, cat, is_blank, is_filled, trim, trim_keeps, trimmed};

verus! {

/// The name of the lock file.
pub const LOCK_FILE_NAME: &'static str = "computer-use-hyprland.lock";

/// Seconds without a call before a held lock is given back; `0` keeps it.
pub const IDLE_SECS_ENV: &'static str = "COMPUTER_USE_HYPRLAND_LOCK_IDLE_SECS";

/// Seconds without a call before a held lock is given back, unless told otherwise.
pub const DEFAULT_IDLE_SECONDS: u64 = 30;

/// When a held lock is given back.
#[derive(Debug, Clone, Copy, PartialEq, Eq, Structural)]
pub enum IdleRelease {
    /// Once so many seconds have passed without a call to this server.
    After(u64),
    /// Never: the lock lives as long as the process.
    Never,
}

/// The policy a value of the variable names: whole seconds, `0` for never, and the default
/// when it is unset, blank or not a number.
pub open spec fn policy(value: Option<Seq<char>>) -> IdleRelease {
    if !is_filled(value) {
        IdleRelease::After(DEFAULT_IDLE_SECONDS)
    } else {
        match parse_unsigned(trim(value->0), 10, u64::MAX as int) {
            None => IdleRelease::After(DEFAULT_IDLE_SECONDS),
            Some(secs) => if secs == 0 {
                IdleRelease::Never
            } else if secs > u32::MAX {
                IdleRelease::After(u32::MAX as u64)
            } else {
                IdleRelease::After(secs as u64)
            },
        }
    }
}

impl IdleRelease {
    /// The policy the variable's value names. Seconds are capped at what fits a `u32`, 136
    /// years, so a deadline can always be added to an instant.
    pub fn from_env_value(value: Option<&str>) -> (r: Self)
        ensures
            r == policy(crate::elements::str_of(value)),
            r is After ==> 0 < r->After_0 <= u32::MAX,
    {
        match value {
            None => IdleRelease::After(DEFAULT_IDLE_SECONDS),
            Some(value) => {
                if blank(value) {
                    return IdleRelease::After(DEFAULT_IDLE_SECONDS);
                }
                match unsigned_of(&trimmed(value), 10, u64::MAX) {
                    None => IdleRelease::After(DEFAULT_IDLE_SECONDS),
                    Some(secs) => if secs == 0 {
                        IdleRelease::Never
                    } else if secs > u32::MAX as u64 {
                        IdleRelease::After(u32::MAX as u64)
                    } else {
                        IdleRelease::After(secs)
                    },
                }
            },
        }
    }
}

/// Why the lock was not taken.
#[derive(Debug)]
pub enum LockError {
    /// Another process holds the lock; its pid when the lock file names one.
    Busy { pid: Option<u32> },
    Io(String),
}

impl LockError {
    /// The refusal in words.
    pub open spec fn words(self, release: IdleRelease) -> Seq<char> {
        match self {
            LockError::Busy { pid } => "Computer use is in use by another session ("@ + (match pid {
                Some(pid) => "pid "@ + decimal(pid as int),
                None => "pid unknown"@,
            }) + "). "@ + match release {
                IdleRelease::After(idle) => "It frees "@ + decimal(idle as int)
                    + " s after that session's last call ("@ + IDLE_SECS_ENV@
                    + "), so wait that long and retry once."@,
                IdleRelease::Never => "It is held until that session exits ("@ + IDLE_SECS_ENV@
                    + "=0)."@,
            },
            LockError::Io(detail) => "Could not take the computer-use session lock: "@ + detail@,
        }
    }

    /// The refusal a caller reads, with what it can do next: wait out the
    /// holder's idle window, whose length `release` gives.
    pub fn message(&self, release: IdleRelease) -> (r: String)
        ensures
            r@ == self.words(release),
    {
        match self {
            LockError::Busy { pid } => {
                let holder = match pid {
                    Some(pid) => cat("pid ", &decimal_of(*pid as u64)),
                    None => "pid unknown".to_owned(),
                };
                let mut message = cat("Computer use is in use by another session (", &holder);
                message.append("). ");
                match release {
                    IdleRelease::After(idle) => {
                        let mut outcome = cat("It frees ", &decimal_of(idle));
                        outcome.append(" s after that session's last call (");
                        outcome.append(IDLE_SECS_ENV);
                        outcome.append("), so wait that long and retry once.");
                        message.append(&outcome);
                    },
                    IdleRelease::Never => {
                        let mut outcome = cat(
                            "It is held until that session exits (",
                            IDLE_SECS_ENV,
                        );
                        outcome.append("=0).");
                        message.append(&outcome);
                    },
                }
                message
            },
            LockError::Io(detail) => cat("Could not take the computer-use session lock: ", detail),
        }
    }
}

/// A lease on the lock: when it was last used, and how many operations hold it.
#[derive(Debug, Clone, Copy, PartialEq, Eq, Structural)]
pub struct Lease {
    pub last_used: u64,
    /// Operations that hold the lease. The timer never releases above zero.
    pub in_flight: u32,
}

/// The release policy, and the lease this process holds.
#[derive(Debug, Clone, Copy, PartialEq, Eq)]
pub struct InputLock {
    pub release: IdleRelease,
    pub held: Option<Lease>,
}

/// What the release timer found when it looked.
#[derive(Debug, Clone, Copy, PartialEq, Eq, Structural)]
pub enum IdleCheck {
    /// Given back, or nothing was held: the timer is done.
    Done,
    /// Still in use; look again at this instant.
    Again(u64),
}

impl InputLock {
    /// The lock once an operation has joined a lease that is held.
    pub open spec fn joined(self, now: u64) -> InputLock {
        InputLock {
            held: Some(
                Lease { last_used: now, in_flight: (self.held->0.in_flight + 1) as u32 },
            ),
            ..self
        }
    }

    /// The lock once it was taken for one operation.
    pub open spec fn taken(self, now: u64) -> InputLock {
        InputLock { held: Some(Lease { last_used: now, in_flight: 1 }), ..self }
    }

    /// The lock once an operation has ended.
    pub open spec fn let_go(self, now: u64) -> InputLock {
        match self.held {
            Some(lease) => InputLock {
                held: Some(
                    Lease {
                        last_used: now,
                        in_flight: if lease.in_flight > 0 {
                            (lease.in_flight - 1) as u32
                        } else {
                            0
                        },
                    },
                ),
                ..self
            },
            None => self,
        }
    }

    /// The lock once the lease was renewed.
    pub open spec fn touched(self, now: u64) -> InputLock {
        match self.held {
            Some(lease) => InputLock { held: Some(Lease { last_used: now, ..lease }), ..self },
            None => self,
        }
    }

    /// Whether nothing has used the lease for so long.
    pub open spec fn is_idle(self, idle: int, now: int) -> bool {
        self.held is Some && self.held->0.in_flight == 0 && now >= self.held->0.last_used + idle
    }

    /// The lock once the timer has looked.
    pub open spec fn looked_at(self, idle: int, now: int) -> InputLock {
        if self.is_idle(idle, now) {
            InputLock { held: None, ..self }
        } else {
            self
        }
    }

    /// A lock that is not held.
    pub fn new(release: IdleRelease) -> (r: Self)
        ensures
            r.release == release,
            r.held is None,
    {
        InputLock { release, held: None }
    }

    /// Join an operation to a lock already held, or say that this process holds none.
    pub fn hold(&mut self, now: u64) -> (r: bool)
        requires
            old(self).held is Some ==> old(self).held->0.in_flight < u32::MAX,
        ensures
            r == (old(self).held is Some),
            *final(self) == if r {
                old(self).joined(now)
            } else {
                *old(self)
            },
    {
        match self.held {
            Some(lease) => {
                self.held = Some(Lease { last_used: now, in_flight: lease.in_flight + 1 });
                true
            },
            None => false,
        }
    }

    /// The lock once an operation has asked for it: it joins a lease that is held, and else
    /// the lock is taken where its file is this process's.
    pub open spec fn asked_for(self, now: u64, outcome: FlockOutcome) -> InputLock {
        if self.held is Some {
            self.joined(now)
        } else if outcome is Taken {
            self.taken(now)
        } else {
            self
        }
    }

    /// Take the lock for one operation: join a lease that is held, and else take it where its
    /// file is this process's, by what came of asking for the file, or say why it was not
    /// taken. The answer is how many milliseconds the timer that gives it back waits for,
    /// where one is to be started.
    pub fn acquire(&mut self, now: u64, path: &str, outcome: FlockOutcome) -> (r: Result<
        Option<u64>,
        LockError,
    >)
        requires
            old(self).held is Some ==> old(self).held->0.in_flight < u32::MAX,
            old(self).release is After ==> old(self).release->After_0 <= u32::MAX,
        ensures
            *final(self) == old(self).asked_for(now, outcome),
            r is Ok <==> old(self).held is Some || outcome is Taken,
            match r {
                Ok(wait) => if old(self).held is Some {
                    wait is None
                } else {
                    match old(self).release {
                        IdleRelease::After(seconds) => wait is Some && wait->0 == seconds * 1000,
                        IdleRelease::Never => wait is None,
                    }
                },
                Err(error) => answers_flock(path@, outcome, Err(error)),
            },
    {
        if self.hold(now) {
            return Ok(None);
        }
        match acquire_at(path, outcome) {
            Err(error) => return Err(error),
            Ok(_) => {},
        }
        self.held = Some(Lease { last_used: now, in_flight: 1 });
        match self.release {
            IdleRelease::After(seconds) => Ok(Some(seconds * 1000)),
            IdleRelease::Never => Ok(None),
        }
    }

    /// End an operation's hold. While any is left the lock is in use whatever the clock
    /// says; ending the last one starts the idle window.
    pub fn drop_hold(&mut self, now: u64)
        ensures
            *final(self) == old(self).let_go(now),
    {
        match self.held {
            Some(lease) => {
                let in_flight: u32 = if lease.in_flight > 0 {
                    lease.in_flight - 1
                } else {
                    0
                };
                self.held = Some(Lease { last_used: now, in_flight });
            },
            None => {},
        }
    }

    /// Renew the lease, if one is held.
    pub fn touch(&mut self, now: u64)
        ensures
            *final(self) == old(self).touched(now),
    {
        match self.held {
            Some(lease) => {
                self.held = Some(Lease { last_used: now, in_flight: lease.in_flight });
            },
            None => {},
        }
    }

    /// Give the lock back if nothing has used it for `idle` milliseconds, or say when to
    /// look again. The deadline comes from the lease, not from when the timer
    /// happened to run, so a late first poll cannot stretch the window.
    pub fn release_if_idle(&mut self, idle: u64, now: u64) -> (r: IdleCheck)
        requires
            now + idle <= u64::MAX,
            old(self).held is Some ==> old(self).held->0.last_used <= now,
        ensures
            *final(self) == old(self).looked_at(idle as int, now as int),
            r == if final(self).held is None {
                IdleCheck::Done
            } else if old(self).held->0.in_flight > 0 {
                IdleCheck::Again((now + idle) as u64)
            } else {
                IdleCheck::Again((old(self).held->0.last_used + idle) as u64)
            },
    {
        match self.held {
            None => IdleCheck::Done,
            Some(lease) => {
                if lease.in_flight > 0 {
                    return IdleCheck::Again(now + idle);
                }
                let deadline: u64 = lease.last_used + idle;
                if now < deadline {
                    return IdleCheck::Again(deadline);
                }
                self.held = None;
                IdleCheck::Done
            },
        }
    }

    /// Whether this process holds the lock.
    pub fn is_held(&self) -> (r: bool)
        ensures
            r == (self.held is Some),
    {
        self.held.is_some()
    }
}

/// The timer never takes the lock from an operation: while one holds it, a look changes
/// nothing, whatever the clock says.
pub proof fn an_operation_keeps_the_lock(lock: InputLock, idle: int, now: int)
    requires
        lock.held is Some,
        lock.held->0.in_flight > 0,
    ensures
        lock.looked_at(idle, now) == lock,
{
}

/// A lock is given back once its idle window has closed, and not before: with no operation
/// left, a look gives it back exactly from the last use plus the window on.
pub proof fn a_lock_is_given_back_after_its_window(lock: InputLock, idle: int, now: int)
    requires
        lock.held is Some,
        lock.held->0.in_flight == 0,
    ensures
        lock.looked_at(idle, now).held is None <==> now >= lock.held->0.last_used + idle,
{
}

/// Any call renews the lease: after one, the lock is not given back before a whole window
/// has passed since.
pub proof fn a_call_renews_the_lease(lock: InputLock, at: u64, idle: int, now: int)
    requires
        lock.held is Some,
        now < at + idle,
    ensures
        lock.touched(at).looked_at(idle, now).held is Some,
        lock.touched(at).held->0.in_flight == lock.held->0.in_flight,
{
}

/// The idle window starts when the last operation ends: the lock is held until then, and
/// for a whole window after.
pub proof fn the_window_starts_at_the_end(lock: InputLock, at: u64, idle: int, now: int)
    requires
        lock.held is Some,
        lock.held->0.in_flight == 1,
        now < at + idle,
    ensures
        lock.let_go(at).held is Some,
        lock.let_go(at).held->0.in_flight == 0,
        lock.let_go(at).looked_at(idle, now).held is Some,
{
}

/// An operation that joins a lease and ends leaves as many holds as before: a detached
/// operation keeps the lock after its caller has let go.
pub proof fn a_join_is_undone_by_its_end(lock: InputLock, joined: u64, ended: u64)
    requires
        lock.held is Some,
        lock.held->0.in_flight < u32::MAX,
    ensures
        lock.joined(joined).let_go(ended).held->0.in_flight == lock.held->0.in_flight,
        lock.joined(joined).held->0.in_flight > 0,
{
}

/// Where the lock file is: under the runtime directory, which the user's number gives where
/// the environment does not.
pub fn lock_path(runtime_dir: Option<&str>, uid: u32) -> (r: String)
    ensures
        r@ == path_join(
            if runtime_dir is Some && runtime_dir->0@.len() > 0 {
                runtime_dir->0@
            } else {
                "/run/user/"@ + decimal(uid as int)
            },
            LOCK_FILE_NAME@,
        ),
{
    if let Some(dir) = runtime_dir {
        if !dir.is_empty() {
            return joined_path(dir, LOCK_FILE_NAME);
        }
    }
    joined_path(&cat("/run/user/", &decimal_of(uid as u64)), LOCK_FILE_NAME)
}

/// What the lock file holds while a process has it.
pub open spec fn pid_text(pid: u32) -> Seq<char> {
    decimal(pid as int) + "\n"@
}

/// What the lock file holds while a process has it.
pub fn pid_line(pid: u32) -> (r: String)
    ensures
        r@ == pid_text(pid),
{
    let mut line = decimal_of(pid as u64);
    line.append("\n");
    line
}

/// The pid a lock file names, where it names one.
pub open spec fn pid_in(contents: Seq<char>) -> Option<int> {
    parse_unsigned(trim(contents), 10, u32::MAX as int)
}

/// The pid a lock file names, where it names one.
pub fn read_pid(contents: &str) -> (r: Option<u32>)
    ensures
        match r {
            Some(pid) => pid_in(contents@) == Some(pid as int),
            None => pid_in(contents@) is None,
        },
{
    match unsigned_of(&trimmed(contents), 10, u32::MAX as u64) {
        Some(pid) => Some(pid as u32),
        None => None,
    }
}

/// A lock file names its holder: the pid that is written into it is the one that is read
/// out of it.
pub proof fn the_lock_file_names_the_holder(pid: u32)
    ensures
        pid_in(pid_text(pid)) == Some(pid as int),
{
    let text = pid_text(pid);
    let digits = decimal(pid as int);
    reveal_strlit("\n");
    crate::numerals::digits_have_no_space_or_letter(pid as int);
    crate::numerals::digits_read_back(pid as int, 10);
    reveal_with_fuel(crate::text::trim_end, 2);
    assert(text.last() == '\n');
    assert(text.drop_last() =~= digits);
    assert(!crate::text::is_white(digits[0]));
    assert(!crate::text::is_white(digits.last()));
    assert(crate::text::trim_start(text) == text);
    assert(trim(text) =~= digits);
}

/// What came of asking for the lock file.
#[derive(Debug)]
pub enum FlockOutcome {
    /// This process has it.
    Taken,
    OpenFailed(String),
    /// Another process has it; what the file holds, where it can be read.
    WouldBlock(Option<String>),
    FlockFailed(String),
    WriteFailed(String),
}

/// Whether an answer is what asking for the lock file came to.
pub open spec fn answers_flock(path: Seq<char>, outcome: FlockOutcome, r: Result<(), LockError>) -> bool {
    match outcome {
        FlockOutcome::Taken => r is Ok,
        FlockOutcome::OpenFailed(error) => r is Err && r->Err_0 is Io && r->Err_0->Io_0@ == path
            + ": "@ + error@,
        FlockOutcome::WouldBlock(contents) => r is Err && r->Err_0 is Busy && match r->Err_0->pid {
            Some(pid) => contents is Some && pid_in(contents->0@) == Some(pid as int),
            None => contents is None || pid_in(contents->0@) is None,
        },
        FlockOutcome::FlockFailed(error) => r is Err && r->Err_0 is Io && r->Err_0->Io_0@
            == "flock "@ + path + ": "@ + error@,
        FlockOutcome::WriteFailed(error) => r is Err && r->Err_0 is Io && r->Err_0->Io_0@
            == "write "@ + path + ": "@ + error@,
    }
}

/// What asking for the lock file comes to.
pub fn acquire_at(path: &str, outcome: FlockOutcome) -> (r: Result<(), LockError>)
    ensures
        answers_flock(path@, outcome, r),
{
    match outcome {
        FlockOutcome::Taken => Ok(()),
        FlockOutcome::OpenFailed(error) => {
            let mut detail = cat(path, ": ");
            detail.append(&error);
            Err(LockError::Io(detail))
        },
        FlockOutcome::WouldBlock(contents) => {
            let pid = match contents {
                Some(contents) => read_pid(&contents),
                None => None,
            };
            Err(LockError::Busy { pid })
        },
        FlockOutcome::FlockFailed(error) => {
            let mut detail = cat("flock ", path);
            detail.append(": ");
            detail.append(&error);
            Err(LockError::Io(detail))
        },
        FlockOutcome::WriteFailed(error) => {
            let mut detail = cat("write ", path);
            detail.append(": ");
            detail.append(&error);
            Err(LockError::Io(detail))
        },
    }
}

/// Whether an answer is one that a lock file gives while a process holds it, or none does: it
/// is given to no second process, and it holds the line of the one that has it.
pub open spec fn file_answers(holder: Option<u32>, outcome: FlockOutcome) -> bool {
    match (holder, outcome) {
        (Some(_), FlockOutcome::Taken) => false,
        (Some(_), FlockOutcome::WriteFailed(_)) => false,
        (Some(pid), FlockOutcome::WouldBlock(contents)) => contents is Some ==> contents->0@
            == pid_text(pid),
        (None, FlockOutcome::WouldBlock(_)) => false,
        _ => true,
    }
}

/// What happens to the lock of a process.
pub enum LockEvent {
    /// An operation asks for it, and the file answers, where it is asked.
    Ask { now: u64, outcome: FlockOutcome },
    /// An operation ends.
    End { now: u64 },
    /// A call renews the lease.
    Touch { now: u64 },
    /// The timer looks.
    Look { idle: int, now: int },
}

impl InputLock {
    /// The lock after something happened to it.
    pub open spec fn after(self, event: LockEvent) -> InputLock {
        match event {
            LockEvent::Ask { now, outcome } => self.asked_for(now, outcome),
            LockEvent::End { now } => self.let_go(now),
            LockEvent::Touch { now } => self.touched(now),
            LockEvent::Look { idle, now } => self.looked_at(idle, now),
        }
    }
}

/// Two processes that share one lock file: the lock of each, and its pid.
pub struct TwoProcesses {
    pub ours: InputLock,
    pub our_pid: u32,
    pub theirs: InputLock,
    pub their_pid: u32,
}

impl TwoProcesses {
    /// Whether both hold the lock.
    pub open spec fn both_hold(self) -> bool {
        self.ours.held is Some && self.theirs.held is Some
    }

    /// The process that has the file while the other asks for it: the other one, where it
    /// holds the lock.
    pub open spec fn holder_for(self, us: bool) -> Option<u32> {
        if us && self.theirs.held is Some {
            Some(self.their_pid)
        } else if !us && self.ours.held is Some {
            Some(self.our_pid)
        } else {
            None
        }
    }

    /// Whether something can happen to one of them: a process that holds no lock is answered
    /// by the file.
    pub open spec fn can(self, us: bool, event: LockEvent) -> bool {
        let asking = if us {
            self.ours
        } else {
            self.theirs
        };
        event is Ask && asking.held is None ==> file_answers(self.holder_for(us), event->outcome)
    }

    /// Both, after something happened to one of them.
    pub open spec fn after(self, us: bool, event: LockEvent) -> TwoProcesses {
        if us {
            TwoProcesses { ours: self.ours.after(event), ..self }
        } else {
            TwoProcesses { theirs: self.theirs.after(event), ..self }
        }
    }

    /// Both, after all of this happened, in order, to the one or the other.
    pub open spec fn after_all(self, events: Seq<(bool, LockEvent)>) -> TwoProcesses
        decreases events.len(),
    {
        if events.len() == 0 {
            self
        } else {
            self.after_all(events.drop_last()).after(events.last().0, events.last().1)
        }
    }

    /// Whether all of this can happen, in order.
    pub open spec fn can_all(self, events: Seq<(bool, LockEvent)>) -> bool
        decreases events.len(),
    {
        events.len() == 0 || (self.can_all(events.drop_last()) && self.after_all(
            events.drop_last(),
        ).can(events.last().0, events.last().1))
    }
}

/// Two processes never both hold the lock, whatever happens to them and in whatever order,
/// as long as the system gives a lock file to one process at a time.
pub proof fn two_processes_never_both_hold_the_lock(
    start: TwoProcesses,
    events: Seq<(bool, LockEvent)>,
)
    requires
        !start.both_hold(),
        start.can_all(events),
    ensures
        !start.after_all(events).both_hold(),
    decreases events.len(),
{
    if events.len() > 0 {
        two_processes_never_both_hold_the_lock(start, events.drop_last());
    }
}

/// While one process holds the lock, another that asks for it is refused and named the
/// holder, as far as the file can be read, and the holder itself gets it again. Once it was
/// given back, the other gets it where the file is its own.
pub proof fn the_second_process_is_refused(
    lock: InputLock,
    other: InputLock,
    holder: u32,
    now: u64,
    path: Seq<char>,
    outcome: FlockOutcome,
    r: Result<(), LockError>,
)
    requires
        other.held is None,
        file_answers(
            if lock.held is Some {
                Some(holder)
            } else {
                None
            },
            outcome,
        ),
        answers_flock(path, outcome, r),
    ensures
        lock.held is Some ==> r is Err && other.asked_for(now, outcome) == other,
        lock.held is Some && outcome is WouldBlock && outcome->WouldBlock_0 is Some ==> r->Err_0
            is Busy && r->Err_0->pid == Some(holder),
        lock.held is Some ==> lock.asked_for(now, outcome).held is Some,
        lock.held is None && outcome is Taken ==> r is Ok && other.asked_for(now, outcome).held
            is Some,
{
    the_lock_file_names_the_holder(holder);
}

/// A lock is given back after as many seconds as are set, which for zero is never; and after
/// thirty where none are set or they are no number.
pub proof fn a_lock_is_given_back_after_the_seconds_set(secs: u32, text: Seq<char>)
    ensures
        secs > 0 ==> policy(Some(decimal(secs as int))) == IdleRelease::After(secs as u64),
        policy(Some(decimal(0))) == IdleRelease::Never,
        policy(None) == IdleRelease::After(30),
        is_blank(text) || parse_unsigned(trim(text), 10, u64::MAX as int) is None ==> policy(
            Some(text),
        ) == IdleRelease::After(30),
{
    seconds_read_back(secs);
    seconds_read_back(0);
}

proof fn seconds_read_back(secs: u32)
    ensures
        !is_blank(decimal(secs as int)),
        parse_unsigned(trim(decimal(secs as int)), 10, u64::MAX as int) == Some(secs as int),
{
    let text = decimal(secs as int);
    digits_are_visible(secs as int, 10);
    trim_keeps(text);
    decimal_reads_back(secs as int, 0, u64::MAX as int);
}

/// A lock that is asked for is held from then on: by one operation where it is taken anew, by
/// one more where it is joined; and one that was not given is not held. A call that renews it
/// and an operation's end leave it held.
pub proof fn a_lock_is_held_by_those_who_asked(lock: InputLock, now: u64, outcome: FlockOutcome)
    requires
        lock.held is Some ==> lock.held->0.in_flight < u32::MAX,
    ensures
        lock.held is Some ==> lock.asked_for(now, outcome).held is Some && lock.asked_for(
            now,
            outcome,
        ).held->0.in_flight == lock.held->0.in_flight + 1,
        lock.held is None && outcome is Taken ==> lock.asked_for(now, outcome).held == Some(
            Lease { last_used: now, in_flight: 1 },
        ),
        lock.held is None && !(outcome is Taken) ==> lock.asked_for(now, outcome).held is None,
        lock.asked_for(now, outcome).held is Some ==> lock.asked_for(
            now,
            outcome,
        ).held->0.last_used == now,
        lock.asked_for(now, outcome).release == lock.release,
        lock.let_go(now).held is Some <==> lock.held is Some,
        lock.held is Some && lock.held->0.in_flight > 0 ==> lock.let_go(now).held->0.in_flight
            == lock.held->0.in_flight - 1,
        lock.held is Some ==> lock.touched(now).held->0.last_used == now,
        lock.touched(now).held is Some <==> lock.held is Some,
{
}

/// A look of the timer gives the lock back exactly where no operation holds it and it was not
/// used for the whole window, and else leaves it as it is.
pub proof fn a_look_gives_back_only_an_unused_lock(
    lock: InputLock,
    idle: u64,
    now: u64,
    after: InputLock,
)
    requires
        lock.held is Some,
        lock.held->0.last_used <= now,
        after == lock.looked_at(idle as int, now as int),
    ensures
        after.held is None <==> lock.held->0.in_flight == 0 && now - lock.held->0.last_used >= idle,
        after.release == lock.release,
        after.held is Some ==> after == lock,
{
}

} // verus!
