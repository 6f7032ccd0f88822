//! The tty and process metadata a terminal window carries.

use vstd::prelude::*;
use vstd::string::StringExecFns;
use crate::numerals::{decimal, decimal_of, parse_unsigned, unsigned_of};
use crate::select::{
    first_match, first_matching, matching, matching_is_exact, matching_items, positions,
    the_first_match_is_the_first,
};
use crate::text::{cat, chars_of, string_of, texts, words, words_of};
use crate::windowing::types::WindowInfo;

verus! {

/// One process of a terminal window.
#[derive(Debug, PartialEq, Eq)]
pub struct TerminalProcess {
    pub pid: u32,
    pub command_name: String,
    pub command_line: String,
    pub cwd: Option<String>,
}

/// What runs in a terminal window.
#[derive(Debug, PartialEq, Eq)]
pub struct TerminalWindowContext {
    pub tty: String,
    pub root_process: TerminalProcess,
    pub active_process: Option<TerminalProcess>,
    pub process_count: usize,
    pub confidence: String,
    pub match_reason: String,
}

impl Clone for TerminalProcess {
    fn clone(&self) -> (r: Self)
        ensures
            r == *self,
    {
        TerminalProcess {
            pid: self.pid,
            command_name: self.command_name.clone(),
            command_line: self.command_line.clone(),
            cwd: self.cwd.clone(),
        }
    }
}

impl Clone for TerminalWindowContext {
    fn clone(&self) -> (r: Self)
        ensures
            r == *self,
    {
        TerminalWindowContext {
            tty: self.tty.clone(),
            root_process: self.root_process.clone(),
            active_process: self.active_process.clone(),
            process_count: self.process_count,
            confidence: self.confidence.clone(),
            match_reason: self.match_reason.clone(),
        }
    }
}

/// Whether a window is another one with what runs in it.
pub open spec fn is_enriched(
    window: WindowInfo,
    bare: WindowInfo,
    terminal: Option<TerminalWindowContext>,
) -> bool {
    window == (WindowInfo { terminal, ..bare })
}

/// Give each window what runs in it, and leave all else of it as it is.
pub fn enrich_terminal_windows(
    windows: &mut Vec<WindowInfo>,
    contexts: Vec<Option<TerminalWindowContext>>,
)
    requires
        old(windows)@.len() == contexts@.len(),
    ensures
        final(windows)@.len() == old(windows)@.len(),
        forall|i: int|
            0 <= i < final(windows)@.len() ==> is_enriched(
                #[trigger] final(windows)@[i],
                old(windows)@[i],
                contexts@[i],
            ),
{
    for i in 0..contexts.len()
        invariant
            windows@.len() == old(windows)@.len(),
            windows@.len() == contexts@.len(),
            forall|k: int|
                0 <= k < i ==> is_enriched(
                    #[trigger] windows@[k],
                    old(windows)@[k],
                    contexts@[k],
                ),
            forall|k: int| i <= k < windows@.len() ==> #[trigger] windows@[k] == old(windows)@[k],
    {
        windows[i].terminal = contexts[i].clone();
    }
}

/// One process as the system lists it.
#[derive(Debug)]
pub struct ProcessEntry {
    pub process: TerminalProcess,
    pub parent: u32,
    /// The process that leads its session.
    pub session: u32,
    /// The terminal that controls it.
    pub tty: Option<String>,
    /// The process that leads the foreground of that terminal.
    pub foreground: Option<u32>,
}

/// Whether a process is a shell that another one runs in a terminal: its child, which leads a
/// session with a terminal of its own.
pub open spec fn is_shell_of(pid: u32) -> spec_fn(ProcessEntry) -> bool {
    |p: ProcessEntry| p.parent == pid && p.session == p.process.pid && p.tty is Some
}

/// Whether a process is in a session.
pub open spec fn in_session(session: u32) -> spec_fn(ProcessEntry) -> bool {
    |p: ProcessEntry| p.session == session
}

/// Whether a process is the one with a pid.
pub open spec fn has_pid(pid: u32) -> spec_fn(ProcessEntry) -> bool {
    |p: ProcessEntry| p.process.pid == pid
}

/// How sure it is that a terminal is that of a window.
pub const CONFIDENCE: &'static str = "heuristic";

/// Why a terminal is taken for that of a window.
pub const MATCH_REASON: &'static str = "the only shell that the window's process runs";

/// The process that leads the foreground of a shell's terminal.
pub open spec fn active_in(processes: Seq<ProcessEntry>, shell: ProcessEntry) -> Option<TerminalProcess> {
    match shell.foreground {
        Some(pid) => match first_match(processes, has_pid(pid)) {
            Some(k) => Some(processes[k].process),
            None => None,
        },
        None => None,
    }
}

/// Whether a context is that of the terminal a process shows: there is one where the process
/// runs exactly one shell.
pub open spec fn tells_terminal(
    context: Option<TerminalWindowContext>,
    pid: u32,
    processes: Seq<ProcessEntry>,
) -> bool {
    let shells = matching(processes, is_shell_of(pid));
    if shells.len() == 1 {
        let shell = processes[shells[0]];
        &&& context is Some
        &&& Some(context->0.tty) == shell.tty
        &&& context->0.root_process == shell.process
        &&& context->0.active_process == active_in(processes, shell)
        &&& context->0.process_count == matching(processes, in_session(shell.session)).len()
        &&& context->0.confidence@ == CONFIDENCE@
        &&& context->0.match_reason@ == MATCH_REASON@
    } else {
        context is None
    }
}

/// What runs in the terminal that a process shows, as far as its children tell.
pub fn terminal_context(pid: u32, processes: &[ProcessEntry]) -> (r: Option<TerminalWindowContext>)
    ensures
        tells_terminal(r, pid, processes@),
{
    let is_shell = |p: &ProcessEntry| -> (b: bool)
        ensures
            b == is_shell_of(pid)(*p),
        { p.parent == pid && p.session == p.process.pid && p.tty.is_some() };
    let shells = matching_items(processes, is_shell, Ghost(is_shell_of(pid)));
    assert(positions(shells@).len() == shells@.len());
    if shells.len() != 1 {
        return None;
    }
    proof {
        let all = matching(processes@, is_shell_of(pid));
        assert(positions(shells@)[0] == shells@[0]);
        matching_is_exact(processes@, is_shell_of(pid));
        assert(all.contains(all[0]));
    }
    let shell = &processes[shells[0]];
    let tty = match &shell.tty {
        Some(tty) => tty.clone(),
        None => return None,
    };
    let active_process = match shell.foreground {
        Some(front) => {
            let is_front = |p: &ProcessEntry| -> (b: bool)
                ensures
                    b == has_pid(front)(*p),
                { p.process.pid == front };
            match first_matching(processes, is_front, Ghost(has_pid(front))) {
                Some(k) => Some(processes[k].process.clone()),
                None => None,
            }
        },
        None => None,
    };
    let session: u32 = shell.session;
    let is_member = |p: &ProcessEntry| -> (b: bool)
        ensures
            b == in_session(session)(*p),
        { p.session == session };
    let members = matching_items(processes, is_member, Ghost(in_session(session)));
    assert(positions(members@).len() == members@.len());
    Some(
        TerminalWindowContext {
            tty,
            root_process: shell.process.clone(),
            active_process,
            process_count: members.len(),
            confidence: CONFIDENCE.to_owned(),
            match_reason: MATCH_REASON.to_owned(),
        },
    )
}

/// What a process's `stat` file says of where it belongs.
#[derive(Debug, Clone, Copy, PartialEq, Eq, Structural)]
pub struct ProcessStat {
    pub parent: u32,
    pub session: u32,
    /// The number of the terminal that controls it, or zero.
    pub terminal: u32,
    pub foreground: Option<u32>,
}

/// What stands behind the last closing bracket, or the whole where there is none.
pub open spec fn behind_name(stat: Seq<char>) -> Seq<char>
    decreases stat.len(),
{
    if stat.len() == 0 {
        stat
    } else if stat.last() == ')' {
        Seq::empty()
    } else {
        behind_name(stat.drop_last()).push(stat.last())
    }
}

/// A number of 32 bits in a text.
pub open spec fn number_in(text: Seq<char>) -> Option<int> {
    parse_unsigned(text, 10, u32::MAX as int)
}

/// What a `stat` file says: behind the name, which may hold anything, stand the state, the
/// parent, the group, the session, the terminal and the foreground group.
pub open spec fn stat_read(stat: Seq<char>) -> Option<ProcessStat> {
    let fields = words(behind_name(stat));
    if fields.len() < 6 {
        None
    } else {
        match (number_in(fields[1]), number_in(fields[3]), number_in(fields[4])) {
            (Some(parent), Some(session), Some(terminal)) => Some(
                ProcessStat {
                    parent: parent as u32,
                    session: session as u32,
                    terminal: terminal as u32,
                    foreground: match number_in(fields[5]) {
                        Some(foreground) => Some(foreground as u32),
                        None => None,
                    },
                },
            ),
            _ => None,
        }
    }
}

fn number_of(text: &str) -> (r: Option<u32>)
    ensures
        match r {
            Some(n) => number_in(text@) == Some(n as int),
            None => number_in(text@) is None,
        },
{
    match unsigned_of(text, 10, u32::MAX as u64) {
        Some(n) => Some(n as u32),
        None => None,
    }
}

proof fn behind_name_is(stat: Seq<char>, at: int)
    requires
        0 <= at <= stat.len(),
        at > 0 ==> stat[at - 1] == ')',
        forall|i: int| at <= i < stat.len() ==> stat[i] != ')',
    ensures
        behind_name(stat) == stat.skip(at),
    decreases stat.len(),
{
    if at < stat.len() {
        behind_name_is(stat.drop_last(), at);
        assert(stat.drop_last().skip(at).push(stat.last()) =~= stat.skip(at));
    } else {
        assert(stat.skip(at) =~= Seq::empty());
    }
}

/// Reading a `stat` file.
pub fn parse_stat(stat: &str) -> (r: Option<ProcessStat>)
    ensures
        r == stat_read(stat@),
{
    let chars = chars_of(stat);
    let mut at: usize = chars.len();
    while at > 0 && chars[at - 1] != ')'
        invariant
            at <= chars@.len(),
            forall|i: int| at <= i < chars@.len() ==> chars@[i] != ')',
        decreases at,
    {
        at = at - 1;
    }
    proof {
        behind_name_is(chars@, at as int);
        assert(chars@.subrange(at as int, chars@.len() as int) =~= chars@.skip(at as int));
    }
    let fields = words_of(&string_of(&chars, at, chars.len()));
    let ghost read = texts(fields@);
    if fields.len() < 6 {
        return None;
    }
    assert(read[1] == fields@[1]@);
    assert(read[3] == fields@[3]@);
    assert(read[4] == fields@[4]@);
    assert(read[5] == fields@[5]@);
    match (number_of(&fields[1]), number_of(&fields[3]), number_of(&fields[4])) {
        (Some(parent), Some(session), Some(terminal)) => Some(
            ProcessStat { parent, session, terminal, foreground: number_of(&fields[5]) },
        ),
        _ => None,
    }
}

/// The pseudo-terminal that a device number names: its major number is in the second byte and
/// the low half of the third, its minor number around it.
pub open spec fn pty_path(terminal: u32) -> Option<Seq<char>> {
    if terminal as int / 256 % 4096 == 136 {
        Some("/dev/pts/"@ + decimal(terminal as int / 0x10_0000 * 256 + terminal as int % 256))
    } else {
        None
    }
}

/// The pseudo-terminal that a device number names.
pub fn pty_name(terminal: u32) -> (r: Option<String>)
    ensures
        crate::text::text_of(r) == pty_path(terminal),
{
    if terminal / 256 % 4096 == 136 {
        let index: u64 = terminal as u64 / 0x10_0000 * 256 + terminal as u64 % 256;
        Some(cat("/dev/pts/", &decimal_of(index)))
    } else {
        None
    }
}

/// The terminal a process shows is that of its one child that leads a session with a terminal;
/// what runs in front is the process that leads the foreground of it.
pub proof fn a_terminal_is_that_of_the_only_shell(
    context: Option<TerminalWindowContext>,
    pid: u32,
    processes: Seq<ProcessEntry>,
)
    requires
        tells_terminal(context, pid, processes),
        context is Some,
    ensures
        exists|k: int|
            0 <= k < processes.len() && (#[trigger] processes[k]).parent == pid
                && processes[k].session == processes[k].process.pid && processes[k].tty == Some(
                context->0.tty,
            ) && context->0.root_process == processes[k].process && (
            context->0.active_process is Some ==> processes[k].foreground == Some(
                context->0.active_process->0.pid,
            )) && forall|j: int|
                0 <= j < processes.len() && j != k ==> !((#[trigger] processes[j]).parent == pid
                    && processes[j].session == processes[j].process.pid
                    && processes[j].tty is Some),
{
    let shells = matching(processes, is_shell_of(pid));
    matching_is_exact(processes, is_shell_of(pid));
    let k = shells[0];
    assert(shells.contains(k));
    let shell = processes[k];
    if shell.foreground is Some {
        the_first_match_is_the_first(processes, has_pid(shell.foreground->0));
    }
    assert forall|j: int| 0 <= j < processes.len() && j != k implies !((
    #[trigger] processes[j]).parent == pid && processes[j].session == processes[j].process.pid
        && processes[j].tty is Some) by {
        if is_shell_of(pid)(processes[j]) {
            assert(shells.contains(j));
        }
    }
    assert(processes[k].parent == pid);
}

/// The devices of major number 136 are the pseudo-terminals, by their minor number.
pub proof fn a_pty_is_named_by_its_minor_number(minor: u8)
    ensures
        pty_path((136 * 256 + minor) as u32) == Some("/dev/pts/"@ + decimal(minor as int)),
        pty_path(0) is None,
{
}

} // verus!
