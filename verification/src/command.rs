//! What running a command gives back.

use vstd::prelude::*;
use crate::text::{is_blank, lossy, lossy_text, same, trim, trimmed};

verus! {

/// A finished command.
#[derive(Debug)]
pub struct CommandOutput {
    /// Whether it exited with status zero.
    pub success: bool,
    /// The exit status in words.
    pub status: String,
    pub stdout: Vec<u8>,
    pub stderr: Vec<u8>,
}

impl CommandOutput {
    /// What it printed, trimmed.
    pub open spec fn out(self) -> Seq<char> {
        trim(lossy_text(self.stdout@))
    }

    /// What it complained of, trimmed.
    pub open spec fn complaint(self) -> Seq<char> {
        trim(lossy_text(self.stderr@))
    }

    /// What it complained of, or else what it printed.
    pub open spec fn complaint_or_out(self) -> Seq<char> {
        if self.complaint().len() == 0 {
            self.out()
        } else {
            self.complaint()
        }
    }

    /// What it printed, trimmed.
    pub fn stdout_text(&self) -> (r: String)
        ensures
            r@ == self.out(),
    {
        trimmed(&lossy(&self.stdout))
    }

    /// What it complained of, trimmed.
    pub fn stderr_text(&self) -> (r: String)
        ensures
            r@ == self.complaint(),
    {
        trimmed(&lossy(&self.stderr))
    }

    /// What it complained of, or else what it printed.
    pub fn message(&self) -> (r: String)
        ensures
            r@ == self.complaint_or_out(),
    {
        let complaint = self.stderr_text();
        if complaint.as_str().is_empty() {
            self.stdout_text()
        } else {
            complaint
        }
    }
}

/// Whether a dispatch was carried out: a rejected one exits with status zero too, and only
/// the output `ok` says that it was.
pub fn dispatch_succeeded(output: &CommandOutput) -> (r: bool)
    ensures
        r == (output.success && output.out() == "ok"@),
{
    output.success && same(&output.stdout_text(), "ok")
}

/// What a failed command says for itself: its complaint, its output, or its status.
pub open spec fn detail(output: CommandOutput) -> Seq<char> {
    if output.complaint_or_out().len() == 0 {
        "exit status "@ + output.status@
    } else {
        output.complaint_or_out()
    }
}

/// What a failed command says for itself.
pub fn command_detail(output: &CommandOutput) -> (r: String)
    ensures
        r@ == detail(*output),
{
    let message = output.message();
    if message.as_str().is_empty() {
        crate::text::cat("exit status ", &output.status)
    } else {
        message
    }
}

/// What a failed command says for itself is its complaint, what it printed only where it
/// complained of nothing, and its status only where it printed nothing either.
pub proof fn a_complaint_is_what_a_command_says_first(output: CommandOutput)
    ensures
        !is_blank(lossy_text(output.stderr@)) ==> detail(output) == trim(
            lossy_text(output.stderr@),
        ),
        is_blank(lossy_text(output.stderr@)) && !is_blank(lossy_text(output.stdout@)) ==> detail(
            output,
        ) == trim(lossy_text(output.stdout@)),
        is_blank(lossy_text(output.stderr@)) && is_blank(lossy_text(output.stdout@)) ==> detail(
            output,
        ) == "exit status "@ + output.status@,
        output.out() == trim(lossy_text(output.stdout@)),
        output.complaint() == trim(lossy_text(output.stderr@)),
{
}

} // verus!
