//! What the rest of the library asks of the window backend.

use vstd::prelude::*;
use vstd::string::StringExecFns;
use crate::command::CommandOutput;
use crate::windowing::backends::hyprland;
use crate::windowing::backends::hyprland::HyprlandRelease;
use crate::windowing::types::WindowInfo;

verus! {

/// What a window list says of where it came from.
pub const LIST_NOTE: &'static str =
    "Window list came from Hyprland hyprctl. Terminal windows may include best-effort PTY and active-process context when the process tree is readable.";

/// What a window backend was found able to do.
#[derive(Debug)]
pub struct BackendProbe {
    pub id: &'static str,
    pub ok: bool,
    pub can_list_windows: bool,
    pub can_focus_apps: bool,
    pub can_focus_windows: bool,
    pub detail: String,
}

impl Clone for BackendProbe {
    fn clone(&self) -> (r: Self)
        ensures
            r == *self,
    {
        BackendProbe {
            id: self.id,
            ok: self.ok,
            can_list_windows: self.can_list_windows,
            can_focus_apps: self.can_focus_apps,
            can_focus_windows: self.can_focus_windows,
            detail: self.detail.clone(),
        }
    }
}

/// The running Hyprland release, or `None` when it cannot be read.
pub fn hyprland_release(version: &Result<CommandOutput, String>) -> (r: Option<HyprlandRelease>)
    ensures
        hyprland::is_release(r, hyprland::release_read(*version)),
{
    hyprland::release(version)
}

/// What the backend can do, by how `hyprctl clients -j` went.
pub fn probe_backend(clients: &Result<CommandOutput, String>) -> (r: BackendProbe)
    ensures
        hyprland::probed(*clients, r),
{
    hyprland::probe(clients)
}

/// The windows there are, or why there are none to be had: a desktop without a single
/// window is taken for a failure to list them.
pub fn list_windows(listed: Result<Vec<WindowInfo>, String>) -> (r: Result<
    Vec<WindowInfo>,
    String,
>)
    ensures
        match r {
            Ok(windows) => listed is Ok && windows == listed->Ok_0 && windows@.len() > 0,
            Err(message) => match listed {
                Ok(windows) => windows@.len() == 0 && message@ == "Hyprland returned no windows"@,
                Err(error) => message@ == "Hyprland failed: "@ + error@,
            },
        },
{
    match listed {
        Ok(windows) => if windows.len() == 0 {
            Err("Hyprland returned no windows".to_owned())
        } else {
            Ok(windows)
        },
        Err(error) => Err(crate::text::cat("Hyprland failed: ", &error)),
    }
}

} // verus!
