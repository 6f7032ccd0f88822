//! Applications: which processes look like ones, and which application of the
//! accessibility bus a window belongs to.

use vstd::prelude::*;
use vstd::string::StringExecFns;
use crate::cache::deref;
use crate::elements::Bounds;
use crate::numerals::{
    decimal, decimal_of, decimal_reads_back, digits_are_visible, parse_unsigned, unsigned_of,
};
use crate::select::{matching, matching_is_exact, matching_items};
use crate::text::{
    begins_with, blank, cat, chars_of, contains, ends_with, finishes_with, includes, is_blank,
    is_filled, is_white, join, joined, lower, lowered, same, starts_with, string_of, text_of, texts,
    texts_push, trim, trim_keeps, trimmed, trimming_cuts_only_white, whitespace,
};
use crate::windowing::types::WindowInfo;

verus! {

/// A process that may be a desktop application.
#[derive(Debug, PartialEq, Eq)]
pub struct AppCandidate {
    pub name: String,
    pub pid: u32,
    pub command: String,
}

/// An application of the accessibility bus.
#[derive(Debug)]
pub struct AccessibleAppSummary {
    pub object_ref: String,
    pub name: Option<String>,
    pub pid: Option<u32>,
    pub role: String,
    pub child_count: i32,
    pub bounds: Option<Bounds>,
}

/// The position of the first whitespace.
pub open spec fn first_white(s: Seq<char>) -> Option<int>
    decreases s.len(),
{
    if s.len() == 0 {
        None
    } else {
        match first_white(s.drop_last()) {
            Some(k) => Some(k),
            None => if is_white(s.last()) {
                Some(s.len() - 1)
            } else {
                None
            },
        }
    }
}

/// The process a line of the process list tells of: its number up to the first whitespace,
/// its name up to the next, and the rest as its command.
pub open spec fn process_in(line: Seq<char>) -> Option<(int, Seq<char>, Seq<char>)> {
    let line = trim(line);
    match first_white(line) {
        None => None,
        Some(i) => match parse_unsigned(line.take(i), 10, u32::MAX as int) {
            None => None,
            Some(pid) => {
                let rest = line.skip(i + 1);
                match first_white(rest) {
                    None => Some((pid, rest, Seq::empty())),
                    Some(j) => Some((pid, rest.take(j), trim(rest.skip(j + 1)))),
                }
            },
        },
    }
}

fn find_white(v: &[char], from: usize) -> (r: Option<usize>)
    requires
        from <= v@.len(),
    ensures
        match r {
            Some(k) => from <= k < v@.len() && first_white(v@.skip(from as int)) == Some(k - from),
            None => first_white(v@.skip(from as int)) is None,
        },
{
    let ghost part = v@.skip(from as int);
    let mut i: usize = from;
    while i < v.len()
        invariant
            from <= i <= v@.len(),
            part == v@.skip(from as int),
            first_white(part.take(i - from)) is None,
        decreases v@.len() - i,
    {
        assert(part.take(i + 1 - from).drop_last() =~= part.take(i - from));
        assert(part.take(i + 1 - from).last() == v@[i as int]);
        if whitespace(v[i]) {
            proof {
                first_white_stays(part, i + 1 - from);
            }
            return Some(i);
        }
        i = i + 1;
    }
    assert(part.take(i - from) =~= part);
    None
}

proof fn first_white_stays(s: Seq<char>, k: int)
    requires
        0 <= k <= s.len(),
        first_white(s.take(k)) is Some,
    ensures
        first_white(s) == first_white(s.take(k)),
    decreases s.len(),
{
    if k < s.len() {
        assert(s.drop_last().take(k) =~= s.take(k));
        first_white_stays(s.drop_last(), k);
    } else {
        assert(s.take(k) =~= s);
    }
}

/// The process a line of the process list tells of.
pub fn parse_process_line(line: &str) -> (r: Option<AppCandidate>)
    ensures
        match r {
            Some(app) => process_in(line@) == Some((app.pid as int, app.name@, app.command@)),
            None => process_in(line@) is None,
        },
{
    let line = trimmed(line);
    let v = chars_of(&line);
    assert(v@.skip(0) =~= v@);
    let i: usize = match find_white(&v, 0) {
        Some(i) => i,
        None => return None,
    };
    assert(v@.subrange(0, i as int) =~= v@.take(i as int));
    let pid: u64 = match unsigned_of(&string_of(&v, 0, i), 10, u32::MAX as u64) {
        Some(pid) => pid,
        None => return None,
    };
    let ghost rest = v@.skip(i + 1);
    match find_white(&v, i + 1) {
        None => {
            assert(v@.subrange(i + 1, v@.len() as int) =~= rest);
            Some(
                AppCandidate {
                    name: string_of(&v, i + 1, v.len()),
                    pid: pid as u32,
                    command: String::new(),
                },
            )
        },
        Some(j) => {
            assert(v@.subrange(i + 1, j as int) =~= rest.take(j - (i + 1)));
            assert(v@.subrange(j + 1, v@.len() as int) =~= rest.skip(j - (i + 1) + 1));
            Some(
                AppCandidate {
                    name: string_of(&v, i + 1, j),
                    pid: pid as u32,
                    command: trimmed(&string_of(&v, j + 1, v.len())),
                },
            )
        },
    }
}

/// Whether a process looks like a desktop application.
pub open spec fn is_desktop_app(name: Seq<char>, command: Seq<char>) -> bool {
    let hay = lower(name + " "@ + command);
    ||| contains(hay, "codex"@)
    ||| contains(hay, "electron"@)
    ||| contains(hay, "chrome"@)
    ||| contains(hay, "chromium"@)
    ||| contains(hay, "firefox"@)
    ||| contains(hay, "brave"@)
    ||| contains(hay, "code"@)
    ||| contains(hay, "gnome-terminal"@)
    ||| contains(hay, "ptyxis"@)
    ||| contains(hay, "kgx"@)
    ||| contains(hay, "nautilus"@)
    ||| contains(hay, "slack"@)
    ||| contains(hay, "discord"@)
    ||| contains(hay, "spotify"@)
    ||| contains(hay, "obsidian"@)
}

/// Whether a process looks like a desktop application.
pub fn looks_like_desktop_app(name: &str, command: &str) -> (r: bool)
    ensures
        r == is_desktop_app(name@, command@),
{
    let mut both = cat(name, " ");
    both.append(command);
    let hay = lowered(&both);
    includes(&hay, "codex") || includes(&hay, "electron") || includes(&hay, "chrome") || includes(
        &hay,
        "chromium",
    ) || includes(&hay, "firefox") || includes(&hay, "brave") || includes(&hay, "code") || includes(
        &hay,
        "gnome-terminal",
    ) || includes(&hay, "ptyxis") || includes(&hay, "kgx") || includes(&hay, "nautilus")
        || includes(&hay, "slack") || includes(&hay, "discord") || includes(&hay, "spotify")
        || includes(&hay, "obsidian")
}

/// The desktop applications a process list tells of, in order, fifty at most.
pub open spec fn apps_in(all: Seq<Seq<char>>) -> Seq<(int, Seq<char>, Seq<char>)>
    decreases all.len(),
{
    if all.len() == 0 {
        Seq::empty()
    } else {
        let before = apps_in(all.drop_last());
        match process_in(all.last()) {
            Some((pid, name, command)) if before.len() < 50 && is_desktop_app(name, command) =>
                before.push((pid, name, command)),
            _ => before,
        }
    }
}

/// What some applications are.
pub open spec fn apps_are(apps: Seq<AppCandidate>) -> Seq<(int, Seq<char>, Seq<char>)> {
    apps.map_values(|app: AppCandidate| (app.pid as int, app.name@, app.command@))
}

/// The desktop applications a process list tells of.
pub fn list_process_apps(output: &str) -> (r: Vec<AppCandidate>)
    ensures
        apps_are(r@) == apps_in(crate::text::lines(output@)),
{
    let all = crate::text::lines_of(output);
    let ghost lines = texts(all@);
    let mut apps: Vec<AppCandidate> = Vec::new();
    assert(apps_are(apps@) =~= Seq::empty());
    assert(lines.take(0) =~= Seq::empty());
    for i in 0..all.len()
        invariant
            lines == texts(all@),
            apps_are(apps@) == apps_in(lines.take(i as int)),
    {
        assert(lines.take(i + 1).drop_last() =~= lines.take(i as int));
        assert(lines.take(i + 1).last() == all@[i as int]@);
        assert(apps_are(apps@).len() == apps@.len());
        let ghost before = apps@;
        match parse_process_line(&all[i]) {
            Some(app) => {
                if apps.len() < 50 && looks_like_desktop_app(&app.name, &app.command) {
                    apps.push(app);
                    assert(apps_are(apps@) =~= apps_are(before).push(
                        (app.pid as int, app.name@, app.command@),
                    ));
                }
            },
            None => {},
        }
    }
    assert(lines.take(all@.len() as int) =~= lines);
    apps
}

/// A candidate added to a list, unless it is blank or already there.
pub open spec fn with_candidate(list: Seq<Seq<char>>, value: Option<Seq<char>>) -> Seq<Seq<char>> {
    if is_filled(value) && !list.contains(trim(value->0)) {
        list.push(trim(value->0))
    } else {
        list
    }
}

fn has_text(list: &[String], text: &str) -> (r: bool)
    ensures
        r == texts(list@).contains(text@),
{
    for i in 0..list.len()
        invariant
            forall|k: int| 0 <= k < i ==> #[trigger] list@[k]@ != text@,
    {
        if same(&list[i], text) {
            assert(texts(list@)[i as int] == text@);
            return true;
        }
    }
    assert forall|k: int| 0 <= k < list@.len() implies texts(list@)[k] != text@ by {
        assert(list@[k]@ != text@);
    }
    false
}

/// Add a candidate to a list, unless it is blank or already there.
pub fn push_candidate(candidates: &mut Vec<String>, value: Option<&str>)
    ensures
        texts(final(candidates)@) == with_candidate(
            texts(old(candidates)@),
            crate::elements::str_of(value),
        ),
{
    broadcast use texts_push;

    if let Some(value) = value {
        if !blank(value) {
            let value = trimmed(value);
            if !has_text(candidates, &value) {
                candidates.push(value);
            }
        }
    }
}

/// A text with a space in place of each hyphen, underscore and dot.
pub open spec fn spaced(s: Seq<char>) -> Seq<char> {
    Seq::new(
        s.len(),
        |i: int|
            if s[i] == '-' || s[i] == '_' || s[i] == '.' {
                ' '
            } else {
                s[i]
            },
    )
}

fn spaced_of(s: &str) -> (r: String)
    ensures
        r@ == spaced(s@),
{
    let v = chars_of(s);
    let mut t = String::new();
    for i in 0..v.len()
        invariant
            v@ == s@,
            t@ == spaced(s@).take(i as int),
    {
        let c = if v[i] == '-' || v[i] == '_' || v[i] == '.' {
            ' '
        } else {
            v[i]
        };
        t.push(c);
        assert(spaced(s@).take(i + 1) =~= spaced(s@).take(i as int).push(spaced(s@)[i as int]));
    }
    assert(spaced(s@).take(v@.len() as int) =~= spaced(s@));
    t
}

/// The names a window's application may have on the accessibility bus: its title, its
/// class, and its id in three forms.
pub open spec fn names_for(window: WindowInfo) -> Seq<Seq<char>> {
    let base = with_candidate(
        with_candidate(Seq::empty(), text_of(window.title)),
        text_of(window.wm_class),
    );
    if !is_filled(text_of(window.app_id)) {
        base
    } else {
        let app_id = trim(window.app_id->0@);
        if starts_with(app_id, "window:"@) {
            base
        } else {
            let with_id = with_candidate(base, Some(app_id));
            if ends_with(app_id, ".desktop"@) {
                let bare = app_id.take(app_id.len() - 8);
                with_candidate(with_candidate(with_id, Some(bare)), Some(spaced(bare)))
            } else {
                with_candidate(with_id, Some(spaced(app_id)))
            }
        }
    }
}

/// The names a window's application may have on the accessibility bus.
pub fn accessibility_filter_candidates(window_context: Option<&WindowInfo>) -> (r: Vec<String>)
    ensures
        texts(r@) == match window_context {
            Some(window) => names_for(*window),
            None => Seq::empty(),
        },
{
    let mut candidates: Vec<String> = Vec::new();
    assert(texts(candidates@) =~= Seq::empty());
    let window = match window_context {
        Some(window) => window,
        None => return candidates,
    };
    push_candidate(&mut candidates, crate::text::borrowed(&window.title));
    push_candidate(&mut candidates, crate::text::borrowed(&window.wm_class));
    if let Some(app_id) = &window.app_id {
        if !blank(app_id) {
            let app_id = trimmed(app_id);
            if !begins_with(&app_id, "window:") {
                push_candidate(&mut candidates, Some(&app_id));
                if finishes_with(&app_id, ".desktop") {
                    proof {
                        reveal_strlit(".desktop");
                    }
                    let v = chars_of(&app_id);
                    let bare = string_of(&v, 0, v.len() - 8);
                    assert(bare@ =~= app_id@.take(app_id@.len() - 8));
                    push_candidate(&mut candidates, Some(&bare));
                    push_candidate(&mut candidates, Some(&spaced_of(&bare)));
                } else {
                    push_candidate(&mut candidates, Some(&spaced_of(&app_id)));
                }
            }
        }
    }
    candidates
}

/// The predicate of being an application of a process.
pub open spec fn app_of(pid: u32) -> spec_fn(AccessibleAppSummary) -> bool {
    |app: AccessibleAppSummary| app.pid == Some(pid)
}

/// Whether an application's name contains a candidate but for letter case.
pub open spec fn is_named_like(app: AccessibleAppSummary, candidates: Seq<Seq<char>>) -> bool {
    let name = match app.name {
        Some(name) => lower(name@),
        None => lower(""@),
    };
    exists|i: int|
        0 <= i < candidates.len() && (#[trigger] candidates[i]).len() > 0 && contains(
            name,
            lower(candidates[i]),
        )
}

/// The predicate of being an application of a process, named like a candidate.
pub open spec fn app_of_named(pid: u32, candidates: Seq<Seq<char>>) -> spec_fn(
    AccessibleAppSummary,
) -> bool {
    |app: AccessibleAppSummary| app.pid == Some(pid) && is_named_like(app, candidates)
}

/// The application of a process: its only one, or the first that is named like a
/// candidate, or its first.
pub open spec fn app_meant(
    apps: Seq<AccessibleAppSummary>,
    pid: u32,
    candidates: Seq<Seq<char>>,
) -> Option<int> {
    let of_pid = matching(apps, app_of(pid));
    let named = matching(apps, app_of_named(pid, candidates));
    if of_pid.len() == 0 {
        None
    } else if of_pid.len() == 1 || named.len() == 0 {
        Some(of_pid[0])
    } else {
        Some(named[0])
    }
}

fn named_like(app: &AccessibleAppSummary, candidates: &[String]) -> (r: bool)
    ensures
        r == is_named_like(*app, texts(candidates@)),
{
    let name = match &app.name {
        Some(name) => lowered(name),
        None => lowered(""),
    };
    let ghost all = texts(candidates@);
    for i in 0..candidates.len()
        invariant
            all == texts(candidates@),
            name@ == match app.name {
                Some(name) => lower(name@),
                None => lower(""@),
            },
            forall|k: int|
                0 <= k < i ==> !((#[trigger] all[k]).len() > 0 && contains(name@, lower(all[k]))),
    {
        assert(all[i as int] == candidates@[i as int]@);
        if !candidates[i].as_str().is_empty() && includes(&name, &lowered(&candidates[i])) {
            assert(all[i as int].len() > 0 && contains(name@, lower(all[i as int])));
            return true;
        }
    }
    false
}

/// The reference of the application of a process.
pub fn select_accessibility_object_ref(
    apps: &[AccessibleAppSummary],
    target_pid: u32,
    candidates: &[String],
) -> (r: Option<String>)
    ensures
        match app_meant(apps@, target_pid, texts(candidates@)) {
            Some(k) => r == Some(apps@[k].object_ref),
            None => r is None,
        },
{
    let is_of = |app: &AccessibleAppSummary| -> (b: bool)
        ensures
            b == app_of(target_pid)(*app),
        {
            match app.pid {
                Some(pid) => pid == target_pid,
                None => false,
            }
        };
    let of_pid = matching_items(apps, is_of, Ghost(app_of(target_pid)));
    assert(crate::select::positions(of_pid@).len() == of_pid@.len());
    if of_pid.len() == 0 {
        return None;
    }
    assert(crate::select::positions(of_pid@)[0] == of_pid@[0]);
    assert(of_pid@[0] < apps@.len());
    if of_pid.len() == 1 {
        return Some(apps[of_pid[0]].object_ref.clone());
    }
    let is_named = |app: &AccessibleAppSummary| -> (b: bool)
        ensures
            b == app_of_named(target_pid, texts(candidates@))(*app),
        {
            match app.pid {
                Some(pid) => pid == target_pid && named_like(app, candidates),
                None => false,
            }
        };
    let named = matching_items(
        apps,
        is_named,
        Ghost(app_of_named(target_pid, texts(candidates@))),
    );
    assert(crate::select::positions(named@).len() == named@.len());
    if named.len() > 0 {
        assert(crate::select::positions(named@)[0] == named@[0]);
        assert(named@[0] < apps@.len());
        Some(apps[named[0]].object_ref.clone())
    } else {
        Some(apps[of_pid[0]].object_ref.clone())
    }
}

/// The process whose tree is read: the window's, or else the one the caller named.
pub open spec fn pid_meant(window: Option<WindowInfo>, requested: Option<u32>) -> Option<u32> {
    if window is Some && window->0.pid is Some {
        window->0.pid
    } else {
        requested
    }
}

/// The process whose tree is read.
pub fn target_pid(window: Option<&WindowInfo>, requested: Option<u32>) -> (r: Option<u32>)
    ensures
        r == pid_meant(deref(window), requested),
{
    match window {
        Some(window) => match window.pid {
            Some(pid) => Some(pid),
            None => requested,
        },
        None => requested,
    }
}

/// What the tree is filtered by: the application the caller named, or the one found for
/// the process, or the first name it may have.
pub fn accessibility_app_filter(
    explicit: Option<&str>,
    found: Option<String>,
    candidates: &[String],
) -> (r: Option<String>)
    ensures
        text_of(r) == if is_filled(crate::elements::str_of(explicit)) {
            Some(trim(explicit->0@))
        } else if found is Some {
            Some(found->0@)
        } else if candidates@.len() > 0 {
            Some(candidates@[0]@)
        } else {
            None
        },
{
    if let Some(explicit) = explicit {
        if !blank(explicit) {
            return Some(trimmed(explicit));
        }
    }
    match found {
        Some(found) => Some(found),
        None => if candidates.len() > 0 {
            Some(candidates[0].clone())
        } else {
            None
        },
    }
}

/// The names the application of a window may have, where there is a window.
pub open spec fn names_meant(window: Option<WindowInfo>) -> Seq<Seq<char>> {
    match window {
        Some(window) => names_for(window),
        None => Seq::empty(),
    }
}

/// Whether the applications on the accessibility bus decide what the tree is filtered by:
/// none is named, and a process is known.
pub open spec fn apps_decide(
    explicit: Option<Seq<char>>,
    window: Option<WindowInfo>,
    requested: Option<u32>,
) -> bool {
    !is_filled(explicit) && pid_meant(window, requested) is Some
}

/// What the tree is filtered by: the application the caller named, or the one of the
/// process among those on the bus, or the first name it may have.
pub open spec fn filter_meant(
    explicit: Option<Seq<char>>,
    window: Option<WindowInfo>,
    requested: Option<u32>,
    apps: Option<Seq<AccessibleAppSummary>>,
) -> Option<Seq<char>> {
    let names = names_meant(window);
    let meant = app_meant(apps->0, pid_meant(window, requested)->0, names);
    if is_filled(explicit) {
        Some(trim(explicit->0))
    } else if apps_decide(explicit, window, requested) && apps is Some && meant is Some {
        Some(apps->0[meant->0].object_ref@)
    } else if names.len() > 0 {
        Some(names[0])
    } else {
        None
    }
}

/// Whether the applications on the accessibility bus decide what the tree is filtered by.
pub fn needs_accessible_apps(
    explicit: Option<&str>,
    window: Option<&WindowInfo>,
    requested: Option<u32>,
) -> (r: bool)
    ensures
        r == apps_decide(crate::elements::str_of(explicit), deref(window), requested),
{
    let named = match explicit {
        Some(explicit) => !blank(explicit),
        None => false,
    };
    !named && target_pid(window, requested).is_some()
}

/// What the tree is filtered by, given the applications on the bus where they are known.
pub fn resolve_accessibility_app_filter(
    explicit: Option<&str>,
    window: Option<&WindowInfo>,
    requested: Option<u32>,
    apps: Option<&Vec<AccessibleAppSummary>>,
) -> (r: Option<String>)
    ensures
        text_of(r) == filter_meant(
            crate::elements::str_of(explicit),
            deref(window),
            requested,
            match apps {
                Some(apps) => Some(apps@),
                None => None,
            },
        ),
{
    let candidates = accessibility_filter_candidates(window);
    let found = match (target_pid(window, requested), apps) {
        (Some(pid), Some(apps)) => select_accessibility_object_ref(apps, pid, &candidates),
        _ => None,
    };
    assert(candidates@.len() > 0 ==> texts(candidates@)[0] == candidates@[0]@);
    accessibility_app_filter(explicit, found, &candidates)
}

/// Some process numbers, separated by commas.
pub open spec fn pid_list(pids: Seq<u32>) -> Seq<char> {
    join(pids.map_values(|pid: u32| decimal(pid as int)), ", "@)
}

/// What is said of a tree that came from another process than the window's.
pub open spec fn cross_process_words(window: WindowInfo, root_pids: Seq<u32>) -> Option<Seq<char>> {
    match window.pid {
        Some(pid) => if root_pids.len() == 0 || root_pids.contains(pid) {
            None
        } else {
            Some(
                "WARNING: the accessibility tree came from pid "@ + pid_list(root_pids)
                    + ", not the target window's process (pid "@ + decimal(pid as int)
                    + "), so the tree and window_context describe different applications; the AT-SPI application was matched by name because that pid exposes none. Element coordinates are offset by this window's origin, which is only right if they are the same application."@,
            )
        },
        None => None,
    }
}

/// The warning for a tree that came from a different process than the window
/// the caller targeted.
///
/// It happens because the AT-SPI application is looked up by pid first and by
/// name second, and the name fallback is what makes a wrapper, a Flatpak or
/// any app whose window pid is not its bus pid readable at all. So the
/// fallback stays and says so, rather than answering with a tree from an
/// application the caller never named while `window_context` describes
/// another one.
pub fn cross_process_tree_note(window: &WindowInfo, root_pids: &[u32]) -> (r: Option<String>)
    ensures
        text_of(r) == cross_process_words(*window, root_pids@),
{
    broadcast use texts_push;

    let window_pid: u32 = match window.pid {
        Some(pid) => pid,
        None => return None,
    };
    if root_pids.len() == 0 {
        return None;
    }
    let ghost all = root_pids@.map_values(|pid: u32| decimal(pid as int));
    let mut pids: Vec<String> = Vec::new();
    assert(texts(pids@) =~= all.take(0));
    for i in 0..root_pids.len()
        invariant
            window.pid == Some(window_pid),
            all == root_pids@.map_values(|pid: u32| decimal(pid as int)),
            texts(pids@) == all.take(i as int),
            forall|k: int| 0 <= k < i ==> #[trigger] root_pids@[k] != window_pid,
    {
        broadcast use texts_push;

        if root_pids[i] == window_pid {
            assert(root_pids@.contains(window_pid));
            return None;
        }
        pids.push(decimal_of(root_pids[i] as u64));
        assert(all.take(i + 1) =~= all.take(i as int).push(all[i as int]));
    }
    assert(all.take(root_pids@.len() as int) =~= all);
    let mut note = cat("WARNING: the accessibility tree came from pid ", &joined(&pids, ", "));
    note.append(", not the target window's process (pid ");
    note.append(&decimal_of(window_pid as u64));
    note.append(
        "), so the tree and window_context describe different applications; the AT-SPI application was matched by name because that pid exposes none. Element coordinates are offset by this window's origin, which is only right if they are the same application.",
    );
    Some(note)
}

proof fn first_white_is_first(s: Seq<char>)
    ensures
        match first_white(s) {
            Some(k) => 0 <= k < s.len() && is_white(s[k]) && forall|j: int|
                0 <= j < k ==> !is_white(#[trigger] s[j]),
            None => forall|j: int| 0 <= j < s.len() ==> !is_white(#[trigger] s[j]),
        },
    decreases s.len(),
{
    if s.len() > 0 {
        let rest = s.drop_last();
        first_white_is_first(rest);
        assert forall|j: int| 0 <= j < rest.len() implies #[trigger] s[j] == rest[j] by {}
    }
}

proof fn first_white_is_at(s: Seq<char>, k: int)
    requires
        0 <= k < s.len(),
        is_white(s[k]),
        forall|j: int| 0 <= j < k ==> !is_white(#[trigger] s[j]),
    ensures
        first_white(s) == Some(k),
{
    first_white_is_first(s);
    if first_white(s) is Some {
        let found = first_white(s)->0;
        if found > k {
            assert(!is_white(s[k]));
        }
    } else {
        assert(!is_white(s[k]));
    }
}

/// A line that writes a number, a name and a command, with a space between each two, tells of
/// the process of that number, name and command.
pub proof fn a_line_tells_of_the_process_it_writes(pid: u32, name: Seq<char>, command: Seq<char>)
    requires
        name.len() > 0,
        forall|i: int| 0 <= i < name.len() ==> !is_white(#[trigger] name[i]),
        command.len() > 0,
        !is_white(command[0]),
        !is_white(command.last()),
    ensures
        process_in(decimal(pid as int) + seq![' '] + name + seq![' '] + command) == Some(
            (pid as int, name, command),
        ),
{
    let number = decimal(pid as int);
    let line = number + seq![' '] + name + seq![' '] + command;
    digits_are_visible(pid as int, 10);
    decimal_reads_back(pid as int, 0, u32::MAX as int);
    assert(line[0] == number[0] && line.last() == command.last());
    trim_keeps(line);
    let i = number.len() as int;
    assert(line[i] == ' ');
    assert forall|j: int| 0 <= j < i implies !is_white(#[trigger] line[j]) by {
        assert(line[j] == number[j]);
    }
    first_white_is_at(line, i);
    assert(line.take(i) =~= number);
    let rest = line.skip(i + 1);
    let k = name.len() as int;
    assert(rest =~= name + seq![' '] + command);
    assert(rest[k] == ' ');
    assert forall|j: int| 0 <= j < k implies !is_white(#[trigger] rest[j]) by {
        assert(rest[j] == name[j]);
    }
    first_white_is_at(rest, k);
    assert(rest.take(k) =~= name);
    assert(rest.skip(k + 1) =~= command);
    trim_keeps(command);
}

/// A process looks like a desktop application exactly where its name or its command holds one
/// of the known names, but for the case of ASCII letters; or where one stands across both.
pub proof fn a_desktop_app_is_told_by_its_name(name: Seq<char>, command: Seq<char>)
    ensures
        ({
            let words = lower(name + " "@ + command);
            is_desktop_app(name, command) <==> contains(words, "codex"@) || contains(
                words,
                "electron"@,
            ) || contains(words, "chrome"@) || contains(words, "chromium"@) || contains(
                words,
                "firefox"@,
            ) || contains(words, "brave"@) || contains(words, "code"@) || contains(
                words,
                "gnome-terminal"@,
            ) || contains(words, "ptyxis"@) || contains(words, "kgx"@) || contains(
                words,
                "nautilus"@,
            ) || contains(words, "slack"@) || contains(words, "discord"@) || contains(
                words,
                "spotify"@,
            ) || contains(words, "obsidian"@)
        }),
{
}

/// The applications listed are processes the list tells of that look like one, fifty at most;
/// while there are fewer, every such process is among them.
pub proof fn the_apps_listed_are_those_that_look_like_one(all: Seq<Seq<char>>)
    ensures
        apps_in(all).len() <= 50,
        forall|k: int|
            0 <= k < apps_in(all).len() ==> exists|i: int|
                0 <= i < all.len() && process_in(#[trigger] all[i]) == Some(
                    #[trigger] apps_in(all)[k],
                ) && is_desktop_app(apps_in(all)[k].1, apps_in(all)[k].2),
        forall|i: int|
            0 <= i < all.len() && process_in(#[trigger] all[i]) is Some && is_desktop_app(
                (process_in(all[i])->0).1,
                (process_in(all[i])->0).2,
            ) && apps_in(all).len() < 50 ==> apps_in(all).contains(process_in(all[i])->0),
    decreases all.len(),
{
    if all.len() > 0 {
        let rest = all.drop_last();
        let before = apps_in(rest);
        let listed = apps_in(all);
        the_apps_listed_are_those_that_look_like_one(rest);
        assert forall|k: int| 0 <= k < listed.len() implies exists|i: int|
            0 <= i < all.len() && process_in(#[trigger] all[i]) == Some(#[trigger] listed[k])
                && is_desktop_app(listed[k].1, listed[k].2) by {
            if k < before.len() {
                assert(listed[k] == before[k]);
                let i = choose|i: int|
                    0 <= i < rest.len() && process_in(#[trigger] rest[i]) == Some(before[k])
                        && is_desktop_app(before[k].1, before[k].2);
                assert(all[i] == rest[i]);
            } else {
                assert(process_in(all[all.len() - 1]) == Some(listed[k]));
            }
        }
        assert forall|i: int|
            0 <= i < all.len() && process_in(#[trigger] all[i]) is Some && is_desktop_app(
                (process_in(all[i])->0).1,
                (process_in(all[i])->0).2,
            ) && listed.len() < 50 implies listed.contains(process_in(all[i])->0) by {
            let app = process_in(all[i])->0;
            if i < rest.len() {
                assert(all[i] == rest[i]);
                assert(before.contains(app));
                let k = choose|k: int| 0 <= k < before.len() && before[k] == app;
                assert(listed[k] == app);
            } else {
                assert(listed[listed.len() - 1] == app);
            }
        }
    }
}

/// The name an application is looked for by first is its window's title; then its class, then
/// its id: each without the whitespace around it, and none twice.
pub proof fn a_windows_title_is_the_first_name(window: WindowInfo)
    ensures
        window.title is Some && !is_blank(window.title->0@) ==> names_for(window).len() > 0
            && names_for(window)[0] == trim(window.title->0@),
        window.wm_class is Some && !is_blank(window.wm_class->0@) ==> names_for(window).contains(
            trim(window.wm_class->0@),
        ),
        window.app_id is Some && !is_blank(window.app_id->0@) && !starts_with(
            trim(window.app_id->0@),
            "window:"@,
        ) ==> names_for(window).contains(trim(window.app_id->0@)),
        window.title is None && window.wm_class is None && window.app_id is None ==> names_for(
            window,
        ).len() == 0,
{
    let none = Seq::<Seq<char>>::empty();
    let titled = with_candidate(none, text_of(window.title));
    let base = with_candidate(titled, text_of(window.wm_class));
    adding_a_candidate_keeps_the_others(none, text_of(window.title));
    adding_a_candidate_keeps_the_others(titled, text_of(window.wm_class));
    if window.app_id is Some {
        let app_id = trim(window.app_id->0@);
        trimming_cuts_only_white(window.app_id->0@);
        trim_keeps(app_id);
        let with_id = with_candidate(base, Some(app_id));
        adding_a_candidate_keeps_the_others(base, Some(app_id));
        adding_a_candidate_keeps_the_others(with_id, Some(spaced(app_id)));
        let bare = app_id.take(app_id.len() - 8);
        adding_a_candidate_keeps_the_others(with_id, Some(bare));
        adding_a_candidate_keeps_the_others(
            with_candidate(with_id, Some(bare)),
            Some(spaced(bare)),
        );
    }
}

proof fn adding_a_candidate_keeps_the_others(list: Seq<Seq<char>>, value: Option<Seq<char>>)
    ensures
        with_candidate(list, value).len() >= list.len(),
        forall|i: int| 0 <= i < list.len() ==> #[trigger] with_candidate(list, value)[i] == list[i],
        forall|text: Seq<char>|
            list.contains(text) ==> #[trigger] with_candidate(list, value).contains(text),
        value is Some && !is_blank(value->0) ==> with_candidate(list, value).contains(
            trim(value->0),
        ),
        value is Some && !is_blank(value->0) && list.len() == 0 ==> with_candidate(list, value)
            == seq![trim(value->0)],
        value is None ==> with_candidate(list, value) == list,
{
    let longer = with_candidate(list, value);
    assert forall|text: Seq<char>| list.contains(text) implies #[trigger] longer.contains(text) by {
        let i = choose|i: int| 0 <= i < list.len() && list[i] == text;
        assert(longer[i] == text);
    }
    if value is Some && !is_blank(value->0) && !list.contains(trim(value->0)) {
        assert(longer[list.len() as int] == trim(value->0));
    }
    if list.len() == 0 {
        assert(list =~= Seq::empty());
        assert(longer =~= if value is Some && !is_blank(value->0) {
            seq![trim(value->0)]
        } else {
            Seq::empty()
        });
    }
}

/// The application of a process is one of that process; where several are and one is named
/// like the window, it is so named; and there is one wherever the process has any.
pub proof fn an_app_is_one_of_the_process(
    apps: Seq<AccessibleAppSummary>,
    pid: u32,
    candidates: Seq<Seq<char>>,
)
    ensures
        match app_meant(apps, pid, candidates) {
            Some(k) => {
                &&& 0 <= k < apps.len()
                &&& apps[k].pid == Some(pid)
                &&& (exists|j: int|
                    0 <= j < apps.len() && (#[trigger] apps[j]).pid == Some(pid) && is_named_like(
                        apps[j],
                        candidates,
                    )) && (exists|j: int|
                    0 <= j < apps.len() && j != k && (#[trigger] apps[j]).pid == Some(pid))
                    ==> is_named_like(apps[k], candidates)
            },
            None => forall|j: int| 0 <= j < apps.len() ==> (#[trigger] apps[j]).pid != Some(pid),
        },
{
    let of_pid = matching(apps, app_of(pid));
    let named = matching(apps, app_of_named(pid, candidates));
    matching_is_exact(apps, app_of(pid));
    matching_is_exact(apps, app_of_named(pid, candidates));
    assert forall|j: int| 0 <= j < apps.len() && (#[trigger] apps[j]).pid == Some(
        pid,
    ) implies of_pid.contains(j) by {}
    assert forall|j: int|
        0 <= j < apps.len() && (#[trigger] apps[j]).pid == Some(pid) && is_named_like(
            apps[j],
            candidates,
        ) implies named.contains(j) by {}
    if of_pid.len() > 0 {
        assert(of_pid.contains(of_pid[0]));
    }
    if named.len() > 0 {
        assert(named.contains(named[0]));
    }
    if of_pid.len() == 1 {
        assert forall|j: int| 0 <= j < apps.len() && (#[trigger] apps[j]).pid == Some(
            pid,
        ) implies j == of_pid[0] by {
            assert(of_pid.contains(j));
        }
    }
}

/// A tree is read of the window's own process, and of the one the caller names only where the
/// window's is not known; and by the application the caller names, whatever else is known.
pub proof fn what_the_caller_names_decides(
    explicit: Seq<char>,
    window: Option<WindowInfo>,
    requested: Option<u32>,
    apps: Option<Seq<AccessibleAppSummary>>,
)
    ensures
        window is Some && window->0.pid is Some ==> pid_meant(window, requested) == window->0.pid,
        window is None || window->0.pid is None ==> pid_meant(window, requested) == requested,
        !is_blank(explicit) ==> filter_meant(Some(explicit), window, requested, apps) == Some(
            trim(explicit),
        ),
        apps is Some && pid_meant(window, requested) is Some ==> {
            let k = app_meant(
                apps->0,
                pid_meant(window, requested)->0,
                match window {
                    Some(window) => names_for(window),
                    None => Seq::empty(),
                },
            );
            k is Some ==> filter_meant(None, window, requested, apps) == Some(
                apps->0[k->0].object_ref@,
            )
        },
        window is None && requested is None ==> filter_meant(None, window, requested, apps) is None,
{
}

/// A tree is said to be another process's exactly where it has roots, the window's process is
/// known, and no root is of it.
pub proof fn only_another_processs_tree_is_noted(window: WindowInfo, root_pids: Seq<u32>)
    ensures
        cross_process_words(window, root_pids) is Some <==> window.pid is Some && root_pids.len()
            > 0 && forall|i: int|
            0 <= i < root_pids.len() ==> #[trigger] root_pids[i] != window.pid->0,
{
}

/// An application is named like a window where its name holds one of the window's names, but
/// for the case of ASCII letters.
pub proof fn an_app_is_named_like_what_its_name_holds(
    app: AccessibleAppSummary,
    candidates: Seq<Seq<char>>,
)
    requires
        app.name is Some,
    ensures
        is_named_like(app, candidates) <==> exists|i: int|
            0 <= i < candidates.len() && (#[trigger] candidates[i]).len() > 0 && contains(
                lower(app.name->0@),
                lower(candidates[i]),
            ),
{
}

/// A name with its separators spaced has a space in place of each hyphen, underscore and dot,
/// and every other character as it was.
pub proof fn only_separators_are_spaced(s: Seq<char>)
    ensures
        spaced(s).len() == s.len(),
        forall|i: int|
            0 <= i < s.len() && (s[i] == '-' || s[i] == '_' || s[i] == '.') ==> #[trigger] spaced(
                s,
            )[i] == ' ',
        forall|i: int|
            0 <= i < s.len() && s[i] != '-' && s[i] != '_' && s[i] != '.' ==> #[trigger] spaced(
                s,
            )[i] == s[i],
{
}

} // verus!
