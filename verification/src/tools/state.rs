//! `get_app_state`: the window meant, the tree read, and what is said of both.

use vstd::prelude::*;
use vstd::string::StringExecFns;
use crate::apps::{
    apps_decide, cross_process_tree_note, cross_process_words, filter_meant, needs_accessible_apps,
    resolve_accessibility_app_filter, AccessibleAppSummary,
};
use crate::cache::{
    bounds_are_window_relative, bounds_for, deref, follows_window, CachedBounds, CachedTree,
    WindowContextSource,
};
use crate::elements::AccessibilityNode;
use crate::geometry::cache_desktop_size;
use crate::numerals::{decimal, decimal_of};
use crate::params::GetAppStateParams;
use crate::screenshot::{prepares, CaptureError, RawScreenshotCapture, ScreenshotCapture};
use crate::text::{borrowed, cat, text_of};
use crate::tools::capture::{
    app_state_crop, crop_meant, is_shown, part_shown, prepare_app_state_screenshot, size_after,
};
use crate::tools::wait::{tied_window, window_of_tree};
use crate::tree::{
    apply_stable_indices, can_be_seen, compact, compact_accessibility_tree,
    compacting_drops_nothing_that_can_be_acted_on, compacting_drops_nothing_that_can_be_seen,
    is_the_node_read, number_all_is_wf, parents_end, refs_of, renumbered,
    renumbering_changes_only_numbers, Numbering, StableElementIndices,
};
use crate::windowing::target::{
    permission_hint, resolve_window_target, resolved, window_permission_hint,
};
use crate::windowing::types::{WindowInfo, WindowTarget};

verus! {

/// How many nodes of a tree are inspected unless told otherwise.
pub const DEFAULT_MAX_NODES: usize = 1_000;

/// How many nodes of a tree are inspected at most.
pub const HARD_MAX_NODES: usize = 2_000;

/// How deep a tree is inspected unless told otherwise.
pub const DEFAULT_MAX_DEPTH: u32 = 32;

/// How deep a tree is inspected at most.
pub const HARD_MAX_DEPTH: u32 = 64;

/// How many nodes of a tree are inspected.
pub open spec fn nodes_meant(max_nodes: Option<usize>) -> int {
    crate::geometry::min(
        match max_nodes {
            Some(n) => n as int,
            None => DEFAULT_MAX_NODES as int,
        },
        HARD_MAX_NODES as int,
    )
}

/// How deep a tree is inspected.
pub open spec fn depth_meant(max_depth: Option<u32>) -> int {
    crate::geometry::min(
        match max_depth {
            Some(n) => n as int,
            None => DEFAULT_MAX_DEPTH as int,
        },
        HARD_MAX_DEPTH as int,
    )
}

/// How much of a tree is inspected: so many nodes, so deep.
pub fn snapshot_limits(max_nodes: Option<usize>, max_depth: Option<u32>) -> (r: (usize, u32))
    ensures
        r.0 == nodes_meant(max_nodes),
        r.1 == depth_meant(max_depth),
{
    let nodes: usize = match max_nodes {
        Some(n) => n,
        None => DEFAULT_MAX_NODES,
    };
    let depth: u32 = match max_depth {
        Some(n) => n,
        None => DEFAULT_MAX_DEPTH,
    };
    (
        if nodes <= HARD_MAX_NODES {
            nodes
        } else {
            HARD_MAX_NODES
        },
        if depth <= HARD_MAX_DEPTH {
            depth
        } else {
            HARD_MAX_DEPTH
        },
    )
}

/// The window a caller means, or why there is none.
#[derive(Debug)]
pub struct WindowContext {
    pub window: Option<WindowInfo>,
    pub error: Option<String>,
    pub permissions_hint: Option<String>,
}

/// Whether a context is that of a target among the windows listed: nothing where none is
/// named, the window where one is found, and else the reason.
pub open spec fn is_context(
    context: WindowContext,
    target: WindowTarget,
    listed: Result<Vec<WindowInfo>, String>,
) -> bool {
    if !target.names_window() {
        context.window is None && context.error is None && context.permissions_hint is None
    } else {
        match listed {
            Ok(windows) => match resolved(windows@, target) {
                Ok(k) => context.window == Some(windows@[k]) && context.error is None
                    && context.permissions_hint is None,
                Err(message) => context.window is None && text_of(context.error) == Some(message)
                    && context.permissions_hint is None,
            },
            Err(error) => context.window is None && context.error == Some(error) && text_of(
                context.permissions_hint,
            ) == permission_hint(error@),
        }
    }
}

/// The window a caller means.
pub fn resolve_window_context(target: &WindowTarget, listed: Result<Vec<WindowInfo>, String>) -> (r:
    WindowContext)
    ensures
        is_context(r, *target, listed),
{
    if !target.has_target() {
        return WindowContext { window: None, error: None, permissions_hint: None };
    }
    match listed {
        Ok(windows) => match resolve_window_target(&windows, target) {
            Ok(window) => WindowContext {
                window: Some(window.clone()),
                error: None,
                permissions_hint: None,
            },
            Err(message) => WindowContext {
                window: None,
                error: Some(message),
                permissions_hint: None,
            },
        },
        Err(error) => {
            let permissions_hint = window_permission_hint(&error);
            WindowContext { window: None, error: Some(error), permissions_hint }
        },
    }
}

/// A tree as it was walked, and the processes its roots belong to.
#[derive(Debug)]
pub struct TreeSnapshot {
    pub nodes: Vec<AccessibilityNode>,
    pub root_pids: Vec<u32>,
}

/// A tree as it is returned.
#[derive(Debug)]
pub struct TreeRead {
    pub nodes: Vec<AccessibilityNode>,
    /// How many nodes there were before compacting.
    pub raw_count: usize,
    pub root_pids: Vec<u32>,
    pub error: Option<String>,
}

/// What is said of a tree that was not asked for, because nothing would answer.
pub const ACCESSIBILITY_DISABLED: &'static str =
    "AT-SPI accessibility is disabled; call setup_accessibility first.";

/// Whether a tree is what a walk is returned as: compact, every element under the index it
/// keeps. `before` and `after` are how the elements are numbered.
pub open spec fn is_read(
    read: TreeRead,
    walked: Result<TreeSnapshot, String>,
    before: Numbering,
    after: Numbering,
) -> bool {
    match walked {
        Ok(walked) => {
            let numbering = before.number_all(refs_of(compact(walked.nodes@)));
            &&& after == numbering.0
            &&& read.nodes@ == renumbered(compact(walked.nodes@), numbering.1)
            &&& read.raw_count == walked.nodes@.len()
            &&& read.root_pids == walked.root_pids
            &&& read.error is None
        },
        Err(error) => {
            &&& after == before
            &&& read.nodes@.len() == 0
            &&& read.raw_count == 0
            &&& read.root_pids@.len() == 0
            &&& read.error == Some(error)
        },
    }
}

/// A tree as it is returned: compact, every element under the index it keeps. There is none
/// where the walk failed.
pub fn read_tree(walked: Result<TreeSnapshot, String>, indices: &mut StableElementIndices) -> (r:
    TreeRead)
    requires
        old(indices).wf(),
        walked is Ok ==> walked->Ok_0.nodes@.len() <= i32::MAX && parents_end(walked->Ok_0.nodes@),
    ensures
        final(indices).wf(),
        is_read(r, walked, old(indices).view(), final(indices).view()),
{
    match walked {
        Ok(walked) => {
            let raw_count: usize = walked.nodes.len();
            let mut nodes = compact_accessibility_tree(walked.nodes);
            apply_stable_indices(indices, &mut nodes);
            TreeRead { nodes, raw_count, root_pids: walked.root_pids, error: None }
        },
        Err(error) => TreeRead {
            nodes: Vec::new(),
            raw_count: 0,
            root_pids: Vec::new(),
            error: Some(error),
        },
    }
}

/// Whether a tree is what is returned where accessibility is disabled.
pub open spec fn is_disabled(read: TreeRead) -> bool {
    read.nodes@.len() == 0 && read.raw_count == 0 && read.root_pids@.len() == 0 && text_of(
        read.error,
    ) == Some(ACCESSIBILITY_DISABLED@)
}

/// The tree that is returned where accessibility is disabled.
pub fn disabled_tree() -> (r: TreeRead)
    ensures
        is_disabled(r),
{
    TreeRead {
        nodes: Vec::new(),
        raw_count: 0,
        root_pids: Vec::new(),
        error: Some(ACCESSIBILITY_DISABLED.to_owned()),
    }
}

/// Remember a tree that was read, or forget the last one where none was.
pub fn remember_tree(
    cache: &mut CachedTree,
    nodes: Vec<AccessibilityNode>,
    failed: bool,
    window: Option<&WindowInfo>,
)
    ensures
        failed ==> final(cache).nodes@.len() == 0 && final(cache).bounds == CachedBounds::Desktop,
        !failed ==> final(cache).nodes == nodes && final(cache).bounds == bounds_for(
            nodes@,
            deref(window),
        ),
{
    if failed {
        cache.clear_cached_nodes();
    } else {
        cache.cache_tree(nodes, window);
    }
}

/// What came of the screenshot beside a tree.
#[derive(Debug)]
pub enum ScreenshotOutcome {
    /// It was captured through this.
    Captured(String),
    Failed(String),
    NotRequested,
}

/// What `get_app_state` found.
#[derive(Debug)]
pub struct AppStateFacts {
    pub tree_error: Option<String>,
    pub nodes: usize,
    pub raw_count: usize,
    pub root_pids: Vec<u32>,
    pub screenshot: ScreenshotOutcome,
    /// The window that was named.
    pub window: Option<WindowInfo>,
    pub window_error: Option<String>,
    /// The window the tree's bounds are tied to.
    pub bounds_window: Option<WindowInfo>,
    /// Whether the full diagnostics are returned.
    pub verbose: bool,
}

/// What is said of the tree and the screenshot.
pub open spec fn capture_words(facts: AppStateFacts) -> Seq<char> {
    let counts = "Captured "@ + decimal(facts.nodes as int)
        + " accessibility nodes (compacted from "@ + decimal(facts.raw_count as int) + ")"@;
    match (facts.tree_error, facts.screenshot) {
        (Some(error), _) =>
        "MCP registration is working, but AT-SPI tree extraction failed: "@ + error@,
        (None, ScreenshotOutcome::Captured(source)) =>
        "MCP registration, screenshot capture, and AT-SPI tree extraction are working. "@ + counts
            + " and a screenshot through "@ + source@ + "."@,
        (None, ScreenshotOutcome::Failed(error)) =>
        "MCP registration and AT-SPI tree extraction are working. "@ + counts
            + ". Screenshot capture failed: "@ + error@,
        (None, ScreenshotOutcome::NotRequested) =>
        "MCP registration and AT-SPI tree extraction are working. "@ + counts
            + ". Screenshot capture was not requested."@,
    }
}

/// What is said of the window.
pub open spec fn context_words(facts: AppStateFacts) -> Seq<char> {
    match (facts.window, facts.window_error, facts.bounds_window) {
        (Some(window), _, _) => " Window target resolved to window_id "@ + decimal(
            window.window_id as int,
        ) + "."@ + match cross_process_words(window, facts.root_pids@) {
            Some(note) => " "@ + note,
            None => seq![],
        },
        (None, Some(error), _) => " Window target resolution failed: "@ + error@,
        (None, None, Some(window)) =>
        " No window target was given; the tree's window-relative bounds were tied to window_id "@
            + decimal(window.window_id as int) + " through the app's own pid."@,
        (None, None, None) => seq![],
    }
}

/// Whether anything failed.
pub open spec fn anything_failed(facts: AppStateFacts) -> bool {
    facts.tree_error is Some || facts.screenshot is Failed || facts.window_error is Some
}

fn describe_capture(facts: &AppStateFacts) -> (r: String)
    ensures
        r@ == capture_words(*facts),
{
    let mut counts = cat("Captured ", &decimal_of(facts.nodes as u64));
    counts.append(" accessibility nodes (compacted from ");
    counts.append(&decimal_of(facts.raw_count as u64));
    counts.append(")");
    match (&facts.tree_error, &facts.screenshot) {
        (Some(error), _) => cat(
            "MCP registration is working, but AT-SPI tree extraction failed: ",
            error,
        ),
        (None, ScreenshotOutcome::Captured(source)) => {
            let mut message = cat(
                "MCP registration, screenshot capture, and AT-SPI tree extraction are working. ",
                &counts,
            );
            message.append(" and a screenshot through ");
            message.append(source);
            message.append(".");
            message
        },
        (None, ScreenshotOutcome::Failed(error)) => {
            let mut message = cat(
                "MCP registration and AT-SPI tree extraction are working. ",
                &counts,
            );
            message.append(". Screenshot capture failed: ");
            message.append(error);
            message
        },
        (None, ScreenshotOutcome::NotRequested) => {
            let mut message = cat(
                "MCP registration and AT-SPI tree extraction are working. ",
                &counts,
            );
            message.append(". Screenshot capture was not requested.");
            message
        },
    }
}

fn describe_context(facts: &AppStateFacts) -> (r: String)
    ensures
        r@ == context_words(*facts),
{
    match (&facts.window, &facts.window_error, &facts.bounds_window) {
        (Some(window), _, _) => {
            let mut message = cat(
                " Window target resolved to window_id ",
                &decimal_of(window.window_id),
            );
            message.append(".");
            match cross_process_tree_note(window, &facts.root_pids) {
                Some(note) => {
                    let tail = cat(" ", &note);
                    message.append(&tail);
                },
                None => {
                    assert(message@ + Seq::<char>::empty() =~= message@);
                },
            }
            message
        },
        (None, Some(error), _) => cat(" Window target resolution failed: ", error),
        (None, None, Some(window)) => {
            let mut message = cat(
                " No window target was given; the tree's window-relative bounds were tied to window_id ",
                &decimal_of(window.window_id),
            );
            message.append(" through the app's own pid.");
            message
        },
        (None, None, None) => String::new(),
    }
}

/// What `get_app_state` says: of the tree and the screenshot, of the window, and, where
/// anything failed, how to learn more.
pub open spec fn state_words(facts: AppStateFacts) -> Seq<char> {
    capture_words(facts) + context_words(facts) + if !facts.verbose && anything_failed(facts) {
        " Pass verbose=true for full diagnostics."@
    } else {
        seq![]
    }
}

/// What `get_app_state` says.
pub fn app_state_message(facts: &AppStateFacts) -> (r: String)
    ensures
        r@ == state_words(*facts),
{
    let mut message = describe_capture(facts);
    message.append(&describe_context(facts));
    let failed = facts.tree_error.is_some() || facts.window_error.is_some()
        || match &facts.screenshot {
        ScreenshotOutcome::Failed(_) => true,
        _ => false,
    };
    if !facts.verbose && failed {
        message.append(" Pass verbose=true for full diagnostics.");
    } else {
        assert(message@ + Seq::<char>::empty() =~= message@);
    }
    message
}

/// What `get_app_state` answers, beside the tree, the screenshot and the readiness.
#[derive(Debug)]
pub struct AppStateReport {
    pub window_context: Option<WindowInfo>,
    pub window_context_source: Option<WindowContextSource>,
    pub window_error: Option<String>,
    pub window_permissions_hint: Option<String>,
    pub message: String,
}

/// Whether the facts are those of a tree, a screenshot and a window.
pub open spec fn are_facts(
    facts: AppStateFacts,
    read: TreeRead,
    screenshot: ScreenshotOutcome,
    context: WindowContext,
    bounds_window: Option<WindowInfo>,
    verbose: bool,
) -> bool {
    &&& facts.tree_error == read.error
    &&& facts.nodes == read.nodes@.len()
    &&& facts.raw_count == read.raw_count
    &&& facts.root_pids@ == read.root_pids@
    &&& facts.screenshot == screenshot
    &&& facts.window == context.window
    &&& facts.window_error == context.error
    &&& facts.bounds_window == bounds_window
    &&& facts.verbose == verbose
}

/// Whether an answer is what everything that was read comes to.
pub open spec fn concludes(
    read: TreeRead,
    screenshot: ScreenshotOutcome,
    context: WindowContext,
    windows: Seq<WindowInfo>,
    verbose: bool,
    r: AppStateReport,
) -> bool {
    &&& r.window_context == tied_window(context.window, read.nodes@, read.root_pids@, windows)
    &&& r.window_context_source == if context.window is Some {
        Some(WindowContextSource::Target)
    } else if r.window_context is Some {
        Some(WindowContextSource::AppPid)
    } else {
        None
    }
    &&& r.window_error == context.error
    &&& r.window_permissions_hint == context.permissions_hint
    &&& exists|facts: AppStateFacts|
        are_facts(facts, read, screenshot, context, r.window_context, verbose) && r.message@
            == #[trigger] state_words(facts)
}

fn copy_pids(pids: &[u32]) -> (r: Vec<u32>)
    ensures
        r@ == pids@,
{
    vstd::slice::slice_to_vec(pids)
}

/// What `get_app_state` answers once everything was read. A tree whose bounds follow its
/// window needs a window even when the caller named none, or every element point stays
/// window-relative and the pointer misses; the tree's own process supplies one from
/// `windows`.
pub fn conclude_app_state(
    read: &TreeRead,
    screenshot: ScreenshotOutcome,
    context: WindowContext,
    windows: &[WindowInfo],
    verbose: bool,
) -> (r: AppStateReport)
    ensures
        concludes(*read, screenshot, context, windows@, verbose, r),
{
    let bounds_window = window_of_tree(&context.window, &read.nodes, &read.root_pids, windows);
    let window_context_source = if context.window.is_some() {
        Some(WindowContextSource::Target)
    } else if bounds_window.is_some() {
        Some(WindowContextSource::AppPid)
    } else {
        None
    };
    let facts = AppStateFacts {
        tree_error: read.error.clone(),
        nodes: read.nodes.len(),
        raw_count: read.raw_count,
        root_pids: copy_pids(&read.root_pids),
        screenshot,
        window: context.window,
        window_error: context.error,
        bounds_window,
        verbose,
    };
    let message = app_state_message(&facts);
    assert(are_facts(facts, *read, screenshot, context, facts.bounds_window, verbose));
    assert(message@ == state_words(facts));
    AppStateReport {
        window_context: facts.bounds_window,
        window_context_source,
        window_error: facts.window_error,
        window_permissions_hint: context.permissions_hint,
        message,
    }
}

impl GetAppStateParams {
    /// Whether the full diagnostics are asked for.
    pub open spec fn wants_all(self) -> bool {
        self.verbose == Some(true)
    }
}

/// What a tree is walked by.
#[derive(Debug)]
pub struct TreeQuery {
    pub filter: Option<String>,
    pub pid: Option<u32>,
    pub max_nodes: usize,
    pub max_depth: u32,
}

/// The screenshot beside a tree.
#[derive(Debug)]
pub enum AppScreenshot {
    Captured(ScreenshotCapture),
    Failed(String),
    NotRequested,
}

/// Whether the facts about a screenshot are its own.
pub open spec fn is_outcome(outcome: ScreenshotOutcome, screenshot: AppScreenshot) -> bool {
    match screenshot {
        AppScreenshot::Captured(capture) => outcome == ScreenshotOutcome::Captured(capture.source),
        AppScreenshot::Failed(error) => outcome == ScreenshotOutcome::Failed(error),
        AppScreenshot::NotRequested => outcome is NotRequested,
    }
}

/// What `get_app_state` answers, beside the tree, which is the one that is cached, and the
/// readiness.
#[derive(Debug)]
pub struct AppState {
    pub report: AppStateReport,
    pub screenshot: AppScreenshot,
    pub raw_count: usize,
    pub tree_error: Option<String>,
}

/// The next thing `get_app_state` does.
#[derive(Debug)]
pub enum AppStateTask {
    /// List the windows.
    List,
    /// List the applications on the accessibility bus.
    Apps { context: WindowContext },
    /// Capture the desktop.
    Capture { context: WindowContext, filter: Option<String> },
    /// Walk the tree.
    Walk { query: TreeQuery, context: WindowContext, screenshot: AppScreenshot },
    /// List the windows, to tie the tree to one.
    Tie { read: TreeRead, context: WindowContext, screenshot: AppScreenshot },
    Done(AppState),
}

/// What came of what `get_app_state` does.
#[derive(Debug)]
pub enum AppStateEvent {
    Listed(Result<Vec<WindowInfo>, String>),
    Apps(Option<Vec<AccessibleAppSummary>>),
    Captured(Result<RawScreenshotCapture, String>),
    Walked(Result<TreeSnapshot, String>),
}

/// Whether an event is one of a task.
pub open spec fn reports_state(task: AppStateTask, event: AppStateEvent) -> bool {
    match task {
        AppStateTask::List => event is Listed,
        AppStateTask::Apps { .. } => event is Apps,
        AppStateTask::Capture { .. } => event is Captured,
        AppStateTask::Walk { .. } => event is Walked,
        AppStateTask::Tie { .. } => event is Listed,
        AppStateTask::Done(_) => false,
    }
}

/// Whether `get_app_state` ends with a tree: what is said of it, and what is remembered.
pub open spec fn ends_state(
    params: GetAppStateParams,
    after: CachedTree,
    read: TreeRead,
    context: WindowContext,
    screenshot: AppScreenshot,
    windows: Seq<WindowInfo>,
    next: AppStateTask,
) -> bool {
    &&& next is Done
    &&& next->Done_0.screenshot == screenshot
    &&& next->Done_0.raw_count == read.raw_count
    &&& next->Done_0.tree_error == read.error
    &&& exists|outcome: ScreenshotOutcome|
        is_outcome(outcome, screenshot) && #[trigger] concludes(
            read,
            outcome,
            context,
            windows,
            params.wants_all(),
            next->Done_0.report,
        )
    &&& if read.error is Some {
        after.nodes@.len() == 0 && after.bounds == CachedBounds::Desktop
    } else {
        after.nodes == read.nodes && after.bounds == bounds_for(
            read.nodes@,
            next->Done_0.report.window_context,
        )
    }
}

/// Whether `get_app_state` goes on from a tree that was read: a tree whose bounds follow a
/// window that was not named is tied to one first.
pub open spec fn ties_state(
    params: GetAppStateParams,
    before: CachedTree,
    after: CachedTree,
    read: TreeRead,
    context: WindowContext,
    screenshot: AppScreenshot,
    next: AppStateTask,
) -> bool {
    if context.window is None && read.root_pids@.len() > 0 && follows_window(read.nodes@) {
        after == before && next is Tie && next->Tie_read == read && next->Tie_context == context
            && next->Tie_screenshot == screenshot
    } else {
        ends_state(params, after, read, context, screenshot, seq![], next)
    }
}

/// Whether `get_app_state` goes on to the tree, which is walked only where it can be built.
pub open spec fn walks_state(
    params: GetAppStateParams,
    can_build: bool,
    before: CachedTree,
    after: CachedTree,
    context: WindowContext,
    filter: Option<Seq<char>>,
    screenshot: AppScreenshot,
    next: AppStateTask,
) -> bool {
    if can_build {
        &&& after == before
        &&& next is Walk
        &&& text_of(next->Walk_query.filter) == filter
        &&& next->Walk_query.pid == match context.window {
            Some(window) => window.pid,
            None => None,
        }
        &&& next->Walk_query.max_nodes == nodes_meant(params.max_nodes)
        &&& next->Walk_query.max_depth == depth_meant(params.max_depth)
        &&& next->Walk_context == context
        &&& next->Walk_screenshot == screenshot
    } else {
        exists|read: TreeRead|
            #[trigger] is_disabled(read) && ends_state(
                params,
                after,
                read,
                context,
                screenshot,
                seq![],
                next,
            )
    }
}

/// Whether `get_app_state` goes on to the screenshot, which is captured unless it is not
/// asked for.
pub open spec fn captures_state(
    params: GetAppStateParams,
    can_build: bool,
    before: CachedTree,
    after: CachedTree,
    context: WindowContext,
    filter: Option<Seq<char>>,
    next: AppStateTask,
) -> bool {
    if params.include_screenshot == Some(false) {
        walks_state(
            params,
            can_build,
            before,
            after,
            context,
            filter,
            AppScreenshot::NotRequested,
            next,
        )
    } else {
        after == before && next is Capture && next->Capture_context == context && text_of(
            next->Capture_filter,
        ) == filter
    }
}

/// Whether a screenshot is what a capture comes to beside a tree.
pub open spec fn is_app_screenshot<
    S: Fn(u32, u32, u32, u32) -> (u32, u32),
    F: Fn(u32, u32, usize, usize) -> (u32, u32),
>(
    params: GetAppStateParams,
    context: WindowContext,
    captured: Result<RawScreenshotCapture, String>,
    scale: S,
    shrink: F,
    screenshot: AppScreenshot,
) -> bool {
    match captured {
        Err(error) => screenshot == AppScreenshot::Failed(error),
        Ok(raw) => match crop_meant(context.window, raw.width, raw.height) {
            Err(message) => fails_shot(screenshot, message),
            Ok(crop) => match part_shown(raw, crop, params.target.target().names_window()) {
                Err(message) => fails_shot(screenshot, message),
                Ok(rect) => exists|
                    shown: RawScreenshotCapture,
                    given: Result<ScreenshotCapture, CaptureError>,
                |
                    is_shown(shown, raw, rect) && #[trigger] prepares(
                        shown,
                        params.options(),
                        scale,
                        shrink,
                        given,
                    ) && match given {
                        Ok(capture) => screenshot == AppScreenshot::Captured(capture),
                        Err(error) => fails_shot(screenshot, error.full()),
                    },
            },
        },
    }
}

/// Whether there is no screenshot, for a reason.
pub open spec fn fails_shot(screenshot: AppScreenshot, message: Seq<char>) -> bool {
    screenshot is Failed && screenshot->Failed_0@ == message
}

/// Whether the next task of `get_app_state` follows the last and what came of it, by the
/// tree, the numbers of the elements and the size of the desktop that are remembered before
/// and after.
pub open spec fn state_follows<
    S: Fn(u32, u32, u32, u32) -> (u32, u32),
    F: Fn(u32, u32, usize, usize) -> (u32, u32),
>(
    params: GetAppStateParams,
    can_build: bool,
    before: CachedTree,
    after: CachedTree,
    numbered: Numbering,
    numbered_after: Numbering,
    size: Option<(u32, u32)>,
    size_now: Option<(u32, u32)>,
    task: AppStateTask,
    event: AppStateEvent,
    scale: S,
    shrink: F,
    next: AppStateTask,
) -> bool {
    let explicit = text_of(params.app_name_or_bundle_identifier);
    let requested = params.target.pid;
    &&& !(event is Walked) ==> numbered_after == numbered
    &&& !(event is Captured) ==> size_now == size
    &&& match (task, event) {
        (AppStateTask::List, AppStateEvent::Listed(listed)) => exists|context: WindowContext|
            #[trigger] is_context(context, params.target.target(), listed) && if apps_decide(
                explicit,
                context.window,
                requested,
            ) {
                after == before && next == (AppStateTask::Apps { context })
            } else {
                captures_state(
                    params,
                    can_build,
                    before,
                    after,
                    context,
                    filter_meant(explicit, context.window, requested, None),
                    next,
                )
            },
        (AppStateTask::Apps { context }, AppStateEvent::Apps(apps)) => captures_state(
            params,
            can_build,
            before,
            after,
            context,
            filter_meant(
                explicit,
                context.window,
                requested,
                match apps {
                    Some(apps) => Some(apps@),
                    None => None,
                },
            ),
            next,
        ),
        (
            AppStateTask::Capture { context, filter },
            AppStateEvent::Captured(captured),
        ) => {
            &&& size_now == match captured {
                Ok(raw) => size_after(size, raw.width, raw.height),
                Err(_) => size,
            }
            &&& exists|screenshot: AppScreenshot|
                #[trigger] is_app_screenshot(params, context, captured, scale, shrink, screenshot)
                    && walks_state(
                    params,
                    can_build,
                    before,
                    after,
                    context,
                    text_of(filter),
                    screenshot,
                    next,
                )
        },
        (
            AppStateTask::Walk { context, screenshot, .. },
            AppStateEvent::Walked(walked),
        ) => exists|read: TreeRead|
            #[trigger] is_read(read, walked, numbered, numbered_after) && ties_state(
                params,
                before,
                after,
                read,
                context,
                screenshot,
                next,
            ),
        (
            AppStateTask::Tie { read, context, screenshot },
            AppStateEvent::Listed(listed),
        ) => ends_state(
            params,
            after,
            read,
            context,
            screenshot,
            match listed {
                Ok(windows) => windows@,
                Err(_) => seq![],
            },
            next,
        ),
        _ => true,
    }
}

/// The first thing `get_app_state` does: the windows are listed where one is named.
pub fn start_app_state(params: &GetAppStateParams, can_build: bool, cache: &mut CachedTree) -> (r:
    AppStateTask)
    ensures
        if params.target.target().names_window() {
            r is List && *final(cache) == *old(cache)
        } else if apps_decide(
            text_of(params.app_name_or_bundle_identifier),
            None,
            params.target.pid,
        ) {
            *final(cache) == *old(cache) && r is Apps && r->Apps_context.window is None
                && r->Apps_context.error is None && r->Apps_context.permissions_hint is None
        } else {
            exists|context: WindowContext|
                context.window is None && context.error is None && context.permissions_hint is None
                    && #[trigger] captures_state(
                    *params,
                    can_build,
                    *old(cache),
                    *final(cache),
                    context,
                    filter_meant(
                        text_of(params.app_name_or_bundle_identifier),
                        None,
                        params.target.pid,
                        None,
                    ),
                    r,
                )
        },
{
    if params.window_target().has_target() {
        return AppStateTask::List;
    }
    let context = WindowContext { window: None, error: None, permissions_hint: None };
    let ghost nothing = context;
    let next = after_context(params, can_build, cache, context);
    proof {
        if !apps_decide(text_of(params.app_name_or_bundle_identifier), None, params.target.pid) {
            assert(captures_state(
                *params,
                can_build,
                *old(cache),
                *final(cache),
                nothing,
                filter_meant(
                    text_of(params.app_name_or_bundle_identifier),
                    None,
                    params.target.pid,
                    None,
                ),
                next,
            ));
        }
    }
    next
}

fn end_state(
    params: &GetAppStateParams,
    cache: &mut CachedTree,
    read: TreeRead,
    context: WindowContext,
    screenshot: AppScreenshot,
    windows: &[WindowInfo],
) -> (r: AppStateTask)
    ensures
        ends_state(*params, *final(cache), read, context, screenshot, windows@, r),
{
    let outcome = match &screenshot {
        AppScreenshot::Captured(capture) => ScreenshotOutcome::Captured(capture.source.clone()),
        AppScreenshot::Failed(error) => ScreenshotOutcome::Failed(error.clone()),
        AppScreenshot::NotRequested => ScreenshotOutcome::NotRequested,
    };
    let ghost told = outcome;
    assert(is_outcome(told, screenshot));
    let verbose = match params.verbose {
        Some(true) => true,
        _ => false,
    };
    let report = conclude_app_state(&read, outcome, context, windows, verbose);
    assert(verbose == params.wants_all());
    assert(concludes(read, told, context, windows@, params.wants_all(), report));
    let failed = read.error.is_some();
    let tied = match &report.window_context {
        Some(window) => Some(window),
        None => None,
    };
    assert(deref(tied) == report.window_context);
    remember_tree(cache, read.nodes, failed, tied);
    AppStateTask::Done(
        AppState { report, screenshot, raw_count: read.raw_count, tree_error: read.error },
    )
}

fn tie_state(
    params: &GetAppStateParams,
    cache: &mut CachedTree,
    read: TreeRead,
    context: WindowContext,
    screenshot: AppScreenshot,
) -> (r: AppStateTask)
    ensures
        ties_state(*params, *old(cache), *final(cache), read, context, screenshot, r),
{
    if context.window.is_none() && read.root_pids.len() > 0 && bounds_are_window_relative(
        &read.nodes,
    ) {
        AppStateTask::Tie { read, context, screenshot }
    } else {
        let windows: Vec<WindowInfo> = Vec::new();
        assert(windows@ =~= seq![]);
        end_state(params, cache, read, context, screenshot, &windows)
    }
}

fn walk_state(
    params: &GetAppStateParams,
    can_build: bool,
    cache: &mut CachedTree,
    context: WindowContext,
    filter: Option<String>,
    screenshot: AppScreenshot,
) -> (r: AppStateTask)
    ensures
        walks_state(
            *params,
            can_build,
            *old(cache),
            *final(cache),
            context,
            text_of(filter),
            screenshot,
            r,
        ),
{
    if can_build {
        let (max_nodes, max_depth): (usize, u32) = snapshot_limits(
            params.max_nodes,
            params.max_depth,
        );
        let pid: Option<u32> = match &context.window {
            Some(window) => window.pid,
            None => None,
        };
        return AppStateTask::Walk {
            query: TreeQuery { filter, pid, max_nodes, max_depth },
            context,
            screenshot,
        };
    }
    let read = disabled_tree();
    let windows: Vec<WindowInfo> = Vec::new();
    assert(windows@ =~= seq![]);
    end_state(params, cache, read, context, screenshot, &windows)
}

fn capture_state(
    params: &GetAppStateParams,
    can_build: bool,
    cache: &mut CachedTree,
    context: WindowContext,
    filter: Option<String>,
) -> (r: AppStateTask)
    ensures
        captures_state(
            *params,
            can_build,
            *old(cache),
            *final(cache),
            context,
            text_of(filter),
            r,
        ),
{
    match params.include_screenshot {
        Some(false) => walk_state(
            params,
            can_build,
            cache,
            context,
            filter,
            AppScreenshot::NotRequested,
        ),
        _ => AppStateTask::Capture { context, filter },
    }
}

fn after_context(
    params: &GetAppStateParams,
    can_build: bool,
    cache: &mut CachedTree,
    context: WindowContext,
) -> (r: AppStateTask)
    ensures
        if apps_decide(
            text_of(params.app_name_or_bundle_identifier),
            context.window,
            params.target.pid,
        ) {
            *final(cache) == *old(cache) && r == (AppStateTask::Apps { context })
        } else {
            captures_state(
                *params,
                can_build,
                *old(cache),
                *final(cache),
                context,
                filter_meant(
                    text_of(params.app_name_or_bundle_identifier),
                    context.window,
                    params.target.pid,
                    None,
                ),
                r,
            )
        },
{
    let explicit = borrowed(&params.app_name_or_bundle_identifier);
    let window = match &context.window {
        Some(window) => Some(window),
        None => None,
    };
    assert(deref(window) == context.window);
    if needs_accessible_apps(explicit, window, params.target.pid) {
        return AppStateTask::Apps { context };
    }
    let filter = resolve_accessibility_app_filter(explicit, window, params.target.pid, None);
    capture_state(params, can_build, cache, context, filter)
}

fn app_screenshot<
    S: Fn(u32, u32, u32, u32) -> (u32, u32),
    F: Fn(u32, u32, usize, usize) -> (u32, u32),
>(
    params: &GetAppStateParams,
    context: &WindowContext,
    captured: Result<RawScreenshotCapture, String>,
    scale: S,
    shrink: F,
) -> (r: AppScreenshot)
    requires
        forall|w: u32, h: u32, max_w: u32, max_h: u32|
            #[trigger] scale.requires((w, h, max_w, max_h)),
        forall|w: u32, h: u32, encoded: usize, cap: usize|
            #[trigger] shrink.requires((w, h, encoded, cap)),
    ensures
        is_app_screenshot(*params, *context, captured, scale, shrink, r),
{
    let raw = match captured {
        Ok(raw) => raw,
        Err(error) => return AppScreenshot::Failed(error),
    };
    let window = match &context.window {
        Some(window) => Some(window),
        None => None,
    };
    assert(deref(window) == context.window);
    let crop = match app_state_crop(window, raw.width, raw.height) {
        Ok(crop) => crop,
        Err(message) => return AppScreenshot::Failed(message),
    };
    let target_requested = params.window_target().has_target();
    match prepare_app_state_screenshot(
        raw,
        crop,
        target_requested,
        params.screenshot_options(),
        scale,
        shrink,
    ) {
        Ok(capture) => AppScreenshot::Captured(capture),
        Err(message) => AppScreenshot::Failed(message),
    }
}

/// What `get_app_state` does next, by what came of the last: the window that is meant, the
/// application of it, the screenshot, the tree, and the window the tree is tied to.
/// `can_build` says whether a tree can be built at all. `scale` and `shrink` propose
/// dimensions as for any payload.
pub fn get_app_state<
    S: Fn(u32, u32, u32, u32) -> (u32, u32),
    F: Fn(u32, u32, usize, usize) -> (u32, u32),
>(
    params: &GetAppStateParams,
    can_build: bool,
    cache: &mut CachedTree,
    indices: &mut StableElementIndices,
    desktop: &mut Option<(u32, u32)>,
    task: AppStateTask,
    event: AppStateEvent,
    scale: S,
    shrink: F,
) -> (r: AppStateTask)
    requires
        reports_state(task, event),
        old(indices).wf(),
        event is Walked && event->Walked_0 is Ok ==> event->Walked_0->Ok_0.nodes@.len() <= i32::MAX
            && parents_end(event->Walked_0->Ok_0.nodes@),
        forall|w: u32, h: u32, max_w: u32, max_h: u32|
            #[trigger] scale.requires((w, h, max_w, max_h)),
        forall|w: u32, h: u32, encoded: usize, cap: usize|
            #[trigger] shrink.requires((w, h, encoded, cap)),
    ensures
        final(indices).wf(),
        state_follows(
            *params,
            can_build,
            *old(cache),
            *final(cache),
            old(indices).view(),
            final(indices).view(),
            *old(desktop),
            *final(desktop),
            task,
            event,
            scale,
            shrink,
            r,
        ),
{
    match (task, event) {
        (AppStateTask::List, AppStateEvent::Listed(listed)) => {
            let context = resolve_window_context(&params.window_target(), listed);
            let ghost given = context;
            assert(is_context(given, params.target.target(), listed));
            after_context(params, can_build, cache, context)
        },
        (AppStateTask::Apps { context }, AppStateEvent::Apps(apps)) => {
            let window = match &context.window {
                Some(window) => Some(window),
                None => None,
            };
            assert(deref(window) == context.window);
            let filter = resolve_accessibility_app_filter(
                borrowed(&params.app_name_or_bundle_identifier),
                window,
                params.target.pid,
                match &apps {
                    Some(apps) => Some(apps),
                    None => None,
                },
            );
            capture_state(params, can_build, cache, context, filter)
        },
        (AppStateTask::Capture { context, filter }, AppStateEvent::Captured(captured)) => {
            if let Ok(raw) = &captured {
                cache_desktop_size(desktop, raw.width, raw.height);
            }
            let screenshot = app_screenshot(params, &context, captured, scale, shrink);
            let ghost given = screenshot;
            assert(is_app_screenshot(*params, context, captured, scale, shrink, given));
            walk_state(params, can_build, cache, context, filter, screenshot)
        },
        (AppStateTask::Walk { context, screenshot, .. }, AppStateEvent::Walked(walked)) => {
            let read = read_tree(walked, indices);
            let ghost given = read;
            assert(is_read(given, walked, old(indices).view(), indices.view()));
            tie_state(params, cache, read, context, screenshot)
        },
        (AppStateTask::Tie { read, context, screenshot }, AppStateEvent::Listed(listed)) => {
            let windows = match listed {
                Ok(windows) => windows,
                Err(_) => {
                    let none: Vec<WindowInfo> = Vec::new();
                    assert(none@ =~= seq![]);
                    none
                },
            };
            end_state(params, cache, read, context, screenshot, &windows)
        },
        (task, _) => task,
    }
}

/// A window that was named and not found is not shown as the desktop: whatever was
/// captured, there is no screenshot beside the tree.
pub proof fn an_unknown_window_is_not_shown<
    S: Fn(u32, u32, u32, u32) -> (u32, u32),
    F: Fn(u32, u32, usize, usize) -> (u32, u32),
>(
    params: GetAppStateParams,
    context: WindowContext,
    captured: Result<RawScreenshotCapture, String>,
    scale: S,
    shrink: F,
    screenshot: AppScreenshot,
)
    requires
        params.target.target().names_window(),
        context.window is None,
        is_app_screenshot(params, context, captured, scale, shrink, screenshot),
    ensures
        screenshot is Failed,
{
}

/// What is remembered is what is returned: the tree a caller was shown is the one the
/// elements are looked for in, and a tree that could not be read leaves none behind.
pub proof fn the_tree_shown_is_the_tree_remembered(
    params: GetAppStateParams,
    after: CachedTree,
    read: TreeRead,
    context: WindowContext,
    screenshot: AppScreenshot,
    windows: Seq<WindowInfo>,
    next: AppStateTask,
)
    requires
        ends_state(params, after, read, context, screenshot, windows, next),
    ensures
        next->Done_0.tree_error is None ==> after.nodes@ == read.nodes@,
        next->Done_0.tree_error is Some ==> after.nodes@.len() == 0,
{
}

/// As much of a tree is inspected as is asked, no more than the ceilings, and the usual amount
/// where nothing is asked.
pub proof fn a_tree_is_inspected_as_far_as_is_asked(max_nodes: usize, max_depth: u32)
    ensures
        nodes_meant(None) == 1_000,
        max_nodes <= 2_000 ==> nodes_meant(Some(max_nodes)) == max_nodes,
        max_nodes > 2_000 ==> nodes_meant(Some(max_nodes)) == 2_000,
        depth_meant(None) == 32,
        max_depth <= 64 ==> depth_meant(Some(max_depth)) == max_depth,
        max_depth > 64 ==> depth_meant(Some(max_depth)) == 64,
{
}

/// The tree that is returned shows everything that was walked: each node with a name, a
/// description or a text that can be seen, and each that can be acted on, is in it with all
/// that was read of it, under the number its reference keeps.
pub proof fn a_tree_returned_shows_what_was_walked(
    read: TreeRead,
    walked: TreeSnapshot,
    before: Numbering,
    after: Numbering,
    i: int,
)
    requires
        before.wf(),
        is_read(read, Ok(walked), before, after),
        0 <= i < walked.nodes@.len(),
        ({
            let node = walked.nodes@[i];
            ||| can_be_seen(node.name) || can_be_seen(node.description)
            ||| node.text is Some && can_be_seen(node.text->0.content)
            ||| node.actions@.len() > 0 || node.supports_editable_text || node.value is Some
        }),
    ensures
        read.error is None,
        exists|k: int|
            0 <= k < read.nodes@.len() && is_the_node_read(
                #[trigger] read.nodes@[k],
                walked.nodes@[i],
            ),
{
    let tree = compact(walked.nodes@);
    let node = walked.nodes@[i];
    if node.actions@.len() > 0 || node.supports_editable_text || node.value is Some {
        compacting_drops_nothing_that_can_be_acted_on(walked.nodes@, i);
    } else {
        compacting_drops_nothing_that_can_be_seen(walked.nodes@, i);
    }
    let k = choose|k: int|
        0 <= k < tree.len() && is_the_node_read(#[trigger] tree[k], walked.nodes@[i]);
    let numbers = before.number_all(refs_of(tree)).1;
    number_all_is_wf(before, refs_of(tree));
    renumbering_changes_only_numbers(tree, numbers, k);
    assert(is_the_node_read(read.nodes@[k], walked.nodes@[i]));
}

/// The window that is meant is one its selectors name among those listed; where they name
/// none there is none, with the reason, and a window list that failed names none.
pub proof fn a_context_is_the_window_named(
    context: WindowContext,
    target: WindowTarget,
    listed: Result<Vec<WindowInfo>, String>,
)
    requires
        is_context(context, target, listed),
    ensures
        context.window is Some <==> target.names_window() && listed is Ok && resolved(
            listed->Ok_0@,
            target,
        ) is Ok,
        context.window is Some ==> context.window->0 == listed->Ok_0@[resolved(
            listed->Ok_0@,
            target,
        )->Ok_0],
        context.error is Some <==> target.names_window() && context.window is None,
{
}

/// A tree is walked in the process of the window that is meant, as far as is asked.
pub proof fn a_tree_is_walked_in_the_windows_process(
    params: GetAppStateParams,
    before: CachedTree,
    after: CachedTree,
    context: WindowContext,
    filter: Option<Seq<char>>,
    screenshot: AppScreenshot,
    next: AppStateTask,
)
    requires
        walks_state(params, true, before, after, context, filter, screenshot, next),
    ensures
        next is Walk,
        context.window is Some ==> next->Walk_query.pid == context.window->0.pid,
        context.window is None ==> next->Walk_query.pid is None,
        filter is Some <==> next->Walk_query.filter is Some,
        filter is Some ==> next->Walk_query.filter->0@ == filter->0,
        next->Walk_query.max_nodes == nodes_meant(params.max_nodes),
        next->Walk_query.max_depth == depth_meant(params.max_depth),
{
}

/// The desktop is captured unless the caller asks for no screenshot.
pub proof fn a_screenshot_is_taken_unless_it_is_declined(
    params: GetAppStateParams,
    can_build: bool,
    before: CachedTree,
    after: CachedTree,
    context: WindowContext,
    filter: Option<Seq<char>>,
    next: AppStateTask,
)
    requires
        captures_state(params, can_build, before, after, context, filter, next),
    ensures
        next is Capture <==> params.include_screenshot is None || params.include_screenshot->0,
        next is Walk ==> next->Walk_screenshot is NotRequested,
{
}

/// What is remembered is what was read: the tree, with its bounds tied to the window that is
/// reported; and nothing where none was read, so that no element of an older tree is named.
pub proof fn the_tree_remembered_is_the_tree_read(
    params: GetAppStateParams,
    after: CachedTree,
    read: TreeRead,
    context: WindowContext,
    screenshot: AppScreenshot,
    windows: Seq<WindowInfo>,
    next: AppStateTask,
)
    requires
        ends_state(params, after, read, context, screenshot, windows, next),
    ensures
        next is Done,
        read.error is None ==> after.nodes@ == read.nodes@,
        read.error is Some ==> after.nodes@.len() == 0,
        context.window is Some ==> next->Done_0.report.window_context == context.window
            && next->Done_0.report.window_context_source == Some(WindowContextSource::Target),
        next->Done_0.report.window_context is None ==> next->Done_0.report.window_context_source
            is None,
        next->Done_0.tree_error == read.error,
{
}

/// A walk that failed gives no tree, with its reason, and numbers no element anew.
pub proof fn a_failed_walk_gives_no_tree(
    read: TreeRead,
    error: String,
    before: Numbering,
    after: Numbering,
)
    requires
        is_read(read, Err(error), before, after),
    ensures
        read.nodes@.len() == 0,
        read.error is Some && read.error->0@ == error@,
        after == before,
{
}

} // verus!
