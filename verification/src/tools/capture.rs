//! `screenshot`, and the screenshot beside `get_app_state`: which window is shown, which
//! part of the capture is returned, and what is said of it.

use vstd::prelude::*;
use vstd::string::StringExecFns;
use crate::cache::deref;
use crate::geometry::{
    cache_desktop_size, clip_capture_rect, clipped, desktop_extent, off_screen_note,
    off_screen_note_for_bounds, region_crop_rect, region_part, window_crop_rect_for_dimensions,
    window_part, PixelRect, OUTSIDE_CAPTURE,
};
use crate::notes::{occlusion_note, occlusion_words};
use crate::params::{GetAppStateParams, ScreenshotParams, ScreenshotRegion};
use crate::screenshot::{
    crop_png, has_size, part_of, prepare_screenshot_payload, prepares, CaptureError,
    RawScreenshotCapture, ScreenshotCapture, ScreenshotPayloadOptions,
};
use crate::text::{cat, text_of};
use crate::windowing::target::{resolve_window_target, resolved};
use crate::windowing::types::{WindowFocusResult, WindowInfo, WindowOcclusion, WindowTarget};

verus! {

impl GetAppStateParams {
    /// What is asked of the screenshot.
    pub open spec fn options(self) -> ScreenshotPayloadOptions {
        ScreenshotPayloadOptions {
            max_width: self.max_width,
            max_height: self.max_height,
            max_bytes: self.max_bytes,
            format: self.format,
            quality: self.quality,
        }
    }

    /// What is asked of the screenshot.
    pub fn screenshot_options(&self) -> (r: ScreenshotPayloadOptions)
        ensures
            r == self.options(),
    {
        ScreenshotPayloadOptions {
            max_width: self.max_width,
            max_height: self.max_height,
            max_bytes: self.max_bytes,
            format: self.format,
            quality: self.quality,
        }
    }
}

impl ScreenshotParams {
    /// What is asked of the screenshot.
    pub open spec fn options(self) -> ScreenshotPayloadOptions {
        ScreenshotPayloadOptions {
            max_width: self.max_width,
            max_height: self.max_height,
            max_bytes: self.max_bytes,
            format: self.format,
            quality: self.quality,
        }
    }

    /// What is asked of the screenshot.
    pub fn screenshot_options(&self) -> (r: ScreenshotPayloadOptions)
        ensures
            r == self.options(),
    {
        ScreenshotPayloadOptions {
            max_width: self.max_width,
            max_height: self.max_height,
            max_bytes: self.max_bytes,
            format: self.format,
            quality: self.quality,
        }
    }
}

/// The window a screenshot shows once it was raised, or why it shows none: only the very
/// window that was asked for, in focus and on the screen.
pub open spec fn raised(focus: Result<WindowFocusResult, String>) -> Result<WindowInfo, Seq<char>> {
    match focus {
        Err(error) => Err(error@),
        Ok(focus) => if !focus.exact_window_focused {
            Err(
                "the requested window could not be focused exactly; refusing to capture unrelated desktop pixels"@,
            )
        } else if focus.focused_window is None || focus.focused_window->0.window_id
            != focus.requested_window.window_id {
            Err("focused-window verification returned no window"@)
        } else if focus.focused_window->0.hidden {
            Err("the requested window is hidden or minimized"@)
        } else {
            Ok(focus.focused_window->0)
        },
    }
}

/// The window a screenshot shows where it is, or why it shows none. The capture is a
/// full-output frame cropped afterwards, so an unfocused window can be captured; whatever
/// sits above it is reported instead of refusing.
pub open spec fn found(target: WindowTarget, listed: Result<Vec<WindowInfo>, String>) -> Result<
    WindowInfo,
    Seq<char>,
> {
    match listed {
        Err(error) => Err(error@),
        Ok(windows) => match resolved(windows@, target) {
            Err(message) => Err(message),
            Ok(k) => if windows@[k].hidden {
                Err("the requested window is hidden or minimized"@)
            } else {
                Ok(windows@[k])
            },
        },
    }
}

/// What a window that was looked for comes to in an answer.
pub open spec fn shows_window(due: Result<WindowInfo, Seq<char>>, r: Result<WindowInfo, String>) -> bool {
    match due {
        Ok(window) => r is Ok && r->Ok_0 == window,
        Err(message) => r is Err && r->Err_0@ == "targeted screenshot failed: "@ + message,
    }
}

/// The window a screenshot shows once it was raised.
pub fn raised_window(focus: Result<WindowFocusResult, String>) -> (r: Result<WindowInfo, String>)
    ensures
        shows_window(raised(focus), r),
{
    let focus = match focus {
        Ok(focus) => focus,
        Err(error) => return Err(cat("targeted screenshot failed: ", &error)),
    };
    let refusal = if !focus.exact_window_focused {
        "the requested window could not be focused exactly; refusing to capture unrelated desktop pixels"
    } else {
        match focus.focused_window {
            Some(window) => if window.window_id != focus.requested_window.window_id {
                "focused-window verification returned no window"
            } else if window.hidden {
                "the requested window is hidden or minimized"
            } else {
                return Ok(window);
            },
            None => "focused-window verification returned no window",
        }
    };
    Err(cat("targeted screenshot failed: ", refusal))
}

/// The window a screenshot shows where it is.
pub fn found_window(target: &WindowTarget, listed: Result<Vec<WindowInfo>, String>) -> (r: Result<
    WindowInfo,
    String,
>)
    ensures
        shows_window(found(*target, listed), r),
{
    let windows = match listed {
        Ok(windows) => windows,
        Err(error) => return Err(cat("targeted screenshot failed: ", &error)),
    };
    match resolve_window_target(&windows, target) {
        Ok(window) => if window.hidden {
            Err(
                cat(
                    "targeted screenshot failed: ",
                    "the requested window is hidden or minimized",
                ),
            )
        } else {
            Ok(window.clone())
        },
        Err(message) => Err(cat("targeted screenshot failed: ", &message)),
    }
}

/// Whether a capture is a part of another: the same but for the bytes and the dimensions.
pub open spec fn is_part(part: RawScreenshotCapture, whole: RawScreenshotCapture, rect: PixelRect) -> bool {
    &&& part.mime_type == whole.mime_type
    &&& part.source == whole.source
    &&& has_size(part.bytes@, part.width, part.height)
    &&& part_of(whole.bytes@, rect.0, rect.1, rect.2, rect.3) == Ok::<
        (Seq<u8>, u32, u32),
        Seq<char>,
    >((part.bytes@, part.width, part.height))
}

/// The part of a capture that is a window, and where on the desktop it is.
pub fn cut_window(raw: RawScreenshotCapture, window: &WindowInfo) -> (r: Result<
    (RawScreenshotCapture, PixelRect),
    String,
>)
    ensures
        match window_part(*window, raw.width, raw.height) {
            Err(message) => r is Err && r->Err_0@ == "targeted screenshot crop failed: "@ + message,
            Ok(rect) => match part_of(raw.bytes@, rect.0, rect.1, rect.2, rect.3) {
                Err(message) => r is Err && r->Err_0@ == "targeted screenshot crop failed: "@
                    + message,
                Ok((_, width, height)) => r is Ok && is_part((r->Ok_0).0, raw, rect) && (
                r->Ok_0).1 == (rect.0, rect.1, width, height),
            },
        },
{
    let (x, y, width, height): (i32, i32, u32, u32) = match window_crop_rect_for_dimensions(
        window,
        raw.width,
        raw.height,
    ) {
        Ok(rect) => rect,
        Err(message) => return Err(cat("targeted screenshot crop failed: ", &message)),
    };
    match crop_png(&raw.bytes, x, y, width, height) {
        Ok((bytes, width, height)) => Ok(
            (
                RawScreenshotCapture {
                    mime_type: raw.mime_type,
                    bytes,
                    source: raw.source,
                    width,
                    height,
                },
                (x, y, width, height),
            ),
        ),
        Err(message) => Err(cat("targeted screenshot crop failed: ", &message)),
    }
}

/// Why a region is not cut out of a capture.
#[derive(Debug)]
pub enum RegionError {
    /// The region is not one of the capture.
    Rejected(String),
    /// The capture could not be cut.
    Failed(String),
}

/// The region of a capture that is asked for, and where on the desktop it is. `window_crop`
/// is the desktop rectangle the capture was already cropped to, when it was.
pub fn cut_region(
    capture: RawScreenshotCapture,
    region: &ScreenshotRegion,
    relative: bool,
    window_crop: Option<PixelRect>,
) -> (r: Result<(RawScreenshotCapture, PixelRect), RegionError>)
    ensures
        match region_part(*region, relative, window_crop, capture.width, capture.height) {
            Err(message) => r is Err && r->Err_0 is Rejected && r->Err_0->Rejected_0@
                == "screenshot region rejected: "@ + message,
            Ok((rect, desktop_rect)) => match part_of(
                capture.bytes@,
                rect.0,
                rect.1,
                rect.2,
                rect.3,
            ) {
                Err(message) => r is Err && r->Err_0 is Failed && r->Err_0->Failed_0@
                    == "screenshot region crop failed: "@ + message,
                Ok(_) => r is Ok && is_part((r->Ok_0).0, capture, rect) && (r->Ok_0).1
                    == desktop_rect,
            },
        },
{
    let (rect, desktop_rect) = match region_crop_rect(
        region,
        relative,
        window_crop,
        capture.width,
        capture.height,
    ) {
        Ok(parts) => parts,
        Err(message) => return Err(
            RegionError::Rejected(cat("screenshot region rejected: ", &message)),
        ),
    };
    match crop_png(&capture.bytes, rect.0, rect.1, rect.2, rect.3) {
        Ok((bytes, width, height)) => Ok(
            (
                RawScreenshotCapture {
                    mime_type: capture.mime_type,
                    bytes,
                    source: capture.source,
                    width,
                    height,
                },
                desktop_rect,
            ),
        ),
        Err(message) => Err(RegionError::Failed(cat("screenshot region crop failed: ", &message))),
    }
}

/// What is shown of a capture: the part, the rectangle of the window, and that of the
/// region.
#[derive(Debug)]
pub struct CutScreenshot {
    pub capture: RawScreenshotCapture,
    pub window_crop: Option<PixelRect>,
    pub region_crop: Option<PixelRect>,
}

/// Whether a cut is what a screenshot shows: the window first, unless the whole screen is
/// asked for, and then the region out of that.
pub open spec fn cuts(
    raw: RawScreenshotCapture,
    window: Option<WindowInfo>,
    params: ScreenshotParams,
    r: Result<CutScreenshot, RegionError>,
) -> bool {
    let shown = shows_part(window, params);
    let rect = window_part(window->0, raw.width, raw.height);
    if shown && rect is Err {
        r is Err && r->Err_0 is Failed && r->Err_0->Failed_0@ == "targeted screenshot crop failed: "@
            + rect->Err_0
    } else if shown && part_of(
        raw.bytes@,
        rect->Ok_0.0,
        rect->Ok_0.1,
        rect->Ok_0.2,
        rect->Ok_0.3,
    ) is Err {
        r is Err && r->Err_0 is Failed && r->Err_0->Failed_0@ == "targeted screenshot crop failed: "@
            + part_of(raw.bytes@, rect->Ok_0.0, rect->Ok_0.1, rect->Ok_0.2, rect->Ok_0.3)->Err_0
    } else {
        exists|first: RawScreenshotCapture, window_crop: Option<PixelRect>|
            #[trigger] is_first_cut(first, window_crop, raw, window, params) && cuts_region(
                first,
                window_crop,
                params,
                r,
            )
    }
}

/// Whether a screenshot shows a window and not the whole screen.
pub open spec fn shows_part(window: Option<WindowInfo>, params: ScreenshotParams) -> bool {
    window is Some && params.full_screen != Some(true)
}

/// Whether a capture is what is shown before the region is cut out.
pub open spec fn is_first_cut(
    first: RawScreenshotCapture,
    window_crop: Option<PixelRect>,
    raw: RawScreenshotCapture,
    window: Option<WindowInfo>,
    params: ScreenshotParams,
) -> bool {
    let rect = window_part(window->0, raw.width, raw.height)->Ok_0;
    if shows_part(window, params) {
        is_part(first, raw, rect) && window_crop == Some(
            (rect.0, rect.1, first.width, first.height),
        )
    } else {
        first == raw && window_crop is None
    }
}

/// Whether a cut is the region of a capture that is asked for, or the whole where none is.
pub open spec fn cuts_region(
    first: RawScreenshotCapture,
    window_crop: Option<PixelRect>,
    params: ScreenshotParams,
    r: Result<CutScreenshot, RegionError>,
) -> bool {
    match params.region {
        None => r is Ok && r->Ok_0.capture == first && r->Ok_0.window_crop == window_crop
            && r->Ok_0.region_crop is None,
        Some(region) => match region_part(
            region,
            params.relative == Some(true),
            window_crop,
            first.width,
            first.height,
        ) {
            Err(message) => r is Err && r->Err_0 is Rejected && r->Err_0->Rejected_0@
                == "screenshot region rejected: "@ + message,
            Ok((rect, desktop_rect)) => match part_of(
                first.bytes@,
                rect.0,
                rect.1,
                rect.2,
                rect.3,
            ) {
                Err(message) => r is Err && r->Err_0 is Failed && r->Err_0->Failed_0@
                    == "screenshot region crop failed: "@ + message,
                Ok(_) => r is Ok && is_part(r->Ok_0.capture, first, rect) && r->Ok_0.window_crop
                    == window_crop && r->Ok_0.region_crop == Some(desktop_rect),
            },
        },
    }
}

/// What is shown of a capture, or why nothing is.
pub fn cut_screenshot(
    raw: RawScreenshotCapture,
    window: Option<&WindowInfo>,
    params: &ScreenshotParams,
) -> (r: Result<CutScreenshot, RegionError>)
    ensures
        cuts(raw, deref(window), *params, r),
{
    let ghost whole = raw;
    let full_screen = match params.full_screen {
        Some(true) => true,
        _ => false,
    };
    let relative = match params.relative {
        Some(true) => true,
        _ => false,
    };
    let (first, window_crop) = match window {
        Some(window) => if full_screen {
            (raw, None)
        } else {
            match cut_window(raw, window) {
                Ok((part, rect)) => (part, Some(rect)),
                Err(message) => return Err(RegionError::Failed(message)),
            }
        },
        None => (raw, None),
    };
    assert(is_first_cut(first, window_crop, whole, deref(window), *params));
    match &params.region {
        None => Ok(CutScreenshot { capture: first, window_crop, region_crop: None }),
        Some(region) => match cut_region(first, region, relative, window_crop) {
            Ok((capture, desktop_rect)) => Ok(
                CutScreenshot { capture, window_crop, region_crop: Some(desktop_rect) },
            ),
            Err(error) => Err(error),
        },
    }
}

/// What a screenshot shows, beside the picture.
#[derive(Debug)]
pub struct ScreenshotCaption {
    pub cropped_to_window: bool,
    pub cropped_to_region: bool,
    /// The rectangle of the desktop that is shown, where it is not the whole.
    pub crop: Option<PixelRect>,
    pub window_title: Option<String>,
    pub off_screen_note: Option<String>,
    /// The windows in the way, where a window was asked for.
    pub occluded_by: Option<Vec<WindowOcclusion>>,
    pub occlusion_note: Option<String>,
}

/// What a screenshot shows, beside the picture: the part of the desktop, which is the
/// region's where there is one and else the window's.
pub fn screenshot_caption(
    window: Option<&WindowInfo>,
    window_crop: Option<PixelRect>,
    region_crop: Option<PixelRect>,
    off_screen_note: Option<String>,
    occluded_by: Vec<WindowOcclusion>,
) -> (r: ScreenshotCaption)
    ensures
        r.cropped_to_window == (window_crop is Some),
        r.cropped_to_region == (region_crop is Some),
        r.crop == if region_crop is Some {
            region_crop
        } else {
            window_crop
        },
        r.window_title == match window {
            Some(window) => window.title,
            None => None,
        },
        r.off_screen_note == off_screen_note,
        r.occluded_by == if window is Some {
            Some(occluded_by)
        } else {
            None
        },
        text_of(r.occlusion_note) == if window is Some {
            occlusion_words(occluded_by@)
        } else {
            None
        },
{
    let cropped_to_window = window_crop.is_some();
    let cropped_to_region = region_crop.is_some();
    let crop = match region_crop {
        Some(rect) => Some(rect),
        None => window_crop,
    };
    match window {
        Some(window) => {
            let note = occlusion_note(&occluded_by);
            ScreenshotCaption {
                cropped_to_window,
                cropped_to_region,
                crop,
                window_title: window.title.clone(),
                off_screen_note,
                occluded_by: Some(occluded_by),
                occlusion_note: note,
            }
        },
        None => ScreenshotCaption {
            cropped_to_window,
            cropped_to_region,
            crop,
            window_title: None,
            off_screen_note,
            occluded_by: None,
            occlusion_note: None,
        },
    }
}

/// How long a window that was raised is left to be drawn before it is captured, in
/// milliseconds.
pub const RAISE_SETTLE_MS: u64 = 250;

/// A screenshot, and what is said of it.
#[derive(Debug)]
pub struct Screenshot {
    pub capture: ScreenshotCapture,
    pub caption: ScreenshotCaption,
}

/// Why there is no screenshot.
#[derive(Debug)]
pub enum ScreenshotError {
    /// What was asked for is not there to be shown.
    Invalid(String),
    /// It could not be shown.
    Failed(String),
}

/// The next thing a screenshot does.
#[derive(Debug)]
pub enum ScreenshotTask {
    /// Focus the window.
    Raise(WindowTarget),
    /// List the windows.
    Find(WindowTarget),
    /// Find what covers the window.
    Uncover(WindowInfo),
    /// Capture the desktop, after a rest.
    Capture { window: Option<WindowInfo>, occluded_by: Vec<WindowOcclusion>, wait_ms: u64 },
    Done(Screenshot),
    Refused(ScreenshotError),
}

/// What came of what a screenshot does.
#[derive(Debug)]
pub enum ScreenshotReport {
    Focus(Result<WindowFocusResult, String>),
    Listed(Result<Vec<WindowInfo>, String>),
    Covered(Vec<WindowOcclusion>),
    Captured(Result<RawScreenshotCapture, String>),
}

/// Whether a report is one on a task.
pub open spec fn reports_shot(task: ScreenshotTask, report: ScreenshotReport) -> bool {
    match task {
        ScreenshotTask::Raise(_) => report is Focus,
        ScreenshotTask::Find(_) => report is Listed,
        ScreenshotTask::Uncover(_) => report is Covered,
        ScreenshotTask::Capture { .. } => report is Captured,
        _ => false,
    }
}

/// Whether a screenshot is refused as one that could not be shown.
pub open spec fn shot_fails(next: ScreenshotTask, message: Seq<char>) -> bool {
    next is Refused && next->Refused_0 is Failed && next->Refused_0->Failed_0@ == message
}

/// The size of the desktop that is remembered once a capture has told its own.
pub open spec fn size_after(cached: Option<(u32, u32)>, width: u32, height: u32) -> Option<
    (u32, u32),
> {
    if width == 0 || height == 0 {
        cached
    } else {
        Some((width, height))
    }
}

/// What is said of the part of a window that is off the desktop, where the window is shown.
pub open spec fn cut_off_words(
    window: Option<WindowInfo>,
    params: ScreenshotParams,
    desktop: Option<(u32, u32)>,
) -> Option<Seq<char>> {
    if shows_part(window, params) && window->0.bounds is Some && desktop is Some {
        off_screen_note(window->0.bounds->0, extent_of(desktop->0))
    } else {
        None
    }
}

/// The desktop of a size, where coordinates reach all of it.
pub open spec fn extent_of(size: (u32, u32)) -> Option<(i32, i32)> {
    if 0 < size.0 <= i32::MAX && 0 < size.1 <= i32::MAX {
        Some((size.0 as i32, size.1 as i32))
    } else {
        None
    }
}

/// Whether a caption is that of a screenshot.
pub open spec fn captions(
    caption: ScreenshotCaption,
    window: Option<WindowInfo>,
    cut: CutScreenshot,
    off_screen: Option<Seq<char>>,
    occluded_by: Vec<WindowOcclusion>,
) -> bool {
    &&& caption.cropped_to_window == (cut.window_crop is Some)
    &&& caption.cropped_to_region == (cut.region_crop is Some)
    &&& caption.crop == if cut.region_crop is Some {
        cut.region_crop
    } else {
        cut.window_crop
    }
    &&& caption.window_title == match window {
        Some(window) => window.title,
        None => None,
    }
    &&& text_of(caption.off_screen_note) == off_screen
    &&& caption.occluded_by == if window is Some {
        Some(occluded_by)
    } else {
        None
    }
    &&& text_of(caption.occlusion_note) == if window is Some {
        occlusion_words(occluded_by@)
    } else {
        None
    }
}

/// Whether the next task is what a capture comes to: the part that is asked for, within the
/// bounds asked for, or why there is none.
pub open spec fn shows_capture<
    S: Fn(u32, u32, u32, u32) -> (u32, u32),
    F: Fn(u32, u32, usize, usize) -> (u32, u32),
>(
    params: ScreenshotParams,
    raw: RawScreenshotCapture,
    window: Option<WindowInfo>,
    occluded_by: Vec<WindowOcclusion>,
    desktop: Option<(u32, u32)>,
    scale: S,
    shrink: F,
    next: ScreenshotTask,
) -> bool {
    exists|cut: Result<CutScreenshot, RegionError>| #[trigger]
        cuts(raw, window, params, cut) && match cut {
            Err(RegionError::Rejected(message)) => next is Refused && next->Refused_0
                == ScreenshotError::Invalid(message),
            Err(RegionError::Failed(message)) => next is Refused && next->Refused_0
                == ScreenshotError::Failed(message),
            Ok(cut) => exists|given: Result<ScreenshotCapture, CaptureError>| #[trigger]
                prepares(cut.capture, params.options(), scale, shrink, given) && match given {
                    Err(error) => shot_fails(
                        next,
                        "screenshot resize failed: "@ + error.message@,
                    ),
                    Ok(capture) => next is Done && next->Done_0.capture == capture && captions(
                        next->Done_0.caption,
                        window,
                        cut,
                        cut_off_words(window, params, desktop),
                        occluded_by,
                    ),
                },
        }
}

/// Whether the next task of a screenshot follows the last and what came of it. `before` and
/// `after` are the size of the desktop that is remembered.
pub open spec fn screenshot_follows<
    S: Fn(u32, u32, u32, u32) -> (u32, u32),
    F: Fn(u32, u32, usize, usize) -> (u32, u32),
>(
    params: ScreenshotParams,
    before: Option<(u32, u32)>,
    after: Option<(u32, u32)>,
    task: ScreenshotTask,
    report: ScreenshotReport,
    scale: S,
    shrink: F,
    next: ScreenshotTask,
) -> bool {
    match (task, report) {
        (ScreenshotTask::Raise(_), ScreenshotReport::Focus(focus)) => after == before && match raised(
            focus,
        ) {
            Err(message) => shot_fails(next, "targeted screenshot failed: "@ + message),
            Ok(window) => next is Capture && next->window == Some(window)
                && next->occluded_by@.len() == 0 && next->wait_ms == RAISE_SETTLE_MS,
        },
        (ScreenshotTask::Find(target), ScreenshotReport::Listed(listed)) => after == before
            && match found(target, listed) {
            Err(message) => shot_fails(next, "targeted screenshot failed: "@ + message),
            Ok(window) => next == ScreenshotTask::Uncover(window),
        },
        (ScreenshotTask::Uncover(window), ScreenshotReport::Covered(occluded_by)) => after == before
            && next == (ScreenshotTask::Capture { window: Some(window), occluded_by, wait_ms: 0 }),
        (
            ScreenshotTask::Capture { window, occluded_by, .. },
            ScreenshotReport::Captured(outcome),
        ) => match outcome {
            Err(error) => after == before && shot_fails(next, "screenshot failed: "@ + error@),
            Ok(raw) => after == size_after(before, raw.width, raw.height) && shows_capture(
                params,
                raw,
                window,
                occluded_by,
                after,
                scale,
                shrink,
                next,
            ),
        },
        _ => true,
    }
}

/// The first thing a screenshot does: a window that is named is raised, or only found where
/// it is to stay where it is.
pub fn start_screenshot(params: &ScreenshotParams) -> (r: ScreenshotTask)
    ensures
        if !params.target.target().names_window() {
            r is Capture && r->window is None && r->occluded_by@.len() == 0 && r->wait_ms == 0
        } else if params.raise_window == Some(false) {
            r == ScreenshotTask::Find(params.target.target())
        } else {
            r == ScreenshotTask::Raise(params.target.target())
        },
{
    match params.window_target() {
        None => ScreenshotTask::Capture { window: None, occluded_by: Vec::new(), wait_ms: 0 },
        Some(target) => match params.raise_window {
            Some(false) => ScreenshotTask::Find(target),
            _ => ScreenshotTask::Raise(target),
        },
    }
}

/// What a screenshot does next, by what came of the last. The size of the desktop is
/// remembered from the capture. `scale` and `shrink` propose dimensions as for any payload.
pub fn screenshot<
    S: Fn(u32, u32, u32, u32) -> (u32, u32),
    F: Fn(u32, u32, usize, usize) -> (u32, u32),
>(
    params: &ScreenshotParams,
    desktop: &mut Option<(u32, u32)>,
    task: ScreenshotTask,
    report: ScreenshotReport,
    scale: S,
    shrink: F,
) -> (r: ScreenshotTask)
    requires
        reports_shot(task, report),
        forall|w: u32, h: u32, max_w: u32, max_h: u32|
            #[trigger] scale.requires((w, h, max_w, max_h)),
        forall|w: u32, h: u32, encoded: usize, cap: usize|
            #[trigger] shrink.requires((w, h, encoded, cap)),
    ensures
        screenshot_follows(*params, *old(desktop), *final(desktop), task, report, scale, shrink, r),
{
    match (task, report) {
        (ScreenshotTask::Raise(_), ScreenshotReport::Focus(focus)) => match raised_window(focus) {
            Err(message) => ScreenshotTask::Refused(ScreenshotError::Failed(message)),
            Ok(window) => ScreenshotTask::Capture {
                window: Some(window),
                occluded_by: Vec::new(),
                wait_ms: RAISE_SETTLE_MS,
            },
        },
        (ScreenshotTask::Find(target), ScreenshotReport::Listed(listed)) => match found_window(
            &target,
            listed,
        ) {
            Err(message) => ScreenshotTask::Refused(ScreenshotError::Failed(message)),
            Ok(window) => ScreenshotTask::Uncover(window),
        },
        (
            ScreenshotTask::Uncover(window),
            ScreenshotReport::Covered(occluded_by),
        ) => ScreenshotTask::Capture { window: Some(window), occluded_by, wait_ms: 0 },
        (
            ScreenshotTask::Capture { window, occluded_by, .. },
            ScreenshotReport::Captured(outcome),
        ) => match outcome {
            Err(error) => ScreenshotTask::Refused(
                ScreenshotError::Failed(cat("screenshot failed: ", &error)),
            ),
            Ok(raw) => {
                cache_desktop_size(desktop, raw.width, raw.height);
                show_capture(params, raw, window, occluded_by, *desktop, scale, shrink)
            },
        },
        (_, _) => ScreenshotTask::Refused(ScreenshotError::Failed(String::new())),
    }
}

fn cut_off_note(
    window: Option<&WindowInfo>,
    params: &ScreenshotParams,
    desktop: Option<(u32, u32)>,
) -> (r: Option<String>)
    ensures
        text_of(r) == cut_off_words(deref(window), *params, desktop),
{
    let full_screen = match params.full_screen {
        Some(true) => true,
        _ => false,
    };
    match (window, desktop) {
        (Some(window), Some((width, height))) => if full_screen {
            None
        } else {
            match &window.bounds {
                Some(bounds) => off_screen_note_for_bounds(bounds, desktop_extent(width, height)),
                None => None,
            }
        },
        _ => None,
    }
}

fn show_capture<
    S: Fn(u32, u32, u32, u32) -> (u32, u32),
    F: Fn(u32, u32, usize, usize) -> (u32, u32),
>(
    params: &ScreenshotParams,
    raw: RawScreenshotCapture,
    window: Option<WindowInfo>,
    occluded_by: Vec<WindowOcclusion>,
    desktop: Option<(u32, u32)>,
    scale: S,
    shrink: F,
) -> (r: ScreenshotTask)
    requires
        forall|w: u32, h: u32, max_w: u32, max_h: u32|
            #[trigger] scale.requires((w, h, max_w, max_h)),
        forall|w: u32, h: u32, encoded: usize, cap: usize|
            #[trigger] shrink.requires((w, h, encoded, cap)),
    ensures
        shows_capture(*params, raw, window, occluded_by, desktop, scale, shrink, r),
{
    let shown = match &window {
        Some(window) => Some(window),
        None => None,
    };
    assert(deref(shown) == window);
    let off_screen = cut_off_note(shown, params, desktop);
    let cut = cut_screenshot(raw, shown, params);
    let ghost given_cut = cut;
    assert(cuts(raw, window, *params, given_cut));
    match cut {
        Err(RegionError::Rejected(message)) => ScreenshotTask::Refused(
            ScreenshotError::Invalid(message),
        ),
        Err(RegionError::Failed(message)) => ScreenshotTask::Refused(
            ScreenshotError::Failed(message),
        ),
        Ok(CutScreenshot { capture, window_crop, region_crop }) => {
            let ghost cut_capture = capture;
            let prepared = prepare_screenshot_payload(
                capture,
                params.screenshot_options(),
                scale,
                shrink,
            );
            let ghost given = prepared;
            assert(prepares(cut_capture, params.options(), scale, shrink, given));
            match prepared {
                Err(error) => ScreenshotTask::Refused(
                    ScreenshotError::Failed(cat("screenshot resize failed: ", &error.message)),
                ),
                Ok(capture) => ScreenshotTask::Done(
                    Screenshot {
                        capture,
                        caption: screenshot_caption(
                            shown,
                            window_crop,
                            region_crop,
                            off_screen,
                            occluded_by,
                        ),
                    },
                ),
            }
        },
    }
}

/// Why a window is not shown beside its tree, where it is not: showing it there does not
/// raise it, so it has to be in front already.
pub open spec fn unseen(window: WindowInfo) -> Option<Seq<char>> {
    if window.hidden {
        Some("targeted get_app_state screenshot requires a visible, unminimized window"@)
    } else if !window.focused {
        Some(
            "targeted get_app_state screenshot requires the window to already be focused; use the screenshot tool to raise it before capture"@,
        )
    } else {
        None
    }
}

/// Whether a window can be shown beside its tree.
pub fn ensure_readonly_screenshot_target_is_visible(window: &WindowInfo) -> (r: Result<(), String>)
    ensures
        match unseen(*window) {
            None => r is Ok,
            Some(message) => r is Err && r->Err_0@ == message,
        },
{
    if window.hidden {
        return Err(
            "targeted get_app_state screenshot requires a visible, unminimized window".to_owned(),
        );
    }
    if !window.focused {
        return Err(
            "targeted get_app_state screenshot requires the window to already be focused; use the screenshot tool to raise it before capture".to_owned(),
        );
    }
    Ok(())
}

/// What is said where a window was asked for and none was found.
pub const NO_WINDOW_TO_SHOW: &'static str =
    "targeted screenshot requires a resolved window; refusing to return the full desktop";

/// Which part of a capture is shown beside a tree, where it is not the whole, or why none
/// is: the window that was asked for and never the rest of the desktop in its place.
pub open spec fn part_shown(
    raw: RawScreenshotCapture,
    crop: Option<PixelRect>,
    target_requested: bool,
) -> Result<Option<PixelRect>, Seq<char>> {
    match crop {
        None => if target_requested {
            Err(NO_WINDOW_TO_SHOW@)
        } else {
            Ok(None)
        },
        Some(rect) => match clipped(rect, raw.width, raw.height) {
            None => Err(OUTSIDE_CAPTURE@),
            Some(part) => match part_of(raw.bytes@, part.0, part.1, part.2, part.3) {
                Err(message) => Err("targeted screenshot crop failed: "@ + message),
                Ok(_) => Ok(Some(part)),
            },
        },
    }
}

/// Whether a capture is what is shown of another.
pub open spec fn is_shown(
    shown: RawScreenshotCapture,
    raw: RawScreenshotCapture,
    rect: Option<PixelRect>,
) -> bool {
    match rect {
        None => shown == raw,
        Some(part) => is_part(shown, raw, part),
    }
}

/// The part of a capture that is shown beside a tree.
pub fn cut_for_app_state(
    raw: RawScreenshotCapture,
    crop: Option<PixelRect>,
    target_requested: bool,
) -> (r: Result<RawScreenshotCapture, String>)
    ensures
        match part_shown(raw, crop, target_requested) {
            Err(message) => r is Err && r->Err_0@ == message,
            Ok(rect) => r is Ok && is_shown(r->Ok_0, raw, rect),
        },
{
    let rect: PixelRect = match crop {
        None => if target_requested {
            return Err(NO_WINDOW_TO_SHOW.to_owned());
        } else {
            return Ok(raw);
        },
        Some(rect) => rect,
    };
    let (x, y, width, height): (i32, i32, u32, u32) = match clip_capture_rect(
        rect,
        raw.width,
        raw.height,
    ) {
        Ok(part) => part,
        Err(message) => return Err(message),
    };
    match crop_png(&raw.bytes, x, y, width, height) {
        Ok((bytes, width, height)) => Ok(
            RawScreenshotCapture {
                mime_type: raw.mime_type,
                bytes,
                source: raw.source,
                width,
                height,
            },
        ),
        Err(message) => Err(cat("targeted screenshot crop failed: ", &message)),
    }
}

/// Whether an answer is a payload, or why there is none with its cause.
pub open spec fn tells_capture(
    given: Result<ScreenshotCapture, CaptureError>,
    r: Result<ScreenshotCapture, String>,
) -> bool {
    match given {
        Ok(capture) => r is Ok && r->Ok_0 == capture,
        Err(error) => r is Err && r->Err_0@ == error.full(),
    }
}

/// The screenshot beside a tree: the window that was asked for, or the desktop where none
/// was, within the bounds asked for. `scale` and `shrink` propose dimensions as for any
/// payload.
pub fn prepare_app_state_screenshot<
    S: Fn(u32, u32, u32, u32) -> (u32, u32),
    F: Fn(u32, u32, usize, usize) -> (u32, u32),
>(
    raw: RawScreenshotCapture,
    crop: Option<PixelRect>,
    target_requested: bool,
    options: ScreenshotPayloadOptions,
    scale: S,
    shrink: F,
) -> (r: Result<ScreenshotCapture, String>)
    requires
        forall|w: u32, h: u32, max_w: u32, max_h: u32|
            #[trigger] scale.requires((w, h, max_w, max_h)),
        forall|w: u32, h: u32, encoded: usize, cap: usize|
            #[trigger] shrink.requires((w, h, encoded, cap)),
    ensures
        match part_shown(raw, crop, target_requested) {
            Err(message) => r is Err && r->Err_0@ == message,
            Ok(rect) => exists|
                shown: RawScreenshotCapture,
                given: Result<ScreenshotCapture, CaptureError>,
            |
                is_shown(shown, raw, rect) && #[trigger] prepares(
                    shown,
                    options,
                    scale,
                    shrink,
                    given,
                ) && tells_capture(given, r),
        },
{
    let shown = match cut_for_app_state(raw, crop, target_requested) {
        Ok(shown) => shown,
        Err(message) => return Err(message),
    };
    let ghost cut = shown;
    let prepared = prepare_screenshot_payload(shown, options, scale, shrink);
    let ghost given = prepared;
    assert(prepares(cut, options, scale, shrink, given));
    match prepared {
        Ok(capture) => Ok(capture),
        Err(error) => Err(error.detail()),
    }
}

/// The crop of the screenshot beside a tree, where a window was found, or why the window
/// is not shown.
pub open spec fn crop_meant(window: Option<WindowInfo>, width: u32, height: u32) -> Result<
    Option<PixelRect>,
    Seq<char>,
> {
    match window {
        None => Ok(None),
        Some(window) => match unseen(window) {
            Some(message) => Err(message),
            None => match window_part(window, width, height) {
                Err(message) => Err(message),
                Ok(rect) => Ok(Some(rect)),
            },
        },
    }
}

/// The crop of the screenshot beside a tree.
pub fn app_state_crop(window: Option<&WindowInfo>, width: u32, height: u32) -> (r: Result<
    Option<PixelRect>,
    String,
>)
    ensures
        match crop_meant(deref(window), width, height) {
            Ok(crop) => r is Ok && r->Ok_0 == crop,
            Err(message) => r is Err && r->Err_0@ == message,
        },
{
    match window {
        None => Ok(None),
        Some(window) => {
            match ensure_readonly_screenshot_target_is_visible(window) {
                Ok(_) => {},
                Err(message) => return Err(message),
            }
            match window_crop_rect_for_dimensions(window, width, height) {
                Ok(rect) => Ok(Some(rect)),
                Err(message) => Err(message),
            }
        },
    }
}

/// A window that was asked for and not found is not shown as the desktop: without a crop
/// there is no screenshot beside the tree.
pub proof fn the_desktop_is_not_shown_for_a_window(raw: RawScreenshotCapture)
    ensures
        part_shown(raw, None, true) == Err::<Option<PixelRect>, Seq<char>>(NO_WINDOW_TO_SHOW@),
{
}

/// A screenshot of a window that was raised shows the very window that was asked for, in
/// focus: no other window is shown in its place.
pub proof fn only_the_requested_window_is_shown(focus: WindowFocusResult)
    requires
        raised(Ok(focus)) is Ok,
    ensures
        focus.exact_window_focused,
        raised(Ok(focus))->Ok_0.window_id == focus.requested_window.window_id,
        !raised(Ok(focus))->Ok_0.hidden,
{
}

/// What is asked of a screenshot is what the request says, each in its own place.
pub proof fn the_options_are_those_passed(shot: ScreenshotParams, state: GetAppStateParams)
    ensures
        shot.options().max_width == shot.max_width,
        shot.options().max_height == shot.max_height,
        shot.options().max_bytes == shot.max_bytes,
        shot.options().format == shot.format,
        shot.options().quality == shot.quality,
        state.options().max_width == state.max_width,
        state.options().max_height == state.max_height,
        state.options().max_bytes == state.max_bytes,
        state.options().format == state.format,
        state.options().quality == state.quality,
{
}

/// A window that is shown where it is is the one its selectors name, and is not hidden; one
/// that was raised has the focus, is the one that was asked for, and is not hidden.
pub proof fn the_window_shown_is_the_one_named(
    target: WindowTarget,
    listed: Result<Vec<WindowInfo>, String>,
    focus: WindowFocusResult,
)
    ensures
        found(target, listed) is Ok <==> listed is Ok && resolved(listed->Ok_0@, target) is Ok
            && !listed->Ok_0@[resolved(listed->Ok_0@, target)->Ok_0].hidden,
        found(target, listed) is Ok ==> found(target, listed)->Ok_0 == listed->Ok_0@[resolved(
            listed->Ok_0@,
            target,
        )->Ok_0],
        raised(Ok(focus)) is Ok <==> focus.exact_window_focused && focus.focused_window is Some
            && focus.focused_window->0.window_id == focus.requested_window.window_id
            && !focus.focused_window->0.hidden,
        raised(Ok(focus)) is Ok ==> raised(Ok(focus))->Ok_0 == focus.focused_window->0,
{
}

/// A screenshot captures the desktop for the window that was raised or found, with the windows
/// in its way; a window that was not leads to none.
pub proof fn a_capture_is_for_the_window_found<
    S: Fn(u32, u32, u32, u32) -> (u32, u32),
    F: Fn(u32, u32, usize, usize) -> (u32, u32),
>(
    params: ScreenshotParams,
    before: Option<(u32, u32)>,
    after: Option<(u32, u32)>,
    task: ScreenshotTask,
    report: ScreenshotReport,
    scale: S,
    shrink: F,
    next: ScreenshotTask,
)
    requires
        reports_shot(task, report),
        screenshot_follows(params, before, after, task, report, scale, shrink, next),
    ensures
        task is Raise ==> (next is Capture <==> raised(report->Focus_0) is Ok),
        task is Raise && next is Capture ==> next->window == Some(raised(report->Focus_0)->Ok_0),
        task is Find ==> (next is Uncover <==> found(task->Find_0, report->Listed_0) is Ok),
        task is Find && next is Uncover ==> next->Uncover_0 == found(
            task->Find_0,
            report->Listed_0,
        )->Ok_0,
        task is Uncover ==> next is Capture && next->window == Some(task->Uncover_0)
            && next->occluded_by == report->Covered_0,
        (task is Raise || task is Find) && !(next is Capture || next is Uncover)
            ==> next is Refused,
        task is Capture && report->Captured_0 is Err ==> next is Refused,
        task is Capture && report->Captured_0 is Ok && report->Captured_0->Ok_0.width > 0
            && report->Captured_0->Ok_0.height > 0 ==> after == Some(
            (report->Captured_0->Ok_0.width, report->Captured_0->Ok_0.height),
        ),
{
}

/// Without a window and a region, and on the whole screen, all of the capture is shown; with a
/// window, the part of the capture that is the window, and it is told where that is.
pub proof fn what_is_shown_is_the_window_or_all(
    raw: RawScreenshotCapture,
    window: Option<WindowInfo>,
    params: ScreenshotParams,
    r: Result<CutScreenshot, RegionError>,
)
    requires
        cuts(raw, window, params, r),
        params.region is None,
    ensures
        window is None || params.full_screen == Some(true) ==> r is Ok && r->Ok_0.capture == raw
            && r->Ok_0.window_crop is None && r->Ok_0.region_crop is None,
        window is Some && params.full_screen != Some(true) && r is Ok ==> {
            let rect = window_part(window->0, raw.width, raw.height);
            &&& rect is Ok
            &&& is_part(r->Ok_0.capture, raw, rect->Ok_0)
            &&& r->Ok_0.window_crop is Some
            &&& (r->Ok_0.window_crop->0).0 == rect->Ok_0.0 && (r->Ok_0.window_crop->0).1
                == rect->Ok_0.1
            &&& r->Ok_0.region_crop is None
        },
        window is Some && params.full_screen != Some(true) && window_part(
            window->0,
            raw.width,
            raw.height,
        ) is Err ==> r is Err,
{
}

/// A region is cut out of what is shown without it, where it was asked to be measured from,
/// and it is told where on the desktop it is.
pub proof fn a_region_is_cut_out_of_what_is_shown(
    first: RawScreenshotCapture,
    window_crop: Option<PixelRect>,
    params: ScreenshotParams,
    r: Result<CutScreenshot, RegionError>,
)
    requires
        cuts_region(first, window_crop, params, r),
        params.region is Some,
        r is Ok,
    ensures
        ({
            let part = region_part(
                params.region->0,
                params.relative is Some && params.relative->0,
                window_crop,
                first.width,
                first.height,
            );
            &&& part is Ok
            &&& is_part(r->Ok_0.capture, first, (part->Ok_0).0)
            &&& r->Ok_0.region_crop == Some((part->Ok_0).1)
            &&& r->Ok_0.window_crop == window_crop
        }),
{
}

/// A window is shown beside its tree only where it has the focus and is not hidden, by its own
/// part of the capture; and where no window is meant, all of it is shown.
pub proof fn a_window_beside_its_tree_is_in_front(
    window: WindowInfo,
    width: u32,
    height: u32,
    raw: RawScreenshotCapture,
)
    ensures
        crop_meant(Some(window), width, height) is Ok <==> window.focused && !window.hidden
            && window_part(window, width, height) is Ok,
        crop_meant(Some(window), width, height) is Ok ==> crop_meant(
            Some(window),
            width,
            height,
        )->Ok_0 == Some(window_part(window, width, height)->Ok_0),
        crop_meant(None, width, height) == Ok::<Option<PixelRect>, Seq<char>>(None),
        part_shown(raw, None, false) == Ok::<Option<PixelRect>, Seq<char>>(None),
{
}

/// A caption tells the part of the desktop that is shown: the region's where there is one, and
/// else the window's.
pub proof fn a_caption_tells_the_part_shown(
    caption: ScreenshotCaption,
    window: Option<WindowInfo>,
    cut: CutScreenshot,
    off_screen: Option<Seq<char>>,
    occluded_by: Vec<WindowOcclusion>,
)
    requires
        captions(caption, window, cut, off_screen, occluded_by),
    ensures
        cut.region_crop is Some ==> caption.crop == cut.region_crop && caption.cropped_to_region,
        cut.region_crop is None ==> caption.crop == cut.window_crop && !caption.cropped_to_region,
        caption.cropped_to_window <==> cut.window_crop is Some,
        window is Some ==> caption.window_title == window->0.title && caption.occluded_by == Some(
            occluded_by,
        ),
        window is None ==> caption.window_title is None && caption.occluded_by is None,
        caption.occlusion_note is Some <==> window is Some && occluded_by@.len() > 0,
{
}

/// A screenshot of a window begins with the window that is named: it is raised unless that is
/// declined, and then only found; without one, the desktop is captured at once.
pub proof fn a_screenshot_begins_with_the_window_named(
    params: ScreenshotParams,
    first: ScreenshotTask,
)
    requires
        call_ensures(start_screenshot, (&params,), first),
    ensures
        first is Capture <==> !params.target.target().names_window(),
        first is Raise <==> params.target.target().names_window() && (params.raise_window is None
            || params.raise_window->0),
        first is Raise ==> first->Raise_0 == params.target.target(),
        first is Find ==> first->Find_0 == params.target.target(),
        first is Capture ==> first->window is None,
{
}

} // verus!
