//! Rectangles and points of the desktop: what of a capture is meant, where a window-relative
//! point is, and what is off the screen.

use vstd::prelude::*;
use vstd::string::StringExecFns;
use crate::abs_pointer::PointerLanding;
use crate::numerals::{decimal, decimal_of, signed_decimal_of};
use crate::params::{ClickParams, ScreenshotRegion, ScrollParams};
use crate::text::{cat, text_of};
use crate::windowing::types::{WindowBounds, WindowFocusResult, WindowInfo};

verus! {

/// `(x, y, width, height)` in pixels.
pub type PixelRect = (i32, i32, u32, u32);

/// Whether a pixel is inside a rectangle.
pub open spec fn inside(x: int, y: int, rect: PixelRect) -> bool {
    rect.0 <= x < rect.0 + rect.2 && rect.1 <= y < rect.1 + rect.3
}

/// The greater of two numbers.
pub open spec fn max(a: int, b: int) -> int {
    if a < b {
        b
    } else {
        a
    }
}

/// The lesser of two numbers.
pub open spec fn min(a: int, b: int) -> int {
    if a < b {
        a
    } else {
        b
    }
}

/// The edges of what a rectangle and a capture share: left, top, right, bottom.
pub open spec fn shared(rect: PixelRect, width: u32, height: u32) -> (int, int, int, int) {
    (
        max(rect.0 as int, 0),
        max(rect.1 as int, 0),
        min(rect.0 + rect.2, width as int),
        min(rect.1 + rect.3, height as int),
    )
}

/// What of a rectangle is on a capture, where anything is.
pub open spec fn clipped(rect: PixelRect, width: u32, height: u32) -> Option<PixelRect> {
    let (left, top, right, bottom) = shared(rect, width, height);
    if left < right && top < bottom {
        Some((left as i32, top as i32, (right - left) as u32, (bottom - top) as u32))
    } else {
        None
    }
}

/// What is said of a window that is nowhere on the capture.
pub const OUTSIDE_CAPTURE: &'static str =
    "targeted screenshot window is outside the captured desktop; refusing to return the full desktop";

/// What of a rectangle is on a capture.
pub fn clip_capture_rect(rect: PixelRect, capture_width: u32, capture_height: u32) -> (r: Result<
    PixelRect,
    String,
>)
    ensures
        match r {
            Ok(part) => clipped(rect, capture_width, capture_height) == Some(part),
            Err(message) => clipped(rect, capture_width, capture_height) is None && message@
                == OUTSIDE_CAPTURE@,
        },
{
    let x: i64 = rect.0 as i64;
    let y: i64 = rect.1 as i64;
    let left: i64 = if x < 0 {
        0
    } else {
        x
    };
    let top: i64 = if y < 0 {
        0
    } else {
        y
    };
    let right: i64 = if x + (rect.2 as i64) < capture_width as i64 {
        x + rect.2 as i64
    } else {
        capture_width as i64
    };
    let bottom: i64 = if y + (rect.3 as i64) < capture_height as i64 {
        y + rect.3 as i64
    } else {
        capture_height as i64
    };
    if right <= left || bottom <= top {
        return Err(OUTSIDE_CAPTURE.to_owned());
    }
    Ok((left as i32, top as i32, (right - left) as u32, (bottom - top) as u32))
}

/// Clipping keeps exactly the pixels that are in the rectangle and on the capture.
pub proof fn clipping_keeps_the_shared_pixels(
    rect: PixelRect,
    width: u32,
    height: u32,
    x: int,
    y: int,
)
    ensures
        (inside(x, y, rect) && inside(x, y, (0i32, 0i32, width, height))) <==> clipped(
            rect,
            width,
            height,
        ) is Some && inside(x, y, clipped(rect, width, height)->0),
{
}

/// A rectangle that is on the capture is clipped to itself.
pub proof fn clipping_twice_is_clipping_once(rect: PixelRect, width: u32, height: u32)
    requires
        clipped(rect, width, height) is Some,
    ensures
        clipped(clipped(rect, width, height)->0, width, height) == clipped(rect, width, height),
{
}

/// A window's bounds as a rectangle, where it has a corner and an extent.
pub open spec fn crop_of(bounds: WindowBounds) -> Option<PixelRect> {
    match (bounds.x, bounds.y) {
        (Some(x), Some(y)) => if bounds.width == 0 || bounds.height == 0 {
            None
        } else {
            Some((x, y, bounds.width, bounds.height))
        },
        _ => None,
    }
}

/// Convert a window's bounds into a crop rectangle, if it has a usable origin
/// and non-zero size.
pub fn window_crop_rect(bounds: &WindowBounds) -> (r: Option<PixelRect>)
    ensures
        r == crop_of(*bounds),
{
    match (bounds.x, bounds.y) {
        (Some(x), Some(y)) => if bounds.width == 0 || bounds.height == 0 {
            None
        } else {
            Some((x, y, bounds.width, bounds.height))
        },
        _ => None,
    }
}

/// The part of a capture that is a window, or why it cannot be told.
pub open spec fn window_part(window: WindowInfo, width: u32, height: u32) -> Result<
    PixelRect,
    Seq<char>,
> {
    match window.bounds {
        None => Err(
            "targeted screenshot requires window bounds; refusing to return the full desktop"@,
        ),
        Some(bounds) => match crop_of(bounds) {
            None => Err(
                "targeted screenshot has unusable window bounds; refusing to return the full desktop"@,
            ),
            Some(rect) => match clipped(rect, width, height) {
                Some(part) => Ok(part),
                None => Err(OUTSIDE_CAPTURE@),
            },
        },
    }
}

/// The part of a capture that is a window.
pub fn window_crop_rect_for_dimensions(
    window: &WindowInfo,
    capture_width: u32,
    capture_height: u32,
) -> (r: Result<PixelRect, String>)
    ensures
        match r {
            Ok(part) => window_part(*window, capture_width, capture_height) == Ok::<
                PixelRect,
                Seq<char>,
            >(part),
            Err(message) => window_part(*window, capture_width, capture_height) == Err::<
                PixelRect,
                Seq<char>,
            >(message@),
        },
{
    match &window.bounds {
        None => Err(
            "targeted screenshot requires window bounds; refusing to return the full desktop".to_owned(),
        ),
        Some(bounds) => match window_crop_rect(bounds) {
            None => Err(
                "targeted screenshot has unusable window bounds; refusing to return the full desktop".to_owned(),
            ),
            Some(rect) => clip_capture_rect(rect, capture_width, capture_height),
        },
    }
}

/// Where a focused window is on the captured desktop, as far as its size is known.
pub open spec fn focused_part(focus: WindowFocusResult, desktop: Option<(u32, u32)>) -> Result<
    PixelRect,
    Seq<char>,
> {
    let window = match focus.focused_window {
        Some(window) => window,
        None => focus.requested_window,
    };
    let rect = match window.bounds {
        Some(bounds) => crop_of(bounds),
        None => None,
    };
    match (rect, desktop) {
        (None, _) => Err("Window-relative coordinates require usable target-window bounds."@),
        (Some(rect), None) => Ok(rect),
        (Some(rect), Some((width, height))) => match clipped(rect, width, height) {
            Some(part) => Ok(part),
            None => Err("Could not map target-window coordinates: "@ + OUTSIDE_CAPTURE@),
        },
    }
}

/// Where a focused window is on the captured desktop.
pub fn focused_window_coordinate_map(
    focus: &WindowFocusResult,
    desktop: Option<(u32, u32)>,
) -> (r: Result<PixelRect, String>)
    ensures
        match r {
            Ok(part) => focused_part(*focus, desktop) == Ok::<PixelRect, Seq<char>>(part),
            Err(message) => focused_part(*focus, desktop) == Err::<PixelRect, Seq<char>>(message@),
        },
{
    let window = match &focus.focused_window {
        Some(window) => window,
        None => &focus.requested_window,
    };
    let rect = match &window.bounds {
        Some(bounds) => window_crop_rect(bounds),
        None => None,
    };
    let rect: PixelRect = match rect {
        Some(rect) => rect,
        None => return Err(
            "Window-relative coordinates require usable target-window bounds.".to_owned(),
        ),
    };
    match desktop {
        None => Ok(rect),
        Some((width, height)) => match clip_capture_rect(rect, width, height) {
            Ok(part) => Ok(part),
            Err(message) => Err(cat("Could not map target-window coordinates: ", &message)),
        },
    }
}

/// Whether an offset is that of a pixel of a rectangle.
pub open spec fn offset_inside(x: i32, y: i32, rect: PixelRect) -> bool {
    0 <= x < rect.2 && 0 <= y < rect.3
}

/// What a window-relative click comes to on the desktop, or why it comes to nothing.
pub open spec fn click_point(x: Option<i32>, y: Option<i32>, rect: PixelRect) -> Result<
    (i32, i32),
    Seq<char>,
> {
    if x is None || y is None {
        Err("Relative coordinate clicks require both x and y."@)
    } else if rect.2 == 0 || rect.3 == 0 {
        Err("Relative coordinate clicks require non-empty target-window bounds."@)
    } else if !offset_inside(x->0, y->0, rect) {
        Err("Relative click coordinates must be inside target-window bounds."@)
    } else if rect.0 + x->0 > i32::MAX {
        Err("Relative click x coordinate overflowed."@)
    } else if rect.1 + y->0 > i32::MAX {
        Err("Relative click y coordinate overflowed."@)
    } else {
        Ok(((rect.0 + x->0) as i32, (rect.1 + y->0) as i32))
    }
}

/// Turn window-relative click coordinates into desktop ones.
pub fn apply_window_relative_click_coordinates(params: &mut ClickParams, capture_rect: PixelRect) -> (r:
    Result<(), String>)
    ensures
        match click_point(old(params).x, old(params).y, capture_rect) {
            Ok((x, y)) => r is Ok && *final(params) == (ClickParams {
                x: Some(x),
                y: Some(y),
                ..*old(params)
            }),
            Err(message) => r is Err && r->Err_0@ == message && *final(params) == *old(params),
        },
{
    let (x, y): (i32, i32) = match (params.x, params.y) {
        (Some(x), Some(y)) => (x, y),
        _ => return Err("Relative coordinate clicks require both x and y.".to_owned()),
    };
    let (left, top, width, height): (i32, i32, u32, u32) = capture_rect;
    if width == 0 || height == 0 {
        return Err(
            "Relative coordinate clicks require non-empty target-window bounds.".to_owned(),
        );
    }
    if x < 0 || y < 0 || x as i64 >= width as i64 || y as i64 >= height as i64 {
        return Err("Relative click coordinates must be inside target-window bounds.".to_owned());
    }
    let far_x: i64 = left as i64 + x as i64;
    let far_y: i64 = top as i64 + y as i64;
    if far_x > i32::MAX as i64 {
        return Err("Relative click x coordinate overflowed.".to_owned());
    }
    if far_y > i32::MAX as i64 {
        return Err("Relative click y coordinate overflowed.".to_owned());
    }
    params.x = Some(far_x as i32);
    params.y = Some(far_y as i32);
    Ok(())
}

/// A sum of two coordinates, no greater than a coordinate can be.
pub open spec fn capped(n: int) -> i32 {
    if n > i32::MAX {
        i32::MAX
    } else {
        n as i32
    }
}

/// The middle of a window, or why it has none.
pub open spec fn middle(rect: PixelRect) -> Result<(i32, i32), Seq<char>> {
    if rect.2 == 0 || rect.3 == 0 {
        Err(
            "Window-targeted scroll requires non-empty target-window bounds; pass x/y explicitly."@,
        )
    } else {
        Ok((capped(rect.0 + rect.2 / 2), capped(rect.1 + rect.3 / 2)))
    }
}

fn capped_sum(a: i32, b: u32) -> (r: i32)
    ensures
        r == capped(a + b),
{
    let sum: i64 = a as i64 + b as i64;
    if sum > i32::MAX as i64 {
        i32::MAX
    } else {
        sum as i32
    }
}

/// Point a window-targeted scroll at the center of the resolved window when
/// the caller supplied no coordinates. Without this the wheel events land on
/// whatever is under the current pointer position.
pub fn apply_window_center_scroll_point(params: &mut ScrollParams, capture_rect: PixelRect) -> (r:
    Result<(), String>)
    ensures
        match middle(capture_rect) {
            Ok((x, y)) => r is Ok && *final(params) == (ScrollParams {
                x: Some(x),
                y: Some(y),
                ..*old(params)
            }),
            Err(message) => r is Err && r->Err_0@ == message && *final(params) == *old(params),
        },
{
    let (left, top, width, height): (i32, i32, u32, u32) = capture_rect;
    if width == 0 || height == 0 {
        return Err(
            "Window-targeted scroll requires non-empty target-window bounds; pass x/y explicitly.".to_owned(),
        );
    }
    params.x = Some(capped_sum(left, width / 2));
    params.y = Some(capped_sum(top, height / 2));
    Ok(())
}

/// What a window-relative scroll comes to on the desktop, or why it comes to nothing.
pub open spec fn scroll_point(x: Option<i32>, y: Option<i32>, rect: PixelRect) -> Result<
    (i32, i32),
    Seq<char>,
> {
    if x is None || y is None {
        Err("Relative scroll coordinates require both x and y."@)
    } else if rect.2 == 0 || rect.3 == 0 {
        Err("Relative scroll coordinates require non-empty target-window bounds."@)
    } else if !offset_inside(x->0, y->0, rect) {
        Err("Relative scroll coordinates must be inside target-window bounds."@)
    } else {
        Ok((capped(rect.0 + x->0), capped(rect.1 + y->0)))
    }
}

/// Turn window-relative scroll coordinates into desktop ones.
pub fn apply_window_relative_scroll_coordinates(params: &mut ScrollParams, capture_rect: PixelRect) -> (r:
    Result<(), String>)
    ensures
        match scroll_point(old(params).x, old(params).y, capture_rect) {
            Ok((x, y)) => r is Ok && *final(params) == (ScrollParams {
                x: Some(x),
                y: Some(y),
                ..*old(params)
            }),
            Err(message) => r is Err && r->Err_0@ == message && *final(params) == *old(params),
        },
{
    let (x, y): (i32, i32) = match (params.x, params.y) {
        (Some(x), Some(y)) => (x, y),
        _ => return Err("Relative scroll coordinates require both x and y.".to_owned()),
    };
    let (left, top, width, height): (i32, i32, u32, u32) = capture_rect;
    if width == 0 || height == 0 {
        return Err(
            "Relative scroll coordinates require non-empty target-window bounds.".to_owned(),
        );
    }
    if x < 0 || y < 0 || x as i64 >= width as i64 || y as i64 >= height as i64 {
        return Err("Relative scroll coordinates must be inside target-window bounds.".to_owned());
    }
    params.x = Some(capped_sum(left, x as u32));
    params.y = Some(capped_sum(top, y as u32));
    Ok(())
}

/// A window-relative click lands inside the window it is relative to.
pub proof fn a_relative_click_is_inside_its_window(x: Option<i32>, y: Option<i32>, rect: PixelRect)
    requires
        click_point(x, y, rect) is Ok,
    ensures
        inside(
            (click_point(x, y, rect)->Ok_0).0 as int,
            (click_point(x, y, rect)->Ok_0).1 as int,
            rect,
        ),
{
}

/// A window-relative scroll, and one at a window's middle, lands inside the window, on a
/// desktop whose pixels all have a coordinate.
pub proof fn a_scroll_is_inside_its_window(x: Option<i32>, y: Option<i32>, rect: PixelRect)
    requires
        rect.0 + rect.2 <= i32::MAX,
        rect.1 + rect.3 <= i32::MAX,
    ensures
        scroll_point(x, y, rect) is Ok ==> inside(
            (scroll_point(x, y, rect)->Ok_0).0 as int,
            (scroll_point(x, y, rect)->Ok_0).1 as int,
            rect,
        ),
        middle(rect) is Ok ==> inside(
            (middle(rect)->Ok_0).0 as int,
            (middle(rect)->Ok_0).1 as int,
            rect,
        ),
{
}

/// The corner of the desktop that a requested region is measured from.
pub open spec fn region_origin(relative: bool, window_crop: Option<PixelRect>) -> (int, int) {
    match window_crop {
        Some(rect) => if relative {
            (rect.0 as int, rect.1 as int)
        } else {
            (0, 0)
        },
        None => (0, 0),
    }
}

/// The corner of the desktop that the capture starts at.
pub open spec fn capture_corner(window_crop: Option<PixelRect>) -> (int, int) {
    match window_crop {
        Some(rect) => (rect.0 as int, rect.1 as int),
        None => (0, 0),
    }
}

/// The edges of a requested region on the capture: left, top, right, bottom.
pub open spec fn region_edges(
    region: ScreenshotRegion,
    relative: bool,
    window_crop: Option<PixelRect>,
    width: u32,
    height: u32,
) -> (int, int, int, int) {
    let (from_x, from_y) = region_origin(relative, window_crop);
    let (corner_x, corner_y) = capture_corner(window_crop);
    let left = from_x + region.x - corner_x;
    let top = from_y + region.y - corner_y;
    (
        max(left, 0),
        max(top, 0),
        min(left + region.width, width as int),
        min(top + region.height, height as int),
    )
}

/// The part of the current capture that a region asks for, and the same part on the
/// desktop, or why there is none.
pub open spec fn region_part(
    region: ScreenshotRegion,
    relative: bool,
    window_crop: Option<PixelRect>,
    width: u32,
    height: u32,
) -> Result<(PixelRect, PixelRect), Seq<char>> {
    let (left, top, right, bottom) = region_edges(region, relative, window_crop, width, height);
    let (corner_x, corner_y) = capture_corner(window_crop);
    if region.width == 0 || region.height == 0 {
        Err("region needs a positive width and height."@)
    } else if relative && window_crop is None {
        Err("relative regions need a window target."@)
    } else if right <= left || bottom <= top {
        Err(
            "region ("@ + decimal(region.x as int) + ", "@ + decimal(region.y as int) + ", "@
                + decimal(region.width as int) + "x"@ + decimal(region.height as int)
                + ") lies outside the captured "@ + decimal(width as int) + "x"@ + decimal(
                height as int,
            ) + " image."@,
        )
    } else if left > i32::MAX {
        Err("region x does not fit the captured image."@)
    } else if top > i32::MAX {
        Err("region y does not fit the captured image."@)
    } else if left + corner_x > i32::MAX {
        Err("region x does not fit the captured image."@)
    } else if top + corner_y > i32::MAX {
        Err("region y does not fit the captured image."@)
    } else {
        let extent = ((right - left) as u32, (bottom - top) as u32);
        Ok(
            (
                (left as i32, top as i32, extent.0, extent.1),
                ((left + corner_x) as i32, (top + corner_y) as i32, extent.0, extent.1),
            ),
        )
    }
}

/// The rectangle a `region` request cuts out of the current capture (in that
/// capture's pixels) and the same rectangle in desktop coordinates for the
/// caption. `window_crop` is the desktop rectangle the capture was already
/// cropped to, when it was.
pub fn region_crop_rect(
    region: &ScreenshotRegion,
    relative: bool,
    window_crop: Option<PixelRect>,
    capture_width: u32,
    capture_height: u32,
) -> (r: Result<(PixelRect, PixelRect), String>)
    ensures
        ({
            let due = region_part(*region, relative, window_crop, capture_width, capture_height);
            match r {
                Ok(parts) => due == Ok::<(PixelRect, PixelRect), Seq<char>>(parts),
                Err(message) => due == Err::<(PixelRect, PixelRect), Seq<char>>(message@),
            }
        }),
{
    if region.width == 0 || region.height == 0 {
        return Err("region needs a positive width and height.".to_owned());
    }
    if relative && window_crop.is_none() {
        return Err("relative regions need a window target.".to_owned());
    }
    let (corner_x, corner_y): (i64, i64) = match window_crop {
        Some((x, y, _, _)) => (x as i64, y as i64),
        None => (0, 0),
    };
    let (from_x, from_y): (i64, i64) = if relative {
        (corner_x, corner_y)
    } else {
        (0, 0)
    };
    let far_left: i64 = from_x + region.x as i64 - corner_x;
    let far_top: i64 = from_y + region.y as i64 - corner_y;
    let far_right: i64 = far_left + region.width as i64;
    let far_bottom: i64 = far_top + region.height as i64;
    let left: i64 = if far_left < 0 {
        0
    } else {
        far_left
    };
    let top: i64 = if far_top < 0 {
        0
    } else {
        far_top
    };
    let right: i64 = if far_right < capture_width as i64 {
        far_right
    } else {
        capture_width as i64
    };
    let bottom: i64 = if far_bottom < capture_height as i64 {
        far_bottom
    } else {
        capture_height as i64
    };
    if right <= left || bottom <= top {
        let mut message = cat("region (", &signed_decimal_of(region.x as i64));
        message.append(", ");
        message.append(&signed_decimal_of(region.y as i64));
        message.append(", ");
        message.append(&decimal_of(region.width as u64));
        message.append("x");
        message.append(&decimal_of(region.height as u64));
        message.append(") lies outside the captured ");
        message.append(&decimal_of(capture_width as u64));
        message.append("x");
        message.append(&decimal_of(capture_height as u64));
        message.append(" image.");
        return Err(message);
    }
    if left > i32::MAX as i64 {
        return Err("region x does not fit the captured image.".to_owned());
    }
    if top > i32::MAX as i64 {
        return Err("region y does not fit the captured image.".to_owned());
    }
    if left + corner_x > i32::MAX as i64 {
        return Err("region x does not fit the captured image.".to_owned());
    }
    if top + corner_y > i32::MAX as i64 {
        return Err("region y does not fit the captured image.".to_owned());
    }
    let width: u32 = (right - left) as u32;
    let height: u32 = (bottom - top) as u32;
    Ok(
        (
            (left as i32, top as i32, width, height),
            ((left + corner_x) as i32, (top + corner_y) as i32, width, height),
        ),
    )
}

/// A region is cut out of the capture alone: the part is on it, it is one part in both
/// spaces, and each of its pixels is one that was asked for.
pub proof fn a_region_is_cut_out_of_the_capture(
    region: ScreenshotRegion,
    relative: bool,
    window_crop: Option<PixelRect>,
    width: u32,
    height: u32,
    x: int,
    y: int,
)
    requires
        region_part(region, relative, window_crop, width, height) is Ok,
    ensures
        ({
            let (part, desktop) = region_part(region, relative, window_crop, width, height)->Ok_0;
            let (corner_x, corner_y) = capture_corner(window_crop);
            let (from_x, from_y) = region_origin(relative, window_crop);
            &&& part.2 > 0 && part.3 > 0
            &&& inside(x, y, part) ==> inside(x, y, (0i32, 0i32, width, height))
            &&& inside(x, y, part) <==> inside(x + corner_x, y + corner_y, desktop)
            &&& inside(x, y, part) <==> inside(x, y, (0i32, 0i32, width, height)) && from_x
                + region.x <= x + corner_x < from_x + region.x + region.width && from_y + region.y
                <= y + corner_y < from_y + region.y + region.height
        }),
{
}

/// How much of a rectangle is on the desktop, in hundredths, rounded down.
pub open spec fn visible_percent(x: i32, y: i32, width: u32, height: u32, desktop: (i32, i32)) -> int {
    let wide = min(x + width, desktop.0 as int) - max(x as int, 0);
    let high = min(y + height, desktop.1 as int) - max(y as int, 0);
    let seen = if wide > 0 && high > 0 {
        wide * high
    } else {
        0
    };
    (seen * 100) / (width * height)
}

/// What is said of a window that is partly off the screen.
pub open spec fn off_screen_words(x: i32, y: i32, width: u32, height: u32, percent: int) -> Seq<char> {
    "WARNING: the target window (bounds "@ + decimal(x as int) + ","@ + decimal(y as int) + " "@
        + decimal(width as int) + "x"@ + decimal(height as int) + ") is only ~"@ + decimal(percent)
        + "% on-screen; off-screen regions are missing from screenshots and unreachable by coordinate input. Use move_window/resize_window to bring it fully on-screen."@
}

/// The note on a window that is partly off the screen, where it is.
pub open spec fn off_screen_note(bounds: WindowBounds, desktop: Option<(i32, i32)>) -> Option<
    Seq<char>,
> {
    match (crop_of(bounds), desktop) {
        (Some((x, y, width, height)), Some(desktop)) => {
            let percent = visible_percent(x, y, width, height, desktop);
            if percent >= 100 {
                None
            } else {
                Some(off_screen_words(x, y, width, height, percent))
            }
        },
        _ => None,
    }
}

/// How much of a rectangle is on the desktop, in hundredths, rounded down.
fn percent_visible(x: i32, y: i32, width: u32, height: u32, desktop: (i32, i32)) -> (r: u64)
    requires
        width > 0,
        height > 0,
    ensures
        r == visible_percent(x, y, width, height, desktop),
        r <= 100,
{
    let left: i64 = if x < 0 {
        0
    } else {
        x as i64
    };
    let top: i64 = if y < 0 {
        0
    } else {
        y as i64
    };
    let right: i64 = if x as i64 + (width as i64) < desktop.0 as i64 {
        x as i64 + width as i64
    } else {
        desktop.0 as i64
    };
    let bottom: i64 = if y as i64 + (height as i64) < desktop.1 as i64 {
        y as i64 + height as i64
    } else {
        desktop.1 as i64
    };
    let wide: i64 = right - left;
    let high: i64 = bottom - top;
    let seen: u128 = if wide > 0 && high > 0 {
        assert(0 <= wide * high <= width * height) by (nonlinear_arith)
            requires
                0 < wide <= width,
                0 < high <= height,
        ;
        assert(width * height <= 0xffff_ffff * 0xffff_ffff) by (nonlinear_arith)
            requires
                width <= 0xffff_ffff,
                height <= 0xffff_ffff,
        ;
        (wide as u128) * (high as u128)
    } else {
        assert(0 <= width * height) by (nonlinear_arith);
        0
    };
    assert(1 <= width * height <= 0xffff_ffff * 0xffff_ffff) by (nonlinear_arith)
        requires
            1 <= width <= 0xffff_ffff,
            1 <= height <= 0xffff_ffff,
    ;
    let area: u128 = (width as u128) * (height as u128);
    assert((seen * 100) / (area as int) <= 100) by (nonlinear_arith)
        requires
            0 <= seen <= area,
            area >= 1,
    ;
    ((seen * 100) / area) as u64
}

/// Warn when a targeted window pokes outside the captured desktop: clicks and
/// screenshots silently truncate to visible pixels there, which reads as
/// "success" while landing nowhere.
pub fn off_screen_note_for_bounds(bounds: &WindowBounds, desktop: Option<(i32, i32)>) -> (r: Option<
    String,
>)
    ensures
        text_of(r) == off_screen_note(*bounds, desktop),
{
    let (x, y, width, height): (i32, i32, u32, u32) = match window_crop_rect(bounds) {
        Some(rect) => rect,
        None => return None,
    };
    let desktop: (i32, i32) = match desktop {
        Some(desktop) => desktop,
        None => return None,
    };
    let percent: u64 = percent_visible(x, y, width, height, desktop);
    if percent >= 100 {
        return None;
    }
    let mut note = cat(
        "WARNING: the target window (bounds ",
        &signed_decimal_of(x as i64),
    );
    note.append(",");
    note.append(&signed_decimal_of(y as i64));
    note.append(" ");
    note.append(&decimal_of(width as u64));
    note.append("x");
    note.append(&decimal_of(height as u64));
    note.append(") is only ~");
    note.append(&decimal_of(percent));
    note.append(
        "% on-screen; off-screen regions are missing from screenshots and unreachable by coordinate input. Use move_window/resize_window to bring it fully on-screen.",
    );
    Some(note)
}

/// A window is said to be off the screen exactly when some of its pixels are.
pub proof fn only_a_window_off_screen_is_noted(
    bounds: WindowBounds,
    desktop: (i32, i32),
)
    requires
        crop_of(bounds) is Some,
    ensures
        ({
            let (x, y, width, height) = crop_of(bounds)->0;
            off_screen_note(bounds, Some(desktop)) is None <==> 0 <= x && 0 <= y && x + width
                <= desktop.0 && y + height <= desktop.1
        }),
{
    let (x, y, width, height) = crop_of(bounds)->0;
    let wide = min(x + width, desktop.0 as int) - max(x as int, 0);
    let high = min(y + height, desktop.1 as int) - max(y as int, 0);
    let area = width * height;
    assert(area >= 1) by (nonlinear_arith)
        requires
            width >= 1,
            height >= 1,
            area == width * height,
    ;
    if 0 <= x && 0 <= y && x + width <= desktop.0 && y + height <= desktop.1 {
        assert(wide == width && high == height);
        assert((area * 100) / area == 100) by (nonlinear_arith)
            requires
                area >= 1,
        ;
    } else if wide > 0 && high > 0 {
        assert(wide < width || high < height);
        let seen = wide * high;
        assert(seen < area) by (nonlinear_arith)
            requires
                0 < wide <= width,
                0 < high <= height,
                wide < width || high < height,
                seen == wide * high,
                area == width * height,
        ;
        assert((seen * 100) / area < 100) by (nonlinear_arith)
            requires
                0 <= seen < area,
        ;
    } else {
        assert(0int / area == 0) by (nonlinear_arith)
            requires
                area >= 1,
        ;
    }
}

/// Whether a point is on the desktop.
pub open spec fn on_desktop(x: i32, y: i32, desktop: (i32, i32)) -> bool {
    0 <= x < desktop.0 && 0 <= y < desktop.1
}

/// What is said of a point that is not on the desktop.
pub open spec fn off_point_words(x: i32, y: i32, desktop: Option<(i32, i32)>) -> Option<Seq<char>> {
    match desktop {
        Some(desktop) => if on_desktop(x, y, desktop) {
            None
        } else {
            Some(
                "WARNING: coordinate "@ + decimal(x as int) + ","@ + decimal(y as int)
                    + " is outside the captured desktop ("@ + decimal(desktop.0 as int) + "x"@
                    + decimal(desktop.1 as int) + "); the input landed on no visible pixel."@,
            )
        },
        None => None,
    }
}

/// Warn when a click/scroll coordinate is outside the captured desktop.
/// Click coordinates are physical capture-space pixels, so compare ONLY
/// against the capture rect.
pub fn off_screen_note_for_point(x: i32, y: i32, desktop: Option<(i32, i32)>) -> (r: Option<String>)
    ensures
        text_of(r) == off_point_words(x, y, desktop),
{
    let (width, height): (i32, i32) = match desktop {
        Some(desktop) => desktop,
        None => return None,
    };
    if x >= 0 && y >= 0 && x < width && y < height {
        return None;
    }
    let mut note = cat("WARNING: coordinate ", &signed_decimal_of(x as i64));
    note.append(",");
    note.append(&signed_decimal_of(y as i64));
    note.append(" is outside the captured desktop (");
    note.append(&signed_decimal_of(width as i64));
    note.append("x");
    note.append(&signed_decimal_of(height as i64));
    note.append("); the input landed on no visible pixel.");
    Some(note)
}

/// Remember the size of the desktop as a capture tells it, unless it tells none.
pub fn cache_desktop_size(cached: &mut Option<(u32, u32)>, width: u32, height: u32)
    ensures
        *final(cached) == if width == 0 || height == 0 {
            *old(cached)
        } else {
            Some((width, height))
        },
{
    if width != 0 && height != 0 {
        *cached = Some((width, height));
    }
}

/// The desktop as a capture tells its size, where it has one that coordinates reach.
pub fn desktop_extent(width: u32, height: u32) -> (r: Option<(i32, i32)>)
    ensures
        r == if 0 < width <= i32::MAX && 0 < height <= i32::MAX {
            Some((width as i32, height as i32))
        } else {
            None
        },
{
    if width == 0 || height == 0 || width > i32::MAX as u32 || height > i32::MAX as u32 {
        None
    } else {
        Some((width as i32, height as i32))
    }
}

/// How far the compositor's pointer position may sit from the point a
/// pointer action emitted before the result says so. One pixel of slack
/// absorbs fractional-scaling rounding; anything more is a lost event.
pub const POINTER_LANDING_TOLERANCE: i32 = 1;

/// Whether the pointer is farther from a point than is overlooked.
pub open spec fn is_off(actual: (i32, i32), expected: (i32, i32)) -> bool {
    crate::abs_pointer::longer_axis(actual, expected) > POINTER_LANDING_TOLERANCE
}

/// What is said of a pointer that is not where it was put.
pub open spec fn landing_words(actual: (i32, i32), expected: (i32, i32)) -> Option<Seq<char>> {
    if is_off(actual, expected) {
        Some(
            "WARNING: the compositor reports the pointer at ("@ + decimal(actual.0 as int) + ", "@
                + decimal(actual.1 as int) + "), not the ("@ + decimal(expected.0 as int) + ", "@
                + decimal(expected.1 as int)
                + ") this action asked for, so it landed there instead. Something moved the cursor after the motion was emitted."@,
        )
    } else {
        None
    }
}

/// Where the compositor says the pointer actually is, when that is not
/// where the pointer backend was told to put it.
///
/// The check exists because a lost motion event is invisible otherwise:
/// the backend reports success, and the button lands wherever the cursor
/// happened to be.
pub fn pointer_landing_note(actual: (i32, i32), expected: (i32, i32)) -> (r: Option<String>)
    ensures
        text_of(r) == landing_words(actual, expected),
{
    let dx: i64 = actual.0 as i64 - expected.0 as i64;
    let dy: i64 = actual.1 as i64 - expected.1 as i64;
    if -1 <= dx && dx <= 1 && -1 <= dy && dy <= 1 {
        return None;
    }
    let mut note = cat(
        "WARNING: the compositor reports the pointer at (",
        &signed_decimal_of(actual.0 as i64),
    );
    note.append(", ");
    note.append(&signed_decimal_of(actual.1 as i64));
    note.append("), not the (");
    note.append(&signed_decimal_of(expected.0 as i64));
    note.append(", ");
    note.append(&signed_decimal_of(expected.1 as i64));
    note.append(
        ") this action asked for, so it landed there instead. Something moved the cursor after the motion was emitted.",
    );
    Some(note)
}

/// What is said of a pointer that is not where it was put, where its position is known.
pub open spec fn moved_words(actual: Option<(i32, i32)>, expected: (i32, i32)) -> Option<Seq<char>> {
    match actual {
        Some(actual) => landing_words(actual, expected),
        None => None,
    }
}

/// What is said of a pointer that is not where it was put, where its position is known.
pub fn pointer_moved_note(actual: Option<(i32, i32)>, expected: (i32, i32)) -> (r: Option<String>)
    ensures
        text_of(r) == moved_words(actual, expected),
{
    match actual {
        Some(actual) => pointer_landing_note(actual, expected),
        None => None,
    }
}

/// What is said of a point that was brought onto the desktop.
pub open spec fn clamp_words(landing: PointerLanding) -> Option<Seq<char>> {
    if landing.requested != landing.emitted {
        Some(
            "Requested coordinate "@ + decimal(landing.requested.0 as int) + ","@ + decimal(
                landing.requested.1 as int,
            ) + " was clamped to "@ + decimal(landing.emitted.0 as int) + ","@ + decimal(
                landing.emitted.1 as int,
            ) + " by the uinput absolute pointer."@,
        )
    } else {
        None
    }
}

/// What is said of a point that was brought onto the desktop.
pub fn abs_pointer_clamp_note(landing: PointerLanding) -> (r: Option<String>)
    ensures
        text_of(r) == clamp_words(landing),
{
    if landing.requested.0 == landing.emitted.0 && landing.requested.1 == landing.emitted.1 {
        return None;
    }
    let mut note = cat(
        "Requested coordinate ",
        &signed_decimal_of(landing.requested.0 as i64),
    );
    note.append(",");
    note.append(&signed_decimal_of(landing.requested.1 as i64));
    note.append(" was clamped to ");
    note.append(&signed_decimal_of(landing.emitted.0 as i64));
    note.append(",");
    note.append(&signed_decimal_of(landing.emitted.1 as i64));
    note.append(" by the uinput absolute pointer.");
    Some(note)
}

/// A window-relative click lands as far from the corner of its window as is asked, and comes
/// to a point exactly where that is one of the window's pixels and has a coordinate.
pub proof fn a_relative_click_is_measured_from_the_corner(
    x: Option<i32>,
    y: Option<i32>,
    rect: PixelRect,
)
    ensures
        click_point(x, y, rect) is Ok <==> x is Some && y is Some && 0 <= x->0 < rect.2 && 0 <= y->0
            < rect.3 && rect.0 + x->0 <= i32::MAX && rect.1 + y->0 <= i32::MAX,
        click_point(x, y, rect) is Ok ==> (click_point(x, y, rect)->Ok_0).0 - rect.0 == x->0 && (
        click_point(x, y, rect)->Ok_0).1 - rect.1 == y->0,
{
}

/// A window-relative scroll lands as far from the corner of its window as is asked, where
/// the desktop's pixels there have coordinates, and comes to a point exactly where that is
/// one of the window's pixels.
pub proof fn a_relative_scroll_is_measured_from_the_corner(
    x: Option<i32>,
    y: Option<i32>,
    rect: PixelRect,
)
    requires
        rect.0 + rect.2 <= i32::MAX,
        rect.1 + rect.3 <= i32::MAX,
    ensures
        scroll_point(x, y, rect) is Ok <==> x is Some && y is Some && 0 <= x->0 < rect.2 && 0
            <= y->0 < rect.3,
        scroll_point(x, y, rect) is Ok ==> (scroll_point(x, y, rect)->Ok_0).0 - rect.0 == x->0 && (
        scroll_point(x, y, rect)->Ok_0).1 - rect.1 == y->0,
        middle(rect) is Ok <==> rect.2 > 0 && rect.3 > 0,
        middle(rect) is Ok ==> 0 <= rect.2 - 2 * ((middle(rect)->Ok_0).0 - rect.0) <= 1 && 0
            <= rect.3 - 2 * ((middle(rect)->Ok_0).1 - rect.1) <= 1,
{
}

/// The part of a capture that is a window holds exactly the pixels of the capture that are
/// within the window's bounds; a window without a corner or an extent, or with no pixel on
/// the capture, has no part of it.
pub proof fn a_windows_part_is_its_pixels_on_the_capture(
    window: WindowInfo,
    width: u32,
    height: u32,
    px: int,
    py: int,
)
    ensures
        window_part(window, width, height) is Ok ==> {
            &&& window.bounds is Some && window.bounds->0.x is Some && window.bounds->0.y is Some
            &&& inside(px, py, window_part(window, width, height)->Ok_0) <==> {
                &&& 0 <= px < width && 0 <= py < height
                &&& window.bounds->0.x->0 <= px < window.bounds->0.x->0 + window.bounds->0.width
                &&& window.bounds->0.y->0 <= py < window.bounds->0.y->0 + window.bounds->0.height
            }
        },
        window_part(window, width, height) is Err && window.bounds is Some && window.bounds->0.x
            is Some && window.bounds->0.y is Some ==> !(0 <= px < width && 0 <= py < height
            && window.bounds->0.x->0 <= px < window.bounds->0.x->0 + window.bounds->0.width
            && window.bounds->0.y->0 <= py < window.bounds->0.y->0 + window.bounds->0.height),
{
    if window.bounds is Some && crop_of(window.bounds->0) is Some {
        clipping_keeps_the_shared_pixels(crop_of(window.bounds->0)->0, width, height, px, py);
    }
}

/// Where a focused window is, is where the window that has the focus is, and where the
/// requested one is only if none has it; of it, what is on the desktop, where that is known.
pub proof fn a_focused_part_is_the_focused_windows_pixels(
    focus: WindowFocusResult,
    desktop: Option<(u32, u32)>,
    px: int,
    py: int,
)
    requires
        focused_part(focus, desktop) is Ok,
    ensures
        ({
            let bounds = if focus.focused_window is Some {
                focus.focused_window->0.bounds
            } else {
                focus.requested_window.bounds
            };
            &&& bounds is Some && bounds->0.x is Some && bounds->0.y is Some
            &&& inside(px, py, focused_part(focus, desktop)->Ok_0) <==> {
                &&& bounds->0.x->0 <= px < bounds->0.x->0 + bounds->0.width
                &&& bounds->0.y->0 <= py < bounds->0.y->0 + bounds->0.height
                &&& desktop is Some ==> 0 <= px < (desktop->0).0 && 0 <= py < (desktop->0).1
            }
        }),
{
    let bounds = if focus.focused_window is Some {
        focus.focused_window->0.bounds
    } else {
        focus.requested_window.bounds
    };
    if desktop is Some {
        clipping_keeps_the_shared_pixels(
            crop_of(bounds->0)->0,
            (desktop->0).0,
            (desktop->0).1,
            px,
            py,
        );
    }
}

/// The hundredths of a window said to be on the desktop are those of its pixels that are,
/// rounded down: of a window that is wholly on it, all; of one that is wholly off it, none.
pub proof fn the_visible_percent_is_that_of_its_pixels(
    x: i32,
    y: i32,
    width: u32,
    height: u32,
    desktop: (i32, i32),
)
    requires
        width > 0,
        height > 0,
    ensures
        0 <= x && 0 <= y && x + width <= desktop.0 && y + height <= desktop.1 ==> visible_percent(
            x,
            y,
            width,
            height,
            desktop,
        ) == 100,
        x >= desktop.0 || y >= desktop.1 || x + width <= 0 || y + height <= 0 ==> visible_percent(
            x,
            y,
            width,
            height,
            desktop,
        ) == 0,
        x < 0 && 0 <= y && 2 * (x + width) == width && x + width <= desktop.0 && y + height
            <= desktop.1 ==> visible_percent(x, y, width, height, desktop) == 50,
{
    let area = width * height;
    assert(area > 0) by (nonlinear_arith)
        requires
            width > 0,
            height > 0,
            area == width * height,
    ;
    assert((area * 100) / area == 100) by (nonlinear_arith)
        requires
            area > 0,
    ;
    assert(0int / area == 0) by (nonlinear_arith)
        requires
            area > 0,
    ;
    let seen = x + width;
    if 2 * seen == width {
        assert(2 * (seen * height) == area) by (nonlinear_arith)
            requires
                2 * seen == width,
                area == width * height,
        ;
        assert((seen * height * 100) / area == 50) by (nonlinear_arith)
            requires
                area > 0,
                2 * (seen * height) == area,
        ;
    }
}

/// The pointer is said to be elsewhere exactly where it is more than a pixel away on either
/// axis.
pub proof fn a_pixel_of_slack_is_overlooked(actual: (i32, i32), expected: (i32, i32))
    ensures
        landing_words(actual, expected) is Some <==> actual.0 > expected.0 + 1 || actual.0
            < expected.0 - 1 || actual.1 > expected.1 + 1 || actual.1 < expected.1 - 1,
{
}

/// A point is said to be off the desktop exactly where it is none of its pixels, and a point
/// that was brought onto it exactly where it was moved.
pub proof fn only_points_off_the_desktop_are_noted(
    x: i32,
    y: i32,
    desktop: (i32, i32),
    landing: PointerLanding,
)
    ensures
        off_point_words(x, y, Some(desktop)) is Some <==> x < 0 || y < 0 || x >= desktop.0 || y
            >= desktop.1,
        off_point_words(x, y, None) is None,
        clamp_words(landing) is Some <==> landing.requested.0 != landing.emitted.0
            || landing.requested.1 != landing.emitted.1,
{
}

/// A region that is relative to a window is measured from the corner of the part of the
/// desktop that was captured of it, and any other region from the corner of the desktop:
/// the part cut out is what of it was captured.
pub proof fn a_region_is_measured_from_where_it_is_relative_to(
    region: ScreenshotRegion,
    relative: bool,
    window_crop: Option<PixelRect>,
    width: u32,
    height: u32,
    px: int,
    py: int,
)
    requires
        region_part(region, relative, window_crop, width, height) is Ok,
    ensures
        ({
            let (part, desktop) = region_part(region, relative, window_crop, width, height)->Ok_0;
            &&& relative ==> window_crop is Some
            &&& window_crop is None ==> part == desktop && (inside(px, py, desktop) <==> 0 <= px
                < width && 0 <= py < height && region.x <= px < region.x + region.width && region.y
                <= py < region.y + region.height)
            &&& window_crop is Some && relative ==> (inside(px, py, part) <==> 0 <= px < width && 0
                <= py < height && region.x <= px < region.x + region.width && region.y <= py
                < region.y + region.height)
            &&& window_crop is Some && !relative ==> (inside(px, py, desktop) <==> (
            window_crop->0).0 <= px < (window_crop->0).0 + width && (window_crop->0).1 <= py < (
            window_crop->0).1 + height && region.x <= px < region.x + region.width && region.y <= py
                < region.y + region.height)
        }),
{
    a_region_is_cut_out_of_the_capture(region, relative, window_crop, width, height, px, py);
    if window_crop is Some {
        a_region_is_cut_out_of_the_capture(
            region,
            relative,
            window_crop,
            width,
            height,
            px - (window_crop->0).0,
            py - (window_crop->0).1,
        );
    }
}

} // verus!
