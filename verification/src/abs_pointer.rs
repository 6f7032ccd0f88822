//! An absolute pointer: where a requested point lands on the desktop, and the events
//! that take the pointer there, click, or drag.
//!
//! The device's axes span the logical desktop, so a point is emitted as it is once it
//! has been brought onto the desktop.

use vstd::prelude::*;
use crate::text::{lower, lowered, same};

verus! {

/// A requested point, and the one that was emitted for it.
#[derive(Clone, Copy, Debug, Eq, PartialEq)]
pub struct PointerLanding {
    pub requested: (i32, i32),
    pub emitted: (i32, i32),
}

/// The range of the device's axes: the last pixel of the desktop on each.
#[derive(Clone, Copy, Debug, Eq, PartialEq, Structural)]
pub struct AbsPointerGeometry {
    pub max_x: i32,
    pub max_y: i32,
}

/// A number brought between two bounds.
pub open spec fn between(n: int, low: int, high: int) -> int {
    if n < low {
        low
    } else if n > high {
        high
    } else {
        n
    }
}

/// Bring a coordinate onto an axis that starts at zero.
fn clamp_axis(n: i32, high: i32) -> (r: i32)
    requires
        0 <= high,
    ensures
        r == between(n as int, 0, high as int),
{
    if n < 0 {
        0
    } else if n > high {
        high
    } else {
        n
    }
}

impl AbsPointerGeometry {
    /// The axes start at zero and reach at least that far.
    pub open spec fn wf(self) -> bool {
        self.max_x >= 0 && self.max_y >= 0
    }

    /// Whether a point is on the desktop.
    pub open spec fn holds(self, point: (i32, i32)) -> bool {
        0 <= point.0 <= self.max_x && 0 <= point.1 <= self.max_y
    }

    /// The point of the desktop nearest to a requested one.
    pub open spec fn nearest(self, x: i32, y: i32) -> (i32, i32) {
        (
            between(x as int, 0, self.max_x as int) as i32,
            between(y as int, 0, self.max_y as int) as i32,
        )
    }

    /// The axes of a desktop of an extent; one of no extent counts as a single pixel.
    pub fn from_dimensions(width: i32, height: i32) -> (r: Self)
        ensures
            r.wf(),
            r.max_x == if width > 1 {
                width - 1
            } else {
                0
            },
            r.max_y == if height > 1 {
                height - 1
            } else {
                0
            },
    {
        AbsPointerGeometry {
            max_x: if width > 1 {
                width - 1
            } else {
                0
            },
            max_y: if height > 1 {
                height - 1
            } else {
                0
            },
        }
    }

    /// The last pixel on each axis.
    pub fn axis_maxima(self) -> (r: (i32, i32))
        ensures
            r == (self.max_x, self.max_y),
    {
        (self.max_x, self.max_y)
    }

    /// The point of the desktop nearest to a requested one.
    pub fn clamp_coordinates(self, x: i32, y: i32) -> (r: (i32, i32))
        requires
            self.wf(),
        ensures
            r == self.nearest(x, y),
            self.holds(r),
    {
        (clamp_axis(x, self.max_x), clamp_axis(y, self.max_y))
    }

    /// The point beside another, on the first axis that has more than one pixel.
    pub open spec fn beside(self, x: i32, y: i32) -> Option<(i32, i32)> {
        if self.max_x > 0 {
            Some(
                (
                    (if x > 0 {
                        x - 1
                    } else {
                        x + 1
                    }) as i32,
                    y,
                ),
            )
        } else if self.max_y > 0 {
            Some(
                (
                    x,
                    (if y > 0 {
                        y - 1
                    } else {
                        y + 1
                    }) as i32,
                ),
            )
        } else {
            None
        }
    }

    /// A point one pixel away from `(x, y)`, or `None` when the desktop has
    /// no room to move. A repeated move is nudged through it.
    pub fn neighbor_of(self, x: i32, y: i32) -> (r: Option<(i32, i32)>)
        ensures
            r == self.beside(x, y),
    {
        if self.max_x > 0 {
            Some(
                (
                    if x > 0 {
                        x - 1
                    } else {
                        x + 1
                    },
                    y,
                ),
            )
        } else if self.max_y > 0 {
            Some(
                (
                    x,
                    if y > 0 {
                        y - 1
                    } else {
                        y + 1
                    },
                ),
            )
        } else {
            None
        }
    }

    /// Where a requested point lands.
    pub fn landing_for(self, x: i32, y: i32) -> (r: PointerLanding)
        requires
            self.wf(),
        ensures
            r.requested == (x, y),
            r.emitted == self.nearest(x, y),
            self.holds(r.emitted),
    {
        PointerLanding { requested: (x, y), emitted: self.clamp_coordinates(x, y) }
    }
}

/// A point on the desktop lands where it is, and landing is on the desktop always.
pub proof fn landing_is_on_the_desktop(geometry: AbsPointerGeometry, x: i32, y: i32)
    requires
        geometry.wf(),
    ensures
        geometry.holds(geometry.nearest(x, y)),
        geometry.holds((x, y)) ==> geometry.nearest(x, y) == (x, y),
        geometry.nearest(geometry.nearest(x, y).0, geometry.nearest(x, y).1) == geometry.nearest(
            x,
            y,
        ),
{
}

/// A desktop of more than one pixel has a pixel beside each, on the desktop and another.
pub proof fn every_pixel_has_a_neighbor(geometry: AbsPointerGeometry, x: i32, y: i32)
    requires
        geometry.wf(),
        geometry.holds((x, y)),
    ensures
        geometry.beside(x, y) is None <==> geometry.max_x == 0 && geometry.max_y == 0,
        geometry.beside(x, y) is Some ==> geometry.holds(geometry.beside(x, y)->0)
            && geometry.beside(x, y)->0 != (x, y),
{
}

/// One thing the device does.
#[derive(Clone, Copy, Debug, Eq, PartialEq, Structural)]
pub enum PointerEvent {
    /// Set both axes.
    Absolute(i32, i32),
    /// Press a button, by its event code, or release it.
    Button(u16, bool),
    /// Wait, in milliseconds.
    Pause(u64),
}

/// The events of a move: a point the axes already hold is nudged through the pixel
/// beside it.
pub open spec fn move_events(
    geometry: AbsPointerGeometry,
    position: (i32, i32),
    x: i32,
    y: i32,
) -> Seq<PointerEvent> {
    let to = geometry.nearest(x, y);
    match geometry.beside(to.0, to.1) {
        Some(beside) if to == position => seq![
            PointerEvent::Absolute(beside.0, beside.1),
            PointerEvent::Absolute(to.0, to.1),
        ],
        _ => seq![PointerEvent::Absolute(to.0, to.1)],
    }
}

/// Move the pointer to `(x, y)`, with the axes at `position`: where it lands, and the
/// events that take it there.
///
/// A move to the point the previous move emitted is nudged through a
/// neighboring pixel first. The kernel's input core drops an `EV_ABS`
/// event whose value equals the axis's current value, so without the
/// nudge the second of two moves to the same point emits nothing at all —
/// and the pointer stays wherever the compositor warped it in between
/// (focusing a window warps the cursor to its center), which is where the
/// click that follows would land.
pub fn move_to(geometry: AbsPointerGeometry, position: (i32, i32), x: i32, y: i32) -> (r: (
    PointerLanding,
    Vec<PointerEvent>,
))
    requires
        geometry.wf(),
    ensures
        r.0.requested == (x, y),
        r.0.emitted == geometry.nearest(x, y),
        r.1@ == move_events(geometry, position, x, y),
{
    let landing = geometry.landing_for(x, y);
    let (to_x, to_y): (i32, i32) = landing.emitted;
    let mut events: Vec<PointerEvent> = Vec::new();
    if to_x == position.0 && to_y == position.1 {
        match geometry.neighbor_of(to_x, to_y) {
            Some((nudge_x, nudge_y)) => events.push(PointerEvent::Absolute(nudge_x, nudge_y)),
            None => {},
        }
    }
    events.push(PointerEvent::Absolute(to_x, to_y));
    assert(events@ =~= move_events(geometry, position, x, y));
    (landing, events)
}

/// Where the axes stand after an event.
pub open spec fn position_after(position: (i32, i32), event: PointerEvent) -> (i32, i32) {
    match event {
        PointerEvent::Absolute(x, y) => (x, y),
        _ => position,
    }
}

/// On a desktop of more than one pixel every move ends in an event that changes what the
/// axes hold, so the kernel lets it through, and it ends where the point lands.
pub proof fn a_move_is_never_dropped(
    geometry: AbsPointerGeometry,
    position: (i32, i32),
    x: i32,
    y: i32,
)
    requires
        geometry.wf(),
        geometry.max_x > 0 || geometry.max_y > 0,
    ensures
        ({
            let events = move_events(geometry, position, x, y);
            let last = events.last();
            let before = if events.len() == 1 {
                position
            } else {
                position_after(position, events[0])
            };
            &&& last == PointerEvent::Absolute(geometry.nearest(x, y).0, geometry.nearest(x, y).1)
            &&& position_after(before, last) == geometry.nearest(x, y)
            &&& before != geometry.nearest(x, y)
        }),
{
}

/// Pointer buttons we can synthesize.
#[derive(Clone, Copy, Debug, PartialEq, Eq, Structural)]
pub enum PointerButton {
    Left,
    Right,
    Middle,
}

/// `evdev::KeyCode::BTN_LEFT`: the kernel's code of the left button.
#[verifier::external_body]
fn left_code() -> (r: u16)
    ensures
        r == 0x110,
{
    evdev::KeyCode::BTN_LEFT.0
}

/// `evdev::KeyCode::BTN_RIGHT`: the kernel's code of the right button.
#[verifier::external_body]
fn right_code() -> (r: u16)
    ensures
        r == 0x111,
{
    evdev::KeyCode::BTN_RIGHT.0
}

/// `evdev::KeyCode::BTN_MIDDLE`: the kernel's code of the middle button.
#[verifier::external_body]
fn middle_code() -> (r: u16)
    ensures
        r == 0x112,
{
    evdev::KeyCode::BTN_MIDDLE.0
}

impl PointerButton {
    /// The button a name means, where the device has it; no name means the left one.
    pub open spec fn named(name: Option<Seq<char>>) -> Option<PointerButton> {
        let name = match name {
            Some(name) => lower(name),
            None => "left"@,
        };
        if name == "left"@ {
            Some(PointerButton::Left)
        } else if name == "right"@ {
            Some(PointerButton::Right)
        } else if name == "middle"@ {
            Some(PointerButton::Middle)
        } else {
            None
        }
    }

    /// The kernel's code of a button.
    pub open spec fn code(self) -> u16 {
        match self {
            PointerButton::Left => 0x110,
            PointerButton::Right => 0x111,
            PointerButton::Middle => 0x112,
        }
    }

    /// The button a name means, where the device has it.
    pub fn from_name(name: Option<&str>) -> (r: Option<Self>)
        ensures
            r == PointerButton::named(
                match name {
                    Some(name) => Some(name@),
                    None => None,
                },
            ),
    {
        let name = match name {
            Some(name) => lowered(name),
            None => "left".to_owned(),
        };
        if same(&name, "left") {
            Some(PointerButton::Left)
        } else if same(&name, "right") {
            Some(PointerButton::Right)
        } else if same(&name, "middle") {
            Some(PointerButton::Middle)
        } else {
            None
        }
    }

    /// The kernel's code of a button.
    pub fn key_code(self) -> (r: u16)
        ensures
            r == self.code(),
    {
        match self {
            PointerButton::Left => left_code(),
            PointerButton::Right => right_code(),
            PointerButton::Middle => middle_code(),
        }
    }
}

/// The three buttons have three codes.
pub proof fn buttons_have_codes_of_their_own(a: PointerButton, b: PointerButton)
    ensures
        a.code() == b.code() ==> a == b,
{
}

/// The events of pressing and releasing a button a number of times.
pub open spec fn click_events(code: u16, count: nat) -> Seq<PointerEvent>
    decreases count,
{
    if count == 0 {
        Seq::empty()
    } else {
        click_events(code, (count - 1) as nat) + seq![
            PointerEvent::Button(code, true),
            PointerEvent::Pause(30),
            PointerEvent::Button(code, false),
            PointerEvent::Pause(40),
        ]
    }
}

/// Move to `(x, y)` then press and release `button` `count` times, once at least.
pub fn click(
    geometry: AbsPointerGeometry,
    position: (i32, i32),
    x: i32,
    y: i32,
    button: PointerButton,
    count: u32,
) -> (r: (PointerLanding, Vec<PointerEvent>))
    requires
        geometry.wf(),
    ensures
        r.0.requested == (x, y),
        r.0.emitted == geometry.nearest(x, y),
        r.1@ == move_events(geometry, position, x, y) + seq![PointerEvent::Pause(30)]
            + click_events(
            button.code(),
            if count == 0 {
                1
            } else {
                count as nat
            },
        ),
{
    let (landing, mut events): (PointerLanding, Vec<PointerEvent>) = move_to(
        geometry,
        position,
        x,
        y,
    );
    events.push(PointerEvent::Pause(30));
    let ghost start = events@;
    assert(start =~= move_events(geometry, position, x, y) + seq![PointerEvent::Pause(30)]);
    let code: u16 = button.key_code();
    let times: u32 = if count == 0 {
        1
    } else {
        count
    };
    assert(start + click_events(code, 0) =~= start);
    for done in 0..times
        invariant
            events@ == start + click_events(code, done as nat),
    {
        let ghost before = events@;
        events.push(PointerEvent::Button(code, true));
        events.push(PointerEvent::Pause(30));
        events.push(PointerEvent::Button(code, false));
        events.push(PointerEvent::Pause(40));
        assert(click_events(code, (done + 1) as nat) == click_events(code, done as nat) + seq![
            PointerEvent::Button(code, true),
            PointerEvent::Pause(30),
            PointerEvent::Button(code, false),
            PointerEvent::Pause(40),
        ]);
        assert(events@ =~= start + click_events(code, (done + 1) as nat));
    }
    (landing, events)
}

/// Desktop pixels per drag step.
pub const DRAG_STEP_PIXELS: i32 = 8;

/// The ceiling on how many steps one drag spends.
pub const DRAG_MAX_STEPS: u32 = 40;

/// How long a drag rests after each step, in milliseconds.
pub const DRAG_STEP_PAUSE_MS: u64 = 10;

/// How far apart two numbers are.
pub open spec fn distance(a: int, b: int) -> int {
    if a < b {
        b - a
    } else {
        a - b
    }
}

/// How far apart two points are along the axis on which they are farther.
pub open spec fn longer_axis(start: (i32, i32), end: (i32, i32)) -> int {
    let x = distance(start.0 as int, end.0 as int);
    let y = distance(start.1 as int, end.1 as int);
    if x < y {
        y
    } else {
        x
    }
}

/// How many steps a drag is split into: one for each eight pixels begun along its longer
/// axis, at least one and at most the ceiling.
pub open spec fn step_count(start: (i32, i32), end: (i32, i32)) -> int {
    between((longer_axis(start, end) + 7) / 8, 1, DRAG_MAX_STEPS as int)
}

/// How many moves a drag from `start` to `end` is split into: one per
/// `DRAG_STEP_PIXELS` along its longer axis, at least one and at most
/// `DRAG_MAX_STEPS`.
pub fn drag_step_count(start: (i32, i32), end: (i32, i32)) -> (r: u32)
    ensures
        r == step_count(start, end),
        1 <= r <= DRAG_MAX_STEPS,
{
    let dx: i64 = end.0 as i64 - start.0 as i64;
    let dy: i64 = end.1 as i64 - start.1 as i64;
    let wide: u64 = if dx < 0 {
        (-dx) as u64
    } else {
        dx as u64
    };
    let high: u64 = if dy < 0 {
        (-dy) as u64
    } else {
        dy as u64
    };
    let longer: u64 = if wide < high {
        high
    } else {
        wide
    };
    let steps: u64 = (longer + 7) / 8;
    if steps < 1 {
        1
    } else if steps > DRAG_MAX_STEPS as u64 {
        DRAG_MAX_STEPS
    } else {
        steps as u32
    }
}

/// The coordinate `step` of `steps` along the way, rounded toward the start.
pub open spec fn along(from: int, to: int, step: int, steps: int) -> int {
    if to >= from {
        from + ((to - from) * step) / steps
    } else {
        from - ((from - to) * step) / steps
    }
}

/// The point `step` of `steps` along the way from `start` to `end`, the last of which is
/// `end` itself.
pub open spec fn point_at(start: (i32, i32), end: (i32, i32), step: int, steps: int) -> (i32, i32) {
    if step >= steps {
        end
    } else {
        (
            along(start.0 as int, end.0 as int, step, steps) as i32,
            along(start.1 as int, end.1 as int, step, steps) as i32,
        )
    }
}

/// A coordinate along the way is between its ends.
proof fn along_is_between(from: int, to: int, step: int, steps: int)
    requires
        0 <= step < steps,
    ensures
        from <= to ==> from <= along(from, to, step, steps) <= to,
        to <= from ==> to <= along(from, to, step, steps) <= from,
{
    let d = distance(from, to);
    assert(0 <= (d * step) / steps <= d) by (nonlinear_arith)
        requires
            0 <= step < steps,
            d >= 0,
    ;
}

fn travel(from: i32, to: i32, step: u32, steps: u32) -> (r: i32)
    requires
        step < steps,
    ensures
        r == along(from as int, to as int, step as int, steps as int),
{
    proof {
        along_is_between(from as int, to as int, step as int, steps as int);
        let d = distance(from as int, to as int);
        assert(0 <= d * step <= 0xffff_ffff * 0xffff_ffff) by (nonlinear_arith)
            requires
                0 <= d <= 0xffff_ffff,
                0 <= step <= 0xffff_ffff,
        ;
    }
    if to >= from {
        let far: u64 = (to as i64 - from as i64) as u64;
        (from as i64 + ((far * step as u64) / steps as u64) as i64) as i32
    } else {
        let far: u64 = (from as i64 - to as i64) as u64;
        (from as i64 - ((far * step as u64) / steps as u64) as i64) as i32
    }
}

/// The point `step` of `steps` along the way from `start` to `end`. The last
/// step is `end` itself, so a drag always releases where it was asked to.
pub fn drag_point_at(start: (i32, i32), end: (i32, i32), step: u32, steps: u32) -> (r: (i32, i32))
    ensures
        r == point_at(start, end, step as int, steps as int),
{
    if step >= steps {
        return end;
    }
    (travel(start.0, end.0, step, steps), travel(start.1, end.1, step, steps))
}

/// Whether a point is in the rectangle two others span.
pub open spec fn in_box(point: (i32, i32), a: (i32, i32), b: (i32, i32)) -> bool {
    &&& a.0 <= point.0 <= b.0 || b.0 <= point.0 <= a.0
    &&& a.1 <= point.1 <= b.1 || b.1 <= point.1 <= a.1
}

/// A drag walks from its start to exactly its end without leaving the rectangle they span.
pub proof fn a_drag_stays_in_its_box(start: (i32, i32), end: (i32, i32), step: int, steps: int)
    requires
        0 <= step,
        1 <= steps,
    ensures
        in_box(point_at(start, end, step, steps), start, end),
        step >= steps ==> point_at(start, end, step, steps) == end,
        step == 0 ==> point_at(start, end, step, steps) == start,
{
    if step < steps {
        along_is_between(start.0 as int, end.0 as int, step, steps);
        along_is_between(start.1 as int, end.1 as int, step, steps);
    }
    if step == 0 {
        let a = distance(start.0 as int, end.0 as int);
        let b = distance(start.1 as int, end.1 as int);
        assert((a * 0) / steps == 0 && (b * 0) / steps == 0) by (nonlinear_arith)
            requires
                steps >= 1,
        ;
    }
}

/// Two neighbouring fractions of a distance are no farther apart than a step may be.
proof fn steps_are_short(d: int, step: int, steps: int)
    requires
        0 <= d <= 8 * steps,
        0 <= step < steps,
    ensures
        0 <= (d * (step + 1)) / steps - (d * step) / steps <= 8,
        (d * steps) / steps == d,
{
    let low = (d * step) / steps;
    assert(low * steps <= d * step < (low + 1) * steps) by (nonlinear_arith)
        requires
            steps >= 1,
            low == (d * step) / steps,
    ;
    assert(d * (step + 1) == d * step + d) by (nonlinear_arith);
    let next = (d * (step + 1)) / steps;
    assert(next * steps <= d * (step + 1) < (next + 1) * steps) by (nonlinear_arith)
        requires
            steps >= 1,
            next == (d * (step + 1)) / steps,
    ;
    assert(next <= low + 8) by (nonlinear_arith)
        requires
            next * steps <= d * step + d,
            d * step < (low + 1) * steps,
            d <= 8 * steps,
            steps >= 1,
    ;
    assert(low <= next) by (nonlinear_arith)
        requires
            low * steps <= d * step,
            d * step + d < (next + 1) * steps,
            d >= 0,
            steps >= 1,
    ;
    assert((d * steps) / steps == d) by (nonlinear_arith)
        requires
            steps >= 1,
    ;
}

proof fn axis_steps_are_short(from: int, to: int, step: int, steps: int)
    requires
        distance(from, to) <= 8 * steps,
        0 <= step < steps,
    ensures
        distance(along(from, to, step, steps), along(from, to, step + 1, steps)) <= 8,
        along(from, to, steps, steps) == to,
{
    steps_are_short(distance(from, to), step, steps);
}

/// No step of a drag jumps farther than eight pixels on either axis, unless the drag is
/// so long that the ceiling on its steps applies.
pub proof fn no_drag_step_jumps(start: (i32, i32), end: (i32, i32), step: int)
    requires
        longer_axis(start, end) <= 8 * DRAG_MAX_STEPS,
        0 <= step < step_count(start, end),
    ensures
        ({
            let a = point_at(start, end, step, step_count(start, end));
            let b = point_at(start, end, step + 1, step_count(start, end));
            distance(a.0 as int, b.0 as int) <= DRAG_STEP_PIXELS && distance(
                a.1 as int,
                b.1 as int,
            ) <= DRAG_STEP_PIXELS
        }),
{
    let steps = step_count(start, end);
    along_is_between(start.0 as int, end.0 as int, step, steps);
    along_is_between(start.1 as int, end.1 as int, step, steps);
    axis_steps_are_short(start.0 as int, end.0 as int, step, steps);
    axis_steps_are_short(start.1 as int, end.1 as int, step, steps);
    if step + 1 < steps {
        along_is_between(start.0 as int, end.0 as int, step + 1, steps);
        along_is_between(start.1 as int, end.1 as int, step + 1, steps);
    }
}

/// Whether a coordinate lies on the way from another to a third.
pub open spec fn on_the_way(from: int, by: int, to: int) -> bool {
    from <= by <= to || to <= by <= from
}

/// A drag never turns back: on each axis, a later point of it lies between an earlier one and
/// the end.
pub proof fn a_drag_never_turns_back(
    start: (i32, i32),
    end: (i32, i32),
    earlier: int,
    later: int,
    steps: int,
)
    requires
        0 <= earlier <= later,
        1 <= steps,
    ensures
        ({
            let a = point_at(start, end, earlier, steps);
            let b = point_at(start, end, later, steps);
            on_the_way(a.0 as int, b.0 as int, end.0 as int) && on_the_way(
                a.1 as int,
                b.1 as int,
                end.1 as int,
            )
        }),
{
    a_drag_stays_in_its_box(start, end, earlier, steps);
    a_drag_stays_in_its_box(start, end, later, steps);
    if later < steps {
        let dx = distance(start.0 as int, end.0 as int);
        let dy = distance(start.1 as int, end.1 as int);
        fractions_grow(dx, earlier, later, steps);
        fractions_grow(dy, earlier, later, steps);
        along_is_between(start.0 as int, end.0 as int, earlier, steps);
        along_is_between(start.1 as int, end.1 as int, earlier, steps);
        along_is_between(start.0 as int, end.0 as int, later, steps);
        along_is_between(start.1 as int, end.1 as int, later, steps);
    }
}

/// A larger part of a distance is no shorter.
proof fn fractions_grow(d: int, earlier: int, later: int, steps: int)
    requires
        0 <= d,
        0 <= earlier <= later,
        1 <= steps,
    ensures
        (d * earlier) / steps <= (d * later) / steps,
{
    assert(d * earlier <= d * later) by (nonlinear_arith)
        requires
            0 <= d,
            earlier <= later,
    ;
    vstd::arithmetic::div_mod::lemma_div_is_ordered(d * earlier, d * later, steps);
}

/// Where both ends of a drag landed, and how many moves carried the pointer
/// between them.
#[derive(Clone, Copy, Debug, Eq, PartialEq)]
pub struct DragLanding {
    pub start: PointerLanding,
    pub end: PointerLanding,
    pub steps: u32,
}

/// The events of the first steps of a drag.
pub open spec fn travel_events(
    start: (i32, i32),
    end: (i32, i32),
    steps: int,
    done: nat,
) -> Seq<PointerEvent>
    decreases done,
{
    if done == 0 {
        Seq::empty()
    } else {
        let to = point_at(start, end, done as int, steps);
        travel_events(start, end, steps, (done - 1) as nat) + seq![
            PointerEvent::Absolute(to.0, to.1),
            PointerEvent::Pause(DRAG_STEP_PAUSE_MS),
        ]
    }
}

/// Press at `start`, travel to `end` in small steps, release — a drag
/// with `button`, reporting where each end landed and how many steps it
/// took.
///
/// The travel is stepped rather than jumped because a component that
/// reacts to the first movement while still under the pointer — a title
/// bar handing its window to the compositor, a list reordering itself —
/// never sees a single jump whose destination lies outside it.
pub fn drag(
    geometry: AbsPointerGeometry,
    position: (i32, i32),
    start: (i32, i32),
    end: (i32, i32),
    button: PointerButton,
) -> (r: (DragLanding, Vec<PointerEvent>))
    requires
        geometry.wf(),
    ensures
        ({
            let from = geometry.nearest(start.0, start.1);
            let to = geometry.nearest(end.0, end.1);
            let steps = step_count(from, to);
            &&& r.0.start == PointerLanding { requested: start, emitted: from }
            &&& r.0.end == PointerLanding { requested: end, emitted: to }
            &&& r.0.steps == steps
            &&& r.1@ == move_events(geometry, position, start.0, start.1) + seq![
                PointerEvent::Pause(30),
                PointerEvent::Button(button.code(), true),
                PointerEvent::Pause(40),
            ] + travel_events(from, to, steps, steps as nat) + seq![
                PointerEvent::Pause(40),
                PointerEvent::Button(button.code(), false),
            ]
        }),
{
    let code: u16 = button.key_code();
    let (start_landing, mut events): (PointerLanding, Vec<PointerEvent>) = move_to(
        geometry,
        position,
        start.0,
        start.1,
    );
    events.push(PointerEvent::Pause(30));
    events.push(PointerEvent::Button(code, true));
    events.push(PointerEvent::Pause(40));
    let ghost pressed = move_events(geometry, position, start.0, start.1) + seq![
        PointerEvent::Pause(30),
        PointerEvent::Button(code, true),
        PointerEvent::Pause(40),
    ];
    assert(events@ =~= pressed);
    let end_landing = geometry.landing_for(end.0, end.1);
    let from: (i32, i32) = start_landing.emitted;
    let to: (i32, i32) = end_landing.emitted;
    let steps: u32 = drag_step_count(from, to);
    assert(pressed + travel_events(from, to, steps as int, 0) =~= pressed);
    for done in 0..steps
        invariant
            steps <= DRAG_MAX_STEPS,
            events@ == pressed + travel_events(from, to, steps as int, done as nat),
    {
        let (x, y): (i32, i32) = drag_point_at(from, to, done + 1, steps);
        events.push(PointerEvent::Absolute(x, y));
        events.push(PointerEvent::Pause(DRAG_STEP_PAUSE_MS));
        assert(events@ =~= pressed + travel_events(from, to, steps as int, (done + 1) as nat));
    }
    events.push(PointerEvent::Pause(40));
    events.push(PointerEvent::Button(code, false));
    assert(events@ =~= pressed + travel_events(from, to, steps as int, steps as nat) + seq![
        PointerEvent::Pause(40),
        PointerEvent::Button(code, false),
    ]);
    (DragLanding { start: start_landing, end: end_landing, steps }, events)
}

/// Where a requested point lands is a pixel of the desktop, and no pixel of it is nearer to
/// the point on either axis.
pub proof fn the_nearest_point_is_no_farther_than_any_other(
    geometry: AbsPointerGeometry,
    x: i32,
    y: i32,
    other: (i32, i32),
)
    requires
        geometry.wf(),
        0 <= other.0 <= geometry.max_x,
        0 <= other.1 <= geometry.max_y,
    ensures
        0 <= geometry.nearest(x, y).0 <= geometry.max_x,
        0 <= geometry.nearest(x, y).1 <= geometry.max_y,
        distance(x as int, geometry.nearest(x, y).0 as int) <= distance(x as int, other.0 as int),
        distance(y as int, geometry.nearest(x, y).1 as int) <= distance(y as int, other.1 as int),
{
}

/// A name, in any letter case, means the button of that name, which has the kernel's code of
/// it; no name means the left one; and a name of none of the three means none.
pub proof fn a_button_is_the_kernels_button_of_that_name(name: Seq<char>)
    ensures
        lower(name) == "left"@ ==> PointerButton::named(Some(name)) is Some && PointerButton::named(
            Some(name),
        )->0.code() == 0x110,
        lower(name) == "right"@ ==> PointerButton::named(Some(name)) is Some
            && PointerButton::named(Some(name))->0.code() == 0x111,
        lower(name) == "middle"@ ==> PointerButton::named(Some(name)) is Some
            && PointerButton::named(Some(name))->0.code() == 0x112,
        PointerButton::named(None) is Some && PointerButton::named(None)->0.code() == 0x110,
        PointerButton::named(Some(name)) is Some ==> lower(name) == "left"@ || lower(name)
            == "right"@ || lower(name) == "middle"@,
{
    reveal_strlit("left");
    reveal_strlit("right");
    reveal_strlit("middle");
    assert("left"@.len() == 4 && "right"@.len() == 5 && "middle"@.len() == 6);
}

/// Clicking a number of times presses and releases the button that many times in turn: event
/// by event, a press, a pause, the release and a pause.
pub proof fn a_click_is_a_press_and_a_release(code: u16, count: nat, i: int)
    requires
        0 <= i < count,
    ensures
        click_events(code, count).len() == 4 * count,
        click_events(code, count)[4 * i] == PointerEvent::Button(code, true),
        click_events(code, count)[4 * i + 1] is Pause,
        click_events(code, count)[4 * i + 2] == PointerEvent::Button(code, false),
        click_events(code, count)[4 * i + 3] is Pause,
    decreases count,
{
    let rest = (count - 1) as nat;
    click_events_are_fours(code, rest);
    if i < rest {
        a_click_is_a_press_and_a_release(code, rest, i);
    }
}

proof fn click_events_are_fours(code: u16, count: nat)
    ensures
        click_events(code, count).len() == 4 * count,
    decreases count,
{
    if count > 0 {
        click_events_are_fours(code, (count - 1) as nat);
    }
}

/// A drag travels by setting the axes: step by step to the points of the way, in order, and
/// no button changes on the way.
pub proof fn a_drag_travels_point_by_point(
    start: (i32, i32),
    end: (i32, i32),
    steps: int,
    done: nat,
    i: int,
)
    requires
        0 <= i < done,
    ensures
        travel_events(start, end, steps, done).len() == 2 * done,
        travel_events(start, end, steps, done)[2 * i] == PointerEvent::Absolute(
            point_at(start, end, i + 1, steps).0,
            point_at(start, end, i + 1, steps).1,
        ),
        travel_events(start, end, steps, done)[2 * i + 1] is Pause,
    decreases done,
{
    let rest = (done - 1) as nat;
    travel_events_are_twos(start, end, steps, rest);
    if i < rest {
        a_drag_travels_point_by_point(start, end, steps, rest, i);
    }
}

proof fn travel_events_are_twos(start: (i32, i32), end: (i32, i32), steps: int, done: nat)
    ensures
        travel_events(start, end, steps, done).len() == 2 * done,
    decreases done,
{
    if done > 0 {
        travel_events_are_twos(start, end, steps, (done - 1) as nat);
    }
}

/// A drag is split into one step at least, forty at most, and otherwise just so many that
/// none is longer than eight pixels.
pub proof fn a_drag_takes_as_many_steps_as_it_needs(start: (i32, i32), end: (i32, i32))
    ensures
        1 <= step_count(start, end) <= 40,
        longer_axis(start, end) <= 8 * step_count(start, end) || step_count(start, end) == 40,
        step_count(start, end) > 1 ==> longer_axis(start, end) > 8 * (step_count(start, end) - 1),
        longer_axis(start, end) >= start.0 - end.0,
        longer_axis(start, end) >= end.0 - start.0,
        longer_axis(start, end) >= start.1 - end.1,
        longer_axis(start, end) >= end.1 - start.1,
{
}

/// A click of the pointer moves to where the point lands, and then presses and releases the
/// button, as often as is asked and once at least; no button changes before.
pub proof fn a_click_is_made_after_the_move(
    geometry: AbsPointerGeometry,
    position: (i32, i32),
    x: i32,
    y: i32,
    button: PointerButton,
    count: u32,
    r: (PointerLanding, Vec<PointerEvent>),
)
    requires
        geometry.wf(),
        count > 0,
        call_ensures(click, (geometry, position, x, y, button, count), r),
    ensures
        r.0.requested == (x, y),
        r.0.emitted == geometry.nearest(x, y),
        ({
            let moves = move_events(geometry, position, x, y);
            let n = moves.len() as int;
            &&& r.1@.take(n) == moves
            &&& r.1@[n] is Pause
            &&& r.1@.skip(n + 1) == click_events(button.code(), count as nat)
            &&& moves.last() == PointerEvent::Absolute(
                geometry.nearest(x, y).0,
                geometry.nearest(x, y).1,
            )
        }),
{
    let moves = move_events(geometry, position, x, y);
    let n = moves.len() as int;
    assert(r.1@.take(n) =~= moves);
    assert(r.1@.skip(n + 1) =~= click_events(button.code(), count as nat));
}

/// A drag moves to its start, presses there, travels to its end and releases there: the press
/// is its first event of a button and the release its last event.
pub proof fn a_drag_presses_at_the_start_and_releases_at_the_end(
    geometry: AbsPointerGeometry,
    position: (i32, i32),
    start: (i32, i32),
    end: (i32, i32),
    button: PointerButton,
    r: (DragLanding, Vec<PointerEvent>),
)
    requires
        geometry.wf(),
        call_ensures(drag, (geometry, position, start, end, button), r),
    ensures
        r.0.start.emitted == geometry.nearest(start.0, start.1),
        r.0.end.emitted == geometry.nearest(end.0, end.1),
        r.0.start.requested == start && r.0.end.requested == end,
        ({
            let n = move_events(geometry, position, start.0, start.1).len() as int;
            let to = geometry.nearest(end.0, end.1);
            &&& r.1@.take(n) == move_events(geometry, position, start.0, start.1)
            &&& r.1@[n + 1] == PointerEvent::Button(button.code(), true)
            &&& r.1@.last() == PointerEvent::Button(button.code(), false)
            &&& r.1@[r.1@.len() - 4] == PointerEvent::Absolute(to.0, to.1)
        }),
{
    let from = geometry.nearest(start.0, start.1);
    let to = geometry.nearest(end.0, end.1);
    let steps = step_count(from, to);
    let moves = move_events(geometry, position, start.0, start.1);
    let n = moves.len() as int;
    a_drag_takes_as_many_steps_as_it_needs(from, to);
    a_drag_travels_point_by_point(from, to, steps, steps as nat, steps - 1);
    let travel = travel_events(from, to, steps, steps as nat);
    assert(r.1@.take(n) =~= moves);
    assert(r.1@.len() == n + 3 + travel.len() + 2);
    assert(r.1@[n + 1] == PointerEvent::Button(button.code(), true));
    assert(r.1@[n + 3 + (travel.len() - 2)] == travel[travel.len() - 2]);
}

} // verus!
