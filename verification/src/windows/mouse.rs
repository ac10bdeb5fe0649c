//! Moving and clicking the mouse.

use vstd::prelude::*;

use crate::bridge::MouseKind;
use crate::geometry::{Point, Rect};
use crate::windows::Error;

verus! {

pub const MOUSEEVENTF_MOVE: u32 = 1;

pub const MOUSEEVENTF_LEFTDOWN: u32 = 2;

pub const MOUSEEVENTF_LEFTUP: u32 = 4;

pub const MOUSEEVENTF_WHEEL: u32 = 2048;

pub const MOUSEEVENTF_VIRTUALDESK: u32 = 16384;

pub const MOUSEEVENTF_ABSOLUTE: u32 = 32768;

/// How far the wheel is turned.
pub const WHEEL_DELTA: i32 = -150;

/// For how many milliseconds the button is held, or double clicks do not work.
pub const CLICK_MILLIS: u64 = 80;

/// Something to be done with the mouse, in order.
#[derive(Clone, Copy, PartialEq, Eq, Debug, Structural)]
pub enum MouseStep {
    Input(MouseInput),
    /// Do nothing for some milliseconds.
    Sleep(u64),
}

/// An input of the mouse as it is handed to Windows.
#[derive(Clone, Copy, PartialEq, Eq, Debug, Structural)]
pub struct MouseInput {
    pub dx: i32,
    pub dy: i32,
    pub flags: u32,
    pub data: i32,
}

/// The quotient rounded towards zero.
pub open spec fn quotient(a: int, b: int) -> int {
    if a >= 0 && b > 0 {
        a / b
    } else if a < 0 && b > 0 {
        -((-a) / b)
    } else if a >= 0 {
        -(a / (-b))
    } else {
        (-a) / (-b)
    }
}

/// A coordinate of the whole desktop, of which there are 65536 from one end to the other.
pub open spec fn absolute(at: int, start: int, size: int) -> int {
    quotient((at - start) * 65536, size)
}

/// Whether the coordinate can be computed.
pub open spec fn absolute_fits(at: i32, start: i32, size: i32) -> bool {
    &&& -32768 <= at - start < 32768
    &&& !(at - start == -32768 && size == -1)
}

/// Whether both coordinates of a point can be computed. On a desktop without any size there is
/// nothing to compute.
pub open spec fn point_fits(point: Point, desktop: Rect) -> bool {
    desktop.width != 0 && desktop.height != 0 ==> {
        &&& absolute_fits(point.x, desktop.x, desktop.width)
        &&& absolute_fits(point.y, desktop.y, desktop.height)
    }
}

fn to_absolute(at: i32, start: i32, size: i32) -> (res: i32)
    requires
        size != 0,
        absolute_fits(at, start, size),
    ensures
        res == absolute(at as int, start as int, size as int),
{
    let scaled: i64 = (at as i64 - start as i64) * 65536;
    let a: i64 = if scaled >= 0 {
        scaled
    } else {
        -scaled
    };
    let b: i64 = if size > 0 {
        size as i64
    } else {
        -(size as i64)
    };
    let q: i64 = a / b;
    assert(0 <= q <= a) by (nonlinear_arith)
        requires
            q == a / b,
            a >= 0,
            b >= 1,
    ;
    assert(b >= 2 ==> 2 * q <= a) by (nonlinear_arith)
        requires
            q == a / b,
            a >= 0,
            b >= 1,
    ;
    let same_sign: bool = (scaled >= 0) == (size > 0);
    if same_sign {
        q as i32
    } else {
        (-q) as i32
    }
}

/// The coordinates of a point of the screen on the whole desktop.
pub fn screen_to_absolute_coordinate(point: Point, desktop: Rect) -> (res: Result<(i32, i32), Error>)
    requires
        point_fits(point, desktop),
    ensures
        match res {
            Ok((dx, dy)) => desktop.width != 0 && desktop.height != 0 && dx == absolute(
                point.x as int,
                desktop.x as int,
                desktop.width as int,
            ) && dy == absolute(point.y as int, desktop.y as int, desktop.height as int),
            Err(error) => error == Error::WindowInvalidSize && (desktop.width == 0
                || desktop.height == 0),
        },
{
    if desktop.width == 0 || desktop.height == 0 {
        return Err(Error::WindowInvalidSize);
    }
    let dx: i32 = to_absolute(point.x, desktop.x, desktop.width);
    let dy: i32 = to_absolute(point.y, desktop.y, desktop.height);
    Ok((dx, dy))
}

/// The flags of every input, together with one more.
pub open spec fn mouse_flags(extra: u32) -> u32 {
    (MOUSEEVENTF_ABSOLUTE + MOUSEEVENTF_MOVE + MOUSEEVENTF_VIRTUALDESK + extra) as u32
}

/// What is done with the mouse at a point of the desktop.
pub open spec fn mouse_steps(dx: i32, dy: i32, kind: MouseKind) -> Seq<MouseStep> {
    match kind {
        MouseKind::Move => seq![
            MouseStep::Input(MouseInput { dx, dy, flags: mouse_flags(0), data: 0 }),
        ],
        MouseKind::Click => seq![
            MouseStep::Input(
                MouseInput { dx, dy, flags: mouse_flags(MOUSEEVENTF_LEFTDOWN), data: 0 },
            ),
            MouseStep::Sleep(CLICK_MILLIS),
            MouseStep::Input(MouseInput { dx, dy, flags: mouse_flags(MOUSEEVENTF_LEFTUP), data: 0 }),
        ],
        MouseKind::Scroll => seq![
            MouseStep::Input(
                MouseInput { dx, dy, flags: mouse_flags(MOUSEEVENTF_WHEEL), data: WHEEL_DELTA },
            ),
        ],
    }
}

fn mouse_input(dx: i32, dy: i32, extra: u32, data: i32) -> (res: MouseStep)
    requires
        extra <= MOUSEEVENTF_WHEEL,
    ensures
        res == MouseStep::Input(MouseInput { dx, dy, flags: mouse_flags(extra), data }),
{
    let flags: u32 = MOUSEEVENTF_ABSOLUTE + MOUSEEVENTF_MOVE + MOUSEEVENTF_VIRTUALDESK + extra;
    MouseStep::Input(MouseInput { dx, dy, flags, data })
}

/// What is done with the mouse at a point of the screen, or why nothing is: the window must be
/// there and able to receive inputs.
pub fn send_mouse(
    point: Point,
    desktop: Rect,
    kind: MouseKind,
    found: bool,
    foreground: bool,
) -> (res: Result<Vec<MouseStep>, Error>)
    requires
        found && foreground ==> point_fits(point, desktop),
    ensures
        match res {
            Ok(steps) => {
                &&& found && foreground && desktop.width != 0 && desktop.height != 0
                &&& steps@ == mouse_steps(
                    absolute(point.x as int, desktop.x as int, desktop.width as int) as i32,
                    absolute(point.y as int, desktop.y as int, desktop.height as int) as i32,
                    kind,
                )
            },
            Err(error) => error == if !found || !foreground {
                Error::WindowNotFound
            } else {
                Error::WindowInvalidSize
            } && (!found || !foreground || desktop.width == 0 || desktop.height == 0),
        },
{
    if !found || !foreground {
        return Err(Error::WindowNotFound);
    }
    let (dx, dy): (i32, i32) = match screen_to_absolute_coordinate(point, desktop) {
        Ok(at) => at,
        Err(error) => {
            return Err(error);
        },
    };
    let mut steps: Vec<MouseStep> = Vec::new();
    match kind {
        MouseKind::Move => steps.push(mouse_input(dx, dy, 0, 0)),
        MouseKind::Click => {
            steps.push(mouse_input(dx, dy, MOUSEEVENTF_LEFTDOWN, 0));
            steps.push(MouseStep::Sleep(CLICK_MILLIS));
            steps.push(mouse_input(dx, dy, MOUSEEVENTF_LEFTUP, 0));
        },
        MouseKind::Scroll => steps.push(mouse_input(dx, dy, MOUSEEVENTF_WHEEL, WHEEL_DELTA)),
    }
    assert(steps@ =~= mouse_steps(dx, dy, kind));
    Ok(steps)
}

/// Points inside of the desktop get coordinates inside of its range, and the first one is at its
/// very beginning.
pub proof fn law_desktop_is_mapped_onto_its_range(at: int, start: int, size: int)
    requires
        0 < size,
        start <= at < start + size,
    ensures
        0 <= absolute(at, start, size) < 65536,
        absolute(start, start, size) == 0,
{
    let d = (at - start) * 65536;
    assert(0 <= d < size * 65536) by (nonlinear_arith)
        requires
            0 <= at - start < size,
            d == (at - start) * 65536,
    ;
    assert(0 <= d / size < 65536) by (nonlinear_arith)
        requires
            0 <= d < size * 65536,
            0 < size,
    ;
    assert(0int / size == 0) by (nonlinear_arith)
        requires
            0 < size,
    ;
}

/// A coordinate of the desktop is as far along its range as the point is along the desktop, rounded
/// towards its beginning.
pub proof fn law_coordinates_are_in_proportion(at: int, start: int, size: int)
    requires
        0 < size,
    ensures
        ({
            let res = absolute(at, start, size);
            &&& at >= start ==> res * size <= (at - start) * 65536 < (res + 1) * size
            &&& at < start ==> (res - 1) * size < (at - start) * 65536 <= res * size
        }),
{
    let res = absolute(at, start, size);
    let d = (at - start) * 65536;
    if at >= start {
        assert(res * size <= d < (res + 1) * size) by (nonlinear_arith)
            requires
                res == d / size,
                0 < size,
        ;
    } else {
        let q = (-d) / size;
        assert(q * size <= -d < (q + 1) * size) by (nonlinear_arith)
            requires
                q == (-d) / size,
                0 < size,
        ;
        assert((res - 1) * size < d <= res * size) by (nonlinear_arith)
            requires
                res == -q,
                q * size <= -d < (q + 1) * size,
        ;
    }
}

/// Mirroring the desktop mirrors the coordinates.
pub proof fn law_coordinates_are_mirrored(at: int, start: int, size: int)
    requires
        size != 0,
    ensures
        absolute(at, start, -size) == -absolute(at, start, size),
{
}

/// To move, the mouse is sent there once. To click, it is sent there with the button pressed and
/// again with it released, after 80 milliseconds. To scroll, it is sent there with the wheel turned
/// towards the user.
pub proof fn law_mouse_does_what_it_is_told(dx: i32, dy: i32, kind: MouseKind)
    ensures
        ({
            let steps = mouse_steps(dx, dy, kind);
            match kind {
                MouseKind::Move => {
                    &&& steps.len() == 1
                    &&& steps[0] == MouseStep::Input(MouseInput { dx, dy, flags: 0xC001, data: 0 })
                },
                MouseKind::Click => {
                    &&& steps.len() == 3
                    &&& steps[0] == MouseStep::Input(MouseInput { dx, dy, flags: 0xC003, data: 0 })
                    &&& steps[1] == MouseStep::Sleep(80)
                    &&& steps[2] == MouseStep::Input(MouseInput { dx, dy, flags: 0xC005, data: 0 })
                },
                MouseKind::Scroll => {
                    &&& steps.len() == 1
                    &&& steps[0] matches MouseStep::Input(input)
                    &&& input.dx == dx
                    &&& input.dy == dy
                    &&& input.flags == 0xC801
                    &&& input.data == -150
                },
            }
        }),
{
}

} // verus!
