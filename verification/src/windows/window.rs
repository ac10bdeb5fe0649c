//! Which windows can be captured and which can receive inputs.

use vstd::prelude::*;

use crate::windows::input::Handle;
use crate::windows::InputKind;

verus! {

/// A window that takes no part in anything.
pub const WS_DISABLED: u32 = 0x0800_0000;

/// A floating toolbar.
pub const WS_EX_TOOLWINDOW: u32 = 0x80;

/// What is known of a window that might be captured.
#[derive(Clone, Copy, PartialEq, Eq, Debug, Structural)]
pub struct WindowTraits {
    pub visible: bool,
    pub cloaked: u32,
    pub style: u32,
    pub ex_style: u32,
}

impl WindowTraits {
    /// Whether a window can be captured: it can be seen, is not disabled and is no toolbar.
    pub open spec fn capturable(self) -> bool {
        &&& self.visible
        &&& self.cloaked == 0
        &&& self.style & WS_DISABLED == 0
        &&& self.ex_style & WS_EX_TOOLWINDOW == 0
    }
}

/// The windows that can be captured, in order.
pub open spec fn capturable_of(windows: Seq<(Handle, WindowTraits)>) -> Seq<Handle>
    decreases windows.len(),
{
    if windows.len() == 0 {
        seq![]
    } else {
        let before = capturable_of(windows.drop_last());
        if windows.last().1.capturable() {
            before.push(windows.last().0)
        } else {
            before
        }
    }
}

/// Picks those of all windows that can be captured.
pub fn query_capture_handles(windows: &Vec<(Handle, WindowTraits)>) -> (res: Vec<Handle>)
    ensures
        res@ == capturable_of(windows@),
{
    let mut handles: Vec<Handle> = Vec::new();
    let mut i: usize = 0;
    assert(windows@.take(0) =~= seq![]);
    while i < windows.len()
        invariant
            i <= windows@.len(),
            handles@ == capturable_of(windows@.take(i as int)),
        decreases windows@.len() - i,
    {
        assert(windows@.take(i + 1).drop_last() =~= windows@.take(i as int));
        if is_capturable(windows[i].1) {
            handles.push(windows[i].0);
        }
        i = i + 1;
    }
    assert(windows@.take(i as int) =~= windows@);
    handles
}

fn is_capturable(window: WindowTraits) -> (res: bool)
    ensures
        res == window.capturable(),
{
    if !window.visible {
        return false;
    }
    if window.cloaked != 0 {
        return false;
    }
    if window.style & WS_DISABLED != 0 || window.ex_style & WS_EX_TOOLWINDOW != 0 {
        return false;
    }
    true
}

/// The edges of a window on the screen; the right and bottom ones are outside.
#[derive(Clone, Copy, PartialEq, Eq, Debug, Structural)]
pub struct Edges {
    pub left: i32,
    pub top: i32,
    pub right: i32,
    pub bottom: i32,
}

/// Where a window is.
#[derive(Clone, Copy, PartialEq, Eq, Debug, Structural)]
pub struct Placement {
    pub handle: i64,
    pub monitor: i64,
    /// This is `None` where Windows does not tell.
    pub edges: Option<Edges>,
}

pub open spec fn larger(a: i32, b: i32) -> i32 {
    if a >= b {
        a
    } else {
        b
    }
}

pub open spec fn smaller(a: i32, b: i32) -> i32 {
    if a <= b {
        a
    } else {
        b
    }
}

/// Whether two windows cover some part of the screen together.
pub open spec fn intersect(a: Edges, b: Edges) -> bool {
    &&& larger(a.left, b.left) < smaller(a.right, b.right)
    &&& larger(a.top, b.top) < smaller(a.bottom, b.bottom)
}

/// Whether inputs reach what they are meant for: either the window itself is focused, or another
/// one that lies on top of it.
pub open spec fn receives_inputs(
    focused: Option<Placement>,
    window: Placement,
    kind: InputKind,
) -> bool {
    match focused {
        None => false,
        Some(focused) => match kind {
            InputKind::Focused => focused.handle == window.handle,
            InputKind::Foreground => {
                &&& focused.handle != window.handle
                &&& focused.monitor == window.monitor
                &&& focused.edges matches Some(a)
                &&& window.edges matches Some(b)
                &&& intersect(a, b)
            },
        },
    }
}

pub fn is_foreground(focused: Option<Placement>, window: Placement, kind: InputKind) -> (res: bool)
    ensures
        res == receives_inputs(focused, window, kind),
{
    let focused: Placement = match focused {
        Some(focused) => focused,
        None => {
            return false;
        },
    };
    match kind {
        InputKind::Focused => focused.handle == window.handle,
        InputKind::Foreground => {
            if focused.handle == window.handle {
                return false;
            }
            if focused.monitor != window.monitor {
                return false;
            }
            match (focused.edges, window.edges) {
                (Some(a), Some(b)) => {
                    let left: i32 = if a.left >= b.left {
                        a.left
                    } else {
                        b.left
                    };
                    let top: i32 = if a.top >= b.top {
                        a.top
                    } else {
                        b.top
                    };
                    let right: i32 = if a.right <= b.right {
                        a.right
                    } else {
                        b.right
                    };
                    let bottom: i32 = if a.bottom <= b.bottom {
                        a.bottom
                    } else {
                        b.bottom
                    };
                    left < right && top < bottom
                },
                _ => false,
            }
        },
    }
}

/// The two ways of sending inputs exclude each other: where one can be used, the other cannot.
pub proof fn law_input_kinds_exclude_each_other(focused: Option<Placement>, window: Placement)
    ensures
        !(receives_inputs(focused, window, InputKind::Focused) && receives_inputs(
            focused,
            window,
            InputKind::Foreground,
        )),
{
}

/// A window can be captured just when it is visible and not cloaked, and neither the bit of a
/// disabled window nor that of a toolbar is set.
pub proof fn law_capturable_windows_can_be_seen_and_used(window: WindowTraits)
    ensures
        window.capturable() <==> window.visible && window.cloaked == 0 && window.style
            / 0x0800_0000 % 2 == 0 && window.ex_style / 0x80 % 2 == 0,
{
    let style = window.style;
    let ex_style = window.ex_style;
    assert(style & 0x0800_0000 == 0 <==> style / 0x0800_0000 % 2 == 0) by (bit_vector);
    assert(ex_style & 0x80 == 0 <==> ex_style / 0x80 % 2 == 0) by (bit_vector);
}

/// All windows that can be captured are picked and no others, in their order.
pub proof fn law_capturable_windows_are_picked(windows: Seq<(Handle, WindowTraits)>)
    ensures
        capturable_of(windows) == windows.filter(
            |window: (Handle, WindowTraits)| window.1.capturable(),
        ).map_values(|window: (Handle, WindowTraits)| window.0),
    decreases windows.len(),
{
    reveal(Seq::filter);
    let keep = |window: (Handle, WindowTraits)| window.1.capturable();
    let handle = |window: (Handle, WindowTraits)| window.0;
    if windows.len() > 0 {
        law_capturable_windows_are_picked(windows.drop_last());
        let before = windows.drop_last().filter(keep);
        assert(before.push(windows.last()).map_values(handle) =~= before.map_values(handle).push(
            handle(windows.last()),
        ));
    } else {
        assert(windows.filter(keep).map_values(handle) =~= seq![]);
    }
    assert(capturable_of(windows) =~= windows.filter(keep).map_values(handle));
}

/// Whether a point of the screen is covered by a window.
pub open spec fn covers(edges: Edges, x: int, y: int) -> bool {
    edges.left <= x < edges.right && edges.top <= y < edges.bottom
}

/// Two windows lie on top of each other just when there is a point that both of them cover.
pub proof fn law_windows_on_top_of_each_other_share_a_point(a: Edges, b: Edges)
    ensures
        intersect(a, b) <==> exists|x: int, y: int| #[trigger] covers(a, x, y) && covers(b, x, y),
        intersect(a, b) == intersect(b, a),
{
    if intersect(a, b) {
        let x = if a.left >= b.left {
            a.left as int
        } else {
            b.left as int
        };
        let y = if a.top >= b.top {
            a.top as int
        } else {
            b.top as int
        };
        assert(covers(a, x, y) && covers(b, x, y));
    }
    if exists|x: int, y: int| #[trigger] covers(a, x, y) && covers(b, x, y) {
        let (x, y) = choose|x: int, y: int| #[trigger] covers(a, x, y) && covers(b, x, y);
        assert(covers(a, x, y) && covers(b, x, y));
    }
}

/// The window itself receives inputs just when it is focused. What lies on top of it receives them
/// just when another window is focused, on the same monitor and sharing a point with it.
pub proof fn law_focus_decides_what_receives_inputs(focused: Option<Placement>, window: Placement)
    ensures
        receives_inputs(focused, window, InputKind::Focused) <==> focused is Some
            && focused->0.handle == window.handle,
        receives_inputs(focused, window, InputKind::Foreground) <==> {
            &&& focused is Some
            &&& focused->0.handle != window.handle
            &&& focused->0.monitor == window.monitor
            &&& focused->0.edges is Some
            &&& window.edges is Some
            &&& exists|x: int, y: int|
                #![trigger covers(focused->0.edges->0, x, y)]
                covers(focused->0.edges->0, x, y) && covers(window.edges->0, x, y)
        },
{
    law_windows_on_top_of_each_other_share_a_point(focused->0.edges->0, window.edges->0);
}

} // verus!
