//! One window arrangement: the ordered windows, the layout kind, the
//! computed rectangles and the last known foreground window, together
//! with the geometry actions that applying it takes.
use crate::layout::{compute_layout, layout_spec};
use crate::protocol::{Layout, OperationDirection};
use crate::rect::{half, halve, wadd, Rect};
use crate::window::Window;
use vstd::prelude::*;

verus! {

/// Where a positioned window goes in the stacking order.
#[derive(Clone, Copy, Debug, PartialEq, Eq, Structural)]
pub enum ZOrder {
    Bottom,
    /// Leave the stacking order as it is.
    Keep,
    NotTopmost,
}

/// One thing the OS layer must do after a state change.
#[derive(Clone, Copy, Debug, PartialEq, Eq, Structural)]
pub enum Action {
    /// Position a window; with `keep_geometry` only its stacking changes.
    SetPosition { hwnd: isize, rect: Rect, z: ZOrder, keep_geometry: bool },
    /// Position whatever window the OS reports as foreground.
    PlaceForeground { rect: Rect },
    /// Give a window the keyboard focus.
    SetForeground { hwnd: isize },
    /// Move the mouse cursor.
    SetCursor { x: i32, y: i32 },
    /// Click the left mouse button where the cursor is.
    Click,
    /// Hide a window.
    Hide { hwnd: isize },
    /// Show a hidden window again.
    Show { hwnd: isize },
    /// Restore a window to its unmanaged state.
    Restore { hwnd: isize },
    /// Stop the manager.
    Exit,
}

/// Whether a handle is in a list.
pub fn holds(list: &Vec<isize>, h: isize) -> (r: bool)
    ensures
        r == list@.contains(h),
{
    let mut i: usize = 0;
    while i < list.len()
        invariant
            i <= list@.len(),
            forall|k: int| 0 <= k < i ==> list@[k] != h,
        decreases list@.len() - i,
    {
        if list[i] == h {
            return true;
        }
        i = i + 1;
    }
    false
}

/// Whether a window is tiled, given the handles that rules float.
pub open spec fn is_tiled(w: Window, floated: Seq<isize>) -> bool {
    w.tile && !floated.contains(w.hwnd)
}

/// The resize overrides of the tiled windows, in order.
pub open spec fn tiled_resizes(ws: Seq<Window>, floated: Seq<isize>) -> Seq<Option<Rect>>
    decreases ws.len(),
{
    if ws.len() == 0 {
        Seq::empty()
    } else {
        let prev = tiled_resizes(ws.drop_last(), floated);
        if is_tiled(ws.last(), floated) {
            prev.push(ws.last().resize)
        } else {
            prev
        }
    }
}

/// Whether `i` is the first position of handle `h` in `ws`.
pub open spec fn is_first_position(ws: Seq<Window>, h: isize, i: int) -> bool {
    &&& 0 <= i < ws.len()
    &&& ws[i].hwnd == h
    &&& forall|k: int| 0 <= k < i ==> ws[k].hwnd != h
}

/// The first position of handle `h` in `ws`, if any.
pub open spec fn first_position(ws: Seq<Window>, h: isize) -> Option<int> {
    if exists|i: int| is_first_position(ws, h, i) {
        Some(choose|i: int| is_first_position(ws, h, i))
    } else {
        None
    }
}

/// The centre of a rectangle, where the cursor goes on focus.
pub open spec fn centre_action(r: Rect) -> Action {
    Action::SetCursor { x: wadd(r.x, half(r.width)), y: wadd(r.y, half(r.height)) }
}

pub fn centre_of(r: Rect) -> (a: Action)
    ensures
        a == centre_action(r),
{
    Action::SetCursor {
        x: r.x.wrapping_add(halve(r.width)),
        y: r.y.wrapping_add(halve(r.height)),
    }
}

/// The windows at `a` and `b` exchanged; resize overrides are positional
/// and stay where they were.
pub open spec fn swapped(ws: Seq<Window>, a: int, b: int) -> Seq<Window> {
    ws.update(a, Window { resize: ws[a].resize, ..ws[b] }).update(
        b,
        Window { resize: ws[b].resize, ..ws[a] },
    )
}

/// The destination of a directional operation from position `idx` in a
/// list of `len` windows under layout `layout`, when the direction is
/// structurally valid there.
pub open spec fn direction_target(layout: Layout, len: int, idx: int, d: OperationDirection) -> Option<
    int,
> {
    match d {
        OperationDirection::Up => match layout {
            Layout::BSPV => if len > 2 && idx != 0 && idx != 1 {
                Some(if idx % 2 == 0 { idx - 1 } else { idx - 2 })
            } else {
                None
            },
            Layout::BSPH => if len > 2 && idx != 0 && idx != 1 {
                Some(if idx % 2 == 0 { idx - 1 } else { idx - 2 })
            } else {
                None
            },
            Layout::Rows => if idx != 0 { Some(idx - 1) } else { None },
            _ => None,
        },
        OperationDirection::Down => match layout {
            Layout::BSPV => if len > 2 && idx != len - 1 && idx % 2 != 0 { Some(idx + 1) } else { None },
            Layout::BSPH => if len > 2 && idx != len - 1 && idx % 2 != 0 { Some(idx + 1) } else { None },
            Layout::Rows => if idx != len - 1 { Some(idx + 1) } else { None },
            _ => None,
        },
        OperationDirection::Left => match layout {
            Layout::BSPV => if len > 2 && idx != 0 && idx != 1 {
                Some(if idx % 2 == 0 { idx - 1 } else { idx - 2 })
            } else {
                None
            },
            Layout::BSPH => if len > 1 && idx != 0 {
                Some(if idx % 2 == 0 { idx - 2 } else { idx - 1 })
            } else {
                None
            },
            Layout::Columns => if idx != 0 { Some(idx - 1) } else { None },
            _ => None,
        },
        OperationDirection::Right => match layout {
            Layout::BSPV => if len > 2 && idx % 2 != 0 && idx != len - 1 { Some(idx + 1) } else { None },
            Layout::BSPH => if len > 1 && idx % 2 == 0 { Some(idx + 1) } else { None },
            Layout::Columns => if idx != len - 1 { Some(idx + 1) } else { None },
            _ => None,
        },
        OperationDirection::Next => if len > 1 {
            Some(if idx == len - 1 { 0 } else { idx + 1 })
        } else {
            None
        },
        OperationDirection::Previous => if len > 1 {
            Some(if idx == 0 { len - 1 } else { idx - 1 })
        } else {
            None
        },
    }
}

/// The destination of a directional operation that lands on a window.
pub open spec fn valid_target(layout: Layout, len: int, idx: int, d: OperationDirection) -> Option<int> {
    match direction_target(layout, len, idx, d) {
        Some(t) => if 0 <= t < len { Some(t) } else { None },
        None => None,
    }
}

pub fn target_of(layout: Layout, len: usize, idx: usize, d: OperationDirection) -> (r: Option<usize>)
    requires
        len > 0 ==> idx < len,
    ensures
        r matches Some(t) ==> valid_target(layout, len as int, idx as int, d) == Some(t as int),
        r is None ==> valid_target(layout, len as int, idx as int, d) is None,
{
    let t: Option<usize> = match d {
        OperationDirection::Up => match layout {
            Layout::BSPV => if len > 2 && idx != 0 && idx != 1 {
                Some(if idx % 2 == 0 { idx - 1 } else { idx - 2 })
            } else {
                None
            },
            Layout::BSPH => if len > 2 && idx != 0 && idx != 1 {
                Some(if idx % 2 == 0 { idx - 1 } else { idx - 2 })
            } else {
                None
            },
            Layout::Rows => if idx != 0 { Some(idx - 1) } else { None },
            _ => None,
        },
        OperationDirection::Down => match layout {
            Layout::BSPV => if len > 2 && idx != len - 1 && idx % 2 != 0 { Some(idx + 1) } else { None },
            Layout::BSPH => if len > 2 && idx != len - 1 && idx % 2 != 0 { Some(idx + 1) } else { None },
            Layout::Rows => if len > 0 && idx != len - 1 { Some(idx + 1) } else { None },
            _ => None,
        },
        OperationDirection::Left => match layout {
            Layout::BSPV => if len > 2 && idx != 0 && idx != 1 {
                Some(if idx % 2 == 0 { idx - 1 } else { idx - 2 })
            } else {
                None
            },
            Layout::BSPH => if len > 1 && idx != 0 {
                if idx % 2 == 0 { if idx >= 2 { Some(idx - 2) } else { None } } else { Some(idx - 1) }
            } else {
                None
            },
            Layout::Columns => if idx != 0 { Some(idx - 1) } else { None },
            _ => None,
        },
        OperationDirection::Right => match layout {
            Layout::BSPV => if len > 2 && idx % 2 != 0 && idx != len - 1 { Some(idx + 1) } else { None },
            Layout::BSPH => if len > 1 && idx % 2 == 0 { Some(idx + 1) } else { None },
            Layout::Columns => if len > 0 && idx != len - 1 { Some(idx + 1) } else { None },
            _ => None,
        },
        OperationDirection::Next => if len > 1 {
            Some(if idx == len - 1 { 0 } else { idx + 1 })
        } else {
            None
        },
        OperationDirection::Previous => if len > 1 {
            Some(if idx == 0 { len - 1 } else { idx - 1 })
        } else {
            None
        },
    };
    match t {
        Some(v) => if v < len { Some(v) } else { None },
        None => None,
    }
}

/// Focus a window, or move it, in a directional operation.
#[derive(Clone, Copy, Debug, PartialEq, Eq, Structural)]
pub enum DirectionOperation {
    Focus,
    Move,
}

/// One virtual desktop slot of one display.
#[derive(Clone, Debug)]
pub struct Workspace {
    pub windows: Vec<Window>,
    pub layout: Layout,
    pub layout_dimensions: Vec<Rect>,
    pub foreground_window: Window,
}

/// The rectangles that tiled windows `windows` get in `area`.
pub open spec fn windows_layout(windows: Seq<Window>, layout: Layout, area: Rect, gaps: i32, floated: Seq<isize>) -> Seq<Rect> {
    let o = tiled_resizes(windows, floated);
    layout_spec(area, o.len(), layout, gaps, o)
}

/// The rectangles a workspace's tiled windows get in `area`.
pub open spec fn workspace_layout(ws: Workspace, area: Rect, gaps: i32, floated: Seq<isize>) -> Seq<Rect> {
    windows_layout(ws.windows@, ws.layout, area, gaps, floated)
}

/// Position of the foreground window, or 0 when it is not tracked here.
pub open spec fn foreground_index(ws: Workspace) -> int {
    match first_position(ws.windows@, ws.foreground_window.hwnd) {
        Some(i) => i,
        None => 0,
    }
}

/// The positioning of windows `0..k` when a layout is applied.
pub open spec fn arranged(
    ws: Seq<Window>,
    dims: Seq<Rect>,
    focus: Option<usize>,
    floated: Seq<isize>,
    k: nat,
) -> Seq<Action>
    decreases k,
{
    if k == 0 {
        Seq::empty()
    } else {
        let prev = arranged(ws, dims, focus, floated, (k - 1) as nat);
        let i = k - 1;
        let w = ws[i];
        let slot = tiled_resizes(ws.take(i), floated).len();
        if is_tiled(w, floated) && slot < dims.len() {
            prev.push(
                Action::SetPosition {
                    hwnd: w.hwnd,
                    rect: dims[slot as int],
                    z: ZOrder::Bottom,
                    keep_geometry: focus == Some(i as usize),
                },
            )
        } else {
            prev
        }
    }
}

/// What applying a layout does; `focus` names the window that keeps its
/// place and only changes stacking.
pub open spec fn applied_parts(
    windows: Seq<Window>,
    layout: Layout,
    dims: Seq<Rect>,
    focus: Option<usize>,
    floated: Seq<isize>,
) -> Seq<Action> {
    if layout == Layout::Monocle {
        if dims.len() > 0 {
            seq![Action::PlaceForeground { rect: dims[0] }]
        } else {
            Seq::empty()
        }
    } else {
        arranged(windows, dims, focus, floated, windows.len())
    }
}

/// What applying a workspace's layout does.
pub open spec fn applied(ws: Workspace, focus: Option<usize>, floated: Seq<isize>) -> Seq<Action> {
    applied_parts(ws.windows@, ws.layout, ws.layout_dimensions@, focus, floated)
}

/// The cursor move that follows focus to window `idx`, if it has a
/// rectangle.
pub open spec fn follow_spec(ws: Workspace, idx: int) -> Seq<Action> {
    if 0 <= idx < ws.windows@.len() && idx < ws.layout_dimensions@.len() {
        seq![centre_action(ws.layout_dimensions@[idx])]
    } else {
        Seq::empty()
    }
}


/// `ws` with `w` placed right after position `idx`; the window already
/// there hands its resize override to the newcomer.
pub open spec fn inserted_after(ws: Seq<Window>, idx: int, w: Window) -> Seq<Window> {
    if ws.len() == 0 {
        seq![w]
    } else if idx + 1 < ws.len() {
        ws.update(idx + 1, Window { resize: None, ..ws[idx + 1] }).insert(
            idx + 1,
            Window { resize: ws[idx + 1].resize, ..w },
        )
    } else {
        ws.insert(idx + 1, w)
    }
}

/// `ws` without position `idx`; the removed window's resize override
/// goes to its successor.
pub open spec fn removed_at(ws: Seq<Window>, idx: int) -> Seq<Window> {
    if idx + 1 < ws.len() {
        ws.update(idx + 1, Window { resize: ws[idx].resize, ..ws[idx + 1] }).remove(idx)
    } else {
        ws.remove(idx)
    }
}

/// The focus target after removing position `idx`.
pub open spec fn previous_index(idx: int) -> int {
    if idx == 0 {
        0
    } else {
        idx - 1
    }
}

/// Every resize override cleared.
pub open spec fn balanced(ws: Seq<Window>) -> Seq<Window> {
    ws.map_values(|w: Window| Window { resize: None, ..w })
}

/// Position `idx` moved to the front.
pub open spec fn promoted(ws: Seq<Window>, idx: int) -> Seq<Window> {
    ws.remove(idx).insert(0, ws[idx])
}

/// What a directional operation does to a workspace and which actions
/// it takes.
pub open spec fn window_op_post(
    before: Workspace,
    after: Workspace,
    op: DirectionOperation,
    direction: OperationDirection,
    area: Rect,
    gaps: i32,
    floated: Seq<isize>,
    r: Seq<Action>,
) -> bool {
    let idx = foreground_index(before);
    match valid_target(before.layout, before.windows@.len() as int, idx, direction) {
        None => after == before && r.len() == 0,
        Some(t) => perform_post(before, after, op, idx, t, area, gaps, floated, r),
    }
}

/// What focusing window `new_idx`, or exchanging it with window `idx`,
/// does.
pub open spec fn perform_post(
    before: Workspace,
    after: Workspace,
    op: DirectionOperation,
    idx: int,
    new_idx: int,
    area: Rect,
    gaps: i32,
    floated: Seq<isize>,
    r: Seq<Action>,
) -> bool {
    match op {
        DirectionOperation::Focus => after == before && r == seq![
            Action::SetForeground { hwnd: before.windows@[new_idx].hwnd },
        ] + follow_spec(before, new_idx),
        DirectionOperation::Move => {
            &&& after.windows@ == swapped(before.windows@, idx, new_idx)
            &&& after.layout == before.layout
            &&& after.foreground_window == before.foreground_window
            &&& after.layout_dimensions@ == workspace_layout(after, area, gaps, floated)
            &&& r == applied(after, Some(new_idx as usize), floated) + follow_spec(after, new_idx)
        },
    }
}

proof fn lemma_tiled_resizes_take(ws: Seq<Window>, floated: Seq<isize>, i: int)
    requires
        0 <= i < ws.len(),
    ensures
        tiled_resizes(ws.take(i + 1), floated) == (if is_tiled(ws[i], floated) {
            tiled_resizes(ws.take(i), floated).push(ws[i].resize)
        } else {
            tiled_resizes(ws.take(i), floated)
        }),
{
    assert(ws.take(i + 1).drop_last() =~= ws.take(i));
}

impl Workspace {
    pub fn new(layout: Layout) -> (r: Self)
        ensures
            r.windows@.len() == 0,
            r.layout == layout,
            r.layout_dimensions@.len() == 0,
            r.foreground_window == (Window { hwnd: 0, hmonitor: 0, tile: true, resize: None }),
    {
        Workspace {
            windows: Vec::new(),
            layout,
            layout_dimensions: Vec::new(),
            foreground_window: Window::default(),
        }
    }

    pub fn get_foreground_window_index(&self) -> (r: usize)
        ensures
            r == foreground_index(*self),
            self.windows@.len() > 0 ==> r < self.windows@.len(),
    {
        match self.foreground_window.index(self.windows.as_slice()) {
            Some(i) => {
                proof {
                    assert(is_first_position(self.windows@, self.foreground_window.hwnd, i as int));
                    let j = choose|j: int| is_first_position(self.windows@, self.foreground_window.hwnd, j);
                    assert(j == i as int) by {
                        if j < i as int {
                            assert(self.windows@[j].hwnd != self.foreground_window.hwnd);
                        } else if j > i as int {
                            assert(self.windows@[i as int].hwnd != self.foreground_window.hwnd);
                        }
                    }
                }
                i
            },
            None => 0,
        }
    }

    /// The resize overrides of the tiled windows, in order.
    pub fn tiled_overrides(&self, floated: &Vec<isize>) -> (r: Vec<Option<Rect>>)
        ensures
            r@ == tiled_resizes(self.windows@, floated@),
    {
        let mut r: Vec<Option<Rect>> = Vec::new();
        let mut i: usize = 0;
        while i < self.windows.len()
            invariant
                i <= self.windows@.len(),
                r@ == tiled_resizes(self.windows@.take(i as int), floated@),
            decreases self.windows@.len() - i,
        {
            let w = self.windows[i];
            proof {
                lemma_tiled_resizes_take(self.windows@, floated@, i as int);
            }
            if w.tile && !holds(floated, w.hwnd) {
                r.push(w.resize);
            }
            i = i + 1;
        }
        proof {
            assert(self.windows@.take(i as int) =~= self.windows@);
        }
        r
    }

    /// Recomputes the rectangles of the tiled windows in `area`.
    pub fn calculate_layout(&mut self, area: Rect, gaps: i32, floated: &Vec<isize>)
        ensures
            final(self).layout_dimensions@ == workspace_layout(*old(self), area, gaps, floated@),
            final(self).windows == old(self).windows,
            final(self).layout == old(self).layout,
            final(self).foreground_window == old(self).foreground_window,
    {
        let overrides = self.tiled_overrides(floated);
        self.layout_dimensions = compute_layout(area, overrides.len(), self.layout, gaps, &overrides);
    }

    /// The actions that put every tiled window in its rectangle.
    pub fn apply_layout(&self, new_focus: Option<usize>, floated: &Vec<isize>) -> (r: Vec<Action>)
        ensures
            r@ == applied(*self, new_focus, floated@),
    {
        let mut out: Vec<Action> = Vec::new();
        if self.layout == Layout::Monocle {
            if self.layout_dimensions.len() > 0 {
                out.push(Action::PlaceForeground { rect: self.layout_dimensions[0] });
                proof {
                    assert(out@ =~= applied(*self, new_focus, floated@));
                }
            }
            return out;
        }
        let ghost ws = self.windows@;
        let mut tiled: usize = 0;
        let mut i: usize = 0;
        while i < self.windows.len()
            invariant
                ws == self.windows@,
                i <= ws.len(),
                tiled == tiled_resizes(ws.take(i as int), floated@).len(),
                tiled <= i,
                out@ == arranged(ws, self.layout_dimensions@, new_focus, floated@, i as nat),
            decreases ws.len() - i,
        {
            let w = self.windows[i];
            proof {
                lemma_tiled_resizes_take(ws, floated@, i as int);
            }
            if w.tile && !holds(floated, w.hwnd) {
                if tiled < self.layout_dimensions.len() {
                    let keep = match new_focus {
                        Some(f) => f == i,
                        None => false,
                    };
                    out.push(
                        Action::SetPosition {
                            hwnd: w.hwnd,
                            rect: self.layout_dimensions[tiled],
                            z: ZOrder::Bottom,
                            keep_geometry: keep,
                        },
                    );
                }
                tiled = tiled + 1;
            }
            i = i + 1;
        }
        proof {
            assert(out@ == applied(*self, new_focus, floated@));
        }
        out
    }

    /// Moves the cursor to the centre of window `idx`'s rectangle.
    pub fn follow_focus_with_mouse(&self, idx: usize) -> (r: Vec<Action>)
        ensures
            r@ == follow_spec(*self, idx as int),
    {
        let mut out: Vec<Action> = Vec::new();
        if idx < self.windows.len() && idx < self.layout_dimensions.len() {
            out.push(centre_of(self.layout_dimensions[idx]));
            proof {
                assert(out@ =~= follow_spec(*self, idx as int));
            }
        }
        out
    }
}


impl Workspace {
    /// Focuses window `new_idx`, or exchanges it with window `idx`, then
    /// follows the focus with the cursor.
    pub fn perform(
        &mut self,
        op: DirectionOperation,
        idx: usize,
        new_idx: usize,
        area: Rect,
        gaps: i32,
        floated: &Vec<isize>,
    ) -> (r: Vec<Action>)
        requires
            idx < old(self).windows@.len(),
            new_idx < old(self).windows@.len(),
        ensures
            perform_post(*old(self), *final(self), op, idx as int, new_idx as int, area, gaps, floated@, r@),
    {
        match op {
            DirectionOperation::Focus => {
                let mut out: Vec<Action> = Vec::new();
                out.push(Action::SetForeground { hwnd: self.windows[new_idx].hwnd });
                let mut follow = self.follow_focus_with_mouse(new_idx);
                out.append(&mut follow);
                out
            },
            DirectionOperation::Move => {
                let wa = self.windows[idx];
                let wb = self.windows[new_idx];
                self.windows.set(idx, Window { resize: wa.resize, ..wb });
                self.windows.set(new_idx, Window { resize: wb.resize, ..wa });
                self.calculate_layout(area, gaps, floated);
                let mut out = self.apply_layout(Some(new_idx), floated);
                let mut follow = self.follow_focus_with_mouse(new_idx);
                out.append(&mut follow);
                out
            },
        }
    }

    /// A directional focus or move from the foreground window; nothing
    /// happens when the direction is not valid there.
    pub fn window_op(
        &mut self,
        op: DirectionOperation,
        direction: OperationDirection,
        area: Rect,
        gaps: i32,
        floated: &Vec<isize>,
    ) -> (r: Vec<Action>)
        ensures
            window_op_post(*old(self), *final(self), op, direction, area, gaps, floated@, r@),
    {
        let idx = self.get_foreground_window_index();
        match target_of(self.layout, self.windows.len(), idx, direction) {
            Some(t) => self.perform(op, idx, t, area, gaps, floated),
            None => Vec::new(),
        }
    }

    pub fn window_op_up(&mut self, op: DirectionOperation, area: Rect, gaps: i32, floated: &Vec<isize>) -> (r: Vec<Action>)
        ensures
            window_op_post(*old(self), *final(self), op, OperationDirection::Up, area, gaps, floated@, r@),
    {
        self.window_op(op, OperationDirection::Up, area, gaps, floated)
    }

    pub fn window_op_down(&mut self, op: DirectionOperation, area: Rect, gaps: i32, floated: &Vec<isize>) -> (r: Vec<Action>)
        ensures
            window_op_post(*old(self), *final(self), op, OperationDirection::Down, area, gaps, floated@, r@),
    {
        self.window_op(op, OperationDirection::Down, area, gaps, floated)
    }

    pub fn window_op_left(&mut self, op: DirectionOperation, area: Rect, gaps: i32, floated: &Vec<isize>) -> (r: Vec<Action>)
        ensures
            window_op_post(*old(self), *final(self), op, OperationDirection::Left, area, gaps, floated@, r@),
    {
        self.window_op(op, OperationDirection::Left, area, gaps, floated)
    }

    pub fn window_op_right(&mut self, op: DirectionOperation, area: Rect, gaps: i32, floated: &Vec<isize>) -> (r: Vec<Action>)
        ensures
            window_op_post(*old(self), *final(self), op, OperationDirection::Right, area, gaps, floated@, r@),
    {
        self.window_op(op, OperationDirection::Right, area, gaps, floated)
    }

    pub fn window_op_next(&mut self, op: DirectionOperation, area: Rect, gaps: i32, floated: &Vec<isize>) -> (r: Vec<Action>)
        ensures
            window_op_post(*old(self), *final(self), op, OperationDirection::Next, area, gaps, floated@, r@),
    {
        self.window_op(op, OperationDirection::Next, area, gaps, floated)
    }

    pub fn window_op_previous(&mut self, op: DirectionOperation, area: Rect, gaps: i32, floated: &Vec<isize>) -> (r: Vec<Action>)
        ensures
            window_op_post(*old(self), *final(self), op, OperationDirection::Previous, area, gaps, floated@, r@),
    {
        self.window_op(op, OperationDirection::Previous, area, gaps, floated)
    }

    /// Inserts a newly shown window right after the foreground window (or
    /// as the only one), taking over the resize override of the slot it
    /// displaces.
    pub fn insert_window(&mut self, w: Window)
        ensures
            final(self).windows@ == inserted_after(old(self).windows@, foreground_index(*old(self)), w),
            final(self).layout == old(self).layout,
            final(self).layout_dimensions == old(self).layout_dimensions,
            final(self).foreground_window == old(self).foreground_window,
    {
        if self.windows.len() == 0 {
            self.windows.push(w);
            proof {
                assert(self.windows@ =~= seq![w]);
            }
            return;
        }
        let idx = self.get_foreground_window_index() + 1;
        let mut nw = w;
        if idx < self.windows.len() {
            let cur = self.windows[idx];
            nw = Window { resize: cur.resize, ..w };
            self.windows.set(idx, Window { resize: None, ..cur });
        }
        self.windows.insert(idx, nw);
    }

    /// Removes the window with handle `hwnd`, handing its resize override
    /// to its successor; returns the position to focus next.
    pub fn remove_window(&mut self, hwnd: isize) -> (r: usize)
        ensures
            ({
                match first_position(old(self).windows@, hwnd) {
                    Some(i) => final(self).windows@ == removed_at(old(self).windows@, i) && r == previous_index(i),
                    None => final(self).windows == old(self).windows && r == 0,
                }
            }),
            final(self).layout == old(self).layout,
            final(self).layout_dimensions == old(self).layout_dimensions,
            final(self).foreground_window == old(self).foreground_window,
    {
        let probe = Window { hwnd, hmonitor: 0, tile: true, resize: None };
        match probe.index(self.windows.as_slice()) {
            Some(i) => {
                proof {
                    assert(is_first_position(old(self).windows@, hwnd, i as int));
                    let j = choose|j: int| is_first_position(old(self).windows@, hwnd, j);
                    assert(j == i as int) by {
                        if j < i as int {
                            assert(old(self).windows@[j].hwnd != hwnd);
                        } else if j > i as int {
                            assert(old(self).windows@[i as int].hwnd != hwnd);
                        }
                    }
                }
                if i < self.windows.len() - 1 {
                    let gone = self.windows[i];
                    let next = self.windows[i + 1];
                    self.windows.set(i + 1, Window { resize: gone.resize, ..next });
                }
                self.windows.remove(i);
                if i == 0 {
                    0
                } else {
                    i - 1
                }
            },
            None => 0,
        }
    }

    /// Moves the foreground window to the first slot.
    pub fn promote(&mut self)
        requires
            old(self).windows@.len() > 0,
        ensures
            final(self).windows@ == promoted(old(self).windows@, foreground_index(*old(self))),
            final(self).layout == old(self).layout,
            final(self).layout_dimensions == old(self).layout_dimensions,
            final(self).foreground_window == old(self).foreground_window,
    {
        let idx = self.get_foreground_window_index();
        let w = self.windows.remove(idx);
        self.windows.insert(0, w);
    }

    /// Clears every resize override, restoring the balanced partition.
    pub fn clear_resizes(&mut self)
        ensures
            final(self).windows@ == balanced(old(self).windows@),
            final(self).layout == old(self).layout,
            final(self).layout_dimensions == old(self).layout_dimensions,
            final(self).foreground_window == old(self).foreground_window,
    {
        let ghost before = self.windows@;
        let mut i: usize = 0;
        while i < self.windows.len()
            invariant
                i <= self.windows@.len(),
                self.windows@.len() == before.len(),
                forall|k: int| 0 <= k < i ==> self.windows@[k] == (Window { resize: None, ..before[k] }),
                forall|k: int| i <= k < before.len() ==> self.windows@[k] == before[k],
                self.layout == old(self).layout,
                self.layout_dimensions == old(self).layout_dimensions,
                self.foreground_window == old(self).foreground_window,
            decreases before.len() - i,
        {
            let w = self.windows[i];
            self.windows.set(i, Window { resize: None, ..w });
            i = i + 1;
        }
        proof {
            assert(self.windows@ =~= balanced(before));
        }
    }

    /// Flips the float flag of the window at `idx`.
    pub fn toggle_float_at(&mut self, idx: usize)
        requires
            idx < old(self).windows@.len(),
        ensures
            final(self).windows@ == old(self).windows@.update(
                idx as int,
                Window { tile: !old(self).windows@[idx as int].tile, ..old(self).windows@[idx as int] },
            ),
            final(self).layout == old(self).layout,
            final(self).layout_dimensions == old(self).layout_dimensions,
            final(self).foreground_window == old(self).foreground_window,
    {
        let mut w = self.windows[idx];
        w.toggle_float();
        self.windows.set(idx, w);
    }
}


/// The first position of handle `h` in `ws`.
pub fn position_of(ws: &Vec<Window>, h: isize) -> (r: Option<usize>)
    ensures
        r matches Some(i) ==> first_position(ws@, h) == Some(i as int) && i < ws@.len(),
        r is None ==> first_position(ws@, h) is None,
{
    let probe = Window { hwnd: h, hmonitor: 0, tile: true, resize: None };
    match probe.index(ws.as_slice()) {
        Some(i) => {
            proof {
                assert(is_first_position(ws@, h, i as int));
                let j = choose|j: int| is_first_position(ws@, h, j);
                assert(j == i as int) by {
                    if j < i as int {
                        assert(ws@[j].hwnd != h);
                    } else if j > i as int {
                        assert(ws@[i as int].hwnd != h);
                    }
                }
            }
            Some(i)
        },
        None => None,
    }
}

} // verus!
