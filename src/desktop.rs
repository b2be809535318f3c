//! Displays and the desktop that orders them: per-display settings, the
//! current workspace, the resize clamp, and cross-display operations.
use crate::layout::{bsp, bsp_spec, lemma_bsp_len};
use crate::protocol::{CycleDirection, Layout, ResizeEdge, Sizing};
use crate::rect::{wadd, wdouble, wsub, Rect};
use crate::window::{FloatRules, Window};
use crate::protocol::OperationDirection;
use crate::workspace::{
    applied, applied_parts, centre_action, centre_of, follow_spec, foreground_index, perform_post,
    window_op_post, windows_layout, workspace_layout, Action, DirectionOperation, Workspace,
};
use vstd::prelude::*;

verus! {

/// One physical monitor with its workspaces and settings.
#[derive(Clone, Debug)]
pub struct Display {
    pub hmonitor: isize,
    pub dimensions: Rect,
    pub workspaces: Vec<Workspace>,
    pub workspace_idx: usize,
    pub gaps: i32,
    pub padding: i32,
    pub resize_step: i32,
}

/// The monitor's work area with `padding` taken off every side.
pub open spec fn padded(d: Rect, padding: i32) -> Rect {
    Rect {
        x: wadd(d.x, padding),
        y: wadd(d.y, padding),
        width: wsub(d.width, wdouble(padding)),
        height: wsub(d.height, wdouble(padding)),
    }
}

/// Whether the resize of `edge` is structurally possible for position
/// `idx` of `len` windows.
pub open spec fn can_resize(layout: Layout, edge: ResizeEdge, len: int, idx: int) -> bool {
    match layout {
        Layout::BSPV => match edge {
            ResizeEdge::Left => len > 2 && idx != 0 && idx != 1,
            ResizeEdge::Top => len > 1 && idx != 0,
            ResizeEdge::Right => len > 2 && idx != len - 1 && idx % 2 != 0,
            ResizeEdge::Bottom => len > 1 && idx % 2 == 0 && idx != len - 1,
        },
        Layout::BSPH => match edge {
            ResizeEdge::Left => len > 0 && idx != 0,
            ResizeEdge::Top => len > 2 && idx != 0 && idx != 1,
            ResizeEdge::Right => len > 1 && idx % 2 == 0 && idx != len - 1,
            ResizeEdge::Bottom => len > 2 && idx != len - 1 && idx % 2 != 0,
        },
        _ => false,
    }
}

pub open spec fn abs(v: int) -> int {
    if v < 0 {
        -v
    } else {
        v
    }
}

/// Whether an override component stays under the clamp for a nominal
/// size: `|v| < nominal / 1.005`.
pub open spec fn within_clamp(v: int, nominal: i32) -> bool {
    1005 * abs(v) < 1000 * nominal
}

/// The candidate value of the override component that `edge` moves.
pub open spec fn candidate(r: Rect, edge: ResizeEdge, sizing: Sizing, step: i32) -> int {
    let s: int = if sizing == Sizing::Increase { step as int } else { -step };
    match edge {
        ResizeEdge::Left => r.x - s,
        ResizeEdge::Top => r.y - s,
        ResizeEdge::Right => r.width + s,
        ResizeEdge::Bottom => r.height + s,
    }
}

/// The nominal size that bounds the component `edge` moves.
pub open spec fn nominal_size(nominal: Rect, edge: ResizeEdge) -> i32 {
    match edge {
        ResizeEdge::Left | ResizeEdge::Right => nominal.width,
        ResizeEdge::Top | ResizeEdge::Bottom => nominal.height,
    }
}

/// One resize step on override `r`: applied when the moved component
/// stays under the clamp for its nominal size, ignored otherwise.
pub open spec fn clamped(r: Rect, edge: ResizeEdge, sizing: Sizing, step: i32, nominal: Rect) -> Rect {
    let v = candidate(r, edge, sizing, step);
    if within_clamp(v, nominal_size(nominal, edge)) {
        match edge {
            ResizeEdge::Left => Rect { x: v as i32, ..r },
            ResizeEdge::Top => Rect { y: v as i32, ..r },
            ResizeEdge::Right => Rect { width: v as i32, ..r },
            ResizeEdge::Bottom => Rect { height: v as i32, ..r },
        }
    } else {
        r
    }
}

/// Applies one resize step to override `r` of a window whose balanced
/// rectangle is `nominal`.
pub fn clamp_resize(r: Rect, edge: ResizeEdge, sizing: Sizing, step: i32, nominal: Rect) -> (out: Rect)
    ensures
        out == clamped(r, edge, sizing, step, nominal),
{
    let s: i64 = match sizing {
        Sizing::Increase => step as i64,
        Sizing::Decrease => -(step as i64),
    };
    let (v, n): (i64, i32) = match edge {
        ResizeEdge::Left => (r.x as i64 - s, nominal.width),
        ResizeEdge::Top => (r.y as i64 - s, nominal.height),
        ResizeEdge::Right => (r.width as i64 + s, nominal.width),
        ResizeEdge::Bottom => (r.height as i64 + s, nominal.height),
    };
    let a: i64 = if v < 0 {
        -v
    } else {
        v
    };
    if 1005 * a < 1000 * (n as i64) {
        let w = v as i32;
        match edge {
            ResizeEdge::Left => Rect { x: w, ..r },
            ResizeEdge::Top => Rect { y: w, ..r },
            ResizeEdge::Right => Rect { width: w, ..r },
            ResizeEdge::Bottom => Rect { height: w, ..r },
        }
    } else {
        r
    }
}

impl Display {
    /// A display with one empty workspace, the default gap size of 5 and
    /// resize step of 50.
    pub fn new(hmonitor: isize, dimensions: Rect, padding: i32) -> (r: Self)
        ensures
            r.wf(),
            r.hmonitor == hmonitor,
            r.dimensions == dimensions,
            r.padding == padding,
            r.gaps == 5,
            r.resize_step == 50,
            r.workspace_idx == 0,
            r.workspaces@.len() == 1,
            r.workspaces@[0].windows@.len() == 0,
            r.workspaces@[0].layout == Layout::BSPV,
    {
        let mut workspaces: Vec<Workspace> = Vec::new();
        workspaces.push(Workspace::new(Layout::BSPV));
        Display { hmonitor, dimensions, workspaces, workspace_idx: 0, gaps: 5, padding, resize_step: 50 }
    }

    pub open spec fn wf(self) -> bool {
        self.workspace_idx < self.workspaces@.len()
    }

    /// The current workspace.
    pub open spec fn cur(self) -> Workspace {
        self.workspaces@[self.workspace_idx as int]
    }

    /// Only the current workspace changed.
    pub open spec fn only_current_changed(self, after: Display) -> bool {
        &&& after.workspaces@ == self.workspaces@.update(self.workspace_idx as int, after.cur())
        &&& after.hmonitor == self.hmonitor
        &&& after.dimensions == self.dimensions
        &&& after.workspace_idx == self.workspace_idx
        &&& after.gaps == self.gaps
        &&& after.padding == self.padding
        &&& after.resize_step == self.resize_step
    }

    /// The usable area: the work area minus padding.
    pub open spec fn area(self) -> Rect {
        padded(self.dimensions, self.padding)
    }

    pub fn get_dimensions(&self) -> (r: Rect)
        ensures
            r == self.area(),
    {
        let p = self.padding;
        let d = self.dimensions;
        Rect {
            x: d.x.wrapping_add(p),
            y: d.y.wrapping_add(p),
            width: d.width.wrapping_sub(p.wrapping_add(p)),
            height: d.height.wrapping_sub(p.wrapping_add(p)),
        }
    }

    pub fn get_foreground_window_index(&self) -> (r: usize)
        requires
            self.wf(),
        ensures
            r == foreground_index(self.cur()),
            self.cur().windows@.len() > 0 ==> r < self.cur().windows@.len(),
    {
        self.workspaces[self.workspace_idx].get_foreground_window_index()
    }

    pub fn calculate_layout(&mut self, floated: &Vec<isize>)
        requires
            old(self).wf(),
        ensures
            final(self).wf(),
            old(self).only_current_changed(*final(self)),
            final(self).cur().layout_dimensions@ == workspace_layout(old(self).cur(), old(self).area(), old(self).gaps, floated@),
            final(self).cur().windows == old(self).cur().windows,
            final(self).cur().layout == old(self).cur().layout,
            final(self).cur().foreground_window == old(self).cur().foreground_window,
    {
        let area = self.get_dimensions();
        let gaps = self.gaps;
        let i = self.workspace_idx;
        self.workspaces[i].calculate_layout(area, gaps, floated);
    }

    pub fn apply_layout(&self, new_focus: Option<usize>, floated: &Vec<isize>) -> (r: Vec<Action>)
        requires
            self.wf(),
        ensures
            r@ == applied(self.cur(), new_focus, floated@),
    {
        self.workspaces[self.workspace_idx].apply_layout(new_focus, floated)
    }

    pub fn follow_focus_with_mouse(&self, idx: usize) -> (r: Vec<Action>)
        requires
            self.wf(),
        ensures
            r@ == follow_spec(self.cur(), idx as int),
    {
        self.workspaces[self.workspace_idx].follow_focus_with_mouse(idx)
    }
}


/// The orientation bit of a BSP layout.
pub open spec fn orientation(layout: Layout) -> nat {
    if layout == Layout::BSPV {
        1
    } else {
        0
    }
}

/// The windows after one resize step of `edge` on the window at `idx`;
/// its balanced rectangle bounds the step.
pub open spec fn resized_windows(
    windows: Seq<Window>,
    idx: int,
    layout: Layout,
    area: Rect,
    gaps: i32,
    edge: ResizeEdge,
    sizing: Sizing,
    step: i32,
) -> Seq<Window> {
    if can_resize(layout, edge, windows.len() as int, idx) {
        let nominal = bsp_spec(0, windows.len(), area, orientation(layout), gaps, Seq::empty())[idx];
        let base = match windows[idx].resize {
            Some(r) => r,
            None => Rect { x: 0, y: 0, width: 0, height: 0 },
        };
        windows.update(idx, Window { resize: Some(clamped(base, edge, sizing, step, nominal)), ..windows[idx] })
    } else {
        windows
    }
}

fn can_resize_at(layout: Layout, edge: ResizeEdge, len: usize, idx: usize) -> (r: bool)
    ensures
        r == can_resize(layout, edge, len as int, idx as int),
{
    match layout {
        Layout::BSPV => match edge {
            ResizeEdge::Left => len > 2 && idx != 0 && idx != 1,
            ResizeEdge::Top => len > 1 && idx != 0,
            ResizeEdge::Right => len > 2 && idx != len - 1 && idx % 2 != 0,
            ResizeEdge::Bottom => len > 1 && idx % 2 == 0 && idx != len - 1,
        },
        Layout::BSPH => match edge {
            ResizeEdge::Left => len > 0 && idx != 0,
            ResizeEdge::Top => len > 2 && idx != 0 && idx != 1,
            ResizeEdge::Right => len > 1 && idx % 2 == 0 && idx != len - 1,
            ResizeEdge::Bottom => len > 2 && idx != len - 1 && idx % 2 != 0,
        },
        _ => false,
    }
}

/// The windows of workspace `k` of a display; none when it does not
/// exist yet.
pub open spec fn windows_of(d: Display, k: int) -> Seq<Window> {
    if 0 <= k < d.workspaces@.len() {
        d.workspaces@[k].windows@
    } else {
        Seq::empty()
    }
}

/// Hiding every window of a list.
pub open spec fn hide_all(ws: Seq<Window>) -> Seq<Action> {
    ws.map_values(|w: Window| Action::Hide { hwnd: w.hwnd })
}

/// Showing every window of a list.
pub open spec fn show_all(ws: Seq<Window>) -> Seq<Action> {
    ws.map_values(|w: Window| Action::Show { hwnd: w.hwnd })
}

/// The position a cyclic step from display `from` lands on among `len`.
pub open spec fn cycled_index(from: int, len: int, direction: CycleDirection) -> int {
    match direction {
        CycleDirection::Previous => if from == 0 { len - 1 } else { from - 1 },
        CycleDirection::Next => if from == len - 1 { 0 } else { from + 1 },
    }
}

/// The actions that focus display `d`: its first window, or a click in
/// its centre when it has none.
pub open spec fn focus_display_actions(d: Display) -> Seq<Action> {
    if d.cur().windows@.len() > 0 {
        seq![Action::SetForeground { hwnd: d.cur().windows@[0].hwnd }] + follow_spec(d.cur(), 0)
    } else {
        seq![centre_action(d.area()), Action::Click]
    }
}

impl Display {
    /// Moves one edge of the foreground window by `step` (the display's
    /// resize step when none is given), within the clamp of its balanced
    /// rectangle. BSP layouts only, and only where that edge has a
    /// neighbour.
    pub fn resize_window(&mut self, edge: ResizeEdge, sizing: Sizing, step: Option<i32>)
        requires
            old(self).wf(),
        ensures
            final(self).wf(),
            old(self).only_current_changed(*final(self)),
            final(self).cur().layout == old(self).cur().layout,
            final(self).cur().layout_dimensions == old(self).cur().layout_dimensions,
            final(self).cur().foreground_window == old(self).cur().foreground_window,
            final(self).cur().windows@ == resized_windows(
                old(self).cur().windows@,
                foreground_index(old(self).cur()),
                old(self).cur().layout,
                old(self).area(),
                old(self).gaps,
                edge,
                sizing,
                match step {
                    Some(s) => s,
                    None => old(self).resize_step,
                },
            ),
    {
        let resize_step = match step {
            Some(s) => s,
            None => self.resize_step,
        };
        let idx = self.get_foreground_window_index();
        self.resize_at(idx, edge, sizing, resize_step);
    }

    /// One resize step of `edge` on the window at `idx` of the current
    /// workspace.
    pub fn resize_at(&mut self, idx: usize, edge: ResizeEdge, sizing: Sizing, step: i32)
        requires
            old(self).wf(),
            old(self).cur().windows@.len() > 0 ==> idx < old(self).cur().windows@.len(),
        ensures
            final(self).wf(),
            old(self).only_current_changed(*final(self)),
            final(self).cur().layout == old(self).cur().layout,
            final(self).cur().layout_dimensions == old(self).cur().layout_dimensions,
            final(self).cur().foreground_window == old(self).cur().foreground_window,
            final(self).cur().windows@ == resized_windows(
                old(self).cur().windows@,
                idx as int,
                old(self).cur().layout,
                old(self).area(),
                old(self).gaps,
                edge,
                sizing,
                step,
            ),
    {
        let i = self.workspace_idx;
        let len = self.workspaces[i].windows.len();
        let layout = self.workspaces[i].layout;
        if can_resize_at(layout, edge, len, idx) {
            let vertical: usize = if layout == Layout::BSPV {
                1
            } else {
                0
            };
            let none: Vec<Option<Rect>> = Vec::new();
            let all = bsp(0, len, self.get_dimensions(), vertical, self.gaps, &none);
            proof {
                lemma_bsp_len(0, len as nat, self.area(), vertical as nat, self.gaps, none@);
                assert(none@ =~= Seq::<Option<Rect>>::empty());
            }
            let nominal = all[idx];
            let w = self.workspaces[i].windows[idx];
            let base = match w.resize {
                Some(r) => r,
                None => Rect::zero(),
            };
            let nr = clamp_resize(base, edge, sizing, step, nominal);
            self.workspaces[i].windows.set(idx, Window { resize: Some(nr), ..w });
        }
        proof {
            assert(self.workspaces@ =~= old(self).workspaces@.update(old(self).workspace_idx as int, self.cur()));
        }
    }

    /// A directional focus or move on the current workspace.
    pub fn window_op(&mut self, op: DirectionOperation, direction: OperationDirection, floated: &Vec<isize>) -> (r: Vec<Action>)
        requires
            old(self).wf(),
        ensures
            final(self).wf(),
            old(self).only_current_changed(*final(self)),
            window_op_post(old(self).cur(), final(self).cur(), op, direction, old(self).area(), old(self).gaps, floated@, r@),
    {
        let area = self.get_dimensions();
        let gaps = self.gaps;
        let i = self.workspace_idx;
        self.workspaces[i].window_op(op, direction, area, gaps, floated)
    }

    pub fn window_op_up(&mut self, op: DirectionOperation, floated: &Vec<isize>) -> (r: Vec<Action>)
        requires
            old(self).wf(),
        ensures
            final(self).wf(),
            old(self).only_current_changed(*final(self)),
            window_op_post(old(self).cur(), final(self).cur(), op, OperationDirection::Up, old(self).area(), old(self).gaps, floated@, r@),
    {
        self.window_op(op, OperationDirection::Up, floated)
    }

    pub fn window_op_down(&mut self, op: DirectionOperation, floated: &Vec<isize>) -> (r: Vec<Action>)
        requires
            old(self).wf(),
        ensures
            final(self).wf(),
            old(self).only_current_changed(*final(self)),
            window_op_post(old(self).cur(), final(self).cur(), op, OperationDirection::Down, old(self).area(), old(self).gaps, floated@, r@),
    {
        self.window_op(op, OperationDirection::Down, floated)
    }

    pub fn window_op_left(&mut self, op: DirectionOperation, floated: &Vec<isize>) -> (r: Vec<Action>)
        requires
            old(self).wf(),
        ensures
            final(self).wf(),
            old(self).only_current_changed(*final(self)),
            window_op_post(old(self).cur(), final(self).cur(), op, OperationDirection::Left, old(self).area(), old(self).gaps, floated@, r@),
    {
        self.window_op(op, OperationDirection::Left, floated)
    }

    pub fn window_op_right(&mut self, op: DirectionOperation, floated: &Vec<isize>) -> (r: Vec<Action>)
        requires
            old(self).wf(),
        ensures
            final(self).wf(),
            old(self).only_current_changed(*final(self)),
            window_op_post(old(self).cur(), final(self).cur(), op, OperationDirection::Right, old(self).area(), old(self).gaps, floated@, r@),
    {
        self.window_op(op, OperationDirection::Right, floated)
    }

    pub fn window_op_next(&mut self, op: DirectionOperation, floated: &Vec<isize>) -> (r: Vec<Action>)
        requires
            old(self).wf(),
        ensures
            final(self).wf(),
            old(self).only_current_changed(*final(self)),
            window_op_post(old(self).cur(), final(self).cur(), op, OperationDirection::Next, old(self).area(), old(self).gaps, floated@, r@),
    {
        self.window_op(op, OperationDirection::Next, floated)
    }

    pub fn window_op_previous(&mut self, op: DirectionOperation, floated: &Vec<isize>) -> (r: Vec<Action>)
        requires
            old(self).wf(),
        ensures
            final(self).wf(),
            old(self).only_current_changed(*final(self)),
            window_op_post(old(self).cur(), final(self).cur(), op, OperationDirection::Previous, old(self).area(), old(self).gaps, floated@, r@),
    {
        self.window_op(op, OperationDirection::Previous, floated)
    }

    /// Takes the window at `idx` off the current workspace and re-tiles
    /// what is left.
    pub fn take_window(&mut self, idx: usize, floated: &Vec<isize>) -> (r: (Window, Vec<Action>))
        requires
            old(self).wf(),
            idx < old(self).cur().windows@.len(),
        ensures
            final(self).wf(),
            old(self).only_current_changed(*final(self)),
            r.0 == old(self).cur().windows@[idx as int],
            final(self).cur().windows@ == old(self).cur().windows@.remove(idx as int),
            final(self).cur().layout == old(self).cur().layout,
            final(self).cur().foreground_window == old(self).cur().foreground_window,
            final(self).cur().layout_dimensions@ == workspace_layout(final(self).cur(), old(self).area(), old(self).gaps, floated@),
            r.1@ == applied(final(self).cur(), None, floated@),
    {
        let i = self.workspace_idx;
        let w = self.workspaces[i].windows.remove(idx);
        self.calculate_layout(floated);
        let actions = self.apply_layout(None, floated);
        proof {
            assert(self.workspaces@ =~= old(self).workspaces@.update(old(self).workspace_idx as int, self.cur()));
        }
        (w, actions)
    }

    /// Puts a window first on the current workspace, re-tiles, keeps it in
    /// place as the focus, and moves the cursor to its centre.
    pub fn receive_window(&mut self, w: Window, floated: &Vec<isize>) -> (r: Vec<Action>)
        requires
            old(self).wf(),
        ensures
            final(self).wf(),
            old(self).only_current_changed(*final(self)),
            final(self).cur().windows@ == old(self).cur().windows@.insert(0, w),
            final(self).cur().layout == old(self).cur().layout,
            final(self).cur().foreground_window == old(self).cur().foreground_window,
            final(self).cur().layout_dimensions@ == workspace_layout(final(self).cur(), old(self).area(), old(self).gaps, floated@),
            r@ == applied(final(self).cur(), Some(0), floated@) + follow_spec(final(self).cur(), 0),
    {
        let i = self.workspace_idx;
        self.workspaces[i].windows.insert(0, w);
        self.calculate_layout(floated);
        proof {
            assert(self.workspaces@ =~= old(self).workspaces@.update(old(self).workspace_idx as int, self.cur()));
        }
        let mut out = self.apply_layout(Some(0), floated);
        let ghost tiles = out@;
        let mut follow = self.follow_focus_with_mouse(0);
        out.append(&mut follow);
        proof {
            assert(out@ =~= tiles + follow_spec(self.cur(), 0));
        }
        out
    }

    /// Switches to workspace `idx`, creating workspaces up to it as
    /// needed; the windows of the workspace left are hidden and those of
    /// the new one shown and tiled.
    pub fn set_workspace(&mut self, idx: usize, floated: &Vec<isize>) -> (r: Vec<Action>)
        requires
            old(self).wf(),
        ensures
            final(self).wf(),
            final(self).workspace_idx == idx,
            final(self).workspaces@.len() == if idx < old(self).workspaces@.len() {
                old(self).workspaces@.len() as int
            } else {
                idx + 1
            },
            forall|k: int| 0 <= k < old(self).workspaces@.len() && k != idx ==> final(self).workspaces@[k] == old(self).workspaces@[k],
            idx < old(self).workspaces@.len() ==> final(self).cur().windows == old(self).workspaces@[idx as int].windows,
            final(self).cur().windows@ == windows_of(*old(self), idx as int),
            idx < old(self).workspaces@.len() ==> final(self).cur().layout == old(self).workspaces@[idx as int].layout,
            idx >= old(self).workspaces@.len() ==> final(self).cur().windows@.len() == 0,
            final(self).cur().layout_dimensions@ == workspace_layout(final(self).cur(), old(self).area(), old(self).gaps, floated@),
            final(self).hmonitor == old(self).hmonitor,
            final(self).dimensions == old(self).dimensions,
            final(self).gaps == old(self).gaps,
            final(self).padding == old(self).padding,
            final(self).resize_step == old(self).resize_step,
            r@ == if idx == old(self).workspace_idx {
                applied(final(self).cur(), None, floated@)
            } else {
                hide_all(old(self).cur().windows@) + show_all(final(self).cur().windows@) + applied(
                    final(self).cur(),
                    None,
                    floated@,
                )
            },
    {
        let mut out: Vec<Action> = Vec::new();
        if idx == self.workspace_idx {
            self.calculate_layout(floated);
            return self.apply_layout(None, floated);
        }
        let from = self.workspace_idx;
        let ghost leaving = self.cur().windows@;
        let mut k: usize = 0;
        while k < self.workspaces[from].windows.len()
            invariant
                self.wf(),
                *self == *old(self),
                from == self.workspace_idx,
                leaving == self.cur().windows@,
                k <= leaving.len(),
                out@ == hide_all(leaving.take(k as int)),
            decreases leaving.len() - k,
        {
            out.push(Action::Hide { hwnd: self.workspaces[from].windows[k].hwnd });
            k = k + 1;
            proof {
                assert(out@ =~= hide_all(leaving.take(k as int)));
            }
        }
        proof {
            assert(leaving.take(k as int) =~= leaving);
        }
        let ghost before = self.workspaces@;
        while self.workspaces.len() <= idx
            invariant
                self.workspaces@.len() >= before.len(),
                forall|j: int| 0 <= j < before.len() ==> self.workspaces@[j] == before[j],
                forall|j: int| before.len() <= j < self.workspaces@.len() ==> self.workspaces@[j].windows@.len() == 0,
                self.workspaces@.len() <= (if idx < before.len() { before.len() as int } else { idx + 1 }),
                self.hmonitor == old(self).hmonitor,
                self.dimensions == old(self).dimensions,
                self.gaps == old(self).gaps,
                self.padding == old(self).padding,
                self.resize_step == old(self).resize_step,
            decreases idx + 1 - self.workspaces@.len(),
        {
            self.workspaces.push(Workspace::new(Layout::BSPV));
        }
        self.workspace_idx = idx;
        let ghost arriving = self.cur().windows@;
        let ghost hidden = out@;
        let mut k: usize = 0;
        while k < self.workspaces[idx].windows.len()
            invariant
                self.wf(),
                idx == self.workspace_idx,
                arriving == self.cur().windows@,
                k <= arriving.len(),
                out@ == hidden + show_all(arriving.take(k as int)),
            decreases arriving.len() - k,
        {
            out.push(Action::Show { hwnd: self.workspaces[idx].windows[k].hwnd });
            k = k + 1;
            proof {
                assert(out@ =~= hidden + show_all(arriving.take(k as int)));
            }
        }
        proof {
            assert(arriving.take(k as int) =~= arriving);
        }
        self.calculate_layout(floated);
        let mut tiles = self.apply_layout(None, floated);
        out.append(&mut tiles);
        out
    }

    /// Moves the window at `idx` of the current workspace to the front of
    /// workspace `target`, hiding it, and re-tiles what is left.
    pub fn move_window_to_workspace(&mut self, target: usize, idx: usize, floated: &Vec<isize>) -> (r: Vec<Action>)
        requires
            old(self).wf(),
        ensures
            final(self).wf(),
            final(self).workspace_idx == old(self).workspace_idx,
            final(self).hmonitor == old(self).hmonitor,
            final(self).dimensions == old(self).dimensions,
            final(self).gaps == old(self).gaps,
            final(self).padding == old(self).padding,
            final(self).resize_step == old(self).resize_step,
            target == old(self).workspace_idx || idx >= old(self).cur().windows@.len() ==> *final(self) == *old(self) && r@.len() == 0,
            target != old(self).workspace_idx && idx < old(self).cur().windows@.len() ==> {
                &&& final(self).cur().windows@ == old(self).cur().windows@.remove(idx as int)
                &&& final(self).cur().layout == old(self).cur().layout
                &&& final(self).workspaces@.len() == if target < old(self).workspaces@.len() {
                    old(self).workspaces@.len() as int
                } else {
                    target + 1
                }
                &&& final(self).workspaces@[target as int].windows@ == windows_of(*old(self), target as int).insert(
                    0,
                    old(self).cur().windows@[idx as int],
                )
                &&& forall|k: int|
                    0 <= k < old(self).workspaces@.len() && k != target && k != old(self).workspace_idx
                        ==> final(self).workspaces@[k] == old(self).workspaces@[k]
                &&& forall|k: int|
                    old(self).workspaces@.len() <= k < final(self).workspaces@.len() && k != target
                        ==> final(self).workspaces@[k].windows@.len() == 0
                &&& final(self).cur().layout_dimensions@ == workspace_layout(final(self).cur(), old(self).area(), old(self).gaps, floated@)
                &&& r@ == seq![Action::Hide { hwnd: old(self).cur().windows@[idx as int].hwnd }] + applied(final(self).cur(), None, floated@)
            },
    {
        let from = self.workspace_idx;
        if target == from || idx >= self.workspaces[from].windows.len() {
            return Vec::new();
        }
        while self.workspaces.len() <= target
            invariant
                self.wf(),
                from == self.workspace_idx,
                idx < self.workspaces@[from as int].windows@.len(),
                self.workspaces@[from as int] == old(self).workspaces@[from as int],
                self.workspaces@.len() >= old(self).workspaces@.len(),
                self.workspaces@.len() <= (if target < old(self).workspaces@.len() { old(self).workspaces@.len() as int } else { target + 1 }),
                forall|j: int| 0 <= j < old(self).workspaces@.len() ==> self.workspaces@[j] == old(self).workspaces@[j],
                forall|j: int| old(self).workspaces@.len() <= j < self.workspaces@.len() ==> self.workspaces@[j].windows@.len() == 0,
                self.dimensions == old(self).dimensions,
                self.padding == old(self).padding,
                self.gaps == old(self).gaps,
                self.hmonitor == old(self).hmonitor,
                self.resize_step == old(self).resize_step,
            decreases target + 1 - self.workspaces@.len(),
        {
            self.workspaces.push(Workspace::new(Layout::BSPV));
        }
        let ghost grown = self.workspaces@;
        let w = self.workspaces[from].windows.remove(idx);
        self.workspaces[target].windows.insert(0, w);
        proof {
            assert(grown[target as int].windows@ =~= windows_of(*old(self), target as int));
        }
        let mut out: Vec<Action> = Vec::new();
        out.push(Action::Hide { hwnd: w.hwnd });
        self.calculate_layout(floated);
        let mut tiles = self.apply_layout(None, floated);
        let ghost applied_part = tiles@;
        out.append(&mut tiles);
        proof {
            assert(out@ =~= seq![Action::Hide { hwnd: w.hwnd }] + applied_part);
        }
        out
    }
}

impl DirectionOperation {
    /// Focuses window `new_idx` of the display's current workspace, or
    /// exchanges it with window `idx`.
    pub fn handle(self, display: &mut Display, idx: usize, new_idx: usize, floated: &Vec<isize>) -> (r: Vec<Action>)
        requires
            old(display).wf(),
            idx < old(display).cur().windows@.len(),
            new_idx < old(display).cur().windows@.len(),
        ensures
            final(display).wf(),
            old(display).only_current_changed(*final(display)),
            perform_post(old(display).cur(), final(display).cur(), self, idx as int, new_idx as int, old(display).area(), old(display).gaps, floated@, r@),
    {
        let area = display.get_dimensions();
        let gaps = display.gaps;
        let i = display.workspace_idx;
        display.workspaces[i].perform(self, idx, new_idx, area, gaps, floated)
    }
}

/// The actions of moving window `idx` from display `from` to display
/// `to`: re-tiling what is left on `from`, then tiling `to` with the
/// newcomer first and in focus, and moving the cursor to its centre.
pub open spec fn transfer_actions(before: Seq<Display>, after: Seq<Display>, idx: int, from: int, to: int, floated: Seq<isize>) -> Seq<Action> {
    let src = before[from];
    let rest = src.cur().windows@.remove(idx);
    let layout = src.cur().layout;
    applied_parts(rest, layout, windows_layout(rest, layout, src.area(), src.gaps, floated), None, floated) + applied(
        after[to].cur(),
        Some(0),
        floated,
    ) + follow_spec(after[to].cur(), 0)
}

/// The root aggregate: the displays in their fixed order, the pause
/// flag, the float rules, and the layout to restore after monocle.
#[derive(Clone, Debug)]
pub struct Desktop {
    pub displays: Vec<Display>,
    pub paused: bool,
    pub rules: FloatRules,
    pub last_layout: Layout,
}

/// The index of the display on monitor `m`, or 0 when none is.
pub open spec fn display_index(ds: Seq<Display>, m: isize) -> int {
    if exists|i: int| 0 <= i < ds.len() && ds[i].hmonitor == m && forall|k: int| 0 <= k < i ==> ds[k].hmonitor != m {
        choose|i: int| 0 <= i < ds.len() && ds[i].hmonitor == m && forall|k: int| 0 <= k < i ==> ds[k].hmonitor != m
    } else {
        0
    }
}

impl Desktop {
    pub open spec fn wf(self) -> bool {
        &&& self.displays@.len() > 0
        &&& forall|i: int| 0 <= i < self.displays@.len() ==> #[trigger] self.displays@[i].wf()
    }

    /// A desktop over the given displays, unpaused, with no float rules.
    pub fn new(displays: Vec<Display>) -> (r: Self)
        requires
            displays@.len() > 0,
            forall|i: int| 0 <= i < displays@.len() ==> #[trigger] displays@[i].wf(),
        ensures
            r.wf(),
            r.displays == displays,
            !r.paused,
            r.last_layout == Layout::BSPV,
            r.rules.classes@.len() == 0,
            r.rules.exes@.len() == 0,
            r.rules.titles@.len() == 0,
    {
        Desktop { displays, paused: false, rules: FloatRules::new(), last_layout: Layout::BSPV }
    }

    /// The display on monitor `active_monitor`, or the first one.
    pub fn get_active_display_idx(&self, active_monitor: isize) -> (r: usize)
        requires
            self.wf(),
        ensures
            r == display_index(self.displays@, active_monitor),
            r < self.displays@.len(),
    {
        let mut i: usize = 0;
        while i < self.displays.len()
            invariant
                i <= self.displays@.len(),
                forall|k: int| 0 <= k < i ==> self.displays@[k].hmonitor != active_monitor,
            decreases self.displays@.len() - i,
        {
            if self.displays[i].hmonitor == active_monitor {
                proof {
                    let ds = self.displays@;
                    let m = active_monitor;
                    let j = choose|j: int| 0 <= j < ds.len() && ds[j].hmonitor == m && forall|k: int| 0 <= k < j ==> ds[k].hmonitor != m;
                    assert(j == i as int) by {
                        if j < i as int {
                            assert(ds[j].hmonitor != m);
                        } else if j > i as int {
                            assert(ds[i as int].hmonitor != m);
                        }
                    }
                }
                return i;
            }
            i = i + 1;
        }
        0
    }

    fn focus_target(&self, to: usize) -> (r: Vec<Action>)
        requires
            self.wf(),
            to < self.displays@.len(),
        ensures
            r@ == focus_display_actions(self.displays@[to as int]),
    {
        assert(self.displays@[to as int].wf());
        let target = &self.displays[to];
        let ws = &target.workspaces[target.workspace_idx];
        let mut out: Vec<Action> = Vec::new();
        if ws.windows.len() > 0 {
            out.push(Action::SetForeground { hwnd: ws.windows[0].hwnd });
            let mut follow = target.follow_focus_with_mouse(0);
            out.append(&mut follow);
        } else {
            out.push(centre_of(target.get_dimensions()));
            out.push(Action::Click);
        }
        proof {
            assert(out@ =~= focus_display_actions(self.displays@[to as int]));
        }
        out
    }

    /// Focuses the previous or next display, cyclically.
    pub fn focus_display(&self, from: usize, direction: CycleDirection) -> (r: Vec<Action>)
        requires
            self.wf(),
            from < self.displays@.len(),
        ensures
            self.displays@.len() > 1 ==> r@ == focus_display_actions(
                self.displays@[cycled_index(from as int, self.displays@.len() as int, direction)],
            ),
            self.displays@.len() <= 1 ==> r@.len() == 0,
    {
        let len = self.displays.len();
        if len > 1 {
            let to = match direction {
                CycleDirection::Previous => if from == 0 { len - 1 } else { from - 1 },
                CycleDirection::Next => if from == len - 1 { 0 } else { from + 1 },
            };
            self.focus_target(to)
        } else {
            Vec::new()
        }
    }

    /// Focuses display number `to`, counting from 1.
    pub fn focus_display_number(&self, to: usize) -> (r: Vec<Action>)
        requires
            self.wf(),
        ensures
            1 <= to <= self.displays@.len() ==> r@ == focus_display_actions(self.displays@[to - 1]),
            !(1 <= to <= self.displays@.len()) ==> r@.len() == 0,
    {
        if to <= self.displays.len() && to > 0 {
            self.focus_target(to - 1)
        } else {
            Vec::new()
        }
    }

    /// Moves window `window_idx` of display `from` to the front of display
    /// `to`, re-tiling both.
    pub fn move_window_between(&mut self, window_idx: usize, from: usize, to: usize, floated: &Vec<isize>) -> (r: Vec<Action>)
        requires
            old(self).wf(),
            from < old(self).displays@.len(),
            to < old(self).displays@.len(),
            window_idx < old(self).displays@[from as int].cur().windows@.len(),
        ensures
            final(self).wf(),
            final(self).displays@.len() == old(self).displays@.len(),
            forall|k: int| 0 <= k < old(self).displays@.len() && k != from && k != to ==> final(self).displays@[k] == old(self).displays@[k],
            final(self).paused == old(self).paused,
            final(self).rules == old(self).rules,
            final(self).last_layout == old(self).last_layout,
            ({
                let w = old(self).displays@[from as int].cur().windows@[window_idx as int];
                let rest = old(self).displays@[from as int].cur().windows@.remove(window_idx as int);
                &&& from != to ==> final(self).displays@[from as int].cur().windows@ == rest
                &&& from != to ==> final(self).displays@[to as int].cur().windows@ == old(self).displays@[to as int].cur().windows@.insert(0, w)
                &&& from == to ==> final(self).displays@[to as int].cur().windows@ == rest.insert(0, w)
            }),
            r@ == transfer_actions(old(self).displays@, final(self).displays@, window_idx as int, from as int, to as int, floated@),
    {
        let ghost before = self.displays@;
        let (w, mut out) = self.displays[from].take_window(window_idx, floated);
        let ghost taken = out@;
        let mut more = self.displays[to].receive_window(w, floated);
        let ghost received = more@;
        out.append(&mut more);
        proof {
            let t = self.displays@[to as int].cur();
            assert(received == applied(t, Some(0), floated@) + follow_spec(t, 0));
            assert(out@ =~= taken + applied(t, Some(0), floated@) + follow_spec(t, 0));
        }
        proof {
            assert forall|i: int| 0 <= i < self.displays@.len() implies #[trigger] self.displays@[i].wf() by {
                if i != from as int && i != to as int {
                    assert(self.displays@[i] == before[i]);
                }
            }
        }
        out
    }

    /// Moves a window to the previous or next display, cyclically.
    pub fn move_window_to_display(&mut self, window_idx: usize, from: usize, direction: CycleDirection, floated: &Vec<isize>) -> (r: Vec<Action>)
        requires
            old(self).wf(),
            from < old(self).displays@.len(),
            window_idx < old(self).displays@[from as int].cur().windows@.len(),
        ensures
            final(self).wf(),
            final(self).displays@.len() == old(self).displays@.len(),
            forall|k: int| 0 <= k < old(self).displays@.len() && k != from && k != (cycled_index(from as int, old(self).displays@.len() as int, direction)) ==> final(self).displays@[k] == old(self).displays@[k],
            final(self).paused == old(self).paused,
            final(self).rules == old(self).rules,
            final(self).last_layout == old(self).last_layout,
            old(self).displays@.len() <= 1 ==> *final(self) == *old(self) && r@.len() == 0,
            old(self).displays@.len() > 1 ==> ({
                let to = cycled_index(from as int, old(self).displays@.len() as int, direction);
                let w = old(self).displays@[from as int].cur().windows@[window_idx as int];
                &&& final(self).displays@[from as int].cur().windows@ == old(self).displays@[from as int].cur().windows@.remove(window_idx as int)
                &&& final(self).displays@[to].cur().windows@ == old(self).displays@[to].cur().windows@.insert(0, w)
                &&& r@ == transfer_actions(old(self).displays@, final(self).displays@, window_idx as int, from as int, to, floated@)
            }),
    {
        let len = self.displays.len();
        if len > 1 {
            let to = match direction {
                CycleDirection::Previous => if from == 0 { len - 1 } else { from - 1 },
                CycleDirection::Next => if from == len - 1 { 0 } else { from + 1 },
            };
            self.move_window_between(window_idx, from, to, floated)
        } else {
            Vec::new()
        }
    }

    /// Moves a window to display number `to`, counting from 1.
    pub fn move_window_to_display_number(&mut self, window_idx: usize, from: usize, to: usize, floated: &Vec<isize>) -> (r: Vec<Action>)
        requires
            old(self).wf(),
            from < old(self).displays@.len(),
            window_idx < old(self).displays@[from as int].cur().windows@.len(),
        ensures
            final(self).wf(),
            final(self).displays@.len() == old(self).displays@.len(),
            forall|k: int| 0 <= k < old(self).displays@.len() && k != from && k != (to - 1) ==> final(self).displays@[k] == old(self).displays@[k],
            final(self).paused == old(self).paused,
            final(self).rules == old(self).rules,
            final(self).last_layout == old(self).last_layout,
            !(1 <= to <= old(self).displays@.len()) ==> *final(self) == *old(self) && r@.len() == 0,
            1 <= to <= old(self).displays@.len() && to - 1 != from ==> ({
                let w = old(self).displays@[from as int].cur().windows@[window_idx as int];
                &&& final(self).displays@[from as int].cur().windows@ == old(self).displays@[from as int].cur().windows@.remove(window_idx as int)
                &&& final(self).displays@[to - 1].cur().windows@ == old(self).displays@[to - 1].cur().windows@.insert(0, w)
            }),
            1 <= to <= old(self).displays@.len() ==> r@ == transfer_actions(old(self).displays@, final(self).displays@, window_idx as int, from as int, to - 1, floated@),
    {
        if to <= self.displays.len() && to > 0 {
            self.move_window_between(window_idx, from, to - 1, floated)
        } else {
            Vec::new()
        }
    }

    /// Recomputes every display's current layout.
    pub fn calculate_layouts(&mut self, floated: &Vec<isize>)
        requires
            old(self).wf(),
        ensures
            final(self).wf(),
            final(self).displays@.len() == old(self).displays@.len(),
            forall|i: int| 0 <= i < old(self).displays@.len() ==> {
                &&& old(self).displays@[i].only_current_changed(#[trigger] final(self).displays@[i])
                &&& final(self).displays@[i].cur().windows == old(self).displays@[i].cur().windows
                &&& final(self).displays@[i].cur().layout == old(self).displays@[i].cur().layout
                &&& final(self).displays@[i].cur().layout_dimensions@ == workspace_layout(old(self).displays@[i].cur(), old(self).displays@[i].area(), old(self).displays@[i].gaps, floated@)
            },
            final(self).paused == old(self).paused,
            final(self).rules == old(self).rules,
            final(self).last_layout == old(self).last_layout,
    {
        let mut i: usize = 0;
        while i < self.displays.len()
            invariant
                i <= self.displays@.len(),
                self.wf(),
                self.displays@.len() == old(self).displays@.len(),
                forall|k: int| i <= k < old(self).displays@.len() ==> self.displays@[k] == old(self).displays@[k],
                forall|k: int| 0 <= k < i ==> {
                    &&& old(self).displays@[k].only_current_changed(#[trigger] self.displays@[k])
                    &&& self.displays@[k].cur().windows == old(self).displays@[k].cur().windows
                    &&& self.displays@[k].cur().layout == old(self).displays@[k].cur().layout
                    &&& self.displays@[k].cur().layout_dimensions@ == workspace_layout(old(self).displays@[k].cur(), old(self).displays@[k].area(), old(self).displays@[k].gaps, floated@)
                },
                self.paused == old(self).paused,
                self.rules == old(self).rules,
                self.last_layout == old(self).last_layout,
            decreases self.displays@.len() - i,
        {
            let ghost before = self.displays@;
            self.displays[i].calculate_layout(floated);
            proof {
                assert forall|k: int| 0 <= k < self.displays@.len() implies #[trigger] self.displays@[k].wf() by {
                    if k != i as int {
                        assert(self.displays@[k] == before[k]);
                    }
                }
            }
            i = i + 1;
        }
    }

    /// Applies every display's current layout.
    pub fn apply_layouts(&self, new_focus: Option<usize>, floated: &Vec<isize>) -> (r: Vec<Action>)
        requires
            self.wf(),
        ensures
            r@ == applied_all(self.displays@, new_focus, floated@, self.displays@.len() as nat),
    {
        let mut out: Vec<Action> = Vec::new();
        let mut i: usize = 0;
        while i < self.displays.len()
            invariant
                i <= self.displays@.len(),
                self.wf(),
                out@ == applied_all(self.displays@, new_focus, floated@, i as nat),
            decreases self.displays@.len() - i,
        {
            let mut more = self.displays[i].apply_layout(new_focus, floated);
            out.append(&mut more);
            i = i + 1;
        }
        out
    }
}

/// The actions of applying the layouts of displays `0..k`.
pub open spec fn applied_all(ds: Seq<Display>, focus: Option<usize>, floated: Seq<isize>, k: nat) -> Seq<Action>
    decreases k,
{
    if k == 0 {
        Seq::empty()
    } else {
        applied_all(ds, focus, floated, (k - 1) as nat) + applied(ds[k - 1].cur(), focus, floated)
    }
}

/// Whether display `a` comes before display `b`: further right first,
/// then lower first.
pub open spec fn precedes(a: Display, b: Display) -> bool {
    a.dimensions.x > b.dimensions.x || (a.dimensions.x == b.dimensions.x && a.dimensions.y >= b.dimensions.y)
}

/// Displays in their cycling order.
pub open spec fn ordered(ds: Seq<Display>) -> bool {
    forall|i: int, j: int| 0 <= i < j < ds.len() ==> precedes(#[trigger] ds[i], #[trigger] ds[j])
}

/// Sorts displays by position.
pub fn order_displays(displays: Vec<Display>) -> (r: Vec<Display>)
    ensures
        ordered(r@),
        r@.to_multiset() == displays@.to_multiset(),
{
    broadcast use vstd::multiset::group_multiset_axioms;
    let ghost all = displays@.to_multiset();
    let mut rest = displays;
    let mut out: Vec<Display> = Vec::new();
    proof {
        assert(out@.to_multiset() =~= vstd::multiset::Multiset::<Display>::empty()) by {
            broadcast use vstd::seq_lib::group_to_multiset_ensures;
        }
    }
    while rest.len() > 0
        invariant
            ordered(out@),
            out@.to_multiset().add(rest@.to_multiset()) == all,
        decreases rest@.len(),
    {
        let ghost rest0 = rest@;
        let d = rest.remove(0);
        let mut p: usize = 0;
        while p < out.len() && !(d.dimensions.x > out[p].dimensions.x || (d.dimensions.x == out[p].dimensions.x
            && d.dimensions.y > out[p].dimensions.y))
            invariant
                p <= out@.len(),
                forall|k: int| 0 <= k < p ==> precedes(#[trigger] out@[k], d),
            decreases out@.len() - p,
        {
            p = p + 1;
        }
        let ghost out0 = out@;
        out.insert(p, d);
        proof {
            assert forall|a: int, b: int| 0 <= a < b < out@.len() implies precedes(#[trigger] out@[a], #[trigger] out@[b]) by {
                if b < p {
                    assert(out@[a] == out0[a] && out@[b] == out0[b]);
                } else if b == p {
                    assert(out@[a] == out0[a]);
                } else if a == p {
                    assert(out@[b] == out0[b - 1]);
                    assert(precedes(out0[p as int], out0[b - 1]) || b - 1 == p);
                } else if a < p {
                    assert(out@[a] == out0[a] && out@[b] == out0[b - 1]);
                } else {
                    assert(out@[a] == out0[a - 1] && out@[b] == out0[b - 1]);
                }
            }
            vstd::seq_lib::to_multiset_insert(out0, p as int, d);
            vstd::seq_lib::to_multiset_remove(rest0, 0);
            vstd::seq_lib::to_multiset_contains(rest0, d);
            assert(out@.to_multiset().add(rest@.to_multiset()) =~= all);
        }
    }
    proof {
        assert(rest@.to_multiset() =~= vstd::multiset::Multiset::<Display>::empty()) by {
            broadcast use vstd::seq_lib::group_to_multiset_ensures;
        }
        assert(out@.to_multiset() =~= all);
    }
    out
}

} // verus!
