//! The event state machine: how window lifecycle events change a
//! display's current workspace, and what the OS layer must do after.
use crate::desktop::{display_index, resized_windows, Desktop, Display};
use crate::protocol::{ResizeEdge, Sizing};
use crate::rect::{wdouble, wsub, Rect};
use crate::window::Window;
use crate::windows_event::{WindowsEvent, WindowsEventType};
use crate::workspace::{
    applied, first_position, foreground_index, inserted_after, position_of, previous_index,
    removed_at, swapped, workspace_layout, Action, Workspace, ZOrder,
};
use vstd::prelude::*;

verus! {

/// What the OS layer reads just before an event is handled.
#[derive(Clone, Debug)]
pub struct EventContext {
    /// The monitor under the cursor.
    pub active_monitor: isize,
    /// The cursor position.
    pub cursor_x: i32,
    pub cursor_y: i32,
    /// The rectangle the OS reports for the event's window.
    pub window_rect: Rect,
    /// The tracked windows that the float rules currently float.
    pub floated: Vec<isize>,
}

/// One edge adjustment derived from a drag.
#[derive(Clone, Copy, Debug, PartialEq, Eq, Structural)]
pub struct ResizeOp {
    pub edge: ResizeEdge,
    pub sizing: Sizing,
    pub step: i32,
}

/// Magnitude, wrapping at the most negative value.
pub open spec fn wabs(v: i32) -> i32 {
    if v < 0 {
        wsub(0, v)
    } else {
        v
    }
}

/// How far a window's reported rectangle is from its computed one.
pub open spec fn rect_delta(new: Rect, old: Rect) -> Rect {
    Rect {
        x: wsub(new.x, old.x),
        y: wsub(new.y, old.y),
        width: wsub(new.width, old.width),
        height: wsub(new.height, old.height),
    }
}

/// The edge adjustments a drag by `d` asks for: a shifted origin moves
/// the left or top edge, a changed size with an unmoved origin moves the
/// right or bottom edge; each by twice the change.
pub open spec fn resize_ops(d: Rect) -> Seq<ResizeOp> {
    let x = if d.x != 0 { wdouble(d.x) } else { 0 };
    let y = if d.y != 0 { wdouble(d.y) } else { 0 };
    let left = if d.x != 0 {
        seq![ResizeOp { edge: ResizeEdge::Left, sizing: if x > 0 { Sizing::Decrease } else { Sizing::Increase }, step: wabs(x) }]
    } else {
        Seq::empty()
    };
    let top = if d.y != 0 {
        seq![ResizeOp { edge: ResizeEdge::Top, sizing: if y > 0 { Sizing::Decrease } else { Sizing::Increase }, step: wabs(y) }]
    } else {
        Seq::empty()
    };
    let w = wdouble(d.width);
    let right = if d.width != 0 && x == 0 {
        seq![ResizeOp { edge: ResizeEdge::Right, sizing: if w > 0 { Sizing::Increase } else { Sizing::Decrease }, step: wabs(w) }]
    } else {
        Seq::empty()
    };
    let h = wdouble(d.height);
    let bottom = if d.height != 0 && y == 0 {
        seq![ResizeOp { edge: ResizeEdge::Bottom, sizing: if h > 0 { Sizing::Increase } else { Sizing::Decrease }, step: wabs(h) }]
    } else {
        Seq::empty()
    };
    left + top + right + bottom
}

fn abs_wrapping(v: i32) -> (r: i32)
    ensures
        r == wabs(v),
{
    if v < 0 {
        0i32.wrapping_sub(v)
    } else {
        v
    }
}

/// The edge adjustments a drag by `delta` asks for.
pub fn resize_operations(delta: Rect) -> (r: Vec<ResizeOp>)
    ensures
        r@ == resize_ops(delta),
{
    let mut out: Vec<ResizeOp> = Vec::new();
    let x = if delta.x != 0 { delta.x.wrapping_add(delta.x) } else { 0 };
    let y = if delta.y != 0 { delta.y.wrapping_add(delta.y) } else { 0 };
    if delta.x != 0 {
        out.push(ResizeOp { edge: ResizeEdge::Left, sizing: if x > 0 { Sizing::Decrease } else { Sizing::Increase }, step: abs_wrapping(x) });
    }
    if delta.y != 0 {
        out.push(ResizeOp { edge: ResizeEdge::Top, sizing: if y > 0 { Sizing::Decrease } else { Sizing::Increase }, step: abs_wrapping(y) });
    }
    if delta.width != 0 && x == 0 {
        let w = delta.width.wrapping_add(delta.width);
        out.push(ResizeOp { edge: ResizeEdge::Right, sizing: if w > 0 { Sizing::Increase } else { Sizing::Decrease }, step: abs_wrapping(w) });
    }
    if delta.height != 0 && y == 0 {
        let h = delta.height.wrapping_add(delta.height);
        out.push(ResizeOp { edge: ResizeEdge::Bottom, sizing: if h > 0 { Sizing::Increase } else { Sizing::Decrease }, step: abs_wrapping(h) });
    }
    proof {
        assert(out@ =~= resize_ops(delta));
    }
    out
}

/// The windows after the adjustments `ops[..k]` on the window at `idx`.
pub open spec fn resized_by(
    windows: Seq<Window>,
    idx: int,
    ws: Workspace,
    area: Rect,
    gaps: i32,
    ops: Seq<ResizeOp>,
    k: nat,
) -> Seq<Window>
    decreases k,
{
    if k == 0 {
        windows
    } else {
        let prev = resized_by(windows, idx, ws, area, gaps, ops, (k - 1) as nat);
        let op = ops[k - 1];
        resized_windows(prev, idx, ws.layout, area, gaps, op.edge, op.sizing, op.step)
    }
}

/// The last window other than `h` whose rectangle holds the cursor,
/// among the first `k`.
pub open spec fn drop_target(ws: Seq<Window>, dims: Seq<Rect>, h: isize, cx: i32, cy: i32, k: nat) -> Option<int>
    decreases k,
{
    if k == 0 {
        None
    } else {
        let i = k - 1;
        if i < ws.len() && i < dims.len() && ws[i].hwnd != h && dims[i].spec_contains_point(cx as int, cy as int) {
            Some(i as int)
        } else {
            drop_target(ws, dims, h, cx, cy, i as nat)
        }
    }
}

/// Whether any workspace of the display tracks handle `h`.
pub open spec fn display_tracks(d: Display, h: isize) -> bool {
    exists|k: int, j: int|
        0 <= k < d.workspaces@.len() && 0 <= j < d.workspaces@[k].windows@.len()
            && #[trigger] d.workspaces@[k].windows@[j].hwnd == h
}

/// The current workspace now holds `windows`, with its rectangles
/// recomputed, and nothing else changed.
pub open spec fn retiled_with(before: Display, after: Display, windows: Seq<Window>, floated: Seq<isize>) -> bool {
    &&& after.cur().windows@ == windows
    &&& after.cur().layout == before.cur().layout
    &&& after.cur().layout_dimensions@ == workspace_layout(after.cur(), before.area(), before.gaps, floated)
}

/// What an event does to the display it lands on, and what the OS layer
/// must then do.
pub open spec fn event_post(before: Display, after: Display, ev: WindowsEvent, ctx: EventContext, r: Seq<Action>) -> bool {
    let ws = before.cur();
    let dims = ws.layout_dimensions@;
    let fl = ctx.floated@;
    let h = ev.window.hwnd;
    let pos = match first_position(ws.windows@, h) {
        Some(i) => i,
        None => 0,
    };
    &&& after.wf()
    &&& before.only_current_changed(after)
    &&& match ev.event_type {
        WindowsEventType::MoveResizeStart => after == before && r == if pos < dims.len() {
            seq![Action::SetPosition { hwnd: h, rect: dims[pos], z: ZOrder::Keep, keep_geometry: false }]
        } else {
            Seq::empty()
        },
        WindowsEventType::MoveResizeEnd => if pos < ws.windows@.len() && pos < dims.len() {
            let delta = rect_delta(ctx.window_rect, dims[pos]);
            if delta.width == 0 && delta.height == 0 {
                &&& retiled_with(before, after, match drop_target(ws.windows@, dims, h, ctx.cursor_x, ctx.cursor_y, ws.windows@.len()) {
                    Some(t) => swapped(ws.windows@, pos, t),
                    None => ws.windows@,
                }, fl)
                &&& after.cur().foreground_window == ws.foreground_window
                &&& r == applied(after.cur(), None, fl)
            } else {
                let ops = resize_ops(delta);
                &&& retiled_with(before, after, resized_by(ws.windows@, foreground_index(ws), ws, before.area(), before.gaps, ops, ops.len()), fl)
                &&& after.cur().foreground_window == ws.foreground_window
                &&& r == applied(after.cur(), None, fl)
            }
        } else {
            after == before && r.len() == 0
        },
        WindowsEventType::Show => if !display_tracks(before, h) {
            &&& retiled_with(before, after, inserted_after(ws.windows@, foreground_index(ws), ev.window), fl)
            &&& after.cur().foreground_window == ws.foreground_window
            &&& r == applied(after.cur(), None, fl)
        } else if first_position(ws.windows@, h) is None {
            after == before && r == seq![Action::Hide { hwnd: h }]
        } else {
            after == before && r.len() == 0
        },
        WindowsEventType::Hide | WindowsEventType::Destroy => {
            let (windows, focus) = match first_position(ws.windows@, h) {
                Some(i) => (removed_at(ws.windows@, i), previous_index(i)),
                None => (ws.windows@, 0),
            };
            &&& retiled_with(before, after, windows, fl)
            &&& after.cur().foreground_window == ws.foreground_window
            &&& r == applied(after.cur(), Some(focus as usize), fl)
        },
        WindowsEventType::FocusChange => if first_position(ws.windows@, h) is Some {
            &&& retiled_with(before, after, ws.windows@, fl)
            &&& after.cur().foreground_window == ev.window
            &&& r == applied(after.cur(), None, fl)
        } else {
            after == before && r.len() == 0
        },
    }
}

impl Display {
    fn tracks(&self, h: isize) -> (r: bool)
        ensures
            r == display_tracks(*self, h),
    {
        let mut k: usize = 0;
        while k < self.workspaces.len()
            invariant
                k <= self.workspaces@.len(),
                forall|a: int, b: int|
                    0 <= a < k && 0 <= b < self.workspaces@[a].windows@.len() ==> #[trigger] self.workspaces@[a].windows@[b].hwnd != h,
            decreases self.workspaces@.len() - k,
        {
            match position_of(&self.workspaces[k].windows, h) {
                Some(j) => {
                    proof {
                        assert(self.workspaces@[k as int].windows@[j as int].hwnd == h);
                    }
                    return true;
                },
                None => {
                    proof {
                        assert forall|b: int| 0 <= b < self.workspaces@[k as int].windows@.len() implies #[trigger] self.workspaces@[k as int].windows@[b].hwnd != h by {
                            if self.workspaces@[k as int].windows@[b].hwnd == h {
                                let ws = self.workspaces@[k as int].windows@;
                                if !(exists|i: int| crate::workspace::is_first_position(ws, h, i)) {
                                    lemma_some_first(ws, h, b);
                                }
                            }
                        }
                    }
                },
            }
            k = k + 1;
        }
        false
    }

    fn on_move_start(&mut self, ev: &WindowsEvent, ctx: &EventContext) -> (r: Vec<Action>)
        requires
            old(self).wf(),
            ev.event_type == WindowsEventType::MoveResizeStart,
        ensures
            event_post(*old(self), *final(self), *ev, *ctx, r@),
    {
        let i = self.workspace_idx;
        let pos = match position_of(&self.workspaces[i].windows, ev.window.hwnd) {
            Some(p) => p,
            None => 0,
        };
        let mut out: Vec<Action> = Vec::new();
        if pos < self.workspaces[i].layout_dimensions.len() {
            out.push(Action::SetPosition { hwnd: ev.window.hwnd, rect: self.workspaces[i].layout_dimensions[pos], z: ZOrder::Keep, keep_geometry: false });
        }
        proof {
            assert(self.workspaces@ =~= old(self).workspaces@.update(old(self).workspace_idx as int, self.cur()));
            assert(out@ =~= (if pos < self.cur().layout_dimensions@.len() {
                seq![Action::SetPosition { hwnd: ev.window.hwnd, rect: self.cur().layout_dimensions@[pos as int], z: ZOrder::Keep, keep_geometry: false }]
            } else {
                Seq::empty()
            }));
        }
        out
    }
}

/// A handle that occurs in a sequence has a first position there.
proof fn lemma_some_first(ws: Seq<Window>, h: isize, b: int)
    requires
        0 <= b < ws.len(),
        ws[b].hwnd == h,
    ensures
        exists|i: int| crate::workspace::is_first_position(ws, h, i),
    decreases b,
{
    if forall|k: int| 0 <= k < b ==> ws[k].hwnd != h {
        assert(crate::workspace::is_first_position(ws, h, b));
    } else {
        let k = choose|k: int| 0 <= k < b && ws[k].hwnd == h;
        lemma_some_first(ws, h, k);
    }
}

impl Display {
    fn on_move_end(&mut self, ev: &WindowsEvent, ctx: &EventContext) -> (r: Vec<Action>)
        requires
            old(self).wf(),
            ev.event_type == WindowsEventType::MoveResizeEnd,
        ensures
            event_post(*old(self), *final(self), *ev, *ctx, r@),
    {
        let i = self.workspace_idx;
        let h = ev.window.hwnd;
        let fl = &ctx.floated;
        let pos = match position_of(&self.workspaces[i].windows, h) {
            Some(p) => p,
            None => 0,
        };
        let len = self.workspaces[i].windows.len();
        if !(pos < len && pos < self.workspaces[i].layout_dimensions.len()) {
        proof {
            assert(self.workspaces@ =~= old(self).workspaces@.update(old(self).workspace_idx as int, self.cur()));
        }
            return Vec::new();
        }
        let old_rect = self.workspaces[i].layout_dimensions[pos];
        let nr = ctx.window_rect;
        let delta = Rect {
            x: nr.x.wrapping_sub(old_rect.x),
            y: nr.y.wrapping_sub(old_rect.y),
            width: nr.width.wrapping_sub(old_rect.width),
            height: nr.height.wrapping_sub(old_rect.height),
        };
        if delta.width == 0 && delta.height == 0 {
            let ghost ws = self.cur().windows@;
            let ghost dims = self.cur().layout_dimensions@;
            let mut target: Option<usize> = None;
            let mut k: usize = 0;
            while k < len
                invariant
                    self.wf(),
                    i == self.workspace_idx,
                    ws == self.cur().windows@,
                    dims == self.cur().layout_dimensions@,
                    len == ws.len(),
                    k <= len,
                    match target {
                        Some(t) => drop_target(ws, dims, h, ctx.cursor_x, ctx.cursor_y, k as nat) == Some(t as int) && t < len,
                        None => drop_target(ws, dims, h, ctx.cursor_x, ctx.cursor_y, k as nat) is None,
                    },
                decreases len - k,
            {
                if k < self.workspaces[i].layout_dimensions.len() && self.workspaces[i].windows[k].hwnd != h
                    && self.workspaces[i].layout_dimensions[k].contains_point((ctx.cursor_x, ctx.cursor_y)) {
                    target = Some(k);
                }
                k = k + 1;
            }
            if let Some(t) = target {
                let wa = self.workspaces[i].windows[pos];
                let wb = self.workspaces[i].windows[t];
                self.workspaces[i].windows.set(pos, Window { resize: wa.resize, ..wb });
                self.workspaces[i].windows.set(t, Window { resize: wb.resize, ..wa });
            }
            proof {
                assert(self.workspaces@ =~= old(self).workspaces@.update(old(self).workspace_idx as int, self.cur()));
            }
            self.calculate_layout(fl);
        proof {
            assert(self.workspaces@ =~= old(self).workspaces@.update(old(self).workspace_idx as int, self.cur()));
        }
            self.apply_layout(None, fl)
        } else {
            let ops = resize_operations(delta);
            let fg = self.get_foreground_window_index();
            let ghost start = *self;
            proof {
                assert(self.workspaces@ =~= self.workspaces@.update(self.workspace_idx as int, self.cur()));
            }
            let mut k: usize = 0;
            while k < ops.len()
                invariant
                    self.wf(),
                    start.wf(),
                    start.only_current_changed(*self),
                    k <= ops@.len(),
                    self.cur().layout == start.cur().layout,
                    self.cur().layout_dimensions == start.cur().layout_dimensions,
                    self.cur().foreground_window == start.cur().foreground_window,
                    self.cur().windows@.len() == start.cur().windows@.len(),
                    fg == foreground_index(start.cur()),
                    start.cur().windows@.len() > 0 ==> fg < start.cur().windows@.len(),
                    self.cur().windows@ == resized_by(start.cur().windows@, fg as int, start.cur(), start.area(), start.gaps, ops@, k as nat),
                decreases ops@.len() - k,
            {
                let op = ops[k];
                let ghost before = *self;
                self.resize_at(fg, op.edge, op.sizing, op.step);
                proof {
                    assert(self.workspaces@ =~= start.workspaces@.update(start.workspace_idx as int, self.cur()));
                }
                k = k + 1;
            }
            self.calculate_layout(fl);
        proof {
            assert(self.workspaces@ =~= old(self).workspaces@.update(old(self).workspace_idx as int, self.cur()));
        }
            self.apply_layout(None, fl)
        }
    }

    fn on_show(&mut self, ev: &WindowsEvent, ctx: &EventContext) -> (r: Vec<Action>)
        requires
            old(self).wf(),
            ev.event_type == WindowsEventType::Show,
        ensures
            event_post(*old(self), *final(self), *ev, *ctx, r@),
    {
        let h = ev.window.hwnd;
        let i = self.workspace_idx;
        if !self.tracks(h) {
            self.workspaces[i].insert_window(ev.window);
            self.calculate_layout(&ctx.floated);
        proof {
            assert(self.workspaces@ =~= old(self).workspaces@.update(old(self).workspace_idx as int, self.cur()));
        }
            self.apply_layout(None, &ctx.floated)
        } else if position_of(&self.workspaces[i].windows, h).is_none() {
            let mut out: Vec<Action> = Vec::new();
            out.push(Action::Hide { hwnd: h });
        proof {
            assert(self.workspaces@ =~= old(self).workspaces@.update(old(self).workspace_idx as int, self.cur()));
        }
            proof {
                assert(out@ =~= seq![Action::Hide { hwnd: h }]);
            }
            out
        } else {
        proof {
            assert(self.workspaces@ =~= old(self).workspaces@.update(old(self).workspace_idx as int, self.cur()));
        }
            Vec::new()
        }
    }

    fn on_hide(&mut self, ev: &WindowsEvent, ctx: &EventContext) -> (r: Vec<Action>)
        requires
            old(self).wf(),
            ev.event_type == WindowsEventType::Hide || ev.event_type == WindowsEventType::Destroy,
        ensures
            event_post(*old(self), *final(self), *ev, *ctx, r@),
    {
        let i = self.workspace_idx;
        let previous = self.workspaces[i].remove_window(ev.window.hwnd);
        self.calculate_layout(&ctx.floated);
        proof {
            assert(self.workspaces@ =~= old(self).workspaces@.update(old(self).workspace_idx as int, self.cur()));
        }
        self.apply_layout(Some(previous), &ctx.floated)
    }

    fn on_focus(&mut self, ev: &WindowsEvent, ctx: &EventContext) -> (r: Vec<Action>)
        requires
            old(self).wf(),
            ev.event_type == WindowsEventType::FocusChange,
        ensures
            event_post(*old(self), *final(self), *ev, *ctx, r@),
    {
        let i = self.workspace_idx;
        if position_of(&self.workspaces[i].windows, ev.window.hwnd).is_some() {
            self.calculate_layout(&ctx.floated);
            let out = self.apply_layout(None, &ctx.floated);
            self.workspaces[i].foreground_window = ev.window;
        proof {
            assert(self.workspaces@ =~= old(self).workspaces@.update(old(self).workspace_idx as int, self.cur()));
        }
            out
        } else {
        proof {
            assert(self.workspaces@ =~= old(self).workspaces@.update(old(self).workspace_idx as int, self.cur()));
        }
            Vec::new()
        }
    }

    /// Updates the current workspace for one window event.
    pub fn handle_event(&mut self, ev: &WindowsEvent, ctx: &EventContext) -> (r: Vec<Action>)
        requires
            old(self).wf(),
        ensures
            event_post(*old(self), *final(self), *ev, *ctx, r@),
    {
        match ev.event_type {
            WindowsEventType::MoveResizeStart => self.on_move_start(ev, ctx),
            WindowsEventType::MoveResizeEnd => self.on_move_end(ev, ctx),
            WindowsEventType::Show => self.on_show(ev, ctx),
            WindowsEventType::Hide | WindowsEventType::Destroy => self.on_hide(ev, ctx),
            WindowsEventType::FocusChange => self.on_focus(ev, ctx),
        }
    }
}

/// Only display `d` changed, and the desktop's own fields did not.
pub open spec fn desktop_frame(before: Desktop, after: Desktop, d: int) -> bool {
    &&& after.wf()
    &&& after.displays@.len() == before.displays@.len()
    &&& forall|k: int| 0 <= k < before.displays@.len() && k != d ==> after.displays@[k] == before.displays@[k]
    &&& after.paused == before.paused
    &&& after.rules == before.rules
    &&& after.last_layout == before.last_layout
}

impl Desktop {
    /// Handles one window event on the display under the cursor; while
    /// paused, events are dropped.
    pub fn handle_windows_event(&mut self, ev: &WindowsEvent, ctx: &EventContext) -> (r: Vec<Action>)
        requires
            old(self).wf(),
        ensures
            final(self).wf(),
            old(self).paused ==> *final(self) == *old(self) && r@.len() == 0,
            !old(self).paused ==> ({
                let d = display_index(old(self).displays@, ctx.active_monitor);
                &&& desktop_frame(*old(self), *final(self), d)
                &&& event_post(old(self).displays@[d], final(self).displays@[d], *ev, *ctx, r@)
            }),
    {
        if self.paused {
            return Vec::new();
        }
        let d = self.get_active_display_idx(ctx.active_monitor);
        let ghost before = self.displays@;
        assert(self.displays@[d as int].wf());
        let out = self.displays[d].handle_event(ev, ctx);
        proof {
            assert forall|k: int| 0 <= k < self.displays@.len() implies #[trigger] self.displays@[k].wf() by {
                if k != d as int {
                    assert(self.displays@[k] == before[k]);
                }
            }
        }
        out
    }
}

/// The windows of `ws` whose handles are not in `stale`, in order.
pub open spec fn kept(ws: Seq<Window>, stale: Seq<isize>) -> Seq<Window>
    decreases ws.len(),
{
    if ws.len() == 0 {
        Seq::empty()
    } else {
        let prev = kept(ws.drop_last(), stale);
        if stale.contains(ws.last().hwnd) {
            prev
        } else {
            prev.push(ws.last())
        }
    }
}

impl Display {
    /// Drops the windows of the current workspace whose handles no longer
    /// name a window.
    pub fn discard_windows(&mut self, stale: &Vec<isize>)
        requires
            old(self).wf(),
        ensures
            final(self).wf(),
            old(self).only_current_changed(*final(self)),
            final(self).cur().windows@ == kept(old(self).cur().windows@, stale@),
            final(self).cur().layout == old(self).cur().layout,
            final(self).cur().layout_dimensions == old(self).cur().layout_dimensions,
            final(self).cur().foreground_window == old(self).cur().foreground_window,
    {
        let i = self.workspace_idx;
        let ghost ws = self.cur().windows@;
        let mut out: Vec<Window> = Vec::new();
        let mut k: usize = 0;
        while k < self.workspaces[i].windows.len()
            invariant
                self.wf(),
                i == self.workspace_idx,
                ws == self.cur().windows@,
                *self == *old(self),
                k <= ws.len(),
                out@ == kept(ws.take(k as int), stale@),
            decreases ws.len() - k,
        {
            let w = self.workspaces[i].windows[k];
            proof {
                assert(ws.take(k as int + 1).drop_last() =~= ws.take(k as int));
            }
            if !crate::workspace::holds(stale, w.hwnd) {
                out.push(w);
            }
            k = k + 1;
        }
        proof {
            assert(ws.take(k as int) =~= ws);
        }
        self.workspaces[i].windows = out;
        proof {
            assert(self.workspaces@ =~= old(self).workspaces@.update(old(self).workspace_idx as int, self.cur()));
        }
    }
}

impl Desktop {
    /// Drops stale windows from every display's current workspace.
    pub fn discard_windows(&mut self, stale: &Vec<isize>)
        requires
            old(self).wf(),
        ensures
            final(self).wf(),
            final(self).displays@.len() == old(self).displays@.len(),
            forall|k: int| 0 <= k < old(self).displays@.len() ==> {
                &&& old(self).displays@[k].only_current_changed(#[trigger] final(self).displays@[k])
                &&& final(self).displays@[k].cur().windows@ == kept(old(self).displays@[k].cur().windows@, stale@)
            },
            final(self).paused == old(self).paused,
            final(self).rules == old(self).rules,
            final(self).last_layout == old(self).last_layout,
    {
        let mut i: usize = 0;
        while i < self.displays.len()
            invariant
                i <= self.displays@.len(),
                self.wf(),
                self.displays@.len() == old(self).displays@.len(),
                forall|k: int| i <= k < old(self).displays@.len() ==> self.displays@[k] == old(self).displays@[k],
                forall|k: int| 0 <= k < i ==> {
                    &&& old(self).displays@[k].only_current_changed(#[trigger] self.displays@[k])
                    &&& self.displays@[k].cur().windows@ == kept(old(self).displays@[k].cur().windows@, stale@)
                },
                self.paused == old(self).paused,
                self.rules == old(self).rules,
                self.last_layout == old(self).last_layout,
            decreases self.displays@.len() - i,
        {
            let ghost before = self.displays@;
            self.displays[i].discard_windows(stale);
            proof {
                assert forall|k: int| 0 <= k < self.displays@.len() implies #[trigger] self.displays@[k].wf() by {
                    if k != i as int {
                        assert(self.displays@[k] == before[k]);
                    }
                }
            }
            i = i + 1;
        }
    }
}

/// The windows of `ws` on monitor `m`, in order.
pub open spec fn on_monitor(ws: Seq<Window>, m: isize) -> Seq<Window>
    decreases ws.len(),
{
    if ws.len() == 0 {
        Seq::empty()
    } else {
        let prev = on_monitor(ws.drop_last(), m);
        if ws.last().hmonitor == m {
            prev.push(ws.last())
        } else {
            prev
        }
    }
}

fn windows_on(windows: &Vec<Window>, m: isize) -> (r: Vec<Window>)
    ensures
        r@ == on_monitor(windows@, m),
{
    let mut out: Vec<Window> = Vec::new();
    let mut k: usize = 0;
    while k < windows.len()
        invariant
            k <= windows@.len(),
            out@ == on_monitor(windows@.take(k as int), m),
        decreases windows@.len() - k,
    {
        proof {
            assert(windows@.take(k as int + 1).drop_last() =~= windows@.take(k as int));
        }
        if windows[k].hmonitor == m {
            out.push(windows[k]);
        }
        k = k + 1;
    }
    proof {
        assert(windows@.take(k as int) =~= windows@);
    }
    out
}

impl Desktop {
    /// Hands each display the windows on its monitor, in enumeration
    /// order, as its current workspace's windows.
    pub fn populate(&mut self, windows: &Vec<Window>)
        requires
            old(self).wf(),
        ensures
            final(self).wf(),
            final(self).displays@.len() == old(self).displays@.len(),
            forall|k: int| 0 <= k < old(self).displays@.len() ==> {
                &&& old(self).displays@[k].only_current_changed(#[trigger] final(self).displays@[k])
                &&& final(self).displays@[k].cur().windows@ == on_monitor(windows@, old(self).displays@[k].hmonitor)
                &&& final(self).displays@[k].cur().layout == old(self).displays@[k].cur().layout
            },
            final(self).paused == old(self).paused,
            final(self).rules == old(self).rules,
            final(self).last_layout == old(self).last_layout,
    {
        let mut i: usize = 0;
        while i < self.displays.len()
            invariant
                i <= self.displays@.len(),
                self.wf(),
                self.displays@.len() == old(self).displays@.len(),
                forall|k: int| i <= k < old(self).displays@.len() ==> self.displays@[k] == old(self).displays@[k],
                forall|k: int| 0 <= k < i ==> {
                    &&& old(self).displays@[k].only_current_changed(#[trigger] self.displays@[k])
                    &&& self.displays@[k].cur().windows@ == on_monitor(windows@, old(self).displays@[k].hmonitor)
                    &&& self.displays@[k].cur().layout == old(self).displays@[k].cur().layout
                },
                self.paused == old(self).paused,
                self.rules == old(self).rules,
                self.last_layout == old(self).last_layout,
            decreases self.displays@.len() - i,
        {
            let ghost before = self.displays@;
            let ghost d0 = self.displays@[i as int];
            assert(self.displays@[i as int].wf());
            let m = self.displays[i].hmonitor;
            let mine = windows_on(windows, m);
            let w = self.displays[i].workspace_idx;
            self.displays[i].workspaces[w].windows = mine;
            proof {
                let d1 = self.displays@[i as int];
                assert(d1.workspaces@ =~= d0.workspaces@.update(d0.workspace_idx as int, d1.cur()));
                assert forall|k: int| 0 <= k < self.displays@.len() implies #[trigger] self.displays@[k].wf() by {
                    if k != i as int {
                        assert(self.displays@[k] == before[k]);
                    }
                }
            }
            i = i + 1;
        }
    }
}

} // verus!
