//! The command processor: what each control command does to the desktop,
//! and the geometry actions it takes.
use crate::desktop::{windows_of, cycled_index, display_index, focus_display_actions, hide_all, padded, resized_windows, show_all, transfer_actions, Desktop, Display};
use crate::machine::desktop_frame;
use crate::protocol::{next_layout, previous_layout, CycleDirection, Layout, ResizeEdge, Sizing, SocketMessage};
use crate::rect::{half, halve, wadd, wsub, Rect};
use crate::window::{texts, with_item, Window};
use crate::workspace::{
    applied, applied_parts, balanced, centre_action, centre_of, first_position, follow_spec, foreground_index, position_of,
    promoted, window_op_post, windows_layout, workspace_layout, Action, DirectionOperation, ZOrder,
};
use vstd::prelude::*;

verus! {

/// What the OS layer reads just before a command is handled.
#[derive(Clone, Debug)]
pub struct CommandContext {
    /// The monitor under the cursor.
    pub active_monitor: isize,
    /// The window the OS reports as foreground.
    pub foreground: Window,
    /// The tracked windows that the float rules currently float.
    pub floated: Vec<isize>,
}

/// The quarter-screen rectangle, centred in `d`, that a window gets
/// when it starts floating.
pub open spec fn float_rect(d: Rect) -> Rect {
    let w2 = half(d.width);
    let h2 = half(d.height);
    Rect {
        x: wadd(d.x, half(wsub(d.width, w2))),
        y: wadd(d.y, half(wsub(d.height, h2))),
        width: w2,
        height: h2,
    }
}

/// The centred floating rectangle of a display's work area.
pub fn centred_float(d: Rect) -> (r: Rect)
    ensures
        r == float_rect(d),
{
    let w2 = halve(d.width);
    let h2 = halve(d.height);
    Rect {
        x: d.x.wrapping_add(halve(d.width.wrapping_sub(w2))),
        y: d.y.wrapping_add(halve(d.height.wrapping_sub(h2))),
        width: w2,
        height: h2,
    }
}

/// Placing a floating window in the centre and moving the cursor there.
pub open spec fn float_actions(hwnd: isize, d: Rect) -> Seq<Action> {
    seq![
        Action::SetPosition { hwnd, rect: float_rect(d), z: ZOrder::Bottom, keep_geometry: false },
        centre_action(float_rect(d)),
    ]
}

/// The current workspace now holds `windows` under `layout`, the display
/// uses `gaps`, the rectangles are recomputed, and `r` applies them.
pub open spec fn retiled_post(
    before: Display,
    after: Display,
    windows: Seq<Window>,
    layout: Layout,
    gaps: i32,
    floated: Seq<isize>,
    focus: Option<usize>,
    r: Seq<Action>,
) -> bool {
    &&& after.wf()
    &&& after.workspaces@ == before.workspaces@.update(before.workspace_idx as int, after.cur())
    &&& after.hmonitor == before.hmonitor
    &&& after.dimensions == before.dimensions
    &&& after.workspace_idx == before.workspace_idx
    &&& after.padding == before.padding
    &&& after.resize_step == before.resize_step
    &&& after.gaps == gaps
    &&& after.cur().windows@ == windows
    &&& after.cur().layout == layout
    &&& after.cur().layout_dimensions@ == windows_layout(windows, layout, before.area(), gaps, floated)
    &&& r == applied(after.cur(), focus, floated)
}

/// The gap size after one adjustment: up by one (saturating), or down by
/// one but not below zero.
pub open spec fn adjusted_gaps(gaps: i32, sizing: Sizing) -> i32 {
    match sizing {
        Sizing::Increase => if gaps < i32::MAX { (gaps + 1) as i32 } else { gaps },
        Sizing::Decrease => if gaps > 0 { (gaps - 1) as i32 } else { gaps },
    }
}

/// What promoting the foreground window does.
pub open spec fn promote_post(before: Display, after: Display, floated: Seq<isize>, r: Seq<Action>) -> bool {
    let ws = before.cur();
    if ws.windows@.len() > 0 {
        let part = applied(after.cur(), Some(0), floated);
        &&& retiled_post(before, after, promoted(ws.windows@, foreground_index(ws)), ws.layout, before.gaps, floated, Some(0), part)
        &&& after.cur().foreground_window == ws.foreground_window
        &&& r == part + follow_spec(after.cur(), 0)
    } else {
        after == before && r.len() == 0
    }
}

/// What toggling float on the foreground window does.
pub open spec fn toggle_float_post(before: Display, after: Display, floated: Seq<isize>, r: Seq<Action>) -> bool {
    let ws = before.cur();
    let idx = foreground_index(ws);
    if ws.windows@.len() > 0 {
        let w = Window { tile: !ws.windows@[idx].tile, ..ws.windows@[idx] };
        let part = applied(after.cur(), None, floated);
        &&& retiled_post(before, after, ws.windows@.update(idx, w), ws.layout, before.gaps, floated, None, part)
        &&& after.cur().foreground_window == ws.foreground_window
        &&& r == part + if !w.tile {
            float_actions(w.hwnd, before.dimensions)
        } else if idx < after.cur().layout_dimensions@.len() {
            seq![centre_action(after.cur().layout_dimensions@[idx])]
        } else {
            Seq::empty()
        }
    } else {
        after == before && r.len() == 0
    }
}

/// What toggling monocle does; `last` is the layout monocle replaced.
pub open spec fn toggle_monocle_post(
    before: Display,
    after: Display,
    last: Layout,
    last_after: Layout,
    floated: Seq<isize>,
    r: Seq<Action>,
) -> bool {
    let ws = before.cur();
    let idx = foreground_index(ws);
    if ws.layout == Layout::Monocle {
        if ws.windows@.len() > 0 {
            let w = ws.windows@[idx];
            let part = applied(after.cur(), None, floated);
            &&& retiled_post(before, after, ws.windows@, last, before.gaps, floated, None, part)
            &&& after.cur().foreground_window == ws.foreground_window
            &&& last_after == last
            &&& r == part + if !w.tile {
                float_actions(w.hwnd, before.dimensions)
            } else {
                Seq::empty()
            }
        } else {
            after == before && last_after == last && r.len() == 0
        }
    } else {
        &&& retiled_post(before, after, ws.windows@, Layout::Monocle, before.gaps, floated, None, r)
        &&& after.cur().foreground_window == ws.foreground_window
        &&& last_after == ws.layout
    }
}

/// What retiling does: every override cleared, the OS foreground window
/// recorded, and the layout re-applied with it in focus.
pub open spec fn retile_post(before: Display, after: Display, foreground: Window, floated: Seq<isize>, r: Seq<Action>) -> bool {
    let windows = balanced(before.cur().windows@);
    let focus = match first_position(windows, foreground.hwnd) {
        Some(i) => Some(i as usize),
        None => None,
    };
    &&& retiled_post(before, after, windows, before.cur().layout, before.gaps, floated, focus, r)
    &&& after.cur().foreground_window == foreground
}

/// Only the current workspace's layout changed, and overrides are
/// cleared.
pub open spec fn relayout_post(before: Display, after: Display, layout: Layout, floated: Seq<isize>, r: Seq<Action>) -> bool {
    &&& retiled_post(before, after, balanced(before.cur().windows@), layout, before.gaps, floated, None, r)
    &&& after.cur().foreground_window == before.cur().foreground_window
}

/// The gap size changed to `gaps`.
pub open spec fn gaps_post(before: Display, after: Display, gaps: i32, floated: Seq<isize>, r: Seq<Action>) -> bool {
    &&& retiled_post(before, after, before.cur().windows@, before.cur().layout, gaps, floated, None, r)
    &&& after.cur().foreground_window == before.cur().foreground_window
}

/// One resize step on the foreground window by the display's step.
pub open spec fn resize_post(before: Display, after: Display, edge: ResizeEdge, sizing: Sizing, floated: Seq<isize>, r: Seq<Action>) -> bool {
    let ws = before.cur();
    let windows = resized_windows(ws.windows@, foreground_index(ws), ws.layout, before.area(), before.gaps, edge, sizing, before.resize_step);
    &&& retiled_post(before, after, windows, ws.layout, before.gaps, floated, None, r)
    &&& after.cur().foreground_window == ws.foreground_window
}

proof fn lemma_same_update(d: Display)
    requires
        d.wf(),
    ensures
        d.workspaces@ == d.workspaces@.update(d.workspace_idx as int, d.cur()),
{
    assert(d.workspaces@ =~= d.workspaces@.update(d.workspace_idx as int, d.cur()));
}

impl Display {
    /// Moves the foreground window to the first slot and re-tiles.
    pub fn promote_foreground(&mut self, floated: &Vec<isize>) -> (r: Vec<Action>)
        requires
            old(self).wf(),
        ensures
            promote_post(*old(self), *final(self), floated@, r@),
    {
        let i = self.workspace_idx;
        if self.workspaces[i].windows.len() == 0 {
            return Vec::new();
        }
        self.workspaces[i].promote();
        self.calculate_layout(floated);
        let mut out = self.apply_layout(Some(0), floated);
        let ghost part = out@;
        let mut follow = self.follow_focus_with_mouse(0);
        out.append(&mut follow);
        proof {
            assert(self.workspaces@ =~= old(self).workspaces@.update(old(self).workspace_idx as int, self.cur()));
            assert(retiled_post(*old(self), *self, promoted(old(self).cur().windows@, foreground_index(old(self).cur())), old(self).cur().layout, old(self).gaps, floated@, Some(0), part));
        }
        out
    }

    /// Flips the foreground window between tiling and floating; a window
    /// that starts floating is centred, and the cursor follows.
    pub fn toggle_float(&mut self, floated: &Vec<isize>) -> (r: Vec<Action>)
        requires
            old(self).wf(),
        ensures
            toggle_float_post(*old(self), *final(self), floated@, r@),
    {
        let i = self.workspace_idx;
        if self.workspaces[i].windows.len() == 0 {
            return Vec::new();
        }
        let idx = self.get_foreground_window_index();
        self.workspaces[i].toggle_float_at(idx);
        let w = self.workspaces[i].windows[idx];
        self.calculate_layout(floated);
        let mut out = self.apply_layout(None, floated);
        let ghost part = out@;
        if !w.tile {
            let centre = centred_float(self.dimensions);
            out.push(Action::SetPosition { hwnd: w.hwnd, rect: centre, z: ZOrder::Bottom, keep_geometry: false });
            out.push(centre_of(centre));
        } else if idx < self.workspaces[i].layout_dimensions.len() {
            out.push(centre_of(self.workspaces[i].layout_dimensions[idx]));
        }
        proof {
            assert(self.workspaces@ =~= old(self).workspaces@.update(old(self).workspace_idx as int, self.cur()));
            let ws = old(self).cur();
            let nw = Window { tile: !ws.windows@[idx as int].tile, ..ws.windows@[idx as int] };
            assert(retiled_post(*old(self), *self, ws.windows@.update(idx as int, nw), ws.layout, old(self).gaps, floated@, None, part));
            if !w.tile {
                assert(out@ =~= part + float_actions(nw.hwnd, old(self).dimensions));
            } else if idx < self.cur().layout_dimensions@.len() {
                assert(out@ =~= part + seq![centre_action(self.cur().layout_dimensions@[idx as int])]);
            } else {
                assert(out@ =~= part + Seq::<Action>::empty());
            }
        }
        out
    }

    /// Switches monocle on, remembering the layout it replaces in `last`,
    /// or off, restoring that layout.
    pub fn toggle_monocle(&mut self, last: &mut Layout, floated: &Vec<isize>) -> (r: Vec<Action>)
        requires
            old(self).wf(),
        ensures
            toggle_monocle_post(*old(self), *final(self), *old(last), *final(last), floated@, r@),
    {
        let i = self.workspace_idx;
        if self.workspaces[i].layout == Layout::Monocle {
            if self.workspaces[i].windows.len() == 0 {
                return Vec::new();
            }
            let idx = self.get_foreground_window_index();
            let w = self.workspaces[i].windows[idx];
            self.workspaces[i].layout = *last;
            self.calculate_layout(floated);
            let mut out = self.apply_layout(None, floated);
            let ghost part = out@;
            if !w.tile {
                let centre = centred_float(self.dimensions);
                out.push(Action::SetPosition { hwnd: w.hwnd, rect: centre, z: ZOrder::Bottom, keep_geometry: false });
                out.push(centre_of(centre));
            }
            proof {
                assert(self.workspaces@ =~= old(self).workspaces@.update(old(self).workspace_idx as int, self.cur()));
                assert(retiled_post(*old(self), *self, old(self).cur().windows@, *old(last), old(self).gaps, floated@, None, part));
                if !w.tile {
                    assert(out@ =~= part + float_actions(w.hwnd, old(self).dimensions));
                } else {
                    assert(out@ =~= part + Seq::<Action>::empty());
                }
            }
            out
        } else {
            *last = self.workspaces[i].layout;
            self.workspaces[i].layout = Layout::Monocle;
            self.calculate_layout(floated);
            proof {
                assert(self.workspaces@ =~= old(self).workspaces@.update(old(self).workspace_idx as int, self.cur()));
            }
            self.apply_layout(None, floated)
        }
    }

    /// Clears every resize override, records the OS foreground window and
    /// re-tiles with it in focus.
    pub fn retile(&mut self, foreground: Window, floated: &Vec<isize>) -> (r: Vec<Action>)
        requires
            old(self).wf(),
        ensures
            retile_post(*old(self), *final(self), foreground, floated@, r@),
    {
        let i = self.workspace_idx;
        self.workspaces[i].clear_resizes();
        self.workspaces[i].foreground_window = foreground;
        self.calculate_layout(floated);
        let focus = position_of(&self.workspaces[i].windows, foreground.hwnd);
        proof {
            assert(self.workspaces@ =~= old(self).workspaces@.update(old(self).workspace_idx as int, self.cur()));
        }
        self.apply_layout(focus, floated)
    }

    /// Switches the current workspace to `layout`, balanced.
    pub fn set_layout(&mut self, layout: Layout, floated: &Vec<isize>) -> (r: Vec<Action>)
        requires
            old(self).wf(),
        ensures
            relayout_post(*old(self), *final(self), layout, floated@, r@),
    {
        let i = self.workspace_idx;
        self.workspaces[i].clear_resizes();
        self.workspaces[i].layout = layout;
        self.calculate_layout(floated);
        proof {
            assert(self.workspaces@ =~= old(self).workspaces@.update(old(self).workspace_idx as int, self.cur()));
        }
        self.apply_layout(None, floated)
    }

    /// Steps the current workspace's layout forward or back, balanced.
    pub fn cycle_layout(&mut self, direction: CycleDirection, floated: &Vec<isize>) -> (r: Vec<Action>)
        requires
            old(self).wf(),
        ensures
            relayout_post(
                *old(self),
                *final(self),
                match direction {
                    CycleDirection::Previous => previous_layout(old(self).cur().layout),
                    CycleDirection::Next => next_layout(old(self).cur().layout),
                },
                floated@,
                r@,
            ),
    {
        let i = self.workspace_idx;
        let mut layout = self.workspaces[i].layout;
        match direction {
            CycleDirection::Previous => layout.previous(),
            CycleDirection::Next => layout.next(),
        }
        self.set_layout(layout, floated)
    }

    /// Sets the gap size and re-tiles.
    pub fn set_gaps(&mut self, gaps: i32, floated: &Vec<isize>) -> (r: Vec<Action>)
        requires
            old(self).wf(),
        ensures
            gaps_post(*old(self), *final(self), gaps, floated@, r@),
    {
        self.gaps = gaps;
        self.calculate_layout(floated);
        proof {
            assert(self.workspaces@ =~= old(self).workspaces@.update(old(self).workspace_idx as int, self.cur()));
        }
        self.apply_layout(None, floated)
    }

    /// Grows or shrinks the gap size by one, never below zero.
    pub fn adjust_gaps(&mut self, sizing: Sizing, floated: &Vec<isize>) -> (r: Vec<Action>)
        requires
            old(self).wf(),
        ensures
            gaps_post(*old(self), *final(self), adjusted_gaps(old(self).gaps, sizing), floated@, r@),
    {
        let g = match sizing {
            Sizing::Increase => if self.gaps < i32::MAX { self.gaps + 1 } else { self.gaps },
            Sizing::Decrease => if self.gaps > 0 { self.gaps - 1 } else { self.gaps },
        };
        self.set_gaps(g, floated)
    }

    /// One resize step on the foreground window, then re-tiles.
    pub fn resize_command(&mut self, edge: ResizeEdge, sizing: Sizing, floated: &Vec<isize>) -> (r: Vec<Action>)
        requires
            old(self).wf(),
        ensures
            resize_post(*old(self), *final(self), edge, sizing, floated@, r@),
    {
        self.resize_window(edge, sizing, None);
        self.calculate_layout(floated);
        proof {
            assert(self.workspaces@ =~= old(self).workspaces@.update(old(self).workspace_idx as int, self.cur()));
        }
        self.apply_layout(None, floated)
    }
}


/// The padding changed to `padding` and the current workspace re-tiled
/// in the new area.
pub open spec fn padding_post(before: Display, after: Display, padding: i32, floated: Seq<isize>, r: Seq<Action>) -> bool {
    let ws = before.cur();
    &&& after.wf()
    &&& after.workspaces@ == before.workspaces@.update(before.workspace_idx as int, after.cur())
    &&& after.hmonitor == before.hmonitor
    &&& after.dimensions == before.dimensions
    &&& after.workspace_idx == before.workspace_idx
    &&& after.gaps == before.gaps
    &&& after.resize_step == before.resize_step
    &&& after.padding == padding
    &&& after.cur().windows == ws.windows
    &&& after.cur().layout == ws.layout
    &&& after.cur().foreground_window == ws.foreground_window
    &&& after.cur().layout_dimensions@ == windows_layout(ws.windows@, ws.layout, padded(before.dimensions, padding), before.gaps, floated)
    &&& r == applied(after.cur(), None, floated)
}

impl Display {
    /// Sets the padding around the work area and re-tiles.
    pub fn set_padding(&mut self, padding: i32, floated: &Vec<isize>) -> (r: Vec<Action>)
        requires
            old(self).wf(),
        ensures
            padding_post(*old(self), *final(self), padding, floated@, r@),
    {
        self.padding = padding;
        self.calculate_layout(floated);
        proof {
            assert(self.workspaces@ =~= old(self).workspaces@.update(old(self).workspace_idx as int, self.cur()));
        }
        self.apply_layout(None, floated)
    }
}

/// Restoring every window of workspaces `0..k`.
pub open spec fn workspace_restores(wss: Seq<crate::workspace::Workspace>, k: nat) -> Seq<Action>
    decreases k,
{
    if k == 0 {
        Seq::empty()
    } else {
        workspace_restores(wss, (k - 1) as nat) + wss[k - 1].windows@.map_values(|w: Window| Action::Restore { hwnd: w.hwnd })
    }
}

/// Restoring every window of displays `0..k`.
pub open spec fn display_restores(ds: Seq<Display>, k: nat) -> Seq<Action>
    decreases k,
{
    if k == 0 {
        Seq::empty()
    } else {
        display_restores(ds, (k - 1) as nat) + workspace_restores(ds[k - 1].workspaces@, ds[k - 1].workspaces@.len())
    }
}

/// Only the displays' list changed: the other desktop fields are kept.
pub open spec fn desktop_fields_kept(before: Desktop, after: Desktop) -> bool {
    &&& after.paused == before.paused
    &&& after.rules == before.rules
    &&& after.last_layout == before.last_layout
}

/// What moving the foreground window to workspace `i` and switching
/// there does.
pub open spec fn follow_post(bd: Display, ad: Display, i: usize, fl: Seq<isize>, r: Seq<Action>) -> bool {
    let idx = foreground_index(bd.cur());
    let from = bd.workspace_idx as int;
    &&& ad.wf()
    &&& ad.workspace_idx == i
    &&& ad.cur().layout_dimensions@ == workspace_layout(ad.cur(), bd.area(), bd.gaps, fl)
    &&& if i != bd.workspace_idx && bd.cur().windows@.len() > 0 {
        let rest = bd.cur().windows@.remove(idx);
        let layout = bd.cur().layout;
        &&& ad.workspaces@[from].windows@ == rest
        &&& ad.cur().windows@ == windows_of(bd, i as int).insert(0, bd.cur().windows@[idx])
        &&& forall|k: int| 0 <= k < bd.workspaces@.len() && k != i && k != from ==> ad.workspaces@[k] == bd.workspaces@[k]
        &&& r == seq![Action::Hide { hwnd: bd.cur().windows@[idx].hwnd }] + applied_parts(
            rest,
            layout,
            windows_layout(rest, layout, bd.area(), bd.gaps, fl),
            None,
            fl,
        ) + hide_all(rest) + show_all(ad.cur().windows@) + applied(ad.cur(), None, fl)
    } else {
        &&& ad.cur().windows@ == windows_of(bd, i as int)
        &&& forall|k: int| 0 <= k < bd.workspaces@.len() && k != i ==> ad.workspaces@[k] == bd.workspaces@[k]
        &&& r == if i == bd.workspace_idx {
            applied(ad.cur(), None, fl)
        } else {
            hide_all(bd.cur().windows@) + show_all(ad.cur().windows@) + applied(ad.cur(), None, fl)
        }
    }
}

impl Display {
    /// Moves the foreground window to workspace `i` and switches there.
    pub fn move_window_to_workspace_and_follow(&mut self, i: usize, floated: &Vec<isize>) -> (r: Vec<Action>)
        requires
            old(self).wf(),
        ensures
            follow_post(*old(self), *final(self), i, floated@, r@),
            final(self).hmonitor == old(self).hmonitor,
    {
        let idx = self.get_foreground_window_index();
        let mut moved = self.move_window_to_workspace(i, idx, floated);
        let ghost moved_part = moved@;
        let mut switched = self.set_workspace(i, floated);
        let ghost switched_part = switched@;
        moved.append(&mut switched);
        proof {
            assert(moved@ =~= moved_part + switched_part);
            if moved_part.len() > 0 {
                let h = seq![moved_part[0]];
                let rest_part = moved_part.subrange(1, moved_part.len() as int);
                assert(moved_part =~= h + rest_part);
                let a = old(self).cur().windows@.remove(idx as int);
                let x = hide_all(a);
                let y = show_all(self.cur().windows@);
                let z = applied(self.cur(), None, floated@);
                assert(switched_part =~= x + y + z);
                assert(moved@ =~= h + rest_part + x + y + z);
            }
        }
        moved
    }
}

/// What a control command does to the desktop, and what the OS layer
/// must then do. While paused, every command but the pause toggle is
/// skipped.
pub open spec fn command_post(before: Desktop, after: Desktop, msg: SocketMessage, ctx: CommandContext, r: Seq<Action>) -> bool {
    if before.paused && !(msg is TogglePause) {
        after == before && r.len() == 0
    } else {
        let d = display_index(before.displays@, ctx.active_monitor);
        let bd = before.displays@[d];
        let ad = after.displays@[d];
        let fl = ctx.floated@;
        let len = before.displays@.len() as int;
        match msg {
            SocketMessage::FocusWindow(dir) => desktop_frame(before, after, d) && bd.only_current_changed(ad)
                && window_op_post(bd.cur(), ad.cur(), DirectionOperation::Focus, dir, bd.area(), bd.gaps, fl, r),
            SocketMessage::MoveWindow(dir) => desktop_frame(before, after, d) && bd.only_current_changed(ad)
                && window_op_post(bd.cur(), ad.cur(), DirectionOperation::Move, dir, bd.area(), bd.gaps, fl, r),
            SocketMessage::Promote => desktop_frame(before, after, d) && promote_post(bd, ad, fl, r),
            SocketMessage::Retile => desktop_frame(before, after, d) && retile_post(bd, ad, ctx.foreground, fl, r),
            SocketMessage::Layout(l) => desktop_frame(before, after, d) && relayout_post(bd, ad, l, fl, r),
            SocketMessage::CycleLayout(dir) => desktop_frame(before, after, d) && relayout_post(
                bd,
                ad,
                match dir {
                    CycleDirection::Previous => previous_layout(bd.cur().layout),
                    CycleDirection::Next => next_layout(bd.cur().layout),
                },
                fl,
                r,
            ),
            SocketMessage::GapSize(n) => desktop_frame(before, after, d) && gaps_post(bd, ad, n, fl, r),
            SocketMessage::AdjustGaps(sizing) => desktop_frame(before, after, d) && gaps_post(bd, ad, adjusted_gaps(bd.gaps, sizing), fl, r),
            SocketMessage::PaddingSize(n) => desktop_frame(before, after, d) && padding_post(bd, ad, n, fl, r),
            SocketMessage::ResizeWindow(edge, sizing) => desktop_frame(before, after, d) && resize_post(bd, ad, edge, sizing, fl, r),
            SocketMessage::ToggleFloat => desktop_frame(before, after, d) && toggle_float_post(bd, ad, fl, r),
            SocketMessage::ToggleMonocle => {
                &&& desktop_frame(before, Desktop { last_layout: before.last_layout, ..after }, d)
                &&& toggle_monocle_post(bd, ad, before.last_layout, after.last_layout, fl, r)
            },
            SocketMessage::TogglePause => after == (Desktop { paused: !before.paused, ..before }) && r.len() == 0,
            SocketMessage::FloatClass(c) => {
                &&& texts(after.rules.classes@) == with_item(texts(before.rules.classes@), c@)
                &&& after.rules.exes == before.rules.exes && after.rules.titles == before.rules.titles
                &&& after.displays == before.displays && after.paused == before.paused && after.last_layout == before.last_layout
                &&& r.len() == 0
            },
            SocketMessage::FloatExe(e) => {
                &&& texts(after.rules.exes@) == with_item(texts(before.rules.exes@), e@)
                &&& after.rules.classes == before.rules.classes && after.rules.titles == before.rules.titles
                &&& after.displays == before.displays && after.paused == before.paused && after.last_layout == before.last_layout
                &&& r.len() == 0
            },
            SocketMessage::FloatTitle(t) => {
                &&& texts(after.rules.titles@) == with_item(texts(before.rules.titles@), t@)
                &&& after.rules.classes == before.rules.classes && after.rules.exes == before.rules.exes
                &&& after.displays == before.displays && after.paused == before.paused && after.last_layout == before.last_layout
                &&& r.len() == 0
            },
            SocketMessage::FocusDisplay(dir) => after == before && if len > 1 {
                r == focus_display_actions(before.displays@[cycled_index(d, len, dir)])
            } else {
                r.len() == 0
            },
            SocketMessage::FocusDisplayNumber(n) => after == before && if 1 <= n <= len {
                r == focus_display_actions(before.displays@[n - 1])
            } else {
                r.len() == 0
            },
            SocketMessage::MoveWindowToDisplay(dir) => {
                let idx = foreground_index(bd.cur());
                if bd.cur().windows@.len() > 0 && len > 1 {
                    let to = cycled_index(d, len, dir);
                    &&& after.wf() && desktop_fields_kept(before, after)
                    &&& after.displays@.len() == len
                    &&& forall|k: int| 0 <= k < len && k != d && k != to ==> after.displays@[k] == before.displays@[k]
                    &&& after.displays@[d].cur().windows@ == bd.cur().windows@.remove(idx)
                    &&& after.displays@[to].cur().windows@ == before.displays@[to].cur().windows@.insert(0, bd.cur().windows@[idx])
                    &&& r == transfer_actions(before.displays@, after.displays@, idx, d, to, fl)
                } else {
                    after == before && r.len() == 0
                }
            },
            SocketMessage::MoveWindowToDisplayNumber(n) => {
                let idx = foreground_index(bd.cur());
                if bd.cur().windows@.len() > 0 && 1 <= n <= len {
                    &&& after.wf() && desktop_fields_kept(before, after)
                    &&& after.displays@.len() == len
                    &&& forall|k: int| 0 <= k < len && k != d && k != n - 1 ==> after.displays@[k] == before.displays@[k]
                    &&& n - 1 != d ==> after.displays@[d].cur().windows@ == bd.cur().windows@.remove(idx)
                    &&& n - 1 != d ==> after.displays@[n - 1].cur().windows@ == before.displays@[n - 1].cur().windows@.insert(
                        0,
                        bd.cur().windows@[idx],
                    )
                    &&& r == transfer_actions(before.displays@, after.displays@, idx, d, n - 1, fl)
                } else {
                    after == before && r.len() == 0
                }
            },
            SocketMessage::SetWorkspace(i) => {
                &&& desktop_frame(before, after, d)
                &&& ad.workspace_idx == i
                &&& ad.cur().windows@ == windows_of(bd, i as int)
                &&& ad.cur().layout_dimensions@ == workspace_layout(ad.cur(), bd.area(), bd.gaps, fl)
                &&& forall|k: int| 0 <= k < bd.workspaces@.len() && k != i ==> ad.workspaces@[k] == bd.workspaces@[k]
                &&& r == if i == bd.workspace_idx {
                    applied(ad.cur(), None, fl)
                } else {
                    hide_all(bd.cur().windows@) + show_all(ad.cur().windows@) + applied(ad.cur(), None, fl)
                }
            },
            SocketMessage::MoveWindowToWorkspace(i) => {
                let idx = foreground_index(bd.cur());
                &&& desktop_frame(before, after, d)
                &&& ad.workspace_idx == bd.workspace_idx
                &&& i != bd.workspace_idx && bd.cur().windows@.len() > 0 ==> {
                    &&& ad.cur().windows@ == bd.cur().windows@.remove(idx)
                    &&& ad.cur().layout_dimensions@ == workspace_layout(ad.cur(), bd.area(), bd.gaps, fl)
                    &&& ad.workspaces@[i as int].windows@ == windows_of(bd, i as int).insert(0, bd.cur().windows@[idx])
                    &&& forall|k: int|
                        0 <= k < bd.workspaces@.len() && k != i && k != bd.workspace_idx ==> ad.workspaces@[k] == bd.workspaces@[k]
                    &&& r == seq![Action::Hide { hwnd: bd.cur().windows@[idx].hwnd }] + applied(ad.cur(), None, fl)
                }
                &&& i == bd.workspace_idx || bd.cur().windows@.len() == 0 ==> ad == bd && r.len() == 0
            },
            SocketMessage::MoveWindowToWorkspaceAndFollow(i) => {
                &&& desktop_frame(before, after, d)
                &&& ad.workspace_idx == i
                &&& follow_post(bd, ad, i, fl, r)
            },
            SocketMessage::Stop => after == before && r == display_restores(before.displays@, len as nat) + seq![Action::Exit],
        }
    }
}

proof fn lemma_others_wf(before: Seq<Display>, after: Seq<Display>, d: int)
    requires
        after.len() == before.len(),
        0 <= d < before.len(),
        after[d].wf(),
        forall|k: int| 0 <= k < before.len() ==> #[trigger] before[k].wf(),
        forall|k: int| 0 <= k < before.len() && k != d ==> after[k] == before[k],
    ensures
        forall|k: int| 0 <= k < after.len() ==> #[trigger] after[k].wf(),
{
    assert forall|k: int| 0 <= k < after.len() implies #[trigger] after[k].wf() by {
        if k != d {
            assert(after[k] == before[k]);
        }
    }
}

impl Desktop {
    /// Restoring every tracked window, then stopping.
    pub fn stop_actions(&self) -> (r: Vec<Action>)
        ensures
            r@ == display_restores(self.displays@, self.displays@.len()) + seq![Action::Exit],
    {
        let mut out: Vec<Action> = Vec::new();
        let mut i: usize = 0;
        while i < self.displays.len()
            invariant
                i <= self.displays@.len(),
                out@ == display_restores(self.displays@, i as nat),
            decreases self.displays@.len() - i,
        {
            let wss = &self.displays[i].workspaces;
            let ghost base = out@;
            let mut k: usize = 0;
            while k < wss.len()
                invariant
                    i < self.displays@.len(),
                    *wss == self.displays@[i as int].workspaces,
                    k <= wss@.len(),
                    out@ == base + workspace_restores(wss@, k as nat),
                decreases wss@.len() - k,
            {
                let ws = &wss[k].windows;
                let ghost inner = out@;
                let mut j: usize = 0;
                while j < ws.len()
                    invariant
                        k < wss@.len(),
                        *ws == wss@[k as int].windows,
                        j <= ws@.len(),
                        out@ == inner + ws@.take(j as int).map_values(|w: Window| Action::Restore { hwnd: w.hwnd }),
                    decreases ws@.len() - j,
                {
                    out.push(Action::Restore { hwnd: ws[j].hwnd });
                    j = j + 1;
                    proof {
                        assert(out@ =~= inner + ws@.take(j as int).map_values(|w: Window| Action::Restore { hwnd: w.hwnd }));
                    }
                }
                k = k + 1;
                proof {
                    assert(ws@.take(j as int) =~= ws@);
                    assert(out@ =~= base + workspace_restores(wss@, k as nat));
                }
            }
            i = i + 1;
            proof {
                assert(out@ =~= display_restores(self.displays@, i as nat));
            }
        }
        out.push(Action::Exit);
        out
    }

    /// Handles one control command on the display under the cursor.
    #[verifier::rlimit(80)]
    pub fn handle_socket_message(&mut self, msg: SocketMessage, ctx: &CommandContext) -> (r: Vec<Action>)
        requires
            old(self).wf(),
        ensures
            final(self).wf(),
            command_post(*old(self), *final(self), msg, *ctx, r@),
    {
        let is_pause = match msg {
            SocketMessage::TogglePause => true,
            _ => false,
        };
        if self.paused && !is_pause {
            return Vec::new();
        }
        let d = self.get_active_display_idx(ctx.active_monitor);
        let fl = &ctx.floated;
        let ghost before = self.displays@;
        assert(self.displays@[d as int].wf());
        let out = match msg {
            SocketMessage::FocusWindow(dir) => self.displays[d].window_op(DirectionOperation::Focus, dir, fl),
            SocketMessage::MoveWindow(dir) => self.displays[d].window_op(DirectionOperation::Move, dir, fl),
            SocketMessage::Promote => self.displays[d].promote_foreground(fl),
            SocketMessage::Retile => self.displays[d].retile(ctx.foreground, fl),
            SocketMessage::Layout(l) => self.displays[d].set_layout(l, fl),
            SocketMessage::CycleLayout(dir) => self.displays[d].cycle_layout(dir, fl),
            SocketMessage::GapSize(n) => self.displays[d].set_gaps(n, fl),
            SocketMessage::AdjustGaps(sizing) => self.displays[d].adjust_gaps(sizing, fl),
            SocketMessage::PaddingSize(n) => self.displays[d].set_padding(n, fl),
            SocketMessage::ResizeWindow(edge, sizing) => self.displays[d].resize_command(edge, sizing, fl),
            SocketMessage::ToggleFloat => self.displays[d].toggle_float(fl),
            SocketMessage::ToggleMonocle => self.displays[d].toggle_monocle(&mut self.last_layout, fl),
            SocketMessage::TogglePause => {
                self.paused = !self.paused;
                Vec::new()
            },
            SocketMessage::FloatClass(c) => {
                self.rules.float_class(c);
                Vec::new()
            },
            SocketMessage::FloatExe(e) => {
                self.rules.float_exe(e);
                Vec::new()
            },
            SocketMessage::FloatTitle(t) => {
                self.rules.float_title(t);
                Vec::new()
            },
            SocketMessage::FocusDisplay(dir) => self.focus_display(d, dir),
            SocketMessage::FocusDisplayNumber(n) => self.focus_display_number(n),
            SocketMessage::MoveWindowToDisplay(dir) => {
                if self.displays[d].workspaces[self.displays[d].workspace_idx].windows.len() > 0 {
                    let idx = self.displays[d].get_foreground_window_index();
                    self.move_window_to_display(idx, d, dir, fl)
                } else {
                    Vec::new()
                }
            },
            SocketMessage::MoveWindowToDisplayNumber(n) => {
                if self.displays[d].workspaces[self.displays[d].workspace_idx].windows.len() > 0 {
                    let idx = self.displays[d].get_foreground_window_index();
                    self.move_window_to_display_number(idx, d, n, fl)
                } else {
                    Vec::new()
                }
            },
            SocketMessage::SetWorkspace(i) => self.displays[d].set_workspace(i, fl),
            SocketMessage::MoveWindowToWorkspace(i) => {
                let idx = self.displays[d].get_foreground_window_index();
                self.displays[d].move_window_to_workspace(i, idx, fl)
            },
            SocketMessage::MoveWindowToWorkspaceAndFollow(i) => self.displays[d].move_window_to_workspace_and_follow(i, fl),
            SocketMessage::Stop => self.stop_actions(),
        };
        proof {
            if self.displays@.len() == before.len() && self.displays@[d as int].wf()
                && forall|k: int| 0 <= k < before.len() && k != d ==> self.displays@[k] == before[k] {
                lemma_others_wf(before, self.displays@, d as int);
            }
        }
        out
    }
}

} // verus!
