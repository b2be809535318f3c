use yatta::commands::CommandContext;
use yatta::desktop::{Desktop, Display};
use yatta::layout::compute_layout;
use yatta::machine::{resize_operations, EventContext, ResizeOp};
use yatta::protocol::{CycleDirection, Layout, OperationDirection, ResizeEdge, Sizing, SocketMessage};
use yatta::rect::Rect;
use yatta::window::Window;
use yatta::windows_event::{WinEventCode, WindowsEvent, WindowsEventType};
use yatta::workspace::{Action, ZOrder};

fn r(x: i32, y: i32, width: i32, height: i32) -> Rect {
    Rect { x, y, width, height }
}

fn win(h: isize) -> Window {
    Window { hwnd: h, hmonitor: 1, tile: true, resize: None }
}

fn desktop() -> Desktop {
    Desktop::new(vec![Display::new(1, r(0, 0, 1000, 800), 0)])
}

fn ectx() -> EventContext {
    EventContext { active_monitor: 1, cursor_x: 0, cursor_y: 0, window_rect: r(0, 0, 0, 0), floated: vec![] }
}

fn cctx(fg: isize) -> CommandContext {
    CommandContext { active_monitor: 1, foreground: win(fg), floated: vec![] }
}

fn event(kind: WindowsEventType, code: WinEventCode, h: isize) -> WindowsEvent {
    WindowsEvent { event_type: kind, event_code: code, window: win(h), title: None }
}

fn show(d: &mut Desktop, h: isize) -> Vec<Action> {
    d.handle_windows_event(&event(WindowsEventType::Show, WinEventCode::ObjectShow, h), &ectx())
}

fn focus(d: &mut Desktop, h: isize) -> Vec<Action> {
    d.handle_windows_event(&event(WindowsEventType::FocusChange, WinEventCode::SystemForeground, h), &ectx())
}

fn handles(d: &Desktop) -> Vec<isize> {
    d.displays[0].workspaces[0].windows.iter().map(|w| w.hwnd).collect()
}

fn three_windows() -> Desktop {
    let mut d = desktop();
    show(&mut d, 10);
    show(&mut d, 20);
    focus(&mut d, 20);
    show(&mut d, 30);
    d
}

#[test]
fn show_inserts_after_focused_window() {
    let mut d = desktop();
    show(&mut d, 10);
    show(&mut d, 20);
    focus(&mut d, 20);
    assert_eq!(handles(&d), vec![10, 20]);
    let actions = show(&mut d, 30);
    assert_eq!(handles(&d), vec![10, 20, 30]);
    let dims = d.displays[0].workspaces[0].layout_dimensions.clone();
    assert_eq!(dims, vec![r(5, 5, 990, 390), r(5, 405, 490, 390), r(505, 405, 490, 390)]);
    assert_eq!(actions.len(), 3);
    assert_eq!(
        actions[2],
        Action::SetPosition { hwnd: 30, rect: r(505, 405, 490, 390), z: ZOrder::Bottom, keep_geometry: false }
    );
}

#[test]
fn show_takes_over_displaced_override() {
    let mut d = three_windows();
    focus(&mut d, 10);
    d.displays[0].workspaces[0].windows[1].resize = Some(r(0, 0, 40, 0));
    show(&mut d, 40);
    assert_eq!(handles(&d), vec![10, 40, 20, 30]);
    assert_eq!(d.displays[0].workspaces[0].windows[1].resize, Some(r(0, 0, 40, 0)));
    assert_eq!(d.displays[0].workspaces[0].windows[2].resize, None);
}

#[test]
fn duplicate_show_is_ignored() {
    let mut d = three_windows();
    let actions = show(&mut d, 20);
    assert!(actions.is_empty());
    assert_eq!(handles(&d), vec![10, 20, 30]);
}

#[test]
fn destroy_reassigns_focus() {
    let mut d = three_windows();
    let actions = d.handle_windows_event(&event(WindowsEventType::Destroy, WinEventCode::ObjectDestroy, 20), &ectx());
    assert_eq!(handles(&d), vec![10, 30]);
    assert_eq!(
        actions[0],
        Action::SetPosition { hwnd: 10, rect: r(5, 5, 990, 390), z: ZOrder::Bottom, keep_geometry: true }
    );
    assert_eq!(
        actions[1],
        Action::SetPosition { hwnd: 30, rect: r(5, 405, 990, 390), z: ZOrder::Bottom, keep_geometry: false }
    );
}

#[test]
fn hide_hands_override_to_successor() {
    let mut d = three_windows();
    d.displays[0].workspaces[0].windows[1].resize = Some(r(0, 0, 0, 25));
    d.handle_windows_event(&event(WindowsEventType::Hide, WinEventCode::ObjectHide, 20), &ectx());
    assert_eq!(handles(&d), vec![10, 30]);
    assert_eq!(d.displays[0].workspaces[0].windows[1].resize, Some(r(0, 0, 0, 25)));
}

#[test]
fn focus_of_untracked_window_is_ignored() {
    let mut d = three_windows();
    let actions = focus(&mut d, 99);
    assert!(actions.is_empty());
    assert_eq!(d.displays[0].workspaces[0].foreground_window.hwnd, 20);
}

#[test]
fn directional_move_left_from_bottom_right() {
    let mut d = three_windows();
    focus(&mut d, 30);
    let actions = d.handle_socket_message(SocketMessage::MoveWindow(OperationDirection::Left), &cctx(30));
    assert_eq!(handles(&d), vec![10, 30, 20]);
    assert!(!actions.is_empty());
}

#[test]
fn directional_up_from_second_slot_is_a_no_op() {
    let mut d = three_windows();
    focus(&mut d, 20);
    let actions = d.handle_socket_message(SocketMessage::MoveWindow(OperationDirection::Up), &cctx(20));
    assert!(actions.is_empty());
    assert_eq!(handles(&d), vec![10, 20, 30]);
}

#[test]
fn focus_next_wraps_and_moves_cursor() {
    let mut d = three_windows();
    focus(&mut d, 30);
    let actions = d.handle_socket_message(SocketMessage::FocusWindow(OperationDirection::Next), &cctx(30));
    assert_eq!(actions, vec![Action::SetForeground { hwnd: 10 }, Action::SetCursor { x: 500, y: 200 }]);
    assert_eq!(handles(&d), vec![10, 20, 30]);
}

#[test]
fn toggle_float_centres_window() {
    let mut d = three_windows();
    focus(&mut d, 20);
    let actions = d.handle_socket_message(SocketMessage::ToggleFloat, &cctx(20));
    let n = actions.len();
    assert_eq!(
        actions[n - 2],
        Action::SetPosition { hwnd: 20, rect: r(250, 200, 500, 400), z: ZOrder::Bottom, keep_geometry: false }
    );
    assert_eq!(actions[n - 1], Action::SetCursor { x: 500, y: 400 });
    assert_eq!(d.displays[0].workspaces[0].layout_dimensions.len(), 2);
}

#[test]
fn retile_restores_balanced_layout() {
    let mut d = three_windows();
    focus(&mut d, 20);
    d.handle_socket_message(SocketMessage::ResizeWindow(ResizeEdge::Right, Sizing::Increase), &cctx(20));
    let resized = d.displays[0].workspaces[0].layout_dimensions.clone();
    assert_ne!(resized, compute_layout(r(0, 0, 1000, 800), 3, Layout::BSPV, 5, &vec![]));
    d.handle_socket_message(SocketMessage::Retile, &cctx(20));
    assert_eq!(
        d.displays[0].workspaces[0].layout_dimensions,
        compute_layout(r(0, 0, 1000, 800), 3, Layout::BSPV, 5, &vec![])
    );
    assert!(d.displays[0].workspaces[0].windows.iter().all(|w| w.resize.is_none()));
}

#[test]
fn resize_command_applies_step() {
    let mut d = three_windows();
    focus(&mut d, 20);
    d.handle_socket_message(SocketMessage::ResizeWindow(ResizeEdge::Right, Sizing::Increase), &cctx(20));
    assert_eq!(d.displays[0].workspaces[0].windows[1].resize, Some(r(0, 0, 50, 0)));
    assert_eq!(d.displays[0].workspaces[0].layout_dimensions[1], r(5, 405, 540, 390));
    assert_eq!(d.displays[0].workspaces[0].layout_dimensions[2], r(505, 405, 490, 390));
}

#[test]
fn layout_change_clears_overrides() {
    let mut d = three_windows();
    d.displays[0].workspaces[0].windows[0].resize = Some(r(0, 0, 30, 0));
    d.handle_socket_message(SocketMessage::CycleLayout(CycleDirection::Next), &cctx(10));
    assert_eq!(d.displays[0].workspaces[0].layout, Layout::BSPH);
    assert!(d.displays[0].workspaces[0].windows.iter().all(|w| w.resize.is_none()));
    d.handle_socket_message(SocketMessage::Layout(Layout::Columns), &cctx(10));
    assert_eq!(d.displays[0].workspaces[0].layout_dimensions[2], r(671, 5, 323, 790));
}

#[test]
fn gaps_adjust_with_floor_at_zero() {
    let mut d = three_windows();
    d.handle_socket_message(SocketMessage::GapSize(1), &cctx(10));
    assert_eq!(d.displays[0].gaps, 1);
    d.handle_socket_message(SocketMessage::AdjustGaps(Sizing::Decrease), &cctx(10));
    d.handle_socket_message(SocketMessage::AdjustGaps(Sizing::Decrease), &cctx(10));
    assert_eq!(d.displays[0].gaps, 0);
    d.handle_socket_message(SocketMessage::AdjustGaps(Sizing::Increase), &cctx(10));
    assert_eq!(d.displays[0].gaps, 1);
    assert_eq!(d.displays[0].workspaces[0].layout_dimensions[0], r(1, 1, 998, 398));
}

#[test]
fn monocle_toggle_remembers_layout() {
    let mut d = three_windows();
    d.handle_socket_message(SocketMessage::Layout(Layout::Rows), &cctx(10));
    let actions = d.handle_socket_message(SocketMessage::ToggleMonocle, &cctx(10));
    assert_eq!(d.displays[0].workspaces[0].layout, Layout::Monocle);
    assert_eq!(actions, vec![Action::PlaceForeground { rect: r(5, 5, 990, 790) }]);
    d.handle_socket_message(SocketMessage::ToggleMonocle, &cctx(10));
    assert_eq!(d.displays[0].workspaces[0].layout, Layout::Rows);
}

#[test]
fn promote_moves_focus_first() {
    let mut d = three_windows();
    focus(&mut d, 30);
    d.handle_socket_message(SocketMessage::Promote, &cctx(30));
    assert_eq!(handles(&d), vec![30, 10, 20]);
}

#[test]
fn pause_freezes_model() {
    let mut d = three_windows();
    d.handle_socket_message(SocketMessage::TogglePause, &cctx(10));
    assert!(d.paused);
    let actions = d.handle_socket_message(SocketMessage::Promote, &cctx(30));
    assert!(actions.is_empty());
    let actions = show(&mut d, 50);
    assert!(actions.is_empty());
    assert_eq!(handles(&d), vec![10, 20, 30]);
    d.handle_socket_message(SocketMessage::TogglePause, &cctx(10));
    assert!(!d.paused);
}

#[test]
fn float_rules_append_once() {
    let mut d = desktop();
    d.handle_socket_message(SocketMessage::FloatExe("calc.exe".to_string()), &cctx(0));
    d.handle_socket_message(SocketMessage::FloatExe("calc.exe".to_string()), &cctx(0));
    d.handle_socket_message(SocketMessage::FloatTitle("Settings".to_string()), &cctx(0));
    assert_eq!(d.rules.exes, vec!["calc.exe".to_string()]);
    assert_eq!(d.rules.titles, vec!["Settings".to_string()]);
}

#[test]
fn stop_restores_every_window() {
    let d0 = three_windows();
    let mut d = d0.clone();
    let actions = d.handle_socket_message(SocketMessage::Stop, &cctx(10));
    assert_eq!(
        actions,
        vec![
            Action::Restore { hwnd: 10 },
            Action::Restore { hwnd: 20 },
            Action::Restore { hwnd: 30 },
            Action::Exit
        ]
    );
}

#[test]
fn moves_between_displays() {
    let mut d = Desktop::new(vec![Display::new(1, r(0, 0, 1000, 800), 0), Display::new(2, r(1000, 0, 1000, 800), 0)]);
    show(&mut d, 10);
    show(&mut d, 20);
    focus(&mut d, 20);
    d.handle_socket_message(SocketMessage::MoveWindowToDisplay(CycleDirection::Next), &cctx(20));
    assert_eq!(handles(&d), vec![10]);
    assert_eq!(d.displays[1].workspaces[0].windows[0].hwnd, 20);
    let actions = d.handle_socket_message(SocketMessage::FocusDisplayNumber(2), &cctx(10));
    assert_eq!(actions[0], Action::SetForeground { hwnd: 20 });
    let empty = Desktop::new(vec![Display::new(1, r(0, 0, 1000, 800), 0), Display::new(2, r(1000, 0, 1000, 800), 0)]);
    let actions = empty.focus_display(0, CycleDirection::Next);
    assert_eq!(actions, vec![Action::SetCursor { x: 1500, y: 400 }, Action::Click]);
}

#[test]
fn workspaces_are_created_on_demand() {
    let mut d = three_windows();
    focus(&mut d, 30);
    d.handle_socket_message(SocketMessage::MoveWindowToWorkspace(2), &cctx(30));
    assert_eq!(d.displays[0].workspaces.len(), 3);
    assert_eq!(d.displays[0].workspaces[2].windows[0].hwnd, 30);
    assert_eq!(handles(&d), vec![10, 20]);
    let actions = d.handle_socket_message(SocketMessage::SetWorkspace(2), &cctx(10));
    assert_eq!(d.displays[0].workspace_idx, 2);
    assert_eq!(actions[0], Action::Hide { hwnd: 10 });
    let again = show(&mut d, 10);
    assert_eq!(again, vec![Action::Hide { hwnd: 10 }]);
}

#[test]
fn drag_without_resize_swaps_with_window_under_cursor() {
    let mut d = three_windows();
    let ctx = EventContext { active_monitor: 1, cursor_x: 700, cursor_y: 600, window_rect: r(5, 5, 990, 390), floated: vec![] };
    d.handle_windows_event(&event(WindowsEventType::MoveResizeEnd, WinEventCode::SystemMoveSizeEnd, 10), &ctx);
    assert_eq!(handles(&d), vec![30, 20, 10]);
}

#[test]
fn drag_resize_of_right_edge() {
    let mut d = three_windows();
    focus(&mut d, 20);
    let ctx = EventContext { active_monitor: 1, cursor_x: 0, cursor_y: 0, window_rect: r(5, 405, 510, 390), floated: vec![] };
    d.handle_windows_event(&event(WindowsEventType::MoveResizeEnd, WinEventCode::SystemMoveSizeEnd, 20), &ctx);
    assert_eq!(d.displays[0].workspaces[0].windows[1].resize, Some(r(0, 0, 40, 0)));
    assert_eq!(d.displays[0].workspaces[0].layout_dimensions[1], r(5, 405, 530, 390));
}

#[test]
fn drag_start_keeps_tiled_position() {
    let mut d = three_windows();
    let actions = d.handle_windows_event(&event(WindowsEventType::MoveResizeStart, WinEventCode::SystemMoveSizeStart, 20), &ectx());
    assert_eq!(actions, vec![Action::SetPosition { hwnd: 20, rect: r(5, 405, 490, 390), z: ZOrder::Keep, keep_geometry: false }]);
}

#[test]
fn drag_deltas_to_edge_operations() {
    assert_eq!(
        resize_operations(r(-10, 0, 10, 0)),
        vec![ResizeOp { edge: ResizeEdge::Left, sizing: Sizing::Increase, step: 20 }]
    );
    assert_eq!(
        resize_operations(r(0, 0, -15, 8)),
        vec![
            ResizeOp { edge: ResizeEdge::Right, sizing: Sizing::Decrease, step: 30 },
            ResizeOp { edge: ResizeEdge::Bottom, sizing: Sizing::Increase, step: 16 }
        ]
    );
    assert_eq!(
        resize_operations(r(0, 12, 0, -12)),
        vec![ResizeOp { edge: ResizeEdge::Top, sizing: Sizing::Decrease, step: 24 }]
    );
}

#[test]
fn active_display_by_monitor() {
    let d = Desktop::new(vec![Display::new(7, r(0, 0, 10, 10), 0), Display::new(9, r(10, 0, 10, 10), 0)]);
    assert_eq!(d.get_active_display_idx(9), 1);
    assert_eq!(d.get_active_display_idx(3), 0);
}

#[test]
fn padding_shrinks_area() {
    let d = Display::new(1, r(0, 0, 1000, 800), 20);
    assert_eq!(d.get_dimensions(), r(20, 20, 960, 760));
}

#[test]
fn move_to_display_follows_with_cursor() {
    let mut d = Desktop::new(vec![Display::new(1, r(0, 0, 1000, 800), 0), Display::new(2, r(1000, 0, 1000, 800), 0)]);
    show(&mut d, 10);
    show(&mut d, 20);
    focus(&mut d, 20);
    let actions = d.handle_socket_message(SocketMessage::MoveWindowToDisplayNumber(2), &cctx(20));
    assert_eq!(actions.last(), Some(&Action::SetCursor { x: 1500, y: 400 }));
    assert_eq!(d.displays[1].workspaces[0].layout_dimensions, vec![r(1005, 5, 990, 790)]);
}

#[test]
fn move_to_existing_workspace_puts_window_first() {
    let mut d = three_windows();
    focus(&mut d, 30);
    d.handle_socket_message(SocketMessage::MoveWindowToWorkspace(1), &cctx(30));
    focus(&mut d, 20);
    d.handle_socket_message(SocketMessage::MoveWindowToWorkspace(1), &cctx(20));
    let target: Vec<isize> = d.displays[0].workspaces[1].windows.iter().map(|w| w.hwnd).collect();
    assert_eq!(target, vec![20, 30]);
    assert_eq!(handles(&d), vec![10]);
    d.handle_socket_message(SocketMessage::MoveWindowToWorkspaceAndFollow(1), &cctx(10));
    assert_eq!(d.displays[0].workspace_idx, 1);
    let now: Vec<isize> = d.displays[0].workspaces[1].windows.iter().map(|w| w.hwnd).collect();
    assert_eq!(now, vec![10, 20, 30]);
    assert!(d.displays[0].workspaces[0].windows.is_empty());
}
