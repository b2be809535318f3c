use yatta::desktop::{order_displays, Desktop, Display};
use yatta::rect::Rect;
use yatta::window::{Window, WindowInfo};
use yatta::windows_event::{normalise_event, WinEventCode, WindowsEventType};

fn r(x: i32, y: i32, width: i32, height: i32) -> Rect {
    Rect { x, y, width, height }
}

fn win(h: isize, m: isize) -> Window {
    Window { hwnd: h, hmonitor: m, tile: true, resize: None }
}

#[test]
fn displays_ordered_by_position() {
    let ds = vec![
        Display::new(1, r(0, 0, 100, 100), 0),
        Display::new(2, r(1920, 0, 100, 100), 0),
        Display::new(3, r(0, 1080, 100, 100), 0),
        Display::new(4, r(1920, 0, 50, 50), 0),
    ];
    let ordered: Vec<isize> = order_displays(ds).iter().map(|d| d.hmonitor).collect();
    assert_eq!(ordered, vec![2, 4, 3, 1]);
}

#[test]
fn populate_assigns_windows_by_monitor() {
    let mut d = Desktop::new(vec![Display::new(1, r(0, 0, 100, 100), 0), Display::new(2, r(100, 0, 100, 100), 0)]);
    d.populate(&vec![win(10, 2), win(11, 1), win(12, 2)]);
    let first: Vec<isize> = d.displays[0].workspaces[0].windows.iter().map(|w| w.hwnd).collect();
    let second: Vec<isize> = d.displays[1].workspaces[0].windows.iter().map(|w| w.hwnd).collect();
    assert_eq!(first, vec![11]);
    assert_eq!(second, vec![10, 12]);
}

#[test]
fn stale_windows_are_discarded() {
    let mut d = Desktop::new(vec![Display::new(1, r(0, 0, 100, 100), 0)]);
    d.populate(&vec![win(10, 1), win(11, 1), win(12, 1)]);
    d.discard_windows(&vec![11, 99]);
    let left: Vec<isize> = d.displays[0].workspaces[0].windows.iter().map(|w| w.hwnd).collect();
    assert_eq!(left, vec![10, 12]);
}

#[test]
fn name_change_counts_as_show_for_some_programs() {
    assert_eq!(normalise_event(WinEventCode::ObjectNameChange, Some("firefox.exe")), Some(WindowsEventType::Show));
    assert_eq!(normalise_event(WinEventCode::ObjectNameChange, Some("idea64.exe")), Some(WindowsEventType::Show));
    assert_eq!(normalise_event(WinEventCode::ObjectNameChange, Some("notepad.exe")), None);
    assert_eq!(normalise_event(WinEventCode::ObjectNameChange, None), None);
    assert_eq!(normalise_event(WinEventCode::ObjectHide, Some("firefox.exe")), Some(WindowsEventType::Hide));
}

#[test]
fn border_and_activity_from_window_info() {
    let info = WindowInfo {
        window_rect: r(-7, 0, 1014, 807),
        client_rect: r(0, 0, 1000, 800),
        styles: 0,
        extended_styles: 0,
        window_status: 1,
        x_borders: 0,
        y_borders: 0,
    };
    let w = Window::default();
    assert_eq!(w.transparent_border(&info), (7, 7));
    assert!(w.is_active(&info));
    assert!(!w.is_active(&WindowInfo { window_status: 0, ..info }));
}

#[test]
fn calculate_and_apply_all_displays() {
    let mut d = Desktop::new(vec![Display::new(1, r(0, 0, 100, 100), 0), Display::new(2, r(100, 0, 100, 100), 0)]);
    d.populate(&vec![win(10, 1), win(20, 2)]);
    d.calculate_layouts(&vec![20]);
    let actions = d.apply_layouts(None, &vec![20]);
    assert_eq!(d.displays[0].workspaces[0].layout_dimensions, vec![r(5, 5, 90, 90)]);
    assert!(d.displays[1].workspaces[0].layout_dimensions.is_empty());
    assert_eq!(actions.len(), 1);
}
