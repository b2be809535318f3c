use yatta::protocol::{CycleDirection, Layout};
use yatta::rect::Rect;
use yatta::window::{contains_substring, exe_name_from_path, nullable_to_result, FloatRules, NullResult, Window, WindowFacts, WS_CAPTION, WS_EX_DLGMODALFRAME, WS_EX_LAYERED, WS_EX_WINDOWEDGE};
use yatta::windows_event::{WinEventCode, WindowsEventType};

#[test]
fn layout_cycle_wraps_after_five() {
    let mut l = Layout::BSPV;
    let mut seen = vec![];
    for _ in 0..5 {
        l.next();
        seen.push(l);
    }
    assert_eq!(seen, vec![Layout::BSPH, Layout::Columns, Layout::Rows, Layout::Monocle, Layout::BSPV]);
}

#[test]
fn layout_previous_undoes_next() {
    for start in [Layout::BSPV, Layout::BSPH, Layout::Columns, Layout::Rows, Layout::Monocle] {
        let mut l = start;
        l.next();
        l.previous();
        assert_eq!(l, start);
        l.previous();
        l.next();
        assert_eq!(l, start);
    }
    let mut l = Layout::BSPV;
    l.previous();
    assert_eq!(l, Layout::Monocle);
    let _ = CycleDirection::Next;
}

#[test]
fn contains_point_includes_edges() {
    let r = Rect { x: 10, y: 10, width: 100, height: 50 };
    assert!(r.contains_point((10, 10)));
    assert!(r.contains_point((110, 60)));
    assert!(!r.contains_point((111, 60)));
    assert!(!r.contains_point((9, 20)));
}

#[test]
fn zero_and_border() {
    let mut r = Rect::zero();
    assert_eq!(r, Rect { x: 0, y: 0, width: 0, height: 0 });
    r.adjust_for_border((7, 4));
    assert_eq!(r, Rect { x: -7, y: 0, width: 14, height: 4 });
}

#[test]
fn shrink_and_offset() {
    let r = Rect { x: 0, y: 0, width: 100, height: 80 };
    assert_eq!(r.shrink(5), Rect { x: 5, y: 5, width: 90, height: 70 });
    assert_eq!(r.offset(Rect { x: 1, y: 2, width: 3, height: 4 }), Rect { x: 1, y: 2, width: 103, height: 84 });
}

#[test]
fn exe_name_is_after_last_backslash() {
    assert_eq!(exe_name_from_path("C:\\Program Files\\App\\app.exe"), "app.exe");
    assert_eq!(exe_name_from_path("plain.exe"), "plain.exe");
    assert_eq!(exe_name_from_path("C:\\dir\\"), "");
}

#[test]
fn substring_search() {
    assert!(contains_substring("Mozilla Firefox", "Fire"));
    assert!(contains_substring("abc", ""));
    assert!(!contains_substring("abc", "abcd"));
    assert!(!contains_substring("Notepad", "pads"));
}

#[test]
fn nullable_zero_is_error() {
    assert_eq!(nullable_to_result(0), Err(NullResult));
    assert_eq!(nullable_to_result(42), Ok(42));
}

fn facts(title: Option<&str>, class: Option<&str>, exe: Option<&str>) -> WindowFacts {
    WindowFacts {
        title: title.map(|t| t.to_string()),
        class: class.map(|c| c.to_string()),
        exe_path: exe.map(|e| e.to_string()),
        cloaked: false,
        style: Some(WS_CAPTION),
        ex_style: Some(WS_EX_WINDOWEDGE),
    }
}

#[test]
fn rules_float_by_class_exe_and_title() {
    let w = Window { hwnd: 1, hmonitor: 1, tile: true, resize: None };
    let mut rules = FloatRules::new();
    let f = facts(Some("Calculator - Main"), Some("ApplicationFrame"), Some("C:\\Win\\calc.exe"));
    assert!(w.should_tile(&rules, &f));
    rules.float_title("Main".to_string());
    assert!(!w.should_tile(&rules, &f));
    let mut rules = FloatRules::new();
    rules.float_exe("calc.exe".to_string());
    assert!(!w.should_tile(&rules, &f));
    let mut rules = FloatRules::new();
    rules.float_class("ApplicationFrame".to_string());
    rules.float_class("ApplicationFrame".to_string());
    assert_eq!(rules.classes.len(), 1);
    assert!(!w.should_tile(&rules, &f));
    let floating = Window { tile: false, ..w };
    assert!(!floating.should_tile(&FloatRules::new(), &f));
}

#[test]
fn manage_predicate() {
    let w = Window::default();
    let good = facts(Some("Editor"), None, Some("C:\\x\\editor.exe"));
    assert!(w.should_manage(&good, None));
    assert!(!w.should_manage(&facts(None, None, Some("C:\\x\\editor.exe")), None));
    let cloaked = WindowFacts { cloaked: true, ..good.clone() };
    assert!(!w.should_manage(&cloaked, Some(WindowsEventType::Show)));
    assert!(w.should_manage(&cloaked, Some(WindowsEventType::Hide)));
    let dialog = WindowFacts { ex_style: Some(WS_EX_WINDOWEDGE | WS_EX_DLGMODALFRAME), ..good.clone() };
    assert!(!w.should_manage(&dialog, None));
    let layered = WindowFacts { ex_style: Some(WS_EX_WINDOWEDGE | WS_EX_LAYERED), ..good.clone() };
    assert!(!w.should_manage(&layered, None));
    let steam = WindowFacts { exe_path: Some("C:\\Steam\\steam.exe".to_string()), ..layered };
    assert!(w.should_manage(&steam, None));
    let no_caption = WindowFacts { style: Some(0), ..good };
    assert!(!w.should_manage(&no_caption, None));
}

#[test]
fn window_index_by_handle() {
    let a = Window { hwnd: 1, hmonitor: 0, tile: true, resize: None };
    let b = Window { hwnd: 2, hmonitor: 0, tile: false, resize: None };
    let list = [a, b];
    assert_eq!(b.index(&list), Some(1));
    assert_eq!(Window { hwnd: 3, ..a }.index(&list), None);
    assert!(a == Window { tile: false, ..a });
}

#[test]
fn toggle_float_flips_tile() {
    let mut w = Window::default();
    w.toggle_float();
    assert!(!w.tile);
    w.toggle_float();
    assert!(w.tile);
}

#[test]
fn event_codes_map_to_types() {
    assert_eq!(WindowsEventType::from_event_code(WinEventCode::ObjectDestroy), Some(WindowsEventType::Destroy));
    assert_eq!(WindowsEventType::from_event_code(WinEventCode::SystemMinimizeStart), Some(WindowsEventType::Hide));
    assert_eq!(WindowsEventType::from_event_code(WinEventCode::ObjectUncloaked), Some(WindowsEventType::Show));
    assert_eq!(WindowsEventType::from_event_code(WinEventCode::SystemForeground), Some(WindowsEventType::FocusChange));
    assert_eq!(WindowsEventType::from_event_code(WinEventCode::SystemMoveSizeEnd), Some(WindowsEventType::MoveResizeEnd));
    assert_eq!(WindowsEventType::from_event_code(WinEventCode::ObjectNameChange), None);
}

#[test]
fn event_code_values_round_trip() {
    assert_eq!(WinEventCode::ObjectShow.value(), 0x8002);
    assert_eq!(WinEventCode::from_u32(0x0003), Some(WinEventCode::SystemForeground));
    assert_eq!(WinEventCode::from_u32(0x1234), None);
}

#[test]
fn empty_title_is_not_managed() {
    let w = Window::default();
    let empty = facts(Some(""), None, Some("C:\\x\\editor.exe"));
    assert!(!w.should_manage(&empty, None));
}
