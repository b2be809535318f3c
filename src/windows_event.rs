//! Normalised window events and the raw event codes they come from.
use crate::window::Window;
use vstd::prelude::*;

verus! {

/// The window lifecycle events the state machine reacts to.
#[derive(Clone, Copy, Debug, PartialEq, Eq, Structural)]
pub enum WindowsEventType {
    Destroy,
    FocusChange,
    Hide,
    Show,
    MoveResizeStart,
    MoveResizeEnd,
}

/// The raw accessibility event codes delivered by the OS hook.
#[derive(Clone, Copy, Debug, PartialEq, Eq, Structural)]
pub enum WinEventCode {
    ObjectAcceleratorChange,
    ObjectCloaked,
    ObjectContentScrolled,
    ObjectCreate,
    ObjectDefActionChange,
    ObjectDescriptionChange,
    ObjectDestroy,
    ObjectDragStart,
    ObjectDragCancel,
    ObjectDragComplete,
    ObjectDragEnter,
    ObjectDragLeave,
    ObjectDragDropped,
    ObjectEnd,
    ObjectFocus,
    ObjectHelpChange,
    ObjectHide,
    ObjectHostedObjectsInvalidated,
    ObjectImeHide,
    ObjectImeShow,
    ObjectImeChange,
    ObjectInvoked,
    ObjectLiveRegionChanged,
    ObjectLocationChange,
    ObjectNameChange,
    ObjectParentChange,
    ObjectReorder,
    ObjectSelection,
    ObjectSelectionAdd,
    ObjectSelectionRemove,
    ObjectSelectionWithin,
    ObjectShow,
    ObjectStateChange,
    ObjectTextEditConversionTargetChanged,
    ObjectTextSelectionChanged,
    ObjectUncloaked,
    ObjectValueChange,
    SystemAlert,
    SystemArrangementPreview,
    SystemCaptureEnd,
    SystemCaptureStart,
    SystemContextHelpEnd,
    SystemContextHelpStart,
    SystemDesktopSwitch,
    SystemDialogEnd,
    SystemDialogStart,
    SystemDragDropEnd,
    SystemDragDropStart,
    SystemEnd,
    SystemForeground,
    SystemMenuPopupEnd,
    SystemMenuPopupStart,
    SystemMenuEnd,
    SystemMenuStart,
    SystemMinimizeEnd,
    SystemMinimizeStart,
    SystemMoveSizeEnd,
    SystemMoveSizeStart,
    SystemScrollingEnd,
    SystemScrollingStart,
    SystemSound,
    SystemSwitchEnd,
    SystemSwitchStart,
}

/// The numeric value of an event code.
pub open spec fn code_value(c: WinEventCode) -> u32 {
    match c {
        WinEventCode::ObjectAcceleratorChange => 0x8012,
        WinEventCode::ObjectCloaked => 0x8017,
        WinEventCode::ObjectContentScrolled => 0x8015,
        WinEventCode::ObjectCreate => 0x8000,
        WinEventCode::ObjectDefActionChange => 0x8011,
        WinEventCode::ObjectDescriptionChange => 0x800d,
        WinEventCode::ObjectDestroy => 0x8001,
        WinEventCode::ObjectDragStart => 0x8021,
        WinEventCode::ObjectDragCancel => 0x8022,
        WinEventCode::ObjectDragComplete => 0x8023,
        WinEventCode::ObjectDragEnter => 0x8024,
        WinEventCode::ObjectDragLeave => 0x8025,
        WinEventCode::ObjectDragDropped => 0x8026,
        WinEventCode::ObjectEnd => 0x80ff,
        WinEventCode::ObjectFocus => 0x8005,
        WinEventCode::ObjectHelpChange => 0x8010,
        WinEventCode::ObjectHide => 0x8003,
        WinEventCode::ObjectHostedObjectsInvalidated => 0x8020,
        WinEventCode::ObjectImeHide => 0x8028,
        WinEventCode::ObjectImeShow => 0x8027,
        WinEventCode::ObjectImeChange => 0x8029,
        WinEventCode::ObjectInvoked => 0x8013,
        WinEventCode::ObjectLiveRegionChanged => 0x8019,
        WinEventCode::ObjectLocationChange => 0x800b,
        WinEventCode::ObjectNameChange => 0x800c,
        WinEventCode::ObjectParentChange => 0x800f,
        WinEventCode::ObjectReorder => 0x8004,
        WinEventCode::ObjectSelection => 0x8006,
        WinEventCode::ObjectSelectionAdd => 0x8007,
        WinEventCode::ObjectSelectionRemove => 0x8008,
        WinEventCode::ObjectSelectionWithin => 0x8009,
        WinEventCode::ObjectShow => 0x8002,
        WinEventCode::ObjectStateChange => 0x800a,
        WinEventCode::ObjectTextEditConversionTargetChanged => 0x8030,
        WinEventCode::ObjectTextSelectionChanged => 0x8014,
        WinEventCode::ObjectUncloaked => 0x8018,
        WinEventCode::ObjectValueChange => 0x800e,
        WinEventCode::SystemAlert => 0x0002,
        WinEventCode::SystemArrangementPreview => 0x8016,
        WinEventCode::SystemCaptureEnd => 0x0009,
        WinEventCode::SystemCaptureStart => 0x0008,
        WinEventCode::SystemContextHelpEnd => 0x000d,
        WinEventCode::SystemContextHelpStart => 0x000c,
        WinEventCode::SystemDesktopSwitch => 0x0020,
        WinEventCode::SystemDialogEnd => 0x0011,
        WinEventCode::SystemDialogStart => 0x0010,
        WinEventCode::SystemDragDropEnd => 0x000f,
        WinEventCode::SystemDragDropStart => 0x000e,
        WinEventCode::SystemEnd => 0x00ff,
        WinEventCode::SystemForeground => 0x0003,
        WinEventCode::SystemMenuPopupEnd => 0x0007,
        WinEventCode::SystemMenuPopupStart => 0x0006,
        WinEventCode::SystemMenuEnd => 0x0005,
        WinEventCode::SystemMenuStart => 0x0004,
        WinEventCode::SystemMinimizeEnd => 0x0017,
        WinEventCode::SystemMinimizeStart => 0x0016,
        WinEventCode::SystemMoveSizeEnd => 0x000b,
        WinEventCode::SystemMoveSizeStart => 0x000a,
        WinEventCode::SystemScrollingEnd => 0x0013,
        WinEventCode::SystemScrollingStart => 0x0012,
        WinEventCode::SystemSound => 0x0001,
        WinEventCode::SystemSwitchEnd => 0x0015,
        WinEventCode::SystemSwitchStart => 0x0014,
    }
}

impl WinEventCode {
    /// The numeric value the OS uses for this code.
    pub fn value(self) -> (r: u32)
        ensures
            r == code_value(self),
    {
        match self {
            WinEventCode::ObjectAcceleratorChange => 0x8012,
            WinEventCode::ObjectCloaked => 0x8017,
            WinEventCode::ObjectContentScrolled => 0x8015,
            WinEventCode::ObjectCreate => 0x8000,
            WinEventCode::ObjectDefActionChange => 0x8011,
            WinEventCode::ObjectDescriptionChange => 0x800D,
            WinEventCode::ObjectDestroy => 0x8001,
            WinEventCode::ObjectDragStart => 0x8021,
            WinEventCode::ObjectDragCancel => 0x8022,
            WinEventCode::ObjectDragComplete => 0x8023,
            WinEventCode::ObjectDragEnter => 0x8024,
            WinEventCode::ObjectDragLeave => 0x8025,
            WinEventCode::ObjectDragDropped => 0x8026,
            WinEventCode::ObjectEnd => 0x80FF,
            WinEventCode::ObjectFocus => 0x8005,
            WinEventCode::ObjectHelpChange => 0x8010,
            WinEventCode::ObjectHide => 0x8003,
            WinEventCode::ObjectHostedObjectsInvalidated => 0x8020,
            WinEventCode::ObjectImeHide => 0x8028,
            WinEventCode::ObjectImeShow => 0x8027,
            WinEventCode::ObjectImeChange => 0x8029,
            WinEventCode::ObjectInvoked => 0x8013,
            WinEventCode::ObjectLiveRegionChanged => 0x8019,
            WinEventCode::ObjectLocationChange => 0x800B,
            WinEventCode::ObjectNameChange => 0x800C,
            WinEventCode::ObjectParentChange => 0x800F,
            WinEventCode::ObjectReorder => 0x8004,
            WinEventCode::ObjectSelection => 0x8006,
            WinEventCode::ObjectSelectionAdd => 0x8007,
            WinEventCode::ObjectSelectionRemove => 0x8008,
            WinEventCode::ObjectSelectionWithin => 0x8009,
            WinEventCode::ObjectShow => 0x8002,
            WinEventCode::ObjectStateChange => 0x800A,
            WinEventCode::ObjectTextEditConversionTargetChanged => 0x8030,
            WinEventCode::ObjectTextSelectionChanged => 0x8014,
            WinEventCode::ObjectUncloaked => 0x8018,
            WinEventCode::ObjectValueChange => 0x800E,
            WinEventCode::SystemAlert => 0x0002,
            WinEventCode::SystemArrangementPreview => 0x8016,
            WinEventCode::SystemCaptureEnd => 0x0009,
            WinEventCode::SystemCaptureStart => 0x0008,
            WinEventCode::SystemContextHelpEnd => 0x000D,
            WinEventCode::SystemContextHelpStart => 0x000C,
            WinEventCode::SystemDesktopSwitch => 0x0020,
            WinEventCode::SystemDialogEnd => 0x0011,
            WinEventCode::SystemDialogStart => 0x0010,
            WinEventCode::SystemDragDropEnd => 0x000F,
            WinEventCode::SystemDragDropStart => 0x000E,
            WinEventCode::SystemEnd => 0x00FF,
            WinEventCode::SystemForeground => 0x0003,
            WinEventCode::SystemMenuPopupEnd => 0x0007,
            WinEventCode::SystemMenuPopupStart => 0x0006,
            WinEventCode::SystemMenuEnd => 0x0005,
            WinEventCode::SystemMenuStart => 0x0004,
            WinEventCode::SystemMinimizeEnd => 0x0017,
            WinEventCode::SystemMinimizeStart => 0x0016,
            WinEventCode::SystemMoveSizeEnd => 0x000B,
            WinEventCode::SystemMoveSizeStart => 0x000A,
            WinEventCode::SystemScrollingEnd => 0x0013,
            WinEventCode::SystemScrollingStart => 0x0012,
            WinEventCode::SystemSound => 0x0001,
            WinEventCode::SystemSwitchEnd => 0x0015,
            WinEventCode::SystemSwitchStart => 0x0014,
        }
    }

    /// The code with the given numeric value, if there is one.
    pub fn from_u32(v: u32) -> (r: Option<WinEventCode>)
        ensures
            r matches Some(c) ==> code_value(c) == v,
            r is None ==> forall|c: WinEventCode| code_value(c) != v,
    {
        match v {
            0x8012 => Some(WinEventCode::ObjectAcceleratorChange),
            0x8017 => Some(WinEventCode::ObjectCloaked),
            0x8015 => Some(WinEventCode::ObjectContentScrolled),
            0x8000 => Some(WinEventCode::ObjectCreate),
            0x8011 => Some(WinEventCode::ObjectDefActionChange),
            0x800D => Some(WinEventCode::ObjectDescriptionChange),
            0x8001 => Some(WinEventCode::ObjectDestroy),
            0x8021 => Some(WinEventCode::ObjectDragStart),
            0x8022 => Some(WinEventCode::ObjectDragCancel),
            0x8023 => Some(WinEventCode::ObjectDragComplete),
            0x8024 => Some(WinEventCode::ObjectDragEnter),
            0x8025 => Some(WinEventCode::ObjectDragLeave),
            0x8026 => Some(WinEventCode::ObjectDragDropped),
            0x80FF => Some(WinEventCode::ObjectEnd),
            0x8005 => Some(WinEventCode::ObjectFocus),
            0x8010 => Some(WinEventCode::ObjectHelpChange),
            0x8003 => Some(WinEventCode::ObjectHide),
            0x8020 => Some(WinEventCode::ObjectHostedObjectsInvalidated),
            0x8028 => Some(WinEventCode::ObjectImeHide),
            0x8027 => Some(WinEventCode::ObjectImeShow),
            0x8029 => Some(WinEventCode::ObjectImeChange),
            0x8013 => Some(WinEventCode::ObjectInvoked),
            0x8019 => Some(WinEventCode::ObjectLiveRegionChanged),
            0x800B => Some(WinEventCode::ObjectLocationChange),
            0x800C => Some(WinEventCode::ObjectNameChange),
            0x800F => Some(WinEventCode::ObjectParentChange),
            0x8004 => Some(WinEventCode::ObjectReorder),
            0x8006 => Some(WinEventCode::ObjectSelection),
            0x8007 => Some(WinEventCode::ObjectSelectionAdd),
            0x8008 => Some(WinEventCode::ObjectSelectionRemove),
            0x8009 => Some(WinEventCode::ObjectSelectionWithin),
            0x8002 => Some(WinEventCode::ObjectShow),
            0x800A => Some(WinEventCode::ObjectStateChange),
            0x8030 => Some(WinEventCode::ObjectTextEditConversionTargetChanged),
            0x8014 => Some(WinEventCode::ObjectTextSelectionChanged),
            0x8018 => Some(WinEventCode::ObjectUncloaked),
            0x800E => Some(WinEventCode::ObjectValueChange),
            0x0002 => Some(WinEventCode::SystemAlert),
            0x8016 => Some(WinEventCode::SystemArrangementPreview),
            0x0009 => Some(WinEventCode::SystemCaptureEnd),
            0x0008 => Some(WinEventCode::SystemCaptureStart),
            0x000D => Some(WinEventCode::SystemContextHelpEnd),
            0x000C => Some(WinEventCode::SystemContextHelpStart),
            0x0020 => Some(WinEventCode::SystemDesktopSwitch),
            0x0011 => Some(WinEventCode::SystemDialogEnd),
            0x0010 => Some(WinEventCode::SystemDialogStart),
            0x000F => Some(WinEventCode::SystemDragDropEnd),
            0x000E => Some(WinEventCode::SystemDragDropStart),
            0x00FF => Some(WinEventCode::SystemEnd),
            0x0003 => Some(WinEventCode::SystemForeground),
            0x0007 => Some(WinEventCode::SystemMenuPopupEnd),
            0x0006 => Some(WinEventCode::SystemMenuPopupStart),
            0x0005 => Some(WinEventCode::SystemMenuEnd),
            0x0004 => Some(WinEventCode::SystemMenuStart),
            0x0017 => Some(WinEventCode::SystemMinimizeEnd),
            0x0016 => Some(WinEventCode::SystemMinimizeStart),
            0x000B => Some(WinEventCode::SystemMoveSizeEnd),
            0x000A => Some(WinEventCode::SystemMoveSizeStart),
            0x0013 => Some(WinEventCode::SystemScrollingEnd),
            0x0012 => Some(WinEventCode::SystemScrollingStart),
            0x0001 => Some(WinEventCode::SystemSound),
            0x0015 => Some(WinEventCode::SystemSwitchEnd),
            0x0014 => Some(WinEventCode::SystemSwitchStart),
            _ => None,
        }
    }
}

/// The normalised event type of a raw code, if it is one the state
/// machine handles.
pub open spec fn event_type_of(c: WinEventCode) -> Option<WindowsEventType> {
    match c {
        WinEventCode::ObjectDestroy => Some(WindowsEventType::Destroy),
        WinEventCode::ObjectCloaked
        | WinEventCode::ObjectHide
        | WinEventCode::SystemMinimizeStart => Some(WindowsEventType::Hide),
        WinEventCode::SystemDesktopSwitch
        | WinEventCode::ObjectShow
        | WinEventCode::ObjectUncloaked
        | WinEventCode::SystemMinimizeEnd => Some(WindowsEventType::Show),
        WinEventCode::ObjectFocus | WinEventCode::SystemForeground => Some(
            WindowsEventType::FocusChange,
        ),
        WinEventCode::SystemMoveSizeStart => Some(WindowsEventType::MoveResizeStart),
        WinEventCode::SystemMoveSizeEnd => Some(WindowsEventType::MoveResizeEnd),
        _ => None,
    }
}

impl WindowsEventType {
    pub fn from_event_code(event_code: WinEventCode) -> (r: Option<Self>)
        ensures
            r == event_type_of(event_code),
    {
        match event_code {
            WinEventCode::ObjectDestroy => Some(Self::Destroy),
            WinEventCode::ObjectCloaked
            | WinEventCode::ObjectHide
            | WinEventCode::SystemMinimizeStart => Some(Self::Hide),
            WinEventCode::SystemDesktopSwitch
            | WinEventCode::ObjectShow
            | WinEventCode::ObjectUncloaked
            | WinEventCode::SystemMinimizeEnd => Some(Self::Show),
            WinEventCode::ObjectFocus | WinEventCode::SystemForeground => Some(Self::FocusChange),
            WinEventCode::SystemMoveSizeStart => Some(Self::MoveResizeStart),
            WinEventCode::SystemMoveSizeEnd => Some(Self::MoveResizeEnd),
            _ => None,
        }
    }
}

/// One normalised event about one window.
#[derive(Clone, Debug)]
pub struct WindowsEvent {
    pub event_type: WindowsEventType,
    pub event_code: WinEventCode,
    pub window: Window,
    pub title: Option<String>,
}

/// Programs that announce a new window only by renaming it.
pub open spec fn renames_on_launch(exe: Seq<char>) -> bool {
    exe == "firefox.exe"@ || exe == "idea64.exe"@
}

/// The event type of a raw code: a name change of a window of a program
/// that only renames its windows on launch counts as a show.
pub open spec fn normalised(c: WinEventCode, exe: Option<Seq<char>>) -> Option<WindowsEventType> {
    match event_type_of(c) {
        Some(t) => Some(t),
        None => if c == WinEventCode::ObjectNameChange && (exe matches Some(e) && renames_on_launch(e)) {
            Some(WindowsEventType::Show)
        } else {
            None
        },
    }
}

/// Normalises a raw event code, given the executable name of the window
/// it is about when that could be read.
pub fn normalise_event(code: WinEventCode, exe_name: Option<&str>) -> (r: Option<WindowsEventType>)
    ensures
        r == normalised(code, match exe_name {
            Some(e) => Some(e@),
            None => None,
        }),
{
    match WindowsEventType::from_event_code(code) {
        Some(t) => Some(t),
        None => {
            if code == WinEventCode::ObjectNameChange {
                if let Some(e) = exe_name {
                    let name = e.to_string();
                    let firefox = String::from_str("firefox.exe");
                    let idea = String::from_str("idea64.exe");
                    if name == firefox || name == idea {
                        return Some(WindowsEventType::Show);
                    }
                }
            }
            None
        },
    }
}

} // verus!
