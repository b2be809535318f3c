//! The control protocol: the commands a client can send, and the small
//! enumerations they carry.
use vstd::prelude::*;

verus! {

#[derive(Clone, Copy, Debug, PartialEq, Eq, Structural)]
pub enum OperationDirection {
    Left,
    Right,
    Up,
    Down,
    Previous,
    Next,
}

/// The tiling algorithms, in their cycling order.
#[derive(Clone, Copy, Debug, PartialEq, Eq, Structural)]
pub enum Layout {
    BSPV,
    BSPH,
    Columns,
    Rows,
    Monocle,
}

#[derive(Clone, Copy, Debug, PartialEq, Eq, Structural)]
pub enum CycleDirection {
    Previous,
    Next,
}

#[derive(Clone, Copy, Debug, PartialEq, Eq, Structural)]
pub enum Sizing {
    Increase,
    Decrease,
}

#[derive(Clone, Copy, Debug, PartialEq, Eq, Structural)]
pub enum ResizeEdge {
    Left,
    Top,
    Right,
    Bottom,
}

/// One decoded control command.
#[derive(Clone, Debug)]
pub enum SocketMessage {
    AdjustGaps(Sizing),
    FocusWindow(OperationDirection),
    MoveWindow(OperationDirection),
    ResizeWindow(ResizeEdge, Sizing),
    MoveWindowToDisplay(CycleDirection),
    MoveWindowToDisplayNumber(usize),
    FocusDisplay(CycleDirection),
    FocusDisplayNumber(usize),
    Promote,
    Retile,
    Layout(Layout),
    CycleLayout(CycleDirection),
    GapSize(i32),
    PaddingSize(i32),
    ToggleFloat,
    TogglePause,
    ToggleMonocle,
    FloatClass(String),
    FloatExe(String),
    FloatTitle(String),
    SetWorkspace(usize),
    MoveWindowToWorkspace(usize),
    MoveWindowToWorkspaceAndFollow(usize),
    Stop,
}

/// Position of a layout in the cycling order.
pub open spec fn layout_index(l: Layout) -> nat {
    match l {
        Layout::BSPV => 0,
        Layout::BSPH => 1,
        Layout::Columns => 2,
        Layout::Rows => 3,
        Layout::Monocle => 4,
    }
}

/// The layout at position `i` (taken modulo 5) of the cycling order.
pub open spec fn layout_at(i: nat) -> Layout {
    let k = i % 5;
    if k == 0 {
        Layout::BSPV
    } else if k == 1 {
        Layout::BSPH
    } else if k == 2 {
        Layout::Columns
    } else if k == 3 {
        Layout::Rows
    } else {
        Layout::Monocle
    }
}

pub open spec fn next_layout(l: Layout) -> Layout {
    layout_at(layout_index(l) + 1)
}

pub open spec fn previous_layout(l: Layout) -> Layout {
    layout_at(layout_index(l) + 4)
}

/// `l` advanced `n` times.
pub open spec fn cycled(l: Layout, n: nat) -> Layout
    decreases n,
{
    if n == 0 {
        l
    } else {
        next_layout(cycled(l, (n - 1) as nat))
    }
}

impl Layout {
    pub fn next(&mut self)
        ensures
            *final(self) == next_layout(*old(self)),
    {
        match self {
            Layout::BSPV => *self = Layout::BSPH,
            Layout::BSPH => *self = Layout::Columns,
            Layout::Columns => *self = Layout::Rows,
            Layout::Rows => *self = Layout::Monocle,
            Layout::Monocle => *self = Layout::BSPV,
        }
    }

    pub fn previous(&mut self)
        ensures
            *final(self) == previous_layout(*old(self)),
    {
        match self {
            Layout::BSPV => *self = Layout::Monocle,
            Layout::BSPH => *self = Layout::BSPV,
            Layout::Columns => *self = Layout::BSPH,
            Layout::Rows => *self = Layout::Columns,
            Layout::Monocle => *self = Layout::Rows,
        }
    }
}

/// Cycling is a total order with wraparound: every layout has a distinct
/// position, advancing five times from any layout returns to it, and
/// stepping back undoes stepping forward (and the other way round).
pub proof fn lemma_layout_cycle(l: Layout)
    ensures
        layout_at(layout_index(l)) == l,
        layout_index(l) < 5,
        cycled(l, 5) == l,
        previous_layout(next_layout(l)) == l,
        next_layout(previous_layout(l)) == l,
        forall|m: Layout| layout_index(m) == layout_index(l) ==> m == l,
{
    reveal_with_fuel(cycled, 6);
}

} // verus!
