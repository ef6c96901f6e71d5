//! Two map panes side by side: which pane follows the other, whether
//! following is on, and the toolbar commands of the pair.
use vstd::prelude::*;
use crate::Tool;

verus! {

/// Which pane follows the other after the views may have moved.
#[derive(Debug, Clone, Copy, PartialEq, Eq, Structural)]
pub enum PaneSync {
    /// The right pane takes the left pane's view.
    LeftToRight,
    /// The left pane takes the right pane's view.
    RightToLeft,
    Neither,
}

/// The left pane leads when it moved; otherwise the right pane leads when
/// it moved.
pub fn pane_sync(left_moved: bool, right_moved: bool) -> (s: PaneSync)
    ensures
        left_moved ==> s == PaneSync::LeftToRight,
        !left_moved && right_moved ==> s == PaneSync::RightToLeft,
        !left_moved && !right_moved ==> s == PaneSync::Neither,
{
    if left_moved {
        PaneSync::LeftToRight
    } else if right_moved {
        PaneSync::RightToLeft
    } else {
        PaneSync::Neither
    }
}

/// Keeping the panes together only when following is on.
pub fn follow_step(enabled: bool, left_moved: bool, right_moved: bool) -> (s: PaneSync)
    ensures
        !enabled ==> s == PaneSync::Neither,
        enabled && left_moved ==> s == PaneSync::LeftToRight,
        enabled && !left_moved && right_moved ==> s == PaneSync::RightToLeft,
        enabled && !left_moved && !right_moved ==> s == PaneSync::Neither,
{
    if enabled {
        pane_sync(left_moved, right_moved)
    } else {
        PaneSync::Neither
    }
}

/// A command of the pair's toolbar.
#[derive(Debug, Clone, Copy, PartialEq, Eq, Structural)]
pub enum PairCommand {
    /// Zoom the left pane in.
    ZoomIn,
    /// Zoom the left pane out.
    ZoomOut,
    /// Show the left pane's whole map.
    FullExtent,
    /// Turn following on or off.
    ToggleSync,
    /// Switch both panes to this tool.
    UseTool(Tool),
}

/// The command of toolbar button `id`, if the toolbar has it.
pub fn pair_command(id: i32) -> (c: Option<PairCommand>)
    ensures
        id == 1 ==> c == Some(PairCommand::ZoomIn),
        id == 2 ==> c == Some(PairCommand::ZoomOut),
        id == 3 ==> c == Some(PairCommand::FullExtent),
        id == 4 ==> c == Some(PairCommand::ToggleSync),
        id == 5 ==> c == Some(PairCommand::UseTool(Tool::ZoomBox)),
        id == 6 ==> c == Some(PairCommand::UseTool(Tool::Pan)),
        !(1 <= id <= 6) ==> c is None,
{
    if id == 1 {
        Some(PairCommand::ZoomIn)
    } else if id == 2 {
        Some(PairCommand::ZoomOut)
    } else if id == 3 {
        Some(PairCommand::FullExtent)
    } else if id == 4 {
        Some(PairCommand::ToggleSync)
    } else if id == 5 {
        Some(PairCommand::UseTool(Tool::ZoomBox))
    } else if id == 6 {
        Some(PairCommand::UseTool(Tool::Pan))
    } else {
        None
    }
}

/// The status line of the following switch.
pub fn sync_status(enabled: bool) -> (t: &'static str)
    ensures
        enabled ==> t@ == "Sync On"@,
        !enabled ==> t@ == "Sync Off"@,
{
    if enabled {
        "Sync On"
    } else {
        "Sync Off"
    }
}

} // verus!
