//! The editor's top-level view state: which view is active, the toolbar,
//! and the gizmo axes of the scene view. The widget trees that display
//! them are a host concern.

use vstd::prelude::*;
use crate::ui_components::SceneViewTool;

verus! {

/// Active view in the editor.
#[derive(Clone, Copy, PartialEq, Eq, Structural, Debug)]
pub enum ActiveView {
    /// Scene view.
    Scene,
    /// Game view.
    Game,
}

/// Editor toolbar state.
#[derive(Clone, Copy, PartialEq, Eq, Structural, Debug)]
pub struct ToolbarState {
    /// Current transform tool.
    pub transform_tool: SceneViewTool,
    /// Toggle for play/pause.
    pub play_mode: bool,
    /// Toggle for pause.
    pub paused: bool,
}

impl ToolbarState {
    /// The initial toolbar: the select tool, not playing, not paused.
    pub fn new() -> (r: ToolbarState)
        ensures
            r == (ToolbarState {
                transform_tool: SceneViewTool::Select,
                play_mode: false,
                paused: false,
            }),
    {
        ToolbarState { transform_tool: SceneViewTool::Select, play_mode: false, paused: false }
    }
}

/// Gizmo axis for transformation.
#[derive(Clone, Copy, PartialEq, Eq, Structural, Debug)]
pub enum GizmoAxis {
    /// X axis (red).
    X,
    /// Y axis (green).
    Y,
    /// Z axis (blue).
    Z,
}

} // verus!
