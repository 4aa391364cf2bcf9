//! The shared data types of the editor panels: console logs, project
//! files, entity components and hierarchy items. The widget rendering
//! around them is a host concern; the data and its rules live here.

use vstd::prelude::*;
use crate::audio::AudioCategory;

verus! {

/// Console log level.
#[derive(Clone, Copy, PartialEq, Eq, Structural, Debug)]
pub enum LogLevel {
    Info,
    Warning,
    Error,
}

/// Console log entry.
#[derive(Clone, Debug)]
pub struct ConsoleLog {
    pub timestamp: String,
    pub level: LogLevel,
    pub message: String,
}

/// Project panel tab.
#[derive(Clone, Copy, PartialEq, Eq, Structural, Debug)]
pub enum ProjectTab {
    Files,
    Console,
    Audio,
}

/// Project file type.
#[derive(Clone, Copy, PartialEq, Eq, Structural, Debug)]
pub enum ProjectFileType {
    Folder,
    Scene,
    Script,
    Texture,
    Audio,
    Other,
}

impl ProjectFileType {
    /// True iff this is a folder.
    pub fn is_folder(&self) -> (r: bool)
        ensures
            r == (*self is Folder),
    {
        match self {
            ProjectFileType::Folder => true,
            _ => false,
        }
    }
}

/// A project file or folder: its name, its full path, and (for folders)
/// its children.
#[derive(Debug)]
pub struct ProjectFile {
    pub name: String,
    pub file_type: ProjectFileType,
    pub path: String,
    pub children: Vec<ProjectFile>,
    pub expanded: bool,
    pub parent_path: Option<String>,
}

/// Component type.
#[derive(Clone, Copy, PartialEq, Eq, Structural, Debug)]
pub enum ComponentType {
    Transform,
    Camera,
    Light,
    SpriteRenderer,
    Rigidbody2D,
    BoxCollider2D,
    LuaScript,
    AudioSource,
    AudioListener,
}

/// Entity component, as the inspector lists it.
#[derive(Clone, Debug)]
pub struct EntityComponent {
    pub name: String,
    pub component_type: ComponentType,
    pub removable: bool,
}

/// Entity transform data as the editor panels edit it: position,
/// rotation (in degrees) and scale, each component an `f32` bit pattern.
#[derive(Clone, Copy, Debug)]
pub struct EntityTransform {
    pub position: [u32; 3],
    pub rotation: [u32; 3],
    pub scale: [u32; 3],
}

/// Hierarchy item for representing entity hierarchies.
#[derive(Debug)]
pub struct HierarchyItem {
    pub id: u32,
    pub name: String,
    pub children: Vec<HierarchyItem>,
}

/// Audio file information; the duration, when known, is an `f32` bit
/// pattern in seconds.
#[derive(Clone, Debug)]
pub struct AudioFile {
    pub name: String,
    pub path: String,
    pub category: AudioCategory,
    pub duration: Option<u32>,
}

/// Scene view tool.
#[derive(Clone, Copy, PartialEq, Eq, Structural, Debug)]
pub enum SceneViewTool {
    /// Select entities.
    Select,
    /// Move entities.
    Move,
    /// Rotate entities.
    Rotate,
    /// Scale entities.
    Scale,
}

/// The log-level prefix shown in front of every console line.
pub fn get_log_prefix(level: LogLevel) -> (r: &'static str)
    ensures
        level is Info ==> r@ == "INFO"@,
        level is Warning ==> r@ == "WARN"@,
        level is Error ==> r@ == "ERROR"@,
{
    match level {
        LogLevel::Info => "INFO",
        LogLevel::Warning => "WARN",
        LogLevel::Error => "ERROR",
    }
}

} // verus!
