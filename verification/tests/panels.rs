use mirage_engine::audio::{AudioCategory, AudioError, AudioSource, PlaybackStatus};
use mirage_engine::console::ConsolePanel;
use mirage_engine::editor_ui::{ActiveView, GizmoAxis, ToolbarState};
use mirage_engine::hierarchy::{EntityType, HierarchyPanel};
use mirage_engine::project::ProjectPanel;
use mirage_engine::scene::SceneState;
use mirage_engine::strutil::{str_replace, u32_to_dec_string};
use mirage_engine::ui_components::{get_log_prefix, ConsoleLog, LogLevel, ProjectFileType, ProjectTab, SceneViewTool};

#[test]
fn audio_source_validation() {
    let ok = AudioSource::new(
        "music".to_string(),
        "/assets/music.mp3".to_string(),
        AudioCategory::Music,
        true,
    );
    let s = ok.unwrap();
    assert_eq!(s.id, "music");
    assert_eq!(s.path, "/assets/music.mp3");
    assert_eq!(s.category, AudioCategory::Music);

    // Extensions are matched case-insensitively.
    assert!(AudioSource::new(
        "m".to_string(),
        "/a/B.FLAC".to_string(),
        AudioCategory::Ambient,
        true,
    ).is_ok());

    let missing = AudioSource::new(
        "x".to_string(),
        "/a/b.wav".to_string(),
        AudioCategory::SoundEffect,
        false,
    );
    assert_eq!(missing.unwrap_err(), AudioError::FileNotFound);

    let no_ext = AudioSource::new(
        "x".to_string(),
        "/a/noext".to_string(),
        AudioCategory::Voice,
        true,
    );
    assert_eq!(no_ext.unwrap_err(), AudioError::NoExtension);

    let hidden = AudioSource::new(
        "x".to_string(),
        "/a/.hidden".to_string(),
        AudioCategory::Voice,
        true,
    );
    assert_eq!(hidden.unwrap_err(), AudioError::NoExtension);

    let bad = AudioSource::new(
        "x".to_string(),
        "/a/b.txt".to_string(),
        AudioCategory::Voice,
        true,
    );
    assert_eq!(bad.unwrap_err(), AudioError::UnsupportedFormat);

    assert_ne!(PlaybackStatus::Playing, PlaybackStatus::Stopped);
}

#[test]
fn console_panel_seeds_and_caps_logs() {
    let mut panel = ConsolePanel::new();
    assert!(!panel.show_console);
    assert_eq!(panel.console_logs.len(), 5);
    assert_eq!(panel.console_logs[0].timestamp, "12:34:56");
    assert_eq!(panel.console_logs[0].message, "Editor initialized");
    assert_eq!(panel.console_logs[2].level, LogLevel::Warning);
    assert_eq!(panel.console_logs[4].message, "Failed to load audio file");

    panel.log_info("hello");
    let last = panel.console_logs.last().unwrap();
    assert_eq!(last.level, LogLevel::Info);
    assert_eq!(last.message, "hello");
    assert_eq!(last.timestamp.chars().count(), 8);

    panel.log_warning("careful");
    assert_eq!(panel.console_logs.last().unwrap().level, LogLevel::Warning);
    panel.log_error("boom");
    assert_eq!(panel.console_logs.last().unwrap().level, LogLevel::Error);

    for i in 0..200 {
        panel.log_info(&format!("msg {}", i));
    }
    assert_eq!(panel.console_logs.len(), 100);
    assert_eq!(panel.console_logs.last().unwrap().message, "msg 199");
}

#[test]
fn log_prefixes() {
    assert_eq!(get_log_prefix(LogLevel::Info), "INFO");
    assert_eq!(get_log_prefix(LogLevel::Warning), "WARN");
    assert_eq!(get_log_prefix(LogLevel::Error), "ERROR");
    let entry = ConsoleLog {
        timestamp: "00:00:00".to_string(),
        level: LogLevel::Info,
        message: "m".to_string(),
    };
    assert_eq!(entry.message, "m");
}

#[test]
fn hierarchy_panel_sample_and_create() {
    let mut panel = HierarchyPanel::new();
    assert_eq!(panel.entity_names.len(), 5);
    assert_eq!(panel.entity_names[0], (1, "Main Camera".to_string()));
    assert_eq!(panel.entity_types[1], (2, EntityType::Light));
    assert!(panel.selected_entity.is_none());

    panel.create_entity("Enemy".to_string(), EntityType::GameObject);
    assert_eq!(panel.selected_entity, Some(6));
    assert_eq!(panel.entity_names.last().unwrap(), &(6, "Enemy".to_string()));
    assert!(panel.entity_parent_map.is_empty());

    // With a selection, the next entity becomes its child.
    panel.create_entity("Sword".to_string(), EntityType::Sprite);
    assert_eq!(panel.selected_entity, Some(7));
    assert_eq!(panel.entity_parent_map, vec![(7, 6)]);
}

#[test]
fn hierarchy_build_nests_children() {
    let mut panel = HierarchyPanel::new();
    panel.selected_entity = Some(3);
    panel.create_entity("Weapon".to_string(), EntityType::Sprite);
    let items = panel.build_entity_hierarchy();
    // Five sample roots; the new entity hangs under "Player" (id 3).
    assert_eq!(items.len(), 5);
    let player = items.iter().find(|i| i.id == 3).unwrap();
    assert_eq!(player.name, "Player");
    assert_eq!(player.children.len(), 1);
    assert_eq!(player.children[0].id, 6);
    assert_eq!(player.children[0].name, "Weapon");
    let camera = items.iter().find(|i| i.id == 1).unwrap();
    assert!(camera.children.is_empty());
}

#[test]
fn project_panel_sample_tree_and_lookup() {
    let panel = ProjectPanel::new();
    assert_eq!(panel.project_active_tab, ProjectTab::Files);
    assert_eq!(panel.project_files.len(), 4);
    assert_eq!(panel.project_files[0].name, "Scripts");
    assert_eq!(panel.project_files[0].children.len(), 2);
    assert!(panel.path_exists("/Scripts/Player.lua"));
    assert!(panel.path_exists("/Audio"));
    assert!(!panel.path_exists("/Missing"));

    let files = panel.get_files_in_directory("/Textures");
    assert_eq!(files.len(), 3);
    assert_eq!(files[0].name, "player.png");
}

#[test]
fn project_panel_delete_file() {
    let mut panel = ProjectPanel::new();
    assert!(panel.path_exists("/Audio/wind.ogg"));
    panel.delete_project_file("/Audio/wind.ogg");
    assert!(!panel.path_exists("/Audio/wind.ogg"));
    assert_eq!(panel.project_files[3].children.len(), 2);

    // Deleting a root folder removes the whole subtree.
    panel.delete_project_file("/Scripts");
    assert_eq!(panel.project_files.len(), 3);
    assert!(!panel.path_exists("/Scripts"));
}

#[test]
fn project_panel_create_folder_unique_names() {
    let mut panel = ProjectPanel::new();
    panel.create_project_folder("/Scripts".to_string(), "Sub".to_string());
    assert!(panel.path_exists("/Scripts/Sub"));
    // Creating the same folder again picks the first free counter name.
    panel.create_project_folder("/Scripts".to_string(), "Sub".to_string());
    assert!(panel.path_exists("/Scripts/Sub (1)"));
    let scripts = &panel.project_files[0];
    assert_eq!(scripts.children.len(), 4);
    assert_eq!(scripts.children[2].name, "Sub");
    assert_eq!(scripts.children[2].file_type, ProjectFileType::Folder);
    assert_eq!(scripts.children[3].name, "Sub (1)");
}

#[test]
fn project_panel_create_file_keeps_extension() {
    let mut panel = ProjectPanel::new();
    panel.create_project_file(
        "/Scenes".to_string(),
        "Level.scene".to_string(),
        ProjectFileType::Scene,
    );
    assert!(panel.path_exists("/Scenes/Level.scene"));
    panel.create_project_file(
        "/Scenes".to_string(),
        "Level.scene".to_string(),
        ProjectFileType::Scene,
    );
    // The counter is inserted before the extension.
    assert!(panel.path_exists("/Scenes/Level (1).scene"));
}

#[test]
fn project_panel_create_in_nested_folder() {
    let mut panel = ProjectPanel::new();
    panel.create_project_folder("/Scripts".to_string(), "AI".to_string());
    panel.create_project_file(
        "/Scripts/AI".to_string(),
        "Brain.rs".to_string(),
        ProjectFileType::Script,
    );
    assert!(panel.path_exists("/Scripts/AI/Brain.rs"));
    let files = panel.get_files_in_directory("/Scripts/AI");
    assert_eq!(files.len(), 1);
    assert_eq!(files[0].name, "Brain.rs");
}

#[test]
fn project_panel_rename_child_file() {
    let mut panel = ProjectPanel::new();
    panel.rename_file_path = "/Scripts/Player.lua".to_string();
    panel.rename_file_new_name = "Hero.lua".to_string();
    panel.rename_project_file();
    assert!(!panel.path_exists("/Scripts/Player.lua"));
    assert!(panel.path_exists("/Scripts/Hero.lua"));
    assert_eq!(panel.project_files[0].children[0].name, "Hero.lua");
}

#[test]
fn project_panel_rename_root_rewrites_children() {
    let mut panel = ProjectPanel::new();
    panel.rename_file_path = "/Audio".to_string();
    panel.rename_file_new_name = "Sound".to_string();
    panel.rename_project_file();
    assert!(panel.path_exists("/Sound"));
    assert!(panel.path_exists("/Sound/music.mp3"));
    assert!(!panel.path_exists("/Audio/music.mp3"));
    let sound = &panel.project_files[3];
    assert_eq!(sound.name, "Sound");
    assert_eq!(sound.path, "/Sound");
    assert_eq!(sound.children[0].path, "/Sound/music.mp3");
    assert_eq!(sound.children[0].parent_path, Some("/Sound".to_string()));
}

#[test]
fn string_helpers() {
    assert_eq!(u32_to_dec_string(0), "0");
    assert_eq!(u32_to_dec_string(7), "7");
    assert_eq!(u32_to_dec_string(1234), "1234");
    assert_eq!(u32_to_dec_string(4294967295), "4294967295");
    assert_eq!(str_replace("abcabc", "abc", "x"), "xx");
    assert_eq!(str_replace("/Audio/music.mp3", "/Audio", "/Sound"), "/Sound/music.mp3");
    assert_eq!(str_replace("aaa", "aa", "b"), "ba");
    assert_eq!(str_replace("ab", "", "-"), "-a-b-");
    assert_eq!(str_replace("ab", "zz", "-"), "ab");
}

#[test]
fn editor_view_state_types() {
    let toolbar = ToolbarState::new();
    assert_eq!(toolbar.transform_tool, SceneViewTool::Select);
    assert!(!toolbar.play_mode);
    assert!(!toolbar.paused);
    assert_ne!(ActiveView::Scene, ActiveView::Game);
    assert_ne!(GizmoAxis::X, GizmoAxis::Z);
    assert!(SceneState::Active.is_active());
    assert!(!SceneState::Paused.is_active());
}
