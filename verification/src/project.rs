//! The project panel: a tree of project files and the operations the
//! editor performs on it — creation with unique names, deletion,
//! renaming with path rewriting, and lookups.
//!
//! Contracts speak about the tree through its ghost mirror, `FileTree`,
//! on which every operation is defined as a pure function.

use vstd::prelude::*;
use crate::strutil::{spec_replace, str_concat, str_concat3, str_eq, str_replace, u32_to_dec_string,
    spec_u32_dec_chars};
use crate::ui_components::{ProjectFile, ProjectFileType, ProjectTab};

verus! {

/// The ghost mirror of a `ProjectFile`: the same fields, with sequences
/// for the strings and the children.
pub struct FileTree {
    pub name: Seq<char>,
    pub file_type: ProjectFileType,
    pub path: Seq<char>,
    pub children: Seq<FileTree>,
    pub expanded: bool,
    pub parent_path: Option<Seq<char>>,
}

/// The ghost mirror of a project file.
pub open spec fn spec_file_view(f: ProjectFile) -> FileTree
    decreases f,
    via spec_file_view_decreases
{
    FileTree {
        name: f.name@,
        file_type: f.file_type,
        path: f.path@,
        children: Seq::new(
            f.children@.len(),
            |i: int|
                if 0 <= i < f.children@.len() {
                    spec_file_view(f.children@[i])
                } else {
                    arbitrary()
                },
        ),
        expanded: f.expanded,
        parent_path: match f.parent_path {
            Some(p) => Some(p@),
            None => None,
        },
    }
}

#[via_fn]
proof fn spec_file_view_decreases(f: ProjectFile) {
    assert forall|i: int| 0 <= i < f.children@.len() implies decreases_to!(f => f.children@[i]) by {
        assert(decreases_to!(f => f.children));
        assert(decreases_to!(f.children => f.children@));
        assert(decreases_to!(f.children@ => f.children@[i]));
    }
}

/// The ghost mirrors of a list of project files.
pub open spec fn spec_files_view(fs: Seq<ProjectFile>) -> Seq<FileTree> {
    Seq::new(fs.len(), |i: int| spec_file_view(fs[i]))
}

/// True iff some strict descendant of `t` carries `path`, searching, as
/// the panel does, only through folders.
pub open spec fn spec_subtree_contains(t: FileTree, path: Seq<char>) -> bool
    decreases t,
    via spec_subtree_contains_decreases
{
    exists|i: int|
        0 <= i < t.children.len() && ((#[trigger] t.children[i]).path == path || (
        t.children[i].file_type is Folder && spec_subtree_contains(t.children[i], path)))
}

#[via_fn]
proof fn spec_subtree_contains_decreases(t: FileTree, path: Seq<char>) {
    assert forall|i: int| 0 <= i < t.children.len() implies decreases_to!(t => t.children[i]) by {
        assert(decreases_to!(t => t.children));
        assert(decreases_to!(t.children => t.children[i]));
    }
}

/// True iff `path` names some root or some descendant reachable through
/// folders.
pub open spec fn spec_any_path_exists(ts: Seq<FileTree>, path: Seq<char>) -> bool {
    exists|i: int|
        0 <= i < ts.len() && ((#[trigger] ts[i]).path == path || spec_subtree_contains(
            ts[i],
            path,
        ))
}

/// `t` with every descendant carrying `path` removed.
pub open spec fn spec_remove_tree(t: FileTree, path: Seq<char>) -> FileTree
    decreases t,
{
    FileTree { children: spec_remove_all(t.children, path), ..t }
}

/// `ts` with every file carrying `path` removed, at every depth.
pub open spec fn spec_remove_all(ts: Seq<FileTree>, path: Seq<char>) -> Seq<FileTree>
    decreases ts,
{
    if ts.len() == 0 {
        Seq::empty()
    } else if ts[0].path == path {
        spec_remove_all(ts.drop_first(), path)
    } else {
        seq![spec_remove_tree(ts[0], path)] + spec_remove_all(ts.drop_first(), path)
    }
}

/// Appending a file appends its (possibly filtered) form.
pub proof fn lemma_remove_all_push(ts: Seq<FileTree>, t: FileTree, path: Seq<char>)
    ensures
        spec_remove_all(ts.push(t), path) == spec_remove_all(ts, path) + (
        if t.path == path {
            Seq::<FileTree>::empty()
        } else {
            seq![spec_remove_tree(t, path)]
        }),
    decreases ts.len(),
{
    let p = ts.push(t);
    let tail: Seq<FileTree> = if t.path == path {
        Seq::empty()
    } else {
        seq![spec_remove_tree(t, path)]
    };
    if ts.len() == 0 {
        assert(p[0] == t);
        assert(p.drop_first() =~= Seq::<FileTree>::empty());
        assert(spec_remove_all(Seq::<FileTree>::empty(), path) == Seq::<FileTree>::empty());
        assert(spec_remove_all(p, path) =~= spec_remove_all(ts, path) + tail);
    } else {
        lemma_remove_all_push(ts.drop_first(), t, path);
        assert(p.drop_first() =~= ts.drop_first().push(t));
        assert(p[0] == ts[0]);
        assert(spec_remove_all(p, path) =~= spec_remove_all(ts, path) + tail);
    }
}

/// The files that `get_files_in_directory` collects from one subtree: the
/// children of every folder node (at any depth, through folders) whose
/// path is the directory.
pub open spec fn spec_collect_in_dir(t: FileTree, dir: Seq<char>) -> Seq<FileTree>
    decreases t, 0int,
    via spec_collect_in_dir_decreases
{
    if t.path == dir && t.file_type is Folder {
        t.children
    } else if t.file_type is Folder {
        spec_collect_children(t.children, t.children.len() as int, dir)
    } else {
        Seq::empty()
    }
}

/// The collection over the first `n` children of a folder, in order.
pub open spec fn spec_collect_children(ts: Seq<FileTree>, n: int, dir: Seq<char>) -> Seq<FileTree>
    decreases ts, n,
    via spec_collect_children_decreases
{
    if n <= 0 || n > ts.len() {
        Seq::empty()
    } else {
        spec_collect_children(ts, n - 1, dir) + spec_collect_in_dir(ts[n - 1], dir)
    }
}

#[via_fn]
proof fn spec_collect_in_dir_decreases(t: FileTree, dir: Seq<char>) {
    assert(decreases_to!(t => t.children));
}

#[via_fn]
proof fn spec_collect_children_decreases(ts: Seq<FileTree>, n: int, dir: Seq<char>) {
    if 0 < n <= ts.len() {
        assert(decreases_to!(ts => ts[n - 1]));
    }
}

/// The collection over the first `n` roots of the tree, in order.
pub open spec fn spec_collect_roots(ts: Seq<FileTree>, n: int, dir: Seq<char>) -> Seq<FileTree>
    decreases n,
{
    if n <= 0 {
        Seq::empty()
    } else {
        spec_collect_roots(ts, n - 1, dir) + spec_collect_in_dir(ts[n - 1], dir)
    }
}

/// Project panel state: the active tab, the file tree, the current
/// folder, and the rename-dialog state.
pub struct ProjectPanel {
    /// Active tab for the project panel.
    pub project_active_tab: ProjectTab,
    /// Project files.
    pub project_files: Vec<ProjectFile>,
    /// Current project path.
    pub current_project_path: Option<String>,
    /// Whether the rename dialog is shown.
    pub show_rename_dialog: bool,
    /// The path of the file being renamed.
    pub rename_file_path: String,
    /// The new name entered in the rename dialog.
    pub rename_file_new_name: String,
}

impl ProjectPanel {
    /// Create a new project panel over the sample project structure.
    pub fn new() -> (r: ProjectPanel)
        ensures
            r.project_active_tab is Files,
            r.current_project_path matches Some(p) && p@ == "/"@,
            !r.show_rename_dialog,
            r.rename_file_path@ == Seq::<char>::empty(),
            r.rename_file_new_name@ == Seq::<char>::empty(),
            spec_files_view(r.project_files@) == spec_sample_project(),
    {
        let mut project_files: Vec<ProjectFile> = Vec::new();

        let mut scripts_children: Vec<ProjectFile> = Vec::new();
        scripts_children.push(leaf_file("Player.rs", ProjectFileType::Script, "/Scripts/Player.lua", "/Scripts"));
        scripts_children.push(leaf_file("Enemy.rs", ProjectFileType::Script, "/Scripts/Enemy.lua", "/Scripts"));
        proof {
            assert(spec_files_view(scripts_children@) =~~= spec_sample_project()[0].children);
        }
        project_files.push(folder_file("Scripts", "/Scripts", scripts_children));

        let mut scenes_children: Vec<ProjectFile> = Vec::new();
        scenes_children.push(
            leaf_file("MainScene.scene", ProjectFileType::Scene, "/Scenes/MainScene.scene", "/Scenes"),
        );
        proof {
            assert(spec_files_view(scenes_children@) =~~= spec_sample_project()[1].children);
        }
        project_files.push(folder_file("Scenes", "/Scenes", scenes_children));

        let mut textures_children: Vec<ProjectFile> = Vec::new();
        textures_children.push(
            leaf_file("player.png", ProjectFileType::Texture, "/Textures/player.png", "/Textures"),
        );
        textures_children.push(
            leaf_file("enemy.png", ProjectFileType::Texture, "/Textures/enemy.png", "/Textures"),
        );
        textures_children.push(
            leaf_file(
                "background.png",
                ProjectFileType::Texture,
                "/Textures/background.png",
                "/Textures",
            ),
        );
        proof {
            assert(spec_files_view(textures_children@) =~~= spec_sample_project()[2].children);
        }
        project_files.push(folder_file("Textures", "/Textures", textures_children));

        let mut audio_children: Vec<ProjectFile> = Vec::new();
        audio_children.push(leaf_file("music.mp3", ProjectFileType::Audio, "/Audio/music.mp3", "/Audio"));
        audio_children.push(
            leaf_file("explosion.wav", ProjectFileType::Audio, "/Audio/explosion.wav", "/Audio"),
        );
        audio_children.push(leaf_file("wind.ogg", ProjectFileType::Audio, "/Audio/wind.ogg", "/Audio"));
        proof {
            assert(spec_files_view(audio_children@) =~~= spec_sample_project()[3].children);
        }
        project_files.push(folder_file("Audio", "/Audio", audio_children));

        proof {
            assert(spec_files_view(project_files@) =~~= spec_sample_project());
        }

        ProjectPanel {
            project_active_tab: ProjectTab::Files,
            project_files,
            current_project_path: Some("/".to_owned()),
            show_rename_dialog: false,
            rename_file_path: String::new(),
            rename_file_new_name: String::new(),
        }
    }

    /// Check whether a path exists anywhere in the tree (descendants are
    /// searched through folders).
    pub fn path_exists(&self, path: &str) -> (r: bool)
        ensures
            r == spec_any_path_exists(spec_files_view(self.project_files@), path@),
    {
        let views = Ghost(spec_files_view(self.project_files@));
        let mut i: usize = 0;
        while i < self.project_files.len()
            invariant
                0 <= i <= self.project_files@.len(),
                views@ == spec_files_view(self.project_files@),
                forall|j: int|
                    0 <= j < i ==> !((#[trigger] views@[j]).path == path@ || spec_subtree_contains(
                        views@[j],
                        path@,
                    )),
            decreases self.project_files@.len() - i,
        {
            proof {
                assert(views@[i as int] == spec_file_view(self.project_files@[i as int]));
            }
            if str_eq(self.project_files[i].path.as_str(), path) {
                proof {
                    assert(views@[i as int].path == path@);
                }
                return true;
            }
            if self.path_exists_in_children(&self.project_files[i], path) {
                proof {
                    assert(spec_subtree_contains(views@[i as int], path@));
                }
                return true;
            }
            i += 1;
        }
        proof {
            assert(!spec_any_path_exists(spec_files_view(self.project_files@), path@));
        }
        false
    }

    /// Check whether a path exists among the descendants of a folder
    /// (searching through folders).
    pub fn path_exists_in_children(&self, folder: &ProjectFile, path: &str) -> (r: bool)
        ensures
            r == spec_subtree_contains(spec_file_view(*folder), path@),
        decreases *folder,
    {
        let t = Ghost(spec_file_view(*folder));
        let mut i: usize = 0;
        while i < folder.children.len()
            invariant
                0 <= i <= folder.children@.len(),
                t@ == spec_file_view(*folder),
                t@.children.len() == folder.children@.len(),
                forall|j: int|
                    0 <= j < i ==> !((#[trigger] t@.children[j]).path == path@ || (
                    t@.children[j].file_type is Folder && spec_subtree_contains(
                        t@.children[j],
                        path@,
                    ))),
            decreases folder.children@.len() - i,
        {
            let child = &folder.children[i];
            proof {
                assert(t@.children[i as int] == spec_file_view(folder.children@[i as int]));
            }
            if str_eq(child.path.as_str(), path) {
                proof {
                    assert(t@.children[i as int].path == path@);
                }
                return true;
            }
            if child.file_type.is_folder() {
                proof {
                    assert(decreases_to!(*folder => folder.children));
                    assert(decreases_to!(folder.children => folder.children@));
                    assert(decreases_to!(folder.children@ => folder.children@[i as int]));
                }
                if self.path_exists_in_children(child, path) {
                    proof {
                        assert(t@.children[i as int].file_type is Folder && spec_subtree_contains(
                            t@.children[i as int],
                            path@,
                        ));
                    }
                    return true;
                }
            }
            i += 1;
        }
        proof {
            assert(!spec_subtree_contains(spec_file_view(*folder), path@));
        }
        false
    }

    /// Delete every file carrying `path`, at every depth of the tree.
    pub fn delete_project_file(&mut self, path: &str)
        ensures
            spec_files_view(final(self).project_files@) == spec_remove_all(
                spec_files_view(old(self).project_files@),
                path@,
            ),
            final(self).project_active_tab == old(self).project_active_tab,
            final(self).current_project_path == old(self).current_project_path,
            final(self).show_rename_dialog == old(self).show_rename_dialog,
            final(self).rename_file_path == old(self).rename_file_path,
            final(self).rename_file_new_name == old(self).rename_file_new_name,
    {
        let mut files: Vec<ProjectFile> = Vec::new();
        std::mem::swap(&mut self.project_files, &mut files);
        self.project_files = remove_from_children(files, path);
    }


    /// Rename the file recorded in the rename dialog: the first root
    /// whose path matches is renamed (its descendants' paths rewritten);
    /// failing that, the first root whose children contain a match has
    /// them rewritten.
    pub fn rename_project_file(&mut self)
        ensures
            spec_files_view(final(self).project_files@) == spec_rename_project(
                spec_files_view(old(self).project_files@),
                old(self).rename_file_path@,
                old(self).rename_file_new_name@,
            ),
            final(self).project_active_tab == old(self).project_active_tab,
            final(self).current_project_path == old(self).current_project_path,
            final(self).show_rename_dialog == old(self).show_rename_dialog,
            final(self).rename_file_path == old(self).rename_file_path,
            final(self).rename_file_new_name == old(self).rename_file_new_name,
    {
        let ghost views = spec_files_view(self.project_files@);
        let ghost gpath = self.rename_file_path@;
        let ghost gnew = self.rename_file_new_name@;
        let path_to_rename = self.rename_file_path.clone();
        let new_name = self.rename_file_new_name.clone();
        let mut i: usize = 0;
        while i < self.project_files.len()
            invariant
                0 <= i <= self.project_files@.len(),
                views == spec_files_view(self.project_files@),
                gpath == path_to_rename@,
                gnew == new_name@,
                gpath == old(self).rename_file_path@,
                gnew == old(self).rename_file_new_name@,
                *self == *old(self),
                forall|j: int| 0 <= j < i ==> (#[trigger] views[j]).path != gpath,
            decreases self.project_files@.len() - i,
        {
            proof {
                assert(views[i as int] == spec_file_view(self.project_files@[i as int]));
            }
            if str_eq(self.project_files[i].path.as_str(), path_to_rename.as_str()) {
                let mut f = self.project_files.remove(i);
                let ghost forig = f;
                let old_path = f.path.clone();
                let parent: String = match &f.parent_path {
                    Some(p) => p.clone(),
                    None => "/".to_owned(),
                };
                let new_path: String = if str_eq(parent.as_str(), "/") {
                    str_concat("/", new_name.as_str())
                } else {
                    str_concat3(parent.as_str(), "/", new_name.as_str())
                };
                f.path = new_path.clone();
                f.name = new_name.clone();
                update_children_paths_helper(&mut f, old_path.as_str(), new_path.as_str());
                proof {
                    assert(spec_file_view(f).children =~= spec_files_view(f.children@));
                    assert(views[i as int] == spec_file_view(forig));
                    assert(views[i as int].children =~= spec_files_view(forig.children@));
                    assert(old_path@ == views[i as int].path);
                    let target = spec_renamed_root(views[i as int], gnew);
                    assert(new_path@ == spec_renamed_path(views[i as int].parent_path, gnew));
                    assert(spec_file_view(f).path == target.path);
                    assert(spec_file_view(f).name == target.name);
                    assert(spec_file_view(f).children =~= target.children);
                    assert(spec_file_view(f) == target);
                    lemma_rename_roots_at(views, gpath, gnew, i as int);
                }
                self.project_files.insert(i, f);
                proof {
                    assert(spec_files_view(self.project_files@) =~= views.update(
                        i as int,
                        spec_renamed_root(views[i as int], gnew),
                    ));
                    assert(spec_rename_roots(views, gpath, gnew) == (
                        views.update(i as int, spec_renamed_root(views[i as int], gnew)),
                        true,
                    ));
                    assert(spec_rename_project(views, gpath, gnew) == views.update(
                        i as int,
                        spec_renamed_root(views[i as int], gnew),
                    ));
                }
                return ;
            }
            i += 1;
        }
        proof {
            lemma_rename_roots_none(views, gpath, gnew);
        }
        let mut k: usize = 0;
        while k < self.project_files.len()
            invariant
                0 <= k <= self.project_files@.len(),
                views == spec_files_view(self.project_files@),
                gpath == path_to_rename@,
                gnew == new_name@,
                gpath == old(self).rename_file_path@,
                gnew == old(self).rename_file_new_name@,
                *self == *old(self),
                spec_rename_roots(views, gpath, gnew) == (views, false),
                forall|j: int|
                    0 <= j < k ==> spec_rename_in(
                        (#[trigger] views[j]).children,
                        views[j].children.len() as int,
                        gpath,
                        gnew,
                    ).1 == false,
            decreases self.project_files@.len() - k,
        {
            proof {
                assert(views[k as int] == spec_file_view(self.project_files@[k as int]));
            }
            let copied = clone_project_files(&self.project_files[k].children);
            let (new_children, success) = rename_in_children(
                copied,
                path_to_rename.as_str(),
                new_name.as_str(),
            );
            proof {
                assert(spec_file_view(self.project_files@[k as int]).children
                    =~= spec_files_view(self.project_files@[k as int].children@));
            }
            if success {
                let mut f = self.project_files.remove(k);
                f.children = new_children;
                proof {
                    let inner = spec_rename_in(
                        views[k as int].children,
                        views[k as int].children.len() as int,
                        gpath,
                        gnew,
                    );
                    assert(spec_file_view(f).children =~= spec_files_view(f.children@));
                    assert(spec_file_view(f).children =~= inner.0);
                    assert(spec_file_view(f) == (FileTree {
                        children: inner.0,
                        ..views[k as int]
                    }));
                    lemma_rename_fallback_at(views, gpath, gnew, k as int);
                }
                self.project_files.insert(k, f);
                proof {
                    let upd = FileTree {
                        children: spec_rename_in(
                            views[k as int].children,
                            views[k as int].children.len() as int,
                            gpath,
                            gnew,
                        ).0,
                        ..views[k as int]
                    };
                    assert(spec_files_view(self.project_files@) =~= views.update(k as int, upd));
                    assert(spec_rename_fallback(views, gpath, gnew) == views.update(
                        k as int,
                        upd,
                    ));
                    assert(spec_rename_project(views, gpath, gnew) == views.update(k as int, upd));
                }
                return ;
            }
            k += 1;
        }
        proof {
            lemma_rename_fallback_none(views, gpath, gnew);
            assert(spec_rename_project(views, gpath, gnew) == views);
        }
    }


    /// Insert a file under a parent folder: the first root whose path is
    /// the parent gains it directly; otherwise the first root whose
    /// children contain the parent folder (per the index scan) receives
    /// it; otherwise the file is dropped.
    #[verifier::rlimit(100)]
    #[verifier::spinoff_prover]
    pub fn add_file_to_parent(&mut self, parent_path: &str, file: ProjectFile)
        ensures
            spec_files_view(final(self).project_files@) == spec_add_to_parent(
                spec_files_view(old(self).project_files@),
                parent_path@,
                spec_file_view(file),
            ),
            final(self).project_active_tab == old(self).project_active_tab,
            final(self).current_project_path == old(self).current_project_path,
            final(self).show_rename_dialog == old(self).show_rename_dialog,
            final(self).rename_file_path == old(self).rename_file_path,
            final(self).rename_file_new_name == old(self).rename_file_new_name,
    {
        let ghost views = spec_files_view(self.project_files@);
        let ghost gnode = spec_file_view(file);
        let mut i: usize = 0;
        while i < self.project_files.len()
            invariant
                0 <= i <= self.project_files@.len(),
                views == spec_files_view(self.project_files@),
                views == spec_files_view(old(self).project_files@),
                gnode == spec_file_view(file),
                *self == *old(self),
                forall|j: int| 0 <= j < i ==> (#[trigger] views[j]).path != parent_path@,
            decreases self.project_files@.len() - i,
        {
            proof {
                assert(views[i as int] == spec_file_view(self.project_files@[i as int]));
            }
            if str_eq(self.project_files[i].path.as_str(), parent_path) {
                let mut f = self.project_files.remove(i);
                let ghost forig = f;
                f.children.push(file);
                proof {
                    assert(views[i as int] == spec_file_view(forig));
                    assert(spec_file_view(forig).children =~= spec_files_view(forig.children@));
                    assert(spec_file_view(f).children =~= spec_files_view(f.children@));
                    assert(spec_files_view(f.children@) =~= spec_files_view(
                        forig.children@,
                    ).push(gnode));
                    let target = FileTree {
                        children: views[i as int].children.push(gnode),
                        ..views[i as int]
                    };
                    assert(spec_file_view(f).children =~= target.children);
                    assert(spec_file_view(f) == target);
                    lemma_push_first_root_at(views, parent_path@, gnode, i as int);
                }
                self.project_files.insert(i, f);
                proof {
                    assert(spec_files_view(self.project_files@) =~= views.update(
                        i as int,
                        FileTree { children: views[i as int].children.push(gnode), ..views[
                            i as int
                        ] },
                    ));
                }
                return ;
            }
            i += 1;
        }
        proof {
            lemma_push_first_root_none(views, parent_path@, gnode);
        }
        let mut k: usize = 0;
        while k < self.project_files.len()
            invariant
                0 <= k <= self.project_files@.len(),
                views == spec_files_view(self.project_files@),
                views == spec_files_view(old(self).project_files@),
                gnode == spec_file_view(file),
                *self == *old(self),
                spec_push_first_root(views, parent_path@, gnode) == (views, false),
                spec_add_pass2(views, parent_path@, gnode, 0) == spec_add_pass2(
                    views,
                    parent_path@,
                    gnode,
                    k as int,
                ),
            decreases self.project_files@.len() - k,
        {
            proof {
                assert(views[k as int] == spec_file_view(self.project_files@[k as int]));
                assert(views[k as int].children =~= spec_files_view(
                    self.project_files@[k as int].children@,
                ));
            }
            match find_folder_path_indices(&self.project_files[k].children, parent_path) {
                Some((p, c)) => {
                    if p == 0 {
                        if c < self.project_files[k].children.len() {
                            let mut root = self.project_files.remove(k);
                            let ghost rorig = root;
                            let mut child = root.children.remove(c);
                            let ghost corig = child;
                            child.children.push(file);
                            proof {
                                assert(spec_file_view(child).children =~= spec_files_view(
                                    child.children@,
                                ));
                                assert(spec_file_view(corig).children =~= spec_files_view(
                                    corig.children@,
                                ));
                                assert(spec_file_view(child).children =~= spec_file_view(
                                    corig,
                                ).children.push(gnode));
                                assert(spec_file_view(child) == (FileTree {
                                    children: spec_file_view(corig).children.push(gnode),
                                    ..spec_file_view(corig)
                                }));
                            }
                            root.children.insert(c, child);
                            proof {
                                assert(spec_file_view(rorig).children =~= spec_files_view(
                                    rorig.children@,
                                ));
                                assert(spec_file_view(root).children =~= spec_files_view(
                                    root.children@,
                                ));
                                assert(spec_file_view(corig) == views[k as int].children[c as int]);
                                assert(spec_file_view(root).children =~= views[
                                    k as int
                                ].children.update(
                                    c as int,
                                    FileTree {
                                        children: views[k as int].children[
                                            c as int
                                        ].children.push(gnode),
                                        ..views[k as int].children[c as int]
                                    },
                                ));
                                assert(spec_file_view(root) == (FileTree {
                                    children: views[k as int].children.update(
                                        c as int,
                                        FileTree {
                                            children: views[k as int].children[
                                                c as int
                                            ].children.push(gnode),
                                            ..views[k as int].children[c as int]
                                        },
                                    ),
                                    ..views[k as int]
                                }));
                            }
                            self.project_files.insert(k, root);
                            proof {
                                assert(spec_files_view(self.project_files@) =~= spec_add_pass2(
                                    views,
                                    parent_path@,
                                    gnode,
                                    k as int,
                                ));
                            }
                        }
                        return ;
                    } else {
                        let mut root = self.project_files.remove(k);
                        let ghost rorig = root;
                        let mut mid = root.children.remove(p);
                        let ghost morig = mid;
                        let mut grandchild = mid.children.remove(c);
                        let ghost gorig = grandchild;
                        grandchild.children.push(file);
                        proof {
                            assert(views[k as int] == spec_file_view(rorig));
                            assert(views[k as int].children =~= spec_files_view(rorig.children@));
                            assert(morig == rorig.children@[p as int]);
                            assert(spec_file_view(morig).children =~= spec_files_view(
                                morig.children@,
                            ));
                            assert(gorig == morig.children@[c as int]);
                            assert(spec_file_view(grandchild).children =~= spec_files_view(
                                grandchild.children@,
                            ));
                            assert(spec_file_view(gorig).children =~= spec_files_view(
                                gorig.children@,
                            ));
                            assert(spec_files_view(grandchild.children@) =~= spec_files_view(
                                gorig.children@,
                            ).push(gnode));
                            assert(spec_file_view(grandchild) == (FileTree {
                                children: spec_file_view(gorig).children.push(gnode),
                                ..spec_file_view(gorig)
                            }));
                        }
                        let ghost ggrand = grandchild;
                        mid.children.insert(c, grandchild);
                        proof {
                            assert(mid.children@ =~= morig.children@.update(c as int, ggrand));
                            assert(spec_file_view(mid).children =~= spec_files_view(
                                mid.children@,
                            ));
                            assert(spec_file_view(morig) == views[k as int].children[p as int]);
                            assert(spec_file_view(gorig) == views[k as int].children[
                                p as int
                            ].children[c as int]);
                            assert(spec_file_view(mid).children =~= views[k as int].children[
                                p as int
                            ].children.update(
                                c as int,
                                FileTree {
                                    children: views[k as int].children[p as int].children[
                                        c as int
                                    ].children.push(gnode),
                                    ..views[k as int].children[p as int].children[c as int]
                                },
                            ));
                            assert(spec_file_view(mid) == (FileTree {
                                children: views[k as int].children[p as int].children.update(
                                    c as int,
                                    FileTree {
                                        children: views[k as int].children[p as int].children[
                                            c as int
                                        ].children.push(gnode),
                                        ..views[k as int].children[p as int].children[c as int]
                                    },
                                ),
                                ..views[k as int].children[p as int]
                            }));
                        }
                        let ghost gmid = mid;
                        root.children.insert(p, mid);
                        proof {
                            assert(root.children@ =~= rorig.children@.update(p as int, gmid));
                            assert(spec_file_view(root).children =~= spec_files_view(
                                root.children@,
                            ));
                            assert(spec_file_view(root).children =~= views[
                                k as int
                            ].children.update(p as int, spec_file_view(gmid)));
                            assert(spec_file_view(root) == (FileTree {
                                children: views[k as int].children.update(
                                    p as int,
                                    spec_file_view(gmid),
                                ),
                                ..views[k as int]
                            }));
                        }
                        self.project_files.insert(k, root);
                        proof {
                            assert(spec_files_view(self.project_files@) =~= spec_add_pass2(
                                views,
                                parent_path@,
                                gnode,
                                k as int,
                            ));
                        }
                        return ;
                    }
                },
                None => {
                },
            }
            k += 1;
        }
    }

    /// Create a folder under a parent path: the first free name of the
    /// form `name`, `name (1)`, `name (2)`, ... is used; under the root
    /// the folder becomes a new root, otherwise it is inserted under the
    /// parent folder.
    #[verifier::rlimit(100)]
    pub fn create_project_folder(&mut self, parent_path: String, folder_name: String)
        ensures
            spec_files_view(final(self).project_files@) == (match spec_first_free_folder(
                spec_files_view(old(self).project_files@),
                parent_path@,
                folder_name@,
            ) {
                Some(k) => spec_place_new_file(
                    spec_files_view(old(self).project_files@),
                    parent_path@,
                    spec_new_node(
                        spec_folder_candidate(folder_name@, k),
                        ProjectFileType::Folder,
                        parent_path@,
                    ),
                ),
                None => spec_files_view(old(self).project_files@),
            }),
            final(self).project_active_tab == old(self).project_active_tab,
            final(self).current_project_path == old(self).current_project_path,
            final(self).show_rename_dialog == old(self).show_rename_dialog,
            final(self).rename_file_path == old(self).rename_file_path,
            final(self).rename_file_new_name == old(self).rename_file_new_name,
    {
        let ghost views = spec_files_view(self.project_files@);
        let mut unique_name = folder_name.clone();
        let mut counter: u32 = 0;
        while counter < 0xffff_ffffu32
            invariant
                views == spec_files_view(self.project_files@),
                views == spec_files_view(old(self).project_files@),
                *self == *old(self),
                unique_name@ == spec_folder_candidate(folder_name@, counter),
                forall|j: u32|
                    j < counter ==> !spec_candidate_free(
                        views,
                        parent_path@,
                        spec_folder_candidate(folder_name@, j),
                    ),
            decreases 0xffff_ffffu32 - counter,
        {
            let probe = str_concat3(parent_path.as_str(), "/", unique_name.as_str());
            if !self.path_exists(probe.as_str()) {
                proof {
                    let k = counter;
                    assert(spec_candidate_free(
                        views,
                        parent_path@,
                        spec_folder_candidate(folder_name@, k),
                    ));
                    let w = choose|w: u32|
                        w < 0xffff_ffffu32 && spec_candidate_free(
                            views,
                            parent_path@,
                            spec_folder_candidate(folder_name@, w),
                        ) && forall|j: u32|
                            j < w ==> !spec_candidate_free(
                                views,
                                parent_path@,
                                spec_folder_candidate(folder_name@, j),
                            );
                    if w < k {
                        assert(!spec_candidate_free(
                            views,
                            parent_path@,
                            spec_folder_candidate(folder_name@, w),
                        ));
                    }
                    if k < w {
                        assert(!spec_candidate_free(
                            views,
                            parent_path@,
                            spec_folder_candidate(folder_name@, k),
                        ));
                    }
                    assert(spec_first_free_folder(views, parent_path@, folder_name@) == Some(k));
                }
                let path: String = if str_eq(parent_path.as_str(), "/") {
                    str_concat("/", unique_name.as_str())
                } else {
                    str_concat3(parent_path.as_str(), "/", unique_name.as_str())
                };
                let folder = ProjectFile {
                    name: unique_name,
                    file_type: ProjectFileType::Folder,
                    path,
                    children: Vec::new(),
                    expanded: false,
                    parent_path: Some(parent_path.clone()),
                };
                proof {
                    assert(spec_file_view(folder).children =~= Seq::<FileTree>::empty());
                    assert(spec_file_view(folder) == spec_new_node(
                        spec_folder_candidate(folder_name@, counter),
                        ProjectFileType::Folder,
                        parent_path@,
                    ));
                }
                if str_eq(parent_path.as_str(), "/") {
                    let ghost gf = spec_file_view(folder);
                    self.project_files.push(folder);
                    proof {
                        assert(spec_files_view(self.project_files@) =~= views.push(gf));
                    }
                } else {
                    self.add_file_to_parent(parent_path.as_str(), folder);
                }
                return ;
            }
            counter += 1;
            let count_str = u32_to_dec_string(counter);
            let with_counter = str_concat3(folder_name.as_str(), " (", count_str.as_str());
            unique_name = str_concat(with_counter.as_str(), ")");
            proof {
                assert(unique_name@ =~= spec_folder_candidate(folder_name@, counter));
            }
        }
        proof {
            assert(spec_first_free_folder(views, parent_path@, folder_name@) is None);
        }
    }

    /// Create a file under a parent path: the first free name in the
    /// candidate chain (the base name, then counter-mangled forms that
    /// keep the extension) is used; under the root the file becomes a
    /// new root, otherwise it is inserted under the parent folder.
    #[verifier::rlimit(100)]
    pub fn create_project_file(
        &mut self,
        parent_path: String,
        file_name: String,
        file_type: ProjectFileType,
    )
        ensures
            spec_files_view(final(self).project_files@) == (match spec_first_free_file(
                spec_files_view(old(self).project_files@),
                parent_path@,
                file_name@,
            ) {
                Some(k) => spec_place_new_file(
                    spec_files_view(old(self).project_files@),
                    parent_path@,
                    spec_new_node(spec_file_candidate(file_name@, k), file_type, parent_path@),
                ),
                None => spec_files_view(old(self).project_files@),
            }),
            final(self).project_active_tab == old(self).project_active_tab,
            final(self).current_project_path == old(self).current_project_path,
            final(self).show_rename_dialog == old(self).show_rename_dialog,
            final(self).rename_file_path == old(self).rename_file_path,
            final(self).rename_file_new_name == old(self).rename_file_new_name,
    {
        let ghost views = spec_files_view(self.project_files@);
        let mut unique_name = file_name.clone();
        let mut counter: u32 = 0;
        while counter < 0xffff_ffffu32
            invariant
                views == spec_files_view(self.project_files@),
                views == spec_files_view(old(self).project_files@),
                *self == *old(self),
                unique_name@ == spec_file_candidate(file_name@, counter),
                forall|j: u32|
                    j < counter ==> !spec_candidate_free(
                        views,
                        parent_path@,
                        spec_file_candidate(file_name@, j),
                    ),
            decreases 0xffff_ffffu32 - counter,
        {
            let probe = str_concat3(parent_path.as_str(), "/", unique_name.as_str());
            if !self.path_exists(probe.as_str()) {
                proof {
                    let k = counter;
                    assert(spec_candidate_free(
                        views,
                        parent_path@,
                        spec_file_candidate(file_name@, k),
                    ));
                    let w = choose|w: u32|
                        w < 0xffff_ffffu32 && spec_candidate_free(
                            views,
                            parent_path@,
                            spec_file_candidate(file_name@, w),
                        ) && forall|j: u32|
                            j < w ==> !spec_candidate_free(
                                views,
                                parent_path@,
                                spec_file_candidate(file_name@, j),
                            );
                    if w < k {
                        assert(!spec_candidate_free(
                            views,
                            parent_path@,
                            spec_file_candidate(file_name@, w),
                        ));
                    }
                    if k < w {
                        assert(!spec_candidate_free(
                            views,
                            parent_path@,
                            spec_file_candidate(file_name@, k),
                        ));
                    }
                    assert(spec_first_free_file(views, parent_path@, file_name@) == Some(k));
                }
                let path: String = if str_eq(parent_path.as_str(), "/") {
                    str_concat("/", unique_name.as_str())
                } else {
                    str_concat3(parent_path.as_str(), "/", unique_name.as_str())
                };
                let file = ProjectFile {
                    name: unique_name,
                    file_type,
                    path,
                    children: Vec::new(),
                    expanded: false,
                    parent_path: Some(parent_path.clone()),
                };
                proof {
                    assert(spec_file_view(file).children =~= Seq::<FileTree>::empty());
                    assert(spec_file_view(file) == spec_new_node(
                        spec_file_candidate(file_name@, counter),
                        file_type,
                        parent_path@,
                    ));
                }
                if str_eq(parent_path.as_str(), "/") {
                    let ghost gf = spec_file_view(file);
                    self.project_files.push(file);
                    proof {
                        assert(spec_files_view(self.project_files@) =~= views.push(gf));
                    }
                } else {
                    self.add_file_to_parent(parent_path.as_str(), file);
                }
                return ;
            }
            counter += 1;
            let count_str = u32_to_dec_string(counter);
            if contains_char(unique_name.as_str(), '.') {
                match first_index_of_char(file_name.as_str(), '.') {
                    Some(d) => {
                        let stem = file_name.as_str().substring_char(0, d);
                        let ext = file_name.as_str().substring_char(
                            d + 1,
                            file_name.as_str().unicode_len(),
                        );
                        if ext.unicode_len() > 0 {
                            let s1 = str_concat3(stem, " (", count_str.as_str());
                            let s2 = str_concat(s1.as_str(), ")");
                            let s3 = str_concat(s2.as_str(), ".");
                            unique_name = str_concat(s3.as_str(), ext);
                            proof {
                                assert(stem@ =~= file_name@.take(d as int));
                                assert(ext@ =~= file_name@.skip(d as int + 1));
                                assert(unique_name@ =~= spec_file_candidate(
                                    file_name@,
                                    counter,
                                ));
                            }
                        } else {
                            let s1 = str_concat3(unique_name.as_str(), " (", count_str.as_str());
                            unique_name = str_concat(s1.as_str(), ")");
                            proof {
                                assert(ext@ =~= file_name@.skip(d as int + 1));
                                assert(unique_name@ =~= spec_file_candidate(
                                    file_name@,
                                    counter,
                                ));
                            }
                        }
                    },
                    None => {
                        let s1 = str_concat3(unique_name.as_str(), " (", count_str.as_str());
                        unique_name = str_concat(s1.as_str(), ")");
                        proof {
                            assert(unique_name@ =~= spec_file_candidate(file_name@, counter));
                        }
                    },
                }
            } else {
                let s1 = str_concat3(unique_name.as_str(), " (", count_str.as_str());
                unique_name = str_concat(s1.as_str(), ")");
                proof {
                    assert(unique_name@ =~= spec_file_candidate(file_name@, counter));
                }
            }
        }
        proof {
            assert(spec_first_free_file(views, parent_path@, file_name@) is None);
        }
    }

    /// Get the files in a directory: the children of every folder node
    /// whose path is the directory, over the whole tree.
    pub fn get_files_in_directory<'a>(&'a self, directory_path: &str) -> (r: Vec<&'a ProjectFile>)
        ensures
            spec_ref_views(r@) == spec_collect_roots(
                spec_files_view(self.project_files@),
                self.project_files@.len() as int,
                directory_path@,
            ),
    {
        let mut result: Vec<&'a ProjectFile> = Vec::new();
        let views = Ghost(spec_files_view(self.project_files@));
        let mut i: usize = 0;
        while i < self.project_files.len()
            invariant
                0 <= i <= self.project_files@.len(),
                views@ == spec_files_view(self.project_files@),
                spec_ref_views(result@) == spec_collect_roots(views@, i as int, directory_path@),
            decreases self.project_files@.len() - i,
        {
            proof {
                assert(views@[i as int] == spec_file_view(self.project_files@[i as int]));
            }
            self.collect_files_in_directory(&self.project_files[i], directory_path, &mut result);
            i += 1;
        }
        result
    }

    /// Collect into `result` the files of `file`'s subtree that sit in
    /// the directory.
    pub fn collect_files_in_directory<'a>(
        &self,
        file: &'a ProjectFile,
        directory_path: &str,
        result: &mut Vec<&'a ProjectFile>,
    )
        ensures
            spec_ref_views(final(result)@) == spec_ref_views(old(result)@) + spec_collect_in_dir(
                spec_file_view(*file),
                directory_path@,
            ),
        decreases *file,
    {
        let t = Ghost(spec_file_view(*file));
        if str_eq(file.path.as_str(), directory_path) && file.file_type.is_folder() {
            let mut i: usize = 0;
            while i < file.children.len()
                invariant
                    0 <= i <= file.children@.len(),
                    t@ == spec_file_view(*file),
                    t@.children.len() == file.children@.len(),
                    spec_ref_views(result@) == spec_ref_views(old(result)@) + t@.children.take(
                        i as int,
                    ),
                decreases file.children@.len() - i,
            {
                let ghost prev = result@;
                result.push(&file.children[i]);
                proof {
                    assert(t@.children[i as int] == spec_file_view(file.children@[i as int]));
                    assert(result@ =~= prev.push(&file.children[i as int]));
                    assert(spec_ref_views(result@) =~= spec_ref_views(prev).push(
                        spec_file_view(file.children@[i as int]),
                    ));
                    assert(spec_ref_views(result@) =~= spec_ref_views(old(result)@)
                        + t@.children.take(i + 1));
                }
                i += 1;
            }
            proof {
                assert(t@.children.take(t@.children.len() as int) =~= t@.children);
            }
        } else if file.file_type.is_folder() {
            let mut i: usize = 0;
            while i < file.children.len()
                invariant
                    0 <= i <= file.children@.len(),
                    t@ == spec_file_view(*file),
                    t@.children.len() == file.children@.len(),
                    spec_ref_views(result@) == spec_ref_views(old(result)@)
                        + spec_collect_children(t@.children, i as int, directory_path@),
                decreases file.children@.len() - i,
            {
                proof {
                    assert(t@.children[i as int] == spec_file_view(file.children@[i as int]));
                    assert(decreases_to!(*file => file.children));
                    assert(decreases_to!(file.children => file.children@));
                    assert(decreases_to!(file.children@ => file.children@[i as int]));
                }
                self.collect_files_in_directory(&file.children[i], directory_path, result);
                i += 1;
            }
            proof {
                assert(spec_collect_in_dir(t@, directory_path@) == spec_collect_children(
                    t@.children,
                    t@.children.len() as int,
                    directory_path@,
                ));
            }
        } else {
            proof {
                assert(spec_collect_in_dir(t@, directory_path@) =~= Seq::<FileTree>::empty());
                assert(spec_ref_views(result@) =~= spec_ref_views(old(result)@) + Seq::<
                    FileTree,
                >::empty());
            }
        }
    }
}

/// The mirrors of a list of borrowed files.
pub open spec fn spec_ref_views(fs: Seq<&ProjectFile>) -> Seq<FileTree> {
    Seq::new(fs.len(), |i: int| spec_file_view(*fs[i]))
}

/// One leaf file of the sample project.
fn leaf_file(name: &str, file_type: ProjectFileType, path: &str, parent: &str) -> (r: ProjectFile)
    ensures
        spec_file_view(r) == (FileTree {
            name: name@,
            file_type,
            path: path@,
            children: Seq::<FileTree>::empty(),
            expanded: false,
            parent_path: Some(parent@),
        }),
{
    let r = ProjectFile {
        name: name.to_owned(),
        file_type,
        path: path.to_owned(),
        children: Vec::new(),
        expanded: false,
        parent_path: Some(parent.to_owned()),
    };
    proof {
        assert(spec_file_view(r).children =~= Seq::<FileTree>::empty());
        assert(spec_file_view(r) =~~= (FileTree {
            name: name@,
            file_type,
            path: path@,
            children: Seq::<FileTree>::empty(),
            expanded: false,
            parent_path: Some(parent@),
        }));
    }
    r
}

/// One root folder of the sample project.
fn folder_file(name: &str, path: &str, children: Vec<ProjectFile>) -> (r: ProjectFile)
    ensures
        spec_file_view(r) == (FileTree {
            name: name@,
            file_type: ProjectFileType::Folder,
            path: path@,
            children: spec_files_view(children@),
            expanded: false,
            parent_path: Some("/"@),
        }),
{
    let r = ProjectFile {
        name: name.to_owned(),
        file_type: ProjectFileType::Folder,
        path: path.to_owned(),
        children,
        expanded: false,
        parent_path: Some("/".to_owned()),
    };
    proof {
        assert(spec_file_view(r).children =~= spec_files_view(r.children@));
        assert(spec_file_view(r) =~~= (FileTree {
            name: name@,
            file_type: ProjectFileType::Folder,
            path: path@,
            children: spec_files_view(r.children@),
            expanded: false,
            parent_path: Some("/"@),
        }));
    }
    r
}

/// The sample project structure the panel starts with.
pub open spec fn spec_sample_project() -> Seq<FileTree> {
    seq![
        spec_sample_folder(
            "Scripts"@,
            "/Scripts"@,
            seq![
                spec_sample_leaf(
                    "Player.rs"@,
                    ProjectFileType::Script,
                    "/Scripts/Player.lua"@,
                    "/Scripts"@,
                ),
                spec_sample_leaf(
                    "Enemy.rs"@,
                    ProjectFileType::Script,
                    "/Scripts/Enemy.lua"@,
                    "/Scripts"@,
                ),
            ],
        ),
        spec_sample_folder(
            "Scenes"@,
            "/Scenes"@,
            seq![
                spec_sample_leaf(
                    "MainScene.scene"@,
                    ProjectFileType::Scene,
                    "/Scenes/MainScene.scene"@,
                    "/Scenes"@,
                ),
            ],
        ),
        spec_sample_folder(
            "Textures"@,
            "/Textures"@,
            seq![
                spec_sample_leaf(
                    "player.png"@,
                    ProjectFileType::Texture,
                    "/Textures/player.png"@,
                    "/Textures"@,
                ),
                spec_sample_leaf(
                    "enemy.png"@,
                    ProjectFileType::Texture,
                    "/Textures/enemy.png"@,
                    "/Textures"@,
                ),
                spec_sample_leaf(
                    "background.png"@,
                    ProjectFileType::Texture,
                    "/Textures/background.png"@,
                    "/Textures"@,
                ),
            ],
        ),
        spec_sample_folder(
            "Audio"@,
            "/Audio"@,
            seq![
                spec_sample_leaf(
                    "music.mp3"@,
                    ProjectFileType::Audio,
                    "/Audio/music.mp3"@,
                    "/Audio"@,
                ),
                spec_sample_leaf(
                    "explosion.wav"@,
                    ProjectFileType::Audio,
                    "/Audio/explosion.wav"@,
                    "/Audio"@,
                ),
                spec_sample_leaf(
                    "wind.ogg"@,
                    ProjectFileType::Audio,
                    "/Audio/wind.ogg"@,
                    "/Audio"@,
                ),
            ],
        ),
    ]
}

/// A sample leaf node.
pub open spec fn spec_sample_leaf(
    name: Seq<char>,
    file_type: ProjectFileType,
    path: Seq<char>,
    parent: Seq<char>,
) -> FileTree {
    FileTree {
        name,
        file_type,
        path,
        children: Seq::empty(),
        expanded: false,
        parent_path: Some(parent),
    }
}

/// A sample root folder.
pub open spec fn spec_sample_folder(
    name: Seq<char>,
    path: Seq<char>,
    children: Seq<FileTree>,
) -> FileTree {
    FileTree {
        name,
        file_type: ProjectFileType::Folder,
        path,
        children,
        expanded: false,
        parent_path: Some("/"@),
    }
}

/// Remove every file carrying `path` from `children`, at every depth.
#[verifier::loop_isolation(false)]
pub fn remove_from_children(children: Vec<ProjectFile>, path: &str) -> (r: Vec<ProjectFile>)
    ensures
        spec_files_view(r@) == spec_remove_all(spec_files_view(children@), path@),
    decreases children@,
{
    let ghost entry = children@;
    let mut remaining = children;
    let initial_len = remaining.len();
    proof {
        assert(entry.len() == initial_len);
    }
    let mut result: Vec<ProjectFile> = Vec::new();
    let mut k: usize = 0;
    while remaining.len() > 0
        invariant
            entry.len() <= usize::MAX,
            0 <= k <= entry.len(),
            remaining@ =~= entry.skip(k as int),
            spec_files_view(result@) == spec_remove_all(
                spec_files_view(entry.take(k as int)),
                path@,
            ),
        decreases remaining@.len(),
    {
        let c = remaining.remove(0);
        proof {
            assert(c == entry[k as int]);
            assert(remaining@ =~= entry.skip(k as int + 1));
            assert(spec_files_view(entry.take(k as int)).push(spec_file_view(c))
                =~= spec_files_view(entry.take(k as int + 1)));
            lemma_remove_all_push(
                spec_files_view(entry.take(k as int)),
                spec_file_view(c),
                path@,
            );
        }
        if !str_eq(c.path.as_str(), path) {
            proof {
                assert(decreases_to!(entry => entry[k as int]));
                assert(decreases_to!(entry[k as int] => entry[k as int].children));
                assert(decreases_to!(entry[k as int].children => entry[k as int].children@));
                assert(decreases_to!(entry => c.children@));
            }
            let new_children = remove_from_children(c.children, path);
            let processed = ProjectFile {
                name: c.name,
                file_type: c.file_type,
                path: c.path,
                children: new_children,
                expanded: c.expanded,
                parent_path: c.parent_path,
            };
            proof {
                assert(spec_file_view(entry[k as int]).children =~= spec_files_view(
                    entry[k as int].children@,
                ));
                assert(spec_file_view(processed).children =~= spec_files_view(new_children@));
                assert(spec_file_view(processed) =~~= spec_remove_tree(
                    spec_file_view(entry[k as int]),
                    path@,
                ));
                assert(spec_files_view(result@.push(processed)) =~= spec_files_view(
                    result@,
                ).push(spec_file_view(processed)));
            }
            result.push(processed);
        }
        k += 1;
    }
    proof {
        assert(entry.take(entry.len() as int) =~= entry);
    }
    result
}

/// A descendant of a renamed file: its path has the renamed file's old
/// path replaced by the new one, its recorded parent becomes the new
/// path, and all of its own descendants are rewritten the same way.
pub open spec fn spec_upd_desc(c: FileTree, old_path: Seq<char>, new_path: Seq<char>) -> FileTree
    decreases c,
{
    FileTree {
        path: spec_replace(c.path, old_path, new_path),
        parent_path: Some(new_path),
        children: spec_upd_desc_all(c.children, old_path, new_path),
        ..c
    }
}

/// The descendants rewrite applied to a list.
pub open spec fn spec_upd_desc_all(ts: Seq<FileTree>, old_path: Seq<char>, new_path: Seq<char>)
    -> Seq<FileTree>
    decreases ts,
{
    if ts.len() == 0 {
        Seq::empty()
    } else {
        seq![spec_upd_desc(ts[0], old_path, new_path)] + spec_upd_desc_all(
            ts.drop_first(),
            old_path,
            new_path,
        )
    }
}

/// Appending a file appends its rewritten form.
pub proof fn lemma_upd_desc_all_push(ts: Seq<FileTree>, t: FileTree, op: Seq<char>, np: Seq<char>)
    ensures
        spec_upd_desc_all(ts.push(t), op, np) == spec_upd_desc_all(ts, op, np) + seq![
            spec_upd_desc(t, op, np),
        ],
    decreases ts.len(),
{
    let p = ts.push(t);
    if ts.len() == 0 {
        assert(p[0] == t);
        assert(p.drop_first() =~= Seq::<FileTree>::empty());
        assert(spec_upd_desc_all(Seq::<FileTree>::empty(), op, np) == Seq::<FileTree>::empty());
        assert(spec_upd_desc_all(p, op, np) =~= spec_upd_desc_all(ts, op, np) + seq![
            spec_upd_desc(t, op, np),
        ]);
    } else {
        lemma_upd_desc_all_push(ts.drop_first(), t, op, np);
        assert(p.drop_first() =~= ts.drop_first().push(t));
        assert(p[0] == ts[0]);
        assert(spec_upd_desc_all(p, op, np) =~= spec_upd_desc_all(ts, op, np) + seq![
            spec_upd_desc(t, op, np),
        ]);
    }
}

/// Rewrites the descendants of `file` after a rename from `old_parent`
/// to `new_parent`: every descendant's path has `old_parent` replaced by
/// `new_parent`, and every descendant's recorded parent becomes
/// `new_parent`. The file's own fields are untouched.
#[verifier::loop_isolation(false)]
pub fn update_children_paths_helper(file: &mut ProjectFile, old_parent: &str, new_parent: &str)
    ensures
        final(file).name == old(file).name,
        final(file).file_type == old(file).file_type,
        final(file).path == old(file).path,
        final(file).expanded == old(file).expanded,
        final(file).parent_path == old(file).parent_path,
        spec_files_view(final(file).children@) == spec_upd_desc_all(
            spec_files_view(old(file).children@),
            old_parent@,
            new_parent@,
        ),
    decreases *old(file),
{
    let mut taken: Vec<ProjectFile> = Vec::new();
    std::mem::swap(&mut file.children, &mut taken);
    proof {
        assert(decreases_to!(*old(file) => old(file).children));
        assert(decreases_to!(old(file).children => old(file).children@));
    }
    let updated = upd_desc_list(taken, old_parent, new_parent);
    file.children = updated;
}

/// The descendants rewrite over a list of files.
#[verifier::loop_isolation(false)]
fn upd_desc_list(children: Vec<ProjectFile>, old_parent: &str, new_parent: &str) -> (r: Vec<
    ProjectFile,
>)
    ensures
        spec_files_view(r@) == spec_upd_desc_all(
            spec_files_view(children@),
            old_parent@,
            new_parent@,
        ),
    decreases children@,
{
    let ghost entry = children@;
    let mut remaining = children;
    let initial_len = remaining.len();
    proof {
        assert(entry.len() == initial_len);
    }
    let mut result: Vec<ProjectFile> = Vec::new();
    let mut k: usize = 0;
    while remaining.len() > 0
        invariant
            entry.len() <= usize::MAX,
            0 <= k <= entry.len(),
            remaining@ =~= entry.skip(k as int),
            spec_files_view(result@) == spec_upd_desc_all(
                spec_files_view(entry.take(k as int)),
                old_parent@,
                new_parent@,
            ),
        decreases remaining@.len(),
    {
        let mut c = remaining.remove(0);
        proof {
            assert(c == entry[k as int]);
            assert(remaining@ =~= entry.skip(k as int + 1));
            assert(spec_files_view(entry.take(k as int)).push(spec_file_view(c))
                =~= spec_files_view(entry.take(k as int + 1)));
            lemma_upd_desc_all_push(
                spec_files_view(entry.take(k as int)),
                spec_file_view(c),
                old_parent@,
                new_parent@,
            );
            assert(decreases_to!(entry => entry[k as int]));
            assert(decreases_to!(entry[k as int] => entry[k as int].children));
            assert(decreases_to!(entry[k as int].children => entry[k as int].children@));
        }
        let new_path = str_replace(c.path.as_str(), old_parent, new_parent);
        let grandchildren = upd_desc_list(c.children, old_parent, new_parent);
        let processed = ProjectFile {
            name: c.name,
            file_type: c.file_type,
            path: new_path,
            children: grandchildren,
            expanded: c.expanded,
            parent_path: Some(new_parent.to_owned()),
        };
        proof {
            assert(spec_file_view(entry[k as int]).children =~= spec_files_view(
                entry[k as int].children@,
            ));
            assert(spec_file_view(processed).children =~= spec_files_view(grandchildren@));
            assert(spec_file_view(processed) =~~= spec_upd_desc(
                spec_file_view(entry[k as int]),
                old_parent@,
                new_parent@,
            ));
            assert(spec_files_view(result@.push(processed)) =~= spec_files_view(result@).push(
                spec_file_view(processed),
            ));
        }
        result.push(processed);
        k += 1;
    }
    proof {
        assert(entry.take(entry.len() as int) =~= entry);
    }
    result
}

/// The path a renamed file receives: under the root the new name follows
/// the single slash, otherwise it follows the parent path and a slash.
pub open spec fn spec_renamed_path(parent: Option<Seq<char>>, new_name: Seq<char>) -> Seq<char> {
    let p = match parent {
        Some(p) => p,
        None => "/"@,
    };
    if p == "/"@ {
        "/"@ + new_name
    } else {
        p + "/"@ + new_name
    }
}

/// A matched child after renaming: new path and name; its direct
/// children (only) have the old path replaced in their paths and their
/// recorded parent set to the new path.
pub open spec fn spec_renamed_child(c: FileTree, new_name: Seq<char>) -> FileTree {
    let new_path = spec_renamed_path(c.parent_path, new_name);
    FileTree {
        name: new_name,
        path: new_path,
        children: Seq::new(
            c.children.len(),
            |i: int|
                FileTree {
                    path: spec_replace(c.children[i].path, c.path, new_path),
                    parent_path: Some(new_path),
                    ..c.children[i]
                },
        ),
        ..c
    }
}

/// One child of the rename pass: a path match is renamed; otherwise the
/// rename recurses into its children.
pub open spec fn spec_rename_child(c: FileTree, path: Seq<char>, new_name: Seq<char>) -> (
    FileTree,
    bool,
)
    decreases c, 1int, 0int,
{
    if c.path == path {
        (spec_renamed_child(c, new_name), true)
    } else {
        let (nc, s) = spec_rename_in(c.children, c.children.len() as int, path, new_name);
        (FileTree { children: nc, ..c }, s)
    }
}

/// The rename pass over the first `n` children.
pub open spec fn spec_rename_in(
    ts: Seq<FileTree>,
    n: int,
    path: Seq<char>,
    new_name: Seq<char>,
) -> (Seq<FileTree>, bool)
    decreases ts, 0int, n,
    via spec_rename_in_decreases
{
    if n <= 0 || n > ts.len() {
        (Seq::empty(), false)
    } else {
        let (rest, s1) = spec_rename_in(ts, n - 1, path, new_name);
        let (c, s2) = spec_rename_child(ts[n - 1], path, new_name);
        (rest.push(c), s1 || s2)
    }
}

#[via_fn]
proof fn spec_rename_in_decreases(ts: Seq<FileTree>, n: int, path: Seq<char>, new_name: Seq<char>) {
    if 0 < n <= ts.len() {
        assert(decreases_to!(ts => ts[n - 1]));
    }
}

/// Rename a file inside a list of children: every child (at any depth)
/// whose path matches is renamed, its direct children's paths rewritten;
/// the flag reports whether anything matched.
#[verifier::loop_isolation(false)]
pub fn rename_in_children(children: Vec<ProjectFile>, path: &str, new_name: &str) -> (r: (
    Vec<ProjectFile>,
    bool,
))
    ensures
        (spec_files_view(r.0@), r.1) == spec_rename_in(
            spec_files_view(children@),
            children@.len() as int,
            path@,
            new_name@,
        ),
    decreases children@,
{
    let ghost entry = children@;
    let ghost eviews = spec_files_view(children@);
    let mut remaining = children;
    let initial_len = remaining.len();
    proof {
        assert(entry.len() == initial_len);
    }
    let mut result: Vec<ProjectFile> = Vec::new();
    let mut renamed = false;
    let mut k: usize = 0;
    while remaining.len() > 0
        invariant
            entry.len() <= usize::MAX,
            0 <= k <= entry.len(),
            eviews == spec_files_view(entry),
            remaining@ =~= entry.skip(k as int),
            (spec_files_view(result@), renamed) == spec_rename_in(
                eviews,
                k as int,
                path@,
                new_name@,
            ),
        decreases remaining@.len(),
    {
        let mut c = remaining.remove(0);
        proof {
            assert(c == entry[k as int]);
            assert(remaining@ =~= entry.skip(k as int + 1));
            assert(eviews[k as int] == spec_file_view(c));
        }
        if str_eq(c.path.as_str(), path) {
            let parent: String = match &c.parent_path {
                Some(p) => p.clone(),
                None => "/".to_owned(),
            };
            let new_path: String = if str_eq(parent.as_str(), "/") {
                str_concat("/", new_name)
            } else {
                str_concat3(parent.as_str(), "/", new_name)
            };
            let old_path = c.path;
            let mut new_children: Vec<ProjectFile> = Vec::new();
            std::mem::swap(&mut c.children, &mut new_children);
            let ghost gkids = new_children@;
            proof {
                assert(gkids =~= entry[k as int].children@);
            }
            let mut gi: usize = 0;
            while gi < new_children.len()
                invariant
                    0 <= gi <= new_children@.len(),
                    new_children@.len() == gkids.len(),
                    forall|j: int|
                        gi <= j < gkids.len() ==> new_children@[j] == gkids[j],
                    forall|j: int|
                        0 <= j < gi ==> spec_file_view(#[trigger] new_children@[j])
                            == (FileTree {
                            path: spec_replace(
                                spec_file_view(gkids[j]).path,
                                old_path@,
                                new_path@,
                            ),
                            parent_path: Some(new_path@),
                            ..spec_file_view(gkids[j])
                        }),
                decreases new_children@.len() - gi,
            {
                let rewritten = str_replace(new_children[gi].path.as_str(), old_path.as_str(), new_path.as_str());
                new_children[gi].path = rewritten;
                new_children[gi].parent_path = Some(new_path.clone());
                proof {
                    assert(spec_file_view(new_children@[gi as int]).children
                        =~= spec_file_view(gkids[gi as int]).children);
                    assert(spec_file_view(new_children@[gi as int]) =~~= (FileTree {
                        path: spec_replace(
                            spec_file_view(gkids[gi as int]).path,
                            old_path@,
                            new_path@,
                        ),
                        parent_path: Some(new_path@),
                        ..spec_file_view(gkids[gi as int])
                    }));
                }
                gi += 1;
            }
            let renamed_file = ProjectFile {
                name: new_name.to_owned(),
                file_type: c.file_type,
                path: new_path,
                children: new_children,
                expanded: c.expanded,
                parent_path: c.parent_path,
            };
            proof {
                assert(spec_file_view(entry[k as int]).children =~= spec_files_view(gkids));
                assert(spec_file_view(renamed_file).children =~= spec_files_view(
                    renamed_file.children@,
                ));
                let cv = eviews[k as int];
                let target = spec_renamed_child(cv, new_name@);
                assert(renamed_file.path@ == spec_renamed_path(cv.parent_path, new_name@));
                assert(spec_file_view(renamed_file).name == target.name);
                assert(spec_file_view(renamed_file).path == target.path);
                assert(spec_file_view(renamed_file).children.len() == target.children.len());
                assert forall|j: int| 0 <= j < gkids.len() implies spec_file_view(
                    renamed_file,
                ).children[j] == target.children[j] by {
                    assert(spec_file_view(renamed_file).children[j] == spec_file_view(
                        new_children@[j],
                    ));
                    assert(cv.children[j] == spec_file_view(gkids[j]));
                }
                assert(spec_file_view(renamed_file).children =~= target.children);
                assert(spec_file_view(renamed_file).parent_path == target.parent_path);
                assert(spec_file_view(renamed_file).file_type == target.file_type);
                assert(spec_file_view(renamed_file).expanded == target.expanded);
                assert(spec_file_view(renamed_file) == target);
                assert(spec_files_view(result@.push(renamed_file)) =~= spec_files_view(
                    result@,
                ).push(spec_file_view(renamed_file)));
                let prev_pair = spec_rename_in(eviews, k as int, path@, new_name@);
                let cr = spec_rename_child(eviews[k as int], path@, new_name@);
                assert(cr == (target, true));
                assert(spec_rename_in(eviews, k as int + 1, path@, new_name@) == (
                    prev_pair.0.push(cr.0),
                    prev_pair.1 || cr.1,
                ));
            }
            result.push(renamed_file);
            renamed = true;
        } else {
            proof {
                assert(decreases_to!(entry => entry[k as int]));
                assert(decreases_to!(entry[k as int] => entry[k as int].children));
                assert(decreases_to!(entry[k as int].children => entry[k as int].children@));
            }
            let (new_children, success) = rename_in_children(c.children, path, new_name);
            let processed = ProjectFile {
                name: c.name,
                file_type: c.file_type,
                path: c.path,
                children: new_children,
                expanded: c.expanded,
                parent_path: c.parent_path,
            };
            proof {
                let cv = eviews[k as int];
                assert(spec_file_view(entry[k as int]).children =~= spec_files_view(
                    entry[k as int].children@,
                ));
                assert(spec_file_view(processed).children =~= spec_files_view(
                    processed.children@,
                ));
                let inner = spec_rename_in(
                    cv.children,
                    cv.children.len() as int,
                    path@,
                    new_name@,
                );
                assert(cv.children =~= spec_files_view(entry[k as int].children@));
                assert(inner == (spec_files_view(new_children@), success));
                let cr = spec_rename_child(cv, path@, new_name@);
                assert(spec_file_view(processed).name == cr.0.name);
                assert(spec_file_view(processed).path == cr.0.path);
                assert(spec_file_view(processed).children =~= cr.0.children);
                assert(spec_file_view(processed).parent_path == cr.0.parent_path);
                assert(spec_file_view(processed).file_type == cr.0.file_type);
                assert(spec_file_view(processed).expanded == cr.0.expanded);
                assert(spec_file_view(processed) == cr.0);
                assert(cr.1 == success);
                assert(spec_files_view(result@.push(processed)) =~= spec_files_view(
                    result@,
                ).push(spec_file_view(processed)));
                let prev_pair = spec_rename_in(eviews, k as int, path@, new_name@);
                assert(spec_rename_in(eviews, k as int + 1, path@, new_name@) == (
                    prev_pair.0.push(cr.0),
                    prev_pair.1 || cr.1,
                ));
            }
            if success {
                renamed = true;
            }
            result.push(processed);
        }
        k += 1;
    }
    proof {
        assert(entry.take(entry.len() as int) =~= entry);
    }
    (result, renamed)
}

/// A renamed root: new name and path, and every descendant's path has
/// the old path replaced by the new one (with the recorded parents set
/// to the new path).
pub open spec fn spec_renamed_root(t: FileTree, new_name: Seq<char>) -> FileTree {
    let new_path = spec_renamed_path(t.parent_path, new_name);
    FileTree {
        name: new_name,
        path: new_path,
        children: spec_upd_desc_all(t.children, t.path, new_path),
        ..t
    }
}

/// The root pass of a rename: the first root whose path matches is
/// renamed; the flag reports whether one was found.
pub open spec fn spec_rename_roots(ts: Seq<FileTree>, path: Seq<char>, new_name: Seq<char>) -> (
    Seq<FileTree>,
    bool,
)
    decreases ts.len(),
{
    if ts.len() == 0 {
        (Seq::empty(), false)
    } else if ts[0].path == path {
        (seq![spec_renamed_root(ts[0], new_name)] + ts.drop_first(), true)
    } else {
        let (r, b) = spec_rename_roots(ts.drop_first(), path, new_name);
        (seq![ts[0]] + r, b)
    }
}

/// When the first match sits at index `i`, the root pass renames exactly
/// that root.
pub proof fn lemma_rename_roots_at(ts: Seq<FileTree>, path: Seq<char>, new_name: Seq<char>, i: int)
    requires
        0 <= i < ts.len(),
        ts[i].path == path,
        forall|j: int| 0 <= j < i ==> (#[trigger] ts[j]).path != path,
    ensures
        spec_rename_roots(ts, path, new_name) == (
            ts.update(i, spec_renamed_root(ts[i], new_name)),
            true,
        ),
    decreases i,
{
    if i == 0 {
        assert((seq![spec_renamed_root(ts[0], new_name)] + ts.drop_first()) =~= ts.update(
            0,
            spec_renamed_root(ts[0], new_name),
        ));
    } else {
        assert(ts[0].path != path);
        assert forall|j: int| 0 <= j < i - 1 implies (#[trigger] ts.drop_first()[j]).path
            != path by {
            assert(ts.drop_first()[j] == ts[j + 1]);
        }
        assert(ts.drop_first()[i - 1] == ts[i]);
        lemma_rename_roots_at(ts.drop_first(), path, new_name, i - 1);
        assert((seq![ts[0]] + ts.drop_first().update(
            i - 1,
            spec_renamed_root(ts[i], new_name),
        )) =~= ts.update(i, spec_renamed_root(ts[i], new_name)));
    }
}

/// When no root matches, the root pass changes nothing.
pub proof fn lemma_rename_roots_none(ts: Seq<FileTree>, path: Seq<char>, new_name: Seq<char>)
    requires
        forall|j: int| 0 <= j < ts.len() ==> (#[trigger] ts[j]).path != path,
    ensures
        spec_rename_roots(ts, path, new_name) == (ts, false),
    decreases ts.len(),
{
    if ts.len() > 0 {
        assert forall|j: int| 0 <= j < ts.drop_first().len() implies (#[trigger] ts.drop_first()[
            j
        ]).path != path by {
            assert(ts.drop_first()[j] == ts[j + 1]);
        }
        lemma_rename_roots_none(ts.drop_first(), path, new_name);
        assert((seq![ts[0]] + ts.drop_first()) =~= ts);
    }
}

/// The fallback pass of a rename: the first root whose children contain
/// a match (at any depth) has its children rewritten.
pub open spec fn spec_rename_fallback(ts: Seq<FileTree>, path: Seq<char>, new_name: Seq<char>)
    -> Seq<FileTree>
    decreases ts.len(),
{
    if ts.len() == 0 {
        Seq::empty()
    } else {
        let (nc, s) = spec_rename_in(
            ts[0].children,
            ts[0].children.len() as int,
            path,
            new_name,
        );
        if s {
            seq![FileTree { children: nc, ..ts[0] }] + ts.drop_first()
        } else {
            seq![ts[0]] + spec_rename_fallback(ts.drop_first(), path, new_name)
        }
    }
}

/// What a whole rename does to the tree: the root pass if it finds the
/// file, otherwise the fallback pass through the roots' children.
pub open spec fn spec_rename_project(ts: Seq<FileTree>, path: Seq<char>, new_name: Seq<char>)
    -> Seq<FileTree> {
    let (r, b) = spec_rename_roots(ts, path, new_name);
    if b {
        r
    } else {
        spec_rename_fallback(ts, path, new_name)
    }
}

/// A deep copy of a list of project files, mirror for mirror.
#[verifier::loop_isolation(false)]
pub fn clone_project_files(fs: &Vec<ProjectFile>) -> (r: Vec<ProjectFile>)
    ensures
        spec_files_view(r@) == spec_files_view(fs@),
    decreases fs@,
{
    let mut result: Vec<ProjectFile> = Vec::new();
    let mut i: usize = 0;
    while i < fs.len()
        invariant
            0 <= i <= fs@.len(),
            spec_files_view(result@) =~= spec_files_view(fs@).take(i as int),
        decreases fs@.len() - i,
    {
        let f = &fs[i];
        proof {
            assert(decreases_to!(fs@ => fs@[i as int]));
            assert(decreases_to!(fs@[i as int] => fs@[i as int].children));
            assert(decreases_to!(fs@[i as int].children => fs@[i as int].children@));
        }
        let children = clone_project_files(&f.children);
        let copy = ProjectFile {
            name: f.name.clone(),
            file_type: f.file_type,
            path: f.path.clone(),
            children,
            expanded: f.expanded,
            parent_path: match &f.parent_path {
                Some(p) => Some(p.clone()),
                None => None,
            },
        };
        proof {
            assert(spec_file_view(copy).children =~= spec_files_view(copy.children@));
            assert(spec_file_view(fs@[i as int]).children =~= spec_files_view(
                fs@[i as int].children@,
            ));
            assert(spec_file_view(copy).children =~= spec_file_view(fs@[i as int]).children);
            assert(spec_file_view(copy) == spec_file_view(fs@[i as int]));
            assert(spec_files_view(result@.push(copy)) =~= spec_files_view(result@).push(
                spec_file_view(copy),
            ));
        }
        result.push(copy);
        i += 1;
    }
    proof {
        assert(spec_files_view(fs@).take(fs@.len() as int) =~= spec_files_view(fs@));
    }
    result
}

/// When the first root whose children contain a match sits at `i`, the
/// fallback pass rewrites exactly that root's children.
pub proof fn lemma_rename_fallback_at(
    ts: Seq<FileTree>,
    path: Seq<char>,
    new_name: Seq<char>,
    i: int,
)
    requires
        0 <= i < ts.len(),
        spec_rename_in(ts[i].children, ts[i].children.len() as int, path, new_name).1 == true,
        forall|j: int|
            0 <= j < i ==> spec_rename_in(
                (#[trigger] ts[j]).children,
                ts[j].children.len() as int,
                path,
                new_name,
            ).1 == false,
    ensures
        spec_rename_fallback(ts, path, new_name) == ts.update(
            i,
            FileTree {
                children: spec_rename_in(
                    ts[i].children,
                    ts[i].children.len() as int,
                    path,
                    new_name,
                ).0,
                ..ts[i]
            },
        ),
    decreases i,
{
    let upd = FileTree {
        children: spec_rename_in(ts[i].children, ts[i].children.len() as int, path, new_name).0,
        ..ts[i]
    };
    if i == 0 {
        assert((seq![upd] + ts.drop_first()) =~= ts.update(0, upd));
    } else {
        assert(spec_rename_in(ts[0].children, ts[0].children.len() as int, path, new_name).1
            == false);
        assert forall|j: int| 0 <= j < i - 1 implies spec_rename_in(
            (#[trigger] ts.drop_first()[j]).children,
            ts.drop_first()[j].children.len() as int,
            path,
            new_name,
        ).1 == false by {
            assert(ts.drop_first()[j] == ts[j + 1]);
        }
        assert(ts.drop_first()[i - 1] == ts[i]);
        lemma_rename_fallback_at(ts.drop_first(), path, new_name, i - 1);
        assert((seq![ts[0]] + ts.drop_first().update(i - 1, upd)) =~= ts.update(i, upd));
    }
}

/// When no root's children contain a match, the fallback pass changes
/// nothing.
pub proof fn lemma_rename_fallback_none(ts: Seq<FileTree>, path: Seq<char>, new_name: Seq<char>)
    requires
        forall|j: int|
            0 <= j < ts.len() ==> spec_rename_in(
                (#[trigger] ts[j]).children,
                ts[j].children.len() as int,
                path,
                new_name,
            ).1 == false,
    ensures
        spec_rename_fallback(ts, path, new_name) == ts,
    decreases ts.len(),
{
    if ts.len() > 0 {
        assert forall|j: int| 0 <= j < ts.drop_first().len() implies spec_rename_in(
            (#[trigger] ts.drop_first()[j]).children,
            ts.drop_first()[j].children.len() as int,
            path,
            new_name,
        ).1 == false by {
            assert(ts.drop_first()[j] == ts[j + 1]);
        }
        lemma_rename_fallback_none(ts.drop_first(), path, new_name);
        assert((seq![ts[0]] + ts.drop_first()) =~= ts);
    }
}

/// True iff `s` contains the character `c`.
pub open spec fn spec_contains_char(s: Seq<char>, c: char) -> bool {
    exists|i: int| 0 <= i < s.len() && s[i] == c
}

/// The index of the first occurrence of `c` in `s`, if any.
pub open spec fn spec_first_index_of(s: Seq<char>, c: char) -> Option<int> {
    if spec_contains_char(s, c) {
        Some(
            choose|i: int|
                0 <= i < s.len() && s[i] == c && forall|j: int| 0 <= j < i ==> s[j] != c,
        )
    } else {
        None
    }
}

/// True iff `s` contains the character `c`.
fn contains_char(s: &str, c: char) -> (r: bool)
    ensures
        r == spec_contains_char(s@, c),
{
    let n = s.unicode_len();
    let mut i: usize = 0;
    while i < n
        invariant
            0 <= i <= n,
            n == s@.len(),
            forall|j: int| 0 <= j < i ==> s@[j] != c,
        decreases n - i,
    {
        if s.get_char(i) == c {
            return true;
        }
        i += 1;
    }
    false
}

/// The index of the first occurrence of `c` in `s`, if any.
fn first_index_of_char(s: &str, c: char) -> (r: Option<usize>)
    ensures
        s@.len() <= usize::MAX,
        match r {
            Some(i) => spec_first_index_of(s@, c) == Some(i as int) && i < s@.len() && s@[
                i as int
            ] == c,
            None => spec_first_index_of(s@, c) is None,
        },
{
    let n = s.unicode_len();
    let mut i: usize = 0;
    while i < n
        invariant
            0 <= i <= n,
            n == s@.len(),
            forall|j: int| 0 <= j < i ==> s@[j] != c,
        decreases n - i,
    {
        if s.get_char(i) == c {
            proof {
                let k = i as int;
                assert(0 <= k < s@.len() && s@[k] == c && forall|j: int|
                    0 <= j < k ==> s@[j] != c);
                let m = choose|m: int|
                    0 <= m < s@.len() && s@[m] == c && forall|j: int| 0 <= j < m ==> s@[j] != c;
                if m < k {
                    assert(s@[m] != c);
                }
                if k < m {
                    assert(s@[k] != c);
                }
            }
            return Some(i);
        }
        i += 1;
    }
    None
}

/// The folder-name candidate tried at step `k`: the base name first,
/// then the base name with a counter.
pub open spec fn spec_folder_candidate(base: Seq<char>, k: u32) -> Seq<char> {
    if k == 0 {
        base
    } else {
        base + " ("@ + spec_u32_dec_chars(k) + ")"@
    }
}

/// The next file-name candidate after `current`: a dotted name is
/// rebuilt from the base name's stem, counter and extension; otherwise
/// the counter is appended to the current candidate.
pub open spec fn spec_mangle_file_name(current: Seq<char>, base: Seq<char>, k: u32) -> Seq<char> {
    if spec_contains_char(current, '.') {
        match spec_first_index_of(base, '.') {
            Some(d) => {
                let stem = base.take(d);
                let ext = base.skip(d + 1);
                if ext.len() > 0 {
                    stem + " ("@ + spec_u32_dec_chars(k) + ")"@ + "."@ + ext
                } else {
                    current + " ("@ + spec_u32_dec_chars(k) + ")"@
                }
            },
            None => current + " ("@ + spec_u32_dec_chars(k) + ")"@,
        }
    } else {
        current + " ("@ + spec_u32_dec_chars(k) + ")"@
    }
}

/// The file-name candidate tried at step `k`.
pub open spec fn spec_file_candidate(base: Seq<char>, k: u32) -> Seq<char>
    decreases k,
{
    if k == 0 {
        base
    } else {
        spec_mangle_file_name(spec_file_candidate(base, (k - 1) as u32), base, k)
    }
}

/// True iff the candidate at step `k` is free: the path built from the
/// parent, a slash and the candidate exists nowhere in the tree.
pub open spec fn spec_candidate_free(
    ts: Seq<FileTree>,
    parent: Seq<char>,
    cand: Seq<char>,
) -> bool {
    !spec_any_path_exists(ts, parent + "/"@ + cand)
}

/// The first free folder candidate, if one exists below the counter
/// limit.
pub open spec fn spec_first_free_folder(ts: Seq<FileTree>, parent: Seq<char>, base: Seq<char>)
    -> Option<u32> {
    if exists|k: u32| k < 0xffff_ffffu32 && spec_candidate_free(ts, parent, spec_folder_candidate(base, k)) {
        Some(
            choose|k: u32|
                k < 0xffff_ffffu32 && spec_candidate_free(
                    ts,
                    parent,
                    spec_folder_candidate(base, k),
                ) && forall|j: u32|
                    j < k ==> !spec_candidate_free(ts, parent, spec_folder_candidate(base, j)),
        )
    } else {
        None
    }
}

/// The first free file candidate, if one exists below the counter
/// limit.
pub open spec fn spec_first_free_file(ts: Seq<FileTree>, parent: Seq<char>, base: Seq<char>)
    -> Option<u32> {
    if exists|k: u32| k < 0xffff_ffffu32 && spec_candidate_free(ts, parent, spec_file_candidate(base, k)) {
        Some(
            choose|k: u32|
                k < 0xffff_ffffu32 && spec_candidate_free(
                    ts,
                    parent,
                    spec_file_candidate(base, k),
                ) && forall|j: u32|
                    j < k ==> !spec_candidate_free(ts, parent, spec_file_candidate(base, j)),
        )
    } else {
        None
    }
}

/// The new node a creation inserts.
pub open spec fn spec_new_node(
    name: Seq<char>,
    file_type: ProjectFileType,
    parent: Seq<char>,
) -> FileTree {
    FileTree {
        name,
        file_type,
        path: if parent == "/"@ {
            "/"@ + name
        } else {
            parent + "/"@ + name
        },
        children: Seq::empty(),
        expanded: false,
        parent_path: Some(parent),
    }
}

/// The root pass of an insertion: the first root whose path is the
/// parent gains the node as a child.
pub open spec fn spec_push_first_root(ts: Seq<FileTree>, parent: Seq<char>, node: FileTree) -> (
    Seq<FileTree>,
    bool,
)
    decreases ts.len(),
{
    if ts.len() == 0 {
        (Seq::empty(), false)
    } else if ts[0].path == parent {
        (seq![FileTree { children: ts[0].children.push(node), ..ts[0] }] + ts.drop_first(), true)
    } else {
        let (r, b) = spec_push_first_root(ts.drop_first(), parent, node);
        (seq![ts[0]] + r, b)
    }
}

/// When the first matching root sits at index `i`, the root pass pushes
/// exactly there.
pub proof fn lemma_push_first_root_at(ts: Seq<FileTree>, parent: Seq<char>, node: FileTree, i: int)
    requires
        0 <= i < ts.len(),
        ts[i].path == parent,
        forall|j: int| 0 <= j < i ==> (#[trigger] ts[j]).path != parent,
    ensures
        spec_push_first_root(ts, parent, node) == (
            ts.update(i, FileTree { children: ts[i].children.push(node), ..ts[i] }),
            true,
        ),
    decreases i,
{
    let upd = FileTree { children: ts[i].children.push(node), ..ts[i] };
    if i == 0 {
        assert((seq![upd] + ts.drop_first()) =~= ts.update(0, upd));
    } else {
        assert(ts[0].path != parent);
        assert forall|j: int| 0 <= j < i - 1 implies (#[trigger] ts.drop_first()[j]).path
            != parent by {
            assert(ts.drop_first()[j] == ts[j + 1]);
        }
        assert(ts.drop_first()[i - 1] == ts[i]);
        lemma_push_first_root_at(ts.drop_first(), parent, node, i - 1);
        assert((seq![ts[0]] + ts.drop_first().update(i - 1, upd)) =~= ts.update(i, upd));
    }
}

/// When no root matches, the root pass changes nothing.
pub proof fn lemma_push_first_root_none(ts: Seq<FileTree>, parent: Seq<char>, node: FileTree)
    requires
        forall|j: int| 0 <= j < ts.len() ==> (#[trigger] ts[j]).path != parent,
    ensures
        spec_push_first_root(ts, parent, node) == (ts, false),
    decreases ts.len(),
{
    if ts.len() > 0 {
        assert forall|j: int| 0 <= j < ts.drop_first().len() implies (#[trigger] ts.drop_first()[
            j
        ]).path != parent by {
            assert(ts.drop_first()[j] == ts[j + 1]);
        }
        lemma_push_first_root_none(ts.drop_first(), parent, node);
        assert((seq![ts[0]] + ts.drop_first()) =~= ts);
    }
}

/// The folder-index scan of one root's children, from position `i`: a
/// direct child that is a folder with the parent path yields `(0, i)`; a
/// folder child whose own child matches yields the pair of indices.
pub open spec fn spec_fpi_from(ts: Seq<FileTree>, path: Seq<char>, i: int) -> Option<(int, int)>
    decreases ts.len() - i,
{
    if i < 0 || i >= ts.len() {
        None
    } else if ts[i].path == path && ts[i].file_type is Folder {
        Some((0, i))
    } else if ts[i].file_type is Folder && (exists|j: int|
        0 <= j < ts[i].children.len() && (#[trigger] ts[i].children[j]).path == path && ts[
            i
        ].children[j].file_type is Folder) {
        let j = choose|j: int|
            0 <= j < ts[i].children.len() && (#[trigger] ts[i].children[j]).path == path && ts[
                i
            ].children[j].file_type is Folder && forall|m: int|
                0 <= m < j ==> !(ts[i].children[m].path == path
                    && (#[trigger] ts[i].children[m]).file_type is Folder);
        Some((i, j))
    } else {
        spec_fpi_from(ts, path, i + 1)
    }
}

/// When root-child `i` is a folder that does not itself match but its
/// grandchild `j` is the first matching folder, the scan stops there.
pub proof fn lemma_fpi_grandchild_at(ts: Seq<FileTree>, path: Seq<char>, i: int, j: int)
    requires
        0 <= i < ts.len(),
        ts[i].file_type is Folder,
        ts[i].path != path,
        0 <= j < ts[i].children.len(),
        ts[i].children[j].path == path,
        ts[i].children[j].file_type is Folder,
        forall|m: int|
            0 <= m < j ==> !(ts[i].children[m].path == path
                && (#[trigger] ts[i].children[m]).file_type is Folder),
    ensures
        spec_fpi_from(ts, path, i) == Some((i, j)),
{
    assert(0 <= j < ts[i].children.len() && (#[trigger] ts[i].children[j]).path == path && ts[
        i
    ].children[j].file_type is Folder);
    let w = choose|w: int|
        0 <= w < ts[i].children.len() && (#[trigger] ts[i].children[w]).path == path && ts[
            i
        ].children[w].file_type is Folder && forall|m: int|
            0 <= m < w ==> !(ts[i].children[m].path == path
                && (#[trigger] ts[i].children[m]).file_type is Folder);
    if w < j {
        assert(!(ts[i].children[w].path == path && ts[i].children[w].file_type is Folder));
    }
    if j < w {
        assert(!(ts[i].children[j].path == path && ts[i].children[j].file_type is Folder));
    }
    assert(w == j);
}

/// Find the indices of a folder path among one root's children and
/// grandchildren, as the insertion pass reads them: `(0, i)` for a
/// direct child, `(i, j)` for a grandchild.
#[verifier::rlimit(100)]
pub fn find_folder_path_indices(children: &Vec<ProjectFile>, path: &str) -> (r: Option<(
    usize,
    usize,
)>)
    ensures
        match r {
            Some(pc) => spec_fpi_from(spec_files_view(children@), path@, 0) == Some(
                (pc.0 as int, pc.1 as int),
            ) && (pc.0 != 0 ==> pc.0 < children@.len() && pc.1 < children@[
                pc.0 as int
            ].children@.len()),
            None => spec_fpi_from(spec_files_view(children@), path@, 0) is None,
        },
{
    let ghost views = spec_files_view(children@);
    let mut i: usize = 0;
    while i < children.len()
        invariant
            0 <= i <= children@.len(),
            views == spec_files_view(children@),
            spec_fpi_from(views, path@, 0) == spec_fpi_from(views, path@, i as int),
        decreases children@.len() - i,
    {
        proof {
            assert(views[i as int] == spec_file_view(children@[i as int]));
        }
        let child = &children[i];
        if str_eq(child.path.as_str(), path) && child.file_type.is_folder() {
            return Some((0, i));
        }
        if child.file_type.is_folder() {
            let mut j: usize = 0;
            let ghost cviews = spec_file_view(children@[i as int]).children;
            proof {
                assert(cviews =~= spec_files_view(children@[i as int].children@));
            }
            while j < child.children.len()
                invariant
                    0 <= j <= child.children@.len(),
                    views == spec_files_view(children@),
                    views[i as int] == spec_file_view(children@[i as int]),
                    views[i as int].file_type is Folder,
                    views[i as int].path != path@,
                    spec_fpi_from(views, path@, 0) == spec_fpi_from(views, path@, i as int),
                    cviews == spec_file_view(children@[i as int]).children,
                    cviews =~= spec_files_view(children@[i as int].children@),
                    child == &children@[i as int],
                    i < children@.len(),
                    cviews.len() == child.children@.len(),
                    forall|m: int|
                        0 <= m < j ==> !((#[trigger] cviews[m]).path == path@
                            && cviews[m].file_type is Folder),
                decreases child.children@.len() - j,
            {
                proof {
                    assert(cviews[j as int] == spec_file_view(children@[i as int].children@[
                        j as int
                    ]));
                }
                let grandchild = &child.children[j];
                if str_eq(grandchild.path.as_str(), path) && grandchild.file_type.is_folder() {
                    proof {
                        assert(views[i as int].children == cviews);
                        assert(cviews[j as int].path == path@);
                        assert(cviews[j as int].file_type is Folder);
                        lemma_fpi_grandchild_at(views, path@, i as int, j as int);
                    }
                    return Some((i, j));
                }
                j += 1;
            }
        }
        proof {
            assert(spec_fpi_from(views, path@, i as int) == spec_fpi_from(
                views,
                path@,
                i as int + 1,
            ));
        }
        i += 1;
    }
    None
}

/// The nested pass of an insertion, scanning roots from `i`: the first
/// root whose children contain the parent folder (per the index scan)
/// receives the node, a `(0, c)` result being read as the direct child
/// at `c` (skipped when out of range), and `(p, c)` as the grandchild.
pub open spec fn spec_add_pass2(
    ts: Seq<FileTree>,
    parent: Seq<char>,
    node: FileTree,
    i: int,
) -> Seq<FileTree>
    decreases ts.len() - i,
{
    if i < 0 || i >= ts.len() {
        ts
    } else {
        match spec_fpi_from(ts[i].children, parent, 0) {
            Some(pc) => {
                let p = pc.0;
                let c = pc.1;
                if p == 0 {
                    if 0 <= c < ts[i].children.len() {
                        ts.update(
                            i,
                            FileTree {
                                children: ts[i].children.update(
                                    c,
                                    FileTree {
                                        children: ts[i].children[c].children.push(node),
                                        ..ts[i].children[c]
                                    },
                                ),
                                ..ts[i]
                            },
                        )
                    } else {
                        ts
                    }
                } else {
                    if 0 <= p < ts[i].children.len() && 0 <= c < ts[i].children[p].children.len() {
                        ts.update(
                            i,
                            FileTree {
                                children: ts[i].children.update(
                                    p,
                                    FileTree {
                                        children: ts[i].children[p].children.update(
                                            c,
                                            FileTree {
                                                children: ts[i].children[p].children[
                                                    c
                                                ].children.push(node),
                                                ..ts[i].children[p].children[c]
                                            },
                                        ),
                                        ..ts[i].children[p]
                                    },
                                ),
                                ..ts[i]
                            },
                        )
                    } else {
                        ts
                    }
                }
            },
            None => spec_add_pass2(ts, parent, node, i + 1),
        }
    }
}

/// What inserting under a parent path does: the first root matching the
/// parent gains the node; otherwise the first root whose children
/// contain the parent folder receives it; otherwise nothing changes.
pub open spec fn spec_add_to_parent(ts: Seq<FileTree>, parent: Seq<char>, node: FileTree) -> Seq<
    FileTree,
> {
    let (r, b) = spec_push_first_root(ts, parent, node);
    if b {
        r
    } else {
        spec_add_pass2(ts, parent, node, 0)
    }
}

/// Where a newly created file lands: as a root when the parent is the
/// root path, under the parent folder otherwise.
pub open spec fn spec_place_new_file(ts: Seq<FileTree>, parent: Seq<char>, node: FileTree) -> Seq<
    FileTree,
> {
    if parent == "/"@ {
        ts.push(node)
    } else {
        spec_add_to_parent(ts, parent, node)
    }
}

} // verus!
