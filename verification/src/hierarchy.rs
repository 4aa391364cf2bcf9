//! The hierarchy panel's entity tree: names, parent links and types of
//! the editor's entities, and the construction of the displayed
//! hierarchy.
//!
//! The hierarchy is built from the parent map; the recursion is bounded
//! by the number of entities, which covers every acyclic parent map (a
//! cyclic map, which would never terminate, is cut off at that depth).

use vstd::prelude::*;
use crate::ui_components::HierarchyItem;

verus! {

/// Entity type for hierarchy display.
#[derive(Clone, Copy, PartialEq, Eq, Structural, Debug)]
pub enum EntityType {
    /// Empty game object.
    GameObject,
    /// Camera entity.
    Camera,
    /// Light entity.
    Light,
    /// UI element.
    UI,
    /// Sprite renderer.
    Sprite,
    /// Particle system.
    ParticleSystem,
    /// Audio source.
    AudioSource,
}

/// The ghost mirror of a hierarchy item.
pub struct ItemTree {
    pub id: u32,
    pub name: Seq<char>,
    pub children: Seq<ItemTree>,
}

/// The ghost mirror of one hierarchy item.
pub open spec fn spec_item_view(it: HierarchyItem) -> ItemTree
    decreases it,
    via spec_item_view_decreases
{
    ItemTree {
        id: it.id,
        name: it.name@,
        children: Seq::new(
            it.children@.len(),
            |i: int|
                if 0 <= i < it.children@.len() {
                    spec_item_view(it.children@[i])
                } else {
                    arbitrary()
                },
        ),
    }
}

#[via_fn]
proof fn spec_item_view_decreases(it: HierarchyItem) {
    assert forall|i: int| 0 <= i < it.children@.len() implies decreases_to!(
        it => it.children@[i]
    ) by {
        assert(decreases_to!(it => it.children));
        assert(decreases_to!(it.children => it.children@));
        assert(decreases_to!(it.children@ => it.children@[i]));
    }
}

/// The ghost mirrors of a list of hierarchy items.
pub open spec fn spec_items_view(its: Seq<HierarchyItem>) -> Seq<ItemTree> {
    Seq::new(its.len(), |i: int| spec_item_view(its[i]))
}

/// Appending an item appends its mirror.
pub proof fn lemma_items_view_push(its: Seq<HierarchyItem>, it: HierarchyItem)
    ensures
        spec_items_view(its.push(it)) == spec_items_view(its).push(spec_item_view(it)),
{
    assert(spec_items_view(its.push(it)) =~= spec_items_view(its).push(spec_item_view(it)));
}

/// True iff the parent map has an entry for `id`.
pub open spec fn spec_has_parent(pm: Seq<(u32, u32)>, id: u32) -> bool {
    exists|i: int| 0 <= i < pm.len() && (#[trigger] pm[i]).0 == id
}

/// The name of the first entry for `id`, if any.
pub open spec fn spec_name_of(names: Seq<(u32, String)>, id: u32) -> Option<Seq<char>> {
    if exists|i: int| 0 <= i < names.len() && (#[trigger] names[i]).0 == id {
        Some(
            (names[choose|i: int|
                0 <= i < names.len() && (#[trigger] names[i]).0 == id && forall|j: int|
                    0 <= j < i ==> names[j].0 != id]).1@,
        )
    } else {
        None
    }
}

/// The hierarchy item built for one entity: its children come from the
/// parent-map entries pointing at it, in map order, each built with one
/// unit less of depth.
pub open spec fn spec_build_item(
    id: u32,
    name: Seq<char>,
    names: Seq<(u32, String)>,
    pm: Seq<(u32, u32)>,
    fuel: nat,
) -> ItemTree
    decreases fuel, 1int, 0int,
{
    ItemTree { id, name, children: spec_children_upto(id, names, pm, pm.len() as int, fuel) }
}

/// The children contributed by the first `n` parent-map entries.
pub open spec fn spec_children_upto(
    parent: u32,
    names: Seq<(u32, String)>,
    pm: Seq<(u32, u32)>,
    n: int,
    fuel: nat,
) -> Seq<ItemTree>
    decreases fuel, 0int, n,
{
    if fuel == 0 || n <= 0 || n > pm.len() {
        Seq::empty()
    } else {
        let rest = spec_children_upto(parent, names, pm, n - 1, fuel);
        if pm[n - 1].1 == parent {
            match spec_name_of(names, pm[n - 1].0) {
                Some(nm) => rest + seq![
                    spec_build_item(pm[n - 1].0, nm, names, pm, (fuel - 1) as nat),
                ],
                None => rest,
            }
        } else {
            rest
        }
    }
}

/// The root items built from the first `n` name entries: every entity
/// without a parent entry, in name order.
pub open spec fn spec_roots_upto(
    names: Seq<(u32, String)>,
    pm: Seq<(u32, u32)>,
    n: int,
    fuel: nat,
) -> Seq<ItemTree>
    decreases n,
{
    if n <= 0 || n > names.len() {
        Seq::empty()
    } else {
        let rest = spec_roots_upto(names, pm, n - 1, fuel);
        if !spec_has_parent(pm, names[n - 1].0) {
            rest + seq![spec_build_item(names[n - 1].0, names[n - 1].1@, names, pm, fuel)]
        } else {
            rest
        }
    }
}

/// The largest entity identifier among the first `n` name entries.
pub open spec fn spec_max_id_upto(names: Seq<(u32, String)>, n: int) -> u32
    decreases n,
{
    if n <= 0 || n > names.len() {
        0u32
    } else {
        let rest = spec_max_id_upto(names, n - 1);
        if names[n - 1].0 > rest {
            names[n - 1].0
        } else {
            rest
        }
    }
}

/// The identifier a newly created entity receives: one past the largest
/// existing identifier, or 1 when there is none.
pub open spec fn spec_new_entity_id(names: Seq<(u32, String)>) -> int {
    if names.len() == 0 {
        1
    } else {
        spec_max_id_upto(names, names.len() as int) + 1
    }
}

/// Hierarchy panel state: entity names, parent links, types, expansion
/// and selection.
pub struct HierarchyPanel {
    /// The currently selected entity.
    pub selected_entity: Option<u32>,
    /// The hierarchy expanded state, entity by entity.
    pub hierarchy_expanded: Vec<(u32, bool)>,
    /// Entity names, in creation order.
    pub entity_names: Vec<(u32, String)>,
    /// Entity parent map: (child, parent) links, in insertion order.
    pub entity_parent_map: Vec<(u32, u32)>,
    /// The entity being dragged, if any.
    pub drag_entity_id: Option<u32>,
    /// Whether the hierarchy search box is shown.
    pub show_hierarchy_search: bool,
    /// Hierarchy search text.
    pub hierarchy_search_text: String,
    /// Whether the create-entity menu is shown.
    pub show_create_entity_menu: bool,
    /// Entity types (for icons).
    pub entity_types: Vec<(u32, EntityType)>,
}

impl HierarchyPanel {
    /// Create a new hierarchy panel, seeded with the sample entities.
    pub fn new() -> (r: HierarchyPanel)
        ensures
            r.selected_entity is None,
            r.hierarchy_expanded@.len() == 0,
            r.entity_parent_map@.len() == 0,
            r.drag_entity_id is None,
            !r.show_hierarchy_search,
            r.hierarchy_search_text@ == Seq::<char>::empty(),
            !r.show_create_entity_menu,
            r.entity_names@.len() == 5,
            r.entity_names@[0].0 == 1 && r.entity_names@[0].1@ == "Main Camera"@,
            r.entity_names@[1].0 == 2 && r.entity_names@[1].1@ == "Directional Light"@,
            r.entity_names@[2].0 == 3 && r.entity_names@[2].1@ == "Player"@,
            r.entity_names@[3].0 == 4 && r.entity_names@[3].1@ == "Background"@,
            r.entity_names@[4].0 == 5 && r.entity_names@[4].1@ == "UI Canvas"@,
            r.entity_types@ == seq![
                (1u32, EntityType::Camera),
                (2u32, EntityType::Light),
                (3u32, EntityType::GameObject),
                (4u32, EntityType::Sprite),
                (5u32, EntityType::UI),
            ],
    {
        let mut entity_names: Vec<(u32, String)> = Vec::new();
        entity_names.push((1, "Main Camera".to_owned()));
        entity_names.push((2, "Directional Light".to_owned()));
        entity_names.push((3, "Player".to_owned()));
        entity_names.push((4, "Background".to_owned()));
        entity_names.push((5, "UI Canvas".to_owned()));

        let mut entity_types: Vec<(u32, EntityType)> = Vec::new();
        entity_types.push((1, EntityType::Camera));
        entity_types.push((2, EntityType::Light));
        entity_types.push((3, EntityType::GameObject));
        entity_types.push((4, EntityType::Sprite));
        entity_types.push((5, EntityType::UI));
        proof {
            assert(entity_types@ =~= seq![
                (1u32, EntityType::Camera),
                (2u32, EntityType::Light),
                (3u32, EntityType::GameObject),
                (4u32, EntityType::Sprite),
                (5u32, EntityType::UI),
            ]);
        }

        HierarchyPanel {
            selected_entity: None,
            hierarchy_expanded: Vec::new(),
            entity_names,
            entity_parent_map: Vec::new(),
            drag_entity_id: None,
            show_hierarchy_search: false,
            hierarchy_search_text: String::new(),
            show_create_entity_menu: false,
            entity_types,
        }
    }

    /// Create a new entity: its identifier is one past the largest in
    /// use, it becomes a child of the selected entity (if any), and it
    /// becomes the selection.
    pub fn create_entity(&mut self, name: String, entity_type: EntityType)
        requires
            spec_new_entity_id(old(self).entity_names@) <= u32::MAX,
        ensures
            final(self).entity_names@ == old(self).entity_names@.push(
                ((spec_new_entity_id(old(self).entity_names@) as u32), name),
            ),
            final(self).entity_types@ == old(self).entity_types@.push(
                ((spec_new_entity_id(old(self).entity_names@) as u32), entity_type),
            ),
            final(self).entity_parent_map@ == match old(self).selected_entity {
                Some(parent) => old(self).entity_parent_map@.push(
                    ((spec_new_entity_id(old(self).entity_names@) as u32), parent),
                ),
                None => old(self).entity_parent_map@,
            },
            final(self).selected_entity == Some(
                spec_new_entity_id(old(self).entity_names@) as u32,
            ),
            final(self).hierarchy_expanded@ == old(self).hierarchy_expanded@,
    {
        let mut max_id: u32 = 0;
        let mut i: usize = 0;
        let has_any = self.entity_names.len() > 0;
        while i < self.entity_names.len()
            invariant
                0 <= i <= self.entity_names@.len(),
                max_id == spec_max_id_upto(self.entity_names@, i as int),
            decreases self.entity_names@.len() - i,
        {
            if self.entity_names[i].0 > max_id {
                max_id = self.entity_names[i].0;
            }
            i += 1;
        }
        let new_id: u32 = if has_any {
            max_id + 1
        } else {
            1
        };
        self.entity_names.push((new_id, name));
        self.entity_types.push((new_id, entity_type));
        if let Some(parent_id) = self.selected_entity {
            self.entity_parent_map.push((new_id, parent_id));
        }
        self.selected_entity = Some(new_id);
    }

    /// Build the entity hierarchy: one root item for every entity with
    /// no parent entry, in name order, each with its children built from
    /// the parent map.
    pub fn build_entity_hierarchy(&self) -> (r: Vec<HierarchyItem>)
        ensures
            spec_items_view(r@) == spec_roots_upto(
                self.entity_names@,
                self.entity_parent_map@,
                self.entity_names@.len() as int,
                self.entity_names@.len() as nat,
            ),
    {
        let mut root_items: Vec<HierarchyItem> = Vec::new();
        let fuel = self.entity_names.len();
        let mut i: usize = 0;
        while i < self.entity_names.len()
            invariant
                0 <= i <= self.entity_names@.len(),
                fuel == self.entity_names@.len(),
                spec_items_view(root_items@) == spec_roots_upto(
                    self.entity_names@,
                    self.entity_parent_map@,
                    i as int,
                    fuel as nat,
                ),
            decreases self.entity_names@.len() - i,
        {
            let entry_id = self.entity_names[i].0;
            if !self.has_parent(entry_id) {
                let mut item = HierarchyItem {
                    id: entry_id,
                    name: self.entity_names[i].1.clone(),
                    children: Vec::new(),
                };
                proof {
                    assert(spec_items_view(item.children@) =~= Seq::<ItemTree>::empty());
                }
                self.add_children_fueled(&mut item, fuel);
                let ghost gi = item;
                let ghost prev = root_items@;
                root_items.push(item);
                proof {
                    assert(spec_item_view(gi).children =~= spec_items_view(gi.children@));
                    assert(spec_item_view(gi) =~~= spec_build_item(
                        entry_id,
                        self.entity_names@[i as int].1@,
                        self.entity_names@,
                        self.entity_parent_map@,
                        fuel as nat,
                    ));
                    lemma_items_view_push(prev, gi);
                    assert(root_items@ =~= prev.push(gi));
                }
            }
            i += 1;
        }
        root_items
    }

    /// True iff the parent map has an entry for `id`.
    fn has_parent(&self, id: u32) -> (r: bool)
        ensures
            r == spec_has_parent(self.entity_parent_map@, id),
    {
        let mut i: usize = 0;
        while i < self.entity_parent_map.len()
            invariant
                0 <= i <= self.entity_parent_map@.len(),
                forall|j: int| 0 <= j < i ==> (#[trigger] self.entity_parent_map@[j]).0 != id,
            decreases self.entity_parent_map@.len() - i,
        {
            if self.entity_parent_map[i].0 == id {
                return true;
            }
            i += 1;
        }
        false
    }

    /// The name of the first entry for `id`, if any.
    fn find_name(&self, id: u32) -> (r: Option<String>)
        ensures
            match r {
                Some(n) => spec_name_of(self.entity_names@, id) == Some(n@),
                None => spec_name_of(self.entity_names@, id) is None,
            },
    {
        let mut i: usize = 0;
        while i < self.entity_names.len()
            invariant
                0 <= i <= self.entity_names@.len(),
                forall|j: int| 0 <= j < i ==> (#[trigger] self.entity_names@[j]).0 != id,
            decreases self.entity_names@.len() - i,
        {
            if self.entity_names[i].0 == id {
                proof {
                    let ns = self.entity_names@;
                    let k = i as int;
                    assert(0 <= k < ns.len() && ns[k].0 == id && forall|j: int|
                        0 <= j < k ==> (#[trigger] ns[j]).0 != id);
                    let c = choose|c: int|
                        0 <= c < ns.len() && (#[trigger] ns[c]).0 == id && forall|j: int|
                            0 <= j < c ==> ns[j].0 != id;
                    if c < k {
                        assert(ns[c].0 != id);
                    }
                    if k < c {
                        assert(ns[k].0 != id);
                    }
                }
                return Some(self.entity_names[i].1.clone());
            }
            i += 1;
        }
        None
    }

    /// Add the children of `parent` from the parent map, recursing to
    /// the given depth.
    #[verifier::rlimit(100)]
    fn add_children_fueled(&self, parent: &mut HierarchyItem, fuel: usize)
        ensures
            final(parent).id == old(parent).id,
            final(parent).name == old(parent).name,
            spec_items_view(final(parent).children@) == spec_items_view(old(parent).children@)
                + spec_children_upto(
                old(parent).id,
                self.entity_names@,
                self.entity_parent_map@,
                self.entity_parent_map@.len() as int,
                fuel as nat,
            ),
        decreases fuel,
    {
        if fuel == 0 {
            proof {
                assert(spec_items_view(parent.children@) =~= spec_items_view(parent.children@)
                    + Seq::<ItemTree>::empty());
            }
            return ;
        }
        let parent_id = parent.id;
        let mut i: usize = 0;
        while i < self.entity_parent_map.len()
            invariant
                0 <= i <= self.entity_parent_map@.len(),
                fuel >= 1,
                parent.id == old(parent).id,
                parent.name == old(parent).name,
                parent_id == old(parent).id,
                spec_items_view(parent.children@) == spec_items_view(old(parent).children@)
                    + spec_children_upto(
                    old(parent).id,
                    self.entity_names@,
                    self.entity_parent_map@,
                    i as int,
                    fuel as nat,
                ),
            decreases self.entity_parent_map@.len() - i,
        {
            let link = self.entity_parent_map[i];
            if link.1 == parent_id {
                match self.find_name(link.0) {
                    Some(nm) => {
                        let ghost nmv = nm@;
                        let mut child = HierarchyItem { id: link.0, name: nm, children: Vec::new() };
                        proof {
                            assert(spec_items_view(child.children@) =~= Seq::<ItemTree>::empty());
                        }
                        self.add_children_fueled(&mut child, fuel - 1);
                        let ghost gc = child;
                        let ghost prev = parent.children@;
                        parent.children.push(child);
                        proof {
                            assert(spec_item_view(gc).children =~= spec_items_view(gc.children@));
                            assert(spec_item_view(gc) =~~= spec_build_item(
                                link.0,
                                nmv,
                                self.entity_names@,
                                self.entity_parent_map@,
                                (fuel - 1) as nat,
                            ));
                            lemma_items_view_push(prev, gc);
                            assert(parent.children@ =~= prev.push(gc));
                        }
                    },
                    None => {
                    },
                }
            }
            i += 1;
        }
    }

    /// Add children to a hierarchy item from the parent map; the
    /// recursion depth is bounded by the number of entities, which
    /// covers every acyclic parent map.
    pub fn add_children_to_hierarchy(&self, parent: &mut HierarchyItem)
        ensures
            final(parent).id == old(parent).id,
            final(parent).name == old(parent).name,
            spec_item_view(*final(parent)).children == spec_item_view(*old(parent)).children
                + spec_children_upto(
                old(parent).id,
                self.entity_names@,
                self.entity_parent_map@,
                self.entity_parent_map@.len() as int,
                self.entity_names@.len() as nat,
            ),
    {
        self.add_children_fueled(parent, self.entity_names.len());
        proof {
            assert(spec_item_view(*parent).children =~= spec_items_view(parent.children@));
            assert(spec_item_view(*old(parent)).children =~= spec_items_view(
                old(parent).children@,
            ));
        }
    }
}

} // verus!
