use vstd::prelude::*;
use vstd::hash_map::StringHashMap;
use crate::error::PathError;
use crate::grid::{grid_model, grid_rows, is_rectangular, Cell, GridMap, GridView};
use crate::search::{answers, search_accepts, Decision, SearchOutcome};

verus! {

/// The mathematical content of a [`MapRegistry`]: the map in the default slot,
/// if any, and the maps held under names.
pub struct RegistryView {
    pub default: Option<GridView>,
    pub named: Map<Seq<char>, GridView>,
}

impl RegistryView {
    /// The registry that holds no map at all.
    pub open spec fn empty() -> RegistryView {
        RegistryView { default: None, named: Map::empty() }
    }

    /// The registry after a load into the default slot: a rectangular grid
    /// takes the slot, any other grid changes nothing.
    pub open spec fn load_default(self, rows: Seq<Seq<u8>>) -> RegistryView {
        if is_rectangular(rows) {
            RegistryView { default: Some(grid_model(rows)), named: self.named }
        } else {
            self
        }
    }

    /// The registry after a load under `key`: a rectangular grid is held under
    /// the key in place of what was there, any other grid changes nothing.
    pub open spec fn load_named(self, key: Seq<char>, rows: Seq<Seq<u8>>) -> RegistryView {
        if is_rectangular(rows) {
            RegistryView { default: self.default, named: self.named.insert(key, grid_model(rows)) }
        } else {
            self
        }
    }

    /// What a query against the default slot comes to.
    pub open spec fn query_default(self, start: Cell, goal: Cell) -> Decision {
        match self.default {
            None => Decision::Refuse(PathError::NotLoaded),
            Some(g) => g.decide(start, goal),
        }
    }

    /// What a query against the map held under `key` comes to.
    pub open spec fn query_named(self, key: Seq<char>, start: Cell, goal: Cell) -> Decision {
        if self.named.contains_key(key) {
            self.named[key].decide(start, goal)
        } else {
            Decision::Refuse(PathError::NotLoaded)
        }
    }
}

/// What a load of `rows` returns.
pub open spec fn load_result(rows: Seq<Seq<u8>>) -> Result<(), PathError> {
    if is_rectangular(rows) {
        Ok(())
    } else {
        Err(PathError::InvalidGrid)
    }
}

/// One default slot and a collection of named slots, each empty or holding a
/// map. A slot is only ever filled or refilled, never emptied.
pub struct MapRegistry {
    default_slot: Option<GridMap>,
    named: StringHashMap<GridMap>,
}

impl View for MapRegistry {
    type V = RegistryView;

    closed spec fn view(&self) -> RegistryView {
        RegistryView {
            default: match self.default_slot {
                Some(m) => Some(m@),
                None => None,
            },
            named: self.named@.map_values(|m: GridMap| m@),
        }
    }
}

impl MapRegistry {
    /// The map in the default slot.
    pub closed spec fn default_map(&self) -> Option<GridMap> {
        self.default_slot
    }

    /// The map held under `key`.
    pub closed spec fn named_map(&self, key: Seq<char>) -> Option<GridMap> {
        if self.named@.contains_key(key) {
            Some(self.named@[key])
        } else {
            None
        }
    }

    /// Every map held is well formed, and the view shows the maps held.
    pub closed spec fn wf(&self) -> bool {
        &&& self.default_slot matches Some(m) ==> m.wf()
        &&& forall|k: Seq<char>| #[trigger]
            self.named@.contains_key(k) ==> self.named@[k].wf()
    }

    /// The view of the registry is the view of each map held.
    pub proof fn lemma_view_of_slots(&self)
        ensures
            self@.default == (match self.default_map() {
                Some(m) => Some(m@),
                None => None,
            }),
            forall|k: Seq<char>| #[trigger]
                self@.named.contains_key(k) <==> self.named_map(k) is Some,
            forall|k: Seq<char>| #[trigger]
                self@.named.contains_key(k) ==> self@.named[k] == self.named_map(k).unwrap()@,
            self.wf() ==> (self.default_map() matches Some(m) ==> m.wf()),
            self.wf() ==> forall|k: Seq<char>| #[trigger]
                self.named_map(k) matches Some(m) ==> m.wf(),
    {
    }

    /// A registry with every slot empty.
    pub fn new() -> (r: MapRegistry)
        ensures
            r.wf(),
            r@ == RegistryView::empty(),
    {
        let r = MapRegistry { default_slot: None, named: StringHashMap::new() };
        assert(r@.named =~= Map::empty());
        r
    }
}

/// Loads a grid into the default slot. A grid that is not a rectangle of at
/// least one cell is refused and the registry stays as it was.
pub fn load_map(registry: &mut MapRegistry, grid: Vec<Vec<u8>>) -> (r: Result<(), PathError>)
    requires
        old(registry).wf(),
    ensures
        final(registry).wf(),
        final(registry)@ == old(registry)@.load_default(grid_rows(grid@)),
        r == load_result(grid_rows(grid@)),
        r is Err ==> *final(registry) == *old(registry),
{
    match GridMap::new(grid) {
        Ok(m) => {
            registry.default_slot = Some(m);
            Ok(())
        },
        Err(e) => Err(e),
    }
}

/// Loads a grid under `key`, in place of what the key held. A grid that is
/// not a rectangle of at least one cell is refused and the registry stays as
/// it was.
pub fn load_map_for_key(
    registry: &mut MapRegistry,
    key: String,
    grid: Vec<Vec<u8>>,
) -> (r: Result<(), PathError>)
    requires
        old(registry).wf(),
    ensures
        final(registry).wf(),
        final(registry)@ == old(registry)@.load_named(key@, grid_rows(grid@)),
        r == load_result(grid_rows(grid@)),
        r is Err ==> *final(registry) == *old(registry),
{
    match GridMap::new(grid) {
        Ok(m) => {
            let ghost shown = m@;
            registry.named.insert(key, m);
            assert(registry@.named =~= old(registry)@.named.insert(key@, shown));
            Ok(())
        },
        Err(e) => Err(e),
    }
}

/// The path from `start` to `goal` on the map in the default slot, found by
/// `search`.
pub fn find_path<F: Fn(&GridMap, usize, usize) -> SearchOutcome>(
    registry: &MapRegistry,
    start: Cell,
    goal: Cell,
    search: F,
) -> (r: Result<Option<Vec<Cell>>, PathError>)
    requires
        registry.wf(),
        search_accepts(search),
    ensures
        answers(registry@.query_default(start, goal), registry.default_map(), search, r),
{
    match &registry.default_slot {
        Some(m) => m.query(start, goal, search),
        None => Err(PathError::NotLoaded),
    }
}

/// The path from `start` to `goal` on the map held under `key`, found by
/// `search`.
pub fn find_path_in_map<F: Fn(&GridMap, usize, usize) -> SearchOutcome>(
    registry: &MapRegistry,
    key: &str,
    start: Cell,
    goal: Cell,
    search: F,
) -> (r: Result<Option<Vec<Cell>>, PathError>)
    requires
        registry.wf(),
        search_accepts(search),
    ensures
        answers(registry@.query_named(key@, start, goal), registry.named_map(key@), search, r),
{
    match registry.named.get(key) {
        Some(m) => m.query(start, goal, search),
        None => Err(PathError::NotLoaded),
    }
}

} // verus!
