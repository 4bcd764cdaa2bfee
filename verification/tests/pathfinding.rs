use android_pathfinding::cost::{CostModel, Terrain};
use android_pathfinding::error::PathError;
use android_pathfinding::grid::{Cell, GridMap};
use android_pathfinding::host::{path_coordinates, query_cells, terrain_row};
use android_pathfinding::registry::{
    find_path, find_path_in_map, load_map, load_map_for_key, MapRegistry,
};
use android_pathfinding::search::{Decision, Exit, SearchOutcome, Step};
use bracket_pathfinding::prelude::{a_star_search, BaseMap, DistanceAlg, Point, SmallVec};

struct Walk<'a>(&'a GridMap);

impl BaseMap for Walk<'_> {
    fn is_opaque(&self, idx: usize) -> bool {
        self.0.is_opaque(idx)
    }

    fn get_available_exits(&self, idx: usize) -> SmallVec<[(usize, f32); 10]> {
        let mut exits = SmallVec::new();
        for exit in self.0.get_available_exits(idx) {
            match exit.step {
                Step::Straight => exits.push((exit.index, 1.0)),
                Step::Diagonal => exits.push((exit.index, 1.4)),
            }
        }
        exits
    }

    fn get_pathing_distance(&self, idx1: usize, idx2: usize) -> f32 {
        let a = self.0.cell_of(idx1);
        let b = self.0.cell_of(idx2);
        DistanceAlg::Pythagoras.distance2d(Point::new(a.x, a.y), Point::new(b.x, b.y))
    }
}

fn search(map: &GridMap, from: usize, to: usize) -> SearchOutcome {
    let found = a_star_search(from, to, &Walk(map));
    SearchOutcome { success: found.success, steps: found.steps }
}

fn cell(x: usize, y: usize) -> Cell {
    Cell { x, y }
}

fn walled() -> Vec<Vec<u8>> {
    vec![
        vec![0, 3, 0, 0, 0],
        vec![0, 3, 3, 3, 3],
        vec![0, 3, 0, 0, 0],
        vec![0, 3, 0, 3, 0],
        vec![0, 0, 0, 3, 0],
    ]
}

fn open(width: usize, height: usize) -> Vec<Vec<u8>> {
    vec![vec![0; width]; height]
}

#[test]
fn test_find() {
    let mut registry = MapRegistry::new();
    let grid = walled();

    load_map(&mut registry, grid).unwrap();

    let points = find_path(&registry, cell(0, 0), cell(4, 4), search).unwrap().unwrap();

    println!("{:?}", points);

    assert_eq!(
        points,
        vec![
            cell(0, 0),
            cell(0, 1),
            cell(0, 2),
            cell(0, 3),
            cell(1, 4),
            cell(2, 3),
            cell(3, 2),
            cell(4, 3),
            cell(4, 4)
        ],
    );

    let grid = walled();

    load_map_for_key(&mut registry, "map1".to_string(), grid).unwrap();

    let points = find_path_in_map(&registry, "map1", cell(0, 0), cell(0, 0), search).unwrap();

    println!("{:?}", points);

    assert!(points.is_some());
    assert_eq!(points, Some(vec![cell(0, 0)]));
}

#[test]
fn new_flattens_rows_in_order() {
    let map = GridMap::new(vec![vec![1, 2, 3], vec![4, 5, 6]]).unwrap();
    assert_eq!(map.width, 3);
    assert_eq!(map.height, 2);
    assert_eq!(map.tiles, vec![1, 2, 3, 4, 5, 6]);
}

#[test]
fn new_refuses_malformed_grids() {
    assert_eq!(GridMap::new(vec![]).err(), Some(PathError::InvalidGrid));
    assert_eq!(GridMap::new(vec![vec![]]).err(), Some(PathError::InvalidGrid));
    assert_eq!(GridMap::new(vec![vec![], vec![]]).err(), Some(PathError::InvalidGrid));
    assert_eq!(GridMap::new(vec![vec![0, 0], vec![0]]).err(), Some(PathError::InvalidGrid));
    assert_eq!(GridMap::new(vec![vec![0], vec![0, 0]]).err(), Some(PathError::InvalidGrid));
    assert_eq!(
        GridMap::new(vec![vec![0; 5], vec![0; 5], vec![0; 4]]).err(),
        Some(PathError::InvalidGrid)
    );
    assert!(GridMap::new(vec![vec![7]]).is_ok());
}

#[test]
fn cells_and_positions_correspond() {
    let map = GridMap::new(walled()).unwrap();
    assert_eq!(map.index_of(cell(0, 0)), 0);
    assert_eq!(map.index_of(cell(3, 2)), 13);
    assert_eq!(map.index_of(cell(4, 4)), 24);
    assert_eq!(map.cell_of(13), cell(3, 2));
    assert_eq!(map.cell_of(24), cell(4, 4));
    assert_eq!(map.cell_of(27), cell(2, 5));
    for idx in 0..25 {
        assert_eq!(map.index_of(map.cell_of(idx)), idx);
    }
    let wide = GridMap::new(vec![vec![0, 1, 2], vec![3, 4, 5]]).unwrap();
    assert_eq!(wide.index_of(cell(2, 1)), 5);
    assert_eq!(wide.cell_of(4), cell(1, 1));
}

#[test]
fn bounds_and_terrain() {
    let map = GridMap::new(vec![vec![0, 1, 2], vec![3, 4, 5]]).unwrap();
    assert!(map.in_bounds(cell(2, 1)));
    assert!(!map.in_bounds(cell(3, 0)));
    assert!(!map.in_bounds(cell(0, 2)));
    assert_eq!(map.terrain_at(cell(0, 0)), Some(0));
    assert_eq!(map.terrain_at(cell(2, 1)), Some(5));
    assert_eq!(map.terrain_at(cell(1, 1)), Some(4));
    assert_eq!(map.terrain_at(cell(3, 0)), None);
    assert_eq!(map.terrain_at(cell(0, 2)), None);
    assert!(!map.is_opaque(0));
    assert!(map.is_opaque(1));
    assert!(map.is_opaque(5));
}

#[test]
fn valid_exit_checks_bounds_and_terrain() {
    let map = GridMap::new(walled()).unwrap();
    assert_eq!(map.valid_exit(cell(0, 0), -1, 0), None);
    assert_eq!(map.valid_exit(cell(0, 0), 0, -1), None);
    assert_eq!(map.valid_exit(cell(0, 0), 1, 0), None);
    assert_eq!(map.valid_exit(cell(0, 0), 0, 1), Some(5));
    assert_eq!(map.valid_exit(cell(0, 3), 1, 1), Some(21));
    assert_eq!(map.valid_exit(cell(4, 4), 1, 0), None);
    assert_eq!(map.valid_exit(cell(4, 4), 0, 1), None);
    assert_eq!(map.valid_exit(cell(4, 4), 0, -1), Some(19));
    assert_eq!(map.valid_exit(cell(4, 4), -4, 0), Some(20));
    assert_eq!(map.valid_exit(cell(0, 0), i32::MIN, i32::MAX), None);
    assert_eq!(map.valid_exit(cell(usize::MAX, 0), 1, 0), None);
}

#[test]
fn exits_come_in_order_with_their_steps() {
    let map = GridMap::new(walled()).unwrap();
    assert_eq!(
        map.get_available_exits(15),
        vec![
            Exit { index: 10, step: Step::Straight },
            Exit { index: 20, step: Step::Straight },
            Exit { index: 21, step: Step::Diagonal },
        ]
    );
    let free = GridMap::new(open(3, 3)).unwrap();
    assert_eq!(
        free.get_available_exits(4),
        vec![
            Exit { index: 3, step: Step::Straight },
            Exit { index: 5, step: Step::Straight },
            Exit { index: 1, step: Step::Straight },
            Exit { index: 7, step: Step::Straight },
            Exit { index: 0, step: Step::Diagonal },
            Exit { index: 6, step: Step::Diagonal },
            Exit { index: 2, step: Step::Diagonal },
            Exit { index: 8, step: Step::Diagonal },
        ]
    );
    assert_eq!(
        free.get_available_exits(0),
        vec![
            Exit { index: 1, step: Step::Straight },
            Exit { index: 3, step: Step::Straight },
            Exit { index: 4, step: Step::Diagonal },
        ]
    );
    let single = GridMap::new(vec![vec![0]]).unwrap();
    assert_eq!(single.get_available_exits(0), vec![]);
}

#[test]
fn decide_names_the_work_to_do() {
    let map = GridMap::new(walled()).unwrap();
    assert_eq!(map.decide(cell(1, 1), cell(1, 1)), Decision::Stay(cell(1, 1)));
    assert_eq!(map.decide(cell(0, 0), cell(4, 4)), Decision::Search { from: 0, to: 24 });
    assert_eq!(map.decide(cell(2, 3), cell(1, 0)), Decision::Search { from: 17, to: 1 });
    assert_eq!(
        map.decide(cell(5, 0), cell(0, 9)),
        Decision::Refuse(PathError::OutOfBounds { width: 5, height: 5, x: 5, y: 0 })
    );
    assert_eq!(
        map.decide(cell(0, 0), cell(0, 9)),
        Decision::Refuse(PathError::OutOfBounds { width: 5, height: 5, x: 0, y: 9 })
    );
}

#[test]
fn path_from_outcome_maps_positions_to_cells() {
    let map = GridMap::new(walled()).unwrap();
    let found = SearchOutcome { success: true, steps: vec![0, 5, 10, 21] };
    assert_eq!(
        map.path_from_outcome(&found),
        Some(vec![cell(0, 0), cell(0, 1), cell(0, 2), cell(1, 4)])
    );
    let lost = SearchOutcome { success: false, steps: vec![0, 5] };
    assert_eq!(map.path_from_outcome(&lost), None);
    let nothing = SearchOutcome { success: true, steps: vec![] };
    assert_eq!(map.path_from_outcome(&nothing), Some(vec![]));
}

#[test]
fn a_star_search_on_a_map() {
    let map = GridMap::new(walled()).unwrap();
    assert_eq!(map.a_star_search(cell(2, 2), cell(2, 2), search), Some(vec![cell(2, 2)]));
    assert_eq!(
        map.a_star_search(cell(0, 0), cell(0, 2), search),
        Some(vec![cell(0, 0), cell(0, 1), cell(0, 2)])
    );
    assert_eq!(map.a_star_search(cell(0, 0), cell(2, 0), search), None);
    assert_eq!(map.a_star_search(cell(0, 0), cell(1, 1), search), None);
}

#[test]
fn same_cell_is_its_own_path() {
    let mut registry = MapRegistry::new();
    load_map(&mut registry, walled()).unwrap();
    for y in 0..5 {
        for x in 0..5 {
            assert_eq!(
                find_path(&registry, cell(x, y), cell(x, y), search),
                Ok(Some(vec![cell(x, y)]))
            );
        }
    }
    load_map(&mut registry, vec![vec![0]]).unwrap();
    assert_eq!(find_path(&registry, cell(0, 0), cell(0, 0), search), Ok(Some(vec![cell(0, 0)])));
    load_map(&mut registry, vec![vec![9]]).unwrap();
    assert_eq!(find_path(&registry, cell(0, 0), cell(0, 0), search), Ok(Some(vec![cell(0, 0)])));
}

#[test]
fn query_before_load_is_not_loaded() {
    let registry = MapRegistry::new();
    assert_eq!(find_path(&registry, cell(0, 0), cell(0, 0), search), Err(PathError::NotLoaded));
    assert_eq!(find_path(&registry, cell(7, 9), cell(1, 2), search), Err(PathError::NotLoaded));
    assert_eq!(
        find_path_in_map(&registry, "map1", cell(0, 0), cell(0, 0), search),
        Err(PathError::NotLoaded)
    );
}

#[test]
fn unknown_key_is_not_loaded() {
    let mut registry = MapRegistry::new();
    load_map_for_key(&mut registry, "map1".to_string(), walled()).unwrap();
    assert_eq!(
        find_path_in_map(&registry, "map2", cell(0, 0), cell(0, 1), search),
        Err(PathError::NotLoaded)
    );
    assert_eq!(
        find_path_in_map(&registry, "", cell(0, 0), cell(0, 1), search),
        Err(PathError::NotLoaded)
    );
}

#[test]
fn out_of_bounds_reports_the_map_and_the_cell() {
    let mut registry = MapRegistry::new();
    load_map(&mut registry, vec![vec![0, 0, 0], vec![0, 0, 0]]).unwrap();
    assert_eq!(
        find_path(&registry, cell(3, 0), cell(0, 0), search),
        Err(PathError::OutOfBounds { width: 3, height: 2, x: 3, y: 0 })
    );
    assert_eq!(
        find_path(&registry, cell(0, 2), cell(0, 0), search),
        Err(PathError::OutOfBounds { width: 3, height: 2, x: 0, y: 2 })
    );
    assert_eq!(
        find_path(&registry, cell(0, 0), cell(3, 1), search),
        Err(PathError::OutOfBounds { width: 3, height: 2, x: 3, y: 1 })
    );
    assert_eq!(
        find_path(&registry, cell(0, 0), cell(2, 2), search),
        Err(PathError::OutOfBounds { width: 3, height: 2, x: 2, y: 2 })
    );
    assert_eq!(
        find_path(&registry, cell(9, 9), cell(8, 8), search),
        Err(PathError::OutOfBounds { width: 3, height: 2, x: 9, y: 9 })
    );
    assert_eq!(
        find_path(&registry, cell(5, 5), cell(5, 5), search),
        Err(PathError::OutOfBounds { width: 3, height: 2, x: 5, y: 5 })
    );
    load_map_for_key(&mut registry, "k".to_string(), walled()).unwrap();
    assert_eq!(
        find_path_in_map(&registry, "k", cell(0, 0), cell(5, 4), search),
        Err(PathError::OutOfBounds { width: 5, height: 5, x: 5, y: 4 })
    );
}

#[test]
fn refused_load_keeps_the_loaded_map() {
    let mut registry = MapRegistry::new();
    load_map(&mut registry, walled()).unwrap();
    load_map_for_key(&mut registry, "map1".to_string(), walled()).unwrap();
    let before = find_path(&registry, cell(0, 0), cell(4, 4), search);
    let ragged = vec![vec![0; 5], vec![0; 5], vec![0; 4]];
    assert_eq!(load_map(&mut registry, ragged.clone()), Err(PathError::InvalidGrid));
    assert_eq!(
        load_map_for_key(&mut registry, "map1".to_string(), ragged),
        Err(PathError::InvalidGrid)
    );
    assert_eq!(load_map(&mut registry, vec![]), Err(PathError::InvalidGrid));
    assert_eq!(find_path(&registry, cell(0, 0), cell(4, 4), search), before);
    assert_eq!(find_path_in_map(&registry, "map1", cell(0, 0), cell(4, 4), search), before);
    assert_eq!(before.unwrap().unwrap().len(), 9);
}

#[test]
fn refused_load_leaves_an_empty_slot_empty() {
    let mut registry = MapRegistry::new();
    assert_eq!(load_map(&mut registry, vec![vec![0], vec![]]), Err(PathError::InvalidGrid));
    assert_eq!(
        load_map_for_key(&mut registry, "a".to_string(), vec![vec![]]),
        Err(PathError::InvalidGrid)
    );
    assert_eq!(find_path(&registry, cell(0, 0), cell(0, 0), search), Err(PathError::NotLoaded));
    assert_eq!(
        find_path_in_map(&registry, "a", cell(0, 0), cell(0, 0), search),
        Err(PathError::NotLoaded)
    );
}

#[test]
fn open_ground_gives_the_geometric_distance() {
    let mut registry = MapRegistry::new();
    load_map(&mut registry, open(6, 1)).unwrap();
    let along = find_path(&registry, cell(0, 0), cell(5, 0), search).unwrap().unwrap();
    assert_eq!(
        along,
        vec![cell(0, 0), cell(1, 0), cell(2, 0), cell(3, 0), cell(4, 0), cell(5, 0)]
    );
    load_map(&mut registry, open(5, 5)).unwrap();
    let across = find_path(&registry, cell(0, 0), cell(4, 4), search).unwrap().unwrap();
    assert_eq!(across, vec![cell(0, 0), cell(1, 1), cell(2, 2), cell(3, 3), cell(4, 4)]);
    let down = find_path(&registry, cell(2, 0), cell(2, 4), search).unwrap().unwrap();
    assert_eq!(down.len() - 1, 4);
    assert_eq!(down[0], cell(2, 0));
    assert_eq!(down[4], cell(2, 4));
}

#[test]
fn repeated_queries_agree() {
    let mut registry = MapRegistry::new();
    load_map(&mut registry, walled()).unwrap();
    let first = find_path(&registry, cell(0, 0), cell(4, 4), search);
    for _ in 0..5 {
        assert_eq!(find_path(&registry, cell(0, 0), cell(4, 4), search), first);
    }
    assert!(first.unwrap().is_some());
}

#[test]
fn walled_scenario_ends_match() {
    let mut registry = MapRegistry::new();
    load_map(&mut registry, walled()).unwrap();
    let path = find_path(&registry, cell(0, 0), cell(4, 4), search).unwrap().unwrap();
    assert!(!path.is_empty());
    assert_eq!(path[0], cell(0, 0));
    assert_eq!(path[path.len() - 1], cell(4, 4));
    let map = GridMap::new(walled()).unwrap();
    for c in &path {
        assert_eq!(map.terrain_at(*c), Some(0));
    }
}

#[test]
fn unreachable_goal_gives_no_path() {
    let mut registry = MapRegistry::new();
    load_map(&mut registry, walled()).unwrap();
    assert_eq!(find_path(&registry, cell(0, 0), cell(2, 0), search), Ok(None));
    assert_eq!(find_path(&registry, cell(0, 0), cell(1, 0), search), Ok(None));
}

#[test]
fn named_load_does_not_fill_the_default_slot() {
    let mut registry = MapRegistry::new();
    load_map_for_key(&mut registry, "map1".to_string(), walled()).unwrap();
    assert_eq!(find_path(&registry, cell(0, 0), cell(4, 4), search), Err(PathError::NotLoaded));
    assert_eq!(find_path(&registry, cell(0, 0), cell(0, 0), search), Err(PathError::NotLoaded));
    assert!(find_path_in_map(&registry, "map1", cell(0, 0), cell(4, 4), search).unwrap().is_some());
}

#[test]
fn default_load_does_not_fill_a_key() {
    let mut registry = MapRegistry::new();
    load_map(&mut registry, walled()).unwrap();
    assert_eq!(
        find_path_in_map(&registry, "map1", cell(0, 0), cell(0, 0), search),
        Err(PathError::NotLoaded)
    );
}

#[test]
fn a_load_replaces_what_the_slot_held() {
    let mut registry = MapRegistry::new();
    load_map_for_key(&mut registry, "a".to_string(), walled()).unwrap();
    load_map_for_key(&mut registry, "b".to_string(), open(2, 2)).unwrap();
    assert_eq!(find_path_in_map(&registry, "a", cell(0, 0), cell(2, 0), search), Ok(None));
    load_map_for_key(&mut registry, "a".to_string(), open(3, 1)).unwrap();
    assert_eq!(
        find_path_in_map(&registry, "a", cell(0, 0), cell(2, 0), search),
        Ok(Some(vec![cell(0, 0), cell(1, 0), cell(2, 0)]))
    );
    assert_eq!(
        find_path_in_map(&registry, "a", cell(0, 0), cell(0, 1), search),
        Err(PathError::OutOfBounds { width: 3, height: 1, x: 0, y: 1 })
    );
    assert_eq!(
        find_path_in_map(&registry, "b", cell(0, 0), cell(1, 1), search),
        Ok(Some(vec![cell(0, 0), cell(1, 1)]))
    );
}

#[test]
fn direct_model_blocks_every_nonzero_code() {
    assert_eq!(CostModel::Direct.classify(0), Terrain::Cheap);
    assert_eq!(CostModel::Direct.classify(1), Terrain::Impassable);
    assert_eq!(CostModel::Direct.classify(3), Terrain::Impassable);
    assert_eq!(CostModel::Direct.classify(255), Terrain::Impassable);
    assert_eq!(CostModel::Direct.normalize(7), 7);
    assert_eq!(CostModel::Direct.normalize(0), 0);
}

#[test]
fn weighted_model_has_three_classes() {
    assert_eq!(CostModel::Weighted.class_of(0), Terrain::Cheap);
    assert_eq!(CostModel::Weighted.class_of(1), Terrain::Expensive);
    assert_eq!(CostModel::Weighted.class_of(2), Terrain::Impassable);
    assert_eq!(CostModel::Direct.class_of(0), Terrain::Cheap);
    assert_eq!(CostModel::Direct.class_of(1), Terrain::Impassable);
    assert_eq!(CostModel::Direct.class_of(2), Terrain::Impassable);
}

#[test]
fn weighted_model_folds_codes_above_one() {
    assert_eq!(CostModel::Weighted.normalize(0), 0);
    assert_eq!(CostModel::Weighted.normalize(1), 1);
    assert_eq!(CostModel::Weighted.normalize(2), 1);
    assert_eq!(CostModel::Weighted.normalize(3), 1);
    assert_eq!(CostModel::Weighted.normalize(200), 1);
    assert_eq!(CostModel::Weighted.classify(0), Terrain::Cheap);
    assert_eq!(CostModel::Weighted.classify(1), Terrain::Expensive);
    assert_eq!(CostModel::Weighted.classify(2), Terrain::Expensive);
    assert_eq!(CostModel::Weighted.classify(255), Terrain::Expensive);
    for code in 0..=255u8 {
        let kept = CostModel::Weighted.normalize(code);
        assert!(kept <= 1);
        assert_eq!(CostModel::Weighted.classify(kept), CostModel::Weighted.classify(code));
        assert_eq!(CostModel::Weighted.normalize(kept), kept);
        let cost = if code == 0 { 1 } else { 10 };
        assert_eq!(CostModel::Weighted.classify(code).weight(), Some(cost));
    }
}

#[test]
fn terrain_weights() {
    assert_eq!(Terrain::Cheap.weight(), Some(1));
    assert_eq!(Terrain::Expensive.weight(), Some(10));
    assert_eq!(Terrain::Impassable.weight(), None);
}

#[test]
fn terrain_row_keeps_the_low_byte() {
    assert_eq!(terrain_row(&vec![0, 3, 255, 256, 257, -1, i32::MIN]), vec![0, 3, 255, 0, 1, 255, 0]);
    assert_eq!(terrain_row(&vec![]), Vec::<u8>::new());
}

#[test]
fn query_cells_refuses_negative_coordinates() {
    assert_eq!(query_cells(0, 0, 4, 4), Some((cell(0, 0), cell(4, 4))));
    assert_eq!(query_cells(1, 2, 3, 4), Some((cell(1, 2), cell(3, 4))));
    assert_eq!(query_cells(i32::MAX, 0, 0, 0), Some((cell(2147483647, 0), cell(0, 0))));
    assert_eq!(query_cells(-1, 0, 0, 0), None);
    assert_eq!(query_cells(0, -1, 0, 0), None);
    assert_eq!(query_cells(0, 0, -1, 0), None);
    assert_eq!(query_cells(0, 0, 0, i32::MIN), None);
}

#[test]
fn path_coordinates_interleaves() {
    assert_eq!(
        path_coordinates(&vec![cell(0, 0), cell(1, 4), cell(2, 3)]),
        Some(vec![0, 0, 1, 4, 2, 3])
    );
    assert_eq!(path_coordinates(&vec![]), Some(vec![]));
    assert_eq!(path_coordinates(&vec![cell(2147483647, 7)]), Some(vec![2147483647, 7]));
    assert_eq!(path_coordinates(&vec![cell(0, 0), cell(2147483648, 0)]), None);
    assert_eq!(path_coordinates(&vec![cell(0, usize::MAX)]), None);
}
