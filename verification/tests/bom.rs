use murmelbahn::binary32::Binary32;
use murmelbahn::bom::{
    compute_bill_of_materials, decompose_stackers, hex_direction, wall_side_direction,
    AggregationError, BillOfMaterials, CountContext, GeometryViolation, RetainerHeight,
};
use murmelbahn::course::{
    Course, CourseElementGeneration, CourseKind, CourseMetaData, ObjectiveKind,
};
use murmelbahn::hex::{Direction, HexVector};
use murmelbahn::layer::{
    CellConstructionData, LayerConstructionData, LayerKind, TileKind,
    TileTowerConstructionData, TileTowerTreeNodeData,
};
use murmelbahn::pillar::PillarConstructionData;
use murmelbahn::power2022;
use murmelbahn::processors::{
    process_layer_construction_data, process_pillar_construction_data,
    process_rail_construction_data, process_wall_construction_data, StraightRail,
};
use murmelbahn::rail::{RailConstructionData, RailConstructionExitIdentifier, RailKind};
use murmelbahn::walker::process_tree_node_data;
use murmelbahn::wall::{
    WallBalconyConstructionData, WallConstructionData, WallCoordinate, WallKind, WallSide,
};

fn height(units: i32) -> Binary32 {
    Binary32 { bits: (units as f32 * 0.36).to_bits() }
}

fn tile(kind: TileKind, stackers: i32, retainer_id: Option<i32>) -> TileTowerConstructionData {
    TileTowerConstructionData {
        kind,
        height_in_small_stacker: stackers,
        hex_rotation: 0,
        retainer_id,
        power_signal_mode: None,
        light_stone_color_mode: None,
    }
}

fn node(
    kind: TileKind,
    stackers: i32,
    retainer_id: Option<i32>,
    children: Vec<TileTowerTreeNodeData>,
) -> TileTowerTreeNodeData {
    TileTowerTreeNodeData { index: 0, construction_data: tile(kind, stackers, retainer_id),
        children }
}

fn cell(x: i32, y: i32, tree: TileTowerTreeNodeData) -> CellConstructionData {
    CellConstructionData { local_hex_position: HexVector::new(x, y), tree_node_data: tree }
}

fn layer(
    id: i32,
    kind: LayerKind,
    units: i32,
    x: i32,
    y: i32,
    cells: Vec<CellConstructionData>,
) -> LayerConstructionData {
    LayerConstructionData {
        layer_id: id,
        layer_kind: kind,
        layer_height: height(units),
        world_hex_position: HexVector::new(x, y),
        cell_construction_datas: cells,
    }
}

fn exit(retainer_id: i32, x: i32, y: i32) -> RailConstructionExitIdentifier {
    RailConstructionExitIdentifier {
        retainer_id,
        cell_local_hex_pos: HexVector::new(x, y),
        side_hex_rot: 0,
        exit_local_pos_y: None,
    }
}

fn rail(kind: RailKind, from: (i32, i32, i32), to: (i32, i32, i32)) -> RailConstructionData {
    RailConstructionData {
        exit_1_identifier: exit(from.0, from.1, from.2),
        exit_2_identifier: exit(to.0, to.1, to.2),
        rail_kind: kind,
        materialized: None,
    }
}

fn wall(
    first: (i32, i32, i32),
    second: (i32, i32, i32),
    balconies: Vec<WallBalconyConstructionData>,
) -> WallConstructionData {
    WallConstructionData {
        lower_stacker_tower_1_retainer_id: first.0,
        lower_stacker_tower_1_local_hex_pos: HexVector::new(first.1, first.2),
        lower_stacker_tower_2_retainer_id: second.0,
        lower_stacker_tower_2_local_hex_pos: HexVector::new(second.1, second.2),
        balcony_construction_datas: balconies,
    }
}

fn balcony(
    retainer_id: i32,
    side: WallSide,
    column: i32,
    tree: Option<TileTowerTreeNodeData>,
) -> WallBalconyConstructionData {
    WallBalconyConstructionData {
        retainer_id,
        wall_side: side,
        wall_coordinate: WallCoordinate { column, row: 0 },
        cell_construction_datas: tree.map(|t| cell(7, 7, t)),
    }
}

fn course(
    layers: Vec<LayerConstructionData>,
    rails: Vec<RailConstructionData>,
    pillars: Vec<PillarConstructionData>,
    walls: Vec<WallConstructionData>,
) -> Course {
    Course::Power2022(power2022::Course {
        meta_data: CourseMetaData {
            creation_timestamp: 0,
            title: String::from("test"),
            order_number: 0,
            course_kind: CourseKind::Custom,
            objective_kind: ObjectiveKind::Nothing,
            difficulty: 0,
            completed: false,
        },
        layer_construction_data: layers,
        rail_construction_data: rails,
        pillar_construction_data: pillars,
        generation: CourseElementGeneration::Power,
        wall_construction_data: walls,
    })
}

fn pillar(lower: i32, upper: i32) -> PillarConstructionData {
    PillarConstructionData {
        lower_layer_id: lower,
        lower_cell_local_position: HexVector::new(0, 0),
        upper_layer_id: upper,
        upper_cell_local_position: HexVector::new(0, 0),
    }
}

fn unregistered(retainer_id: i32) -> AggregationError {
    AggregationError::GeometryInvariantViolation(GeometryViolation::UnregisteredRetainer {
        retainer_id,
    })
}

/// A context in which the retainer 1 is registered at the origin.
fn context_with_origin() -> CountContext {
    let mut context = CountContext::new();
    context.retainer_positions.insert(1, HexVector::new(0, 0));
    context
}

#[test]
fn distance_is_symmetric_and_zero_to_itself() {
    let cells = [
        HexVector::new(0, 0),
        HexVector::new(1, -1),
        HexVector::new(-3, 2),
        HexVector::new(5, 5),
        HexVector::new(-4, -9),
        HexVector::new(0, 7),
    ];
    for a in cells.iter() {
        assert_eq!(a.distance(a), 0);
        for b in cells.iter() {
            assert_eq!(a.distance(b), b.distance(a));
        }
    }
}

#[test]
fn distance_of_the_fixed_pair() {
    let from = HexVector::new(0, 0);
    let to = HexVector::new(1, -1);
    assert_eq!(hex_direction(&from, &to), Direction::NorthEast);
    assert_eq!(from.distance(&to), 1);
}

#[test]
fn distance_follows_the_formula() {
    // |dx| + max(0, |dy| - |dx|)
    assert_eq!(HexVector::new(0, 0).distance(&HexVector::new(3, 0)), 3);
    assert_eq!(HexVector::new(0, 0).distance(&HexVector::new(0, -4)), 4);
    assert_eq!(HexVector::new(0, 0).distance(&HexVector::new(2, 5)), 5);
    assert_eq!(HexVector::new(0, 0).distance(&HexVector::new(5, 2)), 5);
    assert_eq!(HexVector::new(-2, 3).distance(&HexVector::new(4, -1)), 6);
    assert_eq!(HexVector::new(1, 1).distance(&HexVector::new(2, 2)), 1);
    assert_eq!(
        HexVector::new(i32::MIN, i32::MIN).wide_distance(&HexVector::new(i32::MAX, i32::MAX)),
        0xffff_ffff
    );
}

#[test]
fn neighbours_are_one_cell_away() {
    let origin = HexVector::new(4, -2);
    let directions = [
        (Direction::NorthEast, 5, -3),
        (Direction::East, 4, -3),
        (Direction::SouthEast, 3, -2),
        (Direction::SouthWest, 3, -1),
        (Direction::West, 4, -1),
        (Direction::NorthWest, 5, -2),
    ];
    for (direction, x, y) in directions {
        let neighbour = origin.neighbor(&direction);
        assert_eq!((neighbour.x, neighbour.y), (x, y));
        assert_eq!(origin.distance(&neighbour), 1);
        assert_eq!(hex_direction(&origin, &neighbour), direction);
        let far = origin.hex_vector_in_distance(&direction, 3);
        assert_eq!((far.x - 4, far.y + 2), (3 * (x - 4), 3 * (y + 3 - 1)));
    }
    assert_eq!(origin.add(&HexVector::new(-4, 2)), HexVector::new(0, 0));
    assert_eq!(HexVector::new(i32::MAX, 0).checked_add(&HexVector::new(1, 0)), None);
    assert_eq!(
        HexVector::new(i32::MAX, 0).checked_add(&HexVector::new(-1, 5)),
        Some(HexVector::new(i32::MAX - 1, 5))
    );
}

#[test]
fn rotation_names_direction() {
    let expected = [
        Direction::East,
        Direction::SouthEast,
        Direction::SouthWest,
        Direction::West,
        Direction::NorthWest,
        Direction::NorthEast,
    ];
    for (rotation, direction) in expected.iter().enumerate() {
        assert_eq!(Direction::hex_rotation_to_direction(rotation as i32), *direction);
        assert_eq!(Direction::try_from_rotation(rotation as i32), Some(*direction));
    }
    assert_eq!(Direction::try_from_rotation(6), None);
    assert_eq!(Direction::try_from_rotation(-1), None);
}

#[test]
fn direction_without_a_name_is_north_west() {
    let origin = HexVector::new(0, 0);
    assert_eq!(hex_direction(&origin, &origin), Direction::NorthWest);
    assert_eq!(hex_direction(&origin, &HexVector::new(2, 2)), Direction::NorthWest);
    assert_eq!(hex_direction(&origin, &HexVector::new(-1, -1)), Direction::NorthWest);
    assert_eq!(hex_direction(&HexVector::new(-1, 4), &HexVector::new(3, 0)), Direction::NorthEast);
    assert_eq!(
        hex_direction(&HexVector::new(i32::MIN, 0), &HexVector::new(i32::MAX, 0)),
        Direction::NorthWest
    );
}

#[test]
fn wall_sides_table() {
    let table = [
        (Direction::NorthEast, WallSide::East, Direction::East),
        (Direction::NorthEast, WallSide::West, Direction::NorthWest),
        (Direction::East, WallSide::East, Direction::SouthEast),
        (Direction::East, WallSide::West, Direction::NorthEast),
        (Direction::SouthEast, WallSide::East, Direction::SouthWest),
        (Direction::SouthEast, WallSide::West, Direction::East),
        (Direction::SouthWest, WallSide::East, Direction::West),
        (Direction::SouthWest, WallSide::West, Direction::SouthEast),
        (Direction::West, WallSide::East, Direction::NorthWest),
        (Direction::West, WallSide::West, Direction::SouthWest),
        (Direction::NorthWest, WallSide::East, Direction::NorthEast),
        (Direction::NorthWest, WallSide::West, Direction::West),
    ];
    assert_eq!(table.len(), 12);
    for (direction, side, facing) in table {
        assert_eq!(wall_side_direction(&direction, &side), facing);
    }
    for (direction, _, _) in table {
        let east = wall_side_direction(&direction, &WallSide::East);
        let west = wall_side_direction(&direction, &WallSide::West);
        assert_ne!(east, west);
        // Not opposite: the two cells on the sides are not two cells apart
        // in a line through the wall.
        let origin = HexVector::new(0, 0);
        assert_ne!(origin.neighbor(&east).neighbor(&west), origin);
    }
}

#[test]
fn stackers_decompose() {
    for n in 0..200 {
        let (small, large) = decompose_stackers(n);
        assert!(small == 0 || small == 1);
        assert_eq!(small + 2 * large, n);
        assert_eq!(small, n % 2);
    }
    assert_eq!(decompose_stackers(3), (1, 1));
    assert_eq!(decompose_stackers(9), (1, 4));
    assert_eq!(decompose_stackers(10), (0, 5));
    assert_eq!(decompose_stackers(0), (0, 0));
    assert_eq!(decompose_stackers(i32::MAX), (1, 1073741823));
    // A negative height keeps the sum.
    assert_eq!(decompose_stackers(-3), (1, -2));
    assert_eq!(decompose_stackers(-4), (0, -2));
    assert_eq!(decompose_stackers(i32::MIN), (0, -1073741824));
}

#[test]
fn stackers_are_counted_for_each_stack() {
    let mut context = CountContext::new();
    context.add_stackers(3).unwrap();
    context.add_stackers(3).unwrap();
    // Two stacks of three: two small and two large stackers, not three large.
    assert_eq!(context.tiles.get(&TileKind::StackerSmall.code()), Some(&2));
    assert_eq!(context.tiles.get(&TileKind::Stacker.code()), Some(&2));
    context.add_stackers(4).unwrap();
    assert_eq!(context.tiles.get(&TileKind::StackerSmall.code()), Some(&2));
    assert_eq!(context.tiles.get(&TileKind::Stacker.code()), Some(&4));
}

#[test]
fn even_stack_counts_no_small_stacker() {
    let mut context = CountContext::new();
    context.add_stackers(0).unwrap();
    assert_eq!(context.tiles.get(&TileKind::StackerSmall.code()), None);
    assert_eq!(context.tiles.get(&TileKind::Stacker.code()), Some(&0));
}

#[test]
fn one_tile_on_three_small_stackers() {
    let layers = vec![layer(
        0,
        LayerKind::BaseLayerPiece,
        -1,
        0,
        0,
        vec![cell(1, 1, node(TileKind::Cross, 3, None, vec![]))],
    )];
    let bom = compute_bill_of_materials(&course(layers, vec![], vec![], vec![])).unwrap();
    assert_eq!(bom.tile_kind(TileKind::Cross), Some(1));
    assert_eq!(bom.tile_kind(TileKind::StackerSmall), Some(1));
    assert_eq!(bom.tile_kind(TileKind::Stacker), Some(1));
    assert_eq!(bom.layer_kind(LayerKind::BaseLayerPiece), Some(1));
    assert_eq!(bom.layer_kind(LayerKind::LargeLayer), None);
}

#[test]
fn pillar_between_two_layers() {
    let mut context = CountContext::new();
    context.retainer_heights.insert(1, RetainerHeight::new(0, 1));
    context.retainer_heights.insert(2, RetainerHeight::new(10, 11));
    process_pillar_construction_data(&[pillar(1, 2)], &mut context).unwrap();
    assert_eq!(context.tiles.get(&TileKind::StackerSmall.code()), Some(&1));
    assert_eq!(context.tiles.get(&TileKind::Stacker.code()), Some(&4));
}

#[test]
fn pillar_between_decoded_layers() {
    let layers = vec![
        layer(1, LayerKind::BaseLayerPiece, 0, 0, 0, vec![]),
        layer(2, LayerKind::SmallLayer, 10, 0, 0, vec![]),
    ];
    let bom =
        compute_bill_of_materials(&course(layers, vec![], vec![pillar(1, 2)], vec![])).unwrap();
    assert_eq!(bom.tile_kind(TileKind::StackerSmall), Some(1));
    assert_eq!(bom.tile_kind(TileKind::Stacker), Some(4));
    assert_eq!(bom.layer_kind(LayerKind::SmallLayer), Some(1));
}

#[test]
fn pillar_needs_registered_layers() {
    let mut context = CountContext::new();
    context.retainer_heights.insert(1, RetainerHeight::new(0, 1));
    assert_eq!(
        process_pillar_construction_data(&[pillar(1, 2)], &mut context),
        Err(unregistered(2))
    );
    assert_eq!(
        process_pillar_construction_data(&[pillar(3, 1)], &mut context),
        Err(unregistered(3))
    );
    assert_eq!(
        process_pillar_construction_data(&[pillar(3, 2)], &mut context),
        Err(unregistered(3))
    );
}

#[test]
fn layer_is_registered_with_its_height() {
    let mut context = CountContext::new();
    let layers = vec![
        layer(4, LayerKind::BaseLayerPiece, -1, 3, -2, vec![]),
        layer(5, LayerKind::LargeLayer, 7, 1, 1, vec![]),
    ];
    process_layer_construction_data(&layers, &mut context).unwrap();
    assert_eq!(context.retainer_heights.get(&4), Some(&RetainerHeight::new(-1, 0)));
    assert_eq!(context.retainer_heights.get(&5), Some(&RetainerHeight::new(7, 8)));
    assert_eq!(context.retainer_positions.get(&4), Some(&HexVector::new(3, -2)));
    assert_eq!(context.retainer_positions.get(&5), Some(&HexVector::new(1, 1)));
}

#[test]
fn base_plate_height_rounds_to_minus_one() {
    let mut context = CountContext::new();
    let mut plate = layer(0, LayerKind::BaseLayerPiece, 0, 0, 0, vec![]);
    plate.layer_height = Binary32 { bits: (-0.2f32).to_bits() };
    let registered = context.add_layer(&plate).unwrap();
    assert_eq!(registered, RetainerHeight::new(-1, 0));
}

/// The height that a stacker tower adds is pinned to 14 small stackers. It
/// was found by trial and may be off by one.
#[test]
fn stacker_tower_height_is_pinned_to_fourteen() {
    assert_eq!(murmelbahn::walker::STACKER_TOWER_HEIGHT, 14);
    for kind in [TileKind::StackerTowerClosed, TileKind::StackerTowerOpened] {
        let mut context = CountContext::new();
        let tree = node(kind, 3, Some(9), vec![node(TileKind::Curve, 0, Some(10), vec![])]);
        process_tree_node_data(&tree, &HexVector::new(2, 2), 5, &mut context).unwrap();
        assert_eq!(context.retainer_heights.get(&9), Some(&RetainerHeight::new(5, 5 + 14 + 3)));
        // The tile on the tower stands at the upper side of the tower.
        assert_eq!(context.retainer_heights.get(&10), Some(&RetainerHeight::new(22, 23)));
        assert_eq!(context.retainer_positions.get(&9), Some(&HexVector::new(2, 2)));
        assert_eq!(context.retainer_positions.get(&10), Some(&HexVector::new(2, 2)));
    }
}

#[test]
fn other_retainer_is_one_high() {
    let mut context = CountContext::new();
    let tree = node(
        TileKind::DoubleBalcony,
        4,
        Some(9),
        vec![
            node(TileKind::Curve, 1, Some(10), vec![]),
            node(TileKind::Catch, 0, Some(11), vec![]),
        ],
    );
    process_tree_node_data(&tree, &HexVector::new(0, 0), 2, &mut context).unwrap();
    assert_eq!(context.retainer_heights.get(&9), Some(&RetainerHeight::new(2, 2 + 4 + 1)));
    // Both tiles on it start from the same height, which its stackers raise.
    assert_eq!(context.retainer_heights.get(&10), Some(&RetainerHeight::new(6, 8)));
    assert_eq!(context.retainer_heights.get(&11), Some(&RetainerHeight::new(6, 7)));
}

#[test]
fn tile_that_is_no_retainer_does_not_raise_the_height() {
    let mut context = CountContext::new();
    let tree = node(TileKind::Curve, 6, None, vec![node(TileKind::Catch, 0, Some(3), vec![])]);
    process_tree_node_data(&tree, &HexVector::new(0, 0), 1, &mut context).unwrap();
    assert_eq!(context.retainer_heights.get(&3), Some(&RetainerHeight::new(1, 2)));
    assert_eq!(context.tiles.get(&TileKind::Curve.code()), Some(&1));
    assert_eq!(context.tiles.get(&TileKind::Catch.code()), Some(&1));
    assert_eq!(context.tiles.get(&TileKind::Stacker.code()), Some(&3));
}

#[test]
fn cell_is_placed_relative_to_its_layer() {
    let layers = vec![layer(
        0,
        LayerKind::BaseLayerPiece,
        -1,
        10,
        20,
        vec![cell(1, 2, node(TileKind::StackerTowerClosed, 0, Some(50), vec![]))],
    )];
    let mut context = CountContext::new();
    process_layer_construction_data(&layers, &mut context).unwrap();
    assert_eq!(context.retainer_positions.get(&50), Some(&HexVector::new(11, 22)));
    assert_eq!(context.retainer_heights.get(&50), Some(&RetainerHeight::new(0, 14)));
    let cell = &layers[0].cell_construction_datas[0];
    assert_eq!(cell.world_hex_position(&layers[0]), HexVector::new(11, 22));
}

#[test]
fn straight_rail_is_counted_by_its_length() {
    for (x, expected) in [(2, (1, 0, 0)), (3, (0, 1, 0)), (4, (0, 0, 1))] {
        let mut context = context_with_origin();
        process_rail_construction_data(&[rail(RailKind::Straight, (1, 0, 0), (1, x, 0))],
            &mut context)
            .unwrap();
        assert_eq!((context.rail_small, context.rail_medium, context.rail_large), expected);
        assert!(context.rails.is_empty());
    }
    assert_eq!(StraightRail::of_length(1), Some(StraightRail::Small));
    assert_eq!(StraightRail::of_length(2), Some(StraightRail::Medium));
    assert_eq!(StraightRail::of_length(3), Some(StraightRail::Large));
    assert_eq!(StraightRail::of_length(0), None);
    assert_eq!(StraightRail::of_length(4), None);
    assert_eq!(StraightRail::of_length(-1), None);
}

#[test]
fn straight_rail_of_no_length_is_rejected() {
    let violation = Err(AggregationError::GeometryInvariantViolation(GeometryViolation::RailLength));
    for x in [0, 1, 5, 6, 100, -5] {
        let mut context = context_with_origin();
        let rails = [rail(RailKind::Straight, (1, 0, 0), (1, x, 0))];
        let expected = if x == -5 || x == 0 || x == 1 || x >= 5 { violation } else { Ok(()) };
        assert_eq!(process_rail_construction_data(&rails, &mut context), expected, "x = {}", x);
    }
    // The ends may lie far apart.
    let mut context = context_with_origin();
    let rails = [rail(RailKind::Straight, (1, i32::MIN, 0), (1, i32::MAX, 0))];
    assert_eq!(process_rail_construction_data(&rails, &mut context), violation);
}

#[test]
fn other_rails_are_counted_by_kind() {
    let mut context = CountContext::new();
    let rails = [
        rail(RailKind::Bernoulli, (8, 0, 0), (9, 0, 0)),
        rail(RailKind::UTurn, (8, 0, 0), (9, 0, 0)),
        rail(RailKind::Bernoulli, (8, 0, 0), (9, 50, 0)),
    ];
    process_rail_construction_data(&rails, &mut context).unwrap();
    assert_eq!(context.rails.get(&RailKind::Bernoulli.code()), Some(&2));
    assert_eq!(context.rails.get(&RailKind::UTurn.code()), Some(&1));
    assert_eq!((context.rail_small, context.rail_medium, context.rail_large), (0, 0, 0));
}

#[test]
fn rail_needs_registered_retainers() {
    let mut context = context_with_origin();
    assert_eq!(
        process_rail_construction_data(&[rail(RailKind::Straight, (1, 0, 0), (2, 2, 0))],
            &mut context),
        Err(unregistered(2))
    );
    assert_eq!(
        process_rail_construction_data(&[rail(RailKind::Straight, (3, 0, 0), (2, 2, 0))],
            &mut context),
        Err(unregistered(3))
    );
}

#[test]
fn wall_is_counted_by_its_length() {
    for (y, kind) in [
        (2, WallKind::StraightSmall),
        (3, WallKind::StraightMedium),
        (4, WallKind::StraightLarge),
    ] {
        let mut context = context_with_origin();
        process_wall_construction_data(&[wall((1, 0, 0), (1, 0, y), vec![])],
            &mut context).unwrap();
        assert_eq!(context.walls.get(&kind.length()), Some(&1));
        assert_eq!(context.walls.len(), 1);
        assert_eq!(context.balconies, 0);
    }
    assert_eq!(WallKind::straight_of_length(1), WallKind::StraightSmall);
    assert_eq!(WallKind::straight_of_length(2), WallKind::StraightMedium);
    assert_eq!(WallKind::straight_of_length(3), WallKind::StraightLarge);
    assert_eq!(WallKind::try_straight_of_length(0), None);
    assert_eq!(WallKind::try_straight_of_length(4), None);
}

#[test]
fn wall_of_no_length_is_rejected() {
    let violation = Err(AggregationError::GeometryInvariantViolation(GeometryViolation::WallLength));
    for y in [0, 1, 5, 9] {
        let mut context = context_with_origin();
        assert_eq!(
            process_wall_construction_data(&[wall((1, 0, 0), (1, 0, y), vec![])], &mut context),
            violation
        );
    }
    let mut context = context_with_origin();
    assert_eq!(
        process_wall_construction_data(&[wall((1, 0, 0), (4, 0, 2), vec![])], &mut context),
        Err(unregistered(4))
    );
}

#[test]
fn balcony_is_placed_beside_the_wall() {
    // A wall from (5, 5) to the west: two cells between its towers.
    let mut context = CountContext::new();
    context.retainer_positions.insert(1, HexVector::new(5, 5));
    let walls = [wall(
        (1, 0, 0),
        (1, 0, 3),
        vec![
            balcony(20, WallSide::East, 0, None),
            balcony(21, WallSide::West, 2, Some(node(TileKind::Curve, 2, Some(22), vec![]))),
        ],
    )];
    process_wall_construction_data(&walls, &mut context).unwrap();
    assert_eq!(context.balconies, 2);
    assert_eq!(context.walls.get(&2), Some(&1));
    // East of a wall that runs west is north-west: x + 1.
    assert_eq!(context.retainer_positions.get(&20), Some(&HexVector::new(6, 5)));
    // Two cells along the wall, then south-west: x - 1, y + 1.
    assert_eq!(context.retainer_positions.get(&21), Some(&HexVector::new(4, 8)));
    // A balcony has no height; the tower on it starts at zero.
    assert_eq!(context.retainer_heights.get(&20), None);
    assert_eq!(context.retainer_heights.get(&21), None);
    assert_eq!(context.retainer_positions.get(&22), Some(&HexVector::new(4, 8)));
    assert_eq!(context.retainer_heights.get(&22), Some(&RetainerHeight::new(0, 3)));
    assert_eq!(context.tiles.get(&TileKind::Curve.code()), Some(&1));
    assert_eq!(context.tiles.get(&TileKind::Stacker.code()), Some(&1));
}

#[test]
fn rail_ends_on_a_balcony() {
    let layers = vec![layer(
        0,
        LayerKind::BaseLayerPiece,
        -1,
        0,
        0,
        vec![
            cell(0, 0, node(TileKind::StackerTowerClosed, 0, Some(100), vec![])),
            cell(0, 2, node(TileKind::StackerTowerClosed, 0, Some(101), vec![])),
        ],
    )];
    let walls = vec![wall((100, 0, 0), (101, 0, 0), vec![balcony(200, WallSide::East, 1, None)])];
    // The balcony lies at (1, 1); a rail from it to (4, 1) on the layer spans
    // two cells.
    let rails = vec![rail(RailKind::Straight, (200, 0, 0), (0, 4, 1))];
    let bom = compute_bill_of_materials(&course(layers, rails, vec![], walls)).unwrap();
    assert_eq!(bom.wall_kind(WallKind::StraightSmall), Some(1));
    assert_eq!(bom.balconies, 1);
    assert_eq!((bom.rails_small, bom.rails_medium, bom.rails_large), (0, 1, 0));
    assert_eq!(bom.tile_kind(TileKind::StackerTowerClosed), Some(2));
}

#[test]
fn layers_are_processed_before_what_refers_to_them() {
    // The pillar refers to layers that are stored after it would be needed:
    // all layers are registered first.
    let layers = vec![
        layer(2, LayerKind::SmallLayer, 4, 0, 0, vec![]),
        layer(1, LayerKind::BaseLayerPiece, -1, 0, 0, vec![]),
    ];
    let bom =
        compute_bill_of_materials(&course(layers, vec![], vec![pillar(1, 2)], vec![])).unwrap();
    assert_eq!(bom.tile_kind(TileKind::Stacker), Some(2));
    // A pillar cannot stand on a balcony, which is registered after it.
    let layers = vec![layer(1, LayerKind::BaseLayerPiece, -1, 0, 0, vec![])];
    let walls = vec![wall((1, 0, 0), (1, 0, 2), vec![balcony(7, WallSide::East, 0, None)])];
    assert_eq!(
        compute_bill_of_materials(&course(layers, vec![], vec![pillar(7, 1)], walls)).err(),
        Some(unregistered(7))
    );
}

#[test]
fn counts_that_do_not_fit_are_rejected() {
    let mut context = CountContext::new();
    context.tiles.insert(TileKind::Curve.code(), i32::MAX);
    assert_eq!(context.add_tile(TileKind::Curve, 1), Err(AggregationError::Overflow));
    assert_eq!(context.add_tile(TileKind::Curve, -1), Ok(()));
    let mut context = CountContext::new();
    context.rail_small = i32::MAX;
    context.retainer_positions.insert(1, HexVector::new(0, 0));
    assert_eq!(
        process_rail_construction_data(&[rail(RailKind::Straight, (1, 0, 0), (1, 2, 0))],
            &mut context),
        Err(AggregationError::Overflow)
    );
    // A position beyond the board.
    let mut context = CountContext::new();
    context.retainer_positions.insert(1, HexVector::new(i32::MAX, 0));
    assert_eq!(
        context.local_to_world_hex_vector(&HexVector::new(1, 0), 1),
        Err(AggregationError::Overflow)
    );
    assert_eq!(
        context.local_to_world_hex_vector(&HexVector::new(-1, 3), 1),
        Ok(HexVector::new(i32::MAX - 1, 3))
    );
    assert_eq!(context.local_to_world_hex_vector(&HexVector::new(0, 0), 2), Err(unregistered(2)));
    // A height beyond the numbers.
    let mut context = CountContext::new();
    let tree = node(TileKind::StackerTowerClosed, 0, Some(1), vec![]);
    assert_eq!(
        process_tree_node_data(&tree, &HexVector::new(0, 0), i32::MAX - 13, &mut context),
        Err(AggregationError::Overflow)
    );
    let mut context = CountContext::new();
    assert_eq!(
        process_tree_node_data(&tree, &HexVector::new(0, 0), i32::MAX - 14, &mut context),
        Ok(())
    );
}

#[test]
fn marbles_are_estimated() {
    let mut bom = BillOfMaterials::from_course(&course(vec![], vec![], vec![], vec![])).unwrap();
    assert_eq!(bom.marbles(), Some(0));
    let weights = [
        (TileKind::Cannon, 2),
        (TileKind::ZiplineStart, 1),
        (TileKind::ColorSwapPreloaded, 1),
        (TileKind::Bridge, 2),
        (TileKind::Catapult, 4),
        (TileKind::LiftSmall, 5),
        (TileKind::LiftLarge, 8),
        (TileKind::Starter, 1),
        (TileKind::Spinner, 1),
        (TileKind::Splash, 1),
        (TileKind::Volcano, 1),
        (TileKind::DomeStarter, 1),
    ];
    let mut expected = 0;
    for (i, (kind, weight)) in weights.iter().enumerate() {
        let count = i as i32 + 1;
        bom.tiles.insert(kind.code(), count);
        expected += count * weight;
        assert_eq!(bom.marbles(), Some(expected));
    }
    assert_eq!(expected, 2 + 2 + 3 + 8 + 20 + 30 + 56 + 8 + 9 + 10 + 11 + 12);
    // Tiles that take no marble.
    bom.tiles.insert(TileKind::Curve.code(), 100);
    bom.tiles.insert(TileKind::TipTube.code(), 100);
    bom.tiles.insert(TileKind::ColorSwapEmpty.code(), 100);
    assert_eq!(bom.marbles(), Some(expected));
    bom.tiles.insert(TileKind::LiftLarge.code(), i32::MAX);
    assert_eq!(bom.marbles(), None);
}
