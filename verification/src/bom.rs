//! The bill of materials of a course: how many layers, tiles, rails, walls
//! and balconies are needed to build it.
//!
//! The parts are counted in one pass over the course. On the way every
//! retainer (a layer, a tile that holds other elements, a balcony) is
//! registered with its position on the board and, but for balconies, with
//! its height, so that the elements that refer to it later can be placed.
use crate::course::{Course, CourseView};
use crate::hex::{fits_i32, Direction, HexVector};
use crate::layer::{LayerKind, TileKind};
use crate::power2022;
use crate::processors::{
    process_layer_construction_data, process_layer_construction_data_zipline,
    process_pillar_construction_data, process_rail_construction_data,
    process_wall_construction_data,
};
use crate::ziplineadded2019;
use crate::rail::RailKind;
use crate::wall::{WallKind, WallSide};
use std::collections::HashMap;
use vstd::prelude::*;

verus! {

broadcast use vstd::std_specs::hash::group_hash_axioms;

/// A rule of the board that a course breaks.
#[derive(Clone, Copy, Debug, PartialEq, Eq, Structural)]
pub enum GeometryViolation {
    /// An element refers to a retainer that nothing before it has registered.
    UnregisteredRetainer { retainer_id: i32 },
    /// No wall spans the cells between the two towers of a wall.
    WallLength,
    /// No straight rail spans the cells between the two ends of a rail.
    RailLength,
}

/// Why the parts of a course could not be counted.
#[derive(Clone, Copy, Debug, PartialEq, Eq, Structural)]
pub enum AggregationError {
    GeometryInvariantViolation(GeometryViolation),
    /// A count, a height or a coordinate is not a value of `i32`.
    Overflow,
}

/// The height of a retainer in small stackers: that of its lower and that of
/// its upper side.
#[derive(Clone, Copy, Debug, PartialEq, Eq, Structural)]
pub struct RetainerHeight {
    pub lower: i32,
    pub upper: i32,
}

impl RetainerHeight {
    pub fn new(lower: i32, upper: i32) -> (height: RetainerHeight)
        ensures
            height.lower == lower,
            height.upper == upper,
    {
        RetainerHeight { lower, upper }
    }
}

/// The count that `counts` holds for `key`, and zero where it holds none.
pub open spec fn counted(counts: Map<u32, i32>, key: u32) -> int {
    if counts.contains_key(key) {
        counts[key] as int
    } else {
        0
    }
}

/// The count that `counts` holds for `key`, if it holds one.
pub open spec fn lookup(counts: Map<u32, i32>, key: u32) -> Option<i32> {
    if counts.contains_key(key) {
        Some(counts[key])
    } else {
        None
    }
}

/// `counts` with the count for `key` raised by `amount`, or `None` where the
/// new count is not a value of `i32`.
pub open spec fn spec_add_count(counts: Map<u32, i32>, key: u32, amount: int) -> Option<
    Map<u32, i32>,
> {
    if fits_i32(counted(counts, key) + amount) {
        Some(counts.insert(key, (counted(counts, key) + amount) as i32))
    } else {
        None
    }
}

/// `value + amount`, or `None` where the sum is not a value of `i32`.
pub open spec fn spec_add_scalar(value: i32, amount: int) -> Option<i32> {
    if fits_i32(value + amount) {
        Some((value + amount) as i32)
    } else {
        None
    }
}

/// The number of small stackers in a stack that is `height` small stackers
/// high: one where the height is odd, none where it is even.
pub open spec fn small_stackers(height: int) -> int {
    height % 2
}

/// The number of large stackers in a stack that is `height` small stackers
/// high: half of what is left without the one small stacker.
pub open spec fn large_stackers(height: int) -> int {
    height / 2
}

/// A stack holds at most one small stacker, and its stackers add up to its
/// height, a large stacker counting for two small ones. This holds of a
/// negative height too, for which the number of large stackers is negative.
pub proof fn lemma_stackers_decompose(height: int)
    ensures
        small_stackers(height) == 0 || small_stackers(height) == 1,
        small_stackers(height) + 2 * large_stackers(height) == height,
        height >= 0 ==> large_stackers(height) >= 0,
{
}

/// Raises the count for `key` by `amount`, starting from zero where there is
/// no count yet.
pub fn add_count(counts: &mut HashMap<u32, i32>, key: u32, amount: i32) -> (result: Result<
    (),
    AggregationError,
>)
    ensures
        match spec_add_count(old(counts)@, key, amount as int) {
            Some(raised) => result is Ok && final(counts)@ == raised,
            None => result == Err::<(), AggregationError>(AggregationError::Overflow),
        },
{
    let current: i32 = match counts.get(&key) {
        Some(count) => *count,
        None => 0,
    };
    let raised: i64 = current as i64 + amount as i64;
    if raised < i32::MIN as i64 || raised > i32::MAX as i64 {
        return Err(AggregationError::Overflow);
    }
    counts.insert(key, raised as i32);
    Ok(())
}

/// Raises `value` by `amount`.
pub fn add_scalar(value: i32, amount: i64) -> (result: Result<i32, AggregationError>)
    ensures
        match spec_add_scalar(value, amount as int) {
            Some(raised) => result == Ok::<i32, AggregationError>(raised),
            None => result == Err::<i32, AggregationError>(AggregationError::Overflow),
        },
{
    let raised: i128 = value as i128 + amount as i128;
    if raised < i32::MIN as i128 || raised > i32::MAX as i128 {
        Err(AggregationError::Overflow)
    } else {
        Ok(raised as i32)
    }
}

/// What has been registered and counted so far.
pub struct CountContext {
    /// The position on the board of every retainer registered so far.
    pub retainer_positions: HashMap<i32, HexVector>,
    /// The height of every retainer registered so far that has one.
    pub retainer_heights: HashMap<i32, RetainerHeight>,
    /// The number of layers, by the code of their kind.
    pub layers: HashMap<u32, i32>,
    /// The number of tiles, by the code of their kind.
    pub tiles: HashMap<u32, i32>,
    /// The number of walls, by their length.
    pub walls: HashMap<u32, i32>,
    /// The number of rails other than straight ones, by the code of their kind.
    pub rails: HashMap<u32, i32>,
    pub balconies: i32,
    pub rail_small: i32,
    pub rail_medium: i32,
    pub rail_large: i32,
}

/// The mathematical value of a [`CountContext`].
pub struct CountContextView {
    pub retainer_positions: Map<i32, HexVector>,
    pub retainer_heights: Map<i32, RetainerHeight>,
    pub layers: Map<u32, i32>,
    pub tiles: Map<u32, i32>,
    pub walls: Map<u32, i32>,
    pub rails: Map<u32, i32>,
    pub balconies: i32,
    pub rail_small: i32,
    pub rail_medium: i32,
    pub rail_large: i32,
}

impl View for CountContext {
    type V = CountContextView;

    open spec fn view(&self) -> CountContextView {
        CountContextView {
            retainer_positions: self.retainer_positions@,
            retainer_heights: self.retainer_heights@,
            layers: self.layers@,
            tiles: self.tiles@,
            walls: self.walls@,
            rails: self.rails@,
            balconies: self.balconies,
            rail_small: self.rail_small,
            rail_medium: self.rail_medium,
            rail_large: self.rail_large,
        }
    }
}

/// What counting a part gives: the context after it, or the reason why the
/// course cannot be counted.
pub type Counted = Result<CountContextView, AggregationError>;

impl CountContextView {
    /// The context before anything is registered or counted.
    pub open spec fn empty() -> CountContextView {
        CountContextView {
            retainer_positions: Map::empty(),
            retainer_heights: Map::empty(),
            layers: Map::empty(),
            tiles: Map::empty(),
            walls: Map::empty(),
            rails: Map::empty(),
            balconies: 0,
            rail_small: 0,
            rail_medium: 0,
            rail_large: 0,
        }
    }

    /// The position on the board of the cell at `local` on the retainer
    /// `retainer_id`: the sum of `local` and the position of the retainer.
    pub open spec fn local_to_world(self, local: HexVector, retainer_id: i32) -> Result<
        HexVector,
        AggregationError,
    > {
        if !self.retainer_positions.contains_key(retainer_id) {
            Err(
                AggregationError::GeometryInvariantViolation(
                    GeometryViolation::UnregisteredRetainer { retainer_id },
                ),
            )
        } else {
            let origin = self.retainer_positions[retainer_id];
            if fits_i32(local.x + origin.x) && fits_i32(local.y + origin.y) {
                Ok(HexVector { x: (local.x + origin.x) as i32, y: (local.y + origin.y) as i32 })
            } else {
                Err(AggregationError::Overflow)
            }
        }
    }

    /// The context after `amount` tiles of `kind` are counted.
    pub open spec fn add_tile(self, kind: TileKind, amount: int) -> Counted {
        match spec_add_count(self.tiles, kind.spec_code(), amount) {
            Some(tiles) => Ok(CountContextView { tiles, ..self }),
            None => Err(AggregationError::Overflow),
        }
    }

    /// The context after the stackers of a stack are counted that is
    /// `height` small stackers high. A small stacker is counted only where
    /// the stack holds one; large stackers are counted even where it holds
    /// none.
    pub open spec fn add_stackers(self, height: int) -> Counted {
        let with_small = if small_stackers(height) != 0 {
            self.add_tile(TileKind::StackerSmall, 1)
        } else {
            Ok(self)
        };
        match with_small {
            Ok(context) => context.add_tile(TileKind::Stacker, large_stackers(height)),
            Err(e) => Err(e),
        }
    }

    /// The context after one wall of `kind` is counted.
    pub open spec fn add_wall(self, kind: WallKind) -> Counted {
        match spec_add_count(self.walls, kind.spec_length() as u32, 1) {
            Some(walls) => Ok(CountContextView { walls, ..self }),
            None => Err(AggregationError::Overflow),
        }
    }

    /// The context after one rail of `kind` is counted.
    pub open spec fn add_rail(self, kind: RailKind) -> Counted {
        match spec_add_count(self.rails, kind.spec_code(), 1) {
            Some(rails) => Ok(CountContextView { rails, ..self }),
            None => Err(AggregationError::Overflow),
        }
    }

    /// The context after one layer of `kind` is counted.
    pub open spec fn add_layer_kind(self, kind: LayerKind) -> Counted {
        match spec_add_count(self.layers, kind.spec_code(), 1) {
            Some(layers) => Ok(CountContextView { layers, ..self }),
            None => Err(AggregationError::Overflow),
        }
    }

    /// The context after `retainer_id` is registered at `position`.
    pub open spec fn register_position(self, retainer_id: i32, position: HexVector) -> Self {
        CountContextView {
            retainer_positions: self.retainer_positions.insert(retainer_id, position),
            ..self
        }
    }

    /// The context after `retainer_id` is registered with `height`.
    pub open spec fn register_height(self, retainer_id: i32, height: RetainerHeight) -> Self {
        CountContextView {
            retainer_heights: self.retainer_heights.insert(retainer_id, height),
            ..self
        }
    }
}

impl CountContext {
    /// A context in which nothing is registered or counted.
    pub fn new() -> (context: CountContext)
        ensures
            context@ == CountContextView::empty(),
    {
        CountContext {
            retainer_positions: HashMap::new(),
            retainer_heights: HashMap::new(),
            layers: HashMap::new(),
            tiles: HashMap::new(),
            walls: HashMap::new(),
            rails: HashMap::new(),
            balconies: 0,
            rail_small: 0,
            rail_medium: 0,
            rail_large: 0,
        }
    }

    /// The position on the board of the cell at `local_hex_vector` on the
    /// retainer `layer_id`.
    pub fn local_to_world_hex_vector(&self, local_hex_vector: &HexVector, layer_id: i32) -> (result:
        Result<HexVector, AggregationError>)
        ensures
            result == self@.local_to_world(*local_hex_vector, layer_id),
    {
        match self.retainer_positions.get(&layer_id) {
            None => Err(
                AggregationError::GeometryInvariantViolation(
                    GeometryViolation::UnregisteredRetainer { retainer_id: layer_id },
                ),
            ),
            Some(origin) => match local_hex_vector.checked_add(origin) {
                Some(world) => Ok(world),
                None => Err(AggregationError::Overflow),
            },
        }
    }

    /// Counts `amount` tiles of kind `tile`.
    pub fn add_tile(&mut self, tile: TileKind, amount: i32) -> (result: Result<
        (),
        AggregationError,
    >)
        ensures
            match old(self)@.add_tile(tile, amount as int) {
                Ok(context) => result is Ok && final(self)@ == context,
                Err(e) => result == Err::<(), AggregationError>(e),
            },
    {
        add_count(&mut self.tiles, tile.code(), amount)
    }

    /// Counts the stackers of a stack that is `small_stacker` small stackers
    /// high: one small stacker where the height is odd, and a large stacker
    /// for every two small stackers of the rest.
    pub fn add_stackers(&mut self, small_stacker: i32) -> (result: Result<(), AggregationError>)
        ensures
            match old(self)@.add_stackers(small_stacker as int) {
                Ok(context) => result is Ok && final(self)@ == context,
                Err(e) => result == Err::<(), AggregationError>(e),
            },
    {
        let (small, large) = decompose_stackers(small_stacker);
        if small != 0 {
            match self.add_tile(TileKind::StackerSmall, 1) {
                Ok(()) => {},
                Err(e) => {
                    return Err(e);
                },
            }
        }
        self.add_tile(TileKind::Stacker, large)
    }

    /// Counts one wall.
    pub fn add_wall(&mut self, wall: WallKind) -> (result: Result<(), AggregationError>)
        ensures
            match old(self)@.add_wall(wall) {
                Ok(context) => result is Ok && final(self)@ == context,
                Err(e) => result == Err::<(), AggregationError>(e),
            },
    {
        add_count(&mut self.walls, wall.length(), 1)
    }

    /// Counts one rail.
    pub fn add_rail(&mut self, rail: RailKind) -> (result: Result<(), AggregationError>)
        ensures
            match old(self)@.add_rail(rail) {
                Ok(context) => result is Ok && final(self)@ == context,
                Err(e) => result == Err::<(), AggregationError>(e),
            },
    {
        add_count(&mut self.rails, rail.code(), 1)
    }
}

/// Splits the height of a stack into its small stacker, if it has one, and
/// its large stackers.
pub fn decompose_stackers(small_stacker: i32) -> (stackers: (i32, i32))
    ensures
        stackers.0 == small_stackers(small_stacker as int),
        stackers.1 == large_stackers(small_stacker as int),
{
    if small_stacker >= 0 {
        (small_stacker % 2, small_stacker / 2)
    } else {
        // For a negative height `%` and `/` are taken of its distance to -1.
        let below: i32 = -1 - small_stacker;
        (1 - below % 2, -1 - below / 2)
    }
}

/// The direction in which one goes from `from` to `to`, by the signs of the
/// two coordinate differences. Where the signs are those of no direction
/// (both positive, both negative, or no difference at all) the result is
/// north-west.
pub open spec fn spec_hex_direction(from: HexVector, to: HexVector) -> Direction {
    let x_diff = to.x - from.x;
    let y_diff = to.y - from.y;
    if x_diff > 0 && y_diff < 0 {
        Direction::NorthEast
    } else if x_diff == 0 && y_diff < 0 {
        Direction::East
    } else if x_diff < 0 && y_diff == 0 {
        Direction::SouthEast
    } else if x_diff < 0 && y_diff > 0 {
        Direction::SouthWest
    } else if x_diff == 0 && y_diff > 0 {
        Direction::West
    } else {
        Direction::NorthWest
    }
}

/// The direction in which one goes from `from` to `to`.
pub fn hex_direction(from: &HexVector, to: &HexVector) -> (direction: Direction)
    ensures
        direction == spec_hex_direction(*from, *to),
{
    if to.x > from.x && to.y < from.y {
        Direction::NorthEast
    } else if to.x == from.x && to.y < from.y {
        Direction::East
    } else if to.x < from.x && to.y == from.y {
        Direction::SouthEast
    } else if to.x < from.x && to.y > from.y {
        Direction::SouthWest
    } else if to.x == from.x && to.y > from.y {
        Direction::West
    } else {
        Direction::NorthWest
    }
}

/// The direction in which a side of a wall faces, for a wall that runs in
/// `direction`.
pub open spec fn spec_wall_side_direction(direction: Direction, wall_side: WallSide) -> Direction {
    match (direction, wall_side) {
        (Direction::NorthEast, WallSide::East) => Direction::East,
        (Direction::NorthEast, WallSide::West) => Direction::NorthWest,
        (Direction::East, WallSide::East) => Direction::SouthEast,
        (Direction::East, WallSide::West) => Direction::NorthEast,
        (Direction::SouthEast, WallSide::East) => Direction::SouthWest,
        (Direction::SouthEast, WallSide::West) => Direction::East,
        (Direction::SouthWest, WallSide::East) => Direction::West,
        (Direction::SouthWest, WallSide::West) => Direction::SouthEast,
        (Direction::West, WallSide::East) => Direction::NorthWest,
        (Direction::West, WallSide::West) => Direction::SouthWest,
        (Direction::NorthWest, WallSide::East) => Direction::NorthEast,
        (Direction::NorthWest, WallSide::West) => Direction::West,
    }
}

/// The direction in which a side of a wall faces. The sides of a wall are
/// named as seen in the direction in which the wall runs, from its first
/// tower to its second.
pub fn wall_side_direction(direction: &Direction, wall_side: &WallSide) -> (facing: Direction)
    ensures
        facing == spec_wall_side_direction(*direction, *wall_side),
{
    match (direction, wall_side) {
        (Direction::NorthEast, WallSide::East) => Direction::East,
        (Direction::NorthEast, WallSide::West) => Direction::NorthWest,
        (Direction::East, WallSide::East) => Direction::SouthEast,
        (Direction::East, WallSide::West) => Direction::NorthEast,
        (Direction::SouthEast, WallSide::East) => Direction::SouthWest,
        (Direction::SouthEast, WallSide::West) => Direction::East,
        (Direction::SouthWest, WallSide::East) => Direction::West,
        (Direction::SouthWest, WallSide::West) => Direction::SouthEast,
        (Direction::West, WallSide::East) => Direction::NorthWest,
        (Direction::West, WallSide::West) => Direction::SouthWest,
        (Direction::NorthWest, WallSide::East) => Direction::NorthEast,
        (Direction::NorthWest, WallSide::West) => Direction::West,
    }
}

/// The two sides of a wall face in different directions, neither of them
/// opposite to the other: the east side faces in the direction that follows
/// that of the wall clockwise, the west side in the one that precedes it.
pub proof fn lemma_wall_sides(direction: Direction)
    ensures
        spec_wall_side_direction(direction, WallSide::East) == direction.clockwise(),
        spec_wall_side_direction(direction, WallSide::West) == direction.counter_clockwise(),
        spec_wall_side_direction(direction, WallSide::East) != spec_wall_side_direction(
            direction,
            WallSide::West,
        ),
        spec_wall_side_direction(direction, WallSide::East) != spec_wall_side_direction(
            direction,
            WallSide::West,
        ).opposite(),
{
}

/// For each side, walls that run in different directions have that side
/// face in different directions.
pub proof fn lemma_wall_side_injective(first: Direction, second: Direction, wall_side: WallSide)
    requires
        spec_wall_side_direction(first, wall_side) == spec_wall_side_direction(second, wall_side),
    ensures
        first == second,
{
}

/// The parts that are needed to build a course, as the application names
/// them: a switch that points left and one that points right are counted
/// apart, though they are the same part.
#[derive(Debug)]
pub struct BillOfMaterials {
    /// The number of layers, by the code of their kind.
    pub layers: HashMap<u32, i32>,
    /// The number of tiles, by the code of their kind.
    pub tiles: HashMap<u32, i32>,
    /// The number of rails other than straight ones, by the code of their kind.
    pub rails: HashMap<u32, i32>,
    /// The number of walls, by their length.
    pub walls: HashMap<u32, i32>,
    pub balconies: i32,
    pub rails_small: i32,
    pub rails_medium: i32,
    pub rails_large: i32,
}

/// The mathematical value of a [`BillOfMaterials`].
pub struct BillOfMaterialsView {
    pub layers: Map<u32, i32>,
    pub tiles: Map<u32, i32>,
    pub rails: Map<u32, i32>,
    pub walls: Map<u32, i32>,
    pub balconies: i32,
    pub rails_small: i32,
    pub rails_medium: i32,
    pub rails_large: i32,
}

impl View for BillOfMaterials {
    type V = BillOfMaterialsView;

    open spec fn view(&self) -> BillOfMaterialsView {
        BillOfMaterialsView {
            layers: self.layers@,
            tiles: self.tiles@,
            rails: self.rails@,
            walls: self.walls@,
            balconies: self.balconies,
            rails_small: self.rails_small,
            rails_medium: self.rails_medium,
            rails_large: self.rails_large,
        }
    }
}

impl BillOfMaterialsView {
    /// The number of layers of `kind`, where any were counted.
    pub open spec fn layer_kind(self, kind: LayerKind) -> Option<i32> {
        lookup(self.layers, kind.spec_code())
    }

    /// The number of tiles of `kind`, where any were counted.
    pub open spec fn tile_kind(self, kind: TileKind) -> Option<i32> {
        lookup(self.tiles, kind.spec_code())
    }

    /// The number of walls of `kind`, where any were counted.
    pub open spec fn wall_kind(self, kind: WallKind) -> Option<i32> {
        lookup(self.walls, kind.spec_length() as u32)
    }

    /// The number of rails of `kind`, where any were counted. Straight rails
    /// are counted by their length, not here.
    pub open spec fn rail_kind(self, kind: RailKind) -> Option<i32> {
        lookup(self.rails, kind.spec_code())
    }

    /// The number of tiles of `kind`, and zero where none were counted.
    pub open spec fn tiles_of(self, kind: TileKind) -> int {
        counted(self.tiles, kind.spec_code())
    }

    /// An estimate of the number of marbles that the course needs: two for
    /// a cannon and for a bridge, four for a catapult, five for a small and
    /// eight for a large lift, and one for each start of a zipline, each
    /// colour swap that comes loaded, each starter, spinner, splash, volcano
    /// and dome starter. A course may need fewer or more.
    pub open spec fn marbles(self) -> int {
        self.tiles_of(TileKind::Cannon) * 2 + self.tiles_of(TileKind::ZiplineStart)
            + self.tiles_of(TileKind::ColorSwapPreloaded) + self.tiles_of(TileKind::Bridge) * 2
            + self.tiles_of(TileKind::Catapult) * 4 + self.tiles_of(TileKind::LiftSmall) * 5
            + self.tiles_of(TileKind::LiftLarge) * 8 + self.tiles_of(TileKind::Starter)
            + self.tiles_of(TileKind::Spinner) + self.tiles_of(TileKind::Splash) + self.tiles_of(
            TileKind::Volcano,
        ) + self.tiles_of(TileKind::DomeStarter)
    }
}

impl CountContextView {
    /// The bill of materials that holds what has been counted.
    pub open spec fn bill(self) -> BillOfMaterialsView {
        BillOfMaterialsView {
            layers: self.layers,
            tiles: self.tiles,
            rails: self.rails,
            walls: self.walls,
            balconies: self.balconies,
            rails_small: self.rail_small,
            rails_medium: self.rail_medium,
            rails_large: self.rail_large,
        }
    }
}

/// The count that `counts` holds for `key`, if it holds one.
pub fn count_of(counts: &HashMap<u32, i32>, key: u32) -> (count: Option<i32>)
    ensures
        count == lookup(counts@, key),
{
    match counts.get(&key) {
        Some(count) => Some(*count),
        None => None,
    }
}

impl BillOfMaterials {
    /// The number of layers of `kind`, or `None` where none were counted.
    pub fn layer_kind(&self, kind: LayerKind) -> (count: Option<i32>)
        ensures
            count == self@.layer_kind(kind),
    {
        count_of(&self.layers, kind.code())
    }

    /// The number of tiles of `kind`, or `None` where none were counted.
    pub fn tile_kind(&self, kind: TileKind) -> (count: Option<i32>)
        ensures
            count == self@.tile_kind(kind),
    {
        count_of(&self.tiles, kind.code())
    }

    /// The number of walls of `kind`, or `None` where none were counted.
    pub fn wall_kind(&self, kind: WallKind) -> (count: Option<i32>)
        ensures
            count == self@.wall_kind(kind),
    {
        count_of(&self.walls, kind.length())
    }

    /// The number of rails of `kind`, or `None` where none were counted.
    pub fn rail_kind(&self, kind: RailKind) -> (count: Option<i32>)
        ensures
            count == self@.rail_kind(kind),
    {
        count_of(&self.rails, kind.code())
    }

    /// The number of tiles of `kind`, and zero where none were counted.
    fn tiles_of(&self, kind: TileKind) -> (count: i64)
        ensures
            count == self@.tiles_of(kind),
            i32::MIN <= count <= i32::MAX,
    {
        match self.tile_kind(kind) {
            Some(count) => count as i64,
            None => 0,
        }
    }

    /// An estimate of the number of marbles that the course needs, or `None`
    /// where the estimate is not a value of `i32`. It is a rough guess: some
    /// tiles can do with fewer marbles than are counted for them, and others
    /// that need marbles are not counted at all.
    pub fn marbles(&self) -> (estimate: Option<i32>)
        ensures
            estimate == (if fits_i32(self@.marbles()) {
                Some(self@.marbles() as i32)
            } else {
                None
            }),
    {
        let zipline = self.tiles_of(TileKind::ZiplineStart);
        let cannon = self.tiles_of(TileKind::Cannon);
        let bridge = self.tiles_of(TileKind::Bridge);
        let color_change = self.tiles_of(TileKind::ColorSwapPreloaded);
        let catapult = self.tiles_of(TileKind::Catapult);
        let lift_small = self.tiles_of(TileKind::LiftSmall);
        let lift_large = self.tiles_of(TileKind::LiftLarge);
        let splash = self.tiles_of(TileKind::Splash);
        let volcano = self.tiles_of(TileKind::Volcano);
        let spinner = self.tiles_of(TileKind::Spinner);
        let dome_starter = self.tiles_of(TileKind::DomeStarter);
        let starter = self.tiles_of(TileKind::Starter);
        let weighted: i64 = cannon * 2 + bridge * 2 + catapult * 4 + lift_small * 5 + lift_large
            * 8;
        let single: i64 = zipline + color_change + starter + spinner + splash + volcano
            + dome_starter;
        narrow(weighted + single)
    }
}

/// `value` as a value of `i32`, where it is one.
fn narrow(value: i64) -> (narrowed: Option<i32>)
    ensures
        narrowed == (if fits_i32(value as int) {
            Some(value as i32)
        } else {
            None
        }),
{
    if value < i32::MIN as i64 || value > i32::MAX as i64 {
        None
    } else {
        Some(value as i32)
    }
}

/// The context after the parts of a course are counted: first its layers,
/// which registers the retainers, then its pillars, then its walls, where it
/// has any, then its rails.
pub open spec fn spec_count_course(course: CourseView) -> Counted {
    match course {
        CourseView::ZiplineAdded2019(course) => {
            match CountContextView::empty().process_zipline_layers(
                course.layer_construction_data,
                course.layer_construction_data.len(),
            ) {
                Err(e) => Err(e),
                Ok(with_layers) => match with_layers.process_pillars(
                    course.pillar_construction_data,
                    course.pillar_construction_data.len(),
                ) {
                    Err(e) => Err(e),
                    Ok(with_pillars) => with_pillars.process_rails(
                        course.rail_construction_data,
                        course.rail_construction_data.len(),
                    ),
                },
            }
        },
        CourseView::Power2022(course)
        | CourseView::Pro2020(course)
        | CourseView::LightStones2023(course) => spec_count_tower_course(course),
    }
}

/// The context after the parts of a course are counted whose cells hold
/// towers of tiles.
pub open spec fn spec_count_tower_course(course: power2022::CourseView) -> Counted {
    match CountContextView::empty().process_layers(
        course.layer_construction_data,
        course.layer_construction_data.len(),
    ) {
        Err(e) => Err(e),
        Ok(with_layers) => match with_layers.process_pillars(
            course.pillar_construction_data,
            course.pillar_construction_data.len(),
        ) {
            Err(e) => Err(e),
            Ok(with_pillars) => match with_pillars.process_walls(
                course.wall_construction_data,
                course.wall_construction_data.len(),
            ) {
                Err(e) => Err(e),
                Ok(with_walls) => with_walls.process_rails(
                    course.rail_construction_data,
                    course.rail_construction_data.len(),
                ),
            },
        },
    }
}

/// Where the parts of a course can be counted, its bill of materials holds
/// for every kind of tile other than the two stackers the number of tiles of
/// that kind in the towers of the course: in those that stand in the cells
/// of its layers and in those that stand on the balconies of its walls.
/// Where the tiles are placed and how high they stand makes no difference.
pub proof fn lemma_bill_counts_tiles(course: power2022::CourseView, kind: TileKind)
    requires
        spec_count_tower_course(course) is Ok,
        kind != TileKind::Stacker,
        kind != TileKind::StackerSmall,
    ensures
        counted(spec_count_tower_course(course).unwrap().tiles, kind.spec_code())
            == crate::processors::layers_add(
            course.layer_construction_data,
            course.layer_construction_data.len(),
            kind,
        ) + crate::processors::walls_add(
            course.wall_construction_data,
            course.wall_construction_data.len(),
            kind,
        ),
{
    let start = CountContextView::empty();
    let with_layers = start.process_layers(
        course.layer_construction_data,
        course.layer_construction_data.len(),
    ).unwrap();
    crate::processors::lemma_process_layers_counts(
        start,
        course.layer_construction_data,
        course.layer_construction_data.len(),
        kind,
        LayerKind::BaseLayer,
    );
    let with_pillars = with_layers.process_pillars(
        course.pillar_construction_data,
        course.pillar_construction_data.len(),
    ).unwrap();
    crate::processors::lemma_process_pillars_counts(
        with_layers,
        course.pillar_construction_data,
        course.pillar_construction_data.len(),
        kind,
    );
    let with_walls = with_pillars.process_walls(
        course.wall_construction_data,
        course.wall_construction_data.len(),
    ).unwrap();
    crate::processors::lemma_process_walls_counts(
        with_pillars,
        course.wall_construction_data,
        course.wall_construction_data.len(),
        kind,
    );
    crate::processors::lemma_process_rails_counts(
        with_walls,
        course.rail_construction_data,
        course.rail_construction_data.len(),
    );
}

/// Where the parts of a course can be counted, its bill of materials holds
/// for every kind of layer the number of layers of that kind, and the number
/// of the balconies of all walls.
pub proof fn lemma_bill_counts_layers_and_balconies(
    course: power2022::CourseView,
    layer_kind: LayerKind,
)
    requires
        spec_count_tower_course(course) is Ok,
    ensures
        counted(spec_count_tower_course(course).unwrap().layers, layer_kind.spec_code())
            == crate::processors::layers_of_kind(
            course.layer_construction_data,
            course.layer_construction_data.len(),
            layer_kind,
        ),
        spec_count_tower_course(course).unwrap().balconies == crate::processors::balconies_of(
            course.wall_construction_data,
            course.wall_construction_data.len(),
        ),
{
    let start = CountContextView::empty();
    let with_layers = start.process_layers(
        course.layer_construction_data,
        course.layer_construction_data.len(),
    ).unwrap();
    crate::processors::lemma_process_layers_counts(
        start,
        course.layer_construction_data,
        course.layer_construction_data.len(),
        TileKind::Curve,
        layer_kind,
    );
    let with_pillars = with_layers.process_pillars(
        course.pillar_construction_data,
        course.pillar_construction_data.len(),
    ).unwrap();
    crate::processors::lemma_process_pillars_counts(
        with_layers,
        course.pillar_construction_data,
        course.pillar_construction_data.len(),
        TileKind::Curve,
    );
    let with_walls = with_pillars.process_walls(
        course.wall_construction_data,
        course.wall_construction_data.len(),
    ).unwrap();
    crate::processors::lemma_process_walls_counts(
        with_pillars,
        course.wall_construction_data,
        course.wall_construction_data.len(),
        TileKind::Curve,
    );
    crate::processors::lemma_process_rails_counts(
        with_walls,
        course.rail_construction_data,
        course.rail_construction_data.len(),
    );
}

/// The bill of materials of a course, or the reason why its parts cannot be
/// counted.
pub open spec fn spec_bill_of_materials(course: CourseView) -> Result<
    BillOfMaterialsView,
    AggregationError,
> {
    match spec_count_course(course) {
        Ok(context) => Ok(context.bill()),
        Err(e) => Err(e),
    }
}

impl CountContext {
    /// The bill of materials that holds what has been counted.
    pub fn into_bill(self) -> (bill: BillOfMaterials)
        ensures
            bill@ == self@.bill(),
    {
        BillOfMaterials {
            layers: self.layers,
            tiles: self.tiles,
            rails: self.rails,
            walls: self.walls,
            balconies: self.balconies,
            rails_small: self.rail_small,
            rails_medium: self.rail_medium,
            rails_large: self.rail_large,
        }
    }
}

/// Counts the parts of a course whose cells hold towers of tiles.
fn count_tower_course(course: &power2022::Course, context: &mut CountContext) -> (result: Result<
    (),
    AggregationError,
>)
    requires
        old(context)@ == CountContextView::empty(),
    ensures
        match spec_count_tower_course(course@) {
            Ok(counted) => result is Ok && final(context)@ == counted,
            Err(e) => result == Err::<(), AggregationError>(e),
        },
{
    match process_layer_construction_data(course.layer_construction_data.as_slice(), context) {
        Ok(()) => {},
        Err(e) => {
            return Err(e);
        },
    }
    match process_pillar_construction_data(course.pillar_construction_data.as_slice(), context) {
        Ok(()) => {},
        Err(e) => {
            return Err(e);
        },
    }
    match process_wall_construction_data(course.wall_construction_data.as_slice(), context) {
        Ok(()) => {},
        Err(e) => {
            return Err(e);
        },
    }
    process_rail_construction_data(course.rail_construction_data.as_slice(), context)
}

/// Counts the parts of a course whose cells list the kinds of their tiles.
fn count_zipline_course(course: &ziplineadded2019::Course, context: &mut CountContext) -> (result:
    Result<(), AggregationError>)
    requires
        old(context)@ == CountContextView::empty(),
    ensures
        match spec_count_course(CourseView::ZiplineAdded2019(course@)) {
            Ok(counted) => result is Ok && final(context)@ == counted,
            Err(e) => result == Err::<(), AggregationError>(e),
        },
{
    match process_layer_construction_data_zipline(
        course.layer_construction_data.as_slice(),
        context,
    ) {
        Ok(()) => {},
        Err(e) => {
            return Err(e);
        },
    }
    match process_pillar_construction_data(course.pillar_construction_data.as_slice(), context) {
        Ok(()) => {},
        Err(e) => {
            return Err(e);
        },
    }
    process_rail_construction_data(course.rail_construction_data.as_slice(), context)
}

/// Counts the parts that are needed to build `course`.
///
/// Fails where an element refers to a retainer that no element before it has
/// registered, where no wall or straight rail has the length that its ends
/// ask for, and where a count, a height or a position on the board is not a
/// value of `i32`.
pub fn compute_bill_of_materials(course: &Course) -> (result: Result<
    BillOfMaterials,
    AggregationError,
>)
    ensures
        match spec_bill_of_materials(course@) {
            Ok(bill) => result matches Ok(counted) && counted@ == bill,
            Err(e) => result matches Err(reason) && reason == e,
        },
{
    let mut context = CountContext::new();
    let counted = match course {
        Course::ZiplineAdded2019(course) => count_zipline_course(course, &mut context),
        Course::Power2022(course) => count_tower_course(course, &mut context),
        Course::Pro2020(course) => count_tower_course(course, &mut context),
        Course::LightStones2023(course) => count_tower_course(course, &mut context),
    };
    match counted {
        Ok(()) => Ok(context.into_bill()),
        Err(e) => Err(e),
    }
}

impl BillOfMaterials {
    /// Counts the parts that are needed to build `course`.
    pub fn from_course(course: &Course) -> (result: Result<BillOfMaterials, AggregationError>)
        ensures
            match spec_bill_of_materials(course@) {
                Ok(bill) => result matches Ok(counted) && counted@ == bill,
                Err(e) => result matches Err(reason) && reason == e,
            },
    {
        compute_bill_of_materials(course)
    }
}

} // verus!
