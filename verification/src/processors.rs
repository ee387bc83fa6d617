//! One routine for each kind of element of a course: layers, pillars, walls
//! with their balconies, and rails. Each places its elements with what the
//! routines before it have registered, and counts them.
//!
//! Of a sequence of elements the routines say what holds after the first `n`
//! of them: the elements are taken in the order in which they are stored,
//! and the first that cannot be counted ends the count.
use crate::binary32::Binary32;
use crate::bom::{
    add_scalar, hex_direction, spec_add_scalar, spec_hex_direction, spec_wall_side_direction,
    wall_side_direction, AggregationError, CountContext, CountContextView, Counted,
    GeometryViolation, RetainerHeight,
};
use crate::hex::{fits_i32, Direction, HexVector};
use crate::layer::{
    cell_views, layer_views, CellConstructionDataView, LayerConstructionData,
    LayerConstructionDataView, LayerKind, TileKind,
};
use crate::pillar::PillarConstructionData;
use crate::rail::{RailConstructionData, RailKind};
use crate::walker::process_tree_node_data;
use crate::wall::{
    wall_views, WallBalconyConstructionData, WallBalconyConstructionDataView,
    WallConstructionData, WallConstructionDataView, WallKind,
};
use crate::ziplineadded2019;
use vstd::prelude::*;

verus! {

broadcast use vstd::std_specs::hash::group_hash_axioms;

/// The height of a layer as a retainer: its lower side is at its stored
/// height in small stackers, its upper side one small stacker above. `None`
/// where the upper side is not a value of `i32`.
pub open spec fn layer_retainer_height(layer_height: Binary32) -> Option<RetainerHeight> {
    let lower = layer_height.spec_small_stackers();
    if fits_i32(lower + 1) {
        Some(RetainerHeight { lower: lower as i32, upper: (lower + 1) as i32 })
    } else {
        None
    }
}

/// The three lengths of a straight rail.
#[derive(Clone, Copy, Debug, PartialEq, Eq, Structural)]
pub enum StraightRail {
    Small,
    Medium,
    Large,
}

impl StraightRail {
    /// The straight rail that spans `length` cells: a small one spans one
    /// cell, a medium one two, a large one three, and no rail any other
    /// number.
    pub open spec fn spec_of_length(length: int) -> Option<StraightRail> {
        if length == 1 {
            Some(StraightRail::Small)
        } else if length == 2 {
            Some(StraightRail::Medium)
        } else if length == 3 {
            Some(StraightRail::Large)
        } else {
            None
        }
    }

    /// The straight rail that spans `length` cells, or `None` where no rail
    /// does.
    pub fn of_length(length: i64) -> (rail: Option<StraightRail>)
        ensures
            rail == StraightRail::spec_of_length(length as int),
    {
        match length {
            1 => Some(StraightRail::Small),
            2 => Some(StraightRail::Medium),
            3 => Some(StraightRail::Large),
            _ => None,
        }
    }
}

impl CountContextView {
    /// The context after a layer is counted and registered at `position`
    /// with the height that `layer_height` stands for.
    pub open spec fn add_layer(
        self,
        layer_id: i32,
        layer_kind: LayerKind,
        layer_height: Binary32,
        position: HexVector,
    ) -> Counted {
        match self.add_layer_kind(layer_kind) {
            Err(e) => Err(e),
            Ok(counted) => match layer_retainer_height(layer_height) {
                None => Err(AggregationError::Overflow),
                Some(height) => Ok(
                    counted.register_position(layer_id, position).register_height(
                        layer_id,
                        height,
                    ),
                ),
            },
        }
    }

    /// The context after the tower of a cell is walked through. The cell is
    /// placed relative to the retainer `retainer_id`, and its tower stands
    /// at `height`.
    pub open spec fn process_cell(
        self,
        cell: CellConstructionDataView,
        retainer_id: i32,
        height: i32,
    ) -> Counted {
        match self.local_to_world(cell.local_hex_position, retainer_id) {
            Err(e) => Err(e),
            Ok(position) => self.walk(cell.tree_node_data, position, height),
        }
    }

    /// The context after the towers of the first `n` of `cells` are walked
    /// through.
    pub open spec fn process_cells(
        self,
        cells: Seq<CellConstructionDataView>,
        n: nat,
        retainer_id: i32,
        height: i32,
    ) -> Counted
        decreases n,
    {
        if n == 0 || n > cells.len() {
            Ok(self)
        } else {
            match self.process_cells(cells, (n - 1) as nat, retainer_id, height) {
                Err(e) => Err(e),
                Ok(context) => context.process_cell(cells[n - 1], retainer_id, height),
            }
        }
    }

    /// The context after a layer is processed: the layer is counted and
    /// registered, then the towers in its cells are walked through, each
    /// from the upper side of the layer.
    pub open spec fn process_layer(self, layer: LayerConstructionDataView) -> Counted {
        match self.add_layer(
            layer.layer_id,
            layer.layer_kind,
            layer.layer_height,
            layer.world_hex_position,
        ) {
            Err(e) => Err(e),
            Ok(added) => added.process_cells(
                layer.cell_construction_datas,
                layer.cell_construction_datas.len(),
                layer.layer_id,
                layer_retainer_height(layer.layer_height).unwrap().upper,
            ),
        }
    }

    /// The context after the first `n` of `layers` are processed.
    pub open spec fn process_layers(self, layers: Seq<LayerConstructionDataView>, n: nat) -> Counted
        decreases n,
    {
        if n == 0 || n > layers.len() {
            Ok(self)
        } else {
            match self.process_layers(layers, (n - 1) as nat) {
                Err(e) => Err(e),
                Ok(context) => context.process_layer(layers[n - 1]),
            }
        }
    }

    /// The context after the stackers of a pillar are counted: what lies
    /// between the upper side of its lower layer and the lower side of its
    /// upper layer.
    pub open spec fn process_pillar(self, pillar: PillarConstructionData) -> Counted {
        if !self.retainer_heights.contains_key(pillar.lower_layer_id) {
            Err(
                AggregationError::GeometryInvariantViolation(
                    GeometryViolation::UnregisteredRetainer { retainer_id: pillar.lower_layer_id },
                ),
            )
        } else if !self.retainer_heights.contains_key(pillar.upper_layer_id) {
            Err(
                AggregationError::GeometryInvariantViolation(
                    GeometryViolation::UnregisteredRetainer { retainer_id: pillar.upper_layer_id },
                ),
            )
        } else {
            let needed = self.retainer_heights[pillar.upper_layer_id].lower
                - self.retainer_heights[pillar.lower_layer_id].upper;
            if fits_i32(needed) {
                self.add_stackers(needed)
            } else {
                Err(AggregationError::Overflow)
            }
        }
    }

    /// The context after the first `n` of `pillars` are processed.
    pub open spec fn process_pillars(self, pillars: Seq<PillarConstructionData>, n: nat) -> Counted
        decreases n,
    {
        if n == 0 || n > pillars.len() {
            Ok(self)
        } else {
            match self.process_pillars(pillars, (n - 1) as nat) {
                Err(e) => Err(e),
                Ok(context) => context.process_pillar(pillars[n - 1]),
            }
        }
    }

    /// The position on the board of a balcony on a wall that runs in
    /// `direction`: from the place of the first tower on its retainer as
    /// many cells along the wall as the column of the balcony says, one cell
    /// to the side on which the balcony hangs, and from there to the board
    /// by the position of that retainer.
    pub open spec fn balcony_position(
        self,
        wall: WallConstructionDataView,
        direction: Direction,
        balcony: WallBalconyConstructionDataView,
    ) -> Result<HexVector, AggregationError> {
        let retainer_id = wall.lower_stacker_tower_1_retainer_id;
        if !self.retainer_positions.contains_key(retainer_id) {
            Err(
                AggregationError::GeometryInvariantViolation(
                    GeometryViolation::UnregisteredRetainer { retainer_id },
                ),
            )
        } else {
            let origin = self.retainer_positions[retainer_id];
            let start = wall.lower_stacker_tower_1_local_hex_pos;
            let side = spec_wall_side_direction(direction, balcony.wall_side);
            let x = start.stepped_x(direction, balcony.wall_coordinate.column as int) + side.dx()
                + origin.x;
            let y = start.stepped_y(direction, balcony.wall_coordinate.column as int) + side.dy()
                + origin.y;
            if fits_i32(x) && fits_i32(y) {
                Ok(HexVector { x: x as i32, y: y as i32 })
            } else {
                Err(AggregationError::Overflow)
            }
        }
    }

    /// The context after a balcony is registered at its position and the
    /// tower on it, if there is one, is walked through from height zero.
    pub open spec fn process_balcony(
        self,
        wall: WallConstructionDataView,
        direction: Direction,
        balcony: WallBalconyConstructionDataView,
    ) -> Counted {
        match self.balcony_position(wall, direction, balcony) {
            Err(e) => Err(e),
            Ok(position) => {
                let registered = self.register_position(balcony.retainer_id, position);
                match balcony.cell_construction_datas {
                    None => Ok(registered),
                    Some(cell) => registered.walk(cell.tree_node_data, position, 0),
                }
            },
        }
    }

    /// The context after the first `n` balconies of `wall` are processed.
    pub open spec fn process_balconies(
        self,
        wall: WallConstructionDataView,
        direction: Direction,
        n: nat,
    ) -> Counted
        decreases n,
    {
        if n == 0 || n > wall.balcony_construction_datas.len() {
            Ok(self)
        } else {
            match self.process_balconies(wall, direction, (n - 1) as nat) {
                Err(e) => Err(e),
                Ok(context) => context.process_balcony(
                    wall,
                    direction,
                    wall.balcony_construction_datas[n - 1],
                ),
            }
        }
    }

    /// The context after a wall is processed: its balconies are counted, its
    /// two towers are placed, the wall that spans the cells between them is
    /// counted, and its balconies are processed.
    pub open spec fn process_wall(self, wall: WallConstructionDataView) -> Counted {
        match spec_add_scalar(self.balconies, wall.balcony_construction_datas.len() as int) {
            None => Err(AggregationError::Overflow),
            Some(balconies) => {
                let counted = CountContextView { balconies, ..self };
                match counted.local_to_world(
                    wall.lower_stacker_tower_1_local_hex_pos,
                    wall.lower_stacker_tower_1_retainer_id,
                ) {
                    Err(e) => Err(e),
                    Ok(tower_1) => match counted.local_to_world(
                        wall.lower_stacker_tower_2_local_hex_pos,
                        wall.lower_stacker_tower_2_retainer_id,
                    ) {
                        Err(e) => Err(e),
                        Ok(tower_2) => match WallKind::spec_straight_of_length(
                            tower_1.distance_to(tower_2) - 1,
                        ) {
                            None => Err(
                                AggregationError::GeometryInvariantViolation(
                                    GeometryViolation::WallLength,
                                ),
                            ),
                            Some(kind) => match counted.add_wall(kind) {
                                Err(e) => Err(e),
                                Ok(with_wall) => with_wall.process_balconies(
                                    wall,
                                    spec_hex_direction(tower_1, tower_2),
                                    wall.balcony_construction_datas.len(),
                                ),
                            },
                        },
                    },
                }
            },
        }
    }

    /// The context after the first `n` of `walls` are processed.
    pub open spec fn process_walls(self, walls: Seq<WallConstructionDataView>, n: nat) -> Counted
        decreases n,
    {
        if n == 0 || n > walls.len() {
            Ok(self)
        } else {
            match self.process_walls(walls, (n - 1) as nat) {
                Err(e) => Err(e),
                Ok(context) => context.process_wall(walls[n - 1]),
            }
        }
    }

    /// The context after one straight rail of the given length is counted.
    pub open spec fn add_straight_rail(self, rail: StraightRail) -> Counted {
        match rail {
            StraightRail::Small => match spec_add_scalar(self.rail_small, 1) {
                None => Err(AggregationError::Overflow),
                Some(rail_small) => Ok(CountContextView { rail_small, ..self }),
            },
            StraightRail::Medium => match spec_add_scalar(self.rail_medium, 1) {
                None => Err(AggregationError::Overflow),
                Some(rail_medium) => Ok(CountContextView { rail_medium, ..self }),
            },
            StraightRail::Large => match spec_add_scalar(self.rail_large, 1) {
                None => Err(AggregationError::Overflow),
                Some(rail_large) => Ok(CountContextView { rail_large, ..self }),
            },
        }
    }

    /// The context after a rail is counted. A straight rail is counted by
    /// the number of cells between its two ends, any other rail by its kind.
    pub open spec fn process_rail(self, rail: RailConstructionData) -> Counted {
        if rail.rail_kind == RailKind::Straight {
            match self.local_to_world(
                rail.exit_1_identifier.cell_local_hex_pos,
                rail.exit_1_identifier.retainer_id,
            ) {
                Err(e) => Err(e),
                Ok(exit_1) => match self.local_to_world(
                    rail.exit_2_identifier.cell_local_hex_pos,
                    rail.exit_2_identifier.retainer_id,
                ) {
                    Err(e) => Err(e),
                    Ok(exit_2) => match StraightRail::spec_of_length(
                        exit_1.distance_to(exit_2) - 1,
                    ) {
                        None => Err(
                            AggregationError::GeometryInvariantViolation(
                                GeometryViolation::RailLength,
                            ),
                        ),
                        Some(straight) => self.add_straight_rail(straight),
                    },
                },
            }
        } else {
            self.add_rail(rail.rail_kind)
        }
    }

    /// The context after the first `n` of `rails` are processed.
    pub open spec fn process_rails(self, rails: Seq<RailConstructionData>, n: nat) -> Counted
        decreases n,
    {
        if n == 0 || n > rails.len() {
            Ok(self)
        } else {
            match self.process_rails(rails, (n - 1) as nat) {
                Err(e) => Err(e),
                Ok(context) => context.process_rail(rails[n - 1]),
            }
        }
    }
}

impl CountContextView {
    /// The context after the first `n` of `kinds` are counted as one tile
    /// each.
    pub open spec fn count_tile_kinds(self, kinds: Seq<TileKind>, n: nat) -> Counted
        decreases n,
    {
        if n == 0 || n > kinds.len() {
            Ok(self)
        } else {
            match self.count_tile_kinds(kinds, (n - 1) as nat) {
                Err(e) => Err(e),
                Ok(context) => context.add_tile(kinds[n - 1], 1),
            }
        }
    }

    /// The context after the tiles of the first `n` of `cells` are counted,
    /// for cells that list the kinds of their tiles.
    pub open spec fn process_zipline_cells(
        self,
        cells: Seq<ziplineadded2019::CellConstructionDataView>,
        n: nat,
    ) -> Counted
        decreases n,
    {
        if n == 0 || n > cells.len() {
            Ok(self)
        } else {
            match self.process_zipline_cells(cells, (n - 1) as nat) {
                Err(e) => Err(e),
                Ok(context) => context.count_tile_kinds(
                    cells[n - 1].tile_kinds,
                    cells[n - 1].tile_kinds.len(),
                ),
            }
        }
    }

    /// The context after a layer is processed whose cells list the kinds of
    /// their tiles: the layer is counted and registered, then its tiles are
    /// counted.
    pub open spec fn process_zipline_layer(
        self,
        layer: ziplineadded2019::LayerConstructionDataView,
    ) -> Counted {
        match self.add_layer(layer.layer_id, layer.layer_kind, layer.layer_height,
            layer.hex_vector) {
            Err(e) => Err(e),
            Ok(added) => added.process_zipline_cells(
                layer.cell_construction_data,
                layer.cell_construction_data.len(),
            ),
        }
    }

    /// The context after the first `n` of `layers` are processed.
    pub open spec fn process_zipline_layers(
        self,
        layers: Seq<ziplineadded2019::LayerConstructionDataView>,
        n: nat,
    ) -> Counted
        decreases n,
    {
        if n == 0 || n > layers.len() {
            Ok(self)
        } else {
            match self.process_zipline_layers(layers, (n - 1) as nat) {
                Err(e) => Err(e),
                Ok(context) => context.process_zipline_layer(layers[n - 1]),
            }
        }
    }
}

/// What the towers in the first `n` of `cells` add to the number of tiles of
/// `kind`.
pub open spec fn cells_add(cells: Seq<CellConstructionDataView>, n: nat, kind: TileKind) -> int
    decreases n,
{
    if n == 0 || n > cells.len() {
        0
    } else {
        cells_add(cells, (n - 1) as nat, kind) + cells[n - 1].tree_node_data.adds(kind)
    }
}

/// What the towers in the cells of the first `n` of `layers` add to the
/// number of tiles of `kind`.
pub open spec fn layers_add(layers: Seq<LayerConstructionDataView>, n: nat, kind: TileKind) -> int
    decreases n,
{
    if n == 0 || n > layers.len() {
        0
    } else {
        layers_add(layers, (n - 1) as nat, kind) + cells_add(
            layers[n - 1].cell_construction_datas,
            layers[n - 1].cell_construction_datas.len(),
            kind,
        )
    }
}

/// What the tower on a balcony adds to the number of tiles of `kind`, where
/// there is one.
pub open spec fn balcony_adds(balcony: WallBalconyConstructionDataView, kind: TileKind) -> int {
    match balcony.cell_construction_datas {
        Some(cell) => cell.tree_node_data.adds(kind),
        None => 0,
    }
}

/// What the towers on the first `n` balconies of `wall` add to the number of
/// tiles of `kind`.
pub open spec fn balconies_add(wall: WallConstructionDataView, n: nat, kind: TileKind) -> int
    decreases n,
{
    if n == 0 || n > wall.balcony_construction_datas.len() {
        0
    } else {
        balconies_add(wall, (n - 1) as nat, kind) + balcony_adds(
            wall.balcony_construction_datas[n - 1],
            kind,
        )
    }
}

/// What the towers on the balconies of the first `n` of `walls` add to the
/// number of tiles of `kind`.
pub open spec fn walls_add(walls: Seq<WallConstructionDataView>, n: nat, kind: TileKind) -> int
    decreases n,
{
    if n == 0 || n > walls.len() {
        0
    } else {
        walls_add(walls, (n - 1) as nat, kind) + balconies_add(
            walls[n - 1],
            walls[n - 1].balcony_construction_datas.len(),
            kind,
        )
    }
}

/// The number of layers of `kind` among the first `n` of `layers`.
pub open spec fn layers_of_kind(
    layers: Seq<LayerConstructionDataView>,
    n: nat,
    kind: LayerKind,
) -> int
    decreases n,
{
    if n == 0 || n > layers.len() {
        0
    } else {
        layers_of_kind(layers, (n - 1) as nat, kind) + (if layers[n - 1].layer_kind == kind {
            1int
        } else {
            0int
        })
    }
}

/// The number of balconies of the first `n` of `walls`.
pub open spec fn balconies_of(walls: Seq<WallConstructionDataView>, n: nat) -> int
    decreases n,
{
    if n == 0 || n > walls.len() {
        0
    } else {
        balconies_of(walls, (n - 1) as nat) + walls[n - 1].balcony_construction_datas.len()
    }
}

/// What a context holds for `kind`.
pub open spec fn tiles_of(context: CountContextView, kind: TileKind) -> int {
    crate::bom::counted(context.tiles, kind.spec_code())
}

/// Where the cells of a layer can be processed, the count of every kind of
/// tile is raised by the number of tiles of that kind in their towers.
pub proof fn lemma_process_cells_counts(
    context: CountContextView,
    cells: Seq<CellConstructionDataView>,
    n: nat,
    retainer_id: i32,
    height: i32,
    kind: TileKind,
)
    requires
        n <= cells.len(),
        context.process_cells(cells, n, retainer_id, height) is Ok,
    ensures
        tiles_of(context.process_cells(cells, n, retainer_id, height).unwrap(), kind) == tiles_of(
            context,
            kind,
        ) + cells_add(cells, n, kind),
        crate::walker::only_tiles_counted(
            context,
            context.process_cells(cells, n, retainer_id, height).unwrap(),
        ),
    decreases n,
{
    if n > 0 {
        lemma_process_cells_counts(context, cells, (n - 1) as nat, retainer_id, height, kind);
        let before = context.process_cells(cells, (n - 1) as nat, retainer_id, height).unwrap();
        let position = before.local_to_world(cells[n - 1].local_hex_position, retainer_id).unwrap();
        crate::walker::lemma_walk_counts(
            before,
            cells[n - 1].tree_node_data,
            position,
            height,
            kind,
        );
    }
}

/// Where layers can be processed, the count of every kind of tile is raised
/// by the number of tiles of that kind in the towers of their cells, and the
/// count of every kind of layer by the number of layers of that kind.
/// Nothing else is counted.
pub proof fn lemma_process_layers_counts(
    context: CountContextView,
    layers: Seq<LayerConstructionDataView>,
    n: nat,
    kind: TileKind,
    layer_kind: LayerKind,
)
    requires
        n <= layers.len(),
        context.process_layers(layers, n) is Ok,
    ensures
        tiles_of(context.process_layers(layers, n).unwrap(), kind) == tiles_of(context, kind)
            + layers_add(layers, n, kind),
        crate::bom::counted(
            context.process_layers(layers, n).unwrap().layers,
            layer_kind.spec_code(),
        ) == crate::bom::counted(context.layers, layer_kind.spec_code()) + layers_of_kind(
            layers,
            n,
            layer_kind,
        ),
        context.process_layers(layers, n).unwrap().balconies == context.balconies,
        context.process_layers(layers, n).unwrap().walls == context.walls,
        context.process_layers(layers, n).unwrap().rails == context.rails,
    decreases n,
{
    if n > 0 {
        lemma_process_layers_counts(context, layers, (n - 1) as nat, kind, layer_kind);
        LayerKind::lemma_code_injective(layer_kind, layers[n - 1].layer_kind);
        let before = context.process_layers(layers, (n - 1) as nat).unwrap();
        let layer = layers[n - 1];
        let added = before.add_layer(
            layer.layer_id,
            layer.layer_kind,
            layer.layer_height,
            layer.world_hex_position,
        ).unwrap();
        lemma_process_cells_counts(
            added,
            layer.cell_construction_datas,
            layer.cell_construction_datas.len(),
            layer.layer_id,
            layer_retainer_height(layer.layer_height).unwrap().upper,
            kind,
        );
    }
}

/// Pillars count stackers only.
pub proof fn lemma_process_pillars_counts(
    context: CountContextView,
    pillars: Seq<PillarConstructionData>,
    n: nat,
    kind: TileKind,
)
    requires
        n <= pillars.len(),
        context.process_pillars(pillars, n) is Ok,
        kind != TileKind::Stacker,
        kind != TileKind::StackerSmall,
    ensures
        tiles_of(context.process_pillars(pillars, n).unwrap(), kind) == tiles_of(context, kind),
        crate::walker::only_tiles_counted(context, context.process_pillars(pillars, n).unwrap()),
    decreases n,
{
    if n > 0 {
        lemma_process_pillars_counts(context, pillars, (n - 1) as nat, kind);
        let before = context.process_pillars(pillars, (n - 1) as nat).unwrap();
        let pillar = pillars[n - 1];
        let needed = before.retainer_heights[pillar.upper_layer_id].lower
            - before.retainer_heights[pillar.lower_layer_id].upper;
        let with_small = if crate::bom::small_stackers(needed) != 0 {
            before.add_tile(TileKind::StackerSmall, 1).unwrap()
        } else {
            before
        };
        if crate::bom::small_stackers(needed) != 0 {
            crate::walker::lemma_add_tile_counts(before, TileKind::StackerSmall, 1, kind);
        }
        crate::walker::lemma_add_tile_counts(
            with_small,
            TileKind::Stacker,
            crate::bom::large_stackers(needed),
            kind,
        );
    }
}

/// Where the balconies of a wall can be processed, the count of every kind
/// of tile is raised by the number of tiles of that kind in the towers on
/// them.
pub proof fn lemma_process_balconies_counts(
    context: CountContextView,
    wall: WallConstructionDataView,
    direction: Direction,
    n: nat,
    kind: TileKind,
)
    requires
        n <= wall.balcony_construction_datas.len(),
        context.process_balconies(wall, direction, n) is Ok,
    ensures
        tiles_of(context.process_balconies(wall, direction, n).unwrap(), kind) == tiles_of(
            context,
            kind,
        ) + balconies_add(wall, n, kind),
        crate::walker::only_tiles_counted(
            context,
            context.process_balconies(wall, direction, n).unwrap(),
        ),
    decreases n,
{
    if n > 0 {
        lemma_process_balconies_counts(context, wall, direction, (n - 1) as nat, kind);
        let before = context.process_balconies(wall, direction, (n - 1) as nat).unwrap();
        let balcony = wall.balcony_construction_datas[n - 1];
        let position = before.balcony_position(wall, direction, balcony).unwrap();
        let registered = before.register_position(balcony.retainer_id, position);
        match balcony.cell_construction_datas {
            Some(cell) => {
                crate::walker::lemma_walk_counts(
                    registered,
                    cell.tree_node_data,
                    position,
                    0,
                    kind,
                );
            },
            None => {},
        }
    }
}

/// Where walls can be processed, the count of every kind of tile is raised
/// by the number of tiles of that kind in the towers on their balconies, and
/// the number of balconies by the number of their balconies. No layer and no
/// rail is counted.
pub proof fn lemma_process_walls_counts(
    context: CountContextView,
    walls: Seq<WallConstructionDataView>,
    n: nat,
    kind: TileKind,
)
    requires
        n <= walls.len(),
        context.process_walls(walls, n) is Ok,
    ensures
        tiles_of(context.process_walls(walls, n).unwrap(), kind) == tiles_of(context, kind)
            + walls_add(walls, n, kind),
        context.process_walls(walls, n).unwrap().balconies == context.balconies + balconies_of(
            walls,
            n,
        ),
        context.process_walls(walls, n).unwrap().layers == context.layers,
        context.process_walls(walls, n).unwrap().rails == context.rails,
    decreases n,
{
    if n > 0 {
        lemma_process_walls_counts(context, walls, (n - 1) as nat, kind);
        let before = context.process_walls(walls, (n - 1) as nat).unwrap();
        let wall = walls[n - 1];
        let balconies = spec_add_scalar(
            before.balconies,
            wall.balcony_construction_datas.len() as int,
        ).unwrap();
        let counted = CountContextView { balconies, ..before };
        let tower_1 = counted.local_to_world(
            wall.lower_stacker_tower_1_local_hex_pos,
            wall.lower_stacker_tower_1_retainer_id,
        ).unwrap();
        let tower_2 = counted.local_to_world(
            wall.lower_stacker_tower_2_local_hex_pos,
            wall.lower_stacker_tower_2_retainer_id,
        ).unwrap();
        let wall_kind = WallKind::spec_straight_of_length(
            tower_1.distance_to(tower_2) - 1,
        ).unwrap();
        let with_wall = counted.add_wall(wall_kind).unwrap();
        lemma_process_balconies_counts(
            with_wall,
            wall,
            spec_hex_direction(tower_1, tower_2),
            wall.balcony_construction_datas.len(),
            kind,
        );
    }
}

/// Rails count nothing but rails.
pub proof fn lemma_process_rails_counts(
    context: CountContextView,
    rails: Seq<RailConstructionData>,
    n: nat,
)
    requires
        n <= rails.len(),
        context.process_rails(rails, n) is Ok,
    ensures
        context.process_rails(rails, n).unwrap().tiles == context.tiles,
        context.process_rails(rails, n).unwrap().layers == context.layers,
        context.process_rails(rails, n).unwrap().walls == context.walls,
        context.process_rails(rails, n).unwrap().balconies == context.balconies,
    decreases n,
{
    if n > 0 {
        lemma_process_rails_counts(context, rails, (n - 1) as nat);
    }
}

/// A straight rail whose two ends are placed is counted by the number of
/// cells between them: as a small rail where it spans one cell, as a medium
/// one where it spans two, as a large one where it spans three. Where its
/// ends are on the same cell or on neighbouring cells, or four or more cells
/// lie between them, the course breaks the rules of the board.
pub proof fn lemma_straight_rail_classification(
    context: CountContextView,
    rail: RailConstructionData,
    exit_1: HexVector,
    exit_2: HexVector,
)
    requires
        rail.rail_kind == RailKind::Straight,
        context.local_to_world(
            rail.exit_1_identifier.cell_local_hex_pos,
            rail.exit_1_identifier.retainer_id,
        ) == Ok::<HexVector, AggregationError>(exit_1),
        context.local_to_world(
            rail.exit_2_identifier.cell_local_hex_pos,
            rail.exit_2_identifier.retainer_id,
        ) == Ok::<HexVector, AggregationError>(exit_2),
    ensures
        exit_1.distance_to(exit_2) - 1 == 1 ==> context.process_rail(rail)
            == context.add_straight_rail(StraightRail::Small),
        exit_1.distance_to(exit_2) - 1 == 2 ==> context.process_rail(rail)
            == context.add_straight_rail(StraightRail::Medium),
        exit_1.distance_to(exit_2) - 1 == 3 ==> context.process_rail(rail)
            == context.add_straight_rail(StraightRail::Large),
        exit_1.distance_to(exit_2) - 1 < 1 || exit_1.distance_to(exit_2) - 1 > 3
            ==> context.process_rail(rail) == Err::<CountContextView, AggregationError>(
            AggregationError::GeometryInvariantViolation(GeometryViolation::RailLength),
        ),
        context.rail_small < i32::MAX ==> context.add_straight_rail(StraightRail::Small) == Ok::<
            CountContextView,
            AggregationError,
        >(CountContextView { rail_small: (context.rail_small + 1) as i32, ..context }),
        context.rail_medium < i32::MAX ==> context.add_straight_rail(StraightRail::Medium) == Ok::<
            CountContextView,
            AggregationError,
        >(CountContextView { rail_medium: (context.rail_medium + 1) as i32, ..context }),
        context.rail_large < i32::MAX ==> context.add_straight_rail(StraightRail::Large) == Ok::<
            CountContextView,
            AggregationError,
        >(CountContextView { rail_large: (context.rail_large + 1) as i32, ..context }),
{
}

/// A wall is counted by the number of cells between its two towers, and a
/// wall whose towers are not two, three or four cells apart breaks the rules
/// of the board.
pub proof fn lemma_wall_classification(
    context: CountContextView,
    wall: WallConstructionDataView,
    tower_1: HexVector,
    tower_2: HexVector,
)
    requires
        context.balconies + wall.balcony_construction_datas.len() <= i32::MAX,
        context.local_to_world(
            wall.lower_stacker_tower_1_local_hex_pos,
            wall.lower_stacker_tower_1_retainer_id,
        ) == Ok::<HexVector, AggregationError>(tower_1),
        context.local_to_world(
            wall.lower_stacker_tower_2_local_hex_pos,
            wall.lower_stacker_tower_2_retainer_id,
        ) == Ok::<HexVector, AggregationError>(tower_2),
    ensures
        tower_1.distance_to(tower_2) - 1 < 1 || tower_1.distance_to(tower_2) - 1 > 3
            ==> context.process_wall(wall) == Err::<CountContextView, AggregationError>(
            AggregationError::GeometryInvariantViolation(GeometryViolation::WallLength),
        ),
        context.process_wall(wall) matches Ok(processed) ==> 1 <= tower_1.distance_to(tower_2) - 1
            <= 3,
{
}

/// Once a tile cannot be counted, neither can the tiles after it.
pub proof fn lemma_count_tile_kinds_fails(
    context: CountContextView,
    kinds: Seq<TileKind>,
    n: nat,
    m: nat,
)
    requires
        n <= m <= kinds.len(),
        context.count_tile_kinds(kinds, n) is Err,
    ensures
        context.count_tile_kinds(kinds, m) == context.count_tile_kinds(kinds, n),
    decreases m,
{
    if n < m {
        lemma_count_tile_kinds_fails(context, kinds, n, (m - 1) as nat);
    }
}

/// Once the tiles of a cell cannot be counted, neither can those of the
/// cells after it.
pub proof fn lemma_process_zipline_cells_fails(
    context: CountContextView,
    cells: Seq<ziplineadded2019::CellConstructionDataView>,
    n: nat,
    m: nat,
)
    requires
        n <= m <= cells.len(),
        context.process_zipline_cells(cells, n) is Err,
    ensures
        context.process_zipline_cells(cells, m) == context.process_zipline_cells(cells, n),
    decreases m,
{
    if n < m {
        lemma_process_zipline_cells_fails(context, cells, n, (m - 1) as nat);
    }
}

/// Once a layer cannot be processed, neither can the layers after it.
pub proof fn lemma_process_zipline_layers_fails(
    context: CountContextView,
    layers: Seq<ziplineadded2019::LayerConstructionDataView>,
    n: nat,
    m: nat,
)
    requires
        n <= m <= layers.len(),
        context.process_zipline_layers(layers, n) is Err,
    ensures
        context.process_zipline_layers(layers, m) == context.process_zipline_layers(layers, n),
    decreases m,
{
    if n < m {
        lemma_process_zipline_layers_fails(context, layers, n, (m - 1) as nat);
    }
}

/// Once a cell cannot be processed, neither can the cells after it.
pub proof fn lemma_process_cells_fails(
    context: CountContextView,
    cells: Seq<CellConstructionDataView>,
    n: nat,
    m: nat,
    retainer_id: i32,
    height: i32,
)
    requires
        n <= m <= cells.len(),
        context.process_cells(cells, n, retainer_id, height) is Err,
    ensures
        context.process_cells(cells, m, retainer_id, height) == context.process_cells(
            cells,
            n,
            retainer_id,
            height,
        ),
    decreases m,
{
    if n < m {
        lemma_process_cells_fails(context, cells, n, (m - 1) as nat, retainer_id, height);
    }
}

/// Once a layer cannot be processed, neither can the layers after it.
pub proof fn lemma_process_layers_fails(
    context: CountContextView,
    layers: Seq<LayerConstructionDataView>,
    n: nat,
    m: nat,
)
    requires
        n <= m <= layers.len(),
        context.process_layers(layers, n) is Err,
    ensures
        context.process_layers(layers, m) == context.process_layers(layers, n),
    decreases m,
{
    if n < m {
        lemma_process_layers_fails(context, layers, n, (m - 1) as nat);
    }
}

/// Once a pillar cannot be processed, neither can the pillars after it.
pub proof fn lemma_process_pillars_fails(
    context: CountContextView,
    pillars: Seq<PillarConstructionData>,
    n: nat,
    m: nat,
)
    requires
        n <= m <= pillars.len(),
        context.process_pillars(pillars, n) is Err,
    ensures
        context.process_pillars(pillars, m) == context.process_pillars(pillars, n),
    decreases m,
{
    if n < m {
        lemma_process_pillars_fails(context, pillars, n, (m - 1) as nat);
    }
}

/// Once a balcony cannot be processed, neither can the balconies after it.
pub proof fn lemma_process_balconies_fails(
    context: CountContextView,
    wall: WallConstructionDataView,
    direction: Direction,
    n: nat,
    m: nat,
)
    requires
        n <= m <= wall.balcony_construction_datas.len(),
        context.process_balconies(wall, direction, n) is Err,
    ensures
        context.process_balconies(wall, direction, m) == context.process_balconies(
            wall,
            direction,
            n,
        ),
    decreases m,
{
    if n < m {
        lemma_process_balconies_fails(context, wall, direction, n, (m - 1) as nat);
    }
}

/// Once a wall cannot be processed, neither can the walls after it.
pub proof fn lemma_process_walls_fails(
    context: CountContextView,
    walls: Seq<WallConstructionDataView>,
    n: nat,
    m: nat,
)
    requires
        n <= m <= walls.len(),
        context.process_walls(walls, n) is Err,
    ensures
        context.process_walls(walls, m) == context.process_walls(walls, n),
    decreases m,
{
    if n < m {
        lemma_process_walls_fails(context, walls, n, (m - 1) as nat);
    }
}

/// Once a rail cannot be processed, neither can the rails after it.
pub proof fn lemma_process_rails_fails(
    context: CountContextView,
    rails: Seq<RailConstructionData>,
    n: nat,
    m: nat,
)
    requires
        n <= m <= rails.len(),
        context.process_rails(rails, n) is Err,
    ensures
        context.process_rails(rails, m) == context.process_rails(rails, n),
    decreases m,
{
    if n < m {
        lemma_process_rails_fails(context, rails, n, (m - 1) as nat);
    }
}

impl CountContext {
    /// Counts a layer and registers it with its position and height.
    /// Returns the height of the layer as a retainer.
    pub fn add_layer(&mut self, layer: &LayerConstructionData) -> (result: Result<
        RetainerHeight,
        AggregationError,
    >)
        ensures
            match old(self)@.add_layer(
                layer.layer_id,
                layer.layer_kind,
                layer.layer_height,
                layer.world_hex_position,
            ) {
                Ok(added) => result == Ok::<RetainerHeight, AggregationError>(
                    layer_retainer_height(layer.layer_height).unwrap(),
                ) && final(self)@ == added,
                Err(e) => result == Err::<RetainerHeight, AggregationError>(e),
            },
    {
        self.register_layer(
            layer.layer_id,
            layer.layer_kind,
            layer.layer_height,
            layer.world_hex_position,
        )
    }

    /// Counts a layer of `layer_kind` and registers it under `layer_id` at
    /// `position`, with the height that `layer_height` stands for.
    pub fn register_layer(
        &mut self,
        layer_id: i32,
        layer_kind: LayerKind,
        layer_height: Binary32,
        position: HexVector,
    ) -> (result: Result<RetainerHeight, AggregationError>)
        ensures
            match old(self)@.add_layer(layer_id, layer_kind, layer_height, position) {
                Ok(added) => result == Ok::<RetainerHeight, AggregationError>(
                    layer_retainer_height(layer_height).unwrap(),
                ) && final(self)@ == added,
                Err(e) => result == Err::<RetainerHeight, AggregationError>(e),
            },
    {
        match crate::bom::add_count(&mut self.layers, layer_kind.code(), 1) {
            Ok(()) => {},
            Err(e) => {
                return Err(e);
            },
        }
        let lower: i32 = layer_height.small_stackers();
        if lower == i32::MAX {
            return Err(AggregationError::Overflow);
        }
        let retainer_height = RetainerHeight::new(lower, lower + 1);
        self.retainer_positions.insert(layer_id, position);
        self.retainer_heights.insert(layer_id, retainer_height);
        Ok(retainer_height)
    }
}

/// Processes layers: each is counted and registered, and the towers in its
/// cells are walked through.
pub fn process_layer_construction_data(
    layers: &[LayerConstructionData],
    context: &mut CountContext,
) -> (result: Result<(), AggregationError>)
    ensures
        match old(context)@.process_layers(layer_views(layers@), layers@.len()) {
            Ok(processed) => result is Ok && final(context)@ == processed,
            Err(e) => result == Err::<(), AggregationError>(e),
        },
{
    let ghost start = context@;
    let ghost views = layer_views(layers@);
    let mut i: usize = 0;
    while i < layers.len()
        invariant
            i <= layers.len(),
            start == old(context)@,
            views == layer_views(layers@),
            start.process_layers(views, i as nat) == Ok::<CountContextView, AggregationError>(
                context@,
            ),
        decreases layers.len() - i,
    {
        let layer = &layers[i];
        let ghost before = context@;
        let height = match context.add_layer(layer) {
            Ok(height) => height,
            Err(e) => {
                proof {
                    lemma_process_layers_fails(start, views, (i + 1) as nat, views.len());
                }
                return Err(e);
            },
        };
        let ghost added = context@;
        let ghost cells = layer@.cell_construction_datas;
        let mut j: usize = 0;
        while j < layer.cell_construction_datas.len()
            invariant
                i < layers.len(),
                start == old(context)@,
                layer == &layers[i as int],
                views == layer_views(layers@),
                views[i as int] == layer@,
                cells == layer@.cell_construction_datas,
                cells == cell_views(layer.cell_construction_datas@),
                j <= layer.cell_construction_datas.len(),
                start.process_layers(views, i as nat) == Ok::<CountContextView, AggregationError>(
                    before,
                ),
                before.add_layer(
                    layer.layer_id,
                    layer.layer_kind,
                    layer.layer_height,
                    layer.world_hex_position,
                ) == Ok::<CountContextView, AggregationError>(added),
                layer_retainer_height(layer.layer_height) == Some(height),
                added.process_cells(cells, j as nat, layer.layer_id, height.upper) == Ok::<
                    CountContextView,
                    AggregationError,
                >(context@),
            decreases layer.cell_construction_datas.len() - j,
        {
            let cell = &layer.cell_construction_datas[j];
            let stepped = match context.local_to_world_hex_vector(
                &cell.local_hex_position,
                layer.layer_id,
            ) {
                Ok(world_cell_position) => process_tree_node_data(
                    &cell.tree_node_data,
                    &world_cell_position,
                    height.upper,
                    context,
                ),
                Err(e) => Err(e),
            };
            match stepped {
                Ok(()) => {},
                Err(e) => {
                    proof {
                        lemma_process_cells_fails(
                            added,
                            cells,
                            (j + 1) as nat,
                            cells.len(),
                            layer.layer_id,
                            height.upper,
                        );
                        lemma_process_layers_fails(start, views, (i + 1) as nat, views.len());
                    }
                    return Err(e);
                },
            }
            j += 1;
        }
        i += 1;
    }
    Ok(())
}

impl CountContext {
    /// Counts a layer whose cells list the kinds of their tiles, and
    /// registers it with its position and height.
    pub fn add_zipline_layer(&mut self, layer: &ziplineadded2019::LayerConstructionData) -> (result:
        Result<(), AggregationError>)
        ensures
            match old(self)@.add_layer(
                layer.layer_id,
                layer.layer_kind,
                layer.layer_height,
                layer.hex_vector,
            ) {
                Ok(added) => result is Ok && final(self)@ == added,
                Err(e) => result == Err::<(), AggregationError>(e),
            },
    {
        match self.register_layer(
            layer.layer_id,
            layer.layer_kind,
            layer.layer_height,
            layer.hex_vector,
        ) {
            Ok(_) => Ok(()),
            Err(e) => Err(e),
        }
    }

    /// Counts one tile of each of `kinds`.
    pub fn count_tile_kinds(&mut self, kinds: &[TileKind]) -> (result: Result<
        (),
        AggregationError,
    >)
        ensures
            match old(self)@.count_tile_kinds(kinds@, kinds@.len()) {
                Ok(context) => result is Ok && final(self)@ == context,
                Err(e) => result == Err::<(), AggregationError>(e),
            },
    {
        let ghost start = self@;
        let mut i: usize = 0;
        while i < kinds.len()
            invariant
                i <= kinds.len(),
                start == old(self)@,
                start.count_tile_kinds(kinds@, i as nat) == Ok::<
                    CountContextView,
                    AggregationError,
                >(self@),
            decreases kinds.len() - i,
        {
            match self.add_tile(kinds[i], 1) {
                Ok(()) => {},
                Err(e) => {
                    proof {
                        lemma_count_tile_kinds_fails(start, kinds@, (i + 1) as nat, kinds@.len());
                    }
                    return Err(e);
                },
            }
            i += 1;
        }
        Ok(())
    }

    /// Counts the tiles of `cells`, which list the kinds of their tiles.
    pub fn process_zipline_cells(
        &mut self,
        cells: &[ziplineadded2019::CellConstructionData],
    ) -> (result:
        Result<(), AggregationError>)
        ensures
            match old(self)@.process_zipline_cells(
                ziplineadded2019::cell_views(cells@),
                cells@.len(),
            ) {
                Ok(context) => result is Ok && final(self)@ == context,
                Err(e) => result == Err::<(), AggregationError>(e),
            },
    {
        let ghost start = self@;
        let ghost views = ziplineadded2019::cell_views(cells@);
        let mut i: usize = 0;
        while i < cells.len()
            invariant
                i <= cells.len(),
                start == old(self)@,
                views == ziplineadded2019::cell_views(cells@),
                start.process_zipline_cells(views, i as nat) == Ok::<
                    CountContextView,
                    AggregationError,
                >(self@),
            decreases cells.len() - i,
        {
            match self.count_tile_kinds(cells[i].tile_kinds.as_slice()) {
                Ok(()) => {},
                Err(e) => {
                    proof {
                        lemma_process_zipline_cells_fails(
                            start,
                            views,
                            (i + 1) as nat,
                            views.len(),
                        );
                    }
                    return Err(e);
                },
            }
            i += 1;
        }
        Ok(())
    }
}

/// Processes layers whose cells list the kinds of their tiles: each layer is
/// counted and registered, and its tiles are counted.
pub fn process_layer_construction_data_zipline(
    layers: &[ziplineadded2019::LayerConstructionData],
    context: &mut CountContext,
) -> (result: Result<(), AggregationError>)
    ensures
        match old(context)@.process_zipline_layers(
            ziplineadded2019::layer_views(layers@),
            layers@.len(),
        ) {
            Ok(processed) => result is Ok && final(context)@ == processed,
            Err(e) => result == Err::<(), AggregationError>(e),
        },
{
    let ghost start = context@;
    let ghost views = ziplineadded2019::layer_views(layers@);
    let mut i: usize = 0;
    while i < layers.len()
        invariant
            i <= layers.len(),
            start == old(context)@,
            views == ziplineadded2019::layer_views(layers@),
            start.process_zipline_layers(views, i as nat) == Ok::<
                CountContextView,
                AggregationError,
            >(context@),
        decreases layers.len() - i,
    {
        let layer = &layers[i];
        let stepped = match context.add_zipline_layer(layer) {
            Ok(()) => context.process_zipline_cells(layer.cell_construction_data.as_slice()),
            Err(e) => Err(e),
        };
        match stepped {
            Ok(()) => {},
            Err(e) => {
                proof {
                    lemma_process_zipline_layers_fails(start, views, (i + 1) as nat, views.len());
                }
                return Err(e);
            },
        }
        i += 1;
    }
    Ok(())
}

/// Processes pillars: the stackers of each are counted.
pub fn process_pillar_construction_data(
    pillars: &[PillarConstructionData],
    context: &mut CountContext,
) -> (result: Result<(), AggregationError>)
    ensures
        match old(context)@.process_pillars(pillars@, pillars@.len()) {
            Ok(processed) => result is Ok && final(context)@ == processed,
            Err(e) => result == Err::<(), AggregationError>(e),
        },
{
    let ghost start = context@;
    let mut i: usize = 0;
    while i < pillars.len()
        invariant
            i <= pillars.len(),
            start == old(context)@,
            start.process_pillars(pillars@, i as nat) == Ok::<CountContextView, AggregationError>(
                context@,
            ),
        decreases pillars.len() - i,
    {
        let pillar = &pillars[i];
        let stepped = match context.retainer_heights.get(&pillar.lower_layer_id) {
            None => Err(
                AggregationError::GeometryInvariantViolation(
                    GeometryViolation::UnregisteredRetainer { retainer_id: pillar.lower_layer_id },
                ),
            ),
            Some(lower_layer_height) => match context.retainer_heights.get(&pillar.upper_layer_id) {
                None => Err(
                    AggregationError::GeometryInvariantViolation(
                        GeometryViolation::UnregisteredRetainer {
                            retainer_id: pillar.upper_layer_id,
                        },
                    ),
                ),
                Some(upper_layer_height) => {
                    let small_stacker: i64 = upper_layer_height.lower as i64
                        - lower_layer_height.upper as i64;
                    if small_stacker < i32::MIN as i64 || small_stacker > i32::MAX as i64 {
                        Err(AggregationError::Overflow)
                    } else {
                        context.add_stackers(small_stacker as i32)
                    }
                },
            },
        };
        match stepped {
            Ok(()) => {},
            Err(e) => {
                proof {
                    lemma_process_pillars_fails(start, pillars@, (i + 1) as nat, pillars@.len());
                }
                return Err(e);
            },
        }
        i += 1;
    }
    Ok(())
}

impl CountContext {
    /// Counts one straight rail of the given length.
    pub fn add_straight_rail(&mut self, rail: StraightRail) -> (result: Result<
        (),
        AggregationError,
    >)
        ensures
            match old(self)@.add_straight_rail(rail) {
                Ok(context) => result is Ok && final(self)@ == context,
                Err(e) => result == Err::<(), AggregationError>(e),
            },
    {
        match rail {
            StraightRail::Small => match add_scalar(self.rail_small, 1) {
                Ok(raised) => {
                    self.rail_small = raised;
                    Ok(())
                },
                Err(e) => Err(e),
            },
            StraightRail::Medium => match add_scalar(self.rail_medium, 1) {
                Ok(raised) => {
                    self.rail_medium = raised;
                    Ok(())
                },
                Err(e) => Err(e),
            },
            StraightRail::Large => match add_scalar(self.rail_large, 1) {
                Ok(raised) => {
                    self.rail_large = raised;
                    Ok(())
                },
                Err(e) => Err(e),
            },
        }
    }

    /// Counts one rail: a straight rail by the number of cells between its
    /// two ends, any other rail by its kind.
    pub fn process_rail(&mut self, rail: &RailConstructionData) -> (result: Result<
        (),
        AggregationError,
    >)
        ensures
            match old(self)@.process_rail(*rail) {
                Ok(context) => result is Ok && final(self)@ == context,
                Err(e) => result == Err::<(), AggregationError>(e),
            },
    {
        match rail.rail_kind {
            RailKind::Straight => {
                let exit_1_world_pos = match self.local_to_world_hex_vector(
                    &rail.exit_1_identifier.cell_local_hex_pos,
                    rail.exit_1_identifier.retainer_id,
                ) {
                    Ok(position) => position,
                    Err(e) => {
                        return Err(e);
                    },
                };
                let exit_2_world_pos = match self.local_to_world_hex_vector(
                    &rail.exit_2_identifier.cell_local_hex_pos,
                    rail.exit_2_identifier.retainer_id,
                ) {
                    Ok(position) => position,
                    Err(e) => {
                        return Err(e);
                    },
                };
                let distance: i64 = exit_1_world_pos.wide_distance(&exit_2_world_pos) - 1;
                match StraightRail::of_length(distance) {
                    Some(straight) => self.add_straight_rail(straight),
                    None => Err(
                        AggregationError::GeometryInvariantViolation(GeometryViolation::RailLength),
                    ),
                }
            },
            _ => self.add_rail(rail.rail_kind),
        }
    }
}

impl CountContext {
    /// The position on the board of a balcony on a wall that runs in
    /// `direction`.
    pub fn balcony_world_position(
        &self,
        wall: &WallConstructionData,
        direction: &Direction,
        balcony: &WallBalconyConstructionData,
    ) -> (result: Result<HexVector, AggregationError>)
        ensures
            result == self@.balcony_position(wall@, *direction, balcony@),
    {
        let retainer_id = wall.lower_stacker_tower_1_retainer_id;
        match self.retainer_positions.get(&retainer_id) {
            None => Err(
                AggregationError::GeometryInvariantViolation(
                    GeometryViolation::UnregisteredRetainer { retainer_id },
                ),
            ),
            Some(origin) => {
                let start = &wall.lower_stacker_tower_1_local_hex_pos;
                let along = direction.offsets();
                let side = wall_side_direction(direction, &balcony.wall_side).offsets();
                let column: i64 = balcony.wall_coordinate.column as i64;
                assert(-0x8000_0000 <= along.0 * column <= 0x8000_0000
                    && -0x8000_0000 <= along.1 * column <= 0x8000_0000) by (nonlinear_arith)
                    requires
                        -1 <= along.0 <= 1,
                        -1 <= along.1 <= 1,
                        -0x8000_0000 <= column < 0x8000_0000,
                ;
                let x: i64 = start.x as i64 + along.0 * column + side.0 + origin.x as i64;
                let y: i64 = start.y as i64 + along.1 * column + side.1 + origin.y as i64;
                if x < i32::MIN as i64 || x > i32::MAX as i64 || y < i32::MIN as i64 || y
                    > i32::MAX as i64 {
                    Err(AggregationError::Overflow)
                } else {
                    Ok(HexVector { y: y as i32, x: x as i32 })
                }
            },
        }
    }

    /// Registers a balcony at its position and walks through the tower on
    /// it, if there is one.
    pub fn process_balcony(
        &mut self,
        wall: &WallConstructionData,
        direction: &Direction,
        balcony: &WallBalconyConstructionData,
    ) -> (result: Result<(), AggregationError>)
        ensures
            match old(self)@.process_balcony(wall@, *direction, balcony@) {
                Ok(context) => result is Ok && final(self)@ == context,
                Err(e) => result == Err::<(), AggregationError>(e),
            },
    {
        let balcony_hex_vector = match self.balcony_world_position(wall, direction, balcony) {
            Ok(position) => position,
            Err(e) => {
                return Err(e);
            },
        };
        self.retainer_positions.insert(balcony.retainer_id, balcony_hex_vector);
        match &balcony.cell_construction_datas {
            None => Ok(()),
            Some(cell_construction_data) => process_tree_node_data(
                &cell_construction_data.tree_node_data,
                &balcony_hex_vector,
                0,
                self,
            ),
        }
    }

    /// Processes a wall: counts its balconies and the wall itself, and
    /// processes its balconies.
    pub fn process_wall(&mut self, wall: &WallConstructionData) -> (result: Result<
        (),
        AggregationError,
    >)
        ensures
            match old(self)@.process_wall(wall@) {
                Ok(context) => result is Ok && final(self)@ == context,
                Err(e) => result == Err::<(), AggregationError>(e),
            },
    {
        let ghost view = wall@;
        let count: usize = wall.balcony_construction_datas.len();
        let raised: i128 = self.balconies as i128 + count as i128;
        if raised > i32::MAX as i128 {
            return Err(AggregationError::Overflow);
        }
        self.balconies = raised as i32;
        let tower_1_world_pos = match self.local_to_world_hex_vector(
            &wall.lower_stacker_tower_1_local_hex_pos,
            wall.lower_stacker_tower_1_retainer_id,
        ) {
            Ok(position) => position,
            Err(e) => {
                return Err(e);
            },
        };
        let tower_2_world_pos = match self.local_to_world_hex_vector(
            &wall.lower_stacker_tower_2_local_hex_pos,
            wall.lower_stacker_tower_2_retainer_id,
        ) {
            Ok(position) => position,
            Err(e) => {
                return Err(e);
            },
        };
        let distance: i64 = tower_1_world_pos.wide_distance(&tower_2_world_pos) - 1;
        let kind = match WallKind::try_straight_of_length(distance) {
            Some(kind) => kind,
            None => {
                return Err(
                    AggregationError::GeometryInvariantViolation(GeometryViolation::WallLength),
                );
            },
        };
        match self.add_wall(kind) {
            Ok(()) => {},
            Err(e) => {
                return Err(e);
            },
        }
        let wall_direction = hex_direction(&tower_1_world_pos, &tower_2_world_pos);
        let ghost with_wall = self@;
        let mut i: usize = 0;
        while i < wall.balcony_construction_datas.len()
            invariant
                i <= wall.balcony_construction_datas.len(),
                view == wall@,
                view.balcony_construction_datas.len() == wall.balcony_construction_datas.len(),
                old(self)@.process_wall(view) == with_wall.process_balconies(
                    view,
                    wall_direction,
                    view.balcony_construction_datas.len(),
                ),
                with_wall.process_balconies(view, wall_direction, i as nat) == Ok::<
                    CountContextView,
                    AggregationError,
                >(self@),
            decreases wall.balcony_construction_datas.len() - i,
        {
            let balcony = &wall.balcony_construction_datas[i];
            match self.process_balcony(wall, &wall_direction, balcony) {
                Ok(()) => {},
                Err(e) => {
                    proof {
                        lemma_process_balconies_fails(
                            with_wall,
                            view,
                            wall_direction,
                            (i + 1) as nat,
                            view.balcony_construction_datas.len(),
                        );
                    }
                    return Err(e);
                },
            }
            i += 1;
        }
        Ok(())
    }
}

/// Processes walls with their balconies.
pub fn process_wall_construction_data(
    walls: &[WallConstructionData],
    context: &mut CountContext,
) -> (result: Result<(), AggregationError>)
    ensures
        match old(context)@.process_walls(wall_views(walls@), walls@.len()) {
            Ok(processed) => result is Ok && final(context)@ == processed,
            Err(e) => result == Err::<(), AggregationError>(e),
        },
{
    let ghost start = context@;
    let ghost views = wall_views(walls@);
    let mut i: usize = 0;
    while i < walls.len()
        invariant
            i <= walls.len(),
            start == old(context)@,
            views == wall_views(walls@),
            start.process_walls(views, i as nat) == Ok::<CountContextView, AggregationError>(
                context@,
            ),
        decreases walls.len() - i,
    {
        match context.process_wall(&walls[i]) {
            Ok(()) => {},
            Err(e) => {
                proof {
                    lemma_process_walls_fails(start, views, (i + 1) as nat, views.len());
                }
                return Err(e);
            },
        }
        i += 1;
    }
    Ok(())
}

/// Processes rails: each is counted.
pub fn process_rail_construction_data(
    rails: &[RailConstructionData],
    context: &mut CountContext,
) -> (result: Result<(), AggregationError>)
    ensures
        match old(context)@.process_rails(rails@, rails@.len()) {
            Ok(processed) => result is Ok && final(context)@ == processed,
            Err(e) => result == Err::<(), AggregationError>(e),
        },
{
    let ghost start = context@;
    let mut i: usize = 0;
    while i < rails.len()
        invariant
            i <= rails.len(),
            start == old(context)@,
            start.process_rails(rails@, i as nat) == Ok::<CountContextView, AggregationError>(
                context@,
            ),
        decreases rails.len() - i,
    {
        match context.process_rail(&rails[i]) {
            Ok(()) => {},
            Err(e) => {
                proof {
                    lemma_process_rails_fails(start, rails@, (i + 1) as nat, rails@.len());
                }
                return Err(e);
            },
        }
        i += 1;
    }
    Ok(())
}

} // verus!
