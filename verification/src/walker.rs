//! The walk through the tower of tiles that stands in a cell: every tile and
//! its stackers are counted, and every tile that holds other elements is
//! registered with the position of the cell and its height.
use crate::bom::{AggregationError, CountContext, CountContextView, Counted, RetainerHeight};
use crate::hex::{fits_i32, HexVector};
use crate::layer::{
    TileKind, TileTowerConstructionData, TileTowerTreeNodeData, TileTowerTreeNodeDataView,
};
use vstd::prelude::*;

verus! {

broadcast use vstd::std_specs::hash::group_hash_axioms;

/// The height that a stacker tower adds to the stackers below it, in small
/// stackers.
pub const STACKER_TOWER_HEIGHT: i32 = 14;

/// The height of the upper side of a tile that holds other elements and
/// stands at `current_height`: a stacker tower reaches 14 small stackers
/// above its stackers, any other tile one.
pub open spec fn retainer_upper(data: TileTowerConstructionData, current_height: i32) -> int {
    if data.spec_is_stacker_tower() {
        current_height + 14 + data.height_in_small_stacker
    } else {
        data.height_in_small_stacker + current_height + 1
    }
}

/// The height at which the tiles stand that are placed on a tile at
/// `current_height`. Only a tile that holds other elements raises it: a
/// stacker tower by its stackers and 14, any other by its stackers.
pub open spec fn height_above(data: TileTowerConstructionData, current_height: i32) -> int {
    if data.retainer_id is None {
        current_height as int
    } else if data.spec_is_stacker_tower() {
        current_height + 14 + data.height_in_small_stacker
    } else {
        current_height + data.height_in_small_stacker
    }
}

impl CountContextView {
    /// The context after a tile is registered that stands at `position` and
    /// `current_height`, where the tile holds other elements.
    pub open spec fn register_tile(
        self,
        data: TileTowerConstructionData,
        position: HexVector,
        current_height: i32,
    ) -> Counted {
        match data.retainer_id {
            None => Ok(self),
            Some(retainer_id) => if fits_i32(retainer_upper(data, current_height)) && fits_i32(
                height_above(data, current_height),
            ) {
                Ok(
                    self.register_position(retainer_id, position).register_height(
                        retainer_id,
                        RetainerHeight {
                            lower: current_height,
                            upper: retainer_upper(data, current_height) as i32,
                        },
                    ),
                )
            } else {
                Err(AggregationError::Overflow)
            },
        }
    }

    /// The context after the walk through the tower that starts with `node`
    /// and stands in the cell at `position`, at `current_height`: the tile
    /// is counted, then its stackers, then it is registered, then the towers
    /// on it are walked through, one after the other, all from the same
    /// height.
    pub open spec fn walk(
        self,
        node: TileTowerTreeNodeDataView,
        position: HexVector,
        current_height: i32,
    ) -> Counted
        decreases node,
    {
        let data = node.construction_data;
        match self.add_tile(data.kind, 1) {
            Err(e) => Err(e),
            Ok(with_tile) => match with_tile.add_stackers(data.height_in_small_stacker as int) {
                Err(e) => Err(e),
                Ok(with_stackers) => match with_stackers.register_tile(
                    data,
                    position,
                    current_height,
                ) {
                    Err(e) => Err(e),
                    Ok(registered) => registered.walk_children(
                        node.children,
                        node.children.len(),
                        position,
                        height_above(data, current_height) as i32,
                    ),
                },
            },
        }
    }

    /// The context after the walk through the first `n` of the towers
    /// `nodes`, which all stand in the cell at `position`, at `height`.
    pub open spec fn walk_children(
        self,
        nodes: Seq<TileTowerTreeNodeDataView>,
        n: nat,
        position: HexVector,
        height: i32,
    ) -> Counted
        decreases nodes, n,
    {
        if n == 0 || n > nodes.len() {
            Ok(self)
        } else {
            match self.walk_children(nodes, (n - 1) as nat, position, height) {
                Err(e) => Err(e),
                Ok(context) => context.walk(nodes[n - 1], position, height),
            }
        }
    }
}

/// The tiles on a tile stand no lower than the tile itself, where the height
/// of its stackers is not negative, and no higher than its upper side.
pub proof fn lemma_height_above_not_below(data: TileTowerConstructionData, current_height: i32)
    requires
        data.height_in_small_stacker >= 0,
    ensures
        current_height <= height_above(data, current_height),
        data.retainer_id is Some ==> height_above(data, current_height) <= retainer_upper(
            data,
            current_height,
        ),
{
}

/// A tile that holds other elements is registered with the position of its
/// cell and with its height before the towers on it are walked through, so
/// that the walk through a tower succeeds only where the tile could be
/// counted and registered.
pub proof fn lemma_walk_registers_first(
    context: CountContextView,
    node: TileTowerTreeNodeDataView,
    position: HexVector,
    current_height: i32,
)
    requires
        context.walk(node, position, current_height) is Ok,
    ensures
        context.add_tile(node.construction_data.kind, 1) matches Ok(with_tile)
            && with_tile.add_stackers(
            node.construction_data.height_in_small_stacker as int,
        ) matches Ok(with_stackers) && with_stackers.register_tile(
            node.construction_data,
            position,
            current_height,
        ) matches Ok(registered) && (node.construction_data.retainer_id matches Some(id)
            ==> registered.retainer_positions.contains_key(id) && registered.retainer_positions[id]
            == position && registered.retainer_heights.contains_key(id)
            && registered.retainer_heights[id].lower == current_height),
{
}

/// Whether `after` holds what `before` holds but for the tiles and for what
/// is registered.
pub open spec fn only_tiles_counted(before: CountContextView, after: CountContextView) -> bool {
    &&& after.layers == before.layers
    &&& after.walls == before.walls
    &&& after.rails == before.rails
    &&& after.balconies == before.balconies
    &&& after.rail_small == before.rail_small
    &&& after.rail_medium == before.rail_medium
    &&& after.rail_large == before.rail_large
}

/// Counting tiles raises the count of the kind that is counted and of no
/// other.
pub proof fn lemma_add_tile_counts(
    context: CountContextView,
    counted_kind: TileKind,
    amount: int,
    kind: TileKind,
)
    requires
        context.add_tile(counted_kind, amount) is Ok,
    ensures
        only_tiles_counted(context, context.add_tile(counted_kind, amount).unwrap()),
        context.add_tile(counted_kind, amount).unwrap().retainer_positions
            == context.retainer_positions,
        context.add_tile(counted_kind, amount).unwrap().retainer_heights
            == context.retainer_heights,
        crate::bom::counted(
            context.add_tile(counted_kind, amount).unwrap().tiles,
            kind.spec_code(),
        ) == crate::bom::counted(context.tiles, kind.spec_code()) + (if kind == counted_kind {
            amount
        } else {
            0
        }),
{
    TileKind::lemma_code_injective(kind, counted_kind);
}

/// Where the walk through a tower succeeds, it raises the count of every
/// kind of tile by the number of tiles of that kind in the tower, stackers
/// included, whatever the position and the height of the tower. Nothing but
/// tiles is counted.
pub proof fn lemma_walk_counts(
    context: CountContextView,
    node: TileTowerTreeNodeDataView,
    position: HexVector,
    current_height: i32,
    kind: TileKind,
)
    requires
        context.walk(node, position, current_height) is Ok,
    ensures
        only_tiles_counted(context, context.walk(node, position, current_height).unwrap()),
        crate::bom::counted(
            context.walk(node, position, current_height).unwrap().tiles,
            kind.spec_code(),
        ) == crate::bom::counted(context.tiles, kind.spec_code()) + node.adds(kind),
    decreases node, 0nat,
{
    let data = node.construction_data;
    let with_tile = context.add_tile(data.kind, 1).unwrap();
    lemma_add_tile_counts(context, data.kind, 1, kind);
    let stackers = data.height_in_small_stacker as int;
    let with_small = if crate::bom::small_stackers(stackers) != 0 {
        with_tile.add_tile(TileKind::StackerSmall, 1).unwrap()
    } else {
        with_tile
    };
    if crate::bom::small_stackers(stackers) != 0 {
        lemma_add_tile_counts(with_tile, TileKind::StackerSmall, 1, kind);
    }
    let with_stackers = with_small.add_tile(
        TileKind::Stacker,
        crate::bom::large_stackers(stackers),
    ).unwrap();
    lemma_add_tile_counts(with_small, TileKind::Stacker, crate::bom::large_stackers(stackers),
        kind);
    let registered = with_stackers.register_tile(data, position, current_height).unwrap();
    lemma_walk_children_counts(
        registered,
        node.children,
        node.children.len(),
        position,
        height_above(data, current_height) as i32,
        kind,
    );
}

/// Where the walk through towers succeeds, it raises the count of every kind
/// of tile by the number of tiles of that kind in the towers.
pub proof fn lemma_walk_children_counts(
    context: CountContextView,
    nodes: Seq<TileTowerTreeNodeDataView>,
    n: nat,
    position: HexVector,
    height: i32,
    kind: TileKind,
)
    requires
        n <= nodes.len(),
        context.walk_children(nodes, n, position, height) is Ok,
    ensures
        only_tiles_counted(context, context.walk_children(nodes, n, position, height).unwrap()),
        crate::bom::counted(
            context.walk_children(nodes, n, position, height).unwrap().tiles,
            kind.spec_code(),
        ) == crate::bom::counted(context.tiles, kind.spec_code())
            + TileTowerTreeNodeDataView::add_together(nodes, n, kind),
    decreases nodes, n,
{
    if n > 0 {
        lemma_walk_children_counts(context, nodes, (n - 1) as nat, position, height, kind);
        let before = context.walk_children(nodes, (n - 1) as nat, position, height).unwrap();
        lemma_walk_counts(before, nodes[n - 1], position, height, kind);
    }
}

/// Once a tower cannot be counted, neither can the towers after it.
pub proof fn lemma_walk_children_fails(
    context: CountContextView,
    nodes: Seq<TileTowerTreeNodeDataView>,
    n: nat,
    m: nat,
    position: HexVector,
    height: i32,
)
    requires
        n <= m <= nodes.len(),
        context.walk_children(nodes, n, position, height) is Err,
    ensures
        context.walk_children(nodes, m, position, height) == context.walk_children(
            nodes,
            n,
            position,
            height,
        ),
    decreases m,
{
    if n < m {
        lemma_walk_children_fails(context, nodes, n, (m - 1) as nat, position, height);
    }
}

/// Walks through the tower that starts with `data` and stands in the cell at
/// `world_cell_position`, at `current_height`.
pub fn process_tree_node_data(
    data: &TileTowerTreeNodeData,
    world_cell_position: &HexVector,
    current_height: i32,
    context: &mut CountContext,
) -> (result: Result<(), AggregationError>)
    ensures
        match old(context)@.walk(data@, *world_cell_position, current_height) {
            Ok(walked) => result is Ok && final(context)@ == walked,
            Err(e) => result == Err::<(), AggregationError>(e),
        },
    decreases data,
{
    let tile = &data.construction_data;
    match context.add_tile(tile.kind, 1) {
        Ok(()) => {},
        Err(e) => {
            return Err(e);
        },
    }
    match context.add_stackers(tile.height_in_small_stacker) {
        Ok(()) => {},
        Err(e) => {
            return Err(e);
        },
    }
    let mut height: i32 = current_height;
    match tile.retainer_id {
        None => {},
        Some(retainer_id) => {
            let stackers: i64 = tile.height_in_small_stacker as i64;
            let upper: i64 = if tile.is_stacker_tower() {
                current_height as i64 + STACKER_TOWER_HEIGHT as i64 + stackers
            } else {
                stackers + current_height as i64 + 1
            };
            let above: i64 = if tile.is_stacker_tower() {
                upper
            } else {
                current_height as i64 + stackers
            };
            if upper < i32::MIN as i64 || upper > i32::MAX as i64 || above < i32::MIN as i64
                || above > i32::MAX as i64 {
                return Err(AggregationError::Overflow);
            }
            context.retainer_positions.insert(retainer_id, *world_cell_position);
            context.retainer_heights.insert(
                retainer_id,
                RetainerHeight::new(current_height, upper as i32),
            );
            height = above as i32;
        },
    }
    let ghost registered = context@;
    let ghost nodes = data@.children;
    proof {
        data.lemma_view_children();
    }
    let mut i: usize = 0;
    while i < data.children.len()
        invariant
            i <= data.children.len(),
            nodes == data@.children,
            nodes.len() == data.children.len(),
            old(context)@.walk(data@, *world_cell_position, current_height)
                == registered.walk_children(nodes, nodes.len(), *world_cell_position, height),
            registered.walk_children(nodes, i as nat, *world_cell_position, height) == Ok::<
                CountContextView,
                AggregationError,
            >(context@),
        decreases data.children.len() - i,
    {
        match process_tree_node_data(&data.children[i], world_cell_position, height, context) {
            Ok(()) => {},
            Err(e) => {
                proof {
                    lemma_walk_children_fails(
                        registered,
                        nodes,
                        (i + 1) as nat,
                        nodes.len(),
                        *world_cell_position,
                        height,
                    );
                }
                return Err(e);
            },
        }
        i += 1;
    }
    Ok(())
}

} // verus!
