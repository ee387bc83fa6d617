//! Reading layers: a layer, its cells, and the tower of tiles in each cell.
use crate::binary32::Binary32;
use crate::bytes::{
    available, le_i32, le_u32, read_as, read_i32, read_u32, remaining, spec_read_u32,
    starts_with, DecodeError, Parsed,
};
use crate::course::CourseSaveDataVersion;
use crate::hex::HexVector;
use crate::layer::{
    cell_views, layer_views, node_views, CellConstructionData, CellConstructionDataView,
    LayerConstructionData, LayerConstructionDataView, LayerKind, LightStoneColorMode,
    PowerSignalMode, TileKind, TileTowerConstructionData, TileTowerTreeNodeData,
    TileTowerTreeNodeDataView,
};
use vstd::prelude::*;

verus! {

/// Whether an executable reader has read what `parsed` says: an item with
/// the same value up to the position behind it, or the same failure.
pub open spec fn read_view_as<T: View>(
    result: Result<(T, usize), DecodeError>,
    parsed: Parsed<T::V>,
    bytes: Seq<u8>,
    pos: usize,
) -> bool {
    match parsed {
        Ok((value, used)) => result matches Ok((item, next)) && item@ == value && next == pos
            + used && next <= bytes.len(),
        Err(e) => result matches Err(reason) && reason == e,
    }
}

/// The number of items that a signed count stands for, which is none where
/// the count is negative.
pub open spec fn spec_item_count(count: i32) -> Result<nat, DecodeError> {
    if count < 0 {
        Err(DecodeError::NegativeCount)
    } else {
        Ok(count as nat)
    }
}

/// The number of items that a signed count stands for.
pub fn item_count(count: i32) -> (result: Result<usize, DecodeError>)
    ensures
        match spec_item_count(count) {
            Ok(n) => result == Ok::<usize, DecodeError>(n as usize) && n == count,
            Err(e) => result == Err::<usize, DecodeError>(e),
        },
{
    if count < 0 {
        Err(DecodeError::NegativeCount)
    } else {
        Ok(count as usize)
    }
}

/// What reading a cell of the board at `pos` gives: its `y` coordinate,
/// then its `x` coordinate.
pub open spec fn spec_parse_hex(bytes: Seq<u8>, pos: nat) -> Parsed<HexVector> {
    if available(bytes, pos, 8) {
        Ok((HexVector { y: le_i32(bytes, pos), x: le_i32(bytes, pos + 4) }, 8))
    } else {
        Err(DecodeError::Truncated)
    }
}

/// Reads the cell of the board at `pos`.
pub fn parse_hex(bytes: &[u8], pos: usize) -> (result: Result<(HexVector, usize), DecodeError>)
    ensures
        read_as(result, spec_parse_hex(bytes@, pos as nat), bytes@, pos),
{
    if pos > bytes.len() || bytes.len() - pos < 8 {
        return Err(DecodeError::Truncated);
    }
    let (y, next) = read_i32(bytes, pos)?;
    let (x, next) = read_i32(bytes, next)?;
    Ok((HexVector { y, x }, next))
}

/// The number that is stored for a tile that holds no other elements.
pub const NO_RETAINER: i32 = -2147483647;

/// The number that is stored for a tile that has no mode.
pub const NO_MODE: u32 = 2147483648;

impl TileTowerConstructionData {
    /// The identifier that the stored number `field` stands for: none for
    /// -2147483647, the number itself otherwise.
    pub open spec fn spec_map_retainer_id(field: i32) -> Option<i32> {
        if field == -2147483647 {
            None
        } else {
            Some(field)
        }
    }

    /// The signal mode that the stored number `field` stands for: none for
    /// 2147483648, otherwise the mode with that code.
    pub open spec fn spec_map_power_signal_mode(field: u32) -> Result<
        Option<PowerSignalMode>,
        DecodeError,
    > {
        if field == 2147483648 {
            Ok(None)
        } else {
            match PowerSignalMode::spec_from_code(field) {
                Some(mode) => Ok(Some(mode)),
                None => Err(DecodeError::InvalidDiscriminant),
            }
        }
    }

    /// The colour mode that the stored number `field` stands for: none for
    /// 2147483648, otherwise the mode with that code.
    pub open spec fn spec_map_light_stone_color_mode(field: u32) -> Result<
        Option<LightStoneColorMode>,
        DecodeError,
    > {
        if field == 2147483648 {
            Ok(None)
        } else {
            match LightStoneColorMode::spec_from_code(field) {
                Some(mode) => Ok(Some(mode)),
                None => Err(DecodeError::InvalidDiscriminant),
            }
        }
    }

    /// The identifier that the stored number `field` stands for.
    pub fn map_retainer_id(field: i32) -> (retainer_id: Result<Option<i32>, DecodeError>)
        ensures
            retainer_id == Ok::<Option<i32>, DecodeError>(
                TileTowerConstructionData::spec_map_retainer_id(field),
            ),
    {
        if field == NO_RETAINER {
            Ok(None)
        } else {
            Ok(Some(field))
        }
    }

    /// The signal mode that the stored number `field` stands for.
    pub fn map_power_signal_mode(field: u32) -> (mode: Result<Option<PowerSignalMode>, DecodeError>)
        ensures
            mode == TileTowerConstructionData::spec_map_power_signal_mode(field),
    {
        if field == NO_MODE {
            Ok(None)
        } else {
            match PowerSignalMode::from_code(field) {
                Some(mode) => Ok(Some(mode)),
                None => Err(DecodeError::InvalidDiscriminant),
            }
        }
    }

    /// The colour mode that the stored number `field` stands for.
    pub fn map_light_stone_color_mode(field: u32) -> (mode: Result<
        Option<LightStoneColorMode>,
        DecodeError,
    >)
        ensures
            mode == TileTowerConstructionData::spec_map_light_stone_color_mode(field),
    {
        if field == NO_MODE {
            Ok(None)
        } else {
            match LightStoneColorMode::from_code(field) {
                Some(mode) => Ok(Some(mode)),
                None => Err(DecodeError::InvalidDiscriminant),
            }
        }
    }
}

/// What reading the signal mode of a tile at `pos` gives. Only the formats
/// from 2022 on store one.
pub open spec fn spec_parse_power_signal_mode(
    bytes: Seq<u8>,
    pos: nat,
    version: CourseSaveDataVersion,
) -> Parsed<Option<PowerSignalMode>> {
    if !version.spec_has_power_signal_mode() {
        Ok((None, 0))
    } else {
        match spec_read_u32(bytes, pos) {
            Err(e) => Err(e),
            Ok((field, used)) => match TileTowerConstructionData::spec_map_power_signal_mode(
                field,
            ) {
                Err(e) => Err(e),
                Ok(mode) => Ok((mode, used)),
            },
        }
    }
}

/// What reading the colour mode of a tile at `pos` gives. Only the format of
/// 2023 stores one.
pub open spec fn spec_parse_light_stone_color_mode(
    bytes: Seq<u8>,
    pos: nat,
    version: CourseSaveDataVersion,
) -> Parsed<Option<LightStoneColorMode>> {
    if !version.spec_has_light_stone_color_mode() {
        Ok((None, 0))
    } else {
        match spec_read_u32(bytes, pos) {
            Err(e) => Err(e),
            Ok((field, used)) => match TileTowerConstructionData::spec_map_light_stone_color_mode(
                field,
            ) {
                Err(e) => Err(e),
                Ok(mode) => Ok((mode, used)),
            },
        }
    }
}

/// What reading a tile at `pos` gives: its kind, the height of its stackers,
/// its rotation, its identifier as a retainer, and the modes that the format
/// stores.
pub open spec fn spec_parse_tile(
    bytes: Seq<u8>,
    pos: nat,
    version: CourseSaveDataVersion,
) -> Parsed<
    TileTowerConstructionData,
> {
    match TileKind::spec_parse(bytes, pos) {
        Err(e) => Err(e),
        Ok((kind, _)) => if !available(bytes, pos + 4, 12) {
            Err(DecodeError::Truncated)
        } else {
            match spec_parse_power_signal_mode(bytes, pos + 16, version) {
                Err(e) => Err(e),
                Ok((power_signal_mode, power)) => match spec_parse_light_stone_color_mode(
                    bytes,
                    pos + 16 + power,
                    version,
                ) {
                    Err(e) => Err(e),
                    Ok((light_stone_color_mode, light)) => Ok(
                        (
                            TileTowerConstructionData {
                                kind,
                                height_in_small_stacker: le_i32(bytes, pos + 4),
                                hex_rotation: le_i32(bytes, pos + 8),
                                retainer_id: TileTowerConstructionData::spec_map_retainer_id(
                                    le_i32(bytes, pos + 12),
                                ),
                                power_signal_mode,
                                light_stone_color_mode,
                            },
                            16 + power + light,
                        ),
                    ),
                },
            }
        },
    }
}

/// Reads the tile at `pos`.
pub fn parse_tile(bytes: &[u8], pos: usize, version: CourseSaveDataVersion) -> (result: Result<
    (TileTowerConstructionData, usize),
    DecodeError,
>)
    ensures
        read_as(result, spec_parse_tile(bytes@, pos as nat, version), bytes@, pos),
{
    let (kind, next) = TileKind::parse(bytes, pos)?;
    if bytes.len() - next < 12 {
        return Err(DecodeError::Truncated);
    }
    let (height_in_small_stacker, next) = read_i32(bytes, next)?;
    let (hex_rotation, next) = read_i32(bytes, next)?;
    let (retainer_field, next) = read_i32(bytes, next)?;
    let retainer_id = TileTowerConstructionData::map_retainer_id(retainer_field)?;
    let mut next: usize = next;
    let mut power_signal_mode: Option<PowerSignalMode> = None;
    if version.has_power_signal_mode() {
        let (field, after) = read_u32(bytes, next)?;
        power_signal_mode = TileTowerConstructionData::map_power_signal_mode(field)?;
        next = after;
    }
    let mut light_stone_color_mode: Option<LightStoneColorMode> = None;
    if version.has_light_stone_color_mode() {
        let (field, after) = read_u32(bytes, next)?;
        light_stone_color_mode = TileTowerConstructionData::map_light_stone_color_mode(field)?;
        next = after;
    }
    Ok(
        (
            TileTowerConstructionData {
                kind,
                height_in_small_stacker,
                hex_rotation,
                retainer_id,
                power_signal_mode,
                light_stone_color_mode,
            },
            next,
        ),
    )
}

/// What reading a tower at `pos` gives: the index of its first tile, the
/// number of towers on that tile, the tile, and those towers.
pub open spec fn spec_parse_node(
    bytes: Seq<u8>,
    pos: nat,
    version: CourseSaveDataVersion,
) -> Parsed<
    TileTowerTreeNodeDataView,
>
    decreases remaining(bytes, pos), 0nat,
{
    if !available(bytes, pos, 8) {
        Err(DecodeError::Truncated)
    } else {
        match spec_parse_tile(bytes, pos + 8, version) {
            Err(e) => Err(e),
            Ok((construction_data, tile)) => match spec_item_count(le_i32(bytes, pos + 4)) {
                Err(e) => Err(e),
                Ok(count) => match spec_parse_nodes(bytes, pos + 8 + tile, count, version) {
                    Err(e) => Err(e),
                    Ok((children, towers)) => Ok(
                        (
                            TileTowerTreeNodeDataView {
                                index: le_i32(bytes, pos),
                                construction_data,
                                children,
                            },
                            8 + tile + towers,
                        ),
                    ),
                },
            },
        }
    }
}

/// What reading the first `n` of the towers that are stored from `pos` on
/// gives: their values and the number of bytes that they take together.
pub open spec fn spec_parse_nodes(
    bytes: Seq<u8>,
    pos: nat,
    n: nat,
    version: CourseSaveDataVersion,
) -> Parsed<Seq<TileTowerTreeNodeDataView>>
    decreases remaining(bytes, pos), 1 + n,
{
    if n == 0 {
        Ok((Seq::empty(), 0))
    } else {
        match spec_parse_nodes(bytes, pos, (n - 1) as nat, version) {
            Err(e) => Err(e),
            Ok((items, used)) => match spec_parse_node(bytes, pos + used, version) {
                Err(e) => Err(e),
                Ok((item, more)) => Ok((items.push(item), used + more)),
            },
        }
    }
}

/// Reads the tower at `pos`.
pub(crate) fn parse_node(
    bytes: &[u8],
    pos: usize,
    version: CourseSaveDataVersion,
) -> (result: Result<
    (TileTowerTreeNodeData, usize),
    DecodeError,
>)
    requires
        pos <= bytes.len(),
    ensures
        read_view_as(result, spec_parse_node(bytes@, pos as nat, version), bytes@, pos),
    decreases remaining(bytes@, pos as nat), 0nat,
{
    if bytes.len() - pos < 8 {
        return Err(DecodeError::Truncated);
    }
    let (index, next) = read_i32(bytes, pos)?;
    let (children_count, next) = read_i32(bytes, next)?;
    let (construction_data, next) = parse_tile(bytes, next, version)?;
    let count = item_count(children_count)?;
    let (children, next) = parse_nodes(bytes, next, count, version)?;
    let node = TileTowerTreeNodeData { index, construction_data, children };
    proof {
        node.lemma_view_children();
        assert(node@.children =~= node_views(node.children@));
    }
    Ok((node, next))
}

/// Once a tower cannot be read, neither can the towers after it.
pub proof fn lemma_parse_nodes_fails(
    bytes: Seq<u8>,
    pos: nat,
    n: nat,
    m: nat,
    version: CourseSaveDataVersion,
)
    requires
        n <= m,
        spec_parse_nodes(bytes, pos, n, version) is Err,
    ensures
        spec_parse_nodes(bytes, pos, m, version) == spec_parse_nodes(bytes, pos, n, version),
    decreases m,
{
    if n < m {
        lemma_parse_nodes_fails(bytes, pos, n, (m - 1) as nat, version);
        reveal_with_fuel(spec_parse_nodes, 2);
    }
}

/// Reads `count` towers from `pos` on.
pub(crate) fn parse_nodes(
    bytes: &[u8],
    pos: usize,
    count: usize,
    version: CourseSaveDataVersion,
) -> (result: Result<
    (Vec<TileTowerTreeNodeData>, usize),
    DecodeError,
>)
    requires
        pos <= bytes.len(),
    ensures
        match spec_parse_nodes(bytes@, pos as nat, count as nat, version) {
            Ok((items, used)) => result matches Ok((read, next)) && node_views(read@) == items
                && next == pos
                + used && next <= bytes.len(),
            Err(e) => result matches Err(reason) && reason == e,
        },
    decreases remaining(bytes@, pos as nat), 1 + count,
{
    let mut items: Vec<TileTowerTreeNodeData> = Vec::new();
    let mut next: usize = pos;
    let mut i: usize = 0;
    assert(node_views(items@) =~= Seq::<TileTowerTreeNodeDataView>::empty());
    while i < count
        invariant
            i <= count,
            pos <= next <= bytes.len(),
            spec_parse_nodes(bytes@, pos as nat, i as nat, version)
                == Ok::<(Seq<TileTowerTreeNodeDataView>, nat), DecodeError>(
                (node_views(items@), (next - pos) as nat),
            ),
        decreases count - i,
    {
        match parse_node(bytes, next, version) {
            Ok((item, after)) => {
                let ghost before = items@;
                items.push(item);
                next = after;
                assert(node_views(items@) =~= node_views(before).push(item@));
                reveal_with_fuel(spec_parse_nodes, 2);
            },
            Err(e) => {
                proof {
                    reveal_with_fuel(spec_parse_nodes, 2);
                    lemma_parse_nodes_fails(bytes@, pos as nat, (i + 1) as nat, count as nat,
                        version);
                }
                return Err(e);
            },
        }
        i += 1;
    }
    Ok((items, next))
}

/// What reading a cell at `pos` gives: its position on its layer, then the
/// tower in it.
#[verifier::opaque]
pub open spec fn spec_parse_cell(
    bytes: Seq<u8>,
    pos: nat,
    version: CourseSaveDataVersion,
) -> Parsed<
    CellConstructionDataView,
> {
    match spec_parse_hex(bytes, pos) {
        Err(e) => Err(e),
        Ok((local_hex_position, hex)) => match spec_parse_node(bytes, pos + hex, version) {
            Err(e) => Err(e),
            Ok((tree_node_data, tower)) => Ok(
                (CellConstructionDataView { local_hex_position, tree_node_data }, hex + tower),
            ),
        },
    }
}

/// Reads the cell at `pos`.
pub(crate) fn parse_cell(
    bytes: &[u8],
    pos: usize,
    version: CourseSaveDataVersion,
) -> (result: Result<
    (CellConstructionData, usize),
    DecodeError,
>)
    requires
        pos <= bytes.len(),
    ensures
        read_view_as(result, spec_parse_cell(bytes@, pos as nat, version), bytes@, pos),
{
    reveal(spec_parse_cell);
    let (local_hex_position, next) = parse_hex(bytes, pos)?;
    let (tree_node_data, next) = parse_node(bytes, next, version)?;
    Ok((CellConstructionData { local_hex_position, tree_node_data }, next))
}

/// What reading the first `n` of the cells that are stored from `pos` on gives:
/// their values and the number of bytes that they take together.
pub open spec fn spec_parse_cells(
    bytes: Seq<u8>,
    pos: nat,
    n: nat,
    version: CourseSaveDataVersion,
) -> Parsed<Seq<CellConstructionDataView>>
    decreases n,
{
    if n == 0 {
        Ok((Seq::empty(), 0))
    } else {
        match spec_parse_cells(bytes, pos, (n - 1) as nat, version) {
            Err(e) => Err(e),
            Ok((items, used)) => match spec_parse_cell(bytes, pos + used, version) {
                Err(e) => Err(e),
                Ok((item, more)) => Ok((items.push(item), used + more)),
            },
        }
    }
}

/// Once a cell cannot be read, neither can the cells after it.
pub proof fn lemma_parse_cells_fails(
    bytes: Seq<u8>,
    pos: nat,
    n: nat,
    m: nat,
    version: CourseSaveDataVersion,
)
    requires
        n <= m,
        spec_parse_cells(bytes, pos, n, version) is Err,
    ensures
        spec_parse_cells(bytes, pos, m, version) == spec_parse_cells(bytes, pos, n, version),
    decreases m,
{
    if n < m {
        lemma_parse_cells_fails(bytes, pos, n, (m - 1) as nat, version);
    }
}

/// Reads `count` cells from `pos` on.
pub(crate) fn parse_cells(
    bytes: &[u8],
    pos: usize,
    count: usize,
    version: CourseSaveDataVersion,
) -> (result: Result<
    (Vec<CellConstructionData>, usize),
    DecodeError,
>)
    requires
        pos <= bytes.len(),
    ensures
        match spec_parse_cells(bytes@, pos as nat, count as nat, version) {
            Ok((items, used)) => result matches Ok((read, next)) && cell_views(read@) == items
                && next == pos
                + used && next <= bytes.len(),
            Err(e) => result matches Err(reason) && reason == e,
        },
{
    let mut items: Vec<CellConstructionData> = Vec::new();
    let mut next: usize = pos;
    let mut i: usize = 0;
    assert(cell_views(items@) =~= Seq::<CellConstructionDataView>::empty());
    while i < count
        invariant
            i <= count,
            pos <= next <= bytes.len(),
            spec_parse_cells(bytes@, pos as nat, i as nat, version)
                == Ok::<(Seq<CellConstructionDataView>, nat), DecodeError>(
                (cell_views(items@), (next - pos) as nat),
            ),
        decreases count - i,
    {
        match parse_cell(bytes, next, version) {
            Ok((item, after)) => {
                let ghost before = items@;
                items.push(item);
                next = after;
                assert(cell_views(items@) =~= cell_views(before).push(item@));
            },
            Err(e) => {
                proof {
                    lemma_parse_cells_fails(bytes@, pos as nat, (i + 1) as nat, count as nat,
                        version);
                }
                return Err(e);
            },
        }
        i += 1;
    }
    Ok((items, next))
}

/// What reading a layer at `pos` gives: its identifier, its kind, its
/// height, its position on the board, the number of its cells, and its
/// cells.
#[verifier::opaque]
pub open spec fn spec_parse_layer(
    bytes: Seq<u8>,
    pos: nat,
    version: CourseSaveDataVersion,
) -> Parsed<
    LayerConstructionDataView,
> {
    if !available(bytes, pos, 4) {
        Err(DecodeError::Truncated)
    } else {
        match LayerKind::spec_parse(bytes, pos + 4) {
            Err(e) => Err(e),
            Ok((layer_kind, _)) => if !available(bytes, pos + 8, 16) {
                Err(DecodeError::Truncated)
            } else {
                match spec_item_count(le_i32(bytes, pos + 20)) {
                    Err(e) => Err(e),
                    Ok(count) => match spec_parse_cells(bytes, pos + 24, count, version) {
                        Err(e) => Err(e),
                        Ok((cell_construction_datas, cells)) => Ok(
                            (
                                LayerConstructionDataView {
                                    layer_id: le_i32(bytes, pos),
                                    layer_kind,
                                    layer_height: Binary32 { bits: le_u32(bytes, pos + 8) },
                                    world_hex_position: HexVector {
                                        y: le_i32(bytes, pos + 12),
                                        x: le_i32(bytes, pos + 16),
                                    },
                                    cell_construction_datas,
                                },
                                24 + cells,
                            ),
                        ),
                    },
                }
            },
        }
    }
}

/// Reads the layer at `pos`.
pub(crate) fn parse_layer(
    bytes: &[u8],
    pos: usize,
    version: CourseSaveDataVersion,
) -> (result: Result<
    (LayerConstructionData, usize),
    DecodeError,
>)
    requires
        pos <= bytes.len(),
    ensures
        read_view_as(result, spec_parse_layer(bytes@, pos as nat, version), bytes@, pos),
{
    reveal(spec_parse_layer);
    let (layer_id, next) = read_i32(bytes, pos)?;
    let (layer_kind, next) = LayerKind::parse(bytes, next)?;
    if bytes.len() - next < 16 {
        return Err(DecodeError::Truncated);
    }
    let (height_bits, next) = read_u32(bytes, next)?;
    let (world_hex_position, next) = parse_hex(bytes, next)?;
    let (cell_count, next) = read_i32(bytes, next)?;
    let count = item_count(cell_count)?;
    let (cell_construction_datas, next) = parse_cells(bytes, next, count, version)?;
    Ok(
        (
            LayerConstructionData {
                layer_id,
                layer_kind,
                layer_height: Binary32::from_bits(height_bits),
                world_hex_position,
                cell_construction_datas,
            },
            next,
        ),
    )
}

/// What reading the first `n` of the layers that are stored from `pos` on gives:
/// their values and the number of bytes that they take together.
pub open spec fn spec_parse_layers(
    bytes: Seq<u8>,
    pos: nat,
    n: nat,
    version: CourseSaveDataVersion,
) -> Parsed<Seq<LayerConstructionDataView>>
    decreases n,
{
    if n == 0 {
        Ok((Seq::empty(), 0))
    } else {
        match spec_parse_layers(bytes, pos, (n - 1) as nat, version) {
            Err(e) => Err(e),
            Ok((items, used)) => match spec_parse_layer(bytes, pos + used, version) {
                Err(e) => Err(e),
                Ok((item, more)) => Ok((items.push(item), used + more)),
            },
        }
    }
}

/// Once a layer cannot be read, neither can the layers after it.
pub proof fn lemma_parse_layers_fails(
    bytes: Seq<u8>,
    pos: nat,
    n: nat,
    m: nat,
    version: CourseSaveDataVersion,
)
    requires
        n <= m,
        spec_parse_layers(bytes, pos, n, version) is Err,
    ensures
        spec_parse_layers(bytes, pos, m, version) == spec_parse_layers(bytes, pos, n, version),
    decreases m,
{
    if n < m {
        lemma_parse_layers_fails(bytes, pos, n, (m - 1) as nat, version);
    }
}

/// Reads `count` layers from `pos` on.
pub(crate) fn parse_layers(
    bytes: &[u8],
    pos: usize,
    count: usize,
    version: CourseSaveDataVersion,
) -> (result: Result<
    (Vec<LayerConstructionData>, usize),
    DecodeError,
>)
    requires
        pos <= bytes.len(),
    ensures
        match spec_parse_layers(bytes@, pos as nat, count as nat, version) {
            Ok((items, used)) => result matches Ok((read, next)) && layer_views(read@) == items
                && next == pos
                + used && next <= bytes.len(),
            Err(e) => result matches Err(reason) && reason == e,
        },
{
    let mut items: Vec<LayerConstructionData> = Vec::new();
    let mut next: usize = pos;
    let mut i: usize = 0;
    assert(layer_views(items@) =~= Seq::<LayerConstructionDataView>::empty());
    while i < count
        invariant
            i <= count,
            pos <= next <= bytes.len(),
            spec_parse_layers(bytes@, pos as nat, i as nat, version)
                == Ok::<(Seq<LayerConstructionDataView>, nat), DecodeError>(
                (layer_views(items@), (next - pos) as nat),
            ),
        decreases count - i,
    {
        match parse_layer(bytes, next, version) {
            Ok((item, after)) => {
                let ghost before = items@;
                items.push(item);
                next = after;
                assert(layer_views(items@) =~= layer_views(before).push(item@));
            },
            Err(e) => {
                proof {
                    lemma_parse_layers_fails(bytes@, pos as nat, (i + 1) as nat, count as nat,
                        version);
                }
                return Err(e);
            },
        }
        i += 1;
    }
    Ok((items, next))
}

/// What is read of a tile does not depend on what follows it in the buffer.
pub proof fn lemma_parse_tile_extends(
    bytes: Seq<u8>,
    longer: Seq<u8>,
    pos: nat,
    version: CourseSaveDataVersion,
)
    requires
        starts_with(longer, bytes),
        spec_parse_tile(bytes, pos, version) is Ok,
    ensures
        spec_parse_tile(longer, pos, version) == spec_parse_tile(bytes, pos, version),
{
}

/// What is read of a tower does not depend on what follows it in the buffer.
pub proof fn lemma_parse_node_extends(
    bytes: Seq<u8>,
    longer: Seq<u8>,
    pos: nat,
    version: CourseSaveDataVersion,
)
    requires
        starts_with(longer, bytes),
        spec_parse_node(bytes, pos, version) is Ok,
    ensures
        spec_parse_node(longer, pos, version) == spec_parse_node(bytes, pos, version),
    decreases remaining(bytes, pos), 0nat,
{
    lemma_parse_tile_extends(bytes, longer, pos + 8, version);
    let tile = spec_parse_tile(bytes, pos + 8, version).unwrap().1;
    let count = spec_item_count(le_i32(bytes, pos + 4)).unwrap();
    lemma_parse_nodes_extends(bytes, longer, pos + 8 + tile, count, version);
}

/// What is read of towers does not depend on what follows them in the buffer.
pub proof fn lemma_parse_nodes_extends(
    bytes: Seq<u8>,
    longer: Seq<u8>,
    pos: nat,
    n: nat,
    version: CourseSaveDataVersion,
)
    requires
        starts_with(longer, bytes),
        spec_parse_nodes(bytes, pos, n, version) is Ok,
    ensures
        spec_parse_nodes(longer, pos, n, version) == spec_parse_nodes(bytes, pos, n, version),
    decreases remaining(bytes, pos), 1 + n,
{
    if n > 0 {
        lemma_parse_nodes_extends(bytes, longer, pos, (n - 1) as nat, version);
        let used = spec_parse_nodes(bytes, pos, (n - 1) as nat, version).unwrap().1;
        lemma_parse_node_extends(bytes, longer, pos + used, version);
    }
}

/// What is read of a cell does not depend on what follows it in the buffer.
pub proof fn lemma_parse_cell_extends(
    bytes: Seq<u8>,
    longer: Seq<u8>,
    pos: nat,
    version: CourseSaveDataVersion,
)
    requires
        starts_with(longer, bytes),
        spec_parse_cell(bytes, pos, version) is Ok,
    ensures
        spec_parse_cell(longer, pos, version) == spec_parse_cell(bytes, pos, version),
{
    reveal(spec_parse_cell);
    lemma_parse_node_extends(bytes, longer, pos + 8, version);
}

/// What is read of cells does not depend on what follows them in the buffer.
pub proof fn lemma_parse_cells_extends(
    bytes: Seq<u8>,
    longer: Seq<u8>,
    pos: nat,
    n: nat,
    version: CourseSaveDataVersion,
)
    requires
        starts_with(longer, bytes),
        spec_parse_cells(bytes, pos, n, version) is Ok,
    ensures
        spec_parse_cells(longer, pos, n, version) == spec_parse_cells(bytes, pos, n, version),
    decreases n,
{
    if n > 0 {
        lemma_parse_cells_extends(bytes, longer, pos, (n - 1) as nat, version);
        let used = spec_parse_cells(bytes, pos, (n - 1) as nat, version).unwrap().1;
        lemma_parse_cell_extends(bytes, longer, pos + used, version);
    }
}

/// What is read of a layer does not depend on what follows it in the buffer.
pub proof fn lemma_parse_layer_extends(
    bytes: Seq<u8>,
    longer: Seq<u8>,
    pos: nat,
    version: CourseSaveDataVersion,
)
    requires
        starts_with(longer, bytes),
        spec_parse_layer(bytes, pos, version) is Ok,
    ensures
        spec_parse_layer(longer, pos, version) == spec_parse_layer(bytes, pos, version),
{
    reveal(spec_parse_layer);
    let count = spec_item_count(le_i32(bytes, pos + 20)).unwrap();
    lemma_parse_cells_extends(bytes, longer, pos + 24, count, version);
}

/// What is read of layers does not depend on what follows them in the buffer.
pub proof fn lemma_parse_layers_extends(
    bytes: Seq<u8>,
    longer: Seq<u8>,
    pos: nat,
    n: nat,
    version: CourseSaveDataVersion,
)
    requires
        starts_with(longer, bytes),
        spec_parse_layers(bytes, pos, n, version) is Ok,
    ensures
        spec_parse_layers(longer, pos, n, version) == spec_parse_layers(bytes, pos, n, version),
    decreases n,
{
    if n > 0 {
        lemma_parse_layers_extends(bytes, longer, pos, (n - 1) as nat, version);
        let used = spec_parse_layers(bytes, pos, (n - 1) as nat, version).unwrap().1;
        lemma_parse_layer_extends(bytes, longer, pos + used, version);
    }
}

} // verus!
