//! Reading the items that only the format of 2019 stores: layers whose
//! cells list the kinds of their tiles, and ropes.
use crate::binary32::Binary32;
use crate::bytes::{
    available, le_i32, le_u32, read_as, read_i32, read_u32, starts_with, DecodeError, Parsed,
};
use crate::decode::tower::{item_count, parse_hex, read_view_as, spec_item_count};
use crate::hex::HexVector;
use crate::layer::{LayerKind, TileKind};
use crate::ziplineadded2019::{
    cell_views, layer_views, CellConstructionData, CellConstructionDataView,
    LayerConstructionData, LayerConstructionDataView, RopeConstructionData, RopeKind,
};
use vstd::prelude::*;

verus! {

/// What reading the kind of a tile at `pos` gives.
#[verifier::opaque]
pub open spec fn spec_parse_tile_kind(bytes: Seq<u8>, pos: nat) -> Parsed<TileKind> {
    TileKind::spec_parse(bytes, pos)
}

/// Reads the kind of a tile at `pos`.
pub fn parse_tile_kind(bytes: &[u8], pos: usize) -> (result: Result<(TileKind, usize), DecodeError>)
    ensures
        read_as(result, spec_parse_tile_kind(bytes@, pos as nat), bytes@, pos),
{
    reveal(spec_parse_tile_kind);
    TileKind::parse(bytes, pos)
}

/// What reading the first `n` of the kinds of tiles that are stored from `pos` on gives:
/// their values and the number of bytes that they take together.
pub open spec fn spec_parse_tile_kinds(bytes: Seq<u8>, pos: nat, n: nat) -> Parsed<Seq<TileKind>>
    decreases n,
{
    if n == 0 {
        Ok((Seq::empty(), 0))
    } else {
        match spec_parse_tile_kinds(bytes, pos, (n - 1) as nat) {
            Err(e) => Err(e),
            Ok((items, used)) => match spec_parse_tile_kind(bytes, pos + used) {
                Err(e) => Err(e),
                Ok((item, more)) => Ok((items.push(item), used + more)),
            },
        }
    }
}

/// Once the kind of a tile cannot be read, neither can the kinds of tiles after it.
pub proof fn lemma_parse_tile_kinds_fails(bytes: Seq<u8>, pos: nat, n: nat, m: nat)
    requires
        n <= m,
        spec_parse_tile_kinds(bytes, pos, n) is Err,
    ensures
        spec_parse_tile_kinds(bytes, pos, m) == spec_parse_tile_kinds(bytes, pos, n),
    decreases m,
{
    if n < m {
        lemma_parse_tile_kinds_fails(bytes, pos, n, (m - 1) as nat);
    }
}

/// Reads `count` kinds of tiles from `pos` on.
pub(crate) fn parse_tile_kinds(bytes: &[u8], pos: usize, count: usize) -> (result: Result<
    (Vec<TileKind>, usize),
    DecodeError,
>)
    requires
        pos <= bytes.len(),
    ensures
        match spec_parse_tile_kinds(bytes@, pos as nat, count as nat) {
            Ok((items, used)) => result matches Ok((read, next)) && read@ == items && next == pos
                + used && next <= bytes.len(),
            Err(e) => result matches Err(reason) && reason == e,
        },
{
    let mut items: Vec<TileKind> = Vec::new();
    let mut next: usize = pos;
    let mut i: usize = 0;
    assert(items@ =~= Seq::<TileKind>::empty());
    while i < count
        invariant
            i <= count,
            pos <= next <= bytes.len(),
            spec_parse_tile_kinds(bytes@, pos as nat, i as nat) == Ok::<(Seq<TileKind>, nat),
                DecodeError>(
                (items@, (next - pos) as nat),
            ),
        decreases count - i,
    {
        match parse_tile_kind(bytes, next) {
            Ok((item, after)) => {
                let ghost before = items@;
                items.push(item);
                next = after;
            },
            Err(e) => {
                proof {
                    lemma_parse_tile_kinds_fails(bytes@, pos as nat, (i + 1) as nat, count as nat);
                }
                return Err(e);
            },
        }
        i += 1;
    }
    Ok((items, next))
}

/// What reading a cell at `pos` gives: its rotation, its position on its
/// layer, the number of its tiles, and the kinds of its tiles.
#[verifier::opaque]
pub open spec fn spec_parse_cell(bytes: Seq<u8>, pos: nat) -> Parsed<CellConstructionDataView> {
    if !available(bytes, pos, 16) {
        Err(DecodeError::Truncated)
    } else {
        match spec_item_count(le_i32(bytes, pos + 12)) {
            Err(e) => Err(e),
            Ok(count) => match spec_parse_tile_kinds(bytes, pos + 16, count) {
                Err(e) => Err(e),
                Ok((tile_kinds, kinds)) => Ok(
                    (
                        CellConstructionDataView {
                            hex_rotation: le_i32(bytes, pos),
                            local_hex_position: HexVector {
                                y: le_i32(bytes, pos + 4),
                                x: le_i32(bytes, pos + 8),
                            },
                            tile_kinds,
                        },
                        16 + kinds,
                    ),
                ),
            },
        }
    }
}

/// Reads the cell at `pos`.
pub(crate) fn parse_cell(bytes: &[u8], pos: usize) -> (result: Result<
    (CellConstructionData, usize),
    DecodeError,
>)
    requires
        pos <= bytes.len(),
    ensures
        read_view_as(result, spec_parse_cell(bytes@, pos as nat), bytes@, pos),
{
    reveal(spec_parse_cell);
    if bytes.len() - pos < 16 {
        return Err(DecodeError::Truncated);
    }
    let (hex_rotation, next) = read_i32(bytes, pos)?;
    let (local_hex_position, next) = parse_hex(bytes, next)?;
    let (tile_kind_count, next) = read_i32(bytes, next)?;
    let count = item_count(tile_kind_count)?;
    let (tile_kinds, next) = parse_tile_kinds(bytes, next, count)?;
    Ok((CellConstructionData { hex_rotation, local_hex_position, tile_kinds }, next))
}

/// What reading the first `n` of the cells that are stored from `pos` on gives:
/// their values and the number of bytes that they take together.
pub open spec fn spec_parse_cells(
    bytes: Seq<u8>,
    pos: nat,
    n: nat,
) -> Parsed<Seq<CellConstructionDataView>>
    decreases n,
{
    if n == 0 {
        Ok((Seq::empty(), 0))
    } else {
        match spec_parse_cells(bytes, pos, (n - 1) as nat) {
            Err(e) => Err(e),
            Ok((items, used)) => match spec_parse_cell(bytes, pos + used) {
                Err(e) => Err(e),
                Ok((item, more)) => Ok((items.push(item), used + more)),
            },
        }
    }
}

/// Once a cell cannot be read, neither can the cells after it.
pub proof fn lemma_parse_cells_fails(bytes: Seq<u8>, pos: nat, n: nat, m: nat)
    requires
        n <= m,
        spec_parse_cells(bytes, pos, n) is Err,
    ensures
        spec_parse_cells(bytes, pos, m) == spec_parse_cells(bytes, pos, n),
    decreases m,
{
    if n < m {
        lemma_parse_cells_fails(bytes, pos, n, (m - 1) as nat);
    }
}

/// Reads `count` cells from `pos` on.
pub(crate) fn parse_cells(bytes: &[u8], pos: usize, count: usize) -> (result: Result<
    (Vec<CellConstructionData>, usize),
    DecodeError,
>)
    requires
        pos <= bytes.len(),
    ensures
        match spec_parse_cells(bytes@, pos as nat, count as nat) {
            Ok((items, used)) => result matches Ok((read, next)) && cell_views(read@) == items
                && next == pos
                + used && next <= bytes.len(),
            Err(e) => result matches Err(reason) && reason == e,
        },
{
    let mut items: Vec<CellConstructionData> = Vec::new();
    let mut next: usize = pos;
    let mut i: usize = 0;
    assert(cell_views(items@) =~= Seq::<CellConstructionDataView>::empty());
    while i < count
        invariant
            i <= count,
            pos <= next <= bytes.len(),
            spec_parse_cells(bytes@, pos as nat, i as nat) == Ok::<(Seq<CellConstructionDataView>,
                nat), DecodeError>(
                (cell_views(items@), (next - pos) as nat),
            ),
        decreases count - i,
    {
        match parse_cell(bytes, next) {
            Ok((item, after)) => {
                let ghost before = items@;
                items.push(item);
                next = after;
                assert(cell_views(items@) =~= cell_views(before).push(item@));
            },
            Err(e) => {
                proof {
                    lemma_parse_cells_fails(bytes@, pos as nat, (i + 1) as nat, count as nat);
                }
                return Err(e);
            },
        }
        i += 1;
    }
    Ok((items, next))
}

/// What reading a layer at `pos` gives: its identifier, its kind, its
/// height, its position on the board, the number of its cells, and its
/// cells.
#[verifier::opaque]
pub open spec fn spec_parse_layer(bytes: Seq<u8>, pos: nat) -> Parsed<LayerConstructionDataView> {
    if !available(bytes, pos, 4) {
        Err(DecodeError::Truncated)
    } else {
        match LayerKind::spec_parse(bytes, pos + 4) {
            Err(e) => Err(e),
            Ok((layer_kind, _)) => if !available(bytes, pos + 8, 16) {
                Err(DecodeError::Truncated)
            } else {
                match spec_item_count(le_i32(bytes, pos + 20)) {
                    Err(e) => Err(e),
                    Ok(count) => match spec_parse_cells(bytes, pos + 24, count) {
                        Err(e) => Err(e),
                        Ok((cell_construction_data, cells)) => Ok(
                            (
                                LayerConstructionDataView {
                                    layer_id: le_i32(bytes, pos),
                                    layer_kind,
                                    layer_height: Binary32 { bits: le_u32(bytes, pos + 8) },
                                    hex_vector: HexVector {
                                        y: le_i32(bytes, pos + 12),
                                        x: le_i32(bytes, pos + 16),
                                    },
                                    cell_construction_data,
                                },
                                24 + cells,
                            ),
                        ),
                    },
                }
            },
        }
    }
}

/// Reads the layer at `pos`.
pub(crate) fn parse_layer(bytes: &[u8], pos: usize) -> (result: Result<
    (LayerConstructionData, usize),
    DecodeError,
>)
    requires
        pos <= bytes.len(),
    ensures
        read_view_as(result, spec_parse_layer(bytes@, pos as nat), bytes@, pos),
{
    reveal(spec_parse_layer);
    let (layer_id, next) = read_i32(bytes, pos)?;
    let (layer_kind, next) = LayerKind::parse(bytes, next)?;
    if bytes.len() - next < 16 {
        return Err(DecodeError::Truncated);
    }
    let (height_bits, next) = read_u32(bytes, next)?;
    let (hex_vector, next) = parse_hex(bytes, next)?;
    let (cell_count, next) = read_i32(bytes, next)?;
    let count = item_count(cell_count)?;
    let (cell_construction_data, next) = parse_cells(bytes, next, count)?;
    Ok(
        (
            LayerConstructionData {
                layer_id,
                layer_kind,
                layer_height: Binary32::from_bits(height_bits),
                hex_vector,
                cell_construction_data,
            },
            next,
        ),
    )
}

/// What reading the first `n` of the layers that are stored from `pos` on gives:
/// their values and the number of bytes that they take together.
pub open spec fn spec_parse_layers(
    bytes: Seq<u8>,
    pos: nat,
    n: nat,
) -> Parsed<Seq<LayerConstructionDataView>>
    decreases n,
{
    if n == 0 {
        Ok((Seq::empty(), 0))
    } else {
        match spec_parse_layers(bytes, pos, (n - 1) as nat) {
            Err(e) => Err(e),
            Ok((items, used)) => match spec_parse_layer(bytes, pos + used) {
                Err(e) => Err(e),
                Ok((item, more)) => Ok((items.push(item), used + more)),
            },
        }
    }
}

/// Once a layer cannot be read, neither can the layers after it.
pub proof fn lemma_parse_layers_fails(bytes: Seq<u8>, pos: nat, n: nat, m: nat)
    requires
        n <= m,
        spec_parse_layers(bytes, pos, n) is Err,
    ensures
        spec_parse_layers(bytes, pos, m) == spec_parse_layers(bytes, pos, n),
    decreases m,
{
    if n < m {
        lemma_parse_layers_fails(bytes, pos, n, (m - 1) as nat);
    }
}

/// Reads `count` layers from `pos` on.
pub(crate) fn parse_layers(bytes: &[u8], pos: usize, count: usize) -> (result: Result<
    (Vec<LayerConstructionData>, usize),
    DecodeError,
>)
    requires
        pos <= bytes.len(),
    ensures
        match spec_parse_layers(bytes@, pos as nat, count as nat) {
            Ok((items, used)) => result matches Ok((read, next)) && layer_views(read@) == items
                && next == pos
                + used && next <= bytes.len(),
            Err(e) => result matches Err(reason) && reason == e,
        },
{
    let mut items: Vec<LayerConstructionData> = Vec::new();
    let mut next: usize = pos;
    let mut i: usize = 0;
    assert(layer_views(items@) =~= Seq::<LayerConstructionDataView>::empty());
    while i < count
        invariant
            i <= count,
            pos <= next <= bytes.len(),
            spec_parse_layers(bytes@, pos as nat, i as nat)
                == Ok::<(Seq<LayerConstructionDataView>, nat), DecodeError>(
                (layer_views(items@), (next - pos) as nat),
            ),
        decreases count - i,
    {
        match parse_layer(bytes, next) {
            Ok((item, after)) => {
                let ghost before = items@;
                items.push(item);
                next = after;
                assert(layer_views(items@) =~= layer_views(before).push(item@));
            },
            Err(e) => {
                proof {
                    lemma_parse_layers_fails(bytes@, pos as nat, (i + 1) as nat, count as nat);
                }
                return Err(e);
            },
        }
        i += 1;
    }
    Ok((items, next))
}

/// What reading a rope at `pos` gives: for each of its two ends the index of
/// the layer and the place on it, then its kind.
#[verifier::opaque]
pub open spec fn spec_parse_rope(bytes: Seq<u8>, pos: nat) -> Parsed<RopeConstructionData> {
    if !available(bytes, pos, 24) {
        Err(DecodeError::Truncated)
    } else {
        match RopeKind::spec_parse(bytes, pos + 24) {
            Err(e) => Err(e),
            Ok((rope_kind, _)) => Ok(
                (
                    RopeConstructionData {
                        start_tile_layer_index: le_u32(bytes, pos),
                        start_tile_local_hex_pos: HexVector {
                            y: le_i32(bytes, pos + 4),
                            x: le_i32(bytes, pos + 8),
                        },
                        end_tile_layer_index: le_u32(bytes, pos + 12),
                        end_tile_local_hex_pos: HexVector {
                            y: le_i32(bytes, pos + 16),
                            x: le_i32(bytes, pos + 20),
                        },
                        rope_kind,
                    },
                    28,
                ),
            ),
        }
    }
}

/// Reads the rope at `pos`.
pub(crate) fn parse_rope(bytes: &[u8], pos: usize) -> (result: Result<
    (RopeConstructionData, usize),
    DecodeError,
>)
    requires
        pos <= bytes.len(),
    ensures
        read_as(result, spec_parse_rope(bytes@, pos as nat), bytes@, pos),
{
    reveal(spec_parse_rope);
    if bytes.len() - pos < 24 {
        return Err(DecodeError::Truncated);
    }
    let (start_tile_layer_index, next) = read_u32(bytes, pos)?;
    let (start_tile_local_hex_pos, next) = parse_hex(bytes, next)?;
    let (end_tile_layer_index, next) = read_u32(bytes, next)?;
    let (end_tile_local_hex_pos, next) = parse_hex(bytes, next)?;
    let (rope_kind, next) = RopeKind::parse(bytes, next)?;
    Ok(
        (
            RopeConstructionData {
                start_tile_layer_index,
                start_tile_local_hex_pos,
                end_tile_layer_index,
                end_tile_local_hex_pos,
                rope_kind,
            },
            next,
        ),
    )
}

/// What reading the first `n` of the ropes that are stored from `pos` on gives:
/// their values and the number of bytes that they take together.
pub open spec fn spec_parse_ropes(
    bytes: Seq<u8>,
    pos: nat,
    n: nat,
) -> Parsed<Seq<RopeConstructionData>>
    decreases n,
{
    if n == 0 {
        Ok((Seq::empty(), 0))
    } else {
        match spec_parse_ropes(bytes, pos, (n - 1) as nat) {
            Err(e) => Err(e),
            Ok((items, used)) => match spec_parse_rope(bytes, pos + used) {
                Err(e) => Err(e),
                Ok((item, more)) => Ok((items.push(item), used + more)),
            },
        }
    }
}

/// Once a rope cannot be read, neither can the ropes after it.
pub proof fn lemma_parse_ropes_fails(bytes: Seq<u8>, pos: nat, n: nat, m: nat)
    requires
        n <= m,
        spec_parse_ropes(bytes, pos, n) is Err,
    ensures
        spec_parse_ropes(bytes, pos, m) == spec_parse_ropes(bytes, pos, n),
    decreases m,
{
    if n < m {
        lemma_parse_ropes_fails(bytes, pos, n, (m - 1) as nat);
    }
}

/// Reads `count` ropes from `pos` on.
pub(crate) fn parse_ropes(bytes: &[u8], pos: usize, count: usize) -> (result: Result<
    (Vec<RopeConstructionData>, usize),
    DecodeError,
>)
    requires
        pos <= bytes.len(),
    ensures
        match spec_parse_ropes(bytes@, pos as nat, count as nat) {
            Ok((items, used)) => result matches Ok((read, next)) && read@ == items && next == pos
                + used && next <= bytes.len(),
            Err(e) => result matches Err(reason) && reason == e,
        },
{
    let mut items: Vec<RopeConstructionData> = Vec::new();
    let mut next: usize = pos;
    let mut i: usize = 0;
    assert(items@ =~= Seq::<RopeConstructionData>::empty());
    while i < count
        invariant
            i <= count,
            pos <= next <= bytes.len(),
            spec_parse_ropes(bytes@, pos as nat, i as nat) == Ok::<(Seq<RopeConstructionData>,
                nat), DecodeError>(
                (items@, (next - pos) as nat),
            ),
        decreases count - i,
    {
        match parse_rope(bytes, next) {
            Ok((item, after)) => {
                let ghost before = items@;
                items.push(item);
                next = after;
            },
            Err(e) => {
                proof {
                    lemma_parse_ropes_fails(bytes@, pos as nat, (i + 1) as nat, count as nat);
                }
                return Err(e);
            },
        }
        i += 1;
    }
    Ok((items, next))
}

/// What is read of the kind of a tile does not depend on what follows it in
/// the buffer.
pub proof fn lemma_parse_tile_kind_extends(bytes: Seq<u8>, longer: Seq<u8>, pos: nat)
    requires
        starts_with(longer, bytes),
        spec_parse_tile_kind(bytes, pos) is Ok,
    ensures
        spec_parse_tile_kind(longer, pos) == spec_parse_tile_kind(bytes, pos),
{
    reveal(spec_parse_tile_kind);
}

/// What is read of kinds of tiles does not depend on what follows them in the buffer.
pub proof fn lemma_parse_tile_kinds_extends(bytes: Seq<u8>, longer: Seq<u8>, pos: nat, n: nat)
    requires
        starts_with(longer, bytes),
        spec_parse_tile_kinds(bytes, pos, n) is Ok,
    ensures
        spec_parse_tile_kinds(longer, pos, n) == spec_parse_tile_kinds(bytes, pos, n),
    decreases n,
{
    if n > 0 {
        lemma_parse_tile_kinds_extends(bytes, longer, pos, (n - 1) as nat);
        let used = spec_parse_tile_kinds(bytes, pos, (n - 1) as nat).unwrap().1;
        lemma_parse_tile_kind_extends(bytes, longer, pos + used);
    }
}

/// What is read of a cell does not depend on what follows it in the buffer.
pub proof fn lemma_parse_cell_extends(bytes: Seq<u8>, longer: Seq<u8>, pos: nat)
    requires
        starts_with(longer, bytes),
        spec_parse_cell(bytes, pos) is Ok,
    ensures
        spec_parse_cell(longer, pos) == spec_parse_cell(bytes, pos),
{
    reveal(spec_parse_cell);
    let count = spec_item_count(le_i32(bytes, pos + 12)).unwrap();
    lemma_parse_tile_kinds_extends(bytes, longer, pos + 16, count);
}

/// What is read of cells does not depend on what follows them in the buffer.
pub proof fn lemma_parse_cells_extends(bytes: Seq<u8>, longer: Seq<u8>, pos: nat, n: nat)
    requires
        starts_with(longer, bytes),
        spec_parse_cells(bytes, pos, n) is Ok,
    ensures
        spec_parse_cells(longer, pos, n) == spec_parse_cells(bytes, pos, n),
    decreases n,
{
    if n > 0 {
        lemma_parse_cells_extends(bytes, longer, pos, (n - 1) as nat);
        let used = spec_parse_cells(bytes, pos, (n - 1) as nat).unwrap().1;
        lemma_parse_cell_extends(bytes, longer, pos + used);
    }
}

/// What is read of a layer does not depend on what follows it in the buffer.
pub proof fn lemma_parse_layer_extends(bytes: Seq<u8>, longer: Seq<u8>, pos: nat)
    requires
        starts_with(longer, bytes),
        spec_parse_layer(bytes, pos) is Ok,
    ensures
        spec_parse_layer(longer, pos) == spec_parse_layer(bytes, pos),
{
    reveal(spec_parse_layer);
    let count = spec_item_count(le_i32(bytes, pos + 20)).unwrap();
    lemma_parse_cells_extends(bytes, longer, pos + 24, count);
}

/// What is read of layers does not depend on what follows them in the buffer.
pub proof fn lemma_parse_layers_extends(bytes: Seq<u8>, longer: Seq<u8>, pos: nat, n: nat)
    requires
        starts_with(longer, bytes),
        spec_parse_layers(bytes, pos, n) is Ok,
    ensures
        spec_parse_layers(longer, pos, n) == spec_parse_layers(bytes, pos, n),
    decreases n,
{
    if n > 0 {
        lemma_parse_layers_extends(bytes, longer, pos, (n - 1) as nat);
        let used = spec_parse_layers(bytes, pos, (n - 1) as nat).unwrap().1;
        lemma_parse_layer_extends(bytes, longer, pos + used);
    }
}

/// What is read of a rope does not depend on what follows it in the buffer.
pub proof fn lemma_parse_rope_extends(bytes: Seq<u8>, longer: Seq<u8>, pos: nat)
    requires
        starts_with(longer, bytes),
        spec_parse_rope(bytes, pos) is Ok,
    ensures
        spec_parse_rope(longer, pos) == spec_parse_rope(bytes, pos),
{
    reveal(spec_parse_rope);
}

/// What is read of ropes does not depend on what follows them in the buffer.
pub proof fn lemma_parse_ropes_extends(bytes: Seq<u8>, longer: Seq<u8>, pos: nat, n: nat)
    requires
        starts_with(longer, bytes),
        spec_parse_ropes(bytes, pos, n) is Ok,
    ensures
        spec_parse_ropes(longer, pos, n) == spec_parse_ropes(bytes, pos, n),
    decreases n,
{
    if n > 0 {
        lemma_parse_ropes_extends(bytes, longer, pos, (n - 1) as nat);
        let used = spec_parse_ropes(bytes, pos, (n - 1) as nat).unwrap().1;
        lemma_parse_rope_extends(bytes, longer, pos + used);
    }
}

} // verus!
