//! Reading walls with their balconies, rails and pillars.
use crate::binary32::Binary32;
use crate::bytes::{
    available, le_i32, le_u32, read_as, read_bool, read_i32, read_u32, spec_read_bool,
    starts_with, DecodeError, Parsed,
};
use crate::course::CourseSaveDataVersion;
use crate::decode::tower::{
    item_count, lemma_parse_cell_extends, parse_cell, parse_hex, read_view_as, spec_item_count,
    spec_parse_cell,
};
use crate::hex::HexVector;
use crate::pillar::PillarConstructionData;
use crate::rail::{RailConstructionData, RailConstructionExitIdentifier, RailKind};
use crate::wall::{
    balcony_views, wall_views, WallBalconyConstructionData, WallBalconyConstructionDataView,
    WallConstructionData, WallConstructionDataView, WallCoordinate, WallSide,
};
use vstd::prelude::*;

verus! {

/// What reading a balcony at `pos` gives: its identifier, the side of the
/// wall on which it hangs, its place on the wall, whether a cell follows,
/// and that cell.
#[verifier::opaque]
pub open spec fn spec_parse_balcony(
    bytes: Seq<u8>,
    pos: nat,
    version: CourseSaveDataVersion,
) -> Parsed<WallBalconyConstructionDataView> {
    if !available(bytes, pos, 4) {
        Err(DecodeError::Truncated)
    } else {
        match WallSide::spec_parse(bytes, pos + 4) {
            Err(e) => Err(e),
            Ok((wall_side, _)) => if !available(bytes, pos + 8, 8) {
                Err(DecodeError::Truncated)
            } else {
                let retainer_id = le_i32(bytes, pos);
                let wall_coordinate = WallCoordinate {
                    column: le_i32(bytes, pos + 8),
                    row: le_i32(bytes, pos + 12),
                };
                match spec_read_bool(bytes, pos + 16) {
                    Err(e) => Err(e),
                    Ok((has_cell, _)) => if !has_cell {
                        Ok(
                            (
                                WallBalconyConstructionDataView {
                                    retainer_id,
                                    wall_side,
                                    wall_coordinate,
                                    cell_construction_datas: None,
                                },
                                17,
                            ),
                        )
                    } else {
                        match spec_parse_cell(bytes, pos + 17, version) {
                            Err(e) => Err(e),
                            Ok((cell, used)) => Ok(
                                (
                                    WallBalconyConstructionDataView {
                                        retainer_id,
                                        wall_side,
                                        wall_coordinate,
                                        cell_construction_datas: Some(cell),
                                    },
                                    17 + used,
                                ),
                            ),
                        }
                    },
                }
            },
        }
    }
}

/// Reads the balcony at `pos`.
pub(crate) fn parse_balcony(
    bytes: &[u8],
    pos: usize,
    version: CourseSaveDataVersion,
) -> (result: Result<
    (WallBalconyConstructionData, usize),
    DecodeError,
>)
    requires
        pos <= bytes.len(),
    ensures
        read_view_as(result, spec_parse_balcony(bytes@, pos as nat, version), bytes@, pos),
{
    reveal(spec_parse_balcony);
    let (retainer_id, next) = read_i32(bytes, pos)?;
    let (wall_side, next) = WallSide::parse(bytes, next)?;
    if bytes.len() - next < 8 {
        return Err(DecodeError::Truncated);
    }
    let (column, next) = read_i32(bytes, next)?;
    let (row, next) = read_i32(bytes, next)?;
    let (has_cell_construction_data, next) = read_bool(bytes, next)?;
    let wall_coordinate = WallCoordinate { column, row };
    if has_cell_construction_data {
        let (cell, next) = parse_cell(bytes, next, version)?;
        Ok(
            (
                WallBalconyConstructionData {
                    retainer_id,
                    wall_side,
                    wall_coordinate,
                    cell_construction_datas: Some(cell),
                },
                next,
            ),
        )
    } else {
        Ok(
            (
                WallBalconyConstructionData {
                    retainer_id,
                    wall_side,
                    wall_coordinate,
                    cell_construction_datas: None,
                },
                next,
            ),
        )
    }
}

/// What reading the first `n` of the balconies that are stored from `pos` on gives:
/// their values and the number of bytes that they take together.
pub open spec fn spec_parse_balconies(
    bytes: Seq<u8>,
    pos: nat,
    n: nat,
    version: CourseSaveDataVersion,
) -> Parsed<Seq<WallBalconyConstructionDataView>>
    decreases n,
{
    if n == 0 {
        Ok((Seq::empty(), 0))
    } else {
        match spec_parse_balconies(bytes, pos, (n - 1) as nat, version) {
            Err(e) => Err(e),
            Ok((items, used)) => match spec_parse_balcony(bytes, pos + used, version) {
                Err(e) => Err(e),
                Ok((item, more)) => Ok((items.push(item), used + more)),
            },
        }
    }
}

/// Once a balcony cannot be read, neither can the balconies after it.
pub proof fn lemma_parse_balconies_fails(
    bytes: Seq<u8>,
    pos: nat,
    n: nat,
    m: nat,
    version: CourseSaveDataVersion,
)
    requires
        n <= m,
        spec_parse_balconies(bytes, pos, n, version) is Err,
    ensures
        spec_parse_balconies(bytes, pos, m, version) == spec_parse_balconies(bytes, pos, n,
            version),
    decreases m,
{
    if n < m {
        lemma_parse_balconies_fails(bytes, pos, n, (m - 1) as nat, version);
    }
}

/// Reads `count` balconies from `pos` on.
pub(crate) fn parse_balconies(
    bytes: &[u8],
    pos: usize,
    count: usize,
    version: CourseSaveDataVersion,
) -> (result: Result<
    (Vec<WallBalconyConstructionData>, usize),
    DecodeError,
>)
    requires
        pos <= bytes.len(),
    ensures
        match spec_parse_balconies(bytes@, pos as nat, count as nat, version) {
            Ok((items, used)) => result matches Ok((read, next)) && balcony_views(read@)
                == items && next == pos
                + used && next <= bytes.len(),
            Err(e) => result matches Err(reason) && reason == e,
        },
{
    let mut items: Vec<WallBalconyConstructionData> = Vec::new();
    let mut next: usize = pos;
    let mut i: usize = 0;
    assert(balcony_views(items@) =~= Seq::<WallBalconyConstructionDataView>::empty());
    while i < count
        invariant
            i <= count,
            pos <= next <= bytes.len(),
            spec_parse_balconies(bytes@, pos as nat, i as nat, version)
                == Ok::<(Seq<WallBalconyConstructionDataView>, nat), DecodeError>(
                (balcony_views(items@), (next - pos) as nat),
            ),
        decreases count - i,
    {
        match parse_balcony(bytes, next, version) {
            Ok((item, after)) => {
                let ghost before = items@;
                items.push(item);
                next = after;
                assert(balcony_views(items@) =~= balcony_views(before).push(item@));
            },
            Err(e) => {
                proof {
                    lemma_parse_balconies_fails(bytes@, pos as nat, (i + 1) as nat, count as nat,
                        version);
                }
                return Err(e);
            },
        }
        i += 1;
    }
    Ok((items, next))
}

/// What reading a wall at `pos` gives: for each of its two towers the
/// retainer that holds it and its place on that retainer, then the number of
/// its balconies, and its balconies.
#[verifier::opaque]
pub open spec fn spec_parse_wall(
    bytes: Seq<u8>,
    pos: nat,
    version: CourseSaveDataVersion,
) -> Parsed<
    WallConstructionDataView,
> {
    if !available(bytes, pos, 28) {
        Err(DecodeError::Truncated)
    } else {
        match spec_item_count(le_i32(bytes, pos + 24)) {
            Err(e) => Err(e),
            Ok(count) => match spec_parse_balconies(bytes, pos + 28, count, version) {
                Err(e) => Err(e),
                Ok((balcony_construction_datas, balconies)) => Ok(
                    (
                        WallConstructionDataView {
                            lower_stacker_tower_1_retainer_id: le_i32(bytes, pos),
                            lower_stacker_tower_1_local_hex_pos: HexVector {
                                y: le_i32(bytes, pos + 4),
                                x: le_i32(bytes, pos + 8),
                            },
                            lower_stacker_tower_2_retainer_id: le_i32(bytes, pos + 12),
                            lower_stacker_tower_2_local_hex_pos: HexVector {
                                y: le_i32(bytes, pos + 16),
                                x: le_i32(bytes, pos + 20),
                            },
                            balcony_construction_datas,
                        },
                        28 + balconies,
                    ),
                ),
            },
        }
    }
}

/// Reads the wall at `pos`.
pub(crate) fn parse_wall(
    bytes: &[u8],
    pos: usize,
    version: CourseSaveDataVersion,
) -> (result: Result<
    (WallConstructionData, usize),
    DecodeError,
>)
    requires
        pos <= bytes.len(),
    ensures
        read_view_as(result, spec_parse_wall(bytes@, pos as nat, version), bytes@, pos),
{
    reveal(spec_parse_wall);
    if bytes.len() - pos < 28 {
        return Err(DecodeError::Truncated);
    }
    let (lower_stacker_tower_1_retainer_id, next) = read_i32(bytes, pos)?;
    let (lower_stacker_tower_1_local_hex_pos, next) = parse_hex(bytes, next)?;
    let (lower_stacker_tower_2_retainer_id, next) = read_i32(bytes, next)?;
    let (lower_stacker_tower_2_local_hex_pos, next) = parse_hex(bytes, next)?;
    let (balcony_count, next) = read_i32(bytes, next)?;
    let count = item_count(balcony_count)?;
    let (balcony_construction_datas, next) = parse_balconies(bytes, next, count, version)?;
    Ok(
        (
            WallConstructionData {
                lower_stacker_tower_1_retainer_id,
                lower_stacker_tower_1_local_hex_pos,
                lower_stacker_tower_2_retainer_id,
                lower_stacker_tower_2_local_hex_pos,
                balcony_construction_datas,
            },
            next,
        ),
    )
}

/// What reading the first `n` of the walls that are stored from `pos` on gives:
/// their values and the number of bytes that they take together.
pub open spec fn spec_parse_walls(
    bytes: Seq<u8>,
    pos: nat,
    n: nat,
    version: CourseSaveDataVersion,
) -> Parsed<Seq<WallConstructionDataView>>
    decreases n,
{
    if n == 0 {
        Ok((Seq::empty(), 0))
    } else {
        match spec_parse_walls(bytes, pos, (n - 1) as nat, version) {
            Err(e) => Err(e),
            Ok((items, used)) => match spec_parse_wall(bytes, pos + used, version) {
                Err(e) => Err(e),
                Ok((item, more)) => Ok((items.push(item), used + more)),
            },
        }
    }
}

/// Once a wall cannot be read, neither can the walls after it.
pub proof fn lemma_parse_walls_fails(
    bytes: Seq<u8>,
    pos: nat,
    n: nat,
    m: nat,
    version: CourseSaveDataVersion,
)
    requires
        n <= m,
        spec_parse_walls(bytes, pos, n, version) is Err,
    ensures
        spec_parse_walls(bytes, pos, m, version) == spec_parse_walls(bytes, pos, n, version),
    decreases m,
{
    if n < m {
        lemma_parse_walls_fails(bytes, pos, n, (m - 1) as nat, version);
    }
}

/// Reads `count` walls from `pos` on.
pub(crate) fn parse_walls(
    bytes: &[u8],
    pos: usize,
    count: usize,
    version: CourseSaveDataVersion,
) -> (result: Result<
    (Vec<WallConstructionData>, usize),
    DecodeError,
>)
    requires
        pos <= bytes.len(),
    ensures
        match spec_parse_walls(bytes@, pos as nat, count as nat, version) {
            Ok((items, used)) => result matches Ok((read, next)) && wall_views(read@) == items
                && next == pos
                + used && next <= bytes.len(),
            Err(e) => result matches Err(reason) && reason == e,
        },
{
    let mut items: Vec<WallConstructionData> = Vec::new();
    let mut next: usize = pos;
    let mut i: usize = 0;
    assert(wall_views(items@) =~= Seq::<WallConstructionDataView>::empty());
    while i < count
        invariant
            i <= count,
            pos <= next <= bytes.len(),
            spec_parse_walls(bytes@, pos as nat, i as nat, version)
                == Ok::<(Seq<WallConstructionDataView>, nat), DecodeError>(
                (wall_views(items@), (next - pos) as nat),
            ),
        decreases count - i,
    {
        match parse_wall(bytes, next, version) {
            Ok((item, after)) => {
                let ghost before = items@;
                items.push(item);
                next = after;
                assert(wall_views(items@) =~= wall_views(before).push(item@));
            },
            Err(e) => {
                proof {
                    lemma_parse_walls_fails(bytes@, pos as nat, (i + 1) as nat, count as nat,
                        version);
                }
                return Err(e);
            },
        }
        i += 1;
    }
    Ok((items, next))
}

/// The number of bytes that one end of a rail takes.
pub open spec fn spec_exit_size(version: CourseSaveDataVersion) -> nat {
    if version.spec_has_exit_local_pos_y() {
        20
    } else {
        16
    }
}

/// What reading one end of a rail at `pos` gives: the retainer that holds
/// its cell, the place of the cell on that retainer, the side of the cell,
/// and, in two of the formats, a height.
pub open spec fn spec_parse_exit(
    bytes: Seq<u8>,
    pos: nat,
    version: CourseSaveDataVersion,
) -> Parsed<
    RailConstructionExitIdentifier,
> {
    if !available(bytes, pos, spec_exit_size(version)) {
        Err(DecodeError::Truncated)
    } else {
        Ok(
            (
                RailConstructionExitIdentifier {
                    retainer_id: le_i32(bytes, pos),
                    cell_local_hex_pos: HexVector {
                        y: le_i32(bytes, pos + 4),
                        x: le_i32(bytes, pos + 8),
                    },
                    side_hex_rot: le_i32(bytes, pos + 12),
                    exit_local_pos_y: if version.spec_has_exit_local_pos_y() {
                        Some(Binary32 { bits: le_u32(bytes, pos + 16) })
                    } else {
                        None
                    },
                },
                spec_exit_size(version),
            ),
        )
    }
}

/// Reads the end of a rail at `pos`.
pub(crate) fn parse_exit(
    bytes: &[u8],
    pos: usize,
    version: CourseSaveDataVersion,
) -> (result: Result<
    (RailConstructionExitIdentifier, usize),
    DecodeError,
>)
    requires
        pos <= bytes.len(),
    ensures
        read_as(result, spec_parse_exit(bytes@, pos as nat, version), bytes@, pos),
{
    let size: usize = if version.has_exit_local_pos_y() {
        20
    } else {
        16
    };
    if bytes.len() - pos < size {
        return Err(DecodeError::Truncated);
    }
    let (retainer_id, next) = read_i32(bytes, pos)?;
    let (cell_local_hex_pos, next) = parse_hex(bytes, next)?;
    let (side_hex_rot, next) = read_i32(bytes, next)?;
    if version.has_exit_local_pos_y() {
        let (bits, next) = read_u32(bytes, next)?;
        Ok(
            (
                RailConstructionExitIdentifier {
                    retainer_id,
                    cell_local_hex_pos,
                    side_hex_rot,
                    exit_local_pos_y: Some(Binary32::from_bits(bits)),
                },
                next,
            ),
        )
    } else {
        Ok(
            (
                RailConstructionExitIdentifier {
                    retainer_id,
                    cell_local_hex_pos,
                    side_hex_rot,
                    exit_local_pos_y: None,
                },
                next,
            ),
        )
    }
}

/// What reading whether a rail is materialized gives. Only the format of
/// 2019 stores it.
pub open spec fn spec_parse_materialized(
    bytes: Seq<u8>,
    pos: nat,
    version: CourseSaveDataVersion,
) -> Parsed<Option<bool>> {
    if !version.spec_has_materialized() {
        Ok((None, 0))
    } else {
        match spec_read_bool(bytes, pos) {
            Err(e) => Err(e),
            Ok((materialized, used)) => Ok((Some(materialized), used)),
        }
    }
}

/// What reading a rail at `pos` gives: its two ends, its kind, and, in the
/// format of 2019, whether it is materialized.
#[verifier::opaque]
pub open spec fn spec_parse_rail(
    bytes: Seq<u8>,
    pos: nat,
    version: CourseSaveDataVersion,
) -> Parsed<
    RailConstructionData,
> {
    match spec_parse_exit(bytes, pos, version) {
        Err(e) => Err(e),
        Ok((exit_1_identifier, first)) => match spec_parse_exit(bytes, pos + first, version) {
            Err(e) => Err(e),
            Ok((exit_2_identifier, second)) => match RailKind::spec_parse(
                bytes,
                pos + first + second,
            ) {
                Err(e) => Err(e),
                Ok((rail_kind, kind)) => match spec_parse_materialized(
                    bytes,
                    pos + first + second + kind,
                    version,
                ) {
                    Err(e) => Err(e),
                    Ok((materialized, flag)) => Ok(
                        (
                            RailConstructionData {
                                exit_1_identifier,
                                exit_2_identifier,
                                rail_kind,
                                materialized,
                            },
                            first + second + kind + flag,
                        ),
                    ),
                },
            },
        },
    }
}

/// Reads the rail at `pos`.
pub(crate) fn parse_rail(
    bytes: &[u8],
    pos: usize,
    version: CourseSaveDataVersion,
) -> (result: Result<
    (RailConstructionData, usize),
    DecodeError,
>)
    requires
        pos <= bytes.len(),
    ensures
        read_as(result, spec_parse_rail(bytes@, pos as nat, version), bytes@, pos),
{
    reveal(spec_parse_rail);
    let (exit_1_identifier, next) = parse_exit(bytes, pos, version)?;
    let (exit_2_identifier, next) = parse_exit(bytes, next, version)?;
    let (rail_kind, next) = RailKind::parse(bytes, next)?;
    if version.has_materialized() {
        let (materialized, next) = read_bool(bytes, next)?;
        Ok(
            (
                RailConstructionData {
                    exit_1_identifier,
                    exit_2_identifier,
                    rail_kind,
                    materialized: Some(materialized),
                },
                next,
            ),
        )
    } else {
        Ok(
            (
                RailConstructionData {
                    exit_1_identifier,
                    exit_2_identifier,
                    rail_kind,
                    materialized: None,
                },
                next,
            ),
        )
    }
}

/// What reading the first `n` of the rails that are stored from `pos` on gives:
/// their values and the number of bytes that they take together.
pub open spec fn spec_parse_rails(
    bytes: Seq<u8>,
    pos: nat,
    n: nat,
    version: CourseSaveDataVersion,
) -> Parsed<Seq<RailConstructionData>>
    decreases n,
{
    if n == 0 {
        Ok((Seq::empty(), 0))
    } else {
        match spec_parse_rails(bytes, pos, (n - 1) as nat, version) {
            Err(e) => Err(e),
            Ok((items, used)) => match spec_parse_rail(bytes, pos + used, version) {
                Err(e) => Err(e),
                Ok((item, more)) => Ok((items.push(item), used + more)),
            },
        }
    }
}

/// Once a rail cannot be read, neither can the rails after it.
pub proof fn lemma_parse_rails_fails(
    bytes: Seq<u8>,
    pos: nat,
    n: nat,
    m: nat,
    version: CourseSaveDataVersion,
)
    requires
        n <= m,
        spec_parse_rails(bytes, pos, n, version) is Err,
    ensures
        spec_parse_rails(bytes, pos, m, version) == spec_parse_rails(bytes, pos, n, version),
    decreases m,
{
    if n < m {
        lemma_parse_rails_fails(bytes, pos, n, (m - 1) as nat, version);
    }
}

/// Reads `count` rails from `pos` on.
pub(crate) fn parse_rails(
    bytes: &[u8],
    pos: usize,
    count: usize,
    version: CourseSaveDataVersion,
) -> (result: Result<
    (Vec<RailConstructionData>, usize),
    DecodeError,
>)
    requires
        pos <= bytes.len(),
    ensures
        match spec_parse_rails(bytes@, pos as nat, count as nat, version) {
            Ok((items, used)) => result matches Ok((read, next)) && read@ == items && next == pos
                + used && next <= bytes.len(),
            Err(e) => result matches Err(reason) && reason == e,
        },
{
    let mut items: Vec<RailConstructionData> = Vec::new();
    let mut next: usize = pos;
    let mut i: usize = 0;
    assert(items@ =~= Seq::<RailConstructionData>::empty());
    while i < count
        invariant
            i <= count,
            pos <= next <= bytes.len(),
            spec_parse_rails(bytes@, pos as nat, i as nat, version)
                == Ok::<(Seq<RailConstructionData>, nat), DecodeError>(
                (items@, (next - pos) as nat),
            ),
        decreases count - i,
    {
        match parse_rail(bytes, next, version) {
            Ok((item, after)) => {
                let ghost before = items@;
                items.push(item);
                next = after;
            },
            Err(e) => {
                proof {
                    lemma_parse_rails_fails(bytes@, pos as nat, (i + 1) as nat, count as nat,
                        version);
                }
                return Err(e);
            },
        }
        i += 1;
    }
    Ok((items, next))
}

/// What reading a pillar at `pos` gives: its lower layer and its place on
/// it, then its upper layer and its place on it.
#[verifier::opaque]
pub open spec fn spec_parse_pillar(bytes: Seq<u8>, pos: nat) -> Parsed<PillarConstructionData> {
    if !available(bytes, pos, 24) {
        Err(DecodeError::Truncated)
    } else {
        Ok(
            (
                PillarConstructionData {
                    lower_layer_id: le_i32(bytes, pos),
                    lower_cell_local_position: HexVector {
                        y: le_i32(bytes, pos + 4),
                        x: le_i32(bytes, pos + 8),
                    },
                    upper_layer_id: le_i32(bytes, pos + 12),
                    upper_cell_local_position: HexVector {
                        y: le_i32(bytes, pos + 16),
                        x: le_i32(bytes, pos + 20),
                    },
                },
                24,
            ),
        )
    }
}

/// Reads the pillar at `pos`.
pub(crate) fn parse_pillar(bytes: &[u8], pos: usize) -> (result: Result<
    (PillarConstructionData, usize),
    DecodeError,
>)
    requires
        pos <= bytes.len(),
    ensures
        read_as(result, spec_parse_pillar(bytes@, pos as nat), bytes@, pos),
{
    reveal(spec_parse_pillar);
    if bytes.len() - pos < 24 {
        return Err(DecodeError::Truncated);
    }
    let (lower_layer_id, next) = read_i32(bytes, pos)?;
    let (lower_cell_local_position, next) = parse_hex(bytes, next)?;
    let (upper_layer_id, next) = read_i32(bytes, next)?;
    let (upper_cell_local_position, next) = parse_hex(bytes, next)?;
    Ok(
        (
            PillarConstructionData {
                lower_layer_id,
                lower_cell_local_position,
                upper_layer_id,
                upper_cell_local_position,
            },
            next,
        ),
    )
}

/// What reading the first `n` of the pillars that are stored from `pos` on gives:
/// their values and the number of bytes that they take together.
pub open spec fn spec_parse_pillars(
    bytes: Seq<u8>,
    pos: nat,
    n: nat,
) -> Parsed<Seq<PillarConstructionData>>
    decreases n,
{
    if n == 0 {
        Ok((Seq::empty(), 0))
    } else {
        match spec_parse_pillars(bytes, pos, (n - 1) as nat) {
            Err(e) => Err(e),
            Ok((items, used)) => match spec_parse_pillar(bytes, pos + used) {
                Err(e) => Err(e),
                Ok((item, more)) => Ok((items.push(item), used + more)),
            },
        }
    }
}

/// Once a pillar cannot be read, neither can the pillars after it.
pub proof fn lemma_parse_pillars_fails(bytes: Seq<u8>, pos: nat, n: nat, m: nat)
    requires
        n <= m,
        spec_parse_pillars(bytes, pos, n) is Err,
    ensures
        spec_parse_pillars(bytes, pos, m) == spec_parse_pillars(bytes, pos, n),
    decreases m,
{
    if n < m {
        lemma_parse_pillars_fails(bytes, pos, n, (m - 1) as nat);
    }
}

/// Reads `count` pillars from `pos` on.
pub(crate) fn parse_pillars(bytes: &[u8], pos: usize, count: usize) -> (result: Result<
    (Vec<PillarConstructionData>, usize),
    DecodeError,
>)
    requires
        pos <= bytes.len(),
    ensures
        match spec_parse_pillars(bytes@, pos as nat, count as nat) {
            Ok((items, used)) => result matches Ok((read, next)) && read@ == items && next == pos
                + used && next <= bytes.len(),
            Err(e) => result matches Err(reason) && reason == e,
        },
{
    let mut items: Vec<PillarConstructionData> = Vec::new();
    let mut next: usize = pos;
    let mut i: usize = 0;
    assert(items@ =~= Seq::<PillarConstructionData>::empty());
    while i < count
        invariant
            i <= count,
            pos <= next <= bytes.len(),
            spec_parse_pillars(bytes@, pos as nat, i as nat) == Ok::<(Seq<PillarConstructionData>,
                nat), DecodeError>(
                (items@, (next - pos) as nat),
            ),
        decreases count - i,
    {
        match parse_pillar(bytes, next) {
            Ok((item, after)) => {
                let ghost before = items@;
                items.push(item);
                next = after;
            },
            Err(e) => {
                proof {
                    lemma_parse_pillars_fails(bytes@, pos as nat, (i + 1) as nat, count as nat);
                }
                return Err(e);
            },
        }
        i += 1;
    }
    Ok((items, next))
}

/// What is read of a balcony does not depend on what follows it in the
/// buffer.
pub proof fn lemma_parse_balcony_extends(
    bytes: Seq<u8>,
    longer: Seq<u8>,
    pos: nat,
    version: CourseSaveDataVersion,
)
    requires
        starts_with(longer, bytes),
        spec_parse_balcony(bytes, pos, version) is Ok,
    ensures
        spec_parse_balcony(longer, pos, version) == spec_parse_balcony(bytes, pos, version),
{
    reveal(spec_parse_balcony);
    if spec_read_bool(bytes, pos + 16).unwrap().0 {
        lemma_parse_cell_extends(bytes, longer, pos + 17, version);
    }
}

/// What is read of balconies does not depend on what follows them in the buffer.
pub proof fn lemma_parse_balconies_extends(
    bytes: Seq<u8>,
    longer: Seq<u8>,
    pos: nat,
    n: nat,
    version: CourseSaveDataVersion,
)
    requires
        starts_with(longer, bytes),
        spec_parse_balconies(bytes, pos, n, version) is Ok,
    ensures
        spec_parse_balconies(longer, pos, n, version) == spec_parse_balconies(bytes, pos, n,
            version),
    decreases n,
{
    if n > 0 {
        lemma_parse_balconies_extends(bytes, longer, pos, (n - 1) as nat, version);
        let used = spec_parse_balconies(bytes, pos, (n - 1) as nat, version).unwrap().1;
        lemma_parse_balcony_extends(bytes, longer, pos + used, version);
    }
}

/// What is read of a wall does not depend on what follows it in the buffer.
pub proof fn lemma_parse_wall_extends(
    bytes: Seq<u8>,
    longer: Seq<u8>,
    pos: nat,
    version: CourseSaveDataVersion,
)
    requires
        starts_with(longer, bytes),
        spec_parse_wall(bytes, pos, version) is Ok,
    ensures
        spec_parse_wall(longer, pos, version) == spec_parse_wall(bytes, pos, version),
{
    reveal(spec_parse_wall);
    let count = spec_item_count(le_i32(bytes, pos + 24)).unwrap();
    lemma_parse_balconies_extends(bytes, longer, pos + 28, count, version);
}

/// What is read of walls does not depend on what follows them in the buffer.
pub proof fn lemma_parse_walls_extends(
    bytes: Seq<u8>,
    longer: Seq<u8>,
    pos: nat,
    n: nat,
    version: CourseSaveDataVersion,
)
    requires
        starts_with(longer, bytes),
        spec_parse_walls(bytes, pos, n, version) is Ok,
    ensures
        spec_parse_walls(longer, pos, n, version) == spec_parse_walls(bytes, pos, n, version),
    decreases n,
{
    if n > 0 {
        lemma_parse_walls_extends(bytes, longer, pos, (n - 1) as nat, version);
        let used = spec_parse_walls(bytes, pos, (n - 1) as nat, version).unwrap().1;
        lemma_parse_wall_extends(bytes, longer, pos + used, version);
    }
}

/// What is read of a rail does not depend on what follows it in the buffer.
pub proof fn lemma_parse_rail_extends(
    bytes: Seq<u8>,
    longer: Seq<u8>,
    pos: nat,
    version: CourseSaveDataVersion,
)
    requires
        starts_with(longer, bytes),
        spec_parse_rail(bytes, pos, version) is Ok,
    ensures
        spec_parse_rail(longer, pos, version) == spec_parse_rail(bytes, pos, version),
{
    reveal(spec_parse_rail);
}

/// What is read of rails does not depend on what follows them in the buffer.
pub proof fn lemma_parse_rails_extends(
    bytes: Seq<u8>,
    longer: Seq<u8>,
    pos: nat,
    n: nat,
    version: CourseSaveDataVersion,
)
    requires
        starts_with(longer, bytes),
        spec_parse_rails(bytes, pos, n, version) is Ok,
    ensures
        spec_parse_rails(longer, pos, n, version) == spec_parse_rails(bytes, pos, n, version),
    decreases n,
{
    if n > 0 {
        lemma_parse_rails_extends(bytes, longer, pos, (n - 1) as nat, version);
        let used = spec_parse_rails(bytes, pos, (n - 1) as nat, version).unwrap().1;
        lemma_parse_rail_extends(bytes, longer, pos + used, version);
    }
}

/// What is read of a pillar does not depend on what follows it in the
/// buffer.
pub proof fn lemma_parse_pillar_extends(bytes: Seq<u8>, longer: Seq<u8>, pos: nat)
    requires
        starts_with(longer, bytes),
        spec_parse_pillar(bytes, pos) is Ok,
    ensures
        spec_parse_pillar(longer, pos) == spec_parse_pillar(bytes, pos),
{
    reveal(spec_parse_pillar);
}

/// What is read of pillars does not depend on what follows them in the buffer.
pub proof fn lemma_parse_pillars_extends(bytes: Seq<u8>, longer: Seq<u8>, pos: nat, n: nat)
    requires
        starts_with(longer, bytes),
        spec_parse_pillars(bytes, pos, n) is Ok,
    ensures
        spec_parse_pillars(longer, pos, n) == spec_parse_pillars(bytes, pos, n),
    decreases n,
{
    if n > 0 {
        lemma_parse_pillars_extends(bytes, longer, pos, (n - 1) as nat);
        let used = spec_parse_pillars(bytes, pos, (n - 1) as nat).unwrap().1;
        lemma_parse_pillar_extends(bytes, longer, pos + used);
    }
}

} // verus!
