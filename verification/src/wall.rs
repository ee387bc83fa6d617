//! Walls between two stacker towers and the balconies that hang on them.
use crate::bytes::{available, le_u32, read_as, read_u32, DecodeError, Parsed};
use crate::hex::HexVector;
use crate::layer::{CellConstructionData, CellConstructionDataView};
use vstd::prelude::*;

verus! {

/// The kinds of walls, which differ in length.
#[derive(Clone, Copy, Debug, PartialEq, Eq, Structural, Hash)]
pub enum WallKind {
    StraightSmall,
    StraightMedium,
    StraightLarge,
}

impl WallKind {
    /// The number of cells between the two towers that the wall connects.
    pub open spec fn spec_length(self) -> int {
        match self {
            WallKind::StraightSmall => 1,
            WallKind::StraightMedium => 2,
            WallKind::StraightLarge => 3,
        }
    }

    /// The wall of a length, where there is one.
    pub open spec fn spec_straight_of_length(length: int) -> Option<WallKind> {
        if length == 1 {
            Some(WallKind::StraightSmall)
        } else if length == 2 {
            Some(WallKind::StraightMedium)
        } else if length == 3 {
            Some(WallKind::StraightLarge)
        } else {
            None
        }
    }

    /// The number of cells between the two towers that the wall connects.
    pub fn length(&self) -> (length: u32)
        ensures
            length == self.spec_length(),
            WallKind::spec_straight_of_length(length as int) == Some(*self),
    {
        match self {
            WallKind::StraightSmall => 1,
            WallKind::StraightMedium => 2,
            WallKind::StraightLarge => 3,
        }
    }

    /// The wall that spans `length` cells, for a length from 1 to 3.
    pub fn straight_of_length(length: i32) -> (kind: WallKind)
        requires
            1 <= length <= 3,
        ensures
            WallKind::spec_straight_of_length(length as int) == Some(kind),
            kind.spec_length() == length,
    {
        match length {
            1 => WallKind::StraightSmall,
            2 => WallKind::StraightMedium,
            _ => WallKind::StraightLarge,
        }
    }

    /// The wall that spans `length` cells, or `None` where no wall does.
    pub fn try_straight_of_length(length: i64) -> (kind: Option<WallKind>)
        ensures
            kind == WallKind::spec_straight_of_length(length as int),
            kind matches Some(k) ==> k.spec_length() == length,
    {
        match length {
            1 => Some(WallKind::StraightSmall),
            2 => Some(WallKind::StraightMedium),
            3 => Some(WallKind::StraightLarge),
            _ => None,
        }
    }
}


/// The side of a wall, seen in the direction in which the wall runs.
#[derive(Clone, Copy, Debug, PartialEq, Eq, Structural, Hash)]
pub enum WallSide {
    West,
    East,
}

impl WallSide {
    /// The number that stands for this side of a wall in a saved course.
    pub open spec fn spec_code(self) -> u32 {
        match self {
            WallSide::West => 0,
            WallSide::East => 1,
        }
    }

    /// The side of a wall that a number stands for, where it stands for one.
    pub open spec fn spec_from_code(code: u32) -> Option<WallSide> {
        if code == 0 {
            Some(WallSide::West)
        } else if code == 1 {
            Some(WallSide::East)
        } else {
            None
        }
    }

    /// The number that stands for this side of a wall in a saved course.
    pub fn code(&self) -> (code: u32)
        ensures
            code == self.spec_code(),
            WallSide::spec_from_code(code) == Some(*self),
    {
        match self {
            WallSide::West => 0,
            WallSide::East => 1,
        }
    }

    /// The side of a wall that `code` stands for, or `None` where it stands for none.
    pub fn from_code(code: u32) -> (kind: Option<WallSide>)
        ensures
            kind == WallSide::spec_from_code(code),
            kind matches Some(k) ==> k.spec_code() == code,
    {
        match code {
            0 => Some(WallSide::West),
            1 => Some(WallSide::East),
            _ => None,
        }
    }

    /// Every side of a wall has a code of its own, from which it is found again.
    pub proof fn lemma_code_injective(first: WallSide, second: WallSide)
        ensures
            WallSide::spec_from_code(first.spec_code()) == Some(first),
            first.spec_code() == second.spec_code() ==> first == second,
    {
        assert(WallSide::spec_from_code(second.spec_code()) == Some(second));
    }

    /// What reading a side of a wall at `pos` gives: a number of four bytes that stands
    /// for one.
    pub open spec fn spec_parse(bytes: Seq<u8>, pos: nat) -> Parsed<WallSide> {
        if !available(bytes, pos, 4) {
            Err(DecodeError::Truncated)
        } else {
            match WallSide::spec_from_code(le_u32(bytes, pos)) {
                Some(kind) => Ok((kind, 4)),
                None => Err(DecodeError::InvalidDiscriminant),
            }
        }
    }

    /// Reads the side of a wall at `pos`.
    pub fn parse(bytes: &[u8], pos: usize) -> (result: Result<(WallSide, usize), DecodeError>)
        ensures
            read_as(result, WallSide::spec_parse(bytes@, pos as nat), bytes@, pos),
    {
        let (code, next) = read_u32(bytes, pos)?;
        match WallSide::from_code(code) {
            Some(kind) => Ok((kind, next)),
            None => Err(DecodeError::InvalidDiscriminant),
        }
    }
}

/// A place on a wall: the column counts cells along the wall from its first
/// tower, the row counts upwards.
#[derive(Clone, Copy, Debug, PartialEq, Eq, Structural)]
pub struct WallCoordinate {
    pub column: i32,
    pub row: i32,
}

/// A balcony on a wall, and the tower that stands on it, if any.
#[derive(Debug)]
pub struct WallBalconyConstructionData {
    pub retainer_id: i32,
    pub wall_side: WallSide,
    pub wall_coordinate: WallCoordinate,
    pub cell_construction_datas: Option<CellConstructionData>,
}

/// The mathematical value of a [`WallBalconyConstructionData`].
pub struct WallBalconyConstructionDataView {
    pub retainer_id: i32,
    pub wall_side: WallSide,
    pub wall_coordinate: WallCoordinate,
    pub cell_construction_datas: Option<CellConstructionDataView>,
}

impl View for WallBalconyConstructionData {
    type V = WallBalconyConstructionDataView;

    open spec fn view(&self) -> WallBalconyConstructionDataView {
        WallBalconyConstructionDataView {
            retainer_id: self.retainer_id,
            wall_side: self.wall_side,
            wall_coordinate: self.wall_coordinate,
            cell_construction_datas: match self.cell_construction_datas {
                Some(cell) => Some(cell@),
                None => None,
            },
        }
    }
}

/// A wall between two stacker towers, each given by the retainer that holds
/// it and its position relative to that retainer.
#[derive(Debug)]
pub struct WallConstructionData {
    pub lower_stacker_tower_1_retainer_id: i32,
    pub lower_stacker_tower_1_local_hex_pos: HexVector,
    pub lower_stacker_tower_2_retainer_id: i32,
    pub lower_stacker_tower_2_local_hex_pos: HexVector,
    pub balcony_construction_datas: Vec<WallBalconyConstructionData>,
}

/// The mathematical value of a [`WallConstructionData`].
pub struct WallConstructionDataView {
    pub lower_stacker_tower_1_retainer_id: i32,
    pub lower_stacker_tower_1_local_hex_pos: HexVector,
    pub lower_stacker_tower_2_retainer_id: i32,
    pub lower_stacker_tower_2_local_hex_pos: HexVector,
    pub balcony_construction_datas: Seq<WallBalconyConstructionDataView>,
}

impl View for WallConstructionData {
    type V = WallConstructionDataView;

    open spec fn view(&self) -> WallConstructionDataView {
        WallConstructionDataView {
            lower_stacker_tower_1_retainer_id: self.lower_stacker_tower_1_retainer_id,
            lower_stacker_tower_1_local_hex_pos: self.lower_stacker_tower_1_local_hex_pos,
            lower_stacker_tower_2_retainer_id: self.lower_stacker_tower_2_retainer_id,
            lower_stacker_tower_2_local_hex_pos: self.lower_stacker_tower_2_local_hex_pos,
            balcony_construction_datas: balcony_views(self.balcony_construction_datas@),
        }
    }
}

/// The mathematical values of balconies.
pub open spec fn balcony_views(balconies: Seq<WallBalconyConstructionData>) -> Seq<
    WallBalconyConstructionDataView,
> {
    balconies.map_values(|b: WallBalconyConstructionData| b@)
}

/// The mathematical values of walls.
pub open spec fn wall_views(walls: Seq<WallConstructionData>) -> Seq<WallConstructionDataView> {
    walls.map_values(|w: WallConstructionData| w@)
}

} // verus!
