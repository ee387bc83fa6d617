//! Rails between two cells.
use crate::binary32::Binary32;
use crate::bytes::{available, le_u32, read_as, read_u32, DecodeError, Parsed};
use crate::hex::HexVector;
use vstd::prelude::*;

verus! {

/// The kinds of rails. A straight rail comes in three lengths, which are not stored.
#[derive(Clone, Copy, Debug, PartialEq, Eq, Structural, Hash)]
pub enum RailKind {
    Straight,
    Bernoulli,
    DropHill,
    DropValley,
    UTurn,
    Narrow,
    Slow,
    BernoulliSmallStraight,
    BernoulliSmallLeft,
    BernoulliSmallRight,
    FlexTube0,
    FlexTube60,
    FlexTube120,
    FlexTube180,
    FlexTube240,
    FlexTube300,
}

impl RailKind {
    /// The number that stands for this kind of rail in a saved course.
    pub open spec fn spec_code(self) -> u32 {
        match self {
            RailKind::Straight => 0,
            RailKind::Bernoulli => 1,
            RailKind::DropHill => 3,
            RailKind::DropValley => 4,
            RailKind::UTurn => 5,
            RailKind::Narrow => 6,
            RailKind::Slow => 7,
            RailKind::BernoulliSmallStraight => 8,
            RailKind::BernoulliSmallLeft => 9,
            RailKind::BernoulliSmallRight => 10,
            RailKind::FlexTube0 => 11,
            RailKind::FlexTube60 => 12,
            RailKind::FlexTube120 => 13,
            RailKind::FlexTube180 => 14,
            RailKind::FlexTube240 => 15,
            RailKind::FlexTube300 => 16,
        }
    }

    /// The kind of rail that a number stands for, where it stands for one.
    pub open spec fn spec_from_code(code: u32) -> Option<RailKind> {
        if code == 0 {
            Some(RailKind::Straight)
        } else if code == 1 {
            Some(RailKind::Bernoulli)
        } else if code == 3 {
            Some(RailKind::DropHill)
        } else if code == 4 {
            Some(RailKind::DropValley)
        } else if code == 5 {
            Some(RailKind::UTurn)
        } else if code == 6 {
            Some(RailKind::Narrow)
        } else if code == 7 {
            Some(RailKind::Slow)
        } else if code == 8 {
            Some(RailKind::BernoulliSmallStraight)
        } else if code == 9 {
            Some(RailKind::BernoulliSmallLeft)
        } else if code == 10 {
            Some(RailKind::BernoulliSmallRight)
        } else if code == 11 {
            Some(RailKind::FlexTube0)
        } else if code == 12 {
            Some(RailKind::FlexTube60)
        } else if code == 13 {
            Some(RailKind::FlexTube120)
        } else if code == 14 {
            Some(RailKind::FlexTube180)
        } else if code == 15 {
            Some(RailKind::FlexTube240)
        } else if code == 16 {
            Some(RailKind::FlexTube300)
        } else {
            None
        }
    }

    /// The number that stands for this kind of rail in a saved course.
    pub fn code(&self) -> (code: u32)
        ensures
            code == self.spec_code(),
            RailKind::spec_from_code(code) == Some(*self),
    {
        match self {
            RailKind::Straight => 0,
            RailKind::Bernoulli => 1,
            RailKind::DropHill => 3,
            RailKind::DropValley => 4,
            RailKind::UTurn => 5,
            RailKind::Narrow => 6,
            RailKind::Slow => 7,
            RailKind::BernoulliSmallStraight => 8,
            RailKind::BernoulliSmallLeft => 9,
            RailKind::BernoulliSmallRight => 10,
            RailKind::FlexTube0 => 11,
            RailKind::FlexTube60 => 12,
            RailKind::FlexTube120 => 13,
            RailKind::FlexTube180 => 14,
            RailKind::FlexTube240 => 15,
            RailKind::FlexTube300 => 16,
        }
    }

    /// The kind of rail that `code` stands for, or `None` where it stands for none.
    pub fn from_code(code: u32) -> (kind: Option<RailKind>)
        ensures
            kind == RailKind::spec_from_code(code),
            kind matches Some(k) ==> k.spec_code() == code,
    {
        match code {
            0 => Some(RailKind::Straight),
            1 => Some(RailKind::Bernoulli),
            3 => Some(RailKind::DropHill),
            4 => Some(RailKind::DropValley),
            5 => Some(RailKind::UTurn),
            6 => Some(RailKind::Narrow),
            7 => Some(RailKind::Slow),
            8 => Some(RailKind::BernoulliSmallStraight),
            9 => Some(RailKind::BernoulliSmallLeft),
            10 => Some(RailKind::BernoulliSmallRight),
            11 => Some(RailKind::FlexTube0),
            12 => Some(RailKind::FlexTube60),
            13 => Some(RailKind::FlexTube120),
            14 => Some(RailKind::FlexTube180),
            15 => Some(RailKind::FlexTube240),
            16 => Some(RailKind::FlexTube300),
            _ => None,
        }
    }

    /// Every kind of rail has a code of its own, from which it is found again.
    pub proof fn lemma_code_injective(first: RailKind, second: RailKind)
        ensures
            RailKind::spec_from_code(first.spec_code()) == Some(first),
            first.spec_code() == second.spec_code() ==> first == second,
    {
        assert(RailKind::spec_from_code(second.spec_code()) == Some(second));
    }

    /// What reading a kind of rail at `pos` gives: a number of four bytes that stands
    /// for one.
    pub open spec fn spec_parse(bytes: Seq<u8>, pos: nat) -> Parsed<RailKind> {
        if !available(bytes, pos, 4) {
            Err(DecodeError::Truncated)
        } else {
            match RailKind::spec_from_code(le_u32(bytes, pos)) {
                Some(kind) => Ok((kind, 4)),
                None => Err(DecodeError::InvalidDiscriminant),
            }
        }
    }

    /// Reads the kind of rail at `pos`.
    pub fn parse(bytes: &[u8], pos: usize) -> (result: Result<(RailKind, usize), DecodeError>)
        ensures
            read_as(result, RailKind::spec_parse(bytes@, pos as nat), bytes@, pos),
    {
        let (code, next) = read_u32(bytes, pos)?;
        match RailKind::from_code(code) {
            Some(kind) => Ok((kind, next)),
            None => Err(DecodeError::InvalidDiscriminant),
        }
    }
}

/// One end of a rail: the retainer that holds the cell, the position of the
/// cell relative to that retainer, and the side of the cell.
#[derive(Clone, Copy, Debug, PartialEq, Eq, Structural)]
pub struct RailConstructionExitIdentifier {
    pub retainer_id: i32,
    pub cell_local_hex_pos: HexVector,
    pub side_hex_rot: i32,
    /// Stored by two of the formats only.
    pub exit_local_pos_y: Option<Binary32>,
}

/// A rail between two cells.
#[derive(Clone, Copy, Debug, PartialEq, Eq, Structural)]
pub struct RailConstructionData {
    pub exit_1_identifier: RailConstructionExitIdentifier,
    pub exit_2_identifier: RailConstructionExitIdentifier,
    pub rail_kind: RailKind,
    /// Stored by the oldest format only.
    pub materialized: Option<bool>,
}

} // verus!
