//! Layers of a course: the plates, the cells on them, and the tower of tiles
//! that stands in each cell.
use crate::binary32::Binary32;
use crate::bytes::{available, le_u32, read_as, read_u32, DecodeError, Parsed};
use crate::hex::HexVector;
use vstd::prelude::*;

verus! {

/// The kinds of plates that a course is built on.
#[derive(Clone, Copy, Debug, PartialEq, Eq, Structural, Hash)]
pub enum LayerKind {
    BaseLayerPiece,
    BaseLayer,
    LargeLayer,
    LargeGhostLayer,
    SmallLayer,
}

impl LayerKind {
    /// The number that stands for this kind of layer in a saved course.
    pub open spec fn spec_code(self) -> u32 {
        match self {
            LayerKind::BaseLayerPiece => 0,
            LayerKind::BaseLayer => 1,
            LayerKind::LargeLayer => 2,
            LayerKind::LargeGhostLayer => 3,
            LayerKind::SmallLayer => 4,
        }
    }

    /// The kind of layer that a number stands for, where it stands for one.
    pub open spec fn spec_from_code(code: u32) -> Option<LayerKind> {
        if code == 0 {
            Some(LayerKind::BaseLayerPiece)
        } else if code == 1 {
            Some(LayerKind::BaseLayer)
        } else if code == 2 {
            Some(LayerKind::LargeLayer)
        } else if code == 3 {
            Some(LayerKind::LargeGhostLayer)
        } else if code == 4 {
            Some(LayerKind::SmallLayer)
        } else {
            None
        }
    }

    /// The number that stands for this kind of layer in a saved course.
    pub fn code(&self) -> (code: u32)
        ensures
            code == self.spec_code(),
            LayerKind::spec_from_code(code) == Some(*self),
    {
        match self {
            LayerKind::BaseLayerPiece => 0,
            LayerKind::BaseLayer => 1,
            LayerKind::LargeLayer => 2,
            LayerKind::LargeGhostLayer => 3,
            LayerKind::SmallLayer => 4,
        }
    }

    /// The kind of layer that `code` stands for, or `None` where it stands for none.
    pub fn from_code(code: u32) -> (kind: Option<LayerKind>)
        ensures
            kind == LayerKind::spec_from_code(code),
            kind matches Some(k) ==> k.spec_code() == code,
    {
        match code {
            0 => Some(LayerKind::BaseLayerPiece),
            1 => Some(LayerKind::BaseLayer),
            2 => Some(LayerKind::LargeLayer),
            3 => Some(LayerKind::LargeGhostLayer),
            4 => Some(LayerKind::SmallLayer),
            _ => None,
        }
    }

    /// Every kind of layer has a code of its own, from which it is found again.
    pub proof fn lemma_code_injective(first: LayerKind, second: LayerKind)
        ensures
            LayerKind::spec_from_code(first.spec_code()) == Some(first),
            first.spec_code() == second.spec_code() ==> first == second,
    {
        assert(LayerKind::spec_from_code(second.spec_code()) == Some(second));
    }

    /// What reading a kind of layer at `pos` gives: a number of four bytes that stands
    /// for one.
    pub open spec fn spec_parse(bytes: Seq<u8>, pos: nat) -> Parsed<LayerKind> {
        if !available(bytes, pos, 4) {
            Err(DecodeError::Truncated)
        } else {
            match LayerKind::spec_from_code(le_u32(bytes, pos)) {
                Some(kind) => Ok((kind, 4)),
                None => Err(DecodeError::InvalidDiscriminant),
            }
        }
    }

    /// Reads the kind of layer at `pos`.
    pub fn parse(bytes: &[u8], pos: usize) -> (result: Result<(LayerKind, usize), DecodeError>)
        ensures
            read_as(result, LayerKind::spec_parse(bytes@, pos as nat), bytes@, pos),
    {
        let (code, next) = read_u32(bytes, pos)?;
        match LayerKind::from_code(code) {
            Some(kind) => Ok((kind, next)),
            None => Err(DecodeError::InvalidDiscriminant),
        }
    }
}

/// The kinds of tiles and inserts that stand in the cells of a layer.
#[derive(Clone, Copy, Debug, PartialEq, Eq, Structural, Hash)]
pub enum TileKind {
    Nothing,
    Starter,
    Curve,
    Catch,
    GoalBasin,
    Drop,
    Hammer,
    Catapult,
    Cross,
    Threeway,
    TwoWay,
    Spiral,
    Splash,
    Loop,
    Cannon,
    Stacker,
    StackerSmall,
    SwitchLeft,
    SwitchRight,
    GoalRail,
    StackerBatch,
    Cascade,
    StraightTunnel,
    CurveTunnel,
    SwitchTunnel,
    Trampolin0,
    Trampolin1,
    Trampolin2,
    LiftSmall,
    LiftLarge,
    Flip,
    TipTube,
    Volcano,
    Jumper,
    Transfer,
    ZiplineStart,
    ZiplineEnd,
    Bridge,
    ScrewSmall,
    ScrewMedium,
    ScrewLarge,
    MixerOffsetExits,
    Splitter,
    StackerTowerClosed,
    StackerTowerOpened,
    DoubleBalcony,
    MixerSameExits,
    DipperLeft,
    DipperRight,
    Helix,
    Turntable,
    Spinner,
    TwoInOneSmallCurveA,
    TwoInOneSmallCurveB,
    FlexibleTwoInOneB,
    RibbonCurve,
    ThreeEntranceFunnel,
    CurveCrossing,
    DoubleBigCurve,
    DoubleSmallCurve,
    MultiJunction,
    StraightCurveCrossing,
    TripleSmallCurve,
    FlexibleTwoInOneA,
    ColorSwapEmpty,
    ColorSwapPreloaded,
    CarouselSameExits,
    CarouselOffsetExits,
    DomeStarter,
    FinishTrigger,
    FinishArena,
    Trigger,
    DropdownSwitchLeft,
    DropdownSwitchRight,
    Queue,
    Lever,
    Elevator,
    LightBase,
    LightStacker,
    LightStackerSmall,
    LightStackerBatch,
    Releaser1,
    Releaser2,
    Releaser3,
    Releaser4,
}

impl TileKind {
    /// The number that stands for this kind of tile in a saved course.
    pub open spec fn spec_code(self) -> u32 {
        match self {
            TileKind::Nothing => 0,
            TileKind::Starter => 1,
            TileKind::Curve => 2,
            TileKind::Catch => 3,
            TileKind::GoalBasin => 4,
            TileKind::Drop => 5,
            TileKind::Hammer => 6,
            TileKind::Catapult => 7,
            TileKind::Cross => 8,
            TileKind::Threeway => 9,
            TileKind::TwoWay => 10,
            TileKind::Spiral => 11,
            TileKind::Splash => 12,
            TileKind::Loop => 13,
            TileKind::Cannon => 14,
            TileKind::Stacker => 15,
            TileKind::StackerSmall => 16,
            TileKind::SwitchLeft => 17,
            TileKind::SwitchRight => 18,
            TileKind::GoalRail => 19,
            TileKind::StackerBatch => 20,
            TileKind::Cascade => 21,
            TileKind::StraightTunnel => 22,
            TileKind::CurveTunnel => 23,
            TileKind::SwitchTunnel => 24,
            TileKind::Trampolin0 => 25,
            TileKind::Trampolin1 => 26,
            TileKind::Trampolin2 => 27,
            TileKind::LiftSmall => 28,
            TileKind::LiftLarge => 29,
            TileKind::Flip => 30,
            TileKind::TipTube => 31,
            TileKind::Volcano => 32,
            TileKind::Jumper => 33,
            TileKind::Transfer => 34,
            TileKind::ZiplineStart => 35,
            TileKind::ZiplineEnd => 36,
            TileKind::Bridge => 37,
            TileKind::ScrewSmall => 38,
            TileKind::ScrewMedium => 39,
            TileKind::ScrewLarge => 40,
            TileKind::MixerOffsetExits => 41,
            TileKind::Splitter => 42,
            TileKind::StackerTowerClosed => 43,
            TileKind::StackerTowerOpened => 44,
            TileKind::DoubleBalcony => 45,
            TileKind::MixerSameExits => 46,
            TileKind::DipperLeft => 47,
            TileKind::DipperRight => 48,
            TileKind::Helix => 49,
            TileKind::Turntable => 50,
            TileKind::Spinner => 51,
            TileKind::TwoInOneSmallCurveA => 52,
            TileKind::TwoInOneSmallCurveB => 53,
            TileKind::FlexibleTwoInOneB => 54,
            TileKind::RibbonCurve => 55,
            TileKind::ThreeEntranceFunnel => 56,
            TileKind::CurveCrossing => 57,
            TileKind::DoubleBigCurve => 58,
            TileKind::DoubleSmallCurve => 59,
            TileKind::MultiJunction => 60,
            TileKind::StraightCurveCrossing => 61,
            TileKind::TripleSmallCurve => 62,
            TileKind::FlexibleTwoInOneA => 63,
            TileKind::ColorSwapEmpty => 64,
            TileKind::ColorSwapPreloaded => 65,
            TileKind::CarouselSameExits => 66,
            TileKind::CarouselOffsetExits => 67,
            TileKind::DomeStarter => 68,
            TileKind::FinishTrigger => 69,
            TileKind::FinishArena => 70,
            TileKind::Trigger => 71,
            TileKind::DropdownSwitchLeft => 72,
            TileKind::DropdownSwitchRight => 73,
            TileKind::Queue => 74,
            TileKind::Lever => 75,
            TileKind::Elevator => 77,
            TileKind::LightBase => 78,
            TileKind::LightStacker => 79,
            TileKind::LightStackerSmall => 80,
            TileKind::LightStackerBatch => 81,
            TileKind::Releaser1 => 82,
            TileKind::Releaser2 => 83,
            TileKind::Releaser3 => 84,
            TileKind::Releaser4 => 85,
        }
    }

    /// The kind of tile that a number stands for, where it stands for one.
    pub open spec fn spec_from_code(code: u32) -> Option<TileKind> {
        if code == 0 {
            Some(TileKind::Nothing)
        } else if code == 1 {
            Some(TileKind::Starter)
        } else if code == 2 {
            Some(TileKind::Curve)
        } else if code == 3 {
            Some(TileKind::Catch)
        } else if code == 4 {
            Some(TileKind::GoalBasin)
        } else if code == 5 {
            Some(TileKind::Drop)
        } else if code == 6 {
            Some(TileKind::Hammer)
        } else if code == 7 {
            Some(TileKind::Catapult)
        } else if code == 8 {
            Some(TileKind::Cross)
        } else if code == 9 {
            Some(TileKind::Threeway)
        } else if code == 10 {
            Some(TileKind::TwoWay)
        } else if code == 11 {
            Some(TileKind::Spiral)
        } else if code == 12 {
            Some(TileKind::Splash)
        } else if code == 13 {
            Some(TileKind::Loop)
        } else if code == 14 {
            Some(TileKind::Cannon)
        } else if code == 15 {
            Some(TileKind::Stacker)
        } else if code == 16 {
            Some(TileKind::StackerSmall)
        } else if code == 17 {
            Some(TileKind::SwitchLeft)
        } else if code == 18 {
            Some(TileKind::SwitchRight)
        } else if code == 19 {
            Some(TileKind::GoalRail)
        } else if code == 20 {
            Some(TileKind::StackerBatch)
        } else if code == 21 {
            Some(TileKind::Cascade)
        } else if code == 22 {
            Some(TileKind::StraightTunnel)
        } else if code == 23 {
            Some(TileKind::CurveTunnel)
        } else if code == 24 {
            Some(TileKind::SwitchTunnel)
        } else if code == 25 {
            Some(TileKind::Trampolin0)
        } else if code == 26 {
            Some(TileKind::Trampolin1)
        } else if code == 27 {
            Some(TileKind::Trampolin2)
        } else if code == 28 {
            Some(TileKind::LiftSmall)
        } else if code == 29 {
            Some(TileKind::LiftLarge)
        } else if code == 30 {
            Some(TileKind::Flip)
        } else if code == 31 {
            Some(TileKind::TipTube)
        } else if code == 32 {
            Some(TileKind::Volcano)
        } else if code == 33 {
            Some(TileKind::Jumper)
        } else if code == 34 {
            Some(TileKind::Transfer)
        } else if code == 35 {
            Some(TileKind::ZiplineStart)
        } else if code == 36 {
            Some(TileKind::ZiplineEnd)
        } else if code == 37 {
            Some(TileKind::Bridge)
        } else if code == 38 {
            Some(TileKind::ScrewSmall)
        } else if code == 39 {
            Some(TileKind::ScrewMedium)
        } else if code == 40 {
            Some(TileKind::ScrewLarge)
        } else if code == 41 {
            Some(TileKind::MixerOffsetExits)
        } else if code == 42 {
            Some(TileKind::Splitter)
        } else if code == 43 {
            Some(TileKind::StackerTowerClosed)
        } else if code == 44 {
            Some(TileKind::StackerTowerOpened)
        } else if code == 45 {
            Some(TileKind::DoubleBalcony)
        } else if code == 46 {
            Some(TileKind::MixerSameExits)
        } else if code == 47 {
            Some(TileKind::DipperLeft)
        } else if code == 48 {
            Some(TileKind::DipperRight)
        } else if code == 49 {
            Some(TileKind::Helix)
        } else if code == 50 {
            Some(TileKind::Turntable)
        } else if code == 51 {
            Some(TileKind::Spinner)
        } else if code == 52 {
            Some(TileKind::TwoInOneSmallCurveA)
        } else if code == 53 {
            Some(TileKind::TwoInOneSmallCurveB)
        } else if code == 54 {
            Some(TileKind::FlexibleTwoInOneB)
        } else if code == 55 {
            Some(TileKind::RibbonCurve)
        } else if code == 56 {
            Some(TileKind::ThreeEntranceFunnel)
        } else if code == 57 {
            Some(TileKind::CurveCrossing)
        } else if code == 58 {
            Some(TileKind::DoubleBigCurve)
        } else if code == 59 {
            Some(TileKind::DoubleSmallCurve)
        } else if code == 60 {
            Some(TileKind::MultiJunction)
        } else if code == 61 {
            Some(TileKind::StraightCurveCrossing)
        } else if code == 62 {
            Some(TileKind::TripleSmallCurve)
        } else if code == 63 {
            Some(TileKind::FlexibleTwoInOneA)
        } else if code == 64 {
            Some(TileKind::ColorSwapEmpty)
        } else if code == 65 {
            Some(TileKind::ColorSwapPreloaded)
        } else if code == 66 {
            Some(TileKind::CarouselSameExits)
        } else if code == 67 {
            Some(TileKind::CarouselOffsetExits)
        } else if code == 68 {
            Some(TileKind::DomeStarter)
        } else if code == 69 {
            Some(TileKind::FinishTrigger)
        } else if code == 70 {
            Some(TileKind::FinishArena)
        } else if code == 71 {
            Some(TileKind::Trigger)
        } else if code == 72 {
            Some(TileKind::DropdownSwitchLeft)
        } else if code == 73 {
            Some(TileKind::DropdownSwitchRight)
        } else if code == 74 {
            Some(TileKind::Queue)
        } else if code == 75 {
            Some(TileKind::Lever)
        } else if code == 77 {
            Some(TileKind::Elevator)
        } else if code == 78 {
            Some(TileKind::LightBase)
        } else if code == 79 {
            Some(TileKind::LightStacker)
        } else if code == 80 {
            Some(TileKind::LightStackerSmall)
        } else if code == 81 {
            Some(TileKind::LightStackerBatch)
        } else if code == 82 {
            Some(TileKind::Releaser1)
        } else if code == 83 {
            Some(TileKind::Releaser2)
        } else if code == 84 {
            Some(TileKind::Releaser3)
        } else if code == 85 {
            Some(TileKind::Releaser4)
        } else {
            None
        }
    }

    /// The number that stands for this kind of tile in a saved course.
    pub fn code(&self) -> (code: u32)
        ensures
            code == self.spec_code(),
            TileKind::spec_from_code(code) == Some(*self),
    {
        match self {
            TileKind::Nothing => 0,
            TileKind::Starter => 1,
            TileKind::Curve => 2,
            TileKind::Catch => 3,
            TileKind::GoalBasin => 4,
            TileKind::Drop => 5,
            TileKind::Hammer => 6,
            TileKind::Catapult => 7,
            TileKind::Cross => 8,
            TileKind::Threeway => 9,
            TileKind::TwoWay => 10,
            TileKind::Spiral => 11,
            TileKind::Splash => 12,
            TileKind::Loop => 13,
            TileKind::Cannon => 14,
            TileKind::Stacker => 15,
            TileKind::StackerSmall => 16,
            TileKind::SwitchLeft => 17,
            TileKind::SwitchRight => 18,
            TileKind::GoalRail => 19,
            TileKind::StackerBatch => 20,
            TileKind::Cascade => 21,
            TileKind::StraightTunnel => 22,
            TileKind::CurveTunnel => 23,
            TileKind::SwitchTunnel => 24,
            TileKind::Trampolin0 => 25,
            TileKind::Trampolin1 => 26,
            TileKind::Trampolin2 => 27,
            TileKind::LiftSmall => 28,
            TileKind::LiftLarge => 29,
            TileKind::Flip => 30,
            TileKind::TipTube => 31,
            TileKind::Volcano => 32,
            TileKind::Jumper => 33,
            TileKind::Transfer => 34,
            TileKind::ZiplineStart => 35,
            TileKind::ZiplineEnd => 36,
            TileKind::Bridge => 37,
            TileKind::ScrewSmall => 38,
            TileKind::ScrewMedium => 39,
            TileKind::ScrewLarge => 40,
            TileKind::MixerOffsetExits => 41,
            TileKind::Splitter => 42,
            TileKind::StackerTowerClosed => 43,
            TileKind::StackerTowerOpened => 44,
            TileKind::DoubleBalcony => 45,
            TileKind::MixerSameExits => 46,
            TileKind::DipperLeft => 47,
            TileKind::DipperRight => 48,
            TileKind::Helix => 49,
            TileKind::Turntable => 50,
            TileKind::Spinner => 51,
            TileKind::TwoInOneSmallCurveA => 52,
            TileKind::TwoInOneSmallCurveB => 53,
            TileKind::FlexibleTwoInOneB => 54,
            TileKind::RibbonCurve => 55,
            TileKind::ThreeEntranceFunnel => 56,
            TileKind::CurveCrossing => 57,
            TileKind::DoubleBigCurve => 58,
            TileKind::DoubleSmallCurve => 59,
            TileKind::MultiJunction => 60,
            TileKind::StraightCurveCrossing => 61,
            TileKind::TripleSmallCurve => 62,
            TileKind::FlexibleTwoInOneA => 63,
            TileKind::ColorSwapEmpty => 64,
            TileKind::ColorSwapPreloaded => 65,
            TileKind::CarouselSameExits => 66,
            TileKind::CarouselOffsetExits => 67,
            TileKind::DomeStarter => 68,
            TileKind::FinishTrigger => 69,
            TileKind::FinishArena => 70,
            TileKind::Trigger => 71,
            TileKind::DropdownSwitchLeft => 72,
            TileKind::DropdownSwitchRight => 73,
            TileKind::Queue => 74,
            TileKind::Lever => 75,
            TileKind::Elevator => 77,
            TileKind::LightBase => 78,
            TileKind::LightStacker => 79,
            TileKind::LightStackerSmall => 80,
            TileKind::LightStackerBatch => 81,
            TileKind::Releaser1 => 82,
            TileKind::Releaser2 => 83,
            TileKind::Releaser3 => 84,
            TileKind::Releaser4 => 85,
        }
    }

    /// The kind of tile that `code` stands for, or `None` where it stands for none.
    pub fn from_code(code: u32) -> (kind: Option<TileKind>)
        ensures
            kind == TileKind::spec_from_code(code),
            kind matches Some(k) ==> k.spec_code() == code,
    {
        match code {
            0 => Some(TileKind::Nothing),
            1 => Some(TileKind::Starter),
            2 => Some(TileKind::Curve),
            3 => Some(TileKind::Catch),
            4 => Some(TileKind::GoalBasin),
            5 => Some(TileKind::Drop),
            6 => Some(TileKind::Hammer),
            7 => Some(TileKind::Catapult),
            8 => Some(TileKind::Cross),
            9 => Some(TileKind::Threeway),
            10 => Some(TileKind::TwoWay),
            11 => Some(TileKind::Spiral),
            12 => Some(TileKind::Splash),
            13 => Some(TileKind::Loop),
            14 => Some(TileKind::Cannon),
            15 => Some(TileKind::Stacker),
            16 => Some(TileKind::StackerSmall),
            17 => Some(TileKind::SwitchLeft),
            18 => Some(TileKind::SwitchRight),
            19 => Some(TileKind::GoalRail),
            20 => Some(TileKind::StackerBatch),
            21 => Some(TileKind::Cascade),
            22 => Some(TileKind::StraightTunnel),
            23 => Some(TileKind::CurveTunnel),
            24 => Some(TileKind::SwitchTunnel),
            25 => Some(TileKind::Trampolin0),
            26 => Some(TileKind::Trampolin1),
            27 => Some(TileKind::Trampolin2),
            28 => Some(TileKind::LiftSmall),
            29 => Some(TileKind::LiftLarge),
            30 => Some(TileKind::Flip),
            31 => Some(TileKind::TipTube),
            32 => Some(TileKind::Volcano),
            33 => Some(TileKind::Jumper),
            34 => Some(TileKind::Transfer),
            35 => Some(TileKind::ZiplineStart),
            36 => Some(TileKind::ZiplineEnd),
            37 => Some(TileKind::Bridge),
            38 => Some(TileKind::ScrewSmall),
            39 => Some(TileKind::ScrewMedium),
            40 => Some(TileKind::ScrewLarge),
            41 => Some(TileKind::MixerOffsetExits),
            42 => Some(TileKind::Splitter),
            43 => Some(TileKind::StackerTowerClosed),
            44 => Some(TileKind::StackerTowerOpened),
            45 => Some(TileKind::DoubleBalcony),
            46 => Some(TileKind::MixerSameExits),
            47 => Some(TileKind::DipperLeft),
            48 => Some(TileKind::DipperRight),
            49 => Some(TileKind::Helix),
            50 => Some(TileKind::Turntable),
            51 => Some(TileKind::Spinner),
            52 => Some(TileKind::TwoInOneSmallCurveA),
            53 => Some(TileKind::TwoInOneSmallCurveB),
            54 => Some(TileKind::FlexibleTwoInOneB),
            55 => Some(TileKind::RibbonCurve),
            56 => Some(TileKind::ThreeEntranceFunnel),
            57 => Some(TileKind::CurveCrossing),
            58 => Some(TileKind::DoubleBigCurve),
            59 => Some(TileKind::DoubleSmallCurve),
            60 => Some(TileKind::MultiJunction),
            61 => Some(TileKind::StraightCurveCrossing),
            62 => Some(TileKind::TripleSmallCurve),
            63 => Some(TileKind::FlexibleTwoInOneA),
            64 => Some(TileKind::ColorSwapEmpty),
            65 => Some(TileKind::ColorSwapPreloaded),
            66 => Some(TileKind::CarouselSameExits),
            67 => Some(TileKind::CarouselOffsetExits),
            68 => Some(TileKind::DomeStarter),
            69 => Some(TileKind::FinishTrigger),
            70 => Some(TileKind::FinishArena),
            71 => Some(TileKind::Trigger),
            72 => Some(TileKind::DropdownSwitchLeft),
            73 => Some(TileKind::DropdownSwitchRight),
            74 => Some(TileKind::Queue),
            75 => Some(TileKind::Lever),
            77 => Some(TileKind::Elevator),
            78 => Some(TileKind::LightBase),
            79 => Some(TileKind::LightStacker),
            80 => Some(TileKind::LightStackerSmall),
            81 => Some(TileKind::LightStackerBatch),
            82 => Some(TileKind::Releaser1),
            83 => Some(TileKind::Releaser2),
            84 => Some(TileKind::Releaser3),
            85 => Some(TileKind::Releaser4),
            _ => None,
        }
    }

    /// Every kind of tile has a code of its own, from which it is found again.
    pub proof fn lemma_code_injective(first: TileKind, second: TileKind)
        ensures
            TileKind::spec_from_code(first.spec_code()) == Some(first),
            first.spec_code() == second.spec_code() ==> first == second,
    {
        assert(TileKind::spec_from_code(second.spec_code()) == Some(second));
    }

    /// What reading a kind of tile at `pos` gives: a number of four bytes that stands
    /// for one.
    pub open spec fn spec_parse(bytes: Seq<u8>, pos: nat) -> Parsed<TileKind> {
        if !available(bytes, pos, 4) {
            Err(DecodeError::Truncated)
        } else {
            match TileKind::spec_from_code(le_u32(bytes, pos)) {
                Some(kind) => Ok((kind, 4)),
                None => Err(DecodeError::InvalidDiscriminant),
            }
        }
    }

    /// Reads the kind of tile at `pos`.
    pub fn parse(bytes: &[u8], pos: usize) -> (result: Result<(TileKind, usize), DecodeError>)
        ensures
            read_as(result, TileKind::spec_parse(bytes@, pos as nat), bytes@, pos),
    {
        let (code, next) = read_u32(bytes, pos)?;
        match TileKind::from_code(code) {
            Some(kind) => Ok((kind, next)),
            None => Err(DecodeError::InvalidDiscriminant),
        }
    }
}

/// The signal that a powered tile reacts to.
#[derive(Clone, Copy, Debug, PartialEq, Eq, Structural, Hash)]
pub enum PowerSignalMode {
    Off,
    Red,
    Green,
    Blue,
    Automatic,
}

impl PowerSignalMode {
    /// The number that stands for this signal mode in a saved course.
    pub open spec fn spec_code(self) -> u32 {
        match self {
            PowerSignalMode::Off => 0,
            PowerSignalMode::Red => 1,
            PowerSignalMode::Green => 2,
            PowerSignalMode::Blue => 3,
            PowerSignalMode::Automatic => 4,
        }
    }

    /// The signal mode that a number stands for, where it stands for one.
    pub open spec fn spec_from_code(code: u32) -> Option<PowerSignalMode> {
        if code == 0 {
            Some(PowerSignalMode::Off)
        } else if code == 1 {
            Some(PowerSignalMode::Red)
        } else if code == 2 {
            Some(PowerSignalMode::Green)
        } else if code == 3 {
            Some(PowerSignalMode::Blue)
        } else if code == 4 {
            Some(PowerSignalMode::Automatic)
        } else {
            None
        }
    }

    /// The number that stands for this signal mode in a saved course.
    pub fn code(&self) -> (code: u32)
        ensures
            code == self.spec_code(),
            PowerSignalMode::spec_from_code(code) == Some(*self),
    {
        match self {
            PowerSignalMode::Off => 0,
            PowerSignalMode::Red => 1,
            PowerSignalMode::Green => 2,
            PowerSignalMode::Blue => 3,
            PowerSignalMode::Automatic => 4,
        }
    }

    /// The signal mode that `code` stands for, or `None` where it stands for none.
    pub fn from_code(code: u32) -> (kind: Option<PowerSignalMode>)
        ensures
            kind == PowerSignalMode::spec_from_code(code),
            kind matches Some(k) ==> k.spec_code() == code,
    {
        match code {
            0 => Some(PowerSignalMode::Off),
            1 => Some(PowerSignalMode::Red),
            2 => Some(PowerSignalMode::Green),
            3 => Some(PowerSignalMode::Blue),
            4 => Some(PowerSignalMode::Automatic),
            _ => None,
        }
    }

    /// Every signal mode has a code of its own, from which it is found again.
    pub proof fn lemma_code_injective(first: PowerSignalMode, second: PowerSignalMode)
        ensures
            PowerSignalMode::spec_from_code(first.spec_code()) == Some(first),
            first.spec_code() == second.spec_code() ==> first == second,
    {
        assert(PowerSignalMode::spec_from_code(second.spec_code()) == Some(second));
    }

    /// What reading a signal mode at `pos` gives: a number of four bytes that stands
    /// for one.
    pub open spec fn spec_parse(bytes: Seq<u8>, pos: nat) -> Parsed<PowerSignalMode> {
        if !available(bytes, pos, 4) {
            Err(DecodeError::Truncated)
        } else {
            match PowerSignalMode::spec_from_code(le_u32(bytes, pos)) {
                Some(kind) => Ok((kind, 4)),
                None => Err(DecodeError::InvalidDiscriminant),
            }
        }
    }

    /// Reads the signal mode at `pos`.
    pub fn parse(
        bytes: &[u8],
        pos: usize,
    ) -> (result: Result<(PowerSignalMode, usize), DecodeError>)
        ensures
            read_as(result, PowerSignalMode::spec_parse(bytes@, pos as nat), bytes@, pos),
    {
        let (code, next) = read_u32(bytes, pos)?;
        match PowerSignalMode::from_code(code) {
            Some(kind) => Ok((kind, next)),
            None => Err(DecodeError::InvalidDiscriminant),
        }
    }
}

/// The colour in which a light stone shines.
#[derive(Clone, Copy, Debug, PartialEq, Eq, Structural, Hash)]
pub enum LightStoneColorMode {
    Off,
    Alternating,
    Red,
    Green,
    Blue,
    White,
}

impl LightStoneColorMode {
    /// The number that stands for this colour mode in a saved course.
    pub open spec fn spec_code(self) -> u32 {
        match self {
            LightStoneColorMode::Off => 0,
            LightStoneColorMode::Alternating => 1,
            LightStoneColorMode::Red => 2,
            LightStoneColorMode::Green => 3,
            LightStoneColorMode::Blue => 4,
            LightStoneColorMode::White => 5,
        }
    }

    /// The colour mode that a number stands for, where it stands for one.
    pub open spec fn spec_from_code(code: u32) -> Option<LightStoneColorMode> {
        if code == 0 {
            Some(LightStoneColorMode::Off)
        } else if code == 1 {
            Some(LightStoneColorMode::Alternating)
        } else if code == 2 {
            Some(LightStoneColorMode::Red)
        } else if code == 3 {
            Some(LightStoneColorMode::Green)
        } else if code == 4 {
            Some(LightStoneColorMode::Blue)
        } else if code == 5 {
            Some(LightStoneColorMode::White)
        } else {
            None
        }
    }

    /// The number that stands for this colour mode in a saved course.
    pub fn code(&self) -> (code: u32)
        ensures
            code == self.spec_code(),
            LightStoneColorMode::spec_from_code(code) == Some(*self),
    {
        match self {
            LightStoneColorMode::Off => 0,
            LightStoneColorMode::Alternating => 1,
            LightStoneColorMode::Red => 2,
            LightStoneColorMode::Green => 3,
            LightStoneColorMode::Blue => 4,
            LightStoneColorMode::White => 5,
        }
    }

    /// The colour mode that `code` stands for, or `None` where it stands for none.
    pub fn from_code(code: u32) -> (kind: Option<LightStoneColorMode>)
        ensures
            kind == LightStoneColorMode::spec_from_code(code),
            kind matches Some(k) ==> k.spec_code() == code,
    {
        match code {
            0 => Some(LightStoneColorMode::Off),
            1 => Some(LightStoneColorMode::Alternating),
            2 => Some(LightStoneColorMode::Red),
            3 => Some(LightStoneColorMode::Green),
            4 => Some(LightStoneColorMode::Blue),
            5 => Some(LightStoneColorMode::White),
            _ => None,
        }
    }

    /// Every colour mode has a code of its own, from which it is found again.
    pub proof fn lemma_code_injective(first: LightStoneColorMode, second: LightStoneColorMode)
        ensures
            LightStoneColorMode::spec_from_code(first.spec_code()) == Some(first),
            first.spec_code() == second.spec_code() ==> first == second,
    {
        assert(LightStoneColorMode::spec_from_code(second.spec_code()) == Some(second));
    }

    /// What reading a colour mode at `pos` gives: a number of four bytes that stands
    /// for one.
    pub open spec fn spec_parse(bytes: Seq<u8>, pos: nat) -> Parsed<LightStoneColorMode> {
        if !available(bytes, pos, 4) {
            Err(DecodeError::Truncated)
        } else {
            match LightStoneColorMode::spec_from_code(le_u32(bytes, pos)) {
                Some(kind) => Ok((kind, 4)),
                None => Err(DecodeError::InvalidDiscriminant),
            }
        }
    }

    /// Reads the colour mode at `pos`.
    pub fn parse(
        bytes: &[u8],
        pos: usize,
    ) -> (result: Result<(LightStoneColorMode, usize), DecodeError>)
        ensures
            read_as(result, LightStoneColorMode::spec_parse(bytes@, pos as nat), bytes@, pos),
    {
        let (code, next) = read_u32(bytes, pos)?;
        match LightStoneColorMode::from_code(code) {
            Some(kind) => Ok((kind, next)),
            None => Err(DecodeError::InvalidDiscriminant),
        }
    }
}

/// What is stored of one tile of a tower.
#[derive(Clone, Copy, Debug, PartialEq, Eq, Structural)]
pub struct TileTowerConstructionData {
    pub kind: TileKind,
    /// The height of the stackers below the tile, in small stackers.
    pub height_in_small_stacker: i32,
    /// The rotation of the tile, as an index into the six directions.
    pub hex_rotation: i32,
    /// The identifier under which other elements refer to this tile, where
    /// the tile can hold other elements.
    pub retainer_id: Option<i32>,
    pub power_signal_mode: Option<PowerSignalMode>,
    pub light_stone_color_mode: Option<LightStoneColorMode>,
}

impl TileTowerConstructionData {
    /// Whether the tile is one of the two stacker towers.
    pub open spec fn spec_is_stacker_tower(self) -> bool {
        self.kind == TileKind::StackerTowerOpened || self.kind == TileKind::StackerTowerClosed
    }

    /// Whether the tile is one of the two stacker towers.
    pub fn is_stacker_tower(&self) -> (b: bool)
        ensures
            b == self.spec_is_stacker_tower(),
    {
        match self.kind {
            TileKind::StackerTowerOpened => true,
            TileKind::StackerTowerClosed => true,
            _ => false,
        }
    }
}

/// A tile of a tower together with the tiles that stand on it.
#[derive(Debug)]
pub struct TileTowerTreeNodeData {
    pub index: i32,
    pub construction_data: TileTowerConstructionData,
    pub children: Vec<TileTowerTreeNodeData>,
}

/// The mathematical value of a [`TileTowerTreeNodeData`].
pub struct TileTowerTreeNodeDataView {
    pub index: i32,
    pub construction_data: TileTowerConstructionData,
    pub children: Seq<TileTowerTreeNodeDataView>,
}

/// The mathematical value of a tile and the towers on it.
pub open spec fn tower_view(node: TileTowerTreeNodeData) -> TileTowerTreeNodeDataView
    decreases node,
{
    TileTowerTreeNodeDataView {
        index: node.index,
        construction_data: node.construction_data,
        children: Seq::new(
            node.children@.len(),
            |i: int|
                if 0 <= i < node.children@.len() {
                    tower_view(node.children@[i])
                } else {
                    arbitrary()
                },
        ),
    }
}

impl View for TileTowerTreeNodeData {
    type V = TileTowerTreeNodeDataView;

    open spec fn view(&self) -> TileTowerTreeNodeDataView {
        tower_view(*self)
    }
}

impl TileTowerTreeNodeData {
    /// The towers of the value of a tile are the values of its towers.
    pub proof fn lemma_view_children(&self)
        ensures
            self@.index == self.index,
            self@.construction_data == self.construction_data,
            self@.children.len() == self.children@.len(),
            forall|i: int|
                0 <= i < self.children@.len() ==> #[trigger] self@.children[i]
                    == self.children@[i]@,
    {
    }
}

impl TileTowerConstructionData {
    /// What this tile adds to the number of tiles of `kind`: itself where it
    /// is of that kind, and its stackers where they are.
    pub open spec fn adds(self, kind: TileKind) -> int {
        (if self.kind == kind {
            1int
        } else {
            0int
        }) + (if kind == TileKind::StackerSmall {
            self.height_in_small_stacker as int % 2
        } else {
            0int
        }) + (if kind == TileKind::Stacker {
            self.height_in_small_stacker as int / 2
        } else {
            0int
        })
    }
}

impl TileTowerTreeNodeDataView {
    /// What the tower that starts at this tile adds to the number of tiles
    /// of `kind`: what each of its tiles adds.
    pub open spec fn adds(self, kind: TileKind) -> int
        decreases self,
    {
        self.construction_data.adds(kind) + Self::add_together(
            self.children,
            self.children.len(),
            kind,
        )
    }

    /// What the towers that start at the first `n` of `nodes` add to the
    /// number of tiles of `kind`.
    pub open spec fn add_together(
        nodes: Seq<TileTowerTreeNodeDataView>,
        n: nat,
        kind: TileKind,
    ) -> int
        decreases nodes, n,
    {
        if n == 0 || n > nodes.len() {
            0
        } else {
            Self::add_together(nodes, (n - 1) as nat, kind) + nodes[n - 1].adds(kind)
        }
    }
}

/// A cell of a layer and the tower that stands in it.
#[derive(Debug)]
pub struct CellConstructionData {
    /// The position of the cell relative to the retainer that holds it.
    pub local_hex_position: HexVector,
    pub tree_node_data: TileTowerTreeNodeData,
}

/// The mathematical value of a [`CellConstructionData`].
pub struct CellConstructionDataView {
    pub local_hex_position: HexVector,
    pub tree_node_data: TileTowerTreeNodeDataView,
}

impl View for CellConstructionData {
    type V = CellConstructionDataView;

    open spec fn view(&self) -> CellConstructionDataView {
        CellConstructionDataView {
            local_hex_position: self.local_hex_position,
            tree_node_data: self.tree_node_data@,
        }
    }
}

/// A layer of a course with its cells.
#[derive(Debug)]
pub struct LayerConstructionData {
    pub layer_id: i32,
    pub layer_kind: LayerKind,
    /// The height of the lower side of the layer, a binary32 number of
    /// length units of which a small stacker measures 9/25.
    pub layer_height: Binary32,
    /// The position of the layer on the board. The positions of its cells
    /// are relative to it.
    pub world_hex_position: HexVector,
    pub cell_construction_datas: Vec<CellConstructionData>,
}

/// The mathematical value of a [`LayerConstructionData`].
pub struct LayerConstructionDataView {
    pub layer_id: i32,
    pub layer_kind: LayerKind,
    pub layer_height: Binary32,
    pub world_hex_position: HexVector,
    pub cell_construction_datas: Seq<CellConstructionDataView>,
}

impl View for LayerConstructionData {
    type V = LayerConstructionDataView;

    open spec fn view(&self) -> LayerConstructionDataView {
        LayerConstructionDataView {
            layer_id: self.layer_id,
            layer_kind: self.layer_kind,
            layer_height: self.layer_height,
            world_hex_position: self.world_hex_position,
            cell_construction_datas: cell_views(self.cell_construction_datas@),
        }
    }
}

/// The mathematical values of towers.
pub open spec fn node_views(nodes: Seq<TileTowerTreeNodeData>) -> Seq<TileTowerTreeNodeDataView> {
    nodes.map_values(|n: TileTowerTreeNodeData| n@)
}

/// The mathematical values of cells.
pub open spec fn cell_views(cells: Seq<CellConstructionData>) -> Seq<CellConstructionDataView> {
    cells.map_values(|c: CellConstructionData| c@)
}

/// The mathematical values of layers.
pub open spec fn layer_views(layers: Seq<LayerConstructionData>) -> Seq<
    LayerConstructionDataView,
> {
    layers.map_values(|l: LayerConstructionData| l@)
}

impl CellConstructionData {
    /// The position of the cell on the board, given the layer that holds it.
    pub fn world_hex_position(&self, layer: &LayerConstructionData) -> (position: HexVector)
        requires
            crate::hex::fits_i32(self.local_hex_position.x + layer.world_hex_position.x),
            crate::hex::fits_i32(self.local_hex_position.y + layer.world_hex_position.y),
        ensures
            position.x == self.local_hex_position.x + layer.world_hex_position.x,
            position.y == self.local_hex_position.y + layer.world_hex_position.y,
    {
        self.local_hex_position.add(&layer.world_hex_position)
    }
}

} // verus!
