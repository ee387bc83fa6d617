//! The parts of the toy as they are sold, and the parts that each element of
//! a course is built from.
use crate::layer::{LayerKind, TileKind};
use crate::rail::RailKind;
use crate::wall::WallKind;
use vstd::prelude::*;

verus! {

/// An element of a course is built from no part that is sold.
#[derive(Clone, Copy, Debug, PartialEq, Eq, Structural)]
pub enum Error {
    UnknownElement,
}

/// The parts of the toy as they are sold.
#[derive(Clone, Copy, Debug, PartialEq, Eq, Structural, Hash)]
pub enum Element {
    BaseLayer,
    SmallClearLayer,
    LargeClearLayer,
    MiniBaseLayer,
    HalfMiniBaseLayer,
    MarbleRed,
    MarbleGreen,
    MarbleBlue,
    MarbleSilver,
    MarbleGold,
    Stacker,
    StackerSmall,
    StackerAngled,
    StackerTowerClosed,
    StackerTowerOpened,
    WallSmall,
    WallMedium,
    WallLarge,
    Balcony,
    DoubleBalcony,
    Bernoulli,
    BernoulliSmallLeft,
    BernoulliSmallRight,
    BernoulliSmallStraight,
    Catcher,
    DropHill,
    DropValley,
    FlexTube,
    Narrow,
    Slow,
    StraightLarge,
    StraightMedium,
    StraightSmall,
    UTurn,
    Bridge,
    Cannon,
    Cascade,
    Catapult,
    ColorSwap,
    Cross,
    Curve,
    CurveCrossing,
    Dipper,
    DoubleBigCurve,
    DoubleSmallCurve,
    FlexibleTwoInOneA,
    FlexibleTwoInOneB,
    Flip,
    GoalRail,
    Hammer,
    Jumper,
    LiftEntrance,
    LiftHeightTube,
    LiftExit,
    Loop,
    MultiJunction,
    RibbonCurve,
    Spinner,
    SpiralBase,
    SpiralCurve,
    SpiralEntrance,
    Starter,
    StraightCurveCrossing,
    SwitchInsert,
    ThreeEntranceFunnel,
    ThreeWay,
    TipTube,
    Trampoline,
    Transfer,
    TripleSmallCurve,
    TwoEntranceFunnel,
    TwoInOneSmallCurveA,
    TwoInOneSmallCurveB,
    TwoWay,
    Volcano,
    Zipline,
    BasicClosed,
    BasicOpen,
    BasicStraight,
    GoalBasin,
    Catch,
    Drop,
    Splash,
    StraightTunnel,
    CurveTunnel,
    SwitchTunnel,
    Carousel,
    Helix,
    Mixer,
    Splitter,
    Turntable,
    Controller,
    DomeStarter,
    Elevator,
    Lever,
    DropdownSwitch,
    FinishTrigger,
    FinishArena,
    Trigger,
    Queue,
}

/// The number of parts that are sold.
pub const ELEMENT_COUNT: u32 = 100;

impl Element {
    /// The place of the part in the list of all parts, counted from zero.
    pub open spec fn spec_index(self) -> u32 {
        match self {
            Element::BaseLayer => 0,
            Element::SmallClearLayer => 1,
            Element::LargeClearLayer => 2,
            Element::MiniBaseLayer => 3,
            Element::HalfMiniBaseLayer => 4,
            Element::MarbleRed => 5,
            Element::MarbleGreen => 6,
            Element::MarbleBlue => 7,
            Element::MarbleSilver => 8,
            Element::MarbleGold => 9,
            Element::Stacker => 10,
            Element::StackerSmall => 11,
            Element::StackerAngled => 12,
            Element::StackerTowerClosed => 13,
            Element::StackerTowerOpened => 14,
            Element::WallSmall => 15,
            Element::WallMedium => 16,
            Element::WallLarge => 17,
            Element::Balcony => 18,
            Element::DoubleBalcony => 19,
            Element::Bernoulli => 20,
            Element::BernoulliSmallLeft => 21,
            Element::BernoulliSmallRight => 22,
            Element::BernoulliSmallStraight => 23,
            Element::Catcher => 24,
            Element::DropHill => 25,
            Element::DropValley => 26,
            Element::FlexTube => 27,
            Element::Narrow => 28,
            Element::Slow => 29,
            Element::StraightLarge => 30,
            Element::StraightMedium => 31,
            Element::StraightSmall => 32,
            Element::UTurn => 33,
            Element::Bridge => 34,
            Element::Cannon => 35,
            Element::Cascade => 36,
            Element::Catapult => 37,
            Element::ColorSwap => 38,
            Element::Cross => 39,
            Element::Curve => 40,
            Element::CurveCrossing => 41,
            Element::Dipper => 42,
            Element::DoubleBigCurve => 43,
            Element::DoubleSmallCurve => 44,
            Element::FlexibleTwoInOneA => 45,
            Element::FlexibleTwoInOneB => 46,
            Element::Flip => 47,
            Element::GoalRail => 48,
            Element::Hammer => 49,
            Element::Jumper => 50,
            Element::LiftEntrance => 51,
            Element::LiftHeightTube => 52,
            Element::LiftExit => 53,
            Element::Loop => 54,
            Element::MultiJunction => 55,
            Element::RibbonCurve => 56,
            Element::Spinner => 57,
            Element::SpiralBase => 58,
            Element::SpiralCurve => 59,
            Element::SpiralEntrance => 60,
            Element::Starter => 61,
            Element::StraightCurveCrossing => 62,
            Element::SwitchInsert => 63,
            Element::ThreeEntranceFunnel => 64,
            Element::ThreeWay => 65,
            Element::TipTube => 66,
            Element::Trampoline => 67,
            Element::Transfer => 68,
            Element::TripleSmallCurve => 69,
            Element::TwoEntranceFunnel => 70,
            Element::TwoInOneSmallCurveA => 71,
            Element::TwoInOneSmallCurveB => 72,
            Element::TwoWay => 73,
            Element::Volcano => 74,
            Element::Zipline => 75,
            Element::BasicClosed => 76,
            Element::BasicOpen => 77,
            Element::BasicStraight => 78,
            Element::GoalBasin => 79,
            Element::Catch => 80,
            Element::Drop => 81,
            Element::Splash => 82,
            Element::StraightTunnel => 83,
            Element::CurveTunnel => 84,
            Element::SwitchTunnel => 85,
            Element::Carousel => 86,
            Element::Helix => 87,
            Element::Mixer => 88,
            Element::Splitter => 89,
            Element::Turntable => 90,
            Element::Controller => 91,
            Element::DomeStarter => 92,
            Element::Elevator => 93,
            Element::Lever => 94,
            Element::DropdownSwitch => 95,
            Element::FinishTrigger => 96,
            Element::FinishArena => 97,
            Element::Trigger => 98,
            Element::Queue => 99,
        }
    }

    /// The part at a place of the list of all parts, where the list has
    /// such a place.
    pub open spec fn spec_from_index(index: u32) -> Option<Element> {
        if index == 0 {
            Some(Element::BaseLayer)
        } else if index == 1 {
            Some(Element::SmallClearLayer)
        } else if index == 2 {
            Some(Element::LargeClearLayer)
        } else if index == 3 {
            Some(Element::MiniBaseLayer)
        } else if index == 4 {
            Some(Element::HalfMiniBaseLayer)
        } else if index == 5 {
            Some(Element::MarbleRed)
        } else if index == 6 {
            Some(Element::MarbleGreen)
        } else if index == 7 {
            Some(Element::MarbleBlue)
        } else if index == 8 {
            Some(Element::MarbleSilver)
        } else if index == 9 {
            Some(Element::MarbleGold)
        } else if index == 10 {
            Some(Element::Stacker)
        } else if index == 11 {
            Some(Element::StackerSmall)
        } else if index == 12 {
            Some(Element::StackerAngled)
        } else if index == 13 {
            Some(Element::StackerTowerClosed)
        } else if index == 14 {
            Some(Element::StackerTowerOpened)
        } else if index == 15 {
            Some(Element::WallSmall)
        } else if index == 16 {
            Some(Element::WallMedium)
        } else if index == 17 {
            Some(Element::WallLarge)
        } else if index == 18 {
            Some(Element::Balcony)
        } else if index == 19 {
            Some(Element::DoubleBalcony)
        } else if index == 20 {
            Some(Element::Bernoulli)
        } else if index == 21 {
            Some(Element::BernoulliSmallLeft)
        } else if index == 22 {
            Some(Element::BernoulliSmallRight)
        } else if index == 23 {
            Some(Element::BernoulliSmallStraight)
        } else if index == 24 {
            Some(Element::Catcher)
        } else if index == 25 {
            Some(Element::DropHill)
        } else if index == 26 {
            Some(Element::DropValley)
        } else if index == 27 {
            Some(Element::FlexTube)
        } else if index == 28 {
            Some(Element::Narrow)
        } else if index == 29 {
            Some(Element::Slow)
        } else if index == 30 {
            Some(Element::StraightLarge)
        } else if index == 31 {
            Some(Element::StraightMedium)
        } else if index == 32 {
            Some(Element::StraightSmall)
        } else if index == 33 {
            Some(Element::UTurn)
        } else if index == 34 {
            Some(Element::Bridge)
        } else if index == 35 {
            Some(Element::Cannon)
        } else if index == 36 {
            Some(Element::Cascade)
        } else if index == 37 {
            Some(Element::Catapult)
        } else if index == 38 {
            Some(Element::ColorSwap)
        } else if index == 39 {
            Some(Element::Cross)
        } else if index == 40 {
            Some(Element::Curve)
        } else if index == 41 {
            Some(Element::CurveCrossing)
        } else if index == 42 {
            Some(Element::Dipper)
        } else if index == 43 {
            Some(Element::DoubleBigCurve)
        } else if index == 44 {
            Some(Element::DoubleSmallCurve)
        } else if index == 45 {
            Some(Element::FlexibleTwoInOneA)
        } else if index == 46 {
            Some(Element::FlexibleTwoInOneB)
        } else if index == 47 {
            Some(Element::Flip)
        } else if index == 48 {
            Some(Element::GoalRail)
        } else if index == 49 {
            Some(Element::Hammer)
        } else if index == 50 {
            Some(Element::Jumper)
        } else if index == 51 {
            Some(Element::LiftEntrance)
        } else if index == 52 {
            Some(Element::LiftHeightTube)
        } else if index == 53 {
            Some(Element::LiftExit)
        } else if index == 54 {
            Some(Element::Loop)
        } else if index == 55 {
            Some(Element::MultiJunction)
        } else if index == 56 {
            Some(Element::RibbonCurve)
        } else if index == 57 {
            Some(Element::Spinner)
        } else if index == 58 {
            Some(Element::SpiralBase)
        } else if index == 59 {
            Some(Element::SpiralCurve)
        } else if index == 60 {
            Some(Element::SpiralEntrance)
        } else if index == 61 {
            Some(Element::Starter)
        } else if index == 62 {
            Some(Element::StraightCurveCrossing)
        } else if index == 63 {
            Some(Element::SwitchInsert)
        } else if index == 64 {
            Some(Element::ThreeEntranceFunnel)
        } else if index == 65 {
            Some(Element::ThreeWay)
        } else if index == 66 {
            Some(Element::TipTube)
        } else if index == 67 {
            Some(Element::Trampoline)
        } else if index == 68 {
            Some(Element::Transfer)
        } else if index == 69 {
            Some(Element::TripleSmallCurve)
        } else if index == 70 {
            Some(Element::TwoEntranceFunnel)
        } else if index == 71 {
            Some(Element::TwoInOneSmallCurveA)
        } else if index == 72 {
            Some(Element::TwoInOneSmallCurveB)
        } else if index == 73 {
            Some(Element::TwoWay)
        } else if index == 74 {
            Some(Element::Volcano)
        } else if index == 75 {
            Some(Element::Zipline)
        } else if index == 76 {
            Some(Element::BasicClosed)
        } else if index == 77 {
            Some(Element::BasicOpen)
        } else if index == 78 {
            Some(Element::BasicStraight)
        } else if index == 79 {
            Some(Element::GoalBasin)
        } else if index == 80 {
            Some(Element::Catch)
        } else if index == 81 {
            Some(Element::Drop)
        } else if index == 82 {
            Some(Element::Splash)
        } else if index == 83 {
            Some(Element::StraightTunnel)
        } else if index == 84 {
            Some(Element::CurveTunnel)
        } else if index == 85 {
            Some(Element::SwitchTunnel)
        } else if index == 86 {
            Some(Element::Carousel)
        } else if index == 87 {
            Some(Element::Helix)
        } else if index == 88 {
            Some(Element::Mixer)
        } else if index == 89 {
            Some(Element::Splitter)
        } else if index == 90 {
            Some(Element::Turntable)
        } else if index == 91 {
            Some(Element::Controller)
        } else if index == 92 {
            Some(Element::DomeStarter)
        } else if index == 93 {
            Some(Element::Elevator)
        } else if index == 94 {
            Some(Element::Lever)
        } else if index == 95 {
            Some(Element::DropdownSwitch)
        } else if index == 96 {
            Some(Element::FinishTrigger)
        } else if index == 97 {
            Some(Element::FinishArena)
        } else if index == 98 {
            Some(Element::Trigger)
        } else if index == 99 {
            Some(Element::Queue)
        } else {
            None
        }
    }

    /// The place of the part in the list of all parts, counted from zero.
    pub fn index(&self) -> (index: u32)
        ensures
            index == self.spec_index(),
            index < ELEMENT_COUNT,
            Element::spec_from_index(index) == Some(*self),
    {
        match self {
            Element::BaseLayer => 0,
            Element::SmallClearLayer => 1,
            Element::LargeClearLayer => 2,
            Element::MiniBaseLayer => 3,
            Element::HalfMiniBaseLayer => 4,
            Element::MarbleRed => 5,
            Element::MarbleGreen => 6,
            Element::MarbleBlue => 7,
            Element::MarbleSilver => 8,
            Element::MarbleGold => 9,
            Element::Stacker => 10,
            Element::StackerSmall => 11,
            Element::StackerAngled => 12,
            Element::StackerTowerClosed => 13,
            Element::StackerTowerOpened => 14,
            Element::WallSmall => 15,
            Element::WallMedium => 16,
            Element::WallLarge => 17,
            Element::Balcony => 18,
            Element::DoubleBalcony => 19,
            Element::Bernoulli => 20,
            Element::BernoulliSmallLeft => 21,
            Element::BernoulliSmallRight => 22,
            Element::BernoulliSmallStraight => 23,
            Element::Catcher => 24,
            Element::DropHill => 25,
            Element::DropValley => 26,
            Element::FlexTube => 27,
            Element::Narrow => 28,
            Element::Slow => 29,
            Element::StraightLarge => 30,
            Element::StraightMedium => 31,
            Element::StraightSmall => 32,
            Element::UTurn => 33,
            Element::Bridge => 34,
            Element::Cannon => 35,
            Element::Cascade => 36,
            Element::Catapult => 37,
            Element::ColorSwap => 38,
            Element::Cross => 39,
            Element::Curve => 40,
            Element::CurveCrossing => 41,
            Element::Dipper => 42,
            Element::DoubleBigCurve => 43,
            Element::DoubleSmallCurve => 44,
            Element::FlexibleTwoInOneA => 45,
            Element::FlexibleTwoInOneB => 46,
            Element::Flip => 47,
            Element::GoalRail => 48,
            Element::Hammer => 49,
            Element::Jumper => 50,
            Element::LiftEntrance => 51,
            Element::LiftHeightTube => 52,
            Element::LiftExit => 53,
            Element::Loop => 54,
            Element::MultiJunction => 55,
            Element::RibbonCurve => 56,
            Element::Spinner => 57,
            Element::SpiralBase => 58,
            Element::SpiralCurve => 59,
            Element::SpiralEntrance => 60,
            Element::Starter => 61,
            Element::StraightCurveCrossing => 62,
            Element::SwitchInsert => 63,
            Element::ThreeEntranceFunnel => 64,
            Element::ThreeWay => 65,
            Element::TipTube => 66,
            Element::Trampoline => 67,
            Element::Transfer => 68,
            Element::TripleSmallCurve => 69,
            Element::TwoEntranceFunnel => 70,
            Element::TwoInOneSmallCurveA => 71,
            Element::TwoInOneSmallCurveB => 72,
            Element::TwoWay => 73,
            Element::Volcano => 74,
            Element::Zipline => 75,
            Element::BasicClosed => 76,
            Element::BasicOpen => 77,
            Element::BasicStraight => 78,
            Element::GoalBasin => 79,
            Element::Catch => 80,
            Element::Drop => 81,
            Element::Splash => 82,
            Element::StraightTunnel => 83,
            Element::CurveTunnel => 84,
            Element::SwitchTunnel => 85,
            Element::Carousel => 86,
            Element::Helix => 87,
            Element::Mixer => 88,
            Element::Splitter => 89,
            Element::Turntable => 90,
            Element::Controller => 91,
            Element::DomeStarter => 92,
            Element::Elevator => 93,
            Element::Lever => 94,
            Element::DropdownSwitch => 95,
            Element::FinishTrigger => 96,
            Element::FinishArena => 97,
            Element::Trigger => 98,
            Element::Queue => 99,
        }
    }

    /// The part at a place of the list of all parts, or `None` where the
    /// list has no such place.
    pub fn from_index(index: u32) -> (element: Option<Element>)
        ensures
            element == Element::spec_from_index(index),
            element is Some <==> index < ELEMENT_COUNT,
            element matches Some(e) ==> e.spec_index() == index,
    {
        match index {
            0 => Some(Element::BaseLayer),
            1 => Some(Element::SmallClearLayer),
            2 => Some(Element::LargeClearLayer),
            3 => Some(Element::MiniBaseLayer),
            4 => Some(Element::HalfMiniBaseLayer),
            5 => Some(Element::MarbleRed),
            6 => Some(Element::MarbleGreen),
            7 => Some(Element::MarbleBlue),
            8 => Some(Element::MarbleSilver),
            9 => Some(Element::MarbleGold),
            10 => Some(Element::Stacker),
            11 => Some(Element::StackerSmall),
            12 => Some(Element::StackerAngled),
            13 => Some(Element::StackerTowerClosed),
            14 => Some(Element::StackerTowerOpened),
            15 => Some(Element::WallSmall),
            16 => Some(Element::WallMedium),
            17 => Some(Element::WallLarge),
            18 => Some(Element::Balcony),
            19 => Some(Element::DoubleBalcony),
            20 => Some(Element::Bernoulli),
            21 => Some(Element::BernoulliSmallLeft),
            22 => Some(Element::BernoulliSmallRight),
            23 => Some(Element::BernoulliSmallStraight),
            24 => Some(Element::Catcher),
            25 => Some(Element::DropHill),
            26 => Some(Element::DropValley),
            27 => Some(Element::FlexTube),
            28 => Some(Element::Narrow),
            29 => Some(Element::Slow),
            30 => Some(Element::StraightLarge),
            31 => Some(Element::StraightMedium),
            32 => Some(Element::StraightSmall),
            33 => Some(Element::UTurn),
            34 => Some(Element::Bridge),
            35 => Some(Element::Cannon),
            36 => Some(Element::Cascade),
            37 => Some(Element::Catapult),
            38 => Some(Element::ColorSwap),
            39 => Some(Element::Cross),
            40 => Some(Element::Curve),
            41 => Some(Element::CurveCrossing),
            42 => Some(Element::Dipper),
            43 => Some(Element::DoubleBigCurve),
            44 => Some(Element::DoubleSmallCurve),
            45 => Some(Element::FlexibleTwoInOneA),
            46 => Some(Element::FlexibleTwoInOneB),
            47 => Some(Element::Flip),
            48 => Some(Element::GoalRail),
            49 => Some(Element::Hammer),
            50 => Some(Element::Jumper),
            51 => Some(Element::LiftEntrance),
            52 => Some(Element::LiftHeightTube),
            53 => Some(Element::LiftExit),
            54 => Some(Element::Loop),
            55 => Some(Element::MultiJunction),
            56 => Some(Element::RibbonCurve),
            57 => Some(Element::Spinner),
            58 => Some(Element::SpiralBase),
            59 => Some(Element::SpiralCurve),
            60 => Some(Element::SpiralEntrance),
            61 => Some(Element::Starter),
            62 => Some(Element::StraightCurveCrossing),
            63 => Some(Element::SwitchInsert),
            64 => Some(Element::ThreeEntranceFunnel),
            65 => Some(Element::ThreeWay),
            66 => Some(Element::TipTube),
            67 => Some(Element::Trampoline),
            68 => Some(Element::Transfer),
            69 => Some(Element::TripleSmallCurve),
            70 => Some(Element::TwoEntranceFunnel),
            71 => Some(Element::TwoInOneSmallCurveA),
            72 => Some(Element::TwoInOneSmallCurveB),
            73 => Some(Element::TwoWay),
            74 => Some(Element::Volcano),
            75 => Some(Element::Zipline),
            76 => Some(Element::BasicClosed),
            77 => Some(Element::BasicOpen),
            78 => Some(Element::BasicStraight),
            79 => Some(Element::GoalBasin),
            80 => Some(Element::Catch),
            81 => Some(Element::Drop),
            82 => Some(Element::Splash),
            83 => Some(Element::StraightTunnel),
            84 => Some(Element::CurveTunnel),
            85 => Some(Element::SwitchTunnel),
            86 => Some(Element::Carousel),
            87 => Some(Element::Helix),
            88 => Some(Element::Mixer),
            89 => Some(Element::Splitter),
            90 => Some(Element::Turntable),
            91 => Some(Element::Controller),
            92 => Some(Element::DomeStarter),
            93 => Some(Element::Elevator),
            94 => Some(Element::Lever),
            95 => Some(Element::DropdownSwitch),
            96 => Some(Element::FinishTrigger),
            97 => Some(Element::FinishArena),
            98 => Some(Element::Trigger),
            99 => Some(Element::Queue),
            _ => None,
        }
    }

    /// The parts that a tile of `tile_kind` is built from. A tile that takes
    /// two parts of a kind lists that part twice. A kind of tile that is
    /// built from no part that is sold apart has no parts.
    pub open spec fn spec_elements_for_tilekind(tile_kind: TileKind) -> Seq<Element> {
        match tile_kind {
            TileKind::Nothing => Seq::empty(),
            TileKind::Starter => seq![Element::Starter],
            TileKind::Curve => seq![Element::Curve],
            TileKind::Catch => seq![Element::Catch, Element::BasicClosed],
            TileKind::GoalBasin => seq![Element::GoalBasin, Element::BasicClosed],
            TileKind::Drop => seq![Element::Drop, Element::BasicOpen],
            TileKind::Hammer => seq![Element::Hammer],
            TileKind::Catapult => seq![Element::Catapult],
            TileKind::Cross => seq![Element::Cross],
            TileKind::Threeway => seq![Element::ThreeWay],
            TileKind::TwoWay => seq![Element::TwoWay],
            TileKind::Spiral => seq![Element::TwoEntranceFunnel],
            TileKind::Splash => seq![Element::Splash],
            TileKind::Loop => seq![Element::Loop],
            TileKind::Cannon => seq![Element::Cannon],
            TileKind::Stacker => seq![Element::Stacker],
            TileKind::StackerSmall => seq![Element::StackerSmall],
            TileKind::SwitchLeft => seq![Element::TwoWay, Element::SwitchInsert],
            TileKind::SwitchRight => seq![Element::TwoWay, Element::SwitchInsert],
            TileKind::GoalRail => seq![Element::GoalRail],
            TileKind::StackerBatch => Seq::empty(),
            TileKind::Cascade => seq![Element::Cascade],
            TileKind::StraightTunnel => seq![Element::StraightTunnel, Element::BasicStraight],
            TileKind::CurveTunnel => seq![Element::CurveTunnel, Element::BasicClosed],
            TileKind::SwitchTunnel => seq![Element::SwitchTunnel, Element::BasicClosed],
            TileKind::Trampolin0 => seq![Element::Trampoline],
            TileKind::Trampolin1 => seq![Element::Trampoline, Element::StackerAngled],
            TileKind::Trampolin2 => seq![
                Element::Trampoline,
                Element::StackerAngled,
                Element::StackerAngled,
            ],
            TileKind::LiftSmall => seq![
                Element::LiftEntrance,
                Element::LiftExit,
                Element::LiftHeightTube,
            ],
            TileKind::LiftLarge => seq![
                Element::LiftEntrance,
                Element::LiftExit,
                Element::LiftHeightTube,
                Element::LiftHeightTube,
            ],
            TileKind::Flip => seq![Element::Flip],
            TileKind::TipTube => seq![Element::TipTube],
            TileKind::Volcano => seq![Element::Volcano],
            TileKind::Jumper => seq![Element::Jumper],
            TileKind::Transfer => seq![Element::Transfer],
            TileKind::ZiplineStart => seq![Element::Zipline],
            TileKind::ZiplineEnd => Seq::empty(),
            TileKind::Bridge => seq![Element::Bridge],
            TileKind::ScrewSmall => seq![Element::SpiralBase, Element::SpiralEntrance],
            TileKind::ScrewMedium => seq![
                Element::SpiralBase,
                Element::SpiralEntrance,
                Element::SpiralCurve,
                Element::SpiralCurve,
                Element::SpiralCurve,
                Element::SpiralCurve,
                Element::SpiralCurve,
            ],
            TileKind::ScrewLarge => seq![
                Element::SpiralBase,
                Element::SpiralEntrance,
                Element::SpiralCurve,
                Element::SpiralCurve,
                Element::SpiralCurve,
                Element::SpiralCurve,
                Element::SpiralCurve,
                Element::SpiralCurve,
                Element::SpiralCurve,
                Element::SpiralCurve,
                Element::SpiralCurve,
                Element::SpiralCurve,
                Element::SpiralCurve,
                Element::SpiralCurve,
            ],
            TileKind::MixerOffsetExits => seq![Element::Mixer],
            TileKind::Splitter => seq![Element::Splitter],
            TileKind::StackerTowerClosed => seq![Element::StackerTowerClosed],
            TileKind::StackerTowerOpened => seq![Element::StackerTowerOpened],
            TileKind::DoubleBalcony => seq![Element::DoubleBalcony],
            TileKind::MixerSameExits => seq![Element::Mixer],
            TileKind::DipperLeft => seq![Element::Dipper],
            TileKind::DipperRight => seq![Element::Dipper],
            TileKind::Helix => seq![Element::Helix],
            TileKind::Turntable => seq![Element::Turntable],
            TileKind::Spinner => seq![Element::Spinner],
            TileKind::TwoInOneSmallCurveA => seq![Element::TwoInOneSmallCurveA],
            TileKind::TwoInOneSmallCurveB => seq![Element::TwoInOneSmallCurveB],
            TileKind::FlexibleTwoInOneB => seq![Element::FlexibleTwoInOneB],
            TileKind::RibbonCurve => seq![Element::RibbonCurve],
            TileKind::ThreeEntranceFunnel => seq![Element::ThreeEntranceFunnel],
            TileKind::CurveCrossing => seq![Element::CurveCrossing],
            TileKind::DoubleBigCurve => seq![Element::DoubleBigCurve],
            TileKind::DoubleSmallCurve => seq![Element::DoubleSmallCurve],
            TileKind::MultiJunction => seq![Element::MultiJunction],
            TileKind::StraightCurveCrossing => seq![Element::StraightCurveCrossing],
            TileKind::TripleSmallCurve => seq![Element::TripleSmallCurve],
            TileKind::FlexibleTwoInOneA => seq![Element::FlexibleTwoInOneA],
            TileKind::ColorSwapEmpty => seq![Element::ColorSwap],
            TileKind::ColorSwapPreloaded => seq![Element::ColorSwap],
            TileKind::CarouselSameExits => seq![Element::Carousel],
            TileKind::CarouselOffsetExits => seq![Element::Carousel],
            TileKind::DomeStarter => seq![Element::DomeStarter],
            TileKind::FinishTrigger => seq![Element::FinishTrigger],
            TileKind::FinishArena => seq![Element::FinishArena],
            TileKind::Trigger => seq![Element::Trigger],
            TileKind::DropdownSwitchLeft => seq![Element::DropdownSwitch],
            TileKind::DropdownSwitchRight => seq![Element::DropdownSwitch],
            TileKind::Queue => seq![Element::Queue],
            TileKind::Lever => seq![Element::Lever],
            TileKind::Elevator => seq![Element::Elevator],
            TileKind::LightBase => Seq::empty(),
            TileKind::LightStacker => Seq::empty(),
            TileKind::LightStackerSmall => Seq::empty(),
            TileKind::LightStackerBatch => Seq::empty(),
            TileKind::Releaser1 => Seq::empty(),
            TileKind::Releaser2 => Seq::empty(),
            TileKind::Releaser3 => Seq::empty(),
            TileKind::Releaser4 => Seq::empty(),
        }
    }

    /// The parts that a tile of `tile_kind` is built from.
    pub fn elements_for_tilekind(tile_kind: &TileKind) -> (elements: Vec<Element>)
        ensures
            elements@ == Element::spec_elements_for_tilekind(*tile_kind),
    {
        let elements = match tile_kind {
            TileKind::Nothing => Vec::new(),
            TileKind::Starter => vec![Element::Starter],
            TileKind::Curve => vec![Element::Curve],
            TileKind::Catch => vec![Element::Catch, Element::BasicClosed],
            TileKind::GoalBasin => vec![Element::GoalBasin, Element::BasicClosed],
            TileKind::Drop => vec![Element::Drop, Element::BasicOpen],
            TileKind::Hammer => vec![Element::Hammer],
            TileKind::Catapult => vec![Element::Catapult],
            TileKind::Cross => vec![Element::Cross],
            TileKind::Threeway => vec![Element::ThreeWay],
            TileKind::TwoWay => vec![Element::TwoWay],
            TileKind::Spiral => vec![Element::TwoEntranceFunnel],
            TileKind::Splash => vec![Element::Splash],
            TileKind::Loop => vec![Element::Loop],
            TileKind::Cannon => vec![Element::Cannon],
            TileKind::Stacker => vec![Element::Stacker],
            TileKind::StackerSmall => vec![Element::StackerSmall],
            TileKind::SwitchLeft => vec![Element::TwoWay, Element::SwitchInsert],
            TileKind::SwitchRight => vec![Element::TwoWay, Element::SwitchInsert],
            TileKind::GoalRail => vec![Element::GoalRail],
            TileKind::StackerBatch => Vec::new(),
            TileKind::Cascade => vec![Element::Cascade],
            TileKind::StraightTunnel => vec![Element::StraightTunnel, Element::BasicStraight],
            TileKind::CurveTunnel => vec![Element::CurveTunnel, Element::BasicClosed],
            TileKind::SwitchTunnel => vec![Element::SwitchTunnel, Element::BasicClosed],
            TileKind::Trampolin0 => vec![Element::Trampoline],
            TileKind::Trampolin1 => vec![Element::Trampoline, Element::StackerAngled],
            TileKind::Trampolin2 => vec![
                Element::Trampoline,
                Element::StackerAngled,
                Element::StackerAngled,
            ],
            TileKind::LiftSmall => vec![
                Element::LiftEntrance,
                Element::LiftExit,
                Element::LiftHeightTube,
            ],
            TileKind::LiftLarge => vec![
                Element::LiftEntrance,
                Element::LiftExit,
                Element::LiftHeightTube,
                Element::LiftHeightTube,
            ],
            TileKind::Flip => vec![Element::Flip],
            TileKind::TipTube => vec![Element::TipTube],
            TileKind::Volcano => vec![Element::Volcano],
            TileKind::Jumper => vec![Element::Jumper],
            TileKind::Transfer => vec![Element::Transfer],
            TileKind::ZiplineStart => vec![Element::Zipline],
            TileKind::ZiplineEnd => Vec::new(),
            TileKind::Bridge => vec![Element::Bridge],
            TileKind::ScrewSmall => vec![Element::SpiralBase, Element::SpiralEntrance],
            TileKind::ScrewMedium => vec![
                Element::SpiralBase,
                Element::SpiralEntrance,
                Element::SpiralCurve,
                Element::SpiralCurve,
                Element::SpiralCurve,
                Element::SpiralCurve,
                Element::SpiralCurve,
            ],
            TileKind::ScrewLarge => vec![
                Element::SpiralBase,
                Element::SpiralEntrance,
                Element::SpiralCurve,
                Element::SpiralCurve,
                Element::SpiralCurve,
                Element::SpiralCurve,
                Element::SpiralCurve,
                Element::SpiralCurve,
                Element::SpiralCurve,
                Element::SpiralCurve,
                Element::SpiralCurve,
                Element::SpiralCurve,
                Element::SpiralCurve,
                Element::SpiralCurve,
            ],
            TileKind::MixerOffsetExits => vec![Element::Mixer],
            TileKind::Splitter => vec![Element::Splitter],
            TileKind::StackerTowerClosed => vec![Element::StackerTowerClosed],
            TileKind::StackerTowerOpened => vec![Element::StackerTowerOpened],
            TileKind::DoubleBalcony => vec![Element::DoubleBalcony],
            TileKind::MixerSameExits => vec![Element::Mixer],
            TileKind::DipperLeft => vec![Element::Dipper],
            TileKind::DipperRight => vec![Element::Dipper],
            TileKind::Helix => vec![Element::Helix],
            TileKind::Turntable => vec![Element::Turntable],
            TileKind::Spinner => vec![Element::Spinner],
            TileKind::TwoInOneSmallCurveA => vec![Element::TwoInOneSmallCurveA],
            TileKind::TwoInOneSmallCurveB => vec![Element::TwoInOneSmallCurveB],
            TileKind::FlexibleTwoInOneB => vec![Element::FlexibleTwoInOneB],
            TileKind::RibbonCurve => vec![Element::RibbonCurve],
            TileKind::ThreeEntranceFunnel => vec![Element::ThreeEntranceFunnel],
            TileKind::CurveCrossing => vec![Element::CurveCrossing],
            TileKind::DoubleBigCurve => vec![Element::DoubleBigCurve],
            TileKind::DoubleSmallCurve => vec![Element::DoubleSmallCurve],
            TileKind::MultiJunction => vec![Element::MultiJunction],
            TileKind::StraightCurveCrossing => vec![Element::StraightCurveCrossing],
            TileKind::TripleSmallCurve => vec![Element::TripleSmallCurve],
            TileKind::FlexibleTwoInOneA => vec![Element::FlexibleTwoInOneA],
            TileKind::ColorSwapEmpty => vec![Element::ColorSwap],
            TileKind::ColorSwapPreloaded => vec![Element::ColorSwap],
            TileKind::CarouselSameExits => vec![Element::Carousel],
            TileKind::CarouselOffsetExits => vec![Element::Carousel],
            TileKind::DomeStarter => vec![Element::DomeStarter],
            TileKind::FinishTrigger => vec![Element::FinishTrigger],
            TileKind::FinishArena => vec![Element::FinishArena],
            TileKind::Trigger => vec![Element::Trigger],
            TileKind::DropdownSwitchLeft => vec![Element::DropdownSwitch],
            TileKind::DropdownSwitchRight => vec![Element::DropdownSwitch],
            TileKind::Queue => vec![Element::Queue],
            TileKind::Lever => vec![Element::Lever],
            TileKind::Elevator => vec![Element::Elevator],
            TileKind::LightBase => Vec::new(),
            TileKind::LightStacker => Vec::new(),
            TileKind::LightStackerSmall => Vec::new(),
            TileKind::LightStackerBatch => Vec::new(),
            TileKind::Releaser1 => Vec::new(),
            TileKind::Releaser2 => Vec::new(),
            TileKind::Releaser3 => Vec::new(),
            TileKind::Releaser4 => Vec::new(),
        };
        assert(elements@ =~= Element::spec_elements_for_tilekind(*tile_kind));
        elements
    }

    /// The part that a layer of `layer_kind` is, where it is one that is
    /// sold.
    pub open spec fn spec_for_layerkind(layer_kind: LayerKind) -> Result<Element, Error> {
        match layer_kind {
            LayerKind::BaseLayerPiece => Ok(Element::BaseLayer),
            LayerKind::LargeLayer => Ok(Element::LargeClearLayer),
            LayerKind::SmallLayer => Ok(Element::SmallClearLayer),
            LayerKind::BaseLayer => Err(Error::UnknownElement),
            LayerKind::LargeGhostLayer => Err(Error::UnknownElement),
        }
    }

    /// The part that a wall of `wall_kind` is.
    pub open spec fn spec_for_wallkind(wall_kind: WallKind) -> Element {
        match wall_kind {
            WallKind::StraightSmall => Element::WallSmall,
            WallKind::StraightMedium => Element::WallMedium,
            WallKind::StraightLarge => Element::WallLarge,
        }
    }

    /// The part that a rail of `rail_kind` is. A flexible tube is one part
    /// whatever its bend. A straight rail is one of three parts, which its
    /// kind does not tell apart.
    pub open spec fn spec_for_railkind(rail_kind: RailKind) -> Result<Element, Error> {
        match rail_kind {
            RailKind::Straight => Err(Error::UnknownElement),
            RailKind::Bernoulli => Ok(Element::Bernoulli),
            RailKind::DropHill => Ok(Element::DropHill),
            RailKind::DropValley => Ok(Element::DropValley),
            RailKind::UTurn => Ok(Element::UTurn),
            RailKind::Narrow => Ok(Element::Narrow),
            RailKind::Slow => Ok(Element::Slow),
            RailKind::BernoulliSmallStraight => Ok(Element::BernoulliSmallStraight),
            RailKind::BernoulliSmallLeft => Ok(Element::BernoulliSmallLeft),
            RailKind::BernoulliSmallRight => Ok(Element::BernoulliSmallRight),
            RailKind::FlexTube0 => Ok(Element::FlexTube),
            RailKind::FlexTube60 => Ok(Element::FlexTube),
            RailKind::FlexTube120 => Ok(Element::FlexTube),
            RailKind::FlexTube180 => Ok(Element::FlexTube),
            RailKind::FlexTube240 => Ok(Element::FlexTube),
            RailKind::FlexTube300 => Ok(Element::FlexTube),
        }
    }

    /// The part that a layer of `layer_kind` is.
    pub fn element_for_layerkind(layer_kind: &LayerKind) -> (element: Result<Element, Error>)
        ensures
            element == Element::spec_for_layerkind(*layer_kind),
    {
        match layer_kind {
            LayerKind::BaseLayerPiece => Ok(Element::BaseLayer),
            LayerKind::LargeLayer => Ok(Element::LargeClearLayer),
            LayerKind::SmallLayer => Ok(Element::SmallClearLayer),
            _ => Err(Error::UnknownElement),
        }
    }

    /// The part that a wall of `wall_kind` is.
    pub fn element_for_wallkind(wall_kind: &WallKind) -> (element: Element)
        ensures
            element == Element::spec_for_wallkind(*wall_kind),
    {
        match wall_kind {
            WallKind::StraightSmall => Element::WallSmall,
            WallKind::StraightMedium => Element::WallMedium,
            WallKind::StraightLarge => Element::WallLarge,
        }
    }

    /// The part that a rail of `rail_kind` is.
    pub fn element_for_railkind(rail_kind: &RailKind) -> (element: Result<Element, Error>)
        ensures
            element == Element::spec_for_railkind(*rail_kind),
    {
        match rail_kind {
            RailKind::Straight => Err(Error::UnknownElement),
            RailKind::Bernoulli => Ok(Element::Bernoulli),
            RailKind::DropHill => Ok(Element::DropHill),
            RailKind::DropValley => Ok(Element::DropValley),
            RailKind::UTurn => Ok(Element::UTurn),
            RailKind::Narrow => Ok(Element::Narrow),
            RailKind::Slow => Ok(Element::Slow),
            RailKind::BernoulliSmallStraight => Ok(Element::BernoulliSmallStraight),
            RailKind::BernoulliSmallLeft => Ok(Element::BernoulliSmallLeft),
            RailKind::BernoulliSmallRight => Ok(Element::BernoulliSmallRight),
            RailKind::FlexTube0 => Ok(Element::FlexTube),
            RailKind::FlexTube60 => Ok(Element::FlexTube),
            RailKind::FlexTube120 => Ok(Element::FlexTube),
            RailKind::FlexTube180 => Ok(Element::FlexTube),
            RailKind::FlexTube240 => Ok(Element::FlexTube),
            RailKind::FlexTube300 => Ok(Element::FlexTube),
        }
    }
}

} // verus!
