//! The kinds of parts as the bill of materials of a course is printed: a
//! straight rail of each length and a balcony are kinds of their own, and
//! what the application stores but no course is built from has no kind.
use crate::layer;
use crate::processors::StraightRail;
use crate::rail;
use vstd::prelude::*;

verus! {

/// Why an element of a course is no part.
#[derive(Clone, Copy, Debug, PartialEq, Eq, Structural)]
pub enum MurmelbahnError {
    /// A layer or a rail of a kind that is no part.
    UnsupportedPiece,
    /// A tile of a kind that is no part.
    ConversionFailed,
}

/// The kinds of layers that courses are built on.
#[derive(Clone, Copy, Debug, PartialEq, Eq, Structural, Hash)]
pub enum LayerKind {
    Base,
    SmallClear,
    LargeClear,
}

impl LayerKind {
    /// The kind of layer that an element of a course of kind `value` is, where it is
    /// one. A base plate that is stored whole and a clear layer that is only shown are none.
    pub open spec fn spec_try_from(value: layer::LayerKind) -> Result<LayerKind, MurmelbahnError> {
        match value {
            layer::LayerKind::BaseLayerPiece => Ok(LayerKind::Base),
            layer::LayerKind::BaseLayer => Err(MurmelbahnError::UnsupportedPiece),
            layer::LayerKind::LargeLayer => Ok(LayerKind::LargeClear),
            layer::LayerKind::LargeGhostLayer => Err(MurmelbahnError::UnsupportedPiece),
            layer::LayerKind::SmallLayer => Ok(LayerKind::SmallClear),
        }
    }

    /// The kind of layer that an element of a course of kind `value` is.
    pub fn try_from(value: layer::LayerKind) -> (kind: Result<LayerKind, MurmelbahnError>)
        ensures
            kind == LayerKind::spec_try_from(value),
    {
        match value {
            layer::LayerKind::BaseLayerPiece => Ok(LayerKind::Base),
            layer::LayerKind::LargeLayer => Ok(LayerKind::LargeClear),
            layer::LayerKind::SmallLayer => Ok(LayerKind::SmallClear),
            _ => Err(MurmelbahnError::UnsupportedPiece),
        }
    }
}
/// The kinds of rails, a straight rail of each length being a kind of its own.
#[derive(Clone, Copy, Debug, PartialEq, Eq, Structural, Hash)]
pub enum RailKind {
    StraightSmall,
    StraightMedium,
    StraightLarge,
    Bernoulli,
    DropHill,
    DropValley,
    UTurn,
    Narrow,
    Slow,
    BernoulliSmallStraight,
    BernoulliSmallLeft,
    BernoulliSmallRight,
    FlexTube0,
    FlexTube60,
    FlexTube120,
    FlexTube180,
    FlexTube240,
    FlexTube300,
}

impl RailKind {
    /// The kind of rail that an element of a course of kind `value` is, where it is
    /// one. A straight rail whose length is not known is none.
    pub open spec fn spec_try_from(value: rail::RailKind) -> Result<RailKind, MurmelbahnError> {
        match value {
            rail::RailKind::Straight => Err(MurmelbahnError::UnsupportedPiece),
            rail::RailKind::Bernoulli => Ok(RailKind::Bernoulli),
            rail::RailKind::DropHill => Ok(RailKind::DropHill),
            rail::RailKind::DropValley => Ok(RailKind::DropValley),
            rail::RailKind::UTurn => Ok(RailKind::UTurn),
            rail::RailKind::Narrow => Ok(RailKind::Narrow),
            rail::RailKind::Slow => Ok(RailKind::Slow),
            rail::RailKind::BernoulliSmallStraight => Ok(RailKind::BernoulliSmallStraight),
            rail::RailKind::BernoulliSmallLeft => Ok(RailKind::BernoulliSmallLeft),
            rail::RailKind::BernoulliSmallRight => Ok(RailKind::BernoulliSmallRight),
            rail::RailKind::FlexTube0 => Ok(RailKind::FlexTube0),
            rail::RailKind::FlexTube60 => Ok(RailKind::FlexTube60),
            rail::RailKind::FlexTube120 => Ok(RailKind::FlexTube120),
            rail::RailKind::FlexTube180 => Ok(RailKind::FlexTube180),
            rail::RailKind::FlexTube240 => Ok(RailKind::FlexTube240),
            rail::RailKind::FlexTube300 => Ok(RailKind::FlexTube300),
        }
    }

    /// The kind of rail that an element of a course of kind `value` is.
    pub fn try_from(value: rail::RailKind) -> (kind: Result<RailKind, MurmelbahnError>)
        ensures
            kind == RailKind::spec_try_from(value),
    {
        match value {
            rail::RailKind::Bernoulli => Ok(RailKind::Bernoulli),
            rail::RailKind::DropHill => Ok(RailKind::DropHill),
            rail::RailKind::DropValley => Ok(RailKind::DropValley),
            rail::RailKind::UTurn => Ok(RailKind::UTurn),
            rail::RailKind::Narrow => Ok(RailKind::Narrow),
            rail::RailKind::Slow => Ok(RailKind::Slow),
            rail::RailKind::BernoulliSmallStraight => Ok(RailKind::BernoulliSmallStraight),
            rail::RailKind::BernoulliSmallLeft => Ok(RailKind::BernoulliSmallLeft),
            rail::RailKind::BernoulliSmallRight => Ok(RailKind::BernoulliSmallRight),
            rail::RailKind::FlexTube0 => Ok(RailKind::FlexTube0),
            rail::RailKind::FlexTube60 => Ok(RailKind::FlexTube60),
            rail::RailKind::FlexTube120 => Ok(RailKind::FlexTube120),
            rail::RailKind::FlexTube180 => Ok(RailKind::FlexTube180),
            rail::RailKind::FlexTube240 => Ok(RailKind::FlexTube240),
            rail::RailKind::FlexTube300 => Ok(RailKind::FlexTube300),
            _ => Err(MurmelbahnError::UnsupportedPiece),
        }
    }
}
/// The kinds of tiles, balconies among them.
#[derive(Clone, Copy, Debug, PartialEq, Eq, Structural, Hash)]
pub enum TileKind {
    Starter,
    Curve,
    Catch,
    GoalBasin,
    Drop,
    Hammer,
    Catapult,
    Cross,
    Threeway,
    TwoWay,
    Spiral,
    Splash,
    Loop,
    Cannon,
    Stacker,
    StackerSmall,
    SwitchLeft,
    SwitchRight,
    GoalRail,
    StackerBatch,
    Cascade,
    StraightTunnel,
    CurveTunnel,
    SwitchTunnel,
    Trampolin0,
    Trampolin1,
    Trampolin2,
    LiftSmall,
    LiftLarge,
    Flip,
    TipTube,
    Volcano,
    Jumper,
    Transfer,
    ZiplineStart,
    ZiplineEnd,
    Bridge,
    ScrewSmall,
    ScrewMedium,
    ScrewLarge,
    MixerOffsetExits,
    Splitter,
    StackerTowerClosed,
    StackerTowerOpened,
    Balcony,
    DoubleBalcony,
    MixerSameExits,
    DipperLeft,
    DipperRight,
    Helix,
    Turntable,
    Spinner,
    TwoInOneSmallCurveA,
    TwoInOneSmallCurveB,
    FlexibleTwoInOneB,
    RibbonCurve,
    ThreeEntranceFunnel,
    CurveCrossing,
    DoubleBigCurve,
    DoubleSmallCurve,
    MultiJunction,
    StraightCurveCrossing,
    TripleSmallCurve,
    FlexibleTwoInOneA,
    ColorSwapEmpty,
    ColorSwapPreloaded,
    CarouselSameExits,
    CarouselOffsetExits,
    DomeStarter,
    FinishTrigger,
    FinishArena,
    Trigger,
    DropdownSwitchLeft,
    DropdownSwitchRight,
    Queue,
    Lever,
    Elevator,
}

impl TileKind {
    /// The kind of tile that an element of a course of kind `value` is, where it is
    /// one. No tile, and a tile that came with the light stones, is none.
    pub open spec fn spec_try_from(value: layer::TileKind) -> Result<TileKind, MurmelbahnError> {
        match value {
            layer::TileKind::Nothing => Err(MurmelbahnError::ConversionFailed),
            layer::TileKind::Starter => Ok(TileKind::Starter),
            layer::TileKind::Curve => Ok(TileKind::Curve),
            layer::TileKind::Catch => Ok(TileKind::Catch),
            layer::TileKind::GoalBasin => Ok(TileKind::GoalBasin),
            layer::TileKind::Drop => Ok(TileKind::Drop),
            layer::TileKind::Hammer => Ok(TileKind::Hammer),
            layer::TileKind::Catapult => Ok(TileKind::Catapult),
            layer::TileKind::Cross => Ok(TileKind::Cross),
            layer::TileKind::Threeway => Ok(TileKind::Threeway),
            layer::TileKind::TwoWay => Ok(TileKind::TwoWay),
            layer::TileKind::Spiral => Ok(TileKind::Spiral),
            layer::TileKind::Splash => Ok(TileKind::Splash),
            layer::TileKind::Loop => Ok(TileKind::Loop),
            layer::TileKind::Cannon => Ok(TileKind::Cannon),
            layer::TileKind::Stacker => Ok(TileKind::Stacker),
            layer::TileKind::StackerSmall => Ok(TileKind::StackerSmall),
            layer::TileKind::SwitchLeft => Ok(TileKind::SwitchLeft),
            layer::TileKind::SwitchRight => Ok(TileKind::SwitchRight),
            layer::TileKind::GoalRail => Ok(TileKind::GoalRail),
            layer::TileKind::StackerBatch => Ok(TileKind::StackerBatch),
            layer::TileKind::Cascade => Ok(TileKind::Cascade),
            layer::TileKind::StraightTunnel => Ok(TileKind::StraightTunnel),
            layer::TileKind::CurveTunnel => Ok(TileKind::CurveTunnel),
            layer::TileKind::SwitchTunnel => Ok(TileKind::SwitchTunnel),
            layer::TileKind::Trampolin0 => Ok(TileKind::Trampolin0),
            layer::TileKind::Trampolin1 => Ok(TileKind::Trampolin1),
            layer::TileKind::Trampolin2 => Ok(TileKind::Trampolin2),
            layer::TileKind::LiftSmall => Ok(TileKind::LiftSmall),
            layer::TileKind::LiftLarge => Ok(TileKind::LiftLarge),
            layer::TileKind::Flip => Ok(TileKind::Flip),
            layer::TileKind::TipTube => Ok(TileKind::TipTube),
            layer::TileKind::Volcano => Ok(TileKind::Volcano),
            layer::TileKind::Jumper => Ok(TileKind::Jumper),
            layer::TileKind::Transfer => Ok(TileKind::Transfer),
            layer::TileKind::ZiplineStart => Ok(TileKind::ZiplineStart),
            layer::TileKind::ZiplineEnd => Ok(TileKind::ZiplineEnd),
            layer::TileKind::Bridge => Ok(TileKind::Bridge),
            layer::TileKind::ScrewSmall => Ok(TileKind::ScrewSmall),
            layer::TileKind::ScrewMedium => Ok(TileKind::ScrewMedium),
            layer::TileKind::ScrewLarge => Ok(TileKind::ScrewLarge),
            layer::TileKind::MixerOffsetExits => Ok(TileKind::MixerOffsetExits),
            layer::TileKind::Splitter => Ok(TileKind::Splitter),
            layer::TileKind::StackerTowerClosed => Ok(TileKind::StackerTowerClosed),
            layer::TileKind::StackerTowerOpened => Ok(TileKind::StackerTowerOpened),
            layer::TileKind::DoubleBalcony => Ok(TileKind::DoubleBalcony),
            layer::TileKind::MixerSameExits => Ok(TileKind::MixerSameExits),
            layer::TileKind::DipperLeft => Ok(TileKind::DipperLeft),
            layer::TileKind::DipperRight => Ok(TileKind::DipperRight),
            layer::TileKind::Helix => Ok(TileKind::Helix),
            layer::TileKind::Turntable => Ok(TileKind::Turntable),
            layer::TileKind::Spinner => Ok(TileKind::Spinner),
            layer::TileKind::TwoInOneSmallCurveA => Ok(TileKind::TwoInOneSmallCurveA),
            layer::TileKind::TwoInOneSmallCurveB => Ok(TileKind::TwoInOneSmallCurveB),
            layer::TileKind::FlexibleTwoInOneB => Ok(TileKind::FlexibleTwoInOneB),
            layer::TileKind::RibbonCurve => Ok(TileKind::RibbonCurve),
            layer::TileKind::ThreeEntranceFunnel => Ok(TileKind::ThreeEntranceFunnel),
            layer::TileKind::CurveCrossing => Ok(TileKind::CurveCrossing),
            layer::TileKind::DoubleBigCurve => Ok(TileKind::DoubleBigCurve),
            layer::TileKind::DoubleSmallCurve => Ok(TileKind::DoubleSmallCurve),
            layer::TileKind::MultiJunction => Ok(TileKind::MultiJunction),
            layer::TileKind::StraightCurveCrossing => Ok(TileKind::StraightCurveCrossing),
            layer::TileKind::TripleSmallCurve => Ok(TileKind::TripleSmallCurve),
            layer::TileKind::FlexibleTwoInOneA => Ok(TileKind::FlexibleTwoInOneA),
            layer::TileKind::ColorSwapEmpty => Ok(TileKind::ColorSwapEmpty),
            layer::TileKind::ColorSwapPreloaded => Ok(TileKind::ColorSwapPreloaded),
            layer::TileKind::CarouselSameExits => Ok(TileKind::CarouselSameExits),
            layer::TileKind::CarouselOffsetExits => Ok(TileKind::CarouselOffsetExits),
            layer::TileKind::DomeStarter => Ok(TileKind::DomeStarter),
            layer::TileKind::FinishTrigger => Ok(TileKind::FinishTrigger),
            layer::TileKind::FinishArena => Ok(TileKind::FinishArena),
            layer::TileKind::Trigger => Ok(TileKind::Trigger),
            layer::TileKind::DropdownSwitchLeft => Ok(TileKind::DropdownSwitchLeft),
            layer::TileKind::DropdownSwitchRight => Ok(TileKind::DropdownSwitchRight),
            layer::TileKind::Queue => Ok(TileKind::Queue),
            layer::TileKind::Lever => Ok(TileKind::Lever),
            layer::TileKind::Elevator => Ok(TileKind::Elevator),
            layer::TileKind::LightBase => Err(MurmelbahnError::ConversionFailed),
            layer::TileKind::LightStacker => Err(MurmelbahnError::ConversionFailed),
            layer::TileKind::LightStackerSmall => Err(MurmelbahnError::ConversionFailed),
            layer::TileKind::LightStackerBatch => Err(MurmelbahnError::ConversionFailed),
            layer::TileKind::Releaser1 => Err(MurmelbahnError::ConversionFailed),
            layer::TileKind::Releaser2 => Err(MurmelbahnError::ConversionFailed),
            layer::TileKind::Releaser3 => Err(MurmelbahnError::ConversionFailed),
            layer::TileKind::Releaser4 => Err(MurmelbahnError::ConversionFailed),
        }
    }

    /// The kind of tile that an element of a course of kind `value` is.
    pub fn try_from(value: layer::TileKind) -> (kind: Result<TileKind, MurmelbahnError>)
        ensures
            kind == TileKind::spec_try_from(value),
    {
        match value {
            layer::TileKind::Starter => Ok(TileKind::Starter),
            layer::TileKind::Curve => Ok(TileKind::Curve),
            layer::TileKind::Catch => Ok(TileKind::Catch),
            layer::TileKind::GoalBasin => Ok(TileKind::GoalBasin),
            layer::TileKind::Drop => Ok(TileKind::Drop),
            layer::TileKind::Hammer => Ok(TileKind::Hammer),
            layer::TileKind::Catapult => Ok(TileKind::Catapult),
            layer::TileKind::Cross => Ok(TileKind::Cross),
            layer::TileKind::Threeway => Ok(TileKind::Threeway),
            layer::TileKind::TwoWay => Ok(TileKind::TwoWay),
            layer::TileKind::Spiral => Ok(TileKind::Spiral),
            layer::TileKind::Splash => Ok(TileKind::Splash),
            layer::TileKind::Loop => Ok(TileKind::Loop),
            layer::TileKind::Cannon => Ok(TileKind::Cannon),
            layer::TileKind::Stacker => Ok(TileKind::Stacker),
            layer::TileKind::StackerSmall => Ok(TileKind::StackerSmall),
            layer::TileKind::SwitchLeft => Ok(TileKind::SwitchLeft),
            layer::TileKind::SwitchRight => Ok(TileKind::SwitchRight),
            layer::TileKind::GoalRail => Ok(TileKind::GoalRail),
            layer::TileKind::StackerBatch => Ok(TileKind::StackerBatch),
            layer::TileKind::Cascade => Ok(TileKind::Cascade),
            layer::TileKind::StraightTunnel => Ok(TileKind::StraightTunnel),
            layer::TileKind::CurveTunnel => Ok(TileKind::CurveTunnel),
            layer::TileKind::SwitchTunnel => Ok(TileKind::SwitchTunnel),
            layer::TileKind::Trampolin0 => Ok(TileKind::Trampolin0),
            layer::TileKind::Trampolin1 => Ok(TileKind::Trampolin1),
            layer::TileKind::Trampolin2 => Ok(TileKind::Trampolin2),
            layer::TileKind::LiftSmall => Ok(TileKind::LiftSmall),
            layer::TileKind::LiftLarge => Ok(TileKind::LiftLarge),
            layer::TileKind::Flip => Ok(TileKind::Flip),
            layer::TileKind::TipTube => Ok(TileKind::TipTube),
            layer::TileKind::Volcano => Ok(TileKind::Volcano),
            layer::TileKind::Jumper => Ok(TileKind::Jumper),
            layer::TileKind::Transfer => Ok(TileKind::Transfer),
            layer::TileKind::ZiplineStart => Ok(TileKind::ZiplineStart),
            layer::TileKind::ZiplineEnd => Ok(TileKind::ZiplineEnd),
            layer::TileKind::Bridge => Ok(TileKind::Bridge),
            layer::TileKind::ScrewSmall => Ok(TileKind::ScrewSmall),
            layer::TileKind::ScrewMedium => Ok(TileKind::ScrewMedium),
            layer::TileKind::ScrewLarge => Ok(TileKind::ScrewLarge),
            layer::TileKind::MixerOffsetExits => Ok(TileKind::MixerOffsetExits),
            layer::TileKind::Splitter => Ok(TileKind::Splitter),
            layer::TileKind::StackerTowerClosed => Ok(TileKind::StackerTowerClosed),
            layer::TileKind::StackerTowerOpened => Ok(TileKind::StackerTowerOpened),
            layer::TileKind::DoubleBalcony => Ok(TileKind::DoubleBalcony),
            layer::TileKind::MixerSameExits => Ok(TileKind::MixerSameExits),
            layer::TileKind::DipperLeft => Ok(TileKind::DipperLeft),
            layer::TileKind::DipperRight => Ok(TileKind::DipperRight),
            layer::TileKind::Helix => Ok(TileKind::Helix),
            layer::TileKind::Turntable => Ok(TileKind::Turntable),
            layer::TileKind::Spinner => Ok(TileKind::Spinner),
            layer::TileKind::TwoInOneSmallCurveA => Ok(TileKind::TwoInOneSmallCurveA),
            layer::TileKind::TwoInOneSmallCurveB => Ok(TileKind::TwoInOneSmallCurveB),
            layer::TileKind::FlexibleTwoInOneB => Ok(TileKind::FlexibleTwoInOneB),
            layer::TileKind::RibbonCurve => Ok(TileKind::RibbonCurve),
            layer::TileKind::ThreeEntranceFunnel => Ok(TileKind::ThreeEntranceFunnel),
            layer::TileKind::CurveCrossing => Ok(TileKind::CurveCrossing),
            layer::TileKind::DoubleBigCurve => Ok(TileKind::DoubleBigCurve),
            layer::TileKind::DoubleSmallCurve => Ok(TileKind::DoubleSmallCurve),
            layer::TileKind::MultiJunction => Ok(TileKind::MultiJunction),
            layer::TileKind::StraightCurveCrossing => Ok(TileKind::StraightCurveCrossing),
            layer::TileKind::TripleSmallCurve => Ok(TileKind::TripleSmallCurve),
            layer::TileKind::FlexibleTwoInOneA => Ok(TileKind::FlexibleTwoInOneA),
            layer::TileKind::ColorSwapEmpty => Ok(TileKind::ColorSwapEmpty),
            layer::TileKind::ColorSwapPreloaded => Ok(TileKind::ColorSwapPreloaded),
            layer::TileKind::CarouselSameExits => Ok(TileKind::CarouselSameExits),
            layer::TileKind::CarouselOffsetExits => Ok(TileKind::CarouselOffsetExits),
            layer::TileKind::DomeStarter => Ok(TileKind::DomeStarter),
            layer::TileKind::FinishTrigger => Ok(TileKind::FinishTrigger),
            layer::TileKind::FinishArena => Ok(TileKind::FinishArena),
            layer::TileKind::Trigger => Ok(TileKind::Trigger),
            layer::TileKind::DropdownSwitchLeft => Ok(TileKind::DropdownSwitchLeft),
            layer::TileKind::DropdownSwitchRight => Ok(TileKind::DropdownSwitchRight),
            layer::TileKind::Queue => Ok(TileKind::Queue),
            layer::TileKind::Lever => Ok(TileKind::Lever),
            layer::TileKind::Elevator => Ok(TileKind::Elevator),
            _ => Err(MurmelbahnError::ConversionFailed),
        }
    }
}
impl RailKind {
    /// The kind of a straight rail of the given length.
    pub open spec fn spec_straight(length: StraightRail) -> RailKind {
        match length {
            StraightRail::Small => RailKind::StraightSmall,
            StraightRail::Medium => RailKind::StraightMedium,
            StraightRail::Large => RailKind::StraightLarge,
        }
    }

    /// The kind of a straight rail of the given length.
    pub fn straight(length: StraightRail) -> (kind: RailKind)
        ensures
            kind == RailKind::spec_straight(length),
    {
        match length {
            StraightRail::Small => RailKind::StraightSmall,
            StraightRail::Medium => RailKind::StraightMedium,
            StraightRail::Large => RailKind::StraightLarge,
        }
    }
}

/// A tile that is a part is the part of its own name: every kind of tile of
/// a course but those that are no part is found among the parts, and no two
/// kinds are the same part.
pub proof fn lemma_tile_kinds_distinct(first: layer::TileKind, second: layer::TileKind)
    requires
        TileKind::spec_try_from(first) is Ok,
        TileKind::spec_try_from(first) == TileKind::spec_try_from(second),
    ensures
        first == second,
{
}

} // verus!
