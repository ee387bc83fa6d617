//! The parts of a course as a row of a sheet that collectors of the toy keep:
//! one column for each part as it is sold, in a fixed order. Some columns
//! stay empty because the application knows no such part.
use crate::bom::{BillOfMaterials, BillOfMaterialsView};
use crate::hex::fits_i32;
use crate::layer::{LayerKind, TileKind};
use crate::rail::RailKind;
use crate::wall::WallKind;
use vstd::prelude::*;

verus! {

/// A column of the sheet holds a number that is not a value of `i32`.
#[derive(Clone, Copy, Debug, PartialEq, Eq, Structural)]
pub struct ColumnOverflow;

/// The count that a cell of the sheet stands for: nothing for an empty cell.
pub open spec fn plain(count: Option<i32>) -> int {
    match count {
        Some(count) => count as int,
        None => 0,
    }
}

/// The cell of the sheet for a count: empty for zero.
pub open spec fn spec_i32_to_option(value: int) -> Option<i32> {
    if value == 0 {
        None
    } else {
        Some(value as i32)
    }
}

/// The sum of the first `n` of `counts`, an empty cell counting for nothing.
pub open spec fn spec_added(counts: Seq<Option<i32>>, n: nat) -> int
    decreases n,
{
    if n == 0 || n > counts.len() {
        0
    } else {
        spec_added(counts, (n - 1) as nat) + plain(counts[n - 1])
    }
}

/// The cell of the sheet for a count: empty for zero.
pub fn i32_to_option(value: i32) -> (cell: Option<i32>)
    ensures
        cell == spec_i32_to_option(value as int),
{
    if value == 0 {
        None
    } else {
        Some(value)
    }
}

/// The cell of the sheet for the sum of several counts, or `None` where the
/// sum is not a value of `i32`.
pub fn option_adder_helper(vec: Vec<Option<i32>>) -> (cell: Option<Option<i32>>)
    ensures
        cell is Some <==> fits_i32(spec_added(vec@, vec@.len())),
        cell matches Some(sum) ==> sum == spec_i32_to_option(spec_added(vec@, vec@.len())),
{
    let mut sum: i128 = 0;
    let mut i: usize = 0;
    while i < vec.len()
        invariant
            i <= vec.len(),
            sum == spec_added(vec@, i as nat),
            -0x8000_0000 * i <= sum <= 0x7fff_ffff * i,
        decreases vec.len() - i,
    {
        let item: i128 = match vec[i] {
            Some(count) => count as i128,
            None => 0,
        };
        sum = sum + item;
        i += 1;
    }
    if sum < i32::MIN as i128 || sum > i32::MAX as i128 {
        None
    } else {
        Some(i32_to_option(sum as i32))
    }
}

/// The cell of the sheet for a number, or the failure where the number is
/// not a value of `i32`.
fn cell_of(value: i64) -> (cell: Result<Option<i32>, ColumnOverflow>)
    ensures
        cell is Ok <==> fits_i32(value as int),
        cell matches Ok(c) ==> c == spec_i32_to_option(value as int),
{
    if value < i32::MIN as i64 || value > i32::MAX as i64 {
        Err(ColumnOverflow)
    } else {
        Ok(i32_to_option(value as i32))
    }
}

/// The count of a cell, an empty cell counting for nothing.
fn count_in(cell: Option<i32>) -> (count: i64)
    ensures
        count == plain(cell),
        i32::MIN <= count <= i32::MAX,
{
    match cell {
        Some(count) => count as i64,
        None => 0,
    }
}

/// A row of the sheet.
#[derive(Debug)]
pub struct GraviSheetOutput {
    pub title: String,
    pub empty_1: Option<i32>,
    pub course_code: String,
    pub empty_2: Option<i32>,
    pub empty_3: Option<i32>,
    pub layer_base: Option<i32>,
    pub layer_base_mini: Option<i32>,
    pub layer_base_mini_half: Option<i32>,
    pub empty_placeholder_micro: Option<i32>,
    pub layer_large: Option<i32>,
    pub layer_small: Option<i32>,
    pub marbles: Option<i32>,
    pub stacker_small: Option<i32>,
    pub stacker_large: Option<i32>,
    pub lightstacker_small: Option<i32>,
    pub lightstacker_large: Option<i32>,
    pub stacker_angled: Option<i32>,
    pub stacker_tower_closed: Option<i32>,
    pub stacker_tower_opened: Option<i32>,
    pub wall_short: Option<i32>,
    pub wall_medium: Option<i32>,
    pub wall_long: Option<i32>,
    pub balcony: Option<i32>,
    pub balcony_double: Option<i32>,
    pub rail_small: Option<i32>,
    pub rail_medium: Option<i32>,
    pub rail_large: Option<i32>,
    pub rail_narrow: Option<i32>,
    pub rail_slow: Option<i32>,
    pub rail_goal: Option<i32>,
    pub rail_bernoulli_small_straight: Option<i32>,
    pub rail_bernoulli_small_left: Option<i32>,
    pub rail_bernoulli_small_right: Option<i32>,
    pub rail_bernoulli: Option<i32>,
    pub rail_drop_hill: Option<i32>,
    pub rail_drop_valley: Option<i32>,
    pub catcher: Option<i32>,
    pub tile_starter: Option<i32>,
    pub tile_curve: Option<i32>,
    pub tile_multi_junction: Option<i32>,
    pub tile_curve_crossing: Option<i32>,
    pub tile_curve_crossing_straight: Option<i32>,
    pub tile_curve_big_double: Option<i32>,
    pub tile_curve_small_triple: Option<i32>,
    pub tile_curve_small_double: Option<i32>,
    pub tile_curve_ribbon: Option<i32>,
    pub tile_flexible_two_in_one_a: Option<i32>,
    pub tile_flexible_two_in_one_b: Option<i32>,
    pub tile_curve_small_two_in_one_a: Option<i32>,
    pub tile_curve_small_two_in_one_b: Option<i32>,
    pub tile_basic_closed: Option<i32>,
    pub tile_goal_basin: Option<i32>,
    pub tile_cross: Option<i32>,
    pub tile_three_way: Option<i32>,
    pub tile_two_way: Option<i32>,
    pub tile_switch_insert: Option<i32>,
    pub tile_two_entrance_funnel: Option<i32>,
    pub tile_three_entrance_funnel: Option<i32>,
    pub tile_space_tube: Option<i32>,
    pub tile_basic: Option<i32>,
    pub tile_drop: Option<i32>,
    pub tile_catch: Option<i32>,
    pub tile_splash: Option<i32>,
    pub tile_basic_straight: Option<i32>,
    pub tile_tunnel_straight: Option<i32>,
    pub tile_tunnel_curve: Option<i32>,
    pub tile_tunnel_switch: Option<i32>,
    pub rail_uturn: Option<i32>,
    pub tile_bridge: Option<i32>,
    pub tile_lift: Option<i32>,
    pub tile_catapult: Option<i32>,
    pub tile_color_swap: Option<i32>,
    pub tile_dipper: Option<i32>,
    pub rail_flextube: Option<i32>,
    pub tile_flip: Option<i32>,
    pub tile_hammer: Option<i32>,
    pub tile_jumper: Option<i32>,
    pub tile_loop: Option<i32>,
    pub tile_cannon: Option<i32>,
    pub tile_vertical_cannon: Option<i32>,
    pub tile_scoop: Option<i32>,
    pub tile_spinner: Option<i32>,
    pub tile_spiral_base: Option<i32>,
    pub tile_spiral_entrance: Option<i32>,
    pub tile_spiral_curve: Option<i32>,
    pub tile_tip_tube: Option<i32>,
    pub tile_trampoline: Option<i32>,
    pub tile_transfer: Option<i32>,
    pub tile_volcano: Option<i32>,
    pub tile_zipline: Option<i32>,
    pub tile_carousel: Option<i32>,
    pub tile_helix: Option<i32>,
    pub tile_mixer: Option<i32>,
    pub releaser: Option<i32>,
    pub tile_splitter: Option<i32>,
    pub tile_turntable: Option<i32>,
    pub empty_connect: Option<i32>,
    pub tile_controller: Option<i32>,
    pub tile_dome_starter: Option<i32>,
    pub tile_dropdown_switch: Option<i32>,
    pub tile_elevator: Option<i32>,
    pub tile_finish_arena: Option<i32>,
    pub tile_finish_trigger: Option<i32>,
    pub tile_lever: Option<i32>,
    pub lightbase: Option<i32>,
    pub tile_queue: Option<i32>,
    pub empty_sound: Option<i32>,
    pub tile_trigger: Option<i32>,
    pub empty_ballbox: Option<i32>,
    pub empty_magneticstick: Option<i32>,
}

impl BillOfMaterialsView {
    /// The number that the column `marbles` of the sheet holds.
    pub open spec fn sheet_marbles(self) -> int {
        let bom = self;
        bom.marbles()
    }

    /// The number that the column `stacker_angled` of the sheet holds.
    pub open spec fn sheet_stacker_angled(self) -> int {
        let bom = self;
        plain(bom.tile_kind(TileKind::Trampolin1)) + 2 * plain(bom.tile_kind(TileKind::Trampolin2))
    }

    /// The number that the column `balcony` of the sheet holds.
    pub open spec fn sheet_balcony(self) -> int {
        let bom = self;
        bom.balconies as int
    }

    /// The number that the column `rail_small` of the sheet holds.
    pub open spec fn sheet_rail_small(self) -> int {
        let bom = self;
        bom.rails_small as int
    }

    /// The number that the column `rail_medium` of the sheet holds.
    pub open spec fn sheet_rail_medium(self) -> int {
        let bom = self;
        bom.rails_medium as int
    }

    /// The number that the column `rail_large` of the sheet holds.
    pub open spec fn sheet_rail_large(self) -> int {
        let bom = self;
        bom.rails_large as int
    }

    /// The number that the column `tile_two_way` of the sheet holds.
    pub open spec fn sheet_tile_two_way(self) -> int {
        let bom = self;
        plain(bom.tile_kind(TileKind::TwoWay)) + plain(bom.tile_kind(TileKind::SwitchLeft))
            + plain(bom.tile_kind(TileKind::SwitchRight))
    }

    /// The number that the column `tile_switch_insert` of the sheet holds.
    pub open spec fn sheet_tile_switch_insert(self) -> int {
        let bom = self;
        plain(bom.tile_kind(TileKind::SwitchLeft)) + plain(bom.tile_kind(TileKind::SwitchRight))
    }

    /// The number that the column `tile_three_entrance_funnel` of the sheet holds.
    pub open spec fn sheet_tile_three_entrance_funnel(self) -> int {
        let bom = self;
        plain(bom.tile_kind(TileKind::ThreeEntranceFunnel))
            + plain(bom.tile_kind(TileKind::MixerSameExits))
            + plain(bom.tile_kind(TileKind::MixerOffsetExits))
    }

    /// The number that the column `tile_basic` of the sheet holds.
    pub open spec fn sheet_tile_basic(self) -> int {
        let bom = self;
        plain(bom.tile_kind(TileKind::Drop)) + plain(bom.tile_kind(TileKind::Catch))
            + plain(bom.tile_kind(TileKind::Splash))
            + plain(bom.tile_kind(TileKind::CurveTunnel))
            + plain(bom.tile_kind(TileKind::SwitchTunnel))
    }

    /// The number that the column `tile_lift` of the sheet holds.
    pub open spec fn sheet_tile_lift(self) -> int {
        let bom = self;
        plain(bom.tile_kind(TileKind::LiftSmall)) + plain(bom.tile_kind(TileKind::LiftLarge))
    }

    /// The number that the column `tile_color_swap` of the sheet holds.
    pub open spec fn sheet_tile_color_swap(self) -> int {
        let bom = self;
        plain(bom.tile_kind(TileKind::ColorSwapPreloaded))
            + plain(bom.tile_kind(TileKind::ColorSwapEmpty))
    }

    /// The number that the column `tile_dipper` of the sheet holds.
    pub open spec fn sheet_tile_dipper(self) -> int {
        let bom = self;
        plain(bom.tile_kind(TileKind::DipperRight)) + plain(bom.tile_kind(TileKind::DipperLeft))
    }

    /// The number that the column `rail_flextube` of the sheet holds.
    pub open spec fn sheet_rail_flextube(self) -> int {
        let bom = self;
        plain(bom.rail_kind(RailKind::FlexTube0)) + plain(bom.rail_kind(RailKind::FlexTube60))
            + plain(bom.rail_kind(RailKind::FlexTube120))
            + plain(bom.rail_kind(RailKind::FlexTube180))
            + plain(bom.rail_kind(RailKind::FlexTube240))
            + plain(bom.rail_kind(RailKind::FlexTube300))
    }

    /// The number that the column `tile_spiral_base` of the sheet holds.
    pub open spec fn sheet_tile_spiral_base(self) -> int {
        let bom = self;
        plain(bom.tile_kind(TileKind::ScrewSmall)) + plain(bom.tile_kind(TileKind::ScrewMedium))
            + plain(bom.tile_kind(TileKind::ScrewLarge))
    }

    /// The number that the column `tile_spiral_entrance` of the sheet holds.
    pub open spec fn sheet_tile_spiral_entrance(self) -> int {
        let bom = self;
        plain(bom.tile_kind(TileKind::ScrewSmall)) + plain(bom.tile_kind(TileKind::ScrewMedium))
            + plain(bom.tile_kind(TileKind::ScrewLarge))
    }

    /// The number that the column `tile_spiral_curve` of the sheet holds.
    pub open spec fn sheet_tile_spiral_curve(self) -> int {
        let bom = self;
        5 * plain(bom.tile_kind(TileKind::ScrewMedium))
            + 12 * plain(bom.tile_kind(TileKind::ScrewLarge))
    }

    /// The number that the column `tile_trampoline` of the sheet holds.
    pub open spec fn sheet_tile_trampoline(self) -> int {
        let bom = self;
        plain(bom.tile_kind(TileKind::Trampolin0)) + plain(bom.tile_kind(TileKind::Trampolin1))
            + plain(bom.tile_kind(TileKind::Trampolin2))
    }

    /// The number that the column `tile_carousel` of the sheet holds.
    pub open spec fn sheet_tile_carousel(self) -> int {
        let bom = self;
        plain(bom.tile_kind(TileKind::CarouselSameExits))
            + plain(bom.tile_kind(TileKind::CarouselOffsetExits))
    }

    /// The number that the column `tile_mixer` of the sheet holds.
    pub open spec fn sheet_tile_mixer(self) -> int {
        let bom = self;
        plain(bom.tile_kind(TileKind::MixerSameExits))
            + plain(bom.tile_kind(TileKind::MixerOffsetExits))
    }

    /// The number that the column `releaser` of the sheet holds.
    pub open spec fn sheet_releaser(self) -> int {
        let bom = self;
        plain(bom.tile_kind(TileKind::Releaser1)) + plain(bom.tile_kind(TileKind::Releaser2))
            + plain(bom.tile_kind(TileKind::Releaser3)) + plain(bom.tile_kind(TileKind::Releaser4))
    }

    /// The number that the column `tile_dropdown_switch` of the sheet holds.
    pub open spec fn sheet_tile_dropdown_switch(self) -> int {
        let bom = self;
        plain(bom.tile_kind(TileKind::DropdownSwitchRight))
            + plain(bom.tile_kind(TileKind::DropdownSwitchLeft))
    }

    /// Whether every column of the sheet holds a value of `i32`.
    pub open spec fn sheet_fits(self) -> bool {
        &&& fits_i32(self.sheet_marbles())
        &&& fits_i32(self.sheet_stacker_angled())
        &&& fits_i32(self.sheet_balcony())
        &&& fits_i32(self.sheet_rail_small())
        &&& fits_i32(self.sheet_rail_medium())
        &&& fits_i32(self.sheet_rail_large())
        &&& fits_i32(self.sheet_tile_two_way())
        &&& fits_i32(self.sheet_tile_switch_insert())
        &&& fits_i32(self.sheet_tile_three_entrance_funnel())
        &&& fits_i32(self.sheet_tile_basic())
        &&& fits_i32(self.sheet_tile_lift())
        &&& fits_i32(self.sheet_tile_color_swap())
        &&& fits_i32(self.sheet_tile_dipper())
        &&& fits_i32(self.sheet_rail_flextube())
        &&& fits_i32(self.sheet_tile_spiral_base())
        &&& fits_i32(self.sheet_tile_spiral_entrance())
        &&& fits_i32(self.sheet_tile_spiral_curve())
        &&& fits_i32(self.sheet_tile_trampoline())
        &&& fits_i32(self.sheet_tile_carousel())
        &&& fits_i32(self.sheet_tile_mixer())
        &&& fits_i32(self.sheet_releaser())
        &&& fits_i32(self.sheet_tile_dropdown_switch())
    }
}

impl GraviSheetOutput {
    /// Whether this row holds the parts of `bom`: a column for one kind of
    /// part holds its count as it is, a column for several kinds or for a
    /// number holds the number, or nothing where the number is zero, and a
    /// column for a part that the application does not know holds nothing.
    pub open spec fn holds_parts_of(self, bom: BillOfMaterialsView) -> bool {
        &&& self.empty_1 is None
        &&& self.empty_2 is None
        &&& self.empty_3 is None
        &&& self.layer_base == bom.layer_kind(LayerKind::BaseLayerPiece)
        &&& self.layer_base_mini is None
        &&& self.layer_base_mini_half is None
        &&& self.empty_placeholder_micro is None
        &&& self.layer_large == bom.layer_kind(LayerKind::LargeLayer)
        &&& self.layer_small == bom.layer_kind(LayerKind::SmallLayer)
        &&& self.marbles == spec_i32_to_option(bom.sheet_marbles())
        &&& self.stacker_small == bom.tile_kind(TileKind::StackerSmall)
        &&& self.stacker_large == bom.tile_kind(TileKind::Stacker)
        &&& self.lightstacker_small == bom.tile_kind(TileKind::LightStackerSmall)
        &&& self.lightstacker_large == bom.tile_kind(TileKind::LightStacker)
        &&& self.stacker_angled == spec_i32_to_option(bom.sheet_stacker_angled())
        &&& self.stacker_tower_closed == bom.tile_kind(TileKind::StackerTowerClosed)
        &&& self.stacker_tower_opened == bom.tile_kind(TileKind::StackerTowerOpened)
        &&& self.wall_short == bom.wall_kind(WallKind::StraightSmall)
        &&& self.wall_medium == bom.wall_kind(WallKind::StraightMedium)
        &&& self.wall_long == bom.wall_kind(WallKind::StraightLarge)
        &&& self.balcony == spec_i32_to_option(bom.sheet_balcony())
        &&& self.balcony_double == bom.tile_kind(TileKind::DoubleBalcony)
        &&& self.rail_small == spec_i32_to_option(bom.sheet_rail_small())
        &&& self.rail_medium == spec_i32_to_option(bom.sheet_rail_medium())
        &&& self.rail_large == spec_i32_to_option(bom.sheet_rail_large())
        &&& self.rail_narrow == bom.rail_kind(RailKind::Narrow)
        &&& self.rail_slow == bom.rail_kind(RailKind::Slow)
        &&& self.rail_goal == bom.tile_kind(TileKind::GoalRail)
        &&& self.rail_bernoulli_small_straight == bom.rail_kind(RailKind::BernoulliSmallStraight)
        &&& self.rail_bernoulli_small_left == bom.rail_kind(RailKind::BernoulliSmallLeft)
        &&& self.rail_bernoulli_small_right == bom.rail_kind(RailKind::BernoulliSmallRight)
        &&& self.rail_bernoulli == bom.rail_kind(RailKind::Bernoulli)
        &&& self.rail_drop_hill == bom.rail_kind(RailKind::DropHill)
        &&& self.rail_drop_valley == bom.rail_kind(RailKind::DropValley)
        &&& self.catcher is None
        &&& self.tile_starter == bom.tile_kind(TileKind::Starter)
        &&& self.tile_curve == bom.tile_kind(TileKind::Curve)
        &&& self.tile_multi_junction == bom.tile_kind(TileKind::MultiJunction)
        &&& self.tile_curve_crossing == bom.tile_kind(TileKind::CurveCrossing)
        &&& self.tile_curve_crossing_straight == bom.tile_kind(TileKind::StraightCurveCrossing)
        &&& self.tile_curve_big_double == bom.tile_kind(TileKind::DoubleBigCurve)
        &&& self.tile_curve_small_triple == bom.tile_kind(TileKind::TripleSmallCurve)
        &&& self.tile_curve_small_double == bom.tile_kind(TileKind::DoubleSmallCurve)
        &&& self.tile_curve_ribbon == bom.tile_kind(TileKind::RibbonCurve)
        &&& self.tile_flexible_two_in_one_a == bom.tile_kind(TileKind::FlexibleTwoInOneA)
        &&& self.tile_flexible_two_in_one_b == bom.tile_kind(TileKind::FlexibleTwoInOneB)
        &&& self.tile_curve_small_two_in_one_a == bom.tile_kind(TileKind::TwoInOneSmallCurveA)
        &&& self.tile_curve_small_two_in_one_b == bom.tile_kind(TileKind::TwoInOneSmallCurveB)
        &&& self.tile_basic_closed == bom.tile_kind(TileKind::GoalBasin)
        &&& self.tile_goal_basin == bom.tile_kind(TileKind::GoalBasin)
        &&& self.tile_cross == bom.tile_kind(TileKind::Cross)
        &&& self.tile_three_way == bom.tile_kind(TileKind::Threeway)
        &&& self.tile_two_way == spec_i32_to_option(bom.sheet_tile_two_way())
        &&& self.tile_switch_insert == spec_i32_to_option(bom.sheet_tile_switch_insert())
        &&& self.tile_two_entrance_funnel == bom.tile_kind(TileKind::Spiral)
        &&& self.tile_three_entrance_funnel
            == spec_i32_to_option(bom.sheet_tile_three_entrance_funnel())
        &&& self.tile_space_tube is None
        &&& self.tile_basic == spec_i32_to_option(bom.sheet_tile_basic())
        &&& self.tile_drop == bom.tile_kind(TileKind::Drop)
        &&& self.tile_catch == bom.tile_kind(TileKind::Catch)
        &&& self.tile_splash == bom.tile_kind(TileKind::Splash)
        &&& self.tile_basic_straight == bom.tile_kind(TileKind::StraightTunnel)
        &&& self.tile_tunnel_straight == bom.tile_kind(TileKind::StraightTunnel)
        &&& self.tile_tunnel_curve == bom.tile_kind(TileKind::CurveTunnel)
        &&& self.tile_tunnel_switch == bom.tile_kind(TileKind::SwitchTunnel)
        &&& self.rail_uturn == bom.rail_kind(RailKind::UTurn)
        &&& self.tile_bridge == bom.tile_kind(TileKind::Bridge)
        &&& self.tile_lift == spec_i32_to_option(bom.sheet_tile_lift())
        &&& self.tile_catapult == bom.tile_kind(TileKind::Catapult)
        &&& self.tile_color_swap == spec_i32_to_option(bom.sheet_tile_color_swap())
        &&& self.tile_dipper == spec_i32_to_option(bom.sheet_tile_dipper())
        &&& self.rail_flextube == spec_i32_to_option(bom.sheet_rail_flextube())
        &&& self.tile_flip == bom.tile_kind(TileKind::Flip)
        &&& self.tile_hammer == bom.tile_kind(TileKind::Hammer)
        &&& self.tile_jumper == bom.tile_kind(TileKind::Jumper)
        &&& self.tile_loop == bom.tile_kind(TileKind::Loop)
        &&& self.tile_cannon == bom.tile_kind(TileKind::Cannon)
        &&& self.tile_vertical_cannon is None
        &&& self.tile_scoop == bom.tile_kind(TileKind::Cascade)
        &&& self.tile_spinner == bom.tile_kind(TileKind::Spinner)
        &&& self.tile_spiral_base == spec_i32_to_option(bom.sheet_tile_spiral_base())
        &&& self.tile_spiral_entrance == spec_i32_to_option(bom.sheet_tile_spiral_entrance())
        &&& self.tile_spiral_curve == spec_i32_to_option(bom.sheet_tile_spiral_curve())
        &&& self.tile_tip_tube == bom.tile_kind(TileKind::TipTube)
        &&& self.tile_trampoline == spec_i32_to_option(bom.sheet_tile_trampoline())
        &&& self.tile_transfer == bom.tile_kind(TileKind::Transfer)
        &&& self.tile_volcano == bom.tile_kind(TileKind::Volcano)
        &&& self.tile_zipline == bom.tile_kind(TileKind::ZiplineStart)
        &&& self.tile_carousel == spec_i32_to_option(bom.sheet_tile_carousel())
        &&& self.tile_helix == bom.tile_kind(TileKind::Helix)
        &&& self.tile_mixer == spec_i32_to_option(bom.sheet_tile_mixer())
        &&& self.releaser == spec_i32_to_option(bom.sheet_releaser())
        &&& self.tile_splitter == bom.tile_kind(TileKind::Splitter)
        &&& self.tile_turntable == bom.tile_kind(TileKind::Turntable)
        &&& self.empty_connect is None
        &&& self.tile_controller is None
        &&& self.tile_dome_starter == bom.tile_kind(TileKind::DomeStarter)
        &&& self.tile_dropdown_switch == spec_i32_to_option(bom.sheet_tile_dropdown_switch())
        &&& self.tile_elevator == bom.tile_kind(TileKind::Elevator)
        &&& self.tile_finish_arena == bom.tile_kind(TileKind::FinishArena)
        &&& self.tile_finish_trigger == bom.tile_kind(TileKind::FinishTrigger)
        &&& self.tile_lever == bom.tile_kind(TileKind::Lever)
        &&& self.lightbase == bom.tile_kind(TileKind::LightBase)
        &&& self.tile_queue == bom.tile_kind(TileKind::Queue)
        &&& self.empty_sound is None
        &&& self.tile_trigger == bom.tile_kind(TileKind::Trigger)
        &&& self.empty_ballbox is None
        &&& self.empty_magneticstick is None
    }

    /// Whether this row holds the parts of `bom` and a placeholder for the
    /// title and for the code of the course.
    pub open spec fn is_sheet_of(self, bom: BillOfMaterialsView) -> bool {
        &&& self.title@ == "PLACEHOLDER"@
        &&& self.course_code@ == "PLACEHOLDER"@
        &&& self.holds_parts_of(bom)
    }

    /// The row of the sheet that holds the parts of `bom`, with a placeholder
    /// for the title and for the code of the course. Fails where a column
    /// would hold a number that is not a value of `i32`.
    pub fn from_bom(bom: &BillOfMaterials) -> (result: Result<GraviSheetOutput, ColumnOverflow>)
        ensures
            result is Ok <==> bom@.sheet_fits(),
            result matches Ok(sheet) ==> sheet.is_sheet_of(bom@),
    {
        let marbles = match bom.marbles() {
            Some(marbles) => i32_to_option(marbles),
            None => {
                return Err(ColumnOverflow);
            },
        };
        let stacker_angled = column_stacker_angled(bom)?;
        let balcony = i32_to_option(bom.balconies);
        let rail_small = i32_to_option(bom.rails_small);
        let rail_medium = i32_to_option(bom.rails_medium);
        let rail_large = i32_to_option(bom.rails_large);
        let tile_two_way = column_tile_two_way(bom)?;
        let tile_switch_insert = column_tile_switch_insert(bom)?;
        let tile_three_entrance_funnel = column_tile_three_entrance_funnel(bom)?;
        let tile_basic = column_tile_basic(bom)?;
        let tile_lift = column_tile_lift(bom)?;
        let tile_color_swap = column_tile_color_swap(bom)?;
        let tile_dipper = column_tile_dipper(bom)?;
        let rail_flextube = column_rail_flextube(bom)?;
        let tile_spiral_base = column_tile_spiral_base(bom)?;
        let tile_spiral_entrance = column_tile_spiral_entrance(bom)?;
        let tile_spiral_curve = column_tile_spiral_curve(bom)?;
        let tile_trampoline = column_tile_trampoline(bom)?;
        let tile_carousel = column_tile_carousel(bom)?;
        let tile_mixer = column_tile_mixer(bom)?;
        let releaser = column_releaser(bom)?;
        let tile_dropdown_switch = column_tile_dropdown_switch(bom)?;
        Ok(
            GraviSheetOutput {
                title: "PLACEHOLDER".to_string(),
                course_code: "PLACEHOLDER".to_string(),
                empty_1: None,
                empty_2: None,
                empty_3: None,
                layer_base: bom.layer_kind(LayerKind::BaseLayerPiece),
                layer_base_mini: None,
                layer_base_mini_half: None,
                empty_placeholder_micro: None,
                layer_large: bom.layer_kind(LayerKind::LargeLayer),
                layer_small: bom.layer_kind(LayerKind::SmallLayer),
                marbles,
                stacker_small: bom.tile_kind(TileKind::StackerSmall),
                stacker_large: bom.tile_kind(TileKind::Stacker),
                lightstacker_small: bom.tile_kind(TileKind::LightStackerSmall),
                lightstacker_large: bom.tile_kind(TileKind::LightStacker),
                stacker_angled,
                stacker_tower_closed: bom.tile_kind(TileKind::StackerTowerClosed),
                stacker_tower_opened: bom.tile_kind(TileKind::StackerTowerOpened),
                wall_short: bom.wall_kind(WallKind::StraightSmall),
                wall_medium: bom.wall_kind(WallKind::StraightMedium),
                wall_long: bom.wall_kind(WallKind::StraightLarge),
                balcony,
                balcony_double: bom.tile_kind(TileKind::DoubleBalcony),
                rail_small,
                rail_medium,
                rail_large,
                rail_narrow: bom.rail_kind(RailKind::Narrow),
                rail_slow: bom.rail_kind(RailKind::Slow),
                rail_goal: bom.tile_kind(TileKind::GoalRail),
                rail_bernoulli_small_straight: bom.rail_kind(RailKind::BernoulliSmallStraight),
                rail_bernoulli_small_left: bom.rail_kind(RailKind::BernoulliSmallLeft),
                rail_bernoulli_small_right: bom.rail_kind(RailKind::BernoulliSmallRight),
                rail_bernoulli: bom.rail_kind(RailKind::Bernoulli),
                rail_drop_hill: bom.rail_kind(RailKind::DropHill),
                rail_drop_valley: bom.rail_kind(RailKind::DropValley),
                catcher: None,
                tile_starter: bom.tile_kind(TileKind::Starter),
                tile_curve: bom.tile_kind(TileKind::Curve),
                tile_multi_junction: bom.tile_kind(TileKind::MultiJunction),
                tile_curve_crossing: bom.tile_kind(TileKind::CurveCrossing),
                tile_curve_crossing_straight: bom.tile_kind(TileKind::StraightCurveCrossing),
                tile_curve_big_double: bom.tile_kind(TileKind::DoubleBigCurve),
                tile_curve_small_triple: bom.tile_kind(TileKind::TripleSmallCurve),
                tile_curve_small_double: bom.tile_kind(TileKind::DoubleSmallCurve),
                tile_curve_ribbon: bom.tile_kind(TileKind::RibbonCurve),
                tile_flexible_two_in_one_a: bom.tile_kind(TileKind::FlexibleTwoInOneA),
                tile_flexible_two_in_one_b: bom.tile_kind(TileKind::FlexibleTwoInOneB),
                tile_curve_small_two_in_one_a: bom.tile_kind(TileKind::TwoInOneSmallCurveA),
                tile_curve_small_two_in_one_b: bom.tile_kind(TileKind::TwoInOneSmallCurveB),
                tile_basic_closed: bom.tile_kind(TileKind::GoalBasin),
                tile_goal_basin: bom.tile_kind(TileKind::GoalBasin),
                tile_cross: bom.tile_kind(TileKind::Cross),
                tile_three_way: bom.tile_kind(TileKind::Threeway),
                tile_two_way,
                tile_switch_insert,
                tile_two_entrance_funnel: bom.tile_kind(TileKind::Spiral),
                tile_three_entrance_funnel,
                tile_space_tube: None,
                tile_basic,
                tile_drop: bom.tile_kind(TileKind::Drop),
                tile_catch: bom.tile_kind(TileKind::Catch),
                tile_splash: bom.tile_kind(TileKind::Splash),
                tile_basic_straight: bom.tile_kind(TileKind::StraightTunnel),
                tile_tunnel_straight: bom.tile_kind(TileKind::StraightTunnel),
                tile_tunnel_curve: bom.tile_kind(TileKind::CurveTunnel),
                tile_tunnel_switch: bom.tile_kind(TileKind::SwitchTunnel),
                rail_uturn: bom.rail_kind(RailKind::UTurn),
                tile_bridge: bom.tile_kind(TileKind::Bridge),
                tile_lift,
                tile_catapult: bom.tile_kind(TileKind::Catapult),
                tile_color_swap,
                tile_dipper,
                rail_flextube,
                tile_flip: bom.tile_kind(TileKind::Flip),
                tile_hammer: bom.tile_kind(TileKind::Hammer),
                tile_jumper: bom.tile_kind(TileKind::Jumper),
                tile_loop: bom.tile_kind(TileKind::Loop),
                tile_cannon: bom.tile_kind(TileKind::Cannon),
                tile_vertical_cannon: None,
                tile_scoop: bom.tile_kind(TileKind::Cascade),
                tile_spinner: bom.tile_kind(TileKind::Spinner),
                tile_spiral_base,
                tile_spiral_entrance,
                tile_spiral_curve,
                tile_tip_tube: bom.tile_kind(TileKind::TipTube),
                tile_trampoline,
                tile_transfer: bom.tile_kind(TileKind::Transfer),
                tile_volcano: bom.tile_kind(TileKind::Volcano),
                tile_zipline: bom.tile_kind(TileKind::ZiplineStart),
                tile_carousel,
                tile_helix: bom.tile_kind(TileKind::Helix),
                tile_mixer,
                releaser,
                tile_splitter: bom.tile_kind(TileKind::Splitter),
                tile_turntable: bom.tile_kind(TileKind::Turntable),
                empty_connect: None,
                tile_controller: None,
                tile_dome_starter: bom.tile_kind(TileKind::DomeStarter),
                tile_dropdown_switch,
                tile_elevator: bom.tile_kind(TileKind::Elevator),
                tile_finish_arena: bom.tile_kind(TileKind::FinishArena),
                tile_finish_trigger: bom.tile_kind(TileKind::FinishTrigger),
                tile_lever: bom.tile_kind(TileKind::Lever),
                lightbase: bom.tile_kind(TileKind::LightBase),
                tile_queue: bom.tile_kind(TileKind::Queue),
                empty_sound: None,
                tile_trigger: bom.tile_kind(TileKind::Trigger),
                empty_ballbox: None,
                empty_magneticstick: None,
            },
        )
    }
}

/// The column `stacker_angled` of the sheet.
fn column_stacker_angled(bom: &BillOfMaterials) -> (cell: Result<Option<i32>, ColumnOverflow>)
    ensures
        cell is Ok <==> fits_i32(bom@.sheet_stacker_angled()),
        cell matches Ok(c) ==> c == spec_i32_to_option(bom@.sheet_stacker_angled()),
{
    cell_of(
        count_in(bom.tile_kind(TileKind::Trampolin1))
            + 2 * count_in(bom.tile_kind(TileKind::Trampolin2)),
    )
}

/// The column `tile_two_way` of the sheet.
fn column_tile_two_way(bom: &BillOfMaterials) -> (cell: Result<Option<i32>, ColumnOverflow>)
    ensures
        cell is Ok <==> fits_i32(bom@.sheet_tile_two_way()),
        cell matches Ok(c) ==> c == spec_i32_to_option(bom@.sheet_tile_two_way()),
{
    cell_of(
        count_in(bom.tile_kind(TileKind::TwoWay))
            + count_in(bom.tile_kind(TileKind::SwitchLeft))
            + count_in(bom.tile_kind(TileKind::SwitchRight)),
    )
}

/// The column `tile_switch_insert` of the sheet.
fn column_tile_switch_insert(bom: &BillOfMaterials) -> (cell: Result<Option<i32>, ColumnOverflow>)
    ensures
        cell is Ok <==> fits_i32(bom@.sheet_tile_switch_insert()),
        cell matches Ok(c) ==> c == spec_i32_to_option(bom@.sheet_tile_switch_insert()),
{
    cell_of(
        count_in(bom.tile_kind(TileKind::SwitchLeft))
            + count_in(bom.tile_kind(TileKind::SwitchRight)),
    )
}

/// The column `tile_three_entrance_funnel` of the sheet.
fn column_tile_three_entrance_funnel(
    bom: &BillOfMaterials,
) -> (cell: Result<Option<i32>, ColumnOverflow>)
    ensures
        cell is Ok <==> fits_i32(bom@.sheet_tile_three_entrance_funnel()),
        cell matches Ok(c) ==> c == spec_i32_to_option(bom@.sheet_tile_three_entrance_funnel()),
{
    cell_of(
        count_in(bom.tile_kind(TileKind::ThreeEntranceFunnel))
            + count_in(bom.tile_kind(TileKind::MixerSameExits))
            + count_in(bom.tile_kind(TileKind::MixerOffsetExits)),
    )
}

/// The column `tile_basic` of the sheet.
fn column_tile_basic(bom: &BillOfMaterials) -> (cell: Result<Option<i32>, ColumnOverflow>)
    ensures
        cell is Ok <==> fits_i32(bom@.sheet_tile_basic()),
        cell matches Ok(c) ==> c == spec_i32_to_option(bom@.sheet_tile_basic()),
{
    cell_of(
        count_in(bom.tile_kind(TileKind::Drop))
            + count_in(bom.tile_kind(TileKind::Catch))
            + count_in(bom.tile_kind(TileKind::Splash))
            + count_in(bom.tile_kind(TileKind::CurveTunnel))
            + count_in(bom.tile_kind(TileKind::SwitchTunnel)),
    )
}

/// The column `tile_lift` of the sheet.
fn column_tile_lift(bom: &BillOfMaterials) -> (cell: Result<Option<i32>, ColumnOverflow>)
    ensures
        cell is Ok <==> fits_i32(bom@.sheet_tile_lift()),
        cell matches Ok(c) ==> c == spec_i32_to_option(bom@.sheet_tile_lift()),
{
    cell_of(
        count_in(bom.tile_kind(TileKind::LiftSmall))
            + count_in(bom.tile_kind(TileKind::LiftLarge)),
    )
}

/// The column `tile_color_swap` of the sheet.
fn column_tile_color_swap(bom: &BillOfMaterials) -> (cell: Result<Option<i32>, ColumnOverflow>)
    ensures
        cell is Ok <==> fits_i32(bom@.sheet_tile_color_swap()),
        cell matches Ok(c) ==> c == spec_i32_to_option(bom@.sheet_tile_color_swap()),
{
    cell_of(
        count_in(bom.tile_kind(TileKind::ColorSwapPreloaded))
            + count_in(bom.tile_kind(TileKind::ColorSwapEmpty)),
    )
}

/// The column `tile_dipper` of the sheet.
fn column_tile_dipper(bom: &BillOfMaterials) -> (cell: Result<Option<i32>, ColumnOverflow>)
    ensures
        cell is Ok <==> fits_i32(bom@.sheet_tile_dipper()),
        cell matches Ok(c) ==> c == spec_i32_to_option(bom@.sheet_tile_dipper()),
{
    cell_of(
        count_in(bom.tile_kind(TileKind::DipperRight))
            + count_in(bom.tile_kind(TileKind::DipperLeft)),
    )
}

/// The column `rail_flextube` of the sheet.
fn column_rail_flextube(bom: &BillOfMaterials) -> (cell: Result<Option<i32>, ColumnOverflow>)
    ensures
        cell is Ok <==> fits_i32(bom@.sheet_rail_flextube()),
        cell matches Ok(c) ==> c == spec_i32_to_option(bom@.sheet_rail_flextube()),
{
    cell_of(
        count_in(bom.rail_kind(RailKind::FlexTube0))
            + count_in(bom.rail_kind(RailKind::FlexTube60))
            + count_in(bom.rail_kind(RailKind::FlexTube120))
            + count_in(bom.rail_kind(RailKind::FlexTube180))
            + count_in(bom.rail_kind(RailKind::FlexTube240))
            + count_in(bom.rail_kind(RailKind::FlexTube300)),
    )
}

/// The column `tile_spiral_base` of the sheet.
fn column_tile_spiral_base(bom: &BillOfMaterials) -> (cell: Result<Option<i32>, ColumnOverflow>)
    ensures
        cell is Ok <==> fits_i32(bom@.sheet_tile_spiral_base()),
        cell matches Ok(c) ==> c == spec_i32_to_option(bom@.sheet_tile_spiral_base()),
{
    cell_of(
        count_in(bom.tile_kind(TileKind::ScrewSmall))
            + count_in(bom.tile_kind(TileKind::ScrewMedium))
            + count_in(bom.tile_kind(TileKind::ScrewLarge)),
    )
}

/// The column `tile_spiral_entrance` of the sheet.
fn column_tile_spiral_entrance(bom: &BillOfMaterials) -> (cell: Result<Option<i32>, ColumnOverflow>)
    ensures
        cell is Ok <==> fits_i32(bom@.sheet_tile_spiral_entrance()),
        cell matches Ok(c) ==> c == spec_i32_to_option(bom@.sheet_tile_spiral_entrance()),
{
    cell_of(
        count_in(bom.tile_kind(TileKind::ScrewSmall))
            + count_in(bom.tile_kind(TileKind::ScrewMedium))
            + count_in(bom.tile_kind(TileKind::ScrewLarge)),
    )
}

/// The column `tile_spiral_curve` of the sheet.
fn column_tile_spiral_curve(bom: &BillOfMaterials) -> (cell: Result<Option<i32>, ColumnOverflow>)
    ensures
        cell is Ok <==> fits_i32(bom@.sheet_tile_spiral_curve()),
        cell matches Ok(c) ==> c == spec_i32_to_option(bom@.sheet_tile_spiral_curve()),
{
    cell_of(
        5 * count_in(bom.tile_kind(TileKind::ScrewMedium))
            + 12 * count_in(bom.tile_kind(TileKind::ScrewLarge)),
    )
}

/// The column `tile_trampoline` of the sheet.
fn column_tile_trampoline(bom: &BillOfMaterials) -> (cell: Result<Option<i32>, ColumnOverflow>)
    ensures
        cell is Ok <==> fits_i32(bom@.sheet_tile_trampoline()),
        cell matches Ok(c) ==> c == spec_i32_to_option(bom@.sheet_tile_trampoline()),
{
    cell_of(
        count_in(bom.tile_kind(TileKind::Trampolin0))
            + count_in(bom.tile_kind(TileKind::Trampolin1))
            + count_in(bom.tile_kind(TileKind::Trampolin2)),
    )
}

/// The column `tile_carousel` of the sheet.
fn column_tile_carousel(bom: &BillOfMaterials) -> (cell: Result<Option<i32>, ColumnOverflow>)
    ensures
        cell is Ok <==> fits_i32(bom@.sheet_tile_carousel()),
        cell matches Ok(c) ==> c == spec_i32_to_option(bom@.sheet_tile_carousel()),
{
    cell_of(
        count_in(bom.tile_kind(TileKind::CarouselSameExits))
            + count_in(bom.tile_kind(TileKind::CarouselOffsetExits)),
    )
}

/// The column `tile_mixer` of the sheet.
fn column_tile_mixer(bom: &BillOfMaterials) -> (cell: Result<Option<i32>, ColumnOverflow>)
    ensures
        cell is Ok <==> fits_i32(bom@.sheet_tile_mixer()),
        cell matches Ok(c) ==> c == spec_i32_to_option(bom@.sheet_tile_mixer()),
{
    cell_of(
        count_in(bom.tile_kind(TileKind::MixerSameExits))
            + count_in(bom.tile_kind(TileKind::MixerOffsetExits)),
    )
}

/// The column `releaser` of the sheet.
fn column_releaser(bom: &BillOfMaterials) -> (cell: Result<Option<i32>, ColumnOverflow>)
    ensures
        cell is Ok <==> fits_i32(bom@.sheet_releaser()),
        cell matches Ok(c) ==> c == spec_i32_to_option(bom@.sheet_releaser()),
{
    cell_of(
        count_in(bom.tile_kind(TileKind::Releaser1))
            + count_in(bom.tile_kind(TileKind::Releaser2))
            + count_in(bom.tile_kind(TileKind::Releaser3))
            + count_in(bom.tile_kind(TileKind::Releaser4)),
    )
}

/// The column `tile_dropdown_switch` of the sheet.
fn column_tile_dropdown_switch(bom: &BillOfMaterials) -> (cell: Result<Option<i32>, ColumnOverflow>)
    ensures
        cell is Ok <==> fits_i32(bom@.sheet_tile_dropdown_switch()),
        cell matches Ok(c) ==> c == spec_i32_to_option(bom@.sheet_tile_dropdown_switch()),
{
    cell_of(
        count_in(bom.tile_kind(TileKind::DropdownSwitchRight))
            + count_in(bom.tile_kind(TileKind::DropdownSwitchLeft)),
    )
}

} // verus!
