use murmelbahn::binary32::{power_of_two, Binary32};
use murmelbahn::bom::BillOfMaterials;
use murmelbahn::cli::{Config, Format};
use murmelbahn::common::CourseCode;
use murmelbahn::bytes::DecodeError;
use murmelbahn::course::{
    Course, CourseElementGeneration, CourseKind, CourseMetaData, CourseSaveDataVersion,
    ObjectiveKind,
};
use murmelbahn::download::{Base64Error, CourseDownloadResponse, Error, SharingCourseType};
use murmelbahn::gravisheet::{i32_to_option, option_adder_helper, ColumnOverflow, GraviSheetOutput};
use murmelbahn::layer::{
    LayerKind, LightStoneColorMode, PowerSignalMode, TileKind, TileTowerConstructionData,
};
use murmelbahn::parts;
use murmelbahn::parts::MurmelbahnError;
use murmelbahn::physical;
use murmelbahn::processors::StraightRail;
use murmelbahn::physical::element::{Element, ELEMENT_COUNT};
use murmelbahn::physical::inventory::Inventory;
use murmelbahn::physical::set::{Name, ProductSet, SetRepo};
use murmelbahn::power2022;
use murmelbahn::rail::RailKind;
use murmelbahn::service::{buildable_with, course_bill, course_sheet, Failure};
use murmelbahn::wall::WallKind;
use std::collections::HashMap;

fn empty_bom() -> BillOfMaterials {
    let course = Course::Pro2020(power2022::Course {
        meta_data: CourseMetaData {
            creation_timestamp: 0,
            title: String::new(),
            order_number: 0,
            course_kind: CourseKind::Nothing,
            objective_kind: ObjectiveKind::Nothing,
            difficulty: 0,
            completed: false,
        },
        layer_construction_data: vec![],
        rail_construction_data: vec![],
        pillar_construction_data: vec![],
        generation: CourseElementGeneration::InitialLaunch,
        wall_construction_data: vec![],
    });
    BillOfMaterials::from_course(&course).unwrap()
}

fn parts(entries: &[(Element, i32)]) -> physical::bom::BillOfMaterials {
    let mut elements = HashMap::new();
    for (element, count) in entries {
        elements.insert(element.index(), *count);
    }
    physical::bom::BillOfMaterials { elements }
}

fn set(id: &str, content: &[(Element, i32)]) -> ProductSet {
    ProductSet {
        id: id.to_string(),
        names: vec![Name { language_code: "en".to_string(), name: id.to_string() }],
        content: parts(content).elements,
    }
}

/// What division and rounding in binary32 give for a height in units of
/// length.
fn rounded(height: f32) -> i32 {
    (height / 0.36).round() as i32
}

#[test]
fn height_in_small_stackers_of_multiples() {
    for units in -50..100_000 {
        let stored = units as f32 * 0.36;
        let number = Binary32::from_bits(stored.to_bits());
        assert_eq!(number.small_stackers(), units, "{} units", units);
        assert_eq!(number.small_stackers(), rounded(stored));
        assert_eq!(number.to_bits(), stored.to_bits());
    }
}

#[test]
fn height_in_small_stackers_of_given_numbers() {
    let of = |value: f32| Binary32 { bits: value.to_bits() }.small_stackers();
    assert_eq!(of(0.0), 0);
    assert_eq!(of(-0.0), 0);
    assert_eq!(of(-0.2), -1);
    assert_eq!(of(0.36), 1);
    assert_eq!(of(0.72), 2);
    assert_eq!(of(-0.36), -1);
    assert_eq!(of(0.17), 0);
    assert_eq!(of(0.19), 1);
    assert_eq!(of(-0.17), 0);
    assert_eq!(of(-0.19), -1);
    assert_eq!(of(0.18), 1);
    assert_eq!(of(0.54), 2);
    assert_eq!(of(1.0), 3);
    assert_eq!(of(100.0), 278);
    assert_eq!(of(1e-30), 0);
    assert_eq!(of(f32::MIN_POSITIVE), 0);
    assert_eq!(of(1.0e6), 2777778);
    assert_eq!(of(-1.0e6), -2777778);
    assert_eq!(of(7.0e8), 1944444416);
    assert_eq!(of(7.7e8), 2138888832);
    assert_eq!(of(8.0e8), i32::MAX);
    assert_eq!(of(-7.7e8), -2138888832);
    assert_eq!(of(-8.0e8), i32::MIN);
    assert_eq!(of(3.0e38), i32::MAX);
    assert_eq!(of(f32::MAX), i32::MAX);
    assert_eq!(of(f32::MIN), i32::MIN);
    assert_eq!(of(f32::INFINITY), i32::MAX);
    assert_eq!(of(f32::NEG_INFINITY), i32::MIN);
    assert_eq!(of(f32::NAN), 0);
    assert_eq!(Binary32 { bits: 0x7fc0_0001 }.small_stackers(), 0);
    assert_eq!(Binary32 { bits: 0xffff_ffff }.small_stackers(), 0);
    assert_eq!(Binary32 { bits: 1 }.small_stackers(), 0);
    assert_eq!(Binary32 { bits: 0x007f_ffff }.small_stackers(), 0);
    assert_eq!(Binary32 { bits: 0x8000_0001 }.small_stackers(), 0);
}

#[test]
fn height_in_small_stackers_is_the_quotient_in_binary32() {
    // Numbers of every sign and size.
    let mut bits: u64 = 0;
    while bits <= u32::MAX as u64 {
        let value = f32::from_bits(bits as u32);
        assert_eq!(
            Binary32 { bits: bits as u32 }.small_stackers(),
            rounded(value),
            "bits {:#x}",
            bits
        );
        bits += 0x2f5b;
    }
}

#[test]
fn height_in_small_stackers_near_halves() {
    // The numbers next to every half of a small stacker up to some thousand.
    for halves in 0..20_000 {
        let near = (halves as f32 + 0.5) * 0.36;
        for step in -6i32..=6 {
            let bits = (near.to_bits() as i64 + step as i64) as u32;
            for bits in [bits, bits | 0x8000_0000] {
                assert_eq!(
                    Binary32 { bits }.small_stackers(),
                    rounded(f32::from_bits(bits)),
                    "bits {:#x}",
                    bits
                );
            }
        }
    }
}

#[test]
fn height_in_small_stackers_near_the_limits() {
    // The numbers around the greatest and the least height that is a value
    // of `i32`, and the smallest numbers that are not rounded to zero.
    for centre in [7.7309e8f32, 7.730941e8, 0.18, 1.0e-3, 2.1474836e9, 6.0e9] {
        for step in -3000i32..=3000 {
            let bits = (centre.to_bits() as i64 + step as i64) as u32;
            for bits in [bits, bits | 0x8000_0000] {
                assert_eq!(
                    Binary32 { bits }.small_stackers(),
                    rounded(f32::from_bits(bits)),
                    "bits {:#x}",
                    bits
                );
            }
        }
    }
}

#[test]
fn powers_of_two() {
    assert_eq!(power_of_two(0), 1);
    assert_eq!(power_of_two(1), 2);
    assert_eq!(power_of_two(10), 1024);
    assert_eq!(power_of_two(31), 0x8000_0000);
}

#[test]
fn codes_of_kinds() {
    assert_eq!(TileKind::Nothing.code(), 0);
    assert_eq!(TileKind::Starter.code(), 1);
    assert_eq!(TileKind::Lever.code(), 75);
    assert_eq!(TileKind::Elevator.code(), 77);
    assert_eq!(TileKind::Releaser4.code(), 85);
    assert_eq!(TileKind::from_code(76), None);
    assert_eq!(TileKind::from_code(86), None);
    for code in 0..100 {
        if let Some(kind) = TileKind::from_code(code) {
            assert_eq!(kind.code(), code);
        } else {
            assert!(code == 76 || code > 85);
        }
        if let Some(kind) = RailKind::from_code(code) {
            assert_eq!(kind.code(), code);
        } else {
            assert!(code == 2 || code > 16);
        }
        if let Some(kind) = LayerKind::from_code(code) {
            assert_eq!(kind.code(), code);
        } else {
            assert!(code > 4);
        }
    }
    assert_eq!(RailKind::Straight.code(), 0);
    assert_eq!(RailKind::DropHill.code(), 3);
    assert_eq!(RailKind::FlexTube300.code(), 16);
    assert_eq!(LayerKind::SmallLayer.code(), 4);
    assert_eq!(CourseSaveDataVersion::InitialLaunch.code(), 100101);
    assert_eq!(CourseSaveDataVersion::RailRework2018.code(), 100201);
    assert_eq!(CourseSaveDataVersion::PersistenceRefactor2019.code(), 1);
    assert_eq!(CourseSaveDataVersion::ZiplineAdded2019.code(), 2);
    assert_eq!(CourseSaveDataVersion::Pro2020.code(), 3);
    assert_eq!(CourseSaveDataVersion::Power2022.code(), 4);
    assert_eq!(CourseSaveDataVersion::LightStones2023.code(), 5);
    assert!(!CourseSaveDataVersion::PersistenceRefactor2019.is_supported());
    assert!(CourseSaveDataVersion::ZiplineAdded2019.is_supported());
}

#[test]
fn sentinels_stand_for_nothing() {
    assert_eq!(TileTowerConstructionData::map_retainer_id(-2147483647), Ok(None));
    assert_eq!(TileTowerConstructionData::map_retainer_id(-2147483648), Ok(Some(i32::MIN)));
    assert_eq!(TileTowerConstructionData::map_retainer_id(0), Ok(Some(0)));
    assert_eq!(TileTowerConstructionData::map_power_signal_mode(2147483648), Ok(None));
    assert_eq!(
        TileTowerConstructionData::map_power_signal_mode(0),
        Ok(Some(PowerSignalMode::Off))
    );
    assert_eq!(
        TileTowerConstructionData::map_power_signal_mode(5),
        Err(DecodeError::InvalidDiscriminant)
    );
    assert_eq!(TileTowerConstructionData::map_light_stone_color_mode(2147483648), Ok(None));
    assert_eq!(
        TileTowerConstructionData::map_light_stone_color_mode(5),
        Ok(Some(LightStoneColorMode::White))
    );
    assert_eq!(
        TileTowerConstructionData::map_light_stone_color_mode(6),
        Err(DecodeError::InvalidDiscriminant)
    );
}

#[test]
fn title_is_decoded() {
    assert_eq!(CourseMetaData::decode_title(b"abc".to_vec()), Ok("abc".to_string()));
    assert_eq!(CourseMetaData::decode_title("Größe".as_bytes().to_vec()), Ok("Größe".to_string()));
    assert_eq!(CourseMetaData::decode_title(vec![]), Ok(String::new()));
    assert_eq!(CourseMetaData::decode_title(vec![0xc3]), Err(DecodeError::InvalidUtf8));
    assert_eq!(CourseMetaData::decode_title(vec![0x80]), Err(DecodeError::InvalidUtf8));
}

#[test]
fn course_code_is_upper_case() {
    assert_eq!(CourseCode::new("abc5xyz".to_string()).as_str(), "ABC5XYZ");
    assert_eq!(CourseCode::new("ABC".to_string()).to_string(), "ABC");
    assert_eq!(CourseCode::new("straße".to_string()).as_str(), "STRASSE");
    assert_eq!(CourseCode::from_uppercase("abc".to_string()).as_str(), "abc");
    assert_eq!(CourseCode::new("q".to_string()).clone().as_str(), "Q");
}

#[test]
fn base64_is_decoded() {
    let response = |text: &str| CourseDownloadResponse {
        course_type: SharingCourseType::User,
        course_bytes: text.to_string(),
    };
    assert_eq!(response("AQID").decode_base64_file(), Ok(vec![1, 2, 3]));
    assert_eq!(response("aGVsbG8=").decode_base64_file(), Ok(b"hello".to_vec()));
    assert_eq!(response("").decode_base64_file(), Ok(vec![]));
    assert_eq!(
        response("a!bc").decode_base64_file(),
        Err(Error::Base64DecodeError { source: Base64Error::InvalidByte { offset: 1, byte: b'!' } })
    );
    assert_eq!(
        response("aGVsbG8").decode_base64_file(),
        Err(Error::Base64DecodeError { source: Base64Error::InvalidPadding })
    );
    assert_eq!(
        response("AAAAA").decode_base64_file(),
        Err(Error::Base64DecodeError { source: Base64Error::InvalidLength })
    );
    assert_eq!(
        response("AB==").decode_base64_file(),
        Err(Error::Base64DecodeError {
            source: Base64Error::InvalidLastSymbol { offset: 1, byte: b'B' }
        })
    );
    assert_eq!(response("AA==").decode_base64_file(), Ok(vec![0]));
}

#[test]
fn configuration_has_defaults() {
    let config = Config::default();
    assert_eq!(config.config_version, 1);
    assert_eq!(config.default_language, "en");
    assert_eq!(Format::or_default(None), Format::Json);
    assert_eq!(Format::or_default(Some(Format::Toml)), Format::Toml);
    assert_eq!(Format::or_default(Some(Format::Rust)), Format::Rust);
}

#[test]
fn cells_of_the_sheet() {
    assert_eq!(i32_to_option(0), None);
    assert_eq!(i32_to_option(5), Some(5));
    assert_eq!(i32_to_option(-1), Some(-1));
    assert_eq!(option_adder_helper(vec![]), Some(None));
    assert_eq!(option_adder_helper(vec![None, None]), Some(None));
    assert_eq!(option_adder_helper(vec![Some(2), None, Some(3)]), Some(Some(5)));
    assert_eq!(option_adder_helper(vec![Some(2), Some(-2)]), Some(None));
    assert_eq!(option_adder_helper(vec![Some(i32::MAX), Some(1)]), None);
    assert_eq!(option_adder_helper(vec![Some(i32::MAX), Some(1), Some(-1)]), Some(Some(i32::MAX)));
}

#[test]
fn sheet_of_an_empty_course() {
    let sheet = GraviSheetOutput::from_bom(&empty_bom()).unwrap();
    assert_eq!(sheet.title, "PLACEHOLDER");
    assert_eq!(sheet.course_code, "PLACEHOLDER");
    assert_eq!(sheet.marbles, None);
    assert_eq!(sheet.balcony, None);
    assert_eq!(sheet.tile_two_way, None);
    assert_eq!(sheet.layer_base, None);
    assert_eq!(sheet.rail_small, None);
}

#[test]
fn sheet_adds_kinds_that_are_one_part() {
    let mut bom = empty_bom();
    for (kind, count) in [
        (TileKind::TwoWay, 1),
        (TileKind::SwitchLeft, 2),
        (TileKind::SwitchRight, 4),
        (TileKind::Trampolin0, 1),
        (TileKind::Trampolin1, 2),
        (TileKind::Trampolin2, 3),
        (TileKind::ScrewSmall, 1),
        (TileKind::ScrewMedium, 2),
        (TileKind::ScrewLarge, 3),
        (TileKind::LiftSmall, 1),
        (TileKind::LiftLarge, 1),
        (TileKind::GoalBasin, 6),
        (TileKind::StraightTunnel, 2),
        (TileKind::Drop, 1),
        (TileKind::Catch, 1),
        (TileKind::Splash, 1),
        (TileKind::CurveTunnel, 1),
        (TileKind::SwitchTunnel, 1),
        (TileKind::Releaser1, 1),
        (TileKind::Releaser4, 1),
        (TileKind::Stacker, 0),
        (TileKind::StackerSmall, 9),
        (TileKind::Cascade, 3),
        (TileKind::MixerSameExits, 1),
        (TileKind::ThreeEntranceFunnel, 1),
    ] {
        bom.tiles.insert(kind.code(), count);
    }
    bom.rails.insert(RailKind::FlexTube0.code(), 1);
    bom.rails.insert(RailKind::FlexTube300.code(), 2);
    bom.rails.insert(RailKind::UTurn.code(), 3);
    bom.walls.insert(WallKind::StraightLarge.length(), 4);
    bom.layers.insert(LayerKind::BaseLayerPiece.code(), 2);
    bom.layers.insert(LayerKind::BaseLayer.code(), 5);
    bom.balconies = 3;
    bom.rails_small = 1;
    bom.rails_large = 2;
    let sheet = GraviSheetOutput::from_bom(&bom).unwrap();
    assert_eq!(sheet.tile_two_way, Some(7));
    assert_eq!(sheet.tile_switch_insert, Some(6));
    assert_eq!(sheet.tile_trampoline, Some(6));
    assert_eq!(sheet.stacker_angled, Some(2 + 2 * 3));
    assert_eq!(sheet.tile_spiral_base, Some(6));
    assert_eq!(sheet.tile_spiral_entrance, Some(6));
    assert_eq!(sheet.tile_spiral_curve, Some(2 * 5 + 3 * 12));
    assert_eq!(sheet.tile_lift, Some(2));
    // A small lift, a large lift and a splash.
    assert_eq!(sheet.marbles, Some(5 + 8 + 1));
    assert_eq!(sheet.tile_basic_closed, Some(6));
    assert_eq!(sheet.tile_goal_basin, Some(6));
    assert_eq!(sheet.tile_basic_straight, Some(2));
    assert_eq!(sheet.tile_tunnel_straight, Some(2));
    assert_eq!(sheet.tile_basic, Some(5));
    assert_eq!(sheet.releaser, Some(2));
    assert_eq!(sheet.stacker_large, Some(0));
    assert_eq!(sheet.stacker_small, Some(9));
    assert_eq!(sheet.tile_scoop, Some(3));
    assert_eq!(sheet.tile_mixer, Some(1));
    assert_eq!(sheet.tile_three_entrance_funnel, Some(2));
    assert_eq!(sheet.rail_flextube, Some(3));
    assert_eq!(sheet.rail_uturn, Some(3));
    assert_eq!(sheet.wall_long, Some(4));
    assert_eq!(sheet.wall_short, None);
    assert_eq!(sheet.layer_base, Some(2));
    assert_eq!(sheet.balcony, Some(3));
    assert_eq!(sheet.rail_small, Some(1));
    assert_eq!(sheet.rail_medium, None);
    assert_eq!(sheet.rail_large, Some(2));
    assert_eq!(sheet.tile_space_tube, None);
    assert_eq!(sheet.tile_vertical_cannon, None);
    assert_eq!(sheet.catcher, None);
    assert_eq!(sheet.tile_controller, None);
    assert_eq!(sheet.empty_1, None);
}

#[test]
fn sheet_column_that_does_not_fit() {
    let mut bom = empty_bom();
    bom.tiles.insert(TileKind::ScrewLarge.code(), i32::MAX / 12 + 1);
    assert_eq!(GraviSheetOutput::from_bom(&bom).err(), Some(ColumnOverflow));
    bom.tiles.insert(TileKind::ScrewLarge.code(), i32::MAX / 12);
    assert_eq!(
        GraviSheetOutput::from_bom(&bom).unwrap().tile_spiral_curve,
        Some(i32::MAX / 12 * 12)
    );
    let mut bom = empty_bom();
    bom.tiles.insert(TileKind::Cannon.code(), i32::MAX);
    assert_eq!(GraviSheetOutput::from_bom(&bom).err(), Some(ColumnOverflow));
}

#[test]
fn elements_of_tiles() {
    assert_eq!(Element::elements_for_tilekind(&TileKind::Curve), vec![Element::Curve]);
    assert_eq!(
        Element::elements_for_tilekind(&TileKind::SwitchLeft),
        vec![Element::TwoWay, Element::SwitchInsert]
    );
    assert_eq!(
        Element::elements_for_tilekind(&TileKind::Catch),
        vec![Element::Catch, Element::BasicClosed]
    );
    assert_eq!(
        Element::elements_for_tilekind(&TileKind::Drop),
        vec![Element::Drop, Element::BasicOpen]
    );
    assert_eq!(
        Element::elements_for_tilekind(&TileKind::LiftLarge),
        vec![
            Element::LiftEntrance,
            Element::LiftExit,
            Element::LiftHeightTube,
            Element::LiftHeightTube
        ]
    );
    let medium = Element::elements_for_tilekind(&TileKind::ScrewMedium);
    assert_eq!(medium.len(), 7);
    assert_eq!(medium.iter().filter(|e| **e == Element::SpiralCurve).count(), 5);
    let large = Element::elements_for_tilekind(&TileKind::ScrewLarge);
    assert_eq!(large.len(), 14);
    assert_eq!(&large[..2], &[Element::SpiralBase, Element::SpiralEntrance]);
    assert!(Element::elements_for_tilekind(&TileKind::Nothing).is_empty());
    assert!(Element::elements_for_tilekind(&TileKind::StackerBatch).is_empty());
    assert!(Element::elements_for_tilekind(&TileKind::ZiplineEnd).is_empty());
    assert!(Element::elements_for_tilekind(&TileKind::LightBase).is_empty());
    assert_eq!(Element::elements_for_tilekind(&TileKind::Spiral), vec![Element::TwoEntranceFunnel]);
}

#[test]
fn elements_of_layers_walls_and_rails() {
    assert_eq!(Element::element_for_layerkind(&LayerKind::BaseLayerPiece), Ok(Element::BaseLayer));
    assert_eq!(Element::element_for_layerkind(&LayerKind::LargeLayer),
        Ok(Element::LargeClearLayer));
    assert_eq!(Element::element_for_layerkind(&LayerKind::SmallLayer),
        Ok(Element::SmallClearLayer));
    assert_eq!(Element::element_for_layerkind(&LayerKind::BaseLayer),
        Err(murmelbahn::physical::element::Error::UnknownElement));
    assert_eq!(
        Element::element_for_layerkind(&LayerKind::LargeGhostLayer),
        Err(murmelbahn::physical::element::Error::UnknownElement)
    );
    assert_eq!(Element::element_for_wallkind(&WallKind::StraightSmall), Element::WallSmall);
    assert_eq!(Element::element_for_wallkind(&WallKind::StraightMedium), Element::WallMedium);
    assert_eq!(Element::element_for_wallkind(&WallKind::StraightLarge), Element::WallLarge);
    assert_eq!(Element::element_for_railkind(&RailKind::Straight),
        Err(murmelbahn::physical::element::Error::UnknownElement));
    assert_eq!(Element::element_for_railkind(&RailKind::FlexTube0), Ok(Element::FlexTube));
    assert_eq!(Element::element_for_railkind(&RailKind::FlexTube240), Ok(Element::FlexTube));
    assert_eq!(Element::element_for_railkind(&RailKind::Narrow), Ok(Element::Narrow));
}

#[test]
fn elements_have_places() {
    assert_eq!(ELEMENT_COUNT, 100);
    assert_eq!(Element::BaseLayer.index(), 0);
    assert_eq!(Element::Queue.index(), 99);
    for index in 0..ELEMENT_COUNT {
        assert_eq!(Element::from_index(index).unwrap().index(), index);
    }
    assert_eq!(Element::from_index(100), None);
}

#[test]
fn parts_of_a_bill_of_materials() {
    let mut bom = empty_bom();
    bom.layers.insert(LayerKind::BaseLayerPiece.code(), 2);
    bom.walls.insert(WallKind::StraightMedium.length(), 1);
    bom.rails.insert(RailKind::FlexTube0.code(), 1);
    bom.rails.insert(RailKind::FlexTube60.code(), 2);
    bom.tiles.insert(TileKind::SwitchLeft.code(), 1);
    bom.tiles.insert(TileKind::SwitchRight.code(), 2);
    bom.tiles.insert(TileKind::TwoWay.code(), 4);
    bom.tiles.insert(TileKind::ScrewLarge.code(), 2);
    bom.tiles.insert(TileKind::ZiplineEnd.code(), 5);
    bom.tiles.insert(TileKind::Stacker.code(), 0);
    bom.rails_small = 3;
    bom.balconies = 2;
    let parts = physical::bom::BillOfMaterials::try_from_bill_of_materials(&bom).unwrap();
    assert_eq!(parts.count_of(Element::BaseLayer), 2);
    assert_eq!(parts.count_of(Element::WallMedium), 1);
    assert_eq!(parts.count_of(Element::FlexTube), 3);
    assert_eq!(parts.count_of(Element::TwoWay), 7);
    assert_eq!(parts.count_of(Element::SwitchInsert), 3);
    assert_eq!(parts.count_of(Element::SpiralCurve), 24);
    assert_eq!(parts.count_of(Element::SpiralBase), 2);
    assert_eq!(parts.count_of(Element::Stacker), 0);
    assert_eq!(parts.elements.get(&Element::Stacker.index()), Some(&0));
    // Straight rails and balconies are not among the parts.
    assert_eq!(parts.count_of(Element::StraightSmall), 0);
    assert_eq!(parts.count_of(Element::Balcony), 0);
    assert_eq!(parts.count_of(Element::SpiralEntrance), 2);
    assert_eq!(parts.elements.len(), 9);
}

#[test]
fn elements_that_are_no_parts() {
    let mut bom = empty_bom();
    bom.layers.insert(LayerKind::BaseLayer.code(), 1);
    assert_eq!(
        physical::bom::BillOfMaterials::try_from_bill_of_materials(&bom).err(),
        Some(physical::bom::Error::UnknownLayerKind { layer_kind: LayerKind::BaseLayer })
    );
    let mut bom = empty_bom();
    bom.rails.insert(RailKind::Straight.code(), 1);
    assert_eq!(
        physical::bom::BillOfMaterials::try_from_bill_of_materials(&bom).err(),
        Some(physical::bom::Error::UnknownRailKind { rail_kind: RailKind::Straight })
    );
    let mut bom = empty_bom();
    bom.tiles.insert(TileKind::ScrewLarge.code(), i32::MAX / 12 + 1);
    assert_eq!(
        physical::bom::BillOfMaterials::try_from_bill_of_materials(&bom).err(),
        Some(physical::bom::Error::Overflow)
    );
}

#[test]
fn parts_of_a_collection() {
    let mut repo = SetRepo::new();
    assert!(!repo.add(set("starter", &[(Element::Curve, 3), (Element::Stacker, 40)])));
    assert!(!repo.add(set("tunnel", &[(Element::Curve, 1)])));
    assert!(repo.add(set("tunnel", &[(Element::StraightTunnel, 2), (Element::Curve, 2)])));
    assert_eq!(repo.sets.len(), 2);
    assert_eq!(repo.find(&"tunnel".to_string()), Some(1));
    assert_eq!(repo.find(&"Tunnel".to_string()), None);
    let inventory = Inventory {
        sets: vec![("starter".to_string(), 2), ("tunnel".to_string(), 3)],
        extra_elements: parts(&[(Element::Curve, 1), (Element::Loop, 1)]).elements,
    };
    let owned = physical::bom::BillOfMaterials::from_inventory(&inventory, &repo).unwrap();
    assert_eq!(owned.count_of(Element::Curve), 3 * 2 + 2 * 3 + 1);
    assert_eq!(owned.count_of(Element::Stacker), 80);
    assert_eq!(owned.count_of(Element::StraightTunnel), 6);
    assert_eq!(owned.count_of(Element::Loop), 1);
    assert_eq!(owned.count_of(Element::Cannon), 0);
    let inventory = Inventory {
        sets: vec![("starter".to_string(), 1), ("pro".to_string(), 1)],
        extra_elements: HashMap::new(),
    };
    assert_eq!(
        physical::bom::BillOfMaterials::from_inventory(&inventory, &repo).err(),
        Some(physical::bom::Error::SetUnknown { position: 1 })
    );
    let inventory = Inventory {
        sets: vec![("starter".to_string(), i32::MAX)],
        extra_elements: HashMap::new(),
    };
    assert_eq!(
        physical::bom::BillOfMaterials::from_inventory(&inventory, &repo).err(),
        Some(physical::bom::Error::Overflow)
    );
    assert!(SetRepo::default().sets.is_empty());
}

#[test]
fn parts_that_are_missing() {
    let owned = parts(&[(Element::Curve, 3), (Element::Stacker, 10), (Element::Loop, 1)]);
    let needed = parts(&[(Element::Curve, 3), (Element::Stacker, 4)]);
    let left = owned.subtract(&needed).unwrap();
    assert_eq!(left.count_of(Element::Curve), 0);
    assert_eq!(left.count_of(Element::Stacker), 6);
    assert_eq!(left.count_of(Element::Loop), 1);
    assert!(!left.any_missing());
    let needed = parts(&[(Element::Curve, 4), (Element::Cannon, 0)]);
    let left = owned.subtract(&needed).unwrap();
    assert_eq!(left.count_of(Element::Curve), -1);
    assert_eq!(left.elements.get(&Element::Cannon.index()), Some(&0));
    assert!(left.any_missing());
    let needed = parts(&[(Element::Cannon, 1)]);
    assert!(owned.subtract(&needed).unwrap().any_missing());
    assert!(!owned.any_missing());
    assert!(!owned.clone().any_missing());
    let needed = parts(&[(Element::Curve, i32::MIN)]);
    assert_eq!(owned.subtract(&needed).err(), Some(physical::bom::Error::Overflow));
}

/// A course of the format of 2020 with one base layer and one cell that
/// holds a switch on one small stacker.
fn small_course() -> Vec<u8> {
    let mut bytes = Vec::new();
    bytes.extend_from_slice(&7u128.to_le_bytes());
    bytes.extend_from_slice(&3u32.to_le_bytes());
    bytes.extend_from_slice(&9u64.to_le_bytes());
    bytes.push(4);
    bytes.extend_from_slice(b"Loop");
    for field in [0i32, 1, 0, 2] {
        bytes.extend_from_slice(&field.to_le_bytes());
    }
    bytes.push(0);
    // One layer with one cell.
    bytes.extend_from_slice(&1u32.to_le_bytes());
    bytes.extend_from_slice(&0i32.to_le_bytes());
    bytes.extend_from_slice(&0u32.to_le_bytes());
    bytes.extend_from_slice(&(-0.36f32).to_le_bytes());
    for field in [0i32, 0, 1, 0, 0, 0, 0] {
        bytes.extend_from_slice(&field.to_le_bytes());
    }
    bytes.extend_from_slice(&17u32.to_le_bytes());
    for field in [1i32, 0, -2147483647] {
        bytes.extend_from_slice(&field.to_le_bytes());
    }
    // No rails, no pillars, a generation, no walls.
    for field in [0u32, 0, 0, 0] {
        bytes.extend_from_slice(&field.to_le_bytes());
    }
    bytes
}

#[test]
fn bill_of_a_saved_course() {
    let (meta_data, bom) = course_bill(&small_course()).unwrap();
    assert_eq!(meta_data.title, "Loop");
    assert_eq!(meta_data.creation_timestamp, 9);
    assert_eq!(bom.tile_kind(TileKind::SwitchLeft), Some(1));
    assert_eq!(bom.tile_kind(TileKind::StackerSmall), Some(1));
    assert_eq!(
        course_bill(&small_course()[..30]).err(),
        Some(Failure::Unreadable(murmelbahn::course::Error::DeserializationFailedError {
            source: murmelbahn::bytes::DecodeError::Truncated
        }))
    );
}

#[test]
fn bill_of_a_course_that_breaks_the_rules() {
    // A pillar between layers that the course does not have.
    let mut bytes = small_course();
    let end = bytes.len();
    // One pillar in place of none: the count of the pillars is the third
    // number from the end but one.
    bytes[end - 12..end - 8].copy_from_slice(&1u32.to_le_bytes());
    let mut tail = Vec::new();
    for field in [5i32, 0, 0, 6, 0, 0] {
        tail.extend_from_slice(&field.to_le_bytes());
    }
    let rest = bytes.split_off(end - 8);
    bytes.extend_from_slice(&tail);
    bytes.extend_from_slice(&rest);
    assert_eq!(
        course_bill(&bytes).err(),
        Some(Failure::Uncountable(murmelbahn::bom::AggregationError::GeometryInvariantViolation(
            murmelbahn::bom::GeometryViolation::UnregisteredRetainer { retainer_id: 5 }
        )))
    );
    let enough = parts(&[(Element::BaseLayer, 1)]);
    assert!(matches!(buildable_with(&enough, &bytes), Err(Failure::Uncountable(_))));
}

#[test]
fn sheet_of_a_saved_course() {
    let code = CourseCode::new("abc".to_string());
    let sheet = course_sheet(&small_course(), &code).unwrap();
    assert_eq!(sheet.title, "Loop");
    assert_eq!(sheet.course_code, "ABC");
    assert_eq!(sheet.tile_two_way, Some(1));
    assert_eq!(sheet.tile_switch_insert, Some(1));
    assert_eq!(sheet.stacker_small, Some(1));
    assert_eq!(sheet.stacker_large, Some(0));
    assert_eq!(sheet.layer_base, Some(1));
}

#[test]
fn course_that_can_be_built() {
    let enough = parts(&[
        (Element::BaseLayer, 1),
        (Element::TwoWay, 1),
        (Element::SwitchInsert, 2),
        (Element::StackerSmall, 1),
    ]);
    let built = buildable_with(&enough, &small_course()).unwrap();
    assert_eq!(built.map(|m| m.title), Some("Loop".to_string()));
    let short = parts(&[(Element::BaseLayer, 1), (Element::TwoWay, 1), (Element::StackerSmall, 1)]);
    assert!(buildable_with(&short, &small_course()).unwrap().is_none());
    let mut other = small_course();
    let kind = 20 + 26 + 4 + 4 + 4;
    other[kind] = 1;
    assert_eq!(
        buildable_with(&enough, &other).err(),
        Some(Failure::Unconvertible(physical::bom::Error::UnknownLayerKind {
            layer_kind: LayerKind::BaseLayer
        }))
    );
    let other = &small_course()[..small_course().len() - 1];
    assert!(matches!(buildable_with(&enough, other), Err(Failure::Unreadable(_))));
}

#[test]
fn kinds_of_parts() {
    assert_eq!(parts::LayerKind::try_from(LayerKind::BaseLayerPiece), Ok(parts::LayerKind::Base));
    assert_eq!(parts::LayerKind::try_from(LayerKind::LargeLayer), Ok(parts::LayerKind::LargeClear));
    assert_eq!(parts::LayerKind::try_from(LayerKind::SmallLayer), Ok(parts::LayerKind::SmallClear));
    assert_eq!(
        parts::LayerKind::try_from(LayerKind::BaseLayer),
        Err(MurmelbahnError::UnsupportedPiece)
    );
    assert_eq!(
        parts::LayerKind::try_from(LayerKind::LargeGhostLayer),
        Err(MurmelbahnError::UnsupportedPiece)
    );
    assert_eq!(parts::RailKind::try_from(RailKind::Bernoulli), Ok(parts::RailKind::Bernoulli));
    assert_eq!(parts::RailKind::try_from(RailKind::FlexTube300), Ok(parts::RailKind::FlexTube300));
    assert_eq!(parts::RailKind::try_from(RailKind::Straight),
        Err(MurmelbahnError::UnsupportedPiece));
    assert_eq!(parts::RailKind::straight(StraightRail::Small), parts::RailKind::StraightSmall);
    assert_eq!(parts::RailKind::straight(StraightRail::Medium), parts::RailKind::StraightMedium);
    assert_eq!(parts::RailKind::straight(StraightRail::Large), parts::RailKind::StraightLarge);
    assert_eq!(parts::TileKind::try_from(TileKind::Starter), Ok(parts::TileKind::Starter));
    assert_eq!(parts::TileKind::try_from(TileKind::Elevator), Ok(parts::TileKind::Elevator));
    assert_eq!(
        parts::TileKind::try_from(TileKind::DoubleBalcony),
        Ok(parts::TileKind::DoubleBalcony)
    );
    assert_eq!(parts::TileKind::try_from(TileKind::Nothing),
        Err(MurmelbahnError::ConversionFailed));
    assert_eq!(
        parts::TileKind::try_from(TileKind::LightBase),
        Err(MurmelbahnError::ConversionFailed)
    );
    assert_eq!(
        parts::TileKind::try_from(TileKind::Releaser4),
        Err(MurmelbahnError::ConversionFailed)
    );
    let mut parts_found = 0;
    for code in 0..100 {
        if let Some(kind) = TileKind::from_code(code) {
            match parts::TileKind::try_from(kind) {
                Ok(part) => {
                    assert_eq!(format!("{:?}", part), format!("{:?}", kind));
                    parts_found += 1;
                }
                Err(e) => {
                    assert_eq!(e, MurmelbahnError::ConversionFailed);
                    assert!(code == 0 || code >= 78);
                }
            }
        }
    }
    assert_eq!(parts_found, 76);
}
