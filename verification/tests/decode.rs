use murmelbahn::binary32::Binary32;
use murmelbahn::bom::compute_bill_of_materials;
use murmelbahn::bytes::DecodeError;
use murmelbahn::course::{
    Course, CourseElementGeneration, CourseKind, CourseSaveDataVersion, Error, ObjectiveKind,
    SavedCourse,
};
use murmelbahn::decode::decode;
use murmelbahn::gravisheet::GraviSheetOutput;
use murmelbahn::layer::{LayerKind, LightStoneColorMode, PowerSignalMode, TileKind};
use murmelbahn::rail::RailKind;
use murmelbahn::wall::WallSide;
use murmelbahn::ziplineadded2019::RopeKind;

const NO_RETAINER: i32 = -2147483647;
const NO_MODE: u32 = 2147483648;

/// Builds the bytes of a saved course.
struct Writer {
    bytes: Vec<u8>,
    version: u32,
}

impl Writer {
    fn new(version: u32) -> Writer {
        let mut writer = Writer { bytes: Vec::new(), version };
        writer.u128(0x0102_0304_0506_0708_090a_0b0c_0d0e_0f10);
        writer.u32(version);
        writer
    }

    fn u8(&mut self, value: u8) {
        self.bytes.push(value);
    }

    fn u32(&mut self, value: u32) {
        self.bytes.extend_from_slice(&value.to_le_bytes());
    }

    fn i32(&mut self, value: i32) {
        self.bytes.extend_from_slice(&value.to_le_bytes());
    }

    fn u64(&mut self, value: u64) {
        self.bytes.extend_from_slice(&value.to_le_bytes());
    }

    fn u128(&mut self, value: u128) {
        self.bytes.extend_from_slice(&value.to_le_bytes());
    }

    fn f32(&mut self, value: f32) {
        self.bytes.extend_from_slice(&value.to_le_bytes());
    }

    fn hex(&mut self, x: i32, y: i32) {
        self.i32(y);
        self.i32(x);
    }

    fn meta_data(&mut self, title: &[u8]) {
        self.u64(1_600_000_000_000);
        self.u8(title.len() as u8);
        self.bytes.extend_from_slice(title);
        self.i32(7);
        self.u32(1);
        self.u32(0);
        self.i32(3);
        self.u8(1);
    }

    fn tile(&mut self, kind: u32, height: i32, rotation: i32, retainer: i32) {
        self.u32(kind);
        self.i32(height);
        self.i32(rotation);
        self.i32(retainer);
        if self.version == 4 || self.version == 5 {
            self.u32(NO_MODE);
        }
        if self.version == 5 {
            self.u32(NO_MODE);
        }
    }

    /// A tower of one tile without towers on it.
    fn leaf(&mut self, index: i32, kind: u32, height: i32, retainer: i32) {
        self.i32(index);
        self.i32(0);
        self.tile(kind, height, 0, retainer);
    }

    fn layer_head(&mut self, id: i32, kind: u32, height: f32, x: i32, y: i32, cells: i32) {
        self.i32(id);
        self.u32(kind);
        self.f32(height);
        self.hex(x, y);
        self.i32(cells);
    }

    fn exit(&mut self, retainer: i32, x: i32, y: i32) {
        self.i32(retainer);
        self.hex(x, y);
        self.i32(2);
        if self.version == 3 || self.version == 4 {
            self.f32(0.5);
        }
    }

    fn rail(&mut self, kind: u32, from: (i32, i32, i32), to: (i32, i32, i32)) {
        self.exit(from.0, from.1, from.2);
        self.exit(to.0, to.1, to.2);
        self.u32(kind);
        if self.version == 2 {
            self.u8(1);
        }
    }

    fn pillar(&mut self, lower: i32, upper: i32) {
        self.i32(lower);
        self.hex(0, 0);
        self.i32(upper);
        self.hex(0, 0);
    }
}

/// A course with one base layer that holds one cell with one tile on three
/// small stackers, and nothing else.
fn minimal_course(version: u32) -> Vec<u8> {
    let mut w = Writer::new(version);
    w.meta_data(b"Minimal");
    w.u32(1);
    w.layer_head(0, 0, -0.36, 0, 0, 1);
    w.hex(2, 3);
    w.leaf(0, 2, 3, NO_RETAINER);
    w.u32(0);
    w.u32(0);
    w.u32(8);
    w.i32(0);
    w.bytes
}

/// A course of the format of 2019 with one layer, one cell with two tiles,
/// one rail and one rope.
fn zipline_course() -> Vec<u8> {
    let mut w = Writer::new(2);
    w.meta_data(b"Zip");
    w.u32(1);
    w.layer_head(5, 0, -0.2, 1, 1, 1);
    w.i32(4);
    w.hex(0, 1);
    w.i32(2);
    w.u32(2);
    w.u32(35);
    w.u32(1);
    w.rail(1, (5, 0, 0), (5, 3, 0));
    w.u32(0);
    w.u32(1);
    w.u32(0);
    w.hex(0, 0);
    w.u32(0);
    w.hex(1, 1);
    w.u32(1);
    w.u32(3);
    w.bytes
}

/// A course with two layers, a pillar between them, a wall with a balcony,
/// and rails of several lengths.
fn rich_course(version: u32) -> Vec<u8> {
    let mut w = Writer::new(version);
    w.meta_data("Türme".as_bytes());
    // Layers.
    w.u32(2);
    w.layer_head(0, 0, -0.36, 0, 0, 2);
    w.hex(0, 0);
    // A stacker tower that is a retainer, with a curve on it.
    w.i32(0);
    w.i32(1);
    w.tile(43, 2, 0, 100);
    w.leaf(1, 2, 0, NO_RETAINER);
    w.hex(0, 3);
    w.leaf(0, 44, 2, 101);
    w.layer_head(1, 2, 3.6, 4, 4, 0);
    // Rails: one straight rail that spans two cells, and a slow rail.
    w.u32(2);
    w.rail(0, (0, 0, 0), (0, 3, 0));
    w.rail(7, (0, 0, 0), (0, 9, 9));
    // Pillars.
    w.u32(1);
    w.pillar(0, 1);
    // Generation.
    w.u32(5);
    // Walls: one between the two towers, with one balcony that holds a tile.
    w.i32(1);
    w.i32(100);
    w.hex(0, 0);
    w.i32(101);
    w.hex(0, 0);
    w.i32(1);
    w.i32(200);
    w.u32(1);
    w.i32(1);
    w.i32(0);
    w.u8(1);
    w.hex(0, 0);
    w.leaf(0, 3, 1, NO_RETAINER);
    w.bytes
}

fn deserialization_failed(bytes: &[u8]) -> DecodeError {
    match decode(bytes) {
        Err(Error::DeserializationFailedError { source }) => source,
        other => panic!("expected a failure to read, got {:?}", other),
    }
}

#[test]
fn test_parse_all() {
    let buffers = vec![
        minimal_course(3),
        minimal_course(4),
        minimal_course(5),
        zipline_course(),
        rich_course(3),
        rich_course(4),
        rich_course(5),
    ];
    for bytes in buffers.iter() {
        let course = SavedCourse::from_bytes(bytes).unwrap();
        let bom = compute_bill_of_materials(&course.course).unwrap();
        let sheet = GraviSheetOutput::from_bom(&bom).unwrap();
        assert_eq!(sheet.layer_base, Some(1));
    }
}

#[test]
fn decodes_header_and_meta_data() {
    let saved = decode(&minimal_course(4)).unwrap();
    assert_eq!(saved.header.guid, 0x0102_0304_0506_0708_090a_0b0c_0d0e_0f10);
    assert_eq!(saved.header.version, CourseSaveDataVersion::Power2022);
    let meta = saved.course.meta_data();
    assert_eq!(meta.creation_timestamp, 1_600_000_000_000);
    assert_eq!(meta.title, "Minimal");
    assert_eq!(meta.order_number, 7);
    assert_eq!(meta.course_kind, CourseKind::Custom);
    assert_eq!(meta.objective_kind, ObjectiveKind::Nothing);
    assert_eq!(meta.difficulty, 3);
    assert!(meta.completed);
}

#[test]
fn decodes_little_endian_numbers() {
    let mut w = Writer::new(3);
    w.bytes.truncate(0);
    // The identifier 1 and the format 3, byte by byte.
    w.bytes.push(1);
    w.bytes.extend_from_slice(&[0; 15]);
    w.bytes.extend_from_slice(&[3, 0, 0, 0]);
    w.meta_data(b"");
    w.u32(0);
    w.u32(0);
    w.u32(0);
    w.bytes.extend_from_slice(&[8, 0, 0, 0]);
    w.bytes.extend_from_slice(&[0, 0, 0, 0]);
    let saved = decode(&w.bytes).unwrap();
    assert_eq!(saved.header.guid, 1);
    assert_eq!(saved.header.version, CourseSaveDataVersion::Pro2020);
    match saved.course {
        Course::Pro2020(course) => {
            assert_eq!(course.generation, CourseElementGeneration::Power);
            assert_eq!(course.meta_data.title, "");
        }
        other => panic!("wrong format: {:?}", other),
    }
}

#[test]
fn decodes_minimal_course_of_each_format() {
    for (number, version) in [
        (3u32, CourseSaveDataVersion::Pro2020),
        (4, CourseSaveDataVersion::Power2022),
        (5, CourseSaveDataVersion::LightStones2023),
    ] {
        let saved = decode(&minimal_course(number)).unwrap();
        assert_eq!(saved.header.version, version);
        let course = match saved.course {
            Course::Pro2020(course) if number == 3 => course,
            Course::Power2022(course) if number == 4 => course,
            Course::LightStones2023(course) if number == 5 => course,
            other => panic!("wrong format: {:?}", other),
        };
        assert_eq!(course.layer_construction_data.len(), 1);
        let layer = &course.layer_construction_data[0];
        assert_eq!(layer.layer_id, 0);
        assert_eq!(layer.layer_kind, LayerKind::BaseLayerPiece);
        assert_eq!(layer.layer_height, Binary32 { bits: (-0.36f32).to_bits() });
        assert_eq!(layer.world_hex_position.x, 0);
        assert_eq!(layer.cell_construction_datas.len(), 1);
        let cell = &layer.cell_construction_datas[0];
        assert_eq!(cell.local_hex_position.x, 2);
        assert_eq!(cell.local_hex_position.y, 3);
        let node = &cell.tree_node_data;
        assert_eq!(node.index, 0);
        assert!(node.children.is_empty());
        assert_eq!(node.construction_data.kind, TileKind::Curve);
        assert_eq!(node.construction_data.height_in_small_stacker, 3);
        assert_eq!(node.construction_data.hex_rotation, 0);
        assert_eq!(node.construction_data.retainer_id, None);
        assert_eq!(node.construction_data.power_signal_mode, None);
        assert_eq!(node.construction_data.light_stone_color_mode, None);
        assert!(course.rail_construction_data.is_empty());
        assert!(course.pillar_construction_data.is_empty());
        assert!(course.wall_construction_data.is_empty());
        assert_eq!(course.generation, CourseElementGeneration::Power);
    }
}

#[test]
fn decodes_modes_only_where_the_format_stores_them() {
    for version in [3u32, 4, 5] {
        let mut w = Writer::new(version);
        w.meta_data(b"Modes");
        w.u32(1);
        w.layer_head(0, 0, 0.0, 0, 0, 1);
        w.hex(0, 0);
        w.i32(0);
        w.i32(0);
        w.u32(71);
        w.i32(0);
        w.i32(5);
        w.i32(12);
        if version >= 4 {
            w.u32(3);
        }
        if version == 5 {
            w.u32(1);
        }
        w.u32(0);
        w.u32(0);
        w.u32(0);
        w.i32(0);
        let saved = decode(&w.bytes).unwrap();
        let course = match saved.course {
            Course::Pro2020(c) | Course::Power2022(c) | Course::LightStones2023(c) => c,
            other => panic!("wrong format: {:?}", other),
        };
        let tile = course.layer_construction_data[0].cell_construction_datas[0]
            .tree_node_data
            .construction_data;
        assert_eq!(tile.kind, TileKind::Trigger);
        assert_eq!(tile.hex_rotation, 5);
        assert_eq!(tile.retainer_id, Some(12));
        assert_eq!(
            tile.power_signal_mode,
            if version >= 4 { Some(PowerSignalMode::Blue) } else { None }
        );
        assert_eq!(
            tile.light_stone_color_mode,
            if version == 5 { Some(LightStoneColorMode::Alternating) } else { None }
        );
    }
}

#[test]
fn decodes_rich_course() {
    let saved = decode(&rich_course(4)).unwrap();
    let course = match saved.course {
        Course::Power2022(course) => course,
        other => panic!("wrong format: {:?}", other),
    };
    assert_eq!(course.meta_data.title, "Türme");
    assert_eq!(course.layer_construction_data.len(), 2);
    let tower = &course.layer_construction_data[0].cell_construction_datas[0].tree_node_data;
    assert_eq!(tower.construction_data.kind, TileKind::StackerTowerClosed);
    assert_eq!(tower.construction_data.retainer_id, Some(100));
    assert_eq!(tower.children.len(), 1);
    assert_eq!(tower.children[0].index, 1);
    assert_eq!(tower.children[0].construction_data.kind, TileKind::Curve);
    assert_eq!(course.layer_construction_data[1].layer_kind, LayerKind::LargeLayer);
    assert_eq!(course.layer_construction_data[1].world_hex_position.x, 4);
    assert_eq!(course.rail_construction_data.len(), 2);
    let rail = &course.rail_construction_data[0];
    assert_eq!(rail.rail_kind, RailKind::Straight);
    assert_eq!(rail.exit_2_identifier.cell_local_hex_pos.x, 3);
    assert_eq!(rail.exit_1_identifier.side_hex_rot, 2);
    assert_eq!(
        rail.exit_1_identifier.exit_local_pos_y,
        Some(Binary32 { bits: 0.5f32.to_bits() })
    );
    assert_eq!(rail.materialized, None);
    assert_eq!(course.rail_construction_data[1].rail_kind, RailKind::Slow);
    assert_eq!(course.pillar_construction_data.len(), 1);
    assert_eq!(course.pillar_construction_data[0].upper_layer_id, 1);
    assert_eq!(course.generation, CourseElementGeneration::Pro);
    assert_eq!(course.wall_construction_data.len(), 1);
    let wall = &course.wall_construction_data[0];
    assert_eq!(wall.lower_stacker_tower_1_retainer_id, 100);
    assert_eq!(wall.lower_stacker_tower_2_retainer_id, 101);
    assert_eq!(wall.balcony_construction_datas.len(), 1);
    let balcony = &wall.balcony_construction_datas[0];
    assert_eq!(balcony.retainer_id, 200);
    assert_eq!(balcony.wall_side, WallSide::East);
    assert_eq!(balcony.wall_coordinate.column, 1);
    assert_eq!(balcony.wall_coordinate.row, 0);
    let cell = balcony.cell_construction_datas.as_ref().unwrap();
    assert_eq!(cell.tree_node_data.construction_data.kind, TileKind::Catch);
}

#[test]
fn exit_height_is_not_stored_by_the_format_of_2023() {
    let saved = decode(&rich_course(5)).unwrap();
    let course = match saved.course {
        Course::LightStones2023(course) => course,
        other => panic!("wrong format: {:?}", other),
    };
    assert_eq!(course.rail_construction_data[0].exit_1_identifier.exit_local_pos_y, None);
    assert_eq!(course.rail_construction_data[1].rail_kind, RailKind::Slow);
}

#[test]
fn decodes_course_of_2019() {
    let saved = decode(&zipline_course()).unwrap();
    assert_eq!(saved.header.version, CourseSaveDataVersion::ZiplineAdded2019);
    let course = match saved.course {
        Course::ZiplineAdded2019(course) => course,
        other => panic!("wrong format: {:?}", other),
    };
    assert_eq!(course.meta_data.title, "Zip");
    assert_eq!(course.layer_construction_data.len(), 1);
    let layer = &course.layer_construction_data[0];
    assert_eq!(layer.layer_id, 5);
    assert_eq!(layer.hex_vector.x, 1);
    assert_eq!(layer.cell_construction_data[0].hex_rotation, 4);
    assert_eq!(layer.cell_construction_data[0].local_hex_position.y, 1);
    assert_eq!(
        layer.cell_construction_data[0].tile_kinds,
        vec![TileKind::Curve, TileKind::ZiplineStart]
    );
    assert_eq!(course.rail_construction_data.len(), 1);
    assert_eq!(course.rail_construction_data[0].rail_kind, RailKind::Bernoulli);
    assert_eq!(course.rail_construction_data[0].materialized, Some(true));
    assert_eq!(course.rail_construction_data[0].exit_1_identifier.exit_local_pos_y, None);
    assert_eq!(course.rope_construction_data.len(), 1);
    assert_eq!(course.rope_construction_data[0].rope_kind, RopeKind::Straight);
    assert_eq!(course.rope_construction_data[0].end_tile_local_hex_pos.x, 1);
    assert_eq!(course.generation, CourseElementGeneration::Autumn2019);
}

#[test]
fn what_follows_the_course_is_not_looked_at() {
    let mut bytes = minimal_course(3);
    let plain = format!("{:?}", decode(&bytes).unwrap());
    bytes.extend_from_slice(&[0xff; 9]);
    assert_eq!(format!("{:?}", decode(&bytes).unwrap()), plain);
}

#[test]
fn decoding_twice_gives_the_same_course() {
    for bytes in [minimal_course(5), zipline_course(), rich_course(4)] {
        let first = format!("{:?}", decode(&bytes));
        let second = format!("{:?}", decode(&bytes));
        assert_eq!(first, second);
        let copy = bytes.clone();
        assert_eq!(format!("{:?}", decode(&copy)), first);
    }
}

#[test]
fn every_shortened_course_is_rejected() {
    for bytes in [minimal_course(3), minimal_course(5), zipline_course(), rich_course(4)] {
        for length in 0..bytes.len() {
            assert!(decode(&bytes[..length]).is_err(), "length {}", length);
        }
    }
}

#[test]
fn shortened_course_is_truncated() {
    let bytes = minimal_course(4);
    assert_eq!(deserialization_failed(&[]), DecodeError::Truncated);
    assert_eq!(deserialization_failed(&bytes[..19]), DecodeError::Truncated);
    assert_eq!(deserialization_failed(&bytes[..20]), DecodeError::Truncated);
    assert_eq!(deserialization_failed(&bytes[..bytes.len() - 1]), DecodeError::Truncated);
}

#[test]
fn unknown_version_is_rejected() {
    for version in [0u32, 6, 100, 100100, 100102, 100200, u32::MAX] {
        let mut bytes = minimal_course(3);
        bytes[16..20].copy_from_slice(&version.to_le_bytes());
        assert_eq!(deserialization_failed(&bytes), DecodeError::UnknownVersion);
        assert_eq!(deserialization_failed(&bytes[..20]), DecodeError::UnknownVersion);
    }
}

#[test]
fn old_formats_are_recognized_and_not_read() {
    for (number, version) in [
        (100101u32, CourseSaveDataVersion::InitialLaunch),
        (100201, CourseSaveDataVersion::RailRework2018),
        (1, CourseSaveDataVersion::PersistenceRefactor2019),
    ] {
        let mut bytes = minimal_course(3);
        bytes[16..20].copy_from_slice(&number.to_le_bytes());
        match decode(&bytes) {
            Err(Error::UnsupportedGeneration { version: found }) => assert_eq!(found, version),
            other => panic!("expected an old format, got {:?}", other),
        }
        match decode(&bytes[..20]) {
            Err(Error::UnsupportedGeneration { version: found }) => assert_eq!(found, version),
            other => panic!("expected an old format, got {:?}", other),
        }
    }
}

#[test]
fn invalid_kind_is_rejected() {
    // The kind of the course.
    let mut bytes = minimal_course(3);
    let title = b"Minimal".len();
    let course_kind = 20 + 8 + 1 + title + 4;
    bytes[course_kind] = 3;
    assert_eq!(deserialization_failed(&bytes), DecodeError::InvalidDiscriminant);
    // The kind of the layer.
    let mut bytes = minimal_course(3);
    let layers = 20 + 26 + title + 4;
    bytes[layers + 4] = 5;
    assert_eq!(deserialization_failed(&bytes), DecodeError::InvalidDiscriminant);
    // The kind of the tile: 76 stands for none.
    let mut bytes = minimal_course(3);
    let tile = layers + 24 + 8 + 8;
    assert_eq!(bytes[tile], 2);
    bytes[tile] = 76;
    assert_eq!(deserialization_failed(&bytes), DecodeError::InvalidDiscriminant);
    bytes[tile] = 86;
    assert_eq!(deserialization_failed(&bytes), DecodeError::InvalidDiscriminant);
    bytes[tile] = 85;
    assert!(decode(&bytes).is_ok());
}

#[test]
fn invalid_mode_is_rejected() {
    let mut bytes = minimal_course(5);
    let title = b"Minimal".len();
    let tile = 20 + 26 + title + 4 + 24 + 8 + 8;
    bytes[tile + 16..tile + 20].copy_from_slice(&5u32.to_le_bytes());
    assert_eq!(deserialization_failed(&bytes), DecodeError::InvalidDiscriminant);
    bytes[tile + 16..tile + 20].copy_from_slice(&4u32.to_le_bytes());
    bytes[tile + 20..tile + 24].copy_from_slice(&6u32.to_le_bytes());
    assert_eq!(deserialization_failed(&bytes), DecodeError::InvalidDiscriminant);
    bytes[tile + 20..tile + 24].copy_from_slice(&5u32.to_le_bytes());
    let saved = decode(&bytes).unwrap();
    let course = match saved.course {
        Course::LightStones2023(course) => course,
        other => panic!("wrong format: {:?}", other),
    };
    let data = course.layer_construction_data[0].cell_construction_datas[0]
        .tree_node_data
        .construction_data;
    assert_eq!(data.power_signal_mode, Some(PowerSignalMode::Automatic));
    assert_eq!(data.light_stone_color_mode, Some(LightStoneColorMode::White));
}

#[test]
fn invalid_truth_value_is_rejected() {
    let mut bytes = minimal_course(3);
    let completed = 20 + 25 + b"Minimal".len();
    assert_eq!(bytes[completed], 1);
    bytes[completed] = 2;
    assert_eq!(deserialization_failed(&bytes), DecodeError::InvalidBool);
    bytes[completed] = 0;
    assert!(!decode(&bytes).unwrap().course.meta_data().completed);
}

#[test]
fn negative_count_is_rejected() {
    let title = b"Minimal".len();
    let layers = 20 + 26 + title + 4;
    // The number of cells of the layer.
    let mut bytes = minimal_course(3);
    bytes[layers + 20..layers + 24].copy_from_slice(&(-1i32).to_le_bytes());
    assert_eq!(deserialization_failed(&bytes), DecodeError::NegativeCount);
    // The number of towers on the tile.
    let mut bytes = minimal_course(3);
    let node = layers + 24 + 8;
    bytes[node + 4..node + 8].copy_from_slice(&i32::MIN.to_le_bytes());
    assert_eq!(deserialization_failed(&bytes), DecodeError::NegativeCount);
    // The tile is read before the number of towers on it is looked at.
    bytes[node + 8] = 76;
    assert_eq!(deserialization_failed(&bytes), DecodeError::InvalidDiscriminant);
    // The number of walls.
    let mut bytes = minimal_course(3);
    let end = bytes.len();
    bytes[end - 4..].copy_from_slice(&(-5i32).to_le_bytes());
    assert_eq!(deserialization_failed(&bytes), DecodeError::NegativeCount);
}

#[test]
fn count_beyond_the_buffer_is_truncated() {
    let mut bytes = minimal_course(3);
    let layers = 20 + 26 + b"Minimal".len();
    bytes[layers..layers + 4].copy_from_slice(&u32::MAX.to_le_bytes());
    assert_eq!(deserialization_failed(&bytes), DecodeError::Truncated);
}

#[test]
fn invalid_title_is_rejected() {
    let mut w = Writer::new(3);
    w.meta_data(&[0x66, 0xff, 0x67]);
    w.u32(0);
    w.u32(0);
    w.u32(0);
    w.u32(0);
    w.i32(0);
    assert_eq!(deserialization_failed(&w.bytes), DecodeError::InvalidUtf8);
    // A title that ends in the middle of a character.
    let mut w = Writer::new(3);
    w.meta_data(&"ä".as_bytes()[..1]);
    w.u32(0);
    w.u32(0);
    w.u32(0);
    w.u32(0);
    w.i32(0);
    assert_eq!(deserialization_failed(&w.bytes), DecodeError::InvalidUtf8);
}

#[test]
fn title_of_the_greatest_length_is_read() {
    let title = "ab".repeat(127) + "c";
    assert_eq!(title.len(), 255);
    let mut w = Writer::new(3);
    w.meta_data(title.as_bytes());
    w.u32(0);
    w.u32(0);
    w.u32(0);
    w.u32(0);
    w.i32(0);
    assert_eq!(decode(&w.bytes).unwrap().course.meta_data().title, title);
}

#[test]
fn end_to_end_one_tile_on_three_small_stackers() {
    for version in [3u32, 4, 5] {
        let saved = decode(&minimal_course(version)).unwrap();
        let bom = compute_bill_of_materials(&saved.course).unwrap();
        assert_eq!(bom.tile_kind(TileKind::Curve), Some(1));
        assert_eq!(bom.tile_kind(TileKind::StackerSmall), Some(1));
        assert_eq!(bom.tile_kind(TileKind::Stacker), Some(1));
        assert_eq!(bom.layer_kind(LayerKind::BaseLayerPiece), Some(1));
        assert_eq!(bom.tiles.len(), 3);
        assert_eq!(bom.balconies, 0);
    }
}

#[test]
fn end_to_end_rich_course() {
    let saved = decode(&rich_course(4)).unwrap();
    let bom = compute_bill_of_materials(&saved.course).unwrap();
    assert_eq!(bom.layer_kind(LayerKind::BaseLayerPiece), Some(1));
    assert_eq!(bom.layer_kind(LayerKind::LargeLayer), Some(1));
    assert_eq!(bom.tile_kind(TileKind::StackerTowerClosed), Some(1));
    assert_eq!(bom.tile_kind(TileKind::StackerTowerOpened), Some(1));
    assert_eq!(bom.tile_kind(TileKind::Curve), Some(1));
    assert_eq!(bom.tile_kind(TileKind::Catch), Some(1));
    // Towers: 2 + 0 + 2 small stackers, the tile on the balcony 1, and the
    // pillar from 0 to 10: 1 + 0 + 1 + 0 + 5 large ones and one small one.
    assert_eq!(bom.tile_kind(TileKind::Stacker), Some(7));
    assert_eq!(bom.tile_kind(TileKind::StackerSmall), Some(1));
    assert_eq!(bom.wall_kind(murmelbahn::wall::WallKind::StraightMedium), Some(1));
    assert_eq!(bom.balconies, 1);
    assert_eq!(bom.rails_medium, 1);
    assert_eq!(bom.rails_small, 0);
    assert_eq!(bom.rail_kind(RailKind::Slow), Some(1));
    assert_eq!(bom.rail_kind(RailKind::Straight), None);
}

#[test]
fn end_to_end_course_of_2019() {
    let saved = decode(&zipline_course()).unwrap();
    let bom = compute_bill_of_materials(&saved.course).unwrap();
    assert_eq!(bom.layer_kind(LayerKind::BaseLayerPiece), Some(1));
    assert_eq!(bom.tile_kind(TileKind::Curve), Some(1));
    assert_eq!(bom.tile_kind(TileKind::ZiplineStart), Some(1));
    assert_eq!(bom.tile_kind(TileKind::Stacker), None);
    assert_eq!(bom.rail_kind(RailKind::Bernoulli), Some(1));
    assert_eq!(bom.marbles(), Some(1));
}
