//! Reading a saved course from a buffer of bytes.
//!
//! For every item of the format a specification function says what reading
//! it at a position gives, and an executable function reads it. All numbers
//! are stored with their lowest byte first. A sequence is stored as the
//! number of its items, followed by the items.
use crate::bytes::{
    available, le_i32, le_u32, le_u64, read_as, read_bool, read_i32, read_u128, read_u32,
    read_u64, read_u8, spec_read_bool, spec_read_u128, spec_read_u32, starts_with, DecodeError,
    Parsed,
};
use crate::course::{
    Course, CourseElementGeneration, CourseKind, CourseMetaData, CourseMetaDataView,
    CourseSaveDataVersion, CourseView, Error, ObjectiveKind, SaveDataHeader, SavedCourse,
    SavedCourseView,
};
use crate::decode::structure::{
    parse_pillars, parse_rails, parse_walls, spec_parse_pillars, spec_parse_rails,
    spec_parse_walls,
};
use crate::decode::tower::{
    item_count, parse_layers, read_view_as, spec_item_count, spec_parse_layers,
};
use crate::power2022;
use crate::ziplineadded2019;
use vstd::prelude::*;
use vstd::slice::{slice_subrange, slice_to_vec};
use vstd::utf8::{decode_utf8, encode_utf8, valid_utf8};

pub mod structure;
pub mod tower;
pub mod zipline;

verus! {

/// Calls [`String::from_utf8`]: the bytes become a string if and only if
/// they are UTF-8, and the string then holds the characters that the bytes
/// encode.
#[verifier::external_body]
fn string_from_utf8(bytes: Vec<u8>) -> (text: Option<String>)
    ensures
        text is Some <==> valid_utf8(bytes@),
        text matches Some(s) ==> encode_utf8(s@) == bytes@,
{
    match String::from_utf8(bytes) {
        Ok(text) => Some(text),
        Err(_) => None,
    }
}

impl CourseMetaData {
    /// The title that `bytes` encode, where they are UTF-8.
    pub open spec fn spec_decode_title(bytes: Seq<u8>) -> Result<Seq<char>, DecodeError> {
        if valid_utf8(bytes) {
            Ok(decode_utf8(bytes))
        } else {
            Err(DecodeError::InvalidUtf8)
        }
    }

    /// Reads the title that the author of a course gave it from the bytes
    /// that are stored for it.
    pub fn decode_title(bytes: Vec<u8>) -> (title: Result<String, DecodeError>)
        ensures
            match CourseMetaData::spec_decode_title(bytes@) {
                Ok(text) => title matches Ok(s) && s@ == text,
                Err(e) => title matches Err(reason) && reason == e,
            },
    {
        match string_from_utf8(bytes) {
            Some(text) => {
                proof {
                    vstd::utf8::encode_utf8_decode_utf8(text@);
                }
                Ok(text)
            },
            None => Err(DecodeError::InvalidUtf8),
        }
    }
}

/// What reading at `pos` what a course says about itself gives: when it was
/// created, the length of its title in bytes, its title, its place in a
/// list, its kind, its objective, its difficulty, and whether it has been
/// completed.
#[verifier::opaque]
pub open spec fn spec_parse_meta_data(bytes: Seq<u8>, pos: nat) -> Parsed<CourseMetaDataView> {
    if !available(bytes, pos, 9) {
        Err(DecodeError::Truncated)
    } else {
        let size = bytes[(pos + 8) as int] as nat;
        if !available(bytes, pos + 9, size) {
            Err(DecodeError::Truncated)
        } else {
            match CourseMetaData::spec_decode_title(
                bytes.subrange((pos + 9) as int, (pos + 9 + size) as int),
            ) {
                Err(e) => Err(e),
                Ok(title) => if !available(bytes, pos + 9 + size, 4) {
                    Err(DecodeError::Truncated)
                } else {
                    match CourseKind::spec_parse(bytes, pos + 13 + size) {
                        Err(e) => Err(e),
                        Ok((course_kind, _)) => match ObjectiveKind::spec_parse(
                            bytes,
                            pos + 17 + size,
                        ) {
                            Err(e) => Err(e),
                            Ok((objective_kind, _)) => if !available(bytes, pos + 21 + size, 4) {
                                Err(DecodeError::Truncated)
                            } else {
                                match spec_read_bool(bytes, pos + 25 + size) {
                                    Err(e) => Err(e),
                                    Ok((completed, _)) => Ok(
                                        (
                                            CourseMetaDataView {
                                                creation_timestamp: le_u64(bytes, pos),
                                                title,
                                                order_number: le_i32(bytes, pos + 9 + size),
                                                course_kind,
                                                objective_kind,
                                                difficulty: le_i32(bytes, pos + 21 + size),
                                                completed,
                                            },
                                            26 + size,
                                        ),
                                    ),
                                }
                            },
                        },
                    }
                },
            }
        }
    }
}

/// Reads at `pos` what a course says about itself.
pub(crate) fn parse_meta_data(bytes: &[u8], pos: usize) -> (result: Result<
    (CourseMetaData, usize),
    DecodeError,
>)
    requires
        pos <= bytes.len(),
    ensures
        read_view_as(result, spec_parse_meta_data(bytes@, pos as nat), bytes@, pos),
{
    reveal(spec_parse_meta_data);
    if bytes.len() - pos < 9 {
        return Err(DecodeError::Truncated);
    }
    let (creation_timestamp, next) = read_u64(bytes, pos)?;
    let (size, next) = read_u8(bytes, next)?;
    if bytes.len() - next < size as usize {
        return Err(DecodeError::Truncated);
    }
    let title_bytes = slice_to_vec(slice_subrange(bytes, next, next + size as usize));
    let title = CourseMetaData::decode_title(title_bytes)?;
    let next: usize = next + size as usize;
    let (order_number, next) = read_i32(bytes, next)?;
    let (course_kind, next) = CourseKind::parse(bytes, next)?;
    let (objective_kind, next) = ObjectiveKind::parse(bytes, next)?;
    let (difficulty, next) = read_i32(bytes, next)?;
    let (completed, next) = read_bool(bytes, next)?;
    Ok(
        (
            CourseMetaData {
                creation_timestamp,
                title,
                order_number,
                course_kind,
                objective_kind,
                difficulty,
                completed,
            },
            next,
        ),
    )
}

/// What reading the contents of a course of one of the formats from 2020 on
/// at `pos` gives: what the course says about itself, its layers, its rails,
/// its pillars, the generation of its elements, and its walls, each sequence
/// after the number of its items.
pub open spec fn spec_parse_tower_course(
    bytes: Seq<u8>,
    pos: nat,
    version: CourseSaveDataVersion,
) -> Parsed<power2022::CourseView> {
    match spec_parse_meta_data(bytes, pos) {
        Err(e) => Err(e),
        Ok((meta_data, meta)) => match spec_read_u32(bytes, pos + meta) {
            Err(e) => Err(e),
            Ok((layer_count, _)) => match spec_parse_layers(
                bytes,
                pos + meta + 4,
                layer_count as nat,
                version,
            ) {
                Err(e) => Err(e),
                Ok((layer_construction_data, layers)) => match spec_read_u32(
                    bytes,
                    pos + meta + 4 + layers,
                ) {
                    Err(e) => Err(e),
                    Ok((rail_count, _)) => match spec_parse_rails(
                        bytes,
                        pos + meta + 8 + layers,
                        rail_count as nat,
                        version,
                    ) {
                        Err(e) => Err(e),
                        Ok((rail_construction_data, rails)) => match spec_read_u32(
                            bytes,
                            pos + meta + 8 + layers + rails,
                        ) {
                            Err(e) => Err(e),
                            Ok((pillar_count, _)) => match spec_parse_pillars(
                                bytes,
                                pos + meta + 12 + layers + rails,
                                pillar_count as nat,
                            ) {
                                Err(e) => Err(e),
                                Ok(
                                    (pillar_construction_data, pillars),
                                ) => spec_parse_tower_course_end(
                                    bytes,
                                    pos + meta + 12 + layers + rails + pillars,
                                    version,
                                    meta_data,
                                    layer_construction_data,
                                    rail_construction_data,
                                    pillar_construction_data,
                                    meta + 12 + layers + rails + pillars,
                                ),
                            },
                        },
                    },
                },
            },
        },
    }
}

/// What reading the end of the contents of a course at `pos` gives, after
/// `before` bytes of it have been read: the generation of its elements and
/// its walls.
pub open spec fn spec_parse_tower_course_end(
    bytes: Seq<u8>,
    pos: nat,
    version: CourseSaveDataVersion,
    meta_data: CourseMetaDataView,
    layer_construction_data: Seq<crate::layer::LayerConstructionDataView>,
    rail_construction_data: Seq<crate::rail::RailConstructionData>,
    pillar_construction_data: Seq<crate::pillar::PillarConstructionData>,
    before: nat,
) -> Parsed<power2022::CourseView> {
    match CourseElementGeneration::spec_parse(bytes, pos) {
        Err(e) => Err(e),
        Ok((generation, _)) => if !available(bytes, pos + 4, 4) {
            Err(DecodeError::Truncated)
        } else {
            match spec_item_count(le_i32(bytes, pos + 4)) {
                Err(e) => Err(e),
                Ok(wall_count) => match spec_parse_walls(bytes, pos + 8, wall_count, version) {
                    Err(e) => Err(e),
                    Ok((wall_construction_data, walls)) => Ok(
                        (
                            power2022::CourseView {
                                meta_data,
                                layer_construction_data,
                                rail_construction_data,
                                pillar_construction_data,
                                generation,
                                wall_construction_data,
                            },
                            before + 8 + walls,
                        ),
                    ),
                },
            }
        },
    }
}

/// Reads the contents of a course of one of the formats from 2020 on.
pub(crate) fn parse_tower_course(
    bytes: &[u8],
    pos: usize,
    version: CourseSaveDataVersion,
) -> (result:
    Result<(power2022::Course, usize), DecodeError>)
    requires
        pos <= bytes.len(),
    ensures
        read_view_as(result, spec_parse_tower_course(bytes@, pos as nat, version), bytes@, pos),
{
    let (meta_data, next) = parse_meta_data(bytes, pos)?;
    let (layer_count, next) = read_u32(bytes, next)?;
    let (layer_construction_data, next) = parse_layers(
        bytes,
        next,
        layer_count as usize,
        version,
    )?;
    let (rail_count, next) = read_u32(bytes, next)?;
    let (rail_construction_data, next) = parse_rails(bytes, next, rail_count as usize, version)?;
    let (pillar_count, next) = read_u32(bytes, next)?;
    let (pillar_construction_data, next) = parse_pillars(bytes, next, pillar_count as usize)?;
    let (generation, next) = CourseElementGeneration::parse(bytes, next)?;
    let (wall_count, next) = read_i32(bytes, next)?;
    let count = item_count(wall_count)?;
    let (wall_construction_data, next) = parse_walls(bytes, next, count, version)?;
    Ok(
        (
            power2022::Course {
                meta_data,
                layer_construction_data,
                rail_construction_data,
                pillar_construction_data,
                generation,
                wall_construction_data,
            },
            next,
        ),
    )
}

/// What reading the contents of a course of the format of 2019 at `pos`
/// gives: what the course says about itself, its layers, its rails, its
/// pillars, its ropes, each sequence after the number of its items, and the
/// generation of its elements.
pub open spec fn spec_parse_zipline_course(bytes: Seq<u8>, pos: nat) -> Parsed<
    ziplineadded2019::CourseView,
> {
    match spec_parse_meta_data(bytes, pos) {
        Err(e) => Err(e),
        Ok((meta_data, meta)) => match spec_read_u32(bytes, pos + meta) {
            Err(e) => Err(e),
            Ok((layer_count, _)) => match zipline::spec_parse_layers(
                bytes,
                pos + meta + 4,
                layer_count as nat,
            ) {
                Err(e) => Err(e),
                Ok((layer_construction_data, layers)) => match spec_read_u32(
                    bytes,
                    pos + meta + 4 + layers,
                ) {
                    Err(e) => Err(e),
                    Ok((rail_count, _)) => match spec_parse_rails(
                        bytes,
                        pos + meta + 8 + layers,
                        rail_count as nat,
                        CourseSaveDataVersion::ZiplineAdded2019,
                    ) {
                        Err(e) => Err(e),
                        Ok((rail_construction_data, rails)) => match spec_read_u32(
                            bytes,
                            pos + meta + 8 + layers + rails,
                        ) {
                            Err(e) => Err(e),
                            Ok((pillar_count, _)) => match spec_parse_pillars(
                                bytes,
                                pos + meta + 12 + layers + rails,
                                pillar_count as nat,
                            ) {
                                Err(e) => Err(e),
                                Ok(
                                    (pillar_construction_data, pillars),
                                ) => spec_parse_zipline_course_end(
                                    bytes,
                                    pos + meta + 12 + layers + rails + pillars,
                                    meta_data,
                                    layer_construction_data,
                                    rail_construction_data,
                                    pillar_construction_data,
                                    meta + 12 + layers + rails + pillars,
                                ),
                            },
                        },
                    },
                },
            },
        },
    }
}

/// What reading the end of the contents of a course of the format of 2019
/// at `pos` gives, after `before` bytes of it have been read: its ropes and
/// the generation of its elements.
pub open spec fn spec_parse_zipline_course_end(
    bytes: Seq<u8>,
    pos: nat,
    meta_data: CourseMetaDataView,
    layer_construction_data: Seq<ziplineadded2019::LayerConstructionDataView>,
    rail_construction_data: Seq<crate::rail::RailConstructionData>,
    pillar_construction_data: Seq<crate::pillar::PillarConstructionData>,
    before: nat,
) -> Parsed<ziplineadded2019::CourseView> {
    match spec_read_u32(bytes, pos) {
        Err(e) => Err(e),
        Ok((rope_count, _)) => match zipline::spec_parse_ropes(bytes, pos + 4, rope_count as nat) {
            Err(e) => Err(e),
            Ok((rope_construction_data, ropes)) => match CourseElementGeneration::spec_parse(
                bytes,
                pos + 4 + ropes,
            ) {
                Err(e) => Err(e),
                Ok((generation, _)) => Ok(
                    (
                        ziplineadded2019::CourseView {
                            meta_data,
                            layer_construction_data,
                            rail_construction_data,
                            pillar_construction_data,
                            rope_construction_data,
                            generation,
                        },
                        before + 8 + ropes,
                    ),
                ),
            },
        },
    }
}

/// Reads the contents of a course of the format of 2019.
pub(crate) fn parse_zipline_course(bytes: &[u8], pos: usize) -> (result: Result<
    (ziplineadded2019::Course, usize),
    DecodeError,
>)
    requires
        pos <= bytes.len(),
    ensures
        read_view_as(result, spec_parse_zipline_course(bytes@, pos as nat), bytes@, pos),
{
    let (meta_data, next) = parse_meta_data(bytes, pos)?;
    let (layer_count, next) = read_u32(bytes, next)?;
    let (layer_construction_data, next) = zipline::parse_layers(
        bytes,
        next,
        layer_count as usize,
    )?;
    let (rail_count, next) = read_u32(bytes, next)?;
    let (rail_construction_data, next) = parse_rails(
        bytes,
        next,
        rail_count as usize,
        CourseSaveDataVersion::ZiplineAdded2019,
    )?;
    let (pillar_count, next) = read_u32(bytes, next)?;
    let (pillar_construction_data, next) = parse_pillars(bytes, next, pillar_count as usize)?;
    let (rope_count, next) = read_u32(bytes, next)?;
    let (rope_construction_data, next) = zipline::parse_ropes(bytes, next, rope_count as usize)?;
    let (generation, next) = CourseElementGeneration::parse(bytes, next)?;
    Ok(
        (
            ziplineadded2019::Course {
                meta_data,
                layer_construction_data,
                rail_construction_data,
                pillar_construction_data,
                rope_construction_data,
                generation,
            },
            next,
        ),
    )
}

/// What reading the header of a saved course at `pos` gives: an identifier
/// of sixteen bytes and the number of a known format.
pub open spec fn spec_parse_header(bytes: Seq<u8>, pos: nat) -> Parsed<SaveDataHeader> {
    match spec_read_u128(bytes, pos) {
        Err(e) => Err(e),
        Ok((guid, _)) => match CourseSaveDataVersion::spec_parse(bytes, pos + 16) {
            Err(e) => Err(e),
            Ok((version, _)) => Ok((SaveDataHeader { guid, version }, 20)),
        },
    }
}

/// Reads the header of a saved course at `pos`.
pub fn parse_header(bytes: &[u8], pos: usize) -> (result: Result<
    (SaveDataHeader, usize),
    DecodeError,
>)
    ensures
        read_as(result, spec_parse_header(bytes@, pos as nat), bytes@, pos),
{
    if pos > bytes.len() || bytes.len() - pos < 20 {
        return Err(DecodeError::Truncated);
    }
    let (guid, next) = read_u128(bytes, pos)?;
    let (version, next) = CourseSaveDataVersion::parse(bytes, next)?;
    Ok((SaveDataHeader { guid, version }, next))
}

/// What reading the contents of a course of the format `version` at `pos`
/// gives, for a format that can be read.
pub open spec fn spec_parse_course(
    bytes: Seq<u8>,
    pos: nat,
    version: CourseSaveDataVersion,
) -> Parsed<
    CourseView,
>
    recommends
        version.spec_is_supported(),
{
    match version {
        CourseSaveDataVersion::Pro2020 => match spec_parse_tower_course(bytes, pos, version) {
            Err(e) => Err(e),
            Ok((course, used)) => Ok((CourseView::Pro2020(course), used)),
        },
        CourseSaveDataVersion::Power2022 => match spec_parse_tower_course(bytes, pos, version) {
            Err(e) => Err(e),
            Ok((course, used)) => Ok((CourseView::Power2022(course), used)),
        },
        CourseSaveDataVersion::LightStones2023 => match spec_parse_tower_course(
            bytes,
            pos,
            version,
        ) {
            Err(e) => Err(e),
            Ok((course, used)) => Ok((CourseView::LightStones2023(course), used)),
        },
        _ => match spec_parse_zipline_course(bytes, pos) {
            Err(e) => Err(e),
            Ok((course, used)) => Ok((CourseView::ZiplineAdded2019(course), used)),
        },
    }
}

/// The saved course that `bytes` hold: a header, and the contents of a
/// course in the format that the header names. What follows the course is
/// not looked at.
pub open spec fn spec_decode(bytes: Seq<u8>) -> Result<SavedCourseView, Error> {
    match spec_parse_header(bytes, 0) {
        Err(source) => Err(Error::DeserializationFailedError { source }),
        Ok((header, used)) => if !header.version.spec_is_supported() {
            Err(Error::UnsupportedGeneration { version: header.version })
        } else {
            match spec_parse_course(bytes, used, header.version) {
                Err(source) => Err(Error::DeserializationFailedError { source }),
                Ok((course, _)) => Ok(SavedCourseView { header, course }),
            }
        },
    }
}

/// Reads a saved course from `bytes`.
///
/// Fails where the bytes end before the course does, where the header names
/// no known format, where a number stands for none of the kinds that it
/// should stand for, where a truth value is neither 0 nor 1, where the
/// number of items of a sequence is negative, and where the title is not
/// UTF-8. A course of one of the three oldest formats is recognized and not
/// read. Nothing is returned of a course that cannot be read to its end.
pub fn decode(bytes: &[u8]) -> (result: Result<SavedCourse, Error>)
    ensures
        match spec_decode(bytes@) {
            Ok(saved) => result matches Ok(course) && course@ == saved,
            Err(e) => result matches Err(reason) && reason == e,
        },
{
    let (header, next) = match parse_header(bytes, 0) {
        Ok(read) => read,
        Err(source) => {
            return Err(Error::DeserializationFailedError { source });
        },
    };
    let parsed = match header.version {
        CourseSaveDataVersion::InitialLaunch
        | CourseSaveDataVersion::RailRework2018
        | CourseSaveDataVersion::PersistenceRefactor2019 => {
            return Err(Error::UnsupportedGeneration { version: header.version });
        },
        CourseSaveDataVersion::ZiplineAdded2019 => match parse_zipline_course(bytes, next) {
            Ok((course, _)) => Ok(Course::ZiplineAdded2019(course)),
            Err(e) => Err(e),
        },
        CourseSaveDataVersion::Pro2020 => match parse_tower_course(bytes, next, header.version) {
            Ok((course, _)) => Ok(Course::Pro2020(course)),
            Err(e) => Err(e),
        },
        CourseSaveDataVersion::Power2022 => match parse_tower_course(bytes, next, header.version) {
            Ok((course, _)) => Ok(Course::Power2022(course)),
            Err(e) => Err(e),
        },
        CourseSaveDataVersion::LightStones2023 => match parse_tower_course(
            bytes,
            next,
            header.version,
        ) {
            Ok((course, _)) => Ok(Course::LightStones2023(course)),
            Err(e) => Err(e),
        },
    };
    match parsed {
        Ok(course) => Ok(SavedCourse { header, course }),
        Err(source) => Err(Error::DeserializationFailedError { source }),
    }
}

impl SavedCourse {
    /// Reads a saved course from `bytes`. What follows the course in the
    /// buffer is not looked at.
    pub fn from_bytes(bytes: &[u8]) -> (result: Result<SavedCourse, Error>)
        ensures
            match spec_decode(bytes@) {
                Ok(saved) => result matches Ok(course) && course@ == saved,
                Err(e) => result matches Err(reason) && reason == e,
            },
    {
        decode(bytes)
    }
}

/// What a course says about itself does not depend on what follows it in
/// the buffer.
pub proof fn lemma_parse_meta_data_extends(bytes: Seq<u8>, longer: Seq<u8>, pos: nat)
    requires
        starts_with(longer, bytes),
        spec_parse_meta_data(bytes, pos) is Ok,
    ensures
        spec_parse_meta_data(longer, pos) == spec_parse_meta_data(bytes, pos),
{
    reveal(spec_parse_meta_data);
    let size = bytes[(pos + 8) as int] as nat;
    assert(longer.subrange((pos + 9) as int, (pos + 9 + size) as int) =~= bytes.subrange(
        (pos + 9) as int,
        (pos + 9 + size) as int,
    ));
}

/// The contents of a course of one of the formats from 2020 on do not depend
/// on what follows them in the buffer.
pub proof fn lemma_parse_tower_course_extends(
    bytes: Seq<u8>,
    longer: Seq<u8>,
    pos: nat,
    version: CourseSaveDataVersion,
)
    requires
        starts_with(longer, bytes),
        spec_parse_tower_course(bytes, pos, version) is Ok,
    ensures
        spec_parse_tower_course(longer, pos, version) == spec_parse_tower_course(
            bytes,
            pos,
            version,
        ),
{
    lemma_parse_meta_data_extends(bytes, longer, pos);
    let meta = spec_parse_meta_data(bytes, pos).unwrap().1;
    let layer_count = spec_read_u32(bytes, pos + meta).unwrap().0;
    tower::lemma_parse_layers_extends(bytes, longer, pos + meta + 4, layer_count as nat, version);
    let layers = spec_parse_layers(bytes, pos + meta + 4, layer_count as nat, version).unwrap().1;
    let rail_count = spec_read_u32(bytes, pos + meta + 4 + layers).unwrap().0;
    structure::lemma_parse_rails_extends(
        bytes,
        longer,
        pos + meta + 8 + layers,
        rail_count as nat,
        version,
    );
    let rails = spec_parse_rails(
        bytes,
        pos + meta + 8 + layers,
        rail_count as nat,
        version,
    ).unwrap().1;
    let pillar_count = spec_read_u32(bytes, pos + meta + 8 + layers + rails).unwrap().0;
    structure::lemma_parse_pillars_extends(
        bytes,
        longer,
        pos + meta + 12 + layers + rails,
        pillar_count as nat,
    );
    let pillars = spec_parse_pillars(
        bytes,
        pos + meta + 12 + layers + rails,
        pillar_count as nat,
    ).unwrap().1;
    let end = pos + meta + 12 + layers + rails + pillars;
    let wall_count = spec_item_count(le_i32(bytes, end + 4)).unwrap();
    structure::lemma_parse_walls_extends(bytes, longer, end + 8, wall_count, version);
}

/// The contents of a course of the format of 2019 do not depend on what
/// follows them in the buffer.
pub proof fn lemma_parse_zipline_course_extends(bytes: Seq<u8>, longer: Seq<u8>, pos: nat)
    requires
        starts_with(longer, bytes),
        spec_parse_zipline_course(bytes, pos) is Ok,
    ensures
        spec_parse_zipline_course(longer, pos) == spec_parse_zipline_course(bytes, pos),
{
    let version = CourseSaveDataVersion::ZiplineAdded2019;
    lemma_parse_meta_data_extends(bytes, longer, pos);
    let meta = spec_parse_meta_data(bytes, pos).unwrap().1;
    let layer_count = spec_read_u32(bytes, pos + meta).unwrap().0;
    zipline::lemma_parse_layers_extends(bytes, longer, pos + meta + 4, layer_count as nat);
    let layers = zipline::spec_parse_layers(bytes, pos + meta + 4, layer_count as nat).unwrap().1;
    let rail_count = spec_read_u32(bytes, pos + meta + 4 + layers).unwrap().0;
    structure::lemma_parse_rails_extends(
        bytes,
        longer,
        pos + meta + 8 + layers,
        rail_count as nat,
        version,
    );
    let rails = spec_parse_rails(
        bytes,
        pos + meta + 8 + layers,
        rail_count as nat,
        version,
    ).unwrap().1;
    let pillar_count = spec_read_u32(bytes, pos + meta + 8 + layers + rails).unwrap().0;
    structure::lemma_parse_pillars_extends(
        bytes,
        longer,
        pos + meta + 12 + layers + rails,
        pillar_count as nat,
    );
    let pillars = spec_parse_pillars(
        bytes,
        pos + meta + 12 + layers + rails,
        pillar_count as nat,
    ).unwrap().1;
    let end = pos + meta + 12 + layers + rails + pillars;
    let rope_count = spec_read_u32(bytes, end).unwrap().0;
    zipline::lemma_parse_ropes_extends(bytes, longer, end + 4, rope_count as nat);
}

/// A buffer that holds a course still holds that course when bytes are
/// added at its end: what follows a course is not looked at.
pub proof fn lemma_decode_ignores_what_follows(bytes: Seq<u8>, longer: Seq<u8>)
    requires
        starts_with(longer, bytes),
        spec_decode(bytes) is Ok,
    ensures
        spec_decode(longer) == spec_decode(bytes),
{
    let header = spec_parse_header(bytes, 0).unwrap().0;
    match header.version {
        CourseSaveDataVersion::ZiplineAdded2019 => {
            lemma_parse_zipline_course_extends(bytes, longer, 20);
        },
        _ => {
            lemma_parse_tower_course_extends(bytes, longer, 20, header.version);
        },
    }
}

/// Equal buffers hold the same course, or fail to hold one for the same
/// reason: what is read depends on the bytes alone.
pub proof fn lemma_decode_deterministic(first: Seq<u8>, second: Seq<u8>)
    requires
        first =~= second,
    ensures
        spec_decode(first) == spec_decode(second),
{
}

/// A buffer whose header names no known format holds no course: it is
/// rejected whatever follows the header.
pub proof fn lemma_unknown_version_rejected(bytes: Seq<u8>)
    requires
        bytes.len() >= 20,
        CourseSaveDataVersion::spec_from_code(le_u32(bytes, 16)) is None,
    ensures
        spec_decode(bytes) == Err::<SavedCourseView, Error>(
            Error::DeserializationFailedError { source: DecodeError::UnknownVersion },
        ),
{
}

} // verus!
