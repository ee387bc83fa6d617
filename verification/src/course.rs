//! A saved course: its header, what is known about it, and its contents in
//! one of the formats that the application has written over the years.
use crate::bytes::{available, le_u32, read_as, read_u32, DecodeError, Parsed};
use crate::power2022;
use crate::ziplineadded2019;
use vstd::prelude::*;

verus! {

/// Where a course comes from.
#[derive(Clone, Copy, Debug, PartialEq, Eq, Structural, Hash)]
pub enum CourseKind {
    Nothing,
    Custom,
    RegularEditorial,
    Tutorial,
    DownloadUser,
    Recovery,
    DownloadEditorial,
    InAppPurchase,
    ProEditorial,
    PowerEditorial,
}

impl CourseKind {
    /// The number that stands for this kind of course in a saved course.
    pub open spec fn spec_code(self) -> u32 {
        match self {
            CourseKind::Nothing => 0,
            CourseKind::Custom => 1,
            CourseKind::RegularEditorial => 2,
            CourseKind::Tutorial => 4,
            CourseKind::DownloadUser => 5,
            CourseKind::Recovery => 6,
            CourseKind::DownloadEditorial => 7,
            CourseKind::InAppPurchase => 8,
            CourseKind::ProEditorial => 9,
            CourseKind::PowerEditorial => 10,
        }
    }

    /// The kind of course that a number stands for, where it stands for one.
    pub open spec fn spec_from_code(code: u32) -> Option<CourseKind> {
        if code == 0 {
            Some(CourseKind::Nothing)
        } else if code == 1 {
            Some(CourseKind::Custom)
        } else if code == 2 {
            Some(CourseKind::RegularEditorial)
        } else if code == 4 {
            Some(CourseKind::Tutorial)
        } else if code == 5 {
            Some(CourseKind::DownloadUser)
        } else if code == 6 {
            Some(CourseKind::Recovery)
        } else if code == 7 {
            Some(CourseKind::DownloadEditorial)
        } else if code == 8 {
            Some(CourseKind::InAppPurchase)
        } else if code == 9 {
            Some(CourseKind::ProEditorial)
        } else if code == 10 {
            Some(CourseKind::PowerEditorial)
        } else {
            None
        }
    }

    /// The number that stands for this kind of course in a saved course.
    pub fn code(&self) -> (code: u32)
        ensures
            code == self.spec_code(),
            CourseKind::spec_from_code(code) == Some(*self),
    {
        match self {
            CourseKind::Nothing => 0,
            CourseKind::Custom => 1,
            CourseKind::RegularEditorial => 2,
            CourseKind::Tutorial => 4,
            CourseKind::DownloadUser => 5,
            CourseKind::Recovery => 6,
            CourseKind::DownloadEditorial => 7,
            CourseKind::InAppPurchase => 8,
            CourseKind::ProEditorial => 9,
            CourseKind::PowerEditorial => 10,
        }
    }

    /// The kind of course that `code` stands for, or `None` where it stands for none.
    pub fn from_code(code: u32) -> (kind: Option<CourseKind>)
        ensures
            kind == CourseKind::spec_from_code(code),
            kind matches Some(k) ==> k.spec_code() == code,
    {
        match code {
            0 => Some(CourseKind::Nothing),
            1 => Some(CourseKind::Custom),
            2 => Some(CourseKind::RegularEditorial),
            4 => Some(CourseKind::Tutorial),
            5 => Some(CourseKind::DownloadUser),
            6 => Some(CourseKind::Recovery),
            7 => Some(CourseKind::DownloadEditorial),
            8 => Some(CourseKind::InAppPurchase),
            9 => Some(CourseKind::ProEditorial),
            10 => Some(CourseKind::PowerEditorial),
            _ => None,
        }
    }

    /// Every kind of course has a code of its own, from which it is found again.
    pub proof fn lemma_code_injective(first: CourseKind, second: CourseKind)
        ensures
            CourseKind::spec_from_code(first.spec_code()) == Some(first),
            first.spec_code() == second.spec_code() ==> first == second,
    {
        assert(CourseKind::spec_from_code(second.spec_code()) == Some(second));
    }

    /// What reading a kind of course at `pos` gives: a number of four bytes that stands
    /// for one.
    pub open spec fn spec_parse(bytes: Seq<u8>, pos: nat) -> Parsed<CourseKind> {
        if !available(bytes, pos, 4) {
            Err(DecodeError::Truncated)
        } else {
            match CourseKind::spec_from_code(le_u32(bytes, pos)) {
                Some(kind) => Ok((kind, 4)),
                None => Err(DecodeError::InvalidDiscriminant),
            }
        }
    }

    /// Reads the kind of course at `pos`.
    pub fn parse(bytes: &[u8], pos: usize) -> (result: Result<(CourseKind, usize), DecodeError>)
        ensures
            read_as(result, CourseKind::spec_parse(bytes@, pos as nat), bytes@, pos),
    {
        let (code, next) = read_u32(bytes, pos)?;
        match CourseKind::from_code(code) {
            Some(kind) => Ok((kind, next)),
            None => Err(DecodeError::InvalidDiscriminant),
        }
    }
}

/// The objective of a course.
#[derive(Clone, Copy, Debug, PartialEq, Eq, Structural, Hash)]
pub enum ObjectiveKind {
    Nothing,
}

impl ObjectiveKind {
    /// The number that stands for this kind of objective in a saved course.
    pub open spec fn spec_code(self) -> u32 {
        match self {
            ObjectiveKind::Nothing => 0,
        }
    }

    /// The kind of objective that a number stands for, where it stands for one.
    pub open spec fn spec_from_code(code: u32) -> Option<ObjectiveKind> {
        if code == 0 {
            Some(ObjectiveKind::Nothing)
        } else {
            None
        }
    }

    /// The number that stands for this kind of objective in a saved course.
    pub fn code(&self) -> (code: u32)
        ensures
            code == self.spec_code(),
            ObjectiveKind::spec_from_code(code) == Some(*self),
    {
        match self {
            ObjectiveKind::Nothing => 0,
        }
    }

    /// The kind of objective that `code` stands for, or `None` where it stands for none.
    pub fn from_code(code: u32) -> (kind: Option<ObjectiveKind>)
        ensures
            kind == ObjectiveKind::spec_from_code(code),
            kind matches Some(k) ==> k.spec_code() == code,
    {
        match code {
            0 => Some(ObjectiveKind::Nothing),
            _ => None,
        }
    }

    /// Every kind of objective has a code of its own, from which it is found again.
    pub proof fn lemma_code_injective(first: ObjectiveKind, second: ObjectiveKind)
        ensures
            ObjectiveKind::spec_from_code(first.spec_code()) == Some(first),
            first.spec_code() == second.spec_code() ==> first == second,
    {
        assert(ObjectiveKind::spec_from_code(second.spec_code()) == Some(second));
    }

    /// What reading a kind of objective at `pos` gives: a number of four bytes that stands
    /// for one.
    pub open spec fn spec_parse(bytes: Seq<u8>, pos: nat) -> Parsed<ObjectiveKind> {
        if !available(bytes, pos, 4) {
            Err(DecodeError::Truncated)
        } else {
            match ObjectiveKind::spec_from_code(le_u32(bytes, pos)) {
                Some(kind) => Ok((kind, 4)),
                None => Err(DecodeError::InvalidDiscriminant),
            }
        }
    }

    /// Reads the kind of objective at `pos`.
    pub fn parse(bytes: &[u8], pos: usize) -> (result: Result<(ObjectiveKind, usize), DecodeError>)
        ensures
            read_as(result, ObjectiveKind::spec_parse(bytes@, pos as nat), bytes@, pos),
    {
        let (code, next) = read_u32(bytes, pos)?;
        match ObjectiveKind::from_code(code) {
            Some(kind) => Ok((kind, next)),
            None => Err(DecodeError::InvalidDiscriminant),
        }
    }
}

/// The newest generation of elements that a course uses.
#[derive(Clone, Copy, Debug, PartialEq, Eq, Structural, Hash)]
pub enum CourseElementGeneration {
    InitialLaunch,
    Christmas2018,
    Easter2019,
    Autumn2019,
    Easter2020,
    Pro,
    Fall2021,
    Spring2022,
    Power,
    Autumn2023,
}

impl CourseElementGeneration {
    /// The number that stands for this generation of elements in a saved course.
    pub open spec fn spec_code(self) -> u32 {
        match self {
            CourseElementGeneration::InitialLaunch => 0,
            CourseElementGeneration::Christmas2018 => 1,
            CourseElementGeneration::Easter2019 => 2,
            CourseElementGeneration::Autumn2019 => 3,
            CourseElementGeneration::Easter2020 => 4,
            CourseElementGeneration::Pro => 5,
            CourseElementGeneration::Fall2021 => 6,
            CourseElementGeneration::Spring2022 => 7,
            CourseElementGeneration::Power => 8,
            CourseElementGeneration::Autumn2023 => 9,
        }
    }

    /// The generation of elements that a number stands for, where it stands for one.
    pub open spec fn spec_from_code(code: u32) -> Option<CourseElementGeneration> {
        if code == 0 {
            Some(CourseElementGeneration::InitialLaunch)
        } else if code == 1 {
            Some(CourseElementGeneration::Christmas2018)
        } else if code == 2 {
            Some(CourseElementGeneration::Easter2019)
        } else if code == 3 {
            Some(CourseElementGeneration::Autumn2019)
        } else if code == 4 {
            Some(CourseElementGeneration::Easter2020)
        } else if code == 5 {
            Some(CourseElementGeneration::Pro)
        } else if code == 6 {
            Some(CourseElementGeneration::Fall2021)
        } else if code == 7 {
            Some(CourseElementGeneration::Spring2022)
        } else if code == 8 {
            Some(CourseElementGeneration::Power)
        } else if code == 9 {
            Some(CourseElementGeneration::Autumn2023)
        } else {
            None
        }
    }

    /// The number that stands for this generation of elements in a saved course.
    pub fn code(&self) -> (code: u32)
        ensures
            code == self.spec_code(),
            CourseElementGeneration::spec_from_code(code) == Some(*self),
    {
        match self {
            CourseElementGeneration::InitialLaunch => 0,
            CourseElementGeneration::Christmas2018 => 1,
            CourseElementGeneration::Easter2019 => 2,
            CourseElementGeneration::Autumn2019 => 3,
            CourseElementGeneration::Easter2020 => 4,
            CourseElementGeneration::Pro => 5,
            CourseElementGeneration::Fall2021 => 6,
            CourseElementGeneration::Spring2022 => 7,
            CourseElementGeneration::Power => 8,
            CourseElementGeneration::Autumn2023 => 9,
        }
    }

    /// The generation of elements that `code` stands for, or `None` where it stands for none.
    pub fn from_code(code: u32) -> (kind: Option<CourseElementGeneration>)
        ensures
            kind == CourseElementGeneration::spec_from_code(code),
            kind matches Some(k) ==> k.spec_code() == code,
    {
        match code {
            0 => Some(CourseElementGeneration::InitialLaunch),
            1 => Some(CourseElementGeneration::Christmas2018),
            2 => Some(CourseElementGeneration::Easter2019),
            3 => Some(CourseElementGeneration::Autumn2019),
            4 => Some(CourseElementGeneration::Easter2020),
            5 => Some(CourseElementGeneration::Pro),
            6 => Some(CourseElementGeneration::Fall2021),
            7 => Some(CourseElementGeneration::Spring2022),
            8 => Some(CourseElementGeneration::Power),
            9 => Some(CourseElementGeneration::Autumn2023),
            _ => None,
        }
    }

    /// Every generation of elements has a code of its own, from which it is found again.
    pub proof fn lemma_code_injective(
        first: CourseElementGeneration,
        second: CourseElementGeneration,
    )
        ensures
            CourseElementGeneration::spec_from_code(first.spec_code()) == Some(first),
            first.spec_code() == second.spec_code() ==> first == second,
    {
        assert(CourseElementGeneration::spec_from_code(second.spec_code()) == Some(second));
    }

    /// What reading a generation of elements at `pos` gives: a number of four bytes that stands
    /// for one.
    pub open spec fn spec_parse(bytes: Seq<u8>, pos: nat) -> Parsed<CourseElementGeneration> {
        if !available(bytes, pos, 4) {
            Err(DecodeError::Truncated)
        } else {
            match CourseElementGeneration::spec_from_code(le_u32(bytes, pos)) {
                Some(kind) => Ok((kind, 4)),
                None => Err(DecodeError::InvalidDiscriminant),
            }
        }
    }

    /// Reads the generation of elements at `pos`.
    pub fn parse(
        bytes: &[u8],
        pos: usize,
    ) -> (result: Result<(CourseElementGeneration, usize), DecodeError>)
        ensures
            read_as(result, CourseElementGeneration::spec_parse(bytes@, pos as nat), bytes@, pos),
    {
        let (code, next) = read_u32(bytes, pos)?;
        match CourseElementGeneration::from_code(code) {
            Some(kind) => Ok((kind, next)),
            None => Err(DecodeError::InvalidDiscriminant),
        }
    }
}

/// The formats in which courses have been saved.
#[derive(Clone, Copy, Debug, PartialEq, Eq, Structural, Hash)]
pub enum CourseSaveDataVersion {
    InitialLaunch,
    RailRework2018,
    PersistenceRefactor2019,
    ZiplineAdded2019,
    Pro2020,
    Power2022,
    LightStones2023,
}

impl CourseSaveDataVersion {
    /// The number that stands for this format in a saved course.
    pub open spec fn spec_code(self) -> u32 {
        match self {
            CourseSaveDataVersion::InitialLaunch => 100101,
            CourseSaveDataVersion::RailRework2018 => 100201,
            CourseSaveDataVersion::PersistenceRefactor2019 => 1,
            CourseSaveDataVersion::ZiplineAdded2019 => 2,
            CourseSaveDataVersion::Pro2020 => 3,
            CourseSaveDataVersion::Power2022 => 4,
            CourseSaveDataVersion::LightStones2023 => 5,
        }
    }

    /// The format that a number stands for, where it stands for one.
    pub open spec fn spec_from_code(code: u32) -> Option<CourseSaveDataVersion> {
        if code == 100101 {
            Some(CourseSaveDataVersion::InitialLaunch)
        } else if code == 100201 {
            Some(CourseSaveDataVersion::RailRework2018)
        } else if code == 1 {
            Some(CourseSaveDataVersion::PersistenceRefactor2019)
        } else if code == 2 {
            Some(CourseSaveDataVersion::ZiplineAdded2019)
        } else if code == 3 {
            Some(CourseSaveDataVersion::Pro2020)
        } else if code == 4 {
            Some(CourseSaveDataVersion::Power2022)
        } else if code == 5 {
            Some(CourseSaveDataVersion::LightStones2023)
        } else {
            None
        }
    }

    /// The number that stands for this format in a saved course.
    pub fn code(&self) -> (code: u32)
        ensures
            code == self.spec_code(),
            CourseSaveDataVersion::spec_from_code(code) == Some(*self),
    {
        match self {
            CourseSaveDataVersion::InitialLaunch => 100101,
            CourseSaveDataVersion::RailRework2018 => 100201,
            CourseSaveDataVersion::PersistenceRefactor2019 => 1,
            CourseSaveDataVersion::ZiplineAdded2019 => 2,
            CourseSaveDataVersion::Pro2020 => 3,
            CourseSaveDataVersion::Power2022 => 4,
            CourseSaveDataVersion::LightStones2023 => 5,
        }
    }

    /// The format that `code` stands for, or `None` where it stands for none.
    pub fn from_code(code: u32) -> (kind: Option<CourseSaveDataVersion>)
        ensures
            kind == CourseSaveDataVersion::spec_from_code(code),
            kind matches Some(k) ==> k.spec_code() == code,
    {
        match code {
            100101 => Some(CourseSaveDataVersion::InitialLaunch),
            100201 => Some(CourseSaveDataVersion::RailRework2018),
            1 => Some(CourseSaveDataVersion::PersistenceRefactor2019),
            2 => Some(CourseSaveDataVersion::ZiplineAdded2019),
            3 => Some(CourseSaveDataVersion::Pro2020),
            4 => Some(CourseSaveDataVersion::Power2022),
            5 => Some(CourseSaveDataVersion::LightStones2023),
            _ => None,
        }
    }

    /// Every format has a code of its own, from which it is found again.
    pub proof fn lemma_code_injective(first: CourseSaveDataVersion, second: CourseSaveDataVersion)
        ensures
            CourseSaveDataVersion::spec_from_code(first.spec_code()) == Some(first),
            first.spec_code() == second.spec_code() ==> first == second,
    {
        assert(CourseSaveDataVersion::spec_from_code(second.spec_code()) == Some(second));
    }

    /// What reading a format at `pos` gives: a number of four bytes that stands
    /// for one.
    pub open spec fn spec_parse(bytes: Seq<u8>, pos: nat) -> Parsed<CourseSaveDataVersion> {
        if !available(bytes, pos, 4) {
            Err(DecodeError::Truncated)
        } else {
            match CourseSaveDataVersion::spec_from_code(le_u32(bytes, pos)) {
                Some(kind) => Ok((kind, 4)),
                None => Err(DecodeError::UnknownVersion),
            }
        }
    }

    /// Reads the format at `pos`.
    pub fn parse(
        bytes: &[u8],
        pos: usize,
    ) -> (result: Result<(CourseSaveDataVersion, usize), DecodeError>)
        ensures
            read_as(result, CourseSaveDataVersion::spec_parse(bytes@, pos as nat), bytes@, pos),
    {
        let (code, next) = read_u32(bytes, pos)?;
        match CourseSaveDataVersion::from_code(code) {
            Some(kind) => Ok((kind, next)),
            None => Err(DecodeError::UnknownVersion),
        }
    }
}

impl CourseSaveDataVersion {
    /// Whether courses of this format can be read. The three oldest formats
    /// are known by their number only.
    pub open spec fn spec_is_supported(self) -> bool {
        match self {
            CourseSaveDataVersion::InitialLaunch => false,
            CourseSaveDataVersion::RailRework2018 => false,
            CourseSaveDataVersion::PersistenceRefactor2019 => false,
            CourseSaveDataVersion::ZiplineAdded2019 => true,
            CourseSaveDataVersion::Pro2020 => true,
            CourseSaveDataVersion::Power2022 => true,
            CourseSaveDataVersion::LightStones2023 => true,
        }
    }

    /// Whether a tile of this format stores a power signal mode.
    pub open spec fn spec_has_power_signal_mode(self) -> bool {
        self == CourseSaveDataVersion::Power2022 || self == CourseSaveDataVersion::LightStones2023
    }

    /// Whether a tile of this format stores a light stone colour mode.
    pub open spec fn spec_has_light_stone_color_mode(self) -> bool {
        self == CourseSaveDataVersion::LightStones2023
    }

    /// Whether the end of a rail stores a height in this format.
    pub open spec fn spec_has_exit_local_pos_y(self) -> bool {
        self == CourseSaveDataVersion::Power2022 || self == CourseSaveDataVersion::Pro2020
    }

    /// Whether a rail stores in this format that it is materialized.
    pub open spec fn spec_has_materialized(self) -> bool {
        self == CourseSaveDataVersion::ZiplineAdded2019
    }

    /// Whether courses of this format can be read.
    pub fn is_supported(&self) -> (b: bool)
        ensures
            b == self.spec_is_supported(),
    {
        match self {
            CourseSaveDataVersion::InitialLaunch => false,
            CourseSaveDataVersion::RailRework2018 => false,
            CourseSaveDataVersion::PersistenceRefactor2019 => false,
            _ => true,
        }
    }

    /// Whether a tile of this format stores a power signal mode.
    pub fn has_power_signal_mode(&self) -> (b: bool)
        ensures
            b == self.spec_has_power_signal_mode(),
    {
        match self {
            CourseSaveDataVersion::Power2022 => true,
            CourseSaveDataVersion::LightStones2023 => true,
            _ => false,
        }
    }

    /// Whether a tile of this format stores a light stone colour mode.
    pub fn has_light_stone_color_mode(&self) -> (b: bool)
        ensures
            b == self.spec_has_light_stone_color_mode(),
    {
        match self {
            CourseSaveDataVersion::LightStones2023 => true,
            _ => false,
        }
    }

    /// Whether the end of a rail stores a height in this format.
    pub fn has_exit_local_pos_y(&self) -> (b: bool)
        ensures
            b == self.spec_has_exit_local_pos_y(),
    {
        match self {
            CourseSaveDataVersion::Power2022 => true,
            CourseSaveDataVersion::Pro2020 => true,
            _ => false,
        }
    }

    /// Whether a rail stores in this format that it is materialized.
    pub fn has_materialized(&self) -> (b: bool)
        ensures
            b == self.spec_has_materialized(),
    {
        match self {
            CourseSaveDataVersion::ZiplineAdded2019 => true,
            _ => false,
        }
    }
}

/// Why a buffer of bytes could not be read as a course.
#[derive(Clone, Copy, Debug, PartialEq, Eq, Structural)]
pub enum Error {
    /// The bytes are not a saved course.
    DeserializationFailedError { source: DecodeError },
    /// The bytes are a course of a format that is known but cannot be read.
    UnsupportedGeneration { version: CourseSaveDataVersion },
}

/// What a saved course says about itself.
#[derive(Debug)]
pub struct CourseMetaData {
    /// When the course was created, in milliseconds.
    pub creation_timestamp: u64,
    /// The title that its author gave the course.
    pub title: String,
    pub order_number: i32,
    pub course_kind: CourseKind,
    pub objective_kind: ObjectiveKind,
    pub difficulty: i32,
    pub completed: bool,
}

/// The mathematical value of a [`CourseMetaData`].
pub struct CourseMetaDataView {
    pub creation_timestamp: u64,
    pub title: Seq<char>,
    pub order_number: i32,
    pub course_kind: CourseKind,
    pub objective_kind: ObjectiveKind,
    pub difficulty: i32,
    pub completed: bool,
}

impl View for CourseMetaData {
    type V = CourseMetaDataView;

    open spec fn view(&self) -> CourseMetaDataView {
        CourseMetaDataView {
            creation_timestamp: self.creation_timestamp,
            title: self.title@,
            order_number: self.order_number,
            course_kind: self.course_kind,
            objective_kind: self.objective_kind,
            difficulty: self.difficulty,
            completed: self.completed,
        }
    }
}

impl Clone for CourseMetaData {
    fn clone(&self) -> (copy: CourseMetaData)
        ensures
            copy@ == self@,
    {
        CourseMetaData {
            creation_timestamp: self.creation_timestamp,
            title: self.title.clone(),
            order_number: self.order_number,
            course_kind: self.course_kind,
            objective_kind: self.objective_kind,
            difficulty: self.difficulty,
            completed: self.completed,
        }
    }
}

/// The first twenty bytes of a saved course.
#[derive(Clone, Copy, Debug, PartialEq, Eq, Structural)]
pub struct SaveDataHeader {
    pub guid: u128,
    pub version: CourseSaveDataVersion,
}

/// The contents of a course, in the format that its header names. The three
/// formats from 2020 on store the same items; a tile stores a power signal
/// mode from 2022 on and a light stone colour mode from 2023 on.
#[derive(Debug)]
pub enum Course {
    ZiplineAdded2019(ziplineadded2019::Course),
    Power2022(power2022::Course),
    Pro2020(power2022::Course),
    LightStones2023(power2022::Course),
}

/// The mathematical value of a [`Course`].
pub enum CourseView {
    ZiplineAdded2019(ziplineadded2019::CourseView),
    Power2022(power2022::CourseView),
    Pro2020(power2022::CourseView),
    LightStones2023(power2022::CourseView),
}

impl View for Course {
    type V = CourseView;

    open spec fn view(&self) -> CourseView {
        match self {
            Course::ZiplineAdded2019(course) => CourseView::ZiplineAdded2019(course@),
            Course::Power2022(course) => CourseView::Power2022(course@),
            Course::Pro2020(course) => CourseView::Pro2020(course@),
            Course::LightStones2023(course) => CourseView::LightStones2023(course@),
        }
    }
}

impl CourseView {
    /// What the course says about itself.
    pub open spec fn meta_data(self) -> CourseMetaDataView {
        match self {
            CourseView::ZiplineAdded2019(course) => course.meta_data,
            CourseView::Power2022(course) => course.meta_data,
            CourseView::Pro2020(course) => course.meta_data,
            CourseView::LightStones2023(course) => course.meta_data,
        }
    }

    /// The format in which a course with these contents is saved.
    pub open spec fn version(self) -> CourseSaveDataVersion {
        match self {
            CourseView::ZiplineAdded2019(_) => CourseSaveDataVersion::ZiplineAdded2019,
            CourseView::Power2022(_) => CourseSaveDataVersion::Power2022,
            CourseView::Pro2020(_) => CourseSaveDataVersion::Pro2020,
            CourseView::LightStones2023(_) => CourseSaveDataVersion::LightStones2023,
        }
    }
}

impl Course {
    /// A copy of what the course says about itself.
    pub fn meta_data(&self) -> (meta_data: CourseMetaData)
        ensures
            meta_data@ == self@.meta_data(),
    {
        match self {
            Course::ZiplineAdded2019(course) => course.meta_data.clone(),
            Course::Power2022(course) => course.meta_data.clone(),
            Course::Pro2020(course) => course.meta_data.clone(),
            Course::LightStones2023(course) => course.meta_data.clone(),
        }
    }
}

/// A saved course: its header and its contents.
#[derive(Debug)]
pub struct SavedCourse {
    pub header: SaveDataHeader,
    pub course: Course,
}

/// The mathematical value of a [`SavedCourse`].
pub struct SavedCourseView {
    pub header: SaveDataHeader,
    pub course: CourseView,
}

impl View for SavedCourse {
    type V = SavedCourseView;

    open spec fn view(&self) -> SavedCourseView {
        SavedCourseView { header: self.header, course: self.course@ }
    }
}

} // verus!
