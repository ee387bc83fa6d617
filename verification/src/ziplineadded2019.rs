//! The contents of a course in the format of 2019, in which a cell lists
//! the kinds of its tiles and ropes connect tiles.
use crate::binary32::Binary32;
use crate::bytes::{available, le_u32, read_as, read_u32, DecodeError, Parsed};
use crate::course::{CourseElementGeneration, CourseMetaData, CourseMetaDataView};
use crate::hex::HexVector;
use crate::layer::{LayerKind, TileKind};
use crate::pillar::PillarConstructionData;
use crate::rail::RailConstructionData;
use vstd::prelude::*;

verus! {

/// The kinds of ropes.
#[derive(Clone, Copy, Debug, PartialEq, Eq, Structural, Hash)]
pub enum RopeKind {
    Nothing,
    Straight,
    Unnamed,
}

impl RopeKind {
    /// The number that stands for this kind of rope in a saved course.
    pub open spec fn spec_code(self) -> u32 {
        match self {
            RopeKind::Nothing => 0,
            RopeKind::Straight => 1,
            RopeKind::Unnamed => 3,
        }
    }

    /// The kind of rope that a number stands for, where it stands for one.
    pub open spec fn spec_from_code(code: u32) -> Option<RopeKind> {
        if code == 0 {
            Some(RopeKind::Nothing)
        } else if code == 1 {
            Some(RopeKind::Straight)
        } else if code == 3 {
            Some(RopeKind::Unnamed)
        } else {
            None
        }
    }

    /// The number that stands for this kind of rope in a saved course.
    pub fn code(&self) -> (code: u32)
        ensures
            code == self.spec_code(),
            RopeKind::spec_from_code(code) == Some(*self),
    {
        match self {
            RopeKind::Nothing => 0,
            RopeKind::Straight => 1,
            RopeKind::Unnamed => 3,
        }
    }

    /// The kind of rope that `code` stands for, or `None` where it stands for none.
    pub fn from_code(code: u32) -> (kind: Option<RopeKind>)
        ensures
            kind == RopeKind::spec_from_code(code),
            kind matches Some(k) ==> k.spec_code() == code,
    {
        match code {
            0 => Some(RopeKind::Nothing),
            1 => Some(RopeKind::Straight),
            3 => Some(RopeKind::Unnamed),
            _ => None,
        }
    }

    /// Every kind of rope has a code of its own, from which it is found again.
    pub proof fn lemma_code_injective(first: RopeKind, second: RopeKind)
        ensures
            RopeKind::spec_from_code(first.spec_code()) == Some(first),
            first.spec_code() == second.spec_code() ==> first == second,
    {
        assert(RopeKind::spec_from_code(second.spec_code()) == Some(second));
    }

    /// What reading a kind of rope at `pos` gives: a number of four bytes that stands
    /// for one.
    pub open spec fn spec_parse(bytes: Seq<u8>, pos: nat) -> Parsed<RopeKind> {
        if !available(bytes, pos, 4) {
            Err(DecodeError::Truncated)
        } else {
            match RopeKind::spec_from_code(le_u32(bytes, pos)) {
                Some(kind) => Ok((kind, 4)),
                None => Err(DecodeError::InvalidDiscriminant),
            }
        }
    }

    /// Reads the kind of rope at `pos`.
    pub fn parse(bytes: &[u8], pos: usize) -> (result: Result<(RopeKind, usize), DecodeError>)
        ensures
            read_as(result, RopeKind::spec_parse(bytes@, pos as nat), bytes@, pos),
    {
        let (code, next) = read_u32(bytes, pos)?;
        match RopeKind::from_code(code) {
            Some(kind) => Ok((kind, next)),
            None => Err(DecodeError::InvalidDiscriminant),
        }
    }
}

/// A cell of a layer and the kinds of the tiles in it.
#[derive(Debug)]
pub struct CellConstructionData {
    pub hex_rotation: i32,
    pub local_hex_position: HexVector,
    pub tile_kinds: Vec<TileKind>,
}

/// The mathematical value of a [`CellConstructionData`].
pub struct CellConstructionDataView {
    pub hex_rotation: i32,
    pub local_hex_position: HexVector,
    pub tile_kinds: Seq<TileKind>,
}

impl View for CellConstructionData {
    type V = CellConstructionDataView;

    open spec fn view(&self) -> CellConstructionDataView {
        CellConstructionDataView {
            hex_rotation: self.hex_rotation,
            local_hex_position: self.local_hex_position,
            tile_kinds: self.tile_kinds@,
        }
    }
}

/// A layer of a course with its cells.
#[derive(Debug)]
pub struct LayerConstructionData {
    pub layer_id: i32,
    pub layer_kind: LayerKind,
    /// The height of the lower side of the layer, a binary32 number of
    /// length units of which a small stacker measures 9/25.
    pub layer_height: Binary32,
    pub hex_vector: HexVector,
    pub cell_construction_data: Vec<CellConstructionData>,
}

/// The mathematical value of a [`LayerConstructionData`].
pub struct LayerConstructionDataView {
    pub layer_id: i32,
    pub layer_kind: LayerKind,
    pub layer_height: Binary32,
    pub hex_vector: HexVector,
    pub cell_construction_data: Seq<CellConstructionDataView>,
}

impl View for LayerConstructionData {
    type V = LayerConstructionDataView;

    open spec fn view(&self) -> LayerConstructionDataView {
        LayerConstructionDataView {
            layer_id: self.layer_id,
            layer_kind: self.layer_kind,
            layer_height: self.layer_height,
            hex_vector: self.hex_vector,
            cell_construction_data: cell_views(self.cell_construction_data@),
        }
    }
}

/// The mathematical values of cells.
pub open spec fn cell_views(cells: Seq<CellConstructionData>) -> Seq<CellConstructionDataView> {
    cells.map_values(|c: CellConstructionData| c@)
}

/// The mathematical values of layers.
pub open spec fn layer_views(layers: Seq<LayerConstructionData>) -> Seq<
    LayerConstructionDataView,
> {
    layers.map_values(|l: LayerConstructionData| l@)
}

/// A rope between two tiles, each given by the index of its layer and its
/// position on that layer.
#[derive(Clone, Copy, Debug, PartialEq, Eq, Structural)]
pub struct RopeConstructionData {
    pub start_tile_layer_index: u32,
    pub start_tile_local_hex_pos: HexVector,
    pub end_tile_layer_index: u32,
    pub end_tile_local_hex_pos: HexVector,
    pub rope_kind: RopeKind,
}

/// The contents of a course.
#[derive(Debug)]
pub struct Course {
    pub meta_data: CourseMetaData,
    pub layer_construction_data: Vec<LayerConstructionData>,
    pub rail_construction_data: Vec<RailConstructionData>,
    pub pillar_construction_data: Vec<PillarConstructionData>,
    pub rope_construction_data: Vec<RopeConstructionData>,
    pub generation: CourseElementGeneration,
}

/// The mathematical value of a [`Course`].
pub struct CourseView {
    pub meta_data: CourseMetaDataView,
    pub layer_construction_data: Seq<LayerConstructionDataView>,
    pub rail_construction_data: Seq<RailConstructionData>,
    pub pillar_construction_data: Seq<PillarConstructionData>,
    pub rope_construction_data: Seq<RopeConstructionData>,
    pub generation: CourseElementGeneration,
}

impl View for Course {
    type V = CourseView;

    open spec fn view(&self) -> CourseView {
        CourseView {
            meta_data: self.meta_data@,
            layer_construction_data: layer_views(self.layer_construction_data@),
            rail_construction_data: self.rail_construction_data@,
            pillar_construction_data: self.pillar_construction_data@,
            rope_construction_data: self.rope_construction_data@,
            generation: self.generation,
        }
    }
}

} // verus!
