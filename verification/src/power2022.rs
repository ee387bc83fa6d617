//! The contents of a course in the formats from 2020 on, in which each cell
//! holds a tower of tiles.
use crate::course::{CourseElementGeneration, CourseMetaData, CourseMetaDataView};
use crate::layer::{layer_views, LayerConstructionData, LayerConstructionDataView};
use crate::pillar::PillarConstructionData;
use crate::rail::RailConstructionData;
use crate::wall::{wall_views, WallConstructionData, WallConstructionDataView};
use vstd::prelude::*;

verus! {

/// The contents of a course.
#[derive(Debug)]
pub struct Course {
    pub meta_data: CourseMetaData,
    pub layer_construction_data: Vec<LayerConstructionData>,
    pub rail_construction_data: Vec<RailConstructionData>,
    pub pillar_construction_data: Vec<PillarConstructionData>,
    pub generation: CourseElementGeneration,
    pub wall_construction_data: Vec<WallConstructionData>,
}

/// The mathematical value of a [`Course`].
pub struct CourseView {
    pub meta_data: CourseMetaDataView,
    pub layer_construction_data: Seq<LayerConstructionDataView>,
    pub rail_construction_data: Seq<RailConstructionData>,
    pub pillar_construction_data: Seq<PillarConstructionData>,
    pub generation: CourseElementGeneration,
    pub wall_construction_data: Seq<WallConstructionDataView>,
}

impl View for Course {
    type V = CourseView;

    open spec fn view(&self) -> CourseView {
        CourseView {
            meta_data: self.meta_data@,
            layer_construction_data: layer_views(self.layer_construction_data@),
            rail_construction_data: self.rail_construction_data@,
            pillar_construction_data: self.pillar_construction_data@,
            generation: self.generation,
            wall_construction_data: wall_views(self.wall_construction_data@),
        }
    }
}

} // verus!
