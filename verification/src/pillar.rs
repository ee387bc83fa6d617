//! Pillars, which hold one layer above another.
use crate::hex::HexVector;
use vstd::prelude::*;

verus! {

/// A pillar between a cell of a lower layer and a cell of an upper layer.
#[derive(Clone, Copy, Debug, PartialEq, Eq, Structural)]
pub struct PillarConstructionData {
    pub lower_layer_id: i32,
    pub lower_cell_local_position: HexVector,
    pub upper_layer_id: i32,
    pub upper_cell_local_position: HexVector,
}

} // verus!
