//! Reads courses saved by the companion application of a marble run
//! construction toy and counts the parts that are needed to build them.
use vstd::prelude::*;

pub mod binary32;
pub mod bom;
pub mod bytes;
pub mod cli;
pub mod common;
pub mod course;
pub mod decode;
pub mod download;
pub mod gravisheet;
pub mod hex;
pub mod layer;
pub mod parts;
pub mod physical;
pub mod pillar;
pub mod power2022;
pub mod processors;
pub mod rail;
pub mod service;
pub mod walker;
pub mod wall;
pub mod ziplineadded2019;

verus! {

} // verus!
