//! From the bytes of a saved course to what is asked about it: the parts
//! that it needs, its row of the sheet, and whether a collection of parts is
//! enough to build it.
use crate::bom::{
    compute_bill_of_materials, spec_bill_of_materials, AggregationError, BillOfMaterials,
    BillOfMaterialsView,
};
use crate::common::CourseCode;
use crate::course::{CourseMetaData, CourseMetaDataView};
use crate::decode::{decode, spec_decode};
use crate::gravisheet::GraviSheetOutput;
use crate::physical::bom::{difference_fits, is_difference, spec_any_missing, spec_parts_of};
use vstd::prelude::*;

verus! {

/// Why a question about a saved course has no answer.
#[derive(Clone, Copy, Debug, PartialEq, Eq, Structural)]
pub enum Failure {
    /// The bytes are not a course that can be read.
    Unreadable(crate::course::Error),
    /// The parts of the course cannot be counted.
    Uncountable(AggregationError),
    /// The elements of the course are not all parts that are sold.
    Unconvertible(crate::physical::bom::Error),
    /// A column of the sheet holds a number that is not a value of `i32`.
    ColumnOverflow,
}

/// What a saved course says about itself and the parts that it needs, as the
/// application names them.
pub open spec fn spec_course_bill(bytes: Seq<u8>) -> Result<
    (CourseMetaDataView, BillOfMaterialsView),
    Failure,
> {
    match spec_decode(bytes) {
        Err(e) => Err(Failure::Unreadable(e)),
        Ok(saved) => match spec_bill_of_materials(saved.course) {
            Err(e) => Err(Failure::Uncountable(e)),
            Ok(bill) => Ok((saved.course.meta_data(), bill)),
        },
    }
}

/// The parts that are sold and that a saved course needs.
pub open spec fn spec_course_parts(bytes: Seq<u8>) -> Result<
    (CourseMetaDataView, Map<u32, i32>),
    Failure,
> {
    match spec_course_bill(bytes) {
        Err(e) => Err(e),
        Ok((meta_data, bill)) => match spec_parts_of(bill) {
            Err(e) => Err(Failure::Unconvertible(e)),
            Ok(parts) => Ok((meta_data, parts)),
        },
    }
}

/// Reads a saved course and counts its parts.
pub fn course_bill(bytes: &[u8]) -> (result: Result<(CourseMetaData, BillOfMaterials), Failure>)
    ensures
        match spec_course_bill(bytes@) {
            Ok((meta_data, bill)) => result matches Ok(read) && read.0@ == meta_data && read.1@
                == bill,
            Err(e) => result matches Err(reason) && reason == e,
        },
{
    let saved = match decode(bytes) {
        Ok(saved) => saved,
        Err(e) => {
            return Err(Failure::Unreadable(e));
        },
    };
    let meta_data = saved.course.meta_data();
    match compute_bill_of_materials(&saved.course) {
        Ok(bill) => Ok((meta_data, bill)),
        Err(e) => Err(Failure::Uncountable(e)),
    }
}

/// The row of the sheet for a saved course: the parts of the course under
/// its title and the code under which it is shared.
pub fn course_sheet(bytes: &[u8], course_code: &CourseCode) -> (result: Result<
    GraviSheetOutput,
    Failure,
>)
    ensures
        match spec_course_bill(bytes@) {
            Err(e) => result matches Err(reason) && reason == e,
            Ok((meta_data, bill)) => if bill.sheet_fits() {
                result matches Ok(sheet) && sheet.holds_parts_of(bill) && sheet.title@
                    == meta_data.title && sheet.course_code@ == course_code@
            } else {
                result matches Err(reason) && reason == Failure::ColumnOverflow
            },
        },
{
    let (meta_data, bill) = course_bill(bytes)?;
    match GraviSheetOutput::from_bom(&bill) {
        Err(_) => Err(Failure::ColumnOverflow),
        Ok(mut sheet) => {
            sheet.title = meta_data.title;
            sheet.course_code = course_code.to_string();
            Ok(sheet)
        },
    }
}

/// Whether the parts `inventory` are enough to build a saved course: what
/// the course says about itself where they are, and `None` where a part is
/// missing.
pub open spec fn spec_buildable_with(inventory: Map<u32, i32>, bytes: Seq<u8>) -> Result<
    Option<CourseMetaDataView>,
    Failure,
> {
    match spec_course_parts(bytes) {
        Err(e) => Err(e),
        Ok((meta_data, parts)) => if !difference_fits(inventory, parts) {
            Err(Failure::Unconvertible(crate::physical::bom::Error::Overflow))
        } else if exists|left: Map<u32, i32>|
            is_difference(left, inventory, parts) && spec_any_missing(left) {
            Ok(None)
        } else {
            Ok(Some(meta_data))
        },
    }
}

/// Any two maps that hold the difference of the same parts count the same
/// parts as missing.
pub proof fn lemma_difference_missing(
    first: Map<u32, i32>,
    second: Map<u32, i32>,
    inventory: Map<u32, i32>,
    parts: Map<u32, i32>,
)
    requires
        is_difference(first, inventory, parts),
        is_difference(second, inventory, parts),
    ensures
        spec_any_missing(first) == spec_any_missing(second),
{
    assert forall|index: u32| #![trigger first.contains_key(index)]
        first.contains_key(index) == second.contains_key(index) && (first.contains_key(index)
            ==> first[index] == second[index]) by {
        assert(crate::bom::lookup(first, index) == crate::bom::lookup(second, index));
    }
    if spec_any_missing(first) {
        let index = choose|index: u32|
            #![trigger first.contains_key(index)]
            index < crate::physical::element::ELEMENT_COUNT && first.contains_key(index)
                && first[index] < 0;
        assert(second.contains_key(index));
    }
    if spec_any_missing(second) {
        let index = choose|index: u32|
            #![trigger second.contains_key(index)]
            index < crate::physical::element::ELEMENT_COUNT && second.contains_key(index)
                && second[index] < 0;
        assert(first.contains_key(index));
    }
}

/// Says whether the parts `inventory` are enough to build the saved course
/// in `bytes`.
pub fn buildable_with(inventory: &crate::physical::bom::BillOfMaterials, bytes: &[u8]) -> (result:
    Result<Option<CourseMetaData>, Failure>)
    ensures
        match spec_buildable_with(inventory@, bytes@) {
            Ok(Some(meta_data)) => result matches Ok(Some(read)) && read@ == meta_data,
            Ok(None) => result matches Ok(None),
            Err(e) => result matches Err(reason) && reason == e,
        },
{
    let (meta_data, bill) = course_bill(bytes)?;
    let parts = match crate::physical::bom::BillOfMaterials::try_from_bill_of_materials(&bill) {
        Ok(parts) => parts,
        Err(e) => {
            return Err(Failure::Unconvertible(e));
        },
    };
    let left = match inventory.subtract(&parts) {
        Ok(left) => left,
        Err(e) => {
            return Err(Failure::Unconvertible(e));
        },
    };
    let missing = left.any_missing();
    proof {
        assert forall|other: Map<u32, i32>| is_difference(other, inventory@, parts@) implies
            spec_any_missing(other) == missing by {
            lemma_difference_missing(other, left@, inventory@, parts@);
        }
    }
    if missing {
        Ok(None)
    } else {
        Ok(Some(meta_data))
    }
}

} // verus!
