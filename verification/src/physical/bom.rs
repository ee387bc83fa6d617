//! What a course needs, and what a collection holds, of the parts that are
//! sold.
//!
//! The parts are counted by their place in the list of all parts. The kinds
//! of elements of a course are taken in the order of their codes, and the
//! first that cannot be counted ends the count.
use crate::bom::{counted, lookup, spec_add_count, BillOfMaterialsView};
use crate::hex::fits_i32;
use crate::layer::{LayerKind, TileKind};
use crate::physical::element::{Element, ELEMENT_COUNT};
use crate::rail::RailKind;
use crate::wall::WallKind;
use std::collections::HashMap;
use vstd::prelude::*;

verus! {

broadcast use vstd::std_specs::hash::group_hash_axioms;

/// Why parts could not be counted.
#[derive(Clone, Copy, Debug, PartialEq, Eq, Structural)]
pub enum Error {
    /// A collection names a set that is not known. The sets of a collection
    /// are counted from zero.
    SetUnknown { position: usize },
    /// A layer of this kind is no part that is sold.
    UnknownLayerKind { layer_kind: LayerKind },
    /// A rail of this kind is no part that is sold.
    UnknownRailKind { rail_kind: RailKind },
    /// A number of parts is not a value of `i32`.
    Overflow,
}

/// What converting elements gives: the parts counted so far, or the reason
/// why they cannot be counted.
pub type Converted = Result<Map<u32, i32>, Error>;

/// The number of codes that can stand for a kind of layer.
pub const LAYER_CODES: u32 = 5;

/// The number of codes that can stand for a kind of tile.
pub const TILE_CODES: u32 = 86;

/// The number of codes that can stand for a kind of rail.
pub const RAIL_CODES: u32 = 17;

/// The number of lengths that a wall can have, counted from zero.
pub const WALL_CODES: u32 = 4;

/// `elements` with the count of `element` raised by `amount`.
pub open spec fn spec_add_element(
    elements: Map<u32, i32>,
    element: Element,
    amount: int,
) -> Converted {
    match spec_add_count(elements, element.spec_index(), amount) {
        Some(raised) => Ok(raised),
        None => Err(Error::Overflow),
    }
}

/// `elements` with the count of each of the first `n` of `parts` raised by
/// `amount`.
pub open spec fn spec_add_parts(
    elements: Map<u32, i32>,
    parts: Seq<Element>,
    n: nat,
    amount: int,
) -> Converted
    decreases n,
{
    if n == 0 || n > parts.len() {
        Ok(elements)
    } else {
        match spec_add_parts(elements, parts, (n - 1) as nat, amount) {
            Err(e) => Err(e),
            Ok(raised) => spec_add_element(raised, parts[n - 1], amount),
        }
    }
}

/// `elements` after the layers with the code `code` are counted, where a
/// course has counted layers of that code.
pub open spec fn spec_convert_layer(
    elements: Map<u32, i32>,
    layers: Map<u32, i32>,
    code: u32,
) -> Converted {
    match (lookup(layers, code), LayerKind::spec_from_code(code)) {
        (Some(count), Some(layer_kind)) => match Element::spec_for_layerkind(layer_kind) {
            Err(_) => Err(Error::UnknownLayerKind { layer_kind }),
            Ok(element) => spec_add_element(elements, element, count as int),
        },
        _ => Ok(elements),
    }
}

/// `elements` after the walls of the length `code` are counted.
pub open spec fn spec_convert_wall(
    elements: Map<u32, i32>,
    walls: Map<u32, i32>,
    code: u32,
) -> Converted {
    match (lookup(walls, code), WallKind::spec_straight_of_length(code as int)) {
        (Some(count), Some(wall_kind)) => spec_add_element(
            elements,
            Element::spec_for_wallkind(wall_kind),
            count as int,
        ),
        _ => Ok(elements),
    }
}

/// `elements` after the rails with the code `code` are counted.
pub open spec fn spec_convert_rail(
    elements: Map<u32, i32>,
    rails: Map<u32, i32>,
    code: u32,
) -> Converted {
    match (lookup(rails, code), RailKind::spec_from_code(code)) {
        (Some(count), Some(rail_kind)) => match Element::spec_for_railkind(rail_kind) {
            Err(_) => Err(Error::UnknownRailKind { rail_kind }),
            Ok(element) => spec_add_element(elements, element, count as int),
        },
        _ => Ok(elements),
    }
}

/// `elements` after the tiles with the code `code` are counted: each part
/// that such a tile is built from is counted once for every tile.
pub open spec fn spec_convert_tile(
    elements: Map<u32, i32>,
    tiles: Map<u32, i32>,
    code: u32,
) -> Converted {
    match (lookup(tiles, code), TileKind::spec_from_code(code)) {
        (Some(count), Some(tile_kind)) => spec_add_parts(
            elements,
            Element::spec_elements_for_tilekind(tile_kind),
            Element::spec_elements_for_tilekind(tile_kind).len(),
            count as int,
        ),
        _ => Ok(elements),
    }
}

/// `elements` after the layers with a code below `n` are counted.
pub open spec fn spec_convert_layers(
    elements: Map<u32, i32>,
    layers: Map<u32, i32>,
    n: nat,
) -> Converted
    decreases n,
{
    if n == 0 {
        Ok(elements)
    } else {
        match spec_convert_layers(elements, layers, (n - 1) as nat) {
            Err(e) => Err(e),
            Ok(converted) => spec_convert_layer(converted, layers, (n - 1) as u32),
        }
    }
}

/// `elements` after the walls of a length below `n` are counted.
pub open spec fn spec_convert_walls(
    elements: Map<u32, i32>,
    walls: Map<u32, i32>,
    n: nat,
) -> Converted
    decreases n,
{
    if n == 0 {
        Ok(elements)
    } else {
        match spec_convert_walls(elements, walls, (n - 1) as nat) {
            Err(e) => Err(e),
            Ok(converted) => spec_convert_wall(converted, walls, (n - 1) as u32),
        }
    }
}

/// `elements` after the rails with a code below `n` are counted.
pub open spec fn spec_convert_rails(
    elements: Map<u32, i32>,
    rails: Map<u32, i32>,
    n: nat,
) -> Converted
    decreases n,
{
    if n == 0 {
        Ok(elements)
    } else {
        match spec_convert_rails(elements, rails, (n - 1) as nat) {
            Err(e) => Err(e),
            Ok(converted) => spec_convert_rail(converted, rails, (n - 1) as u32),
        }
    }
}

/// `elements` after the tiles with a code below `n` are counted.
pub open spec fn spec_convert_tiles(
    elements: Map<u32, i32>,
    tiles: Map<u32, i32>,
    n: nat,
) -> Converted
    decreases n,
{
    if n == 0 {
        Ok(elements)
    } else {
        match spec_convert_tiles(elements, tiles, (n - 1) as nat) {
            Err(e) => Err(e),
            Ok(converted) => spec_convert_tile(converted, tiles, (n - 1) as u32),
        }
    }
}

/// The parts that a course with the bill of materials `bom` needs: those of
/// its layers, then of its walls, then of its rails other than straight
/// ones, then of its tiles. Balconies and straight rails are not counted.
pub open spec fn spec_parts_of(bom: BillOfMaterialsView) -> Converted {
    match spec_convert_layers(Map::empty(), bom.layers, 5) {
        Err(e) => Err(e),
        Ok(with_layers) => match spec_convert_walls(with_layers, bom.walls, 4) {
            Err(e) => Err(e),
            Ok(with_walls) => match spec_convert_rails(with_walls, bom.rails, 17) {
                Err(e) => Err(e),
                Ok(with_rails) => spec_convert_tiles(with_rails, bom.tiles, 86),
            },
        },
    }
}

/// Once a part cannot be counted, neither can the parts after it.
pub proof fn lemma_add_parts_fails(
    elements: Map<u32, i32>,
    parts: Seq<Element>,
    n: nat,
    m: nat,
    amount: int,
)
    requires
        n <= m <= parts.len(),
        spec_add_parts(elements, parts, n, amount) is Err,
    ensures
        spec_add_parts(elements, parts, m, amount) == spec_add_parts(elements, parts, n, amount),
    decreases m,
{
    if n < m {
        lemma_add_parts_fails(elements, parts, n, (m - 1) as nat, amount);
    }
}

/// Once the layers of a kind cannot be counted, neither can those after
/// them.
pub proof fn lemma_convert_layers_fails(
    elements: Map<u32, i32>,
    layers: Map<u32, i32>,
    n: nat,
    m: nat,
)
    requires
        n <= m,
        spec_convert_layers(elements, layers, n) is Err,
    ensures
        spec_convert_layers(elements, layers, m) == spec_convert_layers(elements, layers, n),
    decreases m,
{
    if n < m {
        lemma_convert_layers_fails(elements, layers, n, (m - 1) as nat);
    }
}

/// Once the walls of a length cannot be counted, neither can those after
/// them.
pub proof fn lemma_convert_walls_fails(
    elements: Map<u32, i32>,
    walls: Map<u32, i32>,
    n: nat,
    m: nat,
)
    requires
        n <= m,
        spec_convert_walls(elements, walls, n) is Err,
    ensures
        spec_convert_walls(elements, walls, m) == spec_convert_walls(elements, walls, n),
    decreases m,
{
    if n < m {
        lemma_convert_walls_fails(elements, walls, n, (m - 1) as nat);
    }
}

/// Once the rails of a kind cannot be counted, neither can those after them.
pub proof fn lemma_convert_rails_fails(
    elements: Map<u32, i32>,
    rails: Map<u32, i32>,
    n: nat,
    m: nat,
)
    requires
        n <= m,
        spec_convert_rails(elements, rails, n) is Err,
    ensures
        spec_convert_rails(elements, rails, m) == spec_convert_rails(elements, rails, n),
    decreases m,
{
    if n < m {
        lemma_convert_rails_fails(elements, rails, n, (m - 1) as nat);
    }
}

/// Once the tiles of a kind cannot be counted, neither can those after them.
pub proof fn lemma_convert_tiles_fails(
    elements: Map<u32, i32>,
    tiles: Map<u32, i32>,
    n: nat,
    m: nat,
)
    requires
        n <= m,
        spec_convert_tiles(elements, tiles, n) is Err,
    ensures
        spec_convert_tiles(elements, tiles, m) == spec_convert_tiles(elements, tiles, n),
    decreases m,
{
    if n < m {
        lemma_convert_tiles_fails(elements, tiles, n, (m - 1) as nat);
    }
}

/// Whether an executable step has done what `converted` says.
pub open spec fn stepped_as(
    result: Result<(), Error>,
    after: Map<u32, i32>,
    converted: Converted,
) -> bool {
    match converted {
        Ok(elements) => result is Ok && after == elements,
        Err(e) => result == Err::<(), Error>(e),
    }
}

/// Raises the count of `element` by `amount`.
pub fn add_element(elements: &mut HashMap<u32, i32>, element: Element, amount: i32) -> (result:
    Result<(), Error>)
    ensures
        stepped_as(result, final(elements)@, spec_add_element(old(elements)@, element,
            amount as int)),
{
    match crate::bom::add_count(elements, element.index(), amount) {
        Ok(()) => Ok(()),
        Err(_) => Err(Error::Overflow),
    }
}

/// Raises the count of each of `parts` by `amount`.
pub fn add_parts(elements: &mut HashMap<u32, i32>, parts: &Vec<Element>, amount: i32) -> (result:
    Result<(), Error>)
    ensures
        stepped_as(
            result,
            final(elements)@,
            spec_add_parts(old(elements)@, parts@, parts@.len(), amount as int),
        ),
{
    let ghost start = elements@;
    let mut i: usize = 0;
    while i < parts.len()
        invariant
            i <= parts.len(),
            start == old(elements)@,
            spec_add_parts(start, parts@, i as nat, amount as int) == Ok::<Map<u32, i32>, Error>(
                elements@,
            ),
        decreases parts.len() - i,
    {
        match add_element(elements, parts[i], amount) {
            Ok(()) => {},
            Err(e) => {
                proof {
                    lemma_add_parts_fails(
                        start,
                        parts@,
                        (i + 1) as nat,
                        parts@.len(),
                        amount as int,
                    );
                }
                return Err(e);
            },
        }
        i += 1;
    }
    Ok(())
}

/// Counts the layers with the code `code`.
fn convert_layer(
    elements: &mut HashMap<u32, i32>,
    layers: &HashMap<u32, i32>,
    code: u32,
) -> (result:
    Result<(), Error>)
    ensures
        stepped_as(result, final(elements)@, spec_convert_layer(old(elements)@, layers@, code)),
{
    match (crate::bom::count_of(layers, code), LayerKind::from_code(code)) {
        (Some(count), Some(layer_kind)) => match Element::element_for_layerkind(&layer_kind) {
            Err(_) => Err(Error::UnknownLayerKind { layer_kind }),
            Ok(element) => add_element(elements, element, count),
        },
        _ => Ok(()),
    }
}

/// Counts the walls of the length `code`.
fn convert_wall(elements: &mut HashMap<u32, i32>, walls: &HashMap<u32, i32>, code: u32) -> (result:
    Result<(), Error>)
    ensures
        stepped_as(result, final(elements)@, spec_convert_wall(old(elements)@, walls@, code)),
{
    match (crate::bom::count_of(walls, code), WallKind::try_straight_of_length(code as i64)) {
        (Some(count), Some(wall_kind)) => add_element(
            elements,
            Element::element_for_wallkind(&wall_kind),
            count,
        ),
        _ => Ok(()),
    }
}

/// Counts the rails with the code `code`.
fn convert_rail(elements: &mut HashMap<u32, i32>, rails: &HashMap<u32, i32>, code: u32) -> (result:
    Result<(), Error>)
    ensures
        stepped_as(result, final(elements)@, spec_convert_rail(old(elements)@, rails@, code)),
{
    match (crate::bom::count_of(rails, code), RailKind::from_code(code)) {
        (Some(count), Some(rail_kind)) => match Element::element_for_railkind(&rail_kind) {
            Err(_) => Err(Error::UnknownRailKind { rail_kind }),
            Ok(element) => add_element(elements, element, count),
        },
        _ => Ok(()),
    }
}

/// Counts the tiles with the code `code`.
fn convert_tile(elements: &mut HashMap<u32, i32>, tiles: &HashMap<u32, i32>, code: u32) -> (result:
    Result<(), Error>)
    ensures
        stepped_as(result, final(elements)@, spec_convert_tile(old(elements)@, tiles@, code)),
{
    match (crate::bom::count_of(tiles, code), TileKind::from_code(code)) {
        (Some(count), Some(tile_kind)) => {
            let parts = Element::elements_for_tilekind(&tile_kind);
            add_parts(elements, &parts, count)
        },
        _ => Ok(()),
    }
}

/// Counts the layers of every kind.
fn convert_layers(elements: &mut HashMap<u32, i32>, layers: &HashMap<u32, i32>) -> (result: Result<
    (),
    Error,
>)
    ensures
        stepped_as(result, final(elements)@, spec_convert_layers(old(elements)@, layers@, 5)),
{
    let ghost start = elements@;
    let mut code: u32 = 0;
    while code < LAYER_CODES
        invariant
            code <= LAYER_CODES,
            start == old(elements)@,
            spec_convert_layers(start, layers@, code as nat) == Ok::<Map<u32, i32>, Error>(
                elements@,
            ),
        decreases LAYER_CODES - code,
    {
        match convert_layer(elements, layers, code) {
            Ok(()) => {},
            Err(e) => {
                proof {
                    lemma_convert_layers_fails(start, layers@, (code + 1) as nat, 5);
                }
                return Err(e);
            },
        }
        code += 1;
    }
    Ok(())
}

/// Counts the walls of every length.
fn convert_walls(elements: &mut HashMap<u32, i32>, walls: &HashMap<u32, i32>) -> (result: Result<
    (),
    Error,
>)
    ensures
        stepped_as(result, final(elements)@, spec_convert_walls(old(elements)@, walls@, 4)),
{
    let ghost start = elements@;
    let mut code: u32 = 0;
    while code < WALL_CODES
        invariant
            code <= WALL_CODES,
            start == old(elements)@,
            spec_convert_walls(start, walls@, code as nat) == Ok::<Map<u32, i32>, Error>(
                elements@,
            ),
        decreases WALL_CODES - code,
    {
        match convert_wall(elements, walls, code) {
            Ok(()) => {},
            Err(e) => {
                proof {
                    lemma_convert_walls_fails(start, walls@, (code + 1) as nat, 4);
                }
                return Err(e);
            },
        }
        code += 1;
    }
    Ok(())
}

/// Counts the rails of every kind.
fn convert_rails(elements: &mut HashMap<u32, i32>, rails: &HashMap<u32, i32>) -> (result: Result<
    (),
    Error,
>)
    ensures
        stepped_as(result, final(elements)@, spec_convert_rails(old(elements)@, rails@, 17)),
{
    let ghost start = elements@;
    let mut code: u32 = 0;
    while code < RAIL_CODES
        invariant
            code <= RAIL_CODES,
            start == old(elements)@,
            spec_convert_rails(start, rails@, code as nat) == Ok::<Map<u32, i32>, Error>(
                elements@,
            ),
        decreases RAIL_CODES - code,
    {
        match convert_rail(elements, rails, code) {
            Ok(()) => {},
            Err(e) => {
                proof {
                    lemma_convert_rails_fails(start, rails@, (code + 1) as nat, 17);
                }
                return Err(e);
            },
        }
        code += 1;
    }
    Ok(())
}

/// Counts the tiles of every kind.
fn convert_tiles(elements: &mut HashMap<u32, i32>, tiles: &HashMap<u32, i32>) -> (result: Result<
    (),
    Error,
>)
    ensures
        stepped_as(result, final(elements)@, spec_convert_tiles(old(elements)@, tiles@, 86)),
{
    let ghost start = elements@;
    let mut code: u32 = 0;
    while code < TILE_CODES
        invariant
            code <= TILE_CODES,
            start == old(elements)@,
            spec_convert_tiles(start, tiles@, code as nat) == Ok::<Map<u32, i32>, Error>(
                elements@,
            ),
        decreases TILE_CODES - code,
    {
        match convert_tile(elements, tiles, code) {
            Ok(()) => {},
            Err(e) => {
                proof {
                    lemma_convert_tiles_fails(start, tiles@, (code + 1) as nat, 86);
                }
                return Err(e);
            },
        }
        code += 1;
    }
    Ok(())
}

/// Numbers of parts that are sold: what a course needs, what a collection
/// holds, or the difference of the two.
#[derive(Debug)]
pub struct BillOfMaterials {
    /// The number of parts, by the place of the part in the list of all
    /// parts.
    pub elements: HashMap<u32, i32>,
}

impl View for BillOfMaterials {
    type V = Map<u32, i32>;

    open spec fn view(&self) -> Map<u32, i32> {
        self.elements@
    }
}

impl Clone for BillOfMaterials {
    fn clone(&self) -> (copy: BillOfMaterials)
        ensures
            copy@ == self@,
    {
        BillOfMaterials { elements: self.elements.clone() }
    }
}

/// The number of `element` in `elements`, and zero where it holds none.
pub open spec fn spec_count_of(elements: Map<u32, i32>, element: Element) -> int {
    counted(elements, element.spec_index())
}

/// Whether `difference` holds for every part what `elements` holds less what
/// `other` holds: a part that `other` does not count keeps its count, or
/// stays without one.
pub open spec fn is_difference(
    difference: Map<u32, i32>,
    elements: Map<u32, i32>,
    other: Map<u32, i32>,
) -> bool {
    forall|index: u32|
        #![trigger lookup(difference, index)]
        lookup(difference, index) == if index < ELEMENT_COUNT && other.contains_key(index) {
            Some((counted(elements, index) - other[index]) as i32)
        } else {
            lookup(elements, index)
        }
}

/// Whether the difference of `elements` and `other` holds for every part a
/// value of `i32`.
pub open spec fn difference_fits(elements: Map<u32, i32>, other: Map<u32, i32>) -> bool {
    forall|index: u32|
        #![trigger other.contains_key(index)]
        index < ELEMENT_COUNT && other.contains_key(index) ==> fits_i32(
            counted(elements, index) - other[index],
        )
}

/// Whether some part is counted with a negative number.
pub open spec fn spec_any_missing(elements: Map<u32, i32>) -> bool {
    exists|index: u32|
        #![trigger elements.contains_key(index)]
        index < ELEMENT_COUNT && elements.contains_key(index) && elements[index] < 0
}

impl BillOfMaterials {
    /// The parts that a course with the bill of materials `bom` needs.
    pub fn try_from_bill_of_materials(bom: &crate::bom::BillOfMaterials) -> (result: Result<
        BillOfMaterials,
        Error,
    >)
        ensures
            match spec_parts_of(bom@) {
                Ok(elements) => result matches Ok(parts) && parts@ == elements,
                Err(e) => result matches Err(reason) && reason == e,
            },
    {
        let mut elements: HashMap<u32, i32> = HashMap::new();
        convert_layers(&mut elements, &bom.layers)?;
        convert_walls(&mut elements, &bom.walls)?;
        convert_rails(&mut elements, &bom.rails)?;
        convert_tiles(&mut elements, &bom.tiles)?;
        Ok(BillOfMaterials { elements })
    }

    /// The number of `element`, and zero where there is none.
    pub fn count_of(&self, element: Element) -> (count: i32)
        ensures
            count == spec_count_of(self@, element),
    {
        match crate::bom::count_of(&self.elements, element.index()) {
            Some(count) => count,
            None => 0,
        }
    }

    /// What is left of these parts when those of `other` are taken away. A
    /// part of which `other` needs more than there is gets a negative
    /// count. Fails where a count would not be a value of `i32`.
    pub fn subtract(&self, other: &BillOfMaterials) -> (result: Result<BillOfMaterials, Error>)
        ensures
            result is Ok <==> difference_fits(self@, other@),
            result matches Ok(difference) ==> is_difference(difference@, self@, other@),
            result matches Err(e) ==> e == Error::Overflow,
    {
        let mut inventory = self.clone();
        let mut index: u32 = 0;
        while index < ELEMENT_COUNT
            invariant
                index <= ELEMENT_COUNT,
                forall|i: u32|
                    #![trigger other@.contains_key(i)]
                    i < index && other@.contains_key(i) ==> fits_i32(
                        counted(self@, i) - other@[i],
                    ),
                forall|i: u32|
                    #![trigger lookup(inventory@, i)]
                    lookup(inventory@, i) == if i < index && other@.contains_key(i) {
                        Some((counted(self@, i) - other@[i]) as i32)
                    } else {
                        lookup(self@, i)
                    },
            decreases ELEMENT_COUNT - index,
        {
            match crate::bom::count_of(&other.elements, index) {
                None => {},
                Some(element_count) => {
                    let current: i32 = match crate::bom::count_of(&inventory.elements, index) {
                        Some(count) => count,
                        None => 0,
                    };
                    assert(lookup(inventory@, index) == lookup(self@, index));
                    let left: i64 = current as i64 - element_count as i64;
                    if left < i32::MIN as i64 || left > i32::MAX as i64 {
                        return Err(Error::Overflow);
                    }
                    let ghost before = inventory@;
                    inventory.elements.insert(index, left as i32);
                    assert forall|i: u32| #![trigger lookup(inventory@, i)]
                        lookup(inventory@, i) == if i < index + 1 && other@.contains_key(i) {
                            Some((counted(self@, i) - other@[i]) as i32)
                        } else {
                            lookup(self@, i)
                        } by {
                        assert(lookup(before, i) == if i < index && other@.contains_key(i) {
                            Some((counted(self@, i) - other@[i]) as i32)
                        } else {
                            lookup(self@, i)
                        });
                    }
                },
            }
            index += 1;
        }
        Ok(inventory)
    }

    /// Whether some part is counted with a negative number: after
    /// [`BillOfMaterials::subtract`], whether more of a part was taken away
    /// than there was.
    pub fn any_missing(&self) -> (missing: bool)
        ensures
            missing == spec_any_missing(self@),
    {
        let mut index: u32 = 0;
        while index < ELEMENT_COUNT
            invariant
                index <= ELEMENT_COUNT,
                forall|i: u32|
                    #![trigger self@.contains_key(i)]
                    i < index && self@.contains_key(i) ==> self@[i] >= 0,
            decreases ELEMENT_COUNT - index,
        {
            match crate::bom::count_of(&self.elements, index) {
                Some(element_count) => {
                    if element_count < 0 {
                        return true;
                    }
                },
                None => {},
            }
            index += 1;
        }
        false
    }
}

} // verus!
