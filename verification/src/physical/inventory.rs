//! A collection of parts: the sets that someone owns, and the parts that they
//! own beside them.
use crate::bom::{lookup, spec_add_count};
use crate::physical::bom::{BillOfMaterials, Converted, Error};
use crate::physical::element::ELEMENT_COUNT;
use crate::physical::set::{spec_find, ProductSetView, SetRepo};
use std::collections::HashMap;
use vstd::prelude::*;

verus! {

broadcast use vstd::std_specs::hash::group_hash_axioms;

/// A collection of parts.
#[derive(Debug)]
pub struct Inventory {
    /// The identifiers of the sets in the collection, each with the number
    /// of boxes of it.
    pub sets: Vec<(String, i32)>,
    /// The number of parts beside the sets, by the place of the part in the
    /// list of all parts.
    pub extra_elements: HashMap<u32, i32>,
}

/// The mathematical value of an [`Inventory`].
pub struct InventoryView {
    pub sets: Seq<(Seq<char>, i32)>,
    pub extra_elements: Map<u32, i32>,
}

/// The mathematical values of the sets of a collection.
pub open spec fn owned_views(sets: Seq<(String, i32)>) -> Seq<(Seq<char>, i32)> {
    sets.map_values(|s: (String, i32)| (s.0@, s.1))
}

impl View for Inventory {
    type V = InventoryView;

    open spec fn view(&self) -> InventoryView {
        InventoryView { sets: owned_views(self.sets@), extra_elements: self.extra_elements@ }
    }
}

/// `elements` after the part at the place `index` of the list of all parts
/// is counted `factor` times as often as `content` holds it.
pub open spec fn spec_add_content_of(
    elements: Map<u32, i32>,
    content: Map<u32, i32>,
    index: u32,
    factor: int,
) -> Converted {
    match lookup(content, index) {
        None => Ok(elements),
        Some(count) => match spec_add_count(elements, index, count * factor) {
            Some(raised) => Ok(raised),
            None => Err(Error::Overflow),
        },
    }
}

/// `elements` after the parts at a place below `n` are counted `factor`
/// times as often as `content` holds them.
pub open spec fn spec_add_content(
    elements: Map<u32, i32>,
    content: Map<u32, i32>,
    n: nat,
    factor: int,
) -> Converted
    decreases n,
{
    if n == 0 {
        Ok(elements)
    } else {
        match spec_add_content(elements, content, (n - 1) as nat, factor) {
            Err(e) => Err(e),
            Ok(raised) => spec_add_content_of(raised, content, (n - 1) as u32, factor),
        }
    }
}

/// `elements` after the parts of the first `n` of the sets `owned` are
/// counted, each set as often as there are boxes of it.
pub open spec fn spec_add_sets(
    elements: Map<u32, i32>,
    owned: Seq<(Seq<char>, i32)>,
    known: Seq<ProductSetView>,
    n: nat,
) -> Converted
    decreases n,
{
    if n == 0 || n > owned.len() {
        Ok(elements)
    } else {
        match spec_add_sets(elements, owned, known, (n - 1) as nat) {
            Err(e) => Err(e),
            Ok(raised) => match spec_find(known, owned[n - 1].0) {
                None => Err(Error::SetUnknown { position: (n - 1) as usize }),
                Some(place) => spec_add_content(
                    raised,
                    known[place as int].content,
                    100,
                    owned[n - 1].1 as int,
                ),
            },
        }
    }
}

/// The parts of a collection: those of its sets, in the order in which the
/// collection lists them, then those beside the sets.
pub open spec fn spec_from_inventory(
    inventory: InventoryView,
    known: Seq<ProductSetView>,
) -> Converted {
    match spec_add_sets(Map::empty(), inventory.sets, known, inventory.sets.len()) {
        Err(e) => Err(e),
        Ok(with_sets) => spec_add_content(with_sets, inventory.extra_elements, 100, 1),
    }
}

/// Once a part cannot be counted, neither can the parts after it.
pub proof fn lemma_add_content_fails(
    elements: Map<u32, i32>,
    content: Map<u32, i32>,
    n: nat,
    m: nat,
    factor: int,
)
    requires
        n <= m,
        spec_add_content(elements, content, n, factor) is Err,
    ensures
        spec_add_content(elements, content, m, factor) == spec_add_content(
            elements,
            content,
            n,
            factor,
        ),
    decreases m,
{
    if n < m {
        lemma_add_content_fails(elements, content, n, (m - 1) as nat, factor);
    }
}

/// Once a set cannot be counted, neither can the sets after it.
pub proof fn lemma_add_sets_fails(
    elements: Map<u32, i32>,
    owned: Seq<(Seq<char>, i32)>,
    known: Seq<ProductSetView>,
    n: nat,
    m: nat,
)
    requires
        n <= m <= owned.len(),
        spec_add_sets(elements, owned, known, n) is Err,
    ensures
        spec_add_sets(elements, owned, known, m) == spec_add_sets(elements, owned, known, n),
    decreases m,
{
    if n < m {
        lemma_add_sets_fails(elements, owned, known, n, (m - 1) as nat);
    }
}

/// Counts every part `factor` times as often as `content` holds it.
pub fn add_content(
    elements: &mut HashMap<u32, i32>,
    content: &HashMap<u32, i32>,
    factor: i32,
) -> (result:
    Result<(), Error>)
    ensures
        crate::physical::bom::stepped_as(
            result,
            final(elements)@,
            spec_add_content(old(elements)@, content@, 100, factor as int),
        ),
{
    let ghost start = elements@;
    let mut index: u32 = 0;
    while index < ELEMENT_COUNT
        invariant
            index <= ELEMENT_COUNT,
            start == old(elements)@,
            spec_add_content(start, content@, index as nat, factor as int) == Ok::<
                Map<u32, i32>,
                Error,
            >(elements@),
        decreases ELEMENT_COUNT - index,
    {
        match crate::bom::count_of(content, index) {
            None => {},
            Some(element_count) => {
                let current: i32 = match crate::bom::count_of(elements, index) {
                    Some(count) => count,
                    None => 0,
                };
                assert(-0x4000_0000_0000_0000 <= element_count * factor <= 0x4000_0000_0000_0000)
                    by (nonlinear_arith)
                    requires
                        -0x8000_0000 <= element_count <= 0x7fff_ffff,
                        -0x8000_0000 <= factor <= 0x7fff_ffff,
                ;
                let raised: i128 = current as i128 + element_count as i128 * factor as i128;
                if raised < i32::MIN as i128 || raised > i32::MAX as i128 {
                    proof {
                        lemma_add_content_fails(
                            start,
                            content@,
                            (index + 1) as nat,
                            100,
                            factor as int,
                        );
                    }
                    return Err(Error::Overflow);
                }
                elements.insert(index, raised as i32);
            },
        }
        index += 1;
    }
    Ok(())
}

impl BillOfMaterials {
    /// The parts of the collection `inventory`, whose sets are looked up in
    /// `set_repo`.
    ///
    /// Fails where the collection names a set that is not known, and where
    /// a number of parts is not a value of `i32`.
    pub fn from_inventory(inventory: &Inventory, set_repo: &SetRepo) -> (result: Result<
        BillOfMaterials,
        Error,
    >)
        ensures
            match spec_from_inventory(inventory@, set_repo@) {
                Ok(elements) => result matches Ok(parts) && parts@ == elements,
                Err(e) => result matches Err(reason) && reason == e,
            },
    {
        let mut elements: HashMap<u32, i32> = HashMap::new();
        let ghost owned = inventory@.sets;
        let ghost known = set_repo@;
        let mut i: usize = 0;
        while i < inventory.sets.len()
            invariant
                i <= inventory.sets.len(),
                owned == inventory@.sets,
                owned.len() == inventory.sets@.len(),
                known == set_repo@,
                known.len() == set_repo.sets@.len(),
                spec_add_sets(Map::empty(), owned, known, i as nat) == Ok::<Map<u32, i32>, Error>(
                    elements@,
                ),
            decreases inventory.sets.len() - i,
        {
            let set_name = &inventory.sets[i].0;
            let set_count = inventory.sets[i].1;
            let stepped = match set_repo.find(set_name) {
                None => Err(Error::SetUnknown { position: i }),
                Some(place) => {
                    add_content(&mut elements, &set_repo.sets[place].content, set_count)
                },
            };
            match stepped {
                Ok(()) => {},
                Err(e) => {
                    proof {
                        lemma_add_sets_fails(
                            Map::empty(),
                            owned,
                            known,
                            (i + 1) as nat,
                            owned.len(),
                        );
                    }
                    return Err(e);
                },
            }
            i += 1;
        }
        add_content(&mut elements, &inventory.extra_elements, 1)?;
        Ok(BillOfMaterials { elements })
    }
}

} // verus!
