//! The sets in which the parts are sold.
use std::collections::HashMap;
use vstd::prelude::*;

verus! {

/// The name of a set in one language.
#[derive(Debug)]
pub struct Name {
    pub language_code: String,
    pub name: String,
}

/// The mathematical value of a [`Name`].
pub struct NameView {
    pub language_code: Seq<char>,
    pub name: Seq<char>,
}

impl View for Name {
    type V = NameView;

    open spec fn view(&self) -> NameView {
        NameView { language_code: self.language_code@, name: self.name@ }
    }
}

/// A set: the parts that come in one box.
#[derive(Debug)]
pub struct ProductSet {
    pub id: String,
    pub names: Vec<Name>,
    /// The number of parts, by the place of the part in the list of all
    /// parts.
    pub content: HashMap<u32, i32>,
}

/// The mathematical value of a [`ProductSet`].
pub struct ProductSetView {
    pub id: Seq<char>,
    pub names: Seq<NameView>,
    pub content: Map<u32, i32>,
}

impl View for ProductSet {
    type V = ProductSetView;

    open spec fn view(&self) -> ProductSetView {
        ProductSetView {
            id: self.id@,
            names: self.names@.map_values(|n: Name| n@),
            content: self.content@,
        }
    }
}

/// The mathematical values of sets.
pub open spec fn set_views(sets: Seq<ProductSet>) -> Seq<ProductSetView> {
    sets.map_values(|s: ProductSet| s@)
}

/// The place of the first of `sets` from `start` on that has the identifier
/// `id`, if there is one.
pub open spec fn spec_find_from(sets: Seq<ProductSetView>, id: Seq<char>, start: nat) -> Option<nat>
    decreases sets.len() - start,
{
    if start >= sets.len() {
        None
    } else if sets[start as int].id == id {
        Some(start)
    } else {
        spec_find_from(sets, id, start + 1)
    }
}

/// The place of the first of `sets` that has the identifier `id`.
pub open spec fn spec_find(sets: Seq<ProductSetView>, id: Seq<char>) -> Option<nat> {
    spec_find_from(sets, id, 0)
}

/// Whether no two of `sets` have the same identifier.
pub open spec fn distinct_ids(sets: Seq<ProductSetView>) -> bool {
    forall|i: int, j: int| 0 <= i < j < sets.len() ==> sets[i].id != sets[j].id
}

/// What is found is the first set with the identifier, and nothing is found
/// only where no set has it.
pub proof fn lemma_find_from(sets: Seq<ProductSetView>, id: Seq<char>, start: nat)
    requires
        start <= sets.len(),
    ensures
        match spec_find_from(sets, id, start) {
            Some(place) => start <= place < sets.len() && sets[place as int].id == id
                && forall|i: int| start <= i < place ==> sets[i].id != id,
            None => forall|i: int| start <= i < sets.len() ==> sets[i].id != id,
        },
    decreases sets.len() - start,
{
    if start < sets.len() && sets[start as int].id != id {
        lemma_find_from(sets, id, start + 1);
    }
}

/// The sets that are known.
#[derive(Debug)]
pub struct SetRepo {
    pub sets: Vec<ProductSet>,
}

impl View for SetRepo {
    type V = Seq<ProductSetView>;

    open spec fn view(&self) -> Seq<ProductSetView> {
        set_views(self.sets@)
    }
}

impl Default for SetRepo {
    fn default() -> (repo: SetRepo)
        ensures
            repo@ == Seq::<ProductSetView>::empty(),
    {
        SetRepo::new()
    }
}

impl SetRepo {
    /// A repository without sets.
    pub fn new() -> (repo: SetRepo)
        ensures
            repo@ == Seq::<ProductSetView>::empty(),
    {
        let repo = SetRepo { sets: Vec::new() };
        repo
    }

    /// The place of the set with the identifier `id`, if it is known.
    pub fn find(&self, id: &String) -> (place: Option<usize>)
        ensures
            match spec_find(self@, id@) {
                Some(found) => place matches Some(p) && p == found && found < self.sets@.len(),
                None => place is None,
            },
    {
        let mut i: usize = 0;
        while i < self.sets.len()
            invariant
                i <= self.sets.len(),
                self@.len() == self.sets@.len(),
                spec_find(self@, id@) == spec_find_from(self@, id@, i as nat),
            decreases self.sets.len() - i,
        {
            if self.sets[i].id == *id {
                return Some(i);
            }
            i += 1;
        }
        None
    }

    /// Makes `set` known. A set that was known under the same identifier is
    /// replaced by it, and the result says whether there was one.
    pub fn add(&mut self, set: ProductSet) -> (replaced: bool)
        ensures
            match spec_find(old(self)@, set@.id) {
                Some(place) => replaced && final(self)@ == old(self)@.update(place as int, set@),
                None => !replaced && final(self)@ == old(self)@.push(set@),
            },
            distinct_ids(old(self)@) ==> distinct_ids(final(self)@),
    {
        let ghost before = self@;
        let ghost added = set@;
        proof {
            lemma_find_from(before, added.id, 0);
        }
        match self.find(&set.id) {
            Some(place) => {
                self.sets.set(place, set);
                assert(distinct_ids(before) ==> distinct_ids(self@)) by {
                    if distinct_ids(before) {
                        assert forall|i: int, j: int| 0 <= i < j < self@.len() implies self@[i].id
                            != self@[j].id by {
                            assert(self@[i].id == before[i].id);
                            assert(self@[j].id == before[j].id);
                        }
                    }
                }
                true
            },
            None => {
                self.sets.push(set);
                assert(self@ =~= before.push(added));
                assert(distinct_ids(before) ==> distinct_ids(self@)) by {
                    if distinct_ids(before) {
                        assert forall|i: int, j: int| 0 <= i < j < self@.len() implies self@[i].id
                            != self@[j].id by {
                            if j < before.len() {
                            }
                        }
                    }
                }
                false
            },
        }
    }
}

} // verus!
