//! Fuzzy completion of names over an index of the `simsearch` crate.

use simsearch::SimSearch;
use std::hash::Hash;
use vstd::prelude::*;

verus! {

#[verifier::external_type_specification]
#[verifier::external_body]
#[verifier::reject_recursive_types(Id)]
pub struct ExSimSearch<Id: Eq + PartialEq + Clone + Hash + Ord>(SimSearch<Id>);

/// The entries of an index: each identifier with the text it was last
/// inserted with.
pub uninterp spec fn indexed(index: SimSearch<String>) -> Map<Seq<char>, Seq<char>>;

/// The identifiers that a search for `pattern` finds in an index that holds
/// `entries`.
pub uninterp spec fn matching(entries: Map<Seq<char>, Seq<char>>, pattern: Seq<char>) -> Set<Seq<char>>;

/// Makes an index without entries.
///
/// Trusted: `SimSearch::new` starts with empty maps.
#[verifier::external_body]
fn index_new() -> (index: SimSearch<String>)
    ensures
        indexed(index) == (Map::<Seq<char>, Seq<char>>::empty()),
{
    SimSearch::new()
}

/// Enters `content` under `id`.
///
/// Trusted: `SimSearch::insert` first deletes what the index held under `id`
/// and then records the new content under it; the other entries stay.
#[verifier::external_body]
fn index_insert(index: &mut SimSearch<String>, id: String, content: &str)
    ensures
        indexed(*final(index)) == indexed(*old(index)).insert(id@, content@),
{
    index.insert(id, content)
}

/// Searches the index for `pattern`.
///
/// Trusted: `SimSearch::search` returns identifiers of entries only, each at
/// most once. Which of them it returns is decided by the entries and the
/// pattern alone: an entry is found where one of its words scores above the
/// threshold against a word of the pattern. Nothing is claimed of their
/// order: the crate ranks an entry by the sum of such scores, floating-point
/// numbers that it adds up in the order in which it walks a hash map.
#[verifier::external_body]
fn index_search(index: &SimSearch<String>, pattern: &str) -> (found: Vec<String>)
    ensures
        found.deep_view().no_duplicates(),
        found.deep_view().to_set() == matching(indexed(*index), pattern@),
        forall|i: int| 0 <= i < found.len() ==> indexed(*index).dom().contains(#[trigger] found[i]@),
{
    index.search(pattern)
}

/// The entries of an index in which every name is entered under itself.
pub open spec fn own_entries(names: Set<Seq<char>>) -> Map<Seq<char>, Seq<char>> {
    Map::new(|name: Seq<char>| names.contains(name), |name: Seq<char>| name)
}

/// The names that a query finds among `names`.
pub open spec fn completions(names: Set<Seq<char>>, query: Seq<char>) -> Set<Seq<char>> {
    matching(own_entries(names), query)
}

/// A fuzzy index over a list of names, each searchable by its own text.
pub struct AutoCompleteEngine {
    engine: SimSearch<String>,
}

impl AutoCompleteEngine {
    #[verifier::type_invariant]
    spec fn each_under_itself(self) -> bool {
        indexed(self.engine) == own_entries(indexed(self.engine).dom())
    }

    /// The names that the engine was built over.
    pub closed spec fn names(&self) -> Set<Seq<char>> {
        indexed(self.engine).dom()
    }

    /// Builds the engine over `data`. A name that occurs twice is held once.
    pub fn new(data: &[String]) -> (r: Self)
        ensures
            r.names() == data.deep_view().to_set(),
    {
        let mut engine = index_new();
        let mut i: usize = 0;
        while i < data.len()
            invariant
                i <= data.len(),
                indexed(engine) == own_entries(data.deep_view().take(i as int).to_set()),
            decreases data.len() - i,
        {
            let name = &data[i];
            index_insert(&mut engine, name.clone(), name.as_str());
            proof {
                let before = data.deep_view().take(i as int);
                let after = data.deep_view().take(i + 1);
                assert(after == before.push(name@));
                before.lemma_push_to_set_commute(name@);
                assert(indexed(engine) == own_entries(after.to_set()));
            }
            i = i + 1;
        }
        proof {
            assert(data.deep_view().take(data.len() as int) == data.deep_view());
            assert(indexed(engine).dom() == data.deep_view().to_set());
        }
        AutoCompleteEngine { engine }
    }

    /// The names that match `query`, each once. Which names match depends on
    /// the names of the engine and on the query, not on earlier queries.
    pub fn autocomplete(&self, query: &str) -> (r: Vec<String>)
        ensures
            r.deep_view().no_duplicates(),
            r.deep_view().to_set() == completions(self.names(), query@),
            forall|i: int| 0 <= i < r.len() ==> self.names().contains(#[trigger] r[i]@),
    {
        proof {
            use_type_invariant(self);
        }
        index_search(&self.engine, query)
    }
}

} // verus!
