//! The store of known names, kept in order, with the engine that completes
//! a partial name.

use crate::autocomplete::{completions, AutoCompleteEngine};
use vstd::prelude::*;
use vstd::relations::{sorted_by, total_ordering};
use vstd::seq_lib::{lemma_sorted_unique, to_multiset_contains};
use vstd::utf8::char_u32_cast;

verus! {

/// The order of names: character by character, by the code points of the
/// characters; a name comes before every longer name that it begins.
pub open spec fn name_le(a: Seq<char>, b: Seq<char>) -> bool
    decreases a.len(),
{
    if a.len() == 0 {
        true
    } else if b.len() == 0 {
        false
    } else if a[0] == b[0] {
        name_le(a.drop_first(), b.drop_first())
    } else {
        (a[0] as u32) < (b[0] as u32)
    }
}

/// Whether the names stand in order: none comes after a later one.
pub open spec fn in_order(names: Seq<Seq<char>>) -> bool {
    forall|i: int, j: int|
        0 <= i < j < names.len() ==> name_le(#[trigger] names[i], #[trigger] names[j])
}

/// Whether the names stand in order and none stands twice.
pub open spec fn strictly_in_order(names: Seq<Seq<char>>) -> bool {
    in_order(names) && names.no_duplicates()
}

/// What a store holds of the names it was given: the same names, each once,
/// in order.
pub open spec fn stores(given: Seq<Seq<char>>, stored: Seq<Seq<char>>) -> bool {
    strictly_in_order(stored) && stored.to_set() == given.to_set()
}

/// Every name is at most itself.
pub proof fn lemma_name_le_reflexive(a: Seq<char>)
    ensures
        name_le(a, a),
    decreases a.len(),
{
    if a.len() > 0 {
        lemma_name_le_reflexive(a.drop_first());
    }
}

/// Two names that are each at most the other are one name.
pub proof fn lemma_name_le_antisymmetric(a: Seq<char>, b: Seq<char>)
    requires
        name_le(a, b),
        name_le(b, a),
    ensures
        a == b,
    decreases a.len(),
{
    if a.len() == 0 {
        assert(a =~= b);
    } else {
        lemma_name_le_antisymmetric(a.drop_first(), b.drop_first());
        assert(a =~= seq![a[0]] + a.drop_first());
        assert(b =~= seq![b[0]] + b.drop_first());
    }
}

/// The order of names carries over a name in between.
pub proof fn lemma_name_le_transitive(a: Seq<char>, b: Seq<char>, c: Seq<char>)
    requires
        name_le(a, b),
        name_le(b, c),
    ensures
        name_le(a, c),
    decreases a.len(),
{
    if a.len() > 0 && a[0] == b[0] && b[0] == c[0] {
        lemma_name_le_transitive(a.drop_first(), b.drop_first(), c.drop_first());
    }
}

/// Of two names one is at most the other.
pub proof fn lemma_name_le_total(a: Seq<char>, b: Seq<char>)
    ensures
        name_le(a, b) || name_le(b, a),
    decreases a.len(),
{
    if a.len() > 0 && b.len() > 0 {
        if a[0] == b[0] {
            lemma_name_le_total(a.drop_first(), b.drop_first());
        } else {
            char_u32_cast(a[0], a[0] as u32);
            char_u32_cast(b[0], b[0] as u32);
        }
    }
}

/// A set of names has one arrangement in order: two lists in order, without
/// repeats, that hold the same names are the same list.
pub proof fn lemma_order_is_unique(given: Seq<Seq<char>>, stored: Seq<Seq<char>>)
    requires
        strictly_in_order(given),
        strictly_in_order(stored),
        given.to_set() == stored.to_set(),
    ensures
        given == stored,
{
    let leq = |a: Seq<char>, b: Seq<char>| name_le(a, b);
    assert(total_ordering(leq)) by {
        assert forall|a: Seq<char>| #[trigger] leq(a, a) by {
            lemma_name_le_reflexive(a);
        }
        assert forall|a: Seq<char>, b: Seq<char>| #[trigger] leq(a, b) && #[trigger] leq(b, a) implies a
            == b by {
            lemma_name_le_antisymmetric(a, b);
        }
        assert forall|a: Seq<char>, b: Seq<char>, c: Seq<char>| #[trigger]
            leq(a, b) && #[trigger] leq(b, c) implies leq(a, c) by {
            lemma_name_le_transitive(a, b, c);
        }
        assert forall|a: Seq<char>, b: Seq<char>| #[trigger] leq(a, b) || #[trigger] leq(b, a) by {
            lemma_name_le_total(a, b);
        }
    }
    assert(sorted_by(given, leq));
    assert(sorted_by(stored, leq));
    assert(given.to_multiset() =~= stored.to_multiset()) by {
        given.lemma_multiset_has_no_duplicates();
        stored.lemma_multiset_has_no_duplicates();
        assert forall|name: Seq<char>| given.to_multiset().count(name) == stored.to_multiset().count(
            name,
        ) by {
            to_multiset_contains(given, name);
            to_multiset_contains(stored, name);
            assert(given.contains(name) == given.to_set().contains(name));
            assert(stored.contains(name) == stored.to_set().contains(name));
        }
    }
    lemma_sorted_unique(given, stored, leq);
}

/// Puts the names in order.
///
/// Trusted: `sort` on a slice of `String` rearranges the strings it is given,
/// none added and none lost, so that none comes after a later one in the
/// order of `String`, which compares the UTF-8 bytes in turn and so the code
/// points of the characters.
#[verifier::external_body]
fn sort_names(names: &mut Vec<String>)
    ensures
        final(names).deep_view().to_multiset() == old(names).deep_view().to_multiset(),
        in_order(final(names).deep_view()),
{
    names.sort()
}

fn copy_names(names: &Vec<String>) -> (copy: Vec<String>)
    ensures
        copy.deep_view() == names.deep_view(),
{
    let mut copy: Vec<String> = Vec::new();
    let mut i: usize = 0;
    while i < names.len()
        invariant
            i <= names.len(),
            copy.deep_view() == names.deep_view().take(i as int),
        decreases names.len() - i,
    {
        let ghost before = copy.deep_view();
        copy.push(names[i].clone());
        proof {
            assert(copy.deep_view() == before.push(names[i as int]@));
            assert(names.deep_view().take(i + 1) == names.deep_view().take(i as int).push(
                names[i as int]@,
            ));
        }
        i = i + 1;
    }
    assert(names.deep_view().take(names.len() as int) == names.deep_view());
    copy
}

/// Keeps the first of each run of equal names. Of names in order this keeps
/// each name once.
fn drop_repeats(sorted: &Vec<String>) -> (kept: Vec<String>)
    requires
        in_order(sorted.deep_view()),
    ensures
        stores(sorted.deep_view(), kept.deep_view()),
        sorted.deep_view().no_duplicates() ==> kept.deep_view() == sorted.deep_view(),
{
    let ghost all = sorted.deep_view();
    let mut kept: Vec<String> = Vec::new();
    let mut i: usize = 0;
    while i < sorted.len()
        invariant
            i <= sorted.len(),
            all == sorted.deep_view(),
            in_order(all),
            strictly_in_order(kept.deep_view()),
            kept.deep_view().to_set() == all.take(i as int).to_set(),
            i > 0 ==> kept.len() > 0 && kept.deep_view().last() == all[i - 1],
            all.take(i as int).no_duplicates() ==> kept.deep_view() == all.take(i as int),
        decreases sorted.len() - i,
    {
        let ghost before = kept.deep_view();
        let ghost name = all[i as int];
        assert(sorted[i as int]@ == name);
        assert(all.take(i + 1) == all.take(i as int).push(name));
        let fresh = i == 0 || sorted[i] != sorted[i - 1];
        if fresh {
            kept.push(sorted[i].clone());
            proof {
                assert(kept.deep_view() == before.push(name));
                assert forall|k: int| 0 <= k < before.len() implies name_le(before[k], name)
                    && before[k] != name by {
                    assert(before.to_set().contains(before[k]));
                    let m = choose|m: int| 0 <= m < i && all.take(i as int)[m] == before[k];
                    assert(all[m] == before[k]);
                    if before[k] == name {
                        if m < i - 1 {
                            lemma_name_le_antisymmetric(all[i - 1], all[m]);
                        }
                    }
                }
                before.lemma_push_to_set_commute(name);
                all.take(i as int).lemma_push_to_set_commute(name);
            }
        } else {
            proof {
                assert(all.take(i as int).to_set().contains(all.take(i as int)[i - 1]));
                all.take(i as int).lemma_push_to_set_commute(name);
                assert(all.take(i as int).to_set().insert(name) == all.take(i as int).to_set());
                assert(all.take(i + 1)[i - 1] == all.take(i + 1)[i as int]);
            }
        }
        i = i + 1;
    }
    assert(all.take(sorted.len() as int) == all);
    kept
}

/// What the running service knows: the names of all Pals, in order, the
/// engine that completes a partial name, and the address of the upstream
/// service.
pub struct State {
    pal_names: Vec<String>,
    ac_eng: AutoCompleteEngine,
    pal_api_url: String,
}

impl State {
    #[verifier::type_invariant]
    spec fn names_in_order_and_indexed(self) -> bool {
        &&& strictly_in_order(self.pal_names.deep_view())
        &&& self.ac_eng.names() == self.pal_names.deep_view().to_set()
    }

    /// The stored names, in the order of the store.
    pub closed spec fn names(&self) -> Seq<Seq<char>> {
        self.pal_names.deep_view()
    }

    /// The address of the upstream service.
    pub closed spec fn api_url(&self) -> Seq<char> {
        self.pal_api_url@
    }

    /// Stores the names in order, each once, and builds the engine over them.
    /// Names that came in order, none twice, keep their places.
    pub fn new(pal_api_url: &str, pal_names: Vec<String>) -> (state: State)
        ensures
            state.api_url() == pal_api_url@,
            stores(pal_names.deep_view(), state.names()),
            strictly_in_order(pal_names.deep_view()) ==> state.names() == pal_names.deep_view(),
    {
        let mut sorted = pal_names;
        sort_names(&mut sorted);
        proof {
            let given = pal_names.deep_view();
            assert forall|name: Seq<char>| sorted.deep_view().to_set().contains(name)
                == given.to_set().contains(name) by {
                to_multiset_contains(given, name);
                to_multiset_contains(sorted.deep_view(), name);
                assert(given.contains(name) == given.to_set().contains(name));
                assert(sorted.deep_view().contains(name) == sorted.deep_view().to_set().contains(
                    name,
                ));
            }
            assert(sorted.deep_view().to_set() =~= given.to_set());
            if strictly_in_order(given) {
                given.lemma_multiset_has_no_duplicates();
                sorted.deep_view().lemma_multiset_has_no_duplicates_conv();
                lemma_order_is_unique(given, sorted.deep_view());
            }
        }
        let names = drop_repeats(&sorted);
        let slice = names.as_slice();
        assert(slice.deep_view() == names.deep_view());
        let ac_eng = AutoCompleteEngine::new(slice);
        State { pal_names: names, ac_eng, pal_api_url: String::from_str(pal_api_url) }
    }

    /// The stored names, in the order of the store: in the order of names,
    /// none twice.
    pub fn pal_names(&self) -> (names: &Vec<String>)
        ensures
            names.deep_view() == self.names(),
            strictly_in_order(names.deep_view()),
    {
        proof {
            use_type_invariant(self);
        }
        &self.pal_names
    }

    /// The address of the upstream service.
    pub fn pal_api_url(&self) -> (url: &str)
        ensures
            url@ == self.api_url(),
    {
        self.pal_api_url.as_str()
    }
}

/// What completing `partial` over `names` may give: for the empty text all
/// the names as they are stored; else the names that match, each once.
pub open spec fn completes(names: Seq<Seq<char>>, partial: Seq<char>, offered: Seq<Seq<char>>) -> bool {
    if partial.len() == 0 {
        offered == names
    } else {
        &&& offered.no_duplicates()
        &&& offered.to_set() == completions(names.to_set(), partial)
        &&& forall|i: int| 0 <= i < offered.len() ==> names.contains(#[trigger] offered[i])
    }
}

/// The names to offer for what the user has typed so far. Nothing typed
/// offers every name, in the order of the store, without asking the engine.
pub fn autocomplete_pal(state: &State, partial: &str) -> (offered: Vec<String>)
    ensures
        completes(state.names(), partial@, offered.deep_view()),
{
    proof {
        use_type_invariant(state);
    }
    if partial.is_empty() {
        copy_names(&state.pal_names)
    } else {
        let offered = state.ac_eng.autocomplete(partial);
        proof {
            assert forall|i: int| 0 <= i < offered.len() implies state.names().contains(
                #[trigger] offered.deep_view()[i],
            ) by {
                assert(offered.deep_view()[i] == offered[i]@);
                assert(state.names().to_set().contains(offered[i]@));
            }
        }
        offered
    }
}

/// For the empty text a store offers exactly what it holds, in the order in
/// which it holds it: the names it was built from, each once and in order.
/// Where those names came in order, none twice, they are offered as they came.
pub proof fn lemma_empty_text_offers_the_store(
    given: Seq<Seq<char>>,
    stored: Seq<Seq<char>>,
    offered: Seq<Seq<char>>,
)
    requires
        stores(given, stored),
        completes(stored, Seq::empty(), offered),
    ensures
        offered == stored,
        offered.to_set() == given.to_set(),
        strictly_in_order(given) ==> offered == given,
{
    if strictly_in_order(given) {
        lemma_order_is_unique(given, stored);
    }
}

/// The names to offer when the search ran apart from the caller: what it
/// found, or no name at all where it did not come back.
pub fn offered_or_none(found: Option<Vec<String>>) -> (offered: Vec<String>)
    ensures
        found matches Some(names) ==> offered == names,
        found is None ==> offered@.len() == 0,
{
    match found {
        Some(names) => names,
        None => Vec::new(),
    }
}

} // verus!
