use paldeck::state::{autocomplete_pal, offered_or_none};
use paldeck::{AutoCompleteEngine, State};

fn names(list: &[&str]) -> Vec<String> {
    list.iter().map(|name| name.to_string()).collect()
}

#[test]
fn test_autocomplete() {
    let names = vec![
        "Apple".to_string(),
        "Apex".to_string(),
        "Banana".to_string(),
    ];

    let ac = AutoCompleteEngine::new(&names);

    assert_eq!(ac.autocomplete("appl"), vec!["Apple"]);
    assert_eq!(ac.autocomplete("ap"), vec!["Apex", "Apple"]);
}

#[test]
fn a_typo_still_finds_the_name() {
    let ac = AutoCompleteEngine::new(&names(&["Lamball", "Cattiva", "Chikipi"]));
    assert_eq!(ac.autocomplete("lambal"), vec!["Lamball"]);
    assert_eq!(ac.autocomplete("cativa"), vec!["Cattiva"]);
}

#[test]
fn the_whole_name_finds_itself_first() {
    let ac = AutoCompleteEngine::new(&names(&["Apple", "Apex", "Banana"]));
    let found = ac.autocomplete("apex");
    assert_eq!(found[0], "Apex");
    assert!(found.contains(&"Apex".to_string()));
}

#[test]
fn matching_ignores_case() {
    let ac = AutoCompleteEngine::new(&names(&["Lamball", "Cattiva"]));
    assert_eq!(ac.autocomplete("LAMBALL"), vec!["Lamball"]);
    assert_eq!(ac.autocomplete("lamball"), vec!["Lamball"]);
}

#[test]
fn a_far_query_finds_nothing() {
    let ac = AutoCompleteEngine::new(&names(&["Apple", "Apex", "Banana"]));
    assert_eq!(ac.autocomplete("zzz"), Vec::<String>::new());
}

#[test]
fn the_beginning_of_a_name_finds_the_name() {
    let ac = AutoCompleteEngine::new(&names(&["Apple", "Apex", "Banana"]));
    assert_eq!(ac.autocomplete("ban"), vec!["Banana"]);
    assert_eq!(ac.autocomplete("banan"), vec!["Banana"]);
}

#[test]
fn a_short_middle_part_of_a_name_is_too_far_from_it() {
    let ac = AutoCompleteEngine::new(&names(&["Apple", "Apex", "Banana"]));
    assert_eq!(ac.autocomplete("nan"), Vec::<String>::new());
}

#[test]
fn text_of_spaces_alone_finds_nothing() {
    let ac = AutoCompleteEngine::new(&names(&["Apple", "Apex", "Banana"]));
    assert_eq!(ac.autocomplete("   "), Vec::<String>::new());
    assert_eq!(ac.autocomplete(""), Vec::<String>::new());
}

#[test]
fn one_word_of_a_name_finds_the_name() {
    let ac = AutoCompleteEngine::new(&names(&["Mossanda Lux", "Mossanda", "Jetragon"]));
    let found = ac.autocomplete("lux");
    assert_eq!(found, vec!["Mossanda Lux"]);
}

#[test]
fn a_repeated_name_is_offered_once() {
    let ac = AutoCompleteEngine::new(&names(&["Apple", "Apple"]));
    assert_eq!(ac.autocomplete("apple"), vec!["Apple"]);
}

#[test]
fn an_engine_over_no_names_finds_nothing() {
    let ac = AutoCompleteEngine::new(&[]);
    assert_eq!(ac.autocomplete("apple"), Vec::<String>::new());
}

#[test]
fn every_found_name_is_a_known_name_and_stands_once() {
    let known = names(&["Apple", "Apex", "Ape", "Apricot", "Banana"]);
    let ac = AutoCompleteEngine::new(&known);
    let found = ac.autocomplete("ap");
    assert!(!found.is_empty());
    for (i, name) in found.iter().enumerate() {
        assert!(known.contains(name));
        assert!(!found[..i].contains(name));
    }
}

#[test]
fn the_same_query_finds_the_same_names_again() {
    let ac = AutoCompleteEngine::new(&names(&["Apple", "Apex", "Banana"]));
    let first = ac.autocomplete("ap");
    let _ = ac.autocomplete("banana");
    let second = ac.autocomplete("ap");
    assert_eq!(first, second);
}

#[test]
fn the_store_holds_its_names_in_order() {
    let state = State::new("http://localhost/", names(&["Banana", "Apple", "Apex"]));
    assert_eq!(state.pal_names(), &names(&["Apex", "Apple", "Banana"]));
    assert_eq!(state.pal_api_url(), "http://localhost/");
}

#[test]
fn the_store_orders_by_code_point() {
    let state = State::new("http://localhost/", names(&["b", "a", "B", "ab", "", "Z"]));
    assert_eq!(state.pal_names(), &names(&["", "B", "Z", "a", "ab", "b"]));
}

#[test]
fn the_store_orders_names_beyond_ascii_by_code_point_too() {
    let state = State::new("http://localhost/", names(&["𝄞", "日本", "é", "z", "a", "éa", "日"]));
    assert_eq!(state.pal_names(), &names(&["a", "z", "é", "éa", "日", "日本", "𝄞"]));
}

#[test]
fn the_store_holds_a_repeated_name_once() {
    let state = State::new("http://localhost/", names(&["Apple", "Apex", "Apple", "Apex"]));
    assert_eq!(state.pal_names(), &names(&["Apex", "Apple"]));
}

#[test]
fn nothing_typed_offers_every_name_in_stored_order() {
    let listed = names(&["Apex", "Apple", "Banana"]);
    let state = State::new("http://localhost/", listed.clone());
    assert_eq!(autocomplete_pal(&state, ""), listed);
}

#[test]
fn nothing_typed_offers_the_sorted_names_of_an_unsorted_list() {
    let state = State::new("http://localhost/", names(&["Banana", "Apple", "Apex"]));
    assert_eq!(autocomplete_pal(&state, ""), names(&["Apex", "Apple", "Banana"]));
}

#[test]
fn nothing_typed_over_an_empty_store_offers_nothing() {
    let state = State::new("http://localhost/", Vec::new());
    assert_eq!(autocomplete_pal(&state, ""), Vec::<String>::new());
}

#[test]
fn something_typed_asks_the_engine() {
    let state = State::new("http://localhost/", names(&["Banana", "Apple", "Apex"]));
    assert_eq!(autocomplete_pal(&state, "appl"), vec!["Apple"]);
    assert_eq!(autocomplete_pal(&state, "ap"), vec!["Apex", "Apple"]);
    assert_eq!(autocomplete_pal(&state, "zzz"), Vec::<String>::new());
}

#[test]
fn a_search_that_did_not_come_back_offers_nothing() {
    assert_eq!(offered_or_none(None), Vec::<String>::new());
    assert_eq!(offered_or_none(Some(names(&["Apex", "Apple"]))), names(&["Apex", "Apple"]));
}

fn readable_from_many_threads<T: Send + Sync>(_shared: &T) {}

#[test]
fn the_store_and_the_engine_can_be_shared_by_concurrent_readers() {
    let state = State::new("http://localhost/", names(&["Apple", "Apex"]));
    readable_from_many_threads(&state);
    let engine = AutoCompleteEngine::new(&names(&["Apple", "Apex"]));
    readable_from_many_threads(&engine);
    let shared = std::sync::Arc::new(state);
    let other = std::sync::Arc::clone(&shared);
    assert_eq!(autocomplete_pal(&shared, "ap"), autocomplete_pal(&other, "ap"));
}
