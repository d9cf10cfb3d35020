use std::collections::HashMap;

use pmdex::{flat_dex, Ability, AbilityInfo, Form, Iv, Pokemon, PokemonList, PokemonListStatus};
use pmdex::text::{contains_folded, matches_filter};

fn iv(n: u16) -> Iv {
    Iv { hp: n, atk: n, def: n, sp_atk: n, sp_def: n, spd: n }
}

fn strs(v: &[&str]) -> Vec<String> {
    v.iter().map(|s| s.to_string()).collect()
}

fn record(no: u16, name: &str, form: Option<Vec<Form>>) -> Pokemon {
    Pokemon {
        no,
        name: name.to_string(),
        iv: iv(no),
        pm_type: strs(&["Grass"]),
        ability: vec![no],
        form,
    }
}

fn mega() -> Form {
    Form { form: strs(&["Mega"]), iv: iv(99), pm_type: strs(&["Fire", "Dragon"]), ability: vec![7] }
}

fn five() -> Vec<Pokemon> {
    vec![
        record(1, "Bulbasaur", None),
        record(2, "Ivysaur", None),
        record(3, "Venusaur", None),
        record(4, "Charmander", None),
        record(5, "Charmeleon", None),
    ]
}

fn abilities() -> HashMap<u16, Ability> {
    let mut m = HashMap::new();
    m.insert(9, Ability::new("Static".to_string(), "May paralyze.".to_string()));
    m.insert(31, Ability::new("Lightning Rod".to_string(), "Draws in electricity.".to_string()));
    m.insert(65, Ability::new("Overgrow".to_string(), "Powers up Grass moves.".to_string()));
    m
}

#[test]
fn new_selects_first_record() {
    let s = PokemonListStatus::new(five());
    assert_eq!(s.selected, 0);
    assert_eq!(s.current, five()[0]);
    assert_eq!(s.items, five());
    assert_eq!(s.items_clone, five());
    assert_eq!(s.dex, flat_dex(&five()[0]));
}

#[test]
fn new_on_empty_catalog_holds_placeholder() {
    let s = PokemonListStatus::new(vec![]);
    assert_eq!(s.selected, 0);
    assert_eq!(s.items.len(), 1);
    assert_eq!(s.items[0], Pokemon::default());
    assert_eq!(s.current, Pokemon::default());
    assert_eq!(s.dex.items.len(), 1);
    assert_eq!(s.dex.items[0].name, "");
}

#[test]
fn next_wraps_from_last_to_first() {
    let mut s = PokemonListStatus::new(five());
    s.current(4);
    s.next();
    assert_eq!(s.selected, 0);
    assert_eq!(s.current.name, "Bulbasaur");
    s.next();
    assert_eq!(s.selected, 1);
    assert_eq!(s.current.name, "Ivysaur");
}

#[test]
fn previous_wraps_from_first_to_last() {
    let mut s = PokemonListStatus::new(five());
    s.previous();
    assert_eq!(s.selected, 4);
    assert_eq!(s.current.name, "Charmeleon");
    s.previous();
    assert_eq!(s.selected, 3);
    assert_eq!(s.dex.items[0].name, "Charmander");
}

#[test]
fn scroll_down_clamps_to_last() {
    let mut s = PokemonListStatus::new(five());
    s.current(3);
    s.scroll_down(10);
    assert_eq!(s.selected, 4);
    assert_eq!(s.current.name, "Charmeleon");
    s.current(0);
    s.scroll_down(2);
    assert_eq!(s.selected, 2);
    assert_eq!(s.current.name, "Venusaur");
}

#[test]
fn scroll_down_ignores_overflow() {
    let mut s = PokemonListStatus::new(five());
    s.current(usize::MAX);
    assert_eq!(s.current, Pokemon::default());
    s.scroll_down(1);
    assert_eq!(s.selected, usize::MAX);
    assert_eq!(s.current, Pokemon::default());
}

#[test]
fn scroll_up_clamps_to_first() {
    let mut s = PokemonListStatus::new(five());
    s.current(3);
    s.scroll_up(2);
    assert_eq!(s.selected, 1);
    s.scroll_up(200);
    assert_eq!(s.selected, 0);
    assert_eq!(s.current.name, "Bulbasaur");
}

#[test]
fn empty_filter_restores_catalog() {
    let mut s = PokemonListStatus::new(five());
    s.set_list_filter("char".to_string());
    assert_eq!(s.items.len(), 2);
    s.set_list_filter(String::new());
    assert_eq!(s.items, five());
    assert_eq!(s.selected, 0);
}

#[test]
fn filter_keeps_matches_in_order_ignoring_case() {
    let mut s = PokemonListStatus::new(five());
    s.next();
    s.set_list_filter("SAUR".to_string());
    let names: Vec<&str> = s.items.iter().map(|p| p.name.as_str()).collect();
    assert_eq!(names, vec!["Bulbasaur", "Ivysaur", "Venusaur"]);
    assert_eq!(s.selected, 0);
    assert_eq!(s.current.name, "Bulbasaur");
    assert_eq!(s.items_clone, five());
}

#[test]
fn filter_without_match_selects_placeholder() {
    let mut s = PokemonListStatus::new(five());
    s.set_list_filter("pika".to_string());
    assert!(s.items.is_empty());
    assert_eq!(s.current, Pokemon::default());
    assert_eq!(s.dex, flat_dex(&Pokemon::default()));
    s.next();
    assert_eq!(s.selected, 0);
    s.scroll_down(3);
    assert_eq!(s.selected, 0);
    s.previous();
    assert_eq!(s.selected, 0);
    assert_eq!(s.current, Pokemon::default());
}

#[test]
fn filter_scenario_with_forms() {
    let a = record(1, "Bulba", None);
    let b = record(6, "Char", Some(vec![mega()]));
    let mut s = PokemonListStatus::new(vec![a, b.clone()]);
    s.set_list_filter("char".to_string());
    assert_eq!(s.items, vec![b.clone()]);
    assert_eq!(s.selected, 0);
    assert_eq!(s.current, b);
    let names: Vec<&str> = s.dex.items.iter().map(|d| d.name.as_str()).collect();
    assert_eq!(names, vec!["Char", "Char Mega"]);
    assert_eq!(s.dex.items[0].iv, iv(6));
    assert_eq!(s.dex.items[1].iv, iv(99));
    assert_eq!(s.dex.items[1].ability, vec![7]);
}

#[test]
fn flat_dex_one_row_per_form() {
    let forms = vec![
        Form { form: strs(&["Mega", "X"]), iv: iv(10), pm_type: strs(&["Fire", "Dragon"]), ability: vec![1] },
        Form { form: strs(&["Mega", "Y"]), iv: iv(20), pm_type: strs(&["Fire", "Flying"]), ability: vec![2] },
        Form { form: vec![], iv: iv(30), pm_type: vec![], ability: vec![] },
    ];
    let p = record(6, "Charizard", Some(forms));
    let d = flat_dex(&p);
    assert_eq!(d.page, 1);
    assert_eq!(d.items.len(), 4);
    assert_eq!(d.items[0].name, "Charizard");
    assert_eq!(d.items[0].iv, iv(6));
    assert_eq!(d.items[0].pm_type, strs(&["Grass"]));
    assert_eq!(d.items[0].ability, vec![6]);
    assert_eq!(d.items[1].name, "Charizard Mega X");
    assert_eq!(d.items[1].pm_type, strs(&["Fire", "Dragon"]));
    assert_eq!(d.items[2].name, "Charizard Mega Y");
    assert_eq!(d.items[2].iv, iv(20));
    assert_eq!(d.items[2].ability, vec![2]);
    assert_eq!(d.items[3].name, "Charizard ");
}

#[test]
fn flat_dex_without_forms_has_one_row() {
    let d = flat_dex(&record(1, "Bulbasaur", None));
    assert_eq!(d.items.len(), 1);
    assert_eq!(d.items[0].name, "Bulbasaur");
}

#[test]
fn ability_lookup_by_identifier() {
    let info = AbilityInfo::new(vec![], abilities());
    assert_eq!(info.get_ability_from_map(9).map(|a| a.name()), Some("Static"));
    assert_eq!(info.get_ability_from_map(31).map(|a| a.desc()), Some("Draws in electricity."));
    assert!(info.get_ability_from_map(10).is_none());
}

#[test]
fn single_ability_is_shown() {
    let info = AbilityInfo::new(vec![9], abilities());
    let shown = info.shown_abilities();
    assert_eq!(shown.len(), 1);
    assert_eq!(shown[0].name, "Static");
    assert_eq!(info.panel_lines(), strs(&["Static", "May paralyze."]));
}

#[test]
fn last_of_two_abilities_is_hidden() {
    let info = AbilityInfo::new(vec![65, 31], abilities());
    assert_eq!(info.panel_lines(), strs(&["Overgrow", "Powers up Grass moves."]));
    let unresolved_first = AbilityInfo::new(vec![1, 9], abilities());
    assert!(unresolved_first.shown_abilities().is_empty());
    assert!(unresolved_first.panel_lines().is_empty());
}

#[test]
fn separator_only_between_resolved_abilities() {
    let info = AbilityInfo::new(vec![9, 65, 31], abilities());
    assert_eq!(
        info.panel_lines(),
        strs(&["Static", "May paralyze.", "", "Overgrow", "Powers up Grass moves."])
    );
    let skipped = AbilityInfo::new(vec![1, 65, 9, 31], abilities());
    assert_eq!(
        skipped.panel_lines(),
        strs(&["Overgrow", "Powers up Grass moves.", "", "Static", "May paralyze."])
    );
}

#[test]
fn no_abilities_show_nothing() {
    let info = AbilityInfo::new(vec![], abilities());
    assert!(info.panel_lines().is_empty());
    let missing = AbilityInfo::new(vec![404], abilities());
    assert!(missing.panel_lines().is_empty());
}

#[test]
fn name_match_ignores_case() {
    assert!(matches_filter("BULBASAUR", "bulba"));
    assert!(matches_filter("bulbasaur", "SAUR"));
    assert!(!matches_filter("Bulbasaur", "char"));
    assert!(matches_filter("Mr. Mime", ""));
}

#[test]
fn folded_containment() {
    assert!(contains_folded("charmander", "arm"));
    assert!(contains_folded("charmander", ""));
    assert!(contains_folded("abc", "abc"));
    assert!(!contains_folded("abc", "abcd"));
    assert!(!contains_folded("abcab", "bb"));
    assert!(contains_folded("aab", "ab"));
}

#[test]
fn list_labels_follow_query() {
    let labels = strs(&["#1 Bulbasaur", "#4 Charmander", "#25 Pikachu"]);
    assert_eq!(PokemonList::visible_labels(&labels, ""), labels);
    assert_eq!(PokemonList::visible_labels(&labels, "CHAR"), strs(&["#4 Charmander"]));
    assert_eq!(PokemonList::visible_labels(&labels, "#2"), strs(&["#25 Pikachu"]));
    assert!(PokemonList::visible_labels(&labels, "mew").is_empty());
}
