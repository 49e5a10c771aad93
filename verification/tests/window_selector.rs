use debug_tools::window_selector::system_window_owners;
use debug_tools::models::WindowDescriptor;
use debug_tools::window_selector::{NotFound, SelectionRule, WindowSelector};

fn window(id: u32, name: &str, app_name: &str, title: &str) -> WindowDescriptor {
    WindowDescriptor {
        id,
        name: name.to_string(),
        app_name: app_name.to_string(),
        title: title.to_string(),
    }
}

fn three_windows() -> Vec<WindowDescriptor> {
    vec![window(1, "one", "X", "A"), window(2, "two", "X", "B"), window(3, "three", "Sys", "C")]
}

fn names(list: &[&str]) -> Vec<String> {
    list.iter().map(|s| s.to_string()).collect()
}

#[test]
fn preferred_title_selects_the_matching_window() {
    let selector = WindowSelector::new(names(&["Dock"]));
    let chosen = selector.select(&three_windows(), &names(&["X"]), Some("B"));
    assert_eq!(chosen, Ok(window(2, "two", "X", "B")));
}

#[test]
fn unmatched_title_falls_back_to_first_window_of_the_application() {
    let selector = WindowSelector::new(names(&["Dock"]));
    let chosen = selector.select(&three_windows(), &names(&["X"]), Some("Z"));
    assert_eq!(chosen, Ok(window(1, "one", "X", "A")));
}

#[test]
fn unknown_application_falls_back_to_first_window_not_denied() {
    let selector = WindowSelector::new(names(&["Dock"]));
    let candidates = vec![window(7, "dock", "Dock", ""), window(3, "three", "Sys", "C")];
    let chosen = selector.select(&candidates, &names(&["Y"]), None);
    assert_eq!(chosen, Ok(window(3, "three", "Sys", "C")));
}

#[test]
fn without_preferred_title_the_first_window_of_the_application_wins() {
    let selector = WindowSelector::new(Vec::new());
    let chosen = selector.select_index(&three_windows(), &names(&["X"]), None);
    assert_eq!(chosen, Some(0));
}

#[test]
fn window_name_that_contains_an_identifier_is_third_choice() {
    let selector = WindowSelector::new(Vec::new());
    let candidates =
        vec![window(1, "plain", "Other", "t"), window(2, "my-app helper", "Helper", "t")];
    assert_eq!(selector.select_index(&candidates, &names(&["my-app"]), None), Some(1));
}

#[test]
fn application_match_beats_name_match_earlier_in_the_list() {
    let selector = WindowSelector::new(Vec::new());
    let candidates = vec![window(1, "has app inside", "Other", "t"), window(2, "w", "app", "t")];
    assert_eq!(selector.select_index(&candidates, &names(&["app"]), None), Some(1));
}

#[test]
fn all_windows_denied_falls_back_to_the_first() {
    let selector = WindowSelector::new(names(&["Dock", "Control Center"]));
    let candidates = vec![window(1, "a", "Control Center", ""), window(2, "b", "Dock", "")];
    assert_eq!(selector.select(&candidates, &names(&["Y"]), None), Ok(window(1, "a", "Control Center", "")));
}

#[test]
fn empty_candidate_list_is_the_only_failure() {
    let selector = WindowSelector::new(Vec::new());
    assert_eq!(selector.select(&Vec::new(), &names(&["X"]), Some("B")), Err(NotFound));
    assert_eq!(selector.select_index(&Vec::new(), &Vec::new(), None), None);
    assert_eq!(selector.select_with_target(&Vec::new(), &names(&["X"]), None, Some(1)), Err(NotFound));
}

#[test]
fn explicit_target_bypasses_every_rule() {
    let selector = WindowSelector::new(names(&["Sys"]));
    let chosen = selector.select_with_target(&three_windows(), &names(&["X"]), Some("B"), Some(3));
    assert_eq!(chosen, Ok(window(3, "three", "Sys", "C")));
}

#[test]
fn target_that_is_not_listed_leaves_the_choice_to_the_rules() {
    let selector = WindowSelector::new(Vec::new());
    let chosen = selector.select_with_target(&three_windows(), &names(&["X"]), Some("B"), Some(99));
    assert_eq!(chosen, Ok(window(2, "two", "X", "B")));
}

#[test]
fn selection_is_the_same_every_time() {
    let selector = WindowSelector::new(names(&["Dock"]));
    let first = selector.select(&three_windows(), &names(&["X"]), Some("B"));
    let second = selector.select(&three_windows(), &names(&["X"]), Some("B"));
    assert_eq!(first, second);
}

#[test]
fn rules_are_told_apart_window_by_window() {
    let selector = WindowSelector::new(names(&["Sys"]));
    let ids = names(&["X"]);
    let w = window(1, "the X window", "X", "A");
    assert!(selector.window_satisfies(SelectionRule::AppAndTitle, &w, &ids, Some("A")));
    assert!(!selector.window_satisfies(SelectionRule::AppAndTitle, &w, &ids, Some("B")));
    assert!(selector.window_satisfies(SelectionRule::App, &w, &ids, Some("B")));
    assert!(selector.window_satisfies(SelectionRule::NameContains, &w, &ids, None));
    assert!(selector.window_satisfies(SelectionRule::NotDenied, &w, &ids, None));
    let sys = window(2, "s", "Sys", "");
    assert!(!selector.window_satisfies(SelectionRule::NotDenied, &sys, &ids, None));
    assert!(selector.window_satisfies(SelectionRule::Any, &sys, &ids, None));
    assert_eq!(selector.find_first(SelectionRule::App, &vec![sys, w], &ids, None), Some(1));
}

#[test]
fn system_denylist_names_the_known_owners() {
    let owners = system_window_owners();
    assert_eq!(
        owners,
        names(&[
            "Window Server",
            "Dock",
            "Control Center",
            "Notification Center",
            "SystemUIServer",
            "\u{30b3}\u{30f3}\u{30c8}\u{30ed}\u{30fc}\u{30eb}\u{30bb}\u{30f3}\u{30bf}\u{30fc}",
            "\u{901a}\u{77e5}\u{30bb}\u{30f3}\u{30bf}\u{30fc}",
        ])
    );
    let selector = WindowSelector::with_system_denylist();
    assert_eq!(selector.denylist, owners);
    let candidates = vec![
        window(1, "bar", "Control Center", ""),
        window(2, "n", "\u{901a}\u{77e5}\u{30bb}\u{30f3}\u{30bf}\u{30fc}", ""),
        window(3, "three", "Sys", "C"),
    ];
    assert_eq!(selector.select_index(&candidates, &names(&["Y"]), None), Some(2));
}
