use oxidase::casing::{exec_names_match, to_snake_case};

#[test]
fn snake_case_of_camel_and_snake_names() {
    assert_eq!(to_snake_case("focusBox"), "focus_box");
    assert_eq!(to_snake_case("getBoundingBox"), "get_bounding_box");
    assert_eq!(to_snake_case("focus_element"), "focus_element");
    assert_eq!(to_snake_case("watchResize"), "watch_resize");
}

#[test]
fn names_match_across_cases() {
    assert!(exec_names_match("focus_element", "focusElement"));
    assert!(exec_names_match("focusElement", "focus_element"));
    assert!(exec_names_match("fetchRemoteTitle", "fetch_remote_title"));
    assert!(exec_names_match("same", "same"));
    assert!(!exec_names_match("focus_element", "focus_elements"));
    assert!(!exec_names_match("watchResize", "watchScroll"));
}
