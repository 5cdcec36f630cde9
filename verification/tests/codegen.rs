use oxidase::codegen::{export_keys, plan_bindings, Binding};
use oxidase::exports::{analyze_source, ExportedFunction};
use oxidase::syntax::{BindJsInput, InteropMode};

/// The bridge module the macro tests bind.
const BRIDGE_TS: &str = r#"
export function focusElement(id: string): void {
    document.getElementById(id)?.focus();
}
export function scrollToPosition(x: number, y: number): void {
    window.scrollTo(x, y);
}
export function getBoundingRect(id: string): Rect {
    return document.getElementById(id)!.getBoundingClientRect();
}
export async function fetchRemoteTitle(url: string): Promise<string> {
    return (await fetch(url)).statusText;
}
/** #[watcher] */
export function watchResize(callback: (size: WindowSize) => void): () => void {
    const handler = () => callback({ width: window.innerWidth, height: window.innerHeight });
    window.addEventListener("resize", handler);
    return () => window.removeEventListener("resize", handler);
}
export function watchCustomSignal(callback: (v: number) => void): void {
    callback(1);
}
export async function processTags(tags: string[]): Promise<string[]> {
    return tags;
}
export async function fetchScores(ids: Array<string>): Promise<Array<number>> {
    return ids.map((id) => id.length);
}
"#;

/// The second bridge module.
const SECOND_TS: &str = "export async function secondaryHelper(): Promise<string> { return 'ok'; }";

fn exports_of(source: &str, input: &BindJsInput) -> Vec<ExportedFunction> {
    analyze_source(source, &input.file_path, &input.items, input.wildcard)
        .expect("module is accepted")
        .exports
}

fn bind(invocation: &str, source: &str) -> Vec<Binding> {
    let input = BindJsInput::parse(invocation).expect("invocation parses");
    let exports = exports_of(source, &input);
    match plan_bindings(&input, &exports) {
        Ok(v) => v,
        Err(e) => panic!("{}", e.message()),
    }
}

fn find<'a>(bindings: &'a [Binding], rust_name: &str) -> &'a Binding {
    bindings
        .iter()
        .find(|b| b.rust_name == rust_name)
        .unwrap_or_else(|| panic!("no binding named {rust_name}"))
}

fn types(b: &Binding) -> Vec<String> {
    b.param_types.iter().map(|t| t.to_token_string()).collect()
}

#[test]
fn test_wildcard_signatures() {
    let bindings = bind(r#""tests/fixtures/test_bridge.ts"::*"#, BRIDGE_TS);
    let names: Vec<&str> = bindings.iter().map(|b| b.rust_name.as_str()).collect();
    assert_eq!(
        names,
        vec![
            "focus_element",
            "scroll_to_position",
            "get_bounding_rect",
            "fetch_remote_title",
            "watch_resize",
            "watch_custom_signal",
            "process_tags",
            "fetch_scores",
        ]
    );

    let focus = find(&bindings, "focus_element");
    assert_eq!(focus.mode, InteropMode::Command);
    assert_eq!(focus.js_name, "focusElement");
    assert_eq!(types(focus), vec!["& str"]);

    let scroll = find(&bindings, "scroll_to_position");
    assert_eq!(scroll.mode, InteropMode::Command);
    assert_eq!(scroll.param_names, vec!["x", "y"]);
    assert_eq!(types(scroll), vec!["f64", "f64"]);

    let rect = find(&bindings, "get_bounding_rect");
    assert_eq!(rect.mode, InteropMode::Query);
    assert_eq!(types(rect), vec!["& str"]);
    assert_eq!(rect.return_type.to_token_string(), "Rect");

    let title = find(&bindings, "fetch_remote_title");
    assert_eq!(title.mode, InteropMode::Query);
    assert_eq!(title.return_type.to_token_string(), "String");

    let resize = find(&bindings, "watch_resize");
    assert_eq!(resize.mode, InteropMode::Watcher { is_raf: false });
    assert!(resize.param_types.is_empty());
    assert_eq!(resize.callback_arg_type.to_token_string(), "WindowSize");
}

#[test]
fn test_selective_signatures_and_renaming() {
    let bindings = bind(
        r#""tests/fixtures/test_bridge.ts"::{
            focus_element as focus,
            get_bounding_rect as get_rect,
            #[command] fetch_remote_title as fetch_ignore_ret,
            watch_resize as watch_window_resize
        }"#,
        BRIDGE_TS,
    );
    let names: Vec<&str> = bindings.iter().map(|b| b.rust_name.as_str()).collect();
    assert_eq!(names, vec!["focus", "get_rect", "fetch_ignore_ret", "watch_window_resize"]);
    assert_eq!(find(&bindings, "focus").mode, InteropMode::Command);
    assert_eq!(find(&bindings, "get_rect").js_name, "getBoundingRect");
    let fetch = find(&bindings, "fetch_ignore_ret");
    assert_eq!(fetch.mode, InteropMode::Command);
    assert_eq!(types(fetch), vec!["& str"]);
    assert_eq!(find(&bindings, "watch_window_resize").mode, InteropMode::Watcher { is_raf: false });
}

#[test]
fn test_camel_case_matching() {
    let bindings = bind(
        r#""tests/fixtures/test_bridge.ts"::{
            focusElement as direct_focus,
            fetchRemoteTitle as async_fetch
        }"#,
        BRIDGE_TS,
    );
    let focus = find(&bindings, "direct_focus");
    assert_eq!(focus.js_name, "focusElement");
    assert_eq!(types(focus), vec!["& str"]);
    assert_eq!(find(&bindings, "async_fetch").mode, InteropMode::Query);
}

#[test]
fn test_multi_invocation_hygiene() {
    let first = bind(r#""tests/fixtures/test_bridge.ts"::{ focus_element }"#, BRIDGE_TS);
    let second = bind(r#""tests/fixtures/test_bridge_second.ts"::{ secondary_helper }"#, SECOND_TS);
    assert_eq!(first.len(), 1);
    assert_eq!(first[0].rust_name, "focus_element");
    assert_eq!(second.len(), 1);
    assert_eq!(second[0].rust_name, "secondary_helper");
    assert_eq!(second[0].mode, InteropMode::Query);
    assert_eq!(second[0].return_type.to_token_string(), "String");
}

#[test]
fn test_macro_watcher_override_precedence() {
    let bindings = bind(
        r#""tests/fixtures/test_bridge.ts"::{
            #[watcher]
            fn watch_custom_signal as watch_signal,
        }"#,
        BRIDGE_TS,
    );
    assert_eq!(bindings.len(), 1);
    let watch = &bindings[0];
    assert_eq!(watch.rust_name, "watch_signal");
    assert_eq!(watch.js_name, "watchCustomSignal");
    assert_eq!(watch.mode, InteropMode::Watcher { is_raf: false });
    assert!(watch.param_types.is_empty());
    assert_eq!(watch.callback_arg_type.to_token_string(), "f64");
}

#[test]
fn test_camel_case_renaming_normalizes_to_snake_case() {
    let bindings = bind(
        r#""tests/fixtures/test_bridge.ts"::{
            focus_element as focusBox,
            getBoundingRect as getBoundingBox,
        }"#,
        BRIDGE_TS,
    );
    let names: Vec<&str> = bindings.iter().map(|b| b.rust_name.as_str()).collect();
    assert_eq!(names, vec!["focus_box", "get_bounding_box"]);
}

#[test]
fn test_array_generic_signatures() {
    let bindings = bind(r#""tests/fixtures/test_bridge.ts"::*"#, BRIDGE_TS);
    let tags = find(&bindings, "process_tags");
    assert_eq!(types(tags), vec!["& [& str]"]);
    assert_eq!(tags.return_type.to_token_string(), "Vec < String >");
    let scores = find(&bindings, "fetch_scores");
    assert_eq!(types(scores), vec!["& [& str]"]);
    assert_eq!(scores.return_type.to_token_string(), "Vec < f64 >");
}

#[test]
fn test_selective_with_wildcard_fallback() {
    let bindings = bind(
        r#""tests/fixtures/test_bridge.ts"::{
            focus_element as focus_renamed,
            #[command] fetch_remote_title as fetch_cmd,
            *
        }"#,
        BRIDGE_TS,
    );
    assert_eq!(bindings.len(), 8);
    assert_eq!(find(&bindings, "focus_renamed").js_name, "focusElement");
    assert_eq!(find(&bindings, "fetch_cmd").mode, InteropMode::Command);
    let scroll = find(&bindings, "scroll_to_position");
    assert_eq!(scroll.mode, InteropMode::Command);
    assert_eq!(types(scroll), vec!["f64", "f64"]);
    assert!(bindings.iter().all(|b| b.rust_name != "focus_element"));
}

#[test]
fn unmatched_item_is_reported_with_the_file() {
    let input = BindJsInput::parse(r#""src/dom.ts"::{ focus_element, missing_thing }"#).unwrap();
    let exports = exports_of(BRIDGE_TS, &input);
    let err = plan_bindings(&input, &exports).unwrap_err();
    assert_eq!(err.item_name, "missing_thing");
    assert_eq!(err.file_path, "src/dom.ts");
    assert_eq!(
        err.message(),
        "Function 'missing_thing' was not found in exported functions of 'src/dom.ts'"
    );
}

#[test]
fn doc_comment_is_carried_to_the_binding() {
    let source = "/** Focus an element. */\nexport function focusElement(elementId: string): void {}";
    let bindings = bind(r#""a.ts"::*"#, source);
    assert_eq!(bindings[0].param_names, vec!["element_id"]);
    assert_eq!(bindings[0].doc, "Focus an element.");
}

#[test]
fn export_keys_joins_names() {
    let all = exports_of(BRIDGE_TS, &BindJsInput::parse(r#""a.ts"::*"#).unwrap());
    assert_eq!(
        export_keys(&all),
        "focusElement, scrollToPosition, getBoundingRect, fetchRemoteTitle, watchResize, watchCustomSignal, processTags, fetchScores"
    );
    let two = exports_of(
        "export function a(): void {}\nexport const b = (): number => 1;",
        &BindJsInput::parse(r#""a.ts"::*"#).unwrap(),
    );
    assert_eq!(export_keys(&two), "a, b");
    assert_eq!(export_keys(&Vec::new()), "");
}
