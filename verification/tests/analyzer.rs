use std::hash::{Hash, Hasher};
use oxidase::analyzer::{
    determine_mode, extract_comment_mode, find_macro_override, is_item_targeted, parse_param_type,
    parse_return_type,
};
use oxidase::exports::{analyze_exports, analyze_source, module_hash, AnalyzeError};
use oxidase::syntax::{InteropMode, ItemSpec};
use oxidase::ts_model::{
    TsKeyword, TsModule, TsModuleItem, TsParam, TsSignature, TypeAnn, TsVarDecl, TsVarInit,
};
use oxidase::type_map::{map_ts_to_rust_param, map_ts_to_rust_return};

fn kw(k: TsKeyword) -> TypeAnn {
    TypeAnn::Keyword(k)
}

fn type_ref(name: &str, args: Option<Vec<TypeAnn>>) -> TypeAnn {
    TypeAnn::TypeRef(name.to_string(), args)
}

fn param(name: &str, ty: Option<TypeAnn>) -> TsParam {
    TsParam { name: Some(name.to_string()), ty }
}

fn sig(params: Vec<TsParam>, ret: Option<TypeAnn>, is_async: bool) -> TsSignature {
    TsSignature { params, return_type: ret, is_async }
}

fn export_fn(name: &str, s: TsSignature, comments: &[&str]) -> TsModuleItem {
    TsModuleItem::ExportFn(name.to_string(), s, comments.iter().map(|c| c.to_string()).collect())
}

fn item(name: &str, mode: Option<InteropMode>) -> ItemSpec {
    ItemSpec { mode, original_name: name.to_string(), rename_as: None }
}

/// `export function curried(x: number): (y: number) => number`
fn curried() -> TsModuleItem {
    export_fn(
        "curried",
        sig(
            vec![param("x", Some(kw(TsKeyword::Number)))],
            Some(TypeAnn::FnType(Some(Box::new(kw(TsKeyword::Number))))),
            false,
        ),
        &[],
    )
}

/// `export function test(): void {}`
fn void_test() -> TsModuleItem {
    export_fn("test", sig(vec![], Some(kw(TsKeyword::Void)), false), &[])
}

#[test]
fn test_reject_top_level_import() {
    let ts = r#"
            import { something } from 'other';
            export function test(): void {}
        "#;
    let res = analyze_source(ts, "test.ts", &vec![], true);
    assert!(res.is_err());
    assert!(res.unwrap_err().message().contains("Top-level static import is not supported"));
}

#[test]
fn test_reject_default_export() {
    let ts = r#"
            export default function test(): void {}
        "#;
    let res = analyze_source(ts, "test.ts", &vec![], true);
    assert!(res.is_err());
    assert!(res.unwrap_err().message().contains("Default exports are not supported"));
}

#[test]
fn test_reject_higher_order_function() {
    let ts = r#"
            export function curried(x: number): (y: number) => number {
                return (y) => x + y;
            }
        "#;
    let res = analyze_source(ts, "test.ts", &vec![], true);
    assert!(res.is_err());
    assert!(res.unwrap_err().message().contains("Higher-order functions"));
}

#[test]
fn test_selective_import_ignores_untargeted_higher_order_function() {
    let ts = r#"
            export function normalAction(): void {}
            export function curried(x: number): (y: number) => number {
                return (y) => x + y;
            }
        "#;
    let macro_items = vec![ItemSpec { mode: None, original_name: "normalAction".to_string(), rename_as: None }];
    // wildcard = false: curried is not in macro_items, so it should NOT error!
    let res = analyze_source(ts, "test.ts", &macro_items, false);
    assert!(res.is_ok(), "Untargeted higher-order function must be ignored when wildcard is false");
}

#[test]
fn test_macro_watcher_override_permits_higher_order_function() {
    let ts = r#"
            export function watchCustom(x: number): () => void {
                return () => {};
            }
        "#;
    let macro_items = vec![ItemSpec {
        mode: Some(InteropMode::Watcher { is_raf: false }),
        original_name: "watchCustom".to_string(),
        rename_as: None,
    }];
    let res = analyze_source(ts, "test.ts", &macro_items, true);
    assert!(res.is_ok(), "Macro #[watcher] must permit higher-order cleanup return");
    let analyzed = res.unwrap();
    assert_eq!(analyzed.exports[0].mode, InteropMode::Watcher { is_raf: false });
}

#[test]
fn test_analyze_command_query_watcher() {
    let ts = r#"
            // #[command]
            export function focusElement(id: string): void {
                document.getElementById(id)?.focus();
            }

            export async function getBoundingRect(id: string): Promise<Rect> {
                return { x: 0, y: 0 };
            }

            // #[watcher]
            export function watchScroll(emit: (scrollY: number) => void): () => void {
                const handler = () => emit(window.scrollY);
                window.addEventListener('scroll', handler);
                return () => window.removeEventListener('scroll', handler);
            }

            /**
             * #[watcher(raf)]
             */
            export function watchResize(emit: (w: number) => void): () => void {
                return () => {};
            }
        "#;

    let res = analyze_source(ts, "test.ts", &vec![], true).unwrap();
    assert_eq!(res.exports.len(), 4);

    // Command
    assert_eq!(res.exports[0].name, "focusElement");
    assert_eq!(res.exports[0].mode, InteropMode::Command);
    assert_eq!(res.exports[0].params.len(), 1);
    assert_eq!(res.exports[0].params[0].name, "id");

    // Query
    assert_eq!(res.exports[1].name, "getBoundingRect");
    assert_eq!(res.exports[1].mode, InteropMode::Query);
    assert!(res.exports[1].return_rust_type.is_some());

    // Watcher (Immediate)
    assert_eq!(res.exports[2].name, "watchScroll");
    assert_eq!(res.exports[2].mode, InteropMode::Watcher { is_raf: false });
    assert!(res.exports[2].params[0].is_callback);

    // Watcher (rAF coalesced)
    assert_eq!(res.exports[3].name, "watchResize");
    assert_eq!(res.exports[3].mode, InteropMode::Watcher { is_raf: true });
    assert!(res.exports[3].params[0].is_callback);

    // Inlined JS contains pure JS without types
    println!("INLINED JS:\n{}", res.inlined_js);
    assert!(!res.inlined_js.contains(": string"));
}

#[test]
fn test_array_generic_and_bracket_syntax_parity() {
    let ts = r#"
            export function processBrackets(items: string[]): number[] {
                return [items.length];
            }

            export function processGenerics(items: Array<string>): Array<number> {
                return [items.length];
            }

            export async function fetchArrayAsync(): Promise<Array<string>> {
                return ["a", "b"];
            }
        "#;

    let res = analyze_source(ts, "test.ts", &vec![], true).unwrap();
    assert_eq!(res.exports.len(), 3);

    // Bracket syntax (T[])
    assert_eq!(res.exports[0].name, "processBrackets");
    assert_eq!(res.exports[0].params[0].rust_param_type.to_token_string(), "& [& str]");
    assert_eq!(res.exports[0].return_rust_type.as_ref().unwrap().to_token_string(), "Vec < f64 >");

    // Generic syntax (Array<T>)
    assert_eq!(res.exports[1].name, "processGenerics");
    assert_eq!(res.exports[1].params[0].rust_param_type.to_token_string(), "& [& str]");
    assert_eq!(res.exports[1].return_rust_type.as_ref().unwrap().to_token_string(), "Vec < f64 >");

    // Async Query returning Promise<Array<T>>
    assert_eq!(res.exports[2].name, "fetchArrayAsync");
    assert_eq!(res.exports[2].return_rust_type.as_ref().unwrap().to_token_string(), "Vec < String >");
}

#[test]
fn exported_arrow_function_const_is_bound() {
    // /** Scrolls. */ export const scrollTo = async (x: number, y: number): Promise<void> => {}
    let decl = TsVarDecl {
        name: Some("scrollTo".to_string()),
        init: TsVarInit::Function(sig(
            vec![param("x", Some(kw(TsKeyword::Number))), param("y", Some(kw(TsKeyword::Number)))],
            Some(type_ref("Promise", Some(vec![kw(TsKeyword::Void)]))),
            true,
        )),
        comments: vec!["* Scrolls. ".to_string()],
    };
    let plain = TsVarDecl { name: Some("LIMIT".to_string()), init: TsVarInit::NotFunction, comments: vec![] };
    let module = TsModule { items: vec![TsModuleItem::ExportVar(vec![plain, decl]), TsModuleItem::Other] };
    let res = analyze_exports(&module, &vec![], true).unwrap();
    assert_eq!(res.len(), 1);
    assert_eq!(res[0].name, "scrollTo");
    assert_eq!(res[0].mode, InteropMode::Query);
    assert!(res[0].return_rust_type.is_none());
    assert_eq!(res[0].doc_comment.as_deref(), Some("Scrolls."));
    assert_eq!(res[0].params[1].rust_param_type.to_token_string(), "f64");
}

#[test]
fn comment_mode_last_annotation_wins_and_docs_join() {
    let comments = vec![
        "* Focuses the element.".to_string(),
        " #[query]".to_string(),
        " second line".to_string(),
        " #[monitor]".to_string(),
        "# not documentation".to_string(),
    ];
    let (mode, doc) = extract_comment_mode(&comments);
    assert_eq!(mode, Some(InteropMode::Watcher { is_raf: false }));
    assert_eq!(doc.as_deref(), Some("Focuses the element.\nsecond line"));
    let (mode, doc) = extract_comment_mode(&vec![]);
    assert_eq!(mode, None);
    assert_eq!(doc, None);
}

#[test]
fn determine_mode_priorities() {
    let w = InteropMode::Watcher { is_raf: true };
    assert_eq!(determine_mode(Some(InteropMode::Command), Some(w), true, true, false), InteropMode::Command);
    assert_eq!(determine_mode(None, Some(w), false, false, true), w);
    assert_eq!(determine_mode(None, None, false, true, true), InteropMode::Query);
    assert_eq!(determine_mode(None, None, true, false, false), InteropMode::Query);
    assert_eq!(determine_mode(None, None, true, false, true), InteropMode::Command);
    assert_eq!(determine_mode(None, None, false, false, true), InteropMode::Command);
    assert_eq!(determine_mode(None, None, false, false, false), InteropMode::Query);
}

#[test]
fn item_targeting_matches_across_cases() {
    let items = vec![item("focus_element", Some(InteropMode::Command)), item("getRect", None)];
    assert!(is_item_targeted("focusElement", &items, false));
    assert!(is_item_targeted("get_rect", &items, false));
    assert!(!is_item_targeted("scrollTo", &items, false));
    assert!(is_item_targeted("scrollTo", &items, true));
    assert_eq!(find_macro_override("focusElement", &items), Some(InteropMode::Command));
    assert_eq!(find_macro_override("getRect", &items), None);
    assert_eq!(find_macro_override("scrollTo", &items), None);
}

#[test]
fn type_mapping_exact_renderings() {
    let tuple_same = TypeAnn::Tuple(vec![kw(TsKeyword::Number), kw(TsKeyword::Number), kw(TsKeyword::Number)]);
    assert_eq!(map_ts_to_rust_param(&tuple_same).to_token_string(), "[f64 ; 3usize]");
    let tuple_mixed = TypeAnn::Tuple(vec![kw(TsKeyword::Number), kw(TsKeyword::String)]);
    assert_eq!(map_ts_to_rust_return(&tuple_mixed).to_token_string(), "(f64 , String)");
    assert_eq!(map_ts_to_rust_return(&TypeAnn::Tuple(vec![])).to_token_string(), "()");
    let lits = TypeAnn::Union(vec![TypeAnn::StrLit, TypeAnn::StrLit]);
    assert_eq!(map_ts_to_rust_param(&lits).to_token_string(), "& str");
    assert_eq!(map_ts_to_rust_return(&lits).to_token_string(), "String");
    let optional = TypeAnn::Union(vec![kw(TsKeyword::Number), kw(TsKeyword::Undefined), kw(TsKeyword::Null)]);
    assert_eq!(map_ts_to_rust_param(&optional).to_token_string(), "Option < f64 >");
    let mixed = TypeAnn::Union(vec![kw(TsKeyword::Number), kw(TsKeyword::String)]);
    assert_eq!(map_ts_to_rust_param(&mixed).to_token_string(), ":: oxidase :: serde_json :: Value");
    assert_eq!(map_ts_to_rust_param(&type_ref("Rect", None)).to_token_string(), "& Rect");
    assert_eq!(map_ts_to_rust_return(&type_ref("Rect", None)).to_token_string(), "Rect");
    assert_eq!(map_ts_to_rust_param(&kw(TsKeyword::Boolean)).to_token_string(), "bool");
    assert_eq!(map_ts_to_rust_return(&kw(TsKeyword::Void)).to_token_string(), "()");
    assert_eq!(map_ts_to_rust_param(&kw(TsKeyword::Void)).to_token_string(), ":: oxidase :: serde_json :: Value");
    let qualified = TypeAnn::TypeRef("A.B".to_string(), None);
    assert_eq!(map_ts_to_rust_return(&qualified).to_token_string(), ":: oxidase :: serde_json :: Value");
    let nested = TypeAnn::Array(Box::new(TypeAnn::Tuple(vec![kw(TsKeyword::String), kw(TsKeyword::String)])));
    assert_eq!(map_ts_to_rust_param(&nested).to_token_string(), "& [[& str ; 2usize]]");
}

#[test]
fn param_and_return_info() {
    let cb = TypeAnn::FnType(Some(Box::new(type_ref("Size", None))));
    let p = parse_param_type("onResize", Some(&cb));
    assert!(p.is_callback);
    assert_eq!(p.rust_param_type.to_token_string(), "");
    assert_eq!(p.callback_arg_type.unwrap().to_token_string(), "Size");
    let untyped = parse_param_type("x", None);
    assert!(!untyped.is_callback);
    assert_eq!(untyped.rust_param_type.to_token_string(), ":: oxidase :: serde_json :: Value");

    let none = parse_return_type(None);
    assert!(none.rust_type.is_none() && !none.is_promise && none.is_void && !none.is_fn);
    let pv = type_ref("Promise", Some(vec![kw(TsKeyword::Void)]));
    let r = parse_return_type(Some(&pv));
    assert!(r.rust_type.is_none() && r.is_promise && r.is_void);
    let bare = type_ref("Promise", None);
    let r = parse_return_type(Some(&bare));
    assert!(r.rust_type.is_none() && r.is_promise && r.is_void);
    let undef = kw(TsKeyword::Undefined);
    assert!(parse_return_type(Some(&undef)).is_void);
    let ctor = TypeAnn::ConstructorType;
    assert!(parse_return_type(Some(&ctor)).is_fn);
}

#[test]
fn module_hash_is_lowercase_hex_and_deterministic() {
    let a = module_hash("test.ts", "export function f(): void {}");
    let b = module_hash("test.ts", "export function f(): void {}");
    let c = module_hash("other.ts", "export function f(): void {}");
    assert_eq!(a, b);
    assert_ne!(a, c);
    assert!(!a.is_empty() && a.len() <= 16);
    assert!(a.chars().all(|ch| ch.is_ascii_digit() || ('a'..='f').contains(&ch)));
    // Same digest as hashing the two strings with `Hash` into a `DefaultHasher`.
    let mut h = std::collections::hash_map::DefaultHasher::new();
    "test.ts".hash(&mut h);
    "export function f(): void {}".hash(&mut h);
    assert_eq!(a, format!("{:x}", h.finish()));
}

#[test]
fn analyze_error_variants() {
    assert_ne!(AnalyzeError::TopLevelImport, AnalyzeError::DefaultExport);
    assert!(AnalyzeError::HigherOrderFunction.message().contains("#[watcher]"));
}

#[test]
fn analyze_source_combines_exports_hash_and_script() {
    let src = "export function test(): void {}";
    let analyzed = analyze_source(src, "test.ts", &vec![], true).unwrap();
    assert_eq!(analyzed.module_hash, module_hash("test.ts", src));
    assert_eq!(analyzed.inlined_js.trim(), "function test() {}");
    assert_eq!(analyzed.exports.len(), 1);
    assert_eq!(analyzed.exports[0].name, "test");
    assert_eq!(analyzed.exports[0].mode, InteropMode::Command);

    let err = analyze_source("export function (", "test.ts", &vec![], true);
    assert_eq!(err.unwrap_err(), AnalyzeError::Parse);
}

#[test]
fn stripped_script_drops_types_and_exports() {
    let src = "export const scale = (x: number, factor: number = 2): number => x * factor;\ninterface Shape { w: number }\nexport function area(s: Shape): number { return s.w * s.w; }";
    let analyzed = analyze_source(src, "shapes.ts", &vec![], true).unwrap();
    let js = analyzed.inlined_js;
    assert!(js.contains("const scale = (x, factor = 2)=>x * factor;"), "{js}");
    assert!(js.contains("function area(s) {"), "{js}");
    assert!(!js.contains("export"), "{js}");
    assert!(!js.contains("interface"), "{js}");
    assert!(!js.contains(": number"), "{js}");
}

#[test]
fn source_reading_covers_consts_comments_and_patterns() {
    let ts = r#"
        /** Scrolls the page. */
        export const scrollTo = async (x: number, { y }: { y: number }): Promise<void> => {};
        export const LIMIT = 3;
        export function pick(mode: "a" | "b", tag?: string | null, pair?: [number, number], ns?: A.B): ns.Thing {
            return null as any;
        }
        function hidden(): void {}
    "#;
    let res = analyze_source(ts, "test.ts", &vec![], true).unwrap();
    assert_eq!(res.exports.len(), 2);
    let scroll = &res.exports[0];
    assert_eq!(scroll.name, "scrollTo");
    assert_eq!(scroll.mode, InteropMode::Query);
    assert!(scroll.return_rust_type.is_none());
    assert_eq!(scroll.doc_comment.as_deref(), Some("Scrolls the page."));
    assert_eq!(scroll.params[1].name, "_");
    let pick = &res.exports[1];
    let types: Vec<String> = pick.params.iter().map(|p| p.rust_param_type.to_token_string()).collect();
    assert_eq!(types, vec!["& str", "Option < & str >", "[f64 ; 2usize]", ":: oxidase :: serde_json :: Value"]);
    assert_eq!(pick.return_rust_type.as_ref().unwrap().to_token_string(), ":: oxidase :: serde_json :: Value");
}

#[test]
fn function_const_binds_like_function_declaration() {
    let make_sig = || {
        sig(
            vec![param("id", Some(kw(TsKeyword::String)))],
            Some(TypeAnn::FnType(None)),
            false,
        )
    };
    let comments = vec![" #[watcher]".to_string(), "* Watches.".to_string()];
    let as_const = TsModule {
        items: vec![TsModuleItem::ExportVar(vec![TsVarDecl {
            name: Some("watchThing".to_string()),
            init: TsVarInit::Function(make_sig()),
            comments: comments.clone(),
        }])],
    };
    let as_fn = TsModule {
        items: vec![TsModuleItem::ExportFn("watchThing".to_string(), make_sig(), comments)],
    };
    let a = analyze_exports(&as_const, &vec![], true).unwrap();
    let b = analyze_exports(&as_fn, &vec![], true).unwrap();
    assert_eq!(a.len(), 1);
    assert_eq!(b.len(), 1);
    assert_eq!(a[0].name, b[0].name);
    assert_eq!(a[0].mode, b[0].mode);
    assert_eq!(a[0].mode, InteropMode::Watcher { is_raf: false });
    assert_eq!(a[0].doc_comment, b[0].doc_comment);
    assert_eq!(a[0].params.len(), b[0].params.len());

    // Without the annotation both are refused the same way.
    let bare_const = TsModule {
        items: vec![TsModuleItem::ExportVar(vec![TsVarDecl {
            name: Some("watchThing".to_string()),
            init: TsVarInit::Function(make_sig()),
            comments: vec![],
        }])],
    };
    let bare_fn = TsModule {
        items: vec![TsModuleItem::ExportFn("watchThing".to_string(), make_sig(), vec![])],
    };
    assert_eq!(analyze_exports(&bare_const, &vec![], true).unwrap_err(), AnalyzeError::HigherOrderFunction);
    assert_eq!(analyze_exports(&bare_fn, &vec![], true).unwrap_err(), AnalyzeError::HigherOrderFunction);
}
