use oxidase::syntax::{BindJsInput, InteropMode, ParseError};

#[test]
fn test_parse_wildcard() {
    let input = BindJsInput::parse(r#""src/dom.ts"::*"#).unwrap();
    assert_eq!(input.file_path, "src/dom.ts");
    assert!(input.wildcard);
    assert!(input.items.is_empty());
}

#[test]
fn test_parse_block() {
    let input = BindJsInput::parse(
        r#"
            "src/dom.ts":: {
                focusElement,
                #[command] playSound as play_sound,
                #[query] getRect,
                #[watcher] watchScroll as on_scroll,
                #[watcher(raf)] watchResize as on_resize,
                *
            }
            "#,
    )
    .unwrap();

    assert_eq!(input.file_path, "src/dom.ts");
    assert!(input.wildcard);
    assert_eq!(input.items.len(), 5);

    assert_eq!(input.items[0].original_name, "focusElement");
    assert_eq!(input.items[0].mode, None);
    assert_eq!(input.items[0].rename_as, None);

    assert_eq!(input.items[1].original_name, "playSound");
    assert_eq!(input.items[1].mode, Some(InteropMode::Command));
    assert_eq!(input.items[1].rename_as.as_ref().unwrap().to_string(), "play_sound");

    assert_eq!(input.items[2].original_name, "getRect");
    assert_eq!(input.items[2].mode, Some(InteropMode::Query));

    assert_eq!(input.items[3].original_name, "watchScroll");
    assert_eq!(input.items[3].mode, Some(InteropMode::Watcher { is_raf: false }));
    assert_eq!(input.items[3].rename_as.as_ref().unwrap().to_string(), "on_scroll");

    assert_eq!(input.items[4].original_name, "watchResize");
    assert_eq!(input.items[4].mode, Some(InteropMode::Watcher { is_raf: true }));
    assert_eq!(input.items[4].rename_as.as_ref().unwrap().to_string(), "on_resize");
}

#[test]
fn parse_wildcard_with_semicolon_and_comments() {
    let input = BindJsInput::parse("// bridge\n\"a.ts\" :: * ; /* done */").unwrap();
    assert_eq!(input.file_path, "a.ts");
    assert!(input.wildcard);
}

#[test]
fn parse_selective_without_wildcard() {
    let input = BindJsInput::parse(r#""b.ts"::{ fn focus_element as focus, get_rect }"#).unwrap();
    assert!(!input.wildcard);
    assert_eq!(input.items.len(), 2);
    assert_eq!(input.items[0].original_name, "focus_element");
    assert_eq!(input.items[0].rename_as.as_deref(), Some("focus"));
    assert_eq!(input.items[1].original_name, "get_rect");
    assert_eq!(input.items[1].rename_as, None);
}

#[test]
fn parse_items_without_commas() {
    let input = BindJsInput::parse(r#""b.ts"::{ a b }"#).unwrap();
    assert_eq!(input.items.len(), 2);
    assert_eq!(input.items[1].original_name, "b");
}

#[test]
fn parse_monitor_alias_and_last_attribute_wins() {
    let input = BindJsInput::parse(r#""b.ts"::{ #[monitor(raf,)] m, #[query] #[command] c, #[watcher()] w }"#).unwrap();
    assert_eq!(input.items[0].mode, Some(InteropMode::Watcher { is_raf: true }));
    assert_eq!(input.items[1].mode, Some(InteropMode::Command));
    assert_eq!(input.items[2].mode, Some(InteropMode::Watcher { is_raf: false }));
}

#[test]
fn parse_string_escapes() {
    let input = BindJsInput::parse(r#""a\"b\\c\x41\n"::*"#).unwrap();
    assert_eq!(input.file_path, "a\"b\\cA\n");
}

#[test]
fn parse_raw_identifier_item() {
    let input = BindJsInput::parse(r#""b.ts"::{ r#type }"#).unwrap();
    assert_eq!(input.items[0].original_name, "r#type");
}

#[test]
fn parse_rejects_unknown_attribute() {
    assert_eq!(
        BindJsInput::parse(r#""b.ts"::{ #[inline] f }"#).unwrap_err(),
        ParseError::UnknownAttribute
    );
}

#[test]
fn parse_rejects_unknown_watcher_argument() {
    assert_eq!(
        BindJsInput::parse(r#""b.ts"::{ #[watcher(fast)] f }"#).unwrap_err(),
        ParseError::UnknownWatcherArgument
    );
}

#[test]
fn parse_rejects_keyword_names_and_trailing_tokens() {
    assert_eq!(BindJsInput::parse(r#""b.ts"::{ fn }"#).unwrap_err(), ParseError::Syntax);
    assert_eq!(BindJsInput::parse(r#""b.ts"::{ f as type }"#).unwrap_err(), ParseError::Syntax);
    assert_eq!(BindJsInput::parse(r#""b.ts"::* x"#).unwrap_err(), ParseError::Syntax);
    assert_eq!(BindJsInput::parse(r#"b::*"#).unwrap_err(), ParseError::Syntax);
    assert_eq!(BindJsInput::parse(r#""b.ts": :*"#).unwrap_err(), ParseError::Syntax);
}

#[test]
fn parse_rejects_bad_tokens() {
    assert_eq!(BindJsInput::parse(r#""b.ts"::{ f ]"#).unwrap_err(), ParseError::Lex);
    assert_eq!(BindJsInput::parse(r#""unterminated::*"#).unwrap_err(), ParseError::Lex);
    assert_eq!(BindJsInput::parse("\"b.ts\"::{ //! inner\n f }").unwrap_err(), ParseError::Lex);
}

#[test]
fn doc_comments_on_items_are_unknown_attributes() {
    assert_eq!(BindJsInput::parse("\"b.ts\"::{ /// doc\n f }").unwrap_err(), ParseError::UnknownAttribute);
    assert_eq!(BindJsInput::parse("\"b.ts\"::{ /** doc */ f }").unwrap_err(), ParseError::UnknownAttribute);
    let plain = BindJsInput::parse("\"b.ts\"::{ //// note\n f /**/ /*** note */ }").unwrap();
    assert_eq!(plain.items.len(), 1);
    assert_eq!(plain.items[0].original_name, "f");
}

#[test]
fn parse_error_messages() {
    assert!(ParseError::UnknownAttribute.message().contains("Allowed: #[command], #[query], #[watcher], #[watcher(raf)]"));
    assert!(ParseError::UnknownWatcherArgument.message().contains("Allowed: #[watcher(raf)]"));
}

#[test]
fn parse_name_value_attributes_with_any_value() {
    let input = BindJsInput::parse(r#""f.ts"::{ #[command = x] f, #[watcher = 1 + 2] w, #[query = "q"] q }"#).unwrap();
    assert_eq!(input.items.len(), 3);
    assert_eq!(input.items[0].mode, Some(InteropMode::Command));
    assert_eq!(input.items[0].original_name, "f");
    assert_eq!(input.items[1].mode, Some(InteropMode::Watcher { is_raf: false }));
    assert_eq!(input.items[2].mode, Some(InteropMode::Query));
    assert_eq!(
        BindJsInput::parse(r#""f.ts"::{ #[bogus = x] f }"#).unwrap_err(),
        ParseError::UnknownAttribute
    );
    assert_eq!(BindJsInput::parse(r#""f.ts"::{ #[command =] f }"#).unwrap_err(), ParseError::Syntax);
}

#[test]
fn parse_raw_string_paths() {
    let input = BindJsInput::parse(r##"r#"src/"dom".ts"#::*"##).unwrap();
    assert_eq!(input.file_path, "src/\"dom\".ts");
    assert!(input.wildcard);
    let plain = BindJsInput::parse(r#"r"a\b.ts"::{ f }"#).unwrap();
    assert_eq!(plain.file_path, "a\\b.ts");
    assert_eq!(BindJsInput::parse(r###"r#"a.ts"##::*"###).unwrap_err(), ParseError::Lex);
    assert_eq!(BindJsInput::parse(r###"r##"a.ts"#::*"###).unwrap_err(), ParseError::Lex);
}

#[test]
fn parse_unicode_escapes_in_paths() {
    let input = BindJsInput::parse(r#""\u{1F600}_\u{e9}.ts"::*"#).unwrap();
    assert_eq!(input.file_path, "\u{1F600}_\u{e9}.ts");
    assert_eq!(BindJsInput::parse(r#""\u{1_F6_00}.ts"::*"#).unwrap().file_path, "\u{1F600}.ts");
    assert_eq!(BindJsInput::parse(r#""\u{D800}.ts"::*"#).unwrap_err(), ParseError::Lex);
    assert_eq!(BindJsInput::parse(r#""\u{110000}.ts"::*"#).unwrap_err(), ParseError::Lex);
    assert_eq!(BindJsInput::parse(r#""\u{}.ts"::*"#).unwrap_err(), ParseError::Lex);
    assert_eq!(BindJsInput::parse(r#""\u{_1}.ts"::*"#).unwrap_err(), ParseError::Lex);
    assert_eq!(BindJsInput::parse(r#""\u{1234567}.ts"::*"#).unwrap_err(), ParseError::Lex);
}

#[test]
fn parse_non_ascii_identifiers() {
    let input = BindJsInput::parse(r#""f.ts"::{ größe as grosse, 名前, _ß1 }"#).unwrap();
    assert_eq!(input.items.len(), 3);
    assert_eq!(input.items[0].original_name, "größe");
    assert_eq!(input.items[0].rename_as.as_deref(), Some("grosse"));
    assert_eq!(input.items[1].original_name, "名前");
    assert_eq!(input.items[2].original_name, "_ß1");
    assert_eq!(BindJsInput::parse(r#""f.ts"::{ €uro }"#).unwrap_err(), ParseError::Lex);
}
