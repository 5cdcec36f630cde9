//! The `bind_js!` input language:
//!
//! ```text
//! "path/to/file.ts" :: *
//! "path/to/file.ts" :: { item, #[command] other as renamed, #[watcher(raf)] w, * }
//! ```
//!
//! An item is a list of attributes (`#[command]`, `#[query]`, `#[watcher]`,
//! `#[watcher(raf)]`, `#[monitor]`, `#[monitor(raf)]`), an optional `fn`, the exported name
//! and an optional `as` rename; items are separated by optional commas, and a `*` among them
//! also imports every other export. An optional `;` may end the input.
use vstd::prelude::*;
use crate::lexer::{Token, TokenV, tokens_view, tokenize, tokenize_spec};
use crate::text::{chars_eq_str, chars_of, string_of};

verus! {

/// How a bound TypeScript function is exposed to Rust.
#[derive(Debug, Clone, Copy, PartialEq, Eq, Structural)]
pub enum InteropMode {
    /// Fire-and-forget call with no result.
    Command,
    /// Asynchronous call returning a value.
    Query,
    /// Long-lived subscription streaming events; `is_raf` coalesces events per animation frame.
    Watcher { is_raf: bool },
}

/// One item of a `bind_js!` block.
#[derive(Debug, Clone)]
pub struct ItemSpec {
    pub mode: Option<InteropMode>,
    pub original_name: String,
    pub rename_as: Option<String>,
}

/// A parsed `bind_js!` invocation.
#[derive(Debug, Clone)]
pub struct BindJsInput {
    pub file_path: String,
    pub wildcard: bool,
    pub items: Vec<ItemSpec>,
}

/// Why an input is not a `bind_js!` invocation.
#[derive(Debug, Clone, Copy, PartialEq, Eq, Structural)]
pub enum ParseError {
    /// A character sequence that is not a token of the language, or unbalanced delimiters.
    Lex,
    /// The tokens do not follow the grammar.
    Syntax,
    /// An item attribute other than `command`, `query`, `watcher` and `monitor`.
    UnknownAttribute,
    /// A `watcher`/`monitor` argument other than `raf`.
    UnknownWatcherArgument,
}

impl ParseError {
    /// The diagnostic reported for this error.
    pub fn message(&self) -> (res: String)
        ensures
            res@ == parse_error_message(*self),
    {
        match self {
            ParseError::Lex => string_of(&chars_of("unexpected or unbalanced token in bind_js! input")),
            ParseError::Syntax => string_of(
                &chars_of(
                    "expected `\"path\"::*` or `\"path\"::{ items }` with items `#[attr] fn name as alias`",
                ),
            ),
            ParseError::UnknownAttribute => string_of(
                &chars_of(
                    "Unknown attribute for bind_js item. Allowed: #[command], #[query], #[watcher], #[watcher(raf)]",
                ),
            ),
            ParseError::UnknownWatcherArgument => string_of(
                &chars_of("Unknown watcher attribute argument. Allowed: #[watcher(raf)]"),
            ),
        }
    }
}

pub open spec fn parse_error_message(e: ParseError) -> Seq<char> {
    match e {
        ParseError::Lex => "unexpected or unbalanced token in bind_js! input"@,
        ParseError::Syntax => "expected `\"path\"::*` or `\"path\"::{ items }` with items `#[attr] fn name as alias`"@,
        ParseError::UnknownAttribute => "Unknown attribute for bind_js item. Allowed: #[command], #[query], #[watcher], #[watcher(raf)]"@,
        ParseError::UnknownWatcherArgument => "Unknown watcher attribute argument. Allowed: #[watcher(raf)]"@,
    }
}

/// Value of an [`ItemSpec`].
pub struct ItemSpecV {
    pub mode: Option<InteropMode>,
    pub original_name: Seq<char>,
    pub rename_as: Option<Seq<char>>,
}

/// Value of a [`BindJsInput`].
pub struct BindJsInputV {
    pub file_path: Seq<char>,
    pub wildcard: bool,
    pub items: Seq<ItemSpecV>,
}

pub open spec fn opt_string_view(o: Option<String>) -> Option<Seq<char>> {
    match o {
        Some(s) => Some(s@),
        None => None,
    }
}

impl View for ItemSpec {
    type V = ItemSpecV;

    open spec fn view(&self) -> ItemSpecV {
        ItemSpecV {
            mode: self.mode,
            original_name: self.original_name@,
            rename_as: opt_string_view(self.rename_as),
        }
    }
}

pub open spec fn items_view(v: Seq<ItemSpec>) -> Seq<ItemSpecV> {
    v.map_values(|i: ItemSpec| i@)
}

impl View for BindJsInput {
    type V = BindJsInputV;

    open spec fn view(&self) -> BindJsInputV {
        BindJsInputV {
            file_path: self.file_path@,
            wildcard: self.wildcard,
            items: items_view(self.items@),
        }
    }
}

// ------------------------------------------------------------------ grammar (spec)

/// Words that are not accepted as item names or renames.
pub open spec fn is_keyword(w: Seq<char>) -> bool {
    ||| w == "_"@ ||| w == "abstract"@ ||| w == "as"@ ||| w == "async"@ ||| w == "await"@
    ||| w == "become"@ ||| w == "box"@ ||| w == "break"@ ||| w == "const"@ ||| w == "continue"@
    ||| w == "crate"@ ||| w == "do"@ ||| w == "dyn"@ ||| w == "else"@ ||| w == "enum"@
    ||| w == "extern"@ ||| w == "false"@ ||| w == "final"@ ||| w == "fn"@ ||| w == "for"@
    ||| w == "if"@ ||| w == "impl"@ ||| w == "in"@ ||| w == "let"@ ||| w == "loop"@
    ||| w == "macro"@ ||| w == "match"@ ||| w == "mod"@ ||| w == "move"@ ||| w == "mut"@
    ||| w == "override"@ ||| w == "priv"@ ||| w == "pub"@ ||| w == "ref"@ ||| w == "return"@
    ||| w == "Self"@ ||| w == "self"@ ||| w == "static"@ ||| w == "struct"@ ||| w == "super"@
    ||| w == "trait"@ ||| w == "true"@ ||| w == "try"@ ||| w == "type"@ ||| w == "typeof"@
    ||| w == "unsafe"@ ||| w == "unsized"@ ||| w == "use"@ ||| w == "virtual"@ ||| w == "where"@
    ||| w == "while"@ ||| w == "yield"@
}

/// Token `i` of `t` is the punctuation character `c`.
pub open spec fn is_punct(t: Seq<TokenV>, i: int, c: char) -> bool {
    0 <= i < t.len() && t[i] == TokenV::Punct(c)
}

/// Token `i` of `t` is the identifier `w`.
pub open spec fn is_word(t: Seq<TokenV>, i: int, w: Seq<char>) -> bool {
    0 <= i < t.len() && t[i] == TokenV::Ident(w)
}

/// Token `i` of `t` is an identifier.
pub open spec fn is_any_ident(t: Seq<TokenV>, i: int) -> bool {
    0 <= i < t.len() && t[i] is Ident
}

/// Token `i` of `t` is an identifier that may name an item.
pub open spec fn is_name(t: Seq<TokenV>, i: int) -> bool {
    is_any_ident(t, i) && !is_keyword(t[i]->Ident_0)
}

/// Index of the closing delimiter that ends the group whose contents start at `i`,
/// `depth` inner groups being open; `t.len()` if there is none.
pub open spec fn match_close(t: Seq<TokenV>, i: int, depth: nat) -> int
    decreases t.len() - i,
{
    if i < 0 || i >= t.len() {
        t.len() as int
    } else {
        match t[i] {
            TokenV::Open(_) => match_close(t, i + 1, depth + 1),
            TokenV::Close(_) => if depth == 0 {
                i
            } else {
                match_close(t, i + 1, (depth - 1) as nat)
            },
            _ => match_close(t, i + 1, depth),
        }
    }
}

/// End of the `:: ident` segments of a path from `k` (before `end`).
pub open spec fn path_rest(t: Seq<TokenV>, k: int, end: int) -> Option<int>
    decreases end - k,
{
    if 0 <= k < end && t[k] == TokenV::PathSep {
        if k + 1 < end && is_any_ident(t, k + 1) {
            path_rest(t, k + 2, end)
        } else {
            None
        }
    } else {
        Some(k)
    }
}

/// A path `::? ident (:: ident)*` at `i`: its name if it is a single plain identifier, and
/// the index after it.
pub open spec fn meta_path(t: Seq<TokenV>, i: int, end: int) -> Option<(Option<Seq<char>>, int)> {
    let leading = 0 <= i < end && t[i] == TokenV::PathSep;
    let j = if leading {
        i + 1
    } else {
        i
    };
    if j < end && is_any_ident(t, j) {
        match path_rest(t, j + 1, end) {
            Some(k) => Some(
                (
                    if !leading && k == j + 1 {
                        Some(t[j]->Ident_0)
                    } else {
                        None
                    },
                    k,
                ),
            ),
            None => None,
        }
    } else {
        None
    }
}

/// What follows an attribute's path.
pub enum AttrArgs {
    /// Nothing: `#[name]`.
    Path,
    /// A delimited list: `#[name(...)]`, tokens `start..end`.
    List(int, int),
    /// `#[name = value]`, with any non-empty value.
    NameValue,
}

/// An attribute: its name if the path is a single identifier, and its arguments.
pub struct AttrV {
    pub name: Option<Seq<char>>,
    pub args: AttrArgs,
}

/// The attribute that starts with `#` at `p`, and the index after it.
pub open spec fn parse_attr(t: Seq<TokenV>, p: int, end: int) -> Option<(AttrV, int)> {
    if !(p + 1 < end && t[p + 1] == TokenV::Open('[')) {
        None
    } else {
        let m = match_close(t, p + 2, 0);
        if !(m < end) {
            None
        } else {
            match meta_path(t, p + 2, m) {
                None => None,
                Some((name, k)) => if k == m {
                    Some((AttrV { name, args: AttrArgs::Path }, m + 1))
                } else if 0 <= k < m && t[k] is Open {
                    let c = match_close(t, k + 1, 0);
                    if c < m && c + 1 == m {
                        Some((AttrV { name, args: AttrArgs::List(k + 1, c) }, m + 1))
                    } else {
                        None
                    }
                } else if is_punct(t, k, '=') && k + 1 < m {
                    Some((AttrV { name, args: AttrArgs::NameValue }, m + 1))
                } else {
                    None
                },
            }
        }
    }
}

/// The attributes from `p` on (before `end`), appended to `acc`, and the index after them.
pub open spec fn parse_attrs(t: Seq<TokenV>, p: int, end: int, acc: Seq<AttrV>) -> Option<
    (Seq<AttrV>, int),
>
    decreases end - p,
{
    if p < end && is_punct(t, p, '#') {
        match parse_attr(t, p, end) {
            None => None,
            Some((a, q)) => if p < q <= end {
                parse_attrs(t, q, end, acc.push(a))
            } else {
                None
            },
        }
    } else if 0 <= p < end && t[p] is Doc {
        parse_attrs(t, p + 1, end, acc.push(AttrV { name: Some("doc"@), args: AttrArgs::NameValue }))
    } else {
        Some((acc, p))
    }
}

/// The non-empty `watcher` argument list `i..end`: `raf (, raf)* ,?`.
pub open spec fn raf_list(t: Seq<TokenV>, i: int, end: int) -> Result<bool, ParseError>
    decreases end - i,
{
    match meta_path(t, i, end) {
        None => Err(ParseError::Syntax),
        Some((name, k)) => if name != Some("raf"@) {
            Err(ParseError::UnknownWatcherArgument)
        } else if k == end {
            Ok(true)
        } else if is_punct(t, k, ',') && i < k < end {
            if k + 1 == end {
                Ok(true)
            } else {
                raf_list(t, k + 1, end)
            }
        } else {
            Err(ParseError::Syntax)
        },
    }
}

/// Whether a `watcher`/`monitor` attribute asks for frame coalescing.
pub open spec fn watcher_raf(t: Seq<TokenV>, args: AttrArgs) -> Result<bool, ParseError> {
    match args {
        AttrArgs::List(a, b) => if a >= b {
            Ok(false)
        } else {
            raf_list(t, a, b)
        },
        _ => Ok(false),
    }
}

/// The mode that attributes `i..` set, starting from `mode`; the last one wins, and the
/// first unknown attribute is an error.
pub open spec fn fold_modes(t: Seq<TokenV>, attrs: Seq<AttrV>, i: int, mode: Option<InteropMode>) -> Result<
    Option<InteropMode>,
    ParseError,
>
    decreases attrs.len() - i,
{
    if i < 0 || i >= attrs.len() {
        Ok(mode)
    } else {
        let a = attrs[i];
        if a.name == Some("command"@) {
            fold_modes(t, attrs, i + 1, Some(InteropMode::Command))
        } else if a.name == Some("query"@) {
            fold_modes(t, attrs, i + 1, Some(InteropMode::Query))
        } else if a.name == Some("watcher"@) || a.name == Some("monitor"@) {
            match watcher_raf(t, a.args) {
                Ok(r) => fold_modes(t, attrs, i + 1, Some(InteropMode::Watcher { is_raf: r })),
                Err(e) => Err(e),
            }
        } else {
            Err(ParseError::UnknownAttribute)
        }
    }
}

/// Index after an optional `,` at `u`.
pub open spec fn skip_comma(t: Seq<TokenV>, u: int, end: int) -> int {
    if u < end && is_punct(t, u, ',') {
        u + 1
    } else {
        u
    }
}

/// The items of a block from `p` to `end`, appended to `items`, with the wildcard flag.
pub open spec fn parse_items(
    t: Seq<TokenV>,
    p: int,
    end: int,
    wildcard: bool,
    items: Seq<ItemSpecV>,
) -> Result<(bool, Seq<ItemSpecV>), ParseError>
    decreases end - p,
{
    if p >= end {
        Ok((wildcard, items))
    } else if is_punct(t, p, '*') {
        let q = skip_comma(t, p + 1, end);
        parse_items(t, q, end, true, items)
    } else {
        match parse_attrs(t, p, end, Seq::empty()) {
            None => Err(ParseError::Syntax),
            Some((attrs, q)) => match fold_modes(t, attrs, 0, None) {
                Err(e) => Err(e),
                Ok(mode) => {
                    let r = if q < end && is_word(t, q, "fn"@) {
                        q + 1
                    } else {
                        q
                    };
                    if !(r < end && is_name(t, r)) {
                        Err(ParseError::Syntax)
                    } else {
                        let name = t[r]->Ident_0;
                        let s = r + 1;
                        if s < end && is_word(t, s, "as"@) {
                            if s + 1 < end && is_name(t, s + 1) {
                                let v = skip_comma(t, s + 2, end);
                                if p < v <= end {
                                    parse_items(
                                        t,
                                        v,
                                        end,
                                        wildcard,
                                        items.push(
                                            ItemSpecV {
                                                mode,
                                                original_name: name,
                                                rename_as: Some(t[s + 1]->Ident_0),
                                            },
                                        ),
                                    )
                                } else {
                                    Err(ParseError::Syntax)
                                }
                            } else {
                                Err(ParseError::Syntax)
                            }
                        } else {
                            let v = skip_comma(t, s, end);
                            if p < v <= end {
                                parse_items(
                                    t,
                                    v,
                                    end,
                                    wildcard,
                                    items.push(
                                        ItemSpecV { mode, original_name: name, rename_as: None },
                                    ),
                                )
                            } else {
                                Err(ParseError::Syntax)
                            }
                        }
                    }
                },
            },
        }
    }
}

/// Index after an optional `;` at `q`.
pub open spec fn skip_semi(t: Seq<TokenV>, q: int) -> int {
    if is_punct(t, q, ';') {
        q + 1
    } else {
        q
    }
}

/// The invocation that the token sequence `t` spells.
pub open spec fn parse_tokens(t: Seq<TokenV>) -> Result<BindJsInputV, ParseError> {
    if !(t.len() > 0 && t[0] is Str) {
        Err(ParseError::Syntax)
    } else if !(t.len() > 1 && t[1] == TokenV::PathSep) {
        Err(ParseError::Syntax)
    } else if is_punct(t, 2, '*') {
        if skip_semi(t, 3) == t.len() {
            Ok(BindJsInputV { file_path: t[0]->Str_0, wildcard: true, items: Seq::empty() })
        } else {
            Err(ParseError::Syntax)
        }
    } else if t.len() > 2 && t[2] == TokenV::Open('{') {
        let m = match_close(t, 3, 0);
        if !(m < t.len() && t[m] == TokenV::Close('}')) {
            Err(ParseError::Syntax)
        } else {
            match parse_items(t, 3, m, false, Seq::empty()) {
                Err(e) => Err(e),
                Ok((w, items)) => if skip_semi(t, m + 1) == t.len() {
                    Ok(BindJsInputV { file_path: t[0]->Str_0, wildcard: w, items })
                } else {
                    Err(ParseError::Syntax)
                },
            }
        }
    } else {
        Err(ParseError::Syntax)
    }
}

/// The invocation that the text `s` spells.
pub open spec fn parse_spec(s: Seq<char>) -> Result<BindJsInputV, ParseError> {
    match tokenize_spec(s) {
        None => Err(ParseError::Lex),
        Some(t) => parse_tokens(t),
    }
}


// ------------------------------------------------------------------ parser (exec)

fn ex_is_keyword(w: &Vec<char>) -> (r: bool)
    ensures
        r == is_keyword(w@),
{
    chars_eq_str(w, "_") || chars_eq_str(w, "abstract") || chars_eq_str(w, "as") || chars_eq_str(
        w,
        "async",
    ) || chars_eq_str(w, "await") || chars_eq_str(w, "become") || chars_eq_str(w, "box")
        || chars_eq_str(w, "break") || chars_eq_str(w, "const") || chars_eq_str(w, "continue")
        || chars_eq_str(w, "crate") || chars_eq_str(w, "do") || chars_eq_str(w, "dyn")
        || chars_eq_str(w, "else") || chars_eq_str(w, "enum") || chars_eq_str(w, "extern")
        || chars_eq_str(w, "false") || chars_eq_str(w, "final") || chars_eq_str(w, "fn")
        || chars_eq_str(w, "for") || chars_eq_str(w, "if") || chars_eq_str(w, "impl")
        || chars_eq_str(w, "in") || chars_eq_str(w, "let") || chars_eq_str(w, "loop")
        || chars_eq_str(w, "macro") || chars_eq_str(w, "match") || chars_eq_str(w, "mod")
        || chars_eq_str(w, "move") || chars_eq_str(w, "mut") || chars_eq_str(w, "override")
        || chars_eq_str(w, "priv") || chars_eq_str(w, "pub") || chars_eq_str(w, "ref")
        || chars_eq_str(w, "return") || chars_eq_str(w, "Self") || chars_eq_str(w, "self")
        || chars_eq_str(w, "static") || chars_eq_str(w, "struct") || chars_eq_str(w, "super")
        || chars_eq_str(w, "trait") || chars_eq_str(w, "true") || chars_eq_str(w, "try")
        || chars_eq_str(w, "type") || chars_eq_str(w, "typeof") || chars_eq_str(w, "unsafe")
        || chars_eq_str(w, "unsized") || chars_eq_str(w, "use") || chars_eq_str(w, "virtual")
        || chars_eq_str(w, "where") || chars_eq_str(w, "while") || chars_eq_str(w, "yield")
}

fn ex_is_punct(t: &Vec<Token>, i: usize, c: char) -> (r: bool)
    ensures
        r == is_punct(tokens_view(t@), i as int, c),
{
    if i < t.len() {
        match &t[i] {
            Token::Punct(d) => *d == c,
            _ => false,
        }
    } else {
        false
    }
}

fn ex_is_word(t: &Vec<Token>, i: usize, w: &str) -> (r: bool)
    ensures
        r == is_word(tokens_view(t@), i as int, w@),
{
    if i < t.len() {
        match &t[i] {
            Token::Ident(v) => chars_eq_str(v, w),
            _ => false,
        }
    } else {
        false
    }
}

fn ex_is_any_ident(t: &Vec<Token>, i: usize) -> (r: bool)
    ensures
        r == is_any_ident(tokens_view(t@), i as int),
{
    if i < t.len() {
        match &t[i] {
            Token::Ident(_) => true,
            _ => false,
        }
    } else {
        false
    }
}

/// The identifier at `i` (which is one).
fn ex_ident_at(t: &Vec<Token>, i: usize) -> (r: Vec<char>)
    requires
        is_any_ident(tokens_view(t@), i as int),
    ensures
        r@ == tokens_view(t@)[i as int]->Ident_0,
{
    match &t[i] {
        Token::Ident(v) => v.clone(),
        _ => Vec::new(),
    }
}

fn ex_is_name(t: &Vec<Token>, i: usize) -> (r: bool)
    ensures
        r == is_name(tokens_view(t@), i as int),
{
    if i < t.len() {
        match &t[i] {
            Token::Ident(v) => !ex_is_keyword(v),
            _ => false,
        }
    } else {
        false
    }
}

fn ex_match_close(t: &Vec<Token>, i: usize) -> (r: usize)
    requires
        i <= t.len(),
    ensures
        r == match_close(tokens_view(t@), i as int, 0),
        i <= r <= t.len(),
{
    let mut j = i;
    let mut depth: usize = 0;
    while j < t.len()
        invariant
            i <= j <= t.len(),
            depth <= j - i,
            match_close(tokens_view(t@), i as int, 0) == match_close(
                tokens_view(t@),
                j as int,
                depth as nat,
            ),
        decreases t.len() - j,
    {
        match &t[j] {
            Token::Open(_) => {
                depth = depth + 1;
            },
            Token::Close(_) => {
                if depth == 0 {
                    return j;
                }
                depth = depth - 1;
            },
            _ => {},
        }
        j = j + 1;
    }
    j
}

fn ex_is_path_sep(t: &Vec<Token>, i: usize) -> (r: bool)
    ensures
        r == (0 <= i < t.len() && tokens_view(t@)[i as int] == TokenV::PathSep),
{
    if i < t.len() {
        match &t[i] {
            Token::PathSep => true,
            _ => false,
        }
    } else {
        false
    }
}

fn ex_path_rest(t: &Vec<Token>, k: usize, end: usize) -> (r: Option<usize>)
    requires
        k <= end <= t.len(),
    ensures
        r matches Some(j) ==> path_rest(tokens_view(t@), k as int, end as int) == Some(j as int)
            && k <= j <= end,
        r is None ==> path_rest(tokens_view(t@), k as int, end as int) is None,
{
    let mut j = k;
    while j < end && ex_is_path_sep(t, j)
        invariant
            k <= j <= end <= t.len(),
            path_rest(tokens_view(t@), k as int, end as int) == path_rest(
                tokens_view(t@),
                j as int,
                end as int,
            ),
        decreases end - j,
    {
        if j + 1 < end && ex_is_any_ident(t, j + 1) {
            j = j + 2;
        } else {
            return None;
        }
    }
    Some(j)
}

fn ex_meta_path(t: &Vec<Token>, i: usize, end: usize) -> (r: Option<(Option<Vec<char>>, usize)>)
    requires
        i <= end <= t.len(),
    ensures
        r matches Some((n, k)) ==> meta_path(tokens_view(t@), i as int, end as int) == Some(
            (opt_chars_view(n), k as int),
        ) && i < k <= end,
        r is None ==> meta_path(tokens_view(t@), i as int, end as int) is None,
{
    let leading = i < end && (match &t[i] {
        Token::PathSep => true,
        _ => false,
    });
    let j = if leading {
        i + 1
    } else {
        i
    };
    if j < end && ex_is_any_ident(t, j) {
        match ex_path_rest(t, j + 1, end) {
            Some(k) => {
                let name = if !leading && k == j + 1 {
                    Some(ex_ident_at(t, j))
                } else {
                    None
                };
                Some((name, k))
            },
            None => None,
        }
    } else {
        None
    }
}

pub open spec fn opt_chars_view(o: Option<Vec<char>>) -> Option<Seq<char>> {
    match o {
        Some(v) => Some(v@),
        None => None,
    }
}

enum ExArgs {
    Path,
    List(usize, usize),
    NameValue,
}

struct ExAttr {
    name: Option<Vec<char>>,
    args: ExArgs,
}

impl View for ExAttr {
    type V = AttrV;

    closed spec fn view(&self) -> AttrV {
        AttrV {
            name: opt_chars_view(self.name),
            args: match self.args {
                ExArgs::Path => AttrArgs::Path,
                ExArgs::List(a, b) => AttrArgs::List(a as int, b as int),
                ExArgs::NameValue => AttrArgs::NameValue,
            },
        }
    }
}

spec fn attrs_view(v: Seq<ExAttr>) -> Seq<AttrV> {
    v.map_values(|a: ExAttr| a@)
}

fn ex_parse_attr(t: &Vec<Token>, p: usize, end: usize) -> (r: Option<(ExAttr, usize)>)
    requires
        p < end <= t.len(),
    ensures
        r matches Some((a, q)) ==> parse_attr(tokens_view(t@), p as int, end as int) == Some(
            (a@, q as int),
        ) && (a.args matches ExArgs::List(x, y) ==> y <= end),
        r is None ==> parse_attr(tokens_view(t@), p as int, end as int) is None,
{
    let ghost tv = tokens_view(t@);
    let open_bracket = p + 1 < end && (match &t[p + 1] {
        Token::Open(c) => *c == '[',
        _ => false,
    });
    if !open_bracket {
        return None;
    }
    let m = ex_match_close(t, p + 2);
    if !(m < end) {
        return None;
    }
    match ex_meta_path(t, p + 2, m) {
        None => None,
        Some((name, k)) => {
            if k == m {
                Some((ExAttr { name, args: ExArgs::Path }, m + 1))
            } else if k < m && (match &t[k] {
                Token::Open(_) => true,
                _ => false,
            }) {
                let c = ex_match_close(t, k + 1);
                if c < m && c + 1 == m {
                    Some((ExAttr { name, args: ExArgs::List(k + 1, c) }, m + 1))
                } else {
                    None
                }
            } else if ex_is_punct(t, k, '=') && k + 1 < m {
                Some((ExAttr { name, args: ExArgs::NameValue }, m + 1))
            } else {
                None
            }
        },
    }
}

fn ex_is_doc(t: &Vec<Token>, i: usize) -> (r: bool)
    requires
        i < t.len(),
    ensures
        r == (tokens_view(t@)[i as int] is Doc),
{
    match &t[i] {
        Token::Doc => true,
        _ => false,
    }
}

fn ex_parse_attrs(t: &Vec<Token>, p: usize, end: usize) -> (r: Option<(Vec<ExAttr>, usize)>)
    requires
        p <= end <= t.len(),
    ensures
        r matches Some((a, q)) ==> parse_attrs(tokens_view(t@), p as int, end as int, Seq::empty())
            == Some((attrs_view(a@), q as int)) && p <= q <= end && (forall|k: int|
            0 <= k < a@.len() ==> (#[trigger] a@[k].args matches ExArgs::List(x, y) ==> y <= end)),
        r is None ==> parse_attrs(tokens_view(t@), p as int, end as int, Seq::empty()) is None,
{
    let mut acc: Vec<ExAttr> = Vec::new();
    let mut i = p;
    assert(attrs_view(acc@) =~= Seq::<AttrV>::empty());
    while i < end && (ex_is_punct(t, i, '#') || ex_is_doc(t, i))
        invariant
            p <= i <= end <= t.len(),
            parse_attrs(tokens_view(t@), p as int, end as int, Seq::empty()) == parse_attrs(
                tokens_view(t@),
                i as int,
                end as int,
                attrs_view(acc@),
            ),
            forall|k: int|
                0 <= k < acc@.len() ==> (#[trigger] acc@[k].args matches ExArgs::List(x, y) ==> y
                    <= end),
        decreases end - i,
    {
        if !ex_is_punct(t, i, '#') {
            let ghost before = attrs_view(acc@);
            proof {
                reveal_strlit("doc");
            }
            let a = ExAttr { name: Some(chars_of("doc")), args: ExArgs::NameValue };
            let ghost av = a@;
            acc.push(a);
            assert(attrs_view(acc@) =~= before.push(av));
            i = i + 1;
            continue;
        }
        match ex_parse_attr(t, i, end) {
            None => {
                return None;
            },
            Some((a, q)) => {
                if !(i < q && q <= end) {
                    return None;
                }
                let ghost before = attrs_view(acc@);
                let ghost av = a@;
                acc.push(a);
                assert(attrs_view(acc@) =~= before.push(av));
                i = q;
            },
        }
    }
    Some((acc, i))
}

fn ex_raf_list(t: &Vec<Token>, i: usize, end: usize) -> (r: Result<bool, ParseError>)
    requires
        i <= end <= t.len(),
    ensures
        r == raf_list(tokens_view(t@), i as int, end as int),
{
    let mut j = i;
    loop
        invariant
            i <= j <= end <= t.len(),
            raf_list(tokens_view(t@), i as int, end as int) == raf_list(
                tokens_view(t@),
                j as int,
                end as int,
            ),
        decreases end - j,
    {
        match ex_meta_path(t, j, end) {
            None => {
                return Err(ParseError::Syntax);
            },
            Some((name, k)) => {
                let is_raf = match &name {
                    Some(n) => chars_eq_str(n, "raf"),
                    None => false,
                };
                if !is_raf {
                    return Err(ParseError::UnknownWatcherArgument);
                }
                if k == end {
                    return Ok(true);
                }
                if ex_is_punct(t, k, ',') && j < k && k < end {
                    if k + 1 == end {
                        return Ok(true);
                    }
                    j = k + 1;
                } else {
                    return Err(ParseError::Syntax);
                }
            },
        }
    }
}

fn ex_fold_modes(t: &Vec<Token>, attrs: &Vec<ExAttr>) -> (r: Result<Option<InteropMode>, ParseError>)
    requires
        forall|k: int|
            0 <= k < attrs@.len() ==> (#[trigger] attrs@[k].args matches ExArgs::List(a, b) ==> b <= t.len()),
    ensures
        r == fold_modes(tokens_view(t@), attrs_view(attrs@), 0, None),
{
    let ghost tv = tokens_view(t@);
    let ghost av = attrs_view(attrs@);
    let mut mode: Option<InteropMode> = None;
    let mut i: usize = 0;
    while i < attrs.len()
        invariant
            i <= attrs.len(),
            av == attrs_view(attrs@),
            tv == tokens_view(t@),
            forall|k: int|
                0 <= k < attrs@.len() ==> (#[trigger] attrs@[k].args matches ExArgs::List(a, b) ==> b
                    <= t.len()),
            fold_modes(tv, av, 0, None) == fold_modes(tv, av, i as int, mode),
        decreases attrs.len() - i,
    {
        let a = &attrs[i];
        assert(av[i as int] == a@);
        let (is_cmd, is_query, is_watch) = match &a.name {
            Some(n) => (
                chars_eq_str(n, "command"),
                chars_eq_str(n, "query"),
                chars_eq_str(n, "watcher") || chars_eq_str(n, "monitor"),
            ),
            None => (false, false, false),
        };
        if is_cmd {
            mode = Some(InteropMode::Command);
        } else if is_query {
            mode = Some(InteropMode::Query);
        } else if is_watch {
            let raf = match a.args {
                ExArgs::List(x, y) => if x >= y {
                    Ok(false)
                } else {
                    ex_raf_list(t, x, y)
                },
                _ => Ok(false),
            };
            match raf {
                Ok(r) => {
                    mode = Some(InteropMode::Watcher { is_raf: r });
                },
                Err(e) => {
                    return Err(e);
                },
            }
        } else {
            return Err(ParseError::UnknownAttribute);
        }
        i = i + 1;
    }
    Ok(mode)
}

fn ex_skip_comma(t: &Vec<Token>, u: usize, end: usize) -> (r: usize)
    requires
        u <= end <= t.len(),
    ensures
        r == skip_comma(tokens_view(t@), u as int, end as int),
        u <= r <= end,
{
    if u < end && ex_is_punct(t, u, ',') {
        u + 1
    } else {
        u
    }
}

fn ex_parse_items(t: &Vec<Token>, start: usize, end: usize) -> (r: Result<(bool, Vec<ItemSpec>), ParseError>)
    requires
        start <= end <= t.len(),
    ensures
        r matches Ok((w, items)) ==> parse_items(tokens_view(t@), start as int, end as int, false, Seq::empty())
            == Ok::<(bool, Seq<ItemSpecV>), ParseError>((w, items_view(items@))),
        r matches Err(e) ==> parse_items(tokens_view(t@), start as int, end as int, false, Seq::empty())
            == Err::<(bool, Seq<ItemSpecV>), ParseError>(e),
{
    let ghost tv = tokens_view(t@);
    let mut items: Vec<ItemSpec> = Vec::new();
    let mut wildcard = false;
    let mut p = start;
    assert(items_view(items@) =~= Seq::<ItemSpecV>::empty());
    while p < end
        invariant
            start <= p <= end <= t.len(),
            tv == tokens_view(t@),
            parse_items(tv, start as int, end as int, false, Seq::empty()) == parse_items(
                tv,
                p as int,
                end as int,
                wildcard,
                items_view(items@),
            ),
        decreases end - p,
    {
        if ex_is_punct(t, p, '*') {
            p = ex_skip_comma(t, p + 1, end);
            wildcard = true;
            continue;
        }
        let (attrs, q) = match ex_parse_attrs(t, p, end) {
            None => {
                return Err(ParseError::Syntax);
            },
            Some(x) => x,
        };
        let mode = match ex_fold_modes(t, &attrs) {
            Err(e) => {
                return Err(e);
            },
            Ok(m) => m,
        };
        let r = if q < end && ex_is_word(t, q, "fn") {
            q + 1
        } else {
            q
        };
        if !(r < end && ex_is_name(t, r)) {
            return Err(ParseError::Syntax);
        }
        let name = ex_ident_at(t, r);
        let s = r + 1;
        let ghost before = items_view(items@);
        if s < end && ex_is_word(t, s, "as") {
            if s + 1 < end && ex_is_name(t, s + 1) {
                let alias = ex_ident_at(t, s + 1);
                let v = ex_skip_comma(t, s + 2, end);
                let item = ItemSpec {
                    mode,
                    original_name: string_of(&name),
                    rename_as: Some(string_of(&alias)),
                };
                let ghost iv = item@;
                items.push(item);
                assert(items_view(items@) =~= before.push(iv));
                p = v;
            } else {
                return Err(ParseError::Syntax);
            }
        } else {
            let v = ex_skip_comma(t, s, end);
            let item = ItemSpec { mode, original_name: string_of(&name), rename_as: None };
            let ghost iv = item@;
            items.push(item);
            assert(items_view(items@) =~= before.push(iv));
            p = v;
        }
    }
    Ok((wildcard, items))
}

fn ex_parse_tokens(t: &Vec<Token>) -> (r: Result<BindJsInput, ParseError>)
    ensures
        r matches Ok(x) ==> parse_tokens(tokens_view(t@)) == Ok::<BindJsInputV, ParseError>(x@),
        r matches Err(e) ==> parse_tokens(tokens_view(t@)) == Err::<BindJsInputV, ParseError>(e),
{
    let path = if t.len() > 0 {
        match &t[0] {
            Token::Str(v) => Some(v.clone()),
            _ => None,
        }
    } else {
        None
    };
    let path = match path {
        Some(v) => v,
        None => {
            return Err(ParseError::Syntax);
        },
    };
    if !(t.len() > 1 && ex_is_path_sep(t, 1)) {
        return Err(ParseError::Syntax);
    }
    if ex_is_punct(t, 2, '*') {
        let q = if ex_is_punct(t, 3, ';') {
            4
        } else {
            3
        };
        if q == t.len() {
            let res = BindJsInput { file_path: string_of(&path), wildcard: true, items: Vec::new() };
            assert(res@.items =~= Seq::<ItemSpecV>::empty());
            return Ok(res);
        } else {
            return Err(ParseError::Syntax);
        }
    }
    let open_brace = t.len() > 2 && (match &t[2] {
        Token::Open(c) => *c == '{',
        _ => false,
    });
    if !open_brace {
        return Err(ParseError::Syntax);
    }
    let m = ex_match_close(t, 3);
    let close_brace = m < t.len() && (match &t[m] {
        Token::Close(c) => *c == '}',
        _ => false,
    });
    if !close_brace {
        return Err(ParseError::Syntax);
    }
    match ex_parse_items(t, 3, m) {
        Err(e) => Err(e),
        Ok((w, items)) => {
            let q = if ex_is_punct(t, m + 1, ';') {
                m + 2
            } else {
                m + 1
            };
            if q == t.len() {
                Ok(BindJsInput { file_path: string_of(&path), wildcard: w, items })
            } else {
                Err(ParseError::Syntax)
            }
        },
    }
}

impl BindJsInput {
    /// Parses the text of a `bind_js!` invocation (what follows `bind_js!(`): `Ok` exactly
    /// when the text spells an invocation, with its file path, wildcard flag and items in
    /// order; otherwise the error that `parse_spec` gives.
    pub fn parse(input: &str) -> (res: Result<BindJsInput, ParseError>)
        ensures
            res matches Ok(x) ==> parse_spec(input@) == Ok::<BindJsInputV, ParseError>(x@),
            res matches Err(e) ==> parse_spec(input@) == Err::<BindJsInputV, ParseError>(e),
    {
        let chars = chars_of(input);
        match tokenize(&chars) {
            None => Err(ParseError::Lex),
            Some(t) => ex_parse_tokens(&t),
        }
    }
}

} // verus!
