//! Analysis of a TypeScript bridge module: which exports become bindings, in which mode,
//! with which Rust parameter and result types, and which modules are refused.
//!
//! The mode of an export is, by priority: the attribute given to it in the `bind_js!`
//! block; an annotation in a comment leading it (`#[command]`, `#[query]`, `#[watcher]`,
//! `#[watcher(raf)]`, or `monitor` for `watcher`); otherwise it is inferred from the
//! signature: a `Promise` result, or an `async` function with a result, is a query; a
//! function without a result is a command; anything else is a query. A watcher is never
//! inferred.
use vstd::prelude::*;
use crate::casing::{exec_names_match, names_match};
use crate::rust_type::{RustType, RustTypeV, rt_view};
use crate::syntax::{InteropMode, ItemSpec, ItemSpecV, items_view};
use crate::text::{
    chars_of, exec_contains, exec_starts_with, exec_trim, string_of, contains, starts_with,
    trim, hex_lower, radix_chars,
};
use crate::ts_model::{
    TsKeyword, TsModule, TsModuleItem, TsParam, TsSignature, TypeAnn, TsVarDecl, TsVarInit,
};
use crate::type_map::{map_type, map_ts_to_rust_param, map_ts_to_rust_return};

verus! {

// ------------------------------------------------------------------ comment annotations

/// The mode that one (trimmed) comment text announces, if any.
pub open spec fn line_mode(text: Seq<char>) -> Option<InteropMode> {
    if contains(text, "#[command]"@) {
        Some(InteropMode::Command)
    } else if contains(text, "#[query]"@) {
        Some(InteropMode::Query)
    } else if contains(text, "#[watcher(raf)]"@) || contains(text, "#[monitor(raf)]"@) {
        Some(InteropMode::Watcher { is_raf: true })
    } else if contains(text, "#[watcher]"@) || contains(text, "#[monitor]"@) {
        Some(InteropMode::Watcher { is_raf: false })
    } else {
        None
    }
}

/// A (trimmed) comment text without an annotation that contributes documentation.
pub open spec fn is_doc_line(text: Seq<char>) -> bool {
    starts_with(text, "*"@) || (!starts_with(text, "#"@) && text.len() > 0)
}

/// `s` without its leading `*` characters.
pub open spec fn strip_stars(s: Seq<char>) -> Seq<char>
    decreases s.len(),
{
    if s.len() > 0 && s[0] == '*' {
        strip_stars(s.drop_first())
    } else {
        s
    }
}

/// The documentation text a comment line contributes.
pub open spec fn doc_text(text: Seq<char>) -> Seq<char> {
    trim(strip_stars(text))
}

/// The mode announced by the last comment of `cs` that announces one.
pub open spec fn comments_mode(cs: Seq<Seq<char>>) -> Option<InteropMode>
    decreases cs.len(),
{
    if cs.len() == 0 {
        None
    } else {
        match line_mode(trim(cs.last())) {
            Some(m) => Some(m),
            None => comments_mode(cs.drop_last()),
        }
    }
}

/// The documentation lines of the comments `cs`, in order.
pub open spec fn doc_lines(cs: Seq<Seq<char>>) -> Seq<Seq<char>>
    decreases cs.len(),
{
    if cs.len() == 0 {
        Seq::empty()
    } else {
        let t = trim(cs.last());
        if line_mode(t) is None && is_doc_line(t) {
            doc_lines(cs.drop_last()).push(doc_text(t))
        } else {
            doc_lines(cs.drop_last())
        }
    }
}

/// The lines of `ls` joined by newlines.
pub open spec fn join_lines(ls: Seq<Seq<char>>) -> Seq<char>
    decreases ls.len(),
{
    if ls.len() == 0 {
        Seq::empty()
    } else if ls.len() == 1 {
        ls[0]
    } else {
        join_lines(ls.drop_last()) + "\n"@ + ls.last()
    }
}

/// The documentation of an export with leading comments `cs`: `None` when no comment
/// contributes a line.
pub open spec fn comments_doc(cs: Seq<Seq<char>>) -> Option<Seq<char>> {
    let ls = doc_lines(cs);
    if ls.len() == 0 {
        None
    } else {
        Some(join_lines(ls))
    }
}

pub open spec fn strings_view(v: Seq<String>) -> Seq<Seq<char>> {
    v.map_values(|s: String| s@)
}

fn line_mode_exec(text: &Vec<char>) -> (r: Option<InteropMode>)
    ensures
        r == line_mode(text@),
{
    if exec_contains(text, &chars_of("#[command]")) {
        Some(InteropMode::Command)
    } else if exec_contains(text, &chars_of("#[query]")) {
        Some(InteropMode::Query)
    } else if exec_contains(text, &chars_of("#[watcher(raf)]")) || exec_contains(
        text,
        &chars_of("#[monitor(raf)]"),
    ) {
        Some(InteropMode::Watcher { is_raf: true })
    } else if exec_contains(text, &chars_of("#[watcher]")) || exec_contains(
        text,
        &chars_of("#[monitor]"),
    ) {
        Some(InteropMode::Watcher { is_raf: false })
    } else {
        None
    }
}

fn strip_stars_exec(s: &Vec<char>) -> (r: Vec<char>)
    ensures
        r@ == strip_stars(s@),
{
    let mut i: usize = 0;
    assert(s@.skip(0) =~= s@);
    while i < s.len() && s[i] == '*'
        invariant
            i <= s.len(),
            strip_stars(s@) == strip_stars(s@.skip(i as int)),
        decreases s.len() - i,
    {
        assert(s@.skip(i as int).drop_first() =~= s@.skip(i + 1));
        i = i + 1;
    }
    crate::text::slice_chars(s, i, s.len())
}

/// The mode and documentation announced by the comments `comments` (raw comment texts,
/// in source order).
pub fn extract_comment_mode(comments: &Vec<String>) -> (res: (Option<InteropMode>, Option<String>))
    ensures
        res.0 == comments_mode(strings_view(comments@)),
        opt_view(res.1) == comments_doc(strings_view(comments@)),
{
    let ghost cs = strings_view(comments@);
    let mut mode: Option<InteropMode> = None;
    let mut doc: Vec<char> = Vec::new();
    let mut n_lines: usize = 0;
    let mut i: usize = 0;
    while i < comments.len()
        invariant
            i <= comments.len(),
            cs == strings_view(comments@),
            mode == comments_mode(cs.take(i as int)),
            n_lines == doc_lines(cs.take(i as int)).len(),
            n_lines > 0 ==> doc@ == join_lines(doc_lines(cs.take(i as int))),
            n_lines == 0 ==> doc@.len() == 0,
            n_lines <= i,
        decreases comments.len() - i,
    {
        let raw = chars_of(comments[i].as_str());
        let t = exec_trim(&raw);
        let m = line_mode_exec(&t);
        let ghost prefix = cs.take(i as int);
        assert(cs.take(i + 1).drop_last() =~= prefix);
        assert(cs.take(i + 1).last() == comments@[i as int]@);
        match m {
            Some(x) => {
                mode = Some(x);
            },
            None => {
                let doc_line = exec_starts_with(&t, &chars_of("*")) || (!exec_starts_with(
                    &t,
                    &chars_of("#"),
                ) && t.len() > 0);
                if doc_line {
                    let stripped = strip_stars_exec(&t);
                    let line = exec_trim(&stripped);
                    if n_lines > 0 {
                        crate::rust_type::push_str(&mut doc, "\n");
                    }
                    crate::rust_type::push_chars(&mut doc, &line);
                    proof {
                        let ls = doc_lines(cs.take(i + 1));
                        assert(ls == doc_lines(prefix).push(line@));
                        if n_lines == 0 {
                            assert(doc_lines(prefix).len() == 0);
                            assert(ls.len() == 1);
                            assert(doc@ =~= ls[0]);
                        } else {
                            assert(ls.drop_last() =~= doc_lines(prefix));
                        }
                    }
                    n_lines = n_lines + 1;
                }
            },
        }
        i = i + 1;
    }
    assert(cs.take(comments.len() as int) =~= cs);
    let d = if n_lines == 0 {
        None
    } else {
        Some(string_of(&doc))
    };
    (mode, d)
}

pub open spec fn opt_view(o: Option<String>) -> Option<Seq<char>> {
    match o {
        Some(s) => Some(s@),
        None => None,
    }
}

// ------------------------------------------------------------------ item selection

/// Index of the first item of `items` from `i` on whose name matches `name`
/// (`items.len()` if none).
pub open spec fn first_match(items: Seq<ItemSpecV>, name: Seq<char>, i: int) -> int
    decreases items.len() - i,
{
    if i < 0 || i >= items.len() {
        items.len() as int
    } else if names_match(items[i].original_name, name) {
        i
    } else {
        first_match(items, name, i + 1)
    }
}

/// The mode that the `bind_js!` block gives to the export `name`: that of the first item
/// naming it.
pub open spec fn macro_override(name: Seq<char>, items: Seq<ItemSpecV>) -> Option<InteropMode> {
    let j = first_match(items, name, 0);
    if 0 <= j < items.len() {
        items[j].mode
    } else {
        None
    }
}

/// The export `name` is bound: the block is a wildcard or some item names it.
pub open spec fn targeted(name: Seq<char>, items: Seq<ItemSpecV>, wildcard: bool) -> bool {
    wildcard || exists|i: int| 0 <= i < items.len() && names_match(#[trigger] items[i].original_name, name)
}

pub proof fn lemma_first_match(items: Seq<ItemSpecV>, name: Seq<char>, i: int)
    requires
        0 <= i <= items.len(),
    ensures
        i <= first_match(items, name, i) <= items.len(),
        first_match(items, name, i) < items.len() ==> names_match(
            items[first_match(items, name, i)].original_name,
            name,
        ),
        forall|k: int| i <= k < first_match(items, name, i) ==> !names_match(#[trigger] items[k].original_name, name),
    decreases items.len() - i,
{
    if i < items.len() && !names_match(items[i].original_name, name) {
        lemma_first_match(items, name, i + 1);
    }
}

/// Index of the first item naming `name`, or `items.len()`.
fn first_match_exec(name: &str, items: &Vec<ItemSpec>) -> (r: usize)
    ensures
        r == first_match(items_view(items@), name@, 0),
{
    let ghost iv = items_view(items@);
    let mut i: usize = 0;
    while i < items.len()
        invariant
            i <= items.len(),
            iv == items_view(items@),
            first_match(iv, name@, 0) == first_match(iv, name@, i as int),
        decreases items.len() - i,
    {
        assert(iv[i as int] == items@[i as int]@);
        if exec_names_match(items[i].original_name.as_str(), name) {
            return i;
        }
        i = i + 1;
    }
    i
}

/// The mode that the `bind_js!` items give to the export `name`, if any.
pub fn find_macro_override(name: &str, macro_items: &Vec<ItemSpec>) -> (res: Option<InteropMode>)
    ensures
        res == macro_override(name@, items_view(macro_items@)),
{
    let j = first_match_exec(name, macro_items);
    if j < macro_items.len() {
        assert(items_view(macro_items@)[j as int] == macro_items@[j as int]@);
        macro_items[j].mode
    } else {
        None
    }
}

/// Whether the export `name` is bound by the block.
pub fn is_item_targeted(name: &str, macro_items: &Vec<ItemSpec>, wildcard: bool) -> (res: bool)
    ensures
        res == targeted(name@, items_view(macro_items@), wildcard),
{
    if wildcard {
        return true;
    }
    let j = first_match_exec(name, macro_items);
    proof {
        lemma_first_match(items_view(macro_items@), name@, 0);
    }
    j < macro_items.len()
}

// ------------------------------------------------------------------ modes

/// The mode of an export: block attribute, then comment annotation, then inference.
pub open spec fn mode_of(
    macro_mode: Option<InteropMode>,
    comment_mode: Option<InteropMode>,
    is_async: bool,
    is_promise: bool,
    is_void: bool,
) -> InteropMode {
    match macro_mode {
        Some(m) => m,
        None => match comment_mode {
            Some(m) => m,
            None => if is_promise || (is_async && !is_void) {
                InteropMode::Query
            } else if is_void {
                InteropMode::Command
            } else {
                InteropMode::Query
            },
        },
    }
}

/// The mode of an export from its block attribute, comment annotation and signature.
pub fn determine_mode(
    macro_mode: Option<InteropMode>,
    comment_mode: Option<InteropMode>,
    is_async: bool,
    is_promise: bool,
    is_void: bool,
) -> (res: InteropMode)
    ensures
        res == mode_of(macro_mode, comment_mode, is_async, is_promise, is_void),
        res is Watcher ==> ((macro_mode is Some && macro_mode->Some_0 is Watcher) || (
        macro_mode is None && comment_mode is Some && comment_mode->Some_0 is Watcher)),
{
    if let Some(p) = macro_mode {
        return p;
    }
    if let Some(p) = comment_mode {
        return p;
    }
    if is_promise || (is_async && !is_void) {
        return InteropMode::Query;
    }
    if is_void {
        return InteropMode::Command;
    }
    InteropMode::Query
}

// ------------------------------------------------------------------ signatures

/// A parameter of a binding.
#[derive(Debug)]
pub struct ParamInfo {
    pub name: String,
    pub rust_param_type: RustType,
    pub is_callback: bool,
    pub callback_arg_type: Option<RustType>,
}

/// Value of a [`ParamInfo`].
pub struct ParamInfoV {
    pub name: Seq<char>,
    pub rust_param_type: RustTypeV,
    pub is_callback: bool,
    pub callback_arg_type: Option<RustTypeV>,
}

pub open spec fn opt_rt_view(o: Option<RustType>) -> Option<RustTypeV> {
    match o {
        Some(t) => Some(rt_view(t)),
        None => None,
    }
}

impl View for ParamInfo {
    type V = ParamInfoV;

    open spec fn view(&self) -> ParamInfoV {
        ParamInfoV {
            name: self.name@,
            rust_param_type: rt_view(self.rust_param_type),
            is_callback: self.is_callback,
            callback_arg_type: opt_rt_view(self.callback_arg_type),
        }
    }
}

/// The binding parameter for a TypeScript parameter `name` annotated with `ty`: a callback
/// (whose argument type is that of the callback's first parameter) for a function type,
/// otherwise a value of the mapped parameter type (a JSON value when unannotated).
pub open spec fn param_spec(name: Seq<char>, ty: Option<TypeAnn>) -> ParamInfoV {
    match ty {
        Some(TypeAnn::FnType(cb)) => ParamInfoV {
            name,
            rust_param_type: RustTypeV::Empty,
            is_callback: true,
            callback_arg_type: match cb {
                Some(b) => Some(map_type(*b, true)),
                None => None,
            },
        },
        Some(t) => ParamInfoV {
            name,
            rust_param_type: map_type(t, false),
            is_callback: false,
            callback_arg_type: None,
        },
        None => ParamInfoV {
            name,
            rust_param_type: RustTypeV::JsonValue,
            is_callback: false,
            callback_arg_type: None,
        },
    }
}

/// The binding parameter for a TypeScript parameter.
pub fn parse_param_type(name: &str, ts_type: Option<&TypeAnn>) -> (res: ParamInfo)
    ensures
        res@ == param_spec(name@, match ts_type { Some(t) => Some(*t), None => None }),
{
    let n = string_of(&chars_of(name));
    match ts_type {
        Some(TypeAnn::FnType(cb)) => {
            let arg = match cb {
                Some(b) => Some(map_ts_to_rust_return(b)),
                None => None,
            };
            ParamInfo { name: n, rust_param_type: RustType::Empty, is_callback: true, callback_arg_type: arg }
        },
        Some(t) => ParamInfo {
            name: n,
            rust_param_type: map_ts_to_rust_param(t),
            is_callback: false,
            callback_arg_type: None,
        },
        None => ParamInfo {
            name: n,
            rust_param_type: RustType::JsonValue,
            is_callback: false,
            callback_arg_type: None,
        },
    }
}

/// What a result annotation says: the Rust result type, whether it is a `Promise`, whether
/// it carries no value, and whether it is a function.
pub struct ReturnInfo {
    pub rust_type: Option<RustType>,
    pub is_promise: bool,
    pub is_void: bool,
    pub is_fn: bool,
}

pub struct ReturnInfoV {
    pub rust_type: Option<RustTypeV>,
    pub is_promise: bool,
    pub is_void: bool,
    pub is_fn: bool,
}

impl View for ReturnInfo {
    type V = ReturnInfoV;

    open spec fn view(&self) -> ReturnInfoV {
        ReturnInfoV {
            rust_type: opt_rt_view(self.rust_type),
            is_promise: self.is_promise,
            is_void: self.is_void,
            is_fn: self.is_fn,
        }
    }
}

/// The result of a function annotated with `ty`: no annotation, `void` and `undefined` carry
/// no value; `Promise<T>` carries `T` (none for `Promise<void>` and a bare `Promise`);
/// function and constructor types are higher-order; anything else carries its mapped
/// result type.
pub open spec fn return_spec(ty: Option<TypeAnn>) -> ReturnInfoV {
    match ty {
        None => ReturnInfoV { rust_type: None, is_promise: false, is_void: true, is_fn: false },
        Some(t) => match t {
            TypeAnn::Keyword(k) => if k == TsKeyword::Void || k == TsKeyword::Undefined {
                ReturnInfoV { rust_type: None, is_promise: false, is_void: true, is_fn: false }
            } else {
                ReturnInfoV {
                    rust_type: Some(map_type(t, true)),
                    is_promise: false,
                    is_void: false,
                    is_fn: false,
                }
            },
            TypeAnn::TypeRef(name, args) if name@ == "Promise"@ => match args {
                Some(a) => if a@.len() > 0 {
                    if a@[0] == TypeAnn::Keyword(TsKeyword::Void) {
                        ReturnInfoV { rust_type: None, is_promise: true, is_void: true, is_fn: false }
                    } else {
                        ReturnInfoV {
                            rust_type: Some(map_type(a@[0], true)),
                            is_promise: true,
                            is_void: false,
                            is_fn: false,
                        }
                    }
                } else {
                    ReturnInfoV { rust_type: None, is_promise: true, is_void: true, is_fn: false }
                },
                None => ReturnInfoV { rust_type: None, is_promise: true, is_void: true, is_fn: false },
            },
            TypeAnn::FnType(_) => ReturnInfoV {
                rust_type: None,
                is_promise: false,
                is_void: false,
                is_fn: true,
            },
            TypeAnn::ConstructorType => ReturnInfoV {
                rust_type: None,
                is_promise: false,
                is_void: false,
                is_fn: true,
            },
            _ => ReturnInfoV {
                rust_type: Some(map_type(t, true)),
                is_promise: false,
                is_void: false,
                is_fn: false,
            },
        },
    }
}

/// What the result annotation `ts_type` says.
pub fn parse_return_type(ts_type: Option<&TypeAnn>) -> (res: ReturnInfo)
    ensures
        res@ == return_spec(match ts_type { Some(t) => Some(*t), None => None }),
{
    let t = match ts_type {
        None => {
            return ReturnInfo { rust_type: None, is_promise: false, is_void: true, is_fn: false };
        },
        Some(t) => t,
    };
    match t {
        TypeAnn::Keyword(k) => {
            if *k == TsKeyword::Void || *k == TsKeyword::Undefined {
                ReturnInfo { rust_type: None, is_promise: false, is_void: true, is_fn: false }
            } else {
                ReturnInfo {
                    rust_type: Some(map_ts_to_rust_return(t)),
                    is_promise: false,
                    is_void: false,
                    is_fn: false,
                }
            }
        },
        TypeAnn::TypeRef(name, args) => {
            if crate::text::chars_eq_str(&chars_of(name.as_str()), "Promise") {
                match args {
                    Some(a) => {
                        if a.len() > 0 {
                            let is_void = match &a[0] {
                                TypeAnn::Keyword(TsKeyword::Void) => true,
                                _ => false,
                            };
                            if is_void {
                                ReturnInfo { rust_type: None, is_promise: true, is_void: true, is_fn: false }
                            } else {
                                ReturnInfo {
                                    rust_type: Some(map_ts_to_rust_return(&a[0])),
                                    is_promise: true,
                                    is_void: false,
                                    is_fn: false,
                                }
                            }
                        } else {
                            ReturnInfo { rust_type: None, is_promise: true, is_void: true, is_fn: false }
                        }
                    },
                    None => ReturnInfo { rust_type: None, is_promise: true, is_void: true, is_fn: false },
                }
            } else {
                ReturnInfo {
                    rust_type: Some(map_ts_to_rust_return(t)),
                    is_promise: false,
                    is_void: false,
                    is_fn: false,
                }
            }
        },
        TypeAnn::FnType(_) => ReturnInfo { rust_type: None, is_promise: false, is_void: false, is_fn: true },
        TypeAnn::ConstructorType => ReturnInfo { rust_type: None, is_promise: false, is_void: false, is_fn: true },
        _ => ReturnInfo {
            rust_type: Some(map_ts_to_rust_return(t)),
            is_promise: false,
            is_void: false,
            is_fn: false,
        },
    }
}

} // verus!
