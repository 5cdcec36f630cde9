//! Properties of the binding generator that relate several of its functions.
use vstd::prelude::*;
use crate::analyzer::{first_match, lemma_first_match, macro_override, mode_of, targeted};
use crate::analyzer::{comments_mode, return_spec, param_spec};
use crate::text::{contains, trim};
use crate::casing::names_match;
use crate::codegen::{first_unmatched, item_matched, plan_from, plan_one, plan_spec};
use crate::codegen::{BindingV, binding_params, binding_spec, callback_arg_spec, first_callback};
use crate::analyzer::ParamInfoV;
use crate::casing::snake_case;
use crate::exports::{
    AnalyzeError, ExportedFunctionV, analyze_spec, export_spec, first_rejection,
};
use crate::syntax::{AttrArgs, AttrV, BindJsInputV, InteropMode, ItemSpecV, fold_modes};
use crate::lexer::TokenV;
use crate::rust_type::RustTypeV;
use crate::ts_model::{TsKeyword, TsModule, TsModuleItem, TsSignature, TypeAnn, TsVarDecl, TsVarInit};
use crate::exports::{exports_from, vars_from, var_spec};
use crate::watcher_guard::{TeardownPlan, WatcherGuard, teardown_outcome};
use crate::type_map::{map_type, lemma_map_types, map_types, count_non_null, first_non_null, is_nullish};

verus! {

/// An attribute given to an export in the `bind_js!` block decides its mode, whatever its
/// comments and signature say.
pub proof fn law_block_attribute_decides_mode(
    m: InteropMode,
    comment_mode: Option<InteropMode>,
    is_async: bool,
    is_promise: bool,
    is_void: bool,
)
    ensures
        mode_of(Some(m), comment_mode, is_async, is_promise, is_void) == m,
{
}

/// Without a block attribute, a comment annotation decides the mode.
pub proof fn law_comment_annotation_decides_mode(
    c: InteropMode,
    is_async: bool,
    is_promise: bool,
    is_void: bool,
)
    ensures
        mode_of(None, Some(c), is_async, is_promise, is_void) == c,
{
}

/// A watcher is never inferred from a signature: it takes an attribute or an annotation.
pub proof fn law_watcher_is_never_inferred(is_async: bool, is_promise: bool, is_void: bool)
    ensures
        !(mode_of(None, None, is_async, is_promise, is_void) is Watcher),
{
}

/// A wildcard block binds every export.
pub proof fn law_wildcard_binds_every_export(name: Seq<char>, items: Seq<ItemSpecV>)
    ensures
        targeted(name, items, true),
{
}

/// An export that a block item gives a mode to is bound by that block.
pub proof fn law_override_implies_targeted(name: Seq<char>, items: Seq<ItemSpecV>, wildcard: bool)
    requires
        (macro_override(name, items) is Some),
    ensures
        targeted(name, items, wildcard),
{
    lemma_first_match(items, name, 0);
    let j = first_match(items, name, 0);
    assert(names_match(items[j].original_name, name));
}

/// `Array<T>` and `T[]` map to the same Rust type, as parameters and as results.
pub proof fn law_array_generic_and_bracket_parity(name: String, args: Vec<TypeAnn>, elem: TypeAnn, ret: bool)
    requires
        name@ == "Array"@,
        args@.len() > 0,
        args@[0] == elem,
    ensures
        map_type(TypeAnn::TypeRef(name, Some(args)), ret) == map_type(
            TypeAnn::Array(Box::new(elem)),
            ret,
        ),
{
    reveal_strlit("Array");
    reveal_strlit(".");
    assert forall|i: int| !crate::text::occurs_at("Array"@, "."@, i) by {
        if crate::text::occurs_at("Array"@, "."@, i) {
            assert("Array"@.subrange(i, i + 1)[0] == "Array"@[i]);
        }
    }
}

/// An export that the block does not bind is never refused for returning a function.
pub proof fn law_untargeted_export_is_not_refused(
    name: Seq<char>,
    sig: TsSignature,
    comments: Seq<Seq<char>>,
    items: Seq<ItemSpecV>,
)
    ensures
        (export_spec(name, sig, comments, items, false) is Ok),
{
}

/// A watcher attribute in the block lets an export return a function (its cleanup).
pub proof fn law_watcher_override_permits_function_result(
    name: Seq<char>,
    sig: TsSignature,
    comments: Seq<Seq<char>>,
    items: Seq<ItemSpecV>,
    is_target: bool,
    is_raf: bool,
)
    requires
        macro_override(name, items) == Some(InteropMode::Watcher { is_raf }),
    ensures
        (export_spec(name, sig, comments, items, is_target) is Ok),
        export_spec(name, sig, comments, items, is_target)->Ok_0.mode == (InteropMode::Watcher {
            is_raf,
        }),
{
}

/// The mode that the block gives an export is the mode of the binding.
pub proof fn law_override_mode_is_kept(
    name: Seq<char>,
    sig: TsSignature,
    comments: Seq<Seq<char>>,
    items: Seq<ItemSpecV>,
    is_target: bool,
    m: InteropMode,
)
    requires
        macro_override(name, items) == Some(m),
        (export_spec(name, sig, comments, items, is_target) is Ok),
    ensures
        export_spec(name, sig, comments, items, is_target)->Ok_0.mode == m,
{
}

proof fn lemma_rejection_found(ms: Seq<TsModuleItem>, i: int, k: int)
    requires
        0 <= i <= k < ms.len(),
        ms[k] is Import || ms[k] is ExportDefault,
    ensures
        (first_rejection(ms, i) is Some),
        first_rejection(ms, i)->Some_0 != AnalyzeError::HigherOrderFunction,
    decreases k - i,
{
    if !(ms[i] is Import || ms[i] is ExportDefault) {
        lemma_rejection_found(ms, i + 1, k);
    }
}

/// A module with a top-level static import or a default export is refused.
pub proof fn law_import_or_default_export_refuses_module(
    m: TsModule,
    items: Seq<ItemSpecV>,
    wildcard: bool,
    k: int,
)
    requires
        0 <= k < m.items@.len(),
        m.items@[k] is Import || m.items@[k] is ExportDefault,
    ensures
        (analyze_spec(m, items, wildcard) is Err),
        analyze_spec(m, items, wildcard)->Err_0 != AnalyzeError::HigherOrderFunction,
{
    lemma_rejection_found(m.items@, 0, k);
}

proof fn lemma_first_unmatched(items: Seq<ItemSpecV>, es: Seq<ExportedFunctionV>, k: int)
    requires
        0 <= k <= items.len(),
    ensures
        k <= first_unmatched(items, es, k) <= items.len(),
        first_unmatched(items, es, k) == items.len() ==> forall|m: int|
            k <= m < items.len() ==> item_matched(items, es, m),
    decreases items.len() - k,
{
    if k < items.len() && item_matched(items, es, k) {
        lemma_first_unmatched(items, es, k + 1);
    }
}

/// When an invocation generates code, every item of its block names one of the exports.
pub proof fn law_generated_items_all_name_exports(input: BindJsInputV, es: Seq<ExportedFunctionV>)
    requires
        (plan_spec(input, es) is Ok),
    ensures
        forall|k: int|
            0 <= k < input.items.len() ==> exists|e: int|
                0 <= e < es.len() && names_match(
                    #[trigger] input.items[k].original_name,
                    #[trigger] es[e].name,
                ),
{
    lemma_first_unmatched(input.items, es, 0);
    assert forall|k: int| 0 <= k < input.items.len() implies exists|e: int|
        0 <= e < es.len() && names_match(
            #[trigger] input.items[k].original_name,
            #[trigger] es[e].name,
        ) by {
        assert(item_matched(input.items, es, k));
        let e = choose|e: int| 0 <= e < es.len() && first_match(input.items, #[trigger] es[e].name, 0) == k;
        lemma_first_match(input.items, es[e].name, 0);
    }
}

/// The module hash depends on the file name and source code alone: equal inputs give
/// equal hashes.
pub proof fn law_module_hash_is_deterministic(f1: Seq<char>, s1: Seq<char>, f2: Seq<char>, s2: Seq<char>)
    requires
        f1 == f2,
        s1 == s2,
    ensures
        crate::exports::module_hash_spec(f1, s1) == crate::exports::module_hash_spec(f2, s2),
{
}

proof fn lemma_wildcard_plan_from(
    es: Seq<ExportedFunctionV>,
    i: int,
    items: Seq<ItemSpecV>,
    acc: Seq<BindingV>,
)
    requires
        0 <= i <= es.len(),
    ensures
        plan_from(es, i, items, true, acc).len() == acc.len() + es.len() - i,
        forall|k: int| 0 <= k < acc.len() ==> #[trigger] plan_from(es, i, items, true, acc)[k] == acc[k],
        forall|k: int|
            i <= k < es.len() ==> #[trigger] plan_from(es, i, items, true, acc)[acc.len() + k - i].js_name
                == es[k].name,
    decreases es.len() - i,
{
    if i < es.len() {
        let b = plan_one(es[i], items, true)->Some_0;
        lemma_wildcard_plan_from(es, i + 1, items, acc.push(b));
        let r = plan_from(es, i, items, true, acc);
        assert(r == plan_from(es, i + 1, items, true, acc.push(b)));
        assert(b.js_name == es[i].name);
        assert forall|k: int| i <= k < es.len() implies #[trigger] r[acc.len() + k - i].js_name == es[k].name by {
            if k == i {
                assert(r[acc.len() as int] == acc.push(b)[acc.len() as int]);
            } else {
                assert(acc.push(b).len() + k - (i + 1) == acc.len() + k - i);
            }
        }
    }
}

/// A wildcard invocation that generates code generates exactly one binding per export, in
/// export order.
pub proof fn law_wildcard_generates_one_binding_per_export(input: BindJsInputV, es: Seq<ExportedFunctionV>)
    requires
        input.wildcard,
        (plan_spec(input, es) is Ok),
    ensures
        plan_spec(input, es)->Ok_0.len() == es.len(),
        forall|k: int| 0 <= k < es.len() ==> #[trigger] plan_spec(input, es)->Ok_0[k].js_name == es[k].name,
{
    lemma_wildcard_plan_from(es, 0, input.items, Seq::empty());
    assert forall|k: int| 0 <= k < es.len() implies #[trigger] plan_spec(input, es)->Ok_0[k].js_name == es[k].name by {
        assert(0 + k - 0 == k);
    }
}

/// An item names an export exactly when the export names the item: name matching is
/// symmetric.
pub proof fn law_name_matching_is_symmetric(a: Seq<char>, b: Seq<char>)
    ensures
        names_match(a, b) == names_match(b, a),
{
}

/// An item always names the export of its own name.
pub proof fn law_name_matches_itself(a: Seq<char>)
    ensures
        names_match(a, a),
{
}

proof fn lemma_selective_plan_from(
    es: Seq<ExportedFunctionV>,
    i: int,
    items: Seq<ItemSpecV>,
    acc: Seq<BindingV>,
)
    requires
        0 <= i <= es.len(),
    ensures
        plan_from(es, i, items, false, acc).len() >= acc.len(),
        forall|k: int| 0 <= k < acc.len() ==> #[trigger] plan_from(es, i, items, false, acc)[k] == acc[k],
        forall|k: int|
            acc.len() <= k < plan_from(es, i, items, false, acc).len() ==> exists|e: int|
                i <= e < es.len() && #[trigger] plan_from(es, i, items, false, acc)[k].js_name
                    == es[e].name && first_match(items, es[e].name, 0) < items.len(),
    decreases es.len() - i,
{
    if i < es.len() {
        let r = plan_from(es, i, items, false, acc);
        match plan_one(es[i], items, false) {
            Some(b) => {
                lemma_selective_plan_from(es, i + 1, items, acc.push(b));
                lemma_first_match(items, es[i].name, 0);
                assert(b.js_name == es[i].name);
                assert(first_match(items, es[i].name, 0) < items.len());
                assert forall|k: int| acc.len() <= k < r.len() implies exists|e: int|
                    i <= e < es.len() && #[trigger] r[k].js_name == es[e].name && first_match(
                        items,
                        es[e].name,
                        0,
                    ) < items.len() by {
                    if k == acc.len() {
                        assert(r[k] == acc.push(b)[k]);
                    }
                }
            },
            None => {
                lemma_selective_plan_from(es, i + 1, items, acc);
            },
        }
    }
}

/// Without a wildcard, every generated binding calls an export that some item of the
/// block names: exports that no item names are left out.
pub proof fn law_selective_binds_only_named_exports(input: BindJsInputV, es: Seq<ExportedFunctionV>)
    requires
        !input.wildcard,
        (plan_spec(input, es) is Ok),
    ensures
        forall|k: int|
            0 <= k < plan_spec(input, es)->Ok_0.len() ==> exists|e: int|
                0 <= e < es.len() && #[trigger] plan_spec(input, es)->Ok_0[k].js_name == es[e].name
                    && targeted(es[e].name, input.items, false),
{
    lemma_selective_plan_from(es, 0, input.items, Seq::empty());
    let bs = plan_spec(input, es)->Ok_0;
    assert forall|k: int| 0 <= k < bs.len() implies exists|e: int|
        0 <= e < es.len() && #[trigger] bs[k].js_name == es[e].name && targeted(es[e].name, input.items, false) by {
        let e = choose|e: int|
            0 <= e < es.len() && #[trigger] bs[k].js_name == es[e].name && first_match(
                input.items,
                es[e].name,
                0,
            ) < input.items.len();
        lemma_first_match(input.items, es[e].name, 0);
        let j = first_match(input.items, es[e].name, 0);
        assert(names_match(input.items[j].original_name, es[e].name));
    }
}

/// An exported `const f = (..) => ..` (or function expression) is bound exactly as the
/// exported function declaration `function f(..)` with the same signature and leading
/// comments would be.
pub proof fn law_function_const_binds_like_function_declaration(
    name: String,
    sig: TsSignature,
    comments: Vec<String>,
    decls: Vec<TsVarDecl>,
    m_const: TsModule,
    m_fn: TsModule,
    items: Seq<ItemSpecV>,
    wildcard: bool,
)
    requires
        decls@.len() == 1,
        decls@[0].name == Some(name),
        decls@[0].init == TsVarInit::Function(sig),
        decls@[0].comments == comments,
        m_const.items@ == seq![TsModuleItem::ExportVar(decls)],
        m_fn.items@ == seq![TsModuleItem::ExportFn(name, sig, comments)],
    ensures
        analyze_spec(m_const, items, wildcard) == analyze_spec(m_fn, items, wildcard),
{
    let ms1 = m_const.items@;
    let ms2 = m_fn.items@;
    assert(first_rejection(ms1, 1) is None);
    assert(first_rejection(ms2, 1) is None);
    assert(first_rejection(ms1, 0) is None);
    assert(first_rejection(ms2, 0) is None);
    let e = Seq::<ExportedFunctionV>::empty();
    assert(vars_from(decls@, 1, items, wildcard, e) == Ok::<Seq<ExportedFunctionV>, AnalyzeError>(e));
    match var_spec(decls@[0], items, wildcard) {
        Ok(Some(f)) => {
            assert(vars_from(decls@, 1, items, wildcard, e.push(f)) == Ok::<Seq<ExportedFunctionV>, AnalyzeError>(e.push(f)));
            assert(exports_from(ms1, 1, items, wildcard, e.push(f)) == Ok::<Seq<ExportedFunctionV>, AnalyzeError>(e.push(f)));
            assert(exports_from(ms2, 1, items, wildcard, e.push(f)) == Ok::<Seq<ExportedFunctionV>, AnalyzeError>(e.push(f)));
        },
        _ => {},
    }
}

/// A guard hands out its teardown at most once: once torn down, it hands out nothing.
pub proof fn law_second_teardown_does_nothing(g: WatcherGuard, res: Option<TeardownPlan>)
    requires
        g.is_cleaned(),
        teardown_outcome(g, res),
    ensures
        res is None,
{
}

/// The first teardown of a live guard hands out its receiver task, to be cancelled, and
/// the teardown script of its subscription, to be dispatched, whatever the runtime's state.
pub proof fn law_first_teardown_tears_down(g: WatcherGuard, res: Option<TeardownPlan>)
    requires
        !g.is_cleaned(),
        teardown_outcome(g, res),
    ensures
        res is Some,
        res->Some_0.task == g.spec_task(),
        res->Some_0.script@ == crate::watcher_guard::cleanup_script_spec(g.spec_sub_id()),
{
}

/// A module hash is 1 to 16 lowercase hexadecimal digits, whatever the file name and source.
pub proof fn law_module_hash_is_short_lowercase_hex(file_name: Seq<char>, source: Seq<char>)
    ensures
        1 <= crate::exports::module_hash_spec(file_name, source).len() <= 16,
        forall|i: int|
            0 <= i < crate::exports::module_hash_spec(file_name, source).len()
                ==> crate::text::is_hex_digit(#[trigger] crate::exports::module_hash_spec(file_name, source)[i]),
{
    let h = <std::collections::hash_map::DefaultHasher as vstd::std_specs::hash::DefaultHasherAdditionalSpecFns>::spec_finish(
        crate::exports::hash_input(file_name, source),
    );
    crate::text::lemma_u64_below_pow16(h);
    crate::text::lemma_hex_shape(h as nat, 16);
}

/// What a leading comment announces, whatever came before it: a comment whose trimmed text
/// contains `#[command]` makes the export a command; otherwise one containing `#[query]` a
/// query; otherwise one containing `#[watcher(raf)]` or `#[monitor(raf)]` a frame-coalesced
/// watcher; otherwise one containing `#[watcher]` or `#[monitor]` a plain watcher; and a
/// comment with none of these markers leaves the mode the earlier comments announce.
pub proof fn law_comment_markers_decide_mode(cs: Seq<Seq<char>>, c: Seq<char>)
    ensures
        contains(trim(c), "#[command]"@) ==> comments_mode(cs.push(c)) == Some(
            InteropMode::Command,
        ),
        !contains(trim(c), "#[command]"@) && contains(trim(c), "#[query]"@) ==> comments_mode(
            cs.push(c),
        ) == Some(InteropMode::Query),
        !contains(trim(c), "#[command]"@) && !contains(trim(c), "#[query]"@) && (contains(
            trim(c),
            "#[watcher(raf)]"@,
        ) || contains(trim(c), "#[monitor(raf)]"@)) ==> comments_mode(cs.push(c)) == Some(
            InteropMode::Watcher { is_raf: true },
        ),
        !contains(trim(c), "#[command]"@) && !contains(trim(c), "#[query]"@) && !contains(
            trim(c),
            "#[watcher(raf)]"@,
        ) && !contains(trim(c), "#[monitor(raf)]"@) && (contains(trim(c), "#[watcher]"@)
            || contains(trim(c), "#[monitor]"@)) ==> comments_mode(cs.push(c)) == Some(
            InteropMode::Watcher { is_raf: false },
        ),
        !contains(trim(c), "#[command]"@) && !contains(trim(c), "#[query]"@) && !contains(
            trim(c),
            "#[watcher(raf)]"@,
        ) && !contains(trim(c), "#[monitor(raf)]"@) && !contains(trim(c), "#[watcher]"@)
            && !contains(trim(c), "#[monitor]"@) ==> comments_mode(cs.push(c)) == comments_mode(cs),
{
    assert(cs.push(c).drop_last() =~= cs);
    assert(cs.push(c).last() == c);
}

/// A result annotated with a keyword type carries a value unless the keyword is `void` or
/// `undefined`: `string` gives an owned `String`, `number` an `f64`, `boolean` a `bool`, and
/// any other keyword a JSON value. An export with such a value-carrying result and no mode
/// annotation is a query.
pub proof fn law_keyword_result_carries_value(k: TsKeyword, is_async: bool)
    ensures
        return_spec(Some(TypeAnn::Keyword(k))).is_void == (k == TsKeyword::Void || k
            == TsKeyword::Undefined),
        !return_spec(Some(TypeAnn::Keyword(k))).is_promise,
        !return_spec(Some(TypeAnn::Keyword(k))).is_fn,
        (k == TsKeyword::Void || k == TsKeyword::Undefined) ==> return_spec(
            Some(TypeAnn::Keyword(k)),
        ).rust_type is None,
        k == TsKeyword::String ==> return_spec(Some(TypeAnn::Keyword(k))).rust_type == Some(
            RustTypeV::OwnedString,
        ),
        k == TsKeyword::Number ==> return_spec(Some(TypeAnn::Keyword(k))).rust_type == Some(
            RustTypeV::F64,
        ),
        k == TsKeyword::Boolean ==> return_spec(Some(TypeAnn::Keyword(k))).rust_type == Some(
            RustTypeV::Bool,
        ),
        !(k == TsKeyword::Void || k == TsKeyword::Undefined || k == TsKeyword::String || k
            == TsKeyword::Number || k == TsKeyword::Boolean) ==> return_spec(
            Some(TypeAnn::Keyword(k)),
        ).rust_type == Some(RustTypeV::JsonValue),
        !(k == TsKeyword::Void || k == TsKeyword::Undefined) ==> mode_of(
            None,
            None,
            is_async,
            return_spec(Some(TypeAnn::Keyword(k))).is_promise,
            return_spec(Some(TypeAnn::Keyword(k))).is_void,
        ) == InteropMode::Query,
{
}

/// A Rust type that owns its data: no `&str`, `&[T]` or `&Name` anywhere in it (and not
/// the empty placeholder).
pub open spec fn is_owned(r: RustTypeV) -> bool
    decreases r,
{
    match r {
        RustTypeV::Empty => false,
        RustTypeV::RefStr => false,
        RustTypeV::Slice(_) => false,
        RustTypeV::RefNamed(_) => false,
        RustTypeV::VecOf(b) => is_owned(*b),
        RustTypeV::OptionOf(b) => is_owned(*b),
        RustTypeV::ArrayOf(b, _) => is_owned(*b),
        RustTypeV::Tuple(ts) => all_owned(ts),
        _ => true,
    }
}

/// Every type of `ts` is owned.
pub open spec fn all_owned(ts: Seq<RustTypeV>) -> bool
    decreases ts,
{
    if ts.len() == 0 {
        true
    } else {
        proof {
            assert(decreases_to!(ts => ts.drop_last()));
            assert(decreases_to!(ts => ts[ts.len() - 1]));
        }
        all_owned(ts.drop_last()) && is_owned(ts[ts.len() - 1])
    }
}

proof fn lemma_all_owned(ts: Seq<RustTypeV>)
    requires
        forall|i: int| 0 <= i < ts.len() ==> #[trigger] is_owned(ts[i]),
    ensures
        all_owned(ts),
    decreases ts.len(),
{
    if ts.len() > 0 {
        let d = ts.drop_last();
        assert forall|i: int| 0 <= i < d.len() implies #[trigger] is_owned(d[i]) by {
            assert(d[i] == ts[i]);
        }
        lemma_all_owned(d);
        assert(is_owned(ts[ts.len() - 1]));
    }
}

/// Every result type is owned: whatever the annotation, the Rust type of a result holds no
/// borrowed part, however deeply nested.
pub proof fn law_result_types_are_owned(t: TypeAnn)
    ensures
        is_owned(map_type(t, true)),
    decreases t,
{
    match t {
        TypeAnn::Array(e) => {
            law_result_types_are_owned(*e);
            let inner = map_type(*e, true);
            assert(map_type(t, true) == RustTypeV::VecOf(Box::new(inner)));
            assert(is_owned(RustTypeV::VecOf(Box::new(inner))));
        },
        TypeAnn::Tuple(es) => {
            lemma_map_types(es@, true);
            assert forall|i: int| 0 <= i < es@.len() implies #[trigger] is_owned(
                map_type(es@[i], true),
            ) by {
                assert(decreases_to!(t => es));
                assert(decreases_to!(es => es@));
                assert(decreases_to!(es@ => es@[i]));
                law_result_types_are_owned(es@[i]);
            }
            let ts = map_types(es@, true);
            assert forall|i: int| 0 <= i < ts.len() implies #[trigger] is_owned(ts[i]) by {
                assert(ts[i] == map_type(es@[i], true));
            }
            assert(map_type(t, true) == crate::type_map::tuple_type(ts));
            if ts.len() > 0 && crate::type_map::all_same(ts) {
                assert(is_owned(ts[0]));
                assert(is_owned(RustTypeV::ArrayOf(Box::new(ts[0]), ts.len())));
            } else {
                lemma_all_owned(ts);
                assert(is_owned(RustTypeV::Tuple(ts)));
            }
        },
        TypeAnn::Union(us) => {
            let j = first_non_null(us@, 0);
            if 0 <= j < us@.len() {
                assert(decreases_to!(t => us));
                assert(decreases_to!(us => us@));
                assert(decreases_to!(us@ => us@[j]));
                law_result_types_are_owned(us@[j]);
            }
            assert(is_owned(map_type(t, true)));
        },
        TypeAnn::TypeRef(name, Some(args)) => {
            if args@.len() > 0 {
                let a = t->TypeRef_1;
                assert(decreases_to!(t => a));
                assert(decreases_to!(a => a->Some_0));
                assert(decreases_to!(a->Some_0 => a->Some_0@));
                assert(decreases_to!(a->Some_0@ => a->Some_0@[0]));
                law_result_types_are_owned(args@[0]);
            }
            assert(is_owned(map_type(t, true)));
        },
        TypeAnn::Keyword(k) => {
            assert(is_owned(map_type(t, true)));
        },
        _ => {
            assert(is_owned(map_type(t, true)));
        },
    }
}

proof fn lemma_single_non_null(s: Seq<TypeAnn>, j: int)
    requires
        0 <= j < s.len(),
        !is_nullish(s[j]),
        forall|k: int| 0 <= k < s.len() && k != j ==> is_nullish(#[trigger] s[k]),
    ensures
        count_non_null(s) == 1,
        first_non_null(s, 0) == j,
{
    lemma_count_one(s, j);
    lemma_first_non_null_from(s, j, 0);
}

proof fn lemma_count_one(s: Seq<TypeAnn>, j: int)
    requires
        0 <= j,
        forall|k: int| 0 <= k < s.len() && k != j ==> is_nullish(#[trigger] s[k]),
        j < s.len() ==> !is_nullish(s[j]),
    ensures
        count_non_null(s) == (if j < s.len() { 1nat } else { 0nat }),
    decreases s.len(),
{
    if s.len() > 0 {
        let d = s.drop_last();
        assert forall|k: int| 0 <= k < d.len() && k != j implies is_nullish(#[trigger] d[k]) by {
            assert(d[k] == s[k]);
        }
        if j < d.len() {
            assert(d[j] == s[j]);
        }
        lemma_count_one(d, j);
    }
}

proof fn lemma_first_non_null_from(s: Seq<TypeAnn>, j: int, i: int)
    requires
        0 <= i <= j < s.len(),
        !is_nullish(s[j]),
        forall|k: int| 0 <= k < s.len() && k != j ==> is_nullish(#[trigger] s[k]),
    ensures
        first_non_null(s, i) == j,
    decreases j - i,
{
    if i < j {
        lemma_first_non_null_from(s, j, i + 1);
    }
}

/// A union with exactly one member that is neither `undefined` nor `null` (and not made of
/// string literals alone) is that member's type made optional, in the same position:
/// `T | undefined` and `T | null` are `Option<T>` with `T` mapped as a parameter or as a
/// result, as the union is.
pub proof fn law_nullable_union_is_option(us: Vec<TypeAnn>, j: int, ret: bool)
    requires
        0 <= j < us@.len(),
        us@[j] != TypeAnn::Keyword(TsKeyword::Undefined),
        us@[j] != TypeAnn::Keyword(TsKeyword::Null),
        forall|k: int|
            0 <= k < us@.len() && k != j ==> #[trigger] us@[k] == TypeAnn::Keyword(
                TsKeyword::Undefined,
            ) || us@[k] == TypeAnn::Keyword(TsKeyword::Null),
        exists|k: int| 0 <= k < us@.len() && !(#[trigger] us@[k] is StrLit),
    ensures
        map_type(TypeAnn::Union(us), ret) == RustTypeV::OptionOf(Box::new(map_type(us@[j], ret))),
{
    assert forall|k: int| 0 <= k < us@.len() && k != j implies is_nullish(#[trigger] us@[k]) by {
        if us@[k] == TypeAnn::Keyword(TsKeyword::Undefined) {
        } else {
            assert(us@[k] == TypeAnn::Keyword(TsKeyword::Null));
        }
    }
    lemma_single_non_null(us@, j);
}

/// A parameter that is not a callback.
pub open spec fn non_callback(p: ParamInfoV) -> bool {
    !p.is_callback
}

proof fn lemma_binding_params_filter(ps: Seq<ParamInfoV>, watcher: bool)
    ensures
        binding_params(ps, watcher) == (if watcher {
            ps.filter(|p: ParamInfoV| non_callback(p))
        } else {
            ps
        }),
    decreases ps.len(),
{
    reveal(Seq::filter);
    if ps.len() > 0 {
        lemma_binding_params_filter(ps.drop_last(), watcher);
        if !watcher {
            assert(ps.drop_last().push(ps.last()) =~= ps);
        } else {
            let pred = |p: ParamInfoV| non_callback(p);
            assert(ps.filter(pred) == (if pred(ps.last()) {
                ps.drop_last().filter(pred).push(ps.last())
            } else {
                ps.drop_last().filter(pred)
            }));
        }
    }
}

/// A watcher binding takes exactly the export's non-callback parameters, in order (the
/// event handler replaces the callbacks); a command or query binding takes every
/// parameter. Names are the parameters' names in snake_case, types their Rust types.
pub proof fn law_binding_parameters(e: ExportedFunctionV, mode: InteropMode, rust_name: Seq<char>)
    ensures
        ({
            let kept = if mode is Watcher {
                e.params.filter(|p: ParamInfoV| non_callback(p))
            } else {
                e.params
            };
            &&& binding_spec(e, mode, rust_name).param_types == kept.map_values(
                |p: ParamInfoV| p.rust_param_type,
            )
            &&& binding_spec(e, mode, rust_name).param_names == kept.map_values(
                |p: ParamInfoV| snake_case(p.name),
            )
        }),
{
    lemma_binding_params_filter(e.params, mode is Watcher);
    let kept = if mode is Watcher {
        e.params.filter(|p: ParamInfoV| non_callback(p))
    } else {
        e.params
    };
    assert(binding_spec(e, mode, rust_name).param_types =~= kept.map_values(
        |p: ParamInfoV| p.rust_param_type,
    ));
    assert(binding_spec(e, mode, rust_name).param_names =~= kept.map_values(
        |p: ParamInfoV| snake_case(p.name),
    ));
}

proof fn lemma_fold_modes_tail(
    t: Seq<TokenV>,
    a: Seq<AttrV>,
    b: Seq<AttrV>,
    i: int,
    mode: Option<InteropMode>,
)
    requires
        0 <= i,
        a.len() == b.len(),
        forall|k: int| i <= k < a.len() ==> #[trigger] a[k] == b[k],
    ensures
        fold_modes(t, a, i, mode) == fold_modes(t, b, i, mode),
    decreases a.len() - i,
{
    if i < a.len() {
        assert(a[i] == b[i]);
        let next = if a[i].name == Some("command"@) {
            Some(InteropMode::Command)
        } else {
            Some(InteropMode::Query)
        };
        lemma_fold_modes_tail(t, a, b, i + 1, next);
        lemma_fold_modes_tail(t, a, b, i + 1, Some(InteropMode::Watcher { is_raf: true }));
        lemma_fold_modes_tail(t, a, b, i + 1, Some(InteropMode::Watcher { is_raf: false }));
        lemma_fold_modes_tail(t, a, b, i + 1, Some(InteropMode::Command));
        lemma_fold_modes_tail(t, a, b, i + 1, Some(InteropMode::Query));
    }
}

/// `monitor` is another name for `watcher`: an item attribute `#[monitor(..)]` sets the same
/// mode as `#[watcher(..)]` with the same arguments, wherever it stands among the item's
/// attributes.
pub proof fn law_monitor_is_watcher(
    t: Seq<TokenV>,
    attrs: Seq<AttrV>,
    i: int,
    mode: Option<InteropMode>,
)
    requires
        0 <= i < attrs.len(),
        attrs[i].name == Some("monitor"@),
    ensures
        fold_modes(t, attrs, i, mode) == fold_modes(
            t,
            attrs.update(i, AttrV { name: Some("watcher"@), args: attrs[i].args }),
            i,
            mode,
        ),
{
    let b = attrs.update(i, AttrV { name: Some("watcher"@), args: attrs[i].args });
    reveal_strlit("monitor");
    reveal_strlit("watcher");
    reveal_strlit("command");
    reveal_strlit("query");
    assert("monitor"@ != "command"@ && "monitor"@ != "query"@ && "monitor"@ != "watcher"@) by {
        assert("monitor"@[0] != "command"@[0]);
        assert("monitor"@[0] != "query"@[0]);
        assert("monitor"@[0] != "watcher"@[0]);
    }
    assert("watcher"@ != "command"@ && "watcher"@ != "query"@) by {
        assert("watcher"@[0] != "command"@[0]);
        assert("watcher"@[0] != "query"@[0]);
    }
    lemma_fold_modes_tail(t, attrs, b, i + 1, Some(InteropMode::Watcher { is_raf: true }));
    lemma_fold_modes_tail(t, attrs, b, i + 1, Some(InteropMode::Watcher { is_raf: false }));
}

/// A `#[watcher]` or `#[monitor]` attribute without arguments, or with an empty list,
/// asks for a plain watcher: no frame coalescing. As the last attribute of an item it sets
/// that mode.
pub proof fn law_plain_watcher_attribute(t: Seq<TokenV>, n: Seq<char>, args: AttrArgs, mode: Option<InteropMode>)
    requires
        n == "watcher"@ || n == "monitor"@,
        args is Path || (args matches AttrArgs::List(x, y) && x >= y),
    ensures
        fold_modes(t, seq![AttrV { name: Some(n), args }], 0, mode) == Ok::<
            Option<InteropMode>,
            crate::syntax::ParseError,
        >(Some(InteropMode::Watcher { is_raf: false })),
{
    reveal_strlit("monitor");
    reveal_strlit("watcher");
    reveal_strlit("command");
    reveal_strlit("query");
    assert(n != "command"@ && n != "query"@) by {
        assert(n[0] != "command"@[0]);
        assert(n[0] != "query"@[0]);
    }
    let attrs = seq![AttrV { name: Some(n), args }];
    assert(attrs[0].name == Some(n));
    assert(fold_modes(t, attrs, 1, Some(InteropMode::Watcher { is_raf: false })) == Ok::<
        Option<InteropMode>,
        crate::syntax::ParseError,
    >(Some(InteropMode::Watcher { is_raf: false })));
}

/// Without an attribute or annotation, an export's mode follows its signature: a `Promise`
/// result or an `async` function with a result is a query; a synchronous or `async`
/// function without a result (and not a `Promise`) is a command; a synchronous function with
/// a result is a query.
pub proof fn law_inferred_mode(is_async: bool, is_promise: bool, is_void: bool)
    ensures
        is_promise ==> mode_of(None, None, is_async, is_promise, is_void) == InteropMode::Query,
        is_async && !is_void ==> mode_of(None, None, is_async, is_promise, is_void)
            == InteropMode::Query,
        !is_promise && is_void ==> mode_of(None, None, is_async, is_promise, is_void)
            == InteropMode::Command,
        !is_promise && !is_async && !is_void ==> mode_of(None, None, is_async, is_promise, is_void)
            == InteropMode::Query,
{
}

/// What a result annotation says beyond keywords: no annotation carries nothing;
/// `Promise<T>` is a promise carrying `T` as a result type (nothing for `Promise<void>` or a
/// bare `Promise`); a function or constructor type is a higher-order result carrying
/// nothing; an array `T[]` carries `Vec` of `T`'s result type.
pub proof fn law_result_annotations(name: String, args: Vec<TypeAnn>, inner: TypeAnn, cb: Option<Box<TypeAnn>>)
    ensures
        return_spec(None).is_void && return_spec(None).rust_type is None && !return_spec(
            None,
        ).is_promise && !return_spec(None).is_fn,
        name@ == "Promise"@ && args@.len() > 0 && args@[0] != TypeAnn::Keyword(TsKeyword::Void)
            ==> return_spec(Some(TypeAnn::TypeRef(name, Some(args)))) == (crate::analyzer::ReturnInfoV {
            rust_type: Some(map_type(args@[0], true)),
            is_promise: true,
            is_void: false,
            is_fn: false,
        }),
        name@ == "Promise"@ && args@.len() > 0 && args@[0] == TypeAnn::Keyword(TsKeyword::Void)
            ==> return_spec(Some(TypeAnn::TypeRef(name, Some(args)))).rust_type is None
            && return_spec(Some(TypeAnn::TypeRef(name, Some(args)))).is_promise && return_spec(
            Some(TypeAnn::TypeRef(name, Some(args))),
        ).is_void,
        return_spec(Some(TypeAnn::FnType(cb))).is_fn && return_spec(
            Some(TypeAnn::FnType(cb)),
        ).rust_type is None,
        return_spec(Some(TypeAnn::ConstructorType)).is_fn,
        return_spec(Some(TypeAnn::Array(Box::new(inner)))).rust_type == Some(
            RustTypeV::VecOf(Box::new(map_type(inner, true))),
        ),
        !return_spec(Some(TypeAnn::Array(Box::new(inner)))).is_void,
{
}

/// Parameters take borrowed forms and results owned ones: `string` is `&str` as a parameter
/// and `String` as a result; `T[]` is `&[T]` with `T` as a parameter and `Vec<T>` with `T` as
/// a result; a named type `N` is `&N` and `N`; `number` and `boolean` are `f64` and `bool`
/// in both; a qualified name such as `A.B` is a JSON value in both.
pub proof fn law_parameter_and_result_forms(elem: TypeAnn, name: String)
    ensures
        map_type(TypeAnn::Keyword(TsKeyword::String), false) == RustTypeV::RefStr,
        map_type(TypeAnn::Keyword(TsKeyword::String), true) == RustTypeV::OwnedString,
        map_type(TypeAnn::Keyword(TsKeyword::Number), false) == RustTypeV::F64,
        map_type(TypeAnn::Keyword(TsKeyword::Number), true) == RustTypeV::F64,
        map_type(TypeAnn::Keyword(TsKeyword::Boolean), false) == RustTypeV::Bool,
        map_type(TypeAnn::Keyword(TsKeyword::Boolean), true) == RustTypeV::Bool,
        map_type(TypeAnn::Array(Box::new(elem)), false) == RustTypeV::Slice(
            Box::new(map_type(elem, false)),
        ),
        map_type(TypeAnn::Array(Box::new(elem)), true) == RustTypeV::VecOf(
            Box::new(map_type(elem, true)),
        ),
        !contains(name@, "."@) ==> map_type(TypeAnn::TypeRef(name, None), false)
            == RustTypeV::RefNamed(name@),
        !contains(name@, "."@) ==> map_type(TypeAnn::TypeRef(name, None), true)
            == RustTypeV::Named(name@),
        contains(name@, "."@) ==> map_type(TypeAnn::TypeRef(name, None), false)
            == RustTypeV::JsonValue && map_type(TypeAnn::TypeRef(name, None), true)
            == RustTypeV::JsonValue,
{
}

/// A parameter annotated with a function type is a callback: it has no Rust parameter type,
/// and its event type is the result form of the callback's first parameter annotation. Any
/// other annotated parameter has the parameter form of its annotation; an unannotated one
/// is a JSON value.
pub proof fn law_parameter_kinds(name: Seq<char>, t: TypeAnn, cb: Option<Box<TypeAnn>>)
    ensures
        param_spec(name, Some(TypeAnn::FnType(cb))).is_callback,
        param_spec(name, Some(TypeAnn::FnType(cb))).callback_arg_type == (match cb {
            Some(b) => Some(map_type(*b, true)),
            None => None::<RustTypeV>,
        }),
        !(t is FnType) ==> !param_spec(name, Some(t)).is_callback && param_spec(
            name,
            Some(t),
        ).rust_param_type == map_type(t, false),
        !param_spec(name, None).is_callback && param_spec(name, None).rust_param_type
            == RustTypeV::JsonValue,
        param_spec(name, Some(t)).name == name,
{
}

proof fn lemma_first_callback(ps: Seq<ParamInfoV>, i: int, k: int)
    requires
        0 <= i <= k < ps.len(),
        ps[k].is_callback,
        forall|m: int| i <= m < k ==> !(#[trigger] ps[m]).is_callback,
    ensures
        first_callback(ps, i) == k,
    decreases k - i,
{
    if i < k {
        lemma_first_callback(ps, i + 1, k);
    }
}

/// A watcher's event type is that of its first callback parameter (`()` when that callback's
/// parameter is unannotated), and `()` when it has no callback parameter.
pub proof fn law_watcher_event_type(ps: Seq<ParamInfoV>, k: int)
    ensures
        (0 <= k < ps.len() && ps[k].is_callback && forall|m: int|
            0 <= m < k ==> !(#[trigger] ps[m]).is_callback) ==> callback_arg_spec(ps) == (
        match ps[k].callback_arg_type {
            Some(a) => a,
            None => RustTypeV::Unit,
        }),
        (forall|m: int| 0 <= m < ps.len() ==> !(#[trigger] ps[m]).is_callback) ==> callback_arg_spec(
            ps,
        ) == RustTypeV::Unit,
{
    if 0 <= k < ps.len() && ps[k].is_callback && forall|m: int|
        0 <= m < k ==> !(#[trigger] ps[m]).is_callback {
        lemma_first_callback(ps, 0, k);
    }
    if forall|m: int| 0 <= m < ps.len() ==> !(#[trigger] ps[m]).is_callback {
        lemma_no_callback(ps, 0);
    }
}

proof fn lemma_no_callback(ps: Seq<ParamInfoV>, i: int)
    requires
        0 <= i <= ps.len(),
        forall|m: int| 0 <= m < ps.len() ==> !(#[trigger] ps[m]).is_callback,
    ensures
        first_callback(ps, i) == ps.len(),
    decreases ps.len() - i,
{
    if i < ps.len() {
        lemma_no_callback(ps, i + 1);
    }
}

/// How an export is generated: when item `j` is the first item of the block naming it, the
/// binding calls the export, takes the item's mode if it gives one (else the export's own),
/// and is named by the item's rename in snake_case (else the export's name in snake_case);
/// when no item names it, a wildcard generates it under its own mode and snake_case name,
/// and otherwise it is not generated.
pub proof fn law_generated_binding(e: ExportedFunctionV, items: Seq<ItemSpecV>, wildcard: bool, j: int)
    ensures
        (0 <= j < items.len() && names_match(items[j].original_name, e.name) && forall|m: int|
            0 <= m < j ==> !names_match(#[trigger] items[m].original_name, e.name)) ==> ({
            let b = plan_one(e, items, wildcard);
            &&& b is Some
            &&& b->Some_0.js_name == e.name
            &&& b->Some_0.mode == (match items[j].mode {
                Some(m) => m,
                None => e.mode,
            })
            &&& b->Some_0.rust_name == (match items[j].rename_as {
                Some(r) => snake_case(r),
                None => snake_case(e.name),
            })
        }),
        (forall|m: int| 0 <= m < items.len() ==> !names_match(#[trigger] items[m].original_name, e.name))
            ==> (if wildcard {
            &&& plan_one(e, items, wildcard) is Some
            &&& plan_one(e, items, wildcard)->Some_0.js_name == e.name
            &&& plan_one(e, items, wildcard)->Some_0.mode == e.mode
            &&& plan_one(e, items, wildcard)->Some_0.rust_name == snake_case(e.name)
        } else {
            plan_one(e, items, wildcard) is None
        }),
{
    lemma_first_match(items, e.name, 0);
    if 0 <= j < items.len() && names_match(items[j].original_name, e.name) && forall|m: int|
        0 <= m < j ==> !names_match(#[trigger] items[m].original_name, e.name) {
        let f = first_match(items, e.name, 0);
        if f < j {
            assert(!names_match(items[f].original_name, e.name));
        }
        assert(f == j);
    }
    if forall|m: int| 0 <= m < items.len() ==> !names_match(#[trigger] items[m].original_name, e.name) {
        let f = first_match(items, e.name, 0);
        if f < items.len() {
            assert(!names_match(items[f].original_name, e.name));
        }
    }
}

/// The last attribute of an item decides its mode: `#[command]` a command, `#[query]` a
/// query (whatever their arguments), and an attribute with any other name than these,
/// `watcher` and `monitor` is refused as unknown.
pub proof fn law_last_attribute(t: Seq<TokenV>, attrs: Seq<AttrV>, mode: Option<InteropMode>)
    requires
        attrs.len() > 0,
    ensures
        attrs.last().name == Some("command"@) ==> fold_modes(t, attrs, attrs.len() - 1, mode)
            == Ok::<Option<InteropMode>, crate::syntax::ParseError>(Some(InteropMode::Command)),
        attrs.last().name == Some("query"@) ==> fold_modes(t, attrs, attrs.len() - 1, mode)
            == Ok::<Option<InteropMode>, crate::syntax::ParseError>(Some(InteropMode::Query)),
        (attrs.last().name != Some("command"@) && attrs.last().name != Some("query"@)
            && attrs.last().name != Some("watcher"@) && attrs.last().name != Some("monitor"@))
            ==> fold_modes(t, attrs, attrs.len() - 1, mode) == Err::<
            Option<InteropMode>,
            crate::syntax::ParseError,
        >(crate::syntax::ParseError::UnknownAttribute),
{
    reveal_strlit("command");
    reveal_strlit("query");
    assert("query"@ != "command"@) by {
        assert("query"@[0] != "command"@[0]);
    }
    let i = attrs.len() - 1;
    assert(attrs[i] == attrs.last());
    assert(fold_modes(t, attrs, i + 1, Some(InteropMode::Command)) == Ok::<
        Option<InteropMode>,
        crate::syntax::ParseError,
    >(Some(InteropMode::Command)));
    assert(fold_modes(t, attrs, i + 1, Some(InteropMode::Query)) == Ok::<
        Option<InteropMode>,
        crate::syntax::ParseError,
    >(Some(InteropMode::Query)));
}

/// `#[watcher(raf)]` (or `#[monitor(raf)]`) asks for a frame-coalesced watcher, and a
/// watcher argument naming anything but `raf` is refused as an unknown watcher argument.
pub proof fn law_watcher_raf_argument(t: Seq<TokenV>, n: Seq<char>, a: int, arg: Seq<char>, mode: Option<InteropMode>)
    requires
        n == "watcher"@ || n == "monitor"@,
        0 <= a < t.len(),
        t[a] == TokenV::Ident(arg),
    ensures
        arg == "raf"@ ==> fold_modes(t, seq![AttrV { name: Some(n), args: AttrArgs::List(a, a + 1) }], 0, mode)
            == Ok::<Option<InteropMode>, crate::syntax::ParseError>(
            Some(InteropMode::Watcher { is_raf: true }),
        ),
        arg != "raf"@ ==> fold_modes(t, seq![AttrV { name: Some(n), args: AttrArgs::List(a, a + 1) }], 0, mode)
            == Err::<Option<InteropMode>, crate::syntax::ParseError>(
            crate::syntax::ParseError::UnknownWatcherArgument,
        ),
{
    reveal_strlit("monitor");
    reveal_strlit("watcher");
    reveal_strlit("command");
    reveal_strlit("query");
    assert(n != "command"@ && n != "query"@) by {
        assert(n[0] != "command"@[0]);
        assert(n[0] != "query"@[0]);
    }
    let attrs = seq![AttrV { name: Some(n), args: AttrArgs::List(a, a + 1) }];
    assert(attrs[0].name == Some(n));
    assert(crate::syntax::path_rest(t, a + 1, a + 1) == Some(a + 1));
    assert(crate::syntax::meta_path(t, a, a + 1) == Some((Some(arg), a + 1)));
    assert(fold_modes(t, attrs, 1, Some(InteropMode::Watcher { is_raf: true })) == Ok::<
        Option<InteropMode>,
        crate::syntax::ParseError,
    >(Some(InteropMode::Watcher { is_raf: true })));
}

} // verus!
