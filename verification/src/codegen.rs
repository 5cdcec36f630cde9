//! Which Rust functions a `bind_js!` invocation generates for an analyzed module, and
//! their signatures.
//!
//! Every export is matched against the block's items (by lowerCamelCase or snake_case name);
//! a matched export is generated under its item's mode (else the export's own) and under its
//! item's rename (else its own name), in snake_case; an unmatched export is generated only
//! under a wildcard. Every item must match an export.
use vstd::prelude::*;
use crate::analyzer::{ParamInfo, ParamInfoV, first_match, lemma_first_match};
use crate::casing::{exec_names_match, snake_case, to_snake_case};
use crate::exports::{ExportedFunction, ExportedFunctionV, exports_view, params_view};
use crate::rust_type::{RustType, RustTypeV, rt_view, rt_views, lemma_rt_views};
use crate::syntax::{BindJsInput, BindJsInputV, InteropMode, ItemSpecV, items_view};
use crate::text::{chars_of, string_of};
use crate::rust_type::{push_chars, push_str};

verus! {

/// A Rust function to generate.
#[derive(Debug)]
pub struct Binding {
    /// The exported JavaScript function it calls.
    pub js_name: String,
    /// The Rust function's name.
    pub rust_name: String,
    pub mode: InteropMode,
    /// Parameter names (snake_case) and types, in order; a watcher's callback parameters
    /// are left out.
    pub param_names: Vec<String>,
    pub param_types: Vec<RustType>,
    /// The query's result type (`()` when the export has none).
    pub return_type: RustType,
    /// The argument type of a watcher's event callback: that of the first callback
    /// parameter (`()` when there is none or it is unannotated).
    pub callback_arg_type: RustType,
    /// Documentation of the generated function (empty when the export has none).
    pub doc: String,
}

/// Value of a [`Binding`].
pub struct BindingV {
    pub js_name: Seq<char>,
    pub rust_name: Seq<char>,
    pub mode: InteropMode,
    pub param_names: Seq<Seq<char>>,
    pub param_types: Seq<RustTypeV>,
    pub return_type: RustTypeV,
    pub callback_arg_type: RustTypeV,
    pub doc: Seq<char>,
}

impl View for Binding {
    type V = BindingV;

    open spec fn view(&self) -> BindingV {
        BindingV {
            js_name: self.js_name@,
            rust_name: self.rust_name@,
            mode: self.mode,
            param_names: self.param_names@.map_values(|s: String| s@),
            param_types: rt_views(self.param_types@),
            return_type: rt_view(self.return_type),
            callback_arg_type: rt_view(self.callback_arg_type),
            doc: self.doc@,
        }
    }
}

pub open spec fn bindings_view(v: Seq<Binding>) -> Seq<BindingV> {
    v.map_values(|b: Binding| b@)
}

/// An item of the block that names no export.
#[derive(Debug)]
pub struct CodegenError {
    pub item_name: String,
    pub file_path: String,
}

pub open spec fn codegen_error_message(item_name: Seq<char>, file_path: Seq<char>) -> Seq<char> {
    "Function '"@ + item_name + "' was not found in exported functions of '"@ + file_path + "'"@
}

impl CodegenError {
    /// The diagnostic reported for this error.
    pub fn message(&self) -> (res: String)
        ensures
            res@ == codegen_error_message(self.item_name@, self.file_path@),
    {
        let mut out: Vec<char> = Vec::new();
        push_str(&mut out, "Function '");
        push_str(&mut out, self.item_name.as_str());
        push_str(&mut out, "' was not found in exported functions of '");
        push_str(&mut out, self.file_path.as_str());
        push_str(&mut out, "'");
        string_of(&out)
    }
}

// ------------------------------------------------------------------ spec

/// The parameters a binding in mode `mode` takes: all of them, except that a watcher's
/// callback parameters are left out (the generated watcher takes the event handler instead).
pub open spec fn binding_params(ps: Seq<ParamInfoV>, watcher: bool) -> Seq<ParamInfoV>
    decreases ps.len(),
{
    if ps.len() == 0 {
        Seq::empty()
    } else if watcher && ps.last().is_callback {
        binding_params(ps.drop_last(), watcher)
    } else {
        binding_params(ps.drop_last(), watcher).push(ps.last())
    }
}

/// Index of the first callback parameter from `i` on (`ps.len()` if none).
pub open spec fn first_callback(ps: Seq<ParamInfoV>, i: int) -> int
    decreases ps.len() - i,
{
    if i < 0 || i >= ps.len() {
        ps.len() as int
    } else if ps[i].is_callback {
        i
    } else {
        first_callback(ps, i + 1)
    }
}

/// The event type of a watcher with parameters `ps`.
pub open spec fn callback_arg_spec(ps: Seq<ParamInfoV>) -> RustTypeV {
    let k = first_callback(ps, 0);
    if 0 <= k < ps.len() {
        match ps[k].callback_arg_type {
            Some(t) => t,
            None => RustTypeV::Unit,
        }
    } else {
        RustTypeV::Unit
    }
}

/// The binding of export `e` under `mode` and Rust name `rust_name`.
pub open spec fn binding_spec(e: ExportedFunctionV, mode: InteropMode, rust_name: Seq<char>) -> BindingV {
    let ps = binding_params(e.params, mode is Watcher);
    BindingV {
        js_name: e.name,
        rust_name,
        mode,
        param_names: Seq::new(ps.len(), |k: int| snake_case(ps[k].name)),
        param_types: Seq::new(ps.len(), |k: int| ps[k].rust_param_type),
        return_type: match e.return_rust_type {
            Some(t) => t,
            None => RustTypeV::Unit,
        },
        callback_arg_type: callback_arg_spec(e.params),
        doc: match e.doc_comment {
            Some(d) => d,
            None => Seq::empty(),
        },
    }
}

/// The binding generated for export `e`, if any.
pub open spec fn plan_one(e: ExportedFunctionV, items: Seq<ItemSpecV>, wildcard: bool) -> Option<BindingV> {
    let j = first_match(items, e.name, 0);
    if 0 <= j < items.len() {
        let mode = match items[j].mode {
            Some(m) => m,
            None => e.mode,
        };
        let rust_name = match items[j].rename_as {
            Some(r) => snake_case(r),
            None => snake_case(e.name),
        };
        Some(binding_spec(e, mode, rust_name))
    } else if wildcard {
        Some(binding_spec(e, e.mode, snake_case(e.name)))
    } else {
        None
    }
}

/// The bindings generated for exports `es[i..]`, appended to `acc`.
pub open spec fn plan_from(
    es: Seq<ExportedFunctionV>,
    i: int,
    items: Seq<ItemSpecV>,
    wildcard: bool,
    acc: Seq<BindingV>,
) -> Seq<BindingV>
    decreases es.len() - i,
{
    if i < 0 || i >= es.len() {
        acc
    } else {
        match plan_one(es[i], items, wildcard) {
            Some(b) => plan_from(es, i + 1, items, wildcard, acc.push(b)),
            None => plan_from(es, i + 1, items, wildcard, acc),
        }
    }
}

/// Item `k` is the first item naming some export.
pub open spec fn item_matched(items: Seq<ItemSpecV>, es: Seq<ExportedFunctionV>, k: int) -> bool {
    exists|e: int| 0 <= e < es.len() && first_match(items, #[trigger] es[e].name, 0) == k
}

/// Index of the first item from `k` on that names no export first (`items.len()` if none).
pub open spec fn first_unmatched(items: Seq<ItemSpecV>, es: Seq<ExportedFunctionV>, k: int) -> int
    decreases items.len() - k,
{
    if k < 0 || k >= items.len() {
        items.len() as int
    } else if !item_matched(items, es, k) {
        k
    } else {
        first_unmatched(items, es, k + 1)
    }
}

/// What an invocation generates for an analyzed module: `Err` with the first item that
/// names no export (by index), else the bindings in export order.
pub open spec fn plan_spec(input: BindJsInputV, es: Seq<ExportedFunctionV>) -> Result<Seq<BindingV>, int> {
    let k = first_unmatched(input.items, es, 0);
    if k < input.items.len() {
        Err(k)
    } else {
        Ok(plan_from(es, 0, input.items, input.wildcard, Seq::empty()))
    }
}

// ------------------------------------------------------------------ exec

/// A copy of `t`.
pub fn clone_rust_type(t: &RustType) -> (res: RustType)
    ensures
        rt_view(res) == rt_view(*t),
    decreases t,
{
    match t {
        RustType::Empty => RustType::Empty,
        RustType::Unit => RustType::Unit,
        RustType::RefStr => RustType::RefStr,
        RustType::F64 => RustType::F64,
        RustType::Bool => RustType::Bool,
        RustType::OwnedString => RustType::OwnedString,
        RustType::JsonValue => RustType::JsonValue,
        RustType::Slice(b) => RustType::Slice(Box::new(clone_rust_type(b))),
        RustType::VecOf(b) => RustType::VecOf(Box::new(clone_rust_type(b))),
        RustType::ArrayOf(b, n) => RustType::ArrayOf(Box::new(clone_rust_type(b)), *n),
        RustType::Tuple(v) => {
            let mut out: Vec<RustType> = Vec::new();
            let mut i: usize = 0;
            while i < v.len()
                invariant
                    *t == RustType::Tuple(*v),
                    i <= v.len(),
                    rt_views(out@) == rt_views(v@.take(i as int)),
                decreases v.len() - i,
            {
                proof {
                    assert(decreases_to!(*t => (*t)->Tuple_0));
                    assert(decreases_to!((*t)->Tuple_0 => (*t)->Tuple_0@));
                    assert(decreases_to!((*t)->Tuple_0@ => (*t)->Tuple_0@[i as int]));
                }
                let c = clone_rust_type(&v[i]);
                let ghost before = out@;
                out.push(c);
                proof {
                    assert(out@.drop_last() =~= before);
                    assert(v@.take(i + 1).drop_last() =~= v@.take(i as int));
                }
                i = i + 1;
            }
            assert(v@.take(v.len() as int) =~= v@);
            RustType::Tuple(out)
        },
        RustType::OptionOf(b) => RustType::OptionOf(Box::new(clone_rust_type(b))),
        RustType::RefNamed(s) => RustType::RefNamed(s.clone()),
        RustType::Named(s) => RustType::Named(s.clone()),
    }
}

fn build_binding(e: &ExportedFunction, mode: InteropMode, rust_name: String) -> (r: Binding)
    ensures
        r@ == binding_spec(e@, mode, rust_name@),
{
    let ghost ps = e@.params;
    let watcher = match mode {
        InteropMode::Watcher { .. } => true,
        _ => false,
    };
    let mut names: Vec<String> = Vec::new();
    let mut types: Vec<RustType> = Vec::new();
    let mut cb: Option<usize> = None;
    let mut i: usize = 0;
    while i < e.params.len()
        invariant
            i <= e.params.len(),
            ps == params_view(e.params@),
            watcher == (mode is Watcher),
            names@.len() == types@.len(),
            names@.len() == binding_params(ps.take(i as int), watcher).len(),
            forall|k: int|
                0 <= k < names@.len() ==> #[trigger] names@[k]@ == snake_case(
                    binding_params(ps.take(i as int), watcher)[k].name,
                ),
            rt_views(types@) == Seq::new(
                binding_params(ps.take(i as int), watcher).len(),
                |k: int| binding_params(ps.take(i as int), watcher)[k].rust_param_type,
            ),
            cb matches Some(c) ==> c < i && first_callback(ps, 0) == c,
            cb is None ==> first_callback(ps, 0) == first_callback(ps, i as int),
        decreases e.params.len() - i,
    {
        let p = &e.params[i];
        assert(ps[i as int] == p@);
        let ghost prev = binding_params(ps.take(i as int), watcher);
        assert(ps.take(i + 1).drop_last() =~= ps.take(i as int));
        if p.is_callback && cb.is_none() {
            cb = Some(i);
        }
        if !(watcher && p.is_callback) {
            let n = to_snake_case(p.name.as_str());
            let ty = clone_rust_type(&p.rust_param_type);
            let ghost old_types = types@;
            names.push(n);
            types.push(ty);
            proof {
                lemma_rt_views(types@);
                lemma_rt_views(old_types);
                assert(types@.drop_last() =~= old_types);
                assert(rt_views(types@) =~= Seq::new(
                    binding_params(ps.take(i + 1), watcher).len(),
                    |k: int| binding_params(ps.take(i + 1), watcher)[k].rust_param_type,
                ));
            }
        }
        i = i + 1;
    }
    assert(ps.take(e.params.len() as int) =~= ps);
    let return_type = match &e.return_rust_type {
        Some(t) => clone_rust_type(t),
        None => RustType::Unit,
    };
    let callback_arg_type = match cb {
        Some(c) => match &e.params[c].callback_arg_type {
            Some(t) => clone_rust_type(t),
            None => RustType::Unit,
        },
        None => RustType::Unit,
    };
    proof {
        if cb is Some {
            assert(ps[cb->Some_0 as int] == e.params@[cb->Some_0 as int]@);
        }
    }
    let doc = match &e.doc_comment {
        Some(d) => d.clone(),
        None => String::new(),
    };
    let r = Binding {
        js_name: e.name.clone(),
        rust_name,
        mode,
        param_names: names,
        param_types: types,
        return_type,
        callback_arg_type,
        doc,
    };
    assert(r@.param_names =~= binding_spec(e@, mode, rust_name@).param_names);
    r
}

/// The Rust functions that `input` generates for the exports `exports`: `Ok` with one
/// binding per generated export, in export order, when every item of the block names an
/// export; otherwise `Err` naming the first item that names none.
pub fn plan_bindings(input: &BindJsInput, exports: &Vec<ExportedFunction>) -> (res: Result<
    Vec<Binding>,
    CodegenError,
>)
    ensures
        res matches Ok(v) ==> plan_spec(input@, exports_view(exports@)) == Ok::<Seq<BindingV>, int>(
            bindings_view(v@),
        ),
        res matches Err(e) ==> (plan_spec(input@, exports_view(exports@)) matches Err(k) && 0 <= k
            < input.items@.len() && e.item_name@ == input.items@[k].original_name@
            && e.file_path@ == input.file_path@),
{
    let ghost es = exports_view(exports@);
    let ghost items = items_view(input.items@);
    let mut out: Vec<Binding> = Vec::new();
    // matched[k]: item k is the first item naming some export seen so far
    let mut matched: Vec<bool> = Vec::new();
    let mut k: usize = 0;
    while k < input.items.len()
        invariant
            k <= input.items.len(),
            matched@.len() == k,
            forall|m: int| 0 <= m < k ==> !matched@[m],
        decreases input.items.len() - k,
    {
        matched.push(false);
        k = k + 1;
    }
    let mut i: usize = 0;
    assert(bindings_view(out@) =~= Seq::<BindingV>::empty());
    while i < exports.len()
        invariant
            i <= exports.len(),
            es == exports_view(exports@),
            items == items_view(input.items@),
            matched@.len() == input.items.len(),
            forall|m: int|
                0 <= m < input.items.len() ==> (#[trigger] matched@[m] <==> exists|e: int|
                    0 <= e < i && first_match(items, #[trigger] es[e].name, 0) == m),
            plan_from(es, 0, items, input.wildcard, Seq::empty()) == plan_from(
                es,
                i as int,
                items,
                input.wildcard,
                bindings_view(out@),
            ),
        decreases exports.len() - i,
    {
        let e = &exports[i];
        assert(es[i as int] == e@);
        let j = first_match_exports(e.name.as_str(), input);
        proof {
            lemma_first_match(items, e@.name, 0);
        }
        let ghost before = bindings_view(out@);
        if j < input.items.len() {
            let item = &input.items[j];
            assert(items[j as int] == item@);
            let mode = match item.mode {
                Some(m) => m,
                None => e.mode,
            };
            let rust_name = match &item.rename_as {
                Some(r) => to_snake_case(r.as_str()),
                None => to_snake_case(e.name.as_str()),
            };
            let b = build_binding(e, mode, rust_name);
            let ghost bv = b@;
            out.push(b);
            assert(bindings_view(out@) =~= before.push(bv));
            let ghost old_matched = matched@;
            matched.set(j, true);
            proof {
                assert forall|m: int|
                    0 <= m < input.items.len() implies (#[trigger] matched@[m] <==> exists|x: int|
                    0 <= x < i + 1 && first_match(items, #[trigger] es[x].name, 0) == m) by {
                    if m == j {
                        assert(first_match(items, es[i as int].name, 0) == m);
                    } else {
                        assert(matched@[m] == old_matched[m]);
                        if exists|x: int| 0 <= x < i + 1 && first_match(items, #[trigger] es[x].name, 0) == m {
                            let x = choose|x: int| 0 <= x < i + 1 && first_match(items, #[trigger] es[x].name, 0) == m;
                            assert(x != i);
                        }
                    }
                }
            }
        } else {
            if input.wildcard {
                let b = build_binding(e, e.mode, to_snake_case(e.name.as_str()));
                let ghost bv = b@;
                out.push(b);
                assert(bindings_view(out@) =~= before.push(bv));
            }
            proof {
                assert forall|m: int|
                    0 <= m < input.items.len() implies (#[trigger] matched@[m] <==> exists|x: int|
                    0 <= x < i + 1 && first_match(items, #[trigger] es[x].name, 0) == m) by {
                    if exists|x: int| 0 <= x < i + 1 && first_match(items, #[trigger] es[x].name, 0) == m {
                        let x = choose|x: int| 0 <= x < i + 1 && first_match(items, #[trigger] es[x].name, 0) == m;
                        assert(x != i);
                    }
                }
            }
        }
        i = i + 1;
    }
    // Every item must name an export.
    let mut k: usize = 0;
    while k < input.items.len()
        invariant
            k <= input.items.len(),
            es == exports_view(exports@),
            items == items_view(input.items@),
            i == exports.len(),
            matched@.len() == input.items.len(),
            forall|m: int|
                0 <= m < input.items.len() ==> (#[trigger] matched@[m] <==> exists|e: int|
                    0 <= e < i && first_match(items, #[trigger] es[e].name, 0) == m),
            first_unmatched(items, es, 0) == first_unmatched(items, es, k as int),
        decreases input.items.len() - k,
    {
        assert(matched@[k as int] == item_matched(items, es, k as int));
        if !matched[k] {
            assert(items[k as int] == input.items@[k as int]@);
            return Err(
                CodegenError {
                    item_name: input.items[k].original_name.clone(),
                    file_path: input.file_path.clone(),
                },
            );
        }
        k = k + 1;
    }
    Ok(out)
}

fn first_match_exports(name: &str, input: &BindJsInput) -> (r: usize)
    ensures
        r == first_match(items_view(input.items@), name@, 0),
{
    let ghost iv = items_view(input.items@);
    let mut i: usize = 0;
    while i < input.items.len()
        invariant
            i <= input.items.len(),
            iv == items_view(input.items@),
            first_match(iv, name@, 0) == first_match(iv, name@, i as int),
        decreases input.items.len() - i,
    {
        assert(iv[i as int] == input.items@[i as int]@);
        if exec_names_match(input.items[i].original_name.as_str(), name) {
            return i;
        }
        i = i + 1;
    }
    i
}

/// The exported JavaScript names of `exports`, joined by `, ` (the keys of the module
/// object the generated loader builds).
pub fn export_keys(exports: &Vec<ExportedFunction>) -> (res: String)
    ensures
        res@ == join_names(exports_view(exports@)),
{
    let ghost es = exports_view(exports@);
    let mut out: Vec<char> = Vec::new();
    let mut i: usize = 0;
    while i < exports.len()
        invariant
            i <= exports.len(),
            es == exports_view(exports@),
            out@ == join_names(es.take(i as int)),
        decreases exports.len() - i,
    {
        assert(es[i as int] == exports@[i as int]@);
        assert(es.take(i + 1).drop_last() =~= es.take(i as int));
        if i > 0 {
            push_str(&mut out, ", ");
        }
        push_str(&mut out, exports[i].name.as_str());
        i = i + 1;
    }
    assert(es.take(exports.len() as int) =~= es);
    string_of(&out)
}

/// The names of `es` joined by `, `.
pub open spec fn join_names(es: Seq<ExportedFunctionV>) -> Seq<char>
    decreases es.len(),
{
    if es.len() == 0 {
        Seq::empty()
    } else if es.len() == 1 {
        es[0].name
    } else {
        join_names(es.drop_last()) + ", "@ + es.last().name
    }
}

} // verus!
