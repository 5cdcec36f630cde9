//! From a bridge module's TypeScript source to the list of functions to bind, the module's
//! hash and its type-stripped script.
use vstd::prelude::*;
use std::collections::hash_map::DefaultHasher;
use std::hash::Hasher;
use crate::analyzer::{
    ParamInfo, ParamInfoV, comments_doc, comments_mode, determine_mode, extract_comment_mode,
    find_macro_override, is_item_targeted, macro_override, mode_of, opt_rt_view, opt_view,
    param_spec, parse_param_type, parse_return_type, return_spec, strings_view, targeted,
};
use crate::rust_type::{RustType, RustTypeV};
use crate::syntax::{InteropMode, ItemSpec, ItemSpecV, items_view};
use crate::text::{chars_of, hex_lower, is_hex_digit, lemma_hex_shape, lemma_u64_below_pow16, radix_chars, string_of};
use crate::ts_source::{parse_ts_module, parsed_module, strip_types, stripped_js};
use crate::ts_model::{TsModule, TsModuleItem, TsParam, TsSignature, TypeAnn, TsVarDecl, TsVarInit};

verus! {

/// Why a bridge module cannot be bound.
#[derive(Debug, Clone, Copy, PartialEq, Eq, Structural)]
pub enum AnalyzeError {
    /// The module has a top-level static `import`.
    TopLevelImport,
    /// The module has a default export.
    DefaultExport,
    /// A bound export returns a function but is not a watcher.
    HigherOrderFunction,
    /// The source does not parse as a TypeScript module.
    Parse,
    /// swc could not strip the module's types and emit its JavaScript.
    StripFailed,
}

pub open spec fn analyze_error_message(e: AnalyzeError) -> Seq<char> {
    match e {
        AnalyzeError::TopLevelImport => "Top-level static import is not supported in v1 bindable files. Use preloaded globals (window.*) or dynamic import() inside an async query."@,
        AnalyzeError::DefaultExport => "Default exports are not supported in bind_js!. Use named exports ('export function name()') to avoid Rust identifier conflicts."@,
        AnalyzeError::HigherOrderFunction => "Higher-order functions returning functions are not supported in bind_js!. Return concrete serializable data or use a Watcher callback (annotated with #[watcher])."@,
        AnalyzeError::Parse => "TypeScript parse error"@,
        AnalyzeError::StripFailed => "JS emission failed"@,
    }
}

impl AnalyzeError {
    /// The diagnostic reported for this error.
    pub fn message(&self) -> (res: String)
        ensures
            res@ == analyze_error_message(*self),
    {
        match self {
            AnalyzeError::TopLevelImport => string_of(&chars_of("Top-level static import is not supported in v1 bindable files. Use preloaded globals (window.*) or dynamic import() inside an async query.")),
            AnalyzeError::DefaultExport => string_of(&chars_of("Default exports are not supported in bind_js!. Use named exports ('export function name()') to avoid Rust identifier conflicts.")),
            AnalyzeError::HigherOrderFunction => string_of(&chars_of("Higher-order functions returning functions are not supported in bind_js!. Return concrete serializable data or use a Watcher callback (annotated with #[watcher]).")),
            AnalyzeError::Parse => string_of(&chars_of("TypeScript parse error")),
            AnalyzeError::StripFailed => string_of(&chars_of("JS emission failed")),
        }
    }
}

/// An exported function to bind.
#[derive(Debug)]
pub struct ExportedFunction {
    pub name: String,
    pub mode: InteropMode,
    pub params: Vec<ParamInfo>,
    pub return_rust_type: Option<RustType>,
    pub doc_comment: Option<String>,
}

/// Value of an [`ExportedFunction`].
pub struct ExportedFunctionV {
    pub name: Seq<char>,
    pub mode: InteropMode,
    pub params: Seq<ParamInfoV>,
    pub return_rust_type: Option<RustTypeV>,
    pub doc_comment: Option<Seq<char>>,
}

pub open spec fn params_view(v: Seq<ParamInfo>) -> Seq<ParamInfoV> {
    v.map_values(|p: ParamInfo| p@)
}

impl View for ExportedFunction {
    type V = ExportedFunctionV;

    open spec fn view(&self) -> ExportedFunctionV {
        ExportedFunctionV {
            name: self.name@,
            mode: self.mode,
            params: params_view(self.params@),
            return_rust_type: opt_rt_view(self.return_rust_type),
            doc_comment: opt_view(self.doc_comment),
        }
    }
}

pub open spec fn exports_view(v: Seq<ExportedFunction>) -> Seq<ExportedFunctionV> {
    v.map_values(|e: ExportedFunction| e@)
}

/// The binding parameters of the parameters `ps`, in order.
pub open spec fn params_spec(ps: Seq<TsParam>) -> Seq<ParamInfoV> {
    Seq::new(ps.len(), |i: int| param_spec(param_name(ps[i].name), ps[i].ty))
}

/// The name a parameter is bound under: its own, or `_` for a pattern.
pub open spec fn param_name(name: Option<String>) -> Seq<char> {
    match name {
        Some(n) => n@,
        None => "_"@,
    }
}

/// The export `name` with signature `sig` and leading comments `comments`, as a binding;
/// `is_target` tells whether the block binds it. A bound export that returns a function is
/// refused unless it is a watcher.
pub open spec fn export_spec(
    name: Seq<char>,
    sig: TsSignature,
    comments: Seq<Seq<char>>,
    items: Seq<ItemSpecV>,
    is_target: bool,
) -> Result<ExportedFunctionV, AnalyzeError> {
    let r = return_spec(sig.return_type);
    let mode = mode_of(
        macro_override(name, items),
        comments_mode(comments),
        sig.is_async,
        r.is_promise,
        r.is_void,
    );
    if is_target && r.is_fn && !(mode is Watcher) {
        Err(AnalyzeError::HigherOrderFunction)
    } else {
        Ok(
            ExportedFunctionV {
                name,
                mode,
                params: params_spec(sig.params@),
                return_rust_type: r.rust_type,
                doc_comment: comments_doc(comments),
            },
        )
    }
}

/// The first reason among the items `i..` to refuse the module: a static import or a
/// default export, whichever comes first.
pub open spec fn first_rejection(items: Seq<TsModuleItem>, i: int) -> Option<AnalyzeError>
    decreases items.len() - i,
{
    if i < 0 || i >= items.len() {
        None
    } else {
        match items[i] {
            TsModuleItem::Import => Some(AnalyzeError::TopLevelImport),
            TsModuleItem::ExportDefault => Some(AnalyzeError::DefaultExport),
            _ => first_rejection(items, i + 1),
        }
    }
}

/// The binding for an exported variable declarator, if it binds a function to a name.
pub open spec fn var_spec(d: TsVarDecl, items: Seq<ItemSpecV>, wildcard: bool) -> Result<
    Option<ExportedFunctionV>,
    AnalyzeError,
> {
    match d.name {
        None => Ok(None),
        Some(n) => match d.init {
            TsVarInit::NotFunction => Ok(None),
            TsVarInit::Function(sig) => match export_spec(
                n@,
                sig,
                strings_view(d.comments@),
                items,
                targeted(n@, items, wildcard),
            ) {
                Ok(f) => Ok(Some(f)),
                Err(e) => Err(e),
            },
        },
    }
}

/// The bindings of declarators `j..` appended to `acc`.
pub open spec fn vars_from(
    ds: Seq<TsVarDecl>,
    j: int,
    items: Seq<ItemSpecV>,
    wildcard: bool,
    acc: Seq<ExportedFunctionV>,
) -> Result<Seq<ExportedFunctionV>, AnalyzeError>
    decreases ds.len() - j,
{
    if j < 0 || j >= ds.len() {
        Ok(acc)
    } else {
        match var_spec(ds[j], items, wildcard) {
            Err(e) => Err(e),
            Ok(None) => vars_from(ds, j + 1, items, wildcard, acc),
            Ok(Some(f)) => vars_from(ds, j + 1, items, wildcard, acc.push(f)),
        }
    }
}

/// The bindings of module items `i..` appended to `acc`, in source order.
pub open spec fn exports_from(
    ms: Seq<TsModuleItem>,
    i: int,
    items: Seq<ItemSpecV>,
    wildcard: bool,
    acc: Seq<ExportedFunctionV>,
) -> Result<Seq<ExportedFunctionV>, AnalyzeError>
    decreases ms.len() - i,
{
    if i < 0 || i >= ms.len() {
        Ok(acc)
    } else {
        match ms[i] {
            TsModuleItem::ExportFn(name, sig, comments) => match export_spec(
                name@,
                sig,
                strings_view(comments@),
                items,
                targeted(name@, items, wildcard),
            ) {
                Err(e) => Err(e),
                Ok(f) => exports_from(ms, i + 1, items, wildcard, acc.push(f)),
            },
            TsModuleItem::ExportVar(ds) => match vars_from(ds@, 0, items, wildcard, acc) {
                Err(e) => Err(e),
                Ok(a) => exports_from(ms, i + 1, items, wildcard, a),
            },
            _ => exports_from(ms, i + 1, items, wildcard, acc),
        }
    }
}

/// The bindings of module `m` for the block items `items` (and wildcard flag), or why the
/// module is refused.
pub open spec fn analyze_spec(m: TsModule, items: Seq<ItemSpecV>, wildcard: bool) -> Result<
    Seq<ExportedFunctionV>,
    AnalyzeError,
> {
    match first_rejection(m.items@, 0) {
        Some(e) => Err(e),
        None => exports_from(m.items@, 0, items, wildcard, Seq::empty()),
    }
}

fn extract_signature(
    name: &String,
    sig: &TsSignature,
    comments: &Vec<String>,
    macro_items: &Vec<ItemSpec>,
    is_target: bool,
) -> (r: Result<ExportedFunction, AnalyzeError>)
    ensures
        r matches Ok(f) ==> export_spec(
            name@,
            *sig,
            strings_view(comments@),
            items_view(macro_items@),
            is_target,
        ) == Ok::<ExportedFunctionV, AnalyzeError>(f@),
        r matches Err(e) ==> export_spec(
            name@,
            *sig,
            strings_view(comments@),
            items_view(macro_items@),
            is_target,
        ) == Err::<ExportedFunctionV, AnalyzeError>(e),
{
    let (comment_mode, doc_comment) = extract_comment_mode(comments);
    let macro_mode = find_macro_override(name.as_str(), macro_items);
    let mut params: Vec<ParamInfo> = Vec::new();
    let mut i: usize = 0;
    while i < sig.params.len()
        invariant
            i <= sig.params.len(),
            params@.len() == i,
            forall|k: int|
                0 <= k < i ==> #[trigger] params@[k]@ == param_spec(
                    param_name(sig.params@[k].name),
                    sig.params@[k].ty,
                ),
        decreases sig.params.len() - i,
    {
        let p = &sig.params[i];
        let pname: &str = match &p.name {
            Some(n) => n.as_str(),
            None => "_",
        };
        let info = parse_param_type(pname, p.ty.as_ref());
        params.push(info);
        i = i + 1;
    }
    let ret = parse_return_type(sig.return_type.as_ref());
    let mode = determine_mode(macro_mode, comment_mode, sig.is_async, ret.is_promise, ret.is_void);
    let is_watcher = match mode {
        InteropMode::Watcher { .. } => true,
        _ => false,
    };
    if is_target && ret.is_fn && !is_watcher {
        return Err(AnalyzeError::HigherOrderFunction);
    }
    let f = ExportedFunction {
        name: name.clone(),
        mode,
        params,
        return_rust_type: ret.rust_type,
        doc_comment,
    };
    assert(f@.params =~= params_spec(sig.params@));
    Ok(f)
}

/// The bindings of module `module` for the block items `macro_items` and wildcard flag:
/// `Err` with the first static import or default export if the module has one; otherwise
/// every exported function, function-valued `const`/`let`/`var` included, in source order,
/// or `Err(HigherOrderFunction)` at the first bound one that returns a function without
/// being a watcher.
pub fn analyze_exports(module: &TsModule, macro_items: &Vec<ItemSpec>, wildcard: bool) -> (res: Result<
    Vec<ExportedFunction>,
    AnalyzeError,
>)
    ensures
        res matches Ok(v) ==> analyze_spec(*module, items_view(macro_items@), wildcard) == Ok::<
            Seq<ExportedFunctionV>,
            AnalyzeError,
        >(exports_view(v@)),
        res matches Err(e) ==> analyze_spec(*module, items_view(macro_items@), wildcard) == Err::<
            Seq<ExportedFunctionV>,
            AnalyzeError,
        >(e),
{
    let ghost ms = module.items@;
    let ghost iv = items_view(macro_items@);
    // 1. Refuse static imports and default exports.
    let mut i: usize = 0;
    while i < module.items.len()
        invariant
            i <= module.items.len(),
            ms == module.items@,
            first_rejection(ms, 0) == first_rejection(ms, i as int),
        decreases module.items.len() - i,
    {
        match &module.items[i] {
            TsModuleItem::Import => {
                return Err(AnalyzeError::TopLevelImport);
            },
            TsModuleItem::ExportDefault => {
                return Err(AnalyzeError::DefaultExport);
            },
            _ => {},
        }
        i = i + 1;
    }
    // 2. Collect the exported functions.
    let mut exports: Vec<ExportedFunction> = Vec::new();
    let mut i: usize = 0;
    assert(exports_view(exports@) =~= Seq::<ExportedFunctionV>::empty());
    while i < module.items.len()
        invariant
            i <= module.items.len(),
            ms == module.items@,
            iv == items_view(macro_items@),
            first_rejection(ms, 0) is None,
            exports_from(ms, 0, iv, wildcard, Seq::empty()) == exports_from(
                ms,
                i as int,
                iv,
                wildcard,
                exports_view(exports@),
            ),
        decreases module.items.len() - i,
    {
        match &module.items[i] {
            TsModuleItem::ExportFn(name, sig, comments) => {
                let is_target = is_item_targeted(name.as_str(), macro_items, wildcard);
                let f = match extract_signature(name, sig, comments, macro_items, is_target) {
                    Ok(f) => f,
                    Err(e) => {
                        return Err(e);
                    },
                };
                let ghost before = exports_view(exports@);
                let ghost fv = f@;
                exports.push(f);
                assert(exports_view(exports@) =~= before.push(fv));
            },
            TsModuleItem::ExportVar(decls) => {
                let ghost ds = decls@;
                let ghost acc0 = exports_view(exports@);
                let mut j: usize = 0;
                while j < decls.len()
                    invariant
                        j <= decls.len(),
                        ds == decls@,
                        module.items@[i as int] == TsModuleItem::ExportVar(*decls),
                        ms == module.items@,
                        i < module.items.len(),
                        first_rejection(ms, 0) is None,
                        exports_from(ms, 0, iv, wildcard, Seq::empty()) == exports_from(
                            ms,
                            i as int,
                            iv,
                            wildcard,
                            acc0,
                        ),
                        iv == items_view(macro_items@),
                        vars_from(ds, 0, iv, wildcard, acc0) == vars_from(
                            ds,
                            j as int,
                            iv,
                            wildcard,
                            exports_view(exports@),
                        ),
                    decreases decls.len() - j,
                {
                    let d = &decls[j];
                    match &d.name {
                        None => {},
                        Some(n) => {
                            match &d.init {
                                TsVarInit::NotFunction => {},
                                TsVarInit::Function(sig) => {
                                    let is_target = is_item_targeted(n.as_str(), macro_items, wildcard);
                                    let f = match extract_signature(n, sig, &d.comments, macro_items, is_target) {
                                        Ok(f) => f,
                                        Err(e) => {
                                            assert(vars_from(ds, j as int, iv, wildcard, exports_view(exports@)) == Err::<Seq<ExportedFunctionV>, AnalyzeError>(e));
                                            assert(exports_from(ms, i as int, iv, wildcard, acc0) == Err::<Seq<ExportedFunctionV>, AnalyzeError>(e));
                                            return Err(e);
                                        },
                                    };
                                    let ghost before = exports_view(exports@);
                                    let ghost fv = f@;
                                    exports.push(f);
                                    assert(exports_view(exports@) =~= before.push(fv));
                                },
                            }
                        },
                    }
                    j = j + 1;
                }
            },
            _ => {},
        }
        i = i + 1;
    }
    Ok(exports)
}

// ------------------------------------------------------------------ module hash

/// The bytes that the module hash digests: each of the two strings, as `str`'s `Hash` impl
/// feeds it to a hasher (its UTF-8 bytes, then a `0xff` byte).
pub open spec fn hash_input(file_name: Seq<char>, source: Seq<char>) -> Seq<Seq<u8>> {
    seq![
        vstd::utf8::encode_utf8(file_name),
        seq![0xffu8],
        vstd::utf8::encode_utf8(source),
        seq![0xffu8],
    ]
}

/// The hash of a module: `DefaultHasher` fed with the file name and then the source code,
/// as lowercase hexadecimal.
pub open spec fn module_hash_spec(file_name: Seq<char>, source: Seq<char>) -> Seq<char> {
    hex_lower(
        <DefaultHasher as vstd::std_specs::hash::DefaultHasherAdditionalSpecFns>::spec_finish(
            hash_input(file_name, source),
        ) as nat,
    )
}

/// The module hash of `file_name` and `source_code`: 1 to 16 lowercase hexadecimal
/// digits; the same inputs always give the same hash.
pub fn module_hash(file_name: &str, source_code: &str) -> (res: String)
    ensures
        res@ == module_hash_spec(file_name@, source_code@),
        1 <= res@.len() <= 16,
        forall|i: int| 0 <= i < res@.len() ==> is_hex_digit(#[trigger] res@[i]),
{
    let mut hasher = DefaultHasher::new();
    let sep: Vec<u8> = vec![0xffu8];
    let a = file_name.as_bytes();
    let b = source_code.as_bytes();
    hasher.write(a);
    hasher.write(sep.as_slice());
    hasher.write(b);
    hasher.write(sep.as_slice());
    assert(sep@ =~= seq![0xffu8]);
    let h = hasher.finish();
    assert(hasher@ =~= hash_input(file_name@, source_code@));
    proof {
        lemma_u64_below_pow16(h);
        lemma_hex_shape(h as nat, 16);
    }
    string_of(&radix_chars(h, 16))
}

/// The analysis of a bridge module: its hash, its JavaScript with types stripped, and
/// the functions to bind.
#[derive(Debug)]
pub struct AnalyzedModule {
    pub module_hash: String,
    pub inlined_js: String,
    pub exports: Vec<ExportedFunction>,
}

/// What the analysis of a module parsed as `m` with stripped script `js` gives: why it is
/// refused, or (`None` for the analysis itself, which the caller states) that it succeeds.
pub open spec fn analysis_error(
    m: Option<TsModule>,
    js: Option<Seq<char>>,
    items: Seq<ItemSpecV>,
    wildcard: bool,
) -> Option<AnalyzeError> {
    match m {
        None => Some(AnalyzeError::Parse),
        Some(m) => match analyze_spec(m, items, wildcard) {
            Err(e) => Some(e),
            Ok(_) => match js {
                None => Some(AnalyzeError::StripFailed),
                Some(_) => None,
            },
        },
    }
}

/// The analysis of the bridge module `file_name` with TypeScript source `source_code`: the
/// source is parsed by swc (`Parse` if it does not parse); the bindings are those of
/// [`analyze_exports`] on the parsed module (or why the module is refused); the hash is the
/// module hash of the file name and source; and the script is the source with its types
/// stripped by swc (`StripFailed` when swc cannot produce it).
pub fn analyze_source(
    source_code: &str,
    file_name: &str,
    macro_items: &Vec<ItemSpec>,
    wildcard: bool,
) -> (res: Result<AnalyzedModule, AnalyzeError>)
    ensures
        analysis_error(
            parsed_module(source_code@),
            stripped_js(source_code@),
            items_view(macro_items@),
            wildcard,
        ) matches Some(e) ==> res == Err::<AnalyzedModule, AnalyzeError>(e),
        analysis_error(
            parsed_module(source_code@),
            stripped_js(source_code@),
            items_view(macro_items@),
            wildcard,
        ) is None ==> res is Ok,
        res matches Ok(a) ==> (parsed_module(source_code@) matches Some(m) && analyze_spec(
            m,
            items_view(macro_items@),
            wildcard,
        ) == Ok::<Seq<ExportedFunctionV>, AnalyzeError>(exports_view(a.exports@)))
            && a.module_hash@ == module_hash_spec(file_name@, source_code@) && 1
            <= a.module_hash@.len() <= 16 && stripped_js(source_code@) == Some(a.inlined_js@),
{
    let module = match parse_ts_module(source_code) {
        Some(m) => m,
        None => return Err(AnalyzeError::Parse),
    };
    let exports = match analyze_exports(&module, macro_items, wildcard) {
        Ok(v) => v,
        Err(e) => return Err(e),
    };
    let hash = module_hash(file_name, source_code);
    match strip_types(source_code) {
        Some(inlined_js) => Ok(AnalyzedModule { module_hash: hash, inlined_js, exports }),
        None => Err(AnalyzeError::StripFailed),
    }
}

} // verus!
