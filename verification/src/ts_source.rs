//! TypeScript source through swc: the parsed module as the analyzer reads it, and the
//! module's JavaScript with its types stripped.
//!
//! swc parses, strips and prints; the functions below call it and carry what it returns,
//! node kind by node kind, into the library's own `ts_model` values.
use vstd::prelude::*;
use swc_core::common::comments::{Comments, SingleThreadedComments};
use swc_core::common::sync::Lrc;
use swc_core::common::{FileName, Globals, Mark, SourceMap, Span, GLOBALS};
use swc_core::ecma::ast as swc;
use swc_core::ecma::ast::{Decl, ModuleDecl, ModuleItem, Pass, Program, Stmt};
use swc_core::ecma::codegen::text_writer::JsWriter;
use swc_core::ecma::codegen::{Config, Emitter, Node};
use swc_core::ecma::parser::{lexer::Lexer, Parser, StringInput, Syntax, TsSyntax};
use swc_core::ecma::transforms::typescript::strip;
use crate::syntax::opt_string_view;
use crate::ts_model::{
    TsKeyword, TsModule, TsModuleItem, TsParam, TsSignature, TypeAnn, TsVarDecl, TsVarInit,
};

verus! {

#[verifier::external_type_specification]
#[verifier::external_body]
pub struct ExSwcModule(swc::Module);

#[verifier::external_type_specification]
#[verifier::external_body]
pub struct ExSwcModuleItem(swc::ModuleItem);

#[verifier::external_type_specification]
#[verifier::external_body]
pub struct ExSwcExportDecl(swc::ExportDecl);

#[verifier::external_type_specification]
#[verifier::external_body]
pub struct ExSwcFunction(swc::Function);

#[verifier::external_type_specification]
#[verifier::external_body]
pub struct ExSwcPat(swc::Pat);

#[verifier::external_type_specification]
#[verifier::external_body]
pub struct ExSwcVarDeclarator(swc::VarDeclarator);

#[verifier::external_type_specification]
#[verifier::external_body]
pub struct ExSwcArrowExpr(swc::ArrowExpr);

#[verifier::external_type_specification]
#[verifier::external_body]
pub struct ExSwcTsType(swc::TsType);

#[verifier::external_type_specification]
#[verifier::external_body]
pub struct ExSwcTsKeywordTypeKind(swc::TsKeywordTypeKind);

#[verifier::external_type_specification]
#[verifier::external_body]
pub struct ExSwcTsUnionOrIntersectionType(swc::TsUnionOrIntersectionType);

#[verifier::external_type_specification]
#[verifier::external_body]
pub struct ExSwcTsLit(swc::TsLit);

#[verifier::external_type_specification]
#[verifier::external_body]
pub struct ExSwcTsTypeRef(swc::TsTypeRef);

#[verifier::external_type_specification]
#[verifier::external_body]
pub struct ExSwcTsFnOrConstructorType(swc::TsFnOrConstructorType);

#[verifier::external_type_specification]
#[verifier::external_body]
pub struct ExSwcSpan(Span);

#[verifier::external_type_specification]
#[verifier::external_body]
pub struct ExSwcSingleThreadedComments(SingleThreadedComments);

#[verifier::external_type_specification]
#[verifier::external_body]
pub struct ExSwcSourceMap(SourceMap);

/// What swc's TypeScript parser makes of `source`, read as a `TsModule`: `None` when it does
/// not parse as a module.
pub uninterp spec fn parsed_module(source: Seq<char>) -> Option<TsModule>;

/// Parses `source` with swc's TypeScript parser (`Parser::parse_module`, comments recorded)
/// and reads each top-level item; the result depends on the text alone.
#[verifier::external_body]
pub(crate) fn parse_ts_module(source: &str) -> (res: Option<TsModule>)
    ensures
        res == parsed_module(source@),
{
    let cm: Lrc<SourceMap> = Default::default();
    let comments = SingleThreadedComments::default();
    let fm = cm.new_source_file(Lrc::new(FileName::Anon), source.to_string());
    let syntax = Syntax::Typescript(TsSyntax { no_early_errors: true, ..Default::default() });
    let lexer = Lexer::new(syntax, Default::default(), StringInput::from(&*fm), Some(&comments));
    let module = Parser::new_from(lexer).parse_module().ok()?;
    Some(TsModule { items: module.body.iter().map(|item| read_item(item, &comments)).collect() })
}

/// What swc makes of `source`: parsed as a TypeScript module, each `export` declaration
/// turned into the bare declaration, the types stripped, and the program emitted as
/// JavaScript; `None` when it does not parse or emit.
pub uninterp spec fn stripped_js(source: Seq<char>) -> Option<Seq<char>>;

/// Parses `source` as `parse_ts_module` does and hands the module to `emit_stripped`; the result depends on the text alone.
#[verifier::external_body]
pub(crate) fn strip_types(source: &str) -> (res: Option<String>)
    ensures
        opt_string_view(res) == stripped_js(source@),
{
    let cm: Lrc<SourceMap> = Default::default();
    let fm = cm.new_source_file(Lrc::new(FileName::Anon), source.to_string());
    let syntax = Syntax::Typescript(TsSyntax { no_early_errors: true, ..Default::default() });
    let lexer = Lexer::new(syntax, Default::default(), StringInput::from(&*fm), None);
    let module = Parser::new_from(lexer).parse_module().ok()?;
    GLOBALS.set(&Globals::default(), || emit_stripped(cm, module))
}

/// swc's `typescript::strip` pass on `module`, each `export` declaration first turned into
/// the bare declaration, then swc's `Emitter` writing the program out.
#[verifier::external_body]
fn emit_stripped(cm: Lrc<SourceMap>, module: swc::Module) -> Option<String> {
    let mut module = module;
    for item in &mut module.body {
        if let ModuleItem::ModuleDecl(ModuleDecl::ExportDecl(e)) = item {
            *item = ModuleItem::Stmt(Stmt::Decl(Decl::clone(&e.decl)));
        }
    }
    let mut program = Program::Module(module);
    strip(Mark::new(), Mark::new()).process(&mut program);
    let mut buf = Vec::new();
    let wr = Box::new(JsWriter::new(cm.clone(), "\n", &mut buf, None));
    Emitter { cfg: Config::default(), cm, comments: None, wr }.emit_program(&program).ok()?;
    String::from_utf8(buf).ok()
}

/// A top-level item of swc's module, by kind.
#[verifier::external_body]
fn read_item(item: &swc::ModuleItem, comments: &SingleThreadedComments) -> TsModuleItem {
    match item {
        ModuleItem::ModuleDecl(ModuleDecl::Import(_)) => TsModuleItem::Import,
        ModuleItem::ModuleDecl(ModuleDecl::ExportDefaultDecl(_)) => TsModuleItem::ExportDefault,
        ModuleItem::ModuleDecl(ModuleDecl::ExportDefaultExpr(_)) => TsModuleItem::ExportDefault,
        ModuleItem::ModuleDecl(ModuleDecl::ExportDecl(e)) => read_export_decl(e, comments),
        _ => TsModuleItem::Other,
    }
}

/// An `export` declaration: a function (with the comments leading `export`, `function` and
/// its name) or a variable statement; anything else is `Other`.
#[verifier::external_body]
fn read_export_decl(e: &swc::ExportDecl, comments: &SingleThreadedComments) -> TsModuleItem {
    match &e.decl {
        Decl::Fn(f) => TsModuleItem::ExportFn(
            f.ident.sym.to_string(),
            read_function(&f.function),
            leading_comments(comments, &[e.span, f.function.span, f.ident.span]),
        ),
        Decl::Var(v) => TsModuleItem::ExportVar(
            v.decls.iter().map(|d| read_declarator(d, e.span, comments)).collect(),
        ),
        _ => TsModuleItem::Other,
    }
}

/// The raw texts of the comments swc recorded as leading each of `spans`, in order.
#[verifier::external_body]
fn leading_comments(comments: &SingleThreadedComments, spans: &[Span]) -> Vec<String> {
    spans
        .iter()
        .flat_map(|span| comments.get_leading(span.lo).unwrap_or_default())
        .map(|c| c.text.to_string())
        .collect()
}

/// A variable declarator: its name if it is an identifier, whether it is initialized with an
/// arrow function or a function expression, and the comments leading `export` and itself.
#[verifier::external_body]
fn read_declarator(d: &swc::VarDeclarator, export_span: Span, comments: &SingleThreadedComments) -> TsVarDecl {
    let name = match &d.name {
        swc::Pat::Ident(binding) => Some(binding.id.sym.to_string()),
        _ => None,
    };
    let init = match d.init.as_deref() {
        Some(swc::Expr::Arrow(arrow)) => TsVarInit::Function(read_arrow(arrow)),
        Some(swc::Expr::Fn(fn_expr)) => TsVarInit::Function(read_function(&fn_expr.function)),
        _ => TsVarInit::NotFunction,
    };
    TsVarDecl { name, init, comments: leading_comments(comments, &[export_span, d.span]) }
}

/// The signature of an arrow function.
#[verifier::external_body]
fn read_arrow(arrow: &swc::ArrowExpr) -> TsSignature {
    TsSignature {
        params: arrow.params.iter().map(read_pat).collect(),
        return_type: arrow.return_type.as_ref().map(|ann| read_type(&ann.type_ann)),
        is_async: arrow.is_async,
    }
}

/// The signature of a function declaration or expression.
#[verifier::external_body]
fn read_function(function: &swc::Function) -> TsSignature {
    TsSignature {
        params: function.params.iter().map(|p| read_pat(&p.pat)).collect(),
        return_type: function.return_type.as_ref().map(|ann| read_type(&ann.type_ann)),
        is_async: function.is_async,
    }
}

/// A parameter: its name and type annotation when it is an identifier.
#[verifier::external_body]
fn read_pat(pat: &swc::Pat) -> TsParam {
    match pat {
        swc::Pat::Ident(binding) => TsParam {
            name: Some(binding.id.sym.to_string()),
            ty: binding.type_ann.as_ref().map(|ann| read_type(&ann.type_ann)),
        },
        _ => TsParam { name: None, ty: None },
    }
}

/// A type annotation, by kind.
#[verifier::external_body]
fn read_type(ty: &swc::TsType) -> TypeAnn {
    match ty {
        swc::TsType::TsKeywordType(kw) => TypeAnn::Keyword(read_keyword(kw.kind)),
        swc::TsType::TsArrayType(arr) => TypeAnn::Array(Box::new(read_type(&arr.elem_type))),
        swc::TsType::TsTupleType(t) => TypeAnn::Tuple(t.elem_types.iter().map(|e| read_type(&e.ty)).collect()),
        swc::TsType::TsUnionOrIntersectionType(u) => read_union(u),
        swc::TsType::TsLitType(lit) => read_lit(&lit.lit),
        swc::TsType::TsTypeRef(type_ref) => read_type_ref(type_ref),
        swc::TsType::TsFnOrConstructorType(f) => read_fn_type(f),
        _ => TypeAnn::Other,
    }
}

/// A union's member types; an intersection is `Other`.
#[verifier::external_body]
fn read_union(u: &swc::TsUnionOrIntersectionType) -> TypeAnn {
    match u {
        swc::TsUnionOrIntersectionType::TsUnionType(u) => TypeAnn::Union(u.types.iter().map(|t| read_type(t)).collect()),
        swc::TsUnionOrIntersectionType::TsIntersectionType(_) => TypeAnn::Other,
    }
}

/// A literal type: a string literal or another kind.
#[verifier::external_body]
fn read_lit(lit: &swc::TsLit) -> TypeAnn {
    match lit {
        swc::TsLit::Str(_) => TypeAnn::StrLit,
        _ => TypeAnn::OtherLit,
    }
}

/// A type reference: its name as swc prints it (the reference without its type arguments,
/// printed by swc's `Emitter`), and its type arguments.
#[verifier::external_body]
fn read_type_ref(type_ref: &swc::TsTypeRef) -> TypeAnn {
    let mut bare = type_ref.clone();
    bare.type_params = None;
    let args = type_ref.type_params.as_ref().map(|p| p.params.iter().map(|t| read_type(t)).collect());
    TypeAnn::TypeRef(print_type_ref(&bare), args)
}

/// The text swc's `Emitter` prints for `type_ref`.
#[verifier::external_body]
fn print_type_ref(type_ref: &swc::TsTypeRef) -> String {
    let cm: Lrc<SourceMap> = Default::default();
    let mut buf = Vec::new();
    let wr = JsWriter::new(cm.clone(), "\n", &mut buf, None);
    let _ = type_ref.emit_with(&mut Emitter { cfg: Config::default(), cm, comments: None, wr });
    String::from_utf8_lossy(&buf).into_owned()
}

/// A function type, with the annotation of its first parameter when that parameter is an
/// annotated identifier; or a constructor type.
#[verifier::external_body]
fn read_fn_type(f: &swc::TsFnOrConstructorType) -> TypeAnn {
    match f {
        swc::TsFnOrConstructorType::TsFnType(fn_type) => TypeAnn::FnType(match fn_type.params.first() {
            Some(swc::TsFnParam::Ident(b)) => b.type_ann.as_ref().map(|ann| Box::new(read_type(&ann.type_ann))),
            _ => None,
        }),
        swc::TsFnOrConstructorType::TsConstructorType(_) => TypeAnn::ConstructorType,
    }
}

/// A keyword type, one for one.
#[verifier::external_body]
fn read_keyword(kind: swc::TsKeywordTypeKind) -> TsKeyword {
    match kind {
        swc::TsKeywordTypeKind::TsAnyKeyword => TsKeyword::Any,
        swc::TsKeywordTypeKind::TsUnknownKeyword => TsKeyword::Unknown,
        swc::TsKeywordTypeKind::TsNumberKeyword => TsKeyword::Number,
        swc::TsKeywordTypeKind::TsObjectKeyword => TsKeyword::Object,
        swc::TsKeywordTypeKind::TsBooleanKeyword => TsKeyword::Boolean,
        swc::TsKeywordTypeKind::TsBigIntKeyword => TsKeyword::BigInt,
        swc::TsKeywordTypeKind::TsStringKeyword => TsKeyword::String,
        swc::TsKeywordTypeKind::TsSymbolKeyword => TsKeyword::Symbol,
        swc::TsKeywordTypeKind::TsVoidKeyword => TsKeyword::Void,
        swc::TsKeywordTypeKind::TsUndefinedKeyword => TsKeyword::Undefined,
        swc::TsKeywordTypeKind::TsNullKeyword => TsKeyword::Null,
        swc::TsKeywordTypeKind::TsNeverKeyword => TsKeyword::Never,
        swc::TsKeywordTypeKind::TsIntrinsicKeyword => TsKeyword::Intrinsic,
    }
}

} // verus!
