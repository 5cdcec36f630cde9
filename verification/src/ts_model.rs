//! What the analyzer reads of a parsed TypeScript module: its top-level items, the
//! signatures of its exported functions, the type annotations on them and the comments
//! that lead them.
use vstd::prelude::*;

verus! {

/// A TypeScript keyword type.
#[derive(Debug, Clone, Copy, PartialEq, Eq, Structural)]
pub enum TsKeyword {
    Any,
    Unknown,
    Number,
    Object,
    Boolean,
    BigInt,
    String,
    Symbol,
    Void,
    Undefined,
    Null,
    Never,
    Intrinsic,
}

/// A TypeScript type annotation.
#[derive(Debug)]
pub enum TypeAnn {
    /// A keyword type such as `string` or `void`.
    Keyword(TsKeyword),
    /// `T[]`
    Array(Box<TypeAnn>),
    /// `[A, B, ...]`, by element types.
    Tuple(Vec<TypeAnn>),
    /// `A | B | ...`
    Union(Vec<TypeAnn>),
    /// A string literal type such as `"left"`.
    StrLit,
    /// Any other literal type (number, boolean, bigint or template literal).
    OtherLit,
    /// A type reference: its name as written out (a qualified name as `A.B`), and its type
    /// arguments if it has any.
    TypeRef(String, Option<Vec<TypeAnn>>),
    /// A function type; holds the annotated type of its first parameter when that parameter
    /// is a plain identifier with a type annotation.
    FnType(Option<Box<TypeAnn>>),
    /// A constructor type (`new (...) => T`).
    ConstructorType,
    /// Any other type (intersections, object literals, conditional types, ...).
    Other,
}

/// A parameter of an exported function: its name when it is a plain identifier (`None`
/// for a destructuring pattern) and its type annotation.
#[derive(Debug)]
pub struct TsParam {
    pub name: Option<String>,
    pub ty: Option<TypeAnn>,
}

/// The signature of a function declaration, function expression or arrow function.
#[derive(Debug)]
pub struct TsSignature {
    pub params: Vec<TsParam>,
    pub return_type: Option<TypeAnn>,
    pub is_async: bool,
}

/// The initializer of an exported variable declarator.
#[derive(Debug)]
pub enum TsVarInit {
    /// An arrow function or function expression.
    Function(TsSignature),
    /// No initializer, or one that is not a function.
    NotFunction,
}

/// One declarator of an exported `const`/`let`/`var` statement.
#[derive(Debug)]
pub struct TsVarDecl {
    /// The bound name, when the declarator binds a plain identifier.
    pub name: Option<String>,
    pub init: TsVarInit,
    /// The raw text of the comments leading the `export` keyword and then the declarator,
    /// in source order.
    pub comments: Vec<String>,
}

/// A top-level item of a module.
#[derive(Debug)]
pub enum TsModuleItem {
    /// A static `import` declaration.
    Import,
    /// `export default ...`
    ExportDefault,
    /// `export function name(...)`, with the raw text of the comments leading the `export`
    /// keyword, the `function` keyword and the name, in that order.
    ExportFn(String, TsSignature, Vec<String>),
    /// `export const/let/var ...`
    ExportVar(Vec<TsVarDecl>),
    /// Anything else.
    Other,
}

/// A parsed TypeScript module, by its top-level items.
#[derive(Debug)]
pub struct TsModule {
    pub items: Vec<TsModuleItem>,
}

} // verus!
