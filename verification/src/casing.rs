//! Case conversions of identifiers, done by the `heck` crate, and the name matching built on
//! them: a TypeScript export and a requested item are the same function when their
//! lowerCamelCase forms or their snake_case forms agree.
use vstd::prelude::*;
use crate::text::{chars_eq, chars_of};

verus! {

/// What `heck::ToLowerCamelCase::to_lower_camel_case` returns for a string.
pub uninterp spec fn lower_camel_case(s: Seq<char>) -> Seq<char>;

/// What `heck::ToSnakeCase::to_snake_case` returns for a string.
pub uninterp spec fn snake_case(s: Seq<char>) -> Seq<char>;

/// Calls `heck::ToLowerCamelCase::to_lower_camel_case` on `s`; trusted to be a function of
/// the characters of `s` alone (heck splits words and re-joins them without any state).
#[verifier::external_body]
fn heck_lower_camel(s: &str) -> (res: String)
    ensures
        res@ == lower_camel_case(s@),
{
    heck::ToLowerCamelCase::to_lower_camel_case(s)
}

/// Calls `heck::ToSnakeCase::to_snake_case` on `s`; trusted to be a function of the
/// characters of `s` alone.
#[verifier::external_body]
fn heck_snake(s: &str) -> (res: String)
    ensures
        res@ == snake_case(s@),
{
    heck::ToSnakeCase::to_snake_case(s)
}

/// `s` in snake_case.
pub fn to_snake_case(s: &str) -> (res: String)
    ensures
        res@ == snake_case(s@),
{
    heck_snake(s)
}

/// The two names denote the same function: equal in lowerCamelCase or in snake_case.
pub open spec fn names_match(a: Seq<char>, b: Seq<char>) -> bool {
    lower_camel_case(a) == lower_camel_case(b) || snake_case(a) == snake_case(b)
}

/// Whether `a` and `b` denote the same function.
pub fn exec_names_match(a: &str, b: &str) -> (res: bool)
    ensures
        res == names_match(a@, b@),
{
    let a_camel = chars_of(heck_lower_camel(a).as_str());
    let b_camel = chars_of(heck_lower_camel(b).as_str());
    if chars_eq(&a_camel, &b_camel) {
        return true;
    }
    let a_snake = chars_of(heck_snake(a).as_str());
    let b_snake = chars_of(heck_snake(b).as_str());
    chars_eq(&a_snake, &b_snake)
}

} // verus!
