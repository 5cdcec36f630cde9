//! The Rust types that bindings use for parameters and results, and their token rendering
//! (the text that the type's token stream displays as, tokens separated by single spaces
//! except inside `::`).
use vstd::prelude::*;
use crate::text::{chars_of, decimal, radix_chars, string_of};

verus! {

/// A Rust type in a generated binding signature.
#[derive(Debug)]
pub enum RustType {
    /// No tokens at all (the placeholder type of a callback parameter).
    Empty,
    /// `()`
    Unit,
    /// `&str`
    RefStr,
    /// `f64`
    F64,
    /// `bool`
    Bool,
    /// `String`
    OwnedString,
    /// `::oxidase::serde_json::Value`, the type of untyped or unrepresentable values.
    JsonValue,
    /// `&[T]`
    Slice(Box<RustType>),
    /// `Vec<T>`
    VecOf(Box<RustType>),
    /// `[T; N]`, with `N` written as a `usize` literal.
    ArrayOf(Box<RustType>, usize),
    /// `(A, B, ...)`
    Tuple(Vec<RustType>),
    /// `Option<T>`
    OptionOf(Box<RustType>),
    /// `&Name`
    RefNamed(String),
    /// `Name`
    Named(String),
}

/// The value of a [`RustType`].
pub enum RustTypeV {
    Empty,
    Unit,
    RefStr,
    F64,
    Bool,
    OwnedString,
    JsonValue,
    Slice(Box<RustTypeV>),
    VecOf(Box<RustTypeV>),
    ArrayOf(Box<RustTypeV>, nat),
    Tuple(Seq<RustTypeV>),
    OptionOf(Box<RustTypeV>),
    RefNamed(Seq<char>),
    Named(Seq<char>),
}

/// The value of `t`.
pub open spec fn rt_view(t: RustType) -> RustTypeV
    decreases t,
{
    match t {
        RustType::Empty => RustTypeV::Empty,
        RustType::Unit => RustTypeV::Unit,
        RustType::RefStr => RustTypeV::RefStr,
        RustType::F64 => RustTypeV::F64,
        RustType::Bool => RustTypeV::Bool,
        RustType::OwnedString => RustTypeV::OwnedString,
        RustType::JsonValue => RustTypeV::JsonValue,
        RustType::Slice(b) => RustTypeV::Slice(Box::new(rt_view(*b))),
        RustType::VecOf(b) => RustTypeV::VecOf(Box::new(rt_view(*b))),
        RustType::ArrayOf(b, n) => RustTypeV::ArrayOf(Box::new(rt_view(*b)), n as nat),
        RustType::Tuple(v) => RustTypeV::Tuple(rt_views(v@)),
        RustType::OptionOf(b) => RustTypeV::OptionOf(Box::new(rt_view(*b))),
        RustType::RefNamed(s) => RustTypeV::RefNamed(s@),
        RustType::Named(s) => RustTypeV::Named(s@),
    }
}

/// The values of the types in `s`.
pub open spec fn rt_views(s: Seq<RustType>) -> Seq<RustTypeV>
    decreases s,
{
    if s.len() == 0 {
        Seq::empty()
    } else {
        proof {
            assert(decreases_to!(s => s.drop_last()));
        }
        rt_views(s.drop_last()).push(rt_view(s.last()))
    }
}

pub proof fn lemma_rt_views(s: Seq<RustType>)
    ensures
        rt_views(s).len() == s.len(),
        forall|k: int| 0 <= k < s.len() ==> #[trigger] rt_views(s)[k] == rt_view(s[k]),
    decreases s.len(),
{
    if s.len() > 0 {
        lemma_rt_views(s.drop_last());
    }
}

/// The display text of the type's tokens.
pub open spec fn render(t: RustTypeV) -> Seq<char>
    decreases t,
{
    match t {
        RustTypeV::Empty => Seq::empty(),
        RustTypeV::Unit => "()"@,
        RustTypeV::RefStr => "& str"@,
        RustTypeV::F64 => "f64"@,
        RustTypeV::Bool => "bool"@,
        RustTypeV::OwnedString => "String"@,
        RustTypeV::JsonValue => ":: oxidase :: serde_json :: Value"@,
        RustTypeV::Slice(b) => "& ["@ + render(*b) + "]"@,
        RustTypeV::VecOf(b) => "Vec < "@ + render(*b) + " >"@,
        RustTypeV::ArrayOf(b, n) => "["@ + render(*b) + " ; "@ + decimal(n) + "usize]"@,
        RustTypeV::Tuple(v) => if v.len() == 0 {
            "()"@
        } else {
            "("@ + render_list(v, 0) + ")"@
        },
        RustTypeV::OptionOf(b) => "Option < "@ + render(*b) + " >"@,
        RustTypeV::RefNamed(s) => "& "@ + s,
        RustTypeV::Named(s) => s,
    }
}

/// The renderings of `s[i..]`, separated by ` , `.
pub open spec fn render_list(s: Seq<RustTypeV>, i: int) -> Seq<char>
    decreases s, s.len() - i,
{
    if i < 0 || i >= s.len() {
        Seq::empty()
    } else if i == s.len() - 1 {
        render(s[i])
    } else {
        render(s[i]) + " , "@ + render_list(s, i + 1)
    }
}

/// Appends the characters of `s` to `out`.
pub fn push_str(out: &mut Vec<char>, s: &str)
    ensures
        final(out)@ == old(out)@ + s@,
{
    let v = chars_of(s);
    push_chars(out, &v);
}

/// Appends the characters of `v` to `out`.
pub fn push_chars(out: &mut Vec<char>, v: &Vec<char>)
    ensures
        final(out)@ == old(out)@ + v@,
{
    let ghost start = out@;
    let mut k: usize = 0;
    while k < v.len()
        invariant
            k <= v.len(),
            out@ == start + v@.take(k as int),
        decreases v.len() - k,
    {
        out.push(v[k]);
        assert(v@.take(k + 1) =~= v@.take(k as int).push(v@[k as int]));
        k = k + 1;
    }
    assert(v@.take(v.len() as int) =~= v@);
}

/// Appends the rendering of `t` to `out`.
#[verifier::spinoff_prover]
#[verifier::rlimit(40)]
fn render_into(t: &RustType, out: &mut Vec<char>)
    ensures
        final(out)@ == old(out)@ + render(rt_view(*t)),
    decreases t,
{
    let ghost start = out@;
    match t {
        RustType::Empty => {
            assert(start + render(rt_view(*t)) =~= start);
        },
        RustType::Unit => push_str(out, "()"),
        RustType::RefStr => push_str(out, "& str"),
        RustType::F64 => push_str(out, "f64"),
        RustType::Bool => push_str(out, "bool"),
        RustType::OwnedString => push_str(out, "String"),
        RustType::JsonValue => push_str(out, ":: oxidase :: serde_json :: Value"),
        RustType::Slice(b) => {
            push_str(out, "& [");
            render_into(b, out);
            push_str(out, "]");
            assert(out@ =~= start + render(rt_view(*t)));
        },
        RustType::VecOf(b) => {
            push_str(out, "Vec < ");
            render_into(b, out);
            push_str(out, " >");
            assert(out@ =~= start + render(rt_view(*t)));
        },
        RustType::ArrayOf(b, n) => {
            push_str(out, "[");
            render_into(b, out);
            push_str(out, " ; ");
            let digits = radix_chars(*n as u64, 10);
            assert(digits@ == decimal(*n as nat));
            push_chars(out, &digits);
            push_str(out, "usize]");
            assert(out@ =~= start + render(rt_view(*t)));
        },
        RustType::Tuple(v) => {
            if v.len() == 0 {
                push_str(out, "()");
            } else {
                push_str(out, "(");
                let ghost mid = out@;
                let ghost mut done: Seq<char> = Seq::empty();
                let mut i: usize = 0;
                while i < v.len()
                    invariant
                        *t == RustType::Tuple(*v),
                        0 < v.len(),
                        i <= v.len(),
                        out@ == mid + done,
                        render_list(rt_views(v@), 0) == done + render_list(rt_views(v@), i as int),
                    decreases v.len() - i,
                {
                    proof {
                        lemma_rt_views(v@);
                    }
                    proof {
                        assert(decreases_to!(*t => (*t)->Tuple_0));
                        assert(decreases_to!((*t)->Tuple_0 => (*t)->Tuple_0@));
                        assert(decreases_to!((*t)->Tuple_0@ => (*t)->Tuple_0@[i as int]));
                    }
                    render_into(&v[i], out);
                    if i + 1 < v.len() {
                        push_str(out, " , ");
                        proof {
                            assert(render_list(rt_views(v@), i as int) == render(rt_view(v@[i as int])) + " , "@
                                + render_list(rt_views(v@), i + 1));
                            let nd = done + render(rt_view(v@[i as int])) + " , "@;
                            assert(out@ =~= mid + nd);
                            assert(done + render_list(rt_views(v@), i as int) =~= nd + render_list(rt_views(v@), i + 1));
                            done = nd;
                        }
                    } else {
                        proof {
                            assert(render_list(rt_views(v@), i as int) == render(rt_view(v@[i as int])));
                            assert(render_list(rt_views(v@), i + 1) =~= Seq::<char>::empty());
                            let nd = done + render(rt_view(v@[i as int]));
                            assert(out@ =~= mid + nd);
                            assert(done + render_list(rt_views(v@), i as int) =~= nd + render_list(rt_views(v@), i + 1));
                            done = nd;
                        }
                    }
                    i = i + 1;
                }
                proof {
                    lemma_rt_views(v@);
                }
                assert(render_list(rt_views(v@), i as int) =~= Seq::<char>::empty());
                assert(done =~= render_list(rt_views(v@), 0));
                push_str(out, ")");
                assert(out@ =~= start + render(rt_view(*t)));
            }
        },
        RustType::OptionOf(b) => {
            push_str(out, "Option < ");
            render_into(b, out);
            push_str(out, " >");
            assert(out@ =~= start + render(rt_view(*t)));
        },
        RustType::RefNamed(s) => {
            push_str(out, "& ");
            push_str(out, s.as_str());
        },
        RustType::Named(s) => {
            push_str(out, s.as_str());
        },
    }
}

/// The rendering of `t` as characters.
pub fn render_chars(t: &RustType) -> (res: Vec<char>)
    ensures
        res@ == render(rt_view(*t)),
{
    let mut out: Vec<char> = Vec::new();
    render_into(t, &mut out);
    assert(out@ =~= render(rt_view(*t)));
    out
}

impl RustType {
    /// The display text of this type's tokens (what its token stream's `to_string` gives).
    pub fn to_token_string(&self) -> (res: String)
        ensures
            res@ == render(rt_view(*self)),
    {
        string_of(&render_chars(self))
    }
}

} // verus!
