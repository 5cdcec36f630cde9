//! How TypeScript types become Rust types: borrowed forms for parameters (`&str`, `&[T]`,
//! `&Name`), owned forms for results (`String`, `Vec<T>`, `Name`).
use vstd::prelude::*;
use crate::rust_type::{RustType, RustTypeV, rt_view, rt_views, lemma_rt_views, render, render_chars};
use crate::ts_model::{TsKeyword, TypeAnn};
use crate::text::{chars_eq, contains};

verus! {

/// `undefined` or `null`.
pub open spec fn is_nullish(t: TypeAnn) -> bool {
    t matches TypeAnn::Keyword(k) && (k == TsKeyword::Undefined || k == TsKeyword::Null)
}

/// Every member is a string literal type.
pub open spec fn all_str_lit(s: Seq<TypeAnn>) -> bool {
    forall|i: int| 0 <= i < s.len() ==> #[trigger] s[i] is StrLit
}

/// Number of members that are neither `undefined` nor `null`.
pub open spec fn count_non_null(s: Seq<TypeAnn>) -> nat
    decreases s.len(),
{
    if s.len() == 0 {
        0
    } else {
        count_non_null(s.drop_last()) + if is_nullish(s.last()) {
            0nat
        } else {
            1nat
        }
    }
}

/// Index of the first member from `i` on that is neither `undefined` nor `null`
/// (`s.len()` if none).
pub open spec fn first_non_null(s: Seq<TypeAnn>, i: int) -> int
    decreases s.len() - i,
{
    if i < 0 || i >= s.len() {
        s.len() as int
    } else if !is_nullish(s[i]) {
        i
    } else {
        first_non_null(s, i + 1)
    }
}

/// Rust type of a keyword type (`ret`: in result position).
pub open spec fn keyword_type(k: TsKeyword, ret: bool) -> RustTypeV {
    if k == TsKeyword::String {
        if ret {
            RustTypeV::OwnedString
        } else {
            RustTypeV::RefStr
        }
    } else if k == TsKeyword::Number {
        RustTypeV::F64
    } else if k == TsKeyword::Boolean {
        RustTypeV::Bool
    } else if k == TsKeyword::Void && ret {
        RustTypeV::Unit
    } else {
        RustTypeV::JsonValue
    }
}

/// Rust type of a sequence of `elem`: `&[elem]` for parameters, `Vec<elem>` for results.
pub open spec fn seq_type(elem: RustTypeV, ret: bool) -> RustTypeV {
    if ret {
        RustTypeV::VecOf(Box::new(elem))
    } else {
        RustTypeV::Slice(Box::new(elem))
    }
}

/// All types of `ts` render alike.
pub open spec fn all_same(ts: Seq<RustTypeV>) -> bool {
    forall|i: int| 0 <= i < ts.len() ==> render(#[trigger] ts[i]) == render(ts[0])
}

/// Rust type of a tuple with element types `ts`: an array when all elements render alike,
/// otherwise a tuple.
pub open spec fn tuple_type(ts: Seq<RustTypeV>) -> RustTypeV {
    if ts.len() > 0 && all_same(ts) {
        RustTypeV::ArrayOf(Box::new(ts[0]), ts.len())
    } else {
        RustTypeV::Tuple(ts)
    }
}

/// The Rust type for the TypeScript type `t`, in parameter (`ret == false`) or result
/// (`ret == true`) position.
pub open spec fn map_type(t: TypeAnn, ret: bool) -> RustTypeV
    decreases t,
{
    match t {
        TypeAnn::Keyword(k) => keyword_type(k, ret),
        TypeAnn::Array(e) => seq_type(map_type(*e, ret), ret),
        TypeAnn::Tuple(es) => tuple_type(map_types(es@, ret)),
        TypeAnn::Union(us) => if all_str_lit(us@) {
            if ret {
                RustTypeV::OwnedString
            } else {
                RustTypeV::RefStr
            }
        } else {
            let j = first_non_null(us@, 0);
            if count_non_null(us@) == 1 && 0 <= j < us@.len() {
                RustTypeV::OptionOf(Box::new(map_type(us@[j], ret)))
            } else {
                RustTypeV::JsonValue
            }
        },
        TypeAnn::TypeRef(name, Some(args)) if !contains(name@, "."@) => if name@ == "Array"@
            && args@.len() > 0 {
            seq_type(map_type(args@[0], ret), ret)
        } else if ret {
            RustTypeV::Named(name@)
        } else {
            RustTypeV::RefNamed(name@)
        },
        TypeAnn::TypeRef(name, None) if !contains(name@, "."@) => if ret {
            RustTypeV::Named(name@)
        } else {
            RustTypeV::RefNamed(name@)
        },
        _ => RustTypeV::JsonValue,
    }
}

/// The Rust types for the TypeScript types of `s`, in order.
pub open spec fn map_types(s: Seq<TypeAnn>, ret: bool) -> Seq<RustTypeV>
    decreases s,
{
    if s.len() == 0 {
        Seq::empty()
    } else {
        proof {
            assert(decreases_to!(s => s.drop_last()));
        }
        map_types(s.drop_last(), ret).push(map_type(s.last(), ret))
    }
}

pub proof fn lemma_map_types(s: Seq<TypeAnn>, ret: bool)
    ensures
        map_types(s, ret).len() == s.len(),
        forall|k: int| 0 <= k < s.len() ==> #[trigger] map_types(s, ret)[k] == map_type(s[k], ret),
    decreases s.len(),
{
    if s.len() > 0 {
        lemma_map_types(s.drop_last(), ret);
    }
}

fn keyword_type_exec(k: TsKeyword, ret: bool) -> (r: RustType)
    ensures
        rt_view(r) == keyword_type(k, ret),
{
    match k {
        TsKeyword::String => if ret {
            RustType::OwnedString
        } else {
            RustType::RefStr
        },
        TsKeyword::Number => RustType::F64,
        TsKeyword::Boolean => RustType::Bool,
        TsKeyword::Void => if ret {
            RustType::Unit
        } else {
            RustType::JsonValue
        },
        _ => RustType::JsonValue,
    }
}

fn seq_type_exec(elem: RustType, ret: bool) -> (r: RustType)
    ensures
        rt_view(r) == seq_type(rt_view(elem), ret),
{
    if ret {
        RustType::VecOf(Box::new(elem))
    } else {
        RustType::Slice(Box::new(elem))
    }
}

fn tuple_type_exec(ts: Vec<RustType>) -> (r: RustType)
    ensures
        rt_view(r) == tuple_type(rt_views(ts@)),
{
    proof {
        lemma_rt_views(ts@);
    }
    if ts.len() == 0 {
        return RustType::Tuple(ts);
    }
    let first = render_chars(&ts[0]);
    let mut same = true;
    let mut i: usize = 0;
    while i < ts.len()
        invariant
            i <= ts.len(),
            ts.len() > 0,
            first@ == render(rt_view(ts@[0])),
            rt_views(ts@).len() == ts@.len(),
            forall|k: int| 0 <= k < ts@.len() ==> #[trigger] rt_views(ts@)[k] == rt_view(ts@[k]),
            same == (forall|k: int| 0 <= k < i ==> render(#[trigger] rt_views(ts@)[k]) == render(
                rt_views(ts@)[0],
            )),
        decreases ts.len() - i,
    {
        let r = render_chars(&ts[i]);
        assert(rt_views(ts@)[i as int] == rt_view(ts@[i as int]));
        assert(rt_views(ts@)[0] == rt_view(ts@[0]));
        if !chars_eq(&r, &first) {
            same = false;
        }
        assert(same == (forall|k: int| 0 <= k < i + 1 ==> render(#[trigger] rt_views(ts@)[k]) == render(
                rt_views(ts@)[0],
            ))) by {
            if same {
                assert forall|k: int| 0 <= k < i + 1 implies render(#[trigger] rt_views(ts@)[k]) == render(
                rt_views(ts@)[0]) by {
                    if k == i {
                    }
                }
            }
        }
        i = i + 1;
    }
    if same {
        let n = ts.len();
        let mut ts = ts;
        let head = ts.remove(0);
        RustType::ArrayOf(Box::new(head), n)
    } else {
        RustType::Tuple(ts)
    }
}

fn is_nullish_exec(t: &TypeAnn) -> (r: bool)
    ensures
        r == is_nullish(*t),
{
    match t {
        TypeAnn::Keyword(k) => *k == TsKeyword::Undefined || *k == TsKeyword::Null,
        _ => false,
    }
}

/// The Rust type for `t` in parameter (`ret == false`) or result (`ret == true`) position.
fn map_type_exec(t: &TypeAnn, ret: bool) -> (r: RustType)
    ensures
        rt_view(r) == map_type(*t, ret),
    decreases t,
{
    match t {
        TypeAnn::Keyword(k) => keyword_type_exec(*k, ret),
        TypeAnn::Array(e) => {
            let inner = map_type_exec(e, ret);
            seq_type_exec(inner, ret)
        },
        TypeAnn::Tuple(es) => {
            let mut out: Vec<RustType> = Vec::new();
            let mut i: usize = 0;
            while i < es.len()
                invariant
                    *t == TypeAnn::Tuple(*es),
                    i <= es.len(),
                    rt_views(out@) == map_types(es@.take(i as int), ret),
                decreases es.len() - i,
            {
                proof {
                    assert(decreases_to!(*t => (*t)->Tuple_0));
                    assert(decreases_to!((*t)->Tuple_0 => (*t)->Tuple_0@));
                    assert(decreases_to!((*t)->Tuple_0@ => (*t)->Tuple_0@[i as int]));
                }
                let m = map_type_exec(&es[i], ret);
                let ghost before = out@;
                out.push(m);
                proof {
                    assert(out@.drop_last() =~= before);
                    assert(es@.take(i + 1).drop_last() =~= es@.take(i as int));
                }
                i = i + 1;
            }
            assert(es@.take(es.len() as int) =~= es@);
            tuple_type_exec(out)
        },
        TypeAnn::Union(us) => {
            let mut all_lit = true;
            let mut count: usize = 0;
            let mut i: usize = 0;
            while i < us.len()
                invariant
                    i <= us.len(),
                    count <= i,
                    all_lit == (forall|k: int| 0 <= k < i ==> #[trigger] us@[k] is StrLit),
                    count == count_non_null(us@.take(i as int)),
                decreases us.len() - i,
            {
                match &us[i] {
                    TypeAnn::StrLit => {},
                    _ => {
                        all_lit = false;
                    },
                }
                if !is_nullish_exec(&us[i]) {
                    count = count + 1;
                }
                assert(us@.take(i + 1).drop_last() =~= us@.take(i as int));
                i = i + 1;
            }
            assert(us@.take(us.len() as int) =~= us@);
            if all_lit {
                if ret {
                    RustType::OwnedString
                } else {
                    RustType::RefStr
                }
            } else if count == 1 {
                let mut j: usize = 0;
                while j < us.len() && is_nullish_exec(&us[j])
                    invariant
                        j <= us.len(),
                        first_non_null(us@, 0) == first_non_null(us@, j as int),
                    decreases us.len() - j,
                {
                    j = j + 1;
                }
                if j < us.len() {
                    proof {
                        assert(decreases_to!(*t => (*t)->Union_0));
                        assert(decreases_to!((*t)->Union_0 => (*t)->Union_0@));
                        assert(decreases_to!((*t)->Union_0@ => (*t)->Union_0@[j as int]));
                    }
                    let inner = map_type_exec(&us[j], ret);
                    RustType::OptionOf(Box::new(inner))
                } else {
                    RustType::JsonValue
                }
            } else {
                RustType::JsonValue
            }
        },
        TypeAnn::TypeRef(name, Some(args)) if !crate::text::exec_contains(
            &crate::text::chars_of(name.as_str()),
            &crate::text::chars_of("."),
        ) => {
            if crate::text::chars_eq_str(&crate::text::chars_of(name.as_str()), "Array")
                && args.len() > 0 {
                proof {
                    let a = (*t)->TypeRef_1;
                    assert(decreases_to!(*t => a));
                    assert(decreases_to!(a => a->Some_0));
                    assert(decreases_to!(a->Some_0 => a->Some_0@));
                    assert(decreases_to!(a->Some_0@ => a->Some_0@[0]));
                }
                let inner = map_type_exec(&args[0], ret);
                seq_type_exec(inner, ret)
            } else if ret {
                RustType::Named(name.clone())
            } else {
                RustType::RefNamed(name.clone())
            }
        },
        TypeAnn::TypeRef(name, None) if !crate::text::exec_contains(
            &crate::text::chars_of(name.as_str()),
            &crate::text::chars_of("."),
        ) => if ret {
            RustType::Named(name.clone())
        } else {
            RustType::RefNamed(name.clone())
        },
        _ => RustType::JsonValue,
    }
}

/// The Rust type of a parameter annotated with `ty`.
pub fn map_ts_to_rust_param(ty: &TypeAnn) -> (res: RustType)
    ensures
        rt_view(res) == map_type(*ty, false),
{
    map_type_exec(ty, false)
}

/// The Rust type of a result of type `ty`.
pub fn map_ts_to_rust_return(ty: &TypeAnn) -> (res: RustType)
    ensures
        rt_view(res) == map_type(*ty, true),
{
    map_type_exec(ty, true)
}

} // verus!
