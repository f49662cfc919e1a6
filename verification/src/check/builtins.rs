//! What the methods of the builtin types give.
use vstd::prelude::*;
use crate::ast::Expr;
use crate::check::Ck;
use crate::diag::{Problem, Report};
use crate::list::List;
use crate::names::Symbol;
use crate::span::Span;
use crate::ty::{Ty, TyKind, BOOL_TY, CHAR_TY, I64_TY, NULL_TY, STR_TY};
use crate::words::{
    BYTES, BYTE_SIZE, CHARS, CLEAR, CONTAINS, ENDS_WITH, ENTRIES, GET, INDEX_OF, INSERT, IS_EMPTY, ITER, KEYS, POP,
    PUSH, REMOVE, REPEAT, REPLACE, SET, SIZE, SPLIT, STARTS_WITH, SUBSTRING, TO_LOWER, TO_UPPER, TRIM, TRUNCATE,
    TRY_RECV, T_LIST, T_LIST_ITER, T_MAP_ENTRIES, T_MAP_KEYS, T_MAP_VALUES, T_STR_BYTES, T_STR_CHARS,
    VALUES,
};

verus! {

/// A table of types as the checker builds it: it starts with the primitive types, its
/// unions are flat, and there is room for another type.
pub open spec fn valid_table(k: Seq<TyKind>) -> bool {
    &&& crate::ty::unions_flat(k)
    &&& k.len() < u32::MAX
    &&& crate::list::extends(crate::ty::primitive_kinds(), k)
}

/// `u` is the type `t | null`: its alternatives are `null` and those of `t`.
pub open spec fn is_or_null(s: Ck, t: Ty, s1: Ck, u: Ty) -> bool {
    &&& s1.errors == s.errors
    &&& forall|x: Ty| #[trigger]
        crate::ty::has_ty(s1.variants(u), x) <==> x == NULL_TY || (crate::ty::has_ty(s.variants(t), x) && !(s.kind(
            x,
        ) is Never))
}

/// Where a `t` is required that can be neither `null` nor anything at all, `u` may not
/// stand.
pub open spec fn may_be_null(s: Ck, t: Ty, s1: Ck, u: Ty) -> bool {
    !crate::ty::has_ty(s.variants(t), NULL_TY) && !(s.kind(t) is Dynamic) && !(s.kind(t) is Error)
        && !(s.kind(t) is Never) ==> !s1.assignable(u, t)
}

proof fn lemma_two(x: Ty, y: Ty, t: Ty)
    ensures
        crate::ty::has_ty(List::two(x, y), t) == (t == x || t == y),
{
    reveal_with_fuel(crate::ty::has_ty, 4);
}

proof fn lemma_or_null(s: Ck, t: Ty)
    requires
        valid_table(s.kinds),
        t < s.kinds.len(),
    ensures
        is_or_null(s, t, s.mk_nullable(t).0, s.mk_nullable(t).1),
        may_be_null(s, t, s.mk_nullable(t).0, s.mk_nullable(t).1),
{
    reveal(Ck::mk_nullable);
    reveal(Ck::mk_union);
    reveal(Ck::with_kinds);
    reveal(Ck::variants);
    reveal(Ck::kind);
    let k = s.kinds;
    let l = List::two(t, NULL_TY);
    let (s1, u) = s.mk_nullable(t);
    assert(crate::ty::primitive_kinds()[5] == k[5]);
    assert(crate::ty::kind_of(k, NULL_TY) is Null);
    assert forall|x: Ty| #[trigger] crate::ty::has_ty(l, x) implies x < k.len() by {
        lemma_two(t, NULL_TY, x);
    }
    reveal_with_fuel(crate::ty::has_ty, 3);
    assert(crate::ty::has_ty(crate::ty::contributes(k, NULL_TY), NULL_TY));
    lemma_two(t, NULL_TY, NULL_TY);
    lemma_two(t, NULL_TY, t);
    assert(crate::ty::contributed(k, l, NULL_TY));
    assert forall|x: Ty| #[trigger]
        crate::ty::has_ty(s1.variants(u), x) <==> x == NULL_TY || (crate::ty::has_ty(s.variants(t), x) && !(s.kind(
            x,
        ) is Never)) by {
        crate::ty::law_union_variants(k, l, x, NULL_TY);
        if crate::ty::contributed(k, l, x) {
            let y = choose|y: Ty| #[trigger] crate::ty::has_ty(l, y) && crate::ty::has_ty(crate::ty::contributes(k, y), x);
            lemma_two(t, NULL_TY, y);
            assert(crate::ty::union_flat(k, k[t as int]));
            if y == t {
                if crate::ty::kind_of(k, t) is Union {
                    assert(crate::ty::plain_in(k, x));
                }
            }
        }
        if crate::ty::has_ty(s.variants(t), x) && !(s.kind(x) is Never) {
            assert(crate::ty::has_ty(crate::ty::contributes(k, t), x));
            assert(crate::ty::contributed(k, l, x));
        }
    }
    if !crate::ty::has_ty(s.variants(t), NULL_TY) && !(s.kind(t) is Dynamic) && !(s.kind(t) is Error) && !(s.kind(t)
        is Never) {
        lemma_not_assignable(s, t);
    }
}

proof fn lemma_all_in_has(a: List<Ty>, b: List<Ty>, x: Ty)
    requires
        crate::ty::all_in(a, b),
        crate::ty::has_ty(a, x),
    ensures
        crate::ty::has_ty(b, x),
    decreases a,
{
    match a {
        List::Nil => {},
        List::Cons(h, t) => {
            if *h != x {
                lemma_all_in_has(*t, b, x);
            }
        },
    }
}

/// A type that some value other than `null` has, and `null` has not.
proof fn lemma_has_variant(k: Seq<TyKind>, t: Ty)
    requires
        crate::ty::unions_flat(k),
        t < k.len(),
        !(crate::ty::kind_of(k, t) is Never),
    ensures
        exists|x: Ty| #[trigger] crate::ty::has_ty(crate::ty::contributes(k, t), x),
{
    assert(crate::ty::union_flat(k, k[t as int]));
    match crate::ty::contributes(k, t) {
        List::Cons(h, _) => {
            assert(crate::ty::has_ty(crate::ty::contributes(k, t), *h));
        },
        List::Nil => {},
    }
}

proof fn lemma_not_assignable(s: Ck, t: Ty)
    requires
        valid_table(s.kinds),
        t < s.kinds.len(),
        !crate::ty::has_ty(s.variants(t), NULL_TY),
        !(s.kind(t) is Dynamic),
        !(s.kind(t) is Error),
        !(s.kind(t) is Never),
    ensures
        !s.mk_nullable(t).0.assignable(s.mk_nullable(t).1, t),
{
    reveal(Ck::mk_nullable);
    reveal(Ck::mk_union);
    reveal(Ck::with_kinds);
    reveal(Ck::variants);
    reveal(Ck::kind);
    let k = s.kinds;
    let l = List::two(t, NULL_TY);
    let ms = crate::ty::union_members(k, l, List::Nil);
    let (s1, u) = s.mk_nullable(t);
    assert(crate::ty::primitive_kinds()[5] == k[5]);
    assert forall|x: Ty| #[trigger] crate::ty::has_ty(l, x) implies x < k.len() by {
        lemma_two(t, NULL_TY, x);
    }
    reveal_with_fuel(crate::ty::has_ty, 3);
    lemma_two(t, NULL_TY, NULL_TY);
    lemma_two(t, NULL_TY, t);
    assert(crate::ty::has_ty(crate::ty::contributes(k, NULL_TY), NULL_TY));
    assert(crate::ty::contributed(k, l, NULL_TY));
    lemma_has_variant(k, t);
    let x = choose|x: Ty| #[trigger] crate::ty::has_ty(crate::ty::contributes(k, t), x);
    assert(crate::ty::contributed(k, l, x));
    assert(x != NULL_TY);
    crate::ty::law_union_variants(k, l, x, NULL_TY);
    crate::ty::law_union_variants(k, l, NULL_TY, NULL_TY);
    assert(crate::ty::has_ty(s1.variants(u), x) && crate::ty::has_ty(s1.variants(u), NULL_TY));
    crate::ty::law_union_grows(k, l);
    assert(s1.kinds[t as int] == k[t as int]);
    assert(s1.kind(u) is Union);
    assert(u != t) by {
        if u == t {
            assert(s.variants(t) == s1.variants(u));
        }
    }
    if s1.assignable(u, t) {
        reveal(Ck::assignable);
        reveal(Ck::implements_dyn);
        reveal(Ck::named_def);
        reveal(Ck::is_err);
        lemma_all_in_has(s1.variants(u), s1.variants(t), NULL_TY);
    }
}

/// Reading an element of a list that may not be there gives `T | null`, whatever the
/// element type `T`, and is not a `T`: `get`, `pop` and `remove`.
pub proof fn law_list_access_may_be_null(s: Ck, elem: Ty, name: Symbol, span: Span)
    requires
        valid_table(s.kinds),
        elem < s.kinds.len(),
        name == GET || name == POP || name == REMOVE,
    ensures
        is_or_null(s, elem, s.list_result(elem, name, span).0, s.list_result(elem, name, span).1),
        may_be_null(s, elem, s.list_result(elem, name, span).0, s.list_result(elem, name, span).1),
{
    reveal(Ck::list_result);
    lemma_or_null(s, elem);
}

/// The same of a call: it takes the position, or nothing, and gives `T | null`.
pub proof fn law_list_access_call(s: Ck, e: Expr, elem: Ty)
    requires
        ({
            let name = crate::check::calls::member_name(e).name;
            let t = s.check_fixed(e, access_params(name));
            &&& name == GET || name == POP || name == REMOVE
            &&& valid_table(t.kinds)
            &&& elem < t.kinds.len()
        }),
    ensures
        ({
            let name = crate::check::calls::member_name(e).name;
            let t = s.check_fixed(e, access_params(name));
            let (r, u) = s.check_list_method(e, elem);
            is_or_null(t, elem, r, u) && may_be_null(t, elem, r, u)
        }),
{
    let name = crate::check::calls::member_name(e).name;
    lemma_access_params(s, elem, name);
    lemma_list_call(s, e, elem, name, access_params(name));
    law_list_access_may_be_null(s.check_fixed(e, access_params(name)), elem, name, e.span);
}

proof fn lemma_access_params(s: Ck, elem: Ty, name: Symbol)
    requires
        name == GET || name == POP || name == REMOVE,
    ensures
        s.list_params(elem, name) == Some(access_params(name)),
{
    reveal(Ck::list_params);
}

proof fn lemma_list_call(s: Ck, e: Expr, elem: Ty, name: Symbol, tys: List<Ty>)
    requires
        crate::check::calls::member_name(e).name == name,
        s.list_params(elem, name) == Some(tys),
    ensures
        s.check_list_method(e, elem) == s.check_fixed(e, tys).list_result(elem, name, e.span),
{
}

/// What reading an element takes: a position, but `pop` takes nothing.
pub open spec fn access_params(name: Symbol) -> List<Ty> {
    if name == POP {
        List::Nil
    } else {
        List::one(I64_TY)
    }
}

/// Reading an entry of a map that may not be there gives `V | null` and is not a `V`:
/// `get` and `remove`.
pub proof fn law_map_access_may_be_null(s: Ck, kt: Ty, vt: Ty, name: Symbol)
    requires
        valid_table(s.kinds),
        vt < s.kinds.len(),
        name == GET || name == REMOVE,
    ensures
        is_or_null(s, vt, s.map_result(kt, vt, name).0, s.map_result(kt, vt, name).1),
        may_be_null(s, vt, s.map_result(kt, vt, name).0, s.map_result(kt, vt, name).1),
        s.map_params(kt, vt, name) == Some(List::one(kt)),
{
    reveal(Ck::map_result);
    reveal(Ck::map_params);
    lemma_or_null(s, vt);
}

/// Searching gives a position or `null`, and a character that may not be there is a
/// `char | null`.
pub proof fn law_search_may_be_null(s: Ck)
    requires
        valid_table(s.kinds),
    ensures
        is_or_null(s, I64_TY, s.str_result(INDEX_OF).0, s.str_result(INDEX_OF).1),
        may_be_null(s, I64_TY, s.str_result(INDEX_OF).0, s.str_result(INDEX_OF).1),
        is_or_null(s, CHAR_TY, s.str_result(GET).0, s.str_result(GET).1),
        may_be_null(s, CHAR_TY, s.str_result(GET).0, s.str_result(GET).1),
{
    reveal(Ck::str_result);
    assert(crate::ty::primitive_kinds()[10] == s.kinds[10]);
    assert(crate::ty::primitive_kinds()[3] == s.kinds[3]);
    lemma_or_null(s, I64_TY);
    lemma_or_null(s, CHAR_TY);
}

/// `contains` and `index_of` compare elements: they are reported, once, exactly if the
/// elements cannot be compared.
pub proof fn law_list_search_needs_equality(s: Ck, elem: Ty, name: Symbol, span: Span)
    requires
        name == CONTAINS || name == INDEX_OF,
    ensures
        ({
            let (t, ok) = s.is_equatable(elem);
            let r = s.list_result(elem, name, span).0;
            if ok {
                r.errors == t.errors
            } else {
                exists|text: Seq<char>|
                    r.errors == #[trigger] t.errors.push(Report { problem: Problem::Message(text), span })
            }
        }),
        name == CONTAINS ==> s.list_result(elem, name, span).1 == BOOL_TY,
{
    reveal(Ck::list_result);
    reveal(Ck::say);
    reveal(Ck::fail);
    reveal(Ck::mk_nullable);
    reveal(Ck::mk_union);
    reveal(Ck::with_kinds);
    let (t, ok) = s.is_equatable(elem);
    if !ok {
        let text = "`List."@ + t.name(name) + "` requires the element type to implement `Eq`"@;
        assert(s.list_result(elem, name, span).0.errors == t.errors.push(
            Report { problem: Problem::Message(text), span },
        ));
    }
}

/// `index_of` on a list gives a position or `null`.
pub proof fn law_list_search_may_be_null(s: Ck, elem: Ty, span: Span)
    requires
        valid_table(s.is_equatable(elem).0.kinds),
        s.is_equatable(elem).1,
    ensures
        is_or_null(
            s.is_equatable(elem).0,
            I64_TY,
            s.list_result(elem, INDEX_OF, span).0,
            s.list_result(elem, INDEX_OF, span).1,
        ),
{
    reveal(Ck::list_result);
    let t = s.is_equatable(elem).0;
    assert(crate::ty::primitive_kinds()[10] == t.kinds[10]);
    lemma_or_null(t, I64_TY);
}

/// Receiving without waiting gives an element or `null`.
pub proof fn law_try_recv_may_be_null(s: Ck, e: Expr, elem: Ty)
    requires
        crate::check::calls::member_name(e).name == TRY_RECV,
        valid_table(s.has_args(e, 0).0.kinds),
        elem < s.has_args(e, 0).0.kinds.len(),
    ensures
        ({
            let t = s.has_args(e, 0).0;
            let (r, u) = s.check_channel_method(e, elem, false);
            is_or_null(t, elem, r, u) && may_be_null(t, elem, r, u)
        }),
{
    lemma_or_null(s.has_args(e, 0).0, elem);
}

/// A wrong number of arguments is reported, and only that.
pub proof fn law_argument_count(s: Ck, e: Expr, n: usize, found: usize, span: Span)
    ensures
        s.has_args(e, n).1 == (crate::check::calls::arg_count(e, true) == n),
        s.has_args(e, n).0.errors.len() == s.errors.len() + if s.has_args(e, n).1 {
            0int
        } else {
            1int
        },
        s.check_arity(n, found, span).errors == if found == n {
            s.errors
        } else {
            s.errors.push(Report { problem: Problem::ArgCount { expected: n, found }, span })
        },
{
    reveal(Ck::has_args);
    reveal(Ck::check_arity);
    reveal(Ck::fail);
}

/// `t` is an instance of the toolchain type called `name` with the arguments `args`.
pub open spec fn is_instance(s: Ck, t: Ty, name: Symbol, args: List<Ty>) -> bool {
    s.kind(t) == (TyKind::Named { def: s.p.well_known(name), args })
}

proof fn lemma_instance(s: Ck, name: Symbol, args: List<Ty>)
    requires
        s.kinds.len() < u32::MAX,
    ensures
        is_instance(
            s.mk_named(s.p.well_known(name), args).0,
            s.mk_named(s.p.well_known(name), args).1,
            name,
            args,
        ),
        s.mk_named(s.p.well_known(name), args).0.errors == s.errors,
{
    reveal(Ck::mk_named);
    reveal(Ck::mk);
    reveal(Ck::with_kinds);
    reveal(Ck::kind);
    crate::ty::law_interned_kind(s.kinds, TyKind::Named { def: s.p.well_known(name), args });
}

/// The other methods of a list: what they take and give. What changes the list gives
/// nothing back.
pub proof fn law_list_methods(s: Ck, elem: Ty, span: Span)
    requires
        s.kinds.len() < u32::MAX,
    ensures
        s.list_result(elem, SIZE, span) == (s, I64_TY),
        s.list_result(elem, IS_EMPTY, span) == (s, BOOL_TY),
        s.list_result(elem, PUSH, span) == (s, NULL_TY),
        s.list_result(elem, SET, span) == (s, NULL_TY),
        s.list_result(elem, INSERT, span) == (s, NULL_TY),
        s.list_result(elem, CLEAR, span) == (s, NULL_TY),
        s.list_result(elem, TRUNCATE, span) == (s, NULL_TY),
        is_instance(
            s.list_result(elem, ITER, span).0,
            s.list_result(elem, ITER, span).1,
            T_LIST_ITER,
            List::one(elem),
        ),
        s.list_params(elem, PUSH) == Some(List::one(elem)),
        s.list_params(elem, CONTAINS) == Some(List::one(elem)),
        s.list_params(elem, INDEX_OF) == Some(List::one(elem)),
        s.list_params(elem, SET) == Some(List::two(I64_TY, elem)),
        s.list_params(elem, INSERT) == Some(List::two(I64_TY, elem)),
        s.list_params(elem, TRUNCATE) == Some(List::one(I64_TY)),
        s.list_params(elem, GET) == Some(List::one(I64_TY)),
        s.list_params(elem, REMOVE) == Some(List::one(I64_TY)),
        s.list_params(elem, SIZE) == Some(List::<Ty>::Nil),
        s.list_params(elem, IS_EMPTY) == Some(List::<Ty>::Nil),
        s.list_params(elem, CLEAR) == Some(List::<Ty>::Nil),
        s.list_params(elem, POP) == Some(List::<Ty>::Nil),
        s.list_params(elem, ITER) == Some(List::<Ty>::Nil),
{
    reveal(Ck::list_result);
    reveal(Ck::list_params);
    lemma_instance(s, T_LIST_ITER, List::one(elem));
}

/// The other methods of a map.
pub proof fn law_map_methods(s: Ck, kt: Ty, vt: Ty)
    requires
        s.kinds.len() < u32::MAX,
    ensures
        s.map_result(kt, vt, SIZE) == (s, I64_TY),
        s.map_result(kt, vt, IS_EMPTY) == (s, BOOL_TY),
        s.map_result(kt, vt, CONTAINS) == (s, BOOL_TY),
        s.map_result(kt, vt, SET) == (s, NULL_TY),
        s.map_result(kt, vt, CLEAR) == (s, NULL_TY),
        is_instance(
            s.map_result(kt, vt, KEYS).0,
            s.map_result(kt, vt, KEYS).1,
            T_MAP_KEYS,
            List::one(kt),
        ),
        is_instance(
            s.map_result(kt, vt, VALUES).0,
            s.map_result(kt, vt, VALUES).1,
            T_MAP_VALUES,
            List::one(vt),
        ),
        is_instance(
            s.map_result(kt, vt, ENTRIES).0,
            s.map_result(kt, vt, ENTRIES).1,
            T_MAP_ENTRIES,
            List::two(kt, vt),
        ),
        s.map_params(kt, vt, CONTAINS) == Some(List::one(kt)),
        s.map_params(kt, vt, SET) == Some(List::two(kt, vt)),
        s.map_params(kt, vt, SIZE) == Some(List::<Ty>::Nil),
        s.map_params(kt, vt, IS_EMPTY) == Some(List::<Ty>::Nil),
        s.map_params(kt, vt, CLEAR) == Some(List::<Ty>::Nil),
        s.map_params(kt, vt, KEYS) == Some(List::<Ty>::Nil),
        s.map_params(kt, vt, VALUES) == Some(List::<Ty>::Nil),
        s.map_params(kt, vt, ENTRIES) == Some(List::<Ty>::Nil),
{
    reveal(Ck::map_result);
    reveal(Ck::map_params);
    lemma_instance(s, T_MAP_KEYS, List::one(kt));
    lemma_instance(s, T_MAP_VALUES, List::one(vt));
    lemma_instance(s, T_MAP_ENTRIES, List::two(kt, vt));
}

/// The other methods of a string.
pub proof fn law_str_methods(s: Ck)
    requires
        s.kinds.len() < u32::MAX,
    ensures
        s.str_result(SIZE) == (s, I64_TY),
        s.str_result(BYTE_SIZE) == (s, I64_TY),
        s.str_result(IS_EMPTY) == (s, BOOL_TY),
        s.str_result(CONTAINS) == (s, BOOL_TY),
        s.str_result(STARTS_WITH) == (s, BOOL_TY),
        s.str_result(ENDS_WITH) == (s, BOOL_TY),
        s.str_result(TO_UPPER) == (s, STR_TY),
        s.str_result(TO_LOWER) == (s, STR_TY),
        s.str_result(TRIM) == (s, STR_TY),
        s.str_result(REPEAT) == (s, STR_TY),
        s.str_result(SUBSTRING) == (s, STR_TY),
        s.str_result(REPLACE) == (s, STR_TY),
        is_instance(s.str_result(SPLIT).0, s.str_result(SPLIT).1, T_LIST, List::one(STR_TY)),
        is_instance(s.str_result(CHARS).0, s.str_result(CHARS).1, T_STR_CHARS, List::Nil),
        is_instance(s.str_result(BYTES).0, s.str_result(BYTES).1, T_STR_BYTES, List::Nil),
        s.str_params(CONTAINS) == Some(List::one(STR_TY)),
        s.str_params(STARTS_WITH) == Some(List::one(STR_TY)),
        s.str_params(ENDS_WITH) == Some(List::one(STR_TY)),
        s.str_params(INDEX_OF) == Some(List::one(STR_TY)),
        s.str_params(SPLIT) == Some(List::one(STR_TY)),
        s.str_params(REPEAT) == Some(List::one(I64_TY)),
        s.str_params(GET) == Some(List::one(I64_TY)),
        s.str_params(SUBSTRING) == Some(List::two(I64_TY, I64_TY)),
        s.str_params(REPLACE) == Some(List::two(STR_TY, STR_TY)),
        s.str_params(SIZE) == Some(List::<Ty>::Nil),
        s.str_params(TRIM) == Some(List::<Ty>::Nil),
{
    reveal(Ck::str_result);
    reveal(Ck::str_params);
    reveal(Ck::mk_list);
    lemma_instance(s, T_LIST, List::one(STR_TY));
    lemma_instance(s, T_STR_CHARS, List::Nil);
    lemma_instance(s, T_STR_BYTES, List::Nil);
}

} // verus!
