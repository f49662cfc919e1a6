//! What is accepted and what is reported.
use vstd::prelude::*;
use crate::ast::{BinaryOp, CastOp, Expr, ExprKind, IntLit};
use crate::check::rules::Facts;
use crate::check::structs::has_symbol;
use crate::check::Ck;
use crate::diag::Report;
use crate::hir::FieldTy;
use crate::ids::DefId;
use crate::list::List;
use crate::names::Symbol;
use crate::solve::Solved;
use crate::span::Span;
use crate::ty::{IntTy, Ty, TyKind, BOOL_TY, CHAR_TY, I64_TY, STR_TY};
use crate::words::{T_CLONE, T_ENTRY, T_EQ, T_HASH, T_RECEIVER, T_SENDER, T_SHARED};

verus! {

/// From `s` to `t` one diagnostic was added, at `span`.
pub open spec fn reported(s: Ck, t: Ck, span: Span) -> bool {
    &&& t.errors.len() == s.errors.len() + 1
    &&& t.errors.drop_last() == s.errors
    &&& t.errors.last().span == span
}

/// From `s` to `t` a diagnostic was added at `span` exactly if `wrong`.
pub open spec fn reported_if(wrong: bool, s: Ck, t: Ck, span: Span) -> bool {
    if wrong {
        reported(s, t, span)
    } else {
        t.errors == s.errors
    }
}

proof fn lemma_fail(s: Ck, problem: crate::diag::Problem, span: Span)
    ensures
        reported(s, s.fail(problem, span), span),
{
    reveal(Ck::fail);
    assert(s.errors.push(Report { problem, span }).drop_last() =~= s.errors);
}

proof fn lemma_say(s: Ck, text: Seq<char>, span: Span)
    ensures
        reported(s, s.say(text, span), span),
{
    reveal(Ck::say);
    lemma_fail(s, crate::diag::Problem::Message(text), span);
}

proof fn lemma_op_error(s: Ck, op: Seq<char>, ty: Ty, span: Span)
    ensures
        reported(s, s.op_error(op, ty, span), span),
{
    reveal(Ck::op_error);
    lemma_fail(s, crate::diag::Problem::InvalidOperator { op, ty: s.show(ty) }, span);
}

proof fn lemma_expect(s: Ck, found: Ty, expected: Ty, span: Span)
    ensures
        reported_if(!s.assignable(found, expected), s, s.expect(found, expected, span), span),
{
    crate::check::laws::law_expect_reports(s, found, expected, span);
    let t = s.expect(found, expected, span);
    if !s.assignable(found, expected) {
        assert(t.errors.drop_last() =~= s.errors);
    }
}

// -- literals -----------------------------------------------------------------------------

/// `2` to the power `n`.
pub open spec fn two_to(n: nat) -> nat
    decreases n,
{
    if n == 0 {
        1
    } else {
        2 * two_to((n - 1) as nat)
    }
}

proof fn lemma_two_to()
    ensures
        two_to(7) == 128,
        two_to(8) == 256,
        two_to(15) == 32768,
        two_to(16) == 65536,
        two_to(31) == 2147483648,
        two_to(32) == 4294967296,
        two_to(63) == 9223372036854775808,
        two_to(64) == 18446744073709551616,
{
    reveal_with_fuel(two_to, 6);
    assert(two_to(4) == 16);
    assert(two_to(7) == 128);
    assert(two_to(8) == 256);
    assert(two_to(12) == 4096);
    assert(two_to(15) == 32768);
    assert(two_to(16) == 65536);
    assert(two_to(20) == 1048576);
    assert(two_to(24) == 16777216);
    assert(two_to(28) == 268435456);
    assert(two_to(31) == 2147483648);
    assert(two_to(32) == 4294967296);
    assert(two_to(36) == 68719476736);
    assert(two_to(40) == 1099511627776);
    assert(two_to(44) == 17592186044416);
    assert(two_to(48) == 281474976710656);
    assert(two_to(52) == 4503599627370496);
    assert(two_to(56) == 72057594037927936);
    assert(two_to(60) == 1152921504606846976);
    assert(two_to(63) == 9223372036854775808);
    assert(two_to(64) == 18446744073709551616);
}

/// An integer literal is reported exactly if its value needs more bits than its type
/// has; one bit of a signed type is for the sign.
pub proof fn law_literal_fits(s: Ck, lit: IntLit, ty: Ty, it: IntTy, bits: u32, v: u128, span: Span)
    requires
        s.kind(ty) == TyKind::Int(it),
        it.width() == Some(bits),
        s.literal(lit, u128::MAX) == Some(v),
    ensures
        reported_if(
            v >= two_to(
                if it.signed() {
                    (bits - 1) as nat
                } else {
                    bits as nat
                },
            ),
            s,
            s.check_int_range(lit, ty, span),
            span,
        ),
{
    reveal(Ck::check_int_range);
    lemma_two_to();
    lemma_say(s, "literal `"@ + s.digits(lit.raw) + "` does not fit in `"@ + it.text() + "`"@, span);
}

/// An integer literal without a suffix has the expected type if that is an integer
/// type, and is an `i64` otherwise.
pub proof fn law_plain_literal_type(s: Ck, lit: IntLit, expected: Option<Ty>, span: Span)
    requires
        lit.suffix is None,
    ensures
        s.check_int_lit(lit, expected, span).1 == (match expected {
            Some(x) => if s.kind(x) is Int {
                x
            } else {
                I64_TY
            },
            None => I64_TY,
        }),
{
    reveal(Ck::check_int_lit);
    reveal(Ck::is_integer);
}

/// A literal with a suffix has the type that the suffix names.
pub proof fn law_suffix_decides(s: Ck, lit: IntLit, expected: Option<Ty>, span: Span, it: IntTy)
    requires
        lit.suffix is Some,
        IntTy::named(lit.suffix->0) == Some(it),
    ensures
        s.check_int_lit(lit, expected, span).1 == it.handle(),
{
    reveal(Ck::check_int_lit);
    reveal(Ck::int_named);
}

// -- conditions and narrowing ---------------------------------------------------------------

/// A condition is reported exactly if it is not a `bool` and did not fail to check.
pub proof fn law_condition_is_bool(s: Ck, ty: Ty, span: Span)
    ensures
        reported_if(ty != BOOL_TY && !(s.kind(ty) is Error), s, s.require_bool(ty, span), span),
{
    reveal(Ck::require_bool);
    reveal(Ck::is_err);
    lemma_fail(s, crate::diag::Problem::NonBoolCondition { found: s.show(ty) }, span);
}

/// What `name` is known to be: what the branch says of it, else what it was declared as.
pub open spec fn known_type(s: Ck, local: crate::ids::LocalId, declared: Ty) -> Ty {
    match crate::check::local_ty_in(s.narrowings, local) {
        Some(t) => t,
        None => declared,
    }
}

/// `name is T` says of the local `name` that it is a `T` where the condition holds, and
/// where it does not, that it has one of the alternatives that `T` does not have.
pub proof fn law_narrowing(s: Ck, cond: Expr, name: crate::ast::Ident, x: Ty)
    requires
        cond.kind is Cast,
        cond.kind->Cast_op == CastOp::Is,
        cond.kind->Cast_expr.kind == ExprKind::Ident(name),
        s.lookup(name.name) is Some,
        ({
            let b = s.lookup(name.name)->0;
            let t = s.lower(*cond.kind->Cast_ty, s.env()).0;
            let base = known_type(t, b.local, b.ty);
            &&& crate::check::builtins::valid_table(t.kinds)
            &&& base < t.kinds.len()
            &&& !(t.kind(base) is Never)
        }),
    ensures
        ({
            let b = s.lookup(name.name)->0;
            let (t, ty) = s.lower(*cond.kind->Cast_ty, s.env());
            let base = known_type(t, b.local, b.ty);
            let (r, facts) = s.narrow_facts(cond);
            let rest = crate::ty::has_ty(t.variants(base), x) && !crate::ty::has_ty(t.variants(ty), x);
            &&& facts is Some
            &&& facts->0.local == b.local
            &&& facts->0.then_ty == ty
            &&& rest ==> crate::ty::has_ty(r.variants(facts->0.else_ty), x)
            &&& crate::ty::has_ty(r.variants(facts->0.else_ty), x) ==> rest || facts->0.else_ty == base
            &&& r.errors == t.errors
        }),
{
    reveal(Ck::narrow_facts);
    reveal(Ck::mk_union);
    reveal(Ck::with_kinds);
    reveal(Ck::variants);
    reveal(Ck::kind);
    let b = s.lookup(name.name)->0;
    let (t, ty) = s.lower(*cond.kind->Cast_ty, s.env());
    let base = known_type(t, b.local, b.ty);
    let k = t.kinds;
    let vs = t.variants(base);
    let left = crate::ty::without(vs, t.variants(ty));
    assert(crate::ty::union_flat(k, k[base as int]));
    assert forall|y: Ty| #[trigger] crate::ty::has_ty(left, y) implies crate::ty::plain_in(k, y) by {
        lemma_without(vs, t.variants(ty), y);
        reveal_with_fuel(crate::ty::has_ty, 3);
    }
    lemma_without(vs, t.variants(ty), x);
    match left {
        List::Nil => {},
        List::Cons(h, _) => {
            assert(crate::ty::has_ty(left, *h));
            lemma_contributes(k, left, *h);
            lemma_contributes(k, left, x);
            crate::ty::law_union_variants(k, left, x, *h);
        },
    }
}

proof fn lemma_without(l: List<Ty>, drop: List<Ty>, x: Ty)
    ensures
        crate::ty::has_ty(crate::ty::without(l, drop), x) == (crate::ty::has_ty(l, x) && !crate::ty::has_ty(drop, x)),
    decreases l,
{
    match l {
        List::Nil => {},
        List::Cons(_, t) => lemma_without(*t, drop, x),
    }
}

/// A list of types that are no unions contributes just these.
proof fn lemma_contributes(k: Seq<TyKind>, l: List<Ty>, x: Ty)
    requires
        forall|y: Ty| #[trigger] crate::ty::has_ty(l, y) ==> crate::ty::plain_in(k, y),
    ensures
        crate::ty::contributed(k, l, x) == crate::ty::has_ty(l, x),
{
    reveal_with_fuel(crate::ty::has_ty, 3);
    if crate::ty::has_ty(l, x) {
        assert(crate::ty::plain_in(k, x));
        assert(crate::ty::has_ty(crate::ty::contributes(k, x), x));
    }
    if crate::ty::contributed(k, l, x) {
        let y = choose|y: Ty| #[trigger] crate::ty::has_ty(l, y) && crate::ty::has_ty(crate::ty::contributes(k, y), x);
        assert(crate::ty::plain_in(k, y));
    }
}

/// In a branch the local is known to be what the condition says there, every other local
/// is what it was, and leaving the branch undoes it.
pub proof fn law_branch(s: Ck, f: Facts, holds: bool, other: crate::ids::LocalId, declared: Ty)
    ensures
        known_type(s.enter_branch(Some(f), holds), f.local, declared) == if holds {
            f.then_ty
        } else {
            f.else_ty
        },
        other != f.local ==> known_type(s.enter_branch(Some(f), holds), other, declared) == known_type(
            s,
            other,
            declared,
        ),
        s.enter_branch(Some(f), holds).leave_branch(Some(f)) == s,
        s.enter_branch(None, holds) == s,
        s.leave_branch(None) == s,
{
    reveal(Ck::enter_branch);
    reveal(Ck::leave_branch);
    reveal(Ck::narrow);
    reveal(Ck::widen_back);
}

/// A name that stands for a local has the type that the local is known to have.
pub proof fn law_local_use(s: Ck, name: Symbol, span: Span)
    requires
        s.lookup(name) is Some,
    ensures
        s.check_ident(name, span).1 == known_type(s, s.lookup(name)->0.local, s.lookup(name)->0.ty),
        s.check_ident(name, span).0.errors == s.errors,
{
    reveal(Ck::check_ident);
    reveal(Ck::capture);
    reveal(Ck::record_res);
    reveal(Ck::name_node);
    reveal(Ck::add_node);
    reveal(Ck::put);
}

/// A name that stands for nothing is reported.
pub proof fn law_unknown_name(s: Ck, name: Symbol, span: Span)
    requires
        s.lookup(name) is None,
        s.p.value_named(s.cur_module, name) is None,
    ensures
        reported(s, s.check_ident(name, span).0, span),
        s.check_ident(name, span).1 == crate::ty::ERROR_TY,
{
    reveal(Ck::check_ident);
    lemma_fail(s, crate::diag::Problem::UnknownValue { name: s.name(name) }, span);
}

// -- assignment and casts -------------------------------------------------------------------

/// A kind whose values are just themselves: no union, no interface object, nothing that
/// stands for a failed check.
pub open spec fn is_simple(k: TyKind) -> bool {
    k is Int || k is Float || k is Bool || k is Char || k is Str || k is Null || k is Param || k is Tuple || k is Func
        || k is Array
}

/// Between simple types only the same type is assignable; to a union, exactly its
/// alternatives are.
pub proof fn law_assignable_simple(s: Ck, found: Ty, expected: Ty)
    requires
        is_simple(s.kind(found)),
        is_simple(s.kind(expected)) || s.kind(expected) is Union,
    ensures
        s.assignable(found, expected) == match s.kind(expected) {
            TyKind::Union(ms) => crate::ty::has_ty(ms, found),
            _ => found == expected,
        },
{
    reveal(Ck::assignable);
    reveal(Ck::implements_dyn);
    reveal(Ck::named_def);
    reveal(Ck::is_err);
    reveal(Ck::kind);
    reveal_with_fuel(crate::ty::all_in, 2);
    reveal_with_fuel(crate::ty::has_ty, 2);
    if s.kind(expected) is Union {
        assert(found != expected);
    }
}

/// A struct may stand for an interface only if it is recorded to implement it.
pub proof fn law_interface_object(s: Ck, found: Ty, expected: Ty)
    requires
        s.kind(found) is Named,
        s.kind(expected) is Named,
        found != expected,
    ensures
        s.assignable(found, expected) == (s.p.def_of(s.kind(expected)->Named_def).kind
            == crate::symbols::DefKind::Interface && crate::check::has_impl(
            s.iface_impls,
            s.kind(found)->Named_def,
            s.kind(expected)->Named_def,
        )),
{
    reveal(Ck::assignable);
    reveal(Ck::implements_dyn);
    reveal(Ck::named_def);
    reveal(Ck::is_err);
    reveal(Ck::kind);
    reveal_with_fuel(crate::ty::all_in, 2);
    reveal_with_fuel(crate::ty::has_ty, 2);
}

/// A cast between plain values converts numbers into numbers, integers into characters
/// and back, and numbers, characters and `bool` into `str`. There is no other: a `str` is
/// cast to no number, and nothing to `bool` or `null`.
pub proof fn law_cast_plain(s: Ck, from: Ty, to: Ty)
    requires
        is_simple(s.kind(from)),
        is_simple(s.kind(to)),
        from != to,
    ensures
        s.castable(from, to) == {
            ||| (s.kind(from) is Int || s.kind(from) is Float) && (s.kind(to) is Int || s.kind(to) is Float)
            ||| s.kind(from) is Int && s.kind(to) is Char
            ||| s.kind(from) is Char && s.kind(to) is Int
            ||| to == STR_TY && (s.kind(from) is Int || s.kind(from) is Float || s.kind(from) is Char || from
                == BOOL_TY)
        },
{
    reveal(Ck::castable);
    reveal(Ck::implements_dyn);
    reveal(Ck::named_def);
    reveal(Ck::is_err);
    reveal(Ck::is_numeric);
    reveal(Ck::is_integer);
    reveal(Ck::kind);
    reveal_with_fuel(crate::ty::all_in, 2);
    reveal_with_fuel(crate::ty::has_ty, 2);
}

/// A union is cast exactly to what is among its alternatives.
pub proof fn law_cast_from_union(s: Ck, from: Ty, to: Ty)
    requires
        s.kind(from) is Union,
        is_simple(s.kind(to)),
        from != BOOL_TY,
    ensures
        s.castable(from, to) == crate::ty::has_ty(s.kind(from)->Union_0, to),
{
    reveal(Ck::castable);
    reveal(Ck::implements_dyn);
    reveal(Ck::named_def);
    reveal(Ck::is_err);
    reveal(Ck::is_numeric);
    reveal(Ck::is_integer);
    reveal(Ck::is_ptr_int);
    reveal(Ck::kind);
    reveal_with_fuel(crate::ty::all_in, 2);
    reveal_with_fuel(crate::ty::has_ty, 2);
}

// -- operators --------------------------------------------------------------------------------

pub open spec fn is_number(k: TyKind) -> bool {
    k is Int || k is Float
}

/// Arithmetic takes two numbers of one type and gives that type; `+` also joins strings.
/// Anything else is reported: a left operand that is no number at the operator, a right
/// operand that does not fit the left one at the operand.
pub proof fn law_arithmetic(s: Ck, op: BinaryOp, l: Ty, r: Ty, right: Span, at: Span)
    requires
        op == BinaryOp::Add || op == BinaryOp::Sub || op == BinaryOp::Mul || op == BinaryOp::Div || op == BinaryOp::Rem,
    ensures
        ({
            let (t, ty) = s.builtin_operator(op, l, r, right, at);
            if is_number(s.kind(l)) || (op == BinaryOp::Add && l == STR_TY) {
                ty == l && reported_if(!s.assignable(r, l), s, t, right)
            } else {
                ty == crate::ty::ERROR_TY && reported(s, t, at)
            }
        }),
{
    reveal(Ck::builtin_operator);
    reveal(Ck::is_numeric);
    lemma_expect(s, r, l, right);
    lemma_op_error(s, crate::check::exprs::op_text(op), l, at);
}

/// Comparisons give `bool`. Any two values of one type can be compared for equality;
/// only numbers, characters and strings are ordered.
pub proof fn law_comparison(s: Ck, op: BinaryOp, l: Ty, r: Ty, right: Span, at: Span)
    requires
        op == BinaryOp::Eq || op == BinaryOp::Ne || op == BinaryOp::Lt || op == BinaryOp::Le || op == BinaryOp::Gt || op
            == BinaryOp::Ge,
    ensures
        ({
            let (t, ty) = s.builtin_operator(op, l, r, right, at);
            let ordered = is_number(s.kind(l)) || s.kind(l) is Char || s.kind(l) is Str;
            &&& ty == BOOL_TY
            &&& if op == BinaryOp::Eq || op == BinaryOp::Ne || ordered {
                reported_if(!s.assignable(r, l), s, t, right)
            } else {
                reported(s, t, at)
            }
        }),
{
    reveal(Ck::builtin_operator);
    reveal(Ck::is_ordered);
    lemma_expect(s, r, l, right);
    lemma_op_error(s, crate::check::exprs::op_text(op), l, at);
}

/// Operators on bits take two integers of one type and give that type.
pub proof fn law_bit_operator(s: Ck, op: BinaryOp, l: Ty, r: Ty, right: Span, at: Span)
    requires
        op == BinaryOp::BitAnd || op == BinaryOp::BitOr || op == BinaryOp::BitXor || op == BinaryOp::Shl || op
            == BinaryOp::Shr,
    ensures
        ({
            let (t, ty) = s.builtin_operator(op, l, r, right, at);
            if s.kind(l) is Int {
                ty == l && reported_if(!s.assignable(r, l), s, t, right)
            } else {
                ty == crate::ty::ERROR_TY && reported(s, t, at)
            }
        }),
{
    reveal(Ck::builtin_operator);
    reveal(Ck::is_integer);
    lemma_expect(s, r, l, right);
    lemma_op_error(s, crate::check::exprs::op_text(op), l, at);
}

// -- loops --------------------------------------------------------------------------------------

/// `break` outside a loop is reported, and so is a value that is carried out of anything
/// but a `loop`; otherwise the loop keeps the type of the value.
pub proof fn law_break(s: Ck, is_loop: bool, ty: Ty, written: bool, span: Span)
    ensures
        s.loops is Nil ==> reported(s, s.check_break(ty, written, span), span),
        reported_if(written && !is_loop, s, s.enter_loop(is_loop).check_break(ty, written, span), span),
        !(written && !is_loop) ==> s.enter_loop(is_loop).check_break(ty, written, span).leave_loop() == (
            s,
            List::one(ty),
        ),
        s.enter_loop(is_loop).leave_loop() == (s, List::<Ty>::Nil),
        !(s.enter_loop(is_loop).loops is Nil),
{
    reveal(Ck::check_break);
    reveal(Ck::enter_loop);
    reveal(Ck::leave_loop);
    reveal(Ck::say);
    reveal(Ck::fail);
    reveal_with_fuel(List::snoc, 2);
    let s0 = Ck { loops: List::Nil, ..s };
    lemma_fail(s0, crate::diag::Problem::LoopControlOutsideLoop { kw: "break"@ }, span);
    let inner = s.enter_loop(is_loop);
    lemma_say(inner, "only `loop` can `break` with a value"@, span);
    if written && !is_loop {
        let t = inner.check_break(ty, written, span);
        assert(t.errors == inner.say("only `loop` can `break` with a value"@, span).errors);
    }
}

/// A `for` loop goes over the characters of a string, the elements of a list and the
/// entries of a map.
pub proof fn law_loop_over(s: Ck, ity: Ty, span: Span)
    requires
        s.kinds.len() < u32::MAX,
        !(s.kind(ity) is Error),
    ensures
        ity == STR_TY ==> s.loop_over(ity, span).0 == s && s.loop_over(ity, span).1.0 == CHAR_TY,
        ity != STR_TY ==> match s.list_elem(ity) {
            Some(elem) => s.loop_over(ity, span).0 == s && s.loop_over(ity, span).1.0 == elem,
            None => match s.map_kv(ity) {
                Some((k, v)) => {
                    let (t, (entry, _)) = s.loop_over(ity, span);
                    t.errors == s.errors && crate::check::builtins::is_instance(t, entry, T_ENTRY, List::two(k, v))
                },
                None => true,
            },
        },
{
    reveal(Ck::loop_over);
    reveal(Ck::is_err);
    reveal(Ck::mk_named);
    reveal(Ck::mk);
    reveal(Ck::with_kinds);
    reveal(Ck::kind);
    match s.map_kv(ity) {
        Some((k, v)) => {
            crate::ty::law_interned_kind(
                s.kinds,
                TyKind::Named { def: s.p.well_known(T_ENTRY), args: List::two(k, v) },
            );
        },
        None => {},
    }
}

/// What is neither a string, a list, a map nor an iterator is reported.
pub proof fn law_not_iterable(s: Ck, ity: Ty, span: Span)
    requires
        !(s.kind(ity) is Error),
        ity != STR_TY,
        s.list_elem(ity) is None,
        s.map_kv(ity) is None,
        s.iterator_elem(ity).1 is None,
    ensures
        reported(s.iterator_elem(ity).0, s.loop_over(ity, span).0, span),
        s.loop_over(ity, span).1.1 is None,
{
    reveal(Ck::loop_over);
    reveal(Ck::is_err);
    let t = s.iterator_elem(ity).0;
    lemma_say(
        t,
        "`"@ + t.show(ity) + "` is not iterable: it is not a `List` and has no `next(self): Item<T> | Done` method"@,
        span,
    );
}

// -- values that go elsewhere --------------------------------------------------------------------

/// A hole of a string literal takes what renders by itself; anything else needs a
/// `to_str` method and is reported without one.
pub proof fn law_interpolation(s: Ck, ty: Ty, span: Span)
    requires
        !(s.kind(ty) is Error),
    ensures
        if crate::check::bounds::is_plain_value(s.kind(ty)) {
            s.hole_of(ty, span).0 == s && s.hole_of(ty, span).1.method is None
        } else {
            reported_if(s.tostr_method(ty).1 is None, s.tostr_method(ty).0, s.hole_of(ty, span).0, span)
                && s.hole_of(ty, span).1.method is Some == s.tostr_method(ty).1 is Some
        },
{
    reveal(Ck::hole_of);
    reveal(Ck::is_err);
    reveal(Ck::is_stringifiable);
    let t = s.tostr_method(ty).0;
    lemma_say(
        t,
        "cannot interpolate `"@ + t.show(ty)
            + "`: it has no `to_str(): str` method (add one or `@Derive(ToStr)`)"@,
        span,
    );
}

/// A map key is a number, `bool`, `char` or `str`, or implements both `Hash` and `Eq`;
/// any other is reported.
pub proof fn law_map_key(s: Ck, kt: Ty, span: Span)
    requires
        !(s.is_valid_map_key(kt).0.kind(kt) is Error),
        s.p.well_known(T_HASH) != DefId(0),
        s.p.well_known(T_EQ) != DefId(0),
    ensures
        ({
            let plain = is_number(s.kind(kt)) || s.kind(kt) is Bool || s.kind(kt) is Char || s.kind(kt) is Str;
            let (t, hashes) = s.type_implements(kt, s.p.well_known(T_HASH));
            let (u, compares) = t.type_implements(kt, s.p.well_known(T_EQ));
            let end = if plain {
                s
            } else if hashes {
                u
            } else {
                t
            };
            reported_if(!plain && !(hashes && compares), end, s.require_map_key(kt, span), span)
        }),
{
    reveal(Ck::require_map_key);
    reveal(Ck::is_valid_map_key);
    reveal(Ck::is_hashable);
    reveal(Ck::is_err);
    let t = s.is_valid_map_key(kt).0;
    lemma_say(t, "`"@ + t.show(kt) + "` cannot be used as a map key (expected `str` or an integer type)"@, span);
}

/// A plain value or a synchronized handle: what may be shared between threads.
pub open spec fn is_shared_safely(s: Ck, t: Ty) -> bool {
    ||| crate::check::bounds::is_plain_value(s.kind(t))
    ||| s.kind(t) is Named && (s.kind(t)->Named_def == s.p.well_known(T_SENDER) || s.kind(t)->Named_def
        == s.p.well_known(T_RECEIVER) || s.kind(t)->Named_def == s.p.well_known(T_SHARED))
}

/// What spawned code captures must be safe to share, or, for a task, implement `Clone`;
/// each captured type that is neither is reported once.
pub proof fn law_captured_values(s: Ck, h: Ty, rest: List<Ty>, task: bool, span: Span)
    ensures
        ({
            let all = List::Cons(Box::new(h), Box::new(rest));
            let (t, clones) = if task && !is_shared_safely(s, h) {
                s.satisfies(h, s.p.well_known(T_CLONE))
            } else {
                (s, false)
            };
            exists|u: Ck|
                {
                    &&& #[trigger] u.require_sendable(rest, task, span) == s.require_sendable(all, task, span)
                    &&& reported_if(!is_shared_safely(s, h) && !clones, t, u, span)
                }
        }),
        s.require_sendable(List::Nil, task, span) == s,
{
    reveal(Ck::require_sendable);
    reveal(Ck::is_shareable);
    reveal(Ck::is_immutable);
    reveal(Ck::is_stringifiable);
    reveal(Ck::named_def);
    let all = List::Cons(Box::new(h), Box::new(rest));
    let shared = s.is_shareable(h);
    assert(shared == is_shared_safely(s, h));
    let (t, ok) = if task && !shared {
        s.satisfies(h, s.p.well_known(T_CLONE))
    } else {
        (s, shared)
    };
    let n = t.show(h);
    let a = "`Task.spawn` can only capture immutable values, channel endpoints or `Clone` values that can be snapshotted; captured value of type `"@
        + n + "` is neither"@;
    let b = "`Thread.spawn` can only capture immutable values or channel endpoints so far; captured value of type `"@ + n
        + "` would need a deep clone across the thread boundary (`docs/20` §1)"@;
    lemma_say(t, a, span);
    lemma_say(t, b, span);
    let u = if ok {
        t
    } else if task {
        t.say(a, span)
    } else {
        t.say(b, span)
    };
    assert(u.require_sendable(rest, task, span) == s.require_sendable(all, task, span));
}

/// A list can be cloned if its elements are plain values or implement `Clone`; otherwise
/// the clone is reported and has no type.
pub proof fn law_clone_list(s: Ck, rty: Ty, elem: Ty, span: Span)
    requires
        s.p.well_known(T_CLONE) != DefId(0),
    ensures
        ({
            let plain = crate::check::bounds::is_plain_value(s.kind(elem));
            let (t, clones) = s.type_implements(elem, s.p.well_known(T_CLONE));
            let (r, ty) = s.clone_list(rty, elem, span);
            &&& ty == Some(
                if plain || clones {
                    rty
                } else {
                    crate::ty::ERROR_TY
                },
            )
            &&& reported_if(
                !plain && !clones,
                if plain {
                    s
                } else {
                    t
                },
                r,
                span,
            )
        }),
{
    reveal(Ck::clone_list);
    reveal(Ck::is_immutable);
    reveal(Ck::is_stringifiable);
    let t = s.type_implements(elem, s.p.well_known(T_CLONE)).0;
    lemma_say(
        t,
        "cannot `clone` a `List` of `"@ + t.show(elem) + "` — its element type does not implement `Clone`"@,
        span,
    );
}

// -- structs and tuples ----------------------------------------------------------------------------

/// The declared fields that are not among `seen`.
pub open spec fn unset(declared: Seq<FieldTy>, seen: List<Symbol>) -> Seq<FieldTy> {
    declared.filter(|f: FieldTy| !has_symbol(seen, f.name))
}

proof fn lemma_filter_cons(h: FieldTy, t: Seq<FieldTy>, seen: List<Symbol>)
    ensures
        unset(seq![h] + t, seen) == if has_symbol(seen, h.name) {
            unset(t, seen)
        } else {
            seq![h] + unset(t, seen)
        },
    decreases t.len(),
{
    let p = |f: FieldTy| !has_symbol(seen, f.name);
    let l = seq![h] + t;
    reveal(Seq::filter);
    if t.len() == 0 {
        assert(l =~= seq![h]);
        assert(l.drop_last() =~= Seq::<FieldTy>::empty());
        assert(l.drop_last().filter(p) =~= Seq::<FieldTy>::empty());
        assert(t.filter(p) =~= Seq::<FieldTy>::empty());
        assert(l.last() == h);
        assert(unset(l, seen) =~= if has_symbol(seen, h.name) {
            unset(t, seen)
        } else {
            seq![h] + unset(t, seen)
        });
    } else {
        lemma_filter_cons(h, t.drop_last(), seen);
        assert(l.drop_last() =~= seq![h] + t.drop_last());
        assert(l.last() == t.last());
        assert(unset(l, seen) =~= if has_symbol(seen, h.name) {
            unset(t, seen)
        } else {
            seq![h] + unset(t, seen)
        });
    }
}

/// Each declared field that a struct literal leaves out is reported once.
pub proof fn law_missing_fields(s: Ck, declared: List<FieldTy>, seen: List<Symbol>, owner: Symbol, span: Span)
    ensures
        s.report_missing(declared, seen, owner, span).errors.len() == s.errors.len() + unset(
            declared.view(),
            seen,
        ).len(),
    decreases declared,
{
    reveal(Ck::report_missing);
    reveal(Ck::fail);
    match declared {
        List::Nil => {
            reveal(Seq::filter);
        },
        List::Cons(h, t) => {
            lemma_filter_cons(*h, t.view(), seen);
            let s1 = if has_symbol(seen, h.name) {
                s
            } else {
                s.fail(
                    crate::diag::Problem::MissingField { struct_name: s.name(owner), name: s.name(h.name) },
                    span,
                )
            };
            law_missing_fields(s1, *t, seen, owner, span);
        },
    }
}

/// A struct literal without a spread is complete only if every declared field is set.
pub proof fn law_complete_literal(
    s: Ck,
    def: DefId,
    declared: List<FieldTy>,
    seen: List<Symbol>,
    owner: Symbol,
    span: Span,
)
    requires
        s.p.def_of(def).kind == crate::symbols::DefKind::Struct,
    ensures
        s.check_complete(def, declared, seen, owner, span).errors.len() == s.errors.len() + unset(
            declared.view(),
            seen,
        ).len(),
{
    reveal(Ck::check_complete);
    reveal(Ck::is_union_struct);
    law_missing_fields(s, declared, seen, owner, span);
}

/// Position `i` of a tuple has the type of its `i`-th element; a position behind the last
/// is reported.
pub proof fn law_tuple_index(s: Ck, rty: Ty, elems: List<Ty>, index: u32, span: Span)
    requires
        s.kind(rty) == TyKind::Tuple(elems),
    ensures
        if index < elems.view().len() {
            s.index_of_type(rty, index, span) == (s, elems.view()[index as int])
        } else {
            reported(s, s.index_of_type(rty, index, span).0, span) && s.index_of_type(rty, index, span).1
                == crate::ty::ERROR_TY
        },
{
    reveal(Ck::index_of_type);
    reveal(Ck::bad_index);
    lemma_nth(elems, index as usize);
    let n = crate::text::decimal(index as nat);
    lemma_say(s, "tuple index "@ + n + " out of range for `"@ + s.show(rty) + "`"@, span);
}

proof fn lemma_nth<T>(l: List<T>, i: usize)
    ensures
        crate::list::nth(l, i) == if i < l.view().len() {
            Some(l.view()[i as int])
        } else {
            None
        },
    decreases l,
{
    match l {
        List::Nil => {},
        List::Cons(h, t) => {
            let v = seq![*h] + t.view();
            assert(l.view() == v);
            if i > 0 {
                lemma_nth(*t, (i - 1) as usize);
                assert(i < v.len() ==> v[i as int] == t.view()[i - 1]);
            }
        },
    }
}

/// `receiver[index]` takes a position of a list or array and a key of a map, and gives
/// what is stored there; nothing else can be indexed.
pub proof fn law_index(s: Ck, rty: Ty)
    ensures
        s.list_elem(rty) is Some ==> s.index_types(rty) == Some((I64_TY, s.list_elem(rty)->0)),
        s.list_elem(rty) is None && s.map_kv(rty) is Some ==> s.index_types(rty) == s.map_kv(rty),
        s.list_elem(rty) is None && s.map_kv(rty) is None ==> s.index_types(rty) == match s.kind(rty) {
            TyKind::Array { elem, .. } => Some((I64_TY, elem)),
            _ => None,
        },
{
    reveal(Ck::index_types);
}

// -- inference -------------------------------------------------------------------------------------

/// A type argument that nothing decides is reported, and only such a one.
pub proof fn law_undecided_argument(s: Ck, g: DefId, m: List<Solved>, owner: Symbol, span: Span)
    ensures
        ({
            let (t, args) = s.inferred_args(List::one(g), m, owner, span);
            &&& reported_if(crate::solve::solution(m, g) is None, s, t, span)
            &&& args == List::one(crate::check::bounds::argument_of(m, g))
        }),
{
    reveal(Ck::inferred_args);
    reveal_with_fuel(Ck::inferred_args, 3);
    reveal(Ck::report_unsolved);
    let gn = s.name(s.p.def_of(g).name);
    lemma_say(s, "cannot infer generic argument `"@ + gn + "` for `"@ + s.name(owner) + "`; annotate it"@, span);
}

} // verus!
