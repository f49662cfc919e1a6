//! What the derived comparisons say.
//!
//! The methods that `@Derive(Eq)` and `@Derive(Ord)` add are source text. Here
//! they are read: a struct value gives each of its fields a value, `==` on
//! fields is equality, `<` on fields is a given order, and a call
//! `self.name(other)` runs the derived method of that name. Over a total order of
//! the fields' values the derived order is total too, and the six comparisons
//! agree with each other.
use vstd::prelude::*;
use crate::ast::{BinaryOp, Expr, ExprKind, FunctionItem, StructItem, UnaryOp};
use crate::derive::FieldKey;
use crate::list::List;
use crate::names::Symbol;
use crate::session::Sess;
use crate::words::{EQ, GE, GT, LE, LT, OTHER, T_EQ, T_ORD};

verus! {

/// The method called `name` among `l`, the first of them if there are more.
pub open spec fn method(l: List<FunctionItem>, name: Symbol) -> Option<FunctionItem>
    decreases l,
{
    match l {
        List::Nil => None,
        List::Cons(h, t) => if h.name.name == name {
            Some(*h)
        } else {
            method(*t, name)
        },
    }
}

/// The expression that a method consists of.
pub open spec fn body_of(l: List<FunctionItem>, name: Symbol) -> Option<Expr> {
    match method(l, name) {
        Some(f) => match f.body {
            Some(b) => match b.trailing {
                Some(x) => Some(*x),
                None => None,
            },
            None => None,
        },
        None => None,
    }
}

/// Two struct values, one the receiver `self`, one the argument `other`.
pub struct Pair<V> {
    pub this: spec_fn(FieldKey) -> V,
    pub other: spec_fn(FieldKey) -> V,
}

/// The value of field `k` of `receiver`.
pub open spec fn field_value<V>(receiver: Expr, k: FieldKey, p: Pair<V>) -> Option<V> {
    match receiver.kind {
        ExprKind::SelfExpr => Some((p.this)(k)),
        ExprKind::Ident(id) => if id.name == OTHER {
            Some((p.other)(k))
        } else {
            None
        },
        _ => None,
    }
}

/// The value of `self.f` or `other.f`.
pub open spec fn value_of<V>(e: Expr, p: Pair<V>) -> Option<V> {
    match e.kind {
        ExprKind::Field { receiver, name } => field_value(*receiver, FieldKey::Named(name.name), p),
        ExprKind::TupleIndex { receiver, index, .. } => field_value(*receiver, FieldKey::Index(index), p),
        _ => None,
    }
}

/// Whether the call `callee(args)` reads `self.name(other)`, and what `name` is.
pub open spec fn called_on_other(callee: Expr, args: List<Expr>) -> Option<Symbol> {
    match (callee.kind, args) {
        (ExprKind::Field { receiver, name }, List::Cons(x, rest)) => match (receiver.kind, x.kind) {
            (ExprKind::SelfExpr, ExprKind::Ident(id)) => if id.name == OTHER && *rest is Nil {
                Some(name.name)
            } else {
                None
            },
            _ => None,
        },
        _ => None,
    }
}

/// What `e` evaluates to on the two values of `p`, with `fs` for the methods, `less`
/// for the order of field values and calls nested up to `depth`; nothing, if `e` is
/// not made of comparisons.
pub open spec fn truth<V>(
    fs: List<FunctionItem>,
    less: spec_fn(V, V) -> bool,
    depth: nat,
    e: Expr,
    p: Pair<V>,
) -> Option<bool>
    decreases depth, e,
{
    match e.kind {
        ExprKind::Bool(b) => Some(b),
        ExprKind::Unary { op, operand, .. } => match (op, truth(fs, less, depth, *operand, p)) {
            (UnaryOp::Not, Some(b)) => Some(!b),
            _ => None,
        },
        ExprKind::Binary { op, left, right, .. } => match op {
            BinaryOp::And => match truth(fs, less, depth, *left, p) {
                Some(true) => truth(fs, less, depth, *right, p),
                other => other,
            },
            BinaryOp::Or => match truth(fs, less, depth, *left, p) {
                Some(false) => truth(fs, less, depth, *right, p),
                other => other,
            },
            BinaryOp::Eq => match (value_of(*left, p), value_of(*right, p)) {
                (Some(a), Some(b)) => Some(a == b),
                _ => None,
            },
            BinaryOp::Lt => match (value_of(*left, p), value_of(*right, p)) {
                (Some(a), Some(b)) => Some(less(a, b)),
                _ => None,
            },
            _ => None,
        },
        ExprKind::Call { callee, args, .. } => match called_on_other(*callee, args) {
            Some(name) => match body_of(fs, name) {
                Some(x) => if depth > 0 {
                    truth(fs, less, (depth - 1) as nat, x, p)
                } else {
                    None
                },
                None => None,
            },
            None => None,
        },
        _ => None,
    }
}

/// What `a.name(b)` gives with the methods `fs`, calls nested up to `depth`.
pub open spec fn answer<V>(
    fs: List<FunctionItem>,
    less: spec_fn(V, V) -> bool,
    depth: nat,
    name: Symbol,
    a: spec_fn(FieldKey) -> V,
    b: spec_fn(FieldKey) -> V,
) -> Option<bool> {
    match body_of(fs, name) {
        Some(x) => truth(fs, less, depth, x, Pair { this: a, other: b }),
        None => None,
    }
}

/// `a` and `b` have equal values in all fields `l`.
pub open spec fn agree_on<V>(l: List<FieldKey>, a: spec_fn(FieldKey) -> V, b: spec_fn(FieldKey) -> V) -> bool
    decreases l,
{
    match l {
        List::Nil => true,
        List::Cons(h, t) => a(*h) == b(*h) && agree_on(*t, a, b),
    }
}

/// `a` comes before `b` by the first of the fields `l` in which they differ.
pub open spec fn precedes<V>(
    l: List<FieldKey>,
    less: spec_fn(V, V) -> bool,
    a: spec_fn(FieldKey) -> V,
    b: spec_fn(FieldKey) -> V,
) -> bool
    decreases l,
{
    match l {
        List::Nil => false,
        List::Cons(h, t) => less(a(*h), b(*h)) || (a(*h) == b(*h) && precedes(*t, less, a, b)),
    }
}

/// `less` orders any two values one way.
pub open spec fn total<V>(less: spec_fn(V, V) -> bool) -> bool {
    &&& forall|x: V, y: V| #[trigger] less(x, y) ==> x != y && !less(y, x)
    &&& forall|x: V, y: V| x == y || #[trigger] less(x, y) || less(y, x)
    &&& forall|x: V, y: V, z: V| #[trigger] less(x, y) && #[trigger] less(y, z) ==> less(x, z)
}

// -- what the bodies mean ---------------------------------------------------------------

proof fn lemma_field_eq<V>(
    s: Sess,
    k: FieldKey,
    fs: List<FunctionItem>,
    less: spec_fn(V, V) -> bool,
    depth: nat,
    p: Pair<V>,
)
    ensures
        truth(fs, less, depth, crate::derive::a_field_cmp(s, BinaryOp::Eq, k).1, p) == Some(
            (p.this)(k) == (p.other)(k),
        ),
        truth(fs, less, depth, crate::derive::a_field_cmp(s, BinaryOp::Lt, k).1, p) == Some(
            less((p.this)(k), (p.other)(k)),
        ),
{
    let (s1, a) = crate::derive::a_self_field(s, k);
    let (s2, b) = crate::derive::an_other_field(s1, k);
    assert(value_of(a, p) == Some((p.this)(k)));
    assert(value_of(b, p) == Some((p.other)(k)));
}

/// A chain of field equalities after `acc`.
proof fn lemma_chain<V>(
    s: Sess,
    s0: Sess,
    acc: Expr,
    keys: List<FieldKey>,
    fs: List<FunctionItem>,
    less: spec_fn(V, V) -> bool,
    depth: nat,
    p: Pair<V>,
    known: bool,
)
    requires
        truth(fs, less, depth, acc, p) == Some(known),
    ensures
        truth(
            fs,
            less,
            depth,
            crate::derive::chained(
                s,
                BinaryOp::And,
                acc,
                crate::derive::all_field_cmps(s0, BinaryOp::Eq, keys).1,
            ).1,
            p,
        ) == Some(known && agree_on(keys, p.this, p.other)),
    decreases keys,
{
    match keys {
        List::Nil => {},
        List::Cons(h, t) => {
            lemma_field_eq(s0, *h, fs, less, depth, p);
            let (s1, x) = crate::derive::a_field_cmp(s0, BinaryOp::Eq, *h);
            let (s2, y) = crate::derive::a_binary(s, BinaryOp::And, acc, x);
            lemma_chain(s2, s1, y, *t, fs, less, depth, p, known && (p.this)(*h) == (p.other)(*h));
        },
    }
}

/// The body of `eq` says that all fields are equal.
proof fn lemma_conjunction<V>(
    s: Sess,
    s0: Sess,
    keys: List<FieldKey>,
    fs: List<FunctionItem>,
    less: spec_fn(V, V) -> bool,
    depth: nat,
    p: Pair<V>,
)
    ensures
        truth(
            fs,
            less,
            depth,
            crate::derive::conjoined(s, crate::derive::all_field_cmps(s0, BinaryOp::Eq, keys).1).1,
            p,
        ) == Some(agree_on(keys, p.this, p.other)),
{
    match keys {
        List::Nil => {},
        List::Cons(h, t) => {
            lemma_field_eq(s0, *h, fs, less, depth, p);
            let (s1, x) = crate::derive::a_field_cmp(s0, BinaryOp::Eq, *h);
            lemma_chain(s, s1, x, *t, fs, less, depth, p, (p.this)(*h) == (p.other)(*h));
        },
    }
}

/// The body of `lt` is the lexicographic order.
proof fn lemma_lexicographic<V>(
    s: Sess,
    keys: List<FieldKey>,
    fs: List<FunctionItem>,
    less: spec_fn(V, V) -> bool,
    depth: nat,
    p: Pair<V>,
)
    ensures
        truth(fs, less, depth, crate::derive::lex_less(s, keys).1, p) == Some(
            precedes(keys, less, p.this, p.other),
        ),
    decreases keys,
{
    match keys {
        List::Nil => {},
        List::Cons(h, t) => {
            let (s1, lt) = crate::derive::a_field_cmp(s, BinaryOp::Lt, *h);
            lemma_field_eq(s, *h, fs, less, depth, p);
            if *t is Nil {
                assert(!precedes(*t, less, p.this, p.other));
            } else {
                let (s2, eq) = crate::derive::a_field_cmp(s1, BinaryOp::Eq, *h);
                lemma_field_eq(s1, *h, fs, less, depth, p);
                let (s3, rest) = crate::derive::lex_less(s2, *t);
                lemma_lexicographic(s2, *t, fs, less, depth, p);
                let (s4, both) = crate::derive::a_binary(s3, BinaryOp::And, eq, rest);
                assert(truth(fs, less, depth, both, p) == Some(
                    (p.this)(*h) == (p.other)(*h) && precedes(*t, less, p.this, p.other),
                ));
                let (s5, all) = crate::derive::a_binary(s4, BinaryOp::Or, lt, both);
                assert(crate::derive::lex_less(s, keys).1 == all);
            }
        },
    }
}

/// `self.name(other)` runs the method.
proof fn lemma_self_call<V>(
    s: Sess,
    name: Symbol,
    fs: List<FunctionItem>,
    less: spec_fn(V, V) -> bool,
    depth: nat,
    p: Pair<V>,
)
    requires
        depth > 0,
    ensures
        truth(fs, less, depth, crate::derive::a_self_call(s, name).1, p) == answer(
            fs,
            less,
            (depth - 1) as nat,
            name,
            p.this,
            p.other,
        ),
{
    let (s1, recv) = crate::derive::an_expr(s, ExprKind::SelfExpr);
    let (s2, arg) = crate::derive::an_ident_expr(s1, OTHER);
    let (s3, callee) = crate::derive::a_field_access(s2, recv, name);
    assert(called_on_other(callee, List::one(arg)) == Some(name));
    assert(p == Pair { this: p.this, other: p.other });
}

// -- where the methods stand --------------------------------------------------------------

proof fn lemma_method_append(a: List<FunctionItem>, b: List<FunctionItem>, name: Symbol)
    ensures
        method(a.then_list(b), name) == (match method(a, name) {
            Some(f) => Some(f),
            None => method(b, name),
        }),
    decreases a,
{
    match a {
        List::Nil => {},
        List::Cons(_, t) => lemma_method_append(*t, b, name),
    }
}

proof fn lemma_one(f: FunctionItem, name: Symbol)
    ensures
        method(List::one(f), name) == (if f.name.name == name {
            Some(f)
        } else {
            None
        }),
{
    reveal_with_fuel(method, 3);
}

proof fn lemma_four(a: FunctionItem, b: FunctionItem, c: FunctionItem, d: FunctionItem, name: Symbol)
    ensures
        method(List::two(a, b).then_list(List::two(c, d)), name) == (if a.name.name == name {
            Some(a)
        } else if b.name.name == name {
            Some(b)
        } else if c.name.name == name {
            Some(c)
        } else if d.name.name == name {
            Some(d)
        } else {
            None
        }),
{
    lemma_method_append(List::two(a, b), List::two(c, d), name);
    reveal_with_fuel(method, 4);
}

/// `eq` among the derived methods.
proof fn lemma_eq_method(s: Sess, st: StructItem, l: List<Symbol>)
    requires
        crate::derive::derives(l, T_EQ) || crate::derive::derives(l, T_ORD),
    ensures
        method(crate::derive::derived_functions(s, st, l).1, EQ) == Some(crate::derive::derived_eq(s, st).1),
{
    let (s1, eq) = crate::derive::eq_part(s, st, l);
    let (s2, ord) = crate::derive::ord_part(s1, st, l);
    let (s3, to_str) = crate::derive::to_str_part(s2, st, l);
    let (s4, cl) = crate::derive::clone_part(s3, st, l);
    lemma_method_append(eq.then_list(ord).then_list(to_str), cl, EQ);
    lemma_method_append(eq.then_list(ord), to_str, EQ);
    lemma_method_append(eq, ord, EQ);
    reveal(crate::derive::eq_part);
    lemma_one(crate::derive::derived_eq(s, st).1, EQ);
}

/// An ordering among the derived methods.
proof fn lemma_ord_method(s: Sess, st: StructItem, l: List<Symbol>, name: Symbol)
    requires
        crate::derive::derives(l, T_ORD),
        name == LT || name == LE || name == GT || name == GE,
    ensures
        ({
            let s1 = crate::derive::eq_part(s, st, l).0;
            let (a, lt) = crate::derive::derived_lt(s1, st);
            let (b, le) = crate::derive::derived_le(a, st.name.name);
            let (c, gt) = crate::derive::derived_gt(b, st.name.name);
            let (d, ge) = crate::derive::derived_ge(c, st.name.name);
            method(crate::derive::derived_functions(s, st, l).1, name) == Some(
                if name == LT {
                    lt
                } else if name == LE {
                    le
                } else if name == GT {
                    gt
                } else {
                    ge
                },
            )
        }),
{
    let (s1, eq) = crate::derive::eq_part(s, st, l);
    let (s2, ord) = crate::derive::ord_part(s1, st, l);
    let (s3, to_str) = crate::derive::to_str_part(s2, st, l);
    let (s4, cl) = crate::derive::clone_part(s3, st, l);
    lemma_method_append(eq.then_list(ord).then_list(to_str), cl, name);
    lemma_method_append(eq.then_list(ord), to_str, name);
    lemma_method_append(eq, ord, name);
    reveal(crate::derive::eq_part);
    lemma_one(crate::derive::derived_eq(s, st).1, name);
    reveal(crate::derive::ord_part);
    let (a, lt) = crate::derive::derived_lt(s1, st);
    let (b, le) = crate::derive::derived_le(a, st.name.name);
    let (c, gt) = crate::derive::derived_gt(b, st.name.name);
    let (d, ge) = crate::derive::derived_ge(c, st.name.name);
    lemma_four(lt, le, gt, ge, name);
}

// -- laws -----------------------------------------------------------------------------------

/// The derived `eq` holds of two values if and only if all their fields are equal; of
/// a struct without fields it always holds.
pub proof fn law_derived_eq<V>(
    s: Sess,
    st: StructItem,
    l: List<Symbol>,
    less: spec_fn(V, V) -> bool,
    depth: nat,
    a: spec_fn(FieldKey) -> V,
    b: spec_fn(FieldKey) -> V,
)
    requires
        crate::derive::derives(l, T_EQ) || crate::derive::derives(l, T_ORD),
    ensures
        answer(crate::derive::derived_functions(s, st, l).1, less, depth, EQ, a, b) == Some(
            agree_on(crate::derive::keys_of(st.kind), a, b),
        ),
        st.kind is Unit ==> answer(
            crate::derive::derived_functions(s, st, l).1,
            less,
            depth,
            EQ,
            a,
            b,
        ) == Some(true),
{
    let fs = crate::derive::derived_functions(s, st, l).1;
    let keys = crate::derive::keys_of(st.kind);
    lemma_eq_method(s, st, l);
    let (s1, parts) = crate::derive::all_field_cmps(s, BinaryOp::Eq, keys);
    lemma_conjunction(s1, s, keys, fs, less, depth, Pair { this: a, other: b });
}

/// The derived `lt` orders two values by the first field in which they differ, and the
/// other comparisons follow from `lt` and `eq`: `le` is `lt` or `eq`, `gt` is neither,
/// `ge` is not `lt`.
pub proof fn law_derived_comparisons<V>(
    s: Sess,
    st: StructItem,
    l: List<Symbol>,
    less: spec_fn(V, V) -> bool,
    depth: nat,
    a: spec_fn(FieldKey) -> V,
    b: spec_fn(FieldKey) -> V,
)
    requires
        crate::derive::derives(l, T_ORD),
        depth >= 2,
    ensures
        ({
            let fs = crate::derive::derived_functions(s, st, l).1;
            let keys = crate::derive::keys_of(st.kind);
            let lt = precedes(keys, less, a, b);
            let eq = agree_on(keys, a, b);
            &&& answer(fs, less, depth, LT, a, b) == Some(lt)
            &&& answer(fs, less, depth, LE, a, b) == Some(lt || eq)
            &&& answer(fs, less, depth, GT, a, b) == Some(!(lt || eq))
            &&& answer(fs, less, depth, GE, a, b) == Some(!lt)
        }),
{
    let fs = crate::derive::derived_functions(s, st, l).1;
    let keys = crate::derive::keys_of(st.kind);
    let p = Pair { this: a, other: b };
    let d1 = (depth - 1) as nat;
    let d2 = (depth - 2) as nat;
    let s1 = crate::derive::eq_part(s, st, l).0;
    let (sa, lt) = crate::derive::derived_lt(s1, st);
    let (sb, le) = crate::derive::derived_le(sa, st.name.name);
    let (sc, gt) = crate::derive::derived_gt(sb, st.name.name);
    lemma_ord_method(s, st, l, LT);
    lemma_ord_method(s, st, l, LE);
    lemma_ord_method(s, st, l, GT);
    lemma_ord_method(s, st, l, GE);
    lemma_lexicographic(s1, keys, fs, less, depth, p);
    lemma_lexicographic(s1, keys, fs, less, d1, p);
    lemma_lexicographic(s1, keys, fs, less, d2, p);
    law_derived_eq(s, st, l, less, d1, a, b);
    law_derived_eq(s, st, l, less, d2, a, b);
    let x = precedes(keys, less, a, b);
    let y = agree_on(keys, a, b);
    assert(answer(fs, less, depth, LT, a, b) == Some(x));
    assert(answer(fs, less, d1, LT, a, b) == Some(x));
    assert(answer(fs, less, d2, LT, a, b) == Some(x));
    lemma_less_or_equal(sa, st, fs, less, depth, p, x, y);
    lemma_less_or_equal(sa, st, fs, less, d1, p, x, y);
    assert(answer(fs, less, depth, LE, a, b) == Some(x || y));
    assert(answer(fs, less, d1, LE, a, b) == Some(x || y));
    lemma_self_call(sb, LE, fs, less, depth, p);
    lemma_self_call(sc, LT, fs, less, depth, p);
}

/// The body of `le`.
proof fn lemma_less_or_equal<V>(
    s: Sess,
    st: StructItem,
    fs: List<FunctionItem>,
    less: spec_fn(V, V) -> bool,
    depth: nat,
    p: Pair<V>,
    lt: bool,
    eq: bool,
)
    requires
        depth > 0,
        method(fs, LE) == Some(crate::derive::derived_le(s, st.name.name).1),
        answer(fs, less, (depth - 1) as nat, LT, p.this, p.other) == Some(lt),
        answer(fs, less, (depth - 1) as nat, EQ, p.this, p.other) == Some(eq),
    ensures
        answer(fs, less, depth, LE, p.this, p.other) == Some(lt || eq),
{
    let (s1, a) = crate::derive::a_self_call(s, LT);
    let (s2, b) = crate::derive::a_self_call(s1, EQ);
    lemma_self_call(s, LT, fs, less, depth, p);
    lemma_self_call(s1, EQ, fs, less, depth, p);
    assert(p == Pair { this: p.this, other: p.other });
}

proof fn lemma_one_of_three<V>(
    keys: List<FieldKey>,
    less: spec_fn(V, V) -> bool,
    a: spec_fn(FieldKey) -> V,
    b: spec_fn(FieldKey) -> V,
)
    requires
        total(less),
    ensures
        agree_on(keys, a, b) == agree_on(keys, b, a),
        precedes(keys, less, a, b) ==> !agree_on(keys, a, b) && !precedes(keys, less, b, a),
        precedes(keys, less, a, b) || agree_on(keys, a, b) || precedes(keys, less, b, a),
    decreases keys,
{
    match keys {
        List::Nil => {},
        List::Cons(h, t) => {
            lemma_one_of_three(*t, less, a, b);
            let x = a(*h);
            let y = b(*h);
            assert(x == y || less(x, y) || less(y, x));
            assert(less(x, y) ==> x != y && !less(y, x));
            assert(less(y, x) ==> x != y && !less(x, y));
        },
    }
}

proof fn lemma_precedes_chains<V>(
    keys: List<FieldKey>,
    less: spec_fn(V, V) -> bool,
    a: spec_fn(FieldKey) -> V,
    b: spec_fn(FieldKey) -> V,
    c: spec_fn(FieldKey) -> V,
)
    requires
        total(less),
        precedes(keys, less, a, b),
        precedes(keys, less, b, c),
    ensures
        precedes(keys, less, a, c),
    decreases keys,
{
    match keys {
        List::Nil => {},
        List::Cons(h, t) => {
            if !less(a(*h), b(*h)) && !less(b(*h), c(*h)) {
                lemma_precedes_chains(*t, less, a, b, c);
            }
        },
    }
}

/// Over a total order of field values the derived order is total: of `a.lt(b)`,
/// `a.eq(b)` and `b.lt(a)` exactly one holds. `a.le(b)` is then the opposite of
/// `b.lt(a)`, `a.gt(b)` is `b.lt(a)` and `a.ge(b)` is `b.le(a)`.
pub proof fn law_derived_order_total<V>(
    s: Sess,
    st: StructItem,
    l: List<Symbol>,
    less: spec_fn(V, V) -> bool,
    depth: nat,
    a: spec_fn(FieldKey) -> V,
    b: spec_fn(FieldKey) -> V,
)
    requires
        crate::derive::derives(l, T_ORD),
        depth >= 2,
        total(less),
    ensures
        ({
            let fs = crate::derive::derived_functions(s, st, l).1;
            let lt = answer(fs, less, depth, LT, a, b) == Some(true);
            let eq = answer(fs, less, depth, EQ, a, b) == Some(true);
            let gt = answer(fs, less, depth, LT, b, a) == Some(true);
            &&& lt || eq || gt
            &&& !(lt && eq)
            &&& !(lt && gt)
            &&& !(eq && gt)
            &&& answer(fs, less, depth, LE, a, b) == Some(!gt)
            &&& answer(fs, less, depth, GT, a, b) == answer(fs, less, depth, LT, b, a)
            &&& answer(fs, less, depth, GE, a, b) == answer(fs, less, depth, LE, b, a)
        }),
{
    let keys = crate::derive::keys_of(st.kind);
    law_derived_comparisons(s, st, l, less, depth, a, b);
    law_derived_comparisons(s, st, l, less, depth, b, a);
    law_derived_eq(s, st, l, less, depth, a, b);
    lemma_one_of_three(keys, less, a, b);
    lemma_one_of_three(keys, less, b, a);
}

/// Over a total order of field values the derived order is transitive.
pub proof fn law_derived_order_transitive<V>(
    s: Sess,
    st: StructItem,
    l: List<Symbol>,
    less: spec_fn(V, V) -> bool,
    depth: nat,
    a: spec_fn(FieldKey) -> V,
    b: spec_fn(FieldKey) -> V,
    c: spec_fn(FieldKey) -> V,
)
    requires
        crate::derive::derives(l, T_ORD),
        depth >= 2,
        total(less),
        answer(crate::derive::derived_functions(s, st, l).1, less, depth, LT, a, b) == Some(true),
        answer(crate::derive::derived_functions(s, st, l).1, less, depth, LT, b, c) == Some(true),
    ensures
        answer(crate::derive::derived_functions(s, st, l).1, less, depth, LT, a, c) == Some(true),
{
    law_derived_comparisons(s, st, l, less, depth, a, b);
    law_derived_comparisons(s, st, l, less, depth, b, c);
    law_derived_comparisons(s, st, l, less, depth, a, c);
    lemma_precedes_chains(crate::derive::keys_of(st.kind), less, a, b, c);
}

} // verus!
