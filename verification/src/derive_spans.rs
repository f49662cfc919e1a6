//! Derived methods have spans of their own: each span that is drawn for a
//! generated block stands in it exactly once.
use vstd::prelude::*;
use vstd::multiset::Multiset;
use crate::ast::{
    BinaryOp, Block, Expr, ExprKind, ExtendItem, ExtendMember, FieldDecl, FieldInit, FunctionItem, Ident, Item, ItemKind,
    Param, ParamKind, StructItem, StructKind, Type, TypeKind, TypePath, Visibility,
};
use crate::derive::FieldKey;
use crate::list::List;
use crate::names::Symbol;
use crate::session::Sess;
use crate::span::{Span, SpanGen};
use crate::spans::{law_handed_distinct, lemma_chain, lemma_none, lemma_one};

verus! {

/// Going from `g` to `end`, exactly the spans `m` were drawn.
#[verifier::opaque]
pub open spec fn drawn(g: SpanGen, end: SpanGen, m: Multiset<Span>) -> bool {
    exists|l: Seq<Span>| #[trigger] crate::spans::handed(g, end, l) && l.to_multiset() == m
}

proof fn lemma_start(g: SpanGen)
    ensures
        drawn(g, g, Multiset::empty()),
{
    reveal(drawn);
    let l = Seq::<Span>::empty();
    lemma_none(g);
    l.to_multiset_ensures();
    assert(l.to_multiset() =~= Multiset::empty());
}

/// One more span is drawn.
proof fn lemma_draw(g: SpanGen, end: SpanGen, m: Multiset<Span>)
    requires
        drawn(g, end, m),
    ensures
        drawn(g, end.after(), m.insert(end.span())),
{
    reveal(drawn);
    let l = choose|l: Seq<Span>| #[trigger] crate::spans::handed(g, end, l) && l.to_multiset() == m;
    lemma_one(end);
    lemma_chain(g, end, end.after(), l, seq![end.span()]);
    assert(l + seq![end.span()] =~= l.push(end.span()));
    l.to_multiset_ensures();
    assert(l.push(end.span()).to_multiset() =~= m.insert(end.span()));
}

/// No span is drawn twice, as long as there are no more than there are positions
/// in the file.
pub proof fn law_drawn_once(g: SpanGen, end: SpanGen, m: Multiset<Span>)
    requires
        drawn(g, end, m),
        m.len() <= 0x1_0000_0000,
    ensures
        forall|x: Span| #[trigger] m.count(x) <= 1,
        forall|x: Span| #[trigger] m.count(x) > 0 ==> x.file == g.file,
{
    reveal(drawn);
    let l = choose|l: Seq<Span>| #[trigger] crate::spans::handed(g, end, l) && l.to_multiset() == m;
    l.to_multiset_ensures();
    law_handed_distinct(g, end, l);
    l.lemma_multiset_has_no_duplicates();
    assert forall|x: Span| #[trigger] m.count(x) <= 1 by {
        if m.count(x) > 0 {
            assert(m.contains(x));
        }
    }
    assert forall|x: Span| #[trigger] m.count(x) > 0 implies x.file == g.file by {
        assert(l.contains(x));
        let i = choose|i: int| 0 <= i < l.len() && l[i] == x;
        assert(l[i].file == g.file);
    }
}

// -- the spans of what is generated ------------------------------------------------------

/// The spans in a form of expression that derived methods are made of.
pub open spec fn marks(k: ExprKind) -> Multiset<Span>
    decreases k,
{
    match k {
        ExprKind::Ident(id) => Multiset::singleton(id.span),
        ExprKind::Field { receiver, name } => marks_of(*receiver).insert(name.span),
        ExprKind::TupleIndex { receiver, index_span, .. } => marks_of(*receiver).insert(index_span),
        ExprKind::Binary { op_span, left, right, .. } => marks_of(*left).add(marks_of(*right)).insert(op_span),
        ExprKind::Unary { op_span, operand, .. } => marks_of(*operand).insert(op_span),
        ExprKind::Call { callee, args, .. } => marks_of(*callee).add(marks_of_all(args)),
        ExprKind::Str(lit) => Multiset::singleton(lit.span),
        ExprKind::Cast { op_span, expr, ty, .. } => marks_of(*expr).insert(op_span).add(marks_of_type(*ty)),
        ExprKind::StructLit { path, fields, .. } => marks_of_inits(fields).insert(path.name.span).insert(path.span),
        _ => Multiset::empty(),
    }
}

pub open spec fn marks_of(e: Expr) -> Multiset<Span>
    decreases e,
{
    marks(e.kind).insert(e.span)
}

pub open spec fn marks_of_all(l: List<Expr>) -> Multiset<Span>
    decreases l,
{
    match l {
        List::Nil => Multiset::empty(),
        List::Cons(h, t) => marks_of(*h).add(marks_of_all(*t)),
    }
}

pub open spec fn marks_of_inits(l: List<FieldInit>) -> Multiset<Span>
    decreases l,
{
    match l {
        List::Nil => Multiset::empty(),
        List::Cons(h, t) => (match h.value {
            Some(v) => marks_of(v),
            None => Multiset::empty(),
        }).insert(h.name.span).insert(h.span).add(marks_of_inits(*t)),
    }
}

pub open spec fn marks_of_type(t: Type) -> Multiset<Span> {
    match t.kind {
        TypeKind::Named { name, .. } => Multiset::singleton(name.span).insert(t.span),
        _ => Multiset::singleton(t.span),
    }
}

pub open spec fn marks_of_types(l: List<Type>) -> Multiset<Span>
    decreases l,
{
    match l {
        List::Nil => Multiset::empty(),
        List::Cons(h, t) => marks_of_type(*h).add(marks_of_types(*t)),
    }
}

pub open spec fn marks_of_param(p: Param) -> Multiset<Span> {
    match p.kind {
        ParamKind::Normal { name, ty } => marks_of_type(ty).insert(name.span).insert(p.span),
        ParamKind::SelfParam => Multiset::singleton(p.span),
    }
}

pub open spec fn marks_of_params(l: List<Param>) -> Multiset<Span>
    decreases l,
{
    match l {
        List::Nil => Multiset::empty(),
        List::Cons(h, t) => marks_of_param(*h).add(marks_of_params(*t)),
    }
}

pub open spec fn marks_of_body(b: Block) -> Multiset<Span> {
    match b.trailing {
        Some(e) => marks_of(*e).insert(b.span),
        None => Multiset::singleton(b.span),
    }
}

pub open spec fn marks_of_function(f: FunctionItem) -> Multiset<Span> {
    marks_of_params(f.params).insert(f.name.span).add(
        match f.return_type {
            Some(t) => marks_of_type(t),
            None => Multiset::empty(),
        },
    ).add(
        match f.body {
            Some(b) => marks_of_body(b),
            None => Multiset::empty(),
        },
    )
}

pub open spec fn marks_of_functions(l: List<FunctionItem>) -> Multiset<Span>
    decreases l,
{
    match l {
        List::Nil => Multiset::empty(),
        List::Cons(h, t) => marks_of_function(*h).add(marks_of_functions(*t)),
    }
}

pub open spec fn marks_of_members(l: List<ExtendMember>) -> Multiset<Span>
    decreases l,
{
    match l {
        List::Nil => Multiset::empty(),
        List::Cons(h, t) => (match h.visibility {
            Visibility::Public(x) => Multiset::singleton(x),
            Visibility::Private => Multiset::empty(),
        }).add(marks_of_function(h.function)).insert(h.span).add(marks_of_members(*t)),
    }
}

/// The spans of generated blocks.
pub open spec fn marks_of_items(l: List<Item>) -> Multiset<Span>
    decreases l,
{
    match l {
        List::Nil => Multiset::empty(),
        List::Cons(h, t) => (match h.kind {
            ItemKind::Extend(x) => marks_of_members(x.members).add(marks_of_types(x.interfaces)).add(
                marks_of_type(x.target),
            ),
            _ => Multiset::empty(),
        }).insert(h.span).add(marks_of_items(*t)),
    }
}

// -- that each is drawn once; `m` is what was drawn before and has its place already -----------

proof fn lemma_expr(g: SpanGen, s: Sess, kind: ExprKind, m: Multiset<Span>)
    requires
        drawn(g, s.derive_spans, m.add(marks(kind))),
    ensures
        ({
            let (s1, e) = crate::derive::an_expr(s, kind);
            drawn(g, s1.derive_spans, m.add(marks_of(e)))
        }),
{
    lemma_draw(g, s.derive_spans, m.add(marks(kind)));
    let e = crate::derive::an_expr(s, kind).1;
    assert(m.add(marks(kind)).insert(e.span) =~= m.add(marks_of(e)));
}

proof fn lemma_leaf(g: SpanGen, s: Sess, kind: ExprKind, m: Multiset<Span>)
    requires
        drawn(g, s.derive_spans, m),
        kind is SelfExpr || kind is Bool,
    ensures
        ({
            let (s1, e) = crate::derive::an_expr(s, kind);
            drawn(g, s1.derive_spans, m.add(marks_of(e)))
        }),
{
    assert(m =~= m.add(marks(kind)));
    lemma_expr(g, s, kind, m);
}

proof fn lemma_ident_expr(g: SpanGen, s: Sess, name: Symbol, m: Multiset<Span>)
    requires
        drawn(g, s.derive_spans, m),
    ensures
        ({
            let (s1, e) = crate::derive::an_ident_expr(s, name);
            drawn(g, s1.derive_spans, m.add(marks_of(e)))
        }),
{
    let (s1, id) = crate::derive::an_ident(s, name);
    lemma_draw(g, s.derive_spans, m);
    assert(m.insert(id.span) =~= m.add(marks(ExprKind::Ident(id))));
    lemma_expr(g, s1, ExprKind::Ident(id), m);
}

proof fn lemma_field_access(g: SpanGen, s: Sess, receiver: Expr, name: Symbol, m: Multiset<Span>)
    requires
        drawn(g, s.derive_spans, m.add(marks_of(receiver))),
    ensures
        ({
            let (s1, e) = crate::derive::a_field_access(s, receiver, name);
            drawn(g, s1.derive_spans, m.add(marks_of(e)))
        }),
{
    let (s1, id) = crate::derive::an_ident(s, name);
    lemma_draw(g, s.derive_spans, m.add(marks_of(receiver)));
    let kind = ExprKind::Field { receiver: Box::new(receiver), name: id };
    assert(m.add(marks_of(receiver)).insert(id.span) =~= m.add(marks(kind)));
    lemma_expr(g, s1, kind, m);
}

proof fn lemma_tuple_index(g: SpanGen, s: Sess, receiver: Expr, index: u32, m: Multiset<Span>)
    requires
        drawn(g, s.derive_spans, m.add(marks_of(receiver))),
    ensures
        ({
            let (s1, e) = crate::derive::a_tuple_index(s, receiver, index);
            drawn(g, s1.derive_spans, m.add(marks_of(e)))
        }),
{
    lemma_draw(g, s.derive_spans, m.add(marks_of(receiver)));
    let index_span = s.derive_spans.span();
    let kind = ExprKind::TupleIndex { receiver: Box::new(receiver), index, index_span };
    assert(m.add(marks_of(receiver)).insert(index_span) =~= m.add(marks(kind)));
    lemma_expr(g, s.derive_span_used(), kind, m);
}

proof fn lemma_binary(g: SpanGen, s: Sess, op: BinaryOp, left: Expr, right: Expr, m: Multiset<Span>)
    requires
        drawn(g, s.derive_spans, m.add(marks_of(left)).add(marks_of(right))),
    ensures
        ({
            let (s1, e) = crate::derive::a_binary(s, op, left, right);
            drawn(g, s1.derive_spans, m.add(marks_of(e)))
        }),
{
    lemma_draw(g, s.derive_spans, m.add(marks_of(left)).add(marks_of(right)));
    let op_span = s.derive_spans.span();
    let kind = ExprKind::Binary { op, op_span, left: Box::new(left), right: Box::new(right) };
    assert(m.add(marks_of(left)).add(marks_of(right)).insert(op_span) =~= m.add(marks(kind)));
    lemma_expr(g, s.derive_span_used(), kind, m);
}

proof fn lemma_not(g: SpanGen, s: Sess, operand: Expr, m: Multiset<Span>)
    requires
        drawn(g, s.derive_spans, m.add(marks_of(operand))),
    ensures
        ({
            let (s1, e) = crate::derive::a_not(s, operand);
            drawn(g, s1.derive_spans, m.add(marks_of(e)))
        }),
{
    lemma_draw(g, s.derive_spans, m.add(marks_of(operand)));
    let op_span = s.derive_spans.span();
    let e = crate::derive::a_not(s, operand).1;
    assert(m.add(marks_of(operand)).insert(op_span) =~= m.add(marks(e.kind)));
    lemma_expr(g, s.derive_span_used(), e.kind, m);
}

proof fn lemma_method_call(g: SpanGen, s: Sess, receiver: Expr, name: Symbol, args: List<Expr>, m: Multiset<Span>)
    requires
        drawn(g, s.derive_spans, m.add(marks_of(receiver)).add(marks_of_all(args))),
    ensures
        ({
            let (s1, e) = crate::derive::a_method_call(s, receiver, name, args);
            drawn(g, s1.derive_spans, m.add(marks_of(e)))
        }),
{
    let a = marks_of_all(args);
    assert(m.add(marks_of(receiver)).add(a) =~= m.add(a).add(marks_of(receiver)));
    lemma_field_access(g, s, receiver, name, m.add(a));
    let (s1, callee) = crate::derive::a_field_access(s, receiver, name);
    let kind = ExprKind::Call { callee: Box::new(callee), generics: List::Nil, args, trailing_closure: None };
    assert(m.add(a).add(marks_of(callee)) =~= m.add(marks(kind)));
    lemma_expr(g, s1, kind, m);
}

proof fn lemma_named_ty(g: SpanGen, s: Sess, name: Symbol, m: Multiset<Span>)
    requires
        drawn(g, s.derive_spans, m),
    ensures
        ({
            let (s1, t) = crate::derive::a_named_ty(s, name);
            drawn(g, s1.derive_spans, m.add(marks_of_type(t)))
        }),
{
    let (s1, id) = crate::derive::an_ident(s, name);
    lemma_draw(g, s.derive_spans, m);
    lemma_draw(g, s1.derive_spans, m.insert(id.span));
    let t = crate::derive::a_named_ty(s, name).1;
    assert(m.insert(id.span).insert(t.span) =~= m.add(marks_of_type(t)));
}

proof fn lemma_str_lit(g: SpanGen, s: Sess, text: Symbol, m: Multiset<Span>)
    requires
        drawn(g, s.derive_spans, m),
    ensures
        ({
            let (s1, e) = crate::derive::a_str_lit(s, text);
            drawn(g, s1.derive_spans, m.add(marks_of(e)))
        }),
{
    lemma_draw(g, s.derive_spans, m);
    let e = crate::derive::a_str_lit(s, text).1;
    assert(m.insert(s.derive_spans.span()) =~= m.add(marks(e.kind)));
    lemma_expr(g, s.derive_span_used(), e.kind, m);
}

proof fn lemma_cast(g: SpanGen, s: Sess, x: Expr, m: Multiset<Span>)
    requires
        drawn(g, s.derive_spans, m.add(marks_of(x))),
    ensures
        ({
            let (s1, e) = crate::derive::a_cast_to_str(s, x);
            drawn(g, s1.derive_spans, m.add(marks_of(e)))
        }),
{
    let op_span = s.derive_spans.span();
    let m1 = m.add(marks_of(x)).insert(op_span);
    lemma_draw(g, s.derive_spans, m.add(marks_of(x)));
    lemma_named_ty(g, s.derive_span_used(), crate::words::STR, m1);
    let (s1, ty) = crate::derive::a_named_ty(s.derive_span_used(), crate::words::STR);
    let e = crate::derive::a_cast_to_str(s, x).1;
    assert(m1.add(marks_of_type(ty)) =~= m.add(marks(e.kind)));
    lemma_expr(g, s1, e.kind, m);
}

proof fn lemma_field(g: SpanGen, s: Sess, base: Expr, k: FieldKey, m: Multiset<Span>)
    requires
        drawn(g, s.derive_spans, m.add(marks_of(base))),
    ensures
        ({
            let (s1, e) = crate::derive::a_field(s, base, k);
            drawn(g, s1.derive_spans, m.add(marks_of(e)))
        }),
{
    match k {
        FieldKey::Named(n) => lemma_field_access(g, s, base, n, m),
        FieldKey::Index(i) => lemma_tuple_index(g, s, base, i, m),
    }
}

proof fn lemma_field_cmp(g: SpanGen, s: Sess, op: BinaryOp, k: FieldKey, m: Multiset<Span>)
    requires
        drawn(g, s.derive_spans, m),
    ensures
        ({
            let (s1, e) = crate::derive::a_field_cmp(s, op, k);
            drawn(g, s1.derive_spans, m.add(marks_of(e)))
        }),
{
    lemma_leaf(g, s, ExprKind::SelfExpr, m);
    let (t1, base) = crate::derive::an_expr(s, ExprKind::SelfExpr);
    lemma_field(g, t1, base, k, m);
    let (s1, a) = crate::derive::a_self_field(s, k);
    let m1 = m.add(marks_of(a));
    lemma_ident_expr(g, s1, crate::words::OTHER, m1);
    let (t2, other) = crate::derive::an_ident_expr(s1, crate::words::OTHER);
    lemma_field(g, t2, other, k, m1);
    let (s2, b) = crate::derive::an_other_field(s1, k);
    lemma_binary(g, s2, op, a, b, m);
}

proof fn lemma_field_cmps(g: SpanGen, s: Sess, op: BinaryOp, l: List<FieldKey>, m: Multiset<Span>)
    requires
        drawn(g, s.derive_spans, m),
    ensures
        ({
            let (s1, es) = crate::derive::all_field_cmps(s, op, l);
            drawn(g, s1.derive_spans, m.add(marks_of_all(es)))
        }),
    decreases l,
{
    match l {
        List::Nil => {
            assert(m =~= m.add(Multiset::empty()));
        },
        List::Cons(h, t) => {
            lemma_field_cmp(g, s, op, *h, m);
            let (s1, x) = crate::derive::a_field_cmp(s, op, *h);
            lemma_field_cmps(g, s1, op, *t, m.add(marks_of(x)));
            let (s2, xs) = crate::derive::all_field_cmps(s1, op, *t);
            assert(m.add(marks_of(x)).add(marks_of_all(xs)) =~= m.add(
                marks_of_all(List::Cons(Box::new(x), Box::new(xs))),
            ));
        },
    }
}

proof fn lemma_chained(g: SpanGen, s: Sess, op: BinaryOp, acc: Expr, l: List<Expr>, m: Multiset<Span>)
    requires
        drawn(g, s.derive_spans, m.add(marks_of(acc)).add(marks_of_all(l))),
    ensures
        ({
            let (s1, e) = crate::derive::chained(s, op, acc, l);
            drawn(g, s1.derive_spans, m.add(marks_of(e)))
        }),
    decreases l,
{
    match l {
        List::Nil => {
            assert(m.add(marks_of(acc)).add(Multiset::empty()) =~= m.add(marks_of(acc)));
        },
        List::Cons(h, t) => {
            let rest = marks_of_all(*t);
            assert(m.add(marks_of(acc)).add(marks_of_all(l)) =~= m.add(rest).add(marks_of(acc)).add(marks_of(*h)));
            lemma_binary(g, s, op, acc, *h, m.add(rest));
            let (s1, x) = crate::derive::a_binary(s, op, acc, *h);
            assert(m.add(rest).add(marks_of(x)) =~= m.add(marks_of(x)).add(rest));
            lemma_chained(g, s1, op, x, *t, m);
        },
    }
}

proof fn lemma_conjoined(g: SpanGen, s: Sess, l: List<Expr>, m: Multiset<Span>)
    requires
        drawn(g, s.derive_spans, m.add(marks_of_all(l))),
    ensures
        ({
            let (s1, e) = crate::derive::conjoined(s, l);
            drawn(g, s1.derive_spans, m.add(marks_of(e)))
        }),
{
    match l {
        List::Nil => {
            assert(m.add(Multiset::empty()) =~= m);
            lemma_leaf(g, s, ExprKind::Bool(true), m);
        },
        List::Cons(h, t) => {
            assert(m.add(marks_of_all(l)) =~= m.add(marks_of(*h)).add(marks_of_all(*t)));
            lemma_chained(g, s, BinaryOp::And, *h, *t, m);
        },
    }
}

proof fn lemma_lex_less(g: SpanGen, s: Sess, l: List<FieldKey>, m: Multiset<Span>)
    requires
        drawn(g, s.derive_spans, m),
    ensures
        ({
            let (s1, e) = crate::derive::lex_less(s, l);
            drawn(g, s1.derive_spans, m.add(marks_of(e)))
        }),
    decreases l,
{
    match l {
        List::Nil => lemma_leaf(g, s, ExprKind::Bool(false), m),
        List::Cons(h, t) => {
            lemma_field_cmp(g, s, BinaryOp::Lt, *h, m);
            let (s1, lt) = crate::derive::a_field_cmp(s, BinaryOp::Lt, *h);
            if !(*t is Nil) {
                let m1 = m.add(marks_of(lt));
                lemma_field_cmp(g, s1, BinaryOp::Eq, *h, m1);
                let (s2, eq) = crate::derive::a_field_cmp(s1, BinaryOp::Eq, *h);
                lemma_lex_less(g, s2, *t, m1.add(marks_of(eq)));
                let (s3, rest) = crate::derive::lex_less(s2, *t);
                lemma_binary(g, s3, BinaryOp::And, eq, rest, m1);
                let (s4, both) = crate::derive::a_binary(s3, BinaryOp::And, eq, rest);
                lemma_binary(g, s4, BinaryOp::Or, lt, both, m);
            }
        },
    }
}

/// What the name, the parameters and the body take was drawn already.
proof fn lemma_function(
    g: SpanGen,
    s: Sess,
    name: Ident,
    params: List<Param>,
    ret: Symbol,
    body: Expr,
    m: Multiset<Span>,
)
    requires
        drawn(g, s.derive_spans, m.add(marks_of(body)).add(marks_of_params(params).insert(name.span))),
    ensures
        ({
            let (s1, f) = crate::derive::a_function(s, name, params, ret, body);
            drawn(g, s1.derive_spans, m.add(marks_of_function(f)))
        }),
{
    let m0 = m.add(marks_of(body)).add(marks_of_params(params).insert(name.span));
    lemma_named_ty(g, s, ret, m0);
    let (s1, ty) = crate::derive::a_named_ty(s, ret);
    let m1 = m0.add(marks_of_type(ty));
    lemma_draw(g, s1.derive_spans, m1);
    let (s2, f) = crate::derive::a_function(s, name, params, ret, body);
    let b = Block { stmts: List::Nil, trailing: Some(Box::new(body)), span: s1.derive_spans.span() };
    assert(f.body == Some(b));
    assert(marks_of_body(b) == marks_of(body).insert(b.span));
    assert(m1.insert(b.span) =~= m.add(marks_of_function(f)));
}

proof fn lemma_cmp_method(g: SpanGen, s: Sess, name: Symbol, struct_name: Symbol, body: Expr, m: Multiset<Span>)
    requires
        drawn(g, s.derive_spans, m.add(marks_of(body))),
    ensures
        ({
            let (s1, f) = crate::derive::a_cmp_method(s, name, struct_name, body);
            drawn(g, s1.derive_spans, m.add(marks_of_function(f)))
        }),
{
    let m0 = m.add(marks_of(body));
    let (s1, id) = crate::derive::an_ident(s, name);
    lemma_draw(g, s.derive_spans, m0);
    let p0 = Param { kind: ParamKind::SelfParam, span: s1.derive_spans.span() };
    let m1 = m0.insert(id.span);
    lemma_draw(g, s1.derive_spans, m1);
    let t1 = s1.derive_span_used();
    let m2 = m1.insert(p0.span);
    let (s2, other) = crate::derive::an_ident(t1, crate::words::OTHER);
    lemma_draw(g, t1.derive_spans, m2);
    let m3 = m2.insert(other.span);
    lemma_named_ty(g, s2, struct_name, m3);
    let (s3, ty) = crate::derive::a_named_ty(s2, struct_name);
    let m4 = m3.add(marks_of_type(ty));
    lemma_draw(g, s3.derive_spans, m4);
    let p1 = Param { kind: ParamKind::Normal { name: other, ty }, span: s3.derive_spans.span() };
    let params = List::two(p0, p1);
    lemma_two_params(p0, p1);
    assert(m4.insert(p1.span) =~= m0.add(marks_of_params(params).insert(id.span)));
    lemma_function(g, s3.derive_span_used(), id, params, crate::words::BOOL, body, m);
}

proof fn lemma_two_params(a: Param, b: Param)
    ensures
        marks_of_params(List::two(a, b)) == marks_of_param(a).add(marks_of_param(b)),
{
    reveal_with_fuel(marks_of_params, 3);
    let x = marks_of_param(a);
    let y = marks_of_param(b);
    assert(x.add(y.add(Multiset::empty())) =~= x.add(y));
}

proof fn lemma_self_method(g: SpanGen, s: Sess, name: Symbol, ret: Symbol, body: Expr, m: Multiset<Span>)
    requires
        drawn(g, s.derive_spans, m.add(marks_of(body))),
    ensures
        ({
            let (s1, f) = crate::derive::a_self_method(s, name, ret, body);
            drawn(g, s1.derive_spans, m.add(marks_of_function(f)))
        }),
{
    let m0 = m.add(marks_of(body));
    let (s1, id) = crate::derive::an_ident(s, name);
    lemma_draw(g, s.derive_spans, m0);
    let p0 = Param { kind: ParamKind::SelfParam, span: s1.derive_spans.span() };
    lemma_draw(g, s1.derive_spans, m0.insert(id.span));
    let params = List::one(p0);
    reveal_with_fuel(marks_of_params, 2);
    assert(m0.insert(id.span).insert(p0.span) =~= m0.add(marks_of_params(params).insert(id.span)));
    lemma_function(g, s1.derive_span_used(), id, params, ret, body, m);
}

proof fn lemma_eq(g: SpanGen, s: Sess, st: StructItem, m: Multiset<Span>)
    requires
        drawn(g, s.derive_spans, m),
    ensures
        ({
            let (s1, f) = crate::derive::derived_eq(s, st);
            drawn(g, s1.derive_spans, m.add(marks_of_function(f)))
        }),
{
    let keys = crate::derive::keys_of(st.kind);
    lemma_field_cmps(g, s, BinaryOp::Eq, keys, m);
    let (s1, parts) = crate::derive::all_field_cmps(s, BinaryOp::Eq, keys);
    lemma_conjoined(g, s1, parts, m);
    let (s2, body) = crate::derive::conjoined(s1, parts);
    lemma_cmp_method(g, s2, crate::words::EQ, st.name.name, body, m);
}

proof fn lemma_lt(g: SpanGen, s: Sess, st: StructItem, m: Multiset<Span>)
    requires
        drawn(g, s.derive_spans, m),
    ensures
        ({
            let (s1, f) = crate::derive::derived_lt(s, st);
            drawn(g, s1.derive_spans, m.add(marks_of_function(f)))
        }),
{
    let keys = crate::derive::keys_of(st.kind);
    lemma_lex_less(g, s, keys, m);
    let (s1, body) = crate::derive::lex_less(s, keys);
    lemma_cmp_method(g, s1, crate::words::LT, st.name.name, body, m);
}

proof fn lemma_self_call(g: SpanGen, s: Sess, name: Symbol, m: Multiset<Span>)
    requires
        drawn(g, s.derive_spans, m),
    ensures
        ({
            let (s1, e) = crate::derive::a_self_call(s, name);
            drawn(g, s1.derive_spans, m.add(marks_of(e)))
        }),
{
    lemma_leaf(g, s, ExprKind::SelfExpr, m);
    let (s1, recv) = crate::derive::an_expr(s, ExprKind::SelfExpr);
    lemma_ident_expr(g, s1, crate::words::OTHER, m.add(marks_of(recv)));
    let (s2, arg) = crate::derive::an_ident_expr(s1, crate::words::OTHER);
    let args = List::one(arg);
    lemma_one_expr(arg);
    lemma_method_call(g, s2, recv, name, args, m);
}

proof fn lemma_one_expr(x: Expr)
    ensures
        marks_of_all(List::one(x)) == marks_of(x),
{
    reveal_with_fuel(marks_of_all, 2);
    assert(marks_of(x).add(Multiset::empty()) =~= marks_of(x));
}

proof fn lemma_le(g: SpanGen, s: Sess, name: Symbol, m: Multiset<Span>)
    requires
        drawn(g, s.derive_spans, m),
    ensures
        ({
            let (s1, f) = crate::derive::derived_le(s, name);
            drawn(g, s1.derive_spans, m.add(marks_of_function(f)))
        }),
{
    lemma_self_call(g, s, crate::words::LT, m);
    let (s1, a) = crate::derive::a_self_call(s, crate::words::LT);
    lemma_self_call(g, s1, crate::words::EQ, m.add(marks_of(a)));
    let (s2, b) = crate::derive::a_self_call(s1, crate::words::EQ);
    lemma_binary(g, s2, BinaryOp::Or, a, b, m);
    let (s3, body) = crate::derive::a_binary(s2, BinaryOp::Or, a, b);
    lemma_cmp_method(g, s3, crate::words::LE, name, body, m);
}

proof fn lemma_negated(g: SpanGen, s: Sess, name: Symbol, of: Symbol, struct_name: Symbol, m: Multiset<Span>)
    requires
        drawn(g, s.derive_spans, m),
    ensures
        ({
            let (s1, a) = crate::derive::a_self_call(s, of);
            let (s2, body) = crate::derive::a_not(s1, a);
            let (s3, f) = crate::derive::a_cmp_method(s2, name, struct_name, body);
            drawn(g, s3.derive_spans, m.add(marks_of_function(f)))
        }),
{
    lemma_self_call(g, s, of, m);
    let (s1, a) = crate::derive::a_self_call(s, of);
    lemma_not(g, s1, a, m);
    let (s2, body) = crate::derive::a_not(s1, a);
    lemma_cmp_method(g, s2, name, struct_name, body, m);
}

proof fn lemma_more(m: Multiset<Span>, x: Expr, xs: List<Expr>)
    ensures
        m.add(marks_of(x)).add(marks_of_all(xs)) == m.add(marks_of_all(List::Cons(Box::new(x), Box::new(xs)))),
{
    assert(m.add(marks_of(x)).add(marks_of_all(xs)) =~= m.add(marks_of(x).add(marks_of_all(xs))));
}

proof fn lemma_record_pieces(g: SpanGen, s: Sess, l: List<FieldDecl>, first: bool, m: Multiset<Span>)
    requires
        drawn(g, s.derive_spans, m),
    ensures
        ({
            let (s1, es) = crate::derive::record_pieces(s, l, first);
            drawn(g, s1.derive_spans, m.add(marks_of_all(es)))
        }),
    decreases l,
{
    match l {
        List::Nil => {
            lemma_str_lit(g, s, crate::words::CLOSE_BRACE_TEXT, m);
            lemma_one_expr(crate::derive::a_str_lit(s, crate::words::CLOSE_BRACE_TEXT).1);
        },
        List::Cons(h, t) => {
            let label = if first {
                s.text(h.name.name) + ": "@
            } else {
                ", "@ + s.text(h.name.name) + ": "@
            };
            let (s0, sym) = s.interned(label);
            lemma_str_lit(g, s0, sym, m);
            let (s1, lit) = crate::derive::a_str_lit(s0, sym);
            let m1 = m.add(marks_of(lit));
            lemma_leaf(g, s1, ExprKind::SelfExpr, m1);
            let (s2, recv) = crate::derive::an_expr(s1, ExprKind::SelfExpr);
            lemma_field_access(g, s2, recv, h.name.name, m1);
            let (s3, acc) = crate::derive::a_field_access(s2, recv, h.name.name);
            lemma_cast(g, s3, acc, m1);
            let (s4, val) = crate::derive::a_cast_to_str(s3, acc);
            lemma_record_pieces(g, s4, *t, false, m1.add(marks_of(val)));
            let (s5, rest) = crate::derive::record_pieces(s4, *t, false);
            lemma_more(m1, val, rest);
            lemma_more(m, lit, List::Cons(Box::new(val), Box::new(rest)));
        },
    }
}

proof fn lemma_element(g: SpanGen, s: Sess, i: u32, m: Multiset<Span>)
    requires
        drawn(g, s.derive_spans, m),
    ensures
        ({
            let (s1, recv) = crate::derive::an_expr(s, ExprKind::SelfExpr);
            let (s2, acc) = crate::derive::a_tuple_index(s1, recv, i);
            drawn(g, s2.derive_spans, m.add(marks_of(acc)))
        }),
{
    lemma_leaf(g, s, ExprKind::SelfExpr, m);
    let (s1, recv) = crate::derive::an_expr(s, ExprKind::SelfExpr);
    lemma_tuple_index(g, s1, recv, i, m);
}

proof fn lemma_tuple_pieces(g: SpanGen, s: Sess, l: List<Type>, i: u32, first: bool, m: Multiset<Span>)
    requires
        drawn(g, s.derive_spans, m),
    ensures
        ({
            let (s1, es) = crate::derive::tuple_pieces(s, l, i, first);
            drawn(g, s1.derive_spans, m.add(marks_of_all(es)))
        }),
    decreases l,
{
    match l {
        List::Nil => {
            lemma_str_lit(g, s, crate::words::CLOSE_PAREN_TEXT, m);
            lemma_one_expr(crate::derive::a_str_lit(s, crate::words::CLOSE_PAREN_TEXT).1);
        },
        List::Cons(_, t) => if first {
            lemma_element(g, s, i, m);
            let (s2, recv) = crate::derive::an_expr(s, ExprKind::SelfExpr);
            let (s3, acc) = crate::derive::a_tuple_index(s2, recv, i);
            lemma_cast(g, s3, acc, m);
            let (s4, val) = crate::derive::a_cast_to_str(s3, acc);
            lemma_tuple_pieces(g, s4, *t, i.wrapping_add(1), false, m.add(marks_of(val)));
            let (s5, rest) = crate::derive::tuple_pieces(s4, *t, i.wrapping_add(1), false);
            lemma_more(m, val, rest);
        } else {
            lemma_str_lit(g, s, crate::words::COMMA_TEXT, m);
            let (s1, comma) = crate::derive::a_str_lit(s, crate::words::COMMA_TEXT);
            let m1 = m.add(marks_of(comma));
            lemma_element(g, s1, i, m1);
            let (s2, recv) = crate::derive::an_expr(s1, ExprKind::SelfExpr);
            let (s3, acc) = crate::derive::a_tuple_index(s2, recv, i);
            lemma_cast(g, s3, acc, m1);
            let (s4, val) = crate::derive::a_cast_to_str(s3, acc);
            lemma_tuple_pieces(g, s4, *t, i.wrapping_add(1), false, m1.add(marks_of(val)));
            let (s5, rest) = crate::derive::tuple_pieces(s4, *t, i.wrapping_add(1), false);
            lemma_more(m1, val, rest);
            lemma_more(m, comma, List::Cons(Box::new(val), Box::new(rest)));
        },
    }
}

proof fn lemma_to_str(g: SpanGen, s: Sess, st: StructItem, m: Multiset<Span>)
    requires
        drawn(g, s.derive_spans, m),
    ensures
        ({
            let (s1, f) = crate::derive::derived_to_str(s, st);
            drawn(g, s1.derive_spans, m.add(marks_of_function(f)))
        }),
{
    match st.kind {
        StructKind::Unit => lemma_str_lit(g, s, st.name.name, m),
        StructKind::Record(fields) => {
            let (s0, sym) = s.interned(s.text(st.name.name) + " { "@);
            lemma_str_lit(g, s0, sym, m);
            let (s1, head) = crate::derive::a_str_lit(s0, sym);
            lemma_record_pieces(g, s1, fields, true, m.add(marks_of(head)));
            let (s2, rest) = crate::derive::record_pieces(s1, fields, true);
            lemma_chained(g, s2, BinaryOp::Add, head, rest, m);
        },
        StructKind::Tuple(tys) => {
            let (s0, sym) = s.interned(s.text(st.name.name) + "("@);
            lemma_str_lit(g, s0, sym, m);
            let (s1, head) = crate::derive::a_str_lit(s0, sym);
            lemma_tuple_pieces(g, s1, tys, 0, true, m.add(marks_of(head)));
            let (s2, rest) = crate::derive::tuple_pieces(s1, tys, 0, true);
            lemma_chained(g, s2, BinaryOp::Add, head, rest, m);
        },
    }
    let (s1, body) = crate::derive::to_str_body(s, st);
    lemma_self_method(g, s1, crate::words::TO_STR, crate::words::STR, body, m);
}

proof fn lemma_cloned(g: SpanGen, s: Sess, x: Expr, m: Multiset<Span>)
    requires
        drawn(g, s.derive_spans, m.add(marks_of(x))),
    ensures
        ({
            let (s1, e) = crate::derive::a_method_call(s, x, crate::words::CLONE, List::Nil);
            drawn(g, s1.derive_spans, m.add(marks_of(e)))
        }),
{
    assert(m.add(marks_of(x)) =~= m.add(marks_of(x)).add(marks_of_all(List::Nil)));
    lemma_method_call(g, s, x, crate::words::CLONE, List::Nil, m);
}

proof fn lemma_clone_inits(g: SpanGen, s: Sess, l: List<FieldDecl>, m: Multiset<Span>)
    requires
        drawn(g, s.derive_spans, m),
    ensures
        ({
            let (s1, fs) = crate::derive::clone_inits(s, l);
            drawn(g, s1.derive_spans, m.add(marks_of_inits(fs)))
        }),
    decreases l,
{
    match l {
        List::Nil => {
            assert(m.add(Multiset::empty()) =~= m);
        },
        List::Cons(h, t) => {
            let (s1, name) = crate::derive::an_ident(s, h.name.name);
            lemma_draw(g, s.derive_spans, m);
            let m1 = m.insert(name.span);
            lemma_leaf(g, s1, ExprKind::SelfExpr, m1);
            let (s2, recv) = crate::derive::an_expr(s1, ExprKind::SelfExpr);
            lemma_field_access(g, s2, recv, h.name.name, m1);
            let (s3, acc) = crate::derive::a_field_access(s2, recv, h.name.name);
            lemma_cloned(g, s3, acc, m1);
            let (s4, val) = crate::derive::a_method_call(s3, acc, crate::words::CLONE, List::Nil);
            let m2 = m1.add(marks_of(val));
            lemma_draw(g, s4.derive_spans, m2);
            let init = FieldInit { name, value: Some(val), span: s4.derive_spans.span() };
            let m3 = m2.insert(init.span);
            lemma_clone_inits(g, s4.derive_span_used(), *t, m3);
            let (s5, rest) = crate::derive::clone_inits(s4.derive_span_used(), *t);
            let all = List::Cons(Box::new(init), Box::new(rest));
            assert(m3.add(marks_of_inits(rest)) =~= m.add(marks_of_inits(all)));
        },
    }
}

proof fn lemma_clone_args(g: SpanGen, s: Sess, l: List<Type>, i: u32, m: Multiset<Span>)
    requires
        drawn(g, s.derive_spans, m),
    ensures
        ({
            let (s1, es) = crate::derive::clone_args(s, l, i);
            drawn(g, s1.derive_spans, m.add(marks_of_all(es)))
        }),
    decreases l,
{
    match l {
        List::Nil => {
            assert(m.add(Multiset::empty()) =~= m);
        },
        List::Cons(_, t) => {
            lemma_element(g, s, i, m);
            let (s1, recv) = crate::derive::an_expr(s, ExprKind::SelfExpr);
            let (s2, acc) = crate::derive::a_tuple_index(s1, recv, i);
            lemma_cloned(g, s2, acc, m);
            let (s3, val) = crate::derive::a_method_call(s2, acc, crate::words::CLONE, List::Nil);
            lemma_clone_args(g, s3, *t, i.wrapping_add(1), m.add(marks_of(val)));
            let (s4, rest) = crate::derive::clone_args(s3, *t, i.wrapping_add(1));
            lemma_more(m, val, rest);
        },
    }
}

proof fn lemma_clone(g: SpanGen, s: Sess, st: StructItem, m: Multiset<Span>)
    requires
        drawn(g, s.derive_spans, m),
    ensures
        ({
            let (s1, f) = crate::derive::derived_clone(s, st);
            drawn(g, s1.derive_spans, m.add(marks_of_function(f)))
        }),
{
    match st.kind {
        StructKind::Unit => lemma_ident_expr(g, s, st.name.name, m),
        StructKind::Record(fields) => {
            lemma_clone_inits(g, s, fields, m);
            let (s1, inits) = crate::derive::clone_inits(s, fields);
            let m1 = m.add(marks_of_inits(inits));
            let (s2, name) = crate::derive::an_ident(s1, st.name.name);
            lemma_draw(g, s1.derive_spans, m1);
            lemma_draw(g, s2.derive_spans, m1.insert(name.span));
            let path = TypePath { name, generics: List::Nil, span: s2.derive_spans.span() };
            let kind = ExprKind::StructLit { path, fields: inits, spread: None };
            assert(m1.insert(name.span).insert(path.span) =~= m.add(marks(kind)));
            lemma_expr(g, s2.derive_span_used(), kind, m);
        },
        StructKind::Tuple(tys) => {
            lemma_clone_args(g, s, tys, 0, m);
            let (s1, args) = crate::derive::clone_args(s, tys, 0);
            lemma_ident_expr(g, s1, st.name.name, m.add(marks_of_all(args)));
            let (s2, callee) = crate::derive::an_ident_expr(s1, st.name.name);
            let kind = ExprKind::Call { callee: Box::new(callee), generics: List::Nil, args, trailing_closure: None };
            assert(m.add(marks_of_all(args)).add(marks_of(callee)) =~= m.add(marks(kind)));
            lemma_expr(g, s2, kind, m);
        },
    }
    let (s1, body) = crate::derive::clone_body(s, st);
    lemma_self_method(g, s1, crate::words::CLONE, st.name.name, body, m);
}

proof fn lemma_append(a: List<FunctionItem>, b: List<FunctionItem>)
    ensures
        marks_of_functions(a.then_list(b)) == marks_of_functions(a).add(marks_of_functions(b)),
    decreases a,
{
    match a {
        List::Nil => {
            assert(marks_of_functions(b) =~= Multiset::empty().add(marks_of_functions(b)));
        },
        List::Cons(h, t) => {
            lemma_append(*t, b);
            let x = marks_of_function(*h);
            assert(x.add(marks_of_functions(*t).add(marks_of_functions(b))) =~= x.add(marks_of_functions(*t)).add(
                marks_of_functions(b),
            ));
        },
    }
}

proof fn lemma_one_function(f: FunctionItem)
    ensures
        marks_of_functions(List::one(f)) == marks_of_function(f),
{
    reveal_with_fuel(marks_of_functions, 2);
    assert(marks_of_function(f).add(Multiset::empty()) =~= marks_of_function(f));
}

proof fn lemma_two_functions(a: FunctionItem, b: FunctionItem)
    ensures
        marks_of_functions(List::two(a, b)) == marks_of_function(a).add(marks_of_function(b)),
{
    reveal_with_fuel(marks_of_functions, 3);
    assert(marks_of_function(a).add(marks_of_function(b).add(Multiset::empty())) =~= marks_of_function(a).add(
        marks_of_function(b),
    ));
}

proof fn lemma_eq_part(g: SpanGen, s: Sess, st: StructItem, l: List<Symbol>, m: Multiset<Span>)
    requires
        drawn(g, s.derive_spans, m),
    ensures
        ({
            let (s1, fs) = crate::derive::eq_part(s, st, l);
            drawn(g, s1.derive_spans, m.add(marks_of_functions(fs)))
        }),
{
    reveal(crate::derive::eq_part);
    lemma_eq(g, s, st, m);
    lemma_one_function(crate::derive::derived_eq(s, st).1);
    assert(m.add(Multiset::empty()) =~= m);
}

proof fn lemma_to_str_part(g: SpanGen, s: Sess, st: StructItem, l: List<Symbol>, m: Multiset<Span>)
    requires
        drawn(g, s.derive_spans, m),
    ensures
        ({
            let (s1, fs) = crate::derive::to_str_part(s, st, l);
            drawn(g, s1.derive_spans, m.add(marks_of_functions(fs)))
        }),
{
    reveal(crate::derive::to_str_part);
    lemma_to_str(g, s, st, m);
    lemma_one_function(crate::derive::derived_to_str(s, st).1);
    assert(m.add(Multiset::empty()) =~= m);
}

proof fn lemma_clone_part(g: SpanGen, s: Sess, st: StructItem, l: List<Symbol>, m: Multiset<Span>)
    requires
        drawn(g, s.derive_spans, m),
    ensures
        ({
            let (s1, fs) = crate::derive::clone_part(s, st, l);
            drawn(g, s1.derive_spans, m.add(marks_of_functions(fs)))
        }),
{
    reveal(crate::derive::clone_part);
    lemma_clone(g, s, st, m);
    lemma_one_function(crate::derive::derived_clone(s, st).1);
    assert(m.add(Multiset::empty()) =~= m);
}

proof fn lemma_ord_part(g: SpanGen, s: Sess, st: StructItem, l: List<Symbol>, m: Multiset<Span>)
    requires
        drawn(g, s.derive_spans, m),
    ensures
        ({
            let (s1, fs) = crate::derive::ord_part(s, st, l);
            drawn(g, s1.derive_spans, m.add(marks_of_functions(fs)))
        }),
{
    reveal(crate::derive::ord_part);
    if crate::derive::derives(l, crate::words::T_ORD) {
        let name = st.name.name;
        lemma_lt(g, s, st, m);
        let (a, lt) = crate::derive::derived_lt(s, st);
        let m1 = m.add(marks_of_function(lt));
        lemma_le(g, a, name, m1);
        let (b, le) = crate::derive::derived_le(a, name);
        let m2 = m1.add(marks_of_function(le));
        lemma_negated(g, b, crate::words::GT, crate::words::LE, name, m2);
        let (c, gt) = crate::derive::derived_gt(b, name);
        let m3 = m2.add(marks_of_function(gt));
        lemma_negated(g, c, crate::words::GE, crate::words::LT, name, m3);
        let (d, ge) = crate::derive::derived_ge(c, name);
        lemma_two_functions(lt, le);
        lemma_two_functions(gt, ge);
        lemma_append(List::two(lt, le), List::two(gt, ge));
        assert(m3.add(marks_of_function(ge)) =~= m.add(
            marks_of_functions(List::two(lt, le)).add(marks_of_functions(List::two(gt, ge))),
        ));
    } else {
        assert(m.add(Multiset::empty()) =~= m);
    }
}

proof fn lemma_functions(g: SpanGen, s: Sess, st: StructItem, l: List<Symbol>, m: Multiset<Span>)
    requires
        drawn(g, s.derive_spans, m),
    ensures
        ({
            let (s1, fs) = crate::derive::derived_functions(s, st, l);
            drawn(g, s1.derive_spans, m.add(marks_of_functions(fs)))
        }),
{
    lemma_eq_part(g, s, st, l, m);
    let (s1, eq) = crate::derive::eq_part(s, st, l);
    let m1 = m.add(marks_of_functions(eq));
    lemma_ord_part(g, s1, st, l, m1);
    let (s2, ord) = crate::derive::ord_part(s1, st, l);
    let m2 = m1.add(marks_of_functions(ord));
    lemma_to_str_part(g, s2, st, l, m2);
    let (s3, to_str) = crate::derive::to_str_part(s2, st, l);
    let m3 = m2.add(marks_of_functions(to_str));
    lemma_clone_part(g, s3, st, l, m3);
    let (s4, cl) = crate::derive::clone_part(s3, st, l);
    lemma_append(eq, ord);
    lemma_append(eq.then_list(ord), to_str);
    lemma_append(eq.then_list(ord).then_list(to_str), cl);
    let fs = eq.then_list(ord).then_list(to_str).then_list(cl);
    assert(m3.add(marks_of_functions(cl)) =~= m.add(marks_of_functions(fs)));
}

proof fn lemma_members(g: SpanGen, s: Sess, l: List<FunctionItem>, m: Multiset<Span>)
    requires
        drawn(g, s.derive_spans, m.add(marks_of_functions(l))),
    ensures
        ({
            let (s1, ms) = crate::derive::as_members(s, l);
            drawn(g, s1.derive_spans, m.add(marks_of_members(ms)))
        }),
    decreases l,
{
    match l {
        List::Nil => {},
        List::Cons(h, t) => {
            let m0 = m.add(marks_of_functions(l));
            lemma_draw(g, s.derive_spans, m0);
            let s1 = s.derive_span_used();
            let public = s.derive_spans.span();
            lemma_draw(g, s1.derive_spans, m0.insert(public));
            let span = s1.derive_spans.span();
            let own = Multiset::singleton(public).add(marks_of_function(*h)).insert(span);
            assert(m0.insert(public).insert(span) =~= m.add(own).add(marks_of_functions(*t)));
            lemma_members(g, s1.derive_span_used(), *t, m.add(own));
            let (s2, rest) = crate::derive::as_members(s1.derive_span_used(), *t);
            assert(m.add(own).add(marks_of_members(rest)) =~= m.add(own.add(marks_of_members(rest))));
        },
    }
}

proof fn lemma_one_type(t: Type)
    ensures
        marks_of_types(List::one(t)) == marks_of_type(t),
{
    reveal_with_fuel(marks_of_types, 2);
    assert(marks_of_type(t).add(Multiset::empty()) =~= marks_of_type(t));
}

/// What an `extend` block takes.
pub open spec fn marks_of_block(x: ExtendItem, span: Span) -> Multiset<Span> {
    marks_of_members(x.members).add(marks_of_types(x.interfaces)).add(marks_of_type(x.target)).insert(span)
}

proof fn lemma_impl(g: SpanGen, s: Sess, st: StructItem, l: List<Symbol>, m: Multiset<Span>)
    requires
        drawn(g, s.derive_spans, m),
    ensures
        ({
            let (s1, it) = crate::derive::derived_impl(s, st, l);
            drawn(
                g,
                s1.derive_spans,
                m.add(
                    match it {
                        Some(x) => marks_of_block(x.kind->Extend_0, x.span),
                        None => Multiset::empty(),
                    },
                ),
            )
        }),
{
    assert(m.add(Multiset::empty()) =~= m);
    if !(st.generics is Some) {
        lemma_functions(g, s, st, l, m);
        let (s1, functions) = crate::derive::derived_functions(s, st, l);
        if !(functions is Nil) {
            lemma_members(g, s1, functions, m);
            let (s2, members) = crate::derive::as_members(s1, functions);
            let m1 = m.add(marks_of_members(members));
            lemma_named_ty(g, s2, crate::words::T_CLONE, m1);
            let (a, t) = crate::derive::a_named_ty(s2, crate::words::T_CLONE);
            lemma_one_type(t);
            let (s3, interfaces) = if crate::derive::derives(l, crate::words::T_CLONE) {
                (a, List::one(t))
            } else {
                (s2, List::Nil)
            };
            let m2 = m1.add(marks_of_types(interfaces));
            assert(m1.add(Multiset::empty()) =~= m1);
            lemma_named_ty(g, s3, st.name.name, m2);
            let (s4, target) = crate::derive::a_named_ty(s3, st.name.name);
            let m3 = m2.add(marks_of_type(target));
            lemma_draw(g, s4.derive_spans, m3);
            let x = ExtendItem { generics: None, target, interfaces, members };
            assert(m3.insert(s4.derive_spans.span()) =~= m.add(marks_of_block(x, s4.derive_spans.span())));
        }
    }
}

proof fn lemma_generated(g: SpanGen, s: Sess, l: List<Item>, m: Multiset<Span>)
    requires
        drawn(g, s.derive_spans, m),
    ensures
        ({
            let (s1, items) = crate::derive::generated(s, l);
            drawn(g, s1.derive_spans, m.add(marks_of_items(items)))
        }),
    decreases l,
{
    match l {
        List::Nil => {
            assert(m.add(Multiset::empty()) =~= m);
        },
        List::Cons(h, t) => match h.kind {
            ItemKind::Struct(st) => {
                let wanted = crate::derive::derives_of(h.attrs);
                if wanted is Nil {
                    lemma_generated(g, s, *t, m);
                } else {
                    lemma_impl(g, s, st, wanted, m);
                    let (s1, ext) = crate::derive::derived_impl(s, st, wanted);
                    match ext {
                        Some(it) => {
                            let own = marks_of_block(it.kind->Extend_0, it.span);
                            lemma_generated(g, s1, *t, m.add(own));
                            let (s2, rest) = crate::derive::generated(s1, *t);
                            let all = List::Cons(Box::new(it), Box::new(rest));
                            assert(marks_of_items(all) == own.add(marks_of_items(rest)));
                            assert(m.add(own).add(marks_of_items(rest)) =~= m.add(marks_of_items(all)));
                        },
                        None => {
                            assert(m.add(Multiset::empty()) =~= m);
                            lemma_generated(g, s1, *t, m);
                        },
                    }
                }
            },
            _ => lemma_generated(g, s, *t, m),
        },
    }
}

/// In the blocks that are generated for a module every span is one of its own:
/// none occurs twice, and none is a span of another file.
pub proof fn law_derived_spans(s: Sess, l: List<Item>)
    requires
        marks_of_items(crate::derive::generated(s, l).1).len() <= 0x1_0000_0000,
    ensures
        forall|x: Span| #[trigger] marks_of_items(crate::derive::generated(s, l).1).count(x) <= 1,
        forall|x: Span| #[trigger]
            marks_of_items(crate::derive::generated(s, l).1).count(x) > 0 ==> x.file == s.derive_spans.file,
{
    lemma_start(s.derive_spans);
    lemma_generated(s.derive_spans, s, l, Multiset::empty());
    let (s1, items) = crate::derive::generated(s, l);
    assert(Multiset::<Span>::empty().add(marks_of_items(items)) =~= marks_of_items(items));
    law_drawn_once(s.derive_spans, s1.derive_spans, marks_of_items(items));
}

} // verus!
