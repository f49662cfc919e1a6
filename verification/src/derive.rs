//! `@Derive(..)` expansion.
//!
//! A built-in derive is a source-level desugaring: for a struct annotated with
//! `@Derive(Eq)` (or `Ord`, `ToStr`, `Clone`) an `extend` block with the
//! corresponding methods, field by field, is added to the module. Nothing
//! downstream knows that it was generated. Generic structs are left alone.
use vstd::prelude::*;
use crate::ast::{
    AttrArg, Attribute, BinaryOp, Block, CastOp, Expr, ExprKind, ExtendItem, ExtendMember, FieldDecl, FieldInit,
    FunctionItem, Ident, Item, ItemKind, Module, ModuleItem, ModuleKind, Param, ParamKind, StringLit, StringPart,
    StructItem, StructKind, Type, TypeKind, TypePath, UnaryOp, Visibility,
};
use crate::dup::{dup_attribute_list, dup_item, dup_symbol_list};
use crate::list::List;
use crate::names::Symbol;
use crate::session::{Sess, Session};
use crate::subst::contains_name;
use crate::words::{
    BOOL, CLONE, CLOSE_BRACE_TEXT, CLOSE_PAREN_TEXT, COMMA_TEXT, DERIVE, EQ, GE, GT, LE, LT, OTHER, STR, TO_STR,
    T_CLONE, T_DERIVE, T_EQ, T_ORD, T_TO_STR,
};

verus! {

// -- builders: every node gets a span of its own ----------------------------------

pub open spec fn an_ident(s: Sess, name: Symbol) -> (Sess, Ident) {
    (s.derive_span_used(), Ident { name, span: s.derive_spans.span() })
}

fn ident(s: &mut Session, name: Symbol) -> (r: Ident)
    ensures
        (final(s).view(), r) == an_ident(old(s).view(), name),
{
    Ident { name, span: s.derive_span() }
}

/// `kind` as an expression.
pub open spec fn an_expr(s: Sess, kind: ExprKind) -> (Sess, Expr) {
    (s.derive_span_used(), Expr { kind, span: s.derive_spans.span() })
}

fn expr(s: &mut Session, kind: ExprKind) -> (r: Expr)
    ensures
        (final(s).view(), r) == an_expr(old(s).view(), kind),
{
    Expr { kind, span: s.derive_span() }
}

pub open spec fn an_ident_expr(s: Sess, name: Symbol) -> (Sess, Expr) {
    let (s1, id) = an_ident(s, name);
    an_expr(s1, ExprKind::Ident(id))
}

fn ident_expr(s: &mut Session, name: Symbol) -> (r: Expr)
    ensures
        (final(s).view(), r) == an_ident_expr(old(s).view(), name),
{
    let id = ident(s, name);
    expr(s, ExprKind::Ident(id))
}

fn self_expr(s: &mut Session) -> (r: Expr)
    ensures
        (final(s).view(), r) == an_expr(old(s).view(), ExprKind::SelfExpr),
{
    expr(s, ExprKind::SelfExpr)
}

fn bool_lit(s: &mut Session, b: bool) -> (r: Expr)
    ensures
        (final(s).view(), r) == an_expr(old(s).view(), ExprKind::Bool(b)),
{
    expr(s, ExprKind::Bool(b))
}

/// `receiver.name`
pub open spec fn a_field_access(s: Sess, receiver: Expr, name: Symbol) -> (Sess, Expr) {
    let (s1, id) = an_ident(s, name);
    an_expr(s1, ExprKind::Field { receiver: Box::new(receiver), name: id })
}

fn field_access(s: &mut Session, receiver: Expr, name: Symbol) -> (r: Expr)
    ensures
        (final(s).view(), r) == a_field_access(old(s).view(), receiver, name),
{
    let id = ident(s, name);
    expr(s, ExprKind::Field { receiver: Box::new(receiver), name: id })
}

/// `receiver.index`
pub open spec fn a_tuple_index(s: Sess, receiver: Expr, index: u32) -> (Sess, Expr) {
    let index_span = s.derive_spans.span();
    an_expr(s.derive_span_used(), ExprKind::TupleIndex { receiver: Box::new(receiver), index, index_span })
}

fn tuple_index(s: &mut Session, receiver: Expr, index: u32) -> (r: Expr)
    ensures
        (final(s).view(), r) == a_tuple_index(old(s).view(), receiver, index),
{
    let index_span = s.derive_span();
    expr(s, ExprKind::TupleIndex { receiver: Box::new(receiver), index, index_span })
}

/// `left op right`
pub open spec fn a_binary(s: Sess, op: BinaryOp, left: Expr, right: Expr) -> (Sess, Expr) {
    let op_span = s.derive_spans.span();
    an_expr(
        s.derive_span_used(),
        ExprKind::Binary { op, op_span, left: Box::new(left), right: Box::new(right) },
    )
}

fn binary(s: &mut Session, op: BinaryOp, left: Expr, right: Expr) -> (r: Expr)
    ensures
        (final(s).view(), r) == a_binary(old(s).view(), op, left, right),
{
    let op_span = s.derive_span();
    expr(s, ExprKind::Binary { op, op_span, left: Box::new(left), right: Box::new(right) })
}

/// `!operand`
pub open spec fn a_not(s: Sess, operand: Expr) -> (Sess, Expr) {
    let op_span = s.derive_spans.span();
    an_expr(s.derive_span_used(), ExprKind::Unary { op: UnaryOp::Not, op_span, operand: Box::new(operand) })
}

fn not(s: &mut Session, operand: Expr) -> (r: Expr)
    ensures
        (final(s).view(), r) == a_not(old(s).view(), operand),
{
    let op_span = s.derive_span();
    expr(s, ExprKind::Unary { op: UnaryOp::Not, op_span, operand: Box::new(operand) })
}

/// `receiver.name(args)`
pub open spec fn a_method_call(s: Sess, receiver: Expr, name: Symbol, args: List<Expr>) -> (Sess, Expr) {
    let (s1, callee) = a_field_access(s, receiver, name);
    an_expr(
        s1,
        ExprKind::Call { callee: Box::new(callee), generics: List::Nil, args, trailing_closure: None },
    )
}

fn method_call(s: &mut Session, receiver: Expr, name: Symbol, args: List<Expr>) -> (r: Expr)
    ensures
        (final(s).view(), r) == a_method_call(old(s).view(), receiver, name, args),
{
    let callee = field_access(s, receiver, name);
    expr(
        s,
        ExprKind::Call { callee: Box::new(callee), generics: List::Nil, args, trailing_closure: None },
    )
}

/// `receiver.clone()`
fn clone_call(s: &mut Session, receiver: Expr) -> (r: Expr)
    ensures
        (final(s).view(), r) == a_method_call(old(s).view(), receiver, CLONE, List::Nil),
{
    method_call(s, receiver, CLONE, List::Nil)
}

/// The type `name`, without arguments.
pub open spec fn a_named_ty(s: Sess, name: Symbol) -> (Sess, Type) {
    let (s1, id) = an_ident(s, name);
    (
        s1.derive_span_used(),
        Type { kind: TypeKind::Named { name: id, generics: List::Nil }, span: s1.derive_spans.span() },
    )
}

fn named_ty(s: &mut Session, name: Symbol) -> (r: Type)
    ensures
        (final(s).view(), r) == a_named_ty(old(s).view(), name),
{
    let id = ident(s, name);
    Type { kind: TypeKind::Named { name: id, generics: List::Nil }, span: s.derive_span() }
}

/// The string literal whose text is symbol `text`.
pub open spec fn a_str_lit(s: Sess, text: Symbol) -> (Sess, Expr) {
    let sp = s.derive_spans.span();
    let lit = StringLit { parts: List::one(StringPart::Text { text, span: sp }), span: sp };
    an_expr(s.derive_span_used(), ExprKind::Str(lit))
}

fn str_lit(s: &mut Session, text: Symbol) -> (r: Expr)
    ensures
        (final(s).view(), r) == a_str_lit(old(s).view(), text),
{
    let sp = s.derive_span();
    let lit = StringLit { parts: List::single(StringPart::Text { text, span: sp }), span: sp };
    expr(s, ExprKind::Str(lit))
}

/// `x as str`
pub open spec fn a_cast_to_str(s: Sess, x: Expr) -> (Sess, Expr) {
    let op_span = s.derive_spans.span();
    let (s1, ty) = a_named_ty(s.derive_span_used(), STR);
    an_expr(s1, ExprKind::Cast { op: CastOp::As, op_span, expr: Box::new(x), ty: Box::new(ty) })
}

fn cast_to_str(s: &mut Session, x: Expr) -> (r: Expr)
    ensures
        (final(s).view(), r) == a_cast_to_str(old(s).view(), x),
{
    let op_span = s.derive_span();
    let ty = named_ty(s, STR);
    expr(s, ExprKind::Cast { op: CastOp::As, op_span, expr: Box::new(x), ty: Box::new(ty) })
}

// -- fields -----------------------------------------------------------------------

/// How a field is reached: by name or by position.
#[derive(Debug)]
pub enum FieldKey {
    Named(Symbol),
    Index(u32),
}

pub open spec fn record_keys(l: List<FieldDecl>) -> List<FieldKey>
    decreases l,
{
    match l {
        List::Nil => List::Nil,
        List::Cons(h, t) => List::Cons(Box::new(FieldKey::Named(h.name.name)), Box::new(record_keys(*t))),
    }
}

pub open spec fn tuple_keys(l: List<Type>, i: u32) -> List<FieldKey>
    decreases l,
{
    match l {
        List::Nil => List::Nil,
        List::Cons(_, t) => List::Cons(
            Box::new(FieldKey::Index(i)),
            Box::new(tuple_keys(*t, i.wrapping_add(1))),
        ),
    }
}

/// The fields of a struct in declaration order.
pub open spec fn keys_of(k: StructKind) -> List<FieldKey> {
    match k {
        StructKind::Unit => List::Nil,
        StructKind::Record(fs) => record_keys(fs),
        StructKind::Tuple(ts) => tuple_keys(ts, 0),
    }
}

fn keys_of_record(l: &List<FieldDecl>) -> (r: List<FieldKey>)
    ensures
        r == record_keys(*l),
    decreases l,
{
    match l {
        List::Nil => List::Nil,
        List::Cons(h, t) => List::Cons(Box::new(FieldKey::Named(h.name.name)), Box::new(keys_of_record(t))),
    }
}

fn keys_of_tuple(l: &List<Type>, i: u32) -> (r: List<FieldKey>)
    ensures
        r == tuple_keys(*l, i),
    decreases l,
{
    match l {
        List::Nil => List::Nil,
        List::Cons(_, t) => List::Cons(
            Box::new(FieldKey::Index(i)),
            Box::new(keys_of_tuple(t, i.wrapping_add(1))),
        ),
    }
}

fn field_keys(k: &StructKind) -> (r: List<FieldKey>)
    ensures
        r == keys_of(*k),
{
    match k {
        StructKind::Unit => List::Nil,
        StructKind::Record(fs) => keys_of_record(fs),
        StructKind::Tuple(ts) => keys_of_tuple(ts, 0),
    }
}

/// `base.f`
pub open spec fn a_field(s: Sess, base: Expr, k: FieldKey) -> (Sess, Expr) {
    match k {
        FieldKey::Named(n) => a_field_access(s, base, n),
        FieldKey::Index(i) => a_tuple_index(s, base, i),
    }
}

fn field_at(s: &mut Session, base: Expr, k: &FieldKey) -> (r: Expr)
    ensures
        (final(s).view(), r) == a_field(old(s).view(), base, *k),
{
    match k {
        FieldKey::Named(n) => field_access(s, base, *n),
        FieldKey::Index(i) => tuple_index(s, base, *i),
    }
}

/// `self.f`
pub open spec fn a_self_field(s: Sess, k: FieldKey) -> (Sess, Expr) {
    let (s1, base) = an_expr(s, ExprKind::SelfExpr);
    a_field(s1, base, k)
}

fn self_field(s: &mut Session, k: &FieldKey) -> (r: Expr)
    ensures
        (final(s).view(), r) == a_self_field(old(s).view(), *k),
{
    let base = self_expr(s);
    field_at(s, base, k)
}

/// `other.f`
pub open spec fn an_other_field(s: Sess, k: FieldKey) -> (Sess, Expr) {
    let (s1, base) = an_ident_expr(s, OTHER);
    a_field(s1, base, k)
}

fn other_field(s: &mut Session, k: &FieldKey) -> (r: Expr)
    ensures
        (final(s).view(), r) == an_other_field(old(s).view(), *k),
{
    let base = ident_expr(s, OTHER);
    field_at(s, base, k)
}

/// `self.f op other.f`
pub open spec fn a_field_cmp(s: Sess, op: BinaryOp, k: FieldKey) -> (Sess, Expr) {
    let (s1, a) = a_self_field(s, k);
    let (s2, b) = an_other_field(s1, k);
    a_binary(s2, op, a, b)
}

fn field_cmp(s: &mut Session, op: BinaryOp, k: &FieldKey) -> (r: Expr)
    ensures
        (final(s).view(), r) == a_field_cmp(old(s).view(), op, *k),
{
    let a = self_field(s, k);
    let b = other_field(s, k);
    binary(s, op, a, b)
}

/// All comparisons `self.f op other.f`, in field order.
pub open spec fn all_field_cmps(s: Sess, op: BinaryOp, l: List<FieldKey>) -> (Sess, List<Expr>)
    decreases l,
{
    match l {
        List::Nil => (s, List::Nil),
        List::Cons(h, t) => {
            let (s1, x) = a_field_cmp(s, op, *h);
            let (s2, xs) = all_field_cmps(s1, op, *t);
            (s2, List::Cons(Box::new(x), Box::new(xs)))
        },
    }
}

fn field_cmps(s: &mut Session, op: BinaryOp, l: &List<FieldKey>) -> (r: List<Expr>)
    ensures
        (final(s).view(), r) == all_field_cmps(old(s).view(), op, *l),
    decreases l,
{
    match l {
        List::Nil => List::Nil,
        List::Cons(h, t) => {
            let x = field_cmp(s, op, h);
            let xs = field_cmps(s, op, t);
            List::Cons(Box::new(x), Box::new(xs))
        },
    }
}

/// `acc op x0 op x1 op ..`, associating to the left.
pub open spec fn chained(s: Sess, op: BinaryOp, acc: Expr, l: List<Expr>) -> (Sess, Expr)
    decreases l,
{
    match l {
        List::Nil => (s, acc),
        List::Cons(h, t) => {
            let (s1, x) = a_binary(s, op, acc, *h);
            chained(s1, op, x, *t)
        },
    }
}

fn chain(s: &mut Session, op: BinaryOp, acc: Expr, l: List<Expr>) -> (r: Expr)
    ensures
        (final(s).view(), r) == chained(old(s).view(), op, acc, l),
    decreases l,
{
    match l {
        List::Nil => acc,
        List::Cons(h, t) => {
            let x = binary(s, op, acc, *h);
            chain(s, op, x, *t)
        },
    }
}

/// The conjunction of `l`; of nothing, `true`.
pub open spec fn conjoined(s: Sess, l: List<Expr>) -> (Sess, Expr) {
    match l {
        List::Nil => an_expr(s, ExprKind::Bool(true)),
        List::Cons(h, t) => chained(s, BinaryOp::And, *h, *t),
    }
}

fn conjoin(s: &mut Session, l: List<Expr>) -> (r: Expr)
    ensures
        (final(s).view(), r) == conjoined(old(s).view(), l),
{
    match l {
        List::Nil => bool_lit(s, true),
        List::Cons(h, t) => chain(s, BinaryOp::And, *h, *t),
    }
}

/// Lexicographic `<` over the fields `l`:
/// `self.f < other.f || (self.f == other.f && rest)`; over none, `false`.
pub open spec fn lex_less(s: Sess, l: List<FieldKey>) -> (Sess, Expr)
    decreases l,
{
    match l {
        List::Nil => an_expr(s, ExprKind::Bool(false)),
        List::Cons(h, t) => {
            let (s1, lt) = a_field_cmp(s, BinaryOp::Lt, *h);
            if *t is Nil {
                (s1, lt)
            } else {
                let (s2, eq) = a_field_cmp(s1, BinaryOp::Eq, *h);
                let (s3, rest) = lex_less(s2, *t);
                let (s4, both) = a_binary(s3, BinaryOp::And, eq, rest);
                a_binary(s4, BinaryOp::Or, lt, both)
            }
        },
    }
}

fn lex_lt(s: &mut Session, l: &List<FieldKey>) -> (r: Expr)
    ensures
        (final(s).view(), r) == lex_less(old(s).view(), *l),
    decreases l,
{
    match l {
        List::Nil => bool_lit(s, false),
        List::Cons(h, t) => {
            let lt = field_cmp(s, BinaryOp::Lt, h);
            if t.is_empty() {
                return lt;
            }
            let eq = field_cmp(s, BinaryOp::Eq, h);
            let rest = lex_lt(s, t);
            let both = binary(s, BinaryOp::And, eq, rest);
            binary(s, BinaryOp::Or, lt, both)
        },
    }
}

// -- methods ------------------------------------------------------------------------

/// `function name(self): ret { body }`, with the further parameters `rest`.
pub open spec fn a_function(
    s: Sess,
    name: Ident,
    params: List<Param>,
    ret: Symbol,
    body: Expr,
) -> (Sess, FunctionItem) {
    let (s1, ty) = a_named_ty(s, ret);
    let block = Block { stmts: List::Nil, trailing: Some(Box::new(body)), span: s1.derive_spans.span() };
    (
        s1.derive_span_used(),
        FunctionItem {
            name,
            generics: None,
            params,
            return_type: Some(ty),
            is_async: false,
            body: Some(block),
        },
    )
}

fn function(s: &mut Session, name: Ident, params: List<Param>, ret: Symbol, body: Expr) -> (r: FunctionItem)
    ensures
        (final(s).view(), r) == a_function(old(s).view(), name, params, ret, body),
{
    let ty = named_ty(s, ret);
    let block = Block { stmts: List::Nil, trailing: Some(Box::new(body)), span: s.derive_span() };
    FunctionItem { name, generics: None, params, return_type: Some(ty), is_async: false, body: Some(block) }
}

/// `function name(self, other: S): bool { body }`
pub open spec fn a_cmp_method(s: Sess, name: Symbol, struct_name: Symbol, body: Expr) -> (Sess, FunctionItem) {
    let (s1, id) = an_ident(s, name);
    let p0 = Param { kind: ParamKind::SelfParam, span: s1.derive_spans.span() };
    let (s2, other) = an_ident(s1.derive_span_used(), OTHER);
    let (s3, ty) = a_named_ty(s2, struct_name);
    let p1 = Param { kind: ParamKind::Normal { name: other, ty }, span: s3.derive_spans.span() };
    a_function(s3.derive_span_used(), id, List::two(p0, p1), BOOL, body)
}

fn cmp_method(s: &mut Session, name: Symbol, struct_name: Symbol, body: Expr) -> (r: FunctionItem)
    ensures
        (final(s).view(), r) == a_cmp_method(old(s).view(), name, struct_name, body),
{
    let id = ident(s, name);
    let p0 = Param { kind: ParamKind::SelfParam, span: s.derive_span() };
    let other = ident(s, OTHER);
    let ty = named_ty(s, struct_name);
    let p1 = Param { kind: ParamKind::Normal { name: other, ty }, span: s.derive_span() };
    function(s, id, List::pair(p0, p1), BOOL, body)
}

/// `function name(self): ret { body }`
pub open spec fn a_self_method(s: Sess, name: Symbol, ret: Symbol, body: Expr) -> (Sess, FunctionItem) {
    let (s1, id) = an_ident(s, name);
    let p0 = Param { kind: ParamKind::SelfParam, span: s1.derive_spans.span() };
    a_function(s1.derive_span_used(), id, List::one(p0), ret, body)
}

fn self_method(s: &mut Session, name: Symbol, ret: Symbol, body: Expr) -> (r: FunctionItem)
    ensures
        (final(s).view(), r) == a_self_method(old(s).view(), name, ret, body),
{
    let id = ident(s, name);
    let p0 = Param { kind: ParamKind::SelfParam, span: s.derive_span() };
    function(s, id, List::single(p0), ret, body)
}

/// `eq`: every field equal.
pub open spec fn derived_eq(s: Sess, st: StructItem) -> (Sess, FunctionItem) {
    let (s1, parts) = all_field_cmps(s, BinaryOp::Eq, keys_of(st.kind));
    let (s2, body) = conjoined(s1, parts);
    a_cmp_method(s2, EQ, st.name.name, body)
}

fn synth_eq(s: &mut Session, st: &StructItem) -> (r: FunctionItem)
    ensures
        (final(s).view(), r) == derived_eq(old(s).view(), *st),
{
    let keys = field_keys(&st.kind);
    let parts = field_cmps(s, BinaryOp::Eq, &keys);
    let body = conjoin(s, parts);
    cmp_method(s, EQ, st.name.name, body)
}

/// `lt`: lexicographic in declaration order.
pub open spec fn derived_lt(s: Sess, st: StructItem) -> (Sess, FunctionItem) {
    let (s1, body) = lex_less(s, keys_of(st.kind));
    a_cmp_method(s1, LT, st.name.name, body)
}

fn synth_lt(s: &mut Session, st: &StructItem) -> (r: FunctionItem)
    ensures
        (final(s).view(), r) == derived_lt(old(s).view(), *st),
{
    let keys = field_keys(&st.kind);
    let body = lex_lt(s, &keys);
    cmp_method(s, LT, st.name.name, body)
}

/// `self.name(other)`
pub open spec fn a_self_call(s: Sess, name: Symbol) -> (Sess, Expr) {
    let (s1, recv) = an_expr(s, ExprKind::SelfExpr);
    let (s2, arg) = an_ident_expr(s1, OTHER);
    a_method_call(s2, recv, name, List::one(arg))
}

fn self_call(s: &mut Session, name: Symbol) -> (r: Expr)
    ensures
        (final(s).view(), r) == a_self_call(old(s).view(), name),
{
    let recv = self_expr(s);
    let arg = ident_expr(s, OTHER);
    method_call(s, recv, name, List::single(arg))
}

/// `le`: `self.lt(other) || self.eq(other)`.
pub open spec fn derived_le(s: Sess, name: Symbol) -> (Sess, FunctionItem) {
    let (s1, a) = a_self_call(s, LT);
    let (s2, b) = a_self_call(s1, EQ);
    let (s3, body) = a_binary(s2, BinaryOp::Or, a, b);
    a_cmp_method(s3, LE, name, body)
}

fn synth_le(s: &mut Session, name: Symbol) -> (r: FunctionItem)
    ensures
        (final(s).view(), r) == derived_le(old(s).view(), name),
{
    let a = self_call(s, LT);
    let b = self_call(s, EQ);
    let body = binary(s, BinaryOp::Or, a, b);
    cmp_method(s, LE, name, body)
}

/// `gt`: `!self.le(other)`.
pub open spec fn derived_gt(s: Sess, name: Symbol) -> (Sess, FunctionItem) {
    let (s1, a) = a_self_call(s, LE);
    let (s2, body) = a_not(s1, a);
    a_cmp_method(s2, GT, name, body)
}

fn synth_gt(s: &mut Session, name: Symbol) -> (r: FunctionItem)
    ensures
        (final(s).view(), r) == derived_gt(old(s).view(), name),
{
    let a = self_call(s, LE);
    let body = not(s, a);
    cmp_method(s, GT, name, body)
}

/// `ge`: `!self.lt(other)`.
pub open spec fn derived_ge(s: Sess, name: Symbol) -> (Sess, FunctionItem) {
    let (s1, a) = a_self_call(s, LT);
    let (s2, body) = a_not(s1, a);
    a_cmp_method(s2, GE, name, body)
}

fn synth_ge(s: &mut Session, name: Symbol) -> (r: FunctionItem)
    ensures
        (final(s).view(), r) == derived_ge(old(s).view(), name),
{
    let a = self_call(s, LT);
    let body = not(s, a);
    cmp_method(s, GE, name, body)
}

// -- to_str -------------------------------------------------------------------------

/// The pieces of a record's text from field list `l` on: for each field its
/// label (after a comma unless it is the `first`) and its value, then ` }`.
pub open spec fn record_pieces(s: Sess, l: List<FieldDecl>, first: bool) -> (Sess, List<Expr>)
    decreases l,
{
    match l {
        List::Nil => {
            let (s1, x) = a_str_lit(s, CLOSE_BRACE_TEXT);
            (s1, List::one(x))
        },
        List::Cons(h, t) => {
            let label = if first {
                s.text(h.name.name) + ": "@
            } else {
                ", "@ + s.text(h.name.name) + ": "@
            };
            let (s0, sym) = s.interned(label);
            let (s1, lit) = a_str_lit(s0, sym);
            let (s2, recv) = an_expr(s1, ExprKind::SelfExpr);
            let (s3, acc) = a_field_access(s2, recv, h.name.name);
            let (s4, val) = a_cast_to_str(s3, acc);
            let (s5, rest) = record_pieces(s4, *t, false);
            (s5, List::Cons(Box::new(lit), Box::new(List::Cons(Box::new(val), Box::new(rest)))))
        },
    }
}

fn pieces_of_record(s: &mut Session, l: &List<FieldDecl>, first: bool) -> (r: List<Expr>)
    ensures
        (final(s).view(), r) == record_pieces(old(s).view(), *l, first),
    decreases l,
{
    match l {
        List::Nil => List::single(str_lit(s, CLOSE_BRACE_TEXT)),
        List::Cons(h, t) => {
            let name = s.names.text(h.name.name).to_owned();
            let label = if first {
                name.concat(": ")
            } else {
                ", ".to_owned().concat(name.as_str()).concat(": ")
            };
            let sym = s.intern(label.as_str());
            let lit = str_lit(s, sym);
            let recv = self_expr(s);
            let acc = field_access(s, recv, h.name.name);
            let val = cast_to_str(s, acc);
            let rest = pieces_of_record(s, t, false);
            List::Cons(Box::new(lit), Box::new(List::Cons(Box::new(val), Box::new(rest))))
        },
    }
}

/// The pieces of a tuple struct's text from position `i` on: the values with
/// commas between them, then `)`.
pub open spec fn tuple_pieces(s: Sess, l: List<Type>, i: u32, first: bool) -> (Sess, List<Expr>)
    decreases l,
{
    match l {
        List::Nil => {
            let (s1, x) = a_str_lit(s, CLOSE_PAREN_TEXT);
            (s1, List::one(x))
        },
        List::Cons(_, t) => if first {
            let (s2, recv) = an_expr(s, ExprKind::SelfExpr);
            let (s3, acc) = a_tuple_index(s2, recv, i);
            let (s4, val) = a_cast_to_str(s3, acc);
            let (s5, rest) = tuple_pieces(s4, *t, i.wrapping_add(1), false);
            (s5, List::Cons(Box::new(val), Box::new(rest)))
        } else {
            let (s1, comma) = a_str_lit(s, COMMA_TEXT);
            let (s2, recv) = an_expr(s1, ExprKind::SelfExpr);
            let (s3, acc) = a_tuple_index(s2, recv, i);
            let (s4, val) = a_cast_to_str(s3, acc);
            let (s5, rest) = tuple_pieces(s4, *t, i.wrapping_add(1), false);
            (s5, List::Cons(Box::new(comma), Box::new(List::Cons(Box::new(val), Box::new(rest)))))
        },
    }
}

fn pieces_of_tuple(s: &mut Session, l: &List<Type>, i: u32, first: bool) -> (r: List<Expr>)
    ensures
        (final(s).view(), r) == tuple_pieces(old(s).view(), *l, i, first),
    decreases l,
{
    match l {
        List::Nil => List::single(str_lit(s, CLOSE_PAREN_TEXT)),
        List::Cons(_, t) => {
            if first {
                let recv = self_expr(s);
                let acc = tuple_index(s, recv, i);
                let val = cast_to_str(s, acc);
                let rest = pieces_of_tuple(s, t, i.wrapping_add(1), false);
                List::Cons(Box::new(val), Box::new(rest))
            } else {
                let comma = str_lit(s, COMMA_TEXT);
                let recv = self_expr(s);
                let acc = tuple_index(s, recv, i);
                let val = cast_to_str(s, acc);
                let rest = pieces_of_tuple(s, t, i.wrapping_add(1), false);
                List::Cons(Box::new(comma), Box::new(List::Cons(Box::new(val), Box::new(rest))))
            }
        },
    }
}

/// `to_str`: `S { f: <f>, .. }` or `S(<0>, ..)` or `S`, joined with `+`.
pub open spec fn to_str_body(s: Sess, st: StructItem) -> (Sess, Expr) {
    match st.kind {
        StructKind::Unit => a_str_lit(s, st.name.name),
        StructKind::Record(fields) => {
            let (s0, sym) = s.interned(s.text(st.name.name) + " { "@);
            let (s1, head) = a_str_lit(s0, sym);
            let (s2, rest) = record_pieces(s1, fields, true);
            chained(s2, BinaryOp::Add, head, rest)
        },
        StructKind::Tuple(tys) => {
            let (s0, sym) = s.interned(s.text(st.name.name) + "("@);
            let (s1, head) = a_str_lit(s0, sym);
            let (s2, rest) = tuple_pieces(s1, tys, 0, true);
            chained(s2, BinaryOp::Add, head, rest)
        },
    }
}

pub open spec fn derived_to_str(s: Sess, st: StructItem) -> (Sess, FunctionItem) {
    let (s1, body) = to_str_body(s, st);
    a_self_method(s1, TO_STR, STR, body)
}

fn synth_to_str(s: &mut Session, st: &StructItem) -> (r: FunctionItem)
    ensures
        (final(s).view(), r) == derived_to_str(old(s).view(), *st),
{
    let body = match &st.kind {
        StructKind::Unit => str_lit(s, st.name.name),
        StructKind::Record(fields) => {
            let text = s.names.text(st.name.name).to_owned().concat(" { ");
            let sym = s.intern(text.as_str());
            let head = str_lit(s, sym);
            let rest = pieces_of_record(s, fields, true);
            chain(s, BinaryOp::Add, head, rest)
        },
        StructKind::Tuple(tys) => {
            let text = s.names.text(st.name.name).to_owned().concat("(");
            let sym = s.intern(text.as_str());
            let head = str_lit(s, sym);
            let rest = pieces_of_tuple(s, tys, 0, true);
            chain(s, BinaryOp::Add, head, rest)
        },
    };
    self_method(s, TO_STR, STR, body)
}

// -- clone --------------------------------------------------------------------------

/// `f: self.f.clone()` for each field.
pub open spec fn clone_inits(s: Sess, l: List<FieldDecl>) -> (Sess, List<FieldInit>)
    decreases l,
{
    match l {
        List::Nil => (s, List::Nil),
        List::Cons(h, t) => {
            let (s1, name) = an_ident(s, h.name.name);
            let (s2, recv) = an_expr(s1, ExprKind::SelfExpr);
            let (s3, acc) = a_field_access(s2, recv, h.name.name);
            let (s4, val) = a_method_call(s3, acc, CLONE, List::Nil);
            let init = FieldInit { name, value: Some(val), span: s4.derive_spans.span() };
            let (s5, rest) = clone_inits(s4.derive_span_used(), *t);
            (s5, List::Cons(Box::new(init), Box::new(rest)))
        },
    }
}

fn inits_of_clone(s: &mut Session, l: &List<FieldDecl>) -> (r: List<FieldInit>)
    ensures
        (final(s).view(), r) == clone_inits(old(s).view(), *l),
    decreases l,
{
    match l {
        List::Nil => List::Nil,
        List::Cons(h, t) => {
            let name = ident(s, h.name.name);
            let recv = self_expr(s);
            let acc = field_access(s, recv, h.name.name);
            let val = clone_call(s, acc);
            let init = FieldInit { name, value: Some(val), span: s.derive_span() };
            let rest = inits_of_clone(s, t);
            List::Cons(Box::new(init), Box::new(rest))
        },
    }
}

/// `self.i.clone()` for each position.
pub open spec fn clone_args(s: Sess, l: List<Type>, i: u32) -> (Sess, List<Expr>)
    decreases l,
{
    match l {
        List::Nil => (s, List::Nil),
        List::Cons(_, t) => {
            let (s1, recv) = an_expr(s, ExprKind::SelfExpr);
            let (s2, acc) = a_tuple_index(s1, recv, i);
            let (s3, val) = a_method_call(s2, acc, CLONE, List::Nil);
            let (s4, rest) = clone_args(s3, *t, i.wrapping_add(1));
            (s4, List::Cons(Box::new(val), Box::new(rest)))
        },
    }
}

fn args_of_clone(s: &mut Session, l: &List<Type>, i: u32) -> (r: List<Expr>)
    ensures
        (final(s).view(), r) == clone_args(old(s).view(), *l, i),
    decreases l,
{
    match l {
        List::Nil => List::Nil,
        List::Cons(_, t) => {
            let recv = self_expr(s);
            let acc = tuple_index(s, recv, i);
            let val = clone_call(s, acc);
            let rest = args_of_clone(s, t, i.wrapping_add(1));
            List::Cons(Box::new(val), Box::new(rest))
        },
    }
}

/// `clone`: a value of the same shape with every field cloned.
pub open spec fn clone_body(s: Sess, st: StructItem) -> (Sess, Expr) {
    match st.kind {
        StructKind::Unit => an_ident_expr(s, st.name.name),
        StructKind::Record(fields) => {
            let (s1, inits) = clone_inits(s, fields);
            let (s2, name) = an_ident(s1, st.name.name);
            let path = TypePath { name, generics: List::Nil, span: s2.derive_spans.span() };
            an_expr(s2.derive_span_used(), ExprKind::StructLit { path, fields: inits, spread: None })
        },
        StructKind::Tuple(tys) => {
            let (s1, args) = clone_args(s, tys, 0);
            let (s2, callee) = an_ident_expr(s1, st.name.name);
            an_expr(
                s2,
                ExprKind::Call { callee: Box::new(callee), generics: List::Nil, args, trailing_closure: None },
            )
        },
    }
}

pub open spec fn derived_clone(s: Sess, st: StructItem) -> (Sess, FunctionItem) {
    let (s1, body) = clone_body(s, st);
    a_self_method(s1, CLONE, st.name.name, body)
}

fn synth_clone(s: &mut Session, st: &StructItem) -> (r: FunctionItem)
    ensures
        (final(s).view(), r) == derived_clone(old(s).view(), *st),
{
    let body = match &st.kind {
        StructKind::Unit => ident_expr(s, st.name.name),
        StructKind::Record(fields) => {
            let inits = inits_of_clone(s, fields);
            let name = ident(s, st.name.name);
            let path = TypePath { name, generics: List::Nil, span: s.derive_span() };
            expr(s, ExprKind::StructLit { path, fields: inits, spread: None })
        },
        StructKind::Tuple(tys) => {
            let args = args_of_clone(s, tys, 0);
            let callee = ident_expr(s, st.name.name);
            expr(
                s,
                ExprKind::Call { callee: Box::new(callee), generics: List::Nil, args, trailing_closure: None },
            )
        },
    };
    self_method(s, CLONE, st.name.name, body)
}

// -- the expansion --------------------------------------------------------------------

/// The derivable interfaces.
pub open spec fn is_known_derive(name: Symbol) -> bool {
    name == T_EQ || name == T_ORD || name == T_TO_STR || name == T_CLONE
}

fn known_derive(name: Symbol) -> (r: bool)
    ensures
        r == is_known_derive(name),
{
    name == T_EQ || name == T_ORD || name == T_TO_STR || name == T_CLONE
}

/// The derivable interfaces named among the arguments of a decorator.
pub open spec fn derives_in(l: List<AttrArg>) -> List<Symbol>
    decreases l,
{
    match l {
        List::Nil => List::Nil,
        List::Cons(h, t) => match *h {
            AttrArg::Positional(e) => match e.kind {
                ExprKind::Ident(id) => if is_known_derive(id.name) {
                    List::Cons(Box::new(id.name), Box::new(derives_in(*t)))
                } else {
                    derives_in(*t)
                },
                _ => derives_in(*t),
            },
            AttrArg::Named { .. } => derives_in(*t),
        },
    }
}

fn derives_of_args(l: &List<AttrArg>) -> (r: List<Symbol>)
    ensures
        r == derives_in(*l),
    decreases l,
{
    match l {
        List::Nil => List::Nil,
        List::Cons(h, t) => {
            let rest = derives_of_args(t);
            match &**h {
                AttrArg::Positional(e) => match &e.kind {
                    ExprKind::Ident(id) => if known_derive(id.name) {
                        List::Cons(Box::new(id.name), Box::new(rest))
                    } else {
                        rest
                    },
                    _ => rest,
                },
                AttrArg::Named { .. } => rest,
            }
        },
    }
}

/// The derivable interfaces named in `@Derive(..)` decorators (also spelled
/// `@derive`).
pub open spec fn derives_of(attrs: List<Attribute>) -> List<Symbol>
    decreases attrs,
{
    match attrs {
        List::Nil => List::Nil,
        List::Cons(h, t) => if h.name.name == T_DERIVE || h.name.name == DERIVE {
            derives_in(h.args).then_list(derives_of(*t))
        } else {
            derives_of(*t)
        },
    }
}

fn derived_interfaces(attrs: &List<Attribute>) -> (r: List<Symbol>)
    ensures
        r == derives_of(*attrs),
    decreases attrs,
{
    match attrs {
        List::Nil => List::Nil,
        List::Cons(h, t) => {
            let rest = derived_interfaces(t);
            if h.name.name == T_DERIVE || h.name.name == DERIVE {
                derives_of_args(&h.args).append(rest)
            } else {
                rest
            }
        },
    }
}

pub open spec fn derives(l: List<Symbol>, name: Symbol) -> bool {
    crate::subst::has_name(l, name)
}

/// `eq`, which `Ord` implies.
#[verifier::opaque]
pub open spec fn eq_part(s: Sess, st: StructItem, l: List<Symbol>) -> (Sess, List<FunctionItem>) {
    if derives(l, T_EQ) || derives(l, T_ORD) {
        let (a, f) = derived_eq(s, st);
        (a, List::one(f))
    } else {
        (s, List::Nil)
    }
}

/// The four orderings.
#[verifier::opaque]
pub open spec fn ord_part(s: Sess, st: StructItem, l: List<Symbol>) -> (Sess, List<FunctionItem>) {
    if derives(l, T_ORD) {
        let (a, lt) = derived_lt(s, st);
        let (b, le) = derived_le(a, st.name.name);
        let (c, gt) = derived_gt(b, st.name.name);
        let (d, ge) = derived_ge(c, st.name.name);
        (d, List::two(lt, le).then_list(List::two(gt, ge)))
    } else {
        (s, List::Nil)
    }
}

#[verifier::opaque]
pub open spec fn to_str_part(s: Sess, st: StructItem, l: List<Symbol>) -> (Sess, List<FunctionItem>) {
    if derives(l, T_TO_STR) {
        let (a, f) = derived_to_str(s, st);
        (a, List::one(f))
    } else {
        (s, List::Nil)
    }
}

#[verifier::opaque]
pub open spec fn clone_part(s: Sess, st: StructItem, l: List<Symbol>) -> (Sess, List<FunctionItem>) {
    if derives(l, T_CLONE) {
        let (a, f) = derived_clone(s, st);
        (a, List::one(f))
    } else {
        (s, List::Nil)
    }
}

/// The derived methods in order: `eq`, the four orderings, `to_str` and `clone`.
pub open spec fn derived_functions(s: Sess, st: StructItem, l: List<Symbol>) -> (Sess, List<FunctionItem>) {
    let (s1, eq) = eq_part(s, st, l);
    let (s2, ord) = ord_part(s1, st, l);
    let (s3, to_str) = to_str_part(s2, st, l);
    let (s4, cl) = clone_part(s3, st, l);
    (s4, eq.then_list(ord).then_list(to_str).then_list(cl))
}

fn synth_functions(s: &mut Session, st: &StructItem, l: &List<Symbol>) -> (r: List<FunctionItem>)
    ensures
        (final(s).view(), r) == derived_functions(old(s).view(), *st, *l),
{
    proof {
        reveal(eq_part);
        reveal(ord_part);
        reveal(to_str_part);
        reveal(clone_part);
    }
    let name = st.name.name;
    let eq = if contains_name(l, T_EQ) || contains_name(l, T_ORD) {
        List::single(synth_eq(s, st))
    } else {
        List::Nil
    };
    let ord = if contains_name(l, T_ORD) {
        let lt = synth_lt(s, st);
        let le = synth_le(s, name);
        let gt = synth_gt(s, name);
        let ge = synth_ge(s, name);
        List::pair(lt, le).append(List::pair(gt, ge))
    } else {
        List::Nil
    };
    let to_str = if contains_name(l, T_TO_STR) {
        List::single(synth_to_str(s, st))
    } else {
        List::Nil
    };
    let cl = if contains_name(l, T_CLONE) {
        List::single(synth_clone(s, st))
    } else {
        List::Nil
    };
    eq.append(ord).append(to_str).append(cl)
}

/// The functions as public members of an `extend` block.
pub open spec fn as_members(s: Sess, l: List<FunctionItem>) -> (Sess, List<ExtendMember>)
    decreases l,
{
    match l {
        List::Nil => (s, List::Nil),
        List::Cons(h, t) => {
            let s1 = s.derive_span_used();
            let m = ExtendMember {
                docs: List::Nil,
                attrs: List::Nil,
                visibility: Visibility::Public(s.derive_spans.span()),
                function: *h,
                span: s1.derive_spans.span(),
            };
            let (s2, rest) = as_members(s1.derive_span_used(), *t);
            (s2, List::Cons(Box::new(m), Box::new(rest)))
        },
    }
}

fn members_of(s: &mut Session, l: List<FunctionItem>) -> (r: List<ExtendMember>)
    ensures
        (final(s).view(), r) == as_members(old(s).view(), l),
    decreases l,
{
    match l {
        List::Nil => List::Nil,
        List::Cons(h, t) => {
            let visibility = Visibility::Public(s.derive_span());
            let m = ExtendMember {
                docs: List::Nil,
                attrs: List::Nil,
                visibility,
                function: *h,
                span: s.derive_span(),
            };
            let rest = members_of(s, *t);
            List::Cons(Box::new(m), Box::new(rest))
        },
    }
}

/// The `extend` block that implements the interfaces `l` for `st`. `Clone` is
/// dispatched through bounds and interface objects, so the block declares it;
/// the others are found by operator or name.
pub open spec fn derived_impl(s: Sess, st: StructItem, l: List<Symbol>) -> (Sess, Option<Item>) {
    if st.generics is Some {
        (s, None)
    } else {
        let (s1, functions) = derived_functions(s, st, l);
        if functions is Nil {
            (s1, None)
        } else {
            let (s2, members) = as_members(s1, functions);
            let (s3, interfaces) = if derives(l, T_CLONE) {
                let (a, t) = a_named_ty(s2, T_CLONE);
                (a, List::one(t))
            } else {
                (s2, List::Nil)
            };
            let (s4, target) = a_named_ty(s3, st.name.name);
            let kind = ItemKind::Extend(ExtendItem { generics: None, target, interfaces, members });
            (
                s4.derive_span_used(),
                Some(
                    Item {
                        docs: List::Nil,
                        attrs: List::Nil,
                        visibility: Visibility::Private,
                        kind,
                        span: s4.derive_spans.span(),
                    },
                ),
            )
        }
    }
}

fn synth_impl(s: &mut Session, st: &StructItem, l: &List<Symbol>) -> (r: Option<Item>)
    ensures
        (final(s).view(), r) == derived_impl(old(s).view(), *st, *l),
{
    if st.generics.is_some() {
        return None;
    }
    let functions = synth_functions(s, st, l);
    if functions.is_empty() {
        return None;
    }
    let members = members_of(s, functions);
    let interfaces = if contains_name(l, T_CLONE) {
        List::single(named_ty(s, T_CLONE))
    } else {
        List::Nil
    };
    let target = named_ty(s, st.name.name);
    let kind = ItemKind::Extend(ExtendItem { generics: None, target, interfaces, members });
    Some(
        Item {
            docs: List::Nil,
            attrs: List::Nil,
            visibility: Visibility::Private,
            kind,
            span: s.derive_span(),
        },
    )
}

/// The `extend` blocks that the structs of `l` ask for, in order.
pub open spec fn generated(s: Sess, l: List<Item>) -> (Sess, List<Item>)
    decreases l,
{
    match l {
        List::Nil => (s, List::Nil),
        List::Cons(h, t) => match h.kind {
            ItemKind::Struct(st) => if derives_of(h.attrs) is Nil {
                generated(s, *t)
            } else {
                let (s1, ext) = derived_impl(s, st, derives_of(h.attrs));
                let (s2, rest) = generated(s1, *t);
                match ext {
                    Some(it) => (s2, List::Cons(Box::new(it), Box::new(rest))),
                    None => (s2, rest),
                }
            },
            _ => generated(s, *t),
        },
    }
}

fn generate(s: &mut Session, l: &List<Item>) -> (r: List<Item>)
    ensures
        (final(s).view(), r) == generated(old(s).view(), *l),
    decreases l,
{
    match l {
        List::Nil => List::Nil,
        List::Cons(h, t) => {
            if let ItemKind::Struct(st) = &h.kind {
                let wanted = derived_interfaces(&h.attrs);
                if !wanted.is_empty() {
                    let ext = synth_impl(s, st, &wanted);
                    let rest = generate(s, t);
                    return match ext {
                        Some(it) => List::Cons(Box::new(it), Box::new(rest)),
                        None => rest,
                    };
                }
            }
            generate(s, t)
        },
    }
}

/// The items of a module after expansion: the given ones with their inline
/// submodules expanded, then the generated blocks.
pub open spec fn expanded(s: Sess, l: List<Item>) -> (Sess, List<Item>)
    decreases l, 1int,
{
    let (s1, more) = generated(s, l);
    let (s2, items) = expanded_submodules(s1, l);
    (s2, items.then_list(more))
}

pub open spec fn expanded_submodules(s: Sess, l: List<Item>) -> (Sess, List<Item>)
    decreases l, 0int,
{
    match l {
        List::Nil => (s, List::Nil),
        List::Cons(h, t) => match h.kind {
            ItemKind::Module(m) => match m.kind {
                ModuleKind::Inline { docs, items } => {
                    let (s1, sub) = expanded(s, items);
                    let (s2, rest) = expanded_submodules(s1, *t);
                    let kind = ItemKind::Module(
                        ModuleItem { name: m.name, kind: ModuleKind::Inline { docs, items: sub } },
                    );
                    (s2, List::Cons(Box::new(Item { kind, ..*h }), Box::new(rest)))
                },
                ModuleKind::File => {
                    let (s2, rest) = expanded_submodules(s, *t);
                    (s2, List::Cons(h, Box::new(rest)))
                },
            },
            _ => {
                let (s2, rest) = expanded_submodules(s, *t);
                (s2, List::Cons(h, Box::new(rest)))
            },
        },
    }
}

fn expand(s: &mut Session, l: &List<Item>) -> (r: List<Item>)
    ensures
        (final(s).view(), r) == expanded(old(s).view(), *l),
    decreases l, 1int,
{
    let more = generate(s, l);
    let items = expand_submodules(s, l);
    items.append(more)
}

fn expand_submodules(s: &mut Session, l: &List<Item>) -> (r: List<Item>)
    ensures
        (final(s).view(), r) == expanded_submodules(old(s).view(), *l),
    decreases l, 0int,
{
    match l {
        List::Nil => List::Nil,
        List::Cons(h, t) => {
            if let ItemKind::Module(m) = &h.kind {
                if let ModuleKind::Inline { docs, items } = &m.kind {
                    let sub = expand(s, items);
                    let rest = expand_submodules(s, t);
                    let kind = ItemKind::Module(
                        ModuleItem {
                            name: m.name,
                            kind: ModuleKind::Inline { docs: dup_symbol_list(docs), items: sub },
                        },
                    );
                    let it = Item {
                        docs: dup_symbol_list(&h.docs),
                        attrs: dup_attribute_list(&h.attrs),
                        visibility: h.visibility,
                        kind,
                        span: h.span,
                    };
                    return List::Cons(Box::new(it), Box::new(rest));
                }
            }
            let rest = expand_submodules(s, t);
            List::Cons(Box::new(dup_item(h)), Box::new(rest))
        },
    }
}

/// Expands every `@Derive(..)` on a struct of `module`, through its inline
/// submodules, into an `extend` item of the module the struct is in.
pub fn expand_derives(module: &mut Module, s: &mut Session)
    ensures
        (final(s).view(), final(module).items) == expanded(old(s).view(), old(module).items),
        final(module).docs == old(module).docs,
        final(module).span == old(module).span,
{
    module.items = expand(s, &module.items);
}

// -- laws -----------------------------------------------------------------------------

/// No struct among `l`, or in their inline submodules, asks for anything derivable.
pub open spec fn derives_nothing(l: List<Item>) -> bool
    decreases l,
{
    match l {
        List::Nil => true,
        List::Cons(h, t) => (match h.kind {
            ItemKind::Struct(_) => derives_of(h.attrs) is Nil,
            ItemKind::Module(m) => match m.kind {
                ModuleKind::Inline { items, .. } => derives_nothing(items),
                ModuleKind::File => true,
            },
            _ => true,
        }) && derives_nothing(*t),
    }
}

proof fn lemma_generated_nothing(s: Sess, l: List<Item>)
    requires
        derives_nothing(l),
    ensures
        generated(s, l) == (s, List::<Item>::Nil),
    decreases l,
{
    match l {
        List::Nil => {},
        List::Cons(_, t) => lemma_generated_nothing(s, *t),
    }
}

proof fn lemma_submodules_nothing(s: Sess, l: List<Item>)
    requires
        derives_nothing(l),
    ensures
        expanded_submodules(s, l) == (s, l),
    decreases l, 0int,
{
    match l {
        List::Nil => {},
        List::Cons(h, t) => {
            match h.kind {
                ItemKind::Module(m) => match m.kind {
                    ModuleKind::Inline { items, .. } => law_nothing_to_derive(s, items),
                    ModuleKind::File => {},
                },
                _ => {},
            }
            lemma_submodules_nothing(s, *t);
        },
    }
}

proof fn lemma_append_nil(l: List<Item>)
    ensures
        l.then_list(List::Nil) == l,
    decreases l,
{
    match l {
        List::Nil => {},
        List::Cons(_, t) => lemma_append_nil(*t),
    }
}

/// A module that asks for nothing derivable is left as it is.
pub proof fn law_nothing_to_derive(s: Sess, l: List<Item>)
    requires
        derives_nothing(l),
    ensures
        expanded(s, l) == (s, l),
    decreases l, 1int,
{
    lemma_generated_nothing(s, l);
    lemma_submodules_nothing(s, l);
    lemma_append_nil(l);
}

/// The names of functions.
pub open spec fn names_of(l: List<FunctionItem>) -> List<Symbol>
    decreases l,
{
    match l {
        List::Nil => List::Nil,
        List::Cons(h, t) => List::Cons(Box::new(h.name.name), Box::new(names_of(*t))),
    }
}

proof fn lemma_names_append(a: List<FunctionItem>, b: List<FunctionItem>)
    ensures
        names_of(a.then_list(b)) == names_of(a).then_list(names_of(b)),
    decreases a,
{
    match a {
        List::Nil => {},
        List::Cons(_, t) => lemma_names_append(*t, b),
    }
}

/// The names that `@Derive` with the interfaces `l` gives methods to.
pub open spec fn derived_names(l: List<Symbol>) -> List<Symbol> {
    let eq = if derives(l, T_EQ) || derives(l, T_ORD) {
        List::one(EQ)
    } else {
        List::Nil
    };
    let ord = if derives(l, T_ORD) {
        List::two(LT, LE).then_list(List::two(GT, GE))
    } else {
        List::Nil
    };
    let to_str = if derives(l, T_TO_STR) {
        List::one(TO_STR)
    } else {
        List::Nil
    };
    let cl = if derives(l, T_CLONE) {
        List::one(CLONE)
    } else {
        List::Nil
    };
    eq.then_list(ord).then_list(to_str).then_list(cl)
}

proof fn lemma_eq_name(s: Sess, st: StructItem, l: List<Symbol>)
    ensures
        names_of(eq_part(s, st, l).1) == (if derives(l, T_EQ) || derives(l, T_ORD) {
            List::one(EQ)
        } else {
            List::Nil
        }),
{
    reveal(eq_part);
    reveal_with_fuel(names_of, 3);
}

proof fn lemma_ord_names(s: Sess, st: StructItem, l: List<Symbol>)
    ensures
        names_of(ord_part(s, st, l).1) == (if derives(l, T_ORD) {
            List::two(LT, LE).then_list(List::two(GT, GE))
        } else {
            List::Nil
        }),
{
    reveal(ord_part);
    if derives(l, T_ORD) {
        let (a, lt) = derived_lt(s, st);
        let (b, le) = derived_le(a, st.name.name);
        let (c, gt) = derived_gt(b, st.name.name);
        let (d, ge) = derived_ge(c, st.name.name);
        reveal_with_fuel(names_of, 3);
        lemma_names_append(List::two(lt, le), List::two(gt, ge));
    }
}

proof fn lemma_to_str_name(s: Sess, st: StructItem, l: List<Symbol>)
    ensures
        names_of(to_str_part(s, st, l).1) == (if derives(l, T_TO_STR) {
            List::one(TO_STR)
        } else {
            List::Nil
        }),
{
    reveal(to_str_part);
    reveal_with_fuel(names_of, 3);
}

proof fn lemma_clone_name(s: Sess, st: StructItem, l: List<Symbol>)
    ensures
        names_of(clone_part(s, st, l).1) == (if derives(l, T_CLONE) {
            List::one(CLONE)
        } else {
            List::Nil
        }),
{
    reveal(clone_part);
    reveal_with_fuel(names_of, 3);
}

/// A struct gets exactly the methods it asks for: `eq` for `Eq` and for `Ord`, and
/// then once, the four orderings for `Ord`, `to_str` for `ToStr` and `clone` for
/// `Clone`.
pub proof fn law_derived_names(s: Sess, st: StructItem, l: List<Symbol>)
    ensures
        names_of(derived_functions(s, st, l).1) == derived_names(l),
{
    let (s1, eq) = eq_part(s, st, l);
    let (s2, ord) = ord_part(s1, st, l);
    let (s3, to_str) = to_str_part(s2, st, l);
    let (_, cl) = clone_part(s3, st, l);
    lemma_eq_name(s, st, l);
    lemma_ord_names(s1, st, l);
    lemma_to_str_name(s2, st, l);
    lemma_clone_name(s3, st, l);
    lemma_names_append(eq, ord);
    lemma_names_append(eq.then_list(ord), to_str);
    lemma_names_append(eq.then_list(ord).then_list(to_str), cl);
}

/// The functions of an `extend` block.
pub open spec fn functions_of(l: List<ExtendMember>) -> List<FunctionItem>
    decreases l,
{
    match l {
        List::Nil => List::Nil,
        List::Cons(h, t) => List::Cons(Box::new(h.function), Box::new(functions_of(*t))),
    }
}

proof fn lemma_functions_of_members(s: Sess, l: List<FunctionItem>)
    ensures
        functions_of(as_members(s, l).1) == l,
    decreases l,
{
    match l {
        List::Nil => {},
        List::Cons(_, t) => lemma_functions_of_members(
            s.derive_span_used().derive_span_used(),
            *t,
        ),
    }
}

/// What a struct that is not generic derives is one `extend` block for it with exactly
/// the derived methods, or nothing if there are none.
pub proof fn law_derived_block(s: Sess, st: StructItem, l: List<Symbol>)
    requires
        st.generics is None,
    ensures
        match derived_impl(s, st, l).1 {
            Some(it) => match it.kind {
                ItemKind::Extend(e) => {
                    &&& functions_of(e.members) == derived_functions(s, st, l).1
                    &&& match e.target.kind {
                        TypeKind::Named { name, generics } => name.name == st.name.name && generics is Nil,
                        _ => false,
                    }
                },
                _ => false,
            },
            None => derived_functions(s, st, l).1 is Nil,
        },
{
    let (s1, functions) = derived_functions(s, st, l);
    lemma_functions_of_members(s1, functions);
}

/// A generic struct derives nothing.
pub proof fn law_generic_derives_nothing(s: Sess, st: StructItem, l: List<Symbol>)
    requires
        st.generics is Some,
    ensures
        derived_impl(s, st, l) == (s, None::<Item>),
{
}

} // verus!
