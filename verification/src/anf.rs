//! `await`-hoisting: every `await` that survives sits where the async state
//! machine can suspend.
//!
//! The state machine can suspend only at statement level: on the right of a
//! `var` or assignment, at a bare expression statement, at a block's trailing
//! expression, or at a `return`/`break` operand. An `await` deeper inside an
//! expression (`f(await x)`, `a + await b`) is moved into a `var` binding in
//! front of the statement, and so is every effectful operand that would
//! otherwise be overtaken, which keeps the order of evaluation:
//!
//! ```text
//! var y = f(g(), await a) + 1;
//! // becomes
//! var __await_0 = g();
//! var __await_1 = await a;
//! var y = f(__await_0, __await_1) + 1;
//! ```
//!
//! Conditional positions are left alone: the right operand of `&&`/`||` and a
//! `while` condition run only sometimes, or more than once, so nothing is moved
//! out of them. Async closures become plain closures that return an async block,
//! and anonymous functions become closures.
use vstd::prelude::*;
use crate::ast::{
    AttrArg, BinaryOp, Block, ClosureParam, ElseBranch, Expr, ExprKind, ExtendItem, ExtendMember, FieldInit,
    FunctionItem, Ident, Item, ItemKind, LocalVar, MapItem, MatchArm, Module, ModuleItem, ModuleKind, Param,
    ParamKind, Pattern, PatternKind, Stmt, StmtKind, StringLit, StringPart,
};
use crate::dup::{
    dup_attr_arg_list, dup_attribute_list, dup_block, dup_closure_param_list, dup_expr, dup_expr_kind,
    dup_function_item, dup_generic_params, dup_item, dup_item_kind, dup_param_list, dup_pattern, dup_symbol_list,
    dup_type, dup_type_list, dup_type_path,
};
use crate::list::List;
use crate::session::{Sess, Session};
use crate::span::Span;

verus! {

// -- what counts as an operand ------------------------------------------------

/// A trivial, side-effect-free operand that needs no temporary when other
/// operands are hoisted.
pub open spec fn is_atomic(e: Expr) -> bool {
    match e.kind {
        ExprKind::Int(_) | ExprKind::Float(_) | ExprKind::Bool(_) | ExprKind::Null | ExprKind::Char(_)
        | ExprKind::Ident(_) | ExprKind::SelfExpr => true,
        _ => false,
    }
}

fn is_atom(e: &Expr) -> (r: bool)
    ensures
        r == is_atomic(*e),
{
    match &e.kind {
        ExprKind::Int(_) | ExprKind::Float(_) | ExprKind::Bool(_) | ExprKind::Null | ExprKind::Char(_)
        | ExprKind::Ident(_) | ExprKind::SelfExpr => true,
        _ => false,
    }
}

/// A place that can be read again in each iteration without side effects.
pub open spec fn is_place(e: Expr) -> bool {
    e.kind is Ident || e.kind is SelfExpr
}

fn is_simple_place(e: &Expr) -> (r: bool)
    ensures
        r == is_place(*e),
{
    match &e.kind {
        ExprKind::Ident(_) | ExprKind::SelfExpr => true,
        _ => false,
    }
}

/// Whether `e` awaits in the current async scope: nested closures, anonymous
/// functions and async blocks have a scope of their own, and so have the bodies
/// of control flow, whose statements are rewritten on their own.
pub open spec fn awaits(e: Expr) -> bool
    decreases e,
{
    match e.kind {
        ExprKind::Await { .. } => true,
        ExprKind::Paren(x) => awaits(*x),
        ExprKind::Spawn { expr, .. } => awaits(*expr),
        ExprKind::Try { expr, .. } => awaits(*expr),
        ExprKind::Cast { expr, .. } => awaits(*expr),
        ExprKind::Unary { operand, .. } => awaits(*operand),
        ExprKind::Ref { expr, .. } => awaits(*expr),
        ExprKind::Deref { expr, .. } => awaits(*expr),
        ExprKind::Field { receiver, .. } => awaits(*receiver),
        ExprKind::TupleIndex { receiver, .. } => awaits(*receiver),
        ExprKind::Binary { left, right, .. } => awaits(*left) || awaits(*right),
        ExprKind::Index { receiver, index } => awaits(*receiver) || awaits(*index),
        ExprKind::Call { callee, args, .. } => awaits(*callee) || any_awaits(args),
        ExprKind::Tuple(es) => any_awaits(es),
        ExprKind::List(es) => any_awaits(es),
        ExprKind::StructLit { fields, spread, .. } => any_field_awaits(fields) || opt_awaits(spread),
        ExprKind::MapLit(items) => any_entry_awaits(items),
        ExprKind::Str(lit) => any_hole_awaits(lit.parts),
        ExprKind::Return(v) => opt_awaits(v),
        ExprKind::Break(v) => opt_awaits(v),
        ExprKind::If { cond, .. } => awaits(*cond),
        ExprKind::Match { scrutinee, .. } => awaits(*scrutinee),
        ExprKind::While { cond, .. } => awaits(*cond),
        ExprKind::For { iter, .. } => awaits(*iter),
        _ => false,
    }
}

pub open spec fn opt_awaits(e: Option<Box<Expr>>) -> bool
    decreases e,
{
    match e {
        Some(x) => awaits(*x),
        None => false,
    }
}

pub open spec fn any_awaits(l: List<Expr>) -> bool
    decreases l,
{
    match l {
        List::Nil => false,
        List::Cons(h, t) => awaits(*h) || any_awaits(*t),
    }
}

pub open spec fn any_field_awaits(l: List<FieldInit>) -> bool
    decreases l,
{
    match l {
        List::Nil => false,
        List::Cons(h, t) => (match h.value {
            Some(v) => awaits(v),
            None => false,
        }) || any_field_awaits(*t),
    }
}

pub open spec fn any_entry_awaits(l: List<MapItem>) -> bool
    decreases l,
{
    match l {
        List::Nil => false,
        List::Cons(h, t) => (match *h {
            MapItem::Entry { key, value, .. } => awaits(*key) || awaits(*value),
            MapItem::Spread(x) => awaits(*x),
        }) || any_entry_awaits(*t),
    }
}

pub open spec fn any_hole_awaits(l: List<StringPart>) -> bool
    decreases l,
{
    match l {
        List::Nil => false,
        List::Cons(h, t) => (match *h {
            StringPart::Expr(x) => awaits(x),
            _ => false,
        }) || any_hole_awaits(*t),
    }
}

fn contains_await(e: &Expr) -> (r: bool)
    ensures
        r == awaits(*e),
    decreases e,
{
    match &e.kind {
        ExprKind::Await { .. } => true,
        ExprKind::Paren(x) => contains_await(x),
        ExprKind::Spawn { expr, .. } => contains_await(expr),
        ExprKind::Try { expr, .. } => contains_await(expr),
        ExprKind::Cast { expr, .. } => contains_await(expr),
        ExprKind::Unary { operand, .. } => contains_await(operand),
        ExprKind::Ref { expr, .. } => contains_await(expr),
        ExprKind::Deref { expr, .. } => contains_await(expr),
        ExprKind::Field { receiver, .. } => contains_await(receiver),
        ExprKind::TupleIndex { receiver, .. } => contains_await(receiver),
        ExprKind::Binary { left, right, .. } => contains_await(left) || contains_await(right),
        ExprKind::Index { receiver, index } => contains_await(receiver) || contains_await(index),
        ExprKind::Call { callee, args, .. } => contains_await(callee) || list_contains_await(args),
        ExprKind::Tuple(es) => list_contains_await(es),
        ExprKind::List(es) => list_contains_await(es),
        ExprKind::StructLit { fields, spread, .. } => {
            fields_contain_await(fields) || opt_contains_await(spread)
        },
        ExprKind::MapLit(items) => entries_contain_await(items),
        ExprKind::Str(lit) => holes_contain_await(&lit.parts),
        ExprKind::Return(v) => opt_contains_await(v),
        ExprKind::Break(v) => opt_contains_await(v),
        ExprKind::If { cond, .. } => contains_await(cond),
        ExprKind::Match { scrutinee, .. } => contains_await(scrutinee),
        ExprKind::While { cond, .. } => contains_await(cond),
        ExprKind::For { iter, .. } => contains_await(iter),
        _ => false,
    }
}

fn opt_contains_await(e: &Option<Box<Expr>>) -> (r: bool)
    ensures
        r == opt_awaits(*e),
    decreases e,
{
    match e {
        Some(x) => contains_await(x),
        None => false,
    }
}

fn list_contains_await(l: &List<Expr>) -> (r: bool)
    ensures
        r == any_awaits(*l),
    decreases l,
{
    match l {
        List::Nil => false,
        List::Cons(h, t) => contains_await(h) || list_contains_await(t),
    }
}

fn fields_contain_await(l: &List<FieldInit>) -> (r: bool)
    ensures
        r == any_field_awaits(*l),
    decreases l,
{
    match l {
        List::Nil => false,
        List::Cons(h, t) => {
            let first = match &h.value {
                Some(v) => contains_await(v),
                None => false,
            };
            first || fields_contain_await(t)
        },
    }
}

fn entries_contain_await(l: &List<MapItem>) -> (r: bool)
    ensures
        r == any_entry_awaits(*l),
    decreases l,
{
    match l {
        List::Nil => false,
        List::Cons(h, t) => {
            let first = match &**h {
                MapItem::Entry { key, value, .. } => contains_await(key) || contains_await(value),
                MapItem::Spread(x) => contains_await(x),
            };
            first || entries_contain_await(t)
        },
    }
}

fn holes_contain_await(l: &List<StringPart>) -> (r: bool)
    ensures
        r == any_hole_awaits(*l),
    decreases l,
{
    match l {
        List::Nil => false,
        List::Cons(h, t) => {
            let first = match &**h {
                StringPart::Expr(x) => contains_await(x),
                _ => false,
            };
            first || holes_contain_await(t)
        },
    }
}

// -- what rewriting comes to, told from the expression alone ---------------------

/// Whether `e` still awaits once it is rewritten: an `await` at its top stays, and
/// so does one in a conditional position.
pub open spec fn stays(e: Expr) -> bool
    decreases e, 0int,
{
    match e.kind {
        ExprKind::Await { .. } => true,
        ExprKind::Paren(x) => stays(*x),
        ExprKind::Return(v) => opt_stays(v),
        ExprKind::Break(v) => opt_stays(v),
        ExprKind::Binary { op, right, .. } => (op == BinaryOp::And || op == BinaryOp::Or) && if leaves(*right) {
            awaits(*right)
        } else {
            stays(*right)
        },
        ExprKind::While { cond, .. } => awaits(*cond),
        _ => false,
    }
}

/// Whether rewriting `e` leaves bindings in front of it.
pub open spec fn leaves(e: Expr) -> bool
    decreases e, 0int,
{
    match e.kind {
        ExprKind::Paren(x) => leaves(*x),
        ExprKind::Return(v) => opt_leaves(v),
        ExprKind::Break(v) => opt_leaves(v),
        ExprKind::Await { expr, .. } => binds(*expr),
        ExprKind::Spawn { expr, .. } => binds(*expr),
        ExprKind::Try { expr, .. } => binds(*expr),
        ExprKind::Cast { expr, .. } => binds(*expr),
        ExprKind::Unary { operand, .. } => binds(*operand),
        ExprKind::Ref { expr, .. } => binds(*expr),
        ExprKind::Deref { expr, .. } => binds(*expr),
        ExprKind::Field { receiver, .. } => binds(*receiver),
        ExprKind::TupleIndex { receiver, .. } => binds(*receiver),
        ExprKind::Binary { op, left, right, .. } => binds(*left) || (op != BinaryOp::And && op != BinaryOp::Or && binds(
            *right,
        )),
        ExprKind::Index { receiver, index } => binds(*receiver) || binds(*index),
        ExprKind::Call { callee, args, .. } => binds(*callee) || any_leaves(args) || any_stays(args),
        ExprKind::Tuple(es) => any_leaves(es) || any_stays(es),
        ExprKind::List(es) => any_leaves(es) || any_stays(es),
        ExprKind::StructLit { fields, spread, .. } => any_field_leaves(fields) || any_field_stays(fields) || opt_leaves(
            spread,
        ) || opt_stays(spread),
        ExprKind::MapLit(items) => any_entry_leaves(items) || any_entry_stays(items),
        ExprKind::Str(lit) => any_hole_leaves(lit.parts) || any_hole_stays(lit.parts),
        ExprKind::If { cond, .. } => binds(*cond),
        ExprKind::Match { scrutinee, .. } => binds(*scrutinee),
        ExprKind::For { in_async, iter, .. } => binds(*iter) || (in_async && !is_place(*iter)),
        _ => false,
    }
}

/// Whether `e` leaves bindings as the only operand of an operation.
pub open spec fn binds(e: Expr) -> bool
    decreases e, 1int,
{
    leaves(e) || stays(e)
}

pub open spec fn any_stays(l: List<Expr>) -> bool
    decreases l, 0int,
{
    match l {
        List::Nil => false,
        List::Cons(h, t) => stays(*h) || any_stays(*t),
    }
}

pub open spec fn opt_stays(e: Option<Box<Expr>>) -> bool
    decreases e, 0int,
{
    match e {
        Some(x) => stays(*x),
        None => false,
    }
}

pub open spec fn any_field_stays(l: List<FieldInit>) -> bool
    decreases l, 0int,
{
    match l {
        List::Nil => false,
        List::Cons(h, t) => (match h.value {
            Some(v) => stays(v),
            None => false,
        }) || any_field_stays(*t),
    }
}

pub open spec fn any_entry_stays(l: List<MapItem>) -> bool
    decreases l, 0int,
{
    match l {
        List::Nil => false,
        List::Cons(h, t) => (match *h {
            MapItem::Entry { key, value, .. } => stays(*key) || stays(*value),
            MapItem::Spread(x) => stays(*x),
        }) || any_entry_stays(*t),
    }
}

pub open spec fn any_hole_stays(l: List<StringPart>) -> bool
    decreases l, 0int,
{
    match l {
        List::Nil => false,
        List::Cons(h, t) => (match *h {
            StringPart::Expr(x) => stays(x),
            _ => false,
        }) || any_hole_stays(*t),
    }
}

pub open spec fn any_leaves(l: List<Expr>) -> bool
    decreases l, 0int,
{
    match l {
        List::Nil => false,
        List::Cons(h, t) => leaves(*h) || any_leaves(*t),
    }
}

pub open spec fn opt_leaves(e: Option<Box<Expr>>) -> bool
    decreases e, 0int,
{
    match e {
        Some(x) => leaves(*x),
        None => false,
    }
}

pub open spec fn any_field_leaves(l: List<FieldInit>) -> bool
    decreases l, 0int,
{
    match l {
        List::Nil => false,
        List::Cons(h, t) => (match h.value {
            Some(v) => leaves(v),
            None => false,
        }) || any_field_leaves(*t),
    }
}

pub open spec fn any_entry_leaves(l: List<MapItem>) -> bool
    decreases l, 0int,
{
    match l {
        List::Nil => false,
        List::Cons(h, t) => (match *h {
            MapItem::Entry { key, value, .. } => leaves(*key) || leaves(*value),
            MapItem::Spread(x) => leaves(*x),
        }) || any_entry_leaves(*t),
    }
}

pub open spec fn any_hole_leaves(l: List<StringPart>) -> bool
    decreases l, 0int,
{
    match l {
        List::Nil => false,
        List::Cons(h, t) => (match *h {
            StringPart::Expr(x) => leaves(x),
            _ => false,
        }) || any_hole_leaves(*t),
    }
}

fn stays_awaiting(e: &Expr) -> (r: bool)
    ensures
        r == stays(*e),
    decreases e, 0int,
{
    match &e.kind {
        ExprKind::Await { .. } => true,
        ExprKind::Paren(x) => stays_awaiting(x),
        ExprKind::Return(v) => opt_stays_awaiting(v),
        ExprKind::Break(v) => opt_stays_awaiting(v),
        ExprKind::Binary { op, right, .. } => {
            if *op == BinaryOp::And || *op == BinaryOp::Or {
                if leaves_bindings(right) {
                    contains_await(right)
                } else {
                    stays_awaiting(right)
                }
            } else {
                false
            }
        },
        ExprKind::While { cond, .. } => contains_await(cond),
        _ => false,
    }
}

fn leaves_bindings(e: &Expr) -> (r: bool)
    ensures
        r == leaves(*e),
    decreases e, 0int,
{
    match &e.kind {
        ExprKind::Paren(x) => leaves_bindings(x),
        ExprKind::Return(v) => opt_leaves_bindings(v),
        ExprKind::Break(v) => opt_leaves_bindings(v),
        ExprKind::Await { expr, .. } => needs_binding(expr),
        ExprKind::Spawn { expr, .. } => needs_binding(expr),
        ExprKind::Try { expr, .. } => needs_binding(expr),
        ExprKind::Cast { expr, .. } => needs_binding(expr),
        ExprKind::Unary { operand, .. } => needs_binding(operand),
        ExprKind::Ref { expr, .. } => needs_binding(expr),
        ExprKind::Deref { expr, .. } => needs_binding(expr),
        ExprKind::Field { receiver, .. } => needs_binding(receiver),
        ExprKind::TupleIndex { receiver, .. } => needs_binding(receiver),
        ExprKind::Binary { op, left, right, .. } => {
            needs_binding(left) || (*op != BinaryOp::And && *op != BinaryOp::Or && needs_binding(right))
        },
        ExprKind::Index { receiver, index } => needs_binding(receiver) || needs_binding(index),
        ExprKind::Call { callee, args, .. } => {
            needs_binding(callee) || list_leaves_bindings(args) || list_stays_awaiting(args)
        },
        ExprKind::Tuple(es) => list_leaves_bindings(es) || list_stays_awaiting(es),
        ExprKind::List(es) => list_leaves_bindings(es) || list_stays_awaiting(es),
        ExprKind::StructLit { fields, spread, .. } => {
            fields_leave_bindings(fields) || fields_stay_awaiting(fields) || opt_leaves_bindings(spread)
                || opt_stays_awaiting(spread)
        },
        ExprKind::MapLit(items) => entries_leave_bindings(items) || entries_stay_awaiting(items),
        ExprKind::Str(lit) => holes_leave_bindings(&lit.parts) || holes_stay_awaiting(&lit.parts),
        ExprKind::If { cond, .. } => needs_binding(cond),
        ExprKind::Match { scrutinee, .. } => needs_binding(scrutinee),
        ExprKind::For { in_async, iter, .. } => needs_binding(iter) || (*in_async && !is_simple_place(iter)),
        _ => false,
    }
}

fn needs_binding(e: &Expr) -> (r: bool)
    ensures
        r == binds(*e),
    decreases e, 1int,
{
    leaves_bindings(e) || stays_awaiting(e)
}

fn list_stays_awaiting(l: &List<Expr>) -> (r: bool)
    ensures
        r == any_stays(*l),
    decreases l, 0int,
{
    match l {
        List::Nil => false,
        List::Cons(h, t) => stays_awaiting(h) || list_stays_awaiting(t),
    }
}

fn opt_stays_awaiting(e: &Option<Box<Expr>>) -> (r: bool)
    ensures
        r == opt_stays(*e),
    decreases e, 0int,
{
    match e {
        Some(x) => stays_awaiting(x),
        None => false,
    }
}

fn fields_stay_awaiting(l: &List<FieldInit>) -> (r: bool)
    ensures
        r == any_field_stays(*l),
    decreases l, 0int,
{
    match l {
        List::Nil => false,
        List::Cons(h, t) => {
            let first = match &h.value {
                Some(v) => stays_awaiting(v),
                None => false,
            };
            first || fields_stay_awaiting(t)
        },
    }
}

fn entries_stay_awaiting(l: &List<MapItem>) -> (r: bool)
    ensures
        r == any_entry_stays(*l),
    decreases l, 0int,
{
    match l {
        List::Nil => false,
        List::Cons(h, t) => {
            let first = match &**h {
                MapItem::Entry { key, value, .. } => stays_awaiting(key) || stays_awaiting(value),
                MapItem::Spread(x) => stays_awaiting(x),
            };
            first || entries_stay_awaiting(t)
        },
    }
}

fn holes_stay_awaiting(l: &List<StringPart>) -> (r: bool)
    ensures
        r == any_hole_stays(*l),
    decreases l, 0int,
{
    match l {
        List::Nil => false,
        List::Cons(h, t) => {
            let first = match &**h {
                StringPart::Expr(x) => stays_awaiting(x),
                _ => false,
            };
            first || holes_stay_awaiting(t)
        },
    }
}

fn list_leaves_bindings(l: &List<Expr>) -> (r: bool)
    ensures
        r == any_leaves(*l),
    decreases l, 0int,
{
    match l {
        List::Nil => false,
        List::Cons(h, t) => leaves_bindings(h) || list_leaves_bindings(t),
    }
}

fn opt_leaves_bindings(e: &Option<Box<Expr>>) -> (r: bool)
    ensures
        r == opt_leaves(*e),
    decreases e, 0int,
{
    match e {
        Some(x) => leaves_bindings(x),
        None => false,
    }
}

fn fields_leave_bindings(l: &List<FieldInit>) -> (r: bool)
    ensures
        r == any_field_leaves(*l),
    decreases l, 0int,
{
    match l {
        List::Nil => false,
        List::Cons(h, t) => {
            let first = match &h.value {
                Some(v) => leaves_bindings(v),
                None => false,
            };
            first || fields_leave_bindings(t)
        },
    }
}

fn entries_leave_bindings(l: &List<MapItem>) -> (r: bool)
    ensures
        r == any_entry_leaves(*l),
    decreases l, 0int,
{
    match l {
        List::Nil => false,
        List::Cons(h, t) => {
            let first = match &**h {
                MapItem::Entry { key, value, .. } => leaves_bindings(key) || leaves_bindings(value),
                MapItem::Spread(x) => leaves_bindings(x),
            };
            first || entries_leave_bindings(t)
        },
    }
}

fn holes_leave_bindings(l: &List<StringPart>) -> (r: bool)
    ensures
        r == any_hole_leaves(*l),
    decreases l, 0int,
{
    match l {
        List::Nil => false,
        List::Cons(h, t) => {
            let first = match &**h {
                StringPart::Expr(x) => leaves_bindings(x),
                _ => false,
            };
            first || holes_leave_bindings(t)
        },
    }
}

// -- temporaries ----------------------------------------------------------------

/// `value` bound to a fresh temporary: the binding statement and the expression
/// that reads the temporary.
pub open spec fn hoisted(s: Sess, value: Expr) -> (Sess, Stmt, Expr) {
    let (s0, name) = s.temp_named();
    let bind = Ident { name, span: s0.hoist_spans.span() };
    let s1 = s0.hoist_span_used();
    let read = Ident { name, span: s1.hoist_spans.span() };
    let s2 = s1.hoist_span_used();
    let pattern = Pattern { kind: PatternKind::Binding(bind), span: s2.hoist_spans.span() };
    let s3 = s2.hoist_span_used();
    let stmt = Stmt {
        kind: StmtKind::Var(LocalVar { pattern, ty: None, init: value }),
        span: s3.hoist_spans.span(),
    };
    let s4 = s3.hoist_span_used();
    (s4.hoist_span_used(), stmt, Expr { kind: ExprKind::Ident(read), span: s4.hoist_spans.span() })
}

fn hoist(value: Expr, s: &mut Session) -> (r: (Stmt, Expr))
    ensures
        (final(s).view(), r.0, r.1) == hoisted(old(s).view(), value),
{
    let name = s.fresh_name();
    let bind = Ident { name, span: s.hoist_span() };
    let read = Ident { name, span: s.hoist_span() };
    let pattern = Pattern { kind: PatternKind::Binding(bind), span: s.hoist_span() };
    let stmt = Stmt {
        kind: StmtKind::Var(LocalVar { pattern, ty: None, init: value }),
        span: s.hoist_span(),
    };
    (stmt, Expr { kind: ExprKind::Ident(read), span: s.hoist_span() })
}

/// A chain of fields that starts at an atom: reading it again changes nothing.
pub open spec fn is_path(e: Expr) -> bool
    decreases e,
{
    match e.kind {
        ExprKind::Field { receiver, .. } => is_path(*receiver),
        ExprKind::TupleIndex { receiver, .. } => is_path(*receiver),
        ExprKind::Paren(x) => is_path(*x),
        _ => is_atomic(e),
    }
}

fn is_simple_path(e: &Expr) -> (r: bool)
    ensures
        r == is_path(*e),
    decreases e,
{
    match &e.kind {
        ExprKind::Field { receiver, .. } => is_simple_path(receiver),
        ExprKind::TupleIndex { receiver, .. } => is_simple_path(receiver),
        ExprKind::Paren(x) => is_simple_path(x),
        _ => is_atom(e),
    }
}

/// `value` bound to a temporary unless it is a path.
pub open spec fn bound(s: Sess, value: Expr) -> (Sess, List<Stmt>, Expr) {
    if is_path(value) {
        (s, List::Nil, value)
    } else {
        let (s1, stmt, read) = hoisted(s, value);
        (s1, List::one(stmt), read)
    }
}

fn bind(value: Expr, s: &mut Session) -> (r: (List<Stmt>, Expr))
    ensures
        (final(s).view(), r.0, r.1) == bound(old(s).view(), value),
{
    if is_simple_path(&value) {
        (List::Nil, value)
    } else {
        let (stmt, read) = hoist(value, s);
        (List::single(stmt), read)
    }
}

/// The place `e` with everything that it is made of bound.
pub open spec fn pinned(s: Sess, e: Expr) -> (Sess, List<Stmt>, Expr)
    decreases e,
{
    match e.kind {
        ExprKind::Paren(x) => {
            let (s1, pre, x1) = pinned(s, *x);
            (s1, pre, Expr { kind: ExprKind::Paren(Box::new(x1)), span: e.span })
        },
        ExprKind::Field { receiver, name } => {
            let (s1, pre, r) = bound(s, *receiver);
            (s1, pre, Expr { kind: ExprKind::Field { receiver: Box::new(r), name }, span: e.span })
        },
        ExprKind::TupleIndex { receiver, index, index_span } => {
            let (s1, pre, r) = bound(s, *receiver);
            let kind = ExprKind::TupleIndex { receiver: Box::new(r), index, index_span };
            (s1, pre, Expr { kind, span: e.span })
        },
        ExprKind::Index { receiver, index } => {
            let (s1, pre1, r) = bound(s, *receiver);
            let (s2, pre2, i) = bound(s1, *index);
            let kind = ExprKind::Index { receiver: Box::new(r), index: Box::new(i) };
            (s2, pre1.then_list(pre2), Expr { kind, span: e.span })
        },
        ExprKind::Deref { expr, star_span } => {
            let (s1, pre, x) = bound(s, *expr);
            (s1, pre, Expr { kind: ExprKind::Deref { expr: Box::new(x), star_span }, span: e.span })
        },
        _ => bound(s, e),
    }
}

fn pin(e: Expr, s: &mut Session) -> (r: (List<Stmt>, Expr))
    ensures
        (final(s).view(), r.0, r.1) == pinned(old(s).view(), e),
    decreases e,
{
    let span = e.span;
    match e.kind {
        ExprKind::Paren(x) => {
            let (pre, x1) = pin(*x, s);
            (pre, Expr { kind: ExprKind::Paren(Box::new(x1)), span })
        },
        ExprKind::Field { receiver, name } => {
            let (pre, r) = bind(*receiver, s);
            (pre, Expr { kind: ExprKind::Field { receiver: Box::new(r), name }, span })
        },
        ExprKind::TupleIndex { receiver, index, index_span } => {
            let (pre, r) = bind(*receiver, s);
            (pre, Expr { kind: ExprKind::TupleIndex { receiver: Box::new(r), index, index_span }, span })
        },
        ExprKind::Index { receiver, index } => {
            let (pre1, r) = bind(*receiver, s);
            let (pre2, i) = bind(*index, s);
            let kind = ExprKind::Index { receiver: Box::new(r), index: Box::new(i) };
            (pre1.append(pre2), Expr { kind, span })
        },
        ExprKind::Deref { expr, star_span } => {
            let (pre, x) = bind(*expr, s);
            (pre, Expr { kind: ExprKind::Deref { expr: Box::new(x), star_span }, span })
        },
        kind => bind(Expr { kind, span }, s),
    }
}

/// `value` preceded by the hoisted bindings `pre`, as one expression.
pub open spec fn wrapped(s: Sess, pre: List<Stmt>, value: Expr) -> (Sess, Expr) {
    match pre {
        List::Nil => (s, value),
        List::Cons(_, _) => (
            s.hoist_span_used(),
            Expr {
                kind: ExprKind::Block(
                    Block { stmts: pre, trailing: Some(Box::new(value)), span: s.hoist_spans.span() },
                ),
                span: value.span,
            },
        ),
    }
}

fn wrap_with_pre(pre: List<Stmt>, value: Expr, s: &mut Session) -> (r: Expr)
    ensures
        (final(s).view(), r) == wrapped(old(s).view(), pre, value),
{
    if pre.is_empty() {
        return value;
    }
    let span = value.span;
    Expr {
        kind: ExprKind::Block(Block { stmts: pre, trailing: Some(Box::new(value)), span: s.hoist_span() }),
        span,
    }
}

// -- the rewriting --------------------------------------------------------------

/// `e` rewritten: the session after it, the bindings to run before it (in order
/// of evaluation) and the expression. An `await` at the top of `e` stays.
pub open spec fn rewritten(s: Sess, e: Expr) -> (Sess, List<Stmt>, Expr)
    decreases e, 2int,
{
    let (s1, pre, kind) = rewritten_kind(s, e);
    (s1, pre, Expr { kind, span: e.span })
}

pub open spec fn rewritten_kind(s: Sess, e: Expr) -> (Sess, List<Stmt>, ExprKind)
    decreases e, 1int,
{
    match e.kind {
        ExprKind::Await { .. }
        | ExprKind::Spawn { .. }
        | ExprKind::Paren { .. }
        | ExprKind::Try { .. }
        | ExprKind::Cast { .. }
        | ExprKind::Unary { .. }
        | ExprKind::Ref { .. }
        | ExprKind::Deref { .. }
        | ExprKind::Field { .. }
        | ExprKind::TupleIndex { .. }
        | ExprKind::Return { .. }
        | ExprKind::Break { .. } => rewritten_prefix(s, e),
        ExprKind::Binary { .. }
        | ExprKind::Index { .. }
        | ExprKind::Call { .. }
        | ExprKind::Tuple { .. }
        | ExprKind::List { .. }
        | ExprKind::StructLit { .. }
        | ExprKind::MapLit { .. }
        | ExprKind::Str { .. } => rewritten_operands(s, e),
        _ => rewritten_control(s, e),
    }
}

/// Forms with a single operand in front of the rest.
pub open spec fn rewritten_prefix(s: Sess, e: Expr) -> (Sess, List<Stmt>, ExprKind)
    decreases e, 0int,
{
    match e.kind {
        ExprKind::Await { expr, kw_span } => {
            let (s1, pre, x) = atomized(s, *expr);
            (s1, pre, ExprKind::Await { expr: Box::new(x), kw_span })
        },
        ExprKind::Spawn { expr, kw_span } => {
            let (s1, pre, x) = atomized(s, *expr);
            (s1, pre, ExprKind::Spawn { expr: Box::new(x), kw_span })
        },
        ExprKind::Paren(x) => {
            let (s1, pre, x1) = rewritten(s, *x);
            (s1, pre, ExprKind::Paren(Box::new(x1)))
        },
        ExprKind::Try { expr, q_span } => {
            let (s1, pre, x) = atomized(s, *expr);
            (s1, pre, ExprKind::Try { expr: Box::new(x), q_span })
        },
        ExprKind::Cast { op, op_span, expr, ty } => {
            let (s1, pre, x) = atomized(s, *expr);
            (s1, pre, ExprKind::Cast { op, op_span, expr: Box::new(x), ty })
        },
        ExprKind::Unary { op, op_span, operand } => {
            let (s1, pre, x) = atomized(s, *operand);
            (s1, pre, ExprKind::Unary { op, op_span, operand: Box::new(x) })
        },
        ExprKind::Ref { expr, amp_span } => {
            let (s1, pre, x) = atomized(s, *expr);
            (s1, pre, ExprKind::Ref { expr: Box::new(x), amp_span })
        },
        ExprKind::Deref { expr, star_span } => {
            let (s1, pre, x) = atomized(s, *expr);
            (s1, pre, ExprKind::Deref { expr: Box::new(x), star_span })
        },
        ExprKind::Field { receiver, name } => {
            let (s1, pre, x) = atomized(s, *receiver);
            (s1, pre, ExprKind::Field { receiver: Box::new(x), name })
        },
        ExprKind::TupleIndex { receiver, index, index_span } => {
            let (s1, pre, x) = atomized(s, *receiver);
            (s1, pre, ExprKind::TupleIndex { receiver: Box::new(x), index, index_span })
        },
        ExprKind::Return(v) => {
            let (s1, pre, x) = opt_tail(s, v);
            (s1, pre, ExprKind::Return(x))
        },
        ExprKind::Break(v) => {
            let (s1, pre, x) = opt_tail(s, v);
            (s1, pre, ExprKind::Break(x))
        },
        _ => (s, List::Nil, e.kind),
    }
}

/// Forms that evaluate several operands from left to right.
pub open spec fn rewritten_operands(s: Sess, e: Expr) -> (Sess, List<Stmt>, ExprKind)
    decreases e, 0int,
{
    match e.kind {
        ExprKind::Binary { op, op_span, left, right } => if op == BinaryOp::And || op == BinaryOp::Or {
            let (s1, pre, l) = atomized(s, *left);
            let (s2, r) = isolated(s1, *right);
            (s2, pre, ExprKind::Binary { op, op_span, left: Box::new(l), right: Box::new(r) })
        } else {
            let all = stays(*left) || stays(*right);
            let (s1, pre1, l) = operand(s, *left, all || leaves(*right));
            let (s2, pre2, r) = operand(s1, *right, all);
            (s2, pre1.then_list(pre2), ExprKind::Binary { op, op_span, left: Box::new(l), right: Box::new(r) })
        },
        ExprKind::Index { receiver, index } => {
            let all = stays(*receiver) || stays(*index);
            let (s1, pre1, r) = operand(s, *receiver, all || leaves(*index));
            let (s2, pre2, i) = operand(s1, *index, all);
            (s2, pre1.then_list(pre2), ExprKind::Index { receiver: Box::new(r), index: Box::new(i) })
        },
        ExprKind::Call { callee, generics, args, trailing_closure } => {
            let (s0, tc) = opt_scope(s, trailing_closure);
            match callee.kind {
                ExprKind::Field { receiver, name } => {
                    let all = stays(*receiver) || any_stays(args);
                    let (s1, pre1, r) = operand(s0, *receiver, all || any_leaves(args));
                    let (s2, pre2, a) = operands(s1, args, all);
                    let c = Expr { kind: ExprKind::Field { receiver: Box::new(r), name }, span: callee.span };
                    (
                        s2,
                        pre1.then_list(pre2),
                        ExprKind::Call { callee: Box::new(c), generics, args: a, trailing_closure: tc },
                    )
                },
                _ => {
                    let all = any_stays(args);
                    let (s1, pre1, c) = operand(s0, *callee, stays(*callee) || all || any_leaves(args));
                    let (s2, pre2, a) = operands(s1, args, all);
                    (
                        s2,
                        pre1.then_list(pre2),
                        ExprKind::Call { callee: Box::new(c), generics, args: a, trailing_closure: tc },
                    )
                },
            }
        },
        ExprKind::Tuple(es) => {
            let (s1, pre, xs) = operands(s, es, any_stays(es));
            (s1, pre, ExprKind::Tuple(xs))
        },
        ExprKind::List(es) => {
            let (s1, pre, xs) = operands(s, es, any_stays(es));
            (s1, pre, ExprKind::List(xs))
        },
        ExprKind::StructLit { path, fields, spread } => {
            let all = any_field_stays(fields) || opt_stays(spread);
            let (s1, pre1, fs) = field_operands(s, fields, all, opt_leaves(spread));
            match spread {
                Some(x) => {
                    let (s2, pre2, x1) = operand(s1, *x, all);
                    (
                        s2,
                        pre1.then_list(pre2),
                        ExprKind::StructLit { path, fields: fs, spread: Some(Box::new(x1)) },
                    )
                },
                None => (s1, pre1, ExprKind::StructLit { path, fields: fs, spread: None }),
            }
        },
        ExprKind::MapLit(items) => {
            let (s1, pre, xs) = entry_operands(s, items, any_entry_stays(items));
            (s1, pre, ExprKind::MapLit(xs))
        },
        ExprKind::Str(lit) => {
            let (s1, pre, parts) = hole_operands(s, lit.parts, any_hole_stays(lit.parts));
            (s1, pre, ExprKind::Str(StringLit { parts, span: lit.span }))
        },
        _ => (s, List::Nil, e.kind),
    }
}

/// Control flow, scopes of their own, and leaves.
pub open spec fn rewritten_control(s: Sess, e: Expr) -> (Sess, List<Stmt>, ExprKind)
    decreases e, 0int,
{
    match e.kind {
        ExprKind::If { cond, then_block, else_branch } => {
            let (s1, pre, c) = atomized(s, *cond);
            let (s2, b) = processed(s1, then_block);
            let (s3, eb) = processed_else(s2, else_branch);
            (s3, pre, ExprKind::If { cond: Box::new(c), then_block: b, else_branch: eb })
        },
        ExprKind::Match { scrutinee, arms } => {
            let (s1, pre, x) = atomized(s, *scrutinee);
            let (s2, a) = rewritten_arms(s1, arms);
            (s2, pre, ExprKind::Match { scrutinee: Box::new(x), arms: a })
        },
        ExprKind::Block(b) => {
            let (s1, b1) = processed(s, b);
            (s1, List::Nil, ExprKind::Block(b1))
        },
        ExprKind::Loop(b) => {
            let (s1, b1) = processed(s, b);
            (s1, List::Nil, ExprKind::Loop(b1))
        },
        ExprKind::While { cond, body } => {
            let (s1, b1) = processed(s, body);
            (s1, List::Nil, ExprKind::While { cond, body: b1 })
        },
        ExprKind::For { pattern, in_async, iter, body } => {
            let (s1, b1) = processed(s, body);
            if in_async && !is_place(*iter) {
                let (s2, pre, x) = rewritten(s1, *iter);
                let (s3, stmt, read) = hoisted(s2, x);
                (s3, pre.snoc(stmt), ExprKind::For { pattern, in_async, iter: Box::new(read), body: b1 })
            } else {
                let (s2, pre, x) = atomized(s1, *iter);
                (s2, pre, ExprKind::For { pattern, in_async, iter: Box::new(x), body: b1 })
            }
        },
        ExprKind::Closure { params, return_type, is_async, body } => if is_async {
            let block_span = s.hoist_spans.span();
            let s1 = s.hoist_span_used();
            let async_span = s1.hoist_spans.span();
            let (s2, pre, x) = rewritten(s1.hoist_span_used(), *body);
            let block = Block { stmts: pre, trailing: Some(Box::new(x)), span: block_span };
            let ab = Expr { kind: ExprKind::AsyncBlock(block), span: async_span };
            (
                s2,
                List::Nil,
                ExprKind::Closure { params, return_type, is_async: false, body: Box::new(ab) },
            )
        } else {
            let (s1, x) = scope(s, *body);
            (s1, List::Nil, ExprKind::Closure { params, return_type, is_async: false, body: Box::new(x) })
        },
        ExprKind::AnonFn(f) => {
            let (s1, kind) = anon_fn_closure(s, *f);
            (s1, List::Nil, kind)
        },
        ExprKind::AsyncBlock(b) => {
            let (s1, b1) = processed(s, b);
            (s1, List::Nil, ExprKind::AsyncBlock(b1))
        },
        _ => (s, List::Nil, e.kind),
    }
}

/// What an anonymous function becomes: a closure, unless it is generic.
pub open spec fn anon_fn_closure(s: Sess, f: FunctionItem) -> (Sess, ExprKind)
    decreases f, 1int,
{
    match (f.generics, f.body) {
        (None, Some(block)) => {
            let body_span = s.hoist_spans.span();
            let s0 = s.hoist_span_used();
            let params = closure_params(f.params);
            let return_type = f.return_type;
            if f.is_async {
                let block_span = s0.hoist_spans.span();
                let s1 = s0.hoist_span_used();
                let async_span = s1.hoist_spans.span();
                let (s2, b) = processed(s1.hoist_span_used(), block);
                let body = Expr { kind: ExprKind::Block(b), span: body_span };
                let inner = Block { stmts: List::Nil, trailing: Some(Box::new(body)), span: block_span };
                let ab = Expr { kind: ExprKind::AsyncBlock(inner), span: async_span };
                (s2, ExprKind::Closure { params, return_type, is_async: false, body: Box::new(ab) })
            } else {
                let (s1, b) = processed(s0, block);
                let body = Expr { kind: ExprKind::Block(b), span: body_span };
                (s1, ExprKind::Closure { params, return_type, is_async: false, body: Box::new(body) })
            }
        },
        _ => {
            let (s1, f1) = processed_function(s, f);
            (s1, ExprKind::AnonFn(Box::new(f1)))
        },
    }
}

/// The parameters of the closure an anonymous function becomes.
pub open spec fn closure_params(l: List<Param>) -> List<ClosureParam>
    decreases l,
{
    match l {
        List::Nil => List::Nil,
        List::Cons(h, t) => match h.kind {
            ParamKind::Normal { name, ty } => List::Cons(
                Box::new(ClosureParam { name, ty: Some(ty), span: h.span }),
                Box::new(closure_params(*t)),
            ),
            ParamKind::SelfParam => closure_params(*t),
        },
    }
}

/// `e` as an operand on its own: hoisted if it awaits once rewritten.
pub open spec fn atomized(s: Sess, e: Expr) -> (Sess, List<Stmt>, Expr)
    decreases e, 3int,
{
    let (s1, pre, x) = rewritten(s, e);
    if awaits(x) {
        let (s2, stmt, read) = hoisted(s1, x);
        (s2, pre.snoc(stmt), read)
    } else {
        (s1, pre, x)
    }
}

/// `e` as one of several operands evaluated from left to right; with `bind` it gets
/// a temporary unless it is an atom.
pub open spec fn operand(s: Sess, e: Expr, bind: bool) -> (Sess, List<Stmt>, Expr)
    decreases e, 3int,
{
    let (s1, pre, x) = rewritten(s, e);
    if bind && !is_atomic(x) {
        let (s2, stmt, read) = hoisted(s1, x);
        (s2, pre.snoc(stmt), read)
    } else {
        (s1, pre, x)
    }
}

/// The operands `l`. If one of the operation's operands still awaits (`all`), each
/// gets a temporary, and so does one in front of an operand that leaves bindings.
pub open spec fn operands(s: Sess, l: List<Expr>, all: bool) -> (Sess, List<Stmt>, List<Expr>)
    decreases l, 0int,
{
    match l {
        List::Nil => (s, List::Nil, List::Nil),
        List::Cons(h, t) => {
            let (s1, pre1, x) = operand(s, *h, all || any_leaves(*t));
            let (s2, pre2, xs) = operands(s1, *t, all);
            (s2, pre1.then_list(pre2), List::Cons(Box::new(x), Box::new(xs)))
        },
    }
}

/// The same of the values of fields; `later` says that what follows them leaves
/// bindings.
pub open spec fn field_operands(
    s: Sess,
    l: List<FieldInit>,
    all: bool,
    later: bool,
) -> (Sess, List<Stmt>, List<FieldInit>)
    decreases l, 0int,
{
    match l {
        List::Nil => (s, List::Nil, List::Nil),
        List::Cons(h, t) => match h.value {
            Some(v) => {
                let (s1, pre1, x) = operand(s, v, all || later || any_field_leaves(*t));
                let (s2, pre2, xs) = field_operands(s1, *t, all, later);
                let f = FieldInit { name: h.name, value: Some(x), span: h.span };
                (s2, pre1.then_list(pre2), List::Cons(Box::new(f), Box::new(xs)))
            },
            None => {
                let (s2, pre2, xs) = field_operands(s, *t, all, later);
                (s2, pre2, List::Cons(h, Box::new(xs)))
            },
        },
    }
}

pub open spec fn entry_operands(s: Sess, l: List<MapItem>, all: bool) -> (Sess, List<Stmt>, List<MapItem>)
    decreases l, 0int,
{
    match l {
        List::Nil => (s, List::Nil, List::Nil),
        List::Cons(h, t) => match *h {
            MapItem::Entry { key, value, span } => {
                let (s1, pre1, k) = operand(s, *key, all || leaves(*value) || any_entry_leaves(*t));
                let (s2, pre2, v) = operand(s1, *value, all || any_entry_leaves(*t));
                let (s3, pre3, xs) = entry_operands(s2, *t, all);
                let it = MapItem::Entry { key: Box::new(k), value: Box::new(v), span };
                (s3, pre1.then_list(pre2).then_list(pre3), List::Cons(Box::new(it), Box::new(xs)))
            },
            MapItem::Spread(x) => {
                let (s1, pre1, x1) = operand(s, *x, all || any_entry_leaves(*t));
                let (s2, pre2, xs) = entry_operands(s1, *t, all);
                (
                    s2,
                    pre1.then_list(pre2),
                    List::Cons(Box::new(MapItem::Spread(Box::new(x1))), Box::new(xs)),
                )
            },
        },
    }
}

pub open spec fn hole_operands(s: Sess, l: List<StringPart>, all: bool) -> (Sess, List<Stmt>, List<StringPart>)
    decreases l, 0int,
{
    match l {
        List::Nil => (s, List::Nil, List::Nil),
        List::Cons(h, t) => match *h {
            StringPart::Expr(x) => {
                let (s1, pre1, x1) = operand(s, x, all || any_hole_leaves(*t));
                let (s2, pre2, xs) = hole_operands(s1, *t, all);
                (s2, pre1.then_list(pre2), List::Cons(Box::new(StringPart::Expr(x1)), Box::new(xs)))
            },
            _ => {
                let (s2, pre2, xs) = hole_operands(s, *t, all);
                (s2, pre2, List::Cons(h, Box::new(xs)))
            },
        },
    }
}

pub open spec fn opt_tail(s: Sess, e: Option<Box<Expr>>) -> (Sess, List<Stmt>, Option<Box<Expr>>)
    decreases e, 0int,
{
    match e {
        Some(x) => {
            let (s1, pre, x1) = rewritten(s, *x);
            (s1, pre, Some(Box::new(x1)))
        },
        None => (s, List::Nil, None),
    }
}

/// `e` as a scope of its own (a closure body, a match arm): its bindings stay
/// inside it.
pub open spec fn scope(s: Sess, e: Expr) -> (Sess, Expr)
    decreases e, 3int,
{
    let (s1, pre, x) = rewritten(s, e);
    wrapped(s1, pre, x)
}

pub open spec fn opt_scope(s: Sess, e: Option<Box<Expr>>) -> (Sess, Option<Box<Expr>>)
    decreases e, 0int,
{
    match e {
        Some(x) => {
            let (s1, x1) = scope(s, *x);
            (s1, Some(Box::new(x1)))
        },
        None => (s, None),
    }
}

/// `e` in a conditional position: rewritten only if nothing would leave it.
pub open spec fn isolated(s: Sess, e: Expr) -> (Sess, Expr)
    decreases e, 3int,
{
    let (s1, pre, x) = rewritten(s, e);
    if pre is Nil {
        (s1, x)
    } else {
        (s1, e)
    }
}

pub open spec fn rewritten_arms(s: Sess, l: List<MatchArm>) -> (Sess, List<MatchArm>)
    decreases l, 0int,
{
    match l {
        List::Nil => (s, List::Nil),
        List::Cons(h, t) => {
            let (s1, body) = scope(s, h.body);
            let (s2, arms) = rewritten_arms(s1, *t);
            let arm = MatchArm { pattern: h.pattern, guard: h.guard, body, span: h.span };
            (s2, List::Cons(Box::new(arm), Box::new(arms)))
        },
    }
}

/// A block with the bindings of each statement put in front of it.
pub open spec fn processed(s: Sess, b: Block) -> (Sess, Block)
    decreases b, 0int,
{
    let (s1, stmts) = processed_stmts(s, b.stmts);
    match b.trailing {
        Some(t) => {
            let (s2, pre, x) = rewritten(s1, *t);
            (s2, Block { stmts: stmts.then_list(pre), trailing: Some(Box::new(x)), span: b.span })
        },
        None => (s1, Block { stmts, trailing: None, span: b.span }),
    }
}

pub open spec fn processed_stmts(s: Sess, l: List<Stmt>) -> (Sess, List<Stmt>)
    decreases l, 0int,
{
    match l {
        List::Nil => (s, List::Nil),
        List::Cons(h, t) => {
            let (s1, pre, kind) = processed_stmt(s, *h);
            let (s2, rest) = processed_stmts(s1, *t);
            let stmt = Stmt { kind, span: h.span };
            (s2, pre.then_list(List::Cons(Box::new(stmt), Box::new(rest))))
        },
    }
}

pub open spec fn processed_stmt(s: Sess, x: Stmt) -> (Sess, List<Stmt>, StmtKind)
    decreases x, 0int,
{
    match x.kind {
        StmtKind::Var(v) => {
            let (s1, pre, init) = rewritten(s, v.init);
            (s1, pre, StmtKind::Var(LocalVar { pattern: v.pattern, ty: v.ty, init }))
        },
        StmtKind::Assign { target, value } => {
            let (s1, pre1, t) = place(s, target, leaves(value));
            let (s2, pre2, v) = rewritten(s1, value);
            (s2, pre1.then_list(pre2), StmtKind::Assign { target: t, value: v })
        },
        StmtKind::Expr(e) => {
            let (s1, pre, e1) = rewritten(s, e);
            (s1, pre, StmtKind::Expr(e1))
        },
        StmtKind::Item(it) => {
            let (s1, it1) = hoisted_item(s, *it);
            (s1, List::Nil, StmtKind::Item(Box::new(it1)))
        },
    }
}

/// What is assigned to. If the value leaves bindings (`bind`), what the place is
/// made of is bound in front of them.
pub open spec fn place(s: Sess, target: Expr, bind: bool) -> (Sess, List<Stmt>, Expr)
    decreases target, 3int,
{
    let (s1, pre, t) = rewritten(s, target);
    if bind || awaits(t) {
        let (s2, more, t1) = pinned(s1, t);
        (s2, pre.then_list(more), t1)
    } else {
        (s1, pre, t)
    }
}

pub open spec fn processed_else(s: Sess, e: Option<ElseBranch>) -> (Sess, Option<ElseBranch>)
    decreases e, 0int,
{
    match e {
        Some(ElseBranch::If(x)) => {
            let (s1, x1) = scope(s, *x);
            (s1, Some(ElseBranch::If(Box::new(x1))))
        },
        Some(ElseBranch::Block(b)) => {
            let (s1, b1) = processed(s, b);
            (s1, Some(ElseBranch::Block(b1)))
        },
        None => (s, None),
    }
}

pub open spec fn processed_function(s: Sess, f: FunctionItem) -> (Sess, FunctionItem)
    decreases f, 0int,
{
    match f.body {
        Some(b) => {
            let (s1, b1) = processed(s, b);
            (s1, FunctionItem { body: Some(b1), ..f })
        },
        None => (s, f),
    }
}

pub open spec fn hoisted_item(s: Sess, it: Item) -> (Sess, Item)
    decreases it, 0int,
{
    match it.kind {
        ItemKind::Function(f) => {
            let (s1, f1) = processed_function(s, f);
            (s1, Item { kind: ItemKind::Function(f1), ..it })
        },
        ItemKind::Extend(e) => {
            let (s1, members) = hoisted_members(s, e.members);
            (s1, Item { kind: ItemKind::Extend(ExtendItem { members, ..e }), ..it })
        },
        ItemKind::Module(m) => match m.kind {
            ModuleKind::Inline { docs, items } => {
                let (s1, items) = hoisted_items(s, items);
                let kind = ModuleKind::Inline { docs, items };
                (s1, Item { kind: ItemKind::Module(ModuleItem { name: m.name, kind }), ..it })
            },
            ModuleKind::File => (s, it),
        },
        _ => (s, it),
    }
}

pub open spec fn hoisted_members(s: Sess, l: List<ExtendMember>) -> (Sess, List<ExtendMember>)
    decreases l, 0int,
{
    match l {
        List::Nil => (s, List::Nil),
        List::Cons(h, t) => {
            let (s1, function) = processed_function(s, h.function);
            let (s2, rest) = hoisted_members(s1, *t);
            let m = ExtendMember { function, ..*h };
            (s2, List::Cons(Box::new(m), Box::new(rest)))
        },
    }
}

pub open spec fn hoisted_items(s: Sess, l: List<Item>) -> (Sess, List<Item>)
    decreases l, 0int,
{
    match l {
        List::Nil => (s, List::Nil),
        List::Cons(h, t) => {
            let (s1, it) = hoisted_item(s, *h);
            let (s2, rest) = hoisted_items(s1, *t);
            (s2, List::Cons(Box::new(it), Box::new(rest)))
        },
    }
}

fn rewrite(e: &Expr, s: &mut Session) -> (r: (List<Stmt>, Expr))
    ensures
        (final(s).view(), r.0, r.1) == rewritten(old(s).view(), *e),
    decreases e, 2int,
{
    let (pre, kind) = rewrite_kind(e, s);
    (pre, Expr { kind, span: e.span })
}

fn rewrite_kind(e: &Expr, s: &mut Session) -> (r: (List<Stmt>, ExprKind))
    ensures
        (final(s).view(), r.0, r.1) == rewritten_kind(old(s).view(), *e),
    decreases e, 1int,
{
    match &e.kind {
        ExprKind::Await { .. }
        | ExprKind::Spawn { .. }
        | ExprKind::Paren { .. }
        | ExprKind::Try { .. }
        | ExprKind::Cast { .. }
        | ExprKind::Unary { .. }
        | ExprKind::Ref { .. }
        | ExprKind::Deref { .. }
        | ExprKind::Field { .. }
        | ExprKind::TupleIndex { .. }
        | ExprKind::Return { .. }
        | ExprKind::Break { .. } => rewrite_prefix(e, s),
        ExprKind::Binary { .. }
        | ExprKind::Index { .. }
        | ExprKind::Call { .. }
        | ExprKind::Tuple { .. }
        | ExprKind::List { .. }
        | ExprKind::StructLit { .. }
        | ExprKind::MapLit { .. }
        | ExprKind::Str { .. } => rewrite_operands(e, s),
        _ => rewrite_control(e, s),
    }
}

fn rewrite_prefix(e: &Expr, s: &mut Session) -> (r: (List<Stmt>, ExprKind))
    ensures
        (final(s).view(), r.0, r.1) == rewritten_prefix(old(s).view(), *e),
    decreases e, 0int,
{
    match &e.kind {
        ExprKind::Await { expr, kw_span } => {
            let (pre, x) = atomize(expr, s);
            (pre, ExprKind::Await { expr: Box::new(x), kw_span: *kw_span })
        },
        ExprKind::Spawn { expr, kw_span } => {
            let (pre, x) = atomize(expr, s);
            (pre, ExprKind::Spawn { expr: Box::new(x), kw_span: *kw_span })
        },
        ExprKind::Paren(x) => {
            let (pre, x) = rewrite(x, s);
            (pre, ExprKind::Paren(Box::new(x)))
        },
        ExprKind::Try { expr, q_span } => {
            let (pre, x) = atomize(expr, s);
            (pre, ExprKind::Try { expr: Box::new(x), q_span: *q_span })
        },
        ExprKind::Cast { op, op_span, expr, ty } => {
            let (pre, x) = atomize(expr, s);
            (pre, ExprKind::Cast { op: *op, op_span: *op_span, expr: Box::new(x), ty: Box::new(dup_type(ty)) })
        },
        ExprKind::Unary { op, op_span, operand } => {
            let (pre, x) = atomize(operand, s);
            (pre, ExprKind::Unary { op: *op, op_span: *op_span, operand: Box::new(x) })
        },
        ExprKind::Ref { expr, amp_span } => {
            let (pre, x) = atomize(expr, s);
            (pre, ExprKind::Ref { expr: Box::new(x), amp_span: *amp_span })
        },
        ExprKind::Deref { expr, star_span } => {
            let (pre, x) = atomize(expr, s);
            (pre, ExprKind::Deref { expr: Box::new(x), star_span: *star_span })
        },
        ExprKind::Field { receiver, name } => {
            let (pre, x) = atomize(receiver, s);
            (pre, ExprKind::Field { receiver: Box::new(x), name: *name })
        },
        ExprKind::TupleIndex { receiver, index, index_span } => {
            let (pre, x) = atomize(receiver, s);
            (pre, ExprKind::TupleIndex { receiver: Box::new(x), index: *index, index_span: *index_span })
        },
        ExprKind::Return(v) => {
            let (pre, x) = rewrite_opt(v, s);
            (pre, ExprKind::Return(x))
        },
        ExprKind::Break(v) => {
            let (pre, x) = rewrite_opt(v, s);
            (pre, ExprKind::Break(x))
        },
        _ => (List::Nil, dup_expr_kind(&e.kind)),
    }
}

fn rewrite_operands(e: &Expr, s: &mut Session) -> (r: (List<Stmt>, ExprKind))
    ensures
        (final(s).view(), r.0, r.1) == rewritten_operands(old(s).view(), *e),
    decreases e, 0int,
{
    match &e.kind {
        ExprKind::Binary { op, op_span, left, right } => {
            if *op == BinaryOp::And || *op == BinaryOp::Or {
                let (pre, l) = atomize(left, s);
                let r = rewrite_isolated(right, s);
                (pre, ExprKind::Binary { op: *op, op_span: *op_span, left: Box::new(l), right: Box::new(r) })
            } else {
                let all = stays_awaiting(left) || stays_awaiting(right);
                let (pre1, l) = atomize_operand(left, all || leaves_bindings(right), s);
                let (pre2, r) = atomize_operand(right, all, s);
                let kind = ExprKind::Binary {
                    op: *op,
                    op_span: *op_span,
                    left: Box::new(l),
                    right: Box::new(r),
                };
                (pre1.append(pre2), kind)
            }
        },
        ExprKind::Index { receiver, index } => {
            let all = stays_awaiting(receiver) || stays_awaiting(index);
            let (pre1, r) = atomize_operand(receiver, all || leaves_bindings(index), s);
            let (pre2, i) = atomize_operand(index, all, s);
            (pre1.append(pre2), ExprKind::Index { receiver: Box::new(r), index: Box::new(i) })
        },
        ExprKind::Call { callee, generics, args, trailing_closure } => {
            let tc = rewrite_opt_scope(trailing_closure, s);
            let generics = dup_type_list(generics);
            match &callee.kind {
                ExprKind::Field { receiver, name } => {
                    let all = stays_awaiting(receiver) || list_stays_awaiting(args);
                    let (pre1, r) = atomize_operand(receiver, all || list_leaves_bindings(args), s);
                    let (pre2, a) = atomize_seq(args, all, s);
                    let c = Expr {
                        kind: ExprKind::Field { receiver: Box::new(r), name: *name },
                        span: callee.span,
                    };
                    let kind = ExprKind::Call { callee: Box::new(c), generics, args: a, trailing_closure: tc };
                    (pre1.append(pre2), kind)
                },
                _ => {
                    let all = list_stays_awaiting(args);
                    let first = stays_awaiting(callee) || all || list_leaves_bindings(args);
                    let (pre1, c) = atomize_operand(callee, first, s);
                    let (pre2, a) = atomize_seq(args, all, s);
                    let kind = ExprKind::Call { callee: Box::new(c), generics, args: a, trailing_closure: tc };
                    (pre1.append(pre2), kind)
                },
            }
        },
        ExprKind::Tuple(es) => {
            let all = list_stays_awaiting(es);
            let (pre, xs) = atomize_seq(es, all, s);
            (pre, ExprKind::Tuple(xs))
        },
        ExprKind::List(es) => {
            let all = list_stays_awaiting(es);
            let (pre, xs) = atomize_seq(es, all, s);
            (pre, ExprKind::List(xs))
        },
        ExprKind::StructLit { path, fields, spread } => {
            let all = fields_stay_awaiting(fields) || opt_stays_awaiting(spread);
            let (pre1, fs) = atomize_fields(fields, all, opt_leaves_bindings(spread), s);
            let path = dup_type_path(path);
            match spread {
                Some(x) => {
                    let (pre2, x) = atomize_operand(x, all, s);
                    (pre1.append(pre2), ExprKind::StructLit { path, fields: fs, spread: Some(Box::new(x)) })
                },
                None => (pre1, ExprKind::StructLit { path, fields: fs, spread: None }),
            }
        },
        ExprKind::MapLit(items) => {
            let all = entries_stay_awaiting(items);
            let (pre, xs) = atomize_entries(items, all, s);
            (pre, ExprKind::MapLit(xs))
        },
        ExprKind::Str(lit) => {
            let all = holes_stay_awaiting(&lit.parts);
            let (pre, parts) = atomize_holes(&lit.parts, all, s);
            (pre, ExprKind::Str(StringLit { parts, span: lit.span }))
        },
        _ => (List::Nil, dup_expr_kind(&e.kind)),
    }
}

fn rewrite_control(e: &Expr, s: &mut Session) -> (r: (List<Stmt>, ExprKind))
    ensures
        (final(s).view(), r.0, r.1) == rewritten_control(old(s).view(), *e),
    decreases e, 0int,
{
    match &e.kind {
        ExprKind::If { cond, then_block, else_branch } => {
            let (pre, c) = atomize(cond, s);
            let b = process_block(then_block, s);
            let eb = process_else(else_branch, s);
            (pre, ExprKind::If { cond: Box::new(c), then_block: b, else_branch: eb })
        },
        ExprKind::Match { scrutinee, arms } => {
            let (pre, x) = atomize(scrutinee, s);
            let arms = rewrite_arms(arms, s);
            (pre, ExprKind::Match { scrutinee: Box::new(x), arms })
        },
        ExprKind::Block(b) => (List::Nil, ExprKind::Block(process_block(b, s))),
        ExprKind::Loop(b) => (List::Nil, ExprKind::Loop(process_block(b, s))),
        ExprKind::While { cond, body } => {
            let body = process_block(body, s);
            (List::Nil, ExprKind::While { cond: Box::new(dup_expr(cond)), body })
        },
        ExprKind::For { pattern, in_async, iter, body } => {
            let body = process_block(body, s);
            let pattern = dup_pattern(pattern);
            if *in_async && !is_simple_place(iter) {
                let (pre, x) = rewrite(iter, s);
                let (stmt, read) = hoist(x, s);
                let kind = ExprKind::For { pattern, in_async: *in_async, iter: Box::new(read), body };
                (pre.push_back(stmt), kind)
            } else {
                let (pre, x) = atomize(iter, s);
                (pre, ExprKind::For { pattern, in_async: *in_async, iter: Box::new(x), body })
            }
        },
        ExprKind::Closure { params, return_type, is_async, body } => {
            let params = dup_closure_param_list(params);
            let return_type = match return_type {
                Some(t) => Some(dup_type(t)),
                None => None,
            };
            let body = if *is_async {
                let block_span = s.hoist_span();
                let async_span = s.hoist_span();
                let (pre, x) = rewrite(body, s);
                let block = Block { stmts: pre, trailing: Some(Box::new(x)), span: block_span };
                Expr { kind: ExprKind::AsyncBlock(block), span: async_span }
            } else {
                rewrite_scope(body, s)
            };
            (List::Nil, ExprKind::Closure { params, return_type, is_async: false, body: Box::new(body) })
        },
        ExprKind::AnonFn(f) => (List::Nil, rewrite_anon_fn(f, s)),
        ExprKind::AsyncBlock(b) => (List::Nil, ExprKind::AsyncBlock(process_block(b, s))),
        _ => (List::Nil, dup_expr_kind(&e.kind)),
    }
}

/// The closure that an anonymous function is: `function(params) { .. }` and
/// `(params) => { .. }` are the same kind of value. A generic anonymous function
/// stays as it is.
fn rewrite_anon_fn(f: &FunctionItem, s: &mut Session) -> (r: ExprKind)
    ensures
        (final(s).view(), r) == anon_fn_closure(old(s).view(), *f),
    decreases f, 1int,
{
    match (&f.generics, &f.body) {
        (None, Some(block)) => {
            let body_span = s.hoist_span();
            let params = params_of_closure(&f.params);
            let return_type = match &f.return_type {
                Some(t) => Some(dup_type(t)),
                None => None,
            };
            let body = if f.is_async {
                let block_span = s.hoist_span();
                let async_span = s.hoist_span();
                let b = process_block(block, s);
                let body = Expr { kind: ExprKind::Block(b), span: body_span };
                let inner = Block { stmts: List::Nil, trailing: Some(Box::new(body)), span: block_span };
                Expr { kind: ExprKind::AsyncBlock(inner), span: async_span }
            } else {
                let b = process_block(block, s);
                Expr { kind: ExprKind::Block(b), span: body_span }
            };
            ExprKind::Closure { params, return_type, is_async: false, body: Box::new(body) }
        },
        _ => ExprKind::AnonFn(Box::new(process_function(f, s))),
    }
}

fn params_of_closure(l: &List<Param>) -> (r: List<ClosureParam>)
    ensures
        r == closure_params(*l),
    decreases l,
{
    match l {
        List::Nil => List::Nil,
        List::Cons(h, t) => match &h.kind {
            ParamKind::Normal { name, ty } => List::Cons(
                Box::new(ClosureParam { name: *name, ty: Some(dup_type(ty)), span: h.span }),
                Box::new(params_of_closure(t)),
            ),
            ParamKind::SelfParam => params_of_closure(t),
        },
    }
}

fn atomize(e: &Expr, s: &mut Session) -> (r: (List<Stmt>, Expr))
    ensures
        (final(s).view(), r.0, r.1) == atomized(old(s).view(), *e),
    decreases e, 3int,
{
    let (pre, x) = rewrite(e, s);
    if contains_await(&x) {
        let (stmt, read) = hoist(x, s);
        (pre.push_back(stmt), read)
    } else {
        (pre, x)
    }
}

fn atomize_operand(e: &Expr, bind: bool, s: &mut Session) -> (r: (List<Stmt>, Expr))
    ensures
        (final(s).view(), r.0, r.1) == operand(old(s).view(), *e, bind),
    decreases e, 3int,
{
    let (pre, x) = rewrite(e, s);
    if bind && !is_atom(&x) {
        let (stmt, read) = hoist(x, s);
        (pre.push_back(stmt), read)
    } else {
        (pre, x)
    }
}

fn atomize_seq(l: &List<Expr>, all: bool, s: &mut Session) -> (r: (List<Stmt>, List<Expr>))
    ensures
        (final(s).view(), r.0, r.1) == operands(old(s).view(), *l, all),
    decreases l, 0int,
{
    match l {
        List::Nil => (List::Nil, List::Nil),
        List::Cons(h, t) => {
            let (pre1, x) = atomize_operand(h, all || list_leaves_bindings(t), s);
            let (pre2, xs) = atomize_seq(t, all, s);
            (pre1.append(pre2), List::Cons(Box::new(x), Box::new(xs)))
        },
    }
}

fn atomize_fields(
    l: &List<FieldInit>,
    all: bool,
    later: bool,
    s: &mut Session,
) -> (r: (List<Stmt>, List<FieldInit>))
    ensures
        (final(s).view(), r.0, r.1) == field_operands(old(s).view(), *l, all, later),
    decreases l, 0int,
{
    match l {
        List::Nil => (List::Nil, List::Nil),
        List::Cons(h, t) => match &h.value {
            Some(v) => {
                let (pre1, x) = atomize_operand(v, all || later || fields_leave_bindings(t), s);
                let (pre2, xs) = atomize_fields(t, all, later, s);
                let f = FieldInit { name: h.name, value: Some(x), span: h.span };
                (pre1.append(pre2), List::Cons(Box::new(f), Box::new(xs)))
            },
            None => {
                let (pre2, xs) = atomize_fields(t, all, later, s);
                let f = FieldInit { name: h.name, value: None, span: h.span };
                (pre2, List::Cons(Box::new(f), Box::new(xs)))
            },
        },
    }
}

fn atomize_entries(l: &List<MapItem>, all: bool, s: &mut Session) -> (r: (List<Stmt>, List<MapItem>))
    ensures
        (final(s).view(), r.0, r.1) == entry_operands(old(s).view(), *l, all),
    decreases l, 0int,
{
    match l {
        List::Nil => (List::Nil, List::Nil),
        List::Cons(h, t) => match &**h {
            MapItem::Entry { key, value, span } => {
                let later = entries_leave_bindings(t);
                let (pre1, k) = atomize_operand(key, all || leaves_bindings(value) || later, s);
                let (pre2, v) = atomize_operand(value, all || later, s);
                let (pre3, xs) = atomize_entries(t, all, s);
                let it = MapItem::Entry { key: Box::new(k), value: Box::new(v), span: *span };
                (pre1.append(pre2).append(pre3), List::Cons(Box::new(it), Box::new(xs)))
            },
            MapItem::Spread(x) => {
                let (pre1, x) = atomize_operand(x, all || entries_leave_bindings(t), s);
                let (pre2, xs) = atomize_entries(t, all, s);
                let it = MapItem::Spread(Box::new(x));
                (pre1.append(pre2), List::Cons(Box::new(it), Box::new(xs)))
            },
        },
    }
}

fn atomize_holes(l: &List<StringPart>, all: bool, s: &mut Session) -> (r: (List<Stmt>, List<StringPart>))
    ensures
        (final(s).view(), r.0, r.1) == hole_operands(old(s).view(), *l, all),
    decreases l, 0int,
{
    match l {
        List::Nil => (List::Nil, List::Nil),
        List::Cons(h, t) => match &**h {
            StringPart::Expr(x) => {
                let (pre1, x) = atomize_operand(x, all || holes_leave_bindings(t), s);
                let (pre2, xs) = atomize_holes(t, all, s);
                (pre1.append(pre2), List::Cons(Box::new(StringPart::Expr(x)), Box::new(xs)))
            },
            StringPart::Text { text, span } => {
                let (pre2, xs) = atomize_holes(t, all, s);
                (pre2, List::Cons(Box::new(StringPart::Text { text: *text, span: *span }), Box::new(xs)))
            },
            StringPart::Ident(id) => {
                let (pre2, xs) = atomize_holes(t, all, s);
                (pre2, List::Cons(Box::new(StringPart::Ident(*id)), Box::new(xs)))
            },
        },
    }
}

fn rewrite_opt(e: &Option<Box<Expr>>, s: &mut Session) -> (r: (List<Stmt>, Option<Box<Expr>>))
    ensures
        (final(s).view(), r.0, r.1) == opt_tail(old(s).view(), *e),
    decreases e, 0int,
{
    match e {
        Some(x) => {
            let (pre, x) = rewrite(x, s);
            (pre, Some(Box::new(x)))
        },
        None => (List::Nil, None),
    }
}

fn rewrite_scope(e: &Expr, s: &mut Session) -> (r: Expr)
    ensures
        (final(s).view(), r) == scope(old(s).view(), *e),
    decreases e, 3int,
{
    let (pre, x) = rewrite(e, s);
    wrap_with_pre(pre, x, s)
}

fn rewrite_opt_scope(e: &Option<Box<Expr>>, s: &mut Session) -> (r: Option<Box<Expr>>)
    ensures
        (final(s).view(), r) == opt_scope(old(s).view(), *e),
    decreases e, 0int,
{
    match e {
        Some(x) => Some(Box::new(rewrite_scope(x, s))),
        None => None,
    }
}

fn rewrite_isolated(e: &Expr, s: &mut Session) -> (r: Expr)
    ensures
        (final(s).view(), r) == isolated(old(s).view(), *e),
    decreases e, 3int,
{
    let (pre, x) = rewrite(e, s);
    if pre.is_empty() {
        x
    } else {
        dup_expr(e)
    }
}

fn rewrite_arms(l: &List<MatchArm>, s: &mut Session) -> (r: List<MatchArm>)
    ensures
        (final(s).view(), r) == rewritten_arms(old(s).view(), *l),
    decreases l, 0int,
{
    match l {
        List::Nil => List::Nil,
        List::Cons(h, t) => {
            let body = rewrite_scope(&h.body, s);
            let arms = rewrite_arms(t, s);
            let guard = match &h.guard {
                Some(g) => Some(dup_expr(g)),
                None => None,
            };
            let arm = MatchArm { pattern: dup_pattern(&h.pattern), guard, body, span: h.span };
            List::Cons(Box::new(arm), Box::new(arms))
        },
    }
}

fn process_block(b: &Block, s: &mut Session) -> (r: Block)
    ensures
        (final(s).view(), r) == processed(old(s).view(), *b),
    decreases b, 0int,
{
    let stmts = process_stmts(&b.stmts, s);
    match &b.trailing {
        Some(t) => {
            let (pre, x) = rewrite(t, s);
            Block { stmts: stmts.append(pre), trailing: Some(Box::new(x)), span: b.span }
        },
        None => Block { stmts, trailing: None, span: b.span },
    }
}

fn process_stmts(l: &List<Stmt>, s: &mut Session) -> (r: List<Stmt>)
    ensures
        (final(s).view(), r) == processed_stmts(old(s).view(), *l),
    decreases l, 0int,
{
    match l {
        List::Nil => List::Nil,
        List::Cons(h, t) => {
            let (pre, kind) = process_stmt(h, s);
            let rest = process_stmts(t, s);
            let stmt = Stmt { kind, span: h.span };
            pre.append(List::Cons(Box::new(stmt), Box::new(rest)))
        },
    }
}

fn process_stmt(x: &Stmt, s: &mut Session) -> (r: (List<Stmt>, StmtKind))
    ensures
        (final(s).view(), r.0, r.1) == processed_stmt(old(s).view(), *x),
    decreases x, 0int,
{
    match &x.kind {
        StmtKind::Var(v) => {
            let (pre, init) = rewrite(&v.init, s);
            let ty = match &v.ty {
                Some(t) => Some(dup_type(t)),
                None => None,
            };
            (pre, StmtKind::Var(LocalVar { pattern: dup_pattern(&v.pattern), ty, init }))
        },
        StmtKind::Assign { target, value } => {
            let (pre1, t) = rewrite_place(target, leaves_bindings(value), s);
            let (pre2, v) = rewrite(value, s);
            (pre1.append(pre2), StmtKind::Assign { target: t, value: v })
        },
        StmtKind::Expr(e) => {
            let (pre, e) = rewrite(e, s);
            (pre, StmtKind::Expr(e))
        },
        StmtKind::Item(it) => (List::Nil, StmtKind::Item(Box::new(hoist_item(it, s)))),
    }
}

fn rewrite_place(target: &Expr, bind: bool, s: &mut Session) -> (r: (List<Stmt>, Expr))
    ensures
        (final(s).view(), r.0, r.1) == place(old(s).view(), *target, bind),
    decreases target, 3int,
{
    let (pre, t) = rewrite(target, s);
    if bind || contains_await(&t) {
        let (more, t1) = pin(t, s);
        (pre.append(more), t1)
    } else {
        (pre, t)
    }
}

fn process_else(e: &Option<ElseBranch>, s: &mut Session) -> (r: Option<ElseBranch>)
    ensures
        (final(s).view(), r) == processed_else(old(s).view(), *e),
    decreases e, 0int,
{
    match e {
        Some(ElseBranch::If(x)) => Some(ElseBranch::If(Box::new(rewrite_scope(x, s)))),
        Some(ElseBranch::Block(b)) => Some(ElseBranch::Block(process_block(b, s))),
        None => None,
    }
}

fn process_function(f: &FunctionItem, s: &mut Session) -> (r: FunctionItem)
    ensures
        (final(s).view(), r) == processed_function(old(s).view(), *f),
    decreases f, 0int,
{
    match &f.body {
        Some(b) => {
            let body = process_block(b, s);
            let generics = match &f.generics {
                Some(g) => Some(dup_generic_params(g)),
                None => None,
            };
            let return_type = match &f.return_type {
                Some(t) => Some(dup_type(t)),
                None => None,
            };
            FunctionItem {
                name: f.name,
                generics,
                params: dup_param_list(&f.params),
                return_type,
                is_async: f.is_async,
                body: Some(body),
            }
        },
        None => dup_function_item(f),
    }
}

fn hoist_item(it: &Item, s: &mut Session) -> (r: Item)
    ensures
        (final(s).view(), r) == hoisted_item(old(s).view(), *it),
    decreases it, 0int,
{
    let kind = match &it.kind {
        ItemKind::Function(f) => ItemKind::Function(process_function(f, s)),
        ItemKind::Extend(e) => {
            let members = hoist_members(&e.members, s);
            let generics = match &e.generics {
                Some(g) => Some(dup_generic_params(g)),
                None => None,
            };
            ItemKind::Extend(
                ExtendItem {
                    generics,
                    target: dup_type(&e.target),
                    interfaces: dup_type_list(&e.interfaces),
                    members,
                },
            )
        },
        ItemKind::Module(m) => match &m.kind {
            ModuleKind::Inline { docs, items } => {
                let items = hoist_items(items, s);
                let kind = ModuleKind::Inline { docs: dup_symbol_list(docs), items };
                ItemKind::Module(ModuleItem { name: m.name, kind })
            },
            ModuleKind::File => ItemKind::Module(ModuleItem { name: m.name, kind: ModuleKind::File }),
        },
        _ => dup_item_kind(&it.kind),
    };
    Item {
        docs: dup_symbol_list(&it.docs),
        attrs: dup_attribute_list(&it.attrs),
        visibility: it.visibility,
        kind,
        span: it.span,
    }
}

fn hoist_members(l: &List<ExtendMember>, s: &mut Session) -> (r: List<ExtendMember>)
    ensures
        (final(s).view(), r) == hoisted_members(old(s).view(), *l),
    decreases l, 0int,
{
    match l {
        List::Nil => List::Nil,
        List::Cons(h, t) => {
            let function = process_function(&h.function, s);
            let rest = hoist_members(t, s);
            let m = ExtendMember {
                docs: dup_symbol_list(&h.docs),
                attrs: dup_attribute_list(&h.attrs),
                visibility: h.visibility,
                function,
                span: h.span,
            };
            List::Cons(Box::new(m), Box::new(rest))
        },
    }
}

fn hoist_items(l: &List<Item>, s: &mut Session) -> (r: List<Item>)
    ensures
        (final(s).view(), r) == hoisted_items(old(s).view(), *l),
    decreases l, 0int,
{
    match l {
        List::Nil => List::Nil,
        List::Cons(h, t) => {
            let it = hoist_item(h, s);
            let rest = hoist_items(t, s);
            List::Cons(Box::new(it), Box::new(rest))
        },
    }
}

/// Hoists nested `await`s in every function and method body of `module`,
/// through its inline submodules.
pub fn hoist_awaits(module: &mut Module, s: &mut Session)
    ensures
        (final(s).view(), final(module).items) == hoisted_items(old(s).view(), old(module).items),
        final(module).docs == old(module).docs,
        final(module).span == old(module).span,
{
    module.items = hoist_items(&module.items, s);
}

} // verus!
