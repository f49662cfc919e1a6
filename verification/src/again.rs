//! Hoisting a second time changes nothing.
use vstd::prelude::*;
use crate::ast::{
    BinaryOp, Block, ElseBranch, Expr, ExprKind, ExtendMember, FieldInit, FunctionItem, Item, ItemKind, MapItem,
    MatchArm, ModuleKind, Stmt, StmtKind, StringPart,
};
use crate::list::List;
use crate::session::Sess;

verus! {

/// Rewriting left no bindings and `e` as it was.
pub open spec fn untouched(e: Expr, r: (Sess, List<Stmt>, Expr)) -> bool {
    r.1 is Nil && r.2 == e
}

pub open spec fn form_untouched(e: Expr, r: (Sess, List<Stmt>, ExprKind)) -> bool {
    r.1 is Nil && r.2 == e.kind
}

proof fn lemma_still(s: Sess, e: Expr)
    requires
        crate::suspend::settled(e),
    ensures
        untouched(e, crate::anf::rewritten(s, e)),
        !crate::anf::leaves(e),
        crate::anf::stays(e) == crate::anf::awaits(e),
    decreases e, 2int,
{
    lemma_kind(s, e);
    crate::suspend::lemma_rewritten(s, e);
}

proof fn lemma_kind(s: Sess, e: Expr)
    requires
        crate::suspend::settled(e),
    ensures
        form_untouched(e, crate::anf::rewritten_kind(s, e)),
    decreases e, 1int,
{
    match e.kind {
        ExprKind::Await { .. } | ExprKind::Spawn { .. } => lemma_suspension(s, e),
        ExprKind::Paren { .. } => lemma_paren(s, e),
        ExprKind::Try { .. } | ExprKind::Cast { .. } | ExprKind::Unary { .. } => lemma_checked(s, e),
        ExprKind::Ref { .. } | ExprKind::Deref { .. } => lemma_reference(s, e),
        ExprKind::Field { .. } | ExprKind::TupleIndex { .. } => lemma_part(s, e),
        ExprKind::Return { .. } | ExprKind::Break { .. } => lemma_exit(s, e),
        ExprKind::Binary { .. } => lemma_binary(s, e),
        ExprKind::Index { .. } => lemma_index(s, e),
        ExprKind::Call { .. } => lemma_call(s, e),
        ExprKind::Tuple { .. }
        | ExprKind::List { .. }
        | ExprKind::MapLit { .. }
        | ExprKind::Str { .. } => lemma_elements(s, e),
        ExprKind::StructLit { .. } => lemma_struct_lit(s, e),
        ExprKind::If { .. } | ExprKind::Match { .. } => lemma_branches(s, e),
        ExprKind::For { .. } => lemma_for(s, e),
        ExprKind::Closure { body, .. } => lemma_scope(s, *body),
        ExprKind::AnonFn(f) => lemma_function(s, *f),
        ExprKind::Block(b) => lemma_block(s, b),
        ExprKind::Loop(b) => lemma_block(s, b),
        ExprKind::AsyncBlock(b) => lemma_block(s, b),
        ExprKind::While { body, .. } => lemma_block(s, body),
        _ => {},
    }
}

proof fn lemma_suspension(s: Sess, e: Expr)
    requires
        crate::suspend::settled(e),
        e.kind is Await || e.kind is Spawn,
    ensures
        form_untouched(e, crate::anf::rewritten_prefix(s, e)),
    decreases e, 0int,
{
    match e.kind {
        ExprKind::Await { expr, .. } => lemma_atomized(s, *expr),
        ExprKind::Spawn { expr, .. } => lemma_atomized(s, *expr),
        _ => {},
    }
}

proof fn lemma_paren(s: Sess, e: Expr)
    requires
        crate::suspend::settled(e),
        e.kind is Paren,
    ensures
        form_untouched(e, crate::anf::rewritten_prefix(s, e)),
    decreases e, 0int,
{
    match e.kind {
        ExprKind::Paren(x) => lemma_still(s, *x),
        _ => {},
    }
}

proof fn lemma_checked(s: Sess, e: Expr)
    requires
        crate::suspend::settled(e),
        e.kind is Try || e.kind is Cast || e.kind is Unary,
    ensures
        form_untouched(e, crate::anf::rewritten_prefix(s, e)),
    decreases e, 0int,
{
    match e.kind {
        ExprKind::Try { expr, .. } => lemma_atomized(s, *expr),
        ExprKind::Cast { expr, .. } => lemma_atomized(s, *expr),
        ExprKind::Unary { operand, .. } => lemma_atomized(s, *operand),
        _ => {},
    }
}

proof fn lemma_reference(s: Sess, e: Expr)
    requires
        crate::suspend::settled(e),
        e.kind is Ref || e.kind is Deref,
    ensures
        form_untouched(e, crate::anf::rewritten_prefix(s, e)),
    decreases e, 0int,
{
    match e.kind {
        ExprKind::Ref { expr, .. } => lemma_atomized(s, *expr),
        ExprKind::Deref { expr, .. } => lemma_atomized(s, *expr),
        _ => {},
    }
}

proof fn lemma_part(s: Sess, e: Expr)
    requires
        crate::suspend::settled(e),
        e.kind is Field || e.kind is TupleIndex,
    ensures
        form_untouched(e, crate::anf::rewritten_prefix(s, e)),
    decreases e, 0int,
{
    match e.kind {
        ExprKind::Field { receiver, .. } => lemma_atomized(s, *receiver),
        ExprKind::TupleIndex { receiver, .. } => lemma_atomized(s, *receiver),
        _ => {},
    }
}

proof fn lemma_exit(s: Sess, e: Expr)
    requires
        crate::suspend::settled(e),
        e.kind is Return || e.kind is Break,
    ensures
        form_untouched(e, crate::anf::rewritten_prefix(s, e)),
    decreases e, 0int,
{
    match e.kind {
        ExprKind::Return(v) => lemma_opt_tail(s, v),
        ExprKind::Break(v) => lemma_opt_tail(s, v),
        _ => {},
    }
}

/// An operand of a settled operation.
proof fn lemma_atomized(s: Sess, e: Expr)
    requires
        crate::suspend::quiet(e),
    ensures
        untouched(e, crate::anf::atomized(s, e)),
        untouched(e, crate::anf::operand(s, e, false)),
        !crate::anf::leaves(e),
        !crate::anf::stays(e),
    decreases e, 3int,
{
    crate::suspend::lemma_quiet(e);
    lemma_still(s, e);
}

proof fn lemma_binary(s: Sess, e: Expr)
    requires
        crate::suspend::settled(e),
        e.kind is Binary,
    ensures
        form_untouched(e, crate::anf::rewritten_operands(s, e)),
    decreases e, 0int,
{
    match e.kind {
        ExprKind::Binary { op, left, right, .. } => {
            lemma_atomized(s, *left);
            if op == BinaryOp::And || op == BinaryOp::Or {
                let s1 = crate::anf::atomized(s, *left).0;
                if crate::anf::leaves(*right) {
                    crate::suspend::lemma_rewritten(s1, *right);
                } else {
                    lemma_still(s1, *right);
                }
            } else {
                lemma_atomized(crate::anf::operand(s, *left, false).0, *right);
            }
        },
        _ => {},
    }
}

proof fn lemma_index(s: Sess, e: Expr)
    requires
        crate::suspend::settled(e),
        e.kind is Index,
    ensures
        form_untouched(e, crate::anf::rewritten_operands(s, e)),
    decreases e, 0int,
{
    match e.kind {
        ExprKind::Index { receiver, index } => {
            lemma_atomized(s, *receiver);
            lemma_atomized(crate::anf::operand(s, *receiver, false).0, *index);
        },
        _ => {},
    }
}

proof fn lemma_call(s: Sess, e: Expr)
    requires
        crate::suspend::settled(e),
        e.kind is Call,
    ensures
        form_untouched(e, crate::anf::rewritten_operands(s, e)),
    decreases e, 0int,
{
    match e.kind {
        ExprKind::Call { callee, args, trailing_closure, .. } => {
            lemma_opt_scope(s, trailing_closure);
            let s0 = crate::anf::opt_scope(s, trailing_closure).0;
            match callee.kind {
                ExprKind::Field { receiver, .. } => {
                    crate::suspend::lemma_quiet(*callee);
                    lemma_atomized(s0, *receiver);
                    lemma_operands(crate::anf::operand(s0, *receiver, false).0, args);
                },
                _ => {
                    lemma_atomized(s0, *callee);
                    lemma_operands(crate::anf::operand(s0, *callee, false).0, args);
                },
            }
        },
        _ => {},
    }
}

proof fn lemma_elements(s: Sess, e: Expr)
    requires
        crate::suspend::settled(e),
        e.kind is Tuple || e.kind is List || e.kind is MapLit || e.kind is Str,
    ensures
        form_untouched(e, crate::anf::rewritten_operands(s, e)),
    decreases e, 0int,
{
    match e.kind {
        ExprKind::Tuple(es) => lemma_operands(s, es),
        ExprKind::List(es) => lemma_operands(s, es),
        ExprKind::MapLit(items) => lemma_entry_operands(s, items),
        ExprKind::Str(lit) => lemma_hole_operands(s, lit.parts),
        _ => {},
    }
}

proof fn lemma_struct_lit(s: Sess, e: Expr)
    requires
        crate::suspend::settled(e),
        e.kind is StructLit,
    ensures
        form_untouched(e, crate::anf::rewritten_operands(s, e)),
    decreases e, 0int,
{
    match e.kind {
        ExprKind::StructLit { fields, spread, .. } => {
            lemma_field_operands(s, fields);
            match spread {
                Some(x) => {
                    assert(crate::suspend::opt_quiet(spread));
                    assert(crate::suspend::quiet(*x));
                    lemma_atomized(crate::anf::field_operands(s, fields, false, false).0, *x);
                },
                None => {},
            }
        },
        _ => {},
    }
}

proof fn lemma_branches(s: Sess, e: Expr)
    requires
        crate::suspend::settled(e),
        e.kind is If || e.kind is Match,
    ensures
        form_untouched(e, crate::anf::rewritten_control(s, e)),
    decreases e, 0int,
{
    match e.kind {
        ExprKind::If { cond, then_block, else_branch } => {
            lemma_atomized(s, *cond);
            let s1 = crate::anf::atomized(s, *cond).0;
            lemma_block(s1, then_block);
            lemma_else(crate::anf::processed(s1, then_block).0, else_branch);
        },
        ExprKind::Match { scrutinee, arms } => {
            lemma_atomized(s, *scrutinee);
            lemma_arms(crate::anf::atomized(s, *scrutinee).0, arms);
        },
        _ => {},
    }
}

proof fn lemma_for(s: Sess, e: Expr)
    requires
        crate::suspend::settled(e),
        e.kind is For,
    ensures
        form_untouched(e, crate::anf::rewritten_control(s, e)),
    decreases e, 0int,
{
    match e.kind {
        ExprKind::For { iter, body, .. } => {
            lemma_block(s, body);
            lemma_atomized(crate::anf::processed(s, body).0, *iter);
        },
        _ => {},
    }
}

proof fn lemma_operands(s: Sess, l: List<Expr>)
    requires
        crate::suspend::all_quiet(l),
    ensures
        crate::anf::operands(s, l, false).1 is Nil,
        crate::anf::operands(s, l, false).2 == l,
        !crate::anf::any_leaves(l),
        !crate::anf::any_stays(l),
    decreases l, 0int,
{
    match l {
        List::Nil => {},
        List::Cons(h, t) => {
            lemma_atomized(s, *h);
            lemma_operands(crate::anf::operand(s, *h, false).0, *t);
        },
    }
}

proof fn lemma_field_operands(s: Sess, l: List<FieldInit>)
    requires
        crate::suspend::fields_quiet(l),
    ensures
        crate::anf::field_operands(s, l, false, false).1 is Nil,
        crate::anf::field_operands(s, l, false, false).2 == l,
        !crate::anf::any_field_leaves(l),
        !crate::anf::any_field_stays(l),
    decreases l, 0int,
{
    match l {
        List::Nil => {},
        List::Cons(h, t) => match h.value {
            Some(v) => {
                lemma_atomized(s, v);
                lemma_field_operands(crate::anf::operand(s, v, false).0, *t);
            },
            None => lemma_field_operands(s, *t),
        },
    }
}

proof fn lemma_entry_operands(s: Sess, l: List<MapItem>)
    requires
        crate::suspend::entries_quiet(l),
    ensures
        crate::anf::entry_operands(s, l, false).1 is Nil,
        crate::anf::entry_operands(s, l, false).2 == l,
        !crate::anf::any_entry_leaves(l),
        !crate::anf::any_entry_stays(l),
    decreases l, 0int,
{
    match l {
        List::Nil => {},
        List::Cons(h, t) => match *h {
            MapItem::Entry { key, value, .. } => {
                lemma_atomized(s, *key);
                let s1 = crate::anf::operand(s, *key, false).0;
                lemma_atomized(s1, *value);
                lemma_entry_operands(crate::anf::operand(s1, *value, false).0, *t);
            },
            MapItem::Spread(x) => {
                lemma_atomized(s, *x);
                lemma_entry_operands(crate::anf::operand(s, *x, false).0, *t);
            },
        },
    }
}

proof fn lemma_hole_operands(s: Sess, l: List<StringPart>)
    requires
        crate::suspend::holes_quiet(l),
    ensures
        crate::anf::hole_operands(s, l, false).1 is Nil,
        crate::anf::hole_operands(s, l, false).2 == l,
        !crate::anf::any_hole_leaves(l),
        !crate::anf::any_hole_stays(l),
    decreases l, 0int,
{
    match l {
        List::Nil => {},
        List::Cons(h, t) => match *h {
            StringPart::Expr(x) => {
                lemma_atomized(s, x);
                lemma_hole_operands(crate::anf::operand(s, x, false).0, *t);
            },
            _ => lemma_hole_operands(s, *t),
        },
    }
}

proof fn lemma_opt_tail(s: Sess, e: Option<Box<Expr>>)
    requires
        crate::suspend::settled_opt(e),
    ensures
        crate::anf::opt_tail(s, e).1 is Nil,
        crate::anf::opt_tail(s, e).2 == e,
    decreases e, 0int,
{
    match e {
        Some(x) => lemma_still(s, *x),
        None => {},
    }
}

proof fn lemma_scope(s: Sess, e: Expr)
    requires
        crate::suspend::settled(e),
    ensures
        crate::anf::scope(s, e).1 == e,
    decreases e, 3int,
{
    lemma_still(s, e);
}

proof fn lemma_opt_scope(s: Sess, e: Option<Box<Expr>>)
    requires
        crate::suspend::settled_opt(e),
    ensures
        crate::anf::opt_scope(s, e).1 == e,
    decreases e, 0int,
{
    match e {
        Some(x) => lemma_scope(s, *x),
        None => {},
    }
}

proof fn lemma_arms(s: Sess, l: List<MatchArm>)
    requires
        crate::suspend::settled_arms(l),
    ensures
        crate::anf::rewritten_arms(s, l).1 == l,
    decreases l, 0int,
{
    match l {
        List::Nil => {},
        List::Cons(h, t) => {
            lemma_scope(s, h.body);
            lemma_arms(crate::anf::scope(s, h.body).0, *t);
        },
    }
}

proof fn lemma_else(s: Sess, e: Option<ElseBranch>)
    requires
        crate::suspend::settled_else(e),
    ensures
        crate::anf::processed_else(s, e).1 == e,
    decreases e, 0int,
{
    match e {
        Some(ElseBranch::If(x)) => lemma_scope(s, *x),
        Some(ElseBranch::Block(b)) => lemma_block(s, b),
        None => {},
    }
}

proof fn lemma_block(s: Sess, b: Block)
    requires
        crate::suspend::settled_block(b),
    ensures
        crate::anf::processed(s, b).1 == b,
    decreases b, 0int,
{
    lemma_stmts(s, b.stmts);
    match b.trailing {
        Some(t) => {
            assert(crate::suspend::settled(*t));
            lemma_still(crate::anf::processed_stmts(s, b.stmts).0, *t);
            lemma_append_nil(b.stmts);
        },
        None => {},
    }
}

proof fn lemma_append_nil(l: List<Stmt>)
    ensures
        l.then_list(List::Nil) == l,
    decreases l,
{
    match l {
        List::Nil => {},
        List::Cons(_, t) => lemma_append_nil(*t),
    }
}

proof fn lemma_stmts(s: Sess, l: List<Stmt>)
    requires
        crate::suspend::settled_stmts(l),
    ensures
        crate::anf::processed_stmts(s, l).1 == l,
    decreases l, 0int,
{
    match l {
        List::Nil => {},
        List::Cons(h, t) => {
            lemma_stmt(s, *h);
            lemma_stmts(crate::anf::processed_stmt(s, *h).0, *t);
        },
    }
}

proof fn lemma_stmt(s: Sess, x: Stmt)
    requires
        crate::suspend::settled_stmt(x),
    ensures
        crate::anf::processed_stmt(s, x).1 is Nil,
        crate::anf::processed_stmt(s, x).2 == x.kind,
    decreases x, 0int,
{
    match x.kind {
        StmtKind::Var(v) => lemma_still(s, v.init),
        StmtKind::Assign { target, value } => {
            lemma_still(crate::anf::place(s, target, false).0, value);
            lemma_place(s, target);
        },
        StmtKind::Expr(e) => lemma_still(s, e),
        StmtKind::Item(it) => lemma_item(s, *it),
    }
}

proof fn lemma_place(s: Sess, target: Expr)
    requires
        crate::suspend::quiet(target),
    ensures
        untouched(target, crate::anf::place(s, target, false)),
    decreases target, 3int,
{
    crate::suspend::lemma_quiet(target);
    lemma_still(s, target);
}

proof fn lemma_function(s: Sess, f: FunctionItem)
    requires
        crate::suspend::settled_function(f),
    ensures
        crate::anf::processed_function(s, f).1 == f,
    decreases f, 0int,
{
    match f.body {
        Some(b) => lemma_block(s, b),
        None => {},
    }
}

proof fn lemma_item(s: Sess, it: Item)
    requires
        crate::suspend::settled_item(it),
    ensures
        crate::anf::hoisted_item(s, it).1 == it,
    decreases it, 0int,
{
    match it.kind {
        ItemKind::Function(f) => lemma_function(s, f),
        ItemKind::Extend(e) => lemma_members(s, e.members),
        ItemKind::Module(m) => match m.kind {
            ModuleKind::Inline { items, .. } => law_settled_stays(s, items),
            ModuleKind::File => {},
        },
        _ => {},
    }
}

proof fn lemma_members(s: Sess, l: List<ExtendMember>)
    requires
        crate::suspend::settled_members(l),
    ensures
        crate::anf::hoisted_members(s, l).1 == l,
    decreases l, 0int,
{
    match l {
        List::Nil => {},
        List::Cons(h, t) => {
            lemma_function(s, h.function);
            lemma_members(crate::anf::processed_function(s, h.function).0, *t);
        },
    }
}

/// Items in which every `await` stands at statement level are left as they are.
pub proof fn law_settled_stays(s: Sess, l: List<Item>)
    requires
        crate::suspend::settled_items(l),
    ensures
        crate::anf::hoisted_items(s, l).1 == l,
    decreases l, 0int,
{
    match l {
        List::Nil => {},
        List::Cons(h, t) => {
            lemma_item(s, *h);
            law_settled_stays(crate::anf::hoisted_item(s, *h).0, *t);
        },
    }
}

/// Hoisting a second time changes nothing, whatever was done in between: no new
/// temporary is made and no span changes.
pub proof fn law_hoist_twice(s: Sess, again: Sess, l: List<Item>)
    ensures
        crate::anf::hoisted_items(again, crate::anf::hoisted_items(s, l).1).1 == crate::anf::hoisted_items(s, l).1,
{
    crate::suspend::law_hoisted_settled(s, l);
    law_settled_stays(again, crate::anf::hoisted_items(s, l).1);
}

} // verus!
