//! Where `await` is left after hoisting: only where the async state machine can
//! suspend.
use vstd::prelude::*;
use crate::ast::{
    BinaryOp, Block, ElseBranch, Expr, ExprKind, ExtendMember, FieldInit, FunctionItem, Item, ItemKind, MapItem, MatchArm,
    ModuleKind, Stmt, StmtKind, StringPart,
};
use crate::list::List;
use crate::session::Sess;
use crate::span::Span;

verus! {

/// What hoisting leads to. Every `await` of `e` stands at statement level: it is,
/// through parentheses, the whole value of a `var` or assignment, of an expression
/// statement, of a block, of a closure's or arm's body, or of a `return` or `break`.
/// The conditions of `while`, the guards of `match` and a right operand of `&&` or
/// `||` that would leave bindings run only sometimes and are not looked at. No
/// closure is async, no anonymous function could be a closure, and an async loop
/// runs over a place.
pub open spec fn settled(e: Expr) -> bool
    decreases e, 0int,
{
    match e.kind {
        ExprKind::Await { expr, .. } => quiet(*expr),
        ExprKind::Spawn { expr, .. } => quiet(*expr),
        ExprKind::Paren(x) => settled(*x),
        ExprKind::Try { expr, .. } => quiet(*expr),
        ExprKind::Cast { expr, .. } => quiet(*expr),
        ExprKind::Unary { operand, .. } => quiet(*operand),
        ExprKind::Ref { expr, .. } => quiet(*expr),
        ExprKind::Deref { expr, .. } => quiet(*expr),
        ExprKind::Field { receiver, .. } => quiet(*receiver),
        ExprKind::TupleIndex { receiver, .. } => quiet(*receiver),
        ExprKind::Return(v) => settled_opt(v),
        ExprKind::Break(v) => settled_opt(v),
        ExprKind::Binary { op, left, right, .. } => quiet(*left) && if op == BinaryOp::And || op == BinaryOp::Or {
            crate::anf::leaves(*right) || settled(*right)
        } else {
            quiet(*right)
        },
        ExprKind::Index { receiver, index } => quiet(*receiver) && quiet(*index),
        ExprKind::Call { callee, args, trailing_closure, .. } => quiet(*callee) && all_quiet(args) && settled_opt(
            trailing_closure,
        ),
        ExprKind::Tuple(es) => all_quiet(es),
        ExprKind::List(es) => all_quiet(es),
        ExprKind::StructLit { fields, spread, .. } => fields_quiet(fields) && opt_quiet(spread),
        ExprKind::MapLit(items) => entries_quiet(items),
        ExprKind::Str(lit) => holes_quiet(lit.parts),
        ExprKind::If { cond, then_block, else_branch } => quiet(*cond) && settled_block(then_block) && settled_else(
            else_branch,
        ),
        ExprKind::Match { scrutinee, arms } => quiet(*scrutinee) && settled_arms(arms),
        ExprKind::Block(b) => settled_block(b),
        ExprKind::Loop(b) => settled_block(b),
        ExprKind::AsyncBlock(b) => settled_block(b),
        ExprKind::While { body, .. } => settled_block(body),
        ExprKind::For { in_async, iter, body, .. } => quiet(*iter) && settled_block(body) && (in_async
            ==> crate::anf::is_place(*iter)),
        ExprKind::Closure { is_async, body, .. } => !is_async && settled(*body),
        ExprKind::AnonFn(f) => (f.generics is Some || f.body is None) && settled_function(*f),
        _ => true,
    }
}

/// An operand: it does not await, and what it holds is settled.
pub open spec fn quiet(e: Expr) -> bool
    decreases e, 1int,
{
    !crate::anf::awaits(e) && settled(e)
}

pub open spec fn settled_opt(e: Option<Box<Expr>>) -> bool
    decreases e, 0int,
{
    match e {
        Some(x) => settled(*x),
        None => true,
    }
}

pub open spec fn opt_quiet(e: Option<Box<Expr>>) -> bool
    decreases e, 0int,
{
    match e {
        Some(x) => quiet(*x),
        None => true,
    }
}

pub open spec fn all_quiet(l: List<Expr>) -> bool
    decreases l, 0int,
{
    match l {
        List::Nil => true,
        List::Cons(h, t) => quiet(*h) && all_quiet(*t),
    }
}

pub open spec fn fields_quiet(l: List<FieldInit>) -> bool
    decreases l, 0int,
{
    match l {
        List::Nil => true,
        List::Cons(h, t) => (match h.value {
            Some(v) => quiet(v),
            None => true,
        }) && fields_quiet(*t),
    }
}

pub open spec fn entries_quiet(l: List<MapItem>) -> bool
    decreases l, 0int,
{
    match l {
        List::Nil => true,
        List::Cons(h, t) => (match *h {
            MapItem::Entry { key, value, .. } => quiet(*key) && quiet(*value),
            MapItem::Spread(x) => quiet(*x),
        }) && entries_quiet(*t),
    }
}

pub open spec fn holes_quiet(l: List<StringPart>) -> bool
    decreases l, 0int,
{
    match l {
        List::Nil => true,
        List::Cons(h, t) => (match *h {
            StringPart::Expr(x) => quiet(x),
            _ => true,
        }) && holes_quiet(*t),
    }
}

pub open spec fn settled_arms(l: List<MatchArm>) -> bool
    decreases l, 0int,
{
    match l {
        List::Nil => true,
        List::Cons(h, t) => settled(h.body) && settled_arms(*t),
    }
}

pub open spec fn settled_else(e: Option<ElseBranch>) -> bool
    decreases e, 0int,
{
    match e {
        Some(ElseBranch::If(x)) => settled(*x),
        Some(ElseBranch::Block(b)) => settled_block(b),
        None => true,
    }
}

pub open spec fn settled_block(b: Block) -> bool
    decreases b, 0int,
{
    settled_stmts(b.stmts) && settled_opt(b.trailing)
}

pub open spec fn settled_stmts(l: List<Stmt>) -> bool
    decreases l, 0int,
{
    match l {
        List::Nil => true,
        List::Cons(h, t) => settled_stmt(*h) && settled_stmts(*t),
    }
}

pub open spec fn settled_stmt(x: Stmt) -> bool
    decreases x, 0int,
{
    match x.kind {
        StmtKind::Var(v) => settled(v.init),
        StmtKind::Assign { target, value } => quiet(target) && settled(value),
        StmtKind::Expr(e) => settled(e),
        StmtKind::Item(it) => settled_item(*it),
    }
}

pub open spec fn settled_function(f: FunctionItem) -> bool
    decreases f, 0int,
{
    match f.body {
        Some(b) => settled_block(b),
        None => true,
    }
}

pub open spec fn settled_item(it: Item) -> bool
    decreases it, 0int,
{
    match it.kind {
        ItemKind::Function(f) => settled_function(f),
        ItemKind::Extend(e) => settled_members(e.members),
        ItemKind::Module(m) => match m.kind {
            ModuleKind::Inline { items, .. } => settled_items(items),
            ModuleKind::File => true,
        },
        _ => true,
    }
}

pub open spec fn settled_members(l: List<ExtendMember>) -> bool
    decreases l, 0int,
{
    match l {
        List::Nil => true,
        List::Cons(h, t) => settled_function(h.function) && settled_members(*t),
    }
}

pub open spec fn settled_items(l: List<Item>) -> bool
    decreases l, 0int,
{
    match l {
        List::Nil => true,
        List::Cons(h, t) => settled_item(*h) && settled_items(*t),
    }
}

// -- that hoisting leads there -------------------------------------------------------------

/// The bindings and the expression that hoisting makes of `e` are settled, and
/// whether there are bindings and whether the expression awaits is as foretold.
pub open spec fn hoists_well(e: Expr, r: (Sess, List<Stmt>, Expr)) -> bool {
    &&& settled_stmts(r.1)
    &&& settled(r.2)
    &&& crate::anf::awaits(r.2) == crate::anf::stays(e)
    &&& r.1 is Nil == !crate::anf::leaves(e)
}

proof fn lemma_stmts_append(a: List<Stmt>, b: List<Stmt>)
    ensures
        settled_stmts(a.then_list(b)) <==> settled_stmts(a) && settled_stmts(b),
        a.then_list(b) is Nil <==> a is Nil && b is Nil,
    decreases a,
{
    match a {
        List::Nil => {},
        List::Cons(_, t) => lemma_stmts_append(*t, b),
    }
}

proof fn lemma_stmts_snoc(a: List<Stmt>, x: Stmt)
    ensures
        settled_stmts(a.snoc(x)) <==> settled_stmts(a) && settled_stmt(x),
        !(a.snoc(x) is Nil),
    decreases a,
{
    reveal_with_fuel(settled_stmts, 2);
    match a {
        List::Nil => {},
        List::Cons(_, t) => lemma_stmts_snoc(*t, x),
    }
}

/// The same of a form without its span.
#[verifier::opaque]
pub open spec fn form_hoists_well(e: Expr, r: (Sess, List<Stmt>, ExprKind)) -> bool {
    hoists_well(e, (r.0, r.1, Expr { kind: r.2, span: e.span }))
}

pub(crate) proof fn lemma_rewritten(s: Sess, e: Expr)
    ensures
        hoists_well(e, crate::anf::rewritten(s, e)),
    decreases e, 2int,
{
    reveal(form_hoists_well);
    lemma_kind(s, e);
}

proof fn lemma_kind(s: Sess, e: Expr)
    ensures
        form_hoists_well(e, crate::anf::rewritten_kind(s, e)),
    decreases e, 1int,
{
    match e.kind {
        ExprKind::Await { .. } | ExprKind::Spawn { .. } | ExprKind::Paren { .. } => lemma_suspended(s, e),
        ExprKind::Try { .. } | ExprKind::Cast { .. } | ExprKind::Unary { .. } => lemma_checked(s, e),
        ExprKind::Ref { .. } | ExprKind::Deref { .. } => lemma_reference(s, e),
        ExprKind::Field { .. } | ExprKind::TupleIndex { .. } => lemma_part(s, e),
        ExprKind::Return { .. } | ExprKind::Break { .. } => lemma_exit(s, e),
        ExprKind::Binary { op, .. } => if op == BinaryOp::And || op == BinaryOp::Or {
            lemma_logical(s, e);
        } else {
            lemma_binary(s, e);
        },
        ExprKind::Index { .. } => lemma_index(s, e),
        ExprKind::Call { callee, .. } => if callee.kind is Field {
            lemma_method_call(s, e);
        } else {
            lemma_call(s, e);
        },
        ExprKind::Tuple(_) => lemma_tuple(s, e),
        ExprKind::List(_) => lemma_list(s, e),
        ExprKind::MapLit(_) => lemma_map_lit(s, e),
        ExprKind::Str(_) => lemma_str(s, e),
        ExprKind::StructLit { .. } => lemma_struct_lit(s, e),
        ExprKind::If { .. } => lemma_if(s, e),
        ExprKind::Match { .. } => lemma_match(s, e),
        ExprKind::For { .. } => lemma_for(s, e),
        ExprKind::Closure { .. } => lemma_closure(s, e),
        ExprKind::AnonFn(_) => lemma_anon_fn_form(s, e),
        ExprKind::Block(_) => lemma_block_form(s, e),
        ExprKind::Loop(_) => lemma_loop(s, e),
        ExprKind::AsyncBlock(_) => lemma_async_block(s, e),
        ExprKind::While { .. } => lemma_while(s, e),
        _ => lemma_leaf(s, e),
    }
}

proof fn lemma_anon_fn_form(s: Sess, e: Expr)
    requires
        e.kind is AnonFn,
    ensures
        form_hoists_well(e, crate::anf::rewritten_control(s, e)),
    decreases e, 0int,
{
    reveal(form_hoists_well);
    let f = *e.kind->AnonFn_0;
    lemma_anon_fn(s, f, e.span);
    assert(crate::anf::rewritten_control(s, e).2 == crate::anf::anon_fn_closure(s, f).1);
}

proof fn lemma_block_form(s: Sess, e: Expr)
    requires
        e.kind is Block,
    ensures
        form_hoists_well(e, crate::anf::rewritten_control(s, e)),
    decreases e, 0int,
{
    reveal(form_hoists_well);
    let b = e.kind->Block_0;
    lemma_processed(s, b);
    let b1 = crate::anf::processed(s, b).1;
    assert(crate::anf::rewritten_control(s, e).2 == ExprKind::Block(b1));
}

proof fn lemma_loop(s: Sess, e: Expr)
    requires
        e.kind is Loop,
    ensures
        form_hoists_well(e, crate::anf::rewritten_control(s, e)),
    decreases e, 0int,
{
    reveal(form_hoists_well);
    let b = e.kind->Loop_0;
    lemma_processed(s, b);
    let b1 = crate::anf::processed(s, b).1;
    assert(crate::anf::rewritten_control(s, e).2 == ExprKind::Loop(b1));
}

proof fn lemma_async_block(s: Sess, e: Expr)
    requires
        e.kind is AsyncBlock,
    ensures
        form_hoists_well(e, crate::anf::rewritten_control(s, e)),
    decreases e, 0int,
{
    reveal(form_hoists_well);
    let b = e.kind->AsyncBlock_0;
    lemma_processed(s, b);
    let b1 = crate::anf::processed(s, b).1;
    assert(crate::anf::rewritten_control(s, e).2 == ExprKind::AsyncBlock(b1));
}

proof fn lemma_while(s: Sess, e: Expr)
    requires
        e.kind is While,
    ensures
        form_hoists_well(e, crate::anf::rewritten_control(s, e)),
    decreases e, 0int,
{
    reveal(form_hoists_well);
    lemma_processed(s, e.kind->While_body);
}

/// The form holds nothing that is rewritten.
pub open spec fn is_leaf(e: Expr) -> bool {
    match e.kind {
        ExprKind::Int(_) | ExprKind::Float(_) | ExprKind::Bool(_) | ExprKind::Null | ExprKind::Char(_)
        | ExprKind::Ident(_) | ExprKind::SelfExpr | ExprKind::Underscore | ExprKind::Continue
        | ExprKind::MacroCall { .. } => true,
        _ => false,
    }
}

proof fn lemma_leaf(s: Sess, e: Expr)
    requires
        is_leaf(e),
    ensures
        form_hoists_well(e, crate::anf::rewritten_control(s, e)),
{
    reveal(form_hoists_well);
    assert(crate::anf::rewritten_control(s, e) == (s, List::<Stmt>::Nil, e.kind));
    assert(Expr { kind: e.kind, span: e.span } == e);
    assert(settled(e));
}

proof fn lemma_suspended(s: Sess, e: Expr)
    requires
        e.kind is Await || e.kind is Spawn || e.kind is Paren,
    ensures
        form_hoists_well(e, crate::anf::rewritten_prefix(s, e)),
    decreases e, 0int,
{
    reveal(form_hoists_well);
    match e.kind {
        ExprKind::Await { expr, .. } => lemma_atomized(s, *expr),
        ExprKind::Spawn { expr, .. } => lemma_atomized(s, *expr),
        ExprKind::Paren(x) => lemma_rewritten(s, *x),
        _ => {},
    }
}

proof fn lemma_checked(s: Sess, e: Expr)
    requires
        e.kind is Try || e.kind is Cast || e.kind is Unary,
    ensures
        form_hoists_well(e, crate::anf::rewritten_prefix(s, e)),
    decreases e, 0int,
{
    reveal(form_hoists_well);
    match e.kind {
        ExprKind::Try { expr, .. } => lemma_atomized(s, *expr),
        ExprKind::Cast { expr, .. } => lemma_atomized(s, *expr),
        ExprKind::Unary { operand, .. } => lemma_atomized(s, *operand),
        _ => {},
    }
}

proof fn lemma_reference(s: Sess, e: Expr)
    requires
        e.kind is Ref || e.kind is Deref,
    ensures
        form_hoists_well(e, crate::anf::rewritten_prefix(s, e)),
    decreases e, 0int,
{
    reveal(form_hoists_well);
    match e.kind {
        ExprKind::Ref { expr, .. } => lemma_atomized(s, *expr),
        ExprKind::Deref { expr, .. } => lemma_atomized(s, *expr),
        _ => {},
    }
}

proof fn lemma_part(s: Sess, e: Expr)
    requires
        e.kind is Field || e.kind is TupleIndex,
    ensures
        form_hoists_well(e, crate::anf::rewritten_prefix(s, e)),
    decreases e, 0int,
{
    reveal(form_hoists_well);
    match e.kind {
        ExprKind::Field { receiver, .. } => lemma_atomized(s, *receiver),
        ExprKind::TupleIndex { receiver, .. } => lemma_atomized(s, *receiver),
        _ => {},
    }
}

proof fn lemma_exit(s: Sess, e: Expr)
    requires
        e.kind is Return || e.kind is Break,
    ensures
        form_hoists_well(e, crate::anf::rewritten_prefix(s, e)),
    decreases e, 0int,
{
    reveal(form_hoists_well);
    match e.kind {
        ExprKind::Return(v) => lemma_opt_tail(s, v),
        ExprKind::Break(v) => lemma_opt_tail(s, v),
        _ => {},
    }
}

proof fn lemma_logical(s: Sess, e: Expr)
    requires
        e.kind is Binary,
        e.kind->Binary_op == BinaryOp::And || e.kind->Binary_op == BinaryOp::Or,
    ensures
        form_hoists_well(e, crate::anf::rewritten_operands(s, e)),
    decreases e, 0int,
{
    reveal(form_hoists_well);
    match e.kind {
        ExprKind::Binary { left, right, .. } => {
            lemma_atomized(s, *left);
            lemma_rewritten(crate::anf::atomized(s, *left).0, *right);
        },
        _ => {},
    }
}

/// What is known of an operand.
#[verifier::opaque]
pub open spec fn operand_fits(s: Sess, e: Expr, bind: bool) -> bool {
    let (_, pre, x) = crate::anf::operand(s, e, bind);
    &&& settled_stmts(pre)
    &&& quiet(x)
    &&& !bind && !crate::anf::leaves(e) ==> pre is Nil
    &&& crate::anf::binds(e) ==> !(pre is Nil)
}

#[verifier::opaque]
pub open spec fn operands_fit(s: Sess, l: List<Expr>, all: bool) -> bool {
    let (_, pre, xs) = crate::anf::operands(s, l, all);
    &&& settled_stmts(pre)
    &&& all_quiet(xs)
    &&& !crate::anf::any_awaits(xs)
    &&& !all && !crate::anf::any_leaves(l) ==> pre is Nil
    &&& crate::anf::any_leaves(l) || crate::anf::any_stays(l) ==> !(pre is Nil)
}

#[verifier::opaque]
pub open spec fn fields_fit(s: Sess, l: List<FieldInit>, all: bool, later: bool) -> bool {
    let (_, pre, xs) = crate::anf::field_operands(s, l, all, later);
    &&& settled_stmts(pre)
    &&& fields_quiet(xs)
    &&& !crate::anf::any_field_awaits(xs)
    &&& !all && !later && !crate::anf::any_field_leaves(l) ==> pre is Nil
    &&& crate::anf::any_field_leaves(l) || crate::anf::any_field_stays(l) ==> !(pre is Nil)
}

#[verifier::opaque]
pub open spec fn scope_fits(s: Sess, e: Option<Box<Expr>>) -> bool {
    settled_opt(crate::anf::opt_scope(s, e).1)
}

proof fn lemma_operand_fits(s: Sess, e: Expr, bind: bool)
    requires
        crate::anf::stays(e) ==> bind,
    ensures
        operand_fits(s, e, bind),
    decreases e, 4int,
{
    reveal(operand_fits);
    lemma_operand(s, e, bind);
}

proof fn lemma_operands_fit(s: Sess, l: List<Expr>, all: bool)
    requires
        crate::anf::any_stays(l) ==> all,
    ensures
        operands_fit(s, l, all),
    decreases l, 1int,
{
    reveal(operands_fit);
    lemma_operands(s, l, all);
}

proof fn lemma_fields_fit(s: Sess, l: List<FieldInit>, all: bool, later: bool)
    requires
        crate::anf::any_field_stays(l) ==> all,
    ensures
        fields_fit(s, l, all, later),
    decreases l, 1int,
{
    reveal(fields_fit);
    lemma_field_operands(s, l, all, later);
}

proof fn lemma_scope_fits(s: Sess, e: Option<Box<Expr>>)
    ensures
        scope_fits(s, e),
    decreases e, 1int,
{
    reveal(scope_fits);
    lemma_opt_scope(s, e);
}

proof fn lemma_index_closes(s: Sess, e: Expr, receiver: Expr, index: Expr, all: bool, first: bool)
    requires
        e.kind == (ExprKind::Index { receiver: Box::new(receiver), index: Box::new(index) }),
        all == (crate::anf::stays(receiver) || crate::anf::stays(index)),
        first == (all || crate::anf::leaves(index)),
        operand_fits(s, receiver, first),
        operand_fits(crate::anf::operand(s, receiver, first).0, index, all),
    ensures
        form_hoists_well(e, crate::anf::rewritten_operands(s, e)),
{
    reveal(form_hoists_well);
    reveal(operand_fits);
    let (s1, pre1, r) = crate::anf::operand(s, receiver, first);
    let (_, pre2, i) = crate::anf::operand(s1, index, all);
    lemma_stmts_append(pre1, pre2);
    let z = crate::anf::rewritten_operands(s, e);
    assert(z.1 == pre1.then_list(pre2));
    assert(z.2 == ExprKind::Index { receiver: Box::new(r), index: Box::new(i) });
    let x = Expr { kind: z.2, span: e.span };
    assert(settled(x));
    assert(!crate::anf::stays(e));
    assert(!crate::anf::awaits(x));
    assert(crate::anf::leaves(e) == (crate::anf::binds(receiver) || crate::anf::binds(index)));
    assert(z.1 is Nil == !crate::anf::leaves(e));
}

proof fn lemma_index(s: Sess, e: Expr)
    requires
        e.kind is Index,
    ensures
        form_hoists_well(e, crate::anf::rewritten_operands(s, e)),
    decreases e, 0int,
{
    match e.kind {
        ExprKind::Index { receiver, index } => {
            let all = crate::anf::stays(*receiver) || crate::anf::stays(*index);
            let first = all || crate::anf::leaves(*index);
            lemma_operand_fits(s, *receiver, first);
            lemma_operand_fits(crate::anf::operand(s, *receiver, first).0, *index, all);
            lemma_index_closes(s, e, *receiver, *index, all, first);
        },
        _ => {},
    }
}

proof fn lemma_binary_closes(s: Sess, e: Expr, left: Expr, right: Expr, all: bool, first: bool)
    requires
        e.kind is Binary,
        e.kind->Binary_op != BinaryOp::And,
        e.kind->Binary_op != BinaryOp::Or,
        *e.kind->Binary_left == left,
        *e.kind->Binary_right == right,
        all == (crate::anf::stays(left) || crate::anf::stays(right)),
        first == (all || crate::anf::leaves(right)),
        operand_fits(s, left, first),
        operand_fits(crate::anf::operand(s, left, first).0, right, all),
    ensures
        form_hoists_well(e, crate::anf::rewritten_operands(s, e)),
{
    reveal(form_hoists_well);
    reveal(operand_fits);
    let (s1, pre1, l) = crate::anf::operand(s, left, first);
    let (_, pre2, r) = crate::anf::operand(s1, right, all);
    lemma_stmts_append(pre1, pre2);
    let z = crate::anf::rewritten_operands(s, e);
    assert(z.1 == pre1.then_list(pre2));
    let x = Expr { kind: z.2, span: e.span };
    assert(x.kind is Binary);
    assert(*x.kind->Binary_left == l);
    assert(*x.kind->Binary_right == r);
    assert(settled(x));
    assert(!crate::anf::stays(e));
    assert(!crate::anf::awaits(x));
    assert(crate::anf::leaves(e) == (crate::anf::binds(left) || crate::anf::binds(right)));
    assert(z.1 is Nil == !crate::anf::leaves(e));
}

proof fn lemma_binary(s: Sess, e: Expr)
    requires
        e.kind is Binary,
        e.kind->Binary_op != BinaryOp::And,
        e.kind->Binary_op != BinaryOp::Or,
    ensures
        form_hoists_well(e, crate::anf::rewritten_operands(s, e)),
    decreases e, 0int,
{
    match e.kind {
        ExprKind::Binary { left, right, .. } => {
            let all = crate::anf::stays(*left) || crate::anf::stays(*right);
            let first = all || crate::anf::leaves(*right);
            lemma_operand_fits(s, *left, first);
            lemma_operand_fits(crate::anf::operand(s, *left, first).0, *right, all);
            lemma_binary_closes(s, e, *left, *right, all, first);
        },
        _ => {},
    }
}

proof fn lemma_struct_closes(s: Sess, e: Expr, fields: List<FieldInit>, base: Expr, all: bool, later: bool)
    requires
        e.kind is StructLit,
        e.kind->StructLit_fields == fields,
        e.kind->StructLit_spread == Some(Box::new(base)),
        all == (crate::anf::any_field_stays(fields) || crate::anf::stays(base)),
        later == crate::anf::leaves(base),
        fields_fit(s, fields, all, later),
        operand_fits(crate::anf::field_operands(s, fields, all, later).0, base, all),
    ensures
        form_hoists_well(e, crate::anf::rewritten_operands(s, e)),
{
    reveal(form_hoists_well);
    reveal(operand_fits);
    reveal(fields_fit);
    let spread = Some(Box::new(base));
    assert(crate::anf::opt_stays(spread) == crate::anf::stays(base));
    assert(crate::anf::opt_leaves(spread) == crate::anf::leaves(base));
    let (s1, pre1, fs) = crate::anf::field_operands(s, fields, all, later);
    let (_, pre2, x1) = crate::anf::operand(s1, base, all);
    lemma_stmts_append(pre1, pre2);
    let z = crate::anf::rewritten_operands(s, e);
    assert(z.1 == pre1.then_list(pre2));
    let x = Expr { kind: z.2, span: e.span };
    assert(x.kind is StructLit);
    assert(x.kind->StructLit_fields == fs);
    assert(x.kind->StructLit_spread == Some(Box::new(x1)));
    assert(opt_quiet(Some(Box::new(x1))));
    assert(!crate::anf::opt_awaits(Some(Box::new(x1))));
    assert(settled(x));
    assert(!crate::anf::stays(e));
    assert(!crate::anf::awaits(x));
    assert(crate::anf::leaves(e) == (crate::anf::any_field_leaves(fields) || crate::anf::any_field_stays(fields)
        || crate::anf::leaves(base) || crate::anf::stays(base)));
    assert(z.1 is Nil == !crate::anf::leaves(e));
}

proof fn lemma_plain_struct_closes(s: Sess, e: Expr, fields: List<FieldInit>, all: bool)
    requires
        e.kind is StructLit,
        e.kind->StructLit_fields == fields,
        e.kind->StructLit_spread is None,
        all == crate::anf::any_field_stays(fields),
        fields_fit(s, fields, all, false),
    ensures
        form_hoists_well(e, crate::anf::rewritten_operands(s, e)),
{
    reveal(form_hoists_well);
    reveal(fields_fit);
    assert(!crate::anf::opt_stays(None));
    assert(!crate::anf::opt_leaves(None));
    let z = crate::anf::rewritten_operands(s, e);
    let x = Expr { kind: z.2, span: e.span };
    assert(opt_quiet(None));
    assert(!crate::anf::opt_awaits(None));
    assert(settled(x));
    assert(!crate::anf::stays(e));
    assert(!crate::anf::awaits(x));
    assert(crate::anf::leaves(e) == (crate::anf::any_field_leaves(fields) || crate::anf::any_field_stays(fields)));
}

proof fn lemma_struct_lit(s: Sess, e: Expr)
    requires
        e.kind is StructLit,
    ensures
        form_hoists_well(e, crate::anf::rewritten_operands(s, e)),
    decreases e, 0int,
{
    match e.kind {
        ExprKind::StructLit { fields, spread, .. } => match spread {
            Some(base) => {
                let all = crate::anf::any_field_stays(fields) || crate::anf::stays(*base);
                let later = crate::anf::leaves(*base);
                lemma_fields_fit(s, fields, all, later);
                lemma_operand_fits(crate::anf::field_operands(s, fields, all, later).0, *base, all);
                lemma_struct_closes(s, e, fields, *base, all, later);
            },
            None => {
                let all = crate::anf::any_field_stays(fields);
                lemma_fields_fit(s, fields, all, false);
                lemma_plain_struct_closes(s, e, fields, all);
            },
        },
        _ => {},
    }
}

proof fn lemma_method_closes(s: Sess, e: Expr, receiver: Expr, args: List<Expr>, all: bool, first: bool)
    requires
        e.kind is Call,
        e.kind->Call_callee.kind is Field,
        *e.kind->Call_callee.kind->Field_receiver == receiver,
        e.kind->Call_args == args,
        all == (crate::anf::stays(receiver) || crate::anf::any_stays(args)),
        first == (all || crate::anf::any_leaves(args)),
        scope_fits(s, e.kind->Call_trailing_closure),
        ({
            let s0 = crate::anf::opt_scope(s, e.kind->Call_trailing_closure).0;
            operand_fits(s0, receiver, first) && operands_fit(crate::anf::operand(s0, receiver, first).0, args, all)
        }),
    ensures
        form_hoists_well(e, crate::anf::rewritten_operands(s, e)),
{
    reveal(form_hoists_well);
    reveal(operand_fits);
    reveal(operands_fit);
    reveal(scope_fits);
    let callee = *e.kind->Call_callee;
    let (s0, tc) = crate::anf::opt_scope(s, e.kind->Call_trailing_closure);
    let (s1, pre1, r) = crate::anf::operand(s0, receiver, first);
    let (_, pre2, a) = crate::anf::operands(s1, args, all);
    lemma_stmts_append(pre1, pre2);
    lemma_field(r, callee.kind, callee.span);
    let c = Expr { kind: ExprKind::Field { receiver: Box::new(r), name: callee.kind->Field_name }, span: callee.span };
    let z = crate::anf::rewritten_operands(s, e);
    assert(z.1 == pre1.then_list(pre2));
    let x = Expr { kind: z.2, span: e.span };
    assert(x.kind is Call);
    assert(*x.kind->Call_callee == c);
    assert(x.kind->Call_args == a);
    assert(x.kind->Call_trailing_closure == tc);
    lemma_call_form(x);
    lemma_method_leaves(e);
    assert(z.1 is Nil == !crate::anf::leaves(e));
}

proof fn lemma_call_form(x: Expr)
    requires
        x.kind is Call,
        quiet(*x.kind->Call_callee),
        all_quiet(x.kind->Call_args),
        !crate::anf::any_awaits(x.kind->Call_args),
        settled_opt(x.kind->Call_trailing_closure),
    ensures
        settled(x),
        !crate::anf::awaits(x),
{
    lemma_quiet(*x.kind->Call_callee);
}

proof fn lemma_method_leaves(e: Expr)
    requires
        e.kind is Call,
        e.kind->Call_callee.kind is Field,
    ensures
        !crate::anf::stays(e),
        crate::anf::leaves(e) == (crate::anf::binds(*e.kind->Call_callee.kind->Field_receiver)
            || crate::anf::any_leaves(e.kind->Call_args) || crate::anf::any_stays(e.kind->Call_args)),
{
    let callee = *e.kind->Call_callee;
    assert(crate::anf::leaves(callee) == crate::anf::binds(*callee.kind->Field_receiver));
    assert(!crate::anf::stays(callee));
    assert(crate::anf::binds(callee) == crate::anf::leaves(callee));
}

proof fn lemma_method_call(s: Sess, e: Expr)
    requires
        e.kind is Call,
        e.kind->Call_callee.kind is Field,
    ensures
        form_hoists_well(e, crate::anf::rewritten_operands(s, e)),
    decreases e, 0int,
{
    match e.kind {
        ExprKind::Call { callee, args, trailing_closure, .. } => {
            lemma_scope_fits(s, trailing_closure);
            let s0 = crate::anf::opt_scope(s, trailing_closure).0;
            match callee.kind {
                ExprKind::Field { receiver, .. } => {
                    let all = crate::anf::stays(*receiver) || crate::anf::any_stays(args);
                    let first = all || crate::anf::any_leaves(args);
                    lemma_operand_fits(s0, *receiver, first);
                    lemma_operands_fit(crate::anf::operand(s0, *receiver, first).0, args, all);
                    lemma_method_closes(s, e, *receiver, args, all, first);
                },
                _ => {},
            }
        },
        _ => {},
    }
}

proof fn lemma_call_closes(s: Sess, e: Expr, callee: Expr, args: List<Expr>, all: bool, first: bool)
    requires
        e.kind is Call,
        *e.kind->Call_callee == callee,
        !(callee.kind is Field),
        e.kind->Call_args == args,
        all == crate::anf::any_stays(args),
        first == (crate::anf::stays(callee) || all || crate::anf::any_leaves(args)),
        scope_fits(s, e.kind->Call_trailing_closure),
        ({
            let s0 = crate::anf::opt_scope(s, e.kind->Call_trailing_closure).0;
            operand_fits(s0, callee, first) && operands_fit(crate::anf::operand(s0, callee, first).0, args, all)
        }),
    ensures
        form_hoists_well(e, crate::anf::rewritten_operands(s, e)),
{
    reveal(form_hoists_well);
    reveal(operand_fits);
    reveal(operands_fit);
    reveal(scope_fits);
    let (s0, tc) = crate::anf::opt_scope(s, e.kind->Call_trailing_closure);
    let (s1, pre1, c) = crate::anf::operand(s0, callee, first);
    let (_, pre2, a) = crate::anf::operands(s1, args, all);
    lemma_stmts_append(pre1, pre2);
    let z = crate::anf::rewritten_operands(s, e);
    assert(z.1 == pre1.then_list(pre2));
    let x = Expr { kind: z.2, span: e.span };
    assert(x.kind is Call);
    assert(*x.kind->Call_callee == c);
    assert(x.kind->Call_args == a);
    assert(x.kind->Call_trailing_closure == tc);
    lemma_call_form(x);
    assert(!crate::anf::stays(e));
    assert(crate::anf::leaves(e) == (crate::anf::binds(callee) || crate::anf::any_leaves(args)
        || crate::anf::any_stays(args)));
    assert(z.1 is Nil == !crate::anf::leaves(e));
}

proof fn lemma_call(s: Sess, e: Expr)
    requires
        e.kind is Call,
        !(e.kind->Call_callee.kind is Field),
    ensures
        form_hoists_well(e, crate::anf::rewritten_operands(s, e)),
    decreases e, 0int,
{
    match e.kind {
        ExprKind::Call { callee, args, trailing_closure, .. } => {
            lemma_scope_fits(s, trailing_closure);
            let s0 = crate::anf::opt_scope(s, trailing_closure).0;
            let all = crate::anf::any_stays(args);
            let first = crate::anf::stays(*callee) || all || crate::anf::any_leaves(args);
            lemma_operand_fits(s0, *callee, first);
            lemma_operands_fit(crate::anf::operand(s0, *callee, first).0, args, all);
            lemma_call_closes(s, e, *callee, args, all, first);
        },
        _ => {},
    }
}

proof fn lemma_tuple(s: Sess, e: Expr)
    requires
        e.kind is Tuple,
    ensures
        form_hoists_well(e, crate::anf::rewritten_operands(s, e)),
    decreases e, 0int,
{
    reveal(form_hoists_well);
    let es = e.kind->Tuple_0;
    lemma_operands(s, es, crate::anf::any_stays(es));
}

proof fn lemma_list(s: Sess, e: Expr)
    requires
        e.kind is List,
    ensures
        form_hoists_well(e, crate::anf::rewritten_operands(s, e)),
    decreases e, 0int,
{
    reveal(form_hoists_well);
    let es = e.kind->List_0;
    lemma_operands(s, es, crate::anf::any_stays(es));
}

proof fn lemma_map_lit(s: Sess, e: Expr)
    requires
        e.kind is MapLit,
    ensures
        form_hoists_well(e, crate::anf::rewritten_operands(s, e)),
    decreases e, 0int,
{
    reveal(form_hoists_well);
    let items = e.kind->MapLit_0;
    lemma_entry_operands(s, items, crate::anf::any_entry_stays(items));
}

proof fn lemma_str(s: Sess, e: Expr)
    requires
        e.kind is Str,
    ensures
        form_hoists_well(e, crate::anf::rewritten_operands(s, e)),
    decreases e, 0int,
{
    reveal(form_hoists_well);
    let parts = e.kind->Str_0.parts;
    lemma_hole_operands(s, parts, crate::anf::any_hole_stays(parts));
}

proof fn lemma_field(r: Expr, of: ExprKind, span: Span)
    requires
        quiet(r),
        of is Field,
    ensures
        quiet(Expr { kind: ExprKind::Field { receiver: Box::new(r), name: of->Field_name }, span }),
{
}

proof fn lemma_if(s: Sess, e: Expr)
    requires
        e.kind is If,
    ensures
        form_hoists_well(e, crate::anf::rewritten_control(s, e)),
    decreases e, 0int,
{
    reveal(form_hoists_well);
    match e.kind {
        ExprKind::If { cond, then_block, else_branch } => {
            lemma_atomized(s, *cond);
            let s1 = crate::anf::atomized(s, *cond).0;
            lemma_processed(s1, then_block);
            lemma_else(crate::anf::processed(s1, then_block).0, else_branch);
        },
        _ => {},
    }
}

proof fn lemma_match(s: Sess, e: Expr)
    requires
        e.kind is Match,
    ensures
        form_hoists_well(e, crate::anf::rewritten_control(s, e)),
    decreases e, 0int,
{
    reveal(form_hoists_well);
    match e.kind {
        ExprKind::Match { scrutinee, arms } => {
            lemma_atomized(s, *scrutinee);
            lemma_arms(crate::anf::atomized(s, *scrutinee).0, arms);
        },
        _ => {},
    }
}

proof fn lemma_for(s: Sess, e: Expr)
    requires
        e.kind is For,
    ensures
        form_hoists_well(e, crate::anf::rewritten_control(s, e)),
    decreases e, 0int,
{
    reveal(form_hoists_well);
    match e.kind {
        ExprKind::For { in_async, iter, body, .. } => {
            lemma_processed(s, body);
            let s1 = crate::anf::processed(s, body).0;
            if in_async && !crate::anf::is_place(*iter) {
                lemma_rewritten(s1, *iter);
                let (s2, pre, x) = crate::anf::rewritten(s1, *iter);
                let (_, stmt, read) = crate::anf::hoisted(s2, x);
                lemma_stmts_snoc(pre, stmt);
                assert(settled_stmt(stmt));
                assert(quiet(read));
            } else {
                lemma_atomized(s1, *iter);
            }
        },
        _ => {},
    }
}

proof fn lemma_closure(s: Sess, e: Expr)
    requires
        e.kind is Closure,
    ensures
        form_hoists_well(e, crate::anf::rewritten_control(s, e)),
    decreases e, 0int,
{
    reveal(form_hoists_well);
    match e.kind {
        ExprKind::Closure { is_async, body, .. } => {
            if is_async {
                let s1 = s.hoist_span_used();
                lemma_rewritten(s1.hoist_span_used(), *body);
                let (_, pre, x) = crate::anf::rewritten(s1.hoist_span_used(), *body);
                let block = Block { stmts: pre, trailing: Some(Box::new(x)), span: s.hoist_spans.span() };
                lemma_block(block);
                let ab = Expr { kind: ExprKind::AsyncBlock(block), span: s1.hoist_spans.span() };
                assert(settled(ab));
            } else {
                lemma_scope(s, *body);
            }
        },
        _ => {},
    }
}

proof fn lemma_block(b: Block)
    requires
        settled_stmts(b.stmts),
        b.trailing is Some ==> settled(*b.trailing->0),
    ensures
        settled_block(b),
{
    assert(settled_opt(b.trailing));
}

/// A closure whose body is settled.
proof fn lemma_closed(kind: ExprKind, span: Span)
    requires
        kind is Closure,
        !kind->Closure_is_async,
        settled(*kind->Closure_body),
    ensures
        settled(Expr { kind, span }),
{
}

proof fn lemma_async_anon_fn(s: Sess, f: FunctionItem, block: Block, span: Span)
    requires
        f.generics is None,
        f.body == Some(block),
        f.is_async,
    ensures
        settled(Expr { kind: crate::anf::anon_fn_closure(s, f).1, span }),
        crate::anf::anon_fn_closure(s, f).1 is Closure,
    decreases f, 0int,
{
    let s0 = s.hoist_span_used();
    let s1 = s0.hoist_span_used();
    lemma_processed(s1.hoist_span_used(), block);
    let b = crate::anf::processed(s1.hoist_span_used(), block).1;
    let body = Expr { kind: ExprKind::Block(b), span: s.hoist_spans.span() };
    assert(settled(body));
    let inner = Block { stmts: List::Nil, trailing: Some(Box::new(body)), span: s0.hoist_spans.span() };
    lemma_block(inner);
    let ab = Expr { kind: ExprKind::AsyncBlock(inner), span: s1.hoist_spans.span() };
    assert(settled(ab));
    let kind = crate::anf::anon_fn_closure(s, f).1;
    assert(*kind->Closure_body == ab);
    lemma_closed(kind, span);
}

proof fn lemma_plain_anon_fn(s: Sess, f: FunctionItem, block: Block, span: Span)
    requires
        f.generics is None,
        f.body == Some(block),
        !f.is_async,
    ensures
        settled(Expr { kind: crate::anf::anon_fn_closure(s, f).1, span }),
        crate::anf::anon_fn_closure(s, f).1 is Closure,
    decreases f, 0int,
{
    let s0 = s.hoist_span_used();
    lemma_processed(s0, block);
    let b = crate::anf::processed(s0, block).1;
    let body = Expr { kind: ExprKind::Block(b), span: s.hoist_spans.span() };
    assert(settled(body));
    let kind = crate::anf::anon_fn_closure(s, f).1;
    assert(*kind->Closure_body == body);
    lemma_closed(kind, span);
}

proof fn lemma_kept_anon_fn(s: Sess, f: FunctionItem, span: Span)
    requires
        f.generics is Some || f.body is None,
    ensures
        settled(Expr { kind: crate::anf::anon_fn_closure(s, f).1, span }),
        crate::anf::anon_fn_closure(s, f).1 is AnonFn,
    decreases f, 1int,
{
    lemma_function(s, f);
    let f1 = crate::anf::processed_function(s, f).1;
    assert(crate::anf::anon_fn_closure(s, f).1 == ExprKind::AnonFn(Box::new(f1)));
}

proof fn lemma_anon_fn(s: Sess, f: FunctionItem, span: Span)
    ensures
        settled(Expr { kind: crate::anf::anon_fn_closure(s, f).1, span }),
        crate::anf::anon_fn_closure(s, f).1 is Closure || crate::anf::anon_fn_closure(s, f).1 is AnonFn,
    decreases f, 2int,
{
    if f.generics is None && f.body is Some {
        if f.is_async {
            lemma_async_anon_fn(s, f, f.body->0, span);
        } else {
            lemma_plain_anon_fn(s, f, f.body->0, span);
        }
    } else {
        lemma_kept_anon_fn(s, f, span);
    }
}

pub(crate) proof fn lemma_atomized(s: Sess, e: Expr)
    ensures
        settled_stmts(crate::anf::atomized(s, e).1),
        quiet(crate::anf::atomized(s, e).2),
        crate::anf::is_place(e) ==> crate::anf::is_place(crate::anf::atomized(s, e).2),
        crate::anf::atomized(s, e).1 is Nil == !crate::anf::binds(e),
    decreases e, 3int,
{
    lemma_rewritten(s, e);
    let (s1, pre, x) = crate::anf::rewritten(s, e);
    if crate::anf::awaits(x) {
        lemma_stmts_snoc(pre, crate::anf::hoisted(s1, x).1);
    }
}

pub(crate) proof fn lemma_operand(s: Sess, e: Expr, bind: bool)
    requires
        crate::anf::stays(e) ==> bind,
    ensures
        settled_stmts(crate::anf::operand(s, e, bind).1),
        quiet(crate::anf::operand(s, e, bind).2),
        bind ==> crate::anf::is_atomic(crate::anf::operand(s, e, bind).2),
        !bind && !crate::anf::leaves(e) ==> crate::anf::operand(s, e, bind).1 is Nil,
        crate::anf::binds(e) ==> !(crate::anf::operand(s, e, bind).1 is Nil),
    decreases e, 3int,
{
    lemma_rewritten(s, e);
    let (s1, pre, x) = crate::anf::rewritten(s, e);
    if bind && !crate::anf::is_atomic(x) {
        lemma_stmts_snoc(pre, crate::anf::hoisted(s1, x).1);
    }
}

pub(crate) proof fn lemma_operands(s: Sess, l: List<Expr>, all: bool)
    requires
        crate::anf::any_stays(l) ==> all,
    ensures
        settled_stmts(crate::anf::operands(s, l, all).1),
        all_quiet(crate::anf::operands(s, l, all).2),
        !crate::anf::any_awaits(crate::anf::operands(s, l, all).2),
        !all && !crate::anf::any_leaves(l) ==> crate::anf::operands(s, l, all).1 is Nil,
        crate::anf::any_leaves(l) || crate::anf::any_stays(l) ==> !(crate::anf::operands(s, l, all).1 is Nil),
    decreases l, 0int,
{
    match l {
        List::Nil => {},
        List::Cons(h, t) => {
            let first = all || crate::anf::any_leaves(*t);
            lemma_operand(s, *h, first);
            let (s1, pre1, _) = crate::anf::operand(s, *h, first);
            lemma_operands(s1, *t, all);
            let (_, pre2, _) = crate::anf::operands(s1, *t, all);
            lemma_stmts_append(pre1, pre2);
        },
    }
}

pub(crate) proof fn lemma_field_operands(s: Sess, l: List<FieldInit>, all: bool, later: bool)
    requires
        crate::anf::any_field_stays(l) ==> all,
    ensures
        settled_stmts(crate::anf::field_operands(s, l, all, later).1),
        fields_quiet(crate::anf::field_operands(s, l, all, later).2),
        !crate::anf::any_field_awaits(crate::anf::field_operands(s, l, all, later).2),
        !all && !later && !crate::anf::any_field_leaves(l) ==> crate::anf::field_operands(s, l, all, later).1 is Nil,
        crate::anf::any_field_leaves(l) || crate::anf::any_field_stays(l) ==> !(crate::anf::field_operands(s, l, all, later).1 is Nil),
    decreases l, 0int,
{
    match l {
        List::Nil => {},
        List::Cons(h, t) => match h.value {
            Some(v) => {
                let first = all || later || crate::anf::any_field_leaves(*t);
                lemma_operand(s, v, first);
                let (s1, pre1, _) = crate::anf::operand(s, v, first);
                lemma_field_operands(s1, *t, all, later);
                let (_, pre2, _) = crate::anf::field_operands(s1, *t, all, later);
                lemma_stmts_append(pre1, pre2);
            },
            None => lemma_field_operands(s, *t, all, later),
        },
    }
}

pub(crate) proof fn lemma_entry_operands(s: Sess, l: List<MapItem>, all: bool)
    requires
        crate::anf::any_entry_stays(l) ==> all,
    ensures
        settled_stmts(crate::anf::entry_operands(s, l, all).1),
        entries_quiet(crate::anf::entry_operands(s, l, all).2),
        !crate::anf::any_entry_awaits(crate::anf::entry_operands(s, l, all).2),
        !all && !crate::anf::any_entry_leaves(l) ==> crate::anf::entry_operands(s, l, all).1 is Nil,
        crate::anf::any_entry_leaves(l) || crate::anf::any_entry_stays(l) ==> !(crate::anf::entry_operands(s, l, all).1 is Nil),
    decreases l, 0int,
{
    match l {
        List::Nil => {},
        List::Cons(h, t) => match *h {
            MapItem::Entry { key, value, .. } => {
                let second = all || crate::anf::any_entry_leaves(*t);
                let first = second || crate::anf::leaves(*value);
                assert(first == (all || crate::anf::leaves(*value) || crate::anf::any_entry_leaves(*t)));
                lemma_operand(s, *key, first);
                let (s1, pre1, _) = crate::anf::operand(s, *key, first);
                lemma_operand(s1, *value, second);
                let (s2, pre2, _) = crate::anf::operand(s1, *value, second);
                lemma_entry_operands(s2, *t, all);
                let (_, pre3, _) = crate::anf::entry_operands(s2, *t, all);
                lemma_stmts_append(pre1, pre2);
                lemma_stmts_append(pre1.then_list(pre2), pre3);
            },
            MapItem::Spread(x) => {
                let first = all || crate::anf::any_entry_leaves(*t);
                lemma_operand(s, *x, first);
                let (s1, pre1, _) = crate::anf::operand(s, *x, first);
                lemma_entry_operands(s1, *t, all);
                let (_, pre2, _) = crate::anf::entry_operands(s1, *t, all);
                lemma_stmts_append(pre1, pre2);
            },
        },
    }
}

pub(crate) proof fn lemma_hole_operands(s: Sess, l: List<StringPart>, all: bool)
    requires
        crate::anf::any_hole_stays(l) ==> all,
    ensures
        settled_stmts(crate::anf::hole_operands(s, l, all).1),
        holes_quiet(crate::anf::hole_operands(s, l, all).2),
        !crate::anf::any_hole_awaits(crate::anf::hole_operands(s, l, all).2),
        !all && !crate::anf::any_hole_leaves(l) ==> crate::anf::hole_operands(s, l, all).1 is Nil,
        crate::anf::any_hole_leaves(l) || crate::anf::any_hole_stays(l) ==> !(crate::anf::hole_operands(s, l, all).1 is Nil),
    decreases l, 0int,
{
    match l {
        List::Nil => {},
        List::Cons(h, t) => match *h {
            StringPart::Expr(x) => {
                let first = all || crate::anf::any_hole_leaves(*t);
                lemma_operand(s, x, first);
                let (s1, pre1, _) = crate::anf::operand(s, x, first);
                lemma_hole_operands(s1, *t, all);
                let (_, pre2, _) = crate::anf::hole_operands(s1, *t, all);
                lemma_stmts_append(pre1, pre2);
            },
            _ => lemma_hole_operands(s, *t, all),
        },
    }
}

proof fn lemma_opt_tail(s: Sess, e: Option<Box<Expr>>)
    ensures
        settled_stmts(crate::anf::opt_tail(s, e).1),
        settled_opt(crate::anf::opt_tail(s, e).2),
        crate::anf::opt_awaits(crate::anf::opt_tail(s, e).2) == crate::anf::opt_stays(e),
        crate::anf::opt_tail(s, e).1 is Nil == !crate::anf::opt_leaves(e),
    decreases e, 0int,
{
    match e {
        Some(x) => lemma_rewritten(s, *x),
        None => {},
    }
}

proof fn lemma_scope(s: Sess, e: Expr)
    ensures
        settled(crate::anf::scope(s, e).1),
    decreases e, 3int,
{
    lemma_rewritten(s, e);
    let (s1, pre, x) = crate::anf::rewritten(s, e);
    if !(pre is Nil) {
        let b = Block { stmts: pre, trailing: Some(Box::new(x)), span: s1.hoist_spans.span() };
        lemma_block(b);
    }
}

proof fn lemma_opt_scope(s: Sess, e: Option<Box<Expr>>)
    ensures
        settled_opt(crate::anf::opt_scope(s, e).1),
    decreases e, 0int,
{
    match e {
        Some(x) => lemma_scope(s, *x),
        None => {},
    }
}

proof fn lemma_arms(s: Sess, l: List<MatchArm>)
    ensures
        settled_arms(crate::anf::rewritten_arms(s, l).1),
    decreases l, 0int,
{
    match l {
        List::Nil => {},
        List::Cons(h, t) => {
            lemma_scope(s, h.body);
            lemma_arms(crate::anf::scope(s, h.body).0, *t);
        },
    }
}

proof fn lemma_processed(s: Sess, b: Block)
    ensures
        settled_block(crate::anf::processed(s, b).1),
    decreases b, 0int,
{
    lemma_processed_stmts(s, b.stmts);
    let (s1, stmts) = crate::anf::processed_stmts(s, b.stmts);
    match b.trailing {
        Some(t) => {
            lemma_rewritten(s1, *t);
            lemma_stmts_append(stmts, crate::anf::rewritten(s1, *t).1);
        },
        None => {},
    }
}

proof fn lemma_processed_stmts(s: Sess, l: List<Stmt>)
    ensures
        settled_stmts(crate::anf::processed_stmts(s, l).1),
    decreases l, 0int,
{
    match l {
        List::Nil => {},
        List::Cons(h, t) => {
            reveal(stmt_settles);
            lemma_stmt(s, *h);
            let (s1, pre, kind) = crate::anf::processed_stmt(s, *h);
            lemma_processed_stmts(s1, *t);
            let rest = crate::anf::processed_stmts(s1, *t).1;
            let stmt = Stmt { kind, span: h.span };
            lemma_stmts_append(pre, List::Cons(Box::new(stmt), Box::new(rest)));
        },
    }
}

/// The bindings and the statement that hoisting makes of `x` are settled.
#[verifier::opaque]
pub open spec fn stmt_settles(s: Sess, x: Stmt) -> bool {
    let (_, pre, kind) = crate::anf::processed_stmt(s, x);
    settled_stmts(pre) && settled_stmt(Stmt { kind, span: x.span })
}

proof fn lemma_var(s: Sess, x: Stmt)
    requires
        x.kind is Var,
    ensures
        stmt_settles(s, x),
    decreases x, 0int,
{
    reveal(stmt_settles);
    lemma_rewritten(s, x.kind->Var_0.init);
}

proof fn lemma_assign(s: Sess, x: Stmt)
    requires
        x.kind is Assign,
    ensures
        stmt_settles(s, x),
    decreases x, 0int,
{
    let target = x.kind->Assign_target;
    let value = x.kind->Assign_value;
    lemma_place(s, target, crate::anf::leaves(value));
    let s1 = crate::anf::place(s, target, crate::anf::leaves(value)).0;
    lemma_rewritten(s1, value);
    lemma_assign_closes(s, x, target, value);
}

proof fn lemma_assign_closes(s: Sess, x: Stmt, target: Expr, value: Expr)
    requires
        x.kind == (StmtKind::Assign { target, value }),
        settled_stmts(crate::anf::place(s, target, crate::anf::leaves(value)).1),
        quiet(crate::anf::place(s, target, crate::anf::leaves(value)).2),
        ({
            let s1 = crate::anf::place(s, target, crate::anf::leaves(value)).0;
            settled_stmts(crate::anf::rewritten(s1, value).1) && settled(crate::anf::rewritten(s1, value).2)
        }),
    ensures
        stmt_settles(s, x),
{
    reveal(stmt_settles);
    let (s1, pre1, t) = crate::anf::place(s, target, crate::anf::leaves(value));
    let (s2, pre2, v) = crate::anf::rewritten(s1, value);
    lemma_stmts_append(pre1, pre2);
    let kind = StmtKind::Assign { target: t, value: v };
    assert(crate::anf::processed_stmt(s, x) == (s2, pre1.then_list(pre2), kind));
    assert(settled_stmt(Stmt { kind, span: x.span }));
}

proof fn lemma_expr_stmt(s: Sess, x: Stmt)
    requires
        x.kind is Expr,
    ensures
        stmt_settles(s, x),
    decreases x, 0int,
{
    reveal(stmt_settles);
    lemma_rewritten(s, x.kind->Expr_0);
}

proof fn lemma_item_stmt(s: Sess, x: Stmt)
    requires
        x.kind is Item,
    ensures
        stmt_settles(s, x),
    decreases x, 0int,
{
    reveal(stmt_settles);
    lemma_item(s, *x.kind->Item_0);
}

proof fn lemma_stmt(s: Sess, x: Stmt)
    ensures
        stmt_settles(s, x),
    decreases x, 1int,
{
    match x.kind {
        StmtKind::Var(_) => lemma_var(s, x),
        StmtKind::Assign { .. } => lemma_assign(s, x),
        StmtKind::Expr(_) => lemma_expr_stmt(s, x),
        StmtKind::Item(_) => lemma_item_stmt(s, x),
    }
}

pub(crate) proof fn lemma_quiet(e: Expr)
    requires
        quiet(e),
    ensures
        settled(e),
        !crate::anf::awaits(e),
{
}

proof fn lemma_path(e: Expr)
    requires
        crate::anf::is_path(e),
    ensures
        quiet(e),
    decreases e,
{
    match e.kind {
        ExprKind::Field { receiver, .. } => lemma_path(*receiver),
        ExprKind::TupleIndex { receiver, .. } => lemma_path(*receiver),
        ExprKind::Paren(x) => lemma_path(*x),
        _ => {},
    }
}

proof fn lemma_bound(s: Sess, e: Expr)
    requires
        settled(e),
    ensures
        settled_stmts(crate::anf::bound(s, e).1),
        quiet(crate::anf::bound(s, e).2),
{
    reveal_with_fuel(settled_stmts, 2);
    if crate::anf::is_path(e) {
        lemma_path(e);
    } else {
        let (_, stmt, read) = crate::anf::hoisted(s, e);
        assert(settled_stmt(stmt));
        assert(quiet(read));
    }
}

proof fn lemma_pinned(s: Sess, e: Expr)
    requires
        settled(e),
    ensures
        settled_stmts(crate::anf::pinned(s, e).1),
        quiet(crate::anf::pinned(s, e).2),
    decreases e,
{
    match e.kind {
        ExprKind::Paren(x) => lemma_pinned(s, *x),
        ExprKind::Field { receiver, .. } => {
            lemma_quiet(*receiver);
            lemma_bound(s, *receiver);
        },
        ExprKind::TupleIndex { receiver, .. } => {
            lemma_quiet(*receiver);
            lemma_bound(s, *receiver);
        },
        ExprKind::Index { receiver, index } => {
            lemma_quiet(*receiver);
            lemma_quiet(*index);
            lemma_bound(s, *receiver);
            let (s1, pre1, _) = crate::anf::bound(s, *receiver);
            lemma_bound(s1, *index);
            lemma_stmts_append(pre1, crate::anf::bound(s1, *index).1);
        },
        ExprKind::Deref { expr, .. } => {
            lemma_quiet(*expr);
            lemma_bound(s, *expr);
        },
        _ => lemma_bound(s, e),
    }
}

proof fn lemma_place(s: Sess, target: Expr, bind: bool)
    ensures
        settled_stmts(crate::anf::place(s, target, bind).1),
        quiet(crate::anf::place(s, target, bind).2),
    decreases target, 3int,
{
    lemma_rewritten(s, target);
    let (s1, pre, t) = crate::anf::rewritten(s, target);
    if bind || crate::anf::awaits(t) {
        lemma_pinned(s1, t);
        lemma_stmts_append(pre, crate::anf::pinned(s1, t).1);
    }
}

proof fn lemma_else(s: Sess, e: Option<ElseBranch>)
    ensures
        settled_else(crate::anf::processed_else(s, e).1),
    decreases e, 0int,
{
    match e {
        Some(ElseBranch::If(x)) => lemma_scope(s, *x),
        Some(ElseBranch::Block(b)) => lemma_processed(s, b),
        None => {},
    }
}

proof fn lemma_function(s: Sess, f: FunctionItem)
    ensures
        settled_function(crate::anf::processed_function(s, f).1),
    decreases f, 0int,
{
    match f.body {
        Some(b) => lemma_processed(s, b),
        None => {},
    }
}

proof fn lemma_item(s: Sess, it: Item)
    ensures
        settled_item(crate::anf::hoisted_item(s, it).1),
    decreases it, 0int,
{
    match it.kind {
        ItemKind::Function(f) => lemma_function(s, f),
        ItemKind::Extend(e) => lemma_members(s, e.members),
        ItemKind::Module(m) => match m.kind {
            ModuleKind::Inline { items, .. } => law_hoisted_settled(s, items),
            ModuleKind::File => {},
        },
        _ => {},
    }
}

proof fn lemma_members(s: Sess, l: List<ExtendMember>)
    ensures
        settled_members(crate::anf::hoisted_members(s, l).1),
    decreases l, 0int,
{
    match l {
        List::Nil => {},
        List::Cons(h, t) => {
            lemma_function(s, h.function);
            lemma_members(crate::anf::processed_function(s, h.function).0, *t);
        },
    }
}

/// After hoisting, every `await` in every function and method body stands at
/// statement level, where the async state machine can suspend.
pub proof fn law_hoisted_settled(s: Sess, l: List<Item>)
    ensures
        settled_items(crate::anf::hoisted_items(s, l).1),
    decreases l, 0int,
{
    match l {
        List::Nil => {},
        List::Cons(h, t) => {
            lemma_item(s, *h);
            law_hoisted_settled(crate::anf::hoisted_item(s, *h).0, *t);
        },
    }
}

/// Nothing is moved out of a position that runs only sometimes, or more than once:
/// only the left operand of `&&` and `||`, the condition of `if` and what `match`
/// looks at leave bindings in front of the expression, and the condition of `while`
/// stays as it is.
pub proof fn law_conditional_stays(s: Sess, e: Expr)
    ensures
        ({
            let (_, pre, x) = crate::anf::rewritten(s, e);
            match e.kind {
                ExprKind::Binary { op, left, .. } => op == BinaryOp::And || op == BinaryOp::Or ==> pre
                    == crate::anf::atomized(s, *left).1,
                ExprKind::If { cond, .. } => pre == crate::anf::atomized(s, *cond).1,
                ExprKind::Match { scrutinee, .. } => pre == crate::anf::atomized(s, *scrutinee).1,
                ExprKind::While { cond, .. } => pre is Nil && x.kind is While && x.kind->While_cond == cond,
                ExprKind::Loop(_) | ExprKind::Block(_) | ExprKind::AsyncBlock(_) => pre is Nil,
                ExprKind::Closure { .. } | ExprKind::AnonFn(_) => pre is Nil,
                _ => true,
            }
        }),
{
}

} // verus!
