//! Re-spanning: a copy of a syntax tree in which every node has a fresh span,
//! so that the checker's span-keyed tables never confuse two copies.
use vstd::prelude::*;
use crate::list::List;
use crate::names::Symbol;
use crate::span::SpanGen;
use crate::ast::{
    AttrArg, Block, ClosureParam, ElseBranch, Expr, ExprKind, ExternParam, FieldInit, FieldPattern, FunctionItem,
    GenericParam, GenericParams, Ident, LocalVar, MapItem, MatchArm, Param, ParamKind, Pattern, PatternKind, RestAt,
    RestPattern, Stmt, StmtKind, StringLit, StringPart, Type, TypeKind, TypePath,
};
use crate::dup::{dup_item};

verus! {

pub open spec fn respan_ident(g: SpanGen, x: Ident) -> (SpanGen, Ident) {
    (g.after(), Ident { name: x.name, span: g.span() })
}

pub fn rs_ident(x: Ident, g: &mut SpanGen) -> (r: Ident)
    ensures
        (*final(g), r) == respan_ident(*old(g), x),
{
    Ident { name: x.name, span: g.fresh() }
}

pub open spec fn respan_rest(g: SpanGen, x: RestPattern) -> (SpanGen, RestPattern) {
    match x.name {
        Some(n) => {
            let (g1, n1) = respan_ident(g.after(), n);
            (g1, RestPattern { name: Some(n1), span: g.span() })
        },
        None => (g.after(), RestPattern { name: None, span: g.span() }),
    }
}

pub fn rs_rest(x: RestPattern, g: &mut SpanGen) -> (r: RestPattern)
    ensures
        (*final(g), r) == respan_rest(*old(g), x),
{
    let span = g.fresh();
    match x.name {
        Some(n) => RestPattern { name: Some(rs_ident(n, g)), span },
        None => RestPattern { name: None, span },
    }
}

pub open spec fn respan_rest_at(g: SpanGen, x: RestAt) -> (SpanGen, RestAt) {
    let (g1, r) = respan_rest(g, x.rest);
    (g1, RestAt { index: x.index, rest: r })
}

pub fn rs_rest_at(x: RestAt, g: &mut SpanGen) -> (r: RestAt)
    ensures
        (*final(g), r) == respan_rest_at(*old(g), x),
{
    RestAt { index: x.index, rest: rs_rest(x.rest, g) }
}

pub open spec fn respan_generic_param_list(g: SpanGen, l: List<GenericParam>) -> (SpanGen, List<GenericParam>)
    decreases l,
{
    match l {
        List::Nil => (g, List::Nil),
        List::Cons(h, t) => {
            let (g1, h1) = respan_generic_param(g, *h);
            let (g2, t1) = respan_generic_param_list(g1, *t);
            (g2, List::Cons(Box::new(h1), Box::new(t1)))
        },
    }
}

pub open spec fn respan_type_list(g: SpanGen, l: List<Type>) -> (SpanGen, List<Type>)
    decreases l,
{
    match l {
        List::Nil => (g, List::Nil),
        List::Cons(h, t) => {
            let (g1, h1) = respan_type(g, *h);
            let (g2, t1) = respan_type_list(g1, *t);
            (g2, List::Cons(Box::new(h1), Box::new(t1)))
        },
    }
}

pub open spec fn respan_extern_param_list(g: SpanGen, l: List<ExternParam>) -> (SpanGen, List<ExternParam>)
    decreases l,
{
    match l {
        List::Nil => (g, List::Nil),
        List::Cons(h, t) => {
            let (g1, h1) = respan_extern_param(g, *h);
            let (g2, t1) = respan_extern_param_list(g1, *t);
            (g2, List::Cons(Box::new(h1), Box::new(t1)))
        },
    }
}

pub open spec fn respan_string_part_list(g: SpanGen, l: List<StringPart>) -> (SpanGen, List<StringPart>)
    decreases l,
{
    match l {
        List::Nil => (g, List::Nil),
        List::Cons(h, t) => {
            let (g1, h1) = respan_string_part(g, *h);
            let (g2, t1) = respan_string_part_list(g1, *t);
            (g2, List::Cons(Box::new(h1), Box::new(t1)))
        },
    }
}

pub open spec fn respan_expr_list(g: SpanGen, l: List<Expr>) -> (SpanGen, List<Expr>)
    decreases l,
{
    match l {
        List::Nil => (g, List::Nil),
        List::Cons(h, t) => {
            let (g1, h1) = respan_expr(g, *h);
            let (g2, t1) = respan_expr_list(g1, *t);
            (g2, List::Cons(Box::new(h1), Box::new(t1)))
        },
    }
}

pub open spec fn respan_map_item_list(g: SpanGen, l: List<MapItem>) -> (SpanGen, List<MapItem>)
    decreases l,
{
    match l {
        List::Nil => (g, List::Nil),
        List::Cons(h, t) => {
            let (g1, h1) = respan_map_item(g, *h);
            let (g2, t1) = respan_map_item_list(g1, *t);
            (g2, List::Cons(Box::new(h1), Box::new(t1)))
        },
    }
}

pub open spec fn respan_field_init_list(g: SpanGen, l: List<FieldInit>) -> (SpanGen, List<FieldInit>)
    decreases l,
{
    match l {
        List::Nil => (g, List::Nil),
        List::Cons(h, t) => {
            let (g1, h1) = respan_field_init(g, *h);
            let (g2, t1) = respan_field_init_list(g1, *t);
            (g2, List::Cons(Box::new(h1), Box::new(t1)))
        },
    }
}

pub open spec fn respan_stmt_list(g: SpanGen, l: List<Stmt>) -> (SpanGen, List<Stmt>)
    decreases l,
{
    match l {
        List::Nil => (g, List::Nil),
        List::Cons(h, t) => {
            let (g1, h1) = respan_stmt(g, *h);
            let (g2, t1) = respan_stmt_list(g1, *t);
            (g2, List::Cons(Box::new(h1), Box::new(t1)))
        },
    }
}

pub open spec fn respan_pattern_list(g: SpanGen, l: List<Pattern>) -> (SpanGen, List<Pattern>)
    decreases l,
{
    match l {
        List::Nil => (g, List::Nil),
        List::Cons(h, t) => {
            let (g1, h1) = respan_pattern(g, *h);
            let (g2, t1) = respan_pattern_list(g1, *t);
            (g2, List::Cons(Box::new(h1), Box::new(t1)))
        },
    }
}

pub open spec fn respan_field_pattern_list(g: SpanGen, l: List<FieldPattern>) -> (SpanGen, List<FieldPattern>)
    decreases l,
{
    match l {
        List::Nil => (g, List::Nil),
        List::Cons(h, t) => {
            let (g1, h1) = respan_field_pattern(g, *h);
            let (g2, t1) = respan_field_pattern_list(g1, *t);
            (g2, List::Cons(Box::new(h1), Box::new(t1)))
        },
    }
}

pub open spec fn respan_match_arm_list(g: SpanGen, l: List<MatchArm>) -> (SpanGen, List<MatchArm>)
    decreases l,
{
    match l {
        List::Nil => (g, List::Nil),
        List::Cons(h, t) => {
            let (g1, h1) = respan_match_arm(g, *h);
            let (g2, t1) = respan_match_arm_list(g1, *t);
            (g2, List::Cons(Box::new(h1), Box::new(t1)))
        },
    }
}

pub open spec fn respan_closure_param_list(g: SpanGen, l: List<ClosureParam>) -> (SpanGen, List<ClosureParam>)
    decreases l,
{
    match l {
        List::Nil => (g, List::Nil),
        List::Cons(h, t) => {
            let (g1, h1) = respan_closure_param(g, *h);
            let (g2, t1) = respan_closure_param_list(g1, *t);
            (g2, List::Cons(Box::new(h1), Box::new(t1)))
        },
    }
}

pub open spec fn respan_attr_arg_list(g: SpanGen, l: List<AttrArg>) -> (SpanGen, List<AttrArg>)
    decreases l,
{
    match l {
        List::Nil => (g, List::Nil),
        List::Cons(h, t) => {
            let (g1, h1) = respan_attr_arg(g, *h);
            let (g2, t1) = respan_attr_arg_list(g1, *t);
            (g2, List::Cons(Box::new(h1), Box::new(t1)))
        },
    }
}

pub open spec fn respan_param_list(g: SpanGen, l: List<Param>) -> (SpanGen, List<Param>)
    decreases l,
{
    match l {
        List::Nil => (g, List::Nil),
        List::Cons(h, t) => {
            let (g1, h1) = respan_param(g, *h);
            let (g2, t1) = respan_param_list(g1, *t);
            (g2, List::Cons(Box::new(h1), Box::new(t1)))
        },
    }
}

pub open spec fn respan_function(g: SpanGen, x: FunctionItem) -> (SpanGen, FunctionItem)
    decreases x,
{
    let (g1, name) = respan_ident(g, x.name);
    let (g2, generics) = match x.generics {
        Some(z) => { let (h2, y2) = respan_generic_params(g1, z); (h2, Some(y2)) },
        None => (g1, None),
    };
    let (g3, params) = respan_param_list(g2, x.params);
    let (g4, return_type) = match x.return_type {
        Some(z) => { let (h2, y2) = respan_type(g3, z); (h2, Some(y2)) },
        None => (g3, None),
    };
    let (g5, body) = match x.body {
        Some(z) => { let (h2, y2) = respan_block(g4, z); (h2, Some(y2)) },
        None => (g4, None),
    };
    (g5, FunctionItem { name, generics, params, return_type, is_async: x.is_async, body })
}

pub open spec fn respan_generic_params(g: SpanGen, x: GenericParams) -> (SpanGen, GenericParams)
    decreases x,
{
    let (g1, span) = (g.after(), g.span());
    let (g2, params) = respan_generic_param_list(g1, x.params);
    (g2, GenericParams { params, span })
}

pub open spec fn respan_generic_param(g: SpanGen, x: GenericParam) -> (SpanGen, GenericParam)
    decreases x,
{
    let (g1, name) = respan_ident(g, x.name);
    let (g2, bounds) = respan_type_list(g1, x.bounds);
    (g2, GenericParam { name, bounds })
}

pub open spec fn respan_type(g: SpanGen, x: Type) -> (SpanGen, Type)
    decreases x,
{
    let (g1, span) = (g.after(), g.span());
    let (g2, kind) = respan_type_kind(g1, x.kind);
    (g2, Type { kind, span })
}

pub open spec fn respan_type_kind(g: SpanGen, x: TypeKind) -> (SpanGen, TypeKind)
    decreases x,
{
    match x {
        TypeKind::Named { name, generics } => {
            let (g1, name) = respan_ident(g, name);
            let (g2, generics) = respan_type_list(g1, generics);
            (g2, TypeKind::Named { name, generics })
        },
        TypeKind::Tuple(a) => {
            let (g1, a1) = respan_type_list(g, a);
            (g1, TypeKind::Tuple(a1))
        },
        TypeKind::Function { params, ret } => {
            let (g1, params) = respan_type_list(g, params);
            let (g2, ret) = { let (h, y) = respan_type(g1, *ret); (h, Box::new(y)) };
            (g2, TypeKind::Function { params, ret })
        },
        TypeKind::ExternFunction { params, ret } => {
            let (g1, params) = respan_extern_param_list(g, params);
            let (g2, ret) = { let (h, y) = respan_type(g1, *ret); (h, Box::new(y)) };
            (g2, TypeKind::ExternFunction { params, ret })
        },
        TypeKind::Union(a) => {
            let (g1, a1) = respan_type_list(g, a);
            (g1, TypeKind::Union(a1))
        },
        TypeKind::Pointer(a) => {
            let (g1, a1) = { let (h, y) = respan_type(g, *a); (h, Box::new(y)) };
            (g1, TypeKind::Pointer(a1))
        },
        TypeKind::Array { elem, len } => {
            let (g1, elem) = { let (h, y) = respan_type(g, *elem); (h, Box::new(y)) };
            let (g2, len) = { let (h, y) = respan_expr(g1, *len); (h, Box::new(y)) };
            (g2, TypeKind::Array { elem, len })
        },
        TypeKind::SelfType => (g, TypeKind::SelfType),
        TypeKind::Paren(a) => {
            let (g1, a1) = { let (h, y) = respan_type(g, *a); (h, Box::new(y)) };
            (g1, TypeKind::Paren(a1))
        },
    }
}

pub open spec fn respan_extern_param(g: SpanGen, x: ExternParam) -> (SpanGen, ExternParam)
    decreases x,
{
    let (g1, ty) = respan_type(g, x.ty);
    let (g2, span) = (g1.after(), g1.span());
    (g2, ExternParam { ty, span })
}

pub open spec fn respan_expr(g: SpanGen, x: Expr) -> (SpanGen, Expr)
    decreases x,
{
    let (g1, span) = (g.after(), g.span());
    let (g2, kind) = respan_expr_kind(g1, x.kind);
    (g2, Expr { kind, span })
}

pub open spec fn respan_expr_kind(g: SpanGen, x: ExprKind) -> (SpanGen, ExprKind)
    decreases x,
{
    match x {
        ExprKind::Int(a) => (g, ExprKind::Int(a)),
        ExprKind::Float(a) => (g, ExprKind::Float(a)),
        ExprKind::Bool(a) => (g, ExprKind::Bool(a)),
        ExprKind::Null => (g, ExprKind::Null),
        ExprKind::Char(a) => (g, ExprKind::Char(a)),
        ExprKind::Str(a) => {
            let (g1, a1) = respan_string_lit(g, a);
            (g1, ExprKind::Str(a1))
        },
        ExprKind::Ident(a) => {
            let (g1, a1) = respan_ident(g, a);
            (g1, ExprKind::Ident(a1))
        },
        ExprKind::SelfExpr => (g, ExprKind::SelfExpr),
        ExprKind::Underscore => (g, ExprKind::Underscore),
        ExprKind::Continue => (g, ExprKind::Continue),
        ExprKind::Paren(a) => {
            let (g1, a1) = { let (h, y) = respan_expr(g, *a); (h, Box::new(y)) };
            (g1, ExprKind::Paren(a1))
        },
        ExprKind::Tuple(a) => {
            let (g1, a1) = respan_expr_list(g, a);
            (g1, ExprKind::Tuple(a1))
        },
        ExprKind::List(a) => {
            let (g1, a1) = respan_expr_list(g, a);
            (g1, ExprKind::List(a1))
        },
        ExprKind::MapLit(a) => {
            let (g1, a1) = respan_map_item_list(g, a);
            (g1, ExprKind::MapLit(a1))
        },
        ExprKind::StructLit { path, fields, spread } => {
            let (g1, path) = respan_type_path(g, path);
            let (g2, fields) = respan_field_init_list(g1, fields);
            let (g3, spread) = match spread {
                Some(z) => { let (h2, y2) = { let (h, y) = respan_expr(g2, *z); (h, Box::new(y)) }; (h2, Some(y2)) },
                None => (g2, None),
            };
            (g3, ExprKind::StructLit { path, fields, spread })
        },
        ExprKind::Unary { op, op_span, operand } => {
            let (g1, op_span) = (g.after(), g.span());
            let (g2, operand) = { let (h, y) = respan_expr(g1, *operand); (h, Box::new(y)) };
            (g2, ExprKind::Unary { op, op_span, operand })
        },
        ExprKind::Binary { op, op_span, left, right } => {
            let (g1, op_span) = (g.after(), g.span());
            let (g2, left) = { let (h, y) = respan_expr(g1, *left); (h, Box::new(y)) };
            let (g3, right) = { let (h, y) = respan_expr(g2, *right); (h, Box::new(y)) };
            (g3, ExprKind::Binary { op, op_span, left, right })
        },
        ExprKind::Cast { op, op_span, expr, ty } => {
            let (g1, op_span) = (g.after(), g.span());
            let (g2, expr) = { let (h, y) = respan_expr(g1, *expr); (h, Box::new(y)) };
            let (g3, ty) = { let (h, y) = respan_type(g2, *ty); (h, Box::new(y)) };
            (g3, ExprKind::Cast { op, op_span, expr, ty })
        },
        ExprKind::Field { receiver, name } => {
            let (g1, receiver) = { let (h, y) = respan_expr(g, *receiver); (h, Box::new(y)) };
            let (g2, name) = respan_ident(g1, name);
            (g2, ExprKind::Field { receiver, name })
        },
        ExprKind::TupleIndex { receiver, index, index_span } => {
            let (g1, receiver) = { let (h, y) = respan_expr(g, *receiver); (h, Box::new(y)) };
            let (g2, index_span) = (g1.after(), g1.span());
            (g2, ExprKind::TupleIndex { receiver, index, index_span })
        },
        ExprKind::Call { callee, generics, args, trailing_closure } => {
            let (g1, callee) = { let (h, y) = respan_expr(g, *callee); (h, Box::new(y)) };
            let (g2, generics) = respan_type_list(g1, generics);
            let (g3, args) = respan_expr_list(g2, args);
            let (g4, trailing_closure) = match trailing_closure {
                Some(z) => { let (h2, y2) = { let (h, y) = respan_expr(g3, *z); (h, Box::new(y)) }; (h2, Some(y2)) },
                None => (g3, None),
            };
            (g4, ExprKind::Call { callee, generics, args, trailing_closure })
        },
        ExprKind::Index { receiver, index } => {
            let (g1, receiver) = { let (h, y) = respan_expr(g, *receiver); (h, Box::new(y)) };
            let (g2, index) = { let (h, y) = respan_expr(g1, *index); (h, Box::new(y)) };
            (g2, ExprKind::Index { receiver, index })
        },
        ExprKind::Try { expr, q_span } => {
            let (g1, expr) = { let (h, y) = respan_expr(g, *expr); (h, Box::new(y)) };
            let (g2, q_span) = (g1.after(), g1.span());
            (g2, ExprKind::Try { expr, q_span })
        },
        ExprKind::Ref { expr, amp_span } => {
            let (g1, expr) = { let (h, y) = respan_expr(g, *expr); (h, Box::new(y)) };
            let (g2, amp_span) = (g1.after(), g1.span());
            (g2, ExprKind::Ref { expr, amp_span })
        },
        ExprKind::Deref { expr, star_span } => {
            let (g1, expr) = { let (h, y) = respan_expr(g, *expr); (h, Box::new(y)) };
            let (g2, star_span) = (g1.after(), g1.span());
            (g2, ExprKind::Deref { expr, star_span })
        },
        ExprKind::Await { expr, kw_span } => {
            let (g1, expr) = { let (h, y) = respan_expr(g, *expr); (h, Box::new(y)) };
            let (g2, kw_span) = (g1.after(), g1.span());
            (g2, ExprKind::Await { expr, kw_span })
        },
        ExprKind::Spawn { expr, kw_span } => {
            let (g1, expr) = { let (h, y) = respan_expr(g, *expr); (h, Box::new(y)) };
            let (g2, kw_span) = (g1.after(), g1.span());
            (g2, ExprKind::Spawn { expr, kw_span })
        },
        ExprKind::If { cond, then_block, else_branch } => {
            let (g1, cond) = { let (h, y) = respan_expr(g, *cond); (h, Box::new(y)) };
            let (g2, then_block) = respan_block(g1, then_block);
            let (g3, else_branch) = match else_branch {
                Some(z) => { let (h2, y2) = respan_else_branch(g2, z); (h2, Some(y2)) },
                None => (g2, None),
            };
            (g3, ExprKind::If { cond, then_block, else_branch })
        },
        ExprKind::Match { scrutinee, arms } => {
            let (g1, scrutinee) = { let (h, y) = respan_expr(g, *scrutinee); (h, Box::new(y)) };
            let (g2, arms) = respan_match_arm_list(g1, arms);
            (g2, ExprKind::Match { scrutinee, arms })
        },
        ExprKind::Block(a) => {
            let (g1, a1) = respan_block(g, a);
            (g1, ExprKind::Block(a1))
        },
        ExprKind::Loop(a) => {
            let (g1, a1) = respan_block(g, a);
            (g1, ExprKind::Loop(a1))
        },
        ExprKind::While { cond, body } => {
            let (g1, cond) = { let (h, y) = respan_expr(g, *cond); (h, Box::new(y)) };
            let (g2, body) = respan_block(g1, body);
            (g2, ExprKind::While { cond, body })
        },
        ExprKind::For { pattern, in_async, iter, body } => {
            let (g1, pattern) = respan_pattern(g, pattern);
            let (g2, iter) = { let (h, y) = respan_expr(g1, *iter); (h, Box::new(y)) };
            let (g3, body) = respan_block(g2, body);
            (g3, ExprKind::For { pattern, in_async, iter, body })
        },
        ExprKind::Return(a) => {
            let (g1, a1) = match a {
                Some(z) => { let (h2, y2) = { let (h, y) = respan_expr(g, *z); (h, Box::new(y)) }; (h2, Some(y2)) },
                None => (g, None),
            };
            (g1, ExprKind::Return(a1))
        },
        ExprKind::Break(a) => {
            let (g1, a1) = match a {
                Some(z) => { let (h2, y2) = { let (h, y) = respan_expr(g, *z); (h, Box::new(y)) }; (h2, Some(y2)) },
                None => (g, None),
            };
            (g1, ExprKind::Break(a1))
        },
        ExprKind::Closure { params, return_type, is_async, body } => {
            let (g1, params) = respan_closure_param_list(g, params);
            let (g2, return_type) = match return_type {
                Some(z) => { let (h2, y2) = respan_type(g1, z); (h2, Some(y2)) },
                None => (g1, None),
            };
            let (g3, body) = { let (h, y) = respan_expr(g2, *body); (h, Box::new(y)) };
            (g3, ExprKind::Closure { params, return_type, is_async, body })
        },
        ExprKind::AnonFn(a) => {
            let (g1, a1) = { let (h, y) = respan_function(g, *a); (h, Box::new(y)) };
            (g1, ExprKind::AnonFn(a1))
        },
        ExprKind::AsyncBlock(a) => {
            let (g1, a1) = respan_block(g, a);
            (g1, ExprKind::AsyncBlock(a1))
        },
        ExprKind::MacroCall { name, args, block } => {
            let (g1, args) = respan_attr_arg_list(g, args);
            let (g2, block) = match block {
                Some(z) => { let (h2, y2) = respan_block(g1, z); (h2, Some(y2)) },
                None => (g1, None),
            };
            (g2, ExprKind::MacroCall { name, args, block })
        },
    }
}

pub open spec fn respan_string_lit(g: SpanGen, x: StringLit) -> (SpanGen, StringLit)
    decreases x,
{
    let (g1, span) = (g.after(), g.span());
    let (g2, parts) = respan_string_part_list(g1, x.parts);
    (g2, StringLit { parts, span })
}

pub open spec fn respan_string_part(g: SpanGen, x: StringPart) -> (SpanGen, StringPart)
    decreases x,
{
    match x {
        StringPart::Text { text, span } => {
            let (g1, span) = (g.after(), g.span());
            (g1, StringPart::Text { text, span })
        },
        StringPart::Ident(a) => {
            let (g1, a1) = respan_ident(g, a);
            (g1, StringPart::Ident(a1))
        },
        StringPart::Expr(a) => {
            let (g1, a1) = respan_expr(g, a);
            (g1, StringPart::Expr(a1))
        },
    }
}

pub open spec fn respan_map_item(g: SpanGen, x: MapItem) -> (SpanGen, MapItem)
    decreases x,
{
    match x {
        MapItem::Entry { key, value, span } => {
            let (g1, key) = { let (h, y) = respan_expr(g, *key); (h, Box::new(y)) };
            let (g2, value) = { let (h, y) = respan_expr(g1, *value); (h, Box::new(y)) };
            let (g3, span) = (g2.after(), g2.span());
            (g3, MapItem::Entry { key, value, span })
        },
        MapItem::Spread(a) => {
            let (g1, a1) = { let (h, y) = respan_expr(g, *a); (h, Box::new(y)) };
            (g1, MapItem::Spread(a1))
        },
    }
}

pub open spec fn respan_type_path(g: SpanGen, x: TypePath) -> (SpanGen, TypePath)
    decreases x,
{
    let (g1, span) = (g.after(), g.span());
    let (g2, name) = respan_ident(g1, x.name);
    let (g3, generics) = respan_type_list(g2, x.generics);
    (g3, TypePath { name, generics, span })
}

pub open spec fn respan_field_init(g: SpanGen, x: FieldInit) -> (SpanGen, FieldInit)
    decreases x,
{
    let (g1, name) = respan_ident(g, x.name);
    let (g2, span) = (g1.after(), g1.span());
    let (g3, value) = match x.value {
        Some(z) => { let (h2, y2) = respan_expr(g2, z); (h2, Some(y2)) },
        None => (g2, None),
    };
    (g3, FieldInit { name, value, span })
}

pub open spec fn respan_block(g: SpanGen, x: Block) -> (SpanGen, Block)
    decreases x,
{
    let (g1, span) = (g.after(), g.span());
    let (g2, stmts) = respan_stmt_list(g1, x.stmts);
    let (g3, trailing) = match x.trailing {
        Some(z) => { let (h2, y2) = { let (h, y) = respan_expr(g2, *z); (h, Box::new(y)) }; (h2, Some(y2)) },
        None => (g2, None),
    };
    (g3, Block { stmts, trailing, span })
}

pub open spec fn respan_stmt(g: SpanGen, x: Stmt) -> (SpanGen, Stmt)
    decreases x,
{
    let (g1, span) = (g.after(), g.span());
    let (g2, kind) = respan_stmt_kind(g1, x.kind);
    (g2, Stmt { kind, span })
}

pub open spec fn respan_stmt_kind(g: SpanGen, x: StmtKind) -> (SpanGen, StmtKind)
    decreases x,
{
    match x {
        StmtKind::Var(a) => {
            let (g1, a1) = respan_local_var(g, a);
            (g1, StmtKind::Var(a1))
        },
        StmtKind::Assign { target, value } => {
            let (g1, target) = respan_expr(g, target);
            let (g2, value) = respan_expr(g1, value);
            (g2, StmtKind::Assign { target, value })
        },
        StmtKind::Expr(a) => {
            let (g1, a1) = respan_expr(g, a);
            (g1, StmtKind::Expr(a1))
        },
        StmtKind::Item(a) => (g, StmtKind::Item(a)),
    }
}

pub open spec fn respan_local_var(g: SpanGen, x: LocalVar) -> (SpanGen, LocalVar)
    decreases x,
{
    let (g1, pattern) = respan_pattern(g, x.pattern);
    let (g2, ty) = match x.ty { Some(z) => { let (h2, y2) = respan_type(g1, z); (h2, Some(y2)) }, None => (g1, None) };
    let (g3, init) = respan_expr(g2, x.init);
    (g3, LocalVar { pattern, ty, init })
}

pub open spec fn respan_pattern(g: SpanGen, x: Pattern) -> (SpanGen, Pattern)
    decreases x,
{
    let (g1, span) = (g.after(), g.span());
    let (g2, kind) = respan_pattern_kind(g1, x.kind);
    (g2, Pattern { kind, span })
}

pub open spec fn respan_pattern_kind(g: SpanGen, x: PatternKind) -> (SpanGen, PatternKind)
    decreases x,
{
    match x {
        PatternKind::Wildcard => (g, PatternKind::Wildcard),
        PatternKind::Binding(a) => {
            let (g1, a1) = respan_ident(g, a);
            (g1, PatternKind::Binding(a1))
        },
        PatternKind::Literal(a) => {
            let (g1, a1) = { let (h, y) = respan_expr(g, *a); (h, Box::new(y)) };
            (g1, PatternKind::Literal(a1))
        },
        PatternKind::TypeBinding { ty, binding } => {
            let (g1, ty) = respan_type(g, ty);
            let (g2, binding) = match binding {
                Some(z) => { let (h2, y2) = respan_ident(g1, z); (h2, Some(y2)) },
                None => (g1, None),
            };
            (g2, PatternKind::TypeBinding { ty, binding })
        },
        PatternKind::UnitPath(a) => {
            let (g1, a1) = respan_type_path(g, a);
            (g1, PatternKind::UnitPath(a1))
        },
        PatternKind::TupleStruct { path, fields, rest } => {
            let (g1, path) = respan_type_path(g, path);
            let (g2, fields) = respan_pattern_list(g1, fields);
            let (g3, rest) = match rest {
                Some(z) => { let (h2, y2) = respan_rest(g2, z); (h2, Some(y2)) },
                None => (g2, None),
            };
            (g3, PatternKind::TupleStruct { path, fields, rest })
        },
        PatternKind::RecordStruct { path, fields, has_rest } => {
            let (g1, path) = respan_type_path(g, path);
            let (g2, fields) = respan_field_pattern_list(g1, fields);
            (g2, PatternKind::RecordStruct { path, fields, has_rest })
        },
        PatternKind::Tuple { elems, rest } => {
            let (g1, elems) = respan_pattern_list(g, elems);
            let (g2, rest) = match rest {
                Some(z) => { let (h2, y2) = respan_rest_at(g1, z); (h2, Some(y2)) },
                None => (g1, None),
            };
            (g2, PatternKind::Tuple { elems, rest })
        },
        PatternKind::List { elems, rest } => {
            let (g1, elems) = respan_pattern_list(g, elems);
            let (g2, rest) = match rest {
                Some(z) => { let (h2, y2) = respan_rest_at(g1, z); (h2, Some(y2)) },
                None => (g1, None),
            };
            (g2, PatternKind::List { elems, rest })
        },
        PatternKind::Or(a) => {
            let (g1, a1) = respan_pattern_list(g, a);
            (g1, PatternKind::Or(a1))
        },
    }
}

pub open spec fn respan_field_pattern(g: SpanGen, x: FieldPattern) -> (SpanGen, FieldPattern)
    decreases x,
{
    let (g1, name) = respan_ident(g, x.name);
    let (g2, span) = (g1.after(), g1.span());
    let (g3, pattern) = match x.pattern {
        Some(z) => { let (h2, y2) = respan_pattern(g2, z); (h2, Some(y2)) },
        None => (g2, None),
    };
    (g3, FieldPattern { name, pattern, span })
}

pub open spec fn respan_else_branch(g: SpanGen, x: ElseBranch) -> (SpanGen, ElseBranch)
    decreases x,
{
    match x {
        ElseBranch::If(a) => {
            let (g1, a1) = { let (h, y) = respan_expr(g, *a); (h, Box::new(y)) };
            (g1, ElseBranch::If(a1))
        },
        ElseBranch::Block(a) => {
            let (g1, a1) = respan_block(g, a);
            (g1, ElseBranch::Block(a1))
        },
    }
}

pub open spec fn respan_match_arm(g: SpanGen, x: MatchArm) -> (SpanGen, MatchArm)
    decreases x,
{
    let (g1, span) = (g.after(), g.span());
    let (g2, pattern) = respan_pattern(g1, x.pattern);
    let (g3, guard) = match x.guard {
        Some(z) => { let (h2, y2) = respan_expr(g2, z); (h2, Some(y2)) },
        None => (g2, None),
    };
    let (g4, body) = respan_expr(g3, x.body);
    (g4, MatchArm { pattern, guard, body, span })
}

pub open spec fn respan_closure_param(g: SpanGen, x: ClosureParam) -> (SpanGen, ClosureParam)
    decreases x,
{
    let (g1, span) = (g.after(), g.span());
    let (g2, name) = respan_ident(g1, x.name);
    let (g3, ty) = match x.ty { Some(z) => { let (h2, y2) = respan_type(g2, z); (h2, Some(y2)) }, None => (g2, None) };
    (g3, ClosureParam { name, ty, span })
}

pub open spec fn respan_attr_arg(g: SpanGen, x: AttrArg) -> (SpanGen, AttrArg)
    decreases x,
{
    match x {
        AttrArg::Positional(a) => {
            let (g1, a1) = respan_expr(g, a);
            (g1, AttrArg::Positional(a1))
        },
        AttrArg::Named { name, value } => {
            let (g1, value) = respan_expr(g, value);
            (g1, AttrArg::Named { name, value })
        },
    }
}

pub open spec fn respan_param(g: SpanGen, x: Param) -> (SpanGen, Param)
    decreases x,
{
    let (g1, span) = (g.after(), g.span());
    let (g2, kind) = respan_param_kind(g1, x.kind);
    (g2, Param { kind, span })
}

pub open spec fn respan_param_kind(g: SpanGen, x: ParamKind) -> (SpanGen, ParamKind)
    decreases x,
{
    match x {
        ParamKind::SelfParam => (g, ParamKind::SelfParam),
        ParamKind::Normal { name, ty } => {
            let (g1, name) = respan_ident(g, name);
            let (g2, ty) = respan_type(g1, ty);
            (g2, ParamKind::Normal { name, ty })
        },
    }
}

pub fn rs_generic_param_list(l: &List<GenericParam>, g: &mut SpanGen) -> (r: List<GenericParam>)
    ensures
        (*final(g), r) == respan_generic_param_list(*old(g), *l),
    decreases l,
{
    match l {
        List::Nil => List::Nil,
        List::Cons(h, t) => {
            let h = rs_generic_param(h, g);
            let t = rs_generic_param_list(t, g);
            List::Cons(Box::new(h), Box::new(t))
        },
    }
}

pub fn rs_type_list(l: &List<Type>, g: &mut SpanGen) -> (r: List<Type>)
    ensures
        (*final(g), r) == respan_type_list(*old(g), *l),
    decreases l,
{
    match l {
        List::Nil => List::Nil,
        List::Cons(h, t) => {
            let h = rs_type(h, g);
            let t = rs_type_list(t, g);
            List::Cons(Box::new(h), Box::new(t))
        },
    }
}

pub fn rs_extern_param_list(l: &List<ExternParam>, g: &mut SpanGen) -> (r: List<ExternParam>)
    ensures
        (*final(g), r) == respan_extern_param_list(*old(g), *l),
    decreases l,
{
    match l {
        List::Nil => List::Nil,
        List::Cons(h, t) => {
            let h = rs_extern_param(h, g);
            let t = rs_extern_param_list(t, g);
            List::Cons(Box::new(h), Box::new(t))
        },
    }
}

pub fn rs_string_part_list(l: &List<StringPart>, g: &mut SpanGen) -> (r: List<StringPart>)
    ensures
        (*final(g), r) == respan_string_part_list(*old(g), *l),
    decreases l,
{
    match l {
        List::Nil => List::Nil,
        List::Cons(h, t) => {
            let h = rs_string_part(h, g);
            let t = rs_string_part_list(t, g);
            List::Cons(Box::new(h), Box::new(t))
        },
    }
}

pub fn rs_expr_list(l: &List<Expr>, g: &mut SpanGen) -> (r: List<Expr>)
    ensures
        (*final(g), r) == respan_expr_list(*old(g), *l),
    decreases l,
{
    match l {
        List::Nil => List::Nil,
        List::Cons(h, t) => {
            let h = rs_expr(h, g);
            let t = rs_expr_list(t, g);
            List::Cons(Box::new(h), Box::new(t))
        },
    }
}

pub fn rs_map_item_list(l: &List<MapItem>, g: &mut SpanGen) -> (r: List<MapItem>)
    ensures
        (*final(g), r) == respan_map_item_list(*old(g), *l),
    decreases l,
{
    match l {
        List::Nil => List::Nil,
        List::Cons(h, t) => {
            let h = rs_map_item(h, g);
            let t = rs_map_item_list(t, g);
            List::Cons(Box::new(h), Box::new(t))
        },
    }
}

pub fn rs_field_init_list(l: &List<FieldInit>, g: &mut SpanGen) -> (r: List<FieldInit>)
    ensures
        (*final(g), r) == respan_field_init_list(*old(g), *l),
    decreases l,
{
    match l {
        List::Nil => List::Nil,
        List::Cons(h, t) => {
            let h = rs_field_init(h, g);
            let t = rs_field_init_list(t, g);
            List::Cons(Box::new(h), Box::new(t))
        },
    }
}

pub fn rs_stmt_list(l: &List<Stmt>, g: &mut SpanGen) -> (r: List<Stmt>)
    ensures
        (*final(g), r) == respan_stmt_list(*old(g), *l),
    decreases l,
{
    match l {
        List::Nil => List::Nil,
        List::Cons(h, t) => {
            let h = rs_stmt(h, g);
            let t = rs_stmt_list(t, g);
            List::Cons(Box::new(h), Box::new(t))
        },
    }
}

pub fn rs_pattern_list(l: &List<Pattern>, g: &mut SpanGen) -> (r: List<Pattern>)
    ensures
        (*final(g), r) == respan_pattern_list(*old(g), *l),
    decreases l,
{
    match l {
        List::Nil => List::Nil,
        List::Cons(h, t) => {
            let h = rs_pattern(h, g);
            let t = rs_pattern_list(t, g);
            List::Cons(Box::new(h), Box::new(t))
        },
    }
}

pub fn rs_field_pattern_list(l: &List<FieldPattern>, g: &mut SpanGen) -> (r: List<FieldPattern>)
    ensures
        (*final(g), r) == respan_field_pattern_list(*old(g), *l),
    decreases l,
{
    match l {
        List::Nil => List::Nil,
        List::Cons(h, t) => {
            let h = rs_field_pattern(h, g);
            let t = rs_field_pattern_list(t, g);
            List::Cons(Box::new(h), Box::new(t))
        },
    }
}

pub fn rs_match_arm_list(l: &List<MatchArm>, g: &mut SpanGen) -> (r: List<MatchArm>)
    ensures
        (*final(g), r) == respan_match_arm_list(*old(g), *l),
    decreases l,
{
    match l {
        List::Nil => List::Nil,
        List::Cons(h, t) => {
            let h = rs_match_arm(h, g);
            let t = rs_match_arm_list(t, g);
            List::Cons(Box::new(h), Box::new(t))
        },
    }
}

pub fn rs_closure_param_list(l: &List<ClosureParam>, g: &mut SpanGen) -> (r: List<ClosureParam>)
    ensures
        (*final(g), r) == respan_closure_param_list(*old(g), *l),
    decreases l,
{
    match l {
        List::Nil => List::Nil,
        List::Cons(h, t) => {
            let h = rs_closure_param(h, g);
            let t = rs_closure_param_list(t, g);
            List::Cons(Box::new(h), Box::new(t))
        },
    }
}

pub fn rs_attr_arg_list(l: &List<AttrArg>, g: &mut SpanGen) -> (r: List<AttrArg>)
    ensures
        (*final(g), r) == respan_attr_arg_list(*old(g), *l),
    decreases l,
{
    match l {
        List::Nil => List::Nil,
        List::Cons(h, t) => {
            let h = rs_attr_arg(h, g);
            let t = rs_attr_arg_list(t, g);
            List::Cons(Box::new(h), Box::new(t))
        },
    }
}

pub fn rs_param_list(l: &List<Param>, g: &mut SpanGen) -> (r: List<Param>)
    ensures
        (*final(g), r) == respan_param_list(*old(g), *l),
    decreases l,
{
    match l {
        List::Nil => List::Nil,
        List::Cons(h, t) => {
            let h = rs_param(h, g);
            let t = rs_param_list(t, g);
            List::Cons(Box::new(h), Box::new(t))
        },
    }
}

pub fn rs_function(x: &FunctionItem, g: &mut SpanGen) -> (r: FunctionItem)
    ensures
        (*final(g), r) == respan_function(*old(g), *x),
    decreases x,
{
    let name = rs_ident(x.name, g);
    let generics = match &x.generics { Some(z) => Some(rs_generic_params(z, g)), None => None };
    let params = rs_param_list(&x.params, g);
    let return_type = match &x.return_type { Some(z) => Some(rs_type(z, g)), None => None };
    let body = match &x.body { Some(z) => Some(rs_block(z, g)), None => None };
    FunctionItem { name, generics, params, return_type, is_async: x.is_async, body }
}

pub fn rs_generic_params(x: &GenericParams, g: &mut SpanGen) -> (r: GenericParams)
    ensures
        (*final(g), r) == respan_generic_params(*old(g), *x),
    decreases x,
{
    let span = g.fresh();
    let params = rs_generic_param_list(&x.params, g);
    GenericParams { params, span }
}

pub fn rs_generic_param(x: &GenericParam, g: &mut SpanGen) -> (r: GenericParam)
    ensures
        (*final(g), r) == respan_generic_param(*old(g), *x),
    decreases x,
{
    let name = rs_ident(x.name, g);
    let bounds = rs_type_list(&x.bounds, g);
    GenericParam { name, bounds }
}

pub fn rs_type(x: &Type, g: &mut SpanGen) -> (r: Type)
    ensures
        (*final(g), r) == respan_type(*old(g), *x),
    decreases x,
{
    let span = g.fresh();
    let kind = rs_type_kind(&x.kind, g);
    Type { kind, span }
}

pub fn rs_type_kind(x: &TypeKind, g: &mut SpanGen) -> (r: TypeKind)
    ensures
        (*final(g), r) == respan_type_kind(*old(g), *x),
    decreases x,
{
    match x {
        TypeKind::Named { name, generics } => {
            let name = rs_ident(*name, g);
            let generics = rs_type_list(generics, g);
            TypeKind::Named { name, generics }
        },
        TypeKind::Tuple(a) => TypeKind::Tuple(rs_type_list(a, g)),
        TypeKind::Function { params, ret } => {
            let params = rs_type_list(params, g);
            let ret = Box::new(rs_type(ret, g));
            TypeKind::Function { params, ret }
        },
        TypeKind::ExternFunction { params, ret } => {
            let params = rs_extern_param_list(params, g);
            let ret = Box::new(rs_type(ret, g));
            TypeKind::ExternFunction { params, ret }
        },
        TypeKind::Union(a) => TypeKind::Union(rs_type_list(a, g)),
        TypeKind::Pointer(a) => TypeKind::Pointer(Box::new(rs_type(a, g))),
        TypeKind::Array { elem, len } => {
            let elem = Box::new(rs_type(elem, g));
            let len = Box::new(rs_expr(len, g));
            TypeKind::Array { elem, len }
        },
        TypeKind::SelfType => TypeKind::SelfType,
        TypeKind::Paren(a) => TypeKind::Paren(Box::new(rs_type(a, g))),
    }
}

pub fn rs_extern_param(x: &ExternParam, g: &mut SpanGen) -> (r: ExternParam)
    ensures
        (*final(g), r) == respan_extern_param(*old(g), *x),
    decreases x,
{
    let ty = rs_type(&x.ty, g);
    let span = g.fresh();
    ExternParam { ty, span }
}

pub fn rs_expr(x: &Expr, g: &mut SpanGen) -> (r: Expr)
    ensures
        (*final(g), r) == respan_expr(*old(g), *x),
    decreases x,
{
    let span = g.fresh();
    let kind = rs_expr_kind(&x.kind, g);
    Expr { kind, span }
}

pub fn rs_expr_kind(x: &ExprKind, g: &mut SpanGen) -> (r: ExprKind)
    ensures
        (*final(g), r) == respan_expr_kind(*old(g), *x),
    decreases x,
{
    match x {
        ExprKind::Int(a) => ExprKind::Int(*a),
        ExprKind::Float(a) => ExprKind::Float(*a),
        ExprKind::Bool(a) => ExprKind::Bool(*a),
        ExprKind::Null => ExprKind::Null,
        ExprKind::Char(a) => ExprKind::Char(*a),
        ExprKind::Str(a) => ExprKind::Str(rs_string_lit(a, g)),
        ExprKind::Ident(a) => ExprKind::Ident(rs_ident(*a, g)),
        ExprKind::SelfExpr => ExprKind::SelfExpr,
        ExprKind::Underscore => ExprKind::Underscore,
        ExprKind::Continue => ExprKind::Continue,
        ExprKind::Paren(a) => ExprKind::Paren(Box::new(rs_expr(a, g))),
        ExprKind::Tuple(a) => ExprKind::Tuple(rs_expr_list(a, g)),
        ExprKind::List(a) => ExprKind::List(rs_expr_list(a, g)),
        ExprKind::MapLit(a) => ExprKind::MapLit(rs_map_item_list(a, g)),
        ExprKind::StructLit { path, fields, spread } => {
            let path = rs_type_path(path, g);
            let fields = rs_field_init_list(fields, g);
            let spread = match spread { Some(z) => Some(Box::new(rs_expr(z, g))), None => None };
            ExprKind::StructLit { path, fields, spread }
        },
        ExprKind::Unary { op, op_span, operand } => {
            let op_span = g.fresh();
            let operand = Box::new(rs_expr(operand, g));
            ExprKind::Unary { op: *op, op_span, operand }
        },
        ExprKind::Binary { op, op_span, left, right } => {
            let op_span = g.fresh();
            let left = Box::new(rs_expr(left, g));
            let right = Box::new(rs_expr(right, g));
            ExprKind::Binary { op: *op, op_span, left, right }
        },
        ExprKind::Cast { op, op_span, expr, ty } => {
            let op_span = g.fresh();
            let expr = Box::new(rs_expr(expr, g));
            let ty = Box::new(rs_type(ty, g));
            ExprKind::Cast { op: *op, op_span, expr, ty }
        },
        ExprKind::Field { receiver, name } => {
            let receiver = Box::new(rs_expr(receiver, g));
            let name = rs_ident(*name, g);
            ExprKind::Field { receiver, name }
        },
        ExprKind::TupleIndex { receiver, index, index_span } => {
            let receiver = Box::new(rs_expr(receiver, g));
            let index_span = g.fresh();
            ExprKind::TupleIndex { receiver, index: *index, index_span }
        },
        ExprKind::Call { callee, generics, args, trailing_closure } => {
            let callee = Box::new(rs_expr(callee, g));
            let generics = rs_type_list(generics, g);
            let args = rs_expr_list(args, g);
            let trailing_closure = match trailing_closure { Some(z) => Some(Box::new(rs_expr(z, g))), None => None };
            ExprKind::Call { callee, generics, args, trailing_closure }
        },
        ExprKind::Index { receiver, index } => {
            let receiver = Box::new(rs_expr(receiver, g));
            let index = Box::new(rs_expr(index, g));
            ExprKind::Index { receiver, index }
        },
        ExprKind::Try { expr, q_span } => {
            let expr = Box::new(rs_expr(expr, g));
            let q_span = g.fresh();
            ExprKind::Try { expr, q_span }
        },
        ExprKind::Ref { expr, amp_span } => {
            let expr = Box::new(rs_expr(expr, g));
            let amp_span = g.fresh();
            ExprKind::Ref { expr, amp_span }
        },
        ExprKind::Deref { expr, star_span } => {
            let expr = Box::new(rs_expr(expr, g));
            let star_span = g.fresh();
            ExprKind::Deref { expr, star_span }
        },
        ExprKind::Await { expr, kw_span } => {
            let expr = Box::new(rs_expr(expr, g));
            let kw_span = g.fresh();
            ExprKind::Await { expr, kw_span }
        },
        ExprKind::Spawn { expr, kw_span } => {
            let expr = Box::new(rs_expr(expr, g));
            let kw_span = g.fresh();
            ExprKind::Spawn { expr, kw_span }
        },
        ExprKind::If { cond, then_block, else_branch } => {
            let cond = Box::new(rs_expr(cond, g));
            let then_block = rs_block(then_block, g);
            let else_branch = match else_branch { Some(z) => Some(rs_else_branch(z, g)), None => None };
            ExprKind::If { cond, then_block, else_branch }
        },
        ExprKind::Match { scrutinee, arms } => {
            let scrutinee = Box::new(rs_expr(scrutinee, g));
            let arms = rs_match_arm_list(arms, g);
            ExprKind::Match { scrutinee, arms }
        },
        ExprKind::Block(a) => ExprKind::Block(rs_block(a, g)),
        ExprKind::Loop(a) => ExprKind::Loop(rs_block(a, g)),
        ExprKind::While { cond, body } => {
            let cond = Box::new(rs_expr(cond, g));
            let body = rs_block(body, g);
            ExprKind::While { cond, body }
        },
        ExprKind::For { pattern, in_async, iter, body } => {
            let pattern = rs_pattern(pattern, g);
            let iter = Box::new(rs_expr(iter, g));
            let body = rs_block(body, g);
            ExprKind::For { pattern, in_async: *in_async, iter, body }
        },
        ExprKind::Return(a) => ExprKind::Return(match a { Some(z) => Some(Box::new(rs_expr(z, g))), None => None }),
        ExprKind::Break(a) => ExprKind::Break(match a { Some(z) => Some(Box::new(rs_expr(z, g))), None => None }),
        ExprKind::Closure { params, return_type, is_async, body } => {
            let params = rs_closure_param_list(params, g);
            let return_type = match return_type { Some(z) => Some(rs_type(z, g)), None => None };
            let body = Box::new(rs_expr(body, g));
            ExprKind::Closure { params, return_type, is_async: *is_async, body }
        },
        ExprKind::AnonFn(a) => ExprKind::AnonFn(Box::new(rs_function(a, g))),
        ExprKind::AsyncBlock(a) => ExprKind::AsyncBlock(rs_block(a, g)),
        ExprKind::MacroCall { name, args, block } => {
            let args = rs_attr_arg_list(args, g);
            let block = match block { Some(z) => Some(rs_block(z, g)), None => None };
            ExprKind::MacroCall { name: *name, args, block }
        },
    }
}

pub fn rs_string_lit(x: &StringLit, g: &mut SpanGen) -> (r: StringLit)
    ensures
        (*final(g), r) == respan_string_lit(*old(g), *x),
    decreases x,
{
    let span = g.fresh();
    let parts = rs_string_part_list(&x.parts, g);
    StringLit { parts, span }
}

pub fn rs_string_part(x: &StringPart, g: &mut SpanGen) -> (r: StringPart)
    ensures
        (*final(g), r) == respan_string_part(*old(g), *x),
    decreases x,
{
    match x {
        StringPart::Text { text, span } => {
            let span = g.fresh();
            StringPart::Text { text: *text, span }
        },
        StringPart::Ident(a) => StringPart::Ident(rs_ident(*a, g)),
        StringPart::Expr(a) => StringPart::Expr(rs_expr(a, g)),
    }
}

pub fn rs_map_item(x: &MapItem, g: &mut SpanGen) -> (r: MapItem)
    ensures
        (*final(g), r) == respan_map_item(*old(g), *x),
    decreases x,
{
    match x {
        MapItem::Entry { key, value, span } => {
            let key = Box::new(rs_expr(key, g));
            let value = Box::new(rs_expr(value, g));
            let span = g.fresh();
            MapItem::Entry { key, value, span }
        },
        MapItem::Spread(a) => MapItem::Spread(Box::new(rs_expr(a, g))),
    }
}

pub fn rs_type_path(x: &TypePath, g: &mut SpanGen) -> (r: TypePath)
    ensures
        (*final(g), r) == respan_type_path(*old(g), *x),
    decreases x,
{
    let span = g.fresh();
    let name = rs_ident(x.name, g);
    let generics = rs_type_list(&x.generics, g);
    TypePath { name, generics, span }
}

pub fn rs_field_init(x: &FieldInit, g: &mut SpanGen) -> (r: FieldInit)
    ensures
        (*final(g), r) == respan_field_init(*old(g), *x),
    decreases x,
{
    let name = rs_ident(x.name, g);
    let span = g.fresh();
    let value = match &x.value { Some(z) => Some(rs_expr(z, g)), None => None };
    FieldInit { name, value, span }
}

pub fn rs_block(x: &Block, g: &mut SpanGen) -> (r: Block)
    ensures
        (*final(g), r) == respan_block(*old(g), *x),
    decreases x,
{
    let span = g.fresh();
    let stmts = rs_stmt_list(&x.stmts, g);
    let trailing = match &x.trailing { Some(z) => Some(Box::new(rs_expr(z, g))), None => None };
    Block { stmts, trailing, span }
}

pub fn rs_stmt(x: &Stmt, g: &mut SpanGen) -> (r: Stmt)
    ensures
        (*final(g), r) == respan_stmt(*old(g), *x),
    decreases x,
{
    let span = g.fresh();
    let kind = rs_stmt_kind(&x.kind, g);
    Stmt { kind, span }
}

pub fn rs_stmt_kind(x: &StmtKind, g: &mut SpanGen) -> (r: StmtKind)
    ensures
        (*final(g), r) == respan_stmt_kind(*old(g), *x),
    decreases x,
{
    match x {
        StmtKind::Var(a) => StmtKind::Var(rs_local_var(a, g)),
        StmtKind::Assign { target, value } => {
            let target = rs_expr(target, g);
            let value = rs_expr(value, g);
            StmtKind::Assign { target, value }
        },
        StmtKind::Expr(a) => StmtKind::Expr(rs_expr(a, g)),
        StmtKind::Item(a) => StmtKind::Item(Box::new(dup_item(a))),
    }
}

pub fn rs_local_var(x: &LocalVar, g: &mut SpanGen) -> (r: LocalVar)
    ensures
        (*final(g), r) == respan_local_var(*old(g), *x),
    decreases x,
{
    let pattern = rs_pattern(&x.pattern, g);
    let ty = match &x.ty { Some(z) => Some(rs_type(z, g)), None => None };
    let init = rs_expr(&x.init, g);
    LocalVar { pattern, ty, init }
}

pub fn rs_pattern(x: &Pattern, g: &mut SpanGen) -> (r: Pattern)
    ensures
        (*final(g), r) == respan_pattern(*old(g), *x),
    decreases x,
{
    let span = g.fresh();
    let kind = rs_pattern_kind(&x.kind, g);
    Pattern { kind, span }
}

pub fn rs_pattern_kind(x: &PatternKind, g: &mut SpanGen) -> (r: PatternKind)
    ensures
        (*final(g), r) == respan_pattern_kind(*old(g), *x),
    decreases x,
{
    match x {
        PatternKind::Wildcard => PatternKind::Wildcard,
        PatternKind::Binding(a) => PatternKind::Binding(rs_ident(*a, g)),
        PatternKind::Literal(a) => PatternKind::Literal(Box::new(rs_expr(a, g))),
        PatternKind::TypeBinding { ty, binding } => {
            let ty = rs_type(ty, g);
            let binding = match binding { Some(z) => Some(rs_ident(*z, g)), None => None };
            PatternKind::TypeBinding { ty, binding }
        },
        PatternKind::UnitPath(a) => PatternKind::UnitPath(rs_type_path(a, g)),
        PatternKind::TupleStruct { path, fields, rest } => {
            let path = rs_type_path(path, g);
            let fields = rs_pattern_list(fields, g);
            let rest = match rest { Some(z) => Some(rs_rest(*z, g)), None => None };
            PatternKind::TupleStruct { path, fields, rest }
        },
        PatternKind::RecordStruct { path, fields, has_rest } => {
            let path = rs_type_path(path, g);
            let fields = rs_field_pattern_list(fields, g);
            PatternKind::RecordStruct { path, fields, has_rest: *has_rest }
        },
        PatternKind::Tuple { elems, rest } => {
            let elems = rs_pattern_list(elems, g);
            let rest = match rest { Some(z) => Some(rs_rest_at(*z, g)), None => None };
            PatternKind::Tuple { elems, rest }
        },
        PatternKind::List { elems, rest } => {
            let elems = rs_pattern_list(elems, g);
            let rest = match rest { Some(z) => Some(rs_rest_at(*z, g)), None => None };
            PatternKind::List { elems, rest }
        },
        PatternKind::Or(a) => PatternKind::Or(rs_pattern_list(a, g)),
    }
}

pub fn rs_field_pattern(x: &FieldPattern, g: &mut SpanGen) -> (r: FieldPattern)
    ensures
        (*final(g), r) == respan_field_pattern(*old(g), *x),
    decreases x,
{
    let name = rs_ident(x.name, g);
    let span = g.fresh();
    let pattern = match &x.pattern { Some(z) => Some(rs_pattern(z, g)), None => None };
    FieldPattern { name, pattern, span }
}

pub fn rs_else_branch(x: &ElseBranch, g: &mut SpanGen) -> (r: ElseBranch)
    ensures
        (*final(g), r) == respan_else_branch(*old(g), *x),
    decreases x,
{
    match x {
        ElseBranch::If(a) => ElseBranch::If(Box::new(rs_expr(a, g))),
        ElseBranch::Block(a) => ElseBranch::Block(rs_block(a, g)),
    }
}

pub fn rs_match_arm(x: &MatchArm, g: &mut SpanGen) -> (r: MatchArm)
    ensures
        (*final(g), r) == respan_match_arm(*old(g), *x),
    decreases x,
{
    let span = g.fresh();
    let pattern = rs_pattern(&x.pattern, g);
    let guard = match &x.guard { Some(z) => Some(rs_expr(z, g)), None => None };
    let body = rs_expr(&x.body, g);
    MatchArm { pattern, guard, body, span }
}

pub fn rs_closure_param(x: &ClosureParam, g: &mut SpanGen) -> (r: ClosureParam)
    ensures
        (*final(g), r) == respan_closure_param(*old(g), *x),
    decreases x,
{
    let span = g.fresh();
    let name = rs_ident(x.name, g);
    let ty = match &x.ty { Some(z) => Some(rs_type(z, g)), None => None };
    ClosureParam { name, ty, span }
}

pub fn rs_attr_arg(x: &AttrArg, g: &mut SpanGen) -> (r: AttrArg)
    ensures
        (*final(g), r) == respan_attr_arg(*old(g), *x),
    decreases x,
{
    match x {
        AttrArg::Positional(a) => AttrArg::Positional(rs_expr(a, g)),
        AttrArg::Named { name, value } => {
            let value = rs_expr(value, g);
            AttrArg::Named { name: *name, value }
        },
    }
}

pub fn rs_param(x: &Param, g: &mut SpanGen) -> (r: Param)
    ensures
        (*final(g), r) == respan_param(*old(g), *x),
    decreases x,
{
    let span = g.fresh();
    let kind = rs_param_kind(&x.kind, g);
    Param { kind, span }
}

pub fn rs_param_kind(x: &ParamKind, g: &mut SpanGen) -> (r: ParamKind)
    ensures
        (*final(g), r) == respan_param_kind(*old(g), *x),
    decreases x,
{
    match x {
        ParamKind::SelfParam => ParamKind::SelfParam,
        ParamKind::Normal { name, ty } => {
            let name = rs_ident(*name, g);
            let ty = rs_type(ty, g);
            ParamKind::Normal { name, ty }
        },
    }
}

} // verus!
