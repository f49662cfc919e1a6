//! Expressions: literals, operators, casts, closures and futures.
use vstd::prelude::*;
use crate::ast::{BinaryOp, CastOp, ClosureParam, Expr, ExprKind, ItemKind, Param, ParamKind, StringPart, UnaryOp};
use crate::check::rules::local_types;
use crate::check::stmt::add_roots;
use crate::check::{take_list, AsyncInfo, Ck, ClosureFrame, ClosureInfo, Cx, Hole};
use crate::diag::{Problem, SemaErrorKind};
use crate::hir::{LocalTy, OpOverload};
use crate::list::{dup, List};
use crate::lower::TypeEnv;
use crate::names::Symbol;
use crate::results::ValueRes;
use crate::solve::Solved;
use crate::span::Span;
use crate::ty::{Ty, TyKind, BOOL_TY, CHAR_TY, ERROR_TY, NEVER_TY, NULL_TY, STR_TY};
use crate::words::{ADD, BITAND, BITOR, BITXOR, DIV, EQ, GE, GT, IT, LE, LT, MOD, MUL, SELF, SHL, SHR, SUB};

verus! {

broadcast use {crate::check::law_grows_reflexive, crate::check::law_grows_transitive};

/// An operator as it is written.
pub open spec fn op_text(op: BinaryOp) -> Seq<char> {
    match op {
        BinaryOp::Add => "+"@,
        BinaryOp::Sub => "-"@,
        BinaryOp::Mul => "*"@,
        BinaryOp::Div => "/"@,
        BinaryOp::Rem => "%"@,
        BinaryOp::Eq => "=="@,
        BinaryOp::Ne => "!="@,
        BinaryOp::Lt => "<"@,
        BinaryOp::Le => "<="@,
        BinaryOp::Gt => ">"@,
        BinaryOp::Ge => ">="@,
        BinaryOp::And => "&&"@,
        BinaryOp::Or => "||"@,
        BinaryOp::BitAnd => "&"@,
        BinaryOp::BitOr => "|"@,
        BinaryOp::BitXor => "^"@,
        BinaryOp::Shl => "<<"@,
        BinaryOp::Shr => ">>"@,
    }
}

/// An operator as it is written.
pub fn binop_str(op: BinaryOp) -> (r: &'static str)
    ensures
        r@ == op_text(op),
{
    match op {
        BinaryOp::Add => "+",
        BinaryOp::Sub => "-",
        BinaryOp::Mul => "*",
        BinaryOp::Div => "/",
        BinaryOp::Rem => "%",
        BinaryOp::Eq => "==",
        BinaryOp::Ne => "!=",
        BinaryOp::Lt => "<",
        BinaryOp::Le => "<=",
        BinaryOp::Gt => ">",
        BinaryOp::Ge => ">=",
        BinaryOp::And => "&&",
        BinaryOp::Or => "||",
        BinaryOp::BitAnd => "&",
        BinaryOp::BitOr => "|",
        BinaryOp::BitXor => "^",
        BinaryOp::Shl => "<<",
        BinaryOp::Shr => ">>",
    }
}

/// The method that implements an operator for a user type.
pub open spec fn op_method(op: BinaryOp) -> Option<Symbol> {
    match op {
        BinaryOp::Add => Some(ADD),
        BinaryOp::Sub => Some(SUB),
        BinaryOp::Mul => Some(MUL),
        BinaryOp::Div => Some(DIV),
        BinaryOp::Rem => Some(MOD),
        BinaryOp::BitAnd => Some(BITAND),
        BinaryOp::BitOr => Some(BITOR),
        BinaryOp::BitXor => Some(BITXOR),
        BinaryOp::Shl => Some(SHL),
        BinaryOp::Shr => Some(SHR),
        BinaryOp::Eq => Some(EQ),
        BinaryOp::Ne => Some(EQ),
        BinaryOp::Lt => Some(LT),
        BinaryOp::Le => Some(LE),
        BinaryOp::Gt => Some(GT),
        BinaryOp::Ge => Some(GE),
        BinaryOp::And => None,
        BinaryOp::Or => None,
    }
}

/// The method that implements an operator for a user type.
pub fn method_of_op(op: BinaryOp) -> (r: Option<Symbol>)
    ensures
        r == op_method(op),
{
    match op {
        BinaryOp::Add => Some(ADD),
        BinaryOp::Sub => Some(SUB),
        BinaryOp::Mul => Some(MUL),
        BinaryOp::Div => Some(DIV),
        BinaryOp::Rem => Some(MOD),
        BinaryOp::BitAnd => Some(BITAND),
        BinaryOp::BitOr => Some(BITOR),
        BinaryOp::BitXor => Some(BITXOR),
        BinaryOp::Shl => Some(SHL),
        BinaryOp::Shr => Some(SHR),
        BinaryOp::Eq => Some(EQ),
        BinaryOp::Ne => Some(EQ),
        BinaryOp::Lt => Some(LT),
        BinaryOp::Le => Some(LE),
        BinaryOp::Gt => Some(GT),
        BinaryOp::Ge => Some(GE),
        BinaryOp::And => None,
        BinaryOp::Or => None,
    }
}

impl Ck {
    /// The type of an expression, `expected` where something says what it should
    /// be. Leaves the expression's node.
    pub open spec fn check_expr(self, e: Expr, expected: Option<Ty>) -> (Ck, Ty)
        decreases e, 12int,
    {
        let (s1, ty) = self.check_expr_inner(e, expected);
        let s2 = s1.leave_node(e, ty);
        (s2, ty)
    }

    /// Leaves the node of a checked expression, if it has one.
    #[verifier::opaque]
    pub open spec fn leave_node(self, e: Expr, ty: Ty) -> Ck {
        let (s1, node) = self.build_node(e, ty);
        match node {
            Some(n) => s1.put(e.span, n),
            None => s1,
        }
    }

    pub open spec fn check_expr_inner(self, e: Expr, expected: Option<Ty>) -> (Ck, Ty)
        decreases e, 11int,
    {
        match e.kind {
            ExprKind::Int(lit) => self.check_int_lit(lit, expected, e.span),
            ExprKind::Float(lit) => (self, self.check_float_lit(lit, expected)),
            ExprKind::Bool(_) => (self, BOOL_TY),
            ExprKind::Null => (self, NULL_TY),
            ExprKind::Char(_) => (self, CHAR_TY),
            ExprKind::Str(s) => {
                let (s1, holes) = self.check_parts(s.parts);
                let s2 = Ck { p_holes: Some(holes), ..s1 };
                (s2, STR_TY)
            },
            ExprKind::Ident(name) => self.check_ident(name.name, e.span),
            ExprKind::SelfExpr => self.check_self(e.span),
            ExprKind::Paren(inner) => self.check_expr(*inner, expected),
            ExprKind::Tuple(elems) => {
                let want = self.tuple_expectation(expected, elems.count());
                let (s3, tys) = self.check_elems(elems, want);
                s3.mk_tuple(tys)
            },
            ExprKind::List(_) => self.check_list_lit(e, expected),
            ExprKind::MapLit(_) => self.check_map_lit(e, expected),
            ExprKind::StructLit { .. } => self.check_struct_lit(e, expected),
            ExprKind::Call { .. } => self.check_call(e),
            ExprKind::Closure { .. } => self.check_closure(e, expected),
            ExprKind::Block(b) => self.check_block(b, expected),
            ExprKind::If { .. } => self.check_if(e, expected),
            ExprKind::Match { .. } => self.check_match(e, expected),
            ExprKind::AsyncBlock(_) => self.check_async_block(e, expected),
            ExprKind::Return(_)
            | ExprKind::Break(_)
            | ExprKind::Continue
            | ExprKind::Loop(_)
            | ExprKind::While { .. }
            | ExprKind::For { .. } => self.check_flow(e),
            _ => self.check_operator(e),
        }
    }

    /// Operators, and the other forms that look at their operands' types alone.
    pub open spec fn check_operator(self, e: Expr) -> (Ck, Ty)
        decreases e, 9int,
    {
        match e.kind {
            ExprKind::Unary { .. } => self.check_unary(e),
            ExprKind::Binary { .. } => self.check_binary(e),
            ExprKind::Field { .. } => self.check_field(e),
            ExprKind::TupleIndex { .. } => self.check_tuple_index(e),
            ExprKind::Index { .. } => self.check_index(e),
            ExprKind::Cast { .. } => self.check_cast(e),
            ExprKind::Try { expr, q_span } => {
                let (s1, raw) = self.check_expr(*expr, None);
                s1.try_value(raw, q_span)
            },
            ExprKind::Ref { .. } => self.check_ref(e),
            ExprKind::Deref { .. } => self.check_deref(e),
            ExprKind::Await { .. } => self.check_await(e),
            ExprKind::Spawn { .. } => self.check_spawn(e),
            _ => {
                let s2 = self.say("this expression form is not yet supported by the type checker"@, e.span);
                (s2, ERROR_TY)
            },
        }
    }

    #[verifier::opaque]
    pub open spec fn check_self(self, span: Span) -> (Ck, Ty) {
        match (self.self_local, self.lookup(SELF)) {
            (Some(id), Some(b)) => {
                let s1 = self.capture(id, b.ty);
                let s2 = s1.record_res(span, ValueRes::Local(id), b.ty);
                (s2, b.ty)
            },
            _ => {
                let s3 = self.say("`self` is only valid inside a method"@, span);
                (s3, ERROR_TY)
            },
        }
    }

    /// How a hole of a string literal is rendered: by itself, or by the `to_str`
    /// method of its type.
    #[verifier::opaque]
    pub open spec fn hole_of(self, ty: Ty, span: Span) -> (Ck, Hole) {
        if self.is_err(ty) || self.is_stringifiable(ty) {
            (self, Hole { method: None, targs: List::Nil })
        } else {
            let (s1, found) = self.tostr_method(ty);
            match found {
                Some((method, targs)) => (s1, Hole { method: Some(method), targs }),
                None => {
                    let t = s1.show(ty);
                    let s2 = s1.say(
                        "cannot interpolate `"@
                            + t
                            + "`: it has no `to_str(): str` method (add one or `@Derive(ToStr)`)"@,
                        span,
                    );
                    (s2, Hole { method: None, targs: List::Nil })
                },
            }
        }
    }

    pub open spec fn check_parts(self, l: List<StringPart>) -> (Ck, List<Hole>)
        decreases l, 1int,
    {
        match l {
            List::Nil => (self, List::Nil),
            List::Cons(p, t) => {
                let (p, t) = (*p, *t);
                match p {
                    StringPart::Text { .. } => self.check_parts(t),
                    StringPart::Ident(id) => {
                        let (s1, ty) = self.check_name_use(id.name, id.span);
                        let (s2, hole) = s1.hole_of(ty, id.span);
                        let (s3, rest) = s2.check_parts(t);
                        (s3, List::Cons(Box::new(hole), Box::new(rest)))
                    },
                    StringPart::Expr(x) => {
                        let (s4, ty) = self.check_expr(x, None);
                        let (s5, hole) = s4.hole_of(ty, x.span);
                        let (s6, rest) = s5.check_parts(t);
                        (s6, List::Cons(Box::new(hole), Box::new(rest)))
                    },
                }
            },
        }
    }

    /// The element types of the expected tuple, if it has `n` elements.
    #[verifier::opaque]
    pub open spec fn tuple_expectation(self, expected: Option<Ty>, n: usize) -> Option<List<Ty>> {
        match expected {
            Some(x) => match self.kind(x) {
                TyKind::Tuple(ts) => if ts.count() == n {
                    Some(ts)
                } else {
                    None
                },
                _ => None,
            },
            None => None,
        }
    }

    pub open spec fn check_elems(self, l: List<Expr>, want: Option<List<Ty>>) -> (Ck, List<Ty>)
        decreases l, 1int,
    {
        match l {
            List::Nil => (self, List::Nil),
            List::Cons(h, t) => match want {
                Some(List::Cons(x, more)) => {
                    let (s1, ty) = self.check_expr(*h, Some(*x));
                    let (s2, rest) = s1.check_elems(*t, Some(*more));
                    (s2, List::Cons(Box::new(ty), Box::new(rest)))
                },
                _ => {
                    let (s3, ty) = self.check_expr(*h, None);
                    let (s4, rest) = s3.check_elems(*t, None);
                    (s4, List::Cons(Box::new(ty), Box::new(rest)))
                },
            },
        }
    }

    pub open spec fn check_unary(self, e: Expr) -> (Ck, Ty)
        decreases e, 8int,
    {
        match e.kind {
            ExprKind::Unary { op, op_span, operand } => {
                let (op, op_span, operand) = (op, op_span, *operand);
                let (s1, ty) = self.check_expr(operand, None);
                if s1.is_err(ty) {
                    (s1, ERROR_TY)
                } else {
                    match op {
                        UnaryOp::Neg => if s1.is_numeric(ty) {
                            (s1, ty)
                        } else {
                            let s2 = s1.op_error("-"@, ty, op_span);
                            (s2, ERROR_TY)
                        },
                        UnaryOp::Not => if ty == BOOL_TY || s1.is_integer(ty) {
                            (s1, ty)
                        } else {
                            let s3 = s1.op_error("!"@, ty, op_span);
                            (s3, ERROR_TY)
                        },
                        UnaryOp::BitNot => if s1.is_integer(ty) {
                            (s1, ty)
                        } else {
                            let s4 = s1.op_error("~"@, ty, op_span);
                            (s4, ERROR_TY)
                        },
                    }
                }
            },
            _ => (self, ERROR_TY),
        }
    }

    pub open spec fn check_binary(self, e: Expr) -> (Ck, Ty)
        decreases e, 8int,
    {
        match e.kind {
            ExprKind::Binary { op, op_span, left, right } => {
                let (op, op_span, left, right) = (op, op_span, *left, *right);
                if op == BinaryOp::And || op == BinaryOp::Or {
                    let (s1, l) = self.check_expr(left, Some(BOOL_TY));
                    let (s2, r) = s1.check_expr(right, Some(BOOL_TY));
                    let s3 = s2.expect(l, BOOL_TY, left.span);
                    let s4 = s3.expect(r, BOOL_TY, right.span);
                    (s4, BOOL_TY)
                } else {
                    let (s5, l) = self.check_expr(left, None);
                    let (s6, r) = s5.check_expr(right, Some(l));
                    if s6.is_err(l) || s6.is_err(r) {
                        (s6, ERROR_TY)
                    } else {
                        let (s7, overload) = s6.try_operator_overload(op, l, r, right.span, op_span);
                        match overload {
                            Some(t) => (s7, t),
                            None => s7.builtin_operator(op, l, r, right.span, op_span),
                        }
                    }
                }
            },
            _ => (self, ERROR_TY),
        }
    }

    /// The type of an operator on builtin operands.
    #[verifier::opaque]
    pub open spec fn builtin_operator(self, op: BinaryOp, l: Ty, r: Ty, right: Span, op_span: Span) -> (Ck, Ty) {
        match op {
            BinaryOp::Add | BinaryOp::Sub | BinaryOp::Mul | BinaryOp::Div | BinaryOp::Rem => if op == BinaryOp::Add
                && l == STR_TY {
                let s1 = self.expect(r, STR_TY, right);
                (s1, STR_TY)
            } else {
                if self.is_numeric(l) {
                    let s2 = self.expect(r, l, right);
                    (s2, l)
                } else {
                    let s3 = self.op_error(op_text(op), l, op_span);
                    (s3, ERROR_TY)
                }
            },
            BinaryOp::Eq | BinaryOp::Ne => {
                let s4 = self.expect(r, l, right);
                (s4, BOOL_TY)
            },
            BinaryOp::Lt | BinaryOp::Le | BinaryOp::Gt | BinaryOp::Ge => {
                let s5 = if self.is_ordered(l) {
                    let s6 = self.expect(r, l, right);
                    s6
                } else {
                    let s7 = self.op_error(op_text(op), l, op_span);
                    s7
                };
                (s5, BOOL_TY)
            },
            BinaryOp::BitAnd | BinaryOp::BitOr | BinaryOp::BitXor | BinaryOp::Shl | BinaryOp::Shr => if self.is_integer(l) {
                let s8 = self.expect(r, l, right);
                (s8, l)
            } else {
                let s9 = self.op_error(op_text(op), l, op_span);
                (s9, ERROR_TY)
            },
            BinaryOp::And | BinaryOp::Or => (self, BOOL_TY),
        }
    }

    /// The type of the first parameter other than `self`.
    #[verifier::opaque]
    pub open spec fn first_param(self, params: List<Param>, env: TypeEnv, m: List<Solved>) -> (Ck, Option<Ty>)
        decreases params,
    {
        match params {
            List::Nil => (self, None),
            List::Cons(p, t) => match p.kind {
                ParamKind::SelfParam => self.first_param(*t, env, m),
                ParamKind::Normal { ty, .. } => {
                    let (s1, raw) = self.lower(ty, env);
                    let (s2, x) = s1.subst(raw, m);
                    (s2, Some(x))
                },
            },
        }
    }

    /// An operator on a user type calls the method of an `extend` block; the type
    /// of the result, or nothing if the operand is builtin.
    #[verifier::opaque]
    pub open spec fn try_operator_overload(
        self,
        op: BinaryOp,
        l: Ty,
        r: Ty,
        right: Span,
        op_span: Span,
    ) -> (Ck, Option<Ty>) {
        match op_method(op) {
            Some(n) => {
                let name = n;
                if self.named_def(l) is None {
                    (self, None)
                } else {
                    let (s1, found) = self.resolve_method(l, name);
                    match found {
                        Some(f) => {
                            let s2 = Ck {
                                p_overload: Some(
                                    OpOverload {
                                        method: f.method,
                                        type_args: s1.block_args(f.method, f.solved),
                                    },
                                ),
                                ..s1
                            };
                            let (s3, (env, self_ty)) = s2.fn_env(f.method);
                            match s3.p.def_of(f.method).item {
                                Some(ItemKind::Function(func)) => {
                                    let (s4, rhs) = s3.first_param(func.params, env, f.solved);
                                    let s5 = match rhs {
                                        Some(rt) => s4.expect(r, rt, right),
                                        None => s4,
                                    };
                                    if op == BinaryOp::Eq || op == BinaryOp::Ne {
                                        (s5, Some(BOOL_TY))
                                    } else {
                                        let (s6, ret) = s5.lower_ret(func.return_type, env, f.solved);
                                        (s6, Some(ret))
                                    }
                                },
                                _ => (s3, Some(ERROR_TY)),
                            }
                        },
                        None => {
                            let t = s1.show(l);
                            let s7 = s1.say(
                                "operator `"@ + op_text(op) + "` is not implemented for `"@ + t + "`"@,
                                op_span,
                            );
                            (s7, Some(ERROR_TY))
                        },
                    }
                }
            },
            None => (self, None),
        }
    }

    /// `e is T` is a `bool`; `e as T` is a `T` if the conversion is defined.
    pub open spec fn check_cast(self, e: Expr) -> (Ck, Ty)
        decreases e, 8int,
    {
        match e.kind {
            ExprKind::Cast { op, expr, ty, .. } => {
                let (op, inner, ty) = (op, *expr, *ty);
                let env = self.env();
                let (s1, to) = self.lower(ty, env);
                let (s2, from) = s1.check_expr(inner, None);
                let s3 = Ck { p_cast: Some(to), ..s2 };
                match op {
                    CastOp::Is => (s3, BOOL_TY),
                    CastOp::As => if s3.castable(from, to) {
                        (s3, to)
                    } else {
                        let f = s3.show(from);
                        let t = s3.show(to);
                        let s4 = s3.fail(Problem::InvalidCast { from: f, to: t }, inner.span);
                        (s4, ERROR_TY)
                    },
                }
            },
            _ => (self, ERROR_TY),
        }
    }

    /// `&place` is a raw pointer.
    pub open spec fn check_ref(self, e: Expr) -> (Ck, Ty)
        decreases e, 8int,
    {
        match e.kind {
            ExprKind::Ref { expr, .. } => {
                let inner = *expr;
                let (s1, t) = self.check_expr(inner, None);
                if s1.is_err(t) {
                    (s1, ERROR_TY)
                } else {
                    s1.mk_ptr(t)
                }
            },
            _ => (self, ERROR_TY),
        }
    }

    /// `*p` is what the raw pointer `p` points to.
    pub open spec fn check_deref(self, e: Expr) -> (Ck, Ty)
        decreases e, 8int,
    {
        match e.kind {
            ExprKind::Deref { expr, star_span } => {
                let (inner, star_span) = (*expr, star_span);
                let (s1, t) = self.check_expr(inner, None);
                match s1.kind(t) {
                    TyKind::Error => (s1, ERROR_TY),
                    TyKind::Ptr(p) => (s1, p),
                    _ => {
                        let n = s1.show(t);
                        let s2 = s1.say(
                            "cannot dereference `"@ + n + "`: it is not a raw pointer `*T`"@,
                            star_span,
                        );
                        (s2, ERROR_TY)
                    },
                }
            },
            _ => (self, ERROR_TY),
        }
    }

    /// `await f` is what the future `f` yields.
    pub open spec fn check_await(self, e: Expr) -> (Ck, Ty)
        decreases e, 8int,
    {
        match e.kind {
            ExprKind::Await { expr, kw_span } => {
                let (inner, kw_span) = (*expr, kw_span);
                let (s1, fty) = self.check_expr(inner, None);
                let s2 = if !s1.in_async {
                    let s3 = s1.say(
                        "`await` is only allowed inside an `async` function, `async` closure, or `async { … }` block"@,
                        kw_span,
                    );
                    s3
                } else {
                    s1
                };
                if s2.is_err(fty) {
                    (s2, ERROR_TY)
                } else {
                    let (s4, output) = s2.future_output(fty);
                    match output {
                        Some(out) => {
                            let s5 = Ck { p_await: Some(out), ..s4 };
                            (s5, out)
                        },
                        None => {
                            let t = s4.show(fty);
                            let s6 = s4.say(
                                "`await` requires a `Future`, but `"@ + t + "` is not one"@,
                                inner.span,
                            );
                            (s6, ERROR_TY)
                        },
                    }
                }
            },
            _ => (self, ERROR_TY),
        }
    }

    /// `spawn f` schedules the future `f`; the handle is a future of the same.
    pub open spec fn check_spawn(self, e: Expr) -> (Ck, Ty)
        decreases e, 8int,
    {
        match e.kind {
            ExprKind::Spawn { expr, .. } => {
                let inner = *expr;
                let (s1, fty) = self.check_expr(inner, None);
                if s1.is_err(fty) {
                    (s1, ERROR_TY)
                } else {
                    let (s2, output) = s1.future_output(fty);
                    match output {
                        Some(out) => {
                            let s3 = Ck { p_spawn: Some(out), ..s2 };
                            s3.mk_future(out)
                        },
                        None => {
                            let t = s2.show(fty);
                            let s4 = s2.say(
                                "`spawn` requires a `Future`, but `"@ + t + "` is not one"@,
                                inner.span,
                            );
                            (s4, ERROR_TY)
                        },
                    }
                }
            },
            _ => (self, ERROR_TY),
        }
    }

    #[verifier::opaque]
    pub open spec fn enter_closure(self) -> Ck {
        let (s1, l) = (Ck { closures: List::Nil, ..self }, self.closures);
        let frame = ClosureFrame { first_local: s1.next_local(), captures: List::Nil };
        let s2 = Ck { closures: List::Cons(Box::new(frame), Box::new(l)), ..s1 };
        s2
    }

    /// What the innermost closure captured.
    #[verifier::opaque]
    pub open spec fn leave_closure(self) -> (Ck, List<LocalTy>) {
        let (s1, l) = (Ck { closures: List::Nil, ..self }, self.closures);
        match l {
            List::Cons(f, t) => {
                let s2 = Ck { closures: *t, ..s1 };
                let frame = *f;
                (s2, frame.captures)
            },
            List::Nil => (s1, List::Nil),
        }
    }

    /// `async { .. }` is a future of the block's value that captures what it uses.
    pub open spec fn check_async_block(self, e: Expr, expected: Option<Ty>) -> (Ck, Ty)
        decreases e, 8int,
    {
        match e.kind {
            ExprKind::AsyncBlock(b) => {
                let block = b;
                let (s1, want) = match expected {
                    Some(x) => self.future_output(x),
                    None => (self, None),
                };
                let s2 = s1.enter_closure();
                let prev = s2.in_async;
                let s3 = Ck { in_async: true, ..s2 };
                let (s4, out) = s3.check_block(block, want);
                let s5 = Ck { in_async: prev, ..s4 };
                let (s6, captures) = s5.leave_closure();
                let s7 = Ck { p_async: Some(AsyncInfo { output: out, params: List::Nil, captures }), ..s6 };
                s7.mk_future(out)
            },
            _ => (self, ERROR_TY),
        }
    }

    /// The parameter and result types that a function type expects of a closure.
    #[verifier::opaque]
    pub open spec fn closure_expectation(self, expected: Option<Ty>) -> (List<Ty>, Option<Ty>) {
        match expected {
            Some(x) => match self.kind(x) {
                TyKind::Func { params, ret, .. } => if self.is_err(ret) {
                    (params, None)
                } else {
                    (params, Some(ret))
                },
                _ => (List::Nil, None),
            },
            None => (List::Nil, None),
        }
    }

    /// Binds the parameters of a closure. A closure without parameters that should
    /// have one calls it `it`.
    #[verifier::opaque]
    pub open spec fn bind_closure(
        self,
        params: List<ClosureParam>,
        want: List<Ty>,
        env: TypeEnv,
        span: Span,
    ) -> (Ck, List<LocalTy>) {
        if params is Nil {
            match want {
                List::Cons(ty, rest) => if (*rest) is Nil {
                    let (s1, local) = self.bind(IT, span, *ty);
                    (s1, List::one(LocalTy { local, ty: *ty }))
                } else {
                    (self, List::Nil)
                },
                List::Nil => (self, List::Nil),
            }
        } else {
            self.bind_closure_params(params, want, env)
        }
    }

    #[verifier::opaque]
    pub open spec fn bind_closure_params(
        self,
        params: List<ClosureParam>,
        want: List<Ty>,
        env: TypeEnv,
    ) -> (Ck, List<LocalTy>)
        decreases params,
    {
        match params {
            List::Nil => (self, List::Nil),
            List::Cons(p, t) => {
                let (p, t) = (*p, *t);
                let (given, more) = match want {
                    List::Cons(x, rest) => (Some(*x), *rest),
                    List::Nil => (None, List::Nil),
                };
                let (s1, ty) = match (p.ty, given) {
                    (Some(a), _) => self.lower(a, env),
                    (None, Some(x)) => (self, x),
                    (None, None) => {
                        let n = self.name(p.name.name);
                        let s2 = self.say(
                            "cannot infer the type of closure parameter `"@ + n + "`; annotate it"@,
                            p.span,
                        );
                        (s2, ERROR_TY)
                    },
                };
                let (s3, local) = s1.bind(p.name.name, p.name.span, ty);
                let (s4, rest) = s3.bind_closure_params(t, more, env);
                (s4, List::Cons(Box::new(LocalTy { local, ty }), Box::new(rest)))
            },
        }
    }

    /// A closure: annotations decide its parameter types, then the expected
    /// function type; the outer locals it uses are captured.
    pub open spec fn check_closure(self, e: Expr, expected: Option<Ty>) -> (Ck, Ty)
        decreases e, 8int,
    {
        match e.kind {
            ExprKind::Closure { params, return_type, is_async, body } => {
                let (params, return_type, is_async, body) = (params, return_type, is_async, *body);
                let is_lock = self.lock_next;
                let s1 = Ck { lock_next: false, ..self };
                let (want_params, want_ret) = s1.closure_expectation(expected);
                let env = s1.env();
                let base = s1.next_local();
                let s2 = s1.enter_closure();
                let s3 = s2.push_scope();
                let (s4, locals) = s3.bind_closure(params, want_params, env, e.span);
                let outer = s4.lock_roots;
                let s5 = if is_lock {
                    let s6 = Ck { lock_roots: crate::check::stmt::roots_with(locals, base, outer), ..s4 };
                    s6
                } else {
                    s4
                };
                let (s7, ret) = match return_type {
                    Some(t) => {
                        let (s8, r) = s5.lower(t, env);
                        (s8, Some(r))
                    },
                    None => (s5, want_ret),
                };
                let (s9, want) = match ret {
                    Some(r) => if is_async {
                        s7.future_output(r)
                    } else {
                        (s7, Some(r))
                    },
                    None => (s7, None),
                };
                let prev = s9.in_async;
                let s10 = Ck { in_async: is_async, ..s9 };
                let (s11, body_ty) = s10.check_expr(body, want);
                let s12 = Ck { in_async: prev, ..s11 };
                let (s13, out) = match want {
                    Some(r) => {
                        let s14 = s12.expect(body_ty, r, body.span);
                        (s14, r)
                    },
                    None => (s12, body_ty),
                };
                let s15 = s13.pop_scope();
                let s16 = Ck { lock_roots: outer, ..s15 };
                let (s17, captures) = s16.leave_closure();
                s17.closure_type(is_async, locals, captures, out)
            },
            _ => (self, ERROR_TY),
        }
    }

    #[verifier::opaque]
    pub open spec fn closure_type(
        self,
        is_async: bool,
        locals: List<LocalTy>,
        captures: List<LocalTy>,
        out: Ty,
    ) -> (Ck, Ty) {
        let tys = crate::check::rules::types_of(locals);
        if is_async {
            let (s1, fut) = self.mk_future(out);
            let s2 = Ck { p_async: Some(AsyncInfo { output: out, params: locals, captures }), ..s1 };
            s2.mk_func(tys, fut)
        } else {
            let s3 = Ck { p_closure: Some(ClosureInfo { params: locals, captures, ret: out }), ..self };
            s3.mk_func(tys, out)
        }
    }
}

impl<'a> Cx<'a> {
    /// The type of an expression, `expected` where something says what it should
    /// be. Leaves the expression's node.
    pub fn check_expr(&mut self, e: &Expr, expected: Option<Ty>) -> (r: Ty)
        ensures
            final(self).answers(r, old(self).view().check_expr(*e, expected)),
            old(self).view().grows_to(final(self).view()),
        decreases e, 12int,
    {
        let ty = self.check_expr_inner(e, expected);
        self.leave_node(e, ty);
        ty
    }

    /// Leaves the node of a checked expression, if it has one.
    pub fn leave_node(&mut self, e: &Expr, ty: Ty)
        ensures
            final(self).stands(old(self).view().leave_node(*e, ty)),
            old(self).view().grows_to(final(self).view()),
    {
        proof {
            reveal(Ck::leave_node);
        }
        let node = self.build_node(e, ty);
        match node {
            Some(n) => self.put(e.span, n),
            None => {},
        }
    }

    pub fn check_expr_inner(&mut self, e: &Expr, expected: Option<Ty>) -> (r: Ty)
        ensures
            final(self).answers(r, old(self).view().check_expr_inner(*e, expected)),
            old(self).view().grows_to(final(self).view()),
        decreases e, 11int,
    {
        match &e.kind {
            ExprKind::Int(lit) => self.check_int_lit(lit, expected, e.span),
            ExprKind::Float(lit) => self.check_float_lit(lit, expected),
            ExprKind::Bool(_) => BOOL_TY,
            ExprKind::Null => NULL_TY,
            ExprKind::Char(_) => CHAR_TY,
            ExprKind::Str(s) => {
                let holes = self.check_parts(&s.parts);
                self.set_p_holes(Some(holes));
                STR_TY
            },
            ExprKind::Ident(name) => self.check_ident(name.name, e.span),
            ExprKind::SelfExpr => self.check_self(e.span),
            ExprKind::Paren(inner) => self.check_expr(&**inner, expected),
            ExprKind::Tuple(elems) => {
                let want = self.tuple_expectation(expected, elems.len());
                let tys = self.check_elems(elems, want);
                self.mk_tuple(tys)
            },
            ExprKind::List(_) => self.check_list_lit(e, expected),
            ExprKind::MapLit(_) => self.check_map_lit(e, expected),
            ExprKind::StructLit { .. } => self.check_struct_lit(e, expected),
            ExprKind::Call { .. } => self.check_call(e),
            ExprKind::Closure { .. } => self.check_closure(e, expected),
            ExprKind::Block(b) => self.check_block(b, expected),
            ExprKind::If { .. } => self.check_if(e, expected),
            ExprKind::Match { .. } => self.check_match(e, expected),
            ExprKind::AsyncBlock(_) => self.check_async_block(e, expected),
            ExprKind::Return(_) | ExprKind::Break(_) | ExprKind::Continue | ExprKind::Loop(_) | ExprKind::While { .. }
            | ExprKind::For { .. } => self.check_flow(e),
            _ => self.check_operator(e),
        }
    }

    /// Operators, and the other forms that look at their operands' types alone.
    pub fn check_operator(&mut self, e: &Expr) -> (r: Ty)
        ensures
            final(self).answers(r, old(self).view().check_operator(*e)),
            old(self).view().grows_to(final(self).view()),
        decreases e, 9int,
    {
        match &e.kind {
            ExprKind::Unary { .. } => self.check_unary(e),
            ExprKind::Binary { .. } => self.check_binary(e),
            ExprKind::Field { .. } => self.check_field(e),
            ExprKind::TupleIndex { .. } => self.check_tuple_index(e),
            ExprKind::Index { .. } => self.check_index(e),
            ExprKind::Cast { .. } => self.check_cast(e),
            ExprKind::Try { expr, q_span } => {
                let raw = self.check_expr(&**expr, None);
                self.try_value(raw, *q_span)
            },
            ExprKind::Ref { .. } => self.check_ref(e),
            ExprKind::Deref { .. } => self.check_deref(e),
            ExprKind::Await { .. } => self.check_await(e),
            ExprKind::Spawn { .. } => self.check_spawn(e),
            _ => {
                self.say("this expression form is not yet supported by the type checker", e.span);
                ERROR_TY
            },
        }
    }

    pub fn check_self(&mut self, span: Span) -> (r: Ty)
        ensures
            final(self).answers(r, old(self).view().check_self(span)),
            old(self).view().grows_to(final(self).view()),
    {
        proof {
            reveal(Ck::check_self);
        }
        match (self.self_local(), self.lookup(SELF)) {
            (Some(id), Some(b)) => {
                self.record_capture(id, b.ty);
                self.record_res(span, ValueRes::Local(id), b.ty);
                b.ty
            },
            _ => {
                self.say("`self` is only valid inside a method", span);
                ERROR_TY
            },
        }
    }

    /// How a hole of a string literal is rendered: by itself, or by the `to_str`
    /// method of its type.
    pub fn hole_of(&mut self, ty: Ty, span: Span) -> (r: Hole)
        ensures
            final(self).answers(r, old(self).view().hole_of(ty, span)),
            old(self).view().grows_to(final(self).view()),
    {
        proof {
            reveal(Ck::hole_of);
        }
        if self.is_err(ty) || self.is_stringifiable(ty) {
            return Hole { method: None, targs: List::Nil };
        }
        let found = self.tostr_method(ty);
        match found {
            Some((method, targs)) => Hole { method: Some(method), targs },
            None => {
                let t = self.display(ty);
                self.say_text(
                    "cannot interpolate `".to_owned().concat(t.as_str()).concat(
                        "`: it has no `to_str(): str` method (add one or `@Derive(ToStr)`)",
                    ),
                    span,
                );
                Hole { method: None, targs: List::Nil }
            },
        }
    }

    pub fn check_parts(&mut self, l: &List<StringPart>) -> (r: List<Hole>)
        ensures
            final(self).answers(r, old(self).view().check_parts(*l)),
            old(self).view().grows_to(final(self).view()),
        decreases l, 1int,
    {
        let (p, t) = match l {
            List::Nil => {
                return List::Nil;
            },
            List::Cons(p, t) => (&**p, &**t),
        };
        match p {
            StringPart::Text { .. } => self.check_parts(t),
            StringPart::Ident(id) => {
                let ty = self.check_name_use(id.name, id.span);
                let hole = self.hole_of(ty, id.span);
                let rest = self.check_parts(t);
                List::Cons(Box::new(hole), Box::new(rest))
            },
            StringPart::Expr(x) => {
                let ty = self.check_expr(x, None);
                let hole = self.hole_of(ty, x.span);
                let rest = self.check_parts(t);
                List::Cons(Box::new(hole), Box::new(rest))
            },
        }
    }

    /// The element types of the expected tuple, if it has `n` elements.
    pub fn tuple_expectation(&self, expected: Option<Ty>, n: usize) -> (r: Option<List<Ty>>)
        ensures
            r == self.view().tuple_expectation(expected, n),
    {
        proof {
            reveal(Ck::tuple_expectation);
        }
        match expected {
            Some(x) => match self.kind(x) {
                TyKind::Tuple(ts) => if ts.len() == n {
                    Some(ts)
                } else {
                    None
                },
                _ => None,
            },
            None => None,
        }
    }

    pub fn check_elems(&mut self, l: &List<Expr>, want: Option<List<Ty>>) -> (r: List<Ty>)
        ensures
            final(self).answers(r, old(self).view().check_elems(*l, want)),
            old(self).view().grows_to(final(self).view()),
        decreases l, 1int,
    {
        match l {
            List::Nil => List::Nil,
            List::Cons(h, t) => match want {
                Some(List::Cons(x, more)) => {
                    let ty = self.check_expr(&**h, Some(*x));
                    let rest = self.check_elems(&**t, Some(*more));
                    List::Cons(Box::new(ty), Box::new(rest))
                },
                _ => {
                    let ty = self.check_expr(&**h, None);
                    let rest = self.check_elems(&**t, None);
                    List::Cons(Box::new(ty), Box::new(rest))
                },
            },
        }
    }

    pub fn check_unary(&mut self, e: &Expr) -> (r: Ty)
        ensures
            final(self).answers(r, old(self).view().check_unary(*e)),
            old(self).view().grows_to(final(self).view()),
        decreases e, 8int,
    {
        let (op, op_span, operand) = match &e.kind {
            ExprKind::Unary { op, op_span, operand } => (*op, *op_span, &**operand),
            _ => {
                return ERROR_TY;
            },
        };
        let ty = self.check_expr(operand, None);
        if self.is_err(ty) {
            return ERROR_TY;
        }
        match op {
            UnaryOp::Neg => if self.is_numeric(ty) {
                ty
            } else {
                self.op_error("-", ty, op_span);
                ERROR_TY
            },
            UnaryOp::Not => if ty == BOOL_TY || self.is_integer(ty) {
                ty
            } else {
                self.op_error("!", ty, op_span);
                ERROR_TY
            },
            UnaryOp::BitNot => if self.is_integer(ty) {
                ty
            } else {
                self.op_error("~", ty, op_span);
                ERROR_TY
            },
        }
    }

    pub fn check_binary(&mut self, e: &Expr) -> (r: Ty)
        ensures
            final(self).answers(r, old(self).view().check_binary(*e)),
            old(self).view().grows_to(final(self).view()),
        decreases e, 8int,
    {
        let (op, op_span, left, right) = match &e.kind {
            ExprKind::Binary { op, op_span, left, right } => (*op, *op_span, &**left, &**right),
            _ => {
                return ERROR_TY;
            },
        };
        if op == BinaryOp::And || op == BinaryOp::Or {
            let l = self.check_expr(left, Some(BOOL_TY));
            let r = self.check_expr(right, Some(BOOL_TY));
            self.expect(l, BOOL_TY, left.span);
            self.expect(r, BOOL_TY, right.span);
            return BOOL_TY;
        }
        let l = self.check_expr(left, None);
        let r = self.check_expr(right, Some(l));
        if self.is_err(l) || self.is_err(r) {
            return ERROR_TY;
        }
        let overload = self.try_operator_overload(op, l, r, right.span, op_span);
        match overload {
            Some(t) => t,
            None => self.builtin_operator(op, l, r, right.span, op_span),
        }
    }

    /// The type of an operator on builtin operands.
    pub fn builtin_operator(&mut self, op: BinaryOp, l: Ty, r: Ty, right: Span, op_span: Span) -> (res: Ty)
        ensures
            final(self).answers(res, old(self).view().builtin_operator(op, l, r, right, op_span)),
            old(self).view().grows_to(final(self).view()),
    {
        proof {
            reveal(Ck::builtin_operator);
        }
        match op {
            BinaryOp::Add | BinaryOp::Sub | BinaryOp::Mul | BinaryOp::Div | BinaryOp::Rem => {
                if op == BinaryOp::Add && l == STR_TY {
                    self.expect(r, STR_TY, right);
                    STR_TY
                } else if self.is_numeric(l) {
                    self.expect(r, l, right);
                    l
                } else {
                    self.op_error(binop_str(op), l, op_span);
                    ERROR_TY
                }
            },
            BinaryOp::Eq | BinaryOp::Ne => {
                self.expect(r, l, right);
                BOOL_TY
            },
            BinaryOp::Lt | BinaryOp::Le | BinaryOp::Gt | BinaryOp::Ge => {
                if self.is_ordered(l) {
                    self.expect(r, l, right);
                } else {
                    self.op_error(binop_str(op), l, op_span);
                }
                BOOL_TY
            },
            BinaryOp::BitAnd | BinaryOp::BitOr | BinaryOp::BitXor | BinaryOp::Shl | BinaryOp::Shr => {
                if self.is_integer(l) {
                    self.expect(r, l, right);
                    l
                } else {
                    self.op_error(binop_str(op), l, op_span);
                    ERROR_TY
                }
            },
            BinaryOp::And | BinaryOp::Or => BOOL_TY,
        }
    }

    /// The type of the first parameter other than `self`.
    pub fn first_param(&mut self, params: &List<Param>, env: &TypeEnv, m: &List<Solved>) -> (r: Option<Ty>)
        ensures
            final(self).answers(r, old(self).view().first_param(*params, *env, *m)),
            old(self).view().grows_to(final(self).view()),
        decreases params,
    {
        proof {
            reveal(Ck::first_param);
        }
        match params {
            List::Nil => None,
            List::Cons(p, t) => match &p.kind {
                ParamKind::SelfParam => self.first_param(&**t, env, m),
                ParamKind::Normal { ty, .. } => {
                    let raw = self.lower_ty(ty, env);
                    let x = self.subst_ty(raw, m);
                    Some(x)
                },
            },
        }
    }

    /// An operator on a user type calls the method of an `extend` block; the type
    /// of the result, or nothing if the operand is builtin.
    pub fn try_operator_overload(
        &mut self,
        op: BinaryOp,
        l: Ty,
        r: Ty,
        right: Span,
        op_span: Span,
    ) -> (res: Option<Ty>)
        ensures
            final(self).answers(res, old(self).view().try_operator_overload(op, l, r, right, op_span)),
            old(self).view().grows_to(final(self).view()),
    {
        proof {
            reveal(Ck::try_operator_overload);
        }
        let name = match method_of_op(op) {
            Some(n) => n,
            None => {
                return None;
            },
        };
        if self.named_def(l).is_none() {
            return None;
        }
        let found = self.resolve_method(l, name);
        let f = match found {
            Some(f) => f,
            None => {
                let t = self.display(l);
                self.say_text(
                    "operator `".to_owned().concat(binop_str(op)).concat("` is not implemented for `").concat(
                        t.as_str(),
                    ).concat("`"),
                    op_span,
                );
                return Some(ERROR_TY);
            },
        };
        self.set_p_overload(Some(OpOverload { method: f.method, type_args: self.block_args(f.method, &f.solved) }));
        let (env, self_ty) = self.fn_env(f.method);
        match &self.program().def(f.method).item {
            Some(ItemKind::Function(func)) => {
                let rhs = self.first_param(&func.params, &env, &f.solved);
                match rhs {
                    Some(rt) => self.expect(r, rt, right),
                    None => {},
                }
                if op == BinaryOp::Eq || op == BinaryOp::Ne {
                    Some(BOOL_TY)
                } else {
                    let ret = self.lower_ret(&func.return_type, &env, &f.solved);
                    Some(ret)
                }
            },
            _ => Some(ERROR_TY),
        }
    }

    /// `e is T` is a `bool`; `e as T` is a `T` if the conversion is defined.
    pub fn check_cast(&mut self, e: &Expr) -> (r: Ty)
        ensures
            final(self).answers(r, old(self).view().check_cast(*e)),
            old(self).view().grows_to(final(self).view()),
        decreases e, 8int,
    {
        let (op, inner, ty) = match &e.kind {
            ExprKind::Cast { op, expr, ty, .. } => (*op, &**expr, &**ty),
            _ => {
                return ERROR_TY;
            },
        };
        let env = self.local_env();
        let to = self.lower_ty(ty, &env);
        let from = self.check_expr(inner, None);
        self.set_p_cast(Some(to));
        match op {
            CastOp::Is => BOOL_TY,
            CastOp::As => if self.cast_ok(from, to) {
                to
            } else {
                let f = self.display(from);
                let t = self.display(to);
                self.emit(SemaErrorKind::InvalidCast { from: f, to: t }, inner.span);
                ERROR_TY
            },
        }
    }

    /// `&place` is a raw pointer.
    pub fn check_ref(&mut self, e: &Expr) -> (r: Ty)
        ensures
            final(self).answers(r, old(self).view().check_ref(*e)),
            old(self).view().grows_to(final(self).view()),
        decreases e, 8int,
    {
        let inner = match &e.kind {
            ExprKind::Ref { expr, .. } => &**expr,
            _ => {
                return ERROR_TY;
            },
        };
        let t = self.check_expr(inner, None);
        if self.is_err(t) {
            return ERROR_TY;
        }
        self.mk_ptr(t)
    }

    /// `*p` is what the raw pointer `p` points to.
    pub fn check_deref(&mut self, e: &Expr) -> (r: Ty)
        ensures
            final(self).answers(r, old(self).view().check_deref(*e)),
            old(self).view().grows_to(final(self).view()),
        decreases e, 8int,
    {
        let (inner, star_span) = match &e.kind {
            ExprKind::Deref { expr, star_span } => (&**expr, *star_span),
            _ => {
                return ERROR_TY;
            },
        };
        let t = self.check_expr(inner, None);
        match self.kind(t) {
            TyKind::Error => ERROR_TY,
            TyKind::Ptr(p) => p,
            _ => {
                let n = self.display(t);
                self.say_text(
                    "cannot dereference `".to_owned().concat(n.as_str()).concat("`: it is not a raw pointer `*T`"),
                    star_span,
                );
                ERROR_TY
            },
        }
    }

    /// `await f` is what the future `f` yields.
    pub fn check_await(&mut self, e: &Expr) -> (r: Ty)
        ensures
            final(self).answers(r, old(self).view().check_await(*e)),
            old(self).view().grows_to(final(self).view()),
        decreases e, 8int,
    {
        let (inner, kw_span) = match &e.kind {
            ExprKind::Await { expr, kw_span } => (&**expr, *kw_span),
            _ => {
                return ERROR_TY;
            },
        };
        let fty = self.check_expr(inner, None);
        if !self.in_async() {
            self.say(
                "`await` is only allowed inside an `async` function, `async` closure, or `async { … }` block",
                kw_span,
            );
        }
        if self.is_err(fty) {
            return ERROR_TY;
        }
        let output = self.future_output(fty);
        match output {
            Some(out) => {
                self.set_p_await(Some(out));
                out
            },
            None => {
                let t = self.display(fty);
                self.say_text(
                    "`await` requires a `Future`, but `".to_owned().concat(t.as_str()).concat("` is not one"),
                    inner.span,
                );
                ERROR_TY
            },
        }
    }

    /// `spawn f` schedules the future `f`; the handle is a future of the same.
    pub fn check_spawn(&mut self, e: &Expr) -> (r: Ty)
        ensures
            final(self).answers(r, old(self).view().check_spawn(*e)),
            old(self).view().grows_to(final(self).view()),
        decreases e, 8int,
    {
        let inner = match &e.kind {
            ExprKind::Spawn { expr, .. } => &**expr,
            _ => {
                return ERROR_TY;
            },
        };
        let fty = self.check_expr(inner, None);
        if self.is_err(fty) {
            return ERROR_TY;
        }
        let output = self.future_output(fty);
        match output {
            Some(out) => {
                self.set_p_spawn(Some(out));
                self.mk_future(out)
            },
            None => {
                let t = self.display(fty);
                self.say_text(
                    "`spawn` requires a `Future`, but `".to_owned().concat(t.as_str()).concat("` is not one"),
                    inner.span,
                );
                ERROR_TY
            },
        }
    }

    pub fn enter_closure(&mut self)
        ensures
            final(self).stands(old(self).view().enter_closure()),
            old(self).view().grows_to(final(self).view()),
    {
        proof {
            reveal(Ck::enter_closure);
        }
        let l = self.take_closures();
        let frame = ClosureFrame { first_local: self.next_local(), captures: List::Nil };
        self.set_closures(List::Cons(Box::new(frame), Box::new(l)));
    }

    /// What the innermost closure captured.
    pub fn leave_closure(&mut self) -> (r: List<LocalTy>)
        ensures
            final(self).answers(r, old(self).view().leave_closure()),
            old(self).view().grows_to(final(self).view()),
    {
        proof {
            reveal(Ck::leave_closure);
        }
        let l = self.take_closures();
        match l {
            List::Cons(f, t) => {
                self.set_closures(*t);
                let frame = *f;
                frame.captures
            },
            List::Nil => List::Nil,
        }
    }

    /// `async { .. }` is a future of the block's value that captures what it uses.
    pub fn check_async_block(&mut self, e: &Expr, expected: Option<Ty>) -> (r: Ty)
        ensures
            final(self).answers(r, old(self).view().check_async_block(*e, expected)),
            old(self).view().grows_to(final(self).view()),
        decreases e, 8int,
    {
        let block = match &e.kind {
            ExprKind::AsyncBlock(b) => b,
            _ => {
                return ERROR_TY;
            },
        };
        let want = match expected {
            Some(x) => self.future_output(x),
            None => None,
        };
        self.enter_closure();
        let prev = self.in_async();
        self.set_in_async(true);
        let out = self.check_block(block, want);
        self.set_in_async(prev);
        let captures = self.leave_closure();
        self.set_p_async(Some(AsyncInfo { output: out, params: List::Nil, captures }));
        self.mk_future(out)
    }

    /// The parameter and result types that a function type expects of a closure.
    pub fn closure_expectation(&self, expected: Option<Ty>) -> (r: (List<Ty>, Option<Ty>))
        ensures
            r == self.view().closure_expectation(expected),
    {
        proof {
            reveal(Ck::closure_expectation);
        }
        match expected {
            Some(x) => match self.kind(x) {
                TyKind::Func { params, ret, .. } => if self.is_err(ret) {
                    (params, None)
                } else {
                    (params, Some(ret))
                },
                _ => (List::Nil, None),
            },
            None => (List::Nil, None),
        }
    }

    /// Binds the parameters of a closure. A closure without parameters that should
    /// have one calls it `it`.
    pub fn bind_closure(
        &mut self,
        params: &List<ClosureParam>,
        want: List<Ty>,
        env: &TypeEnv,
        span: Span,
    ) -> (r: List<LocalTy>)
        ensures
            final(self).answers(r, old(self).view().bind_closure(*params, want, *env, span)),
            old(self).view().grows_to(final(self).view()),
    {
        proof {
            reveal(Ck::bind_closure);
        }
        if params.is_empty() {
            match want {
                List::Cons(ty, rest) => if (*rest).is_empty() {
                    let local = self.bind(IT, span, *ty);
                    List::single(LocalTy { local, ty: *ty })
                } else {
                    List::Nil
                },
                List::Nil => List::Nil,
            }
        } else {
            self.bind_closure_params(params, want, env)
        }
    }

    pub fn bind_closure_params(
        &mut self,
        params: &List<ClosureParam>,
        want: List<Ty>,
        env: &TypeEnv,
    ) -> (r: List<LocalTy>)
        ensures
            final(self).answers(r, old(self).view().bind_closure_params(*params, want, *env)),
            old(self).view().grows_to(final(self).view()),
        decreases params,
    {
        proof {
            reveal(Ck::bind_closure_params);
        }
        let (p, t) = match params {
            List::Nil => {
                return List::Nil;
            },
            List::Cons(p, t) => (&**p, &**t),
        };
        let (given, more) = match want {
            List::Cons(x, rest) => (Some(*x), *rest),
            List::Nil => (None, List::Nil),
        };
        let ty = match (&p.ty, given) {
            (Some(a), _) => self.lower_ty(a, env),
            (None, Some(x)) => x,
            (None, None) => {
                let n = self.name(p.name.name);
                self.say_text(
                    "cannot infer the type of closure parameter `".to_owned().concat(n.as_str()).concat(
                        "`; annotate it",
                    ),
                    p.span,
                );
                ERROR_TY
            },
        };
        let local = self.bind(p.name.name, p.name.span, ty);
        let rest = self.bind_closure_params(t, more, env);
        List::Cons(Box::new(LocalTy { local, ty }), Box::new(rest))
    }

    /// A closure: annotations decide its parameter types, then the expected
    /// function type; the outer locals it uses are captured.
    pub fn check_closure(&mut self, e: &Expr, expected: Option<Ty>) -> (r: Ty)
        ensures
            final(self).answers(r, old(self).view().check_closure(*e, expected)),
            old(self).view().grows_to(final(self).view()),
        decreases e, 8int,
    {
        let (params, return_type, is_async, body) = match &e.kind {
            ExprKind::Closure { params, return_type, is_async, body } => (params, return_type, *is_async, &**body),
            _ => {
                return ERROR_TY;
            },
        };
        let is_lock = self.lock_next();
        self.set_lock_next(false);
        let (want_params, want_ret) = self.closure_expectation(expected);
        let env = self.local_env();
        let base = self.next_local();
        self.enter_closure();
        self.push_scope();
        let locals = self.bind_closure(params, want_params, &env, e.span);
        let outer = dup(self.lock_roots());
        if is_lock {
            self.set_lock_roots(add_roots(&locals, base, dup(&outer)));
        }
        let ret = match return_type {
            Some(t) => {
                let r = self.lower_ty(t, &env);
                Some(r)
            },
            None => want_ret,
        };
        let want = match ret {
            Some(r) => if is_async {
                self.future_output(r)
            } else {
                Some(r)
            },
            None => None,
        };
        let prev = self.in_async();
        self.set_in_async(is_async);
        let body_ty = self.check_expr(body, want);
        self.set_in_async(prev);
        let out = match want {
            Some(r) => {
                self.expect(body_ty, r, body.span);
                r
            },
            None => body_ty,
        };
        self.pop_scope();
        self.set_lock_roots(outer);
        let captures = self.leave_closure();
        self.closure_type(is_async, locals, captures, out)
    }

    pub fn closure_type(&mut self, is_async: bool, locals: List<LocalTy>, captures: List<LocalTy>, out: Ty) -> (r: Ty)
        ensures
            final(self).answers(r, old(self).view().closure_type(is_async, locals, captures, out)),
            old(self).view().grows_to(final(self).view()),
    {
        proof {
            reveal(Ck::closure_type);
        }
        let tys = local_types(&locals);
        if is_async {
            let fut = self.mk_future(out);
            self.set_p_async(Some(AsyncInfo { output: out, params: locals, captures }));
            self.mk_func(tys, fut)
        } else {
            self.set_p_closure(Some(ClosureInfo { params: locals, captures, ret: out }));
            self.mk_func(tys, out)
        }
    }
}

} // verus!
