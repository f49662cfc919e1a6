//! Classification of types, assignability and names.
use vstd::prelude::*;
use crate::ast::IntLit;
use crate::check::{contains_attr, contains_impl, find_local_ty, take_list, Binding, Ck, Cx};
use crate::check::rules::local_types;
use crate::diag::{Problem, SemaErrorKind};
use crate::hir::{LocalInfo, LocalTy, NodeId, NodeKind};
use crate::ids::{DefId, LocalId};
use crate::list::List;
use crate::lower::value_of_literal;
use crate::names::Symbol;
use crate::results::{Adjust, ValueRes};
use crate::show::display_names;
use crate::solve::ty_matches;
use crate::span::Span;
use crate::symbols::DefKind;
use crate::text::{digits, parse_char, parse_number};
use crate::ty::{FloatTy, IntTy, Ty, TyKind, BOOL_TY, ERROR_TY, NULL_TY, STR_TY};
use crate::words::{T_LIST, T_MAP, T_RECEIVER, T_SENDER, T_SHARED, T_UNION};

verus! {

broadcast use {crate::check::law_grows_reflexive, crate::check::law_grows_transitive};

impl Ck {
    #[verifier::opaque]
    pub open spec fn is_numeric(self, t: Ty) -> bool {
        self.kind(t) is Int || self.kind(t) is Float
    }

    #[verifier::opaque]
    pub open spec fn is_integer(self, t: Ty) -> bool {
        self.kind(t) is Int
    }

    #[verifier::opaque]
    pub open spec fn is_union(self, t: Ty) -> bool {
        self.kind(t) is Union
    }

    #[verifier::opaque]
    pub open spec fn is_dynamic(self, t: Ty) -> bool {
        self.kind(t) is Dynamic
    }

    #[verifier::opaque]
    pub open spec fn is_ptr(self, t: Ty) -> bool {
        self.kind(t) is Ptr
    }

    /// Types that render as text by themselves.
    #[verifier::opaque]
    pub open spec fn is_stringifiable(self, t: Ty) -> bool {
        match self.kind(t) {
            TyKind::Int(_) | TyKind::Float(_) | TyKind::Bool | TyKind::Char | TyKind::Str | TyKind::Null => true,
            _ => false,
        }
    }

    /// Types with a built-in order.
    #[verifier::opaque]
    pub open spec fn is_ordered(self, t: Ty) -> bool {
        match self.kind(t) {
            TyKind::Int(_) | TyKind::Float(_) | TyKind::Char | TyKind::Str => true,
            _ => false,
        }
    }

    /// Types with a built-in hash.
    #[verifier::opaque]
    pub open spec fn is_hashable(self, t: Ty) -> bool {
        match self.kind(t) {
            TyKind::Int(_) | TyKind::Float(_) | TyKind::Bool | TyKind::Char | TyKind::Str => true,
            _ => false,
        }
    }

    /// Values that can be shared instead of copied.
    #[verifier::opaque]
    pub open spec fn is_immutable(self, t: Ty) -> bool {
        self.is_stringifiable(t)
    }

    /// The definition that a named type is an instance of.
    #[verifier::opaque]
    pub open spec fn named_def(self, t: Ty) -> Option<DefId> {
        match self.kind(t) {
            TyKind::Named { def, .. } => Some(def),
            _ => None,
        }
    }

    #[verifier::opaque]
    pub open spec fn is_interface(self, t: Ty) -> bool {
        match self.named_def(t) {
            Some(d) => self.p.def_of(d).kind == DefKind::Interface,
            None => false,
        }
    }

    #[verifier::opaque]
    pub open spec fn is_extern_struct(self, t: Ty) -> bool {
        match self.named_def(t) {
            Some(d) => self.p.def_of(d).kind == DefKind::ExternStruct,
            None => false,
        }
    }

    /// An `extern struct` whose fields share their storage.
    #[verifier::opaque]
    pub open spec fn is_union_struct(self, d: DefId) -> bool {
        self.p.def_of(d).kind == DefKind::ExternStruct && crate::check::has_attr(self.p.def_of(d).attrs, T_UNION)
    }

    /// A type that must not be copied for another thread: an immutable value or a
    /// handle whose target is synchronized.
    #[verifier::opaque]
    pub open spec fn is_shareable(self, t: Ty) -> bool {
        self.is_immutable(t) || match self.named_def(t) {
            Some(d) => d == self.p.well_known(T_SENDER) || d == self.p.well_known(T_RECEIVER) || d
                == self.p.well_known(T_SHARED),
            None => false,
        }
    }

    /// `*T | null`, which is a plain nullable pointer.
    #[verifier::opaque]
    pub open spec fn is_nullable_ptr(self, t: Ty) -> bool {
        match self.kind(t) {
            TyKind::Union(ms) => match ms {
                List::Cons(a, rest) => match *rest {
                    List::Cons(b, end) => *end is Nil && ((*a == NULL_TY && self.kind(*b) is Ptr) || (*b == NULL_TY
                        && self.kind(*a) is Ptr)),
                    List::Nil => false,
                },
                List::Nil => false,
            },
            _ => false,
        }
    }

    /// The element type of a `List<E>`.
    #[verifier::opaque]
    pub open spec fn list_elem(self, t: Ty) -> Option<Ty> {
        match self.kind(t) {
            TyKind::Named { def, args } => match args {
                List::Cons(a, rest) => if def == self.p.well_known(T_LIST) && *rest is Nil {
                    Some(*a)
                } else {
                    None
                },
                List::Nil => None,
            },
            _ => None,
        }
    }

    /// The key and value types of a `Map<K, V>`.
    #[verifier::opaque]
    pub open spec fn map_kv(self, t: Ty) -> Option<(Ty, Ty)> {
        match self.kind(t) {
            TyKind::Named { def, args } => match args {
                List::Cons(a, rest) => match *rest {
                    List::Cons(b, end) => if def == self.p.well_known(T_MAP) && *end is Nil {
                        Some((*a, *b))
                    } else {
                        None
                    },
                    List::Nil => None,
                },
                List::Nil => None,
            },
            _ => None,
        }
    }

    #[verifier::opaque]
    pub open spec fn mk_list(self, elem: Ty) -> (Ck, Ty) {
        self.mk_named(self.p.well_known(T_LIST), List::one(elem))
    }

    /// `found` implements the interface `expected`.
    #[verifier::opaque]
    pub open spec fn implements_dyn(self, found: Ty, expected: Ty) -> bool {
        match (self.named_def(expected), self.named_def(found)) {
            (Some(i), Some(c)) => self.p.def_of(i).kind == DefKind::Interface && crate::check::has_impl(
                self.iface_impls,
                c,
                i,
            ),
            _ => false,
        }
    }

    /// A value of type `found` may stand where `expected` is required.
    #[verifier::opaque]
    pub open spec fn assignable(self, found: Ty, expected: Ty) -> bool {
        ||| found == expected
        ||| self.is_err(found)
        ||| self.is_err(expected)
        ||| self.kind(found) is Never
        ||| self.kind(expected) is Dynamic
        ||| self.implements_dyn(found, expected)
        ||| crate::ty::union_subtype(self.kinds, found, expected)
    }

    /// A value of type `from` may be cast to `to`.
    #[verifier::opaque]
    pub open spec fn castable(self, from: Ty, to: Ty) -> bool {
        ||| from == to
        ||| self.is_err(from)
        ||| self.is_err(to)
        ||| self.kind(to) is Dynamic
        ||| self.kind(from) is Dynamic
        ||| (self.is_numeric(from) && self.is_numeric(to))
        ||| (self.is_integer(from) && self.kind(to) is Char)
        ||| (self.kind(from) is Char && self.is_integer(to))
        ||| (to == STR_TY && (self.is_numeric(from) || self.kind(from) is Char || from == BOOL_TY))
        ||| self.implements_dyn(from, to)
        ||| self.implements_dyn(to, from)
        ||| (self.kind(from) is Ptr && self.kind(to) is Ptr)
        ||| (self.kind(from) is Ptr && self.is_ptr_int(to))
        ||| (self.kind(to) is Ptr && self.is_ptr_int(from))
        ||| crate::ty::union_subtype(self.kinds, to, from)
    }

    /// An integer as wide as a pointer.
    #[verifier::opaque]
    pub open spec fn is_ptr_int(self, t: Ty) -> bool {
        self.kind(t) == TyKind::Int(IntTy::Usize) || self.kind(t) == TyKind::Int(IntTy::Isize)
    }

    /// A value held in a box: a union (but not a nullable pointer), `dynamic` or
    /// an interface object.
    #[verifier::opaque]
    pub open spec fn is_boxed(self, t: Ty) -> bool {
        ((self.kind(t) is Union || self.kind(t) is Dynamic) && !self.is_nullable_ptr(t)) || self.is_interface(t)
    }

    /// A value of one concrete type.
    #[verifier::opaque]
    pub open spec fn is_single(self, t: Ty) -> bool {
        !(self.kind(t) is Union) && !(self.kind(t) is Dynamic) && !self.is_interface(t)
    }

    /// The node of a name used at type `ty`: a local whose declared type is boxed
    /// and that narrowing shows to be one concrete type is unboxed.
    #[verifier::opaque]
    pub open spec fn name_node(self, res: ValueRes, ty: Ty, span: Span) -> (Ck, NodeId) {
        let (s1, name) = self.add_node(NodeKind::Name(res), ty, span);
        let unbox = match res {
            ValueRes::Local(id) => match self.local_ty(id) {
                Some(wide) => self.is_boxed(wide) && self.is_single(ty),
                None => false,
            },
            _ => false,
        };
        if unbox {
            s1.add_node(NodeKind::Adjust { adjust: Adjust::Unbox(ty), expr: name }, ty, span)
        } else {
            (s1, name)
        }
    }

    /// Records what the name, callee or binding at `span` resolves to.
    #[verifier::opaque]
    pub open spec fn record_res(self, span: Span, res: ValueRes, ty: Ty) -> Ck {
        let (s1, n) = self.name_node(res, ty, span);
        s1.put(span, n)
    }

    /// Wraps the node at `span` in a coercion, which replaces one it already has.
    #[verifier::opaque]
    pub open spec fn bake(self, span: Span, adjust: Adjust) -> Ck {
        match self.node_id(span) {
            Some(id) => match crate::hir::node_of(self.nodes, id) {
                Some(n) => {
                    let raw = match n.kind {
                        NodeKind::Adjust { expr, .. } => expr,
                        _ => id,
                    };
                    let (s1, w) = self.add_node(NodeKind::Adjust { adjust, expr: raw }, adjust.target(), span);
                    s1.put(span, w)
                },
                None => self,
            },
            None => self,
        }
    }

    /// Requires that the value of type `found` at `span` may stand where
    /// `expected` is required, and records the coercion that this takes.
    #[verifier::opaque]
    pub open spec fn expect(self, found: Ty, expected: Ty, span: Span) -> Ck {
        if !self.assignable(found, expected) {
            self.fail(Problem::TypeMismatch { expected: self.show(expected), found: self.show(found) }, span)
        } else if found == expected || self.is_err(found) || self.kind(found) is Never {
            self
        } else {
            let s1 = if self.kind(expected) is Union || self.kind(expected) is Dynamic {
                self.bake(span, Adjust::Widen(expected))
            } else {
                self
            };
            if s1.implements_dyn(found, expected) {
                s1.bake(span, Adjust::WidenDyn(expected))
            } else {
                s1
            }
        }
    }

    /// Binds `name` in the innermost scope to a fresh local.
    #[verifier::opaque]
    pub open spec fn bind(self, name: Symbol, span: Span, ty: Ty) -> (Ck, LocalId) {
        let id = LocalId(self.next_local());
        let s1 = Ck { locals: self.locals.push(LocalInfo { ty, decl: span }), ..self };
        let s2 = s1.record_res(span, ValueRes::Local(id), ty);
        let b = Binding { name, ty, local: id };
        match s2.scopes {
            List::Cons(h, t) => (
                Ck { scopes: List::Cons(Box::new(List::Cons(Box::new(b), h)), t), ..s2 },
                id,
            ),
            List::Nil => (s2, id),
        }
    }

    /// The variants of a type: the members of a union, else the type itself.
    #[verifier::opaque]
    pub open spec fn variants(self, t: Ty) -> List<Ty> {
        crate::ty::variants_of(self.kinds, t)
    }

    /// `pat`, which may mention type parameters, has the shape of `val`.
    #[verifier::opaque]
    pub open spec fn ty_matches(self, pat: Ty, val: Ty) -> bool {
        crate::solve::matching(self.kinds, pat, val)
    }

    /// The value of an integer literal, if it fits.
    #[verifier::opaque]
    pub open spec fn literal(self, lit: IntLit, limit: u128) -> Option<u128> {
        crate::lower::literal_value(self.p, lit, limit)
    }

    /// The integer type with that name.
    #[verifier::opaque]
    pub open spec fn int_named(self, name: Symbol) -> Option<Ty> {
        match IntTy::named(name) {
            Some(it) => Some(it.handle()),
            None => None,
        }
    }

    /// The floating-point type with that name.
    #[verifier::opaque]
    pub open spec fn float_named(self, name: Symbol) -> Option<Ty> {
        match FloatTy::named(name) {
            Some(ft) => Some(ft.handle()),
            None => None,
        }
    }

    /// The types of what the closure at `span` captures.
    #[verifier::opaque]
    pub open spec fn captured_types(self, span: Span) -> List<Ty> {
        match crate::hir::node_at(self.nodes, self.at, span) {
            Some(n) => match n.kind {
                NodeKind::Closure { captures, .. } => crate::check::rules::types_of(captures),
                _ => List::Nil,
            },
            None => List::Nil,
        }
    }

    /// The type of a node.
    #[verifier::opaque]
    pub open spec fn node_ty(self, n: NodeId) -> Ty {
        match crate::hir::node_of(self.nodes, n) {
            Some(x) => x.ty,
            None => ERROR_TY,
        }
    }

    /// The position that a numeric field name stands for.
    #[verifier::opaque]
    pub open spec fn numeric_name(self, name: Symbol) -> u32 {
        match crate::text::number_of(self.name(name), 10, u32::MAX as u128) {
            Some(v) => v as u32,
            None => 0,
        }
    }

    /// The digits of a literal, without the underscores between them.
    #[verifier::opaque]
    pub open spec fn digits(self, raw: Symbol) -> Seq<char> {
        crate::text::digits_of(self.name(raw))
    }

    /// The code of a character literal.
    #[verifier::opaque]
    pub open spec fn char_value(self, raw: Symbol) -> u32 {
        match crate::text::char_code(self.name(raw)) {
            Some(c) => c,
            None => 0,
        }
    }

    /// The texts of the types, separated by commas.
    #[verifier::opaque]
    pub open spec fn show_all(self, l: List<Ty>) -> Seq<char> {
        crate::show::names_text(self.p, self.kinds, l)
    }

    #[verifier::opaque]
    pub open spec fn op_error(self, op: Seq<char>, ty: Ty, span: Span) -> Ck {
        self.fail(Problem::InvalidOperator { op, ty: self.show(ty) }, span)
    }
}

impl<'a> Cx<'a> {
    pub fn is_numeric(&self, t: Ty) -> (r: bool)
        ensures
            r == self.view().is_numeric(t),
    {
        proof {
            reveal(Cx::view);
            reveal(Ck::is_numeric);
            reveal(Ck::kind);
        }
        match self.kind(t) {
            TyKind::Int(_) | TyKind::Float(_) => true,
            _ => false,
        }
    }

    pub fn is_integer(&self, t: Ty) -> (r: bool)
        ensures
            r == self.view().is_integer(t),
    {
        proof {
            reveal(Cx::view);
            reveal(Ck::is_integer);
            reveal(Ck::kind);
        }
        match self.kind(t) {
            TyKind::Int(_) => true,
            _ => false,
        }
    }

    pub fn is_stringifiable(&self, t: Ty) -> (r: bool)
        ensures
            r == self.view().is_stringifiable(t),
    {
        proof {
            reveal(Cx::view);
            reveal(Ck::is_stringifiable);
            reveal(Ck::kind);
        }
        match self.kind(t) {
            TyKind::Int(_) | TyKind::Float(_) | TyKind::Bool | TyKind::Char | TyKind::Str | TyKind::Null => true,
            _ => false,
        }
    }

    pub fn is_ordered(&self, t: Ty) -> (r: bool)
        ensures
            r == self.view().is_ordered(t),
    {
        proof {
            reveal(Cx::view);
            reveal(Ck::is_ordered);
            reveal(Ck::kind);
        }
        match self.kind(t) {
            TyKind::Int(_) | TyKind::Float(_) | TyKind::Char | TyKind::Str => true,
            _ => false,
        }
    }

    pub fn is_hashable(&self, t: Ty) -> (r: bool)
        ensures
            r == self.view().is_hashable(t),
    {
        proof {
            reveal(Cx::view);
            reveal(Ck::is_hashable);
            reveal(Ck::kind);
        }
        match self.kind(t) {
            TyKind::Int(_) | TyKind::Float(_) | TyKind::Bool | TyKind::Char | TyKind::Str => true,
            _ => false,
        }
    }

    pub fn is_immutable_value(&self, t: Ty) -> (r: bool)
        ensures
            r == self.view().is_immutable(t),
    {
        proof {
            reveal(Cx::view);
            reveal(Ck::is_immutable);
            reveal(Ck::is_stringifiable);
        }
        self.is_stringifiable(t)
    }

    pub fn named_def(&self, t: Ty) -> (r: Option<DefId>)
        ensures
            r == self.view().named_def(t),
    {
        proof {
            reveal(Cx::view);
            reveal(Ck::named_def);
            reveal(Ck::kind);
        }
        match self.kind(t) {
            TyKind::Named { def, .. } => Some(def),
            _ => None,
        }
    }

    pub fn is_interface(&self, t: Ty) -> (r: bool)
        ensures
            r == self.view().is_interface(t),
    {
        proof {
            reveal(Cx::view);
            reveal(Ck::is_interface);
            reveal(Ck::named_def);
        }
        match self.named_def(t) {
            Some(d) => self.prog.def(d).kind == DefKind::Interface,
            None => false,
        }
    }

    pub fn is_extern_struct(&self, t: Ty) -> (r: bool)
        ensures
            r == self.view().is_extern_struct(t),
    {
        proof {
            reveal(Cx::view);
            reveal(Ck::is_extern_struct);
            reveal(Ck::named_def);
        }
        match self.named_def(t) {
            Some(d) => self.prog.def(d).kind == DefKind::ExternStruct,
            None => false,
        }
    }

    pub fn is_union_extern_struct(&self, d: DefId) -> (r: bool)
        ensures
            r == self.view().is_union_struct(d),
    {
        proof {
            reveal(Cx::view);
            reveal(Ck::is_union_struct);
        }
        self.prog.def(d).kind == DefKind::ExternStruct && contains_attr(&self.prog.def(d).attrs, T_UNION)
    }

    pub fn is_thread_shareable(&self, t: Ty) -> (r: bool)
        ensures
            r == self.view().is_shareable(t),
    {
        proof {
            reveal(Cx::view);
            reveal(Ck::is_shareable);
            reveal(Ck::is_immutable);
            reveal(Ck::named_def);
        }
        if self.is_immutable_value(t) {
            return true;
        }
        match self.named_def(t) {
            Some(d) => d == self.prog.known(T_SENDER) || d == self.prog.known(T_RECEIVER) || d == self.prog.known(
                T_SHARED,
            ),
            None => false,
        }
    }

    pub fn is_npo_union(&self, t: Ty) -> (r: bool)
        ensures
            r == self.view().is_nullable_ptr(t),
    {
        proof {
            reveal(Cx::view);
            reveal(Ck::is_nullable_ptr);
            reveal(Ck::is_ptr);
            reveal(Ck::kind);
        }
        match self.kind(t) {
            TyKind::Union(ms) => match ms {
                List::Cons(a, rest) => match *rest {
                    List::Cons(b, end) => {
                        if !end.is_empty() {
                            return false;
                        }
                        (*a == NULL_TY && self.is_ptr(*b)) || (*b == NULL_TY && self.is_ptr(*a))
                    },
                    List::Nil => false,
                },
                List::Nil => false,
            },
            _ => false,
        }
    }

    pub fn is_ptr(&self, t: Ty) -> (r: bool)
        ensures
            r == self.view().is_ptr(t),
    {
        proof {
            reveal(Cx::view);
            reveal(Ck::is_ptr);
            reveal(Ck::kind);
        }
        match self.kind(t) {
            TyKind::Ptr(_) => true,
            _ => false,
        }
    }

    pub fn list_elem(&self, t: Ty) -> (r: Option<Ty>)
        ensures
            r == self.view().list_elem(t),
    {
        proof {
            reveal(Cx::view);
            reveal(Ck::list_elem);
            reveal(Ck::kind);
        }
        match self.kind(t) {
            TyKind::Named { def, args } => match args {
                List::Cons(a, rest) => {
                    if def == self.prog.known(T_LIST) && rest.is_empty() {
                        Some(*a)
                    } else {
                        None
                    }
                },
                List::Nil => None,
            },
            _ => None,
        }
    }

    pub fn map_kv(&self, t: Ty) -> (r: Option<(Ty, Ty)>)
        ensures
            r == self.view().map_kv(t),
    {
        proof {
            reveal(Cx::view);
            reveal(Ck::map_kv);
            reveal(Ck::kind);
        }
        match self.kind(t) {
            TyKind::Named { def, args } => match args {
                List::Cons(a, rest) => match *rest {
                    List::Cons(b, end) => {
                        if def == self.prog.known(T_MAP) && end.is_empty() {
                            Some((*a, *b))
                        } else {
                            None
                        }
                    },
                    List::Nil => None,
                },
                List::Nil => None,
            },
            _ => None,
        }
    }

    pub fn mk_list(&mut self, elem: Ty) -> (r: Ty)
        ensures
            final(self).answers(r, old(self).view().mk_list(elem)),
            old(self).view().grows_to(final(self).view()),
    {
        proof {
            reveal(Ck::grows_to);
            reveal(Cx::view);
            reveal(Ck::mk_list);
            reveal(Ck::mk_named);
        }
        let def = self.prog.known(T_LIST);
        self.mk_named(def, List::single(elem))
    }

    pub fn implements_dyn(&self, found: Ty, expected: Ty) -> (r: bool)
        ensures
            r == self.view().implements_dyn(found, expected),
    {
        proof {
            reveal(Cx::view);
            reveal(Ck::implements_dyn);
            reveal(Ck::named_def);
        }
        match (self.named_def(expected), self.named_def(found)) {
            (Some(i), Some(c)) => self.prog.def(i).kind == DefKind::Interface && contains_impl(
                &self.iface_impls,
                c,
                i,
            ),
            _ => false,
        }
    }

    pub fn assignable(&self, found: Ty, expected: Ty) -> (r: bool)
        ensures
            r == self.view().assignable(found, expected),
    {
        proof {
            reveal(Cx::view);
            reveal(Ck::assignable);
            reveal(Ck::implements_dyn);
            reveal(Ck::is_dynamic);
            reveal(Ck::is_err);
            reveal(Ck::kind);
        }
        if found == expected || self.is_err(found) || self.is_err(expected) || self.tcx.is_never(found) {
            return true;
        }
        if self.is_dynamic(expected) {
            return true;
        }
        if self.implements_dyn(found, expected) {
            return true;
        }
        self.tcx.is_union_subtype(found, expected)
    }

    pub fn is_dynamic(&self, t: Ty) -> (r: bool)
        ensures
            r == self.view().is_dynamic(t),
    {
        proof {
            reveal(Cx::view);
            reveal(Ck::is_dynamic);
            reveal(Ck::kind);
        }
        match self.kind(t) {
            TyKind::Dynamic => true,
            _ => false,
        }
    }

    pub fn is_union(&self, t: Ty) -> (r: bool)
        ensures
            r == self.view().is_union(t),
    {
        proof {
            reveal(Cx::view);
            reveal(Ck::is_union);
            reveal(Ck::kind);
        }
        match self.kind(t) {
            TyKind::Union(_) => true,
            _ => false,
        }
    }

    fn is_char(&self, t: Ty) -> (r: bool)
        ensures
            r == (self.view().kind(t) is Char),
    {
        proof {
            reveal(Cx::view);
            reveal(Ck::kind);
        }
        match self.kind(t) {
            TyKind::Char => true,
            _ => false,
        }
    }

    fn is_ptr_int(&self, t: Ty) -> (r: bool)
        ensures
            r == self.view().is_ptr_int(t),
    {
        proof {
            reveal(Cx::view);
            reveal(Ck::is_ptr_int);
            reveal(Ck::kind);
        }
        match self.kind(t) {
            TyKind::Int(it) => it == IntTy::Usize || it == IntTy::Isize,
            _ => false,
        }
    }

    pub fn cast_ok(&self, from: Ty, to: Ty) -> (r: bool)
        ensures
            r == self.view().castable(from, to),
    {
        proof {
            reveal(Cx::view);
            reveal(Ck::castable);
            reveal(Ck::implements_dyn);
            reveal(Ck::is_dynamic);
            reveal(Ck::is_err);
            reveal(Ck::is_integer);
            reveal(Ck::is_numeric);
            reveal(Ck::is_ptr);
            reveal(Ck::is_ptr_int);
            reveal(Ck::kind);
        }
        if from == to || self.is_err(from) || self.is_err(to) {
            return true;
        }
        if self.is_dynamic(to) || self.is_dynamic(from) {
            return true;
        }
        if self.is_numeric(from) && self.is_numeric(to) {
            return true;
        }
        if (self.is_integer(from) && self.is_char(to)) || (self.is_char(from) && self.is_integer(to)) {
            return true;
        }
        if to == STR_TY && (self.is_numeric(from) || self.is_char(from) || from == BOOL_TY) {
            return true;
        }
        if self.implements_dyn(from, to) || self.implements_dyn(to, from) {
            return true;
        }
        if self.is_ptr(from) && self.is_ptr(to) {
            return true;
        }
        if (self.is_ptr(from) && self.is_ptr_int(to)) || (self.is_ptr(to) && self.is_ptr_int(from)) {
            return true;
        }
        self.tcx.is_union_subtype(to, from)
    }

    fn is_boxed(&self, t: Ty) -> (r: bool)
        ensures
            r == self.view().is_boxed(t),
    {
        proof {
            reveal(Cx::view);
            reveal(Ck::is_boxed);
            reveal(Ck::is_dynamic);
            reveal(Ck::is_interface);
            reveal(Ck::is_nullable_ptr);
            reveal(Ck::is_union);
            reveal(Ck::kind);
        }
        ((self.is_union(t) || self.is_dynamic(t)) && !self.is_npo_union(t)) || self.is_interface(t)
    }

    fn is_single(&self, t: Ty) -> (r: bool)
        ensures
            r == self.view().is_single(t),
    {
        proof {
            reveal(Cx::view);
            reveal(Ck::is_single);
            reveal(Ck::is_dynamic);
            reveal(Ck::is_interface);
            reveal(Ck::is_union);
            reveal(Ck::kind);
        }
        !self.is_union(t) && !self.is_dynamic(t) && !self.is_interface(t)
    }

    pub fn build_name_node(&mut self, res: ValueRes, ty: Ty, span: Span) -> (r: NodeId)
        ensures
            final(self).answers(r, old(self).view().name_node(res, ty, span)),
            old(self).view().grows_to(final(self).view()),
    {
        proof {
            reveal(Ck::grows_to);
            reveal(Cx::view);
            reveal(Ck::name_node);
            reveal(Ck::add_node);
            reveal(Ck::is_boxed);
            reveal(Ck::is_single);
            reveal(Ck::local_ty);
        }
        let unbox = match res {
            ValueRes::Local(id) => match self.local_ty(id) {
                Some(wide) => self.is_boxed(wide) && self.is_single(ty),
                None => false,
            },
            _ => false,
        };
        let name = self.add_node(NodeKind::Name(res), ty, span);
        if unbox {
            self.add_node(NodeKind::Adjust { adjust: Adjust::Unbox(ty), expr: name }, ty, span)
        } else {
            name
        }
    }

    pub fn record_res(&mut self, span: Span, res: ValueRes, ty: Ty)
        ensures
            final(self).stands(old(self).view().record_res(span, res, ty)),
            old(self).view().grows_to(final(self).view()),
    {
        proof {
            reveal(Ck::grows_to);
            reveal(Cx::view);
            reveal(Ck::record_res);
            reveal(Ck::name_node);
            reveal(Ck::put);
        }
        let n = self.build_name_node(res, ty, span);
        self.put(span, n);
    }

    pub fn bake_coercion(&mut self, span: Span, adjust: Adjust)
        ensures
            final(self).stands(old(self).view().bake(span, adjust)),
            old(self).view().grows_to(final(self).view()),
    {
        proof {
            reveal(Ck::grows_to);
            reveal(Cx::view);
            reveal(Ck::bake);
            reveal(Ck::add_node);
            reveal(Ck::node_id);
            reveal(Ck::put);
        }
        let id = match self.node_id(span) {
            Some(id) => id,
            None => {
                return ;
            },
        };
        let raw = match self.table.get(id) {
            Some(n) => match n.kind {
                NodeKind::Adjust { expr, .. } => expr,
                _ => id,
            },
            None => {
                return ;
            },
        };
        let w = self.add_node(NodeKind::Adjust { adjust, expr: raw }, adjust.to(), span);
        self.put(span, w);
    }

    pub fn expect(&mut self, found: Ty, expected: Ty, span: Span)
        ensures
            final(self).stands(old(self).view().expect(found, expected, span)),
            old(self).view().grows_to(final(self).view()),
    {
        proof {
            reveal(Ck::grows_to);
            reveal(Cx::view);
            reveal(Ck::expect);
            reveal(Ck::assignable);
            reveal(Ck::bake);
            reveal(Ck::fail);
            reveal(Ck::implements_dyn);
            reveal(Ck::is_dynamic);
            reveal(Ck::is_err);
            reveal(Ck::is_union);
            reveal(Ck::kind);
            reveal(Ck::show);
        }
        if !self.assignable(found, expected) {
            let e = self.display(expected);
            let f = self.display(found);
            self.emit(SemaErrorKind::TypeMismatch { expected: e, found: f }, span);
            return ;
        }
        if found == expected || self.is_err(found) || self.tcx.is_never(found) {
            return ;
        }
        if self.is_union(expected) || self.is_dynamic(expected) {
            self.bake_coercion(span, Adjust::Widen(expected));
        }
        if self.implements_dyn(found, expected) {
            self.bake_coercion(span, Adjust::WidenDyn(expected));
        }
    }

    pub fn bind(&mut self, name: Symbol, span: Span, ty: Ty) -> (r: LocalId)
        ensures
            final(self).answers(r, old(self).view().bind(name, span, ty)),
            old(self).view().grows_to(final(self).view()),
    {
        proof {
            reveal(Ck::grows_to);
            reveal(Cx::view);
            reveal(Ck::bind);
            reveal(Ck::next_local);
            reveal(Ck::record_res);
        }
        let id = LocalId(self.next_local());
        self.locals.push(LocalInfo { ty, decl: span });
        self.record_res(span, ValueRes::Local(id), ty);
        let b = Binding { name, ty, local: id };
        match take_list(&mut self.scopes) {
            List::Cons(h, t) => {
                self.scopes = List::Cons(Box::new(List::Cons(Box::new(b), h)), t);
            },
            List::Nil => {},
        }
        id
    }

    pub fn variants(&self, t: Ty) -> (r: List<Ty>)
        ensures
            r == self.view().variants(t),
    {
        proof {
            reveal(Cx::view);
            reveal(Ck::variants);
        }
        self.tcx.variants(t)
    }

    pub fn ty_matches(&self, pat: Ty, val: Ty) -> (r: bool)
        ensures
            r == self.view().ty_matches(pat, val),
    {
        proof {
            reveal(Cx::view);
            reveal(Ck::ty_matches);
        }
        ty_matches(&self.tcx, pat, val)
    }

    pub fn literal(&self, lit: &IntLit, limit: u128) -> (r: Option<u128>)
        ensures
            r == self.view().literal(*lit, limit),
    {
        proof {
            reveal(Cx::view);
            reveal(Ck::literal);
        }
        value_of_literal(self.prog, lit, limit)
    }

    pub fn int_named(&self, name: Symbol) -> (r: Option<Ty>)
        ensures
            r == self.view().int_named(name),
    {
        proof {
            reveal(Cx::view);
            reveal(Ck::int_named);
        }
        match IntTy::from_name(name) {
            Some(it) => Some(self.tcx.int_ty(it)),
            None => None,
        }
    }

    pub fn float_named(&self, name: Symbol) -> (r: Option<Ty>)
        ensures
            r == self.view().float_named(name),
    {
        proof {
            reveal(Cx::view);
            reveal(Ck::float_named);
        }
        match FloatTy::from_name(name) {
            Some(ft) => Some(self.tcx.float_ty(ft)),
            None => None,
        }
    }

    pub fn captured_types(&self, span: Span) -> (r: List<Ty>)
        ensures
            r == self.view().captured_types(span),
    {
        proof {
            reveal(Cx::view);
            reveal(Ck::captured_types);
            reveal(Ck::node_id);
        }
        match self.node_id(span) {
            Some(id) => match self.table.get(id) {
                Some(n) => match &n.kind {
                    NodeKind::Closure { captures, .. } => local_types(captures),
                    _ => List::Nil,
                },
                None => List::Nil,
            },
            None => List::Nil,
        }
    }

    pub fn node_ty(&self, n: NodeId) -> (r: Ty)
        ensures
            r == self.view().node_ty(n),
    {
        proof {
            reveal(Cx::view);
            reveal(Ck::node_ty);
        }
        match self.table.get(n) {
            Some(x) => x.ty,
            None => ERROR_TY,
        }
    }

    pub fn numeric_name(&self, name: Symbol) -> (r: u32)
        ensures
            r == self.view().numeric_name(name),
    {
        proof {
            reveal(Cx::view);
            reveal(Ck::numeric_name);
            reveal(Ck::name);
        }
        match parse_number(self.prog.names.text(name), 10, u32::MAX as u128) {
            Some(v) => v as u32,
            None => 0,
        }
    }

    pub fn digits(&self, raw: Symbol) -> (r: String)
        ensures
            r@ == self.view().digits(raw),
    {
        proof {
            reveal(Cx::view);
            reveal(Ck::digits);
            reveal(Ck::name);
        }
        digits(self.prog.names.text(raw))
    }

    pub fn char_value(&self, raw: Symbol) -> (r: u32)
        ensures
            r == self.view().char_value(raw),
    {
        proof {
            reveal(Cx::view);
            reveal(Ck::char_value);
            reveal(Ck::name);
        }
        match parse_char(self.prog.names.text(raw)) {
            Some(c) => c,
            None => 0,
        }
    }

    pub fn show_all(&self, l: &List<Ty>) -> (r: String)
        ensures
            r@ == self.view().show_all(*l),
    {
        proof {
            reveal(Cx::view);
            reveal(Ck::show_all);
        }
        display_names(self.prog, &self.tcx, l)
    }

    pub fn op_error(&mut self, op: &'static str, ty: Ty, span: Span)
        ensures
            final(self).stands(old(self).view().op_error(op@, ty, span)),
            old(self).view().grows_to(final(self).view()),
    {
        proof {
            reveal(Ck::grows_to);
            reveal(Cx::view);
            reveal(Ck::op_error);
            reveal(Ck::fail);
            reveal(Ck::show);
        }
        let t = self.display(ty);
        self.emit(SemaErrorKind::InvalidOperator { op, ty: t }, span);
    }
}

} // verus!
