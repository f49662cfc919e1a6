//! Struct literals, construction by call, fields and indexing.
use vstd::prelude::*;
use crate::ast::{Expr, ExprKind, FieldInit, MapItem, TypePath};
use crate::check::nodes::position;
use crate::check::rules::find_field;
use crate::check::{Ck, Cx};
use crate::diag::{Problem, SemaErrorKind};
use crate::hir::FieldTy;
use crate::ids::DefId;
use crate::list::{dup, get, List};
use crate::lower::TypeEnv;
use crate::names::Symbol;
use crate::results::{NumIntrinsic, ValueRes};
use crate::solve::{solve, Solved};
use crate::span::Span;
use crate::symbols::DefKind;
use crate::text::decimal_text;
use crate::ty::{Ty, TyKind, ERROR_TY, I64_TY, NULL_TY};
use crate::words::{T_LIST, T_MAP};

verus! {

broadcast use {crate::check::law_grows_reflexive, crate::check::law_grows_transitive};

pub open spec fn has_symbol(l: List<Symbol>, name: Symbol) -> bool
    decreases l,
{
    match l {
        List::Nil => false,
        List::Cons(h, t) => *h == name || has_symbol(*t, name),
    }
}

pub fn contains_symbol(l: &List<Symbol>, name: Symbol) -> (r: bool)
    ensures
        r == has_symbol(*l, name),
    decreases l,
{
    match l {
        List::Nil => false,
        List::Cons(h, t) => **h == name || contains_symbol(&**t, name),
    }
}

/// `m` with each of `gens` standing for the type in its place.
pub open spec fn seeded(gens: List<DefId>, args: List<Ty>, m: List<Solved>) -> List<Solved>
    decreases gens,
{
    match gens {
        List::Nil => m,
        List::Cons(g, gt) => match args {
            List::Nil => m,
            List::Cons(a, at) => seeded(*gt, *at, crate::solve::solved(m, *g, *a)),
        },
    }
}

/// `m` with each of `gens` standing for the type in its place.
pub fn seed(gens: &List<DefId>, args: &List<Ty>, m: List<Solved>) -> (r: List<Solved>)
    ensures
        r == seeded(*gens, *args, m),
    decreases gens,
{
    match gens {
        List::Nil => m,
        List::Cons(g, gt) => match args {
            List::Nil => m,
            List::Cons(a, at) => seed(&**gt, &**at, solve(m, **g, **a)),
        },
    }
}

impl Ck {
    /// Unifies the fields' declared types with the types of their values.
    pub open spec fn infer_fields(
        self,
        l: List<FieldInit>,
        declared: List<FieldTy>,
        m: List<Solved>,
    ) -> (Ck, List<Solved>)
        decreases l, 1int,
    {
        match l {
            List::Nil => (self, m),
            List::Cons(f, t) => {
                let (f, t) = (*f, *t);
                match crate::check::rules::field_ty(declared, f.name.name) {
                    Some(fty) => {
                        let (s1, vt) = match f.value {
                            Some(v) => self.check_expr(v, None),
                            None => self.check_ident(f.name.name, f.name.span),
                        };
                        s1.infer_fields(t, declared, s1.unify(fty, vt, m))
                    },
                    None => self.infer_fields(t, declared, m),
                }
            },
        }
    }

    /// What the expected type says of the generics of `def`.
    #[verifier::opaque]
    pub open spec fn expected_args(self, def: DefId, gens: List<DefId>, expected: Option<Ty>) -> List<Solved> {
        match expected {
            Some(x) => match self.kind(x) {
                TyKind::Named { def: d, args } => if d == def && args.count() == gens.count() {
                    seeded(gens, args, List::Nil)
                } else {
                    List::Nil
                },
                _ => List::Nil,
            },
            None => List::Nil,
        }
    }

    /// The type arguments of a struct literal that leaves them out: those of the
    /// expected type, then what the field values say.
    pub open spec fn infer_struct_args(self, e: Expr, def: DefId, expected: Option<Ty>) -> (Ck, List<Ty>)
        decreases e, 7int,
    {
        match e.kind {
            ExprKind::StructLit { path, fields, .. } => {
                let (path, fields) = (path, fields);
                let gens = self.p.def_of(def).generics;
                let start = self.expected_args(def, gens, expected);
                let (s1, params) = self.param_tys(gens);
                let (s2, found) = s1.record_fields(def, params);
                let declared = match found {
                    Some(fs) => fs,
                    None => List::Nil,
                };
                let (s3, m) = s2.infer_fields(fields, declared, start);
                s3.inferred_args(gens, m, path.name.name, e.span)
            },
            _ => (self, List::Nil),
        }
    }

    /// Checks the fields of a literal of struct `owner`; the names that are
    /// initialized. Where inference has checked a value already its type is kept.
    pub open spec fn check_field_inits(
        self,
        l: List<FieldInit>,
        declared: List<FieldTy>,
        owner: Symbol,
        inferring: bool,
        seen: List<Symbol>,
    ) -> (Ck, List<Symbol>)
        decreases l, 1int,
    {
        match l {
            List::Nil => (self, seen),
            List::Cons(f, t) => {
                let (f, t) = (*f, *t);
                match crate::check::rules::field_ty(declared, f.name.name) {
                    Some(ty) => {
                        let fty = ty;
                        let again = has_symbol(seen, f.name.name);
                        let s1 = if again {
                            let sn = self.name(owner);
                            let n = self.name(f.name.name);
                            let s2 = self.fail(
                                Problem::DuplicateField { struct_name: sn, name: n },
                                f.name.span,
                            );
                            s2
                        } else {
                            self
                        };
                        let s3 = match f.value {
                            Some(v) => {
                                let (s4, vt) = match (s1.expr_ty(v.span), inferring) {
                                    (Some(known), true) => (s1, known),
                                    _ => s1.check_expr(v, Some(fty)),
                                };
                                let s5 = s4.expect(vt, fty, v.span);
                                s5
                            },
                            None => {
                                let (s6, lt) = s1.check_name_use(f.name.name, f.name.span);
                                let s7 = s6.expect(lt, fty, f.name.span);
                                s7
                            },
                        };
                        if again {
                            s3.check_field_inits(t, declared, owner, inferring, seen)
                        } else {
                            s3.check_field_inits(
                                t,
                                declared,
                                owner,
                                inferring,
                                List::Cons(Box::new(f.name.name), Box::new(seen)),
                            )
                        }
                    },
                    None => {
                        let sn = self.name(owner);
                        let n = self.name(f.name.name);
                        let s8 = self.fail(Problem::UnknownStructField { struct_name: sn, name: n }, f.span);
                        s8.check_field_inits(t, declared, owner, inferring, seen)
                    },
                }
            },
        }
    }

    #[verifier::opaque]
    pub open spec fn report_missing(
        self,
        declared: List<FieldTy>,
        seen: List<Symbol>,
        owner: Symbol,
        span: Span,
    ) -> Ck
        decreases declared,
    {
        match declared {
            List::Nil => self,
            List::Cons(h, t) => {
                let s1 = if !has_symbol(seen, h.name) {
                    let sn = self.name(owner);
                    let n = self.name(h.name);
                    let s2 = self.fail(Problem::MissingField { struct_name: sn, name: n }, span);
                    s2
                } else {
                    self
                };
                let s3 = s1.report_missing(*t, seen, owner, span);
                s3
            },
        }
    }

    /// A literal without a spread initializes every field of a struct, exactly one
    /// field of a `@Union`, and any fields of another `extern struct`.
    #[verifier::opaque]
    pub open spec fn check_complete(
        self,
        def: DefId,
        declared: List<FieldTy>,
        seen: List<Symbol>,
        owner: Symbol,
        span: Span,
    ) -> Ck {
        if self.is_union_struct(def) {
            if seen.count() != 1 {
                let n = self.name(owner);
                let count = crate::text::decimal(seen.count() as nat);
                let s1 = self.say(
                    "a `@Union` extern struct literal must initialize exactly one field, but `"@
                        + n
                        + "` initializes "@
                        + count,
                    span,
                );
                s1
            } else {
                self
            }
        } else {
            if self.p.def_of(def).kind != DefKind::ExternStruct {
                let s2 = self.report_missing(declared, seen, owner, span);
                s2
            } else {
                self
            }
        }
    }

    pub open spec fn check_struct_lit(self, e: Expr, expected: Option<Ty>) -> (Ck, Ty)
        decreases e, 8int,
    {
        match e.kind {
            ExprKind::StructLit { path, fields, spread } => {
                let (path, fields, spread) = (path, fields, spread);
                let owner = path.name.name;
                match self.p.type_named(self.cur_module, owner) {
                    Some(d) => {
                        let def = d;
                        let kind = self.p.def_of(def).kind;
                        if kind != DefKind::Struct && kind != DefKind::ExternStruct {
                            let n = self.name(owner);
                            let s1 = self.say(
                                "`"@ + n + "` is not a struct and cannot be constructed with `{ }`"@,
                                path.span,
                            );
                            (s1, ERROR_TY)
                        } else {
                            let env = self.env();
                            let (s2, explicit) = self.lower_list(path.generics, env);
                            let gens = s2.p.def_of(def).generics;
                            let inferring = !(gens is Nil) && explicit.count() != gens.count();
                            let (s3, args) = if inferring {
                                s2.infer_struct_args(e, def, expected)
                            } else {
                                (s2, explicit)
                            };
                            let (s4, found) = s3.record_fields(def, args);
                            match found {
                                Some(fs) => {
                                    let declared = fs;
                                    let (s5, seen) = s4.check_field_inits(
                                        fields,
                                        declared,
                                        owner,
                                        inferring,
                                        List::Nil,
                                    );
                                    let (s6, result) = s5.mk_named(def, args);
                                    let s7 = match spread {
                                        Some(base) => {
                                            let (s8, bt) = s6.check_expr(*base, Some(result));
                                            let s9 = s8.expect(bt, result, base.span);
                                            s9
                                        },
                                        None => s6.check_complete(def, declared, seen, owner, e.span),
                                    };
                                    (s7, result)
                                },
                                None => {
                                    let n = s4.name(owner);
                                    let s10 = s4.say("`"@ + n + "` is not a record struct"@, e.span);
                                    (s10, ERROR_TY)
                                },
                            }
                        }
                    },
                    None => {
                        let n = self.name(owner);
                        let s11 = self.fail(Problem::UnknownType { name: n }, path.span);
                        (s11, ERROR_TY)
                    },
                }
            },
            _ => (self, ERROR_TY),
        }
    }

    pub open spec fn not_a_tuple_struct(self, e: Expr) -> (Ck, Ty)
        decreases e, 2int,
    {
        let s1 = self.say("only tuple structs are constructed by call"@, e.span);
        let s2 = s1.check_all(e, false);
        (s2, ERROR_TY)
    }

    /// `Pair(a, b)` makes a tuple struct; its generics are what the arguments say.
    pub open spec fn check_tuple_ctor(self, e: Expr, def: DefId) -> (Ck, Ty)
        decreases e, 5int,
    {
        match e.kind {
            ExprKind::Call { callee, args, .. } => {
                let (callee, args) = (*callee, args);
                let s1 = self.record_res(callee.span, ValueRes::StructCtor(def), ERROR_TY);
                let gens = s1.p.def_of(def).generics;
                let (s2, params) = s1.param_tys(gens);
                let (s3, found) = s2.tuple_fields(def, params);
                match found {
                    Some(ts) => {
                        let declared = ts;
                        let s4 = s3.check_arity(declared.count(), args.count(), e.span);
                        if gens is Nil {
                            let s5 = s4.check_zip(args, declared, false).0;
                            s5.mk_named(def, List::Nil)
                        } else {
                            let (s6, (left, m)) = s4.infer_zip(args, declared, false, List::Nil);
                            let (s7, targs) = s6.inferred_args(gens, m, s6.p.def_of(def).name, e.span);
                            let (s8, concrete) = s7.tuple_fields(def, targs);
                            let s9 = match concrete {
                                Some(ts) => {
                                    let s10 = s8.expect_args(args, ts, List::Nil).0;
                                    s10
                                },
                                None => s8,
                            };
                            s9.mk_named(def, targs)
                        }
                    },
                    None => s3.not_a_tuple_struct(e),
                }
            },
            _ => (self, ERROR_TY),
        }
    }

    /// The type of a constant of a numeric type's namespace, unless a local hides
    /// the type.
    #[verifier::opaque]
    pub open spec fn num_constant_ty(self, receiver: Expr, name: Symbol) -> Option<Ty> {
        match receiver.kind {
            ExprKind::Ident(id) => if self.lookup(id.name) is Some {
                None
            } else {
                match self.num_constant(id.name, name) {
                    Some(NumIntrinsic::IntBound { ty, .. }) => Some(ty),
                    Some(NumIntrinsic::FloatConst { ty, .. }) => Some(ty),
                    _ => None,
                }
            },
            _ => None,
        }
    }

    pub open spec fn check_field(self, e: Expr) -> (Ck, Ty)
        decreases e, 8int,
    {
        match e.kind {
            ExprKind::Field { receiver, name } => {
                let (receiver, name) = (*receiver, name);
                match self.num_constant_ty(receiver, name.name) {
                    Some(t) => (self, t),
                    None => {
                        let (s1, rty) = self.check_expr(receiver, None);
                        if s1.is_err(rty) {
                            (s1, ERROR_TY)
                        } else {
                            let (s2, found) = s1.field_of(rty, name.name);
                            match found {
                                Some(t) => (s2, t),
                                None => {
                                    let t = s2.show(rty);
                                    let n = s2.name(name.name);
                                    let s3 = s2.fail(Problem::NoField { ty: t, name: n }, name.span);
                                    (s3, ERROR_TY)
                                },
                            }
                        }
                    },
                }
            },
            _ => (self, ERROR_TY),
        }
    }

    /// The type of field `name` of a value of type `rty`.
    #[verifier::opaque]
    pub open spec fn field_of(self, rty: Ty, name: Symbol) -> (Ck, Option<Ty>) {
        match self.kind(rty) {
            TyKind::Named { def, args } => {
                let (s1, found) = self.record_fields(def, args);
                (s1, match found {
                    Some(fs) => crate::check::rules::field_ty(fs, name),
                    None => None,
                })
            },
            _ => (self, None),
        }
    }

    #[verifier::opaque]
    pub open spec fn bad_index(self, index: u32, rty: Ty, span: Span) -> (Ck, Ty) {
        let t = self.show(rty);
        let n = crate::text::decimal(index as nat);
        let s1 = self.say("tuple index "@ + n + " out of range for `"@ + t + "`"@, span);
        (s1, ERROR_TY)
    }

    pub open spec fn check_tuple_index(self, e: Expr) -> (Ck, Ty)
        decreases e, 8int,
    {
        match e.kind {
            ExprKind::TupleIndex { receiver, index, index_span } => {
                let (receiver, index, span) = (*receiver, index, index_span);
                let (s1, rty) = self.check_expr(receiver, None);
                if s1.is_err(rty) {
                    (s1, ERROR_TY)
                } else {
                    s1.index_of_type(rty, index, span)
                }
            },
            _ => (self, ERROR_TY),
        }
    }

    #[verifier::opaque]
    pub open spec fn index_of_type(self, rty: Ty, index: u32, span: Span) -> (Ck, Ty) {
        match self.kind(rty) {
            TyKind::Tuple(elems) => match crate::list::nth(elems, index as usize) {
                Some(t) => (self, t),
                None => self.bad_index(index, rty, span),
            },
            TyKind::Named { def, args } => {
                let (s1, found) = self.tuple_fields(def, args);
                let fields = match found {
                    Some(ts) => ts,
                    None => List::Nil,
                };
                match crate::list::nth(fields, index as usize) {
                    Some(t) => (s1, t),
                    None => s1.bad_index(index, rty, span),
                }
            },
            _ => {
                let t = self.show(rty);
                let s2 = self.say("type `"@ + t + "` cannot be indexed by position"@, span);
                (s2, ERROR_TY)
            },
        }
    }

    /// What `receiver[index]` takes and gives.
    #[verifier::opaque]
    pub open spec fn index_types(self, rty: Ty) -> Option<(Ty, Ty)> {
        match self.list_elem(rty) {
            Some(elem) => Some((I64_TY, elem)),
            None => match self.map_kv(rty) {
                Some(kv) => Some(kv),
                None => match self.kind(rty) {
                    TyKind::Array { elem, .. } => Some((I64_TY, elem)),
                    _ => None,
                },
            },
        }
    }

    pub open spec fn check_index(self, e: Expr) -> (Ck, Ty)
        decreases e, 8int,
    {
        match e.kind {
            ExprKind::Index { receiver, index } => {
                let (receiver, index) = (*receiver, *index);
                let (s1, rty) = self.check_expr(receiver, None);
                if s1.is_err(rty) {
                    (s1, ERROR_TY)
                } else {
                    match s1.index_types(rty) {
                        Some((key, value)) => {
                            let (s2, it) = s1.check_expr(index, Some(key));
                            let s3 = s2.expect(it, key, index.span);
                            (s3, value)
                        },
                        None => {
                            let t = s1.show(rty);
                            let s4 = s1.say("type `"@ + t + "` cannot be indexed with `[]`"@, receiver.span);
                            (s4, ERROR_TY)
                        },
                    }
                }
            },
            _ => (self, ERROR_TY),
        }
    }

    pub open spec fn check_list_lit(self, e: Expr, expected: Option<Ty>) -> (Ck, Ty)
        decreases e, 8int,
    {
        match e.kind {
            ExprKind::List(elems) => {
                let want = match expected {
                    Some(x) => self.list_elem(x),
                    None => None,
                };
                let (s1, elem) = match (want, elems) {
                    (Some(t), _) => (self, t),
                    (None, List::Cons(first, _)) => self.check_expr(*first, None),
                    (None, List::Nil) => {
                        let s2 = self.say(
                            "cannot infer the element type of an empty list; annotate it"@,
                            e.span,
                        );
                        (s2, ERROR_TY)
                    },
                };
                if want is None && elems is Nil {
                    (s1, ERROR_TY)
                } else {
                    let s3 = s1.check_same(elems, elem);
                    s3.mk_list(elem)
                }
            },
            _ => (self, ERROR_TY),
        }
    }

    /// Every one of `l` is of type `ty`.
    pub open spec fn check_same(self, l: List<Expr>, ty: Ty) -> Ck
        decreases l, 1int,
    {
        match l {
            List::Nil => self,
            List::Cons(h, t) => {
                let (s1, x) = self.check_expr(*h, Some(ty));
                let s2 = s1.expect(x, ty, h.span);
                let s3 = s2.check_same(*t, ty);
                s3
            },
        }
    }

    /// The types of the first entry's key and value.
    pub open spec fn first_entry(self, l: List<MapItem>) -> (Ck, Option<(Ty, Ty)>)
        decreases l, 1int,
    {
        match l {
            List::Nil => (self, None),
            List::Cons(h, t) => match *h {
                MapItem::Entry { key, value, .. } => {
                    let (s1, k) = self.check_expr(*key, None);
                    let (s2, v) = s1.check_expr(*value, None);
                    (s2, Some((k, v)))
                },
                MapItem::Spread(_) => self.first_entry(*t),
            },
        }
    }

    pub open spec fn check_entries(self, l: List<MapItem>, kt: Ty, vt: Ty, map_ty: Ty) -> Ck
        decreases l, 1int,
    {
        match l {
            List::Nil => self,
            List::Cons(h, t) => {
                let (it, t) = (*h, *t);
                let s1 = match it {
                    MapItem::Entry { key, value, .. } => {
                        let (s2, k) = self.check_expr(*key, Some(kt));
                        let s3 = s2.expect(k, kt, key.span);
                        let (s4, v) = s3.check_expr(*value, Some(vt));
                        let s5 = s4.expect(v, vt, value.span);
                        s5
                    },
                    MapItem::Spread(base) => {
                        let (s6, bt) = self.check_expr(*base, Some(map_ty));
                        let s7 = s6.expect(bt, map_ty, base.span);
                        s7
                    },
                };
                let s8 = s1.check_entries(t, kt, vt, map_ty);
                s8
            },
        }
    }

    #[verifier::opaque]
    pub open spec fn require_map_key(self, kt: Ty, span: Span) -> Ck {
        let (s1, ok) = self.is_valid_map_key(kt);
        if !ok && !s1.is_err(kt) {
            let t = s1.show(kt);
            let s2 = s1.say(
                "`"@ + t + "` cannot be used as a map key (expected `str` or an integer type)"@,
                span,
            );
            s2
        } else {
            s1
        }
    }

    pub open spec fn check_map_lit(self, e: Expr, expected: Option<Ty>) -> (Ck, Ty)
        decreases e, 8int,
    {
        match e.kind {
            ExprKind::MapLit(items) => {
                let want = match expected {
                    Some(x) => self.map_kv(x),
                    None => None,
                };
                let (s1, kv) = match want {
                    Some(p) => (self, Some(p)),
                    None => self.first_entry(items),
                };
                match kv {
                    Some((kt, vt)) => {
                        let s2 = s1.require_map_key(kt, e.span);
                        let (s3, map_ty) = s2.mk_named(s2.p.well_known(T_MAP), List::two(kt, vt));
                        let s4 = s3.check_entries(items, kt, vt, map_ty);
                        (s4, map_ty)
                    },
                    None => {
                        let s5 = s1.say(
                            "cannot infer the key/value types of an empty map; annotate it or use `Map<K, V>()`"@,
                            e.span,
                        );
                        (s5, ERROR_TY)
                    },
                }
            },
            _ => (self, ERROR_TY),
        }
    }
}

impl<'a> Cx<'a> {
    /// Unifies the fields' declared types with the types of their values.
    pub fn infer_fields(
        &mut self,
        l: &List<FieldInit>,
        declared: &List<FieldTy>,
        m: List<Solved>,
    ) -> (r: List<Solved>)
        ensures
            final(self).answers(r, old(self).view().infer_fields(*l, *declared, m)),
            old(self).view().grows_to(final(self).view()),
        decreases l, 1int,
    {
        let (f, t) = match l {
            List::Nil => {
                return m;
            },
            List::Cons(f, t) => (&**f, &**t),
        };
        match find_field(declared, f.name.name) {
            Some(fty) => {
                let vt = match &f.value {
                    Some(v) => self.check_expr(v, None),
                    None => self.check_ident(f.name.name, f.name.span),
                };
                self.infer_fields(t, declared, self.unify(fty, vt, m))
            },
            None => self.infer_fields(t, declared, m),
        }
    }

    /// What the expected type says of the generics of `def`.
    pub fn expected_args(&self, def: DefId, gens: &List<DefId>, expected: Option<Ty>) -> (r: List<Solved>)
        ensures
            r == self.view().expected_args(def, *gens, expected),
    {
        proof {
            reveal(Ck::expected_args);
        }
        match expected {
            Some(x) => match self.kind(x) {
                TyKind::Named { def: d, args } => if d == def && args.len() == gens.len() {
                    seed(gens, &args, List::Nil)
                } else {
                    List::Nil
                },
                _ => List::Nil,
            },
            None => List::Nil,
        }
    }

    /// The type arguments of a struct literal that leaves them out: those of the
    /// expected type, then what the field values say.
    pub fn infer_struct_args(&mut self, e: &Expr, def: DefId, expected: Option<Ty>) -> (r: List<Ty>)
        ensures
            final(self).answers(r, old(self).view().infer_struct_args(*e, def, expected)),
            old(self).view().grows_to(final(self).view()),
        decreases e, 7int,
    {
        let (path, fields) = match &e.kind {
            ExprKind::StructLit { path, fields, .. } => (path, fields),
            _ => {
                return List::Nil;
            },
        };
        let gens = &self.program().def(def).generics;
        let start = self.expected_args(def, gens, expected);
        let params = self.param_tys(gens);
        let found = self.record_fields(def, &params);
        let declared = match found {
            Some(fs) => fs,
            None => List::Nil,
        };
        let m = self.infer_fields(fields, &declared, start);
        self.inferred_args(gens, &m, path.name.name, e.span)
    }

    /// Checks the fields of a literal of struct `owner`; the names that are
    /// initialized. Where inference has checked a value already its type is kept.
    pub fn check_field_inits(
        &mut self,
        l: &List<FieldInit>,
        declared: &List<FieldTy>,
        owner: Symbol,
        inferring: bool,
        seen: List<Symbol>,
    ) -> (r: List<Symbol>)
        ensures
            final(self).answers(r, old(self).view().check_field_inits(*l, *declared, owner, inferring, seen)),
            old(self).view().grows_to(final(self).view()),
        decreases l, 1int,
    {
        let (f, t) = match l {
            List::Nil => {
                return seen;
            },
            List::Cons(f, t) => (&**f, &**t),
        };
        let fty = match find_field(declared, f.name.name) {
            Some(ty) => ty,
            None => {
                let sn = self.name(owner);
                let n = self.name(f.name.name);
                self.emit(SemaErrorKind::UnknownStructField { struct_name: sn, name: n }, f.span);
                return self.check_field_inits(t, declared, owner, inferring, seen);
            },
        };
        let again = contains_symbol(&seen, f.name.name);
        if again {
            let sn = self.name(owner);
            let n = self.name(f.name.name);
            self.emit(SemaErrorKind::DuplicateField { struct_name: sn, name: n }, f.name.span);
        }
        match &f.value {
            Some(v) => {
                let vt = match (self.expr_ty(v.span), inferring) {
                    (Some(known), true) => known,
                    _ => self.check_expr(v, Some(fty)),
                };
                self.expect(vt, fty, v.span);
            },
            None => {
                let lt = self.check_name_use(f.name.name, f.name.span);
                self.expect(lt, fty, f.name.span);
            },
        }
        if again {
            self.check_field_inits(t, declared, owner, inferring, seen)
        } else {
            self.check_field_inits(t, declared, owner, inferring, List::Cons(Box::new(f.name.name), Box::new(seen)))
        }
    }

    pub fn report_missing(&mut self, declared: &List<FieldTy>, seen: &List<Symbol>, owner: Symbol, span: Span)
        ensures
            final(self).stands(old(self).view().report_missing(*declared, *seen, owner, span)),
            old(self).view().grows_to(final(self).view()),
        decreases declared,
    {
        proof {
            reveal(Ck::report_missing);
        }
        match declared {
            List::Nil => {},
            List::Cons(h, t) => {
                if !contains_symbol(seen, h.name) {
                    let sn = self.name(owner);
                    let n = self.name(h.name);
                    self.emit(SemaErrorKind::MissingField { struct_name: sn, name: n }, span);
                }
                self.report_missing(&**t, seen, owner, span);
            },
        }
    }

    /// A literal without a spread initializes every field of a struct, exactly one
    /// field of a `@Union`, and any fields of another `extern struct`.
    pub fn check_complete(
        &mut self,
        def: DefId,
        declared: &List<FieldTy>,
        seen: &List<Symbol>,
        owner: Symbol,
        span: Span,
    )
        ensures
            final(self).stands(old(self).view().check_complete(def, *declared, *seen, owner, span)),
            old(self).view().grows_to(final(self).view()),
    {
        proof {
            reveal(Ck::check_complete);
        }
        if self.is_union_extern_struct(def) {
            if seen.len() != 1 {
                let n = self.name(owner);
                let count = decimal_text(seen.len() as u64);
                self.say_text(
                    "a `@Union` extern struct literal must initialize exactly one field, but `".to_owned().concat(
                        n.as_str(),
                    ).concat("` initializes ").concat(count.as_str()),
                    span,
                );
            }
        } else if self.program().def(def).kind != DefKind::ExternStruct {
            self.report_missing(declared, seen, owner, span);
        }
    }

    pub fn check_struct_lit(&mut self, e: &Expr, expected: Option<Ty>) -> (r: Ty)
        ensures
            final(self).answers(r, old(self).view().check_struct_lit(*e, expected)),
            old(self).view().grows_to(final(self).view()),
        decreases e, 8int,
    {
        let (path, fields, spread) = match &e.kind {
            ExprKind::StructLit { path, fields, spread } => (path, fields, spread),
            _ => {
                return ERROR_TY;
            },
        };
        let owner = path.name.name;
        let def = match self.program().resolve_type_in(self.cur_module(), owner) {
            Some(d) => d,
            None => {
                let n = self.name(owner);
                self.emit(SemaErrorKind::UnknownType { name: n }, path.span);
                return ERROR_TY;
            },
        };
        let kind = self.program().def(def).kind;
        if kind != DefKind::Struct && kind != DefKind::ExternStruct {
            let n = self.name(owner);
            self.say_text(
                "`".to_owned().concat(n.as_str()).concat("` is not a struct and cannot be constructed with `{ }`"),
                path.span,
            );
            return ERROR_TY;
        }
        let env = self.local_env();
        let explicit = self.lower_tys(&path.generics, &env);
        let gens = &self.program().def(def).generics;
        let inferring = !gens.is_empty() && explicit.len() != gens.len();
        let args = if inferring {
            self.infer_struct_args(e, def, expected)
        } else {
            explicit
        };
        let found = self.record_fields(def, &args);
        let declared = match found {
            Some(fs) => fs,
            None => {
                let n = self.name(owner);
                self.say_text("`".to_owned().concat(n.as_str()).concat("` is not a record struct"), e.span);
                return ERROR_TY;
            },
        };
        let seen = self.check_field_inits(fields, &declared, owner, inferring, List::Nil);
        let result = self.mk_named(def, args);
        match spread {
            Some(base) => {
                let bt = self.check_expr(&**base, Some(result));
                self.expect(bt, result, base.span);
            },
            None => self.check_complete(def, &declared, &seen, owner, e.span),
        }
        result
    }

    pub fn not_a_tuple_struct(&mut self, e: &Expr) -> (r: Ty)
        ensures
            final(self).answers(r, old(self).view().not_a_tuple_struct(*e)),
            old(self).view().grows_to(final(self).view()),
        decreases e, 2int,
    {
        self.say("only tuple structs are constructed by call", e.span);
        self.check_all(e, false);
        ERROR_TY
    }

    /// `Pair(a, b)` makes a tuple struct; its generics are what the arguments say.
    pub fn check_tuple_ctor(&mut self, e: &Expr, def: DefId) -> (r: Ty)
        ensures
            final(self).answers(r, old(self).view().check_tuple_ctor(*e, def)),
            old(self).view().grows_to(final(self).view()),
        decreases e, 5int,
    {
        let (callee, args) = match &e.kind {
            ExprKind::Call { callee, args, .. } => (&**callee, args),
            _ => {
                return ERROR_TY;
            },
        };
        self.record_res(callee.span, ValueRes::StructCtor(def), ERROR_TY);
        let gens = &self.program().def(def).generics;
        let params = self.param_tys(gens);
        let found = self.tuple_fields(def, &params);
        let declared = match found {
            Some(ts) => ts,
            None => {
                return self.not_a_tuple_struct(e);
            },
        };
        self.check_arity(declared.len(), args.len(), e.span);
        if gens.is_empty() {
            self.check_zip(args, &declared, false);
            return self.mk_named(def, List::Nil);
        }
        let (left, m) = self.infer_zip(args, &declared, false, List::Nil);
        let targs = self.inferred_args(gens, &m, self.program().def(def).name, e.span);
        let concrete = self.tuple_fields(def, &targs);
        match concrete {
            Some(ts) => {
                self.expect_args(args, &ts, &List::Nil);
            },
            None => {},
        }
        self.mk_named(def, targs)
    }

    /// The type of a constant of a numeric type's namespace, unless a local hides
    /// the type.
    pub fn num_constant_ty(&self, receiver: &Expr, name: Symbol) -> (r: Option<Ty>)
        ensures
            r == self.view().num_constant_ty(*receiver, name),
    {
        proof {
            reveal(Ck::num_constant_ty);
        }
        match &receiver.kind {
            ExprKind::Ident(id) => if self.lookup(id.name).is_some() {
                None
            } else {
                match self.num_constant(id.name, name) {
                    Some(NumIntrinsic::IntBound { ty, .. }) => Some(ty),
                    Some(NumIntrinsic::FloatConst { ty, .. }) => Some(ty),
                    _ => None,
                }
            },
            _ => None,
        }
    }

    pub fn check_field(&mut self, e: &Expr) -> (r: Ty)
        ensures
            final(self).answers(r, old(self).view().check_field(*e)),
            old(self).view().grows_to(final(self).view()),
        decreases e, 8int,
    {
        let (receiver, name) = match &e.kind {
            ExprKind::Field { receiver, name } => (&**receiver, *name),
            _ => {
                return ERROR_TY;
            },
        };
        match self.num_constant_ty(receiver, name.name) {
            Some(t) => {
                return t;
            },
            None => {},
        }
        let rty = self.check_expr(receiver, None);
        if self.is_err(rty) {
            return ERROR_TY;
        }
        let found = self.field_of(rty, name.name);
        match found {
            Some(t) => t,
            None => {
                let t = self.display(rty);
                let n = self.name(name.name);
                self.emit(SemaErrorKind::NoField { ty: t, name: n }, name.span);
                ERROR_TY
            },
        }
    }

    /// The type of field `name` of a value of type `rty`.
    pub fn field_of(&mut self, rty: Ty, name: Symbol) -> (r: Option<Ty>)
        ensures
            final(self).answers(r, old(self).view().field_of(rty, name)),
            old(self).view().grows_to(final(self).view()),
    {
        proof {
            reveal(Ck::field_of);
        }
        match self.kind(rty) {
            TyKind::Named { def, args } => {
                let found = self.record_fields(def, &args);
                match found {
                    Some(fs) => find_field(&fs, name),
                    None => None,
                }
            },
            _ => None,
        }
    }

    pub fn bad_index(&mut self, index: u32, rty: Ty, span: Span) -> (r: Ty)
        ensures
            final(self).answers(r, old(self).view().bad_index(index, rty, span)),
            old(self).view().grows_to(final(self).view()),
    {
        proof {
            reveal(Ck::bad_index);
        }
        let t = self.display(rty);
        let n = decimal_text(index as u64);
        self.say_text(
            "tuple index ".to_owned().concat(n.as_str()).concat(" out of range for `").concat(t.as_str()).concat("`"),
            span,
        );
        ERROR_TY
    }

    pub fn check_tuple_index(&mut self, e: &Expr) -> (r: Ty)
        ensures
            final(self).answers(r, old(self).view().check_tuple_index(*e)),
            old(self).view().grows_to(final(self).view()),
        decreases e, 8int,
    {
        let (receiver, index, span) = match &e.kind {
            ExprKind::TupleIndex { receiver, index, index_span } => (&**receiver, *index, *index_span),
            _ => {
                return ERROR_TY;
            },
        };
        let rty = self.check_expr(receiver, None);
        if self.is_err(rty) {
            return ERROR_TY;
        }
        self.index_of_type(rty, index, span)
    }

    pub fn index_of_type(&mut self, rty: Ty, index: u32, span: Span) -> (r: Ty)
        ensures
            final(self).answers(r, old(self).view().index_of_type(rty, index, span)),
            old(self).view().grows_to(final(self).view()),
    {
        proof {
            reveal(Ck::index_of_type);
        }
        match self.kind(rty) {
            TyKind::Tuple(elems) => match get(&elems, index as usize) {
                Some(t) => t,
                None => self.bad_index(index, rty, span),
            },
            TyKind::Named { def, args } => {
                let found = self.tuple_fields(def, &args);
                let fields = match found {
                    Some(ts) => ts,
                    None => List::Nil,
                };
                match get(&fields, index as usize) {
                    Some(t) => t,
                    None => self.bad_index(index, rty, span),
                }
            },
            _ => {
                let t = self.display(rty);
                self.say_text(
                    "type `".to_owned().concat(t.as_str()).concat("` cannot be indexed by position"),
                    span,
                );
                ERROR_TY
            },
        }
    }

    /// What `receiver[index]` takes and gives.
    pub fn index_types(&self, rty: Ty) -> (r: Option<(Ty, Ty)>)
        ensures
            r == self.view().index_types(rty),
    {
        proof {
            reveal(Ck::index_types);
        }
        match self.list_elem(rty) {
            Some(elem) => Some((I64_TY, elem)),
            None => match self.map_kv(rty) {
                Some(kv) => Some(kv),
                None => match self.kind(rty) {
                    TyKind::Array { elem, .. } => Some((I64_TY, elem)),
                    _ => None,
                },
            },
        }
    }

    pub fn check_index(&mut self, e: &Expr) -> (r: Ty)
        ensures
            final(self).answers(r, old(self).view().check_index(*e)),
            old(self).view().grows_to(final(self).view()),
        decreases e, 8int,
    {
        let (receiver, index) = match &e.kind {
            ExprKind::Index { receiver, index } => (&**receiver, &**index),
            _ => {
                return ERROR_TY;
            },
        };
        let rty = self.check_expr(receiver, None);
        if self.is_err(rty) {
            return ERROR_TY;
        }
        match self.index_types(rty) {
            Some((key, value)) => {
                let it = self.check_expr(index, Some(key));
                self.expect(it, key, index.span);
                value
            },
            None => {
                let t = self.display(rty);
                self.say_text(
                    "type `".to_owned().concat(t.as_str()).concat("` cannot be indexed with `[]`"),
                    receiver.span,
                );
                ERROR_TY
            },
        }
    }

    pub fn check_list_lit(&mut self, e: &Expr, expected: Option<Ty>) -> (r: Ty)
        ensures
            final(self).answers(r, old(self).view().check_list_lit(*e, expected)),
            old(self).view().grows_to(final(self).view()),
        decreases e, 8int,
    {
        let elems = match &e.kind {
            ExprKind::List(elems) => elems,
            _ => {
                return ERROR_TY;
            },
        };
        let want = match expected {
            Some(x) => self.list_elem(x),
            None => None,
        };
        let elem = match (want, elems) {
            (Some(t), _) => t,
            (None, List::Cons(first, _)) => self.check_expr(&**first, None),
            (None, List::Nil) => {
                self.say("cannot infer the element type of an empty list; annotate it", e.span);
                ERROR_TY
            },
        };
        if want.is_none() && elems.is_empty() {
            return ERROR_TY;
        }
        self.check_same(elems, elem);
        self.mk_list(elem)
    }

    /// Every one of `l` is of type `ty`.
    pub fn check_same(&mut self, l: &List<Expr>, ty: Ty)
        ensures
            final(self).stands(old(self).view().check_same(*l, ty)),
            old(self).view().grows_to(final(self).view()),
        decreases l, 1int,
    {
        match l {
            List::Nil => {},
            List::Cons(h, t) => {
                let x = self.check_expr(&**h, Some(ty));
                self.expect(x, ty, h.span);
                self.check_same(&**t, ty);
            },
        }
    }

    /// The types of the first entry's key and value.
    pub fn first_entry(&mut self, l: &List<MapItem>) -> (r: Option<(Ty, Ty)>)
        ensures
            final(self).answers(r, old(self).view().first_entry(*l)),
            old(self).view().grows_to(final(self).view()),
        decreases l, 1int,
    {
        match l {
            List::Nil => None,
            List::Cons(h, t) => match &**h {
                MapItem::Entry { key, value, .. } => {
                    let k = self.check_expr(&**key, None);
                    let v = self.check_expr(&**value, None);
                    Some((k, v))
                },
                MapItem::Spread(_) => self.first_entry(&**t),
            },
        }
    }

    pub fn check_entries(&mut self, l: &List<MapItem>, kt: Ty, vt: Ty, map_ty: Ty)
        ensures
            final(self).stands(old(self).view().check_entries(*l, kt, vt, map_ty)),
            old(self).view().grows_to(final(self).view()),
        decreases l, 1int,
    {
        let (it, t) = match l {
            List::Nil => {
                return;
            },
            List::Cons(h, t) => (&**h, &**t),
        };
        match it {
            MapItem::Entry { key, value, .. } => {
                let k = self.check_expr(&**key, Some(kt));
                self.expect(k, kt, key.span);
                let v = self.check_expr(&**value, Some(vt));
                self.expect(v, vt, value.span);
            },
            MapItem::Spread(base) => {
                let bt = self.check_expr(&**base, Some(map_ty));
                self.expect(bt, map_ty, base.span);
            },
        }
        self.check_entries(t, kt, vt, map_ty);
    }

    pub fn require_map_key(&mut self, kt: Ty, span: Span)
        ensures
            final(self).stands(old(self).view().require_map_key(kt, span)),
            old(self).view().grows_to(final(self).view()),
    {
        proof {
            reveal(Ck::require_map_key);
        }
        let ok = self.is_valid_map_key(kt);
        if !ok && !self.is_err(kt) {
            let t = self.display(kt);
            self.say_text(
                "`".to_owned().concat(t.as_str()).concat(
                    "` cannot be used as a map key (expected `str` or an integer type)",
                ),
                span,
            );
        }
    }

    pub fn check_map_lit(&mut self, e: &Expr, expected: Option<Ty>) -> (r: Ty)
        ensures
            final(self).answers(r, old(self).view().check_map_lit(*e, expected)),
            old(self).view().grows_to(final(self).view()),
        decreases e, 8int,
    {
        let items = match &e.kind {
            ExprKind::MapLit(items) => items,
            _ => {
                return ERROR_TY;
            },
        };
        let want = match expected {
            Some(x) => self.map_kv(x),
            None => None,
        };
        let kv = match want {
            Some(p) => Some(p),
            None => self.first_entry(items),
        };
        match kv {
            Some((kt, vt)) => {
                self.require_map_key(kt, e.span);
                let map_ty = self.mk_named(self.program().known(T_MAP), List::pair(kt, vt));
                self.check_entries(items, kt, vt, map_ty);
                map_ty
            },
            None => {
                self.say(
                    "cannot infer the key/value types of an empty map; annotate it or use `Map<K, V>()`",
                    e.span,
                );
                ERROR_TY
            },
        }
    }
}

} // verus!
