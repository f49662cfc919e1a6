//! Types as the user reads them.
use vstd::prelude::*;
use crate::list::List;
use crate::symbols::Program;
use crate::text::decimal_text;
use crate::ty::{FloatTy, Ty, TyCtxt, TyKind};

verus! {

/// The text of type `t`.
pub open spec fn ty_text(p: Program, k: Seq<TyKind>, t: Ty) -> Seq<char>
    decreases t, 1int, List::<Ty>::Nil,
{
    match crate::ty::kind_of(k, t) {
        TyKind::Error => "<error>"@,
        TyKind::Never => "never"@,
        TyKind::Bool => "bool"@,
        TyKind::Char => "char"@,
        TyKind::Str => "str"@,
        TyKind::Null => "null"@,
        TyKind::Dynamic => "dynamic"@,
        TyKind::Int(it) => it.text(),
        TyKind::Float(FloatTy::F32) => "f32"@,
        TyKind::Float(FloatTy::F64) => "f64"@,
        TyKind::Param(d) => p.text(p.def_of(d).name),
        TyKind::Named { def, args } => if args is Nil {
            p.text(p.def_of(def).name)
        } else {
            p.text(p.def_of(def).name) + "<"@ + tys_text(p, k, args, ", "@, t) + ">"@
        },
        TyKind::Tuple(es) => "("@ + tys_text(p, k, es, ", "@, t) + ")"@,
        TyKind::Func { params, ret, .. } => "("@ + tys_text(p, k, params, ", "@, t) + ") => "@ + part_text(
            p,
            k,
            ret,
            t,
        ),
        TyKind::Union(ms) => tys_text(p, k, ms, " | "@, t),
        TyKind::Ptr(x) => "*"@ + part_text(p, k, x, t),
        TyKind::Array { elem, len } => "["@ + part_text(p, k, elem, t) + "; "@ + crate::text::decimal(len as nat)
            + "]"@,
    }
}

/// The text of a part of the type `whole`; parts stand before it in the table.
pub open spec fn part_text(p: Program, k: Seq<TyKind>, part: Ty, whole: Ty) -> Seq<char>
    decreases whole, 0int, List::<Ty>::Nil,
{
    if part < whole {
        ty_text(p, k, part)
    } else {
        "?"@
    }
}

/// The texts of the parts `l`, separated by `sep`.
pub open spec fn tys_text(p: Program, k: Seq<TyKind>, l: List<Ty>, sep: Seq<char>, whole: Ty) -> Seq<char>
    decreases whole, 0int, l,
{
    match l {
        List::Nil => ""@,
        List::Cons(h, t) => {
            let first = if *h < whole {
                ty_text(p, k, *h)
            } else {
                "?"@
            };
            if *t is Nil {
                first
            } else {
                first + sep + tys_text(p, k, *t, sep, whole)
            }
        },
    }
}

pub fn display(p: &Program, tcx: &TyCtxt, t: Ty) -> (r: String)
    ensures
        r@ == ty_text(*p, tcx.view(), t),
    decreases t, 1int, List::<Ty>::Nil,
{
    match tcx.kind(t) {
        TyKind::Error => "<error>".to_owned(),
        TyKind::Never => "never".to_owned(),
        TyKind::Bool => "bool".to_owned(),
        TyKind::Char => "char".to_owned(),
        TyKind::Str => "str".to_owned(),
        TyKind::Null => "null".to_owned(),
        TyKind::Dynamic => "dynamic".to_owned(),
        TyKind::Int(it) => it.name().to_owned(),
        TyKind::Float(FloatTy::F32) => "f32".to_owned(),
        TyKind::Float(FloatTy::F64) => "f64".to_owned(),
        TyKind::Param(d) => p.names.text(p.def(d).name).to_owned(),
        TyKind::Named { def, args } => {
            let name = p.names.text(p.def(def).name).to_owned();
            if args.is_empty() {
                name
            } else {
                name.concat("<").concat(display_list(p, tcx, &args, ", ", t).as_str()).concat(">")
            }
        },
        TyKind::Tuple(es) => "(".to_owned().concat(display_list(p, tcx, &es, ", ", t).as_str()).concat(")"),
        TyKind::Func { params, ret, .. } => "(".to_owned().concat(
            display_list(p, tcx, &params, ", ", t).as_str(),
        ).concat(") => ").concat(display_part(p, tcx, ret, t).as_str()),
        TyKind::Union(ms) => display_list(p, tcx, &ms, " | ", t),
        TyKind::Ptr(x) => "*".to_owned().concat(display_part(p, tcx, x, t).as_str()),
        TyKind::Array { elem, len } => "[".to_owned().concat(display_part(p, tcx, elem, t).as_str()).concat(
            "; ",
        ).concat(decimal_text(len).as_str()).concat("]"),
    }
}

fn display_part(p: &Program, tcx: &TyCtxt, part: Ty, whole: Ty) -> (r: String)
    ensures
        r@ == part_text(*p, tcx.view(), part, whole),
    decreases whole, 0int, List::<Ty>::Nil,
{
    if part < whole {
        display(p, tcx, part)
    } else {
        "?".to_owned()
    }
}

fn display_list(p: &Program, tcx: &TyCtxt, l: &List<Ty>, sep: &str, whole: Ty) -> (r: String)
    ensures
        r@ == tys_text(*p, tcx.view(), *l, sep@, whole),
    decreases whole, 0int, l,
{
    match l {
        List::Nil => "".to_owned(),
        List::Cons(h, t) => {
            let first = if **h < whole {
                display(p, tcx, **h)
            } else {
                "?".to_owned()
            };
            if t.is_empty() {
                first
            } else {
                first.concat(sep).concat(display_list(p, tcx, t, sep, whole).as_str())
            }
        },
    }
}

/// The texts of the types `l`, separated by commas.
pub open spec fn names_text(p: Program, k: Seq<TyKind>, l: List<Ty>) -> Seq<char>
    decreases l,
{
    match l {
        List::Nil => ""@,
        List::Cons(h, t) => if *t is Nil {
            ty_text(p, k, *h)
        } else {
            ty_text(p, k, *h) + ", "@ + names_text(p, k, *t)
        },
    }
}

pub fn display_names(p: &Program, tcx: &TyCtxt, l: &List<Ty>) -> (r: String)
    ensures
        r@ == names_text(*p, tcx.view(), *l),
    decreases l,
{
    match l {
        List::Nil => "".to_owned(),
        List::Cons(h, t) => {
            let first = display(p, tcx, **h);
            if t.is_empty() {
                first
            } else {
                first.concat(", ").concat(display_names(p, tcx, t).as_str())
            }
        },
    }
}

} // verus!
