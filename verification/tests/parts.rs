//! The parts of the library on their own.
use otter_sema::hir::{key_of_span, NodeTable};
use otter_sema::ids::DefId;
use otter_sema::list::List;
use otter_sema::names::Interner;
use otter_sema::resolve_ctx::{find_module, normalize, Component, FileOf, ResolveContext};
use otter_sema::solve::{find_solution, subst_ty, unify};
use otter_sema::span::{BytePos, FileId, Span, SpanGen};
use otter_sema::text::{decimal_text, parse_char, parse_number};
use otter_sema::ty::{Ty, TyCtxt, TyKind, BOOL_TY, I64_TY, NEVER_TY, NULL_TY, STR_TY};

fn tys(v: &[Ty]) -> List<Ty> {
    List::from_vec(v.to_vec())
}

fn elems(l: &List<Ty>) -> Vec<Ty> {
    let mut out = Vec::new();
    let mut at = l;
    while let List::Cons(h, t) = at {
        out.push(**h);
        at = t;
    }
    out
}

#[test]
fn equal_types_have_equal_handles() {
    let mut tcx = TyCtxt::new();
    let a = tcx.mk_tuple(tys(&[I64_TY, STR_TY]));
    let n = tcx.kinds.len();
    let b = tcx.mk_tuple(tys(&[I64_TY, STR_TY]));
    assert_eq!(a, b);
    assert_eq!(tcx.kinds.len(), n);
    let c = tcx.mk_tuple(tys(&[STR_TY, I64_TY]));
    assert_ne!(a, c);
    match tcx.kind(a) {
        TyKind::Tuple(es) => assert_eq!(elems(&es), vec![I64_TY, STR_TY]),
        k => panic!("{k:?}"),
    }
}

#[test]
fn unions_do_not_depend_on_order() {
    let mut tcx = TyCtxt::new();
    let a = tcx.mk_union(tys(&[I64_TY, STR_TY, NULL_TY]));
    let b = tcx.mk_union(tys(&[NULL_TY, STR_TY, I64_TY, STR_TY]));
    assert_eq!(a, b);
    match tcx.kind(a) {
        TyKind::Union(ms) => {
            let v = elems(&ms);
            assert_eq!(v.len(), 3);
            assert!(v.windows(2).all(|w| w[0] < w[1]));
        }
        k => panic!("{k:?}"),
    }
}

#[test]
fn unions_are_flat_and_never_drops_out() {
    let mut tcx = TyCtxt::new();
    let inner = tcx.mk_union(tys(&[I64_TY, STR_TY]));
    let outer = tcx.mk_union(tys(&[inner, BOOL_TY]));
    match tcx.kind(outer) {
        TyKind::Union(ms) => assert_eq!(elems(&ms).len(), 3),
        k => panic!("{k:?}"),
    }
    assert_eq!(tcx.mk_union(tys(&[NEVER_TY, I64_TY])), I64_TY);
    assert_eq!(tcx.mk_union(tys(&[I64_TY, I64_TY])), I64_TY);
    assert_eq!(tcx.mk_union(tys(&[])), NEVER_TY);
}

#[test]
fn unification_solves_parameters_once() {
    let mut tcx = TyCtxt::new();
    let t = tcx.mk_param(DefId(7));
    let pat = tcx.mk_tuple(tys(&[t, t]));
    let val = tcx.mk_tuple(tys(&[I64_TY, STR_TY]));
    let m = unify(&tcx, pat, val, List::Nil);
    assert_eq!(find_solution(&m, DefId(7)), Some(I64_TY));
    assert_eq!(find_solution(&m, DefId(8)), None);
    let out = subst_ty(&mut tcx, pat, &m);
    assert_eq!(out, tcx.mk_tuple(tys(&[I64_TY, I64_TY])));
    assert_eq!(subst_ty(&mut tcx, val, &m), val);
}

#[test]
fn matching_patterns_are_filled_in() {
    let mut tcx = TyCtxt::new();
    let t = tcx.mk_param(DefId(7));
    let u = tcx.mk_param(DefId(8));
    let p = tcx.mk_ptr(u);
    let pat = tcx.mk_tuple(tys(&[t, p, BOOL_TY]));
    let q = tcx.mk_ptr(STR_TY);
    let val = tcx.mk_tuple(tys(&[I64_TY, q, BOOL_TY]));
    let m = unify(&tcx, pat, val, List::Nil);
    assert_eq!(find_solution(&m, DefId(7)), Some(I64_TY));
    assert_eq!(find_solution(&m, DefId(8)), Some(STR_TY));
    assert_eq!(subst_ty(&mut tcx, pat, &m), val);
}

#[test]
fn names_are_interned() {
    let mut names = Interner::new();
    let a = names.intern("otter");
    let b = names.intern("river");
    assert_ne!(a, b);
    assert_eq!(names.intern("otter"), a);
    assert_eq!(names.text(a), "otter");
    assert_eq!(names.text(b), "river");
    assert_eq!(names.intern("self"), otter_sema::words::SELF);
    assert_eq!(names.text(otter_sema::words::SELF), "self");
}

#[test]
fn numbers_are_read_in_their_base() {
    assert_eq!(parse_number("255", 10, 255), Some(255));
    assert_eq!(parse_number("256", 10, 255), None);
    assert_eq!(parse_number("ff", 16, 1000), Some(255));
    assert_eq!(parse_number("12", 2, 1000), None);
    assert_eq!(decimal_text(0), "0");
    assert_eq!(decimal_text(18446744073709551615), "18446744073709551615");
}

#[test]
fn characters_are_read_with_escapes() {
    assert_eq!(parse_char("a"), Some(97));
    assert_eq!(parse_char("\\n"), Some(10));
    assert_eq!(parse_char("ab"), None);
}

fn path(names: &mut Interner, text: &str) -> List<Component> {
    let mut out = Vec::new();
    for (i, part) in text.split('/').enumerate() {
        match part {
            "" if i == 0 => out.push(Component::RootDir),
            "" => {}
            "." => out.push(Component::CurDir),
            ".." => out.push(Component::ParentDir),
            x => out.push(Component::Normal(names.intern(x))),
        }
    }
    List::from_vec(out)
}

fn parts(l: &List<Component>) -> Vec<Component> {
    let mut out = Vec::new();
    let mut at = l;
    while let List::Cons(h, t) = at {
        out.push(**h);
        at = t;
    }
    out
}

#[test]
fn paths_are_normalized() {
    let mut names = Interner::new();
    let long = path(&mut names, "/a/./b/../c");
    let short = path(&mut names, "/a/c");
    assert_eq!(parts(&normalize(&long)), parts(&short));
    let again = normalize(&normalize(&long));
    assert_eq!(parts(&again), parts(&short));
    assert!(!parts(&again).contains(&Component::CurDir));
}

#[test]
fn parents_are_kept_where_nothing_precedes() {
    let mut names = Interner::new();
    let up = path(&mut names, "../../x");
    assert_eq!(parts(&normalize(&up)), parts(&up));
    let root = path(&mut names, "/../a");
    assert_eq!(parts(&normalize(&root)), parts(&path(&mut names, "/a")));
    let mixed = path(&mut names, "../a/../../b");
    assert_eq!(parts(&normalize(&mixed)), parts(&path(&mut names, "../../b")));
}

#[test]
fn files_are_found_by_normalized_path() {
    let mut names = Interner::new();
    let m = names.intern("m");
    let mut ctx = ResolveContext::direct();
    assert!(!ctx.project);
    ctx.file_of = List::from_vec(vec![FileOf { module: List::single(m), file: path(&mut names, "/src/./m.ot") }]);
    let index = ctx.file_to_module();
    let found = find_module(&index, &path(&mut names, "/src/m.ot"));
    assert!(matches!(found, Some(List::Cons(h, _)) if **h == m));
    assert!(find_module(&index, &path(&mut names, "/src/n.ot")).is_none());
}

#[test]
fn spans_have_keys_of_their_own() {
    let a = Span::new(FileId(1), BytePos(2), BytePos(3));
    let b = Span::new(FileId(1), BytePos(3), BytePos(2));
    let c = Span::new(FileId(2), BytePos(1), BytePos(3));
    assert_ne!(key_of_span(a), key_of_span(b));
    assert_ne!(key_of_span(a), key_of_span(c));
    let mut g = SpanGen::new(FileId(9));
    let x = g.fresh();
    let y = g.fresh();
    assert_ne!(x, y);
    let t = NodeTable::new();
    assert_eq!(t.expr_ty(a), None);
    assert_eq!(t.resolution(a), None);
}
