//! Diagnostics produced by semantic analysis.
use vstd::prelude::*;
use crate::span::Span;
use crate::text::decimal_text;

verus! {

/// What went wrong.
#[derive(Clone, PartialEq, Eq, Debug)]
pub enum SemaErrorKind {
    /// Two items with the same name in the same namespace and module.
    DuplicateDefinition { name: String, kind: &'static str },
    /// A name used in type position that resolves to nothing.
    UnknownType { name: String },
    /// A name used in value position that resolves to nothing.
    UnknownValue { name: String },
    /// A generic type applied with the wrong number of arguments.
    GenericArity { name: String, expected: usize, found: usize },
    /// A type alias that references itself in a way that does not reduce.
    RecursiveAlias { name: String },
    /// A value of one type used where another was required.
    TypeMismatch { expected: String, found: String },
    /// An operator applied to an operand type that does not support it.
    InvalidOperator { op: &'static str, ty: String },
    /// A condition that is not `bool`; there is no implicit truthiness.
    NonBoolCondition { found: String },
    /// Calling something that is not callable.
    NotCallable { found: String },
    /// Wrong number of arguments to a call.
    ArgCount { expected: usize, found: usize },
    /// A `return` outside any function.
    ReturnOutsideFunction,
    /// An `as` cast between types with no defined conversion.
    InvalidCast { from: String, to: String },
    /// A struct literal that initializes a field twice.
    DuplicateField { struct_name: String, name: String },
    /// A struct literal that names a field the struct does not have.
    UnknownStructField { struct_name: String, name: String },
    /// A struct literal that leaves a field out.
    MissingField { struct_name: String, name: String },
    /// A field access on a type that has no such field.
    NoField { ty: String, name: String },
    /// A method call on a type that has no such method.
    NoMethod { ty: String, name: String },
    /// A `match` that does not cover every variant of its scrutinee.
    NonExhaustiveMatch { missing: String },
    /// `break` or `continue` outside any loop.
    LoopControlOutsideLoop { kw: &'static str },
    /// A free-form message for cases without a dedicated kind.
    Message(String),
}

/// The mathematical value of a [`SemaErrorKind`]: its texts as sequences.
pub enum Problem {
    DuplicateDefinition { name: Seq<char>, kind: Seq<char> },
    UnknownType { name: Seq<char> },
    UnknownValue { name: Seq<char> },
    GenericArity { name: Seq<char>, expected: usize, found: usize },
    RecursiveAlias { name: Seq<char> },
    TypeMismatch { expected: Seq<char>, found: Seq<char> },
    InvalidOperator { op: Seq<char>, ty: Seq<char> },
    NonBoolCondition { found: Seq<char> },
    NotCallable { found: Seq<char> },
    ArgCount { expected: usize, found: usize },
    ReturnOutsideFunction,
    InvalidCast { from: Seq<char>, to: Seq<char> },
    DuplicateField { struct_name: Seq<char>, name: Seq<char> },
    UnknownStructField { struct_name: Seq<char>, name: Seq<char> },
    MissingField { struct_name: Seq<char>, name: Seq<char> },
    NoField { ty: Seq<char>, name: Seq<char> },
    NoMethod { ty: Seq<char>, name: Seq<char> },
    NonExhaustiveMatch { missing: Seq<char> },
    LoopControlOutsideLoop { kw: Seq<char> },
    Message(Seq<char>),
}

impl SemaErrorKind {
    pub open spec fn view(&self) -> Problem {
        match self {
            SemaErrorKind::DuplicateDefinition { name, kind } => Problem::DuplicateDefinition {
                name: name@,
                kind: kind@,
            },
            SemaErrorKind::UnknownType { name } => Problem::UnknownType { name: name@ },
            SemaErrorKind::UnknownValue { name } => Problem::UnknownValue { name: name@ },
            SemaErrorKind::GenericArity { name, expected, found } => Problem::GenericArity {
                name: name@,
                expected: *expected,
                found: *found,
            },
            SemaErrorKind::RecursiveAlias { name } => Problem::RecursiveAlias { name: name@ },
            SemaErrorKind::TypeMismatch { expected, found } => Problem::TypeMismatch {
                expected: expected@,
                found: found@,
            },
            SemaErrorKind::InvalidOperator { op, ty } => Problem::InvalidOperator { op: op@, ty: ty@ },
            SemaErrorKind::NonBoolCondition { found } => Problem::NonBoolCondition { found: found@ },
            SemaErrorKind::NotCallable { found } => Problem::NotCallable { found: found@ },
            SemaErrorKind::ArgCount { expected, found } => Problem::ArgCount { expected: *expected, found: *found },
            SemaErrorKind::ReturnOutsideFunction => Problem::ReturnOutsideFunction,
            SemaErrorKind::InvalidCast { from, to } => Problem::InvalidCast { from: from@, to: to@ },
            SemaErrorKind::DuplicateField { struct_name, name } => Problem::DuplicateField {
                struct_name: struct_name@,
                name: name@,
            },
            SemaErrorKind::UnknownStructField { struct_name, name } => Problem::UnknownStructField {
                struct_name: struct_name@,
                name: name@,
            },
            SemaErrorKind::MissingField { struct_name, name } => Problem::MissingField {
                struct_name: struct_name@,
                name: name@,
            },
            SemaErrorKind::NoField { ty, name } => Problem::NoField { ty: ty@, name: name@ },
            SemaErrorKind::NoMethod { ty, name } => Problem::NoMethod { ty: ty@, name: name@ },
            SemaErrorKind::NonExhaustiveMatch { missing } => Problem::NonExhaustiveMatch { missing: missing@ },
            SemaErrorKind::LoopControlOutsideLoop { kw } => Problem::LoopControlOutsideLoop { kw: kw@ },
            SemaErrorKind::Message(m) => Problem::Message(m@),
        }
    }

    /// The diagnostic as shown to the user.
    pub fn describe(&self) -> (r: String)
        ensures
            r@ == problem_text(self.view()),
    {
        match self {
            SemaErrorKind::DuplicateDefinition { name, kind } => "the ".to_owned()
                .concat(kind)
                .concat(" `")
                .concat(name.as_str())
                .concat("` is defined multiple times in this module"),
            SemaErrorKind::UnknownType { name } => "cannot find type `".to_owned()
                .concat(name.as_str())
                .concat("` in scope"),
            SemaErrorKind::UnknownValue { name } => "cannot find value `".to_owned()
                .concat(name.as_str())
                .concat("` in scope"),
            SemaErrorKind::GenericArity { name, expected, found } => "`".to_owned()
                .concat(name.as_str())
                .concat("` expects ")
                .concat(decimal_text(*expected as u64).as_str())
                .concat(" generic argument(s), found ")
                .concat(decimal_text(*found as u64).as_str()),
            SemaErrorKind::RecursiveAlias { name } => "type alias `".to_owned()
                .concat(name.as_str())
                .concat("` references itself without reducing"),
            SemaErrorKind::TypeMismatch { expected, found } => "expected `".to_owned()
                .concat(expected.as_str())
                .concat("`, found `")
                .concat(found.as_str())
                .concat("`"),
            SemaErrorKind::InvalidOperator { op, ty } => "operator `".to_owned()
                .concat(op)
                .concat("` cannot be applied to `")
                .concat(ty.as_str())
                .concat("`"),
            SemaErrorKind::NonBoolCondition { found } => "condition must be `bool`, found `".to_owned()
                .concat(found.as_str())
                .concat("`"),
            SemaErrorKind::NotCallable { found } => "`".to_owned().concat(found.as_str()).concat("` is not callable"),
            SemaErrorKind::ArgCount { expected, found } => "expected ".to_owned()
                .concat(decimal_text(*expected as u64).as_str())
                .concat(" argument(s), found ")
                .concat(decimal_text(*found as u64).as_str()),
            SemaErrorKind::ReturnOutsideFunction => "`return` outside of a function".to_owned(),
            SemaErrorKind::InvalidCast { from, to } => "cannot cast `".to_owned()
                .concat(from.as_str())
                .concat("` to `")
                .concat(to.as_str())
                .concat("`"),
            SemaErrorKind::DuplicateField { struct_name, name } => "field `".to_owned()
                .concat(name.as_str())
                .concat("` of `")
                .concat(struct_name.as_str())
                .concat("` is initialized more than once"),
            SemaErrorKind::UnknownStructField { struct_name, name } => "struct `".to_owned()
                .concat(struct_name.as_str())
                .concat("` has no field `")
                .concat(name.as_str())
                .concat("`"),
            SemaErrorKind::MissingField { struct_name, name } => "missing field `".to_owned()
                .concat(name.as_str())
                .concat("` in `")
                .concat(struct_name.as_str())
                .concat("` literal"),
            SemaErrorKind::NoField { ty, name } => "type `".to_owned()
                .concat(ty.as_str())
                .concat("` has no field `")
                .concat(name.as_str())
                .concat("`"),
            SemaErrorKind::NoMethod { ty, name } => "no method `".to_owned()
                .concat(name.as_str())
                .concat("` on type `")
                .concat(ty.as_str())
                .concat("`"),
            SemaErrorKind::NonExhaustiveMatch { missing } => "non-exhaustive match: missing ".to_owned().concat(
                missing.as_str(),
            ),
            SemaErrorKind::LoopControlOutsideLoop { kw } => "`".to_owned().concat(kw).concat("` outside of a loop"),
            SemaErrorKind::Message(m) => m.as_str().to_owned(),
        }
    }
}

/// The text of a diagnostic.
pub open spec fn problem_text(p: Problem) -> Seq<char> {
    match p {
        Problem::DuplicateDefinition { name, kind } => {
            "the "@
                + kind
                + " `"@
                + name
                + "` is defined multiple times in this module"@
        },
        Problem::UnknownType { name } => "cannot find type `"@ + name + "` in scope"@,
        Problem::UnknownValue { name } => "cannot find value `"@ + name + "` in scope"@,
        Problem::GenericArity { name, expected, found } => {
            "`"@
                + name
                + "` expects "@
                + crate::text::decimal(expected as nat)
                + " generic argument(s), found "@
                + crate::text::decimal(found as nat)
        },
        Problem::RecursiveAlias { name } => "type alias `"@ + name + "` references itself without reducing"@,
        Problem::TypeMismatch { expected, found } => "expected `"@ + expected + "`, found `"@ + found + "`"@,
        Problem::InvalidOperator { op, ty } => "operator `"@ + op + "` cannot be applied to `"@ + ty + "`"@,
        Problem::NonBoolCondition { found } => "condition must be `bool`, found `"@ + found + "`"@,
        Problem::NotCallable { found } => "`"@ + found + "` is not callable"@,
        Problem::ArgCount { expected, found } => {
            "expected "@
                + crate::text::decimal(expected as nat)
                + " argument(s), found "@
                + crate::text::decimal(found as nat)
        },
        Problem::ReturnOutsideFunction => "`return` outside of a function"@,
        Problem::InvalidCast { from, to } => "cannot cast `"@ + from + "` to `"@ + to + "`"@,
        Problem::DuplicateField { struct_name, name } => {
            "field `"@
                + name
                + "` of `"@
                + struct_name
                + "` is initialized more than once"@
        },
        Problem::UnknownStructField { struct_name, name } => {
            "struct `"@
                + struct_name
                + "` has no field `"@
                + name
                + "`"@
        },
        Problem::MissingField { struct_name, name } => {
            "missing field `"@
                + name
                + "` in `"@
                + struct_name
                + "` literal"@
        },
        Problem::NoField { ty, name } => "type `"@ + ty + "` has no field `"@ + name + "`"@,
        Problem::NoMethod { ty, name } => "no method `"@ + name + "` on type `"@ + ty + "`"@,
        Problem::NonExhaustiveMatch { missing } => "non-exhaustive match: missing "@ + missing,
        Problem::LoopControlOutsideLoop { kw } => "`"@ + kw + "` outside of a loop"@,
        Problem::Message(m) => m,
    }
}

/// A diagnostic and the place it is about.
#[derive(Clone, PartialEq, Eq, Debug)]
pub struct SemaError {
    pub kind: SemaErrorKind,
    pub span: Span,
}

/// The mathematical value of a [`SemaError`].
pub struct Report {
    pub problem: Problem,
    pub span: Span,
}

impl SemaError {
    pub open spec fn view(&self) -> Report {
        Report { problem: self.kind.view(), span: self.span }
    }

    pub fn new(kind: SemaErrorKind, span: Span) -> (r: SemaError)
        ensures
            r == (SemaError { kind, span }),
    {
        SemaError { kind, span }
    }

    /// A free-form diagnostic.
    pub fn message(span: Span, msg: &str) -> (r: SemaError)
        ensures
            r.view() == (Report { problem: Problem::Message(msg@), span }),
    {
        SemaError { kind: SemaErrorKind::Message(msg.to_owned()), span }
    }
}

/// The mathematical values of a sequence of diagnostics.
pub open spec fn reports(errors: Seq<SemaError>) -> Seq<Report> {
    errors.map_values(|e: SemaError| e.view())
}

/// Appends a diagnostic.
pub fn report(errors: &mut Vec<SemaError>, kind: SemaErrorKind, span: Span)
    ensures
        reports(final(errors)@) == reports(old(errors)@).push(Report { problem: kind.view(), span }),
{
    let ghost before = errors@;
    errors.push(SemaError::new(kind, span));
    assert(reports(errors@) =~= reports(before).push(Report { problem: kind.view(), span }));
}

/// A copy of a kind.
fn dup_kind(k: &SemaErrorKind) -> (r: SemaErrorKind)
    ensures
        r.view() == k.view(),
{
    match k {
        SemaErrorKind::DuplicateDefinition { name, kind } => SemaErrorKind::DuplicateDefinition {
            name: name.clone(),
            kind: *kind,
        },
        SemaErrorKind::UnknownType { name } => SemaErrorKind::UnknownType { name: name.clone() },
        SemaErrorKind::UnknownValue { name } => SemaErrorKind::UnknownValue { name: name.clone() },
        SemaErrorKind::GenericArity { name, expected, found } => SemaErrorKind::GenericArity {
            name: name.clone(),
            expected: *expected,
            found: *found,
        },
        SemaErrorKind::RecursiveAlias { name } => SemaErrorKind::RecursiveAlias { name: name.clone() },
        SemaErrorKind::TypeMismatch { expected, found } => SemaErrorKind::TypeMismatch {
            expected: expected.clone(),
            found: found.clone(),
        },
        SemaErrorKind::InvalidOperator { op, ty } => SemaErrorKind::InvalidOperator { op: *op, ty: ty.clone() },
        SemaErrorKind::NonBoolCondition { found } => SemaErrorKind::NonBoolCondition { found: found.clone() },
        SemaErrorKind::NotCallable { found } => SemaErrorKind::NotCallable { found: found.clone() },
        SemaErrorKind::ArgCount { expected, found } => SemaErrorKind::ArgCount { expected: *expected, found: *found },
        SemaErrorKind::ReturnOutsideFunction => SemaErrorKind::ReturnOutsideFunction,
        SemaErrorKind::InvalidCast { from, to } => SemaErrorKind::InvalidCast { from: from.clone(), to: to.clone() },
        SemaErrorKind::DuplicateField { struct_name, name } => SemaErrorKind::DuplicateField {
            struct_name: struct_name.clone(),
            name: name.clone(),
        },
        SemaErrorKind::UnknownStructField { struct_name, name } => SemaErrorKind::UnknownStructField {
            struct_name: struct_name.clone(),
            name: name.clone(),
        },
        SemaErrorKind::MissingField { struct_name, name } => SemaErrorKind::MissingField {
            struct_name: struct_name.clone(),
            name: name.clone(),
        },
        SemaErrorKind::NoField { ty, name } => SemaErrorKind::NoField { ty: ty.clone(), name: name.clone() },
        SemaErrorKind::NoMethod { ty, name } => SemaErrorKind::NoMethod { ty: ty.clone(), name: name.clone() },
        SemaErrorKind::NonExhaustiveMatch { missing } => SemaErrorKind::NonExhaustiveMatch { missing: missing.clone() },
        SemaErrorKind::LoopControlOutsideLoop { kw } => SemaErrorKind::LoopControlOutsideLoop { kw: *kw },
        SemaErrorKind::Message(t) => SemaErrorKind::Message(t.clone()),
    }
}

/// Copies of diagnostics.
pub fn dup_errors(errors: &Vec<SemaError>) -> (r: Vec<SemaError>)
    ensures
        reports(r@) == reports(errors@),
{
    let mut out: Vec<SemaError> = Vec::new();
    let mut i: usize = 0;
    while i < errors.len()
        invariant
            i <= errors.len(),
            reports(out@) == reports(errors@.take(i as int)),
        decreases errors.len() - i,
    {
        proof {
            assert(errors@.take(i as int + 1) =~= errors@.take(i as int).push(errors@[i as int]));
            assert(reports(errors@.take(i as int + 1)) =~= reports(errors@.take(i as int)).push(
                errors@[i as int].view(),
            ));
        }
        report(&mut out, dup_kind(&errors[i].kind), errors[i].span);
        i = i + 1;
    }
    proof {
        assert(errors@.take(errors@.len() as int) =~= errors@);
    }
    out
}

} // verus!
