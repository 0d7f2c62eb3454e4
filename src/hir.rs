//! The expanded syntax tree that the recognizer reads, with the resolution and
//! type information attached to it.
use vstd::prelude::*;
use crate::source_map::Span;

verus! {

/// A path as written, with what name resolution made of it.
#[derive(Clone, Debug)]
pub struct QPath {
    /// The segment names as written (`_::Implied` has the last segment `Implied`).
    pub segments: Vec<String>,
    /// The absolute path of the declaration it resolves to (`core::fmt::Display::fmt`),
    /// or `None` when it does not resolve to a declaration with an identity.
    pub def_path: Option<Vec<String>>,
}

/// A resolved type, as far as the recognizer looks into it.
#[derive(Debug)]
pub enum Ty {
    /// The primitive string slice `str`.
    Str,
    /// A reference `&T` or `&mut T`.
    Ref(Box<Ty>),
    /// A struct or enum, by the absolute path of its declaration.
    Adt(Vec<String>),
    /// Any other type, or one that could not be inferred.
    Other,
}

/// The kind of a literal.
#[derive(Clone, Debug)]
pub enum LitKind {
    Str(String),
    Int(u128),
    Bool(bool),
    Char(char),
    Other,
}

/// A pattern node, with the type inferred for it.
#[derive(Debug)]
pub struct Pat {
    pub kind: PatKind,
    pub ty: Ty,
    pub span: Span,
}

#[derive(Debug)]
pub enum PatKind {
    /// `_`
    Wild,
    /// A bound name.
    Binding(String),
    /// A tuple pattern; the position of a `..`, if any.
    Tuple(Vec<Pat>, Option<usize>),
    Other,
}

/// One arm of a `match`.
#[derive(Debug)]
pub struct Arm {
    pub pats: Vec<Pat>,
    pub body: Expr,
}

/// One `name: expr` field of a struct literal.
#[derive(Debug)]
pub struct Field {
    pub name: String,
    pub expr: Expr,
}

/// An expression node.
#[derive(Debug)]
pub struct Expr {
    pub kind: ExprKind,
    pub span: Span,
}

#[derive(Debug)]
pub enum ExprKind {
    /// `callee(args..)`
    Call(Box<Expr>, Vec<Expr>),
    /// `match scrutinee { arms.. }`
    Match(Box<Expr>, Vec<Arm>),
    /// `&inner`
    AddrOf(Box<Expr>),
    /// `[elems..]`
    Array(Vec<Expr>),
    /// `Path { fields.. }`
    Struct(QPath, Vec<Field>),
    /// `(elems..)`
    Tup(Vec<Expr>),
    Path(QPath),
    Lit(LitKind),
    Other,
}

/// The view of a list of names, one character sequence per name.
pub open spec fn names_view(names: Seq<String>) -> Seq<Seq<char>> {
    Seq::new(names.len(), |i: int| names[i]@)
}

/// The view of a list of string slices, one character sequence per slice.
pub open spec fn strs_view(strs: Seq<&str>) -> Seq<Seq<char>> {
    Seq::new(strs.len(), |i: int| strs[i]@)
}

/// Whether `path` names the declaration `expected`, segment by segment.
pub open spec fn spec_def_path_is(path: Seq<String>, expected: Seq<Seq<char>>) -> bool {
    names_view(path) == expected
}

/// The absolute path of the formatting-arguments constructor.
pub open spec fn fmt_arguments_new_v1_formatted() -> Seq<Seq<char>> {
    seq!["core"@, "fmt"@, "Arguments"@, "new_v1_formatted"@]
}

/// The absolute path of the display-formatting method.
pub open spec fn display_fmt_method() -> Seq<Seq<char>> {
    seq!["core"@, "fmt"@, "Display"@, "fmt"@]
}

/// The absolute path of the owned string type.
pub open spec fn string_type() -> Seq<Seq<char>> {
    seq!["alloc"@, "string"@, "String"@]
}

/// Whether `q` resolves to the declaration `expected`.
pub open spec fn spec_resolves_to(q: QPath, expected: Seq<Seq<char>>) -> bool {
    q.def_path matches Some(p) && spec_def_path_is(p@, expected)
}

/// Whether the last written segment of `q` is `name`.
pub open spec fn spec_last_segment_is(q: QPath, name: Seq<char>) -> bool {
    q.segments@.len() > 0 && q.segments@.last()@ == name
}

/// `ty` with every outer reference removed.
pub open spec fn spec_walk_ptrs(ty: Ty) -> Ty
    decreases ty,
{
    match ty {
        Ty::Ref(inner) => spec_walk_ptrs(*inner),
        _ => ty,
    }
}

/// Whether `ty` is `str` or `String`.
pub open spec fn spec_is_textual(ty: Ty) -> bool {
    ||| ty is Str
    ||| ty matches Ty::Adt(p) && spec_def_path_is(p@, string_type())
}

/// Whether the name `s` reads `lit`.
pub fn name_is(s: &String, lit: &str) -> (r: bool)
    ensures
        r == (s@ == lit@),
{
    *s == lit.to_owned()
}

/// Whether `path` names the declaration whose segments are `expected`.
pub fn def_path_is(path: &Vec<String>, expected: &Vec<&str>) -> (r: bool)
    ensures
        r == (names_view(path@) == strs_view(expected@)),
{
    let ghost want = strs_view(expected@);
    if path.len() != expected.len() {
        assert(names_view(path@).len() != want.len());
        return false;
    }
    let mut i: usize = 0;
    while i < path.len()
        invariant
            path@.len() == expected@.len(),
            want == strs_view(expected@),
            0 <= i <= path@.len(),
            forall|j: int| 0 <= j < i ==> path@[j]@ == expected@[j]@,
        decreases path@.len() - i,
    {
        if !name_is(&path[i], expected[i]) {
            assert(names_view(path@)[i as int] != want[i as int]);
            return false;
        }
        i = i + 1;
    }
    assert(want.len() == expected@.len());
    assert(names_view(path@) =~= want);
    true
}

/// Whether the path resolves to the declaration whose segments are `expected`.
pub fn resolves_to(q: &QPath, expected: &Vec<&str>) -> (r: bool)
    ensures
        r == (q.def_path matches Some(p) && names_view(p@) == strs_view(expected@)),
{
    match &q.def_path {
        Some(p) => def_path_is(p, expected),
        None => false,
    }
}

/// Whether the last written segment of `q` is `name`.
pub fn last_segment_is(q: &QPath, name: &str) -> (r: bool)
    ensures
        r == spec_last_segment_is(*q, name@),
{
    let n = q.segments.len();
    if n == 0 {
        false
    } else {
        name_is(&q.segments[n - 1], name)
    }
}

/// `ty` with every outer reference removed.
pub fn walk_ptrs(ty: &Ty) -> (r: &Ty)
    ensures
        *r == spec_walk_ptrs(*ty),
    decreases ty,
{
    match ty {
        Ty::Ref(inner) => walk_ptrs(inner),
        _ => ty,
    }
}

/// Whether `ty`, once its references are removed, is `str` or `String`.
pub fn is_textual_after_refs(ty: &Ty) -> (r: bool)
    ensures
        r == spec_is_textual(spec_walk_ptrs(*ty)),
{
    match walk_ptrs(ty) {
        Ty::Str => true,
        Ty::Adt(p) => {
            let s = vec!["alloc", "string", "String"];
            assert(strs_view(s@) =~= string_type());
            def_path_is(p, &s)
        },
        _ => false,
    }
}

} // verus!
