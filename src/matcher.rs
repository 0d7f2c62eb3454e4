//! Structural predicates over the expansion of `format!`.
use vstd::prelude::*;
use crate::hir::{
    display_fmt_method, is_textual_after_refs, last_segment_is, name_is, resolves_to,
    spec_is_textual, spec_last_segment_is, spec_resolves_to, spec_walk_ptrs, strs_view, Expr,
    ExprKind, Field, LitKind, PatKind, QPath, Ty,
};
use crate::source_map::Span;

verus! {

/// Whether `e` is `&[""]`: the format string held no text around its one placeholder.
pub open spec fn spec_is_single_empty_piece(e: Expr) -> bool {
    &&& e.kind matches ExprKind::AddrOf(inner)
    &&& inner.kind matches ExprKind::Array(elems)
    &&& elems@.len() == 1
    &&& elems@[0].kind matches ExprKind::Lit(LitKind::Str(s))
    &&& s@.len() == 0
}

/// Whether `c` is a call with two arguments whose second one is the
/// display-formatting method.
pub open spec fn spec_is_display_call(c: Expr) -> bool {
    &&& c.kind matches ExprKind::Call(_, args)
    &&& args@.len() == 2
    &&& args@[1].kind matches ExprKind::Path(q)
    &&& spec_resolves_to(q, display_fmt_method())
}

/// The parts of `&match (arg,) { (x,) => [ArgumentV1::new(x, Display::fmt)] }`,
/// whatever the type of `x`: the type inferred for `x` and the span of `arg`.
pub open spec fn spec_single_arg_parts(e: Expr) -> Option<(Ty, Span)> {
    match e.kind {
        ExprKind::AddrOf(m) => match m.kind {
            ExprKind::Match(scrutinee, arms) => if arms@.len() == 1 && arms@[0].pats@.len() == 1 {
                match (arms@[0].pats@[0].kind, arms@[0].body.kind, scrutinee.kind) {
                    (PatKind::Tuple(ps, None), ExprKind::Array(es), ExprKind::Tup(vs)) => {
                        if ps@.len() == 1 && es@.len() == 1 && vs@.len() == 1
                            && spec_is_display_call(es@[0]) {
                            Some((ps@[0].ty, vs@[0].span))
                        } else {
                            None
                        }
                    },
                    _ => None,
                }
            } else {
                None
            },
            _ => None,
        },
        _ => None,
    }
}

/// The span of the one argument substituted by `e`, when `e` has the shape of
/// `spec_single_arg_parts` and the argument is `str` or `String` behind any
/// number of references.
pub open spec fn spec_single_string_arg(e: Expr) -> Option<Span> {
    match spec_single_arg_parts(e) {
        Some((ty, span)) => if spec_is_textual(spec_walk_ptrs(ty)) {
            Some(span)
        } else {
            None
        },
        None => None,
    }
}

/// The index of the first field named `name` at or after `from`.
pub open spec fn spec_find_field_from(fields: Seq<Field>, name: Seq<char>, from: int) -> Option<int>
    decreases fields.len() - from,
{
    if from < 0 || from >= fields.len() {
        None
    } else if fields[from].name@ == name {
        Some(from)
    } else {
        spec_find_field_from(fields, name, from + 1)
    }
}

/// The index of the first field named `name`.
pub open spec fn spec_find_field(fields: Seq<Field>, name: Seq<char>) -> Option<int> {
    spec_find_field_from(fields, name, 0)
}

/// The value of the first field named `name` in struct literal `e`.
pub open spec fn spec_field_value(e: Expr, name: Seq<char>) -> Option<Expr> {
    match e.kind {
        ExprKind::Struct(_, fields) => match spec_find_field(fields@, name) {
            Some(i) => Some(fields@[i].expr),
            None => None,
        },
        _ => None,
    }
}

/// The format spec `_ { .. }` of the one directive in `&[_ { format: _ { .. }, .. }]`.
pub open spec fn spec_format_spec(e: Expr) -> Option<Expr> {
    match e.kind {
        ExprKind::AddrOf(a) => match a.kind {
            ExprKind::Array(es) => if es@.len() == 1 {
                spec_field_value(es@[0], "format"@)
            } else {
                None
            },
            _ => None,
        },
        _ => None,
    }
}

/// Whether field `name` of struct literal `f` is a path whose last segment is `value`.
pub open spec fn spec_option_is(f: Expr, name: Seq<char>, value: Seq<char>) -> bool {
    spec_field_value(f, name) matches Some(v) && v.kind matches ExprKind::Path(q)
        && spec_last_segment_is(q, value)
}

/// Whether the one format directive of `e` has an implied width.
pub open spec fn spec_is_unformatted(e: Expr) -> bool {
    spec_format_spec(e) matches Some(f) && spec_option_is(f, "width"@, "Implied"@)
}

/// Whether the one format directive of `e` has an implied precision and an
/// unknown (unspecified) alignment.
pub open spec fn spec_default_precision_and_alignment(e: Expr) -> bool {
    spec_format_spec(e) matches Some(f) && {
        &&& spec_option_is(f, "precision"@, "Implied"@)
        &&& spec_option_is(f, "align"@, "Unknown"@)
    }
}

/// Checks whether `e` is `&[""]`.
pub fn check_single_piece(e: &Expr) -> (r: bool)
    ensures
        r == spec_is_single_empty_piece(*e),
{
    if let ExprKind::AddrOf(inner) = &e.kind {
        if let ExprKind::Array(elems) = &inner.kind {
            if elems.len() == 1 {
                if let ExprKind::Lit(LitKind::Str(s)) = &elems[0].kind {
                    return s.as_str().is_empty();
                }
            }
        }
    }
    false
}

/// Whether `c` is a two-argument call whose second argument is `Display::fmt`.
fn is_display_call(c: &Expr) -> (r: bool)
    ensures
        r == spec_is_display_call(*c),
{
    if let ExprKind::Call(_, args) = &c.kind {
        if args.len() == 2 {
            if let ExprKind::Path(q) = &args[1].kind {
                let display_fmt = vec!["core", "fmt", "Display", "fmt"];
                assert(strs_view(display_fmt@) =~= display_fmt_method());
                return resolves_to(q, &display_fmt);
            }
        }
    }
    false
}

/// Checks whether `e` matches
/// `&match (arg,) { (x,) => [ArgumentV1::new(x, Display::fmt)] }` with `x` of
/// type `str` or `String` (behind references), and if so returns the span of
/// `arg`, the argument as the caller wrote it.
pub fn get_single_string_arg(e: &Expr) -> (r: Option<Span>)
    ensures
        r == spec_single_string_arg(*e),
{
    if let ExprKind::AddrOf(m) = &e.kind {
        if let ExprKind::Match(scrutinee, arms) = &m.kind {
            if arms.len() == 1 && arms[0].pats.len() == 1 {
                let arm = &arms[0];
                if let PatKind::Tuple(ps, None) = &arm.pats[0].kind {
                    if let ExprKind::Array(es) = &arm.body.kind {
                        if let ExprKind::Tup(vs) = &scrutinee.kind {
                            if ps.len() == 1 && es.len() == 1 && vs.len() == 1
                                && is_display_call(&es[0]) {
                                if is_textual_after_refs(&ps[0].ty) {
                                    return Some(vs[0].span);
                                }
                            }
                        }
                    }
                }
            }
        }
    }
    None
}

/// The index of the first field named `name`.
pub fn find_field(fields: &Vec<Field>, name: &str) -> (r: Option<usize>)
    ensures
        match r {
            Some(i) => i < fields@.len() && spec_find_field(fields@, name@) == Some(i as int),
            None => spec_find_field(fields@, name@) is None,
        },
{
    let mut i: usize = 0;
    while i < fields.len()
        invariant
            0 <= i <= fields@.len(),
            spec_find_field(fields@, name@) == spec_find_field_from(fields@, name@, i as int),
        decreases fields@.len() - i,
    {
        if name_is(&fields[i].name, name) {
            return Some(i);
        }
        i = i + 1;
    }
    None
}

/// The value of the first field named `name` in struct literal `e`.
fn field_value<'a>(e: &'a Expr, name: &str) -> (r: Option<&'a Expr>)
    ensures
        match r {
            Some(v) => spec_field_value(*e, name@) == Some(*v),
            None => spec_field_value(*e, name@) is None,
        },
{
    if let ExprKind::Struct(_, fields) = &e.kind {
        if let Some(i) = find_field(fields, name) {
            return Some(&fields[i].expr);
        }
    }
    None
}

/// Whether field `name` of struct literal `f` is a path ending in `value`.
fn option_is(f: &Expr, name: &str, value: &str) -> (r: bool)
    ensures
        r == spec_option_is(*f, name@, value@),
{
    if let Some(v) = field_value(f, name) {
        if let ExprKind::Path(q) = &v.kind {
            return last_segment_is(q, value);
        }
    }
    false
}

/// The format spec of the one directive in `&[_ { format: _ { .. }, .. }]`.
fn format_spec(e: &Expr) -> (r: Option<&Expr>)
    ensures
        match r {
            Some(f) => spec_format_spec(*e) == Some(*f),
            None => spec_format_spec(*e) is None,
        },
{
    if let ExprKind::AddrOf(a) = &e.kind {
        if let ExprKind::Array(es) = &a.kind {
            if es.len() == 1 {
                return field_value(&es[0], "format");
            }
        }
    }
    None
}

/// Checks whether `e` matches `&[_ { format: _ { width: _::Implied, .. }, .. }]`.
pub fn check_unformatted(e: &Expr) -> (r: bool)
    ensures
        r == spec_is_unformatted(*e),
{
    match format_spec(e) {
        Some(f) => option_is(f, "width", "Implied"),
        None => false,
    }
}

/// Checks whether `e` matches
/// `&[_ { format: _ { align: _::Unknown, precision: _::Implied, .. }, .. }]`.
pub fn check_default_precision_and_alignment(e: &Expr) -> (r: bool)
    ensures
        r == spec_default_precision_and_alignment(*e),
{
    match format_spec(e) {
        Some(f) => option_is(f, "precision", "Implied") && option_is(f, "align", "Unknown"),
        None => false,
    }
}

} // verus!
