//! Properties of the classifier, stated over its specification.
use vstd::prelude::*;
use crate::classify::{format_macro, spec_classify, SuggestionView};
use crate::hir::{
    fmt_arguments_new_v1_formatted, spec_is_textual, spec_last_segment_is, spec_resolves_to,
    spec_walk_ptrs, Expr, ExprKind,
};
use crate::matcher::{
    spec_default_precision_and_alignment, spec_format_spec, spec_is_single_empty_piece,
    spec_is_unformatted, spec_option_is, spec_single_arg_parts, spec_single_string_arg,
};
use crate::source_map::{SourceMap, Span};

verus! {

/// The number of arguments substituted by `&match (a, b, ..) { .. }`.
pub open spec fn spec_substitution_count(e: Expr) -> Option<nat> {
    match e.kind {
        ExprKind::AddrOf(m) => match m.kind {
            ExprKind::Match(scrutinee, _) => match scrutinee.kind {
                ExprKind::Tup(vs) => Some(vs@.len()),
                _ => None,
            },
            _ => None,
        },
        _ => None,
    }
}

/// An invocation that writes text around its placeholder, substitutes more
/// than one argument, or gives explicit formatting options is never reported.
pub proof fn explicit_formatting_is_not_reported(cx: SourceMap, e: Expr)
    requires
        e.kind matches ExprKind::Call(_, args) && args@.len() == 3 && {
            ||| !spec_is_single_empty_piece(args@[0])
            ||| spec_substitution_count(args@[1]) matches Some(n) && n > 1
            ||| !spec_is_unformatted(args@[2])
            ||| !spec_default_precision_and_alignment(args@[2])
        },
    ensures
        spec_classify(cx, e) is None,
{
    if let ExprKind::Call(_, args) = e.kind {
        if spec_substitution_count(args@[1]) matches Some(n) && n > 1 {
            assert(spec_single_arg_parts(args@[1]) is None);
        }
    }
}

/// The expansion of `format!("{}", arg)` with `arg` a string and no options is
/// reported, with the replacement `<text of arg>.to_string()`.
pub proof fn single_string_substitution_is_reported(
    cx: SourceMap,
    e: Expr,
    call: Span,
    arg: Span,
    text: Seq<char>,
)
    requires
        cx.spec_expn_of(e.span, format_macro()) == Some(call),
        !cx.spec_in_macro(call),
        e.kind matches ExprKind::Call(callee, args) && {
            &&& args@.len() == 3
            &&& callee.kind matches ExprKind::Path(q)
            &&& spec_resolves_to(q, fmt_arguments_new_v1_formatted())
            &&& spec_is_single_empty_piece(args@[0])
            &&& spec_single_string_arg(args@[1]) == Some(arg)
            &&& spec_is_unformatted(args@[2])
            &&& spec_default_precision_and_alignment(args@[2])
        },
        cx.spec_snippet(arg) == Some(text),
    ensures
        spec_classify(cx, e) matches Some(s) && s.span == call && s.arg_span == Some(arg)
            && s.replacement == text + ".to_string()"@,
{
}

/// The expansion of `format!("literal")` is reported, with the replacement
/// `<text of the invocation>.to_string()`.
pub proof fn literal_only_is_reported(cx: SourceMap, e: Expr, call: Span, text: Seq<char>)
    requires
        cx.spec_expn_of(e.span, format_macro()) == Some(call),
        !cx.spec_in_macro(call),
        e.kind matches ExprKind::Match(scrutinee, _) && scrutinee.kind matches ExprKind::Tup(t)
            && t@.len() == 0,
        cx.spec_snippet(call) == Some(text),
    ensures
        spec_classify(cx, e) matches Some(s) && s.span == call && s.replacement == text
            + ".to_string()"@,
{
}

/// An argument that is neither `str` nor `String` (behind references) is never
/// reported, whatever the rest of the shape.
pub proof fn non_textual_argument_is_not_reported(cx: SourceMap, e: Expr)
    requires
        e.kind matches ExprKind::Call(_, args) && {
            &&& args@.len() == 3
            &&& spec_single_arg_parts(args@[1]) matches Some(parts)
            &&& !spec_is_textual(spec_walk_ptrs(parts.0))
        },
    ensures
        spec_classify(cx, e) is None,
{
}

/// An explicit width, precision or alignment (anything but the paths
/// `Implied`, `Implied` and `Unknown`, such as `Count::Is(5)`) is never reported.
pub proof fn explicit_options_are_not_reported(cx: SourceMap, e: Expr)
    requires
        e.kind matches ExprKind::Call(_, args) && args@.len() == 3 && {
            ||| spec_format_spec(args@[2]) matches Some(f) && !spec_option_is(f, "width"@, "Implied"@)
            ||| spec_format_spec(args@[2]) matches Some(f) && !spec_option_is(
                f,
                "precision"@,
                "Implied"@,
            )
            ||| spec_format_spec(args@[2]) matches Some(f) && !spec_option_is(f, "align"@, "Unknown"@)
        },
    ensures
        spec_classify(cx, e) is None,
{
}

/// An invocation that is itself produced by another macro is never reported.
pub proof fn nested_invocation_is_not_reported(cx: SourceMap, e: Expr)
    requires
        cx.spec_expn_of(e.span, format_macro()) matches Some(call) && cx.spec_in_macro(call),
    ensures
        spec_classify(cx, e) is None,
{
}

/// Two classifications of the same node over the same source map agree.
pub proof fn classification_is_deterministic(
    cx: SourceMap,
    e: Expr,
    first: Option<SuggestionView>,
    second: Option<SuggestionView>,
)
    requires
        first == spec_classify(cx, e),
        second == spec_classify(cx, e),
    ensures
        first == second,
{
}

} // verus!
