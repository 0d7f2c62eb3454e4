//! The classifier: decides whether an expanded node is a redundant `format!`
//! invocation and builds the suggestion that replaces it.
use vstd::prelude::*;
use crate::hir::{fmt_arguments_new_v1_formatted, resolves_to, spec_resolves_to, strs_view, Expr, ExprKind};
use crate::matcher::{
    check_default_precision_and_alignment, check_single_piece, check_unformatted,
    get_single_string_arg, spec_default_precision_and_alignment, spec_is_single_empty_piece,
    spec_is_unformatted, spec_single_string_arg,
};
use crate::source_map::{SourceMap, Span};

verus! {

/// A diagnostic with a replacement for the whole `format!` invocation.
#[derive(Debug)]
pub struct Suggestion {
    /// The original invocation: where the diagnostic is reported and the text
    /// that the replacement takes the place of.
    pub span: Span,
    pub message: String,
    pub help: String,
    /// The argument the user wrote, when the invocation substituted one.
    pub arg_span: Option<Span>,
    pub replacement: String,
}

/// The value of a `Suggestion`, with its texts as character sequences.
pub struct SuggestionView {
    pub span: Span,
    pub message: Seq<char>,
    pub help: Seq<char>,
    pub arg_span: Option<Span>,
    pub replacement: Seq<char>,
}

impl View for Suggestion {
    type V = SuggestionView;

    open spec fn view(&self) -> SuggestionView {
        SuggestionView {
            span: self.span,
            message: self.message@,
            help: self.help@,
            arg_span: self.arg_span,
            replacement: self.replacement@,
        }
    }
}

/// The view of an optional suggestion.
pub open spec fn opt_view(r: Option<Suggestion>) -> Option<SuggestionView> {
    match r {
        Some(s) => Some(s@),
        None => None,
    }
}

/// The name of the macro whose invocations are inspected.
pub open spec fn format_macro() -> Seq<char> {
    "format"@
}

pub open spec fn lint_message() -> Seq<char> {
    "useless use of `format!`"@
}

pub open spec fn lint_help() -> Seq<char> {
    "consider using .to_string()"@
}

/// `text` (or `default` when the source text is unavailable) followed by `.to_string()`.
pub open spec fn spec_to_string_call(text: Option<Seq<char>>, default: Seq<char>) -> Seq<char> {
    let receiver = match text {
        Some(t) => t,
        None => default,
    };
    receiver + ".to_string()"@
}

/// Whether `callee(args)` is `Arguments::new_v1_formatted(&[""], &match (arg,) {..}, &[..])`
/// with one textual argument and no explicit width, precision or alignment.
pub open spec fn spec_is_call_form(callee: Expr, args: Seq<Expr>) -> bool {
    &&& callee.kind matches ExprKind::Path(q)
    &&& args.len() == 3
    &&& spec_resolves_to(q, fmt_arguments_new_v1_formatted())
    &&& spec_is_single_empty_piece(args[0])
    &&& spec_single_string_arg(args[1]) is Some
    &&& spec_is_unformatted(args[2])
    &&& spec_default_precision_and_alignment(args[2])
}

/// What `classify` yields for `e`.
pub open spec fn spec_classify(cx: SourceMap, e: Expr) -> Option<SuggestionView> {
    match cx.spec_expn_of(e.span, format_macro()) {
        None => None,
        Some(call) => if cx.spec_in_macro(call) {
            None
        } else {
            match e.kind {
                ExprKind::Call(callee, args) => if spec_is_call_form(*callee, args@) {
                    let arg = spec_single_string_arg(args@[1])->0;
                    Some(
                        SuggestionView {
                            span: call,
                            message: lint_message(),
                            help: lint_help(),
                            arg_span: Some(arg),
                            replacement: spec_to_string_call(cx.spec_snippet(arg), "<arg>"@),
                        },
                    )
                } else {
                    None
                },
                ExprKind::Match(scrutinee, _) => if scrutinee.kind matches ExprKind::Tup(t)
                    && t@.len() == 0 {
                    Some(
                        SuggestionView {
                            span: call,
                            message: lint_message(),
                            help: lint_help(),
                            arg_span: None,
                            replacement: spec_to_string_call(cx.spec_snippet(call), "<expr>"@),
                        },
                    )
                } else {
                    None
                },
                _ => None,
            }
        },
    }
}

/// The source text under `span` (or `default`) followed by `.to_string()`.
fn to_string_call(cx: &SourceMap, span: Span, default: &str) -> (r: String)
    ensures
        r@ == spec_to_string_call(cx.spec_snippet(span), default@),
{
    let mut s = match cx.snippet(span) {
        Some(text) => text.to_owned(),
        None => default.to_owned(),
    };
    s.append(".to_string()");
    s
}

/// Builds the suggestion reported at `call`.
fn suggestion(call: Span, arg_span: Option<Span>, replacement: String) -> (r: Suggestion)
    ensures
        r@ == (SuggestionView {
            span: call,
            message: lint_message(),
            help: lint_help(),
            arg_span,
            replacement: replacement@,
        }),
{
    Suggestion {
        span: call,
        message: "useless use of `format!`".to_owned(),
        help: "consider using .to_string()".to_owned(),
        arg_span,
        replacement,
    }
}

/// Classifies one expanded expression: a suggestion when it is the expansion of
/// a `format!` invocation that does no formatting work, `None` otherwise.
pub fn classify(cx: &SourceMap, e: &Expr) -> (r: Option<Suggestion>)
    ensures
        opt_view(r) == spec_classify(*cx, *e),
{
    let call = match cx.expn_of(e.span, "format") {
        Some(call) => call,
        None => return None,
    };
    if cx.in_macro(call) {
        return None;
    }
    match &e.kind {
        ExprKind::Call(callee, args) => {
            if let ExprKind::Path(q) = &callee.kind {
                let new_v1_formatted = vec!["core", "fmt", "Arguments", "new_v1_formatted"];
                assert(strs_view(new_v1_formatted@) =~= fmt_arguments_new_v1_formatted());
                if args.len() == 3 && resolves_to(q, &new_v1_formatted) && check_single_piece(
                    &args[0],
                ) {
                    if let Some(arg) = get_single_string_arg(&args[1]) {
                        if check_unformatted(&args[2]) && check_default_precision_and_alignment(
                            &args[2],
                        ) {
                            let replacement = to_string_call(cx, arg, "<arg>");
                            return Some(suggestion(call, Some(arg), replacement));
                        }
                    }
                }
            }
            None
        },
        ExprKind::Match(scrutinee, _) => {
            if let ExprKind::Tup(t) = &scrutinee.kind {
                if t.len() == 0 {
                    let replacement = to_string_call(cx, call, "<expr>");
                    return Some(suggestion(call, None, replacement));
                }
            }
            None
        },
        _ => None,
    }
}

/// The lint pass that the analysis driver calls for every expression.
#[derive(Clone, Copy, Debug)]
pub struct Pass;

impl Pass {
    /// Inspects one expression; see `classify`.
    pub fn check_expr(&self, cx: &SourceMap, expr: &Expr) -> (r: Option<Suggestion>)
        ensures
            opt_view(r) == spec_classify(*cx, *expr),
    {
        classify(cx, expr)
    }
}

} // verus!
