//! Spans, macro-expansion backtraces and verbatim source snippets.
use vstd::prelude::*;
use vstd::utf8::*;
use vstd::string::StringSliceAdditionalSpecFns;

verus! {

/// A half-open byte range `[lo, hi)` of the original source text, together with
/// the syntax context it was produced in. Context `0` is the root context (code
/// the user wrote); context `k > 0` refers to entry `k - 1` of the expansion table.
#[derive(Clone, Copy, Debug, PartialEq, Eq, Structural)]
pub struct Span {
    pub lo: usize,
    pub hi: usize,
    pub ctxt: usize,
}

/// One macro expansion: which macro was expanded and where it was called.
#[derive(Clone, Debug)]
pub struct ExpnInfo {
    pub macro_name: String,
    pub call_site: Span,
}

/// The original source text together with the table of macro expansions.
#[derive(Clone, Debug)]
pub struct SourceMap {
    pub text: String,
    pub expansions: Vec<ExpnInfo>,
}

impl SourceMap {
    /// The expansion that produced context `ctxt`, if there is one.
    pub open spec fn expn_info(&self, ctxt: usize) -> Option<ExpnInfo> {
        if 0 < ctxt && ctxt <= self.expansions@.len() {
            Some(self.expansions@[ctxt - 1])
        } else {
            None
        }
    }

    /// Whether `span` was produced by some macro expansion.
    pub open spec fn spec_in_macro(&self, span: Span) -> bool {
        self.expn_info(span.ctxt) is Some
    }

    /// Walks the expansion backtrace of `span` outwards and yields the call site
    /// of the innermost expansion of the macro called `name`. A backtrace whose
    /// call sites do not lead to strictly older contexts is treated as unknown.
    pub open spec fn spec_expn_of(&self, span: Span, name: Seq<char>) -> Option<Span>
        decreases span.ctxt,
    {
        match self.expn_info(span.ctxt) {
            None => None,
            Some(info) => if info.macro_name@ == name {
                Some(info.call_site)
            } else if info.call_site.ctxt < span.ctxt {
                self.spec_expn_of(info.call_site, name)
            } else {
                None
            },
        }
    }

    /// The verbatim text under `span`, when `span` lies within the source and
    /// starts and ends on character boundaries.
    pub open spec fn spec_snippet(&self, span: Span) -> Option<Seq<char>> {
        let b = encode_utf8(self.text@);
        if span.lo <= span.hi && is_char_boundary(b, span.lo as int)
            && is_char_boundary(b, span.hi as int) {
            Some(decode_utf8(b.subrange(span.lo as int, span.hi as int)))
        } else {
            None
        }
    }

    /// Whether `span` was produced by a macro expansion.
    pub fn in_macro(&self, span: Span) -> (r: bool)
        ensures
            r == self.spec_in_macro(span),
    {
        0 < span.ctxt && span.ctxt <= self.expansions.len()
    }

    /// The call site of the innermost expansion of macro `name` in the
    /// backtrace of `span`.
    pub fn expn_of(&self, span: Span, name: &str) -> (r: Option<Span>)
        ensures
            r == self.spec_expn_of(span, name@),
    {
        let wanted = name.to_owned();
        let mut cur = span;
        loop
            invariant
                wanted@ == name@,
                self.spec_expn_of(cur, name@) == self.spec_expn_of(span, name@),
            decreases cur.ctxt,
        {
            if !(0 < cur.ctxt && cur.ctxt <= self.expansions.len()) {
                return None;
            }
            let info = &self.expansions[cur.ctxt - 1];
            if info.macro_name == wanted {
                return Some(info.call_site);
            }
            if info.call_site.ctxt < cur.ctxt {
                cur = info.call_site;
            } else {
                return None;
            }
        }
    }

    /// The verbatim source text under `span`, if it can be had.
    pub fn snippet(&self, span: Span) -> (r: Option<&str>)
        ensures
            match r {
                None => self.spec_snippet(span) is None,
                Some(s) => self.spec_snippet(span) == Some(s@),
            },
    {
        let src = self.text.as_str();
        proof {
            encode_utf8_valid_utf8(src@);
        }
        if span.lo <= span.hi && src.is_char_boundary(span.lo) && src.is_char_boundary(span.hi) {
            let (head, _) = src.split_at(span.hi);
            proof {
                assert(head.spec_bytes() == src.spec_bytes().subrange(0, span.hi as int));
                let sb = src.spec_bytes();
                let hb = head.spec_bytes();
                valid_utf8_split(sb, span.hi as int);
                is_char_boundary_start_end_of_seq(hb);
                if span.lo < span.hi {
                    is_char_boundary_iff_not_is_continuation_byte(sb, span.lo as int);
                    is_char_boundary_iff_not_is_continuation_byte(hb, span.lo as int);
                }
                assert(is_char_boundary(hb, span.lo as int));
            }
            let (_, mid) = head.split_at(span.lo);
            proof {
                assert(mid.spec_bytes() =~= src.spec_bytes().subrange(span.lo as int, span.hi as int));
                encode_utf8_decode_utf8(mid@);
            }
            Some(mid)
        } else {
            None
        }
    }
}

} // verus!
