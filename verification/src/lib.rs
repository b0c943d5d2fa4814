//! A `#[nopanic]` analysis: a marker pass that validates the user-facing
//! attribute and stamps legal declarations with an internal marker, and a
//! checker pass that walks the body of every marked declaration and reports
//! each direct call to one of the fixed panic entry points of the runtime.

pub mod ast;
pub mod diag;
pub mod lint;

use vstd::prelude::*;
use crate::ast::{Attr, Decl, DeclKind, MarkerRequest};
use crate::ast::{
    count_internal_markers, decl_wf, function_like, has_internal_marker, is_internal_marker,
    is_suppression,
};
use crate::diag::{Diagnostic, Lint};
use crate::diag::{
    is_usage_diag, misuse_args_message, misuse_placement_message, misuse_trait_body_message,
};

verus! {

/// Whether `marked` is `d` with the marker pass's two annotations appended:
/// the internal marker, then the suppression that keeps the host from warning
/// that the internal marker looks unused. Everything else is unchanged.
pub open spec fn marks(d: Decl, marked: Decl) -> bool {
    &&& marked.kind == d.kind
    &&& marked.body == d.body
    &&& marked.span == d.span
    &&& marked.attrs@.len() == d.attrs@.len() + 2
    &&& marked.attrs@.subrange(0, d.attrs@.len() as int) == d.attrs@
    &&& is_internal_marker(marked.attrs@[d.attrs@.len() as int])
    &&& is_suppression(marked.attrs@[d.attrs@.len() as int + 1])
}

/// What the marker pass does with one request on one declaration: a request
/// with arguments is a usage error reported at the request; an argument-free
/// request on a function-like declaration marks it; on a bodyless trait
/// method or any other item kind it is a usage error reported at the
/// declaration. A rejected declaration comes back unmodified.
pub open spec fn modifier_rel(
    request: MarkerRequest,
    d: Decl,
    out: Decl,
    diags: Seq<Diagnostic>,
) -> bool {
    if request.has_args {
        &&& out == d
        &&& diags.len() == 1
        &&& is_usage_diag(diags[0], request.span, misuse_args_message())
    } else if function_like(d.kind) {
        &&& marks(d, out)
        &&& diags.len() == 0
    } else if d.kind is TraitMethodWithoutBody {
        &&& out == d
        &&& diags.len() == 1
        &&& is_usage_diag(diags[0], d.span, misuse_trait_body_message())
    } else {
        &&& out == d
        &&& diags.len() == 1
        &&& is_usage_diag(diags[0], d.span, misuse_placement_message())
    }
}

/// The marker pass. It validates the request's shape and the declaration's
/// kind from their immediate shape alone — it never looks into the body —
/// and either stamps the declaration for checking or reports the misuse and
/// passes the declaration through unchanged.
pub fn nopanic_modifier(request: &MarkerRequest, decl: Decl) -> (r: (Decl, Vec<Diagnostic>))
    ensures
        modifier_rel(*request, decl, r.0, r.1@),
        decl_wf(decl) ==> decl_wf(r.0),
{
    if request.has_args {
        let mut diags: Vec<Diagnostic> = Vec::new();
        diags.push(
            Diagnostic {
                lint: Lint::NopanicUsage,
                span: request.span,
                message: String::from_str("#[nopanic] does not have arguments or values"),
            },
        );
        return (decl, diags);
    }
    match decl.kind {
        DeclKind::FreeFn | DeclKind::InherentMethod | DeclKind::TraitMethodWithBody => {
            let ghost attrs0 = decl.attrs@;
            let mut marked = decl;
            marked.attrs.push(
                Attr { name: String::from_str("_nopanic_lint"), has_args: false },
            );
            marked.attrs.push(Attr { name: String::from_str("allow"), has_args: true });
            proof {
                assert(marked.attrs@.subrange(0, attrs0.len() as int) =~= attrs0);
            }
            (marked, Vec::new())
        },
        DeclKind::TraitMethodWithoutBody => {
            let mut diags: Vec<Diagnostic> = Vec::new();
            diags.push(
                Diagnostic {
                    lint: Lint::NopanicUsage,
                    span: decl.span,
                    message: String::from_str("#[nopanic] on trait methods requires a block"),
                },
            );
            (decl, diags)
        },
        DeclKind::OtherItem => {
            let mut diags: Vec<Diagnostic> = Vec::new();
            diags.push(
                Diagnostic {
                    lint: Lint::NopanicUsage,
                    span: decl.span,
                    message: String::from_str(
                        "#[nopanic] attribute may only be used for functions and methods",
                    ),
                },
            );
            (decl, diags)
        },
    }
}

/// Appending one annotation changes the internal-marker count by one exactly
/// when that annotation is the internal marker.
pub proof fn lemma_count_push(attrs: Seq<Attr>, a: Attr)
    ensures
        count_internal_markers(attrs.push(a)) == count_internal_markers(attrs) + (
        if is_internal_marker(a) {
            1int
        } else {
            0int
        }),
{
    assert(attrs.push(a).drop_last() =~= attrs);
    assert(attrs.push(a).last() == a);
}

/// A validated marking stamps the internal marker exactly once: a
/// declaration that carried no internal marker carries, once marked, exactly
/// one occurrence of it.
pub proof fn lemma_single_marker(d: Decl, marked: Decl)
    requires
        marks(d, marked),
        count_internal_markers(d.attrs@) == 0,
    ensures
        count_internal_markers(marked.attrs@) == 1,
        has_internal_marker(marked.attrs@),
{
    let n = d.attrs@.len() as int;
    let stamp = marked.attrs@[n];
    let suppression = marked.attrs@[n + 1];
    assert(marked.attrs@ =~= d.attrs@.push(stamp).push(suppression));
    lemma_count_push(d.attrs@, stamp);
    lemma_count_push(d.attrs@.push(stamp), suppression);
    assert(is_internal_marker(marked.attrs@[n]));
}

/// A marker request carrying any argument, on any declaration kind, is
/// rejected: one misuse report at the request, and the declaration comes
/// back unmodified, so one that carried no internal marker still carries
/// none.
pub proof fn lemma_usage_rejection(
    request: MarkerRequest,
    d: Decl,
    out: Decl,
    diags: Seq<Diagnostic>,
)
    requires
        modifier_rel(request, d, out, diags),
        request.has_args,
        !has_internal_marker(d.attrs@),
    ensures
        out == d,
        !has_internal_marker(out.attrs@),
        diags.len() == 1,
        is_usage_diag(diags[0], request.span, misuse_args_message()),
{
}

/// A legal, argument-free marker request on a declaration that is not
/// function-like is rejected: one misuse report at the declaration, and no
/// internal marker is attached.
pub proof fn lemma_placement_rejection(
    request: MarkerRequest,
    d: Decl,
    out: Decl,
    diags: Seq<Diagnostic>,
)
    requires
        modifier_rel(request, d, out, diags),
        !request.has_args,
        d.kind is OtherItem,
        !has_internal_marker(d.attrs@),
    ensures
        out == d,
        !has_internal_marker(out.attrs@),
        diags.len() == 1,
        is_usage_diag(diags[0], d.span, misuse_placement_message()),
{
}

/// An argument-free marker request on a trait method without a body is
/// rejected with its own message, and no internal marker is attached.
pub proof fn lemma_bodyless_trait_rejection(
    request: MarkerRequest,
    d: Decl,
    out: Decl,
    diags: Seq<Diagnostic>,
)
    requires
        modifier_rel(request, d, out, diags),
        !request.has_args,
        d.kind is TraitMethodWithoutBody,
        !has_internal_marker(d.attrs@),
    ensures
        out == d,
        !has_internal_marker(out.attrs@),
        diags.len() == 1,
        is_usage_diag(diags[0], d.span, misuse_trait_body_message()),
{
}

} // verus!
