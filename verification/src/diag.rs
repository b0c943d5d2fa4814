//! Diagnostics: the two report categories the analysis declares, their
//! default severities, and the shape of an emitted report.

use vstd::prelude::*;
use crate::ast::Span;

verus! {

/// The two report categories.
pub enum Lint {
    /// A checked body contains an expression that could begin a panic.
    NopanicLint,
    /// The user-facing marker was misused.
    NopanicUsage,
}

/// A severity level for a category.
pub enum Level {
    /// The build fails; the level may be overridden by the host.
    Deny,
    /// The build fails; the level cannot be downgraded.
    Forbid,
}

/// One report: a category, the location it points at, and its message.
pub struct Diagnostic {
    pub lint: Lint,
    pub span: Span,
    pub message: String,
}

/// A category declaration handed to the host: the category, its default
/// severity, and its description.
pub struct LintDecl {
    pub lint: Lint,
    pub level: Level,
    pub description: String,
}

/// The fixed message reported at each possible-panic call site.
pub open spec fn panic_message() -> Seq<char> {
    "this expression could cause a panic!"@
}

/// The message for a marker request written with arguments or values.
pub open spec fn misuse_args_message() -> Seq<char> {
    "#[nopanic] does not have arguments or values"@
}

/// The message for a marker request on a declaration that is not a function
/// or a method.
pub open spec fn misuse_placement_message() -> Seq<char> {
    "#[nopanic] attribute may only be used for functions and methods"@
}

/// The message for a marker request on a trait method without a body.
pub open spec fn misuse_trait_body_message() -> Seq<char> {
    "#[nopanic] on trait methods requires a block"@
}

/// Whether a diagnostic is the possible-panic report at a given location.
pub open spec fn is_panic_diag(d: Diagnostic, s: Span) -> bool {
    &&& d.lint is NopanicLint
    &&& d.span == s
    &&& d.message@ == panic_message()
}

/// Whether a diagnostic is a marker-misuse report at a given location with a
/// given message.
pub open spec fn is_usage_diag(d: Diagnostic, s: Span, msg: Seq<char>) -> bool {
    &&& d.lint is NopanicUsage
    &&& d.span == s
    &&& d.message@ == msg
}

/// Whether `post` is `pre` with one possible-panic report appended per
/// location in `found`, in order.
pub open spec fn appended_findings(pre: Seq<Diagnostic>, post: Seq<Diagnostic>, found: Seq<Span>) -> bool {
    &&& post.len() == pre.len() + found.len()
    &&& post.subrange(0, pre.len() as int) == pre
    &&& forall|i: int| 0 <= i < found.len() ==> is_panic_diag(post[pre.len() + i], found[i])
}

/// Appending no reports leaves a diagnostic list unchanged.
pub proof fn lemma_appended_refl(a: Seq<Diagnostic>)
    ensures
        appended_findings(a, a, Seq::empty()),
{
    assert(a.subrange(0, a.len() as int) =~= a);
}

/// Appending one possible-panic report extends the recorded locations by one.
pub proof fn lemma_appended_push(
    pre: Seq<Diagnostic>,
    post: Seq<Diagnostic>,
    found: Seq<Span>,
    d: Diagnostic,
    s: Span,
)
    requires
        appended_findings(pre, post, found),
        is_panic_diag(d, s),
    ensures
        appended_findings(pre, post.push(d), found.push(s)),
{
    assert(post.push(d).subrange(0, pre.len() as int) =~= post.subrange(0, pre.len() as int));
}

/// Two rounds of appending compose: the recorded locations concatenate.
pub proof fn lemma_appended_trans(
    a: Seq<Diagnostic>,
    b: Seq<Diagnostic>,
    c: Seq<Diagnostic>,
    f1: Seq<Span>,
    f2: Seq<Span>,
)
    requires
        appended_findings(a, b, f1),
        appended_findings(b, c, f2),
    ensures
        appended_findings(a, c, f1 + f2),
{
    assert(c.subrange(0, a.len() as int) =~= b.subrange(0, a.len() as int));
    assert forall|i: int| 0 <= i < (f1 + f2).len() implies is_panic_diag(
        c[a.len() + i],
        (f1 + f2)[i],
    ) by {
        if i < f1.len() {
            assert(c[a.len() + i] == c.subrange(0, b.len() as int)[a.len() + i]);
            assert(c.subrange(0, b.len() as int) == b);
            assert(is_panic_diag(b[a.len() + i], f1[i]));
        } else {
            assert(is_panic_diag(c[b.len() + (i - f1.len())], f2[i - f1.len()]));
        }
    }
}

} // verus!
