//! The checker pass: for every declaration that carries the internal marker,
//! walk its whole body tree and report each direct call to a panic entry
//! point, in pre-order, without modifying the body.

use vstd::prelude::*;
use crate::ast::{
    AstPath, Attr, Block, Decl, Expr, Span, Stmt,
};
use crate::ast::{
    block_findings, decl_wf, expr_findings, exprs_findings, has_internal_marker,
    internal_marker_name, is_internal_marker, is_panic_call, is_panic_entry, opt_expr_findings,
    path_names, stmt_findings, stmts_findings,
};
use crate::diag::{
    Diagnostic, Level, Lint, LintDecl,
};
use crate::diag::{
    appended_findings, lemma_appended_push, lemma_appended_refl, lemma_appended_trans,
};

verus! {

/// Whether an annotation list carries the internal marker, as a word.
///
/// Presence of the name alone decides. Known gap, kept deliberately: a
/// declaration that acquired the internal marker without passing the marker
/// pass is checked as if it had been validated.
pub fn should_check(attrs: &Vec<Attr>) -> (r: bool)
    ensures
        r == has_internal_marker(attrs@),
{
    let key = String::from_str("_nopanic_lint");
    let mut i: usize = 0;
    while i < attrs.len()
        invariant
            i <= attrs.len(),
            key@ == internal_marker_name(),
            forall|j: int| 0 <= j < i ==> !is_internal_marker(attrs@[j]),
        decreases attrs.len() - i,
    {
        if !attrs[i].has_args && attrs[i].name == key {
            assert(is_internal_marker(attrs@[i as int]));
            return true;
        }
        i = i + 1;
    }
    false
}

/// Whether a path is a direct reference to one of the fixed panic entry
/// points of the runtime.
pub fn path_is_panic_entry(p: &AstPath) -> (r: bool)
    ensures
        r == is_panic_entry(path_names(*p)),
{
    if p.segments.len() != 3 {
        return false;
    }
    let ns = String::from_str("std");
    let sub = String::from_str("rt");
    let leaf_a = String::from_str("begin_unwind");
    let leaf_b = String::from_str("begin_unwind_fmt");
    let leaf_c = String::from_str("rust_begin_unwind");
    p.segments[0] == ns && p.segments[1] == sub && (p.segments[2] == leaf_a || p.segments[2]
        == leaf_b || p.segments[2] == leaf_c)
}

/// The body walker: carries the reports collected so far and appends one
/// possible-panic report per matching call site it encounters.
pub struct NoPanicVisitor {
    pub diags: Vec<Diagnostic>,
}

impl NoPanicVisitor {
    /// Visit an expression: report it if it is a matching call, then descend
    /// into every child, left to right.
    pub fn visit_expr(&mut self, e: &Expr)
        ensures
            appended_findings(old(self).diags@, final(self).diags@, expr_findings(*e)),
        decreases *e, 0int,
    {
        match e {
            Expr::Lit { .. } => {
                proof {
                    lemma_appended_refl(self.diags@);
                }
            },
            Expr::PathRef { .. } => {
                proof {
                    lemma_appended_refl(self.diags@);
                }
            },
            Expr::Call { span, callee, args } => {
                let ghost d0 = self.diags@;
                let matched = match &**callee {
                    Expr::PathRef { path, .. } => path_is_panic_entry(path),
                    _ => false,
                };
                let ghost here: Seq<Span> = if matched {
                    seq![*span]
                } else {
                    Seq::empty()
                };
                proof {
                    assert(matched == is_panic_call(*e));
                    lemma_appended_refl(d0);
                }
                if matched {
                    let message = String::from_str("this expression could cause a panic!");
                    let report = Diagnostic { lint: Lint::NopanicLint, span: *span, message };
                    proof {
                        lemma_appended_push(d0, d0, Seq::empty(), report, *span);
                        assert(Seq::<Span>::empty().push(*span) =~= here);
                    }
                    self.diags.push(report);
                }
                let ghost d1 = self.diags@;
                self.visit_expr(&**callee);
                let ghost d2 = self.diags@;
                self.visit_exprs_from(args, 0);
                proof {
                    lemma_appended_trans(d0, d1, d2, here, expr_findings(**callee));
                    assert(args@.skip(0) =~= args@);
                    lemma_appended_trans(
                        d0,
                        d2,
                        self.diags@,
                        here + expr_findings(**callee),
                        exprs_findings(args@),
                    );
                }
            },
            Expr::MethodCall { receiver, args, .. } => {
                let ghost d0 = self.diags@;
                self.visit_expr(&**receiver);
                let ghost d1 = self.diags@;
                self.visit_exprs_from(args, 0);
                proof {
                    assert(args@.skip(0) =~= args@);
                    lemma_appended_trans(
                        d0,
                        d1,
                        self.diags@,
                        expr_findings(**receiver),
                        exprs_findings(args@),
                    );
                }
            },
            Expr::Unary { operand, .. } => {
                self.visit_expr(&**operand);
            },
            Expr::Binary { left, right, .. } => {
                let ghost d0 = self.diags@;
                self.visit_expr(&**left);
                let ghost d1 = self.diags@;
                self.visit_expr(&**right);
                proof {
                    lemma_appended_trans(
                        d0,
                        d1,
                        self.diags@,
                        expr_findings(**left),
                        expr_findings(**right),
                    );
                }
            },
            Expr::If { cond, then_branch, else_branch, .. } => {
                let ghost d0 = self.diags@;
                self.visit_expr(&**cond);
                let ghost d1 = self.diags@;
                self.visit_block(then_branch);
                let ghost d2 = self.diags@;
                match else_branch {
                    Option::Some(alt) => {
                        self.visit_expr(&**alt);
                    },
                    Option::None => {
                        proof {
                            lemma_appended_refl(self.diags@);
                        }
                    },
                }
                proof {
                    lemma_appended_trans(
                        d0,
                        d1,
                        d2,
                        expr_findings(**cond),
                        block_findings(*then_branch),
                    );
                    lemma_appended_trans(
                        d0,
                        d2,
                        self.diags@,
                        expr_findings(**cond) + block_findings(*then_branch),
                        opt_expr_findings(*else_branch),
                    );
                }
            },
            Expr::While { cond, body, .. } => {
                let ghost d0 = self.diags@;
                self.visit_expr(&**cond);
                let ghost d1 = self.diags@;
                self.visit_block(body);
                proof {
                    lemma_appended_trans(
                        d0,
                        d1,
                        self.diags@,
                        expr_findings(**cond),
                        block_findings(*body),
                    );
                }
            },
            Expr::Loop { body, .. } => {
                self.visit_block(body);
            },
            Expr::Closure { body_expr, .. } => {
                self.visit_expr(&**body_expr);
            },
            Expr::BlockExpr { block, .. } => {
                self.visit_block(block);
            },
        }
    }

    /// Visit the expressions of a list from position `i` on, left to right.
    pub fn visit_exprs_from(&mut self, es: &Vec<Expr>, i: usize)
        requires
            i <= es.len(),
        ensures
            appended_findings(old(self).diags@, final(self).diags@, exprs_findings(es@.skip(i as int))),
        decreases es@, es@.len() - i,
    {
        if i < es.len() {
            let ghost d0 = self.diags@;
            self.visit_expr(&es[i]);
            let ghost d1 = self.diags@;
            self.visit_exprs_from(es, i + 1);
            proof {
                lemma_appended_trans(
                    d0,
                    d1,
                    self.diags@,
                    expr_findings(es@[i as int]),
                    exprs_findings(es@.skip(i as int + 1)),
                );
                assert(es@.skip(i as int).drop_first() =~= es@.skip(i as int + 1));
                assert(es@.skip(i as int)[0] == es@[i as int]);
            }
        } else {
            proof {
                assert(es@.skip(i as int) =~= Seq::<Expr>::empty());
                lemma_appended_refl(self.diags@);
            }
        }
    }

    /// Visit a statement: descend into its expressions.
    pub fn visit_stmt(&mut self, s: &Stmt)
        ensures
            appended_findings(old(self).diags@, final(self).diags@, stmt_findings(*s)),
        decreases *s, 0int,
    {
        match s {
            Stmt::LetStmt { init, .. } => {
                match init {
                    Option::Some(e) => {
                        self.visit_expr(&**e);
                    },
                    Option::None => {
                        proof {
                            lemma_appended_refl(self.diags@);
                        }
                    },
                }
            },
            Stmt::ExprStmt { expr, .. } => {
                self.visit_expr(expr);
            },
        }
    }

    /// Visit the statements of a list from position `i` on, left to right.
    pub fn visit_stmts_from(&mut self, ss: &Vec<Stmt>, i: usize)
        requires
            i <= ss.len(),
        ensures
            appended_findings(old(self).diags@, final(self).diags@, stmts_findings(ss@.skip(i as int))),
        decreases ss@, ss@.len() - i,
    {
        if i < ss.len() {
            let ghost d0 = self.diags@;
            self.visit_stmt(&ss[i]);
            let ghost d1 = self.diags@;
            self.visit_stmts_from(ss, i + 1);
            proof {
                lemma_appended_trans(
                    d0,
                    d1,
                    self.diags@,
                    stmt_findings(ss@[i as int]),
                    stmts_findings(ss@.skip(i as int + 1)),
                );
                assert(ss@.skip(i as int).drop_first() =~= ss@.skip(i as int + 1));
                assert(ss@.skip(i as int)[0] == ss@[i as int]);
            }
        } else {
            proof {
                assert(ss@.skip(i as int) =~= Seq::<Stmt>::empty());
                lemma_appended_refl(self.diags@);
            }
        }
    }

    /// Visit a whole body block.
    pub fn visit_block(&mut self, b: &Block)
        ensures
            appended_findings(old(self).diags@, final(self).diags@, block_findings(*b)),
        decreases *b, 0int,
    {
        self.visit_stmts_from(&b.stmts, 0);
        proof {
            assert(b.stmts@.skip(0) =~= b.stmts@);
        }
    }
}

/// Walk one body with a fresh walker and return its reports: one
/// possible-panic diagnostic per matching call site, in pre-order.
pub fn check_block(b: &Block) -> (r: Vec<Diagnostic>)
    ensures
        appended_findings(Seq::empty(), r@, block_findings(*b)),
{
    let mut visitor = NoPanicVisitor { diags: Vec::new() };
    visitor.visit_block(b);
    visitor.diags
}

/// The checking pass the host runs over every declaration once the marker
/// pass is done. It is stateless: each declaration is checked independently.
pub struct NoPanicPass;

impl NoPanicPass {
    /// The two report categories this pass declares, with their default
    /// severities.
    pub fn get_lints(&self) -> (r: Vec<LintDecl>)
        ensures
            r@.len() == 2,
            r@[0].lint is NopanicLint,
            r@[0].level is Deny,
            r@[0].description@ == "prevent a function or method from panicking"@,
            r@[1].lint is NopanicUsage,
            r@[1].level is Forbid,
            r@[1].description@ == "incorrect usage of #[nopanic] attribute"@,
    {
        let mut lints: Vec<LintDecl> = Vec::new();
        lints.push(
            LintDecl {
                lint: Lint::NopanicLint,
                level: Level::Deny,
                description: String::from_str("prevent a function or method from panicking"),
            },
        );
        lints.push(
            LintDecl {
                lint: Lint::NopanicUsage,
                level: Level::Forbid,
                description: String::from_str("incorrect usage of #[nopanic] attribute"),
            },
        );
        lints
    }

    /// Check a top-level item. Unmarked declarations are skipped without any
    /// traversal; a marked one here can only be a free function, since the
    /// marker pass refuses every other item kind.
    pub fn check_item(&self, decl: &Decl) -> (r: Vec<Diagnostic>)
        requires
            decl_wf(*decl),
            has_internal_marker(decl.attrs@) ==> decl.kind is FreeFn,
        ensures
            !has_internal_marker(decl.attrs@) ==> r@.len() == 0,
            has_internal_marker(decl.attrs@) ==> decl.body is Some,
            has_internal_marker(decl.attrs@) ==> appended_findings(
                Seq::empty(),
                r@,
                block_findings(decl.body->0),
            ),
    {
        if !should_check(&decl.attrs) {
            return Vec::new();
        }
        match &decl.body {
            Option::Some(b) => check_block(b),
            Option::None => {
                proof {
                    assert(false);
                }
                Vec::new()
            },
        }
    }

    /// Check an item of an inherent impl. A marked one can only be a method,
    /// since the marker pass refuses every other impl-item kind.
    pub fn check_impl_item(&self, decl: &Decl) -> (r: Vec<Diagnostic>)
        requires
            decl_wf(*decl),
            has_internal_marker(decl.attrs@) ==> decl.kind is InherentMethod,
        ensures
            !has_internal_marker(decl.attrs@) ==> r@.len() == 0,
            has_internal_marker(decl.attrs@) ==> decl.body is Some,
            has_internal_marker(decl.attrs@) ==> appended_findings(
                Seq::empty(),
                r@,
                block_findings(decl.body->0),
            ),
    {
        if !should_check(&decl.attrs) {
            return Vec::new();
        }
        match &decl.body {
            Option::Some(b) => check_block(b),
            Option::None => {
                proof {
                    assert(false);
                }
                Vec::new()
            },
        }
    }

    /// Check a trait item. A marked one can only be a method with a default
    /// body: the marker pass refuses a bodyless trait method, so meeting one
    /// here would be an internal-consistency violation, left out by the
    /// precondition.
    pub fn check_trait_item(&self, decl: &Decl) -> (r: Vec<Diagnostic>)
        requires
            decl_wf(*decl),
            has_internal_marker(decl.attrs@) ==> decl.kind is TraitMethodWithBody,
        ensures
            !has_internal_marker(decl.attrs@) ==> r@.len() == 0,
            has_internal_marker(decl.attrs@) ==> decl.body is Some,
            has_internal_marker(decl.attrs@) ==> appended_findings(
                Seq::empty(),
                r@,
                block_findings(decl.body->0),
            ),
    {
        if !should_check(&decl.attrs) {
            return Vec::new();
        }
        match &decl.body {
            Option::Some(b) => check_block(b),
            Option::None => {
                proof {
                    assert(false);
                }
                Vec::new()
            },
        }
    }
}

/// A direct call to a panic entry point is found, and found once: a matching
/// call whose arguments contain no further matching call yields exactly one
/// finding, located at the call expression itself.
pub proof fn lemma_detection(e: Expr)
    requires
        is_panic_call(e),
        exprs_findings(e->Call_args@) == Seq::<Span>::empty(),
    ensures
        expr_findings(e) == seq![e->Call_span],
{
    assert(expr_findings(*e->Call_callee) == Seq::<Span>::empty());
    assert(expr_findings(e) =~= seq![e->Call_span]);
}

/// An empty body yields no findings.
pub proof fn lemma_empty_body_clean(b: Block)
    requires
        b.stmts@.len() == 0,
    ensures
        block_findings(b) == Seq::<Span>::empty(),
{
}

/// A call whose callee is not a bare reference to a panic entry point — a
/// call to some other path, a computed callee — contributes no finding at
/// its own site: only its callee and its arguments are searched.
pub proof fn lemma_unmatched_call_site(e: Expr)
    requires
        e is Call,
        !is_panic_call(e),
    ensures
        expr_findings(e) == expr_findings(*e->Call_callee) + exprs_findings(e->Call_args@),
{
    assert(expr_findings(e) =~= expr_findings(*e->Call_callee) + exprs_findings(e->Call_args@));
}

/// The descent is unconditional, not reachability-aware: a conditional with
/// a finding-free condition and no else-branch reports exactly what its
/// branch contains, whether or not the branch could ever run.
pub proof fn lemma_nested_in_branch(e: Expr)
    requires
        e is If,
        expr_findings(*e->If_cond) == Seq::<Span>::empty(),
        e->If_else_branch is None,
    ensures
        expr_findings(e) == block_findings(e->If_then_branch),
{
    assert(expr_findings(e) == expr_findings(*e->If_cond) + block_findings(e->If_then_branch)
        + opt_expr_findings(e->If_else_branch));
    assert(opt_expr_findings(e->If_else_branch) == Seq::<Span>::empty());
    assert(expr_findings(e) =~= block_findings(e->If_then_branch));
}

/// A finding nested in a loop body is still reported.
pub proof fn lemma_nested_in_loop(e: Expr)
    requires
        e is Loop,
    ensures
        expr_findings(e) == block_findings(e->Loop_body),
{
}

/// A finding nested in a closure body is still reported.
pub proof fn lemma_nested_in_closure(e: Expr)
    requires
        e is Closure,
    ensures
        expr_findings(e) == expr_findings(*e->Closure_body_expr),
{
}

/// Two distinct matching sites yield two findings, in pre-order: a body of
/// two statements with one finding each reports the first statement's site
/// before the second's.
pub proof fn lemma_two_sites(b: Block, s1: Span, s2: Span)
    requires
        b.stmts@.len() == 2,
        stmt_findings(b.stmts@[0]) == seq![s1],
        stmt_findings(b.stmts@[1]) == seq![s2],
    ensures
        block_findings(b) == seq![s1, s2],
{
    let ss = b.stmts@;
    assert(ss.drop_first()[0] == ss[1]);
    assert(ss.drop_first().drop_first() =~= Seq::<Stmt>::empty());
    assert(stmts_findings(ss.drop_first().drop_first()) == Seq::<Span>::empty());
    assert(block_findings(b) =~= seq![s1, s2]);
}

} // verus!
