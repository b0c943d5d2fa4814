use nopanic::ast::{AstPath, Attr, Block, Decl, DeclKind, Expr, MarkerRequest, Stmt};
use nopanic::diag::{Level, Lint};
use nopanic::lint::{check_block, path_is_panic_entry, should_check, NoPanicPass, NoPanicVisitor};
use nopanic::nopanic_modifier;

fn path(segments: &[&str]) -> AstPath {
    AstPath { segments: segments.iter().map(|s| s.to_string()).collect() }
}

fn call_to(segments: &[&str], span: u64) -> Expr {
    Expr::Call {
        span,
        callee: Box::new(Expr::PathRef { span: span + 1000, path: path(segments) }),
        args: Vec::new(),
    }
}

fn body_of(stmts: Vec<Stmt>) -> Block {
    Block { span: 1, stmts }
}

fn expr_body(e: Expr) -> Block {
    body_of(vec![Stmt::ExprStmt { span: 2, expr: e }])
}

fn decl(kind: DeclKind, body: Option<Block>) -> Decl {
    Decl { kind, attrs: Vec::new(), body, span: 7 }
}

fn word_request() -> MarkerRequest {
    MarkerRequest { span: 3, has_args: false }
}

fn count_markers(d: &Decl) -> usize {
    d.attrs.iter().filter(|a| a.name == "_nopanic_lint" && !a.has_args).count()
}

#[test]
fn marker_stamps_free_function() {
    let d = decl(DeclKind::FreeFn, Some(body_of(Vec::new())));
    let (marked, diags) = nopanic_modifier(&word_request(), d);
    assert!(diags.is_empty());
    assert_eq!(marked.attrs.len(), 2);
    assert_eq!(count_markers(&marked), 1);
    assert_eq!(marked.attrs[0].name, "_nopanic_lint");
    assert!(!marked.attrs[0].has_args);
    assert_eq!(marked.attrs[1].name, "allow");
    assert!(marked.attrs[1].has_args);
    assert!(should_check(&marked.attrs));
}

#[test]
fn marker_stamps_method_and_trait_method() {
    for kind in [DeclKind::InherentMethod, DeclKind::TraitMethodWithBody] {
        let d = decl(kind, Some(body_of(Vec::new())));
        let (marked, diags) = nopanic_modifier(&word_request(), d);
        assert!(diags.is_empty());
        assert_eq!(count_markers(&marked), 1);
    }
}

#[test]
fn request_with_arguments_is_rejected() {
    let d = decl(DeclKind::FreeFn, Some(body_of(Vec::new())));
    let request = MarkerRequest { span: 42, has_args: true };
    let (out, diags) = nopanic_modifier(&request, d);
    assert_eq!(diags.len(), 1);
    assert!(matches!(diags[0].lint, Lint::NopanicUsage));
    assert_eq!(diags[0].span, 42);
    assert_eq!(diags[0].message, "#[nopanic] does not have arguments or values");
    assert_eq!(out.attrs.len(), 0);
    assert_eq!(count_markers(&out), 0);
    assert!(!should_check(&out.attrs));
}

#[test]
fn illegal_placement_is_rejected() {
    let d = decl(DeclKind::OtherItem, None);
    let (out, diags) = nopanic_modifier(&word_request(), d);
    assert_eq!(diags.len(), 1);
    assert!(matches!(diags[0].lint, Lint::NopanicUsage));
    assert_eq!(diags[0].span, 7);
    assert_eq!(diags[0].message, "#[nopanic] attribute may only be used for functions and methods");
    assert_eq!(count_markers(&out), 0);
}

#[test]
fn bodyless_trait_method_is_rejected() {
    let d = decl(DeclKind::TraitMethodWithoutBody, None);
    let (out, diags) = nopanic_modifier(&word_request(), d);
    assert_eq!(diags.len(), 1);
    assert!(matches!(diags[0].lint, Lint::NopanicUsage));
    assert_eq!(diags[0].message, "#[nopanic] on trait methods requires a block");
    assert_eq!(count_markers(&out), 0);
}

#[test]
fn unmarked_declaration_is_skipped() {
    let body = expr_body(call_to(&["std", "rt", "begin_unwind"], 10));
    let d = decl(DeclKind::FreeFn, Some(body));
    let pass = NoPanicPass;
    let diags = pass.check_item(&d);
    assert!(diags.is_empty());
}

#[test]
fn direct_call_is_detected() {
    let body = expr_body(call_to(&["std", "rt", "begin_unwind"], 10));
    let (marked, _) = nopanic_modifier(&word_request(), decl(DeclKind::FreeFn, Some(body)));
    let pass = NoPanicPass;
    let diags = pass.check_item(&marked);
    assert_eq!(diags.len(), 1);
    assert!(matches!(diags[0].lint, Lint::NopanicLint));
    assert_eq!(diags[0].span, 10);
    assert_eq!(diags[0].message, "this expression could cause a panic!");
}

#[test]
fn all_three_entry_points_are_detected() {
    for leaf in ["begin_unwind", "begin_unwind_fmt", "rust_begin_unwind"] {
        let diags = check_block(&expr_body(call_to(&["std", "rt", leaf], 20)));
        assert_eq!(diags.len(), 1);
        assert_eq!(diags[0].span, 20);
    }
}

#[test]
fn clean_calls_yield_no_findings() {
    // Wrong namespace, wrong leaf, wrong segment count: none is a match.
    for segs in [
        &["foo", "rt", "begin_unwind"][..],
        &["std", "io", "begin_unwind"][..],
        &["std", "rt", "println"][..],
        &["std", "begin_unwind"][..],
        &["std", "rt", "begin_unwind", "extra"][..],
    ] {
        let diags = check_block(&expr_body(call_to(segs, 30)));
        assert!(diags.is_empty(), "unexpected finding for {:?}", segs);
    }
}

#[test]
fn computed_callee_is_not_matched() {
    // A call through anything but a bare path reference is not this
    // analysis's concern, even when a panic could be reached through it.
    let computed = Expr::Call {
        span: 31,
        callee: Box::new(Expr::Lit { span: 32 }),
        args: Vec::new(),
    };
    assert!(check_block(&expr_body(computed)).is_empty());
    let method = Expr::MethodCall {
        span: 33,
        receiver: Box::new(Expr::Lit { span: 34 }),
        args: Vec::new(),
    };
    assert!(check_block(&expr_body(method)).is_empty());
}

#[test]
fn nested_call_in_dead_branch_is_still_found() {
    // if false { std::rt::begin_unwind() } — reachability is not consulted.
    let nested = Expr::If {
        span: 40,
        cond: Box::new(Expr::Lit { span: 41 }),
        then_branch: expr_body(call_to(&["std", "rt", "begin_unwind"], 42)),
        else_branch: None,
    };
    let diags = check_block(&expr_body(nested));
    assert_eq!(diags.len(), 1);
    assert_eq!(diags[0].span, 42);
}

#[test]
fn nested_call_in_loop_and_closure_is_found() {
    let in_loop = Expr::Loop { span: 50, body: expr_body(call_to(&["std", "rt", "begin_unwind"], 51)) };
    let diags = check_block(&expr_body(in_loop));
    assert_eq!(diags.len(), 1);
    assert_eq!(diags[0].span, 51);

    let in_closure = Expr::Closure {
        span: 52,
        body_expr: Box::new(call_to(&["std", "rt", "begin_unwind_fmt"], 53)),
    };
    let diags = check_block(&expr_body(in_closure));
    assert_eq!(diags.len(), 1);
    assert_eq!(diags[0].span, 53);
}

#[test]
fn nested_call_in_argument_is_found() {
    // The offending call hides inside the arguments of a harmless call.
    let outer = Expr::Call {
        span: 60,
        callee: Box::new(Expr::PathRef { span: 61, path: path(&["a", "b", "c"]) }),
        args: vec![call_to(&["std", "rt", "rust_begin_unwind"], 62)],
    };
    let diags = check_block(&expr_body(outer));
    assert_eq!(diags.len(), 1);
    assert_eq!(diags[0].span, 62);
}

#[test]
fn two_sites_yield_two_findings_in_preorder() {
    let b = body_of(vec![
        Stmt::ExprStmt { span: 70, expr: call_to(&["std", "rt", "begin_unwind"], 71) },
        Stmt::ExprStmt { span: 72, expr: call_to(&["std", "rt", "begin_unwind_fmt"], 73) },
    ]);
    let diags = check_block(&b);
    assert_eq!(diags.len(), 2);
    assert_eq!(diags[0].span, 71);
    assert_eq!(diags[1].span, 73);
}

#[test]
fn desugared_division_reports_at_division_site() {
    // let a = 0; 3 / a; — the host surfaces the division's failure path as a
    // call to the runtime's unwind-begin entry at the division's location.
    let b = body_of(vec![
        Stmt::LetStmt { span: 80, init: Some(Box::new(Expr::Lit { span: 81 })) },
        Stmt::ExprStmt { span: 82, expr: call_to(&["std", "rt", "begin_unwind"], 83) },
    ]);
    let (marked, diags) = nopanic_modifier(&word_request(), decl(DeclKind::FreeFn, Some(b)));
    assert!(diags.is_empty());
    let pass = NoPanicPass;
    let found = pass.check_item(&marked);
    assert_eq!(found.len(), 1);
    assert_eq!(found[0].span, 83);
    assert!(matches!(found[0].lint, Lint::NopanicLint));
}

#[test]
fn empty_bodies_are_clean_across_kinds() {
    let pass = NoPanicPass;

    let (f, _) = nopanic_modifier(&word_request(), decl(DeclKind::FreeFn, Some(body_of(Vec::new()))));
    assert!(pass.check_item(&f).is_empty());

    let (m, _) = nopanic_modifier(
        &word_request(),
        decl(DeclKind::InherentMethod, Some(body_of(Vec::new()))),
    );
    assert!(pass.check_impl_item(&m).is_empty());

    let (t, _) = nopanic_modifier(
        &word_request(),
        decl(DeclKind::TraitMethodWithBody, Some(body_of(Vec::new()))),
    );
    assert!(pass.check_trait_item(&t).is_empty());
}

#[test]
fn marker_attribute_must_be_a_word() {
    // The internal marker is matched as a presence-only word: the same name
    // written with arguments does not count.
    let attrs = vec![Attr { name: "_nopanic_lint".to_string(), has_args: true }];
    assert!(!should_check(&attrs));
    let attrs = vec![Attr { name: "_nopanic_lint".to_string(), has_args: false }];
    assert!(should_check(&attrs));
    let attrs = vec![Attr { name: "inline".to_string(), has_args: false }];
    assert!(!should_check(&attrs));
}

#[test]
fn entry_point_paths_are_recognized() {
    assert!(path_is_panic_entry(&path(&["std", "rt", "begin_unwind"])));
    assert!(path_is_panic_entry(&path(&["std", "rt", "begin_unwind_fmt"])));
    assert!(path_is_panic_entry(&path(&["std", "rt", "rust_begin_unwind"])));
    assert!(!path_is_panic_entry(&path(&["std", "rt"])));
    assert!(!path_is_panic_entry(&path(&["core", "rt", "begin_unwind"])));
}

#[test]
fn declared_lints_carry_levels_and_descriptions() {
    let pass = NoPanicPass;
    let lints = pass.get_lints();
    assert_eq!(lints.len(), 2);
    assert!(matches!(lints[0].lint, Lint::NopanicLint));
    assert!(matches!(lints[0].level, Level::Deny));
    assert_eq!(lints[0].description, "prevent a function or method from panicking");
    assert!(matches!(lints[1].lint, Lint::NopanicUsage));
    assert!(matches!(lints[1].level, Level::Forbid));
    assert_eq!(lints[1].description, "incorrect usage of #[nopanic] attribute");
}

#[test]
fn visitor_appends_to_existing_reports() {
    let mut visitor = NoPanicVisitor { diags: Vec::new() };
    visitor.visit_expr(&call_to(&["std", "rt", "begin_unwind"], 90));
    visitor.visit_expr(&call_to(&["std", "rt", "begin_unwind"], 91));
    assert_eq!(visitor.diags.len(), 2);
    assert_eq!(visitor.diags[0].span, 90);
    assert_eq!(visitor.diags[1].span, 91);
}
