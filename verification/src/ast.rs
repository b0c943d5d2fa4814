//! The syntax-tree model the analysis works on: declarations with their
//! annotation lists, and the statement/expression trees of their bodies.
//! Every node carries a source location so diagnostics can point at it.

use vstd::prelude::*;

verus! {

/// A source location, as an opaque position handed out by the host's parser.
pub type Span = u64;

/// A fully resolved path reference: an ordered sequence of segment names.
pub struct AstPath {
    pub segments: Vec<String>,
}

/// An expression node. Every variant records its own location and owns its
/// sub-expressions, so a recursive descent can reach each nested node.
pub enum Expr {
    /// A literal or any other leaf expression without sub-expressions.
    Lit { span: Span },
    /// A direct, unparenthesized reference to a static path.
    PathRef { span: Span, path: AstPath },
    /// A call whose callee is itself an expression.
    Call { span: Span, callee: Box<Expr>, args: Vec<Expr> },
    /// A method call on a receiver expression.
    MethodCall { span: Span, receiver: Box<Expr>, args: Vec<Expr> },
    /// A unary operator applied to an operand.
    Unary { span: Span, operand: Box<Expr> },
    /// A binary operator applied to two operands.
    Binary { span: Span, left: Box<Expr>, right: Box<Expr> },
    /// A conditional with a then-block and an optional else-expression.
    If { span: Span, cond: Box<Expr>, then_branch: Block, else_branch: Option<Box<Expr>> },
    /// A loop with a condition.
    While { span: Span, cond: Box<Expr>, body: Block },
    /// An unconditional loop.
    Loop { span: Span, body: Block },
    /// A closure; its body is an expression.
    Closure { span: Span, body_expr: Box<Expr> },
    /// A block in expression position.
    BlockExpr { span: Span, block: Block },
}

/// A statement node.
pub enum Stmt {
    /// A `let` binding with an optional initializer.
    LetStmt { span: Span, init: Option<Box<Expr>> },
    /// An expression in statement position.
    ExprStmt { span: Span, expr: Expr },
}

/// A body block: an ordered list of statements.
pub struct Block {
    pub span: Span,
    pub stmts: Vec<Stmt>,
}

/// The names of a path's segments, as sequences of characters.
pub open spec fn path_names(p: AstPath) -> Seq<Seq<char>> {
    p.segments@.map_values(|s: String| s@)
}

/// The fixed set of panic entry points: a call target is one exactly when its
/// path has three segments naming one of the runtime's unwind-begin functions.
pub open spec fn is_panic_entry(names: Seq<Seq<char>>) -> bool {
    &&& names.len() == 3
    &&& names[0] == "std"@
    &&& names[1] == "rt"@
    &&& {
        ||| names[2] == "begin_unwind"@
        ||| names[2] == "begin_unwind_fmt"@
        ||| names[2] == "rust_begin_unwind"@
    }
}

/// Whether an expression is a call whose callee is a direct path reference
/// to a panic entry point. Only this shape is matched: a computed callee or
/// a method call is never a match, even if it could reach a panic.
pub open spec fn is_panic_call(e: Expr) -> bool {
    &&& e is Call
    &&& (*e->Call_callee) matches Expr::PathRef { path, .. } && is_panic_entry(path_names(path))
}

/// The locations of every matching call in an expression, in pre-order:
/// the expression itself before its children, children left to right.
pub open spec fn expr_findings(e: Expr) -> Seq<Span>
    decreases e,
{
    let here: Seq<Span> = if is_panic_call(e) {
        seq![e->Call_span]
    } else {
        Seq::empty()
    };
    match e {
        Expr::Lit { .. } => Seq::empty(),
        Expr::PathRef { .. } => Seq::empty(),
        Expr::Call { callee, args, .. } => here + expr_findings(*callee) + exprs_findings(args@),
        Expr::MethodCall { receiver, args, .. } => expr_findings(*receiver) + exprs_findings(args@),
        Expr::Unary { operand, .. } => expr_findings(*operand),
        Expr::Binary { left, right, .. } => expr_findings(*left) + expr_findings(*right),
        Expr::If { cond, then_branch, else_branch, .. } => expr_findings(*cond)
            + block_findings(then_branch) + opt_expr_findings(else_branch),
        Expr::While { cond, body, .. } => expr_findings(*cond) + block_findings(body),
        Expr::Loop { body, .. } => block_findings(body),
        Expr::Closure { body_expr, .. } => expr_findings(*body_expr),
        Expr::BlockExpr { block, .. } => block_findings(block),
    }
}

/// The findings of a sequence of expressions, concatenated left to right.
pub open spec fn exprs_findings(es: Seq<Expr>) -> Seq<Span>
    decreases es,
{
    if es.len() == 0 {
        Seq::empty()
    } else {
        expr_findings(es[0]) + exprs_findings(es.drop_first())
    }
}

/// The findings of an optional trailing expression.
pub open spec fn opt_expr_findings(oe: Option<Box<Expr>>) -> Seq<Span>
    decreases oe,
{
    match oe {
        Option::None => Seq::empty(),
        Option::Some(e) => expr_findings(*e),
    }
}

/// The findings of a statement.
pub open spec fn stmt_findings(s: Stmt) -> Seq<Span>
    decreases s,
{
    match s {
        Stmt::LetStmt { init, .. } => opt_expr_findings(init),
        Stmt::ExprStmt { expr, .. } => expr_findings(expr),
    }
}

/// The findings of a sequence of statements, concatenated left to right.
pub open spec fn stmts_findings(ss: Seq<Stmt>) -> Seq<Span>
    decreases ss,
{
    if ss.len() == 0 {
        Seq::empty()
    } else {
        stmt_findings(ss[0]) + stmts_findings(ss.drop_first())
    }
}

/// The findings of a whole body block.
pub open spec fn block_findings(b: Block) -> Seq<Span>
    decreases b,
{
    stmts_findings(b.stmts@)
}

/// An annotation on a declaration: a name, either standing alone
/// (a presence-only word) or carrying arguments.
pub struct Attr {
    pub name: String,
    pub has_args: bool,
}

/// The kind of a declaration the marker may be asked about.
pub enum DeclKind {
    /// A free function.
    FreeFn,
    /// A method in an inherent impl.
    InherentMethod,
    /// A trait method with a default body.
    TraitMethodWithBody,
    /// A trait method without a body.
    TraitMethodWithoutBody,
    /// Any other item: a struct, an enum, a module, an associated type.
    OtherItem,
}

/// A declaration: its kind, its annotation list in insertion order, its body
/// if it has one, and its source location.
pub struct Decl {
    pub kind: DeclKind,
    pub attrs: Vec<Attr>,
    pub body: Option<Block>,
    pub span: Span,
}

/// The user-facing marker request: presence-only when well used; its shape
/// records whether the request was written with arguments.
pub struct MarkerRequest {
    pub span: Span,
    pub has_args: bool,
}

/// The kinds of declaration the marker may legally be placed on.
pub open spec fn function_like(k: DeclKind) -> bool {
    k is FreeFn || k is InherentMethod || k is TraitMethodWithBody
}

/// A declaration is well formed when it has a body exactly if its kind calls
/// for one.
pub open spec fn decl_wf(d: Decl) -> bool {
    d.body is Some <==> function_like(d.kind)
}

/// The reserved name of the internal marker the marker pass attaches.
pub open spec fn internal_marker_name() -> Seq<char> {
    "_nopanic_lint"@
}

/// Whether an annotation is the internal marker: the reserved name, standing
/// alone as a word.
pub open spec fn is_internal_marker(a: Attr) -> bool {
    a.name@ == internal_marker_name() && !a.has_args
}

/// Whether an annotation is the suppression the marker pass appends so the
/// host does not warn that the internal marker looks unused.
pub open spec fn is_suppression(a: Attr) -> bool {
    a.name@ == "allow"@ && a.has_args
}

/// Whether an annotation list carries the internal marker.
pub open spec fn has_internal_marker(attrs: Seq<Attr>) -> bool {
    exists|i: int| 0 <= i < attrs.len() && is_internal_marker(attrs[i])
}

/// How many annotations in a list are the internal marker.
pub open spec fn count_internal_markers(attrs: Seq<Attr>) -> nat
    decreases attrs,
{
    if attrs.len() == 0 {
        0
    } else {
        count_internal_markers(attrs.drop_last()) + if is_internal_marker(attrs.last()) {
            1nat
        } else {
            0nat
        }
    }
}

} // verus!
