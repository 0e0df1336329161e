//! Whether a syntax tree holds raw C# (`intrinsic` members, blocks or expressions).
//!
//! Raw C# is opaque to the usage scan, so a file that holds any is never pruned of
//! `using` lines.
use vstd::prelude::*;
use crate::ast::{
    Arg, Block, CatchClause, Decl, ElseBranch, Expr, File, FuncBody, LambdaBody, Member,
    PreprocessorArm, Stmt, StringPart, WaitForm, WhenBody, WhenBranch, WhenPattern,
};

verus! {

// ── What "holds raw C#" means ────────────────────────────────────

pub open spec fn stmts_have_intrinsic(s: Seq<Stmt>) -> bool
    decreases s,
{
    s.len() > 0 && (stmt_has_intrinsic(s[0]) || stmts_have_intrinsic(s.subrange(1, s.len() as int)))
}

pub open spec fn block_has_intrinsic(b: Block) -> bool
    decreases b,
{
    stmts_have_intrinsic(b.stmts@)
}

pub open spec fn opt_block_has_intrinsic(o: Option<Block>) -> bool
    decreases o,
{
    match o {
        Some(b) => block_has_intrinsic(b),
        None => false,
    }
}

pub open spec fn exprs_have_intrinsic(s: Seq<Expr>) -> bool
    decreases s,
{
    s.len() > 0 && (expr_has_intrinsic(s[0]) || exprs_have_intrinsic(s.subrange(1, s.len() as int)))
}

pub open spec fn opt_expr_has_intrinsic(o: Option<Expr>) -> bool
    decreases o,
{
    match o {
        Some(e) => expr_has_intrinsic(e),
        None => false,
    }
}

pub open spec fn opt_boxed_expr_has_intrinsic(o: Option<Box<Expr>>) -> bool
    decreases o,
{
    match o {
        Some(e) => expr_has_intrinsic(*e),
        None => false,
    }
}

pub open spec fn part_has_intrinsic(p: StringPart) -> bool
    decreases p,
{
    match p {
        StringPart::Literal(_) => false,
        StringPart::Expr(e) => expr_has_intrinsic(e),
    }
}

pub open spec fn parts_have_intrinsic(s: Seq<StringPart>) -> bool
    decreases s,
{
    s.len() > 0 && (part_has_intrinsic(s[0]) || parts_have_intrinsic(s.subrange(1, s.len() as int)))
}

pub open spec fn arg_has_intrinsic(a: Arg) -> bool
    decreases a,
{
    expr_has_intrinsic(a.value)
}

pub open spec fn args_have_intrinsic(s: Seq<Arg>) -> bool
    decreases s,
{
    s.len() > 0 && (arg_has_intrinsic(s[0]) || args_have_intrinsic(s.subrange(1, s.len() as int)))
}

pub open spec fn pair_has_intrinsic(p: (Expr, Expr)) -> bool
    decreases p,
{
    expr_has_intrinsic(p.0) || expr_has_intrinsic(p.1)
}

pub open spec fn pairs_have_intrinsic(s: Seq<(Expr, Expr)>) -> bool
    decreases s,
{
    s.len() > 0 && (pair_has_intrinsic(s[0]) || pairs_have_intrinsic(s.subrange(1, s.len() as int)))
}

pub open spec fn update_has_intrinsic(u: (String, Expr)) -> bool
    decreases u,
{
    expr_has_intrinsic(u.1)
}

pub open spec fn updates_have_intrinsic(s: Seq<(String, Expr)>) -> bool
    decreases s,
{
    s.len() > 0 && (update_has_intrinsic(s[0]) || updates_have_intrinsic(s.subrange(1, s.len() as int)))
}

pub open spec fn catch_has_intrinsic(c: CatchClause) -> bool
    decreases c,
{
    block_has_intrinsic(c.body)
}

pub open spec fn catches_have_intrinsic(s: Seq<CatchClause>) -> bool
    decreases s,
{
    s.len() > 0 && (catch_has_intrinsic(s[0]) || catches_have_intrinsic(s.subrange(1, s.len() as int)))
}

pub open spec fn arm_has_intrinsic(a: PreprocessorArm) -> bool
    decreases a,
{
    stmts_have_intrinsic(a.body@)
}

pub open spec fn arms_have_intrinsic(s: Seq<PreprocessorArm>) -> bool
    decreases s,
{
    s.len() > 0 && (arm_has_intrinsic(s[0]) || arms_have_intrinsic(s.subrange(1, s.len() as int)))
}

pub open spec fn branches_have_intrinsic(s: Seq<WhenBranch>) -> bool
    decreases s,
{
    s.len() > 0 && (when_branch_has_intrinsic(s[0]) || branches_have_intrinsic(s.subrange(1, s.len() as int)))
}

/// A `when` branch holds raw C# in its guard, in an expression pattern, or in its body.
pub open spec fn when_branch_has_intrinsic(b: WhenBranch) -> bool
    decreases b,
{
    ||| opt_expr_has_intrinsic(b.guard)
    ||| (match b.pattern {
        WhenPattern::Expression(e) => expr_has_intrinsic(e),
        _ => false,
    })
    ||| (match b.body {
        WhenBody::Block(block) => block_has_intrinsic(block),
        WhenBody::Expr(e) => expr_has_intrinsic(e),
    })
}

pub open spec fn else_branch_has_intrinsic(e: ElseBranch) -> bool
    decreases e,
{
    match e {
        ElseBranch::ElseBlock(block) => block_has_intrinsic(block),
        ElseBranch::ElseIf(s) => stmt_has_intrinsic(*s),
    }
}

/// A statement holds raw C#: it is an `intrinsic` block, or one of its expressions, blocks
/// or nested statements does.
pub open spec fn stmt_has_intrinsic(s: Stmt) -> bool
    decreases s,
{
    match s {
        Stmt::IntrinsicBlock { .. } => true,
        Stmt::ValDecl { init, .. } => expr_has_intrinsic(init),
        Stmt::VarDecl { init, .. } => opt_expr_has_intrinsic(init),
        Stmt::Assignment { target, value, .. } => expr_has_intrinsic(target) || expr_has_intrinsic(value),
        Stmt::Expr { expr, .. } => expr_has_intrinsic(expr),
        Stmt::Start { call, .. } => expr_has_intrinsic(call),
        Stmt::Stop { target, .. } => expr_has_intrinsic(target),
        Stmt::If { cond, then_block, else_branch, .. } => {
            ||| expr_has_intrinsic(cond)
            ||| block_has_intrinsic(then_block)
            ||| (match else_branch {
                Some(e) => else_branch_has_intrinsic(e),
                None => false,
            })
        },
        Stmt::When { subject, branches, .. } => opt_expr_has_intrinsic(subject) || branches_have_intrinsic(branches@),
        Stmt::For { iterable, body, .. } => expr_has_intrinsic(iterable) || block_has_intrinsic(body),
        Stmt::DestructureVal { init, .. } => expr_has_intrinsic(init),
        Stmt::While { cond, body, .. } => expr_has_intrinsic(cond) || block_has_intrinsic(body),
        Stmt::Return { value, .. } => opt_expr_has_intrinsic(value),
        Stmt::Wait { form, .. } => match form {
            WaitForm::Duration(e) => expr_has_intrinsic(e),
            WaitForm::Until(e) => expr_has_intrinsic(e),
            WaitForm::While(e) => expr_has_intrinsic(e),
            WaitForm::NextFrame => false,
            WaitForm::FixedFrame => false,
        },
        Stmt::Listen { event, body, .. } => expr_has_intrinsic(event) || block_has_intrinsic(body),
        Stmt::StopAll { .. } => false,
        Stmt::Unlisten { .. } => false,
        Stmt::Break { .. } => false,
        Stmt::Continue { .. } => false,
        Stmt::Try { try_block, catches, finally_block, .. } => {
            ||| block_has_intrinsic(try_block)
            ||| catches_have_intrinsic(catches@)
            ||| opt_block_has_intrinsic(finally_block)
        },
        Stmt::Throw { expr, .. } => expr_has_intrinsic(expr),
        Stmt::Use { init, body, .. } => expr_has_intrinsic(init) || opt_block_has_intrinsic(body),
        Stmt::BindTo { target, .. } => expr_has_intrinsic(target),
        Stmt::Yield { value, .. } => expr_has_intrinsic(value),
        Stmt::YieldBreak { .. } => false,
        Stmt::Preprocessor { arms, else_arm, .. } => {
            ||| arms_have_intrinsic(arms@)
            ||| (match else_arm {
                Some(stmts) => stmts_have_intrinsic(stmts@),
                None => false,
            })
        },
    }
}

/// An expression holds raw C#: it is an `intrinsic` expression, or one of its operands,
/// arguments, blocks or branches does. The expression body of a lambda is not looked into.
pub open spec fn expr_has_intrinsic(e: Expr) -> bool
    decreases e,
{
    match e {
        Expr::IntrinsicExpr { .. } => true,
        Expr::StringInterp { parts, .. } => parts_have_intrinsic(parts@),
        Expr::Binary { left, right, .. } => expr_has_intrinsic(*left) || expr_has_intrinsic(*right),
        Expr::Elvis { left, right, .. } => expr_has_intrinsic(*left) || expr_has_intrinsic(*right),
        Expr::Unary { operand, .. } => expr_has_intrinsic(*operand),
        Expr::NonNullAssert { expr, .. } => expr_has_intrinsic(*expr),
        Expr::MemberAccess { receiver, .. } => expr_has_intrinsic(*receiver),
        Expr::SafeCall { receiver, .. } => expr_has_intrinsic(*receiver),
        Expr::SafeMethodCall { receiver, args, .. } => expr_has_intrinsic(*receiver) || args_have_intrinsic(args@),
        Expr::Call { receiver, args, .. } => opt_boxed_expr_has_intrinsic(receiver) || args_have_intrinsic(args@),
        Expr::IndexAccess { receiver, index, .. } => expr_has_intrinsic(*receiver) || expr_has_intrinsic(*index),
        Expr::SafeIndexAccess { receiver, index, .. } => expr_has_intrinsic(*receiver) || expr_has_intrinsic(*index),
        Expr::IfExpr { cond, then_block, else_block, .. } => {
            ||| expr_has_intrinsic(*cond)
            ||| block_has_intrinsic(then_block)
            ||| block_has_intrinsic(else_block)
        },
        Expr::WhenExpr { subject, branches, .. } => opt_boxed_expr_has_intrinsic(subject) || branches_have_intrinsic(branches@),
        Expr::Range { start, end, step, .. } => {
            ||| opt_boxed_expr_has_intrinsic(start)
            ||| opt_boxed_expr_has_intrinsic(end)
            ||| opt_boxed_expr_has_intrinsic(step)
        },
        Expr::Is { expr, .. } => expr_has_intrinsic(*expr),
        Expr::Lambda { body, .. } => match body {
            LambdaBody::Block(block) => block_has_intrinsic(block),
            LambdaBody::Expr(_) => false,
        },
        Expr::SafeCastExpr { expr, .. } => expr_has_intrinsic(*expr),
        Expr::ForceCastExpr { expr, .. } => expr_has_intrinsic(*expr),
        Expr::Tuple { elements, .. } => exprs_have_intrinsic(elements@),
        Expr::ListLit { elements, .. } => exprs_have_intrinsic(elements@),
        Expr::MapLit { entries, .. } => pairs_have_intrinsic(entries@),
        Expr::Await { expr, .. } => expr_has_intrinsic(*expr),
        Expr::RefOf { inner, .. } => expr_has_intrinsic(*inner),
        Expr::ThrowExpr { exception, .. } => expr_has_intrinsic(*exception),
        Expr::With { receiver, updates, .. } => expr_has_intrinsic(*receiver) || updates_have_intrinsic(updates@),
        Expr::StackAlloc { size, .. } => expr_has_intrinsic(*size),
        Expr::TryExpr { try_block, catches, .. } => block_has_intrinsic(try_block) || catches_have_intrinsic(catches@),
        Expr::IntLit(..) => false,
        Expr::FloatLit(..) => false,
        Expr::DurationLit(..) => false,
        Expr::StringLit(..) => false,
        Expr::BoolLit(..) => false,
        Expr::Null(..) => false,
        Expr::Ident(..) => false,
        Expr::This(..) => false,
        Expr::NameOf { .. } => false,
    }
}

pub open spec fn members_have_intrinsic(s: Seq<Member>) -> bool
    decreases s,
{
    s.len() > 0 && (member_has_intrinsic(s[0]) || members_have_intrinsic(s.subrange(1, s.len() as int)))
}

/// A member holds raw C#: it is an intrinsic function or coroutine, or its body,
/// initializer or command blocks do, or (for a nested declaration) that declaration does.
pub open spec fn member_has_intrinsic(m: Member) -> bool
    decreases m,
{
    match m {
        Member::IntrinsicFunc { .. } => true,
        Member::IntrinsicCoroutine { .. } => true,
        Member::Func { body, .. } => match body {
            FuncBody::Block(block) => block_has_intrinsic(block),
            FuncBody::ExprBody(e) => expr_has_intrinsic(e),
        },
        Member::Coroutine { body, .. } => block_has_intrinsic(body),
        Member::Lifecycle { body, .. } => block_has_intrinsic(body),
        Member::SerializeField { init, .. } => opt_expr_has_intrinsic(init),
        Member::Field { init, .. } => opt_expr_has_intrinsic(init),
        Member::Command { execute, undo, can_execute, .. } => {
            ||| block_has_intrinsic(execute)
            ||| opt_block_has_intrinsic(undo)
            ||| opt_expr_has_intrinsic(can_execute)
        },
        Member::ListenDecl { event, body, .. } => expr_has_intrinsic(event) || block_has_intrinsic(body),
        Member::NestedDecl { decl, .. } => decl_has_intrinsic(*decl),
        Member::Require { .. } => false,
        Member::Optional { .. } => false,
        Member::Child { .. } => false,
        Member::Parent { .. } => false,
        Member::Pool { .. } => false,
        Member::Property { .. } => false,
        Member::Event { .. } => false,
        Member::BindProperty { .. } => false,
        Member::StateMachine { .. } => false,
    }
}

/// A declaration holds raw C# in one of its members; only components, assets, classes,
/// structs and extensions are looked into.
pub open spec fn decl_has_intrinsic(d: Decl) -> bool
    decreases d,
{
    match d {
        Decl::Component { members, .. } => members_have_intrinsic(members@),
        Decl::Asset { members, .. } => members_have_intrinsic(members@),
        Decl::Class { members, .. } => members_have_intrinsic(members@),
        Decl::Struct { members, .. } => members_have_intrinsic(members@),
        Decl::Extension { members, .. } => members_have_intrinsic(members@),
        Decl::DataClass { .. } => false,
        Decl::Enum { .. } => false,
        Decl::Attribute { .. } => false,
        Decl::Interface { .. } => false,
        Decl::TypeAlias { .. } => false,
    }
}

// ── The scan ─────────────────────────────────────────────────────

/// Whether the file's declaration holds raw C#.
pub fn file_contains_intrinsic_code(file: &File) -> (r: bool)
    ensures
        r == decl_has_intrinsic(file.decl),
{
    decl_contains_intrinsic_code(&file.decl)
}

pub fn decl_contains_intrinsic_code(decl: &Decl) -> (r: bool)
    ensures
        r == decl_has_intrinsic(*decl),
    decreases decl,
{
    match decl {
        Decl::Component { members, .. } | Decl::Asset { members, .. } | Decl::Class { members, .. }
        | Decl::Struct { members, .. } | Decl::Extension { members, .. } => members_contain_intrinsic_code(members),
        Decl::DataClass { .. } | Decl::Enum { .. } | Decl::Attribute { .. } | Decl::Interface { .. }
        | Decl::TypeAlias { .. } => false,
    }
}

fn members_contain_intrinsic_code(members: &Vec<Member>) -> (r: bool)
    ensures
        r == members_have_intrinsic(members@),
    decreases members,
{
    let mut i: usize = 0;
    assert(members@.subrange(0, members@.len() as int) =~= members@);
    while i < members.len()
        invariant
            i <= members@.len(),
            members_have_intrinsic(members@) == members_have_intrinsic(members@.subrange(i as int, members@.len() as int)),
        decreases members@.len() - i,
    {
        proof {
            assert(members@.subrange(i as int, members@.len() as int).subrange(1, members@.len() - i) =~= members@.subrange(i + 1, members@.len() as int));
            assert(members@.subrange(i as int, members@.len() as int)[0] == members@[i as int]);
        }
        if member_contains_intrinsic_code(&members[i]) {
            return true;
        }
        i = i + 1;
    }
    false
}

pub fn member_contains_intrinsic_code(member: &Member) -> (r: bool)
    ensures
        r == member_has_intrinsic(*member),
    decreases member,
{
    match member {
        Member::IntrinsicFunc { .. } | Member::IntrinsicCoroutine { .. } => true,
        Member::Func { body, .. } => match body {
            FuncBody::Block(block) => block_contains_intrinsic_code(block),
            FuncBody::ExprBody(e) => expr_contains_intrinsic_code(e),
        },
        Member::Coroutine { body, .. } | Member::Lifecycle { body, .. } => block_contains_intrinsic_code(body),
        Member::SerializeField { init, .. } | Member::Field { init, .. } => opt_expr_contains_intrinsic_code(init),
        Member::Command { execute, undo, can_execute, .. } => {
            block_contains_intrinsic_code(execute) || opt_block_contains_intrinsic_code(undo)
                || opt_expr_contains_intrinsic_code(can_execute)
        },
        Member::ListenDecl { event, body, .. } => {
            expr_contains_intrinsic_code(event) || block_contains_intrinsic_code(body)
        },
        Member::NestedDecl { decl, .. } => decl_contains_intrinsic_code(decl),
        Member::Require { .. } | Member::Optional { .. } | Member::Child { .. } | Member::Parent { .. }
        | Member::Pool { .. } | Member::Property { .. } | Member::Event { .. }
        | Member::BindProperty { .. } | Member::StateMachine { .. } => false,
    }
}

pub fn block_contains_intrinsic_code(block: &Block) -> (r: bool)
    ensures
        r == block_has_intrinsic(*block),
    decreases block,
{
    stmts_contain_intrinsic_code(&block.stmts)
}

fn opt_block_contains_intrinsic_code(block: &Option<Block>) -> (r: bool)
    ensures
        r == opt_block_has_intrinsic(*block),
    decreases block,
{
    match block {
        Some(b) => block_contains_intrinsic_code(b),
        None => false,
    }
}

fn stmts_contain_intrinsic_code(stmts: &Vec<Stmt>) -> (r: bool)
    ensures
        r == stmts_have_intrinsic(stmts@),
    decreases stmts,
{
    let mut i: usize = 0;
    assert(stmts@.subrange(0, stmts@.len() as int) =~= stmts@);
    while i < stmts.len()
        invariant
            i <= stmts@.len(),
            stmts_have_intrinsic(stmts@) == stmts_have_intrinsic(stmts@.subrange(i as int, stmts@.len() as int)),
        decreases stmts@.len() - i,
    {
        proof {
            assert(stmts@.subrange(i as int, stmts@.len() as int).subrange(1, stmts@.len() - i) =~= stmts@.subrange(i + 1, stmts@.len() as int));
            assert(stmts@.subrange(i as int, stmts@.len() as int)[0] == stmts@[i as int]);
        }
        if stmt_contains_intrinsic_code(&stmts[i]) {
            return true;
        }
        i = i + 1;
    }
    false
}

pub fn stmt_contains_intrinsic_code(stmt: &Stmt) -> (r: bool)
    ensures
        r == stmt_has_intrinsic(*stmt),
    decreases stmt,
{
    match stmt {
        Stmt::IntrinsicBlock { .. } => true,
        Stmt::ValDecl { init, .. } => expr_contains_intrinsic_code(init),
        Stmt::VarDecl { init, .. } => opt_expr_contains_intrinsic_code(init),
        Stmt::Assignment { target, value, .. } => {
            expr_contains_intrinsic_code(target) || expr_contains_intrinsic_code(value)
        },
        Stmt::Expr { expr, .. } => expr_contains_intrinsic_code(expr),
        Stmt::Start { call, .. } => expr_contains_intrinsic_code(call),
        Stmt::Stop { target, .. } => expr_contains_intrinsic_code(target),
        Stmt::If { cond, then_block, else_branch, .. } => {
            expr_contains_intrinsic_code(cond) || block_contains_intrinsic_code(then_block)
                || match else_branch {
                Some(e) => else_branch_contains_intrinsic_code(e),
                None => false,
            }
        },
        Stmt::When { subject, branches, .. } => {
            opt_expr_contains_intrinsic_code(subject) || when_branches_contain_intrinsic_code(branches)
        },
        Stmt::For { iterable, body, .. } => {
            expr_contains_intrinsic_code(iterable) || block_contains_intrinsic_code(body)
        },
        Stmt::DestructureVal { init, .. } => expr_contains_intrinsic_code(init),
        Stmt::While { cond, body, .. } => {
            expr_contains_intrinsic_code(cond) || block_contains_intrinsic_code(body)
        },
        Stmt::Return { value, .. } => opt_expr_contains_intrinsic_code(value),
        Stmt::Wait { form, .. } => match form {
            WaitForm::Duration(e) | WaitForm::Until(e) | WaitForm::While(e) => expr_contains_intrinsic_code(e),
            WaitForm::NextFrame | WaitForm::FixedFrame => false,
        },
        Stmt::Listen { event, body, .. } => {
            expr_contains_intrinsic_code(event) || block_contains_intrinsic_code(body)
        },
        Stmt::StopAll { .. } | Stmt::Unlisten { .. } | Stmt::Break { .. } | Stmt::Continue { .. }
        | Stmt::YieldBreak { .. } => false,
        Stmt::Try { try_block, catches, finally_block, .. } => {
            block_contains_intrinsic_code(try_block) || catches_contain_intrinsic_code(catches)
                || opt_block_contains_intrinsic_code(finally_block)
        },
        Stmt::Throw { expr, .. } => expr_contains_intrinsic_code(expr),
        Stmt::Use { init, body, .. } => {
            expr_contains_intrinsic_code(init) || opt_block_contains_intrinsic_code(body)
        },
        Stmt::BindTo { target, .. } => expr_contains_intrinsic_code(target),
        Stmt::Yield { value, .. } => expr_contains_intrinsic_code(value),
        Stmt::Preprocessor { arms, else_arm, .. } => {
            arms_contain_intrinsic_code(arms) || match else_arm {
                Some(stmts) => stmts_contain_intrinsic_code(stmts),
                None => false,
            }
        },
    }
}

fn catches_contain_intrinsic_code(catches: &Vec<CatchClause>) -> (r: bool)
    ensures
        r == catches_have_intrinsic(catches@),
    decreases catches,
{
    let mut i: usize = 0;
    assert(catches@.subrange(0, catches@.len() as int) =~= catches@);
    while i < catches.len()
        invariant
            i <= catches@.len(),
            catches_have_intrinsic(catches@) == catches_have_intrinsic(catches@.subrange(i as int, catches@.len() as int)),
        decreases catches@.len() - i,
    {
        proof {
            assert(catches@.subrange(i as int, catches@.len() as int).subrange(1, catches@.len() - i) =~= catches@.subrange(i + 1, catches@.len() as int));
            assert(catches@.subrange(i as int, catches@.len() as int)[0] == catches@[i as int]);
            assert(catch_has_intrinsic(catches@[i as int]) == block_has_intrinsic(catches@[i as int].body));
        }
        if block_contains_intrinsic_code(&catches[i].body) {
            return true;
        }
        i = i + 1;
    }
    false
}

fn arms_contain_intrinsic_code(arms: &Vec<PreprocessorArm>) -> (r: bool)
    ensures
        r == arms_have_intrinsic(arms@),
    decreases arms,
{
    let mut i: usize = 0;
    assert(arms@.subrange(0, arms@.len() as int) =~= arms@);
    while i < arms.len()
        invariant
            i <= arms@.len(),
            arms_have_intrinsic(arms@) == arms_have_intrinsic(arms@.subrange(i as int, arms@.len() as int)),
        decreases arms@.len() - i,
    {
        proof {
            assert(arms@.subrange(i as int, arms@.len() as int).subrange(1, arms@.len() - i) =~= arms@.subrange(i + 1, arms@.len() as int));
            assert(arms@.subrange(i as int, arms@.len() as int)[0] == arms@[i as int]);
            assert(arm_has_intrinsic(arms@[i as int]) == stmts_have_intrinsic(arms@[i as int].body@));
        }
        if stmts_contain_intrinsic_code(&arms[i].body) {
            return true;
        }
        i = i + 1;
    }
    false
}

pub fn else_branch_contains_intrinsic_code(else_branch: &ElseBranch) -> (r: bool)
    ensures
        r == else_branch_has_intrinsic(*else_branch),
    decreases else_branch,
{
    match else_branch {
        ElseBranch::ElseBlock(block) => block_contains_intrinsic_code(block),
        ElseBranch::ElseIf(s) => stmt_contains_intrinsic_code(s),
    }
}

fn when_branches_contain_intrinsic_code(branches: &Vec<WhenBranch>) -> (r: bool)
    ensures
        r == branches_have_intrinsic(branches@),
    decreases branches,
{
    let mut i: usize = 0;
    assert(branches@.subrange(0, branches@.len() as int) =~= branches@);
    while i < branches.len()
        invariant
            i <= branches@.len(),
            branches_have_intrinsic(branches@) == branches_have_intrinsic(branches@.subrange(i as int, branches@.len() as int)),
        decreases branches@.len() - i,
    {
        proof {
            assert(branches@.subrange(i as int, branches@.len() as int).subrange(1, branches@.len() - i) =~= branches@.subrange(i + 1, branches@.len() as int));
            assert(branches@.subrange(i as int, branches@.len() as int)[0] == branches@[i as int]);
        }
        if when_branch_contains_intrinsic_code(&branches[i]) {
            return true;
        }
        i = i + 1;
    }
    false
}

pub fn when_branch_contains_intrinsic_code(branch: &WhenBranch) -> (r: bool)
    ensures
        r == when_branch_has_intrinsic(*branch),
    decreases branch,
{
    if opt_expr_contains_intrinsic_code(&branch.guard) {
        return true;
    }
    let in_pattern = match &branch.pattern {
        WhenPattern::Expression(e) => expr_contains_intrinsic_code(e),
        _ => false,
    };
    if in_pattern {
        return true;
    }
    match &branch.body {
        WhenBody::Block(block) => block_contains_intrinsic_code(block),
        WhenBody::Expr(e) => expr_contains_intrinsic_code(e),
    }
}

fn opt_expr_contains_intrinsic_code(e: &Option<Expr>) -> (r: bool)
    ensures
        r == opt_expr_has_intrinsic(*e),
    decreases e,
{
    match e {
        Some(x) => expr_contains_intrinsic_code(x),
        None => false,
    }
}

fn opt_boxed_expr_contains_intrinsic_code(e: &Option<Box<Expr>>) -> (r: bool)
    ensures
        r == opt_boxed_expr_has_intrinsic(*e),
    decreases e,
{
    match e {
        Some(x) => expr_contains_intrinsic_code(x),
        None => false,
    }
}

fn exprs_contain_intrinsic_code(exprs: &Vec<Expr>) -> (r: bool)
    ensures
        r == exprs_have_intrinsic(exprs@),
    decreases exprs,
{
    let mut i: usize = 0;
    assert(exprs@.subrange(0, exprs@.len() as int) =~= exprs@);
    while i < exprs.len()
        invariant
            i <= exprs@.len(),
            exprs_have_intrinsic(exprs@) == exprs_have_intrinsic(exprs@.subrange(i as int, exprs@.len() as int)),
        decreases exprs@.len() - i,
    {
        proof {
            assert(exprs@.subrange(i as int, exprs@.len() as int).subrange(1, exprs@.len() - i) =~= exprs@.subrange(i + 1, exprs@.len() as int));
            assert(exprs@.subrange(i as int, exprs@.len() as int)[0] == exprs@[i as int]);
        }
        if expr_contains_intrinsic_code(&exprs[i]) {
            return true;
        }
        i = i + 1;
    }
    false
}

fn args_contain_intrinsic_code(args: &Vec<Arg>) -> (r: bool)
    ensures
        r == args_have_intrinsic(args@),
    decreases args,
{
    let mut i: usize = 0;
    assert(args@.subrange(0, args@.len() as int) =~= args@);
    while i < args.len()
        invariant
            i <= args@.len(),
            args_have_intrinsic(args@) == args_have_intrinsic(args@.subrange(i as int, args@.len() as int)),
        decreases args@.len() - i,
    {
        proof {
            assert(args@.subrange(i as int, args@.len() as int).subrange(1, args@.len() - i) =~= args@.subrange(i + 1, args@.len() as int));
            assert(args@.subrange(i as int, args@.len() as int)[0] == args@[i as int]);
            assert(arg_has_intrinsic(args@[i as int]) == expr_has_intrinsic(args@[i as int].value));
        }
        if expr_contains_intrinsic_code(&args[i].value) {
            return true;
        }
        i = i + 1;
    }
    false
}

fn parts_contain_intrinsic_code(parts: &Vec<StringPart>) -> (r: bool)
    ensures
        r == parts_have_intrinsic(parts@),
    decreases parts,
{
    let mut i: usize = 0;
    assert(parts@.subrange(0, parts@.len() as int) =~= parts@);
    while i < parts.len()
        invariant
            i <= parts@.len(),
            parts_have_intrinsic(parts@) == parts_have_intrinsic(parts@.subrange(i as int, parts@.len() as int)),
        decreases parts@.len() - i,
    {
        proof {
            assert(parts@.subrange(i as int, parts@.len() as int).subrange(1, parts@.len() - i) =~= parts@.subrange(i + 1, parts@.len() as int));
            assert(parts@.subrange(i as int, parts@.len() as int)[0] == parts@[i as int]);
            assert(part_has_intrinsic(parts@[i as int]) == match parts@[i as int] { StringPart::Literal(_) => false, StringPart::Expr(e) => expr_has_intrinsic(e) });
        }
        let found = match &parts[i] {
            StringPart::Literal(_) => false,
            StringPart::Expr(e) => expr_contains_intrinsic_code(e),
        };
        if found {
            return true;
        }
        i = i + 1;
    }
    false
}

fn pairs_contain_intrinsic_code(entries: &Vec<(Expr, Expr)>) -> (r: bool)
    ensures
        r == pairs_have_intrinsic(entries@),
    decreases entries,
{
    let mut i: usize = 0;
    assert(entries@.subrange(0, entries@.len() as int) =~= entries@);
    while i < entries.len()
        invariant
            i <= entries@.len(),
            pairs_have_intrinsic(entries@) == pairs_have_intrinsic(entries@.subrange(i as int, entries@.len() as int)),
        decreases entries@.len() - i,
    {
        proof {
            assert(entries@.subrange(i as int, entries@.len() as int).subrange(1, entries@.len() - i) =~= entries@.subrange(i + 1, entries@.len() as int));
            assert(entries@.subrange(i as int, entries@.len() as int)[0] == entries@[i as int]);
            assert(pair_has_intrinsic(entries@[i as int]) == (expr_has_intrinsic(entries@[i as int].0) || expr_has_intrinsic(entries@[i as int].1)));
        }
        if expr_contains_intrinsic_code(&entries[i].0) || expr_contains_intrinsic_code(&entries[i].1) {
            return true;
        }
        i = i + 1;
    }
    false
}

fn updates_contain_intrinsic_code(updates: &Vec<(String, Expr)>) -> (r: bool)
    ensures
        r == updates_have_intrinsic(updates@),
    decreases updates,
{
    let mut i: usize = 0;
    assert(updates@.subrange(0, updates@.len() as int) =~= updates@);
    while i < updates.len()
        invariant
            i <= updates@.len(),
            updates_have_intrinsic(updates@) == updates_have_intrinsic(updates@.subrange(i as int, updates@.len() as int)),
        decreases updates@.len() - i,
    {
        proof {
            assert(updates@.subrange(i as int, updates@.len() as int).subrange(1, updates@.len() - i) =~= updates@.subrange(i + 1, updates@.len() as int));
            assert(updates@.subrange(i as int, updates@.len() as int)[0] == updates@[i as int]);
            assert(update_has_intrinsic(updates@[i as int]) == expr_has_intrinsic(updates@[i as int].1));
        }
        if expr_contains_intrinsic_code(&updates[i].1) {
            return true;
        }
        i = i + 1;
    }
    false
}

pub fn expr_contains_intrinsic_code(expr: &Expr) -> (r: bool)
    ensures
        r == expr_has_intrinsic(*expr),
    decreases expr,
{
    match expr {
        Expr::IntrinsicExpr { .. } => true,
        Expr::StringInterp { parts, .. } => parts_contain_intrinsic_code(parts),
        Expr::Binary { left, right, .. } | Expr::Elvis { left, right, .. } => {
            expr_contains_intrinsic_code(left) || expr_contains_intrinsic_code(right)
        },
        Expr::Unary { operand, .. } => expr_contains_intrinsic_code(operand),
        Expr::NonNullAssert { expr: inner, .. } => expr_contains_intrinsic_code(inner),
        Expr::MemberAccess { receiver, .. } | Expr::SafeCall { receiver, .. } => {
            expr_contains_intrinsic_code(receiver)
        },
        Expr::SafeMethodCall { receiver, args, .. } => {
            expr_contains_intrinsic_code(receiver) || args_contain_intrinsic_code(args)
        },
        Expr::Call { receiver, args, .. } => {
            opt_boxed_expr_contains_intrinsic_code(receiver) || args_contain_intrinsic_code(args)
        },
        Expr::IndexAccess { receiver, index, .. } | Expr::SafeIndexAccess { receiver, index, .. } => {
            expr_contains_intrinsic_code(receiver) || expr_contains_intrinsic_code(index)
        },
        Expr::IfExpr { cond, then_block, else_block, .. } => {
            expr_contains_intrinsic_code(cond) || block_contains_intrinsic_code(then_block)
                || block_contains_intrinsic_code(else_block)
        },
        Expr::WhenExpr { subject, branches, .. } => {
            opt_boxed_expr_contains_intrinsic_code(subject) || when_branches_contain_intrinsic_code(branches)
        },
        Expr::Range { start, end, step, .. } => {
            opt_boxed_expr_contains_intrinsic_code(start) || opt_boxed_expr_contains_intrinsic_code(end)
                || opt_boxed_expr_contains_intrinsic_code(step)
        },
        Expr::Is { expr: inner, .. } => expr_contains_intrinsic_code(inner),
        Expr::Lambda { body, .. } => match body {
            LambdaBody::Block(block) => block_contains_intrinsic_code(block),
            LambdaBody::Expr(_) => false,
        },
        Expr::SafeCastExpr { expr: inner, .. } | Expr::ForceCastExpr { expr: inner, .. } => {
            expr_contains_intrinsic_code(inner)
        },
        Expr::Tuple { elements, .. } | Expr::ListLit { elements, .. } => exprs_contain_intrinsic_code(elements),
        Expr::MapLit { entries, .. } => pairs_contain_intrinsic_code(entries),
        Expr::Await { expr: inner, .. } => expr_contains_intrinsic_code(inner),
        Expr::RefOf { inner, .. } => expr_contains_intrinsic_code(inner),
        Expr::ThrowExpr { exception, .. } => expr_contains_intrinsic_code(exception),
        Expr::With { receiver, updates, .. } => {
            expr_contains_intrinsic_code(receiver) || updates_contain_intrinsic_code(updates)
        },
        Expr::StackAlloc { size, .. } => expr_contains_intrinsic_code(size),
        Expr::TryExpr { try_block, catches, .. } => {
            block_contains_intrinsic_code(try_block) || catches_contain_intrinsic_code(catches)
        },
        Expr::IntLit(..) | Expr::FloatLit(..) | Expr::DurationLit(..) | Expr::StringLit(..)
        | Expr::BoolLit(..) | Expr::Null(..) | Expr::Ident(..) | Expr::This(..) | Expr::NameOf { .. } => false,
    }
}

} // verus!
