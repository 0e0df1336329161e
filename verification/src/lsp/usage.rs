//! Which namespaces a syntax tree uses: the namespaces of the core types it names, of the
//! receivers and free functions it calls, and the collections namespace of its list and
//! map literals. `ns` is used by a node when one of the node's parts uses it.
use vstd::prelude::*;
use crate::ast::{
    Annotation, Arg, Block, CatchClause, Decl, ElseBranch, EnumEntry, EnumParam, Expr, FuncBody, LambdaBody,
    Member, Param, PreprocessorArm, StateDecl, Stmt, StringPart, TypeRef, WaitForm, WhenBody, WhenBranch,
    WhenPattern,
};
use crate::lsp::{spec_canonical_type_ident, spec_core_namespace_for_type};
use crate::text::{spec_eq_ignore_ascii_case, spec_holds_text, spec_trim, spec_trim_end_char};

verus! {

// ── Names of types ───────────────────────────────────────────────

/// The namespace that naming type `ty` brings in: that of the core type with its bare
/// name, when the name (trimmed, without a trailing `?`) is plain: not empty, neither
/// qualified nor generic.
pub open spec fn spec_marked_namespace(ty: Seq<char>) -> Option<Seq<char>> {
    let trimmed = spec_trim_end_char(spec_trim(ty), '?');
    if trimmed.len() == 0 || trimmed.contains('.') || trimmed.contains('<') {
        None
    } else {
        spec_core_namespace_for_type(spec_canonical_type_ident(trimmed))
    }
}

/// Naming type `ty` uses namespace `ns`.
pub open spec fn name_marks(ty: Seq<char>, ns: Seq<char>) -> bool {
    spec_marked_namespace(ty) == Some(ns)
}

pub open spec fn names_mark(s: Seq<String>, ns: Seq<char>) -> bool
    decreases s.len(),
{
    s.len() > 0 && (name_marks(s[0]@, ns) || names_mark(s.subrange(1, s.len() as int), ns))
}

// ── Types ────────────────────────────────────────────────────────

/// A type uses the namespace of its name and those of its type arguments; a qualified
/// name uses none.
pub open spec fn type_ref_uses(t: TypeRef, ns: Seq<char>) -> bool
    decreases t,
{
    match t {
        TypeRef::Simple { name, .. } => name_marks(name@, ns),
        TypeRef::Generic { name, type_args, .. } => name_marks(name@, ns) || type_refs_use(type_args@, ns),
        TypeRef::Qualified { .. } => false,
        TypeRef::Tuple { types, .. } => type_refs_use(types@, ns),
        TypeRef::Function { param_types, return_type, .. } => {
            type_refs_use(param_types@, ns) || type_ref_uses(*return_type, ns)
        },
    }
}

pub open spec fn type_refs_use(s: Seq<TypeRef>, ns: Seq<char>) -> bool
    decreases s,
{
    s.len() > 0 && (type_ref_uses(s[0], ns) || type_refs_use(s.subrange(1, s.len() as int), ns))
}

pub open spec fn opt_type_ref_uses(o: Option<TypeRef>, ns: Seq<char>) -> bool
    decreases o,
{
    match o {
        Some(t) => type_ref_uses(t, ns),
        None => false,
    }
}

// ── Calls ────────────────────────────────────────────────────────

/// A member access on a name: `input.action` uses the input system, another member of
/// `input` the legacy `Input`, `quat` `Quaternion`, any other name its own type.
pub open spec fn receiver_uses(receiver: Expr, member: Option<Seq<char>>, ns: Seq<char>) -> bool {
    match receiver {
        Expr::Ident(name, _) => if spec_eq_ignore_ascii_case(name@, "input"@) {
            if member matches Some(m) && spec_eq_ignore_ascii_case(m, "action"@) {
                ns == "UnityEngine.InputSystem"@
            } else {
                name_marks("Input"@, ns)
            }
        } else if spec_eq_ignore_ascii_case(name@, "quat"@) {
            name_marks("Quaternion"@, ns)
        } else {
            name_marks(name@, ns)
        },
        _ => false,
    }
}

/// A built-in free function: `vec2`, `vec3` and `color` use their types, `Destroy` uses
/// `Object`, the logging functions `Debug`.
pub open spec fn free_call_uses(name: Seq<char>, ns: Seq<char>) -> bool {
    if name == "vec2"@ {
        name_marks("Vector2"@, ns)
    } else if name == "vec3"@ {
        name_marks("Vector3"@, ns)
    } else if name == "color"@ {
        name_marks("Color"@, ns)
    } else if name == "Destroy"@ {
        name_marks("Object"@, ns)
    } else if name == "log"@ || name == "warn"@ || name == "error"@ || name == "print"@ {
        name_marks("Debug"@, ns)
    } else {
        false
    }
}

// ── Expressions ──────────────────────────────────────────────────

pub open spec fn expr_uses(e: Expr, ns: Seq<char>) -> bool
    decreases e,
{
    match e {
        Expr::IntLit(..) | Expr::FloatLit(..) | Expr::DurationLit(..) | Expr::StringLit(..) | Expr::BoolLit(..)
        | Expr::Null(..) | Expr::Ident(..) | Expr::This(..) | Expr::NameOf { .. } | Expr::IntrinsicExpr { .. } => false,
        Expr::StringInterp { parts, .. } => parts_use(parts@, ns),
        Expr::Binary { left, right, .. } => expr_uses(*left, ns) || expr_uses(*right, ns),
        Expr::Elvis { left, right, .. } => expr_uses(*left, ns) || expr_uses(*right, ns),
        Expr::Unary { operand, .. } => expr_uses(*operand, ns),
        Expr::NonNullAssert { expr, .. } => expr_uses(*expr, ns),
        Expr::MemberAccess { receiver, name, .. } => expr_uses(*receiver, ns) || receiver_uses(*receiver, Some(name@), ns),
        Expr::SafeCall { receiver, name, .. } => expr_uses(*receiver, ns) || receiver_uses(*receiver, Some(name@), ns),
        Expr::SafeMethodCall { receiver, name, type_args, args, .. } => {
            ||| expr_uses(*receiver, ns)
            ||| receiver_uses(*receiver, Some(name@), ns)
            ||| type_refs_use(type_args@, ns)
            ||| args_use(args@, ns)
        },
        Expr::Call { receiver, name, type_args, args, .. } => {
            ||| match receiver {
                Some(r) => expr_uses(*r, ns) || receiver_uses(*r, Some(name@), ns),
                None => free_call_uses(name@, ns),
            }
            ||| type_refs_use(type_args@, ns)
            ||| args_use(args@, ns)
        },
        Expr::IndexAccess { receiver, index, .. } => expr_uses(*receiver, ns) || expr_uses(*index, ns),
        Expr::SafeIndexAccess { receiver, index, .. } => expr_uses(*receiver, ns) || expr_uses(*index, ns),
        Expr::IfExpr { cond, then_block, else_block, .. } => {
            expr_uses(*cond, ns) || block_uses(then_block, ns) || block_uses(else_block, ns)
        },
        Expr::WhenExpr { subject, branches, .. } => opt_boxed_expr_uses(subject, ns) || branches_use(branches@, ns),
        Expr::Range { start, end, step, .. } => {
            opt_boxed_expr_uses(start, ns) || opt_boxed_expr_uses(end, ns) || opt_boxed_expr_uses(step, ns)
        },
        Expr::Is { expr, ty, .. } => expr_uses(*expr, ns) || type_ref_uses(ty, ns),
        Expr::Lambda { body, .. } => match body {
            LambdaBody::Block(b) => block_uses(b, ns),
            LambdaBody::Expr(x) => expr_uses(*x, ns),
        },
        Expr::SafeCastExpr { expr, target_type, .. } => expr_uses(*expr, ns) || type_ref_uses(target_type, ns),
        Expr::ForceCastExpr { expr, target_type, .. } => expr_uses(*expr, ns) || type_ref_uses(target_type, ns),
        Expr::Tuple { elements, .. } => exprs_use(elements@, ns),
        Expr::ListLit { elements, .. } => ns == "System.Collections.Generic"@ || exprs_use(elements@, ns),
        Expr::MapLit { entries, .. } => ns == "System.Collections.Generic"@ || pairs_use(entries@, ns),
        Expr::Await { expr, .. } => expr_uses(*expr, ns),
        Expr::RefOf { inner, .. } => expr_uses(*inner, ns),
        Expr::ThrowExpr { exception, .. } => expr_uses(*exception, ns),
        Expr::With { receiver, updates, .. } => expr_uses(*receiver, ns) || updates_use(updates@, ns),
        Expr::StackAlloc { element_ty, size, .. } => type_ref_uses(element_ty, ns) || expr_uses(*size, ns),
        Expr::TryExpr { try_block, catches, .. } => block_uses(try_block, ns) || catches_use(catches@, ns),
    }
}

pub open spec fn opt_boxed_expr_uses(o: Option<Box<Expr>>, ns: Seq<char>) -> bool
    decreases o,
{
    match o {
        Some(e) => expr_uses(*e, ns),
        None => false,
    }
}

pub open spec fn opt_expr_uses(o: Option<Expr>, ns: Seq<char>) -> bool
    decreases o,
{
    match o {
        Some(e) => expr_uses(e, ns),
        None => false,
    }
}

pub open spec fn exprs_use(s: Seq<Expr>, ns: Seq<char>) -> bool
    decreases s,
{
    s.len() > 0 && (expr_uses(s[0], ns) || exprs_use(s.subrange(1, s.len() as int), ns))
}

pub open spec fn part_uses(p: StringPart, ns: Seq<char>) -> bool
    decreases p,
{
    match p {
        StringPart::Literal(_) => false,
        StringPart::Expr(e) => expr_uses(e, ns),
    }
}

pub open spec fn parts_use(s: Seq<StringPart>, ns: Seq<char>) -> bool
    decreases s,
{
    s.len() > 0 && (part_uses(s[0], ns) || parts_use(s.subrange(1, s.len() as int), ns))
}

pub open spec fn arg_uses(a: Arg, ns: Seq<char>) -> bool
    decreases a,
{
    expr_uses(a.value, ns)
}

pub open spec fn args_use(s: Seq<Arg>, ns: Seq<char>) -> bool
    decreases s,
{
    s.len() > 0 && (arg_uses(s[0], ns) || args_use(s.subrange(1, s.len() as int), ns))
}

pub open spec fn pair_uses(p: (Expr, Expr), ns: Seq<char>) -> bool
    decreases p,
{
    expr_uses(p.0, ns) || expr_uses(p.1, ns)
}

pub open spec fn pairs_use(s: Seq<(Expr, Expr)>, ns: Seq<char>) -> bool
    decreases s,
{
    s.len() > 0 && (pair_uses(s[0], ns) || pairs_use(s.subrange(1, s.len() as int), ns))
}

pub open spec fn update_uses(u: (String, Expr), ns: Seq<char>) -> bool
    decreases u,
{
    expr_uses(u.1, ns)
}

pub open spec fn updates_use(s: Seq<(String, Expr)>, ns: Seq<char>) -> bool
    decreases s,
{
    s.len() > 0 && (update_uses(s[0], ns) || updates_use(s.subrange(1, s.len() as int), ns))
}

pub open spec fn catch_uses(c: CatchClause, ns: Seq<char>) -> bool
    decreases c,
{
    type_ref_uses(c.ty, ns) || block_uses(c.body, ns)
}

pub open spec fn catches_use(s: Seq<CatchClause>, ns: Seq<char>) -> bool
    decreases s,
{
    s.len() > 0 && (catch_uses(s[0], ns) || catches_use(s.subrange(1, s.len() as int), ns))
}

// ── Statements ───────────────────────────────────────────────────

pub open spec fn block_uses(b: Block, ns: Seq<char>) -> bool
    decreases b,
{
    stmts_use(b.stmts@, ns)
}

pub open spec fn opt_block_uses(o: Option<Block>, ns: Seq<char>) -> bool
    decreases o,
{
    match o {
        Some(b) => block_uses(b, ns),
        None => false,
    }
}

pub open spec fn stmts_use(s: Seq<Stmt>, ns: Seq<char>) -> bool
    decreases s,
{
    s.len() > 0 && (stmt_uses(s[0], ns) || stmts_use(s.subrange(1, s.len() as int), ns))
}

pub open spec fn stmt_uses(s: Stmt, ns: Seq<char>) -> bool
    decreases s,
{
    match s {
        Stmt::ValDecl { ty, init, .. } => opt_type_ref_uses(ty, ns) || expr_uses(init, ns),
        Stmt::VarDecl { ty, init, .. } => opt_type_ref_uses(ty, ns) || opt_expr_uses(init, ns),
        Stmt::Assignment { target, value, .. } => expr_uses(target, ns) || expr_uses(value, ns),
        Stmt::Expr { expr, .. } => expr_uses(expr, ns),
        Stmt::If { cond, then_block, else_branch, .. } => {
            ||| expr_uses(cond, ns)
            ||| block_uses(then_block, ns)
            ||| match else_branch {
                Some(ElseBranch::ElseBlock(b)) => block_uses(b, ns),
                Some(ElseBranch::ElseIf(inner)) => stmt_uses(*inner, ns),
                None => false,
            }
        },
        Stmt::When { subject, branches, .. } => opt_expr_uses(subject, ns) || branches_use(branches@, ns),
        Stmt::For { for_pattern, iterable, body, .. } => {
            ||| (for_pattern matches Some(p) && name_marks(p.type_path@, ns))
            ||| expr_uses(iterable, ns)
            ||| block_uses(body, ns)
        },
        Stmt::DestructureVal { pattern, init, .. } => name_marks(pattern.type_path@, ns) || expr_uses(init, ns),
        Stmt::While { cond, body, .. } => expr_uses(cond, ns) || block_uses(body, ns),
        Stmt::Return { value, .. } => opt_expr_uses(value, ns),
        Stmt::Wait { form, .. } => match form {
            WaitForm::Duration(e) => expr_uses(e, ns),
            WaitForm::Until(e) => expr_uses(e, ns),
            WaitForm::While(e) => expr_uses(e, ns),
            WaitForm::NextFrame | WaitForm::FixedFrame => false,
        },
        Stmt::Start { call, .. } => expr_uses(call, ns),
        Stmt::Stop { target, .. } => expr_uses(target, ns),
        Stmt::Listen { event, body, .. } => expr_uses(event, ns) || block_uses(body, ns),
        Stmt::StopAll { .. } | Stmt::Unlisten { .. } | Stmt::IntrinsicBlock { .. } | Stmt::Break { .. }
        | Stmt::Continue { .. } | Stmt::YieldBreak { .. } => false,
        Stmt::Try { try_block, catches, finally_block, .. } => {
            block_uses(try_block, ns) || catches_use(catches@, ns) || opt_block_uses(finally_block, ns)
        },
        Stmt::Throw { expr, .. } => expr_uses(expr, ns),
        Stmt::Use { ty, init, body, .. } => opt_type_ref_uses(ty, ns) || expr_uses(init, ns) || opt_block_uses(body, ns),
        Stmt::BindTo { target, .. } => expr_uses(target, ns),
        Stmt::Yield { value, .. } => expr_uses(value, ns),
        Stmt::Preprocessor { arms, else_arm, .. } => {
            arms_use(arms@, ns) || match else_arm {
                Some(stmts) => stmts_use(stmts@, ns),
                None => false,
            }
        },
    }
}

pub open spec fn arm_uses(a: PreprocessorArm, ns: Seq<char>) -> bool
    decreases a,
{
    stmts_use(a.body@, ns)
}

pub open spec fn arms_use(s: Seq<PreprocessorArm>, ns: Seq<char>) -> bool
    decreases s,
{
    s.len() > 0 && (arm_uses(s[0], ns) || arms_use(s.subrange(1, s.len() as int), ns))
}

// ── `when` ───────────────────────────────────────────────────────

pub open spec fn branch_uses(b: WhenBranch, ns: Seq<char>) -> bool
    decreases b,
{
    ||| pattern_uses(b.pattern, ns)
    ||| opt_expr_uses(b.guard, ns)
    ||| match b.body {
        WhenBody::Block(block) => block_uses(block, ns),
        WhenBody::Expr(e) => expr_uses(e, ns),
    }
}

pub open spec fn branches_use(s: Seq<WhenBranch>, ns: Seq<char>) -> bool
    decreases s,
{
    s.len() > 0 && (branch_uses(s[0], ns) || branches_use(s.subrange(1, s.len() as int), ns))
}

/// A pattern uses what the expressions and types it tests against use, and the type named
/// at the head of a deconstructing pattern; alternatives of `or` are read one level deep.
pub open spec fn pattern_uses(p: WhenPattern, ns: Seq<char>) -> bool
    decreases p,
{
    match p {
        WhenPattern::Expression(e) => expr_uses(e, ns),
        WhenPattern::Is(t) => type_ref_uses(t, ns),
        WhenPattern::Else => false,
        WhenPattern::Binding { path, .. } => path@.len() > 0 && name_marks(path@[0]@, ns),
        WhenPattern::Positional { path, .. } => path@.len() > 0 && name_marks(path@[0]@, ns),
        WhenPattern::Property { type_path, .. } => type_path@.len() > 0 && name_marks(type_path@[0]@, ns),
        WhenPattern::Or { patterns, .. } => alternatives_use(patterns@, ns),
        WhenPattern::Range { start, end, .. } => expr_uses(start, ns) || expr_uses(end, ns),
        WhenPattern::Relational { value, .. } => expr_uses(value, ns),
        WhenPattern::Not { inner, .. } => pattern_uses(*inner, ns),
        WhenPattern::And { left, right, .. } => pattern_uses(*left, ns) || pattern_uses(*right, ns),
    }
}

/// An alternative of `or`: only an expression or a type test is looked into.
pub open spec fn alternative_uses(p: WhenPattern, ns: Seq<char>) -> bool
    decreases p,
{
    match p {
        WhenPattern::Expression(e) => expr_uses(e, ns),
        WhenPattern::Is(t) => type_ref_uses(t, ns),
        _ => false,
    }
}

pub open spec fn alternatives_use(s: Seq<WhenPattern>, ns: Seq<char>) -> bool
    decreases s,
{
    s.len() > 0 && (alternative_uses(s[0], ns) || alternatives_use(s.subrange(1, s.len() as int), ns))
}

// ── Members and declarations ─────────────────────────────────────

pub open spec fn param_uses(p: Param, ns: Seq<char>) -> bool
    decreases p,
{
    type_ref_uses(p.ty, ns) || opt_expr_uses(p.default, ns)
}

pub open spec fn params_use(s: Seq<Param>, ns: Seq<char>) -> bool
    decreases s,
{
    s.len() > 0 && (param_uses(s[0], ns) || params_use(s.subrange(1, s.len() as int), ns))
}

pub open spec fn annotation_uses(a: Annotation, ns: Seq<char>) -> bool
    decreases a,
{
    name_marks(a.name@, ns) || exprs_use(a.args@, ns)
}

pub open spec fn annotations_use(s: Seq<Annotation>, ns: Seq<char>) -> bool
    decreases s,
{
    s.len() > 0 && (annotation_uses(s[0], ns) || annotations_use(s.subrange(1, s.len() as int), ns))
}

pub open spec fn func_body_uses(b: FuncBody, ns: Seq<char>) -> bool
    decreases b,
{
    match b {
        FuncBody::Block(block) => block_uses(block, ns),
        FuncBody::ExprBody(e) => expr_uses(e, ns),
    }
}

pub open spec fn state_uses(s: StateDecl, ns: Seq<char>) -> bool
    decreases s,
{
    opt_block_uses(s.enter, ns) || opt_block_uses(s.exit, ns)
}

pub open spec fn states_use(s: Seq<StateDecl>, ns: Seq<char>) -> bool
    decreases s,
{
    s.len() > 0 && (state_uses(s[0], ns) || states_use(s.subrange(1, s.len() as int), ns))
}

pub open spec fn member_uses(m: Member, ns: Seq<char>) -> bool
    decreases m,
{
    match m {
        Member::SerializeField { annotations, ty, init, .. } => {
            annotations_use(annotations@, ns) || type_ref_uses(ty, ns) || opt_expr_uses(init, ns)
        },
        Member::Field { ty, init, .. } => opt_type_ref_uses(ty, ns) || opt_expr_uses(init, ns),
        Member::Require { ty, .. } => type_ref_uses(ty, ns),
        Member::Optional { ty, .. } => type_ref_uses(ty, ns),
        Member::Child { ty, .. } => type_ref_uses(ty, ns),
        Member::Parent { ty, .. } => type_ref_uses(ty, ns),
        Member::Func { params, return_ty, body, .. } => {
            params_use(params@, ns) || opt_type_ref_uses(return_ty, ns) || func_body_uses(body, ns)
        },
        Member::Coroutine { params, body, .. } => params_use(params@, ns) || block_uses(body, ns),
        Member::Lifecycle { params, body, .. } => params_use(params@, ns) || block_uses(body, ns),
        Member::IntrinsicFunc { params, return_ty, .. } => params_use(params@, ns) || opt_type_ref_uses(return_ty, ns),
        Member::IntrinsicCoroutine { params, .. } => params_use(params@, ns),
        Member::Pool { item_type, .. } => type_ref_uses(item_type, ns),
        Member::Property { ty, getter, setter, .. } => {
            ||| type_ref_uses(ty, ns)
            ||| (getter matches Some(g) && func_body_uses(g, ns))
            ||| (setter matches Some(s) && block_uses(s.body, ns))
        },
        Member::Event { ty, .. } => type_ref_uses(ty, ns),
        Member::StateMachine { states, .. } => states_use(states@, ns),
        Member::Command { params, execute, undo, can_execute, .. } => {
            ||| params_use(params@, ns)
            ||| block_uses(execute, ns)
            ||| opt_block_uses(undo, ns)
            ||| opt_expr_uses(can_execute, ns)
        },
        Member::BindProperty { ty, init, .. } => type_ref_uses(ty, ns) || opt_expr_uses(init, ns),
        Member::ListenDecl { event, body, .. } => expr_uses(event, ns) || block_uses(body, ns),
        Member::NestedDecl { decl, .. } => decl_uses(*decl, ns),
    }
}

pub open spec fn members_use(s: Seq<Member>, ns: Seq<char>) -> bool
    decreases s,
{
    s.len() > 0 && (member_uses(s[0], ns) || members_use(s.subrange(1, s.len() as int), ns))
}

pub open spec fn enum_param_uses(p: EnumParam, ns: Seq<char>) -> bool
    decreases p,
{
    type_ref_uses(p.ty, ns)
}

pub open spec fn enum_params_use(s: Seq<EnumParam>, ns: Seq<char>) -> bool
    decreases s,
{
    s.len() > 0 && (enum_param_uses(s[0], ns) || enum_params_use(s.subrange(1, s.len() as int), ns))
}

pub open spec fn entry_uses(e: EnumEntry, ns: Seq<char>) -> bool
    decreases e,
{
    exprs_use(e.args@, ns)
}

pub open spec fn entries_use(s: Seq<EnumEntry>, ns: Seq<char>) -> bool
    decreases s,
{
    s.len() > 0 && (entry_uses(s[0], ns) || entries_use(s.subrange(1, s.len() as int), ns))
}

/// A declaration uses the namespaces of its base types and interfaces and what its
/// members use; data classes and attributes what their fields use; an enum what its
/// parameter types and entry arguments use; a type alias what its target uses.
pub open spec fn decl_uses(d: Decl, ns: Seq<char>) -> bool
    decreases d,
{
    match d {
        Decl::Component { base_class, interfaces, members, .. } => {
            name_marks(base_class@, ns) || names_mark(interfaces@, ns) || members_use(members@, ns)
        },
        Decl::Asset { base_class, members, .. } => name_marks(base_class@, ns) || members_use(members@, ns),
        Decl::Class { super_class, interfaces, members, .. } => {
            ||| (super_class matches Some(sc) && name_marks(sc@, ns))
            ||| names_mark(interfaces@, ns)
            ||| members_use(members@, ns)
        },
        Decl::DataClass { fields, .. } => params_use(fields@, ns),
        Decl::Attribute { fields, .. } => params_use(fields@, ns),
        Decl::Struct { fields, members, .. } => params_use(fields@, ns) || members_use(members@, ns),
        Decl::Extension { members, .. } => members_use(members@, ns),
        Decl::Interface { .. } => false,
        Decl::TypeAlias { target, .. } => type_ref_uses(target, ns),
        Decl::Enum { params, entries, .. } => enum_params_use(params@, ns) || entries_use(entries@, ns),
    }
}

/// A block uses every namespace that one of its statements uses.
pub proof fn lemma_block_uses_statement(b: Block, i: int, ns: Seq<char>)
    requires
        0 <= i < b.stmts@.len(),
        stmt_uses(b.stmts@[i], ns),
    ensures
        block_uses(b, ns),
{
    lemma_stmts_use_element(b.stmts@, i, ns);
}

/// A statement list uses every namespace that one of its statements uses.
pub proof fn lemma_stmts_use_element(s: Seq<Stmt>, i: int, ns: Seq<char>)
    requires
        0 <= i < s.len(),
        stmt_uses(s[i], ns),
    ensures
        stmts_use(s, ns),
    decreases i,
{
    if i > 0 {
        let rest = s.subrange(1, s.len() as int);
        assert(rest[i - 1] == s[i]);
        lemma_stmts_use_element(rest, i - 1, ns);
    }
}

/// A loop, a branch or a listener uses every namespace that a statement of its body uses:
/// a type named only inside a `for`, `while`, `if` or `listen` body still counts as used
/// (see `lemma_enclosing_statement_uses` for `else`, `try`, `finally` and `use` bodies).
pub proof fn lemma_nested_statement_uses(s: Stmt, i: int, ns: Seq<char>)
    requires
        match s {
            Stmt::For { body, .. } => 0 <= i < body.stmts@.len() && stmt_uses(body.stmts@[i], ns),
            Stmt::While { body, .. } => 0 <= i < body.stmts@.len() && stmt_uses(body.stmts@[i], ns),
            Stmt::If { then_block, .. } => 0 <= i < then_block.stmts@.len() && stmt_uses(then_block.stmts@[i], ns),
            Stmt::Listen { body, .. } => 0 <= i < body.stmts@.len() && stmt_uses(body.stmts@[i], ns),
            _ => false,
        },
    ensures
        stmt_uses(s, ns),
{
    match s {
        Stmt::For { body, .. } => lemma_block_uses_statement(body, i, ns),
        Stmt::While { body, .. } => lemma_block_uses_statement(body, i, ns),
        Stmt::If { then_block, .. } => lemma_block_uses_statement(then_block, i, ns),
        Stmt::Listen { body, .. } => lemma_block_uses_statement(body, i, ns),
        _ => {},
    }
}

/// An `if` uses what its `else` block or `else if` uses; a `try` uses what its `try` and
/// `finally` blocks use; a `use` uses what its body uses.
pub proof fn lemma_enclosing_statement_uses(s: Stmt, i: int, ns: Seq<char>)
    requires
        match s {
            Stmt::If { else_branch: Some(ElseBranch::ElseBlock(b)), .. } => 0 <= i < b.stmts@.len() && stmt_uses(b.stmts@[i], ns),
            Stmt::If { else_branch: Some(ElseBranch::ElseIf(inner)), .. } => stmt_uses(*inner, ns),
            Stmt::Try { try_block, finally_block, .. } => (0 <= i < try_block.stmts@.len() && stmt_uses(try_block.stmts@[i], ns))
                || (finally_block matches Some(f) && 0 <= i < f.stmts@.len() && stmt_uses(f.stmts@[i], ns)),
            Stmt::Use { body: Some(b), .. } => 0 <= i < b.stmts@.len() && stmt_uses(b.stmts@[i], ns),
            _ => false,
        },
    ensures
        stmt_uses(s, ns),
{
    match s {
        Stmt::If { else_branch: Some(ElseBranch::ElseBlock(b)), .. } => lemma_block_uses_statement(b, i, ns),
        Stmt::If { else_branch: Some(ElseBranch::ElseIf(inner)), .. } => {
            assert(stmt_uses(*inner, ns));
        },
        Stmt::Try { try_block, finally_block, .. } => {
            if 0 <= i < try_block.stmts@.len() && stmt_uses(try_block.stmts@[i], ns) {
                lemma_block_uses_statement(try_block, i, ns);
            } else {
                lemma_block_uses_statement(finally_block->0, i, ns);
                assert(opt_block_uses(finally_block, ns));
            }
        },
        Stmt::Use { body: Some(b), .. } => {
            lemma_block_uses_statement(b, i, ns);
            assert(opt_block_uses(Some(b), ns));
        },
        _ => {},
    }
}

} // verus!
