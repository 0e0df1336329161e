//! The "add explicit type argument" code action: a generic lookup such as `get()` whose
//! result type is known from its context (a typed `val`, a return type, a parameter of a
//! function of the same declaration) gets that type written out, `get<WeaponData>()`.
use vstd::prelude::*;
use crate::token::{Position, Span};
use crate::ast::{
    Arg, Block, CatchClause, Decl, ElseBranch, Expr, File, FuncBody, LambdaBody, Member, Param,
    PreprocessorArm, Stmt, StringPart, TypeRef, WaitForm, WhenBody, WhenBranch, WhenPattern,
};
use crate::text::{cat2, cat3, owned, str_eq};
use crate::lsp::organize::{parse_prsm_file, spec_usings_read_from};

verus! {

// ── Positions and selections ─────────────────────────────────────

/// `a` comes before `b`: an earlier line, or the same line and an earlier column.
pub open spec fn spec_position_less(a: Position, b: Position) -> bool {
    a.line < b.line || (a.line == b.line && a.col < b.col)
}

/// Whether `a` comes before `b`.
pub fn position_less(a: Position, b: Position) -> (r: bool)
    ensures
        r == spec_position_less(a, b),
{
    a.line < b.line || (a.line == b.line && a.col < b.col)
}

/// Whether two positions are the same.
pub fn positions_equal(left: Position, right: Position) -> (r: bool)
    ensures
        r == (left == right),
{
    left.line == right.line && left.col == right.col
}

/// `position` lies in `span`, both ends included.
pub open spec fn spec_point_within_span(position: Position, span: Span) -> bool {
    !spec_position_less(position, span.start) && !spec_position_less(span.end, position)
}

/// Whether `position` lies in `span`, both ends included.
pub fn point_within_span(position: Position, span: Span) -> (r: bool)
    ensures
        r == spec_point_within_span(position, span),
{
    !position_less(position, span.start) && !position_less(span.end, position)
}

/// Two spans share at least one position (touching ends count).
pub open spec fn spec_spans_overlap(left: Span, right: Span) -> bool {
    !spec_position_less(left.end, right.start) && !spec_position_less(right.end, left.start)
}

/// Whether two spans share at least one position.
pub fn spans_overlap(left: Span, right: Span) -> (r: bool)
    ensures
        r == spec_spans_overlap(left, right),
{
    !position_less(left.end, right.start) && !position_less(right.end, left.start)
}

/// An empty selection (a caret) targets a span that holds it; a proper selection targets a
/// span that it overlaps.
pub open spec fn spec_selection_targets_span(selection: Span, target: Span) -> bool {
    if selection.start == selection.end {
        spec_point_within_span(selection.start, target)
    } else {
        spec_spans_overlap(selection, target)
    }
}

/// Whether the editor's selection targets `target`.
pub fn selection_targets_span(selection_span: Span, target_span: Span) -> (r: bool)
    ensures
        r == spec_selection_targets_span(selection_span, target_span),
{
    if positions_equal(selection_span.start, selection_span.end) {
        return point_within_span(selection_span.start, target_span);
    }
    spans_overlap(selection_span, target_span)
}

// ── Which calls infer their type argument ────────────────────────

/// Generic lookups whose type argument the compiler infers from the expected type: free
/// `get`, `require`, `find`, `child`, `parent`, `loadJson`, and the component lookups
/// called on a receiver.
pub open spec fn spec_supports_expected_type_inference(has_receiver: bool, name: Seq<char>) -> bool {
    if !has_receiver {
        ||| name == "get"@
        ||| name == "require"@
        ||| name == "find"@
        ||| name == "child"@
        ||| name == "parent"@
        ||| name == "loadJson"@
    } else {
        ||| name == "getComponent"@
        ||| name == "getComponentInChildren"@
        ||| name == "getComponentInParent"@
        ||| name == "findFirstObjectByType"@
    }
}

/// Whether a call of `name` (on a receiver or not) takes its type argument from the
/// expected type.
pub fn supports_expected_type_inference_lsp(receiver: Option<&Expr>, name: &str) -> (r: bool)
    ensures
        r == spec_supports_expected_type_inference(receiver is Some, name@),
{
    match receiver {
        None => {
            str_eq(name, "get") || str_eq(name, "require") || str_eq(name, "find") || str_eq(name, "child")
                || str_eq(name, "parent") || str_eq(name, "loadJson")
        },
        Some(_) => {
            str_eq(name, "getComponent") || str_eq(name, "getComponentInChildren")
                || str_eq(name, "getComponentInParent") || str_eq(name, "findFirstObjectByType")
        },
    }
}

// ── Types as source text ─────────────────────────────────────────

/// `base`, with `?` appended when nullable.
pub open spec fn spec_with_nullable(base: Seq<char>, nullable: bool) -> Seq<char> {
    if nullable { base + "?"@ } else { base }
}

pub open spec fn spec_type_nullable(t: TypeRef) -> bool {
    match t {
        TypeRef::Simple { nullable, .. } => nullable,
        TypeRef::Generic { nullable, .. } => nullable,
        TypeRef::Qualified { nullable, .. } => nullable,
        TypeRef::Tuple { nullable, .. } => nullable,
        TypeRef::Function { nullable, .. } => nullable,
    }
}

/// A type as PrSM source, without the outer `?`: `Name`, `Name<A, B>`, `Q.Name`, `(A, B)`,
/// `(A, B) => R`.
pub open spec fn spec_type_source_base(t: TypeRef) -> Seq<char>
    decreases t, 0nat,
{
    match t {
        TypeRef::Simple { name, .. } => name@,
        TypeRef::Generic { name, type_args, .. } => name@ + "<"@ + spec_type_list_source(type_args@) + ">"@,
        TypeRef::Qualified { qualifier, name, .. } => qualifier@ + "."@ + name@,
        TypeRef::Tuple { types, .. } => "("@ + spec_type_list_source(types@) + ")"@,
        TypeRef::Function { param_types, return_type, .. } => {
            "("@ + spec_type_list_source(param_types@) + ") => "@ + spec_type_source(*return_type)
        },
    }
}

/// A type as PrSM source, `?` included.
pub open spec fn spec_type_source(t: TypeRef) -> Seq<char>
    decreases t, 1nat,
{
    spec_with_nullable(spec_type_source_base(t), spec_type_nullable(t))
}

/// Types as source, joined by `", "`.
pub open spec fn spec_type_list_source(s: Seq<TypeRef>) -> Seq<char>
    decreases s, 0nat,
{
    if s.len() == 0 {
        Seq::empty()
    } else if s.len() == 1 {
        spec_type_source(s[0])
    } else {
        spec_type_list_source(s.subrange(0, s.len() - 1)) + ", "@ + spec_type_source(s[s.len() - 1])
    }
}

/// A type as PrSM source, without its outer `?`.
pub fn format_type_ref_source_non_null(ty: &TypeRef) -> (r: String)
    ensures
        r@ == spec_type_source_base(*ty),
    decreases ty, 0nat,
{
    match ty {
        TypeRef::Simple { name, .. } => owned(name.as_str()),
        TypeRef::Generic { name, type_args, .. } => {
            let list = format_type_list_source(type_args);
            let mut s = cat3(name.as_str(), "<", list.as_str());
            s.append(">");
            s
        },
        TypeRef::Qualified { qualifier, name, .. } => cat3(qualifier.as_str(), ".", name.as_str()),
        TypeRef::Tuple { types, .. } => {
            let list = format_type_list_source(types);
            cat3("(", list.as_str(), ")")
        },
        TypeRef::Function { param_types, return_type, .. } => {
            let list = format_type_list_source(param_types);
            let ret = format_type_ref_source(return_type);
            let mut s = cat3("(", list.as_str(), ") => ");
            s.append(ret.as_str());
            s
        },
    }
}

/// A type as PrSM source.
pub fn format_type_ref_source(ty: &TypeRef) -> (r: String)
    ensures
        r@ == spec_type_source(*ty),
    decreases ty, 1nat,
{
    let base = format_type_ref_source_non_null(ty);
    let nullable = match ty {
        TypeRef::Simple { nullable, .. } | TypeRef::Generic { nullable, .. } | TypeRef::Qualified { nullable, .. }
        | TypeRef::Tuple { nullable, .. } | TypeRef::Function { nullable, .. } => *nullable,
    };
    format_nullable_type_ref_source(base, nullable)
}

/// `base`, with `?` appended when nullable.
pub fn format_nullable_type_ref_source(base: String, nullable: bool) -> (r: String)
    ensures
        r@ == spec_with_nullable(base@, nullable),
{
    if nullable {
        cat2(base.as_str(), "?")
    } else {
        base
    }
}

/// Types as source, joined by `", "`.
fn format_type_list_source(types: &Vec<TypeRef>) -> (r: String)
    ensures
        r@ == spec_type_list_source(types@),
    decreases types, 2nat,
{
    let mut s = String::new();
    let mut i: usize = 0;
    while i < types.len()
        invariant
            i <= types@.len(),
            s@ == spec_type_list_source(types@.take(i as int)),
        decreases types@.len() - i,
    {
        let t = format_type_ref_source(&types[i]);
        proof {
            assert(types@.take(i + 1).subrange(0, i as int) =~= types@.take(i as int));
            assert(types@.take(i + 1)[i as int] == types@[i as int]);
            if i == 0 {
                assert(types@.take(0) =~= Seq::<TypeRef>::empty());
            }
        }
        if i > 0 {
            s.append(", ");
        }
        s.append(t.as_str());
        i = i + 1;
    }
    proof {
        assert(types@.take(types@.len() as int) =~= types@);
    }
    s
}

// ── Signatures of the declaration's own functions ────────────────

/// The name of a function-like member (function, coroutine, intrinsic function or coroutine).
pub open spec fn spec_callable_name(m: Member) -> Option<Seq<char>> {
    match m {
        Member::Func { name, .. } => Some(name@),
        Member::Coroutine { name, .. } => Some(name@),
        Member::IntrinsicFunc { name, .. } => Some(name@),
        Member::IntrinsicCoroutine { name, .. } => Some(name@),
        _ => None,
    }
}

/// The parameters of a function-like member.
pub open spec fn spec_callable_params(m: Member) -> Seq<Param> {
    match m {
        Member::Func { params, .. } => params@,
        Member::Coroutine { params, .. } => params@,
        Member::IntrinsicFunc { params, .. } => params@,
        Member::IntrinsicCoroutine { params, .. } => params@,
        _ => Seq::empty(),
    }
}

/// The last function-like member named `name`: a later declaration of a name replaces an
/// earlier one.
pub open spec fn spec_last_callable(members: Seq<Member>, name: Seq<char>) -> Option<int>
    decreases members.len(),
{
    if members.len() == 0 {
        None
    } else if spec_callable_name(members[members.len() - 1]) == Some(name) {
        Some(members.len() - 1)
    } else {
        spec_last_callable(members.subrange(0, members.len() - 1), name)
    }
}

/// The signature a call resolves to: calls without a receiver or on `this` resolve to the
/// declaration's own function of that name.
pub open spec fn spec_call_signature(members: Seq<Member>, direct: bool, name: Seq<char>) -> Option<int> {
    if direct { spec_last_callable(members, name) } else { None }
}

/// The type that argument `index` of a call is expected to have.
pub open spec fn spec_arg_expected_type(members: Seq<Member>, signature: Option<int>, index: int) -> Option<TypeRef> {
    match signature {
        Some(k) => if 0 <= k < members.len() && 0 <= index < spec_callable_params(members[k]).len() {
            Some(spec_callable_params(members[k])[index].ty)
        } else {
            None
        },
        None => None,
    }
}

/// A receiver that resolves to the declaration itself: none, or `this`.
pub open spec fn spec_direct_receiver(receiver: Option<Expr>) -> bool {
    match receiver {
        None => true,
        Some(Expr::This(_)) => true,
        _ => false,
    }
}

/// The member that a call of `name` resolves to, if it is one of the declaration's own
/// functions.
pub fn lookup_lsp_callable_signature(receiver: Option<&Expr>, name: &str, members: &Vec<Member>) -> (r: Option<usize>)
    ensures
        match r {
            Some(k) => spec_call_signature(members@, spec_direct_receiver(opt_deref(receiver)), name@) == Some(k as int),
            None => spec_call_signature(members@, spec_direct_receiver(opt_deref(receiver)), name@) is None,
        },
{
    let direct = match receiver {
        None => true,
        Some(Expr::This(_)) => true,
        Some(_) => false,
    };
    if !direct {
        return None;
    }
    let mut i: usize = members.len();
    assert(members@.subrange(0, members@.len() as int) =~= members@);
    while i > 0
        invariant
            i <= members@.len(),
            spec_last_callable(members@, name@) == spec_last_callable(members@.subrange(0, i as int), name@),
            spec_direct_receiver(opt_deref(receiver)),
        decreases i,
    {
        let found = callable_named(&members[i - 1], name);
        proof {
            let pre = members@.subrange(0, i as int);
            assert(pre[i - 1] == members@[i - 1]);
            assert(pre.subrange(0, i - 1) =~= members@.subrange(0, i - 1));
        }
        if found {
            return Some(i - 1);
        }
        i = i - 1;
    }
    None
}

/// Whether `m` is a function-like member named `name`.
fn callable_named(m: &Member, name: &str) -> (r: bool)
    ensures
        r == (spec_callable_name(*m) == Some(name@)),
{
    match m {
        Member::Func { name: n, .. } => str_eq(n.as_str(), name),
        Member::Coroutine { name: n, .. } => str_eq(n.as_str(), name),
        Member::IntrinsicFunc { name: n, .. } => str_eq(n.as_str(), name),
        Member::IntrinsicCoroutine { name: n, .. } => str_eq(n.as_str(), name),
        _ => false,
    }
}

/// Views an optional reference as an optional value.
pub open spec fn opt_deref<T>(o: Option<&T>) -> Option<T> {
    match o {
        Some(t) => Some(*t),
        None => None,
    }
}

/// The expected type of argument `index`, from the resolved signature.
fn arg_expected_type<'a>(members: &'a Vec<Member>, signature: Option<usize>, index: usize) -> (r: Option<&'a TypeRef>)
    ensures
        opt_deref(r) == spec_arg_expected_type(members@, match signature { Some(k) => Some(k as int), None => None }, index as int),
{
    match signature {
        Some(k) => {
            if k >= members.len() {
                return None;
            }
            match &members[k] {
                Member::Func { params, .. } | Member::Coroutine { params, .. } | Member::IntrinsicFunc { params, .. }
                | Member::IntrinsicCoroutine { params, .. } => {
                    if index < params.len() {
                        Some(&params[index].ty)
                    } else {
                        None
                    }
                },
                _ => None,
            }
        },
        None => None,
    }
}

// ── The actions ──────────────────────────────────────────────────

/// Insert `insert_text` at `insert_at`; the editor shows `title`.
pub struct ExplicitTypeArgCodeAction {
    pub title: String,
    pub insert_at: Position,
    pub insert_text: String,
}

/// An action as plain values: title, insertion point, inserted text.
pub open spec fn spec_action_view(a: ExplicitTypeArgCodeAction) -> (Seq<char>, Position, Seq<char>) {
    (a.title@, a.insert_at, a.insert_text@)
}

pub open spec fn spec_action_views(v: Seq<ExplicitTypeArgCodeAction>) -> Seq<(Seq<char>, Position, Seq<char>)> {
    v.map_values(|a: ExplicitTypeArgCodeAction| spec_action_view(a))
}

/// The action offered for one call: none unless the call has a name, no type arguments, is a
/// lookup that infers its type argument, is targeted by the selection, and has an expected
/// type whose source (without `?`) is neither empty nor `Unit`.
pub open spec fn spec_call_action(
    has_receiver: bool,
    name: Seq<char>,
    name_span: Span,
    has_type_args: bool,
    expected: Option<TypeRef>,
    selection: Span,
) -> Seq<(Seq<char>, Position, Seq<char>)> {
    if name.len() == 0 || has_type_args || !spec_supports_expected_type_inference(has_receiver, name)
        || !spec_selection_targets_span(selection, name_span) {
        Seq::empty()
    } else {
        match expected {
            None => Seq::empty(),
            Some(t) => {
                let text = spec_type_source_base(t);
                if text.len() == 0 || text == "Unit"@ {
                    Seq::empty()
                } else {
                    seq![("Add explicit type argument <"@ + text + ">"@, name_span.end, "<"@ + text + ">"@)]
                }
            },
        }
    }
}

/// An action that inserts the type argument `<t>`, titled after it, where `t` is neither empty
/// nor `Unit`.
pub open spec fn spec_inserts_type_argument(a: (Seq<char>, Position, Seq<char>), t: Seq<char>) -> bool {
    &&& t.len() > 0 && t != "Unit"@
    &&& a.0 == "Add explicit type argument <"@ + t + ">"@
    &&& a.2 == "<"@ + t + ">"@
}

/// A call gets at most one action, and that action inserts `<t>` right after the call's name,
/// `t` being the source of the expected type (without `?`), neither empty nor `Unit`.
pub proof fn lemma_call_action_form(
    has_receiver: bool,
    name: Seq<char>,
    name_span: Span,
    has_type_args: bool,
    expected: Option<TypeRef>,
    selection: Span,
)
    ensures
        ({
            let acts = spec_call_action(has_receiver, name, name_span, has_type_args, expected, selection);
            &&& acts.len() <= 1
            &&& acts.len() == 1 ==> {
                &&& expected is Some
                &&& !has_type_args
                &&& acts[0].1 == name_span.end
                &&& spec_inserts_type_argument(acts[0], spec_type_source_base(expected->0))
            }
        }),
{
}

/// Unity's generic lookups take their type argument from the expected type: a call of
/// `getComponent`, `getComponentInChildren`, `getComponentInParent` or `findFirstObjectByType`
/// on a receiver, or of `get`, `require`, `find`, `child`, `parent` or `loadJson` without one,
/// written without type arguments, targeted by the selection, where a type `t` (neither empty
/// nor `Unit`) is expected, gets exactly one action: insert `<t>` after the call's name.
pub proof fn lemma_generic_lookup_gets_action(
    has_receiver: bool,
    name: Seq<char>,
    name_span: Span,
    expected: TypeRef,
    selection: Span,
)
    requires
        has_receiver ==> (name == "getComponent"@ || name == "getComponentInChildren"@
            || name == "getComponentInParent"@ || name == "findFirstObjectByType"@),
        !has_receiver ==> (name == "get"@ || name == "require"@ || name == "find"@ || name == "child"@
            || name == "parent"@ || name == "loadJson"@),
        spec_selection_targets_span(selection, name_span),
        spec_type_source_base(expected).len() > 0,
        spec_type_source_base(expected) != "Unit"@,
    ensures
        ({
            let t = spec_type_source_base(expected);
            spec_call_action(has_receiver, name, name_span, false, Some(expected), selection)
                == seq![("Add explicit type argument <"@ + t + ">"@, name_span.end, "<"@ + t + ">"@)]
        }),
{
    reveal_strlit("getComponent");
    reveal_strlit("getComponentInChildren");
    reveal_strlit("getComponentInParent");
    reveal_strlit("findFirstObjectByType");
    reveal_strlit("get");
    reveal_strlit("require");
    reveal_strlit("find");
    reveal_strlit("child");
    reveal_strlit("parent");
    reveal_strlit("loadJson");
}

/// Only those lookups get the action: any other call, or a lookup written with type
/// arguments, gets none.
pub proof fn lemma_only_generic_lookups_get_action(
    has_receiver: bool,
    name: Seq<char>,
    name_span: Span,
    has_type_args: bool,
    expected: Option<TypeRef>,
    selection: Span,
)
    requires
        spec_call_action(has_receiver, name, name_span, has_type_args, expected, selection).len() > 0,
    ensures
        !has_type_args,
        has_receiver ==> (name == "getComponent"@ || name == "getComponentInChildren"@
            || name == "getComponentInParent"@ || name == "findFirstObjectByType"@),
        !has_receiver ==> (name == "get"@ || name == "require"@ || name == "find"@ || name == "child"@
            || name == "parent"@ || name == "loadJson"@),
{
}

/// Deduplicating keeps only actions of the list, so a property of every action of the list
/// holds of every action offered.
pub proof fn lemma_dedup_keeps_form(s: Seq<(Seq<char>, Position, Seq<char>)>, p: spec_fn((Seq<char>, Position, Seq<char>)) -> bool)
    requires
        forall|i: int| 0 <= i < s.len() ==> p(#[trigger] s[i]),
    ensures
        forall|i: int| 0 <= i < spec_dedup_actions(s).len() ==> p(#[trigger] spec_dedup_actions(s)[i]),
{
    lemma_dedup_actions(s);
    assert forall|i: int| 0 <= i < spec_dedup_actions(s).len() implies p(#[trigger] spec_dedup_actions(s)[i]) by {
        let x = spec_dedup_actions(s)[i];
        assert(spec_dedup_actions(s).contains(x));
        assert(s.contains(x));
        let k = choose|k: int| 0 <= k < s.len() && s[k] == x;
        assert(p(s[k]));
    }
}

/// Offers the action for one call, if it qualifies (see `spec_call_action`).
pub fn maybe_push_explicit_type_arg_action(
    receiver: Option<&Expr>,
    name: &str,
    name_span: Span,
    type_args: &Vec<TypeRef>,
    expected_type: Option<&TypeRef>,
    selection_span: Span,
    actions: &mut Vec<ExplicitTypeArgCodeAction>,
)
    ensures
        spec_action_views(final(actions)@) == spec_action_views(old(actions)@) + spec_call_action(
            receiver is Some, name@, name_span, type_args@.len() > 0, opt_deref(expected_type), selection_span),
{
    proof {
        assert(spec_action_views(old(actions)@) + Seq::empty() =~= spec_action_views(old(actions)@));
    }
    if name.is_empty() || type_args.len() > 0 || !supports_expected_type_inference_lsp(receiver, name)
        || !selection_targets_span(selection_span, name_span) {
        return;
    }
    let expected = match expected_type {
        Some(t) => t,
        None => return,
    };
    let explicit_type = format_type_ref_source_non_null(expected);
    if explicit_type.as_str().is_empty() || str_eq(explicit_type.as_str(), "Unit") {
        return;
    }
    let title = cat3("Add explicit type argument <", explicit_type.as_str(), ">");
    let insert_text = cat3("<", explicit_type.as_str(), ">");
    let ghost before = actions@;
    actions.push(ExplicitTypeArgCodeAction { title, insert_at: name_span.end, insert_text });
    proof {
        assert(spec_action_views(actions@) =~= spec_action_views(before).push(spec_action_view(actions@[before.len() as int])));
    }
}

// The traversal: which calls are looked at, and with what expected type.

pub open spec fn spec_block_actions(b: Block, er: Option<TypeRef>, members: Seq<Member>, sel: Span) -> Seq<(Seq<char>, Position, Seq<char>)>
    decreases b,
{
    spec_stmts_actions(b.stmts@, er, members, sel)
}

pub open spec fn spec_stmts_actions(s: Seq<Stmt>, er: Option<TypeRef>, members: Seq<Member>, sel: Span) -> Seq<(Seq<char>, Position, Seq<char>)>
    decreases s,
{
    if s.len() == 0 {
        Seq::empty()
    } else {
        spec_stmts_actions(s.subrange(0, s.len() - 1), er, members, sel) + spec_stmt_actions(s[s.len() - 1], er, members, sel)
    }
}

/// A block whose value is its last statement: that statement's expression (or returned
/// value) gets the expected type; the statements before it see it as the return type.
pub open spec fn spec_value_block_actions(b: Block, expected: Option<TypeRef>, members: Seq<Member>, sel: Span) -> Seq<(Seq<char>, Position, Seq<char>)>
    decreases b,
{
    let s = b.stmts@;
    if s.len() == 0 {
        Seq::empty()
    } else {
        spec_stmts_actions(s.subrange(0, s.len() - 1), expected, members, sel) + match s[s.len() - 1] {
            Stmt::Expr { expr, .. } => spec_expr_actions(expr, expected, members, sel),
            Stmt::Return { value: Some(e), .. } => spec_expr_actions(e, expected, members, sel),
            _ => spec_stmt_actions(s[s.len() - 1], expected, members, sel),
        }
    }
}

pub open spec fn spec_opt_expr_actions(o: Option<Expr>, members: Seq<Member>, sel: Span) -> Seq<(Seq<char>, Position, Seq<char>)>
    decreases o,
{
    match o {
        Some(e) => spec_expr_actions(e, None, members, sel),
        None => Seq::empty(),
    }
}

pub open spec fn spec_opt_boxed_expr_actions(o: Option<Box<Expr>>, members: Seq<Member>, sel: Span) -> Seq<(Seq<char>, Position, Seq<char>)>
    decreases o,
{
    match o {
        Some(e) => spec_expr_actions(*e, None, members, sel),
        None => Seq::empty(),
    }
}

pub open spec fn spec_opt_block_actions(o: Option<Block>, er: Option<TypeRef>, members: Seq<Member>, sel: Span) -> Seq<(Seq<char>, Position, Seq<char>)>
    decreases o,
{
    match o {
        Some(b) => spec_block_actions(b, er, members, sel),
        None => Seq::empty(),
    }
}

/// A `when` statement branch: its expression pattern and guard have no expected type; a
/// block body sees the enclosing return type.
pub open spec fn spec_stmt_branch_actions(b: WhenBranch, er: Option<TypeRef>, members: Seq<Member>, sel: Span) -> Seq<(Seq<char>, Position, Seq<char>)>
    decreases b,
{
    (match b.pattern {
        WhenPattern::Expression(e) => spec_expr_actions(e, None, members, sel),
        _ => Seq::empty(),
    }) + spec_opt_expr_actions(b.guard, members, sel) + match b.body {
        WhenBody::Block(block) => spec_block_actions(block, er, members, sel),
        WhenBody::Expr(e) => spec_expr_actions(e, None, members, sel),
    }
}

pub open spec fn spec_stmt_branches_actions(s: Seq<WhenBranch>, er: Option<TypeRef>, members: Seq<Member>, sel: Span) -> Seq<(Seq<char>, Position, Seq<char>)>
    decreases s,
{
    if s.len() == 0 {
        Seq::empty()
    } else {
        spec_stmt_branches_actions(s.subrange(0, s.len() - 1), er, members, sel) + spec_stmt_branch_actions(s[s.len() - 1], er, members, sel)
    }
}

/// A `when` expression branch: as for statements, but the body gets the expected type of
/// the whole expression.
pub open spec fn spec_expr_branch_actions(b: WhenBranch, expected: Option<TypeRef>, members: Seq<Member>, sel: Span) -> Seq<(Seq<char>, Position, Seq<char>)>
    decreases b,
{
    (match b.pattern {
        WhenPattern::Expression(e) => spec_expr_actions(e, None, members, sel),
        _ => Seq::empty(),
    }) + spec_opt_expr_actions(b.guard, members, sel) + match b.body {
        WhenBody::Expr(e) => spec_expr_actions(e, expected, members, sel),
        WhenBody::Block(block) => spec_value_block_actions(block, expected, members, sel),
    }
}

pub open spec fn spec_expr_branches_actions(s: Seq<WhenBranch>, expected: Option<TypeRef>, members: Seq<Member>, sel: Span) -> Seq<(Seq<char>, Position, Seq<char>)>
    decreases s,
{
    if s.len() == 0 {
        Seq::empty()
    } else {
        spec_expr_branches_actions(s.subrange(0, s.len() - 1), expected, members, sel) + spec_expr_branch_actions(s[s.len() - 1], expected, members, sel)
    }
}

pub open spec fn spec_catch_actions(c: CatchClause, er: Option<TypeRef>, members: Seq<Member>, sel: Span) -> Seq<(Seq<char>, Position, Seq<char>)>
    decreases c,
{
    spec_block_actions(c.body, er, members, sel)
}

pub open spec fn spec_catches_actions(s: Seq<CatchClause>, er: Option<TypeRef>, members: Seq<Member>, sel: Span) -> Seq<(Seq<char>, Position, Seq<char>)>
    decreases s,
{
    if s.len() == 0 {
        Seq::empty()
    } else {
        spec_catches_actions(s.subrange(0, s.len() - 1), er, members, sel) + spec_catch_actions(s[s.len() - 1], er, members, sel)
    }
}

pub open spec fn spec_arm_actions(a: PreprocessorArm, er: Option<TypeRef>, members: Seq<Member>, sel: Span) -> Seq<(Seq<char>, Position, Seq<char>)>
    decreases a,
{
    spec_stmts_actions(a.body@, er, members, sel)
}

pub open spec fn spec_arms_actions(s: Seq<PreprocessorArm>, er: Option<TypeRef>, members: Seq<Member>, sel: Span) -> Seq<(Seq<char>, Position, Seq<char>)>
    decreases s,
{
    if s.len() == 0 {
        Seq::empty()
    } else {
        spec_arms_actions(s.subrange(0, s.len() - 1), er, members, sel) + spec_arm_actions(s[s.len() - 1], er, members, sel)
    }
}

/// The actions found in a statement; `er` is the enclosing function's return type.
pub open spec fn spec_stmt_actions(s: Stmt, er: Option<TypeRef>, members: Seq<Member>, sel: Span) -> Seq<(Seq<char>, Position, Seq<char>)>
    decreases s,
{
    match s {
        Stmt::ValDecl { ty, init, .. } => spec_expr_actions(init, ty, members, sel),
        Stmt::VarDecl { ty, init: Some(init), .. } => spec_expr_actions(init, ty, members, sel),
        Stmt::VarDecl { init: None, .. } => Seq::empty(),
        Stmt::StopAll { .. } => Seq::empty(),
        Stmt::IntrinsicBlock { .. } => Seq::empty(),
        Stmt::Break { .. } => Seq::empty(),
        Stmt::Continue { .. } => Seq::empty(),
        Stmt::Unlisten { .. } => Seq::empty(),
        Stmt::Assignment { target, value, .. } => {
            spec_expr_actions(target, None, members, sel) + spec_expr_actions(value, None, members, sel)
        },
        Stmt::Expr { expr, .. } => spec_expr_actions(expr, None, members, sel),
        Stmt::If { cond, then_block, else_branch, .. } => {
            spec_expr_actions(cond, None, members, sel) + spec_block_actions(then_block, er, members, sel)
                + match else_branch {
                Some(ElseBranch::ElseBlock(block)) => spec_block_actions(block, er, members, sel),
                Some(ElseBranch::ElseIf(inner)) => spec_stmt_actions(*inner, er, members, sel),
                None => Seq::empty(),
            }
        },
        Stmt::When { subject, branches, .. } => {
            spec_opt_expr_actions(subject, members, sel) + spec_stmt_branches_actions(branches@, er, members, sel)
        },
        Stmt::For { iterable, body, .. } => {
            spec_expr_actions(iterable, None, members, sel) + spec_block_actions(body, er, members, sel)
        },
        Stmt::DestructureVal { init, .. } => spec_expr_actions(init, None, members, sel),
        Stmt::While { cond, body, .. } => {
            spec_expr_actions(cond, None, members, sel) + spec_block_actions(body, er, members, sel)
        },
        Stmt::Return { value: Some(e), .. } => spec_expr_actions(e, er, members, sel),
        Stmt::Return { value: None, .. } => Seq::empty(),
        Stmt::Wait { form, .. } => match form {
            WaitForm::Duration(e) => spec_expr_actions(e, None, members, sel),
            WaitForm::Until(e) => spec_expr_actions(e, None, members, sel),
            WaitForm::While(e) => spec_expr_actions(e, None, members, sel),
            WaitForm::NextFrame => Seq::empty(),
            WaitForm::FixedFrame => Seq::empty(),
        },
        Stmt::Start { call, .. } => spec_expr_actions(call, None, members, sel),
        Stmt::Stop { target, .. } => spec_expr_actions(target, None, members, sel),
        Stmt::Listen { event, body, .. } => {
            spec_expr_actions(event, None, members, sel) + spec_block_actions(body, None, members, sel)
        },
        Stmt::Try { try_block, catches, finally_block, .. } => {
            spec_block_actions(try_block, er, members, sel) + spec_catches_actions(catches@, er, members, sel)
                + spec_opt_block_actions(finally_block, er, members, sel)
        },
        Stmt::Throw { expr, .. } => spec_expr_actions(expr, None, members, sel),
        Stmt::Use { ty, init, body, .. } => {
            spec_expr_actions(init, ty, members, sel) + spec_opt_block_actions(body, er, members, sel)
        },
        Stmt::BindTo { target, .. } => spec_expr_actions(target, None, members, sel),
        Stmt::Yield { value, .. } => spec_expr_actions(value, None, members, sel),
        Stmt::YieldBreak { .. } => Seq::empty(),
        Stmt::Preprocessor { arms, else_arm, .. } => {
            spec_arms_actions(arms@, er, members, sel) + match else_arm {
                Some(stmts) => spec_stmts_actions(stmts@, er, members, sel),
                None => Seq::empty(),
            }
        },
    }
}

/// The actions found in call arguments: argument `i` is expected to have the type of
/// parameter `i` of the resolved signature.
pub open spec fn spec_args_actions(s: Seq<Arg>, signature: Option<int>, members: Seq<Member>, sel: Span) -> Seq<(Seq<char>, Position, Seq<char>)>
    decreases s,
{
    if s.len() == 0 {
        Seq::empty()
    } else {
        spec_args_actions(s.subrange(0, s.len() - 1), signature, members, sel)
            + spec_expr_actions(s[s.len() - 1].value, spec_arg_expected_type(members, signature, s.len() - 1), members, sel)
    }
}

pub open spec fn spec_exprs_actions(s: Seq<Expr>, members: Seq<Member>, sel: Span) -> Seq<(Seq<char>, Position, Seq<char>)>
    decreases s,
{
    if s.len() == 0 {
        Seq::empty()
    } else {
        spec_exprs_actions(s.subrange(0, s.len() - 1), members, sel) + spec_expr_actions(s[s.len() - 1], None, members, sel)
    }
}

pub open spec fn spec_part_actions(p: StringPart, members: Seq<Member>, sel: Span) -> Seq<(Seq<char>, Position, Seq<char>)>
    decreases p,
{
    match p {
        StringPart::Expr(e) => spec_expr_actions(e, None, members, sel),
        StringPart::Literal(_) => Seq::empty(),
    }
}

pub open spec fn spec_parts_actions(s: Seq<StringPart>, members: Seq<Member>, sel: Span) -> Seq<(Seq<char>, Position, Seq<char>)>
    decreases s,
{
    if s.len() == 0 {
        Seq::empty()
    } else {
        spec_parts_actions(s.subrange(0, s.len() - 1), members, sel) + spec_part_actions(s[s.len() - 1], members, sel)
    }
}

pub open spec fn spec_pair_actions(p: (Expr, Expr), members: Seq<Member>, sel: Span) -> Seq<(Seq<char>, Position, Seq<char>)>
    decreases p,
{
    spec_expr_actions(p.0, None, members, sel) + spec_expr_actions(p.1, None, members, sel)
}

pub open spec fn spec_pairs_actions(s: Seq<(Expr, Expr)>, members: Seq<Member>, sel: Span) -> Seq<(Seq<char>, Position, Seq<char>)>
    decreases s,
{
    if s.len() == 0 {
        Seq::empty()
    } else {
        spec_pairs_actions(s.subrange(0, s.len() - 1), members, sel) + spec_pair_actions(s[s.len() - 1], members, sel)
    }
}

pub open spec fn spec_update_actions(u: (String, Expr), members: Seq<Member>, sel: Span) -> Seq<(Seq<char>, Position, Seq<char>)>
    decreases u,
{
    spec_expr_actions(u.1, None, members, sel)
}

pub open spec fn spec_updates_actions(s: Seq<(String, Expr)>, members: Seq<Member>, sel: Span) -> Seq<(Seq<char>, Position, Seq<char>)>
    decreases s,
{
    if s.len() == 0 {
        Seq::empty()
    } else {
        spec_updates_actions(s.subrange(0, s.len() - 1), members, sel) + spec_update_actions(s[s.len() - 1], members, sel)
    }
}

/// The actions found in an expression that is expected to have type `expected`.
pub open spec fn spec_expr_actions(e: Expr, expected: Option<TypeRef>, members: Seq<Member>, sel: Span) -> Seq<(Seq<char>, Position, Seq<char>)>
    decreases e,
{
    match e {
        Expr::StringInterp { parts, .. } => spec_parts_actions(parts@, members, sel),
        Expr::Binary { left, right, .. } => {
            spec_expr_actions(*left, None, members, sel) + spec_expr_actions(*right, None, members, sel)
        },
        Expr::Unary { operand, .. } => spec_expr_actions(*operand, None, members, sel),
        Expr::MemberAccess { receiver, .. } => spec_expr_actions(*receiver, None, members, sel),
        Expr::SafeCall { receiver, .. } => spec_expr_actions(*receiver, None, members, sel),
        Expr::SafeMethodCall { receiver, name, name_span, type_args, args, .. } => {
            spec_call_action(true, name@, name_span, type_args@.len() > 0, expected, sel)
                + spec_expr_actions(*receiver, None, members, sel)
                + spec_args_actions(args@, spec_call_signature(members, spec_direct_receiver(Some(*receiver)), name@), members, sel)
        },
        Expr::NonNullAssert { expr, .. } => spec_expr_actions(*expr, expected, members, sel),
        Expr::Elvis { left, right, .. } => {
            spec_expr_actions(*left, expected, members, sel) + spec_expr_actions(*right, expected, members, sel)
        },
        Expr::Call { receiver, name, name_span, type_args, args, .. } => {
            spec_call_action(receiver is Some, name@, name_span, type_args@.len() > 0, expected, sel)
                + spec_opt_boxed_expr_actions(receiver, members, sel)
                + spec_args_actions(args@, spec_call_signature(members, spec_direct_receiver(match receiver { Some(r) => Some(*r), None => None }), name@), members, sel)
        },
        Expr::IndexAccess { receiver, index, .. } => {
            spec_expr_actions(*receiver, None, members, sel) + spec_expr_actions(*index, None, members, sel)
        },
        Expr::SafeIndexAccess { receiver, index, .. } => {
            spec_expr_actions(*receiver, None, members, sel) + spec_expr_actions(*index, None, members, sel)
        },
        Expr::IfExpr { cond, then_block, else_block, .. } => {
            spec_expr_actions(*cond, None, members, sel) + spec_value_block_actions(then_block, expected, members, sel)
                + spec_value_block_actions(else_block, expected, members, sel)
        },
        Expr::WhenExpr { subject, branches, .. } => {
            spec_opt_boxed_expr_actions(subject, members, sel) + spec_expr_branches_actions(branches@, expected, members, sel)
        },
        Expr::Range { start, end, step, .. } => {
            spec_opt_boxed_expr_actions(start, members, sel) + spec_opt_boxed_expr_actions(end, members, sel)
                + spec_opt_boxed_expr_actions(step, members, sel)
        },
        Expr::Is { expr, .. } => spec_expr_actions(*expr, None, members, sel),
        Expr::Lambda { body, .. } => match body {
            LambdaBody::Block(block) => spec_block_actions(block, None, members, sel),
            LambdaBody::Expr(inner) => spec_expr_actions(*inner, None, members, sel),
        },
        Expr::SafeCastExpr { expr, .. } => spec_expr_actions(*expr, None, members, sel),
        Expr::ForceCastExpr { expr, .. } => spec_expr_actions(*expr, None, members, sel),
        Expr::Tuple { elements, .. } => spec_exprs_actions(elements@, members, sel),
        Expr::ListLit { elements, .. } => spec_exprs_actions(elements@, members, sel),
        Expr::MapLit { entries, .. } => spec_pairs_actions(entries@, members, sel),
        Expr::Await { expr, .. } => spec_expr_actions(*expr, None, members, sel),
        Expr::RefOf { inner, .. } => spec_expr_actions(*inner, None, members, sel),
        Expr::ThrowExpr { exception, .. } => spec_expr_actions(*exception, None, members, sel),
        Expr::With { receiver, updates, .. } => {
            spec_expr_actions(*receiver, None, members, sel) + spec_updates_actions(updates@, members, sel)
        },
        Expr::StackAlloc { size, .. } => spec_expr_actions(*size, None, members, sel),
        Expr::TryExpr { try_block, catches, .. } => {
            spec_block_actions(try_block, None, members, sel) + spec_catches_actions(catches@, None, members, sel)
        },
        Expr::IntLit(..) => Seq::empty(),
        Expr::FloatLit(..) => Seq::empty(),
        Expr::DurationLit(..) => Seq::empty(),
        Expr::StringLit(..) => Seq::empty(),
        Expr::BoolLit(..) => Seq::empty(),
        Expr::Null(..) => Seq::empty(),
        Expr::Ident(..) => Seq::empty(),
        Expr::This(..) => Seq::empty(),
        Expr::IntrinsicExpr { .. } => Seq::empty(),
        Expr::NameOf { .. } => Seq::empty(),
    }
}

/// The actions found in a member: a function's body sees its return type (an expression
/// body is expected to have it); coroutine and lifecycle bodies have no return type.
pub open spec fn spec_member_actions(m: Member, members: Seq<Member>, sel: Span) -> Seq<(Seq<char>, Position, Seq<char>)> {
    match m {
        Member::Func { return_ty, body, .. } => match body {
            FuncBody::Block(block) => spec_block_actions(block, return_ty, members, sel),
            FuncBody::ExprBody(e) => spec_expr_actions(e, return_ty, members, sel),
        },
        Member::Coroutine { body, .. } => spec_block_actions(body, None, members, sel),
        Member::Lifecycle { body, .. } => spec_block_actions(body, None, members, sel),
        _ => Seq::empty(),
    }
}

pub open spec fn spec_members_actions(s: Seq<Member>, members: Seq<Member>, sel: Span) -> Seq<(Seq<char>, Position, Seq<char>)>
    decreases s.len(),
{
    if s.len() == 0 {
        Seq::empty()
    } else {
        spec_members_actions(s.subrange(0, s.len() - 1), members, sel) + spec_member_actions(s[s.len() - 1], members, sel)
    }
}


// ── The traversal ────────────────────────────────────────────────

/// Borrows the type inside an optional type.
fn opt_ref(o: &Option<TypeRef>) -> (r: Option<&TypeRef>)
    ensures
        opt_deref(r) == *o,
{
    match o {
        Some(t) => Some(t),
        None => None,
    }
}

/// Collects the actions of a block's statements; `expected_return_ty` is the enclosing
/// function's return type.
pub fn collect_block_explicit_type_arg_actions(
    block: &Block,
    members: &Vec<Member>,
    expected_return_ty: Option<&TypeRef>,
    selection_span: Span,
    actions: &mut Vec<ExplicitTypeArgCodeAction>,
)
    ensures
        spec_action_views(final(actions)@) == spec_action_views(old(actions)@)
            + spec_block_actions(*block, opt_deref(expected_return_ty), members@, selection_span),
    decreases block,
{
    collect_stmts_explicit_type_arg_actions(&block.stmts, members, expected_return_ty, selection_span, actions);
}

fn collect_stmts_explicit_type_arg_actions(
    stmts: &Vec<Stmt>,
    members: &Vec<Member>,
    expected_return_ty: Option<&TypeRef>,
    selection_span: Span,
    actions: &mut Vec<ExplicitTypeArgCodeAction>,
)
    ensures
        spec_action_views(final(actions)@) == spec_action_views(old(actions)@)
            + spec_stmts_actions(stmts@, opt_deref(expected_return_ty), members@, selection_span),
    decreases stmts,
{
    let mut i: usize = 0;
    while i < stmts.len()
        invariant
            i <= stmts@.len(),
            spec_action_views(actions@) == spec_action_views(old(actions)@)
                + spec_stmts_actions(stmts@.take(i as int), opt_deref(expected_return_ty), members@, selection_span),
        decreases stmts@.len() - i,
    {
        proof {
            assert(stmts@.take(i + 1).subrange(0, i as int) =~= stmts@.take(i as int));
            assert(stmts@.take(i + 1)[i as int] == stmts@[i as int]);
        }
        collect_stmt_explicit_type_arg_actions(&stmts[i], members, expected_return_ty, selection_span, actions);
        i = i + 1;
    }
    proof {
        assert(stmts@.take(stmts@.len() as int) =~= stmts@);
    }
}

/// Collects the actions of a block used as a value of type `expected_type`.
pub fn collect_value_block_explicit_type_arg_actions(
    block: &Block,
    members: &Vec<Member>,
    expected_type: Option<&TypeRef>,
    selection_span: Span,
    actions: &mut Vec<ExplicitTypeArgCodeAction>,
)
    ensures
        spec_action_views(final(actions)@) == spec_action_views(old(actions)@)
            + spec_value_block_actions(*block, opt_deref(expected_type), members@, selection_span),
    decreases block,
{
    let stmts = &block.stmts;
    if stmts.len() == 0 {
        proof {
            assert(spec_action_views(old(actions)@) + Seq::empty() =~= spec_action_views(old(actions)@));
        }
        return;
    }
    let last_index = stmts.len() - 1;
    let mut i: usize = 0;
    while i < last_index
        invariant
            last_index + 1 == stmts@.len(),
            *stmts == block.stmts,
            i <= last_index,
            spec_action_views(actions@) == spec_action_views(old(actions)@)
                + spec_stmts_actions(stmts@.take(i as int), opt_deref(expected_type), members@, selection_span),
        decreases last_index - i,
    {
        proof {
            assert(stmts@.take(i + 1).subrange(0, i as int) =~= stmts@.take(i as int));
            assert(stmts@.take(i + 1)[i as int] == stmts@[i as int]);
        }
        collect_stmt_explicit_type_arg_actions(&stmts[i], members, expected_type, selection_span, actions);
        i = i + 1;
    }
    proof {
        assert(stmts@.take(last_index as int) =~= stmts@.subrange(0, stmts@.len() - 1));
    }
    match &stmts[last_index] {
        Stmt::Expr { expr, .. } => {
            collect_expr_explicit_type_arg_actions(expr, expected_type, members, selection_span, actions)
        },
        Stmt::Return { value: Some(e), .. } => {
            collect_expr_explicit_type_arg_actions(e, expected_type, members, selection_span, actions)
        },
        other => collect_stmt_explicit_type_arg_actions(other, members, expected_type, selection_span, actions),
    }
}

/// Collects the actions of an optional expression, which has no expected type.
fn collect_opt_expr_explicit_type_arg_actions(
    e: &Option<Expr>,
    members: &Vec<Member>,
    selection_span: Span,
    actions: &mut Vec<ExplicitTypeArgCodeAction>,
)
    ensures
        spec_action_views(final(actions)@) == spec_action_views(old(actions)@)
            + spec_opt_expr_actions(*e, members@, selection_span),
    decreases e,
{
    match e {
        Some(x) => collect_expr_explicit_type_arg_actions(x, None, members, selection_span, actions),
        None => {
            proof {
                assert(spec_action_views(old(actions)@) + Seq::empty() =~= spec_action_views(old(actions)@));
            }
        },
    }
}

fn collect_opt_boxed_expr_explicit_type_arg_actions(
    e: &Option<Box<Expr>>,
    members: &Vec<Member>,
    selection_span: Span,
    actions: &mut Vec<ExplicitTypeArgCodeAction>,
)
    ensures
        spec_action_views(final(actions)@) == spec_action_views(old(actions)@)
            + spec_opt_boxed_expr_actions(*e, members@, selection_span),
    decreases e,
{
    match e {
        Some(x) => collect_expr_explicit_type_arg_actions(x, None, members, selection_span, actions),
        None => {
            proof {
                assert(spec_action_views(old(actions)@) + Seq::empty() =~= spec_action_views(old(actions)@));
            }
        },
    }
}

fn collect_opt_block_explicit_type_arg_actions(
    b: &Option<Block>,
    members: &Vec<Member>,
    expected_return_ty: Option<&TypeRef>,
    selection_span: Span,
    actions: &mut Vec<ExplicitTypeArgCodeAction>,
)
    ensures
        spec_action_views(final(actions)@) == spec_action_views(old(actions)@)
            + spec_opt_block_actions(*b, opt_deref(expected_return_ty), members@, selection_span),
    decreases b,
{
    match b {
        Some(x) => collect_block_explicit_type_arg_actions(x, members, expected_return_ty, selection_span, actions),
        None => {
            proof {
                assert(spec_action_views(old(actions)@) + Seq::empty() =~= spec_action_views(old(actions)@));
            }
        },
    }
}

fn collect_stmt_branches_explicit_type_arg_actions(
    branches: &Vec<WhenBranch>,
    members: &Vec<Member>,
    expected_return_ty: Option<&TypeRef>,
    selection_span: Span,
    actions: &mut Vec<ExplicitTypeArgCodeAction>,
)
    ensures
        spec_action_views(final(actions)@) == spec_action_views(old(actions)@)
            + spec_stmt_branches_actions(branches@, opt_deref(expected_return_ty), members@, selection_span),
    decreases branches,
{
    let mut i: usize = 0;
    while i < branches.len()
        invariant
            i <= branches@.len(),
            spec_action_views(actions@) == spec_action_views(old(actions)@)
                + spec_stmt_branches_actions(branches@.take(i as int), opt_deref(expected_return_ty), members@, selection_span),
        decreases branches@.len() - i,
    {
        proof {
            assert(branches@.take(i + 1).subrange(0, i as int) =~= branches@.take(i as int));
            assert(branches@.take(i + 1)[i as int] == branches@[i as int]);
        }
        let branch = &branches[i];
        proof {
            let b = branches@[i as int];
            let er = opt_deref(expected_return_ty);
            assert(spec_stmt_branch_actions(b, er, members@, selection_span) == (match b.pattern {
                WhenPattern::Expression(e) => spec_expr_actions(e, None, members@, selection_span),
                _ => Seq::empty(),
            }) + spec_opt_expr_actions(b.guard, members@, selection_span) + match b.body {
                WhenBody::Block(block) => spec_block_actions(block, er, members@, selection_span),
                WhenBody::Expr(e) => spec_expr_actions(e, None, members@, selection_span),
            });
            assert(spec_action_views(actions@) + Seq::empty() =~= spec_action_views(actions@));
        }
        match &branch.pattern {
            WhenPattern::Expression(e) => collect_expr_explicit_type_arg_actions(e, None, members, selection_span, actions),
            _ => {},
        }
        collect_opt_expr_explicit_type_arg_actions(&branch.guard, members, selection_span, actions);
        match &branch.body {
            WhenBody::Block(block) => {
                collect_block_explicit_type_arg_actions(block, members, expected_return_ty, selection_span, actions)
            },
            WhenBody::Expr(e) => collect_expr_explicit_type_arg_actions(e, None, members, selection_span, actions),
        }
        i = i + 1;
    }
    proof {
        assert(branches@.take(branches@.len() as int) =~= branches@);
    }
}

fn collect_expr_branches_explicit_type_arg_actions(
    branches: &Vec<WhenBranch>,
    members: &Vec<Member>,
    expected_type: Option<&TypeRef>,
    selection_span: Span,
    actions: &mut Vec<ExplicitTypeArgCodeAction>,
)
    ensures
        spec_action_views(final(actions)@) == spec_action_views(old(actions)@)
            + spec_expr_branches_actions(branches@, opt_deref(expected_type), members@, selection_span),
    decreases branches,
{
    let mut i: usize = 0;
    while i < branches.len()
        invariant
            i <= branches@.len(),
            spec_action_views(actions@) == spec_action_views(old(actions)@)
                + spec_expr_branches_actions(branches@.take(i as int), opt_deref(expected_type), members@, selection_span),
        decreases branches@.len() - i,
    {
        proof {
            assert(branches@.take(i + 1).subrange(0, i as int) =~= branches@.take(i as int));
            assert(branches@.take(i + 1)[i as int] == branches@[i as int]);
        }
        let branch = &branches[i];
        proof {
            let b = branches@[i as int];
            let ex = opt_deref(expected_type);
            assert(spec_expr_branch_actions(b, ex, members@, selection_span) == (match b.pattern {
                WhenPattern::Expression(e) => spec_expr_actions(e, None, members@, selection_span),
                _ => Seq::empty(),
            }) + spec_opt_expr_actions(b.guard, members@, selection_span) + match b.body {
                WhenBody::Expr(e) => spec_expr_actions(e, ex, members@, selection_span),
                WhenBody::Block(block) => spec_value_block_actions(block, ex, members@, selection_span),
            });
            assert(spec_action_views(actions@) + Seq::empty() =~= spec_action_views(actions@));
        }
        match &branch.pattern {
            WhenPattern::Expression(e) => collect_expr_explicit_type_arg_actions(e, None, members, selection_span, actions),
            _ => {},
        }
        collect_opt_expr_explicit_type_arg_actions(&branch.guard, members, selection_span, actions);
        match &branch.body {
            WhenBody::Expr(e) => collect_expr_explicit_type_arg_actions(e, expected_type, members, selection_span, actions),
            WhenBody::Block(block) => {
                collect_value_block_explicit_type_arg_actions(block, members, expected_type, selection_span, actions)
            },
        }
        i = i + 1;
    }
    proof {
        assert(branches@.take(branches@.len() as int) =~= branches@);
    }
}

fn collect_catches_explicit_type_arg_actions(
    catches: &Vec<CatchClause>,
    members: &Vec<Member>,
    expected_return_ty: Option<&TypeRef>,
    selection_span: Span,
    actions: &mut Vec<ExplicitTypeArgCodeAction>,
)
    ensures
        spec_action_views(final(actions)@) == spec_action_views(old(actions)@)
            + spec_catches_actions(catches@, opt_deref(expected_return_ty), members@, selection_span),
    decreases catches,
{
    let mut i: usize = 0;
    while i < catches.len()
        invariant
            i <= catches@.len(),
            spec_action_views(actions@) == spec_action_views(old(actions)@)
                + spec_catches_actions(catches@.take(i as int), opt_deref(expected_return_ty), members@, selection_span),
        decreases catches@.len() - i,
    {
        proof {
            assert(catches@.take(i + 1).subrange(0, i as int) =~= catches@.take(i as int));
            assert(catches@.take(i + 1)[i as int] == catches@[i as int]);
        }
        proof {
            assert(spec_catch_actions(catches@[i as int], opt_deref(expected_return_ty), members@, selection_span)
                == spec_block_actions(catches@[i as int].body, opt_deref(expected_return_ty), members@, selection_span));
        }
        collect_block_explicit_type_arg_actions(&catches[i].body, members, expected_return_ty, selection_span, actions);
        i = i + 1;
    }
    proof {
        assert(catches@.take(catches@.len() as int) =~= catches@);
    }
}

fn collect_arms_explicit_type_arg_actions(
    arms: &Vec<PreprocessorArm>,
    members: &Vec<Member>,
    expected_return_ty: Option<&TypeRef>,
    selection_span: Span,
    actions: &mut Vec<ExplicitTypeArgCodeAction>,
)
    ensures
        spec_action_views(final(actions)@) == spec_action_views(old(actions)@)
            + spec_arms_actions(arms@, opt_deref(expected_return_ty), members@, selection_span),
    decreases arms,
{
    let mut i: usize = 0;
    while i < arms.len()
        invariant
            i <= arms@.len(),
            spec_action_views(actions@) == spec_action_views(old(actions)@)
                + spec_arms_actions(arms@.take(i as int), opt_deref(expected_return_ty), members@, selection_span),
        decreases arms@.len() - i,
    {
        proof {
            assert(arms@.take(i + 1).subrange(0, i as int) =~= arms@.take(i as int));
            assert(arms@.take(i + 1)[i as int] == arms@[i as int]);
        }
        proof {
            assert(spec_arm_actions(arms@[i as int], opt_deref(expected_return_ty), members@, selection_span)
                == spec_stmts_actions(arms@[i as int].body@, opt_deref(expected_return_ty), members@, selection_span));
        }
        collect_stmts_explicit_type_arg_actions(&arms[i].body, members, expected_return_ty, selection_span, actions);
        i = i + 1;
    }
    proof {
        assert(arms@.take(arms@.len() as int) =~= arms@);
    }
}

/// Collects the actions of a statement; `expected_return_ty` is the enclosing function's
/// return type.
pub fn collect_stmt_explicit_type_arg_actions(
    stmt: &Stmt,
    members: &Vec<Member>,
    expected_return_ty: Option<&TypeRef>,
    selection_span: Span,
    actions: &mut Vec<ExplicitTypeArgCodeAction>,
)
    ensures
        spec_action_views(final(actions)@) == spec_action_views(old(actions)@)
            + spec_stmt_actions(*stmt, opt_deref(expected_return_ty), members@, selection_span),
    decreases stmt,
{
    proof {
        assert(spec_action_views(old(actions)@) + Seq::empty() =~= spec_action_views(old(actions)@));
    }
    match stmt {
        Stmt::ValDecl { ty, init, .. } => {
            collect_expr_explicit_type_arg_actions(init, opt_ref(ty), members, selection_span, actions);
        },
        Stmt::VarDecl { ty, init, .. } => match init {
            Some(init) => collect_expr_explicit_type_arg_actions(init, opt_ref(ty), members, selection_span, actions),
            None => {},
        },
        Stmt::StopAll { .. } | Stmt::IntrinsicBlock { .. } | Stmt::Break { .. } | Stmt::Continue { .. }
        | Stmt::Unlisten { .. } | Stmt::YieldBreak { .. } => {},
        Stmt::Assignment { target, value, .. } => {
            collect_expr_explicit_type_arg_actions(target, None, members, selection_span, actions);
            collect_expr_explicit_type_arg_actions(value, None, members, selection_span, actions);
        },
        Stmt::Expr { expr, .. } => {
            collect_expr_explicit_type_arg_actions(expr, None, members, selection_span, actions);
        },
        Stmt::If { cond, then_block, else_branch, .. } => {
            collect_expr_explicit_type_arg_actions(cond, None, members, selection_span, actions);
            collect_block_explicit_type_arg_actions(then_block, members, expected_return_ty, selection_span, actions);
            match else_branch {
                Some(ElseBranch::ElseBlock(block)) => {
                    collect_block_explicit_type_arg_actions(block, members, expected_return_ty, selection_span, actions)
                },
                Some(ElseBranch::ElseIf(inner)) => {
                    collect_stmt_explicit_type_arg_actions(inner, members, expected_return_ty, selection_span, actions)
                },
                None => {},
            }
        },
        Stmt::When { subject, branches, .. } => {
            collect_opt_expr_explicit_type_arg_actions(subject, members, selection_span, actions);
            collect_stmt_branches_explicit_type_arg_actions(branches, members, expected_return_ty, selection_span, actions);
        },
        Stmt::For { iterable, body, .. } => {
            collect_expr_explicit_type_arg_actions(iterable, None, members, selection_span, actions);
            collect_block_explicit_type_arg_actions(body, members, expected_return_ty, selection_span, actions);
        },
        Stmt::DestructureVal { init, .. } => {
            collect_expr_explicit_type_arg_actions(init, None, members, selection_span, actions);
        },
        Stmt::While { cond, body, .. } => {
            collect_expr_explicit_type_arg_actions(cond, None, members, selection_span, actions);
            collect_block_explicit_type_arg_actions(body, members, expected_return_ty, selection_span, actions);
        },
        Stmt::Return { value, .. } => match value {
            Some(e) => collect_expr_explicit_type_arg_actions(e, expected_return_ty, members, selection_span, actions),
            None => {},
        },
        Stmt::Wait { form, .. } => match form {
            WaitForm::Duration(e) | WaitForm::Until(e) | WaitForm::While(e) => {
                collect_expr_explicit_type_arg_actions(e, None, members, selection_span, actions)
            },
            WaitForm::NextFrame | WaitForm::FixedFrame => {},
        },
        Stmt::Start { call, .. } => {
            collect_expr_explicit_type_arg_actions(call, None, members, selection_span, actions);
        },
        Stmt::Stop { target, .. } => {
            collect_expr_explicit_type_arg_actions(target, None, members, selection_span, actions);
        },
        Stmt::Listen { event, body, .. } => {
            collect_expr_explicit_type_arg_actions(event, None, members, selection_span, actions);
            collect_block_explicit_type_arg_actions(body, members, None, selection_span, actions);
        },
        Stmt::Try { try_block, catches, finally_block, .. } => {
            collect_block_explicit_type_arg_actions(try_block, members, expected_return_ty, selection_span, actions);
            collect_catches_explicit_type_arg_actions(catches, members, expected_return_ty, selection_span, actions);
            collect_opt_block_explicit_type_arg_actions(finally_block, members, expected_return_ty, selection_span, actions);
        },
        Stmt::Throw { expr, .. } => {
            collect_expr_explicit_type_arg_actions(expr, None, members, selection_span, actions);
        },
        Stmt::Use { ty, init, body, .. } => {
            collect_expr_explicit_type_arg_actions(init, opt_ref(ty), members, selection_span, actions);
            collect_opt_block_explicit_type_arg_actions(body, members, expected_return_ty, selection_span, actions);
        },
        Stmt::BindTo { target, .. } => {
            collect_expr_explicit_type_arg_actions(target, None, members, selection_span, actions);
        },
        Stmt::Yield { value, .. } => {
            collect_expr_explicit_type_arg_actions(value, None, members, selection_span, actions);
        },
        Stmt::Preprocessor { arms, else_arm, .. } => {
            collect_arms_explicit_type_arg_actions(arms, members, expected_return_ty, selection_span, actions);
            match else_arm {
                Some(stmts) => {
                    collect_stmts_explicit_type_arg_actions(stmts, members, expected_return_ty, selection_span, actions)
                },
                None => {},
            }
        },
    }
}

fn collect_args_explicit_type_arg_actions(
    args: &Vec<Arg>,
    signature: Option<usize>,
    members: &Vec<Member>,
    selection_span: Span,
    actions: &mut Vec<ExplicitTypeArgCodeAction>,
)
    ensures
        spec_action_views(final(actions)@) == spec_action_views(old(actions)@)
            + spec_args_actions(args@, match signature { Some(k) => Some(k as int), None => None }, members@, selection_span),
    decreases args,
{
    let ghost sig = match signature { Some(k) => Some(k as int), None => None };
    let mut i: usize = 0;
    while i < args.len()
        invariant
            i <= args@.len(),
            sig == match signature { Some(k) => Some(k as int), None => None::<int> },
            spec_action_views(actions@) == spec_action_views(old(actions)@)
                + spec_args_actions(args@.take(i as int), sig, members@, selection_span),
        decreases args@.len() - i,
    {
        proof {
            assert(args@.take(i + 1).subrange(0, i as int) =~= args@.take(i as int));
            assert(args@.take(i + 1)[i as int] == args@[i as int]);
        }
        let expected = arg_expected_type(members, signature, i);
        collect_expr_explicit_type_arg_actions(&args[i].value, expected, members, selection_span, actions);
        i = i + 1;
    }
    proof {
        assert(args@.take(args@.len() as int) =~= args@);
    }
}

fn collect_exprs_explicit_type_arg_actions(
    exprs: &Vec<Expr>,
    members: &Vec<Member>,
    selection_span: Span,
    actions: &mut Vec<ExplicitTypeArgCodeAction>,
)
    ensures
        spec_action_views(final(actions)@) == spec_action_views(old(actions)@)
            + spec_exprs_actions(exprs@, members@, selection_span),
    decreases exprs,
{
    let mut i: usize = 0;
    while i < exprs.len()
        invariant
            i <= exprs@.len(),
            spec_action_views(actions@) == spec_action_views(old(actions)@)
                + spec_exprs_actions(exprs@.take(i as int), members@, selection_span),
        decreases exprs@.len() - i,
    {
        proof {
            assert(exprs@.take(i + 1).subrange(0, i as int) =~= exprs@.take(i as int));
            assert(exprs@.take(i + 1)[i as int] == exprs@[i as int]);
        }
        collect_expr_explicit_type_arg_actions(&exprs[i], None, members, selection_span, actions);
        i = i + 1;
    }
    proof {
        assert(exprs@.take(exprs@.len() as int) =~= exprs@);
    }
}

fn collect_parts_explicit_type_arg_actions(
    parts: &Vec<StringPart>,
    members: &Vec<Member>,
    selection_span: Span,
    actions: &mut Vec<ExplicitTypeArgCodeAction>,
)
    ensures
        spec_action_views(final(actions)@) == spec_action_views(old(actions)@)
            + spec_parts_actions(parts@, members@, selection_span),
    decreases parts,
{
    let mut i: usize = 0;
    while i < parts.len()
        invariant
            i <= parts@.len(),
            spec_action_views(actions@) == spec_action_views(old(actions)@)
                + spec_parts_actions(parts@.take(i as int), members@, selection_span),
        decreases parts@.len() - i,
    {
        proof {
            assert(parts@.take(i + 1).subrange(0, i as int) =~= parts@.take(i as int));
            assert(parts@.take(i + 1)[i as int] == parts@[i as int]);
        }
        proof {
            assert(spec_part_actions(parts@[i as int], members@, selection_span) == match parts@[i as int] {
                StringPart::Expr(e) => spec_expr_actions(e, None, members@, selection_span),
                StringPart::Literal(_) => Seq::empty(),
            });
        }
        match &parts[i] {
            StringPart::Expr(e) => collect_expr_explicit_type_arg_actions(e, None, members, selection_span, actions),
            StringPart::Literal(_) => {
                proof {
                    assert(spec_action_views(actions@) + Seq::empty() =~= spec_action_views(actions@));
                }
            },
        }
        i = i + 1;
    }
    proof {
        assert(parts@.take(parts@.len() as int) =~= parts@);
    }
}

fn collect_pairs_explicit_type_arg_actions(
    entries: &Vec<(Expr, Expr)>,
    members: &Vec<Member>,
    selection_span: Span,
    actions: &mut Vec<ExplicitTypeArgCodeAction>,
)
    ensures
        spec_action_views(final(actions)@) == spec_action_views(old(actions)@)
            + spec_pairs_actions(entries@, members@, selection_span),
    decreases entries,
{
    let mut i: usize = 0;
    while i < entries.len()
        invariant
            i <= entries@.len(),
            spec_action_views(actions@) == spec_action_views(old(actions)@)
                + spec_pairs_actions(entries@.take(i as int), members@, selection_span),
        decreases entries@.len() - i,
    {
        proof {
            assert(entries@.take(i + 1).subrange(0, i as int) =~= entries@.take(i as int));
            assert(entries@.take(i + 1)[i as int] == entries@[i as int]);
        }
        proof {
            assert(spec_pair_actions(entries@[i as int], members@, selection_span)
                == spec_expr_actions(entries@[i as int].0, None, members@, selection_span)
                + spec_expr_actions(entries@[i as int].1, None, members@, selection_span));
        }
        collect_expr_explicit_type_arg_actions(&entries[i].0, None, members, selection_span, actions);
        collect_expr_explicit_type_arg_actions(&entries[i].1, None, members, selection_span, actions);
        i = i + 1;
    }
    proof {
        assert(entries@.take(entries@.len() as int) =~= entries@);
    }
}

fn collect_updates_explicit_type_arg_actions(
    updates: &Vec<(String, Expr)>,
    members: &Vec<Member>,
    selection_span: Span,
    actions: &mut Vec<ExplicitTypeArgCodeAction>,
)
    ensures
        spec_action_views(final(actions)@) == spec_action_views(old(actions)@)
            + spec_updates_actions(updates@, members@, selection_span),
    decreases updates,
{
    let mut i: usize = 0;
    while i < updates.len()
        invariant
            i <= updates@.len(),
            spec_action_views(actions@) == spec_action_views(old(actions)@)
                + spec_updates_actions(updates@.take(i as int), members@, selection_span),
        decreases updates@.len() - i,
    {
        proof {
            assert(updates@.take(i + 1).subrange(0, i as int) =~= updates@.take(i as int));
            assert(updates@.take(i + 1)[i as int] == updates@[i as int]);
        }
        proof {
            assert(spec_update_actions(updates@[i as int], members@, selection_span)
                == spec_expr_actions(updates@[i as int].1, None, members@, selection_span));
        }
        collect_expr_explicit_type_arg_actions(&updates[i].1, None, members, selection_span, actions);
        i = i + 1;
    }
    proof {
        assert(updates@.take(updates@.len() as int) =~= updates@);
    }
}

/// Collects the actions of an expression that is expected to have type `expected_type`.
pub fn collect_expr_explicit_type_arg_actions(
    expr: &Expr,
    expected_type: Option<&TypeRef>,
    members: &Vec<Member>,
    selection_span: Span,
    actions: &mut Vec<ExplicitTypeArgCodeAction>,
)
    ensures
        spec_action_views(final(actions)@) == spec_action_views(old(actions)@)
            + spec_expr_actions(*expr, opt_deref(expected_type), members@, selection_span),
    decreases expr,
{
    proof {
        assert(spec_action_views(old(actions)@) + Seq::empty() =~= spec_action_views(old(actions)@));
    }
    match expr {
        Expr::IntLit(..) | Expr::FloatLit(..) | Expr::DurationLit(..) | Expr::StringLit(..) | Expr::BoolLit(..)
        | Expr::Null(..) | Expr::Ident(..) | Expr::This(..) | Expr::IntrinsicExpr { .. } | Expr::NameOf { .. } => {},
        Expr::StringInterp { parts, .. } => collect_parts_explicit_type_arg_actions(parts, members, selection_span, actions),
        Expr::Binary { left, right, .. } => {
            collect_expr_explicit_type_arg_actions(left, None, members, selection_span, actions);
            collect_expr_explicit_type_arg_actions(right, None, members, selection_span, actions);
        },
        Expr::Unary { operand, .. } => collect_expr_explicit_type_arg_actions(operand, None, members, selection_span, actions),
        Expr::MemberAccess { receiver, .. } | Expr::SafeCall { receiver, .. } => {
            collect_expr_explicit_type_arg_actions(receiver, None, members, selection_span, actions)
        },
        Expr::SafeMethodCall { receiver, name, name_span, type_args, args, .. } => {
            maybe_push_explicit_type_arg_action(
                Some(&**receiver), name.as_str(), *name_span, type_args, expected_type, selection_span, actions);
            collect_expr_explicit_type_arg_actions(receiver, None, members, selection_span, actions);
            let signature = lookup_lsp_callable_signature(Some(&**receiver), name.as_str(), members);
            collect_args_explicit_type_arg_actions(args, signature, members, selection_span, actions);
        },
        Expr::NonNullAssert { expr: inner, .. } => {
            collect_expr_explicit_type_arg_actions(inner, expected_type, members, selection_span, actions)
        },
        Expr::Elvis { left, right, .. } => {
            collect_expr_explicit_type_arg_actions(left, expected_type, members, selection_span, actions);
            collect_expr_explicit_type_arg_actions(right, expected_type, members, selection_span, actions);
        },
        Expr::Call { receiver, name, name_span, type_args, args, .. } => {
            let receiver_ref: Option<&Expr> = match receiver {
                Some(r) => Some(&**r),
                None => None,
            };
            maybe_push_explicit_type_arg_action(
                receiver_ref, name.as_str(), *name_span, type_args, expected_type, selection_span, actions);
            collect_opt_boxed_expr_explicit_type_arg_actions(receiver, members, selection_span, actions);
            let signature = lookup_lsp_callable_signature(receiver_ref, name.as_str(), members);
            collect_args_explicit_type_arg_actions(args, signature, members, selection_span, actions);
        },
        Expr::IndexAccess { receiver, index, .. } | Expr::SafeIndexAccess { receiver, index, .. } => {
            collect_expr_explicit_type_arg_actions(receiver, None, members, selection_span, actions);
            collect_expr_explicit_type_arg_actions(index, None, members, selection_span, actions);
        },
        Expr::IfExpr { cond, then_block, else_block, .. } => {
            collect_expr_explicit_type_arg_actions(cond, None, members, selection_span, actions);
            collect_value_block_explicit_type_arg_actions(then_block, members, expected_type, selection_span, actions);
            collect_value_block_explicit_type_arg_actions(else_block, members, expected_type, selection_span, actions);
        },
        Expr::WhenExpr { subject, branches, .. } => {
            collect_opt_boxed_expr_explicit_type_arg_actions(subject, members, selection_span, actions);
            collect_expr_branches_explicit_type_arg_actions(branches, members, expected_type, selection_span, actions);
        },
        Expr::Range { start, end, step, .. } => {
            collect_opt_boxed_expr_explicit_type_arg_actions(start, members, selection_span, actions);
            collect_opt_boxed_expr_explicit_type_arg_actions(end, members, selection_span, actions);
            collect_opt_boxed_expr_explicit_type_arg_actions(step, members, selection_span, actions);
        },
        Expr::Is { expr: inner, .. } => collect_expr_explicit_type_arg_actions(inner, None, members, selection_span, actions),
        Expr::Lambda { body, .. } => match body {
            LambdaBody::Block(block) => collect_block_explicit_type_arg_actions(block, members, None, selection_span, actions),
            LambdaBody::Expr(inner) => collect_expr_explicit_type_arg_actions(inner, None, members, selection_span, actions),
        },
        Expr::SafeCastExpr { expr: inner, .. } | Expr::ForceCastExpr { expr: inner, .. } => {
            collect_expr_explicit_type_arg_actions(inner, None, members, selection_span, actions)
        },
        Expr::Tuple { elements, .. } | Expr::ListLit { elements, .. } => {
            collect_exprs_explicit_type_arg_actions(elements, members, selection_span, actions)
        },
        Expr::MapLit { entries, .. } => collect_pairs_explicit_type_arg_actions(entries, members, selection_span, actions),
        Expr::Await { expr: inner, .. } => collect_expr_explicit_type_arg_actions(inner, None, members, selection_span, actions),
        Expr::RefOf { inner, .. } => collect_expr_explicit_type_arg_actions(inner, None, members, selection_span, actions),
        Expr::ThrowExpr { exception, .. } => {
            collect_expr_explicit_type_arg_actions(exception, None, members, selection_span, actions)
        },
        Expr::With { receiver, updates, .. } => {
            collect_expr_explicit_type_arg_actions(receiver, None, members, selection_span, actions);
            collect_updates_explicit_type_arg_actions(updates, members, selection_span, actions);
        },
        Expr::StackAlloc { size, .. } => collect_expr_explicit_type_arg_actions(size, None, members, selection_span, actions),
        Expr::TryExpr { try_block, catches, .. } => {
            collect_block_explicit_type_arg_actions(try_block, members, None, selection_span, actions);
            collect_catches_explicit_type_arg_actions(catches, members, None, selection_span, actions);
        },
    }
}


/// Collects the actions of one member of the declaration.
pub fn collect_member_explicit_type_arg_actions(
    member: &Member,
    members: &Vec<Member>,
    selection_span: Span,
    actions: &mut Vec<ExplicitTypeArgCodeAction>,
)
    ensures
        spec_action_views(final(actions)@) == spec_action_views(old(actions)@)
            + spec_member_actions(*member, members@, selection_span),
{
    proof {
        assert(spec_action_views(old(actions)@) + Seq::empty() =~= spec_action_views(old(actions)@));
    }
    match member {
        Member::Func { return_ty, body, .. } => match body {
            FuncBody::Block(block) => {
                collect_block_explicit_type_arg_actions(block, members, opt_ref(return_ty), selection_span, actions)
            },
            FuncBody::ExprBody(e) => {
                collect_expr_explicit_type_arg_actions(e, opt_ref(return_ty), members, selection_span, actions)
            },
        },
        Member::Coroutine { body, .. } | Member::Lifecycle { body, .. } => {
            collect_block_explicit_type_arg_actions(body, members, None, selection_span, actions)
        },
        _ => {},
    }
}

/// The members of a declaration that has a body of members looked into for actions:
/// components, assets, classes, structs and extensions.
pub open spec fn spec_decl_members(d: Decl) -> Option<Seq<Member>> {
    match d {
        Decl::Component { members, .. } => Some(members@),
        Decl::Asset { members, .. } => Some(members@),
        Decl::Class { members, .. } => Some(members@),
        Decl::Struct { members, .. } => Some(members@),
        Decl::Extension { members, .. } => Some(members@),
        _ => None,
    }
}

/// The members of a component, asset, class, struct or extension.
pub fn decl_members(decl: &Decl) -> (r: Option<&Vec<Member>>)
    ensures
        match r {
            Some(m) => spec_decl_members(*decl) == Some(m@),
            None => spec_decl_members(*decl) is None,
        },
{
    match decl {
        Decl::Component { members, .. } | Decl::Asset { members, .. } | Decl::Class { members, .. }
        | Decl::Struct { members, .. } | Decl::Extension { members, .. } => Some(members),
        _ => None,
    }
}

/// The list without later repeats of an earlier entry.
pub open spec fn spec_dedup_actions(s: Seq<(Seq<char>, Position, Seq<char>)>) -> Seq<(Seq<char>, Position, Seq<char>)>
    decreases s.len(),
{
    if s.len() == 0 {
        Seq::empty()
    } else {
        let d = spec_dedup_actions(s.drop_last());
        if d.contains(s.last()) { d } else { d.push(s.last()) }
    }
}

/// The explicit-type-argument actions for a parsed file and a selection: those of its
/// members' bodies, in source order, each offered once.
pub open spec fn spec_explicit_type_arg_actions(file: File, selection: Span) -> Seq<(Seq<char>, Position, Seq<char>)> {
    match spec_decl_members(file.decl) {
        None => Seq::empty(),
        Some(members) => spec_dedup_actions(spec_members_actions(members, members, selection)),
    }
}

/// A fresh copy of an action.
fn copy_action(a: &ExplicitTypeArgCodeAction) -> (r: ExplicitTypeArgCodeAction)
    ensures
        spec_action_view(r) == spec_action_view(*a),
{
    ExplicitTypeArgCodeAction {
        title: owned(a.title.as_str()),
        insert_at: a.insert_at,
        insert_text: owned(a.insert_text.as_str()),
    }
}

/// Whether `list` already holds an action equal to `a`.
fn holds_action(list: &Vec<ExplicitTypeArgCodeAction>, a: &ExplicitTypeArgCodeAction) -> (r: bool)
    ensures
        r == spec_action_views(list@).contains(spec_action_view(*a)),
{
    let mut i: usize = 0;
    while i < list.len()
        invariant
            i <= list@.len(),
            forall|k: int| 0 <= k < i ==> spec_action_view(#[trigger] list@[k]) != spec_action_view(*a),
        decreases list@.len() - i,
    {
        if str_eq(list[i].title.as_str(), a.title.as_str()) && positions_equal(list[i].insert_at, a.insert_at)
            && str_eq(list[i].insert_text.as_str(), a.insert_text.as_str()) {
            proof {
                assert(spec_action_views(list@)[i as int] == spec_action_view(*a));
            }
            return true;
        }
        i = i + 1;
    }
    proof {
        if spec_action_views(list@).contains(spec_action_view(*a)) {
            let k = choose|k: int| 0 <= k < spec_action_views(list@).len() && spec_action_views(list@)[k] == spec_action_view(*a);
            assert(spec_action_view(list@[k]) != spec_action_view(*a));
        }
    }
    false
}

/// The actions with later repeats of an earlier action dropped.
pub fn dedup_actions(actions: &Vec<ExplicitTypeArgCodeAction>) -> (r: Vec<ExplicitTypeArgCodeAction>)
    ensures
        spec_action_views(r@) == spec_dedup_actions(spec_action_views(actions@)),
{
    let mut deduped: Vec<ExplicitTypeArgCodeAction> = Vec::new();
    let mut i: usize = 0;
    while i < actions.len()
        invariant
            i <= actions@.len(),
            spec_action_views(deduped@) == spec_dedup_actions(spec_action_views(actions@).take(i as int)),
        decreases actions@.len() - i,
    {
        proof {
            let v = spec_action_views(actions@);
            assert(v.take(i + 1).drop_last() =~= v.take(i as int));
            assert(v.take(i + 1).last() == spec_action_view(actions@[i as int]));
        }
        if !holds_action(&deduped, &actions[i]) {
            let ghost before = deduped@;
            deduped.push(copy_action(&actions[i]));
            proof {
                assert(spec_action_views(deduped@) =~= spec_action_views(before).push(spec_action_view(actions@[i as int])));
            }
        }
        i = i + 1;
    }
    proof {
        assert(spec_action_views(actions@).take(actions@.len() as int) =~= spec_action_views(actions@));
    }
    deduped
}

/// The explicit-type-argument actions for a parsed file and a selection.
pub fn explicit_type_arg_actions_for_file(file: &File, selection_span: Span) -> (r: Vec<ExplicitTypeArgCodeAction>)
    ensures
        spec_action_views(r@) == spec_explicit_type_arg_actions(*file, selection_span),
{
    let members = match decl_members(&file.decl) {
        Some(m) => m,
        None => {
            let empty: Vec<ExplicitTypeArgCodeAction> = Vec::new();
            proof {
                assert(spec_action_views(empty@) =~= Seq::empty());
            }
            return empty;
        },
    };
    let mut actions: Vec<ExplicitTypeArgCodeAction> = Vec::new();
    let mut i: usize = 0;
    proof {
        assert(spec_action_views(actions@) =~= Seq::empty());
    }
    while i < members.len()
        invariant
            i <= members@.len(),
            spec_action_views(actions@) == spec_members_actions(members@.take(i as int), members@, selection_span),
        decreases members@.len() - i,
    {
        proof {
            assert(members@.take(i + 1).subrange(0, i as int) =~= members@.take(i as int));
            assert(members@.take(i + 1)[i as int] == members@[i as int]);
        }
        collect_member_explicit_type_arg_actions(&members[i], members, selection_span, &mut actions);
        i = i + 1;
    }
    proof {
        assert(members@.take(members@.len() as int) =~= members@);
    }
    dedup_actions(&actions)
}

/// The explicit-type-argument actions for a source text and a selection: it parses the
/// source and proposes the actions that `spec_explicit_type_arg_actions` describes.
pub fn collect_explicit_type_arg_actions_for_source(source: &str, selection_span: Span) -> (r: Vec<ExplicitTypeArgCodeAction>)
    requires
        source@.len() < u32::MAX,
    ensures
        exists|file: File| spec_usings_read_from(file, source@)
            && spec_action_views(r@) == spec_explicit_type_arg_actions(file, selection_span),
{
    let (file, _) = parse_prsm_file(source);
    explicit_type_arg_actions_for_file(&file, selection_span)
}


/// Deduplicating keeps every action once and no action twice, in the order of first
/// appearance.
pub proof fn lemma_dedup_actions(s: Seq<(Seq<char>, Position, Seq<char>)>)
    ensures
        forall|i: int, j: int| 0 <= i < j < spec_dedup_actions(s).len() ==> spec_dedup_actions(s)[i] != spec_dedup_actions(s)[j],
        forall|x: (Seq<char>, Position, Seq<char>)| #[trigger] spec_dedup_actions(s).contains(x) <==> s.contains(x),
    decreases s.len(),
{
    if s.len() > 0 {
        let rest = s.drop_last();
        lemma_dedup_actions(rest);
        let d = spec_dedup_actions(rest);
        let last = s.last();
        let res = spec_dedup_actions(s);
        assert(res == if d.contains(last) { d } else { d.push(last) });
        assert forall|x: (Seq<char>, Position, Seq<char>)| #[trigger] res.contains(x) <==> s.contains(x) by {
            assert(d.contains(x) <==> rest.contains(x));
            if s.contains(x) {
                let k = choose|k: int| 0 <= k < s.len() && s[k] == x;
                if k < s.len() - 1 {
                    assert(rest[k] == x);
                    assert(rest.contains(x));
                    let j = choose|j: int| 0 <= j < d.len() && d[j] == x;
                    assert(res[j] == x);
                } else if d.contains(x) {
                    let j = choose|j: int| 0 <= j < d.len() && d[j] == x;
                    assert(res[j] == x);
                } else {
                    assert(res[d.len() as int] == x);
                }
            }
            if res.contains(x) {
                let k = choose|k: int| 0 <= k < res.len() && res[k] == x;
                if d.contains(last) || k < d.len() {
                    assert(d[k] == x);
                    let m = choose|m: int| 0 <= m < rest.len() && rest[m] == x;
                    assert(s[m] == x);
                } else {
                    assert(s[s.len() - 1] == x);
                }
            }
        }
        assert forall|i: int, j: int| 0 <= i < j < res.len() implies res[i] != res[j] by {
            if !d.contains(last) && j == d.len() {
                assert(res[j] == last);
                assert(res[i] == d[i]);
            }
        }
    }
}

} // verus!
