//! Members of a declaration body: fields, properties, functions, coroutines, lifecycle
//! blocks, component lookups, pools, events, state machines, commands and bindings.
use vstd::prelude::*;
use crate::token::{Span, Token, TokenKind};
use crate::ast::{
    Member, Visibility, Mutability, Annotation, TargetAnnotation, AttrTargetKind, LifecycleKind,
    StateDecl, StateTransition, FuncBody, Block, PropertySetter, TypeRef, Expr, Stmt, Param,
};
use crate::text::{str_eq, owned, cat3, cat4, debug_kind, spec_starts_with};
use super::{Parser, ParseError, spec_skip_newlines, spec_kind_after_newlines, spec_recover_end, lemma_skip_newlines};
use crate::lexical::spec_views;
use super::types::spec_simple_type_at;
use super::exprs::spec_atom_at;
use super::raw::extract_target_attr_name;

verus! {

broadcast use crate::token::lemma_kind_tag_inverse;

/// At `p` stands `keyword name: Type` with a plain type name (not nullable), ending its line:
/// the form of `require`, `optional`, `child`, `parent` members.
pub open spec fn spec_lookup_member_at(t: Seq<Token>, p: int) -> bool {
    &&& 0 <= p && p + 4 < t.len()
    &&& t[p + 1].kind is Identifier && t[p + 2].kind is Colon && spec_simple_type_at(t, p + 3)
    &&& (t[p + 4].kind is Newline || t[p + 4].kind is Eof || t[p + 4].kind is RBrace)
}

/// The mutability of a `serialize` field at `p` and the index of its name: `serialize var`,
/// `serialize val` or bare `serialize` (a `val`).
pub open spec fn spec_serialize_head(t: Seq<Token>, p: int) -> (Mutability, int) {
    if t[p + 1].kind is Var {
        (Mutability::Var, p + 2)
    } else if t[p + 1].kind is Val {
        (Mutability::Val, p + 2)
    } else {
        (Mutability::Val, p + 1)
    }
}

/// The initializer of the serialized field at `p` and the index where its line ends: a
/// literal after `=`, or none.
pub open spec fn spec_serialize_init(t: Seq<Token>, p: int) -> (Option<Expr>, int) {
    let n = spec_serialize_head(t, p).1;
    if 0 <= n + 3 < t.len() && t[n + 3].kind is Eq {
        (spec_atom_at(t, n + 4), n + 5)
    } else {
        (None, n + 3)
    }
}

/// At `p` stands a plain serialized field `serialize [var|val] name: Type [= literal]` with a
/// plain type name (not nullable), ending its line, and no property accessor after it.
pub open spec fn spec_plain_serialize_at(t: Seq<Token>, p: int) -> bool {
    let n = spec_serialize_head(t, p).1;
    let (init, k) = spec_serialize_init(t, p);
    let after = spec_skip_newlines(t, k);
    &&& 0 <= p && n + 3 < t.len() && k < t.len()
    &&& t[p].kind is Serialize
    &&& t[n].kind is Identifier && t[n + 1].kind is Colon && spec_simple_type_at(t, n + 2)
    &&& t[n + 3].kind is Eq ==> init is Some
    &&& (t[k].kind is Newline || t[k].kind is Eof || t[k].kind is RBrace)
    &&& !(0 <= after < t.len() && t[after].kind is Identifier
        && (t[after].kind->Identifier_0@ == "get"@ || t[after].kind->Identifier_0@ == "set"@))
}

/// The index after a line whose last token before the end of the line is at `k - 1`: a
/// newline at `k` is consumed, `Eof` or `}` is not.
pub open spec fn spec_line_end_after(t: Seq<Token>, k: int) -> int {
    if 0 <= k < t.len() && t[k].kind is Newline { k + 1 } else { k }
}

/// The index after the plain serialized field at `p` (see `spec_plain_serialize_at`).
pub open spec fn spec_plain_serialize_end(t: Seq<Token>, p: int) -> int {
    spec_line_end_after(t, spec_serialize_init(t, p).1)
}

/// A token that no member starts with: reading a member there reports it at once.
pub open spec fn spec_stray_member_token(k: TokenKind) -> bool {
    ||| k is Question || k is Bang || k is Comma || k is Semicolon || k is Colon || k is Dot
    ||| k is Plus || k is Minus || k is Star || k is Slash || k is Percent || k is Eq
    ||| k is RParen || k is RBracket || k is IntLiteral || k is FloatLiteral || k is StringLiteral
}

/// The start of the diagnostic for a line that does not start a member.
pub open spec fn spec_expected_member_prefix() -> Seq<char> {
    "Expected member declaration, found "@
}

/// What one line of a member list gives, as plain values: a code (0: a reported line;
/// 1: `serialize val`; 2: `serialize var`; 3: `require`; 4: `optional`; 5: `child`;
/// 6: `parent`), the member's name, its type's name and its initializer.
pub type MemberLine = (int, Seq<char>, Seq<char>, Option<Expr>);

/// The line of a member list at `k` and the index after it: a plain serialized field, a
/// plain `require`/`optional`/`child`/`parent` member, or a line starting with a stray token,
/// which is reported and skipped to the end of the line. `None` for any other line.
pub open spec fn spec_member_line_at(t: Seq<Token>, k: int) -> Option<(MemberLine, int)> {
    if 0 <= k < t.len() && spec_plain_serialize_at(t, k) {
        let (mu, n) = spec_serialize_head(t, k);
        Some(((if mu == Mutability::Var { 2int } else { 1int }, t[n].kind->Identifier_0@, t[n + 2].kind->Identifier_0@,
            spec_serialize_init(t, k).0),
            spec_plain_serialize_end(t, k)))
    } else if 0 <= k < t.len() && spec_lookup_member_at(t, k)
        && (t[k].kind is Require || t[k].kind is Optional || t[k].kind is Child || t[k].kind is Parent) {
        let code = if t[k].kind is Require { 3int } else if t[k].kind is Optional { 4int } else if t[k].kind is Child { 5int } else { 6int };
        Some(((code, t[k + 1].kind->Identifier_0@, t[k + 3].kind->Identifier_0@, None), spec_line_end_after(t, k + 4)))
    } else if 0 <= k < t.len() && spec_stray_member_token(t[k].kind) {
        Some(((0int, Seq::empty(), Seq::empty(), None), spec_recover_end(spec_views(t), k)))
    } else {
        None
    }
}

/// The lines of a member list from `k` (a token that is not a newline) to its closing `}`,
/// blank lines skipped: what each line gives, and the index of the `}`. `None` where a line
/// is not one of those `spec_member_line_at` describes.
pub open spec fn spec_member_lines(t: Seq<Token>, k: int) -> Option<(Seq<MemberLine>, int)>
    decreases t.len() - k,
{
    if k < 0 || k >= t.len() {
        None
    } else if t[k].kind is RBrace {
        Some((Seq::empty(), k))
    } else {
        match spec_member_line_at(t, k) {
            Some((l, e)) => {
                let k2 = spec_skip_newlines(t, e);
                if k2 <= k || k2 > t.len() {
                    None
                } else {
                    match spec_member_lines(t, k2) {
                        Some((rest, end)) => Some((seq![l] + rest, end)),
                        None => None,
                    }
                }
            },
            None => None,
        }
    }
}

/// A member list ends at a `}` at or after where it starts.
pub proof fn lemma_member_lines_end(t: Seq<Token>, k: int)
    requires
        spec_member_lines(t, k) is Some,
    ensures
        k <= spec_lines_end(spec_member_lines(t, k)) < t.len(),
        t[spec_lines_end(spec_member_lines(t, k))].kind is RBrace,
    decreases t.len() - k,
{
    if !(t[k].kind is RBrace) {
        let e = spec_line_of_end(spec_member_line_at(t, k));
        lemma_member_lines_end(t, spec_skip_newlines(t, e));
    }
}

/// The index after a line (`-1` where there is none).
pub open spec fn spec_line_of_end(o: Option<(MemberLine, int)>) -> int {
    match o {
        Some((_l, e)) => e,
        None => -1,
    }
}

/// The lines that a member list gives (empty where it is not of that shape).
pub open spec fn spec_lines_of(o: Option<(Seq<MemberLine>, int)>) -> Seq<MemberLine> {
    match o {
        Some((lines, _end)) => lines,
        None => Seq::empty(),
    }
}

/// The index of the `}` that closes a member list (`-1` where it is not of that shape).
pub open spec fn spec_lines_end(o: Option<(Seq<MemberLine>, int)>) -> int {
    match o {
        Some((_lines, end)) => end,
        None => -1,
    }
}

/// What a line gives (a reported line where there is none).
pub open spec fn spec_line_of(o: Option<(MemberLine, int)>) -> MemberLine {
    match o {
        Some((l, _e)) => l,
        None => (0int, Seq::empty(), Seq::empty(), None),
    }
}

/// The lines that give a member, in order.
pub open spec fn spec_member_lines_kept(lines: Seq<MemberLine>) -> Seq<MemberLine>
    decreases lines.len(),
{
    if lines.len() == 0 {
        Seq::empty()
    } else {
        let rest = spec_member_lines_kept(lines.drop_last());
        if lines.last().0 == 0 { rest } else { rest.push(lines.last()) }
    }
}

/// The number of lines that are reported.
pub open spec fn spec_member_lines_reported(lines: Seq<MemberLine>) -> nat
    decreases lines.len(),
{
    if lines.len() == 0 {
        0
    } else {
        spec_member_lines_reported(lines.drop_last()) + if lines.last().0 == 0 { 1nat } else { 0nat }
    }
}

/// The member `m` is what the line `l` describes.
pub open spec fn spec_member_is_line(m: Member, l: MemberLine) -> bool {
    let (code, name, ty, init_expr) = l;
    if code == 1 || code == 2 {
        m matches Member::SerializeField { mutability: mu, name: n, ty: TypeRef::Simple { name: tn, nullable: q, .. }, init, .. }
            && mu == (if code == 2 { Mutability::Var } else { Mutability::Val }) && n@ == name && tn@ == ty && !q && init == init_expr
    } else if code == 3 {
        m matches Member::Require { name: n, ty: TypeRef::Simple { name: tn, .. }, .. } && n@ == name && tn@ == ty
    } else if code == 4 {
        m matches Member::Optional { name: n, ty: TypeRef::Simple { name: tn, .. }, .. } && n@ == name && tn@ == ty
    } else if code == 5 {
        m matches Member::Child { name: n, ty: TypeRef::Simple { name: tn, .. }, .. } && n@ == name && tn@ == ty
    } else if code == 6 {
        m matches Member::Parent { name: n, ty: TypeRef::Simple { name: tn, .. }, .. } && n@ == name && tn@ == ty
    } else {
        false
    }
}

/// The members are those the kept lines describe, in order.
pub open spec fn spec_members_are(ms: Seq<Member>, lines: Seq<MemberLine>) -> bool {
    let kept = spec_member_lines_kept(lines);
    &&& ms.len() == kept.len()
    &&& forall|i: int| 0 <= i < ms.len() ==> spec_member_is_line(#[trigger] ms[i], kept[i])
}

/// `errors` is `prev` followed by `n` diagnostics for lines that do not start a member.
pub open spec fn spec_reported_lines(prev: Seq<ParseError>, errors: Seq<ParseError>, n: nat) -> bool {
    &&& errors.len() == prev.len() + n
    &&& forall|i: int| 0 <= i < prev.len() ==> #[trigger] errors[i] == prev[i]
    &&& forall|i: int| prev.len() <= i < errors.len() ==> spec_starts_with((#[trigger] errors[i]).message@, spec_expected_member_prefix())
}

/// The positions in `state Name { enter { } enter { ..` at `p`: the first `enter`, its `{`,
/// and the second `enter` (blank lines allowed between them).
pub open spec fn spec_state_enter_positions(t: Seq<Token>, p: int) -> (int, int, int) {
    let b = spec_skip_newlines(t, p + 2);
    let e1 = spec_skip_newlines(t, b + 1);
    let c1 = spec_skip_newlines(t, e1 + 1);
    let e2 = spec_skip_newlines(t, spec_skip_newlines(t, c1 + 1) + 1);
    (e1, c1, e2)
}

/// At `p` stands a state whose body opens with an empty `enter { }` block followed by a
/// second `enter` block: `state Name { enter { } enter { } ..`.
pub open spec fn spec_duplicate_enter_at(t: Seq<Token>, p: int) -> bool {
    let b = spec_skip_newlines(t, p + 2);
    let (e1, c1, e2) = spec_state_enter_positions(t, p);
    let c2 = spec_skip_newlines(t, e2 + 1);
    &&& 0 <= p && p + 2 < t.len()
    &&& t[p].kind is Identifier && t[p].kind->Identifier_0@ == "state"@ && t[p + 1].kind is Identifier
    &&& 0 <= b < t.len() && t[b].kind is LBrace
    &&& 0 <= e1 < t.len() && t[e1].kind is Identifier && t[e1].kind->Identifier_0@ == "enter"@
    &&& 0 <= c1 < t.len() && t[c1].kind is LBrace && spec_kind_after_newlines(t, c1 + 1) is RBrace
    &&& 0 <= e2 < t.len() && t[e2].kind is Identifier && t[e2].kind->Identifier_0@ == "enter"@
    &&& 0 <= c2 < t.len() && t[c2].kind is LBrace && spec_kind_after_newlines(t, c2 + 1) is RBrace
}

/// At `p` stands `pool name: Type(capacity = c, max = m)` with a plain type name.
pub open spec fn spec_pool_at(t: Seq<Token>, p: int) -> bool {
    &&& 0 <= p && p + 12 < t.len()
    &&& t[p + 1].kind is Identifier && t[p + 2].kind is Colon && t[p + 3].kind is Identifier && t[p + 4].kind is LParen
    &&& t[p + 5].kind is Identifier && t[p + 5].kind->Identifier_0@ == "capacity"@ && t[p + 6].kind is Eq
    &&& t[p + 7].kind is IntLiteral && t[p + 8].kind is Comma
    &&& t[p + 9].kind is Identifier && t[p + 9].kind->Identifier_0@ == "max"@ && t[p + 10].kind is Eq
    &&& t[p + 11].kind is IntLiteral && t[p + 12].kind is RParen
}

/// At `p` stands `pool name: Type()` with a plain type name: no arguments.
pub open spec fn spec_empty_pool_at(t: Seq<Token>, p: int) -> bool {
    &&& 0 <= p && p + 5 < t.len()
    &&& t[p + 1].kind is Identifier && t[p + 2].kind is Colon && t[p + 3].kind is Identifier && t[p + 4].kind is LParen
    &&& t[p + 5].kind is RParen
}

/// The mutability that a field keyword gives.
pub open spec fn spec_mutability_of(k: TokenKind) -> Option<Mutability> {
    match k {
        TokenKind::Val => Some(Mutability::Val),
        TokenKind::Var => Some(Mutability::Var),
        TokenKind::Const => Some(Mutability::Const),
        TokenKind::Fixed => Some(Mutability::Fixed),
        _ => None,
    }
}

impl Parser {
    /// Members up to the closing `}` (not consumed). A member that fails to parse is
    /// reported and skipped to the end of its line.
    pub(crate) fn parse_members(&mut self) -> (r: Result<Vec<Member>, ParseError>)
        requires
            old(self).wf(),
        ensures
            final(self).evolves(*old(self)),
            r is Ok,
            final(self).cur() is RBrace || final(self).cur() is Eof,
            spec_kind_after_newlines(old(self).tokens@, old(self).pos as int) is RBrace ==> (r matches Ok(ms)
                && ms@.len() == 0 && final(self).pos == spec_skip_newlines(old(self).tokens@, old(self).pos as int)
                && final(self).errors@ == old(self).errors@),
            match spec_member_lines(old(self).tokens@, spec_skip_newlines(old(self).tokens@, old(self).pos as int)) {
                Some((lines, end)) => r matches Ok(ms) && spec_members_are(ms@, lines)
                    && spec_reported_lines(old(self).errors@, final(self).errors@, spec_member_lines_reported(lines))
                    && final(self).pos == end,
                None => true,
            },
        decreases old(self).tokens@.len() - old(self).pos, 8int,
    {
        let mut members: Vec<Member> = Vec::new();
        let ghost t = self.tokens@;
        self.skip_newlines();
        let ghost all = spec_member_lines(t, self.pos as int);
        let ghost mut done: Seq<MemberLine> = Seq::empty();
        proof {
            if all is Some {
                assert(done + spec_lines_of(all) =~= spec_lines_of(all));
            }
        }

        while !self.check(&TokenKind::RBrace) && !self.check(&TokenKind::Eof)
            invariant
                self.evolves(*old(self)),
                spec_kind_after_newlines(old(self).tokens@, old(self).pos as int) is RBrace ==> members@.len() == 0
                    && self.pos == spec_skip_newlines(old(self).tokens@, old(self).pos as int)
                    && self.errors@ == old(self).errors@,
                t == old(self).tokens@,
                all == spec_member_lines(t, spec_skip_newlines(t, old(self).pos as int)),
                all is Some ==> ({
                    let rest = spec_member_lines(t, self.pos as int);
                    &&& rest is Some
                    &&& done + spec_lines_of(rest) == spec_lines_of(all)
                    &&& spec_lines_end(rest) == spec_lines_end(all)
                    &&& spec_members_are(members@, done)
                    &&& spec_reported_lines(old(self).errors@, self.errors@, spec_member_lines_reported(done))
                }),
            decreases self.tokens@.len() - self.pos,
        {
            let ghost before = self.pos;
            let ghost k = self.pos as int;
            let ghost line = spec_member_line_at(t, k);
            let ghost prev_members = members@;
            let ghost prev_errors = self.errors@;
            match self.parse_member() {
                Ok(m) => members.push(m),
                Err(e) => {
                    self.errors.push(e);
                    self.recover_to_newline();
                },
            }
            let ghost e = self.pos as int;
            proof { lemma_skip_newlines(t, e); }
            self.skip_newlines();
            assert(self.pos > before);
            proof {
                if all is Some {
                    let l = spec_line_of(line);
                    let rest2 = spec_member_lines(t, self.pos as int);
                    assert(spec_member_lines(t, k) == Some((seq![l] + spec_lines_of(rest2), spec_lines_end(rest2))));
                    assert(done.push(l).drop_last() =~= done);
                    assert(done.push(l) + spec_lines_of(rest2) =~= done + (seq![l] + spec_lines_of(rest2)));
                    if l.0 != 0 {
                        assert(members@ =~= prev_members.push(members@[prev_members.len() as int]));
                    } else {
                        assert(members@ == prev_members);
                    }
                    done = done.push(l);
                }
            }
        }
        proof {
            if all is Some {
                assert(done + Seq::<MemberLine>::empty() =~= done);
            }
        }
        Ok(members)
    }

    /// One member, with its leading annotations.
    pub(crate) fn parse_member(&mut self) -> (r: Result<Member, ParseError>)
        requires
            old(self).wf(),
        ensures
            final(self).evolves(*old(self)),
            r is Ok ==> final(self).pos > old(self).pos,
            ({
                let t = old(self).tokens@;
                let p = old(self).pos as int;
                &&& t[p].kind is Pool && spec_pool_at(t, p) ==> (r matches Ok(Member::Pool { capacity: c, max_size: m, .. })
                    && c == t[p + 7].kind->IntLiteral_0 as u32 && m == t[p + 11].kind->IntLiteral_0 as u32)
                &&& t[p].kind is Intrinsic && p + 6 < t.len() && t[p + 1].kind is Func && t[p + 2].kind is Identifier
                    && t[p + 3].kind is LParen && t[p + 4].kind is RParen && t[p + 5].kind is LBrace && t[p + 6].kind is RBrace
                    ==> (r matches Ok(Member::IntrinsicFunc { name: n, .. }) && n@ == t[p + 2].kind->Identifier_0@)
                &&& spec_plain_serialize_at(t, p) ==> ({
                    let (mu, n) = spec_serialize_head(t, p);
                    r matches Ok(Member::SerializeField { mutability: m, visibility: v, name: x, ty: TypeRef::Simple { name: tn, nullable: q, .. }, init, .. })
                        && m == mu && v is None && x@ == t[n].kind->Identifier_0@ && tn@ == t[n + 2].kind->Identifier_0@
                        && !q && init == spec_serialize_init(t, p).0
                        && final(self).errors@ == old(self).errors@ && final(self).pos == spec_plain_serialize_end(t, p)
                })
                &&& (t[p].kind is Require || t[p].kind is Optional || t[p].kind is Child || t[p].kind is Parent)
                    && spec_lookup_member_at(t, p) ==> final(self).errors@ == old(self).errors@
                        && final(self).pos == spec_line_end_after(t, p + 4)
                &&& spec_stray_member_token(t[p].kind) ==> (r matches Err(e) && spec_starts_with(e.message@, spec_expected_member_prefix())
                    && final(self).pos == p && final(self).errors@ == old(self).errors@)
                &&& (t[p].kind is Require || t[p].kind is Optional || t[p].kind is Child || t[p].kind is Parent)
                    && spec_lookup_member_at(t, p) ==> ({
                    &&& t[p].kind is Require ==> (r matches Ok(Member::Require { name: n, ty: TypeRef::Simple { name: tn, .. }, .. })
                        && n@ == t[p + 1].kind->Identifier_0@ && tn@ == t[p + 3].kind->Identifier_0@)
                    &&& t[p].kind is Optional ==> (r matches Ok(Member::Optional { name: n, ty: TypeRef::Simple { name: tn, .. }, .. })
                        && n@ == t[p + 1].kind->Identifier_0@ && tn@ == t[p + 3].kind->Identifier_0@)
                    &&& t[p].kind is Child ==> (r matches Ok(Member::Child { name: n, ty: TypeRef::Simple { name: tn, .. }, .. })
                        && n@ == t[p + 1].kind->Identifier_0@ && tn@ == t[p + 3].kind->Identifier_0@)
                    &&& t[p].kind is Parent ==> (r matches Ok(Member::Parent { name: n, ty: TypeRef::Simple { name: tn, .. }, .. })
                        && n@ == t[p + 1].kind->Identifier_0@ && tn@ == t[p + 3].kind->Identifier_0@)
                })
            }),
        decreases old(self).tokens@.len() - old(self).pos, 7int,
    {
        let (annotations, target_annotations) = self.parse_annotations_and_targets()?;

        if self.check_contextual("event") {
            return self.parse_event_member(Visibility::Public);
        }
        if self.check_contextual("async") {
            self.advance();
            self.expect(&TokenKind::Func)?;
            return self.parse_func_inner_async(Visibility::Public);
        }
        if self.check_contextual("state") && self.peek_ahead_is_contextual(1, "machine") {
            return self.parse_state_machine();
        }
        if self.check_contextual("command") {
            return self.parse_command_member();
        }
        if self.check_contextual("bind") {
            return self.parse_bind_member();
        }

        let nested_starts_decl = self.check(&TokenKind::Class) || self.check(&TokenKind::Data)
            || self.check(&TokenKind::Enum) || self.check(&TokenKind::Struct)
            || self.check(&TokenKind::Interface) || self.check(&TokenKind::TypeAlias)
            || self.check_contextual("partial");
        if nested_starts_decl {
            let start = self.peek_span();
            let inner = self.parse_decl()?;
            let span = self.span_from(start);
            return Ok(Member::NestedDecl { decl: Box::new(inner), span });
        }

        match self.peek_kind() {
            TokenKind::Serialize => self.parse_serialize_field(annotations, target_annotations),
            TokenKind::Require => self.parse_require(),
            TokenKind::Optional => self.parse_optional(),
            TokenKind::Child => self.parse_child(),
            TokenKind::Parent => self.parse_parent(),
            TokenKind::Pool => self.parse_pool(),
            TokenKind::Func => self.parse_func_with_annotations(Visibility::Public, false, annotations),
            TokenKind::Coroutine => self.parse_coroutine(),
            TokenKind::Intrinsic => self.parse_intrinsic_member(),
            TokenKind::Override => {
                self.advance();
                self.expect(&TokenKind::Func)?;
                self.parse_func_inner(Visibility::Public, false, true)
            },
            TokenKind::Public | TokenKind::Private | TokenKind::Protected => {
                self.parse_visibility_member(annotations, target_annotations)
            },
            TokenKind::Listen => {
                let listen_stmt = self.parse_listen_stmt()?;
                match listen_stmt {
                    Stmt::Listen { event, params, lifetime, body, span, .. } => {
                        Ok(Member::ListenDecl { event, params, lifetime, body, span })
                    },
                    _ => Err(self.error(owned("internal: parse_listen_stmt returned a non-Listen statement"))),
                }
            },
            TokenKind::Static => self.parse_static_member(),
            TokenKind::Abstract => {
                self.advance();
                self.expect(&TokenKind::Func)?;
                self.parse_func_inner_ext(Visibility::Public, false, false, true, false, false, Vec::new())
            },
            TokenKind::Open => {
                self.advance();
                self.expect(&TokenKind::Func)?;
                self.parse_func_inner_ext(Visibility::Public, false, false, false, true, false, Vec::new())
            },
            TokenKind::Operator => self.parse_operator_member(),
            TokenKind::Val | TokenKind::Var | TokenKind::Const | TokenKind::Fixed => {
                self.parse_val_var_field_or_property_with_targets(Visibility::Public, false, target_annotations)
            },
            TokenKind::Awake | TokenKind::Update | TokenKind::FixedUpdate | TokenKind::LateUpdate
            | TokenKind::OnEnable | TokenKind::OnDisable | TokenKind::OnDestroy
            | TokenKind::OnTriggerEnter | TokenKind::OnTriggerExit | TokenKind::OnTriggerStay
            | TokenKind::OnCollisionEnter | TokenKind::OnCollisionExit | TokenKind::OnCollisionStay => {
                self.parse_lifecycle()
            },
            TokenKind::Start => {
                if self.is_lifecycle_start() {
                    self.parse_lifecycle()
                } else {
                    Err(self.error_found("Expected member declaration, found "))
                }
            },
            _ => Err(self.error_found("Expected member declaration, found ")),
        }
    }

    /// A member after a visibility keyword: an event, an `async func`, a `serialize` field, a
    /// function, an `override func`, a plain field `name: Type`, or a `val`/`var`/`const`/`fixed`.
    fn parse_visibility_member(&mut self, annotations: Vec<Annotation>, target_annotations: Vec<TargetAnnotation>) -> (r: Result<Member, ParseError>)
        requires
            old(self).wf(),
            old(self).cur() is Public || old(self).cur() is Private || old(self).cur() is Protected,
        ensures
            final(self).evolves(*old(self)),
            final(self).pos > old(self).pos,
        decreases old(self).tokens@.len() - old(self).pos, 1int,
    {
        let vis = self.parse_visibility();
        if self.check_contextual("event") {
            return self.parse_event_member(vis);
        }
        if self.check_contextual("async") {
            self.advance();
            self.expect(&TokenKind::Func)?;
            return self.parse_func_inner_async(vis);
        }
        match self.peek_kind() {
            TokenKind::Serialize => self.parse_serialize_field_with_vis(annotations, target_annotations, Some(vis)),
            TokenKind::Func => self.parse_func_with_annotations(vis, false, annotations),
            TokenKind::Override => {
                self.advance();
                self.expect(&TokenKind::Func)?;
                self.parse_func_inner(vis, false, true)
            },
            TokenKind::Identifier(_) => self.parse_field(vis),
            TokenKind::Val | TokenKind::Var | TokenKind::Const | TokenKind::Fixed => {
                self.parse_val_var_field_or_property_with_targets(vis, false, target_annotations)
            },
            _ => Err(self.error_found("Expected member after visibility, found ")),
        }
    }

    /// A member after `static`: a function, an operator, or a field.
    fn parse_static_member(&mut self) -> (r: Result<Member, ParseError>)
        requires
            old(self).wf(),
            old(self).cur() is Static,
        ensures
            final(self).evolves(*old(self)),
            final(self).pos > old(self).pos,
        decreases old(self).tokens@.len() - old(self).pos, 1int,
    {
        self.advance();
        match self.peek_kind() {
            TokenKind::Func => self.parse_func_with_static(Visibility::Public, false, true),
            TokenKind::Operator => self.parse_operator_member(),
            TokenKind::Val | TokenKind::Var | TokenKind::Const | TokenKind::Fixed => {
                self.parse_val_var_field_with_static(Visibility::Public, true)
            },
            _ => Err(self.error_found("Expected 'func', 'val', or 'var' after 'static', found ")),
        }
    }

    /// `start` followed (across newlines) by `{` opens the `start` lifecycle block; otherwise
    /// it begins a `start coroutine()` statement.
    fn is_lifecycle_start(&self) -> (r: bool)
        requires
            self.wf(),
        ensures
            r == (spec_skip_newlines(self.tokens@, self.pos + 1) < self.tokens@.len()
                && self.tokens@[spec_skip_newlines(self.tokens@, self.pos + 1)].kind is LBrace),
    {
        let mut p = self.pos + 1;
        while p < self.tokens.len() && matches!(self.tokens[p].kind, TokenKind::Newline)
            invariant
                self.pos < p <= self.tokens@.len(),
                spec_skip_newlines(self.tokens@, self.pos + 1) == spec_skip_newlines(self.tokens@, p as int),
            decreases self.tokens@.len() - p,
        {
            p = p + 1;
        }
        if p < self.tokens.len() {
            matches!(self.tokens[p].kind, TokenKind::LBrace)
        } else {
            false
        }
    }

    /// Leading `@name(..)` annotations, without the attribute-target ones.
    pub(crate) fn parse_annotations(&mut self) -> (r: Result<Vec<Annotation>, ParseError>)
        requires
            old(self).wf(),
        ensures
            final(self).evolves(*old(self)),
            !(old(self).cur() is At) ==> (r matches Ok(a) && a@.len() == 0 && final(self).pos == old(self).pos
                && final(self).errors@ == old(self).errors@),
        decreases old(self).tokens@.len() - old(self).pos, 2int,
    {
        let (annotations, _targets) = self.parse_annotations_and_targets()?;
        Ok(annotations)
    }

    /// Leading `@name(args)` annotations, split into plain annotations and attribute-target
    /// annotations (`@field`, `@property`, `@param`, `@return`, `@type`), whose first argument
    /// names the attribute. A target annotation without that name is reported.
    pub(crate) fn parse_annotations_and_targets(&mut self) -> (r: Result<(Vec<Annotation>, Vec<TargetAnnotation>), ParseError>)
        requires
            old(self).wf(),
        ensures
            final(self).evolves(*old(self)),
            !(old(self).cur() is At) ==> final(self).pos == old(self).pos,
            !(old(self).cur() is At) ==> (r matches Ok(t) && t.0@.len() == 0 && t.1@.len() == 0
                && final(self).errors@ == old(self).errors@),
            r is Ok ==> !(final(self).cur() is At),
            old(self).cur() is At && r is Ok ==> final(self).pos > old(self).pos,
        decreases old(self).tokens@.len() - old(self).pos, 1int,
    {
        let mut annotations: Vec<Annotation> = Vec::new();
        let mut targets: Vec<TargetAnnotation> = Vec::new();
        while self.check(&TokenKind::At)
            invariant
                self.evolves(*old(self)),
                !(old(self).cur() is At) ==> self.pos == old(self).pos && self.errors@ == old(self).errors@
                    && annotations@.len() == 0 && targets@.len() == 0,
                old(self).cur() is At ==> self.pos > old(self).pos || self.pos == old(self).pos,
            decreases self.tokens@.len() - self.pos,
        {
            let start = self.peek_span();
            self.advance();
            let (name, _s) = self.expect_ident_or_keyword()?;
            let ghost name_end = self.pos;
            let (args, arg_names) = if self.eat(&TokenKind::LParen) {
                let mut exprs: Vec<Expr> = Vec::new();
                let mut names: Vec<Option<String>> = Vec::new();
                self.skip_newlines();
                while !self.check(&TokenKind::RParen) && !self.check(&TokenKind::Eof)
                    invariant
                        self.evolves(*old(self)),
                        self.pos > old(self).pos,
                        self.pos >= name_end,
                        old(self).cur() is At,
                    decreases self.tokens@.len() - self.pos,
                {
                    let arg = self.parse_call_arg()?;
                    names.push(arg.name);
                    exprs.push(arg.value);
                    self.skip_newlines();
                    if !self.eat(&TokenKind::Comma) {
                        break;
                    }
                    self.skip_newlines();
                }
                self.skip_newlines();
                self.expect(&TokenKind::RParen)?;
                (exprs, names)
            } else {
                (Vec::new(), Vec::new())
            };
            let ann_span = self.span_from(start);

            let target_kind = if str_eq(name.as_str(), "field") {
                Some(AttrTargetKind::Field)
            } else if str_eq(name.as_str(), "property") {
                Some(AttrTargetKind::Property)
            } else if str_eq(name.as_str(), "param") {
                Some(AttrTargetKind::Param)
            } else if str_eq(name.as_str(), "return") {
                Some(AttrTargetKind::Return)
            } else if str_eq(name.as_str(), "type") {
                Some(AttrTargetKind::Type)
            } else {
                None
            };

            match target_kind {
                Some(target) => {
                    let (attr_name, rest) = extract_target_attr_name(args);
                    match attr_name {
                        Some(attr_name) => {
                            targets.push(TargetAnnotation { target, attr_name, args: rest, span: ann_span });
                        },
                        None => {
                            self.errors.push(ParseError {
                                message: cat3("@", name.as_str(), "(...) requires an identifier naming a C# attribute as its first argument"),
                                span: ann_span,
                            });
                        },
                    }
                },
                None => {
                    annotations.push(Annotation { name, args, arg_names, span: ann_span });
                },
            }
            self.skip_newlines();
        }
        Ok((annotations, targets))
    }

    /// `serialize [val|var] name: Type [= init]`, possibly followed by property accessors.
    fn parse_serialize_field(&mut self, annotations: Vec<Annotation>, target_annotations: Vec<TargetAnnotation>) -> (r: Result<Member, ParseError>)
        requires
            old(self).wf(),
        ensures
            final(self).evolves(*old(self)),
            r is Ok ==> final(self).pos > old(self).pos,
            spec_plain_serialize_at(old(self).tokens@, old(self).pos as int) ==> ({
                let t = old(self).tokens@;
                let (mu, n) = spec_serialize_head(t, old(self).pos as int);
                r matches Ok(Member::SerializeField { mutability: m, visibility: v, name: x, ty: TypeRef::Simple { name: tn, nullable: q, .. }, init, .. })
                    && m == mu && v is None && x@ == t[n].kind->Identifier_0@ && tn@ == t[n + 2].kind->Identifier_0@
                    && !q && init == spec_serialize_init(t, old(self).pos as int).0 && final(self).errors@ == old(self).errors@
                    && final(self).pos == spec_plain_serialize_end(t, old(self).pos as int)
            }),
        decreases old(self).tokens@.len() - old(self).pos, 2int,
    {
        self.parse_serialize_field_with_vis(annotations, target_annotations, None)
    }

    /// `serialize` field with an explicit visibility. With `get`/`set` after it, the field
    /// is a serialized property.
    fn parse_serialize_field_with_vis(
        &mut self,
        annotations: Vec<Annotation>,
        target_annotations: Vec<TargetAnnotation>,
        visibility: Option<Visibility>,
    ) -> (r: Result<Member, ParseError>)
        requires
            old(self).wf(),
        ensures
            final(self).evolves(*old(self)),
            r is Ok ==> final(self).pos > old(self).pos,
            !(old(self).cur() is Serialize) ==> (r is Err && final(self).pos == old(self).pos
                && final(self).errors@ == old(self).errors@),
            spec_plain_serialize_at(old(self).tokens@, old(self).pos as int) ==> ({
                let t = old(self).tokens@;
                let (mu, n) = spec_serialize_head(t, old(self).pos as int);
                r matches Ok(Member::SerializeField { mutability: m, visibility: v, name: x, ty: TypeRef::Simple { name: tn, nullable: q, .. }, init, .. })
                    && m == mu && v == visibility && x@ == t[n].kind->Identifier_0@ && tn@ == t[n + 2].kind->Identifier_0@
                    && !q && init == spec_serialize_init(t, old(self).pos as int).0 && final(self).errors@ == old(self).errors@
                    && final(self).pos == spec_plain_serialize_end(t, old(self).pos as int)
            }),
            ({
                let t = old(self).tokens@;
                let p = old(self).pos as int;
                t[p].kind is Serialize && t[p + 1].kind is Identifier && p + 4 < t.len() && t[p + 2].kind is Colon
                    && spec_simple_type_at(t, p + 3) && t[p + 4].kind is Eof ==> (
                    r matches Ok(Member::SerializeField { mutability: mu, name: n, ty: TypeRef::Simple { name: tn, .. }, init, .. })
                    && mu == Mutability::Val && n@ == t[p + 1].kind->Identifier_0@ && tn@ == t[p + 3].kind->Identifier_0@
                    && init is None && final(self).errors@ == old(self).errors@)
            }),
        decreases old(self).tokens@.len() - old(self).pos, 1int,
    {
        let start = self.peek_span();
        self.expect(&TokenKind::Serialize)?;
        let mutability = if self.eat(&TokenKind::Var) {
            Mutability::Var
        } else {
            self.eat(&TokenKind::Val);
            Mutability::Val
        };
        let (name, name_span) = self.expect_ident()?;
        self.expect(&TokenKind::Colon)?;
        let ty = self.parse_type()?;
        let init = if self.eat(&TokenKind::Eq) {
            Some(self.parse_expr()?)
        } else {
            None
        };

        let saved = self.pos;
        self.skip_newlines();
        if self.check_contextual("get") || self.check_contextual("set") {
            return self.parse_property_accessors_full(start, mutability, name, name_span, ty, init, true, target_annotations);
        }
        self.pos = saved;

        self.expect_newline_or_eof();
        let span = self.span_from(start);
        Ok(Member::SerializeField { annotations, visibility, mutability, name, name_span, ty, init, span })
    }

    /// `name: Type` after a component-lookup keyword (consumed here).
    fn parse_lookup_member_parts(&mut self) -> (r: Result<(String, Span, TypeRef), ParseError>)
        requires
            old(self).wf(),
            !(old(self).cur() is Eof),
        ensures
            final(self).evolves(*old(self)),
            final(self).pos > old(self).pos,
            spec_lookup_member_at(old(self).tokens@, old(self).pos as int) ==> ({
                let t = old(self).tokens@;
                let p = old(self).pos as int;
                r matches Ok((n, _, TypeRef::Simple { name: tn, nullable: q, .. }))
                    && n@ == t[p + 1].kind->Identifier_0@ && tn@ == t[p + 3].kind->Identifier_0@ && !q
                    && final(self).errors@ == old(self).errors@
                    && final(self).pos == spec_line_end_after(t, p + 4)
            }),
    {
        self.advance();
        let (name, name_span) = self.expect_ident()?;
        self.expect(&TokenKind::Colon)?;
        let ty = self.parse_type()?;
        self.expect_newline_or_eof();
        Ok((name, name_span, ty))
    }

    /// `require name: Type`
    fn parse_require(&mut self) -> (r: Result<Member, ParseError>)
        requires
            old(self).wf(),
            old(self).cur() is Require,
        ensures
            final(self).evolves(*old(self)),
            final(self).pos > old(self).pos,
            spec_lookup_member_at(old(self).tokens@, old(self).pos as int) ==> ({
                let t = old(self).tokens@;
                let p = old(self).pos as int;
                r matches Ok(Member::Require { name: n, ty: TypeRef::Simple { name: tn, nullable: q, .. }, .. })
                    && n@ == t[p + 1].kind->Identifier_0@ && tn@ == t[p + 3].kind->Identifier_0@ && !q
                    && final(self).errors@ == old(self).errors@
                    && final(self).pos == spec_line_end_after(t, p + 4)
            }),
    {
        let start = self.peek_span();
        let (name, name_span, ty) = self.parse_lookup_member_parts()?;
        let span = self.span_from(start);
        Ok(Member::Require { name, name_span, ty, span })
    }

    /// `optional name: Type`
    fn parse_optional(&mut self) -> (r: Result<Member, ParseError>)
        requires
            old(self).wf(),
            old(self).cur() is Optional,
        ensures
            final(self).evolves(*old(self)),
            final(self).pos > old(self).pos,
            spec_lookup_member_at(old(self).tokens@, old(self).pos as int) ==> ({
                let t = old(self).tokens@;
                let p = old(self).pos as int;
                r matches Ok(Member::Optional { name: n, ty: TypeRef::Simple { name: tn, nullable: q, .. }, .. })
                    && n@ == t[p + 1].kind->Identifier_0@ && tn@ == t[p + 3].kind->Identifier_0@ && !q
                    && final(self).errors@ == old(self).errors@
                    && final(self).pos == spec_line_end_after(t, p + 4)
            }),
    {
        let start = self.peek_span();
        let (name, name_span, ty) = self.parse_lookup_member_parts()?;
        let span = self.span_from(start);
        Ok(Member::Optional { name, name_span, ty, span })
    }

    /// `child name: Type`
    fn parse_child(&mut self) -> (r: Result<Member, ParseError>)
        requires
            old(self).wf(),
            old(self).cur() is Child,
        ensures
            final(self).evolves(*old(self)),
            final(self).pos > old(self).pos,
            spec_lookup_member_at(old(self).tokens@, old(self).pos as int) ==> ({
                let t = old(self).tokens@;
                let p = old(self).pos as int;
                r matches Ok(Member::Child { name: n, ty: TypeRef::Simple { name: tn, nullable: q, .. }, .. })
                    && n@ == t[p + 1].kind->Identifier_0@ && tn@ == t[p + 3].kind->Identifier_0@ && !q
                    && final(self).errors@ == old(self).errors@
                    && final(self).pos == spec_line_end_after(t, p + 4)
            }),
    {
        let start = self.peek_span();
        let (name, name_span, ty) = self.parse_lookup_member_parts()?;
        let span = self.span_from(start);
        Ok(Member::Child { name, name_span, ty, span })
    }

    /// `parent name: Type`
    fn parse_parent(&mut self) -> (r: Result<Member, ParseError>)
        requires
            old(self).wf(),
            old(self).cur() is Parent,
        ensures
            final(self).evolves(*old(self)),
            final(self).pos > old(self).pos,
            spec_lookup_member_at(old(self).tokens@, old(self).pos as int) ==> ({
                let t = old(self).tokens@;
                let p = old(self).pos as int;
                r matches Ok(Member::Parent { name: n, ty: TypeRef::Simple { name: tn, nullable: q, .. }, .. })
                    && n@ == t[p + 1].kind->Identifier_0@ && tn@ == t[p + 3].kind->Identifier_0@ && !q
                    && final(self).errors@ == old(self).errors@
                    && final(self).pos == spec_line_end_after(t, p + 4)
            }),
    {
        let start = self.peek_span();
        let (name, name_span, ty) = self.parse_lookup_member_parts()?;
        let span = self.span_from(start);
        Ok(Member::Parent { name, name_span, ty, span })
    }

    /// `pool name: Type(capacity = N, max = M)`; both arguments are required.
    fn parse_pool(&mut self) -> (r: Result<Member, ParseError>)
        requires
            old(self).wf(),
            old(self).cur() is Pool,
        ensures
            final(self).evolves(*old(self)),
            r is Ok ==> final(self).pos > old(self).pos,
            spec_empty_pool_at(old(self).tokens@, old(self).pos as int) ==> r is Err,
            spec_pool_at(old(self).tokens@, old(self).pos as int) ==> ({
                let t = old(self).tokens@;
                let p = old(self).pos as int;
                r matches Ok(Member::Pool { name: n, item_type: TypeRef::Simple { name: tn, .. }, capacity: c, max_size: m, .. })
                    && n@ == t[p + 1].kind->Identifier_0@ && tn@ == t[p + 3].kind->Identifier_0@
                    && c == t[p + 7].kind->IntLiteral_0 as u32 && m == t[p + 11].kind->IntLiteral_0 as u32
            }),
    {
        let start = self.peek_span();
        self.advance();
        let (name, name_span) = self.expect_ident()?;
        self.expect(&TokenKind::Colon)?;
        let item_type = self.parse_type()?;
        self.expect(&TokenKind::LParen)?;

        let mut capacity: Option<u32> = None;
        let mut max_size: Option<u32> = None;

        loop
            invariant_except_break
                spec_pool_at(old(self).tokens@, old(self).pos as int) ==> ({
                    let t = old(self).tokens@;
                    let p = old(self).pos as int;
                    (self.pos == p + 5 && capacity is None && max_size is None)
                    || (self.pos == p + 9 && capacity == Some(t[p + 7].kind->IntLiteral_0 as u32) && max_size is None)
                }),
            invariant
                self.evolves(*old(self)),
                self.pos > old(self).pos,
                spec_empty_pool_at(old(self).tokens@, old(self).pos as int) ==> self.pos == old(self).pos + 5
                    && capacity is None,
            ensures
                self.evolves(*old(self)),
                self.pos > old(self).pos,
                spec_empty_pool_at(old(self).tokens@, old(self).pos as int) ==> capacity is None,
                spec_pool_at(old(self).tokens@, old(self).pos as int) ==> ({
                    let t = old(self).tokens@;
                    let p = old(self).pos as int;
                    self.pos == p + 12 && capacity == Some(t[p + 7].kind->IntLiteral_0 as u32)
                        && max_size == Some(t[p + 11].kind->IntLiteral_0 as u32)
                }),
            decreases self.tokens@.len() - self.pos,
        {
            if self.check(&TokenKind::RParen) {
                break;
            }
            let (arg_name, _s) = self.expect_ident()?;
            self.expect(&TokenKind::Eq)?;
            proof {
                reveal_strlit("capacity");
                reveal_strlit("max");
                let t = old(self).tokens@;
                let p = old(self).pos as int;
                if spec_pool_at(t, p) && self.pos == p + 11 {
                    assert(arg_name@ == "max"@);
                    assert(arg_name@ != "capacity"@);
                }
            }
            match self.peek_kind() {
                TokenKind::IntLiteral(n) => {
                    self.advance();
                    if str_eq(arg_name.as_str(), "capacity") {
                        capacity = Some(n as u32);
                    } else if str_eq(arg_name.as_str(), "max") {
                        max_size = Some(n as u32);
                    } else {
                        return Err(self.error(cat3("Unknown pool argument '", arg_name.as_str(), "', expected 'capacity' or 'max'")));
                    }
                },
                _ => {
                    let found = debug_kind(self.peek());
                    return Err(self.error(cat4("Expected integer literal for pool argument '", arg_name.as_str(), "', found ", found.as_str())));
                },
            }
            if !self.eat(&TokenKind::Comma) {
                proof {
                    let t = old(self).tokens@;
                    let p = old(self).pos as int;
                    if spec_pool_at(t, p) {
                        assert(self.pos == p + 12);
                        assert(capacity == Some(t[p + 7].kind->IntLiteral_0 as u32));
                        assert(max_size == Some(t[p + 11].kind->IntLiteral_0 as u32));
                    }
                }
                break;
            }
        }

        self.expect(&TokenKind::RParen)?;
        self.expect_newline_or_eof();

        let capacity = match capacity {
            Some(c) => c,
            None => {
                return Err(self.error(owned("Pool declaration missing 'capacity' argument")));
            },
        };
        let max_size = match max_size {
            Some(m) => m,
            None => {
                return Err(self.error(owned("Pool declaration missing 'max' argument")));
            },
        };

        let span = self.span_from(start);
        Ok(Member::Pool { name, name_span, item_type, capacity, max_size, span })
    }

    /// `event name: FunctionType`
    fn parse_event_member(&mut self, visibility: Visibility) -> (r: Result<Member, ParseError>)
        requires
            old(self).wf(),
        ensures
            final(self).evolves(*old(self)),
            r is Ok ==> final(self).pos > old(self).pos,
            r matches Ok(m) ==> (m matches Member::Event { visibility: v, .. } && v == visibility),
            ({
                let t = old(self).tokens@;
                let p = old(self).pos as int;
                t[p].kind is Identifier && t[p].kind->Identifier_0@ != "event"@ && t[p + 1].kind is Colon
                    && spec_simple_type_at(t, p + 2) ==> (
                    r matches Ok(Member::Event { name: n, ty: TypeRef::Simple { name: tn, .. }, .. })
                    && n@ == t[p].kind->Identifier_0@ && tn@ == t[p + 2].kind->Identifier_0@)
            }),
    {
        let start = self.peek_span();
        let _ = self.eat_contextual("event");
        let (name, name_span) = self.expect_ident()?;
        self.expect(&TokenKind::Colon)?;
        let ty = self.parse_type()?;
        self.expect_newline_or_eof();
        let span = self.span_from(start);
        Ok(Member::Event { visibility, name, name_span, ty, span })
    }

    /// `state machine Name { state .. }`
    fn parse_state_machine(&mut self) -> (r: Result<Member, ParseError>)
        requires
            old(self).wf(),
        ensures
            final(self).evolves(*old(self)),
            r is Ok ==> final(self).pos > old(self).pos,
            !(old(self).cur() is Identifier && old(self).cur()->Identifier_0@ == "state"@) ==> (r is Err
                && final(self).pos == old(self).pos && final(self).errors@ == old(self).errors@),
            ({
                let t = old(self).tokens@;
                let p = old(self).pos as int;
                t[p].kind is Identifier && t[p].kind->Identifier_0@ == "state"@ && p + 3 < t.len()
                    && t[p + 1].kind is Identifier && t[p + 1].kind->Identifier_0@ == "machine"@
                    && t[p + 2].kind is Identifier && t[p + 3].kind is LBrace && spec_kind_after_newlines(t, p + 4) is RBrace ==> (
                    r matches Ok(Member::StateMachine { name: n, states: ss, .. }) && n@ == t[p + 2].kind->Identifier_0@
                    && ss@.len() == 0)
            }),
        decreases old(self).tokens@.len() - old(self).pos, 1int,
    {
        let start = self.peek_span();
        if self.eat_contextual("state").is_none() {
            return Err(self.error(owned("Expected 'state'")));
        }
        self.skip_newlines();
        if self.eat_contextual("machine").is_none() {
            return Err(self.error(owned("Expected 'machine' after 'state'")));
        }
        self.skip_newlines();
        let (name, name_span) = self.expect_ident()?;
        self.skip_newlines();
        self.expect(&TokenKind::LBrace)?;
        self.skip_newlines();

        let mut states: Vec<StateDecl> = Vec::new();
        while !self.check(&TokenKind::RBrace) && !self.check(&TokenKind::Eof)
            invariant
                self.evolves(*old(self)),
                self.pos > old(self).pos,
                ({
                    let t = old(self).tokens@;
                    let p = old(self).pos as int;
                    t[p].kind is Identifier && t[p].kind->Identifier_0@ == "state"@ && p + 3 < t.len()
                        && t[p + 1].kind is Identifier && t[p + 1].kind->Identifier_0@ == "machine"@
                        && t[p + 2].kind is Identifier && t[p + 3].kind is LBrace && spec_kind_after_newlines(t, p + 4) is RBrace ==>
                        self.pos == spec_skip_newlines(t, p + 4) && states@.len() == 0
                }),
                old(self).cur() is Identifier && old(self).cur()->Identifier_0@ == "state"@,
            decreases self.tokens@.len() - self.pos,
        {
            let state = self.parse_state_decl()?;
            states.push(state);
            self.skip_newlines();
        }
        self.expect(&TokenKind::RBrace)?;
        self.expect_newline_or_eof();

        let span = self.span_from(start);
        Ok(Member::StateMachine { name, name_span, states, span })
    }

    /// `state Name { enter {..} exit {..} on event => Target .. }`; a second `enter` or
    /// `exit` block is an error (E212).
    fn parse_state_decl(&mut self) -> (r: Result<StateDecl, ParseError>)
        requires
            old(self).wf(),
        ensures
            final(self).evolves(*old(self)),
            r is Ok ==> final(self).pos > old(self).pos,
            !(old(self).cur() is Identifier && old(self).cur()->Identifier_0@ == "state"@) ==> (r is Err
                && final(self).pos == old(self).pos && final(self).errors@ == old(self).errors@),
            ({
                let t = old(self).tokens@;
                let p = old(self).pos as int;
                t[p].kind is Identifier && t[p].kind->Identifier_0@ == "state"@ && t[p + 1].kind is Identifier
                    && p + 2 < t.len() && t[p + 2].kind is LBrace && spec_kind_after_newlines(t, p + 3) is RBrace ==> (
                    r matches Ok(sd) && sd.name@ == t[p + 1].kind->Identifier_0@ && sd.enter is None && sd.exit is None
                    && sd.transitions@.len() == 0)
            }),
            spec_duplicate_enter_at(old(self).tokens@, old(self).pos as int) ==> (r matches Err(e)
                && e.message@ == "E212: duplicate 'enter' block in state '"@ + old(self).tokens@[old(self).pos + 1].kind->Identifier_0@
                    + "'. A state may declare at most one 'enter' block."@),
        decreases old(self).tokens@.len() - old(self).pos, 1int,
    {
        let start = self.peek_span();
        if self.eat_contextual("state").is_none() {
            return Err(self.error(owned("Expected 'state'")));
        }
        let (name, name_span) = self.expect_ident_or_keyword()?;
        self.skip_newlines();
        self.expect(&TokenKind::LBrace)?;
        self.skip_newlines();

        let mut enter: Option<Block> = None;
        let mut exit: Option<Block> = None;
        let mut transitions: Vec<StateTransition> = Vec::new();

        while !self.check(&TokenKind::RBrace) && !self.check(&TokenKind::Eof)
            invariant
                self.evolves(*old(self)),
                self.pos > old(self).pos,
                ({
                    let t = old(self).tokens@;
                    let p = old(self).pos as int;
                    t[p].kind is Identifier && t[p].kind->Identifier_0@ == "state"@ && t[p + 1].kind is Identifier
                        && p + 2 < t.len() && t[p + 2].kind is LBrace && spec_kind_after_newlines(t, p + 3) is RBrace ==>
                        self.pos == spec_skip_newlines(t, p + 3) && enter is None && exit is None && transitions@.len() == 0
                }),
                old(self).cur() is Identifier && old(self).cur()->Identifier_0@ == "state"@,
                spec_duplicate_enter_at(old(self).tokens@, old(self).pos as int) ==> ({
                    let (e1, c1, e2) = spec_state_enter_positions(old(self).tokens@, old(self).pos as int);
                    &&& name@ == old(self).tokens@[old(self).pos + 1].kind->Identifier_0@
                    &&& (self.pos == e1 && enter is None) || (self.pos == e2 && enter is Some)
                }),
            decreases self.tokens@.len() - self.pos,
        {
            proof {
                if spec_duplicate_enter_at(old(self).tokens@, old(self).pos as int) {
                    let t = old(self).tokens@;
                    let (e1, c1, e2) = spec_state_enter_positions(t, old(self).pos as int);
                    lemma_skip_newlines(t, e1 + 1);
                    lemma_skip_newlines(t, e2 + 1);
                    lemma_skip_newlines(t, c1 + 1);
                    lemma_skip_newlines(t, spec_skip_newlines(t, c1 + 1) + 1);
                }
            }
            if self.check_contextual("enter") {
                let enter_span = self.peek_span();
                self.advance();
                self.skip_newlines();
                let block = self.parse_block()?;
                if enter.is_some() {
                    return Err(ParseError {
                        message: cat3("E212: duplicate 'enter' block in state '", name.as_str(), "'. A state may declare at most one 'enter' block."),
                        span: enter_span,
                    });
                }
                enter = Some(block);
                self.skip_newlines();
            } else if self.check_contextual("exit") {
                let exit_span = self.peek_span();
                self.advance();
                self.skip_newlines();
                let block = self.parse_block()?;
                if exit.is_some() {
                    return Err(ParseError {
                        message: cat3("E212: duplicate 'exit' block in state '", name.as_str(), "'. A state may declare at most one 'exit' block."),
                        span: exit_span,
                    });
                }
                exit = Some(block);
                self.skip_newlines();
            } else if self.check_contextual("on") {
                let t_start = self.peek_span();
                self.advance();
                let (event, event_span) = self.expect_ident_or_keyword()?;
                self.expect(&TokenKind::FatArrow)?;
                let (target, target_span) = self.expect_ident_or_keyword()?;
                self.expect_newline_or_eof();
                let tspan = self.span_from(t_start);
                transitions.push(StateTransition { event, event_span, target, target_span, span: tspan });
                self.skip_newlines();
            } else {
                let found = debug_kind(self.peek());
                return Err(self.error(cat4("Expected 'enter', 'exit', or 'on' inside state '", name.as_str(), "', found ", found.as_str())));
            }
        }
        self.expect(&TokenKind::RBrace)?;
        self.expect_newline_or_eof();

        let span = self.span_from(start);
        Ok(StateDecl { name, name_span, enter, exit, transitions, span })
    }

    /// `command Name(params) { .. } [undo { .. }] [canExecute = expr]`
    fn parse_command_member(&mut self) -> (r: Result<Member, ParseError>)
        requires
            old(self).wf(),
        ensures
            final(self).evolves(*old(self)),
            r is Ok ==> final(self).pos > old(self).pos,
            !(old(self).cur() is Identifier && old(self).cur()->Identifier_0@ == "command"@) ==> (r is Err
                && final(self).pos == old(self).pos && final(self).errors@ == old(self).errors@),
            ({
                let t = old(self).tokens@;
                let p = old(self).pos as int;
                p + 6 < t.len() && t[p].kind is Identifier && t[p].kind->Identifier_0@ == "command"@
                    && t[p + 1].kind is Identifier && t[p + 2].kind is LParen && t[p + 3].kind is RParen
                    && t[p + 4].kind is LBrace && t[p + 5].kind is RBrace && t[p + 6].kind is Eof ==> (
                    r matches Ok(Member::Command { name: n, params: ps, execute: ex, undo: u, can_execute: ce, .. })
                    && n@ == t[p + 1].kind->Identifier_0@ && ps@.len() == 0 && ex.stmts@.len() == 0 && u is None
                    && ce is None && final(self).pos == p + 6 && final(self).errors@ == old(self).errors@)
            }),
        decreases old(self).tokens@.len() - old(self).pos, 1int,
    {
        let start = self.peek_span();
        if self.eat_contextual("command").is_none() {
            return Err(self.error(owned("Expected 'command'")));
        }
        let (name, name_span) = self.expect_ident()?;
        self.expect(&TokenKind::LParen)?;
        let params = if self.check(&TokenKind::RParen) {
            Vec::new()
        } else {
            self.parse_param_list()?
        };
        self.expect(&TokenKind::RParen)?;
        self.skip_newlines();
        let execute = self.parse_block()?;
        self.skip_newlines();

        let undo = if self.check_contextual("undo") {
            self.advance();
            self.skip_newlines();
            let block = self.parse_block()?;
            self.skip_newlines();
            Some(block)
        } else {
            None
        };

        let can_execute = if self.check_contextual("canExecute") {
            self.advance();
            self.expect(&TokenKind::Eq)?;
            let expr = self.parse_expr()?;
            self.expect_newline_or_eof();
            Some(expr)
        } else {
            None
        };

        let span = self.span_from(start);
        Ok(Member::Command { name, name_span, params, execute, undo, can_execute, span })
    }

    /// `bind name: Type [= init]`
    fn parse_bind_member(&mut self) -> (r: Result<Member, ParseError>)
        requires
            old(self).wf(),
        ensures
            final(self).evolves(*old(self)),
            r is Ok ==> final(self).pos > old(self).pos,
            !(old(self).cur() is Identifier && old(self).cur()->Identifier_0@ == "bind"@) ==> (r is Err
                && final(self).pos == old(self).pos && final(self).errors@ == old(self).errors@),
            ({
                let t = old(self).tokens@;
                let p = old(self).pos as int;
                t[p].kind is Identifier && t[p].kind->Identifier_0@ == "bind"@ && t[p + 1].kind is Identifier
                    && p + 2 < t.len() && t[p + 2].kind is Colon && spec_simple_type_at(t, p + 3)
                    && !(t[p + 4].kind is Question || t[p + 4].kind is Eq) ==> (
                    r matches Ok(Member::BindProperty { name: n, ty: TypeRef::Simple { name: tn, .. }, init: i, .. })
                    && n@ == t[p + 1].kind->Identifier_0@ && tn@ == t[p + 3].kind->Identifier_0@ && i is None)
            }),
        decreases old(self).tokens@.len() - old(self).pos, 1int,
    {
        let start = self.peek_span();
        if self.eat_contextual("bind").is_none() {
            return Err(self.error(owned("Expected 'bind'")));
        }
        let (name, name_span) = self.expect_ident()?;
        self.expect(&TokenKind::Colon)?;
        let ty = self.parse_type()?;
        let init = if self.eat(&TokenKind::Eq) {
            Some(self.parse_expr()?)
        } else {
            None
        };
        self.expect_newline_or_eof();
        let span = self.span_from(start);
        Ok(Member::BindProperty { name, name_span, ty, init, span })
    }

    /// `func ..` with no annotations.
    pub(crate) fn parse_func(&mut self, vis: Visibility, is_override: bool) -> (r: Result<Member, ParseError>)
        requires
            old(self).wf(),
            old(self).cur() is Func,
        ensures
            final(self).evolves(*old(self)),
            r is Ok ==> final(self).pos > old(self).pos,
        decreases old(self).tokens@.len() - old(self).pos, 2int,
    {
        self.parse_func_with_annotations(vis, is_override, Vec::new())
    }

    /// `func ..` carrying the annotations written before it.
    pub(crate) fn parse_func_with_annotations(&mut self, vis: Visibility, is_override: bool, annotations: Vec<Annotation>) -> (r: Result<Member, ParseError>)
        requires
            old(self).wf(),
            old(self).cur() is Func,
        ensures
            final(self).evolves(*old(self)),
            r is Ok ==> final(self).pos > old(self).pos,
        decreases old(self).tokens@.len() - old(self).pos, 1int,
    {
        self.advance();
        self.parse_func_inner_ext(vis, false, is_override, false, false, false, annotations)
    }

    /// `func ..`, static when `is_static`.
    fn parse_func_with_static(&mut self, vis: Visibility, is_override: bool, is_static: bool) -> (r: Result<Member, ParseError>)
        requires
            old(self).wf(),
            old(self).cur() is Func,
        ensures
            final(self).evolves(*old(self)),
            r is Ok ==> final(self).pos > old(self).pos,
        decreases old(self).tokens@.len() - old(self).pos, 1int,
    {
        self.advance();
        self.parse_func_inner_ext(vis, is_static, is_override, false, false, false, Vec::new())
    }

    /// The rest of a function after `func`.
    fn parse_func_inner(&mut self, vis: Visibility, is_static: bool, is_override: bool) -> (r: Result<Member, ParseError>)
        requires
            old(self).wf(),
        ensures
            final(self).evolves(*old(self)),
            r is Ok ==> final(self).pos > old(self).pos,
        decreases old(self).tokens@.len() - old(self).pos, 2int,
    {
        self.parse_func_inner_ext(vis, is_static, is_override, false, false, false, Vec::new())
    }

    /// The rest of an `async func` after `func`.
    fn parse_func_inner_async(&mut self, vis: Visibility) -> (r: Result<Member, ParseError>)
        requires
            old(self).wf(),
        ensures
            final(self).evolves(*old(self)),
            r is Ok ==> final(self).pos > old(self).pos,
        decreases old(self).tokens@.len() - old(self).pos, 2int,
    {
        self.parse_func_inner_ext(vis, false, false, false, false, true, Vec::new())
    }

    /// `name[<T..>](params)[: Type] [where ..]` followed by `= expr`, a block, or, for an
    /// abstract function, nothing.
    fn parse_func_inner_ext(
        &mut self,
        vis: Visibility,
        is_static: bool,
        is_override: bool,
        is_abstract: bool,
        is_open: bool,
        is_async: bool,
        annotations: Vec<Annotation>,
    ) -> (r: Result<Member, ParseError>)
        requires
            old(self).wf(),
        ensures
            final(self).evolves(*old(self)),
            r is Ok ==> final(self).pos > old(self).pos,
        decreases old(self).tokens@.len() - old(self).pos, 1int,
    {
        let start = self.peek_span();
        let (name, name_span) = self.expect_ident()?;

        let type_params = if self.check(&TokenKind::Lt) {
            self.parse_type_params()?
        } else {
            Vec::new()
        };

        self.expect(&TokenKind::LParen)?;
        let params = self.parse_param_list()?;
        self.expect(&TokenKind::RParen)?;

        let return_ty = if self.eat(&TokenKind::Colon) {
            Some(self.parse_type()?)
        } else {
            None
        };

        let where_clauses = self.parse_where_clauses()?;

        let body = if is_abstract {
            self.expect_newline_or_eof();
            FuncBody::Block(Block { stmts: Vec::new(), span: self.peek_span() })
        } else if self.eat(&TokenKind::Eq) {
            let expr = self.parse_expr()?;
            self.expect_newline_or_eof();
            FuncBody::ExprBody(expr)
        } else {
            self.skip_newlines();
            FuncBody::Block(self.parse_block()?)
        };

        let span = self.span_from(start);
        Ok(Member::Func {
            visibility: vis,
            is_static,
            is_override,
            is_abstract,
            is_open,
            is_operator: false,
            is_async,
            annotations,
            name,
            name_span,
            type_params,
            where_clauses,
            params,
            return_ty,
            body,
            span,
        })
    }

    /// `coroutine name(params)[: Type] { .. }`
    pub(crate) fn parse_coroutine(&mut self) -> (r: Result<Member, ParseError>)
        requires
            old(self).wf(),
            !(old(self).cur() is Eof),
        ensures
            final(self).evolves(*old(self)),
            final(self).pos > old(self).pos,
        decreases old(self).tokens@.len() - old(self).pos, 1int,
    {
        let start = self.peek_span();
        self.advance();
        let (name, name_span) = self.expect_ident()?;
        self.expect(&TokenKind::LParen)?;
        let params = self.parse_param_list()?;
        self.expect(&TokenKind::RParen)?;
        let return_ty = if self.eat(&TokenKind::Colon) {
            Some(self.parse_type()?)
        } else {
            None
        };
        self.skip_newlines();
        let body = self.parse_block()?;
        let span = self.span_from(start);
        Ok(Member::Coroutine { name, name_span, params, return_ty, body, span })
    }

    /// A lifecycle block: `awake`, `start`, `update`, .. with optional parameters.
    fn parse_lifecycle(&mut self) -> (r: Result<Member, ParseError>)
        requires
            old(self).wf(),
        ensures
            final(self).evolves(*old(self)),
            r is Ok ==> final(self).pos > old(self).pos,
            spec_lifecycle_kind(old(self).cur()) is None ==> (r is Err && final(self).pos == old(self).pos),
            r matches Ok(m) ==> (m matches Member::Lifecycle { kind: k, .. } && spec_lifecycle_kind(old(self).cur()) == Some(k)),
            ({
                let t = old(self).tokens@;
                let p = old(self).pos as int;
                spec_lifecycle_kind(t[p].kind) is Some && t[p + 1].kind is LBrace && spec_kind_after_newlines(t, p + 2) is RBrace ==> (
                    r matches Ok(Member::Lifecycle { params: ps, body: b, .. }) && ps@.len() == 0 && b.stmts@.len() == 0
                    && final(self).pos == spec_skip_newlines(t, p + 2) + 1 && final(self).errors@ == old(self).errors@)
            }),
        decreases old(self).tokens@.len() - old(self).pos, 1int,
    {
        let start = self.peek_span();
        let kind = self.parse_lifecycle_kind()?;

        let params = if self.eat(&TokenKind::LParen) {
            let ps = self.parse_param_list()?;
            self.expect(&TokenKind::RParen)?;
            ps
        } else {
            Vec::new()
        };

        self.skip_newlines();
        let body = self.parse_block()?;
        let span = self.span_from(start);
        Ok(Member::Lifecycle { kind, params, body, span })
    }

    /// The lifecycle keyword under the cursor, consumed.
    fn parse_lifecycle_kind(&mut self) -> (r: Result<LifecycleKind, ParseError>)
        requires
            old(self).wf(),
        ensures
            final(self).evolves(*old(self)),
            r is Ok ==> final(self).pos == old(self).pos + 1,
            r is Ok ==> final(self).errors@ == old(self).errors@,
            r is Err ==> final(self).pos == old(self).pos,
            r matches Ok(k) ==> spec_lifecycle_kind(old(self).cur()) == Some(k),
            r is Err <==> spec_lifecycle_kind(old(self).cur()) is None,
    {
        let kind = match self.peek() {
            TokenKind::Awake => LifecycleKind::Awake,
            TokenKind::Start => LifecycleKind::Start,
            TokenKind::Update => LifecycleKind::Update,
            TokenKind::FixedUpdate => LifecycleKind::FixedUpdate,
            TokenKind::LateUpdate => LifecycleKind::LateUpdate,
            TokenKind::OnEnable => LifecycleKind::OnEnable,
            TokenKind::OnDisable => LifecycleKind::OnDisable,
            TokenKind::OnDestroy => LifecycleKind::OnDestroy,
            TokenKind::OnTriggerEnter => LifecycleKind::OnTriggerEnter,
            TokenKind::OnTriggerExit => LifecycleKind::OnTriggerExit,
            TokenKind::OnTriggerStay => LifecycleKind::OnTriggerStay,
            TokenKind::OnCollisionEnter => LifecycleKind::OnCollisionEnter,
            TokenKind::OnCollisionExit => LifecycleKind::OnCollisionExit,
            TokenKind::OnCollisionStay => LifecycleKind::OnCollisionStay,
            _ => {
                return Err(self.error_found("Expected lifecycle keyword, found "));
            },
        };
        self.advance();
        Ok(kind)
    }

    /// `intrinsic func ..` or `intrinsic coroutine ..` with a raw C# body.
    fn parse_intrinsic_member(&mut self) -> (r: Result<Member, ParseError>)
        requires
            old(self).wf(),
            old(self).cur() is Intrinsic,
        ensures
            final(self).evolves(*old(self)),
            r is Ok ==> final(self).pos > old(self).pos,
            !(old(self).tokens@[old(self).pos + 1].kind is Func || old(self).tokens@[old(self).pos + 1].kind is Coroutine)
                ==> r is Err,
            ({
                let t = old(self).tokens@;
                let p = old(self).pos as int;
                p + 6 < t.len() && t[p + 1].kind is Func && t[p + 2].kind is Identifier && t[p + 3].kind is LParen
                    && t[p + 4].kind is RParen && t[p + 5].kind is LBrace && t[p + 6].kind is RBrace ==> (
                    r matches Ok(Member::IntrinsicFunc { name: n, params: ps, return_ty: rt, code: c, .. })
                    && n@ == t[p + 2].kind->Identifier_0@ && ps@.len() == 0 && rt is None && c@.len() == 0
                    && final(self).pos == p + 7 && final(self).errors@ == old(self).errors@)
            }),
        decreases old(self).tokens@.len() - old(self).pos, 1int,
    {
        let start = self.peek_span();
        self.advance();

        match self.peek_kind() {
            TokenKind::Func => {
                self.advance();
                let vis = Visibility::Public;
                let (name, name_span) = self.expect_ident()?;
                self.expect(&TokenKind::LParen)?;
                let params = self.parse_param_list()?;
                self.expect(&TokenKind::RParen)?;
                let return_ty = if self.eat(&TokenKind::Colon) {
                    Some(self.parse_type()?)
                } else {
                    None
                };
                self.skip_newlines();
                let code = self.parse_raw_brace_block()?;
                let span = self.span_from(start);
                Ok(Member::IntrinsicFunc { visibility: vis, name, name_span, params, return_ty, code, span })
            },
            TokenKind::Coroutine => {
                self.advance();
                let (name, name_span) = self.expect_ident()?;
                self.expect(&TokenKind::LParen)?;
                let params = self.parse_param_list()?;
                self.expect(&TokenKind::RParen)?;
                self.skip_newlines();
                let code = self.parse_raw_brace_block()?;
                let span = self.span_from(start);
                Ok(Member::IntrinsicCoroutine { name, name_span, params, code, span })
            },
            _ => Err(self.error(owned("Expected 'func' or 'coroutine' after 'intrinsic'"))),
        }
    }

    /// `name: Type [= init]` after a visibility keyword: a mutable field.
    fn parse_field(&mut self, vis: Visibility) -> (r: Result<Member, ParseError>)
        requires
            old(self).wf(),
        ensures
            final(self).evolves(*old(self)),
            r is Ok ==> final(self).pos > old(self).pos,
            !(old(self).cur() is Identifier) ==> (r is Err && final(self).pos == old(self).pos
                && final(self).errors@ == old(self).errors@),
            r matches Ok(m) ==> (m matches Member::Field { visibility: v, name: n, mutability: mu, is_static: st, .. }
                && v == vis && n@ == old(self).cur()->Identifier_0@ && mu == Mutability::Var && !st),
            ({
                let t = old(self).tokens@;
                let p = old(self).pos as int;
                t[p].kind is Identifier && t[p + 1].kind is Colon && spec_simple_type_at(t, p + 2)
                    && !(t[p + 3].kind is Question || t[p + 3].kind is Eq) ==> (
                    r matches Ok(Member::Field { ty: Some(TypeRef::Simple { name: tn, .. }), init: i, .. })
                    && tn@ == t[p + 2].kind->Identifier_0@ && i is None)
            }),
        decreases old(self).tokens@.len() - old(self).pos, 1int,
    {
        let start = self.peek_span();
        let (name, name_span) = self.expect_ident()?;
        self.expect(&TokenKind::Colon)?;
        let ty = self.parse_type()?;
        let init = if self.eat(&TokenKind::Eq) {
            Some(self.parse_expr()?)
        } else {
            None
        };
        self.expect_newline_or_eof();
        let span = self.span_from(start);
        Ok(Member::Field {
            visibility: vis,
            is_static: false,
            mutability: Mutability::Var,
            name,
            name_span,
            ty: Some(ty),
            init,
            span,
        })
    }

    /// A non-static `val`/`var`/`const`/`fixed` field.
    fn parse_val_var_field(&mut self, vis: Visibility) -> (r: Result<Member, ParseError>)
        requires
            old(self).wf(),
        ensures
            final(self).evolves(*old(self)),
            r is Ok ==> final(self).pos > old(self).pos,
        decreases old(self).tokens@.len() - old(self).pos, 2int,
    {
        self.parse_val_var_field_with_static(vis, false)
    }

    /// A `val`/`var` that is a property when `get`/`set` accessors follow, else a field.
    fn parse_val_var_field_or_property(&mut self, vis: Visibility) -> (r: Result<Member, ParseError>)
        requires
            old(self).wf(),
        ensures
            final(self).evolves(*old(self)),
            r is Ok ==> final(self).pos > old(self).pos,
        decreases old(self).tokens@.len() - old(self).pos, 2int,
    {
        self.parse_val_var_field_or_property_with_targets(vis, false, Vec::new())
    }

    /// `val|var|const|fixed name[: Type] [= init]`; a typed `val`/`var` followed (before or
    /// after its initializer) by `get`/`set` is a property.
    fn parse_val_var_field_or_property_with_targets(
        &mut self,
        vis: Visibility,
        is_serialize: bool,
        target_annotations: Vec<TargetAnnotation>,
    ) -> (r: Result<Member, ParseError>)
        requires
            old(self).wf(),
        ensures
            final(self).evolves(*old(self)),
            r is Ok ==> final(self).pos > old(self).pos,
            spec_mutability_of(old(self).cur()) is None ==> (r is Err && final(self).pos == old(self).pos),
            ({
                let t = old(self).tokens@;
                let p = old(self).pos as int;
                spec_mutability_of(t[p].kind) is Some && t[p + 1].kind is Identifier && p + 2 < t.len()
                    && t[p + 2].kind is Eq && spec_atom_at(t, p + 3) is Some ==> (
                    r matches Ok(Member::Field { visibility: v, is_static: st, mutability: mu, name: n, ty, init, .. })
                    && v == vis && !st && Some(mu) == spec_mutability_of(t[p].kind) && n@ == t[p + 1].kind->Identifier_0@
                    && ty is None && init == spec_atom_at(t, p + 3))
            }),
        decreases old(self).tokens@.len() - old(self).pos, 1int,
    {
        let start = self.peek_span();
        let mutability = match self.peek() {
            TokenKind::Val => Mutability::Val,
            TokenKind::Var => Mutability::Var,
            TokenKind::Const => Mutability::Const,
            TokenKind::Fixed => Mutability::Fixed,
            _ => {
                return Err(self.error(owned("Expected val, var, const, or fixed")));
            },
        };
        self.advance();
        let (name, name_span) = self.expect_ident()?;
        let ty = if self.eat(&TokenKind::Colon) {
            Some(self.parse_type()?)
        } else {
            None
        };

        let may_be_property = (mutability == Mutability::Val || mutability == Mutability::Var) && ty.is_some();
        if may_be_property {
            let saved = self.pos;
            self.skip_newlines();
            if self.check_contextual("get") || self.check_contextual("set") {
                match ty {
                    Some(t) => {
                        return self.parse_property_accessors_full(start, mutability, name, name_span, t, None, is_serialize, target_annotations);
                    },
                    None => {},
                }
            }
            self.pos = saved;
        }

        let init = if self.eat(&TokenKind::Eq) {
            Some(self.parse_expr()?)
        } else {
            None
        };

        if may_be_property {
            let saved = self.pos;
            self.skip_newlines();
            if self.check_contextual("get") || self.check_contextual("set") {
                match ty {
                    Some(t) => {
                        return self.parse_property_accessors_full(start, mutability, name, name_span, t, init, is_serialize, target_annotations);
                    },
                    None => {},
                }
            }
            self.pos = saved;
        }
        self.expect_newline_or_eof();
        let span = self.span_from(start);
        Ok(Member::Field { visibility: vis, is_static: false, mutability, name, name_span, ty, init, span })
    }

    /// `val|var|const|fixed name[: Type] [= init]` as a field, static when `is_static`.
    pub(crate) fn parse_val_var_field_with_static(&mut self, vis: Visibility, is_static: bool) -> (r: Result<Member, ParseError>)
        requires
            old(self).wf(),
        ensures
            final(self).evolves(*old(self)),
            r is Ok ==> final(self).pos > old(self).pos,
            spec_mutability_of(old(self).cur()) is None ==> (r is Err && final(self).pos == old(self).pos
                && final(self).errors@ == old(self).errors@),
            r matches Ok(m) ==> (m matches Member::Field { visibility: v, is_static: st, mutability: mu, .. }
                && v == vis && st == is_static && spec_mutability_of(old(self).cur()) == Some(mu)),
            ({
                let t = old(self).tokens@;
                let p = old(self).pos as int;
                spec_mutability_of(t[p].kind) is Some && t[p + 1].kind is Identifier && p + 2 < t.len()
                    && t[p + 2].kind is Eq && spec_atom_at(t, p + 3) is Some ==> (
                    r matches Ok(Member::Field { name: n, ty, init, .. }) && n@ == t[p + 1].kind->Identifier_0@
                    && ty is None && init == spec_atom_at(t, p + 3))
            }),
        decreases old(self).tokens@.len() - old(self).pos, 1int,
    {
        let start = self.peek_span();
        let mutability = if self.eat(&TokenKind::Val) {
            Mutability::Val
        } else if self.eat(&TokenKind::Var) {
            Mutability::Var
        } else if self.eat(&TokenKind::Const) {
            Mutability::Const
        } else {
            self.expect(&TokenKind::Fixed)?;
            Mutability::Fixed
        };
        let (name, name_span) = self.expect_ident()?;
        let ty = if self.eat(&TokenKind::Colon) {
            Some(self.parse_type()?)
        } else {
            None
        };
        let init = if self.eat(&TokenKind::Eq) {
            Some(self.parse_expr()?)
        } else {
            None
        };
        self.expect_newline_or_eof();
        let span = self.span_from(start);
        Ok(Member::Field { visibility: vis, is_static, mutability, name, name_span, ty, init, span })
    }

    /// An optional visibility keyword, consumed; `public` when there is none.
    fn parse_visibility(&mut self) -> (r: Visibility)
        requires
            old(self).wf(),
        ensures
            final(self).evolves(*old(self)),
            final(self).errors == old(self).errors,
            r == (match old(self).cur() {
                TokenKind::Private => Visibility::Private,
                TokenKind::Protected => Visibility::Protected,
                _ => Visibility::Public,
            }),
            (old(self).cur() is Public || old(self).cur() is Private || old(self).cur() is Protected)
                ==> final(self).pos == old(self).pos + 1,
            !(old(self).cur() is Public || old(self).cur() is Private || old(self).cur() is Protected)
                ==> final(self).pos == old(self).pos,
    {
        match self.peek() {
            TokenKind::Public => {
                self.advance();
                Visibility::Public
            },
            TokenKind::Private => {
                self.advance();
                Visibility::Private
            },
            TokenKind::Protected => {
                self.advance();
                Visibility::Protected
            },
            _ => Visibility::Public,
        }
    }

    /// Property accessors without an initializer, serialization or target annotations.
    fn parse_property_accessors(&mut self, start: Span, mutability: Mutability, name: String, name_span: Span, ty: TypeRef) -> (r: Result<Member, ParseError>)
        requires
            old(self).wf(),
        ensures
            final(self).evolves(*old(self)),
        decreases old(self).tokens@.len() - old(self).pos, 2int,
    {
        self.parse_property_accessors_full(start, mutability, name, name_span, ty, None, false, Vec::new())
    }

    /// `get`/`set` accessors in any order, each at most once: bare (auto-property, an empty
    /// block), `get = expr`, `get { .. }`, `set(name) { .. }` or `set { .. }` (parameter
    /// `value`). The initializer is not kept.
    fn parse_property_accessors_full(
        &mut self,
        start: Span,
        mutability: Mutability,
        name: String,
        name_span: Span,
        ty: TypeRef,
        init: Option<Expr>,
        is_serialize: bool,
        target_annotations: Vec<TargetAnnotation>,
    ) -> (r: Result<Member, ParseError>)
        requires
            old(self).wf(),
        ensures
            final(self).evolves(*old(self)),
            r matches Ok(m) ==> (m matches Member::Property { mutability: mu, name: n, name_span: ns, is_serialize: ser, .. }
                && mu == mutability && n@ == name@ && ns == name_span && ser == is_serialize),
            ({
                let k = spec_kind_after_newlines(old(self).tokens@, old(self).pos as int);
                !(k is Identifier && (k->Identifier_0@ == "get"@ || k->Identifier_0@ == "set"@)) ==> (
                    r matches Ok(m) && m matches Member::Property { getter: g, setter: st, .. } && g is None && st is None
                    && final(self).pos == spec_skip_newlines(old(self).tokens@, old(self).pos as int)
                    && final(self).errors@ == old(self).errors@)
            }),
        decreases old(self).tokens@.len() - old(self).pos, 1int,
    {
        let _ = init;
        let mut getter: Option<FuncBody> = None;
        let mut setter: Option<PropertySetter> = None;

        loop
            invariant
                self.evolves(*old(self)),
                getter is None && setter is None ==> spec_skip_newlines(self.tokens@, self.pos as int)
                    == spec_skip_newlines(old(self).tokens@, old(self).pos as int) && self.errors@ == old(self).errors@,
                !(getter is None && setter is None) ==> ({
                    let k = spec_kind_after_newlines(old(self).tokens@, old(self).pos as int);
                    k is Identifier && (k->Identifier_0@ == "get"@ || k->Identifier_0@ == "set"@)
                }),
            ensures
                self.evolves(*old(self)),
                getter is None && setter is None ==> ({
                    let k = spec_kind_after_newlines(old(self).tokens@, old(self).pos as int);
                    &&& self.pos == spec_skip_newlines(old(self).tokens@, old(self).pos as int)
                    &&& self.errors@ == old(self).errors@
                    &&& !(k is Identifier && (k->Identifier_0@ == "get"@ || k->Identifier_0@ == "set"@))
                }),
            decreases self.tokens@.len() - self.pos,
        {
            self.skip_newlines();
            if self.check_contextual("get") && getter.is_none() {
                self.advance();
                if self.eat(&TokenKind::Eq) {
                    let expr = self.parse_expr()?;
                    getter = Some(FuncBody::ExprBody(expr));
                } else if self.check(&TokenKind::LBrace) || matches!(self.peek_after_newlines(), TokenKind::LBrace) {
                    self.skip_newlines();
                    let block = self.parse_block()?;
                    getter = Some(FuncBody::Block(block));
                } else {
                    getter = Some(FuncBody::Block(Block { stmts: Vec::new(), span: name_span }));
                }
            } else if self.check_contextual("set") && setter.is_none() {
                self.advance();
                if self.eat(&TokenKind::LParen) {
                    let (param_name, _s) = self.expect_ident()?;
                    self.expect(&TokenKind::RParen)?;
                    self.skip_newlines();
                    let block = self.parse_block()?;
                    setter = Some(PropertySetter { param_name, body: block });
                } else if self.check(&TokenKind::LBrace) || matches!(self.peek_after_newlines(), TokenKind::LBrace) {
                    self.skip_newlines();
                    let block = self.parse_block()?;
                    setter = Some(PropertySetter { param_name: owned("value"), body: block });
                } else {
                    setter = Some(PropertySetter {
                        param_name: owned("value"),
                        body: Block { stmts: Vec::new(), span: name_span },
                    });
                }
            } else {
                break;
            }
        }

        let span = self.span_from(start);
        Ok(Member::Property { mutability, name, name_span, ty, getter, setter, is_serialize, target_annotations, span })
    }

    /// The next token that is not a newline (`Eof` at the latest).
    pub(crate) fn peek_after_newlines(&self) -> (r: TokenKind)
        requires
            self.wf(),
        ensures
            r == spec_kind_after_newlines(self.tokens@, self.pos as int),
    {
        let mut p = self.pos;
        while p < self.tokens.len() && matches!(self.tokens[p].kind, TokenKind::Newline)
            invariant
                self.pos <= p <= self.tokens@.len(),
                spec_skip_newlines(self.tokens@, self.pos as int) == spec_skip_newlines(self.tokens@, p as int),
            decreases self.tokens@.len() - p,
        {
            p = p + 1;
        }
        if p < self.tokens.len() {
            self.tokens[p].kind.duplicate()
        } else {
            TokenKind::Eof
        }
    }

    /// `operator name(params)[: Type] (= expr | { .. })`
    fn parse_operator_member(&mut self) -> (r: Result<Member, ParseError>)
        requires
            old(self).wf(),
        ensures
            final(self).evolves(*old(self)),
            r is Ok ==> final(self).pos > old(self).pos,
            !(old(self).cur() is Operator) ==> (r is Err && final(self).pos == old(self).pos
                && final(self).errors@ == old(self).errors@),
            r matches Ok(m) ==> (m matches Member::Func { is_operator: op, .. } && op),
            ({
                let t = old(self).tokens@;
                let p = old(self).pos as int;
                p + 4 < t.len() && t[p].kind is Operator && t[p + 1].kind is Identifier && t[p + 2].kind is LParen
                    && t[p + 3].kind is RParen && t[p + 4].kind is Eq && spec_atom_at(t, p + 5) is Some ==> (
                    r matches Ok(Member::Func { name: n, params: ps, return_ty: rt, body: FuncBody::ExprBody(x), .. })
                    && n@ == t[p + 1].kind->Identifier_0@ && ps@.len() == 0 && rt is None && Some(x) == spec_atom_at(t, p + 5))
            }),
        decreases old(self).tokens@.len() - old(self).pos, 1int,
    {
        let start = self.peek_span();
        self.expect(&TokenKind::Operator)?;

        let (op_name, op_name_span) = self.expect_ident()?;

        self.expect(&TokenKind::LParen)?;
        let params = self.parse_param_list()?;
        self.expect(&TokenKind::RParen)?;

        let return_ty = if self.eat(&TokenKind::Colon) {
            Some(self.parse_type()?)
        } else {
            None
        };

        let body = if self.eat(&TokenKind::Eq) {
            let expr = self.parse_expr()?;
            self.expect_newline_or_eof();
            FuncBody::ExprBody(expr)
        } else {
            self.skip_newlines();
            FuncBody::Block(self.parse_block()?)
        };

        let span = self.span_from(start);
        Ok(Member::Func {
            visibility: Visibility::Public,
            is_static: false,
            is_override: false,
            is_abstract: false,
            is_open: false,
            is_operator: true,
            is_async: false,
            annotations: Vec::new(),
            name: op_name,
            name_span: op_name_span,
            type_params: Vec::new(),
            where_clauses: Vec::new(),
            params,
            return_ty,
            body,
            span,
        })
    }
}

/// The lifecycle block a keyword token opens, if it opens one.
pub open spec fn spec_lifecycle_kind(k: TokenKind) -> Option<LifecycleKind> {
    match k {
        TokenKind::Awake => Some(LifecycleKind::Awake),
        TokenKind::Start => Some(LifecycleKind::Start),
        TokenKind::Update => Some(LifecycleKind::Update),
        TokenKind::FixedUpdate => Some(LifecycleKind::FixedUpdate),
        TokenKind::LateUpdate => Some(LifecycleKind::LateUpdate),
        TokenKind::OnEnable => Some(LifecycleKind::OnEnable),
        TokenKind::OnDisable => Some(LifecycleKind::OnDisable),
        TokenKind::OnDestroy => Some(LifecycleKind::OnDestroy),
        TokenKind::OnTriggerEnter => Some(LifecycleKind::OnTriggerEnter),
        TokenKind::OnTriggerExit => Some(LifecycleKind::OnTriggerExit),
        TokenKind::OnTriggerStay => Some(LifecycleKind::OnTriggerStay),
        TokenKind::OnCollisionEnter => Some(LifecycleKind::OnCollisionEnter),
        TokenKind::OnCollisionExit => Some(LifecycleKind::OnCollisionExit),
        TokenKind::OnCollisionStay => Some(LifecycleKind::OnCollisionStay),
        _ => None,
    }
}

} // verus!
