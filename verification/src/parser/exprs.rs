//! Expressions, by precedence climbing: elvis, `||`, `&&`, equality, comparison and casts,
//! ranges, additive, multiplicative, unary, postfix chains and primaries.
use vstd::prelude::*;
use crate::token::{Span, Token, TokenKind, spec_keyword_text};
use crate::ast::{
    Expr, BinOp, UnaryOp, Block, Stmt, Arg, ArgMod, TypeRef, LambdaParam, LambdaBody, StringPart,
    spec_expr_span,
};
use crate::text::{str_eq, owned};
use super::{Parser, ParseError, spec_skip_newlines, spec_kind_after_newlines, lemma_skip_newlines};
use super::stmts::{spec_simple_head_at, spec_simple_head_end, spec_single_catch_at};

verus! {

broadcast use crate::token::lemma_kind_tag_inverse;

/// The expression that a single literal token stands for: a number, duration or string literal, `true`, `false`,
/// `null` or `this`.
pub open spec fn spec_atom(k: TokenKind, span: Span) -> Option<Expr> {
    match k {
        TokenKind::IntLiteral(n) => Some(Expr::IntLit(n, span)),
        TokenKind::FloatLiteral(n) => Some(Expr::FloatLit(n, span)),
        TokenKind::DurationLiteral(n) => Some(Expr::DurationLit(n, span)),
        TokenKind::StringLiteral(s) => Some(Expr::StringLit(s, span)),
        TokenKind::BoolTrue => Some(Expr::BoolLit(true, span)),
        TokenKind::BoolFalse => Some(Expr::BoolLit(false, span)),
        TokenKind::Null => Some(Expr::Null(span)),
        TokenKind::This => Some(Expr::This(span)),
        _ => None,
    }
}

/// A keyword that reads as a name in expression position (`start`, `update`, `pool`, ..).
pub open spec fn spec_keyword_as_name(k: TokenKind) -> bool {
    ||| k is Start || k is Stop || k is StopAll || k is Awake || k is Update || k is FixedUpdate
    ||| k is LateUpdate || k is OnEnable || k is OnDisable || k is OnDestroy
    ||| k is OnTriggerEnter || k is OnTriggerExit || k is OnTriggerStay
    ||| k is OnCollisionEnter || k is OnCollisionExit || k is OnCollisionStay
    ||| k is Wait || k is NextFrame || k is FixedFrame || k is Listen || k is Unlisten
    ||| k is Manual || k is Pool || k is Singleton || k is Serialize || k is Optional
}

/// The primary expression of the one token at `p`: a literal, `this`, `null`, a name (an
/// identifier other than `nameof(` or `stackalloc[`, or a keyword read as a name).
pub open spec fn spec_primary_single(tokens: Seq<Token>, p: int) -> Option<Expr> {
    if 0 <= p && p + 1 < tokens.len() {
        let k = tokens[p].kind;
        let span = tokens[p].span;
        let next = tokens[p + 1].kind;
        match k {
            TokenKind::IntLiteral(n) => Some(Expr::IntLit(n, span)),
            TokenKind::FloatLiteral(n) => Some(Expr::FloatLit(n, span)),
            TokenKind::DurationLiteral(n) => Some(Expr::DurationLit(n, span)),
            TokenKind::BoolTrue => Some(Expr::BoolLit(true, span)),
            TokenKind::BoolFalse => Some(Expr::BoolLit(false, span)),
            TokenKind::Null => Some(Expr::Null(span)),
            TokenKind::This => Some(Expr::This(span)),
            TokenKind::StringLiteral(s) => Some(Expr::StringLit(s, span)),
            TokenKind::Identifier(name) => if (name@ == "nameof"@ && next is LParen) || (name@ == "stackalloc"@ && next is LBracket) {
                None
            } else {
                Some(Expr::Ident(name, span))
            },
            _ => None,
        }
    } else {
        None
    }
}

/// The name that a keyword read as a name at `p` gives: `require`, `child`, `parent`, or the
/// keyword's own spelling.
pub open spec fn spec_keyword_name_at(tokens: Seq<Token>, p: int) -> Option<Seq<char>> {
    if 0 <= p < tokens.len() {
        let k = tokens[p].kind;
        if k is Require { Some("require"@) }
        else if k is Child { Some("child"@) }
        else if k is Parent { Some("parent"@) }
        else if spec_keyword_as_name(k) { Some(spec_keyword_text(k)->0) }
        else { None }
    } else {
        None
    }
}

/// At `k` stands a plain name that does not read as type arguments: no `.`, `<`, `?`, `,`,
/// `>` or newline follows it. So a `<` before it is a comparison, not the start of a generic
/// call.
pub open spec fn spec_plain_operand_at(tokens: Seq<Token>, k: int) -> bool {
    &&& 0 <= k && k + 1 < tokens.len() && tokens[k].kind is Identifier
    &&& !(tokens[k + 1].kind is Dot || tokens[k + 1].kind is Lt || tokens[k + 1].kind is Question
        || tokens[k + 1].kind is Comma || tokens[k + 1].kind is Gt || tokens[k + 1].kind is Newline)
}

/// Call arguments from `k` on that are all literal atoms: `a, b, ..` (a trailing `,` allowed)
/// up to `)` on the same line. Their expressions and the index of the `)`; `None` where the
/// arguments are not of that shape.
pub open spec fn spec_literal_args(tokens: Seq<Token>, k: int) -> Option<(Seq<Expr>, int)>
    decreases tokens.len() - k,
{
    if k < 0 || k + 1 >= tokens.len() {
        None
    } else if tokens[k].kind is RParen {
        Some((Seq::empty(), k))
    } else {
        match spec_atom_at(tokens, k) {
            Some(e) => if tokens[k + 1].kind is RParen {
                Some((seq![e], k + 1))
            } else if tokens[k + 1].kind is Comma {
                match spec_literal_args(tokens, k + 2) {
                    Some((rest, end)) => Some((seq![e] + rest, end)),
                    None => None,
                }
            } else {
                None
            },
            None => None,
        }
    }
}

/// Literal arguments end at a `)` at or after where they start.
pub proof fn lemma_literal_args_end(tokens: Seq<Token>, k: int)
    requires
        spec_literal_args(tokens, k) is Some,
    ensures
        k <= spec_found_args_end(spec_literal_args(tokens, k)) < tokens.len(),
        tokens[spec_found_args_end(spec_literal_args(tokens, k))].kind is RParen,
    decreases tokens.len() - k,
{
    if !(tokens[k].kind is RParen) && tokens[k + 1].kind is Comma {
        lemma_literal_args_end(tokens, k + 2);
    }
}

/// The argument expressions that literal arguments give (empty where there are none).
pub open spec fn spec_found_args(o: Option<(Seq<Expr>, int)>) -> Seq<Expr> {
    match o {
        Some((es, _end)) => es,
        None => Seq::empty(),
    }
}

/// The index of the `)` that closes literal arguments (`-1` where they are not well formed).
pub open spec fn spec_found_args_end(o: Option<(Seq<Expr>, int)>) -> int {
    match o {
        Some((_es, end)) => end,
        None => -1,
    }
}

/// The arguments are plain and unnamed, and their values are `es`.
pub open spec fn spec_plain_args(args: Seq<Arg>, es: Seq<Expr>) -> bool {
    &&& args.len() == es.len()
    &&& forall|i: int| 0 <= i < args.len() ==> (#[trigger] args[i]).name is None && args[i].call_modifier == ArgMod::Plain
        && args[i].value == es[i]
}

/// At `p` stands a free call with literal arguments, `name(a, b, ..)`, after which postfix
/// reading stops (no trailing lambda, member access, call or index follows).
pub open spec fn spec_literal_call_at(tokens: Seq<Token>, p: int) -> bool {
    let la = spec_literal_args(tokens, spec_skip_newlines(tokens, p + 2));
    let e = spec_found_args_end(la);
    &&& 0 <= p && p + 1 < tokens.len() && tokens[p].kind is Identifier && tokens[p + 1].kind is LParen
    &&& spec_primary_single(tokens, p) is Some
    &&& la is Some
    &&& 0 <= e && e + 1 < tokens.len() && !(tokens[e + 1].kind is LBrace)
    &&& spec_member_chain(tokens, e + 1) == Some((Seq::<(bool, Seq<char>)>::empty(), e + 1))
}

/// `e` is a free call of `name` with no type arguments and the plain arguments `es`.
pub open spec fn spec_free_call(e: Expr, name: Seq<char>, es: Seq<Expr>) -> bool {
    e matches Expr::Call { receiver: rc, name: n, type_args: ta, args: a, .. }
        && rc is None && n@ == name && ta@.len() == 0 && spec_plain_args(a@, es)
}

/// Postfix reading stops at token `k`: no member access, call, index, `!!`, `?[` or
/// `with {` starts there.
pub open spec fn spec_stops_postfix(tokens: Seq<Token>, k: int) -> bool {
    let kind = tokens[k].kind;
    &&& !(kind is Dot || kind is QuestionDot || kind is BangBang || kind is LBracket || kind is LParen || kind is Lt)
    &&& !(kind is Question && k + 1 < tokens.len() && tokens[k + 1].kind is LBracket)
    &&& !(kind is Identifier && kind->Identifier_0@ == "with"@ && k + 1 < tokens.len() && tokens[k + 1].kind is LBrace)
}

/// A chain of plain member accesses from `k` on: `.name` or `?.name` steps (a step may start
/// on a later line), each name followed by no call, type arguments or trailing lambda; then a
/// token at which postfix reading stops. The steps (`true` for `?.`) and the index of that
/// token; `None` where the tokens are not of that shape.
pub open spec fn spec_member_chain(tokens: Seq<Token>, k: int) -> Option<(Seq<(bool, Seq<char>)>, int)>
    decreases tokens.len() - k,
{
    if k < 0 || k >= tokens.len() {
        None
    } else {
        let l = spec_skip_newlines(tokens, k);
        let k2 = if tokens[k].kind is Newline && k <= l < tokens.len() && (tokens[l].kind is Dot || tokens[l].kind is QuestionDot) { l } else { k };
        if 0 <= k2 < tokens.len() && (tokens[k2].kind is Dot || tokens[k2].kind is QuestionDot) {
            let q = spec_skip_newlines(tokens, k2 + 1);
            if k2 < q && q + 1 < tokens.len() && tokens[q].kind is Identifier
                && !(tokens[q + 1].kind is LParen || tokens[q + 1].kind is Lt || tokens[q + 1].kind is LBrace) {
                match spec_member_chain(tokens, q + 1) {
                    Some((rest, end)) => Some((seq![(tokens[k2].kind is QuestionDot, tokens[q].kind->Identifier_0@)] + rest, end)),
                    None => None,
                }
            } else {
                None
            }
        } else if spec_stops_postfix(tokens, k2) {
            Some((Seq::empty(), k2))
        } else {
            None
        }
    }
}

/// `e` is `base` with the member-access `steps` applied in order (`?.` steps as safe calls).
pub open spec fn spec_member_chain_shape(e: Expr, base: Expr, steps: Seq<(bool, Seq<char>)>) -> bool
    decreases steps.len(),
{
    if steps.len() == 0 {
        e == base
    } else {
        let (safe, name) = steps.last();
        if safe {
            e matches Expr::SafeCall { receiver, name: n, .. } && n@ == name
                && spec_member_chain_shape(*receiver, base, steps.drop_last())
        } else {
            e matches Expr::MemberAccess { receiver, name: n, .. } && n@ == name
                && spec_member_chain_shape(*receiver, base, steps.drop_last())
        }
    }
}

/// The binary expression `l op r`, spanning from `l` to `r`.
pub open spec fn spec_bin(l: Expr, op: BinOp, r: Expr) -> Expr {
    Expr::Binary { left: Box::new(l), op, right: Box::new(r),
        span: Span { start: spec_expr_span(l).start, end: spec_expr_span(r).end } }
}

/// An operand of arithmetic at `k`: a one-token primary (not `await`) after which postfix
/// reading stops at once.
pub open spec fn spec_operand_at(tokens: Seq<Token>, k: int) -> Option<Expr> {
    match spec_primary_single(tokens, k) {
        Some(o) => if !(tokens[k].kind is Identifier && tokens[k].kind->Identifier_0@ == "await"@)
            && spec_member_chain(tokens, k + 1) == Some((Seq::<(bool, Seq<char>)>::empty(), k + 1)) {
            Some(o)
        } else {
            None
        },
        None => None,
    }
}

/// The multiplicative operator of a token.
pub open spec fn spec_mul_op(k: TokenKind) -> Option<BinOp> {
    if k is Star { Some(BinOp::Mul) } else if k is Slash { Some(BinOp::Div) } else if k is Percent { Some(BinOp::Mod) } else { None }
}

/// The additive operator of a token.
pub open spec fn spec_add_op(k: TokenKind) -> Option<BinOp> {
    if k is Plus { Some(BinOp::Add) } else if k is Minus { Some(BinOp::Sub) } else { None }
}

/// `acc` continued from `j` by `* o`, `/ o`, `% o` steps (each operand may start on a later
/// line), left-associative: the expression and the index after it.
pub open spec fn spec_mul_from(tokens: Seq<Token>, j: int, acc: Expr) -> Option<(Expr, int)>
    decreases tokens.len() - j,
{
    if 0 <= j < tokens.len() && spec_mul_op(tokens[j].kind) is Some {
        let k = spec_skip_newlines(tokens, j + 1);
        if j < k < tokens.len() {
            match spec_operand_at(tokens, k) {
                Some(o) => spec_mul_from(tokens, k + 1, spec_bin(acc, spec_mul_op(tokens[j].kind)->0, o)),
                None => None,
            }
        } else {
            None
        }
    } else {
        Some((acc, j))
    }
}

/// A product of operands at `k`: the expression and the index after it.
pub open spec fn spec_mul_at(tokens: Seq<Token>, k: int) -> Option<(Expr, int)> {
    match spec_operand_at(tokens, k) {
        Some(o) => spec_mul_from(tokens, k + 1, o),
        None => None,
    }
}

/// `acc` continued from `j` by `+ m`, `- m` steps over products, left-associative.
pub open spec fn spec_add_from(tokens: Seq<Token>, j: int, acc: Expr) -> Option<(Expr, int)>
    decreases tokens.len() - j,
{
    if 0 <= j < tokens.len() && spec_add_op(tokens[j].kind) is Some {
        let k = spec_skip_newlines(tokens, j + 1);
        if j < k < tokens.len() {
            match spec_mul_at(tokens, k) {
                Some((m, j2)) => if j < j2 <= tokens.len() {
                    spec_add_from(tokens, j2, spec_bin(acc, spec_add_op(tokens[j].kind)->0, m))
                } else {
                    None
                },
                None => None,
            }
        } else {
            None
        }
    } else {
        Some((acc, j))
    }
}

/// A sum of products at `k`: the expression and the index after it.
pub open spec fn spec_add_at(tokens: Seq<Token>, k: int) -> Option<(Expr, int)> {
    match spec_mul_at(tokens, k) {
        Some((m, j)) => spec_add_from(tokens, j, m),
        None => None,
    }
}

/// An expression ends at `j`: `)`, `,`, `{`, the end, or the end of a line that the next
/// line does not continue with `.`/`?.`.
pub open spec fn spec_ends_operand(tokens: Seq<Token>, j: int) -> bool {
    0 <= j < tokens.len() && (spec_closes_operand(tokens[j].kind)
        || (tokens[j].kind is Newline && !(spec_kind_after_newlines(tokens, j) is Dot)
            && !(spec_kind_after_newlines(tokens, j) is QuestionDot)))
}

/// An arithmetic expression at `p` over one-token operands with `*`, `/`, `%` binding tighter
/// than `+`, `-`, all left-associative, that ends there: the expression and where it ends.
pub open spec fn spec_arith_at(tokens: Seq<Token>, p: int) -> Option<(Expr, int)> {
    match spec_add_at(tokens, p) {
        Some((e, j)) => if spec_ends_operand(tokens, j) { Some((e, j)) } else { None },
        None => None,
    }
}

/// The expression that an arithmetic reading gives (`None` where there is none).
pub open spec fn spec_arith_expr(o: Option<(Expr, int)>) -> Option<Expr> {
    match o {
        Some((e, _j)) => Some(e),
        None => None,
    }
}

/// Where an arithmetic reading ends (`-1` where there is none).
pub open spec fn spec_arith_end(o: Option<(Expr, int)>) -> int {
    match o {
        Some((_e, j)) => j,
        None => -1,
    }
}

/// A token that no operator or suffix continues an expression with.
pub open spec fn spec_closes_operand(k: TokenKind) -> bool {
    k is RParen || k is Comma || k is Eof || k is LBrace
}

/// The expression at `p` when it is a lone literal token that `)`, `,`, `{` or the end
/// follows, or the end of its line where the next line does not continue it with `.`/`?.`.
pub open spec fn spec_atom_at(tokens: Seq<Token>, p: int) -> Option<Expr> {
    if 0 <= p && p + 1 < tokens.len() && (spec_closes_operand(tokens[p + 1].kind)
        || (tokens[p + 1].kind is Newline && !(spec_kind_after_newlines(tokens, p + 1) is Dot)
            && !(spec_kind_after_newlines(tokens, p + 1) is QuestionDot))) {
        spec_atom(tokens[p].kind, tokens[p].span)
    } else {
        None
    }
}

/// A token that can open an expression after `name:` in a named argument or tuple element.
pub open spec fn spec_starts_expression(k: TokenKind) -> bool {
    ||| k is Identifier
    ||| k is IntLiteral
    ||| k is FloatLiteral
    ||| k is StringLiteral
    ||| k is StringStart
    ||| k is BoolTrue
    ||| k is BoolFalse
    ||| k is Null
    ||| k is This
    ||| k is LParen
    ||| k is LBracket
    ||| k is Minus
    ||| k is Bang
}

/// Whether `k` can open an expression after `name:` (see `spec_starts_expression`).
fn starts_expression(k: &TokenKind) -> (r: bool)
    ensures
        r == spec_starts_expression(*k),
{
    match k {
        TokenKind::Identifier(_) | TokenKind::IntLiteral(_) | TokenKind::FloatLiteral(_)
        | TokenKind::StringLiteral(_) | TokenKind::StringStart(_) | TokenKind::BoolTrue
        | TokenKind::BoolFalse | TokenKind::Null | TokenKind::This | TokenKind::LParen
        | TokenKind::LBracket | TokenKind::Minus | TokenKind::Bang => true,
        _ => false,
    }
}

impl Parser {
    /// An expression.
    pub(crate) fn parse_expr(&mut self) -> (r: Result<Expr, ParseError>)
        requires
            old(self).wf(),
        ensures
            final(self).evolves(*old(self)),
            r is Ok ==> final(self).pos > old(self).pos,
            spec_atom_at(old(self).tokens@, old(self).pos as int) matches Some(e) ==> r == Ok::<Expr, ParseError>(e)
                && final(self).pos == old(self).pos + 1 && final(self).errors@ == old(self).errors@,
            spec_arith_at(old(self).tokens@, old(self).pos as int) matches Some((e, j)) ==> r == Ok::<Expr, ParseError>(e)
                && final(self).pos == j && final(self).errors@ == old(self).errors@,
        decreases old(self).tokens@.len() - old(self).pos, 14int,
    {
        self.parse_elvis()
    }

    /// `if cond { .. } else (if .. | { .. })` in expression position; the `else` is required.
    fn parse_if_expr(&mut self) -> (r: Result<Expr, ParseError>)
        requires
            old(self).wf(),
            !(old(self).cur() is Eof),
        ensures
            final(self).evolves(*old(self)),
            r is Ok ==> final(self).pos > old(self).pos,
            ({
                let t = old(self).tokens@;
                let p = old(self).pos as int;
                let e = spec_simple_head_end(t, p);
                let q = spec_skip_newlines(t, e + 1);
                &&& spec_simple_head_at(t, p) && !(t[e].kind is Else) ==> r is Err
                &&& spec_simple_head_at(t, p) && t[e].kind is Else && t[q].kind is LBrace
                    && spec_kind_after_newlines(t, q + 1) is RBrace ==> (
                    r matches Ok(Expr::IfExpr { cond: c, then_block: b1, else_block: b2, .. })
                    && Some(*c) == spec_atom_at(t, p + 1) && b1.stmts@.len() == 0 && b2.stmts@.len() == 0
                    && final(self).pos == spec_skip_newlines(t, q + 1) + 1 && final(self).errors@ == old(self).errors@)
            }),
        decreases old(self).tokens@.len() - old(self).pos, 1int,
    {
        let start = self.peek_span();
        self.advance();
        let cond = self.parse_condition_expr()?;
        self.skip_newlines();
        let then_block = self.parse_block()?;

        if !self.eat(&TokenKind::Else) {
            return Err(self.error(owned("Expected else branch in if expression")));
        }

        self.skip_newlines();
        let else_block = if self.check(&TokenKind::If) {
            let nested_if = self.parse_if_expr()?;
            self.expr_to_block(nested_if)
        } else {
            self.parse_block()?
        };

        let span = self.span_from(start);
        Ok(Expr::IfExpr { cond: Box::new(cond), then_block, else_block, span })
    }

    /// `when [subject] { branches }` in expression position.
    fn parse_when_expr(&mut self) -> (r: Result<Expr, ParseError>)
        requires
            old(self).wf(),
            !(old(self).cur() is Eof),
        ensures
            final(self).evolves(*old(self)),
            r is Ok ==> final(self).pos > old(self).pos,
            ({
                let t = old(self).tokens@;
                let p = old(self).pos as int;
                &&& spec_simple_head_at(t, p) ==> (
                    r matches Ok(Expr::WhenExpr { subject: sj, branches: bs, .. }) && sj matches Some(b) && Some(*b) == spec_atom_at(t, p + 1) && bs@.len() == 0
                    && final(self).pos == spec_simple_head_end(t, p) && final(self).errors@ == old(self).errors@)
                &&& t[p + 1].kind is LBrace && spec_kind_after_newlines(t, p + 2) is RBrace ==> (
                    r matches Ok(Expr::WhenExpr { subject: sj, branches: bs, .. }) && sj is None && bs@.len() == 0
                    && final(self).pos == spec_skip_newlines(t, p + 2) + 1 && final(self).errors@ == old(self).errors@)
            }),
        decreases old(self).tokens@.len() - old(self).pos, 1int,
    {
        let start = self.peek_span();
        self.advance();

        let subject = if !self.check(&TokenKind::LBrace) && !self.check(&TokenKind::Newline) {
            Some(Box::new(self.parse_condition_expr()?))
        } else {
            None
        };

        let branches = self.parse_when_body()?;
        let span = self.span_from(start);
        Ok(Expr::WhenExpr { subject, branches, span })
    }

    /// A block holding one expression statement, with the expression's span.
    fn expr_to_block(&self, expr: Expr) -> (r: Block)
        ensures
            r.stmts@.len() == 1,
            r.span == spec_expr_span(expr),
            r.stmts@[0] == (Stmt::Expr { expr, span: spec_expr_span(expr) }),
    {
        let span = expr.span();
        Block { stmts: vec![Stmt::Expr { expr, span }], span }
    }

    /// `a ?: b ?: ..` (lowest precedence); a newline may follow the operator.
    fn parse_elvis(&mut self) -> (r: Result<Expr, ParseError>)
        requires
            old(self).wf(),
        ensures
            final(self).evolves(*old(self)),
            r is Ok ==> final(self).pos > old(self).pos,
            spec_atom_at(old(self).tokens@, old(self).pos as int) matches Some(e) ==> r == Ok::<Expr, ParseError>(e)
                && final(self).pos == old(self).pos + 1 && final(self).errors@ == old(self).errors@,
            spec_arith_at(old(self).tokens@, old(self).pos as int) matches Some((e, j)) ==> r == Ok::<Expr, ParseError>(e)
                && final(self).pos == j && final(self).errors@ == old(self).errors@,
        decreases old(self).tokens@.len() - old(self).pos, 13int,
    {
        let mut left = self.parse_or()?;
        while self.check(&TokenKind::Elvis)
            invariant
                self.evolves(*old(self)),
                self.pos > old(self).pos,
                spec_atom_at(old(self).tokens@, old(self).pos as int) matches Some(e) ==> left == e
                    && self.pos == old(self).pos + 1 && self.errors@ == old(self).errors@,
                spec_arith_at(old(self).tokens@, old(self).pos as int) matches Some((e, j)) ==> left == e
                    && self.pos == j && self.errors@ == old(self).errors@,
            decreases self.tokens@.len() - self.pos,
        {
            let start = left.span();
            self.advance();
            self.skip_newlines();
            let right = self.parse_or()?;
            let span = Span::join(start, right.span());
            left = Expr::Elvis { left: Box::new(left), right: Box::new(right), span };
        }
        Ok(left)
    }

    /// `a || b || ..`
    fn parse_or(&mut self) -> (r: Result<Expr, ParseError>)
        requires
            old(self).wf(),
        ensures
            final(self).evolves(*old(self)),
            r is Ok ==> final(self).pos > old(self).pos,
            spec_atom_at(old(self).tokens@, old(self).pos as int) matches Some(e) ==> r == Ok::<Expr, ParseError>(e)
                && final(self).pos == old(self).pos + 1 && final(self).errors@ == old(self).errors@,
            spec_arith_at(old(self).tokens@, old(self).pos as int) matches Some((e, j)) ==> r == Ok::<Expr, ParseError>(e)
                && final(self).pos == j && final(self).errors@ == old(self).errors@,
        decreases old(self).tokens@.len() - old(self).pos, 12int,
    {
        let mut left = self.parse_and()?;
        while self.check(&TokenKind::PipePipe)
            invariant
                self.evolves(*old(self)),
                self.pos > old(self).pos,
                spec_atom_at(old(self).tokens@, old(self).pos as int) matches Some(e) ==> left == e
                    && self.pos == old(self).pos + 1 && self.errors@ == old(self).errors@,
                spec_arith_at(old(self).tokens@, old(self).pos as int) matches Some((e, j)) ==> left == e
                    && self.pos == j && self.errors@ == old(self).errors@,
            decreases self.tokens@.len() - self.pos,
        {
            let start = left.span();
            self.advance();
            self.skip_newlines();
            let right = self.parse_and()?;
            let span = Span::join(start, right.span());
            left = Expr::Binary { left: Box::new(left), op: BinOp::Or, right: Box::new(right), span };
        }
        Ok(left)
    }

    /// `a && b && ..`
    fn parse_and(&mut self) -> (r: Result<Expr, ParseError>)
        requires
            old(self).wf(),
        ensures
            final(self).evolves(*old(self)),
            r is Ok ==> final(self).pos > old(self).pos,
            spec_atom_at(old(self).tokens@, old(self).pos as int) matches Some(e) ==> r == Ok::<Expr, ParseError>(e)
                && final(self).pos == old(self).pos + 1 && final(self).errors@ == old(self).errors@,
            spec_arith_at(old(self).tokens@, old(self).pos as int) matches Some((e, j)) ==> r == Ok::<Expr, ParseError>(e)
                && final(self).pos == j && final(self).errors@ == old(self).errors@,
        decreases old(self).tokens@.len() - old(self).pos, 11int,
    {
        let mut left = self.parse_equality()?;
        while self.check(&TokenKind::AmpAmp)
            invariant
                self.evolves(*old(self)),
                self.pos > old(self).pos,
                spec_atom_at(old(self).tokens@, old(self).pos as int) matches Some(e) ==> left == e
                    && self.pos == old(self).pos + 1 && self.errors@ == old(self).errors@,
                spec_arith_at(old(self).tokens@, old(self).pos as int) matches Some((e, j)) ==> left == e
                    && self.pos == j && self.errors@ == old(self).errors@,
            decreases self.tokens@.len() - self.pos,
        {
            let start = left.span();
            self.advance();
            self.skip_newlines();
            let right = self.parse_equality()?;
            let span = Span::join(start, right.span());
            left = Expr::Binary { left: Box::new(left), op: BinOp::And, right: Box::new(right), span };
        }
        Ok(left)
    }

    /// `a == b`, `a != b`, left-associative.
    fn parse_equality(&mut self) -> (r: Result<Expr, ParseError>)
        requires
            old(self).wf(),
        ensures
            final(self).evolves(*old(self)),
            r is Ok ==> final(self).pos > old(self).pos,
            spec_atom_at(old(self).tokens@, old(self).pos as int) matches Some(e) ==> r == Ok::<Expr, ParseError>(e)
                && final(self).pos == old(self).pos + 1 && final(self).errors@ == old(self).errors@,
            spec_arith_at(old(self).tokens@, old(self).pos as int) matches Some((e, j)) ==> r == Ok::<Expr, ParseError>(e)
                && final(self).pos == j && final(self).errors@ == old(self).errors@,
        decreases old(self).tokens@.len() - old(self).pos, 10int,
    {
        let mut left = self.parse_comparison()?;
        loop
            invariant
                self.evolves(*old(self)),
                self.pos > old(self).pos,
                spec_atom_at(old(self).tokens@, old(self).pos as int) matches Some(e) ==> left == e
                    && self.pos == old(self).pos + 1 && self.errors@ == old(self).errors@,
                spec_arith_at(old(self).tokens@, old(self).pos as int) matches Some((e, j)) ==> left == e
                    && self.pos == j && self.errors@ == old(self).errors@,
            ensures
                self.evolves(*old(self)),
                self.pos > old(self).pos,
                spec_atom_at(old(self).tokens@, old(self).pos as int) matches Some(e) ==> left == e
                    && self.pos == old(self).pos + 1 && self.errors@ == old(self).errors@,
                spec_arith_at(old(self).tokens@, old(self).pos as int) matches Some((e, j)) ==> left == e
                    && self.pos == j && self.errors@ == old(self).errors@,
            decreases self.tokens@.len() - self.pos,
        {
            let op = match self.peek() {
                TokenKind::EqEq => BinOp::Eq,
                TokenKind::NotEq => BinOp::NotEq,
                _ => {
                    break;
                },
            };
            let start = left.span();
            self.advance();
            self.skip_newlines();
            let right = self.parse_comparison()?;
            let span = Span::join(start, right.span());
            left = Expr::Binary { left: Box::new(left), op, right: Box::new(right), span };
        }
        Ok(left)
    }

    /// `<`, `>`, `<=`, `>=`, `in`, and the type operators `is T`, `as T`, `as! T`.
    fn parse_comparison(&mut self) -> (r: Result<Expr, ParseError>)
        requires
            old(self).wf(),
        ensures
            final(self).evolves(*old(self)),
            r is Ok ==> final(self).pos > old(self).pos,
            spec_atom_at(old(self).tokens@, old(self).pos as int) matches Some(e) ==> r == Ok::<Expr, ParseError>(e)
                && final(self).pos == old(self).pos + 1 && final(self).errors@ == old(self).errors@,
            spec_arith_at(old(self).tokens@, old(self).pos as int) matches Some((e, j)) ==> r == Ok::<Expr, ParseError>(e)
                && final(self).pos == j && final(self).errors@ == old(self).errors@,
        decreases old(self).tokens@.len() - old(self).pos, 9int,
    {
        let mut left = self.parse_range()?;
        loop
            invariant
                self.evolves(*old(self)),
                self.pos > old(self).pos,
                spec_atom_at(old(self).tokens@, old(self).pos as int) matches Some(e) ==> left == e
                    && self.pos == old(self).pos + 1 && self.errors@ == old(self).errors@,
                spec_arith_at(old(self).tokens@, old(self).pos as int) matches Some((e, j)) ==> left == e
                    && self.pos == j && self.errors@ == old(self).errors@,
            ensures
                self.evolves(*old(self)),
                self.pos > old(self).pos,
                spec_atom_at(old(self).tokens@, old(self).pos as int) matches Some(e) ==> left == e
                    && self.pos == old(self).pos + 1 && self.errors@ == old(self).errors@,
                spec_arith_at(old(self).tokens@, old(self).pos as int) matches Some((e, j)) ==> left == e
                    && self.pos == j && self.errors@ == old(self).errors@,
            decreases self.tokens@.len() - self.pos,
        {
            let op = match self.peek_kind() {
                TokenKind::Lt => BinOp::Lt,
                TokenKind::Gt => BinOp::Gt,
                TokenKind::LtEq => BinOp::LtEq,
                TokenKind::GtEq => BinOp::GtEq,
                TokenKind::Is => {
                    let start = left.span();
                    self.advance();
                    self.skip_newlines();
                    let ty = self.parse_type()?;
                    let span = self.span_from(start);
                    left = Expr::Is { expr: Box::new(left), ty, span };
                    continue;
                },
                TokenKind::As => {
                    let start = left.span();
                    self.advance();
                    self.skip_newlines();
                    if self.check(&TokenKind::Bang) {
                        self.advance();
                        let ty = self.parse_type()?;
                        let span = self.span_from(start);
                        left = Expr::ForceCastExpr { expr: Box::new(left), target_type: ty, span };
                    } else {
                        let ty = self.parse_type()?;
                        let span = self.span_from(start);
                        left = Expr::SafeCastExpr { expr: Box::new(left), target_type: ty, span };
                    }
                    continue;
                },
                TokenKind::In => {
                    let start = left.span();
                    self.advance();
                    self.skip_newlines();
                    let right = self.parse_range()?;
                    let span = Span::join(start, right.span());
                    left = Expr::Binary { left: Box::new(left), op: BinOp::In, right: Box::new(right), span };
                    continue;
                },
                _ => {
                    break;
                },
            };
            let start = left.span();
            self.advance();
            self.skip_newlines();
            let right = self.parse_range()?;
            let span = Span::join(start, right.span());
            left = Expr::Binary { left: Box::new(left), op, right: Box::new(right), span };
        }
        Ok(left)
    }

    /// The optional upper bound and `step` of a range after its operator.
    fn parse_range_tail(&mut self) -> (r: Result<(Option<Box<Expr>>, Option<Box<Expr>>), ParseError>)
        requires
            old(self).wf(),
        ensures
            final(self).evolves(*old(self)),
            ({
                let missing = old(self).cur() is RBracket || old(self).cur() is RParen || old(self).cur() is RBrace
                    || old(self).cur() is Comma || old(self).cur() is Newline || old(self).cur() is Eof;
                &&& r matches Ok(t) ==> (t.0 is None <==> missing)
                &&& missing ==> (r matches Ok(t) && t.0 is None && t.1 is None && final(self).pos == old(self).pos
                    && final(self).errors@ == old(self).errors@)
            }),
        decreases old(self).tokens@.len() - old(self).pos, 8int,
    {
        let end = if self.range_upper_missing() {
            None
        } else {
            Some(Box::new(self.parse_additive()?))
        };
        let step = if self.eat(&TokenKind::Step) {
            Some(Box::new(self.parse_additive()?))
        } else {
            None
        };
        Ok((end, step))
    }

    /// `a..b`, `a until b`, `a downTo b`, each with an optional upper bound and `step`.
    pub(crate) fn parse_range(&mut self) -> (r: Result<Expr, ParseError>)
        requires
            old(self).wf(),
        ensures
            final(self).evolves(*old(self)),
            r is Ok ==> final(self).pos > old(self).pos,
            spec_atom_at(old(self).tokens@, old(self).pos as int) matches Some(e) ==> r == Ok::<Expr, ParseError>(e)
                && final(self).pos == old(self).pos + 1 && final(self).errors@ == old(self).errors@,
            spec_arith_at(old(self).tokens@, old(self).pos as int) matches Some((e, j)) ==> r == Ok::<Expr, ParseError>(e)
                && final(self).pos == j && final(self).errors@ == old(self).errors@,
        decreases old(self).tokens@.len() - old(self).pos, 8int,
    {
        let left = self.parse_additive()?;
        let (inclusive, descending) = match self.peek() {
            TokenKind::DotDot => (true, false),
            TokenKind::Until => (false, false),
            TokenKind::DownTo => (true, true),
            _ => {
                return Ok(left);
            },
        };
        let start = left.span();
        self.advance();
        let (end, step) = self.parse_range_tail()?;
        let span = self.span_from(start);
        Ok(Expr::Range { start: Some(Box::new(left)), end, inclusive, descending, step, span })
    }

    /// Whether the token under the cursor ends a range without an upper bound.
    fn range_upper_missing(&self) -> (r: bool)
        requires
            self.wf(),
        ensures
            r == (self.cur() is RBracket || self.cur() is RParen || self.cur() is RBrace
                || self.cur() is Comma || self.cur() is Newline || self.cur() is Eof),
    {
        matches!(self.peek(), TokenKind::RBracket | TokenKind::RParen | TokenKind::RBrace | TokenKind::Comma | TokenKind::Newline | TokenKind::Eof)
    }

    /// `a + b`, `a - b`, left-associative.
    pub(crate) fn parse_additive(&mut self) -> (r: Result<Expr, ParseError>)
        requires
            old(self).wf(),
        ensures
            final(self).evolves(*old(self)),
            r is Ok ==> final(self).pos > old(self).pos,
            spec_atom_at(old(self).tokens@, old(self).pos as int) matches Some(e) ==> r == Ok::<Expr, ParseError>(e)
                && final(self).pos == old(self).pos + 1 && final(self).errors@ == old(self).errors@,
            spec_add_at(old(self).tokens@, old(self).pos as int) matches Some((e, j)) ==> r == Ok::<Expr, ParseError>(e)
                && final(self).pos == j && final(self).errors@ == old(self).errors@,
        decreases old(self).tokens@.len() - old(self).pos, 7int,
    {
        let mut left = self.parse_multiplicative()?;
        let ghost t = old(self).tokens@;
        let ghost aa = spec_add_at(t, old(self).pos as int);
        loop
            invariant
                self.evolves(*old(self)),
                t == old(self).tokens@,
                aa == spec_add_at(t, old(self).pos as int),
                aa is Some ==> spec_add_from(t, self.pos as int, left) == aa && self.errors@ == old(self).errors@,
                self.pos > old(self).pos,
                spec_atom_at(old(self).tokens@, old(self).pos as int) matches Some(e) ==> left == e
                    && self.pos == old(self).pos + 1 && self.errors@ == old(self).errors@,
            ensures
                self.evolves(*old(self)),
                self.pos > old(self).pos,
                spec_atom_at(old(self).tokens@, old(self).pos as int) matches Some(e) ==> left == e
                    && self.pos == old(self).pos + 1 && self.errors@ == old(self).errors@,
                aa is Some ==> aa == Some((left, self.pos as int)) && self.errors@ == old(self).errors@,
            decreases self.tokens@.len() - self.pos,
        {
            let op = match self.peek() {
                TokenKind::Plus => BinOp::Add,
                TokenKind::Minus => BinOp::Sub,
                _ => {
                    break;
                },
            };
            let start = left.span();
            let ghost jj = self.pos as int;
            self.advance();
            proof { lemma_skip_newlines(t, jj + 1); }
            self.skip_newlines();
            let right = self.parse_multiplicative()?;
            let span = Span::join(start, right.span());
            left = Expr::Binary { left: Box::new(left), op, right: Box::new(right), span };
        }
        Ok(left)
    }

    /// `a * b`, `a / b`, `a % b`, left-associative.
    fn parse_multiplicative(&mut self) -> (r: Result<Expr, ParseError>)
        requires
            old(self).wf(),
        ensures
            final(self).evolves(*old(self)),
            r is Ok ==> final(self).pos > old(self).pos,
            spec_atom_at(old(self).tokens@, old(self).pos as int) matches Some(e) ==> r == Ok::<Expr, ParseError>(e)
                && final(self).pos == old(self).pos + 1 && final(self).errors@ == old(self).errors@,
            spec_mul_at(old(self).tokens@, old(self).pos as int) matches Some((e, j)) ==> r == Ok::<Expr, ParseError>(e)
                && final(self).pos == j && final(self).errors@ == old(self).errors@,
        decreases old(self).tokens@.len() - old(self).pos, 6int,
    {
        let mut left = self.parse_unary()?;
        let ghost t = old(self).tokens@;
        let ghost mm = spec_mul_at(t, old(self).pos as int);
        loop
            invariant
                self.evolves(*old(self)),
                t == old(self).tokens@,
                mm == spec_mul_at(t, old(self).pos as int),
                mm is Some ==> spec_mul_from(t, self.pos as int, left) == mm && self.errors@ == old(self).errors@,
                self.pos > old(self).pos,
                spec_atom_at(old(self).tokens@, old(self).pos as int) matches Some(e) ==> left == e
                    && self.pos == old(self).pos + 1 && self.errors@ == old(self).errors@,
            ensures
                self.evolves(*old(self)),
                self.pos > old(self).pos,
                spec_atom_at(old(self).tokens@, old(self).pos as int) matches Some(e) ==> left == e
                    && self.pos == old(self).pos + 1 && self.errors@ == old(self).errors@,
                mm is Some ==> mm == Some((left, self.pos as int)) && self.errors@ == old(self).errors@,
            decreases self.tokens@.len() - self.pos,
        {
            let op = match self.peek() {
                TokenKind::Star => BinOp::Mul,
                TokenKind::Slash => BinOp::Div,
                TokenKind::Percent => BinOp::Mod,
                _ => {
                    break;
                },
            };
            let start = left.span();
            let ghost jj = self.pos as int;
            self.advance();
            proof { lemma_skip_newlines(t, jj + 1); }
            self.skip_newlines();
            let right = self.parse_unary()?;
            let span = Span::join(start, right.span());
            left = Expr::Binary { left: Box::new(left), op, right: Box::new(right), span };
        }
        Ok(left)
    }

    /// `await e`, `!e`, `-e`, or a postfix expression.
    fn parse_unary(&mut self) -> (r: Result<Expr, ParseError>)
        requires
            old(self).wf(),
        ensures
            final(self).evolves(*old(self)),
            r is Ok ==> final(self).pos > old(self).pos,
            spec_atom_at(old(self).tokens@, old(self).pos as int) matches Some(e) ==> r == Ok::<Expr, ParseError>(e)
                && final(self).pos == old(self).pos + 1 && final(self).errors@ == old(self).errors@,
            spec_operand_at(old(self).tokens@, old(self).pos as int) matches Some(o) ==> r == Ok::<Expr, ParseError>(o)
                && final(self).pos == old(self).pos + 1 && final(self).errors@ == old(self).errors@,
        decreases old(self).tokens@.len() - old(self).pos, 5int,
    {
        if self.check_contextual("await") {
            let start = self.peek_span();
            self.advance();
            let operand = self.parse_unary()?;
            let span = Span::join(start, operand.span());
            return Ok(Expr::Await { expr: Box::new(operand), span });
        }
        match self.peek() {
            TokenKind::Bang => {
                let start = self.peek_span();
                self.advance();
                let operand = self.parse_unary()?;
                let span = Span::join(start, operand.span());
                Ok(Expr::Unary { op: UnaryOp::Not, operand: Box::new(operand), span })
            },
            TokenKind::Minus => {
                let start = self.peek_span();
                self.advance();
                let operand = self.parse_unary()?;
                let span = Span::join(start, operand.span());
                Ok(Expr::Unary { op: UnaryOp::Negate, operand: Box::new(operand), span })
            },
            _ => self.parse_postfix(),
        }
    }

    /// A trailing lambda `{ .. }` after a call, unless trailing lambdas are off here.
    fn parse_trailing_lambda(&mut self, args: &mut Vec<Arg>) -> (r: Result<(), ParseError>)
        requires
            old(self).wf(),
        ensures
            final(self).evolves(*old(self)),
            final(args)@.len() >= old(args)@.len(),
            !(old(self).cur() is LBrace) ==> (r is Ok && final(args)@ == old(args)@ && final(self).pos == old(self).pos
                && final(self).errors@ == old(self).errors@),
        decreases old(self).tokens@.len() - old(self).pos, 3int,
    {
        if !self.no_trailing_lambda && self.check(&TokenKind::LBrace) {
            let lambda = self.parse_brace_expr()?;
            args.push(Arg { name: None, call_modifier: ArgMod::Plain, value: lambda });
        }
        Ok(())
    }

    /// `.name`, `.name(args)`, `.name { lambda }` after `expr`, or with `?.` (when `safe`) the
    /// null-safe forms; a newline may follow the dot.
    fn parse_member_suffix(&mut self, expr: Expr, safe: bool) -> (r: Result<Expr, ParseError>)
        requires
            old(self).wf(),
            !(old(self).cur() is Eof),
        ensures
            final(self).evolves(*old(self)),
            final(self).pos > old(self).pos,
            ({
                let t = old(self).tokens@;
                let q = spec_skip_newlines(t, old(self).pos + 1);
                q + 1 < t.len() && t[q].kind is Identifier
                    && !(t[q + 1].kind is LParen || t[q + 1].kind is Lt || t[q + 1].kind is LBrace) ==> {
                    &&& final(self).pos == q + 1
                    &&& final(self).errors@ == old(self).errors@
                    &&& if safe {
                        r matches Ok(Expr::SafeCall { receiver, name, .. }) && *receiver == expr && name@ == t[q].kind->Identifier_0@
                    } else {
                        r matches Ok(Expr::MemberAccess { receiver, name, .. }) && *receiver == expr && name@ == t[q].kind->Identifier_0@
                    }
                }
            }),
        decreases old(self).tokens@.len() - old(self).pos, 1int,
    {
        self.advance();
        self.skip_newlines();
        let (name, name_span) = self.expect_ident()?;

        if self.check(&TokenKind::LParen) || self.check(&TokenKind::Lt) {
            let (type_args, mut args) = self.parse_call_args()?;
            self.parse_trailing_lambda(&mut args)?;
            let span = self.span_from(expr.span());
            if safe {
                Ok(Expr::SafeMethodCall { receiver: Box::new(expr), name, name_span, type_args, args, span })
            } else {
                Ok(Expr::Call { receiver: Some(Box::new(expr)), name, name_span, type_args, args, span })
            }
        } else if !self.no_trailing_lambda && self.check(&TokenKind::LBrace) {
            let lambda = self.parse_brace_expr()?;
            let arg = Arg { name: None, call_modifier: ArgMod::Plain, value: lambda };
            let span = self.span_from(expr.span());
            if safe {
                Ok(Expr::SafeMethodCall { receiver: Box::new(expr), name, name_span, type_args: Vec::new(), args: vec![arg], span })
            } else {
                Ok(Expr::Call { receiver: Some(Box::new(expr)), name, name_span, type_args: Vec::new(), args: vec![arg], span })
            }
        } else {
            let span = self.span_from(expr.span());
            if safe {
                Ok(Expr::SafeCall { receiver: Box::new(expr), name, name_span, span })
            } else {
                Ok(Expr::MemberAccess { receiver: Box::new(expr), name, name_span, span })
            }
        }
    }

    /// `with { field = value, .. }` after `expr`: a record update.
    fn parse_with_suffix(&mut self, expr: Expr) -> (r: Result<Expr, ParseError>)
        requires
            old(self).wf(),
            !(old(self).cur() is Eof),
        ensures
            final(self).evolves(*old(self)),
            final(self).pos > old(self).pos,
        decreases old(self).tokens@.len() - old(self).pos, 1int,
    {
        self.advance();
        self.advance();
        let mut updates: Vec<(String, Expr)> = Vec::new();
        self.skip_newlines();
        if !self.check(&TokenKind::RBrace) {
            loop
                invariant
                    self.evolves(*old(self)),
                    self.pos > old(self).pos,
                decreases self.tokens@.len() - self.pos,
            {
                self.skip_newlines();
                if self.check(&TokenKind::RBrace) {
                    break;
                }
                let (field_name, _s) = self.expect_ident()?;
                self.expect(&TokenKind::Eq)?;
                let value = self.parse_expr()?;
                updates.push((field_name, value));
                if !self.eat(&TokenKind::Comma) {
                    break;
                }
                self.skip_newlines();
            }
        }
        self.skip_newlines();
        self.expect(&TokenKind::RBrace)?;
        let span = self.span_from(expr.span());
        Ok(Expr::With { receiver: Box::new(expr), updates, span })
    }

    /// `[index]` after `expr`; the index may be a range without lower bound (`[..3]`,
    /// `[until n]`, `[downTo n]`, `[..]`).
    fn parse_index_suffix(&mut self, expr: Expr) -> (r: Result<Expr, ParseError>)
        requires
            old(self).wf(),
            !(old(self).cur() is Eof),
        ensures
            final(self).evolves(*old(self)),
            final(self).pos > old(self).pos,
        decreases old(self).tokens@.len() - old(self).pos, 1int,
    {
        self.advance();
        let open_range = match self.peek() {
            TokenKind::DotDot => Some((true, false)),
            TokenKind::Until => Some((false, false)),
            TokenKind::DownTo => Some((true, true)),
            _ => None,
        };
        let index = match open_range {
            Some((inclusive, descending)) => {
                let op_span = self.peek_span();
                self.advance();
                let end = if self.range_upper_missing() || matches!(self.peek(), TokenKind::RBracket) {
                    None
                } else {
                    Some(Box::new(self.parse_additive()?))
                };
                let step = if self.eat(&TokenKind::Step) {
                    Some(Box::new(self.parse_additive()?))
                } else {
                    None
                };
                let rspan = self.span_from(op_span);
                Expr::Range { start: None, end, inclusive, descending, step, span: rspan }
            },
            None => self.parse_expr()?,
        };
        self.expect(&TokenKind::RBracket)?;
        let span = self.span_from(expr.span());
        Ok(Expr::IndexAccess { receiver: Box::new(expr), index: Box::new(index), span })
    }

    /// A primary followed by `.name`, `.name(args)`, `?.name`, `?.name(args)`, `?[i]`, `[i]`,
    /// `!!`, `(args)`, `<T>(args)`, `with { .. }` and trailing lambdas. A newline followed by a
    /// `.`/`?.` continues the chain.
    fn parse_postfix(&mut self) -> (r: Result<Expr, ParseError>)
        requires
            old(self).wf(),
        ensures
            final(self).evolves(*old(self)),
            r is Ok ==> final(self).pos > old(self).pos,
            spec_atom_at(old(self).tokens@, old(self).pos as int) matches Some(e) ==> r == Ok::<Expr, ParseError>(e)
                && final(self).pos == old(self).pos + 1 && final(self).errors@ == old(self).errors@,
            match (spec_primary_single(old(self).tokens@, old(self).pos as int), spec_member_chain(old(self).tokens@, old(self).pos + 1)) {
                (Some(base), Some((steps, end))) => r matches Ok(e) && spec_member_chain_shape(e, base, steps)
                    && final(self).pos == end && final(self).errors@ == old(self).errors@,
                _ => true,
            },
            ({
                let t = old(self).tokens@;
                let p = old(self).pos as int;
                spec_primary_single(t, p) is Some && spec_primary_single(t, p)->0 is Ident
                    && p + 1 < t.len() && t[p + 1].kind is Lt && spec_plain_operand_at(t, p + 2)
                    ==> (r == Ok::<Expr, ParseError>(spec_primary_single(t, p)->0) && final(self).pos == p + 1
                    && final(self).errors@ == old(self).errors@)
            }),
            ({
                let t = old(self).tokens@;
                let p = old(self).pos as int;
                let la = spec_literal_args(t, spec_skip_newlines(t, p + 2));
                spec_literal_call_at(t, p) ==> (r matches Ok(e) && spec_free_call(e, t[p].kind->Identifier_0@, spec_found_args(la))
                    && final(self).pos == spec_found_args_end(la) + 1 && final(self).errors@ == old(self).errors@)
            }),
        decreases old(self).tokens@.len() - old(self).pos, 4int,
    {
        let mut expr = self.parse_primary()?;
        let ghost t = self.tokens@;
        let ghost ch = spec_primary_single(t, old(self).pos as int) is Some
            && spec_member_chain(t, old(self).pos + 1) is Some;
        let ghost base = spec_primary_single(t, old(self).pos as int)->0;
        let ghost chain = spec_member_chain(t, old(self).pos + 1)->0;
        let ghost full = chain.0;
        let ghost end = chain.1;
        let ghost mut done: Seq<(bool, Seq<char>)> = Seq::empty();
        proof {
            if ch {
                assert(full.skip(0) =~= full);
            }
        }

        loop
            invariant_except_break
                ch ==> ({
                    &&& spec_member_chain(t, self.pos as int) == Some((full.skip(done.len() as int), end))
                    &&& done.len() <= full.len()
                    &&& full.take(done.len() as int) == done
                    &&& spec_member_chain_shape(expr, base, done)
                    &&& self.errors@ == old(self).errors@
                }),
            invariant
                self.evolves(*old(self)),
                self.pos > old(self).pos,
                t == old(self).tokens@,
                ch == (spec_primary_single(t, old(self).pos as int) is Some && spec_member_chain(t, old(self).pos + 1) is Some),
                base == spec_primary_single(t, old(self).pos as int)->0,
                ch ==> spec_member_chain(t, old(self).pos + 1) == Some((full, end)),
                ({
                    let p = old(self).pos as int;
                    let la = spec_literal_args(t, spec_skip_newlines(t, p + 2));
                    spec_literal_call_at(t, p) ==> self.errors@ == old(self).errors@ && (
                        (self.pos == p + 1 && expr == spec_primary_single(t, p)->0)
                        || (self.pos == spec_found_args_end(la) + 1 && spec_free_call(expr, t[p].kind->Identifier_0@, spec_found_args(la))))
                }),
                ({
                    let p = old(self).pos as int;
                    spec_primary_single(t, p) is Some && spec_primary_single(t, p)->0 is Ident
                        && p + 1 < t.len() && t[p + 1].kind is Lt && spec_plain_operand_at(t, p + 2)
                }) ==> expr == spec_primary_single(t, old(self).pos as int)->0 && self.pos == old(self).pos + 1
                    && self.errors@ == old(self).errors@,
                spec_atom_at(old(self).tokens@, old(self).pos as int) matches Some(e) ==> expr == e
                    && self.pos == old(self).pos + 1 && self.errors@ == old(self).errors@,
            ensures
                self.evolves(*old(self)),
                self.pos > old(self).pos,
                spec_atom_at(old(self).tokens@, old(self).pos as int) matches Some(e) ==> expr == e
                    && self.pos == old(self).pos + 1 && self.errors@ == old(self).errors@,
                ch ==> spec_member_chain_shape(expr, base, full) && self.pos == end && self.errors@ == old(self).errors@,
                ({
                    let p = old(self).pos as int;
                    let la = spec_literal_args(t, spec_skip_newlines(t, p + 2));
                    spec_literal_call_at(t, p) ==> self.errors@ == old(self).errors@
                        && self.pos == spec_found_args_end(la) + 1 && spec_free_call(expr, t[p].kind->Identifier_0@, spec_found_args(la))
                }),
                ({
                    let p = old(self).pos as int;
                    spec_primary_single(t, p) is Some && spec_primary_single(t, p)->0 is Ident
                        && p + 1 < t.len() && t[p + 1].kind is Lt && spec_plain_operand_at(t, p + 2)
                }) ==> expr == spec_primary_single(t, old(self).pos as int)->0 && self.pos == old(self).pos + 1
                    && self.errors@ == old(self).errors@,
            decreases self.tokens@.len() - self.pos,
        {
            let ghost round = self.pos;
            let ghost k = self.pos as int;
            proof {
                if ch {
                    lemma_skip_newlines(t, k);
                    if full.skip(done.len() as int).len() == 0 {
                        assert(full.take(done.len() as int) =~= full);
                    }
                }
            }
            if matches!(self.peek(), TokenKind::Newline) {
                let mut look = self.pos;
                while look < self.tokens.len() && matches!(self.tokens[look].kind, TokenKind::Newline)
                    invariant
                        self.pos <= look <= self.tokens@.len(),
                        spec_skip_newlines(self.tokens@, look as int) == spec_skip_newlines(self.tokens@, self.pos as int),
                    decreases self.tokens@.len() - look,
                {
                    look = look + 1;
                }
                if look < self.tokens.len()
                    && (matches!(self.tokens[look].kind, TokenKind::Dot) || matches!(self.tokens[look].kind, TokenKind::QuestionDot))
                {
                    self.pos = look;
                } else {
                    break;
                }
            }
            assert(self.pos >= round);
            match self.peek_kind() {
                TokenKind::Dot => {
                    let ghost k2 = self.pos as int;
                    expr = self.parse_member_suffix(expr, false)?;
                    proof {
                        if ch {
                            let step = (false, t[spec_skip_newlines(t, k2 + 1) as int].kind->Identifier_0@);
                            assert(full.skip(done.len() as int)[0] == step);
                            assert(full.take(done.len() as int + 1) =~= done.push(step));
                            assert(full.skip(done.len() as int + 1) =~= full.skip(done.len() as int).drop_first());
                            assert(done.push(step).drop_last() =~= done);
                            done = done.push(step);
                        }
                    }
                },
                TokenKind::QuestionDot => {
                    let ghost k2 = self.pos as int;
                    expr = self.parse_member_suffix(expr, true)?;
                    proof {
                        if ch {
                            let step = (true, t[spec_skip_newlines(t, k2 + 1) as int].kind->Identifier_0@);
                            assert(full.skip(done.len() as int)[0] == step);
                            assert(full.take(done.len() as int + 1) =~= done.push(step));
                            assert(full.skip(done.len() as int + 1) =~= full.skip(done.len() as int).drop_first());
                            assert(done.push(step).drop_last() =~= done);
                            done = done.push(step);
                        }
                    }
                },
                TokenKind::Question => {
                    if !self.kind_at_is(1, &TokenKind::LBracket) {
                        break;
                    }
                    self.advance();
                    self.advance();
                    let index = self.parse_expr()?;
                    self.expect(&TokenKind::RBracket)?;
                    let span = self.span_from(expr.span());
                    expr = Expr::SafeIndexAccess { receiver: Box::new(expr), index: Box::new(index), span };
                },
                TokenKind::Identifier(word) => {
                    if !(str_eq(word.as_str(), "with") && self.kind_at_is(1, &TokenKind::LBrace)) {
                        break;
                    }
                    expr = self.parse_with_suffix(expr)?;
                },
                TokenKind::BangBang => {
                    self.advance();
                    let span = self.span_from(expr.span());
                    expr = Expr::NonNullAssert { expr: Box::new(expr), span };
                },
                TokenKind::LBracket => {
                    expr = self.parse_index_suffix(expr)?;
                },
                TokenKind::LParen => {
                    let callee = match &expr {
                        Expr::Ident(name, name_span) => Some((name.clone(), *name_span)),
                        _ => None,
                    };
                    match callee {
                        Some((name, name_span)) => {
                            let (type_args, mut args) = self.parse_call_args()?;
                            self.parse_trailing_lambda(&mut args)?;
                            let span = self.span_from(expr.span());
                            expr = Expr::Call { receiver: None, name, name_span, type_args, args, span };
                        },
                        None => {
                            break;
                        },
                    }
                },
                TokenKind::Lt => {
                    let callee = match &expr {
                        Expr::Ident(name, name_span) => Some((name.clone(), *name_span)),
                        _ => None,
                    };
                    match callee {
                        Some((name, name_span)) => {
                            let save = self.pos;
                            match self.try_parse_generic_call() {
                                Ok((type_args, mut args)) => {
                                    self.parse_trailing_lambda(&mut args)?;
                                    let span = self.span_from(expr.span());
                                    expr = Expr::Call { receiver: None, name, name_span, type_args, args, span };
                                },
                                Err(_) => {
                                    self.pos = save;
                                    break;
                                },
                            }
                        },
                        None => {
                            break;
                        },
                    }
                },
                _ => {
                    break;
                },
            }
        }
        Ok(expr)
    }

    /// The comma-separated call arguments up to `)`, with trailing lambdas enabled inside.
    fn parse_call_arg_list(&mut self) -> (r: Result<Vec<Arg>, ParseError>)
        requires
            old(self).wf(),
        ensures
            final(self).evolves(*old(self)),
            (old(self).cur() is RParen || old(self).cur() is Eof) ==> (r matches Ok(v) && v@.len() == 0
                && final(self).pos == old(self).pos && final(self).errors@ == old(self).errors@),
            r matches Ok(v) ==> (v@.len() == 0 <==> (old(self).cur() is RParen || old(self).cur() is Eof)),
            r is Ok ==> final(self).no_trailing_lambda == old(self).no_trailing_lambda,
            spec_literal_args(old(self).tokens@, old(self).pos as int) is Some ==> (r matches Ok(v)
                && spec_plain_args(v@, spec_found_args(spec_literal_args(old(self).tokens@, old(self).pos as int)))
                && final(self).pos == spec_found_args_end(spec_literal_args(old(self).tokens@, old(self).pos as int))
                && final(self).errors@ == old(self).errors@),
        decreases old(self).tokens@.len() - old(self).pos, 16int,
    {
        let mut args: Vec<Arg> = Vec::new();
        let prev_ntl = self.no_trailing_lambda;
        self.no_trailing_lambda = false;
        let ghost t = self.tokens@;
        let ghost la = spec_literal_args(t, self.pos as int);
        proof {
            if la is Some {
                assert(Seq::<Expr>::empty() + spec_found_args(la) =~= spec_found_args(la));
            }
        }
        while !self.check(&TokenKind::RParen) && !self.check(&TokenKind::Eof)
            invariant
                self.evolves(*old(self)),
                t == old(self).tokens@,
                la == spec_literal_args(t, old(self).pos as int),
                la is Some ==> ({
                    &&& spec_literal_args(t, self.pos as int) is Some
                    &&& args@.map_values(|a: Arg| a.value) + spec_found_args(spec_literal_args(t, self.pos as int)) == spec_found_args(la)
                    &&& forall|i: int| 0 <= i < args@.len() ==> (#[trigger] args@[i]).name is None && args@[i].call_modifier == ArgMod::Plain
                    &&& spec_found_args_end(spec_literal_args(t, self.pos as int)) == spec_found_args_end(la)
                    &&& self.errors@ == old(self).errors@
                }),
                args@.len() == 0 ==> self.pos == old(self).pos && self.errors@ == old(self).errors@,
                args@.len() > 0 ==> !(old(self).cur() is RParen || old(self).cur() is Eof),
            ensures
                self.evolves(*old(self)),
                args@.len() == 0 ==> self.pos == old(self).pos && self.errors@ == old(self).errors@
                    && (self.cur() is RParen || self.cur() is Eof),
                args@.len() > 0 ==> !(old(self).cur() is RParen || old(self).cur() is Eof),
                la is Some ==> ({
                    &&& spec_literal_args(t, self.pos as int) is Some
                    &&& args@.map_values(|a: Arg| a.value) + spec_found_args(spec_literal_args(t, self.pos as int)) == spec_found_args(la)
                    &&& forall|i: int| 0 <= i < args@.len() ==> (#[trigger] args@[i]).name is None && args@[i].call_modifier == ArgMod::Plain
                    &&& spec_found_args_end(spec_literal_args(t, self.pos as int)) == spec_found_args_end(la)
                    &&& self.errors@ == old(self).errors@
                    &&& self.cur() is RParen
                }),
            decreases self.tokens@.len() - self.pos,
        {
            let ghost k = self.pos as int;
            let ghost before = args@;
            let arg = self.parse_call_arg()?;
            args.push(arg);
            proof {
                assert(args@.map_values(|a: Arg| a.value) =~= before.map_values(|a: Arg| a.value).push(args@[before.len() as int].value));
                if la is Some {
                    let rest = spec_found_args(spec_literal_args(t, k + 2));
                    if t[k + 1].kind is Comma {
                        assert(before.map_values(|a: Arg| a.value) + (seq![args@[before.len() as int].value] + rest)
                            =~= args@.map_values(|a: Arg| a.value) + rest);
                    } else {
                        assert(spec_literal_args(t, k + 1) == Some((Seq::<Expr>::empty(), k + 1)));
                        assert(before.map_values(|a: Arg| a.value) + seq![args@[before.len() as int].value]
                            =~= args@.map_values(|a: Arg| a.value) + Seq::<Expr>::empty());
                    }
                }
            }
            self.skip_newlines();
            if !self.eat(&TokenKind::Comma) {
                break;
            }
            self.skip_newlines();
        }
        self.no_trailing_lambda = prev_ntl;
        Ok(args)
    }

    /// `[<T, ..>](args)`
    fn parse_call_args(&mut self) -> (r: Result<(Vec<TypeRef>, Vec<Arg>), ParseError>)
        requires
            old(self).wf(),
        ensures
            final(self).evolves(*old(self)),
            r is Ok ==> final(self).pos > old(self).pos,
            !(old(self).cur() is Lt || old(self).cur() is LParen) ==> (r is Err && final(self).pos == old(self).pos
                && final(self).errors@ == old(self).errors@),
            old(self).cur() is LParen && spec_kind_after_newlines(old(self).tokens@, old(self).pos + 1) is RParen ==> (
                r matches Ok((ta, args)) && ta@.len() == 0 && args@.len() == 0
                && final(self).pos == spec_skip_newlines(old(self).tokens@, old(self).pos + 1) + 1
                && final(self).errors@ == old(self).errors@),
            ({
                let t = old(self).tokens@;
                let la = spec_literal_args(t, spec_skip_newlines(t, old(self).pos + 1));
                old(self).cur() is LParen && la is Some ==> (r matches Ok((ta, args)) && ta@.len() == 0
                    && spec_plain_args(args@, spec_found_args(la)) && final(self).pos == spec_found_args_end(la) + 1
                    && final(self).errors@ == old(self).errors@)
            }),
        decreases old(self).tokens@.len() - old(self).pos, 1int,
    {
        let type_args = if self.eat(&TokenKind::Lt) {
            let ta = self.parse_type_arg_list()?;
            self.expect(&TokenKind::Gt)?;
            ta
        } else {
            Vec::new()
        };

        self.expect(&TokenKind::LParen)?;
        self.skip_newlines();
        proof {
            if spec_literal_args(self.tokens@, self.pos as int) is Some {
                lemma_literal_args_end(self.tokens@, self.pos as int);
            }
        }
        let args = self.parse_call_arg_list()?;
        self.skip_newlines();
        self.expect(&TokenKind::RParen)?;
        Ok((type_args, args))
    }

    /// Comma-separated types up to `>` (not consumed).
    fn parse_type_arg_list(&mut self) -> (r: Result<Vec<TypeRef>, ParseError>)
        requires
            old(self).wf(),
        ensures
            final(self).evolves(*old(self)),
            ({
                let k = spec_kind_after_newlines(old(self).tokens@, old(self).pos as int);
                &&& (k is Gt || k is Eof) ==> (r matches Ok(v) && v@.len() == 0
                    && final(self).pos == spec_skip_newlines(old(self).tokens@, old(self).pos as int)
                    && final(self).errors@ == old(self).errors@)
                &&& r matches Ok(v) ==> (v@.len() == 0 <==> (k is Gt || k is Eof))
            }),
            spec_plain_operand_at(old(self).tokens@, old(self).pos as int) ==> (r matches Ok(v) && v@.len() == 1
                && final(self).pos == old(self).pos + 1 && final(self).errors@ == old(self).errors@),
    {
        let mut ta: Vec<TypeRef> = Vec::new();
        self.skip_newlines();
        while !self.check(&TokenKind::Gt) && !self.check(&TokenKind::Eof)
            invariant_except_break
                spec_plain_operand_at(old(self).tokens@, old(self).pos as int) ==> ta@.len() == 0,
            invariant
                self.evolves(*old(self)),
                ta@.len() == 0 ==> self.pos == spec_skip_newlines(old(self).tokens@, old(self).pos as int)
                    && self.errors@ == old(self).errors@,
                ta@.len() > 0 ==> !(spec_kind_after_newlines(old(self).tokens@, old(self).pos as int) is Gt
                    || spec_kind_after_newlines(old(self).tokens@, old(self).pos as int) is Eof),
            ensures
                self.evolves(*old(self)),
                ta@.len() == 0 ==> self.pos == spec_skip_newlines(old(self).tokens@, old(self).pos as int)
                    && self.errors@ == old(self).errors@ && (self.cur() is Gt || self.cur() is Eof),
                ta@.len() > 0 ==> !(spec_kind_after_newlines(old(self).tokens@, old(self).pos as int) is Gt
                    || spec_kind_after_newlines(old(self).tokens@, old(self).pos as int) is Eof),
                spec_plain_operand_at(old(self).tokens@, old(self).pos as int) ==> ta@.len() == 1
                    && self.pos == old(self).pos + 1 && self.errors@ == old(self).errors@,
            decreases self.tokens@.len() - self.pos,
        {
            ta.push(self.parse_type()?);
            self.skip_newlines();
            if !self.eat(&TokenKind::Comma) {
                break;
            }
            self.skip_newlines();
        }
        Ok(ta)
    }

    /// One call argument: `expr`, `name = expr`, `name: expr`, `ref expr`, `out expr`,
    /// `out val name`, `out var name` or `out _`.
    pub(crate) fn parse_call_arg(&mut self) -> (r: Result<Arg, ParseError>)
        requires
            old(self).wf(),
        ensures
            final(self).evolves(*old(self)),
            r is Ok ==> final(self).pos > old(self).pos,
            spec_atom_at(old(self).tokens@, old(self).pos as int) matches Some(e) ==> (
                r matches Ok(Arg { name: n, call_modifier: m, value: v }) && n is None && m == ArgMod::Plain && v == e
                && final(self).pos == old(self).pos + 1 && final(self).errors@ == old(self).errors@),
            ({
                let t = old(self).tokens@;
                let p = old(self).pos as int;
                t[p].kind is Identifier && t[p].kind->Identifier_0@ != "ref"@ && t[p].kind->Identifier_0@ != "out"@
                    && t[p + 1].kind is Eq && spec_atom_at(t, p + 2) is Some ==> (
                    r matches Ok(Arg { name: n, call_modifier: m, value: v }) && n matches Some(x)
                    && x@ == t[p].kind->Identifier_0@ && m == ArgMod::Plain && Some(v) == spec_atom_at(t, p + 2)
                    && final(self).pos == p + 3 && final(self).errors@ == old(self).errors@)
            }),
        decreases old(self).tokens@.len() - old(self).pos, 15int,
    {
        if self.check_contextual("ref") {
            self.advance();
            let value = self.parse_expr()?;
            return Ok(Arg { name: None, call_modifier: ArgMod::Ref, value });
        }
        if self.check_contextual("out") {
            self.advance();
            if self.check_contextual("_") {
                let span = self.peek_span();
                self.advance();
                return Ok(Arg { name: None, call_modifier: ArgMod::OutDiscard, value: Expr::Ident(owned("_"), span) });
            }
            if self.check(&TokenKind::Val) || self.check(&TokenKind::Var) {
                self.advance();
                let (name, name_span) = self.expect_ident()?;
                return Ok(Arg { name: None, call_modifier: ArgMod::OutDecl(name.clone()), value: Expr::Ident(name, name_span) });
            }
            let value = self.parse_expr()?;
            return Ok(Arg { name: None, call_modifier: ArgMod::Out, value });
        }

        let arg_name_text: Option<String> = match self.peek() {
            TokenKind::Identifier(name) => Some(name.clone()),
            other => {
                match other.keyword_text() {
                    Some(text) => {
                        if self.kind_at_is(1, &TokenKind::Eq) || self.kind_at_is(1, &TokenKind::Colon) {
                            Some(owned(text))
                        } else {
                            None
                        }
                    },
                    None => None,
                }
            },
        };
        match arg_name_text {
            Some(name) => {
                let save = self.pos;
                self.advance();
                if self.eat(&TokenKind::Eq) {
                    let value = self.parse_expr()?;
                    return Ok(Arg { name: Some(name), call_modifier: ArgMod::Plain, value });
                }
                if self.check(&TokenKind::Colon) {
                    let starts = match self.peek_at(1) {
                        Some(k) => starts_expression(&k),
                        None => false,
                    };
                    if starts {
                        self.advance();
                        let value = self.parse_expr()?;
                        return Ok(Arg { name: Some(name), call_modifier: ArgMod::Plain, value });
                    }
                }
                self.pos = save;
            },
            None => {},
        }

        let value = self.parse_expr()?;
        Ok(Arg { name: None, call_modifier: ArgMod::Plain, value })
    }

    /// `<T, ..>(args)` after a name; the caller backtracks when this fails.
    fn try_parse_generic_call(&mut self) -> (r: Result<(Vec<TypeRef>, Vec<Arg>), ParseError>)
        requires
            old(self).wf(),
        ensures
            final(self).evolves(*old(self)),
            r is Ok ==> final(self).pos > old(self).pos,
            !(old(self).cur() is Lt) ==> (r is Err && final(self).pos == old(self).pos
                && final(self).errors@ == old(self).errors@),
            ({
                let t = old(self).tokens@;
                let p = old(self).pos as int;
                t[p].kind is Lt && p + 3 < t.len() && t[p + 1].kind is Gt && t[p + 2].kind is LParen
                    && t[p + 3].kind is RParen ==> (r matches Ok((ta, args)) && ta@.len() == 0 && args@.len() == 0
                    && final(self).pos == p + 4 && final(self).errors@ == old(self).errors@)
            }),
            old(self).cur() is Lt && spec_plain_operand_at(old(self).tokens@, old(self).pos + 1)
                ==> (r is Err && final(self).errors@ == old(self).errors@),
        decreases old(self).tokens@.len() - old(self).pos, 1int,
    {
        self.expect(&TokenKind::Lt)?;
        let type_args = self.parse_type_arg_list()?;
        self.expect(&TokenKind::Gt)?;
        self.expect(&TokenKind::LParen)?;
        self.skip_newlines();
        let args = self.parse_call_arg_list()?;
        self.skip_newlines();
        self.expect(&TokenKind::RParen)?;
        Ok((type_args, args))
    }

    /// The name of a named tuple element `name: expr` starting here, without consuming it.
    fn try_peek_tuple_element_name(&self) -> (r: Option<String>)
        requires
            self.wf(),
        ensures
            r is Some ==> self.cur() is Identifier && self.pos + 2 < self.tokens@.len()
                && self.tokens@[self.pos + 1].kind is Colon,
            r is Some <==> (self.cur() is Identifier && self.pos + 2 < self.tokens@.len()
                && self.tokens@[self.pos + 1].kind is Colon && spec_starts_expression(self.tokens@[self.pos + 2].kind)),
            r matches Some(n) ==> n@ == self.cur()->Identifier_0@,
    {
        let name = match self.peek() {
            TokenKind::Identifier(n) => n.clone(),
            _ => {
                return None;
            },
        };
        if !self.kind_at_is(1, &TokenKind::Colon) {
            return None;
        }
        match self.peek_at(2) {
            Some(k) => {
                if starts_expression(&k) {
                    Some(name)
                } else {
                    None
                }
            },
            None => None,
        }
    }

    /// A primary expression: a literal, a name, `this`, `null`, a parenthesized expression or
    /// tuple, a list, map or lambda, `if`/`when`/`try` expressions, `throw e`, `nameof(..)`,
    /// `stackalloc[T](n)`, or a keyword that is used as a name.
    fn parse_primary(&mut self) -> (r: Result<Expr, ParseError>)
        requires
            old(self).wf(),
        ensures
            final(self).evolves(*old(self)),
            r is Ok ==> final(self).pos > old(self).pos,
            spec_primary_single(old(self).tokens@, old(self).pos as int) matches Some(e) ==> r == Ok::<Expr, ParseError>(e)
                && final(self).pos == old(self).pos + 1 && final(self).errors@ == old(self).errors@,
            spec_keyword_name_at(old(self).tokens@, old(self).pos as int) matches Some(n) ==> (r matches Ok(Expr::Ident(x, sp))
                && x@ == n && sp == old(self).tokens@[old(self).pos as int].span
                && final(self).pos == old(self).pos + 1 && final(self).errors@ == old(self).errors@),
        decreases old(self).tokens@.len() - old(self).pos, 3int,
    {
        let span = self.peek_span();
        if self.check(&TokenKind::Throw) {
            self.advance();
            let exc = self.parse_expr()?;
            let s = self.span_from(span);
            return Ok(Expr::ThrowExpr { exception: Box::new(exc), span: s });
        }
        if self.check(&TokenKind::Try) {
            return self.parse_try_expr();
        }
        if self.check_contextual("stackalloc") && self.kind_at_is(1, &TokenKind::LBracket) {
            self.advance();
            self.advance();
            let element_ty = self.parse_type()?;
            self.expect(&TokenKind::RBracket)?;
            self.expect(&TokenKind::LParen)?;
            let size = self.parse_expr()?;
            self.expect(&TokenKind::RParen)?;
            let s = self.span_from(span);
            return Ok(Expr::StackAlloc { element_ty, size: Box::new(size), span: s });
        }
        match self.peek_kind() {
            TokenKind::IntLiteral(n) => {
                self.advance();
                Ok(Expr::IntLit(n, span))
            },
            TokenKind::FloatLiteral(n) => {
                self.advance();
                Ok(Expr::FloatLit(n, span))
            },
            TokenKind::DurationLiteral(n) => {
                self.advance();
                Ok(Expr::DurationLit(n, span))
            },
            TokenKind::BoolTrue => {
                self.advance();
                Ok(Expr::BoolLit(true, span))
            },
            TokenKind::BoolFalse => {
                self.advance();
                Ok(Expr::BoolLit(false, span))
            },
            TokenKind::Null => {
                self.advance();
                Ok(Expr::Null(span))
            },
            TokenKind::This => {
                self.advance();
                Ok(Expr::This(span))
            },
            TokenKind::StringLiteral(s) => {
                self.advance();
                Ok(Expr::StringLit(s, span))
            },
            TokenKind::StringStart(s) => self.parse_string_interp(s),
            TokenKind::If => self.parse_if_expr(),
            TokenKind::When => self.parse_when_expr(),
            TokenKind::Identifier(name) => {
                if str_eq(name.as_str(), "nameof") && self.kind_at_is(1, &TokenKind::LParen) {
                    return self.parse_nameof_expr(span);
                }
                self.advance();
                Ok(Expr::Ident(name, span))
            },
            TokenKind::Require => {
                self.advance();
                Ok(Expr::Ident(owned("require"), span))
            },
            TokenKind::Child => {
                self.advance();
                Ok(Expr::Ident(owned("child"), span))
            },
            TokenKind::Parent => {
                self.advance();
                Ok(Expr::Ident(owned("parent"), span))
            },
            TokenKind::Start | TokenKind::Stop | TokenKind::StopAll | TokenKind::Awake
            | TokenKind::Update | TokenKind::FixedUpdate | TokenKind::LateUpdate
            | TokenKind::OnEnable | TokenKind::OnDisable | TokenKind::OnDestroy
            | TokenKind::OnTriggerEnter | TokenKind::OnTriggerExit | TokenKind::OnTriggerStay
            | TokenKind::OnCollisionEnter | TokenKind::OnCollisionExit | TokenKind::OnCollisionStay
            | TokenKind::Wait | TokenKind::NextFrame | TokenKind::FixedFrame | TokenKind::Listen
            | TokenKind::Unlisten | TokenKind::Manual | TokenKind::Pool | TokenKind::Singleton
            | TokenKind::Serialize | TokenKind::Optional => {
                let text = owned(self.peek().keyword_text().unwrap());
                self.advance();
                Ok(Expr::Ident(text, span))
            },
            TokenKind::LParen => {
                self.advance();
                let prev_ntl = self.no_trailing_lambda;
                self.no_trailing_lambda = false;
                let (first_name, first_expr) = match self.try_peek_tuple_element_name() {
                    Some(name) => {
                        self.advance();
                        self.advance();
                        let value = self.parse_expr()?;
                        (Some(name), value)
                    },
                    None => {
                        let e = self.parse_expr()?;
                        (None, e)
                    },
                };

                let result = if self.check(&TokenKind::Comma) {
                    let mut elements: Vec<Expr> = vec![first_expr];
                    let mut names: Vec<Option<String>> = vec![first_name];
                    while self.eat(&TokenKind::Comma)
                        invariant
                            self.evolves(*old(self)),
                            self.pos > old(self).pos,
                            spec_primary_single(old(self).tokens@, old(self).pos as int) is None,
                            spec_keyword_name_at(old(self).tokens@, old(self).pos as int) is None,
                        decreases self.tokens@.len() - self.pos,
                    {
                        self.skip_newlines();
                        if self.check(&TokenKind::RParen) {
                            break;
                        }
                        match self.try_peek_tuple_element_name() {
                            Some(name) => {
                                self.advance();
                                self.advance();
                                elements.push(self.parse_expr()?);
                                names.push(Some(name));
                            },
                            None => {
                                elements.push(self.parse_expr()?);
                                names.push(None);
                            },
                        }
                    }
                    self.expect(&TokenKind::RParen)?;
                    let end = self.peek_span();
                    Expr::Tuple { elements, names, span: Span::join(span, end) }
                } else {
                    self.expect(&TokenKind::RParen)?;
                    first_expr
                };
                self.no_trailing_lambda = prev_ntl;
                Ok(result)
            },
            TokenKind::LBrace => self.parse_brace_expr(),
            TokenKind::LBracket => self.parse_list_literal(),
            _ => Err(self.error_found("Expected expression, found ")),
        }
    }

    /// `nameof(a.b.c)`
    fn parse_nameof_expr(&mut self, start: Span) -> (r: Result<Expr, ParseError>)
        requires
            old(self).wf(),
            !(old(self).cur() is Eof),
        ensures
            final(self).evolves(*old(self)),
            final(self).pos > old(self).pos,
            r matches Ok(e) ==> e is NameOf,
    {
        self.advance();
        self.expect(&TokenKind::LParen)?;
        let mut path: Vec<String> = Vec::new();
        let (first, _s) = self.expect_ident()?;
        path.push(first);
        while self.eat(&TokenKind::Dot)
            invariant
                self.evolves(*old(self)),
                self.pos > old(self).pos,
            decreases self.tokens@.len() - self.pos,
        {
            let (next, _s2) = self.expect_ident()?;
            path.push(next);
        }
        self.expect(&TokenKind::RParen)?;
        let span = self.span_from(start);
        Ok(Expr::NameOf { path, span })
    }

    /// `[a, b, ..]` or `[]`
    fn parse_list_literal(&mut self) -> (r: Result<Expr, ParseError>)
        requires
            old(self).wf(),
            !(old(self).cur() is Eof),
        ensures
            final(self).evolves(*old(self)),
            r is Ok ==> final(self).pos > old(self).pos,
            spec_kind_after_newlines(old(self).tokens@, old(self).pos + 1) is RBracket ==> (
                r matches Ok(Expr::ListLit { elements: es, .. }) && es@.len() == 0
                && final(self).pos == spec_skip_newlines(old(self).tokens@, old(self).pos + 1) + 1
                && final(self).errors@ == old(self).errors@),
        decreases old(self).tokens@.len() - old(self).pos, 1int,
    {
        let start = self.peek_span();
        self.advance();
        self.skip_newlines();
        let mut elements: Vec<Expr> = Vec::new();
        if !self.check(&TokenKind::RBracket) {
            loop
                invariant
                    self.evolves(*old(self)),
                    self.pos > old(self).pos,
                    !(spec_kind_after_newlines(old(self).tokens@, old(self).pos + 1) is RBracket),
                decreases self.tokens@.len() - self.pos,
            {
                self.skip_newlines();
                if self.check(&TokenKind::RBracket) {
                    break;
                }
                elements.push(self.parse_expr()?);
                self.skip_newlines();
                if !self.eat(&TokenKind::Comma) {
                    break;
                }
            }
        }
        self.skip_newlines();
        self.expect(&TokenKind::RBracket)?;
        let span = self.span_from(start);
        Ok(Expr::ListLit { elements, span })
    }

    /// `{ .. }` as an expression: a map literal `{k: v, ..}` when the first expression is
    /// followed by `:`, otherwise a lambda. Diagnostics of the abandoned map reading are
    /// dropped.
    fn parse_brace_expr(&mut self) -> (r: Result<Expr, ParseError>)
        requires
            old(self).wf(),
            old(self).cur() is LBrace,
        ensures
            final(self).evolves(*old(self)),
            r is Ok ==> final(self).pos > old(self).pos,
        decreases old(self).tokens@.len() - old(self).pos, 2int,
    {
        let saved = self.pos;
        let start = self.peek_span();
        self.advance();
        self.skip_newlines();

        if self.check(&TokenKind::RBrace) {
            self.pos = saved;
            return self.parse_lambda_expr();
        }

        let saved_errors = self.errors.len();
        match self.parse_expr() {
            Ok(first_key) => {
                if self.check(&TokenKind::Colon) {
                    self.advance();
                    let first_value = self.parse_expr()?;
                    let mut entries: Vec<(Expr, Expr)> = vec![(first_key, first_value)];
                    while self.eat(&TokenKind::Comma)
                        invariant
                            self.evolves(*old(self)),
                            self.pos > old(self).pos,
                        decreases self.tokens@.len() - self.pos,
                    {
                        self.skip_newlines();
                        if self.check(&TokenKind::RBrace) {
                            break;
                        }
                        let key = self.parse_expr()?;
                        self.expect(&TokenKind::Colon)?;
                        let value = self.parse_expr()?;
                        entries.push((key, value));
                        self.skip_newlines();
                    }
                    self.skip_newlines();
                    self.expect(&TokenKind::RBrace)?;
                    let span = self.span_from(start);
                    return Ok(Expr::MapLit { entries, span });
                }
            },
            Err(_) => {},
        }
        self.pos = saved;
        self.errors.truncate(saved_errors);
        self.parse_lambda_expr()
    }

    /// `{ }`, `{ expr }`, `{ stmts }` (implicit `it`), or `{ a, b => body }`. A body of one
    /// expression statement becomes an expression body.
    fn parse_lambda_expr(&mut self) -> (r: Result<Expr, ParseError>)
        requires
            old(self).wf(),
            old(self).cur() is LBrace,
        ensures
            final(self).evolves(*old(self)),
            r is Ok ==> final(self).pos > old(self).pos,
        decreases old(self).tokens@.len() - old(self).pos, 1int,
    {
        let start = self.peek_span();
        self.advance();
        self.skip_newlines();

        if self.check(&TokenKind::RBrace) {
            self.advance();
            let span = self.span_from(start);
            return Ok(Expr::Lambda {
                params: Vec::new(),
                body: LambdaBody::Block(Block { stmts: Vec::new(), span: start }),
                span,
            });
        }

        let saved = self.pos;
        let mut maybe_params: Vec<LambdaParam> = Vec::new();
        let mut found_arrow = false;

        loop
            invariant
                self.evolves(*old(self)),
                self.pos > old(self).pos,
                old(self).pos < saved <= self.pos,
            decreases self.tokens@.len() - self.pos,
        {
            match self.peek_kind() {
                TokenKind::Identifier(name) => {
                    self.advance();
                    maybe_params.push(LambdaParam { name, ty: None });
                },
                _ => {
                    break;
                },
            }
            if self.check(&TokenKind::Comma) {
                self.advance();
                self.skip_newlines();
            } else {
                break;
            }
        }
        self.skip_newlines();
        if self.check(&TokenKind::FatArrow) {
            self.advance();
            self.skip_newlines();
            found_arrow = true;
        }

        let (params, mut stmts) = if found_arrow && maybe_params.len() > 0 {
            if self.check(&TokenKind::RBrace) {
                self.advance();
                let span = self.span_from(start);
                return Ok(Expr::Lambda {
                    params: maybe_params,
                    body: LambdaBody::Block(Block { stmts: Vec::new(), span: start }),
                    span,
                });
            }
            let stmts = self.parse_stmts_until_brace();
            (maybe_params, stmts)
        } else {
            self.pos = saved;
            let stmts = self.parse_stmts_until_brace();
            (Vec::new(), stmts)
        };
        self.expect(&TokenKind::RBrace)?;
        let body_span = self.span_from(start);

        if stmts.len() == 1 && matches!(stmts[0], Stmt::Expr { .. }) {
            match stmts.pop() {
                Some(Stmt::Expr { expr, .. }) => {
                    let span = self.span_from(start);
                    return Ok(Expr::Lambda { params, body: LambdaBody::Expr(Box::new(expr)), span });
                },
                Some(other) => {
                    stmts.push(other);
                },
                None => {},
            }
        }
        let span = self.span_from(start);
        Ok(Expr::Lambda { params, body: LambdaBody::Block(Block { stmts, span: body_span }), span })
    }

    /// An interpolated string: `StringStart expr (StringMiddle expr)* StringEnd`; empty
    /// literal pieces are left out.
    fn parse_string_interp(&mut self, first_text: String) -> (r: Result<Expr, ParseError>)
        requires
            old(self).wf(),
            !(old(self).cur() is Eof),
        ensures
            final(self).evolves(*old(self)),
            r is Ok ==> final(self).pos > old(self).pos,
        decreases old(self).tokens@.len() - old(self).pos, 1int,
    {
        let start = self.peek_span();
        self.advance();

        let mut parts: Vec<StringPart> = Vec::new();
        if !first_text.as_str().is_empty() {
            parts.push(StringPart::Literal(first_text));
        }

        let expr = self.parse_expr()?;
        parts.push(StringPart::Expr(expr));

        loop
            invariant
                self.evolves(*old(self)),
                self.pos > old(self).pos,
            decreases self.tokens@.len() - self.pos,
        {
            match self.peek_kind() {
                TokenKind::StringEnd(text) => {
                    self.advance();
                    if !text.as_str().is_empty() {
                        parts.push(StringPart::Literal(text));
                    }
                    break;
                },
                TokenKind::StringMiddle(text) => {
                    self.advance();
                    if !text.as_str().is_empty() {
                        parts.push(StringPart::Literal(text));
                    }
                    let e = self.parse_expr()?;
                    parts.push(StringPart::Expr(e));
                },
                _ => {
                    return Err(self.error(owned("Expected string continuation or end")));
                },
            }
        }

        let span = self.span_from(start);
        Ok(Expr::StringInterp { parts, span })
    }

    /// `try { .. } catch (e: T) { .. } ..` in expression position; at least one `catch`.
    fn parse_try_expr(&mut self) -> (r: Result<Expr, ParseError>)
        requires
            old(self).wf(),
            !(old(self).cur() is Eof),
        ensures
            final(self).evolves(*old(self)),
            r is Ok ==> final(self).pos > old(self).pos,
            ({
                let t = old(self).tokens@;
                let p = old(self).pos as int;
                &&& t[p + 1].kind is LBrace && p + 3 < t.len() && t[p + 2].kind is RBrace && !(t[p + 3].kind is Catch
                    || t[p + 3].kind is Newline) ==> r is Err
                &&& t[p + 1].kind is LBrace && p + 2 < t.len() && t[p + 2].kind is RBrace && spec_single_catch_at(t, p + 3) ==> (
                    r matches Ok(Expr::TryExpr { try_block: b, catches: cs, .. }) && b.stmts@.len() == 0 && cs@.len() == 1
                    && final(self).pos == p + 11 && final(self).errors@ == old(self).errors@)
            }),
        decreases old(self).tokens@.len() - old(self).pos, 1int,
    {
        let start = self.peek_span();
        self.advance();
        self.skip_newlines();
        let try_block = self.parse_block()?;

        let catches = self.parse_catch_clauses()?;
        if catches.len() == 0 {
            return Err(self.error(owned("try expression requires at least one catch clause")));
        }

        let span = self.span_from(start);
        Ok(Expr::TryExpr { try_block, catches, span })
    }
}

} // verus!
