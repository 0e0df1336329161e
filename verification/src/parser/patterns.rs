//! `when` branches and their patterns.
use vstd::prelude::*;
use crate::token::{Span, TokenKind};
use crate::ast::{WhenBranch, WhenBody, WhenPattern, RelationalOp};
use super::{Parser, ParseError, spec_skip_newlines, spec_kind_after_newlines};
use super::exprs::spec_atom_at;

verus! {

broadcast use crate::token::lemma_kind_tag_inverse;

/// What a speculative binding pattern `Type.Variant(a, b)` yields.
pub(crate) struct BindingPatternResult {
    pub(crate) path: Vec<String>,
    pub(crate) bindings: Vec<String>,
    pub(crate) span: Span,
}

/// The relational pattern operator that a token stands for, if any.
pub open spec fn spec_relational_op(k: TokenKind) -> Option<RelationalOp> {
    match k {
        TokenKind::Lt => Some(RelationalOp::Lt),
        TokenKind::LtEq => Some(RelationalOp::Le),
        TokenKind::Gt => Some(RelationalOp::Gt),
        TokenKind::GtEq => Some(RelationalOp::Ge),
        TokenKind::EqEq => Some(RelationalOp::Eq),
        TokenKind::NotEq => Some(RelationalOp::Ne),
        _ => None,
    }
}

impl Parser {
    /// `pattern [and ..] [or ..] [, ..] [if guard] => (block | expr)`
    pub(crate) fn parse_when_branch(&mut self) -> (r: Result<WhenBranch, ParseError>)
        requires
            old(self).wf(),
        ensures
            final(self).evolves(*old(self)),
            r is Ok ==> final(self).pos > old(self).pos,
            old(self).cur() is Else && old(self).tokens@[old(self).pos + 1].kind is FatArrow
                && spec_atom_at(old(self).tokens@, old(self).pos + 2) is Some ==> (
                r matches Ok(WhenBranch { pattern: WhenPattern::Else, guard: g, body: WhenBody::Expr(x), .. })
                && g is None && Some(x) == spec_atom_at(old(self).tokens@, old(self).pos + 2)),
        decreases old(self).tokens@.len() - old(self).pos, 16int,
    {
        let start = self.peek_span();
        let first_pattern = self.parse_pattern_atom()?;

        let mut combined = first_pattern;
        while self.check_contextual("and")
            invariant
                self.evolves(*old(self)),
                self.pos > old(self).pos,
                (old(self).cur() is Else && old(self).tokens@[old(self).pos + 1].kind is FatArrow
                    && spec_atom_at(old(self).tokens@, old(self).pos + 2) is Some) ==> self.pos == old(self).pos + 1 && combined is Else
                    && self.errors@ == old(self).errors@,
            decreases self.tokens@.len() - self.pos,
        {
            self.advance();
            let right = self.parse_pattern_atom()?;
            let span = self.span_from(start);
            combined = WhenPattern::And { left: Box::new(combined), right: Box::new(right), span };
        }

        let mut or_patterns: Vec<WhenPattern> = Vec::new();
        while self.check_contextual("or")
            invariant
                self.evolves(*old(self)),
                self.pos > old(self).pos,
                (old(self).cur() is Else && old(self).tokens@[old(self).pos + 1].kind is FatArrow
                    && spec_atom_at(old(self).tokens@, old(self).pos + 2) is Some) ==> self.pos == old(self).pos + 1 && combined is Else
                    && or_patterns@.len() == 0 && self.errors@ == old(self).errors@,
            decreases self.tokens@.len() - self.pos,
        {
            self.advance();
            let mut next = self.parse_pattern_atom()?;
            let ghost atom_end = self.pos;
            while self.check_contextual("and")
                invariant
                    self.evolves(*old(self)),
                    self.pos > old(self).pos,
                    self.pos >= atom_end,
                    !(old(self).cur() is Else && old(self).tokens@[old(self).pos + 1].kind is FatArrow
                    && spec_atom_at(old(self).tokens@, old(self).pos + 2) is Some),
                decreases self.tokens@.len() - self.pos,
            {
                self.advance();
                let right = self.parse_pattern_atom()?;
                let span = self.span_from(start);
                next = WhenPattern::And { left: Box::new(next), right: Box::new(right), span };
            }
            or_patterns.push(next);
        }
        let combined = if or_patterns.len() > 0 {
            let mut patterns: Vec<WhenPattern> = vec![combined];
            patterns.append(&mut or_patterns);
            let span = self.span_from(start);
            WhenPattern::Or { span, patterns }
        } else {
            combined
        };

        let plain = matches!(combined, WhenPattern::Else) || matches!(combined, WhenPattern::Range { .. });
        let pattern = if self.check(&TokenKind::Comma) && !plain {
            let mut patterns = match combined {
                WhenPattern::Or { patterns, .. } => patterns,
                other => vec![other],
            };
            while self.eat(&TokenKind::Comma)
                invariant
                    self.evolves(*old(self)),
                    self.pos > old(self).pos,
                    !(old(self).cur() is Else && old(self).tokens@[old(self).pos + 1].kind is FatArrow
                    && spec_atom_at(old(self).tokens@, old(self).pos + 2) is Some),
                decreases self.tokens@.len() - self.pos,
            {
                self.skip_newlines();
                let next = self.parse_pattern_atom()?;
                patterns.push(next);
            }
            let span = self.span_from(start);
            WhenPattern::Or { span, patterns }
        } else {
            combined
        };

        let guard = if self.eat(&TokenKind::If) {
            Some(self.parse_expr()?)
        } else {
            None
        };

        self.expect(&TokenKind::FatArrow)?;

        let body = if self.check(&TokenKind::LBrace) {
            WhenBody::Block(self.parse_block()?)
        } else {
            let expr = self.parse_expr()?;
            self.skip_newlines();
            WhenBody::Expr(expr)
        };

        let span = self.span_from(start);
        Ok(WhenBranch { pattern, guard, body, span })
    }

    /// One pattern: `else`, `is Type`, `in a..b`, `not p`, a relational pattern (`< n`, ..),
    /// a property pattern `[Type] { x: p }`, a binding pattern `Type(a, b)`, a positional
    /// pattern `Type(p1, p2)`, or any expression (matched by equality).
    pub(crate) fn parse_pattern_atom(&mut self) -> (r: Result<WhenPattern, ParseError>)
        requires
            old(self).wf(),
        ensures
            final(self).evolves(*old(self)),
            r is Ok ==> final(self).pos > old(self).pos,
            old(self).cur() is Else ==> (r matches Ok(WhenPattern::Else) && final(self).pos == old(self).pos + 1
                && final(self).errors@ == old(self).errors@),
            spec_atom_at(old(self).tokens@, old(self).pos as int) matches Some(e) ==> (
                r matches Ok(WhenPattern::Expression(x)) && x == e && final(self).pos == old(self).pos + 1
                && final(self).errors@ == old(self).errors@),
        decreases old(self).tokens@.len() - old(self).pos, 15int,
    {
        if self.eat(&TokenKind::Else) {
            return Ok(WhenPattern::Else);
        }
        if self.eat(&TokenKind::Is) {
            let ty = self.parse_type()?;
            return Ok(WhenPattern::Is(ty));
        }
        if self.check(&TokenKind::In) {
            let range_start = self.peek_span();
            self.advance();
            let range_begin = self.parse_additive()?;
            self.expect(&TokenKind::DotDot)?;
            let range_end = self.parse_additive()?;
            let span = self.span_from(range_start);
            return Ok(WhenPattern::Range { start: range_begin, end: range_end, span });
        }
        if self.check_contextual("not") {
            let start = self.peek_span();
            self.advance();
            let inner = self.parse_pattern_atom()?;
            let span = self.span_from(start);
            return Ok(WhenPattern::Not { inner: Box::new(inner), span });
        }
        match self.peek_relational_op() {
            Some(op) => {
                let span_start = self.peek_span();
                self.advance();
                let value = self.parse_additive()?;
                let span = self.span_from(span_start);
                return Ok(WhenPattern::Relational { op, value, span });
            },
            None => {},
        }
        if self.check(&TokenKind::LBrace) {
            let start = self.peek_span();
            return self.parse_property_pattern_body(Vec::new(), start);
        }
        match self.try_parse_binding_pattern()? {
            Some(bp) => {
                return Ok(WhenPattern::Binding { path: bp.path, bindings: bp.bindings, span: bp.span });
            },
            None => {},
        }
        match self.try_parse_typed_pattern()? {
            Some(p) => {
                return Ok(p);
            },
            None => {},
        }
        let expr = self.parse_expr()?;
        Ok(WhenPattern::Expression(expr))
    }

    /// Speculatively reads `Type { x: p }` or `Type(p1, p2)` with a dotted type path; on
    /// anything else the cursor goes back and the answer is `None`.
    fn try_parse_typed_pattern(&mut self) -> (r: Result<Option<WhenPattern>, ParseError>)
        requires
            old(self).wf(),
        ensures
            final(self).evolves(*old(self)),
            r matches Ok(Some(_)) ==> final(self).pos > old(self).pos,
            !(old(self).cur() is Identifier) ==> (r matches Ok(None) && final(self).errors@ == old(self).errors@
                && final(self).pos == old(self).pos),
            ({
                let t = old(self).tokens@;
                let p = old(self).pos as int;
                &&& t[p].kind is Identifier && !(t[p + 1].kind is Dot || t[p + 1].kind is LBrace || t[p + 1].kind is LParen)
                    ==> (r matches Ok(None) && final(self).errors@ == old(self).errors@ && final(self).pos == p)
                &&& t[p].kind is Identifier && t[p + 1].kind is LBrace && spec_kind_after_newlines(t, p + 2) is RBrace ==> (
                    r matches Ok(Some(WhenPattern::Property { type_path: tp, fields: fs, .. })) && tp@.len() == 1
                    && tp@[0]@ == t[p].kind->Identifier_0@ && fs@.len() == 0)
            }),
        decreases old(self).tokens@.len() - old(self).pos, 1int,
    {
        let saved = self.pos;
        let mut path: Vec<String> = Vec::new();
        let start = self.peek_span();
        match self.peek_kind() {
            TokenKind::Identifier(name) => {
                path.push(name);
                self.advance();
            },
            _ => {
                return Ok(None);
            },
        }
        while self.check(&TokenKind::Dot)
            invariant
                self.evolves(*old(self)),
                self.pos > old(self).pos,
                saved == old(self).pos,
                old(self).cur() is Identifier,
                self.errors@ == old(self).errors@,
                self.pos == old(self).pos + 1 || old(self).tokens@[old(self).pos + 1].kind is Dot,
                self.pos == old(self).pos + 1 ==> path@.len() == 1 && path@[0]@ == old(self).cur()->Identifier_0@,
            decreases self.tokens@.len() - self.pos,
        {
            let after_dot = self.peek_at(1);
            match after_dot {
                Some(TokenKind::Identifier(_)) => {
                    self.advance();
                    match self.peek_kind() {
                        TokenKind::Identifier(name) => {
                            path.push(name);
                            self.advance();
                        },
                        _ => {},
                    }
                },
                _ => {
                    break;
                },
            }
        }
        if self.check(&TokenKind::LBrace) {
            let p = self.parse_property_pattern_body(path, start)?;
            return Ok(Some(p));
        }
        if self.check(&TokenKind::LParen) {
            let saved_inner = self.pos;
            self.advance();
            let mut entries: Vec<WhenPattern> = Vec::new();
            self.skip_newlines();
            if !self.check(&TokenKind::RParen) {
                loop
                    invariant
                        self.evolves(*old(self)),
                        self.pos > old(self).pos,
                        saved == old(self).pos,
                        old(self).pos < saved_inner < self.tokens@.len(),
                        old(self).cur() is Identifier,
                        old(self).tokens@[old(self).pos + 1].kind is Dot || old(self).tokens@[old(self).pos + 1].kind is LParen,
                    decreases self.tokens@.len() - self.pos,
                {
                    self.skip_newlines();
                    if self.check(&TokenKind::RParen) {
                        break;
                    }
                    let entry = match self.parse_pattern_atom() {
                        Ok(p) => p,
                        Err(_) => {
                            self.pos = saved;
                            return Ok(None);
                        },
                    };
                    entries.push(entry);
                    if !self.eat(&TokenKind::Comma) {
                        break;
                    }
                }
            }
            if !self.eat(&TokenKind::RParen) {
                self.pos = saved_inner;
                return Ok(None);
            }
            let span = self.span_from(start);
            return Ok(Some(WhenPattern::Positional { path, entries, span }));
        }
        self.pos = saved;
        Ok(None)
    }

    /// `{ field: pattern, .. }`, the body of a property pattern whose type path (possibly
    /// empty) was read already.
    fn parse_property_pattern_body(&mut self, type_path: Vec<String>, start: Span) -> (r: Result<WhenPattern, ParseError>)
        requires
            old(self).wf(),
        ensures
            final(self).evolves(*old(self)),
            r is Ok ==> final(self).pos > old(self).pos,
            !(old(self).cur() is LBrace) ==> (r is Err && final(self).pos == old(self).pos
                && final(self).errors@ == old(self).errors@),
            r matches Ok(pt) ==> (pt matches WhenPattern::Property { type_path: tp, .. } && tp == type_path),
            old(self).cur() is LBrace && spec_kind_after_newlines(old(self).tokens@, old(self).pos + 1) is RBrace ==> (
                r matches Ok(WhenPattern::Property { fields: fs, .. }) && fs@.len() == 0
                && final(self).pos == spec_skip_newlines(old(self).tokens@, old(self).pos + 1) + 1
                && final(self).errors@ == old(self).errors@),
        decreases old(self).tokens@.len() - old(self).pos, 1int,
    {
        self.expect(&TokenKind::LBrace)?;
        self.skip_newlines();
        let mut fields: Vec<(String, WhenPattern)> = Vec::new();
        if !self.check(&TokenKind::RBrace) {
            loop
                invariant
                    self.evolves(*old(self)),
                    self.pos > old(self).pos,
                    !(spec_kind_after_newlines(old(self).tokens@, old(self).pos + 1) is RBrace),
                    old(self).cur() is LBrace,
                decreases self.tokens@.len() - self.pos,
            {
                self.skip_newlines();
                if self.check(&TokenKind::RBrace) {
                    break;
                }
                let (name, _s) = self.expect_ident()?;
                self.expect(&TokenKind::Colon)?;
                let sub_pat = self.parse_pattern_atom()?;
                fields.push((name, sub_pat));
                if !self.eat(&TokenKind::Comma) {
                    break;
                }
                self.skip_newlines();
            }
        }
        self.skip_newlines();
        self.expect(&TokenKind::RBrace)?;
        let span = self.span_from(start);
        Ok(WhenPattern::Property { type_path, fields, span })
    }

    /// The relational operator under the cursor, if any.
    fn peek_relational_op(&self) -> (r: Option<RelationalOp>)
        requires
            self.wf(),
        ensures
            r == spec_relational_op(self.cur()),
    {
        match self.peek() {
            TokenKind::Lt => Some(RelationalOp::Lt),
            TokenKind::LtEq => Some(RelationalOp::Le),
            TokenKind::Gt => Some(RelationalOp::Gt),
            TokenKind::GtEq => Some(RelationalOp::Ge),
            TokenKind::EqEq => Some(RelationalOp::Eq),
            TokenKind::NotEq => Some(RelationalOp::Ne),
            _ => None,
        }
    }

    /// Speculatively reads `Type.Variant(a, b)` or `Type(a, b)` (identifiers only, possibly
    /// none). On anything else the cursor is left where it was and the answer is `None`.
    pub(crate) fn try_parse_binding_pattern(&mut self) -> (r: Result<Option<BindingPatternResult>, ParseError>)
        requires
            old(self).wf(),
        ensures
            final(self).evolves(*old(self)),
            final(self).errors == old(self).errors,
            r is Ok,
            r matches Ok(Some(bp)) ==> final(self).pos > old(self).pos && bp.path@.len() >= 1,
            r matches Ok(None) ==> final(self).pos == old(self).pos,
            r matches Ok(Some(bp)) ==> old(self).cur() is Identifier && bp.path@[0]@ == old(self).cur()->Identifier_0@,
            old(self).cur() is Identifier && old(self).pos + 1 < old(self).tokens@.len()
                && !(old(self).tokens@[old(self).pos + 1].kind is Dot || old(self).tokens@[old(self).pos + 1].kind is LParen)
                ==> (r matches Ok(None)),
            old(self).cur() is Identifier && old(self).pos + 2 < old(self).tokens@.len()
                && old(self).tokens@[old(self).pos + 1].kind is LParen && old(self).tokens@[old(self).pos + 2].kind is RParen
                ==> (r matches Ok(Some(bp)) && bp.path@.len() == 1 && bp.bindings@.len() == 0
                    && final(self).pos == old(self).pos + 3),
    {
        let saved = self.pos;

        let mut path: Vec<String> = Vec::new();
        match self.peek_kind() {
            TokenKind::Identifier(name) => {
                path.push(name);
                self.advance();
            },
            _ => {
                self.pos = saved;
                return Ok(None);
            },
        }
        let pat_start = self.tokens[saved].span;

        while self.check(&TokenKind::Dot)
            invariant
                self.evolves(*old(self)),
                self.errors == old(self).errors,
                self.pos > old(self).pos,
                saved == old(self).pos,
                path@.len() >= 1,
                old(self).cur() is Identifier && path@[0]@ == old(self).cur()->Identifier_0@,
                (old(self).cur() is Identifier && old(self).pos + 2 < old(self).tokens@.len()
                    && old(self).tokens@[old(self).pos + 1].kind is LParen && old(self).tokens@[old(self).pos + 2].kind is RParen) ==> self.pos == old(self).pos + 1 && path@.len() == 1,
                old(self).pos + 1 < old(self).tokens@.len()
                    && !(old(self).tokens@[old(self).pos + 1].kind is Dot || old(self).tokens@[old(self).pos + 1].kind is LParen)
                    ==> self.pos == old(self).pos + 1,
            decreases self.tokens@.len() - self.pos,
        {
            let dot_pos = self.pos;
            self.advance();
            match self.peek_kind() {
                TokenKind::Identifier(seg) => {
                    path.push(seg);
                    self.advance();
                },
                _ => {
                    self.pos = dot_pos;
                    break;
                },
            }
        }

        if !self.check(&TokenKind::LParen) {
            self.pos = saved;
            return Ok(None);
        }
        self.advance();

        let mut bindings: Vec<String> = Vec::new();
        while !self.check(&TokenKind::RParen) && !self.check(&TokenKind::Eof)
            invariant
                self.evolves(*old(self)),
                self.errors == old(self).errors,
                self.pos > old(self).pos,
                saved == old(self).pos,
                path@.len() >= 1,
                old(self).cur() is Identifier && path@[0]@ == old(self).cur()->Identifier_0@,
                (old(self).cur() is Identifier && old(self).pos + 2 < old(self).tokens@.len()
                    && old(self).tokens@[old(self).pos + 1].kind is LParen && old(self).tokens@[old(self).pos + 2].kind is RParen) ==> self.pos == old(self).pos + 2 && path@.len() == 1 && bindings@.len() == 0,
            decreases self.tokens@.len() - self.pos,
        {
            self.skip_newlines();
            match self.peek_kind() {
                TokenKind::Identifier(b) => {
                    bindings.push(b);
                    self.advance();
                    if !self.eat(&TokenKind::Comma) {
                        break;
                    }
                },
                _ => {
                    self.pos = saved;
                    return Ok(None);
                },
            }
        }

        if !self.eat(&TokenKind::RParen) {
            self.pos = saved;
            return Ok(None);
        }

        if path.len() == 0 {
            self.pos = saved;
            return Ok(None);
        }

        let span = self.span_from(pat_start);
        Ok(Some(BindingPatternResult { path, bindings, span }))
    }
}

} // verus!
