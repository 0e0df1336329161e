//! Blocks and statements, including `#if` preprocessor blocks and their conditions.
use vstd::prelude::*;
use crate::token::{Span, TokenKind};
use crate::ast::{
    Block, Stmt, Expr, ElseBranch, WaitForm, ListenLifetime, CatchClause, PreprocessorArm,
    PreprocessorCond, DestructurePattern, AssignOp, WhenBranch,
};
use crate::text::{str_eq, owned, cat2, join_with_dots};
use super::{Parser, ParseError, spec_skip_newlines, spec_kind_after_newlines};
use super::raw::pp_cond_span;
use super::exprs::{spec_atom_at, spec_arith_at, spec_arith_end, spec_arith_expr};
use super::types::spec_simple_type_at;
use crate::ast::TypeRef;
use crate::token::Token;

verus! {

broadcast use crate::token::lemma_kind_tag_inverse;

/// At `p` a control keyword is followed by a lone literal condition and an empty body
/// `{ }` (newlines allowed inside); the index just past the body.
pub open spec fn spec_simple_head_at(t: Seq<Token>, p: int) -> bool {
    spec_atom_at(t, p + 1) is Some && t[p + 2].kind is LBrace && spec_kind_after_newlines(t, p + 3) is RBrace
}

/// The index just past the empty body of `spec_simple_head_at`.
pub open spec fn spec_simple_head_end(t: Seq<Token>, p: int) -> int {
    spec_skip_newlines(t, p + 3) + 1
}

/// At `p` stands one clause `catch (name: Type) { }` with a plain type name, and after it
/// neither another `catch` nor a newline.
pub open spec fn spec_single_catch_at(t: Seq<Token>, p: int) -> bool {
    &&& 0 <= p && p + 8 < t.len()
    &&& t[p].kind is Catch && t[p + 1].kind is LParen && t[p + 2].kind is Identifier && t[p + 3].kind is Colon
    &&& t[p + 4].kind is Identifier && t[p + 5].kind is RParen && t[p + 6].kind is LBrace && t[p + 7].kind is RBrace
    &&& !(t[p + 8].kind is Catch || t[p + 8].kind is Newline)
}

impl Parser {
    /// `{ statements }`. A statement that fails to parse is reported and skipped to the end
    /// of its line.
    pub(crate) fn parse_block(&mut self) -> (r: Result<Block, ParseError>)
        requires
            old(self).wf(),
        ensures
            final(self).evolves(*old(self)),
            r is Ok ==> final(self).pos > old(self).pos,
            r is Ok ==> old(self).cur() is LBrace && final(self).tokens@[final(self).pos - 1].kind is RBrace,
            !(old(self).cur() is LBrace) ==> r is Err && final(self).pos == old(self).pos
                && final(self).errors@ == old(self).errors@,
            old(self).cur() is LBrace && spec_kind_after_newlines(old(self).tokens@, old(self).pos + 1) is RBrace ==> (
                r matches Ok(b) && b.stmts@.len() == 0 && final(self).errors@ == old(self).errors@
                && final(self).pos == spec_skip_newlines(old(self).tokens@, old(self).pos + 1) + 1),
        decreases old(self).tokens@.len() - old(self).pos, 1int,
    {
        let start = self.peek_span();
        self.expect(&TokenKind::LBrace)?;
        self.skip_newlines();
        assert(self.pos == spec_skip_newlines(old(self).tokens@, old(self).pos + 1));

        let stmts = self.parse_stmts_until_brace();
        self.expect(&TokenKind::RBrace)?;
        let span = self.span_from(start);
        Ok(Block { stmts, span })
    }

    /// Statements up to a closing `}` or the end of input (not consumed); a statement that
    /// fails is reported and skipped to the end of its line.
    pub(crate) fn parse_stmts_until_brace(&mut self) -> (r: Vec<Stmt>)
        requires
            old(self).wf(),
        ensures
            final(self).evolves(*old(self)),
            final(self).cur() is RBrace || final(self).cur() is Eof,
            (old(self).cur() is RBrace || old(self).cur() is Eof) ==> r@.len() == 0 && final(self).pos == old(self).pos
                && final(self).errors@ == old(self).errors@,
        decreases old(self).tokens@.len() - old(self).pos, 17int,
    {
        let mut stmts: Vec<Stmt> = Vec::new();
        while !self.check(&TokenKind::RBrace) && !self.check(&TokenKind::Eof)
            invariant
                self.evolves(*old(self)),
                (old(self).cur() is RBrace || old(self).cur() is Eof) ==> stmts@.len() == 0 && self.pos == old(self).pos
                    && self.errors@ == old(self).errors@,
            decreases self.tokens@.len() - self.pos,
        {
            let ghost before = self.pos;
            match self.parse_stmt() {
                Ok(s) => stmts.push(s),
                Err(e) => {
                    self.errors.push(e);
                    self.recover_to_newline();
                },
            }
            self.skip_newlines();
            assert(self.pos > before);
        }
        stmts
    }

    /// One statement (leading newlines skipped).
    pub(crate) fn parse_stmt(&mut self) -> (r: Result<Stmt, ParseError>)
        requires
            old(self).wf(),
        ensures
            final(self).evolves(*old(self)),
            r is Ok ==> final(self).pos > old(self).pos,
            ({
                let q = spec_skip_newlines(old(self).tokens@, old(self).pos as int);
                let k = old(self).tokens@[q].kind;
                &&& k is Break ==> (r matches Ok(Stmt::Break { .. }))
                &&& k is Continue ==> (r matches Ok(Stmt::Continue { .. }))
                &&& spec_atom_at(old(self).tokens@, q) matches Some(e) ==> (
                    r matches Ok(Stmt::Expr { expr: x, .. }) && x == e)
            }),
        decreases old(self).tokens@.len() - old(self).pos, 16int,
    {
        self.skip_newlines();
        let start = self.peek_span();

        if self.check_contextual("use") {
            return self.parse_use_stmt();
        }
        if self.check_contextual("bind") && self.peek_ahead_is_contextual(2, "to") {
            return self.parse_bind_to_stmt();
        }
        if self.check_contextual("yield") {
            return self.parse_yield_stmt();
        }
        if self.check(&TokenKind::HashIf) {
            return self.parse_preprocessor_stmt();
        }

        match self.peek_kind() {
            TokenKind::Val | TokenKind::Const | TokenKind::Fixed => self.parse_val_stmt(),
            TokenKind::Var => self.parse_var_stmt(),
            TokenKind::If => self.parse_if_stmt(),
            TokenKind::When => self.parse_when_stmt(),
            TokenKind::For => self.parse_for_stmt(),
            TokenKind::While => self.parse_while_stmt(),
            TokenKind::Return => self.parse_return_stmt(),
            TokenKind::Wait => self.parse_wait_stmt(),
            TokenKind::Start => {
                self.advance();
                let call = self.parse_expr()?;
                self.expect_newline_or_eof();
                let span = self.span_from(start);
                Ok(Stmt::Start { call, span })
            },
            TokenKind::Stop => {
                self.advance();
                let target = self.parse_expr()?;
                self.expect_newline_or_eof();
                let span = self.span_from(start);
                Ok(Stmt::Stop { target, span })
            },
            TokenKind::StopAll => {
                self.advance();
                self.expect(&TokenKind::LParen)?;
                self.expect(&TokenKind::RParen)?;
                self.expect_newline_or_eof();
                let span = self.span_from(start);
                Ok(Stmt::StopAll { span })
            },
            TokenKind::Listen => self.parse_listen_stmt(),
            TokenKind::Unlisten => self.parse_unlisten_stmt(),
            TokenKind::Intrinsic => {
                self.advance();
                let code = self.parse_raw_brace_block()?;
                let span = self.span_from(start);
                Ok(Stmt::IntrinsicBlock { code, span })
            },
            TokenKind::Break => {
                self.advance();
                self.expect_newline_or_eof();
                Ok(Stmt::Break { span: start })
            },
            TokenKind::Continue => {
                self.advance();
                self.expect_newline_or_eof();
                Ok(Stmt::Continue { span: start })
            },
            TokenKind::Try => self.parse_try_stmt(),
            TokenKind::Throw => self.parse_throw_stmt(),
            _ => self.parse_expr_or_assignment_stmt(),
        }
    }

    /// `val|const|fixed [ref] name[: Type] = expr`, the destructuring forms
    /// `val Type(a, b) = expr` and `val (a, b) = expr`, and `val name = listen .. manual {..}`.
    fn parse_val_stmt(&mut self) -> (r: Result<Stmt, ParseError>)
        requires
            old(self).wf(),
            !(old(self).cur() is Eof),
        ensures
            final(self).evolves(*old(self)),
            r is Ok ==> final(self).pos > old(self).pos,
            ({
                let t = old(self).tokens@;
                let p = old(self).pos as int;
                t[p + 1].kind is Identifier && t[p + 1].kind->Identifier_0@ != "ref"@ && p + 2 < t.len()
                    && t[p + 2].kind is Eq && spec_atom_at(t, p + 3) is Some ==> (
                    r matches Ok(Stmt::ValDecl { name: n, ty, init, is_ref, .. }) && n@ == t[p + 1].kind->Identifier_0@
                    && ty is None && Some(init) == spec_atom_at(t, p + 3) && !is_ref)
            }),
            ({
                let t = old(self).tokens@;
                let p = old(self).pos as int;
                t[p + 1].kind is Identifier && t[p + 1].kind->Identifier_0@ != "ref"@ && p + 4 < t.len()
                    && t[p + 2].kind is Colon && spec_simple_type_at(t, p + 3) && t[p + 4].kind is Eq
                    && spec_atom_at(t, p + 5) is Some ==> (
                    r matches Ok(Stmt::ValDecl { name: n, ty: Some(TypeRef::Simple { name: tn, nullable: q, .. }), init, is_ref, .. })
                    && n@ == t[p + 1].kind->Identifier_0@ && tn@ == t[p + 3].kind->Identifier_0@ && !q
                    && Some(init) == spec_atom_at(t, p + 5) && !is_ref)
            }),
            ({
                let t = old(self).tokens@;
                let p = old(self).pos as int;
                t[p + 1].kind is Identifier && t[p + 1].kind->Identifier_0@ != "ref"@ && p + 2 < t.len()
                    && t[p + 2].kind is Eq && spec_arith_at(t, p + 3) is Some
                    && (t[spec_arith_end(spec_arith_at(t, p + 3))].kind is Newline || t[spec_arith_end(spec_arith_at(t, p + 3))].kind is Eof) ==> (
                    r matches Ok(Stmt::ValDecl { name: n, ty, init, is_ref, .. }) && n@ == t[p + 1].kind->Identifier_0@
                    && ty is None && Some(init) == spec_arith_expr(spec_arith_at(t, p + 3)) && !is_ref
                    && final(self).errors@ == old(self).errors@)
            }),
        decreases old(self).tokens@.len() - old(self).pos, 1int,
    {
        let start = self.peek_span();
        self.advance();

        let is_ref = if self.check_contextual("ref") {
            self.advance();
            true
        } else {
            false
        };

        if !is_ref {
            match self.try_parse_binding_pattern()? {
                Some(bp) => {
                    self.expect(&TokenKind::Eq)?;
                    let init = self.parse_expr()?;
                    self.expect_newline_or_eof();
                    let pattern = DestructurePattern {
                        type_path: join_with_dots(&bp.path),
                        bindings: bp.bindings,
                        span: bp.span,
                    };
                    let span = self.span_from(start);
                    return Ok(Stmt::DestructureVal { pattern, init, span });
                },
                None => {},
            }

            if self.check(&TokenKind::LParen) {
                let pat_start = self.peek_span();
                let saved = self.pos;
                self.advance();
                let (bindings, ok) = self.parse_tuple_bindings();
                let mut matched = false;
                if ok {
                    if self.eat(&TokenKind::RParen) {
                        if self.check(&TokenKind::Eq) {
                            matched = true;
                        }
                    }
                }
                if matched {
                    self.advance();
                    let init = self.parse_expr()?;
                    self.expect_newline_or_eof();
                    let pspan = self.span_from(pat_start);
                    let span = self.span_from(start);
                    return Ok(Stmt::DestructureVal {
                        pattern: DestructurePattern { type_path: String::new(), bindings, span: pspan },
                        init,
                        span,
                    });
                }
                self.pos = saved;
            }
        }

        let (name, name_span) = self.expect_ident_or_keyword()?;
        let ty = if self.eat(&TokenKind::Colon) {
            Some(self.parse_type()?)
        } else {
            None
        };
        self.expect(&TokenKind::Eq)?;
        if !is_ref && self.check(&TokenKind::Listen) {
            let listen = self.parse_listen_stmt()?;
            let _ = ty;
            return match listen {
                Stmt::Listen { event, params, lifetime, bound_name: _, body, span } => {
                    if lifetime != ListenLifetime::Manual {
                        Err(ParseError {
                            message: owned("val binding for listen requires the 'manual' lifetime modifier"),
                            span: start,
                        })
                    } else {
                        Ok(Stmt::Listen { event, params, lifetime, bound_name: Some(name), body, span })
                    }
                },
                other => Ok(other),
            };
        }
        let init = if is_ref {
            let ref_start = self.peek_span();
            if self.check_contextual("ref") {
                self.advance();
            } else {
                return Err(self.error(owned("val ref binding must be initialized with `ref expr`")));
            }
            let inner = self.parse_expr()?;
            let rspan = self.span_from(ref_start);
            Expr::RefOf { inner: Box::new(inner), span: rspan }
        } else {
            self.parse_expr()?
        };
        self.expect_newline_or_eof();
        let span = self.span_from(start);
        Ok(Stmt::ValDecl { name, name_span, ty, init, is_ref, span })
    }

    /// The names of a tuple pattern `(a, _, b` after its `(`: identifiers or `_`, separated by
    /// commas. The flag is false when something else stands where a name should be.
    fn parse_tuple_bindings(&mut self) -> (r: (Vec<String>, bool))
        requires
            old(self).wf(),
        ensures
            final(self).evolves(*old(self)),
            final(self).errors == old(self).errors,
            ({
                let k = spec_kind_after_newlines(old(self).tokens@, old(self).pos as int);
                &&& k is Identifier ==> r.0@.len() >= 1 && r.0@[0]@ == k->Identifier_0@
                &&& !(k is Identifier) ==> r.0@.len() == 0 && !r.1
                    && final(self).pos == spec_skip_newlines(old(self).tokens@, old(self).pos as int)
            }),
    {
        let mut bindings: Vec<String> = Vec::new();
        let mut ok = true;
        loop
            invariant_except_break
                bindings@.len() == 0 ==> ok && spec_skip_newlines(self.tokens@, self.pos as int)
                    == spec_skip_newlines(old(self).tokens@, old(self).pos as int),
                bindings@.len() > 0 ==> ({
                    let k = spec_kind_after_newlines(old(self).tokens@, old(self).pos as int);
                    k is Identifier && bindings@[0]@ == k->Identifier_0@
                }),
            invariant
                self.evolves(*old(self)),
                self.errors == old(self).errors,
            ensures
                self.evolves(*old(self)),
                self.errors == old(self).errors,
                bindings@.len() == 0 ==> !ok && self.pos == spec_skip_newlines(old(self).tokens@, old(self).pos as int)
                    && !(spec_kind_after_newlines(old(self).tokens@, old(self).pos as int) is Identifier),
                bindings@.len() > 0 ==> ({
                    let k = spec_kind_after_newlines(old(self).tokens@, old(self).pos as int);
                    k is Identifier && bindings@[0]@ == k->Identifier_0@
                }),
            decreases self.tokens@.len() - self.pos,
        {
            self.skip_newlines();
            if self.check_contextual("_") {
                bindings.push(owned("_"));
                self.advance();
            } else {
                match self.peek_kind() {
                    TokenKind::Identifier(name) => {
                        bindings.push(name);
                        self.advance();
                    },
                    _ => {
                        ok = false;
                        break;
                    },
                }
            }
            self.skip_newlines();
            if !self.eat(&TokenKind::Comma) {
                break;
            }
        }
        (bindings, ok)
    }

    /// `var [ref] name[: Type] [= expr]`
    fn parse_var_stmt(&mut self) -> (r: Result<Stmt, ParseError>)
        requires
            old(self).wf(),
            old(self).cur() is Var,
        ensures
            final(self).evolves(*old(self)),
            r is Ok ==> final(self).pos > old(self).pos,
            ({
                let t = old(self).tokens@;
                let p = old(self).pos as int;
                t[p + 1].kind is Identifier && t[p + 1].kind->Identifier_0@ != "ref"@ && p + 2 < t.len() ==> {
                    &&& (t[p + 2].kind is Newline || t[p + 2].kind is Eof) ==> (
                        r matches Ok(Stmt::VarDecl { name: n, ty, init, is_ref, .. }) && n@ == t[p + 1].kind->Identifier_0@
                        && ty is None && init is None && !is_ref && final(self).errors@ == old(self).errors@)
                    &&& t[p + 2].kind is Eq && spec_atom_at(t, p + 3) is Some ==> (
                        r matches Ok(Stmt::VarDecl { name: n, ty, init, is_ref, .. }) && n@ == t[p + 1].kind->Identifier_0@
                        && ty is None && init == spec_atom_at(t, p + 3) && !is_ref)
                }
            }),
        decreases old(self).tokens@.len() - old(self).pos, 1int,
    {
        let start = self.peek_span();
        self.advance();
        let is_ref = if self.check_contextual("ref") {
            self.advance();
            true
        } else {
            false
        };
        let (name, name_span) = self.expect_ident_or_keyword()?;
        let ty = if self.eat(&TokenKind::Colon) {
            Some(self.parse_type()?)
        } else {
            None
        };
        let init = if self.eat(&TokenKind::Eq) {
            if is_ref {
                let ref_start = self.peek_span();
                if self.check_contextual("ref") {
                    self.advance();
                } else {
                    return Err(self.error(owned("var ref binding must be initialized with `ref expr`")));
                }
                let inner = self.parse_expr()?;
                let rspan = self.span_from(ref_start);
                Some(Expr::RefOf { inner: Box::new(inner), span: rspan })
            } else {
                Some(self.parse_expr()?)
            }
        } else {
            None
        };
        self.expect_newline_or_eof();
        let span = self.span_from(start);
        Ok(Stmt::VarDecl { name, name_span, ty, init, is_ref, span })
    }

    /// An expression in a control-flow head (`if`, `while`, `for`, `when`, `use`), where a
    /// following `{` is the body and not a trailing lambda argument.
    pub(crate) fn parse_condition_expr(&mut self) -> (r: Result<Expr, ParseError>)
        requires
            old(self).wf(),
        ensures
            final(self).evolves(*old(self)),
            r is Ok ==> final(self).pos > old(self).pos,
            final(self).no_trailing_lambda == old(self).no_trailing_lambda,
            spec_atom_at(old(self).tokens@, old(self).pos as int) matches Some(e) ==> r == Ok::<Expr, ParseError>(e)
                && final(self).pos == old(self).pos + 1 && final(self).errors@ == old(self).errors@,
        decreases old(self).tokens@.len() - old(self).pos, 15int,
    {
        let prev = self.no_trailing_lambda;
        self.no_trailing_lambda = true;
        let result = self.parse_expr();
        self.no_trailing_lambda = prev;
        result
    }

    /// `if cond { .. } [else (if .. | { .. })]`
    fn parse_if_stmt(&mut self) -> (r: Result<Stmt, ParseError>)
        requires
            old(self).wf(),
            !(old(self).cur() is Eof),
        ensures
            final(self).evolves(*old(self)),
            r is Ok ==> final(self).pos > old(self).pos,
            ({
                let t = old(self).tokens@;
                let p = old(self).pos as int;
                spec_simple_head_at(t, p) && !(t[spec_simple_head_end(t, p)].kind is Else) ==> (
                    r matches Ok(Stmt::If { cond: c, then_block: b, else_branch: eb, .. })
                    && Some(c) == spec_atom_at(t, p + 1) && b.stmts@.len() == 0 && eb is None
                    && final(self).pos == spec_simple_head_end(t, p) && final(self).errors@ == old(self).errors@)
            }),
        decreases old(self).tokens@.len() - old(self).pos, 1int,
    {
        let start = self.peek_span();
        self.advance();
        let cond = self.parse_condition_expr()?;
        self.skip_newlines();
        let then_block = self.parse_block()?;

        let else_branch = if self.eat(&TokenKind::Else) {
            self.skip_newlines();
            if self.check(&TokenKind::If) {
                let elif = self.parse_if_stmt()?;
                Some(ElseBranch::ElseIf(Box::new(elif)))
            } else {
                let block = self.parse_block()?;
                Some(ElseBranch::ElseBlock(block))
            }
        } else {
            None
        };

        let span = self.span_from(start);
        Ok(Stmt::If { cond, then_block, else_branch, span })
    }

    /// The `{ branches }` of a `when`, after its subject.
    pub(crate) fn parse_when_body(&mut self) -> (r: Result<Vec<WhenBranch>, ParseError>)
        requires
            old(self).wf(),
        ensures
            final(self).evolves(*old(self)),
            r is Ok ==> final(self).pos > old(self).pos,
            !(spec_kind_after_newlines(old(self).tokens@, old(self).pos as int) is LBrace) ==> r is Err,
            ({
                let t = old(self).tokens@;
                let q = spec_skip_newlines(t, old(self).pos as int);
                t[q].kind is LBrace && spec_kind_after_newlines(t, q + 1) is RBrace ==> (
                    r matches Ok(bs) && bs@.len() == 0 && final(self).pos == spec_skip_newlines(t, q + 1) + 1
                    && final(self).errors@ == old(self).errors@)
            }),
        decreases old(self).tokens@.len() - old(self).pos, 1int,
    {
        self.skip_newlines();
        self.expect(&TokenKind::LBrace)?;
        self.skip_newlines();

        let mut branches: Vec<WhenBranch> = Vec::new();
        while !self.check(&TokenKind::RBrace) && !self.check(&TokenKind::Eof)
            invariant
                self.evolves(*old(self)),
                self.pos > old(self).pos,
                ({
                    let t = old(self).tokens@;
                    let q = spec_skip_newlines(t, old(self).pos as int);
                    t[q].kind is LBrace && spec_kind_after_newlines(t, q + 1) is RBrace ==>
                        self.pos == spec_skip_newlines(t, q + 1) && branches@.len() == 0 && self.errors@ == old(self).errors@
                }),
            decreases self.tokens@.len() - self.pos,
        {
            let branch = self.parse_when_branch()?;
            branches.push(branch);
            self.skip_newlines();
        }
        self.expect(&TokenKind::RBrace)?;
        Ok(branches)
    }

    /// `when [subject] { pattern [if guard] => body .. }`
    fn parse_when_stmt(&mut self) -> (r: Result<Stmt, ParseError>)
        requires
            old(self).wf(),
            !(old(self).cur() is Eof),
        ensures
            final(self).evolves(*old(self)),
            r is Ok ==> final(self).pos > old(self).pos,
            ({
                let t = old(self).tokens@;
                let p = old(self).pos as int;
                &&& spec_simple_head_at(t, p) ==> (
                    r matches Ok(Stmt::When { subject: sj, branches: bs, .. }) && sj == spec_atom_at(t, p + 1) && bs@.len() == 0
                    && final(self).pos == spec_simple_head_end(t, p) && final(self).errors@ == old(self).errors@)
                &&& t[p + 1].kind is LBrace && spec_kind_after_newlines(t, p + 2) is RBrace ==> (
                    r matches Ok(Stmt::When { subject: sj, branches: bs, .. }) && sj is None && bs@.len() == 0
                    && final(self).pos == spec_skip_newlines(t, p + 2) + 1 && final(self).errors@ == old(self).errors@)
            }),
        decreases old(self).tokens@.len() - old(self).pos, 1int,
    {
        let start = self.peek_span();
        self.advance();

        let subject = if !self.check(&TokenKind::LBrace) && !self.check(&TokenKind::Newline) {
            Some(self.parse_condition_expr()?)
        } else {
            None
        };

        let branches = self.parse_when_body()?;
        let span = self.span_from(start);
        Ok(Stmt::When { subject, branches, span })
    }

    /// `for name in iterable { .. }`, also `for Type(a, b) in ..` and `for (k, v) in ..`.
    fn parse_for_stmt(&mut self) -> (r: Result<Stmt, ParseError>)
        requires
            old(self).wf(),
            !(old(self).cur() is Eof),
        ensures
            final(self).evolves(*old(self)),
            r is Ok ==> final(self).pos > old(self).pos,
        decreases old(self).tokens@.len() - old(self).pos, 1int,
    {
        let start = self.peek_span();
        self.advance();

        let for_pat = self.try_parse_binding_pattern()?;
        let (var_name, name_span, for_pattern) = match for_pat {
            Some(bp) => {
                let first = if bp.path.len() > 0 {
                    bp.path[0].clone()
                } else {
                    owned("_")
                };
                let type_path = join_with_dots(&bp.path);
                (first, bp.span, Some(DestructurePattern { type_path, bindings: bp.bindings, span: bp.span }))
            },
            None => {
                if self.check(&TokenKind::LParen) {
                    let pat_start = self.peek_span();
                    let saved = self.pos;
                    self.advance();
                    let (bindings, ok) = self.parse_tuple_bindings();
                    let mut matched = false;
                    if ok {
                        if self.eat(&TokenKind::RParen) {
                            if bindings.len() >= 2 {
                                matched = true;
                            }
                        }
                    }
                    if matched {
                        let pat_span = self.span_from(pat_start);
                        let first = bindings[0].clone();
                        (first, pat_span, Some(DestructurePattern { type_path: String::new(), bindings, span: pat_span }))
                    } else {
                        self.pos = saved;
                        let (n, s) = self.expect_ident()?;
                        (n, s, None)
                    }
                } else {
                    let (n, s) = self.expect_ident()?;
                    (n, s, None)
                }
            },
        };

        self.expect(&TokenKind::In)?;
        let iterable = self.parse_condition_expr()?;
        self.skip_newlines();
        let body = self.parse_block()?;
        let span = self.span_from(start);
        Ok(Stmt::For { var_name, name_span, for_pattern, iterable, body, span })
    }

    /// `while cond { .. }`
    fn parse_while_stmt(&mut self) -> (r: Result<Stmt, ParseError>)
        requires
            old(self).wf(),
            !(old(self).cur() is Eof),
        ensures
            final(self).evolves(*old(self)),
            r is Ok ==> final(self).pos > old(self).pos,
            ({
                let t = old(self).tokens@;
                let p = old(self).pos as int;
                spec_simple_head_at(t, p) ==> (
                    r matches Ok(Stmt::While { cond: c, body: b, .. })
                    && Some(c) == spec_atom_at(t, p + 1) && b.stmts@.len() == 0
                    && final(self).pos == spec_simple_head_end(t, p) && final(self).errors@ == old(self).errors@)
            }),
        decreases old(self).tokens@.len() - old(self).pos, 1int,
    {
        let start = self.peek_span();
        self.advance();
        let cond = self.parse_condition_expr()?;
        self.skip_newlines();
        let body = self.parse_block()?;
        let span = self.span_from(start);
        Ok(Stmt::While { cond, body, span })
    }

    /// `return [ref] [expr]`
    fn parse_return_stmt(&mut self) -> (r: Result<Stmt, ParseError>)
        requires
            old(self).wf(),
            !(old(self).cur() is Eof),
        ensures
            final(self).evolves(*old(self)),
            r is Ok ==> final(self).pos > old(self).pos,
            ({
                let next = old(self).tokens@[old(self).pos + 1].kind;
                &&& (next is Newline || next is Eof || next is RBrace) ==> (r matches Ok(Stmt::Return { value: v, is_ref: rf, .. })
                    && v is None && !rf && final(self).errors@ == old(self).errors@
                    && final(self).pos == if next is Newline { old(self).pos + 2 } else { old(self).pos + 1 })
                &&& spec_atom_at(old(self).tokens@, old(self).pos + 1) matches Some(e) ==> (
                    r matches Ok(Stmt::Return { value: v, is_ref: rf, .. }) && v == Some(e) && !rf)
            }),
        decreases old(self).tokens@.len() - old(self).pos, 1int,
    {
        let start = self.peek_span();
        self.advance();
        let is_ref = if self.check_contextual("ref") && !self.kind_at_is(1, &TokenKind::Newline)
            && !self.kind_at_is(1, &TokenKind::Eof) && !self.kind_at_is(1, &TokenKind::RBrace)
        {
            self.advance();
            true
        } else {
            false
        };
        let ends = matches!(self.peek(), TokenKind::Newline) || matches!(self.peek(), TokenKind::Eof)
            || matches!(self.peek(), TokenKind::RBrace);
        let value = if !ends {
            let inner = self.parse_expr()?;
            if is_ref {
                let span = self.span_from(start);
                Some(Expr::RefOf { inner: Box::new(inner), span })
            } else {
                Some(inner)
            }
        } else {
            None
        };
        self.expect_newline_or_eof();
        let span = self.span_from(start);
        Ok(Stmt::Return { value, is_ref, span })
    }

    /// `wait nextFrame | fixedFrame | until cond | while cond | 1.5s | expr`
    fn parse_wait_stmt(&mut self) -> (r: Result<Stmt, ParseError>)
        requires
            old(self).wf(),
            !(old(self).cur() is Eof),
        ensures
            final(self).evolves(*old(self)),
            r is Ok ==> final(self).pos > old(self).pos,
            ({
                let next = old(self).tokens@[old(self).pos + 1].kind;
                &&& next is NextFrame ==> (r matches Ok(Stmt::Wait { form: WaitForm::NextFrame, .. }))
                &&& next is FixedFrame ==> (r matches Ok(Stmt::Wait { form: WaitForm::FixedFrame, .. }))
                &&& next is DurationLiteral ==> (r matches Ok(Stmt::Wait { form: WaitForm::Duration(Expr::DurationLit(d, _)), .. })
                    && d == next->DurationLiteral_0)
                &&& !(next is DurationLiteral) ==> (spec_atom_at(old(self).tokens@, old(self).pos + 1) matches Some(e) ==> (
                    r matches Ok(Stmt::Wait { form: WaitForm::Duration(x), .. }) && x == e))
                &&& next is While ==> (r matches Ok(st) ==> st matches Stmt::Wait { form: WaitForm::While(_), .. })
                &&& next is Until ==> (r matches Ok(st) ==> st matches Stmt::Wait { form: WaitForm::Until(_), .. })
                &&& next is While && spec_arith_at(old(self).tokens@, old(self).pos + 2) is Some ==> (
                    r matches Ok(Stmt::Wait { form: WaitForm::While(c), .. })
                    && Some(c) == spec_arith_expr(spec_arith_at(old(self).tokens@, old(self).pos + 2)))
                &&& next is Until && spec_arith_at(old(self).tokens@, old(self).pos + 2) is Some ==> (
                    r matches Ok(Stmt::Wait { form: WaitForm::Until(c), .. })
                    && Some(c) == spec_arith_expr(spec_arith_at(old(self).tokens@, old(self).pos + 2)))
            }),
        decreases old(self).tokens@.len() - old(self).pos, 1int,
    {
        let start = self.peek_span();
        self.advance();

        let form = match self.peek_kind() {
            TokenKind::NextFrame => {
                self.advance();
                WaitForm::NextFrame
            },
            TokenKind::FixedFrame => {
                self.advance();
                WaitForm::FixedFrame
            },
            TokenKind::Until => {
                self.advance();
                let cond = self.parse_expr()?;
                WaitForm::Until(cond)
            },
            TokenKind::While => {
                self.advance();
                let cond = self.parse_expr()?;
                WaitForm::While(cond)
            },
            TokenKind::DurationLiteral(d) => {
                self.advance();
                WaitForm::Duration(Expr::DurationLit(d, self.peek_span()))
            },
            _ => {
                let expr = self.parse_expr()?;
                WaitForm::Duration(expr)
            },
        };

        self.expect_newline_or_eof();
        let span = self.span_from(start);
        Ok(Stmt::Wait { form, span })
    }

    /// `listen event [until disable | until destroy | manual] { [param =>] stmts }`
    pub(crate) fn parse_listen_stmt(&mut self) -> (r: Result<Stmt, ParseError>)
        requires
            old(self).wf(),
            !(old(self).cur() is Eof),
        ensures
            final(self).evolves(*old(self)),
            r is Ok ==> final(self).pos > old(self).pos,
        decreases old(self).tokens@.len() - old(self).pos, 1int,
    {
        let start = self.peek_span();
        self.advance();
        let prev = self.no_trailing_lambda;
        self.no_trailing_lambda = true;
        let event_result = self.parse_additive();
        self.no_trailing_lambda = prev;
        let event = event_result?;

        self.skip_newlines();
        let lifetime = match self.peek_kind() {
            TokenKind::Until => {
                self.advance();
                self.skip_newlines();
                if self.check_contextual("disable") {
                    self.advance();
                    ListenLifetime::UntilDisable
                } else if self.check_contextual("destroy") {
                    self.advance();
                    ListenLifetime::UntilDestroy
                } else {
                    let found = crate::text::debug_kind(self.peek());
                    let span = self.peek_span();
                    return Err(ParseError {
                        message: cat2("expected 'disable' or 'destroy' after 'until' in listen, got ", found.as_str()),
                        span,
                    });
                }
            },
            TokenKind::Manual => {
                self.advance();
                ListenLifetime::Manual
            },
            _ => ListenLifetime::Register,
        };

        self.skip_newlines();
        self.expect(&TokenKind::LBrace)?;
        self.skip_newlines();

        let mut params: Vec<String> = Vec::new();
        match self.peek_kind() {
            TokenKind::Identifier(name) => {
                let mut ahead = self.pos + 1;
                while ahead < self.tokens.len() && matches!(self.tokens[ahead].kind, TokenKind::Newline)
                    invariant
                        self.pos < ahead <= self.tokens@.len(),
                    decreases self.tokens@.len() - ahead,
                {
                    ahead = ahead + 1;
                }
                if ahead < self.tokens.len() && matches!(self.tokens[ahead].kind, TokenKind::FatArrow) {
                    params.push(name);
                    self.advance();
                    self.advance();
                    self.skip_newlines();
                }
            },
            _ => {},
        }

        let stmts = self.parse_stmts_until_brace();
        self.expect(&TokenKind::RBrace)?;

        let body_span = self.span_from(start);
        let body = Block { stmts, span: body_span };
        let span = self.span_from(start);
        Ok(Stmt::Listen { event, params, lifetime, bound_name: None, body, span })
    }

    /// `unlisten token`, also `this.token`, `a.b?.token!!`: the last name is the token.
    fn parse_unlisten_stmt(&mut self) -> (r: Result<Stmt, ParseError>)
        requires
            old(self).wf(),
            !(old(self).cur() is Eof),
        ensures
            final(self).evolves(*old(self)),
            r is Ok ==> final(self).pos > old(self).pos,
            !(spec_kind_after_newlines(old(self).tokens@, old(self).pos + 1) is Identifier
                || spec_kind_after_newlines(old(self).tokens@, old(self).pos + 1) is This) ==> r is Err,
            ({
                let t = old(self).tokens@;
                let q = spec_skip_newlines(t, old(self).pos + 1);
                q + 1 < t.len() && t[q].kind is Identifier
                    && !(t[q + 1].kind is Dot || t[q + 1].kind is QuestionDot || t[q + 1].kind is BangBang) ==> (
                    r matches Ok(Stmt::Unlisten { token: tk, .. }) && tk@ == t[q].kind->Identifier_0@)
            }),
    {
        let start = self.peek_span();
        self.advance();
        self.skip_newlines();
        let base_name = match self.peek_kind() {
            TokenKind::Identifier(n) => {
                self.advance();
                n
            },
            TokenKind::This => {
                self.advance();
                if !self.eat(&TokenKind::Dot) {
                    return Err(ParseError {
                        message: owned("expected `.` after `this` in `unlisten`"),
                        span: self.peek_span(),
                    });
                }
                let (n, _s) = self.expect_ident()?;
                n
            },
            other => {
                let found = crate::text::debug_kind(&other);
                return Err(ParseError {
                    message: cat2("expected identifier after 'unlisten', got ", found.as_str()),
                    span: self.peek_span(),
                });
            },
        };
        let mut token = base_name;
        loop
            invariant
                self.evolves(*old(self)),
                self.pos > old(self).pos,
                ({
                        let t = old(self).tokens@;
                        let q = spec_skip_newlines(t, old(self).pos + 1);
                        q + 1 < t.len() && t[q].kind is Identifier
                            && !(t[q + 1].kind is Dot || t[q + 1].kind is QuestionDot || t[q + 1].kind is BangBang)
                    }) ==> ({
                    let t = old(self).tokens@;
                    let q = spec_skip_newlines(t, old(self).pos + 1);
                    self.pos == q + 1 && token@ == t[q].kind->Identifier_0@
                }),
            decreases self.tokens@.len() - self.pos,
        {
            match self.peek_kind() {
                TokenKind::Dot | TokenKind::QuestionDot => {
                    self.advance();
                    let (next, _s) = self.expect_ident()?;
                    token = next;
                },
                TokenKind::BangBang => {
                    self.advance();
                },
                _ => {
                    break;
                },
            }
        }
        self.expect_newline_or_eof();
        let span = self.span_from(start);
        Ok(Stmt::Unlisten { token, span })
    }

    /// `catch (name: Type) { .. }` clauses, as many as follow.
    pub(crate) fn parse_catch_clauses(&mut self) -> (r: Result<Vec<CatchClause>, ParseError>)
        requires
            old(self).wf(),
        ensures
            final(self).evolves(*old(self)),
            r matches Ok(cs) ==> (cs@.len() > 0 ==> final(self).pos > old(self).pos),
            r matches Ok(cs) ==> (cs@.len() == 0 <==> !(old(self).cur() is Catch)),
            !(old(self).cur() is Catch) ==> (r matches Ok(cs) && cs@.len() == 0 && final(self).pos == old(self).pos
                && final(self).errors@ == old(self).errors@),
            spec_single_catch_at(old(self).tokens@, old(self).pos as int) ==> (r matches Ok(cs) && cs@.len() == 1
                && cs@[0].name@ == old(self).tokens@[old(self).pos + 2].kind->Identifier_0@
                && final(self).pos == old(self).pos + 8 && final(self).errors@ == old(self).errors@),
            r is Ok ==> !(final(self).cur() is Catch),
        decreases old(self).tokens@.len() - old(self).pos, 1int,
    {
        let mut catches: Vec<CatchClause> = Vec::new();
        while self.check(&TokenKind::Catch)
            invariant
                self.evolves(*old(self)),
                catches@.len() > 0 ==> self.pos > old(self).pos && old(self).cur() is Catch,
                catches@.len() == 0 ==> self.pos == old(self).pos && self.errors@ == old(self).errors@,
                spec_single_catch_at(old(self).tokens@, old(self).pos as int) ==> self.errors@ == old(self).errors@ && (
                    (catches@.len() == 0 && self.pos == old(self).pos) || (catches@.len() == 1 && self.pos == old(self).pos + 8
                    && catches@[0].name@ == old(self).tokens@[old(self).pos + 2].kind->Identifier_0@)),
            decreases self.tokens@.len() - self.pos,
        {
            let catch_start = self.peek_span();
            self.advance();
            self.expect(&TokenKind::LParen)?;
            let (name, _s) = self.expect_ident()?;
            self.expect(&TokenKind::Colon)?;
            let ty = self.parse_type()?;
            self.expect(&TokenKind::RParen)?;
            self.skip_newlines();
            let body = self.parse_block()?;
            let span = self.span_from(catch_start);
            catches.push(CatchClause { name, ty, body, span });
        }
        Ok(catches)
    }

    /// `try { .. } catch (e: T) { .. } .. [finally { .. }]`
    fn parse_try_stmt(&mut self) -> (r: Result<Stmt, ParseError>)
        requires
            old(self).wf(),
            !(old(self).cur() is Eof),
        ensures
            final(self).evolves(*old(self)),
            r is Ok ==> final(self).pos > old(self).pos,
            ({
                let t = old(self).tokens@;
                let p = old(self).pos as int;
                &&& t[p + 1].kind is LBrace && p + 3 < t.len() && t[p + 2].kind is RBrace
                    && !(t[p + 3].kind is Catch || t[p + 3].kind is Finally) ==> (
                    r matches Ok(Stmt::Try { try_block: b, catches: cs, finally_block: f, .. }) && b.stmts@.len() == 0
                    && cs@.len() == 0 && f is None && final(self).pos == p + 3 && final(self).errors@ == old(self).errors@)
                &&& t[p + 1].kind is LBrace && p + 2 < t.len() && t[p + 2].kind is RBrace && spec_single_catch_at(t, p + 3)
                    && !(t[p + 11].kind is Finally) ==> (
                    r matches Ok(Stmt::Try { try_block: b, catches: cs, finally_block: f, .. }) && b.stmts@.len() == 0
                    && cs@.len() == 1 && f is None && final(self).pos == p + 11 && final(self).errors@ == old(self).errors@)
            }),
        decreases old(self).tokens@.len() - old(self).pos, 1int,
    {
        let start = self.peek_span();
        self.advance();
        self.skip_newlines();
        let try_block = self.parse_block()?;

        let catches = self.parse_catch_clauses()?;

        let finally_block = if self.check(&TokenKind::Finally) {
            self.advance();
            self.skip_newlines();
            Some(self.parse_block()?)
        } else {
            None
        };

        let span = self.span_from(start);
        Ok(Stmt::Try { try_block, catches, finally_block, span })
    }

    /// `throw expr`
    fn parse_throw_stmt(&mut self) -> (r: Result<Stmt, ParseError>)
        requires
            old(self).wf(),
            !(old(self).cur() is Eof),
        ensures
            final(self).evolves(*old(self)),
            r is Ok ==> final(self).pos > old(self).pos,
        decreases old(self).tokens@.len() - old(self).pos, 1int,
    {
        let start = self.peek_span();
        self.advance();
        let expr = self.parse_expr()?;
        self.expect_newline_or_eof();
        let span = self.span_from(start);
        Ok(Stmt::Throw { expr, span })
    }

    /// `yield expr` or `yield break`
    fn parse_yield_stmt(&mut self) -> (r: Result<Stmt, ParseError>)
        requires
            old(self).wf(),
            old(self).cur() is Identifier,
            old(self).cur()->Identifier_0@ == "yield"@,
        ensures
            final(self).evolves(*old(self)),
            r is Ok ==> final(self).pos > old(self).pos,
            old(self).tokens@[old(self).pos + 1].kind is Break ==> (r matches Ok(Stmt::YieldBreak { .. })),
            spec_atom_at(old(self).tokens@, old(self).pos + 1) matches Some(e) ==> (
                r matches Ok(Stmt::Yield { value: v, .. }) && v == e),
        decreases old(self).tokens@.len() - old(self).pos, 1int,
    {
        let start = self.peek_span();
        let _ = self.eat_contextual("yield");
        if self.check(&TokenKind::Break) {
            self.advance();
            self.expect_newline_or_eof();
            let span = self.span_from(start);
            return Ok(Stmt::YieldBreak { span });
        }
        let value = self.parse_expr()?;
        self.expect_newline_or_eof();
        let span = self.span_from(start);
        Ok(Stmt::Yield { value, span })
    }

    /// `#if cond .. [#elif cond ..].. [#else ..] #endif`; a missing `#endif` is reported
    /// (E151) and the block is kept.
    fn parse_preprocessor_stmt(&mut self) -> (r: Result<Stmt, ParseError>)
        requires
            old(self).wf(),
        ensures
            final(self).evolves(*old(self)),
            r is Ok ==> final(self).pos > old(self).pos,
        decreases old(self).tokens@.len() - old(self).pos, 1int,
    {
        let start = self.peek_span();
        self.expect(&TokenKind::HashIf)?;
        let first_cond = self.parse_preprocessor_cond()?;
        self.expect_newline_or_eof();
        let first_body = self.parse_preprocessor_arm_body()?;
        let mut arms: Vec<PreprocessorArm> = vec![PreprocessorArm { cond: first_cond, body: first_body, span: start }];
        while self.check(&TokenKind::HashElif)
            invariant
                self.evolves(*old(self)),
                self.pos > old(self).pos,
            decreases self.tokens@.len() - self.pos,
        {
            let arm_start = self.peek_span();
            self.advance();
            let cond = self.parse_preprocessor_cond()?;
            self.expect_newline_or_eof();
            let body = self.parse_preprocessor_arm_body()?;
            arms.push(PreprocessorArm { cond, body, span: arm_start });
        }
        let else_arm = if self.check(&TokenKind::HashElse) {
            self.advance();
            self.expect_newline_or_eof();
            Some(self.parse_preprocessor_arm_body()?)
        } else {
            None
        };
        if !self.check(&TokenKind::HashEndif) {
            self.errors.push(ParseError {
                message: owned("E151: unterminated '#if' block — expected '#endif'"),
                span: start,
            });
        } else {
            self.advance();
            self.expect_newline_or_eof();
        }
        let span = self.span_from(start);
        Ok(Stmt::Preprocessor { arms, else_arm, span })
    }

    /// The statements of one preprocessor arm, up to `#elif`, `#else`, `#endif` or the end.
    fn parse_preprocessor_arm_body(&mut self) -> (r: Result<Vec<Stmt>, ParseError>)
        requires
            old(self).wf(),
        ensures
            final(self).evolves(*old(self)),
            ({
                let k = spec_kind_after_newlines(old(self).tokens@, old(self).pos as int);
                let closes = k is HashElif || k is HashElse || k is HashEndif || k is Eof;
                &&& closes ==> (r matches Ok(v) && v@.len() == 0
                    && final(self).pos == spec_skip_newlines(old(self).tokens@, old(self).pos as int)
                    && final(self).errors@ == old(self).errors@)
                &&& r matches Ok(v) ==> (v@.len() == 0 <==> closes)
                &&& r is Ok ==> (final(self).cur() is HashElif || final(self).cur() is HashElse
                    || final(self).cur() is HashEndif || final(self).cur() is Eof)
            }),
        decreases old(self).tokens@.len() - old(self).pos, 17int,
    {
        let mut stmts: Vec<Stmt> = Vec::new();
        loop
            invariant
                self.evolves(*old(self)),
                stmts@.len() == 0 ==> spec_skip_newlines(self.tokens@, self.pos as int)
                    == spec_skip_newlines(old(self).tokens@, old(self).pos as int) && self.errors@ == old(self).errors@,
                stmts@.len() > 0 ==> !({
                    let k = spec_kind_after_newlines(old(self).tokens@, old(self).pos as int);
                    k is HashElif || k is HashElse || k is HashEndif || k is Eof
                }),
            ensures
                self.evolves(*old(self)),
                stmts@.len() == 0 ==> self.pos == spec_skip_newlines(old(self).tokens@, old(self).pos as int)
                    && self.errors@ == old(self).errors@,
                self.cur() is HashElif || self.cur() is HashElse || self.cur() is HashEndif || self.cur() is Eof,
            decreases self.tokens@.len() - self.pos,
        {
            self.skip_newlines();
            if self.check(&TokenKind::HashElif) || self.check(&TokenKind::HashElse)
                || self.check(&TokenKind::HashEndif) || self.check(&TokenKind::Eof)
            {
                break;
            }
            let stmt = self.parse_stmt()?;
            stmts.push(stmt);
        }
        Ok(stmts)
    }

    /// A preprocessor condition: `||` of `&&` of `!`-prefixed symbols and parenthesized
    /// conditions.
    fn parse_preprocessor_cond(&mut self) -> (r: Result<PreprocessorCond, ParseError>)
        requires
            old(self).wf(),
        ensures
            final(self).evolves(*old(self)),
            r is Ok ==> final(self).pos > old(self).pos,
    {
        self.parse_pp_or()
    }

    fn parse_pp_or(&mut self) -> (r: Result<PreprocessorCond, ParseError>)
        requires
            old(self).wf(),
        ensures
            final(self).evolves(*old(self)),
            r is Ok ==> final(self).pos > old(self).pos,
            old(self).cur() is Identifier && !(old(self).tokens@[old(self).pos + 1].kind is AmpAmp
                || old(self).tokens@[old(self).pos + 1].kind is PipePipe) ==> (
                r matches Ok(PreprocessorCond::Symbol { name: n, .. }) && n@ == old(self).cur()->Identifier_0@
                && final(self).pos == old(self).pos + 1 && final(self).errors@ == old(self).errors@),
            !(old(self).cur() is Identifier || old(self).cur() is LParen || old(self).cur() is Bang) ==> (
                r is Err && final(self).pos == old(self).pos && final(self).errors@ == old(self).errors@),
        decreases old(self).tokens@.len() - old(self).pos, 4int,
    {
        let mut left = self.parse_pp_and()?;
        while self.check(&TokenKind::PipePipe)
            invariant
                self.evolves(*old(self)),
                self.pos > old(self).pos,
                old(self).cur() is Identifier && !(old(self).tokens@[old(self).pos + 1].kind is AmpAmp
                    || old(self).tokens@[old(self).pos + 1].kind is PipePipe) ==> (
                    left matches PreprocessorCond::Symbol { name: n, .. } && n@ == old(self).cur()->Identifier_0@
                    && self.pos == old(self).pos + 1 && self.errors@ == old(self).errors@),
                old(self).cur() is Identifier || old(self).cur() is LParen || old(self).cur() is Bang,
            decreases self.tokens@.len() - self.pos,
        {
            self.advance();
            let right = self.parse_pp_and()?;
            let span = pp_cond_span(&left);
            left = PreprocessorCond::Or { left: Box::new(left), right: Box::new(right), span };
        }
        Ok(left)
    }

    fn parse_pp_and(&mut self) -> (r: Result<PreprocessorCond, ParseError>)
        requires
            old(self).wf(),
        ensures
            final(self).evolves(*old(self)),
            r is Ok ==> final(self).pos > old(self).pos,
            old(self).cur() is Identifier && !(old(self).tokens@[old(self).pos + 1].kind is AmpAmp
                || old(self).tokens@[old(self).pos + 1].kind is PipePipe) ==> (
                r matches Ok(PreprocessorCond::Symbol { name: n, .. }) && n@ == old(self).cur()->Identifier_0@
                && final(self).pos == old(self).pos + 1 && final(self).errors@ == old(self).errors@),
            !(old(self).cur() is Identifier || old(self).cur() is LParen || old(self).cur() is Bang) ==> (
                r is Err && final(self).pos == old(self).pos && final(self).errors@ == old(self).errors@),
        decreases old(self).tokens@.len() - old(self).pos, 3int,
    {
        let mut left = self.parse_pp_not()?;
        while self.check(&TokenKind::AmpAmp)
            invariant
                self.evolves(*old(self)),
                self.pos > old(self).pos,
                old(self).cur() is Identifier && !(old(self).tokens@[old(self).pos + 1].kind is AmpAmp
                    || old(self).tokens@[old(self).pos + 1].kind is PipePipe) ==> (
                    left matches PreprocessorCond::Symbol { name: n, .. } && n@ == old(self).cur()->Identifier_0@
                    && self.pos == old(self).pos + 1 && self.errors@ == old(self).errors@),
                old(self).cur() is Identifier || old(self).cur() is LParen || old(self).cur() is Bang,
            decreases self.tokens@.len() - self.pos,
        {
            self.advance();
            let right = self.parse_pp_not()?;
            let span = pp_cond_span(&left);
            left = PreprocessorCond::And { left: Box::new(left), right: Box::new(right), span };
        }
        Ok(left)
    }

    fn parse_pp_not(&mut self) -> (r: Result<PreprocessorCond, ParseError>)
        requires
            old(self).wf(),
        ensures
            final(self).evolves(*old(self)),
            r is Ok ==> final(self).pos > old(self).pos,
            old(self).cur() is Identifier && !(old(self).tokens@[old(self).pos + 1].kind is AmpAmp
                || old(self).tokens@[old(self).pos + 1].kind is PipePipe) ==> (
                r matches Ok(PreprocessorCond::Symbol { name: n, .. }) && n@ == old(self).cur()->Identifier_0@
                && final(self).pos == old(self).pos + 1 && final(self).errors@ == old(self).errors@),
            !(old(self).cur() is Identifier || old(self).cur() is LParen || old(self).cur() is Bang) ==> (
                r is Err && final(self).pos == old(self).pos && final(self).errors@ == old(self).errors@),
        decreases old(self).tokens@.len() - old(self).pos, 2int,
    {
        if self.check(&TokenKind::Bang) {
            let start = self.peek_span();
            self.advance();
            let inner = self.parse_pp_not()?;
            return Ok(PreprocessorCond::Not { inner: Box::new(inner), span: start });
        }
        self.parse_pp_atom()
    }

    fn parse_pp_atom(&mut self) -> (r: Result<PreprocessorCond, ParseError>)
        requires
            old(self).wf(),
        ensures
            final(self).evolves(*old(self)),
            r is Ok ==> final(self).pos > old(self).pos,
            old(self).cur() is Identifier && !(old(self).tokens@[old(self).pos + 1].kind is AmpAmp
                || old(self).tokens@[old(self).pos + 1].kind is PipePipe) ==> (
                r matches Ok(PreprocessorCond::Symbol { name: n, .. }) && n@ == old(self).cur()->Identifier_0@
                && final(self).pos == old(self).pos + 1 && final(self).errors@ == old(self).errors@),
            !(old(self).cur() is Identifier || old(self).cur() is LParen || old(self).cur() is Bang) ==> (
                r is Err && final(self).pos == old(self).pos && final(self).errors@ == old(self).errors@),
        decreases old(self).tokens@.len() - old(self).pos, 1int,
    {
        if self.eat(&TokenKind::LParen) {
            let inner = self.parse_pp_or()?;
            self.expect(&TokenKind::RParen)?;
            return Ok(inner);
        }
        let span = self.peek_span();
        let name = match self.peek_kind() {
            TokenKind::Identifier(name) => {
                self.advance();
                name
            },
            _ => {
                return Err(self.error_found("Expected preprocessor symbol identifier, found "));
            },
        };
        Ok(PreprocessorCond::Symbol { name, span })
    }

    /// `use val name[: Type] = expr` or `use name[: Type] = expr [{ .. }]`
    fn parse_use_stmt(&mut self) -> (r: Result<Stmt, ParseError>)
        requires
            old(self).wf(),
            old(self).cur() is Identifier,
            old(self).cur()->Identifier_0@ == "use"@,
        ensures
            final(self).evolves(*old(self)),
            r is Ok ==> final(self).pos > old(self).pos,
            ({
                let t = old(self).tokens@;
                let p = old(self).pos as int;
                p + 3 < t.len() && t[p + 1].kind is Val && t[p + 2].kind is Identifier && t[p + 3].kind is Eq
                    && spec_atom_at(t, p + 4) is Some ==> (
                    r matches Ok(Stmt::Use { name: n, ty, init, body, .. }) && n@ == t[p + 2].kind->Identifier_0@
                    && ty is None && Some(init) == spec_atom_at(t, p + 4) && body is None)
            }),
        decreases old(self).tokens@.len() - old(self).pos, 1int,
    {
        let start = self.peek_span();
        let _ = self.eat_contextual("use");
        let has_val = self.eat(&TokenKind::Val);

        let (name, name_span) = self.expect_ident()?;
        let ty = if self.eat(&TokenKind::Colon) {
            Some(self.parse_type()?)
        } else {
            None
        };
        self.expect(&TokenKind::Eq)?;
        let init = self.parse_condition_expr()?;

        let body = if has_val {
            self.expect_newline_or_eof();
            None
        } else {
            self.skip_newlines();
            if self.check(&TokenKind::LBrace) {
                Some(self.parse_block()?)
            } else {
                self.expect_newline_or_eof();
                None
            }
        };

        let span = self.span_from(start);
        Ok(Stmt::Use { name, name_span, ty, init, body, span })
    }

    /// `bind source to target`
    fn parse_bind_to_stmt(&mut self) -> (r: Result<Stmt, ParseError>)
        requires
            old(self).wf(),
        ensures
            final(self).evolves(*old(self)),
            r is Ok ==> final(self).pos > old(self).pos,
            !(old(self).cur() is Identifier && old(self).cur()->Identifier_0@ == "bind"@) ==> (r is Err
                && final(self).pos == old(self).pos && final(self).errors@ == old(self).errors@),
            ({
                let t = old(self).tokens@;
                let p = old(self).pos as int;
                t[p].kind is Identifier && t[p].kind->Identifier_0@ == "bind"@ && t[p + 1].kind is Identifier
                    && p + 2 < t.len() && t[p + 2].kind is Identifier && t[p + 2].kind->Identifier_0@ == "to"@
                    && spec_atom_at(t, p + 3) is Some ==> (
                    r matches Ok(Stmt::BindTo { source: s, target: x, .. }) && s@ == t[p + 1].kind->Identifier_0@
                    && Some(x) == spec_atom_at(t, p + 3))
            }),
        decreases old(self).tokens@.len() - old(self).pos, 1int,
    {
        let start = self.peek_span();
        if self.eat_contextual("bind").is_none() {
            return Err(self.error(owned("Expected 'bind'")));
        }
        let (source, source_span) = self.expect_ident()?;
        if self.eat_contextual("to").is_none() {
            return Err(self.error(owned("Expected 'to' in bind statement")));
        }
        let target = self.parse_expr()?;
        self.expect_newline_or_eof();
        let span = self.span_from(start);
        Ok(Stmt::BindTo { source, source_span, target, span })
    }

    /// An expression statement, or an assignment `target op= value`.
    fn parse_expr_or_assignment_stmt(&mut self) -> (r: Result<Stmt, ParseError>)
        requires
            old(self).wf(),
        ensures
            final(self).evolves(*old(self)),
            r is Ok ==> final(self).pos > old(self).pos,
            spec_atom_at(old(self).tokens@, old(self).pos as int) matches Some(e) ==> (
                r matches Ok(Stmt::Expr { expr: x, .. }) && x == e
                && final(self).pos == old(self).pos + if old(self).tokens@[old(self).pos + 1].kind is Newline { 2int } else { 1int }
                && (old(self).tokens@[old(self).pos + 1].kind is Eof ==> final(self).errors@ == old(self).errors@)),
        decreases old(self).tokens@.len() - old(self).pos, 15int,
    {
        let start = self.peek_span();
        let expr = self.parse_expr()?;

        let assign_op = match self.peek() {
            TokenKind::Eq => Some(AssignOp::Assign),
            TokenKind::PlusEq => Some(AssignOp::PlusAssign),
            TokenKind::MinusEq => Some(AssignOp::MinusAssign),
            TokenKind::StarEq => Some(AssignOp::StarAssign),
            TokenKind::SlashEq => Some(AssignOp::SlashAssign),
            TokenKind::PercentEq => Some(AssignOp::ModAssign),
            TokenKind::ElvisAssign => Some(AssignOp::NullCoalesceAssign),
            _ => None,
        };

        match assign_op {
            Some(op) => {
                self.advance();
                let value = self.parse_expr()?;
                self.expect_newline_or_eof();
                let span = self.span_from(start);
                Ok(Stmt::Assignment { target: expr, op, value, span })
            },
            None => {
                self.expect_newline_or_eof();
                let span = self.span_from(start);
                Ok(Stmt::Expr { expr, span })
            },
        }
    }
}

} // verus!
