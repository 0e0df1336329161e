//! Type references and parameter lists.
use vstd::prelude::*;
use crate::token::{Span, Token, TokenKind, spec_keyword_text};
use crate::ast::{TypeRef, Param, ParamMod};
use super::{Parser, ParseError, spec_skip_newlines, spec_kind_after_newlines};

verus! {

broadcast use crate::token::lemma_kind_tag_inverse;

/// A token that may name a parameter: an identifier or a keyword.
pub open spec fn spec_names_param(k: TokenKind) -> bool {
    k is Identifier || spec_keyword_text(k) is Some
}

/// At `p` stands a plain type name: an identifier that no `.` or `<` follows.
pub open spec fn spec_simple_type_at(tokens: Seq<Token>, p: int) -> bool {
    0 <= p && p + 1 < tokens.len() && tokens[p].kind is Identifier
        && !(tokens[p + 1].kind is Dot || tokens[p + 1].kind is Lt)
}

/// Type arguments from `k` on that are plain names: `A, B, .. >`. The index of the closing
/// `>`, or `-1` where the arguments are not of that shape.
pub open spec fn spec_simple_args_end(tokens: Seq<Token>, k: int) -> int
    decreases tokens.len() - k,
{
    if 0 <= k && k + 1 < tokens.len() && tokens[k].kind is Identifier {
        if tokens[k + 1].kind is Gt {
            k + 1
        } else if tokens[k + 1].kind is Comma {
            spec_simple_args_end(tokens, k + 2)
        } else {
            -1
        }
    } else {
        -1
    }
}

/// The closing `>` of plain type arguments comes after them.
pub proof fn lemma_simple_args_end(tokens: Seq<Token>, k: int)
    requires
        spec_simple_args_end(tokens, k) >= 0,
    ensures
        k < spec_simple_args_end(tokens, k) < tokens.len(),
        (spec_simple_args_end(tokens, k) - k) % 2 == 1,
        tokens[spec_simple_args_end(tokens, k)].kind is Gt,
    decreases tokens.len() - k,
{
    if !(tokens[k + 1].kind is Gt) {
        lemma_simple_args_end(tokens, k + 2);
    }
}

/// A list of plain type names from `k` on: `A, B, .. )`. The index of the closing `)`, or
/// `-1` where the list is not of that shape.
pub open spec fn spec_simple_list_end(tokens: Seq<Token>, k: int) -> int
    decreases tokens.len() - k,
{
    if 0 <= k && k + 1 < tokens.len() && tokens[k].kind is Identifier {
        if tokens[k + 1].kind is RParen {
            k + 1
        } else if tokens[k + 1].kind is Comma {
            spec_simple_list_end(tokens, k + 2)
        } else {
            -1
        }
    } else {
        -1
    }
}

/// The closing `)` of a list of plain type names comes after them.
pub proof fn lemma_simple_list_end(tokens: Seq<Token>, k: int)
    requires
        spec_simple_list_end(tokens, k) >= 0,
    ensures
        k < spec_simple_list_end(tokens, k) < tokens.len(),
        (spec_simple_list_end(tokens, k) - k) % 2 == 1,
        tokens[spec_simple_list_end(tokens, k)].kind is RParen,
    decreases tokens.len() - k,
{
    if !(tokens[k + 1].kind is RParen) {
        lemma_simple_list_end(tokens, k + 2);
    }
}

/// At `p` stands `(A, B, ..)`: plain type names in parentheses.
pub open spec fn spec_simple_tuple_at(tokens: Seq<Token>, p: int) -> bool {
    0 <= p && p + 1 < tokens.len() && tokens[p].kind is LParen && spec_simple_list_end(tokens, p + 1) >= 0
}

/// `tys` are the plain, non-nullable types named at `k`, `k + 2`, `k + 4`, ...
pub open spec fn spec_simple_types_from(tys: Seq<TypeRef>, tokens: Seq<Token>, k: int) -> bool {
    forall|i: int| 0 <= i < tys.len() ==> spec_is_simple_type(#[trigger] tys[i], tokens[k + 2 * i].kind->Identifier_0@, false)
}

/// At `p` stands a generic type over plain names, `Name<A, B, ..>`.
pub open spec fn spec_simple_generic_at(tokens: Seq<Token>, p: int) -> bool {
    0 <= p && p + 2 < tokens.len() && tokens[p].kind is Identifier && tokens[p + 1].kind is Lt
        && spec_simple_args_end(tokens, p + 2) >= 0
}

/// `ty` is the plain type `name`, nullable or not.
pub open spec fn spec_is_simple_type(ty: TypeRef, name: Seq<char>, nullable: bool) -> bool {
    ty matches TypeRef::Simple { name: n, nullable: q, .. } && n@ == name && q == nullable
}

impl Parser {
    /// One tuple-type element, `name: Type` or `Type`.
    fn parse_tuple_element_type(&mut self) -> (r: Result<(Option<String>, TypeRef), ParseError>)
        requires
            old(self).wf(),
        ensures
            final(self).evolves(*old(self)),
            r is Ok ==> final(self).pos > old(self).pos,
            !(old(self).cur() is LParen || old(self).cur() is Identifier) ==> (r is Err
                && final(self).pos == old(self).pos && final(self).errors@ == old(self).errors@),
            spec_simple_type_at(old(self).tokens@, old(self).pos as int)
                && !(old(self).tokens@[old(self).pos + 1].kind is Colon) ==> (
                r matches Ok((nm, TypeRef::Simple { name: n, .. })) && nm is None && n@ == old(self).cur()->Identifier_0@),
            old(self).cur() is Identifier && old(self).tokens@[old(self).pos + 1].kind is Colon
                && spec_simple_type_at(old(self).tokens@, old(self).pos + 2) ==> (
                r matches Ok((nm, TypeRef::Simple { name: n, .. })) && nm matches Some(x)
                && x@ == old(self).cur()->Identifier_0@ && n@ == old(self).tokens@[old(self).pos + 2].kind->Identifier_0@),
            ({
                let t = old(self).tokens@;
                let p = old(self).pos as int;
                p + 1 < t.len() && t[p].kind is Identifier && (t[p + 1].kind is Comma || t[p + 1].kind is RParen) ==> (
                    r matches Ok((nm, ty)) && nm is None && spec_is_simple_type(ty, t[p].kind->Identifier_0@, false)
                    && final(self).pos == p + 1 && final(self).errors@ == old(self).errors@)
            }),
        decreases old(self).tokens@.len() - old(self).pos, 2int,
    {
        let is_named = matches!(self.peek(), TokenKind::Identifier(_)) && self.kind_at_is(1, &TokenKind::Colon);
        if is_named {
            let (name, _s) = self.expect_ident()?;
            self.expect(&TokenKind::Colon)?;
            let ty = self.parse_type()?;
            Ok((Some(name), ty))
        } else {
            let ty = self.parse_type()?;
            Ok((None, ty))
        }
    }

    /// A type: `Name[?]`, `Q.Name[?]`, `Name<T, ..>[?]`, a tuple `(A, b: B)[?]`, or a
    /// function type `(A, B) => R[?]` / `() => R[?]`.
    pub(crate) fn parse_type(&mut self) -> (r: Result<TypeRef, ParseError>)
        requires
            old(self).wf(),
        ensures
            final(self).evolves(*old(self)),
            r is Ok ==> final(self).pos > old(self).pos,
            r is Ok ==> old(self).cur() is LParen || old(self).cur() is Identifier,
            !(old(self).cur() is LParen || old(self).cur() is Identifier) ==> (r is Err
                && final(self).pos == old(self).pos && final(self).errors@ == old(self).errors@),
            spec_simple_type_at(old(self).tokens@, old(self).pos as int) ==> ({
                let next = old(self).tokens@[old(self).pos + 1].kind;
                r matches Ok(TypeRef::Simple { name: n, nullable: q, .. }) && n@ == old(self).cur()->Identifier_0@
                    && q == (next is Question) && final(self).errors@ == old(self).errors@
                    && final(self).pos == old(self).pos + if next is Question { 2int } else { 1int }
            }),
            spec_simple_generic_at(old(self).tokens@, old(self).pos as int) ==> ({
                let t = old(self).tokens@;
                let p = old(self).pos as int;
                let g = spec_simple_args_end(t, p + 2);
                r matches Ok(TypeRef::Generic { name: n, type_args: args, nullable: q, .. })
                    && n@ == t[p].kind->Identifier_0@
                    && args@.len() == (g - p) / 2
                    && (forall|i: int| 0 <= i < args@.len() ==> (#[trigger] args@[i] matches TypeRef::Simple { name: an, nullable: aq, .. }
                        && an@ == t[p + 2 + 2 * i].kind->Identifier_0@ && !aq))
                    && q == (t[g + 1].kind is Question)
                    && final(self).pos == g + if t[g + 1].kind is Question { 2int } else { 1int }
            }),
            ({
                let t = old(self).tokens@;
                let p = old(self).pos as int;
                p + 3 < t.len() && t[p].kind is Identifier && t[p + 1].kind is Dot && t[p + 2].kind is Identifier ==> (
                    r matches Ok(TypeRef::Qualified { qualifier: qn, name: n, nullable: q, .. })
                    && qn@ == t[p].kind->Identifier_0@ && n@ == t[p + 2].kind->Identifier_0@ && q == (t[p + 3].kind is Question)
                    && final(self).pos == p + if t[p + 3].kind is Question { 4int } else { 3int }
                    && final(self).errors@ == old(self).errors@)
            }),
            ({
                let t = old(self).tokens@;
                let p = old(self).pos as int;
                p + 3 < t.len() && t[p].kind is LParen && t[p + 1].kind is RParen && t[p + 2].kind is FatArrow
                    && spec_simple_type_at(t, p + 3) && !(t[p + 4].kind is Question) ==> (
                    r matches Ok(TypeRef::Function { param_types: ps, return_type: rt, nullable: q, .. })
                    && ps@.len() == 0 && !q && spec_is_simple_type(*rt, t[p + 3].kind->Identifier_0@, false)
                    && final(self).pos == p + 4 && final(self).errors@ == old(self).errors@)
            }),
            spec_simple_tuple_at(old(self).tokens@, old(self).pos as int) ==> ({
                let t = old(self).tokens@;
                let p = old(self).pos as int;
                let e = spec_simple_list_end(t, p + 1);
                let n = (e - p) / 2;
                &&& !(t[e + 1].kind is FatArrow) && n >= 2 ==> (r matches Ok(TypeRef::Tuple { types: tys, names: ns, nullable: q, .. })
                    && tys@.len() == n && spec_simple_types_from(tys@, t, p + 1) && ns@.len() == n
                    && (forall|i: int| 0 <= i < n ==> (#[trigger] ns@[i]) is None) && q == (t[e + 1].kind is Question)
                    && final(self).pos == e + if t[e + 1].kind is Question { 2int } else { 1int }
                    && final(self).errors@ == old(self).errors@)
                &&& !(t[e + 1].kind is FatArrow) && n == 1 ==> (r matches Ok(ty)
                    && spec_is_simple_type(ty, t[p + 1].kind->Identifier_0@, false)
                    && final(self).pos == e + 1 && final(self).errors@ == old(self).errors@)
                &&& t[e + 1].kind is FatArrow && spec_simple_type_at(t, e + 2) && !(t[e + 3].kind is Question) ==> (
                    r matches Ok(TypeRef::Function { param_types: ps, return_type: rt, nullable: q, .. })
                    && ps@.len() == n && spec_simple_types_from(ps@, t, p + 1) && !q
                    && spec_is_simple_type(*rt, t[e + 2].kind->Identifier_0@, false)
                    && final(self).pos == e + 3 && final(self).errors@ == old(self).errors@)
            }),
        decreases old(self).tokens@.len() - old(self).pos, 1int,
    {
        let start = self.peek_span();

        if self.check(&TokenKind::LParen) {
            self.advance();
            if self.check(&TokenKind::RParen) {
                self.advance();
                if self.check(&TokenKind::FatArrow) {
                    self.advance();
                    let return_type = self.parse_type()?;
                    let nullable = self.eat(&TokenKind::Question);
                    let span = self.span_from(start);
                    return Ok(TypeRef::Function { param_types: Vec::new(), return_type: Box::new(return_type), nullable, span });
                }
                return Err(self.error(crate::text::owned("Expected '=>' after '()' in type position")));
            }
            let (first_name, first) = self.parse_tuple_element_type()?;
            if self.check(&TokenKind::Comma) {
                let mut types: Vec<TypeRef> = vec![first];
                let mut names: Vec<Option<String>> = vec![first_name];
                let ghost tk = old(self).tokens@;
                let ghost p = old(self).pos as int;
                let ghost st = spec_simple_tuple_at(tk, p);
                let ghost e = spec_simple_list_end(tk, p + 1);
                proof {
                    if st {
                        lemma_simple_list_end(tk, p + 1);
                    }
                }
                while self.eat(&TokenKind::Comma)
                    invariant
                        self.evolves(*old(self)),
                        self.pos > old(self).pos,
                        old(self).cur() is LParen,
                        !(old(self).tokens@[old(self).pos + 1].kind is RParen),
                        tk == old(self).tokens@,
                        p == old(self).pos,
                        st == spec_simple_tuple_at(tk, p),
                        e == spec_simple_list_end(tk, p + 1),
                        types@.len() == names@.len(),
                        st ==> ({
                            &&& self.pos == p + 2 * types@.len()
                            &&& spec_simple_list_end(tk, self.pos - 1) == e
                            &&& spec_simple_types_from(types@, tk, p + 1)
                            &&& forall|i: int| 0 <= i < names@.len() ==> (#[trigger] names@[i]) is None
                            &&& self.errors@ == old(self).errors@
                        }),
                    ensures
                        self.evolves(*old(self)),
                        self.pos > old(self).pos,
                        types@.len() == names@.len(),
                        st ==> ({
                            &&& self.pos == e
                            &&& self.pos == p + 2 * types@.len()
                            &&& spec_simple_types_from(types@, tk, p + 1)
                            &&& forall|i: int| 0 <= i < names@.len() ==> (#[trigger] names@[i]) is None
                            &&& self.errors@ == old(self).errors@
                        }),
                    decreases self.tokens@.len() - self.pos,
                {
                    proof {
                        if st {
                            lemma_simple_list_end(tk, self.pos as int);
                        }
                    }
                    if self.check(&TokenKind::RParen) {
                        break;
                    }
                    let (n, t) = self.parse_tuple_element_type()?;
                    names.push(n);
                    types.push(t);
                }
                self.expect(&TokenKind::RParen)?;
                if self.check(&TokenKind::FatArrow) {
                    self.advance();
                    let return_type = self.parse_type()?;
                    let nullable = self.eat(&TokenKind::Question);
                    let span = self.span_from(start);
                    return Ok(TypeRef::Function { param_types: types, return_type: Box::new(return_type), nullable, span });
                }
                let nullable = self.eat(&TokenKind::Question);
                let span = self.span_from(start);
                return Ok(TypeRef::Tuple { types, names, nullable, span });
            } else {
                self.expect(&TokenKind::RParen)?;
                if self.check(&TokenKind::FatArrow) {
                    self.advance();
                    let return_type = self.parse_type()?;
                    let nullable = self.eat(&TokenKind::Question);
                    let span = self.span_from(start);
                    return Ok(TypeRef::Function { param_types: vec![first], return_type: Box::new(return_type), nullable, span });
                }
                return Ok(first);
            }
        }

        let (name, _s) = self.expect_ident()?;

        if self.check(&TokenKind::Dot) {
            let save = self.pos;
            self.advance();
            match self.expect_ident() {
                Ok((sub, _s2)) => {
                    let nullable = self.eat(&TokenKind::Question);
                    let span = self.span_from(start);
                    return Ok(TypeRef::Qualified { qualifier: name, name: sub, nullable, span });
                },
                Err(_) => {
                    self.pos = save;
                },
            }
        }

        if self.check(&TokenKind::Lt) {
            let save = self.pos;
            self.advance();
            let mut type_args: Vec<TypeRef> = Vec::new();
            let mut ok = true;
            let ghost t = old(self).tokens@;
            let ghost p = old(self).pos as int;
            let ghost sg = spec_simple_generic_at(t, p);
            let ghost g = spec_simple_args_end(t, p + 2);
            proof {
                if sg {
                    lemma_simple_args_end(t, p + 2);
                }
            }
            loop
                invariant_except_break
                    ok,
                    sg ==> ({
                        &&& self.pos == p + 2 + 2 * type_args@.len()
                        &&& spec_simple_args_end(t, self.pos as int) == g
                        &&& forall|i: int| 0 <= i < type_args@.len() ==> (#[trigger] type_args@[i] matches TypeRef::Simple { name: an, nullable: aq, .. }
                            && an@ == t[p + 2 + 2 * i].kind->Identifier_0@ && !aq)
                    }),
                invariant
                    self.evolves(*old(self)),
                    self.pos > old(self).pos,
                    old(self).pos < save < self.tokens@.len(),
                    t == old(self).tokens@,
                    p == old(self).pos,
                    sg == spec_simple_generic_at(t, p),
                    g == spec_simple_args_end(t, p + 2),
                ensures
                    self.evolves(*old(self)),
                    self.pos > old(self).pos,
                    old(self).pos < save < self.tokens@.len(),
                    sg ==> ({
                        &&& ok
                        &&& self.pos == g
                        &&& type_args@.len() == (g - p) / 2
                        &&& forall|i: int| 0 <= i < type_args@.len() ==> (#[trigger] type_args@[i] matches TypeRef::Simple { name: an, nullable: aq, .. }
                            && an@ == t[p + 2 + 2 * i].kind->Identifier_0@ && !aq)
                    }),
                decreases self.tokens@.len() - self.pos,
            {
                let ghost k = self.pos as int;
                proof {
                    if sg {
                        lemma_simple_args_end(t, k);
                    }
                }
                match self.parse_type() {
                    Ok(ty) => type_args.push(ty),
                    Err(_) => {
                        self.pos = save;
                        ok = false;
                        break;
                    },
                }
                if !self.eat(&TokenKind::Comma) {
                    break;
                }
            }
            if ok {
                if self.eat(&TokenKind::Gt) {
                    let nullable = self.eat(&TokenKind::Question);
                    let span = self.span_from(start);
                    return Ok(TypeRef::Generic { name, type_args, nullable, span });
                } else {
                    self.pos = save;
                }
            }
        }

        let nullable = self.eat(&TokenKind::Question);
        let span = self.span_from(start);
        Ok(TypeRef::Simple { name, nullable, span })
    }

    /// Comma-separated parameters up to `)` (not consumed).
    pub(crate) fn parse_param_list(&mut self) -> (r: Result<Vec<Param>, ParseError>)
        requires
            old(self).wf(),
        ensures
            final(self).evolves(*old(self)),
            ({
                let k = spec_kind_after_newlines(old(self).tokens@, old(self).pos as int);
                &&& (k is RParen || k is Eof) ==> (r matches Ok(v) && v@.len() == 0
                    && final(self).pos == spec_skip_newlines(old(self).tokens@, old(self).pos as int)
                    && final(self).errors@ == old(self).errors@)
                &&& r matches Ok(v) ==> (v@.len() == 0 <==> (k is RParen || k is Eof))
            }),
        decreases old(self).tokens@.len() - old(self).pos, 2int,
    {
        let mut params: Vec<Param> = Vec::new();
        self.skip_newlines();
        while !self.check(&TokenKind::RParen) && !self.check(&TokenKind::Eof)
            invariant
                self.evolves(*old(self)),
                params@.len() == 0 ==> self.pos == spec_skip_newlines(old(self).tokens@, old(self).pos as int)
                    && self.errors@ == old(self).errors@,
                params@.len() > 0 ==> !(spec_kind_after_newlines(old(self).tokens@, old(self).pos as int) is RParen
                    || spec_kind_after_newlines(old(self).tokens@, old(self).pos as int) is Eof),
            ensures
                self.evolves(*old(self)),
                params@.len() == 0 ==> self.pos == spec_skip_newlines(old(self).tokens@, old(self).pos as int)
                    && self.errors@ == old(self).errors@ && (self.cur() is RParen || self.cur() is Eof),
                params@.len() > 0 ==> !(spec_kind_after_newlines(old(self).tokens@, old(self).pos as int) is RParen
                    || spec_kind_after_newlines(old(self).tokens@, old(self).pos as int) is Eof),
            decreases self.tokens@.len() - self.pos,
        {
            params.push(self.parse_param()?);
            self.skip_newlines();
            if !self.eat(&TokenKind::Comma) {
                break;
            }
            self.skip_newlines();
        }
        Ok(params)
    }

    /// The first token after the current one that is not a newline (`Eof` if none).
    fn peek_past_current(&self) -> (r: TokenKind)
        requires
            self.wf(),
        ensures
            r == spec_kind_after_newlines(self.tokens@, self.pos + 1),
    {
        let mut p = self.pos + 1;
        while p < self.tokens.len() && matches!(self.tokens[p].kind, TokenKind::Newline)
            invariant
                self.pos < p <= self.tokens@.len(),
                spec_skip_newlines(self.tokens@, self.pos + 1) == spec_skip_newlines(self.tokens@, p as int),
            decreases self.tokens@.len() - p,
        {
            p = p + 1;
        }
        if p < self.tokens.len() {
            self.tokens[p].kind.duplicate()
        } else {
            TokenKind::Eof
        }
    }

    /// `[ref|out|vararg] name: Type [= default]`; the name may be a keyword. A modifier word
    /// counts as one only when a parameter name follows it.
    pub(crate) fn parse_param(&mut self) -> (r: Result<Param, ParseError>)
        requires
            old(self).wf(),
        ensures
            final(self).evolves(*old(self)),
            r is Ok ==> final(self).pos > old(self).pos,
            !spec_names_param(old(self).cur()) ==> (r is Err && final(self).pos == old(self).pos
                && final(self).errors@ == old(self).errors@),
            ({
                let t = old(self).tokens@;
                let p = old(self).pos as int;
                t[p].kind is Identifier && t[p].kind->Identifier_0@ != "ref"@ && t[p].kind->Identifier_0@ != "out"@
                    && t[p].kind->Identifier_0@ != "vararg"@ && p + 3 < t.len() && t[p + 1].kind is Colon
                    && spec_simple_type_at(t, p + 2) && !(t[p + 3].kind is Question || t[p + 3].kind is Eq) ==> (
                    r matches Ok(Param { name: n, ty: TypeRef::Simple { name: tn, .. }, default: d, modifier: m, is_vararg: va, .. })
                    && n@ == t[p].kind->Identifier_0@ && tn@ == t[p + 2].kind->Identifier_0@ && d is None
                    && m == ParamMod::Plain && !va && final(self).pos == p + 3 && final(self).errors@ == old(self).errors@)
            }),
        decreases old(self).tokens@.len() - old(self).pos, 1int,
    {
        let start = self.peek_span();
        let mut modifier = ParamMod::Plain;
        let mut is_vararg = false;
        if self.check_contextual("ref") && names_param(&self.peek_past_current()) {
            self.advance();
            modifier = ParamMod::Ref;
        } else if self.check_contextual("out") && names_param(&self.peek_past_current()) {
            self.advance();
            modifier = ParamMod::Out;
        } else if self.check_contextual("vararg") && names_param(&self.peek_past_current()) {
            self.advance();
            is_vararg = true;
        }
        let (name, name_span) = self.expect_ident_or_keyword()?;
        self.expect(&TokenKind::Colon)?;
        let ty = self.parse_type()?;
        let default = if self.eat(&TokenKind::Eq) {
            Some(self.parse_expr()?)
        } else {
            None
        };
        let span = self.span_from(start);
        Ok(Param { name, name_span, ty, default, modifier, is_vararg, span })
    }
}

/// Whether `kind` may name a parameter (see `spec_names_param`).
fn names_param(kind: &TokenKind) -> (r: bool)
    ensures
        r == spec_names_param(*kind),
{
    matches!(kind, TokenKind::Identifier(_)) || kind.keyword_text().is_some()
}

} // verus!
