//! Recursive-descent parser for PrSM: token navigation, files and top-level declarations.
//!
//! Every parsing method keeps the parser well formed (the token stream is untouched, the
//! cursor stays inside it and never moves backwards past the point where the method was
//! entered) and only appends to the diagnostics collected so far.
use vstd::prelude::*;
use crate::token::{Position, Span, Token, TokenKind, spec_kind_tag, kind_tag, spec_keyword_text};
use crate::ast::{File, UsingDecl, Decl, Member, Visibility, Annotation};
use crate::parser::decls::{spec_starts_decl, spec_listed_component_at, spec_component_body, spec_empty_component_end, spec_plain_enum_end, spec_plain_enum_at, spec_plain_enum_names, spec_entry_names, spec_empty_subclass_at, spec_empty_component_at, spec_component_interfaces, spec_name_texts};
use crate::lexer::ends_in_eof;
use crate::parser::members::{spec_lines_of, spec_lines_end, spec_members_are, spec_reported_lines, spec_member_lines_reported};
use crate::lexical::{TokView, spec_views, spec_token_view, tag_identifier};
use crate::text::{str_eq, owned, cat2, cat3, debug_kind, spec_starts_with};

mod decls;
mod members;
mod stmts;
mod patterns;
mod exprs;
mod types;
mod raw;

pub use raw::{token_to_source_text, should_insert_raw_space, pascal_attr_case, raw_pascal_case, pascal_case_methods_in_string};

verus! {

broadcast use crate::token::lemma_kind_tag_inverse;

/// A diagnostic: what went wrong and where.
#[derive(Debug, Clone)]
pub struct ParseError {
    pub message: String,
    pub span: Span,
}

/// Recursive descent parser for PrSM.
pub struct Parser {
    pub(crate) tokens: Vec<Token>,
    pub(crate) pos: usize,
    pub(crate) errors: Vec<ParseError>,
    /// Disables the trailing-lambda call form inside control-flow condition positions
    /// (`if expr { body }`, `while expr { body }`, ...), so that the body brace is not read
    /// as a lambda argument.
    pub(crate) no_trailing_lambda: bool,
}

/// `a` is an extension of `prev`: every diagnostic of `prev` is still there, in place.
pub open spec fn errors_extend(prev: Seq<ParseError>, a: Seq<ParseError>) -> bool {
    &&& prev.len() <= a.len()
    &&& forall|i: int| 0 <= i < prev.len() ==> #[trigger] a[i] == prev[i]
}

/// The first index from `p` on whose token is not a newline (the length when there is none).
pub open spec fn spec_skip_newlines(tokens: Seq<Token>, p: int) -> int
    decreases tokens.len() - p,
{
    if p < 0 || p >= tokens.len() {
        tokens.len() as int
    } else if tokens[p].kind is Newline {
        spec_skip_newlines(tokens, p + 1)
    } else {
        p
    }
}

/// Skipping newlines never moves back, and skipping twice is skipping once.
pub proof fn lemma_skip_newlines(tokens: Seq<Token>, p: int)
    requires
        0 <= p <= tokens.len(),
    ensures
        p <= spec_skip_newlines(tokens, p),
        spec_skip_newlines(tokens, spec_skip_newlines(tokens, p)) == spec_skip_newlines(tokens, p),
    decreases tokens.len() - p,
{
    if p < tokens.len() && tokens[p].kind is Newline {
        lemma_skip_newlines(tokens, p + 1);
    }
}

/// Token `i` of the views `v` has the kind of `k`.
pub open spec fn spec_tag_is(v: Seq<TokView>, i: int, k: TokenKind) -> bool {
    0 <= i < v.len() && v[i].0 == spec_kind_tag(k)
}

/// The first index from `p` on whose token is not a newline, over token views.
pub open spec fn spec_skip_newline_views(v: Seq<TokView>, p: int) -> int
    decreases v.len() - p,
{
    if p < 0 || p >= v.len() {
        v.len() as int
    } else if spec_tag_is(v, p, TokenKind::Newline) {
        spec_skip_newline_views(v, p + 1)
    } else {
        p
    }
}

/// Skipping newlines reads the same over tokens and over their views.
pub proof fn lemma_skip_newline_views(tokens: Seq<Token>, p: int)
    ensures
        spec_skip_newline_views(spec_views(tokens), p) == spec_skip_newlines(tokens, p),
    decreases tokens.len() - p,
{
    if 0 <= p < tokens.len() {
        assert(spec_views(tokens)[p] == spec_token_view(tokens[p]));
        lemma_skip_newline_views(tokens, p + 1);
    }
}

/// Where error recovery from index `i` resumes: just past the next newline, or at the next
/// `Eof` or `}`.
pub open spec fn spec_recover_end(v: Seq<TokView>, i: int) -> int
    decreases v.len() - i,
{
    if i < 0 || i >= v.len() {
        i
    } else if spec_tag_is(v, i, TokenKind::Newline) {
        i + 1
    } else if spec_tag_is(v, i, TokenKind::Eof) || spec_tag_is(v, i, TokenKind::RBrace) {
        i
    } else {
        spec_recover_end(v, i + 1)
    }
}

/// The rest of a `using` path from index `k`, with `path` read so far: `.name` segments,
/// then the end of the line (a newline there is consumed). The path, or `None` where a
/// segment's name is missing; and the index where the reading stopped.
pub open spec fn spec_using_rest(v: Seq<TokView>, k: int, path: Seq<char>) -> (Option<Seq<char>>, int)
    decreases v.len() - k,
{
    if 0 <= k && k + 1 < v.len() && spec_tag_is(v, k, TokenKind::Dot) {
        if v[k + 1].0 == tag_identifier() {
            spec_using_rest(v, k + 2, path + "."@ + v[k + 1].1)
        } else {
            (None, k + 1)
        }
    } else {
        (Some(path), if spec_tag_is(v, k, TokenKind::Newline) { k + 1 } else { k })
    }
}

/// A `using A.B.C` line whose `using` is at index `i`: the dotted path, or `None` where a
/// name is missing; and the index where the reading stopped.
pub open spec fn spec_using_at(v: Seq<TokView>, i: int) -> (Option<Seq<char>>, int) {
    if 0 <= i && i + 1 < v.len() && v[i + 1].0 == tag_identifier() {
        spec_using_rest(v, i + 2, v[i + 1].1)
    } else {
        (None, i + 1)
    }
}

/// The `using` lines of a file from index `i` on, blank lines skipped: their paths in order
/// (a line whose path is incomplete is reported, skipped to its end and left out), and the
/// index where the first non-`using` line starts.
pub open spec fn spec_usings(v: Seq<TokView>, i: int) -> (Seq<Seq<char>>, int)
    decreases v.len() - i,
{
    let q = spec_skip_newline_views(v, i);
    if 0 <= i <= q < v.len() && spec_tag_is(v, q, TokenKind::Using) {
        let (res, j) = spec_using_at(v, q);
        let j2 = if res is Some { j } else { spec_recover_end(v, j) };
        if j2 <= q || j2 > v.len() {
            (Seq::empty(), q)
        } else {
            let (rest, e) = spec_usings(v, j2);
            (if res is Some { seq![res->0] + rest } else { rest }, e)
        }
    } else {
        (Seq::empty(), q)
    }
}

/// A line read up to index `j` ended properly: with a newline (consumed), or at `Eof` or `}`.
pub open spec fn spec_line_ended(v: Seq<TokView>, j: int) -> bool {
    spec_tag_is(v, j - 1, TokenKind::Newline) || spec_tag_is(v, j, TokenKind::Eof) || spec_tag_is(v, j, TokenKind::RBrace)
}

/// Every `using` line from index `i` on is complete and ends its line, so reading them
/// reports nothing.
pub open spec fn spec_usings_clean(v: Seq<TokView>, i: int) -> bool
    decreases v.len() - i,
{
    let q = spec_skip_newline_views(v, i);
    if 0 <= i <= q < v.len() && spec_tag_is(v, q, TokenKind::Using) {
        let (res, j) = spec_using_at(v, q);
        if !(res is Some && spec_line_ended(v, j)) {
            false
        } else if j <= q || j > v.len() {
            true
        } else {
            spec_usings_clean(v, j)
        }
    } else {
        true
    }
}

/// The paths of `using` declarations.
pub open spec fn spec_using_paths(us: Seq<UsingDecl>) -> Seq<Seq<char>> {
    us.map_values(|u: UsingDecl| u.path@)
}

/// The declaration that stands in for one that could not be parsed: a component named
/// `<error>` on `MonoBehaviour`, with no interfaces or members.
pub open spec fn spec_is_placeholder_decl(d: Decl) -> bool {
    d matches Decl::Component { is_singleton, is_partial, name, base_class, interfaces, members, .. }
        && !is_singleton && !is_partial && name@ == "<error>"@ && base_class@ == "MonoBehaviour"@
        && interfaces@.len() == 0 && members@.len() == 0
}

/// The start of the diagnostic for a line that does not start a declaration.
pub open spec fn spec_expected_declaration_prefix() -> Seq<char> {
    "Expected declaration (component, singleton, asset, class, enum, attribute, interface, typealias, struct, extend, func, const, coroutine), found "@
}

/// The diagnostic for a second top-level declaration in one file.
pub open spec fn spec_e189_message() -> Seq<char> {
    "E189: Multiple top-level declarations in a single file. Each .prsm file shall contain exactly one top-level declaration (S5.1). Move the additional declaration into its own .prsm file."@
}

/// The index of the `n`-th token from `p` on that is not a newline, counting from zero
/// (the length when there are fewer).
pub open spec fn spec_nth_non_newline(tokens: Seq<Token>, p: int, n: nat) -> int
    decreases n,
{
    let q = spec_skip_newlines(tokens, p);
    if n == 0 {
        q
    } else if q >= tokens.len() {
        tokens.len() as int
    } else {
        spec_nth_non_newline(tokens, q + 1, (n - 1) as nat)
    }
}

/// The kind of the first token from `p` on that is not a newline (`Eof` when there is none).
pub open spec fn spec_kind_after_newlines(tokens: Seq<Token>, p: int) -> TokenKind {
    let q = spec_skip_newlines(tokens, p);
    if q < tokens.len() { tokens[q].kind } else { TokenKind::Eof }
}

pub(crate) proof fn lemma_skip_newlines_bounds(tokens: Seq<Token>, p: int)
    requires
        0 <= p,
    ensures
        p <= spec_skip_newlines(tokens, p) <= tokens.len() || (p > tokens.len() && spec_skip_newlines(tokens, p) == tokens.len()),
        spec_skip_newlines(tokens, p) < tokens.len() ==> !(tokens[spec_skip_newlines(tokens, p)].kind is Newline),
        forall|k: int| p <= k < spec_skip_newlines(tokens, p) ==> #[trigger] tokens[k].kind is Newline,
    decreases tokens.len() - p,
{
    if p < tokens.len() && tokens[p].kind is Newline {
        lemma_skip_newlines_bounds(tokens, p + 1);
    }
}

pub(crate) proof fn lemma_nth_non_newline_step(tokens: Seq<Token>, p: int, k: nat)
    requires
        0 <= p,
    ensures
        spec_nth_non_newline(tokens, p, k) <= tokens.len(),
        spec_nth_non_newline(tokens, p, k) < tokens.len()
            ==> spec_nth_non_newline(tokens, p, k + 1) == spec_skip_newlines(tokens, spec_nth_non_newline(tokens, p, k) + 1),
        spec_nth_non_newline(tokens, p, k) >= tokens.len() ==> spec_nth_non_newline(tokens, p, k + 1) == tokens.len(),
    decreases k,
{
    lemma_skip_newlines_bounds(tokens, p);
    let q = spec_skip_newlines(tokens, p);
    if k == 0 && q < tokens.len() {
        assert(spec_nth_non_newline(tokens, p, 1) == spec_nth_non_newline(tokens, q + 1, 0));
    }
    if k > 0 && q < tokens.len() {
        lemma_nth_non_newline_step(tokens, q + 1, (k - 1) as nat);
        assert(spec_nth_non_newline(tokens, p, k) == spec_nth_non_newline(tokens, q + 1, (k - 1) as nat));
        assert(spec_nth_non_newline(tokens, p, k + 1) == spec_nth_non_newline(tokens, q + 1, k));
        assert(((k - 1) as nat + 1) as nat == k);
    }
}

pub(crate) proof fn lemma_nth_exhausted(tokens: Seq<Token>, p: int, k: nat, m: nat)
    requires
        0 <= p,
        k <= m,
        spec_nth_non_newline(tokens, p, k) >= tokens.len(),
    ensures
        spec_nth_non_newline(tokens, p, m) >= tokens.len(),
    decreases m - k,
{
    if k < m {
        lemma_nth_non_newline_step(tokens, p, k);
        lemma_nth_exhausted(tokens, p, k + 1, m);
    }
}

impl Parser {
    /// The token stream ends in `Eof` and the cursor is inside it.
    pub(crate) open spec fn wf(&self) -> bool {
        &&& ends_in_eof(self.tokens@)
        &&& self.pos < self.tokens@.len()
        &&& self.tokens@.len() <= usize::MAX
    }

    /// The kind of the token under the cursor.
    pub(crate) open spec fn cur(&self) -> TokenKind {
        self.tokens@[self.pos as int].kind
    }

    /// `self` is a later state of `prev` within one parse: same tokens, cursor not behind,
    /// earlier diagnostics kept.
    pub(crate) open spec fn evolves(&self, prev: Parser) -> bool {
        &&& self.wf()
        &&& self.tokens@ == prev.tokens@
        &&& prev.pos <= self.pos
        &&& errors_extend(prev.errors@, self.errors@)
    }

    /// Like `evolves`, with at least one token consumed.
    pub(crate) open spec fn advanced(&self, prev: Parser) -> bool {
        &&& self.evolves(prev)
        &&& prev.pos < self.pos
    }

    /// The tokens being parsed.
    pub closed spec fn token_seq(&self) -> Seq<Token> {
        self.tokens@
    }

    /// The index of the token under the cursor.
    pub closed spec fn position(&self) -> int {
        self.pos as int
    }

    /// The diagnostics collected so far.
    pub closed spec fn error_seq(&self) -> Seq<ParseError> {
        self.errors@
    }

    /// A call may take a trailing lambda `f { .. }` as its last argument (not so in the head
    /// of `if`, `while`, `for` and `when`).
    pub closed spec fn trailing_lambdas_enabled(&self) -> bool {
        !self.no_trailing_lambda
    }

    /// The parser can run: its tokens end in `Eof` and the cursor is inside them.
    pub closed spec fn ready(&self) -> bool {
        self.wf()
    }

    /// The cursor rests on an `Eof` token, past which the parser never moves.
    pub closed spec fn at_end(&self) -> bool {
        self.tokens@[self.pos as int].kind is Eof
    }

    /// A parser over `tokens`, positioned at the first token, with no diagnostics.
    pub fn new(tokens: Vec<Token>) -> (r: Parser)
        ensures
            r.token_seq() == tokens@,
            r.position() == 0,
            r.error_seq() == Seq::<ParseError>::empty(),
            r.trailing_lambdas_enabled(),
            ends_in_eof(tokens@) ==> r.ready(),
    {
        let n = tokens.len();
        assert(n == tokens@.len());
        Parser { tokens, pos: 0, errors: Vec::new(), no_trailing_lambda: false }
    }

    /// The diagnostics collected so far.
    pub fn errors(&self) -> (r: &[ParseError])
        ensures
            r@ == self.error_seq(),
    {
        self.errors.as_slice()
    }

    // ── Token navigation ─────────────────────────────────────────

    /// The span from the start of `start` to the end of the current token.
    pub(crate) fn span_from(&self, start: Span) -> (r: Span)
        requires
            self.wf(),
        ensures
            r.start == start.start,
            r.end == self.tokens@[self.pos as int].span.end,
    {
        Span::join(start, self.peek_span())
    }

    /// Whether the token `offset` places ahead exists and has the variant of `kind`.
    pub(crate) fn kind_at_is(&self, offset: usize, kind: &TokenKind) -> (r: bool)
        requires
            self.wf(),
        ensures
            r == (self.pos + offset < self.tokens@.len()
                && spec_kind_tag(self.tokens@[self.pos + offset].kind) == spec_kind_tag(*kind)),
    {
        if offset < self.tokens.len() - self.pos {
            kind_tag(&self.tokens[self.pos + offset].kind) == kind_tag(kind)
        } else {
            false
        }
    }

    pub(crate) fn peek(&self) -> (r: &TokenKind)
        requires
            self.wf(),
        ensures
            *r == self.cur(),
    {
        &self.tokens[self.pos].kind
    }

    /// An owned copy of the kind under the cursor.
    pub(crate) fn peek_kind(&self) -> (r: TokenKind)
        requires
            self.wf(),
        ensures
            r == self.cur(),
    {
        self.tokens[self.pos].kind.duplicate()
    }

    /// The kind `offset` tokens ahead, if the stream is that long.
    pub(crate) fn peek_at(&self, offset: usize) -> (r: Option<TokenKind>)
        requires
            self.wf(),
        ensures
            r is Some <==> self.pos + offset < self.tokens@.len(),
            r matches Some(k) ==> k == self.tokens@[self.pos + offset].kind,
    {
        if offset < self.tokens.len() - self.pos {
            Some(self.tokens[self.pos + offset].kind.duplicate())
        } else {
            None
        }
    }

    pub(crate) fn peek_span(&self) -> (r: Span)
        requires
            self.wf(),
        ensures
            r == self.tokens@[self.pos as int].span,
    {
        self.tokens[self.pos].span
    }

    /// Moves past the current token, unless it is the final `Eof`.
    pub(crate) fn advance(&mut self)
        requires
            old(self).wf(),
        ensures
            final(self).evolves(*old(self)),
            final(self).errors == old(self).errors,
            final(self).no_trailing_lambda == old(self).no_trailing_lambda,
            final(self).pos == if old(self).cur() is Eof { old(self).pos } else { (old(self).pos + 1) as usize },
    {
        if !matches!(self.tokens[self.pos].kind, TokenKind::Eof) {
            self.pos = self.pos + 1;
        }
    }

    /// Whether the current token is of the same variant as `kind` (payloads ignored).
    pub(crate) fn check(&self, kind: &TokenKind) -> (r: bool)
        requires
            self.wf(),
        ensures
            r == (spec_kind_tag(self.cur()) == spec_kind_tag(*kind)),
    {
        kind_tag(&self.tokens[self.pos].kind) == kind_tag(kind)
    }

    /// Consumes the current token if it has the variant of `expected`.
    pub(crate) fn eat(&mut self, expected: &TokenKind) -> (r: bool)
        requires
            old(self).wf(),
            !(*expected is Eof),
        ensures
            final(self).evolves(*old(self)),
            final(self).errors == old(self).errors,
            final(self).no_trailing_lambda == old(self).no_trailing_lambda,
            r == (spec_kind_tag(old(self).cur()) == spec_kind_tag(*expected)),
            r ==> final(self).pos == old(self).pos + 1,
            !r ==> final(self).pos == old(self).pos,
    {
        if self.check(expected) {
            self.advance();
            true
        } else {
            false
        }
    }

    /// A diagnostic at the current token.
    pub(crate) fn error(&self, message: String) -> (r: ParseError)
        requires
            self.wf(),
        ensures
            r.message@ == message@,
            r.span == self.tokens@[self.pos as int].span,
    {
        ParseError { message, span: self.peek_span() }
    }

    /// A diagnostic at the current token: `prefix` followed by the current token kind.
    pub(crate) fn error_found(&self, prefix: &str) -> (r: ParseError)
        requires
            self.wf(),
        ensures
            r.span == self.tokens@[self.pos as int].span,
            spec_starts_with(r.message@, prefix@),
    {
        let found = debug_kind(self.peek());
        let r = self.error(cat2(prefix, found.as_str()));
        assert(r.message@.subrange(0, prefix@.len() as int) =~= prefix@);
        r
    }

    /// Consumes the current token if it has the variant of `expected`; otherwise reports
    /// `Expected .., found ..` without moving.
    pub(crate) fn expect(&mut self, expected: &TokenKind) -> (r: Result<Span, ParseError>)
        requires
            old(self).wf(),
            !(*expected is Eof),
        ensures
            final(self).evolves(*old(self)),
            final(self).errors == old(self).errors,
            final(self).no_trailing_lambda == old(self).no_trailing_lambda,
            r is Ok <==> spec_kind_tag(old(self).cur()) == spec_kind_tag(*expected),
            r matches Ok(s) ==> s == old(self).tokens@[old(self).pos as int].span,
            r is Ok ==> final(self).pos == old(self).pos + 1,
            r is Err ==> final(self).pos == old(self).pos,
    {
        if self.check(expected) {
            let span = self.peek_span();
            self.advance();
            Ok(span)
        } else {
            let e = debug_kind(expected);
            let f = debug_kind(self.peek());
            Err(self.error(cat3(cat2("Expected ", e.as_str()).as_str(), ", found ", f.as_str())))
        }
    }

    /// Consumes an identifier token and returns its text and span.
    pub(crate) fn expect_ident(&mut self) -> (r: Result<(String, Span), ParseError>)
        requires
            old(self).wf(),
        ensures
            final(self).evolves(*old(self)),
            final(self).errors == old(self).errors,
            final(self).no_trailing_lambda == old(self).no_trailing_lambda,
            r is Ok <==> old(self).cur() is Identifier,
            r matches Ok((n, s)) ==> n@ == old(self).cur()->Identifier_0@ && s == old(self).tokens@[old(self).pos as int].span,
            r is Ok ==> final(self).pos == old(self).pos + 1,
            r is Err ==> final(self).pos == old(self).pos,
    {
        match self.peek_kind() {
            TokenKind::Identifier(name) => {
                let span = self.peek_span();
                self.advance();
                Ok((name, span))
            },
            _ => Err(self.error_found("Expected identifier, found ")),
        }
    }

    /// Like `expect_ident`, but a keyword token is also accepted and read back as its
    /// spelling (for parameter names, state names and the like).
    pub(crate) fn expect_ident_or_keyword(&mut self) -> (r: Result<(String, Span), ParseError>)
        requires
            old(self).wf(),
        ensures
            final(self).evolves(*old(self)),
            final(self).errors == old(self).errors,
            final(self).no_trailing_lambda == old(self).no_trailing_lambda,
            r is Ok <==> (old(self).cur() is Identifier || spec_keyword_text(old(self).cur()) is Some),
            r matches Ok((n, s)) ==> n@ == (if old(self).cur() is Identifier {
                old(self).cur()->Identifier_0@
            } else {
                spec_keyword_text(old(self).cur())->0
            }),
            r is Ok ==> final(self).pos == old(self).pos + 1,
            r is Err ==> final(self).pos == old(self).pos,
    {
        match self.peek_kind() {
            TokenKind::Identifier(name) => {
                let span = self.peek_span();
                self.advance();
                Ok((name, span))
            },
            kind => {
                match kind.keyword_text() {
                    Some(text) => {
                        let span = self.peek_span();
                        self.advance();
                        Ok((owned(text), span))
                    },
                    None => Err(self.error_found("Expected identifier, found ")),
                }
            },
        }
    }

    /// Whether the current token is the identifier `text` (a contextual keyword).
    pub(crate) fn check_contextual(&self, text: &str) -> (r: bool)
        requires
            self.wf(),
        ensures
            r == (self.cur() is Identifier && self.cur()->Identifier_0@ == text@),
    {
        match self.peek() {
            TokenKind::Identifier(name) => str_eq(name.as_str(), text),
            _ => false,
        }
    }

    /// Consumes the contextual keyword `text` if it is the current token.
    pub(crate) fn eat_contextual(&mut self, text: &str) -> (r: Option<Span>)
        requires
            old(self).wf(),
        ensures
            final(self).evolves(*old(self)),
            final(self).errors == old(self).errors,
            final(self).no_trailing_lambda == old(self).no_trailing_lambda,
            r is Some <==> (old(self).cur() is Identifier && old(self).cur()->Identifier_0@ == text@),
            r is Some ==> final(self).pos == old(self).pos + 1,
            r is None ==> final(self).pos == old(self).pos,
    {
        if self.check_contextual(text) {
            let span = self.peek_span();
            self.advance();
            Some(span)
        } else {
            None
        }
    }

    /// Whether the `offset`-th token ahead, counting from the current one and not counting
    /// newlines, is the identifier `text`.
    pub(crate) fn peek_ahead_is_contextual(&self, offset: usize, text: &str) -> (r: bool)
        requires
            self.wf(),
        ensures
            ({
                let q = spec_nth_non_newline(self.tokens@, self.pos as int, offset as nat);
                r == (q < self.tokens@.len() && self.tokens@[q].kind is Identifier
                    && self.tokens@[q].kind->Identifier_0@ == text@)
            }),
    {
        let mut p = self.pos;
        let mut seen: usize = 0;
        while p < self.tokens.len() && matches!(self.tokens[p].kind, TokenKind::Newline)
            invariant
                self.wf(),
                self.pos <= p <= self.tokens@.len(),
                spec_skip_newlines(self.tokens@, self.pos as int) == spec_skip_newlines(self.tokens@, p as int),
            decreases self.tokens@.len() - p,
        {
            p = p + 1;
        }
        proof {
            lemma_skip_newlines_bounds(self.tokens@, p as int);
        }
        while p < self.tokens.len()
            invariant
                self.wf(),
                p <= self.tokens@.len(),
                seen <= offset,
                p == spec_nth_non_newline(self.tokens@, self.pos as int, seen as nat),
            decreases self.tokens@.len() - p,
        {
            if seen == offset {
                return match &self.tokens[p].kind {
                    TokenKind::Identifier(n) => str_eq(n.as_str(), text),
                    _ => false,
                };
            }
            let p0 = p;
            p = p + 1;
            proof {
                lemma_nth_non_newline_step(self.tokens@, self.pos as int, seen as nat);
            }
            while p < self.tokens.len() && matches!(self.tokens[p].kind, TokenKind::Newline)
                invariant
                    self.wf(),
                    p0 < p <= self.tokens@.len(),
                    spec_skip_newlines(self.tokens@, p0 + 1) == spec_skip_newlines(self.tokens@, p as int),
                decreases self.tokens@.len() - p,
            {
                p = p + 1;
            }
            proof {
                lemma_skip_newlines_bounds(self.tokens@, p as int);
            }
            seen = seen + 1;
        }
        proof {
            lemma_nth_exhausted(self.tokens@, self.pos as int, seen as nat, offset as nat);
        }
        false
    }

    /// Skips newline tokens.
    pub(crate) fn skip_newlines(&mut self)
        requires
            old(self).wf(),
        ensures
            final(self).evolves(*old(self)),
            final(self).errors == old(self).errors,
            final(self).no_trailing_lambda == old(self).no_trailing_lambda,
            !(final(self).cur() is Newline),
            !(old(self).cur() is Newline) ==> final(self).pos == old(self).pos,
            final(self).pos == spec_skip_newlines(old(self).tokens@, old(self).pos as int),
    {
        while matches!(self.tokens[self.pos].kind, TokenKind::Newline)
            invariant
                self.evolves(*old(self)),
                self.errors == old(self).errors,
                self.no_trailing_lambda == old(self).no_trailing_lambda,
                !(old(self).cur() is Newline) ==> self.pos == old(self).pos,
                spec_skip_newlines(self.tokens@, self.pos as int) == spec_skip_newlines(old(self).tokens@, old(self).pos as int),
            decreases self.tokens@.len() - self.pos,
        {
            self.advance();
        }
    }

    /// Ends a statement: a newline is consumed; `Eof` and `}` are accepted as they are;
    /// anything else is reported.
    pub(crate) fn expect_newline_or_eof(&mut self)
        requires
            old(self).wf(),
        ensures
            final(self).evolves(*old(self)),
            final(self).no_trailing_lambda == old(self).no_trailing_lambda,
            final(self).pos <= old(self).pos + 1,
            old(self).cur() is Newline ==> final(self).pos == old(self).pos + 1 && final(self).errors@ == old(self).errors@,
            old(self).cur() is Eof || old(self).cur() is RBrace
                ==> final(self).pos == old(self).pos && final(self).errors@ == old(self).errors@,
            !(old(self).cur() is Newline || old(self).cur() is Eof || old(self).cur() is RBrace) ==> {
                &&& final(self).pos == old(self).pos
                &&& final(self).errors@.len() == old(self).errors@.len() + 1
                &&& final(self).errors@.last().message@ == "Expected newline or end of statement"@
                &&& final(self).errors@.last().span == old(self).tokens@[old(self).pos as int].span
            },
    {
        if matches!(self.tokens[self.pos].kind, TokenKind::Newline) {
            self.advance();
        } else if matches!(self.tokens[self.pos].kind, TokenKind::Eof) || matches!(self.tokens[self.pos].kind, TokenKind::RBrace) {
        } else {
            let e = self.error(owned("Expected newline or end of statement"));
            self.errors.push(e);
        }
    }

    /// Error recovery: skips to the end of the line (consuming the newline), stopping
    /// before `}` or `Eof`. Moves unless already at `}` or `Eof`.
    pub(crate) fn recover_to_newline(&mut self)
        requires
            old(self).wf(),
        ensures
            final(self).evolves(*old(self)),
            final(self).errors == old(self).errors,
            final(self).no_trailing_lambda == old(self).no_trailing_lambda,
            !(old(self).cur() is Eof) && !(old(self).cur() is RBrace) ==> final(self).pos > old(self).pos,
            final(self).pos == spec_recover_end(spec_views(old(self).tokens@), old(self).pos as int),
    {
        while !(matches!(self.tokens[self.pos].kind, TokenKind::Newline)
            || matches!(self.tokens[self.pos].kind, TokenKind::Eof)
            || matches!(self.tokens[self.pos].kind, TokenKind::RBrace))
            invariant
                self.evolves(*old(self)),
                self.errors == old(self).errors,
                self.no_trailing_lambda == old(self).no_trailing_lambda,
                spec_recover_end(spec_views(self.tokens@), self.pos as int) == spec_recover_end(spec_views(old(self).tokens@), old(self).pos as int),
            decreases self.tokens@.len() - self.pos,
        {
            self.advance();
        }
        if matches!(self.tokens[self.pos].kind, TokenKind::Newline) {
            self.advance();
        }
    }

    // ── File parsing ─────────────────────────────────────────────

    /// Parses a whole file: `using` lines, then exactly one top-level declaration. The
    /// `using` paths are read in order; a line that does not start a declaration gives the
    /// `<error>` placeholder declaration; after a declaration, anything but the end of the
    /// file is reported (E189) at the token where it starts. A file on which no new
    /// diagnostic is reported has been read to its `Eof`.
    pub fn parse_file(&mut self) -> (r: File)
        requires
            old(self).ready(),
        ensures
            final(self).ready(),
            final(self).token_seq() == old(self).token_seq(),
            old(self).position() <= final(self).position(),
            errors_extend(old(self).error_seq(), final(self).error_seq()),
            final(self).error_seq().len() == old(self).error_seq().len() ==> final(self).at_end(),
            ({
                let t = old(self).token_seq();
                let (paths, e) = spec_usings(spec_views(t), old(self).position());
                let d = spec_skip_newlines(t, e);
                &&& spec_using_paths(r.usings@) == paths
                &&& !spec_starts_decl(t[d].kind) ==> spec_is_placeholder_decl(r.decl)
                        && final(self).error_seq().len() > old(self).error_seq().len()
                &&& spec_listed_component_at(t, d) ==> (r.decl matches Decl::Component { name: n, base_class: b, interfaces: is, members: ms, .. }
                        && n@ == t[d + 1].kind->Identifier_0@ && b@ == t[d + 3].kind->Identifier_0@
                        && spec_name_texts(is@) == spec_component_interfaces(t, d)
                        && spec_members_are(ms@, spec_lines_of(spec_component_body(t, d))))
                &&& spec_usings_clean(spec_views(t), old(self).position()) && spec_listed_component_at(t, d) ==> {
                    let lines = spec_lines_of(spec_component_body(t, d));
                    let z = spec_lines_end(spec_component_body(t, d)) + 1;
                    &&& spec_kind_after_newlines(t, z) is Eof ==> final(self).at_end()
                        && spec_reported_lines(old(self).error_seq(), final(self).error_seq(), spec_member_lines_reported(lines))
                    &&& !(spec_kind_after_newlines(t, z) is Eof) ==>
                        final(self).error_seq().len() == old(self).error_seq().len() + spec_member_lines_reported(lines) + 1
                        && final(self).error_seq().last().message@ == spec_e189_message()
                }
                &&& spec_plain_enum_at(t, d) ==> (r.decl matches Decl::Enum { name: n, params: ps, entries: es, .. }
                        && n@ == t[d + 1].kind->Identifier_0@ && ps@.len() == 0
                        && spec_entry_names(es@) == spec_plain_enum_names(t, d))
                &&& spec_empty_subclass_at(t, d) ==> (r.decl matches Decl::Class { name: n, super_class: Some(sc), interfaces: is, members: ms, .. }
                        && n@ == t[d + 1].kind->Identifier_0@ && sc@ == t[d + 3].kind->Identifier_0@
                        && spec_name_texts(is@) == spec_component_interfaces(t, d) && ms@.len() == 0)
                &&& spec_usings_clean(spec_views(t), old(self).position()) ==> {
                    &&& !spec_starts_decl(t[d].kind) ==> final(self).error_seq().len() == old(self).error_seq().len() + 1
                        && spec_starts_with(final(self).error_seq().last().message@, spec_expected_declaration_prefix())
                    &&& (spec_empty_component_at(t, d) || spec_empty_subclass_at(t, d) || spec_plain_enum_at(t, d)) ==> {
                        let z = if spec_plain_enum_at(t, d) { spec_plain_enum_end(t, d) } else { spec_empty_component_end(t, d) };
                        &&& spec_kind_after_newlines(t, z) is Eof ==> final(self).error_seq() == old(self).error_seq() && final(self).at_end()
                        &&& !(spec_kind_after_newlines(t, z) is Eof) ==> final(self).error_seq().len() == old(self).error_seq().len() + 1
                            && final(self).error_seq().last().message@ == spec_e189_message()
                            && final(self).error_seq().last().span == t[spec_skip_newlines(t, z)].span
                    }
                }
                &&& spec_empty_component_at(t, d) ==> (r.decl matches Decl::Component { name: n, base_class: b, interfaces: is, members: ms, .. }
                        && n@ == t[d + 1].kind->Identifier_0@ && b@ == t[d + 3].kind->Identifier_0@
                        && spec_name_texts(is@) == spec_component_interfaces(t, d) && ms@.len() == 0)
                &&& {
                    ||| spec_is_placeholder_decl(r.decl)
                    ||| final(self).at_end()
                    ||| final(self).error_seq().last().message@ == spec_e189_message()
                        && final(self).error_seq().last().span == t[final(self).position()].span
                }
            }),
    {
        let ghost t = spec_views(self.tokens@);
        let ghost all = spec_usings(t, self.pos as int);
        proof {
            lemma_skip_newlines(self.tokens@, self.pos as int);
            lemma_skip_newline_views(self.tokens@, self.pos as int);
        }
        self.skip_newlines();
        let start = self.peek_span();

        let mut usings: Vec<UsingDecl> = Vec::new();
        proof {
            assert(spec_using_paths(usings@) + spec_usings(t, self.pos as int).0 =~= all.0);
        }
        while self.check(&TokenKind::Using)
            invariant
                self.evolves(*old(self)),
                spec_views(self.tokens@) == t,
                self.no_trailing_lambda == old(self).no_trailing_lambda,
                all == spec_usings(t, old(self).pos as int),
                !(self.cur() is Newline),
                spec_using_paths(usings@) + spec_usings(t, self.pos as int).0 == all.0,
                spec_usings_clean(t, old(self).pos as int) ==> spec_usings_clean(t, self.pos as int) && self.errors@ == old(self).errors@,
                spec_usings(t, self.pos as int).1 == all.1,
            decreases self.tokens@.len() - self.pos,
        {
            let ghost q = self.pos as int;
            let ghost before = usings@;
            match self.parse_using() {
                Ok(u) => usings.push(u),
                Err(e) => {
                    self.errors.push(e);
                    self.recover_to_newline();
                },
            }
            let ghost j2 = self.pos as int;
            proof {
                lemma_skip_newlines(self.tokens@, j2);
                lemma_skip_newline_views(self.tokens@, j2);
                lemma_skip_newline_views(self.tokens@, spec_skip_newlines(self.tokens@, j2));
            }
            self.skip_newlines();
            proof {
                let (res, j) = spec_using_at(t, q);
                let rest = spec_usings(t, j2);
                assert(spec_usings(t, q) == (if res is Some { seq![res->0] + rest.0 } else { rest.0 }, rest.1));
                assert(spec_usings(t, j2) == spec_usings(t, self.pos as int));
                assert(spec_usings_clean(t, j2) == spec_usings_clean(t, self.pos as int));
                if res is Some {
                    assert(spec_using_paths(usings@) =~= spec_using_paths(before).push(res->0));
                    assert(spec_using_paths(before) + (seq![res->0] + rest.0) =~= spec_using_paths(usings@) + rest.0);
                } else {
                    assert(usings@ == before);
                }
            }
        }

        let ghost d = self.pos as int;
        let ghost n_errors = self.errors@.len();
        let mut decl_ok = false;
        let decl = match self.parse_decl() {
            Ok(d) => {
                decl_ok = true;
                d
            },
            Err(e) => {
                self.errors.push(e);
                Decl::Component {
                    is_singleton: false,
                    is_partial: false,
                    name: owned("<error>"),
                    name_span: self.peek_span(),
                    base_class: owned("MonoBehaviour"),
                    base_class_span: self.peek_span(),
                    interfaces: Vec::new(),
                    interface_spans: Vec::new(),
                    members: Vec::new(),
                    span: self.peek_span(),
                }
            },
        };

        if decl_ok {
            self.skip_newlines();
            if !self.check(&TokenKind::Eof) {
                let leftover_span = self.peek_span();
                self.errors.push(ParseError {
                    message: owned("E189: Multiple top-level declarations in a single file. Each .prsm file shall contain exactly one top-level declaration (S5.1). Move the additional declaration into its own .prsm file."),
                    span: leftover_span,
                });
            }
        }

        let end = self.peek_span();
        File { usings, decl, span: Span::join(start, end) }
    }

    /// `using A.B.C`
    fn parse_using(&mut self) -> (r: Result<UsingDecl, ParseError>)
        requires
            old(self).wf(),
            old(self).cur() is Using,
        ensures
            final(self).evolves(*old(self)),
            final(self).pos > old(self).pos,
            final(self).no_trailing_lambda == old(self).no_trailing_lambda,
            ({
                let u = spec_using_at(spec_views(old(self).tokens@), old(self).pos as int);
                &&& final(self).pos == u.1
                &&& (r is Ok <==> u.0 is Some)
                &&& (r matches Ok(d) ==> d.path@ == u.0->0)
                &&& (r is Ok && spec_line_ended(spec_views(old(self).tokens@), u.1) ==> final(self).errors@ == old(self).errors@)
            }),
    {
        let ghost t = spec_views(self.tokens@);
        let ghost i = self.pos as int;
        let start = self.peek_span();
        self.expect(&TokenKind::Using)?;

        let (first, _s) = self.expect_ident()?;
        let mut path = first;

        while self.eat(&TokenKind::Dot)
            invariant
                self.advanced(*old(self)),
                self.no_trailing_lambda == old(self).no_trailing_lambda,
                spec_views(self.tokens@) == t,
                i == old(self).pos,
                spec_using_rest(t, self.pos as int, path@) == spec_using_at(t, i),
                self.errors@ == old(self).errors@,
                self.tokens@[self.pos - 1].kind is Identifier,
            decreases self.tokens@.len() - self.pos,
        {
            let (next, _s2) = self.expect_ident()?;
            path = cat3(path.as_str(), ".", next.as_str());
        }

        self.expect_newline_or_eof();
        Ok(UsingDecl { path, span: Span::join(start, self.peek_span()) })
    }
}

} // verus!
