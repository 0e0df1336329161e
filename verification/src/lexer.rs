//! The PrSM lexer: turns source text into a token stream that ends in exactly one `Eof`.
use vstd::prelude::*;
use crate::token::{Position, Span, Token, TokenKind, spec_keyword_kind, spec_keyword_text, lemma_keyword_kind_spells_itself};
use crate::text::{str_eq, owned, cat2, push_char, chars_of, string_from_chars, is_digit, is_ident_start, is_ident_char, is_digit_spec};
use crate::lexical::{
    LexState, TokView, spec_pos_at, spec_span, spec_views, spec_token_view, spec_plain, spec_texty, spec_ident_end,
    spec_digit_end, spec_line_end, spec_block_end, spec_digits_value, spec_word, spec_number,
    spec_closing_tag, spec_opening_tag, spec_string_body, spec_hash, spec_char_at, spec_symbol,
    spec_lex_step, spec_lex_from, spec_lex, tag_identifier, tag_error, lemma_views_push,
};

verus! {

/// Turns PrSM source text into tokens.
pub struct Lexer {
    chars: Vec<char>,
    pos: usize,
    line: u32,
    col: u32,
    tokens: Vec<Token>,
    brace_depth: usize,
    interp: Vec<usize>,
}

/// A token stream the parser accepts: non-empty, ending in `Eof`, with no `Eof` before the end.
pub open spec fn well_terminated(toks: Seq<Token>) -> bool {
    &&& toks.len() > 0
    &&& toks.last().kind is Eof
    &&& forall|i: int| 0 <= i < toks.len() - 1 ==> !(#[trigger] toks[i].kind is Eof)
}

/// A token stream the parser can run over: non-empty and ending in `Eof`. The parser never
/// moves past an `Eof`, so what follows an earlier one is not read.
pub open spec fn ends_in_eof(toks: Seq<Token>) -> bool {
    &&& toks.len() > 0
    &&& toks.last().kind is Eof
}

/// No token of the sequence is `Eof`.
pub open spec fn no_eof(toks: Seq<Token>) -> bool {
    forall|i: int| 0 <= i < toks.len() ==> !(#[trigger] toks[i].kind is Eof)
}

/// Position `a` is not after position `b`.
pub open spec fn spec_position_le(a: Position, b: Position) -> bool {
    a.line < b.line || (a.line == b.line && a.col <= b.col)
}

/// The tokens lie in source order: each starts no later than it ends, and ends no later
/// than any later token starts.
pub open spec fn spec_in_source_order(toks: Seq<Token>) -> bool {
    &&& forall|i: int| 0 <= i < toks.len() ==> spec_position_le(#[trigger] toks[i].span.start, toks[i].span.end)
    &&& forall|i: int, j: int| 0 <= i < j < toks.len() ==> spec_position_le(#[trigger] toks[i].span.end, #[trigger] toks[j].span.start)
}

/// Every token ends no later than `p`.
pub open spec fn spec_ends_by(toks: Seq<Token>, p: Position) -> bool {
    forall|i: int| 0 <= i < toks.len() ==> spec_position_le(#[trigger] toks[i].span.end, p)
}

impl Lexer {
    pub closed spec fn inv(&self) -> bool {
        &&& self.pos <= self.chars@.len()
        &&& self.chars@.len() <= isize::MAX / 4
        &&& self.chars@.len() < u32::MAX
        &&& 1 <= self.line <= self.pos + 1
        &&& 1 <= self.col <= self.pos + 1
        &&& no_eof(self.tokens@)
        &&& spec_in_source_order(self.tokens@)
        &&& spec_ends_by(self.tokens@, self.spec_here())
        &&& self.spec_here() == spec_pos_at(self.chars@, self.pos as int)
    }

    /// The characters being lexed.
    pub closed spec fn source_chars(&self) -> Seq<char> {
        self.chars@
    }

    /// Nothing has been lexed yet: at the start, no tokens, no braces or interpolations open.
    pub closed spec fn is_fresh(&self) -> bool {
        &&& self.pos == 0
        &&& self.tokens@.len() == 0
        &&& self.brace_depth == 0
        &&& self.interp@.len() == 0
    }

    /// The tokens recorded so far, as plain values.
    pub closed spec fn lexed(&self) -> Seq<TokView> {
        spec_views(self.tokens@)
    }

    /// The lexer's state as plain values.
    pub closed spec fn model(&self) -> LexState {
        (self.pos as int, self.brace_depth, self.interp@)
    }

    /// The position of the next character.
    pub closed spec fn spec_here(&self) -> Position {
        Position { line: self.line, col: self.col }
    }

    /// A lexer positioned at the start of `source` (line 1, column 1). Lines and columns are
    /// `u32`, so the source holds fewer than `u32::MAX` characters.
    pub fn new(source: &str) -> (r: Lexer)
        requires
            source@.len() < u32::MAX,
        ensures
            r.inv(),
            r.source_chars() == source@,
            r.is_fresh(),
    {
        Lexer {
            chars: chars_of(source),
            pos: 0,
            line: 1,
            col: 1,
            tokens: Vec::new(),
            brace_depth: 0,
            interp: Vec::new(),
        }
    }

    fn here(&self) -> (r: Position)
        ensures
            r.line == self.line && r.col == self.col,
            r == self.spec_here(),
    {
        Position { line: self.line, col: self.col }
    }

    fn cur(&self) -> (r: Option<char>)
        requires
            self.inv(),
        ensures
            r is Some <==> self.pos < self.chars@.len(),
            r matches Some(c) ==> c == self.chars@[self.pos as int],
    {
        if self.pos < self.chars.len() {
            Some(self.chars[self.pos])
        } else {
            None
        }
    }

    fn at(&self, offset: usize) -> (r: Option<char>)
        requires
            self.inv(),
            offset <= 2,
        ensures
            r is Some <==> self.pos + offset < self.chars@.len(),
            r matches Some(c) ==> c == self.chars@[self.pos + offset],
    {
        if self.pos + offset < self.chars.len() {
            Some(self.chars[self.pos + offset])
        } else {
            None
        }
    }

    /// Consumes one character, keeping line and column up to date.
    fn bump(&mut self)
        requires
            old(self).inv(),
            old(self).pos < old(self).chars@.len(),
        ensures
            final(self).inv(),
            final(self).pos == old(self).pos + 1,
            final(self).chars == old(self).chars,
            final(self).tokens == old(self).tokens,
            final(self).brace_depth == old(self).brace_depth,
            final(self).interp == old(self).interp,
            spec_position_le(old(self).spec_here(), final(self).spec_here()),
    {
        proof {
            let q = spec_pos_at(self.chars@, self.pos as int);
            assert(spec_pos_at(self.chars@, self.pos + 1) == if self.chars@[self.pos as int] == '\n' {
                Position { line: (q.line + 1) as u32, col: 1 }
            } else {
                Position { line: q.line, col: (q.col + 1) as u32 }
            });
        }
        let c = self.chars[self.pos];
        self.pos = self.pos + 1;
        if c == '\n' {
            self.line = self.line + 1;
            self.col = 1;
        } else {
            self.col = self.col + 1;
        }
    }

    fn push(&mut self, kind: TokenKind, start: Position)
        requires
            old(self).inv(),
            !(kind is Eof),
            spec_position_le(start, old(self).spec_here()),
            spec_ends_by(old(self).tokens@, start),
        ensures
            final(self).inv(),
            final(self).pos == old(self).pos,
            final(self).chars == old(self).chars,
            final(self).tokens@ == old(self).tokens@.push(Token { kind, span: Span { start, end: Position { line: old(self).line, col: old(self).col } } }),
            final(self).brace_depth == old(self).brace_depth,
            final(self).interp == old(self).interp,
            final(self).spec_here() == old(self).spec_here(),
            spec_views(final(self).tokens@) == spec_views(old(self).tokens@).push(spec_token_view(
                Token { kind, span: Span { start, end: old(self).spec_here() } })),
    {
        proof {
            lemma_views_push(self.tokens@, Token { kind, span: Span { start, end: self.spec_here() } });
        }
        let end = self.here();
        self.tokens.push(Token { kind, span: Span { start, end } });
        proof {
            assert forall|i: int| 0 <= i < self.tokens@.len() implies !(#[trigger] self.tokens@[i].kind is Eof) by {
                if i < old(self).tokens@.len() {
                    assert(self.tokens@[i] == old(self).tokens@[i]);
                }
            }
        }
    }

    /// Consumes `n` characters and records one token for them.
    fn emit(&mut self, kind: TokenKind, n: usize)
        requires
            old(self).inv(),
            !(kind is Eof),
            old(self).pos + n <= old(self).chars@.len(),
        ensures
            final(self).inv(),
            final(self).pos == old(self).pos + n,
            final(self).chars == old(self).chars,
            final(self).tokens@.len() == old(self).tokens@.len() + 1,
            final(self).brace_depth == old(self).brace_depth,
            final(self).interp == old(self).interp,
            spec_views(final(self).tokens@) == spec_views(old(self).tokens@).push(spec_token_view(
                Token { kind, span: spec_span(old(self).chars@, old(self).pos as int, old(self).pos + n) })),
    {
        let start = self.here();
        let mut i: usize = 0;
        while i < n
            invariant
                self.inv(),
                spec_position_le(start, self.spec_here()),
                spec_ends_by(self.tokens@, start),
                self.pos == old(self).pos + i,
                i <= n,
                old(self).pos + n <= self.chars@.len(),
                self.chars == old(self).chars,
                self.tokens == old(self).tokens,
                self.brace_depth == old(self).brace_depth,
                self.interp == old(self).interp,
            decreases n - i,
        {
            self.bump();
            i = i + 1;
        }
        self.push(kind, start);
    }

    /// Tokenizes the whole source. The result always ends in a single `Eof`; from a fresh
    /// lexer it is exactly the lexical grammar's tokens of the source.
    pub fn tokenize(&mut self) -> (r: Vec<Token>)
        requires
            old(self).inv(),
        ensures
            well_terminated(r@),
            spec_in_source_order(r@),
            spec_views(r@) == (old(self).lexed() + spec_lex_from(old(self).source_chars(), old(self).model()))
                .push(spec_plain(TokenKind::Eof, old(self).source_chars(), old(self).source_chars().len() as int,
                    old(self).source_chars().len() as int)),
            old(self).is_fresh() ==> spec_views(r@) == spec_lex(old(self).source_chars()),
    {
        let ghost c = self.chars@;
        let ghost goal = spec_views(self.tokens@) + spec_lex_from(c, self.model());
        while self.pos < self.chars.len()
            invariant
                self.inv(),
                self.chars@ == c,
                spec_views(self.tokens@) + spec_lex_from(c, self.model()) == goal,
            decreases self.chars@.len() - self.pos,
        {
            let ghost s0 = self.model();
            let ghost v0 = spec_views(self.tokens@);
            self.lex_one();
            proof {
                let st = spec_lex_step(c, s0);
                assert(spec_lex_from(c, s0) == st.1 + spec_lex_from(c, st.0));
                assert(v0 + (st.1 + spec_lex_from(c, st.0)) =~= (v0 + st.1) + spec_lex_from(c, st.0));
            }
        }
        proof {
            assert(spec_lex_from(c, self.model()) == Seq::<TokView>::empty());
            assert(spec_views(self.tokens@) =~= goal);
        }
        let here = self.here();
        let mut toks = Vec::new();
        std::mem::swap(&mut toks, &mut self.tokens);
        let ghost before = toks@;
        toks.push(Token { kind: TokenKind::Eof, span: Span { start: here, end: here } });
        proof {
            lemma_views_push(before, Token { kind: TokenKind::Eof, span: Span { start: here, end: here } });
            if old(self).is_fresh() {
                assert(old(self).interp@ =~= Seq::<usize>::empty());
                assert(old(self).tokens@ =~= Seq::<Token>::empty());
                assert(spec_views(old(self).tokens@) + spec_lex_from(c, old(self).model()) =~= spec_lex_from(c, old(self).model()));
            }
            assert forall|i: int, j: int| 0 <= i < j < toks@.len() implies
                spec_position_le(#[trigger] toks@[i].span.end, #[trigger] toks@[j].span.start) by {
                assert(toks@[i] == before[i]);
                if j < before.len() {
                    assert(toks@[j] == before[j]);
                }
            }
            assert forall|i: int| 0 <= i < toks@.len() implies spec_position_le(#[trigger] toks@[i].span.start, toks@[i].span.end) by {
                if i < before.len() {
                    assert(toks@[i] == before[i]);
                }
            }
            assert forall|i: int| 0 <= i < toks@.len() - 1 implies !(#[trigger] toks@[i].kind is Eof) by {
                assert(toks@[i] == before[i]);
            }
        }
        toks
    }

    /// Lexes one token (or skips blanks and comments), always consuming at least one character:
    /// one step of the lexical grammar.
    fn lex_one(&mut self)
        requires
            old(self).inv(),
            old(self).pos < old(self).chars@.len(),
        ensures
            final(self).inv(),
            final(self).pos > old(self).pos,
            final(self).chars == old(self).chars,
            final(self).model() == spec_lex_step(old(self).chars@, old(self).model()).0,
            spec_views(final(self).tokens@) == spec_views(old(self).tokens@) + spec_lex_step(old(self).chars@, old(self).model()).1,
    {
        let c = self.chars[self.pos];
        let start = self.here();
        let ghost p = self.pos as int;
        let ghost step = spec_lex_step(self.chars@, self.model());
        if c == ' ' || c == '\t' || c == '\r' {
            self.bump();
            proof { assert(spec_views(self.tokens@) =~= spec_views(old(self).tokens@) + step.1); }
        } else if c == '\n' {
            self.bump();
            self.push(TokenKind::Newline, start);
            proof { assert(spec_views(self.tokens@) =~= spec_views(old(self).tokens@) + step.1); }
        } else if c == '/' && self.at(1) == Some('/') {
            let entry = self.pos;
            while self.pos < self.chars.len() && self.chars[self.pos] != '\n'
                invariant
                    self.inv(),
                    self.chars == old(self).chars,
                    self.pos >= old(self).pos,
                    entry == old(self).pos,
                    self.tokens == old(self).tokens,
                    self.brace_depth == old(self).brace_depth,
                    self.interp == old(self).interp,
                    spec_line_end(self.chars@, entry as int) == spec_line_end(self.chars@, self.pos as int),
                decreases self.chars@.len() - self.pos,
            {
                self.bump();
            }
            if self.pos == entry {
                self.bump();
            }
            proof { assert(spec_views(self.tokens@) =~= spec_views(old(self).tokens@) + step.1); }
        } else if c == '/' && self.at(1) == Some('*') {
            self.bump();
            self.bump();
            while self.pos < self.chars.len() && !(self.chars[self.pos] == '*' && self.at(1) == Some('/'))
                invariant
                    self.inv(),
                    self.chars == old(self).chars,
                    self.pos > old(self).pos,
                    self.tokens == old(self).tokens,
                    self.brace_depth == old(self).brace_depth,
                    self.interp == old(self).interp,
                    spec_block_end(self.chars@, p + 2) == spec_block_end(self.chars@, self.pos as int),
                decreases self.chars@.len() - self.pos,
            {
                self.bump();
            }
            if self.pos + 2 <= self.chars.len() {
                self.bump();
                self.bump();
            }
            proof { assert(spec_views(self.tokens@) =~= spec_views(old(self).tokens@) + step.1); }
        } else if is_ident_start(c) {
            self.lex_word();
        } else if is_digit(c) {
            self.lex_number();
        } else if c == '"' {
            self.bump();
            self.lex_string_body(true, start, Ghost(old(self).pos as int));
        } else if c == '{' {
            if self.brace_depth < usize::MAX {
                self.brace_depth = self.brace_depth + 1;
            }
            self.emit(TokenKind::LBrace, 1);
            proof { assert(spec_views(self.tokens@) =~= spec_views(old(self).tokens@) + step.1); }
        } else if c == '}' {
            let n = self.interp.len();
            if n > 0 && self.interp[n - 1] == self.brace_depth {
                self.interp.pop();
                self.bump();
                let s2 = self.here();
                self.lex_string_body(false, s2, Ghost(old(self).pos + 1));
            } else {
                if self.brace_depth > 0 {
                    self.brace_depth = self.brace_depth - 1;
                }
                self.emit(TokenKind::RBrace, 1);
                proof { assert(spec_views(self.tokens@) =~= spec_views(old(self).tokens@) + step.1); }
            }
        } else if c == '#' {
            self.lex_hash();
            proof { assert(spec_views(self.tokens@) =~= spec_views(old(self).tokens@) + step.1); }
        } else {
            self.lex_symbol(c);
            proof { assert(spec_views(self.tokens@) =~= spec_views(old(self).tokens@) + step.1); }
        }
    }

    /// An identifier or keyword.
    fn lex_word(&mut self)
        requires
            old(self).inv(),
            old(self).pos < old(self).chars@.len(),
        ensures
            final(self).inv(),
            final(self).pos > old(self).pos,
            final(self).chars == old(self).chars,
            final(self).brace_depth == old(self).brace_depth,
            final(self).interp == old(self).interp,
            final(self).pos == spec_word(old(self).chars@, old(self).pos as int).0,
            spec_views(final(self).tokens@) == spec_views(old(self).tokens@).push(spec_word(old(self).chars@, old(self).pos as int).1),
    {
        let start = self.here();
        let from = self.pos;
        self.bump();
        while self.pos < self.chars.len() && is_ident_char(self.chars[self.pos])
            invariant
                self.inv(),
                spec_position_le(start, self.spec_here()),
                spec_ends_by(self.tokens@, start),
                self.chars == old(self).chars,
                self.pos > old(self).pos,
                from == old(self).pos,
                self.tokens == old(self).tokens,
                self.brace_depth == old(self).brace_depth,
                self.interp == old(self).interp,
                start == spec_pos_at(self.chars@, from as int),
                spec_ident_end(self.chars@, from + 1) == spec_ident_end(self.chars@, self.pos as int),
            decreases self.chars@.len() - self.pos,
        {
            self.bump();
        }
        let word = string_from_chars(&self.chars, from, self.pos);
        let kind = match keyword_kind(word.as_str()) {
            Some(k) => k,
            None => TokenKind::Identifier(word),
        };
        self.push(kind, start);
    }

    /// An integer, float or duration literal.
    fn lex_number(&mut self)
        requires
            old(self).inv(),
            old(self).pos < old(self).chars@.len(),
            is_digit_spec(old(self).chars@[old(self).pos as int]),
        ensures
            final(self).inv(),
            final(self).pos > old(self).pos,
            final(self).chars == old(self).chars,
            final(self).brace_depth == old(self).brace_depth,
            final(self).interp == old(self).interp,
            final(self).pos == spec_number(old(self).chars@, old(self).pos as int).0,
            spec_views(final(self).tokens@) == spec_views(old(self).tokens@).push(spec_number(old(self).chars@, old(self).pos as int).1),
    {
        let start = self.here();
        let from = self.pos;
        let mut value: i64 = 0;
        let mut overflow = false;
        proof {
            assert(self.chars@.subrange(from as int, from as int) =~= Seq::<char>::empty());
        }
        while self.pos < self.chars.len() && is_digit(self.chars[self.pos])
            invariant
                self.inv(),
                spec_position_le(start, self.spec_here()),
                spec_ends_by(self.tokens@, start),
                self.chars == old(self).chars,
                self.pos >= old(self).pos,
                from == old(self).pos,
                from < self.chars@.len(),
                is_digit_spec(self.chars@[from as int]),
                self.tokens == old(self).tokens,
                self.brace_depth == old(self).brace_depth,
                self.interp == old(self).interp,
                start == spec_pos_at(self.chars@, from as int),
                spec_digit_end(self.chars@, from as int) == spec_digit_end(self.chars@, self.pos as int),
                value >= 0,
                !overflow ==> value == spec_digits_value(self.chars@.subrange(from as int, self.pos as int)),
                overflow ==> spec_digits_value(self.chars@.subrange(from as int, self.pos as int)) > i64::MAX,
            decreases self.chars@.len() - self.pos,
        {
            let ch = self.chars[self.pos];
            let d = (ch as u32 - '0' as u32) as i64;
            proof {
                let sub = self.chars@.subrange(from as int, self.pos as int);
                let sub2 = self.chars@.subrange(from as int, self.pos + 1);
                assert(sub2.drop_last() =~= sub);
                assert(sub2.last() == ch);
                let dv = spec_digits_value(sub);
                assert(spec_digits_value(sub2) == dv * 10 + d);
                if overflow {
                    assert(dv * 10 + d > i64::MAX) by (nonlinear_arith)
                        requires dv > i64::MAX, d >= 0;
                }
            }
            if !overflow {
                match value.checked_mul(10) {
                    Some(v) => {
                        match v.checked_add(d) {
                            Some(w) => { value = w; }
                            None => { overflow = true; }
                        }
                    }
                    None => {
                        proof {
                            assert(value * 10 + d > i64::MAX) by (nonlinear_arith)
                                requires value * 10 > i64::MAX, d >= 0;
                        }
                        overflow = true;
                    }
                }
            }
            self.bump();
        }
        if self.pos == from {
            self.bump();
        }
        let ghost e1 = self.pos as int;
        let mut is_float = false;
        if self.pos + 1 < self.chars.len() && self.chars[self.pos] == '.' && is_digit(self.chars[self.pos + 1]) {
            is_float = true;
            self.bump();
            while self.pos < self.chars.len() && is_digit(self.chars[self.pos])
                invariant
                    self.inv(),
                    spec_position_le(start, self.spec_here()),
                    spec_ends_by(self.tokens@, start),
                    self.chars == old(self).chars,
                    self.pos > e1 > old(self).pos,
                    from == old(self).pos,
                    self.tokens == old(self).tokens,
                    self.brace_depth == old(self).brace_depth,
                    self.interp == old(self).interp,
                    spec_digit_end(self.chars@, e1 + 1) == spec_digit_end(self.chars@, self.pos as int),
                decreases self.chars@.len() - self.pos,
            {
                self.bump();
            }
        }
        let text = string_from_chars(&self.chars, from, self.pos);
        let suffix_ok = self.pos < self.chars.len()
            && !(self.pos + 1 < self.chars.len() && is_ident_char(self.chars[self.pos + 1]));
        if suffix_ok && self.chars[self.pos] == 's' {
            self.bump();
            self.push(TokenKind::DurationLiteral(text), start);
        } else if suffix_ok && self.chars[self.pos] == 'f' {
            self.bump();
            self.push(TokenKind::FloatLiteral(text), start);
        } else if is_float {
            self.push(TokenKind::FloatLiteral(text), start);
        } else if overflow {
            let msg = cat2("Integer literal out of range: ", text.as_str());
            self.push(TokenKind::Error(msg), start);
        } else {
            self.push(TokenKind::IntLiteral(value), start);
        }
    }

    /// The body of a string literal after its opening quote (or after the `}` that closes an
    /// interpolation), whose current piece starts at character `start_off`. `is_first` tells
    /// whether this is the first piece of the literal.
    fn lex_string_body(&mut self, is_first: bool, start_pos: Position, Ghost(start_off): Ghost<int>)
        requires
            old(self).inv(),
            0 <= start_off <= old(self).pos,
            start_pos == spec_pos_at(old(self).chars@, start_off),
            spec_position_le(start_pos, old(self).spec_here()),
            spec_ends_by(old(self).tokens@, start_pos),
        ensures
            final(self).inv(),
            final(self).pos >= old(self).pos,
            final(self).chars == old(self).chars,
            final(self).brace_depth == old(self).brace_depth,
            ({
                let b = spec_string_body(old(self).chars@, old(self).pos as int, is_first, start_off, Seq::empty());
                &&& final(self).pos == b.0
                &&& spec_views(final(self).tokens@) == spec_views(old(self).tokens@) + b.1
                &&& final(self).interp@ == if b.2 { old(self).interp@.push(old(self).brace_depth) } else { old(self).interp@ }
            }),
    {
        let ghost total = spec_string_body(self.chars@, self.pos as int, is_first, start_off, Seq::empty());
        let ghost mut pushed: Seq<TokView> = Seq::empty();
        let ghost mut soff: int = start_off;
        let mut text = String::new();
        let mut first = is_first;
        let mut start = start_pos;
        proof {
            assert(spec_views(self.tokens@) =~= spec_views(old(self).tokens@) + pushed);
        }
        loop
            invariant
                self.inv(),
                spec_position_le(start, self.spec_here()),
                spec_ends_by(self.tokens@, start),
                self.chars == old(self).chars,
                self.pos >= old(self).pos,
                self.brace_depth == old(self).brace_depth,
                self.interp == old(self).interp,
                0 <= soff <= self.pos,
                start == spec_pos_at(self.chars@, soff),
                total == spec_string_body(old(self).chars@, old(self).pos as int, is_first, start_off, Seq::empty()),
                spec_views(self.tokens@) == spec_views(old(self).tokens@) + pushed,
                ({
                    let cur = spec_string_body(self.chars@, self.pos as int, first, soff, text@);
                    total == (cur.0, pushed + cur.1, cur.2)
                }),
            decreases self.chars@.len() - self.pos,
        {
            if self.pos >= self.chars.len() || self.chars[self.pos] == '\n' {
                let msg = owned("Unterminated string literal");
                self.push(TokenKind::Error(msg), start);
                proof {
                    let t = spec_texty(tag_error(), "Unterminated string literal"@, self.chars@, soff, self.pos as int);
                    assert(spec_views(self.tokens@) =~= spec_views(old(self).tokens@) + (pushed + seq![t]));

                }
                return;
            }
            let c = self.chars[self.pos];
            if c == '"' {
                let ghost p = self.pos as int;
                self.bump();
                if first {
                    self.push(TokenKind::StringLiteral(text), start);
                } else {
                    self.push(TokenKind::StringEnd(text), start);
                }
                proof {
                    let t = spec_texty(spec_closing_tag(first), text@, self.chars@, soff, p + 1);
                    assert(spec_views(self.tokens@) =~= spec_views(old(self).tokens@) + (pushed + seq![t]));
                }
                return;
            } else if c == '\\' && self.pos + 1 < self.chars.len() {
                let e = self.chars[self.pos + 1];
                let out = if e == 'n' {
                    '\n'
                } else if e == 't' {
                    '\t'
                } else if e == 'r' {
                    '\r'
                } else if e == '0' {
                    '\0'
                } else {
                    e
                };
                push_char(&mut text, out);
                self.bump();
                self.bump();
            } else if c == '$' && self.at(1) == Some('{') {
                let ghost p = self.pos as int;
                self.bump();
                self.bump();
                if first {
                    self.push(TokenKind::StringStart(text), start);
                } else {
                    self.push(TokenKind::StringMiddle(text), start);
                }
                let depth = self.brace_depth;
                self.interp.push(depth);
                proof {
                    let t = spec_texty(spec_opening_tag(first), text@, self.chars@, soff, p + 2);
                    assert(spec_views(self.tokens@) =~= spec_views(old(self).tokens@) + (pushed + seq![t]));

                }
                return;
            } else if c == '$' && self.pos + 1 < self.chars.len() && is_ident_start(self.chars[self.pos + 1]) {
                let ghost p = self.pos as int;
                let ghost cur_first = first;
                self.bump();
                if first {
                    self.push(TokenKind::StringStart(text), start);
                } else {
                    self.push(TokenKind::StringMiddle(text), start);
                }
                let ghost t1 = spec_texty(spec_opening_tag(cur_first), text@, self.chars@, soff, p + 1);
                let id_start = self.here();
                let from = self.pos;
                self.bump();
                let ghost tokens_before = self.tokens;
                while self.pos < self.chars.len() && is_ident_char(self.chars[self.pos])
                    invariant
                        self.inv(),
                        spec_position_le(id_start, self.spec_here()),
                        spec_ends_by(self.tokens@, id_start),
                        self.chars == old(self).chars,
                        self.pos > from,
                        from == p + 1,
                        self.brace_depth == old(self).brace_depth,
                        self.interp == old(self).interp,
                        self.tokens == tokens_before,
                        id_start == spec_pos_at(self.chars@, from as int),
                        spec_ident_end(self.chars@, from + 1) == spec_ident_end(self.chars@, self.pos as int),
                    decreases self.chars@.len() - self.pos,
                {
                    self.bump();
                }
                let name = string_from_chars(&self.chars, from, self.pos);
                self.push(TokenKind::Identifier(name), id_start);
                start = self.here();
                first = false;
                text = String::new();
                proof {
                    let e = self.pos as int;
                    let t2 = spec_texty(tag_identifier(), self.chars@.subrange(p + 1, e), self.chars@, p + 1, e);
                    assert(spec_views(self.tokens@) =~= spec_views(old(self).tokens@) + (pushed + seq![t1, t2]));
                    let rest = spec_string_body(self.chars@, e, false, e, Seq::empty());
                    assert(text@ =~= Seq::<char>::empty());
                    assert(pushed + (seq![t1, t2] + rest.1) =~= (pushed + seq![t1, t2]) + rest.1);
                    pushed = pushed + seq![t1, t2];
                    soff = e;
                }
            } else {
                push_char(&mut text, c);
                self.bump();
            }
        }
    }

    /// `#if`, `#elif`, `#else`, `#endif`; any other `#` is an error token.
    fn lex_hash(&mut self)
        requires
            old(self).inv(),
            old(self).pos < old(self).chars@.len(),
        ensures
            final(self).inv(),
            final(self).pos > old(self).pos,
            final(self).chars == old(self).chars,
            final(self).brace_depth == old(self).brace_depth,
            final(self).interp == old(self).interp,
            final(self).pos == spec_hash(old(self).chars@, old(self).pos as int).0,
            spec_views(final(self).tokens@) == spec_views(old(self).tokens@).push(spec_hash(old(self).chars@, old(self).pos as int).1),
    {
        let start = self.here();
        let from = self.pos;
        let mut end = self.pos + 1;
        while end < self.chars.len() && is_ident_char(self.chars[end])
            invariant
                self.pos < end <= self.chars@.len(),
                spec_ident_end(self.chars@, self.pos + 1) == spec_ident_end(self.chars@, end as int),
            decreases self.chars@.len() - end,
        {
            end = end + 1;
        }
        let word = string_from_chars(&self.chars, from + 1, end);
        let n = end - from;
        if str_eq(word.as_str(), "if") {
            self.emit(TokenKind::HashIf, n);
        } else if str_eq(word.as_str(), "elif") {
            self.emit(TokenKind::HashElif, n);
        } else if str_eq(word.as_str(), "else") {
            self.emit(TokenKind::HashElse, n);
        } else if str_eq(word.as_str(), "endif") {
            self.emit(TokenKind::HashEndif, n);
        } else {
            let msg = owned("Unexpected character: '#'");
            self.emit(TokenKind::Error(msg), 1);
        }
        let _ = start;
    }

    /// Operators and punctuation.
    fn lex_symbol(&mut self, c: char)
        requires
            old(self).inv(),
            old(self).pos < old(self).chars@.len(),
            c == old(self).chars@[old(self).pos as int],
        ensures
            final(self).inv(),
            final(self).pos > old(self).pos,
            final(self).chars == old(self).chars,
            final(self).brace_depth == old(self).brace_depth,
            final(self).interp == old(self).interp,
            final(self).pos == spec_symbol(old(self).chars@, old(self).pos as int).0,
            spec_views(final(self).tokens@) == spec_views(old(self).tokens@).push(spec_symbol(old(self).chars@, old(self).pos as int).1),
    {
        let n1 = self.at(1);
        let n2 = self.at(2);
        proof {
            assert(n1 == spec_char_at(self.chars@, self.pos as int, 1));
            assert(n2 == spec_char_at(self.chars@, self.pos as int, 2));
        }
        if c == '?' {
            if n1 == Some('?') && n2 == Some('=') {
                self.emit(TokenKind::ElvisAssign, 3);
            } else if n1 == Some('.') {
                self.emit(TokenKind::QuestionDot, 2);
            } else if n1 == Some(':') {
                self.emit(TokenKind::Elvis, 2);
            } else {
                self.emit(TokenKind::Question, 1);
            }
        } else if c == '!' {
            if n1 == Some('!') {
                self.emit(TokenKind::BangBang, 2);
            } else if n1 == Some('=') {
                self.emit(TokenKind::NotEq, 2);
            } else {
                self.emit(TokenKind::Bang, 1);
            }
        } else if c == '=' {
            if n1 == Some('=') {
                self.emit(TokenKind::EqEq, 2);
            } else if n1 == Some('>') {
                self.emit(TokenKind::FatArrow, 2);
            } else {
                self.emit(TokenKind::Eq, 1);
            }
        } else if c == '<' {
            if n1 == Some('=') {
                self.emit(TokenKind::LtEq, 2);
            } else {
                self.emit(TokenKind::Lt, 1);
            }
        } else if c == '>' {
            if n1 == Some('=') {
                self.emit(TokenKind::GtEq, 2);
            } else {
                self.emit(TokenKind::Gt, 1);
            }
        } else if c == '&' && n1 == Some('&') {
            self.emit(TokenKind::AmpAmp, 2);
        } else if c == '|' && n1 == Some('|') {
            self.emit(TokenKind::PipePipe, 2);
        } else if c == '.' {
            if n1 == Some('.') {
                self.emit(TokenKind::DotDot, 2);
            } else {
                self.emit(TokenKind::Dot, 1);
            }
        } else if c == '+' {
            if n1 == Some('=') {
                self.emit(TokenKind::PlusEq, 2);
            } else {
                self.emit(TokenKind::Plus, 1);
            }
        } else if c == '-' {
            if n1 == Some('=') {
                self.emit(TokenKind::MinusEq, 2);
            } else {
                self.emit(TokenKind::Minus, 1);
            }
        } else if c == '*' {
            if n1 == Some('=') {
                self.emit(TokenKind::StarEq, 2);
            } else {
                self.emit(TokenKind::Star, 1);
            }
        } else if c == '/' {
            if n1 == Some('=') {
                self.emit(TokenKind::SlashEq, 2);
            } else {
                self.emit(TokenKind::Slash, 1);
            }
        } else if c == '%' {
            if n1 == Some('=') {
                self.emit(TokenKind::PercentEq, 2);
            } else {
                self.emit(TokenKind::Percent, 1);
            }
        } else if c == '(' {
            self.emit(TokenKind::LParen, 1);
        } else if c == ')' {
            self.emit(TokenKind::RParen, 1);
        } else if c == '[' {
            self.emit(TokenKind::LBracket, 1);
        } else if c == ']' {
            self.emit(TokenKind::RBracket, 1);
        } else if c == ',' {
            self.emit(TokenKind::Comma, 1);
        } else if c == ';' {
            self.emit(TokenKind::Semicolon, 1);
        } else if c == ':' {
            self.emit(TokenKind::Colon, 1);
        } else if c == '@' {
            self.emit(TokenKind::At, 1);
        } else {
            let mut msg = owned("Unexpected character: '");
            push_char(&mut msg, c);
            push_char(&mut msg, '\'');
            self.emit(TokenKind::Error(msg), 1);
        }
    }
}

/// The keyword kind spelled by `text`, if any.
pub fn keyword_kind(text: &str) -> (r: Option<TokenKind>)
    ensures
        r == spec_keyword_kind(text@),
        r matches Some(k) ==> spec_keyword_text(k) == Some(text@),
{
    proof {
        lemma_keyword_kind_spells_itself(text@);
    }
    if str_eq(text, "using") {
        Some(TokenKind::Using)
    } else if str_eq(text, "component") {
        Some(TokenKind::Component)
    } else if str_eq(text, "singleton") {
        Some(TokenKind::Singleton)
    } else if str_eq(text, "asset") {
        Some(TokenKind::Asset)
    } else if str_eq(text, "class") {
        Some(TokenKind::Class)
    } else if str_eq(text, "data") {
        Some(TokenKind::Data)
    } else if str_eq(text, "enum") {
        Some(TokenKind::Enum)
    } else if str_eq(text, "attribute") {
        Some(TokenKind::Attribute)
    } else if str_eq(text, "interface") {
        Some(TokenKind::Interface)
    } else if str_eq(text, "typealias") {
        Some(TokenKind::TypeAlias)
    } else if str_eq(text, "struct") {
        Some(TokenKind::Struct)
    } else if str_eq(text, "extend") {
        Some(TokenKind::Extend)
    } else if str_eq(text, "abstract") {
        Some(TokenKind::Abstract)
    } else if str_eq(text, "sealed") {
        Some(TokenKind::Sealed)
    } else if str_eq(text, "open") {
        Some(TokenKind::Open)
    } else if str_eq(text, "override") {
        Some(TokenKind::Override)
    } else if str_eq(text, "operator") {
        Some(TokenKind::Operator)
    } else if str_eq(text, "static") {
        Some(TokenKind::Static)
    } else if str_eq(text, "intrinsic") {
        Some(TokenKind::Intrinsic)
    } else if str_eq(text, "serialize") {
        Some(TokenKind::Serialize)
    } else if str_eq(text, "require") {
        Some(TokenKind::Require)
    } else if str_eq(text, "optional") {
        Some(TokenKind::Optional)
    } else if str_eq(text, "child") {
        Some(TokenKind::Child)
    } else if str_eq(text, "parent") {
        Some(TokenKind::Parent)
    } else if str_eq(text, "pool") {
        Some(TokenKind::Pool)
    } else if str_eq(text, "func") {
        Some(TokenKind::Func)
    } else if str_eq(text, "coroutine") {
        Some(TokenKind::Coroutine)
    } else if str_eq(text, "val") {
        Some(TokenKind::Val)
    } else if str_eq(text, "var") {
        Some(TokenKind::Var)
    } else if str_eq(text, "const") {
        Some(TokenKind::Const)
    } else if str_eq(text, "fixed") {
        Some(TokenKind::Fixed)
    } else if str_eq(text, "public") {
        Some(TokenKind::Public)
    } else if str_eq(text, "private") {
        Some(TokenKind::Private)
    } else if str_eq(text, "protected") {
        Some(TokenKind::Protected)
    } else if str_eq(text, "return") {
        Some(TokenKind::Return)
    } else if str_eq(text, "if") {
        Some(TokenKind::If)
    } else if str_eq(text, "else") {
        Some(TokenKind::Else)
    } else if str_eq(text, "when") {
        Some(TokenKind::When)
    } else if str_eq(text, "for") {
        Some(TokenKind::For)
    } else if str_eq(text, "while") {
        Some(TokenKind::While)
    } else if str_eq(text, "in") {
        Some(TokenKind::In)
    } else if str_eq(text, "is") {
        Some(TokenKind::Is)
    } else if str_eq(text, "as") {
        Some(TokenKind::As)
    } else if str_eq(text, "break") {
        Some(TokenKind::Break)
    } else if str_eq(text, "continue") {
        Some(TokenKind::Continue)
    } else if str_eq(text, "null") {
        Some(TokenKind::Null)
    } else if str_eq(text, "this") {
        Some(TokenKind::This)
    } else if str_eq(text, "true") {
        Some(TokenKind::BoolTrue)
    } else if str_eq(text, "false") {
        Some(TokenKind::BoolFalse)
    } else if str_eq(text, "wait") {
        Some(TokenKind::Wait)
    } else if str_eq(text, "until") {
        Some(TokenKind::Until)
    } else if str_eq(text, "step") {
        Some(TokenKind::Step)
    } else if str_eq(text, "downTo") {
        Some(TokenKind::DownTo)
    } else if str_eq(text, "nextFrame") {
        Some(TokenKind::NextFrame)
    } else if str_eq(text, "fixedFrame") {
        Some(TokenKind::FixedFrame)
    } else if str_eq(text, "start") {
        Some(TokenKind::Start)
    } else if str_eq(text, "stop") {
        Some(TokenKind::Stop)
    } else if str_eq(text, "stopAll") {
        Some(TokenKind::StopAll)
    } else if str_eq(text, "listen") {
        Some(TokenKind::Listen)
    } else if str_eq(text, "unlisten") {
        Some(TokenKind::Unlisten)
    } else if str_eq(text, "manual") {
        Some(TokenKind::Manual)
    } else if str_eq(text, "try") {
        Some(TokenKind::Try)
    } else if str_eq(text, "catch") {
        Some(TokenKind::Catch)
    } else if str_eq(text, "finally") {
        Some(TokenKind::Finally)
    } else if str_eq(text, "throw") {
        Some(TokenKind::Throw)
    } else if str_eq(text, "awake") {
        Some(TokenKind::Awake)
    } else if str_eq(text, "update") {
        Some(TokenKind::Update)
    } else if str_eq(text, "fixedUpdate") {
        Some(TokenKind::FixedUpdate)
    } else if str_eq(text, "lateUpdate") {
        Some(TokenKind::LateUpdate)
    } else if str_eq(text, "onEnable") {
        Some(TokenKind::OnEnable)
    } else if str_eq(text, "onDisable") {
        Some(TokenKind::OnDisable)
    } else if str_eq(text, "onDestroy") {
        Some(TokenKind::OnDestroy)
    } else if str_eq(text, "onTriggerEnter") {
        Some(TokenKind::OnTriggerEnter)
    } else if str_eq(text, "onTriggerExit") {
        Some(TokenKind::OnTriggerExit)
    } else if str_eq(text, "onTriggerStay") {
        Some(TokenKind::OnTriggerStay)
    } else if str_eq(text, "onCollisionEnter") {
        Some(TokenKind::OnCollisionEnter)
    } else if str_eq(text, "onCollisionExit") {
        Some(TokenKind::OnCollisionExit)
    } else if str_eq(text, "onCollisionStay") {
        Some(TokenKind::OnCollisionStay)
    } else {
        None
    }
}

/// Tokenizes a whole source text.
pub fn tokenize_source(source: &str) -> (r: Vec<Token>)
    requires
        source@.len() < u32::MAX,
    ensures
        well_terminated(r@),
        spec_in_source_order(r@),
        spec_views(r@) == spec_lex(source@),
{
    let mut lexer = Lexer::new(source);
    lexer.tokenize()
}

} // verus!
