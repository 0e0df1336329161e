//! The lexical grammar of PrSM as spec functions: which tokens a source text gives, with
//! their spans, as a function of its characters alone.
//!
//! A token is compared by its view: the kind's tag, its text payload (identifiers, literals,
//! string pieces, error messages), its integer payload and its span.
use vstd::prelude::*;
use crate::token::{Position, Span, Token, TokenKind, spec_kind_tag, spec_keyword_kind};
use crate::text::{is_digit_spec, is_ident_start_spec, is_ident_char_spec};

verus! {

/// A token as plain values: tag, text payload, integer payload, span.
pub type TokView = (u8, Seq<char>, int, Span);

/// The text carried by a token kind (empty for kinds without text).
pub open spec fn spec_kind_text(k: TokenKind) -> Seq<char> {
    match k {
        TokenKind::Identifier(s) => s@,
        TokenKind::FloatLiteral(s) => s@,
        TokenKind::DurationLiteral(s) => s@,
        TokenKind::StringLiteral(s) => s@,
        TokenKind::StringStart(s) => s@,
        TokenKind::StringMiddle(s) => s@,
        TokenKind::StringEnd(s) => s@,
        TokenKind::Error(s) => s@,
        _ => Seq::empty(),
    }
}

/// The integer carried by a token kind (0 for kinds without one).
pub open spec fn spec_kind_int(k: TokenKind) -> int {
    match k {
        TokenKind::IntLiteral(n) => n as int,
        _ => 0,
    }
}

/// A token as plain values.
pub open spec fn spec_token_view(t: Token) -> TokView {
    (spec_kind_tag(t.kind), spec_kind_text(t.kind), spec_kind_int(t.kind), t.span)
}

/// Tokens as plain values.
pub open spec fn spec_views(toks: Seq<Token>) -> Seq<TokView> {
    toks.map_values(|t: Token| spec_token_view(t))
}

/// The views of a sequence with one more token.
pub proof fn lemma_views_push(toks: Seq<Token>, t: Token)
    ensures
        spec_views(toks.push(t)) == spec_views(toks).push(spec_token_view(t)),
{
    assert(spec_views(toks.push(t)) =~= spec_views(toks).push(spec_token_view(t)));
}

/// Tags of the kinds that carry a payload.
pub open spec fn tag_identifier() -> u8 { 0u8 }
pub open spec fn tag_int() -> u8 { 1u8 }
pub open spec fn tag_float() -> u8 { 2u8 }
pub open spec fn tag_duration() -> u8 { 3u8 }
pub open spec fn tag_string_literal() -> u8 { 4u8 }
pub open spec fn tag_string_start() -> u8 { 5u8 }
pub open spec fn tag_string_middle() -> u8 { 6u8 }
pub open spec fn tag_string_end() -> u8 { 7u8 }
pub open spec fn tag_error() -> u8 { 8u8 }

// ── Positions ────────────────────────────────────────────────────

/// The line and column of character `i` of the source (both from 1): a newline starts the
/// next line at column 1.
pub open spec fn spec_pos_at(c: Seq<char>, i: int) -> Position
    decreases i,
{
    if i <= 0 {
        Position { line: 1, col: 1 }
    } else {
        let q = spec_pos_at(c, i - 1);
        if c[i - 1] == '\n' {
            Position { line: (q.line + 1) as u32, col: 1 }
        } else {
            Position { line: q.line, col: (q.col + 1) as u32 }
        }
    }
}

/// The span from character `a` to character `b`.
pub open spec fn spec_span(c: Seq<char>, a: int, b: int) -> Span {
    Span { start: spec_pos_at(c, a), end: spec_pos_at(c, b) }
}

/// A token without payload over characters `a..b`.
pub open spec fn spec_plain(k: TokenKind, c: Seq<char>, a: int, b: int) -> TokView {
    (spec_kind_tag(k), Seq::empty(), 0, spec_span(c, a, b))
}

/// A token carrying `text` over characters `a..b`.
pub open spec fn spec_texty(tag: u8, text: Seq<char>, c: Seq<char>, a: int, b: int) -> TokView {
    (tag, text, 0, spec_span(c, a, b))
}

// ── Scanning ─────────────────────────────────────────────────────

/// The first index from `i` on that is the end or not an identifier character.
pub open spec fn spec_ident_end(c: Seq<char>, i: int) -> int
    decreases c.len() - i,
{
    if i < 0 || i >= c.len() || !is_ident_char_spec(c[i]) { if i < 0 { 0 } else { i } } else { spec_ident_end(c, i + 1) }
}

/// The end of an identifier is not before where the scan starts.
pub proof fn lemma_ident_end_ge(c: Seq<char>, i: int)
    requires
        i >= 0,
    ensures
        i <= spec_ident_end(c, i) <= if i <= c.len() { c.len() as int } else { i },
    decreases c.len() - i,
{
    if i < c.len() && is_ident_char_spec(c[i]) {
        lemma_ident_end_ge(c, i + 1);
    }
}

/// The first index from `i` on that is the end or not a digit.
pub open spec fn spec_digit_end(c: Seq<char>, i: int) -> int
    decreases c.len() - i,
{
    if i < 0 || i >= c.len() || !is_digit_spec(c[i]) { if i < 0 { 0 } else { i } } else { spec_digit_end(c, i + 1) }
}

/// The first index from `i` on that is the end or a newline.
pub open spec fn spec_line_end(c: Seq<char>, i: int) -> int
    decreases c.len() - i,
{
    if i < 0 || i >= c.len() || c[i] == '\n' { if i < 0 { 0 } else { i } } else { spec_line_end(c, i + 1) }
}

/// The first index from `i` on that is the end or starts `*/`.
pub open spec fn spec_block_end(c: Seq<char>, i: int) -> int
    decreases c.len() - i,
{
    if i < 0 || i >= c.len() || (c[i] == '*' && i + 1 < c.len() && c[i + 1] == '/') { if i < 0 { 0 } else { i } }
    else { spec_block_end(c, i + 1) }
}

/// The value of a run of decimal digits.
pub open spec fn spec_digits_value(d: Seq<char>) -> nat
    decreases d.len(),
{
    if d.len() == 0 {
        0
    } else {
        (spec_digits_value(d.drop_last()) * 10 + ((d.last() as int) - 48)) as nat
    }
}

// ── Tokens of one construct ──────────────────────────────────────

/// A word at `p`: a keyword, else an identifier; the index after it.
pub open spec fn spec_word(c: Seq<char>, p: int) -> (int, TokView) {
    let e = spec_ident_end(c, p + 1);
    let w = c.subrange(p, e);
    match spec_keyword_kind(w) {
        Some(k) => (e, spec_plain(k, c, p, e)),
        None => (e, spec_texty(tag_identifier(), w, c, p, e)),
    }
}

/// A number at `p`: digits, an optional `.digits` fraction, and an optional `s` (duration)
/// or `f` (float) suffix not followed by an identifier character. An integer that does not
/// fit in `i64` is an error token.
pub open spec fn spec_number(c: Seq<char>, p: int) -> (int, TokView) {
    let e1 = spec_digit_end(c, p);
    let value = spec_digits_value(c.subrange(p, e1));
    let is_float = e1 + 1 < c.len() && c[e1] == '.' && is_digit_spec(c[e1 + 1]);
    let e2 = if is_float { spec_digit_end(c, e1 + 1) } else { e1 };
    let text = c.subrange(p, e2);
    let suffix_ok = e2 < c.len() && !(e2 + 1 < c.len() && is_ident_char_spec(c[e2 + 1]));
    if suffix_ok && c[e2] == 's' {
        (e2 + 1, spec_texty(tag_duration(), text, c, p, e2 + 1))
    } else if suffix_ok && c[e2] == 'f' {
        (e2 + 1, spec_texty(tag_float(), text, c, p, e2 + 1))
    } else if is_float {
        (e2, spec_texty(tag_float(), text, c, p, e2))
    } else if value > i64::MAX {
        (e2, spec_texty(tag_error(), "Integer literal out of range: "@ + text, c, p, e2))
    } else {
        (e2, (tag_int(), Seq::empty(), value as int, spec_span(c, p, e2)))
    }
}

/// The character that an escape `\e` stands for.
pub open spec fn spec_escape(e: char) -> char {
    if e == 'n' { '\n' } else if e == 't' { '\t' } else if e == 'r' { '\r' } else if e == '0' { '\0' } else { e }
}

/// The tag of a piece of a string literal that ends it (`first`: the whole literal).
pub open spec fn spec_closing_tag(first: bool) -> u8 {
    if first { tag_string_literal() } else { tag_string_end() }
}

/// The tag of a piece of a string literal that an interpolation follows.
pub open spec fn spec_opening_tag(first: bool) -> u8 {
    if first { tag_string_start() } else { tag_string_middle() }
}

/// The rest of a string literal from `p`, whose current piece started at `start` and holds
/// `text` so far: the index after it, its tokens, and whether a `${` interpolation was left
/// open. An escape `\e` adds its character; `$name` ends the piece, gives the identifier and
/// starts a new piece; `${` ends the piece and opens an interpolation; `"` closes the literal;
/// a newline or the end gives an error token.
pub open spec fn spec_string_body(c: Seq<char>, p: int, first: bool, start: int, text: Seq<char>) -> (int, Seq<TokView>, bool)
    decreases c.len() - p,
{
    if p < 0 || p >= c.len() || c[p] == '\n' {
        (p, seq![spec_texty(tag_error(), "Unterminated string literal"@, c, start, p)], false)
    } else if c[p] == '"' {
        (p + 1, seq![spec_texty(spec_closing_tag(first), text, c, start, p + 1)], false)
    } else if c[p] == '\\' && p + 1 < c.len() {
        spec_string_body(c, p + 2, first, start, text.push(spec_escape(c[p + 1])))
    } else if c[p] == '$' && p + 1 < c.len() && c[p + 1] == '{' {
        (p + 2, seq![spec_texty(spec_opening_tag(first), text, c, start, p + 2)], true)
    } else if c[p] == '$' && p + 1 < c.len() && is_ident_start_spec(c[p + 1]) {
        let e = spec_ident_end(c, p + 2);
        proof { lemma_ident_end_ge(c, p + 2); }
        let rest = spec_string_body(c, e, false, e, Seq::empty());
        (rest.0, seq![spec_texty(spec_opening_tag(first), text, c, start, p + 1),
            spec_texty(tag_identifier(), c.subrange(p + 1, e), c, p + 1, e)] + rest.1, rest.2)
    } else {
        spec_string_body(c, p + 1, first, start, text.push(c[p]))
    }
}

/// A `#` directive at `p`: `#if`, `#elif`, `#else`, `#endif`, else an error for the `#`.
pub open spec fn spec_hash(c: Seq<char>, p: int) -> (int, TokView) {
    let e = spec_ident_end(c, p + 1);
    let w = c.subrange(p + 1, e);
    if w == "if"@ { (e, spec_plain(TokenKind::HashIf, c, p, e)) }
    else if w == "elif"@ { (e, spec_plain(TokenKind::HashElif, c, p, e)) }
    else if w == "else"@ { (e, spec_plain(TokenKind::HashElse, c, p, e)) }
    else if w == "endif"@ { (e, spec_plain(TokenKind::HashEndif, c, p, e)) }
    else { (p + 1, spec_texty(tag_error(), "Unexpected character: '#'"@, c, p, p + 1)) }
}

/// The character `k` places after `p`, if there is one.
pub open spec fn spec_char_at(c: Seq<char>, p: int, k: int) -> Option<char> {
    if 0 <= p + k < c.len() { Some(c[p + k]) } else { None }
}

/// The operator or punctuation kind at `p` and its length, or `None` for a character that
/// starts no token.
pub open spec fn spec_symbol_kind(c: Seq<char>, p: int) -> Option<(TokenKind, int)> {
    let ch = c[p];
    let n1 = spec_char_at(c, p, 1);
    let n2 = spec_char_at(c, p, 2);
    if ch == '?' {
        if n1 == Some('?') && n2 == Some('=') { Some((TokenKind::ElvisAssign, 3)) }
        else if n1 == Some('.') { Some((TokenKind::QuestionDot, 2)) }
        else if n1 == Some(':') { Some((TokenKind::Elvis, 2)) }
        else { Some((TokenKind::Question, 1)) }
    } else if ch == '!' {
        if n1 == Some('!') { Some((TokenKind::BangBang, 2)) }
        else if n1 == Some('=') { Some((TokenKind::NotEq, 2)) }
        else { Some((TokenKind::Bang, 1)) }
    } else if ch == '=' {
        if n1 == Some('=') { Some((TokenKind::EqEq, 2)) }
        else if n1 == Some('>') { Some((TokenKind::FatArrow, 2)) }
        else { Some((TokenKind::Eq, 1)) }
    } else if ch == '<' {
        if n1 == Some('=') { Some((TokenKind::LtEq, 2)) } else { Some((TokenKind::Lt, 1)) }
    } else if ch == '>' {
        if n1 == Some('=') { Some((TokenKind::GtEq, 2)) } else { Some((TokenKind::Gt, 1)) }
    } else if ch == '&' && n1 == Some('&') {
        Some((TokenKind::AmpAmp, 2))
    } else if ch == '|' && n1 == Some('|') {
        Some((TokenKind::PipePipe, 2))
    } else if ch == '.' {
        if n1 == Some('.') { Some((TokenKind::DotDot, 2)) } else { Some((TokenKind::Dot, 1)) }
    } else if ch == '+' {
        if n1 == Some('=') { Some((TokenKind::PlusEq, 2)) } else { Some((TokenKind::Plus, 1)) }
    } else if ch == '-' {
        if n1 == Some('=') { Some((TokenKind::MinusEq, 2)) } else { Some((TokenKind::Minus, 1)) }
    } else if ch == '*' {
        if n1 == Some('=') { Some((TokenKind::StarEq, 2)) } else { Some((TokenKind::Star, 1)) }
    } else if ch == '/' {
        if n1 == Some('=') { Some((TokenKind::SlashEq, 2)) } else { Some((TokenKind::Slash, 1)) }
    } else if ch == '%' {
        if n1 == Some('=') { Some((TokenKind::PercentEq, 2)) } else { Some((TokenKind::Percent, 1)) }
    } else if ch == '(' { Some((TokenKind::LParen, 1)) }
    else if ch == ')' { Some((TokenKind::RParen, 1)) }
    else if ch == '[' { Some((TokenKind::LBracket, 1)) }
    else if ch == ']' { Some((TokenKind::RBracket, 1)) }
    else if ch == ',' { Some((TokenKind::Comma, 1)) }
    else if ch == ';' { Some((TokenKind::Semicolon, 1)) }
    else if ch == ':' { Some((TokenKind::Colon, 1)) }
    else if ch == '@' { Some((TokenKind::At, 1)) }
    else { None }
}

/// An operator or punctuation token at `p`, or an error for an unexpected character.
pub open spec fn spec_symbol(c: Seq<char>, p: int) -> (int, TokView) {
    match spec_symbol_kind(c, p) {
        Some((k, n)) => (p + n, spec_plain(k, c, p, p + n)),
        None => (p + 1, spec_texty(tag_error(), "Unexpected character: '"@.push(c[p]).push('\''), c, p, p + 1)),
    }
}

// ── The lexer as a state machine ─────────────────────────────────

/// The lexer's state: the next character, the brace depth, and the brace depths at which
/// open string interpolations resume.
pub type LexState = (int, usize, Seq<usize>);

/// One step of the lexer from state `s` (its position inside the source): the next state
/// and the tokens it gives. Blanks and comments give none.
pub open spec fn spec_lex_step(c: Seq<char>, s: LexState) -> (LexState, Seq<TokView>) {
    let (p, depth, interp) = s;
    let ch = c[p];
    if ch == ' ' || ch == '\t' || ch == '\r' {
        ((p + 1, depth, interp), Seq::empty())
    } else if ch == '\n' {
        ((p + 1, depth, interp), seq![spec_plain(TokenKind::Newline, c, p, p + 1)])
    } else if ch == '/' && p + 1 < c.len() && c[p + 1] == '/' {
        ((spec_line_end(c, p), depth, interp), Seq::empty())
    } else if ch == '/' && p + 1 < c.len() && c[p + 1] == '*' {
        let e = spec_block_end(c, p + 2);
        ((if e + 2 <= c.len() { e + 2 } else { e }, depth, interp), Seq::empty())
    } else if is_ident_start_spec(ch) {
        let (e, t) = spec_word(c, p);
        ((e, depth, interp), seq![t])
    } else if is_digit_spec(ch) {
        let (e, t) = spec_number(c, p);
        ((e, depth, interp), seq![t])
    } else if ch == '"' {
        let b = spec_string_body(c, p + 1, true, p, Seq::empty());
        ((b.0, depth, if b.2 { interp.push(depth) } else { interp }), b.1)
    } else if ch == '{' {
        ((p + 1, if depth < usize::MAX { (depth + 1) as usize } else { depth }, interp),
            seq![spec_plain(TokenKind::LBrace, c, p, p + 1)])
    } else if ch == '}' {
        if interp.len() > 0 && interp.last() == depth {
            let b = spec_string_body(c, p + 1, false, p + 1, Seq::empty());
            let rest = interp.drop_last();
            ((b.0, depth, if b.2 { rest.push(depth) } else { rest }), b.1)
        } else {
            ((p + 1, if depth > 0 { (depth - 1) as usize } else { depth }, interp),
                seq![spec_plain(TokenKind::RBrace, c, p, p + 1)])
        }
    } else if ch == '#' {
        let (e, t) = spec_hash(c, p);
        ((e, depth, interp), seq![t])
    } else {
        let (e, t) = spec_symbol(c, p);
        ((e, depth, interp), seq![t])
    }
}

/// The tokens of the source from state `s` to its end (without the final `Eof`).
pub open spec fn spec_lex_from(c: Seq<char>, s: LexState) -> Seq<TokView>
    decreases c.len() - s.0,
{
    if s.0 < 0 || s.0 >= c.len() {
        Seq::empty()
    } else {
        let (s2, toks) = spec_lex_step(c, s);
        if s2.0 <= s.0 || s2.0 > c.len() { toks } else { toks + spec_lex_from(c, s2) }
    }
}

/// The tokens of a source text: each construct in turn from the start, then `Eof` at the end.
pub open spec fn spec_lex(c: Seq<char>) -> Seq<TokView> {
    spec_lex_from(c, (0, 0usize, Seq::empty())).push(spec_plain(TokenKind::Eof, c, c.len() as int, c.len() as int))
}

} // verus!
