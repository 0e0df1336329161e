//! Raw C# bodies of `intrinsic` members and statements: the brace block is rebuilt as source
//! text from its tokens. Also the small helpers that name attributes and spans.
use vstd::prelude::*;
use crate::token::{Span, TokenKind};
use crate::ast::{Expr, PreprocessorCond};
use crate::text::{
    owned, cat2, cat3, chars_of, push_char, int_text, debug_kind, char_to_uppercase, uppercase_of,
    upper_spec, spec_decimal, trim_text, spec_trim, to_upper, is_digit_spec, is_alpha_spec,
};
use super::{Parser, ParseError, spec_skip_newlines, spec_kind_after_newlines};

verus! {

broadcast use crate::token::lemma_kind_tag_inverse;

/// A name with its first character upper-cased by the Unicode mapping; empty stays empty.
pub open spec fn spec_pascal(name: Seq<char>) -> Seq<char> {
    if name.len() == 0 {
        Seq::empty()
    } else {
        uppercase_of(name[0]) + name.drop_first()
    }
}

/// The C# attribute name for an annotation argument: `serializeField` becomes
/// `SerializeField`.
pub fn pascal_attr_case(name: &str) -> (r: String)
    ensures
        r@ == spec_pascal(name@),
{
    let chars = chars_of(name);
    if chars.len() == 0 {
        return String::new();
    }
    let mut out = char_to_uppercase(chars[0]);
    let mut i: usize = 1;
    while i < chars.len()
        invariant
            1 <= i <= chars@.len(),
            chars@ == name@,
            out@ == uppercase_of(chars@[0]) + chars@.subrange(1, i as int),
        decreases chars@.len() - i,
    {
        push_char(&mut out, chars[i]);
        proof {
            assert(chars@.subrange(1, i as int + 1) == chars@.subrange(1, i as int).push(chars@[i as int]));
        }
        i = i + 1;
    }
    proof {
        assert(chars@.subrange(1, chars@.len() as int) == chars@.drop_first());
    }
    out
}

/// A method name called inside an intrinsic block, in the PascalCase of generated C#.
pub fn raw_pascal_case(name: &str) -> (r: String)
    ensures
        r@ == spec_pascal(name@),
{
    pascal_attr_case(name)
}

/// ASCII letter or digit, or `_`.
pub open spec fn is_word_char(c: char) -> bool {
    is_alpha_spec(c) || is_digit_spec(c) || c == '_'
}

/// The index where the run of word characters starting at `j` ends.
pub open spec fn spec_word_end(s: Seq<char>, j: int) -> int
    decreases s.len() - j,
{
    if 0 <= j < s.len() && is_word_char(s[j]) {
        spec_word_end(s, j + 1)
    } else {
        j
    }
}

/// The run of word characters from `j` ends between `j` and the end of `s`, past `j` when
/// `s[j]` is a word character.
pub proof fn lemma_word_end_bounds(s: Seq<char>, j: int)
    requires
        0 <= j <= s.len(),
    ensures
        j <= spec_word_end(s, j) <= s.len(),
        j < s.len() && is_word_char(s[j]) ==> spec_word_end(s, j) > j,
    decreases s.len() - j,
{
    if j < s.len() && is_word_char(s[j]) {
        lemma_word_end_bounds(s, j + 1);
    }
}

/// Whether a method call `.name(` with a lower-case `name` starts at `i`.
pub open spec fn spec_method_call_at(s: Seq<char>, i: int) -> bool {
    &&& 0 <= i
    &&& i + 1 < s.len()
    &&& s[i] == '.'
    &&& 'a' <= s[i + 1] <= 'z'
    &&& spec_word_end(s, i + 1) < s.len()
    &&& s[spec_word_end(s, i + 1)] == '('
}

/// `s` from index `i` on, with every `.name(` turned into `.Name(`.
pub open spec fn spec_pascal_methods_from(s: Seq<char>, i: int) -> Seq<char>
    decreases s.len() - i,
{
    if i < 0 || i >= s.len() {
        Seq::empty()
    } else if spec_method_call_at(s, i) {
        let end = spec_word_end(s, i + 1);
        proof {
            lemma_word_end_bounds(s, i + 1);
        }
        seq!['.', upper_spec(s[i + 1])] + s.subrange(i + 2, end) + spec_pascal_methods_from(s, end)
    } else {
        seq![s[i]] + spec_pascal_methods_from(s, i + 1)
    }
}

/// A string literal of an intrinsic block with every `.camelCase(` method call turned into
/// `.CamelCase(`, as in `$"HP: {player.getHp()}"`.
pub fn pascal_case_methods_in_string(s: &str) -> (r: String)
    ensures
        r@ == spec_pascal_methods_from(s@, 0),
{
    let chars = chars_of(s);
    let n = chars.len();
    let mut out = String::new();
    let mut i: usize = 0;
    while i < n
        invariant
            n == chars@.len(),
            chars@ == s@,
            i <= n,
            out@ + spec_pascal_methods_from(chars@, i as int) == spec_pascal_methods_from(chars@, 0),
        decreases n - i,
    {
        if chars[i] == '.' && i + 1 < n && 'a' <= chars[i + 1] && chars[i + 1] <= 'z' {
            let start = i + 1;
            let mut end = start;
            while end < n && (is_word(chars[end]))
                invariant
                    n == chars@.len(),
                    start <= end <= n,
                    spec_word_end(chars@, start as int) == spec_word_end(chars@, end as int),
                decreases n - end,
            {
                end = end + 1;
            }
            proof {
                lemma_word_end_bounds(chars@, start as int);
            }
            if end < n && chars[end] == '(' {
                let ghost before = out@;
                push_char(&mut out, '.');
                push_char(&mut out, to_upper(chars[start]));
                let mut j = start + 1;
                while j < end
                    invariant
                        n == chars@.len(),
                        start + 1 <= j <= end < n,
                        out@ == before + seq!['.', upper_spec(chars@[start as int])] + chars@.subrange(start as int + 1, j as int),
                    decreases end - j,
                {
                    push_char(&mut out, chars[j]);
                    proof {
                        assert(chars@.subrange(start as int + 1, j as int + 1) == chars@.subrange(start as int + 1, j as int).push(chars@[j as int]));
                    }
                    j = j + 1;
                }
                proof {
                    assert(spec_method_call_at(chars@, i as int));
                    assert(out@ + spec_pascal_methods_from(chars@, end as int)
                        == before + spec_pascal_methods_from(chars@, i as int));
                }
                i = end;
                continue;
            }
        }
        let ghost before = out@;
        push_char(&mut out, chars[i]);
        proof {
            assert(!spec_method_call_at(chars@, i as int)) by {
                if spec_method_call_at(chars@, i as int) {
                    lemma_word_end_bounds(chars@, i as int + 1);
                }
            }
            assert(out@ + spec_pascal_methods_from(chars@, i as int + 1) == before + spec_pascal_methods_from(chars@, i as int));
        }
        i = i + 1;
    }
    out
}

/// ASCII letter or digit, or `_`.
fn is_word(c: char) -> (r: bool)
    ensures
        r == is_word_char(c),
{
    ('a' <= c && c <= 'z') || ('A' <= c && c <= 'Z') || ('0' <= c && c <= '9') || c == '_'
}

/// The first argument of an attribute-target annotation (`@field(serializeField, ..)`), as
/// a C# attribute name when it is a name or a call, and the remaining arguments.
pub fn extract_target_attr_name(args: Vec<Expr>) -> (r: (Option<String>, Vec<Expr>))
    ensures
        args@.len() == 0 ==> r.0 is None && r.1@.len() == 0,
        args@.len() > 0 ==> r.1@ == args@.drop_first(),
        args@.len() > 0 ==> (match args@[0] {
            Expr::Ident(n, _) => r.0 matches Some(a) && a@ == spec_pascal(n@),
            Expr::Call { name, .. } => r.0 matches Some(a) && a@ == spec_pascal(name@),
            _ => r.0 is None,
        }),
{
    if args.len() == 0 {
        return (None, Vec::new());
    }
    let mut args = args;
    let first_expr = args.remove(0);
    let first = match &first_expr {
        Expr::Ident(name, _) => Some(pascal_attr_case(name.as_str())),
        Expr::Call { name, .. } => Some(pascal_attr_case(name.as_str())),
        _ => None,
    };
    (first, args)
}

/// The span recorded on a preprocessor condition node.
pub fn pp_cond_span(cond: &PreprocessorCond) -> (r: Span)
    ensures
        r == (match *cond {
            PreprocessorCond::Symbol { span, .. } => span,
            PreprocessorCond::Not { span, .. } => span,
            PreprocessorCond::And { span, .. } => span,
            PreprocessorCond::Or { span, .. } => span,
        }),
{
    match cond {
        PreprocessorCond::Symbol { span, .. } => *span,
        PreprocessorCond::Not { span, .. } => *span,
        PreprocessorCond::And { span, .. } => *span,
        PreprocessorCond::Or { span, .. } => *span,
    }
}

/// The fixed C# spelling of a keyword or symbol token that an intrinsic block may hold.
pub open spec fn spec_fixed_source_text(k: TokenKind) -> Option<Seq<char>> {
    match k {
        TokenKind::BoolTrue => Some("true"@),
        TokenKind::BoolFalse => Some("false"@),
        TokenKind::Using => Some("using"@),
        TokenKind::Val => Some("val"@),
        TokenKind::Var => Some("var"@),
        TokenKind::Const => Some("const"@),
        TokenKind::Fixed => Some("fixed"@),
        TokenKind::Public => Some("public"@),
        TokenKind::Private => Some("private"@),
        TokenKind::Protected => Some("protected"@),
        TokenKind::Func => Some("func"@),
        TokenKind::Return => Some("return"@),
        TokenKind::If => Some("if"@),
        TokenKind::Else => Some("else"@),
        TokenKind::For => Some("for"@),
        TokenKind::While => Some("while"@),
        TokenKind::In => Some("in"@),
        TokenKind::Break => Some("break"@),
        TokenKind::Continue => Some("continue"@),
        TokenKind::Null => Some("null"@),
        TokenKind::This => Some("this"@),
        TokenKind::Plus => Some("+"@),
        TokenKind::Minus => Some("-"@),
        TokenKind::Star => Some("*"@),
        TokenKind::Slash => Some("/"@),
        TokenKind::Percent => Some("%"@),
        TokenKind::Eq => Some("="@),
        TokenKind::EqEq => Some("=="@),
        TokenKind::NotEq => Some("!="@),
        TokenKind::Lt => Some("<"@),
        TokenKind::Gt => Some(">"@),
        TokenKind::LtEq => Some("<="@),
        TokenKind::GtEq => Some(">="@),
        TokenKind::AmpAmp => Some("&&"@),
        TokenKind::PipePipe => Some("||"@),
        TokenKind::Bang => Some("!"@),
        TokenKind::BangBang => Some("!!"@),
        TokenKind::Dot => Some("."@),
        TokenKind::QuestionDot => Some("?."@),
        TokenKind::Elvis => Some("?:"@),
        TokenKind::Question => Some("?"@),
        TokenKind::Colon => Some(":"@),
        TokenKind::FatArrow => Some("=>"@),
        TokenKind::DotDot => Some(".."@),
        TokenKind::LParen => Some("("@),
        TokenKind::RParen => Some(")"@),
        TokenKind::LBrace => Some("{"@),
        TokenKind::RBrace => Some("}"@),
        TokenKind::LBracket => Some("["@),
        TokenKind::RBracket => Some("]"@),
        TokenKind::Comma => Some(","@),
        TokenKind::Semicolon => Some(";"@),
        TokenKind::At => Some("@"@),
        TokenKind::PlusEq => Some("+="@),
        TokenKind::MinusEq => Some("-="@),
        TokenKind::StarEq => Some("*="@),
        TokenKind::SlashEq => Some("/="@),
        TokenKind::PercentEq => Some("%="@),
        TokenKind::ElvisAssign => Some("??="@),
        _ => None,
    }
}

/// The prefix of the lexer's message for a character it does not know.
pub open spec fn unexpected_char_prefix() -> Seq<char> {
    "Unexpected character: '"@
}

/// The text of an error token inside an intrinsic block: the offending character itself when
/// the message is `Unexpected character: '<c>'`, else the message in a C# comment.
pub open spec fn spec_error_source_text(msg: Seq<char>) -> Seq<char> {
    let p = unexpected_char_prefix();
    if msg.len() >= p.len() + 1 && msg.subrange(0, p.len() as int) == p && msg.last() == '\'' {
        msg.subrange(p.len() as int, msg.len() - 1)
    } else {
        "/* "@ + msg + " */"@
    }
}

/// The characters of `msg` between `Unexpected character: '` and a final `'`, if it has
/// that form.
fn unexpected_char_text(msg: &String) -> (r: String)
    ensures
        r@ == spec_error_source_text(msg@),
{
    let chars = chars_of(msg.as_str());
    let prefix = chars_of("Unexpected character: '");
    proof {
        reveal_strlit("Unexpected character: '");
        reveal_strlit("/* ");
        reveal_strlit(" */");
    }
    let pn = prefix.len();
    let n = chars.len();
    let mut matches_form = n >= pn + 1 && chars[n - 1] == '\'';
    if matches_form {
        let mut i: usize = 0;
        assert(chars@.subrange(0, 0) =~= prefix@.subrange(0, 0));
        while i < pn
            invariant
                n == chars@.len(),
                pn == prefix@.len(),
                n >= pn + 1,
                i <= pn,
                matches_form <==> chars@.subrange(0, i as int) == prefix@.subrange(0, i as int),
            decreases pn - i,
        {
            proof {
                assert(chars@.subrange(0, i as int + 1) == chars@.subrange(0, i as int).push(chars@[i as int]));
                assert(prefix@.subrange(0, i as int + 1) == prefix@.subrange(0, i as int).push(prefix@[i as int]));
                if chars@.subrange(0, i as int + 1) == prefix@.subrange(0, i as int + 1) {
                    assert(chars@.subrange(0, i as int + 1)[i as int] == prefix@.subrange(0, i as int + 1)[i as int]);
                }
                if chars@.subrange(0, i as int) != prefix@.subrange(0, i as int) {
                    assert(chars@.subrange(0, i as int + 1).subrange(0, i as int) == chars@.subrange(0, i as int));
                    assert(prefix@.subrange(0, i as int + 1).subrange(0, i as int) == prefix@.subrange(0, i as int));
                }
            }
            if chars[i] != prefix[i] {
                matches_form = false;
            }
            i = i + 1;
        }
        proof {
            assert(prefix@.subrange(0, pn as int) == prefix@);
        }
    }
    if matches_form {
        crate::text::string_from_chars(&chars, pn, n - 1)
    } else {
        cat3("/* ", msg.as_str(), " */")
    }
}

/// The C# source text of one token of an intrinsic block: literals as written (a float with
/// `f`, a duration with `s`, a string literal quoted with its method calls PascalCased),
/// names, keywords and symbols by their spelling, unknown characters as themselves, and any
/// other token by its kind's debug rendering.
pub fn token_to_source_text(kind: &TokenKind) -> (r: String)
    ensures
        spec_fixed_source_text(*kind) matches Some(t) ==> r@ == t,
        kind matches TokenKind::IntLiteral(n) ==> r@ == spec_decimal(*n as int),
        kind matches TokenKind::FloatLiteral(n) ==> r@ == n@ + "f"@,
        kind matches TokenKind::DurationLiteral(n) ==> r@ == n@ + "s"@,
        kind matches TokenKind::StringLiteral(s) ==> r@ == "\""@ + spec_pascal_methods_from(s@, 0) + "\""@,
        kind matches TokenKind::Identifier(s) ==> r@ == s@,
        kind matches TokenKind::Error(m) ==> r@ == spec_error_source_text(m@),
{
    match fixed_source_text(kind) {
        Some(t) => {
            return owned(t);
        },
        None => {},
    }
    match kind {
        TokenKind::IntLiteral(n) => int_text(*n),
        TokenKind::FloatLiteral(n) => {
            proof {
                reveal_strlit("f");
            }
            cat2(n.as_str(), "f")
        },
        TokenKind::DurationLiteral(n) => {
            proof {
                reveal_strlit("s");
            }
            cat2(n.as_str(), "s")
        },
        TokenKind::StringLiteral(s) => {
            let inner = pascal_case_methods_in_string(s.as_str());
            cat3("\"", inner.as_str(), "\"")
        },
        TokenKind::Identifier(s) => s.clone(),
        TokenKind::Error(msg) => unexpected_char_text(msg),
        _ => debug_kind(kind),
    }
}

/// The fixed spelling of a keyword or symbol token (see `spec_fixed_source_text`).
fn fixed_source_text(kind: &TokenKind) -> (r: Option<&'static str>)
    ensures
        r matches Some(t) ==> spec_fixed_source_text(*kind) == Some(t@),
        r is None ==> spec_fixed_source_text(*kind) is None,
{
    proof {
        reveal_strlit("true");
        reveal_strlit("false");
        reveal_strlit("using");
        reveal_strlit("val");
        reveal_strlit("var");
        reveal_strlit("const");
        reveal_strlit("fixed");
        reveal_strlit("public");
        reveal_strlit("private");
        reveal_strlit("protected");
        reveal_strlit("func");
        reveal_strlit("return");
        reveal_strlit("if");
        reveal_strlit("else");
        reveal_strlit("for");
        reveal_strlit("while");
        reveal_strlit("in");
        reveal_strlit("break");
        reveal_strlit("continue");
        reveal_strlit("null");
        reveal_strlit("this");
    }
    match kind {
        TokenKind::BoolTrue => Some("true"),
        TokenKind::BoolFalse => Some("false"),
        TokenKind::Using => Some("using"),
        TokenKind::Val => Some("val"),
        TokenKind::Var => Some("var"),
        TokenKind::Const => Some("const"),
        TokenKind::Fixed => Some("fixed"),
        TokenKind::Public => Some("public"),
        TokenKind::Private => Some("private"),
        TokenKind::Protected => Some("protected"),
        TokenKind::Func => Some("func"),
        TokenKind::Return => Some("return"),
        TokenKind::If => Some("if"),
        TokenKind::Else => Some("else"),
        TokenKind::For => Some("for"),
        TokenKind::While => Some("while"),
        TokenKind::In => Some("in"),
        TokenKind::Break => Some("break"),
        TokenKind::Continue => Some("continue"),
        TokenKind::Null => Some("null"),
        TokenKind::This => Some("this"),
        TokenKind::Plus => Some("+"),
        TokenKind::Minus => Some("-"),
        TokenKind::Star => Some("*"),
        TokenKind::Slash => Some("/"),
        TokenKind::Percent => Some("%"),
        TokenKind::Eq => Some("="),
        TokenKind::EqEq => Some("=="),
        TokenKind::NotEq => Some("!="),
        TokenKind::Lt => Some("<"),
        TokenKind::Gt => Some(">"),
        TokenKind::LtEq => Some("<="),
        TokenKind::GtEq => Some(">="),
        TokenKind::AmpAmp => Some("&&"),
        TokenKind::PipePipe => Some("||"),
        TokenKind::Bang => Some("!"),
        TokenKind::BangBang => Some("!!"),
        TokenKind::Dot => Some("."),
        TokenKind::QuestionDot => Some("?."),
        TokenKind::Elvis => Some("?:"),
        TokenKind::Question => Some("?"),
        TokenKind::Colon => Some(":"),
        TokenKind::FatArrow => Some("=>"),
        TokenKind::DotDot => Some(".."),
        TokenKind::LParen => Some("("),
        TokenKind::RParen => Some(")"),
        TokenKind::LBrace => Some("{"),
        TokenKind::RBrace => Some("}"),
        TokenKind::LBracket => Some("["),
        TokenKind::RBracket => Some("]"),
        TokenKind::Comma => Some(","),
        TokenKind::Semicolon => Some(";"),
        TokenKind::At => Some("@"),
        TokenKind::PlusEq => Some("+="),
        TokenKind::MinusEq => Some("-="),
        TokenKind::StarEq => Some("*="),
        TokenKind::SlashEq => Some("/="),
        TokenKind::PercentEq => Some("%="),
        TokenKind::ElvisAssign => Some("??="),
        _ => None,
    }
}

/// Whether a space goes between two neighbouring tokens of an intrinsic block.
pub open spec fn spec_raw_space(previous: Option<TokenKind>, current: TokenKind) -> bool {
    match previous {
        None => false,
        Some(p) => {
            if current is Dot || current is QuestionDot || current is Comma || current is Semicolon
                || current is RParen || current is RBracket || current is RBrace
            {
                false
            } else if p is Dot || p is QuestionDot || p is LParen || p is LBracket || p is LBrace {
                false
            } else if p is Error {
                false
            } else if current is LParen {
                !(p is Identifier || p is RParen || p is RBracket || p is This || p is Null)
            } else {
                true
            }
        },
    }
}

/// Whether a space goes between `previous` and `current` when an intrinsic block is rebuilt:
/// none at the start, none before `.`, `?.`, `,`, `;` or a closing bracket, none after `.`,
/// `?.` or an opening bracket or an unknown character, none before a call's `(`.
pub fn should_insert_raw_space(previous: Option<&TokenKind>, current: &TokenKind) -> (r: bool)
    ensures
        r == spec_raw_space(match previous { Some(p) => Some(*p), None => None }, *current),
{
    let previous = match previous {
        Some(p) => p,
        None => {
            return false;
        },
    };
    if matches!(current, TokenKind::Dot | TokenKind::QuestionDot | TokenKind::Comma | TokenKind::Semicolon | TokenKind::RParen | TokenKind::RBracket | TokenKind::RBrace) {
        return false;
    }
    if matches!(previous, TokenKind::Dot | TokenKind::QuestionDot | TokenKind::LParen | TokenKind::LBracket | TokenKind::LBrace) {
        return false;
    }
    if matches!(previous, TokenKind::Error(_)) {
        return false;
    }
    if matches!(current, TokenKind::LParen) {
        return !matches!(previous, TokenKind::Identifier(_) | TokenKind::RParen | TokenKind::RBracket | TokenKind::This | TokenKind::Null);
    }
    true
}

impl Parser {
    /// Whether the cursor rests on the final `Eof`.
    fn is_at_end_of_tokens(&self) -> (r: bool)
        requires
            self.wf(),
        ensures
            r == (self.cur() is Eof),
    {
        self.pos >= self.tokens.len() || matches!(self.tokens[self.pos].kind, TokenKind::Eof)
    }

    /// `{ raw C# }` of an intrinsic member or statement: the tokens up to the matching `}`,
    /// written back as source text with spacing restored, `.method(` calls PascalCased, and
    /// the result trimmed. A block left open is reported.
    pub(crate) fn parse_raw_brace_block(&mut self) -> (r: Result<String, ParseError>)
        requires
            old(self).wf(),
        ensures
            final(self).evolves(*old(self)),
            r is Ok ==> final(self).pos > old(self).pos,
            !(spec_kind_after_newlines(old(self).tokens@, old(self).pos as int) is LBrace) ==> (r is Err
                && final(self).errors@ == old(self).errors@),
            ({
                let t = old(self).tokens@;
                let q = spec_skip_newlines(t, old(self).pos as int);
                t[q].kind is LBrace && q + 1 < t.len() && t[q + 1].kind is RBrace ==> (
                    r matches Ok(c) && c@.len() == 0 && final(self).pos == q + 2 && final(self).errors@ == old(self).errors@)
            }),
    {
        self.skip_newlines();
        self.expect(&TokenKind::LBrace)?;
        let ghost body_start = self.pos;

        let mut depth: usize = 1;
        let mut code = String::new();
        let mut previous_kind: Option<TokenKind> = None;

        while !self.is_at_end_of_tokens()
            invariant_except_break
                self.tokens@[body_start as int].kind is RBrace ==> self.pos == body_start && code@.len() == 0
                    && depth == 1 && self.errors@ == old(self).errors@,
            invariant
                self.evolves(*old(self)),
                self.pos >= body_start > old(self).pos,
                1 <= depth <= self.pos - body_start + 1,
                body_start < self.tokens@.len(),
            ensures
                self.evolves(*old(self)),
                self.pos >= body_start > old(self).pos,
                self.tokens@[body_start as int].kind is RBrace ==> self.pos == body_start + 1 && code@.len() == 0
                    && self.errors@ == old(self).errors@,
            decreases self.tokens@.len() - self.pos,
        {
            match self.peek_kind() {
                TokenKind::LBrace => {
                    depth = depth + 1;
                    push_char(&mut code, '{');
                    self.advance();
                    previous_kind = Some(TokenKind::LBrace);
                },
                TokenKind::RBrace => {
                    if depth == 1 {
                        self.advance();
                        break;
                    }
                    depth = depth - 1;
                    push_char(&mut code, '}');
                    self.advance();
                    previous_kind = Some(TokenKind::RBrace);
                },
                TokenKind::Newline => {
                    push_char(&mut code, '\n');
                    self.advance();
                    previous_kind = None;
                },
                TokenKind::Eof => {
                    return Err(self.error(owned("Unterminated intrinsic block")));
                },
                tok_kind => {
                    self.advance();
                    if should_insert_raw_space(previous_kind.as_ref(), &tok_kind) {
                        push_char(&mut code, ' ');
                    }
                    let is_method_call = (matches!(previous_kind, Some(TokenKind::Dot)) || matches!(previous_kind, Some(TokenKind::QuestionDot)))
                        && matches!(tok_kind, TokenKind::Identifier(_))
                        && matches!(self.peek(), TokenKind::LParen);
                    let text = match &tok_kind {
                        TokenKind::Identifier(name) => {
                            if is_method_call {
                                raw_pascal_case(name.as_str())
                            } else {
                                token_to_source_text(&tok_kind)
                            }
                        },
                        _ => token_to_source_text(&tok_kind),
                    };
                    code.append(text.as_str());
                    previous_kind = Some(tok_kind);
                },
            }
        }

        Ok(trim_text(&code))
    }
}

} // verus!
