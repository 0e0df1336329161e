use refraction::lexer::{tokenize_source, Lexer};
use refraction::token::TokenKind;
use refraction::text::int_text;

fn kinds(source: &str) -> Vec<TokenKind> {
    tokenize_source(source).into_iter().map(|t| t.kind).collect()
}

#[test]
fn lexer_ends_in_single_eof() {
    let toks = tokenize_source("val x = 1\n");
    assert!(matches!(toks.last().unwrap().kind, TokenKind::Eof));
    let eofs = toks.iter().filter(|t| matches!(t.kind, TokenKind::Eof)).count();
    assert_eq!(eofs, 1);
}

#[test]
fn lexer_empty_source_is_just_eof() {
    let toks = tokenize_source("");
    assert_eq!(toks.len(), 1);
    assert!(matches!(toks[0].kind, TokenKind::Eof));
}

#[test]
fn lexer_positions_start_at_line_one_column_one() {
    let toks = tokenize_source("val x\n  y");
    assert_eq!(toks[0].span.start.line, 1);
    assert_eq!(toks[0].span.start.col, 1);
    let y = toks.iter().find(|t| matches!(&t.kind, TokenKind::Identifier(n) if n == "y")).unwrap();
    assert_eq!(y.span.start.line, 2);
    assert_eq!(y.span.start.col, 3);
}

#[test]
fn lexer_keywords_and_identifiers() {
    let k = kinds("component Player : MonoBehaviour");
    assert!(matches!(k[0], TokenKind::Component));
    assert!(matches!(&k[1], TokenKind::Identifier(n) if n == "Player"));
    assert!(matches!(k[2], TokenKind::Colon));
    assert!(matches!(&k[3], TokenKind::Identifier(n) if n == "MonoBehaviour"));
}

#[test]
fn lexer_number_literals() {
    let k = kinds("42 1.5 0.2s");
    assert!(matches!(k[0], TokenKind::IntLiteral(42)));
    assert!(matches!(&k[1], TokenKind::FloatLiteral(t) if t == "1.5"));
    assert!(matches!(&k[2], TokenKind::DurationLiteral(t) if t == "0.2"));
}

#[test]
fn lexer_unknown_character_is_an_error_token() {
    let k = kinds("$");
    assert!(matches!(&k[0], TokenKind::Error(m) if m == "Unexpected character: '$'"));
}

#[test]
fn lexer_string_interpolation_pieces() {
    let k = kinds("\"hp: ${hp}!\"");
    assert!(matches!(&k[0], TokenKind::StringStart(t) if t == "hp: "));
    assert!(matches!(&k[1], TokenKind::Identifier(n) if n == "hp"));
    assert!(matches!(&k[2], TokenKind::StringEnd(t) if t == "!"));
}

#[test]
fn lexer_new_then_tokenize_matches_tokenize_source() {
    let mut lexer = Lexer::new("when x { else => 1 }");
    let a: Vec<TokenKind> = lexer.tokenize().into_iter().map(|t| t.kind).collect();
    let b = kinds("when x { else => 1 }");
    assert_eq!(a, b);
}

#[test]
fn lexer_tokens_come_in_source_order() {
    let toks = refraction::lexer::tokenize_source("val s = \"a${x}b$name c\"\n// note\nfoo(1.5f, 2s) /* x */ #if\n");
    let le = |a: &refraction::token::Position, b: &refraction::token::Position| a.line < b.line || (a.line == b.line && a.col <= b.col);
    for t in &toks {
        assert!(le(&t.span.start, &t.span.end));
    }
    for w in toks.windows(2) {
        assert!(le(&w[0].span.end, &w[1].span.start));
    }
}

#[test]
fn lexer_dollar_name_interpolation_and_escapes() {
    let k = kinds("\"a\\tb $name c\"");
    assert!(matches!(&k[0], TokenKind::StringStart(t) if t == "a\tb "));
    assert!(matches!(&k[1], TokenKind::Identifier(n) if n == "name"));
    assert!(matches!(&k[2], TokenKind::StringEnd(t) if t == " c"));
    assert!(matches!(k[3], TokenKind::Eof));
}

#[test]
fn lexer_braces_inside_interpolation_do_not_close_it() {
    let k = kinds("\"${ {1} }x\"");
    assert!(matches!(&k[0], TokenKind::StringStart(t) if t.is_empty()));
    assert!(matches!(k[1], TokenKind::LBrace));
    assert!(matches!(k[2], TokenKind::IntLiteral(1)));
    assert!(matches!(k[3], TokenKind::RBrace));
    assert!(matches!(&k[4], TokenKind::StringEnd(t) if t == "x"));
}

#[test]
fn lexer_unterminated_string_is_an_error_token() {
    let toks = tokenize_source("\"abc\nx");
    assert!(matches!(&toks[0].kind, TokenKind::Error(m) if m == "Unterminated string literal"));
    assert_eq!((toks[0].span.start.col, toks[0].span.end.col), (1, 5));
    assert!(matches!(toks[1].kind, TokenKind::Newline));
    assert!(matches!(&toks[2].kind, TokenKind::Identifier(n) if n == "x"));
}

#[test]
fn lexer_integer_out_of_range_is_an_error_token() {
    let k = kinds("9223372036854775807 9223372036854775808");
    assert!(matches!(k[0], TokenKind::IntLiteral(9223372036854775807)));
    assert!(matches!(&k[1], TokenKind::Error(m) if m == "Integer literal out of range: 9223372036854775808"));
}

#[test]
fn lexer_comments_and_blanks_give_no_tokens() {
    let k = kinds("a // rest\n/* x\ny */ b");
    assert_eq!(k.len(), 4);
    assert!(matches!(&k[0], TokenKind::Identifier(n) if n == "a"));
    assert!(matches!(k[1], TokenKind::Newline));
    assert!(matches!(&k[2], TokenKind::Identifier(n) if n == "b"));
    assert!(matches!(k[3], TokenKind::Eof));
}

#[test]
fn lexer_number_suffix_needs_a_word_boundary() {
    let k = kinds("2s 3f 4sx");
    assert!(matches!(&k[0], TokenKind::DurationLiteral(t) if t == "2"));
    assert!(matches!(&k[1], TokenKind::FloatLiteral(t) if t == "3"));
    assert!(matches!(k[2], TokenKind::IntLiteral(4)));
    assert!(matches!(&k[3], TokenKind::Identifier(n) if n == "sx"));
}

#[test]
fn decimal_text_of_integers() {
    assert_eq!(int_text(0), "0");
    assert_eq!(int_text(42), "42");
    assert_eq!(int_text(-7), "-7");
    assert_eq!(int_text(i64::MIN), "-9223372036854775808");
    assert_eq!(int_text(i64::MAX), "9223372036854775807");
}

#[test]
fn parse_of_a_source_reads_its_usings() {
    let (file, has_errors) = refraction::lsp::organize::parse_prsm_file("using UnityEngine\nusing UnityEngine.UI\ncomponent Foo : MonoBehaviour {}");
    assert!(!has_errors);
    let paths: Vec<&str> = file.usings.iter().map(|u| u.path.as_str()).collect();
    assert_eq!(paths, vec!["UnityEngine", "UnityEngine.UI"]);
}
