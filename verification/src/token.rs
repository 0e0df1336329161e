//! Tokens of PrSM source text: positions, spans, token kinds and keyword spellings.

use vstd::prelude::*;

verus! {

/// A line/column position in the source text, both counted from 1; the column counts
/// characters.
#[derive(Debug, Clone, Copy, PartialEq, Eq, Structural)]
pub struct Position {
    pub line: u32,
    pub col: u32,
}

/// A half-open source range.
#[derive(Debug, Clone, Copy, PartialEq, Eq, Structural)]
pub struct Span {
    pub start: Position,
    pub end: Position,
}

impl Span {
    /// The span that begins at `start.start` and ends at `end.end`.
    pub fn join(start: Span, end: Span) -> (r: Span)
        ensures
            r.start == start.start,
            r.end == end.end,
    {
        Span { start: start.start, end: end.end }
    }

    /// The empty span at the origin.
    pub fn zero() -> (r: Span)
        ensures
            r.start.line == 0 && r.start.col == 0 && r.end.line == 0 && r.end.col == 0,
    {
        Span { start: Position { line: 0, col: 0 }, end: Position { line: 0, col: 0 } }
    }
}

/// The kind of a token. Float and duration literals keep their source spelling.
#[derive(Debug, Clone, PartialEq)]
pub enum TokenKind {
    Identifier(String),
    IntLiteral(i64),
    FloatLiteral(String),
    DurationLiteral(String),
    StringLiteral(String),
    StringStart(String),
    StringMiddle(String),
    StringEnd(String),
    Error(String),
    Using,
    Component,
    Singleton,
    Asset,
    Class,
    Data,
    Enum,
    Attribute,
    Interface,
    TypeAlias,
    Struct,
    Extend,
    Abstract,
    Sealed,
    Open,
    Override,
    Operator,
    Static,
    Intrinsic,
    Serialize,
    Require,
    Optional,
    Child,
    Parent,
    Pool,
    Func,
    Coroutine,
    Val,
    Var,
    Const,
    Fixed,
    Public,
    Private,
    Protected,
    Return,
    If,
    Else,
    When,
    For,
    While,
    In,
    Is,
    As,
    Break,
    Continue,
    Null,
    This,
    BoolTrue,
    BoolFalse,
    Wait,
    Until,
    Step,
    DownTo,
    NextFrame,
    FixedFrame,
    Start,
    Stop,
    StopAll,
    Listen,
    Unlisten,
    Manual,
    Try,
    Catch,
    Finally,
    Throw,
    Awake,
    Update,
    FixedUpdate,
    LateUpdate,
    OnEnable,
    OnDisable,
    OnDestroy,
    OnTriggerEnter,
    OnTriggerExit,
    OnTriggerStay,
    OnCollisionEnter,
    OnCollisionExit,
    OnCollisionStay,
    Plus,
    Minus,
    Star,
    Slash,
    Percent,
    Eq,
    EqEq,
    NotEq,
    Lt,
    Gt,
    LtEq,
    GtEq,
    AmpAmp,
    PipePipe,
    Bang,
    BangBang,
    Dot,
    QuestionDot,
    Elvis,
    Question,
    Colon,
    FatArrow,
    DotDot,
    LParen,
    RParen,
    LBrace,
    RBrace,
    LBracket,
    RBracket,
    Comma,
    Semicolon,
    At,
    PlusEq,
    MinusEq,
    StarEq,
    SlashEq,
    PercentEq,
    ElvisAssign,
    HashIf,
    HashElif,
    HashElse,
    HashEndif,
    Newline,
    Eof,
}

/// A token with its source span.
#[derive(Debug, Clone, PartialEq)]
pub struct Token {
    pub kind: TokenKind,
    pub span: Span,
}

/// The variant number of a token kind: two kinds have the same number exactly when
/// they are the same variant, whatever their payloads.
pub open spec fn spec_kind_tag(k: TokenKind) -> u8 {
    match k {
        TokenKind::Identifier(..) => 0u8,
        TokenKind::IntLiteral(..) => 1u8,
        TokenKind::FloatLiteral(..) => 2u8,
        TokenKind::DurationLiteral(..) => 3u8,
        TokenKind::StringLiteral(..) => 4u8,
        TokenKind::StringStart(..) => 5u8,
        TokenKind::StringMiddle(..) => 6u8,
        TokenKind::StringEnd(..) => 7u8,
        TokenKind::Error(..) => 8u8,
        TokenKind::Using => 9u8,
        TokenKind::Component => 10u8,
        TokenKind::Singleton => 11u8,
        TokenKind::Asset => 12u8,
        TokenKind::Class => 13u8,
        TokenKind::Data => 14u8,
        TokenKind::Enum => 15u8,
        TokenKind::Attribute => 16u8,
        TokenKind::Interface => 17u8,
        TokenKind::TypeAlias => 18u8,
        TokenKind::Struct => 19u8,
        TokenKind::Extend => 20u8,
        TokenKind::Abstract => 21u8,
        TokenKind::Sealed => 22u8,
        TokenKind::Open => 23u8,
        TokenKind::Override => 24u8,
        TokenKind::Operator => 25u8,
        TokenKind::Static => 26u8,
        TokenKind::Intrinsic => 27u8,
        TokenKind::Serialize => 28u8,
        TokenKind::Require => 29u8,
        TokenKind::Optional => 30u8,
        TokenKind::Child => 31u8,
        TokenKind::Parent => 32u8,
        TokenKind::Pool => 33u8,
        TokenKind::Func => 34u8,
        TokenKind::Coroutine => 35u8,
        TokenKind::Val => 36u8,
        TokenKind::Var => 37u8,
        TokenKind::Const => 38u8,
        TokenKind::Fixed => 39u8,
        TokenKind::Public => 40u8,
        TokenKind::Private => 41u8,
        TokenKind::Protected => 42u8,
        TokenKind::Return => 43u8,
        TokenKind::If => 44u8,
        TokenKind::Else => 45u8,
        TokenKind::When => 46u8,
        TokenKind::For => 47u8,
        TokenKind::While => 48u8,
        TokenKind::In => 49u8,
        TokenKind::Is => 50u8,
        TokenKind::As => 51u8,
        TokenKind::Break => 52u8,
        TokenKind::Continue => 53u8,
        TokenKind::Null => 54u8,
        TokenKind::This => 55u8,
        TokenKind::BoolTrue => 56u8,
        TokenKind::BoolFalse => 57u8,
        TokenKind::Wait => 58u8,
        TokenKind::Until => 59u8,
        TokenKind::Step => 60u8,
        TokenKind::DownTo => 61u8,
        TokenKind::NextFrame => 62u8,
        TokenKind::FixedFrame => 63u8,
        TokenKind::Start => 64u8,
        TokenKind::Stop => 65u8,
        TokenKind::StopAll => 66u8,
        TokenKind::Listen => 67u8,
        TokenKind::Unlisten => 68u8,
        TokenKind::Manual => 69u8,
        TokenKind::Try => 70u8,
        TokenKind::Catch => 71u8,
        TokenKind::Finally => 72u8,
        TokenKind::Throw => 73u8,
        TokenKind::Awake => 74u8,
        TokenKind::Update => 75u8,
        TokenKind::FixedUpdate => 76u8,
        TokenKind::LateUpdate => 77u8,
        TokenKind::OnEnable => 78u8,
        TokenKind::OnDisable => 79u8,
        TokenKind::OnDestroy => 80u8,
        TokenKind::OnTriggerEnter => 81u8,
        TokenKind::OnTriggerExit => 82u8,
        TokenKind::OnTriggerStay => 83u8,
        TokenKind::OnCollisionEnter => 84u8,
        TokenKind::OnCollisionExit => 85u8,
        TokenKind::OnCollisionStay => 86u8,
        TokenKind::Plus => 87u8,
        TokenKind::Minus => 88u8,
        TokenKind::Star => 89u8,
        TokenKind::Slash => 90u8,
        TokenKind::Percent => 91u8,
        TokenKind::Eq => 92u8,
        TokenKind::EqEq => 93u8,
        TokenKind::NotEq => 94u8,
        TokenKind::Lt => 95u8,
        TokenKind::Gt => 96u8,
        TokenKind::LtEq => 97u8,
        TokenKind::GtEq => 98u8,
        TokenKind::AmpAmp => 99u8,
        TokenKind::PipePipe => 100u8,
        TokenKind::Bang => 101u8,
        TokenKind::BangBang => 102u8,
        TokenKind::Dot => 103u8,
        TokenKind::QuestionDot => 104u8,
        TokenKind::Elvis => 105u8,
        TokenKind::Question => 106u8,
        TokenKind::Colon => 107u8,
        TokenKind::FatArrow => 108u8,
        TokenKind::DotDot => 109u8,
        TokenKind::LParen => 110u8,
        TokenKind::RParen => 111u8,
        TokenKind::LBrace => 112u8,
        TokenKind::RBrace => 113u8,
        TokenKind::LBracket => 114u8,
        TokenKind::RBracket => 115u8,
        TokenKind::Comma => 116u8,
        TokenKind::Semicolon => 117u8,
        TokenKind::At => 118u8,
        TokenKind::PlusEq => 119u8,
        TokenKind::MinusEq => 120u8,
        TokenKind::StarEq => 121u8,
        TokenKind::SlashEq => 122u8,
        TokenKind::PercentEq => 123u8,
        TokenKind::ElvisAssign => 124u8,
        TokenKind::HashIf => 125u8,
        TokenKind::HashElif => 126u8,
        TokenKind::HashElse => 127u8,
        TokenKind::HashEndif => 128u8,
        TokenKind::Newline => 129u8,
        TokenKind::Eof => 130u8,
    }
}

/// The variant number names the variant: a kind whose number is that of a variant is of
/// that variant.
pub broadcast proof fn lemma_kind_tag_inverse(k: TokenKind)
    ensures
        #![trigger spec_kind_tag(k)]
        spec_kind_tag(k) == 0u8 ==> k is Identifier,
        spec_kind_tag(k) == 1u8 ==> k is IntLiteral,
        spec_kind_tag(k) == 2u8 ==> k is FloatLiteral,
        spec_kind_tag(k) == 3u8 ==> k is DurationLiteral,
        spec_kind_tag(k) == 4u8 ==> k is StringLiteral,
        spec_kind_tag(k) == 5u8 ==> k is StringStart,
        spec_kind_tag(k) == 6u8 ==> k is StringMiddle,
        spec_kind_tag(k) == 7u8 ==> k is StringEnd,
        spec_kind_tag(k) == 8u8 ==> k is Error,
        spec_kind_tag(k) == 9u8 ==> k is Using,
        spec_kind_tag(k) == 10u8 ==> k is Component,
        spec_kind_tag(k) == 11u8 ==> k is Singleton,
        spec_kind_tag(k) == 12u8 ==> k is Asset,
        spec_kind_tag(k) == 13u8 ==> k is Class,
        spec_kind_tag(k) == 14u8 ==> k is Data,
        spec_kind_tag(k) == 15u8 ==> k is Enum,
        spec_kind_tag(k) == 16u8 ==> k is Attribute,
        spec_kind_tag(k) == 17u8 ==> k is Interface,
        spec_kind_tag(k) == 18u8 ==> k is TypeAlias,
        spec_kind_tag(k) == 19u8 ==> k is Struct,
        spec_kind_tag(k) == 20u8 ==> k is Extend,
        spec_kind_tag(k) == 21u8 ==> k is Abstract,
        spec_kind_tag(k) == 22u8 ==> k is Sealed,
        spec_kind_tag(k) == 23u8 ==> k is Open,
        spec_kind_tag(k) == 24u8 ==> k is Override,
        spec_kind_tag(k) == 25u8 ==> k is Operator,
        spec_kind_tag(k) == 26u8 ==> k is Static,
        spec_kind_tag(k) == 27u8 ==> k is Intrinsic,
        spec_kind_tag(k) == 28u8 ==> k is Serialize,
        spec_kind_tag(k) == 29u8 ==> k is Require,
        spec_kind_tag(k) == 30u8 ==> k is Optional,
        spec_kind_tag(k) == 31u8 ==> k is Child,
        spec_kind_tag(k) == 32u8 ==> k is Parent,
        spec_kind_tag(k) == 33u8 ==> k is Pool,
        spec_kind_tag(k) == 34u8 ==> k is Func,
        spec_kind_tag(k) == 35u8 ==> k is Coroutine,
        spec_kind_tag(k) == 36u8 ==> k is Val,
        spec_kind_tag(k) == 37u8 ==> k is Var,
        spec_kind_tag(k) == 38u8 ==> k is Const,
        spec_kind_tag(k) == 39u8 ==> k is Fixed,
        spec_kind_tag(k) == 40u8 ==> k is Public,
        spec_kind_tag(k) == 41u8 ==> k is Private,
        spec_kind_tag(k) == 42u8 ==> k is Protected,
        spec_kind_tag(k) == 43u8 ==> k is Return,
        spec_kind_tag(k) == 44u8 ==> k is If,
        spec_kind_tag(k) == 45u8 ==> k is Else,
        spec_kind_tag(k) == 46u8 ==> k is When,
        spec_kind_tag(k) == 47u8 ==> k is For,
        spec_kind_tag(k) == 48u8 ==> k is While,
        spec_kind_tag(k) == 49u8 ==> k is In,
        spec_kind_tag(k) == 50u8 ==> k is Is,
        spec_kind_tag(k) == 51u8 ==> k is As,
        spec_kind_tag(k) == 52u8 ==> k is Break,
        spec_kind_tag(k) == 53u8 ==> k is Continue,
        spec_kind_tag(k) == 54u8 ==> k is Null,
        spec_kind_tag(k) == 55u8 ==> k is This,
        spec_kind_tag(k) == 56u8 ==> k is BoolTrue,
        spec_kind_tag(k) == 57u8 ==> k is BoolFalse,
        spec_kind_tag(k) == 58u8 ==> k is Wait,
        spec_kind_tag(k) == 59u8 ==> k is Until,
        spec_kind_tag(k) == 60u8 ==> k is Step,
        spec_kind_tag(k) == 61u8 ==> k is DownTo,
        spec_kind_tag(k) == 62u8 ==> k is NextFrame,
        spec_kind_tag(k) == 63u8 ==> k is FixedFrame,
        spec_kind_tag(k) == 64u8 ==> k is Start,
        spec_kind_tag(k) == 65u8 ==> k is Stop,
        spec_kind_tag(k) == 66u8 ==> k is StopAll,
        spec_kind_tag(k) == 67u8 ==> k is Listen,
        spec_kind_tag(k) == 68u8 ==> k is Unlisten,
        spec_kind_tag(k) == 69u8 ==> k is Manual,
        spec_kind_tag(k) == 70u8 ==> k is Try,
        spec_kind_tag(k) == 71u8 ==> k is Catch,
        spec_kind_tag(k) == 72u8 ==> k is Finally,
        spec_kind_tag(k) == 73u8 ==> k is Throw,
        spec_kind_tag(k) == 74u8 ==> k is Awake,
        spec_kind_tag(k) == 75u8 ==> k is Update,
        spec_kind_tag(k) == 76u8 ==> k is FixedUpdate,
        spec_kind_tag(k) == 77u8 ==> k is LateUpdate,
        spec_kind_tag(k) == 78u8 ==> k is OnEnable,
        spec_kind_tag(k) == 79u8 ==> k is OnDisable,
        spec_kind_tag(k) == 80u8 ==> k is OnDestroy,
        spec_kind_tag(k) == 81u8 ==> k is OnTriggerEnter,
        spec_kind_tag(k) == 82u8 ==> k is OnTriggerExit,
        spec_kind_tag(k) == 83u8 ==> k is OnTriggerStay,
        spec_kind_tag(k) == 84u8 ==> k is OnCollisionEnter,
        spec_kind_tag(k) == 85u8 ==> k is OnCollisionExit,
        spec_kind_tag(k) == 86u8 ==> k is OnCollisionStay,
        spec_kind_tag(k) == 87u8 ==> k is Plus,
        spec_kind_tag(k) == 88u8 ==> k is Minus,
        spec_kind_tag(k) == 89u8 ==> k is Star,
        spec_kind_tag(k) == 90u8 ==> k is Slash,
        spec_kind_tag(k) == 91u8 ==> k is Percent,
        spec_kind_tag(k) == 92u8 ==> k is Eq,
        spec_kind_tag(k) == 93u8 ==> k is EqEq,
        spec_kind_tag(k) == 94u8 ==> k is NotEq,
        spec_kind_tag(k) == 95u8 ==> k is Lt,
        spec_kind_tag(k) == 96u8 ==> k is Gt,
        spec_kind_tag(k) == 97u8 ==> k is LtEq,
        spec_kind_tag(k) == 98u8 ==> k is GtEq,
        spec_kind_tag(k) == 99u8 ==> k is AmpAmp,
        spec_kind_tag(k) == 100u8 ==> k is PipePipe,
        spec_kind_tag(k) == 101u8 ==> k is Bang,
        spec_kind_tag(k) == 102u8 ==> k is BangBang,
        spec_kind_tag(k) == 103u8 ==> k is Dot,
        spec_kind_tag(k) == 104u8 ==> k is QuestionDot,
        spec_kind_tag(k) == 105u8 ==> k is Elvis,
        spec_kind_tag(k) == 106u8 ==> k is Question,
        spec_kind_tag(k) == 107u8 ==> k is Colon,
        spec_kind_tag(k) == 108u8 ==> k is FatArrow,
        spec_kind_tag(k) == 109u8 ==> k is DotDot,
        spec_kind_tag(k) == 110u8 ==> k is LParen,
        spec_kind_tag(k) == 111u8 ==> k is RParen,
        spec_kind_tag(k) == 112u8 ==> k is LBrace,
        spec_kind_tag(k) == 113u8 ==> k is RBrace,
        spec_kind_tag(k) == 114u8 ==> k is LBracket,
        spec_kind_tag(k) == 115u8 ==> k is RBracket,
        spec_kind_tag(k) == 116u8 ==> k is Comma,
        spec_kind_tag(k) == 117u8 ==> k is Semicolon,
        spec_kind_tag(k) == 118u8 ==> k is At,
        spec_kind_tag(k) == 119u8 ==> k is PlusEq,
        spec_kind_tag(k) == 120u8 ==> k is MinusEq,
        spec_kind_tag(k) == 121u8 ==> k is StarEq,
        spec_kind_tag(k) == 122u8 ==> k is SlashEq,
        spec_kind_tag(k) == 123u8 ==> k is PercentEq,
        spec_kind_tag(k) == 124u8 ==> k is ElvisAssign,
        spec_kind_tag(k) == 125u8 ==> k is HashIf,
        spec_kind_tag(k) == 126u8 ==> k is HashElif,
        spec_kind_tag(k) == 127u8 ==> k is HashElse,
        spec_kind_tag(k) == 128u8 ==> k is HashEndif,
        spec_kind_tag(k) == 129u8 ==> k is Newline,
        spec_kind_tag(k) == 130u8 ==> k is Eof,
{
    match k {
        TokenKind::Identifier(..) => {},
        TokenKind::IntLiteral(..) => {},
        TokenKind::FloatLiteral(..) => {},
        TokenKind::DurationLiteral(..) => {},
        TokenKind::StringLiteral(..) => {},
        TokenKind::StringStart(..) => {},
        TokenKind::StringMiddle(..) => {},
        TokenKind::StringEnd(..) => {},
        TokenKind::Error(..) => {},
        TokenKind::Using => {},
        TokenKind::Component => {},
        TokenKind::Singleton => {},
        TokenKind::Asset => {},
        TokenKind::Class => {},
        TokenKind::Data => {},
        TokenKind::Enum => {},
        TokenKind::Attribute => {},
        TokenKind::Interface => {},
        TokenKind::TypeAlias => {},
        TokenKind::Struct => {},
        TokenKind::Extend => {},
        TokenKind::Abstract => {},
        TokenKind::Sealed => {},
        TokenKind::Open => {},
        TokenKind::Override => {},
        TokenKind::Operator => {},
        TokenKind::Static => {},
        TokenKind::Intrinsic => {},
        TokenKind::Serialize => {},
        TokenKind::Require => {},
        TokenKind::Optional => {},
        TokenKind::Child => {},
        TokenKind::Parent => {},
        TokenKind::Pool => {},
        TokenKind::Func => {},
        TokenKind::Coroutine => {},
        TokenKind::Val => {},
        TokenKind::Var => {},
        TokenKind::Const => {},
        TokenKind::Fixed => {},
        TokenKind::Public => {},
        TokenKind::Private => {},
        TokenKind::Protected => {},
        TokenKind::Return => {},
        TokenKind::If => {},
        TokenKind::Else => {},
        TokenKind::When => {},
        TokenKind::For => {},
        TokenKind::While => {},
        TokenKind::In => {},
        TokenKind::Is => {},
        TokenKind::As => {},
        TokenKind::Break => {},
        TokenKind::Continue => {},
        TokenKind::Null => {},
        TokenKind::This => {},
        TokenKind::BoolTrue => {},
        TokenKind::BoolFalse => {},
        TokenKind::Wait => {},
        TokenKind::Until => {},
        TokenKind::Step => {},
        TokenKind::DownTo => {},
        TokenKind::NextFrame => {},
        TokenKind::FixedFrame => {},
        TokenKind::Start => {},
        TokenKind::Stop => {},
        TokenKind::StopAll => {},
        TokenKind::Listen => {},
        TokenKind::Unlisten => {},
        TokenKind::Manual => {},
        TokenKind::Try => {},
        TokenKind::Catch => {},
        TokenKind::Finally => {},
        TokenKind::Throw => {},
        TokenKind::Awake => {},
        TokenKind::Update => {},
        TokenKind::FixedUpdate => {},
        TokenKind::LateUpdate => {},
        TokenKind::OnEnable => {},
        TokenKind::OnDisable => {},
        TokenKind::OnDestroy => {},
        TokenKind::OnTriggerEnter => {},
        TokenKind::OnTriggerExit => {},
        TokenKind::OnTriggerStay => {},
        TokenKind::OnCollisionEnter => {},
        TokenKind::OnCollisionExit => {},
        TokenKind::OnCollisionStay => {},
        TokenKind::Plus => {},
        TokenKind::Minus => {},
        TokenKind::Star => {},
        TokenKind::Slash => {},
        TokenKind::Percent => {},
        TokenKind::Eq => {},
        TokenKind::EqEq => {},
        TokenKind::NotEq => {},
        TokenKind::Lt => {},
        TokenKind::Gt => {},
        TokenKind::LtEq => {},
        TokenKind::GtEq => {},
        TokenKind::AmpAmp => {},
        TokenKind::PipePipe => {},
        TokenKind::Bang => {},
        TokenKind::BangBang => {},
        TokenKind::Dot => {},
        TokenKind::QuestionDot => {},
        TokenKind::Elvis => {},
        TokenKind::Question => {},
        TokenKind::Colon => {},
        TokenKind::FatArrow => {},
        TokenKind::DotDot => {},
        TokenKind::LParen => {},
        TokenKind::RParen => {},
        TokenKind::LBrace => {},
        TokenKind::RBrace => {},
        TokenKind::LBracket => {},
        TokenKind::RBracket => {},
        TokenKind::Comma => {},
        TokenKind::Semicolon => {},
        TokenKind::At => {},
        TokenKind::PlusEq => {},
        TokenKind::MinusEq => {},
        TokenKind::StarEq => {},
        TokenKind::SlashEq => {},
        TokenKind::PercentEq => {},
        TokenKind::ElvisAssign => {},
        TokenKind::HashIf => {},
        TokenKind::HashElif => {},
        TokenKind::HashElse => {},
        TokenKind::HashEndif => {},
        TokenKind::Newline => {},
        TokenKind::Eof => {},
    }
}

/// Computes the variant number of a token kind.
pub fn kind_tag(k: &TokenKind) -> (r: u8)
    ensures
        r == spec_kind_tag(*k),
{
    match k {
        TokenKind::Identifier(..) => 0u8,
        TokenKind::IntLiteral(..) => 1u8,
        TokenKind::FloatLiteral(..) => 2u8,
        TokenKind::DurationLiteral(..) => 3u8,
        TokenKind::StringLiteral(..) => 4u8,
        TokenKind::StringStart(..) => 5u8,
        TokenKind::StringMiddle(..) => 6u8,
        TokenKind::StringEnd(..) => 7u8,
        TokenKind::Error(..) => 8u8,
        TokenKind::Using => 9u8,
        TokenKind::Component => 10u8,
        TokenKind::Singleton => 11u8,
        TokenKind::Asset => 12u8,
        TokenKind::Class => 13u8,
        TokenKind::Data => 14u8,
        TokenKind::Enum => 15u8,
        TokenKind::Attribute => 16u8,
        TokenKind::Interface => 17u8,
        TokenKind::TypeAlias => 18u8,
        TokenKind::Struct => 19u8,
        TokenKind::Extend => 20u8,
        TokenKind::Abstract => 21u8,
        TokenKind::Sealed => 22u8,
        TokenKind::Open => 23u8,
        TokenKind::Override => 24u8,
        TokenKind::Operator => 25u8,
        TokenKind::Static => 26u8,
        TokenKind::Intrinsic => 27u8,
        TokenKind::Serialize => 28u8,
        TokenKind::Require => 29u8,
        TokenKind::Optional => 30u8,
        TokenKind::Child => 31u8,
        TokenKind::Parent => 32u8,
        TokenKind::Pool => 33u8,
        TokenKind::Func => 34u8,
        TokenKind::Coroutine => 35u8,
        TokenKind::Val => 36u8,
        TokenKind::Var => 37u8,
        TokenKind::Const => 38u8,
        TokenKind::Fixed => 39u8,
        TokenKind::Public => 40u8,
        TokenKind::Private => 41u8,
        TokenKind::Protected => 42u8,
        TokenKind::Return => 43u8,
        TokenKind::If => 44u8,
        TokenKind::Else => 45u8,
        TokenKind::When => 46u8,
        TokenKind::For => 47u8,
        TokenKind::While => 48u8,
        TokenKind::In => 49u8,
        TokenKind::Is => 50u8,
        TokenKind::As => 51u8,
        TokenKind::Break => 52u8,
        TokenKind::Continue => 53u8,
        TokenKind::Null => 54u8,
        TokenKind::This => 55u8,
        TokenKind::BoolTrue => 56u8,
        TokenKind::BoolFalse => 57u8,
        TokenKind::Wait => 58u8,
        TokenKind::Until => 59u8,
        TokenKind::Step => 60u8,
        TokenKind::DownTo => 61u8,
        TokenKind::NextFrame => 62u8,
        TokenKind::FixedFrame => 63u8,
        TokenKind::Start => 64u8,
        TokenKind::Stop => 65u8,
        TokenKind::StopAll => 66u8,
        TokenKind::Listen => 67u8,
        TokenKind::Unlisten => 68u8,
        TokenKind::Manual => 69u8,
        TokenKind::Try => 70u8,
        TokenKind::Catch => 71u8,
        TokenKind::Finally => 72u8,
        TokenKind::Throw => 73u8,
        TokenKind::Awake => 74u8,
        TokenKind::Update => 75u8,
        TokenKind::FixedUpdate => 76u8,
        TokenKind::LateUpdate => 77u8,
        TokenKind::OnEnable => 78u8,
        TokenKind::OnDisable => 79u8,
        TokenKind::OnDestroy => 80u8,
        TokenKind::OnTriggerEnter => 81u8,
        TokenKind::OnTriggerExit => 82u8,
        TokenKind::OnTriggerStay => 83u8,
        TokenKind::OnCollisionEnter => 84u8,
        TokenKind::OnCollisionExit => 85u8,
        TokenKind::OnCollisionStay => 86u8,
        TokenKind::Plus => 87u8,
        TokenKind::Minus => 88u8,
        TokenKind::Star => 89u8,
        TokenKind::Slash => 90u8,
        TokenKind::Percent => 91u8,
        TokenKind::Eq => 92u8,
        TokenKind::EqEq => 93u8,
        TokenKind::NotEq => 94u8,
        TokenKind::Lt => 95u8,
        TokenKind::Gt => 96u8,
        TokenKind::LtEq => 97u8,
        TokenKind::GtEq => 98u8,
        TokenKind::AmpAmp => 99u8,
        TokenKind::PipePipe => 100u8,
        TokenKind::Bang => 101u8,
        TokenKind::BangBang => 102u8,
        TokenKind::Dot => 103u8,
        TokenKind::QuestionDot => 104u8,
        TokenKind::Elvis => 105u8,
        TokenKind::Question => 106u8,
        TokenKind::Colon => 107u8,
        TokenKind::FatArrow => 108u8,
        TokenKind::DotDot => 109u8,
        TokenKind::LParen => 110u8,
        TokenKind::RParen => 111u8,
        TokenKind::LBrace => 112u8,
        TokenKind::RBrace => 113u8,
        TokenKind::LBracket => 114u8,
        TokenKind::RBracket => 115u8,
        TokenKind::Comma => 116u8,
        TokenKind::Semicolon => 117u8,
        TokenKind::At => 118u8,
        TokenKind::PlusEq => 119u8,
        TokenKind::MinusEq => 120u8,
        TokenKind::StarEq => 121u8,
        TokenKind::SlashEq => 122u8,
        TokenKind::PercentEq => 123u8,
        TokenKind::ElvisAssign => 124u8,
        TokenKind::HashIf => 125u8,
        TokenKind::HashElif => 126u8,
        TokenKind::HashElse => 127u8,
        TokenKind::HashEndif => 128u8,
        TokenKind::Newline => 129u8,
        TokenKind::Eof => 130u8,
    }
}

/// The number of token kinds.
pub const KIND_COUNT: u8 = 131;

/// The source spelling of a keyword token kind; `None` for every other kind.
pub open spec fn spec_keyword_text(k: TokenKind) -> Option<Seq<char>> {
    match k {
        TokenKind::Using => Some("using"@),
        TokenKind::Component => Some("component"@),
        TokenKind::Singleton => Some("singleton"@),
        TokenKind::Asset => Some("asset"@),
        TokenKind::Class => Some("class"@),
        TokenKind::Data => Some("data"@),
        TokenKind::Enum => Some("enum"@),
        TokenKind::Attribute => Some("attribute"@),
        TokenKind::Interface => Some("interface"@),
        TokenKind::TypeAlias => Some("typealias"@),
        TokenKind::Struct => Some("struct"@),
        TokenKind::Extend => Some("extend"@),
        TokenKind::Abstract => Some("abstract"@),
        TokenKind::Sealed => Some("sealed"@),
        TokenKind::Open => Some("open"@),
        TokenKind::Override => Some("override"@),
        TokenKind::Operator => Some("operator"@),
        TokenKind::Static => Some("static"@),
        TokenKind::Intrinsic => Some("intrinsic"@),
        TokenKind::Serialize => Some("serialize"@),
        TokenKind::Require => Some("require"@),
        TokenKind::Optional => Some("optional"@),
        TokenKind::Child => Some("child"@),
        TokenKind::Parent => Some("parent"@),
        TokenKind::Pool => Some("pool"@),
        TokenKind::Func => Some("func"@),
        TokenKind::Coroutine => Some("coroutine"@),
        TokenKind::Val => Some("val"@),
        TokenKind::Var => Some("var"@),
        TokenKind::Const => Some("const"@),
        TokenKind::Fixed => Some("fixed"@),
        TokenKind::Public => Some("public"@),
        TokenKind::Private => Some("private"@),
        TokenKind::Protected => Some("protected"@),
        TokenKind::Return => Some("return"@),
        TokenKind::If => Some("if"@),
        TokenKind::Else => Some("else"@),
        TokenKind::When => Some("when"@),
        TokenKind::For => Some("for"@),
        TokenKind::While => Some("while"@),
        TokenKind::In => Some("in"@),
        TokenKind::Is => Some("is"@),
        TokenKind::As => Some("as"@),
        TokenKind::Break => Some("break"@),
        TokenKind::Continue => Some("continue"@),
        TokenKind::Null => Some("null"@),
        TokenKind::This => Some("this"@),
        TokenKind::BoolTrue => Some("true"@),
        TokenKind::BoolFalse => Some("false"@),
        TokenKind::Wait => Some("wait"@),
        TokenKind::Until => Some("until"@),
        TokenKind::Step => Some("step"@),
        TokenKind::DownTo => Some("downTo"@),
        TokenKind::NextFrame => Some("nextFrame"@),
        TokenKind::FixedFrame => Some("fixedFrame"@),
        TokenKind::Start => Some("start"@),
        TokenKind::Stop => Some("stop"@),
        TokenKind::StopAll => Some("stopAll"@),
        TokenKind::Listen => Some("listen"@),
        TokenKind::Unlisten => Some("unlisten"@),
        TokenKind::Manual => Some("manual"@),
        TokenKind::Try => Some("try"@),
        TokenKind::Catch => Some("catch"@),
        TokenKind::Finally => Some("finally"@),
        TokenKind::Throw => Some("throw"@),
        TokenKind::Awake => Some("awake"@),
        TokenKind::Update => Some("update"@),
        TokenKind::FixedUpdate => Some("fixedUpdate"@),
        TokenKind::LateUpdate => Some("lateUpdate"@),
        TokenKind::OnEnable => Some("onEnable"@),
        TokenKind::OnDisable => Some("onDisable"@),
        TokenKind::OnDestroy => Some("onDestroy"@),
        TokenKind::OnTriggerEnter => Some("onTriggerEnter"@),
        TokenKind::OnTriggerExit => Some("onTriggerExit"@),
        TokenKind::OnTriggerStay => Some("onTriggerStay"@),
        TokenKind::OnCollisionEnter => Some("onCollisionEnter"@),
        TokenKind::OnCollisionExit => Some("onCollisionExit"@),
        TokenKind::OnCollisionStay => Some("onCollisionStay"@),
        _ => None,
    }
}

impl TokenKind {
    /// The source spelling of a keyword token kind; `None` for every other kind.
    pub fn keyword_text(&self) -> (r: Option<&'static str>)
        ensures
            r is Some <==> spec_keyword_text(*self) is Some,
            r matches Some(t) ==> t@ == spec_keyword_text(*self)->0,
    {
        match self {
            TokenKind::Using => Some("using"),
            TokenKind::Component => Some("component"),
            TokenKind::Singleton => Some("singleton"),
            TokenKind::Asset => Some("asset"),
            TokenKind::Class => Some("class"),
            TokenKind::Data => Some("data"),
            TokenKind::Enum => Some("enum"),
            TokenKind::Attribute => Some("attribute"),
            TokenKind::Interface => Some("interface"),
            TokenKind::TypeAlias => Some("typealias"),
            TokenKind::Struct => Some("struct"),
            TokenKind::Extend => Some("extend"),
            TokenKind::Abstract => Some("abstract"),
            TokenKind::Sealed => Some("sealed"),
            TokenKind::Open => Some("open"),
            TokenKind::Override => Some("override"),
            TokenKind::Operator => Some("operator"),
            TokenKind::Static => Some("static"),
            TokenKind::Intrinsic => Some("intrinsic"),
            TokenKind::Serialize => Some("serialize"),
            TokenKind::Require => Some("require"),
            TokenKind::Optional => Some("optional"),
            TokenKind::Child => Some("child"),
            TokenKind::Parent => Some("parent"),
            TokenKind::Pool => Some("pool"),
            TokenKind::Func => Some("func"),
            TokenKind::Coroutine => Some("coroutine"),
            TokenKind::Val => Some("val"),
            TokenKind::Var => Some("var"),
            TokenKind::Const => Some("const"),
            TokenKind::Fixed => Some("fixed"),
            TokenKind::Public => Some("public"),
            TokenKind::Private => Some("private"),
            TokenKind::Protected => Some("protected"),
            TokenKind::Return => Some("return"),
            TokenKind::If => Some("if"),
            TokenKind::Else => Some("else"),
            TokenKind::When => Some("when"),
            TokenKind::For => Some("for"),
            TokenKind::While => Some("while"),
            TokenKind::In => Some("in"),
            TokenKind::Is => Some("is"),
            TokenKind::As => Some("as"),
            TokenKind::Break => Some("break"),
            TokenKind::Continue => Some("continue"),
            TokenKind::Null => Some("null"),
            TokenKind::This => Some("this"),
            TokenKind::BoolTrue => Some("true"),
            TokenKind::BoolFalse => Some("false"),
            TokenKind::Wait => Some("wait"),
            TokenKind::Until => Some("until"),
            TokenKind::Step => Some("step"),
            TokenKind::DownTo => Some("downTo"),
            TokenKind::NextFrame => Some("nextFrame"),
            TokenKind::FixedFrame => Some("fixedFrame"),
            TokenKind::Start => Some("start"),
            TokenKind::Stop => Some("stop"),
            TokenKind::StopAll => Some("stopAll"),
            TokenKind::Listen => Some("listen"),
            TokenKind::Unlisten => Some("unlisten"),
            TokenKind::Manual => Some("manual"),
            TokenKind::Try => Some("try"),
            TokenKind::Catch => Some("catch"),
            TokenKind::Finally => Some("finally"),
            TokenKind::Throw => Some("throw"),
            TokenKind::Awake => Some("awake"),
            TokenKind::Update => Some("update"),
            TokenKind::FixedUpdate => Some("fixedUpdate"),
            TokenKind::LateUpdate => Some("lateUpdate"),
            TokenKind::OnEnable => Some("onEnable"),
            TokenKind::OnDisable => Some("onDisable"),
            TokenKind::OnDestroy => Some("onDestroy"),
            TokenKind::OnTriggerEnter => Some("onTriggerEnter"),
            TokenKind::OnTriggerExit => Some("onTriggerExit"),
            TokenKind::OnTriggerStay => Some("onTriggerStay"),
            TokenKind::OnCollisionEnter => Some("onCollisionEnter"),
            TokenKind::OnCollisionExit => Some("onCollisionExit"),
            TokenKind::OnCollisionStay => Some("onCollisionStay"),
            _ => None,
        }
    }
}

/// The keyword kind spelled by `text`, if any.
pub open spec fn spec_keyword_kind(text: Seq<char>) -> Option<TokenKind> {
    if text == "using"@ { Some(TokenKind::Using) }
    else if text == "component"@ { Some(TokenKind::Component) }
    else if text == "singleton"@ { Some(TokenKind::Singleton) }
    else if text == "asset"@ { Some(TokenKind::Asset) }
    else if text == "class"@ { Some(TokenKind::Class) }
    else if text == "data"@ { Some(TokenKind::Data) }
    else if text == "enum"@ { Some(TokenKind::Enum) }
    else if text == "attribute"@ { Some(TokenKind::Attribute) }
    else if text == "interface"@ { Some(TokenKind::Interface) }
    else if text == "typealias"@ { Some(TokenKind::TypeAlias) }
    else if text == "struct"@ { Some(TokenKind::Struct) }
    else if text == "extend"@ { Some(TokenKind::Extend) }
    else if text == "abstract"@ { Some(TokenKind::Abstract) }
    else if text == "sealed"@ { Some(TokenKind::Sealed) }
    else if text == "open"@ { Some(TokenKind::Open) }
    else if text == "override"@ { Some(TokenKind::Override) }
    else if text == "operator"@ { Some(TokenKind::Operator) }
    else if text == "static"@ { Some(TokenKind::Static) }
    else if text == "intrinsic"@ { Some(TokenKind::Intrinsic) }
    else if text == "serialize"@ { Some(TokenKind::Serialize) }
    else if text == "require"@ { Some(TokenKind::Require) }
    else if text == "optional"@ { Some(TokenKind::Optional) }
    else if text == "child"@ { Some(TokenKind::Child) }
    else if text == "parent"@ { Some(TokenKind::Parent) }
    else if text == "pool"@ { Some(TokenKind::Pool) }
    else if text == "func"@ { Some(TokenKind::Func) }
    else if text == "coroutine"@ { Some(TokenKind::Coroutine) }
    else if text == "val"@ { Some(TokenKind::Val) }
    else if text == "var"@ { Some(TokenKind::Var) }
    else if text == "const"@ { Some(TokenKind::Const) }
    else if text == "fixed"@ { Some(TokenKind::Fixed) }
    else if text == "public"@ { Some(TokenKind::Public) }
    else if text == "private"@ { Some(TokenKind::Private) }
    else if text == "protected"@ { Some(TokenKind::Protected) }
    else if text == "return"@ { Some(TokenKind::Return) }
    else if text == "if"@ { Some(TokenKind::If) }
    else if text == "else"@ { Some(TokenKind::Else) }
    else if text == "when"@ { Some(TokenKind::When) }
    else if text == "for"@ { Some(TokenKind::For) }
    else if text == "while"@ { Some(TokenKind::While) }
    else if text == "in"@ { Some(TokenKind::In) }
    else if text == "is"@ { Some(TokenKind::Is) }
    else if text == "as"@ { Some(TokenKind::As) }
    else if text == "break"@ { Some(TokenKind::Break) }
    else if text == "continue"@ { Some(TokenKind::Continue) }
    else if text == "null"@ { Some(TokenKind::Null) }
    else if text == "this"@ { Some(TokenKind::This) }
    else if text == "true"@ { Some(TokenKind::BoolTrue) }
    else if text == "false"@ { Some(TokenKind::BoolFalse) }
    else if text == "wait"@ { Some(TokenKind::Wait) }
    else if text == "until"@ { Some(TokenKind::Until) }
    else if text == "step"@ { Some(TokenKind::Step) }
    else if text == "downTo"@ { Some(TokenKind::DownTo) }
    else if text == "nextFrame"@ { Some(TokenKind::NextFrame) }
    else if text == "fixedFrame"@ { Some(TokenKind::FixedFrame) }
    else if text == "start"@ { Some(TokenKind::Start) }
    else if text == "stop"@ { Some(TokenKind::Stop) }
    else if text == "stopAll"@ { Some(TokenKind::StopAll) }
    else if text == "listen"@ { Some(TokenKind::Listen) }
    else if text == "unlisten"@ { Some(TokenKind::Unlisten) }
    else if text == "manual"@ { Some(TokenKind::Manual) }
    else if text == "try"@ { Some(TokenKind::Try) }
    else if text == "catch"@ { Some(TokenKind::Catch) }
    else if text == "finally"@ { Some(TokenKind::Finally) }
    else if text == "throw"@ { Some(TokenKind::Throw) }
    else if text == "awake"@ { Some(TokenKind::Awake) }
    else if text == "update"@ { Some(TokenKind::Update) }
    else if text == "fixedUpdate"@ { Some(TokenKind::FixedUpdate) }
    else if text == "lateUpdate"@ { Some(TokenKind::LateUpdate) }
    else if text == "onEnable"@ { Some(TokenKind::OnEnable) }
    else if text == "onDisable"@ { Some(TokenKind::OnDisable) }
    else if text == "onDestroy"@ { Some(TokenKind::OnDestroy) }
    else if text == "onTriggerEnter"@ { Some(TokenKind::OnTriggerEnter) }
    else if text == "onTriggerExit"@ { Some(TokenKind::OnTriggerExit) }
    else if text == "onTriggerStay"@ { Some(TokenKind::OnTriggerStay) }
    else if text == "onCollisionEnter"@ { Some(TokenKind::OnCollisionEnter) }
    else if text == "onCollisionExit"@ { Some(TokenKind::OnCollisionExit) }
    else if text == "onCollisionStay"@ { Some(TokenKind::OnCollisionStay) }
    else { None }
}

impl TokenKind {
    /// A copy of this token kind.
    pub fn duplicate(&self) -> (r: TokenKind)
        ensures
            r == *self,
    {
        match self {
            TokenKind::Identifier(s) => TokenKind::Identifier(s.clone()),
            TokenKind::IntLiteral(v) => TokenKind::IntLiteral(*v),
            TokenKind::FloatLiteral(s) => TokenKind::FloatLiteral(s.clone()),
            TokenKind::DurationLiteral(s) => TokenKind::DurationLiteral(s.clone()),
            TokenKind::StringLiteral(s) => TokenKind::StringLiteral(s.clone()),
            TokenKind::StringStart(s) => TokenKind::StringStart(s.clone()),
            TokenKind::StringMiddle(s) => TokenKind::StringMiddle(s.clone()),
            TokenKind::StringEnd(s) => TokenKind::StringEnd(s.clone()),
            TokenKind::Error(s) => TokenKind::Error(s.clone()),
            TokenKind::Using => TokenKind::Using,
            TokenKind::Component => TokenKind::Component,
            TokenKind::Singleton => TokenKind::Singleton,
            TokenKind::Asset => TokenKind::Asset,
            TokenKind::Class => TokenKind::Class,
            TokenKind::Data => TokenKind::Data,
            TokenKind::Enum => TokenKind::Enum,
            TokenKind::Attribute => TokenKind::Attribute,
            TokenKind::Interface => TokenKind::Interface,
            TokenKind::TypeAlias => TokenKind::TypeAlias,
            TokenKind::Struct => TokenKind::Struct,
            TokenKind::Extend => TokenKind::Extend,
            TokenKind::Abstract => TokenKind::Abstract,
            TokenKind::Sealed => TokenKind::Sealed,
            TokenKind::Open => TokenKind::Open,
            TokenKind::Override => TokenKind::Override,
            TokenKind::Operator => TokenKind::Operator,
            TokenKind::Static => TokenKind::Static,
            TokenKind::Intrinsic => TokenKind::Intrinsic,
            TokenKind::Serialize => TokenKind::Serialize,
            TokenKind::Require => TokenKind::Require,
            TokenKind::Optional => TokenKind::Optional,
            TokenKind::Child => TokenKind::Child,
            TokenKind::Parent => TokenKind::Parent,
            TokenKind::Pool => TokenKind::Pool,
            TokenKind::Func => TokenKind::Func,
            TokenKind::Coroutine => TokenKind::Coroutine,
            TokenKind::Val => TokenKind::Val,
            TokenKind::Var => TokenKind::Var,
            TokenKind::Const => TokenKind::Const,
            TokenKind::Fixed => TokenKind::Fixed,
            TokenKind::Public => TokenKind::Public,
            TokenKind::Private => TokenKind::Private,
            TokenKind::Protected => TokenKind::Protected,
            TokenKind::Return => TokenKind::Return,
            TokenKind::If => TokenKind::If,
            TokenKind::Else => TokenKind::Else,
            TokenKind::When => TokenKind::When,
            TokenKind::For => TokenKind::For,
            TokenKind::While => TokenKind::While,
            TokenKind::In => TokenKind::In,
            TokenKind::Is => TokenKind::Is,
            TokenKind::As => TokenKind::As,
            TokenKind::Break => TokenKind::Break,
            TokenKind::Continue => TokenKind::Continue,
            TokenKind::Null => TokenKind::Null,
            TokenKind::This => TokenKind::This,
            TokenKind::BoolTrue => TokenKind::BoolTrue,
            TokenKind::BoolFalse => TokenKind::BoolFalse,
            TokenKind::Wait => TokenKind::Wait,
            TokenKind::Until => TokenKind::Until,
            TokenKind::Step => TokenKind::Step,
            TokenKind::DownTo => TokenKind::DownTo,
            TokenKind::NextFrame => TokenKind::NextFrame,
            TokenKind::FixedFrame => TokenKind::FixedFrame,
            TokenKind::Start => TokenKind::Start,
            TokenKind::Stop => TokenKind::Stop,
            TokenKind::StopAll => TokenKind::StopAll,
            TokenKind::Listen => TokenKind::Listen,
            TokenKind::Unlisten => TokenKind::Unlisten,
            TokenKind::Manual => TokenKind::Manual,
            TokenKind::Try => TokenKind::Try,
            TokenKind::Catch => TokenKind::Catch,
            TokenKind::Finally => TokenKind::Finally,
            TokenKind::Throw => TokenKind::Throw,
            TokenKind::Awake => TokenKind::Awake,
            TokenKind::Update => TokenKind::Update,
            TokenKind::FixedUpdate => TokenKind::FixedUpdate,
            TokenKind::LateUpdate => TokenKind::LateUpdate,
            TokenKind::OnEnable => TokenKind::OnEnable,
            TokenKind::OnDisable => TokenKind::OnDisable,
            TokenKind::OnDestroy => TokenKind::OnDestroy,
            TokenKind::OnTriggerEnter => TokenKind::OnTriggerEnter,
            TokenKind::OnTriggerExit => TokenKind::OnTriggerExit,
            TokenKind::OnTriggerStay => TokenKind::OnTriggerStay,
            TokenKind::OnCollisionEnter => TokenKind::OnCollisionEnter,
            TokenKind::OnCollisionExit => TokenKind::OnCollisionExit,
            TokenKind::OnCollisionStay => TokenKind::OnCollisionStay,
            TokenKind::Plus => TokenKind::Plus,
            TokenKind::Minus => TokenKind::Minus,
            TokenKind::Star => TokenKind::Star,
            TokenKind::Slash => TokenKind::Slash,
            TokenKind::Percent => TokenKind::Percent,
            TokenKind::Eq => TokenKind::Eq,
            TokenKind::EqEq => TokenKind::EqEq,
            TokenKind::NotEq => TokenKind::NotEq,
            TokenKind::Lt => TokenKind::Lt,
            TokenKind::Gt => TokenKind::Gt,
            TokenKind::LtEq => TokenKind::LtEq,
            TokenKind::GtEq => TokenKind::GtEq,
            TokenKind::AmpAmp => TokenKind::AmpAmp,
            TokenKind::PipePipe => TokenKind::PipePipe,
            TokenKind::Bang => TokenKind::Bang,
            TokenKind::BangBang => TokenKind::BangBang,
            TokenKind::Dot => TokenKind::Dot,
            TokenKind::QuestionDot => TokenKind::QuestionDot,
            TokenKind::Elvis => TokenKind::Elvis,
            TokenKind::Question => TokenKind::Question,
            TokenKind::Colon => TokenKind::Colon,
            TokenKind::FatArrow => TokenKind::FatArrow,
            TokenKind::DotDot => TokenKind::DotDot,
            TokenKind::LParen => TokenKind::LParen,
            TokenKind::RParen => TokenKind::RParen,
            TokenKind::LBrace => TokenKind::LBrace,
            TokenKind::RBrace => TokenKind::RBrace,
            TokenKind::LBracket => TokenKind::LBracket,
            TokenKind::RBracket => TokenKind::RBracket,
            TokenKind::Comma => TokenKind::Comma,
            TokenKind::Semicolon => TokenKind::Semicolon,
            TokenKind::At => TokenKind::At,
            TokenKind::PlusEq => TokenKind::PlusEq,
            TokenKind::MinusEq => TokenKind::MinusEq,
            TokenKind::StarEq => TokenKind::StarEq,
            TokenKind::SlashEq => TokenKind::SlashEq,
            TokenKind::PercentEq => TokenKind::PercentEq,
            TokenKind::ElvisAssign => TokenKind::ElvisAssign,
            TokenKind::HashIf => TokenKind::HashIf,
            TokenKind::HashElif => TokenKind::HashElif,
            TokenKind::HashElse => TokenKind::HashElse,
            TokenKind::HashEndif => TokenKind::HashEndif,
            TokenKind::Newline => TokenKind::Newline,
            TokenKind::Eof => TokenKind::Eof,
        }
    }
}

impl Token {
    /// A copy of this token.
    pub fn duplicate(&self) -> (r: Token)
        ensures
            r == *self,
    {
        Token { kind: self.kind.duplicate(), span: self.span }
    }
}

/// Each keyword spelling reads as the token whose spelling it is: the keyword text of
/// `spec_keyword_kind(w)` is `w`. So no two spellings give the same token.
pub proof fn lemma_keyword_kind_spells_itself(w: Seq<char>)
    ensures
        spec_keyword_kind(w) matches Some(k) ==> spec_keyword_text(k) == Some(w),
{
}

/// Two spellings that read as the same keyword token are the same spelling.
pub proof fn lemma_keyword_kind_injective(w1: Seq<char>, w2: Seq<char>)
    requires
        spec_keyword_kind(w1) is Some,
        spec_keyword_kind(w1) == spec_keyword_kind(w2),
    ensures
        w1 == w2,
{
    lemma_keyword_kind_spells_itself(w1);
    lemma_keyword_kind_spells_itself(w2);
}

} // verus!
