use vstd::prelude::*;

verus! {

/// One lexical token of the Rus language.
///
/// Tokens fall into three families: reserved keywords, literals that carry
/// their payload (the integer and float literals keep the exact source text,
/// including a radix prefix and a `_`-separated type suffix), and fixed
/// punctuation or operator tokens without payload.
#[derive(Debug, PartialEq, Clone)]
pub enum Token {
    // Core keywords
    Fn,
    Let,
    Var,
    With,
    Contract,
    Impl,
    Mut,
    Effect,
    Handle,
    EffectGroup,
    HandlerGroup,
    // Control flow and other general keywords
    If,
    Else,
    For,
    In,
    Loop,
    While,
    Match,
    Break,
    Continue,
    Return,
    As,
    Use,
    Pub,
    Enum,
    Struct,
    Trait,
    // Boolean literals
    True,
    False,
    Async,
    Await,
    Try,
    // Literals with payload
    IntegerLiteral(String),
    FloatLiteral(String),
    StringLiteral(String),
    CharLiteral(char),
    // Identifiers
    Identifier(String),
    // Single-character operators and separators
    Plus,
    Minus,
    Star,
    Slash,
    Percent,
    Ampersand,
    Pipe,
    Caret,
    Bang,
    Equal,
    Less,
    Greater,
    Dot,
    Comma,
    Semicolon,
    Colon,
    Question,
    At,
    Hash,
    Dollar,
    Underscore,
    // Multi-character operators
    PlusEqual,
    MinusEqual,
    StarEqual,
    SlashEqual,
    PercentEqual,
    AmpersandEqual,
    PipeEqual,
    CaretEqual,
    ShlEqual,
    ShrEqual,
    MutRef,
    PathSep,
    Arrow,
    FatArrow,
    EqualEqual,
    BangEqual,
    LessEqual,
    GreaterEqual,
    And,
    Or,
    Shl,
    Shr,
    Range,
    RangeInclusive,
    // Brackets and delimiters
    LParen,
    RParen,
    LBrace,
    RBrace,
    LBracket,
    RBracket,
    // End of input, and an error slot for callers that embed errors in tokens
    Eof,
    Error(LexicalError),
}

/// A lexical error, reported for exactly one malformed lexeme.
/// The lexer resumes at the next character after reporting one.
#[derive(Debug, PartialEq, Eq, Structural, Clone, Copy)]
pub enum LexicalError {
    UnknownCharacter(char),
    UnterminatedString,
    UnterminatedChar,
    EmptyCharLiteral,
    MultipleCharactersInCharLiteral,
    UnknownEscapeSequence(char),
    UnexpectedEofInLiteral,
    InvalidNumberFormat,
}

/// The mathematical value of a `Token`: the same tagged union with every
/// owned string replaced by its character sequence.
pub enum TokenView {
    Fn,
    Let,
    Var,
    With,
    Contract,
    Impl,
    Mut,
    Effect,
    Handle,
    EffectGroup,
    HandlerGroup,
    If,
    Else,
    For,
    In,
    Loop,
    While,
    Match,
    Break,
    Continue,
    Return,
    As,
    Use,
    Pub,
    Enum,
    Struct,
    Trait,
    True,
    False,
    Async,
    Await,
    Try,
    IntegerLiteral(Seq<char>),
    FloatLiteral(Seq<char>),
    StringLiteral(Seq<char>),
    CharLiteral(char),
    Identifier(Seq<char>),
    Plus,
    Minus,
    Star,
    Slash,
    Percent,
    Ampersand,
    Pipe,
    Caret,
    Bang,
    Equal,
    Less,
    Greater,
    Dot,
    Comma,
    Semicolon,
    Colon,
    Question,
    At,
    Hash,
    Dollar,
    Underscore,
    PlusEqual,
    MinusEqual,
    StarEqual,
    SlashEqual,
    PercentEqual,
    AmpersandEqual,
    PipeEqual,
    CaretEqual,
    ShlEqual,
    ShrEqual,
    MutRef,
    PathSep,
    Arrow,
    FatArrow,
    EqualEqual,
    BangEqual,
    LessEqual,
    GreaterEqual,
    And,
    Or,
    Shl,
    Shr,
    Range,
    RangeInclusive,
    LParen,
    RParen,
    LBrace,
    RBrace,
    LBracket,
    RBracket,
    Eof,
    Error(LexicalError),
}

impl View for Token {
    type V = TokenView;

    open spec fn view(&self) -> TokenView {
        match self {
            Token::Fn => TokenView::Fn,
            Token::Let => TokenView::Let,
            Token::Var => TokenView::Var,
            Token::With => TokenView::With,
            Token::Contract => TokenView::Contract,
            Token::Impl => TokenView::Impl,
            Token::Mut => TokenView::Mut,
            Token::Effect => TokenView::Effect,
            Token::Handle => TokenView::Handle,
            Token::EffectGroup => TokenView::EffectGroup,
            Token::HandlerGroup => TokenView::HandlerGroup,
            Token::If => TokenView::If,
            Token::Else => TokenView::Else,
            Token::For => TokenView::For,
            Token::In => TokenView::In,
            Token::Loop => TokenView::Loop,
            Token::While => TokenView::While,
            Token::Match => TokenView::Match,
            Token::Break => TokenView::Break,
            Token::Continue => TokenView::Continue,
            Token::Return => TokenView::Return,
            Token::As => TokenView::As,
            Token::Use => TokenView::Use,
            Token::Pub => TokenView::Pub,
            Token::Enum => TokenView::Enum,
            Token::Struct => TokenView::Struct,
            Token::Trait => TokenView::Trait,
            Token::True => TokenView::True,
            Token::False => TokenView::False,
            Token::Async => TokenView::Async,
            Token::Await => TokenView::Await,
            Token::Try => TokenView::Try,
            Token::IntegerLiteral(s) => TokenView::IntegerLiteral(s@),
            Token::FloatLiteral(s) => TokenView::FloatLiteral(s@),
            Token::StringLiteral(s) => TokenView::StringLiteral(s@),
            Token::CharLiteral(c) => TokenView::CharLiteral(*c),
            Token::Identifier(s) => TokenView::Identifier(s@),
            Token::Plus => TokenView::Plus,
            Token::Minus => TokenView::Minus,
            Token::Star => TokenView::Star,
            Token::Slash => TokenView::Slash,
            Token::Percent => TokenView::Percent,
            Token::Ampersand => TokenView::Ampersand,
            Token::Pipe => TokenView::Pipe,
            Token::Caret => TokenView::Caret,
            Token::Bang => TokenView::Bang,
            Token::Equal => TokenView::Equal,
            Token::Less => TokenView::Less,
            Token::Greater => TokenView::Greater,
            Token::Dot => TokenView::Dot,
            Token::Comma => TokenView::Comma,
            Token::Semicolon => TokenView::Semicolon,
            Token::Colon => TokenView::Colon,
            Token::Question => TokenView::Question,
            Token::At => TokenView::At,
            Token::Hash => TokenView::Hash,
            Token::Dollar => TokenView::Dollar,
            Token::Underscore => TokenView::Underscore,
            Token::PlusEqual => TokenView::PlusEqual,
            Token::MinusEqual => TokenView::MinusEqual,
            Token::StarEqual => TokenView::StarEqual,
            Token::SlashEqual => TokenView::SlashEqual,
            Token::PercentEqual => TokenView::PercentEqual,
            Token::AmpersandEqual => TokenView::AmpersandEqual,
            Token::PipeEqual => TokenView::PipeEqual,
            Token::CaretEqual => TokenView::CaretEqual,
            Token::ShlEqual => TokenView::ShlEqual,
            Token::ShrEqual => TokenView::ShrEqual,
            Token::MutRef => TokenView::MutRef,
            Token::PathSep => TokenView::PathSep,
            Token::Arrow => TokenView::Arrow,
            Token::FatArrow => TokenView::FatArrow,
            Token::EqualEqual => TokenView::EqualEqual,
            Token::BangEqual => TokenView::BangEqual,
            Token::LessEqual => TokenView::LessEqual,
            Token::GreaterEqual => TokenView::GreaterEqual,
            Token::And => TokenView::And,
            Token::Or => TokenView::Or,
            Token::Shl => TokenView::Shl,
            Token::Shr => TokenView::Shr,
            Token::Range => TokenView::Range,
            Token::RangeInclusive => TokenView::RangeInclusive,
            Token::LParen => TokenView::LParen,
            Token::RParen => TokenView::RParen,
            Token::LBrace => TokenView::LBrace,
            Token::RBrace => TokenView::RBrace,
            Token::LBracket => TokenView::LBracket,
            Token::RBracket => TokenView::RBracket,
            Token::Eof => TokenView::Eof,
            Token::Error(e) => TokenView::Error(*e),
        }
    }
}

/// A position in the source text: 1-based line, column of the most recently
/// consumed character, and the name of the file the text came from.
#[derive(Debug, PartialEq)]
pub struct Location {
    pub line: usize,
    pub column: usize,
    pub file: String,
}

/// The mathematical value of a `Location`.
pub struct LocationView {
    pub line: nat,
    pub column: nat,
    pub file: Seq<char>,
}

impl View for Location {
    type V = LocationView;

    open spec fn view(&self) -> LocationView {
        LocationView { line: self.line as nat, column: self.column as nat, file: self.file@ }
    }
}

impl Clone for Location {
    fn clone(&self) -> (res: Self)
        ensures
            res == *self,
    {
        Location { line: self.line, column: self.column, file: self.file.clone() }
    }
}

/// A payload paired with the location of its first character.
#[derive(Debug, Clone)]
pub struct Locatable<T> {
    pub location: Location,
    pub data: T,
}

/// The mathematical value of a `Locatable`: a payload view paired with a
/// location view.
pub struct LocatedView<V> {
    pub location: LocationView,
    pub data: V,
}

/// The view of one lexer output item: a located token or lexical error.
pub open spec fn lexeme_view(l: Locatable<Result<Token, LexicalError>>) -> LocatedView<
    Result<TokenView, LexicalError>,
> {
    LocatedView {
        location: l.location@,
        data: match l.data {
            Ok(t) => Ok(t@),
            Err(e) => Err(e),
        },
    }
}

/// The reserved words of the language, as looked up in the keyword table.
#[derive(Clone, Copy, Debug, PartialEq, Eq, Structural)]
pub enum Keyword {
    Fn,
    Let,
    Var,
    With,
    Contract,
    Impl,
    Mut,
    Effect,
    Handle,
    EffectGroup,
    HandlerGroup,
    If,
    Else,
    For,
    In,
    Loop,
    While,
    Match,
    Break,
    Continue,
    Return,
    As,
    Use,
    Pub,
    Enum,
    Struct,
    Trait,
    True,
    False,
    Async,
    Await,
    Try,
}

/// Compares a string's contents with a literal.
pub(crate) fn str_matches(id: &String, lit: &str) -> (r: bool)
    ensures
        r == (id@ == lit@),
{
    *id == lit.to_owned()
}

} // verus!
