//! The lexer: turns source text into a sequence of located tokens.
//!
//! The specification side models the whole scan positionally over the
//! character sequence: `spec_lex` gives, for any input, the exact sequence of
//! located tokens and lexical errors the lexer produces.  The executable
//! `Lexer` is proved to return exactly that sequence.

use vstd::prelude::*;
use vstd::string::StringExecFns;

use crate::data::{
    Keyword, LexicalError, Locatable, LocatedView, LocationView, Location, Token, TokenView,
    lexeme_view, str_matches,
};

verus! {

broadcast use vstd::group_vstd_default;

// ---------------------------------------------------------------------------
// Character classes
// ---------------------------------------------------------------------------
/// ASCII whitespace: space, tab, newline, carriage return, form feed.
pub open spec fn is_ws_char(c: char) -> bool {
    c == ' ' || c == '\t' || c == '\n' || c == '\r' || c == '\u{000c}'
}

pub open spec fn is_digit_char(c: char) -> bool {
    48 <= c as u32 <= 57
}

pub open spec fn is_hex_digit_char(c: char) -> bool {
    is_digit_char(c) || 65 <= c as u32 <= 70 || 97 <= c as u32 <= 102
}

pub open spec fn is_oct_digit_char(c: char) -> bool {
    48 <= c as u32 <= 55
}

pub open spec fn is_bin_digit_char(c: char) -> bool {
    c == '0' || c == '1'
}

pub open spec fn is_alpha_char(c: char) -> bool {
    65 <= c as u32 <= 90 || 97 <= c as u32 <= 122
}

/// Characters that may start an identifier.
pub open spec fn is_ident_start_char(c: char) -> bool {
    is_alpha_char(c) || c == '_'
}

/// Characters that may continue an identifier (and form a numeric suffix).
pub open spec fn is_ident_char(c: char) -> bool {
    is_alpha_char(c) || is_digit_char(c) || c == '_'
}

fn is_ws(c: char) -> (r: bool)
    ensures
        r == is_ws_char(c),
{
    c == ' ' || c == '\t' || c == '\n' || c == '\r' || c == '\u{000c}'
}

fn is_digit(c: char) -> (r: bool)
    ensures
        r == is_digit_char(c),
{
    c >= '0' && c <= '9'
}

fn is_hex_digit(c: char) -> (r: bool)
    ensures
        r == is_hex_digit_char(c),
{
    (c >= '0' && c <= '9') || (c >= 'A' && c <= 'F') || (c >= 'a' && c <= 'f')
}

fn is_oct_digit(c: char) -> (r: bool)
    ensures
        r == is_oct_digit_char(c),
{
    c >= '0' && c <= '7'
}

fn is_bin_digit(c: char) -> (r: bool)
    ensures
        r == is_bin_digit_char(c),
{
    c == '0' || c == '1'
}

fn is_alpha(c: char) -> (r: bool)
    ensures
        r == is_alpha_char(c),
{
    (c >= 'A' && c <= 'Z') || (c >= 'a' && c <= 'z')
}

fn is_ident_start(c: char) -> (r: bool)
    ensures
        r == is_ident_start_char(c),
{
    is_alpha(c) || c == '_'
}

fn is_ident(c: char) -> (r: bool)
    ensures
        r == is_ident_char(c),
{
    is_alpha(c) || is_digit(c) || c == '_'
}

// ---------------------------------------------------------------------------
// Maximal runs of a character class
// ---------------------------------------------------------------------------
/// First index at or after `p` holding a non-whitespace character.
pub open spec fn ws_end(s: Seq<char>, p: int) -> int
    decreases s.len() - p, when 0 <= p <= s.len()
{
    if p >= s.len() {
        p
    } else if is_ws_char(s[p]) {
        ws_end(s, p + 1)
    } else {
        p
    }
}

/// End of the maximal run of decimal digits starting at `p`.
pub open spec fn digits_end(s: Seq<char>, p: int) -> int
    decreases s.len() - p, when 0 <= p <= s.len()
{
    if p >= s.len() {
        p
    } else if is_digit_char(s[p]) {
        digits_end(s, p + 1)
    } else {
        p
    }
}

/// End of the maximal run of hexadecimal digits starting at `p`.
pub open spec fn hex_end(s: Seq<char>, p: int) -> int
    decreases s.len() - p, when 0 <= p <= s.len()
{
    if p >= s.len() {
        p
    } else if is_hex_digit_char(s[p]) {
        hex_end(s, p + 1)
    } else {
        p
    }
}

/// End of the maximal run of octal digits starting at `p`.
pub open spec fn oct_end(s: Seq<char>, p: int) -> int
    decreases s.len() - p, when 0 <= p <= s.len()
{
    if p >= s.len() {
        p
    } else if is_oct_digit_char(s[p]) {
        oct_end(s, p + 1)
    } else {
        p
    }
}

/// End of the maximal run of binary digits starting at `p`.
pub open spec fn bin_end(s: Seq<char>, p: int) -> int
    decreases s.len() - p, when 0 <= p <= s.len()
{
    if p >= s.len() {
        p
    } else if is_bin_digit_char(s[p]) {
        bin_end(s, p + 1)
    } else {
        p
    }
}

/// End of the maximal run of identifier characters starting at `p`.
pub open spec fn ident_end(s: Seq<char>, p: int) -> int
    decreases s.len() - p, when 0 <= p <= s.len()
{
    if p >= s.len() {
        p
    } else if is_ident_char(s[p]) {
        ident_end(s, p + 1)
    } else {
        p
    }
}

pub proof fn lemma_ident_end_range(s: Seq<char>, p: int)
    requires
        0 <= p <= s.len(),
    ensures
        p <= ident_end(s, p) <= s.len(),
    decreases s.len() - p,
{
    if p < s.len() && is_ident_char(s[p]) {
        lemma_ident_end_range(s, p + 1);
    }
}

// ---------------------------------------------------------------------------
// Line and column counters
// ---------------------------------------------------------------------------
/// Line counter after consuming the first `p` characters: lines are 1-based
/// and each consumed newline starts the next one.
pub open spec fn spec_line(s: Seq<char>, p: int) -> nat
    decreases p,
{
    if p <= 0 {
        1
    } else {
        spec_line(s, p - 1) + (if s[p - 1] == '\n' {
            1nat
        } else {
            0nat
        })
    }
}

/// Column counter after consuming the first `p` characters: 0 at the start
/// of a line, and each consumed character other than a newline adds one.
pub open spec fn spec_col(s: Seq<char>, p: int) -> nat
    decreases p,
{
    if p <= 0 {
        0
    } else if s[p - 1] == '\n' {
        0
    } else {
        spec_col(s, p - 1) + 1
    }
}

pub proof fn lemma_line_col_bounds(s: Seq<char>, p: int)
    requires
        0 <= p,
    ensures
        spec_line(s, p) <= 1 + p,
        spec_col(s, p) <= p,
    decreases p,
{
    if p > 0 {
        lemma_line_col_bounds(s, p - 1);
    }
}

// ---------------------------------------------------------------------------
// The keyword table
// ---------------------------------------------------------------------------
/// The reserved word denoted by `s`, if any.
pub open spec fn spec_keyword(s: Seq<char>) -> Option<Keyword> {
    if s == "fn"@ {
        Some(Keyword::Fn)
    } else if s == "let"@ {
        Some(Keyword::Let)
    } else if s == "var"@ {
        Some(Keyword::Var)
    } else if s == "with"@ {
        Some(Keyword::With)
    } else if s == "contract"@ {
        Some(Keyword::Contract)
    } else if s == "impl"@ {
        Some(Keyword::Impl)
    } else if s == "mut"@ {
        Some(Keyword::Mut)
    } else if s == "effect"@ {
        Some(Keyword::Effect)
    } else if s == "handle"@ {
        Some(Keyword::Handle)
    } else if s == "effect_group"@ {
        Some(Keyword::EffectGroup)
    } else if s == "handler_group"@ {
        Some(Keyword::HandlerGroup)
    } else if s == "if"@ {
        Some(Keyword::If)
    } else if s == "else"@ {
        Some(Keyword::Else)
    } else if s == "for"@ {
        Some(Keyword::For)
    } else if s == "in"@ {
        Some(Keyword::In)
    } else if s == "loop"@ {
        Some(Keyword::Loop)
    } else if s == "while"@ {
        Some(Keyword::While)
    } else if s == "match"@ {
        Some(Keyword::Match)
    } else if s == "break"@ {
        Some(Keyword::Break)
    } else if s == "continue"@ {
        Some(Keyword::Continue)
    } else if s == "return"@ {
        Some(Keyword::Return)
    } else if s == "as"@ {
        Some(Keyword::As)
    } else if s == "use"@ {
        Some(Keyword::Use)
    } else if s == "pub"@ {
        Some(Keyword::Pub)
    } else if s == "enum"@ {
        Some(Keyword::Enum)
    } else if s == "struct"@ {
        Some(Keyword::Struct)
    } else if s == "trait"@ {
        Some(Keyword::Trait)
    } else if s == "true"@ {
        Some(Keyword::True)
    } else if s == "false"@ {
        Some(Keyword::False)
    } else if s == "async"@ {
        Some(Keyword::Async)
    } else if s == "await"@ {
        Some(Keyword::Await)
    } else if s == "try"@ {
        Some(Keyword::Try)
    } else {
        None
    }
}

/// The token emitted for a reserved word.
pub open spec fn spec_keyword_token(k: Keyword) -> TokenView {
    match k {
        Keyword::Fn => TokenView::Fn,
        Keyword::Let => TokenView::Let,
        Keyword::Var => TokenView::Var,
        Keyword::With => TokenView::With,
        Keyword::Contract => TokenView::Contract,
        Keyword::Impl => TokenView::Impl,
        Keyword::Mut => TokenView::Mut,
        Keyword::Effect => TokenView::Effect,
        Keyword::Handle => TokenView::Handle,
        Keyword::EffectGroup => TokenView::EffectGroup,
        Keyword::HandlerGroup => TokenView::HandlerGroup,
        Keyword::If => TokenView::If,
        Keyword::Else => TokenView::Else,
        Keyword::For => TokenView::For,
        Keyword::In => TokenView::In,
        Keyword::Loop => TokenView::Loop,
        Keyword::While => TokenView::While,
        Keyword::Match => TokenView::Match,
        Keyword::Break => TokenView::Break,
        Keyword::Continue => TokenView::Continue,
        Keyword::Return => TokenView::Return,
        Keyword::As => TokenView::As,
        Keyword::Use => TokenView::Use,
        Keyword::Pub => TokenView::Pub,
        Keyword::Enum => TokenView::Enum,
        Keyword::Struct => TokenView::Struct,
        Keyword::Trait => TokenView::Trait,
        Keyword::True => TokenView::True,
        Keyword::False => TokenView::False,
        Keyword::Async => TokenView::Async,
        Keyword::Await => TokenView::Await,
        Keyword::Try => TokenView::Try,
    }
}

/// Looks an identifier up in the keyword table.
pub fn lookup_keyword(id: &String) -> (r: Option<Keyword>)
    ensures
        r == spec_keyword(id@),
{
    if str_matches(id, "fn") {
        Some(Keyword::Fn)
    } else if str_matches(id, "let") {
        Some(Keyword::Let)
    } else if str_matches(id, "var") {
        Some(Keyword::Var)
    } else if str_matches(id, "with") {
        Some(Keyword::With)
    } else if str_matches(id, "contract") {
        Some(Keyword::Contract)
    } else if str_matches(id, "impl") {
        Some(Keyword::Impl)
    } else if str_matches(id, "mut") {
        Some(Keyword::Mut)
    } else if str_matches(id, "effect") {
        Some(Keyword::Effect)
    } else if str_matches(id, "handle") {
        Some(Keyword::Handle)
    } else if str_matches(id, "effect_group") {
        Some(Keyword::EffectGroup)
    } else if str_matches(id, "handler_group") {
        Some(Keyword::HandlerGroup)
    } else if str_matches(id, "if") {
        Some(Keyword::If)
    } else if str_matches(id, "else") {
        Some(Keyword::Else)
    } else if str_matches(id, "for") {
        Some(Keyword::For)
    } else if str_matches(id, "in") {
        Some(Keyword::In)
    } else if str_matches(id, "loop") {
        Some(Keyword::Loop)
    } else if str_matches(id, "while") {
        Some(Keyword::While)
    } else if str_matches(id, "match") {
        Some(Keyword::Match)
    } else if str_matches(id, "break") {
        Some(Keyword::Break)
    } else if str_matches(id, "continue") {
        Some(Keyword::Continue)
    } else if str_matches(id, "return") {
        Some(Keyword::Return)
    } else if str_matches(id, "as") {
        Some(Keyword::As)
    } else if str_matches(id, "use") {
        Some(Keyword::Use)
    } else if str_matches(id, "pub") {
        Some(Keyword::Pub)
    } else if str_matches(id, "enum") {
        Some(Keyword::Enum)
    } else if str_matches(id, "struct") {
        Some(Keyword::Struct)
    } else if str_matches(id, "trait") {
        Some(Keyword::Trait)
    } else if str_matches(id, "true") {
        Some(Keyword::True)
    } else if str_matches(id, "false") {
        Some(Keyword::False)
    } else if str_matches(id, "async") {
        Some(Keyword::Async)
    } else if str_matches(id, "await") {
        Some(Keyword::Await)
    } else if str_matches(id, "try") {
        Some(Keyword::Try)
    } else {
        None
    }
}

/// Maps a reserved word to its token.
pub fn keyword_token(k: Keyword) -> (t: Token)
    ensures
        t@ == spec_keyword_token(k),
{
    match k {
        Keyword::Fn => Token::Fn,
        Keyword::Let => Token::Let,
        Keyword::Var => Token::Var,
        Keyword::With => Token::With,
        Keyword::Contract => Token::Contract,
        Keyword::Impl => Token::Impl,
        Keyword::Mut => Token::Mut,
        Keyword::Effect => Token::Effect,
        Keyword::Handle => Token::Handle,
        Keyword::EffectGroup => Token::EffectGroup,
        Keyword::HandlerGroup => Token::HandlerGroup,
        Keyword::If => Token::If,
        Keyword::Else => Token::Else,
        Keyword::For => Token::For,
        Keyword::In => Token::In,
        Keyword::Loop => Token::Loop,
        Keyword::While => Token::While,
        Keyword::Match => Token::Match,
        Keyword::Break => Token::Break,
        Keyword::Continue => Token::Continue,
        Keyword::Return => Token::Return,
        Keyword::As => Token::As,
        Keyword::Use => Token::Use,
        Keyword::Pub => Token::Pub,
        Keyword::Enum => Token::Enum,
        Keyword::Struct => Token::Struct,
        Keyword::Trait => Token::Trait,
        Keyword::True => Token::True,
        Keyword::False => Token::False,
        Keyword::Async => Token::Async,
        Keyword::Await => Token::Await,
        Keyword::Try => Token::Try,
    }
}


// ---------------------------------------------------------------------------
// The scan, specified positionally
// ---------------------------------------------------------------------------
/// The outcome of scanning one lexeme: the token or error produced, and the
/// position of the first character that does not belong to the lexeme.
pub struct ScanOut {
    pub data: Result<TokenView, LexicalError>,
    pub next: int,
}

/// The view of an executable scan result.
pub open spec fn res_view(r: Result<Token, LexicalError>) -> Result<TokenView, LexicalError> {
    match r {
        Ok(t) => Ok(t@),
        Err(e) => Err(e),
    }
}

/// The character an escape sequence denotes, if the escape is recognized.
pub open spec fn spec_escape(c: char) -> Option<char> {
    if c == 'n' {
        Some('\n')
    } else if c == 'r' {
        Some('\r')
    } else if c == 't' {
        Some('\t')
    } else if c == '0' {
        Some('\0')
    } else if c == '\'' {
        Some('\'')
    } else if c == '"' {
        Some('"')
    } else if c == '\\' {
        Some('\\')
    } else {
        None
    }
}

fn escape_char(c: char) -> (r: Option<char>)
    ensures
        r == spec_escape(c),
{
    match c {
        'n' => Some('\n'),
        'r' => Some('\r'),
        't' => Some('\t'),
        '0' => Some('\0'),
        '\'' => Some('\''),
        '"' => Some('"'),
        '\\' => Some('\\'),
        _ => None,
    }
}

/// Appends the maximal alphanumeric suffix at `q` (separated by `_`) to the
/// literal text gathered so far, and classifies the literal.
pub open spec fn spec_number_suffix(s: Seq<char>, q: int, text: Seq<char>, is_float: bool) -> ScanOut {
    let e = ident_end(s, q);
    let full = if e > q {
        text + seq!['_'] + s.subrange(q, e)
    } else {
        text
    };
    ScanOut {
        data: Ok(
            if is_float {
                TokenView::FloatLiteral(full)
            } else {
                TokenView::IntegerLiteral(full)
            },
        ),
        next: e,
    }
}

/// The decimal tail of a number: an optional fraction (a `.` must be followed
/// by a digit to count), an optional exponent (which must contain at least
/// one digit), and the type suffix.
pub open spec fn spec_decimal_tail(s: Seq<char>, q: int, text: Seq<char>) -> ScanOut {
    let frac = q < s.len() && s[q] == '.' && q + 1 < s.len() && is_digit_char(s[q + 1]);
    let fe = if frac {
        digits_end(s, q + 1)
    } else {
        q
    };
    let text1 = if frac {
        text + s.subrange(q, fe)
    } else {
        text
    };
    if fe < s.len() && (s[fe] == 'e' || s[fe] == 'E') {
        let sg = if fe + 1 < s.len() && (s[fe + 1] == '+' || s[fe + 1] == '-') {
            fe + 2
        } else {
            fe + 1
        };
        let ee = digits_end(s, sg);
        if ee == sg {
            // An exponent marker with no digits is a malformed number.
            ScanOut { data: Err(LexicalError::InvalidNumberFormat), next: sg }
        } else {
            spec_number_suffix(s, ee, text1 + s.subrange(fe, ee), true)
        }
    } else {
        spec_number_suffix(s, fe, text1, frac)
    }
}

/// Scans a numeric literal starting at `p` (where `s[p]` is a digit).
/// A leading `0x`/`0o`/`0b` selects the radix and is kept, lower-cased, in
/// the literal text; a leading `0` followed by another digit is a legacy
/// octal literal; anything else is decimal.
pub open spec fn spec_scan_number(s: Seq<char>, p: int) -> ScanOut {
    if s[p] == '0' && p + 1 < s.len() && (s[p + 1] == 'x' || s[p + 1] == 'X') {
        let e = hex_end(s, p + 2);
        spec_number_suffix(s, e, seq!['0', 'x'] + s.subrange(p + 2, e), false)
    } else if s[p] == '0' && p + 1 < s.len() && (s[p + 1] == 'o' || s[p + 1] == 'O') {
        let e = oct_end(s, p + 2);
        spec_number_suffix(s, e, seq!['0', 'o'] + s.subrange(p + 2, e), false)
    } else if s[p] == '0' && p + 1 < s.len() && (s[p + 1] == 'b' || s[p + 1] == 'B') {
        let e = bin_end(s, p + 2);
        spec_number_suffix(s, e, seq!['0', 'b'] + s.subrange(p + 2, e), false)
    } else if s[p] == '0' && p + 1 < s.len() && is_digit_char(s[p + 1]) {
        let e = oct_end(s, p + 1);
        spec_number_suffix(s, e, seq!['0'] + s.subrange(p + 1, e), false)
    } else if s[p] == '0' {
        spec_decimal_tail(s, p + 1, seq!['0'])
    } else {
        let e = digits_end(s, p);
        spec_decimal_tail(s, e, s.subrange(p, e))
    }
}

/// Scans the remainder of a string literal from `i` (just past the opening
/// quote, or past the last consumed character), with `acc` the decoded
/// content so far.  A raw newline or the end of input before the closing
/// quote leaves the literal unterminated.
pub open spec fn spec_scan_string(s: Seq<char>, i: int, acc: Seq<char>) -> ScanOut
    decreases s.len() - i, when 0 <= i <= s.len()
{
    if i >= s.len() {
        ScanOut { data: Err(LexicalError::UnterminatedString), next: i }
    } else if s[i] == '"' {
        ScanOut { data: Ok(TokenView::StringLiteral(acc)), next: i + 1 }
    } else if s[i] == '\n' {
        ScanOut { data: Err(LexicalError::UnterminatedString), next: i }
    } else if s[i] == '\\' {
        if i + 1 >= s.len() {
            ScanOut { data: Err(LexicalError::UnexpectedEofInLiteral), next: i + 1 }
        } else {
            match spec_escape(s[i + 1]) {
                Some(c) => spec_scan_string(s, i + 2, acc.push(c)),
                None => ScanOut {
                    data: Err(LexicalError::UnknownEscapeSequence(s[i + 1])),
                    next: i + 2,
                },
            }
        }
    } else {
        spec_scan_string(s, i + 1, acc.push(s[i]))
    }
}

/// Scans a character literal from `i` (just past the opening quote).
pub open spec fn spec_scan_char(s: Seq<char>, i: int) -> ScanOut {
    if i >= s.len() {
        ScanOut { data: Err(LexicalError::UnexpectedEofInLiteral), next: i }
    } else if s[i] == '\'' {
        ScanOut { data: Err(LexicalError::EmptyCharLiteral), next: i + 1 }
    } else if s[i] == '\n' {
        ScanOut { data: Err(LexicalError::UnterminatedChar), next: i }
    } else {
        let content = if s[i] == '\\' {
            if i + 1 >= s.len() {
                Err(ScanOut { data: Err(LexicalError::UnexpectedEofInLiteral), next: i + 1 })
            } else {
                match spec_escape(s[i + 1]) {
                    Some(c) => Ok((c, i + 2)),
                    None => Err(
                        ScanOut {
                            data: Err(LexicalError::UnknownEscapeSequence(s[i + 1])),
                            next: i + 2,
                        },
                    ),
                }
            }
        } else {
            Ok((s[i], i + 1))
        };
        match content {
            Err(out) => out,
            Ok((c, j)) => {
                if j >= s.len() {
                    ScanOut { data: Err(LexicalError::UnterminatedChar), next: j }
                } else if s[j] == '\'' {
                    ScanOut { data: Ok(TokenView::CharLiteral(c)), next: j + 1 }
                } else if s[j] == '\n' {
                    ScanOut { data: Err(LexicalError::UnterminatedChar), next: j }
                } else {
                    ScanOut { data: Err(LexicalError::MultipleCharactersInCharLiteral), next: j + 1 }
                }
            },
        }
    }
}

/// Scans an operator, separator or bracket starting at `p`, greedily taking
/// the longest operator that begins with `s[p]`.  A character that starts no
/// token at all is an `UnknownCharacter` error covering exactly itself.
pub open spec fn spec_scan_operator(s: Seq<char>, p: int) -> ScanOut {
    let c = s[p];
    let two = p + 1 < s.len();
    if c == '+' {
        if two && s[p + 1] == '=' {
            ScanOut { data: Ok(TokenView::PlusEqual), next: p + 2 }
        } else {
            ScanOut { data: Ok(TokenView::Plus), next: p + 1 }
        }
    } else if c == '-' {
        if two && s[p + 1] == '=' {
            ScanOut { data: Ok(TokenView::MinusEqual), next: p + 2 }
        } else if two && s[p + 1] == '>' {
            ScanOut { data: Ok(TokenView::Arrow), next: p + 2 }
        } else {
            ScanOut { data: Ok(TokenView::Minus), next: p + 1 }
        }
    } else if c == '=' {
        if two && s[p + 1] == '=' {
            ScanOut { data: Ok(TokenView::EqualEqual), next: p + 2 }
        } else if two && s[p + 1] == '>' {
            ScanOut { data: Ok(TokenView::FatArrow), next: p + 2 }
        } else {
            ScanOut { data: Ok(TokenView::Equal), next: p + 1 }
        }
    } else if c == '*' {
        if two && s[p + 1] == '=' {
            ScanOut { data: Ok(TokenView::StarEqual), next: p + 2 }
        } else {
            ScanOut { data: Ok(TokenView::Star), next: p + 1 }
        }
    } else if c == '/' {
        if two && s[p + 1] == '=' {
            ScanOut { data: Ok(TokenView::SlashEqual), next: p + 2 }
        } else {
            ScanOut { data: Ok(TokenView::Slash), next: p + 1 }
        }
    } else if c == '%' {
        if two && s[p + 1] == '=' {
            ScanOut { data: Ok(TokenView::PercentEqual), next: p + 2 }
        } else {
            ScanOut { data: Ok(TokenView::Percent), next: p + 1 }
        }
    } else if c == '&' {
        if p + 3 < s.len() && s[p + 1] == 'm' && s[p + 2] == 'u' && s[p + 3] == 't' {
            ScanOut { data: Ok(TokenView::MutRef), next: p + 4 }
        } else if two && s[p + 1] == '&' {
            ScanOut { data: Ok(TokenView::And), next: p + 2 }
        } else {
            ScanOut { data: Ok(TokenView::Ampersand), next: p + 1 }
        }
    } else if c == '|' {
        if two && s[p + 1] == '|' {
            ScanOut { data: Ok(TokenView::Or), next: p + 2 }
        } else {
            ScanOut { data: Ok(TokenView::Pipe), next: p + 1 }
        }
    } else if c == '^' {
        if two && s[p + 1] == '=' {
            ScanOut { data: Ok(TokenView::CaretEqual), next: p + 2 }
        } else {
            ScanOut { data: Ok(TokenView::Caret), next: p + 1 }
        }
    } else if c == '!' {
        if two && s[p + 1] == '=' {
            ScanOut { data: Ok(TokenView::BangEqual), next: p + 2 }
        } else {
            ScanOut { data: Ok(TokenView::Bang), next: p + 1 }
        }
    } else if c == '<' {
        if two && s[p + 1] == '=' {
            ScanOut { data: Ok(TokenView::LessEqual), next: p + 2 }
        } else if two && s[p + 1] == '<' {
            if p + 2 < s.len() && s[p + 2] == '=' {
                ScanOut { data: Ok(TokenView::ShlEqual), next: p + 3 }
            } else {
                ScanOut { data: Ok(TokenView::Shl), next: p + 2 }
            }
        } else {
            ScanOut { data: Ok(TokenView::Less), next: p + 1 }
        }
    } else if c == '>' {
        if two && s[p + 1] == '=' {
            ScanOut { data: Ok(TokenView::GreaterEqual), next: p + 2 }
        } else if two && s[p + 1] == '>' {
            if p + 2 < s.len() && s[p + 2] == '=' {
                ScanOut { data: Ok(TokenView::ShrEqual), next: p + 3 }
            } else {
                ScanOut { data: Ok(TokenView::Shr), next: p + 2 }
            }
        } else {
            ScanOut { data: Ok(TokenView::Greater), next: p + 1 }
        }
    } else if c == '.' {
        if two && s[p + 1] == '.' {
            if p + 2 < s.len() && s[p + 2] == '=' {
                ScanOut { data: Ok(TokenView::RangeInclusive), next: p + 3 }
            } else {
                ScanOut { data: Ok(TokenView::Range), next: p + 2 }
            }
        } else {
            ScanOut { data: Ok(TokenView::Dot), next: p + 1 }
        }
    } else if c == ':' {
        if two && s[p + 1] == ':' {
            ScanOut { data: Ok(TokenView::PathSep), next: p + 2 }
        } else {
            ScanOut { data: Ok(TokenView::Colon), next: p + 1 }
        }
    } else if c == ',' {
        ScanOut { data: Ok(TokenView::Comma), next: p + 1 }
    } else if c == ';' {
        ScanOut { data: Ok(TokenView::Semicolon), next: p + 1 }
    } else if c == '(' {
        ScanOut { data: Ok(TokenView::LParen), next: p + 1 }
    } else if c == ')' {
        ScanOut { data: Ok(TokenView::RParen), next: p + 1 }
    } else if c == '{' {
        ScanOut { data: Ok(TokenView::LBrace), next: p + 1 }
    } else if c == '}' {
        ScanOut { data: Ok(TokenView::RBrace), next: p + 1 }
    } else if c == '[' {
        ScanOut { data: Ok(TokenView::LBracket), next: p + 1 }
    } else if c == ']' {
        ScanOut { data: Ok(TokenView::RBracket), next: p + 1 }
    } else if c == '?' {
        ScanOut { data: Ok(TokenView::Question), next: p + 1 }
    } else if c == '@' {
        ScanOut { data: Ok(TokenView::At), next: p + 1 }
    } else if c == '#' {
        ScanOut { data: Ok(TokenView::Hash), next: p + 1 }
    } else if c == '$' {
        ScanOut { data: Ok(TokenView::Dollar), next: p + 1 }
    } else {
        ScanOut { data: Err(LexicalError::UnknownCharacter(c)), next: p + 1 }
    }
}

/// Scans exactly one lexeme starting at the non-whitespace position `p`.
pub open spec fn spec_scan(s: Seq<char>, p: int) -> ScanOut {
    let c = s[p];
    if is_digit_char(c) {
        spec_scan_number(s, p)
    } else if c == '"' {
        spec_scan_string(s, p + 1, Seq::empty())
    } else if c == '\'' {
        spec_scan_char(s, p + 1)
    } else if is_ident_start_char(c) {
        let e = ident_end(s, p);
        let text = s.subrange(p, e);
        ScanOut {
            data: Ok(
                match spec_keyword(text) {
                    Some(k) => spec_keyword_token(k),
                    None => TokenView::Identifier(text),
                },
            ),
            next: e,
        }
    } else {
        spec_scan_operator(s, p)
    }
}

/// One step of the lexer: skip whitespace, then scan one lexeme; `None` when
/// only whitespace remains.  The item carries the location of the first
/// character of the lexeme.
pub open spec fn spec_next_lexeme(file: Seq<char>, s: Seq<char>, p: int) -> Option<
    (LocatedView<Result<TokenView, LexicalError>>, int),
> {
    let q = ws_end(s, p);
    if q >= s.len() {
        None
    } else {
        let o = spec_scan(s, q);
        Some(
            (
                LocatedView {
                    location: LocationView {
                        line: spec_line(s, q + 1),
                        column: spec_col(s, q + 1),
                        file,
                    },
                    data: o.data,
                },
                o.next,
            ),
        )
    }
}

/// The full output of the lexer on `s` from position `p`: every lexeme in
/// order, errors included, until only whitespace remains.
pub open spec fn spec_lex(file: Seq<char>, s: Seq<char>, p: int) -> Seq<
    LocatedView<Result<TokenView, LexicalError>>,
>
    decreases s.len() - p, when 0 <= p <= s.len()
{
    match spec_next_lexeme(file, s, p) {
        None => seq![],
        Some((item, n)) => {
            if p < n <= s.len() {
                seq![item] + spec_lex(file, s, n)
            } else {
                // A scan always consumes at least one character; this branch
                // only makes the recursion visibly well-founded.
                seq![item]
            }
        },
    }
}

/// The views of a vector of lexer output items.
pub open spec fn lexemes_view(s: Seq<Locatable<Result<Token, LexicalError>>>) -> Seq<
    LocatedView<Result<TokenView, LexicalError>>,
> {
    s.map_values(|l: Locatable<Result<Token, LexicalError>>| lexeme_view(l))
}

/// Lexing is deterministic: the token sequence is a function of the file
/// label and the input text alone, so any two runs over the same input
/// produce the same located tokens and errors.
pub proof fn lemma_lex_deterministic(
    file: Seq<char>,
    s: Seq<char>,
    a: Seq<LocatedView<Result<TokenView, LexicalError>>>,
    b: Seq<LocatedView<Result<TokenView, LexicalError>>>,
)
    requires
        a == spec_lex(file, s, 0),
        b == spec_lex(file, s, 0),
    ensures
        a == b,
{
}


// ---------------------------------------------------------------------------
// The executable lexer
// ---------------------------------------------------------------------------
/// Relies on String::push: appends exactly the given character.
#[verifier::external_body]
fn push_char(s: &mut String, c: char)
    ensures
        final(s)@ == old(s)@.push(c),
{
    s.push(c);
}

/// The lexer: owns the materialized character supply, a cursor into it, and
/// the line and column counters for the cursor position.
pub struct Lexer {
    file: String,
    chars: Vec<char>,
    pos: usize,
    line: usize,
    col: usize,
}

impl Lexer {
    /// The character sequence being lexed.
    pub closed spec fn input(&self) -> Seq<char> {
        self.chars@
    }

    /// The file label stamped into every location.
    pub closed spec fn file_name(&self) -> Seq<char> {
        self.file@
    }

    /// The position of the next unconsumed character.
    pub closed spec fn cursor(&self) -> int {
        self.pos as int
    }

    /// The lexer state is consistent: the cursor is inside the input and the
    /// line and column counters agree with the characters consumed so far.
    pub closed spec fn wf(&self) -> bool {
        &&& self.pos <= self.chars.len()
        &&& self.chars.len() < usize::MAX
        &&& self.line as nat == spec_line(self.chars@, self.pos as int)
        &&& self.col as nat == spec_col(self.chars@, self.pos as int)
    }

    /// Builds a lexer over `text`, stamping every location with `filename`.
    #[verifier::loop_isolation(false)]
    pub fn new(filename: &str, text: &str) -> (l: Lexer)
        requires
            text@.len() < usize::MAX as nat,
        ensures
            l.wf(),
            l.input() == text@,
            l.file_name() == filename@,
            l.cursor() == 0,
    {
        let n = text.unicode_len();
        let mut chars: Vec<char> = Vec::new();
        let mut i: usize = 0;
        while i < n
            invariant
                i <= n,
                n as nat == text@.len(),
                chars@.len() == i as nat,
                forall|j: int| 0 <= j < i as int ==> chars@[j] == text@[j],
            decreases n - i,
        {
            chars.push(text.get_char(i));
            i = i + 1;
        }
        proof {
            assert(chars@ =~= text@);
        }
        Lexer { file: filename.to_owned(), chars, pos: 0, line: 1, col: 0 }
    }

    /// Consumes one character, keeping the line and column counters in step.
    fn bump(&mut self)
        requires
            old(self).wf(),
            old(self).cursor() < old(self).input().len(),
        ensures
            final(self).wf(),
            final(self).input() == old(self).input(),
            final(self).file_name() == old(self).file_name(),
            final(self).cursor() == old(self).cursor() + 1,
    {
        proof {
            lemma_line_col_bounds(self.chars@, self.pos as int);
        }
        let c = self.chars[self.pos];
        if c == '\n' {
            self.line = self.line + 1;
            self.col = 0;
        } else {
            self.col = self.col + 1;
        }
        self.pos = self.pos + 1;
    }

    /// True when the next character is exactly `c`.
    fn at_char(&self, c: char) -> (r: bool)
        ensures
            r == (self.cursor() < self.input().len() && self.input()[self.cursor()] == c),
    {
        self.pos < self.chars.len() && self.chars[self.pos] == c
    }

    /// Skips the maximal run of whitespace at the cursor.
    #[verifier::loop_isolation(false)]
    fn skip_whitespace(&mut self)
        requires
            old(self).wf(),
        ensures
            final(self).wf(),
            final(self).input() == old(self).input(),
            final(self).file_name() == old(self).file_name(),
            final(self).cursor() == ws_end(old(self).input(), old(self).cursor()),
            old(self).cursor() <= final(self).cursor(),
            final(self).cursor() < final(self).input().len() ==> !is_ws_char(
                final(self).input()[final(self).cursor()],
            ),
    {
        let ghost s = self.chars@;
        let ghost p0 = self.pos as int;
        while self.pos < self.chars.len() && is_ws(self.chars[self.pos])
            invariant
                self.wf(),
                self.chars@ == s,
                self.file@ == old(self).file@,
                p0 <= self.pos as int <= s.len(),
                ws_end(s, p0) == ws_end(s, self.pos as int),
            decreases s.len() - self.pos as int,
        {
            self.bump();
        }
    }

    /// Scans the maximal identifier run at the cursor and returns its text.
    #[verifier::loop_isolation(false)]
    fn scan_identifier(&mut self) -> (r: String)
        requires
            old(self).wf(),
        ensures
            final(self).wf(),
            final(self).input() == old(self).input(),
            final(self).file_name() == old(self).file_name(),
            final(self).cursor() == ident_end(old(self).input(), old(self).cursor()),
            old(self).cursor() <= final(self).cursor(),
            r@ == old(self).input().subrange(old(self).cursor(), final(self).cursor()),
    {
        let ghost s = self.chars@;
        let ghost p0 = self.pos as int;
        let mut id = String::new();
        while self.pos < self.chars.len() && is_ident(self.chars[self.pos])
            invariant
                self.wf(),
                self.chars@ == s,
                self.file@ == old(self).file@,
                p0 <= self.pos as int <= s.len(),
                ident_end(s, p0) == ident_end(s, self.pos as int),
                id@ == s.subrange(p0, self.pos as int),
            decreases s.len() - self.pos as int,
        {
            let c = self.chars[self.pos];
            push_char(&mut id, c);
            self.bump();
            proof {
                let p_now = self.pos as int;
                lemma_subrange_push(s, p0, p_now - 1, c);
            }
        }
        proof {
            let p_now = self.pos as int;
            assert(id@ =~= s.subrange(p0, p_now));
        }
        id
    }

    /// Appends the type suffix, if any, and builds the numeric token.
    fn finish_number(&mut self, text: String, is_float: bool) -> (r: Token)
        requires
            old(self).wf(),
        ensures
            final(self).wf(),
            final(self).input() == old(self).input(),
            final(self).file_name() == old(self).file_name(),
            ({
                let o = spec_number_suffix(old(self).input(), old(self).cursor(), text@, is_float);
                final(self).cursor() == o.next && Ok::<TokenView, LexicalError>(r@) == o.data
            }),
            old(self).cursor() <= final(self).cursor(),
    {
        let ghost s = self.chars@;
        let ghost q = self.pos as int;
        let ghost t0 = text@;
        let suffix = self.scan_identifier();
        let mut text = text;
        if !suffix.as_str().is_empty() {
            push_char(&mut text, '_');
            text.append(suffix.as_str());
            proof {
                let p_now = self.pos as int;
                assert(text@ =~= t0 + seq!['_'] + s.subrange(q, p_now));
            }
        } else {
            proof {
                let p_now = self.pos as int;
                assert(s.subrange(q, p_now) =~= Seq::<char>::empty());
                assert(p_now == q);
            }
        }
        if is_float {
            Token::FloatLiteral(text)
        } else {
            Token::IntegerLiteral(text)
        }
    }

    /// Scans the fraction, exponent and suffix of a decimal literal whose
    /// integer part (already in `text`) ends at the cursor.
    #[verifier::loop_isolation(false)]
    fn scan_decimal_tail(&mut self, text: String) -> (r: Result<Token, LexicalError>)
        requires
            old(self).wf(),
        ensures
            final(self).wf(),
            final(self).input() == old(self).input(),
            final(self).file_name() == old(self).file_name(),
            ({
                let o = spec_decimal_tail(old(self).input(), old(self).cursor(), text@);
                final(self).cursor() == o.next && res_view(r) == o.data
            }),
            old(self).cursor() <= final(self).cursor(),
    {
        let ghost s = self.chars@;
        let ghost q = self.pos as int;
        let ghost text0 = text@;
        let mut text = text;
        let mut is_float = false;
        // Fraction: a '.' counts only when a digit follows it.
        if self.pos < self.chars.len() && self.chars[self.pos] == '.' && self.pos + 1
            < self.chars.len() && is_digit(self.chars[self.pos + 1]) {
            is_float = true;
            push_char(&mut text, '.');
            self.bump();
            proof {
                let p_now = self.pos as int;
                assert(text@ =~= text0 + s.subrange(q, p_now));
            }
            while self.pos < self.chars.len() && is_digit(self.chars[self.pos])
                invariant
                    self.wf(),
                    self.chars@ == s,
                    self.file@ == old(self).file@,
                    q + 1 <= self.pos as int <= s.len(),
                    digits_end(s, q + 1) == digits_end(s, self.pos as int),
                    text@ == text0 + s.subrange(q, self.pos as int),
                decreases s.len() - self.pos as int,
            {
                let c = self.chars[self.pos];
                push_char(&mut text, c);
                self.bump();
                proof {
                    let p_now = self.pos as int;
                    lemma_subrange_push(s, q, p_now - 1, c);
                }
            }
        }
        let ghost fe = self.pos as int;
        let ghost text1 = text@;
        // Exponent: 'e' or 'E', an optional sign, then at least one digit.
        if self.pos < self.chars.len() && (self.chars[self.pos] == 'e' || self.chars[self.pos]
            == 'E') {
            let ec = self.chars[self.pos];
            push_char(&mut text, ec);
            self.bump();
            if self.pos < self.chars.len() && (self.chars[self.pos] == '+' || self.chars[self.pos]
                == '-') {
                let sc = self.chars[self.pos];
                push_char(&mut text, sc);
                self.bump();
            }
            let ghost sg = self.pos as int;
            proof {
                assert(text@ =~= text1 + s.subrange(fe, sg));
            }
            if self.pos >= self.chars.len() || !is_digit(self.chars[self.pos]) {
                return Err(LexicalError::InvalidNumberFormat);
            }
            while self.pos < self.chars.len() && is_digit(self.chars[self.pos])
                invariant
                    self.wf(),
                    self.chars@ == s,
                    self.file@ == old(self).file@,
                    sg <= self.pos as int <= s.len(),
                    digits_end(s, sg) == digits_end(s, self.pos as int),
                    text@ == text1 + s.subrange(fe, self.pos as int),
                decreases s.len() - self.pos as int,
            {
                let c = self.chars[self.pos];
                push_char(&mut text, c);
                self.bump();
                proof {
                    let p_now = self.pos as int;
                    lemma_subrange_push(s, fe, p_now - 1, c);
                }
            }
            return Ok(self.finish_number(text, true));
        }
        Ok(self.finish_number(text, is_float))
    }

    /// Scans a numeric literal; the cursor is on its first digit.
    #[verifier::loop_isolation(false)]
    fn scan_number(&mut self) -> (r: Result<Token, LexicalError>)
        requires
            old(self).wf(),
            old(self).cursor() < old(self).input().len(),
            is_digit_char(old(self).input()[old(self).cursor()]),
        ensures
            final(self).wf(),
            final(self).input() == old(self).input(),
            final(self).file_name() == old(self).file_name(),
            ({
                let o = spec_scan_number(old(self).input(), old(self).cursor());
                final(self).cursor() == o.next && res_view(r) == o.data
            }),
            old(self).cursor() < final(self).cursor(),
    {
        let ghost s = self.chars@;
        let ghost p = self.pos as int;
        let c0 = self.chars[self.pos];
        if c0 == '0' && self.pos + 1 < self.chars.len() && (self.chars[self.pos + 1] == 'x'
            || self.chars[self.pos + 1] == 'X') {
            self.bump();
            self.bump();
            let mut text = String::new();
            push_char(&mut text, '0');
            push_char(&mut text, 'x');
            proof {
                let p_now = self.pos as int;
                assert(text@ =~= seq!['0', 'x'] + s.subrange(p + 2, p_now));
            }
            while self.pos < self.chars.len() && is_hex_digit(self.chars[self.pos])
                invariant
                    self.wf(),
                    self.chars@ == s,
                    self.file@ == old(self).file@,
                    p + 2 <= self.pos as int <= s.len(),
                    hex_end(s, p + 2) == hex_end(s, self.pos as int),
                    text@ == seq!['0', 'x'] + s.subrange(p + 2, self.pos as int),
                decreases s.len() - self.pos as int,
            {
                let c = self.chars[self.pos];
                push_char(&mut text, c);
                self.bump();
                proof {
                    let p_now = self.pos as int;
                    lemma_subrange_push(s, p + 2, p_now - 1, c);
                }
            }
            Ok(self.finish_number(text, false))
        } else if c0 == '0' && self.pos + 1 < self.chars.len() && (self.chars[self.pos + 1] == 'o'
            || self.chars[self.pos + 1] == 'O') {
            self.bump();
            self.bump();
            let mut text = String::new();
            push_char(&mut text, '0');
            push_char(&mut text, 'o');
            proof {
                let p_now = self.pos as int;
                assert(text@ =~= seq!['0', 'o'] + s.subrange(p + 2, p_now));
            }
            while self.pos < self.chars.len() && is_oct_digit(self.chars[self.pos])
                invariant
                    self.wf(),
                    self.chars@ == s,
                    self.file@ == old(self).file@,
                    p + 2 <= self.pos as int <= s.len(),
                    oct_end(s, p + 2) == oct_end(s, self.pos as int),
                    text@ == seq!['0', 'o'] + s.subrange(p + 2, self.pos as int),
                decreases s.len() - self.pos as int,
            {
                let c = self.chars[self.pos];
                push_char(&mut text, c);
                self.bump();
                proof {
                    let p_now = self.pos as int;
                    lemma_subrange_push(s, p + 2, p_now - 1, c);
                }
            }
            Ok(self.finish_number(text, false))
        } else if c0 == '0' && self.pos + 1 < self.chars.len() && (self.chars[self.pos + 1] == 'b'
            || self.chars[self.pos + 1] == 'B') {
            self.bump();
            self.bump();
            let mut text = String::new();
            push_char(&mut text, '0');
            push_char(&mut text, 'b');
            proof {
                let p_now = self.pos as int;
                assert(text@ =~= seq!['0', 'b'] + s.subrange(p + 2, p_now));
            }
            while self.pos < self.chars.len() && is_bin_digit(self.chars[self.pos])
                invariant
                    self.wf(),
                    self.chars@ == s,
                    self.file@ == old(self).file@,
                    p + 2 <= self.pos as int <= s.len(),
                    bin_end(s, p + 2) == bin_end(s, self.pos as int),
                    text@ == seq!['0', 'b'] + s.subrange(p + 2, self.pos as int),
                decreases s.len() - self.pos as int,
            {
                let c = self.chars[self.pos];
                push_char(&mut text, c);
                self.bump();
                proof {
                    let p_now = self.pos as int;
                    lemma_subrange_push(s, p + 2, p_now - 1, c);
                }
            }
            Ok(self.finish_number(text, false))
        } else if c0 == '0' && self.pos + 1 < self.chars.len() && is_digit(
            self.chars[self.pos + 1],
        ) {
            // Legacy octal: a leading 0 directly followed by another digit.
            self.bump();
            let mut text = String::new();
            push_char(&mut text, '0');
            proof {
                let p_now = self.pos as int;
                assert(text@ =~= seq!['0'] + s.subrange(p + 1, p_now));
            }
            while self.pos < self.chars.len() && is_oct_digit(self.chars[self.pos])
                invariant
                    self.wf(),
                    self.chars@ == s,
                    self.file@ == old(self).file@,
                    p + 1 <= self.pos as int <= s.len(),
                    oct_end(s, p + 1) == oct_end(s, self.pos as int),
                    text@ == seq!['0'] + s.subrange(p + 1, self.pos as int),
                decreases s.len() - self.pos as int,
            {
                let c = self.chars[self.pos];
                push_char(&mut text, c);
                self.bump();
                proof {
                    let p_now = self.pos as int;
                    lemma_subrange_push(s, p + 1, p_now - 1, c);
                }
            }
            Ok(self.finish_number(text, false))
        } else if c0 == '0' {
            self.bump();
            let mut text = String::new();
            push_char(&mut text, '0');
            proof {
                assert(text@ =~= seq!['0']);
            }
            self.scan_decimal_tail(text)
        } else {
            let mut text = String::new();
            proof {
                let p_now = self.pos as int;
                assert(text@ =~= s.subrange(p, p_now));
            }
            while self.pos < self.chars.len() && is_digit(self.chars[self.pos])
                invariant
                    self.wf(),
                    self.chars@ == s,
                    self.file@ == old(self).file@,
                    p <= self.pos as int <= s.len(),
                    digits_end(s, p) == digits_end(s, self.pos as int),
                    text@ == s.subrange(p, self.pos as int),
                decreases s.len() - self.pos as int,
            {
                let c = self.chars[self.pos];
                push_char(&mut text, c);
                self.bump();
                proof {
                    let p_now = self.pos as int;
                    lemma_subrange_push(s, p, p_now - 1, c);
                }
            }
            self.scan_decimal_tail(text)
        }
    }

    /// Scans a string literal; the cursor is on the opening quote.
    #[verifier::loop_isolation(false)]
    fn scan_string(&mut self) -> (r: Result<Token, LexicalError>)
        requires
            old(self).wf(),
            old(self).cursor() < old(self).input().len(),
            old(self).input()[old(self).cursor()] == '"',
        ensures
            final(self).wf(),
            final(self).input() == old(self).input(),
            final(self).file_name() == old(self).file_name(),
            ({
                let o = spec_scan_string(old(self).input(), old(self).cursor() + 1, Seq::empty());
                final(self).cursor() == o.next && res_view(r) == o.data
            }),
            old(self).cursor() < final(self).cursor(),
    {
        let ghost s = self.chars@;
        let ghost p = self.pos as int;
        self.bump();
        let mut content = String::new();
        loop
            invariant
                self.wf(),
                self.chars@ == s,
                self.file@ == old(self).file@,
                p + 1 <= self.pos as int <= s.len(),
                spec_scan_string(s, p + 1, Seq::empty()) == spec_scan_string(
                    s,
                    self.pos as int,
                    content@,
                ),
            decreases s.len() - self.pos as int,
        {
            if self.pos >= self.chars.len() {
                return Err(LexicalError::UnterminatedString);
            }
            let c = self.chars[self.pos];
            if c == '"' {
                self.bump();
                return Ok(Token::StringLiteral(content));
            } else if c == '\n' {
                return Err(LexicalError::UnterminatedString);
            } else if c == '\\' {
                if self.pos + 1 >= self.chars.len() {
                    self.bump();
                    return Err(LexicalError::UnexpectedEofInLiteral);
                }
                let c2 = self.chars[self.pos + 1];
                match escape_char(c2) {
                    Some(d) => {
                        self.bump();
                        self.bump();
                        push_char(&mut content, d);
                    },
                    None => {
                        self.bump();
                        self.bump();
                        return Err(LexicalError::UnknownEscapeSequence(c2));
                    },
                }
            } else {
                self.bump();
                push_char(&mut content, c);
            }
        }
    }

    /// Scans a character literal; the cursor is on the opening quote.
    fn scan_char(&mut self) -> (r: Result<Token, LexicalError>)
        requires
            old(self).wf(),
            old(self).cursor() < old(self).input().len(),
            old(self).input()[old(self).cursor()] == '\'',
        ensures
            final(self).wf(),
            final(self).input() == old(self).input(),
            final(self).file_name() == old(self).file_name(),
            ({
                let o = spec_scan_char(old(self).input(), old(self).cursor() + 1);
                final(self).cursor() == o.next && res_view(r) == o.data
            }),
            old(self).cursor() < final(self).cursor(),
    {
        let ghost s = self.chars@;
        self.bump();
        if self.pos >= self.chars.len() {
            return Err(LexicalError::UnexpectedEofInLiteral);
        }
        let c1 = self.chars[self.pos];
        if c1 == '\'' {
            self.bump();
            return Err(LexicalError::EmptyCharLiteral);
        }
        if c1 == '\n' {
            return Err(LexicalError::UnterminatedChar);
        }
        let content: char;
        if c1 == '\\' {
            if self.pos + 1 >= self.chars.len() {
                self.bump();
                return Err(LexicalError::UnexpectedEofInLiteral);
            }
            let c2 = self.chars[self.pos + 1];
            match escape_char(c2) {
                Some(d) => {
                    self.bump();
                    self.bump();
                    content = d;
                },
                None => {
                    self.bump();
                    self.bump();
                    return Err(LexicalError::UnknownEscapeSequence(c2));
                },
            }
        } else {
            self.bump();
            content = c1;
        }
        if self.pos >= self.chars.len() {
            return Err(LexicalError::UnterminatedChar);
        }
        let cc = self.chars[self.pos];
        if cc == '\'' {
            self.bump();
            Ok(Token::CharLiteral(content))
        } else if cc == '\n' {
            Err(LexicalError::UnterminatedChar)
        } else {
            self.bump();
            Err(LexicalError::MultipleCharactersInCharLiteral)
        }
    }

    /// Scans an operator, separator or bracket; the cursor is on its first
    /// character.
    fn scan_operator(&mut self) -> (r: Result<Token, LexicalError>)
        requires
            old(self).wf(),
            old(self).cursor() < old(self).input().len(),
        ensures
            final(self).wf(),
            final(self).input() == old(self).input(),
            final(self).file_name() == old(self).file_name(),
            ({
                let o = spec_scan_operator(old(self).input(), old(self).cursor());
                final(self).cursor() == o.next && res_view(r) == o.data
            }),
            old(self).cursor() < final(self).cursor(),
    {
        let c = self.chars[self.pos];
        self.bump();
        match c {
            '+' => {
                if self.at_char('=') {
                    self.bump();
                    Ok(Token::PlusEqual)
                } else {
                    Ok(Token::Plus)
                }
            },
            '-' => {
                if self.at_char('=') {
                    self.bump();
                    Ok(Token::MinusEqual)
                } else if self.at_char('>') {
                    self.bump();
                    Ok(Token::Arrow)
                } else {
                    Ok(Token::Minus)
                }
            },
            '=' => {
                if self.at_char('=') {
                    self.bump();
                    Ok(Token::EqualEqual)
                } else if self.at_char('>') {
                    self.bump();
                    Ok(Token::FatArrow)
                } else {
                    Ok(Token::Equal)
                }
            },
            '*' => {
                if self.at_char('=') {
                    self.bump();
                    Ok(Token::StarEqual)
                } else {
                    Ok(Token::Star)
                }
            },
            '/' => {
                if self.at_char('=') {
                    self.bump();
                    Ok(Token::SlashEqual)
                } else {
                    Ok(Token::Slash)
                }
            },
            '%' => {
                if self.at_char('=') {
                    self.bump();
                    Ok(Token::PercentEqual)
                } else {
                    Ok(Token::Percent)
                }
            },
            '&' => {
                if self.pos < self.chars.len() && self.pos + 2 < self.chars.len()
                    && self.chars[self.pos] == 'm' && self.chars[self.pos + 1] == 'u'
                    && self.chars[self.pos + 2] == 't' {
                    self.bump();
                    self.bump();
                    self.bump();
                    Ok(Token::MutRef)
                } else if self.at_char('&') {
                    self.bump();
                    Ok(Token::And)
                } else {
                    Ok(Token::Ampersand)
                }
            },
            '|' => {
                if self.at_char('|') {
                    self.bump();
                    Ok(Token::Or)
                } else {
                    Ok(Token::Pipe)
                }
            },
            '^' => {
                if self.at_char('=') {
                    self.bump();
                    Ok(Token::CaretEqual)
                } else {
                    Ok(Token::Caret)
                }
            },
            '!' => {
                if self.at_char('=') {
                    self.bump();
                    Ok(Token::BangEqual)
                } else {
                    Ok(Token::Bang)
                }
            },
            '<' => {
                if self.at_char('=') {
                    self.bump();
                    Ok(Token::LessEqual)
                } else if self.at_char('<') {
                    self.bump();
                    if self.at_char('=') {
                        self.bump();
                        Ok(Token::ShlEqual)
                    } else {
                        Ok(Token::Shl)
                    }
                } else {
                    Ok(Token::Less)
                }
            },
            '>' => {
                if self.at_char('=') {
                    self.bump();
                    Ok(Token::GreaterEqual)
                } else if self.at_char('>') {
                    self.bump();
                    if self.at_char('=') {
                        self.bump();
                        Ok(Token::ShrEqual)
                    } else {
                        Ok(Token::Shr)
                    }
                } else {
                    Ok(Token::Greater)
                }
            },
            '.' => {
                if self.at_char('.') {
                    self.bump();
                    if self.at_char('=') {
                        self.bump();
                        Ok(Token::RangeInclusive)
                    } else {
                        Ok(Token::Range)
                    }
                } else {
                    Ok(Token::Dot)
                }
            },
            ':' => {
                if self.at_char(':') {
                    self.bump();
                    Ok(Token::PathSep)
                } else {
                    Ok(Token::Colon)
                }
            },
            ',' => Ok(Token::Comma),
            ';' => Ok(Token::Semicolon),
            '(' => Ok(Token::LParen),
            ')' => Ok(Token::RParen),
            '{' => Ok(Token::LBrace),
            '}' => Ok(Token::RBrace),
            '[' => Ok(Token::LBracket),
            ']' => Ok(Token::RBracket),
            '?' => Ok(Token::Question),
            '@' => Ok(Token::At),
            '#' => Ok(Token::Hash),
            '$' => Ok(Token::Dollar),
            _ => Err(LexicalError::UnknownCharacter(c)),
        }
    }

    /// Produces the next lexeme, or `None` when only whitespace remains.
    /// Each call scans exactly one lexeme; after an error the lexer resumes
    /// at the next character, so lexing always continues.
    pub fn next_lexeme(&mut self) -> (r: Option<Locatable<Result<Token, LexicalError>>>)
        requires
            old(self).wf(),
        ensures
            final(self).wf(),
            final(self).input() == old(self).input(),
            final(self).file_name() == old(self).file_name(),
            match spec_next_lexeme(old(self).file_name(), old(self).input(), old(self).cursor()) {
                None => r is None && final(self).cursor() == final(self).input().len(),
                Some((item, n)) => r matches Some(l) && lexeme_view(l) == item
                    && final(self).cursor() == n && old(self).cursor() < n,
            },
    {
        let ghost s = self.chars@;
        self.skip_whitespace();
        if self.pos >= self.chars.len() {
            return None;
        }
        let ghost q = self.pos as int;
        let c = self.chars[self.pos];
        proof {
            assert(!is_ws_char(c));
            assert(spec_line(s, q + 1) == spec_line(s, q));
            assert(spec_col(s, q + 1) == spec_col(s, q) + 1);
            lemma_line_col_bounds(s, q);
        }
        let location = Location { line: self.line, column: self.col + 1, file: self.file.clone() };
        let data = if is_digit(c) {
            self.scan_number()
        } else if c == '"' {
            self.scan_string()
        } else if c == '\'' {
            self.scan_char()
        } else if is_ident_start(c) {
            let id = self.scan_identifier();
            proof {
                lemma_ident_end_range(s, q);
                assert(ident_end(s, q) == ident_end(s, q + 1));
                lemma_ident_end_range(s, q + 1);
            }
            match lookup_keyword(&id) {
                Some(k) => Ok(keyword_token(k)),
                None => Ok(Token::Identifier(id)),
            }
        } else {
            self.scan_operator()
        };
        Some(Locatable { location, data })
    }

    /// Lexes the whole remaining input: the returned vector is exactly the
    /// sequence of located tokens and lexical errors that `spec_lex` gives
    /// for the input text.
    #[verifier::loop_isolation(false)]
    pub fn lex_all(&mut self) -> (r: Vec<Locatable<Result<Token, LexicalError>>>)
        requires
            old(self).wf(),
        ensures
            final(self).wf(),
            final(self).input() == old(self).input(),
            final(self).file_name() == old(self).file_name(),
            lexemes_view(r@) == spec_lex(
                old(self).file_name(),
                old(self).input(),
                old(self).cursor(),
            ),
    {
        let ghost s = self.chars@;
        let ghost f = self.file@;
        let ghost p0 = self.pos as int;
        let mut out: Vec<Locatable<Result<Token, LexicalError>>> = Vec::new();
        loop
            invariant
                self.wf(),
                self.chars@ == s,
                self.file@ == f,
                p0 <= self.pos as int <= s.len(),
                spec_lex(f, s, p0) == lexemes_view(out@) + spec_lex(f, s, self.pos as int),
            decreases s.len() - self.pos as int,
        {
            let ghost pos_before = self.pos as int;
            let ghost out_before = out@;
            match self.next_lexeme() {
                None => {
                    proof {
                        assert(spec_lex(f, s, pos_before) =~= Seq::empty());
                        assert(lexemes_view(out@) + Seq::empty() =~= lexemes_view(out@));
                    }
                    return out;
                },
                Some(l) => {
                    out.push(l);
                    proof {
                        assert(lexemes_view(out@) =~= lexemes_view(out_before).push(
                            lexeme_view(l),
                        ));
                        assert(spec_lex(f, s, pos_before) =~= seq![lexeme_view(l)] + spec_lex(
                            f,
                            s,
                            self.pos as int,
                        ));
                        assert(lexemes_view(out_before) + spec_lex(f, s, pos_before)
                            =~= lexemes_view(out@) + spec_lex(f, s, self.pos as int));
                    }
                },
            }
        }
    }
}

/// Extending a subrange by the character at its end appends that character.
proof fn lemma_subrange_push(s: Seq<char>, p0: int, p: int, c: char)
    requires
        0 <= p0 <= p < s.len(),
        c == s[p],
    ensures
        s.subrange(p0, p + 1) == s.subrange(p0, p).push(c),
{
    assert(s.subrange(p0, p + 1) =~= s.subrange(p0, p).push(c));
}

} // verus!
