//! Lexical categories a scanner attaches to recognized tokens.

use vstd::prelude::*;

verus! {

/// The closed set of abstract token categories of the language.
///
/// Keyword roles come in two families: most roles share one category across
/// all locales (`Text`, `If`, `Else`, ...), while some roles carry a
/// locale-specific category identity (English `Moo` versus Spanish `Muuu`
/// for the print role, and likewise for the array, map, else-if, while,
/// for, in, function, return, is, is-not and range roles).
#[derive(Debug, Clone, Copy, PartialEq, Eq, Structural)]
pub enum TokenType {
    // Literals
    StringLiteral,
    NumberLiteral,
    BooleanLiteral,
    // Identifiers
    Identifier,
    // Keywords - English
    Moo,
    Text,
    Num,
    Dec,
    Boolean,
    Coop,
    BarnMap,
    If,
    ElseIf,
    Else,
    While,
    For,
    In,
    Barn,
    Farmfunction,
    Return,
    Is,
    IsNot,
    // Keywords - Spanish
    Muuu,
    Texto,
    Numero,
    Decimal,
    Booleano,
    Granja,
    MapaEstablo,
    Si,
    SinoSi,
    Sino,
    Mientras,
    Para,
    En,
    Granero,
    Funciongranja,
    Regresa,
    Es,
    NoEs,
    // Operators
    Plus,
    Minus,
    Multiply,
    Divide,
    IntegerDivide,
    Modulo,
    LessThan,
    GreaterThan,
    Increment,
    Decrement,
    // Punctuation
    LeftParen,
    RightParen,
    LeftBrace,
    RightBrace,
    LeftBracket,
    RightBracket,
    Comma,
    Dot,
    Colon,
    Semicolon,
    Quote,
    Equals,
    // Special
    Newline,
    EOF,
    Comment,
}

/// One scanned token: its category, surface text and source position.
pub struct Token {
    pub token_type: TokenType,
    pub lexeme: String,
    pub line: usize,
    pub column: usize,
}

} // verus!
