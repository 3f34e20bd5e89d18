//! The lexical vocabulary: tokens produced by the lexer, their mathematical
//! model, and the errors the lexer can report.

use vstd::prelude::*;

verus! {

/// One lexical unit. Most variants carry no payload; `Identifier`, `Number`,
/// `StringLiteral` and `Comment` carry their literal text or value.
#[derive(Debug, PartialEq, Eq)]
pub enum Token {
    // keywords
    Declaration,
    Definition,
    If,
    Return,
    While,
    Print,
    Break,
    Mut,
    // boolean literals
    True,
    False,
    // operators
    AndBool,
    AndInt,
    AndIntAssign,
    Divide,
    DivideAssign,
    Equal,
    Assign,
    GreaterThan,
    LeftShift,
    LessThan,
    Minus,
    MinusAssign,
    Mult,
    MultAssign,
    Not,
    OrBool,
    OrInt,
    OrIntAssign,
    Plus,
    PlusAssign,
    Unequal,
    RightShift,
    XorBool,
    XorInt,
    XorIntAssign,
    // punctuation and payload-carrying tokens
    Arrow,
    Comma,
    Comment(String),
    Colon,
    Identifier(String),
    LeftBrace,
    LeftBracket,
    LeftParen,
    Number(i32),
    StringLiteral(String),
    SemiColon,
    RightBrace,
    RightBracket,
    RightParen,
    // primitive type names
    U8,
    U16,
    U32,
    I8,
    I16,
    I32,
    Str,
    Char,
    Void,
    Bool,
    // end of input; once emitted the lexer keeps emitting it
    EOF,
    // an unrecognized ASCII byte; the parser decides fatality
    Unknown,
}

/// The mathematical model of a `Token`: identical variants, with string
/// payloads abstracted to character sequences.
pub enum TokenSpec {
    Declaration,
    Definition,
    If,
    Return,
    While,
    Print,
    Break,
    Mut,
    True,
    False,
    AndBool,
    AndInt,
    AndIntAssign,
    Divide,
    DivideAssign,
    Equal,
    Assign,
    GreaterThan,
    LeftShift,
    LessThan,
    Minus,
    MinusAssign,
    Mult,
    MultAssign,
    Not,
    OrBool,
    OrInt,
    OrIntAssign,
    Plus,
    PlusAssign,
    Unequal,
    RightShift,
    XorBool,
    XorInt,
    XorIntAssign,
    Arrow,
    Comma,
    Comment(Seq<char>),
    Colon,
    Identifier(Seq<char>),
    LeftBrace,
    LeftBracket,
    LeftParen,
    Number(i32),
    StringLiteral(Seq<char>),
    SemiColon,
    RightBrace,
    RightBracket,
    RightParen,
    U8,
    U16,
    U32,
    I8,
    I16,
    I32,
    Str,
    Char,
    Void,
    Bool,
    EOF,
    Unknown,
}

impl View for Token {
    type V = TokenSpec;

    open spec fn view(&self) -> TokenSpec {
        match self {
            Token::Declaration => TokenSpec::Declaration,
            Token::Definition => TokenSpec::Definition,
            Token::If => TokenSpec::If,
            Token::Return => TokenSpec::Return,
            Token::While => TokenSpec::While,
            Token::Print => TokenSpec::Print,
            Token::Break => TokenSpec::Break,
            Token::Mut => TokenSpec::Mut,
            Token::True => TokenSpec::True,
            Token::False => TokenSpec::False,
            Token::AndBool => TokenSpec::AndBool,
            Token::AndInt => TokenSpec::AndInt,
            Token::AndIntAssign => TokenSpec::AndIntAssign,
            Token::Divide => TokenSpec::Divide,
            Token::DivideAssign => TokenSpec::DivideAssign,
            Token::Equal => TokenSpec::Equal,
            Token::Assign => TokenSpec::Assign,
            Token::GreaterThan => TokenSpec::GreaterThan,
            Token::LeftShift => TokenSpec::LeftShift,
            Token::LessThan => TokenSpec::LessThan,
            Token::Minus => TokenSpec::Minus,
            Token::MinusAssign => TokenSpec::MinusAssign,
            Token::Mult => TokenSpec::Mult,
            Token::MultAssign => TokenSpec::MultAssign,
            Token::Not => TokenSpec::Not,
            Token::OrBool => TokenSpec::OrBool,
            Token::OrInt => TokenSpec::OrInt,
            Token::OrIntAssign => TokenSpec::OrIntAssign,
            Token::Plus => TokenSpec::Plus,
            Token::PlusAssign => TokenSpec::PlusAssign,
            Token::Unequal => TokenSpec::Unequal,
            Token::RightShift => TokenSpec::RightShift,
            Token::XorBool => TokenSpec::XorBool,
            Token::XorInt => TokenSpec::XorInt,
            Token::XorIntAssign => TokenSpec::XorIntAssign,
            Token::Arrow => TokenSpec::Arrow,
            Token::Comma => TokenSpec::Comma,
            Token::Comment(s) => TokenSpec::Comment(s@),
            Token::Colon => TokenSpec::Colon,
            Token::Identifier(s) => TokenSpec::Identifier(s@),
            Token::LeftBrace => TokenSpec::LeftBrace,
            Token::LeftBracket => TokenSpec::LeftBracket,
            Token::LeftParen => TokenSpec::LeftParen,
            Token::Number(n) => TokenSpec::Number(*n),
            Token::StringLiteral(s) => TokenSpec::StringLiteral(s@),
            Token::SemiColon => TokenSpec::SemiColon,
            Token::RightBrace => TokenSpec::RightBrace,
            Token::RightBracket => TokenSpec::RightBracket,
            Token::RightParen => TokenSpec::RightParen,
            Token::U8 => TokenSpec::U8,
            Token::U16 => TokenSpec::U16,
            Token::U32 => TokenSpec::U32,
            Token::I8 => TokenSpec::I8,
            Token::I16 => TokenSpec::I16,
            Token::I32 => TokenSpec::I32,
            Token::Str => TokenSpec::Str,
            Token::Char => TokenSpec::Char,
            Token::Void => TokenSpec::Void,
            Token::Bool => TokenSpec::Bool,
            Token::EOF => TokenSpec::EOF,
            Token::Unknown => TokenSpec::Unknown,
        }
    }
}

impl Clone for Token {
    /// The clone is the same token, payload included.
    fn clone(&self) -> (res: Token)
        ensures
            res@ == self@,
    {
        match self {
            Token::Declaration => Token::Declaration,
            Token::Definition => Token::Definition,
            Token::If => Token::If,
            Token::Return => Token::Return,
            Token::While => Token::While,
            Token::Print => Token::Print,
            Token::Break => Token::Break,
            Token::Mut => Token::Mut,
            Token::True => Token::True,
            Token::False => Token::False,
            Token::AndBool => Token::AndBool,
            Token::AndInt => Token::AndInt,
            Token::AndIntAssign => Token::AndIntAssign,
            Token::Divide => Token::Divide,
            Token::DivideAssign => Token::DivideAssign,
            Token::Equal => Token::Equal,
            Token::Assign => Token::Assign,
            Token::GreaterThan => Token::GreaterThan,
            Token::LeftShift => Token::LeftShift,
            Token::LessThan => Token::LessThan,
            Token::Minus => Token::Minus,
            Token::MinusAssign => Token::MinusAssign,
            Token::Mult => Token::Mult,
            Token::MultAssign => Token::MultAssign,
            Token::Not => Token::Not,
            Token::OrBool => Token::OrBool,
            Token::OrInt => Token::OrInt,
            Token::OrIntAssign => Token::OrIntAssign,
            Token::Plus => Token::Plus,
            Token::PlusAssign => Token::PlusAssign,
            Token::Unequal => Token::Unequal,
            Token::RightShift => Token::RightShift,
            Token::XorBool => Token::XorBool,
            Token::XorInt => Token::XorInt,
            Token::XorIntAssign => Token::XorIntAssign,
            Token::Arrow => Token::Arrow,
            Token::Comma => Token::Comma,
            Token::Comment(s) => Token::Comment(s.clone()),
            Token::Colon => Token::Colon,
            Token::Identifier(s) => Token::Identifier(s.clone()),
            Token::LeftBrace => Token::LeftBrace,
            Token::LeftBracket => Token::LeftBracket,
            Token::LeftParen => Token::LeftParen,
            Token::Number(n) => Token::Number(*n),
            Token::StringLiteral(s) => Token::StringLiteral(s.clone()),
            Token::SemiColon => Token::SemiColon,
            Token::RightBrace => Token::RightBrace,
            Token::RightBracket => Token::RightBracket,
            Token::RightParen => Token::RightParen,
            Token::U8 => Token::U8,
            Token::U16 => Token::U16,
            Token::U32 => Token::U32,
            Token::I8 => Token::I8,
            Token::I16 => Token::I16,
            Token::I32 => Token::I32,
            Token::Str => Token::Str,
            Token::Char => Token::Char,
            Token::Void => Token::Void,
            Token::Bool => Token::Bool,
            Token::EOF => Token::EOF,
            Token::Unknown => Token::Unknown,
        }
    }
}

/// An error raised while producing a token.
#[derive(Debug, PartialEq, Eq, Structural, Clone, Copy)]
pub enum LexError {
    /// A byte outside the ASCII range, with the line it was found on.
    InvalidByte { byte: u8, line: u32 },
    /// An integer literal that does not fit a signed 32-bit integer.
    NumberOverflow { line: u32 },
    /// A string literal whose closing quote is missing at end of input.
    UnterminatedStringLiteral { line: u32 },
}

} // verus!
