use mylang::lexer::Lexer;
use mylang::token::{LexError, Token};

#[test]
fn test_lexer_simple_program() {
    let program = "fn main() { return 0 }";
    let mut lexer = Lexer::new(program.to_string().into_bytes());
    assert_eq!(lexer.get_next_token(), Ok(Token::Definition));
    assert_eq!(lexer.get_next_token(), Ok(Token::Identifier("main".to_string())));
    assert_eq!(lexer.get_next_token(), Ok(Token::LeftParen));
    assert_eq!(lexer.get_next_token(), Ok(Token::RightParen));
    assert_eq!(lexer.get_next_token(), Ok(Token::LeftBrace));
    assert_eq!(lexer.get_next_token(), Ok(Token::Return));
    assert_eq!(lexer.get_next_token(), Ok(Token::Number(0)));
    assert_eq!(lexer.get_next_token(), Ok(Token::RightBrace));
    assert_eq!(lexer.get_next_token(), Ok(Token::EOF));
}

#[test]
fn test_lexer_new_lines() {
    let program = "fn main() {\nreturn 0 \n}";
    let mut lexer = Lexer::new(program.to_string().into_bytes());
    assert_eq!(lexer.get_next_token(), Ok(Token::Definition));
    assert_eq!(lexer.get_next_token(), Ok(Token::Identifier("main".to_string())));
    assert_eq!(lexer.get_next_token(), Ok(Token::LeftParen));
    assert_eq!(lexer.get_next_token(), Ok(Token::RightParen));
    assert_eq!(lexer.get_next_token(), Ok(Token::LeftBrace));
    assert_eq!(lexer.get_next_token(), Ok(Token::Return));
    assert_eq!(lexer.get_next_token(), Ok(Token::Number(0)));
    assert_eq!(lexer.get_next_token(), Ok(Token::RightBrace));
    assert_eq!(lexer.get_next_token(), Ok(Token::EOF));
}

#[test]
fn test_lexer_many_spaces() {
    let program = "fn     main    (  )      {\nreturn     0 \n}  ";
    let mut lexer = Lexer::new(program.to_string().into_bytes());
    assert_eq!(lexer.get_next_token(), Ok(Token::Definition));
    assert_eq!(lexer.get_next_token(), Ok(Token::Identifier("main".to_string())));
    assert_eq!(lexer.get_next_token(), Ok(Token::LeftParen));
    assert_eq!(lexer.get_next_token(), Ok(Token::RightParen));
    assert_eq!(lexer.get_next_token(), Ok(Token::LeftBrace));
    assert_eq!(lexer.get_next_token(), Ok(Token::Return));
    assert_eq!(lexer.get_next_token(), Ok(Token::Number(0)));
    assert_eq!(lexer.get_next_token(), Ok(Token::RightBrace));
    assert_eq!(lexer.get_next_token(), Ok(Token::EOF));
}

#[test]
fn test_lexer_operator() {
    let program = "
            +
            -
            *
            /
            +=
            -=
            *=
            /=
            &&
            ||
            ^^
            &
            |
            ^
            ==
            !=
        ";
    let mut lexer = Lexer::new(program.to_string().into_bytes());
    assert_eq!(lexer.get_next_token(), Ok(Token::Plus));
    assert_eq!(lexer.get_next_token(), Ok(Token::Minus));
    assert_eq!(lexer.get_next_token(), Ok(Token::Mult));
    assert_eq!(lexer.get_next_token(), Ok(Token::Divide));
    assert_eq!(lexer.get_next_token(), Ok(Token::PlusAssign));
    assert_eq!(lexer.get_next_token(), Ok(Token::MinusAssign));
    assert_eq!(lexer.get_next_token(), Ok(Token::MultAssign));
    assert_eq!(lexer.get_next_token(), Ok(Token::DivideAssign));
    assert_eq!(lexer.get_next_token(), Ok(Token::AndBool));
    assert_eq!(lexer.get_next_token(), Ok(Token::OrBool));
    assert_eq!(lexer.get_next_token(), Ok(Token::XorBool));
    assert_eq!(lexer.get_next_token(), Ok(Token::AndInt));
    assert_eq!(lexer.get_next_token(), Ok(Token::OrInt));
    assert_eq!(lexer.get_next_token(), Ok(Token::XorInt));
    assert_eq!(lexer.get_next_token(), Ok(Token::Equal));
    assert_eq!(lexer.get_next_token(), Ok(Token::Unequal));
}

#[test]
fn test_comments() {
    let program = " //this is the main function
                        fn main() {
                            return 0;
                        }";
    let mut lexer = Lexer::new(program.to_string().into_bytes());
    assert_eq!(
        lexer.get_next_token(),
        Ok(Token::Comment("this is the main function".to_string()))
    );
    assert_eq!(lexer.get_next_token(), Ok(Token::Definition));
    assert_eq!(lexer.get_next_token(), Ok(Token::Identifier("main".to_string())));
    assert_eq!(lexer.get_next_token(), Ok(Token::LeftParen));
    assert_eq!(lexer.get_next_token(), Ok(Token::RightParen));
    assert_eq!(lexer.get_next_token(), Ok(Token::LeftBrace));
    assert_eq!(lexer.get_next_token(), Ok(Token::Return));
    assert_eq!(lexer.get_next_token(), Ok(Token::Number(0)));
    assert_eq!(lexer.get_next_token(), Ok(Token::SemiColon));
    assert_eq!(lexer.get_next_token(), Ok(Token::RightBrace));
    assert_eq!(lexer.get_next_token(), Ok(Token::EOF));
}

#[test]
fn test_string_literals() {
    let program = " fn main() {
                            return \"this is a string Literal\";
                        }";
    let mut lexer = Lexer::new(program.to_string().into_bytes());
    assert_eq!(lexer.get_next_token(), Ok(Token::Definition));
    assert_eq!(lexer.get_next_token(), Ok(Token::Identifier("main".to_string())));
    assert_eq!(lexer.get_next_token(), Ok(Token::LeftParen));
    assert_eq!(lexer.get_next_token(), Ok(Token::RightParen));
    assert_eq!(lexer.get_next_token(), Ok(Token::LeftBrace));
    assert_eq!(lexer.get_next_token(), Ok(Token::Return));
    assert_eq!(
        lexer.get_next_token(),
        Ok(Token::StringLiteral("this is a string Literal".to_string()))
    );
    assert_eq!(lexer.get_next_token(), Ok(Token::SemiColon));
    assert_eq!(lexer.get_next_token(), Ok(Token::RightBrace));
    assert_eq!(lexer.get_next_token(), Ok(Token::EOF));
}

#[test]
fn number_literal_in_range_has_exact_value() {
    let mut lexer = Lexer::new(b"0 1 42 2147483647".to_vec());
    assert_eq!(lexer.get_next_token(), Ok(Token::Number(0)));
    assert_eq!(lexer.get_next_token(), Ok(Token::Number(1)));
    assert_eq!(lexer.get_next_token(), Ok(Token::Number(42)));
    assert_eq!(lexer.get_next_token(), Ok(Token::Number(2147483647)));
    assert_eq!(lexer.get_next_token(), Ok(Token::EOF));
}

#[test]
fn number_literal_out_of_range_overflows() {
    let mut lexer = Lexer::new(b"2147483648".to_vec());
    assert_eq!(lexer.get_next_token(), Err(LexError::NumberOverflow { line: 1 }));
    assert_eq!(lexer.get_next_token(), Ok(Token::EOF));

    let mut lexer = Lexer::new(b"99999999999999999999 7".to_vec());
    assert_eq!(lexer.get_next_token(), Err(LexError::NumberOverflow { line: 1 }));
    assert_eq!(lexer.get_next_token(), Ok(Token::Number(7)));
}

#[test]
fn unterminated_string_literal_fails() {
    let mut lexer = Lexer::new(b"\"no closing quote".to_vec());
    assert_eq!(
        lexer.get_next_token(),
        Err(LexError::UnterminatedStringLiteral { line: 1 })
    );
    assert_eq!(lexer.get_next_token(), Ok(Token::EOF));
}

#[test]
fn byte_outside_ascii_is_invalid() {
    let mut lexer = Lexer::new(vec![b'f', b'n', b' ', 0xff]);
    assert_eq!(lexer.get_next_token(), Ok(Token::Definition));
    assert_eq!(lexer.get_next_token(), Err(LexError::InvalidByte { byte: 0xff, line: 1 }));
    assert_eq!(lexer.get_next_token(), Ok(Token::EOF));
}

#[test]
fn unknown_ascii_byte_is_a_token_not_an_error() {
    let mut lexer = Lexer::new(b"a @ b".to_vec());
    assert_eq!(lexer.get_next_token(), Ok(Token::Identifier("a".to_string())));
    assert_eq!(lexer.get_next_token(), Ok(Token::Unknown));
    assert_eq!(lexer.get_next_token(), Ok(Token::Identifier("b".to_string())));
}

#[test]
fn empty_input_is_eof_forever() {
    let mut lexer = Lexer::new(Vec::new());
    assert_eq!(lexer.get_next_token(), Ok(Token::EOF));
    assert_eq!(lexer.get_next_token(), Ok(Token::EOF));
    assert_eq!(lexer.current_line(), 1);
}

#[test]
fn comment_at_end_without_newline() {
    let mut lexer = Lexer::new(b"x //tail".to_vec());
    assert_eq!(lexer.get_next_token(), Ok(Token::Identifier("x".to_string())));
    assert_eq!(lexer.get_next_token(), Ok(Token::Comment("tail".to_string())));
    assert_eq!(lexer.get_next_token(), Ok(Token::EOF));
}

#[test]
fn maximal_munch_prefers_long_operators() {
    let mut lexer = Lexer::new(b"->->> <<< ===".to_vec());
    assert_eq!(lexer.get_next_token(), Ok(Token::Arrow));
    assert_eq!(lexer.get_next_token(), Ok(Token::Arrow));
    assert_eq!(lexer.get_next_token(), Ok(Token::GreaterThan));
    assert_eq!(lexer.get_next_token(), Ok(Token::LeftShift));
    assert_eq!(lexer.get_next_token(), Ok(Token::LessThan));
    assert_eq!(lexer.get_next_token(), Ok(Token::Equal));
    assert_eq!(lexer.get_next_token(), Ok(Token::Assign));
    assert_eq!(lexer.get_next_token(), Ok(Token::EOF));
}

#[test]
fn keywords_and_identifiers_are_distinguished() {
    let mut lexer = Lexer::new(b"let mut if while return true false print break u8 u16 u32 i8 i16 i32 str char bool void lettuce".to_vec());
    assert_eq!(lexer.get_next_token(), Ok(Token::Declaration));
    assert_eq!(lexer.get_next_token(), Ok(Token::Mut));
    assert_eq!(lexer.get_next_token(), Ok(Token::If));
    assert_eq!(lexer.get_next_token(), Ok(Token::While));
    assert_eq!(lexer.get_next_token(), Ok(Token::Return));
    assert_eq!(lexer.get_next_token(), Ok(Token::True));
    assert_eq!(lexer.get_next_token(), Ok(Token::False));
    assert_eq!(lexer.get_next_token(), Ok(Token::Print));
    assert_eq!(lexer.get_next_token(), Ok(Token::Break));
    assert_eq!(lexer.get_next_token(), Ok(Token::U8));
    assert_eq!(lexer.get_next_token(), Ok(Token::U16));
    assert_eq!(lexer.get_next_token(), Ok(Token::U32));
    assert_eq!(lexer.get_next_token(), Ok(Token::I8));
    assert_eq!(lexer.get_next_token(), Ok(Token::I16));
    assert_eq!(lexer.get_next_token(), Ok(Token::I32));
    assert_eq!(lexer.get_next_token(), Ok(Token::Str));
    assert_eq!(lexer.get_next_token(), Ok(Token::Char));
    assert_eq!(lexer.get_next_token(), Ok(Token::Bool));
    assert_eq!(lexer.get_next_token(), Ok(Token::Void));
    assert_eq!(lexer.get_next_token(), Ok(Token::Identifier("lettuce".to_string())));
}

#[test]
fn line_counter_follows_newlines() {
    let mut lexer = Lexer::new(b"a\nb\n\nc".to_vec());
    assert_eq!(lexer.get_next_token(), Ok(Token::Identifier("a".to_string())));
    assert_eq!(lexer.current_line(), 1);
    assert_eq!(lexer.get_next_token(), Ok(Token::Identifier("b".to_string())));
    assert_eq!(lexer.current_line(), 2);
    assert_eq!(lexer.get_next_token(), Ok(Token::Identifier("c".to_string())));
    assert_eq!(lexer.current_line(), 4);
}
