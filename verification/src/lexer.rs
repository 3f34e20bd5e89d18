//! The lexical scanner: turns a byte buffer into a stream of tokens, one
//! token per call, following maximal-munch matching.
//!
//! The model of the scanner is `lex_step`: a function from the buffer, a
//! cursor and a line counter to the token produced, the new cursor and the
//! new line counter. `Lexer::get_next_token` is proved to return exactly
//! what `lex_step` says, so every property of the token stream can be read
//! off the specification.

use vstd::prelude::*;

use crate::token::{LexError, Token, TokenSpec};

verus! {

/// ASCII whitespace: space, tab, line feed, form feed, carriage return.
pub open spec fn is_ws_byte(b: u8) -> bool {
    b == 32 || b == 9 || b == 10 || b == 12 || b == 13
}

/// ASCII decimal digit.
pub open spec fn is_digit_byte(b: u8) -> bool {
    48 <= b <= 57
}

/// ASCII letter.
pub open spec fn is_alpha_byte(b: u8) -> bool {
    (65 <= b <= 90) || (97 <= b <= 122)
}

/// ASCII letter or digit: the bytes an identifier may continue with.
pub open spec fn is_alnum_byte(b: u8) -> bool {
    is_alpha_byte(b) || is_digit_byte(b)
}

/// The line counter grows by one per newline and saturates at `u32::MAX`,
/// so it always fits the counter field.
pub open spec fn sat_inc(line: nat) -> nat {
    if line < 0xffff_ffff {
        line + 1
    } else {
        line
    }
}

/// The characters of a byte sequence, one character per byte.
pub open spec fn chars_of(s: Seq<u8>) -> Seq<char> {
    Seq::new(s.len(), |i: int| s[i] as char)
}

/// The value of a sequence of ASCII digits, most significant first.
pub open spec fn digits_value(s: Seq<u8>) -> nat
    decreases s.len(),
{
    if s.len() == 0 {
        0
    } else {
        (digits_value(s.drop_last()) * 10 + (s.last() - 48)) as nat
    }
}

/// The first position at or after `i` that does not continue an
/// identifier, i.e. the end of the maximal alphanumeric run starting at `i`.
pub open spec fn alnum_end(prog: Seq<u8>, i: nat) -> nat
    decreases prog.len() - i,
{
    if i < prog.len() && is_alnum_byte(prog[i as int]) {
        alnum_end(prog, i + 1)
    } else {
        i
    }
}

/// The end of the maximal digit run starting at `i`.
pub open spec fn digit_end(prog: Seq<u8>, i: nat) -> nat
    decreases prog.len() - i,
{
    if i < prog.len() && is_digit_byte(prog[i as int]) {
        digit_end(prog, i + 1)
    } else {
        i
    }
}

/// The position of the first newline at or after `i`, or the end of the
/// buffer if there is none.
pub open spec fn line_end(prog: Seq<u8>, i: nat) -> nat
    decreases prog.len() - i,
{
    if i < prog.len() && prog[i as int] != 10 {
        line_end(prog, i + 1)
    } else {
        i
    }
}

/// The position of the first double quote at or after `i`, or the end of
/// the buffer if there is none.
pub open spec fn quote_end(prog: Seq<u8>, i: nat) -> nat
    decreases prog.len() - i,
{
    if i < prog.len() && prog[i as int] != 34 {
        quote_end(prog, i + 1)
    } else {
        i
    }
}

/// The token for a scanned word: one of the fixed keywords, or an
/// identifier carrying the word itself.
pub open spec fn keyword_token(s: Seq<char>) -> TokenSpec {
    if s == "fn"@ {
        TokenSpec::Definition
    } else if s == "while"@ {
        TokenSpec::While
    } else if s == "if"@ {
        TokenSpec::If
    } else if s == "return"@ {
        TokenSpec::Return
    } else if s == "true"@ {
        TokenSpec::True
    } else if s == "false"@ {
        TokenSpec::False
    } else if s == "print"@ {
        TokenSpec::Print
    } else if s == "break"@ {
        TokenSpec::Break
    } else if s == "u8"@ {
        TokenSpec::U8
    } else if s == "u16"@ {
        TokenSpec::U16
    } else if s == "u32"@ {
        TokenSpec::U32
    } else if s == "i8"@ {
        TokenSpec::I8
    } else if s == "i16"@ {
        TokenSpec::I16
    } else if s == "i32"@ {
        TokenSpec::I32
    } else if s == "str"@ {
        TokenSpec::Str
    } else if s == "void"@ {
        TokenSpec::Void
    } else if s == "let"@ {
        TokenSpec::Declaration
    } else if s == "mut"@ {
        TokenSpec::Mut
    } else if s == "char"@ {
        TokenSpec::Char
    } else if s == "bool"@ {
        TokenSpec::Bool
    } else {
        TokenSpec::Identifier(s)
    }
}

/// What one call of the scanner produces: the token or lexical error, and
/// the cursor and line counter after the call.
pub struct LexOut {
    pub tok: Result<TokenSpec, LexError>,
    pub pos: nat,
    pub line: nat,
}

/// The token starting at `pos`, which holds a byte that is neither
/// whitespace nor beyond the end of the buffer.
pub open spec fn lex_dispatch(prog: Seq<u8>, pos: nat, line: nat) -> LexOut
    recommends
        pos < prog.len(),
{
    let b = prog[pos as int];
    let two = pos + 1 < prog.len();
    if b == 43 {  // '+'
        if two && prog[(pos + 1) as int] == 61 {
            LexOut { tok: Ok(TokenSpec::PlusAssign), pos: pos + 2, line }
        } else {
            LexOut { tok: Ok(TokenSpec::Plus), pos: pos + 1, line }
        }
    } else if b == 45 {  // '-'
        if two && prog[(pos + 1) as int] == 62 {
            LexOut { tok: Ok(TokenSpec::Arrow), pos: pos + 2, line }
        } else if two && prog[(pos + 1) as int] == 61 {
            LexOut { tok: Ok(TokenSpec::MinusAssign), pos: pos + 2, line }
        } else {
            LexOut { tok: Ok(TokenSpec::Minus), pos: pos + 1, line }
        }
    } else if b == 42 {  // '*'
        if two && prog[(pos + 1) as int] == 61 {
            LexOut { tok: Ok(TokenSpec::MultAssign), pos: pos + 2, line }
        } else {
            LexOut { tok: Ok(TokenSpec::Mult), pos: pos + 1, line }
        }
    } else if b == 47 {  // '/'
        if two && prog[(pos + 1) as int] == 47 {
            let ce = line_end(prog, pos + 2);
            LexOut {
                tok: Ok(TokenSpec::Comment(chars_of(prog.subrange((pos + 2) as int, ce as int)))),
                pos: if ce < prog.len() { ce + 1 } else { ce },
                line,
            }
        } else if two && prog[(pos + 1) as int] == 61 {
            LexOut { tok: Ok(TokenSpec::DivideAssign), pos: pos + 2, line }
        } else {
            LexOut { tok: Ok(TokenSpec::Divide), pos: pos + 1, line }
        }
    } else if b == 38 {  // '&'
        if two && prog[(pos + 1) as int] == 38 {
            LexOut { tok: Ok(TokenSpec::AndBool), pos: pos + 2, line }
        } else if two && prog[(pos + 1) as int] == 61 {
            LexOut { tok: Ok(TokenSpec::AndIntAssign), pos: pos + 2, line }
        } else {
            LexOut { tok: Ok(TokenSpec::AndInt), pos: pos + 1, line }
        }
    } else if b == 124 {  // '|'
        if two && prog[(pos + 1) as int] == 124 {
            LexOut { tok: Ok(TokenSpec::OrBool), pos: pos + 2, line }
        } else if two && prog[(pos + 1) as int] == 61 {
            LexOut { tok: Ok(TokenSpec::OrIntAssign), pos: pos + 2, line }
        } else {
            LexOut { tok: Ok(TokenSpec::OrInt), pos: pos + 1, line }
        }
    } else if b == 94 {  // '^'
        if two && prog[(pos + 1) as int] == 94 {
            LexOut { tok: Ok(TokenSpec::XorBool), pos: pos + 2, line }
        } else if two && prog[(pos + 1) as int] == 61 {
            LexOut { tok: Ok(TokenSpec::XorIntAssign), pos: pos + 2, line }
        } else {
            LexOut { tok: Ok(TokenSpec::XorInt), pos: pos + 1, line }
        }
    } else if b == 61 {  // '='
        if two && prog[(pos + 1) as int] == 61 {
            LexOut { tok: Ok(TokenSpec::Equal), pos: pos + 2, line }
        } else {
            LexOut { tok: Ok(TokenSpec::Assign), pos: pos + 1, line }
        }
    } else if b == 33 {  // '!'
        if two && prog[(pos + 1) as int] == 61 {
            LexOut { tok: Ok(TokenSpec::Unequal), pos: pos + 2, line }
        } else {
            LexOut { tok: Ok(TokenSpec::Not), pos: pos + 1, line }
        }
    } else if b == 62 {  // '>'
        if two && prog[(pos + 1) as int] == 62 {
            LexOut { tok: Ok(TokenSpec::RightShift), pos: pos + 2, line }
        } else {
            LexOut { tok: Ok(TokenSpec::GreaterThan), pos: pos + 1, line }
        }
    } else if b == 60 {  // '<'
        if two && prog[(pos + 1) as int] == 60 {
            LexOut { tok: Ok(TokenSpec::LeftShift), pos: pos + 2, line }
        } else {
            LexOut { tok: Ok(TokenSpec::LessThan), pos: pos + 1, line }
        }
    } else if b == 44 {  // ','
        LexOut { tok: Ok(TokenSpec::Comma), pos: pos + 1, line }
    } else if b == 59 {  // ';'
        LexOut { tok: Ok(TokenSpec::SemiColon), pos: pos + 1, line }
    } else if b == 58 {  // ':'
        LexOut { tok: Ok(TokenSpec::Colon), pos: pos + 1, line }
    } else if b == 91 {  // '['
        LexOut { tok: Ok(TokenSpec::LeftBracket), pos: pos + 1, line }
    } else if b == 93 {  // ']'
        LexOut { tok: Ok(TokenSpec::RightBracket), pos: pos + 1, line }
    } else if b == 40 {  // '('
        LexOut { tok: Ok(TokenSpec::LeftParen), pos: pos + 1, line }
    } else if b == 41 {  // ')'
        LexOut { tok: Ok(TokenSpec::RightParen), pos: pos + 1, line }
    } else if b == 123 {  // '{'
        LexOut { tok: Ok(TokenSpec::LeftBrace), pos: pos + 1, line }
    } else if b == 125 {  // '}'
        LexOut { tok: Ok(TokenSpec::RightBrace), pos: pos + 1, line }
    } else if b == 34 {  // '"'
        let se = quote_end(prog, pos + 1);
        if se >= prog.len() {
            LexOut {
                tok: Err(LexError::UnterminatedStringLiteral { line: line as u32 }),
                pos: prog.len(),
                line,
            }
        } else {
            LexOut {
                tok: Ok(TokenSpec::StringLiteral(chars_of(prog.subrange((pos + 1) as int, se as int)))),
                pos: se + 1,
                line,
            }
        }
    } else if is_alpha_byte(b) {
        let ae = alnum_end(prog, pos + 1);
        LexOut {
            tok: Ok(keyword_token(chars_of(prog.subrange(pos as int, ae as int)))),
            pos: ae,
            line,
        }
    } else if is_digit_byte(b) {
        let de = digit_end(prog, pos + 1);
        let v = digits_value(prog.subrange(pos as int, de as int));
        if v <= 0x7fff_ffff {
            LexOut { tok: Ok(TokenSpec::Number(v as i32)), pos: de, line }
        } else {
            LexOut { tok: Err(LexError::NumberOverflow { line: line as u32 }), pos: de, line }
        }
    } else if b >= 128 {
        LexOut { tok: Err(LexError::InvalidByte { byte: b, line: line as u32 }), pos: pos + 1, line }
    } else {
        LexOut { tok: Ok(TokenSpec::Unknown), pos: pos + 1, line }
    }
}

/// One step of the scanner: skip whitespace, counting newlines, then emit
/// the token at the cursor; at or past the end of the buffer, emit `EOF`
/// and leave the state unchanged, so `EOF` repeats forever.
pub open spec fn lex_step(prog: Seq<u8>, pos: nat, line: nat) -> LexOut
    decreases prog.len() - pos,
{
    if pos >= prog.len() {
        LexOut { tok: Ok(TokenSpec::EOF), pos: pos, line }
    } else if is_ws_byte(prog[pos as int]) {
        lex_step(prog, pos + 1, if prog[pos as int] == 10 { sat_inc(line) } else { line })
    } else {
        lex_dispatch(prog, pos, line)
    }
}

/// The scanner state after one step never moves the cursor backwards, never
/// moves it past the end of the buffer it started within, and moves it
/// strictly forward whenever anything other than `EOF` comes out.
pub proof fn lemma_lex_step_bounds(prog: Seq<u8>, pos: nat, line: nat)
    ensures
        lex_step(prog, pos, line).pos >= pos,
        pos <= prog.len() ==> lex_step(prog, pos, line).pos <= prog.len(),
        lex_step(prog, pos, line).tok != Ok::<TokenSpec, LexError>(TokenSpec::EOF)
            ==> lex_step(prog, pos, line).pos > pos,
        lex_step(prog, pos, line).line >= line,
    decreases prog.len() - pos,
{
    if pos >= prog.len() {
    } else if is_ws_byte(prog[pos as int]) {
        lemma_lex_step_bounds(
            prog,
            pos + 1,
            if prog[pos as int] == 10 {
                sat_inc(line)
            } else {
                line
            },
        );
    } else {
        lemma_helper_bounds(prog, pos + 1);
    }
}

/// The run-end helpers stay within the buffer and never move backwards.
proof fn lemma_helper_bounds(prog: Seq<u8>, i: nat)
    ensures
        i <= alnum_end(prog, i) && (i <= prog.len() ==> alnum_end(prog, i) <= prog.len()),
        i <= digit_end(prog, i) && (i <= prog.len() ==> digit_end(prog, i) <= prog.len()),
        i <= line_end(prog, i) && (i <= prog.len() ==> line_end(prog, i) <= prog.len()),
        i <= quote_end(prog, i) && (i <= prog.len() ==> quote_end(prog, i) <= prog.len()),
    decreases prog.len() - i,
{
    if i < prog.len() {
        lemma_helper_bounds(prog, i + 1);
    }
}

/// `EOF` is a stable terminal value: once the scanner emits it, every
/// later call emits it again and leaves the state unchanged.
pub proof fn lemma_eof_stable(prog: Seq<u8>, pos: nat, line: nat)
    ensures
        lex_step(prog, pos, line).tok == Ok::<TokenSpec, LexError>(TokenSpec::EOF) ==> ({
            let o = lex_step(prog, pos, line);
            lex_step(prog, o.pos, o.line) == o
        }),
    decreases prog.len() - pos,
{
    if pos >= prog.len() {
    } else if is_ws_byte(prog[pos as int]) {
        lemma_eof_stable(
            prog,
            pos + 1,
            if prog[pos as int] == 10 {
                sat_inc(line)
            } else {
                line
            },
        );
    } else {
        assert(lex_dispatch(prog, pos, line).tok != Ok::<TokenSpec, LexError>(TokenSpec::EOF));
    }
}

/// An integer literal lexes to a `Number` token holding exactly its
/// value whenever that value fits a signed 32-bit integer, and to a
/// `NumberOverflow` error otherwise; either way the whole maximal digit
/// run is consumed.
pub proof fn lemma_number_literal(prog: Seq<u8>, pos: nat, line: nat)
    requires
        pos < prog.len(),
        is_digit_byte(prog[pos as int]),
    ensures
        ({
            let de = digit_end(prog, pos + 1);
            let v = digits_value(prog.subrange(pos as int, de as int));
            &&& v <= 0x7fff_ffff ==> lex_step(prog, pos, line).tok == Ok::<TokenSpec, LexError>(
                TokenSpec::Number(v as i32),
            )
            &&& v > 0x7fff_ffff ==> lex_step(prog, pos, line).tok == Err::<TokenSpec, LexError>(
                LexError::NumberOverflow { line: line as u32 },
            )
            &&& lex_step(prog, pos, line).pos == de
        }),
{
    assert(!is_ws_byte(prog[pos as int]));
}

/// The token or error a lexer call hands back, abstracted to the model.
pub open spec fn token_result_view(r: Result<Token, LexError>) -> Result<TokenSpec, LexError> {
    match r {
        Ok(t) => Ok(t@),
        Err(e) => Err(e),
    }
}

/// The mathematical state of a `Lexer`: the buffer, the cursor, and the
/// line counter.
pub struct LexerModel {
    pub program: Seq<u8>,
    pub pos: nat,
    pub line: nat,
}

/// The scanner. It owns the byte buffer and a cursor; each call of
/// `get_next_token` consumes the bytes of one token.
pub struct Lexer {
    program: Vec<u8>,
    pos: usize,
    line: u32,
}

impl View for Lexer {
    type V = LexerModel;

    closed spec fn view(&self) -> LexerModel {
        LexerModel { program: self.program@, pos: self.pos as nat, line: self.line as nat }
    }
}

/// Relies on `String::push`: appends exactly the given character.
#[verifier::external_body]
fn push_char(s: &mut String, c: char)
    ensures
        final(s)@ == old(s)@.push(c),
{
    s.push(c);
}

fn is_ws(b: u8) -> (r: bool)
    ensures
        r == is_ws_byte(b),
{
    b == 32 || b == 9 || b == 10 || b == 12 || b == 13
}

fn is_digit(b: u8) -> (r: bool)
    ensures
        r == is_digit_byte(b),
{
    48 <= b && b <= 57
}

fn is_alpha(b: u8) -> (r: bool)
    ensures
        r == is_alpha_byte(b),
{
    (65 <= b && b <= 90) || (97 <= b && b <= 122)
}

fn is_alnum(b: u8) -> (r: bool)
    ensures
        r == is_alnum_byte(b),
{
    is_alpha(b) || is_digit(b)
}

/// The keyword table: a scanned word is looked up here before it falls
/// back to a generic identifier.
fn keyword_lookup(s: String) -> (t: Token)
    ensures
        t@ == keyword_token(s@),
{
    if s == String::from_str("fn") {
        Token::Definition
    } else if s == String::from_str("while") {
        Token::While
    } else if s == String::from_str("if") {
        Token::If
    } else if s == String::from_str("return") {
        Token::Return
    } else if s == String::from_str("true") {
        Token::True
    } else if s == String::from_str("false") {
        Token::False
    } else if s == String::from_str("print") {
        Token::Print
    } else if s == String::from_str("break") {
        Token::Break
    } else if s == String::from_str("u8") {
        Token::U8
    } else if s == String::from_str("u16") {
        Token::U16
    } else if s == String::from_str("u32") {
        Token::U32
    } else if s == String::from_str("i8") {
        Token::I8
    } else if s == String::from_str("i16") {
        Token::I16
    } else if s == String::from_str("i32") {
        Token::I32
    } else if s == String::from_str("str") {
        Token::Str
    } else if s == String::from_str("void") {
        Token::Void
    } else if s == String::from_str("let") {
        Token::Declaration
    } else if s == String::from_str("mut") {
        Token::Mut
    } else if s == String::from_str("char") {
        Token::Char
    } else if s == String::from_str("bool") {
        Token::Bool
    } else {
        Token::Identifier(s)
    }
}

impl Lexer {
    /// A fresh scanner over the given buffer, with the cursor at the first
    /// byte and the line counter at one.
    pub fn new(program: Vec<u8>) -> (l: Lexer)
        ensures
            l@.program == program@,
            l@.pos == 0,
            l@.line == 1,
    {
        Lexer { program, pos: 0, line: 1 }
    }

    /// The line the cursor stands on, for diagnostics.
    pub fn current_line(&self) -> (r: u32)
        ensures
            r as nat == self@.line,
    {
        self.line
    }

    /// Collects the characters of the bytes in `[from, to)` into a string.
    fn collect_chars(&self, from: usize, to: usize) -> (s: String)
        requires
            from <= to <= self@.program.len(),
        ensures
            s@ == chars_of(self@.program.subrange(from as int, to as int)),
    {
        let mut s = String::new();
        let mut j = from;
        while j < to
            invariant
                from <= j <= to <= self@.program.len(),
                s@ == chars_of(self@.program.subrange(from as int, j as int)),
            decreases to - j,
        {
            let c = self.program[j];
            push_char(&mut s, c as char);
            j += 1;
            proof {
                assert(s@ =~= chars_of(self@.program.subrange(from as int, j as int)));
            }
        }
        s
    }

    /// Produces the next token and advances the cursor, exactly as
    /// `lex_step` describes. Once the input is exhausted it returns `EOF`
    /// forever. Lexing never gives up: an unrecognized ASCII byte comes
    /// back as an `Unknown` token and only a byte outside ASCII, an
    /// integer literal beyond the signed 32-bit range, or a string literal
    /// without its closing quote are reported as errors.
    pub fn get_next_token(&mut self) -> (r: Result<Token, LexError>)
        ensures
            ({
                let out = lex_step(old(self)@.program, old(self)@.pos, old(self)@.line);
                &&& final(self)@.program == old(self)@.program
                &&& final(self)@.pos == out.pos
                &&& final(self)@.line == out.line
                &&& token_result_view(r) == out.tok
            }),
    {
        let ghost prog = self@.program;
        let ghost pos0 = self@.pos;
        let ghost line0 = self@.line;
        let n = self.program.len();

        if self.pos >= n {
            return Ok(Token::EOF);
        }

        while self.pos < n && is_ws(self.program[self.pos])
            invariant
                self@.program == prog,
                n == prog.len(),
                self@.pos <= n,
                lex_step(prog, self@.pos, self@.line) == lex_step(prog, pos0, line0),
            decreases n - self@.pos,
        {
            if self.program[self.pos] == 10 {
                if self.line < 0xffff_ffff {
                    self.line = self.line + 1;
                }
            }
            self.pos = self.pos + 1;
        }

        if self.pos >= n {
            return Ok(Token::EOF);
        }

        let ghost p = self@.pos;
        let ghost l = self@.line;
        proof {
            assert(lex_step(prog, pos0, line0) == lex_dispatch(prog, p, l));
        }

        let b = self.program[self.pos];
        if b == 43 {
            // '+'
            if self.pos + 1 < n && self.program[self.pos + 1] == 61 {
                self.pos = self.pos + 2;
                Ok(Token::PlusAssign)
            } else {
                self.pos = self.pos + 1;
                Ok(Token::Plus)
            }
        } else if b == 45 {
            // '-'
            if self.pos + 1 < n && self.program[self.pos + 1] == 62 {
                self.pos = self.pos + 2;
                Ok(Token::Arrow)
            } else if self.pos + 1 < n && self.program[self.pos + 1] == 61 {
                self.pos = self.pos + 2;
                Ok(Token::MinusAssign)
            } else {
                self.pos = self.pos + 1;
                Ok(Token::Minus)
            }
        } else if b == 42 {
            // '*'
            if self.pos + 1 < n && self.program[self.pos + 1] == 61 {
                self.pos = self.pos + 2;
                Ok(Token::MultAssign)
            } else {
                self.pos = self.pos + 1;
                Ok(Token::Mult)
            }
        } else if b == 47 {
            // '/'
            if self.pos + 1 < n && self.program[self.pos + 1] == 47 {
                let start = self.pos + 2;
                let mut i = start;
                while i < n && self.program[i] != 10
                    invariant
                        self@.program == prog,
                        n == prog.len(),
                        start <= i <= n,
                        line_end(prog, start as nat) == line_end(prog, i as nat),
                    decreases n - i,
                {
                    i += 1;
                }
                let s = self.collect_chars(start, i);
                self.pos = if i < n {
                    i + 1
                } else {
                    i
                };
                Ok(Token::Comment(s))
            } else if self.pos + 1 < n && self.program[self.pos + 1] == 61 {
                self.pos = self.pos + 2;
                Ok(Token::DivideAssign)
            } else {
                self.pos = self.pos + 1;
                Ok(Token::Divide)
            }
        } else if b == 38 {
            // '&'
            if self.pos + 1 < n && self.program[self.pos + 1] == 38 {
                self.pos = self.pos + 2;
                Ok(Token::AndBool)
            } else if self.pos + 1 < n && self.program[self.pos + 1] == 61 {
                self.pos = self.pos + 2;
                Ok(Token::AndIntAssign)
            } else {
                self.pos = self.pos + 1;
                Ok(Token::AndInt)
            }
        } else if b == 124 {
            // '|'
            if self.pos + 1 < n && self.program[self.pos + 1] == 124 {
                self.pos = self.pos + 2;
                Ok(Token::OrBool)
            } else if self.pos + 1 < n && self.program[self.pos + 1] == 61 {
                self.pos = self.pos + 2;
                Ok(Token::OrIntAssign)
            } else {
                self.pos = self.pos + 1;
                Ok(Token::OrInt)
            }
        } else if b == 94 {
            // '^'
            if self.pos + 1 < n && self.program[self.pos + 1] == 94 {
                self.pos = self.pos + 2;
                Ok(Token::XorBool)
            } else if self.pos + 1 < n && self.program[self.pos + 1] == 61 {
                self.pos = self.pos + 2;
                Ok(Token::XorIntAssign)
            } else {
                self.pos = self.pos + 1;
                Ok(Token::XorInt)
            }
        } else if b == 61 {
            // '='
            if self.pos + 1 < n && self.program[self.pos + 1] == 61 {
                self.pos = self.pos + 2;
                Ok(Token::Equal)
            } else {
                self.pos = self.pos + 1;
                Ok(Token::Assign)
            }
        } else if b == 33 {
            // '!'
            if self.pos + 1 < n && self.program[self.pos + 1] == 61 {
                self.pos = self.pos + 2;
                Ok(Token::Unequal)
            } else {
                self.pos = self.pos + 1;
                Ok(Token::Not)
            }
        } else if b == 62 {
            // '>'
            if self.pos + 1 < n && self.program[self.pos + 1] == 62 {
                self.pos = self.pos + 2;
                Ok(Token::RightShift)
            } else {
                self.pos = self.pos + 1;
                Ok(Token::GreaterThan)
            }
        } else if b == 60 {
            // '<'
            if self.pos + 1 < n && self.program[self.pos + 1] == 60 {
                self.pos = self.pos + 2;
                Ok(Token::LeftShift)
            } else {
                self.pos = self.pos + 1;
                Ok(Token::LessThan)
            }
        } else if b == 44 {
            self.pos = self.pos + 1;
            Ok(Token::Comma)
        } else if b == 59 {
            self.pos = self.pos + 1;
            Ok(Token::SemiColon)
        } else if b == 58 {
            self.pos = self.pos + 1;
            Ok(Token::Colon)
        } else if b == 91 {
            self.pos = self.pos + 1;
            Ok(Token::LeftBracket)
        } else if b == 93 {
            self.pos = self.pos + 1;
            Ok(Token::RightBracket)
        } else if b == 40 {
            self.pos = self.pos + 1;
            Ok(Token::LeftParen)
        } else if b == 41 {
            self.pos = self.pos + 1;
            Ok(Token::RightParen)
        } else if b == 123 {
            self.pos = self.pos + 1;
            Ok(Token::LeftBrace)
        } else if b == 125 {
            self.pos = self.pos + 1;
            Ok(Token::RightBrace)
        } else if b == 34 {
            // '"'
            let start = self.pos + 1;
            let mut i = start;
            while i < n && self.program[i] != 34
                invariant
                    self@.program == prog,
                    n == prog.len(),
                    start <= i <= n,
                    quote_end(prog, start as nat) == quote_end(prog, i as nat),
                decreases n - i,
            {
                i += 1;
            }
            if i >= n {
                self.pos = n;
                Err(LexError::UnterminatedStringLiteral { line: self.line })
            } else {
                let s = self.collect_chars(start, i);
                self.pos = i + 1;
                Ok(Token::StringLiteral(s))
            }
        } else if is_alpha(b) {
            let start = self.pos;
            let mut i = start + 1;
            while i < n && is_alnum(self.program[i])
                invariant
                    self@.program == prog,
                    n == prog.len(),
                    start + 1 <= i <= n,
                    alnum_end(prog, (start + 1) as nat) == alnum_end(prog, i as nat),
                decreases n - i,
            {
                i += 1;
            }
            let s = self.collect_chars(start, i);
            self.pos = i;
            Ok(keyword_lookup(s))
        } else if is_digit(b) {
            let start = self.pos;
            let mut i = start + 1;
            while i < n && is_digit(self.program[i])
                invariant
                    self@.program == prog,
                    n == prog.len(),
                    start + 1 <= i <= n,
                    digit_end(prog, (start + 1) as nat) == digit_end(prog, i as nat),
                    forall|k: int| start + 1 <= k < i ==> is_digit_byte(prog[k]),
                decreases n - i,
            {
                i += 1;
            }
            let mut acc: u64 = (b - 48) as u64;
            proof {
                assert(prog.subrange(start as int, start + 1).drop_last() =~= Seq::<u8>::empty());
                assert(digits_value(Seq::<u8>::empty()) == 0);
                assert(prog.subrange(start as int, start + 1).last() == b);
                assert(digits_value(prog.subrange(start as int, start + 1)) == b - 48);
            }
            let mut j = start + 1;
            while j < i
                invariant
                    self@.program == prog,
                    n == prog.len(),
                    start + 1 <= j <= i <= n,
                    start < n,
                    forall|k: int| start + 1 <= k < i ==> is_digit_byte(prog[k]),
                    acc <= 0x9_ffff_ffff,
                    digits_value(prog.subrange(start as int, j as int)) <= 0xffff_ffff ==> acc
                        == digits_value(prog.subrange(start as int, j as int)),
                    digits_value(prog.subrange(start as int, j as int)) > 0xffff_ffff ==> acc
                        > 0xffff_ffff,
                decreases i - j,
            {
                let d = self.program[j] - 48;
                proof {
                    assert(prog.subrange(start as int, (j + 1) as int).drop_last() =~= prog
                        .subrange(start as int, j as int));
                }
                if acc <= 0xffff_ffff {
                    acc = acc * 10 + d as u64;
                }
                j += 1;
            }
            self.pos = i;
            if acc <= 0x7fff_ffff {
                Ok(Token::Number(acc as i32))
            } else {
                Err(LexError::NumberOverflow { line: self.line })
            }
        } else if b >= 128 {
            self.pos = self.pos + 1;
            Err(LexError::InvalidByte { byte: b, line: self.line })
        } else {
            self.pos = self.pos + 1;
            Ok(Token::Unknown)
        }
    }
}

} // verus!
