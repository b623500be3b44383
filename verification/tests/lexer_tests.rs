use sema::parser::lexer::{CharClass, Lexer};
use sema::parser::span::Location;
use sema::parser::token::Token;

fn tokens(input: &str) -> Vec<Token> {
    let mut lexer = Lexer::new(input);
    let mut out = Vec::new();
    loop {
        match lexer.next_filtered() {
            None => return out,
            Some(Ok((_, token, _))) => out.push(token),
            Some(Err(error)) => panic!("{}", error.message()),
        }
    }
}

fn ident(text: &str) -> Token {
    Token::Ident(text.to_string())
}

#[test]
fn empty_input_has_no_token() {
    let mut lexer = Lexer::new("");
    assert!(lexer.peek().is_none());
    assert!(lexer.consume().is_none());
    assert!(lexer.next_token().is_none());
    assert!(lexer.next_filtered().is_none());
}

#[test]
fn punctuation_is_one_token_each() {
    assert_eq!(
        tokens(",;{}()[]=:+-*/%~!&"),
        vec![
            Token::Comma,
            Token::Semi,
            Token::BraceOpen,
            Token::BraceClose,
            Token::ParenOpen,
            Token::ParenClose,
            Token::BracketOpen,
            Token::BracketClose,
            Token::Equals,
            Token::Colon,
            Token::Plus,
            Token::Minus,
            Token::Star,
            Token::Slash,
            Token::Percent,
            Token::Tilde,
            Token::Exclamation,
            Token::Ampersand,
        ]
    );
}

#[test]
fn arrow_is_one_token() {
    assert_eq!(tokens("->"), vec![Token::Arrow]);
    assert_eq!(tokens("-x"), vec![Token::Minus, ident("x")]);
}

#[test]
fn keywords_are_recognised() {
    assert_eq!(
        tokens("if else while func return struct as u8 void"),
        vec![
            Token::If,
            Token::Else,
            Token::While,
            Token::Func,
            Token::Return,
            Token::Struct,
            Token::As,
            Token::U8,
            Token::Void,
        ]
    );
}

#[test]
fn other_words_are_names() {
    assert_eq!(
        tokens("iff _x u80 voids done? If"),
        vec![ident("iff"), ident("_x"), ident("u80"), ident("voids"), ident("done?"), ident("If")]
    );
}

#[test]
fn numbers_are_runs_of_digits() {
    assert_eq!(
        tokens("12 007"),
        vec![Token::Integer("12".to_string()), Token::Integer("007".to_string())]
    );
}

#[test]
fn number_followed_by_letters_splits() {
    assert_eq!(tokens("12ab"), vec![Token::Integer("12".to_string()), ident("ab")]);
}

#[test]
fn comment_runs_to_end_of_line() {
    assert_eq!(tokens("a // b c\nd"), vec![ident("a"), ident("d")]);
    assert_eq!(tokens("// only a comment"), vec![]);
}

#[test]
fn next_token_keeps_whitespace_and_comments() {
    let mut lexer = Lexer::new("  //x\n");
    match lexer.next_token() {
        Some(Ok((start, Token::Whitespace, end))) => {
            assert_eq!(start, Location::at(0, 0));
            assert_eq!(end, Location::at(0, 2));
        }
        _ => panic!("white space was expected"),
    }
    match lexer.next_token() {
        Some(Ok((start, Token::Comment, end))) => {
            assert_eq!(start, Location::at(0, 2));
            assert_eq!(end, Location::at(0, 5));
        }
        _ => panic!("a comment was expected"),
    }
    match lexer.next_token() {
        Some(Ok((start, Token::Whitespace, end))) => {
            assert_eq!(start, Location::at(0, 5));
            assert_eq!(end, Location::at(1, 0));
        }
        _ => panic!("white space was expected"),
    }
    assert!(lexer.next_token().is_none());
}

#[test]
fn locations_follow_lines_and_columns() {
    let mut lexer = Lexer::new("func\n  add");
    match lexer.next_filtered() {
        Some(Ok((start, Token::Func, end))) => {
            assert_eq!(start, Location::at(0, 0));
            assert_eq!(end, Location::at(0, 4));
        }
        _ => panic!("a keyword was expected"),
    }
    match lexer.next_filtered() {
        Some(Ok((start, Token::Ident(name), end))) => {
            assert_eq!(name, "add");
            assert_eq!(start, Location::at(1, 2));
            assert_eq!(end, Location::at(1, 5));
        }
        _ => panic!("a name was expected"),
    }
    assert!(lexer.next_filtered().is_none());
}

#[test]
fn unexpected_character_is_reported_and_not_consumed() {
    let mut lexer = Lexer::new("a #");
    assert!(matches!(lexer.next_filtered(), Some(Ok((_, Token::Ident(_), _)))));
    match lexer.next_filtered() {
        Some(Err(error)) => {
            assert_eq!(error.character(), '#');
            assert_eq!(error.message(), "Unexpected character '#'");
            assert_eq!(error.description(), "Unexpected character");
        }
        _ => panic!("an error was expected"),
    }
    assert_eq!(lexer.peek(), Some('#'));
}

#[test]
fn peek_and_consume_walk_the_input() {
    let mut lexer = Lexer::new("ab");
    assert_eq!(lexer.peek(), Some('a'));
    assert_eq!(lexer.consume(), Some('a'));
    assert_eq!(lexer.peek(), Some('b'));
    assert_eq!(lexer.consume(), Some('b'));
    assert_eq!(lexer.consume(), None);
}

#[test]
fn next_inner_makes_the_token_of_its_character() {
    let mut lexer = Lexer::new("while(");
    match lexer.next_inner('w') {
        Ok(token) => assert_eq!(token, Token::While),
        Err(_) => panic!("a token was expected"),
    }
    match lexer.next_inner('(') {
        Ok(token) => assert_eq!(token, Token::ParenOpen),
        Err(_) => panic!("a token was expected"),
    }
}

#[test]
fn non_ascii_words_are_names() {
    assert_eq!(tokens("größe π"), vec![ident("größe"), ident("π")]);
}

#[test]
fn character_classes() {
    assert!(CharClass::Comment.contains('x'));
    assert!(!CharClass::Comment.contains('\n'));
    assert!(CharClass::Word.contains('a'));
    assert!(CharClass::Word.contains('7'));
    assert!(CharClass::Word.contains('?'));
    assert!(!CharClass::Word.contains('-'));
    assert!(CharClass::Whitespace.contains('\t'));
    assert!(!CharClass::Whitespace.contains('a'));
    assert!(CharClass::Digit.contains('0'));
    assert!(CharClass::Digit.contains('9'));
    assert!(!CharClass::Digit.contains('a'));
}

#[test]
fn token_text() {
    assert_eq!(Token::Arrow.to_text(), "->");
    assert_eq!(Token::BraceOpen.to_text(), "{");
    assert_eq!(Token::Struct.to_text(), "struct");
    assert_eq!(Token::Integer("42".to_string()).to_text(), "42");
    assert_eq!(Token::Ident("x".to_string()).to_text(), "x");
    assert_eq!(Token::Comment.to_text(), "Comment");
    assert_eq!(Token::Whitespace.to_text(), "Whitespace");
}

#[test]
fn small_function_lexes() {
    assert_eq!(
        tokens("func add(u8 a, u8 b) -> u8 { return a + b; }"),
        vec![
            Token::Func,
            ident("add"),
            Token::ParenOpen,
            Token::U8,
            ident("a"),
            Token::Comma,
            Token::U8,
            ident("b"),
            Token::ParenClose,
            Token::Arrow,
            Token::U8,
            Token::BraceOpen,
            Token::Return,
            ident("a"),
            Token::Plus,
            ident("b"),
            Token::Semi,
            Token::BraceClose,
        ]
    );
}
