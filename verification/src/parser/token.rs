//! The tokens of the language.

use vstd::prelude::*;

verus! {

#[derive(Debug, PartialEq, Eq)]
pub enum Token {
    Comma,
    Semi,
    BraceOpen,
    BraceClose,
    ParenOpen,
    ParenClose,
    BracketOpen,
    BracketClose,
    Equals,
    Colon,
    Plus,
    Minus,
    Star,
    Slash,
    Percent,
    Tilde,
    Exclamation,
    Ampersand,
    Arrow,
    If,
    Else,
    While,
    Return,
    Func,
    Struct,
    As,
    U8,
    Void,
    Integer(String),
    Ident(String),
    Comment,
    Whitespace,
}

/// A token as contracts speak of it: the text of a number or a name is a
/// sequence of characters.
pub enum TokenView {
    Comma,
    Semi,
    BraceOpen,
    BraceClose,
    ParenOpen,
    ParenClose,
    BracketOpen,
    BracketClose,
    Equals,
    Colon,
    Plus,
    Minus,
    Star,
    Slash,
    Percent,
    Tilde,
    Exclamation,
    Ampersand,
    Arrow,
    If,
    Else,
    While,
    Return,
    Func,
    Struct,
    As,
    U8,
    Void,
    Integer(Seq<char>),
    Ident(Seq<char>),
    Comment,
    Whitespace,
}

impl Token {
    pub open spec fn view(&self) -> TokenView {
        match *self {
            Token::Comma => TokenView::Comma,
            Token::Semi => TokenView::Semi,
            Token::BraceOpen => TokenView::BraceOpen,
            Token::BraceClose => TokenView::BraceClose,
            Token::ParenOpen => TokenView::ParenOpen,
            Token::ParenClose => TokenView::ParenClose,
            Token::BracketOpen => TokenView::BracketOpen,
            Token::BracketClose => TokenView::BracketClose,
            Token::Equals => TokenView::Equals,
            Token::Colon => TokenView::Colon,
            Token::Plus => TokenView::Plus,
            Token::Minus => TokenView::Minus,
            Token::Star => TokenView::Star,
            Token::Slash => TokenView::Slash,
            Token::Percent => TokenView::Percent,
            Token::Tilde => TokenView::Tilde,
            Token::Exclamation => TokenView::Exclamation,
            Token::Ampersand => TokenView::Ampersand,
            Token::Arrow => TokenView::Arrow,
            Token::If => TokenView::If,
            Token::Else => TokenView::Else,
            Token::While => TokenView::While,
            Token::Return => TokenView::Return,
            Token::Func => TokenView::Func,
            Token::Struct => TokenView::Struct,
            Token::As => TokenView::As,
            Token::U8 => TokenView::U8,
            Token::Void => TokenView::Void,
            Token::Integer(text) => TokenView::Integer(text@),
            Token::Ident(text) => TokenView::Ident(text@),
            Token::Comment => TokenView::Comment,
            Token::Whitespace => TokenView::Whitespace,
        }
    }
}

impl TokenView {
    /// How the token is shown: as it is written, but for comments and
    /// white space, which are shown by their names.
    pub open spec fn text(self) -> Seq<char> {
        match self {
            TokenView::Comma => ","@,
            TokenView::Semi => ";"@,
            TokenView::BraceOpen => "{"@,
            TokenView::BraceClose => "}"@,
            TokenView::ParenOpen => "("@,
            TokenView::ParenClose => ")"@,
            TokenView::BracketOpen => "["@,
            TokenView::BracketClose => "]"@,
            TokenView::Equals => "="@,
            TokenView::Colon => ":"@,
            TokenView::Plus => "+"@,
            TokenView::Minus => "-"@,
            TokenView::Star => "*"@,
            TokenView::Slash => "/"@,
            TokenView::Percent => "%"@,
            TokenView::Tilde => "~"@,
            TokenView::Exclamation => "!"@,
            TokenView::Ampersand => "&"@,
            TokenView::Arrow => "->"@,
            TokenView::If => "if"@,
            TokenView::Else => "else"@,
            TokenView::While => "while"@,
            TokenView::Return => "return"@,
            TokenView::Func => "func"@,
            TokenView::Struct => "struct"@,
            TokenView::As => "as"@,
            TokenView::U8 => "u8"@,
            TokenView::Void => "void"@,
            TokenView::Integer(text) => text,
            TokenView::Ident(text) => text,
            TokenView::Comment => "Comment"@,
            TokenView::Whitespace => "Whitespace"@,
        }
    }
}

impl Token {
    /// The token as text, for messages.
    pub fn to_text(&self) -> (text: String)
        ensures
            text@ == self@.text(),
    {
        match self {
            Token::Comma => ",".to_owned(),
            Token::Semi => ";".to_owned(),
            Token::BraceOpen => "{".to_owned(),
            Token::BraceClose => "}".to_owned(),
            Token::ParenOpen => "(".to_owned(),
            Token::ParenClose => ")".to_owned(),
            Token::BracketOpen => "[".to_owned(),
            Token::BracketClose => "]".to_owned(),
            Token::Equals => "=".to_owned(),
            Token::Colon => ":".to_owned(),
            Token::Plus => "+".to_owned(),
            Token::Minus => "-".to_owned(),
            Token::Star => "*".to_owned(),
            Token::Slash => "/".to_owned(),
            Token::Percent => "%".to_owned(),
            Token::Tilde => "~".to_owned(),
            Token::Exclamation => "!".to_owned(),
            Token::Ampersand => "&".to_owned(),
            Token::Arrow => "->".to_owned(),
            Token::If => "if".to_owned(),
            Token::Else => "else".to_owned(),
            Token::While => "while".to_owned(),
            Token::Return => "return".to_owned(),
            Token::Func => "func".to_owned(),
            Token::Struct => "struct".to_owned(),
            Token::As => "as".to_owned(),
            Token::U8 => "u8".to_owned(),
            Token::Void => "void".to_owned(),
            Token::Integer(text) => text.clone(),
            Token::Ident(text) => text.clone(),
            Token::Comment => "Comment".to_owned(),
            Token::Whitespace => "Whitespace".to_owned(),
        }
    }
}

impl Clone for Token {
    fn clone(&self) -> (copy: Token)
        ensures
            copy == *self,
    {
        match self {
            Token::Comma => Token::Comma,
            Token::Semi => Token::Semi,
            Token::BraceOpen => Token::BraceOpen,
            Token::BraceClose => Token::BraceClose,
            Token::ParenOpen => Token::ParenOpen,
            Token::ParenClose => Token::ParenClose,
            Token::BracketOpen => Token::BracketOpen,
            Token::BracketClose => Token::BracketClose,
            Token::Equals => Token::Equals,
            Token::Colon => Token::Colon,
            Token::Plus => Token::Plus,
            Token::Minus => Token::Minus,
            Token::Star => Token::Star,
            Token::Slash => Token::Slash,
            Token::Percent => Token::Percent,
            Token::Tilde => Token::Tilde,
            Token::Exclamation => Token::Exclamation,
            Token::Ampersand => Token::Ampersand,
            Token::Arrow => Token::Arrow,
            Token::If => Token::If,
            Token::Else => Token::Else,
            Token::While => Token::While,
            Token::Return => Token::Return,
            Token::Func => Token::Func,
            Token::Struct => Token::Struct,
            Token::As => Token::As,
            Token::U8 => Token::U8,
            Token::Void => Token::Void,
            Token::Integer(text) => Token::Integer(text.clone()),
            Token::Ident(text) => Token::Ident(text.clone()),
            Token::Comment => Token::Comment,
            Token::Whitespace => Token::Whitespace,
        }
    }
}

} // verus!
