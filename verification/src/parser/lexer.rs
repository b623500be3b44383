//! The lexer: from source text to tokens with their positions.

use crate::parser::span::Location;
use crate::parser::token::{Token, TokenView};
use crate::utility::text::push_char;
use vstd::prelude::*;

verus! {

/// `phf::Map`, a map behind a perfect hash function: carried as it is,
/// nothing of its inside is known here.
#[verifier::external_type_specification]
#[verifier::external_body]
#[verifier::reject_recursive_types(K)]
#[verifier::reject_recursive_types(V)]
pub struct ExKeywordMap<K: 'static, V: 'static>(phf::Map<K, V>);

/// `phf_builder::Map`, which collects entries and builds a `phf::Map`
/// of them: carried as it is, nothing of its inside is known here.
#[verifier::external_type_specification]
#[verifier::external_body]
#[verifier::reject_recursive_types(K)]
#[verifier::reject_recursive_types(V)]
pub struct ExKeywordMapBuilder<K, V>(phf_builder::Map<K, V>);

/// The entries that a `phf_builder::Map` has been given, in the order
/// given.
pub uninterp spec fn builder_entries(builder: phf_builder::Map<&'static str, Token>) -> Seq<
    (Seq<char>, Token),
>;

/// The keys of a `phf::Map` with the value of each.
pub uninterp spec fn map_entries(map: phf::Map<&'static str, Token>) -> Map<Seq<char>, Token>;

/// The number of entries of a `phf::Map`.
pub uninterp spec fn map_len(map: phf::Map<&'static str, Token>) -> nat;

/// The entries of a list as a map from their keys.
pub open spec fn table_of(entries: Seq<(Seq<char>, Token)>) -> Map<Seq<char>, Token>
    decreases entries.len(),
{
    if entries.len() == 0 {
        Map::empty()
    } else {
        table_of(entries.drop_last()).insert(entries.last().0, entries.last().1)
    }
}

/// No two entries have the same key.
pub open spec fn keys_distinct(entries: Seq<(Seq<char>, Token)>) -> bool {
    forall|i: int, j: int|
        0 <= i < j < entries.len() ==> (#[trigger] entries[i]).0 != (#[trigger] entries[j]).0
}

/// `phf_builder::Map::new`: a builder without entries.
#[verifier::external_body]
fn builder_new() -> (builder: phf_builder::Map<&'static str, Token>)
    ensures
        builder_entries(builder) == Seq::<(Seq<char>, Token)>::empty(),
{
    phf_builder::Map::new()
}

/// `phf_builder::Map::entry`: the builder keeps the key and the value
/// behind those it has.
#[verifier::external_body]
fn builder_entry(
    builder: &mut phf_builder::Map<&'static str, Token>,
    key: &'static str,
    value: Token,
)
    ensures
        builder_entries(*final(builder)) == builder_entries(*old(builder)).push((key@, value)),
{
    builder.entry(key, value);
}

/// `phf_builder::Map::build`: the map of the entries given, as many as
/// were given. The crate panics on a key given twice, and its hashing
/// adds and multiplies in 32 bits numbers that grow with the table:
/// tables of up to 2047 entries stay within them. It tries hash seeds
/// drawn from a fixed start until one fits the keys.
#[verifier::external_body]
fn builder_build(builder: phf_builder::Map<&'static str, Token>) -> (map: phf::Map<
    &'static str,
    Token,
>)
    requires
        keys_distinct(builder_entries(builder)),
        builder_entries(builder).len() <= 2047,
    ensures
        map_entries(map) == table_of(builder_entries(builder)),
        map_len(map) == builder_entries(builder).len(),
{
    builder.build()
}

/// `phf::Map::get`: a copy of the value that the map holds for the key,
/// if it holds the key. The crate divides by the number of entries, so
/// the map must not be empty, and hashes as `build` does, so the map must
/// be as small as `build` takes it.
#[verifier::external_body]
fn map_get(map: &phf::Map<&'static str, Token>, key: &str) -> (value: Option<Token>)
    requires
        0 < map_len(*map) <= 2047,
    ensures
        value == if map_entries(*map).contains_key(key@) {
            Some(map_entries(*map)[key@])
        } else {
            None
        },
{
    map.get(key).cloned()
}

/// What `char::is_alphabetic` says of a character.
pub uninterp spec fn alphabetic(c: char) -> bool;

/// What `char::is_alphanumeric` says of a character.
pub uninterp spec fn alphanumeric(c: char) -> bool;

/// What `char::is_whitespace` says of a character.
pub uninterp spec fn whitespace(c: char) -> bool;

/// `char::is_alphabetic`.
#[verifier::external_body]
fn is_alphabetic(c: char) -> (yes: bool)
    ensures
        yes == alphabetic(c),
{
    c.is_alphabetic()
}

/// `char::is_alphanumeric`.
#[verifier::external_body]
fn is_alphanumeric(c: char) -> (yes: bool)
    ensures
        yes == alphanumeric(c),
{
    c.is_alphanumeric()
}

/// `char::is_whitespace`.
#[verifier::external_body]
fn is_whitespace(c: char) -> (yes: bool)
    ensures
        yes == whitespace(c),
{
    c.is_whitespace()
}

/// Whether the character is in the ASCII range.
pub open spec fn ascii(c: char) -> bool {
    c as u32 <= 0x7f
}

fn is_ascii(c: char) -> (yes: bool)
    ensures
        yes == ascii(c),
{
    c as u32 <= 0x7f
}

/// Whether the character is one of the ten decimal digits.
pub open spec fn digit(c: char) -> bool {
    '0' <= c <= '9'
}

fn is_digit(c: char) -> (yes: bool)
    ensures
        yes == digit(c),
{
    '0' <= c && c <= '9'
}

/// Whether a word may start with the character.
pub open spec fn starts_word(c: char) -> bool {
    alphabetic(c) || !ascii(c) || c == '_'
}

/// The characters that make up one kind of run.
#[derive(Debug, Clone, Copy, PartialEq, Eq, Structural)]
pub enum CharClass {
    /// All but the line break: the rest of a comment.
    Comment,
    /// What a name or keyword goes on with.
    Word,
    /// White space.
    Whitespace,
    /// Decimal digits.
    Digit,
}

impl CharClass {
    pub open spec fn spec_contains(self, c: char) -> bool {
        match self {
            CharClass::Comment => c != '\n',
            CharClass::Word => alphanumeric(c) || !ascii(c) || c == '_' || c == '?',
            CharClass::Whitespace => whitespace(c),
            CharClass::Digit => digit(c),
        }
    }

    #[verifier::when_used_as_spec(spec_contains)]
    pub fn contains(self, c: char) -> (yes: bool)
        ensures
            yes == self.spec_contains(c),
    {
        match self {
            CharClass::Comment => c != '\n',
            CharClass::Word => is_alphanumeric(c) || !is_ascii(c) || c == '_' || c == '?',
            CharClass::Whitespace => is_whitespace(c),
            CharClass::Digit => is_digit(c),
        }
    }
}

/// Where the lexer stands: how many characters it has consumed, and the
/// line and column that this makes.
pub struct Cursor {
    pub pos: nat,
    pub line: nat,
    pub col: nat,
}

/// The lexer as contracts speak of it: the whole input and the place in
/// it.
pub struct LexerView {
    pub input: Seq<char>,
    pub cursor: Cursor,
}

/// The place after the character `c`: a line break starts a new line at
/// column zero, any other character moves one column on.
pub open spec fn step(cursor: Cursor, c: char) -> Cursor {
    if c == '\n' {
        Cursor { pos: cursor.pos + 1, line: cursor.line + 1, col: 0 }
    } else {
        Cursor { pos: cursor.pos + 1, line: cursor.line, col: cursor.col + 1 }
    }
}

/// The character at the cursor, if the input goes that far.
pub open spec fn peeked(input: Seq<char>, cursor: Cursor) -> Option<char> {
    if cursor.pos < input.len() {
        Some(input[cursor.pos as int])
    } else {
        None
    }
}

/// The place after one character more, or the same place at the end of
/// the input.
pub open spec fn consumed(input: Seq<char>, cursor: Cursor) -> Cursor {
    match peeked(input, cursor) {
        Some(c) => step(cursor, c),
        None => cursor,
    }
}

/// The place after the longest run of characters of `class`.
pub open spec fn skipped(input: Seq<char>, cursor: Cursor, class: CharClass) -> Cursor
    decreases input.len() - cursor.pos,
{
    if cursor.pos < input.len() && class.spec_contains(input[cursor.pos as int]) {
        skipped(input, step(cursor, input[cursor.pos as int]), class)
    } else {
        cursor
    }
}

/// The words that are reserved, each with its token.
pub open spec fn keyword_entries() -> Seq<(Seq<char>, Token)> {
    seq![
        ("if"@, Token::If),
        ("else"@, Token::Else),
        ("while"@, Token::While),
        ("func"@, Token::Func),
        ("return"@, Token::Return),
        ("struct"@, Token::Struct),
        ("as"@, Token::As),
        ("u8"@, Token::U8),
        ("void"@, Token::Void),
    ]
}

/// The token of a reserved word; `None` for every other word.
pub open spec fn keyword(word: Seq<char>) -> Option<Token> {
    if word == "if"@ {
        Some(Token::If)
    } else if word == "else"@ {
        Some(Token::Else)
    } else if word == "while"@ {
        Some(Token::While)
    } else if word == "func"@ {
        Some(Token::Func)
    } else if word == "return"@ {
        Some(Token::Return)
    } else if word == "struct"@ {
        Some(Token::Struct)
    } else if word == "as"@ {
        Some(Token::As)
    } else if word == "u8"@ {
        Some(Token::U8)
    } else if word == "void"@ {
        Some(Token::Void)
    } else {
        None
    }
}

/// The token that a word makes: its keyword, or else a name.
pub open spec fn word_token(word: Seq<char>) -> TokenView {
    match keyword(word) {
        Some(token) => token@,
        None => TokenView::Ident(word),
    }
}

/// One step of the lexer: the token, or the character that starts none,
/// and the place after it.
pub struct Lexed {
    pub token: Result<TokenView, char>,
    pub cursor: Cursor,
}

/// The token that starts with `c` at the cursor. A token of one
/// character consumes one character; `->` and the rest of a `//` comment
/// are taken if they follow; a word, a run of white space and a number
/// take the longest run of their characters; any other character is
/// refused and nothing is consumed.
pub open spec fn lexed(input: Seq<char>, cursor: Cursor, c: char) -> Lexed {
    let one = consumed(input, cursor);
    if c == ',' {
        Lexed { token: Ok(TokenView::Comma), cursor: one }
    } else if c == ';' {
        Lexed { token: Ok(TokenView::Semi), cursor: one }
    } else if c == '{' {
        Lexed { token: Ok(TokenView::BraceOpen), cursor: one }
    } else if c == '}' {
        Lexed { token: Ok(TokenView::BraceClose), cursor: one }
    } else if c == '(' {
        Lexed { token: Ok(TokenView::ParenOpen), cursor: one }
    } else if c == ')' {
        Lexed { token: Ok(TokenView::ParenClose), cursor: one }
    } else if c == '[' {
        Lexed { token: Ok(TokenView::BracketOpen), cursor: one }
    } else if c == ']' {
        Lexed { token: Ok(TokenView::BracketClose), cursor: one }
    } else if c == '=' {
        Lexed { token: Ok(TokenView::Equals), cursor: one }
    } else if c == ':' {
        Lexed { token: Ok(TokenView::Colon), cursor: one }
    } else if c == '+' {
        Lexed { token: Ok(TokenView::Plus), cursor: one }
    } else if c == '*' {
        Lexed { token: Ok(TokenView::Star), cursor: one }
    } else if c == '%' {
        Lexed { token: Ok(TokenView::Percent), cursor: one }
    } else if c == '~' {
        Lexed { token: Ok(TokenView::Tilde), cursor: one }
    } else if c == '!' {
        Lexed { token: Ok(TokenView::Exclamation), cursor: one }
    } else if c == '&' {
        Lexed { token: Ok(TokenView::Ampersand), cursor: one }
    } else if c == '-' {
        if peeked(input, one) == Some('>') {
            Lexed { token: Ok(TokenView::Arrow), cursor: consumed(input, one) }
        } else {
            Lexed { token: Ok(TokenView::Minus), cursor: one }
        }
    } else if c == '/' {
        if peeked(input, one) == Some('/') {
            Lexed { token: Ok(TokenView::Comment), cursor: skipped(input, one, CharClass::Comment) }
        } else {
            Lexed { token: Ok(TokenView::Slash), cursor: one }
        }
    } else if starts_word(c) {
        let end = skipped(input, cursor, CharClass::Word);
        Lexed {
            token: Ok(word_token(input.subrange(cursor.pos as int, end.pos as int))),
            cursor: end,
        }
    } else if whitespace(c) {
        Lexed {
            token: Ok(TokenView::Whitespace),
            cursor: skipped(input, cursor, CharClass::Whitespace),
        }
    } else if digit(c) {
        let end = skipped(input, cursor, CharClass::Digit);
        Lexed {
            token: Ok(TokenView::Integer(input.subrange(cursor.pos as int, end.pos as int))),
            cursor: end,
        }
    } else {
        Lexed { token: Err(c), cursor }
    }
}

/// A run never goes back, nor past the end of the input.
pub proof fn lemma_skipped_bounds(input: Seq<char>, cursor: Cursor, class: CharClass)
    requires
        cursor.pos <= input.len(),
    ensures
        cursor.pos <= skipped(input, cursor, class).pos <= input.len(),
    decreases input.len() - cursor.pos,
{
    if cursor.pos < input.len() && class.spec_contains(input[cursor.pos as int]) {
        lemma_skipped_bounds(input, step(cursor, input[cursor.pos as int]), class);
    }
}

/// A character that starts no token.
#[derive(Debug)]
pub struct UnexpectedCharError(char);

impl UnexpectedCharError {
    pub closed spec fn view(&self) -> char {
        self.0
    }

    /// The character that was met.
    pub fn character(&self) -> (c: char)
        ensures
            c == self@,
    {
        self.0
    }

    /// What kind of error this is.
    pub fn description(&self) -> (text: &'static str)
        ensures
            text@ == "Unexpected character"@,
    {
        "Unexpected character"
    }

    /// The error as a message.
    pub fn message(&self) -> (text: String)
        ensures
            text@ == "Unexpected character '"@.push(self@).push('\''),
    {
        let mut text = "Unexpected character '".to_owned();
        push_char(&mut text, self.0);
        push_char(&mut text, '\'');
        text
    }
}

pub type Spanned<T, L, E> = Result<(L, T, L), E>;

pub type LexerResult = Spanned<Token, Location, UnexpectedCharError>;

/// The reserved words as a perfect hash map.
fn keywords() -> (map: phf::Map<&'static str, Token>)
    ensures
        map_entries(map) == table_of(keyword_entries()),
        map_len(map) == 9,
{
    let mut builder = builder_new();
    builder_entry(&mut builder, "if", Token::If);
    builder_entry(&mut builder, "else", Token::Else);
    builder_entry(&mut builder, "while", Token::While);
    builder_entry(&mut builder, "func", Token::Func);
    builder_entry(&mut builder, "return", Token::Return);
    builder_entry(&mut builder, "struct", Token::Struct);
    builder_entry(&mut builder, "as", Token::As);
    builder_entry(&mut builder, "u8", Token::U8);
    builder_entry(&mut builder, "void", Token::Void);
    proof {
        assert(builder_entries(builder) =~= keyword_entries());
        lemma_keywords_distinct();
    }
    builder_build(builder)
}

/// No word is reserved twice.
proof fn lemma_keywords_distinct()
    ensures
        keys_distinct(keyword_entries()),
{
    reveal_strlit("if");
    reveal_strlit("else");
    reveal_strlit("while");
    reveal_strlit("func");
    reveal_strlit("return");
    reveal_strlit("struct");
    reveal_strlit("as");
    reveal_strlit("u8");
    reveal_strlit("void");
    let entries = keyword_entries();
    assert("if"@[0] == 'i');
    assert("as"@[0] == 'a');
    assert("u8"@[0] == 'u');
    assert("else"@[0] == 'e');
    assert("func"@[0] == 'f');
    assert("void"@[0] == 'v');
    assert("while"@[0] == 'w');
    assert("return"@[0] == 'r');
    assert("struct"@[0] == 's');
    assert forall|i: int, j: int| 0 <= i < j < entries.len() implies (#[trigger] entries[i]).0 != (
    #[trigger] entries[j]).0 by {
        assert(entries[i].0[0] != entries[j].0[0]);
    }
}

/// A map made of entries with distinct keys holds each entry's value
/// under its key, and no other key.
proof fn lemma_table_of(entries: Seq<(Seq<char>, Token)>)
    requires
        keys_distinct(entries),
    ensures
        forall|i: int|
            0 <= i < entries.len() ==> table_of(entries).contains_key((#[trigger] entries[i]).0)
                && table_of(entries)[entries[i].0] == entries[i].1,
        forall|key: Seq<char>| #[trigger]
            table_of(entries).contains_key(key) ==> exists|i: int|
                0 <= i < entries.len() && (#[trigger] entries[i]).0 == key,
    decreases entries.len(),
{
    if entries.len() > 0 {
        let front = entries.drop_last();
        assert(keys_distinct(front)) by {
            assert forall|a: int, b: int| 0 <= a < b < front.len() implies (#[trigger] front[a]).0
                != (#[trigger] front[b]).0 by {
                assert(front[a] == entries[a]);
                assert(front[b] == entries[b]);
            }
        }
        lemma_table_of(front);
        assert forall|i: int| 0 <= i < entries.len() implies table_of(entries).contains_key(
            (#[trigger] entries[i]).0,
        ) && table_of(entries)[entries[i].0] == entries[i].1 by {
            if i < entries.len() - 1 {
                assert(front[i] == entries[i]);
                assert(entries[i].0 != entries[entries.len() - 1].0);
            }
        }
        assert forall|key: Seq<char>| #[trigger]
            table_of(entries).contains_key(key) implies exists|i: int|
            0 <= i < entries.len() && (#[trigger] entries[i]).0 == key by {
            if key == entries.last().0 {
                assert(entries[entries.len() - 1].0 == key);
            } else {
                assert(table_of(front).contains_key(key));
                let i = choose|i: int| 0 <= i < front.len() && (#[trigger] front[i]).0 == key;
                assert(entries[i].0 == key);
            }
        }
    }
}

/// The map of the reserved words holds exactly what `keyword` says.
proof fn lemma_keyword_table(word: Seq<char>)
    ensures
        match keyword(word) {
            Some(token) => table_of(keyword_entries()).contains_key(word) && table_of(
                keyword_entries(),
            )[word] == token,
            None => !table_of(keyword_entries()).contains_key(word),
        },
{
    let entries = keyword_entries();
    lemma_keywords_distinct();
    lemma_table_of(entries);
    assert(entries[0] == ("if"@, Token::If));
    assert(entries[1] == ("else"@, Token::Else));
    assert(entries[2] == ("while"@, Token::While));
    assert(entries[3] == ("func"@, Token::Func));
    assert(entries[4] == ("return"@, Token::Return));
    assert(entries[5] == ("struct"@, Token::Struct));
    assert(entries[6] == ("as"@, Token::As));
    assert(entries[7] == ("u8"@, Token::U8));
    assert(entries[8] == ("void"@, Token::Void));
    if table_of(entries).contains_key(word) {
        let i = choose|i: int| 0 <= i < entries.len() && (#[trigger] entries[i]).0 == word;
        assert(0 <= i < 9);
    }
}

/// The lexer: the input, the place in it, and the reserved words.
pub struct Lexer<'i> {
    source: &'i str,
    chars: Vec<char>,
    pos: usize,
    location: Location,
    keywords: phf::Map<&'static str, Token>,
}

impl<'i> Lexer<'i> {
    #[verifier::type_invariant]
    spec fn well_formed(self) -> bool {
        &&& self.chars@ == self.source@
        &&& self.pos <= self.chars.len()
        &&& self.location.line() + self.location.col() <= self.pos
        &&& map_entries(self.keywords) == table_of(keyword_entries())
        &&& map_len(self.keywords) == 9
    }

    pub closed spec fn view(&self) -> LexerView {
        LexerView {
            input: self.chars@,
            cursor: Cursor {
                pos: self.pos as nat,
                line: self.location.line() as nat,
                col: self.location.col() as nat,
            },
        }
    }

    /// A lexer at the start of `input`.
    pub fn new(input: &'i str) -> (lexer: Lexer<'i>)
        ensures
            lexer@ == (LexerView { input: input@, cursor: Cursor { pos: 0, line: 0, col: 0 } }),
    {
        let mut chars: Vec<char> = Vec::new();
        for c in iter: input.chars()
            invariant
                iter.seq() == input@,
                chars@ == iter.seq().take(iter.index() as int),
        {
            chars.push(c);
            assert(iter.seq().take(iter.index() + 1) =~= iter.seq().take(iter.index() as int).push(
                c,
            ));
        }
        assert(chars@ =~= input@);
        Lexer { source: input, chars, pos: 0, location: Location::default(), keywords: keywords() }
    }

    /// The text that is being lexed.
    pub fn source(&self) -> (text: &'i str)
        ensures
            text@ == self@.input,
    {
        proof {
            use_type_invariant(self);
        }
        self.source
    }

    /// The next character, which stays where it is.
    pub fn peek(&mut self) -> (c: Option<char>)
        ensures
            final(self)@ == old(self)@,
            c == peeked(old(self)@.input, old(self)@.cursor),
    {
        proof {
            use_type_invariant(&*self);
        }
        if self.pos < self.chars.len() {
            Some(self.chars[self.pos])
        } else {
            None
        }
    }

    /// Takes the next character and moves on.
    pub fn consume(&mut self) -> (c: Option<char>)
        ensures
            final(self)@.input == old(self)@.input,
            final(self)@.cursor == consumed(old(self)@.input, old(self)@.cursor),
            c == peeked(old(self)@.input, old(self)@.cursor),
    {
        proof {
            use_type_invariant(&*self);
        }
        if self.pos < self.chars.len() {
            let c = self.chars[self.pos];
            let mut location = self.location;
            if c == '\n' {
                location.next_line();
            } else {
                location.next();
            }
            self.pos += 1;
            self.location = location;
            Some(c)
        } else {
            None
        }
    }

    /// Takes the longest run of characters of `class` and hands them
    /// back.
    fn consume_while(&mut self, class: CharClass) -> (run: String)
        ensures
            final(self)@.input == old(self)@.input,
            final(self)@.cursor == skipped(old(self)@.input, old(self)@.cursor, class),
            old(self)@.cursor.pos <= final(self)@.cursor.pos <= old(self)@.input.len(),
            run@ == old(self)@.input.subrange(
                old(self)@.cursor.pos as int,
                final(self)@.cursor.pos as int,
            ),
    {
        let ghost input = self@.input;
        let ghost start = self@.cursor;
        let mut run = String::new();
        proof {
            use_type_invariant(&*self);
            assert(run@ =~= input.subrange(start.pos as int, start.pos as int));
        }
        loop
            invariant
                input == old(self)@.input,
                start == old(self)@.cursor,
                self@.input == input,
                start.pos <= self@.cursor.pos <= input.len(),
                skipped(input, start, class) == skipped(input, self@.cursor, class),
                run@ == input.subrange(start.pos as int, self@.cursor.pos as int),
            decreases input.len() - self@.cursor.pos,
        {
            match self.peek() {
                Some(c) => {
                    if !class.contains(c) {
                        return run;
                    }
                    let ghost before = self@.cursor;
                    self.consume();
                    push_char(&mut run, c);
                    assert(run@ =~= input.subrange(start.pos as int, self@.cursor.pos as int));
                },
                None => {
                    return run;
                },
            }
        }
    }

    /// Makes the token that starts with `c`, the character at the
    /// cursor.
    pub fn next_inner(&mut self, c: char) -> (result: Result<Token, UnexpectedCharError>)
        ensures
            final(self)@.input == old(self)@.input,
            final(self)@.cursor == lexed(old(self)@.input, old(self)@.cursor, c).cursor,
            match lexed(old(self)@.input, old(self)@.cursor, c).token {
                Ok(token) => result matches Ok(made) && made@ == token,
                Err(refused) => result matches Err(error) && error@ == refused,
            },
    {
        if c == ',' {
            self.consume();
            Ok(Token::Comma)
        } else if c == ';' {
            self.consume();
            Ok(Token::Semi)
        } else if c == '{' {
            self.consume();
            Ok(Token::BraceOpen)
        } else if c == '}' {
            self.consume();
            Ok(Token::BraceClose)
        } else if c == '(' {
            self.consume();
            Ok(Token::ParenOpen)
        } else if c == ')' {
            self.consume();
            Ok(Token::ParenClose)
        } else if c == '[' {
            self.consume();
            Ok(Token::BracketOpen)
        } else if c == ']' {
            self.consume();
            Ok(Token::BracketClose)
        } else if c == '=' {
            self.consume();
            Ok(Token::Equals)
        } else if c == ':' {
            self.consume();
            Ok(Token::Colon)
        } else if c == '+' {
            self.consume();
            Ok(Token::Plus)
        } else if c == '*' {
            self.consume();
            Ok(Token::Star)
        } else if c == '%' {
            self.consume();
            Ok(Token::Percent)
        } else if c == '~' {
            self.consume();
            Ok(Token::Tilde)
        } else if c == '!' {
            self.consume();
            Ok(Token::Exclamation)
        } else if c == '&' {
            self.consume();
            Ok(Token::Ampersand)
        } else if c == '-' {
            self.consume();
            match self.peek() {
                Some('>') => {
                    self.consume();
                    Ok(Token::Arrow)
                },
                _ => Ok(Token::Minus),
            }
        } else if c == '/' {
            self.consume();
            match self.peek() {
                Some('/') => {
                    self.consume_while(CharClass::Comment);
                    Ok(Token::Comment)
                },
                _ => Ok(Token::Slash),
            }
        } else if is_alphabetic(c) || !is_ascii(c) || c == '_' {
            let word = self.consume_while(CharClass::Word);
            proof {
                use_type_invariant(&*self);
                lemma_keyword_table(word@);
            }
            match map_get(&self.keywords, word.as_str()) {
                Some(token) => Ok(token),
                None => Ok(Token::Ident(word)),
            }
        } else if is_whitespace(c) {
            self.consume_while(CharClass::Whitespace);
            Ok(Token::Whitespace)
        } else if is_digit(c) {
            let word = self.consume_while(CharClass::Digit);
            Ok(Token::Integer(word))
        } else {
            Err(UnexpectedCharError(c))
        }
    }

    /// The next token with the places where it starts and ends; `None`
    /// at the end of the input.
    pub fn next_token(&mut self) -> (result: Option<LexerResult>)
        ensures
            final(self)@.input == old(self)@.input,
            token_outcome(old(self)@, final(self)@, result),
    {
        match self.peek() {
            None => None,
            Some(c) => {
                let start = self.location;
                match self.next_inner(c) {
                    Ok(token) => Some(Ok((start, token, self.location))),
                    Err(error) => Some(Err(error)),
                }
            },
        }
    }

    /// The next token that is neither white space nor a comment.
    pub fn next_filtered(&mut self) -> (result: Option<LexerResult>)
        ensures
            final(self)@.input == old(self)@.input,
            exists|from: Cursor|
                skips_to(old(self)@.input, old(self)@.cursor, from) && token_outcome(
                    (LexerView { input: old(self)@.input, cursor: from }),
                    final(self)@,
                    result,
                ),
            !(result matches Some(Ok((_, token, _))) && (token@ is Whitespace
                || token@ is Comment)),
    {
        let ghost input = self@.input;
        proof {
            use_type_invariant(&*self);
            assert(skips_in(input, self@.cursor, self@.cursor, 0));
        }
        loop
            invariant
                input == old(self)@.input,
                self@.input == input,
                self@.cursor.pos <= input.len(),
                skips_to(input, old(self)@.cursor, self@.cursor),
            decreases input.len() - self@.cursor.pos,
        {
            let ghost from = self@.cursor;
            match self.next_token() {
                Some(Ok((start, token, end))) => {
                    match token {
                        Token::Whitespace | Token::Comment => {
                            proof {
                                use_type_invariant(&*self);
                                lemma_skip_consumes(input, from);
                                lemma_skips_to_extends(input, old(self)@.cursor, from);
                            }
                        },
                        token => {
                            return Some(Ok((start, token, end)));
                        },
                    }
                },
                rest => {
                    return rest;
                },
            }
        }
    }
}

/// What `next_token` owes: nothing at the end of the input; else the
/// token that starts with the character at the cursor, between the place
/// where the lexer stood and the place where it stands now, or the
/// character that starts no token.
pub open spec fn token_outcome(before: LexerView, after: LexerView, result: Option<LexerResult>)
    -> bool {
    match peeked(before.input, before.cursor) {
        None => result is None && after.cursor == before.cursor,
        Some(c) => {
            let made = lexed(before.input, before.cursor, c);
            &&& after.cursor == made.cursor
            &&& match made.token {
                Ok(token) => result matches Some(Ok((start, found, end))) && found@ == token
                    && start.line() == before.cursor.line && start.col() == before.cursor.col
                    && end.line() == after.cursor.line && end.col() == after.cursor.col,
                Err(refused) => result matches Some(Err(error)) && error@ == refused,
            }
        },
    }
}

/// Whether the token at the cursor is white space or a comment.
pub open spec fn skippable(input: Seq<char>, cursor: Cursor) -> bool {
    peeked(input, cursor) matches Some(c) && (lexed(input, cursor, c).token == Ok::<
        TokenView,
        char,
    >(TokenView::Whitespace) || lexed(input, cursor, c).token == Ok::<TokenView, char>(
        TokenView::Comment,
    ))
}

/// The place after the token at the cursor.
pub open spec fn after_token(input: Seq<char>, cursor: Cursor) -> Cursor {
    match peeked(input, cursor) {
        Some(c) => lexed(input, cursor, c).cursor,
        None => cursor,
    }
}

/// Whether `to` is reached from `from` over white space and comments
/// only, in `steps` tokens.
pub open spec fn skips_in(input: Seq<char>, from: Cursor, to: Cursor, steps: nat) -> bool
    decreases steps,
{
    if steps == 0 {
        to == from
    } else {
        skippable(input, from) && skips_in(input, after_token(input, from), to, (steps - 1) as nat)
    }
}

/// Whether `to` is reached from `from` over white space and comments
/// only.
pub open spec fn skips_to(input: Seq<char>, from: Cursor, to: Cursor) -> bool {
    exists|steps: nat| skips_in(input, from, to, steps)
}

/// A token of white space or a comment consumes at least one character.
proof fn lemma_skip_consumes(input: Seq<char>, cursor: Cursor)
    requires
        cursor.pos <= input.len(),
        skippable(input, cursor),
    ensures
        cursor.pos < after_token(input, cursor).pos <= input.len(),
{
    let c = input[cursor.pos as int];
    let one = consumed(input, cursor);
    lemma_skipped_bounds(input, one, CharClass::Comment);
    lemma_skipped_bounds(input, one, CharClass::Whitespace);
    lemma_skipped_bounds(input, cursor, CharClass::Word);
    lemma_skipped_bounds(input, cursor, CharClass::Digit);
}

/// One more skipped token behind a run of skipped tokens.
proof fn lemma_skips_to_extends(input: Seq<char>, from: Cursor, middle: Cursor)
    requires
        skips_to(input, from, middle),
        skippable(input, middle),
    ensures
        skips_to(input, from, after_token(input, middle)),
{
    let steps = choose|steps: nat| skips_in(input, from, middle, steps);
    lemma_skips_in_extends(input, from, middle, steps);
    assert(skips_in(input, from, after_token(input, middle), steps + 1));
}

proof fn lemma_skips_in_extends(input: Seq<char>, from: Cursor, middle: Cursor, steps: nat)
    requires
        skips_in(input, from, middle, steps),
        skippable(input, middle),
    ensures
        skips_in(input, from, after_token(input, middle), steps + 1),
    decreases steps,
{
    if steps == 0 {
        assert(skips_in(input, after_token(input, middle), after_token(input, middle), 0));
    } else {
        lemma_skips_in_extends(input, after_token(input, from), middle, (steps - 1) as nat);
    }
}

} // verus!
