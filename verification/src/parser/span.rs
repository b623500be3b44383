//! Positions in the source text.

use crate::utility::text::{decimal, write_decimal};
use vstd::prelude::*;
use vstd::string::*;

verus! {

/// A zero-based line and column.
#[derive(Clone, Copy, Debug, PartialEq, Eq, PartialOrd, Ord, Structural)]
pub struct Location {
    line: usize,
    col: usize,
}

impl Location {
    /// The line, counted from zero.
    pub closed spec fn spec_line(&self) -> usize {
        self.line
    }

    /// The column, counted from zero.
    pub closed spec fn spec_col(&self) -> usize {
        self.col
    }

    /// The location at the given zero-based line and column.
    pub fn at(line: usize, col: usize) -> (loc: Location)
        ensures
            loc.spec_line() == line,
            loc.spec_col() == col,
    {
        Location { line, col }
    }

    #[verifier::when_used_as_spec(spec_line)]
    pub fn line(&self) -> (line: usize)
        ensures
            line == self.spec_line(),
    {
        self.line
    }

    #[verifier::when_used_as_spec(spec_col)]
    pub fn col(&self) -> (col: usize)
        ensures
            col == self.spec_col(),
    {
        self.col
    }

    /// Steps over one character that is not a line break.
    pub fn next(&mut self)
        requires
            old(self).col() < usize::MAX,
        ensures
            final(self).line() == old(self).line(),
            final(self).col() == old(self).col() + 1,
    {
        self.col += 1;
    }

    /// Steps over a line break: the column starts again at zero.
    pub fn next_line(&mut self)
        requires
            old(self).line() < usize::MAX,
        ensures
            final(self).line() == old(self).line() + 1,
            final(self).col() == 0,
    {
        self.col = 0;
        self.line += 1;
    }
}

impl Location {
    /// How the location is shown: line and column, both counted from one.
    pub closed spec fn text(&self) -> Seq<char> {
        "("@ + decimal((self.line + 1) as nat) + ","@ + decimal((self.col + 1) as nat) + ")"@
    }

    /// The text is made of the line and the column alone.
    pub proof fn lemma_text(&self)
        ensures
            self.text() == "("@ + decimal((self.line() + 1) as nat) + ","@ + decimal(
                (self.col() + 1) as nat,
            ) + ")"@,
    {
    }

    /// The location as text, for messages.
    pub fn to_text(&self) -> (text: String)
        ensures
            text@ == self.text(),
    {
        let mut text = "(".to_owned();
        write_decimal(&mut text, self.line as u128 + 1);
        text.append(",");
        write_decimal(&mut text, self.col as u128 + 1);
        text.append(")");
        text
    }
}

impl Default for Location {
    fn default() -> (loc: Location)
        ensures
            loc.line() == 0,
            loc.col() == 0,
    {
        Location { line: 0, col: 0 }
    }
}

/// The start and end of a piece of source text.
#[derive(Clone, Copy, Debug, PartialEq, Eq, Structural)]
pub struct Span(pub Location, pub Location);

impl Span {
    /// How the span is shown: by the place where it starts.
    pub open spec fn text(&self) -> Seq<char> {
        self.0.text()
    }

    /// The span as text, for messages.
    pub fn to_text(&self) -> (text: String)
        ensures
            text@ == self.text(),
    {
        self.0.to_text()
    }
}

impl Default for Span {
    fn default() -> (span: Span)
        ensures
            span.0.line() == 0,
            span.0.col() == 0,
            span.1.line() == 0,
            span.1.col() == 0,
    {
        Span(Location::default(), Location::default())
    }
}

} // verus!
