//! Semantic analysis: scopes, the checker and its errors.

pub mod annotation;
pub mod environment;
pub mod laws;
pub mod rules;
pub mod scope_tree;
pub mod scoped_map;
pub mod typecheck;

use crate::ast::expr::{BinOpKind, UnOpKind};
use crate::ast::ty::{Name, Ty, TyView};
use crate::parser::span::Span;
use crate::utility::text::{decimal, write_decimal};
use vstd::prelude::*;
use vstd::string::*;

verus! {

/// Says whether a tree has been analysed, and so what each expression
/// carries besides its syntax.
pub trait CheckType {
    type ExprInfo;
}

/// Marks a tree whose expressions carry their resolved type.
#[derive(Debug, Clone, Copy, PartialEq, Eq, Hash)]
pub struct Checked;

impl CheckType for Checked {
    type ExprInfo = Ty<Checked>;
}

/// Marks a tree as the parser made it: expressions carry nothing.
#[derive(Debug, Clone, Copy, PartialEq, Eq, Hash)]
pub struct Unchecked;

impl CheckType for Unchecked {
    type ExprInfo = ();
}

/// What went wrong.
#[derive(Debug)]
pub enum SemanticErrorKind {
    /// The name is already bound in the current scope; the span is that of
    /// the first definition.
    Redefinition(Span, Name),
    /// No enclosing scope binds the name.
    Undefined(Name),
    /// The statement may not stand where it does.
    IllegalStatement,
    /// The second type was found where exactly the first was required.
    TypeError(Ty<Checked>, Ty<Checked>),
    /// The operator is not defined for operands of these two types.
    InvalidBinary(BinOpKind, Ty<Checked>, Ty<Checked>),
    /// The operator is not defined for an operand of this type.
    InvalidUnary(UnOpKind, Ty<Checked>),
    /// A value of this type was called.
    NotAFunction(Ty<Checked>),
    /// A function of the first number of parameters was called with the
    /// second number of arguments.
    ArityMismatch(usize, usize),
    /// A parameter was declared with the empty type.
    ParameterDeclaredVoid,
    /// The named field or variable was declared with the empty type.
    FieldDeclaredVoid(Name),
}

/// An error kind with the types in it taken by their meaning.
pub enum FailureKind {
    Redefinition(Span, Seq<char>),
    Undefined(Seq<char>),
    IllegalStatement,
    TypeError(TyView, TyView),
    InvalidBinary(BinOpKind, TyView, TyView),
    InvalidUnary(UnOpKind, TyView),
    NotAFunction(TyView),
    ArityMismatch(nat, nat),
    ParameterDeclaredVoid,
    FieldDeclaredVoid(Seq<char>),
}

/// A semantic error as contracts speak of it: where, and what.
pub struct Failure {
    pub span: Span,
    pub kind: FailureKind,
}

impl SemanticErrorKind {
    pub open spec fn view(&self) -> FailureKind {
        match *self {
            SemanticErrorKind::Redefinition(origin, name) => FailureKind::Redefinition(
                origin,
                name@,
            ),
            SemanticErrorKind::Undefined(name) => FailureKind::Undefined(name@),
            SemanticErrorKind::IllegalStatement => FailureKind::IllegalStatement,
            SemanticErrorKind::TypeError(expected, actual) => FailureKind::TypeError(
                expected@,
                actual@,
            ),
            SemanticErrorKind::InvalidBinary(op, lhs, rhs) => FailureKind::InvalidBinary(
                op,
                lhs@,
                rhs@,
            ),
            SemanticErrorKind::InvalidUnary(op, operand) => FailureKind::InvalidUnary(
                op,
                operand@,
            ),
            SemanticErrorKind::NotAFunction(ty) => FailureKind::NotAFunction(ty@),
            SemanticErrorKind::ArityMismatch(params, args) => FailureKind::ArityMismatch(
                params as nat,
                args as nat,
            ),
            SemanticErrorKind::ParameterDeclaredVoid => FailureKind::ParameterDeclaredVoid,
            SemanticErrorKind::FieldDeclaredVoid(name) => FailureKind::FieldDeclaredVoid(name@),
        }
    }
}

impl SemanticErrorKind {
    /// How the kind of error is shown: its name, then what it is about.
    pub open spec fn text(&self) -> Seq<char> {
        match *self {
            SemanticErrorKind::Redefinition(origin, name) => "Redefinition: '"@ + name@
                + "' is already defined at "@ + origin.text(),
            SemanticErrorKind::Undefined(name) => "Undefined: '"@ + name@ + "' is not defined"@,
            SemanticErrorKind::IllegalStatement =>
                "IllegalStatement: the statement is not allowed here"@,
            SemanticErrorKind::TypeError(expected, actual) =>
                "TypeError: cannot convert from type '"@ + actual.syntax().text() + "' to '"@
                + expected.syntax().text() + "'"@,
            SemanticErrorKind::InvalidBinary(op, lhs, rhs) => "InvalidBinary: operator '"@
                + op.symbol() + "' is not defined for '"@ + lhs.syntax().text() + "' and '"@
                + rhs.syntax().text() + "'"@,
            SemanticErrorKind::InvalidUnary(op, operand) => "InvalidUnary: operator '"@
                + op.symbol() + "' is not defined for '"@ + operand.syntax().text() + "'"@,
            SemanticErrorKind::NotAFunction(ty) => "NotAFunction: '"@ + ty.syntax().text()
                + "' is not a function"@,
            SemanticErrorKind::ArityMismatch(params, args) => "ArityMismatch: expected "@
                + decimal(params as nat) + " arguments, found "@ + decimal(args as nat),
            SemanticErrorKind::ParameterDeclaredVoid =>
                "ParameterDeclaredVoid: a parameter cannot have type 'void'"@,
            SemanticErrorKind::FieldDeclaredVoid(name) => "FieldDeclaredVoid: field '"@ + name@
                + "' cannot have type 'void'"@,
        }
    }

    /// The kind of error as text.
    pub fn to_text(&self) -> (text: String)
        ensures
            text@ == self.text(),
    {
        match self {
            SemanticErrorKind::Redefinition(origin, name) => {
                let mut text = "Redefinition: '".to_owned();
                text.append(name.as_str());
                text.append("' is already defined at ");
                text.append(origin.to_text().as_str());
                text
            },
            SemanticErrorKind::Undefined(name) => {
                let mut text = "Undefined: '".to_owned();
                text.append(name.as_str());
                text.append("' is not defined");
                text
            },
            SemanticErrorKind::IllegalStatement => {
                "IllegalStatement: the statement is not allowed here".to_owned()
            },
            SemanticErrorKind::TypeError(expected, actual) => {
                let mut text = "TypeError: cannot convert from type '".to_owned();
                text.append(actual.to_text().as_str());
                text.append("' to '");
                text.append(expected.to_text().as_str());
                text.append("'");
                text
            },
            SemanticErrorKind::InvalidBinary(op, lhs, rhs) => {
                let mut text = "InvalidBinary: operator '".to_owned();
                text.append(op.to_text().as_str());
                text.append("' is not defined for '");
                text.append(lhs.to_text().as_str());
                text.append("' and '");
                text.append(rhs.to_text().as_str());
                text.append("'");
                text
            },
            SemanticErrorKind::InvalidUnary(op, operand) => {
                let mut text = "InvalidUnary: operator '".to_owned();
                text.append(op.to_text().as_str());
                text.append("' is not defined for '");
                text.append(operand.to_text().as_str());
                text.append("'");
                text
            },
            SemanticErrorKind::NotAFunction(ty) => {
                let mut text = "NotAFunction: '".to_owned();
                text.append(ty.to_text().as_str());
                text.append("' is not a function");
                text
            },
            SemanticErrorKind::ArityMismatch(params, args) => {
                let mut text = "ArityMismatch: expected ".to_owned();
                write_decimal(&mut text, *params as u128);
                text.append(" arguments, found ");
                write_decimal(&mut text, *args as u128);
                text
            },
            SemanticErrorKind::ParameterDeclaredVoid => {
                "ParameterDeclaredVoid: a parameter cannot have type 'void'".to_owned()
            },
            SemanticErrorKind::FieldDeclaredVoid(name) => {
                let mut text = "FieldDeclaredVoid: field '".to_owned();
                text.append(name.as_str());
                text.append("' cannot have type 'void'");
                text
            },
        }
    }
}

/// The first problem that analysis met: the span of the construct that
/// failed, and the kind of failure.
#[derive(Debug)]
pub struct SemanticError {
    pub span: Span,
    pub kind: SemanticErrorKind,
}

impl SemanticError {
    pub open spec fn view(&self) -> Failure {
        Failure { span: self.span, kind: self.kind@ }
    }

    pub fn new(span: Span, kind: SemanticErrorKind) -> (error: SemanticError)
        ensures
            error.span == span,
            error.kind == kind,
    {
        SemanticError { span, kind }
    }

    /// How the error is shown: the place, then the kind of error.
    pub open spec fn text(&self) -> Seq<char> {
        self.span.text() + ": "@ + self.kind.text()
    }

    /// What went wrong, without the place.
    pub fn description(&self) -> (text: String)
        ensures
            text@ == self.kind.text(),
    {
        self.kind.to_text()
    }

    /// The error as a message: the place, then what went wrong.
    pub fn message(&self) -> (text: String)
        ensures
            text@ == self.text(),
    {
        let mut text = self.span.to_text();
        text.append(": ");
        text.append(self.kind.to_text().as_str());
        text
    }
}

pub type CheckResult<T> = Result<T, SemanticError>;

} // verus!
