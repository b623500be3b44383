//! Expressions.

use crate::ast::ty::{Field, Name, Ty};
use crate::check::{CheckType, Unchecked};
use crate::parser::span::Span;
use crate::utility::text::{signed_decimal, write_signed_decimal};
use vstd::prelude::*;
use vstd::string::*;

verus! {

/// An expression. After analysis `info` holds its resolved type; before,
/// it holds nothing.
pub struct Expr<C: CheckType = Unchecked> {
    pub span: Span,
    pub kind: ExprKind<C>,
    pub info: C::ExprInfo,
}

pub enum ExprKind<C: CheckType = Unchecked> {
    Binary(BinOpKind, Box<Expr<C>>, Box<Expr<C>>),
    Unary(UnOpKind, Box<Expr<C>>),
    Call(Box<Expr<C>>, Vec<Expr<C>>),
    Cast(Box<Expr<C>>, Ty<C>),
    Literal(Literal),
    Name(Name),
    Decl(Field<C>, Option<Box<Expr<C>>>),
}

#[derive(Debug, Clone, Copy, PartialEq, Eq, Structural)]
pub enum BinOpKind {
    Add,
    Sub,
    Mul,
    Div,
    Mod,
    Assign,
    Subscript,
}

#[derive(Debug, Clone, Copy, PartialEq, Eq, Structural)]
pub enum UnOpKind {
    Neg,
    Compl,
    Not,
    Deref,
    Ref,
}

#[derive(Debug, Clone, Copy, PartialEq, Eq, Structural)]
pub enum Literal {
    Integer(i64),
}

impl BinOpKind {
    /// The operator as it is written.
    pub open spec fn symbol(self) -> Seq<char> {
        match self {
            BinOpKind::Add => "+"@,
            BinOpKind::Sub => "-"@,
            BinOpKind::Mul => "*"@,
            BinOpKind::Div => "/"@,
            BinOpKind::Mod => "%"@,
            BinOpKind::Assign => "="@,
            BinOpKind::Subscript => "[]"@,
        }
    }

    /// The operator's name.
    pub open spec fn name(self) -> Seq<char> {
        match self {
            BinOpKind::Add => "Add"@,
            BinOpKind::Sub => "Sub"@,
            BinOpKind::Mul => "Mul"@,
            BinOpKind::Div => "Div"@,
            BinOpKind::Mod => "Mod"@,
            BinOpKind::Assign => "Assign"@,
            BinOpKind::Subscript => "Subscript"@,
        }
    }

    /// The operator as it is written, for messages.
    pub fn to_text(&self) -> (text: String)
        ensures
            text@ == self.symbol(),
    {
        match self {
            BinOpKind::Add => "+".to_owned(),
            BinOpKind::Sub => "-".to_owned(),
            BinOpKind::Mul => "*".to_owned(),
            BinOpKind::Div => "/".to_owned(),
            BinOpKind::Mod => "%".to_owned(),
            BinOpKind::Assign => "=".to_owned(),
            BinOpKind::Subscript => "[]".to_owned(),
        }
    }

    /// The operator's name, for the tree printer.
    pub fn to_name(&self) -> (text: String)
        ensures
            text@ == self.name(),
    {
        match self {
            BinOpKind::Add => "Add".to_owned(),
            BinOpKind::Sub => "Sub".to_owned(),
            BinOpKind::Mul => "Mul".to_owned(),
            BinOpKind::Div => "Div".to_owned(),
            BinOpKind::Mod => "Mod".to_owned(),
            BinOpKind::Assign => "Assign".to_owned(),
            BinOpKind::Subscript => "Subscript".to_owned(),
        }
    }
}

impl UnOpKind {
    /// The operator as it is written.
    pub open spec fn symbol(self) -> Seq<char> {
        match self {
            UnOpKind::Neg => "-"@,
            UnOpKind::Compl => "~"@,
            UnOpKind::Not => "!"@,
            UnOpKind::Deref => "*"@,
            UnOpKind::Ref => "&"@,
        }
    }

    /// The operator's name.
    pub open spec fn name(self) -> Seq<char> {
        match self {
            UnOpKind::Neg => "Neg"@,
            UnOpKind::Compl => "Compl"@,
            UnOpKind::Not => "Not"@,
            UnOpKind::Deref => "Deref"@,
            UnOpKind::Ref => "Ref"@,
        }
    }

    /// The operator as it is written, for messages.
    pub fn to_text(&self) -> (text: String)
        ensures
            text@ == self.symbol(),
    {
        match self {
            UnOpKind::Neg => "-".to_owned(),
            UnOpKind::Compl => "~".to_owned(),
            UnOpKind::Not => "!".to_owned(),
            UnOpKind::Deref => "*".to_owned(),
            UnOpKind::Ref => "&".to_owned(),
        }
    }

    /// The operator's name, for the tree printer.
    pub fn to_name(&self) -> (text: String)
        ensures
            text@ == self.name(),
    {
        match self {
            UnOpKind::Neg => "Neg".to_owned(),
            UnOpKind::Compl => "Compl".to_owned(),
            UnOpKind::Not => "Not".to_owned(),
            UnOpKind::Deref => "Deref".to_owned(),
            UnOpKind::Ref => "Ref".to_owned(),
        }
    }
}

impl Literal {
    /// How the literal is shown: its kind, and its value in decimal.
    pub open spec fn text(self) -> Seq<char> {
        match self {
            Literal::Integer(value) => "Integer("@ + signed_decimal(value as int) + ")"@,
        }
    }

    /// The literal as text, for the tree printer.
    pub fn to_text(&self) -> (text: String)
        ensures
            text@ == self.text(),
    {
        match self {
            Literal::Integer(value) => {
                let mut text = "Integer(".to_owned();
                write_signed_decimal(&mut text, *value);
                text.append(")");
                text
            },
        }
    }
}

impl<C: CheckType> Expr<C> {
    pub fn new(span: Span, kind: ExprKind<C>, info: C::ExprInfo) -> (expr: Expr<C>)
        ensures
            expr.span == span,
            expr.kind == kind,
            expr.info == info,
    {
        Expr { span, kind, info }
    }

    /// Whether the expression may stand as a statement at the top level:
    /// a declaration or an assignment, nothing else.
    pub open spec fn spec_is_global_legal(&self) -> bool {
        match self.kind {
            ExprKind::Decl(_, _) => true,
            ExprKind::Binary(BinOpKind::Assign, _, _) => true,
            _ => false,
        }
    }

    #[verifier::when_used_as_spec(spec_is_global_legal)]
    pub fn is_global_legal(&self) -> (legal: bool)
        ensures
            legal == self.spec_is_global_legal(),
    {
        match &self.kind {
            ExprKind::Decl(_, _) => true,
            ExprKind::Binary(BinOpKind::Assign, _, _) => true,
            _ => false,
        }
    }
}

impl Expr<Unchecked> {
    /// An expression as the parser makes it.
    pub fn unchecked(span: Span, kind: ExprKind<Unchecked>) -> (expr: Expr<Unchecked>)
        ensures
            expr.span == span,
            expr.kind == kind,
    {
        Expr::new(span, kind, ())
    }
}

} // verus!
