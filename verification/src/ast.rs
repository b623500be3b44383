//! The syntax tree, before and after analysis.

pub mod expr;
pub mod print;
pub mod ty;

pub use crate::ast::ty::Name;

use crate::ast::expr::Expr;
use crate::ast::ty::{tys_syntax, Field, FuncTy, Ty, TySyntax};
use crate::check::{CheckType, Unchecked};
use crate::parser::span::Span;
use vstd::prelude::*;

verus! {

pub struct Program<C: CheckType = Unchecked> {
    pub span: Span,
    pub stmts: Vec<Stmt<C>>,
}

impl<C: CheckType> Program<C> {
    pub fn new(span: Span, stmts: Vec<Stmt<C>>) -> (program: Program<C>)
        ensures
            program.span == span,
            program.stmts == stmts,
    {
        Program { span, stmts }
    }
}

pub struct Stmt<C: CheckType = Unchecked> {
    pub span: Span,
    pub kind: StmtKind<C>,
}

pub type Stmts<C = Unchecked> = Vec<Stmt<C>>;

pub enum StmtKind<C: CheckType = Unchecked> {
    Compound(Stmts<C>),
    If(Box<Expr<C>>, Box<Stmt<C>>, Option<Box<Stmt<C>>>),
    While(Box<Expr<C>>, Box<Stmt<C>>),
    Return(Box<Expr<C>>),
    Expr(Box<Expr<C>>),
    FuncDecl(Box<FuncDecl<C>>),
    TypeDecl(Box<TypeDecl<C>>),
}

impl<C: CheckType> Stmt<C> {
    pub fn new(span: Span, kind: StmtKind<C>) -> (stmt: Stmt<C>)
        ensures
            stmt.span == span,
            stmt.kind == kind,
    {
        Stmt { span, kind }
    }

    /// Whether the statement may stand at the top level of a program: a
    /// function or type declaration, or an expression statement that
    /// declares or assigns. This looks at the shape only.
    pub open spec fn spec_is_global_legal(&self) -> bool {
        match self.kind {
            StmtKind::FuncDecl(_) => true,
            StmtKind::TypeDecl(_) => true,
            StmtKind::Expr(expr) => expr.spec_is_global_legal(),
            _ => false,
        }
    }

    #[verifier::when_used_as_spec(spec_is_global_legal)]
    pub fn is_global_legal(&self) -> (legal: bool)
        ensures
            legal == self.spec_is_global_legal(),
    {
        match &self.kind {
            StmtKind::FuncDecl(_) => true,
            StmtKind::TypeDecl(_) => true,
            StmtKind::Expr(expr) => expr.is_global_legal(),
            _ => false,
        }
    }
}

pub struct FuncDecl<C: CheckType = Unchecked> {
    pub name: Name,
    pub params: Vec<Field<C>>,
    pub return_ty: Ty<C>,
    pub body: Stmt<C>,
}

/// The written types of a list of parameters, in order.
pub open spec fn param_tys<C>(params: Seq<Field<C>>) -> Seq<TySyntax> {
    Seq::new(params.len(), |i: int| params[i].ty.syntax())
}

impl<C: CheckType> FuncDecl<C> {
    pub fn new(name: Name, params: Vec<Field<C>>, return_ty: Ty<C>, body: Stmt<C>) -> (decl:
        FuncDecl<C>)
        ensures
            decl.name == name,
            decl.params == params,
            decl.return_ty == return_ty,
            decl.body == body,
    {
        FuncDecl { name, params, return_ty, body }
    }

    /// The function's signature: the types of its parameters, in order,
    /// and its return type, each written as in the declaration.
    pub fn ty(&self) -> (sig: FuncTy<C>)
        ensures
            tys_syntax(sig.params@) == param_tys(self.params@),
            sig.return_ty.syntax() == self.return_ty.syntax(),
    {
        let mut params: Vec<Ty<C>> = Vec::new();
        let mut i: usize = 0;
        while i < self.params.len()
            invariant
                i <= self.params.len(),
                params.len() == i,
                forall|j: int|
                    0 <= j < i ==> (#[trigger] params[j]).syntax() == self.params[j].ty.syntax(),
            decreases self.params.len() - i,
        {
            params.push(self.params[i].ty.clone());
            i += 1;
        }
        assert(tys_syntax(params@) =~= param_tys(self.params@));
        FuncTy::new(params, self.return_ty.clone())
    }
}

pub struct TypeDecl<C: CheckType = Unchecked> {
    pub name: Name,
    pub ty: Ty<C>,
}

impl<C: CheckType> TypeDecl<C> {
    pub fn new(name: Name, ty: Ty<C>) -> (decl: TypeDecl<C>)
        ensures
            decl.name == name,
            decl.ty == ty,
    {
        TypeDecl { name, ty }
    }
}

} // verus!
