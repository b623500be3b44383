//! The checker: walks the tree the parser made and builds the analysed
//! tree, or stops at the first semantic error.

use crate::ast::expr::{BinOpKind, Expr, ExprKind, Literal, UnOpKind};
use crate::ast::ty::{
    fields_syntax, tys_sem, tys_syntax, Field, FuncTy, Name, StructTy, Ty, TyKind, TyView,
};
use crate::ast::{FuncDecl, Program, Stmt, StmtKind, Stmts, TypeDecl};
use crate::check::annotation::{
    expr_annotated, expr_outcome, exprs_annotated, exprs_outcome,
    lemma_exprs_annotated_element, lemma_exprs_annotated_prefix, lemma_exprs_typed_len,
    lemma_program_annotated_prefix, lemma_stmts_annotated_prefix, program_annotated,
    program_outcome, stmt_outcome, stmts_annotated, stmts_outcome,
};
use crate::check::environment::{
    empty_frame, env_enter, env_enter_func, Binding, EnvView, Environment,
};
use crate::check::rules::{
    args_failure, condition_step, convert_failure, declare_step, each_step, expr_spans,
    exprs_typed, forward_step, lemma_args_failure_stays, lemma_each_step_stays,
    lemma_exprs_typed_stays, lemma_forward_step_stays, lemma_param_tys_failure_stays,
    lemma_slots_step_stays, lemma_top_level_steps_stays, lemma_tys_failure_stays,
    param_ty_failure, param_tys_failure, signature_failure, slot_step, slots_step,
    top_level_steps, ty_failure, tys_failure, Slot,
};
use crate::check::{CheckResult, Checked, SemanticError, SemanticErrorKind, Unchecked};
use crate::parser::span::Span;
use vstd::prelude::*;

verus! {

/// The semantic analyser. It holds the scopes in force where it stands.
pub struct Checker<'e> {
    env: Environment<'e>,
}

impl<'e> Checker<'e> {
    /// The scopes in force, innermost first.
    pub closed spec fn view(&self) -> EnvView {
        self.env@
    }

    /// A checker for a fresh compilation: one scope, nothing declared.
    pub fn new() -> (checker: Checker<'e>)
        ensures
            checker@ == seq![empty_frame(None)],
    {
        Checker { env: Environment::new() }
    }

    /// A checker for a scope opened inside the current one.
    fn enter<'a>(&'a self) -> (child: Checker<'a>)
        ensures
            child@ == env_enter(self@),
    {
        Checker { env: self.env.enter() }
    }

    /// A checker for the body of a function that returns `return_ty`.
    fn enter_func<'a>(&'a self, return_ty: Ty<Checked>) -> (child: Checker<'a>)
        ensures
            child@ == env_enter_func(self@, return_ty@),
    {
        Checker { env: self.env.enter_func(return_ty) }
    }

    /// Validates a written type against the environment. The type comes
    /// back as it was written.
    pub fn check_ty(&self, unchecked: Ty) -> (result: CheckResult<Ty<Checked>>)
        ensures
            match ty_failure(self@, unchecked.syntax()) {
                None => result matches Ok(ty) && ty.syntax() == unchecked.syntax(),
                Some(failure) => result matches Err(error) && error@ == failure,
            },
        decreases unchecked,
    {
        let span = unchecked.span;
        match unchecked.kind {
            TyKind::U8 => Ok(Ty::new(span, TyKind::U8)),
            TyKind::Void => Ok(Ty::new(span, TyKind::Void)),
            TyKind::Alias(name) => {
                match self.env.alias(&name) {
                    Some(_) => Ok(Ty::new(span, TyKind::Alias(name))),
                    None => Err(SemanticError::new(span, SemanticErrorKind::Undefined(name))),
                }
            },
            TyKind::Ptr(inner) => {
                match self.check_ty(*inner) {
                    Ok(ty) => Ok(Ty::new(span, TyKind::Ptr(Box::new(ty)))),
                    Err(error) => Err(error),
                }
            },
            TyKind::Func(func) => {
                match self.check_func_ty(*func) {
                    Ok(func) => Ok(Ty::new(span, TyKind::Func(Box::new(func)))),
                    Err(error) => Err(error),
                }
            },
            TyKind::Struct(strukt) => {
                let strukt = *strukt;
                let mut scope = self.enter();
                match scope.check_slots(strukt.fields, Slot::Field) {
                    Ok(fields) => Ok(
                        Ty::new(span, TyKind::Struct(Box::new(StructTy::new(fields)))),
                    ),
                    Err(error) => Err(error),
                }
            },
            TyKind::Paren(inner) => {
                match self.check_ty(*inner) {
                    Ok(ty) => Ok(Ty::new(span, TyKind::Paren(Box::new(ty)))),
                    Err(error) => Err(error),
                }
            },
        }
    }

    /// Validates a list of types in order.
    pub fn check_tys(&self, unchecked: Vec<Ty>) -> (result: CheckResult<Vec<Ty<Checked>>>)
        ensures
            match tys_failure(self@, tys_syntax(unchecked@), unchecked.len() as nat) {
                None => result matches Ok(tys) && tys_syntax(tys@) == tys_syntax(unchecked@),
                Some(failure) => result matches Err(error) && error@ == failure,
            },
        decreases unchecked, 0nat,
    {
        let ghost written = tys_syntax(unchecked@);
        let ghost items = unchecked@;
        let mut checked: Vec<Ty<Checked>> = Vec::new();
        for ty in iter: unchecked
            invariant
                iter.seq() == items,
                items == unchecked@,
                written == tys_syntax(items),
                checked.len() == iter.index(),
                tys_failure(self@, written, iter.index() as nat) is None,
                forall|j: int|
                    0 <= j < checked.len() ==> (#[trigger] checked[j]).syntax() == written[j],
                forall|j: int|
                    0 <= j < items.len() ==> decreases_to!(unchecked => #[trigger] items[j]),
        {
            assert(ty == items[iter.index()]);
            assert(ty.syntax() == written[iter.index()]);
            match self.check_ty(ty) {
                Ok(ty) => {
                    checked.push(ty);
                },
                Err(error) => {
                    proof {
                        lemma_tys_failure_stays(
                            self@,
                            written,
                            iter.index() as nat + 1,
                            written.len(),
                        );
                    }
                    return Err(error);
                },
            }
        }
        assert(tys_syntax(checked@) =~= written);
        Ok(checked)
    }

    /// Validates the parameter types of a function type in order: none may
    /// be the empty type.
    pub fn check_param_tys(&self, unchecked: Vec<Ty>) -> (result: CheckResult<Vec<Ty<Checked>>>)
        ensures
            match param_tys_failure(self@, tys_syntax(unchecked@), unchecked.len() as nat) {
                None => result matches Ok(tys) && tys_syntax(tys@) == tys_syntax(unchecked@),
                Some(failure) => result matches Err(error) && error@ == failure,
            },
        decreases unchecked, 0nat,
    {
        let ghost written = tys_syntax(unchecked@);
        let ghost items = unchecked@;
        let mut checked: Vec<Ty<Checked>> = Vec::new();
        for ty in iter: unchecked
            invariant
                iter.seq() == items,
                items == unchecked@,
                written == tys_syntax(items),
                checked.len() == iter.index(),
                param_tys_failure(self@, written, iter.index() as nat) is None,
                forall|j: int|
                    0 <= j < checked.len() ==> (#[trigger] checked[j]).syntax() == written[j],
                forall|j: int|
                    0 <= j < items.len() ==> decreases_to!(unchecked => #[trigger] items[j]),
        {
            assert(ty == items[iter.index()]);
            assert(ty.syntax() == written[iter.index()]);
            match self.check_ty(ty) {
                Ok(ty) => {
                    if ty.is_void() {
                        proof {
                            assert(param_ty_failure(self@, written[iter.index()]) is Some);
                            lemma_param_tys_failure_stays(
                                self@,
                                written,
                                iter.index() as nat + 1,
                                written.len(),
                            );
                        }
                        return Err(
                            SemanticError::new(ty.span, SemanticErrorKind::ParameterDeclaredVoid),
                        );
                    }
                    checked.push(ty);
                },
                Err(error) => {
                    proof {
                        lemma_param_tys_failure_stays(
                            self@,
                            written,
                            iter.index() as nat + 1,
                            written.len(),
                        );
                    }
                    return Err(error);
                },
            }
        }
        assert(tys_syntax(checked@) =~= written);
        Ok(checked)
    }

    /// Validates a function signature: parameter types first, then the
    /// return type, which may be the empty type.
    pub fn check_func_ty(&self, unchecked: FuncTy) -> (result: CheckResult<FuncTy<Checked>>)
        ensures
            match signature_failure(
                self@,
                tys_syntax(unchecked.params@),
                unchecked.return_ty.syntax(),
            ) {
                None => result matches Ok(func) && tys_syntax(func.params@) == tys_syntax(
                    unchecked.params@,
                ) && func.return_ty.syntax() == unchecked.return_ty.syntax(),
                Some(failure) => result matches Err(error) && error@ == failure,
            },
        decreases unchecked,
    {
        let params = match self.check_param_tys(unchecked.params) {
            Ok(params) => params,
            Err(error) => {
                return Err(error);
            },
        };
        match self.check_ty(unchecked.return_ty) {
            Ok(return_ty) => Ok(FuncTy::new(params, return_ty)),
            Err(error) => Err(error),
        }
    }

    /// Declares a slot in the current scope and hands it back checked.
    fn check_slot(&mut self, unchecked: Field, slot: Slot) -> (result: CheckResult<Field<Checked>>)
        ensures
            final(self)@ == slot_step(old(self)@, unchecked.syntax(), slot).env,
            match slot_step(old(self)@, unchecked.syntax(), slot).failure {
                None => result matches Ok(field) && field.syntax() == unchecked.syntax(),
                Some(failure) => result matches Err(error) && error@ == failure,
            },
        decreases unchecked,
    {
        let span = unchecked.span;
        let name = unchecked.name;
        let ty = match self.check_ty(unchecked.ty) {
            Ok(ty) => ty,
            Err(error) => {
                return Err(error);
            },
        };
        if ty.is_void() {
            let kind = match slot {
                Slot::Field => SemanticErrorKind::FieldDeclaredVoid(name),
                Slot::Param => SemanticErrorKind::ParameterDeclaredVoid,
            };
            return Err(SemanticError::new(ty.span, kind));
        }
        let binding = Binding { span, name: name.clone(), ty: ty.clone() };
        match self.env.declare_binding(binding) {
            Ok(()) => Ok(Field::new(span, name, ty)),
            Err(error) => Err(error),
        }
    }

    /// Declares a list of slots in the current scope, in order.
    fn check_slots(&mut self, unchecked: Vec<Field>, slot: Slot) -> (result: CheckResult<
        Vec<Field<Checked>>,
    >)
        ensures
            final(self)@ == slots_step(
                old(self)@,
                fields_syntax(unchecked@),
                unchecked.len() as nat,
                slot,
            ).env,
            match slots_step(
                old(self)@,
                fields_syntax(unchecked@),
                unchecked.len() as nat,
                slot,
            ).failure {
                None => result matches Ok(fields) && fields_syntax(fields@) == fields_syntax(
                    unchecked@,
                ),
                Some(failure) => result matches Err(error) && error@ == failure,
            },
        decreases unchecked, 0nat,
    {
        let ghost written = fields_syntax(unchecked@);
        let ghost items = unchecked@;
        let ghost start = self@;
        let mut checked: Vec<Field<Checked>> = Vec::new();
        for field in iter: unchecked
            invariant
                start == old(self)@,
                iter.seq() == items,
                items == unchecked@,
                written == fields_syntax(items),
                checked.len() == iter.index(),
                slots_step(start, written, iter.index() as nat, slot).failure is None,
                self@ == slots_step(start, written, iter.index() as nat, slot).env,
                forall|j: int|
                    0 <= j < checked.len() ==> (#[trigger] checked[j]).syntax() == written[j],
                forall|j: int|
                    0 <= j < items.len() ==> decreases_to!(unchecked => #[trigger] items[j]),
        {
            assert(field == items[iter.index()]);
            assert(field.syntax() == written[iter.index()]);
            match self.check_slot(field, slot) {
                Ok(field) => {
                    checked.push(field);
                },
                Err(error) => {
                    proof {
                        lemma_slots_step_stays(
                            start,
                            written,
                            iter.index() as nat + 1,
                            written.len(),
                            slot,
                        );
                    }
                    return Err(error);
                },
            }
        }
        assert(fields_syntax(checked@) =~= written);
        Ok(checked)
    }

    /// Checks a field or a declared variable: its type must be valid and
    /// not the empty type, and its name new to the current scope, in which
    /// it is then bound.
    pub fn check_field(&mut self, unchecked: Field) -> (result: CheckResult<Field<Checked>>)
        ensures
            final(self)@ == slot_step(old(self)@, unchecked.syntax(), Slot::Field).env,
            match slot_step(old(self)@, unchecked.syntax(), Slot::Field).failure {
                None => result matches Ok(field) && field.syntax() == unchecked.syntax(),
                Some(failure) => result matches Err(error) && error@ == failure,
            },
    {
        self.check_slot(unchecked, Slot::Field)
    }

    /// Checks a list of fields in order, each bound in the current scope
    /// before the next is looked at.
    pub fn check_fields(&mut self, unchecked: Vec<Field>) -> (result: CheckResult<
        Vec<Field<Checked>>,
    >)
        ensures
            final(self)@ == slots_step(
                old(self)@,
                fields_syntax(unchecked@),
                unchecked.len() as nat,
                Slot::Field,
            ).env,
            match slots_step(
                old(self)@,
                fields_syntax(unchecked@),
                unchecked.len() as nat,
                Slot::Field,
            ).failure {
                None => result matches Ok(fields) && fields_syntax(fields@) == fields_syntax(
                    unchecked@,
                ),
                Some(failure) => result matches Err(error) && error@ == failure,
            },
    {
        self.check_slots(unchecked, Slot::Field)
    }

    /// Accepts an analysed expression where `expected` is required: only
    /// an expression of exactly that type converts.
    pub fn implicit_convert(&self, actual: Expr<Checked>, expected: &Ty<Checked>) -> (result:
        CheckResult<Expr<Checked>>)
        ensures
            match convert_failure(actual.span, expected@, actual.info@) {
                None => result == Ok::<_, SemanticError>(actual),
                Some(failure) => result matches Err(error) && error@ == failure,
            },
    {
        if actual.info == *expected {
            return Ok(actual);
        }
        let kind = SemanticErrorKind::TypeError(expected.clone(), actual.info);
        Err(SemanticError::new(actual.span, kind))
    }

    /// Analyses an expression: resolves its names, checks its operands and
    /// fills in its type.
    pub fn check_expr(&mut self, unchecked: Expr) -> (result: CheckResult<Expr<Checked>>)
        ensures
            expr_outcome(old(self)@, unchecked, final(self)@, result),
        decreases unchecked, 1nat,
    {
        let ghost whole = unchecked;
        let span = unchecked.span;
        let checked = match unchecked.kind {
            ExprKind::Binary(op, lhs, rhs) => self.check_binary(span, op, *lhs, *rhs, Ghost(whole)),
            ExprKind::Unary(op, operand) => self.check_unary(span, op, *operand, Ghost(whole)),
            ExprKind::Call(callee, args) => self.check_call(span, *callee, args, Ghost(whole)),
            ExprKind::Cast(operand, ty) => self.check_cast(span, *operand, ty, Ghost(whole)),
            ExprKind::Literal(literal) => self.check_literal(span, literal, Ghost(whole)),
            ExprKind::Name(name) => self.check_name(span, name, Ghost(whole)),
            ExprKind::Decl(field, init) => self.check_decl(span, field, init, Ghost(whole)),
        };
        match checked {
            Ok((ty, kind)) => Ok(Expr::new(span, kind, ty)),
            Err(error) => Err(error),
        }
    }

    /// Analyses a list of expressions from left to right.
    pub fn check_exprs(&mut self, unchecked: Vec<Expr>) -> (result: CheckResult<Vec<Expr<Checked>>>)
        ensures
            exprs_outcome(old(self)@, unchecked@, final(self)@, result),
        decreases unchecked, 0nat,
    {
        let ghost items = unchecked@;
        let ghost start = self@;
        let mut checked: Vec<Expr<Checked>> = Vec::new();
        for expr in iter: unchecked
            invariant
                iter.seq() == items,
                items == unchecked@,
                start == old(self)@,
                checked.len() == iter.index(),
                exprs_typed(start, items, iter.index() as nat).result is Ok,
                self@ == exprs_typed(start, items, iter.index() as nat).env,
                exprs_annotated(checked@, items, start, iter.index() as nat),
                forall|j: int|
                    0 <= j < items.len() ==> decreases_to!(unchecked => #[trigger] items[j]),
        {
            let ghost i = iter.index() as nat;
            let ghost before = checked@;
            assert(expr == items[i as int]);
            match self.check_expr(expr) {
                Ok(expr) => {
                    checked.push(expr);
                    proof {
                        lemma_exprs_annotated_prefix(before, checked@, items, start, i);
                    }
                },
                Err(error) => {
                    proof {
                        lemma_exprs_typed_stays(start, items, i + 1, items.len());
                    }
                    return Err(error);
                },
            }
        }
        Ok(checked)
    }

    fn check_binary(
        &mut self,
        span: Span,
        op: BinOpKind,
        lhs: Expr,
        rhs: Expr,
        Ghost(whole): Ghost<Expr>,
    ) -> (result: CheckResult<(Ty<Checked>, ExprKind<Checked>)>)
        requires
            whole.span == span,
            whole.kind == ExprKind::<Unchecked>::Binary(op, Box::new(lhs), Box::new(rhs)),
        ensures
            expr_outcome(old(self)@, whole, final(self)@, as_expr(span, result)),
        decreases whole, 0nat,
    {
        let lhs = match self.check_expr(lhs) {
            Ok(lhs) => lhs,
            Err(error) => {
                return Err(error);
            },
        };
        assert(whole.kind matches ExprKind::Binary(_, _, right) && *right == rhs);
        let rhs = match self.check_expr(rhs) {
            Ok(rhs) => rhs,
            Err(error) => {
                return Err(error);
            },
        };
        if lhs.info == rhs.info {
            let ty = lhs.info.clone();
            Ok((ty, ExprKind::Binary(op, Box::new(lhs), Box::new(rhs))))
        } else {
            let kind = SemanticErrorKind::InvalidBinary(op, lhs.info, rhs.info);
            Err(SemanticError::new(span, kind))
        }
    }

    fn check_unary(&mut self, span: Span, op: UnOpKind, operand: Expr, Ghost(whole): Ghost<Expr>)
        -> (result: CheckResult<(Ty<Checked>, ExprKind<Checked>)>)
        requires
            whole.span == span,
            whole.kind == ExprKind::<Unchecked>::Unary(op, Box::new(operand)),
        ensures
            expr_outcome(old(self)@, whole, final(self)@, as_expr(span, result)),
        decreases whole, 0nat,
    {
        let operand = match self.check_expr(operand) {
            Ok(operand) => operand,
            Err(error) => {
                return Err(error);
            },
        };
        match op {
            UnOpKind::Deref => {
                match operand.info.clone().dereference() {
                    Some(ty) => Ok((ty, ExprKind::Unary(op, Box::new(operand)))),
                    None => {
                        let kind = SemanticErrorKind::InvalidUnary(op, operand.info);
                        Err(SemanticError::new(span, kind))
                    },
                }
            },
            UnOpKind::Ref => {
                let ty = operand.info.clone().reference();
                Ok((ty, ExprKind::Unary(op, Box::new(operand))))
            },
            _ => {
                let kind = SemanticErrorKind::InvalidUnary(op, operand.info);
                Err(SemanticError::new(span, kind))
            },
        }
    }

    #[verifier::loop_isolation(false)]
    fn check_call(&mut self, span: Span, callee: Expr, args: Vec<Expr>, Ghost(whole): Ghost<Expr>)
        -> (result: CheckResult<(Ty<Checked>, ExprKind<Checked>)>)
        requires
            whole.span == span,
            whole.kind == ExprKind::<Unchecked>::Call(Box::new(callee), args),
        ensures
            expr_outcome(old(self)@, whole, final(self)@, as_expr(span, result)),
        decreases whole, 0nat,
    {
        let ghost start = self@;
        let ghost unchecked_args = args@;
        let callee = match self.check_expr(callee) {
            Ok(callee) => callee,
            Err(error) => {
                return Err(error);
            },
        };
        let ghost target = self@;
        if callee.info.as_func().is_none() {
            let kind = SemanticErrorKind::NotAFunction(callee.info);
            return Err(SemanticError::new(callee.span, kind));
        }
        let func = callee.info.as_func().unwrap();
        let ghost params = tys_sem(tys_syntax(func.params@));
        let return_ty = func.return_ty.clone();
        let args = match self.check_exprs(args) {
            Ok(args) => args,
            Err(error) => {
                return Err(error);
            },
        };
        let ghost given = exprs_typed(target, unchecked_args, unchecked_args.len());
        let ghost tys = given.result->Ok_0;
        let ghost spans = expr_spans(unchecked_args);
        proof {
            lemma_exprs_typed_len(target, unchecked_args, unchecked_args.len());
        }
        if args.len() != func.params.len() {
            let kind = SemanticErrorKind::ArityMismatch(func.params.len(), args.len());
            return Err(SemanticError::new(span, kind));
        }
        let ghost analysed = args@;
        let mut converted: Vec<Expr<Checked>> = Vec::new();
        let mut i: usize = 0;
        for arg in iter: args
            invariant
                iter.seq() == analysed,
                analysed.len() == unchecked_args.len(),
                analysed.len() == func.params.len(),
                i == iter.index(),
                converted.len() == i,
                params == tys_sem(tys_syntax(func.params@)),
                tys.len() == unchecked_args.len(),
                spans == expr_spans(unchecked_args),
                given == exprs_typed(target, unchecked_args, unchecked_args.len()),
                given.result == Ok::<_, crate::check::Failure>(tys),
                exprs_annotated(analysed, unchecked_args, target, unchecked_args.len()),
                args_failure(params, spans, tys, i as nat) is None,
                forall|j: int| 0 <= j < i ==> converted[j] == analysed[j],
        {
            assert(arg == analysed[i as int]);
            proof {
                lemma_exprs_annotated_element(
                    analysed,
                    unchecked_args,
                    target,
                    unchecked_args.len(),
                    i as int,
                );
            }
            match self.implicit_convert(arg, &func.params[i]) {
                Ok(arg) => {
                    converted.push(arg);
                },
                Err(error) => {
                    proof {
                        lemma_args_failure_stays(params, spans, tys, i as nat + 1, tys.len());
                    }
                    return Err(error);
                },
            }
            i += 1;
        }
        assert(converted@ =~= analysed);
        Ok((return_ty, ExprKind::Call(Box::new(callee), converted)))
    }

    fn check_cast(&mut self, span: Span, operand: Expr, ty: Ty, Ghost(whole): Ghost<Expr>)
        -> (result: CheckResult<(Ty<Checked>, ExprKind<Checked>)>)
        requires
            whole.span == span,
            whole.kind == ExprKind::<Unchecked>::Cast(Box::new(operand), ty),
        ensures
            expr_outcome(old(self)@, whole, final(self)@, as_expr(span, result)),
        decreases whole, 0nat,
    {
        let operand = match self.check_expr(operand) {
            Ok(operand) => operand,
            Err(error) => {
                return Err(error);
            },
        };
        match self.check_ty(ty) {
            Ok(ty) => Ok((ty.clone(), ExprKind::Cast(Box::new(operand), ty))),
            Err(error) => Err(error),
        }
    }

    fn check_literal(&self, span: Span, literal: Literal, Ghost(whole): Ghost<Expr>) -> (result:
        CheckResult<(Ty<Checked>, ExprKind<Checked>)>)
        requires
            whole.span == span,
            whole.kind == ExprKind::<Unchecked>::Literal(literal),
        ensures
            expr_outcome(self@, whole, self@, as_expr(span, result)),
    {
        let ty = match literal {
            Literal::Integer(_) => Ty::new(span, TyKind::U8),
        };
        Ok((ty, ExprKind::Literal(literal)))
    }

    fn check_name(&self, span: Span, name: Name, Ghost(whole): Ghost<Expr>) -> (result: CheckResult<
        (Ty<Checked>, ExprKind<Checked>),
    >)
        requires
            whole.span == span,
            whole.kind == ExprKind::<Unchecked>::Name(name),
        ensures
            expr_outcome(self@, whole, self@, as_expr(span, result)),
    {
        match self.env.binding(&name) {
            Some(binding) => Ok((binding.ty.clone(), ExprKind::Name(name))),
            None => Err(SemanticError::new(span, SemanticErrorKind::Undefined(name))),
        }
    }

    fn check_decl(
        &mut self,
        span: Span,
        field: Field,
        init: Option<Box<Expr>>,
        Ghost(whole): Ghost<Expr>,
    ) -> (result: CheckResult<(Ty<Checked>, ExprKind<Checked>)>)
        requires
            whole.span == span,
            whole.kind == ExprKind::<Unchecked>::Decl(field, init),
        ensures
            expr_outcome(old(self)@, whole, final(self)@, as_expr(span, result)),
        decreases whole, 0nat,
    {
        let field = match self.check_field(field) {
            Ok(field) => field,
            Err(error) => {
                return Err(error);
            },
        };
        match init {
            None => Ok((Ty::void(span), ExprKind::Decl(field, None))),
            Some(value) => {
                let value = match self.check_expr(*value) {
                    Ok(value) => value,
                    Err(error) => {
                        return Err(error);
                    },
                };
                match self.implicit_convert(value, &field.ty) {
                    Ok(value) => Ok(
                        (field.ty.clone(), ExprKind::Decl(field, Some(Box::new(value)))),
                    ),
                    Err(error) => Err(error),
                }
            },
        }
    }

    /// Checks the condition of an `if` or a `while`.
    fn check_condition(&mut self, cond: Expr) -> (result: CheckResult<Expr<Checked>>)
        ensures
            final(self)@ == condition_step(old(self)@, cond).env,
            match condition_step(old(self)@, cond).failure {
                None => result matches Ok(checked) && expr_annotated(checked, cond, old(self)@),
                Some(failure) => result matches Err(error) && error@ == failure,
            },
    {
        let cond = match self.check_expr(cond) {
            Ok(cond) => cond,
            Err(error) => {
                return Err(error);
            },
        };
        self.implicit_convert(cond, &bool_ty())
    }

    /// Forward declaration of one statement.
    fn declare_stmt(&mut self, stmt: &Stmt) -> (result: CheckResult<()>)
        ensures
            final(self)@ == declare_step(old(self)@, *stmt).env,
            match declare_step(old(self)@, *stmt).failure {
                None => result is Ok,
                Some(failure) => result matches Err(error) && error@ == failure,
            },
    {
        match &stmt.kind {
            StmtKind::FuncDecl(decl) => {
                let sig = match self.check_func_ty(decl.ty()) {
                    Ok(sig) => sig,
                    Err(error) => {
                        return Err(error);
                    },
                };
                let ty = Ty::new(stmt.span, TyKind::Func(Box::new(sig)));
                let binding = Binding { span: stmt.span, name: decl.name.clone(), ty };
                self.env.declare_binding(binding)
            },
            StmtKind::TypeDecl(decl) => {
                let ty = match self.check_ty(decl.ty.clone()) {
                    Ok(ty) => ty,
                    Err(error) => {
                        return Err(error);
                    },
                };
                let alias = Binding { span: stmt.span, name: decl.name.clone(), ty };
                self.env.declare_alias(alias)
            },
            _ => Ok(()),
        }
    }

    /// Binds the functions and types that a list of statements declares,
    /// in their order, before any body is looked at: so the statements of
    /// one scope may refer to each other whatever their order.
    pub fn forward_declare(&mut self, unchecked: &Stmts) -> (result: CheckResult<()>)
        ensures
            final(self)@ == forward_step(old(self)@, unchecked@, unchecked.len() as nat).env,
            match forward_step(old(self)@, unchecked@, unchecked.len() as nat).failure {
                None => result is Ok,
                Some(failure) => result matches Err(error) && error@ == failure,
            },
    {
        let mut i: usize = 0;
        while i < unchecked.len()
            invariant
                i <= unchecked.len(),
                forward_step(old(self)@, unchecked@, i as nat).failure is None,
                self@ == forward_step(old(self)@, unchecked@, i as nat).env,
            decreases unchecked.len() - i,
        {
            match self.declare_stmt(&unchecked[i]) {
                Ok(()) => {},
                Err(error) => {
                    proof {
                        lemma_forward_step_stays(
                            old(self)@,
                            unchecked@,
                            i as nat + 1,
                            unchecked.len() as nat,
                        );
                    }
                    return Err(error);
                },
            }
            i += 1;
        }
        Ok(())
    }

    /// Analyses a program: forward-declares its top level, then analyses
    /// each statement in order. Only declarations of functions and types
    /// and expression statements that declare or assign may stand at the
    /// top level.
    pub fn check_program(&mut self, unchecked: Program) -> (result: CheckResult<Program<Checked>>)
        ensures
            program_outcome(old(self)@, unchecked, final(self)@, result),
    {
        let span = unchecked.span;
        match self.forward_declare(&unchecked.stmts) {
            Ok(()) => {},
            Err(error) => {
                return Err(error);
            },
        }
        let ghost items = unchecked.stmts@;
        let ghost start = self@;
        let mut checked: Vec<Stmt<Checked>> = Vec::new();
        for stmt in iter: unchecked.stmts
            invariant
                iter.seq() == items,
                items == unchecked.stmts@,
                start == forward_step(old(self)@, items, items.len()).env,
                forward_step(old(self)@, items, items.len()).failure is None,
                checked.len() == iter.index(),
                top_level_steps(start, items, iter.index() as nat).failure is None,
                self@ == top_level_steps(start, items, iter.index() as nat).env,
                program_annotated(checked@, items, start, iter.index() as nat),
        {
            let ghost i = iter.index() as nat;
            let ghost before = checked@;
            assert(stmt == items[i as int]);
            if !stmt.is_global_legal() {
                proof {
                    lemma_top_level_steps_stays(start, items, i + 1, items.len());
                }
                return Err(SemanticError::new(stmt.span, SemanticErrorKind::IllegalStatement));
            }
            match self.check_stmt(stmt) {
                Ok(stmt) => {
                    checked.push(stmt);
                    proof {
                        lemma_program_annotated_prefix(before, checked@, items, start, i);
                    }
                },
                Err(error) => {
                    proof {
                        lemma_top_level_steps_stays(start, items, i + 1, items.len());
                    }
                    return Err(error);
                },
            }
        }
        Ok(Program::new(span, checked))
    }

    /// Analyses a statement.
    pub fn check_stmt(&mut self, unchecked: Stmt) -> (result: CheckResult<Stmt<Checked>>)
        ensures
            stmt_outcome(old(self)@, unchecked, final(self)@, result),
        decreases unchecked, 1nat,
    {
        let ghost whole = unchecked;
        let span = unchecked.span;
        let checked = match unchecked.kind {
            StmtKind::Compound(stmts) => self.check_compound(span, stmts, Ghost(whole)),
            StmtKind::If(cond, consequent, None) => self.check_if(
                span,
                *cond,
                *consequent,
                Ghost(whole),
            ),
            StmtKind::If(cond, consequent, Some(alternative)) => self.check_if_else(
                span,
                *cond,
                *consequent,
                *alternative,
                Ghost(whole),
            ),
            StmtKind::While(cond, body) => self.check_while(span, *cond, *body, Ghost(whole)),
            StmtKind::Return(value) => self.check_return(span, *value, Ghost(whole)),
            StmtKind::Expr(expr) => self.check_expr_stmt(span, *expr, Ghost(whole)),
            StmtKind::FuncDecl(decl) => self.check_func_decl(span, *decl, Ghost(whole)),
            StmtKind::TypeDecl(decl) => self.check_type_decl(span, *decl, Ghost(whole)),
        };
        match checked {
            Ok(kind) => Ok(Stmt::new(span, kind)),
            Err(error) => Err(error),
        }
    }

    /// Analyses the statements of one scope: forward-declares them all,
    /// then analyses each in order.
    pub fn check_stmts(&mut self, unchecked: Stmts) -> (result: CheckResult<Stmts<Checked>>)
        ensures
            stmts_outcome(old(self)@, unchecked@, final(self)@, result),
        decreases unchecked, 0nat,
    {
        match self.forward_declare(&unchecked) {
            Ok(()) => {},
            Err(error) => {
                return Err(error);
            },
        }
        let ghost items = unchecked@;
        let ghost start = self@;
        let mut checked: Vec<Stmt<Checked>> = Vec::new();
        for stmt in iter: unchecked
            invariant
                iter.seq() == items,
                items == unchecked@,
                start == forward_step(old(self)@, items, items.len()).env,
                forward_step(old(self)@, items, items.len()).failure is None,
                checked.len() == iter.index(),
                each_step(start, items, iter.index() as nat).failure is None,
                self@ == each_step(start, items, iter.index() as nat).env,
                stmts_annotated(checked@, items, start, iter.index() as nat),
                forall|j: int|
                    0 <= j < items.len() ==> decreases_to!(unchecked => #[trigger] items[j]),
        {
            let ghost i = iter.index() as nat;
            let ghost before = checked@;
            assert(stmt == items[i as int]);
            match self.check_stmt(stmt) {
                Ok(stmt) => {
                    checked.push(stmt);
                    proof {
                        lemma_stmts_annotated_prefix(before, checked@, items, start, i);
                    }
                },
                Err(error) => {
                    proof {
                        lemma_each_step_stays(start, items, i + 1, items.len());
                    }
                    return Err(error);
                },
            }
        }
        Ok(checked)
    }

    fn check_compound(&mut self, span: Span, stmts: Stmts, Ghost(whole): Ghost<Stmt>) -> (result:
        CheckResult<StmtKind<Checked>>)
        requires
            whole.span == span,
            whole.kind == StmtKind::<Unchecked>::Compound(stmts),
        ensures
            stmt_outcome(old(self)@, whole, final(self)@, as_stmt(span, result)),
        decreases whole, 0nat,
    {
        let mut scope = self.enter();
        match scope.check_stmts(stmts) {
            Ok(stmts) => Ok(StmtKind::Compound(stmts)),
            Err(error) => Err(error),
        }
    }

    fn check_if(&mut self, span: Span, cond: Expr, consequent: Stmt, Ghost(whole): Ghost<Stmt>)
        -> (result: CheckResult<StmtKind<Checked>>)
        requires
            whole.span == span,
            whole.kind == StmtKind::<Unchecked>::If(Box::new(cond), Box::new(consequent), None),
        ensures
            stmt_outcome(old(self)@, whole, final(self)@, as_stmt(span, result)),
        decreases whole, 0nat,
    {
        let cond = match self.check_condition(cond) {
            Ok(cond) => cond,
            Err(error) => {
                return Err(error);
            },
        };
        let mut scope = self.enter();
        match scope.check_stmt(consequent) {
            Ok(consequent) => Ok(StmtKind::If(Box::new(cond), Box::new(consequent), None)),
            Err(error) => Err(error),
        }
    }

    fn check_if_else(
        &mut self,
        span: Span,
        cond: Expr,
        consequent: Stmt,
        alternative: Stmt,
        Ghost(whole): Ghost<Stmt>,
    ) -> (result: CheckResult<StmtKind<Checked>>)
        requires
            whole.span == span,
            whole.kind == StmtKind::<Unchecked>::If(
                Box::new(cond),
                Box::new(consequent),
                Some(Box::new(alternative)),
            ),
        ensures
            stmt_outcome(old(self)@, whole, final(self)@, as_stmt(span, result)),
        decreases whole, 0nat,
    {
        let cond = match self.check_condition(cond) {
            Ok(cond) => cond,
            Err(error) => {
                return Err(error);
            },
        };
        let consequent = {
            let mut scope = self.enter();
            match scope.check_stmt(consequent) {
                Ok(consequent) => consequent,
                Err(error) => {
                    return Err(error);
                },
            }
        };
        let mut scope = self.enter();
        match scope.check_stmt(alternative) {
            Ok(alternative) => Ok(
                StmtKind::If(Box::new(cond), Box::new(consequent), Some(Box::new(alternative))),
            ),
            Err(error) => Err(error),
        }
    }

    fn check_while(&mut self, span: Span, cond: Expr, body: Stmt, Ghost(whole): Ghost<Stmt>)
        -> (result: CheckResult<StmtKind<Checked>>)
        requires
            whole.span == span,
            whole.kind == StmtKind::<Unchecked>::While(Box::new(cond), Box::new(body)),
        ensures
            stmt_outcome(old(self)@, whole, final(self)@, as_stmt(span, result)),
        decreases whole, 0nat,
    {
        let cond = match self.check_condition(cond) {
            Ok(cond) => cond,
            Err(error) => {
                return Err(error);
            },
        };
        let mut scope = self.enter();
        match scope.check_stmt(body) {
            Ok(body) => Ok(StmtKind::While(Box::new(cond), Box::new(body))),
            Err(error) => Err(error),
        }
    }

    fn check_return(&mut self, span: Span, value: Expr, Ghost(whole): Ghost<Stmt>) -> (result:
        CheckResult<StmtKind<Checked>>)
        requires
            whole.span == span,
            whole.kind == StmtKind::<Unchecked>::Return(Box::new(value)),
        ensures
            stmt_outcome(old(self)@, whole, final(self)@, as_stmt(span, result)),
    {
        let value = match self.check_expr(value) {
            Ok(value) => value,
            Err(error) => {
                return Err(error);
            },
        };
        match self.env.lookup_return_type() {
            None => Err(SemanticError::new(span, SemanticErrorKind::IllegalStatement)),
            Some(expected) => {
                if value.info == *expected {
                    Ok(StmtKind::Return(Box::new(value)))
                } else {
                    let kind = SemanticErrorKind::TypeError(expected.clone(), value.info);
                    Err(SemanticError::new(span, kind))
                }
            },
        }
    }

    fn check_expr_stmt(&mut self, span: Span, expr: Expr, Ghost(whole): Ghost<Stmt>) -> (result:
        CheckResult<StmtKind<Checked>>)
        requires
            whole.span == span,
            whole.kind == StmtKind::<Unchecked>::Expr(Box::new(expr)),
        ensures
            stmt_outcome(old(self)@, whole, final(self)@, as_stmt(span, result)),
    {
        match self.check_expr(expr) {
            Ok(expr) => Ok(StmtKind::Expr(Box::new(expr))),
            Err(error) => Err(error),
        }
    }

    fn check_func_decl(&mut self, span: Span, decl: FuncDecl, Ghost(whole): Ghost<Stmt>) -> (result:
        CheckResult<StmtKind<Checked>>)
        requires
            whole.span == span,
            whole.kind == StmtKind::<Unchecked>::FuncDecl(Box::new(decl)),
        ensures
            stmt_outcome(old(self)@, whole, final(self)@, as_stmt(span, result)),
        decreases whole, 0nat,
    {
        let mut scope = self.enter();
        let params = match scope.check_slots(decl.params, Slot::Param) {
            Ok(params) => params,
            Err(error) => {
                return Err(error);
            },
        };
        let return_ty = match scope.check_ty(decl.return_ty) {
            Ok(return_ty) => return_ty,
            Err(error) => {
                return Err(error);
            },
        };
        let mut inner = scope.enter_func(return_ty.clone());
        match inner.check_stmt(decl.body) {
            Ok(body) => Ok(
                StmtKind::FuncDecl(Box::new(FuncDecl::new(decl.name, params, return_ty, body))),
            ),
            Err(error) => Err(error),
        }
    }

    fn check_type_decl(&mut self, span: Span, decl: TypeDecl, Ghost(whole): Ghost<Stmt>) -> (result:
        CheckResult<StmtKind<Checked>>)
        requires
            whole.span == span,
            whole.kind == StmtKind::<Unchecked>::TypeDecl(Box::new(decl)),
        ensures
            stmt_outcome(old(self)@, whole, final(self)@, as_stmt(span, result)),
    {
        match self.check_ty(decl.ty) {
            Ok(ty) => Ok(StmtKind::TypeDecl(Box::new(TypeDecl::new(decl.name, ty)))),
            Err(error) => Err(error),
        }
    }
}

/// The type that stands in for a boolean.
fn bool_ty() -> (ty: Ty<Checked>)
    ensures
        ty@ == TyView::U8,
{
    Ty::new(Span::default(), TyKind::U8)
}

/// A helper's node, put together as the statement at `span`.
pub open spec fn as_stmt(span: Span, result: CheckResult<StmtKind<Checked>>) -> CheckResult<
    Stmt<Checked>,
> {
    match result {
        Ok(kind) => Ok(Stmt { span, kind }),
        Err(error) => Err(error),
    }
}

/// A helper's type and node, put together as the expression at `span`.
pub open spec fn as_expr(span: Span, result: CheckResult<(Ty<Checked>, ExprKind<Checked>)>)
    -> CheckResult<Expr<Checked>> {
    match result {
        Ok((ty, kind)) => Ok(Expr { span, kind, info: ty }),
        Err(error) => Err(error),
    }
}

} // verus!
