//! The typing rules: what analysis makes of a piece of syntax in a given
//! environment. Each rule is a function from the environment and the
//! syntax to the outcome; the checker is proved to compute exactly these.

use crate::ast::expr::{BinOpKind, Expr, ExprKind, UnOpKind};
use crate::ast::ty::{
    fields_syntax, tys_sem, FieldSyntax, TyKindSyntax, TySyntax, TyView,
};
use crate::ast::{param_tys, Stmt, StmtKind};
use crate::check::environment::{
    env_alias, env_binding, env_declare_alias, env_declare_binding, env_enter, env_enter_func,
    env_return_ty, redefinition, BindingView, EnvView,
};
use crate::check::{Failure, FailureKind, Unchecked};
use crate::parser::span::Span;
use vstd::prelude::*;

verus! {

/// The outcome of a step that may declare names: the environment after
/// it, and the failure that stopped it, if one did.
pub struct Step {
    pub env: EnvView,
    pub failure: Option<Failure>,
}

/// The outcome of analysing an expression: the environment after it, and
/// the type it resolves to or the failure.
pub struct Typed {
    pub env: EnvView,
    pub result: Result<TyView, Failure>,
}

/// The outcome of analysing a list of expressions in order.
pub struct TypedList {
    pub env: EnvView,
    pub result: Result<Seq<TyView>, Failure>,
}

/// Whether a slot is a function's parameter or a field (a record's field
/// or a declared variable): the two differ in the error for the empty
/// type.
#[derive(Debug, Clone, Copy, PartialEq, Eq, Structural)]
pub enum Slot {
    Field,
    Param,
}

/// The error for a slot of the empty type.
pub open spec fn void_failure(slot: Slot, span: Span, name: Seq<char>) -> Failure {
    match slot {
        Slot::Field => Failure { span, kind: FailureKind::FieldDeclaredVoid(name) },
        Slot::Param => Failure { span, kind: FailureKind::ParameterDeclaredVoid },
    }
}

/// Why a written type is not valid in the environment, or `None` if it is
/// valid. An alias must be declared; a pointer, a parenthesised type and a
/// function type are valid if their parts are, but no parameter may have
/// the empty type; a record opens a scope of its own in which its fields
/// are declared one after the other.
pub open spec fn ty_failure(env: EnvView, ty: TySyntax) -> Option<Failure>
    decreases ty, 0nat,
{
    match ty.kind {
        TyKindSyntax::U8 => None,
        TyKindSyntax::Void => None,
        TyKindSyntax::Alias(name) => if env_alias(env, name) is Some {
            None
        } else {
            Some(Failure { span: ty.span, kind: FailureKind::Undefined(name) })
        },
        TyKindSyntax::Ptr(pointee) => ty_failure(env, *pointee),
        TyKindSyntax::Func(params, return_ty) => match param_tys_failure(
            env,
            params,
            params.len(),
        ) {
            Some(failure) => Some(failure),
            None => ty_failure(env, *return_ty),
        },
        TyKindSyntax::Struct(fields) => slots_step(
            env_enter(env),
            fields,
            fields.len(),
            Slot::Field,
        ).failure,
        TyKindSyntax::Paren(inner) => ty_failure(env, *inner),
    }
}

/// The first failure among the first `n` types.
pub open spec fn tys_failure(env: EnvView, tys: Seq<TySyntax>, n: nat) -> Option<Failure>
    decreases n,
{
    if n == 0 || n > tys.len() {
        None
    } else {
        match tys_failure(env, tys, (n - 1) as nat) {
            Some(failure) => Some(failure),
            None => ty_failure(env, tys[n - 1]),
        }
    }
}

/// Why the type of a parameter is refused: it is not valid, or it is the
/// empty type.
pub open spec fn param_ty_failure(env: EnvView, ty: TySyntax) -> Option<Failure>
    decreases ty, 1nat,
{
    match ty_failure(env, ty) {
        Some(failure) => Some(failure),
        None => if ty.sem() is Void {
            Some(Failure { span: ty.span, kind: FailureKind::ParameterDeclaredVoid })
        } else {
            None
        },
    }
}

/// The first failure among the first `n` parameter types.
pub open spec fn param_tys_failure(env: EnvView, tys: Seq<TySyntax>, n: nat) -> Option<Failure>
    decreases tys, n,
{
    if n == 0 || n > tys.len() {
        None
    } else {
        match param_tys_failure(env, tys, (n - 1) as nat) {
            Some(failure) => Some(failure),
            None => param_ty_failure(env, tys[n - 1]),
        }
    }
}

/// Why a function signature is refused: the first failure among its
/// parameter types, else that of its return type. The return type may be
/// the empty type.
pub open spec fn signature_failure(env: EnvView, params: Seq<TySyntax>, return_ty: TySyntax)
    -> Option<Failure> {
    match param_tys_failure(env, params, params.len()) {
        Some(failure) => Some(failure),
        None => ty_failure(env, return_ty),
    }
}

/// Declares one slot in the innermost scope: its type must be valid and
/// not the empty type, and its name new to this scope.
pub open spec fn slot_step(env: EnvView, field: FieldSyntax, slot: Slot) -> Step
    decreases field, 0nat,
{
    match ty_failure(env, field.ty) {
        Some(failure) => Step { env, failure: Some(failure) },
        None => if field.ty.sem() is Void {
            Step { env, failure: Some(void_failure(slot, field.ty.span, field.name)) }
        } else {
            match env_declare_binding(
                env,
                field.name,
                BindingView { span: field.span, ty: field.ty.sem() },
            ) {
                Ok(declared) => Step { env: declared, failure: None },
                Err(origin) => Step {
                    env,
                    failure: Some(redefinition(field.span, origin, field.name)),
                },
            }
        },
    }
}

/// Declares the first `n` slots in order, stopping at the first failure.
pub open spec fn slots_step(env: EnvView, fields: Seq<FieldSyntax>, n: nat, slot: Slot) -> Step
    decreases fields, n,
{
    if n == 0 || n > fields.len() {
        Step { env, failure: None }
    } else {
        let before = slots_step(env, fields, (n - 1) as nat, slot);
        if before.failure is Some {
            before
        } else {
            slot_step(before.env, fields[n - 1], slot)
        }
    }
}

/// Implicit conversion accepts a type only where exactly that type is
/// expected.
pub open spec fn convert_failure(span: Span, expected: TyView, actual: TyView) -> Option<Failure> {
    if actual == expected {
        None
    } else {
        Some(Failure { span, kind: FailureKind::TypeError(expected, actual) })
    }
}

/// What a name resolves to.
pub open spec fn name_result(env: EnvView, span: Span, name: Seq<char>) -> Result<TyView, Failure> {
    match env_binding(env, name) {
        Some(binding) => Ok(binding.ty),
        None => Err(Failure { span, kind: FailureKind::Undefined(name) }),
    }
}

/// A binary operator wants two operands of equal type, and gives that
/// type.
pub open spec fn binary_result(span: Span, op: BinOpKind, lhs: TyView, rhs: TyView) -> Result<
    TyView,
    Failure,
> {
    if lhs == rhs {
        Ok(lhs)
    } else {
        Err(Failure { span, kind: FailureKind::InvalidBinary(op, lhs, rhs) })
    }
}

/// Dereferencing wants a pointer and gives what it points to; taking the
/// address gives a pointer to any operand. No type has the other unary
/// operators.
pub open spec fn unary_result(span: Span, op: UnOpKind, operand: TyView) -> Result<
    TyView,
    Failure,
> {
    match op {
        UnOpKind::Deref => match operand {
            TyView::Ptr(pointee) => Ok(*pointee),
            _ => Err(Failure { span, kind: FailureKind::InvalidUnary(op, operand) }),
        },
        UnOpKind::Ref => Ok(TyView::Ptr(Box::new(operand))),
        _ => Err(Failure { span, kind: FailureKind::InvalidUnary(op, operand) }),
    }
}

/// The first of the first `n` arguments that does not convert to its
/// parameter's type.
pub open spec fn args_failure(params: Seq<TyView>, spans: Seq<Span>, args: Seq<TyView>, n: nat)
    -> Option<Failure>
    decreases n,
{
    if n == 0 {
        None
    } else {
        match args_failure(params, spans, args, (n - 1) as nat) {
            Some(failure) => Some(failure),
            None => convert_failure(spans[n - 1], params[n - 1], args[n - 1]),
        }
    }
}

/// A call wants as many arguments as the function has parameters, each
/// convertible to its parameter's type, and gives the return type.
pub open spec fn call_result(
    span: Span,
    params: Seq<TyView>,
    return_ty: TyView,
    spans: Seq<Span>,
    args: Seq<TyView>,
) -> Result<TyView, Failure> {
    if params.len() != args.len() {
        Err(Failure { span, kind: FailureKind::ArityMismatch(params.len(), args.len()) })
    } else {
        match args_failure(params, spans, args, args.len()) {
            Some(failure) => Err(failure),
            None => Ok(return_ty),
        }
    }
}

/// The spans of a list of expressions, in order.
pub open spec fn expr_spans(exprs: Seq<Expr<Unchecked>>) -> Seq<Span> {
    Seq::new(exprs.len(), |i: int| exprs[i].span)
}

/// What analysis makes of an expression. Operands are analysed from left
/// to right, each in the environment that the one before it left, and the
/// first failure is the outcome.
pub open spec fn expr_typed(env: EnvView, expr: Expr<Unchecked>) -> Typed
    decreases expr, 0nat,
{
    match expr.kind {
        ExprKind::Literal(_) => Typed { env, result: Ok(TyView::U8) },
        ExprKind::Name(name) => Typed { env, result: name_result(env, expr.span, name@) },
        ExprKind::Binary(op, lhs, rhs) => {
            let left = expr_typed(env, *lhs);
            match left.result {
                Err(_) => left,
                Ok(lhs_ty) => {
                    let right = expr_typed(left.env, *rhs);
                    match right.result {
                        Err(_) => right,
                        Ok(rhs_ty) => Typed {
                            env: right.env,
                            result: binary_result(expr.span, op, lhs_ty, rhs_ty),
                        },
                    }
                },
            }
        },
        ExprKind::Unary(op, operand) => {
            let inner = expr_typed(env, *operand);
            match inner.result {
                Err(_) => inner,
                Ok(ty) => Typed { env: inner.env, result: unary_result(expr.span, op, ty) },
            }
        },
        ExprKind::Call(callee, args) => {
            let target = expr_typed(env, *callee);
            match target.result {
                Err(_) => target,
                Ok(TyView::Func(params, return_ty)) => {
                    let given = exprs_typed(target.env, args@, args.len() as nat);
                    match given.result {
                        Err(failure) => Typed { env: given.env, result: Err(failure) },
                        Ok(tys) => Typed {
                            env: given.env,
                            result: call_result(
                                expr.span,
                                params,
                                *return_ty,
                                expr_spans(args@),
                                tys,
                            ),
                        },
                    }
                },
                Ok(other) => Typed {
                    env: target.env,
                    result: Err(
                        Failure { span: callee.span, kind: FailureKind::NotAFunction(other) },
                    ),
                },
            }
        },
        ExprKind::Cast(operand, ty) => {
            let inner = expr_typed(env, *operand);
            match inner.result {
                Err(_) => inner,
                Ok(_) => match ty_failure(inner.env, ty.syntax()) {
                    Some(failure) => Typed { env: inner.env, result: Err(failure) },
                    None => Typed { env: inner.env, result: Ok(ty@) },
                },
            }
        },
        ExprKind::Decl(field, init) => {
            let declared = slot_step(env, field.syntax(), Slot::Field);
            match declared.failure {
                Some(failure) => Typed { env: declared.env, result: Err(failure) },
                None => match init {
                    None => Typed { env: declared.env, result: Ok(TyView::Void) },
                    Some(value) => {
                        let given = expr_typed(declared.env, *value);
                        match given.result {
                            Err(_) => given,
                            Ok(ty) => Typed {
                                env: given.env,
                                result: match convert_failure(value.span, field.ty@, ty) {
                                    Some(failure) => Err(failure),
                                    None => Ok(field.ty@),
                                },
                            },
                        }
                    },
                },
            }
        },
    }
}

/// What analysis makes of the first `n` expressions of a list, in order.
pub open spec fn exprs_typed(env: EnvView, exprs: Seq<Expr<Unchecked>>, n: nat) -> TypedList
    decreases exprs, n,
{
    if n == 0 || n > exprs.len() {
        TypedList { env, result: Ok(Seq::empty()) }
    } else {
        let before = exprs_typed(env, exprs, (n - 1) as nat);
        match before.result {
            Err(_) => before,
            Ok(tys) => {
                let next = expr_typed(before.env, exprs[n - 1]);
                match next.result {
                    Err(failure) => TypedList { env: next.env, result: Err(failure) },
                    Ok(ty) => TypedList { env: next.env, result: Ok(tys.push(ty)) },
                }
            },
        }
    }
}

/// The condition of an `if` or a `while`: an expression that converts to
/// `u8`, which stands in for a boolean.
pub open spec fn condition_step(env: EnvView, cond: Expr<Unchecked>) -> Step {
    let typed = expr_typed(env, cond);
    match typed.result {
        Err(failure) => Step { env: typed.env, failure: Some(failure) },
        Ok(ty) => Step { env: typed.env, failure: convert_failure(cond.span, TyView::U8, ty) },
    }
}

/// Forward declaration of one statement: a function declaration binds its
/// name to its signature, a type declaration binds its name to its type;
/// any other statement declares nothing.
pub open spec fn declare_step(env: EnvView, stmt: Stmt<Unchecked>) -> Step {
    match stmt.kind {
        StmtKind::FuncDecl(decl) => match signature_failure(
            env,
            param_tys(decl.params@),
            decl.return_ty.syntax(),
        ) {
            Some(failure) => Step { env, failure: Some(failure) },
            None => match env_declare_binding(
                env,
                decl.name@,
                BindingView {
                    span: stmt.span,
                    ty: TyView::Func(tys_sem(param_tys(decl.params@)), Box::new(decl.return_ty@)),
                },
            ) {
                Ok(declared) => Step { env: declared, failure: None },
                Err(origin) => Step {
                    env,
                    failure: Some(redefinition(stmt.span, origin, decl.name@)),
                },
            },
        },
        StmtKind::TypeDecl(decl) => match ty_failure(env, decl.ty.syntax()) {
            Some(failure) => Step { env, failure: Some(failure) },
            None => match env_declare_alias(
                env,
                decl.name@,
                BindingView { span: stmt.span, ty: decl.ty@ },
            ) {
                Ok(declared) => Step { env: declared, failure: None },
                Err(origin) => Step {
                    env,
                    failure: Some(redefinition(stmt.span, origin, decl.name@)),
                },
            },
        },
        _ => Step { env, failure: None },
    }
}

/// Forward declaration of the first `n` statements of a list, in order.
pub open spec fn forward_step(env: EnvView, stmts: Seq<Stmt<Unchecked>>, n: nat) -> Step
    decreases n,
{
    if n == 0 || n > stmts.len() {
        Step { env, failure: None }
    } else {
        let before = forward_step(env, stmts, (n - 1) as nat);
        if before.failure is Some {
            before
        } else {
            declare_step(before.env, stmts[n - 1])
        }
    }
}

/// A `return` hands back a value of the return type of the function round
/// it. Outside every function there is nothing to return from: the
/// statement is illegal there.
pub open spec fn return_failure(env: EnvView, span: Span, ty: TyView) -> Option<Failure> {
    match env_return_ty(env) {
        Some(expected) => convert_failure(span, expected, ty),
        None => Some(Failure { span, kind: FailureKind::IllegalStatement }),
    }
}

/// What analysis makes of a statement. A block, a branch, a loop body and
/// a function each get a scope of their own, which is gone afterwards:
/// only expression statements leave declarations behind.
pub open spec fn stmt_step(env: EnvView, stmt: Stmt<Unchecked>) -> Step
    decreases stmt, 0nat,
{
    match stmt.kind {
        StmtKind::Compound(stmts) => Step {
            env,
            failure: stmts_step(env_enter(env), stmts@).failure,
        },
        StmtKind::If(cond, consequent, alternative) => {
            let tested = condition_step(env, *cond);
            match tested.failure {
                Some(_) => tested,
                None => match stmt_step(env_enter(tested.env), *consequent).failure {
                    Some(failure) => Step { env: tested.env, failure: Some(failure) },
                    None => match alternative {
                        None => tested,
                        Some(alternative) => Step {
                            env: tested.env,
                            failure: stmt_step(env_enter(tested.env), *alternative).failure,
                        },
                    },
                },
            }
        },
        StmtKind::While(cond, body) => {
            let tested = condition_step(env, *cond);
            match tested.failure {
                Some(_) => tested,
                None => Step {
                    env: tested.env,
                    failure: stmt_step(env_enter(tested.env), *body).failure,
                },
            }
        },
        StmtKind::Return(value) => {
            let typed = expr_typed(env, *value);
            match typed.result {
                Err(failure) => Step { env: typed.env, failure: Some(failure) },
                Ok(ty) => Step {
                    env: typed.env,
                    failure: return_failure(typed.env, stmt.span, ty),
                },
            }
        },
        StmtKind::Expr(expr) => {
            let typed = expr_typed(env, *expr);
            match typed.result {
                Err(failure) => Step { env: typed.env, failure: Some(failure) },
                Ok(_) => Step { env: typed.env, failure: None },
            }
        },
        StmtKind::FuncDecl(decl) => {
            let params = slots_step(
                env_enter(env),
                fields_syntax(decl.params@),
                decl.params.len() as nat,
                Slot::Param,
            );
            match params.failure {
                Some(failure) => Step { env, failure: Some(failure) },
                None => match ty_failure(params.env, decl.return_ty.syntax()) {
                    Some(failure) => Step { env, failure: Some(failure) },
                    None => Step {
                        env,
                        failure: stmt_step(
                            env_enter_func(params.env, decl.return_ty@),
                            decl.body,
                        ).failure,
                    },
                },
            }
        },
        StmtKind::TypeDecl(decl) => Step { env, failure: ty_failure(env, decl.ty.syntax()) },
    }
}

/// What analysis makes of the first `n` statements of a list, in order,
/// once the list has been forward-declared.
pub open spec fn each_step(env: EnvView, stmts: Seq<Stmt<Unchecked>>, n: nat) -> Step
    decreases stmts, n,
{
    if n == 0 || n > stmts.len() {
        Step { env, failure: None }
    } else {
        let before = each_step(env, stmts, (n - 1) as nat);
        if before.failure is Some {
            before
        } else {
            stmt_step(before.env, stmts[n - 1])
        }
    }
}

/// What analysis makes of the statements of one scope: all of them are
/// forward-declared, then each is analysed in order.
pub open spec fn stmts_step(env: EnvView, stmts: Seq<Stmt<Unchecked>>) -> Step
    decreases stmts, stmts.len() + 1,
{
    let declared = forward_step(env, stmts, stmts.len());
    if declared.failure is Some {
        declared
    } else {
        each_step(declared.env, stmts, stmts.len())
    }
}

/// A statement at the top level of a program: only a shape that is legal
/// there is analysed.
pub open spec fn top_level_step(env: EnvView, stmt: Stmt<Unchecked>) -> Step {
    if stmt.spec_is_global_legal() {
        stmt_step(env, stmt)
    } else {
        Step {
            env,
            failure: Some(Failure { span: stmt.span, kind: FailureKind::IllegalStatement }),
        }
    }
}

/// The first `n` statements of a program, in order.
pub open spec fn top_level_steps(env: EnvView, stmts: Seq<Stmt<Unchecked>>, n: nat) -> Step
    decreases n,
{
    if n == 0 || n > stmts.len() {
        Step { env, failure: None }
    } else {
        let before = top_level_steps(env, stmts, (n - 1) as nat);
        if before.failure is Some {
            before
        } else {
            top_level_step(before.env, stmts[n - 1])
        }
    }
}

/// What analysis makes of a program: its top level is forward-declared,
/// then each statement is analysed in order.
pub open spec fn program_step(env: EnvView, stmts: Seq<Stmt<Unchecked>>) -> Step {
    let declared = forward_step(env, stmts, stmts.len());
    if declared.failure is Some {
        declared
    } else {
        top_level_steps(declared.env, stmts, stmts.len())
    }
}

/// Once a prefix of the types has failed, every longer prefix fails the
/// same way.
pub proof fn lemma_tys_failure_stays(env: EnvView, tys: Seq<TySyntax>, n: nat, m: nat)
    requires
        tys_failure(env, tys, n) is Some,
        n <= m <= tys.len(),
    ensures
        tys_failure(env, tys, m) == tys_failure(env, tys, n),
    decreases m,
{
    if n < m {
        lemma_tys_failure_stays(env, tys, n, (m - 1) as nat);
    }
}

/// The same for parameter types.
pub proof fn lemma_param_tys_failure_stays(env: EnvView, tys: Seq<TySyntax>, n: nat, m: nat)
    requires
        param_tys_failure(env, tys, n) is Some,
        n <= m <= tys.len(),
    ensures
        param_tys_failure(env, tys, m) == param_tys_failure(env, tys, n),
    decreases m,
{
    if n < m {
        lemma_param_tys_failure_stays(env, tys, n, (m - 1) as nat);
    }
}

/// Once a slot has failed, the slots behind it are not looked at.
pub proof fn lemma_slots_step_stays(
    env: EnvView,
    fields: Seq<FieldSyntax>,
    n: nat,
    m: nat,
    slot: Slot,
)
    requires
        slots_step(env, fields, n, slot).failure is Some,
        n <= m <= fields.len(),
    ensures
        slots_step(env, fields, m, slot) == slots_step(env, fields, n, slot),
    decreases m,
{
    if n < m {
        lemma_slots_step_stays(env, fields, n, (m - 1) as nat, slot);
    }
}

/// Once an argument has failed to convert, the arguments behind it are
/// not looked at.
pub proof fn lemma_args_failure_stays(
    params: Seq<TyView>,
    spans: Seq<Span>,
    args: Seq<TyView>,
    n: nat,
    m: nat,
)
    requires
        args_failure(params, spans, args, n) is Some,
        n <= m,
    ensures
        args_failure(params, spans, args, m) == args_failure(params, spans, args, n),
    decreases m,
{
    if n < m {
        lemma_args_failure_stays(params, spans, args, n, (m - 1) as nat);
    }
}

/// Once an expression has failed, the expressions behind it are not
/// looked at.
pub proof fn lemma_exprs_typed_stays(env: EnvView, exprs: Seq<Expr<Unchecked>>, n: nat, m: nat)
    requires
        exprs_typed(env, exprs, n).result is Err,
        n <= m <= exprs.len(),
    ensures
        exprs_typed(env, exprs, m) == exprs_typed(env, exprs, n),
    decreases m,
{
    if n < m {
        lemma_exprs_typed_stays(env, exprs, n, (m - 1) as nat);
    }
}

/// Once forward declaration has failed, the statements behind the failure
/// are not looked at.
pub proof fn lemma_forward_step_stays(env: EnvView, stmts: Seq<Stmt<Unchecked>>, n: nat, m: nat)
    requires
        forward_step(env, stmts, n).failure is Some,
        n <= m <= stmts.len(),
    ensures
        forward_step(env, stmts, m) == forward_step(env, stmts, n),
    decreases m,
{
    if n < m {
        lemma_forward_step_stays(env, stmts, n, (m - 1) as nat);
    }
}

/// Once a statement has failed, the statements behind it are not looked
/// at.
pub proof fn lemma_each_step_stays(env: EnvView, stmts: Seq<Stmt<Unchecked>>, n: nat, m: nat)
    requires
        each_step(env, stmts, n).failure is Some,
        n <= m <= stmts.len(),
    ensures
        each_step(env, stmts, m) == each_step(env, stmts, n),
    decreases m,
{
    if n < m {
        lemma_each_step_stays(env, stmts, n, (m - 1) as nat);
    }
}

/// The same for the top level of a program.
pub proof fn lemma_top_level_steps_stays(env: EnvView, stmts: Seq<Stmt<Unchecked>>, n: nat, m: nat)
    requires
        top_level_steps(env, stmts, n).failure is Some,
        n <= m <= stmts.len(),
    ensures
        top_level_steps(env, stmts, m) == top_level_steps(env, stmts, n),
    decreases m,
{
    if n < m {
        lemma_top_level_steps_stays(env, stmts, n, (m - 1) as nat);
    }
}

} // verus!
