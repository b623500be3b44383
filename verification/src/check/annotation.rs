//! What it means for an analysed tree to be the tree the parser made with
//! the resolved types filled in: same shape, same spans, same names, same
//! written types, and on every expression the type that the rules give it
//! in the environment in force at that point.

use crate::ast::expr::{Expr, ExprKind};
use crate::ast::ty::fields_syntax;
use crate::ast::{Program, Stmt, StmtKind};
use crate::check::environment::{env_enter, env_enter_func, EnvView};
use crate::check::rules::{
    condition_step, each_step, expr_typed, exprs_typed, forward_step, program_step, slot_step,
    slots_step, stmt_step, stmts_step, top_level_steps, Slot,
};
use crate::check::{CheckResult, Checked, Unchecked};
use vstd::prelude::*;

verus! {

/// `checked` is `unchecked` analysed in `env`.
pub open spec fn expr_annotated(checked: Expr<Checked>, unchecked: Expr<Unchecked>, env: EnvView)
    -> bool
    decreases unchecked, 0nat,
{
    &&& checked.span == unchecked.span
    &&& expr_typed(env, unchecked).result == Ok::<_, crate::check::Failure>(checked.info@)
    &&& match unchecked.kind {
        ExprKind::Literal(literal) => checked.kind == ExprKind::<Checked>::Literal(literal),
        ExprKind::Name(name) => checked.kind matches ExprKind::Name(checked_name)
            && checked_name@ == name@,
        ExprKind::Binary(op, lhs, rhs) => checked.kind matches ExprKind::Binary(
            checked_op,
            checked_lhs,
            checked_rhs,
        ) && checked_op == op && expr_annotated(*checked_lhs, *lhs, env) && expr_annotated(
            *checked_rhs,
            *rhs,
            expr_typed(env, *lhs).env,
        ),
        ExprKind::Unary(op, operand) => checked.kind matches ExprKind::Unary(
            checked_op,
            checked_operand,
        ) && checked_op == op && expr_annotated(*checked_operand, *operand, env),
        ExprKind::Call(callee, args) => checked.kind matches ExprKind::Call(
            checked_callee,
            checked_args,
        ) && expr_annotated(*checked_callee, *callee, env) && checked_args.len() == args.len()
            && exprs_annotated(
            checked_args@,
            args@,
            expr_typed(env, *callee).env,
            args.len() as nat,
        ),
        ExprKind::Cast(operand, ty) => checked.kind matches ExprKind::Cast(
            checked_operand,
            checked_ty,
        ) && expr_annotated(*checked_operand, *operand, env) && checked_ty.syntax()
            == ty.syntax(),
        ExprKind::Decl(field, init) => checked.kind matches ExprKind::Decl(
            checked_field,
            checked_init,
        ) && checked_field.syntax() == field.syntax() && match init {
            None => checked_init is None,
            Some(value) => checked_init matches Some(checked_value) && expr_annotated(
                *checked_value,
                *value,
                slot_step(env, field.syntax(), Slot::Field).env,
            ),
        },
    }
}

/// The first `n` of `checked` are the first `n` of `unchecked`, analysed
/// in order from `env` on.
pub open spec fn exprs_annotated(
    checked: Seq<Expr<Checked>>,
    unchecked: Seq<Expr<Unchecked>>,
    env: EnvView,
    n: nat,
) -> bool
    decreases unchecked, n,
{
    if n == 0 || n > unchecked.len() {
        true
    } else {
        exprs_annotated(checked, unchecked, env, (n - 1) as nat) && expr_annotated(
            checked[n - 1],
            unchecked[n - 1],
            exprs_typed(env, unchecked, (n - 1) as nat).env,
        )
    }
}

/// `checked` is `unchecked` analysed in `env`.
pub open spec fn stmt_annotated(checked: Stmt<Checked>, unchecked: Stmt<Unchecked>, env: EnvView)
    -> bool
    decreases unchecked, 0nat,
{
    &&& checked.span == unchecked.span
    &&& match unchecked.kind {
        StmtKind::Compound(stmts) => checked.kind matches StmtKind::Compound(checked_stmts)
            && checked_stmts.len() == stmts.len() && stmts_annotated(
            checked_stmts@,
            stmts@,
            forward_step(env_enter(env), stmts@, stmts.len() as nat).env,
            stmts.len() as nat,
        ),
        StmtKind::If(cond, consequent, alternative) => checked.kind matches StmtKind::If(
            checked_cond,
            checked_consequent,
            checked_alternative,
        ) && expr_annotated(*checked_cond, *cond, env) && stmt_annotated(
            *checked_consequent,
            *consequent,
            env_enter(condition_step(env, *cond).env),
        ) && match alternative {
            None => checked_alternative is None,
            Some(alternative) => checked_alternative matches Some(checked_alternative)
                && stmt_annotated(
                *checked_alternative,
                *alternative,
                env_enter(condition_step(env, *cond).env),
            ),
        },
        StmtKind::While(cond, body) => checked.kind matches StmtKind::While(
            checked_cond,
            checked_body,
        ) && expr_annotated(*checked_cond, *cond, env) && stmt_annotated(
            *checked_body,
            *body,
            env_enter(condition_step(env, *cond).env),
        ),
        StmtKind::Return(value) => checked.kind matches StmtKind::Return(checked_value)
            && expr_annotated(*checked_value, *value, env),
        StmtKind::Expr(expr) => checked.kind matches StmtKind::Expr(checked_expr)
            && expr_annotated(*checked_expr, *expr, env),
        StmtKind::FuncDecl(decl) => checked.kind matches StmtKind::FuncDecl(checked_decl)
            && checked_decl.name@ == decl.name@ && fields_syntax(checked_decl.params@)
            == fields_syntax(decl.params@) && checked_decl.return_ty.syntax()
            == decl.return_ty.syntax() && stmt_annotated(
            checked_decl.body,
            decl.body,
            env_enter_func(
                slots_step(
                    env_enter(env),
                    fields_syntax(decl.params@),
                    decl.params.len() as nat,
                    Slot::Param,
                ).env,
                decl.return_ty@,
            ),
        ),
        StmtKind::TypeDecl(decl) => checked.kind matches StmtKind::TypeDecl(checked_decl)
            && checked_decl.name@ == decl.name@ && checked_decl.ty.syntax() == decl.ty.syntax(),
    }
}

/// The first `n` of `checked` are the first `n` of `unchecked`, analysed
/// in order from `env` on, the list being forward-declared in `env`
/// already.
pub open spec fn stmts_annotated(
    checked: Seq<Stmt<Checked>>,
    unchecked: Seq<Stmt<Unchecked>>,
    env: EnvView,
    n: nat,
) -> bool
    decreases unchecked, n,
{
    if n == 0 || n > unchecked.len() {
        true
    } else {
        stmts_annotated(checked, unchecked, env, (n - 1) as nat) && stmt_annotated(
            checked[n - 1],
            unchecked[n - 1],
            each_step(env, unchecked, (n - 1) as nat).env,
        )
    }
}

/// The first `n` of `checked` are the first `n` top-level statements
/// `unchecked` of a program, analysed in order from `env` on.
pub open spec fn program_annotated(
    checked: Seq<Stmt<Checked>>,
    unchecked: Seq<Stmt<Unchecked>>,
    env: EnvView,
    n: nat,
) -> bool
    decreases n,
{
    if n == 0 || n > unchecked.len() {
        true
    } else {
        program_annotated(checked, unchecked, env, (n - 1) as nat) && stmt_annotated(
            checked[n - 1],
            unchecked[n - 1],
            top_level_steps(env, unchecked, (n - 1) as nat).env,
        )
    }
}

/// What a checking step owes for an expression: the environment is left
/// as the rules say, and the result is the annotated expression or the
/// failure that the rules give.
pub open spec fn expr_outcome(
    before: EnvView,
    unchecked: Expr<Unchecked>,
    after: EnvView,
    result: CheckResult<Expr<Checked>>,
) -> bool {
    let typed = expr_typed(before, unchecked);
    &&& after == typed.env
    &&& match typed.result {
        Ok(_) => result matches Ok(checked) && expr_annotated(checked, unchecked, before),
        Err(failure) => result matches Err(error) && error@ == failure,
    }
}

/// What a checking step owes for a list of expressions.
pub open spec fn exprs_outcome(
    before: EnvView,
    unchecked: Seq<Expr<Unchecked>>,
    after: EnvView,
    result: CheckResult<Vec<Expr<Checked>>>,
) -> bool {
    let typed = exprs_typed(before, unchecked, unchecked.len());
    &&& after == typed.env
    &&& match typed.result {
        Ok(_) => result matches Ok(checked) && checked.len() == unchecked.len()
            && exprs_annotated(checked@, unchecked, before, unchecked.len()),
        Err(failure) => result matches Err(error) && error@ == failure,
    }
}

/// What a checking step owes for a statement.
pub open spec fn stmt_outcome(
    before: EnvView,
    unchecked: Stmt<Unchecked>,
    after: EnvView,
    result: CheckResult<Stmt<Checked>>,
) -> bool {
    let step = stmt_step(before, unchecked);
    &&& after == step.env
    &&& match step.failure {
        None => result matches Ok(checked) && stmt_annotated(checked, unchecked, before),
        Some(failure) => result matches Err(error) && error@ == failure,
    }
}

/// What a checking step owes for the statements of one scope.
pub open spec fn stmts_outcome(
    before: EnvView,
    unchecked: Seq<Stmt<Unchecked>>,
    after: EnvView,
    result: CheckResult<Vec<Stmt<Checked>>>,
) -> bool {
    let step = stmts_step(before, unchecked);
    &&& after == step.env
    &&& match step.failure {
        None => result matches Ok(checked) && checked.len() == unchecked.len()
            && stmts_annotated(
            checked@,
            unchecked,
            forward_step(before, unchecked, unchecked.len()).env,
            unchecked.len(),
        ),
        Some(failure) => result matches Err(error) && error@ == failure,
    }
}

/// What checking owes for a program.
pub open spec fn program_outcome(
    before: EnvView,
    unchecked: Program<Unchecked>,
    after: EnvView,
    result: CheckResult<Program<Checked>>,
) -> bool {
    let step = program_step(before, unchecked.stmts@);
    &&& after == step.env
    &&& match step.failure {
        None => result matches Ok(checked) && checked.span == unchecked.span
            && checked.stmts.len() == unchecked.stmts.len() && program_annotated(
            checked.stmts@,
            unchecked.stmts@,
            forward_step(before, unchecked.stmts@, unchecked.stmts.len() as nat).env,
            unchecked.stmts.len() as nat,
        ),
        Some(failure) => result matches Err(error) && error@ == failure,
    }
}

/// An annotated prefix stays annotated when the list of analysed
/// expressions changes behind it.
pub proof fn lemma_exprs_annotated_prefix(
    checked: Seq<Expr<Checked>>,
    other: Seq<Expr<Checked>>,
    unchecked: Seq<Expr<Unchecked>>,
    env: EnvView,
    n: nat,
)
    requires
        exprs_annotated(checked, unchecked, env, n),
        n <= checked.len(),
        n <= other.len(),
        forall|i: int| 0 <= i < n ==> checked[i] == other[i],
    ensures
        exprs_annotated(other, unchecked, env, n),
    decreases n,
{
    if n > 0 && n <= unchecked.len() {
        lemma_exprs_annotated_prefix(checked, other, unchecked, env, (n - 1) as nat);
    }
}

/// Each of the first `n` annotated expressions has the span of the
/// expression it came from and carries that expression's resolved type.
pub proof fn lemma_exprs_annotated_element(
    checked: Seq<Expr<Checked>>,
    unchecked: Seq<Expr<Unchecked>>,
    env: EnvView,
    n: nat,
    i: int,
)
    requires
        exprs_annotated(checked, unchecked, env, n),
        exprs_typed(env, unchecked, n).result is Ok,
        0 <= i < n <= unchecked.len(),
    ensures
        exprs_typed(env, unchecked, n).result->Ok_0.len() == n,
        checked[i].span == unchecked[i].span,
        checked[i].info@ == exprs_typed(env, unchecked, n).result->Ok_0[i],
    decreases n,
{
    let before = exprs_typed(env, unchecked, (n - 1) as nat);
    lemma_exprs_typed_len(env, unchecked, (n - 1) as nat);
    assert(before.result is Ok);
    assert(exprs_annotated(checked, unchecked, env, (n - 1) as nat));
    assert(expr_annotated(checked[n - 1], unchecked[n - 1], before.env));
    if i < n - 1 {
        lemma_exprs_annotated_element(checked, unchecked, env, (n - 1) as nat, i);
    }
}

/// A list of expressions that is analysed without failure gives one type
/// for each expression.
pub proof fn lemma_exprs_typed_len(env: EnvView, unchecked: Seq<Expr<Unchecked>>, n: nat)
    requires
        n <= unchecked.len(),
    ensures
        exprs_typed(env, unchecked, n).result matches Ok(tys) ==> tys.len() == n,
    decreases n,
{
    if n > 0 {
        lemma_exprs_typed_len(env, unchecked, (n - 1) as nat);
    }
}

/// An annotated prefix stays annotated when the list of analysed
/// statements changes behind it.
pub proof fn lemma_stmts_annotated_prefix(
    checked: Seq<Stmt<Checked>>,
    other: Seq<Stmt<Checked>>,
    unchecked: Seq<Stmt<Unchecked>>,
    env: EnvView,
    n: nat,
)
    requires
        stmts_annotated(checked, unchecked, env, n),
        n <= checked.len(),
        n <= other.len(),
        forall|i: int| 0 <= i < n ==> checked[i] == other[i],
    ensures
        stmts_annotated(other, unchecked, env, n),
    decreases n,
{
    if n > 0 && n <= unchecked.len() {
        lemma_stmts_annotated_prefix(checked, other, unchecked, env, (n - 1) as nat);
    }
}

/// The same for the top level of a program.
pub proof fn lemma_program_annotated_prefix(
    checked: Seq<Stmt<Checked>>,
    other: Seq<Stmt<Checked>>,
    unchecked: Seq<Stmt<Unchecked>>,
    env: EnvView,
    n: nat,
)
    requires
        program_annotated(checked, unchecked, env, n),
        n <= checked.len(),
        n <= other.len(),
        forall|i: int| 0 <= i < n ==> checked[i] == other[i],
    ensures
        program_annotated(other, unchecked, env, n),
    decreases n,
{
    if n > 0 && n <= unchecked.len() {
        lemma_program_annotated_prefix(checked, other, unchecked, env, (n - 1) as nat);
    }
}

} // verus!
