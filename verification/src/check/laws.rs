//! Laws of the typing rules, proved from their definitions.

use crate::ast::expr::{Expr, ExprKind, UnOpKind};
use crate::ast::ty::{tys_sem, FieldSyntax, Ty, TyKindSyntax, TySyntax, TyView};
use crate::ast::{param_tys, Stmt, StmtKind};
use crate::check::environment::{
    env_binding, env_declare_binding, env_enter, BindingView, EnvView,
};
use crate::check::environment::{env_enter_func, env_return_ty};
use crate::check::rules::{
    args_failure, declare_step, each_step, expr_spans, expr_typed, exprs_typed,
    forward_step, lemma_args_failure_stays, param_ty_failure, param_tys_failure, program_step,
    signature_failure, slot_step, slots_step, stmt_step, stmts_step, top_level_steps,
    ty_failure, Slot,
};
use crate::check::{Failure, FailureKind, Unchecked};
use crate::parser::span::Span;
use vstd::prelude::*;

verus! {

/// Taking the address of a type and dereferencing the result gives the
/// type back: the very same type, and so one that is structurally equal.
pub proof fn lemma_reference_then_dereference<C>(ty: Ty<C>)
    ensures
        ty.spec_reference().spec_dereference() == Some(ty),
        ty.spec_reference()@ == TyView::Ptr(Box::new(ty@)),
{
}

/// Parentheses round a type change neither what it means nor whether it
/// is valid.
pub proof fn lemma_parentheses_are_transparent(env: EnvView, ty: TySyntax)
    requires
        ty.kind is Paren,
    ensures
        ty.sem() == ty.kind->Paren_0.sem(),
        ty_failure(env, ty) == ty_failure(env, *ty.kind->Paren_0),
{
}

/// Dereferencing the address of an expression gives what the expression
/// itself gives: its type if it has one, else its failure.
pub proof fn lemma_address_then_dereference(env: EnvView, expr: Expr<Unchecked>)
    requires
        expr.kind matches ExprKind::Unary(UnOpKind::Deref, address) && address.kind
            matches ExprKind::Unary(UnOpKind::Ref, _),
    ensures
        expr_typed(env, expr) == expr_typed(env, *expr.kind->Unary_1.kind->Unary_1),
{
    let address = *expr.kind->Unary_1;
    let operand = *address.kind->Unary_1;
    let inner = expr_typed(env, operand);
    assert(expr_typed(env, address).env == inner.env);
}

/// A type that means the empty type is valid in every environment.
pub proof fn lemma_void_is_valid(env: EnvView, ty: TySyntax)
    requires
        ty.sem() is Void,
    ensures
        ty_failure(env, ty) is None,
    decreases ty,
{
    match ty.kind {
        TyKindSyntax::Paren(inner) => {
            lemma_void_is_valid(env, *inner);
        },
        _ => {},
    }
}

/// A record field or a variable of the empty type is refused, whatever
/// its name and whatever the environment.
pub proof fn lemma_void_field_is_refused(env: EnvView, field: FieldSyntax)
    requires
        field.ty.sem() is Void,
    ensures
        slot_step(env, field, Slot::Field).failure == Some(
            Failure { span: field.ty.span, kind: FailureKind::FieldDeclaredVoid(field.name) },
        ),
        slot_step(env, field, Slot::Field).env == env,
{
    lemma_void_is_valid(env, field.ty);
}

/// A parameter of the empty type is refused, in a function type and in a
/// function declaration, whatever the environment.
pub proof fn lemma_void_parameter_is_refused(env: EnvView, field: FieldSyntax)
    requires
        field.ty.sem() is Void,
    ensures
        param_ty_failure(env, field.ty) == Some(
            Failure { span: field.ty.span, kind: FailureKind::ParameterDeclaredVoid },
        ),
        slot_step(env, field, Slot::Param).failure == Some(
            Failure { span: field.ty.span, kind: FailureKind::ParameterDeclaredVoid },
        ),
        slot_step(env, field, Slot::Param).env == env,
{
    lemma_void_is_valid(env, field.ty);
}

/// A function may return the empty type: as return type it adds no
/// failure to a signature, so a signature whose parameters are accepted
/// is accepted with it.
pub proof fn lemma_void_return_is_accepted(env: EnvView, params: Seq<TySyntax>, return_ty: TySyntax)
    requires
        return_ty.sem() is Void,
    ensures
        signature_failure(env, params, return_ty) == param_tys_failure(env, params, params.len()),
{
    lemma_void_is_valid(env, return_ty);
}

/// A declaration in a freshly opened scope succeeds whatever the scopes
/// round it declare: it shadows them and is what the name then means.
pub proof fn lemma_inner_declaration_shadows(env: EnvView, name: Seq<char>, binding: BindingView)
    ensures
        env_declare_binding(env_enter(env), name, binding) is Ok,
        env_binding(env_declare_binding(env_enter(env), name, binding)->Ok_0, name) == Some(
            binding,
        ),
        env_declare_binding(env_enter(env), name, binding)->Ok_0.drop_first() == env,
{
    let inner = env_enter(env);
    let declared = env_declare_binding(inner, name, binding)->Ok_0;
    assert(declared.drop_first() =~= env);
}

/// A declaration writes to the innermost scope alone: the scopes round
/// it, and the enclosing function, stay as they are.
pub proof fn lemma_declaration_leaves_outer_scopes(
    env: EnvView,
    name: Seq<char>,
    binding: BindingView,
)
    requires
        env.len() >= 1,
        env_declare_binding(env, name, binding) is Ok,
    ensures
        env_declare_binding(env, name, binding)->Ok_0.len() == env.len(),
        env_declare_binding(env, name, binding)->Ok_0.drop_first() == env.drop_first(),
        env_return_ty(env_declare_binding(env, name, binding)->Ok_0) == env_return_ty(env),
{
    let declared = env_declare_binding(env, name, binding)->Ok_0;
    assert(declared.drop_first() =~= env.drop_first());
}

/// A second declaration of a name in the scope that declared it is
/// refused, with the place of the first declaration.
pub proof fn lemma_second_declaration_is_refused(
    env: EnvView,
    name: Seq<char>,
    first: BindingView,
    second: BindingView,
)
    requires
        env.len() >= 1,
        env_declare_binding(env, name, first) is Ok,
    ensures
        env_declare_binding(env_declare_binding(env, name, first)->Ok_0, name, second) == Err::<
            EnvView,
            Span,
        >(first.span),
{
}

/// A field or variable whose type is valid and not the empty type can
/// always be declared in a freshly opened scope, whatever the scopes
/// round it declare under the same name.
pub proof fn lemma_declaration_in_fresh_scope(env: EnvView, field: FieldSyntax)
    requires
        ty_failure(env_enter(env), field.ty) is None,
        !(field.ty.sem() is Void),
    ensures
        slot_step(env_enter(env), field, Slot::Field).failure is None,
        env_binding(slot_step(env_enter(env), field, Slot::Field).env, field.name) == Some(
            BindingView { span: field.span, ty: field.ty.sem() },
        ),
{
}

/// Declaring a name twice in one scope fails at the second declaration,
/// with the span of the first.
pub proof fn lemma_redeclaration_is_refused(env: EnvView, first: FieldSyntax, second: FieldSyntax)
    requires
        env.len() >= 1,
        first.name == second.name,
        slot_step(env, first, Slot::Field).failure is None,
        ty_failure(slot_step(env, first, Slot::Field).env, second.ty) is None,
        !(second.ty.sem() is Void),
    ensures
        slot_step(slot_step(env, first, Slot::Field).env, second, Slot::Field).failure == Some(
            Failure {
                span: second.span,
                kind: FailureKind::Redefinition(first.span, first.name),
            },
        ),
{
}

/// What a block, a branch, a loop or a function declares is gone when
/// the statement ends: such a statement leaves the scopes as it found
/// them, whether it fails or not. Only the condition of an `if` or a
/// `while` is analysed in the scope round it.
pub proof fn lemma_inner_scopes_leave_no_trace(env: EnvView, stmt: Stmt<Unchecked>)
    ensures
        stmt.kind is Compound ==> stmt_step(env, stmt).env == env,
        stmt.kind is FuncDecl ==> stmt_step(env, stmt).env == env,
        stmt.kind is TypeDecl ==> stmt_step(env, stmt).env == env,
        stmt.kind matches StmtKind::If(cond, _, _) ==> stmt_step(env, stmt).env == expr_typed(
            env,
            *cond,
        ).env,
        stmt.kind matches StmtKind::While(cond, _) ==> stmt_step(env, stmt).env == expr_typed(
            env,
            *cond,
        ).env,
{
}

/// The binding that forward declaration gives a declared function: its
/// signature, at the place of the declaration.
pub open spec fn declared_function(stmt: Stmt<Unchecked>) -> BindingView
    recommends
        stmt.kind is FuncDecl,
{
    let decl = stmt.kind->FuncDecl_0;
    BindingView {
        span: stmt.span,
        ty: TyView::Func(tys_sem(param_tys(decl.params@)), Box::new(decl.return_ty@)),
    }
}

/// Forward declaration changes nothing but the innermost scope, and
/// keeps what that scope bound before.
proof fn lemma_declare_step_keeps(env: EnvView, stmt: Stmt<Unchecked>, name: Seq<char>)
    requires
        env.len() >= 1,
        declare_step(env, stmt).failure is None,
        env[0].bindings.contains_key(name),
    ensures
        declare_step(env, stmt).env.len() == env.len(),
        declare_step(env, stmt).env[0].bindings.contains_key(name),
        declare_step(env, stmt).env[0].bindings[name] == env[0].bindings[name],
{
}

/// Once a list of statements is forward-declared, every function that
/// the list declares is bound in the current scope to its signature,
/// wherever in the list it stands: so the body of each function of a
/// scope may call every other, those declared after it too.
pub proof fn lemma_forward_declared_functions_are_bound(
    env: EnvView,
    stmts: Seq<Stmt<Unchecked>>,
    n: nat,
    i: int,
)
    requires
        env.len() >= 1,
        0 <= i < n <= stmts.len(),
        stmts[i].kind is FuncDecl,
        forward_step(env, stmts, n).failure is None,
    ensures
        forward_step(env, stmts, n).env.len() == env.len(),
        env_binding(forward_step(env, stmts, n).env, stmts[i].kind->FuncDecl_0.name@) == Some(
            declared_function(stmts[i]),
        ),
    decreases n,
{
    let name = stmts[i].kind->FuncDecl_0.name@;
    let before = forward_step(env, stmts, (n - 1) as nat);
    lemma_forward_step_keeps_depth(env, stmts, (n - 1) as nat);
    if i < n - 1 {
        lemma_forward_declared_functions_are_bound(env, stmts, (n - 1) as nat, i);
        assert(before.env[0].bindings.contains_key(name)) by {
            if !before.env[0].bindings.contains_key(name) {
                assert(env_binding(before.env, name) == env_binding(
                    before.env.drop_first(),
                    name,
                ));
                lemma_forward_step_keeps_outer(env, stmts, (n - 1) as nat);
                lemma_forward_declared_in_frame(env, stmts, (n - 1) as nat, i);
            }
        }
        lemma_declare_step_keeps(before.env, stmts[n - 1], name);
    } else {
        let after = declare_step(before.env, stmts[i]).env;
        assert(after[0].bindings.contains_key(name));
    }
}

/// Forward declaration keeps the number of scopes.
proof fn lemma_forward_step_keeps_depth(env: EnvView, stmts: Seq<Stmt<Unchecked>>, n: nat)
    requires
        env.len() >= 1,
        n <= stmts.len(),
    ensures
        forward_step(env, stmts, n).env.len() == env.len(),
    decreases n,
{
    if n > 0 {
        lemma_forward_step_keeps_depth(env, stmts, (n - 1) as nat);
    }
}

/// Forward declaration leaves the scopes round the current one alone.
proof fn lemma_forward_step_keeps_outer(env: EnvView, stmts: Seq<Stmt<Unchecked>>, n: nat)
    requires
        env.len() >= 1,
        n <= stmts.len(),
    ensures
        forward_step(env, stmts, n).env.drop_first() == env.drop_first(),
    decreases n,
{
    if n > 0 {
        lemma_forward_step_keeps_outer(env, stmts, (n - 1) as nat);
        lemma_forward_step_keeps_depth(env, stmts, (n - 1) as nat);
        let before = forward_step(env, stmts, (n - 1) as nat);
        let after = forward_step(env, stmts, n);
        assert(after.env.drop_first() =~= before.env.drop_first());
    }
}

/// A forward-declared function is bound in the current scope itself.
proof fn lemma_forward_declared_in_frame(
    env: EnvView,
    stmts: Seq<Stmt<Unchecked>>,
    n: nat,
    i: int,
)
    requires
        env.len() >= 1,
        0 <= i < n <= stmts.len(),
        stmts[i].kind is FuncDecl,
        forward_step(env, stmts, n).failure is None,
    ensures
        forward_step(env, stmts, n).env[0].bindings.contains_key(
            stmts[i].kind->FuncDecl_0.name@,
        ),
    decreases n,
{
    let name = stmts[i].kind->FuncDecl_0.name@;
    let before = forward_step(env, stmts, (n - 1) as nat);
    lemma_forward_step_keeps_depth(env, stmts, (n - 1) as nat);
    if i < n - 1 {
        lemma_forward_declared_in_frame(env, stmts, (n - 1) as nat, i);
        lemma_declare_step_keeps(before.env, stmts[n - 1], name);
    }
}

/// A call of something that is no function fails, with the type that was
/// called, at the place of the callee.
pub proof fn lemma_call_of_non_function(env: EnvView, call: Expr<Unchecked>)
    requires
        call.kind is Call,
        expr_typed(env, *call.kind->Call_0).result matches Ok(ty) && !(ty is Func),
    ensures
        expr_typed(env, call).result == Err::<TyView, Failure>(
            Failure {
                span: call.kind->Call_0.span,
                kind: FailureKind::NotAFunction(expr_typed(env, *call.kind->Call_0).result->Ok_0),
            },
        ),
{
}

/// A call whose arguments have exactly the types of the parameters, one
/// for one, resolves to the declared return type.
pub proof fn lemma_call_with_matching_arguments(env: EnvView, call: Expr<Unchecked>)
    requires
        call.kind is Call,
        expr_typed(env, *call.kind->Call_0).result matches Ok(TyView::Func(params, _))
            && exprs_typed(
            expr_typed(env, *call.kind->Call_0).env,
            call.kind->Call_1@,
            call.kind->Call_1.len() as nat,
        ).result == Ok::<Seq<TyView>, Failure>(params),
    ensures
        expr_typed(env, call).result matches Ok(ty) && expr_typed(
            env,
            *call.kind->Call_0,
        ).result matches Ok(TyView::Func(_, return_ty)) && ty == *return_ty,
{
    let target = expr_typed(env, *call.kind->Call_0);
    let args = call.kind->Call_1@;
    match target.result {
        Ok(TyView::Func(params, return_ty)) => {
            lemma_equal_args_convert(params, expr_spans(args), params.len());
        },
        _ => {},
    }
}

/// Arguments that have the parameters' types all convert.
proof fn lemma_equal_args_convert(params: Seq<TyView>, spans: Seq<Span>, n: nat)
    ensures
        args_failure(params, spans, params, n) is None,
    decreases n,
{
    if n > 0 {
        lemma_equal_args_convert(params, spans, (n - 1) as nat);
    }
}

/// Arguments that agree with the parameters up to `n` all convert.
proof fn lemma_agreeing_args_convert(
    params: Seq<TyView>,
    spans: Seq<Span>,
    args: Seq<TyView>,
    n: nat,
)
    requires
        forall|j: int| 0 <= j < n ==> args[j] == params[j],
    ensures
        args_failure(params, spans, args, n) is None,
    decreases n,
{
    if n > 0 {
        lemma_agreeing_args_convert(params, spans, args, (n - 1) as nat);
    }
}

/// A call with the right number of arguments, the first `i` of which have
/// their parameters' types while argument `i` has another, fails with a
/// type error at that argument: the parameter's type was expected.
pub proof fn lemma_call_with_mismatched_argument(env: EnvView, call: Expr<Unchecked>, i: int)
    requires
        call.kind is Call,
        expr_typed(env, *call.kind->Call_0).result matches Ok(TyView::Func(params, _))
            && exprs_typed(
            expr_typed(env, *call.kind->Call_0).env,
            call.kind->Call_1@,
            call.kind->Call_1.len() as nat,
        ).result matches Ok(tys) && tys.len() == params.len() && 0 <= i < tys.len() && tys[i]
            != params[i] && (forall|j: int| 0 <= j < i ==> tys[j] == params[j]),
    ensures
        expr_typed(env, *call.kind->Call_0).result matches Ok(TyView::Func(params, _))
            && exprs_typed(
            expr_typed(env, *call.kind->Call_0).env,
            call.kind->Call_1@,
            call.kind->Call_1.len() as nat,
        ).result matches Ok(tys) && expr_typed(env, call).result == Err::<TyView, Failure>(
            Failure {
                span: call.kind->Call_1[i].span,
                kind: FailureKind::TypeError(params[i], tys[i]),
            },
        ),
{
    let target = expr_typed(env, *call.kind->Call_0);
    let args = call.kind->Call_1@;
    let given = exprs_typed(target.env, args, args.len());
    match target.result {
        Ok(TyView::Func(params, return_ty)) => {
            let tys = given.result->Ok_0;
            let spans = expr_spans(args);
            lemma_agreeing_args_convert(params, spans, tys, i as nat);
            assert(args_failure(params, spans, tys, (i + 1) as nat) is Some);
            crate::check::annotation::lemma_exprs_typed_len(target.env, args, args.len());
            lemma_args_failure_stays(params, spans, tys, (i + 1) as nat, tys.len());
        },
        _ => {},
    }
}

/// The statement declares a function `name` without parameters that
/// returns `u8`, and whose whole body is `return callee();`.
pub open spec fn returns_call_of(stmt: Stmt<Unchecked>, name: Seq<char>, callee: Seq<char>)
    -> bool {
    &&& stmt.kind matches StmtKind::FuncDecl(decl)
    &&& decl.name@ == name
    &&& decl.params.len() == 0
    &&& decl.return_ty.syntax().kind == TyKindSyntax::U8
    &&& decl.body.kind matches StmtKind::Compound(stmts)
    &&& stmts.len() == 1
    &&& stmts[0].kind matches StmtKind::Return(value)
    &&& value.kind matches ExprKind::Call(target, args)
    &&& args.len() == 0
    &&& target.kind matches ExprKind::Name(called)
    &&& called@ == callee
}

/// A function whose body returns the call of a function that the
/// environment binds, without parameters and returning `u8`, checks.
proof fn lemma_returned_call_checks(
    env: EnvView,
    stmt: Stmt<Unchecked>,
    name: Seq<char>,
    callee: Seq<char>,
)
    requires
        env.len() >= 1,
        returns_call_of(stmt, name, callee),
        env_binding(env, callee) matches Some(binding) && binding.ty == TyView::Func(
            Seq::empty(),
            Box::new(TyView::U8),
        ),
    ensures
        stmt_step(env, stmt) == (crate::check::rules::Step { env, failure: None }),
{
    let decl = stmt.kind->FuncDecl_0;
    let stmts = decl.body.kind->Compound_0@;
    let value = stmts[0].kind->Return_0;
    let target = value.kind->Call_0;
    let args = value.kind->Call_1@;
    let params_env = env_enter(env);
    assert(slots_step(params_env, crate::ast::ty::fields_syntax(decl.params@), 0, Slot::Param).env
        == params_env);
    assert(decl.return_ty@ == TyView::U8);
    let func_env = env_enter_func(params_env, TyView::U8);
    let body_env = env_enter(func_env);
    assert(body_env.drop_first() =~= func_env);
    assert(func_env.drop_first() =~= params_env);
    assert(params_env.drop_first() =~= env);
    assert(env_binding(body_env, callee) == env_binding(env, callee)) by {
        assert(env_binding(body_env, callee) == env_binding(func_env, callee));
        assert(env_binding(func_env, callee) == env_binding(params_env, callee));
        assert(env_binding(params_env, callee) == env_binding(env, callee));
    }
    assert(env_return_ty(body_env) == Some(TyView::U8)) by {
        assert(env_return_ty(body_env) == env_return_ty(func_env));
    }
    assert(forward_step(body_env, stmts, 1).env == body_env) by {
        assert(forward_step(body_env, stmts, 0).env == body_env);
        assert(declare_step(body_env, stmts[0]).env == body_env);
    }
    let called = expr_typed(body_env, *target);
    assert(called.env == body_env);
    assert(called.result == Ok::<TyView, Failure>(
        TyView::Func(Seq::empty(), Box::new(TyView::U8)),
    ));
    let given = exprs_typed(body_env, args, 0);
    assert(given.result == Ok::<Seq<TyView>, Failure>(Seq::empty()));
    assert(args_failure(Seq::empty(), expr_spans(args), Seq::empty(), 0) is None);
    let returned = expr_typed(body_env, *value);
    assert(returned.env == body_env);
    assert(returned.result == Ok::<TyView, Failure>(TyView::U8));
    assert(stmt_step(body_env, stmts[0]).failure is None);
    assert(each_step(body_env, stmts, 1).failure is None) by {
        assert(each_step(body_env, stmts, 0).env == body_env);
    }
    assert(stmts_step(body_env, stmts).failure is None);
    assert(stmt_step(func_env, decl.body).failure is None);
}

/// Two sibling functions that call each other check, whichever stands
/// first: forward declaration has bound both names before either body is
/// looked at. The law is stated for two functions without parameters that
/// return `u8`, each returning the call of the other, at the top level of
/// a program and in any inner scope, whatever their names and spans.
pub proof fn lemma_mutual_recursion_checks(
    env: EnvView,
    stmts: Seq<Stmt<Unchecked>>,
    first: Seq<char>,
    second: Seq<char>,
)
    requires
        env.len() >= 1,
        stmts.len() == 2,
        first != second,
        !env[0].bindings.contains_key(first),
        !env[0].bindings.contains_key(second),
        returns_call_of(stmts[0], first, second),
        returns_call_of(stmts[1], second, first),
    ensures
        stmts_step(env, stmts).failure is None,
        program_step(env, stmts).failure is None,
{
    let signature = TyView::Func(Seq::empty(), Box::new(TyView::U8));
    assert(forward_step(env, stmts, 0).env == env);
    let one = declare_step(env, stmts[0]);
    assert(tys_sem(param_tys(stmts[0].kind->FuncDecl_0.params@)) =~= Seq::<TyView>::empty());
    assert(tys_sem(param_tys(stmts[1].kind->FuncDecl_0.params@)) =~= Seq::<TyView>::empty());
    assert(param_tys_failure(env, param_tys(stmts[0].kind->FuncDecl_0.params@), 0) is None);
    assert(one.failure is None);
    assert(forward_step(env, stmts, 1) == one);
    assert(param_tys_failure(one.env, param_tys(stmts[1].kind->FuncDecl_0.params@), 0) is None);
    let two = declare_step(one.env, stmts[1]);
    assert(two.failure is None);
    assert(forward_step(env, stmts, 2) == two);
    let declared = two.env;
    assert(env_binding(declared, first) matches Some(binding) && binding.ty == signature);
    assert(env_binding(declared, second) matches Some(binding) && binding.ty == signature);
    lemma_returned_call_checks(declared, stmts[0], first, second);
    lemma_returned_call_checks(declared, stmts[1], second, first);
    assert(each_step(declared, stmts, 0).env == declared);
    assert(each_step(declared, stmts, 1).env == declared);
    assert(each_step(declared, stmts, 2).failure is None);
    assert(top_level_steps(declared, stmts, 0).env == declared);
    assert(top_level_steps(declared, stmts, 1).env == declared);
    assert(top_level_steps(declared, stmts, 2).failure is None);
}

} // verus!
