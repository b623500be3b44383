use sema::ast::expr::{BinOpKind, Expr, ExprKind, Literal, UnOpKind};
use sema::ast::ty::{Field, FuncTy, StructTy, Ty, TyKind};
use sema::ast::{FuncDecl, Program, Stmt, StmtKind, TypeDecl};
use sema::check::typecheck::Checker;
use sema::check::{Checked, SemanticError, SemanticErrorKind, Unchecked};
use sema::parser::span::{Location, Span};

fn sp(line: usize, col: usize) -> Span {
    Span(Location::at(line, col), Location::at(line, col + 1))
}

fn u8_ty(span: Span) -> Ty<Unchecked> {
    Ty::new(span, TyKind::U8)
}

fn void_ty(span: Span) -> Ty<Unchecked> {
    Ty::new(span, TyKind::Void)
}

fn checked_u8() -> Ty<Checked> {
    Ty::new(Span::default(), TyKind::U8)
}

fn checked_void() -> Ty<Checked> {
    Ty::new(Span::default(), TyKind::Void)
}

fn checked_ptr(inner: Ty<Checked>) -> Ty<Checked> {
    Ty::new(Span::default(), TyKind::Ptr(Box::new(inner)))
}

fn checked_func(params: Vec<Ty<Checked>>, ret: Ty<Checked>) -> Ty<Checked> {
    Ty::new(Span::default(), TyKind::Func(Box::new(FuncTy::new(params, ret))))
}

fn field(span: Span, name: &str, ty: Ty<Unchecked>) -> Field<Unchecked> {
    Field::new(span, name.to_string(), ty)
}

fn name(span: Span, text: &str) -> Expr<Unchecked> {
    Expr::unchecked(span, ExprKind::Name(text.to_string()))
}

fn lit(span: Span, value: i64) -> Expr<Unchecked> {
    Expr::unchecked(span, ExprKind::Literal(Literal::Integer(value)))
}

fn binary(span: Span, op: BinOpKind, lhs: Expr<Unchecked>, rhs: Expr<Unchecked>) -> Expr<Unchecked> {
    Expr::unchecked(span, ExprKind::Binary(op, Box::new(lhs), Box::new(rhs)))
}

fn unary(span: Span, op: UnOpKind, operand: Expr<Unchecked>) -> Expr<Unchecked> {
    Expr::unchecked(span, ExprKind::Unary(op, Box::new(operand)))
}

fn call(span: Span, callee: Expr<Unchecked>, args: Vec<Expr<Unchecked>>) -> Expr<Unchecked> {
    Expr::unchecked(span, ExprKind::Call(Box::new(callee), args))
}

fn decl(span: Span, text: &str, ty: Ty<Unchecked>, init: Option<Expr<Unchecked>>) -> Expr<Unchecked> {
    Expr::unchecked(span, ExprKind::Decl(field(span, text, ty), init.map(Box::new)))
}

fn expr_stmt(span: Span, expr: Expr<Unchecked>) -> Stmt<Unchecked> {
    Stmt::new(span, StmtKind::Expr(Box::new(expr)))
}

fn ret(span: Span, expr: Expr<Unchecked>) -> Stmt<Unchecked> {
    Stmt::new(span, StmtKind::Return(Box::new(expr)))
}

fn block(span: Span, stmts: Vec<Stmt<Unchecked>>) -> Stmt<Unchecked> {
    Stmt::new(span, StmtKind::Compound(stmts))
}

fn func(
    span: Span,
    text: &str,
    params: Vec<Field<Unchecked>>,
    return_ty: Ty<Unchecked>,
    body: Vec<Stmt<Unchecked>>,
) -> Stmt<Unchecked> {
    let body = block(span, body);
    Stmt::new(
        span,
        StmtKind::FuncDecl(Box::new(FuncDecl::new(text.to_string(), params, return_ty, body))),
    )
}

fn type_decl(span: Span, text: &str, ty: Ty<Unchecked>) -> Stmt<Unchecked> {
    Stmt::new(span, StmtKind::TypeDecl(Box::new(TypeDecl::new(text.to_string(), ty))))
}

fn struct_ty(span: Span, fields: Vec<Field<Unchecked>>) -> Ty<Unchecked> {
    Ty::new(span, TyKind::Struct(Box::new(StructTy::new(fields))))
}

fn program(stmts: Vec<Stmt<Unchecked>>) -> Program<Unchecked> {
    Program::new(sp(0, 0), stmts)
}

fn check(stmts: Vec<Stmt<Unchecked>>) -> Result<Program<Checked>, SemanticError> {
    Checker::new().check_program(program(stmts))
}

fn failure(result: Result<Program<Checked>, SemanticError>) -> SemanticError {
    match result {
        Ok(_) => panic!("the program was expected to fail"),
        Err(error) => error,
    }
}

fn expr_failure(result: Result<Expr<Checked>, SemanticError>) -> SemanticError {
    match result {
        Ok(_) => panic!("the expression was expected to fail"),
        Err(error) => error,
    }
}

fn add_function() -> Stmt<Unchecked> {
    // func add(u8 a, u8 b) -> u8 { return a + b; }
    func(
        sp(1, 0),
        "add",
        vec![field(sp(1, 9), "a", u8_ty(sp(1, 9))), field(sp(1, 15), "b", u8_ty(sp(1, 15)))],
        u8_ty(sp(1, 22)),
        vec![ret(
            sp(1, 27),
            binary(sp(1, 34), BinOpKind::Add, name(sp(1, 34), "a"), name(sp(1, 38), "b")),
        )],
    )
}

#[test]
fn add_function_checks_and_has_function_type() {
    let mut checker = Checker::new();
    let checked = checker.check_program(program(vec![add_function()]));
    assert!(checked.is_ok());
    let add = checker.check_expr(name(sp(2, 0), "add")).ok().unwrap();
    assert_eq!(add.info, checked_func(vec![checked_u8(), checked_u8()], checked_u8()));
}

#[test]
fn checked_tree_carries_resolved_types() {
    let checked = check(vec![add_function()]).ok().unwrap();
    assert_eq!(checked.span, sp(0, 0));
    assert_eq!(checked.stmts.len(), 1);
    let decl = match &checked.stmts[0].kind {
        StmtKind::FuncDecl(decl) => decl,
        _ => panic!("a function declaration was expected"),
    };
    assert_eq!(decl.name, "add");
    assert_eq!(decl.params.len(), 2);
    let body = match &decl.body.kind {
        StmtKind::Compound(stmts) => stmts,
        _ => panic!("a block was expected"),
    };
    let sum = match &body[0].kind {
        StmtKind::Return(expr) => expr,
        _ => panic!("a return was expected"),
    };
    assert_eq!(sum.info, checked_u8());
    match &sum.kind {
        ExprKind::Binary(BinOpKind::Add, lhs, rhs) => {
            assert_eq!(lhs.info, checked_u8());
            assert_eq!(rhs.info, checked_u8());
            assert_eq!(lhs.span, sp(1, 34));
        }
        _ => panic!("a sum was expected"),
    }
}

#[test]
fn mutually_recursive_functions_check() {
    // func f() -> u8 { return g(); } func g() -> u8 { return f(); }
    let f = func(
        sp(1, 0),
        "f",
        vec![],
        u8_ty(sp(1, 12)),
        vec![ret(sp(1, 17), call(sp(1, 24), name(sp(1, 24), "g"), vec![]))],
    );
    let g = func(
        sp(2, 0),
        "g",
        vec![],
        u8_ty(sp(2, 12)),
        vec![ret(sp(2, 17), call(sp(2, 24), name(sp(2, 24), "f"), vec![]))],
    );
    assert!(check(vec![f, g]).is_ok());
}

#[test]
fn void_field_in_struct_fails() {
    // struct S { void x; }
    let s = type_decl(
        sp(1, 0),
        "S",
        struct_ty(sp(1, 9), vec![field(sp(1, 11), "x", void_ty(sp(1, 11)))]),
    );
    let error = failure(check(vec![s]));
    assert_eq!(error.span, sp(1, 11));
    match error.kind {
        SemanticErrorKind::FieldDeclaredVoid(name) => assert_eq!(name, "x"),
        other => panic!("unexpected error {:?}", other),
    }
}

#[test]
fn second_declaration_in_same_block_is_redefinition() {
    // { u8 x; u8 x; }
    let body = block(
        sp(1, 0),
        vec![
            expr_stmt(sp(1, 2), decl(sp(1, 2), "x", u8_ty(sp(1, 2)), None)),
            expr_stmt(sp(1, 8), decl(sp(1, 8), "x", u8_ty(sp(1, 8)), None)),
        ],
    );
    let mut checker = Checker::new();
    let error = match checker.check_stmt(body) {
        Ok(_) => panic!("the block was expected to fail"),
        Err(error) => error,
    };
    assert_eq!(error.span, sp(1, 8));
    match error.kind {
        SemanticErrorKind::Redefinition(origin, name) => {
            assert_eq!(origin, sp(1, 2));
            assert_eq!(name, "x");
        }
        other => panic!("unexpected error {:?}", other),
    }
}

#[test]
fn second_declaration_in_function_body_is_redefinition() {
    // func f() -> void { u8 x; u8 x; }
    let f = func(
        sp(1, 0),
        "f",
        vec![],
        void_ty(sp(1, 12)),
        vec![
            expr_stmt(sp(1, 19), decl(sp(1, 19), "x", u8_ty(sp(1, 19)), None)),
            expr_stmt(sp(1, 25), decl(sp(1, 25), "x", u8_ty(sp(1, 25)), None)),
        ],
    );
    let error = failure(check(vec![f]));
    assert_eq!(error.span, sp(1, 25));
    match error.kind {
        SemanticErrorKind::Redefinition(origin, name) => {
            assert_eq!(origin, sp(1, 19));
            assert_eq!(name, "x");
        }
        other => panic!("unexpected error {:?}", other),
    }
}

#[test]
fn block_at_top_level_is_illegal() {
    let error = failure(check(vec![block(sp(1, 0), vec![])]));
    assert_eq!(error.span, sp(1, 0));
    assert!(matches!(error.kind, SemanticErrorKind::IllegalStatement));
}

#[test]
fn while_at_top_level_is_illegal() {
    // while (1) { }
    let stmt = Stmt::new(
        sp(1, 0),
        StmtKind::While(Box::new(lit(sp(1, 7), 1)), Box::new(block(sp(1, 10), vec![]))),
    );
    let error = failure(check(vec![stmt]));
    assert_eq!(error.span, sp(1, 0));
    assert!(matches!(error.kind, SemanticErrorKind::IllegalStatement));
}

#[test]
fn call_with_unknown_argument_is_undefined() {
    // func h(u8 a) -> u8 { return a; } h(unknown_name);
    let h = func(
        sp(1, 0),
        "h",
        vec![field(sp(1, 7), "a", u8_ty(sp(1, 7)))],
        u8_ty(sp(1, 16)),
        vec![ret(sp(1, 21), name(sp(1, 28), "a"))],
    );
    let mut checker = Checker::new();
    assert!(checker.check_program(program(vec![h])).is_ok());
    let error = expr_failure(
        checker.check_expr(call(sp(2, 0), name(sp(2, 0), "h"), vec![name(sp(2, 2), "unknown_name")])),
    );
    assert_eq!(error.span, sp(2, 2));
    match error.kind {
        SemanticErrorKind::Undefined(name) => assert_eq!(name, "unknown_name"),
        other => panic!("unexpected error {:?}", other),
    }
}

#[test]
fn call_with_unknown_argument_in_function_body_is_undefined() {
    // func h(u8 a) -> u8 { return a; } func main() -> void { h(unknown_name); }
    let h = func(
        sp(1, 0),
        "h",
        vec![field(sp(1, 7), "a", u8_ty(sp(1, 7)))],
        u8_ty(sp(1, 16)),
        vec![ret(sp(1, 21), name(sp(1, 28), "a"))],
    );
    let main = func(
        sp(2, 0),
        "main",
        vec![],
        void_ty(sp(2, 15)),
        vec![expr_stmt(
            sp(2, 22),
            call(sp(2, 22), name(sp(2, 22), "h"), vec![name(sp(2, 24), "unknown_name")]),
        )],
    );
    let error = failure(check(vec![h, main]));
    assert_eq!(error.span, sp(2, 24));
    match error.kind {
        SemanticErrorKind::Undefined(name) => assert_eq!(name, "unknown_name"),
        other => panic!("unexpected error {:?}", other),
    }
}

#[test]
fn call_as_top_level_statement_is_illegal() {
    let h = func(
        sp(1, 0),
        "h",
        vec![field(sp(1, 7), "a", u8_ty(sp(1, 7)))],
        u8_ty(sp(1, 16)),
        vec![ret(sp(1, 21), name(sp(1, 28), "a"))],
    );
    let stmt = expr_stmt(sp(2, 0), call(sp(2, 0), name(sp(2, 0), "h"), vec![lit(sp(2, 2), 1)]));
    let error = failure(check(vec![h, stmt]));
    assert_eq!(error.span, sp(2, 0));
    assert!(matches!(error.kind, SemanticErrorKind::IllegalStatement));
}

#[test]
fn binding_in_block_is_not_visible_after_it() {
    let mut checker = Checker::new();
    let body = block(
        sp(1, 0),
        vec![expr_stmt(sp(1, 2), decl(sp(1, 2), "x", u8_ty(sp(1, 2)), None))],
    );
    assert!(checker.check_stmt(body).is_ok());
    let error = expr_failure(checker.check_expr(name(sp(2, 0), "x")));
    match error.kind {
        SemanticErrorKind::Undefined(name) => assert_eq!(name, "x"),
        other => panic!("unexpected error {:?}", other),
    }
}

#[test]
fn inner_declaration_shadows_outer() {
    let mut checker = Checker::new();
    assert!(checker.check_expr(decl(sp(1, 0), "x", u8_ty(sp(1, 0)), None)).is_ok());
    let ptr = Ty::new(sp(2, 2), TyKind::Ptr(Box::new(u8_ty(sp(2, 2)))));
    let body = block(
        sp(2, 0),
        vec![
            expr_stmt(sp(2, 2), decl(sp(2, 2), "x", ptr, None)),
            expr_stmt(sp(2, 9), unary(sp(2, 9), UnOpKind::Deref, name(sp(2, 10), "x"))),
        ],
    );
    assert!(checker.check_stmt(body).is_ok());
    let outer = checker.check_expr(name(sp(3, 0), "x")).ok().unwrap();
    assert_eq!(outer.info, checked_u8());
}

#[test]
fn void_parameter_fails() {
    let f = func(
        sp(1, 0),
        "f",
        vec![field(sp(1, 7), "a", void_ty(sp(1, 7)))],
        u8_ty(sp(1, 16)),
        vec![],
    );
    let error = failure(check(vec![f]));
    assert_eq!(error.span, sp(1, 7));
    assert!(matches!(error.kind, SemanticErrorKind::ParameterDeclaredVoid));
}

#[test]
fn void_parameter_fails_without_forward_declaration() {
    let f = func(
        sp(1, 0),
        "f",
        vec![field(sp(1, 7), "a", void_ty(sp(1, 7)))],
        u8_ty(sp(1, 16)),
        vec![],
    );
    let error = match Checker::new().check_stmt(f) {
        Ok(_) => panic!("the declaration was expected to fail"),
        Err(error) => error,
    };
    assert!(matches!(error.kind, SemanticErrorKind::ParameterDeclaredVoid));
}

#[test]
fn void_return_type_succeeds() {
    let f = func(sp(1, 0), "f", vec![], void_ty(sp(1, 12)), vec![]);
    assert!(check(vec![f]).is_ok());
}

#[test]
fn void_variable_fails() {
    let error = expr_failure(
        Checker::new().check_expr(decl(sp(1, 0), "v", void_ty(sp(1, 0)), None)),
    );
    match error.kind {
        SemanticErrorKind::FieldDeclaredVoid(name) => assert_eq!(name, "v"),
        other => panic!("unexpected error {:?}", other),
    }
}

#[test]
fn parenthesised_void_variable_fails() {
    let ty = Ty::new(sp(1, 0), TyKind::Paren(Box::new(void_ty(sp(1, 1)))));
    let error = expr_failure(Checker::new().check_expr(decl(sp(1, 0), "v", ty, None)));
    assert!(matches!(error.kind, SemanticErrorKind::FieldDeclaredVoid(_)));
}

#[test]
fn calling_a_variable_is_not_a_function() {
    let mut checker = Checker::new();
    assert!(checker.check_expr(decl(sp(1, 0), "x", u8_ty(sp(1, 0)), None)).is_ok());
    let error = expr_failure(checker.check_expr(call(sp(2, 0), name(sp(2, 0), "x"), vec![])));
    assert_eq!(error.span, sp(2, 0));
    match error.kind {
        SemanticErrorKind::NotAFunction(ty) => assert_eq!(ty, checked_u8()),
        other => panic!("unexpected error {:?}", other),
    }
}

fn checker_with_h() -> Checker<'static> {
    // func h(u8 a) -> u8* { ... } is declared only: its body is not needed.
    let mut checker = Checker::new();
    let ret_ty = Ty::new(sp(1, 16), TyKind::Ptr(Box::new(u8_ty(sp(1, 16)))));
    let h = func(sp(1, 0), "h", vec![field(sp(1, 7), "a", u8_ty(sp(1, 7)))], ret_ty, vec![]);
    assert!(checker.forward_declare(&vec![h]).is_ok());
    checker
}

#[test]
fn call_with_matching_argument_has_return_type() {
    let mut checker = checker_with_h();
    let checked = checker
        .check_expr(call(sp(2, 0), name(sp(2, 0), "h"), vec![lit(sp(2, 2), 7)]))
        .ok()
        .unwrap();
    assert_eq!(checked.info, checked_ptr(checked_u8()));
    match checked.kind {
        ExprKind::Call(callee, args) => {
            assert_eq!(callee.info, checked_func(vec![checked_u8()], checked_ptr(checked_u8())));
            assert_eq!(args.len(), 1);
            assert_eq!(args[0].info, checked_u8());
        }
        _ => panic!("a call was expected"),
    }
}

#[test]
fn call_with_mismatched_argument_is_type_error() {
    let mut checker = checker_with_h();
    let arg = unary(sp(2, 2), UnOpKind::Ref, lit(sp(2, 3), 7));
    let error = expr_failure(checker.check_expr(call(sp(2, 0), name(sp(2, 0), "h"), vec![arg])));
    assert_eq!(error.span, sp(2, 2));
    match error.kind {
        SemanticErrorKind::TypeError(expected, actual) => {
            assert_eq!(expected, checked_u8());
            assert_eq!(actual, checked_ptr(checked_u8()));
        }
        other => panic!("unexpected error {:?}", other),
    }
}

#[test]
fn call_with_wrong_number_of_arguments_is_arity_mismatch() {
    let mut checker = checker_with_h();
    let error = expr_failure(checker.check_expr(call(
        sp(2, 0),
        name(sp(2, 0), "h"),
        vec![lit(sp(2, 2), 1), lit(sp(2, 5), 2)],
    )));
    assert_eq!(error.span, sp(2, 0));
    match error.kind {
        SemanticErrorKind::ArityMismatch(params, args) => {
            assert_eq!(params, 1);
            assert_eq!(args, 2);
        }
        other => panic!("unexpected error {:?}", other),
    }
}

#[test]
fn literal_is_u8() {
    let checked = Checker::new().check_expr(lit(sp(1, 0), 300)).ok().unwrap();
    assert_eq!(checked.info, checked_u8());
    assert_eq!(checked.span, sp(1, 0));
}

#[test]
fn binary_operands_must_have_equal_types() {
    let lhs = lit(sp(1, 0), 1);
    let rhs = unary(sp(1, 4), UnOpKind::Ref, lit(sp(1, 5), 2));
    let error = expr_failure(
        Checker::new().check_expr(binary(sp(1, 0), BinOpKind::Add, lhs, rhs)),
    );
    assert_eq!(error.span, sp(1, 0));
    match error.kind {
        SemanticErrorKind::InvalidBinary(op, lhs, rhs) => {
            assert_eq!(op, BinOpKind::Add);
            assert_eq!(lhs, checked_u8());
            assert_eq!(rhs, checked_ptr(checked_u8()));
        }
        other => panic!("unexpected error {:?}", other),
    }
}

#[test]
fn address_then_dereference_gives_operand_type() {
    let inner = unary(sp(1, 1), UnOpKind::Ref, lit(sp(1, 2), 5));
    let checked = Checker::new()
        .check_expr(unary(sp(1, 0), UnOpKind::Deref, inner))
        .ok()
        .unwrap();
    assert_eq!(checked.info, checked_u8());
}

#[test]
fn dereference_of_non_pointer_is_invalid_unary() {
    let error = expr_failure(
        Checker::new().check_expr(unary(sp(1, 0), UnOpKind::Deref, lit(sp(1, 1), 5))),
    );
    assert_eq!(error.span, sp(1, 0));
    match error.kind {
        SemanticErrorKind::InvalidUnary(op, ty) => {
            assert_eq!(op, UnOpKind::Deref);
            assert_eq!(ty, checked_u8());
        }
        other => panic!("unexpected error {:?}", other),
    }
}

#[test]
fn negation_is_defined_for_no_type() {
    let error = expr_failure(
        Checker::new().check_expr(unary(sp(1, 0), UnOpKind::Neg, lit(sp(1, 1), 5))),
    );
    match error.kind {
        SemanticErrorKind::InvalidUnary(op, ty) => {
            assert_eq!(op, UnOpKind::Neg);
            assert_eq!(ty, checked_u8());
        }
        other => panic!("unexpected error {:?}", other),
    }
}

#[test]
fn declaration_without_initializer_has_no_value() {
    let checked = Checker::new()
        .check_expr(decl(sp(1, 0), "x", u8_ty(sp(1, 0)), None))
        .ok()
        .unwrap();
    assert_eq!(checked.info, checked_void());
}

#[test]
fn declaration_with_initializer_has_field_type() {
    let checked = Checker::new()
        .check_expr(decl(sp(1, 0), "x", u8_ty(sp(1, 0)), Some(lit(sp(1, 7), 1))))
        .ok()
        .unwrap();
    assert_eq!(checked.info, checked_u8());
}

#[test]
fn declaration_with_wrong_initializer_is_type_error() {
    let init = unary(sp(1, 7), UnOpKind::Ref, lit(sp(1, 8), 1));
    let error = expr_failure(
        Checker::new().check_expr(decl(sp(1, 0), "x", u8_ty(sp(1, 0)), Some(init))),
    );
    assert_eq!(error.span, sp(1, 7));
    assert!(matches!(error.kind, SemanticErrorKind::TypeError(_, _)));
}

#[test]
fn cast_takes_the_written_type() {
    let ty = Ty::new(sp(1, 5), TyKind::Ptr(Box::new(u8_ty(sp(1, 5)))));
    let cast = Expr::unchecked(sp(1, 0), ExprKind::Cast(Box::new(lit(sp(1, 0), 1)), ty));
    let checked = Checker::new().check_expr(cast).ok().unwrap();
    assert_eq!(checked.info, checked_ptr(checked_u8()));
}

#[test]
fn cast_to_unknown_alias_is_undefined() {
    let ty = Ty::new(sp(1, 5), TyKind::Alias("T".to_string()));
    let cast = Expr::unchecked(sp(1, 0), ExprKind::Cast(Box::new(lit(sp(1, 0), 1)), ty));
    let error = expr_failure(Checker::new().check_expr(cast));
    assert_eq!(error.span, sp(1, 5));
    assert!(matches!(error.kind, SemanticErrorKind::Undefined(_)));
}

#[test]
fn return_of_wrong_type_is_type_error() {
    let f = func(
        sp(1, 0),
        "f",
        vec![],
        u8_ty(sp(1, 12)),
        vec![ret(sp(1, 17), unary(sp(1, 24), UnOpKind::Ref, lit(sp(1, 25), 1)))],
    );
    let error = failure(check(vec![f]));
    assert_eq!(error.span, sp(1, 17));
    match error.kind {
        SemanticErrorKind::TypeError(expected, actual) => {
            assert_eq!(expected, checked_u8());
            assert_eq!(actual, checked_ptr(checked_u8()));
        }
        other => panic!("unexpected error {:?}", other),
    }
}

#[test]
fn return_outside_function_is_illegal() {
    let error = match Checker::new().check_stmt(ret(sp(1, 0), lit(sp(1, 7), 1))) {
        Ok(_) => panic!("the statement was expected to fail"),
        Err(error) => error,
    };
    assert_eq!(error.span, sp(1, 0));
    assert!(matches!(error.kind, SemanticErrorKind::IllegalStatement));
}

#[test]
fn condition_must_be_u8() {
    let cond = unary(sp(1, 4), UnOpKind::Ref, lit(sp(1, 5), 1));
    let stmt = Stmt::new(
        sp(1, 0),
        StmtKind::If(Box::new(cond), Box::new(block(sp(1, 8), vec![])), None),
    );
    let error = match Checker::new().check_stmt(stmt) {
        Ok(_) => panic!("the statement was expected to fail"),
        Err(error) => error,
    };
    assert_eq!(error.span, sp(1, 4));
    assert!(matches!(error.kind, SemanticErrorKind::TypeError(_, _)));
}

#[test]
fn if_else_branches_have_their_own_scopes() {
    let stmt = Stmt::new(
        sp(1, 0),
        StmtKind::If(
            Box::new(lit(sp(1, 4), 1)),
            Box::new(expr_stmt(sp(1, 7), decl(sp(1, 7), "x", u8_ty(sp(1, 7)), None))),
            Some(Box::new(expr_stmt(sp(1, 20), decl(sp(1, 20), "x", u8_ty(sp(1, 20)), None)))),
        ),
    );
    let mut checker = Checker::new();
    assert!(checker.check_stmt(stmt).is_ok());
    assert!(checker.check_expr(name(sp(2, 0), "x")).is_err());
}

#[test]
fn duplicate_parameter_is_redefinition() {
    let f = func(
        sp(1, 0),
        "f",
        vec![field(sp(1, 7), "a", u8_ty(sp(1, 7))), field(sp(1, 13), "a", u8_ty(sp(1, 13)))],
        u8_ty(sp(1, 20)),
        vec![],
    );
    let error = failure(check(vec![f]));
    assert_eq!(error.span, sp(1, 13));
    match error.kind {
        SemanticErrorKind::Redefinition(origin, name) => {
            assert_eq!(origin, sp(1, 7));
            assert_eq!(name, "a");
        }
        other => panic!("unexpected error {:?}", other),
    }
}

#[test]
fn duplicate_function_is_redefinition() {
    let first = func(sp(1, 0), "f", vec![], u8_ty(sp(1, 12)), vec![]);
    let second = func(sp(2, 0), "f", vec![], u8_ty(sp(2, 12)), vec![]);
    let error = failure(check(vec![first, second]));
    assert_eq!(error.span, sp(2, 0));
    match error.kind {
        SemanticErrorKind::Redefinition(origin, name) => {
            assert_eq!(origin, sp(1, 0));
            assert_eq!(name, "f");
        }
        other => panic!("unexpected error {:?}", other),
    }
}

#[test]
fn alias_is_valid_once_declared() {
    let s = type_decl(
        sp(1, 0),
        "S",
        struct_ty(sp(1, 9), vec![field(sp(1, 11), "x", u8_ty(sp(1, 11)))]),
    );
    let var = expr_stmt(
        sp(2, 0),
        decl(sp(2, 0), "s", Ty::new(sp(2, 0), TyKind::Alias("S".to_string())), None),
    );
    assert!(check(vec![s, var]).is_ok());
}

#[test]
fn undeclared_alias_is_undefined() {
    let var = expr_stmt(
        sp(2, 0),
        decl(sp(2, 0), "s", Ty::new(sp(2, 0), TyKind::Alias("S".to_string())), None),
    );
    let error = failure(check(vec![var]));
    assert_eq!(error.span, sp(2, 0));
    match error.kind {
        SemanticErrorKind::Undefined(name) => assert_eq!(name, "S"),
        other => panic!("unexpected error {:?}", other),
    }
}

#[test]
fn duplicate_field_in_struct_is_redefinition() {
    let s = type_decl(
        sp(1, 0),
        "S",
        struct_ty(
            sp(1, 9),
            vec![field(sp(1, 11), "x", u8_ty(sp(1, 11))), field(sp(1, 17), "x", u8_ty(sp(1, 17)))],
        ),
    );
    let error = failure(check(vec![s]));
    assert_eq!(error.span, sp(1, 17));
    assert!(matches!(error.kind, SemanticErrorKind::Redefinition(_, _)));
}

#[test]
fn first_error_in_order_is_reported() {
    // The undefined name comes before the illegal statement.
    let first = expr_stmt(sp(1, 0), decl(sp(1, 0), "x", u8_ty(sp(1, 0)), Some(name(sp(1, 7), "y"))));
    let second = block(sp(2, 0), vec![]);
    let error = failure(check(vec![first, second]));
    assert_eq!(error.span, sp(1, 7));
    assert!(matches!(error.kind, SemanticErrorKind::Undefined(_)));
}
