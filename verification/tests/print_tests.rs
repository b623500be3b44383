use sema::ast::expr::{BinOpKind, Expr, ExprKind, Literal, UnOpKind};
use sema::ast::print::Printer;
use sema::ast::ty::{Field, FuncTy, StructTy, Ty, TyKind};
use sema::ast::{FuncDecl, Program, Stmt, StmtKind, TypeDecl};
use sema::check::typecheck::Checker;
use sema::check::{SemanticError, SemanticErrorKind, Unchecked};
use sema::parser::span::{Location, Span};
use sema::utility::text::{write_decimal, write_signed_decimal};
use sema::utility::write_comma_seperated;

fn sp(line: usize, col: usize) -> Span {
    Span(Location::at(line, col), Location::at(line, col + 1))
}

fn u8_ty() -> Ty<Unchecked> {
    Ty::new(sp(0, 0), TyKind::U8)
}

fn name(text: &str) -> Expr<Unchecked> {
    Expr::unchecked(sp(0, 0), ExprKind::Name(text.to_string()))
}

fn add_program() -> Program<Unchecked> {
    let sum = Expr::unchecked(
        sp(0, 0),
        ExprKind::Binary(BinOpKind::Add, Box::new(name("a")), Box::new(name("b"))),
    );
    let body = Stmt::new(
        sp(0, 0),
        StmtKind::Compound(vec![Stmt::new(sp(0, 0), StmtKind::Return(Box::new(sum)))]),
    );
    let decl = FuncDecl::new(
        "add".to_string(),
        vec![
            Field::new(sp(0, 0), "a".to_string(), u8_ty()),
            Field::new(sp(0, 0), "b".to_string(), u8_ty()),
        ],
        u8_ty(),
        body,
    );
    Program::new(sp(0, 0), vec![Stmt::new(sp(0, 0), StmtKind::FuncDecl(Box::new(decl)))])
}

#[test]
fn program_prints_as_tree() {
    let mut printer = Printer::new();
    add_program().print(&mut printer);
    assert_eq!(
        printer.lines(),
        &vec![
            "Program(#stmts = 1)".to_string(),
            "`-FuncDecl(add -> u8)".to_string(),
            "  |-Param(a: u8)".to_string(),
            "  |-Param(b: u8)".to_string(),
            "  `-Compound(#stmts = 1)".to_string(),
            "    `-Return".to_string(),
            "      `-Binary(op = Add)".to_string(),
            "        |-Name(name = a)".to_string(),
            "        `-Name(name = b)".to_string(),
        ]
    );
}

#[test]
fn checked_program_prints_the_same() {
    let mut before = Printer::new();
    add_program().print(&mut before);
    let checked = Checker::new().check_program(add_program()).ok().unwrap();
    let mut after = Printer::new();
    checked.print(&mut after);
    assert_eq!(before.lines(), after.lines());
}

#[test]
fn siblings_are_joined_by_bars() {
    // if (1) { x; } else { y; } followed by a second statement
    let first = Stmt::new(
        sp(0, 0),
        StmtKind::If(
            Box::new(Expr::unchecked(sp(0, 0), ExprKind::Literal(Literal::Integer(1)))),
            Box::new(Stmt::new(sp(0, 0), StmtKind::Expr(Box::new(name("x"))))),
            Some(Box::new(Stmt::new(sp(0, 0), StmtKind::Expr(Box::new(name("y")))))),
        ),
    );
    let second = Stmt::new(
        sp(0, 0),
        StmtKind::While(
            Box::new(Expr::unchecked(
                sp(0, 0),
                ExprKind::Unary(UnOpKind::Not, Box::new(name("z"))),
            )),
            Box::new(Stmt::new(sp(0, 0), StmtKind::Compound(vec![]))),
        ),
    );
    let program = Program::new(sp(0, 0), vec![first, second]);
    let mut printer = Printer::new();
    program.print(&mut printer);
    assert_eq!(
        printer.lines(),
        &vec![
            "Program(#stmts = 2)".to_string(),
            "|-IfElse".to_string(),
            "| |-Literal(Integer(1))".to_string(),
            "| |-Expr".to_string(),
            "| | `-Name(name = x)".to_string(),
            "| `-Expr".to_string(),
            "|   `-Name(name = y)".to_string(),
            "`-While".to_string(),
            "  |-Unary(op = Not)".to_string(),
            "  | `-Name(name = z)".to_string(),
            "  `-Compound(#stmts = 0)".to_string(),
        ]
    );
}

#[test]
fn call_cast_decl_and_type_decl_print() {
    let call = Expr::unchecked(
        sp(0, 0),
        ExprKind::Call(
            Box::new(name("f")),
            vec![Expr::unchecked(sp(0, 0), ExprKind::Literal(Literal::Integer(-3)))],
        ),
    );
    let cast = Expr::unchecked(
        sp(0, 0),
        ExprKind::Cast(Box::new(call), Ty::new(sp(0, 0), TyKind::Ptr(Box::new(u8_ty())))),
    );
    let decl = Expr::unchecked(
        sp(0, 0),
        ExprKind::Decl(Field::new(sp(0, 0), "p".to_string(), u8_ty()), Some(Box::new(cast))),
    );
    let bare = Expr::unchecked(
        sp(0, 0),
        ExprKind::Decl(Field::new(sp(0, 0), "q".to_string(), u8_ty()), None),
    );
    let record = Ty::new(
        sp(0, 0),
        TyKind::Struct(Box::new(StructTy::new(vec![
            Field::new(sp(0, 0), "x".to_string(), u8_ty()),
            Field::new(sp(0, 0), "y".to_string(), u8_ty()),
        ]))),
    );
    let program = Program::new(
        sp(0, 0),
        vec![
            Stmt::new(sp(0, 0), StmtKind::Expr(Box::new(decl))),
            Stmt::new(sp(0, 0), StmtKind::Expr(Box::new(bare))),
            Stmt::new(
                sp(0, 0),
                StmtKind::TypeDecl(Box::new(TypeDecl::new("S".to_string(), record))),
            ),
        ],
    );
    let mut printer = Printer::new();
    program.print(&mut printer);
    assert_eq!(
        printer.lines(),
        &vec![
            "Program(#stmts = 3)".to_string(),
            "|-Expr".to_string(),
            "| `-Decl(p: u8)".to_string(),
            "|   `-Cast(u8*)".to_string(),
            "|     `-Call".to_string(),
            "|       |-Name(name = f)".to_string(),
            "|       `-Literal(Integer(-3))".to_string(),
            "|-Expr".to_string(),
            "| `-Decl(q: u8)".to_string(),
            "`-TypeDecl(S: struct {x: u8, y: u8})".to_string(),
        ]
    );
}

#[test]
fn printer_node_and_leaf() {
    let mut printer = Printer::new();
    printer.node(2, "root");
    printer.leaf("first");
    printer.node(1, "second");
    printer.leaf("inner");
    printer.leaf("next root");
    assert_eq!(
        printer.lines(),
        &vec![
            "root".to_string(),
            "|-first".to_string(),
            "`-second".to_string(),
            "  `-inner".to_string(),
            "next root".to_string(),
        ]
    );
}

#[test]
fn types_are_shown_as_written() {
    let func: Ty<Unchecked> = Ty::new(
        sp(0, 0),
        TyKind::Func(Box::new(FuncTy::new(
            vec![u8_ty(), Ty::new(sp(0, 0), TyKind::Ptr(Box::new(u8_ty())))],
            Ty::void(sp(0, 0)),
        ))),
    );
    assert_eq!(func.to_text(), "func(u8, u8*) -> void");
    let paren: Ty<Unchecked> = Ty::new(
        sp(0, 0),
        TyKind::Ptr(Box::new(Ty::new(sp(0, 0), TyKind::Paren(Box::new(func))))),
    );
    assert_eq!(paren.to_text(), "(func(u8, u8*) -> void)*");
    let alias: Ty<Unchecked> = Ty::new(sp(0, 0), TyKind::Alias("S".to_string()));
    assert_eq!(alias.to_text(), "S");
    let empty: Ty<Unchecked> = Ty::new(sp(0, 0), TyKind::Struct(Box::new(StructTy::new(vec![]))));
    assert_eq!(empty.to_text(), "struct {}");
    let nullary: Ty<Unchecked> =
        Ty::new(sp(0, 0), TyKind::Func(Box::new(FuncTy::new(vec![], u8_ty()))));
    assert_eq!(nullary.to_text(), "func() -> u8");
    assert_eq!(Field::new(sp(0, 0), "x".to_string(), u8_ty()).to_text(), "x: u8");
}

#[test]
fn operators_are_shown_by_symbol_and_name() {
    assert_eq!(BinOpKind::Add.to_text(), "+");
    assert_eq!(BinOpKind::Sub.to_text(), "-");
    assert_eq!(BinOpKind::Mul.to_text(), "*");
    assert_eq!(BinOpKind::Div.to_text(), "/");
    assert_eq!(BinOpKind::Mod.to_text(), "%");
    assert_eq!(BinOpKind::Assign.to_text(), "=");
    assert_eq!(BinOpKind::Subscript.to_text(), "[]");
    assert_eq!(BinOpKind::Subscript.to_name(), "Subscript");
    assert_eq!(UnOpKind::Neg.to_text(), "-");
    assert_eq!(UnOpKind::Compl.to_text(), "~");
    assert_eq!(UnOpKind::Not.to_text(), "!");
    assert_eq!(UnOpKind::Deref.to_text(), "*");
    assert_eq!(UnOpKind::Ref.to_text(), "&");
    assert_eq!(UnOpKind::Deref.to_name(), "Deref");
    assert_eq!(Literal::Integer(42).to_text(), "Integer(42)");
}

#[test]
fn locations_are_shown_from_one() {
    assert_eq!(Location::at(0, 0).to_text(), "(1,1)");
    assert_eq!(Location::at(9, 41).to_text(), "(10,42)");
    assert_eq!(Span(Location::at(2, 3), Location::at(2, 8)).to_text(), "(3,4)");
}

#[test]
fn decimal_text() {
    let mut text = String::new();
    write_decimal(&mut text, 0);
    text.push(' ');
    write_decimal(&mut text, 7);
    text.push(' ');
    write_decimal(&mut text, 1234567890);
    text.push(' ');
    write_decimal(&mut text, u128::MAX);
    assert_eq!(text, "0 7 1234567890 340282366920938463463374607431768211455");
    let mut text = String::new();
    write_signed_decimal(&mut text, -1);
    text.push(' ');
    write_signed_decimal(&mut text, i64::MIN);
    text.push(' ');
    write_signed_decimal(&mut text, i64::MAX);
    assert_eq!(text, "-1 -9223372036854775808 9223372036854775807");
}

#[test]
fn comma_separated_items() {
    let mut text = "[".to_string();
    write_comma_seperated(&mut text, &vec![]);
    assert_eq!(text, "[");
    write_comma_seperated(&mut text, &vec!["a".to_string()]);
    assert_eq!(text, "[a");
    write_comma_seperated(&mut text, &vec!["b".to_string(), "c".to_string(), "d".to_string()]);
    assert_eq!(text, "[ab, c, d");
}

fn checked_u8() -> Ty<sema::check::Checked> {
    Ty::new(sp(0, 0), TyKind::U8)
}

#[test]
fn error_messages() {
    let at = Span(Location::at(2, 5), Location::at(2, 6));
    let origin = Span(Location::at(0, 3), Location::at(0, 4));
    let ptr = Ty::new(sp(0, 0), TyKind::Ptr(Box::new(checked_u8())));
    let message = |kind| SemanticError::new(at, kind).message();
    assert_eq!(
        message(SemanticErrorKind::Redefinition(origin, "x".to_string())),
        "(3,6): Redefinition: 'x' is already defined at (1,4)"
    );
    assert_eq!(
        message(SemanticErrorKind::Undefined("y".to_string())),
        "(3,6): Undefined: 'y' is not defined"
    );
    assert_eq!(
        message(SemanticErrorKind::IllegalStatement),
        "(3,6): IllegalStatement: the statement is not allowed here"
    );
    assert_eq!(
        message(SemanticErrorKind::TypeError(checked_u8(), ptr.clone())),
        "(3,6): TypeError: cannot convert from type 'u8*' to 'u8'"
    );
    assert_eq!(
        message(SemanticErrorKind::InvalidBinary(BinOpKind::Add, checked_u8(), ptr.clone())),
        "(3,6): InvalidBinary: operator '+' is not defined for 'u8' and 'u8*'"
    );
    assert_eq!(
        message(SemanticErrorKind::InvalidUnary(UnOpKind::Deref, checked_u8())),
        "(3,6): InvalidUnary: operator '*' is not defined for 'u8'"
    );
    assert_eq!(
        message(SemanticErrorKind::NotAFunction(checked_u8())),
        "(3,6): NotAFunction: 'u8' is not a function"
    );
    assert_eq!(
        message(SemanticErrorKind::ArityMismatch(1, 2)),
        "(3,6): ArityMismatch: expected 1 arguments, found 2"
    );
    assert_eq!(
        message(SemanticErrorKind::ParameterDeclaredVoid),
        "(3,6): ParameterDeclaredVoid: a parameter cannot have type 'void'"
    );
    assert_eq!(
        message(SemanticErrorKind::FieldDeclaredVoid("f".to_string())),
        "(3,6): FieldDeclaredVoid: field 'f' cannot have type 'void'"
    );
    assert_eq!(
        SemanticError::new(at, SemanticErrorKind::IllegalStatement).description(),
        "IllegalStatement: the statement is not allowed here"
    );
}
