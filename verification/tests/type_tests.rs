use sema::ast::ty::{Field, FuncTy, StructTy, Ty, TyKind};
use sema::check::{Checked, Unchecked};
use sema::parser::span::{Location, Span};

fn sp(line: usize, col: usize) -> Span {
    Span(Location::at(line, col), Location::at(line, col + 1))
}

fn u8_ty() -> Ty<Unchecked> {
    Ty::new(sp(0, 0), TyKind::U8)
}

fn void_ty() -> Ty<Unchecked> {
    Ty::void(sp(0, 0))
}

fn alias(name: &str) -> Ty<Unchecked> {
    Ty::new(sp(0, 0), TyKind::Alias(name.to_string()))
}

fn ptr(inner: Ty<Unchecked>) -> Ty<Unchecked> {
    Ty::new(sp(0, 0), TyKind::Ptr(Box::new(inner)))
}

fn paren(inner: Ty<Unchecked>) -> Ty<Unchecked> {
    Ty::new(sp(9, 9), TyKind::Paren(Box::new(inner)))
}

fn func(params: Vec<Ty<Unchecked>>, ret: Ty<Unchecked>) -> Ty<Unchecked> {
    Ty::new(sp(0, 0), TyKind::Func(Box::new(FuncTy::new(params, ret))))
}

fn record(fields: Vec<(&str, Ty<Unchecked>)>) -> Ty<Unchecked> {
    let fields = fields
        .into_iter()
        .map(|(name, ty)| Field::new(sp(0, 0), name.to_string(), ty))
        .collect();
    Ty::new(sp(0, 0), TyKind::Struct(Box::new(StructTy::new(fields))))
}

#[test]
fn equality_ignores_spans() {
    let a: Ty<Checked> = Ty::new(sp(1, 1), TyKind::U8);
    let b: Ty<Checked> = Ty::new(sp(7, 3), TyKind::U8);
    assert!(a == b);
}

#[test]
fn equality_ignores_parentheses() {
    assert!(paren(ptr(u8_ty())) == ptr(paren(paren(u8_ty()))));
    assert!(u8_ty() == paren(u8_ty()));
    assert!(paren(u8_ty()) == u8_ty());
}

#[test]
fn different_kinds_are_unequal() {
    assert!(u8_ty() != void_ty());
    assert!(ptr(u8_ty()) != u8_ty());
    assert!(ptr(u8_ty()) != ptr(void_ty()));
    assert!(func(vec![], u8_ty()) != u8_ty());
}

#[test]
fn aliases_are_equal_by_name_only() {
    assert!(alias("S") == alias("S"));
    assert!(alias("S") != alias("T"));
    assert!(alias("S") != record(vec![]));
}

#[test]
fn function_types_compare_parameters_and_return() {
    assert!(func(vec![u8_ty(), ptr(u8_ty())], void_ty()) == func(vec![u8_ty(), ptr(u8_ty())], void_ty()));
    assert!(func(vec![u8_ty()], void_ty()) != func(vec![u8_ty(), u8_ty()], void_ty()));
    assert!(func(vec![u8_ty()], void_ty()) != func(vec![ptr(u8_ty())], void_ty()));
    assert!(func(vec![u8_ty()], void_ty()) != func(vec![u8_ty()], u8_ty()));
}

#[test]
fn records_compare_names_and_types() {
    assert!(record(vec![("x", u8_ty())]) == record(vec![("x", paren(u8_ty()))]));
    assert!(record(vec![("x", u8_ty())]) != record(vec![("y", u8_ty())]));
    assert!(record(vec![("x", u8_ty())]) != record(vec![("x", ptr(u8_ty()))]));
    assert!(record(vec![("x", u8_ty())]) != record(vec![]));
}

#[test]
fn fields_compare_names_and_types() {
    let a = Field::new(sp(1, 1), "x".to_string(), u8_ty());
    let b = Field::new(sp(2, 2), "x".to_string(), paren(u8_ty()));
    let c = Field::new(sp(1, 1), "y".to_string(), u8_ty());
    assert!(a == b);
    assert!(a != c);
}

#[test]
fn reference_then_dereference_gives_the_type_back() {
    for ty in [u8_ty(), void_ty(), alias("S"), ptr(u8_ty()), func(vec![u8_ty()], void_ty()), paren(u8_ty())] {
        let copy = ty.clone();
        let back = ty.reference().dereference();
        assert!(back == Some(copy));
    }
}

#[test]
fn reference_keeps_the_span() {
    let ty: Ty<Unchecked> = Ty::new(sp(3, 4), TyKind::U8);
    let pointer = ty.reference();
    assert_eq!(pointer.span, sp(3, 4));
    assert!(matches!(pointer.kind, TyKind::Ptr(_)));
}

#[test]
fn dereference_of_non_pointer_is_none() {
    assert!(u8_ty().dereference().is_none());
    assert!(func(vec![], u8_ty()).dereference().is_none());
    assert!(paren(u8_ty()).dereference().is_none());
}

#[test]
fn dereference_sees_through_parentheses() {
    assert!(paren(ptr(alias("S"))).dereference() == Some(alias("S")));
}

#[test]
fn is_void_sees_through_parentheses() {
    assert!(void_ty().is_void());
    assert!(paren(void_ty()).is_void());
    assert!(!u8_ty().is_void());
    assert!(!ptr(void_ty()).is_void());
}

#[test]
fn known_finite_size() {
    assert!(void_ty().has_known_finite_size());
    assert!(u8_ty().has_known_finite_size());
    assert!(!alias("S").has_known_finite_size());
    assert!(ptr(alias("S")).has_known_finite_size());
    assert!(func(vec![alias("S")], alias("S")).has_known_finite_size());
    assert!(paren(u8_ty()).has_known_finite_size());
    assert!(!paren(alias("S")).has_known_finite_size());
    assert!(record(vec![]).has_known_finite_size());
    assert!(record(vec![("x", u8_ty()), ("y", ptr(alias("S")))]).has_known_finite_size());
    assert!(!record(vec![("x", u8_ty()), ("y", alias("S"))]).has_known_finite_size());
    assert!(!record(vec![("x", record(vec![("y", alias("S"))]))]).has_known_finite_size());
}

#[test]
fn as_func_sees_through_parentheses() {
    let ty = paren(func(vec![u8_ty()], void_ty()));
    let sig = ty.as_func().unwrap();
    assert_eq!(sig.params.len(), 1);
    assert!(sig.return_ty.is_void());
    assert!(u8_ty().as_func().is_none());
}

#[test]
fn clone_is_written_the_same() {
    let ty = paren(func(vec![ptr(alias("S"))], record(vec![("x", u8_ty())])));
    let copy = ty.clone();
    assert_eq!(format!("{:?}", ty), format!("{:?}", copy));
}
