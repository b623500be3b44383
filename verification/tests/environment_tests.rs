use sema::ast::ty::{Ty, TyKind};
use sema::check::environment::{Binding, Environment, Frame};
use sema::check::{Checked, SemanticErrorKind};
use sema::parser::span::{Location, Span};
use sema::utility::scoped::Scoped;

fn sp(line: usize, col: usize) -> Span {
    Span(Location::at(line, col), Location::at(line, col + 1))
}

fn u8_ty() -> Ty<Checked> {
    Ty::new(sp(0, 0), TyKind::U8)
}

fn ptr_ty() -> Ty<Checked> {
    Ty::new(sp(0, 0), TyKind::Ptr(Box::new(u8_ty())))
}

fn binding(span: Span, name: &str, ty: Ty<Checked>) -> Binding {
    Binding { span, name: name.to_string(), ty }
}

#[test]
fn fresh_environment_binds_nothing() {
    let env = Environment::new();
    assert!(env.binding(&"x".to_string()).is_none());
    assert!(env.alias(&"x".to_string()).is_none());
    assert!(env.lookup_return_type().is_none());
}

#[test]
fn declared_binding_is_found() {
    let mut env = Environment::new();
    assert!(env.declare_binding(binding(sp(1, 0), "x", u8_ty())).is_ok());
    let found = env.binding(&"x".to_string()).unwrap();
    assert_eq!(found.span, sp(1, 0));
    assert_eq!(found.name, "x");
    assert!(found.ty == u8_ty());
    assert!(env.alias(&"x".to_string()).is_none());
}

#[test]
fn second_declaration_in_same_scope_is_refused_with_origin() {
    let mut env = Environment::new();
    assert!(env.declare_binding(binding(sp(1, 0), "x", u8_ty())).is_ok());
    let error = env.declare_binding(binding(sp(2, 0), "x", ptr_ty())).err().unwrap();
    assert_eq!(error.span, sp(2, 0));
    match error.kind {
        SemanticErrorKind::Redefinition(origin, name) => {
            assert_eq!(origin, sp(1, 0));
            assert_eq!(name, "x");
        }
        other => panic!("unexpected error {:?}", other),
    }
    assert!(env.binding(&"x".to_string()).unwrap().ty == u8_ty());
}

#[test]
fn child_scope_sees_and_shadows_parent() {
    let mut env = Environment::new();
    assert!(env.declare_binding(binding(sp(1, 0), "x", u8_ty())).is_ok());
    {
        let mut child = env.enter();
        assert!(child.binding(&"x".to_string()).unwrap().ty == u8_ty());
        assert!(child.declare_binding(binding(sp(2, 0), "x", ptr_ty())).is_ok());
        assert!(child.binding(&"x".to_string()).unwrap().ty == ptr_ty());
        assert!(child.declare_binding(binding(sp(3, 0), "y", u8_ty())).is_ok());
    }
    assert!(env.binding(&"x".to_string()).unwrap().ty == u8_ty());
    assert!(env.binding(&"y".to_string()).is_none());
}

#[test]
fn aliases_and_bindings_are_separate() {
    let mut env = Environment::new();
    assert!(env.declare_alias(binding(sp(1, 0), "S", u8_ty())).is_ok());
    assert!(env.declare_binding(binding(sp(2, 0), "S", ptr_ty())).is_ok());
    assert!(env.alias(&"S".to_string()).unwrap().ty == u8_ty());
    assert!(env.binding(&"S".to_string()).unwrap().ty == ptr_ty());
    let error = env.declare_alias(binding(sp(3, 0), "S", u8_ty())).err().unwrap();
    assert!(matches!(error.kind, SemanticErrorKind::Redefinition(_, _)));
}

#[test]
fn return_type_is_that_of_innermost_function() {
    let env = Environment::new();
    let outer = env.enter_func(u8_ty());
    let block = outer.enter();
    assert!(*block.lookup_return_type().unwrap() == u8_ty());
    let inner = block.enter_func(ptr_ty());
    assert!(*inner.lookup_return_type().unwrap() == ptr_ty());
    assert!(*outer.lookup_return_type().unwrap() == u8_ty());
}

#[test]
fn frame_finds_what_it_declares() {
    let frame = Frame::new(Some(u8_ty()));
    assert!(frame.binding(&"x".to_string()).is_none());
    assert!(frame.alias(&"x".to_string()).is_none());
    assert!(*frame.return_ty().unwrap() == u8_ty());
    assert!(Frame::new(None).return_ty().is_none());
}

#[test]
fn binding_clone_keeps_all_parts() {
    let first = binding(sp(4, 2), "x", ptr_ty());
    let copy = first.clone();
    assert_eq!(copy.span, sp(4, 2));
    assert_eq!(copy.name, "x");
    assert!(copy.ty == ptr_ty());
}

#[test]
fn scoped_chain_iterates_innermost_first() {
    let root = Scoped::new(1u32);
    let middle = root.enter_with(2);
    let mut leaf = middle.enter_with(3);
    assert_eq!(*leaf.item(), 3);
    *leaf.item_mut() = 30;
    let mut iter = leaf.iter();
    assert_eq!(iter.next(), Some(&30));
    assert_eq!(iter.next(), Some(&2));
    assert_eq!(iter.next(), Some(&1));
    assert_eq!(iter.next(), None);
    assert_eq!(iter.next(), None);
    assert_eq!(*root.item(), 1);
}

#[test]
fn scoped_enter_uses_default_item() {
    let root = Scoped::new(5u32);
    let child = root.enter();
    assert_eq!(*child.item(), 0);
    let mut iter = child.iter();
    assert_eq!(iter.next(), Some(&0));
    assert_eq!(iter.next(), Some(&5));
    assert_eq!(iter.next(), None);
}
