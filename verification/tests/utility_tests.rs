use sema::check::scope_tree::ScopeTree;
use sema::check::scoped_map::ScopedMap;
use sema::parser::span::{Location, Span};
use sema::utility::join::{JoinExt, TestExt};
use sema::utility::scoped::Scoped;

fn sp(line: usize, col: usize) -> Span {
    Span(Location::at(line, col), Location::at(line, col + 1))
}

#[test]
fn option_join_needs_both() {
    assert_eq!(Some(1).join(Some("a")), Some((1, "a")));
    assert_eq!(Some(1).join(None::<&str>), None);
    assert_eq!(None::<i32>.join(Some("a")), None);
    assert_eq!(None::<i32>.join(None::<&str>), None);
}

#[test]
fn option_join_with_makes_second_only_if_needed() {
    let mut calls = 0;
    assert_eq!(
        Some(1).join_with(|| {
            calls += 1;
            Some(2)
        }),
        Some((1, 2))
    );
    assert_eq!(calls, 1);
    assert_eq!(
        None::<i32>.join_with(|| {
            calls += 1;
            Some(2)
        }),
        None
    );
    assert_eq!(calls, 1);
}

#[test]
fn result_join_keeps_first_error() {
    let ok: Result<i32, &str> = Ok(1);
    assert_eq!(ok.join(Ok::<u8, &str>(2)), Ok((1, 2)));
    let ok: Result<i32, &str> = Ok(1);
    assert_eq!(ok.join(Err::<u8, &str>("second")), Err("second"));
    let err: Result<i32, &str> = Err("first");
    assert_eq!(err.join(Err::<u8, &str>("second")), Err("first"));
    let err: Result<i32, &str> = Err("first");
    assert_eq!(err.join_with(|| Ok::<u8, &str>(2)), Err("first"));
    let ok: Result<i32, &str> = Ok(1);
    assert_eq!(ok.join_with(|| Ok::<u8, &str>(2)), Ok((1, 2)));
}

#[test]
fn test_keeps_passing_values() {
    let ok: Result<i32, String> = Ok(4);
    assert_eq!(ok.test(|v| *v > 3, "small".to_string()), Ok(4));
    let ok: Result<i32, String> = Ok(2);
    assert_eq!(ok.test(|v| *v > 3, "small".to_string()), Err("small".to_string()));
    let err: Result<i32, String> = Err("before".to_string());
    assert_eq!(err.test(|v| *v > 3, "small".to_string()), Err("before".to_string()));
}

#[test]
fn test_or_makes_error_from_value() {
    let ok: Result<i32, String> = Ok(2);
    assert_eq!(ok.test_or(|v| *v > 3, |v| format!("{} is small", v)), Err("2 is small".to_string()));
    let ok: Result<i32, String> = Ok(5);
    assert_eq!(ok.test_or(|v| *v > 3, |v| format!("{} is small", v)), Ok(5));
    let err: Result<i32, String> = Err("before".to_string());
    assert_eq!(err.test_or(|v| *v > 3, |v| format!("{} is small", v)), Err("before".to_string()));
}

#[test]
fn find_goes_from_innermost_outwards() {
    let root = Scoped::new(vec![("x", 1), ("y", 2)]);
    let middle = root.enter_with(vec![("x", 10)]);
    let leaf = middle.enter_with(vec![("z", 100)]);
    let lookup = |name: &'static str| {
        move |frame: &Vec<(&'static str, i32)>| {
            frame.iter().find(|(key, _)| *key == name).map(|(_, value)| *value)
        }
    };
    assert_eq!(leaf.find(lookup("x")), Some(10));
    assert_eq!(leaf.find(lookup("y")), Some(2));
    assert_eq!(leaf.find(lookup("z")), Some(100));
    assert_eq!(leaf.find(lookup("w")), None);
    assert_eq!(root.find(lookup("x")), Some(1));
    assert_eq!(root.find(lookup("z")), None);
}

#[test]
fn flat_map_concatenates_innermost_first() {
    let root = Scoped::new(vec![1, 2]);
    let middle = root.enter_with(vec![]);
    let leaf = middle.enter_with(vec![3]);
    assert_eq!(leaf.flat_map(|frame: &Vec<i32>| frame.clone()), vec![3, 1, 2]);
    assert_eq!(root.flat_map(|frame: &Vec<i32>| frame.clone()), vec![1, 2]);
    assert_eq!(middle.flat_map(|frame: &Vec<i32>| vec![frame.len()]), vec![0, 2]);
}

#[test]
fn scoped_map_reads_innermost_first() {
    let mut map: ScopedMap<u32, &str> = ScopedMap::new();
    assert_eq!(map.depth(), 0);
    assert_eq!(map.get(&1), None);
    map.enter();
    assert!(map.insert(1, "outer"));
    assert!(map.insert(2, "two"));
    map.enter();
    assert_eq!(map.get(&1), Some(&"outer"));
    assert!(map.insert(1, "inner"));
    assert_eq!(map.get(&1), Some(&"inner"));
    assert_eq!(map.get(&2), Some(&"two"));
    assert_eq!(map.get(&3), None);
    assert_eq!(map.depth(), 2);
    map.exit();
    assert_eq!(map.get(&1), Some(&"outer"));
    map.exit();
    assert_eq!(map.get(&1), None);
    map.exit();
    assert_eq!(map.depth(), 0);
}

#[test]
fn scoped_map_refuses_key_of_same_scope() {
    let mut map: ScopedMap<String, u8> = ScopedMap::new();
    map.enter();
    assert!(map.insert("x".to_string(), 1));
    assert!(!map.insert("x".to_string(), 2));
    assert_eq!(map.get(&"x".to_string()), Some(&1));
}

#[test]
fn scope_tree_walks_to_the_root() {
    let mut tree = ScopeTree::new();
    let root = tree.add_scope(None);
    let left = tree.add_scope(Some(root));
    let right = tree.add_scope(Some(root));
    let leaf = tree.add_scope(Some(left));
    assert_eq!((root, left, right, leaf), (0, 1, 2, 3));
    assert_eq!(tree.len(), 4);
    assert_eq!(tree.scope(leaf).parent(), Some(left));
    assert_eq!(tree.scope(root).parent(), None);
    assert_eq!(tree.scope(right).index(), 2);
    let mut iter = tree.iter(leaf);
    let mut seen = Vec::new();
    while let Some(scope) = iter.next() {
        seen.push(scope.index());
    }
    assert_eq!(seen, vec![3, 1, 0]);
    let mut iter = tree.iter(right);
    assert_eq!(iter.next().map(|scope| scope.index()), Some(2));
    assert_eq!(iter.next().map(|scope| scope.index()), Some(0));
    assert!(iter.next().is_none());
    assert!(iter.next().is_none());
}

#[test]
fn scope_declares_a_name_once() {
    let mut tree = ScopeTree::new();
    let root = tree.add_scope(None);
    let inner = tree.add_scope(Some(root));
    assert!(tree.scope_mut(root).insert(sp(1, 0), "x".to_string()));
    assert!(!tree.scope_mut(root).insert(sp(2, 0), "x".to_string()));
    assert!(tree.scope_mut(inner).insert(sp(3, 0), "x".to_string()));
    let symbol = tree.scope(root).lookup(&"x".to_string()).unwrap();
    assert_eq!(symbol.span, sp(1, 0));
    assert_eq!(symbol.name, "x");
    assert_eq!(symbol.scope, root);
    let symbol = tree.scope(inner).lookup(&"x".to_string()).unwrap();
    assert_eq!(symbol.span, sp(3, 0));
    assert_eq!(symbol.scope, inner);
    assert!(tree.scope(inner).lookup(&"y".to_string()).is_none());
}
