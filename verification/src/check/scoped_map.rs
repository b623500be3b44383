//! A map with scopes: a stack of maps, of which the innermost is written
//! and all are read, innermost first.

use vstd::prelude::*;
use vstd::std_specs::cmp::PartialEqSpec;

verus! {

/// A stack of scopes, each a map from keys to values. A scope holds a key
/// at most once.
pub struct ScopedMap<K: PartialEq, V> {
    maps: Vec<Vec<(K, V)>>,
}

/// The value that a scope holds for `key`, among its first `n` entries.
pub open spec fn scope_get<K: PartialEq, V>(scope: Seq<(K, V)>, key: K, n: nat) -> Option<V>
    decreases n,
{
    if n == 0 || n > scope.len() {
        None
    } else {
        match scope_get(scope, key, (n - 1) as nat) {
            Some(value) => Some(value),
            None => if scope[n - 1].0.eq_spec(&key) {
                Some(scope[n - 1].1)
            } else {
                None
            },
        }
    }
}

/// The value for `key` in the innermost of the first `n` scopes that
/// holds the key.
pub open spec fn scopes_get<K: PartialEq, V>(scopes: Seq<Seq<(K, V)>>, key: K, n: nat) -> Option<V>
    decreases n,
{
    if n == 0 || n > scopes.len() {
        None
    } else {
        match scope_get(scopes[n - 1], key, scopes[n - 1].len()) {
            Some(value) => Some(value),
            None => scopes_get(scopes, key, (n - 1) as nat),
        }
    }
}

/// No entry of the scope has a key that equals the key of an entry
/// before it.
pub open spec fn keys_once<K: PartialEq, V>(scope: Seq<(K, V)>) -> bool {
    forall|i: int, j: int|
        0 <= i < j < scope.len() ==> !(#[trigger] scope[i]).0.eq_spec(&(#[trigger] scope[j]).0)
}

/// The scopes of a map as contracts speak of them.
pub open spec fn scopes_view<K, V>(maps: Seq<Vec<(K, V)>>) -> Seq<Seq<(K, V)>> {
    Seq::new(maps.len(), |i: int| maps[i]@)
}

/// The position of the first entry whose key equals `key`.
fn position<K: PartialEq, V>(scope: &Vec<(K, V)>, key: &K) -> (found: Option<usize>)
    ensures
        K::obeys_eq_spec() ==> match found {
            Some(i) => i < scope.len() && scope[i as int].0.eq_spec(key) && scope_get(
                scope@,
                *key,
                scope.len() as nat,
            ) == Some(scope[i as int].1),
            None => scope_get(scope@, *key, scope.len() as nat) is None && forall|j: int|
                0 <= j < scope.len() ==> !(#[trigger] scope[j]).0.eq_spec(key),
        },
        found matches Some(i) ==> i < scope.len(),
{
    let mut i: usize = 0;
    while i < scope.len()
        invariant
            i <= scope.len(),
            K::obeys_eq_spec() ==> scope_get(scope@, *key, i as nat) is None,
            K::obeys_eq_spec() ==> forall|j: int|
                0 <= j < i ==> !(#[trigger] scope[j]).0.eq_spec(key),
        decreases scope.len() - i,
    {
        if scope[i].0 == *key {
            proof {
                if K::obeys_eq_spec() {
                    lemma_scope_get_stays(scope@, *key, i as nat + 1, scope.len() as nat);
                }
            }
            return Some(i);
        }
        i += 1;
    }
    None
}

/// Once a key is found among the first entries, the entries behind them
/// do not change what is found.
proof fn lemma_scope_get_stays<K: PartialEq, V>(scope: Seq<(K, V)>, key: K, n: nat, m: nat)
    requires
        scope_get(scope, key, n) is Some,
        n <= m <= scope.len(),
    ensures
        scope_get(scope, key, m) == scope_get(scope, key, n),
    decreases m,
{
    if n < m {
        lemma_scope_get_stays(scope, key, n, (m - 1) as nat);
    }
}

impl<K: PartialEq, V> ScopedMap<K, V> {
    #[verifier::type_invariant]
    spec fn keys_held_once(self) -> bool {
        K::obeys_eq_spec() ==> forall|i: int|
            0 <= i < self.maps.len() ==> keys_once((#[trigger] self.maps[i])@)
    }

    /// The scopes, outermost first; each holds its entries in the order
    /// in which they were inserted.
    pub closed spec fn view(&self) -> Seq<Seq<(K, V)>> {
        scopes_view(self.maps@)
    }

    /// A map without a scope: one must be entered before anything is
    /// inserted.
    pub fn new() -> (map: ScopedMap<K, V>)
        ensures
            map@ == Seq::<Seq<(K, V)>>::empty(),
    {
        let map = ScopedMap { maps: Vec::new() };
        assert(map@ =~= Seq::<Seq<(K, V)>>::empty());
        map
    }

    /// The number of open scopes.
    pub fn depth(&self) -> (depth: usize)
        ensures
            depth == self@.len(),
    {
        self.maps.len()
    }

    /// Opens an empty scope inside the current one.
    pub fn enter(&mut self)
        ensures
            final(self)@ == old(self)@.push(Seq::empty()),
    {
        proof {
            use_type_invariant(&*self);
        }
        let mut maps: Vec<Vec<(K, V)>> = Vec::new();
        std::mem::swap(&mut self.maps, &mut maps);
        maps.push(Vec::new());
        assert(scopes_view(maps@) =~= old(self)@.push(Seq::empty()));
        std::mem::swap(&mut self.maps, &mut maps);
    }

    /// Closes the innermost scope, with all it holds. Without an open
    /// scope nothing happens.
    pub fn exit(&mut self)
        ensures
            final(self)@ == if old(self)@.len() > 0 {
                old(self)@.drop_last()
            } else {
                old(self)@
            },
    {
        proof {
            use_type_invariant(&*self);
        }
        let mut maps: Vec<Vec<(K, V)>> = Vec::new();
        std::mem::swap(&mut self.maps, &mut maps);
        maps.pop();
        assert(scopes_view(maps@) =~= if old(self)@.len() > 0 {
            old(self)@.drop_last()
        } else {
            old(self)@
        });
        std::mem::swap(&mut self.maps, &mut maps);
    }

    /// The value for `key` in the innermost scope that holds the key.
    pub fn get(&self, key: &K) -> (found: Option<&V>)
        ensures
            K::obeys_eq_spec() ==> match found {
                Some(value) => scopes_get(self@, *key, self@.len()) == Some(*value),
                None => scopes_get(self@, *key, self@.len()) is None,
            },
    {
        let mut n: usize = self.maps.len();
        while n > 0
            invariant
                n <= self.maps.len(),
                K::obeys_eq_spec() ==> scopes_get(self@, *key, self@.len()) == scopes_get(
                    self@,
                    *key,
                    n as nat,
                ),
            decreases n,
        {
            let scope = &self.maps[n - 1];
            assert(self@[n - 1] == scope@);
            match position(scope, key) {
                Some(i) => {
                    return Some(&scope[i].1);
                },
                None => {},
            }
            n -= 1;
        }
        None
    }

    /// Inserts into the innermost scope, unless that scope holds the key
    /// already: then nothing changes and the answer is `false`. Outer
    /// scopes do not count: a key of theirs is shadowed.
    pub fn insert(&mut self, key: K, value: V) -> (inserted: bool)
        requires
            old(self)@.len() > 0,
        ensures
            inserted ==> final(self)@ == old(self)@.update(
                old(self)@.len() - 1,
                old(self)@.last().push((key, value)),
            ),
            !inserted ==> final(self)@ == old(self)@,
            K::obeys_eq_spec() ==> inserted == (scope_get(
                old(self)@.last(),
                key,
                old(self)@.last().len(),
            ) is None),
    {
        proof {
            use_type_invariant(&*self);
        }
        let mut maps: Vec<Vec<(K, V)>> = Vec::new();
        std::mem::swap(&mut self.maps, &mut maps);
        let ghost before = maps@;
        let mut top = maps.pop().unwrap();
        assert(old(self)@.last() == top@);
        let inserted = match position(&top, &key) {
            Some(_) => false,
            None => {
                top.push((key, value));
                proof {
                    if K::obeys_eq_spec() {
                        let ghost shorter = old(self)@.last();
                        assert forall|i: int, j: int| 0 <= i < j < top@.len() implies !(
                        #[trigger] top@[i]).0.eq_spec(&(#[trigger] top@[j]).0) by {
                            if j < shorter.len() {
                                assert(keys_once(before[before.len() - 1]@));
                                assert(top@[i] == shorter[i]);
                                assert(top@[j] == shorter[j]);
                            } else {
                                assert(top@[i] == shorter[i]);
                            }
                        }
                    }
                }
                true
            },
        };
        maps.push(top);
        proof {
            if inserted {
                assert(scopes_view(maps@) =~= old(self)@.update(
                    old(self)@.len() - 1,
                    old(self)@.last().push((key, value)),
                ));
            } else {
                assert(scopes_view(maps@) =~= old(self)@);
            }
            if K::obeys_eq_spec() {
                assert forall|i: int| 0 <= i < maps.len() implies keys_once(
                    (#[trigger] maps[i])@,
                ) by {
                    if i < maps.len() - 1 {
                        assert(maps[i] == before[i]);
                    }
                }
            }
        }
        std::mem::swap(&mut self.maps, &mut maps);
        inserted
    }
}

} // verus!
