//! A chain of scopes: each link owns one item and borrows its parent.

use vstd::prelude::*;

verus! {

/// One scope with the scopes round it. A child borrows its parent for as
/// long as it lives, so a parent never changes while a child is open and a
/// child can change nothing but its own item.
pub struct Scoped<'a, T> {
    next: Option<&'a Scoped<'a, T>>,
    item: T,
}

impl<'a, T> Scoped<'a, T> {
    /// The items of the chain, innermost first.
    pub closed spec fn items(&self) -> Seq<T>
        decreases self,
    {
        match self.next {
            None => seq![self.item],
            Some(next) => seq![self.item] + next.items(),
        }
    }

    /// A chain always holds its own item.
    pub proof fn lemma_inhabited(&self)
        ensures
            self.items().len() >= 1,
    {
    }

    /// A chain of one scope.
    pub fn new(item: T) -> (scoped: Scoped<'a, T>)
        ensures
            scoped.items() == seq![item],
    {
        Scoped { next: None, item }
    }

    /// Opens a scope inside this one.
    pub fn enter_with<'b>(&'b self, item: T) -> (scoped: Scoped<'b, T>)
        ensures
            scoped.items() == seq![item] + self.items(),
    {
        Scoped { next: Some(self), item }
    }

    /// The innermost item.
    pub fn item(&self) -> (item: &T)
        ensures
            self.items().len() >= 1,
            *item == self.items()[0],
    {
        &self.item
    }

    /// The innermost item, to change it; the scopes round it stay as they
    /// are.
    pub fn item_mut(&mut self) -> (item: &mut T)
        ensures
            old(self).items().len() >= 1,
            *item == old(self).items()[0],
            final(self).items() == old(self).items().update(0, *final(item)),
    {
        &mut self.item
    }

    /// The first result that `func` gives for an item, going from the
    /// innermost scope outwards.
    pub fn find<'b, F, R>(&'b self, func: F) -> (found: Option<R>) where F: Fn(&'b T) -> Option<R>
        requires
            forall|item: &'b T| func.requires((item,)),
        ensures
            match found {
                Some(result) => exists|i: int|
                    {
                        &&& 0 <= i < self.items().len()
                        &&& func.ensures((&self.items()[i],), Some(result))
                        &&& forall|j: int|
                            0 <= j < i ==> func.ensures((&#[trigger] self.items()[j],), None::<R>)
                    },
                None => forall|i: int|
                    0 <= i < self.items().len() ==> func.ensures(
                        (&#[trigger] self.items()[i],),
                        None::<R>,
                    ),
            },
    {
        let ghost all = self.items();
        let ghost mut done: int = 0;
        let mut current = self;
        proof {
            assert(all.subrange(0, all.len() as int) =~= all);
        }
        loop
            invariant
                all == self.items(),
                0 <= done < all.len(),
                current.items() == all.subrange(done, all.len() as int),
                forall|item: &'b T| func.requires((item,)),
                forall|j: int| 0 <= j < done ==> func.ensures((&#[trigger] all[j],), None::<R>),
            decreases all.len() - done,
        {
            proof {
                current.lemma_inhabited();
                assert(current.items()[0] == all[done]);
            }
            match func(&current.item) {
                Some(result) => {
                    return Some(result);
                },
                None => {},
            }
            match current.next {
                Some(next) => {
                    proof {
                        assert(current.items() == seq![current.item] + next.items());
                        assert(next.items() =~= current.items().subrange(
                            1,
                            current.items().len() as int,
                        ));
                        assert(next.items() =~= all.subrange(done + 1, all.len() as int));
                        done = done + 1;
                    }
                    current = next;
                },
                None => {
                    proof {
                        assert(current.items().len() == 1);
                        assert(done == all.len() - 1);
                    }
                    return None;
                },
            }
        }
    }

    /// What `func` gives for each item, from the innermost scope
    /// outwards, all in one list.
    pub fn flat_map<'b, F, R>(&'b self, func: F) -> (all: Vec<R>) where F: Fn(&'b T) -> Vec<R>
        requires
            forall|item: &'b T| func.requires((item,)),
        ensures
            exists|parts: Seq<Vec<R>>|
                {
                    &&& parts.len() == self.items().len()
                    &&& forall|i: int|
                        0 <= i < parts.len() ==> func.ensures(
                            (&self.items()[i],),
                            #[trigger] parts[i],
                        )
                    &&& all@ == concat(parts, parts.len())
                },
    {
        let ghost items = self.items();
        let ghost mut parts: Seq<Vec<R>> = Seq::empty();
        let mut all: Vec<R> = Vec::new();
        let mut current = self;
        proof {
            assert(items.subrange(0, items.len() as int) =~= items);
        }
        loop
            invariant
                items == self.items(),
                parts.len() < items.len(),
                current.items() == items.subrange(parts.len() as int, items.len() as int),
                forall|item: &'b T| func.requires((item,)),
                forall|i: int|
                    0 <= i < parts.len() ==> func.ensures((&items[i],), #[trigger] parts[i]),
                all@ == concat(parts, parts.len()),
            decreases items.len() - parts.len(),
        {
            proof {
                current.lemma_inhabited();
                assert(current.items()[0] == items[parts.len() as int]);
            }
            let mut part = func(&current.item);
            let ghost made = part;
            let ghost before = parts;
            proof {
                parts = parts.push(part);
                lemma_concat_prefix(before, parts, before.len());
            }
            all.append(&mut part);
            match current.next {
                Some(next) => {
                    proof {
                        assert(current.items() == seq![current.item] + next.items());
                        assert(next.items() =~= current.items().subrange(
                            1,
                            current.items().len() as int,
                        ));
                        assert(next.items() =~= items.subrange(
                            parts.len() as int,
                            items.len() as int,
                        ));
                    }
                    current = next;
                },
                None => {
                    proof {
                        assert(current.items().len() == 1);
                    }
                    return all;
                },
            }
        }
    }

    /// A cursor over the items, innermost first.
    pub fn iter<'b>(&'b self) -> (iter: Iter<'b, T>)
        ensures
            iter.remaining() == self.items(),
    {
        Iter { current: Some(self) }
    }
}

impl<'a, T: Default> Scoped<'a, T> {
    /// Opens a scope inside this one, with the default item.
    pub fn enter<'b>(&'b self) -> (scoped: Scoped<'b, T>)
        ensures
            scoped.items().len() == self.items().len() + 1,
            scoped.items().subrange(1, scoped.items().len() as int) == self.items(),
    {
        let scoped = self.enter_with(Default::default());
        assert(scoped.items().subrange(1, scoped.items().len() as int) =~= self.items());
        scoped
    }
}

/// The first `n` lists, one behind the other.
pub open spec fn concat<R>(parts: Seq<Vec<R>>, n: nat) -> Seq<R>
    decreases n,
{
    if n == 0 || n > parts.len() {
        Seq::empty()
    } else {
        concat(parts, (n - 1) as nat) + parts[n - 1]@
    }
}

/// What the first `n` lists make does not depend on the lists behind
/// them.
proof fn lemma_concat_prefix<R>(parts: Seq<Vec<R>>, longer: Seq<Vec<R>>, n: nat)
    requires
        n <= parts.len() <= longer.len(),
        forall|i: int| 0 <= i < n ==> parts[i] == longer[i],
    ensures
        concat(parts, n) == concat(longer, n),
    decreases n,
{
    if n > 0 {
        lemma_concat_prefix(parts, longer, (n - 1) as nat);
    }
}

/// A cursor over a chain of scopes, from the innermost outwards.
pub struct Iter<'a, T> {
    current: Option<&'a Scoped<'a, T>>,
}

impl<'a, T> Iter<'a, T> {
    /// The items not handed out yet, innermost first.
    pub closed spec fn remaining(&self) -> Seq<T> {
        match self.current {
            None => Seq::empty(),
            Some(scoped) => scoped.items(),
        }
    }

    /// Hands out the next item, or `None` past the outermost scope.
    pub fn next(&mut self) -> (item: Option<&'a T>)
        ensures
            old(self).remaining().len() == 0 ==> item is None && final(self).remaining()
                == old(self).remaining(),
            old(self).remaining().len() > 0 ==> item == Some(&old(self).remaining()[0])
                && final(self).remaining() == old(self).remaining().drop_first(),
    {
        match self.current {
            Some(current) => {
                self.current = current.next;
                proof {
                    current.lemma_inhabited();
                    match current.next {
                        None => {
                            assert(current.items().drop_first() =~= Seq::<T>::empty());
                        },
                        Some(next) => {
                            assert(current.items().drop_first() =~= next.items());
                        },
                    }
                }
                Some(&current.item)
            },
            None => None,
        }
    }
}

} // verus!
