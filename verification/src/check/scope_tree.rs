//! Scopes kept in one arena: each scope knows its parent by index, and a
//! walk from a scope to the root follows these indices.

use crate::ast::ty::Name;
use crate::parser::span::Span;
use vstd::prelude::*;

verus! {

pub type ScopeId = usize;

/// A declared name: where it was declared, and in which scope.
#[derive(Debug)]
pub struct Symbol {
    pub span: Span,
    pub name: Name,
    pub scope: ScopeId,
}

/// What a scope knows of a name.
pub struct SymbolView {
    pub span: Span,
    pub scope: ScopeId,
}

impl Symbol {
    pub open spec fn view(&self) -> SymbolView {
        SymbolView { span: self.span, scope: self.scope }
    }
}

/// A scope as contracts speak of it.
pub struct ScopeView {
    pub index: ScopeId,
    pub parent: Option<ScopeId>,
    pub symbols: Map<Seq<char>, SymbolView>,
}

/// No two symbols have the same name.
pub open spec fn names_once(symbols: Seq<Symbol>) -> bool {
    forall|i: int, j: int|
        0 <= i < j < symbols.len() ==> (#[trigger] symbols[i]).name@ != (
        #[trigger] symbols[j]).name@
}

/// The symbols as a map from their names.
pub open spec fn symbols_map(symbols: Seq<Symbol>) -> Map<Seq<char>, SymbolView>
    decreases symbols.len(),
{
    if symbols.len() == 0 {
        Map::empty()
    } else {
        symbols_map(symbols.drop_last()).insert(symbols.last().name@, symbols.last()@)
    }
}

proof fn lemma_absent(symbols: Seq<Symbol>, name: Seq<char>)
    requires
        forall|j: int| 0 <= j < symbols.len() ==> (#[trigger] symbols[j]).name@ != name,
    ensures
        !symbols_map(symbols).contains_key(name),
    decreases symbols.len(),
{
    if symbols.len() > 0 {
        lemma_absent(symbols.drop_last(), name);
    }
}

proof fn lemma_present(symbols: Seq<Symbol>, i: int)
    requires
        names_once(symbols),
        0 <= i < symbols.len(),
    ensures
        symbols_map(symbols).contains_key(symbols[i].name@),
        symbols_map(symbols)[symbols[i].name@] == symbols[i]@,
    decreases symbols.len(),
{
    if i < symbols.len() - 1 {
        let front = symbols.drop_last();
        assert(names_once(front)) by {
            assert forall|a: int, b: int| 0 <= a < b < front.len() implies (
            #[trigger] front[a]).name@ != (#[trigger] front[b]).name@ by {
                assert(front[a] == symbols[a]);
                assert(front[b] == symbols[b]);
            }
        }
        lemma_present(front, i);
        assert(symbols[i].name@ != symbols.last().name@);
    }
}

/// One scope of the tree. A scope holds a name at most once.
pub struct Scope {
    index: ScopeId,
    parent: Option<ScopeId>,
    symbols: Vec<Symbol>,
}

impl Scope {
    #[verifier::type_invariant]
    spec fn names_held_once(self) -> bool {
        names_once(self.symbols@)
    }

    pub closed spec fn view(&self) -> ScopeView {
        ScopeView {
            index: self.index,
            parent: self.parent,
            symbols: symbols_map(self.symbols@),
        }
    }

    fn new(index: ScopeId, parent: Option<ScopeId>) -> (scope: Scope)
        ensures
            scope@ == (ScopeView { index, parent, symbols: Map::empty() }),
    {
        Scope { index, parent, symbols: Vec::new() }
    }

    /// The parent, if the scope has one.
    pub fn parent(&self) -> (parent: Option<ScopeId>)
        ensures
            parent == self@.parent,
    {
        self.parent
    }

    /// The index of the scope in its tree.
    pub fn index(&self) -> (index: ScopeId)
        ensures
            index == self@.index,
    {
        self.index
    }

    /// Declares a name in this scope, unless the scope holds it already:
    /// then nothing changes and the answer is `false`.
    pub fn insert(&mut self, span: Span, name: Name) -> (inserted: bool)
        ensures
            inserted == !old(self)@.symbols.contains_key(name@),
            final(self)@.index == old(self)@.index,
            final(self)@.parent == old(self)@.parent,
            final(self)@.symbols == if inserted {
                old(self)@.symbols.insert(
                    name@,
                    SymbolView { span, scope: old(self)@.index },
                )
            } else {
                old(self)@.symbols
            },
    {
        proof {
            use_type_invariant(&*self);
        }
        let mut i: usize = 0;
        while i < self.symbols.len()
            invariant
                i <= self.symbols.len(),
                *self == *old(self),
                names_once(self.symbols@),
                forall|j: int| 0 <= j < i ==> (#[trigger] self.symbols[j]).name@ != name@,
            decreases self.symbols.len() - i,
        {
            if self.symbols[i].name == name {
                proof {
                    lemma_present(self.symbols@, i as int);
                }
                return false;
            }
            i += 1;
        }
        let symbol = Symbol { span, name, scope: self.index };
        proof {
            lemma_absent(self.symbols@, name@);
            let longer = self.symbols@.push(symbol);
            assert(longer.drop_last() =~= self.symbols@);
            assert forall|a: int, b: int| 0 <= a < b < longer.len() implies (
            #[trigger] longer[a]).name@ != (#[trigger] longer[b]).name@ by {
                if b < self.symbols.len() {
                    assert(longer[a] == self.symbols@[a]);
                    assert(longer[b] == self.symbols@[b]);
                } else {
                    assert(longer[a] == self.symbols@[a]);
                }
            }
        }
        let mut symbols: Vec<Symbol> = Vec::new();
        std::mem::swap(&mut self.symbols, &mut symbols);
        symbols.push(symbol);
        std::mem::swap(&mut self.symbols, &mut symbols);
        true
    }

    /// The symbol that this scope holds for the name.
    pub fn lookup(&self, name: &Name) -> (found: Option<&Symbol>)
        ensures
            match found {
                Some(symbol) => self@.symbols.contains_key(name@) && self@.symbols[name@]
                    == symbol@ && symbol.name@ == name@,
                None => !self@.symbols.contains_key(name@),
            },
    {
        proof {
            use_type_invariant(self);
        }
        let mut i: usize = 0;
        while i < self.symbols.len()
            invariant
                i <= self.symbols.len(),
                names_once(self.symbols@),
                forall|j: int| 0 <= j < i ==> (#[trigger] self.symbols[j]).name@ != name@,
            decreases self.symbols.len() - i,
        {
            if self.symbols[i].name == *name {
                proof {
                    lemma_present(self.symbols@, i as int);
                }
                return Some(&self.symbols[i]);
            }
            i += 1;
        }
        proof {
            lemma_absent(self.symbols@, name@);
        }
        None
    }
}

/// The scopes of a tree as contracts speak of them.
pub open spec fn scopes_view(scopes: Seq<Scope>) -> Seq<ScopeView> {
    Seq::new(scopes.len(), |i: int| scopes[i]@)
}

/// Every scope stands at its index and has its parent before it.
pub open spec fn linked(scopes: Seq<ScopeView>) -> bool {
    forall|i: int|
        0 <= i < scopes.len() ==> (#[trigger] scopes[i]).index == i && (match scopes[i].parent {
            Some(parent) => parent < i,
            None => true,
        })
}

/// The scopes on the way from `from` to the root, `from` first.
pub open spec fn path(scopes: Seq<ScopeView>, from: ScopeId) -> Seq<ScopeView>
    recommends
        linked(scopes),
        from < scopes.len(),
    decreases from,
{
    if from >= scopes.len() {
        Seq::empty()
    } else {
        match scopes[from as int].parent {
            Some(parent) if parent < from => seq![scopes[from as int]] + path(scopes, parent),
            _ => seq![scopes[from as int]],
        }
    }
}

/// All scopes of a compilation.
pub struct ScopeTree {
    scopes: Vec<Scope>,
}

impl ScopeTree {
    /// The scopes, in the order in which they were added.
    pub closed spec fn view(&self) -> Seq<ScopeView> {
        scopes_view(self.scopes@)
    }

    /// Whether the scopes hang together: each stands at its index, below
    /// a parent that was added before it.
    pub open spec fn wf(&self) -> bool {
        linked(self@)
    }

    /// A tree without scopes.
    pub fn new() -> (tree: ScopeTree)
        ensures
            tree@ == Seq::<ScopeView>::empty(),
            tree.wf(),
    {
        let tree = ScopeTree { scopes: Vec::new() };
        assert(tree@ =~= Seq::<ScopeView>::empty());
        tree
    }

    /// The number of scopes.
    pub fn len(&self) -> (len: usize)
        ensures
            len == self@.len(),
    {
        self.scopes.len()
    }

    /// Adds an empty scope below `parent`, or a root, and gives its index.
    /// The tree stays well-formed if the parent is a scope of the tree.
    pub fn add_scope(&mut self, parent: Option<ScopeId>) -> (scope: ScopeId)
        ensures
            scope == old(self)@.len(),
            final(self)@ == old(self)@.push(
                ScopeView { index: scope, parent, symbols: Map::empty() },
            ),
            old(self).wf() && (parent matches Some(parent) ==> parent < old(self)@.len())
                ==> final(self).wf(),
    {
        let scope = self.scopes.len();
        self.scopes.push(Scope::new(scope, parent));
        assert(self@ =~= old(self)@.push(
            ScopeView { index: scope, parent, symbols: Map::empty() },
        ));
        scope
    }

    /// The scope at an index.
    pub fn scope(&self, scope: ScopeId) -> (found: &Scope)
        requires
            scope < self@.len(),
        ensures
            found@ == self@[scope as int],
    {
        &self.scopes[scope]
    }

    /// The scope at an index, to declare names in it.
    pub fn scope_mut(&mut self, scope: ScopeId) -> (found: &mut Scope)
        requires
            scope < old(self)@.len(),
        ensures
            found@ == old(self)@[scope as int],
            final(self)@ == old(self)@.update(scope as int, final(found)@),
    {
        let found = &mut self.scopes[scope];
        proof {
            assert(scopes_view(old(self).scopes@.update(scope as int, *final(found)))
                =~= old(self)@.update(scope as int, final(found)@));
        }
        found
    }

    /// A tree stays well-formed when one of its scopes is replaced by a
    /// scope with the same index and parent: so after a declaration made
    /// through `scope_mut`.
    pub proof fn lemma_update_keeps_wf(before: Seq<ScopeView>, scope: int, after: ScopeView)
        requires
            linked(before),
            0 <= scope < before.len(),
            after.index == before[scope].index,
            after.parent == before[scope].parent,
        ensures
            linked(before.update(scope, after)),
    {
        let updated = before.update(scope, after);
        assert forall|i: int| 0 <= i < updated.len() implies (#[trigger] updated[i]).index == i && (
        match updated[i].parent {
            Some(parent) => parent < i,
            None => true,
        }) by {
            if i != scope {
                assert(updated[i] == before[i]);
            }
        }
    }

    /// A cursor over the scopes from `from` to the root.
    pub fn iter<'a>(&'a self, from: ScopeId) -> (iter: Iter<'a>)
        requires
            self.wf(),
            from < self@.len(),
        ensures
            iter.wf(),
            iter.remaining() == path(self@, from),
    {
        Iter { scope_tree: self, current: Some(from) }
    }
}

/// A cursor over the scopes on the way to the root.
pub struct Iter<'a> {
    scope_tree: &'a ScopeTree,
    current: Option<ScopeId>,
}

impl<'a> Iter<'a> {
    /// Whether the cursor stands in a well-formed tree.
    pub closed spec fn wf(&self) -> bool {
        self.scope_tree.wf() && (self.current matches Some(current) ==> current
            < self.scope_tree@.len())
    }

    /// The scopes not handed out yet, the next one first.
    pub closed spec fn remaining(&self) -> Seq<ScopeView> {
        match self.current {
            Some(current) => path(self.scope_tree@, current),
            None => Seq::empty(),
        }
    }

    /// Hands out the next scope on the way to the root, or `None` past
    /// the root.
    pub fn next(&mut self) -> (scope: Option<&'a Scope>)
        requires
            old(self).wf(),
        ensures
            final(self).wf(),
            old(self).remaining().len() == 0 ==> scope is None && final(self).remaining()
                == old(self).remaining(),
            old(self).remaining().len() > 0 ==> (scope matches Some(found) && found@
                == old(self).remaining()[0] && final(self).remaining()
                == old(self).remaining().drop_first()),
    {
        match self.current {
            Some(current) => {
                let scope = self.scope_tree.scope(current);
                let ghost before = self.remaining();
                self.current = scope.parent();
                proof {
                    let scopes = self.scope_tree@;
                    assert(scopes[current as int].index == current);
                    match scopes[current as int].parent {
                        Some(parent) => {
                            assert(before == seq![scopes[current as int]] + path(scopes, parent));
                            assert(before.drop_first() =~= path(scopes, parent));
                        },
                        None => {
                            assert(before.drop_first() =~= Seq::<ScopeView>::empty());
                        },
                    }
                }
                Some(scope)
            },
            None => None,
        }
    }
}

} // verus!
