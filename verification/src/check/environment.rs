//! The lexical environment: a chain of scope frames, innermost first.

use crate::ast::ty::{Name, Ty, TyView};
use crate::check::{CheckResult, Checked, Failure, FailureKind, SemanticError, SemanticErrorKind};
use crate::parser::span::Span;
use crate::utility::scoped::Scoped;
use vstd::prelude::*;

verus! {

/// A declared name: where it was declared and what type it has.
#[derive(Debug)]
pub struct Binding {
    pub span: Span,
    pub name: Name,
    pub ty: Ty<Checked>,
}

/// What a name is bound to: the place of its declaration and the meaning
/// of its type.
pub struct BindingView {
    pub span: Span,
    pub ty: TyView,
}

impl Binding {
    pub open spec fn view(&self) -> BindingView {
        BindingView { span: self.span, ty: self.ty@ }
    }
}

impl Clone for Binding {
    fn clone(&self) -> (copy: Binding)
        ensures
            copy.span == self.span,
            copy.name@ == self.name@,
            copy.ty.syntax() == self.ty.syntax(),
    {
        Binding { span: self.span, name: self.name.clone(), ty: self.ty.clone() }
    }
}

/// One scope as contracts speak of it: its variables and functions, its
/// type names, and the return type if the scope is a function's.
pub struct FrameView {
    pub bindings: Map<Seq<char>, BindingView>,
    pub types: Map<Seq<char>, BindingView>,
    pub return_ty: Option<TyView>,
}

/// A chain of scopes, innermost first.
pub type EnvView = Seq<FrameView>;

/// A scope in which nothing is declared yet.
pub open spec fn empty_frame(return_ty: Option<TyView>) -> FrameView {
    FrameView { bindings: Map::empty(), types: Map::empty(), return_ty }
}

/// The chain with a fresh scope opened inside it.
pub open spec fn env_enter(env: EnvView) -> EnvView {
    seq![empty_frame(None)] + env
}

/// The chain with a function's scope opened inside it.
pub open spec fn env_enter_func(env: EnvView, return_ty: TyView) -> EnvView {
    seq![empty_frame(Some(return_ty))] + env
}

/// What a name is bound to: the innermost scope that declares it decides.
pub open spec fn env_binding(env: EnvView, name: Seq<char>) -> Option<BindingView>
    decreases env.len(),
{
    if env.len() == 0 {
        None
    } else if env[0].bindings.contains_key(name) {
        Some(env[0].bindings[name])
    } else {
        env_binding(env.drop_first(), name)
    }
}

/// What a type name stands for: the innermost scope that declares it
/// decides.
pub open spec fn env_alias(env: EnvView, name: Seq<char>) -> Option<BindingView>
    decreases env.len(),
{
    if env.len() == 0 {
        None
    } else if env[0].types.contains_key(name) {
        Some(env[0].types[name])
    } else {
        env_alias(env.drop_first(), name)
    }
}

/// The return type of the innermost enclosing function, if there is one.
pub open spec fn env_return_ty(env: EnvView) -> Option<TyView>
    decreases env.len(),
{
    if env.len() == 0 {
        None
    } else if env[0].return_ty is Some {
        env[0].return_ty
    } else {
        env_return_ty(env.drop_first())
    }
}

/// Declares a variable or function in the innermost scope. A name that
/// this scope has already is refused, with the place of its first
/// declaration; outer scopes do not count, so an inner declaration
/// shadows them.
pub open spec fn env_declare_binding(env: EnvView, name: Seq<char>, binding: BindingView) -> Result<
    EnvView,
    Span,
> {
    if env[0].bindings.contains_key(name) {
        Err(env[0].bindings[name].span)
    } else {
        Ok(
            env.update(
                0,
                FrameView { bindings: env[0].bindings.insert(name, binding), ..env[0] },
            ),
        )
    }
}

/// Declares a type name in the innermost scope, as `env_declare_binding`
/// declares a variable.
pub open spec fn env_declare_alias(env: EnvView, name: Seq<char>, alias: BindingView) -> Result<
    EnvView,
    Span,
> {
    if env[0].types.contains_key(name) {
        Err(env[0].types[name].span)
    } else {
        Ok(env.update(0, FrameView { types: env[0].types.insert(name, alias), ..env[0] }))
    }
}

/// The error for a second declaration of `name` at `span`, the first one
/// standing at `origin`.
pub open spec fn redefinition(span: Span, origin: Span, name: Seq<char>) -> Failure {
    Failure { span, kind: FailureKind::Redefinition(origin, name) }
}

/// No two entries of the list have the same name.
pub open spec fn names_distinct(list: Seq<Binding>) -> bool {
    forall|i: int, j: int|
        0 <= i < j < list.len() ==> (#[trigger] list[i]).name@ != (#[trigger] list[j]).name@
}

/// The list as a map from names.
pub open spec fn bindings_map(list: Seq<Binding>) -> Map<Seq<char>, BindingView>
    decreases list.len(),
{
    if list.len() == 0 {
        Map::empty()
    } else {
        bindings_map(list.drop_last()).insert(list.last().name@, list.last()@)
    }
}

proof fn lemma_map_absent(list: Seq<Binding>, name: Seq<char>)
    requires
        forall|j: int| 0 <= j < list.len() ==> (#[trigger] list[j]).name@ != name,
    ensures
        !bindings_map(list).contains_key(name),
    decreases list.len(),
{
    if list.len() > 0 {
        lemma_map_absent(list.drop_last(), name);
    }
}

proof fn lemma_map_present(list: Seq<Binding>, i: int)
    requires
        names_distinct(list),
        0 <= i < list.len(),
    ensures
        bindings_map(list).contains_key(list[i].name@),
        bindings_map(list)[list[i].name@] == list[i]@,
    decreases list.len(),
{
    if i < list.len() - 1 {
        let front = list.drop_last();
        assert(names_distinct(front)) by {
            assert forall|a: int, b: int| 0 <= a < b < front.len() implies (
            #[trigger] front[a]).name@ != (#[trigger] front[b]).name@ by {
                assert(front[a] == list[a]);
                assert(front[b] == list[b]);
            }
        }
        lemma_map_present(front, i);
        assert(list[i].name@ != list.last().name@);
    }
}

/// The position of the first entry with the given name.
fn position(list: &Vec<Binding>, name: &Name) -> (found: Option<usize>)
    ensures
        match found {
            Some(i) => i < list.len() && list[i as int].name@ == name@,
            None => forall|j: int| 0 <= j < list.len() ==> (#[trigger] list[j]).name@ != name@,
        },
{
    let mut i: usize = 0;
    while i < list.len()
        invariant
            i <= list.len(),
            forall|j: int| 0 <= j < i ==> (#[trigger] list[j]).name@ != name@,
        decreases list.len() - i,
    {
        if list[i].name == *name {
            return Some(i);
        }
        i += 1;
    }
    None
}

/// One scope: the names declared in it. No name is declared twice in one
/// scope.
pub struct Frame {
    bindings: Vec<Binding>,
    types: Vec<Binding>,
    return_ty: Option<Ty<Checked>>,
}

impl Frame {
    #[verifier::type_invariant]
    spec fn names_declared_once(self) -> bool {
        names_distinct(self.bindings@) && names_distinct(self.types@)
    }

    pub closed spec fn view(&self) -> FrameView {
        FrameView {
            bindings: bindings_map(self.bindings@),
            types: bindings_map(self.types@),
            return_ty: match self.return_ty {
                Some(ty) => Some(ty@),
                None => None,
            },
        }
    }

    /// An empty scope. A function's scope is made with the function's
    /// return type.
    pub fn new(return_ty: Option<Ty<Checked>>) -> (frame: Frame)
        ensures
            frame@ == empty_frame(
                match return_ty {
                    Some(ty) => Some(ty@),
                    None => None,
                },
            ),
    {
        Frame { bindings: Vec::new(), types: Vec::new(), return_ty }
    }

    /// The variable or function of this name that the scope declares.
    pub fn binding(&self, name: &Name) -> (found: Option<&Binding>)
        ensures
            match found {
                Some(binding) => binding.name@ == name@ && self@.bindings.contains_key(name@)
                    && self@.bindings[name@] == binding@,
                None => !self@.bindings.contains_key(name@),
            },
    {
        proof {
            use_type_invariant(self);
        }
        match position(&self.bindings, name) {
            Some(i) => {
                proof {
                    lemma_map_present(self.bindings@, i as int);
                }
                Some(&self.bindings[i])
            },
            None => {
                proof {
                    lemma_map_absent(self.bindings@, name@);
                }
                None
            },
        }
    }

    /// The type of this name that the scope declares.
    pub fn alias(&self, name: &Name) -> (found: Option<&Binding>)
        ensures
            match found {
                Some(alias) => alias.name@ == name@ && self@.types.contains_key(name@)
                    && self@.types[name@] == alias@,
                None => !self@.types.contains_key(name@),
            },
    {
        proof {
            use_type_invariant(self);
        }
        match position(&self.types, name) {
            Some(i) => {
                proof {
                    lemma_map_present(self.types@, i as int);
                }
                Some(&self.types[i])
            },
            None => {
                proof {
                    lemma_map_absent(self.types@, name@);
                }
                None
            },
        }
    }

    /// The return type, if this is a function's scope.
    pub fn return_ty(&self) -> (found: Option<&Ty<Checked>>)
        ensures
            match found {
                Some(ty) => self@.return_ty == Some(ty@),
                None => self@.return_ty is None,
            },
    {
        self.return_ty.as_ref()
    }

    fn insert_binding(&mut self, binding: Binding)
        requires
            !old(self)@.bindings.contains_key(binding.name@),
        ensures
            final(self)@ == (FrameView {
                bindings: old(self)@.bindings.insert(binding.name@, binding@),
                ..old(self)@
            }),
    {
        proof {
            use_type_invariant(&*self);
            lemma_distinct_after_push(self.bindings@, binding);
            assert(self.bindings@.push(binding).drop_last() =~= self.bindings@);
        }
        let mut bindings: Vec<Binding> = Vec::new();
        std::mem::swap(&mut self.bindings, &mut bindings);
        bindings.push(binding);
        std::mem::swap(&mut self.bindings, &mut bindings);
    }

    fn insert_alias(&mut self, alias: Binding)
        requires
            !old(self)@.types.contains_key(alias.name@),
        ensures
            final(self)@ == (FrameView {
                types: old(self)@.types.insert(alias.name@, alias@),
                ..old(self)@
            }),
    {
        proof {
            use_type_invariant(&*self);
            lemma_distinct_after_push(self.types@, alias);
            assert(self.types@.push(alias).drop_last() =~= self.types@);
        }
        let mut types: Vec<Binding> = Vec::new();
        std::mem::swap(&mut self.types, &mut types);
        types.push(alias);
        std::mem::swap(&mut self.types, &mut types);
    }
}

proof fn lemma_distinct_after_push(list: Seq<Binding>, binding: Binding)
    requires
        names_distinct(list),
        !bindings_map(list).contains_key(binding.name@),
    ensures
        names_distinct(list.push(binding)),
{
    let longer = list.push(binding);
    assert forall|a: int, b: int| 0 <= a < b < longer.len() implies (#[trigger] longer[a]).name@
        != (#[trigger] longer[b]).name@ by {
        if b < list.len() {
            assert(longer[a] == list[a]);
            assert(longer[b] == list[b]);
        } else {
            lemma_map_present(list, a);
        }
    }
}

/// The scopes of a chain as contracts speak of them.
pub open spec fn frames_view(frames: Seq<Frame>) -> EnvView {
    Seq::new(frames.len(), |i: int| frames[i]@)
}

/// The scopes in force at one point of the analysis.
pub struct Environment<'s> {
    scope: Scoped<'s, Frame>,
}

impl<'s> Environment<'s> {
    /// The scopes, innermost first.
    pub closed spec fn view(&self) -> EnvView {
        frames_view(self.scope.items())
    }

    /// There is always a scope to declare in.
    pub proof fn lemma_inhabited(&self)
        ensures
            self@.len() >= 1,
    {
        self.scope.lemma_inhabited();
    }

    /// The environment of a fresh compilation: one empty scope.
    pub fn new() -> (env: Environment<'s>)
        ensures
            env@ == seq![empty_frame(None)],
    {
        let env = Environment { scope: Scoped::new(Frame::new(None)) };
        assert(env@ =~= seq![empty_frame(None)]);
        env
    }

    /// Opens a scope inside the current one.
    pub fn enter<'a>(&'a self) -> (child: Environment<'a>)
        ensures
            child@ == env_enter(self@),
    {
        let child = Environment { scope: self.scope.enter_with(Frame::new(None)) };
        assert(child@ =~= env_enter(self@));
        child
    }

    /// Opens the scope of a function that returns `return_ty`.
    pub fn enter_func<'a>(&'a self, return_ty: Ty<Checked>) -> (child: Environment<'a>)
        ensures
            child@ == env_enter_func(self@, return_ty@),
    {
        let child = Environment { scope: self.scope.enter_with(Frame::new(Some(return_ty))) };
        assert(child@ =~= env_enter_func(self@, return_ty@));
        child
    }

    /// Declares a variable or function in the current scope.
    pub fn declare_binding(&mut self, binding: Binding) -> (result: CheckResult<()>)
        ensures
            env_return_ty(final(self)@) == env_return_ty(old(self)@),
            match env_declare_binding(old(self)@, binding.name@, binding@) {
                Ok(env) => result is Ok && final(self)@ == env,
                Err(origin) => result matches Err(error) && error@ == redefinition(
                    binding.span,
                    origin,
                    binding.name@,
                ) && final(self)@ == old(self)@,
            },
    {
        let frame = self.scope.item_mut();
        match frame.binding(&binding.name) {
            Some(existing) => {
                let kind = SemanticErrorKind::Redefinition(existing.span, binding.name);
                assert(self@ =~= old(self)@);
                Err(SemanticError::new(binding.span, kind))
            },
            None => {
                frame.insert_binding(binding);
                proof {
                    let old_env = old(self)@;
                    let new_frame = FrameView {
                        bindings: old_env[0].bindings.insert(binding.name@, binding@),
                        ..old_env[0]
                    };
                    assert(self@ =~= old_env.update(0, new_frame));
                    assert(self@.drop_first() =~= old_env.drop_first());

                }
                Ok(())
            },
        }
    }

    /// Declares a type name in the current scope.
    pub fn declare_alias(&mut self, alias: Binding) -> (result: CheckResult<()>)
        ensures
            env_return_ty(final(self)@) == env_return_ty(old(self)@),
            match env_declare_alias(old(self)@, alias.name@, alias@) {
                Ok(env) => result is Ok && final(self)@ == env,
                Err(origin) => result matches Err(error) && error@ == redefinition(
                    alias.span,
                    origin,
                    alias.name@,
                ) && final(self)@ == old(self)@,
            },
    {
        let frame = self.scope.item_mut();
        match frame.alias(&alias.name) {
            Some(existing) => {
                let kind = SemanticErrorKind::Redefinition(existing.span, alias.name);
                assert(self@ =~= old(self)@);
                Err(SemanticError::new(alias.span, kind))
            },
            None => {
                frame.insert_alias(alias);
                proof {
                    let old_env = old(self)@;
                    let new_frame = FrameView {
                        types: old_env[0].types.insert(alias.name@, alias@),
                        ..old_env[0]
                    };
                    assert(self@ =~= old_env.update(0, new_frame));
                    assert(self@.drop_first() =~= old_env.drop_first());

                }
                Ok(())
            },
        }
    }

    /// Looks a variable or function up, from the current scope outwards.
    pub fn binding(&self, name: &Name) -> (found: Option<&Binding>)
        ensures
            match found {
                Some(binding) => binding.name@ == name@ && env_binding(self@, name@) == Some(
                    binding@,
                ),
                None => env_binding(self@, name@) is None,
            },
    {
        let mut iter = self.scope.iter();
        loop
            invariant
                env_binding(self@, name@) == env_binding(frames_view(iter.remaining()), name@),
            decreases iter.remaining().len(),
        {
            let ghost rest = frames_view(iter.remaining());
            match iter.next() {
                None => {
                    return None;
                },
                Some(frame) => {
                    assert(frames_view(iter.remaining()) =~= rest.drop_first());
                    if let Some(binding) = frame.binding(name) {
                        return Some(binding);
                    }
                },
            }
        }
    }

    /// Looks a type name up, from the current scope outwards.
    pub fn alias(&self, name: &Name) -> (found: Option<&Binding>)
        ensures
            match found {
                Some(alias) => alias.name@ == name@ && env_alias(self@, name@) == Some(alias@),
                None => env_alias(self@, name@) is None,
            },
    {
        let mut iter = self.scope.iter();
        loop
            invariant
                env_alias(self@, name@) == env_alias(frames_view(iter.remaining()), name@),
            decreases iter.remaining().len(),
        {
            let ghost rest = frames_view(iter.remaining());
            match iter.next() {
                None => {
                    return None;
                },
                Some(frame) => {
                    assert(frames_view(iter.remaining()) =~= rest.drop_first());
                    if let Some(alias) = frame.alias(name) {
                        return Some(alias);
                    }
                },
            }
        }
    }

    /// The return type of the innermost function round the current scope.
    pub fn lookup_return_type(&self) -> (found: Option<&Ty<Checked>>)
        ensures
            match found {
                Some(ty) => env_return_ty(self@) == Some(ty@),
                None => env_return_ty(self@) is None,
            },
    {
        let mut iter = self.scope.iter();
        loop
            invariant
                env_return_ty(self@) == env_return_ty(frames_view(iter.remaining())),
            decreases iter.remaining().len(),
        {
            let ghost rest = frames_view(iter.remaining());
            match iter.next() {
                None => {
                    return None;
                },
                Some(frame) => {
                    assert(frames_view(iter.remaining()) =~= rest.drop_first());
                    if let Some(ty) = frame.return_ty() {
                        return Some(ty);
                    }
                },
            }
        }
    }
}

} // verus!
