//! The type model: primitive, alias, pointer, function and record types.

use crate::check::Unchecked;
use crate::parser::span::Span;
use std::marker::PhantomData;
use crate::utility::text::{comma_separated, texts, write_comma_seperated};
use vstd::prelude::*;
use vstd::string::*;

verus! {

pub type Name = String;

/// A type as it is written: every span and every pair of parentheses kept.
pub struct TySyntax {
    pub span: Span,
    pub kind: TyKindSyntax,
}

pub enum TyKindSyntax {
    U8,
    Void,
    Alias(Seq<char>),
    Ptr(Box<TySyntax>),
    Func(Seq<TySyntax>, Box<TySyntax>),
    Struct(Seq<FieldSyntax>),
    Paren(Box<TySyntax>),
}

/// A field, parameter or variable as it is written.
pub struct FieldSyntax {
    pub span: Span,
    pub name: Seq<char>,
    pub ty: TySyntax,
}

/// What a type means: spans and parentheses are gone, so two types are
/// structurally equal exactly when their meanings are the same value.
/// Aliases stay names: two aliases are equal only if the names are.
pub enum TyView {
    U8,
    Void,
    Alias(Seq<char>),
    Ptr(Box<TyView>),
    Func(Seq<TyView>, Box<TyView>),
    Struct(Seq<(Seq<char>, TyView)>),
}

impl TySyntax {
    /// The meaning of a written type.
    pub open spec fn sem(self) -> TyView
        decreases self,
    {
        match self.kind {
            TyKindSyntax::U8 => TyView::U8,
            TyKindSyntax::Void => TyView::Void,
            TyKindSyntax::Alias(name) => TyView::Alias(name),
            TyKindSyntax::Ptr(pointee) => TyView::Ptr(Box::new(pointee.sem())),
            TyKindSyntax::Func(params, return_ty) => TyView::Func(
                tys_sem(params),
                Box::new(return_ty.sem()),
            ),
            TyKindSyntax::Struct(fields) => TyView::Struct(fields_sem(fields)),
            TyKindSyntax::Paren(inner) => inner.sem(),
        }
    }

    /// The type with every outer pair of parentheses taken off.
    pub open spec fn unparen(self) -> TySyntax
        decreases self,
    {
        match self.kind {
            TyKindSyntax::Paren(inner) => inner.unparen(),
            _ => self,
        }
    }
}

/// The meanings of a list of written types, in order.
pub open spec fn tys_sem(tys: Seq<TySyntax>) -> Seq<TyView>
    decreases tys,
{
    Seq::new(
        tys.len(),
        |i: int|
            if 0 <= i < tys.len() {
                tys[i].sem()
            } else {
                TyView::Void
            },
    )
}

/// The names and meanings of a list of written fields, in order.
pub open spec fn fields_sem(fields: Seq<FieldSyntax>) -> Seq<(Seq<char>, TyView)>
    decreases fields,
{
    Seq::new(
        fields.len(),
        |i: int|
            if 0 <= i < fields.len() {
                (fields[i].name, fields[i].ty.sem())
            } else {
                (Seq::empty(), TyView::Void)
            },
    )
}

impl TySyntax {
    /// How the type is shown.
    pub open spec fn text(self) -> Seq<char>
        decreases self,
    {
        match self.kind {
            TyKindSyntax::U8 => "u8"@,
            TyKindSyntax::Void => "void"@,
            TyKindSyntax::Alias(name) => name,
            TyKindSyntax::Ptr(pointee) => pointee.text() + "*"@,
            TyKindSyntax::Func(params, return_ty) => "func("@ + comma_separated(
                tys_text(params),
                params.len(),
            ) + ") -> "@ + return_ty.text(),
            TyKindSyntax::Struct(fields) => "struct {"@ + comma_separated(
                fields_text(fields),
                fields.len(),
            ) + "}"@,
            TyKindSyntax::Paren(inner) => "("@ + inner.text() + ")"@,
        }
    }
}

impl FieldSyntax {
    /// How the field is shown: its name, then its type.
    pub open spec fn text(self) -> Seq<char>
        decreases self,
    {
        self.name + ": "@ + self.ty.text()
    }
}

/// How each of a list of types is shown.
pub open spec fn tys_text(tys: Seq<TySyntax>) -> Seq<Seq<char>>
    decreases tys,
{
    Seq::new(
        tys.len(),
        |i: int|
            if 0 <= i < tys.len() {
                tys[i].text()
            } else {
                Seq::empty()
            },
    )
}

/// How each of a list of fields is shown.
pub open spec fn fields_text(fields: Seq<FieldSyntax>) -> Seq<Seq<char>>
    decreases fields,
{
    Seq::new(
        fields.len(),
        |i: int|
            if 0 <= i < fields.len() {
                fields[i].text()
            } else {
                Seq::empty()
            },
    )
}

impl TyView {
    /// Whether a value of the type takes a size that is known without
    /// looking a name up: an alias does not, and a record does if all its
    /// fields do.
    pub open spec fn known_finite_size(self) -> bool
        decreases self,
    {
        match self {
            TyView::Alias(_) => false,
            TyView::Struct(fields) => forall|i: int|
                0 <= i < fields.len() ==> (#[trigger] fields[i]).1.known_finite_size(),
            _ => true,
        }
    }
}

/// A type in the tree. `C` says whether the tree has been analysed.
#[derive(Debug)]
pub struct Ty<C = Unchecked> {
    pub span: Span,
    pub kind: TyKind<C>,
    pub _checktype: PhantomData<C>,
}

#[derive(Debug)]
pub enum TyKind<C = Unchecked> {
    U8,
    Void,
    Alias(Name),
    Ptr(Box<Ty<C>>),
    Func(Box<FuncTy<C>>),
    Struct(Box<StructTy<C>>),
    /// Parentheses round a type: kept for printing, without meaning.
    Paren(Box<Ty<C>>),
}

/// A named slot: a record field, a parameter or a declared variable.
#[derive(Debug)]
pub struct Field<C = Unchecked> {
    pub span: Span,
    pub name: Name,
    pub ty: Ty<C>,
}

#[derive(Debug)]
pub struct FuncTy<C = Unchecked> {
    pub params: Vec<Ty<C>>,
    pub return_ty: Ty<C>,
}

#[derive(Debug)]
pub struct StructTy<C = Unchecked> {
    pub fields: Vec<Field<C>>,
}

/// The written forms of a list of types, in order.
pub open spec fn tys_syntax<C>(tys: Seq<Ty<C>>) -> Seq<TySyntax>
    decreases tys,
{
    Seq::new(
        tys.len(),
        |i: int|
            if 0 <= i < tys.len() {
                tys[i].syntax()
            } else {
                arbitrary()
            },
    )
}

/// The written forms of a list of fields, in order.
pub open spec fn fields_syntax<C>(fields: Seq<Field<C>>) -> Seq<FieldSyntax>
    decreases fields,
{
    Seq::new(
        fields.len(),
        |i: int|
            if 0 <= i < fields.len() {
                fields[i].syntax()
            } else {
                arbitrary()
            },
    )
}

impl<C> Ty<C> {
    /// The type as it is written.
    pub open spec fn syntax(&self) -> TySyntax
        decreases self,
    {
        TySyntax {
            span: self.span,
            kind: match self.kind {
                TyKind::U8 => TyKindSyntax::U8,
                TyKind::Void => TyKindSyntax::Void,
                TyKind::Alias(name) => TyKindSyntax::Alias(name@),
                TyKind::Ptr(pointee) => TyKindSyntax::Ptr(Box::new(pointee.syntax())),
                TyKind::Func(func) => TyKindSyntax::Func(
                    tys_syntax(func.params@),
                    Box::new(func.return_ty.syntax()),
                ),
                TyKind::Struct(strukt) => TyKindSyntax::Struct(fields_syntax(strukt.fields@)),
                TyKind::Paren(inner) => TyKindSyntax::Paren(Box::new(inner.syntax())),
            },
        }
    }

    /// What the type means.
    pub open spec fn view(&self) -> TyView {
        self.syntax().sem()
    }

    pub fn new(span: Span, kind: TyKind<C>) -> (ty: Ty<C>)
        ensures
            ty.span == span,
            ty.kind == kind,
    {
        Ty { span, kind, _checktype: PhantomData }
    }

    pub fn void(span: Span) -> (ty: Ty<C>)
        ensures
            ty.span == span,
            ty.kind == TyKind::<C>::Void,
    {
        Ty::new(span, TyKind::Void)
    }

    /// The pointer to this type, written at the same place.
    pub open spec fn spec_reference(self) -> Ty<C> {
        Ty { span: self.span, kind: TyKind::Ptr(Box::new(self)), _checktype: PhantomData }
    }

    /// What a pointer points to; parentheses round the pointer do not
    /// count. `None` for what is no pointer.
    pub open spec fn spec_dereference(self) -> Option<Ty<C>>
        decreases self,
    {
        match self.kind {
            TyKind::Ptr(pointee) => Some(*pointee),
            TyKind::Paren(inner) => inner.spec_dereference(),
            _ => None,
        }
    }

    /// Unwraps one level of pointer.
    pub fn dereference(self) -> (pointee: Option<Ty<C>>)
        ensures
            pointee == self.spec_dereference(),
            pointee is Some <==> self@ is Ptr,
            pointee matches Some(ty) ==> self@ == TyView::Ptr(Box::new(ty@)),
        decreases self,
    {
        match self.kind {
            TyKind::Ptr(pointee) => Some(*pointee),
            TyKind::Paren(inner) => (*inner).dereference(),
            _ => None,
        }
    }

    /// Wraps the type in one level of pointer.
    pub fn reference(self) -> (pointer: Ty<C>)
        ensures
            pointer == self.spec_reference(),
            pointer@ == TyView::Ptr(Box::new(self@)),
    {
        Ty::new(self.span, TyKind::Ptr(Box::new(self)))
    }

    /// Whether this is the empty type, in parentheses or not.
    pub fn is_void(&self) -> (void: bool)
        ensures
            void == (self@ is Void),
        decreases self,
    {
        match &self.kind {
            TyKind::Void => true,
            TyKind::Paren(inner) => inner.is_void(),
            _ => false,
        }
    }

    pub fn has_known_finite_size(&self) -> (known: bool)
        ensures
            known == self@.known_finite_size(),
        decreases self,
    {
        match &self.kind {
            TyKind::Void => true,
            TyKind::U8 => true,
            TyKind::Alias(_) => false,
            TyKind::Ptr(_) => true,
            TyKind::Func(_) => true,
            TyKind::Struct(strukt) => {
                let ghost fields = fields_sem(fields_syntax(strukt.fields@));
                let mut i: usize = 0;
                while i < strukt.fields.len()
                    invariant
                        i <= strukt.fields.len(),
                        self.kind == TyKind::Struct(*strukt),
                        fields == fields_sem(fields_syntax(strukt.fields@)),
                        forall|j: int| 0 <= j < i ==> (#[trigger] fields[j]).1.known_finite_size(),
                    decreases strukt.fields.len() - i,
                {
                    if !strukt.fields[i].ty.has_known_finite_size() {
                        assert(!self@.known_finite_size()) by {
                            let view = TyView::Struct(fields);
                            assert(self@ == view);
                            assert(view matches TyView::Struct(fs) && fs == fields);
                            if view.known_finite_size() {
                                assert(forall|j: int|
                                    0 <= j < fields.len() ==> (
                                    #[trigger] fields[j]).1.known_finite_size());
                                assert(fields[i as int].1.known_finite_size());
                            }
                        }
                        return false;
                    }
                    i += 1;
                }
                assert(self@ == TyView::Struct(fields));
                true
            },
            TyKind::Paren(inner) => inner.has_known_finite_size(),
        }
    }

    /// The signature, if this is a function type, in parentheses or not.
    pub fn as_func(&self) -> (func: Option<&FuncTy<C>>)
        ensures
            match func {
                Some(func) => self@ == TyView::Func(
                    tys_sem(tys_syntax(func.params@)),
                    Box::new(func.return_ty@),
                ),
                None => !(self@ is Func),
            },
        decreases self,
    {
        match &self.kind {
            TyKind::Func(func) => Some(&**func),
            TyKind::Paren(inner) => inner.as_func(),
            _ => None,
        }
    }

    /// Structural equality: spans and parentheses do not count, and an
    /// alias equals only the alias of the same name.
    fn same(&self, other: &Ty<C>) -> (equal: bool)
        ensures
            equal == (self@ == other@),
        decreases self, other,
    {
        if let TyKind::Paren(inner) = &self.kind {
            return inner.same(other);
        }
        if let TyKind::Paren(inner) = &other.kind {
            return self.same(inner);
        }
        match &self.kind {
            TyKind::U8 => matches!(&other.kind, TyKind::U8),
            TyKind::Void => matches!(&other.kind, TyKind::Void),
            TyKind::Alias(name) => match &other.kind {
                TyKind::Alias(other_name) => *name == *other_name,
                _ => false,
            },
            TyKind::Ptr(pointee) => match &other.kind {
                TyKind::Ptr(other_pointee) => pointee.same(other_pointee),
                _ => false,
            },
            TyKind::Func(func) => match &other.kind {
                TyKind::Func(other_func) => {
                    let params = same_tys(&func.params, &other_func.params);
                    let equal = params && func.return_ty.same(&other_func.return_ty);
                    proof {
                        let a = tys_sem(tys_syntax(func.params@));
                        let b = tys_sem(tys_syntax(other_func.params@));
                        assert(self@ == TyView::Func(a, Box::new(func.return_ty@)));
                        assert(other@ == TyView::Func(b, Box::new(other_func.return_ty@)));
                    }
                    equal
                },
                _ => false,
            },
            TyKind::Struct(strukt) => match &other.kind {
                TyKind::Struct(other_strukt) => {
                    let equal = same_fields(&strukt.fields, &other_strukt.fields);
                    proof {
                        let a = fields_sem(fields_syntax(strukt.fields@));
                        let b = fields_sem(fields_syntax(other_strukt.fields@));
                        assert(self@ == TyView::Struct(a));
                        assert(other@ == TyView::Struct(b));
                    }
                    equal
                },
                _ => false,
            },
            TyKind::Paren(_) => false,
        }
    }

    /// The type as text, for messages.
    pub fn to_text(&self) -> (text: String)
        ensures
            text@ == self.syntax().text(),
        decreases self,
    {
        match &self.kind {
            TyKind::U8 => "u8".to_owned(),
            TyKind::Void => "void".to_owned(),
            TyKind::Alias(name) => name.clone(),
            TyKind::Ptr(pointee) => {
                let mut text = pointee.to_text();
                text.append("*");
                text
            },
            TyKind::Func(func) => {
                let params = tys_to_text(&func.params);
                let mut text = "func(".to_owned();
                write_comma_seperated(&mut text, &params);
                text.append(") -> ");
                text.append(func.return_ty.to_text().as_str());
                text
            },
            TyKind::Struct(strukt) => {
                let fields = fields_to_text(&strukt.fields);
                let mut text = "struct {".to_owned();
                write_comma_seperated(&mut text, &fields);
                text.append("}");
                text
            },
            TyKind::Paren(inner) => {
                let mut text = "(".to_owned();
                text.append(inner.to_text().as_str());
                text.append(")");
                text
            },
        }
    }

    /// A copy that is written the same way.
    fn duplicate(&self) -> (copy: Ty<C>)
        ensures
            copy.syntax() == self.syntax(),
        decreases self,
    {
        let kind = match &self.kind {
            TyKind::U8 => TyKind::U8,
            TyKind::Void => TyKind::Void,
            TyKind::Alias(name) => TyKind::Alias(name.clone()),
            TyKind::Ptr(pointee) => TyKind::Ptr(Box::new(pointee.duplicate())),
            TyKind::Func(func) => TyKind::Func(
                Box::new(
                    FuncTy {
                        params: duplicate_tys(&func.params),
                        return_ty: func.return_ty.duplicate(),
                    },
                ),
            ),
            TyKind::Struct(strukt) => TyKind::Struct(
                Box::new(StructTy { fields: duplicate_fields(&strukt.fields) }),
            ),
            TyKind::Paren(inner) => TyKind::Paren(Box::new(inner.duplicate())),
        };
        Ty { span: self.span, kind, _checktype: PhantomData }
    }
}

/// The text of each of a list of types.
fn tys_to_text<C>(tys: &Vec<Ty<C>>) -> (shown: Vec<String>)
    ensures
        shown.len() == tys.len(),
        texts(shown@) == tys_text(tys_syntax(tys@)),
    decreases tys,
{
    let mut shown: Vec<String> = Vec::new();
    let mut i: usize = 0;
    while i < tys.len()
        invariant
            i <= tys.len(),
            shown.len() == i,
            forall|j: int| 0 <= j < i ==> (#[trigger] shown[j])@ == tys[j].syntax().text(),
        decreases tys.len() - i,
    {
        shown.push(tys[i].to_text());
        i += 1;
    }
    assert(texts(shown@) =~= tys_text(tys_syntax(tys@)));
    shown
}

/// The text of each of a list of fields.
fn fields_to_text<C>(fields: &Vec<Field<C>>) -> (shown: Vec<String>)
    ensures
        shown.len() == fields.len(),
        texts(shown@) == fields_text(fields_syntax(fields@)),
    decreases fields,
{
    let mut shown: Vec<String> = Vec::new();
    let mut i: usize = 0;
    while i < fields.len()
        invariant
            i <= fields.len(),
            shown.len() == i,
            forall|j: int| 0 <= j < i ==> (#[trigger] shown[j])@ == fields[j].syntax().text(),
        decreases fields.len() - i,
    {
        shown.push(fields[i].to_text());
        i += 1;
    }
    assert(texts(shown@) =~= fields_text(fields_syntax(fields@)));
    shown
}

/// Whether two lists of types are equal, type by type.
fn same_tys<C>(left: &Vec<Ty<C>>, right: &Vec<Ty<C>>) -> (equal: bool)
    ensures
        equal == (tys_sem(tys_syntax(left@)) == tys_sem(tys_syntax(right@))),
    decreases left,
{
    let ghost a = tys_sem(tys_syntax(left@));
    let ghost b = tys_sem(tys_syntax(right@));
    if left.len() != right.len() {
        assert(a.len() != b.len());
        return false;
    }
    let mut i: usize = 0;
    while i < left.len()
        invariant
            i <= left.len(),
            left.len() == right.len(),
            a == tys_sem(tys_syntax(left@)),
            b == tys_sem(tys_syntax(right@)),
            forall|j: int| 0 <= j < i ==> a[j] == b[j],
        decreases left.len() - i,
    {
        if !left[i].same(&right[i]) {
            assert(a[i as int] != b[i as int]);
            return false;
        }
        i += 1;
    }
    assert(a =~= b);
    true
}

/// Whether two lists of fields are equal, field by field: names and types.
fn same_fields<C>(left: &Vec<Field<C>>, right: &Vec<Field<C>>) -> (equal: bool)
    ensures
        equal == (fields_sem(fields_syntax(left@)) == fields_sem(fields_syntax(right@))),
    decreases left,
{
    let ghost a = fields_sem(fields_syntax(left@));
    let ghost b = fields_sem(fields_syntax(right@));
    if left.len() != right.len() {
        assert(a.len() != b.len());
        return false;
    }
    let mut i: usize = 0;
    while i < left.len()
        invariant
            i <= left.len(),
            left.len() == right.len(),
            a == fields_sem(fields_syntax(left@)),
            b == fields_sem(fields_syntax(right@)),
            forall|j: int| 0 <= j < i ==> a[j] == b[j],
        decreases left.len() - i,
    {
        if !left[i].same(&right[i]) {
            assert(a[i as int] != b[i as int]);
            return false;
        }
        i += 1;
    }
    assert(a =~= b);
    true
}

fn duplicate_tys<C>(tys: &Vec<Ty<C>>) -> (copy: Vec<Ty<C>>)
    ensures
        tys_syntax(copy@) == tys_syntax(tys@),
    decreases tys,
{
    let mut copy: Vec<Ty<C>> = Vec::new();
    let mut i: usize = 0;
    while i < tys.len()
        invariant
            i <= tys.len(),
            copy.len() == i,
            forall|j: int| 0 <= j < i ==> (#[trigger] copy[j]).syntax() == tys[j].syntax(),
        decreases tys.len() - i,
    {
        copy.push(tys[i].duplicate());
        i += 1;
    }
    assert(tys_syntax(copy@) =~= tys_syntax(tys@));
    copy
}

fn duplicate_fields<C>(fields: &Vec<Field<C>>) -> (copy: Vec<Field<C>>)
    ensures
        fields_syntax(copy@) == fields_syntax(fields@),
    decreases fields,
{
    let mut copy: Vec<Field<C>> = Vec::new();
    let mut i: usize = 0;
    while i < fields.len()
        invariant
            i <= fields.len(),
            copy.len() == i,
            forall|j: int| 0 <= j < i ==> (#[trigger] copy[j]).syntax() == fields[j].syntax(),
        decreases fields.len() - i,
    {
        copy.push(fields[i].duplicate());
        i += 1;
    }
    assert(fields_syntax(copy@) =~= fields_syntax(fields@));
    copy
}

impl<C> Field<C> {
    /// The field as it is written.
    pub open spec fn syntax(&self) -> FieldSyntax
        decreases self,
    {
        FieldSyntax { span: self.span, name: self.name@, ty: self.ty.syntax() }
    }

    pub fn new(span: Span, name: Name, ty: Ty<C>) -> (field: Field<C>)
        ensures
            field.span == span,
            field.name == name,
            field.ty == ty,
    {
        Field { span, name, ty }
    }

    /// The field as text, for messages.
    pub fn to_text(&self) -> (text: String)
        ensures
            text@ == self.syntax().text(),
        decreases self,
    {
        let mut text = self.name.clone();
        text.append(": ");
        text.append(self.ty.to_text().as_str());
        text
    }

    /// Two fields are equal when they have the same name and equal types.
    fn same(&self, other: &Field<C>) -> (equal: bool)
        ensures
            equal == (self.name@ == other.name@ && self.ty@ == other.ty@),
        decreases self,
    {
        self.name == other.name && self.ty.same(&other.ty)
    }

    /// A copy that is written the same way.
    fn duplicate(&self) -> (copy: Field<C>)
        ensures
            copy.syntax() == self.syntax(),
        decreases self,
    {
        Field { span: self.span, name: self.name.clone(), ty: self.ty.duplicate() }
    }
}

impl<C> FuncTy<C> {
    pub fn new(params: Vec<Ty<C>>, return_ty: Ty<C>) -> (func: FuncTy<C>)
        ensures
            func.params == params,
            func.return_ty == return_ty,
    {
        FuncTy { params, return_ty }
    }
}

impl<C> StructTy<C> {
    pub fn new(fields: Vec<Field<C>>) -> (strukt: StructTy<C>)
        ensures
            strukt.fields == fields,
    {
        StructTy { fields }
    }
}

impl<C> PartialEq for Ty<C> {
    fn eq(&self, other: &Self) -> (equal: bool) {
        self.same(other)
    }
}

impl<C> vstd::std_specs::cmp::PartialEqSpecImpl for Ty<C> {
    open spec fn obeys_eq_spec() -> bool {
        true
    }

    open spec fn eq_spec(&self, other: &Self) -> bool {
        self@ == other@
    }
}

impl<C> Clone for Ty<C> {
    fn clone(&self) -> (copy: Self)
        ensures
            copy.syntax() == self.syntax(),
    {
        self.duplicate()
    }
}

impl<C> PartialEq for Field<C> {
    fn eq(&self, other: &Self) -> (equal: bool) {
        self.same(other)
    }
}

impl<C> vstd::std_specs::cmp::PartialEqSpecImpl for Field<C> {
    open spec fn obeys_eq_spec() -> bool {
        true
    }

    open spec fn eq_spec(&self, other: &Self) -> bool {
        self.name@ == other.name@ && self.ty@ == other.ty@
    }
}

impl<C> Clone for Field<C> {
    fn clone(&self) -> (copy: Self)
        ensures
            copy.syntax() == self.syntax(),
    {
        self.duplicate()
    }
}

} // verus!
