use vstd::prelude::*;
use crate::diag::TargetKind;

verus! {

/// A field's declared type, as the source writes it: the type's text, and,
/// when the type is a reference that names an explicit lifetime, that
/// lifetime (the borrow marker).
pub struct FieldTy {
    pub text: String,
    pub borrow_lifetime: Option<String>,
}

/// Mathematical image of a `FieldTy`.
pub struct FieldTyView {
    pub text: Seq<char>,
    pub borrow_lifetime: Option<Seq<char>>,
}

impl View for FieldTy {
    type V = FieldTyView;

    open spec fn view(&self) -> FieldTyView {
        FieldTyView { text: self.text@, borrow_lifetime: self.borrow_lifetime.deep_view() }
    }
}

impl DeepView for FieldTy {
    type V = FieldTyView;

    open spec fn deep_view(&self) -> FieldTyView {
        self@
    }
}

/// The shape of one annotation's value, as far as the parser distinguishes
/// shapes: a `key = <literal>` annotation with an integer, boolean or other
/// literal; a `key = <expr>` annotation whose value is no literal; or an
/// annotation that is not `key = value` shaped at all.
pub enum AttrValue {
    IntLit(String),
    BoolLit(bool),
    OtherLit,
    NonLitExpr,
    NotNameValue,
}

/// Mathematical image of an `AttrValue`.
pub enum AttrValueView {
    IntLit(Seq<char>),
    BoolLit(bool),
    OtherLit,
    NonLitExpr,
    NotNameValue,
}

impl View for AttrValue {
    type V = AttrValueView;

    open spec fn view(&self) -> AttrValueView {
        match self {
            AttrValue::IntLit(digits) => AttrValueView::IntLit(digits@),
            AttrValue::BoolLit(b) => AttrValueView::BoolLit(*b),
            AttrValue::OtherLit => AttrValueView::OtherLit,
            AttrValue::NonLitExpr => AttrValueView::NonLitExpr,
            AttrValue::NotNameValue => AttrValueView::NotNameValue,
        }
    }
}

impl DeepView for AttrValue {
    type V = AttrValueView;

    open spec fn deep_view(&self) -> AttrValueView {
        self@
    }
}

/// One annotation attached to the target type: its key and the shape of its
/// value.
pub struct AttrInput {
    pub key: String,
    pub value: AttrValue,
}

/// Mathematical image of an `AttrInput`.
pub struct AttrInputView {
    pub key: Seq<char>,
    pub value: AttrValueView,
}

impl View for AttrInput {
    type V = AttrInputView;

    open spec fn view(&self) -> AttrInputView {
        AttrInputView { key: self.key@, value: self.value@ }
    }
}

impl DeepView for AttrInput {
    type V = AttrInputView;

    open spec fn deep_view(&self) -> AttrInputView {
        self@
    }
}

/// Everything the pipeline reads of an annotated type definition: its kind,
/// its name, its declared generic lifetime parameters, its annotations and
/// its fields, in declaration order.
pub struct TypeDef {
    pub kind: TargetKind,
    pub name: String,
    pub lifetimes: Vec<String>,
    pub attrs: Vec<AttrInput>,
    pub fields: Vec<FieldTy>,
}

/// Mathematical image of a `TypeDef`.
pub struct TypeDefView {
    pub kind: TargetKind,
    pub name: Seq<char>,
    pub lifetimes: Seq<Seq<char>>,
    pub attrs: Seq<AttrInputView>,
    pub fields: Seq<FieldTyView>,
}

impl View for TypeDef {
    type V = TypeDefView;

    open spec fn view(&self) -> TypeDefView {
        TypeDefView {
            kind: self.kind,
            name: self.name@,
            lifetimes: self.lifetimes.deep_view(),
            attrs: self.attrs.deep_view(),
            fields: self.fields.deep_view(),
        }
    }
}

} // verus!
