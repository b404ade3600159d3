//! The description of a record declaration that the generator reads and writes.

use crate::text::copy_text;
use vstd::prelude::*;

verus! {

/// The outline of a type expression, as far as classification looks at it.
#[derive(Debug, PartialEq, Eq)]
pub enum TypeShape {
    /// A path; it holds the identifiers of the path's segments, in order.
    Path(Vec<String>),
    Array,
    Tuple,
    /// A type in parentheses.
    Paren(Box<TypeShape>),
    ImplTrait,
    TraitObject,
    Infer,
    Macro,
    Reference,
    Never,
    Slice,
    Pointer,
    BareFn,
    /// Tokens that were not interpreted as a type.
    Verbatim,
}

/// The model of a type outline: texts as sequences of characters, lists as
/// sequences.
pub enum TypeShapeModel {
    Path(Seq<Seq<char>>),
    Array,
    Tuple,
    Paren(Box<TypeShapeModel>),
    ImplTrait,
    TraitObject,
    Infer,
    Macro,
    Reference,
    Never,
    Slice,
    Pointer,
    BareFn,
    Verbatim,
}

/// The model of a type outline: each text by its characters.
pub open spec fn shape_model(shape: TypeShape) -> TypeShapeModel
    decreases shape,
{
    match shape {
        TypeShape::Path(segments) => TypeShapeModel::Path(segments.deep_view()),
        TypeShape::Array => TypeShapeModel::Array,
        TypeShape::Tuple => TypeShapeModel::Tuple,
        TypeShape::Paren(inner) => TypeShapeModel::Paren(Box::new(shape_model(*inner))),
        TypeShape::ImplTrait => TypeShapeModel::ImplTrait,
        TypeShape::TraitObject => TypeShapeModel::TraitObject,
        TypeShape::Infer => TypeShapeModel::Infer,
        TypeShape::Macro => TypeShapeModel::Macro,
        TypeShape::Reference => TypeShapeModel::Reference,
        TypeShape::Never => TypeShapeModel::Never,
        TypeShape::Slice => TypeShapeModel::Slice,
        TypeShape::Pointer => TypeShapeModel::Pointer,
        TypeShape::BareFn => TypeShapeModel::BareFn,
        TypeShape::Verbatim => TypeShapeModel::Verbatim,
    }
}

impl Clone for TypeShape {
    fn clone(&self) -> (copy: TypeShape)
        ensures
            copy@ == self@,
        decreases self,
    {
        match self {
            TypeShape::Path(segments) => TypeShape::Path(copy_texts(segments)),
            TypeShape::Array => TypeShape::Array,
            TypeShape::Tuple => TypeShape::Tuple,
            TypeShape::Paren(inner) => TypeShape::Paren(Box::new((**inner).clone())),
            TypeShape::ImplTrait => TypeShape::ImplTrait,
            TypeShape::TraitObject => TypeShape::TraitObject,
            TypeShape::Infer => TypeShape::Infer,
            TypeShape::Macro => TypeShape::Macro,
            TypeShape::Reference => TypeShape::Reference,
            TypeShape::Never => TypeShape::Never,
            TypeShape::Slice => TypeShape::Slice,
            TypeShape::Pointer => TypeShape::Pointer,
            TypeShape::BareFn => TypeShape::BareFn,
            TypeShape::Verbatim => TypeShape::Verbatim,
        }
    }
}

impl View for TypeShape {
    type V = TypeShapeModel;

    open spec fn view(&self) -> TypeShapeModel {
        shape_model(*self)
    }
}

/// A declared type: its source text and its outline.
#[derive(Debug, PartialEq, Eq)]
pub struct FieldType {
    pub text: String,
    pub shape: TypeShape,
}

/// The model of a declared type: texts as sequences of characters, lists as
/// sequences.
pub struct FieldTypeModel {
    pub text: Seq<char>,
    pub shape: TypeShapeModel,
}

impl View for FieldType {
    type V = FieldTypeModel;

    open spec fn view(&self) -> FieldTypeModel {
        FieldTypeModel { text: self.text@, shape: self.shape@ }
    }
}

/// One annotation of a field.
#[derive(Debug, PartialEq, Eq)]
pub struct Annotation {
    /// The annotation's path where that is a single identifier, else empty.
    pub name: String,
    /// The arguments of the parenthesised list as they were written, one
    /// text for each argument between the commas; empty where the annotation
    /// has no such list.
    pub arguments: Vec<String>,
    /// The annotation as it was written.
    pub text: String,
}

/// The model of an annotation: texts as sequences of characters, lists as
/// sequences.
pub struct AnnotationModel {
    pub name: Seq<char>,
    pub arguments: Seq<Seq<char>>,
    pub text: Seq<char>,
}

impl View for Annotation {
    type V = AnnotationModel;

    open spec fn view(&self) -> AnnotationModel {
        AnnotationModel {
            name: self.name@,
            arguments: self.arguments.deep_view(),
            text: self.text@,
        }
    }
}

impl DeepView for Annotation {
    type V = AnnotationModel;

    open spec fn deep_view(&self) -> AnnotationModel {
        self.view()
    }
}

/// Who may see a field.
#[derive(Debug, PartialEq, Eq)]
pub enum Visibility {
    Public,
    /// A restricted form such as `pub(crate)`, as it was written.
    Restricted(String),
    Inherited,
}

/// The model of a visibility: texts as sequences of characters, lists as
/// sequences.
pub enum VisibilityModel {
    Public,
    Restricted(Seq<char>),
    Inherited,
}

impl View for Visibility {
    type V = VisibilityModel;

    open spec fn view(&self) -> VisibilityModel {
        match self {
            Visibility::Public => VisibilityModel::Public,
            Visibility::Restricted(text) => VisibilityModel::Restricted(text@),
            Visibility::Inherited => VisibilityModel::Inherited,
        }
    }
}

/// One field of a record.
#[derive(Debug, PartialEq, Eq)]
pub struct Field {
    pub annotations: Vec<Annotation>,
    pub visibility: Visibility,
    /// The field's identifier; `None` for a positional field.
    pub name: Option<String>,
    pub ty: FieldType,
}

/// The model of a field: texts as sequences of characters, lists as
/// sequences.
pub struct FieldModel {
    pub annotations: Seq<AnnotationModel>,
    pub visibility: VisibilityModel,
    pub name: Option<Seq<char>>,
    pub ty: FieldTypeModel,
}

impl View for Field {
    type V = FieldModel;

    open spec fn view(&self) -> FieldModel {
        FieldModel {
            annotations: self.annotations.deep_view(),
            visibility: self.visibility@,
            name: self.name.deep_view(),
            ty: self.ty@,
        }
    }
}

impl DeepView for Field {
    type V = FieldModel;

    open spec fn deep_view(&self) -> FieldModel {
        self.view()
    }
}

/// What kind of item a declaration is.
#[derive(Debug, Clone, Copy, PartialEq, Eq, Structural)]
pub enum ItemKind {
    /// A struct with named fields, possibly none.
    NamedStruct,
    /// A struct with positional fields.
    TupleStruct,
    /// A struct declared without a field list.
    UnitStruct,
    Enum,
    Union,
}

/// A record declaration.
#[derive(Debug, PartialEq, Eq)]
pub struct RecordDescription {
    pub name: String,
    pub kind: ItemKind,
    /// The traits that the declaration's own annotations already derive.
    pub derived: Vec<String>,
    /// The generic parameters as an `impl` header lists them.
    pub impl_generics: String,
    /// The generic arguments as a use of the type lists them.
    pub type_generics: String,
    pub fields: Vec<Field>,
}

/// The model of a record declaration: texts as sequences of characters, lists as
/// sequences.
pub struct RecordModel {
    pub name: Seq<char>,
    pub kind: ItemKind,
    pub derived: Seq<Seq<char>>,
    pub impl_generics: Seq<char>,
    pub type_generics: Seq<char>,
    pub fields: Seq<FieldModel>,
}

impl View for RecordDescription {
    type V = RecordModel;

    open spec fn view(&self) -> RecordModel {
        RecordModel {
            name: self.name@,
            kind: self.kind,
            derived: self.derived.deep_view(),
            impl_generics: self.impl_generics@,
            type_generics: self.type_generics@,
            fields: self.fields.deep_view(),
        }
    }
}

/// A copy of a list of texts.
pub fn copy_texts(texts: &Vec<String>) -> (copy: Vec<String>)
    ensures
        copy.deep_view() == texts.deep_view(),
{
    let mut copy: Vec<String> = Vec::new();
    let mut i: usize = 0;
    while i < texts.len()
        invariant
            i <= texts.len(),
            copy.len() == i,
            forall|j: int| 0 <= j < i ==> copy[j]@ == texts[j]@,
        decreases texts.len() - i,
    {
        copy.push(copy_text(&texts[i]));
        i += 1;
    }
    copy
}

impl Clone for Annotation {
    fn clone(&self) -> (copy: Annotation)
        ensures
            copy@ == self@,
    {
        Annotation {
            name: copy_text(&self.name),
            arguments: copy_texts(&self.arguments),
            text: copy_text(&self.text),
        }
    }
}

impl Clone for FieldType {
    fn clone(&self) -> (copy: FieldType)
        ensures
            copy@ == self@,
    {
        FieldType { text: copy_text(&self.text), shape: self.shape.clone() }
    }
}

impl Clone for Visibility {
    fn clone(&self) -> (copy: Visibility)
        ensures
            copy@ == self@,
    {
        match self {
            Visibility::Public => Visibility::Public,
            Visibility::Restricted(text) => Visibility::Restricted(copy_text(text)),
            Visibility::Inherited => Visibility::Inherited,
        }
    }
}

/// A copy of a list of annotations.
pub fn copy_annotations(annotations: &Vec<Annotation>) -> (copy: Vec<Annotation>)
    ensures
        copy.deep_view() == annotations.deep_view(),
{
    let mut copy: Vec<Annotation> = Vec::new();
    let mut i: usize = 0;
    while i < annotations.len()
        invariant
            i <= annotations.len(),
            copy.len() == i,
            forall|j: int| 0 <= j < i ==> copy[j]@ == annotations[j]@,
        decreases annotations.len() - i,
    {
        copy.push(annotations[i].clone());
        i += 1;
    }
    copy
}

/// A copy of a text that may be missing.
pub fn copy_optional_text(text: &Option<String>) -> (copy: Option<String>)
    ensures
        copy.deep_view() == text.deep_view(),
{
    match text {
        Some(text) => Some(copy_text(text)),
        None => None,
    }
}

impl Clone for Field {
    fn clone(&self) -> (copy: Field)
        ensures
            copy@ == self@,
    {
        Field {
            annotations: copy_annotations(&self.annotations),
            visibility: self.visibility.clone(),
            name: copy_optional_text(&self.name),
            ty: self.ty.clone(),
        }
    }
}

/// A copy of a list of fields.
pub fn copy_fields(fields: &Vec<Field>) -> (copy: Vec<Field>)
    ensures
        copy.deep_view() == fields.deep_view(),
{
    let mut copy: Vec<Field> = Vec::new();
    let mut i: usize = 0;
    while i < fields.len()
        invariant
            i <= fields.len(),
            copy.len() == i,
            forall|j: int| 0 <= j < i ==> copy[j]@ == fields[j]@,
        decreases fields.len() - i,
    {
        copy.push(fields[i].clone());
        i += 1;
    }
    copy
}

impl Clone for RecordDescription {
    fn clone(&self) -> (copy: RecordDescription)
        ensures
            copy@ == self@,
    {
        RecordDescription {
            name: copy_text(&self.name),
            kind: self.kind,
            derived: copy_texts(&self.derived),
            impl_generics: copy_text(&self.impl_generics),
            type_generics: copy_text(&self.type_generics),
            fields: copy_fields(&self.fields),
        }
    }
}

} // verus!
