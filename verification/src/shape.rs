//! The shape model: a static, immutable description of a composite type.
//!
//! A [`Shape`] is either a plain record with named fields or a tagged union
//! whose variants carry no payload, positional leaves, or named leaves.
//! Shapes are built once per type and only read afterwards; the diff engine
//! walks a shape to drive the comparison of two instances.

use vstd::prelude::*;

verus! {

/// Spec-level payload description of one variant.
pub enum VariantKindView {
    Unit,
    Tuple { arity: nat },
    Struct { fields: Seq<Seq<char>> },
}

/// Spec-level description of one variant: its name and its payload.
pub struct VariantView {
    pub name: Seq<char>,
    pub kind: VariantKindView,
}

/// Spec-level description of a composite type.
pub enum ShapeView {
    Record { fields: Seq<Seq<char>> },
    Enum { name: Seq<char>, variants: Seq<VariantView> },
}

/// Describes one named leaf field of a record or of a named-field variant.
#[derive(Debug, Clone)]
pub struct FieldDescriptor {
    pub name: String,
}

/// The payload of one variant of a tagged union: no fields, `arity`
/// positional leaves, or named leaf fields.
#[derive(Debug, Clone)]
pub enum VariantKind {
    Unit,
    Tuple { arity: usize },
    Struct { fields: Vec<FieldDescriptor> },
}

/// One variant of a tagged union.
#[derive(Debug, Clone)]
pub struct VariantDescriptor {
    pub name: String,
    pub kind: VariantKind,
}

/// The static structure of a composite type: a plain record, or a tagged
/// union (`Enum`) with its type name and its variants in declaration order.
#[derive(Debug, Clone)]
pub enum Shape {
    Record { fields: Vec<FieldDescriptor> },
    Enum { name: String, variants: Vec<VariantDescriptor> },
}

/// The names of a sequence of field descriptors, in declaration order.
pub open spec fn field_names(fields: Seq<FieldDescriptor>) -> Seq<Seq<char>> {
    fields.map_values(|f: FieldDescriptor| f.name@)
}

impl View for FieldDescriptor {
    type V = Seq<char>;

    open spec fn view(&self) -> Seq<char> {
        self.name@
    }
}

impl View for VariantKind {
    type V = VariantKindView;

    open spec fn view(&self) -> VariantKindView {
        match self {
            VariantKind::Unit => VariantKindView::Unit,
            VariantKind::Tuple { arity } => VariantKindView::Tuple { arity: *arity as nat },
            VariantKind::Struct { fields } => VariantKindView::Struct {
                fields: field_names(fields@),
            },
        }
    }
}

impl View for VariantDescriptor {
    type V = VariantView;

    open spec fn view(&self) -> VariantView {
        VariantView { name: self.name@, kind: self.kind@ }
    }
}

impl View for Shape {
    type V = ShapeView;

    open spec fn view(&self) -> ShapeView {
        match self {
            Shape::Record { fields } => ShapeView::Record { fields: field_names(fields@) },
            Shape::Enum { name, variants } => ShapeView::Enum {
                name: name@,
                variants: variants@.map_values(|v: VariantDescriptor| v@),
            },
        }
    }
}

/// Pairwise distinctness of a sequence of names.
pub open spec fn distinct_names(names: Seq<Seq<char>>) -> bool {
    forall|i: int, j: int| 0 <= i < j < names.len() ==> names[i] != names[j]
}

/// A variant is well formed when its named fields, if any, are distinct.
pub open spec fn variant_wf(v: VariantView) -> bool {
    match v.kind {
        VariantKindView::Struct { fields } => distinct_names(fields),
        _ => true,
    }
}

/// Shape invariant: field names within one record or one named-field variant
/// are distinct, and variant names within one tagged union are distinct.
pub open spec fn shape_wf(s: ShapeView) -> bool {
    match s {
        ShapeView::Record { fields } => distinct_names(fields),
        ShapeView::Enum { variants, .. } => {
            &&& distinct_names(variants.map_values(|v: VariantView| v.name))
            &&& forall|i: int| 0 <= i < variants.len() ==> variant_wf(#[trigger] variants[i])
        },
    }
}

} // verus!
