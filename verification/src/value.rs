//! The instance model: what the diff engine reads of a value.
//!
//! Leaf values are opaque to the engine: each [`Leaf`] carries an equality
//! token (two leaves are equal exactly when their tokens are equal, standing
//! for the external per-type equality predicate) and its human-readable
//! rendering (standing for the external describe capability).  A [`Value`]
//! is one instance of a shaped type: the index of its variant (`0` for a
//! record), its leaves in declaration order, and the rendering of the whole
//! value, used for cross-variant mismatches and for assertion reports.

use vstd::prelude::*;

use crate::shape::ShapeView;
use crate::shape::VariantKindView;

verus! {

/// Spec-level leaf: equality token and rendering.
pub struct LeafView {
    pub token: u64,
    pub rendered: Seq<char>,
}

/// Spec-level instance: variant index, leaves, whole-value rendering.
pub struct ValueView {
    pub variant: int,
    pub leaves: Seq<LeafView>,
    pub rendered: Seq<char>,
}

/// One opaque leaf value.  `token` stands for the value's identity under the
/// external equality predicate: two leaves compare equal exactly when their
/// tokens are equal.  `rendered` is the external describe capability's
/// output for the value.
#[derive(Debug, Clone)]
pub struct Leaf {
    pub token: u64,
    pub rendered: String,
}

/// One instance of a shaped type.  For a record, `variant` is `0`; for a
/// tagged union it is the index of the variant the instance holds.  `leaves`
/// are the instance's leaf values in declaration order (empty for a unit
/// variant), and `rendered` is the describe capability's output for the
/// whole value.
#[derive(Debug, Clone)]
pub struct Value {
    pub variant: usize,
    pub leaves: Vec<Leaf>,
    pub rendered: String,
}

impl View for Leaf {
    type V = LeafView;

    open spec fn view(&self) -> LeafView {
        LeafView { token: self.token, rendered: self.rendered@ }
    }
}

/// The views of a sequence of leaves, in order.
pub open spec fn leaves_view(leaves: Seq<Leaf>) -> Seq<LeafView> {
    leaves.map_values(|l: Leaf| l@)
}

impl View for Value {
    type V = ValueView;

    open spec fn view(&self) -> ValueView {
        ValueView {
            variant: self.variant as int,
            leaves: leaves_view(self.leaves@),
            rendered: self.rendered@,
        }
    }
}

/// The number of leaves a variant payload carries.
pub open spec fn kind_arity(kind: VariantKindView) -> nat {
    match kind {
        VariantKindView::Unit => 0,
        VariantKindView::Tuple { arity } => arity,
        VariantKindView::Struct { fields } => fields.len(),
    }
}

/// A value matches a shape when its variant index and its number of leaves
/// agree with what the shape declares.  The engine assumes this of both of
/// its inputs: a shape and a value that have drifted apart are outside the
/// designed contract.
pub open spec fn shape_value_wf(s: ShapeView, v: ValueView) -> bool {
    match s {
        ShapeView::Record { fields } => v.variant == 0 && v.leaves.len() == fields.len(),
        ShapeView::Enum { variants, .. } => {
            &&& 0 <= v.variant < variants.len()
            &&& v.leaves.len() == kind_arity(variants[v.variant].kind)
        },
    }
}

} // verus!
