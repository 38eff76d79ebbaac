//! The diff engine.
//!
//! [`Shape::fields_not_equal`] walks two instances of one shape and returns
//! every leaf mismatch, in declaration order, with no short-circuiting.
//! When a multivariant union's two instances hold different variants there
//! is no field-to-field correspondence, so exactly one whole-variant
//! mismatch is reported instead; a single-variant union can never reach
//! that case.  The spec function [`mismatches`] says exactly which records
//! come back, and in which order.

use vstd::prelude::*;

use crate::names::tuple_slot_name;
use crate::names::tuple_slot_name_of;
use crate::names::variant_label;
use crate::names::variant_label_of;
use crate::shape::field_names;
use crate::shape::FieldDescriptor;
use crate::shape::Shape;
use crate::shape::ShapeView;
use crate::shape::VariantDescriptor;
use crate::shape::VariantKind;
use crate::shape::VariantKindView;
use crate::shape::VariantView;
use crate::value::kind_arity;
use crate::value::leaves_view;
use crate::value::shape_value_wf;
use crate::value::Leaf;
use crate::value::LeafView;
use crate::value::Value;
use crate::value::ValueView;

verus! {

/// Spec-level mismatch record.
pub struct UnequalFieldView {
    pub field_name: Seq<char>,
    pub actually: Seq<char>,
    pub expected: Seq<char>,
}

/// One reported mismatch: the qualified path of the leaf (or variant) that
/// differs, the rendering of the actual value, and the rendering of the
/// expected value.
#[derive(Debug, Clone)]
pub struct UnequalField {
    pub field_name: String,
    pub actually: String,
    pub expected: String,
}

impl View for UnequalField {
    type V = UnequalFieldView;

    open spec fn view(&self) -> UnequalFieldView {
        UnequalFieldView {
            field_name: self.field_name@,
            actually: self.actually@,
            expected: self.expected@,
        }
    }
}

/// The views of a sequence of mismatch records, in order.
pub open spec fn ufs_view(list: Seq<UnequalField>) -> Seq<UnequalFieldView> {
    list.map_values(|u: UnequalField| u@)
}

/// The mismatch record for one differing leaf under the path `name`.
pub open spec fn leaf_mismatch(name: Seq<char>, a: LeafView, b: LeafView) -> UnequalFieldView {
    UnequalFieldView { field_name: name, actually: a.rendered, expected: b.rendered }
}

/// The mismatches among the first `n` named leaves: one record per position
/// whose tokens differ, under the bare field name, in declaration order.
pub open spec fn record_mismatches_upto(
    fields: Seq<Seq<char>>,
    a: Seq<LeafView>,
    b: Seq<LeafView>,
    n: int,
) -> Seq<UnequalFieldView>
    decreases n,
{
    if n <= 0 {
        Seq::empty()
    } else if a[n - 1].token != b[n - 1].token {
        record_mismatches_upto(fields, a, b, n - 1).push(
            leaf_mismatch(fields[n - 1], a[n - 1], b[n - 1]),
        )
    } else {
        record_mismatches_upto(fields, a, b, n - 1)
    }
}

/// All mismatches among the named leaves of a record or named-field variant.
pub open spec fn record_mismatches(
    fields: Seq<Seq<char>>,
    a: Seq<LeafView>,
    b: Seq<LeafView>,
) -> Seq<UnequalFieldView> {
    record_mismatches_upto(fields, a, b, fields.len() as int)
}

/// The mismatches among the first `n` positional leaves of the tuple
/// variant `variant_name`: one record per differing position, under the
/// path `TypeName::VariantName.index`, in positional order.
pub open spec fn tuple_mismatches_upto(
    ty_name: Seq<char>,
    variant_name: Seq<char>,
    a: Seq<LeafView>,
    b: Seq<LeafView>,
    n: int,
) -> Seq<UnequalFieldView>
    decreases n,
{
    if n <= 0 {
        Seq::empty()
    } else if a[n - 1].token != b[n - 1].token {
        tuple_mismatches_upto(ty_name, variant_name, a, b, n - 1).push(
            leaf_mismatch(tuple_slot_name(ty_name, variant_name, (n - 1) as nat), a[n - 1], b[n - 1]),
        )
    } else {
        tuple_mismatches_upto(ty_name, variant_name, a, b, n - 1)
    }
}

/// All mismatches among the `arity` positional leaves of a tuple variant.
pub open spec fn tuple_mismatches(
    ty_name: Seq<char>,
    variant_name: Seq<char>,
    a: Seq<LeafView>,
    b: Seq<LeafView>,
    arity: nat,
) -> Seq<UnequalFieldView> {
    tuple_mismatches_upto(ty_name, variant_name, a, b, arity as int)
}

/// The single whole-variant mismatch reported when the two instances of a
/// multivariant union hold different variants (`var` is the actual
/// instance's variant).  A unit variant is reported by its label; a variant
/// with fields by the rendering of the whole actual value.  The expected
/// side is always the rendering of the whole expected value, since it
/// cannot be decomposed against a different variant.
pub open spec fn cross_variant_mismatch(
    ty_name: Seq<char>,
    var: VariantView,
    a: ValueView,
    b: ValueView,
) -> UnequalFieldView {
    UnequalFieldView {
        field_name: variant_label(ty_name, var.name),
        actually: if var.kind is Unit {
            variant_label(ty_name, var.name)
        } else {
            a.rendered
        },
        expected: b.rendered,
    }
}

/// The mismatches of two instances holding the same variant `var`: none for
/// a unit variant, the positional comparison for a tuple variant, and the
/// bare-named field comparison for a named-field variant.
pub open spec fn same_variant_mismatches(
    ty_name: Seq<char>,
    var: VariantView,
    a: ValueView,
    b: ValueView,
) -> Seq<UnequalFieldView> {
    match var.kind {
        VariantKindView::Unit => Seq::empty(),
        VariantKindView::Tuple { arity } => tuple_mismatches(
            ty_name,
            var.name,
            a.leaves,
            b.leaves,
            arity,
        ),
        VariantKindView::Struct { fields } => record_mismatches(fields, a.leaves, b.leaves),
    }
}

/// The ordered mismatch sequence of two instances of one shape: per-field
/// records for a record shape or for two instances of the same variant, and
/// exactly one whole-variant record when the variants differ.
pub open spec fn mismatches(shape: ShapeView, a: ValueView, b: ValueView) -> Seq<
    UnequalFieldView,
> {
    match shape {
        ShapeView::Record { fields } => record_mismatches(fields, a.leaves, b.leaves),
        ShapeView::Enum { name, variants } => {
            if a.variant == b.variant {
                same_variant_mismatches(name, variants[a.variant], a, b)
            } else {
                seq![cross_variant_mismatch(name, variants[a.variant], a, b)]
            }
        },
    }
}

/// Compares named leaves pairwise and collects every mismatch under its
/// bare field name, checking all fields with no short-circuit.
fn record_fields_not_equal(fields: &Vec<FieldDescriptor>, a: &Vec<Leaf>, b: &Vec<Leaf>) -> (r:
    Vec<UnequalField>)
    requires
        a@.len() == fields@.len(),
        b@.len() == fields@.len(),
    ensures
        ufs_view(r@) == record_mismatches(field_names(fields@), leaves_view(a@), leaves_view(b@)),
{
    let mut list: Vec<UnequalField> = Vec::new();
    let n = fields.len();
    let mut i: usize = 0;
    while i < n
        invariant
            i <= n,
            n == fields@.len(),
            a@.len() == n,
            b@.len() == n,
            ufs_view(list@) == record_mismatches_upto(
                field_names(fields@),
                leaves_view(a@),
                leaves_view(b@),
                i as int,
            ),
        decreases n - i,
    {
        let ghost prev = ufs_view(list@);
        if a[i].token != b[i].token {
            let uf = UnequalField {
                field_name: fields[i].name.clone(),
                actually: a[i].rendered.clone(),
                expected: b[i].rendered.clone(),
            };
            proof {
                assert(uf@ == leaf_mismatch(
                    field_names(fields@)[i as int],
                    leaves_view(a@)[i as int],
                    leaves_view(b@)[i as int],
                ));
            }
            list.push(uf);
            proof {
                assert(ufs_view(list@) =~= prev.push(
                    leaf_mismatch(
                        field_names(fields@)[i as int],
                        leaves_view(a@)[i as int],
                        leaves_view(b@)[i as int],
                    ),
                ));
            }
        }
        proof {
            assert(ufs_view(list@) =~= record_mismatches_upto(
                field_names(fields@),
                leaves_view(a@),
                leaves_view(b@),
                i + 1,
            ));
        }
        i = i + 1;
    }
    list
}

/// Compares positional leaves pairwise and collects every mismatch under
/// its `TypeName::VariantName.index` path, checking all positions.
fn tuple_fields_not_equal(
    ty_name: &String,
    variant_name: &String,
    a: &Vec<Leaf>,
    b: &Vec<Leaf>,
) -> (r: Vec<UnequalField>)
    requires
        a@.len() == b@.len(),
    ensures
        ufs_view(r@) == tuple_mismatches(
            ty_name@,
            variant_name@,
            leaves_view(a@),
            leaves_view(b@),
            a@.len(),
        ),
{
    let mut list: Vec<UnequalField> = Vec::new();
    let n = a.len();
    let mut i: usize = 0;
    while i < n
        invariant
            i <= n,
            n == a@.len(),
            b@.len() == n,
            ufs_view(list@) == tuple_mismatches_upto(
                ty_name@,
                variant_name@,
                leaves_view(a@),
                leaves_view(b@),
                i as int,
            ),
        decreases n - i,
    {
        let ghost prev = ufs_view(list@);
        if a[i].token != b[i].token {
            let uf = UnequalField {
                field_name: tuple_slot_name_of(ty_name, variant_name, i),
                actually: a[i].rendered.clone(),
                expected: b[i].rendered.clone(),
            };
            proof {
                assert(uf@ == leaf_mismatch(
                    tuple_slot_name(ty_name@, variant_name@, i as nat),
                    leaves_view(a@)[i as int],
                    leaves_view(b@)[i as int],
                ));
            }
            list.push(uf);
            proof {
                assert(ufs_view(list@) =~= prev.push(
                    leaf_mismatch(
                        tuple_slot_name(ty_name@, variant_name@, i as nat),
                        leaves_view(a@)[i as int],
                        leaves_view(b@)[i as int],
                    ),
                ));
            }
        }
        proof {
            assert(ufs_view(list@) =~= tuple_mismatches_upto(
                ty_name@,
                variant_name@,
                leaves_view(a@),
                leaves_view(b@),
                i + 1,
            ));
        }
        i = i + 1;
    }
    list
}

/// Compares two instances that hold the same variant `var`.
fn variant_fields_not_equal(
    ty_name: &String,
    var: &VariantDescriptor,
    a: &Value,
    b: &Value,
) -> (r: Vec<UnequalField>)
    requires
        a@.leaves.len() == kind_arity(var@.kind),
        b@.leaves.len() == kind_arity(var@.kind),
    ensures
        ufs_view(r@) == same_variant_mismatches(ty_name@, var@, a@, b@),
{
    match &var.kind {
        VariantKind::Unit => Vec::new(),
        VariantKind::Tuple { .. } => tuple_fields_not_equal(
            ty_name,
            &var.name,
            &a.leaves,
            &b.leaves,
        ),
        VariantKind::Struct { fields } => record_fields_not_equal(fields, &a.leaves, &b.leaves),
    }
}

impl Shape {
    /// The diff engine: returns the ordered mismatch sequence of two
    /// instances of this shape, exactly as [`mismatches`] describes it.
    /// Both instances must match the shape; a shape and an instance that
    /// have drifted apart are outside the designed contract.
    pub fn fields_not_equal(&self, a: &Value, b: &Value) -> (r: Vec<UnequalField>)
        requires
            shape_value_wf(self@, a@),
            shape_value_wf(self@, b@),
        ensures
            ufs_view(r@) == mismatches(self@, a@, b@),
    {
        match self {
            Shape::Record { fields } => record_fields_not_equal(fields, &a.leaves, &b.leaves),
            Shape::Enum { name, variants } => {
                let var = &variants[a.variant];
                if a.variant == b.variant {
                    variant_fields_not_equal(name, var, a, b)
                } else {
                    let label = variant_label_of(name, &var.name);
                    let actually = match &var.kind {
                        VariantKind::Unit => label.clone(),
                        _ => a.rendered.clone(),
                    };
                    let uf = UnequalField {
                        field_name: label,
                        actually,
                        expected: b.rendered.clone(),
                    };
                    let mut list: Vec<UnequalField> = Vec::new();
                    list.push(uf);
                    proof {
                        assert(ufs_view(list@) =~= seq![
                            cross_variant_mismatch(
                                name@,
                                variants@.map_values(|v: VariantDescriptor| v@)[a@.variant],
                                a@,
                                b@,
                            ),
                        ]);
                    }
                    list
                }
            },
        }
    }
}

} // verus!
