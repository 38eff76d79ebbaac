//! Proved laws of the diff engine.
//!
//! Each proof function here states, over the same spec functions that the
//! executable engine's contracts use, a property that holds of every
//! comparison: reflexivity, completeness of the record comparison, the
//! single whole-variant mismatch of a cross-variant comparison, and the
//! absence of that case on single-variant unions.

use vstd::prelude::*;

use crate::diff::mismatches;
use crate::diff::record_mismatches_upto;
use crate::diff::same_variant_mismatches;
use crate::diff::tuple_mismatches_upto;
use crate::diff::UnequalFieldView;
use crate::names::variant_label;
use crate::shape::shape_wf;
use crate::shape::ShapeView;
use crate::shape::VariantKindView;
use crate::value::shape_value_wf;
use crate::value::LeafView;
use crate::value::ValueView;

verus! {

/// The paths under which a mismatch sequence reports, in order.
pub open spec fn mismatch_names(ufs: Seq<UnequalFieldView>) -> Seq<Seq<char>> {
    ufs.map_values(|u: UnequalFieldView| u.field_name)
}

/// The names of the fields among the first `n` whose leaves differ, in
/// declaration order: the subset a complete record comparison must report.
pub open spec fn differing_names_upto(
    fields: Seq<Seq<char>>,
    a: Seq<LeafView>,
    b: Seq<LeafView>,
    n: int,
) -> Seq<Seq<char>>
    decreases n,
{
    if n <= 0 {
        Seq::empty()
    } else if a[n - 1].token != b[n - 1].token {
        differing_names_upto(fields, a, b, n - 1).push(fields[n - 1])
    } else {
        differing_names_upto(fields, a, b, n - 1)
    }
}

/// The names of all fields whose leaves differ, in declaration order.
pub open spec fn differing_field_names(
    fields: Seq<Seq<char>>,
    a: Seq<LeafView>,
    b: Seq<LeafView>,
) -> Seq<Seq<char>> {
    differing_names_upto(fields, a, b, fields.len() as int)
}

proof fn lemma_record_upto_reflexive(fields: Seq<Seq<char>>, a: Seq<LeafView>, n: int)
    ensures
        record_mismatches_upto(fields, a, a, n) == Seq::<UnequalFieldView>::empty(),
    decreases n,
{
    if n > 0 {
        lemma_record_upto_reflexive(fields, a, n - 1);
    }
}

proof fn lemma_tuple_upto_reflexive(
    ty_name: Seq<char>,
    variant_name: Seq<char>,
    a: Seq<LeafView>,
    n: int,
)
    ensures
        tuple_mismatches_upto(ty_name, variant_name, a, a, n) == Seq::<UnequalFieldView>::empty(),
    decreases n,
{
    if n > 0 {
        lemma_tuple_upto_reflexive(ty_name, variant_name, a, n - 1);
    }
}

/// Reflexivity: comparing any well-formed instance with itself yields no
/// mismatch, so the assertion form always succeeds on such a pair.
pub proof fn lemma_reflexive(shape: ShapeView, v: ValueView)
    requires
        shape_value_wf(shape, v),
    ensures
        mismatches(shape, v, v) == Seq::<UnequalFieldView>::empty(),
{
    match shape {
        ShapeView::Record { fields } => {
            lemma_record_upto_reflexive(fields, v.leaves, fields.len() as int);
        },
        ShapeView::Enum { name, variants } => {
            match variants[v.variant].kind {
                VariantKindView::Unit => {},
                VariantKindView::Tuple { arity } => {
                    lemma_tuple_upto_reflexive(
                        name,
                        variants[v.variant].name,
                        v.leaves,
                        arity as int,
                    );
                },
                VariantKindView::Struct { fields } => {
                    lemma_record_upto_reflexive(fields, v.leaves, fields.len() as int);
                },
            }
        },
    }
}

proof fn lemma_record_upto_names(
    fields: Seq<Seq<char>>,
    a: Seq<LeafView>,
    b: Seq<LeafView>,
    n: int,
)
    ensures
        mismatch_names(record_mismatches_upto(fields, a, b, n)) == differing_names_upto(
            fields,
            a,
            b,
            n,
        ),
    decreases n,
{
    if n > 0 {
        lemma_record_upto_names(fields, a, b, n - 1);
        assert(mismatch_names(record_mismatches_upto(fields, a, b, n)) =~= differing_names_upto(
            fields,
            a,
            b,
            n,
        ));
    } else {
        assert(mismatch_names(record_mismatches_upto(fields, a, b, n)) =~= differing_names_upto(
            fields,
            a,
            b,
            n,
        ));
    }
}

proof fn lemma_differing_names_member(
    fields: Seq<Seq<char>>,
    a: Seq<LeafView>,
    b: Seq<LeafView>,
    n: int,
    i: int,
)
    requires
        0 <= i < n,
        a[i].token != b[i].token,
    ensures
        differing_names_upto(fields, a, b, n).contains(fields[i]),
    decreases n,
{
    let p = differing_names_upto(fields, a, b, n - 1);
    let s = differing_names_upto(fields, a, b, n);
    if i == n - 1 {
        assert(s[p.len() as int] == fields[i]);
    } else {
        lemma_differing_names_member(fields, a, b, n - 1, i);
        let k = choose|k: int| 0 <= k < p.len() && p[k] == fields[i];
        assert(s[k] == fields[i]);
    }
}

proof fn lemma_differing_names_only(
    fields: Seq<Seq<char>>,
    a: Seq<LeafView>,
    b: Seq<LeafView>,
    n: int,
)
    ensures
        forall|x: Seq<char>|
            #[trigger] differing_names_upto(fields, a, b, n).contains(x) ==> exists|j: int|
                0 <= j < n && fields[j] == x && a[j].token != b[j].token,
    decreases n,
{
    if n > 0 {
        lemma_differing_names_only(fields, a, b, n - 1);
        let p = differing_names_upto(fields, a, b, n - 1);
        let s = differing_names_upto(fields, a, b, n);
        assert forall|x: Seq<char>| #[trigger] s.contains(x) implies exists|j: int|
            0 <= j < n && fields[j] == x && a[j].token != b[j].token by {
            let k = choose|k: int| 0 <= k < s.len() && s[k] == x;
            if a[n - 1].token != b[n - 1].token && k == p.len() {
                assert(fields[n - 1] == x && a[n - 1].token != b[n - 1].token);
            } else {
                assert(p[k] == x);
                assert(p.contains(x));
            }
        }
    }
}

/// Completeness for records: however many fields differ at once, the
/// comparison of two record instances reports exactly the names of the
/// fields whose leaves differ, in declaration order — every differing
/// field appears, and (the shape's field names being distinct) no other
/// field's name does.
pub proof fn lemma_record_completeness(shape: ShapeView, a: ValueView, b: ValueView)
    requires
        shape is Record,
        shape_wf(shape),
        shape_value_wf(shape, a),
        shape_value_wf(shape, b),
    ensures
        mismatch_names(mismatches(shape, a, b)) == differing_field_names(
            shape->Record_fields,
            a.leaves,
            b.leaves,
        ),
        forall|i: int|
            0 <= i < shape->Record_fields.len() ==> (a.leaves[i].token != b.leaves[i].token
                <==> #[trigger] differing_field_names(
                shape->Record_fields,
                a.leaves,
                b.leaves,
            ).contains(shape->Record_fields[i])),
{
    let fields = shape->Record_fields;
    let al = a.leaves;
    let bl = b.leaves;
    let n = fields.len() as int;
    lemma_record_upto_names(fields, al, bl, n);
    assert forall|i: int|
        0 <= i < n implies (al[i].token != bl[i].token <==> differing_field_names(
        fields,
        al,
        bl,
    ).contains(fields[i])) by {
        if al[i].token != bl[i].token {
            lemma_differing_names_member(fields, al, bl, n, i);
        }
        if differing_field_names(fields, al, bl).contains(fields[i]) {
            lemma_differing_names_only(fields, al, bl, n);
            let j = choose|j: int|
                0 <= j < n && fields[j] == fields[i] && al[j].token != bl[j].token;
            assert(j == i);
        }
    }
}

/// Cross-variant collapse: when the two instances of a multivariant union
/// hold different variants, the result is exactly one mismatch, at the
/// actual instance's variant label, with the whole expected value's
/// rendering on the expected side — however many leaf fields the two
/// variants contain.
pub proof fn lemma_cross_variant_collapse(shape: ShapeView, a: ValueView, b: ValueView)
    requires
        shape is Enum,
        shape_value_wf(shape, a),
        shape_value_wf(shape, b),
        a.variant != b.variant,
    ensures
        mismatches(shape, a, b).len() == 1,
        mismatches(shape, a, b)[0].field_name == variant_label(
            shape->Enum_name,
            shape->Enum_variants[a.variant].name,
        ),
        mismatches(shape, a, b)[0].expected == b.rendered,
{
}

/// Single-variant union: with exactly one variant, both well-formed
/// instances necessarily hold it, so the comparison is always the
/// same-variant field walk and a cross-variant mismatch can never be
/// produced; in particular, a sole unit variant never yields any mismatch.
pub proof fn lemma_single_variant_no_collapse(shape: ShapeView, a: ValueView, b: ValueView)
    requires
        shape is Enum,
        shape->Enum_variants.len() == 1,
        shape_value_wf(shape, a),
        shape_value_wf(shape, b),
    ensures
        a.variant == 0 && b.variant == 0,
        mismatches(shape, a, b) == same_variant_mismatches(
            shape->Enum_name,
            shape->Enum_variants[0],
            a,
            b,
        ),
        shape->Enum_variants[0].kind is Unit ==> mismatches(shape, a, b).len() == 0,
{
}

} // verus!
