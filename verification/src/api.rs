//! The consumer-facing comparison trait.
//!
//! [`EqualFieldByField`] compares items field by field, rather than
//! whole-hog: `fields_not_equal` returns the list of differing fields, and
//! `assert_equal_field_by_field` is the assertion form, owed to succeed
//! when nothing differs.  An implementer exposes the item's shape and
//! instance through the two spec methods; [`Instance`], a value paired with
//! its shape, is the library's own implementation.

use vstd::prelude::*;

use crate::diff::mismatches;
use crate::diff::ufs_view;
use crate::diff::UnequalField;
use crate::report::check_equal_field_by_field;
use crate::shape::Shape;
use crate::shape::ShapeView;
use crate::value::shape_value_wf;
use crate::value::Value;
use crate::value::ValueView;

verus! {

/// A trait that compares items field by field, rather than whole-hog.
///
/// `shape_v` is the static shape shared by every instance of the
/// implementing type, and `value_v` is what the engine reads of one
/// instance; both inputs of a comparison must match that shape.
pub trait EqualFieldByField {
    /// The shape describing the implementing type.
    spec fn shape_v(&self) -> ShapeView;

    /// What the diff engine reads of this instance.
    spec fn value_v(&self) -> ValueView;

    /// Get a list of the fields that are not equal.
    fn fields_not_equal(&self, other: &Self) -> (r: Vec<UnequalField>)
        requires
            shape_value_wf(self.shape_v(), self.value_v()),
            shape_value_wf(self.shape_v(), other.value_v()),
            other.shape_v() == self.shape_v(),
        ensures
            ufs_view(r@) == mismatches(self.shape_v(), self.value_v(), other.value_v()),
    ;

    /// The assertion form: its contract admits exactly the pairs with no
    /// mismatch, on which it succeeds silently.  A pair that differs is an
    /// assertion failure and lies outside this contract;
    /// [`check_equal_field_by_field`] is the total form that reports such a
    /// pair instead of failing.
    fn assert_equal_field_by_field(&self, other: &Self)
        requires
            shape_value_wf(self.shape_v(), self.value_v()),
            shape_value_wf(self.shape_v(), other.value_v()),
            other.shape_v() == self.shape_v(),
            mismatches(self.shape_v(), self.value_v(), other.value_v()).len() == 0,
    ;
}

/// One instance of a shaped type, paired with its shape: the library's own
/// implementation of [`EqualFieldByField`].
#[derive(Debug, Clone)]
pub struct Instance {
    pub shape: Shape,
    pub value: Value,
}

impl EqualFieldByField for Instance {
    open spec fn shape_v(&self) -> ShapeView {
        self.shape@
    }

    open spec fn value_v(&self) -> ValueView {
        self.value@
    }

    fn fields_not_equal(&self, other: &Self) -> (r: Vec<UnequalField>) {
        self.shape.fields_not_equal(&self.value, &other.value)
    }

    fn assert_equal_field_by_field(&self, other: &Self) {
        match check_equal_field_by_field(&self.shape, &self.value, &other.value) {
            None => (),
            Some(_) => unreached(),
        }
    }
}

} // verus!
