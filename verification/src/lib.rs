//! Field-by-field structural comparison for test assertions.
//!
//! Instead of a single boolean equality, the library reports *which* leaf
//! fields differ between two instances of a composite type.  A static
//! [`shape::Shape`] describes the type's structure (a plain record, or a
//! tagged union with unit, positional, or named-field variants); the diff
//! engine walks two instances of that shape and collects every mismatch as
//! an [`diff::UnequalField`] with a qualified field path and the rendered
//! actual and expected values.  An assertion wrapper turns a non-empty
//! mismatch list into a formatted multi-line report.

pub mod api;
pub mod diff;
pub mod laws;
pub mod names;
pub mod report;
pub mod shape;
pub mod value;

pub use api::EqualFieldByField;
pub use api::Instance;
pub use diff::UnequalField;
pub use report::check_equal_field_by_field;
pub use shape::FieldDescriptor;
pub use shape::Shape;
pub use shape::VariantDescriptor;
pub use shape::VariantKind;
pub use value::Leaf;
pub use value::Value;
