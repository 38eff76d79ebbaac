//! The assertion wrapper's report.
//!
//! When a comparison finds mismatches, the caller gets a multi-line,
//! human-readable report: a header, one indented line per mismatch showing
//! the qualified path with the actual and expected renderings, and two
//! trailer lines rendering the entire actual and expected values for full
//! context.  [`check_equal_field_by_field`] returns `None` exactly when the
//! two instances have no mismatch, and otherwise the full report.

use vstd::prelude::*;

use crate::diff::mismatches;
use crate::diff::ufs_view;
use crate::diff::UnequalField;
use crate::diff::UnequalFieldView;
use crate::shape::Shape;
use crate::value::shape_value_wf;
use crate::value::Value;

verus! {

/// The report's header line.
pub open spec fn report_header() -> Seq<char> {
    "\n    Items are not equal:\n"@
}

/// The report line for one mismatch record.
pub open spec fn report_line(u: UnequalFieldView) -> Seq<char> {
    "        "@ + u.field_name + ": "@ + u.actually + " != "@ + u.expected + "\n"@
}

/// The concatenation of the report lines of the first `n` mismatches.
pub open spec fn report_lines_upto(ufs: Seq<UnequalFieldView>, n: int) -> Seq<char>
    decreases n,
{
    if n <= 0 {
        Seq::empty()
    } else {
        report_lines_upto(ufs, n - 1) + report_line(ufs[n - 1])
    }
}

/// The report trailer: the whole actual and expected values, rendered.
pub open spec fn report_trailer(a_rendered: Seq<char>, b_rendered: Seq<char>) -> Seq<char> {
    "    actually: "@ + a_rendered + "\n    expected: "@ + b_rendered + "\n"@
}

/// The whole report for a mismatch sequence: header, one line per
/// mismatch in order, then the trailer.
pub open spec fn mismatch_report_spec(
    ufs: Seq<UnequalFieldView>,
    a_rendered: Seq<char>,
    b_rendered: Seq<char>,
) -> Seq<char> {
    report_header() + report_lines_upto(ufs, ufs.len() as int) + report_trailer(
        a_rendered,
        b_rendered,
    )
}

/// Builds the report line for one mismatch record.
fn report_line_of(u: &UnequalField) -> (r: String)
    ensures
        r@ == report_line(u@),
{
    let mut r = String::from_str("        ");
    r.append(u.field_name.as_str());
    r.append(": ");
    r.append(u.actually.as_str());
    r.append(" != ");
    r.append(u.expected.as_str());
    r.append("\n");
    proof {
        assert(r@ =~= report_line(u@));
    }
    r
}

/// Builds the whole report for a non-empty (or any) mismatch list found
/// between the instances `a` (actual) and `b` (expected).
pub fn mismatch_report(list: &Vec<UnequalField>, a: &Value, b: &Value) -> (r: String)
    ensures
        r@ == mismatch_report_spec(ufs_view(list@), a@.rendered, b@.rendered),
{
    let mut msg = String::from_str("\n    Items are not equal:\n");
    let n = list.len();
    let mut i: usize = 0;
    while i < n
        invariant
            i <= n,
            n == list@.len(),
            msg@ == report_header() + report_lines_upto(ufs_view(list@), i as int),
        decreases n - i,
    {
        let line = report_line_of(&list[i]);
        msg.append(line.as_str());
        proof {
            assert(msg@ =~= report_header() + report_lines_upto(ufs_view(list@), i + 1));
        }
        i = i + 1;
    }
    msg.append("    actually: ");
    msg.append(a.rendered.as_str());
    msg.append("\n    expected: ");
    msg.append(b.rendered.as_str());
    msg.append("\n");
    proof {
        assert(msg@ =~= mismatch_report_spec(ufs_view(list@), a@.rendered, b@.rendered));
    }
    msg
}

/// The assertion wrapper's decision: compares the two instances and
/// succeeds silently (`None`) exactly when no field differs; otherwise
/// returns the full report of every mismatch.
pub fn check_equal_field_by_field(shape: &Shape, a: &Value, b: &Value) -> (r: Option<String>)
    requires
        shape_value_wf(shape@, a@),
        shape_value_wf(shape@, b@),
    ensures
        (r is None) <==> mismatches(shape@, a@, b@).len() == 0,
        r matches Some(msg) ==> msg@ == mismatch_report_spec(
            mismatches(shape@, a@, b@),
            a@.rendered,
            b@.rendered,
        ),
{
    let list = shape.fields_not_equal(a, b);
    if list.len() == 0 {
        None
    } else {
        Some(mismatch_report(&list, a, b))
    }
}

} // verus!
