//! Turning the findings of request validation into one error.
//!
//! Validation itself happens where the request is read. What it found
//! arrives here as a list of reports, one per field at fault, and is
//! rendered as the detail of a validation error.

use vstd::prelude::*;
use crate::error::{AppError, AppErrorView};
use crate::text::{chars_of, push_chars};
use crate::utils::string::{prefix_ends_with, trim_end};

verus! {

/// What is wrong with one field of a request.
#[derive(Debug, Clone, PartialEq, Eq)]
pub enum FieldFault {
    /// The field broke rules of its own; one message for each.
    Field(Vec<String>),
    /// The field holds a structure that is invalid.
    Struct,
    /// The field holds a list; these are the positions of its invalid
    /// items.
    List(Vec<usize>),
}

/// The finding for one field.
#[derive(Debug, Clone, PartialEq, Eq)]
pub struct FieldReport {
    pub field: String,
    pub fault: FieldFault,
}

/// The mathematical value of a [`FieldFault`].
pub enum FieldFaultView {
    Field(Seq<Seq<char>>),
    Struct,
    List(Seq<usize>),
}

/// The mathematical value of a [`FieldReport`].
pub struct FieldReportView {
    pub field: Seq<char>,
    pub fault: FieldFaultView,
}

impl View for FieldFault {
    type V = FieldFaultView;

    open spec fn view(&self) -> FieldFaultView {
        match self {
            FieldFault::Field(messages) => FieldFaultView::Field(
                Seq::new(messages@.len(), |i: int| messages@[i]@),
            ),
            FieldFault::Struct => FieldFaultView::Struct,
            FieldFault::List(positions) => FieldFaultView::List(positions@),
        }
    }
}

impl View for FieldReport {
    type V = FieldReportView;

    open spec fn view(&self) -> FieldReportView {
        FieldReportView { field: self.field@, fault: self.fault@ }
    }
}

/// The mathematical values of a list of reports.
pub open spec fn report_views(reports: Seq<FieldReport>) -> Seq<FieldReportView> {
    Seq::new(reports.len(), |i: int| reports[i]@)
}

/// The texts of `parts` with `separator` between them.
pub open spec fn joined(parts: Seq<Seq<char>>, separator: Seq<char>) -> Seq<char>
    decreases parts.len(),
{
    if parts.len() == 0 {
        Seq::empty()
    } else if parts.len() == 1 {
        parts[0]
    } else {
        joined(parts.drop_last(), separator) + separator + parts.last()
    }
}

/// The character of a digit below ten.
pub open spec fn digit_char(digit: nat) -> char {
    ((48 + digit) as u8) as char
}

/// A number in base ten, without leading zeros.
pub open spec fn decimal(n: nat) -> Seq<char>
    decreases n,
{
    if n < 10 {
        seq![digit_char(n)]
    } else {
        decimal(n / 10).push(digit_char(n % 10))
    }
}

/// What a report adds to the first half of the text: the messages of a
/// field that broke rules of its own.
pub open spec fn field_part(report: FieldReportView) -> Seq<char> {
    match report.fault {
        FieldFaultView::Field(messages) => report.field + ": "@ + joined(messages, ", "@) + "; "@,
        _ => Seq::empty(),
    }
}

/// One entry for each invalid item of the list in `field`.
pub open spec fn list_part(field: Seq<char>, positions: Seq<usize>) -> Seq<char>
    decreases positions.len(),
{
    if positions.len() == 0 {
        Seq::empty()
    } else {
        list_part(field, positions.drop_last()) + field + "["@ + decimal(positions.last() as nat)
            + "]: Invalid; "@
    }
}

/// What a report adds to the second half of the text: a nested structure
/// or the items of a list.
pub open spec fn nested_part(report: FieldReportView) -> Seq<char> {
    match report.fault {
        FieldFaultView::Field(_) => Seq::empty(),
        FieldFaultView::Struct => "Struct "@ + report.field + ": Invalid; "@,
        FieldFaultView::List(positions) => list_part(report.field, positions),
    }
}

/// The first half of the text: the fields that broke rules of their own,
/// in the order of the reports.
pub open spec fn field_parts(reports: Seq<FieldReportView>) -> Seq<char>
    decreases reports.len(),
{
    if reports.len() == 0 {
        Seq::empty()
    } else {
        field_parts(reports.drop_last()) + field_part(reports.last())
    }
}

/// The second half of the text: nested structures and lists, in the order
/// of the reports.
pub open spec fn nested_parts(reports: Seq<FieldReportView>) -> Seq<char>
    decreases reports.len(),
{
    if reports.len() == 0 {
        Seq::empty()
    } else {
        nested_parts(reports.drop_last()) + nested_part(reports.last())
    }
}

/// The detail of the validation error for these reports: every entry ends
/// in `"; "`, and the text as a whole does not.
pub open spec fn validation_text(reports: Seq<FieldReportView>) -> Seq<char> {
    trim_end(field_parts(reports) + nested_parts(reports), "; "@)
}

/// Appends the characters of `text` to `buffer`.
fn extend(buffer: &mut Vec<char>, text: &str)
    ensures
        final(buffer)@ == old(buffer)@ + text@,
{
    let mut chars = chars_of(text);
    buffer.append(&mut chars);
}

/// The digits of `n` in base ten.
fn decimal_chars(n: usize) -> (digits: Vec<char>)
    ensures
        digits@ == decimal(n as nat),
    decreases n,
{
    if n < 10 {
        let mut digits: Vec<char> = Vec::new();
        digits.push((48u8 + n as u8) as char);
        assert(digits@ =~= decimal(n as nat));
        digits
    } else {
        let mut digits = decimal_chars(n / 10);
        digits.push((48u8 + (n % 10) as u8) as char);
        digits
    }
}

/// Appends the messages of a field, joined by `", "`.
fn extend_joined(buffer: &mut Vec<char>, messages: &Vec<String>)
    ensures
        final(buffer)@ == old(buffer)@ + joined(
            Seq::new(messages@.len(), |i: int| messages@[i]@),
            ", "@,
        ),
{
    let ghost texts = Seq::new(messages@.len(), |i: int| messages@[i]@);
    let mut i: usize = 0;
    assert(texts.take(0) =~= Seq::<Seq<char>>::empty());
    while i < messages.len()
        invariant
            i <= messages.len(),
            texts == Seq::new(messages@.len(), |i: int| messages@[i]@),
            buffer@ == old(buffer)@ + joined(texts.take(i as int), ", "@),
        decreases messages.len() - i,
    {
        let ghost before = buffer@;
        if i > 0 {
            extend(buffer, ", ");
        }
        extend(buffer, messages[i].as_str());
        proof {
            let longer = texts.take(i + 1);
            assert(longer.drop_last() =~= texts.take(i as int));
            assert(longer.last() == messages@[i as int]@);
            if i == 0 {
                assert(joined(longer, ", "@) == longer[0]);
                assert(joined(texts.take(0), ", "@) =~= Seq::<char>::empty());
                assert(buffer@ =~= old(buffer)@ + joined(longer, ", "@));
            } else {
                assert(buffer@ =~= old(buffer)@ + joined(longer, ", "@));
            }
        }
        i += 1;
    }
    assert(texts.take(messages@.len() as int) =~= texts);
}

/// Appends one entry for each invalid item of the list in `field`.
fn extend_list(buffer: &mut Vec<char>, field: &str, positions: &Vec<usize>)
    ensures
        final(buffer)@ == old(buffer)@ + list_part(field@, positions@),
{
    let mut i: usize = 0;
    assert(positions@.take(0) =~= Seq::<usize>::empty());
    while i < positions.len()
        invariant
            i <= positions.len(),
            buffer@ == old(buffer)@ + list_part(field@, positions@.take(i as int)),
        decreases positions.len() - i,
    {
        extend(buffer, field);
        extend(buffer, "[");
        let mut digits = decimal_chars(positions[i]);
        buffer.append(&mut digits);
        extend(buffer, "]: Invalid; ");
        proof {
            let longer = positions@.take(i + 1);
            assert(longer.drop_last() =~= positions@.take(i as int));
            assert(longer.last() == positions@[i as int]);
            assert(buffer@ =~= old(buffer)@ + list_part(field@, longer));
        }
        i += 1;
    }
    assert(positions@.take(positions@.len() as int) =~= positions@);
}

/// The validation error for what validation found, in the order of the
/// reports: first the fields that broke rules of their own, then nested
/// structures and lists.
pub fn validation_error(reports: &Vec<FieldReport>) -> (error: AppError)
    ensures
        error@ == AppErrorView::ValidationError(validation_text(report_views(reports@))),
{
    let ghost views = report_views(reports@);
    let mut buffer: Vec<char> = Vec::new();
    let mut i: usize = 0;
    assert(views.take(0) =~= Seq::<FieldReportView>::empty());
    while i < reports.len()
        invariant
            i <= reports.len(),
            views == report_views(reports@),
            buffer@ == field_parts(views.take(i as int)),
        decreases reports.len() - i,
    {
        let report = &reports[i];
        let ghost before = buffer@;
        match &report.fault {
            FieldFault::Field(messages) => {
                extend(&mut buffer, report.field.as_str());
                extend(&mut buffer, ": ");
                extend_joined(&mut buffer, messages);
                extend(&mut buffer, "; ");
            },
            _ => {},
        }
        proof {
            let longer = views.take(i + 1);
            assert(longer.drop_last() =~= views.take(i as int));
            assert(longer.last() == report@);
            assert(buffer@ =~= before + field_part(report@));
        }
        i += 1;
    }
    assert(views.take(reports@.len() as int) =~= views);
    let ghost first_half = buffer@;
    let mut i: usize = 0;
    while i < reports.len()
        invariant
            i <= reports.len(),
            views == report_views(reports@),
            first_half == field_parts(views),
            buffer@ == first_half + nested_parts(views.take(i as int)),
        decreases reports.len() - i,
    {
        let report = &reports[i];
        let ghost before = buffer@;
        match &report.fault {
            FieldFault::Field(_) => {},
            FieldFault::Struct => {
                extend(&mut buffer, "Struct ");
                extend(&mut buffer, report.field.as_str());
                extend(&mut buffer, ": Invalid; ");
            },
            FieldFault::List(positions) => {
                extend_list(&mut buffer, report.field.as_str(), positions);
            },
        }
        proof {
            let longer = views.take(i + 1);
            assert(longer.drop_last() =~= views.take(i as int));
            assert(longer.last() == report@);
            assert(buffer@ =~= before + nested_part(report@));
            assert(buffer@ =~= first_half + nested_parts(longer));
        }
        i += 1;
    }
    assert(views.take(reports@.len() as int) =~= views);
    let pattern = chars_of("; ");
    proof {
        reveal_strlit("; ");
    }
    let mut kept: usize = buffer.len();
    assert(buffer@.take(kept as int) =~= buffer@);
    while prefix_ends_with(&buffer, kept, &pattern)
        invariant
            kept <= buffer.len(),
            pattern@ == "; "@,
            pattern@.len() > 0,
            trim_end(buffer@, pattern@) == trim_end(buffer@.take(kept as int), pattern@),
        decreases kept,
    {
        assert(buffer@.take(kept as int).take(kept - pattern@.len()) =~= buffer@.take(
            kept - pattern@.len(),
        ));
        kept -= pattern.len();
    }
    let mut detail = String::new();
    push_chars(&mut detail, &buffer, 0, kept);
    assert(buffer@.subrange(0, kept as int) =~= buffer@.take(kept as int));
    AppError::ValidationError(detail)
}

} // verus!
