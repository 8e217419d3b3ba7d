//! The per-cell conversion policy: from what the driver decoded to a generic
//! value, with null in place of whatever could not be decoded or formatted.

use crate::driver::{decoder_for, tag_of, Cell, CellView, DecodeKind, DriverValue, DriverValueView};
use crate::text::{
    date_form, date_text, hyphenated, is_time_of_day, naive_datetime_form, naive_datetime_text,
    rfc3339_form, rfc3339_text, time_form, time_text, uuid_text,
};
use crate::value::{float_value, number_from_float, GenericValue, GenericView};
use vstd::prelude::*;

verus! {

/// The model of an optional decoded value.
pub open spec fn decoded_view(value: Option<DriverValue>) -> Option<DriverValueView> {
    match value {
        Some(v) => Some(v@),
        None => None,
    }
}

/// A text where there is one, null otherwise.
pub open spec fn text_or_null(text: Option<Seq<char>>) -> GenericView {
    match text {
        Some(s) => GenericView::Text(s),
        None => GenericView::Null,
    }
}

/// The generic value for a cell that was decoded as `kind` and gave `value`.
///
/// A missing value is null. So is a value that a decoder of `kind` does not
/// produce, a float that is not finite, and a temporal value that has no
/// textual form.
pub open spec fn converted(kind: DecodeKind, value: Option<DriverValueView>) -> GenericView {
    match value {
        None => GenericView::Null,
        Some(decoded) => if !kind.produces(decoded) {
            GenericView::Null
        } else {
            match decoded {
                DriverValueView::Integer(n) => GenericView::Integer(n),
                DriverValueView::Float(bits) => float_value(bits),
                DriverValueView::Boolean(b) => GenericView::Bool(b),
                DriverValueView::Text(s) => GenericView::Text(s),
                DriverValueView::TimestampTz { secs, nanos } => text_or_null(
                    rfc3339_form(secs, nanos),
                ),
                DriverValueView::Timestamp { secs, nanos } => text_or_null(
                    naive_datetime_form(secs, nanos),
                ),
                DriverValueView::Date { days } => text_or_null(date_form(days)),
                DriverValueView::Time { second_of_day, nanos } => text_or_null(
                    time_form(second_of_day, nanos),
                ),
                DriverValueView::Uuid(v) => GenericView::Text(hyphenated(v)),
                DriverValueView::Json(doc) => GenericView::Structured(doc),
            }
        },
    }
}

/// The generic value of a cell: its type tag picks the decoder, and the
/// decoded value is converted as that decoder's kind.
pub open spec fn cell_value(cell: CellView) -> GenericView {
    converted(tag_of(cell.data_type).decoder_spec(), cell.value)
}

/// The generic values of a row, cell by cell and in the row's order.
pub open spec fn row_values(row: Seq<Cell>) -> Seq<GenericView> {
    Seq::new(row.len(), |i: int| cell_value(row[i]@))
}

/// The models of a sequence of generic values.
pub open spec fn generic_views(values: Seq<GenericValue>) -> Seq<GenericView> {
    Seq::new(values.len(), |i: int| values[i]@)
}

/// Turns the outcome of formatting a value into a generic value: the text
/// where there is one, null where the value has no textual form.
pub fn text_value(text: Option<String>) -> (v: GenericValue)
    ensures
        v@ == text_or_null(
            match text {
                Some(s) => Some(s@),
                None => None,
            },
        ),
        v.wf(),
{
    match text {
        Some(s) => GenericValue::Text(s),
        None => GenericValue::Null,
    }
}

/// Converts what a decoder of `kind` produced into a generic value.
pub fn convert(kind: DecodeKind, value: &Option<DriverValue>) -> (v: GenericValue)
    ensures
        v@ == converted(kind, decoded_view(*value)),
        v.wf(),
        *value is None ==> v@ == GenericView::Null,
        kind == DecodeKind::Time ==> match *value {
            Some(DriverValue::Time { second_of_day, nanos }) => v@ is Text <==> is_time_of_day(
                second_of_day,
                nanos,
            ),
            _ => v@ == GenericView::Null,
        },
{
    match value {
        None => GenericValue::Null,
        Some(decoded) => {
            if !kind.yields(decoded) {
                GenericValue::Null
            } else {
                match decoded {
                    DriverValue::Integer(n) => GenericValue::Integer(*n),
                    DriverValue::Float(bits) => number_from_float(*bits),
                    DriverValue::Boolean(b) => GenericValue::Bool(*b),
                    DriverValue::Text(s) => GenericValue::Text(s.clone()),
                    DriverValue::TimestampTz { secs, nanos } => text_value(
                        rfc3339_text(*secs, *nanos),
                    ),
                    DriverValue::Timestamp { secs, nanos } => text_value(
                        naive_datetime_text(*secs, *nanos),
                    ),
                    DriverValue::Date { days } => text_value(date_text(*days)),
                    DriverValue::Time { second_of_day, nanos } => text_value(
                        time_text(*second_of_day, *nanos),
                    ),
                    DriverValue::Uuid(v) => GenericValue::Text(uuid_text(*v)),
                    DriverValue::Json(doc) => GenericValue::Structured(doc.clone()),
                }
            }
        },
    }
}

/// Converts one cell: looks its type tag up in the dispatch table and
/// converts its value as the decoder's kind.
pub fn convert_cell(cell: &Cell) -> (v: GenericValue)
    ensures
        v@ == cell_value(cell@),
        v.wf(),
{
    convert(decoder_for(cell.data_type.as_str()), &cell.value)
}

/// Converts a row into generic values, one per cell, in the row's order.
pub fn row_to_values(row: &Vec<Cell>) -> (values: Vec<GenericValue>)
    ensures
        values.len() == row.len(),
        generic_views(values@) == row_values(row@),
        forall|i: int| 0 <= i < values.len() ==> (#[trigger] values[i]).wf(),
{
    let mut values: Vec<GenericValue> = Vec::new();
    let mut i: usize = 0;
    while i < row.len()
        invariant
            i <= row.len(),
            values.len() == i,
            forall|j: int| 0 <= j < i ==> (#[trigger] values[j])@ == cell_value(row[j]@),
            forall|j: int| 0 <= j < i ==> (#[trigger] values[j]).wf(),
        decreases row.len() - i,
    {
        let v = convert_cell(&row[i]);
        values.push(v);
        i += 1;
    }
    assert(generic_views(values@) =~= row_values(row@));
    values
}

/// A cell without a value converts to null, whatever its type tag: a null
/// or undecodable cell never aborts the conversion.
pub proof fn lemma_missing_value_is_null(name: Seq<char>, data_type: Seq<char>)
    ensures
        cell_value(CellView { name, data_type, value: None }) == GenericView::Null,
{
}

/// A value that the decoder for its type tag does not produce converts to
/// null.
pub proof fn lemma_mismatched_value_is_null(cell: CellView)
    requires
        cell.value is Some,
        !tag_of(cell.data_type).decoder_spec().produces(cell.value->0),
    ensures
        cell_value(cell) == GenericView::Null,
{
}

/// A row converts to as many values as it has cells.
pub proof fn lemma_row_values_len(row: Seq<Cell>)
    ensures
        row_values(row).len() == row.len(),
{
}

} // verus!
