//! Laws relating decoding and tabulation.
use vstd::prelude::*;

use crate::kline::{
    decode_rows_spec, int_field, kline_of_row, row_is_valid, rows_are_valid, KlineView,
    RawFieldView,
};
use crate::table::{column_len, column_names, table_of, ColumnDataView, NUM_COLUMNS};

verus! {

/// The values of a 64-bit integer column, empty for a column of another type.
pub open spec fn int64_values(c: ColumnDataView) -> Seq<i64> {
    match c {
        ColumnDataView::Int64(v) => v,
        _ => Seq::empty(),
    }
}

/// Decoding a valid response of R rows and tabulating the klines gives a
/// table whose every column holds exactly R values.
pub proof fn lemma_row_count(rows: Seq<Seq<RawFieldView>>)
    requires
        rows_are_valid(rows),
    ensures
        decode_rows_spec(rows) is Some,
        forall|j: int|
            0 <= j < NUM_COLUMNS ==> column_len(
                (#[trigger] table_of(decode_rows_spec(rows)->0)[j]).1,
            ) == rows.len(),
{
}

/// Every table has the same twelve column names in the same order, whatever
/// klines it was built from, none included.
pub proof fn lemma_column_names(a: Seq<KlineView>, b: Seq<KlineView>)
    ensures
        table_of(a).len() == NUM_COLUMNS,
        table_of(b).len() == NUM_COLUMNS,
        forall|j: int|
            0 <= j < NUM_COLUMNS ==> (#[trigger] table_of(a)[j]).0 == column_names()[j]
                && table_of(a)[j].0 == table_of(b)[j].0,
{
}

/// A row of eleven elements, or one whose open price is a number rather
/// than a string, is malformed.
pub proof fn lemma_short_or_numeric_open_row(row: Seq<RawFieldView>)
    requires
        row.len() == 11 || (row.len() > 1 && row[1] is Int),
    ensures
        !row_is_valid(row),
{
}

/// One malformed row fails the decoding of the whole response, however many
/// other rows are valid.
pub proof fn lemma_malformed_row_rejects_batch(rows: Seq<Seq<RawFieldView>>, i: int)
    requires
        0 <= i < rows.len(),
        !row_is_valid(rows[i]),
    ensures
        decode_rows_spec(rows) is None,
{
}

/// The table of no klines has twelve columns, each empty.
pub proof fn lemma_empty_table()
    ensures
        table_of(Seq::empty()).len() == NUM_COLUMNS,
        forall|j: int|
            0 <= j < NUM_COLUMNS ==> column_len((#[trigger] table_of(Seq::empty())[j]).1) == 0,
{
}

/// Rows with strictly increasing open times give an open_time column that
/// lists those times in the same order, so it is strictly increasing too.
pub proof fn lemma_order_preserved(rows: Seq<Seq<RawFieldView>>)
    requires
        rows_are_valid(rows),
        forall|i: int, j: int|
            0 <= i < j < rows.len() ==> int_field(#[trigger] rows[i][0])->0 < int_field(
                #[trigger] rows[j][0],
            )->0,
    ensures
        decode_rows_spec(rows) is Some,
        table_of(decode_rows_spec(rows)->0)[0].1 is Int64,
        int64_values(table_of(decode_rows_spec(rows)->0)[0].1).len() == rows.len(),
        forall|i: int|
            0 <= i < rows.len() ==> #[trigger] int64_values(
                table_of(decode_rows_spec(rows)->0)[0].1,
            )[i] == int_field(rows[i][0])->0,
        forall|i: int, j: int|
            0 <= i < j < rows.len() ==> #[trigger] int64_values(
                table_of(decode_rows_spec(rows)->0)[0].1,
            )[i] < #[trigger] int64_values(table_of(decode_rows_spec(rows)->0)[0].1)[j],
{
    let ks = decode_rows_spec(rows)->0;
    let times = int64_values(table_of(ks)[0].1);
    assert forall|i: int| 0 <= i < rows.len() implies #[trigger] times[i] == int_field(
        rows[i][0],
    )->0 by {
        assert(ks[i] == kline_of_row(rows[i]));
    }
    assert forall|i: int, j: int| 0 <= i < j < rows.len() implies #[trigger] times[i]
        < #[trigger] times[j] by {
        assert(times[i] == int_field(rows[i][0])->0);
        assert(times[j] == int_field(rows[j][0])->0);
    }
}

} // verus!
