//! The column-oriented table built from a sequence of klines.
use vstd::prelude::*;

use crate::kline::{klines_view, Kline, KlineView};

verus! {

/// The values of one column, all of one type. Float-valued columns hold the
/// decimal text of each value.
#[derive(Debug, Clone)]
pub enum ColumnData {
    Int64(Vec<i64>),
    Int32(Vec<i32>),
    Decimal(Vec<String>),
}

pub enum ColumnDataView {
    Int64(Seq<i64>),
    Int32(Seq<i32>),
    Decimal(Seq<Seq<char>>),
}

impl View for ColumnData {
    type V = ColumnDataView;

    open spec fn view(&self) -> ColumnDataView {
        match self {
            ColumnData::Int64(v) => ColumnDataView::Int64(v@),
            ColumnData::Int32(v) => ColumnDataView::Int32(v@),
            ColumnData::Decimal(v) => ColumnDataView::Decimal(v@.map_values(|s: String| s@)),
        }
    }
}

/// A named column.
#[derive(Debug, Clone)]
pub struct Column {
    pub name: String,
    pub data: ColumnData,
}

impl View for Column {
    type V = (Seq<char>, ColumnDataView);

    open spec fn view(&self) -> (Seq<char>, ColumnDataView) {
        (self.name@, self.data@)
    }
}

/// Columns in the order of the kline fields.
#[derive(Debug, Clone)]
pub struct Table {
    pub columns: Vec<Column>,
}

impl View for Table {
    type V = Seq<(Seq<char>, ColumnDataView)>;

    open spec fn view(&self) -> Seq<(Seq<char>, ColumnDataView)> {
        self.columns@.map_values(|c: Column| c@)
    }
}

impl Table {
    /// The first column called `name`, if any.
    pub fn column(&self, name: &str) -> (r: Option<&Column>)
        ensures
            match r {
                Some(c) => exists|j: int|
                    0 <= j < self@.len() && c@ == #[trigger] self@[j] && c.name@ == name@ && forall|
                        k: int,
                    | 0 <= k < j ==> self@[k].0 != name@,
                None => forall|j: int| 0 <= j < self@.len() ==> (#[trigger] self@[j]).0 != name@,
            },
    {
        let key = String::from_str(name);
        let mut i: usize = 0;
        while i < self.columns.len()
            invariant
                i <= self.columns@.len(),
                key@ == name@,
                forall|k: int| 0 <= k < i ==> (#[trigger] self@[k]).0 != name@,
            decreases self.columns.len() - i,
        {
            if self.columns[i].name == key {
                assert(self@[i as int] == self.columns@[i as int]@);
                return Some(&self.columns[i]);
            }
            i = i + 1;
        }
        None
    }
}

/// An ordered sequence of klines.
#[derive(Debug, Clone)]
pub struct Klines {
    pub klines: Vec<Kline>,
}

/// The number of columns of a table: one per kline field.
pub const NUM_COLUMNS: usize = 12;

/// The column names, in the order of the kline fields.
pub open spec fn column_names() -> Seq<Seq<char>> {
    seq![
        "open_time"@,
        "open"@,
        "high"@,
        "low"@,
        "close"@,
        "volume"@,
        "close_time"@,
        "quote_asset_volume"@,
        "number_of_trades"@,
        "taker_buy_base_asset_volume"@,
        "taker_buy_quote_asset_volume"@,
        "ignore"@,
    ]
}

/// The 64-bit integer field at position `i` (0 or 6).
pub open spec fn int64_at(k: KlineView, i: int) -> i64 {
    if i == 0 {
        k.open_time
    } else {
        k.close_time
    }
}

/// The decimal field at position `i` (any position but 0, 6 and 8).
pub open spec fn decimal_at(k: KlineView, i: int) -> Seq<char> {
    if i == 1 {
        k.open
    } else if i == 2 {
        k.high
    } else if i == 3 {
        k.low
    } else if i == 4 {
        k.close
    } else if i == 5 {
        k.volume
    } else if i == 7 {
        k.quote_asset_volume
    } else if i == 9 {
        k.taker_buy_base_asset_volume
    } else if i == 10 {
        k.taker_buy_quote_asset_volume
    } else {
        k.ignore
    }
}

/// Column `i`: field `i` of every kline, in order.
pub open spec fn column_of(ks: Seq<KlineView>, i: int) -> ColumnDataView {
    if i == 0 || i == 6 {
        ColumnDataView::Int64(ks.map_values(|k: KlineView| int64_at(k, i)))
    } else if i == 8 {
        ColumnDataView::Int32(ks.map_values(|k: KlineView| k.number_of_trades))
    } else {
        ColumnDataView::Decimal(ks.map_values(|k: KlineView| decimal_at(k, i)))
    }
}

/// The table of a kline sequence: twelve named columns, row i from kline i.
pub open spec fn table_of(ks: Seq<KlineView>) -> Seq<(Seq<char>, ColumnDataView)> {
    Seq::new(NUM_COLUMNS as nat, |i: int| (column_names()[i], column_of(ks, i)))
}

pub open spec fn column_len(c: ColumnDataView) -> nat {
    match c {
        ColumnDataView::Int64(v) => v.len(),
        ColumnDataView::Int32(v) => v.len(),
        ColumnDataView::Decimal(v) => v.len(),
    }
}

fn column_name(i: usize) -> (r: String)
    requires
        i < NUM_COLUMNS,
    ensures
        r@ == column_names()[i as int],
{
    let s = if i == 0 {
        "open_time"
    } else if i == 1 {
        "open"
    } else if i == 2 {
        "high"
    } else if i == 3 {
        "low"
    } else if i == 4 {
        "close"
    } else if i == 5 {
        "volume"
    } else if i == 6 {
        "close_time"
    } else if i == 7 {
        "quote_asset_volume"
    } else if i == 8 {
        "number_of_trades"
    } else if i == 9 {
        "taker_buy_base_asset_volume"
    } else if i == 10 {
        "taker_buy_quote_asset_volume"
    } else {
        "ignore"
    };
    String::from_str(s)
}

fn decimal_field_at(k: &Kline, i: usize) -> (r: &String)
    ensures
        r@ == decimal_at(k@, i as int),
{
    if i == 1 {
        &k.open
    } else if i == 2 {
        &k.high
    } else if i == 3 {
        &k.low
    } else if i == 4 {
        &k.close
    } else if i == 5 {
        &k.volume
    } else if i == 7 {
        &k.quote_asset_volume
    } else if i == 9 {
        &k.taker_buy_base_asset_volume
    } else if i == 10 {
        &k.taker_buy_quote_asset_volume
    } else {
        &k.ignore
    }
}

fn build_column(ks: &Vec<Kline>, i: usize) -> (r: ColumnData)
    requires
        i < NUM_COLUMNS,
    ensures
        r@ == column_of(klines_view(ks@), i as int),
{
    let ghost kv = klines_view(ks@);
    let mut n: usize = 0;
    if i == 0 || i == 6 {
        let mut v: Vec<i64> = Vec::new();
        while n < ks.len()
            invariant
                n <= ks.len(),
                kv == klines_view(ks@),
                i == 0 || i == 6,
                v@ =~= kv.subrange(0, n as int).map_values(|k: KlineView| int64_at(k, i as int)),
            decreases ks.len() - n,
        {
            let x = if i == 0 {
                ks[n].open_time
            } else {
                ks[n].close_time
            };
            v.push(x);
            n = n + 1;
            assert(v@ =~= kv.subrange(0, n as int).map_values(
                |k: KlineView| int64_at(k, i as int),
            ));
        }
        assert(kv.subrange(0, n as int) =~= kv);
        ColumnData::Int64(v)
    } else if i == 8 {
        let mut v: Vec<i32> = Vec::new();
        while n < ks.len()
            invariant
                n <= ks.len(),
                kv == klines_view(ks@),
                v@ =~= kv.subrange(0, n as int).map_values(|k: KlineView| k.number_of_trades),
            decreases ks.len() - n,
        {
            v.push(ks[n].number_of_trades);
            n = n + 1;
            assert(v@ =~= kv.subrange(0, n as int).map_values(|k: KlineView| k.number_of_trades));
        }
        assert(kv.subrange(0, n as int) =~= kv);
        ColumnData::Int32(v)
    } else {
        let mut v: Vec<String> = Vec::new();
        while n < ks.len()
            invariant
                n <= ks.len(),
                kv == klines_view(ks@),
                i != 0 && i != 6 && i != 8,
                v@.map_values(|s: String| s@) =~= kv.subrange(0, n as int).map_values(
                    |k: KlineView| decimal_at(k, i as int),
                ),
            decreases ks.len() - n,
        {
            let s = decimal_field_at(&ks[n], i).clone();
            assert(s@ == decimal_at(kv[n as int], i as int));
            let ghost before = v@;
            v.push(s);
            assert(v@.map_values(|s: String| s@) =~= before.map_values(|s: String| s@).push(
                decimal_at(kv[n as int], i as int),
            ));
            n = n + 1;
            assert(v@.map_values(|s: String| s@) =~= kv.subrange(0, n as int).map_values(
                |k: KlineView| decimal_at(k, i as int),
            ));
        }
        assert(kv.subrange(0, n as int) =~= kv);
        ColumnData::Decimal(v)
    }
}

impl Klines {
    /// The table of these klines: one column per field, named and ordered as
    /// the fields, row i holding kline i.
    pub fn klines_to_dataframe(&self) -> (t: Table)
        ensures
            t@ == table_of(klines_view(self.klines@)),
    {
        let mut columns: Vec<Column> = Vec::new();
        let mut i: usize = 0;
        while i < NUM_COLUMNS
            invariant
                i <= NUM_COLUMNS,
                columns@.len() == i,
                forall|j: int|
                    0 <= j < i ==> (#[trigger] columns@[j])@ == table_of(
                        klines_view(self.klines@),
                    )[j],
            decreases NUM_COLUMNS - i,
        {
            let name = column_name(i);
            let data = build_column(&self.klines, i);
            columns.push(Column { name, data });
            i = i + 1;
        }
        let t = Table { columns };
        assert(t@ =~= table_of(klines_view(self.klines@)));
        t
    }
}

} // verus!
