//! Kline records and their decoding from positional rows.
use vstd::prelude::*;

use crate::decimal::{is_decimal, is_decimal_text};
use crate::KlineError;

verus! {

/// The shape of one positional element of a raw row: an integer number, a
/// string, or any other value (a fraction, a number beyond `i64`, null, ...).
#[derive(Debug, Clone)]
pub enum RawField {
    Int(i64),
    Text(String),
    Other,
}

pub enum RawFieldView {
    Int(i64),
    Text(Seq<char>),
    Other,
}

impl View for RawField {
    type V = RawFieldView;

    open spec fn view(&self) -> RawFieldView {
        match self {
            RawField::Int(n) => RawFieldView::Int(*n),
            RawField::Text(t) => RawFieldView::Text(t@),
            RawField::Other => RawFieldView::Other,
        }
    }
}

/// One candlestick. The float-valued fields hold their decimal text as sent.
#[derive(Debug, Clone)]
pub struct Kline {
    pub open_time: i64,
    pub open: String,
    pub high: String,
    pub low: String,
    pub close: String,
    pub volume: String,
    pub close_time: i64,
    pub quote_asset_volume: String,
    pub number_of_trades: i32,
    pub taker_buy_base_asset_volume: String,
    pub taker_buy_quote_asset_volume: String,
    pub ignore: String,
}

pub struct KlineView {
    pub open_time: i64,
    pub open: Seq<char>,
    pub high: Seq<char>,
    pub low: Seq<char>,
    pub close: Seq<char>,
    pub volume: Seq<char>,
    pub close_time: i64,
    pub quote_asset_volume: Seq<char>,
    pub number_of_trades: i32,
    pub taker_buy_base_asset_volume: Seq<char>,
    pub taker_buy_quote_asset_volume: Seq<char>,
    pub ignore: Seq<char>,
}

impl View for Kline {
    type V = KlineView;

    open spec fn view(&self) -> KlineView {
        KlineView {
            open_time: self.open_time,
            open: self.open@,
            high: self.high@,
            low: self.low@,
            close: self.close@,
            volume: self.volume@,
            close_time: self.close_time,
            quote_asset_volume: self.quote_asset_volume@,
            number_of_trades: self.number_of_trades,
            taker_buy_base_asset_volume: self.taker_buy_base_asset_volume@,
            taker_buy_quote_asset_volume: self.taker_buy_quote_asset_volume@,
            ignore: self.ignore@,
        }
    }
}

/// The number of positional elements in a raw row.
pub const ROW_LEN: usize = 12;

pub open spec fn int_field(f: RawFieldView) -> Option<i64> {
    match f {
        RawFieldView::Int(n) => Some(n),
        _ => None,
    }
}

/// An integer that fits in 32 bits.
pub open spec fn int32_field(f: RawFieldView) -> Option<i32> {
    match f {
        RawFieldView::Int(n) => if i32::MIN <= n <= i32::MAX {
            Some(n as i32)
        } else {
            None
        },
        _ => None,
    }
}

/// A string in decimal notation.
pub open spec fn decimal_field(f: RawFieldView) -> Option<Seq<char>> {
    match f {
        RawFieldView::Text(t) => if is_decimal_text(t) {
            Some(t)
        } else {
            None
        },
        _ => None,
    }
}

/// Twelve elements, each of the shape its position asks for.
pub open spec fn row_is_valid(row: Seq<RawFieldView>) -> bool {
    &&& row.len() == ROW_LEN
    &&& int_field(row[0]) is Some
    &&& decimal_field(row[1]) is Some
    &&& decimal_field(row[2]) is Some
    &&& decimal_field(row[3]) is Some
    &&& decimal_field(row[4]) is Some
    &&& decimal_field(row[5]) is Some
    &&& int_field(row[6]) is Some
    &&& decimal_field(row[7]) is Some
    &&& int32_field(row[8]) is Some
    &&& decimal_field(row[9]) is Some
    &&& decimal_field(row[10]) is Some
    &&& decimal_field(row[11]) is Some
}

/// The kline that a valid row stands for: position i gives the i-th field.
pub open spec fn kline_of_row(row: Seq<RawFieldView>) -> KlineView {
    KlineView {
        open_time: int_field(row[0])->0,
        open: decimal_field(row[1])->0,
        high: decimal_field(row[2])->0,
        low: decimal_field(row[3])->0,
        close: decimal_field(row[4])->0,
        volume: decimal_field(row[5])->0,
        close_time: int_field(row[6])->0,
        quote_asset_volume: decimal_field(row[7])->0,
        number_of_trades: int32_field(row[8])->0,
        taker_buy_base_asset_volume: decimal_field(row[9])->0,
        taker_buy_quote_asset_volume: decimal_field(row[10])->0,
        ignore: decimal_field(row[11])->0,
    }
}

pub open spec fn decode_row_spec(row: Seq<RawFieldView>) -> Option<KlineView> {
    if row_is_valid(row) {
        Some(kline_of_row(row))
    } else {
        None
    }
}

pub open spec fn row_view(row: Seq<RawField>) -> Seq<RawFieldView> {
    row.map_values(|f: RawField| f@)
}

pub open spec fn rows_view(rows: Seq<Vec<RawField>>) -> Seq<Seq<RawFieldView>> {
    rows.map_values(|r: Vec<RawField>| row_view(r@))
}

pub open spec fn klines_view(ks: Seq<Kline>) -> Seq<KlineView> {
    ks.map_values(|k: Kline| k@)
}

pub open spec fn rows_are_valid(rows: Seq<Seq<RawFieldView>>) -> bool {
    forall|i: int| 0 <= i < rows.len() ==> row_is_valid(#[trigger] rows[i])
}

/// All rows decoded in order, or nothing if any row is malformed.
pub open spec fn decode_rows_spec(rows: Seq<Seq<RawFieldView>>) -> Option<Seq<KlineView>> {
    if rows_are_valid(rows) {
        Some(rows.map_values(|r: Seq<RawFieldView>| kline_of_row(r)))
    } else {
        None
    }
}

fn read_int(f: &RawField) -> (r: Option<i64>)
    ensures
        r == int_field(f@),
{
    match f {
        RawField::Int(n) => Some(*n),
        _ => None,
    }
}

fn read_int32(f: &RawField) -> (r: Option<i32>)
    ensures
        r == int32_field(f@),
{
    match f {
        RawField::Int(n) => if i32::MIN as i64 <= *n && *n <= i32::MAX as i64 {
            Some(*n as i32)
        } else {
            None
        },
        _ => None,
    }
}

fn read_decimal(f: &RawField) -> (r: Option<String>)
    ensures
        match r {
            Some(t) => decimal_field(f@) == Some(t@),
            None => decimal_field(f@) is None,
        },
{
    match f {
        RawField::Text(t) => if is_decimal(t.as_str()) {
            Some(t.clone())
        } else {
            None
        },
        _ => None,
    }
}

/// Decodes one raw row into a kline.
pub fn decode_row(row: &Vec<RawField>) -> (r: Result<Kline, KlineError>)
    ensures
        match r {
            Ok(k) => decode_row_spec(row_view(row@)) == Some(k@),
            Err(e) => e == KlineError::MalformedRow && decode_row_spec(row_view(row@)) is None,
        },
{
    let ghost v = row_view(row@);
    if row.len() != ROW_LEN {
        return Err(KlineError::MalformedRow);
    }
    assert(forall|i: int| 0 <= i < 12 ==> v[i] == (#[trigger] row@[i])@);
    let open_time = match read_int(&row[0]) {
        Some(x) => x,
        None => return Err(KlineError::MalformedRow),
    };
    let open = match read_decimal(&row[1]) {
        Some(x) => x,
        None => return Err(KlineError::MalformedRow),
    };
    let high = match read_decimal(&row[2]) {
        Some(x) => x,
        None => return Err(KlineError::MalformedRow),
    };
    let low = match read_decimal(&row[3]) {
        Some(x) => x,
        None => return Err(KlineError::MalformedRow),
    };
    let close = match read_decimal(&row[4]) {
        Some(x) => x,
        None => return Err(KlineError::MalformedRow),
    };
    let volume = match read_decimal(&row[5]) {
        Some(x) => x,
        None => return Err(KlineError::MalformedRow),
    };
    let close_time = match read_int(&row[6]) {
        Some(x) => x,
        None => return Err(KlineError::MalformedRow),
    };
    let quote_asset_volume = match read_decimal(&row[7]) {
        Some(x) => x,
        None => return Err(KlineError::MalformedRow),
    };
    let number_of_trades = match read_int32(&row[8]) {
        Some(x) => x,
        None => return Err(KlineError::MalformedRow),
    };
    let taker_buy_base_asset_volume = match read_decimal(&row[9]) {
        Some(x) => x,
        None => return Err(KlineError::MalformedRow),
    };
    let taker_buy_quote_asset_volume = match read_decimal(&row[10]) {
        Some(x) => x,
        None => return Err(KlineError::MalformedRow),
    };
    let ignore = match read_decimal(&row[11]) {
        Some(x) => x,
        None => return Err(KlineError::MalformedRow),
    };
    Ok(
        Kline {
            open_time,
            open,
            high,
            low,
            close,
            volume,
            close_time,
            quote_asset_volume,
            number_of_trades,
            taker_buy_base_asset_volume,
            taker_buy_quote_asset_volume,
            ignore,
        },
    )
}

/// Decodes every row of a response, in order; the first malformed row fails
/// the whole batch.
pub fn convert_response_to_kline_struct(response: Vec<Vec<RawField>>) -> (r: Result<
    Vec<Kline>,
    KlineError,
>)
    ensures
        match r {
            Ok(ks) => decode_rows_spec(rows_view(response@)) == Some(klines_view(ks@)),
            Err(e) => e == KlineError::MalformedRow && decode_rows_spec(rows_view(response@)) is None,
        },
{
    let ghost rows = rows_view(response@);
    let mut out: Vec<Kline> = Vec::new();
    let mut i: usize = 0;
    while i < response.len()
        invariant
            i <= response.len(),
            rows == rows_view(response@),
            out@.len() == i,
            forall|j: int| 0 <= j < i ==> row_is_valid(#[trigger] rows[j]),
            forall|j: int| 0 <= j < i ==> (#[trigger] out@[j])@ == kline_of_row(rows[j]),
        decreases response.len() - i,
    {
        match decode_row(&response[i]) {
            Ok(k) => {
                out.push(k);
            },
            Err(e) => {
                assert(!row_is_valid(rows[i as int]));
                return Err(e);
            },
        }
        i = i + 1;
    }
    assert(klines_view(out@) =~= rows.map_values(|r: Seq<RawFieldView>| kline_of_row(r)));
    Ok(out)
}

} // verus!
