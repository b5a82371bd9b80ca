use kline_table::decimal::is_decimal;
use kline_table::kline::{convert_response_to_kline_struct, decode_row, Kline, RawField};
use kline_table::query::klines_url;
use kline_table::table::{ColumnData, Klines, Table};
use kline_table::KlineError;

fn text(s: &str) -> RawField {
    RawField::Text(s.to_string())
}

fn sample_row(open_time: i64) -> Vec<RawField> {
    vec![
        RawField::Int(open_time),
        text("100.5"),
        text("101.0"),
        text("99.8"),
        text("100.9"),
        text("10.0"),
        RawField::Int(open_time + 3599999),
        text("1005.0"),
        RawField::Int(42),
        text("5.0"),
        text("502.5"),
        text("0"),
    ]
}

fn as_f64(s: &str) -> f64 {
    s.parse::<f64>().unwrap()
}

const NAMES: [&str; 12] = [
    "open_time",
    "open",
    "high",
    "low",
    "close",
    "volume",
    "close_time",
    "quote_asset_volume",
    "number_of_trades",
    "taker_buy_base_asset_volume",
    "taker_buy_quote_asset_volume",
    "ignore",
];

fn column_len(data: &ColumnData) -> usize {
    match data {
        ColumnData::Int64(v) => v.len(),
        ColumnData::Int32(v) => v.len(),
        ColumnData::Decimal(v) => v.len(),
    }
}

fn tabulate(ks: Vec<Kline>) -> Table {
    Klines { klines: ks }.klines_to_dataframe()
}

#[test]
fn positional_mapping() {
    let k = decode_row(&sample_row(1700000000000)).unwrap();
    assert_eq!(k.open_time, 1700000000000);
    assert_eq!(as_f64(&k.open), 100.5);
    assert_eq!(as_f64(&k.high), 101.0);
    assert_eq!(as_f64(&k.low), 99.8);
    assert_eq!(as_f64(&k.close), 100.9);
    assert_eq!(as_f64(&k.volume), 10.0);
    assert_eq!(k.close_time, 1700003599999);
    assert_eq!(as_f64(&k.quote_asset_volume), 1005.0);
    assert_eq!(k.number_of_trades, 42);
    assert_eq!(as_f64(&k.taker_buy_base_asset_volume), 5.0);
    assert_eq!(as_f64(&k.taker_buy_quote_asset_volume), 502.5);
    assert_eq!(as_f64(&k.ignore), 0.0);
    assert_eq!(k.open, "100.5");
    assert_eq!(k.ignore, "0");
}

#[test]
fn eleven_elements_rejected() {
    let mut row = sample_row(1700000000000);
    row.pop();
    assert_eq!(decode_row(&row).unwrap_err(), KlineError::MalformedRow);
}

#[test]
fn thirteen_elements_rejected() {
    let mut row = sample_row(1700000000000);
    row.push(text("1"));
    assert_eq!(decode_row(&row).unwrap_err(), KlineError::MalformedRow);
}

#[test]
fn numeric_open_rejected() {
    let mut row = sample_row(1700000000000);
    row[1] = RawField::Int(100);
    assert_eq!(decode_row(&row).unwrap_err(), KlineError::MalformedRow);
}

#[test]
fn textual_open_time_rejected() {
    let mut row = sample_row(1700000000000);
    row[0] = text("1700000000000");
    assert_eq!(decode_row(&row).unwrap_err(), KlineError::MalformedRow);
}

#[test]
fn non_integer_close_time_rejected() {
    let mut row = sample_row(1700000000000);
    row[6] = RawField::Other;
    assert_eq!(decode_row(&row).unwrap_err(), KlineError::MalformedRow);
}

#[test]
fn unparsable_price_rejected() {
    let mut row = sample_row(1700000000000);
    row[4] = text("12.3.4");
    assert_eq!(decode_row(&row).unwrap_err(), KlineError::MalformedRow);
}

#[test]
fn trade_count_beyond_i32_rejected() {
    let mut row = sample_row(1700000000000);
    row[8] = RawField::Int(i32::MAX as i64 + 1);
    assert_eq!(decode_row(&row).unwrap_err(), KlineError::MalformedRow);
    row[8] = RawField::Int(i32::MAX as i64);
    assert_eq!(decode_row(&row).unwrap().number_of_trades, i32::MAX);
}

#[test]
fn one_bad_row_fails_the_batch() {
    let mut rows: Vec<Vec<RawField>> = (0..1000).map(|i| sample_row(1700000000000 + i)).collect();
    assert_eq!(convert_response_to_kline_struct(rows.clone()).unwrap().len(), 1000);
    rows[500].pop();
    assert_eq!(convert_response_to_kline_struct(rows.clone()).unwrap_err(), KlineError::MalformedRow);
    let mut rows: Vec<Vec<RawField>> = (0..1000).map(|i| sample_row(1700000000000 + i)).collect();
    rows[999][1] = RawField::Int(7);
    assert_eq!(convert_response_to_kline_struct(rows).unwrap_err(), KlineError::MalformedRow);
}

#[test]
fn empty_response_decodes_to_nothing() {
    assert!(convert_response_to_kline_struct(Vec::new()).unwrap().is_empty());
}

#[test]
fn empty_table() {
    let t = tabulate(Vec::new());
    assert_eq!(t.columns.len(), 12);
    for c in &t.columns {
        assert_eq!(column_len(&c.data), 0);
    }
}

#[test]
fn column_names_fixed() {
    let empty = tabulate(Vec::new());
    let rows: Vec<Vec<RawField>> = (0..3).map(|i| sample_row(1700000000000 + i)).collect();
    let full = tabulate(convert_response_to_kline_struct(rows).unwrap());
    for t in [&empty, &full] {
        let names: Vec<&str> = t.columns.iter().map(|c| c.name.as_str()).collect();
        assert_eq!(names, NAMES.to_vec());
    }
}

#[test]
fn column_types() {
    let t = tabulate(vec![decode_row(&sample_row(1)).unwrap()]);
    for (i, c) in t.columns.iter().enumerate() {
        match (&c.data, i) {
            (ColumnData::Int64(_), 0) | (ColumnData::Int64(_), 6) | (ColumnData::Int32(_), 8) => {}
            (ColumnData::Decimal(_), i) if i != 0 && i != 6 && i != 8 => {}
            _ => panic!("column {} has the wrong type", i),
        }
    }
}

#[test]
fn row_count_round_trip() {
    let rows: Vec<Vec<RawField>> = (0..7).map(|i| sample_row(1700000000000 + i)).collect();
    let t = tabulate(convert_response_to_kline_struct(rows).unwrap());
    assert_eq!(t.columns.len(), 12);
    for c in &t.columns {
        assert_eq!(column_len(&c.data), 7);
    }
}

#[test]
fn table_rows_follow_klines() {
    let mut second = sample_row(1700003600000);
    second[4] = text("98.25");
    second[8] = RawField::Int(7);
    let ks = convert_response_to_kline_struct(vec![sample_row(1700000000000), second]).unwrap();
    let t = tabulate(ks);
    match &t.columns[0].data {
        ColumnData::Int64(v) => assert_eq!(v, &vec![1700000000000, 1700003600000]),
        _ => panic!("open_time is not an i64 column"),
    }
    match &t.columns[6].data {
        ColumnData::Int64(v) => assert_eq!(v, &vec![1700003599999, 1700007199999]),
        _ => panic!("close_time is not an i64 column"),
    }
    match &t.columns[4].data {
        ColumnData::Decimal(v) => assert_eq!(v, &vec!["100.9".to_string(), "98.25".to_string()]),
        _ => panic!("close is not a decimal column"),
    }
    match &t.columns[8].data {
        ColumnData::Int32(v) => assert_eq!(v, &vec![42, 7]),
        _ => panic!("number_of_trades is not an i32 column"),
    }
}

#[test]
fn open_time_order_preserved() {
    let times: Vec<i64> = vec![1700000000000, 1700003600000, 1700007200000, 1700010800000];
    let rows: Vec<Vec<RawField>> = times.iter().map(|&t| sample_row(t)).collect();
    let t = tabulate(convert_response_to_kline_struct(rows).unwrap());
    match &t.columns[0].data {
        ColumnData::Int64(v) => {
            assert_eq!(v, &times);
            assert!(v.windows(2).all(|w| w[0] < w[1]));
        }
        _ => panic!("open_time is not an i64 column"),
    }
}

#[test]
fn decimal_notation() {
    for s in ["0", "100.5", "-1", "+2.", ".5", "1e10", "1.5E-3", "6.02e+23", "00012"] {
        assert!(is_decimal(s), "{} should be accepted", s);
    }
    for s in ["", ".", "+", "-.", "1.2.3", "e5", "1e", "1e+", "1e2.5", "abc", "1 ", " 1", "--1", "1_000", "0x10"] {
        assert!(!is_decimal(s), "{} should be rejected", s);
    }
}

#[test]
fn request_url() {
    assert_eq!(
        klines_url("ETHUSDT", "1h", 1000),
        "https://api.binance.com/api/v3/klines?symbol=ETHUSDT&interval=1h&limit=1000"
    );
    assert_eq!(
        klines_url("BTCUSDT", "1s", 0),
        "https://api.binance.com/api/v3/klines?symbol=BTCUSDT&interval=1s&limit=0"
    );
    assert_eq!(
        klines_url("X", "1d", u32::MAX),
        "https://api.binance.com/api/v3/klines?symbol=X&interval=1d&limit=4294967295"
    );
}

#[test]
fn column_by_name() {
    let rows: Vec<Vec<RawField>> = (0..2).map(|i| sample_row(1700000000000 + i)).collect();
    let t = tabulate(convert_response_to_kline_struct(rows).unwrap());
    match &t.column("number_of_trades").unwrap().data {
        ColumnData::Int32(v) => assert_eq!(v, &vec![42, 42]),
        _ => panic!("number_of_trades is not an i32 column"),
    }
    assert_eq!(t.column("ignore").unwrap().name, "ignore");
    assert!(t.column("price").is_none());
}
