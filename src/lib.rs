//! Candlestick (kline) market data: the request for a range of klines, the
//! decoding of the positional rows of the response into typed records, and
//! their transposition into a table of named columns.
use vstd::prelude::*;

pub mod decimal;
pub mod kline;
pub mod laws;
pub mod query;
pub mod table;

verus! {

/// Errors of the fetch, decode and tabulate pipeline.
#[derive(Debug, Clone, Copy, PartialEq, Eq, Structural)]
pub enum KlineError {
    FetchFailed,
    MalformedRow,
    TableBuildFailed,
}

} // verus!
