//! The intraday-history endpoint: bars at minute or hour resolution.

use vstd::prelude::*;

use crate::datetime::{interval_chars, EODHDInterval};
use crate::decimal::{dec_int, i64_to_string};

verus! {

/// What an intraday request may be narrowed by: a Unix-seconds range
/// and the bar resolution.
pub struct HistoricIntradayOptions {
    /// The first timestamp wanted, in Unix seconds.
    pub from: Option<i64>,
    /// The last timestamp wanted, in Unix seconds.
    pub to: Option<i64>,
    /// The bar resolution.
    pub interval: EODHDInterval,
}

/// The request URL for intraday bars.
pub open spec fn historic_intraday_url_chars(
    ticker: Seq<char>,
    token: Seq<char>,
    o: HistoricIntradayOptions,
) -> Seq<char> {
    "https://eodhistoricaldata.com/api"@ + "/intraday/"@ + ticker + "?api_token="@ + token
        + "&fmt=json&interval="@ + interval_chars(o.interval) + (match o.from {
        Some(t) => "&from="@ + dec_int(t as int),
        None => Seq::<char>::empty(),
    }) + (match o.to {
        Some(t) => "&to="@ + dec_int(t as int),
        None => Seq::<char>::empty(),
    })
}

/// Builds the request URL for intraday bars of a ticker.
pub fn historic_intraday_url(ticker: &str, token: &str, options: &HistoricIntradayOptions) -> (r:
    String)
    ensures
        r@ == historic_intraday_url_chars(ticker@, token@, *options),
{
    let mut out = String::from_str("https://eodhistoricaldata.com/api");
    out.append("/intraday/");
    out.append(ticker);
    out.append("?api_token=");
    out.append(token);
    out.append("&fmt=json&interval=");
    let iv = options.interval.to_string();
    out.append(iv.as_str());
    if let Some(t) = options.from {
        out.append("&from=");
        let ts = i64_to_string(t);
        out.append(ts.as_str());
    }
    if let Some(t) = options.to {
        out.append("&to=");
        let ts = i64_to_string(t);
        out.append(ts.as_str());
    }
    proof {
        assert(out@ =~= historic_intraday_url_chars(ticker@, token@, *options));
    }
    out
}

} // verus!
