//! The end-of-period endpoint: daily, weekly or monthly bars.

use vstd::prelude::*;

use crate::datetime::{date_chars, format_date, valid_date, EODHDDate};

verus! {

/// The aggregation period of a bar.
#[derive(Clone, Copy, Debug, PartialEq, Eq, Structural)]
pub enum EODHDPeriod {
    Daily,
    Weekly,
    Monthly,
}

/// The query value that names a period.
pub open spec fn period_chars(p: EODHDPeriod) -> Seq<char> {
    match p {
        EODHDPeriod::Daily => "d"@,
        EODHDPeriod::Weekly => "w"@,
        EODHDPeriod::Monthly => "m"@,
    }
}

impl EODHDPeriod {
    /// The query value that names this period.
    pub fn to_string(&self) -> (r: String)
        ensures
            r@ == period_chars(*self),
    {
        match self {
            EODHDPeriod::Daily => String::from_str("d"),
            EODHDPeriod::Weekly => String::from_str("w"),
            EODHDPeriod::Monthly => String::from_str("m"),
        }
    }
}

/// What an end-of-period request may be narrowed by.
pub struct EODHDEndOfPeriodFilter {
    /// The first date wanted.
    pub from: Option<EODHDDate>,
    /// The last date wanted; the server defaults to today.
    pub to: Option<EODHDDate>,
    /// The period; the server defaults to daily.
    pub period: Option<EODHDPeriod>,
}

/// Whether every date a filter holds can be rendered.
pub open spec fn valid_end_of_period_filter(f: EODHDEndOfPeriodFilter) -> bool {
    &&& (f.from matches Some(d) ==> valid_date(d))
    &&& (f.to matches Some(d) ==> valid_date(d))
}

/// The query fragment a filter contributes.
pub open spec fn end_of_period_filter_chars(f: EODHDEndOfPeriodFilter) -> Seq<char> {
    (match f.from {
        Some(d) => "&from="@ + date_chars(d),
        None => Seq::<char>::empty(),
    }) + (match f.to {
        Some(d) => "&to="@ + date_chars(d),
        None => Seq::<char>::empty(),
    }) + (match f.period {
        Some(p) => "&period="@ + period_chars(p),
        None => Seq::<char>::empty(),
    })
}

/// The request URL for end-of-period bars.
pub open spec fn end_of_period_url_chars(
    ticker: Seq<char>,
    token: Seq<char>,
    f: Option<EODHDEndOfPeriodFilter>,
) -> Seq<char> {
    "https://eodhistoricaldata.com/api/eod"@ + "/"@ + ticker + "?api_token="@ + token
        + "&fmt=json"@ + (match f {
        Some(f) => end_of_period_filter_chars(f),
        None => Seq::<char>::empty(),
    })
}

/// Builds the request URL for end-of-period bars of a ticker.
pub fn end_of_period_url(ticker: &str, token: &str, filter: &Option<EODHDEndOfPeriodFilter>) -> (r:
    String)
    requires
        (*filter matches Some(f) ==> valid_end_of_period_filter(f)),
    ensures
        r@ == end_of_period_url_chars(ticker@, token@, *filter),
{
    let mut out = String::from_str("https://eodhistoricaldata.com/api/eod");
    out.append("/");
    out.append(ticker);
    out.append("?api_token=");
    out.append(token);
    out.append("&fmt=json");
    match filter {
        None => {
            proof {
                assert(out@ =~= end_of_period_url_chars(ticker@, token@, *filter));
            }
        },
        Some(f) => {
            if let Some(d) = &f.from {
                out.append("&from=");
                let ds = format_date(d);
                out.append(ds.as_str());
            }
            if let Some(d) = &f.to {
                out.append("&to=");
                let ds = format_date(d);
                out.append(ds.as_str());
            }
            if let Some(p) = &f.period {
                out.append("&period=");
                let ps = p.to_string();
                out.append(ps.as_str());
            }
            proof {
                assert(out@ =~= end_of_period_url_chars(ticker@, token@, *filter));
            }
        },
    }
    out
}

} // verus!
