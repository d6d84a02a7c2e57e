//! The alternative-data endpoints: earnings, economic events and
//! sentiment.

use vstd::prelude::*;

use crate::datetime::{date_chars, format_date, valid_date, EODHDDate};

verus! {

/// Whether an earnings report lands before or after the market day.
#[derive(Clone, Copy, Debug, PartialEq, Eq, Structural)]
pub enum EODHDBeforeAfterMarket {
    BeforeMarket,
    AfterMarket,
}

/// What an economic figure is compared against.
#[derive(Clone, Copy, Debug, PartialEq, Eq, Structural)]
pub enum EODHDEconomicEventComparison {
    MOM,
    QOQ,
    YOY,
}

/// The query value that names a comparison.
pub open spec fn comparison_chars(c: EODHDEconomicEventComparison) -> Seq<char> {
    match c {
        EODHDEconomicEventComparison::MOM => "mom"@,
        EODHDEconomicEventComparison::QOQ => "qoq"@,
        EODHDEconomicEventComparison::YOY => "yoy"@,
    }
}

impl EODHDEconomicEventComparison {
    /// The query value that names this comparison.
    pub fn to_string(&self) -> (r: String)
        ensures
            r@ == comparison_chars(*self),
    {
        match self {
            EODHDEconomicEventComparison::MOM => String::from_str("mom"),
            EODHDEconomicEventComparison::QOQ => String::from_str("qoq"),
            EODHDEconomicEventComparison::YOY => String::from_str("yoy"),
        }
    }
}

/// What an earnings request may be narrowed by.
pub struct EODHDEarningsFilter {
    /// The first report date wanted; the server defaults to today.
    pub from: Option<EODHDDate>,
    /// The last report date wanted; the server defaults to a week out.
    pub to: Option<EODHDDate>,
    /// The symbols wanted.
    pub symbols: Option<Vec<String>>,
}

/// Whether every date an earnings filter holds can be rendered.
pub open spec fn valid_earnings_filter(f: EODHDEarningsFilter) -> bool {
    &&& (f.from matches Some(d) ==> valid_date(d))
    &&& (f.to matches Some(d) ==> valid_date(d))
}

/// The symbols list as it stands in the query: a comma before every
/// symbol, first one included.
pub open spec fn symbols_chars(ss: Seq<Seq<char>>) -> Seq<char>
    decreases ss.len(),
{
    if ss.len() == 0 {
        Seq::empty()
    } else {
        symbols_chars(ss.drop_last()) + ","@ + ss.last()
    }
}

/// The views of a list of symbols.
pub open spec fn symbol_views(ss: Seq<String>) -> Seq<Seq<char>> {
    ss.map_values(|s: String| s@)
}

/// The query fragment an earnings filter contributes.
pub open spec fn earnings_filter_chars(f: EODHDEarningsFilter) -> Seq<char> {
    (match f.from {
        Some(d) => "&from="@ + date_chars(d),
        None => Seq::<char>::empty(),
    }) + (match f.to {
        Some(d) => "&to="@ + date_chars(d),
        None => Seq::<char>::empty(),
    }) + (match f.symbols {
        Some(ss) => "&symbols="@ + symbols_chars(symbol_views(ss@)),
        None => Seq::<char>::empty(),
    })
}

/// The request URL for the earnings calendar.
pub open spec fn earnings_url_chars(token: Seq<char>, f: Option<EODHDEarningsFilter>) -> Seq<
    char,
> {
    "https://eodhistoricaldata.com/api/calendar/earnings"@ + "?api_token="@ + token + "&fmt=json"@
        + (match f {
        Some(f) => earnings_filter_chars(f),
        None => Seq::<char>::empty(),
    })
}

/// Builds the request URL for the earnings calendar.
pub fn earnings_url(token: &str, filter: &Option<EODHDEarningsFilter>) -> (r: String)
    requires
        (*filter matches Some(f) ==> valid_earnings_filter(f)),
    ensures
        r@ == earnings_url_chars(token@, *filter),
{
    let mut out = String::from_str("https://eodhistoricaldata.com/api/calendar/earnings");
    out.append("?api_token=");
    out.append(token);
    out.append("&fmt=json");
    match filter {
        None => {
            proof {
                assert(out@ =~= earnings_url_chars(token@, *filter));
            }
        },
        Some(f) => {
            if let Some(d) = &f.from {
                out.append("&from=");
                let ds = format_date(d);
                out.append(ds.as_str());
            }
            if let Some(d) = &f.to {
                out.append("&to=");
                let ds = format_date(d);
                out.append(ds.as_str());
            }
            if let Some(ss) = &f.symbols {
                out.append("&symbols=");
                let ghost base = out@;
                let mut i: usize = 0;
                while i < ss.len()
                    invariant
                        0 <= i <= ss@.len(),
                        out@ == base + symbols_chars(symbol_views(ss@).take(i as int)),
                    decreases ss@.len() - i,
                {
                    out.append(",");
                    out.append(ss[i].as_str());
                    proof {
                        assert(symbol_views(ss@).take(i + 1).drop_last() =~= symbol_views(
                            ss@,
                        ).take(i as int));
                        assert(symbol_views(ss@).take(i + 1).last() == ss@[i as int]@);
                        assert(out@ =~= base + symbols_chars(symbol_views(ss@).take(i + 1)));
                    }
                    i = i + 1;
                }
                proof {
                    assert(symbol_views(ss@).take(ss@.len() as int) =~= symbol_views(ss@));
                }
            }
            proof {
                assert(out@ =~= earnings_url_chars(token@, *filter));
            }
        },
    }
    out
}

/// The request URL for economic events in a date range.
pub open spec fn economic_events_url_chars(
    token: Seq<char>,
    from: EODHDDate,
    to: EODHDDate,
) -> Seq<char> {
    "https://eodhistoricaldata.com/api"@ + "/economic-events?api_token="@ + token + "&from="@
        + date_chars(from) + "&to="@ + date_chars(to)
}

/// Builds the request URL for economic events in a date range.
pub fn economic_events_url(token: &str, from: &EODHDDate, to: &EODHDDate) -> (r: String)
    requires
        valid_date(*from),
        valid_date(*to),
    ensures
        r@ == economic_events_url_chars(token@, *from, *to),
{
    let mut out = String::from_str("https://eodhistoricaldata.com/api");
    out.append("/economic-events?api_token=");
    out.append(token);
    out.append("&from=");
    let fs = format_date(from);
    out.append(fs.as_str());
    out.append("&to=");
    let ts = format_date(to);
    out.append(ts.as_str());
    proof {
        assert(out@ =~= economic_events_url_chars(token@, *from, *to));
    }
    out
}

/// The request URL for sentiment of a ticker in a date range.
pub open spec fn sentiment_url_chars(
    token: Seq<char>,
    ticker: Seq<char>,
    from: EODHDDate,
    to: EODHDDate,
) -> Seq<char> {
    "https://eodhistoricaldata.com/api"@ + "/sentiments?api_token="@ + token + "&s="@ + ticker
        + "&from="@ + date_chars(from) + "&to="@ + date_chars(to)
}

/// Builds the request URL for sentiment of a ticker in a date range.
pub fn sentiment_url(token: &str, ticker: &str, from: &EODHDDate, to: &EODHDDate) -> (r: String)
    requires
        valid_date(*from),
        valid_date(*to),
    ensures
        r@ == sentiment_url_chars(token@, ticker@, *from, *to),
{
    let mut out = String::from_str("https://eodhistoricaldata.com/api");
    out.append("/sentiments?api_token=");
    out.append(token);
    out.append("&s=");
    out.append(ticker);
    out.append("&from=");
    let fs = format_date(from);
    out.append(fs.as_str());
    out.append("&to=");
    let ts = format_date(to);
    out.append(ts.as_str());
    proof {
        assert(out@ =~= sentiment_url_chars(token@, ticker@, *from, *to));
    }
    out
}

} // verus!
