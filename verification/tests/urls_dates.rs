//! Dates, decimal renderings and the HTTP request URLs.

use eodhd::alternative::{
    economic_events_url, earnings_url, sentiment_url, EODHDEarningsFilter,
    EODHDEconomicEventComparison,
};
use eodhd::datetime::{
    format_date, format_datetime, parse_date, parse_datetime, EODHDDate, EODHDDateTime,
    EODHDInterval,
};
use eodhd::decimal::{i64_to_string, u64_to_string, u64_to_string_pad2, u64_to_string_pad4};
use eodhd::delayed::delayed_url;
use eodhd::end_of_period::{end_of_period_url, EODHDEndOfPeriodFilter, EODHDPeriod};
use eodhd::historic_intraday::{historic_intraday_url, HistoricIntradayOptions};
use eodhd::EODHDError;

#[test]
fn decimal_renderings_are_canonical() {
    assert_eq!(u64_to_string(0), "0");
    assert_eq!(u64_to_string(7), "7");
    assert_eq!(u64_to_string(65535), "65535");
    assert_eq!(u64_to_string(1647504300), "1647504300");
    assert_eq!(i64_to_string(0), "0");
    assert_eq!(i64_to_string(-5), "-5");
    assert_eq!(i64_to_string(1647504300), "1647504300");
    assert_eq!(i64_to_string(i64::MIN), "-9223372036854775808");
    assert_eq!(i64_to_string(i64::MAX), "9223372036854775807");
    assert_eq!(u64_to_string_pad2(3), "03");
    assert_eq!(u64_to_string_pad2(42), "42");
    assert_eq!(u64_to_string_pad4(3), "0003");
    assert_eq!(u64_to_string_pad4(42), "0042");
    assert_eq!(u64_to_string_pad4(423), "0423");
    assert_eq!(u64_to_string_pad4(2022), "2022");
}

#[test]
fn dates_format_and_parse_back() {
    let d = EODHDDate(2022, 3, 7);
    assert_eq!(format_date(&d), "2022-03-07");
    assert_eq!(parse_date("2022-03-07"), Some(d));
    assert_eq!(parse_date("0001-01-01"), Some(EODHDDate(1, 1, 1)));
    assert_eq!(parse_date("9999-12-31"), Some(EODHDDate(9999, 12, 31)));
}

#[test]
fn parse_date_refuses_other_shapes() {
    assert_eq!(parse_date(""), None);
    assert_eq!(parse_date("2022-3-7"), None);
    assert_eq!(parse_date("2022/03/07"), None);
    assert_eq!(parse_date("2022-13-07"), None);
    assert_eq!(parse_date("2022-00-07"), None);
    assert_eq!(parse_date("2022-12-32"), None);
    assert_eq!(parse_date("2022-12-00"), None);
    assert_eq!(parse_date("2022-03-07x"), None);
    assert_eq!(parse_date("x022-03-07"), None);
}

#[test]
fn datetimes_format_and_parse_back() {
    let t = EODHDDateTime {
        date: EODHDDate(2022, 3, 17),
        hour: 8,
        minute: 5,
        second: 0,
    };
    assert_eq!(format_datetime(&t), "2022-03-17 08:05:00");
    assert_eq!(parse_datetime("2022-03-17 08:05:00"), Some(t));
    assert_eq!(parse_datetime("2022-03-17T08:05:00"), None);
    assert_eq!(parse_datetime("2022-03-17 24:05:00"), None);
    assert_eq!(parse_datetime("2022-03-17 08:60:00"), None);
    assert_eq!(parse_datetime("2022-03-17 08:05"), None);
}

#[test]
fn interval_period_and_comparison_names() {
    assert_eq!(EODHDInterval::Minute.to_string(), "1m");
    assert_eq!(EODHDInterval::Minute5.to_string(), "5m");
    assert_eq!(EODHDInterval::Hour.to_string(), "1h");
    assert_eq!(EODHDPeriod::Daily.to_string(), "d");
    assert_eq!(EODHDPeriod::Weekly.to_string(), "w");
    assert_eq!(EODHDPeriod::Monthly.to_string(), "m");
    assert_eq!(EODHDEconomicEventComparison::MOM.to_string(), "mom");
    assert_eq!(EODHDEconomicEventComparison::QOQ.to_string(), "qoq");
    assert_eq!(EODHDEconomicEventComparison::YOY.to_string(), "yoy");
}

#[test]
fn delayed_url_names_the_ticker_and_token() {
    assert_eq!(
        delayed_url("AAPL.US", "tok"),
        "https://eodhistoricaldata.com/api/real-time/AAPL.US?fmt=json&api_token=tok"
    );
}

#[test]
fn end_of_period_url_without_a_filter() {
    assert_eq!(
        end_of_period_url("AAPL.US", "tok", &None),
        "https://eodhistoricaldata.com/api/eod/AAPL.US?api_token=tok&fmt=json"
    );
}

#[test]
fn end_of_period_url_with_the_full_filter() {
    let f = EODHDEndOfPeriodFilter {
        from: Some(EODHDDate(2021, 1, 4)),
        to: Some(EODHDDate(2021, 12, 31)),
        period: Some(EODHDPeriod::Weekly),
    };
    assert_eq!(
        end_of_period_url("AAPL.US", "tok", &Some(f)),
        "https://eodhistoricaldata.com/api/eod/AAPL.US?api_token=tok&fmt=json\
         &from=2021-01-04&to=2021-12-31&period=w"
    );
}

#[test]
fn historic_intraday_url_with_and_without_the_range() {
    let bare = HistoricIntradayOptions {
        from: None,
        to: None,
        interval: EODHDInterval::Hour,
    };
    assert_eq!(
        historic_intraday_url("AAPL.US", "tok", &bare),
        "https://eodhistoricaldata.com/api/intraday/AAPL.US?api_token=tok&fmt=json&interval=1h"
    );
    let ranged = HistoricIntradayOptions {
        from: Some(1647504300),
        to: Some(1647590700),
        interval: EODHDInterval::Minute5,
    };
    assert_eq!(
        historic_intraday_url("AAPL.US", "tok", &ranged),
        "https://eodhistoricaldata.com/api/intraday/AAPL.US?api_token=tok&fmt=json\
         &interval=5m&from=1647504300&to=1647590700"
    );
}

#[test]
fn earnings_url_without_a_filter() {
    assert_eq!(
        earnings_url("tok", &None),
        "https://eodhistoricaldata.com/api/calendar/earnings?api_token=tok&fmt=json"
    );
}

#[test]
fn earnings_url_with_dates_and_symbols() {
    let f = EODHDEarningsFilter {
        from: Some(EODHDDate(2022, 1, 2)),
        to: Some(EODHDDate(2022, 7, 6)),
        symbols: Some(vec!["NEX.US".to_string(), "PLL.US".to_string()]),
    };
    // Every symbol stands behind a comma, the first one included.
    assert_eq!(
        earnings_url("tok", &Some(f)),
        "https://eodhistoricaldata.com/api/calendar/earnings?api_token=tok&fmt=json\
         &from=2022-01-02&to=2022-07-06&symbols=,NEX.US,PLL.US"
    );
}

#[test]
fn economic_events_url_names_the_range() {
    assert_eq!(
        economic_events_url("tok", &EODHDDate(2022, 1, 1), &EODHDDate(2022, 2, 1)),
        "https://eodhistoricaldata.com/api/economic-events?api_token=tok\
         &from=2022-01-01&to=2022-02-01"
    );
}

#[test]
fn sentiment_url_names_ticker_and_range() {
    assert_eq!(
        sentiment_url("tok", "AAPL.US", &EODHDDate(2022, 1, 1), &EODHDDate(2022, 2, 1)),
        "https://eodhistoricaldata.com/api/sentiments?api_token=tok&s=AAPL.US\
         &from=2022-01-01&to=2022-02-01"
    );
}

#[test]
fn the_error_shows_its_description() {
    let e = EODHDError {
        description: "request failed".to_string(),
        inner_error: "connection refused".to_string(),
    };
    assert_eq!(e.to_string(), "request failed");
}
