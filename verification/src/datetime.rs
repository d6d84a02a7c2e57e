//! Calendar dates and timestamps in the textual forms the EODHD
//! service exchanges: `YYYY-MM-DD` for dates and
//! `YYYY-MM-DD HH:MM:SS` for timestamps.

use vstd::prelude::*;

use crate::decimal::{
    all_digits, dec_val, lemma_dec_digits_len, lemma_padded_of_val, lemma_padded_props,
    lemma_pow10_small, padded, read_digits, u64_to_string_pad2, u64_to_string_pad4,
};

verus! {

/// A calendar date as year, month and day.
#[derive(Clone, Copy, Debug, PartialEq, Eq, Structural)]
pub struct EODHDDate(pub i32, pub u32, pub u32);

/// The ranges within which a date can be rendered and exchanged.
pub open spec fn valid_date(d: EODHDDate) -> bool {
    &&& 0 <= d.0 <= 9999
    &&& 1 <= d.1 <= 12
    &&& 1 <= d.2 <= 31
}

/// The `YYYY-MM-DD` rendering of a date.
pub open spec fn date_chars(d: EODHDDate) -> Seq<char> {
    padded(d.0 as nat, 4) + seq!['-'] + padded(d.1 as nat, 2) + seq!['-'] + padded(d.2 as nat, 2)
}

/// Where each part of a date stands in its rendering.
pub proof fn lemma_date_chars_parts(d: EODHDDate)
    requires
        valid_date(d),
    ensures
        date_chars(d).len() == 10,
        date_chars(d).subrange(0, 4) == padded(d.0 as nat, 4),
        date_chars(d)[4] == '-',
        date_chars(d).subrange(5, 7) == padded(d.1 as nat, 2),
        date_chars(d)[7] == '-',
        date_chars(d).subrange(8, 10) == padded(d.2 as nat, 2),
        all_digits(date_chars(d).subrange(0, 4)),
        all_digits(date_chars(d).subrange(5, 7)),
        all_digits(date_chars(d).subrange(8, 10)),
        dec_val(date_chars(d).subrange(0, 4)) == d.0,
        dec_val(date_chars(d).subrange(5, 7)) == d.1,
        dec_val(date_chars(d).subrange(8, 10)) == d.2,
{
    lemma_dec_digits_len(d.0 as nat);
    lemma_dec_digits_len(d.1 as nat);
    lemma_dec_digits_len(d.2 as nat);
    lemma_padded_props(d.0 as nat, 4);
    lemma_padded_props(d.1 as nat, 2);
    lemma_padded_props(d.2 as nat, 2);
    assert(date_chars(d).subrange(0, 4) =~= padded(d.0 as nat, 4));
    assert(date_chars(d).subrange(5, 7) =~= padded(d.1 as nat, 2));
    assert(date_chars(d).subrange(8, 10) =~= padded(d.2 as nat, 2));
}

/// Renders a date as `YYYY-MM-DD`.
pub fn format_date(d: &EODHDDate) -> (r: String)
    requires
        valid_date(*d),
    ensures
        r@ == date_chars(*d),
{
    let mut out = u64_to_string_pad4(d.0 as u64);
    out.append("-");
    let mo = u64_to_string_pad2(d.1 as u64);
    out.append(mo.as_str());
    out.append("-");
    let dd = u64_to_string_pad2(d.2 as u64);
    out.append(dd.as_str());
    proof {
        reveal_strlit("-");
        assert(out@ =~= date_chars(*d));
    }
    out
}

/// Reads a date back from its `YYYY-MM-DD` rendering; nothing is
/// returned for any other shape.
pub fn parse_date(s: &str) -> (r: Option<EODHDDate>)
    ensures
        r matches Some(d) ==> valid_date(d) && s@ == date_chars(d),
        forall|d: EODHDDate| valid_date(d) && s@ == date_chars(d) ==> r == Some(d),
{
    let n = s.unicode_len();
    if n != 10 {
        proof {
            assert forall|d: EODHDDate| valid_date(d) && s@ == date_chars(d) implies false by {
                lemma_date_chars_parts(d);
            }
        }
        return None;
    }
    if s.get_char(4) != '-' || s.get_char(7) != '-' {
        proof {
            assert forall|d: EODHDDate| valid_date(d) && s@ == date_chars(d) implies false by {
                lemma_date_chars_parts(d);
            }
        }
        return None;
    }
    let y = read_digits(s, 0, 4);
    let mo = read_digits(s, 5, 2);
    let dd = read_digits(s, 8, 2);
    match (y, mo, dd) {
        (Some(y), Some(mo), Some(dd)) => {
            if 1 <= mo && mo <= 12 && 1 <= dd && dd <= 31 {
                let d = EODHDDate(y as i32, mo as u32, dd as u32);
                proof {
                    lemma_pow10_small();
                    lemma_padded_of_val(s@.subrange(0, 4));
                    lemma_padded_of_val(s@.subrange(5, 7));
                    lemma_padded_of_val(s@.subrange(8, 10));
                    assert(padded(d.0 as nat, 4) == s@.subrange(0, 4));
                    assert(padded(d.1 as nat, 2) == s@.subrange(5, 7));
                    assert(padded(d.2 as nat, 2) == s@.subrange(8, 10));
                    assert(s@ =~= s@.subrange(0, 4) + seq![s@[4]] + s@.subrange(5, 7)
                        + seq![s@[7]] + s@.subrange(8, 10));
                    assert(s@ == date_chars(d));
                    assert forall|d2: EODHDDate| valid_date(d2) && s@ == date_chars(d2) implies
                        Some(d) == Some(d2) by {
                        lemma_date_chars_parts(d2);
                        assert(d2 == d);
                    }
                }
                Some(d)
            } else {
                proof {
                    assert forall|d: EODHDDate| valid_date(d) && s@ == date_chars(d) implies
                        false by {
                        lemma_date_chars_parts(d);
                    }
                }
                None
            }
        },
        _ => {
            proof {
                assert forall|d: EODHDDate| valid_date(d) && s@ == date_chars(d) implies false by {
                    lemma_date_chars_parts(d);
                }
            }
            None
        },
    }
}

/// A timestamp: a date with a time of day.
#[derive(Clone, Copy, Debug, PartialEq, Eq, Structural)]
pub struct EODHDDateTime {
    pub date: EODHDDate,
    pub hour: u32,
    pub minute: u32,
    pub second: u32,
}

/// The ranges within which a timestamp can be rendered and exchanged.
pub open spec fn valid_datetime(t: EODHDDateTime) -> bool {
    &&& valid_date(t.date)
    &&& t.hour <= 23
    &&& t.minute <= 59
    &&& t.second <= 59
}

/// The `YYYY-MM-DD HH:MM:SS` rendering of a timestamp.
pub open spec fn datetime_chars(t: EODHDDateTime) -> Seq<char> {
    date_chars(t.date) + seq![' '] + padded(t.hour as nat, 2) + seq![':'] + padded(
        t.minute as nat,
        2,
    ) + seq![':'] + padded(t.second as nat, 2)
}

/// Where each part of a timestamp stands in its rendering.
pub proof fn lemma_datetime_chars_parts(t: EODHDDateTime)
    requires
        valid_datetime(t),
    ensures
        datetime_chars(t).len() == 19,
        datetime_chars(t).subrange(0, 10) == date_chars(t.date),
        datetime_chars(t)[10] == ' ',
        datetime_chars(t).subrange(11, 13) == padded(t.hour as nat, 2),
        datetime_chars(t)[13] == ':',
        datetime_chars(t).subrange(14, 16) == padded(t.minute as nat, 2),
        datetime_chars(t)[16] == ':',
        datetime_chars(t).subrange(17, 19) == padded(t.second as nat, 2),
        all_digits(datetime_chars(t).subrange(11, 13)),
        all_digits(datetime_chars(t).subrange(14, 16)),
        all_digits(datetime_chars(t).subrange(17, 19)),
        dec_val(datetime_chars(t).subrange(11, 13)) == t.hour,
        dec_val(datetime_chars(t).subrange(14, 16)) == t.minute,
        dec_val(datetime_chars(t).subrange(17, 19)) == t.second,
{
    lemma_date_chars_parts(t.date);
    lemma_dec_digits_len(t.hour as nat);
    lemma_dec_digits_len(t.minute as nat);
    lemma_dec_digits_len(t.second as nat);
    lemma_padded_props(t.hour as nat, 2);
    lemma_padded_props(t.minute as nat, 2);
    lemma_padded_props(t.second as nat, 2);
    assert(datetime_chars(t).subrange(0, 10) =~= date_chars(t.date));
    assert(datetime_chars(t).subrange(11, 13) =~= padded(t.hour as nat, 2));
    assert(datetime_chars(t).subrange(14, 16) =~= padded(t.minute as nat, 2));
    assert(datetime_chars(t).subrange(17, 19) =~= padded(t.second as nat, 2));
}

/// Renders a timestamp as `YYYY-MM-DD HH:MM:SS`.
pub fn format_datetime(t: &EODHDDateTime) -> (r: String)
    requires
        valid_datetime(*t),
    ensures
        r@ == datetime_chars(*t),
{
    let mut out = format_date(&t.date);
    out.append(" ");
    let h = u64_to_string_pad2(t.hour as u64);
    out.append(h.as_str());
    out.append(":");
    let mi = u64_to_string_pad2(t.minute as u64);
    out.append(mi.as_str());
    out.append(":");
    let se = u64_to_string_pad2(t.second as u64);
    out.append(se.as_str());
    proof {
        reveal_strlit(" ");
        reveal_strlit(":");
        assert(out@ =~= datetime_chars(*t));
    }
    out
}

/// Reads a timestamp back from its `YYYY-MM-DD HH:MM:SS` rendering;
/// nothing is returned for any other shape.
pub fn parse_datetime(s: &str) -> (r: Option<EODHDDateTime>)
    ensures
        r matches Some(t) ==> valid_datetime(t) && s@ == datetime_chars(t),
        forall|t: EODHDDateTime| valid_datetime(t) && s@ == datetime_chars(t) ==> r == Some(t),
{
    let n = s.unicode_len();
    if n != 19 {
        proof {
            assert forall|t: EODHDDateTime| valid_datetime(t) && s@ == datetime_chars(t) implies
                false by {
                lemma_datetime_chars_parts(t);
            }
        }
        return None;
    }
    if s.get_char(10) != ' ' || s.get_char(13) != ':' || s.get_char(16) != ':' {
        proof {
            assert forall|t: EODHDDateTime| valid_datetime(t) && s@ == datetime_chars(t) implies
                false by {
                lemma_datetime_chars_parts(t);
            }
        }
        return None;
    }
    let date_part = s.substring_char(0, 10);
    let date = parse_date(date_part);
    let h = read_digits(s, 11, 2);
    let mi = read_digits(s, 14, 2);
    let se = read_digits(s, 17, 2);
    match (date, h, mi, se) {
        (Some(date), Some(h), Some(mi), Some(se)) => {
            if h <= 23 && mi <= 59 && se <= 59 {
                let t = EODHDDateTime { date, hour: h as u32, minute: mi as u32, second: se as u32 };
                proof {
                    lemma_pow10_small();
                    lemma_padded_of_val(s@.subrange(11, 13));
                    lemma_padded_of_val(s@.subrange(14, 16));
                    lemma_padded_of_val(s@.subrange(17, 19));
                    assert(padded(t.hour as nat, 2) == s@.subrange(11, 13));
                    assert(padded(t.minute as nat, 2) == s@.subrange(14, 16));
                    assert(padded(t.second as nat, 2) == s@.subrange(17, 19));
                    assert(date_chars(date) == s@.subrange(0, 10));
                    assert(s@ =~= s@.subrange(0, 10) + seq![s@[10]] + s@.subrange(11, 13)
                        + seq![s@[13]] + s@.subrange(14, 16) + seq![s@[16]] + s@.subrange(17, 19));
                    assert(s@ == datetime_chars(t));
                    assert forall|t2: EODHDDateTime| valid_datetime(t2) && s@ == datetime_chars(t2)
                        implies Some(t) == Some(t2) by {
                        lemma_datetime_chars_parts(t2);
                        assert(date == t2.date);
                        assert(t2 == t);
                    }
                }
                Some(t)
            } else {
                proof {
                    assert forall|t: EODHDDateTime| valid_datetime(t) && s@ == datetime_chars(t)
                        implies false by {
                        lemma_datetime_chars_parts(t);
                    }
                }
                None
            }
        },
        _ => {
            proof {
                assert forall|t: EODHDDateTime| valid_datetime(t) && s@ == datetime_chars(t)
                    implies false by {
                    lemma_datetime_chars_parts(t);
                    assert(date == Some(t.date));
                }
            }
            None
        },
    }
}

/// The resolution of an intraday request.
#[derive(Clone, Copy, Debug, PartialEq, Eq, Structural)]
pub enum EODHDInterval {
    Minute,
    Minute5,
    Hour,
}

/// The query value that names an interval.
pub open spec fn interval_chars(i: EODHDInterval) -> Seq<char> {
    match i {
        EODHDInterval::Minute => "1m"@,
        EODHDInterval::Minute5 => "5m"@,
        EODHDInterval::Hour => "1h"@,
    }
}

impl EODHDInterval {
    /// The query value that names this interval.
    pub fn to_string(&self) -> (r: String)
        ensures
            r@ == interval_chars(*self),
    {
        match self {
            EODHDInterval::Hour => String::from_str("1h"),
            EODHDInterval::Minute => String::from_str("1m"),
            EODHDInterval::Minute5 => String::from_str("5m"),
        }
    }
}

} // verus!
