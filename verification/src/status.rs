//! Status notifications on the realtime feed.
//!
//! The feed reports session events as text frames of the exact shape
//! `{"status_code":<code>,"message":"<text>"}`.  This module holds the
//! grammar of that shape and a parser proved to accept exactly it.

use vstd::prelude::*;

use crate::decimal::{
    all_digits, dec_digits, dec_val, is_digit_char, lemma_dec_digits_len_pow,
    lemma_dec_digits_of_val, lemma_dec_digits_wf, lemma_dec_val_of_digits, lemma_pow10_small,
    parse_digit, read_digits,
};
use crate::text::{contains_lit, contains_seq, match_at, occurs_at};

verus! {

/// A status notification from the feed: informational only, it never
/// changes the session's state.
#[derive(Debug, Clone, PartialEq)]
pub struct StatusMessage {
    pub status_code: u16,
    pub message: String,
}

/// The text that marks a frame as a status notification.
pub open spec fn status_marker() -> Seq<char> {
    "status_code"@
}

/// The opening of a status frame, up to the code.
pub open spec fn status_prefix() -> Seq<char> {
    "{\"status_code\":"@
}

/// The middle of a status frame, between the code and the message.
pub open spec fn status_mid() -> Seq<char> {
    ",\"message\":\""@
}

/// The closing of a status frame, after the message.
pub open spec fn status_suffix() -> Seq<char> {
    "\"}"@
}

/// Message text that can stand between the quotes of a status frame.
pub open spec fn plain_text(m: Seq<char>) -> bool {
    forall|i: int| 0 <= i < m.len() ==> #[trigger] m[i] != '"' && m[i] != '\\'
}

/// The status frame that carries `code` and `m`.
pub open spec fn status_chars(code: u16, m: Seq<char>) -> Seq<char> {
    status_prefix() + dec_digits(code as nat) + status_mid() + m + status_suffix()
}

/// The lengths and characters of the three literal pieces.
proof fn lemma_status_literals()
    ensures
        status_prefix().len() == 15,
        status_mid().len() == 12,
        status_suffix().len() == 2,
        status_marker().len() == 11,
        status_mid()[0] == ',',
        status_suffix()[0] == '"',
        status_suffix()[1] == '}',
        status_prefix().subrange(2, 13) == status_marker(),
{
    reveal_strlit("status_code");
    reveal_strlit("{\"status_code\":");
    reveal_strlit(",\"message\":\"");
    reveal_strlit("\"}");
    assert(status_prefix().subrange(2, 13) =~= status_marker());
}

/// Where each part of a status frame stands, and what the digit run
/// looks like.
proof fn lemma_status_chars_parts(c: u16, m: Seq<char>)
    ensures
        ({
            let t = status_chars(c, m);
            let dl = dec_digits(c as nat).len() as int;
            &&& t.len() == 29 + dl + m.len()
            &&& 1 <= dl <= 5
            &&& t.subrange(0, 15) == status_prefix()
            &&& occurs_at(t, status_prefix(), 0)
            &&& t.subrange(15, 15 + dl) == dec_digits(c as nat)
            &&& all_digits(t.subrange(15, 15 + dl))
            &&& dec_val(t.subrange(15, 15 + dl)) == c
            &&& forall|k: int| 15 <= k < 15 + dl ==> is_digit_char(#[trigger] t[k])
            &&& !is_digit_char(t[15 + dl])
            &&& (dl > 1 ==> t[15] != '0')
            &&& t.subrange(15 + dl, 27 + dl) == status_mid()
            &&& occurs_at(t, status_mid(), 15 + dl)
            &&& t.subrange(27 + dl, 27 + dl + m.len()) == m
            &&& t[27 + dl + m.len()] == '"'
            &&& t[28 + dl + m.len()] == '}'
        }),
{
    let t = status_chars(c, m);
    let d = dec_digits(c as nat);
    let dl = d.len();
    lemma_status_literals();
    lemma_dec_digits_wf(c as nat);
    lemma_pow10_small();
    lemma_dec_digits_len_pow(c as nat, 5);
    lemma_dec_val_of_digits(c as nat);
    assert(t.subrange(0, 15) =~= status_prefix());
    assert(t.subrange(15, 15 + dl as int) =~= d);
    assert(t.subrange(15 + dl as int, 27 + dl as int) =~= status_mid());
    assert(t.subrange(27 + dl as int, 27 + dl as int + m.len() as int) =~= m);
    assert(t[15 + dl as int] == status_mid()[0]);
    assert(t[27 + dl as int + m.len() as int] == status_suffix()[0]);
    assert(t[28 + dl as int + m.len() as int] == status_suffix()[1]);
    assert forall|k: int| 15 <= k < 15 + dl implies is_digit_char(#[trigger] t[k]) by {
        assert(t[k] == t.subrange(15, 15 + dl as int)[k - 15]);
    }
    if dl > 1 {
        assert(t[15] == d[0]);
    }
}

/// Every status frame holds the marker text.
proof fn lemma_status_contains_marker(c: u16, m: Seq<char>)
    ensures
        contains_seq(status_chars(c, m), status_marker()),
{
    let t = status_chars(c, m);
    lemma_status_chars_parts(c, m);
    lemma_status_literals();
    assert(t.subrange(2, 13) =~= status_prefix().subrange(2, 13));
    assert(occurs_at(t, status_marker(), 2));
}

/// The digit scan of the parser stops exactly where the code's digits
/// end in a status frame.
proof fn lemma_digit_scan_pins(s: Seq<char>, j: int, c: u16, m: Seq<char>)
    requires
        s == status_chars(c, m),
        15 <= j <= s.len(),
        forall|k: int| 15 <= k < j ==> is_digit_char(#[trigger] s[k]),
        j == s.len() || !is_digit_char(s[j]),
    ensures
        j == 15 + dec_digits(c as nat).len(),
        s.subrange(15, j) == dec_digits(c as nat),
        dec_val(s.subrange(15, j)) == c,
        j - 15 <= 5,
        j - 15 > 1 ==> s[15] != '0',
        occurs_at(s, status_mid(), j),
{
    lemma_status_chars_parts(c, m);
    let dl = dec_digits(c as nat).len() as int;
    if j < 15 + dl {
        assert(is_digit_char(s[j]));
        assert(j < s.len());
    }
    if j > 15 + dl {
        assert(is_digit_char(s[15 + dl]));
    }
    assert(j == 15 + dl);
}

/// The quote scan of the parser stops exactly where the message ends
/// in a status frame.
proof fn lemma_quote_scan_pins(s: Seq<char>, j: int, q: int, c: u16, m: Seq<char>)
    requires
        plain_text(m),
        s == status_chars(c, m),
        j == 15 + dec_digits(c as nat).len(),
        j + 12 <= q <= s.len(),
        forall|k: int| j + 12 <= k < q ==> #[trigger] s[k] != '"' && s[k] != '\\',
        q == s.len() || s[q] == '"' || s[q] == '\\',
    ensures
        q == j + 12 + m.len(),
        s[q] == '"',
        q + 2 == s.len(),
        s[q + 1] == '}',
        s.subrange(j + 12, q) == m,
{
    lemma_status_chars_parts(c, m);
    let dl = dec_digits(c as nat).len() as int;
    let k0 = 27 + dl;
    if q < k0 + m.len() {
        assert(s[q] == s.subrange(k0, k0 + m.len())[q - k0]);
        assert(s[q] != '"' && s[q] != '\\');
        assert(q < s.len());
    }
    if q > k0 + m.len() {
        assert(s[k0 + m.len()] == '"');
    }
    assert(q == k0 + m.len());
}

/// Reads a status frame.  Exactly the frames of the status shape are
/// accepted, and the code and message read are the ones the frame
/// carries.
#[verifier::rlimit(30)]
pub fn parse_status(s: &str) -> (r: Option<StatusMessage>)
    ensures
        r matches Some(sm) ==> plain_text(sm.message@) && s@ == status_chars(
            sm.status_code,
            sm.message@,
        ),
        forall|c: u16, m: Seq<char>|
            plain_text(m) && s@ == status_chars(c, m) ==> (r matches Some(sm) && sm.status_code
                == c && sm.message@ == m),
{
    let n = s.unicode_len();
    proof {
        lemma_status_literals();
    }
    if !match_at(s, 0, "{\"status_code\":") {
        proof {
            assert forall|c: u16, m: Seq<char>| plain_text(m) && s@ == status_chars(c, m) implies
                false by {
                lemma_status_chars_parts(c, m);
            }
        }
        return None;
    }
    let mut j: usize = 15;
    loop
        invariant
            15 <= j <= n,
            n == s@.len(),
            n <= usize::MAX,
            forall|k: int| 15 <= k < j ==> is_digit_char(#[trigger] s@[k]),
        ensures
            15 <= j <= n,
            forall|k: int| 15 <= k < j ==> is_digit_char(#[trigger] s@[k]),
            j == n || !is_digit_char(s@[j as int]),
        decreases n - j,
    {
        if j >= n {
            break ;
        }
        let c0 = s.get_char(j);
        match parse_digit(c0) {
            Some(_) => {
                j = j + 1;
            },
            None => {
                break ;
            },
        }
    }
    if j == 15 || j - 15 > 5 || (j - 15 > 1 && s.get_char(15) == '0') {
        proof {
            assert forall|c: u16, m: Seq<char>| plain_text(m) && s@ == status_chars(c, m) implies
                false by {
                lemma_digit_scan_pins(s@, j as int, c, m);
            }
        }
        return None;
    }
    let v = match read_digits(s, 15, j - 15) {
        Some(v) => v,
        None => {
            // The scan above saw digits only, so the read cannot fail.
            proof {
                assert(false);
            }
            return None;
        },
    };
    if v > 65535 {
        proof {
            assert forall|c: u16, m: Seq<char>| plain_text(m) && s@ == status_chars(c, m) implies
                false by {
                lemma_digit_scan_pins(s@, j as int, c, m);
            }
        }
        return None;
    }
    let code: u16 = v as u16;
    if !match_at(s, j, ",\"message\":\"") {
        proof {
            assert forall|c: u16, m: Seq<char>| plain_text(m) && s@ == status_chars(c, m) implies
                false by {
                lemma_digit_scan_pins(s@, j as int, c, m);
            }
        }
        return None;
    }
    let k = j + 12;
    let mut q: usize = k;
    loop
        invariant
            k <= q <= n,
            n == s@.len(),
            n <= usize::MAX,
            forall|t: int| k <= t < q ==> #[trigger] s@[t] != '"' && s@[t] != '\\',
        ensures
            k <= q <= n,
            forall|t: int| k <= t < q ==> #[trigger] s@[t] != '"' && s@[t] != '\\',
            q == n || s@[q as int] == '"' || s@[q as int] == '\\',
        decreases n - q,
    {
        if q >= n {
            break ;
        }
        let cq = s.get_char(q);
        if cq == '"' || cq == '\\' {
            break ;
        }
        q = q + 1;
    }
    if q >= n || s.get_char(q) == '\\' {
        proof {
            assert forall|c: u16, m: Seq<char>| plain_text(m) && s@ == status_chars(c, m) implies
                false by {
                lemma_digit_scan_pins(s@, j as int, c, m);
                lemma_quote_scan_pins(s@, j as int, q as int, c, m);
            }
        }
        return None;
    }
    if q + 1 >= n || s.get_char(q + 1) != '}' || q + 2 != n {
        proof {
            assert forall|c: u16, m: Seq<char>| plain_text(m) && s@ == status_chars(c, m) implies
                false by {
                lemma_digit_scan_pins(s@, j as int, c, m);
                lemma_quote_scan_pins(s@, j as int, q as int, c, m);
            }
        }
        return None;
    }
    let message = String::from_str(s.substring_char(k, q));
    let sm = StatusMessage { status_code: code, message };
    proof {
        lemma_dec_digits_of_val(s@.subrange(15, j as int));
        assert(s@.subrange(15, j as int).len() > 1 ==> s@.subrange(15, j as int)[0] != '0');
        assert(dec_digits(code as nat) == s@.subrange(15, j as int));
        assert(s@.subrange(q as int, n as int) =~= status_suffix());
        assert(s@ =~= s@.subrange(0, 15) + s@.subrange(15, j as int) + s@.subrange(
            j as int,
            k as int,
        ) + s@.subrange(k as int, q as int) + s@.subrange(q as int, n as int));
        assert(s@ == status_chars(sm.status_code, sm.message@));
        assert forall|c: u16, m: Seq<char>| plain_text(m) && s@ == status_chars(c, m) implies
            sm.status_code == c && sm.message@ == m by {
            lemma_digit_scan_pins(s@, j as int, c, m);
            lemma_quote_scan_pins(s@, j as int, q as int, c, m);
        }
    }
    Some(sm)
}

/// How a text frame off the transport is classified.
pub enum TextClass {
    /// A well-formed status notification.
    Status(StatusMessage),
    /// A frame that carries the status marker but not the status
    /// shape: the upstream message shape changed.
    StatusMalformed,
    /// Any other text: a candidate tick payload.
    TickPayload,
}

/// Classifies a text frame: frames holding the status marker are
/// status notifications (well-formed or not); everything else is
/// handed to the tick decoder.
pub fn classify_text(s: &str) -> (r: TextClass)
    ensures
        r is TickPayload <==> !contains_seq(s@, status_marker()),
        r matches TextClass::Status(sm) ==> plain_text(sm.message@) && s@ == status_chars(
            sm.status_code,
            sm.message@,
        ),
        forall|c: u16, m: Seq<char>|
            plain_text(m) && s@ == status_chars(c, m) ==> (r matches TextClass::Status(sm)
                && sm.status_code == c && sm.message@ == m),
        r is StatusMalformed ==> contains_seq(s@, status_marker()),
{
    let n = s.unicode_len();
    if contains_lit(s, "status_code") {
        match parse_status(s) {
            Some(sm) => TextClass::Status(sm),
            None => TextClass::StatusMalformed,
        }
    } else {
        proof {
            assert forall|c: u16, m: Seq<char>| plain_text(m) && s@ == status_chars(c, m) implies
                false by {
                lemma_status_contains_marker(c, m);
            }
        }
        TextClass::TickPayload
    }
}

} // verus!
