//! The delayed-quote endpoint: realtime data served over plain HTTP.

use vstd::prelude::*;

verus! {

/// The request URL for a delayed quote.
pub open spec fn delayed_url_chars(ticker: Seq<char>, token: Seq<char>) -> Seq<char> {
    "https://eodhistoricaldata.com/api"@ + "/real-time/"@ + ticker + "?fmt=json&api_token="@
        + token
}

/// Builds the request URL for a delayed quote of a ticker.
pub fn delayed_url(ticker: &str, token: &str) -> (r: String)
    ensures
        r@ == delayed_url_chars(ticker@, token@),
{
    let mut out = String::from_str("https://eodhistoricaldata.com/api");
    out.append("/real-time/");
    out.append(ticker);
    out.append("?fmt=json&api_token=");
    out.append(token);
    proof {
        assert(out@ =~= delayed_url_chars(ticker@, token@));
    }
    out
}

} // verus!
