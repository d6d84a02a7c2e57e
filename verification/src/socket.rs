//! The streaming endpoint: feed kinds and the connection URL.

use vstd::prelude::*;

verus! {

/// The realtime feeds the service offers.
#[derive(Clone, Copy, Debug, PartialEq, Eq, Structural)]
pub enum EODHDSocketKind {
    Forex,
    Crypto,
    Quote,
    Trade,
}

/// The fixed path segment of a feed kind in the connection URL.
pub open spec fn kind_chars(k: EODHDSocketKind) -> Seq<char> {
    match k {
        EODHDSocketKind::Forex => "forex"@,
        EODHDSocketKind::Crypto => "crypto"@,
        EODHDSocketKind::Quote => "us-quote"@,
        EODHDSocketKind::Trade => "us"@,
    }
}

impl EODHDSocketKind {
    /// The path segment that names this feed.
    pub fn to_string(&self) -> (r: String)
        ensures
            r@ == kind_chars(*self),
    {
        match self {
            EODHDSocketKind::Forex => String::from_str("forex"),
            EODHDSocketKind::Crypto => String::from_str("crypto"),
            EODHDSocketKind::Quote => String::from_str("us-quote"),
            EODHDSocketKind::Trade => String::from_str("us"),
        }
    }
}

/// The connection URL for a feed kind and an access token.
pub open spec fn socket_url_chars(k: EODHDSocketKind, token: Seq<char>) -> Seq<char> {
    "wss://ws.eodhistoricaldata.com/ws"@ + "/"@ + kind_chars(k) + "?api_token="@ + token
}

/// Builds the connection URL for a feed kind and an access token.
pub fn socket_url(k: EODHDSocketKind, token: &str) -> (r: String)
    ensures
        r@ == socket_url_chars(k, token@),
{
    let mut out = String::from_str("wss://ws.eodhistoricaldata.com/ws");
    out.append("/");
    let kind = k.to_string();
    out.append(kind.as_str());
    out.append("?api_token=");
    out.append(token);
    proof {
        assert(out@ =~= socket_url_chars(k, token@));
    }
    out
}

/// Whether a string is an absolute URL the transport can connect to.
pub uninterp spec fn url_well_formed(s: Seq<char>) -> bool;

/// Relies on url::Url::parse: whether a string parses as an absolute
/// URL depends on the string alone.
#[verifier::external_body]
pub(crate) fn url_parses(s: &str) -> (r: bool)
    ensures
        r == url_well_formed(s@),
{
    url::Url::parse(s).is_ok()
}

} // verus!
