//! A verified client core for the EODHD market-data service.
//!
//! The library models the realtime websocket session (frame
//! classification, the outbound command queue, the inbound tick pump
//! with bounded backpressure, and the subscribe/unsubscribe protocol)
//! and builds the request URLs for the HTTP endpoints.  Network I/O
//! itself lives outside the library; everything here is plain logic
//! with contracts.

use vstd::prelude::*;

pub mod alternative;
pub mod datetime;
pub mod decimal;
pub mod delayed;
pub mod end_of_period;
pub mod historic_intraday;
pub mod pump;
pub mod queue;
pub mod session;
pub mod socket;
pub mod status;
pub mod text;
pub mod wire;

verus! {

/// An error surfaced by the client, with a human-readable description
/// and the text of the underlying failure.
pub struct EODHDError {
    pub description: String,
    pub inner_error: String,
}

impl EODHDError {
    /// The description, for display purposes.
    pub fn to_string(&self) -> (r: String)
        ensures
            r@ == self.description@,
    {
        self.description.clone()
    }
}

} // verus!
