//! A typed client for a JSON-over-HTTP blockchain-data API: query parameter
//! records, their encoding into ordered key/value pairs, the composition of a
//! request with its base fields, and the decoding of the response envelope.
use vstd::prelude::*;

pub mod client;
pub mod envelope;
pub mod params;
pub mod text;
pub mod topics;

verus! {

} // verus!
