//! Connector toolkit pieces for exchange REST APIs, centred on a weighted
//! multi-bucket admission controller that keeps outgoing calls under the
//! exchanges' rate limits.
use vstd::prelude::*;

pub mod costs;
pub mod error;
pub mod market_data;
pub mod order_book;
pub mod rate_limiter;
pub mod signer;
pub mod spot_order;
pub mod text;
pub mod withdrawal;

verus! {

} // verus!
