//! The shapes in which the marketplace answers queries.

use vstd::prelude::*;
use crate::royalty::RoyaltyInfoResponse;
use crate::state::SaleType;

verus! {

/// The marketplace's name and currency.
#[derive(Debug, Clone, PartialEq, Eq)]
pub struct ContractInfoResponse {
    pub name: String,
    pub native_denom: String,
}

/// One open listing, with its identifier.
#[derive(Debug, Clone, PartialEq, Eq)]
pub struct QueryOfferingsResult {
    pub id: String,
    pub token_id: String,
    pub sale_type: SaleType,
    pub royalty_info: Option<RoyaltyInfoResponse>,
    pub nft_address: String,
    pub seller: String,
    /// Nanoseconds since the epoch.
    pub listing_time: u64,
}

/// A list of open listings.
#[derive(Debug, Clone, PartialEq, Eq)]
pub struct OfferingsResponse {
    pub offerings: Vec<QueryOfferingsResult>,
}

} // verus!
