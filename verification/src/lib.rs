//! The transactional core of an NFT marketplace: listings, fixed-price sales
//! and English auctions over tokens held in custody, with royalty splitting.
//!
//! The marketplace is a value ([`store::Marketplace`]) and every operation is a
//! function from that value and a message to the next value and the list of
//! payments and token transfers that the host has to carry out.

pub mod decimal;
pub mod error;
pub mod host;
pub mod expiration;
pub mod royalty;
pub mod state;
pub mod store;
pub mod msg;
pub mod package;
pub mod model;
pub mod execute;
pub mod contract;
pub mod laws;
