//! What the marketplace holds: its configuration, the listing counter, and for
//! each open listing the offering and, for an auction, the state of the
//! bidding.

use vstd::prelude::*;
use crate::expiration::Expiration;
use crate::host::Env;
use crate::royalty::{royalty_view, RoyaltyInfoResponse, RoyaltyView};

verus! {

/// The marketplace's name and the one currency that it takes.
#[derive(Debug, Clone, PartialEq, Eq)]
pub struct ContractInfo {
    pub name: String,
    pub native_denom: String,
}

pub struct ContractInfoView {
    pub name: Seq<char>,
    pub native_denom: Seq<char>,
}

impl View for ContractInfo {
    type V = ContractInfoView;

    open spec fn view(&self) -> ContractInfoView {
        ContractInfoView { name: self.name@, native_denom: self.native_denom@ }
    }
}

/// How a token is sold.
#[derive(Debug, Clone, Copy, PartialEq, Eq)]
pub enum SaleType {
    /// To the first who pays at least this price.
    FixedPrice(u128),
    /// To the highest bidder.
    Auction(Bid),
}

/// The terms of an auction.
#[derive(Debug, Clone, Copy, PartialEq, Eq)]
pub struct Bid {
    /// The least that the first bid must offer.
    pub start_price: u128,
    /// By more than how much each later bid must exceed the one before; zero
    /// where absent.
    pub increase_per_bid: Option<u128>,
    /// From when on no bid is taken and the highest bidder can claim the
    /// token.
    pub expiration: Expiration,
}

impl Bid {
    /// The increment that a later bid must exceed the highest bid by.
    pub open spec fn increment(self) -> u128 {
        match self.increase_per_bid {
            Some(step) => step,
            None => 0,
        }
    }
}

/// One token offered for sale.
#[derive(Debug, Clone, PartialEq, Eq)]
pub struct Offering {
    pub token_id: String,
    /// The collection that holds the token and was told to hand it over.
    pub nft_address: String,
    /// The royalty terms, as the collection stated them when the token came
    /// in.
    pub royalty_info: Option<RoyaltyInfoResponse>,
    pub seller: String,
    pub sale_type: SaleType,
    /// Nanoseconds since the epoch.
    pub listing_time: u64,
}

pub struct OfferingView {
    pub token_id: Seq<char>,
    pub nft_address: Seq<char>,
    pub royalty_info: Option<RoyaltyView>,
    pub seller: Seq<char>,
    pub sale_type: SaleType,
    pub listing_time: u64,
}

impl View for Offering {
    type V = OfferingView;

    open spec fn view(&self) -> OfferingView {
        OfferingView {
            token_id: self.token_id@,
            nft_address: self.nft_address@,
            royalty_info: royalty_view(self.royalty_info),
            seller: self.seller@,
            sale_type: self.sale_type,
            listing_time: self.listing_time,
        }
    }
}

/// The bidding on one auction: the highest bid so far and who made it.
#[derive(Debug, Clone, PartialEq, Eq)]
pub struct BidOffering {
    pub highest_bid_price: Option<u128>,
    pub address: Option<String>,
    /// Nanoseconds since the epoch.
    pub start_timestamp: u64,
}

pub struct BidOfferingView {
    pub highest_bid_price: Option<u128>,
    pub address: Option<Seq<char>>,
    pub start_timestamp: u64,
}

impl BidOfferingView {
    /// The bidding on an auction that has no bid yet.
    pub open spec fn fresh(start_timestamp: u64) -> BidOfferingView {
        BidOfferingView { highest_bid_price: None, address: None, start_timestamp }
    }

    /// A bid and its bidder are there together or not at all.
    pub open spec fn consistent(self) -> bool {
        self.highest_bid_price is Some <==> self.address is Some
    }

    /// The bidding after `bidder` has bid `price`.
    pub open spec fn with_bid(self, price: u128, bidder: Seq<char>) -> BidOfferingView {
        BidOfferingView {
            highest_bid_price: Some(price),
            address: Some(bidder),
            start_timestamp: self.start_timestamp,
        }
    }
}

impl View for BidOffering {
    type V = BidOfferingView;

    open spec fn view(&self) -> BidOfferingView {
        BidOfferingView {
            highest_bid_price: self.highest_bid_price,
            address: match self.address {
                Some(a) => Some(a@),
                None => None,
            },
            start_timestamp: self.start_timestamp,
        }
    }
}

impl BidOffering {
    /// The bidding on an auction that starts now and has no bid yet.
    pub fn default(env: &Env) -> (fresh: BidOffering)
        ensures
            fresh@ == BidOfferingView::fresh(env.block.time),
    {
        BidOffering { highest_bid_price: None, address: None, start_timestamp: env.block.time }
    }

    /// Makes `price`, bid by `address`, the highest bid.
    pub fn new(&mut self, price: u128, address: String)
        ensures
            final(self)@ == old(self)@.with_bid(price, address@),
    {
        self.highest_bid_price = Some(price);
        self.address = Some(address);
    }

    /// The highest bid, where there is one.
    pub fn highest_price(&self) -> (price: u128)
        requires
            self.highest_bid_price is Some,
        ensures
            Some(price) == self.highest_bid_price,
    {
        self.highest_bid_price.unwrap()
    }
}

} // verus!
