//! The messages that the marketplace takes.

use vstd::prelude::*;
use crate::royalty::{royalty_view, RoyaltyInfoResponse, RoyaltyView};
use crate::state::SaleType;
use crate::store::addresses_view;

verus! {

/// What sets a marketplace up.
#[derive(Debug, Clone, PartialEq, Eq)]
pub struct InstantiateMsg {
    /// The administrator, where one was named and the host accepts the
    /// address; otherwise whoever sends the message administers.
    pub admin: Option<String>,
    pub name: String,
    /// The one currency in which the marketplace takes payment.
    pub native_denom: String,
    /// The collections to trust from the start.
    pub nft_contracts: Vec<String>,
}

pub struct InstantiateMsgView {
    pub admin: Option<Seq<char>>,
    pub name: Seq<char>,
    pub native_denom: Seq<char>,
    pub nft_contracts: Seq<Seq<char>>,
}

impl View for InstantiateMsg {
    type V = InstantiateMsgView;

    open spec fn view(&self) -> InstantiateMsgView {
        InstantiateMsgView {
            admin: match self.admin {
                Some(a) => Some(a@),
                None => None,
            },
            name: self.name@,
            native_denom: self.native_denom@,
            nft_contracts: addresses_view(self.nft_contracts@),
        }
    }
}

/// A collection's notice that a token has come into the marketplace's
/// custody, with the terms under which it is to be sold and the royalty terms
/// that the collection states.
#[derive(Debug, Clone, PartialEq, Eq)]
pub struct ReceiveNftMsg {
    /// Who sent the token: the seller.
    pub sender: String,
    pub token_id: String,
    pub sale_type: SaleType,
    pub royalty_info: Option<RoyaltyInfoResponse>,
}

pub struct ReceiveNftMsgView {
    pub sender: Seq<char>,
    pub token_id: Seq<char>,
    pub sale_type: SaleType,
    pub royalty_info: Option<RoyaltyView>,
}

impl View for ReceiveNftMsg {
    type V = ReceiveNftMsgView;

    open spec fn view(&self) -> ReceiveNftMsgView {
        ReceiveNftMsgView {
            sender: self.sender@,
            token_id: self.token_id@,
            sale_type: self.sale_type,
            royalty_info: royalty_view(self.royalty_info),
        }
    }
}

/// What can be asked of a marketplace.
#[derive(Debug, Clone, PartialEq, Eq)]
pub enum ExecuteMsg {
    /// Trust one more collection. For the administrator.
    AddNFTContract { address: String },
    /// Take a fixed-price listing back. For its seller.
    WithdrawNft { offering_id: String },
    /// Buy a fixed-price listing with the attached payment.
    MakeOffer { offering_id: String },
    /// Bid the attached payment on an auction.
    Bid { offering_id: String },
    /// End an auction. For its seller at any time, for the highest bidder
    /// once it has expired.
    CloseBid { offering_id: String },
    /// Change the price of a fixed-price listing. For its seller.
    UpdatePrice { offering_id: String, update_price: u128 },
    /// List a token that has come in. For trusted collections.
    ReceiveNft(ReceiveNftMsg),
}

pub enum ExecuteMsgView {
    AddNFTContract { address: Seq<char> },
    WithdrawNft { offering_id: Seq<char> },
    MakeOffer { offering_id: Seq<char> },
    Bid { offering_id: Seq<char> },
    CloseBid { offering_id: Seq<char> },
    UpdatePrice { offering_id: Seq<char>, update_price: u128 },
    ReceiveNft(ReceiveNftMsgView),
}

impl View for ExecuteMsg {
    type V = ExecuteMsgView;

    open spec fn view(&self) -> ExecuteMsgView {
        match *self {
            ExecuteMsg::AddNFTContract { address } => ExecuteMsgView::AddNFTContract {
                address: address@,
            },
            ExecuteMsg::WithdrawNft { offering_id } => ExecuteMsgView::WithdrawNft {
                offering_id: offering_id@,
            },
            ExecuteMsg::MakeOffer { offering_id } => ExecuteMsgView::MakeOffer {
                offering_id: offering_id@,
            },
            ExecuteMsg::Bid { offering_id } => ExecuteMsgView::Bid { offering_id: offering_id@ },
            ExecuteMsg::CloseBid { offering_id } => ExecuteMsgView::CloseBid {
                offering_id: offering_id@,
            },
            ExecuteMsg::UpdatePrice { offering_id, update_price } => ExecuteMsgView::UpdatePrice {
                offering_id: offering_id@,
                update_price,
            },
            ExecuteMsg::ReceiveNft(msg) => ExecuteMsgView::ReceiveNft(msg@),
        }
    }
}

} // verus!
