//! The failures that an operation can end in.

use vstd::prelude::*;
use vstd::string::*;

verus! {

/// Why an operation was refused. A refused operation leaves the marketplace as
/// it was and emits nothing.
#[derive(Debug, Clone, Copy, PartialEq, Eq, Structural)]
pub enum ContractError {
    /// No listing has the identifier that was given.
    NotFound,
    /// The caller may not do this.
    Unauthorized,
    /// No payment was attached, or one of zero amount.
    NoFunds,
    /// More than one coin was attached.
    MultipleDenoms,
    /// The attached coin is not of the marketplace's currency.
    DenomNotMatch,
    /// A fixed price must be above zero.
    PriceMustBePosiTive,
    /// The operation is for fixed-price listings and the listing is an auction.
    SaleTypeMustBeFixedPrice,
    /// The operation is for auctions and the listing has a fixed price.
    SaleTypeMustBeAuction,
    /// The attached payment is below what the listing asks for.
    InsufficientDeposit,
    /// The auction no longer takes bids.
    BidExpiration,
    /// The token was sent by a contract that the marketplace does not trust.
    NFTAddressNotMatch,
}

impl ContractError {
    /// The name by which the failure is reported.
    pub open spec fn text(self) -> Seq<char> {
        match self {
            ContractError::NotFound => "NotFound"@,
            ContractError::Unauthorized => "Unauthorized"@,
            ContractError::NoFunds => "NoFunds"@,
            ContractError::MultipleDenoms => "MultipleDenoms"@,
            ContractError::DenomNotMatch => "DenomNotMatch"@,
            ContractError::PriceMustBePosiTive => "PriceMustBePosiTive"@,
            ContractError::SaleTypeMustBeFixedPrice => "SaleTypeMustBeFixedPrice"@,
            ContractError::SaleTypeMustBeAuction => "SaleTypeMustBeAuction"@,
            ContractError::InsufficientDeposit => "InsufficientDeposit"@,
            ContractError::BidExpiration => "BidExpiration"@,
            ContractError::NFTAddressNotMatch => "NFTAddressNotMatch"@,
        }
    }

    /// The name by which the failure is reported.
    pub fn to_string(&self) -> (text: String)
        ensures
            text@ == self.text(),
    {
        match self {
            ContractError::NotFound => String::from_str("NotFound"),
            ContractError::Unauthorized => String::from_str("Unauthorized"),
            ContractError::NoFunds => String::from_str("NoFunds"),
            ContractError::MultipleDenoms => String::from_str("MultipleDenoms"),
            ContractError::DenomNotMatch => String::from_str("DenomNotMatch"),
            ContractError::PriceMustBePosiTive => String::from_str("PriceMustBePosiTive"),
            ContractError::SaleTypeMustBeFixedPrice => String::from_str("SaleTypeMustBeFixedPrice"),
            ContractError::SaleTypeMustBeAuction => String::from_str("SaleTypeMustBeAuction"),
            ContractError::InsufficientDeposit => String::from_str("InsufficientDeposit"),
            ContractError::BidExpiration => String::from_str("BidExpiration"),
            ContractError::NFTAddressNotMatch => String::from_str("NFTAddressNotMatch"),
        }
    }
}

} // verus!
