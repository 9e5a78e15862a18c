//! The operations of the marketplace.
//!
//! Each takes the marketplace, the environment and sender of the message and
//! the message's own fields. It either changes the marketplace and returns the
//! instructions for the host, or changes nothing and returns the reason.

use vstd::prelude::*;
use vstd::string::*;
use crate::decimal::decimal_string;
use crate::error::ContractError;
use crate::host::{Coin, Env, Instruction, MessageInfo, Response};
use crate::model::{
    add_nft_contract_spec, bid_spec, close_bid_spec, ends_as, hand_over, make_offer_spec,
    one_coin_spec, price_text, receive_nft_spec, sale_response, update_price_spec,
    withdraw_nft_spec,
};
use crate::msg::ReceiveNftMsg;
use crate::state::{Offering, SaleType};
use crate::store::Marketplace;

verus! {

/// An amount with its currency, as the attribute log shows it.
fn price_string(amount: u128, denom: &String) -> (text: String)
    ensures
        text@ == price_text(amount as nat, denom@),
{
    let mut text = decimal_string(amount);
    text.append(" ");
    text.append(denom.as_str());
    text
}

/// The instruction that hands the token of `offer` to `recipient`.
fn transfer_nft(offer: &Offering, recipient: &String) -> (msg: Instruction)
    ensures
        msg@ == hand_over(offer@, recipient@),
{
    Instruction::TransferNft {
        contract_addr: offer.nft_address.clone(),
        recipient: recipient.clone(),
        token_id: offer.token_id.clone(),
    }
}

/// Settles a sale of `offer` to `buyer` for `amount`: the royalty goes to its
/// payee where one is owed, the rest to the seller, the token to the buyer.
fn settle(offer: &Offering, buyer: &String, amount: u128, denom: &String) -> (response: Response)
    ensures
        response@ == sale_response(offer@, buyer@, amount, denom@),
{
    let mut messages: Vec<Instruction> = Vec::new();
    let royalty_fee: u128 = match &offer.royalty_info {
        Some(royalty) => {
            let fee = royalty.share.of(amount);
            if fee > 0 {
                messages.push(
                    Instruction::Send {
                        to_address: royalty.payment_address.clone(),
                        amount: fee,
                        denom: denom.clone(),
                    },
                );
            }
            fee
        },
        None => 0,
    };
    let net_price: u128 = amount - royalty_fee;
    messages.push(
        Instruction::Send { to_address: offer.seller.clone(), amount: net_price, denom: denom.clone() },
    );
    messages.push(transfer_nft(offer, buyer));
    let response = Response::new()
        .add_messages(messages)
        .add_attribute("action", String::from_str("make_order"))
        .add_attribute("seller", offer.seller.clone())
        .add_attribute("buyer", buyer.clone())
        .add_attribute("paid_price", price_string(amount, denom))
        .add_attribute("token_id", offer.token_id.clone())
        .add_attribute("contract_addr", offer.nft_address.clone())
        .add_attribute("net_price", decimal_string(net_price))
        .add_attribute("royalty_fee", decimal_string(royalty_fee));
    assert(response@ =~= sale_response(offer@, buyer@, amount, denom@));
    response
}

/// Whether the sender of a message is the administrator.
pub fn ensure_admin(market: &Marketplace, info: &MessageInfo) -> (res: Result<(), ContractError>)
    ensures
        market@.admin == info@.sender ==> res is Ok,
        market@.admin != info@.sender ==> res == Err::<(), _>(ContractError::Unauthorized),
{
    if *market.admin() != info.sender {
        Err(ContractError::Unauthorized)
    } else {
        Ok(())
    }
}

/// Whether the sender of a message is a trusted collection.
pub fn ensure_trusted(market: &Marketplace, info: &MessageInfo) -> (res: Result<(), ContractError>)
    ensures
        market@.nft_contracts.contains(info@.sender) ==> res is Ok,
        !market@.nft_contracts.contains(info@.sender) ==> res == Err::<(), _>(
            ContractError::NFTAddressNotMatch,
        ),
{
    if market.is_trusted(&info.sender) {
        Ok(())
    } else {
        Err(ContractError::NFTAddressNotMatch)
    }
}

/// The one coin that the payment attached to a message consists of. Exactly
/// one coin must be attached, of an amount above zero and of the
/// marketplace's currency.
pub fn one_coin(market: &Marketplace, info: &MessageInfo) -> (res: Result<Coin, ContractError>)
    ensures
        match one_coin_spec(market@.contract_info.native_denom, info@.funds) {
            Ok(coin) => res matches Ok(c) && c@ == coin,
            Err(e) => res matches Err(x) && x == e,
        },
{
    if info.funds.len() == 0 {
        Err(ContractError::NoFunds)
    } else if info.funds.len() > 1 {
        Err(ContractError::MultipleDenoms)
    } else {
        let coin = &info.funds[0];
        if coin.amount == 0 {
            Err(ContractError::NoFunds)
        } else if coin.denom != market.contract_info().native_denom {
            Err(ContractError::DenomNotMatch)
        } else {
            Ok(Coin { denom: coin.denom.clone(), amount: coin.amount })
        }
    }
}

/// Ends the auction `offering_id`.
///
/// The seller may do so at any time: the token goes back to the seller. No
/// payment is made on this path, so a bid that the marketplace holds stays
/// with it. The highest bidder may do so once the auction has expired: the
/// bid is split between royalty payee and seller, and the token goes to the
/// bidder. Either way the listing and its bidding state are removed.
pub fn exec_close_bid(
    market: &mut Marketplace,
    env: Env,
    info: MessageInfo,
    offering_id: String,
) -> (res: Result<Response, ContractError>)
    requires
        old(market).wf(),
    ensures
        final(market).wf(),
        ends_as(
            res,
            old(market)@,
            final(market)@,
            close_bid_spec(old(market)@, env, info@, offering_id@),
        ),
{
    proof {
        market.lemma_wf_valid();
    }
    let response = {
        let offer = match market.offering(&offering_id) {
            Some(offer) => offer,
            None => {
                return Err(ContractError::NotFound);
            },
        };
        match offer.sale_type {
            SaleType::FixedPrice(_) => {
                return Err(ContractError::SaleTypeMustBeAuction);
            },
            SaleType::Auction(terms) => {
                let bidding = market.bid_offering(&offering_id).unwrap();
                if info.sender == offer.seller {
                    Response::new()
                        .add_message(transfer_nft(offer, &offer.seller))
                        .add_attribute("action", String::from_str("seller_close_bid"))
                        .add_attribute("seller", info.sender.clone())
                        .add_attribute("offering_id", offering_id.clone())
                } else {
                    let is_highest_bidder = match &bidding.address {
                        Some(bidder) => *bidder == info.sender,
                        None => false,
                    };
                    if is_highest_bidder && terms.expiration.is_expired(&env.block) {
                        settle(
                            offer,
                            &info.sender,
                            bidding.highest_price(),
                            &market.contract_info().native_denom,
                        )
                    } else {
                        return Err(ContractError::Unauthorized);
                    }
                }
            },
        }
    };
    market.remove_listing(&offering_id);
    Ok(response)
}

/// Buys the fixed-price listing `offering_id` with the attached payment.
///
/// The payment must cover the price. All of it is split between royalty payee
/// and seller, also what exceeds the price. The token goes to the sender and
/// the listing is removed.
pub fn exec_make_offer(
    market: &mut Marketplace,
    _env: Env,
    info: MessageInfo,
    offering_id: String,
) -> (res: Result<Response, ContractError>)
    requires
        old(market).wf(),
    ensures
        final(market).wf(),
        ends_as(
            res,
            old(market)@,
            final(market)@,
            make_offer_spec(old(market)@, info@, offering_id@),
        ),
{
    let response = {
        let offer = match market.offering(&offering_id) {
            Some(offer) => offer,
            None => {
                return Err(ContractError::NotFound);
            },
        };
        match offer.sale_type {
            SaleType::Auction(_) => {
                return Err(ContractError::SaleTypeMustBeFixedPrice);
            },
            SaleType::FixedPrice(price) => {
                let coin = match one_coin(market, &info) {
                    Ok(coin) => coin,
                    Err(e) => {
                        return Err(e);
                    },
                };
                if coin.amount < price {
                    return Err(ContractError::InsufficientDeposit);
                }
                settle(offer, &info.sender, coin.amount, &coin.denom)
            },
        }
    };
    market.remove_listing(&offering_id);
    Ok(response)
}

/// Lists a token that has come into the marketplace's custody.
///
/// The message must come from a trusted collection; that collection is the
/// one told to hand the token over later. The seller is who sent the token.
/// The listing gets the next identifier and the block's time as its listing
/// time; an auction starts with no bid. A fixed price of zero is refused.
pub fn exec_receive_nft(
    market: &mut Marketplace,
    env: Env,
    info: MessageInfo,
    rcv_msg: ReceiveNftMsg,
) -> (res: Result<Response, ContractError>)
    requires
        old(market).wf(),
        old(market)@.offerings_count < u64::MAX,
    ensures
        final(market).wf(),
        ends_as(
            res,
            old(market)@,
            final(market)@,
            receive_nft_spec(old(market)@, env, info@, rcv_msg@),
        ),
{
    if let Err(e) = ensure_trusted(market, &info) {
        return Err(e);
    }
    let ReceiveNftMsg { sender, token_id, sale_type, royalty_info } = rcv_msg;
    let offer = Offering {
        token_id: token_id.clone(),
        nft_address: info.sender.clone(),
        royalty_info,
        seller: sender.clone(),
        sale_type,
        listing_time: env.block.time,
    };
    match market.create_listing(offer) {
        Err(e) => Err(e),
        Ok(_) => Ok(
            Response::new()
                .add_attribute("action", String::from_str("create_sale"))
                .add_attribute("original_contract", info.sender)
                .add_attribute("seller", sender)
                .add_attribute("token_id", token_id),
        ),
    }
}

/// Bids the attached payment on the auction `offering_id`.
///
/// The auction must not have expired. The first bid must reach the start
/// price. A later bid must exceed the highest bid by more than the increment;
/// the bidder that it outdoes is paid back in full. The payment stays with
/// the marketplace until the auction is closed or the bid is outdone.
pub fn exec_bid(
    market: &mut Marketplace,
    env: Env,
    info: MessageInfo,
    offering_id: String,
) -> (res: Result<Response, ContractError>)
    requires
        old(market).wf(),
    ensures
        final(market).wf(),
        ends_as(
            res,
            old(market)@,
            final(market)@,
            bid_spec(old(market)@, env, info@, offering_id@),
        ),
{
    proof {
        market.lemma_wf_valid();
    }
    let (amount, response) = {
        let offer = match market.offering(&offering_id) {
            Some(offer) => offer,
            None => {
                return Err(ContractError::NotFound);
            },
        };
        let terms = match offer.sale_type {
            SaleType::FixedPrice(_) => {
                return Err(ContractError::SaleTypeMustBeAuction);
            },
            SaleType::Auction(terms) => terms,
        };
        if terms.expiration.is_expired(&env.block) {
            return Err(ContractError::BidExpiration);
        }
        let bidding = market.bid_offering(&offering_id).unwrap();
        let coin = match one_coin(market, &info) {
            Ok(coin) => coin,
            Err(e) => {
                return Err(e);
            },
        };
        let mut messages: Vec<Instruction> = Vec::new();
        match bidding.highest_bid_price {
            None => {
                if terms.start_price > coin.amount {
                    return Err(ContractError::InsufficientDeposit);
                }
            },
            Some(highest) => {
                let increase_per_bid = terms.increase_per_bid.unwrap_or(0);
                let outdone = match highest.checked_add(increase_per_bid) {
                    Some(least) => least < coin.amount,
                    None => false,
                };
                if !outdone {
                    return Err(ContractError::InsufficientDeposit);
                }
                let previous_bidder = bidding.address.as_ref().unwrap();
                messages.push(
                    Instruction::Send {
                        to_address: previous_bidder.clone(),
                        amount: highest,
                        denom: coin.denom.clone(),
                    },
                );
            },
        }
        (
            coin.amount,
            Response::new()
                .add_messages(messages)
                .add_attribute("action", String::from_str("bid"))
                .add_attribute("bidder", info.sender.clone())
                .add_attribute("price", price_string(coin.amount, &coin.denom))
                .add_attribute("token_id", offer.token_id.clone())
                .add_attribute("contract_addr", offer.nft_address.clone()),
        )
    };
    market.record_bid(&offering_id, amount, info.sender);
    Ok(response)
}

/// Takes the fixed-price listing `offering_id` back. Only its seller may: the
/// token goes back to the seller and the listing is removed.
pub fn exec_withdraw_nft(
    market: &mut Marketplace,
    _env: Env,
    info: MessageInfo,
    offering_id: String,
) -> (res: Result<Response, ContractError>)
    requires
        old(market).wf(),
    ensures
        final(market).wf(),
        ends_as(
            res,
            old(market)@,
            final(market)@,
            withdraw_nft_spec(old(market)@, info@, offering_id@),
        ),
{
    let response = {
        let offer = match market.offering(&offering_id) {
            Some(offer) => offer,
            None => {
                return Err(ContractError::NotFound);
            },
        };
        match offer.sale_type {
            SaleType::Auction(_) => {
                return Err(ContractError::SaleTypeMustBeFixedPrice);
            },
            SaleType::FixedPrice(_) => {},
        }
        if info.sender != offer.seller {
            return Err(ContractError::Unauthorized);
        }
        Response::new()
            .add_message(transfer_nft(offer, &offer.seller))
            .add_attribute("action", String::from_str("withdraw_nft"))
            .add_attribute("seller", info.sender)
            .add_attribute("offering_id", offering_id.clone())
    };
    market.remove_listing(&offering_id);
    Ok(response)
}

/// Sets the price of the fixed-price listing `offering_id` to `update_price`.
/// Only its seller may, and the price must be above zero.
pub fn exec_update_price(
    market: &mut Marketplace,
    _env: Env,
    info: MessageInfo,
    offering_id: String,
    update_price: u128,
) -> (res: Result<Response, ContractError>)
    requires
        old(market).wf(),
    ensures
        final(market).wf(),
        ends_as(
            res,
            old(market)@,
            final(market)@,
            update_price_spec(old(market)@, info@, offering_id@, update_price),
        ),
{
    {
        let offer = match market.offering(&offering_id) {
            Some(offer) => offer,
            None => {
                return Err(ContractError::NotFound);
            },
        };
        match offer.sale_type {
            SaleType::Auction(_) => {
                return Err(ContractError::SaleTypeMustBeFixedPrice);
            },
            SaleType::FixedPrice(_) => {},
        }
        if info.sender != offer.seller {
            return Err(ContractError::Unauthorized);
        }
        if update_price == 0 {
            return Err(ContractError::PriceMustBePosiTive);
        }
    }
    market.set_price(&offering_id, update_price);
    let price = price_string(update_price, &market.contract_info().native_denom);
    Ok(
        Response::new()
            .add_attribute("action", String::from_str("update_price"))
            .add_attribute("sender", info.sender)
            .add_attribute("offering_id", offering_id)
            .add_attribute("update_price", price),
    )
}

/// Adds the collection `address` to those from which tokens are accepted.
/// Only the administrator may. Adding a collection that is trusted already
/// changes nothing.
pub fn exec_add_nft_contract(
    market: &mut Marketplace,
    _env: Env,
    info: MessageInfo,
    address: String,
) -> (res: Result<Response, ContractError>)
    requires
        old(market).wf(),
    ensures
        final(market).wf(),
        ends_as(
            res,
            old(market)@,
            final(market)@,
            add_nft_contract_spec(old(market)@, info@, address@),
        ),
{
    if let Err(e) = ensure_admin(market, &info) {
        return Err(e);
    }
    market.trust(address);
    Ok(Response::new().add_attribute("action", String::from_str("add_code_id")))
}

} // verus!
