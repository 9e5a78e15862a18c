//! What each operation does, as functions on views: from the marketplace
//! before and the message to the marketplace after and the response, or to the
//! reason for which the operation is refused.
//!
//! The executable operations are proved to compute exactly these functions.

use vstd::prelude::*;
use crate::decimal::decimal;
use crate::error::ContractError;
use crate::host::{
    attr, AttributeView, CoinView, Env, InstructionView, MessageInfoView, Response,
    ResponseView,
};
use crate::msg::{ExecuteMsgView, InstantiateMsgView, ReceiveNftMsgView};
use crate::royalty::royalty_fee;
use crate::state::{ContractInfoView, OfferingView, SaleType};
use crate::store::MarketView;

verus! {

/// How an operation ends: the marketplace after it and the response, or the
/// reason for which it was refused.
pub type Outcome = Result<(MarketView, ResponseView), ContractError>;

/// The outcome of an operation that is refused for the reason `e`.
pub open spec fn refused(e: ContractError) -> Outcome {
    Err(e)
}

/// Whether an operation that took the marketplace from `pre` to `post` and
/// returned `res` ended as `expected`. A refused operation changes nothing.
pub open spec fn ends_as(
    res: Result<Response, ContractError>,
    pre: MarketView,
    post: MarketView,
    expected: Outcome,
) -> bool {
    match expected {
        Ok((market, response)) => res matches Ok(r) && r@ =~= response && post =~= market,
        Err(e) => res matches Err(x) && x == e && post =~= pre,
    }
}

/// The one coin that a payment consists of: exactly one coin is attached, its
/// amount is above zero and it is of the marketplace's currency.
pub open spec fn one_coin_spec(native_denom: Seq<char>, funds: Seq<CoinView>) -> Result<
    CoinView,
    ContractError,
> {
    if funds.len() == 0 {
        Err(ContractError::NoFunds)
    } else if funds.len() > 1 {
        Err(ContractError::MultipleDenoms)
    } else if funds[0].amount == 0 {
        Err(ContractError::NoFunds)
    } else if funds[0].denom != native_denom {
        Err(ContractError::DenomNotMatch)
    } else {
        Ok(funds[0])
    }
}

/// An amount with its currency, as the attribute log shows it.
pub open spec fn price_text(amount: nat, denom: Seq<char>) -> Seq<char> {
    decimal(amount) + " "@ + denom
}

/// The instruction that hands the token of `offer` to `recipient`.
pub open spec fn hand_over(offer: OfferingView, recipient: Seq<char>) -> InstructionView {
    InstructionView::TransferNft {
        contract_addr: offer.nft_address,
        recipient,
        token_id: offer.token_id,
    }
}

/// The payment of `amount` in `denom` to `to_address`.
pub open spec fn pay(to_address: Seq<char>, amount: nat, denom: Seq<char>) -> InstructionView {
    InstructionView::Send { to_address, amount, denom }
}

/// What a sale of `offer` to `buyer` for `amount` asks of the host: the
/// royalty to its payee where one is owed, the rest to the seller, the token
/// to the buyer.
pub open spec fn sale_messages(
    offer: OfferingView,
    buyer: Seq<char>,
    amount: u128,
    denom: Seq<char>,
) -> Seq<InstructionView> {
    let fee = royalty_fee(amount, offer.royalty_info);
    let to_seller = pay(offer.seller, (amount - fee) as nat, denom);
    match offer.royalty_info {
        Some(royalty) if fee > 0 => seq![
            pay(royalty.payment_address, fee, denom),
            to_seller,
            hand_over(offer, buyer),
        ],
        _ => seq![to_seller, hand_over(offer, buyer)],
    }
}

/// What a sale of `offer` to `buyer` for `amount` logs.
pub open spec fn sale_attributes(
    offer: OfferingView,
    buyer: Seq<char>,
    amount: u128,
    denom: Seq<char>,
) -> Seq<AttributeView> {
    let fee = royalty_fee(amount, offer.royalty_info);
    seq![
        attr("action"@, "make_order"@),
        attr("seller"@, offer.seller),
        attr("buyer"@, buyer),
        attr("paid_price"@, price_text(amount as nat, denom)),
        attr("token_id"@, offer.token_id),
        attr("contract_addr"@, offer.nft_address),
        attr("net_price"@, decimal((amount - fee) as nat)),
        attr("royalty_fee"@, decimal(fee)),
    ]
}

/// The response to a sale of `offer` to `buyer` for `amount`.
pub open spec fn sale_response(
    offer: OfferingView,
    buyer: Seq<char>,
    amount: u128,
    denom: Seq<char>,
) -> ResponseView {
    ResponseView {
        messages: sale_messages(offer, buyer, amount, denom),
        attributes: sale_attributes(offer, buyer, amount, denom),
    }
}

/// Setting up: the administrator is the one named, else the sender; the
/// collections named are trusted, each once; nothing is listed.
pub open spec fn instantiate_spec(info: MessageInfoView, msg: InstantiateMsgView) -> (
    MarketView,
    ResponseView,
) {
    let admin = match msg.admin {
        Some(named) => named,
        None => info.sender,
    };
    let empty = MarketView::without_listings(
        admin,
        ContractInfoView { name: msg.name, native_denom: msg.native_denom },
        0,
    );
    (
        empty.with_all_trusted(msg.nft_contracts),
        ResponseView {
            messages: Seq::empty(),
            attributes: seq![
                attr("action"@, "instantiate"@),
                attr("name"@, msg.name),
                attr("admin"@, admin),
            ],
        },
    )
}

/// Trusting one more collection: for the administrator only; a collection
/// that is trusted already is not added again.
pub open spec fn add_nft_contract_spec(
    pre: MarketView,
    info: MessageInfoView,
    address: Seq<char>,
) -> Outcome {
    if pre.admin != info.sender {
        Err(ContractError::Unauthorized)
    } else {
        Ok(
            (
                pre.with_trusted(address),
                ResponseView {
                    messages: Seq::empty(),
                    attributes: seq![attr("action"@, "add_code_id"@)],
                },
            ),
        )
    }
}

/// Listing a token that came in: only from a trusted collection, and not at a
/// fixed price of zero. The listing gets the next identifier; the collection
/// is the sender of the message, the seller is who sent the token.
pub open spec fn receive_nft_spec(
    pre: MarketView,
    env: Env,
    info: MessageInfoView,
    msg: ReceiveNftMsgView,
) -> Outcome {
    if !pre.nft_contracts.contains(info.sender) {
        Err(ContractError::NFTAddressNotMatch)
    } else if msg.sale_type == SaleType::FixedPrice(0) {
        Err(ContractError::PriceMustBePosiTive)
    } else {
        let offer = OfferingView {
            token_id: msg.token_id,
            nft_address: info.sender,
            royalty_info: msg.royalty_info,
            seller: msg.sender,
            sale_type: msg.sale_type,
            listing_time: env.block.time,
        };
        Ok(
            (
                pre.with_listing(offer),
                ResponseView {
                    messages: Seq::empty(),
                    attributes: seq![
                        attr("action"@, "create_sale"@),
                        attr("original_contract"@, info.sender),
                        attr("seller"@, msg.sender),
                        attr("token_id"@, msg.token_id),
                    ],
                },
            ),
        )
    }
}

/// Buying at a fixed price: the payment must be one coin of the marketplace's
/// currency and cover the price. All of it is split between royalty payee and
/// seller, also what exceeds the price; the token goes to the buyer and the
/// listing is closed.
pub open spec fn make_offer_spec(pre: MarketView, info: MessageInfoView, id: Seq<char>) -> Outcome {
    if !pre.offerings.contains_key(id) {
        Err(ContractError::NotFound)
    } else {
        let offer = pre.offerings[id];
        match offer.sale_type {
            SaleType::Auction(_) => Err(ContractError::SaleTypeMustBeFixedPrice),
            SaleType::FixedPrice(price) => match one_coin_spec(
                pre.contract_info.native_denom,
                info.funds,
            ) {
                Err(e) => Err(e),
                Ok(coin) => if coin.amount < price {
                    Err(ContractError::InsufficientDeposit)
                } else {
                    Ok(
                        (
                            pre.without_listing(id),
                            sale_response(offer, info.sender, coin.amount, coin.denom),
                        ),
                    )
                },
            },
        }
    }
}

/// What an accepted bid logs.
pub open spec fn bid_attributes(
    offer: OfferingView,
    bidder: Seq<char>,
    coin: CoinView,
) -> Seq<AttributeView> {
    seq![
        attr("action"@, "bid"@),
        attr("bidder"@, bidder),
        attr("price"@, price_text(coin.amount as nat, coin.denom)),
        attr("token_id"@, offer.token_id),
        attr("contract_addr"@, offer.nft_address),
    ]
}

/// Bidding: on an auction that has not expired, with one coin of the
/// marketplace's currency. The first bid must reach the start price; a later
/// one must exceed the highest bid by more than the increment, and the bid
/// that it outdoes is paid back in full. The payment stays with the
/// marketplace.
pub open spec fn bid_spec(
    pre: MarketView,
    env: Env,
    info: MessageInfoView,
    id: Seq<char>,
) -> Outcome {
    if !pre.offerings.contains_key(id) {
        Err(ContractError::NotFound)
    } else {
        let offer = pre.offerings[id];
        match offer.sale_type {
            SaleType::FixedPrice(_) => Err(ContractError::SaleTypeMustBeAuction),
            SaleType::Auction(terms) => if terms.expiration.expired_at(env.block) {
                Err(ContractError::BidExpiration)
            } else {
                match one_coin_spec(pre.contract_info.native_denom, info.funds) {
                    Err(e) => Err(e),
                    Ok(coin) => {
                        let bidding = pre.bid_offerings[id];
                        let after = pre.with_bid(id, coin.amount, info.sender);
                        let log = bid_attributes(offer, info.sender, coin);
                        match bidding.highest_bid_price {
                            None => if terms.start_price <= coin.amount {
                                Ok((after, ResponseView { messages: Seq::empty(), attributes: log }))
                            } else {
                                Err(ContractError::InsufficientDeposit)
                            },
                            Some(highest) => if highest + terms.increment() < coin.amount {
                                Ok(
                                    (
                                        after,
                                        ResponseView {
                                            messages: seq![
                                                pay(bidding.address->0, highest as nat, coin.denom),
                                            ],
                                            attributes: log,
                                        },
                                    ),
                                )
                            } else {
                                Err(ContractError::InsufficientDeposit)
                            },
                        }
                    },
                }
            },
        }
    }
}

/// Closing an auction. The seller may at any time: the token goes back to the
/// seller, and nothing is paid, not even a bid that the marketplace holds.
/// The highest bidder may once the auction has expired: the bid is split
/// between royalty payee and seller and the token goes to the bidder. Either
/// way the listing is closed. Nobody else may.
pub open spec fn close_bid_spec(
    pre: MarketView,
    env: Env,
    info: MessageInfoView,
    id: Seq<char>,
) -> Outcome {
    if !pre.offerings.contains_key(id) {
        Err(ContractError::NotFound)
    } else {
        let offer = pre.offerings[id];
        match offer.sale_type {
            SaleType::FixedPrice(_) => Err(ContractError::SaleTypeMustBeAuction),
            SaleType::Auction(terms) => {
                let bidding = pre.bid_offerings[id];
                if info.sender == offer.seller {
                    Ok(
                        (
                            pre.without_listing(id),
                            ResponseView {
                                messages: seq![hand_over(offer, offer.seller)],
                                attributes: seq![
                                    attr("action"@, "seller_close_bid"@),
                                    attr("seller"@, info.sender),
                                    attr("offering_id"@, id),
                                ],
                            },
                        ),
                    )
                } else if bidding.address == Some(info.sender) && terms.expiration.expired_at(
                    env.block,
                ) {
                    Ok(
                        (
                            pre.without_listing(id),
                            sale_response(
                                offer,
                                info.sender,
                                bidding.highest_bid_price->0,
                                pre.contract_info.native_denom,
                            ),
                        ),
                    )
                } else {
                    Err(ContractError::Unauthorized)
                }
            },
        }
    }
}

/// Changing a fixed price: for the seller only, and to a price above zero.
pub open spec fn update_price_spec(
    pre: MarketView,
    info: MessageInfoView,
    id: Seq<char>,
    update_price: u128,
) -> Outcome {
    if !pre.offerings.contains_key(id) {
        Err(ContractError::NotFound)
    } else {
        let offer = pre.offerings[id];
        if offer.sale_type is Auction {
            Err(ContractError::SaleTypeMustBeFixedPrice)
        } else if info.sender != offer.seller {
            Err(ContractError::Unauthorized)
        } else if update_price == 0 {
            Err(ContractError::PriceMustBePosiTive)
        } else {
            Ok(
                (
                    pre.with_price(id, update_price),
                    ResponseView {
                        messages: Seq::empty(),
                        attributes: seq![
                            attr("action"@, "update_price"@),
                            attr("sender"@, info.sender),
                            attr("offering_id"@, id),
                            attr(
                                "update_price"@,
                                price_text(update_price as nat, pre.contract_info.native_denom),
                            ),
                        ],
                    },
                ),
            )
        }
    }
}

/// Taking a fixed-price listing back: for the seller only. The token goes
/// back to the seller and the listing is closed.
pub open spec fn withdraw_nft_spec(
    pre: MarketView,
    info: MessageInfoView,
    id: Seq<char>,
) -> Outcome {
    if !pre.offerings.contains_key(id) {
        Err(ContractError::NotFound)
    } else {
        let offer = pre.offerings[id];
        if offer.sale_type is Auction {
            Err(ContractError::SaleTypeMustBeFixedPrice)
        } else if info.sender != offer.seller {
            Err(ContractError::Unauthorized)
        } else {
            Ok(
                (
                    pre.without_listing(id),
                    ResponseView {
                        messages: seq![hand_over(offer, offer.seller)],
                        attributes: seq![
                            attr("action"@, "withdraw_nft"@),
                            attr("seller"@, info.sender),
                            attr("offering_id"@, id),
                        ],
                    },
                ),
            )
        }
    }
}

/// What a message does to the marketplace.
pub open spec fn execute_spec(
    pre: MarketView,
    env: Env,
    info: MessageInfoView,
    msg: ExecuteMsgView,
) -> Outcome {
    match msg {
        ExecuteMsgView::AddNFTContract { address } => add_nft_contract_spec(pre, info, address),
        ExecuteMsgView::WithdrawNft { offering_id } => withdraw_nft_spec(pre, info, offering_id),
        ExecuteMsgView::MakeOffer { offering_id } => make_offer_spec(pre, info, offering_id),
        ExecuteMsgView::Bid { offering_id } => bid_spec(pre, env, info, offering_id),
        ExecuteMsgView::CloseBid { offering_id } => close_bid_spec(pre, env, info, offering_id),
        ExecuteMsgView::UpdatePrice { offering_id, update_price } => update_price_spec(
            pre,
            info,
            offering_id,
            update_price,
        ),
        ExecuteMsgView::ReceiveNft(received) => receive_nft_spec(pre, env, info, received),
    }
}

} // verus!
