//! What holds of the marketplace whatever is asked of it, proved from the
//! model of the operations.

use vstd::prelude::*;
use crate::decimal::{decimal, lemma_decimal_injective};
use crate::error::ContractError;
use crate::host::{Env, InstructionView, MessageInfoView};
use crate::model::{
    bid_spec, close_bid_spec, execute_spec, hand_over, make_offer_spec, one_coin_spec, pay,
    receive_nft_spec, refused, sale_messages, update_price_spec, withdraw_nft_spec,
};
use crate::msg::{ExecuteMsgView, ReceiveNftMsgView};
use crate::royalty::{lemma_share_of_bounded, royalty_fee, SHARE_ONE};
use crate::state::{OfferingView, SaleType};
use crate::store::{offering_valid, MarketView};

verus! {

/// One message with its environment and sender.
pub struct Call {
    pub env: Env,
    pub info: MessageInfoView,
    pub msg: ExecuteMsgView,
}

impl Call {
    /// Whether the message is one that can be sent: the royalty share that
    /// comes with a received token is at most one.
    pub open spec fn valid(self) -> bool {
        self.msg matches ExecuteMsgView::ReceiveNft(received) ==> (received.royalty_info matches Some(
            royalty,
        ) ==> royalty.share <= SHARE_ONE)
    }
}

/// The marketplace after one call: changed as the operation says, or
/// unchanged where the operation was refused.
pub open spec fn step(pre: MarketView, call: Call) -> MarketView {
    match execute_spec(pre, call.env, call.info, call.msg) {
        Ok((post, _)) => post,
        Err(_) => pre,
    }
}

/// The marketplace after a sequence of calls.
pub open spec fn run(pre: MarketView, calls: Seq<Call>) -> MarketView
    decreases calls.len(),
{
    if calls.len() == 0 {
        pre
    } else {
        step(run(pre, calls.drop_last()), calls.last())
    }
}

/// Whether the listing `id` is closed: its identifier was issued and no
/// listing is open under it.
pub open spec fn closed(market: MarketView, id: Seq<char>) -> bool {
    &&& market.issued(id)
    &&& !market.offerings.contains_key(id)
    &&& !market.bid_offerings.contains_key(id)
}

/// The identifier that the next listing gets has not been issued, and nothing
/// is listed under it.
pub proof fn lemma_next_id_is_fresh(market: MarketView)
    requires
        market.valid(),
    ensures
        !market.issued(market.next_id()),
        !market.offerings.contains_key(market.next_id()),
        !market.bid_offerings.contains_key(market.next_id()),
{
    let next = market.next_id();
    if market.issued(next) {
        let n = choose|n: nat| 1 <= n <= market.offerings_count && next == #[trigger] decimal(n);
        lemma_decimal_injective(n, market.offerings_count + 1);
    }
}

/// An identifier that was issued stays issued when the counter moves on.
proof fn lemma_issued_stays(pre: MarketView, post: MarketView, id: Seq<char>)
    requires
        pre.issued(id),
        pre.offerings_count <= post.offerings_count,
    ensures
        post.issued(id),
{
    let n = choose|n: nat| 1 <= n <= pre.offerings_count && id == #[trigger] decimal(n);
    assert(1 <= n <= post.offerings_count && id == decimal(n));
}

/// Every operation keeps the marketplace's invariant.
pub proof fn law_step_keeps_valid(pre: MarketView, call: Call)
    requires
        pre.valid(),
        call.valid(),
    ensures
        step(pre, call).valid(),
{
    let post = step(pre, call);
    if execute_spec(pre, call.env, call.info, call.msg) is Ok {
        match call.msg {
            ExecuteMsgView::ReceiveNft(received) => {
                lemma_next_id_is_fresh(pre);
                let next = pre.next_id();
                assert(1 <= pre.offerings_count + 1 <= post.offerings_count && next == decimal(
                    pre.offerings_count + 1,
                ));
                assert(post.issued(next));
                assert forall|id: Seq<char>| #[trigger] post.offerings.contains_key(id) implies (
                post.issued(id) && offering_valid(post.offerings[id])) by {
                    if id != next {
                        lemma_issued_stays(pre, post, id);
                    }
                }
            },
            ExecuteMsgView::AddNFTContract { address } => {},
            ExecuteMsgView::WithdrawNft { offering_id } => {},
            ExecuteMsgView::MakeOffer { offering_id } => {},
            ExecuteMsgView::Bid { offering_id } => {},
            ExecuteMsgView::CloseBid { offering_id } => {},
            ExecuteMsgView::UpdatePrice { offering_id, update_price } => {},
        }
    }
}

/// No operation opens a listing under an identifier that was issued before,
/// and none takes an issued identifier back: a listing that is closed stays
/// closed. A listing that opens does so under the next identifier, which was
/// never in use.
pub proof fn law_step_never_reopens(pre: MarketView, call: Call, id: Seq<char>)
    requires
        pre.valid(),
        closed(pre, id),
    ensures
        closed(step(pre, call), id),
        step(pre, call).offerings_count >= pre.offerings_count,
        forall|other: Seq<char>|
            !pre.offerings.contains_key(other) && #[trigger] step(pre, call).offerings.contains_key(
                other,
            ) ==> other == pre.next_id() && !pre.issued(other),
{
    let post = step(pre, call);
    lemma_next_id_is_fresh(pre);
    assert(post.offerings_count >= pre.offerings_count);
    lemma_issued_stays(pre, post, id);
}

/// After any sequence of operations the marketplace's invariant holds and a
/// listing that was closed before is still closed: an identifier is never in
/// use a second time.
pub proof fn law_closed_listings_stay_closed(pre: MarketView, calls: Seq<Call>, id: Seq<char>)
    requires
        pre.valid(),
        forall|i: int| 0 <= i < calls.len() ==> (#[trigger] calls[i]).valid(),
        closed(pre, id),
    ensures
        run(pre, calls).valid(),
        closed(run(pre, calls), id),
        run(pre, calls).offerings_count >= pre.offerings_count,
    decreases calls.len(),
{
    if calls.len() > 0 {
        let before = calls.drop_last();
        assert forall|i: int| 0 <= i < before.len() implies (#[trigger] before[i]).valid() by {
            assert(before[i] == calls[i]);
        }
        law_closed_listings_stay_closed(pre, before, id);
        let mid = run(pre, before);
        assert(calls.last() == calls[calls.len() - 1]);
        law_step_keeps_valid(mid, calls.last());
        law_step_never_reopens(mid, calls.last(), id);
    }
}

/// What a list of instructions pays out in all.
pub open spec fn paid_out(messages: Seq<InstructionView>) -> nat
    decreases messages.len(),
{
    if messages.len() == 0 {
        0
    } else {
        paid_out(messages.drop_last()) + match messages.last() {
            InstructionView::Send { amount, .. } => amount,
            InstructionView::TransferNft { .. } => 0,
        }
    }
}

/// A sale pays out the whole payment, no more and no less: the royalty, the
/// share of the payment rounded down, to the royalty payee, and the rest to
/// the seller. The token goes to the buyer.
pub proof fn law_sale_pays_out_the_payment(
    offer: OfferingView,
    buyer: Seq<char>,
    amount: u128,
    denom: Seq<char>,
)
    requires
        offering_valid(offer),
    ensures
        royalty_fee(amount, offer.royalty_info) <= amount,
        paid_out(sale_messages(offer, buyer, amount, denom)) == amount,
        sale_messages(offer, buyer, amount, denom).last() == hand_over(offer, buyer),
        sale_messages(offer, buyer, amount, denom).contains(
            pay(offer.seller, (amount - royalty_fee(amount, offer.royalty_info)) as nat, denom),
        ),
        offer.royalty_info matches Some(royalty) ==> royalty_fee(amount, offer.royalty_info) > 0
            ==> sale_messages(offer, buyer, amount, denom)[0] == pay(
            royalty.payment_address,
            royalty_fee(amount, offer.royalty_info),
            denom,
        ),
{
    let fee = royalty_fee(amount, offer.royalty_info);
    if let Some(royalty) = offer.royalty_info {
        lemma_share_of_bounded(amount as nat, royalty.share);
    }
    let msgs = sale_messages(offer, buyer, amount, denom);
    let to_seller = pay(offer.seller, (amount - fee) as nat, denom);
    let none = Seq::<InstructionView>::empty();
    assert(paid_out(none) == 0);
    if offer.royalty_info is Some && fee > 0 {
        let first = pay(offer.royalty_info->0.payment_address, fee, denom);
        assert(msgs.drop_last() =~= seq![first, to_seller]);
        assert(seq![first, to_seller].drop_last() =~= seq![first]);
        assert(seq![first].drop_last() =~= none);
        assert(seq![first].last() == first);
        assert(paid_out(seq![first]) == fee);
        assert(seq![first, to_seller].last() == to_seller);
        assert(paid_out(seq![first, to_seller]) == amount);
        assert(msgs[1] == to_seller);
    } else {
        assert(msgs.drop_last() =~= seq![to_seller]);
        assert(seq![to_seller].drop_last() =~= none);
        assert(seq![to_seller].last() == to_seller);
        assert(paid_out(seq![to_seller]) == amount);
        assert(msgs[0] == to_seller);
    }
}

/// A payment of one coin of the marketplace's currency that covers the price
/// buys a fixed-price listing: the whole payment is paid out, the token goes
/// to the buyer, the listing is closed, and the same purchase cannot be made
/// again.
pub proof fn law_purchase_settles_and_closes(pre: MarketView, info: MessageInfoView, id: Seq<char>)
    requires
        pre.valid(),
        pre.offerings.contains_key(id),
        pre.offerings[id].sale_type matches SaleType::FixedPrice(price) && (one_coin_spec(
            pre.contract_info.native_denom,
            info.funds,
        ) matches Ok(coin) && price <= coin.amount),
    ensures
        make_offer_spec(pre, info, id) matches Ok((post, response)) && ({
            &&& paid_out(response.messages) == info.funds[0].amount
            &&& response.messages.last() == hand_over(pre.offerings[id], info.sender)
            &&& closed(post, id)
            &&& make_offer_spec(post, info, id) == refused(ContractError::NotFound)
        }),
{
    let coin = info.funds[0];
    law_sale_pays_out_the_payment(pre.offerings[id], info.sender, coin.amount, coin.denom);
}

/// A first bid below the start price is refused as an insufficient deposit,
/// and the marketplace, the bidding with it, stays as it was. This is said of
/// a bid that gets as far as the price: on an open auction that has not
/// expired, with one coin of the marketplace's currency.
pub proof fn law_first_bid_below_start_price_is_refused(
    pre: MarketView,
    env: Env,
    info: MessageInfoView,
    id: Seq<char>,
)
    requires
        pre.valid(),
        pre.offerings.contains_key(id),
        pre.offerings[id].sale_type matches SaleType::Auction(terms) && !terms.expiration.expired_at(
            env.block,
        ) && (one_coin_spec(pre.contract_info.native_denom, info.funds) matches Ok(coin)
            && coin.amount < terms.start_price),
        pre.bid_offerings[id].highest_bid_price is None,
    ensures
        bid_spec(pre, env, info, id) == refused(ContractError::InsufficientDeposit),
        step(pre, Call { env, info, msg: ExecuteMsgView::Bid { offering_id: id } }) == pre,
{
}

/// Of two bids in a row on a new auction, the first reaching the start price
/// and the second exceeding the first by more than the increment, both are
/// accepted; the second pays the first back in full to its bidder and nothing
/// else, and leaves the second bid and its bidder as the highest.
pub proof fn law_second_bid_pays_back_the_first(
    pre: MarketView,
    id: Seq<char>,
    env1: Env,
    info1: MessageInfoView,
    env2: Env,
    info2: MessageInfoView,
)
    requires
        pre.valid(),
        pre.offerings.contains_key(id),
        pre.bid_offerings[id].highest_bid_price is None,
        pre.offerings[id].sale_type matches SaleType::Auction(terms) && !terms.expiration.expired_at(
            env1.block,
        ) && !terms.expiration.expired_at(env2.block) && (one_coin_spec(
            pre.contract_info.native_denom,
            info1.funds,
        ) matches Ok(first) && (one_coin_spec(
            pre.contract_info.native_denom,
            info2.funds,
        ) matches Ok(second) && terms.start_price <= first.amount && first.amount
            + terms.increment() < second.amount)),
    ensures
        bid_spec(pre, env1, info1, id) matches Ok((mid, _)) && (bid_spec(
            mid,
            env2,
            info2,
            id,
        ) matches Ok((post, response)) && ({
            let first = one_coin_spec(pre.contract_info.native_denom, info1.funds)->Ok_0;
            let second = one_coin_spec(pre.contract_info.native_denom, info2.funds)->Ok_0;
            &&& response.messages == seq![pay(info1.sender, first.amount as nat, second.denom)]
            &&& post.bid_offerings[id].highest_bid_price == Some(second.amount)
            &&& post.bid_offerings[id].address == Some(info2.sender)
            &&& post.offerings == pre.offerings
        })),
{
}

/// As long as an auction is open its highest bid only rises, the bid and its
/// bidder change together, and the time at which the auction started stays.
pub proof fn law_highest_bid_only_rises(pre: MarketView, call: Call, id: Seq<char>)
    requires
        pre.valid(),
        pre.bid_offerings.contains_key(id),
        step(pre, call).bid_offerings.contains_key(id),
    ensures
        ({
            let before = pre.bid_offerings[id];
            let after = step(pre, call).bid_offerings[id];
            &&& after.start_timestamp == before.start_timestamp
            &&& after.consistent()
            &&& before.highest_bid_price matches Some(was) ==> (
            after.highest_bid_price matches Some(is) && was <= is)
            &&& after.highest_bid_price == before.highest_bid_price ==> after.address
                == before.address
        }),
{
    lemma_next_id_is_fresh(pre);
}

/// What the marketplace holds in custody for the auction `id`: the highest
/// bid, or nothing where there is no bid or no such auction.
pub open spec fn held_for(market: MarketView, id: Seq<char>) -> nat {
    if market.bid_offerings.contains_key(id) {
        match market.bid_offerings[id].highest_bid_price {
            Some(price) => price as nat,
            None => 0,
        }
    } else {
        0
    }
}

/// An accepted bid leaves the marketplace holding exactly the new highest
/// bid: what was held before and what came in equals what is held after and
/// what is paid back.
pub proof fn law_accepted_bid_is_held(
    pre: MarketView,
    env: Env,
    info: MessageInfoView,
    id: Seq<char>,
)
    requires
        pre.valid(),
        bid_spec(pre, env, info, id) is Ok,
    ensures
        bid_spec(pre, env, info, id) matches Ok((post, response)) && held_for(pre, id)
            + info.funds[0].amount == held_for(post, id) + paid_out(response.messages)
            && held_for(post, id) == info.funds[0].amount,
{
    let (post, response) = bid_spec(pre, env, info, id)->Ok_0;
    let none = Seq::<InstructionView>::empty();
    assert(paid_out(none) == 0);
    if response.messages.len() > 0 {
        assert(response.messages.drop_last() =~= none);
    }
}

/// When the highest bidder closes an expired auction, what is paid out is
/// exactly the bid that the marketplace held, and nothing is held after.
pub proof fn law_winning_bid_is_paid_out(
    pre: MarketView,
    env: Env,
    info: MessageInfoView,
    id: Seq<char>,
)
    requires
        pre.valid(),
        close_bid_spec(pre, env, info, id) is Ok,
        info.sender != pre.offerings[id].seller,
    ensures
        close_bid_spec(pre, env, info, id) matches Ok((post, response)) && paid_out(
            response.messages,
        ) == held_for(pre, id) && held_for(post, id) == 0 && response.messages.last() == hand_over(
            pre.offerings[id],
            info.sender,
        ),
{
    let price = pre.bid_offerings[id].highest_bid_price->0;
    law_sale_pays_out_the_payment(
        pre.offerings[id],
        info.sender,
        price,
        pre.contract_info.native_denom,
    );
}

/// When the seller closes an auction the token goes back to the seller and
/// nothing is paid out, whatever the marketplace held for the auction.
pub proof fn law_seller_close_pays_nothing(
    pre: MarketView,
    env: Env,
    info: MessageInfoView,
    id: Seq<char>,
)
    requires
        pre.valid(),
        pre.offerings.contains_key(id),
        pre.offerings[id].sale_type is Auction,
        info.sender == pre.offerings[id].seller,
    ensures
        close_bid_spec(pre, env, info, id) matches Ok((post, response)) && response.messages
            == seq![hand_over(pre.offerings[id], pre.offerings[id].seller)] && paid_out(
            response.messages,
        ) == 0 && closed(post, id),
{
    let response = close_bid_spec(pre, env, info, id)->Ok_0.1;
    let none = Seq::<InstructionView>::empty();
    assert(paid_out(none) == 0);
    assert(response.messages.drop_last() =~= none);
}

/// Who is neither the seller nor the highest bidder cannot close an auction:
/// the attempt is refused as unauthorized, whatever the time and the state of
/// the bidding. This is said of listings that are open and are auctions.
pub proof fn law_stranger_cannot_close_auction(
    pre: MarketView,
    env: Env,
    info: MessageInfoView,
    id: Seq<char>,
)
    requires
        pre.valid(),
        pre.offerings.contains_key(id),
        pre.offerings[id].sale_type is Auction,
        info.sender != pre.offerings[id].seller,
        pre.bid_offerings[id].address != Some(info.sender),
    ensures
        close_bid_spec(pre, env, info, id) == refused(ContractError::Unauthorized),
{
}

/// The seller of an open fixed-price listing cannot set its price to zero,
/// and can set it to any price above zero; setting the same price again
/// changes nothing and answers the same.
pub proof fn law_update_price(pre: MarketView, info: MessageInfoView, id: Seq<char>, price: u128)
    requires
        pre.offerings.contains_key(id),
        pre.offerings[id].sale_type is FixedPrice,
        info.sender == pre.offerings[id].seller,
    ensures
        price == 0 ==> update_price_spec(pre, info, id, price) == refused(ContractError::PriceMustBePosiTive),
        price > 0 ==> (update_price_spec(pre, info, id, price) matches Ok((post, response))
            && post.offerings[id].sale_type == SaleType::FixedPrice(price)
            && update_price_spec(post, info, id, price) == update_price_spec(pre, info, id, price)),
{
    if price > 0 {
        let post = pre.with_price(id, price);
        assert(post.with_price(id, price) =~= post);
    }
}

/// A token that is listed at a fixed price and at once withdrawn by its
/// seller goes back to the seller, through the collection that it came from,
/// and leaves the listings as they were; only the counter has moved on.
pub proof fn law_list_then_withdraw(
    pre: MarketView,
    env: Env,
    info: MessageInfoView,
    received: ReceiveNftMsgView,
    seller: MessageInfoView,
)
    requires
        pre.valid(),
        receive_nft_spec(pre, env, info, received) is Ok,
        received.sale_type is FixedPrice,
        seller.sender == received.sender,
    ensures
        receive_nft_spec(pre, env, info, received) matches Ok((listed, _)) && (withdraw_nft_spec(
            listed,
            seller,
            pre.next_id(),
        ) matches Ok((post, response)) && response.messages == seq![
            InstructionView::TransferNft {
                contract_addr: info.sender,
                recipient: received.sender,
                token_id: received.token_id,
            },
        ] && post == pre.with_next_count()),
{
    lemma_next_id_is_fresh(pre);
    let listed = receive_nft_spec(pre, env, info, received)->Ok_0.0;
    let post = listed.without_listing(pre.next_id());
    assert(post =~= pre.with_next_count());
}

/// A token that is listed for auction and at once closed by its seller goes
/// back to the seller, through the collection that it came from, and leaves
/// the listings and the bidding states as they were; only the counter has
/// moved on.
pub proof fn law_list_then_seller_close(
    pre: MarketView,
    env: Env,
    info: MessageInfoView,
    received: ReceiveNftMsgView,
    close_env: Env,
    seller: MessageInfoView,
)
    requires
        pre.valid(),
        receive_nft_spec(pre, env, info, received) is Ok,
        received.sale_type is Auction,
        seller.sender == received.sender,
    ensures
        receive_nft_spec(pre, env, info, received) matches Ok((listed, _)) && (close_bid_spec(
            listed,
            close_env,
            seller,
            pre.next_id(),
        ) matches Ok((post, response)) && response.messages == seq![
            InstructionView::TransferNft {
                contract_addr: info.sender,
                recipient: received.sender,
                token_id: received.token_id,
            },
        ] && post == pre.with_next_count()),
{
    lemma_next_id_is_fresh(pre);
    let listed = receive_nft_spec(pre, env, info, received)->Ok_0.0;
    let post = listed.without_listing(pre.next_id());
    assert(post =~= pre.with_next_count());
}

/// Trusting a list of collections leaves none of them trusted twice, trusts
/// each of them, and trusts nothing that was not trusted before or is in the
/// list.
pub proof fn law_trusting_all(market: MarketView, addresses: Seq<Seq<char>>)
    requires
        market.nft_contracts.no_duplicates(),
    ensures
        market.with_all_trusted(addresses).nft_contracts.no_duplicates(),
        forall|a: Seq<char>|
            #[trigger] market.with_all_trusted(addresses).nft_contracts.contains(a)
                <==> market.nft_contracts.contains(a) || addresses.contains(a),
    decreases addresses.len(),
{
    if addresses.len() > 0 {
        let before = addresses.drop_last();
        let last = addresses.last();
        law_trusting_all(market, before);
        let mid = market.with_all_trusted(before);
        let post = market.with_all_trusted(addresses);
        assert forall|a: Seq<char>| #[trigger]
            post.nft_contracts.contains(a) <==> market.nft_contracts.contains(a)
                || addresses.contains(a) by {
            if post.nft_contracts.contains(a) {
                let i = choose|i: int|
                    0 <= i < post.nft_contracts.len() && post.nft_contracts[i] == a;
                if mid.nft_contracts.contains(last) || i < mid.nft_contracts.len() {
                    assert(mid.nft_contracts[i] == a);
                    assert(mid.nft_contracts.contains(a));
                    if !market.nft_contracts.contains(a) {
                        let j = choose|j: int| 0 <= j < before.len() && before[j] == a;
                        assert(addresses[j] == a);
                    }
                } else {
                    assert(a == last);
                    assert(addresses[addresses.len() - 1] == a);
                }
            }
            if market.nft_contracts.contains(a) || addresses.contains(a) {
                if mid.nft_contracts.contains(a) {
                    let i = choose|i: int|
                        0 <= i < mid.nft_contracts.len() && mid.nft_contracts[i] == a;
                    assert(post.nft_contracts[i] == a);
                } else {
                    let j = choose|j: int| 0 <= j < addresses.len() && addresses[j] == a;
                    if j < before.len() {
                        assert(before[j] == a);
                        assert(before.contains(a));
                    }
                    assert(a == last);
                    assert(post.nft_contracts[mid.nft_contracts.len() as int] == a);
                }
            }
        }
    }
}

} // verus!
