//! The entry points: setting a marketplace up and handing it a message.

use vstd::prelude::*;
use vstd::string::*;
use crate::error::ContractError;
use crate::execute::{
    exec_add_nft_contract, exec_bid, exec_close_bid, exec_make_offer, exec_receive_nft,
    exec_update_price, exec_withdraw_nft,
};
use crate::host::{Env, MessageInfo, Response};
use crate::model::{ends_as, execute_spec, instantiate_spec};
use crate::msg::{ExecuteMsg, InstantiateMsg};
use crate::state::ContractInfo;
use crate::store::Marketplace;

verus! {

/// Sets a marketplace up.
///
/// The administrator is the one that the message names, else its sender. The
/// collections that the message names are trusted, each once, in the order in
/// which they first occur. Nothing is listed, and no identifier is issued.
pub fn instantiate(_env: Env, info: MessageInfo, msg: InstantiateMsg) -> (res: (
    Marketplace,
    Response,
))
    ensures
        res.0.wf(),
        res.0@ == instantiate_spec(info@, msg@).0,
        res.1@ == instantiate_spec(info@, msg@).1,
{
    let InstantiateMsg { admin, name, native_denom, nft_contracts } = msg;
    let admin = match admin {
        Some(named) => named,
        None => info.sender,
    };
    let market = Marketplace::new(
        admin.clone(),
        ContractInfo { name: name.clone(), native_denom },
        nft_contracts,
    );
    let response = Response::new()
        .add_attribute("action", String::from_str("instantiate"))
        .add_attribute("name", name)
        .add_attribute("admin", admin);
    assert(response@ =~= instantiate_spec(info@, msg@).1);
    (market, response)
}

/// Hands a message to the marketplace.
pub fn execute(market: &mut Marketplace, env: Env, info: MessageInfo, msg: ExecuteMsg) -> (res:
    Result<Response, ContractError>)
    requires
        old(market).wf(),
        msg is ReceiveNft ==> old(market)@.offerings_count < u64::MAX,
    ensures
        final(market).wf(),
        ends_as(res, old(market)@, final(market)@, execute_spec(old(market)@, env, info@, msg@)),
{
    match msg {
        ExecuteMsg::AddNFTContract { address } => exec_add_nft_contract(market, env, info, address),
        ExecuteMsg::WithdrawNft { offering_id } => exec_withdraw_nft(
            market,
            env,
            info,
            offering_id,
        ),
        ExecuteMsg::MakeOffer { offering_id } => exec_make_offer(market, env, info, offering_id),
        ExecuteMsg::Bid { offering_id } => exec_bid(market, env, info, offering_id),
        ExecuteMsg::CloseBid { offering_id } => exec_close_bid(market, env, info, offering_id),
        ExecuteMsg::UpdatePrice { offering_id, update_price } => exec_update_price(
            market,
            env,
            info,
            offering_id,
            update_price,
        ),
        ExecuteMsg::ReceiveNft(msg) => exec_receive_nft(market, env, info, msg),
    }
}

} // verus!
