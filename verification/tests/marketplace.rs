use nft_marketplace::contract::{execute, instantiate};
use nft_marketplace::error::ContractError;
use nft_marketplace::execute::{
    ensure_admin, ensure_trusted, exec_add_nft_contract, exec_bid, exec_close_bid,
    exec_make_offer, exec_receive_nft, exec_update_price, exec_withdraw_nft, one_coin,
};
use nft_marketplace::expiration::Expiration;
use nft_marketplace::host::{Attribute, BlockInfo, Coin, Env, Instruction, MessageInfo, Response};
use nft_marketplace::msg::{ExecuteMsg, InstantiateMsg, ReceiveNftMsg};
use nft_marketplace::royalty::{RoyaltyInfoResponse, Share, SHARE_ONE};
use nft_marketplace::state::{Bid, BidOffering, ContractInfo, Offering, SaleType};
use nft_marketplace::store::{increment_offerings, num_offerings, Marketplace};

const DENOM: &str = "uatom";
const ADMIN: &str = "admin";
const COLLECTION: &str = "collection";
const SELLER: &str = "seller";
const BUYER: &str = "buyer";
const PAYEE: &str = "payee";

fn s(text: &str) -> String {
    text.to_string()
}

fn env_at(height: u64, time: u64) -> Env {
    Env { block: BlockInfo { height, time } }
}

fn env() -> Env {
    env_at(10, 1_000)
}

fn coin(amount: u128) -> Coin {
    Coin { denom: s(DENOM), amount }
}

fn from(sender: &str) -> MessageInfo {
    MessageInfo { sender: s(sender), funds: vec![] }
}

fn paying(sender: &str, amount: u128) -> MessageInfo {
    MessageInfo { sender: s(sender), funds: vec![coin(amount)] }
}

fn tenth() -> Option<RoyaltyInfoResponse> {
    Some(RoyaltyInfoResponse {
        payment_address: s(PAYEE),
        share: Share::from_atomics(SHARE_ONE / 10).unwrap(),
    })
}

fn market() -> Marketplace {
    let (market, _) = instantiate(
        env(),
        from(ADMIN),
        InstantiateMsg {
            admin: None,
            name: s("market"),
            native_denom: s(DENOM),
            nft_contracts: vec![s(COLLECTION)],
        },
    );
    market
}

fn receipt(token_id: &str, sale_type: SaleType, royalty_info: Option<RoyaltyInfoResponse>) -> ReceiveNftMsg {
    ReceiveNftMsg { sender: s(SELLER), token_id: s(token_id), sale_type, royalty_info }
}

fn auction_terms(start_price: u128, increase_per_bid: Option<u128>, expiration: Expiration) -> SaleType {
    SaleType::Auction(Bid { start_price, increase_per_bid, expiration })
}

/// A marketplace with the fixed-price listing "1" at 1000, royalty a tenth.
fn market_with_fixed_price() -> Marketplace {
    let mut market = market();
    exec_receive_nft(
        &mut market,
        env(),
        from(COLLECTION),
        receipt("token", SaleType::FixedPrice(1000), tenth()),
    )
    .unwrap();
    market
}

/// A marketplace with the auction "1": start price 100, increment 10, expired
/// from height 50 on, royalty a tenth.
fn market_with_auction() -> Marketplace {
    let mut market = market();
    exec_receive_nft(
        &mut market,
        env(),
        from(COLLECTION),
        receipt("token", auction_terms(100, Some(10), Expiration::AtHeight(50)), tenth()),
    )
    .unwrap();
    market
}

fn attribute(key: &str, value: &str) -> Attribute {
    Attribute { key: s(key), value: s(value) }
}

fn send(to_address: &str, amount: u128) -> Instruction {
    Instruction::Send { to_address: s(to_address), amount, denom: s(DENOM) }
}

fn transfer(recipient: &str) -> Instruction {
    Instruction::TransferNft { contract_addr: s(COLLECTION), recipient: s(recipient), token_id: s("token") }
}

// ---- setting up --------------------------------------------------------

#[test]
fn instantiate_makes_the_sender_admin_where_none_is_named() {
    let (market, response) = instantiate(
        env(),
        from("creator"),
        InstantiateMsg { admin: None, name: s("market"), native_denom: s(DENOM), nft_contracts: vec![] },
    );
    assert_eq!(market.admin(), "creator");
    assert_eq!(
        market.contract_info(),
        &ContractInfo { name: s("market"), native_denom: s(DENOM) }
    );
    assert!(market.nft_contracts().is_empty());
    assert_eq!(num_offerings(&market), 0);
    assert_eq!(
        response,
        Response {
            messages: vec![],
            attributes: vec![
                attribute("action", "instantiate"),
                attribute("name", "market"),
                attribute("admin", "creator"),
            ],
        }
    );
}

#[test]
fn instantiate_takes_the_named_admin() {
    let (market, response) = instantiate(
        env(),
        from("creator"),
        InstantiateMsg { admin: Some(s(ADMIN)), name: s("m"), native_denom: s(DENOM), nft_contracts: vec![] },
    );
    assert_eq!(market.admin(), ADMIN);
    assert_eq!(response.attributes[2], attribute("admin", ADMIN));
}

#[test]
fn instantiate_trusts_each_collection_once_in_order() {
    let (market, _) = instantiate(
        env(),
        from(ADMIN),
        InstantiateMsg {
            admin: None,
            name: s("m"),
            native_denom: s(DENOM),
            nft_contracts: vec![s("b"), s("a"), s("b"), s("c"), s("a"), s("a")],
        },
    );
    assert_eq!(market.nft_contracts(), &vec![s("b"), s("a"), s("c")]);
    assert!(market.is_trusted(&s("a")));
    assert!(market.is_trusted(&s("b")));
    assert!(market.is_trusted(&s("c")));
    assert!(!market.is_trusted(&s("d")));
}

#[test]
fn new_marketplace_is_what_instantiate_makes() {
    let direct = Marketplace::new(
        s(ADMIN),
        ContractInfo { name: s("market"), native_denom: s(DENOM) },
        vec![s(COLLECTION), s(COLLECTION)],
    );
    assert_eq!(direct, market());
}

// ---- trusting collections ----------------------------------------------

#[test]
fn add_nft_contract_is_for_the_admin() {
    let mut market = market();
    let before = market.clone();
    assert_eq!(
        exec_add_nft_contract(&mut market, env(), from("someone"), s("other")),
        Err(ContractError::Unauthorized)
    );
    assert_eq!(market, before);
}

#[test]
fn add_nft_contract_adds_a_collection() {
    let mut market = market();
    let response = exec_add_nft_contract(&mut market, env(), from(ADMIN), s("other")).unwrap();
    assert_eq!(
        response,
        Response { messages: vec![], attributes: vec![attribute("action", "add_code_id")] }
    );
    assert_eq!(market.nft_contracts(), &vec![s(COLLECTION), s("other")]);
}

#[test]
fn add_nft_contract_twice_adds_once() {
    let mut market = market();
    exec_add_nft_contract(&mut market, env(), from(ADMIN), s("other")).unwrap();
    let once = market.clone();
    let response = exec_add_nft_contract(&mut market, env(), from(ADMIN), s("other")).unwrap();
    assert_eq!(response.attributes, vec![attribute("action", "add_code_id")]);
    assert_eq!(market, once);
    exec_add_nft_contract(&mut market, env(), from(ADMIN), s(COLLECTION)).unwrap();
    assert_eq!(market, once);
}

#[test]
fn ensure_admin_tells_the_admin_from_others() {
    let market = market();
    assert_eq!(ensure_admin(&market, &from(ADMIN)), Ok(()));
    assert_eq!(ensure_admin(&market, &from(SELLER)), Err(ContractError::Unauthorized));
    assert_eq!(ensure_admin(&market, &from("")), Err(ContractError::Unauthorized));
}

#[test]
fn ensure_trusted_tells_trusted_collections_from_others() {
    let market = market();
    assert_eq!(ensure_trusted(&market, &from(COLLECTION)), Ok(()));
    assert_eq!(ensure_trusted(&market, &from(ADMIN)), Err(ContractError::NFTAddressNotMatch));
}

// ---- the payment -------------------------------------------------------

#[test]
fn one_coin_takes_one_coin_of_the_currency() {
    let market = market();
    assert_eq!(one_coin(&market, &paying(BUYER, 5)), Ok(coin(5)));
    assert_eq!(one_coin(&market, &paying(BUYER, u128::MAX)), Ok(coin(u128::MAX)));
}

#[test]
fn one_coin_refuses_no_funds() {
    let market = market();
    assert_eq!(one_coin(&market, &from(BUYER)), Err(ContractError::NoFunds));
    assert_eq!(one_coin(&market, &paying(BUYER, 0)), Err(ContractError::NoFunds));
}

#[test]
fn one_coin_refuses_several_coins() {
    let market = market();
    let info = MessageInfo { sender: s(BUYER), funds: vec![coin(5), Coin { denom: s("uosmo"), amount: 1 }] };
    assert_eq!(one_coin(&market, &info), Err(ContractError::MultipleDenoms));
    let same = MessageInfo { sender: s(BUYER), funds: vec![coin(5), coin(5), coin(5)] };
    assert_eq!(one_coin(&market, &same), Err(ContractError::MultipleDenoms));
}

#[test]
fn one_coin_refuses_another_currency() {
    let market = market();
    let info = MessageInfo { sender: s(BUYER), funds: vec![Coin { denom: s("uosmo"), amount: 5 }] };
    assert_eq!(one_coin(&market, &info), Err(ContractError::DenomNotMatch));
    let zero = MessageInfo { sender: s(BUYER), funds: vec![Coin { denom: s("uosmo"), amount: 0 }] };
    assert_eq!(one_coin(&market, &zero), Err(ContractError::NoFunds));
}

// ---- listing -----------------------------------------------------------

#[test]
fn receive_nft_is_for_trusted_collections() {
    let mut market = market();
    let before = market.clone();
    assert_eq!(
        exec_receive_nft(&mut market, env(), from("stranger"), receipt("token", SaleType::FixedPrice(1), None)),
        Err(ContractError::NFTAddressNotMatch)
    );
    // also where the price would be refused
    assert_eq!(
        exec_receive_nft(&mut market, env(), from("stranger"), receipt("token", SaleType::FixedPrice(0), None)),
        Err(ContractError::NFTAddressNotMatch)
    );
    assert_eq!(market, before);
}

#[test]
fn receive_nft_refuses_a_price_of_zero() {
    let mut market = market();
    let before = market.clone();
    assert_eq!(
        exec_receive_nft(&mut market, env(), from(COLLECTION), receipt("token", SaleType::FixedPrice(0), tenth())),
        Err(ContractError::PriceMustBePosiTive)
    );
    assert_eq!(market, before);
    assert_eq!(num_offerings(&market), 0);
}

#[test]
fn receive_nft_lists_at_a_fixed_price() {
    let mut market = market();
    let response = exec_receive_nft(
        &mut market,
        env_at(7, 12345),
        from(COLLECTION),
        receipt("token", SaleType::FixedPrice(1000), tenth()),
    )
    .unwrap();
    assert_eq!(
        response,
        Response {
            messages: vec![],
            attributes: vec![
                attribute("action", "create_sale"),
                attribute("original_contract", COLLECTION),
                attribute("seller", SELLER),
                attribute("token_id", "token"),
            ],
        }
    );
    assert_eq!(num_offerings(&market), 1);
    assert_eq!(
        market.offering(&s("1")),
        Some(&Offering {
            token_id: s("token"),
            nft_address: s(COLLECTION),
            royalty_info: tenth(),
            seller: s(SELLER),
            sale_type: SaleType::FixedPrice(1000),
            listing_time: 12345,
        })
    );
    assert_eq!(market.bid_offering(&s("1")), None);
    assert_eq!(market.offering(&s("0")), None);
    assert_eq!(market.offering(&s("2")), None);
    assert_eq!(market.offering(&s("01")), None);
}

#[test]
fn receive_nft_lists_an_auction_with_no_bid() {
    let mut market = market();
    let terms = auction_terms(0, None, Expiration::Never);
    exec_receive_nft(&mut market, env_at(7, 12345), from(COLLECTION), receipt("token", terms, None)).unwrap();
    assert_eq!(market.offering(&s("1")).unwrap().sale_type, terms);
    assert_eq!(
        market.bid_offering(&s("1")),
        Some(&BidOffering { highest_bid_price: None, address: None, start_timestamp: 12345 })
    );
}

#[test]
fn receive_nft_issues_identifiers_in_order() {
    let mut market = market();
    for n in 1..=12u64 {
        exec_receive_nft(
            &mut market,
            env(),
            from(COLLECTION),
            receipt(&format!("token{}", n), SaleType::FixedPrice(n as u128), None),
        )
        .unwrap();
        assert_eq!(num_offerings(&market), n);
        assert_eq!(market.offering(&n.to_string()).unwrap().token_id, format!("token{}", n));
    }
    assert_eq!(market.offering(&s("13")), None);
    assert_eq!(market.offering(&s("10")).unwrap().sale_type, SaleType::FixedPrice(10));
}

#[test]
fn a_refused_listing_uses_no_identifier() {
    let mut market = market();
    let _ = exec_receive_nft(&mut market, env(), from(COLLECTION), receipt("a", SaleType::FixedPrice(0), None));
    let _ = exec_receive_nft(&mut market, env(), from("stranger"), receipt("b", SaleType::FixedPrice(1), None));
    exec_receive_nft(&mut market, env(), from(COLLECTION), receipt("c", SaleType::FixedPrice(1), None)).unwrap();
    assert_eq!(num_offerings(&market), 1);
    assert_eq!(market.offering(&s("1")).unwrap().token_id, "c");
}

// ---- buying at a fixed price -------------------------------------------

#[test]
fn make_offer_splits_the_price_between_payee_and_seller() {
    let mut market = market_with_fixed_price();
    let response = exec_make_offer(&mut market, env(), paying(BUYER, 1000), s("1")).unwrap();
    assert_eq!(response.messages, vec![send(PAYEE, 100), send(SELLER, 900), transfer(BUYER)]);
    assert_eq!(
        response.attributes,
        vec![
            attribute("action", "make_order"),
            attribute("seller", SELLER),
            attribute("buyer", BUYER),
            attribute("paid_price", "1000 uatom"),
            attribute("token_id", "token"),
            attribute("contract_addr", COLLECTION),
            attribute("net_price", "900"),
            attribute("royalty_fee", "100"),
        ]
    );
    assert_eq!(market.offering(&s("1")), None);
    assert_eq!(num_offerings(&market), 1);
}

#[test]
fn make_offer_splits_what_exceeds_the_price_too() {
    let mut market = market_with_fixed_price();
    let response = exec_make_offer(&mut market, env(), paying(BUYER, 1505), s("1")).unwrap();
    assert_eq!(response.messages, vec![send(PAYEE, 150), send(SELLER, 1355), transfer(BUYER)]);
    assert_eq!(response.attributes[3], attribute("paid_price", "1505 uatom"));
    assert_eq!(response.attributes[6], attribute("net_price", "1355"));
    assert_eq!(response.attributes[7], attribute("royalty_fee", "150"));
}

#[test]
fn make_offer_without_royalty_pays_the_seller_all() {
    let mut market = market();
    exec_receive_nft(&mut market, env(), from(COLLECTION), receipt("token", SaleType::FixedPrice(5), None)).unwrap();
    let response = exec_make_offer(&mut market, env(), paying(BUYER, 5), s("1")).unwrap();
    assert_eq!(response.messages, vec![send(SELLER, 5), transfer(BUYER)]);
    assert_eq!(response.attributes[6], attribute("net_price", "5"));
    assert_eq!(response.attributes[7], attribute("royalty_fee", "0"));
}

#[test]
fn make_offer_sends_no_royalty_of_zero() {
    let mut market = market();
    exec_receive_nft(&mut market, env(), from(COLLECTION), receipt("token", SaleType::FixedPrice(5), tenth())).unwrap();
    // a tenth of 9 rounds down to zero
    let response = exec_make_offer(&mut market, env(), paying(BUYER, 9), s("1")).unwrap();
    assert_eq!(response.messages, vec![send(SELLER, 9), transfer(BUYER)]);
    assert_eq!(response.attributes[7], attribute("royalty_fee", "0"));
}

#[test]
fn make_offer_with_a_royalty_of_all() {
    let mut market = market();
    let all = Some(RoyaltyInfoResponse { payment_address: s(PAYEE), share: Share::from_atomics(SHARE_ONE).unwrap() });
    exec_receive_nft(&mut market, env(), from(COLLECTION), receipt("token", SaleType::FixedPrice(5), all)).unwrap();
    let response = exec_make_offer(&mut market, env(), paying(BUYER, 7), s("1")).unwrap();
    assert_eq!(response.messages, vec![send(PAYEE, 7), send(SELLER, 0), transfer(BUYER)]);
}

#[test]
fn make_offer_refuses_too_little() {
    let mut market = market_with_fixed_price();
    let before = market.clone();
    assert_eq!(
        exec_make_offer(&mut market, env(), paying(BUYER, 999), s("1")),
        Err(ContractError::InsufficientDeposit)
    );
    assert_eq!(market, before);
}

#[test]
fn make_offer_refuses_a_bad_payment() {
    let mut market = market_with_fixed_price();
    let before = market.clone();
    assert_eq!(exec_make_offer(&mut market, env(), from(BUYER), s("1")), Err(ContractError::NoFunds));
    assert_eq!(exec_make_offer(&mut market, env(), paying(BUYER, 0), s("1")), Err(ContractError::NoFunds));
    let two = MessageInfo { sender: s(BUYER), funds: vec![coin(1000), coin(1000)] };
    assert_eq!(exec_make_offer(&mut market, env(), two, s("1")), Err(ContractError::MultipleDenoms));
    let other = MessageInfo { sender: s(BUYER), funds: vec![Coin { denom: s("uosmo"), amount: 1000 }] };
    assert_eq!(exec_make_offer(&mut market, env(), other, s("1")), Err(ContractError::DenomNotMatch));
    assert_eq!(market, before);
}

#[test]
fn make_offer_refuses_an_unknown_listing() {
    let mut market = market_with_fixed_price();
    let before = market.clone();
    for id in ["0", "2", "", "01", "1 ", "one"] {
        assert_eq!(
            exec_make_offer(&mut market, env(), paying(BUYER, 1000), s(id)),
            Err(ContractError::NotFound)
        );
    }
    // the listing is looked up before the payment is looked at
    assert_eq!(exec_make_offer(&mut market, env(), from(BUYER), s("2")), Err(ContractError::NotFound));
    assert_eq!(market, before);
}

#[test]
fn make_offer_refuses_an_auction() {
    let mut market = market_with_auction();
    let before = market.clone();
    assert_eq!(
        exec_make_offer(&mut market, env(), paying(BUYER, 1000), s("1")),
        Err(ContractError::SaleTypeMustBeFixedPrice)
    );
    // the kind of sale is looked at before the payment
    assert_eq!(
        exec_make_offer(&mut market, env(), from(BUYER), s("1")),
        Err(ContractError::SaleTypeMustBeFixedPrice)
    );
    assert_eq!(market, before);
}

#[test]
fn make_offer_cannot_be_replayed() {
    let mut market = market_with_fixed_price();
    exec_make_offer(&mut market, env(), paying(BUYER, 1000), s("1")).unwrap();
    let after = market.clone();
    assert_eq!(
        exec_make_offer(&mut market, env(), paying(BUYER, 1000), s("1")),
        Err(ContractError::NotFound)
    );
    assert_eq!(market, after);
}

// ---- bidding -----------------------------------------------------------

#[test]
fn bid_below_the_start_price_is_refused() {
    let mut market = market_with_auction();
    let before = market.clone();
    for amount in [1u128, 50, 99] {
        assert_eq!(
            exec_bid(&mut market, env(), paying(BUYER, amount), s("1")),
            Err(ContractError::InsufficientDeposit)
        );
    }
    assert_eq!(market, before);
    assert_eq!(
        market.bid_offering(&s("1")),
        Some(&BidOffering { highest_bid_price: None, address: None, start_timestamp: 1_000 })
    );
}

#[test]
fn first_bid_at_the_start_price_is_taken_and_kept() {
    let mut market = market_with_auction();
    let response = exec_bid(&mut market, env_at(49, 5), paying("alice", 100), s("1")).unwrap();
    assert_eq!(
        response,
        Response {
            messages: vec![],
            attributes: vec![
                attribute("action", "bid"),
                attribute("bidder", "alice"),
                attribute("price", "100 uatom"),
                attribute("token_id", "token"),
                attribute("contract_addr", COLLECTION),
            ],
        }
    );
    assert_eq!(
        market.bid_offering(&s("1")),
        Some(&BidOffering { highest_bid_price: Some(100), address: Some(s("alice")), start_timestamp: 1_000 })
    );
    assert!(market.offering(&s("1")).is_some());
}

#[test]
fn second_bid_pays_the_first_back() {
    let mut market = market_with_auction();
    exec_bid(&mut market, env(), paying("alice", 120), s("1")).unwrap();
    let response = exec_bid(&mut market, env(), paying("bob", 131), s("1")).unwrap();
    assert_eq!(response.messages, vec![send("alice", 120)]);
    assert_eq!(response.attributes[1], attribute("bidder", "bob"));
    assert_eq!(response.attributes[2], attribute("price", "131 uatom"));
    assert_eq!(
        market.bid_offering(&s("1")),
        Some(&BidOffering { highest_bid_price: Some(131), address: Some(s("bob")), start_timestamp: 1_000 })
    );
    let response = exec_bid(&mut market, env(), paying("alice", 5000), s("1")).unwrap();
    assert_eq!(response.messages, vec![send("bob", 131)]);
    assert_eq!(market.bid_offering(&s("1")).unwrap().highest_bid_price, Some(5000));
}

#[test]
fn later_bid_must_exceed_the_highest_by_more_than_the_increment() {
    let mut market = market_with_auction();
    exec_bid(&mut market, env(), paying("alice", 120), s("1")).unwrap();
    let before = market.clone();
    for amount in [1u128, 100, 120, 121, 129, 130] {
        assert_eq!(
            exec_bid(&mut market, env(), paying("bob", amount), s("1")),
            Err(ContractError::InsufficientDeposit)
        );
    }
    assert_eq!(market, before);
    assert!(exec_bid(&mut market, env(), paying("bob", 131), s("1")).is_ok());
}

#[test]
fn later_bid_without_increment_must_exceed_the_highest() {
    let mut market = market();
    exec_receive_nft(&mut market, env(), from(COLLECTION), receipt("token", auction_terms(0, None, Expiration::Never), None)).unwrap();
    exec_bid(&mut market, env(), paying("alice", 1), s("1")).unwrap();
    assert_eq!(
        exec_bid(&mut market, env(), paying("bob", 1), s("1")),
        Err(ContractError::InsufficientDeposit)
    );
    let response = exec_bid(&mut market, env(), paying("bob", 2), s("1")).unwrap();
    assert_eq!(response.messages, vec![send("alice", 1)]);
}

#[test]
fn bid_against_an_increment_beyond_all_amounts_is_refused() {
    let mut market = market();
    exec_receive_nft(
        &mut market,
        env(),
        from(COLLECTION),
        receipt("token", auction_terms(1, Some(u128::MAX), Expiration::Never), None),
    )
    .unwrap();
    exec_bid(&mut market, env(), paying("alice", 1), s("1")).unwrap();
    let before = market.clone();
    assert_eq!(
        exec_bid(&mut market, env(), paying("bob", u128::MAX), s("1")),
        Err(ContractError::InsufficientDeposit)
    );
    assert_eq!(market, before);
}

#[test]
fn bidder_can_outdo_their_own_bid() {
    let mut market = market_with_auction();
    exec_bid(&mut market, env(), paying("alice", 100), s("1")).unwrap();
    let response = exec_bid(&mut market, env(), paying("alice", 200), s("1")).unwrap();
    assert_eq!(response.messages, vec![send("alice", 100)]);
    assert_eq!(
        market.bid_offering(&s("1")),
        Some(&BidOffering { highest_bid_price: Some(200), address: Some(s("alice")), start_timestamp: 1_000 })
    );
}

#[test]
fn bid_on_an_expired_auction_is_refused() {
    let mut market = market_with_auction();
    let before = market.clone();
    assert_eq!(
        exec_bid(&mut market, env_at(50, 0), paying(BUYER, 1000), s("1")),
        Err(ContractError::BidExpiration)
    );
    assert_eq!(
        exec_bid(&mut market, env_at(51, 0), paying(BUYER, 1000), s("1")),
        Err(ContractError::BidExpiration)
    );
    // expiry is looked at before the payment
    assert_eq!(exec_bid(&mut market, env_at(50, 0), from(BUYER), s("1")), Err(ContractError::BidExpiration));
    assert_eq!(market, before);
    assert!(exec_bid(&mut market, env_at(49, 0), paying(BUYER, 1000), s("1")).is_ok());
}

#[test]
fn bid_on_an_auction_that_expires_at_a_time() {
    let mut market = market();
    exec_receive_nft(
        &mut market,
        env(),
        from(COLLECTION),
        receipt("token", auction_terms(1, None, Expiration::AtTime(2_000)), None),
    )
    .unwrap();
    assert!(exec_bid(&mut market, env_at(u64::MAX, 1_999), paying("alice", 1), s("1")).is_ok());
    assert_eq!(
        exec_bid(&mut market, env_at(0, 2_000), paying("bob", 5), s("1")),
        Err(ContractError::BidExpiration)
    );
}

#[test]
fn bid_refuses_a_bad_payment() {
    let mut market = market_with_auction();
    let before = market.clone();
    assert_eq!(exec_bid(&mut market, env(), from(BUYER), s("1")), Err(ContractError::NoFunds));
    assert_eq!(exec_bid(&mut market, env(), paying(BUYER, 0), s("1")), Err(ContractError::NoFunds));
    let two = MessageInfo { sender: s(BUYER), funds: vec![coin(1000), coin(1)] };
    assert_eq!(exec_bid(&mut market, env(), two, s("1")), Err(ContractError::MultipleDenoms));
    let other = MessageInfo { sender: s(BUYER), funds: vec![Coin { denom: s("uosmo"), amount: 1000 }] };
    assert_eq!(exec_bid(&mut market, env(), other, s("1")), Err(ContractError::DenomNotMatch));
    assert_eq!(market, before);
}

#[test]
fn bid_refuses_unknown_and_fixed_price_listings() {
    let mut market = market_with_fixed_price();
    let before = market.clone();
    assert_eq!(exec_bid(&mut market, env(), paying(BUYER, 1000), s("2")), Err(ContractError::NotFound));
    assert_eq!(
        exec_bid(&mut market, env(), paying(BUYER, 1000), s("1")),
        Err(ContractError::SaleTypeMustBeAuction)
    );
    assert_eq!(market, before);
}

// ---- closing an auction ------------------------------------------------

#[test]
fn close_bid_by_a_stranger_is_refused() {
    let mut market = market_with_auction();
    for at in [env_at(0, 0), env_at(49, 0), env_at(50, 0), env_at(u64::MAX, u64::MAX)] {
        assert_eq!(
            exec_close_bid(&mut market, at, from("stranger"), s("1")),
            Err(ContractError::Unauthorized)
        );
    }
    exec_bid(&mut market, env(), paying("alice", 100), s("1")).unwrap();
    let before = market.clone();
    for at in [env_at(0, 0), env_at(49, 0), env_at(50, 0), env_at(u64::MAX, u64::MAX)] {
        assert_eq!(
            exec_close_bid(&mut market, at, from("stranger"), s("1")),
            Err(ContractError::Unauthorized)
        );
        assert_eq!(exec_close_bid(&mut market, at, from(ADMIN), s("1")), Err(ContractError::Unauthorized));
        assert_eq!(
            exec_close_bid(&mut market, at, from(COLLECTION), s("1")),
            Err(ContractError::Unauthorized)
        );
    }
    assert_eq!(market, before);
}

#[test]
fn close_bid_by_the_highest_bidder_before_expiry_is_refused() {
    let mut market = market_with_auction();
    exec_bid(&mut market, env(), paying("alice", 100), s("1")).unwrap();
    let before = market.clone();
    assert_eq!(
        exec_close_bid(&mut market, env_at(49, u64::MAX), from("alice"), s("1")),
        Err(ContractError::Unauthorized)
    );
    assert_eq!(market, before);
}

#[test]
fn close_bid_by_an_outdone_bidder_is_refused() {
    let mut market = market_with_auction();
    exec_bid(&mut market, env(), paying("alice", 100), s("1")).unwrap();
    exec_bid(&mut market, env(), paying("bob", 200), s("1")).unwrap();
    assert_eq!(
        exec_close_bid(&mut market, env_at(50, 0), from("alice"), s("1")),
        Err(ContractError::Unauthorized)
    );
}

#[test]
fn close_bid_by_the_highest_bidder_after_expiry_settles() {
    let mut market = market_with_auction();
    exec_bid(&mut market, env(), paying("alice", 100), s("1")).unwrap();
    exec_bid(&mut market, env(), paying("bob", 2505), s("1")).unwrap();
    let response = exec_close_bid(&mut market, env_at(50, 0), from("bob"), s("1")).unwrap();
    assert_eq!(response.messages, vec![send(PAYEE, 250), send(SELLER, 2255), transfer("bob")]);
    assert_eq!(
        response.attributes,
        vec![
            attribute("action", "make_order"),
            attribute("seller", SELLER),
            attribute("buyer", "bob"),
            attribute("paid_price", "2505 uatom"),
            attribute("token_id", "token"),
            attribute("contract_addr", COLLECTION),
            attribute("net_price", "2255"),
            attribute("royalty_fee", "250"),
        ]
    );
    assert_eq!(market.offering(&s("1")), None);
    assert_eq!(market.bid_offering(&s("1")), None);
}

#[test]
fn close_bid_by_the_seller_returns_the_token() {
    let mut market = market_with_auction();
    let response = exec_close_bid(&mut market, env_at(0, 0), from(SELLER), s("1")).unwrap();
    assert_eq!(
        response,
        Response {
            messages: vec![transfer(SELLER)],
            attributes: vec![
                attribute("action", "seller_close_bid"),
                attribute("seller", SELLER),
                attribute("offering_id", "1"),
            ],
        }
    );
    assert_eq!(market.offering(&s("1")), None);
    assert_eq!(market.bid_offering(&s("1")), None);
}

#[test]
fn close_bid_by_the_seller_with_a_bid_held_pays_nothing() {
    for at in [env_at(0, 0), env_at(50, 0)] {
        let mut market = market_with_auction();
        exec_bid(&mut market, env(), paying("alice", 100), s("1")).unwrap();
        let response = exec_close_bid(&mut market, at, from(SELLER), s("1")).unwrap();
        assert_eq!(response.messages, vec![transfer(SELLER)]);
        assert_eq!(market.offering(&s("1")), None);
        assert_eq!(market.bid_offering(&s("1")), None);
    }
}

#[test]
fn close_bid_by_a_seller_who_is_the_highest_bidder_goes_the_sellers_way() {
    let mut market = market_with_auction();
    exec_bid(&mut market, env(), paying(SELLER, 100), s("1")).unwrap();
    let response = exec_close_bid(&mut market, env_at(50, 0), from(SELLER), s("1")).unwrap();
    assert_eq!(response.messages, vec![transfer(SELLER)]);
    assert_eq!(response.attributes[0], attribute("action", "seller_close_bid"));
}

#[test]
fn close_bid_refuses_unknown_and_fixed_price_listings() {
    let mut market = market_with_fixed_price();
    let before = market.clone();
    assert_eq!(exec_close_bid(&mut market, env(), from(SELLER), s("2")), Err(ContractError::NotFound));
    assert_eq!(
        exec_close_bid(&mut market, env(), from(SELLER), s("1")),
        Err(ContractError::SaleTypeMustBeAuction)
    );
    assert_eq!(
        exec_close_bid(&mut market, env(), from("stranger"), s("1")),
        Err(ContractError::SaleTypeMustBeAuction)
    );
    assert_eq!(market, before);
}

#[test]
fn close_bid_cannot_be_replayed() {
    let mut market = market_with_auction();
    exec_bid(&mut market, env(), paying("alice", 100), s("1")).unwrap();
    exec_close_bid(&mut market, env_at(50, 0), from("alice"), s("1")).unwrap();
    assert_eq!(
        exec_close_bid(&mut market, env_at(50, 0), from("alice"), s("1")),
        Err(ContractError::NotFound)
    );
    assert_eq!(exec_close_bid(&mut market, env_at(50, 0), from(SELLER), s("1")), Err(ContractError::NotFound));
    assert_eq!(exec_bid(&mut market, env(), paying("bob", 500), s("1")), Err(ContractError::NotFound));
}

// ---- changing the price ------------------------------------------------

#[test]
fn update_price_to_zero_is_refused() {
    let mut market = market_with_fixed_price();
    let before = market.clone();
    assert_eq!(
        exec_update_price(&mut market, env(), from(SELLER), s("1"), 0),
        Err(ContractError::PriceMustBePosiTive)
    );
    assert_eq!(market, before);
}

#[test]
fn update_price_sets_the_price() {
    let mut market = market_with_fixed_price();
    let response = exec_update_price(&mut market, env(), from(SELLER), s("1"), 250).unwrap();
    assert_eq!(
        response,
        Response {
            messages: vec![],
            attributes: vec![
                attribute("action", "update_price"),
                attribute("sender", SELLER),
                attribute("offering_id", "1"),
                attribute("update_price", "250 uatom"),
            ],
        }
    );
    let offer = market.offering(&s("1")).unwrap();
    assert_eq!(offer.sale_type, SaleType::FixedPrice(250));
    assert_eq!(offer.seller, SELLER);
    assert_eq!(offer.token_id, "token");
    assert_eq!(offer.royalty_info, tenth());
    assert_eq!(exec_make_offer(&mut market, env(), paying(BUYER, 249), s("1")), Err(ContractError::InsufficientDeposit));
    assert!(exec_make_offer(&mut market, env(), paying(BUYER, 250), s("1")).is_ok());
}

#[test]
fn update_price_twice_is_as_once() {
    let mut market = market_with_fixed_price();
    let first = exec_update_price(&mut market, env(), from(SELLER), s("1"), 1).unwrap();
    let once = market.clone();
    let second = exec_update_price(&mut market, env(), from(SELLER), s("1"), 1).unwrap();
    assert_eq!(first, second);
    assert_eq!(market, once);
    exec_update_price(&mut market, env(), from(SELLER), s("1"), u128::MAX).unwrap();
    assert_eq!(market.offering(&s("1")).unwrap().sale_type, SaleType::FixedPrice(u128::MAX));
}

#[test]
fn update_price_keeps_the_other_listings() {
    let mut market = market();
    for n in 1..=3u128 {
        exec_receive_nft(&mut market, env(), from(COLLECTION), receipt("token", SaleType::FixedPrice(n), None)).unwrap();
    }
    exec_update_price(&mut market, env(), from(SELLER), s("2"), 20).unwrap();
    assert_eq!(market.offering(&s("1")).unwrap().sale_type, SaleType::FixedPrice(1));
    assert_eq!(market.offering(&s("2")).unwrap().sale_type, SaleType::FixedPrice(20));
    assert_eq!(market.offering(&s("3")).unwrap().sale_type, SaleType::FixedPrice(3));
}

#[test]
fn update_price_is_for_the_seller() {
    let mut market = market_with_fixed_price();
    let before = market.clone();
    assert_eq!(
        exec_update_price(&mut market, env(), from(BUYER), s("1"), 5),
        Err(ContractError::Unauthorized)
    );
    // who may is settled before the price is looked at
    assert_eq!(
        exec_update_price(&mut market, env(), from(ADMIN), s("1"), 0),
        Err(ContractError::Unauthorized)
    );
    assert_eq!(market, before);
}

#[test]
fn update_price_refuses_unknown_listings_and_auctions() {
    let mut market = market_with_auction();
    let before = market.clone();
    assert_eq!(exec_update_price(&mut market, env(), from(SELLER), s("2"), 5), Err(ContractError::NotFound));
    assert_eq!(
        exec_update_price(&mut market, env(), from(SELLER), s("1"), 5),
        Err(ContractError::SaleTypeMustBeFixedPrice)
    );
    assert_eq!(
        exec_update_price(&mut market, env(), from("stranger"), s("1"), 0),
        Err(ContractError::SaleTypeMustBeFixedPrice)
    );
    assert_eq!(market, before);
}

// ---- withdrawing -------------------------------------------------------

#[test]
fn withdraw_returns_the_token_to_the_seller() {
    let mut market = market_with_fixed_price();
    let response = exec_withdraw_nft(&mut market, env(), from(SELLER), s("1")).unwrap();
    assert_eq!(
        response,
        Response {
            messages: vec![transfer(SELLER)],
            attributes: vec![
                attribute("action", "withdraw_nft"),
                attribute("seller", SELLER),
                attribute("offering_id", "1"),
            ],
        }
    );
    assert_eq!(market.offering(&s("1")), None);
    assert_eq!(exec_withdraw_nft(&mut market, env(), from(SELLER), s("1")), Err(ContractError::NotFound));
}

#[test]
fn withdraw_is_for_the_seller() {
    let mut market = market_with_fixed_price();
    let before = market.clone();
    assert_eq!(exec_withdraw_nft(&mut market, env(), from(BUYER), s("1")), Err(ContractError::Unauthorized));
    assert_eq!(exec_withdraw_nft(&mut market, env(), from(ADMIN), s("1")), Err(ContractError::Unauthorized));
    assert_eq!(market, before);
}

#[test]
fn withdraw_refuses_unknown_listings_and_auctions() {
    let mut market = market_with_auction();
    let before = market.clone();
    assert_eq!(exec_withdraw_nft(&mut market, env(), from(SELLER), s("7")), Err(ContractError::NotFound));
    assert_eq!(
        exec_withdraw_nft(&mut market, env(), from(SELLER), s("1")),
        Err(ContractError::SaleTypeMustBeFixedPrice)
    );
    assert_eq!(market, before);
}

// ---- round trips and identifiers ---------------------------------------

#[test]
fn listing_and_withdrawing_leaves_nothing_behind() {
    let mut market = market();
    exec_receive_nft(&mut market, env(), from(COLLECTION), receipt("kept", SaleType::FixedPrice(1), None)).unwrap();
    let before = market.clone();
    exec_receive_nft(&mut market, env(), from(COLLECTION), receipt("token", SaleType::FixedPrice(9), tenth())).unwrap();
    let response = exec_withdraw_nft(&mut market, env(), from(SELLER), s("2")).unwrap();
    assert_eq!(response.messages, vec![transfer(SELLER)]);
    assert_eq!(market.offering(&s("2")), None);
    assert_eq!(market.bid_offering(&s("2")), None);
    assert_eq!(market.offering(&s("1")), before.offering(&s("1")));
    assert_eq!(num_offerings(&market), 2);
    let mut moved_on = before.clone();
    increment_offerings(&mut moved_on);
    assert_eq!(market, moved_on);
}

#[test]
fn listing_an_auction_and_closing_it_leaves_nothing_behind() {
    let mut market = market();
    exec_receive_nft(&mut market, env(), from(COLLECTION), receipt("kept", auction_terms(1, None, Expiration::Never), None)).unwrap();
    let before = market.clone();
    exec_receive_nft(
        &mut market,
        env(),
        from(COLLECTION),
        receipt("token", auction_terms(100, Some(1), Expiration::AtTime(5)), tenth()),
    )
    .unwrap();
    let response = exec_close_bid(&mut market, env(), from(SELLER), s("2")).unwrap();
    assert_eq!(response.messages, vec![transfer(SELLER)]);
    assert_eq!(market.offering(&s("2")), None);
    assert_eq!(market.bid_offering(&s("2")), None);
    assert!(market.bid_offering(&s("1")).is_some());
    let mut moved_on = before.clone();
    increment_offerings(&mut moved_on);
    assert_eq!(market, moved_on);
}

#[test]
fn a_closed_listing_is_never_opened_again() {
    let mut market = market();
    exec_receive_nft(&mut market, env(), from(COLLECTION), receipt("a", SaleType::FixedPrice(1), None)).unwrap();
    exec_withdraw_nft(&mut market, env(), from(SELLER), s("1")).unwrap();
    for n in 2..=25u64 {
        exec_receive_nft(&mut market, env(), from(COLLECTION), receipt("b", auction_terms(1, None, Expiration::Never), None)).unwrap();
        assert_eq!(market.offering(&s("1")), None);
        assert_eq!(market.bid_offering(&s("1")), None);
        assert!(market.offering(&n.to_string()).is_some());
        if n % 2 == 0 {
            exec_close_bid(&mut market, env(), from(SELLER), n.to_string()).unwrap();
        }
    }
    for n in 1..=25u64 {
        assert_eq!(market.offering(&n.to_string()).is_some(), n > 1 && n % 2 == 1);
        assert_eq!(market.bid_offering(&n.to_string()).is_some(), n > 1 && n % 2 == 1);
    }
    assert_eq!(num_offerings(&market), 25);
}

#[test]
fn highest_bid_only_rises() {
    let mut market = market_with_auction();
    let mut highest = 0u128;
    for (bidder, amount) in [("a", 100u128), ("b", 90), ("c", 111), ("d", 111), ("e", 121), ("f", 122), ("g", 1000)] {
        let _ = exec_bid(&mut market, env(), paying(bidder, amount), s("1"));
        let now = market.bid_offering(&s("1")).unwrap();
        assert!(now.highest_bid_price.unwrap() >= highest);
        assert_eq!(now.start_timestamp, 1_000);
        assert!(now.address.is_some());
        highest = now.highest_bid_price.unwrap();
    }
    assert_eq!(highest, 1000);
}

// ---- the registry ------------------------------------------------------

#[test]
fn next_id_counts_up() {
    let mut market = market();
    assert_eq!(market.next_id(), "1");
    assert_eq!(market.next_id(), "2");
    assert_eq!(num_offerings(&market), 2);
    assert_eq!(increment_offerings(&mut market), 3);
    assert_eq!(market.next_id(), "4");
}

#[test]
fn create_listing_gives_the_next_identifier() {
    let mut market = market();
    let offering = Offering {
        token_id: s("token"),
        nft_address: s(COLLECTION),
        royalty_info: None,
        seller: s(SELLER),
        sale_type: SaleType::FixedPrice(3),
        listing_time: 77,
    };
    assert_eq!(market.create_listing(offering.clone()), Ok(s("1")));
    assert_eq!(market.create_listing(offering.clone()), Ok(s("2")));
    assert_eq!(market.offering(&s("2")), Some(&offering));
    let auction = Offering { sale_type: auction_terms(1, None, Expiration::Never), ..offering.clone() };
    assert_eq!(market.create_listing(auction), Ok(s("3")));
    assert_eq!(
        market.bid_offering(&s("3")),
        Some(&BidOffering { highest_bid_price: None, address: None, start_timestamp: 77 })
    );
    let free = Offering { sale_type: SaleType::FixedPrice(0), ..offering };
    let before = market.clone();
    assert_eq!(market.create_listing(free), Err(ContractError::PriceMustBePosiTive));
    assert_eq!(market, before);
}

#[test]
fn remove_listing_removes_offering_and_bidding() {
    let mut market = market_with_auction();
    exec_receive_nft(&mut market, env(), from(COLLECTION), receipt("other", SaleType::FixedPrice(1), None)).unwrap();
    market.remove_listing(&s("1"));
    assert_eq!(market.offering(&s("1")), None);
    assert_eq!(market.bid_offering(&s("1")), None);
    assert!(market.offering(&s("2")).is_some());
    let after = market.clone();
    market.remove_listing(&s("1"));
    market.remove_listing(&s("9"));
    assert_eq!(market, after);
}

#[test]
fn restore_takes_stored_listings_in_again() {
    let stored = {
        let mut market = market_with_auction();
        exec_bid(&mut market, env(), paying("alice", 100), s("1")).unwrap();
        exec_receive_nft(&mut market, env(), from(COLLECTION), receipt("other", SaleType::FixedPrice(1), tenth())).unwrap();
        market
    };
    let mut restored = Marketplace::restore(
        stored.admin().clone(),
        stored.contract_info().clone(),
        stored.nft_contracts().clone(),
        num_offerings(&stored),
    );
    for id in ["1", "2"] {
        assert!(restored.restore_listing(
            s(id),
            stored.offering(&s(id)).unwrap().clone(),
            stored.bid_offering(&s(id)).cloned(),
        ));
    }
    assert_eq!(restored, stored);
}

#[test]
fn restore_listing_refuses_what_the_marketplace_cannot_hold() {
    let fixed = Offering {
        token_id: s("token"),
        nft_address: s(COLLECTION),
        royalty_info: None,
        seller: s(SELLER),
        sale_type: SaleType::FixedPrice(3),
        listing_time: 77,
    };
    let auction = Offering { sale_type: auction_terms(1, None, Expiration::Never), ..fixed.clone() };
    let no_bid = BidOffering { highest_bid_price: None, address: None, start_timestamp: 77 };
    let mut market = Marketplace::restore(s(ADMIN), ContractInfo { name: s("m"), native_denom: s(DENOM) }, vec![], 3);
    let before = market.clone();
    // identifiers that were never issued
    for id in ["0", "4", "", "01", "x", "18446744073709551616"] {
        assert!(!market.restore_listing(s(id), fixed.clone(), None));
    }
    // a price of zero
    assert!(!market.restore_listing(s("1"), Offering { sale_type: SaleType::FixedPrice(0), ..fixed.clone() }, None));
    // bidding without an auction, an auction without bidding
    assert!(!market.restore_listing(s("1"), fixed.clone(), Some(no_bid.clone())));
    assert!(!market.restore_listing(s("1"), auction.clone(), None));
    // a bid without a bidder, a bidder without a bid
    assert!(!market.restore_listing(
        s("1"),
        auction.clone(),
        Some(BidOffering { highest_bid_price: Some(1), ..no_bid.clone() })
    ));
    assert!(!market.restore_listing(
        s("1"),
        auction.clone(),
        Some(BidOffering { address: Some(s("alice")), ..no_bid.clone() })
    ));
    assert_eq!(market, before);
    assert!(market.restore_listing(s("3"), fixed.clone(), None));
    assert!(market.restore_listing(s("1"), auction.clone(), Some(no_bid.clone())));
    // an identifier that is in use
    assert!(!market.restore_listing(s("3"), fixed.clone(), None));
    assert!(!market.restore_listing(s("1"), fixed.clone(), None));
    assert_eq!(market.offering(&s("3")), Some(&fixed));
    assert_eq!(market.offering(&s("1")), Some(&auction));
    assert_eq!(market.bid_offering(&s("1")), Some(&no_bid));
}

// ---- bidding state -----------------------------------------------------

#[test]
fn bid_offering_default_has_no_bid() {
    assert_eq!(
        BidOffering::default(&env_at(3, 99)),
        BidOffering { highest_bid_price: None, address: None, start_timestamp: 99 }
    );
}

#[test]
fn bid_offering_new_sets_bid_and_bidder() {
    let mut bidding = BidOffering::default(&env_at(3, 99));
    bidding.new(5, s("alice"));
    assert_eq!(
        bidding,
        BidOffering { highest_bid_price: Some(5), address: Some(s("alice")), start_timestamp: 99 }
    );
    assert_eq!(bidding.highest_price(), 5);
    bidding.new(8, s("bob"));
    assert_eq!(bidding.highest_price(), 8);
    assert_eq!(bidding.address, Some(s("bob")));
    assert_eq!(bidding.start_timestamp, 99);
}

// ---- responses and errors ----------------------------------------------

#[test]
fn response_is_built_in_order() {
    let response = Response::new()
        .add_attribute("a", s("1"))
        .add_message(send("x", 1))
        .add_messages(vec![send("y", 2), transfer("z")])
        .add_attribute("b", s("2"))
        .add_messages(vec![]);
    assert_eq!(
        response,
        Response {
            messages: vec![send("x", 1), send("y", 2), transfer("z")],
            attributes: vec![attribute("a", "1"), attribute("b", "2")],
        }
    );
    assert_eq!(Response::new(), Response { messages: vec![], attributes: vec![] });
}

#[test]
fn errors_have_their_names() {
    assert_eq!(ContractError::NotFound.to_string(), "NotFound");
    assert_eq!(ContractError::Unauthorized.to_string(), "Unauthorized");
    assert_eq!(ContractError::NoFunds.to_string(), "NoFunds");
    assert_eq!(ContractError::MultipleDenoms.to_string(), "MultipleDenoms");
    assert_eq!(ContractError::DenomNotMatch.to_string(), "DenomNotMatch");
    assert_eq!(ContractError::PriceMustBePosiTive.to_string(), "PriceMustBePosiTive");
    assert_eq!(ContractError::SaleTypeMustBeFixedPrice.to_string(), "SaleTypeMustBeFixedPrice");
    assert_eq!(ContractError::SaleTypeMustBeAuction.to_string(), "SaleTypeMustBeAuction");
    assert_eq!(ContractError::InsufficientDeposit.to_string(), "InsufficientDeposit");
    assert_eq!(ContractError::BidExpiration.to_string(), "BidExpiration");
    assert_eq!(ContractError::NFTAddressNotMatch.to_string(), "NFTAddressNotMatch");
}

// ---- the dispatcher ----------------------------------------------------

#[test]
fn execute_hands_each_message_to_its_operation() {
    let mut market = market();
    let mut direct = market.clone();

    let added = execute(&mut market, env(), from(ADMIN), ExecuteMsg::AddNFTContract { address: s("other") });
    assert_eq!(added, exec_add_nft_contract(&mut direct, env(), from(ADMIN), s("other")));

    let fixed = receipt("token", SaleType::FixedPrice(1000), tenth());
    let listed = execute(&mut market, env(), from("other"), ExecuteMsg::ReceiveNft(fixed.clone()));
    assert_eq!(listed, exec_receive_nft(&mut direct, env(), from("other"), fixed));
    assert!(listed.is_ok());

    let auction = receipt("token", auction_terms(100, Some(10), Expiration::AtHeight(50)), tenth());
    let listed = execute(&mut market, env(), from(COLLECTION), ExecuteMsg::ReceiveNft(auction.clone()));
    assert_eq!(listed, exec_receive_nft(&mut direct, env(), from(COLLECTION), auction));
    assert_eq!(market, direct);

    let priced = execute(
        &mut market,
        env(),
        from(SELLER),
        ExecuteMsg::UpdatePrice { offering_id: s("1"), update_price: 500 },
    );
    assert_eq!(priced, exec_update_price(&mut direct, env(), from(SELLER), s("1"), 500));
    assert!(priced.is_ok());

    let bid = execute(&mut market, env(), paying("alice", 100), ExecuteMsg::Bid { offering_id: s("2") });
    assert_eq!(bid, exec_bid(&mut direct, env(), paying("alice", 100), s("2")));
    assert!(bid.is_ok());
    assert_eq!(market, direct);

    let mut withdrawn = market.clone();
    let response = execute(&mut withdrawn, env(), from(SELLER), ExecuteMsg::WithdrawNft { offering_id: s("1") });
    assert_eq!(response, exec_withdraw_nft(&mut direct.clone(), env(), from(SELLER), s("1")));
    assert!(response.is_ok());
    assert_eq!(withdrawn.offering(&s("1")), None);

    let bought = execute(&mut market, env(), paying(BUYER, 500), ExecuteMsg::MakeOffer { offering_id: s("1") });
    assert_eq!(bought, exec_make_offer(&mut direct, env(), paying(BUYER, 500), s("1")));
    assert_eq!(bought.unwrap().messages, vec![send(PAYEE, 50), send(SELLER, 450), Instruction::TransferNft {
        contract_addr: s("other"),
        recipient: s(BUYER),
        token_id: s("token"),
    }]);

    let closed = execute(&mut market, env_at(50, 0), from("alice"), ExecuteMsg::CloseBid { offering_id: s("2") });
    assert_eq!(closed, exec_close_bid(&mut direct, env_at(50, 0), from("alice"), s("2")));
    assert_eq!(closed.unwrap().messages, vec![send(PAYEE, 10), send(SELLER, 90), transfer("alice")]);
    assert_eq!(market, direct);
    assert_eq!(market.offering(&s("1")), None);
    assert_eq!(market.offering(&s("2")), None);
    assert_eq!(num_offerings(&market), 2);
}

#[test]
fn execute_refuses_as_the_operations_do() {
    let mut market = market_with_fixed_price();
    let before = market.clone();
    assert_eq!(
        execute(&mut market, env(), from(BUYER), ExecuteMsg::AddNFTContract { address: s("x") }),
        Err(ContractError::Unauthorized)
    );
    assert_eq!(
        execute(&mut market, env(), from(BUYER), ExecuteMsg::WithdrawNft { offering_id: s("1") }),
        Err(ContractError::Unauthorized)
    );
    assert_eq!(
        execute(&mut market, env(), from(BUYER), ExecuteMsg::MakeOffer { offering_id: s("1") }),
        Err(ContractError::NoFunds)
    );
    assert_eq!(
        execute(&mut market, env(), paying(BUYER, 5), ExecuteMsg::Bid { offering_id: s("1") }),
        Err(ContractError::SaleTypeMustBeAuction)
    );
    assert_eq!(
        execute(&mut market, env(), from(SELLER), ExecuteMsg::CloseBid { offering_id: s("2") }),
        Err(ContractError::NotFound)
    );
    assert_eq!(
        execute(&mut market, env(), from(SELLER), ExecuteMsg::UpdatePrice { offering_id: s("1"), update_price: 0 }),
        Err(ContractError::PriceMustBePosiTive)
    );
    assert_eq!(
        execute(&mut market, env(), from(BUYER), ExecuteMsg::ReceiveNft(receipt("t", SaleType::FixedPrice(1), None))),
        Err(ContractError::NFTAddressNotMatch)
    );
    assert_eq!(market, before);
}
