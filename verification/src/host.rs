//! Plain values for what the chain hands to the marketplace (who calls, with
//! which coins, in which block) and for what the marketplace hands back
//! (payments, token transfers and an attribute log).
//!
//! Addresses are strings that the host has already validated; amounts are
//! `u128`; timestamps are nanoseconds since the epoch.

use vstd::prelude::*;
use vstd::string::*;

verus! {

/// An amount of one currency.
#[derive(Debug, Clone, PartialEq, Eq)]
pub struct Coin {
    pub denom: String,
    pub amount: u128,
}

pub struct CoinView {
    pub denom: Seq<char>,
    pub amount: u128,
}

impl View for Coin {
    type V = CoinView;

    open spec fn view(&self) -> CoinView {
        CoinView { denom: self.denom@, amount: self.amount }
    }
}

/// The views of a sequence of instructions, in order.
pub open spec fn instructions_view(instructions: Seq<Instruction>) -> Seq<InstructionView> {
    instructions.map_values(|m: Instruction| m@)
}

/// The views of a sequence of coins, in order.
pub open spec fn coins_view(coins: Seq<Coin>) -> Seq<CoinView> {
    coins.map_values(|c: Coin| c@)
}

/// Who sent a message and which coins came with it.
#[derive(Debug, Clone, PartialEq, Eq)]
pub struct MessageInfo {
    pub sender: String,
    pub funds: Vec<Coin>,
}

pub struct MessageInfoView {
    pub sender: Seq<char>,
    pub funds: Seq<CoinView>,
}

impl View for MessageInfo {
    type V = MessageInfoView;

    open spec fn view(&self) -> MessageInfoView {
        MessageInfoView { sender: self.sender@, funds: coins_view(self.funds@) }
    }
}

/// The block in which a message runs.
#[derive(Debug, Clone, Copy, PartialEq, Eq)]
pub struct BlockInfo {
    pub height: u64,
    /// Nanoseconds since the epoch.
    pub time: u64,
}

/// The environment of a message.
#[derive(Debug, Clone, Copy, PartialEq, Eq)]
pub struct Env {
    pub block: BlockInfo,
}

/// One entry of the attribute log.
#[derive(Debug, Clone, PartialEq, Eq)]
pub struct Attribute {
    pub key: String,
    pub value: String,
}

pub struct AttributeView {
    pub key: Seq<char>,
    pub value: Seq<char>,
}

impl View for Attribute {
    type V = AttributeView;

    open spec fn view(&self) -> AttributeView {
        AttributeView { key: self.key@, value: self.value@ }
    }
}

/// The log entry `key = value`.
pub open spec fn attr(key: Seq<char>, value: Seq<char>) -> AttributeView {
    AttributeView { key, value }
}

/// Something the host must carry out, together with the change of state, or
/// not at all.
#[derive(Debug, Clone, PartialEq, Eq)]
pub enum Instruction {
    /// Pay `amount` of `denom` out of the marketplace's balance.
    Send { to_address: String, amount: u128, denom: String },
    /// Tell the collection `contract_addr` to make `recipient` the owner of
    /// `token_id`.
    TransferNft { contract_addr: String, recipient: String, token_id: String },
}

pub enum InstructionView {
    Send { to_address: Seq<char>, amount: nat, denom: Seq<char> },
    TransferNft { contract_addr: Seq<char>, recipient: Seq<char>, token_id: Seq<char> },
}

impl View for Instruction {
    type V = InstructionView;

    open spec fn view(&self) -> InstructionView {
        match *self {
            Instruction::Send { to_address, amount, denom } => InstructionView::Send {
                to_address: to_address@,
                amount: amount as nat,
                denom: denom@,
            },
            Instruction::TransferNft {
                contract_addr,
                recipient,
                token_id,
            } => InstructionView::TransferNft {
                contract_addr: contract_addr@,
                recipient: recipient@,
                token_id: token_id@,
            },
        }
    }
}

/// What a successful operation returns: the instructions, in the order in
/// which they are to be carried out, and the attribute log.
#[derive(Debug, Clone, PartialEq, Eq)]
pub struct Response {
    pub messages: Vec<Instruction>,
    pub attributes: Vec<Attribute>,
}

#[verifier::ext_equal]
pub struct ResponseView {
    pub messages: Seq<InstructionView>,
    pub attributes: Seq<AttributeView>,
}

impl View for Response {
    type V = ResponseView;

    open spec fn view(&self) -> ResponseView {
        ResponseView {
            messages: instructions_view(self.messages@),
            attributes: self.attributes@.map_values(|a: Attribute| a@),
        }
    }
}

impl Response {
    /// The response that asks for nothing and logs nothing.
    pub fn new() -> (r: Response)
        ensures
            r@.messages == Seq::<InstructionView>::empty(),
            r@.attributes == Seq::<AttributeView>::empty(),
    {
        let r = Response { messages: Vec::new(), attributes: Vec::new() };
        assert(r@.messages =~= Seq::<InstructionView>::empty());
        assert(r@.attributes =~= Seq::<AttributeView>::empty());
        r
    }

    /// Appends the log entry `key = value`.
    pub fn add_attribute(self, key: &str, value: String) -> (r: Response)
        ensures
            r@.messages == self@.messages,
            r@.attributes == self@.attributes.push(attr(key@, value@)),
    {
        let mut r = self;
        r.attributes.push(Attribute { key: String::from_str(key), value });
        assert(r@.attributes =~= self@.attributes.push(attr(key@, value@)));
        r
    }

    /// Appends one instruction.
    pub fn add_message(self, msg: Instruction) -> (r: Response)
        ensures
            r@.messages == self@.messages.push(msg@),
            r@.attributes == self@.attributes,
    {
        let mut r = self;
        r.messages.push(msg);
        assert(r@.messages =~= self@.messages.push(msg@));
        r
    }

    /// Appends instructions, in their order.
    pub fn add_messages(self, msgs: Vec<Instruction>) -> (r: Response)
        ensures
            r@.messages == self@.messages + instructions_view(msgs@),
            r@.attributes == self@.attributes,
    {
        let mut r = self;
        let mut msgs = msgs;
        let ghost added = instructions_view(msgs@);
        r.messages.append(&mut msgs);
        assert(r@.messages =~= self@.messages + added);
        r
    }
}

} // verus!
