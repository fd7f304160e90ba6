//! What the host hands to an operation and what it takes back: the caller
//! and the funds that came with the call, the block time and the contract's
//! own balance, and the messages and attributes that a successful operation
//! answers with.
//!
//! The network fee is deducted by the host. Each outbound message says how
//! often the fee is to be deducted from its funds before they leave.

use vstd::prelude::*;
use crate::errors::ContractError;

verus! {

/// An amount of one denomination.
#[derive(Debug, PartialEq)]
pub struct Coin {
    pub denom: String,
    pub amount: u128,
}

/// The mathematical value of a `Coin`.
pub struct CoinView {
    pub denom: Seq<char>,
    pub amount: u128,
}

impl View for Coin {
    type V = CoinView;

    open spec fn view(&self) -> CoinView {
        CoinView { denom: self.denom@, amount: self.amount }
    }
}

impl DeepView for Coin {
    type V = CoinView;

    open spec fn deep_view(&self) -> CoinView {
        self@
    }
}

impl Clone for Coin {
    fn clone(&self) -> (copy: Self)
        ensures
            copy@ == self@,
    {
        Coin { denom: self.denom.clone(), amount: self.amount }
    }
}

/// A shorthand constructor for a `Coin`.
pub fn coin(amount: u128, denom: &str) -> (c: Coin)
    ensures
        c@ == (CoinView { denom: denom@, amount }),
{
    Coin { denom: denom.to_owned(), amount }
}

/// Whether `text` reads `word`.
pub fn same_text(text: &String, word: &str) -> (same: bool)
    ensures
        same == (text@ == word@),
{
    let owned = word.to_owned();
    *text == owned
}

/// A key and a value that a successful operation reports.
#[derive(Debug, PartialEq)]
pub struct Attribute {
    pub key: String,
    pub value: String,
}

/// The mathematical value of an `Attribute`.
pub struct AttributeView {
    pub key: Seq<char>,
    pub value: Seq<char>,
}

impl View for Attribute {
    type V = AttributeView;

    open spec fn view(&self) -> AttributeView {
        AttributeView { key: self.key@, value: self.value@ }
    }
}

impl DeepView for Attribute {
    type V = AttributeView;

    open spec fn deep_view(&self) -> AttributeView {
        self@
    }
}

impl Clone for Attribute {
    fn clone(&self) -> (copy: Self)
        ensures
            copy@ == self@,
    {
        Attribute { key: self.key.clone(), value: self.value.clone() }
    }
}

/// The attribute with this key and this value.
pub open spec fn attr(key: Seq<char>, value: Seq<char>) -> AttributeView {
    AttributeView { key, value }
}

/// The caller of an operation and the funds that came with the call.
#[derive(Clone, Debug, PartialEq)]
pub struct MessageInfo {
    pub sender: String,
    pub funds: Vec<Coin>,
}

/// The mathematical value of a `MessageInfo`.
pub struct MessageInfoView {
    pub sender: Seq<char>,
    pub funds: Seq<CoinView>,
}

impl View for MessageInfo {
    type V = MessageInfoView;

    open spec fn view(&self) -> MessageInfoView {
        MessageInfoView { sender: self.sender@, funds: self.funds.deep_view() }
    }
}

/// What an operation reads of its surroundings.
#[derive(Clone, Debug, PartialEq)]
pub struct Env {
    /// The block time, in nanoseconds since the epoch.
    pub time_nanos: u64,
    /// The contract's own balance in the accepted denomination when the call
    /// began.
    pub balance: Coin,
}

/// The mathematical value of an `Env`.
pub struct EnvView {
    pub time_nanos: u64,
    pub balance: CoinView,
}

impl View for Env {
    type V = EnvView;

    open spec fn view(&self) -> EnvView {
        EnvView { time_nanos: self.time_nanos, balance: self.balance@ }
    }
}

impl EnvView {
    /// The block time in whole seconds.
    pub open spec fn seconds(self) -> u64 {
        (self.time_nanos / 1_000_000_000) as u64
    }
}

impl Env {
    /// The block time in whole seconds.
    pub fn seconds(&self) -> (s: u64)
        ensures
            s == self@.seconds(),
    {
        self.time_nanos / 1_000_000_000
    }
}

/// A message that a successful operation dispatches. `M` is the payload that
/// another contract is executed with.
#[derive(Clone, Debug, PartialEq)]
pub enum CosmosMsg<M> {
    /// A transfer to a wallet.
    Send {
        to_address: String,
        amount: Coin,
        /// How often the network fee is deducted from `amount` before it
        /// leaves.
        fee_deductions: u8,
    },
    /// The execution of another contract.
    Execute {
        contract_addr: String,
        msg: M,
        funds: Vec<Coin>,
        /// How often the network fee is deducted from each of `funds` before
        /// they leave.
        fee_deductions: u8,
    },
}

/// The mathematical value of a `CosmosMsg`.
pub enum CosmosMsgView<V> {
    Send { to_address: Seq<char>, amount: CoinView, fee_deductions: u8 },
    Execute { contract_addr: Seq<char>, msg: V, funds: Seq<CoinView>, fee_deductions: u8 },
}

impl<M: View> View for CosmosMsg<M> {
    type V = CosmosMsgView<M::V>;

    open spec fn view(&self) -> CosmosMsgView<M::V> {
        match self {
            CosmosMsg::Send { to_address, amount, fee_deductions } => CosmosMsgView::Send {
                to_address: to_address@,
                amount: amount@,
                fee_deductions: *fee_deductions,
            },
            CosmosMsg::Execute { contract_addr, msg, funds, fee_deductions } => {
                CosmosMsgView::Execute {
                    contract_addr: contract_addr@,
                    msg: msg@,
                    funds: funds.deep_view(),
                    fee_deductions: *fee_deductions,
                }
            },
        }
    }
}

impl<M: View> DeepView for CosmosMsg<M> {
    type V = CosmosMsgView<M::V>;

    open spec fn deep_view(&self) -> CosmosMsgView<M::V> {
        self@
    }
}

/// The answer of a successful operation: the messages to dispatch, in order,
/// and the attributes to report, in order.
#[derive(Clone, Debug, PartialEq)]
pub struct Response<M> {
    pub messages: Vec<CosmosMsg<M>>,
    pub attributes: Vec<Attribute>,
}

/// The mathematical value of a `Response`.
pub struct ResponseView<V> {
    pub messages: Seq<CosmosMsgView<V>>,
    pub attributes: Seq<AttributeView>,
}

impl<M: View> View for Response<M> {
    type V = ResponseView<M::V>;

    open spec fn view(&self) -> ResponseView<M::V> {
        ResponseView {
            messages: self.messages.deep_view(),
            attributes: self.attributes.deep_view(),
        }
    }
}

impl<M: View> Response<M> {
    /// The answer without messages or attributes.
    pub fn new() -> (r: Self)
        ensures
            r@.messages == Seq::<CosmosMsgView<M::V>>::empty(),
            r@.attributes == Seq::<AttributeView>::empty(),
    {
        Response { messages: Vec::new(), attributes: Vec::new() }
    }

    /// Appends an attribute.
    pub fn add_attribute(self, key: &str, value: String) -> (r: Self)
        ensures
            r@.messages == self@.messages,
            r@.attributes == self@.attributes.push(attr(key@, value@)),
    {
        let mut r = self;
        r.attributes.push(Attribute { key: key.to_owned(), value });
        r
    }

    /// Appends a message.
    pub fn add_message(self, msg: CosmosMsg<M>) -> (r: Self)
        ensures
            r@.messages == self@.messages.push(msg@),
            r@.attributes == self@.attributes,
    {
        let mut r = self;
        r.messages.push(msg);
        r
    }

    /// Appends messages, in their order.
    pub fn add_messages(self, msgs: Vec<CosmosMsg<M>>) -> (r: Self)
        ensures
            r@.messages == self@.messages + msgs.deep_view(),
            r@.attributes == self@.attributes,
    {
        let mut r = self;
        let mut msgs = msgs;
        r.messages.append(&mut msgs);
        r
    }
}

/// The view of what an operation returned.
pub open spec fn outcome<M: View>(r: Result<Response<M>, ContractError>) -> Result<
    ResponseView<M::V>,
    ContractError,
> {
    match r {
        Ok(response) => Ok(response@),
        Err(e) => Err(e),
    }
}

} // verus!
