//! What a handled message gives back: transfer instructions for the
//! executor and attributes for observers.

use crate::asset::{clone_coins, Addr, Coin};
use crate::ledger::Line;
use vstd::prelude::*;

verus! {

/// A key and a value that describe what a message did.
#[derive(Debug)]
pub struct Attribute {
    pub key: String,
    pub value: String,
}

impl View for Attribute {
    type V = (Seq<char>, Seq<char>);

    open spec fn view(&self) -> (Seq<char>, Seq<char>) {
        (self.key@, self.value@)
    }
}

impl DeepView for Attribute {
    type V = (Seq<char>, Seq<char>);

    open spec fn deep_view(&self) -> (Seq<char>, Seq<char>) {
        self@
    }
}

impl PartialEq for Attribute {
    fn eq(&self, other: &Attribute) -> (same: bool) {
        self.key == other.key && self.value == other.value
    }
}

impl Eq for Attribute {}

impl vstd::std_specs::cmp::PartialEqSpecImpl for Attribute {
    open spec fn obeys_eq_spec() -> bool {
        true
    }

    open spec fn eq_spec(&self, other: &Attribute) -> bool {
        self@ == other@
    }
}

/// The attribute with the key `key` and the value `value`.
pub fn attr(key: &str, value: &str) -> (attribute: Attribute)
    ensures
        attribute@ == (key@, value@),
{
    Attribute { key: key.to_owned(), value: value.to_owned() }
}

/// The model of a [`TransferMsg`].
pub enum TransferMsgView {
    Bank { to_address: Seq<char>, amount: Seq<Line> },
    Wasm { contract_addr: Seq<char>, msg: Seq<u8>, funds: Seq<Line> },
}

/// One transfer instruction. It is built here and carried out elsewhere.
#[derive(Debug, PartialEq, Eq)]
pub enum TransferMsg {
    /// Send the native coins `amount` to `to_address`.
    Bank { to_address: String, amount: Vec<Coin> },
    /// Call the contract `contract_addr` with the encoded message `msg`,
    /// and hand it the native coins `funds`.
    Wasm { contract_addr: String, msg: Vec<u8>, funds: Vec<Coin> },
}

impl View for TransferMsg {
    type V = TransferMsgView;

    open spec fn view(&self) -> TransferMsgView {
        match self {
            TransferMsg::Bank { to_address, amount } => TransferMsgView::Bank {
                to_address: to_address@,
                amount: amount.deep_view(),
            },
            TransferMsg::Wasm { contract_addr, msg, funds } => TransferMsgView::Wasm {
                contract_addr: contract_addr@,
                msg: msg@,
                funds: funds.deep_view(),
            },
        }
    }
}

impl DeepView for TransferMsg {
    type V = TransferMsgView;

    open spec fn deep_view(&self) -> TransferMsgView {
        self@
    }
}

/// The instruction that sends the native coins `coins` to `to`.
pub fn bank_send(to: &Addr, coins: &Vec<Coin>) -> (msg: TransferMsg)
    ensures
        msg@ == (TransferMsgView::Bank { to_address: to@, amount: coins.deep_view() }),
{
    TransferMsg::Bank { to_address: to.as_str().to_owned(), amount: clone_coins(coins) }
}

/// The instruction that calls the contract `contract` with the encoded
/// message `payload` and no funds.
pub fn wasm_execute(contract: &Addr, payload: Vec<u8>) -> (msg: TransferMsg)
    ensures
        msg@ == (TransferMsgView::Wasm {
            contract_addr: contract@,
            msg: payload@,
            funds: Seq::<Line>::empty(),
        }),
{
    let funds: Vec<Coin> = Vec::new();
    assert(funds.deep_view() =~= Seq::<Line>::empty());
    TransferMsg::Wasm { contract_addr: contract.as_str().to_owned(), msg: payload, funds }
}

/// The model of a [`Response`].
pub struct ResponseView {
    pub messages: Seq<TransferMsgView>,
    pub attributes: Seq<(Seq<char>, Seq<char>)>,
}

/// What a handled message gives back.
#[derive(Debug, PartialEq, Eq)]
pub struct Response {
    /// The transfer instructions, in the order in which they are to be
    /// carried out.
    pub messages: Vec<TransferMsg>,
    /// What the message did, for observers.
    pub attributes: Vec<Attribute>,
}

impl View for Response {
    type V = ResponseView;

    open spec fn view(&self) -> ResponseView {
        ResponseView {
            messages: self.messages.deep_view(),
            attributes: self.attributes.deep_view(),
        }
    }
}

impl DeepView for Response {
    type V = ResponseView;

    open spec fn deep_view(&self) -> ResponseView {
        self@
    }
}

impl Response {
    /// A response without instructions and without attributes.
    pub fn new() -> (response: Response)
        ensures
            response@ == (ResponseView { messages: Seq::empty(), attributes: Seq::empty() }),
    {
        let response = Response { messages: Vec::new(), attributes: Vec::new() };
        assert(response@.messages =~= Seq::<TransferMsgView>::empty());
        assert(response@.attributes =~= Seq::<(Seq<char>, Seq<char>)>::empty());
        response
    }

    /// The response with one more attribute at the end.
    pub fn add_attribute(self, key: &str, value: &str) -> (response: Response)
        ensures
            response@ == (ResponseView {
                messages: self@.messages,
                attributes: self@.attributes.push((key@, value@)),
            }),
    {
        let mut response = self;
        response.attributes.push(attr(key, value));
        assert(response@.attributes =~= self@.attributes.push((key@, value@)));
        response
    }

    /// The response with the instructions `messages` behind those it has.
    pub fn add_submessages(self, messages: Vec<TransferMsg>) -> (response: Response)
        ensures
            response@ == (ResponseView {
                messages: self@.messages + messages.deep_view(),
                attributes: self@.attributes,
            }),
    {
        let mut response = self;
        let mut more = messages;
        response.messages.append(&mut more);
        assert(response@.messages =~= self@.messages + messages.deep_view());
        response
    }
}

} // verus!
