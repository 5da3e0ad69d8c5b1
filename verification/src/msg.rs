//! The messages that the escrow accepts and the answers it gives.

use crate::api::{lemma_verdicts_none, verdicts_on, AddressBook};
use crate::asset::{Addr, Coin, Cw20Coin};
use crate::error::ContractError;
use crate::state::EscrowView;
use vstd::prelude::*;
use vstd::string::StringSliceAdditionalSpecFns;

verus! {

/// The message that sets the contract up. It carries nothing.
#[derive(Clone, Debug, PartialEq, Eq)]
pub struct InstantiateMsg {}

/// A question to the escrow.
#[derive(Clone, Debug, PartialEq, Eq)]
pub enum QueryMsg {
    /// Which escrows are live?
    List {},
    /// What does the escrow under `id` hold?
    Details { id: String },
}

/// The answer to [`QueryMsg::List`].
#[derive(Clone, Debug, PartialEq, Eq)]
pub struct ListResponse {
    /// The identifiers of all live escrows in ascending order.
    pub escrows: Vec<String>,
}

/// The answer to [`QueryMsg::Details`].
#[derive(Clone, Debug, PartialEq, Eq)]
pub struct DetailsResponse {
    pub id: String,
    /// Who may set the recipient, approve and refund.
    pub arbiter: String,
    /// Where the funds go on approval.
    pub recipient: Option<String>,
    /// Where the funds go on a refund.
    pub source: String,
    pub title: String,
    pub description: String,
    pub end_height: Option<u64>,
    pub end_time: Option<u64>,
    /// The native coins held.
    pub native_balance: Vec<Coin>,
    /// The tokens held.
    pub cw20_balance: Vec<Cw20Coin>,
    /// The token contracts from which the escrow takes top-ups.
    pub cw20_whitelist: Vec<String>,
}

/// The request to open an escrow. Identities are raw text here.
#[derive(Clone, Debug, PartialEq, Eq)]
pub struct CreateMsg {
    /// The identifier of the new escrow; no live escrow may have it.
    pub id: String,
    pub arbiter: String,
    pub recipient: Option<String>,
    pub title: String,
    pub description: String,
    pub end_height: Option<u64>,
    pub end_time: Option<u64>,
    /// The token contracts from which the escrow is to take top-ups.
    pub cw20_whitelist: Option<Vec<String>>,
}

/// The instruction that a token notification carries.
#[derive(Clone, Debug, PartialEq, Eq)]
pub enum ReceiveMsg {
    /// Open an escrow that holds the tokens sent.
    CreateEscrow(CreateMsg),
    /// Add the tokens sent to the escrow under `id`.
    TopUp { id: String },
}

/// The notification that a token contract sends after tokens were sent to
/// the escrow contract.
#[derive(Clone, Debug, PartialEq, Eq)]
pub struct Cw20ReceiveMsg {
    /// Who sent the tokens, as raw text.
    pub sender: String,
    /// How many tokens were sent.
    pub amount: u128,
    /// The instruction that came with the tokens, decoded; `None` where the
    /// payload did not decode.
    pub msg: Option<ReceiveMsg>,
}

/// A message that changes the escrow's state.
#[derive(Clone, Debug, PartialEq, Eq)]
pub enum ExecuteMsg {
    /// Open an escrow that holds the native coins sent along.
    CreateEscrow(CreateMsg),
    /// Name the recipient of the escrow under `id`.
    SetRecipient { id: String, recipient: String },
    /// Release the escrow under `id` to its recipient.
    Approve { id: String },
    /// Return the escrow under `id` to its source.
    Refund { id: String },
    /// Add the native coins sent along to the escrow under `id`.
    TopUp { id: String },
    /// Take in a notification from a token contract.
    Receive(Cw20ReceiveMsg),
}

/// The answer to a [`QueryMsg`].
#[derive(Clone, Debug, PartialEq, Eq)]
pub enum QueryResponse {
    List(ListResponse),
    Details(DetailsResponse),
}

impl DetailsResponse {
    /// Whether this answer shows the escrow `escrow` under the identifier
    /// `id`, field by field.
    pub open spec fn shows(self, id: Seq<char>, escrow: EscrowView) -> bool {
        &&& self.id@ == id
        &&& self.arbiter@ == escrow.arbiter
        &&& self.recipient.deep_view() == escrow.recipient
        &&& self.source@ == escrow.source
        &&& self.title@ == escrow.title
        &&& self.description@ == escrow.description
        &&& self.end_height == escrow.end_height
        &&& self.end_time == escrow.end_time
        &&& self.native_balance.deep_view() == escrow.balance.native
        &&& self.cw20_balance.deep_view() == escrow.balance.cw20
        &&& self.cw20_whitelist.deep_view() == escrow.cw20_whitelist
    }
}

impl CreateMsg {
    /// The raw whitelist, one entry per line; empty where the message names
    /// none.
    pub open spec fn raw_whitelist(self) -> Seq<Seq<char>> {
        match self.cw20_whitelist {
            Some(list) => list.deep_view(),
            None => Seq::empty(),
        }
    }

    /// The whitelist as validated identities, in the order of the message;
    /// `InvalidAddress` where `api` turns one entry down. A message
    /// without whitelist has the empty one.
    pub fn addr_wishlist(&self, api: &AddressBook) -> (list: Result<Vec<Addr>, ContractError>)
        ensures
            list matches Ok(addrs) ==> verdicts_on(api@, self.raw_whitelist()) == Some(
                addrs.deep_view(),
            ),
            list matches Err(e) ==> e == ContractError::InvalidAddress && verdicts_on(
                api@,
                self.raw_whitelist(),
            ) is None,
    {
        let mut addrs: Vec<Addr> = Vec::new();
        match &self.cw20_whitelist {
            Some(raws) => {
                let ghost all = raws.deep_view();
                let mut i: usize = 0;
                assert(all.take(0) =~= Seq::<Seq<char>>::empty());
                assert(addrs.deep_view() =~= Seq::<Seq<char>>::empty());
                while i < raws.len()
                    invariant
                        i <= raws.len(),
                        all == raws.deep_view(),
                        all == self.raw_whitelist(),
                        verdicts_on(api@, all.take(i as int)) == Some(addrs.deep_view()),
                    decreases raws.len() - i,
                {
                    let ghost upto = all.take(i + 1);
                    assert(upto.drop_last() =~= all.take(i as int));
                    assert(upto.last() == raws[i as int]@);
                    match api.addr_validate(&raws[i]) {
                        Ok(addr) => {
                            let ghost before = addrs.deep_view();
                            let ghost added = addr@;
                            addrs.push(addr);
                            assert(addrs.deep_view() =~= before.push(added));
                            assert(verdicts_on(api@, upto) == Some(before.push(added)));
                        },
                        Err(e) => {
                            proof {
                                assert(verdicts_on(api@, upto) is None);
                                lemma_verdicts_none(api@, all, i + 1);
                            }
                            return Err(e);
                        },
                    }
                    i += 1;
                }
                assert(all.take(i as int) =~= all);
                Ok(addrs)
            },
            None => {
                assert(addrs.deep_view() =~= Seq::<Seq<char>>::empty());
                Ok(addrs)
            },
        }
    }
}

/// A copy of `list`, string by string.
pub fn clone_strings(list: &Vec<String>) -> (copy: Vec<String>)
    ensures
        copy.deep_view() == list.deep_view(),
{
    let mut copy: Vec<String> = Vec::new();
    let mut i: usize = 0;
    while i < list.len()
        invariant
            i <= list.len(),
            copy.len() == i,
            forall|k: int| 0 <= k < i ==> (#[trigger] copy[k])@ == list[k]@,
        decreases list.len() - i,
    {
        copy.push(list[i].clone());
        i += 1;
    }
    assert(copy.deep_view() =~= list.deep_view());
    copy
}

impl CreateMsg {
    /// The raw identities that opening the escrow consults: the whitelist
    /// entries in order, then the recipient where one is named, then the
    /// arbiter.
    pub open spec fn identities(self) -> Seq<Seq<char>> {
        let named = match self.recipient {
            Some(raw) => seq![raw@],
            None => Seq::empty(),
        };
        self.raw_whitelist() + named + seq![self.arbiter@]
    }

    /// The raw identities that opening the escrow consults.
    pub fn raw_identities(&self) -> (raws: Vec<String>)
        ensures
            raws.deep_view() == self.identities(),
    {
        let mut raws: Vec<String> = match &self.cw20_whitelist {
            Some(list) => clone_strings(list),
            None => {
                let none: Vec<String> = Vec::new();
                assert(none.deep_view() =~= Seq::<Seq<char>>::empty());
                none
            },
        };
        if let Some(raw) = &self.recipient {
            raws.push(raw.clone());
        }
        raws.push(self.arbiter.clone());
        assert(raws.deep_view() =~= self.identities());
        raws
    }
}

impl ExecuteMsg {
    /// The raw identities that handling the message consults.
    pub open spec fn identities(self) -> Seq<Seq<char>> {
        match self {
            ExecuteMsg::CreateEscrow(msg) => msg.identities(),
            ExecuteMsg::SetRecipient { id, recipient } => seq![recipient@],
            ExecuteMsg::Receive(wrapper) => match wrapper.msg {
                Some(ReceiveMsg::CreateEscrow(msg)) => seq![wrapper.sender@] + msg.identities(),
                _ => Seq::empty(),
            },
            _ => Seq::empty(),
        }
    }

    /// The identifier of the escrow that the message is about; `None` for a
    /// notification whose instruction did not decode.
    pub open spec fn target(self) -> Option<Seq<char>> {
        match self {
            ExecuteMsg::CreateEscrow(msg) => Some(msg.id@),
            ExecuteMsg::SetRecipient { id, recipient } => Some(id@),
            ExecuteMsg::Approve { id } => Some(id@),
            ExecuteMsg::Refund { id } => Some(id@),
            ExecuteMsg::TopUp { id } => Some(id@),
            ExecuteMsg::Receive(wrapper) => match wrapper.msg {
                Some(ReceiveMsg::CreateEscrow(msg)) => Some(msg.id@),
                Some(ReceiveMsg::TopUp { id }) => Some(id@),
                None => None,
            },
        }
    }

    /// The identifier of the escrow that the message is about: the only
    /// one that handling the message reads or changes.
    pub fn escrow_id(&self) -> (id: Option<String>)
        ensures
            id.deep_view() == self.target(),
    {
        match self {
            ExecuteMsg::CreateEscrow(msg) => Some(msg.id.clone()),
            ExecuteMsg::SetRecipient { id, recipient } => Some(id.clone()),
            ExecuteMsg::Approve { id } => Some(id.clone()),
            ExecuteMsg::Refund { id } => Some(id.clone()),
            ExecuteMsg::TopUp { id } => Some(id.clone()),
            ExecuteMsg::Receive(wrapper) => match &wrapper.msg {
                Some(ReceiveMsg::CreateEscrow(msg)) => Some(msg.id.clone()),
                Some(ReceiveMsg::TopUp { id }) => Some(id.clone()),
                None => None,
            },
        }
    }

    /// The raw identities that handling the message consults: those on
    /// which the identity validator has to give its verdict before the
    /// message is handled.
    pub fn raw_identities(&self) -> (raws: Vec<String>)
        ensures
            raws.deep_view() == self.identities(),
    {
        let mut raws: Vec<String> = Vec::new();
        assert(raws.deep_view() =~= Seq::<Seq<char>>::empty());
        match self {
            ExecuteMsg::CreateEscrow(msg) => msg.raw_identities(),
            ExecuteMsg::SetRecipient { id, recipient } => {
                raws.push(recipient.clone());
                assert(raws.deep_view() =~= seq![recipient@]);
                raws
            },
            ExecuteMsg::Receive(wrapper) => match &wrapper.msg {
                Some(ReceiveMsg::CreateEscrow(msg)) => {
                    raws.push(wrapper.sender.clone());
                    let mut more = msg.raw_identities();
                    let ghost tail = more.deep_view();
                    raws.append(&mut more);
                    assert(raws.deep_view() =~= seq![wrapper.sender@] + tail);
                    raws
                },
                _ => raws,
            },
            _ => raws,
        }
    }
}

/// The shortest name, in bytes, that [`is_valid_name`] accepts.
pub const MIN_NAME_LEN: usize = 3;

/// The longest name, in bytes, that [`is_valid_name`] accepts.
pub const MAX_NAME_LEN: usize = 20;

/// Whether `name` is between 3 and 20 bytes long in UTF-8, both ends included.
pub fn is_valid_name(name: &str) -> (valid: bool)
    ensures
        valid == (MIN_NAME_LEN <= name.spec_bytes().len() <= MAX_NAME_LEN),
{
    let len: usize = name.as_bytes().len();
    MIN_NAME_LEN <= len && len <= MAX_NAME_LEN
}

} // verus!
