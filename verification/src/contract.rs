//! The handlers: one per message, each an all-or-nothing change of the
//! registry that either succeeds with a response or fails and changes
//! nothing.

use crate::api::{verdict_on, verdicts_on, AddressBook};
use crate::asset::{clone_coins, Addr, Balance, BalanceView, Cw20Coin, Cw20CoinVerified};
use crate::error::ContractError;
use crate::ledger::Line;
use crate::msg::{
    CreateMsg, Cw20ReceiveMsg, DetailsResponse, ExecuteMsg, InstantiateMsg, ListResponse,
    QueryMsg, QueryResponse, ReceiveMsg,
};
use crate::order::ascending;
use crate::registry::{all_escrow_ids, EscrowRegistry};
use crate::response::{Response, ResponseView, TransferMsgView};
use crate::state::{
    contains_addr, Env, Escrow, EscrowView, GenericBalance, GenericBalanceView, MessageInfo,
};
use crate::transfer::{send_tokens, transfer_plan};
use vstd::prelude::*;

verus! {

/// What handling a message comes to: the result, and the registry after it.
pub struct Outcome {
    pub result: Result<ResponseView, ContractError>,
    pub state: Map<Seq<char>, EscrowView>,
}

/// The outcome of a refused message: the error `e`, and `state` as it was.
pub open spec fn refused(state: Map<Seq<char>, EscrowView>, e: ContractError) -> Outcome {
    Outcome { result: Err(e), state }
}

/// The outcome of a message that went through: a response with the
/// instructions `messages` and the attributes `attributes`, and the new
/// registry `state`.
pub open spec fn accepted(
    state: Map<Seq<char>, EscrowView>,
    messages: Seq<TransferMsgView>,
    attributes: Seq<(Seq<char>, Seq<char>)>,
) -> Outcome {
    Outcome { result: Ok(ResponseView { messages, attributes }), state }
}

/// Whether the result `got` of a handler is the result `owed`.
pub open spec fn same_result(
    got: Result<Response, ContractError>,
    owed: Result<ResponseView, ContractError>,
) -> bool {
    match (got, owed) {
        (Ok(response), Ok(view)) => response@ == view,
        (Err(e), Err(f)) => e == f,
        _ => false,
    }
}

/// The balance of a new escrow: the deposit as it came in.
pub open spec fn first_balance(deposit: BalanceView) -> GenericBalanceView {
    match deposit {
        BalanceView::Native(lines) => GenericBalanceView { native: lines, cw20: Seq::empty() },
        BalanceView::Cw20(line) => GenericBalanceView { native: Seq::empty(), cw20: seq![line] },
    }
}

/// The whitelist of a new escrow: the one asked for, and behind it the
/// token deposited where the list does not name it.
pub open spec fn first_whitelist(asked: Seq<Seq<char>>, deposit: BalanceView) -> Seq<Seq<char>> {
    match deposit {
        BalanceView::Cw20(line) if !asked.contains(line.key) => asked.push(line.key),
        _ => asked,
    }
}

/// The escrow that `msg` asks for, funded with `deposit` by `source`, or
/// the reason why there is none: the deposit carries no value, or the
/// validator turns down a whitelist entry or the arbiter. A recipient that
/// the validator turns down is left unset.
pub open spec fn new_escrow(
    api: Seq<(Seq<char>, Option<Seq<char>>)>,
    msg: CreateMsg,
    deposit: BalanceView,
    source: Seq<char>,
) -> Result<EscrowView, ContractError> {
    if deposit.is_empty() {
        Err(ContractError::EmptyBalance)
    } else {
        match (verdicts_on(api, msg.raw_whitelist()), verdict_on(api, msg.arbiter@)) {
            (Some(asked), Some(arbiter)) => Ok(
                EscrowView {
                    arbiter,
                    recipient: match msg.recipient {
                        Some(raw) => verdict_on(api, raw@),
                        None => None,
                    },
                    source,
                    title: msg.title@,
                    description: msg.description@,
                    end_height: msg.end_height,
                    end_time: msg.end_time,
                    balance: first_balance(deposit),
                    cw20_whitelist: first_whitelist(asked, deposit),
                },
            ),
            _ => Err(ContractError::InvalidAddress),
        }
    }
}

/// What creating an escrow comes to. The escrow is built first; then it is
/// put under the identifier of `msg`, unless an escrow is live there.
pub open spec fn create_step(
    state: Map<Seq<char>, EscrowView>,
    api: Seq<(Seq<char>, Option<Seq<char>>)>,
    msg: CreateMsg,
    deposit: BalanceView,
    source: Seq<char>,
) -> Outcome {
    match new_escrow(api, msg, deposit, source) {
        Err(e) => refused(state, e),
        Ok(escrow) => if state.contains_key(msg.id@) {
            refused(state, ContractError::AlreadyInUse)
        } else {
            accepted(
                state.insert(msg.id@, escrow),
                Seq::empty(),
                seq![("action"@, "create_escrow"@), ("id"@, msg.id@)],
            )
        },
    }
}

/// What naming a recipient comes to. Only the arbiter of a live escrow may
/// do it, and the validator must accept the recipient.
pub open spec fn set_recipient_step(
    state: Map<Seq<char>, EscrowView>,
    api: Seq<(Seq<char>, Option<Seq<char>>)>,
    sender: Seq<char>,
    id: Seq<char>,
    recipient: Seq<char>,
) -> Outcome {
    if !state.contains_key(id) {
        refused(state, ContractError::NotFound)
    } else if sender != state[id].arbiter {
        refused(state, ContractError::Unauthorized)
    } else {
        match verdict_on(api, recipient) {
            None => refused(state, ContractError::InvalidAddress),
            Some(addr) => accepted(
                state.insert(id, EscrowView { recipient: Some(addr), ..state[id] }),
                Seq::empty(),
                seq![("action"@, "set_recipient"@), ("id"@, id), ("recipient"@, addr)],
            ),
        }
    }
}

/// What approving an escrow comes to. Only the arbiter of a live escrow
/// that has not run out and names a recipient may do it; the escrow then
/// leaves the registry and its whole balance goes to the recipient.
pub open spec fn approve_step(
    state: Map<Seq<char>, EscrowView>,
    env: Env,
    sender: Seq<char>,
    id: Seq<char>,
) -> Outcome {
    if !state.contains_key(id) {
        refused(state, ContractError::NotFound)
    } else if sender != state[id].arbiter {
        refused(state, ContractError::Unauthorized)
    } else if state[id].is_expired(env.block) {
        refused(state, ContractError::Expired)
    } else {
        match state[id].recipient {
            None => refused(state, ContractError::RecipientNotSet),
            Some(recipient) => match transfer_plan(recipient, state[id].balance) {
                None => refused(state, ContractError::SerializeErr),
                Some(messages) => accepted(
                    state.remove(id),
                    messages,
                    seq![("action"@, "approve"@), ("id"@, id), ("to"@, recipient)],
                ),
            },
        }
    }
}

/// What refunding an escrow comes to. The arbiter of a live escrow may do
/// it at any time, and anyone once the escrow has run out; the escrow then
/// leaves the registry and its whole balance goes back to its source.
pub open spec fn refund_step(
    state: Map<Seq<char>, EscrowView>,
    env: Env,
    sender: Seq<char>,
    id: Seq<char>,
) -> Outcome {
    if !state.contains_key(id) {
        refused(state, ContractError::NotFound)
    } else if !state[id].is_expired(env.block) && sender != state[id].arbiter {
        refused(state, ContractError::Unauthorized)
    } else {
        match transfer_plan(state[id].source, state[id].balance) {
            None => refused(state, ContractError::SerializeErr),
            Some(messages) => accepted(
                state.remove(id),
                messages,
                seq![("action"@, "refund"@), ("id"@, id), ("to"@, state[id].source)],
            ),
        }
    }
}

/// What topping an escrow up comes to. The deposit must carry value, the
/// escrow must be live, a token must be on its whitelist, and no amount
/// may pass 128 bits; the deposit is then merged into the balance.
pub open spec fn top_up_step(
    state: Map<Seq<char>, EscrowView>,
    id: Seq<char>,
    deposit: BalanceView,
) -> Outcome {
    if deposit.is_empty() {
        refused(state, ContractError::EmptyBalance)
    } else if !state.contains_key(id) {
        refused(state, ContractError::NotFound)
    } else if deposit matches BalanceView::Cw20(line) && !state[id].accepts(line.key) {
        refused(state, ContractError::NotInWhitelist)
    } else if !state[id].balance.plus(deposit).fits() {
        refused(state, ContractError::Overflow)
    } else {
        accepted(
            state.insert(id, EscrowView { balance: state[id].balance.plus(deposit), ..state[id] }),
            Seq::empty(),
            seq![("action"@, "top_up"@), ("id"@, id)],
        )
    }
}

/// What a token notification comes to. The tokens are those of the
/// contract `token` that sent the notification; the instruction that came
/// with them says whether they open an escrow, funded by the sender that
/// the notification names, or top one up.
pub open spec fn receive_step(
    state: Map<Seq<char>, EscrowView>,
    api: Seq<(Seq<char>, Option<Seq<char>>)>,
    token: Seq<char>,
    wrapper: Cw20ReceiveMsg,
) -> Outcome {
    let deposit = BalanceView::Cw20(Line { key: token, amount: wrapper.amount as nat });
    match wrapper.msg {
        None => refused(state, ContractError::ParseErr),
        Some(ReceiveMsg::CreateEscrow(msg)) => match verdict_on(api, wrapper.sender@) {
            None => refused(state, ContractError::InvalidAddress),
            Some(source) => create_step(state, api, msg, deposit, source),
        },
        Some(ReceiveMsg::TopUp { id }) => top_up_step(state, id@, deposit),
    }
}

/// What a message comes to: what its handler comes to.
pub open spec fn execute_step(
    state: Map<Seq<char>, EscrowView>,
    api: Seq<(Seq<char>, Option<Seq<char>>)>,
    env: Env,
    info: MessageInfo,
    msg: ExecuteMsg,
) -> Outcome {
    let funds = BalanceView::Native(info.funds.deep_view());
    match msg {
        ExecuteMsg::CreateEscrow(msg) => create_step(state, api, msg, funds, info.sender@),
        ExecuteMsg::SetRecipient { id, recipient } => set_recipient_step(
            state,
            api,
            info.sender@,
            id@,
            recipient@,
        ),
        ExecuteMsg::Approve { id } => approve_step(state, env, info.sender@, id@),
        ExecuteMsg::Refund { id } => refund_step(state, env, info.sender@, id@),
        ExecuteMsg::TopUp { id } => top_up_step(state, id@, funds),
        ExecuteMsg::Receive(wrapper) => receive_step(state, api, info.sender@, wrapper),
    }
}

/// Sets the contract up. Nothing can go wrong and no instruction comes out.
pub fn instantiate(env: &Env, info: &MessageInfo, msg: InstantiateMsg) -> (done: Result<
    Response,
    ContractError,
>)
    ensures
        same_result(
            done,
            Ok(
                ResponseView {
                    messages: Seq::empty(),
                    attributes: seq![("action"@, "instantiate"@)],
                },
            ),
        ),
{
    let response = Response::new().add_attribute("action", "instantiate");
    assert(response@.attributes =~= seq![("action"@, "instantiate"@)]);
    Ok(response)
}

/// Builds the escrow that `msg` asks for, funded with `balance` by `sender`.
pub fn build_escrow(api: &AddressBook, msg: CreateMsg, balance: Balance, sender: &Addr) -> (built:
    Result<Escrow, ContractError>)
    ensures
        built matches Ok(escrow) ==> new_escrow(api@, msg, balance@, sender@) == Ok::<
            EscrowView,
            ContractError,
        >(escrow@),
        built matches Err(e) ==> new_escrow(api@, msg, balance@, sender@) == Err::<
            EscrowView,
            ContractError,
        >(e),
{
    if balance.is_empty() {
        return Err(ContractError::EmptyBalance);
    }
    let mut cw20_whitelist = match msg.addr_wishlist(api) {
        Ok(list) => list,
        Err(e) => {
            return Err(e);
        },
    };
    let ghost asked = cw20_whitelist.deep_view();
    let escrow_balance = match balance {
        Balance::Native(list) => {
            let tokens: Vec<Cw20CoinVerified> = Vec::new();
            assert(tokens.deep_view() =~= Seq::<Line>::empty());
            GenericBalance { native: list, cw20: tokens }
        },
        Balance::Cw20(token) => {
            if !contains_addr(&cw20_whitelist, &token.address) {
                let listed = token.address.clone();
                cw20_whitelist.push(listed);
                assert(cw20_whitelist.deep_view() =~= asked.push(token.address@));
            }
            let coins: Vec<crate::asset::Coin> = Vec::new();
            assert(coins.deep_view() =~= Seq::<Line>::empty());
            let mut tokens: Vec<Cw20CoinVerified> = Vec::new();
            let ghost line = token@;
            tokens.push(token);
            assert(tokens.deep_view() =~= seq![line]);
            GenericBalance { native: coins, cw20: tokens }
        },
    };
    let recipient: Option<Addr> = match &msg.recipient {
        Some(raw) => match api.addr_validate(raw) {
            Ok(addr) => Some(addr),
            Err(_) => None,
        },
        None => None,
    };
    let arbiter = match api.addr_validate(&msg.arbiter) {
        Ok(addr) => addr,
        Err(e) => {
            return Err(e);
        },
    };
    Ok(
        Escrow {
            arbiter,
            recipient,
            source: sender.clone(),
            title: msg.title,
            description: msg.description,
            end_height: msg.end_height,
            end_time: msg.end_time,
            balance: escrow_balance,
            cw20_whitelist,
        },
    )
}

/// Opens the escrow that `msg` asks for, funded with `balance` by `sender`.
/// Fails, in this order, where the deposit carries no value, where `api`
/// turns down a whitelist entry or the arbiter, and where an escrow is live
/// under the identifier.
pub fn try_create_escrow(
    registry: &mut EscrowRegistry,
    api: &AddressBook,
    msg: CreateMsg,
    balance: Balance,
    sender: &Addr,
) -> (done: Result<Response, ContractError>)
    ensures
        same_result(done, create_step(old(registry)@, api@, msg, balance@, sender@).result),
        final(registry)@ == create_step(old(registry)@, api@, msg, balance@, sender@).state,
{
    let id = msg.id.clone();
    let escrow = match build_escrow(api, msg, balance, sender) {
        Ok(escrow) => escrow,
        Err(e) => {
            return Err(e);
        },
    };
    match registry.create(id.clone(), escrow) {
        Ok(()) => {},
        Err(e) => {
            return Err(e);
        },
    }
    let response = Response::new().add_attribute("action", "create_escrow").add_attribute(
        "id",
        id.as_str(),
    );
    assert(response@.attributes =~= seq![("action"@, "create_escrow"@), ("id"@, msg.id@)]);
    Ok(response)
}

/// Names `recipient` as the recipient of the escrow under `id`. Fails, in
/// this order, where no escrow is live under `id`, where the sender is not
/// its arbiter, and where `api` turns the recipient down.
pub fn try_set_recipient(
    registry: &mut EscrowRegistry,
    api: &AddressBook,
    env: &Env,
    info: &MessageInfo,
    id: String,
    recipient: String,
) -> (done: Result<Response, ContractError>)
    ensures
        same_result(
            done,
            set_recipient_step(old(registry)@, api@, info.sender@, id@, recipient@).result,
        ),
        final(registry)@ == set_recipient_step(
            old(registry)@,
            api@,
            info.sender@,
            id@,
            recipient@,
        ).state,
{
    let mut escrow = match registry.load(&id) {
        Ok(escrow) => escrow,
        Err(e) => {
            return Err(e);
        },
    };
    match escrow.requires_arbiter(&info.sender) {
        Ok(()) => {},
        Err(e) => {
            return Err(e);
        },
    }
    let recipient = match api.addr_validate(&recipient) {
        Ok(addr) => addr,
        Err(e) => {
            return Err(e);
        },
    };
    escrow.recipient = Some(recipient.clone());
    registry.save(id.clone(), escrow);
    let response = Response::new().add_attribute("action", "set_recipient").add_attribute(
        "id",
        id.as_str(),
    ).add_attribute("recipient", recipient.as_str());
    assert(response@.attributes =~= seq![
        ("action"@, "set_recipient"@),
        ("id"@, id@),
        ("recipient"@, recipient@),
    ]);
    Ok(response)
}

/// Releases the escrow under `id` to its recipient. Fails, in this order,
/// where no escrow is live under `id`, where the sender is not its arbiter,
/// where it has run out, where it names no recipient, and where a transfer
/// instruction cannot be encoded.
pub fn try_approve(registry: &mut EscrowRegistry, env: &Env, info: &MessageInfo, id: String) -> (done:
    Result<Response, ContractError>)
    ensures
        same_result(done, approve_step(old(registry)@, *env, info.sender@, id@).result),
        final(registry)@ == approve_step(old(registry)@, *env, info.sender@, id@).state,
{
    let escrow = match registry.load(&id) {
        Ok(escrow) => escrow,
        Err(e) => {
            return Err(e);
        },
    };
    match escrow.requires_arbiter(&info.sender) {
        Ok(()) => {},
        Err(e) => {
            return Err(e);
        },
    }
    if escrow.is_expired(env) {
        return Err(ContractError::Expired);
    }
    let recipient = match &escrow.recipient {
        Some(addr) => addr.clone(),
        None => {
            return Err(ContractError::RecipientNotSet);
        },
    };
    let messages = match send_tokens(&recipient, &escrow.balance) {
        Ok(messages) => messages,
        Err(e) => {
            return Err(e);
        },
    };
    registry.remove(&id);
    let ghost plan = messages.deep_view();
    let response = Response::new().add_attribute("action", "approve").add_attribute(
        "id",
        id.as_str(),
    ).add_attribute("to", recipient.as_str()).add_submessages(messages);
    proof {
        assert(response@.attributes =~= seq![
            ("action"@, "approve"@),
            ("id"@, id@),
            ("to"@, recipient@),
        ]);
        assert(response@.messages =~= plan);
    }
    Ok(response)
}

/// Returns the escrow under `id` to its source. Fails, in this order,
/// where no escrow is live under `id`, where the escrow has not run out and
/// the sender is not its arbiter, and where a transfer instruction cannot
/// be encoded.
pub fn try_refund(registry: &mut EscrowRegistry, env: &Env, info: &MessageInfo, id: String) -> (done:
    Result<Response, ContractError>)
    ensures
        same_result(done, refund_step(old(registry)@, *env, info.sender@, id@).result),
        final(registry)@ == refund_step(old(registry)@, *env, info.sender@, id@).state,
{
    let escrow = match registry.load(&id) {
        Ok(escrow) => escrow,
        Err(e) => {
            return Err(e);
        },
    };
    if !escrow.is_expired(env) {
        match escrow.requires_arbiter(&info.sender) {
            Ok(()) => {},
            Err(e) => {
                return Err(e);
            },
        }
    }
    let messages = match send_tokens(&escrow.source, &escrow.balance) {
        Ok(messages) => messages,
        Err(e) => {
            return Err(e);
        },
    };
    registry.remove(&id);
    let ghost plan = messages.deep_view();
    let response = Response::new().add_attribute("action", "refund").add_attribute(
        "id",
        id.as_str(),
    ).add_attribute("to", escrow.source.as_str()).add_submessages(messages);
    proof {
        assert(response@.attributes =~= seq![
            ("action"@, "refund"@),
            ("id"@, id@),
            ("to"@, escrow.source@),
        ]);
        assert(response@.messages =~= plan);
    }
    Ok(response)
}

/// Adds the deposit `balance` to the escrow under `id`. Fails, in this
/// order, where the deposit carries no value, where no escrow is live
/// under `id`, where the deposit is a token that the whitelist does not
/// name, and where an amount would pass 128 bits.
pub fn try_top_up(registry: &mut EscrowRegistry, id: String, balance: Balance) -> (done: Result<
    Response,
    ContractError,
>)
    ensures
        same_result(done, top_up_step(old(registry)@, id@, balance@).result),
        final(registry)@ == top_up_step(old(registry)@, id@, balance@).state,
{
    if balance.is_empty() {
        return Err(ContractError::EmptyBalance);
    }
    let mut escrow = match registry.load(&id) {
        Ok(escrow) => escrow,
        Err(e) => {
            return Err(e);
        },
    };
    if let Balance::Cw20(token) = &balance {
        if !escrow.accepts(&token.address) {
            return Err(ContractError::NotInWhitelist);
        }
    }
    match escrow.balance.add_tokens(balance) {
        Ok(()) => {},
        Err(e) => {
            return Err(e);
        },
    }
    registry.save(id.clone(), escrow);
    let response = Response::new().add_attribute("action", "top_up").add_attribute(
        "id",
        id.as_str(),
    );
    assert(response@.attributes =~= seq![("action"@, "top_up"@), ("id"@, id@)]);
    Ok(response)
}

/// Takes in the notification `wrapper` of the token contract `info.sender`:
/// opens an escrow with the tokens sent or tops one up, as the instruction
/// in the notification says. Fails where that instruction did not decode
/// and, for a new escrow, where `api` turns down the sender that the
/// notification names; after that as the handler of the instruction does.
pub fn try_receive(
    registry: &mut EscrowRegistry,
    api: &AddressBook,
    info: &MessageInfo,
    wrapper: Cw20ReceiveMsg,
) -> (done: Result<Response, ContractError>)
    ensures
        same_result(done, receive_step(old(registry)@, api@, info.sender@, wrapper).result),
        final(registry)@ == receive_step(old(registry)@, api@, info.sender@, wrapper).state,
{
    let balance = Balance::Cw20(
        Cw20CoinVerified { address: info.sender.clone(), amount: wrapper.amount },
    );
    match wrapper.msg {
        None => Err(ContractError::ParseErr),
        Some(ReceiveMsg::CreateEscrow(msg)) => {
            let source = match api.addr_validate(&wrapper.sender) {
                Ok(addr) => addr,
                Err(e) => {
                    return Err(e);
                },
            };
            try_create_escrow(registry, api, msg, balance, &source)
        },
        Some(ReceiveMsg::TopUp { id }) => try_top_up(registry, id, balance),
    }
}

/// Handles `msg`, sent by `info.sender` with the funds `info.funds` in the
/// block of `env`. Whatever happens, a message that fails leaves the
/// registry as it was.
pub fn execute(
    registry: &mut EscrowRegistry,
    api: &AddressBook,
    env: Env,
    info: MessageInfo,
    msg: ExecuteMsg,
) -> (done: Result<Response, ContractError>)
    ensures
        same_result(done, execute_step(old(registry)@, api@, env, info, msg).result),
        final(registry)@ == execute_step(old(registry)@, api@, env, info, msg).state,
{
    match msg {
        ExecuteMsg::CreateEscrow(msg) => {
            let balance = Balance::from_coins(clone_coins(&info.funds));
            try_create_escrow(registry, api, msg, balance, &info.sender)
        },
        ExecuteMsg::SetRecipient { id, recipient } => try_set_recipient(
            registry,
            api,
            &env,
            &info,
            id,
            recipient,
        ),
        ExecuteMsg::Approve { id } => try_approve(registry, &env, &info, id),
        ExecuteMsg::Refund { id } => try_refund(registry, &env, &info, id),
        ExecuteMsg::TopUp { id } => {
            let balance = Balance::from_coins(clone_coins(&info.funds));
            try_top_up(registry, id, balance)
        },
        ExecuteMsg::Receive(wrapper) => try_receive(registry, api, &info, wrapper),
    }
}

/// Answers `msg` from `registry`, which it does not change.
pub fn query(registry: &EscrowRegistry, env: &Env, msg: QueryMsg) -> (answer: Result<
    QueryResponse,
    ContractError,
>)
    ensures
        match msg {
            QueryMsg::List {  } => answer matches Ok(QueryResponse::List(list)) && lists(
                list,
                registry@,
            ),
            QueryMsg::Details { id } => if registry@.contains_key(id@) {
                answer matches Ok(QueryResponse::Details(details)) && details.shows(
                    id@,
                    registry@[id@],
                )
            } else {
                answer == Err::<QueryResponse, ContractError>(ContractError::NotFound)
            },
        },
{
    match msg {
        QueryMsg::List {  } => Ok(QueryResponse::List(query_list(registry))),
        QueryMsg::Details { id } => match query_details(registry, id) {
            Ok(details) => Ok(QueryResponse::Details(details)),
            Err(e) => Err(e),
        },
    }
}

/// Whether `list` names the live escrows of `state`: each identifier
/// once, in ascending order.
pub open spec fn lists(list: ListResponse, state: Map<Seq<char>, EscrowView>) -> bool {
    &&& ascending(list.escrows.deep_view())
    &&& forall|id: Seq<char>| list.escrows.deep_view().contains(id) <==> state.contains_key(id)
    &&& list.escrows.len() == state.dom().len()
}

/// The identifiers of all live escrows in ascending order.
pub fn query_list(registry: &EscrowRegistry) -> (list: ListResponse)
    ensures
        lists(list, registry@),
{
    ListResponse { escrows: all_escrow_ids(registry) }
}

/// What the escrow under `id` holds, or `NotFound` where none is live
/// there.
pub fn query_details(registry: &EscrowRegistry, id: String) -> (answer: Result<
    DetailsResponse,
    ContractError,
>)
    ensures
        answer is Ok <==> registry@.contains_key(id@),
        answer matches Ok(details) ==> details.shows(id@, registry@[id@]),
        answer matches Err(e) ==> e == ContractError::NotFound,
{
    let escrow = match registry.load(&id) {
        Ok(escrow) => escrow,
        Err(e) => {
            return Err(e);
        },
    };
    let cw20_whitelist = escrow.human_whitelist();
    let mut cw20_balance: Vec<Cw20Coin> = Vec::new();
    let mut i: usize = 0;
    while i < escrow.balance.cw20.len()
        invariant
            i <= escrow.balance.cw20.len(),
            cw20_balance.len() == i,
            forall|k: int| 0 <= k < i ==> (#[trigger] cw20_balance[k])@ == escrow.balance.cw20[k]@,
        decreases escrow.balance.cw20.len() - i,
    {
        let token = &escrow.balance.cw20[i];
        cw20_balance.push(
            Cw20Coin { address: token.address.as_str().to_owned(), amount: token.amount },
        );
        i += 1;
    }
    assert(cw20_balance.deep_view() =~= escrow@.balance.cw20);
    let recipient = match &escrow.recipient {
        Some(addr) => Some(addr.as_str().to_owned()),
        None => None,
    };
    Ok(
        DetailsResponse {
            id,
            arbiter: escrow.arbiter.into_string(),
            recipient,
            source: escrow.source.into_string(),
            title: escrow.title,
            description: escrow.description,
            end_height: escrow.end_height,
            end_time: escrow.end_time,
            native_balance: escrow.balance.native,
            cw20_balance,
            cw20_whitelist,
        },
    )
}

} // verus!
