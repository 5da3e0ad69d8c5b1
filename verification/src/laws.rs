//! What holds of the handlers on every input, stated over their models and
//! proved.

use crate::api::{verdict_on, verdicts_on};
use crate::asset::BalanceView;
use crate::contract::{
    approve_step, create_step, execute_step, new_escrow, receive_step, refund_step,
    set_recipient_step, top_up_step,
};
use crate::error::ContractError;
use crate::msg::{CreateMsg, ExecuteMsg, ReceiveMsg};
use crate::state::{Env, EscrowView, MessageInfo};
use vstd::prelude::*;

verus! {

/// A message that fails changes nothing: whatever the message, the
/// registry after an error is the registry before it.
pub proof fn law_failure_changes_nothing(
    state: Map<Seq<char>, EscrowView>,
    api: Seq<(Seq<char>, Option<Seq<char>>)>,
    env: Env,
    info: MessageInfo,
    msg: ExecuteMsg,
)
    ensures
        execute_step(state, api, env, info, msg).result is Err ==> execute_step(
            state,
            api,
            env,
            info,
            msg,
        ).state == state,
{
}

/// Creating an escrow with a deposit that carries no value fails with
/// `EmptyBalance`, whatever else the message says.
pub proof fn law_create_needs_deposit(
    state: Map<Seq<char>, EscrowView>,
    api: Seq<(Seq<char>, Option<Seq<char>>)>,
    msg: CreateMsg,
    deposit: BalanceView,
    source: Seq<char>,
)
    requires
        deposit.is_empty(),
    ensures
        create_step(state, api, msg, deposit, source).result == Err::<
            crate::response::ResponseView,
            ContractError,
        >(ContractError::EmptyBalance),
        create_step(state, api, msg, deposit, source).state == state,
{
}

/// Creating an escrow under an identifier that is live never succeeds and
/// never touches the live escrow; where the deposit carries value and the
/// validator accepts the identities of the message, the error is
/// `AlreadyInUse`.
pub proof fn law_create_never_overwrites(
    state: Map<Seq<char>, EscrowView>,
    api: Seq<(Seq<char>, Option<Seq<char>>)>,
    msg: CreateMsg,
    deposit: BalanceView,
    source: Seq<char>,
)
    requires
        state.contains_key(msg.id@),
    ensures
        create_step(state, api, msg, deposit, source).result is Err,
        create_step(state, api, msg, deposit, source).state == state,
        new_escrow(api, msg, deposit, source) is Ok ==> create_step(
            state,
            api,
            msg,
            deposit,
            source,
        ).result == Err::<crate::response::ResponseView, ContractError>(
            ContractError::AlreadyInUse,
        ),
{
}

/// An escrow opened with a token takes top-ups of that token: its whitelist
/// names the token, asked for or not.
pub proof fn law_deposited_token_is_listed(
    api: Seq<(Seq<char>, Option<Seq<char>>)>,
    msg: CreateMsg,
    deposit: BalanceView,
    source: Seq<char>,
)
    requires
        new_escrow(api, msg, deposit, source) is Ok,
        deposit is Cw20,
    ensures
        new_escrow(api, msg, deposit, source)->Ok_0.accepts(deposit->Cw20_0.key),
{
    let line = deposit->Cw20_0;
    let asked = crate::api::verdicts_on(api, msg.raw_whitelist())->0;
    if !asked.contains(line.key) {
        let listed = asked.push(line.key);
        assert(listed[asked.len() as int] == line.key);
    }
}

/// Approving an escrow that names no recipient never succeeds, whoever
/// asks, whatever it holds and whether or not it has run out. Where the
/// arbiter asks before the escrow has run out, the error is
/// `RecipientNotSet`.
pub proof fn law_approve_needs_recipient(
    state: Map<Seq<char>, EscrowView>,
    env: Env,
    sender: Seq<char>,
    id: Seq<char>,
)
    requires
        state.contains_key(id),
        state[id].recipient is None,
    ensures
        approve_step(state, env, sender, id).result is Err,
        approve_step(state, env, sender, id).state == state,
        sender == state[id].arbiter && !state[id].is_expired(env.block) ==> approve_step(
            state,
            env,
            sender,
            id,
        ).result == Err::<crate::response::ResponseView, ContractError>(
            ContractError::RecipientNotSet,
        ),
{
}

/// Approval and refund are single-shot: once either has succeeded for an
/// identifier, approval and refund for that identifier fail with
/// `NotFound`, whoever asks and whenever.
pub proof fn law_release_once(
    state: Map<Seq<char>, EscrowView>,
    env: Env,
    sender: Seq<char>,
    id: Seq<char>,
    later: Env,
    other: Seq<char>,
)
    ensures
        approve_step(state, env, sender, id).result is Ok ==> {
            let after = approve_step(state, env, sender, id).state;
            &&& !after.contains_key(id)
            &&& approve_step(after, later, other, id) == crate::contract::refused(
                after,
                ContractError::NotFound,
            )
            &&& refund_step(after, later, other, id) == crate::contract::refused(
                after,
                ContractError::NotFound,
            )
        },
        refund_step(state, env, sender, id).result is Ok ==> {
            let after = refund_step(state, env, sender, id).state;
            &&& !after.contains_key(id)
            &&& approve_step(after, later, other, id) == crate::contract::refused(
                after,
                ContractError::NotFound,
            )
            &&& refund_step(after, later, other, id) == crate::contract::refused(
                after,
                ContractError::NotFound,
            )
        },
{
}

/// A release touches no other escrow: after an approval or a refund that
/// succeeded, every other identifier holds what it held.
pub proof fn law_release_is_local(
    state: Map<Seq<char>, EscrowView>,
    env: Env,
    sender: Seq<char>,
    id: Seq<char>,
)
    ensures
        approve_step(state, env, sender, id).result is Ok ==> approve_step(
            state,
            env,
            sender,
            id,
        ).state == state.remove(id),
        refund_step(state, env, sender, id).result is Ok ==> refund_step(
            state,
            env,
            sender,
            id,
        ).state == state.remove(id),
{
}

/// Only the arbiter may name the recipient of a live escrow or approve it:
/// for any other sender both fail with `Unauthorized`.
pub proof fn law_only_arbiter(
    state: Map<Seq<char>, EscrowView>,
    api: Seq<(Seq<char>, Option<Seq<char>>)>,
    env: Env,
    sender: Seq<char>,
    id: Seq<char>,
    recipient: Seq<char>,
)
    requires
        state.contains_key(id),
        sender != state[id].arbiter,
    ensures
        set_recipient_step(state, api, sender, id, recipient) == crate::contract::refused(
            state,
            ContractError::Unauthorized,
        ),
        approve_step(state, env, sender, id) == crate::contract::refused(
            state,
            ContractError::Unauthorized,
        ),
{
}

/// A top-up of a live escrow with a positive amount of a token that its
/// whitelist does not name fails with `NotInWhitelist` and leaves the
/// registry, and so the balance, as it was. This holds for a token sent
/// directly and for one that comes in with a notification.
pub proof fn law_top_up_needs_listed_token(
    state: Map<Seq<char>, EscrowView>,
    api: Seq<(Seq<char>, Option<Seq<char>>)>,
    id: String,
    token: Seq<char>,
    amount: u128,
    from: String,
)
    requires
        state.contains_key(id@),
        amount > 0,
        !state[id@].accepts(token),
    ensures
        top_up_step(
            state,
            id@,
            BalanceView::Cw20(crate::ledger::Line { key: token, amount: amount as nat }),
        ) == crate::contract::refused(state, ContractError::NotInWhitelist),
        receive_step(
            state,
            api,
            token,
            crate::msg::Cw20ReceiveMsg {
                sender: from,
                amount,
                msg: Some(ReceiveMsg::TopUp { id }),
            },
        ) == crate::contract::refused(state, ContractError::NotInWhitelist),
{
    let line = crate::ledger::Line { key: token, amount: amount as nat };
    let deposit = BalanceView::Cw20(line);
    assert(deposit.lines()[0] == line);
}

/// A top-up that succeeds changes the balance of its escrow and nothing
/// else: the other fields of the escrow and all other escrows stay.
pub proof fn law_top_up_merges(state: Map<Seq<char>, EscrowView>, id: Seq<char>, deposit: BalanceView)
    requires
        top_up_step(state, id, deposit).result is Ok,
    ensures
        state.contains_key(id),
        top_up_step(state, id, deposit).state == state.insert(
            id,
            EscrowView { balance: state[id].balance.plus(deposit), ..state[id] },
        ),
        state[id].balance.plus(deposit).fits(),
{
}

/// Whether `state` and `other` agree on the identifier `id`: neither has
/// an escrow there, or both have the same one.
pub open spec fn same_at(
    state: Map<Seq<char>, EscrowView>,
    other: Map<Seq<char>, EscrowView>,
    id: Seq<char>,
) -> bool {
    state.contains_key(id) == other.contains_key(id) && (state.contains_key(id) ==> state[id]
        == other[id])
}

/// A message leaves every escrow but its own as it was.
pub proof fn law_execute_is_local(
    state: Map<Seq<char>, EscrowView>,
    api: Seq<(Seq<char>, Option<Seq<char>>)>,
    env: Env,
    info: MessageInfo,
    msg: ExecuteMsg,
    elsewhere: Seq<char>,
)
    requires
        msg.target() != Some(elsewhere),
    ensures
        same_at(execute_step(state, api, env, info, msg).state, state, elsewhere),
{
}

/// A message reads no escrow but its own: on two registries that agree on
/// the escrow that the message is about, the message has the same result
/// and leaves that escrow the same.
pub proof fn law_execute_reads_its_escrow(
    state: Map<Seq<char>, EscrowView>,
    other: Map<Seq<char>, EscrowView>,
    api: Seq<(Seq<char>, Option<Seq<char>>)>,
    env: Env,
    info: MessageInfo,
    msg: ExecuteMsg,
)
    requires
        msg.target() matches Some(id) ==> same_at(state, other, id),
    ensures
        execute_step(state, api, env, info, msg).result == execute_step(
            other,
            api,
            env,
            info,
            msg,
        ).result,
        msg.target() matches Some(id) ==> same_at(
            execute_step(state, api, env, info, msg).state,
            execute_step(other, api, env, info, msg).state,
            id,
        ),
{
}

/// Two books that agree on every raw identity of `raws` give the same
/// verdicts on the list.
proof fn lemma_same_verdicts(
    api: Seq<(Seq<char>, Option<Seq<char>>)>,
    other: Seq<(Seq<char>, Option<Seq<char>>)>,
    raws: Seq<Seq<char>>,
)
    requires
        forall|i: int|
            0 <= i < raws.len() ==> verdict_on(api, #[trigger] raws[i]) == verdict_on(
                other,
                raws[i],
            ),
    ensures
        verdicts_on(api, raws) == verdicts_on(other, raws),
    decreases raws.len(),
{
    if raws.len() > 0 {
        let front = raws.drop_last();
        assert forall|i: int| 0 <= i < front.len() implies verdict_on(api, #[trigger] front[i])
            == verdict_on(other, front[i]) by {
            assert(front[i] == raws[i]);
        }
        lemma_same_verdicts(api, other, front);
        assert(raws.last() == raws[raws.len() - 1]);
    }
}

/// Two books that agree on the raw identities of `msg` build the same
/// escrow from it, or fail alike.
proof fn lemma_same_escrow(
    api: Seq<(Seq<char>, Option<Seq<char>>)>,
    other: Seq<(Seq<char>, Option<Seq<char>>)>,
    msg: CreateMsg,
    deposit: BalanceView,
    source: Seq<char>,
)
    requires
        forall|i: int|
            0 <= i < msg.identities().len() ==> verdict_on(api, #[trigger] msg.identities()[i])
                == verdict_on(other, msg.identities()[i]),
    ensures
        new_escrow(api, msg, deposit, source) == new_escrow(other, msg, deposit, source),
{
    let raws = msg.identities();
    let listed = msg.raw_whitelist();
    assert forall|i: int| 0 <= i < listed.len() implies verdict_on(api, #[trigger] listed[i])
        == verdict_on(other, listed[i]) by {
        assert(raws[i] == listed[i]);
    }
    lemma_same_verdicts(api, other, listed);
    assert(raws[raws.len() - 1] == msg.arbiter@);
    if let Some(raw) = msg.recipient {
        assert(raws[listed.len() as int] == raw@);
    }
}

/// A message consults the validator on its raw identities and on nothing
/// else: two books that agree on those have the message come to the same.
pub proof fn law_verdicts_decide(
    state: Map<Seq<char>, EscrowView>,
    api: Seq<(Seq<char>, Option<Seq<char>>)>,
    other: Seq<(Seq<char>, Option<Seq<char>>)>,
    env: Env,
    info: MessageInfo,
    msg: ExecuteMsg,
)
    requires
        forall|i: int|
            0 <= i < msg.identities().len() ==> verdict_on(api, #[trigger] msg.identities()[i])
                == verdict_on(other, msg.identities()[i]),
    ensures
        execute_step(state, api, env, info, msg) == execute_step(state, other, env, info, msg),
{
    let raws = msg.identities();
    match msg {
        ExecuteMsg::CreateEscrow(create) => {
            lemma_same_escrow(
                api,
                other,
                create,
                BalanceView::Native(info.funds.deep_view()),
                info.sender@,
            );
        },
        ExecuteMsg::SetRecipient { id, recipient } => {
            assert(raws[0] == recipient@);
        },
        ExecuteMsg::Receive(wrapper) => {
            match wrapper.msg {
                Some(ReceiveMsg::CreateEscrow(create)) => {
                    assert(raws[0] == wrapper.sender@);
                    assert forall|i: int| 0 <= i < create.identities().len() implies verdict_on(
                        api,
                        #[trigger] create.identities()[i],
                    ) == verdict_on(other, create.identities()[i]) by {
                        assert(raws[i + 1] == create.identities()[i]);
                    }
                    let deposit = BalanceView::Cw20(
                        crate::ledger::Line { key: info.sender@, amount: wrapper.amount as nat },
                    );
                    if let Some(source) = verdict_on(api, wrapper.sender@) {
                        lemma_same_escrow(api, other, create, deposit, source);
                    }
                },
                _ => {},
            }
        },
        _ => {},
    }
}

} // verus!
