//! From a balance and a destination to the transfer instructions that move
//! the whole balance there.

use crate::asset::{Addr, Cw20CoinVerified};
use crate::error::ContractError;
use crate::ledger::Line;
use crate::response::{bank_send, wasm_execute, TransferMsg, TransferMsgView};
use crate::state::{GenericBalance, GenericBalanceView};
use vstd::prelude::*;

verus! {

/// The error type of `cosmwasm_std`. Nothing is read from a value of it.
#[verifier::external_type_specification]
#[verifier::external_body]
pub struct ExStdError(cosmwasm_std::StdError);

/// The bytes that `cosmwasm_std::to_json_binary` gives for the message
/// `cw20::Cw20ExecuteMsg::Transfer` with this recipient and this amount, or
/// `None` where it gives an error.
pub uninterp spec fn cw20_transfer_json(recipient: Seq<char>, amount: u128) -> Option<Seq<u8>>;

/// Encodes the token message that transfers `amount` to `recipient`.
///
/// Calls `cosmwasm_std::to_json_binary` on `cw20::Cw20ExecuteMsg::Transfer`.
/// Its outcome depends on the two arguments alone; the contract gives that
/// outcome the name [`cw20_transfer_json`] and says nothing else of it.
#[verifier::external_body]
fn encode_cw20_transfer(recipient: &str, amount: u128) -> (encoded: Result<
    Vec<u8>,
    cosmwasm_std::StdError,
>)
    ensures
        encoded matches Ok(bytes) ==> cw20_transfer_json(recipient@, amount) == Some(bytes@),
        encoded is Err ==> cw20_transfer_json(recipient@, amount) is None,
{
    let msg = cw20::Cw20ExecuteMsg::Transfer {
        recipient: recipient.to_string(),
        amount: cosmwasm_std::Uint128::new(amount),
    };
    cosmwasm_std::to_json_binary(&msg).map(|binary| binary.0)
}

/// The instructions that move the tokens `tokens` to `to`, one per line and
/// in the order of the lines, or `None` where one of them has no encoding.
pub open spec fn token_transfers(to: Seq<char>, tokens: Seq<Line>) -> Option<Seq<TransferMsgView>>
    decreases tokens.len(),
{
    if tokens.len() == 0 {
        Some(Seq::empty())
    } else {
        match (
            token_transfers(to, tokens.drop_last()),
            cw20_transfer_json(to, tokens.last().amount as u128),
        ) {
            (Some(front), Some(payload)) => Some(
                front.push(
                    TransferMsgView::Wasm {
                        contract_addr: tokens.last().key,
                        msg: payload,
                        funds: Seq::empty(),
                    },
                ),
            ),
            _ => None,
        }
    }
}

/// The instruction that moves the native coins `coins` to `to`: none where
/// there are no coins, and else one that carries all of them.
pub open spec fn native_transfers(to: Seq<char>, coins: Seq<Line>) -> Seq<TransferMsgView> {
    if coins.len() == 0 {
        Seq::empty()
    } else {
        seq![TransferMsgView::Bank { to_address: to, amount: coins }]
    }
}

/// The instructions that move the whole of `balance` to `to`: first the one
/// for the native coins, if there are any, then one for each token in the
/// order of the balance; `None` where a token instruction has no encoding.
pub open spec fn transfer_plan(to: Seq<char>, balance: GenericBalanceView) -> Option<
    Seq<TransferMsgView>,
> {
    match token_transfers(to, balance.cw20) {
        Some(tokens) => Some(native_transfers(to, balance.native) + tokens),
        None => None,
    }
}

/// Once a token has no encoding, the whole list has no plan.
proof fn lemma_token_transfers_none(to: Seq<char>, tokens: Seq<Line>, done: int)
    requires
        0 <= done <= tokens.len(),
        token_transfers(to, tokens.take(done)) is None,
    ensures
        token_transfers(to, tokens) is None,
    decreases tokens.len(),
{
    if done == tokens.len() {
        assert(tokens.take(done) =~= tokens);
    } else {
        assert(tokens.drop_last().take(done) =~= tokens.take(done));
        lemma_token_transfers_none(to, tokens.drop_last(), done);
    }
}

/// The instruction that has the token contract of `token` transfer the
/// amount of `token` to `to`.
pub fn token_transfer(to: &Addr, token: &Cw20CoinVerified) -> (msg: Result<
    TransferMsg,
    ContractError,
>)
    ensures
        msg matches Ok(m) ==> cw20_transfer_json(to@, token.amount) matches Some(payload) && m@
            == (TransferMsgView::Wasm {
            contract_addr: token.address@,
            msg: payload,
            funds: Seq::<Line>::empty(),
        }),
        msg matches Err(e) ==> e == ContractError::SerializeErr && cw20_transfer_json(
            to@,
            token.amount,
        ) is None,
{
    match encode_cw20_transfer(to.as_str(), token.amount) {
        Ok(payload) => Ok(wasm_execute(&token.address, payload)),
        Err(_) => Err(ContractError::SerializeErr),
    }
}

/// The instructions that move the whole of `balance` to `to`. The native
/// coins go first, all in one instruction; then each token in the order of
/// the balance, one instruction each. Where one instruction cannot be
/// encoded there is no list at all.
pub fn send_tokens(to: &Addr, balance: &GenericBalance) -> (msgs: Result<
    Vec<TransferMsg>,
    ContractError,
>)
    ensures
        msgs matches Ok(list) ==> transfer_plan(to@, balance@) == Some(list.deep_view()),
        msgs matches Err(e) ==> e == ContractError::SerializeErr && transfer_plan(
            to@,
            balance@,
        ) is None,
{
    let mut msgs: Vec<TransferMsg> = Vec::new();
    if balance.native.len() > 0 {
        msgs.push(bank_send(to, &balance.native));
    }
    let ghost natives = native_transfers(to@, balance@.native);
    let ghost tokens = balance@.cw20;
    assert(msgs.deep_view() =~= natives);
    assert(tokens.take(0) =~= Seq::<Line>::empty());
    let mut i: usize = 0;
    while i < balance.cw20.len()
        invariant
            i <= balance.cw20.len(),
            tokens == balance.cw20.deep_view(),
            natives == native_transfers(to@, balance@.native),
            token_transfers(to@, tokens.take(i as int)) matches Some(sent) && msgs.deep_view()
                == natives + sent,
        decreases balance.cw20.len() - i,
    {
        let ghost upto = tokens.take(i + 1);
        assert(upto.drop_last() =~= tokens.take(i as int));
        assert(upto.last() == balance.cw20[i as int]@);
        let ghost sent = token_transfers(to@, tokens.take(i as int))->0;
        match token_transfer(to, &balance.cw20[i]) {
            Ok(msg) => {
                let ghost before = msgs.deep_view();
                let ghost added = msg@;
                msgs.push(msg);
                proof {
                    assert(msgs.deep_view() =~= before.push(added));
                    assert(before.push(added) =~= natives + sent.push(added));
                    assert(token_transfers(to@, upto) == Some(sent.push(added)));
                }
            },
            Err(e) => {
                proof {
                    lemma_token_transfers_none(to@, tokens, i + 1);
                }
                return Err(e);
            },
        }
        i += 1;
    }
    assert(tokens.take(i as int) =~= tokens);
    Ok(msgs)
}

} // verus!
