//! What the escrow keeps: the balance of an escrow and the escrow itself.

use crate::asset::{clone_coins, clone_tokens, Addr, Balance, BalanceView, Coin, Cw20CoinVerified};
use crate::error::ContractError;
use crate::asset::clone_addrs;
use crate::ledger::{
    credit, credit_all, distinct, first_seen, fits, keys, law_credit_from_empty,
    lemma_credit_all_concat, lemma_credit_all_step, lemma_excess_stays, lemma_position,
    max_amount, total, Line,
};
use vstd::prelude::*;

verus! {

/// The model of a [`GenericBalance`]: one ledger of native coins and one of
/// tokens.
pub struct GenericBalanceView {
    pub native: Seq<Line>,
    pub cw20: Seq<Line>,
}

impl GenericBalanceView {
    /// The balance after the deposit `add` is merged into it. Amounts are
    /// unbounded here.
    pub open spec fn plus(self, add: BalanceView) -> GenericBalanceView {
        match add {
            BalanceView::Native(lines) => GenericBalanceView {
                native: credit_all(self.native, lines),
                cw20: self.cw20,
            },
            BalanceView::Cw20(line) => GenericBalanceView {
                native: self.native,
                cw20: credit(self.cw20, line),
            },
        }
    }

    /// Whether every amount fits in 128 bits.
    pub open spec fn fits(self) -> bool {
        fits(self.native) && fits(self.cw20)
    }

    /// Whether the balance has no line at all.
    pub open spec fn is_empty(self) -> bool {
        self.native.len() == 0 && self.cw20.len() == 0
    }
}

/// The funds of an escrow: native coins and tokens, each kind in the order
/// in which its assets first came in.
#[derive(Debug, PartialEq, Eq)]
pub struct GenericBalance {
    pub native: Vec<Coin>,
    pub cw20: Vec<Cw20CoinVerified>,
}

impl View for GenericBalance {
    type V = GenericBalanceView;

    open spec fn view(&self) -> GenericBalanceView {
        GenericBalanceView { native: self.native.deep_view(), cw20: self.cw20.deep_view() }
    }
}

impl DeepView for GenericBalance {
    type V = GenericBalanceView;

    open spec fn deep_view(&self) -> GenericBalanceView {
        self@
    }
}

impl Clone for GenericBalance {
    fn clone(&self) -> (copy: GenericBalance)
        ensures
            copy@ == self@,
    {
        GenericBalance { native: clone_coins(&self.native), cw20: clone_tokens(&self.cw20) }
    }
}

impl Default for GenericBalance {
    fn default() -> (balance: GenericBalance)
        ensures
            balance@.is_empty(),
    {
        GenericBalance { native: Vec::new(), cw20: Vec::new() }
    }
}

/// The amounts of stored coins fit in 128 bits.
pub proof fn lemma_coins_fit(list: Vec<Coin>)
    ensures
        fits(list.deep_view()),
{
}

/// The amounts of stored tokens fit in 128 bits.
pub proof fn lemma_tokens_fit(list: Vec<Cw20CoinVerified>)
    ensures
        fits(list.deep_view()),
{
}

/// Credits `coin` to `ledger`, unless the amount would pass 128 bits.
fn credit_coin(ledger: &mut Vec<Coin>, coin: Coin) -> (done: Result<(), ContractError>)
    ensures
        done is Ok <==> fits(credit(old(ledger).deep_view(), coin@)),
        done is Ok ==> final(ledger).deep_view() == credit(old(ledger).deep_view(), coin@),
        done is Err ==> done == Err::<(), ContractError>(ContractError::Overflow)
            && final(ledger).deep_view() == old(ledger).deep_view(),
{
    let ghost before = ledger.deep_view();
    let mut i: usize = 0;
    while i < ledger.len()
        invariant
            i <= ledger.len(),
            ledger.deep_view() == before,
            before == old(ledger).deep_view(),
            forall|k: int| 0 <= k < i ==> (#[trigger] before[k]).key != coin@.key,
        decreases ledger.len() - i,
    {
        if ledger[i].denom == coin.denom {
            proof {
                lemma_position(before, coin@.key);
                assert(before[i as int].key == coin@.key);
            }
            match ledger[i].amount.checked_add(coin.amount) {
                Some(sum) => {
                    ledger[i].amount = sum;
                    proof {
                        assert(ledger.deep_view() =~= credit(before, coin@));
                        lemma_coins_fit(*ledger);
                    }
                    return Ok(());
                },
                None => {
                    assert(credit(before, coin@)[i as int].amount > max_amount());
                    return Err(ContractError::Overflow);
                },
            }
        }
        i += 1;
    }
    proof {
        lemma_position(before, coin@.key);
    }
    ledger.push(coin);
    proof {
        assert(ledger.deep_view() =~= credit(before, coin@));
        lemma_coins_fit(*ledger);
    }
    Ok(())
}

/// Credits `token` to `ledger`, unless the amount would pass 128 bits.
fn credit_token(ledger: &mut Vec<Cw20CoinVerified>, token: Cw20CoinVerified) -> (done: Result<
    (),
    ContractError,
>)
    ensures
        done is Ok <==> fits(credit(old(ledger).deep_view(), token@)),
        done is Ok ==> final(ledger).deep_view() == credit(old(ledger).deep_view(), token@),
        done is Err ==> done == Err::<(), ContractError>(ContractError::Overflow)
            && final(ledger).deep_view() == old(ledger).deep_view(),
{
    let ghost before = ledger.deep_view();
    let mut i: usize = 0;
    while i < ledger.len()
        invariant
            i <= ledger.len(),
            ledger.deep_view() == before,
            before == old(ledger).deep_view(),
            forall|k: int| 0 <= k < i ==> (#[trigger] before[k]).key != token@.key,
        decreases ledger.len() - i,
    {
        if ledger[i].address == token.address {
            proof {
                lemma_position(before, token@.key);
                assert(before[i as int].key == token@.key);
            }
            match ledger[i].amount.checked_add(token.amount) {
                Some(sum) => {
                    ledger[i].amount = sum;
                    proof {
                        assert(ledger.deep_view() =~= credit(before, token@));
                        lemma_tokens_fit(*ledger);
                    }
                    return Ok(());
                },
                None => {
                    assert(credit(before, token@)[i as int].amount > max_amount());
                    return Err(ContractError::Overflow);
                },
            }
        }
        i += 1;
    }
    proof {
        lemma_position(before, token@.key);
    }
    ledger.push(token);
    proof {
        assert(ledger.deep_view() =~= credit(before, token@));
        lemma_tokens_fit(*ledger);
    }
    Ok(())
}

/// Credits each coin of `list` to a copy of `ledger`, first to last, and
/// returns the copy; fails where an amount would pass 128 bits.
fn credit_coins(ledger: &Vec<Coin>, list: Vec<Coin>) -> (merged: Result<Vec<Coin>, ContractError>)
    ensures
        merged is Ok <==> fits(credit_all(ledger.deep_view(), list.deep_view())),
        merged matches Ok(m) ==> m.deep_view() == credit_all(
            ledger.deep_view(),
            list.deep_view(),
        ),
        merged matches Err(e) ==> e == ContractError::Overflow,
{
    let ghost start = ledger.deep_view();
    let ghost items = list.deep_view();
    let mut work = clone_coins(ledger);
    let mut i: usize = 0;
    assert(items.take(0) =~= Seq::<Line>::empty());
    while i < list.len()
        invariant
            i <= list.len(),
            start == ledger.deep_view(),
            items == list.deep_view(),
            work.deep_view() == credit_all(start, items.take(i as int)),
        decreases list.len() - i,
    {
        proof {
            lemma_credit_all_step(start, items, i as int);
        }
        let next = list[i].clone();
        match credit_coin(&mut work, next) {
            Ok(()) => {},
            Err(e) => {
                proof {
                    lemma_excess_stays(start, items, i as int + 1);
                }
                return Err(e);
            },
        }
        i += 1;
    }
    proof {
        assert(items.take(i as int) =~= items);
        lemma_coins_fit(work);
    }
    Ok(work)
}

impl GenericBalance {
    /// Merges the deposit `add` into the balance. Each item of the deposit
    /// is added to the line that already holds its denomination or token, or
    /// becomes a new last line. Where an amount would pass 128 bits, nothing
    /// is merged.
    pub fn add_tokens(&mut self, add: Balance) -> (done: Result<(), ContractError>)
        ensures
            done is Ok <==> old(self)@.plus(add@).fits(),
            done is Ok ==> final(self)@ == old(self)@.plus(add@),
            done is Err ==> done == Err::<(), ContractError>(ContractError::Overflow),
            done is Err ==> final(self)@ == old(self)@,
    {
        proof {
            lemma_coins_fit(self.native);
            lemma_tokens_fit(self.cw20);
        }
        match add {
            Balance::Native(list) => {
                match credit_coins(&self.native, list) {
                    Ok(merged) => {
                        self.native = merged;
                        Ok(())
                    },
                    Err(e) => Err(e),
                }
            },
            Balance::Cw20(token) => credit_token(&mut self.cw20, token),
        }
    }

    /// Whether the balance holds no line at all, native or token.
    pub fn is_empty(&self) -> (empty: bool)
        ensures
            empty == self@.is_empty(),
    {
        self.native.len() == 0 && self.cw20.len() == 0
    }
}

/// The balance after each deposit of `adds` is merged into `start`, first
/// to last.
pub open spec fn plus_all(start: GenericBalanceView, adds: Seq<BalanceView>) -> GenericBalanceView
    decreases adds.len(),
{
    if adds.len() == 0 {
        start
    } else {
        plus_all(start, adds.drop_last()).plus(adds.last())
    }
}

/// All native coins that the deposits `adds` carry, in order.
pub open spec fn native_lines(adds: Seq<BalanceView>) -> Seq<Line>
    decreases adds.len(),
{
    if adds.len() == 0 {
        Seq::empty()
    } else {
        match adds.last() {
            BalanceView::Native(lines) => native_lines(adds.drop_last()) + lines,
            BalanceView::Cw20(_) => native_lines(adds.drop_last()),
        }
    }
}

/// All token amounts that the deposits `adds` carry, in order.
pub open spec fn token_lines(adds: Seq<BalanceView>) -> Seq<Line>
    decreases adds.len(),
{
    if adds.len() == 0 {
        Seq::empty()
    } else {
        match adds.last() {
            BalanceView::Native(_) => token_lines(adds.drop_last()),
            BalanceView::Cw20(line) => token_lines(adds.drop_last()).push(line),
        }
    }
}

/// Merging deposits one after the other credits all their native coins to
/// the native ledger and all their token amounts to the token ledger.
pub proof fn lemma_plus_all(start: GenericBalanceView, adds: Seq<BalanceView>)
    ensures
        plus_all(start, adds).native == credit_all(start.native, native_lines(adds)),
        plus_all(start, adds).cw20 == credit_all(start.cw20, token_lines(adds)),
    decreases adds.len(),
{
    if adds.len() > 0 {
        lemma_plus_all(start, adds.drop_last());
        match adds.last() {
            BalanceView::Native(lines) => {
                lemma_credit_all_concat(start.native, native_lines(adds.drop_last()), lines);
            },
            BalanceView::Cw20(line) => {
                assert(token_lines(adds).drop_last() =~= token_lines(adds.drop_last()));
            },
        }
    }
}

/// For every sequence of deposits merged into an empty balance, of native
/// coins and of tokens alike: no denomination or token has two lines, the
/// lines stand in the order in which their denominations or tokens first
/// came in, and each line holds the sum of all amounts that the deposits
/// brought for it.
pub proof fn law_add_tokens_from_empty(adds: Seq<BalanceView>)
    ensures
        ({
            let start = GenericBalanceView { native: Seq::empty(), cw20: Seq::empty() };
            let end = plus_all(start, adds);
            &&& distinct(end.native)
            &&& distinct(end.cw20)
            &&& keys(end.native) == first_seen(native_lines(adds))
            &&& keys(end.cw20) == first_seen(token_lines(adds))
            &&& forall|i: int|
                0 <= i < end.native.len() ==> (#[trigger] end.native[i]).amount == total(
                    native_lines(adds),
                    end.native[i].key,
                )
            &&& forall|i: int|
                0 <= i < end.cw20.len() ==> (#[trigger] end.cw20[i]).amount == total(
                    token_lines(adds),
                    end.cw20[i].key,
                )
        }),
{
    let start = GenericBalanceView { native: Seq::empty(), cw20: Seq::empty() };
    lemma_plus_all(start, adds);
    law_credit_from_empty(native_lines(adds));
    law_credit_from_empty(token_lines(adds));
}

/// The height and the time of the block in which a message runs.
#[derive(Clone, Copy, Debug, PartialEq, Eq, Structural)]
pub struct BlockInfo {
    pub height: u64,
    /// Nanoseconds since 00:00:00 UTC on 1 January 1970.
    pub time_nanos: u64,
}

/// The surroundings in which a message runs.
#[derive(Clone, Copy, Debug, PartialEq, Eq, Structural)]
pub struct Env {
    pub block: BlockInfo,
}

/// Who sent a message, and the native coins that came with it.
#[derive(Debug, PartialEq, Eq)]
pub struct MessageInfo {
    pub sender: Addr,
    pub funds: Vec<Coin>,
}

/// The nanoseconds in one second.
pub const NANOS_PER_SECOND: u128 = 1_000_000_000;

/// The model of an [`Escrow`].
pub struct EscrowView {
    pub arbiter: Seq<char>,
    pub recipient: Option<Seq<char>>,
    pub source: Seq<char>,
    pub title: Seq<char>,
    pub description: Seq<char>,
    pub end_height: Option<u64>,
    pub end_time: Option<u64>,
    pub balance: GenericBalanceView,
    pub cw20_whitelist: Seq<Seq<char>>,
}

impl EscrowView {
    /// Whether the escrow has run out in `block`: an end height is set and
    /// the block's height is above it, or an end time is set and the block's
    /// time is past it. At the end height and at the end time themselves the
    /// escrow has not run out; without either it never does.
    pub open spec fn is_expired(self, block: BlockInfo) -> bool {
        ||| (self.end_height matches Some(end) && block.height > end)
        ||| (self.end_time matches Some(end) && block.time_nanos > end * NANOS_PER_SECOND)
    }

    /// Whether the whitelist names `token`.
    pub open spec fn accepts(self, token: Seq<char>) -> bool {
        self.cw20_whitelist.contains(token)
    }
}

/// One escrow: funds held until the arbiter approves or refunds them.
#[derive(Debug, PartialEq, Eq)]
pub struct Escrow {
    /// Who may set the recipient, approve and refund.
    pub arbiter: Addr,
    /// Where the funds go on approval; approval fails while this is unset.
    pub recipient: Option<Addr>,
    /// Who funded the escrow; the funds return here on a refund.
    pub source: Addr,
    /// A short name, such as "Fix issue in contract.rs" for a bug bounty.
    pub title: String,
    /// How the condition of the escrow is met, at length.
    pub description: String,
    /// Once the block height is above this value, the escrow has run out.
    pub end_height: Option<u64>,
    /// Once the block time is past this value, in seconds since 00:00:00 UTC
    /// on 1 January 1970, the escrow has run out.
    pub end_time: Option<u64>,
    /// The funds held, native and token.
    pub balance: GenericBalance,
    /// The token contracts from which the escrow takes top-ups.
    pub cw20_whitelist: Vec<Addr>,
}

impl View for Escrow {
    type V = EscrowView;

    open spec fn view(&self) -> EscrowView {
        EscrowView {
            arbiter: self.arbiter@,
            recipient: self.recipient.deep_view(),
            source: self.source@,
            title: self.title@,
            description: self.description@,
            end_height: self.end_height,
            end_time: self.end_time,
            balance: self.balance@,
            cw20_whitelist: self.cw20_whitelist.deep_view(),
        }
    }
}

impl DeepView for Escrow {
    type V = EscrowView;

    open spec fn deep_view(&self) -> EscrowView {
        self@
    }
}

impl Clone for Escrow {
    fn clone(&self) -> (copy: Escrow)
        ensures
            copy@ == self@,
    {
        let recipient = match &self.recipient {
            Some(addr) => Some(addr.clone()),
            None => None,
        };
        Escrow {
            arbiter: self.arbiter.clone(),
            recipient,
            source: self.source.clone(),
            title: self.title.clone(),
            description: self.description.clone(),
            end_height: self.end_height,
            end_time: self.end_time,
            balance: self.balance.clone(),
            cw20_whitelist: clone_addrs(&self.cw20_whitelist),
        }
    }
}

impl Escrow {
    /// Whether the escrow has run out in the block of `env`.
    pub fn is_expired(&self, env: &Env) -> (expired: bool)
        ensures
            expired == self@.is_expired(env.block),
    {
        if let Some(end_height) = self.end_height {
            if env.block.height > end_height {
                return true;
            }
        }
        if let Some(end_time) = self.end_time {
            let end_nanos: u128 = end_time as u128 * NANOS_PER_SECOND;
            if env.block.time_nanos as u128 > end_nanos {
                return true;
            }
        }
        false
    }

    /// Lets `caller` pass if it is the arbiter of the escrow, and no one
    /// else.
    pub fn requires_arbiter(&self, caller: &Addr) -> (pass: Result<(), ContractError>)
        ensures
            pass is Ok <==> caller@ == self@.arbiter,
            pass is Err ==> pass == Err::<(), ContractError>(ContractError::Unauthorized),
    {
        if *caller == self.arbiter {
            Ok(())
        } else {
            Err(ContractError::Unauthorized)
        }
    }

    /// The whitelist as text, in its order.
    pub fn human_whitelist(&self) -> (list: Vec<String>)
        ensures
            list.deep_view() == self@.cw20_whitelist,
    {
        let mut list: Vec<String> = Vec::new();
        let mut i: usize = 0;
        while i < self.cw20_whitelist.len()
            invariant
                i <= self.cw20_whitelist.len(),
                list.len() == i,
                forall|k: int| 0 <= k < i ==> (#[trigger] list[k])@ == self.cw20_whitelist[k]@,
            decreases self.cw20_whitelist.len() - i,
        {
            list.push(self.cw20_whitelist[i].as_str().to_owned());
            i += 1;
        }
        assert(list.deep_view() =~= self@.cw20_whitelist);
        list
    }

    /// Whether the whitelist names `token`.
    pub fn accepts(&self, token: &Addr) -> (listed: bool)
        ensures
            listed == self@.accepts(token@),
    {
        contains_addr(&self.cw20_whitelist, token)
    }
}

/// Whether `list` holds `addr`.
pub fn contains_addr(list: &Vec<Addr>, addr: &Addr) -> (found: bool)
    ensures
        found == list.deep_view().contains(addr@),
{
    let mut i: usize = 0;
    while i < list.len()
        invariant
            i <= list.len(),
            forall|k: int| 0 <= k < i ==> (#[trigger] list.deep_view()[k]) != addr@,
        decreases list.len() - i,
    {
        if list[i] == *addr {
            assert(list.deep_view()[i as int] == addr@);
            return true;
        }
        i += 1;
    }
    false
}

} // verus!
