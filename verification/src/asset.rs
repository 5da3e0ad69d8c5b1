//! Identities and funds: addresses, native coins, tokens, and a deposit of
//! either kind.

use crate::ledger::Line;
use vstd::prelude::*;

verus! {

/// A validated identity: an account or a contract.
#[derive(Debug)]
pub struct Addr {
    inner: String,
}

impl View for Addr {
    type V = Seq<char>;

    closed spec fn view(&self) -> Seq<char> {
        self.inner@
    }
}

impl DeepView for Addr {
    type V = Seq<char>;

    open spec fn deep_view(&self) -> Seq<char> {
        self@
    }
}

impl Addr {
    /// Takes `input` as an identity without asking any validator.
    pub fn unchecked(input: &str) -> (addr: Addr)
        ensures
            addr@ == input@,
    {
        Addr { inner: input.to_owned() }
    }

    /// The identity as text.
    pub fn as_str(&self) -> (text: &str)
        ensures
            text@ == self@,
    {
        self.inner.as_str()
    }

    /// The identity as an owned string.
    pub fn into_string(self) -> (text: String)
        ensures
            text@ == self@,
    {
        self.inner
    }
}

impl Clone for Addr {
    fn clone(&self) -> (copy: Addr)
        ensures
            copy@ == self@,
    {
        Addr { inner: self.inner.clone() }
    }
}

impl PartialEq for Addr {
    fn eq(&self, other: &Addr) -> (same: bool) {
        self.inner == other.inner
    }
}

impl Eq for Addr {}

impl vstd::std_specs::cmp::PartialEqSpecImpl for Addr {
    open spec fn obeys_eq_spec() -> bool {
        true
    }

    open spec fn eq_spec(&self, other: &Addr) -> bool {
        self@ == other@
    }
}

/// An amount of a native currency.
#[derive(Debug)]
pub struct Coin {
    pub denom: String,
    pub amount: u128,
}

impl View for Coin {
    type V = Line;

    open spec fn view(&self) -> Line {
        Line { key: self.denom@, amount: self.amount as nat }
    }
}

impl DeepView for Coin {
    type V = Line;

    open spec fn deep_view(&self) -> Line {
        self@
    }
}

impl Clone for Coin {
    fn clone(&self) -> (copy: Coin)
        ensures
            copy@ == self@,
    {
        Coin { denom: self.denom.clone(), amount: self.amount }
    }
}

impl PartialEq for Coin {
    fn eq(&self, other: &Coin) -> (same: bool) {
        self.denom == other.denom && self.amount == other.amount
    }
}

impl Eq for Coin {}

impl vstd::std_specs::cmp::PartialEqSpecImpl for Coin {
    open spec fn obeys_eq_spec() -> bool {
        true
    }

    open spec fn eq_spec(&self, other: &Coin) -> bool {
        self@ == other@
    }
}

/// `amount` of the currency `denom`.
pub fn coin(amount: u128, denom: &str) -> (c: Coin)
    ensures
        c@ == (Line { key: denom@, amount: amount as nat }),
{
    Coin { denom: denom.to_owned(), amount }
}

/// A list of one coin: `amount` of the currency `denom`.
pub fn coins(amount: u128, denom: &str) -> (list: Vec<Coin>)
    ensures
        list.deep_view() == seq![Line { key: denom@, amount: amount as nat }],
{
    let mut list: Vec<Coin> = Vec::new();
    list.push(coin(amount, denom));
    assert(list.deep_view() =~= seq![Line { key: denom@, amount: amount as nat }]);
    list
}

/// An amount of a token, named by the validated identity of its contract.
#[derive(Debug)]
pub struct Cw20CoinVerified {
    pub address: Addr,
    pub amount: u128,
}

impl View for Cw20CoinVerified {
    type V = Line;

    open spec fn view(&self) -> Line {
        Line { key: self.address@, amount: self.amount as nat }
    }
}

impl DeepView for Cw20CoinVerified {
    type V = Line;

    open spec fn deep_view(&self) -> Line {
        self@
    }
}

impl Clone for Cw20CoinVerified {
    fn clone(&self) -> (copy: Cw20CoinVerified)
        ensures
            copy@ == self@,
    {
        Cw20CoinVerified { address: self.address.clone(), amount: self.amount }
    }
}

impl PartialEq for Cw20CoinVerified {
    fn eq(&self, other: &Cw20CoinVerified) -> (same: bool) {
        self.address == other.address && self.amount == other.amount
    }
}

impl Eq for Cw20CoinVerified {}

impl vstd::std_specs::cmp::PartialEqSpecImpl for Cw20CoinVerified {
    open spec fn obeys_eq_spec() -> bool {
        true
    }

    open spec fn eq_spec(&self, other: &Cw20CoinVerified) -> bool {
        self@ == other@
    }
}

impl Cw20CoinVerified {
    /// Whether the amount is zero.
    pub fn is_empty(&self) -> (empty: bool)
        ensures
            empty == (self.amount == 0),
    {
        self.amount == 0
    }
}

/// An amount of a token, named by the identity of its contract as text.
#[derive(Debug)]
pub struct Cw20Coin {
    pub address: String,
    pub amount: u128,
}

impl View for Cw20Coin {
    type V = Line;

    open spec fn view(&self) -> Line {
        Line { key: self.address@, amount: self.amount as nat }
    }
}

impl DeepView for Cw20Coin {
    type V = Line;

    open spec fn deep_view(&self) -> Line {
        self@
    }
}

impl Clone for Cw20Coin {
    fn clone(&self) -> (copy: Cw20Coin)
        ensures
            copy@ == self@,
    {
        Cw20Coin { address: self.address.clone(), amount: self.amount }
    }
}

impl PartialEq for Cw20Coin {
    fn eq(&self, other: &Cw20Coin) -> (same: bool) {
        self.address == other.address && self.amount == other.amount
    }
}

impl Eq for Cw20Coin {}

impl vstd::std_specs::cmp::PartialEqSpecImpl for Cw20Coin {
    open spec fn obeys_eq_spec() -> bool {
        true
    }

    open spec fn eq_spec(&self, other: &Cw20Coin) -> bool {
        self@ == other@
    }
}

/// A copy of `list`, coin by coin.
pub fn clone_coins(list: &Vec<Coin>) -> (copy: Vec<Coin>)
    ensures
        copy.deep_view() == list.deep_view(),
{
    let mut copy: Vec<Coin> = Vec::new();
    let mut i: usize = 0;
    while i < list.len()
        invariant
            i <= list.len(),
            copy.len() == i,
            forall|k: int| 0 <= k < i ==> (#[trigger] copy[k])@ == list[k]@,
        decreases list.len() - i,
    {
        copy.push(list[i].clone());
        i += 1;
    }
    assert(copy.deep_view() =~= list.deep_view());
    copy
}

/// A copy of `list`, token by token.
pub fn clone_tokens(list: &Vec<Cw20CoinVerified>) -> (copy: Vec<Cw20CoinVerified>)
    ensures
        copy.deep_view() == list.deep_view(),
{
    let mut copy: Vec<Cw20CoinVerified> = Vec::new();
    let mut i: usize = 0;
    while i < list.len()
        invariant
            i <= list.len(),
            copy.len() == i,
            forall|k: int| 0 <= k < i ==> (#[trigger] copy[k])@ == list[k]@,
        decreases list.len() - i,
    {
        copy.push(list[i].clone());
        i += 1;
    }
    assert(copy.deep_view() =~= list.deep_view());
    copy
}

/// A copy of `list`, identity by identity.
pub fn clone_addrs(list: &Vec<Addr>) -> (copy: Vec<Addr>)
    ensures
        copy.deep_view() == list.deep_view(),
{
    let mut copy: Vec<Addr> = Vec::new();
    let mut i: usize = 0;
    while i < list.len()
        invariant
            i <= list.len(),
            copy.len() == i,
            forall|k: int| 0 <= k < i ==> (#[trigger] copy[k])@ == list[k]@,
        decreases list.len() - i,
    {
        copy.push(list[i].clone());
        i += 1;
    }
    assert(copy.deep_view() =~= list.deep_view());
    copy
}

/// The model of a [`Balance`].
pub enum BalanceView {
    Native(Seq<Line>),
    Cw20(Line),
}

impl BalanceView {
    /// The lines that the deposit carries, in order.
    pub open spec fn lines(self) -> Seq<Line> {
        match self {
            BalanceView::Native(lines) => lines,
            BalanceView::Cw20(line) => seq![line],
        }
    }

    /// Whether the deposit carries no value: every amount in it is zero.
    pub open spec fn is_empty(self) -> bool {
        crate::ledger::all_zero(self.lines())
    }
}

/// Funds handed in with a message: a list of native coins, or an amount of
/// one token.
#[derive(Debug, PartialEq, Eq)]
pub enum Balance {
    Native(Vec<Coin>),
    Cw20(Cw20CoinVerified),
}

impl View for Balance {
    type V = BalanceView;

    open spec fn view(&self) -> BalanceView {
        match self {
            Balance::Native(list) => BalanceView::Native(list.deep_view()),
            Balance::Cw20(token) => BalanceView::Cw20(token@),
        }
    }
}

impl DeepView for Balance {
    type V = BalanceView;

    open spec fn deep_view(&self) -> BalanceView {
        self@
    }
}

impl Clone for Balance {
    fn clone(&self) -> (copy: Balance)
        ensures
            copy@ == self@,
    {
        match self {
            Balance::Native(list) => Balance::Native(clone_coins(list)),
            Balance::Cw20(token) => Balance::Cw20(token.clone()),
        }
    }
}

impl Balance {
    /// The deposit of the native coins `list`.
    pub fn from_coins(list: Vec<Coin>) -> (balance: Balance)
        ensures
            balance@ == BalanceView::Native(list.deep_view()),
    {
        Balance::Native(list)
    }

    /// Whether the deposit carries no value: it is a list of native coins
    /// whose amounts are all zero (the list without coins among them), or a
    /// token amount of zero.
    pub fn is_empty(&self) -> (empty: bool)
        ensures
            empty == self@.is_empty(),
    {
        match self {
            Balance::Native(list) => no_value(list),
            Balance::Cw20(token) => {
                assert(self@.lines()[0] == token@);
                token.is_empty()
            },
        }
    }
}

/// Whether every coin of `list` has the amount zero.
fn no_value(list: &Vec<Coin>) -> (none: bool)
    ensures
        none == crate::ledger::all_zero(list.deep_view()),
{
    let mut i: usize = 0;
    while i < list.len()
        invariant
            i <= list.len(),
            forall|k: int| 0 <= k < i ==> (#[trigger] list.deep_view()[k]).amount == 0,
        decreases list.len() - i,
    {
        if list[i].amount != 0 {
            assert(list.deep_view()[i as int].amount != 0);
            return false;
        }
        i += 1;
    }
    true
}

} // verus!
