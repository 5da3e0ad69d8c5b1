//! The identity validator as the escrow sees it: the verdicts that the
//! validator has given on raw identities.

use crate::asset::Addr;
use crate::error::ContractError;
use vstd::prelude::*;

verus! {

/// What the validator said of one raw identity: the validated identity, or
/// `None` where it turned the raw identity down.
#[derive(Debug, Clone, PartialEq, Eq)]
pub struct Verdict {
    pub raw: String,
    pub addr: Option<Addr>,
}

impl View for Verdict {
    type V = (Seq<char>, Option<Seq<char>>);

    open spec fn view(&self) -> (Seq<char>, Option<Seq<char>>) {
        (self.raw@, self.addr.deep_view())
    }
}

impl DeepView for Verdict {
    type V = (Seq<char>, Option<Seq<char>>);

    open spec fn deep_view(&self) -> (Seq<char>, Option<Seq<char>>) {
        self@
    }
}

/// The verdict that `verdicts` holds on `raw`: that of the first entry for
/// `raw`, and `None` where there is no entry for it.
pub open spec fn verdict_on(verdicts: Seq<(Seq<char>, Option<Seq<char>>)>, raw: Seq<char>) -> Option<
    Seq<char>,
>
    decreases verdicts.len(),
{
    if verdicts.len() == 0 {
        None
    } else if verdicts[0].0 == raw {
        verdicts[0].1
    } else {
        verdict_on(verdicts.drop_first(), raw)
    }
}

/// The verdicts of `verdicts` on each of `raws`, in order, or `None` where
/// one of them is turned down.
pub open spec fn verdicts_on(
    verdicts: Seq<(Seq<char>, Option<Seq<char>>)>,
    raws: Seq<Seq<char>>,
) -> Option<Seq<Seq<char>>>
    decreases raws.len(),
{
    if raws.len() == 0 {
        Some(Seq::empty())
    } else {
        match (verdicts_on(verdicts, raws.drop_last()), verdict_on(verdicts, raws.last())) {
            (Some(front), Some(addr)) => Some(front.push(addr)),
            _ => None,
        }
    }
}

/// Once one raw identity is turned down, the whole list is.
pub proof fn lemma_verdicts_none(
    verdicts: Seq<(Seq<char>, Option<Seq<char>>)>,
    raws: Seq<Seq<char>>,
    done: int,
)
    requires
        0 <= done <= raws.len(),
        verdicts_on(verdicts, raws.take(done)) is None,
    ensures
        verdicts_on(verdicts, raws) is None,
    decreases raws.len(),
{
    if done == raws.len() {
        assert(raws.take(done) =~= raws);
    } else {
        assert(raws.drop_last().take(done) =~= raws.take(done));
        lemma_verdicts_none(verdicts, raws.drop_last(), done);
    }
}

/// The verdicts of the identity validator on the raw identities that a
/// message names. A raw identity without a verdict counts as turned down.
#[derive(Debug, Clone, PartialEq, Eq)]
pub struct AddressBook {
    pub verdicts: Vec<Verdict>,
}

impl View for AddressBook {
    type V = Seq<(Seq<char>, Option<Seq<char>>)>;

    open spec fn view(&self) -> Seq<(Seq<char>, Option<Seq<char>>)> {
        self.verdicts.deep_view()
    }
}

impl AddressBook {
    /// A book without verdicts.
    pub fn new() -> (book: AddressBook)
        ensures
            book@ == Seq::<(Seq<char>, Option<Seq<char>>)>::empty(),
    {
        let book = AddressBook { verdicts: Vec::new() };
        assert(book@ =~= Seq::<(Seq<char>, Option<Seq<char>>)>::empty());
        book
    }

    /// Writes down the validator's verdict `addr` on `raw`, behind the
    /// verdicts that the book holds.
    pub fn record(&mut self, raw: &str, addr: Option<Addr>)
        ensures
            final(self)@ == old(self)@.push((raw@, addr.deep_view())),
    {
        self.verdicts.push(Verdict { raw: raw.to_owned(), addr });
        assert(self@ =~= old(self)@.push((raw@, addr.deep_view())));
    }

    /// The validated identity for `raw`, or `InvalidAddress` where the book
    /// holds no verdict on `raw` or the verdict turns it down.
    pub fn addr_validate(&self, raw: &String) -> (valid: Result<Addr, ContractError>)
        ensures
            valid matches Ok(addr) ==> verdict_on(self@, raw@) == Some(addr@),
            valid matches Err(e) ==> e == ContractError::InvalidAddress && verdict_on(
                self@,
                raw@,
            ) is None,
    {
        let ghost all = self@;
        let mut i: usize = 0;
        assert(all.skip(0) =~= all);
        while i < self.verdicts.len()
            invariant
                i <= self.verdicts.len(),
                all == self@,
                verdict_on(all, raw@) == verdict_on(all.skip(i as int), raw@),
            decreases self.verdicts.len() - i,
        {
            let ghost rest = all.skip(i as int);
            assert(rest[0] == self.verdicts[i as int]@);
            assert(rest.drop_first() =~= all.skip(i + 1));
            if self.verdicts[i].raw == *raw {
                return match &self.verdicts[i].addr {
                    Some(addr) => Ok(addr.clone()),
                    None => Err(ContractError::InvalidAddress),
                };
            }
            i += 1;
        }
        Err(ContractError::InvalidAddress)
    }
}

} // verus!
