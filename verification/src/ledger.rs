//! The mathematical model of a balance: a ledger is a sequence of lines, one
//! asset per line, in the order in which the assets were first credited.

use vstd::prelude::*;

verus! {

/// One line of a ledger: the key of an asset (a denomination, or the
/// identity of a token contract) and the amount held of it.
pub struct Line {
    pub key: Seq<char>,
    pub amount: nat,
}

/// The largest amount that a stored line can hold.
pub open spec fn max_amount() -> nat {
    u128::MAX as nat
}

/// The index of the first line of `ledger` that holds `key`, or the length
/// of `ledger` where no line does.
pub open spec fn position(ledger: Seq<Line>, key: Seq<char>) -> int
    decreases ledger.len(),
{
    if ledger.len() == 0 {
        0
    } else if ledger[0].key == key {
        0
    } else {
        1 + position(ledger.drop_first(), key)
    }
}

/// Whether some line of `ledger` holds `key`.
pub open spec fn holds(ledger: Seq<Line>, key: Seq<char>) -> bool {
    exists|i: int| 0 <= i < ledger.len() && (#[trigger] ledger[i]).key == key
}

/// The ledger after `item` is credited: the first line with the item's key
/// grows by the item's amount and stays where it is; where there is no such
/// line, the item becomes the last line.
pub open spec fn credit(ledger: Seq<Line>, item: Line) -> Seq<Line> {
    let i = position(ledger, item.key);
    if i < ledger.len() {
        ledger.update(i, Line { key: ledger[i].key, amount: ledger[i].amount + item.amount })
    } else {
        ledger.push(item)
    }
}

/// The ledger after each of `items` is credited, first to last.
pub open spec fn credit_all(ledger: Seq<Line>, items: Seq<Line>) -> Seq<Line>
    decreases items.len(),
{
    if items.len() == 0 {
        ledger
    } else {
        credit(credit_all(ledger, items.drop_last()), items.last())
    }
}

/// Whether every amount of `ledger` fits in 128 bits.
pub open spec fn fits(ledger: Seq<Line>) -> bool {
    forall|i: int| 0 <= i < ledger.len() ==> (#[trigger] ledger[i]).amount <= max_amount()
}

/// Whether no two lines of `ledger` hold the same key.
pub open spec fn distinct(ledger: Seq<Line>) -> bool {
    forall|i: int, j: int|
        0 <= i < j < ledger.len() ==> (#[trigger] ledger[i]).key != (#[trigger] ledger[j]).key
}

/// The sum of the amounts of all lines of `lines` that hold `key`.
pub open spec fn total(lines: Seq<Line>, key: Seq<char>) -> nat
    decreases lines.len(),
{
    if lines.len() == 0 {
        0
    } else {
        let rest = total(lines.drop_last(), key);
        if lines.last().key == key {
            rest + lines.last().amount
        } else {
            rest
        }
    }
}

/// The keys of `lines`, each once, in the order of their first appearance.
pub open spec fn first_seen(lines: Seq<Line>) -> Seq<Seq<char>>
    decreases lines.len(),
{
    if lines.len() == 0 {
        Seq::empty()
    } else {
        let before = first_seen(lines.drop_last());
        if before.contains(lines.last().key) {
            before
        } else {
            before.push(lines.last().key)
        }
    }
}

/// The keys of `ledger`, line by line.
pub open spec fn keys(ledger: Seq<Line>) -> Seq<Seq<char>> {
    Seq::new(ledger.len(), |i: int| ledger[i].key)
}

/// Whether every amount of `ledger` is zero.
pub open spec fn all_zero(ledger: Seq<Line>) -> bool {
    forall|i: int| 0 <= i < ledger.len() ==> (#[trigger] ledger[i]).amount == 0
}

/// Where `position` points: at the first line that holds `key`, or past the
/// last line where none holds it.
pub proof fn lemma_position(ledger: Seq<Line>, key: Seq<char>)
    ensures
        0 <= position(ledger, key) <= ledger.len(),
        forall|k: int| 0 <= k < position(ledger, key) ==> (#[trigger] ledger[k]).key != key,
        position(ledger, key) < ledger.len() ==> ledger[position(ledger, key)].key == key,
        position(ledger, key) < ledger.len() <==> holds(ledger, key),
    decreases ledger.len(),
{
    if ledger.len() > 0 && ledger[0].key != key {
        let rest = ledger.drop_first();
        lemma_position(rest, key);
        assert forall|k: int| 0 <= k < position(ledger, key) implies (#[trigger] ledger[k]).key
            != key by {
            if k > 0 {
                assert(rest[k - 1] == ledger[k]);
            }
        }
        if position(ledger, key) < ledger.len() {
            assert(rest[position(rest, key)] == ledger[position(ledger, key)]);
        }
        if holds(ledger, key) {
            let i = choose|i: int| 0 <= i < ledger.len() && (#[trigger] ledger[i]).key == key;
            assert(rest[i - 1] == ledger[i]);
        }
    }
}

/// A credit leaves every line in its place and lowers no amount.
pub proof fn lemma_credit_grows(ledger: Seq<Line>, item: Line)
    ensures
        ledger.len() <= credit(ledger, item).len() <= ledger.len() + 1,
        forall|i: int|
            0 <= i < ledger.len() ==> (#[trigger] credit(ledger, item)[i]).key == ledger[i].key
                && credit(ledger, item)[i].amount >= ledger[i].amount,
{
    lemma_position(ledger, item.key);
}

/// Once an amount is too large, crediting more does not mend it.
pub proof fn lemma_excess_stays(ledger: Seq<Line>, items: Seq<Line>, done: int)
    requires
        0 <= done <= items.len(),
        !fits(credit_all(ledger, items.take(done))),
    ensures
        !fits(credit_all(ledger, items)),
    decreases items.len(),
{
    if done == items.len() {
        assert(items.take(done) =~= items);
    } else {
        let front = items.drop_last();
        assert(front.take(done) =~= items.take(done));
        lemma_excess_stays(ledger, front, done);
        let before = credit_all(ledger, front);
        lemma_credit_grows(before, items.last());
        let i = choose|i: int| 0 <= i < before.len() && (#[trigger] before[i]).amount > max_amount();
        assert(credit(before, items.last())[i].amount > max_amount());
    }
}

/// Crediting the first `done + 1` items is crediting the first `done` and
/// then the next one.
pub proof fn lemma_credit_all_step(ledger: Seq<Line>, items: Seq<Line>, done: int)
    requires
        0 <= done < items.len(),
    ensures
        credit_all(ledger, items.take(done + 1)) == credit(
            credit_all(ledger, items.take(done)),
            items[done],
        ),
{
    let upto = items.take(done + 1);
    assert(upto.drop_last() =~= items.take(done));
    assert(upto.last() == items[done]);
}

/// What a credit does to the keys: nothing where the key is held already,
/// and one more key at the end where it is not.
pub proof fn lemma_credit_keys(ledger: Seq<Line>, item: Line)
    ensures
        keys(ledger).contains(item.key) <==> holds(ledger, item.key),
        holds(ledger, item.key) ==> keys(credit(ledger, item)) == keys(ledger),
        !holds(ledger, item.key) ==> keys(credit(ledger, item)) == keys(ledger).push(item.key),
{
    lemma_position(ledger, item.key);
    if holds(ledger, item.key) {
        let i = choose|i: int| 0 <= i < ledger.len() && (#[trigger] ledger[i]).key == item.key;
        assert(keys(ledger)[i] == item.key);
        assert(keys(credit(ledger, item)) =~= keys(ledger));
    } else {
        if keys(ledger).contains(item.key) {
            let i = choose|i: int| 0 <= i < keys(ledger).len() && keys(ledger)[i] == item.key;
            assert(ledger[i].key == item.key);
        }
        assert(keys(credit(ledger, item)) =~= keys(ledger).push(item.key));
    }
}

/// A credit keeps the keys of a ledger distinct.
pub proof fn lemma_credit_distinct(ledger: Seq<Line>, item: Line)
    requires
        distinct(ledger),
    ensures
        distinct(credit(ledger, item)),
{
    lemma_position(ledger, item.key);
}

/// Replacing the amount of line `at` moves the total of that line's key by
/// the difference, and no other total.
proof fn lemma_total_update(ledger: Seq<Line>, at: int, amount: nat, key: Seq<char>)
    requires
        0 <= at < ledger.len(),
    ensures
        total(ledger.update(at, Line { key: ledger[at].key, amount }), key) + (if ledger[at].key
            == key {
            ledger[at].amount
        } else {
            0
        }) == total(ledger, key) + (if ledger[at].key == key {
            amount
        } else {
            0
        }),
    decreases ledger.len(),
{
    let changed = ledger.update(at, Line { key: ledger[at].key, amount });
    if at == ledger.len() - 1 {
        assert(changed.drop_last() =~= ledger.drop_last());
    } else {
        assert(changed.drop_last() =~= ledger.drop_last().update(
            at,
            Line { key: ledger[at].key, amount },
        ));
        lemma_total_update(ledger.drop_last(), at, amount, key);
    }
}

/// A credit adds the item's amount to the total of the item's key, and
/// leaves every other total as it was.
pub proof fn lemma_credit_total(ledger: Seq<Line>, item: Line, key: Seq<char>)
    ensures
        total(credit(ledger, item), key) == total(ledger, key) + (if item.key == key {
            item.amount
        } else {
            0
        }),
{
    lemma_position(ledger, item.key);
    let i = position(ledger, item.key);
    if i < ledger.len() {
        lemma_total_update(ledger, i, ledger[i].amount + item.amount, key);
    } else {
        assert(ledger.push(item).drop_last() =~= ledger);
    }
}

/// In a ledger of distinct keys, the line that holds a key holds the whole
/// total of that key.
pub proof fn lemma_distinct_total(ledger: Seq<Line>, at: int)
    requires
        distinct(ledger),
        0 <= at < ledger.len(),
    ensures
        total(ledger, ledger[at].key) == ledger[at].amount,
    decreases ledger.len(),
{
    let front = ledger.drop_last();
    if at == ledger.len() - 1 {
        lemma_absent_total(front, ledger[at].key);
    } else {
        lemma_distinct_total(front, at);
    }
}

/// A key that no line holds has the total zero.
pub proof fn lemma_absent_total(ledger: Seq<Line>, key: Seq<char>)
    requires
        !holds(ledger, key),
    ensures
        total(ledger, key) == 0,
    decreases ledger.len(),
{
    if ledger.len() > 0 {
        let front = ledger.drop_last();
        assert(ledger[ledger.len() - 1].key != key);
        assert forall|i: int| 0 <= i < front.len() implies (#[trigger] front[i]).key != key by {
            assert(ledger[i].key != key);
        }
        lemma_absent_total(front, key);
    }
}

/// Crediting two lists one after the other is crediting their concatenation.
pub proof fn lemma_credit_all_concat(ledger: Seq<Line>, first: Seq<Line>, second: Seq<Line>)
    ensures
        credit_all(ledger, first + second) == credit_all(credit_all(ledger, first), second),
    decreases second.len(),
{
    if second.len() == 0 {
        assert(first + second =~= first);
    } else {
        assert((first + second).drop_last() =~= first + second.drop_last());
        lemma_credit_all_concat(ledger, first, second.drop_last());
    }
}

/// Credits keep the keys of a ledger distinct, add to each key's total what
/// the items contribute to it, and keep each line in its place.
pub proof fn law_credit_all(ledger: Seq<Line>, items: Seq<Line>)
    requires
        distinct(ledger),
    ensures
        distinct(credit_all(ledger, items)),
        forall|key: Seq<char>| #[trigger]
            total(credit_all(ledger, items), key) == total(ledger, key) + total(items, key),
        ledger.len() <= credit_all(ledger, items).len(),
        forall|i: int|
            0 <= i < ledger.len() ==> (#[trigger] credit_all(ledger, items)[i]).key
                == ledger[i].key,
    decreases items.len(),
{
    if items.len() > 0 {
        let before = credit_all(ledger, items.drop_last());
        law_credit_all(ledger, items.drop_last());
        lemma_credit_distinct(before, items.last());
        lemma_credit_grows(before, items.last());
        assert forall|key: Seq<char>| #[trigger]
            total(credit_all(ledger, items), key) == total(ledger, key) + total(
                items,
                key,
            ) by {
            lemma_credit_total(before, items.last(), key);
        }
    }
}

/// For every list of items credited to an empty ledger: no key comes out
/// twice, the lines come out in the order in which their keys were first
/// seen, and each line holds the sum of all amounts that the items brought
/// for its key.
pub proof fn law_credit_from_empty(items: Seq<Line>)
    ensures
        distinct(credit_all(Seq::empty(), items)),
        keys(credit_all(Seq::empty(), items)) == first_seen(items),
        forall|i: int|
            0 <= i < credit_all(Seq::empty(), items).len() ==> (#[trigger] credit_all(
                Seq::empty(),
                items,
            )[i]).amount == total(items, credit_all(Seq::empty(), items)[i].key),
    decreases items.len(),
{
    let empty = Seq::<Line>::empty();
    let result = credit_all(empty, items);
    law_credit_all(empty, items);
    assert forall|i: int| 0 <= i < result.len() implies (#[trigger] result[i]).amount == total(
        items,
        result[i].key,
    ) by {
        lemma_distinct_total(result, i);
        assert(total(result, result[i].key) == total(empty, result[i].key) + total(
            items,
            result[i].key,
        ));
    }
    if items.len() == 0 {
        assert(keys(result) =~= first_seen(items));
    } else {
        law_credit_from_empty(items.drop_last());
        lemma_credit_keys(credit_all(empty, items.drop_last()), items.last());
    }
}

} // verus!
