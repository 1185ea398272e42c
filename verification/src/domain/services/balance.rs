//! The balance of an account, derived from the history of its ledger events.

use crate::domain::entities::{EventType, LedgerEvent};
use crate::domain::errors::{DomainError, DomainErrorView, DomainResult};
use vstd::prelude::*;

verus! {

/// The sum of the amounts of the events of one direction.
pub open spec fn total_of(events: Seq<LedgerEvent>, kind: EventType) -> int
    decreases events.len(),
{
    if events.len() == 0 {
        0
    } else {
        total_of(events.drop_last(), kind) + if events.last().event_type == kind {
            events.last().amount@
        } else {
            0
        }
    }
}

/// The balance that a history of events amounts to: the sum of its credits
/// less the sum of its debits. It may be negative.
pub open spec fn balance_of(events: Seq<LedgerEvent>) -> int {
    total_of(events, EventType::Credit) - total_of(events, EventType::Debit)
}

/// The balance reached by going through the history from the oldest event
/// to the newest, starting at zero: a credit adds its amount, a debit takes
/// it away.
pub open spec fn running_balance(events: Seq<LedgerEvent>) -> int {
    events.fold_left(0int, |so_far: int, event: LedgerEvent| so_far + event.signed_amount())
}

/// What computing the balance gives: the balance, unless it lies outside
/// the 64-bit signed integers.
pub open spec fn spec_calculate_balance(events: Seq<LedgerEvent>) -> Result<int, DomainErrorView> {
    if i64::MIN <= balance_of(events) <= i64::MAX {
        Ok(balance_of(events))
    } else {
        Err(DomainErrorView::ValidationError("Balance overflow"@))
    }
}

/// One more event changes the balance by its signed amount.
pub proof fn lemma_balance_of_push(events: Seq<LedgerEvent>, event: LedgerEvent)
    ensures
        balance_of(events.push(event)) == balance_of(events) + event.signed_amount(),
{
    let longer = events.push(event);
    assert(longer.drop_last() =~= events);
}

/// Going through the history event by event arrives at the sum of the
/// credits less the sum of the debits.
pub proof fn law_running_balance_is_credits_less_debits(events: Seq<LedgerEvent>)
    ensures
        running_balance(events) == balance_of(events),
    decreases events.len(),
{
    if events.len() > 0 {
        law_running_balance_is_credits_less_debits(events.drop_last());
        lemma_balance_of_push(events.drop_last(), events.last());
    }
}

/// The balance of two histories, one after the other, is the sum of their
/// balances: a history may be computed in parts.
pub proof fn law_balance_of_parts(older: Seq<LedgerEvent>, newer: Seq<LedgerEvent>)
    ensures
        balance_of(older + newer) == balance_of(older) + balance_of(newer),
    decreases newer.len(),
{
    if newer.len() > 0 {
        law_balance_of_parts(older, newer.drop_last());
        lemma_balance_of_push(older + newer.drop_last(), newer.last());
        assert(newer.drop_last().push(newer.last()) =~= newer);
        lemma_balance_of_push(newer.drop_last(), newer.last());
    }
}

/// Leaving one event out changes the balance by its signed amount.
pub proof fn lemma_balance_of_remove(events: Seq<LedgerEvent>, i: int)
    requires
        0 <= i < events.len(),
    ensures
        balance_of(events) == balance_of(events.remove(i)) + events[i].signed_amount(),
{
    let before = events.subrange(0, i);
    let after = events.subrange(i + 1, events.len() as int);
    assert(events =~= before.push(events[i]) + after);
    law_balance_of_parts(before.push(events[i]), after);
    law_balance_of_parts(before, after);
    lemma_balance_of_push(before, events[i]);
}

/// The balance does not depend on the order of the events: two histories
/// that hold the same events, each as often as the other, have the same
/// balance. So the order of two events of the same instant is of no
/// account.
pub proof fn law_balance_ignores_order(one: Seq<LedgerEvent>, other: Seq<LedgerEvent>)
    requires
        one.to_multiset() == other.to_multiset(),
    ensures
        balance_of(one) == balance_of(other),
    decreases one.len(),
{
    broadcast use vstd::multiset::group_multiset_axioms;

    one.to_multiset_ensures();
    other.to_multiset_ensures();
    if one.len() > 0 {
        // The last event of the one history stands somewhere in the other:
        // without it, the two are again histories of the same events.
        let last = one.last();
        let rest = one.drop_last();
        assert(rest.push(last) =~= one);
        rest.to_multiset_ensures();
        assert(other.to_multiset().count(last) > 0);
        let j = choose|j: int| 0 <= j < other.len() && other[j] == last;
        let others = other.remove(j);
        assert(others.to_multiset() =~= rest.to_multiset());
        law_balance_ignores_order(rest, others);
        lemma_balance_of_push(rest, last);
        lemma_balance_of_remove(other, j);
    }
}

/// Computes the balance of an account from the history of its events,
/// oldest first. Overdraft is not rejected: the balance is negative when
/// the debits exceed the credits. Fails only when the balance cannot be
/// held in 64 bits.
pub fn calculate_balance(events: &Vec<LedgerEvent>) -> (r: DomainResult<i64>)
    ensures
        match r {
            Ok(balance) => spec_calculate_balance(events@) == Ok::<int, DomainErrorView>(
                balance as int,
            ),
            Err(error) => spec_calculate_balance(events@) == Err::<int, DomainErrorView>(error@),
        },
{
    let mut balance: i128 = 0;
    let mut i: usize = 0;
    while i < events.len()
        invariant
            0 <= i <= events.len(),
            balance == balance_of(events@.take(i as int)),
            -(i * 0x8000_0000_0000_0000) <= balance <= i * 0x8000_0000_0000_0000,
        decreases events.len() - i,
    {
        let event = &events[i];
        let amount: i64 = event.amount.value();
        proof {
            assert(events@.take(i as int).push(*event) =~= events@.take(i + 1));
            lemma_balance_of_push(events@.take(i as int), *event);
        }
        match event.event_type {
            EventType::Credit => {
                balance = balance + amount as i128;
            },
            EventType::Debit => {
                balance = balance - amount as i128;
            },
        }
        i = i + 1;
    }
    assert(events@.take(i as int) =~= events@);
    if balance < i64::MIN as i128 || balance > i64::MAX as i128 {
        return Err(DomainError::ValidationError(String::from_str("Balance overflow")));
    }
    Ok(balance as i64)
}

} // verus!
