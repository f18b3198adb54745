//! What reconciliation guarantees, proved of every ledger and every event.

use vstd::prelude::*;
use crate::api::webhooks_lava::{outcome_of, EventOutcome, NormalizedLavaWebhookView};
use crate::ledger::{
    first_from, lemma_first_from, lemma_first_from_is, transaction_has_order,
    transaction_under_contract, LedgerView,
};
use crate::models::TransactionStatus;
use crate::reconcile::{matched_transaction, provider_name, reconciled, settled, settlement_of, target_of, with_transaction_added, Outcome, SettlementView, TargetView};

verus! {

/// Whether an outcome says that a transaction was settled.
pub open spec fn has_settled(outcome: Outcome) -> bool {
    outcome == Outcome::Succeeded || outcome == Outcome::Failed || outcome
        == Outcome::MissingProduct
}

/// Settling the transaction at `at` touches no other transaction, keeps the
/// transaction's identity and leaves it with a terminal status.
pub proof fn lemma_settled_shape(
    ledger: LedgerView,
    at: int,
    settlement: SettlementView,
    user_id: int,
    event: NormalizedLavaWebhookView,
    now: int,
)
    requires
        0 <= at < ledger.transactions.len(),
    ensures
        ({
            let after = settled(ledger, at, settlement, user_id, event, now);
            &&& after.transactions.len() == ledger.transactions.len()
            &&& after.next_transaction_id == ledger.next_transaction_id
            &&& after.products == ledger.products
            &&& forall|i: int|
                0 <= i < ledger.transactions.len() && i != at ==> #[trigger] after.transactions[i]
                    == ledger.transactions[i]
            &&& after.transactions[at].id == ledger.transactions[at].id
            &&& after.transactions[at].user_id == ledger.transactions[at].user_id
            &&& after.transactions[at].provider == ledger.transactions[at].provider
            &&& after.transactions[at].provider_order_id
                == ledger.transactions[at].provider_order_id
            &&& after.transactions[at].status.is_terminal()
            &&& after.transactions[at].status == (if settlement is Fail {
                TransactionStatus::Failed
            } else {
                TransactionStatus::Succeeded
            })
        }),
{
}

/// A settled transaction is never changed again: whatever the event, every
/// transaction that was settled before is the same afterwards, no
/// transaction disappears, and a transaction whose status changes was not
/// settled before and is settled now.
pub proof fn lemma_settled_transactions_stay(
    ledger: LedgerView,
    event: NormalizedLavaWebhookView,
    now: int,
)
    ensures
        ({
            let after = reconciled(ledger, event, now).0;
            &&& after.transactions.len() >= ledger.transactions.len()
            &&& forall|i: int|
                0 <= i < ledger.transactions.len() && (
                #[trigger] ledger.transactions[i]).status.is_terminal() ==> after.transactions[i]
                    == ledger.transactions[i]
            &&& forall|i: int|
                0 <= i < ledger.transactions.len() && (#[trigger] after.transactions[i]).status
                    != ledger.transactions[i].status ==> !ledger.transactions[i].status.is_terminal()
                    && after.transactions[i].status.is_terminal()
        }),
{
    let outcome = outcome_of(event);
    if outcome == EventOutcome::Success || outcome == EventOutcome::Failure {
        lemma_match_in_range(ledger, event);
        match target_of(ledger, event, outcome) {
            TargetView::Skip(_) => {},
            TargetView::Existing(at) => {
                let found = ledger.transactions[at];
                match settlement_of(ledger, event, outcome, found.user_id, found.product_id, now) {
                    Ok(s) => {
                        lemma_settled_shape(ledger, at, s, found.user_id, event, now);
                    },
                    Err(_) => {},
                }
            },
            TargetView::Fresh(row) => {
                if ledger.next_transaction_id < i32::MAX {
                    match settlement_of(ledger, event, outcome, row.user_id, row.product_id, now) {
                        Ok(s) => {
                            let added = with_transaction_added(ledger, row, event, now);
                            lemma_settled_shape(
                                added,
                                ledger.transactions.len() as int,
                                s,
                                row.user_id,
                                event,
                                now,
                            );
                        },
                        Err(_) => {},
                    }
                }
            },
        }
    }
}

/// The transaction that an event is matched to is in the ledger, and it is
/// the event's order or under the event's parent order.
pub proof fn lemma_match_in_range(ledger: LedgerView, event: NormalizedLavaWebhookView)
    ensures
        matched_transaction(ledger, event) matches Some(at) ==> 0 <= at
            < ledger.transactions.len() && ledger.transactions[at].provider == provider_name(),
        (event.order_id matches Some(order) && first_from(
            ledger.transactions,
            transaction_has_order(provider_name(), order),
            0,
        ) is None) ==> forall|i: int|
            0 <= i < ledger.transactions.len() ==> !(#[trigger] ledger.transactions[i].provider
                == provider_name() && ledger.transactions[i].provider_order_id
                == event.order_id->0),
{
    match event.order_id {
        Some(order) => {
            lemma_first_from(ledger.transactions, transaction_has_order(provider_name(), order), 0);
        },
        None => {},
    }
    match event.parent_order_id {
        Some(parent) => {
            lemma_first_from(
                ledger.transactions,
                transaction_under_contract(provider_name(), parent),
                0,
            );
        },
        None => {},
    }
}

/// A transaction is opened only for the event's order, and only if the
/// ledger does not hold that order yet.
pub proof fn lemma_fresh_order_is_new(
    ledger: LedgerView,
    event: NormalizedLavaWebhookView,
    outcome: EventOutcome,
)
    ensures
        target_of(ledger, event, outcome) matches TargetView::Fresh(row) ==> event.order_id
            == Some(row.order_id) && first_from(
            ledger.transactions,
            transaction_has_order(provider_name(), row.order_id),
            0,
        ) is None,
{
    match event.order_id {
        Some(order) => {
            lemma_first_from(ledger.transactions, transaction_has_order(provider_name(), order), 0);
        },
        None => {},
    }
}

/// An event for an order that is settled changes nothing and is answered as
/// a replay.
pub proof fn lemma_settled_order_is_replayed(
    ledger: LedgerView,
    event: NormalizedLavaWebhookView,
    now: int,
)
    requires
        outcome_of(event) == EventOutcome::Success || outcome_of(event) == EventOutcome::Failure,
        event.order_id matches Some(order) && first_from(
            ledger.transactions,
            transaction_has_order(provider_name(), order),
            0,
        ) matches Some(at) && ledger.transactions[at].status.is_terminal(),
    ensures
        reconciled(ledger, event, now) == (ledger, Outcome::Idempotent),
{
    let order = event.order_id->0;
    lemma_first_from(ledger.transactions, transaction_has_order(provider_name(), order), 0);
}

/// Delivering an event again has no effect. Let an event with an order be
/// reconciled and settle a transaction, and let that transaction be the
/// event's own order, not a pending one that was found under the event's
/// parent order. Then reconciling the same event again, at any later time and
/// any number of times, leaves the ledger as the first delivery left it and
/// is answered as a replay.
pub proof fn lemma_redelivery_is_idempotent(
    ledger: LedgerView,
    event: NormalizedLavaWebhookView,
    first: int,
    again: int,
)
    requires
        event.order_id is Some,
        has_settled(reconciled(ledger, event, first).1),
        target_of(ledger, event, outcome_of(event)) matches TargetView::Existing(at)
            ==> ledger.transactions[at].provider_order_id == event.order_id->0,
    ensures
        reconciled(reconciled(ledger, event, first).0, event, again) == (
            reconciled(ledger, event, first).0,
            Outcome::Idempotent,
        ),
{
    let order = event.order_id->0;
    let outcome = outcome_of(event);
    let after = reconciled(ledger, event, first).0;
    let pred = transaction_has_order(provider_name(), order);
    lemma_match_in_range(ledger, event);
    lemma_first_from(ledger.transactions, pred, 0);
    match target_of(ledger, event, outcome) {
        TargetView::Skip(_) => {},
        TargetView::Existing(at) => {
            let found = ledger.transactions[at];
            let s = settlement_of(ledger, event, outcome, found.user_id, found.product_id, first)->Ok_0;
            lemma_settled_shape(ledger, at, s, found.user_id, event, first);
            assert(first_from(ledger.transactions, pred, 0) == Some(at));
            assert forall|j: int| 0 <= j < at implies !pred(#[trigger] after.transactions[j]) by {
                assert(after.transactions[j] == ledger.transactions[j]);
            }
            lemma_first_from_is(after.transactions, pred, 0, at);
        },
        TargetView::Fresh(row) => {
            let at = ledger.transactions.len() as int;
            let added = with_transaction_added(ledger, row, event, first);
            let s = settlement_of(ledger, event, outcome, row.user_id, row.product_id, first)->Ok_0;
            lemma_settled_shape(added, at, s, row.user_id, event, first);
            assert(first_from(ledger.transactions, pred, 0) is None);
            assert forall|j: int| 0 <= j < at implies !pred(#[trigger] after.transactions[j]) by {
                assert(after.transactions[j] == added.transactions[j]);
                assert(added.transactions[j] == ledger.transactions[j]);
            }
            lemma_first_from_is(after.transactions, pred, 0, at);
        },
    }
    lemma_settled_order_is_replayed(after, event, again);
}

/// The ledger after an event was delivered once at each of `times`, in
/// order.
pub open spec fn delivered(
    ledger: LedgerView,
    event: NormalizedLavaWebhookView,
    times: Seq<int>,
) -> LedgerView
    decreases times.len(),
{
    if times.len() == 0 {
        ledger
    } else {
        reconciled(delivered(ledger, event, times.drop_last()), event, times.last()).0
    }
}

/// However often an event is delivered, it takes effect once. Under the
/// conditions of `lemma_redelivery_is_idempotent`, the ledger after any
/// number of deliveries is the ledger after the first.
pub proof fn lemma_effects_apply_once(
    ledger: LedgerView,
    event: NormalizedLavaWebhookView,
    times: Seq<int>,
)
    requires
        times.len() >= 1,
        event.order_id is Some,
        has_settled(reconciled(ledger, event, times[0]).1),
        target_of(ledger, event, outcome_of(event)) matches TargetView::Existing(at)
            ==> ledger.transactions[at].provider_order_id == event.order_id->0,
    ensures
        delivered(ledger, event, times) == reconciled(ledger, event, times[0]).0,
    decreases times.len(),
{
    if times.len() == 1 {
        assert(times.drop_last().len() == 0);
        assert(delivered(ledger, event, times.drop_last()) == ledger);
        assert(times.last() == times[0]);
    } else {
        assert(times.drop_last()[0] == times[0]);
        lemma_effects_apply_once(ledger, event, times.drop_last());
        lemma_redelivery_is_idempotent(ledger, event, times[0], times.last());
    }
}

/// A payment under a settled contract gets a transaction of its own. Let an
/// event report a payment, paid or failed, for an order that the ledger does
/// not hold, and let the transaction found under its parent order be settled. Then no transaction
/// that was there is changed; and if the event settles anything, it settles
/// exactly one new transaction, stored behind the others, for the event's
/// order under the event's parent order, with the user and the product of the
/// settled one.
pub proof fn lemma_renewal_gets_its_own_transaction(
    ledger: LedgerView,
    event: NormalizedLavaWebhookView,
    now: int,
)
    requires
        outcome_of(event) == EventOutcome::Success || outcome_of(event) == EventOutcome::Failure,
        event.order_id matches Some(order) && first_from(
            ledger.transactions,
            transaction_has_order(provider_name(), order),
            0,
        ) is None,
        event.parent_order_id matches Some(parent) && first_from(
            ledger.transactions,
            transaction_under_contract(provider_name(), parent),
            0,
        ) matches Some(at) && ledger.transactions[at].status.is_terminal(),
    ensures
        ({
            let (after, outcome) = reconciled(ledger, event, now);
            let old_len = ledger.transactions.len() as int;
            let parent_at = matched_transaction(ledger, event)->0;
            &&& forall|i: int|
                0 <= i < old_len ==> #[trigger] after.transactions[i] == ledger.transactions[i]
            &&& !has_settled(outcome) ==> after == ledger
            &&& has_settled(outcome) ==> {
                &&& after.transactions.len() == old_len + 1
                &&& after.transactions[old_len].provider == provider_name()
                &&& after.transactions[old_len].provider_order_id == event.order_id->0
                &&& after.transactions[old_len].provider_parent_order_id == event.parent_order_id
                &&& after.transactions[old_len].user_id == ledger.transactions[parent_at].user_id
                &&& after.transactions[old_len].product_id
                    == ledger.transactions[parent_at].product_id
                &&& after.transactions[old_len].id == ledger.next_transaction_id
                &&& after.transactions[old_len].status.is_terminal()
            }
        }),
{
    let outcome = outcome_of(event);
    lemma_match_in_range(ledger, event);
    if outcome == EventOutcome::Success || outcome == EventOutcome::Failure {
        match target_of(ledger, event, outcome) {
            TargetView::Fresh(row) => {
                if ledger.next_transaction_id < i32::MAX {
                    match settlement_of(ledger, event, outcome, row.user_id, row.product_id, now) {
                        Ok(s) => {
                            let added = with_transaction_added(ledger, row, event, now);
                            lemma_settled_shape(
                                added,
                                ledger.transactions.len() as int,
                                s,
                                row.user_id,
                                event,
                                now,
                            );
                        },
                        Err(_) => {},
                    }
                }
            },
            _ => {},
        }
    }
}

} // verus!
