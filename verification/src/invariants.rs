//! The invariant of the ledger is kept by every operation on it.

use vstd::prelude::*;
use crate::api::payments::{record_refused, with_purchase_recorded};
use crate::api::webhooks_lava::{outcome_of, EventOutcome, NormalizedLavaWebhookView};
use crate::billing::{
    after_consume, refresh_result, with_credits_granted, with_monthly_quota, QUOTA_PERIOD,
};
use crate::db::{after_user_cancel, effective_subscription, monthly_credits_of, with_subscription_active, with_subscription_canceled};
use crate::guarantees::{lemma_fresh_order_is_new, lemma_match_in_range};
use crate::ledger::{
    first_from, lemma_first_from, product_has_id, subscription_has_contract,
    subscription_of_user, transaction_has_order, user_has_id, LedgerView,
};
use crate::models::{ProductView, TransactionStatus};
use crate::reconcile::{event_contract, provider_name, reconciled, settled, settlement_of, target_of, with_transaction_added, with_transaction_linked, with_transaction_marked, PendingRowView, SettlementView, TargetView};

verus! {

/// Granting credits that are not negative keeps every balance from being
/// negative, and touches nothing but balances.
pub proof fn lemma_grant_keeps_invariant(ledger: LedgerView, user_id: int, credits: int)
    requires
        ledger.well_formed(),
        credits >= 0,
    ensures
        with_credits_granted(ledger, user_id, credits).well_formed(),
{
    lemma_first_from(ledger.users, user_has_id(user_id), 0);
}

/// Setting the monthly quota to an amount that is not negative keeps the
/// invariant.
pub proof fn lemma_quota_keeps_invariant(
    ledger: LedgerView,
    user_id: int,
    amount: int,
    reset_at: int,
)
    requires
        ledger.well_formed(),
        amount >= 0,
    ensures
        with_monthly_quota(ledger, user_id, amount, reset_at).well_formed(),
{
    lemma_first_from(ledger.users, user_has_id(user_id), 0);
}

/// A use keeps the invariant.
pub proof fn lemma_consume_keeps_invariant(ledger: LedgerView, user_id: int, credit_type: Seq<char>)
    requires
        ledger.well_formed(),
    ensures
        after_consume(ledger, user_id, credit_type).well_formed(),
{
    lemma_first_from(ledger.users, user_has_id(user_id), 0);
}

/// In a well-formed ledger no product grants a negative monthly quota.
pub proof fn lemma_monthly_credits_not_negative(ledger: LedgerView, product_id: int)
    requires
        ledger.products_well_formed(),
    ensures
        monthly_credits_of(ledger, product_id) >= 0,
{
    lemma_first_from(ledger.products, product_has_id(product_id), 0);
}

/// The quota scheduler keeps the invariant.
pub proof fn lemma_refresh_keeps_invariant(ledger: LedgerView, user_id: int, now: int)
    requires
        ledger.well_formed(),
    ensures
        refresh_result(ledger, user_id, now) matches Ok(after) ==> after.well_formed(),
{
    match effective_subscription(ledger, user_id, now) {
        Some(s) => {
            lemma_monthly_credits_not_negative(ledger, ledger.subscriptions[s].product_id);
            lemma_quota_keeps_invariant(
                ledger,
                user_id,
                monthly_credits_of(ledger, ledger.subscriptions[s].product_id),
                now + QUOTA_PERIOD,
            );
        },
        None => {},
    }
}

/// Canceling a subscription that is in the ledger keeps the invariant.
pub proof fn lemma_cancel_keeps_invariant(ledger: LedgerView, at: int, now: int)
    requires
        ledger.well_formed(),
        0 <= at < ledger.subscriptions.len(),
    ensures
        with_subscription_canceled(ledger, at, now).well_formed(),
{
    let after = with_subscription_canceled(ledger, at, now);
    assert forall|i: int| 0 <= i < after.subscriptions.len() implies (
    #[trigger] after.subscriptions[i]).id < after.next_subscription_id by {
        assert(ledger.subscriptions[i].id < ledger.next_subscription_id);
    }
    assert forall|i: int, j: int|
        0 <= i < j < after.subscriptions.len() && (
        #[trigger] after.subscriptions[i]).provider_subscription_id is Some implies !(
    after.subscriptions[i].provider == (#[trigger] after.subscriptions[j]).provider
        && after.subscriptions[i].provider_subscription_id
        == after.subscriptions[j].provider_subscription_id) by {
        assert(ledger.subscriptions[i].provider == after.subscriptions[i].provider);
        assert(ledger.subscriptions[j].provider == after.subscriptions[j].provider);
        assert(ledger.subscriptions[i].provider_subscription_id
            == after.subscriptions[i].provider_subscription_id);
        assert(ledger.subscriptions[j].provider_subscription_id
            == after.subscriptions[j].provider_subscription_id);
    }
}

/// A cancellation by the user keeps the invariant.
pub proof fn lemma_user_cancel_keeps_invariant(
    ledger: LedgerView,
    user_id: int,
    subscription_id: int,
    now: int,
)
    requires
        ledger.well_formed(),
    ensures
        after_user_cancel(ledger, user_id, subscription_id, now).well_formed(),
{
    lemma_first_from(ledger.subscriptions, subscription_of_user(subscription_id, user_id), 0);
    match first_from(ledger.subscriptions, subscription_of_user(subscription_id, user_id), 0) {
        Some(at) => lemma_cancel_keeps_invariant(ledger, at, now),
        None => {},
    }
}

/// An activation that the store can hold keeps the invariant.
pub proof fn lemma_activation_keeps_invariant(
    ledger: LedgerView,
    user_id: int,
    product_id: int,
    provider: Seq<char>,
    contract: Option<Seq<char>>,
    period_start: int,
    period_end: int,
    now: int,
)
    requires
        ledger.well_formed(),
    ensures
        with_subscription_active(
            ledger,
            user_id,
            product_id,
            provider,
            contract,
            period_start,
            period_end,
            now,
        ).well_formed(),
{
    let after = with_subscription_active(
        ledger,
        user_id,
        product_id,
        provider,
        contract,
        period_start,
        period_end,
        now,
    );
    match contract {
        Some(c) => {
            lemma_first_from(ledger.subscriptions, subscription_has_contract(provider, c), 0);
        },
        None => {},
    }
    let old_len = ledger.subscriptions.len() as int;
    assert forall|i: int| 0 <= i < after.subscriptions.len() implies (
    #[trigger] after.subscriptions[i]).id < after.next_subscription_id by {
        if i < old_len {
            assert(ledger.subscriptions[i].id < ledger.next_subscription_id);
        }
    }
    assert forall|i: int, j: int|
        0 <= i < j < after.subscriptions.len() && (
        #[trigger] after.subscriptions[i]).provider_subscription_id is Some implies !(
    after.subscriptions[i].provider == (#[trigger] after.subscriptions[j]).provider
        && after.subscriptions[i].provider_subscription_id
        == after.subscriptions[j].provider_subscription_id) by {
        assert(ledger.subscriptions[i].provider == after.subscriptions[i].provider);
        assert(ledger.subscriptions[i].provider_subscription_id
            == after.subscriptions[i].provider_subscription_id);
        if j < old_len {
            assert(ledger.subscriptions[j].provider == after.subscriptions[j].provider);
            assert(ledger.subscriptions[j].provider_subscription_id
                == after.subscriptions[j].provider_subscription_id);
        } else {
            if contract is Some {
                assert(!subscription_has_contract(provider, contract->0)(ledger.subscriptions[i]));
            }
        }
    }
}

/// Changing a transaction without touching its provider, its order and its
/// identifier keeps the invariant.
pub proof fn lemma_same_keys_keep_invariant(ledger: LedgerView, after: LedgerView)
    requires
        ledger.well_formed(),
        after.users == ledger.users,
        after.products == ledger.products,
        after.subscriptions == ledger.subscriptions,
        after.next_subscription_id == ledger.next_subscription_id,
        after.next_transaction_id == ledger.next_transaction_id,
        after.transactions.len() == ledger.transactions.len(),
        forall|i: int|
            0 <= i < ledger.transactions.len() ==> (#[trigger] after.transactions[i]).id
                == ledger.transactions[i].id && after.transactions[i].provider
                == ledger.transactions[i].provider && after.transactions[i].provider_order_id
                == ledger.transactions[i].provider_order_id,
    ensures
        after.well_formed(),
{
    assert forall|i: int| 0 <= i < after.transactions.len() implies (
    #[trigger] after.transactions[i]).id < after.next_transaction_id by {
        assert(ledger.transactions[i].id < ledger.next_transaction_id);
    }
    assert forall|i: int, j: int| 0 <= i < j < after.transactions.len() implies !(
    #[trigger] after.transactions[i].provider == #[trigger] after.transactions[j].provider
        && after.transactions[i].provider_order_id == after.transactions[j].provider_order_id) by {
        assert(ledger.transactions[i].provider == after.transactions[i].provider);
        assert(ledger.transactions[j].provider == after.transactions[j].provider);
    }
}

/// Settling a transaction that is in the ledger keeps the invariant, if the
/// credits that are granted come from a product of the ledger.
pub proof fn lemma_settled_keeps_invariant(
    ledger: LedgerView,
    at: int,
    settlement: SettlementView,
    user_id: int,
    event: NormalizedLavaWebhookView,
    now: int,
)
    requires
        ledger.well_formed(),
        0 <= at < ledger.transactions.len(),
        settlement matches SettlementView::Grant(credits) ==> credits >= 0,
        settlement matches SettlementView::Activate { monthly_credits: Some(credits), .. }
            ==> credits >= 0,
    ensures
        settled(ledger, at, settlement, user_id, event, now).well_formed(),
{
    let status = if settlement is Fail {
        TransactionStatus::Failed
    } else {
        TransactionStatus::Succeeded
    };
    let paid_at = if settlement is Fail {
        None
    } else {
        Some(now)
    };
    let marked = with_transaction_marked(ledger, at, status, paid_at, event);
    lemma_same_keys_keep_invariant(ledger, marked);
    match settlement {
        SettlementView::Grant(credits) => {
            lemma_grant_keeps_invariant(marked, user_id, credits);
        },
        SettlementView::Activate { product_id, monthly_credits } => {
            let contract = event_contract(event);
            let active = with_subscription_active(
                marked,
                user_id,
                product_id,
                provider_name(),
                contract,
                now,
                now + QUOTA_PERIOD,
                now,
            );
            lemma_activation_keeps_invariant(
                marked,
                user_id,
                product_id,
                provider_name(),
                contract,
                now,
                now + QUOTA_PERIOD,
                now,
            );
            let linked = with_transaction_linked(
                active,
                at,
                crate::db::upsert_id(marked, provider_name(), contract),
            );
            lemma_same_keys_keep_invariant(active, linked);
            match monthly_credits {
                Some(credits) => {
                    lemma_quota_keeps_invariant(linked, user_id, credits, now + QUOTA_PERIOD);
                },
                None => {},
            }
        },
        _ => {},
    }
}

/// What a settlement grants comes from a product of the ledger and is not
/// negative.
pub proof fn lemma_settlement_grants_not_negative(
    ledger: LedgerView,
    event: NormalizedLavaWebhookView,
    outcome: EventOutcome,
    user_id: int,
    product_id: Option<int>,
    now: int,
)
    requires
        ledger.products_well_formed(),
    ensures
        settlement_of(ledger, event, outcome, user_id, product_id, now) matches Ok(
            SettlementView::Grant(credits),
        ) ==> credits >= 0,
        settlement_of(ledger, event, outcome, user_id, product_id, now) matches Ok(
            SettlementView::Activate { monthly_credits: Some(credits), .. },
        ) ==> credits >= 0,
{
    match product_id {
        Some(id) => {
            lemma_first_from(ledger.products, product_has_id(id), 0);
        },
        None => {},
    }
}

/// Storing a pending transaction for an order that the ledger does not hold
/// keeps the invariant.
pub proof fn lemma_added_keeps_invariant(
    ledger: LedgerView,
    row: PendingRowView,
    event: NormalizedLavaWebhookView,
    now: int,
)
    requires
        ledger.well_formed(),
        first_from(ledger.transactions, transaction_has_order(provider_name(), row.order_id), 0)
            is None,
    ensures
        with_transaction_added(ledger, row, event, now).well_formed(),
{
    let after = with_transaction_added(ledger, row, event, now);
    let old_len = ledger.transactions.len() as int;
    lemma_first_from(ledger.transactions, transaction_has_order(provider_name(), row.order_id), 0);
    assert forall|i: int| 0 <= i < after.transactions.len() implies (
    #[trigger] after.transactions[i]).id < after.next_transaction_id by {
        if i < old_len {
            assert(ledger.transactions[i].id < ledger.next_transaction_id);
        }
    }
    assert forall|i: int, j: int| 0 <= i < j < after.transactions.len() implies !(
    #[trigger] after.transactions[i].provider == #[trigger] after.transactions[j].provider
        && after.transactions[i].provider_order_id == after.transactions[j].provider_order_id) by {
        assert(ledger.transactions[i].provider == after.transactions[i].provider);
        if j < old_len {
            assert(ledger.transactions[j].provider == after.transactions[j].provider);
        } else {
            assert(!transaction_has_order(provider_name(), row.order_id)(ledger.transactions[i]));
        }
    }
}

/// Reconciling an event keeps the invariant of the ledger: no order and no
/// contract is held twice, identifiers stay below the next one, and no
/// balance is negative.
pub proof fn lemma_reconcile_keeps_invariant(
    ledger: LedgerView,
    event: NormalizedLavaWebhookView,
    now: int,
)
    requires
        ledger.well_formed(),
    ensures
        reconciled(ledger, event, now).0.well_formed(),
{
    let outcome = outcome_of(event);
    match outcome {
        EventOutcome::Cancellation => {
            match event_contract(event) {
                Some(contract) => {
                    lemma_first_from(
                        ledger.subscriptions,
                        subscription_has_contract(provider_name(), contract),
                        0,
                    );
                    match first_from(
                        ledger.subscriptions,
                        subscription_has_contract(provider_name(), contract),
                        0,
                    ) {
                        Some(at) => lemma_cancel_keeps_invariant(ledger, at, now),
                        None => {},
                    }
                },
                None => {},
            }
        },
        EventOutcome::Indeterminate => {},
        _ => {
            lemma_match_in_range(ledger, event);
            lemma_fresh_order_is_new(ledger, event, outcome);
            match target_of(ledger, event, outcome) {
                TargetView::Skip(_) => {},
                TargetView::Existing(at) => {
                    let found = ledger.transactions[at];
                    lemma_settlement_grants_not_negative(
                        ledger,
                        event,
                        outcome,
                        found.user_id,
                        found.product_id,
                        now,
                    );
                    match settlement_of(
                        ledger,
                        event,
                        outcome,
                        found.user_id,
                        found.product_id,
                        now,
                    ) {
                        Ok(s) => lemma_settled_keeps_invariant(
                            ledger,
                            at,
                            s,
                            found.user_id,
                            event,
                            now,
                        ),
                        Err(_) => {},
                    }
                },
                TargetView::Fresh(row) => {
                    if ledger.next_transaction_id < i32::MAX {
                        lemma_settlement_grants_not_negative(
                            ledger,
                            event,
                            outcome,
                            row.user_id,
                            row.product_id,
                            now,
                        );
                        match settlement_of(
                            ledger,
                            event,
                            outcome,
                            row.user_id,
                            row.product_id,
                            now,
                        ) {
                            Ok(s) => {
                                let added = with_transaction_added(ledger, row, event, now);
                                lemma_added_keeps_invariant(ledger, row, event, now);
                                assert(settlement_of(
                                    ledger,
                                    event,
                                    outcome,
                                    row.user_id,
                                    row.product_id,
                                    now,
                                ) == Ok::<SettlementView, crate::reconcile::Outcome>(s));
                                lemma_settled_keeps_invariant(
                                    added,
                                    ledger.transactions.len() as int,
                                    s,
                                    row.user_id,
                                    event,
                                    now,
                                );
                            },
                            Err(_) => {},
                        }
                    }
                },
            }
        },
    }
}

/// Recording a purchase that the store accepts keeps the invariant.
pub proof fn lemma_record_keeps_invariant(
    ledger: LedgerView,
    user_id: int,
    buyer_email: Seq<char>,
    product: ProductView,
    offer: Seq<char>,
    contract: Seq<char>,
    contract_status: Seq<char>,
    now: int,
)
    requires
        ledger.well_formed(),
        record_refused(ledger, contract) is None,
    ensures
        with_purchase_recorded(
            ledger,
            user_id,
            buyer_email,
            product,
            offer,
            contract,
            contract_status,
            now,
        ).well_formed(),
{
    let after = with_purchase_recorded(
        ledger,
        user_id,
        buyer_email,
        product,
        offer,
        contract,
        contract_status,
        now,
    );
    let old_len = ledger.transactions.len() as int;
    lemma_first_from(ledger.transactions, transaction_has_order(provider_name(), contract), 0);
    assert forall|i: int| 0 <= i < after.transactions.len() implies (
    #[trigger] after.transactions[i]).id < after.next_transaction_id by {
        if i < old_len {
            assert(ledger.transactions[i].id < ledger.next_transaction_id);
        }
    }
    assert forall|i: int, j: int| 0 <= i < j < after.transactions.len() implies !(
    #[trigger] after.transactions[i].provider == #[trigger] after.transactions[j].provider
        && after.transactions[i].provider_order_id == after.transactions[j].provider_order_id) by {
        assert(ledger.transactions[i].provider == after.transactions[i].provider);
        if j < old_len {
            assert(ledger.transactions[j].provider == after.transactions[j].provider);
        } else {
            assert(!transaction_has_order(provider_name(), contract)(ledger.transactions[i]));
        }
    }
}

} // verus!
