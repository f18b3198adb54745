//! The transaction ledger: reconciling a payment event with the store so that
//! its effects apply exactly once. An event is matched to a transaction, or a
//! transaction is opened for it; the transaction is settled; credits are
//! granted or the subscription is activated, all in one step or not at all.

use vstd::prelude::*;
use crate::api::webhooks_lava::{
    classify_kind, classify_outcome, kind_fits, kind_matches_product, kind_of, opt_as_str,
    or_text, outcome_of, EventOutcome, NormalizedLavaWebhook, NormalizedLavaWebhookView,
};
use crate::billing::{
    grant_fails, grant_one_time_credits, set_subscription_monthly_quota, with_credits_granted,
    with_monthly_quota, QUOTA_PERIOD,
};
use crate::db::{
    cancel_subscription_at, upsert_fails, upsert_id, upsert_subscription_active,
    with_subscription_active, with_subscription_canceled,
};
use crate::ledger::{
    first_from, product_has_id, product_has_offer, product_has_slug, subscription_has_contract,
    transaction_has_order, transaction_under_contract, user_has_email, user_has_id, Ledger,
    LedgerView,
};
use crate::models::{clone_opt_text, opt_int, opt_text, opt_time, ProductType, Transaction, TransactionStatus, TransactionType, TransactionView};
use crate::text::{opt_str, parse_i32, parsed_i32};

verus! {

/// How the reconciliation of one event ended.
#[derive(Clone, Copy, Debug, PartialEq, Eq, Structural)]
pub enum Outcome {
    /// A cancellation was taken note of.
    Canceled,
    /// The event was acknowledged without any effect.
    Ignored,
    /// The event's transaction was settled before; nothing was applied again.
    Idempotent,
    /// The transaction was settled as paid and its effects were applied.
    Succeeded,
    /// The transaction was settled as failed.
    Failed,
    /// The transaction was settled as paid; its product is not in the catalog,
    /// so nothing was granted.
    MissingProduct,
    /// The store refused a step; nothing was changed.
    StorageError,
}

/// The name of the payment provider in the ledger.
pub open spec fn provider_name() -> Seq<char> {
    "lava"@
}

/// The name of the payment provider in the ledger.
pub fn provider() -> (name: &'static str)
    ensures
        name@ == provider_name(),
{
    "lava"
}

/// The contract that an event is about: its parent order, else its order.
pub open spec fn event_contract(event: NormalizedLavaWebhookView) -> Option<Seq<char>> {
    or_text(event.parent_order_id, event.order_id)
}

/// The ledger after a cancellation event: the subscription of the event's
/// contract is canceled as of `now`; its period stays. Without such a
/// subscription nothing changes.
pub open spec fn after_cancellation(
    ledger: LedgerView,
    event: NormalizedLavaWebhookView,
    now: int,
) -> LedgerView {
    match event_contract(event) {
        Some(contract) => match first_from(
            ledger.subscriptions,
            subscription_has_contract(provider_name(), contract),
            0,
        ) {
            Some(at) => with_subscription_canceled(ledger, at, now),
            None => ledger,
        },
        None => ledger,
    }
}

/// The transaction that an event is matched to: the one that is the event's
/// order; else the first that is the event's parent order or a payment under
/// it.
pub open spec fn matched_transaction(ledger: LedgerView, event: NormalizedLavaWebhookView) -> Option<
    int,
> {
    let by_order = match event.order_id {
        Some(order) => first_from(
            ledger.transactions,
            transaction_has_order(provider_name(), order),
            0,
        ),
        None => None,
    };
    match by_order {
        Some(at) => Some(at),
        None => match event.parent_order_id {
            Some(parent) => first_from(
                ledger.transactions,
                transaction_under_contract(provider_name(), parent),
                0,
            ),
            None => None,
        },
    }
}

/// The text of the member `key` of the event's custom fields.
pub open spec fn embedded_text(event: NormalizedLavaWebhookView, key: Seq<char>) -> Option<
    Seq<char>,
> {
    match event.custom_fields {
        Some(fields) => match fields.member(key) {
            Some(v) => v.scalar_text(),
            None => None,
        },
        None => None,
    }
}

/// The user identifier that the event's custom fields carry.
pub open spec fn embedded_user_id(event: NormalizedLavaWebhookView) -> Option<int> {
    match embedded_text(event, "user_id"@) {
        Some(text) => match parsed_i32(text) {
            Some(id) => Some(id as int),
            None => None,
        },
        None => None,
    }
}

/// The identifier of the user with an embedded identifier or an email: the
/// embedded one, if such a user exists; without one, the user with the
/// email.
pub open spec fn user_for(ledger: LedgerView, embedded: Option<int>, email: Option<Seq<char>>) -> Option<
    int,
> {
    match embedded {
        Some(id) => if first_from(ledger.users, user_has_id(id), 0) is Some {
            Some(id)
        } else {
            None
        },
        None => match email {
            Some(email) => match first_from(ledger.users, user_has_email(email), 0) {
                Some(at) => Some(ledger.users[at].id),
                None => None,
            },
            None => None,
        },
    }
}

/// The identifier of the user that an unmatched event is for: the one that
/// its custom fields carry, if such a user exists; without one, the user
/// with the buyer's email.
pub open spec fn resolved_user(ledger: LedgerView, event: NormalizedLavaWebhookView) -> Option<int> {
    user_for(ledger, embedded_user_id(event), event.buyer_email)
}

/// The position of the product that an unmatched event is for: the one
/// mapped to the event's offer; without an offer, the one with the slug that
/// the custom fields carry.
pub open spec fn resolved_product(ledger: LedgerView, event: NormalizedLavaWebhookView) -> Option<
    int,
> {
    match event.product_offer_id {
        Some(offer) => first_from(ledger.products, product_has_offer(offer), 0),
        None => match embedded_text(event, "product_slug"@) {
            Some(slug) => first_from(ledger.products, product_has_slug(slug), 0),
            None => None,
        },
    }
}

/// What a transaction that is opened for an event starts with.
pub struct PendingRow {
    pub user_id: i32,
    pub product_id: Option<i32>,
    pub order_id: String,
    pub amount: String,
    pub currency: String,
}

/// The start of a new transaction as mathematics.
pub struct PendingRowView {
    pub user_id: int,
    pub product_id: Option<int>,
    pub order_id: Seq<char>,
    pub amount: Seq<char>,
    pub currency: Seq<char>,
}

impl View for PendingRow {
    type V = PendingRowView;

    open spec fn view(&self) -> PendingRowView {
        PendingRowView {
            user_id: self.user_id as int,
            product_id: opt_int(self.product_id),
            order_id: self.order_id@,
            amount: self.amount@,
            currency: self.currency@,
        }
    }
}

/// The transaction that an event settles.
pub enum Target {
    /// None: the event ends here with this outcome.
    Skip(Outcome),
    /// The transaction at this position.
    Existing(usize),
    /// A new transaction.
    Fresh(PendingRow),
}

/// The transaction that an event settles, as mathematics.
pub enum TargetView {
    Skip(Outcome),
    Existing(int),
    Fresh(PendingRowView),
}

impl View for Target {
    type V = TargetView;

    open spec fn view(&self) -> TargetView {
        match self {
            Target::Skip(outcome) => TargetView::Skip(*outcome),
            Target::Existing(at) => TargetView::Existing(*at as int),
            Target::Fresh(row) => TargetView::Fresh(row@),
        }
    }
}

/// The text, or the fallback where there is none.
pub open spec fn text_or(text: Option<Seq<char>>, fallback: Seq<char>) -> Seq<char> {
    match text {
        Some(t) => t,
        None => fallback,
    }
}

/// The transaction that an event of this outcome settles.
///
/// A matched transaction that is not settled yet is the target. A matched
/// transaction that is settled ends the event as a replay, unless the event
/// names another order: then the event is a new payment under a settled
/// contract and gets a transaction of its own, for the same user and product,
/// and the settled one is left alone. An unmatched event gets a transaction
/// only if it reports success, names its order, and its user and product can
/// be resolved; otherwise it is ignored.
pub open spec fn target_of(
    ledger: LedgerView,
    event: NormalizedLavaWebhookView,
    outcome: EventOutcome,
) -> TargetView {
    match matched_transaction(ledger, event) {
        Some(at) => {
            let found = ledger.transactions[at];
            if !found.status.is_terminal() {
                TargetView::Existing(at)
            } else {
                match event.order_id {
                    Some(order) => if found.provider_order_id != order {
                        TargetView::Fresh(
                            PendingRowView {
                                user_id: found.user_id,
                                product_id: found.product_id,
                                order_id: order,
                                amount: text_or(event.amount, found.amount),
                                currency: text_or(event.currency, found.currency),
                            },
                        )
                    } else {
                        TargetView::Skip(Outcome::Idempotent)
                    },
                    None => TargetView::Skip(Outcome::Idempotent),
                }
            }
        },
        None => if outcome != EventOutcome::Success {
            TargetView::Skip(Outcome::Ignored)
        } else {
            match (event.order_id, resolved_user(ledger, event), resolved_product(ledger, event)) {
                (Some(order), Some(user_id), Some(p)) => TargetView::Fresh(
                    PendingRowView {
                        user_id: user_id,
                        product_id: Some(ledger.products[p].id),
                        order_id: order,
                        amount: text_or(event.amount, ledger.products[p].price),
                        currency: text_or(event.currency, ledger.products[p].currency),
                    },
                ),
                _ => TargetView::Skip(Outcome::Ignored),
            }
        },
    }
}

/// How a transaction is settled.
#[derive(Clone, Copy, Debug, PartialEq, Eq)]
pub enum Settlement {
    /// As failed.
    Fail,
    /// As paid, with no effect on balances or subscriptions.
    Settle,
    /// As paid; the product is not in the catalog.
    SettleMissing,
    /// As paid; the user's one-time balance grows by these credits.
    Grant(i32),
    /// As paid; the subscription is activated and the monthly quota set.
    Activate { product_id: i32, monthly_credits: Option<i32> },
}

/// How a transaction is settled, as mathematics.
pub enum SettlementView {
    Fail,
    Settle,
    SettleMissing,
    Grant(int),
    Activate { product_id: int, monthly_credits: Option<int> },
}

impl View for Settlement {
    type V = SettlementView;

    open spec fn view(&self) -> SettlementView {
        match self {
            Settlement::Fail => SettlementView::Fail,
            Settlement::Settle => SettlementView::Settle,
            Settlement::SettleMissing => SettlementView::SettleMissing,
            Settlement::Grant(credits) => SettlementView::Grant(*credits as int),
            Settlement::Activate { product_id, monthly_credits } => SettlementView::Activate {
                product_id: *product_id as int,
                monthly_credits: opt_int(*monthly_credits),
            },
        }
    }
}

/// How the transaction of this user and product is settled by an event of
/// this outcome, or the outcome with which the event ends instead.
///
/// A failure settles the transaction as failed. A success for a transaction
/// without a product, or whose product is not in the catalog, settles it with
/// no further effect. A payment kind that cannot be for the product's type
/// ends the event as ignored. A one-time product grants its credits, a
/// subscription product activates the subscription; where the store cannot
/// hold the result, the event ends with a storage error.
pub open spec fn settlement_of(
    ledger: LedgerView,
    event: NormalizedLavaWebhookView,
    outcome: EventOutcome,
    user_id: int,
    product_id: Option<int>,
    now: int,
) -> Result<SettlementView, Outcome> {
    if outcome == EventOutcome::Failure {
        Ok(SettlementView::Fail)
    } else {
        match product_id {
            None => Ok(SettlementView::Settle),
            Some(id) => match first_from(ledger.products, product_has_id(id), 0) {
                None => Ok(SettlementView::SettleMissing),
                Some(p) => {
                    let product = ledger.products[p];
                    if !kind_fits(kind_of(event.event_type), product.product_type) {
                        Err(Outcome::Ignored)
                    } else {
                        match product.product_type {
                            ProductType::OneTime => match product.credits_granted {
                                Some(credits) => if grant_fails(ledger, user_id, credits) {
                                    Err(Outcome::StorageError)
                                } else {
                                    Ok(SettlementView::Grant(credits))
                                },
                                None => Ok(SettlementView::Settle),
                            },
                            ProductType::Subscription => if now + QUOTA_PERIOD > i64::MAX
                                || upsert_fails(ledger, provider_name(), event_contract(event)) {
                                Err(Outcome::StorageError)
                            } else {
                                Ok(
                                    SettlementView::Activate {
                                        product_id: id,
                                        monthly_credits: product.monthly_credits,
                                    },
                                )
                            },
                        }
                    }
                },
            },
        }
    }
}

/// The outcome of an event that settled a transaction.
pub open spec fn outcome_after(settlement: SettlementView) -> Outcome {
    match settlement {
        SettlementView::Fail => Outcome::Failed,
        SettlementView::SettleMissing => Outcome::MissingProduct,
        _ => Outcome::Succeeded,
    }
}

/// The ledger after a pending transaction for the event was stored behind
/// the others.
pub open spec fn with_transaction_added(
    ledger: LedgerView,
    row: PendingRowView,
    event: NormalizedLavaWebhookView,
    now: int,
) -> LedgerView {
    LedgerView {
        transactions: ledger.transactions.push(
            TransactionView {
                id: ledger.next_transaction_id,
                user_id: row.user_id,
                product_id: row.product_id,
                subscription_id: None,
                provider: provider_name(),
                provider_order_id: row.order_id,
                provider_parent_order_id: event.parent_order_id,
                amount: row.amount,
                currency: row.currency,
                status: TransactionStatus::Pending,
                tx_type: TransactionType::Payment,
                payload: Seq::empty(),
                paid_at: None,
                created_at: Some(now),
            },
        ),
        next_transaction_id: ledger.next_transaction_id + 1,
        ..ledger
    }
}

/// The ledger after the transaction at `at` got the status `status` by the
/// event: the time of payment is set where one is given, the parent order is
/// taken from the event where the transaction had none, and the event is
/// added to the transaction's record of events.
pub open spec fn with_transaction_marked(
    ledger: LedgerView,
    at: int,
    status: TransactionStatus,
    paid_at: Option<int>,
    event: NormalizedLavaWebhookView,
) -> LedgerView {
    let before = ledger.transactions[at];
    LedgerView {
        transactions: ledger.transactions.update(
            at,
            TransactionView {
                status: status,
                paid_at: match paid_at {
                    Some(t) => Some(t),
                    None => before.paid_at,
                },
                provider_parent_order_id: or_text(
                    before.provider_parent_order_id,
                    event.parent_order_id,
                ),
                payload: before.payload.push(event.raw),
                ..before
            },
        ),
        ..ledger
    }
}

/// The ledger after the transaction at `at` was linked to a subscription.
pub open spec fn with_transaction_linked(ledger: LedgerView, at: int, subscription_id: int) -> LedgerView {
    LedgerView {
        transactions: ledger.transactions.update(
            at,
            TransactionView { subscription_id: Some(subscription_id), ..ledger.transactions[at] },
        ),
        ..ledger
    }
}

/// The ledger after the transaction at `at`, of the user `user_id`, was
/// settled.
pub open spec fn settled(
    ledger: LedgerView,
    at: int,
    settlement: SettlementView,
    user_id: int,
    event: NormalizedLavaWebhookView,
    now: int,
) -> LedgerView {
    match settlement {
        SettlementView::Fail => with_transaction_marked(
            ledger,
            at,
            TransactionStatus::Failed,
            None,
            event,
        ),
        SettlementView::Settle => with_transaction_marked(
            ledger,
            at,
            TransactionStatus::Succeeded,
            Some(now),
            event,
        ),
        SettlementView::SettleMissing => with_transaction_marked(
            ledger,
            at,
            TransactionStatus::Succeeded,
            Some(now),
            event,
        ),
        SettlementView::Grant(credits) => with_credits_granted(
            with_transaction_marked(ledger, at, TransactionStatus::Succeeded, Some(now), event),
            user_id,
            credits,
        ),
        SettlementView::Activate { product_id, monthly_credits } => {
            let marked = with_transaction_marked(
                ledger,
                at,
                TransactionStatus::Succeeded,
                Some(now),
                event,
            );
            let active = with_subscription_active(
                marked,
                user_id,
                product_id,
                provider_name(),
                event_contract(event),
                now,
                now + QUOTA_PERIOD,
                now,
            );
            let linked = with_transaction_linked(
                active,
                at,
                upsert_id(marked, provider_name(), event_contract(event)),
            );
            match monthly_credits {
                Some(credits) => with_monthly_quota(linked, user_id, credits, now + QUOTA_PERIOD),
                None => linked,
            }
        },
    }
}

/// The ledger and the outcome after an event was reconciled at the time
/// `now`.
///
/// A cancellation cancels the subscription of the event's contract. An event
/// that reports neither success nor failure changes nothing. Any other event
/// settles its target, if it has one; where a step cannot be taken, nothing is
/// changed at all.
pub open spec fn reconciled(ledger: LedgerView, event: NormalizedLavaWebhookView, now: int) -> (
    LedgerView,
    Outcome,
) {
    match outcome_of(event) {
        EventOutcome::Cancellation => (after_cancellation(ledger, event, now), Outcome::Canceled),
        EventOutcome::Indeterminate => (ledger, Outcome::Ignored),
        outcome => match target_of(ledger, event, outcome) {
            TargetView::Skip(end) => (ledger, end),
            TargetView::Existing(at) => {
                let found = ledger.transactions[at];
                match settlement_of(ledger, event, outcome, found.user_id, found.product_id, now) {
                    Ok(settlement) => (
                        settled(ledger, at, settlement, found.user_id, event, now),
                        outcome_after(settlement),
                    ),
                    Err(end) => (ledger, end),
                }
            },
            TargetView::Fresh(row) => if ledger.next_transaction_id >= i32::MAX {
                (ledger, Outcome::StorageError)
            } else {
                match settlement_of(ledger, event, outcome, row.user_id, row.product_id, now) {
                    Ok(settlement) => (
                        settled(
                            with_transaction_added(ledger, row, event, now),
                            ledger.transactions.len() as int,
                            settlement,
                            row.user_id,
                            event,
                            now,
                        ),
                        outcome_after(settlement),
                    ),
                    Err(end) => (ledger, end),
                }
            },
        },
    }
}

/// The contract that an event is about.
fn contract_of(event: &NormalizedLavaWebhook) -> (contract: Option<&str>)
    ensures
        opt_str(contract) == event_contract(event@),
{
    match &event.parent_order_id {
        Some(parent) => Some(parent.as_str()),
        None => opt_as_str(&event.order_id),
    }
}

/// The text of the member `key` of the event's custom fields.
fn embedded_field(event: &NormalizedLavaWebhook, key: &str) -> (text: Option<String>)
    ensures
        opt_text(text) == embedded_text(event@, key@),
{
    match &event.custom_fields {
        Some(fields) => match fields.get(key) {
            Some(v) => v.to_text(),
            None => None,
        },
        None => None,
    }
}

/// The transaction that an event is matched to.
pub fn find_match(ledger: &Ledger, event: &NormalizedLavaWebhook) -> (found: Option<usize>)
    ensures
        found matches Some(at) ==> at < ledger.transactions.len(),
        match found {
            Some(at) => matched_transaction(ledger@, event@) == Some(at as int),
            None => matched_transaction(ledger@, event@) is None,
        },
{
    let by_order = match &event.order_id {
        Some(order) => ledger.find_transaction(provider(), order.as_str()),
        None => None,
    };
    match by_order {
        Some(at) => Some(at),
        None => match &event.parent_order_id {
            Some(parent) => ledger.find_transaction_under_contract(provider(), parent.as_str()),
            None => None,
        },
    }
}

/// The user identifier that the event's custom fields carry.
pub fn embedded_user(event: &NormalizedLavaWebhook) -> (user_id: Option<i32>)
    ensures
        opt_int(user_id) == embedded_user_id(event@),
{
    match embedded_field(event, "user_id") {
        Some(text) => parse_i32(text.as_str()),
        None => None,
    }
}

/// The product slug that the event's custom fields carry.
pub fn embedded_product_slug(event: &NormalizedLavaWebhook) -> (slug: Option<String>)
    ensures
        opt_text(slug) == embedded_text(event@, "product_slug"@),
{
    embedded_field(event, "product_slug")
}

/// Finds the user with an embedded identifier or an email.
pub fn find_user_for(ledger: &Ledger, embedded: Option<i32>, email: Option<&str>) -> (user_id:
    Option<i32>)
    ensures
        opt_int(user_id) == user_for(ledger@, opt_int(embedded), opt_str(email)),
{
    match embedded {
        Some(id) => if ledger.find_user(id).is_some() {
            Some(id)
        } else {
            None
        },
        None => match email {
            Some(email) => match ledger.find_user_by_email(email) {
                Some(at) => Some(ledger.users[at].id),
                None => None,
            },
            None => None,
        },
    }
}

/// The identifier of the user that an unmatched event is for.
fn resolve_user(ledger: &Ledger, event: &NormalizedLavaWebhook) -> (user_id: Option<i32>)
    ensures
        opt_int(user_id) == resolved_user(ledger@, event@),
{
    find_user_for(ledger, embedded_user(event), opt_as_str(&event.buyer_email))
}

/// The position of the product that an unmatched event is for.
fn resolve_product(ledger: &Ledger, event: &NormalizedLavaWebhook) -> (found: Option<usize>)
    ensures
        found matches Some(p) ==> p < ledger.products.len(),
        match found {
            Some(p) => resolved_product(ledger@, event@) == Some(p as int),
            None => resolved_product(ledger@, event@) is None,
        },
{
    match &event.product_offer_id {
        Some(offer) => ledger.find_product_by_offer(offer.as_str()),
        None => match embedded_product_slug(event) {
            Some(slug) => ledger.find_product_by_slug(slug.as_str()),
            None => None,
        },
    }
}

/// The text, or a copy of the fallback where there is none.
fn clone_or(text: &Option<String>, fallback: &String) -> (out: String)
    ensures
        out@ == text_or(opt_text(*text), fallback@),
{
    match text {
        Some(t) => t.clone(),
        None => fallback.clone(),
    }
}

/// Finds the transaction that an event of this outcome settles.
pub fn locate(ledger: &Ledger, event: &NormalizedLavaWebhook, outcome: EventOutcome) -> (target:
    Target)
    ensures
        target@ == target_of(ledger@, event@, outcome),
        target matches Target::Existing(at) ==> at < ledger.transactions.len(),
{
    match find_match(ledger, event) {
        Some(at) => {
            let found = &ledger.transactions[at];
            if !found.status.terminal() {
                return Target::Existing(at);
            }
            match &event.order_id {
                Some(order) => if !crate::text::str_eq(
                    found.provider_order_id.as_str(),
                    order.as_str(),
                ) {
                    Target::Fresh(
                        PendingRow {
                            user_id: found.user_id,
                            product_id: found.product_id,
                            order_id: order.clone(),
                            amount: clone_or(&event.amount, &found.amount),
                            currency: clone_or(&event.currency, &found.currency),
                        },
                    )
                } else {
                    Target::Skip(Outcome::Idempotent)
                },
                None => Target::Skip(Outcome::Idempotent),
            }
        },
        None => {
            match outcome {
                EventOutcome::Success => {},
                _ => {
                    return Target::Skip(Outcome::Ignored);
                },
            }
            let order = match &event.order_id {
                Some(order) => order,
                None => {
                    return Target::Skip(Outcome::Ignored);
                },
            };
            let user_id = match resolve_user(ledger, event) {
                Some(id) => id,
                None => {
                    return Target::Skip(Outcome::Ignored);
                },
            };
            let p = match resolve_product(ledger, event) {
                Some(p) => p,
                None => {
                    return Target::Skip(Outcome::Ignored);
                },
            };
            Target::Fresh(
                PendingRow {
                    user_id,
                    product_id: Some(ledger.products[p].id),
                    order_id: order.clone(),
                    amount: clone_or(&event.amount, &ledger.products[p].price),
                    currency: clone_or(&event.currency, &ledger.products[p].currency),
                },
            )
        },
    }
}

/// Whether adding `credits` to the user's one-time balance leaves the range
/// of a balance.
fn grant_would_fail(ledger: &Ledger, user_id: i32, credits: i32) -> (fails: bool)
    ensures
        fails == grant_fails(ledger@, user_id as int, credits as int),
{
    match ledger.find_user(user_id) {
        Some(at) => ledger.users[at].credits.checked_add(credits).is_none(),
        None => false,
    }
}

/// Whether an activation for this contract fails.
fn upsert_would_fail(ledger: &Ledger, contract: Option<&str>) -> (fails: bool)
    ensures
        fails == upsert_fails(ledger@, provider_name(), opt_str(contract)),
{
    let target = match contract {
        Some(c) => ledger.find_subscription(provider(), c),
        None => None,
    };
    target.is_none() && ledger.next_subscription_id >= i32::MAX
}

/// Decides how the transaction of this user and product is settled by an
/// event of this outcome.
pub fn decide(
    ledger: &Ledger,
    event: &NormalizedLavaWebhook,
    outcome: EventOutcome,
    user_id: i32,
    product_id: Option<i32>,
    now: i64,
) -> (decision: Result<Settlement, Outcome>)
    ensures
        match decision {
            Ok(settlement) => settlement_of(
                ledger@,
                event@,
                outcome,
                user_id as int,
                opt_int(product_id),
                now as int,
            ) == Ok::<SettlementView, Outcome>(settlement@),
            Err(end) => settlement_of(
                ledger@,
                event@,
                outcome,
                user_id as int,
                opt_int(product_id),
                now as int,
            ) == Err::<SettlementView, Outcome>(end),
        },
{
    if let EventOutcome::Failure = outcome {
        return Ok(Settlement::Fail);
    }
    let id = match product_id {
        Some(id) => id,
        None => {
            return Ok(Settlement::Settle);
        },
    };
    let p = match ledger.find_product(id) {
        Some(p) => p,
        None => {
            return Ok(Settlement::SettleMissing);
        },
    };
    let product = &ledger.products[p];
    let kind = classify_kind(opt_as_str(&event.event_type));
    if !kind_matches_product(kind, product.product_type) {
        return Err(Outcome::Ignored);
    }
    match product.product_type {
        ProductType::OneTime => match product.credits_granted {
            Some(credits) => if grant_would_fail(ledger, user_id, credits) {
                Err(Outcome::StorageError)
            } else {
                Ok(Settlement::Grant(credits))
            },
            None => Ok(Settlement::Settle),
        },
        ProductType::Subscription => if now > i64::MAX - QUOTA_PERIOD || upsert_would_fail(
            ledger,
            contract_of(event),
        ) {
            Err(Outcome::StorageError)
        } else {
            Ok(Settlement::Activate { product_id: id, monthly_credits: product.monthly_credits })
        },
    }
}

/// Stores a pending transaction for the event behind the others.
fn add_pending_transaction(
    ledger: &mut Ledger,
    row: PendingRow,
    event: &NormalizedLavaWebhook,
    now: i64,
)
    requires
        old(ledger).next_transaction_id < i32::MAX,
    ensures
        final(ledger)@ == with_transaction_added(old(ledger)@, row@, event@, now as int),
{
    let id = ledger.next_transaction_id;
    let transaction = Transaction {
        id,
        user_id: row.user_id,
        product_id: row.product_id,
        subscription_id: None,
        provider: provider().to_string(),
        provider_order_id: row.order_id,
        provider_parent_order_id: clone_opt_text(&event.parent_order_id),
        amount: row.amount,
        currency: row.currency,
        status: TransactionStatus::Pending,
        tx_type: TransactionType::Payment,
        payload: Vec::new(),
        paid_at: None,
        created_at: Some(now),
    };
    assert(transaction@.payload =~= Seq::empty());
    ledger.transactions.push(transaction);
    ledger.next_transaction_id = id + 1;
    assert(ledger@.transactions =~= with_transaction_added(
        old(ledger)@,
        row@,
        event@,
        now as int,
    ).transactions);
}

/// Gives the transaction at `at` the status `status` by the event.
fn mark_transaction(
    ledger: &mut Ledger,
    at: usize,
    status: TransactionStatus,
    paid_at: Option<i64>,
    event: &NormalizedLavaWebhook,
)
    requires
        at < old(ledger)@.transactions.len(),
    ensures
        final(ledger)@ == with_transaction_marked(
            old(ledger)@,
            at as int,
            status,
            opt_time(paid_at),
            event@,
        ),
{
    let ghost before = ledger.transactions[at as int]@;
    ledger.transactions[at].status = status;
    if let Some(t) = paid_at {
        ledger.transactions[at].paid_at = Some(t);
    }
    if ledger.transactions[at].provider_parent_order_id.is_none() {
        ledger.transactions[at].provider_parent_order_id = clone_opt_text(&event.parent_order_id);
    }
    ledger.transactions[at].payload.push(event.raw.clone());
    assert(ledger.transactions[at as int]@.payload =~= before.payload.push(event@.raw));
    assert(ledger@.transactions =~= with_transaction_marked(
        old(ledger)@,
        at as int,
        status,
        opt_time(paid_at),
        event@,
    ).transactions);
}

/// Links the transaction at `at` to a subscription.
fn link_transaction(ledger: &mut Ledger, at: usize, subscription_id: i32)
    requires
        at < old(ledger)@.transactions.len(),
    ensures
        final(ledger)@ == with_transaction_linked(old(ledger)@, at as int, subscription_id as int),
{
    ledger.transactions[at].subscription_id = Some(subscription_id);
    assert(ledger@.transactions =~= with_transaction_linked(
        old(ledger)@,
        at as int,
        subscription_id as int,
    ).transactions);
}

/// Settles the transaction at `at`, of the user `user_id`.
fn apply(
    ledger: &mut Ledger,
    at: usize,
    settlement: Settlement,
    user_id: i32,
    event: &NormalizedLavaWebhook,
    now: i64,
)
    requires
        at < old(ledger)@.transactions.len(),
        settlement matches Settlement::Grant(credits) ==> !grant_fails(
            old(ledger)@,
            user_id as int,
            credits as int,
        ),
        settlement is Activate ==> now + QUOTA_PERIOD <= i64::MAX && !upsert_fails(
            old(ledger)@,
            provider_name(),
            event_contract(event@),
        ),
    ensures
        final(ledger)@ == settled(
            old(ledger)@,
            at as int,
            settlement@,
            user_id as int,
            event@,
            now as int,
        ),
{
    match settlement {
        Settlement::Fail => {
            mark_transaction(ledger, at, TransactionStatus::Failed, None, event);
        },
        Settlement::Settle => {
            mark_transaction(ledger, at, TransactionStatus::Succeeded, Some(now), event);
        },
        Settlement::SettleMissing => {
            mark_transaction(ledger, at, TransactionStatus::Succeeded, Some(now), event);
        },
        Settlement::Grant(credits) => {
            mark_transaction(ledger, at, TransactionStatus::Succeeded, Some(now), event);
            let granted = grant_one_time_credits(ledger, user_id, credits);
            assert(granted is Ok);
        },
        Settlement::Activate { product_id, monthly_credits } => {
            mark_transaction(ledger, at, TransactionStatus::Succeeded, Some(now), event);
            let activated = upsert_subscription_active(
                ledger,
                user_id,
                product_id,
                provider(),
                contract_of(event),
                now,
                now + QUOTA_PERIOD,
                now,
            );
            if let Ok(subscription_id) = activated {
                link_transaction(ledger, at, subscription_id);
                if let Some(credits) = monthly_credits {
                    let set = set_subscription_monthly_quota(ledger, user_id, credits, now);
                    assert(set is Ok);
                }
            }
        },
    }
}

/// Cancels the subscription of the event's contract.
fn cancel_by_event(ledger: &mut Ledger, event: &NormalizedLavaWebhook, now: i64)
    ensures
        final(ledger)@ == after_cancellation(old(ledger)@, event@, now as int),
{
    if let Some(contract) = contract_of(event) {
        if let Some(at) = ledger.find_subscription(provider(), contract) {
            cancel_subscription_at(ledger, at, now);
        }
    }
}

/// Reconciles one event with the ledger at the time `now`.
pub fn reconcile(ledger: &mut Ledger, event: &NormalizedLavaWebhook, now: i64) -> (outcome: Outcome)
    ensures
        final(ledger)@ == reconciled(old(ledger)@, event@, now as int).0,
        outcome == reconciled(old(ledger)@, event@, now as int).1,
        old(ledger)@.well_formed() ==> final(ledger)@.well_formed(),
{
    proof {
        if ledger@.well_formed() {
            crate::invariants::lemma_reconcile_keeps_invariant(ledger@, event@, now as int);
        }
    }
    let reported = classify_outcome(event);
    match reported {
        EventOutcome::Cancellation => {
            cancel_by_event(ledger, event, now);
            return Outcome::Canceled;
        },
        EventOutcome::Indeterminate => {
            return Outcome::Ignored;
        },
        _ => {},
    }
    match locate(ledger, event, reported) {
        Target::Skip(end) => end,
        Target::Existing(at) => {
            let user_id = ledger.transactions[at].user_id;
            let product_id = ledger.transactions[at].product_id;
            match decide(ledger, event, reported, user_id, product_id, now) {
                Ok(settlement) => {
                    apply(ledger, at, settlement, user_id, event, now);
                    outcome_for(settlement)
                },
                Err(end) => end,
            }
        },
        Target::Fresh(row) => {
            if ledger.next_transaction_id >= i32::MAX {
                return Outcome::StorageError;
            }
            let user_id = row.user_id;
            match decide(ledger, event, reported, user_id, row.product_id, now) {
                Ok(settlement) => {
                    let at = ledger.transactions.len();
                    add_pending_transaction(ledger, row, event, now);
                    apply(ledger, at, settlement, user_id, event, now);
                    outcome_for(settlement)
                },
                Err(end) => end,
            }
        },
    }
}

/// The outcome of an event that settled a transaction.
fn outcome_for(settlement: Settlement) -> (outcome: Outcome)
    ensures
        outcome == outcome_after(settlement@),
{
    match settlement {
        Settlement::Fail => Outcome::Failed,
        Settlement::SettleMissing => Outcome::MissingProduct,
        _ => Outcome::Succeeded,
    }
}

} // verus!
