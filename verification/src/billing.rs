//! The credit account and the quota scheduler: which balance a use is charged
//! to, consuming and granting credits, and the lazy reset of the monthly
//! quota.

use vstd::prelude::*;
use crate::db::{effective_subscription, find_effective_subscription, monthly_credits_of};
use crate::ledger::{first_from, user_has_id, Ledger, LedgerView, StoreError};
use crate::models::{opt_text, UserAccountView};
use crate::text::str_eq;

verus! {

/// The time between two resets of the monthly quota: 30 days, in
/// microseconds. The cadence is fixed; it does not follow calendar months.
pub const QUOTA_PERIOD: i64 = 2_592_000_000_000;

/// A balance after one use: one less, and never below zero.
pub open spec fn floor_decrement(balance: int) -> int {
    if balance > 0 {
        balance - 1
    } else {
        0
    }
}

/// The ledger after `credits` were added to the user's one-time balance. An
/// unknown user leaves it as it is.
pub open spec fn with_credits_granted(ledger: LedgerView, user_id: int, credits: int) -> LedgerView {
    match first_from(ledger.users, user_has_id(user_id), 0) {
        Some(at) => LedgerView {
            users: ledger.users.update(
                at,
                UserAccountView { credits: ledger.users[at].credits + credits, ..ledger.users[at] },
            ),
            ..ledger
        },
        None => ledger,
    }
}

/// Whether adding `credits` to the user's one-time balance leaves the range
/// of a balance.
pub open spec fn grant_fails(ledger: LedgerView, user_id: int, credits: int) -> bool {
    first_from(ledger.users, user_has_id(user_id), 0) matches Some(at) && !(i32::MIN
        <= ledger.users[at].credits + credits <= i32::MAX)
}

/// The ledger after the user's monthly quota was set to `amount` and its next
/// reset scheduled at `reset_at`. The quota is set, not added to. An unknown
/// user leaves the ledger as it is.
pub open spec fn with_monthly_quota(
    ledger: LedgerView,
    user_id: int,
    amount: int,
    reset_at: int,
) -> LedgerView {
    match first_from(ledger.users, user_has_id(user_id), 0) {
        Some(at) => LedgerView {
            users: ledger.users.update(
                at,
                UserAccountView {
                    monthly_quota: amount,
                    quota_reset_at: Some(reset_at),
                    ..ledger.users[at]
                },
            ),
            ..ledger
        },
        None => ledger,
    }
}

/// The account after one use was charged to the balance that `credit_type`
/// names: `monthly` to the monthly quota, `free` to the complimentary use,
/// anything else to the one-time balance.
pub open spec fn account_after_use(account: UserAccountView, credit_type: Seq<char>) -> UserAccountView {
    if credit_type == "monthly"@ {
        UserAccountView { monthly_quota: floor_decrement(account.monthly_quota), ..account }
    } else if credit_type == "free"@ {
        UserAccountView { free_generation_used: true, ..account }
    } else {
        UserAccountView { credits: floor_decrement(account.credits), ..account }
    }
}

/// The ledger after one use by the user was charged. An unknown user leaves
/// it as it is.
pub open spec fn after_consume(ledger: LedgerView, user_id: int, credit_type: Seq<char>) -> LedgerView {
    match first_from(ledger.users, user_has_id(user_id), 0) {
        Some(at) => LedgerView {
            users: ledger.users.update(at, account_after_use(ledger.users[at], credit_type)),
            ..ledger
        },
        None => ledger,
    }
}

/// The balance that a use by this account is charged to: the monthly quota
/// first, then the one-time balance, then the complimentary use.
pub open spec fn available_credit(account: UserAccountView) -> Option<Seq<char>> {
    if account.monthly_quota > 0 {
        Some("monthly"@)
    } else if account.credits > 0 {
        Some("one_time"@)
    } else if !account.free_generation_used {
        Some("free"@)
    } else {
        None
    }
}

/// Whether a reset scheduled at `reset_at` is due at `now`. A quota that was
/// never scheduled is due.
pub open spec fn reset_is_due(reset_at: Option<int>, now: int) -> bool {
    match reset_at {
        Some(at) => at <= now,
        None => true,
    }
}

/// What the quota scheduler does for the user at the time `now`. Without an
/// effective subscription, or before the reset is due, nothing changes. A
/// due reset sets the quota to the monthly credits of the subscription's
/// product and schedules the next one a period later.
pub open spec fn refresh_result(ledger: LedgerView, user_id: int, now: int) -> Result<
    LedgerView,
    StoreError,
> {
    match effective_subscription(ledger, user_id, now) {
        None => Ok(ledger),
        Some(s) => match first_from(ledger.users, user_has_id(user_id), 0) {
            None => Err(StoreError::RowNotFound),
            Some(at) => if !reset_is_due(ledger.users[at].quota_reset_at, now) {
                Ok(ledger)
            } else if now + QUOTA_PERIOD > i64::MAX {
                Err(StoreError::OutOfRange)
            } else {
                Ok(
                    with_monthly_quota(
                        ledger,
                        user_id,
                        monthly_credits_of(ledger, ledger.subscriptions[s].product_id),
                        now + QUOTA_PERIOD,
                    ),
                )
            },
        },
    }
}

/// The ledger that a check of credit availability leaves: the refreshed one,
/// or the old one where the refresh failed.
pub open spec fn refreshed_or_same(ledger: LedgerView, user_id: int, now: int) -> LedgerView {
    match refresh_result(ledger, user_id, now) {
        Ok(refreshed) => refreshed,
        Err(_) => ledger,
    }
}

/// Resets the user's monthly quota where a reset is due.
pub fn refresh_monthly_quota(ledger: &mut Ledger, user_id: i32, now: i64) -> (result: Result<
    (),
    StoreError,
>)
    ensures
        match result {
            Ok(()) => refresh_result(old(ledger)@, user_id as int, now as int) == Ok::<
                LedgerView,
                StoreError,
            >(final(ledger)@),
            Err(e) => refresh_result(old(ledger)@, user_id as int, now as int) == Err::<
                LedgerView,
                StoreError,
            >(e) && final(ledger)@ == old(ledger)@,
        },
        old(ledger)@.well_formed() ==> final(ledger)@.well_formed(),
{
    proof {
        if ledger@.well_formed() {
            crate::invariants::lemma_refresh_keeps_invariant(ledger@, user_id as int, now as int);
        }
    }
    let s = match find_effective_subscription(ledger, user_id, now) {
        Some(s) => s,
        None => {
            return Ok(());
        },
    };
    let at = match ledger.find_user(user_id) {
        Some(at) => at,
        None => {
            return Err(StoreError::RowNotFound);
        },
    };
    let due = match ledger.users[at].quota_reset_at {
        Some(t) => t <= now,
        None => true,
    };
    if !due {
        return Ok(());
    }
    if now > i64::MAX - QUOTA_PERIOD {
        return Err(StoreError::OutOfRange);
    }
    let credits = match ledger.find_product(ledger.subscriptions[s].product_id) {
        Some(p) => match ledger.products[p].monthly_credits {
            Some(c) => c,
            None => 0,
        },
        None => 0,
    };
    ledger.users[at].monthly_quota = credits;
    ledger.users[at].quota_reset_at = Some(now + QUOTA_PERIOD);
    assert(ledger@.users =~= with_monthly_quota(
        old(ledger)@,
        user_id as int,
        credits as int,
        now + QUOTA_PERIOD,
    ).users);
    Ok(())
}

/// Says which balance the user's next use is charged to, after the quota
/// scheduler has run: `monthly`, `one_time`, `free`, or none.
pub fn can_remove_watermark(ledger: &mut Ledger, user_id: i32, now: i64) -> (result: Result<
    Option<String>,
    StoreError,
>)
    ensures
        final(ledger)@ == refreshed_or_same(old(ledger)@, user_id as int, now as int),
        match result {
            Ok(kind) => first_from(final(ledger)@.users, user_has_id(user_id as int), 0) matches Some(
                at,
            ) && opt_text(kind) == available_credit(final(ledger)@.users[at]),
            Err(e) => e == StoreError::RowNotFound && first_from(
                final(ledger)@.users,
                user_has_id(user_id as int),
                0,
            ) is None,
        },
        old(ledger)@.well_formed() ==> final(ledger)@.well_formed(),
{
    let _ = refresh_monthly_quota(ledger, user_id, now);
    let at = match ledger.find_user(user_id) {
        Some(at) => at,
        None => {
            return Err(StoreError::RowNotFound);
        },
    };
    let account = &ledger.users[at];
    if account.monthly_quota > 0 {
        Ok(Some("monthly".to_string()))
    } else if account.credits > 0 {
        Ok(Some("one_time".to_string()))
    } else if !account.free_generation_used {
        Ok(Some("free".to_string()))
    } else {
        Ok(None)
    }
}

/// Charges one use by the user to the balance that `credit_type` names.
pub fn consume_credit(ledger: &mut Ledger, user_id: i32, credit_type: &str)
    ensures
        final(ledger)@ == after_consume(old(ledger)@, user_id as int, credit_type@),
        old(ledger)@.well_formed() ==> final(ledger)@.well_formed(),
{
    proof {
        if ledger@.well_formed() {
            crate::invariants::lemma_consume_keeps_invariant(ledger@, user_id as int, credit_type@);
        }
    }
    let at = match ledger.find_user(user_id) {
        Some(at) => at,
        None => {
            return ;
        },
    };
    if str_eq(credit_type, "monthly") {
        let quota = ledger.users[at].monthly_quota;
        ledger.users[at].monthly_quota = if quota > 0 {
            quota - 1
        } else {
            0
        };
    } else if str_eq(credit_type, "free") {
        ledger.users[at].free_generation_used = true;
    } else {
        let credits = ledger.users[at].credits;
        ledger.users[at].credits = if credits > 0 {
            credits - 1
        } else {
            0
        };
    }
    assert(ledger@.users =~= after_consume(old(ledger)@, user_id as int, credit_type@).users);
}

/// Adds `credits` to the user's one-time balance.
pub fn grant_one_time_credits(ledger: &mut Ledger, user_id: i32, credits: i32) -> (result: Result<
    (),
    StoreError,
>)
    ensures
        result is Err <==> grant_fails(old(ledger)@, user_id as int, credits as int),
        match result {
            Ok(()) => final(ledger)@ == with_credits_granted(
                old(ledger)@,
                user_id as int,
                credits as int,
            ),
            Err(e) => e == StoreError::OutOfRange && final(ledger)@ == old(ledger)@,
        },
        old(ledger)@.well_formed() && credits >= 0 ==> final(ledger)@.well_formed(),
{
    proof {
        if ledger@.well_formed() && credits >= 0 {
            crate::invariants::lemma_grant_keeps_invariant(ledger@, user_id as int, credits as int);
        }
    }
    let at = match ledger.find_user(user_id) {
        Some(at) => at,
        None => {
            return Ok(());
        },
    };
    match ledger.users[at].credits.checked_add(credits) {
        Some(sum) => {
            ledger.users[at].credits = sum;
            assert(ledger@.users =~= with_credits_granted(
                old(ledger)@,
                user_id as int,
                credits as int,
            ).users);
            Ok(())
        },
        None => Err(StoreError::OutOfRange),
    }
}

/// Sets the user's monthly quota to `monthly_credits` and schedules the next
/// reset a period after `now`.
pub fn set_subscription_monthly_quota(
    ledger: &mut Ledger,
    user_id: i32,
    monthly_credits: i32,
    now: i64,
) -> (result: Result<(), StoreError>)
    ensures
        result is Err <==> now + QUOTA_PERIOD > i64::MAX,
        match result {
            Ok(()) => final(ledger)@ == with_monthly_quota(
                old(ledger)@,
                user_id as int,
                monthly_credits as int,
                now + QUOTA_PERIOD,
            ),
            Err(e) => e == StoreError::OutOfRange && final(ledger)@ == old(ledger)@,
        },
        old(ledger)@.well_formed() && monthly_credits >= 0 ==> final(ledger)@.well_formed(),
{
    proof {
        if ledger@.well_formed() && monthly_credits >= 0 {
            crate::invariants::lemma_quota_keeps_invariant(
                ledger@,
                user_id as int,
                monthly_credits as int,
                now + QUOTA_PERIOD,
            );
        }
    }
    if now > i64::MAX - QUOTA_PERIOD {
        return Err(StoreError::OutOfRange);
    }
    let at = match ledger.find_user(user_id) {
        Some(at) => at,
        None => {
            return Ok(());
        },
    };
    ledger.users[at].monthly_quota = monthly_credits;
    ledger.users[at].quota_reset_at = Some(now + QUOTA_PERIOD);
    assert(ledger@.users =~= with_monthly_quota(
        old(ledger)@,
        user_id as int,
        monthly_credits as int,
        now + QUOTA_PERIOD,
    ).users);
    Ok(())
}

/// A use never takes a balance below zero: balances that were not negative
/// are not negative afterwards, and a balance of zero stays zero.
pub proof fn lemma_consume_keeps_floor(ledger: LedgerView, user_id: int, credit_type: Seq<char>)
    requires
        ledger.balances_well_formed(),
    ensures
        after_consume(ledger, user_id, credit_type).balances_well_formed(),
        after_consume(ledger, user_id, credit_type).users.len() == ledger.users.len(),
        forall|i: int|
            0 <= i < ledger.users.len() && (#[trigger] ledger.users[i]).credits == 0
                ==> after_consume(ledger, user_id, credit_type).users[i].credits == 0,
        forall|i: int|
            0 <= i < ledger.users.len() && (#[trigger] ledger.users[i]).monthly_quota == 0
                ==> after_consume(ledger, user_id, credit_type).users[i].monthly_quota == 0,
{
    crate::ledger::lemma_first_from(ledger.users, user_has_id(user_id), 0);
}

/// Granting the monthly quota is a reset: after it was granted twice, with
/// any uses in between or none, the user's quota is the granted amount, not
/// the sum.
pub proof fn lemma_quota_reset_is_a_set(
    ledger: LedgerView,
    user_id: int,
    amount: int,
    first_reset: int,
    second_reset: int,
    uses_between: bool,
)
    ensures
        ({
            let once = with_monthly_quota(ledger, user_id, amount, first_reset);
            let between = if uses_between {
                after_consume(once, user_id, "monthly"@)
            } else {
                once
            };
            let twice = with_monthly_quota(between, user_id, amount, second_reset);
            &&& twice.users.len() == ledger.users.len()
            &&& first_from(twice.users, user_has_id(user_id), 0) == first_from(
                ledger.users,
                user_has_id(user_id),
                0,
            )
            &&& first_from(ledger.users, user_has_id(user_id), 0) matches Some(at)
                ==> twice.users[at].monthly_quota == amount
            &&& forall|i: int|
                0 <= i < ledger.users.len() && first_from(ledger.users, user_has_id(user_id), 0)
                    != Some(i) ==> (#[trigger] twice.users[i]) == ledger.users[i]
        }),
{
    let found = first_from(ledger.users, user_has_id(user_id), 0);
    crate::ledger::lemma_first_from(ledger.users, user_has_id(user_id), 0);
    let once = with_monthly_quota(ledger, user_id, amount, first_reset);
    match found {
        Some(at) => {
            crate::ledger::lemma_first_from_is(once.users, user_has_id(user_id), 0, at);
            let between = if uses_between {
                after_consume(once, user_id, "monthly"@)
            } else {
                once
            };
            crate::ledger::lemma_first_from_is(between.users, user_has_id(user_id), 0, at);
            let twice = with_monthly_quota(between, user_id, amount, second_reset);
            crate::ledger::lemma_first_from_is(twice.users, user_has_id(user_id), 0, at);
        },
        None => {},
    }
}

} // verus!
