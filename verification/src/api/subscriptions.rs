//! Subscriptions as their owners see and cancel them.

use vstd::prelude::*;
use crate::db::{after_user_cancel, recent_first, subscription_belongs_to};
use crate::ledger::Ledger;
use crate::models::{views, Subscription};

verus! {

/// The body of a cancellation.
#[derive(Clone, Copy, Debug, PartialEq, Eq, Structural)]
pub struct CancelSubscriptionRequest {
    pub subscription_id: i32,
}

/// Subscriptions are switched off for the time being.
#[derive(Clone, Copy, Debug, PartialEq, Eq, Structural)]
pub struct SubscriptionsDisabled;

/// The user's subscriptions, the most recently created first; none while
/// subscriptions are switched off.
pub fn list_subscriptions(ledger: &Ledger, user_id: i32, subscriptions_disabled: bool) -> (list:
    Vec<Subscription>)
    ensures
        views(list@) == (if subscriptions_disabled {
            Seq::empty()
        } else {
            recent_first(ledger@.subscriptions.filter(subscription_belongs_to(user_id as int)))
        }),
{
    if subscriptions_disabled {
        let list: Vec<Subscription> = Vec::new();
        assert(views(list@) =~= Seq::empty());
        return list;
    }
    crate::db::list_user_subscriptions(ledger, user_id)
}

/// Cancels a subscription of the user at the time `now`. While subscriptions
/// are switched off the request is refused and nothing changes.
pub fn cancel_subscription(
    ledger: &mut Ledger,
    user_id: i32,
    request: CancelSubscriptionRequest,
    subscriptions_disabled: bool,
    now: i64,
) -> (result: Result<(), SubscriptionsDisabled>)
    ensures
        result is Err <==> subscriptions_disabled,
        final(ledger)@ == (if subscriptions_disabled {
            old(ledger)@
        } else {
            after_user_cancel(
                old(ledger)@,
                user_id as int,
                request.subscription_id as int,
                now as int,
            )
        }),
        old(ledger)@.well_formed() ==> final(ledger)@.well_formed(),
{
    if subscriptions_disabled {
        return Err(SubscriptionsDisabled);
    }
    crate::db::cancel_user_subscription(ledger, user_id, request.subscription_id, now);
    Ok(())
}

} // verus!
