//! The catalog and the subscription ledger: queries on products and
//! subscriptions, activation and renewal, cancellation.

use vstd::prelude::*;
use crate::ledger::{
    first_from, product_has_id, subscription_has_contract, subscription_of_user, Ledger,
    LedgerView, StoreError,
};
use crate::models::{views, Product, ProductView, Subscription, SubscriptionStatus, SubscriptionView};
use crate::text::str_eq;

verus! {

/// The product is offered for sale.
pub open spec fn product_is_active() -> spec_fn(ProductView) -> bool {
    |p: ProductView| p.is_active
}

/// The product is offered for sale under this slug.
pub open spec fn product_is_active_slug(slug: Seq<char>) -> spec_fn(ProductView) -> bool {
    |p: ProductView| p.slug == slug && p.is_active
}

/// The subscription belongs to this user.
pub open spec fn subscription_belongs_to(user_id: int) -> spec_fn(SubscriptionView) -> bool {
    |s: SubscriptionView| s.user_id == user_id
}

/// The subscription at `at` grants its user quota at the time `now`: it is
/// the user's, active or canceled, its period has no end or ends after `now`,
/// and its product exists.
pub open spec fn subscription_qualifies(ledger: LedgerView, at: int, user_id: int, now: int) -> bool {
    let s = ledger.subscriptions[at];
    &&& s.user_id == user_id
    &&& s.status.can_be_effective()
    &&& (s.current_period_end matches Some(end) ==> end > now)
    &&& first_from(ledger.products, product_has_id(s.product_id), 0) is Some
}

/// `a` was created no earlier than `b`; a row without a creation time counts
/// as the latest.
pub open spec fn created_not_before(a: Option<int>, b: Option<int>) -> bool {
    match (a, b) {
        (None, _) => true,
        (Some(_), None) => false,
        (Some(x), Some(y)) => x >= y,
    }
}

/// Among the first `upto` subscriptions, the one that qualifies and was
/// created last; of several created at the same time, the one stored last.
pub open spec fn effective_upto(ledger: LedgerView, user_id: int, now: int, upto: int) -> Option<
    int,
>
    decreases upto,
{
    if upto <= 0 {
        None
    } else {
        let before = effective_upto(ledger, user_id, now, upto - 1);
        let at = upto - 1;
        if subscription_qualifies(ledger, at, user_id, now) && (before matches Some(b)
            ==> created_not_before(
            ledger.subscriptions[at].created_at,
            ledger.subscriptions[b].created_at,
        )) {
            Some(at)
        } else {
            before
        }
    }
}

/// The position of the user's effective subscription at the time `now`.
pub open spec fn effective_subscription(ledger: LedgerView, user_id: int, now: int) -> Option<int> {
    effective_upto(ledger, user_id, now, ledger.subscriptions.len() as int)
}

/// The monthly credits that the product with this identifier grants; 0 where
/// it names none.
pub open spec fn monthly_credits_of(ledger: LedgerView, product_id: int) -> int {
    match first_from(ledger.products, product_has_id(product_id), 0) {
        Some(p) => match ledger.products[p].monthly_credits {
            Some(c) => c,
            None => 0,
        },
        None => 0,
    }
}

/// The effective subscription qualifies, and no qualifying subscription was
/// created after it, nor at the same time and stored behind it.
pub proof fn lemma_effective_is_latest(ledger: LedgerView, user_id: int, now: int, upto: int)
    requires
        0 <= upto <= ledger.subscriptions.len(),
    ensures
        match effective_upto(ledger, user_id, now, upto) {
            Some(e) => {
                &&& 0 <= e < upto
                &&& subscription_qualifies(ledger, e, user_id, now)
                &&& forall|j: int|
                    0 <= j < upto && #[trigger] subscription_qualifies(ledger, j, user_id, now)
                        ==> created_not_before(
                        ledger.subscriptions[e].created_at,
                        ledger.subscriptions[j].created_at,
                    ) && (created_not_before(
                        ledger.subscriptions[j].created_at,
                        ledger.subscriptions[e].created_at,
                    ) ==> j <= e)
            },
            None => forall|j: int|
                0 <= j < upto ==> !#[trigger] subscription_qualifies(ledger, j, user_id, now),
        },
    decreases upto,
{
    if upto > 0 {
        lemma_effective_is_latest(ledger, user_id, now, upto - 1);
    }
}

/// The ledger after the subscription at `at` was canceled at the time `now`.
/// The period is not touched.
pub open spec fn with_subscription_canceled(ledger: LedgerView, at: int, now: int) -> LedgerView {
    LedgerView {
        subscriptions: ledger.subscriptions.update(
            at,
            SubscriptionView {
                status: SubscriptionStatus::Canceled,
                canceled_at: Some(now),
                ..ledger.subscriptions[at]
            },
        ),
        ..ledger
    }
}

/// The ledger after the user canceled the subscription `subscription_id`.
pub open spec fn after_user_cancel(
    ledger: LedgerView,
    user_id: int,
    subscription_id: int,
    now: int,
) -> LedgerView {
    match first_from(ledger.subscriptions, subscription_of_user(subscription_id, user_id), 0) {
        Some(at) => with_subscription_canceled(ledger, at, now),
        None => ledger,
    }
}

/// The position of the subscription that an activation for this contract
/// replaces. A subscription without a contract identifier is never replaced.
pub open spec fn upsert_target(
    ledger: LedgerView,
    provider: Seq<char>,
    contract: Option<Seq<char>>,
) -> Option<int> {
    match contract {
        Some(c) => first_from(ledger.subscriptions, subscription_has_contract(provider, c), 0),
        None => None,
    }
}

/// Whether an activation for this contract fails: it needs a new row and no
/// identifier is left for one.
pub open spec fn upsert_fails(
    ledger: LedgerView,
    provider: Seq<char>,
    contract: Option<Seq<char>>,
) -> bool {
    upsert_target(ledger, provider, contract) is None && ledger.next_subscription_id >= i32::MAX
}

/// The identifier of the subscription that an activation for this contract
/// leaves active.
pub open spec fn upsert_id(
    ledger: LedgerView,
    provider: Seq<char>,
    contract: Option<Seq<char>>,
) -> int {
    match upsert_target(ledger, provider, contract) {
        Some(at) => ledger.subscriptions[at].id,
        None => ledger.next_subscription_id,
    }
}

/// The ledger after an activation that does not fail. An existing subscription
/// for the contract gets the product and the period, becomes active and loses
/// its cancellation time; its user stays. Otherwise a new subscription is
/// stored behind the others.
pub open spec fn with_subscription_active(
    ledger: LedgerView,
    user_id: int,
    product_id: int,
    provider: Seq<char>,
    contract: Option<Seq<char>>,
    period_start: int,
    period_end: int,
    now: int,
) -> LedgerView {
    match upsert_target(ledger, provider, contract) {
        Some(at) => LedgerView {
            subscriptions: ledger.subscriptions.update(
                at,
                SubscriptionView {
                    product_id: product_id,
                    status: SubscriptionStatus::Active,
                    current_period_start: Some(period_start),
                    current_period_end: Some(period_end),
                    canceled_at: None,
                    ..ledger.subscriptions[at]
                },
            ),
            ..ledger
        },
        None => LedgerView {
            subscriptions: ledger.subscriptions.push(
                SubscriptionView {
                    id: ledger.next_subscription_id,
                    user_id: user_id,
                    product_id: product_id,
                    provider: provider,
                    provider_subscription_id: contract,
                    status: SubscriptionStatus::Active,
                    current_period_start: Some(period_start),
                    current_period_end: Some(period_end),
                    created_at: Some(now),
                    updated_at: Some(now),
                    canceled_at: None,
                },
            ),
            next_subscription_id: ledger.next_subscription_id + 1,
            ..ledger
        },
    }
}

/// The products that are offered for sale, in the order of the catalog.
pub fn list_active_products(ledger: &Ledger) -> (products: Vec<Product>)
    ensures
        views(products@) == ledger@.products.filter(product_is_active()),
{
    let mut out: Vec<Product> = Vec::new();
    let mut i: usize = 0;
    assert(ledger@.products.take(0) =~= Seq::empty());
    proof {
        reveal(Seq::filter);
    }
    while i < ledger.products.len()
        invariant
            i <= ledger.products.len(),
            views(out@) == ledger@.products.take(i as int).filter(product_is_active()),
        decreases ledger.products.len() - i,
    {
        let ghost before = ledger@.products.take(i as int);
        proof {
            before.lemma_filter_push(ledger@.products[i as int], product_is_active());
            assert(ledger@.products.take(i + 1) =~= before.push(ledger@.products[i as int]));
        }
        if ledger.products[i].is_active {
            let ghost shown = views(out@);
            out.push(ledger.products[i].clone());
            assert(views(out@) =~= shown.push(ledger@.products[i as int]));
        }
        i += 1;
    }
    assert(ledger@.products.take(i as int) =~= ledger@.products);
    out
}

/// The first product that is offered for sale under this slug.
pub fn get_product_by_slug(ledger: &Ledger, slug: &str) -> (product: Option<Product>)
    ensures
        match product {
            Some(p) => first_from(ledger@.products, product_is_active_slug(slug@), 0) matches Some(
                at,
            ) && p@ == ledger@.products[at],
            None => first_from(ledger@.products, product_is_active_slug(slug@), 0) is None,
        },
{
    let mut i: usize = 0;
    while i < ledger.products.len()
        invariant
            i <= ledger.products.len(),
            first_from(ledger@.products, product_is_active_slug(slug@), 0) == first_from(
                ledger@.products,
                product_is_active_slug(slug@),
                i as int,
            ),
        decreases ledger.products.len() - i,
    {
        if str_eq(ledger.products[i].slug.as_str(), slug) && ledger.products[i].is_active {
            return Some(ledger.products[i].clone());
        }
        i += 1;
    }
    None
}

/// Whether `a` was created no earlier than `b`.
fn not_before(a: Option<i64>, b: Option<i64>) -> (yes: bool)
    ensures
        yes == created_not_before(crate::models::opt_time(a), crate::models::opt_time(b)),
{
    match (a, b) {
        (None, _) => true,
        (Some(_), None) => false,
        (Some(x), Some(y)) => x >= y,
    }
}

/// The position of the user's effective subscription at the time `now`.
pub fn find_effective_subscription(ledger: &Ledger, user_id: i32, now: i64) -> (found: Option<usize>)
    ensures
        found matches Some(i) ==> i < ledger.subscriptions.len(),
        match found {
            Some(i) => effective_subscription(ledger@, user_id as int, now as int) == Some(
                i as int,
            ),
            None => effective_subscription(ledger@, user_id as int, now as int) is None,
        },
{
    let mut best: Option<usize> = None;
    let mut i: usize = 0;
    while i < ledger.subscriptions.len()
        invariant
            i <= ledger.subscriptions.len(),
            best matches Some(b) ==> b < i,
            match best {
                Some(b) => effective_upto(ledger@, user_id as int, now as int, i as int) == Some(
                    b as int,
                ),
                None => effective_upto(ledger@, user_id as int, now as int, i as int) is None,
            },
        decreases ledger.subscriptions.len() - i,
    {
        let s = &ledger.subscriptions[i];
        let live = match s.status {
            SubscriptionStatus::Active => true,
            SubscriptionStatus::Canceled => true,
            SubscriptionStatus::Other => false,
        };
        let open = match s.current_period_end {
            Some(end) => end > now,
            None => true,
        };
        if s.user_id == user_id && live && open && ledger.find_product(s.product_id).is_some() {
            let later = match best {
                Some(b) => not_before(s.created_at, ledger.subscriptions[b].created_at),
                None => true,
            };
            if later {
                best = Some(i);
            }
        }
        i += 1;
    }
    best
}

/// The subscription that grants the user quota at the time `now`, with the
/// monthly credits of its product.
pub fn get_effective_subscription(ledger: &Ledger, user_id: i32, now: i64) -> (found: Option<
    (Subscription, i32),
>)
    ensures
        match found {
            Some((subscription, credits)) => {
                &&& effective_subscription(ledger@, user_id as int, now as int) matches Some(at)
                &&& subscription@ == ledger@.subscriptions[at]
                &&& credits == monthly_credits_of(ledger@, ledger@.subscriptions[at].product_id)
            },
            None => effective_subscription(ledger@, user_id as int, now as int) is None,
        },
{
    match find_effective_subscription(ledger, user_id, now) {
        Some(at) => {
            let subscription = ledger.subscriptions[at].clone();
            let credits = match ledger.find_product(subscription.product_id) {
                Some(p) => match ledger.products[p].monthly_credits {
                    Some(c) => c,
                    None => 0,
                },
                None => 0,
            };
            Some((subscription, credits))
        },
        None => None,
    }
}

/// Where a subscription goes into a list that shows the most recently
/// created first: before the first one, from `from` on, that was not created
/// after it.
pub open spec fn insert_position(
    sorted: Seq<SubscriptionView>,
    subscription: SubscriptionView,
    from: int,
) -> int
    decreases sorted.len() - from,
{
    if from < 0 || from >= sorted.len() {
        sorted.len() as int
    } else if created_not_before(subscription.created_at, sorted[from].created_at) {
        from
    } else {
        insert_position(sorted, subscription, from + 1)
    }
}

/// The subscriptions with the most recently created first; of several
/// created at the same time, the one stored last comes first.
pub open spec fn recent_first(items: Seq<SubscriptionView>) -> Seq<SubscriptionView>
    decreases items.len(),
{
    if items.len() == 0 {
        Seq::empty()
    } else {
        let rest = recent_first(items.drop_last());
        rest.insert(insert_position(rest, items.last(), 0), items.last())
    }
}

/// The position where a subscription goes lies in the list; what stands
/// before it was created after the subscription, what stands there was not.
pub proof fn lemma_insert_position(
    sorted: Seq<SubscriptionView>,
    subscription: SubscriptionView,
    from: int,
)
    requires
        0 <= from <= sorted.len(),
    ensures
        from <= insert_position(sorted, subscription, from) <= sorted.len(),
        forall|k: int|
            from <= k < insert_position(sorted, subscription, from) ==> !created_not_before(
                subscription.created_at,
                (#[trigger] sorted[k]).created_at,
            ),
        insert_position(sorted, subscription, from) < sorted.len() ==> created_not_before(
            subscription.created_at,
            sorted[insert_position(sorted, subscription, from)].created_at,
        ),
    decreases sorted.len() - from,
{
    if from < sorted.len() && !created_not_before(subscription.created_at, sorted[from].created_at) {
        lemma_insert_position(sorted, subscription, from + 1);
    }
}

/// A list with the most recently created first holds exactly the
/// subscriptions that it was made of, and none in it was created after one
/// that stands before it.
pub proof fn lemma_recent_first_is_sorted(items: Seq<SubscriptionView>)
    ensures
        recent_first(items).len() == items.len(),
        recent_first(items).to_multiset() == items.to_multiset(),
        forall|i: int, j: int|
            0 <= i < j < items.len() ==> created_not_before(
                (#[trigger] recent_first(items)[i]).created_at,
                (#[trigger] recent_first(items)[j]).created_at,
            ),
    decreases items.len(),
{
    if items.len() == 0 {
        assert(recent_first(items) =~= items);
    } else {
        let rest = recent_first(items.drop_last());
        let x = items.last();
        lemma_recent_first_is_sorted(items.drop_last());
        lemma_insert_position(rest, x, 0);
        let at = insert_position(rest, x, 0);
        let out = rest.insert(at, x);
        assert(out == recent_first(items));
        assert(items =~= items.drop_last().push(x));
        assert(out.to_multiset() == items.to_multiset()) by {
            vstd::seq_lib::to_multiset_insert(rest, at, x);
            vstd::seq_lib::to_multiset_build(items.drop_last(), x);
        }
        assert forall|i: int, j: int| 0 <= i < j < items.len() implies created_not_before(
            (#[trigger] out[i]).created_at,
            (#[trigger] out[j]).created_at,
        ) by {
            if j < at {
                assert(out[i] == rest[i] && out[j] == rest[j]);
            } else if j == at {
                assert(out[i] == rest[i]);
                assert(!created_not_before(x.created_at, rest[i].created_at));
            } else if i < at {
                assert(out[i] == rest[i] && out[j] == rest[j - 1]);
                if at < j - 1 {
                    assert(created_not_before(rest[at].created_at, rest[j - 1].created_at));
                }
            } else if i == at {
                assert(out[j] == rest[j - 1]);
                if at < j - 1 {
                    assert(created_not_before(rest[at].created_at, rest[j - 1].created_at));
                }
            } else {
                assert(out[i] == rest[i - 1] && out[j] == rest[j - 1]);
            }
        }
    }
}

/// The user's subscriptions, the most recently created first.
pub fn list_user_subscriptions(ledger: &Ledger, user_id: i32) -> (subscriptions: Vec<Subscription>)
    ensures
        views(subscriptions@) == recent_first(
            ledger@.subscriptions.filter(subscription_belongs_to(user_id as int)),
        ),
{
    let mut out: Vec<Subscription> = Vec::new();
    let mut i: usize = 0;
    assert(ledger@.subscriptions.take(0) =~= Seq::empty());
    proof {
        reveal(Seq::filter);
    }
    while i < ledger.subscriptions.len()
        invariant
            i <= ledger.subscriptions.len(),
            views(out@) == recent_first(
                ledger@.subscriptions.take(i as int).filter(
                    subscription_belongs_to(user_id as int),
                ),
            ),
        decreases ledger.subscriptions.len() - i,
    {
        let ghost before = ledger@.subscriptions.take(i as int);
        let ghost kept = before.filter(subscription_belongs_to(user_id as int));
        proof {
            before.lemma_filter_push(
                ledger@.subscriptions[i as int],
                subscription_belongs_to(user_id as int),
            );
            assert(ledger@.subscriptions.take(i + 1) =~= before.push(
                ledger@.subscriptions[i as int],
            ));
        }
        if ledger.subscriptions[i].user_id == user_id {
            let ghost shown = views(out@);
            let ghost item = ledger@.subscriptions[i as int];
            let mut at: usize = 0;
            while at < out.len() && !not_before(
                ledger.subscriptions[i].created_at,
                out[at].created_at,
            )
                invariant
                    at <= out.len(),
                    i < ledger.subscriptions.len(),
                    shown == views(out@),
                    item == ledger@.subscriptions[i as int],
                    insert_position(shown, item, 0) == insert_position(shown, item, at as int),
                decreases out.len() - at,
            {
                at += 1;
            }
            out.insert(at, ledger.subscriptions[i].clone());
            assert(views(out@) =~= shown.insert(at as int, item));
            assert(kept.push(item).drop_last() =~= kept);
        }
        i += 1;
    }
    assert(ledger@.subscriptions.take(i as int) =~= ledger@.subscriptions);
    out
}

/// Cancels the subscription at `at`: the status and the cancellation time
/// change, the period stays.
pub fn cancel_subscription_at(ledger: &mut Ledger, at: usize, now: i64)
    requires
        at < old(ledger)@.subscriptions.len(),
    ensures
        final(ledger)@ == with_subscription_canceled(old(ledger)@, at as int, now as int),
{
    ledger.subscriptions[at].status = SubscriptionStatus::Canceled;
    ledger.subscriptions[at].canceled_at = Some(now);
    assert(ledger@.subscriptions =~= with_subscription_canceled(
        old(ledger)@,
        at as int,
        now as int,
    ).subscriptions);
}

/// Cancels the user's subscription `subscription_id` at the time `now`. A
/// subscription of another user, or none, leaves the ledger as it is.
pub fn cancel_user_subscription(ledger: &mut Ledger, user_id: i32, subscription_id: i32, now: i64)
    ensures
        final(ledger)@ == after_user_cancel(
            old(ledger)@,
            user_id as int,
            subscription_id as int,
            now as int,
        ),
        old(ledger)@.well_formed() ==> final(ledger)@.well_formed(),
{
    proof {
        if ledger@.well_formed() {
            crate::invariants::lemma_user_cancel_keeps_invariant(
                ledger@,
                user_id as int,
                subscription_id as int,
                now as int,
            );
        }
    }
    match ledger.find_subscription_of_user(subscription_id, user_id) {
        Some(at) => cancel_subscription_at(ledger, at, now),
        None => {},
    }
}

/// Activates or renews the subscription for a contract of the provider and
/// returns its identifier.
pub fn upsert_subscription_active(
    ledger: &mut Ledger,
    user_id: i32,
    product_id: i32,
    provider: &str,
    provider_subscription_id: Option<&str>,
    current_period_start: i64,
    current_period_end: i64,
    now: i64,
) -> (result: Result<i32, StoreError>)
    ensures
        result is Err <==> upsert_fails(
            old(ledger)@,
            provider@,
            crate::text::opt_str(provider_subscription_id),
        ),
        match result {
            Ok(id) => {
                &&& id == upsert_id(
                    old(ledger)@,
                    provider@,
                    crate::text::opt_str(provider_subscription_id),
                )
                &&& final(ledger)@ == with_subscription_active(
                    old(ledger)@,
                    user_id as int,
                    product_id as int,
                    provider@,
                    crate::text::opt_str(provider_subscription_id),
                    current_period_start as int,
                    current_period_end as int,
                    now as int,
                )
            },
            Err(e) => e == StoreError::OutOfRange && final(ledger)@ == old(ledger)@,
        },
        old(ledger)@.well_formed() ==> final(ledger)@.well_formed(),
{
    proof {
        if ledger@.well_formed() {
            crate::invariants::lemma_activation_keeps_invariant(
                ledger@,
                user_id as int,
                product_id as int,
                provider@,
                crate::text::opt_str(provider_subscription_id),
                current_period_start as int,
                current_period_end as int,
                now as int,
            );
        }
    }
    let target = match provider_subscription_id {
        Some(contract) => ledger.find_subscription(provider, contract),
        None => None,
    };
    match target {
        Some(at) => {
            ledger.subscriptions[at].product_id = product_id;
            ledger.subscriptions[at].status = SubscriptionStatus::Active;
            ledger.subscriptions[at].current_period_start = Some(current_period_start);
            ledger.subscriptions[at].current_period_end = Some(current_period_end);
            ledger.subscriptions[at].canceled_at = None;
            assert(ledger@.subscriptions =~= with_subscription_active(
                old(ledger)@,
                user_id as int,
                product_id as int,
                provider@,
                crate::text::opt_str(provider_subscription_id),
                current_period_start as int,
                current_period_end as int,
                now as int,
            ).subscriptions);
            Ok(ledger.subscriptions[at].id)
        },
        None => {
            if ledger.next_subscription_id >= i32::MAX {
                return Err(StoreError::OutOfRange);
            }
            let id = ledger.next_subscription_id;
            let contract = match provider_subscription_id {
                Some(c) => Some(c.to_string()),
                None => None,
            };
            let row = Subscription {
                id,
                user_id,
                product_id,
                provider: provider.to_string(),
                provider_subscription_id: contract,
                status: SubscriptionStatus::Active,
                current_period_start: Some(current_period_start),
                current_period_end: Some(current_period_end),
                created_at: Some(now),
                updated_at: Some(now),
                canceled_at: None,
            };
            ledger.subscriptions.push(row);
            ledger.next_subscription_id = id + 1;
            assert(ledger@.subscriptions =~= with_subscription_active(
                old(ledger)@,
                user_id as int,
                product_id as int,
                provider@,
                crate::text::opt_str(provider_subscription_id),
                current_period_start as int,
                current_period_end as int,
                now as int,
            ).subscriptions);
            Ok(id)
        },
    }
}

} // verus!
