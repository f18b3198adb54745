//! The records of the ledger: products, user credit accounts, transactions and
//! subscriptions, each with the mathematical view that contracts speak of.
//!
//! A point in time is a number of microseconds since the Unix epoch.

use vstd::prelude::*;
use crate::json::{Json, JsonView};
use crate::text::str_eq;

verus! {

/// The views of the items of a sequence, in order.
pub open spec fn views<T: View>(items: Seq<T>) -> Seq<T::V> {
    Seq::new(items.len(), |i: int| items[i]@)
}

/// The view of an optional text.
pub open spec fn opt_text(text: Option<String>) -> Option<Seq<char>> {
    match text {
        Some(t) => Some(t@),
        None => None,
    }
}

/// The view of an optional 32-bit number.
pub open spec fn opt_int(n: Option<i32>) -> Option<int> {
    match n {
        Some(v) => Some(v as int),
        None => None,
    }
}

/// The view of an optional point in time.
pub open spec fn opt_time(t: Option<i64>) -> Option<int> {
    match t {
        Some(v) => Some(v as int),
        None => None,
    }
}

/// Copies an optional text.
pub fn clone_opt_text(text: &Option<String>) -> (out: Option<String>)
    ensures
        opt_text(out) == opt_text(*text),
{
    match text {
        Some(t) => Some(t.clone()),
        None => None,
    }
}

/// How a product is sold.
#[derive(Clone, Copy, Debug, PartialEq, Eq, Structural)]
pub enum ProductType {
    /// Bought once; grants `credits_granted` credits.
    OneTime,
    /// Renewed every period; resets the monthly quota to `monthly_credits`.
    Subscription,
}

impl ProductType {
    /// The name of the type in the catalog.
    pub open spec fn text(self) -> Seq<char> {
        match self {
            ProductType::OneTime => "one_time"@,
            ProductType::Subscription => "subscription"@,
        }
    }

    /// The type with this name in the catalog.
    pub open spec fn named(name: Seq<char>) -> Option<ProductType> {
        if name == "one_time"@ {
            Some(ProductType::OneTime)
        } else if name == "subscription"@ {
            Some(ProductType::Subscription)
        } else {
            None
        }
    }

    /// The name of the type in the catalog.
    pub fn as_str(&self) -> (name: &'static str)
        ensures
            name@ == self.text(),
    {
        match self {
            ProductType::OneTime => "one_time",
            ProductType::Subscription => "subscription",
        }
    }

    /// The type with this name in the catalog.
    pub fn parse(name: &str) -> (kind: Option<ProductType>)
        ensures
            kind == ProductType::named(name@),
    {
        if str_eq(name, "one_time") {
            Some(ProductType::OneTime)
        } else if str_eq(name, "subscription") {
            Some(ProductType::Subscription)
        } else {
            None
        }
    }
}

/// Where a transaction stands. `Succeeded` and `Failed` are terminal.
#[derive(Clone, Copy, Debug, PartialEq, Eq, Structural)]
pub enum TransactionStatus {
    Pending,
    Succeeded,
    Failed,
    Refunded,
}

impl TransactionStatus {
    /// The name of the status in the store.
    pub open spec fn text(self) -> Seq<char> {
        match self {
            TransactionStatus::Pending => "pending"@,
            TransactionStatus::Succeeded => "succeeded"@,
            TransactionStatus::Failed => "failed"@,
            TransactionStatus::Refunded => "refunded"@,
        }
    }

    /// The status with this name in the store.
    pub open spec fn named(name: Seq<char>) -> Option<TransactionStatus> {
        if name == "pending"@ {
            Some(TransactionStatus::Pending)
        } else if name == "succeeded"@ {
            Some(TransactionStatus::Succeeded)
        } else if name == "failed"@ {
            Some(TransactionStatus::Failed)
        } else if name == "refunded"@ {
            Some(TransactionStatus::Refunded)
        } else {
            None
        }
    }

    /// The name of the status in the store.
    pub fn as_str(&self) -> (name: &'static str)
        ensures
            name@ == self.text(),
    {
        match self {
            TransactionStatus::Pending => "pending",
            TransactionStatus::Succeeded => "succeeded",
            TransactionStatus::Failed => "failed",
            TransactionStatus::Refunded => "refunded",
        }
    }

    /// The status with this name in the store.
    pub fn parse(name: &str) -> (status: Option<TransactionStatus>)
        ensures
            status == TransactionStatus::named(name@),
    {
        if str_eq(name, "pending") {
            Some(TransactionStatus::Pending)
        } else if str_eq(name, "succeeded") {
            Some(TransactionStatus::Succeeded)
        } else if str_eq(name, "failed") {
            Some(TransactionStatus::Failed)
        } else if str_eq(name, "refunded") {
            Some(TransactionStatus::Refunded)
        } else {
            None
        }
    }

    /// A terminal status is never left again.
    pub open spec fn is_terminal(self) -> bool {
        self == TransactionStatus::Succeeded || self == TransactionStatus::Failed
    }

    /// Whether the status is terminal.
    pub fn terminal(&self) -> (yes: bool)
        ensures
            yes == self.is_terminal(),
    {
        match self {
            TransactionStatus::Succeeded => true,
            TransactionStatus::Failed => true,
            _ => false,
        }
    }
}

/// What a transaction records.
#[derive(Clone, Copy, Debug, PartialEq, Eq, Structural)]
pub enum TransactionType {
    Payment,
    Refund,
}

impl TransactionType {
    /// The name of the type in the store.
    pub open spec fn text(self) -> Seq<char> {
        match self {
            TransactionType::Payment => "payment"@,
            TransactionType::Refund => "refund"@,
        }
    }

    /// The type with this name in the store.
    pub open spec fn named(name: Seq<char>) -> Option<TransactionType> {
        if name == "payment"@ {
            Some(TransactionType::Payment)
        } else if name == "refund"@ {
            Some(TransactionType::Refund)
        } else {
            None
        }
    }

    /// The name of the type in the store.
    pub fn as_str(&self) -> (name: &'static str)
        ensures
            name@ == self.text(),
    {
        match self {
            TransactionType::Payment => "payment",
            TransactionType::Refund => "refund",
        }
    }

    /// The type with this name in the store.
    pub fn parse(name: &str) -> (kind: Option<TransactionType>)
        ensures
            kind == TransactionType::named(name@),
    {
        if str_eq(name, "payment") {
            Some(TransactionType::Payment)
        } else if str_eq(name, "refund") {
            Some(TransactionType::Refund)
        } else {
            None
        }
    }
}

/// Where a subscription stands. A canceled subscription keeps granting quota
/// until its period ends.
#[derive(Clone, Copy, Debug, PartialEq, Eq, Structural)]
pub enum SubscriptionStatus {
    Active,
    Canceled,
    /// Any other state; such a subscription is never effective.
    Other,
}

impl SubscriptionStatus {
    /// The status with this name in the store; every name but `active` and
    /// `canceled` is another state.
    pub open spec fn named(name: Seq<char>) -> SubscriptionStatus {
        if name == "active"@ {
            SubscriptionStatus::Active
        } else if name == "canceled"@ {
            SubscriptionStatus::Canceled
        } else {
            SubscriptionStatus::Other
        }
    }

    /// The status with this name in the store.
    pub fn parse(name: &str) -> (status: SubscriptionStatus)
        ensures
            status == SubscriptionStatus::named(name@),
    {
        if str_eq(name, "active") {
            SubscriptionStatus::Active
        } else if str_eq(name, "canceled") {
            SubscriptionStatus::Canceled
        } else {
            SubscriptionStatus::Other
        }
    }

    /// The name in the store of a status that has one.
    pub fn as_str(&self) -> (name: Option<&'static str>)
        ensures
            match *self {
                SubscriptionStatus::Active => crate::text::opt_str(name) == Some("active"@),
                SubscriptionStatus::Canceled => crate::text::opt_str(name) == Some("canceled"@),
                SubscriptionStatus::Other => name is None,
            },
    {
        match self {
            SubscriptionStatus::Active => Some("active"),
            SubscriptionStatus::Canceled => Some("canceled"),
            SubscriptionStatus::Other => None,
        }
    }

    /// Only active and canceled subscriptions can be effective.
    pub open spec fn can_be_effective(self) -> bool {
        self == SubscriptionStatus::Active || self == SubscriptionStatus::Canceled
    }
}

/// A product of the catalog.
#[derive(Debug, PartialEq, Eq)]
pub struct Product {
    pub id: i32,
    pub slug: String,
    pub name: String,
    pub description: Option<String>,
    pub price: String,
    pub currency: String,
    pub product_type: ProductType,
    pub credits_granted: Option<i32>,
    pub monthly_credits: Option<i32>,
    pub is_active: bool,
    pub created_at: Option<i64>,
    pub lava_offer_id: Option<String>,
}

/// A product as mathematics.
pub struct ProductView {
    pub id: int,
    pub slug: Seq<char>,
    pub name: Seq<char>,
    pub description: Option<Seq<char>>,
    pub price: Seq<char>,
    pub currency: Seq<char>,
    pub product_type: ProductType,
    pub credits_granted: Option<int>,
    pub monthly_credits: Option<int>,
    pub is_active: bool,
    pub created_at: Option<int>,
    pub lava_offer_id: Option<Seq<char>>,
}

impl View for Product {
    type V = ProductView;

    open spec fn view(&self) -> ProductView {
        ProductView {
            id: self.id as int,
            slug: self.slug@,
            name: self.name@,
            description: opt_text(self.description),
            price: self.price@,
            currency: self.currency@,
            product_type: self.product_type,
            credits_granted: opt_int(self.credits_granted),
            monthly_credits: opt_int(self.monthly_credits),
            is_active: self.is_active,
            created_at: opt_time(self.created_at),
            lava_offer_id: opt_text(self.lava_offer_id),
        }
    }
}

impl Clone for Product {
    fn clone(&self) -> (out: Self)
        ensures
            out@ == self@,
    {
        Product {
            id: self.id,
            slug: self.slug.clone(),
            name: self.name.clone(),
            description: clone_opt_text(&self.description),
            price: self.price.clone(),
            currency: self.currency.clone(),
            product_type: self.product_type,
            credits_granted: self.credits_granted,
            monthly_credits: self.monthly_credits,
            is_active: self.is_active,
            created_at: self.created_at,
            lava_offer_id: clone_opt_text(&self.lava_offer_id),
        }
    }
}

/// The credit account of a user.
#[derive(Debug, PartialEq, Eq)]
pub struct UserAccount {
    pub id: i32,
    pub email: String,
    /// One-time balance.
    pub credits: i32,
    /// Balance that a subscription grants; reset, never accumulated.
    pub monthly_quota: i32,
    /// When the quota is next reset; `None` means at the next check.
    pub quota_reset_at: Option<i64>,
    /// Whether the one complimentary use is spent.
    pub free_generation_used: bool,
}

/// A credit account as mathematics.
pub struct UserAccountView {
    pub id: int,
    pub email: Seq<char>,
    pub credits: int,
    pub monthly_quota: int,
    pub quota_reset_at: Option<int>,
    pub free_generation_used: bool,
}

impl View for UserAccount {
    type V = UserAccountView;

    open spec fn view(&self) -> UserAccountView {
        UserAccountView {
            id: self.id as int,
            email: self.email@,
            credits: self.credits as int,
            monthly_quota: self.monthly_quota as int,
            quota_reset_at: opt_time(self.quota_reset_at),
            free_generation_used: self.free_generation_used,
        }
    }
}

impl Clone for UserAccount {
    fn clone(&self) -> (out: Self)
        ensures
            out@ == self@,
    {
        UserAccount {
            id: self.id,
            email: self.email.clone(),
            credits: self.credits,
            monthly_quota: self.monthly_quota,
            quota_reset_at: self.quota_reset_at,
            free_generation_used: self.free_generation_used,
        }
    }
}

/// A user's standing access to a subscription product, keyed by the provider
/// and the provider's contract identifier.
#[derive(Debug, PartialEq, Eq)]
pub struct Subscription {
    pub id: i32,
    pub user_id: i32,
    pub product_id: i32,
    pub provider: String,
    pub provider_subscription_id: Option<String>,
    pub status: SubscriptionStatus,
    pub current_period_start: Option<i64>,
    pub current_period_end: Option<i64>,
    pub created_at: Option<i64>,
    pub updated_at: Option<i64>,
    pub canceled_at: Option<i64>,
}

/// A subscription as mathematics.
pub struct SubscriptionView {
    pub id: int,
    pub user_id: int,
    pub product_id: int,
    pub provider: Seq<char>,
    pub provider_subscription_id: Option<Seq<char>>,
    pub status: SubscriptionStatus,
    pub current_period_start: Option<int>,
    pub current_period_end: Option<int>,
    pub created_at: Option<int>,
    pub updated_at: Option<int>,
    pub canceled_at: Option<int>,
}

impl View for Subscription {
    type V = SubscriptionView;

    open spec fn view(&self) -> SubscriptionView {
        SubscriptionView {
            id: self.id as int,
            user_id: self.user_id as int,
            product_id: self.product_id as int,
            provider: self.provider@,
            provider_subscription_id: opt_text(self.provider_subscription_id),
            status: self.status,
            current_period_start: opt_time(self.current_period_start),
            current_period_end: opt_time(self.current_period_end),
            created_at: opt_time(self.created_at),
            updated_at: opt_time(self.updated_at),
            canceled_at: opt_time(self.canceled_at),
        }
    }
}

impl Clone for Subscription {
    fn clone(&self) -> (out: Self)
        ensures
            out@ == self@,
    {
        Subscription {
            id: self.id,
            user_id: self.user_id,
            product_id: self.product_id,
            provider: self.provider.clone(),
            provider_subscription_id: clone_opt_text(&self.provider_subscription_id),
            status: self.status,
            current_period_start: self.current_period_start,
            current_period_end: self.current_period_end,
            created_at: self.created_at,
            updated_at: self.updated_at,
            canceled_at: self.canceled_at,
        }
    }
}

/// One purchase attempt or settlement. The provider and the provider's order
/// identifier together identify one payment event.
#[derive(Debug, PartialEq, Eq)]
pub struct Transaction {
    pub id: i32,
    pub user_id: i32,
    pub product_id: Option<i32>,
    pub subscription_id: Option<i32>,
    pub provider: String,
    pub provider_order_id: String,
    /// The contract that a recurring payment renews; `None` for a one-time
    /// purchase.
    pub provider_parent_order_id: Option<String>,
    pub amount: String,
    pub currency: String,
    pub status: TransactionStatus,
    pub tx_type: TransactionType,
    /// The provider's raw events for this transaction, oldest first.
    pub payload: Vec<Json>,
    pub paid_at: Option<i64>,
    pub created_at: Option<i64>,
}

/// A transaction as mathematics.
pub struct TransactionView {
    pub id: int,
    pub user_id: int,
    pub product_id: Option<int>,
    pub subscription_id: Option<int>,
    pub provider: Seq<char>,
    pub provider_order_id: Seq<char>,
    pub provider_parent_order_id: Option<Seq<char>>,
    pub amount: Seq<char>,
    pub currency: Seq<char>,
    pub status: TransactionStatus,
    pub tx_type: TransactionType,
    pub payload: Seq<JsonView>,
    pub paid_at: Option<int>,
    pub created_at: Option<int>,
}

impl View for Transaction {
    type V = TransactionView;

    open spec fn view(&self) -> TransactionView {
        TransactionView {
            id: self.id as int,
            user_id: self.user_id as int,
            product_id: opt_int(self.product_id),
            subscription_id: opt_int(self.subscription_id),
            provider: self.provider@,
            provider_order_id: self.provider_order_id@,
            provider_parent_order_id: opt_text(self.provider_parent_order_id),
            amount: self.amount@,
            currency: self.currency@,
            status: self.status,
            tx_type: self.tx_type,
            payload: views(self.payload@),
            paid_at: opt_time(self.paid_at),
            created_at: opt_time(self.created_at),
        }
    }
}

impl Clone for Transaction {
    fn clone(&self) -> (out: Self)
        ensures
            out@ == self@,
    {
        let mut payload: Vec<Json> = Vec::new();
        let mut i: usize = 0;
        while i < self.payload.len()
            invariant
                i <= self.payload.len(),
                payload@.len() == i,
                forall|k: int| 0 <= k < i ==> payload@[k]@ == self.payload@[k]@,
            decreases self.payload.len() - i,
        {
            payload.push(self.payload[i].clone());
            i += 1;
        }
        assert(views(payload@) =~= views(self.payload@));
        Transaction {
            id: self.id,
            user_id: self.user_id,
            product_id: self.product_id,
            subscription_id: self.subscription_id,
            provider: self.provider.clone(),
            provider_order_id: self.provider_order_id.clone(),
            provider_parent_order_id: clone_opt_text(&self.provider_parent_order_id),
            amount: self.amount.clone(),
            currency: self.currency.clone(),
            status: self.status,
            tx_type: self.tx_type,
            payload,
            paid_at: self.paid_at,
            created_at: self.created_at,
        }
    }
}

} // verus!
