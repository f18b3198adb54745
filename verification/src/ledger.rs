//! The ledger: the store of user accounts, products, subscriptions and
//! transactions that every operation of the crate reads and changes, and the
//! lookups in it.

use vstd::prelude::*;
use crate::models::{
    views, Product, ProductView, Subscription, SubscriptionView, Transaction,
    TransactionView, UserAccount, UserAccountView,
};
use crate::text::str_eq;

verus! {

/// Why the store refused an operation.
#[derive(Clone, Copy, Debug, PartialEq, Eq, Structural)]
pub enum StoreError {
    /// A row that the operation reads does not exist.
    RowNotFound,
    /// A number or an identifier would leave its range.
    OutOfRange,
    /// A row with the same key exists already.
    Conflict,
}

/// The position of the first item at or after `from` that `pred` holds of.
pub open spec fn first_from<T>(items: Seq<T>, pred: spec_fn(T) -> bool, from: int) -> Option<int>
    decreases items.len() - from,
{
    if from < 0 || from >= items.len() {
        None
    } else if pred(items[from]) {
        Some(from)
    } else {
        first_from(items, pred, from + 1)
    }
}

/// What `first_from` finds is the first match; where it finds nothing, nothing
/// matches.
pub proof fn lemma_first_from<T>(items: Seq<T>, pred: spec_fn(T) -> bool, from: int)
    requires
        0 <= from,
    ensures
        match first_from(items, pred, from) {
            Some(i) => from <= i < items.len() && pred(items[i]) && forall|j: int|
                from <= j < i ==> !pred(#[trigger] items[j]),
            None => forall|j: int| from <= j < items.len() ==> !pred(#[trigger] items[j]),
        },
    decreases items.len() - from,
{
    if from < items.len() && !pred(items[from]) {
        lemma_first_from(items, pred, from + 1);
    }
}

/// The first match is what `first_from` finds.
pub proof fn lemma_first_from_is<T>(items: Seq<T>, pred: spec_fn(T) -> bool, from: int, at: int)
    requires
        0 <= from <= at < items.len(),
        pred(items[at]),
        forall|j: int| from <= j < at ==> !pred(#[trigger] items[j]),
    ensures
        first_from(items, pred, from) == Some(at),
    decreases at - from,
{
    if from < at {
        lemma_first_from_is(items, pred, from + 1, at);
    }
}

/// The account has this identifier.
pub open spec fn user_has_id(id: int) -> spec_fn(UserAccountView) -> bool {
    |u: UserAccountView| u.id == id
}

/// The account has this email address.
pub open spec fn user_has_email(email: Seq<char>) -> spec_fn(UserAccountView) -> bool {
    |u: UserAccountView| u.email == email
}

/// The product has this identifier.
pub open spec fn product_has_id(id: int) -> spec_fn(ProductView) -> bool {
    |p: ProductView| p.id == id
}

/// The product is mapped to this offer of the provider.
pub open spec fn product_has_offer(offer: Seq<char>) -> spec_fn(ProductView) -> bool {
    |p: ProductView| p.lava_offer_id == Some(offer)
}

/// The product has this slug.
pub open spec fn product_has_slug(slug: Seq<char>) -> spec_fn(ProductView) -> bool {
    |p: ProductView| p.slug == slug
}

/// The transaction is the provider's order `order`.
pub open spec fn transaction_has_order(provider: Seq<char>, order: Seq<char>) -> spec_fn(
    TransactionView,
) -> bool {
    |t: TransactionView| t.provider == provider && t.provider_order_id == order
}

/// The transaction is the provider's order `contract` or a payment under that
/// contract.
pub open spec fn transaction_under_contract(provider: Seq<char>, contract: Seq<char>) -> spec_fn(
    TransactionView,
) -> bool {
    |t: TransactionView|
        t.provider == provider && (t.provider_order_id == contract || t.provider_parent_order_id
            == Some(contract))
}

/// The subscription is the provider's contract `contract`.
pub open spec fn subscription_has_contract(provider: Seq<char>, contract: Seq<char>) -> spec_fn(
    SubscriptionView,
) -> bool {
    |s: SubscriptionView| s.provider == provider && s.provider_subscription_id == Some(contract)
}

/// The subscription has this identifier and belongs to this user.
pub open spec fn subscription_of_user(id: int, user_id: int) -> spec_fn(SubscriptionView) -> bool {
    |s: SubscriptionView| s.id == id && s.user_id == user_id
}

/// The store.
#[derive(Debug, PartialEq, Eq)]
pub struct Ledger {
    pub users: Vec<UserAccount>,
    pub products: Vec<Product>,
    pub subscriptions: Vec<Subscription>,
    pub transactions: Vec<Transaction>,
    /// The identifier that the next new subscription gets.
    pub next_subscription_id: i32,
    /// The identifier that the next new transaction gets.
    pub next_transaction_id: i32,
}

/// The store as mathematics: its rows in order and the next identifiers.
pub struct LedgerView {
    pub users: Seq<UserAccountView>,
    pub products: Seq<ProductView>,
    pub subscriptions: Seq<SubscriptionView>,
    pub transactions: Seq<TransactionView>,
    pub next_subscription_id: int,
    pub next_transaction_id: int,
}

impl View for Ledger {
    type V = LedgerView;

    open spec fn view(&self) -> LedgerView {
        LedgerView {
            users: views(self.users@),
            products: views(self.products@),
            subscriptions: views(self.subscriptions@),
            transactions: views(self.transactions@),
            next_subscription_id: self.next_subscription_id as int,
            next_transaction_id: self.next_transaction_id as int,
        }
    }
}

impl Clone for Ledger {
    fn clone(&self) -> (out: Self)
        ensures
            out@ == self@,
    {
        let mut users: Vec<UserAccount> = Vec::new();
        let mut i: usize = 0;
        while i < self.users.len()
            invariant
                i <= self.users.len(),
                users@.len() == i,
                forall|k: int| 0 <= k < i ==> users@[k]@ == self.users@[k]@,
            decreases self.users.len() - i,
        {
            users.push(self.users[i].clone());
            i += 1;
        }
        let mut products: Vec<Product> = Vec::new();
        let mut i: usize = 0;
        while i < self.products.len()
            invariant
                i <= self.products.len(),
                products@.len() == i,
                forall|k: int| 0 <= k < i ==> products@[k]@ == self.products@[k]@,
            decreases self.products.len() - i,
        {
            products.push(self.products[i].clone());
            i += 1;
        }
        let mut subscriptions: Vec<Subscription> = Vec::new();
        let mut i: usize = 0;
        while i < self.subscriptions.len()
            invariant
                i <= self.subscriptions.len(),
                subscriptions@.len() == i,
                forall|k: int| 0 <= k < i ==> subscriptions@[k]@ == self.subscriptions@[k]@,
            decreases self.subscriptions.len() - i,
        {
            subscriptions.push(self.subscriptions[i].clone());
            i += 1;
        }
        let mut transactions: Vec<Transaction> = Vec::new();
        let mut i: usize = 0;
        while i < self.transactions.len()
            invariant
                i <= self.transactions.len(),
                transactions@.len() == i,
                forall|k: int| 0 <= k < i ==> transactions@[k]@ == self.transactions@[k]@,
            decreases self.transactions.len() - i,
        {
            transactions.push(self.transactions[i].clone());
            i += 1;
        }
        let out = Ledger {
            users,
            products,
            subscriptions,
            transactions,
            next_subscription_id: self.next_subscription_id,
            next_transaction_id: self.next_transaction_id,
        };
        assert(out@.users =~= self@.users);
        assert(out@.products =~= self@.products);
        assert(out@.subscriptions =~= self@.subscriptions);
        assert(out@.transactions =~= self@.transactions);
        out
    }
}

impl LedgerView {
    /// No two transactions are the same order of the same provider, and every
    /// transaction's identifier is below the next one to be given.
    pub open spec fn transactions_well_formed(self) -> bool {
        &&& forall|i: int, j: int|
            0 <= i < j < self.transactions.len() ==> !(#[trigger] self.transactions[i].provider
                == #[trigger] self.transactions[j].provider && self.transactions[i].provider_order_id
                == self.transactions[j].provider_order_id)
        &&& forall|i: int|
            0 <= i < self.transactions.len() ==> (#[trigger] self.transactions[i]).id
                < self.next_transaction_id
    }

    /// No two subscriptions are the same contract of the same provider, and
    /// every subscription's identifier is below the next one to be given.
    pub open spec fn subscriptions_well_formed(self) -> bool {
        &&& forall|i: int, j: int|
            0 <= i < j < self.subscriptions.len() && (
            #[trigger] self.subscriptions[i]).provider_subscription_id is Some ==> !(
            self.subscriptions[i].provider == (#[trigger] self.subscriptions[j]).provider
                && self.subscriptions[i].provider_subscription_id
                == self.subscriptions[j].provider_subscription_id)
        &&& forall|i: int|
            0 <= i < self.subscriptions.len() ==> (#[trigger] self.subscriptions[i]).id
                < self.next_subscription_id
    }

    /// No balance is negative.
    pub open spec fn balances_well_formed(self) -> bool {
        forall|i: int|
            0 <= i < self.users.len() ==> (#[trigger] self.users[i]).credits >= 0
                && self.users[i].monthly_quota >= 0
    }

    /// No product grants a negative number of credits.
    pub open spec fn products_well_formed(self) -> bool {
        forall|i: int|
            0 <= i < self.products.len() ==> {
                let p = #[trigger] self.products[i];
                &&& (p.credits_granted matches Some(c) ==> c >= 0)
                &&& (p.monthly_credits matches Some(c) ==> c >= 0)
            }
    }

    /// The invariant of the store.
    pub open spec fn well_formed(self) -> bool {
        &&& self.transactions_well_formed()
        &&& self.subscriptions_well_formed()
        &&& self.balances_well_formed()
        &&& self.products_well_formed()
    }
}

impl Ledger {
    /// A store without rows.
    pub fn new() -> (ledger: Ledger)
        ensures
            ledger@.users.len() == 0,
            ledger@.products.len() == 0,
            ledger@.subscriptions.len() == 0,
            ledger@.transactions.len() == 0,
            ledger@.next_subscription_id == 1,
            ledger@.next_transaction_id == 1,
            ledger@.well_formed(),
    {
        Ledger {
            users: Vec::new(),
            products: Vec::new(),
            subscriptions: Vec::new(),
            transactions: Vec::new(),
            next_subscription_id: 1,
            next_transaction_id: 1,
        }
    }

    /// The position of the first account with this identifier.
    pub fn find_user(&self, id: i32) -> (found: Option<usize>)
        ensures
            found matches Some(i) ==> i < self.users.len(),
            match found {
                Some(i) => first_from(self@.users, user_has_id(id as int), 0) == Some(i as int),
                None => first_from(self@.users, user_has_id(id as int), 0) is None,
            },
    {
        let mut i: usize = 0;
        while i < self.users.len()
            invariant
                i <= self.users.len(),
                first_from(self@.users, user_has_id(id as int), 0) == first_from(
                    self@.users,
                    user_has_id(id as int),
                    i as int,
                ),
            decreases self.users.len() - i,
        {
            if self.users[i].id == id {
                return Some(i);
            }
            i += 1;
        }
        None
    }

    /// The position of the first account with this email address.
    pub fn find_user_by_email(&self, email: &str) -> (found: Option<usize>)
        ensures
            found matches Some(i) ==> i < self.users.len(),
            match found {
                Some(i) => first_from(self@.users, user_has_email(email@), 0) == Some(i as int),
                None => first_from(self@.users, user_has_email(email@), 0) is None,
            },
    {
        let mut i: usize = 0;
        while i < self.users.len()
            invariant
                i <= self.users.len(),
                first_from(self@.users, user_has_email(email@), 0) == first_from(
                    self@.users,
                    user_has_email(email@),
                    i as int,
                ),
            decreases self.users.len() - i,
        {
            if str_eq(self.users[i].email.as_str(), email) {
                return Some(i);
            }
            i += 1;
        }
        None
    }

    /// The position of the first product with this identifier.
    pub fn find_product(&self, id: i32) -> (found: Option<usize>)
        ensures
            found matches Some(i) ==> i < self.products.len(),
            match found {
                Some(i) => first_from(self@.products, product_has_id(id as int), 0) == Some(
                    i as int,
                ),
                None => first_from(self@.products, product_has_id(id as int), 0) is None,
            },
    {
        let mut i: usize = 0;
        while i < self.products.len()
            invariant
                i <= self.products.len(),
                first_from(self@.products, product_has_id(id as int), 0) == first_from(
                    self@.products,
                    product_has_id(id as int),
                    i as int,
                ),
            decreases self.products.len() - i,
        {
            if self.products[i].id == id {
                return Some(i);
            }
            i += 1;
        }
        None
    }

    /// The position of the first product mapped to this offer of the provider.
    pub fn find_product_by_offer(&self, offer: &str) -> (found: Option<usize>)
        ensures
            found matches Some(i) ==> i < self.products.len(),
            match found {
                Some(i) => first_from(self@.products, product_has_offer(offer@), 0) == Some(
                    i as int,
                ),
                None => first_from(self@.products, product_has_offer(offer@), 0) is None,
            },
    {
        let mut i: usize = 0;
        while i < self.products.len()
            invariant
                i <= self.products.len(),
                first_from(self@.products, product_has_offer(offer@), 0) == first_from(
                    self@.products,
                    product_has_offer(offer@),
                    i as int,
                ),
            decreases self.products.len() - i,
        {
            let hit = match &self.products[i].lava_offer_id {
                Some(mapped) => str_eq(mapped.as_str(), offer),
                None => false,
            };
            if hit {
                return Some(i);
            }
            i += 1;
        }
        None
    }

    /// The position of the first product with this slug.
    pub fn find_product_by_slug(&self, slug: &str) -> (found: Option<usize>)
        ensures
            found matches Some(i) ==> i < self.products.len(),
            match found {
                Some(i) => first_from(self@.products, product_has_slug(slug@), 0) == Some(i as int),
                None => first_from(self@.products, product_has_slug(slug@), 0) is None,
            },
    {
        let mut i: usize = 0;
        while i < self.products.len()
            invariant
                i <= self.products.len(),
                first_from(self@.products, product_has_slug(slug@), 0) == first_from(
                    self@.products,
                    product_has_slug(slug@),
                    i as int,
                ),
            decreases self.products.len() - i,
        {
            if str_eq(self.products[i].slug.as_str(), slug) {
                return Some(i);
            }
            i += 1;
        }
        None
    }

    /// The position of the transaction that is this order of the provider.
    pub fn find_transaction(&self, provider: &str, order: &str) -> (found: Option<usize>)
        ensures
            found matches Some(i) ==> i < self.transactions.len(),
            match found {
                Some(i) => first_from(
                    self@.transactions,
                    transaction_has_order(provider@, order@),
                    0,
                ) == Some(i as int),
                None => first_from(self@.transactions, transaction_has_order(provider@, order@), 0)
                    is None,
            },
    {
        let mut i: usize = 0;
        while i < self.transactions.len()
            invariant
                i <= self.transactions.len(),
                first_from(self@.transactions, transaction_has_order(provider@, order@), 0)
                    == first_from(
                    self@.transactions,
                    transaction_has_order(provider@, order@),
                    i as int,
                ),
            decreases self.transactions.len() - i,
        {
            if str_eq(self.transactions[i].provider.as_str(), provider) && str_eq(
                self.transactions[i].provider_order_id.as_str(),
                order,
            ) {
                return Some(i);
            }
            i += 1;
        }
        None
    }

    /// The position of the first transaction that is this contract of the
    /// provider or a payment under it.
    pub fn find_transaction_under_contract(&self, provider: &str, contract: &str) -> (found: Option<
        usize,
    >)
        ensures
            found matches Some(i) ==> i < self.transactions.len(),
            match found {
                Some(i) => first_from(
                    self@.transactions,
                    transaction_under_contract(provider@, contract@),
                    0,
                ) == Some(i as int),
                None => first_from(
                    self@.transactions,
                    transaction_under_contract(provider@, contract@),
                    0,
                ) is None,
            },
    {
        let mut i: usize = 0;
        while i < self.transactions.len()
            invariant
                i <= self.transactions.len(),
                first_from(self@.transactions, transaction_under_contract(provider@, contract@), 0)
                    == first_from(
                    self@.transactions,
                    transaction_under_contract(provider@, contract@),
                    i as int,
                ),
            decreases self.transactions.len() - i,
        {
            let t = &self.transactions[i];
            let under = match &t.provider_parent_order_id {
                Some(parent) => str_eq(parent.as_str(), contract),
                None => false,
            };
            if str_eq(t.provider.as_str(), provider) && (str_eq(
                t.provider_order_id.as_str(),
                contract,
            ) || under) {
                return Some(i);
            }
            i += 1;
        }
        None
    }

    /// The position of the subscription that is this contract of the provider.
    pub fn find_subscription(&self, provider: &str, contract: &str) -> (found: Option<usize>)
        ensures
            found matches Some(i) ==> i < self.subscriptions.len(),
            match found {
                Some(i) => first_from(
                    self@.subscriptions,
                    subscription_has_contract(provider@, contract@),
                    0,
                ) == Some(i as int),
                None => first_from(
                    self@.subscriptions,
                    subscription_has_contract(provider@, contract@),
                    0,
                ) is None,
            },
    {
        let mut i: usize = 0;
        while i < self.subscriptions.len()
            invariant
                i <= self.subscriptions.len(),
                first_from(self@.subscriptions, subscription_has_contract(provider@, contract@), 0)
                    == first_from(
                    self@.subscriptions,
                    subscription_has_contract(provider@, contract@),
                    i as int,
                ),
            decreases self.subscriptions.len() - i,
        {
            let s = &self.subscriptions[i];
            let same = match &s.provider_subscription_id {
                Some(id) => str_eq(id.as_str(), contract),
                None => false,
            };
            if str_eq(s.provider.as_str(), provider) && same {
                return Some(i);
            }
            i += 1;
        }
        None
    }

    /// The position of the subscription with this identifier that belongs to
    /// this user.
    pub fn find_subscription_of_user(&self, id: i32, user_id: i32) -> (found: Option<usize>)
        ensures
            found matches Some(i) ==> i < self.subscriptions.len(),
            match found {
                Some(i) => first_from(
                    self@.subscriptions,
                    subscription_of_user(id as int, user_id as int),
                    0,
                ) == Some(i as int),
                None => first_from(
                    self@.subscriptions,
                    subscription_of_user(id as int, user_id as int),
                    0,
                ) is None,
            },
    {
        let mut i: usize = 0;
        while i < self.subscriptions.len()
            invariant
                i <= self.subscriptions.len(),
                first_from(self@.subscriptions, subscription_of_user(id as int, user_id as int), 0)
                    == first_from(
                    self@.subscriptions,
                    subscription_of_user(id as int, user_id as int),
                    i as int,
                ),
            decreases self.subscriptions.len() - i,
        {
            if self.subscriptions[i].id == id && self.subscriptions[i].user_id == user_id {
                return Some(i);
            }
            i += 1;
        }
        None
    }
}

} // verus!
