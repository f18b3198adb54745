//! Checkout: what is asked of the provider for a purchase, and the pending
//! transaction that records the purchase until the provider reports on it.

use vstd::prelude::*;
use crate::api::lava_client::{CreateInvoiceV3Request, InvoicePaymentParamsResponse};
use crate::db::{get_product_by_slug, product_is_active_slug};
use crate::json::{lemma_object_view, Json, JsonView};
use crate::ledger::{
    first_from, transaction_has_order, user_has_id, Ledger, LedgerView, StoreError,
};
use crate::models::{
    clone_opt_text, opt_text, Product, ProductType, ProductView, Transaction, TransactionStatus,
    TransactionType, TransactionView,
};
use crate::reconcile::{provider, provider_name};
use crate::text::{
    find_first, first_index, signed_decimal_text, to_chars, to_signed_decimal, trim, trimmed_text,
};

verus! {

/// The body of a purchase.
#[derive(Clone, Debug, PartialEq, Eq)]
pub struct CreatePaymentRequest {
    /// The product to buy.
    pub product_slug: String,
    /// Not used: the buyer's email is the account's.
    pub buyer_email: Option<String>,
    /// How often the buyer pays; every month for a subscription and once for
    /// anything else, unless it is given.
    pub periodicity: Option<String>,
    pub payment_provider: Option<String>,
    pub payment_method: Option<String>,
}

/// Why a purchase is refused.
#[derive(Clone, Copy, Debug, PartialEq, Eq, Structural)]
pub enum PaymentRejection {
    /// No product is offered under the slug.
    InvalidProduct,
    /// The product is a subscription and subscriptions are switched off.
    SubscriptionsDisabled,
    /// The buyer has no account.
    UserNotFound,
    /// The account's email holds no `@` or no `.`.
    InvalidBuyerEmail,
    /// The product is not mapped to an offer of the provider.
    ProductNotMapped,
}

/// Whether a text holds the character.
pub open spec fn holds_char(s: Seq<char>, c: char) -> bool {
    first_index(s, c, 0) is Some
}

/// Whether an email can be a buyer's: it holds `@` and `.`.
pub open spec fn is_buyer_email(email: Seq<char>) -> bool {
    holds_char(email, '@') && holds_char(email, '.')
}

/// How often the buyer of a product pays unless the purchase says so.
pub open spec fn default_periodicity(product_type: ProductType) -> Seq<char> {
    match product_type {
        ProductType::Subscription => "MONTHLY"@,
        ProductType::OneTime => "ONE_TIME"@,
    }
}

/// What a purchase leads to: the invoice to ask of the provider, or the
/// reason why it is refused.
pub open spec fn payment_plan(
    ledger: LedgerView,
    user_id: int,
    product_slug: Seq<char>,
    periodicity: Option<Seq<char>>,
    subscriptions_disabled: bool,
) -> Result<(int, Seq<char>, Seq<char>, Seq<char>), PaymentRejection> {
    match first_from(ledger.products, product_is_active_slug(product_slug), 0) {
        None => Err(PaymentRejection::InvalidProduct),
        Some(p) => {
            let product = ledger.products[p];
            if product.product_type == ProductType::Subscription && subscriptions_disabled {
                Err(PaymentRejection::SubscriptionsDisabled)
            } else {
                match first_from(ledger.users, user_has_id(user_id), 0) {
                    None => Err(PaymentRejection::UserNotFound),
                    Some(u) => {
                        let email = trimmed_text(ledger.users[u].email);
                        if !is_buyer_email(email) {
                            Err(PaymentRejection::InvalidBuyerEmail)
                        } else {
                            match product.lava_offer_id {
                                None => Err(PaymentRejection::ProductNotMapped),
                                Some(offer) => Ok(
                                    (
                                        p,
                                        email,
                                        offer,
                                        match periodicity {
                                            Some(given) => given,
                                            None => default_periodicity(product.product_type),
                                        },
                                    ),
                                ),
                            }
                        }
                    },
                }
            }
        },
    }
}

/// Plans a purchase: finds the product and the buyer and says what invoice to
/// ask of the provider.
pub fn create_payment(
    ledger: &Ledger,
    user_id: i32,
    request: &CreatePaymentRequest,
    subscriptions_disabled: bool,
) -> (plan: Result<(Product, CreateInvoiceV3Request), PaymentRejection>)
    ensures
        match plan {
            Ok((product, invoice)) => payment_plan(
                ledger@,
                user_id as int,
                request.product_slug@,
                opt_text(request.periodicity),
                subscriptions_disabled,
            ) matches Ok((p, email, offer, periodicity)) && {
                &&& product@ == ledger@.products[p]
                &&& invoice.email@ == email
                &&& invoice.offer_id@ == offer
                &&& invoice.currency@ == product@.currency
                &&& opt_text(invoice.payment_provider) == opt_text(request.payment_provider)
                &&& opt_text(invoice.payment_method) == opt_text(request.payment_method)
                &&& opt_text(invoice.periodicity) == Some(periodicity)
            },
            Err(rejection) => payment_plan(
                ledger@,
                user_id as int,
                request.product_slug@,
                opt_text(request.periodicity),
                subscriptions_disabled,
            ) == Err::<(int, Seq<char>, Seq<char>, Seq<char>), PaymentRejection>(rejection),
        },
{
    let product = match get_product_by_slug(ledger, request.product_slug.as_str()) {
        Some(product) => product,
        None => {
            return Err(PaymentRejection::InvalidProduct);
        },
    };
    let is_subscription = match product.product_type {
        ProductType::Subscription => true,
        ProductType::OneTime => false,
    };
    if is_subscription && subscriptions_disabled {
        return Err(PaymentRejection::SubscriptionsDisabled);
    }
    let u = match ledger.find_user(user_id) {
        Some(u) => u,
        None => {
            return Err(PaymentRejection::UserNotFound);
        },
    };
    let email = trim(ledger.users[u].email.as_str());
    let chars = to_chars(email.as_str());
    if find_first(&chars, '@', 0).is_none() || find_first(&chars, '.', 0).is_none() {
        return Err(PaymentRejection::InvalidBuyerEmail);
    }
    let offer_id = match &product.lava_offer_id {
        Some(offer) => offer.clone(),
        None => {
            return Err(PaymentRejection::ProductNotMapped);
        },
    };
    let periodicity = match &request.periodicity {
        Some(given) => given.clone(),
        None => if is_subscription {
            "MONTHLY".to_string()
        } else {
            "ONE_TIME".to_string()
        },
    };
    let invoice = CreateInvoiceV3Request {
        email,
        offer_id,
        currency: product.currency.clone(),
        payment_provider: clone_opt_text(&request.payment_provider),
        payment_method: clone_opt_text(&request.payment_method),
        periodicity: Some(periodicity),
    };
    Ok((product, invoice))
}

/// What a pending transaction records of the purchase that opened it.
pub open spec fn purchase_record(
    user_id: int,
    buyer_email: Seq<char>,
    product: ProductView,
    offer: Seq<char>,
    contract: Seq<char>,
    contract_status: Seq<char>,
) -> JsonView {
    JsonView::Object(
        seq![
            ("user_id"@, JsonView::Number(signed_decimal_text(user_id))),
            ("buyer_email"@, JsonView::Text(buyer_email)),
            ("product_slug"@, JsonView::Text(product.slug)),
            ("product_type"@, JsonView::Text(product.product_type.text())),
            ("lava_offer_id"@, JsonView::Text(offer)),
            ("lava_contract_id"@, JsonView::Text(contract)),
            ("lava_status"@, JsonView::Text(contract_status)),
        ],
    )
}

/// Whether a purchase cannot be recorded, and why: the provider's contract is
/// in the ledger already, or no identifier is left.
pub open spec fn record_refused(ledger: LedgerView, contract: Seq<char>) -> Option<StoreError> {
    if first_from(ledger.transactions, transaction_has_order(provider_name(), contract), 0)
        is Some {
        Some(StoreError::Conflict)
    } else if ledger.next_transaction_id >= i32::MAX {
        Some(StoreError::OutOfRange)
    } else {
        None
    }
}

/// The ledger after a purchase was recorded: a pending transaction for the
/// provider's contract, with the product's price, stored behind the others. A
/// subscription's first contract is its own parent.
pub open spec fn with_purchase_recorded(
    ledger: LedgerView,
    user_id: int,
    buyer_email: Seq<char>,
    product: ProductView,
    offer: Seq<char>,
    contract: Seq<char>,
    contract_status: Seq<char>,
    now: int,
) -> LedgerView {
    LedgerView {
        transactions: ledger.transactions.push(
            TransactionView {
                id: ledger.next_transaction_id,
                user_id: user_id,
                product_id: Some(product.id),
                subscription_id: None,
                provider: provider_name(),
                provider_order_id: contract,
                provider_parent_order_id: if product.product_type == ProductType::Subscription {
                    Some(contract)
                } else {
                    None
                },
                amount: product.price,
                currency: product.currency,
                status: TransactionStatus::Pending,
                tx_type: TransactionType::Payment,
                payload: seq![
                    purchase_record(user_id, buyer_email, product, offer, contract, contract_status),
                ],
                paid_at: None,
                created_at: Some(now),
            },
        ),
        next_transaction_id: ledger.next_transaction_id + 1,
        ..ledger
    }
}

/// Records a purchase for which the provider opened the contract `invoice`
/// and returns the identifier of the pending transaction.
pub fn record_payment(
    ledger: &mut Ledger,
    user_id: i32,
    product: &Product,
    request: &CreateInvoiceV3Request,
    invoice: &InvoicePaymentParamsResponse,
    now: i64,
) -> (id: Result<i32, StoreError>)
    ensures
        match id {
            Ok(id) => record_refused(old(ledger)@, invoice.id@) is None && id == old(
                ledger,
            )@.next_transaction_id && final(ledger)@ == with_purchase_recorded(
                old(ledger)@,
                user_id as int,
                request.email@,
                product@,
                request.offer_id@,
                invoice.id@,
                invoice.status@,
                now as int,
            ),
            Err(e) => record_refused(old(ledger)@, invoice.id@) == Some(e) && final(ledger)@ == old(
                ledger,
            )@,
        },
        old(ledger)@.well_formed() ==> final(ledger)@.well_formed(),
{
    proof {
        if ledger@.well_formed() && record_refused(ledger@, invoice.id@) is None {
            crate::invariants::lemma_record_keeps_invariant(
                ledger@,
                user_id as int,
                request.email@,
                product@,
                request.offer_id@,
                invoice.id@,
                invoice.status@,
                now as int,
            );
        }
    }
    if ledger.find_transaction(provider(), invoice.id.as_str()).is_some() {
        return Err(StoreError::Conflict);
    }
    if ledger.next_transaction_id >= i32::MAX {
        return Err(StoreError::OutOfRange);
    }
    let id = ledger.next_transaction_id;
    let mut members: Vec<(String, Json)> = Vec::new();
    members.push(("user_id".to_string(), Json::Number(to_signed_decimal(user_id))));
    members.push(("buyer_email".to_string(), Json::Text(request.email.clone())));
    members.push(("product_slug".to_string(), Json::Text(product.slug.clone())));
    members.push(
        ("product_type".to_string(), Json::Text(product.product_type.as_str().to_string())),
    );
    members.push(("lava_offer_id".to_string(), Json::Text(request.offer_id.clone())));
    members.push(("lava_contract_id".to_string(), Json::Text(invoice.id.clone())));
    members.push(("lava_status".to_string(), Json::Text(invoice.status.clone())));
    let record = Json::Object(members);
    proof {
        lemma_object_view(members);
        assert(record@->Object_0 =~= purchase_record(
            user_id as int,
            request.email@,
            product@,
            request.offer_id@,
            invoice.id@,
            invoice.status@,
        )->Object_0);
    }
    let parent = match product.product_type {
        ProductType::Subscription => Some(invoice.id.clone()),
        ProductType::OneTime => None,
    };
    let mut payload: Vec<Json> = Vec::new();
    payload.push(record);
    let transaction = Transaction {
        id,
        user_id,
        product_id: Some(product.id),
        subscription_id: None,
        provider: provider().to_string(),
        provider_order_id: invoice.id.clone(),
        provider_parent_order_id: parent,
        amount: product.price.clone(),
        currency: product.currency.clone(),
        status: TransactionStatus::Pending,
        tx_type: TransactionType::Payment,
        payload,
        paid_at: None,
        created_at: Some(now),
    };
    assert(transaction@.payload =~= seq![record@]);
    ledger.transactions.push(transaction);
    ledger.next_transaction_id = id + 1;
    assert(ledger@.transactions =~= with_purchase_recorded(
        old(ledger)@,
        user_id as int,
        request.email@,
        product@,
        request.offer_id@,
        invoice.id@,
        invoice.status@,
        now as int,
    ).transactions);
    Ok(id)
}

} // verus!
