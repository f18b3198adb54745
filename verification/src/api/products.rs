//! The catalog as customers see it.

use vstd::prelude::*;
use crate::ledger::Ledger;
use crate::models::{views, Product, ProductType, ProductView};

verus! {

/// The product is offered for sale; with subscriptions switched off, a
/// subscription product is not.
pub open spec fn product_is_listed(subscriptions_disabled: bool) -> spec_fn(ProductView) -> bool {
    |p: ProductView|
        p.is_active && !(subscriptions_disabled && p.product_type == ProductType::Subscription)
}

/// The products that customers are shown, in the order of the catalog.
pub fn list_products(ledger: &Ledger, subscriptions_disabled: bool) -> (products: Vec<Product>)
    ensures
        views(products@) == ledger@.products.filter(product_is_listed(subscriptions_disabled)),
{
    let mut out: Vec<Product> = Vec::new();
    let mut i: usize = 0;
    assert(ledger@.products.take(0) =~= Seq::empty());
    proof {
        reveal(Seq::filter);
    }
    while i < ledger.products.len()
        invariant
            i <= ledger.products.len(),
            views(out@) == ledger@.products.take(i as int).filter(
                product_is_listed(subscriptions_disabled),
            ),
        decreases ledger.products.len() - i,
    {
        let ghost before = ledger@.products.take(i as int);
        proof {
            before.lemma_filter_push(
                ledger@.products[i as int],
                product_is_listed(subscriptions_disabled),
            );
            assert(ledger@.products.take(i + 1) =~= before.push(ledger@.products[i as int]));
        }
        let p = &ledger.products[i];
        let hidden = subscriptions_disabled && (match p.product_type {
            ProductType::Subscription => true,
            ProductType::OneTime => false,
        });
        if p.is_active && !hidden {
            let ghost shown = views(out@);
            out.push(p.clone());
            assert(views(out@) =~= shown.push(ledger@.products[i as int]));
        }
        i += 1;
    }
    assert(ledger@.products.take(i as int) =~= ledger@.products);
    out
}

} // verus!
