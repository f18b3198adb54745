//! The provider's public interface: what is sent to it and how its answers
//! are read.

use vstd::prelude::*;
use crate::text::{decimal_text, to_decimal};

verus! {

/// Why a call of the provider failed.
#[derive(Debug, PartialEq, Eq)]
pub enum LavaError {
    /// The request did not get through; the text says why.
    Http(String),
    /// The provider answered with a status that is no success.
    Api { status: u16, body: String },
    /// The provider's answer could not be read.
    InvalidResponse(String),
}

impl LavaError {
    /// The error in words.
    pub open spec fn text(self) -> Seq<char> {
        match self {
            LavaError::Http(e) => "http error: "@ + e@,
            LavaError::Api { status, body } => "lava api error status="@ + decimal_text(
                status as nat,
            ) + " body="@ + body@,
            LavaError::InvalidResponse(e) => "invalid response: "@ + e@,
        }
    }

    /// The error in words.
    pub fn message(&self) -> (message: String)
        ensures
            message@ == self.text(),
    {
        match self {
            LavaError::Http(e) => {
                let mut message = "http error: ".to_string();
                message.append(e.as_str());
                message
            },
            LavaError::Api { status, body } => {
                let mut message = "lava api error status=".to_string();
                message.append(to_decimal(*status as u64).as_str());
                message.append(" body=");
                message.append(body.as_str());
                message
            },
            LavaError::InvalidResponse(e) => {
                let mut message = "invalid response: ".to_string();
                message.append(e.as_str());
                message
            },
        }
    }
}

/// What is sent to open an invoice.
#[derive(Clone, Debug, PartialEq, Eq)]
pub struct CreateInvoiceV3Request {
    pub email: String,
    pub offer_id: String,
    pub currency: String,
    pub payment_provider: Option<String>,
    pub payment_method: Option<String>,
    pub periodicity: Option<String>,
}

/// The provider's answer to an invoice: the contract's identifier, its
/// status and the address where the buyer pays.
#[derive(Clone, Debug, PartialEq, Eq)]
pub struct InvoicePaymentParamsResponse {
    pub id: String,
    pub status: String,
    pub payment_url: Option<String>,
}

/// Whether an HTTP status reports success.
pub open spec fn is_success_status(status: int) -> bool {
    200 <= status < 300
}

/// Reads the provider's answer to an invoice. `parsed` is what the answer's
/// body holds, or why it could not be read. A status that is no success is an
/// error of the provider, whatever the body holds; a body that cannot be read
/// is an invalid response, and the error names the body.
pub fn create_invoice_v3(
    status: u16,
    body: String,
    parsed: Result<InvoicePaymentParamsResponse, String>,
) -> (result: Result<InvoicePaymentParamsResponse, LavaError>)
    ensures
        match result {
            Ok(invoice) => is_success_status(status as int) && parsed == Ok::<
                InvoicePaymentParamsResponse,
                String,
            >(invoice),
            Err(LavaError::Api { status: s, body: b }) => !is_success_status(status as int) && s
                == status && b == body,
            Err(LavaError::InvalidResponse(e)) => is_success_status(status as int) && (
            parsed matches Err(why) && e@ == why@ + "; body="@ + body@),
            Err(LavaError::Http(_)) => false,
        },
{
    if status < 200 || status >= 300 {
        return Err(LavaError::Api { status, body });
    }
    match parsed {
        Ok(invoice) => Ok(invoice),
        Err(why) => {
            let mut text = why;
            text.append("; body=");
            text.append(body.as_str());
            Err(LavaError::InvalidResponse(text))
        },
    }
}

/// Reads the provider's answer to the cancellation of a subscription: the
/// status 204 and every other success are fine, any other status is an error
/// of the provider.
pub fn cancel_subscription(status: u16, body: String) -> (result: Result<(), LavaError>)
    ensures
        result is Ok <==> is_success_status(status as int),
        result matches Err(e) ==> e == (LavaError::Api { status: status, body: body }),
{
    if status == 204 {
        return Ok(());
    }
    if status < 200 || status >= 300 {
        return Err(LavaError::Api { status, body });
    }
    Ok(())
}

/// The provider's offer for a product of ours. No product is mapped here: the
/// mapping is kept with the products in the catalog.
pub fn offer_id_for_product_slug(product_slug: &str) -> (offer: Option<&'static str>)
    ensures
        offer is None,
{
    None
}

} // verus!
