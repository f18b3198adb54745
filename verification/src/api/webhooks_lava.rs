//! Payment webhooks of the provider: reading a notification into a canonical
//! event, classifying it, and reconciling it with the ledger so that every
//! payment takes effect exactly once.

use vstd::prelude::*;
use crate::json::{
    decode_form, decode_json, form_decoded, form_object, json_decoded, last_pair_value,
    last_value, opt_json, opt_json_owned, Json, JsonView,
};
use crate::ledger::{Ledger, LedgerView};
use crate::models::opt_text;
use crate::reconcile::{reconcile, reconciled, Outcome};
use crate::text::{
    lowercase_text, opt_str, str_eq, to_chars, to_lowercase, to_uppercase, trim, trimmed_text,
    uppercase_text,
};

verus! {

/// The views of texts, in order.
pub open spec fn key_views(keys: Seq<&str>) -> Seq<Seq<char>> {
    Seq::new(keys.len(), |i: int| keys[i]@)
}

/// The member `key` of the member `container`.
pub open spec fn member_in(raw: JsonView, container: Seq<char>, key: Seq<char>) -> Option<JsonView> {
    match raw.member(container) {
        Some(inner) => inner.member(key),
        None => None,
    }
}

/// The member `key` of the notification: at the top, else under `data`, else
/// under `payload`.
pub open spec fn nested(raw: JsonView, key: Seq<char>) -> Option<JsonView> {
    match raw.member(key) {
        Some(v) => Some(v),
        None => match member_in(raw, "data"@, key) {
            Some(v) => Some(v),
            None => member_in(raw, "payload"@, key),
        },
    }
}

/// The value reached from `raw` by the members that `path` names from
/// position `from` on.
pub open spec fn at_path(raw: JsonView, path: Seq<Seq<char>>, from: int) -> Option<JsonView>
    decreases path.len() - from,
{
    if from < 0 || from >= path.len() {
        Some(raw)
    } else {
        match raw.member(path[from]) {
            Some(v) => at_path(v, path, from + 1),
            None => None,
        }
    }
}

/// The text, without surrounding whitespace, of a scalar; nothing for any
/// other value and for a scalar whose text is then empty.
pub open spec fn clean_text(value: Option<JsonView>) -> Option<Seq<char>> {
    match value {
        Some(v) => match v.scalar_text() {
            Some(s) => if trimmed_text(s).len() > 0 {
                Some(trimmed_text(s))
            } else {
                None
            },
            None => None,
        },
        None => None,
    }
}

/// The text of the first of `keys`, from position `from` on, under which the
/// notification holds a scalar with a text.
pub open spec fn alias_text(raw: JsonView, keys: Seq<Seq<char>>, from: int) -> Option<Seq<char>>
    decreases keys.len() - from,
{
    if from < 0 || from >= keys.len() {
        None
    } else {
        match clean_text(nested(raw, keys[from])) {
            Some(s) => Some(s),
            None => alias_text(raw, keys, from + 1),
        }
    }
}

/// The boolean that a word in lower case states: `true`, `1` and `yes` say
/// yes, `false`, `0` and `no` say no, any other word says nothing.
pub open spec fn word_flag(word: Seq<char>) -> Option<bool> {
    if word == "true"@ || word == "1"@ || word == "yes"@ {
        Some(true)
    } else if word == "false"@ || word == "0"@ || word == "no"@ {
        Some(false)
    } else {
        None
    }
}

/// The boolean that a value states: a boolean itself, or a text that is a
/// word for yes or no in any letter case.
pub open spec fn flag_of(value: Option<JsonView>) -> Option<bool> {
    match value {
        Some(JsonView::Bool(b)) => Some(b),
        Some(JsonView::Text(s)) => word_flag(lowercase_text(s)),
        _ => None,
    }
}

/// The boolean of the first of `keys`, from position `from` on, under which
/// the notification states one.
pub open spec fn alias_flag(raw: JsonView, keys: Seq<Seq<char>>, from: int) -> Option<bool>
    decreases keys.len() - from,
{
    if from < 0 || from >= keys.len() {
        None
    } else {
        match flag_of(nested(raw, keys[from])) {
            Some(b) => Some(b),
            None => alias_flag(raw, keys, from + 1),
        }
    }
}

/// Whether a text starts like a JSON object or array.
pub open spec fn starts_structured(s: Seq<char>) -> bool {
    s.len() > 0 && (s[0] == '{' || s[0] == '[')
}

/// Whether a text, whitespace aside, starts like a JSON object or array.
pub open spec fn looks_structured(s: Seq<char>) -> bool {
    starts_structured(trimmed_text(s))
}

/// The custom fields of a notification: the member `customFields`, else
/// `custom_fields`. A text that holds a JSON object or array stands for that
/// value; any other value stands for itself.
pub open spec fn custom_fields_of(raw: JsonView) -> Option<JsonView> {
    let found = match nested(raw, "customFields"@) {
        Some(v) => Some(v),
        None => nested(raw, "custom_fields"@),
    };
    match found {
        Some(JsonView::Text(s)) => if looks_structured(s) {
            match json_decoded(vstd::utf8::encode_utf8(s)) {
                Some(decoded) => Some(decoded),
                None => Some(JsonView::Text(s)),
            }
        } else {
            Some(JsonView::Text(s))
        },
        Some(v) => Some(v),
        None => None,
    }
}

/// The text in lower case.
pub open spec fn opt_lower(text: Option<Seq<char>>) -> Option<Seq<char>> {
    match text {
        Some(t) => Some(lowercase_text(t)),
        None => None,
    }
}

/// The text in upper case.
pub open spec fn opt_upper(text: Option<Seq<char>>) -> Option<Seq<char>> {
    match text {
        Some(t) => Some(uppercase_text(t)),
        None => None,
    }
}

/// The first of two optional texts that is there.
pub open spec fn or_text(first: Option<Seq<char>>, second: Option<Seq<char>>) -> Option<Seq<char>> {
    match first {
        Some(t) => Some(t),
        None => second,
    }
}

/// A payment notification in canonical form. Every field may be missing; the
/// notification itself is kept whole in `raw`.
#[derive(Debug, PartialEq, Eq)]
pub struct NormalizedLavaWebhook {
    pub event_type: Option<String>,
    pub order_id: Option<String>,
    pub parent_order_id: Option<String>,
    pub status: Option<String>,
    pub paid: Option<bool>,
    pub amount: Option<String>,
    pub currency: Option<String>,
    pub buyer_email: Option<String>,
    pub product_offer_id: Option<String>,
    pub custom_fields: Option<Json>,
    pub raw: Json,
}

/// A canonical payment notification as mathematics.
pub struct NormalizedLavaWebhookView {
    pub event_type: Option<Seq<char>>,
    pub order_id: Option<Seq<char>>,
    pub parent_order_id: Option<Seq<char>>,
    pub status: Option<Seq<char>>,
    pub paid: Option<bool>,
    pub amount: Option<Seq<char>>,
    pub currency: Option<Seq<char>>,
    pub buyer_email: Option<Seq<char>>,
    pub product_offer_id: Option<Seq<char>>,
    pub custom_fields: Option<JsonView>,
    pub raw: JsonView,
}

impl View for NormalizedLavaWebhook {
    type V = NormalizedLavaWebhookView;

    open spec fn view(&self) -> NormalizedLavaWebhookView {
        NormalizedLavaWebhookView {
            event_type: opt_text(self.event_type),
            order_id: opt_text(self.order_id),
            parent_order_id: opt_text(self.parent_order_id),
            status: opt_text(self.status),
            paid: self.paid,
            amount: opt_text(self.amount),
            currency: opt_text(self.currency),
            buyer_email: opt_text(self.buyer_email),
            product_offer_id: opt_text(self.product_offer_id),
            custom_fields: opt_json_owned(self.custom_fields),
            raw: self.raw@,
        }
    }
}

/// The canonical form of a notification. Each field is the first of its
/// aliases that holds a text, read at the top of the notification or under
/// `data` or `payload`; the buyer's email and the offer are read first from
/// `buyer.email` and `product.id`. Texts lose surrounding whitespace; the
/// event type is put in lower case and the currency in upper case.
pub open spec fn normalized(raw: JsonView) -> NormalizedLavaWebhookView {
    NormalizedLavaWebhookView {
        event_type: opt_lower(
            alias_text(raw, seq!["type"@, "eventType"@, "event_type"@, "event"@], 0),
        ),
        order_id: alias_text(
            raw,
            seq![
                "orderId"@,
                "order_id"@,
                "contractId"@,
                "contract_id"@,
                "invoiceId"@,
                "invoice_id"@,
                "paymentId"@,
                "payment_id"@,
                "id"@,
            ],
            0,
        ),
        parent_order_id: alias_text(
            raw,
            seq!["parentContractId"@, "parent_contract_id"@, "parentOrderId"@, "parent_order_id"@],
            0,
        ),
        status: alias_text(
            raw,
            seq!["status"@, "paymentStatus"@, "payment_status"@, "result"@],
            0,
        ),
        paid: alias_flag(raw, seq!["paid"@, "isPaid"@, "success"@], 0),
        amount: alias_text(raw, seq!["amount"@, "sum"@, "price"@], 0),
        currency: opt_upper(alias_text(raw, seq!["currency"@], 0)),
        buyer_email: or_text(
            clean_text(at_path(raw, seq!["buyer"@, "email"@], 0)),
            alias_text(raw, seq!["buyerEmail"@, "buyer_email"@, "email"@], 0),
        ),
        product_offer_id: or_text(
            clean_text(at_path(raw, seq!["product"@, "id"@], 0)),
            alias_text(raw, seq!["productId"@, "product_id"@, "offerId"@, "offer_id"@], 0),
        ),
        custom_fields: custom_fields_of(raw),
        raw: raw,
    }
}

/// What a webhook body holds: the JSON value that it spells, else the object
/// of the form pairs that it spells, else an error.
pub open spec fn parsed_body(body: Seq<u8>) -> Result<JsonView, Seq<char>> {
    if body.len() == 0 {
        Err("empty body"@)
    } else {
        match json_decoded(body) {
            Some(value) => Ok(value),
            None => match form_decoded(body) {
                Ok(pairs) => Ok(form_object(pairs)),
                Err(message) => Err("invalid body: "@ + message),
            },
        }
    }
}

/// Reads a webhook body: as JSON first, then as a form.
pub fn parse_webhook_body(body: &[u8]) -> (result: Result<Json, String>)
    ensures
        match result {
            Ok(value) => parsed_body(body@) == Ok::<JsonView, Seq<char>>(value@),
            Err(message) => parsed_body(body@) == Err::<JsonView, Seq<char>>(message@),
        },
{
    if body.len() == 0 {
        return Err("empty body".to_string());
    }
    if let Some(value) = decode_json(body) {
        return Ok(value);
    }
    match decode_form(body) {
        Ok(pairs) => Ok(Json::from_pairs(&pairs)),
        Err(message) => {
            let mut text = "invalid body: ".to_string();
            text.append(message.as_str());
            Err(text)
        },
    }
}

/// The member `key` of the notification: at the top, else under `data`, else
/// under `payload`.
pub fn get_nested<'a>(raw: &'a Json, key: &str) -> (found: Option<&'a Json>)
    ensures
        opt_json(found) == nested(raw@, key@),
{
    if let Some(v) = raw.get(key) {
        return Some(v);
    }
    if let Some(inner) = raw.get("data") {
        if let Some(v) = inner.get(key) {
            return Some(v);
        }
    }
    if let Some(inner) = raw.get("payload") {
        if let Some(v) = inner.get(key) {
            return Some(v);
        }
    }
    None
}

/// The value reached from `raw` by the members that `path` names.
pub fn get_nested_path<'a>(raw: &'a Json, path: &[&str]) -> (found: Option<&'a Json>)
    ensures
        opt_json(found) == at_path(raw@, key_views(path@), 0),
{
    let mut current = raw;
    let mut i: usize = 0;
    while i < path.len()
        invariant
            i <= path.len(),
            at_path(raw@, key_views(path@), 0) == at_path(current@, key_views(path@), i as int),
        decreases path.len() - i,
    {
        match current.get(path[i]) {
            Some(v) => {
                current = v;
            },
            None => {
                return None;
            },
        }
        i += 1;
    }
    Some(current)
}

/// The text of a scalar value.
pub fn value_to_string(value: &Json) -> (text: Option<String>)
    ensures
        opt_text(text) == value@.scalar_text(),
{
    value.to_text()
}

/// The text, without surrounding whitespace, of a scalar.
pub fn clean_value_text(value: Option<&Json>) -> (text: Option<String>)
    ensures
        opt_text(text) == clean_text(opt_json(value)),
{
    match value {
        Some(v) => match v.to_text() {
            Some(s) => {
                let t = trim(s.as_str());
                if t.as_str().unicode_len() > 0 {
                    Some(t)
                } else {
                    None
                }
            },
            None => None,
        },
        None => None,
    }
}

/// The text of the first of `keys` under which the notification holds a
/// scalar with a text.
pub fn extract_string(raw: &Json, keys: &[&str]) -> (text: Option<String>)
    ensures
        opt_text(text) == alias_text(raw@, key_views(keys@), 0),
{
    let mut i: usize = 0;
    while i < keys.len()
        invariant
            i <= keys.len(),
            alias_text(raw@, key_views(keys@), 0) == alias_text(raw@, key_views(keys@), i as int),
        decreases keys.len() - i,
    {
        if let Some(s) = clean_value_text(get_nested(raw, keys[i])) {
            return Some(s);
        }
        i += 1;
    }
    None
}

/// The boolean that a word in lower case states.
pub fn flag_word(word: &str) -> (flag: Option<bool>)
    ensures
        flag == word_flag(word@),
{
    if str_eq(word, "true") || str_eq(word, "1") || str_eq(word, "yes") {
        Some(true)
    } else if str_eq(word, "false") || str_eq(word, "0") || str_eq(word, "no") {
        Some(false)
    } else {
        None
    }
}

/// The boolean that a value states.
pub fn value_flag(value: Option<&Json>) -> (flag: Option<bool>)
    ensures
        flag == flag_of(opt_json(value)),
{
    match value {
        Some(Json::Bool(b)) => Some(*b),
        Some(Json::Text(s)) => flag_word(to_lowercase(s.as_str()).as_str()),
        _ => None,
    }
}

/// Whether a text starts like a JSON object or array.
pub fn text_starts_structured(text: &str) -> (yes: bool)
    ensures
        yes == starts_structured(text@),
{
    let chars = to_chars(text);
    chars.len() > 0 && (chars[0] == '{' || chars[0] == '[')
}

/// The boolean of the first of `keys` under which the notification states
/// one.
pub fn extract_bool(raw: &Json, keys: &[&str]) -> (flag: Option<bool>)
    ensures
        flag == alias_flag(raw@, key_views(keys@), 0),
{
    let mut i: usize = 0;
    while i < keys.len()
        invariant
            i <= keys.len(),
            alias_flag(raw@, key_views(keys@), 0) == alias_flag(raw@, key_views(keys@), i as int),
        decreases keys.len() - i,
    {
        if let Some(b) = value_flag(get_nested(raw, keys[i])) {
            return Some(b);
        }
        i += 1;
    }
    None
}

/// The custom fields of a notification.
pub fn extract_custom_fields(raw: &Json) -> (fields: Option<Json>)
    ensures
        opt_json_owned(fields) == custom_fields_of(raw@),
{
    let found = match get_nested(raw, "customFields") {
        Some(v) => Some(v),
        None => get_nested(raw, "custom_fields"),
    };
    match found {
        Some(Json::Text(s)) => {
            if text_starts_structured(trim(s.as_str()).as_str()) {
                match decode_json(s.as_str().as_bytes()) {
                    Some(decoded) => Some(decoded),
                    None => Some(Json::Text(s.clone())),
                }
            } else {
                Some(Json::Text(s.clone()))
            }
        },
        Some(v) => Some(v.clone()),
        None => None,
    }
}

/// Puts a notification into canonical form.
pub fn normalize_payload(raw: Json) -> (event: NormalizedLavaWebhook)
    ensures
        event@ == normalized(raw@),
{
    let type_keys = ["type", "eventType", "event_type", "event"];
    let order_keys = [
        "orderId",
        "order_id",
        "contractId",
        "contract_id",
        "invoiceId",
        "invoice_id",
        "paymentId",
        "payment_id",
        "id",
    ];
    let parent_keys = ["parentContractId", "parent_contract_id", "parentOrderId", "parent_order_id"];
    let status_keys = ["status", "paymentStatus", "payment_status", "result"];
    let paid_keys = ["paid", "isPaid", "success"];
    let amount_keys = ["amount", "sum", "price"];
    let currency_keys = ["currency"];
    let buyer_path = ["buyer", "email"];
    let buyer_keys = ["buyerEmail", "buyer_email", "email"];
    let product_path = ["product", "id"];
    let product_keys = ["productId", "product_id", "offerId", "offer_id"];
    proof {
        assert(key_views(type_keys@) =~= seq!["type"@, "eventType"@, "event_type"@, "event"@]);
        assert(key_views(order_keys@) =~= seq![
            "orderId"@,
            "order_id"@,
            "contractId"@,
            "contract_id"@,
            "invoiceId"@,
            "invoice_id"@,
            "paymentId"@,
            "payment_id"@,
            "id"@,
        ]);
        assert(key_views(parent_keys@) =~= seq![
            "parentContractId"@,
            "parent_contract_id"@,
            "parentOrderId"@,
            "parent_order_id"@,
        ]);
        assert(key_views(status_keys@) =~= seq![
            "status"@,
            "paymentStatus"@,
            "payment_status"@,
            "result"@,
        ]);
        assert(key_views(paid_keys@) =~= seq!["paid"@, "isPaid"@, "success"@]);
        assert(key_views(amount_keys@) =~= seq!["amount"@, "sum"@, "price"@]);
        assert(key_views(currency_keys@) =~= seq!["currency"@]);
        assert(key_views(buyer_path@) =~= seq!["buyer"@, "email"@]);
        assert(key_views(buyer_keys@) =~= seq!["buyerEmail"@, "buyer_email"@, "email"@]);
        assert(key_views(product_path@) =~= seq!["product"@, "id"@]);
        assert(key_views(product_keys@) =~= seq![
            "productId"@,
            "product_id"@,
            "offerId"@,
            "offer_id"@,
        ]);
    }
    let event_type = match extract_string(&raw, &type_keys) {
        Some(t) => Some(to_lowercase(t.as_str())),
        None => None,
    };
    let order_id = extract_string(&raw, &order_keys);
    let parent_order_id = extract_string(&raw, &parent_keys);
    let buyer_email = match clean_value_text(get_nested_path(&raw, &buyer_path)) {
        Some(t) => Some(t),
        None => extract_string(&raw, &buyer_keys),
    };
    let product_offer_id = match clean_value_text(get_nested_path(&raw, &product_path)) {
        Some(t) => Some(t),
        None => extract_string(&raw, &product_keys),
    };
    let status = extract_string(&raw, &status_keys);
    let paid = extract_bool(&raw, &paid_keys);
    let amount = extract_string(&raw, &amount_keys);
    let currency = match extract_string(&raw, &currency_keys) {
        Some(c) => Some(to_uppercase(c.as_str())),
        None => None,
    };
    let custom_fields = extract_custom_fields(&raw);
    NormalizedLavaWebhook {
        event_type,
        order_id,
        parent_order_id,
        status,
        paid,
        amount,
        currency,
        buyer_email,
        product_offer_id,
        custom_fields,
        raw,
    }
}

/// The text of a scalar as it stands; nothing for any other value and for a
/// scalar whose text is empty.
pub open spec fn plain_text(value: Option<JsonView>) -> Option<Seq<char>> {
    match value {
        Some(v) => match v.scalar_text() {
            Some(s) => if s.len() > 0 {
                Some(s)
            } else {
                None
            },
            None => None,
        },
        None => None,
    }
}

/// The text, as it stands, of the first of `keys`, from position `from` on,
/// under which the notification holds a scalar whose text is not empty.
pub open spec fn plain_alias_text(raw: JsonView, keys: Seq<Seq<char>>, from: int) -> Option<
    Seq<char>,
>
    decreases keys.len() - from,
{
    if from < 0 || from >= keys.len() {
        None
    } else {
        match plain_text(nested(raw, keys[from])) {
            Some(s) => Some(s),
            None => plain_alias_text(raw, keys, from + 1),
        }
    }
}

/// The text of a scalar as it stands.
pub fn plain_value_text(value: Option<&Json>) -> (text: Option<String>)
    ensures
        opt_text(text) == plain_text(opt_json(value)),
{
    match value {
        Some(v) => match v.to_text() {
            Some(s) => if s.as_str().unicode_len() > 0 {
                Some(s)
            } else {
                None
            },
            None => None,
        },
        None => None,
    }
}

/// The text, as it stands, of the first of `keys` under which the
/// notification holds a scalar whose text is not empty.
pub fn extract_plain_string(raw: &Json, keys: &[&str]) -> (text: Option<String>)
    ensures
        opt_text(text) == plain_alias_text(raw@, key_views(keys@), 0),
{
    let mut i: usize = 0;
    while i < keys.len()
        invariant
            i <= keys.len(),
            plain_alias_text(raw@, key_views(keys@), 0) == plain_alias_text(
                raw@,
                key_views(keys@),
                i as int,
            ),
        decreases keys.len() - i,
    {
        if let Some(s) = plain_value_text(get_nested(raw, keys[i])) {
            return Some(s);
        }
        i += 1;
    }
    None
}

/// The key that a request was sent with. Wherever it is found, it is taken
/// as it stands: whitespace around a key is part of the key.
pub open spec fn api_key_of(header: Option<Seq<char>>, query: Seq<char>, raw: JsonView) -> Option<
    Seq<char>,
> {
    match header {
        Some(h) => Some(h),
        None => {
            let in_query = match form_decoded(vstd::utf8::encode_utf8(query)) {
                Ok(pairs) => or_text(
                    last_value(pairs, "api_key"@, pairs.len() as int),
                    last_value(pairs, "apiKey"@, pairs.len() as int),
                ),
                Err(_) => None,
            };
            match in_query {
                Some(k) => Some(k),
                None => plain_alias_text(raw, seq!["apiKey"@, "api_key"@, "key"@], 0),
            }
        },
    }
}

/// The key that a request was sent with: the value of the header
/// `X-Api-Key`, else the query parameter `api_key` or `apiKey`, else the
/// first field `apiKey`, `api_key` or `key` of the notification that holds a
/// text. The key is never trimmed.
pub fn extract_api_key(header: Option<&str>, query: &str, payload: &Json) -> (key: Option<String>)
    ensures
        opt_text(key) == api_key_of(opt_str(header), query@, payload@),
{
    if let Some(h) = header {
        return Some(h.to_string());
    }
    if let Ok(pairs) = decode_form(query.as_bytes()) {
        let in_query = match last_pair_value(&pairs, "api_key") {
            Some(k) => Some(k),
            None => last_pair_value(&pairs, "apiKey"),
        };
        if let Some(k) = in_query {
            return Some(k);
        }
    }
    let keys = ["apiKey", "api_key", "key"];
    assert(key_views(keys@) =~= seq!["apiKey"@, "api_key"@, "key"@]);
    extract_plain_string(payload, &keys)
}

/// What a notification reports.
#[derive(Clone, Copy, Debug, PartialEq, Eq, Structural)]
pub enum EventOutcome {
    /// The payment went through.
    Success,
    /// The payment did not go through.
    Failure,
    /// A subscription was canceled.
    Cancellation,
    /// Nothing that the ledger acts on.
    Indeterminate,
}

/// Which payment of a purchase a notification is about.
#[derive(Clone, Copy, Debug, PartialEq, Eq, Structural)]
pub enum PaymentKind {
    FirstPayment,
    RecurringPayment,
    Unclassified,
}

/// The status words that report a payment that went through.
pub open spec fn status_means_success(status: Seq<char>) -> bool {
    status == "succeeded"@ || status == "success"@ || status == "paid"@ || status == "completed"@
        || status == "done"@
}

/// The status words that report a payment that did not go through.
pub open spec fn status_means_failure(status: Seq<char>) -> bool {
    status == "failed"@ || status == "fail"@ || status == "canceled"@ || status == "cancelled"@
        || status == "error"@ || status == "expired"@ || status == "declined"@
}

/// The notification says that it was paid, or its status, in any letter case,
/// is a word for success.
pub open spec fn reports_success(event: NormalizedLavaWebhookView) -> bool {
    event.paid == Some(true) || (event.status matches Some(s) && status_means_success(
        lowercase_text(s),
    ))
}

/// The notification's status, in any letter case, is a word for failure.
pub open spec fn reports_failure(event: NormalizedLavaWebhookView) -> bool {
    event.status matches Some(s) && status_means_failure(lowercase_text(s))
}

/// The event type of a payment that went through.
pub open spec fn event_is_success(event_type: Option<Seq<char>>) -> bool {
    event_type == Some("payment.success"@) || event_type == Some(
        "subscription.recurring.payment.success"@,
    )
}

/// The event type of a payment that did not go through.
pub open spec fn event_is_failed(event_type: Option<Seq<char>>) -> bool {
    event_type == Some("payment.failed"@) || event_type == Some(
        "subscription.recurring.payment.failed"@,
    )
}

/// The event type of a canceled subscription.
pub open spec fn event_is_cancelled(event_type: Option<Seq<char>>) -> bool {
    event_type == Some("subscription.cancelled"@)
}

/// The event type of a first payment.
pub open spec fn event_is_payment(event_type: Option<Seq<char>>) -> bool {
    event_type == Some("payment.success"@) || event_type == Some("payment.failed"@)
}

/// The event type of a recurring payment.
pub open spec fn event_is_recurring(event_type: Option<Seq<char>>) -> bool {
    event_type == Some("subscription.recurring.payment.success"@) || event_type == Some(
        "subscription.recurring.payment.failed"@,
    )
}

/// What a notification reports. A cancellation is told by the event type
/// alone. An explicit `paid` flag that is true means success whatever the
/// text says; otherwise the event type and the status decide, failure before
/// success.
pub open spec fn outcome_of(event: NormalizedLavaWebhookView) -> EventOutcome {
    if event_is_cancelled(event.event_type) {
        EventOutcome::Cancellation
    } else if event.paid == Some(true) {
        EventOutcome::Success
    } else if event_is_failed(event.event_type) || reports_failure(event) {
        EventOutcome::Failure
    } else if event_is_success(event.event_type) || reports_success(event) {
        EventOutcome::Success
    } else {
        EventOutcome::Indeterminate
    }
}

/// Which payment of a purchase an event type is about.
pub open spec fn kind_of(event_type: Option<Seq<char>>) -> PaymentKind {
    if event_is_recurring(event_type) {
        PaymentKind::RecurringPayment
    } else if event_is_payment(event_type) {
        PaymentKind::FirstPayment
    } else {
        PaymentKind::Unclassified
    }
}

/// Whether a payment of this kind can be for a product of this type: a
/// recurring payment is never for a one-time product. A first payment may
/// open a subscription.
pub open spec fn kind_fits(kind: PaymentKind, product_type: crate::models::ProductType) -> bool {
    !(kind == PaymentKind::RecurringPayment && product_type == crate::models::ProductType::OneTime)
}

/// An optional text as a slice.
pub fn opt_as_str(text: &Option<String>) -> (slice: Option<&str>)
    ensures
        opt_str(slice) == opt_text(*text),
{
    match text {
        Some(t) => Some(t.as_str()),
        None => None,
    }
}

/// Whether a status in lower case is a word for success.
pub fn is_success_word(w: &str) -> (yes: bool)
    ensures
        yes == status_means_success(w@),
{
    str_eq(w, "succeeded") || str_eq(w, "success") || str_eq(w, "paid") || str_eq(w, "completed")
        || str_eq(w, "done")
}

/// Whether a status in lower case is a word for failure.
pub fn is_failure_word(w: &str) -> (yes: bool)
    ensures
        yes == status_means_failure(w@),
{
    str_eq(w, "failed") || str_eq(w, "fail") || str_eq(w, "canceled") || str_eq(w, "cancelled")
        || str_eq(w, "error") || str_eq(w, "expired") || str_eq(w, "declined")
}

/// Whether the notification reports a payment that went through.
pub fn is_succeeded(payload: &NormalizedLavaWebhook) -> (yes: bool)
    ensures
        yes == reports_success(payload@),
{
    if let Some(true) = payload.paid {
        return true;
    }
    match &payload.status {
        Some(s) => is_success_word(to_lowercase(s.as_str()).as_str()),
        None => false,
    }
}

/// Whether the notification reports a payment that did not go through.
pub fn is_failed(payload: &NormalizedLavaWebhook) -> (yes: bool)
    ensures
        yes == reports_failure(payload@),
{
    match &payload.status {
        Some(s) => is_failure_word(to_lowercase(s.as_str()).as_str()),
        None => false,
    }
}

/// Whether this is the event type of a payment that went through.
pub fn is_event_success(event_type: Option<&str>) -> (yes: bool)
    ensures
        yes == event_is_success(opt_str(event_type)),
{
    match event_type {
        Some(t) => str_eq(t, "payment.success") || str_eq(
            t,
            "subscription.recurring.payment.success",
        ),
        None => false,
    }
}

/// Whether this is the event type of a payment that did not go through.
pub fn is_event_failed(event_type: Option<&str>) -> (yes: bool)
    ensures
        yes == event_is_failed(opt_str(event_type)),
{
    match event_type {
        Some(t) => str_eq(t, "payment.failed") || str_eq(
            t,
            "subscription.recurring.payment.failed",
        ),
        None => false,
    }
}

/// Whether this is the event type of a canceled subscription.
pub fn is_event_cancelled(event_type: Option<&str>) -> (yes: bool)
    ensures
        yes == event_is_cancelled(opt_str(event_type)),
{
    match event_type {
        Some(t) => str_eq(t, "subscription.cancelled"),
        None => false,
    }
}

/// Whether this is the event type of a first payment.
pub fn is_event_payment(event_type: Option<&str>) -> (yes: bool)
    ensures
        yes == event_is_payment(opt_str(event_type)),
{
    match event_type {
        Some(t) => str_eq(t, "payment.success") || str_eq(t, "payment.failed"),
        None => false,
    }
}

/// Whether this is the event type of a recurring payment.
pub fn is_event_recurring(event_type: Option<&str>) -> (yes: bool)
    ensures
        yes == event_is_recurring(opt_str(event_type)),
{
    match event_type {
        Some(t) => str_eq(t, "subscription.recurring.payment.success") || str_eq(
            t,
            "subscription.recurring.payment.failed",
        ),
        None => false,
    }
}

/// Says what a notification reports.
pub fn classify_outcome(event: &NormalizedLavaWebhook) -> (outcome: EventOutcome)
    ensures
        outcome == outcome_of(event@),
{
    let event_type = opt_as_str(&event.event_type);
    if is_event_cancelled(event_type) {
        return EventOutcome::Cancellation;
    }
    if let Some(true) = event.paid {
        return EventOutcome::Success;
    }
    if is_event_failed(event_type) || is_failed(event) {
        EventOutcome::Failure
    } else if is_event_success(event_type) || is_succeeded(event) {
        EventOutcome::Success
    } else {
        EventOutcome::Indeterminate
    }
}

/// Says which payment of a purchase an event type is about.
pub fn classify_kind(event_type: Option<&str>) -> (kind: PaymentKind)
    ensures
        kind == kind_of(opt_str(event_type)),
{
    if is_event_recurring(event_type) {
        PaymentKind::RecurringPayment
    } else if is_event_payment(event_type) {
        PaymentKind::FirstPayment
    } else {
        PaymentKind::Unclassified
    }
}

/// Whether a payment of this kind can be for a product of this type.
pub fn kind_matches_product(kind: PaymentKind, product_type: crate::models::ProductType) -> (fits:
    bool)
    ensures
        fits == kind_fits(kind, product_type),
{
    match (kind, product_type) {
        (PaymentKind::RecurringPayment, crate::models::ProductType::OneTime) => false,
        _ => true,
    }
}

/// The answer to a webhook request.
#[derive(Clone, Copy, Debug, PartialEq, Eq, Structural)]
pub enum WebhookResponse {
    /// The body is neither JSON nor a form; nothing was touched.
    BadRequest,
    /// The request did not carry the shared secret; nothing was touched.
    Unauthorized,
    /// The event was taken, with this outcome. The provider need not send it
    /// again.
    Acknowledged(Outcome),
    /// The store refused a step; nothing was changed and the provider should
    /// send the event again.
    InternalError,
}

/// The marker that an acknowledgement carries beside `ok`, if any.
pub open spec fn marker_of(outcome: Outcome) -> Option<Seq<char>> {
    match outcome {
        Outcome::Canceled => Some("canceled"@),
        Outcome::Ignored => Some("ignored"@),
        Outcome::Idempotent => Some("idempotent"@),
        Outcome::MissingProduct => Some("missing_product"@),
        _ => None,
    }
}

/// The body of an acknowledgement: `ok` is true, and so is the marker, where
/// there is one.
pub open spec fn acknowledgement(outcome: Outcome) -> JsonView {
    match marker_of(outcome) {
        Some(marker) => JsonView::Object(
            seq![("ok"@, JsonView::Bool(true)), (marker, JsonView::Bool(true))],
        ),
        None => JsonView::Object(seq![("ok"@, JsonView::Bool(true))]),
    }
}

impl WebhookResponse {
    /// The HTTP status of the answer.
    pub open spec fn status(self) -> int {
        match self {
            WebhookResponse::BadRequest => 400,
            WebhookResponse::Unauthorized => 401,
            WebhookResponse::Acknowledged(_) => 200,
            WebhookResponse::InternalError => 500,
        }
    }

    /// The HTTP status of the answer.
    pub fn status_code(&self) -> (code: u16)
        ensures
            code == self.status(),
    {
        match self {
            WebhookResponse::BadRequest => 400,
            WebhookResponse::Unauthorized => 401,
            WebhookResponse::Acknowledged(_) => 200,
            WebhookResponse::InternalError => 500,
        }
    }

    /// The JSON body of the answer; only an acknowledgement has one.
    pub fn body(&self) -> (body: Option<Json>)
        ensures
            match *self {
                WebhookResponse::Acknowledged(outcome) => opt_json_owned(body) == Some(
                    acknowledgement(outcome),
                ),
                _ => body is None,
            },
    {
        let outcome = match self {
            WebhookResponse::Acknowledged(outcome) => *outcome,
            _ => {
                return None;
            },
        };
        let marker = match outcome {
            Outcome::Canceled => Some("canceled"),
            Outcome::Ignored => Some("ignored"),
            Outcome::Idempotent => Some("idempotent"),
            Outcome::MissingProduct => Some("missing_product"),
            _ => None,
        };
        let mut members: Vec<(String, Json)> = Vec::new();
        members.push(("ok".to_string(), Json::Bool(true)));
        if let Some(name) = marker {
            members.push((name.to_string(), Json::Bool(true)));
        }
        let body = Json::Object(members);
        proof {
            crate::json::lemma_object_view(members);
            assert(body@->Object_0 =~= acknowledgement(outcome)->Object_0);
        }
        Some(body)
    }
}

/// The ledger and the answer after a webhook request was handled at the time
/// `now`. A body that cannot be read is a bad request; a request without the
/// expected key is unauthorized; in both cases the ledger is not touched.
/// Otherwise the notification is put into canonical form and reconciled.
pub open spec fn webhook_result(
    ledger: LedgerView,
    expected_key: Seq<char>,
    body: Seq<u8>,
    header_key: Option<Seq<char>>,
    query: Seq<char>,
    now: int,
) -> (LedgerView, WebhookResponse) {
    match parsed_body(body) {
        Err(_) => (ledger, WebhookResponse::BadRequest),
        Ok(raw) => if api_key_of(header_key, query, raw) != Some(expected_key) {
            (ledger, WebhookResponse::Unauthorized)
        } else {
            let (after, outcome) = reconciled(ledger, normalized(raw), now);
            (
                after,
                if outcome == Outcome::StorageError {
                    WebhookResponse::InternalError
                } else {
                    WebhookResponse::Acknowledged(outcome)
                },
            )
        },
    }
}

/// Handles one webhook request of the provider: `body` is the request's
/// body, `header_key` the value of its header `X-Api-Key`, `query` its query
/// string, `expected_key` the shared secret, `now` the time.
pub fn lava_webhook(
    ledger: &mut Ledger,
    expected_key: &str,
    body: &[u8],
    header_key: Option<&str>,
    query: &str,
    now: i64,
) -> (response: WebhookResponse)
    ensures
        final(ledger)@ == webhook_result(
            old(ledger)@,
            expected_key@,
            body@,
            opt_str(header_key),
            query@,
            now as int,
        ).0,
        response == webhook_result(
            old(ledger)@,
            expected_key@,
            body@,
            opt_str(header_key),
            query@,
            now as int,
        ).1,
        old(ledger)@.well_formed() ==> final(ledger)@.well_formed(),
{
    let raw = match parse_webhook_body(body) {
        Ok(raw) => raw,
        Err(_) => {
            return WebhookResponse::BadRequest;
        },
    };
    let authorized = match extract_api_key(header_key, query, &raw) {
        Some(key) => str_eq(key.as_str(), expected_key),
        None => false,
    };
    if !authorized {
        return WebhookResponse::Unauthorized;
    }
    let event = normalize_payload(raw);
    match reconcile(ledger, &event, now) {
        Outcome::StorageError => WebhookResponse::InternalError,
        outcome => WebhookResponse::Acknowledged(outcome),
    }
}

} // verus!
