//! Payment event reconciliation and the credit and subscription ledger of a
//! service that sells credits for watermark removal, with the small decisions
//! of the service around it.
//!
//! The provider of payments reports each payment at least once, in any order
//! and in more than one shape. [`api::webhooks_lava`] reads a notification
//! into a canonical event and classifies it, [`reconcile`] matches the event
//! to a transaction of the [`ledger`] and applies its effects exactly once;
//! [`billing`] keeps the balances and [`db`] the subscriptions.
//! [`guarantees`] and [`invariants`] state what holds of every ledger and
//! every event.
//!
//! The ledger is plain data. Whoever keeps it in a database reads the rows
//! that an operation needs, lets the operation change them, and writes them
//! back in one transaction of the database.

pub mod text;
pub mod json;
pub mod models;
pub mod ledger;
pub mod db;
pub mod billing;
pub mod reconcile;
pub mod guarantees;
pub mod invariants;
pub mod api;
pub mod s3_utils;
pub mod queue;
pub mod ws;
