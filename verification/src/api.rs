//! What the service's endpoints decide, apart from their transport.

pub mod webhooks_lava;
pub mod lava;
pub mod lava_client;
pub mod handlers;
pub mod auth;
pub mod products;
pub mod subscriptions;
pub mod webhooks;
pub mod payments;
