pub mod auth;
pub mod errors;
pub mod events;
pub mod lifecycle;
pub mod sale;
pub mod split;
pub mod tier;
