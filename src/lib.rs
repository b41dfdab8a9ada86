//! Session-authenticated client core for an economy web service: response
//! classification, the anti-forgery token retry protocol, the identity cache,
//! pagination and purchase outcomes.

pub mod error;
pub mod economy;
pub mod validation;
pub mod retry;
pub mod users;
pub mod pagination;
pub mod catalog;
