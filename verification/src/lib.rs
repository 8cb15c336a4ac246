//! Firebase Auth, Firestore and Stripe REST clients: the request plans, the
//! reply decisions and the Firestore value conversion, with their contracts.

pub mod auth;
pub mod error;
pub mod exchange;
pub mod firestore;
pub mod json;
pub mod stripe;
pub mod text;
