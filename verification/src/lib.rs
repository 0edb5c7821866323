//! Decision logic of a service that reports per-language line counts of hosted
//! repositories and brokers an authorization-code login with the hosting platform.
//!
//! Everything here works on plain values. The surrounding program performs the
//! network, database and filesystem work and reports each outcome back as an event.

pub mod callback;
pub mod callback_laws;
pub mod exchange;
pub mod gate;
pub mod loc;
pub mod loc_laws;
pub mod login;
pub mod login_state;
pub mod repository;
pub mod stats;
pub mod text;
