//! The authenticator side of CTAP2: creating a credential bound to a relying party
//! (`make_credential`) and proving possession of one (`get_assertion`). Each operation is a
//! procedure that advances one event at a time and names the next action for its caller, who
//! performs it against a credential store and a consent ceremony.

pub mod auth_data;
pub mod authenticator;
pub mod crypto;
pub mod extensions;
pub mod get_assertion;
pub mod make_credential;
pub mod types;
