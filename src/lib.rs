//! Authentication and session authorisation for a multi-user backend:
//! a credential store, a session store, identity resolution, request gates
//! and the account lifecycle operations built on them.

pub mod error;
pub mod model;
pub mod password;
pub mod credentials;
pub mod session;
pub mod request;
