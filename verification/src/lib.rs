//! Request-processing core of a small user-registration service.
//!
//! The crate decides, for a registration request or a health probe, which
//! HTTP response is owed and which log records are to be written. Everything
//! that touches a socket, a file or a database is left to the caller, which
//! hands results back as plain values.
//!
//! A registration is driven through `create_user`: the caller reports that a
//! body was received, then what its parser made of the text, then what the
//! persistence layer made of the credential. A health probe is driven through
//! `health_check` in the same way. `laws` states what holds across the parts.

pub mod context;
pub mod create_user;
pub mod credentials;
pub mod health_check;
pub mod laws;
pub mod logging;
pub mod pipeline;
pub mod response;
pub mod status;
pub mod text;
