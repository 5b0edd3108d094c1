//! Verified core of the libchiaki bindings: the decisions, conversions and
//! builders that surround the calls into chiaki's C library.

pub mod base64;
pub mod common;
pub mod connect;
pub mod cstr;
pub mod discovery;
pub mod error;
pub mod feedback;
pub mod holepunch;
pub mod opus;
pub mod regist;
pub mod session;
