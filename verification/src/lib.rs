//! Client-side logic of a Firezone connlib session and of Windows DNS control.
//!
//! - [`ip_addr`]: plain IP addresses, as the library reads them.
//! - [`dns_control`]: which system resolvers to trust, the NRPT rule that claims
//!   all DNS names, and the commands that remove that rule and flush the cache.
//! - [`session`]: the handle that drives a running session, and the decision the
//!   supervisor makes when the session task ends.
pub mod dns_control;
pub mod ip_addr;
pub mod session;
