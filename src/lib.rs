//! Hybrid name resolution: a name that parses as a public-key identifier is
//! resolved through an endpoint resolution service, any other name through the
//! system resolver.

pub mod address;
pub mod dispatch;
pub mod key;
pub mod laws;

pub use address::{Endpoint, Host, IpAddress, SocketAddress};
pub use key::PublicKey;
