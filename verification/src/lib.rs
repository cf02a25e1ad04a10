//! Connection-authorization and HTTP-route-match compilation for an inbound
//! proxy: policy value types, a pure authorization engine over client address
//! and TLS state, a compiler from wire match descriptors to validated
//! matchers, and a per-connection handle over a live policy snapshot cell.

pub mod addr;
pub mod authz;
pub mod route;
pub mod server;
pub mod allow;
