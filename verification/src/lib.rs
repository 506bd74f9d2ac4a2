//! Outbound sidecar assembly: the cache-aware service stack that turns an
//! accepted connection with an original destination into a discovered target,
//! selects a protocol sub-stack from the service profile and the client
//! policy, and keeps each sub-stack's routes in step with discovery updates.

pub mod accrual;
pub mod addr;
pub mod errors;
pub mod policy;
pub mod profile;
pub mod protocol;
pub mod channel;
pub mod sidecar;
pub mod http;
pub mod tls;
pub mod opaq;
pub mod stack;
