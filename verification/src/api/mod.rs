//! What the transport layer decides before and after the operations of the
//! service: who is asking, how often, and with which identifiers.

pub mod extractors;
pub mod middleware;

pub use extractors::{
    generate_request_id, AuthUser, BearerToken, ClientIp, OptionalAuth, RequestId, UserAgent,
    ValidatedJson,
};
pub use middleware::{require_auth, security_headers, RateLimiterState, RateWindowEntry};
