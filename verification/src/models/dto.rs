//! Generic request and response shapes.

use crate::text::opt_text;
use vstd::prelude::*;
use vstd::string::*;

verus! {

/// Version reported by the health check.
pub const SERVICE_VERSION: &'static str = "0.1.0";

/// A successful answer that carries data.
#[derive(Debug)]
pub struct ApiResponse<T> {
    pub success: bool,
    pub data: T,
    pub message: Option<String>,
}

impl<T> ApiResponse<T> {
    /// A successful answer with the given data and no message.
    pub fn success(data: T) -> (r: Self)
        ensures
            r.success,
            r.data == data,
            r.message is None,
    {
        ApiResponse { success: true, data, message: None }
    }

    /// The same answer with its message set.
    pub fn with_message(self, message: &str) -> (r: Self)
        ensures
            r.success == self.success,
            r.data == self.data,
            opt_text(r.message) == Some(message@),
    {
        let mut r = self;
        r.message = Some(message.to_string());
        r
    }
}

/// A successful answer without data.
#[derive(Debug)]
pub struct EmptyResponse {
    pub success: bool,
    pub message: String,
}

impl EmptyResponse {
    /// A successful answer with the given message.
    pub fn ok(message: &str) -> (r: Self)
        ensures
            r.success,
            r.message@ == message@,
    {
        EmptyResponse { success: true, message: message.to_string() }
    }
}

/// The answer of the health check.
#[derive(Debug)]
pub struct HealthResponse {
    pub status: String,
    pub version: String,
    pub database: bool,
    pub uptime_seconds: Option<u64>,
}

impl HealthResponse {
    /// The health report for a database that is, or is not, reachable:
    /// `healthy` when it is, `degraded` when it is not.
    pub fn healthy(database_ok: bool) -> (r: Self)
        ensures
            r.status@ == (if database_ok {
                "healthy"@
            } else {
                "degraded"@
            }),
            r.version@ == SERVICE_VERSION@,
            r.database == database_ok,
            r.uptime_seconds is None,
    {
        let status = if database_ok {
            "healthy"
        } else {
            "degraded"
        };
        HealthResponse {
            status: status.to_string(),
            version: SERVICE_VERSION.to_string(),
            database: database_ok,
            uptime_seconds: None,
        }
    }
}

/// What a listing can be searched and sorted by.
#[derive(Debug)]
pub struct SearchParams {
    /// Text to search for.
    pub query: Option<String>,
    /// Status to filter by.
    pub status: Option<String>,
    /// Field to sort by.
    pub sort_by: Option<String>,
    /// Direction to sort in.
    pub order: Option<String>,
}

impl Default for SearchParams {
    fn default() -> (p: Self)
        ensures
            p.query is None,
            p.status is None,
            p.sort_by is None,
            p.order is None,
    {
        SearchParams { query: None, status: None, sort_by: None, order: None }
    }
}

/// A request to delete several records at once.
#[derive(Debug)]
pub struct BatchDeleteRequest {
    pub ids: Vec<String>,
}

/// The outcome of an operation on several records.
#[derive(Debug)]
pub struct BatchOperationResponse {
    pub success_count: usize,
    pub failed_count: usize,
    pub failed_ids: Vec<String>,
}

impl BatchOperationResponse {
    /// The outcome with `success_count` successes and one failure per
    /// identifier in `failed_ids`.
    pub fn new(success_count: usize, failed_ids: Vec<String>) -> (r: Self)
        ensures
            r.success_count == success_count,
            r.failed_count == failed_ids@.len(),
            r.failed_ids == failed_ids,
    {
        BatchOperationResponse { success_count, failed_count: failed_ids.len(), failed_ids }
    }
}

} // verus!
