//! The decision core of a DNS-over-TLS forwarding resolver: which requests are
//! answered, what the upstream resolver's result becomes, and which response
//! code and answers a client sees.

mod dispatch;
mod laws;
mod outcome;
mod proto;
mod query;
mod response;

pub use dispatch::{final_code, pipeline, receive, Pending, Step, Upstream, QUERY_TIMEOUT_SECS};
pub use outcome::{
    answers_for, code_for, lookup_outcome, resolution_outcome, upstream_view, ResolutionOutcome,
};
pub use proto::{lookup_records_of, DnsRecord, UpstreamError};
pub use query::{classify, decision_of, Decision, Query};
pub use response::{
    rejected_response, rejected_view, resolved_response, resolved_view, Response, ResponseView,
};
pub use laws::{
    authoritative_iff_no_error, expired_request_is_server_failure, no_records_is_an_empty_answer,
    non_query_message_is_malformed, other_operation_is_not_implemented,
    resolved_response_is_authoritative, response_id_is_request_id, same_request_same_response,
    zone_transfer_is_refused,
};
