//! What holds of every response the pipeline gives.

use vstd::prelude::*;

use hickory_resolver::proto::op::ResponseCode;

use crate::dispatch::{pipeline, Upstream};
use crate::outcome::code_for;
use crate::proto::UpstreamError;
use crate::query::{decision_of, Query};

verus! {

/// A zone transfer is refused with no answers, whatever the upstream would
/// have returned.
pub proof fn zone_transfer_is_refused(q: Query, u: Upstream)
    requires
        q.record_type is AXFR,
    ensures
        pipeline(q, u).code == ResponseCode::Refused,
        pipeline(q, u).answers.len() == 0,
{
}

/// A request for which the upstream finds no records is answered with
/// `NoError`, authoritatively, with no answers.
pub proof fn no_records_is_an_empty_answer(q: Query)
    requires
        decision_of(q) is Proceed,
    ensures
        pipeline(q, Upstream::Completed(Err(UpstreamError::NoRecordsFound))).code
            == ResponseCode::NoError,
        pipeline(q, Upstream::Completed(Err(UpstreamError::NoRecordsFound))).is_authoritative,
        pipeline(q, Upstream::Completed(Err(UpstreamError::NoRecordsFound))).answers.len() == 0,
{
}

/// A successfully resolved request, with records or without, gets a response
/// with its own id, marked authoritative.
pub proof fn resolved_response_is_authoritative(q: Query, u: Upstream)
    requires
        decision_of(q) is Proceed,
        u matches Upstream::Completed(r) && code_for(r) == ResponseCode::NoError,
    ensures
        pipeline(q, u).id == q.message_id,
        pipeline(q, u).is_authoritative,
{
}

/// Every response carries the id of its request.
pub proof fn response_id_is_request_id(q: Query, u: Upstream)
    ensures
        pipeline(q, u).id == q.message_id,
{
}

/// A request whose deadline passes during resolution is a server failure with
/// no answers.
pub proof fn expired_request_is_server_failure(q: Query)
    requires
        decision_of(q) is Proceed,
    ensures
        pipeline(q, Upstream::Expired).code == ResponseCode::ServFail,
        pipeline(q, Upstream::Expired).answers.len() == 0,
{
}

/// A message that is not a query is malformed, whatever the upstream would
/// do; a zone transfer is refused first.
pub proof fn non_query_message_is_malformed(q: Query, u: Upstream)
    requires
        q.message_type is Response,
        !(q.record_type is AXFR),
    ensures
        pipeline(q, u).code == ResponseCode::FormErr,
{
}

/// An operation other than a standard query is not implemented; a zone
/// transfer is refused first.
pub proof fn other_operation_is_not_implemented(q: Query, u: Upstream)
    requires
        q.message_type is Query,
        !(q.op_code is Query),
        !(q.record_type is AXFR),
    ensures
        pipeline(q, u).code == ResponseCode::NotImp,
{
}

/// Asking the same thing again against the same upstream result gives the
/// same code and the same answers.
pub proof fn same_request_same_response(q1: Query, q2: Query, u: Upstream)
    requires
        q1.record_type == q2.record_type,
        q1.op_code == q2.op_code,
        q1.message_type == q2.message_type,
    ensures
        pipeline(q1, u).code == pipeline(q2, u).code,
        pipeline(q1, u).answers == pipeline(q2, u).answers,
        pipeline(q1, u).is_authoritative == pipeline(q2, u).is_authoritative,
{
}

/// A response is authoritative exactly when its code is `NoError`.
pub proof fn authoritative_iff_no_error(q: Query, u: Upstream)
    ensures
        pipeline(q, u).is_authoritative == (pipeline(q, u).code == ResponseCode::NoError),
{
}

} // verus!
