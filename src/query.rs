//! A decoded request and the policy that decides whether it is resolved.

use vstd::prelude::*;

use hickory_resolver::proto::op::{MessageType, OpCode, ResponseCode};
use hickory_resolver::proto::rr::RecordType;
use hickory_resolver::Name;

verus! {

/// One decoded request, owned by the pipeline that answers it.
pub struct Query {
    pub name: Name,
    pub record_type: RecordType,
    pub message_id: u16,
    pub op_code: OpCode,
    pub message_type: MessageType,
}

/// What the policy makes of a request before any resolution.
#[derive(Debug)]
pub enum Decision {
    Proceed,
    Reject(ResponseCode),
}

/// The policy rules, first match wins: zone transfers are refused, a message
/// that is not a query is malformed, an operation other than a standard query
/// is not implemented; everything else is resolved.
pub open spec fn decision_of(q: Query) -> Decision {
    if q.record_type is AXFR {
        Decision::Reject(ResponseCode::Refused)
    } else if !(q.message_type is Query) {
        Decision::Reject(ResponseCode::FormErr)
    } else if !(q.op_code is Query) {
        Decision::Reject(ResponseCode::NotImp)
    } else {
        Decision::Proceed
    }
}

/// Applies the policy to a request. It never calls the network.
pub fn classify(q: &Query) -> (d: Decision)
    ensures
        d == decision_of(*q),
{
    match q.record_type {
        RecordType::AXFR => return Decision::Reject(ResponseCode::Refused),
        _ => {},
    }
    match q.message_type {
        MessageType::Response => return Decision::Reject(ResponseCode::FormErr),
        MessageType::Query => {},
    }
    match q.op_code {
        OpCode::Query => Decision::Proceed,
        _ => Decision::Reject(ResponseCode::NotImp),
    }
}

} // verus!
