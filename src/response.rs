//! Assembling the response to one request.

use vstd::prelude::*;

use hickory_resolver::proto::op::ResponseCode;

use crate::outcome::ResolutionOutcome;
use crate::proto::DnsRecord;
use crate::query::Query;

verus! {

/// The response to one request; the question is echoed from the request.
pub struct Response {
    pub id: u16,
    pub is_authoritative: bool,
    pub code: ResponseCode,
    pub query: Query,
    pub answers: Vec<DnsRecord>,
}

/// What a client reads in a response, apart from the echoed question.
pub struct ResponseView {
    pub id: u16,
    pub is_authoritative: bool,
    pub code: ResponseCode,
    pub answers: Seq<DnsRecord>,
}

impl View for Response {
    type V = ResponseView;

    open spec fn view(&self) -> ResponseView {
        ResponseView {
            id: self.id,
            is_authoritative: self.is_authoritative,
            code: self.code,
            answers: self.answers@,
        }
    }
}

/// The response to a request that resolution answered or failed.
pub open spec fn resolved_view(q: Query, o: ResolutionOutcome) -> ResponseView {
    ResponseView {
        id: q.message_id,
        is_authoritative: o.is_answer(),
        code: o.code(),
        answers: o.answers(),
    }
}

/// The response to a request that is refused with a code and no answers.
pub open spec fn rejected_view(q: Query, code: ResponseCode) -> ResponseView {
    ResponseView { id: q.message_id, is_authoritative: false, code, answers: Seq::empty() }
}

/// Builds the response that carries a resolution outcome: an answer, empty or
/// not, is authoritative with `NoError`; a failure carries its code alone.
pub fn resolved_response(query: Query, outcome: ResolutionOutcome) -> (r: Response)
    ensures
        r@ == resolved_view(query, outcome),
        r.query == query,
{
    let id = query.message_id;
    match outcome {
        ResolutionOutcome::Answers(answers) => Response {
            id,
            is_authoritative: true,
            code: ResponseCode::NoError,
            query,
            answers,
        },
        ResolutionOutcome::Empty => Response {
            id,
            is_authoritative: true,
            code: ResponseCode::NoError,
            query,
            answers: Vec::new(),
        },
        ResolutionOutcome::Failed(code) => Response {
            id,
            is_authoritative: false,
            code,
            query,
            answers: Vec::new(),
        },
    }
}

/// Builds the response that refuses a request with `code`.
pub fn rejected_response(query: Query, code: ResponseCode) -> (r: Response)
    ensures
        r@ == rejected_view(query, code),
        r.query == query,
{
    let id = query.message_id;
    Response { id, is_authoritative: false, code, query, answers: Vec::new() }
}

} // verus!
