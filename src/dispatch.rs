//! The per-request pipeline as steps: the caller performs the lookup and the
//! send that a step asks for, and hands back what came of them.

use vstd::prelude::*;

use hickory_resolver::error::ResolveError;
use hickory_resolver::lookup::Lookup;
use hickory_resolver::proto::op::ResponseCode;

use crate::outcome::{
    answers_for, code_for, lookup_outcome, resolution_outcome, upstream_view,
};
use crate::proto::{lookup_records_of, DnsRecord, UpstreamError};
use crate::query::{classify, decision_of, Decision, Query};
use crate::response::{rejected_response, rejected_view, resolved_response, Response, ResponseView};

verus! {

/// How long resolving and answering one request may take, in seconds.
pub const QUERY_TIMEOUT_SECS: u64 = 3;

/// What became of the resolution of a request.
pub enum Upstream {
    Completed(Result<Seq<DnsRecord>, UpstreamError>),
    /// The deadline passed first.
    Expired,
}

/// The response that a request gets, given what became of its resolution;
/// a rejected request gets its response whatever the upstream would do.
pub open spec fn pipeline(q: Query, u: Upstream) -> ResponseView {
    match decision_of(q) {
        Decision::Reject(c) => rejected_view(q, c),
        Decision::Proceed => match u {
            Upstream::Completed(r) => ResponseView {
                id: q.message_id,
                is_authoritative: code_for(r) is NoError,
                code: code_for(r),
                answers: answers_for(r),
            },
            Upstream::Expired => rejected_view(q, ResponseCode::ServFail),
        },
    }
}

/// A request that the policy admitted, waiting for its lookup.
pub struct Pending {
    query: Query,
}

/// What the caller does next for a request.
pub enum Step {
    /// Look the request's name and type up, within the deadline.
    Resolve(Pending),
    /// Send this response; the request is not resolved.
    Reply(Response),
}

impl View for Pending {
    type V = Query;

    closed spec fn view(&self) -> Query {
        self.query
    }
}

impl Pending {
    #[verifier::type_invariant]
    spec fn admitted(&self) -> bool {
        decision_of(self.query) is Proceed
    }

    /// The request waiting for its lookup.
    pub fn query(&self) -> (q: &Query)
        ensures
            *q == self@,
    {
        &self.query
    }

    /// Answers the request from what the upstream resolver reported.
    pub fn resolved(self, r: Result<Vec<DnsRecord>, UpstreamError>) -> (resp: Response)
        ensures
            resp@ == pipeline(self@, Upstream::Completed(upstream_view(r))),
            resp.query == self@,
    {
        proof {
            use_type_invariant(&self);
        }
        let outcome = resolution_outcome(r);
        resolved_response(self.query, outcome)
    }

    /// Answers the request from a lookup of the upstream resolver.
    pub fn looked_up(self, r: Result<Lookup, ResolveError>) -> (resp: Response)
        ensures
            r is Ok ==> resp@ == pipeline(
                self@,
                Upstream::Completed(Ok(lookup_records_of(r->Ok_0))),
            ),
            r is Err ==> exists|e: UpstreamError|
                resp@ == #[trigger] pipeline(self@, Upstream::Completed(Err(e))),
            resp.query == self@,
    {
        proof {
            use_type_invariant(&self);
        }
        let outcome = lookup_outcome(r);
        let resp = resolved_response(self.query, outcome);
        proof {
            if r is Err {
                let e = if resp.code == ResponseCode::ServFail {
                    UpstreamError::Other
                } else {
                    UpstreamError::NoRecordsFound
                };
                assert(resp@.answers =~= Seq::<DnsRecord>::empty());
                assert(resp@ == pipeline(resp.query, Upstream::Completed(Err(e))));
            }
        }
        resp
    }

    /// Answers the request whose deadline passed before its lookup ended.
    pub fn expired(self) -> (resp: Response)
        ensures
            resp@ == pipeline(self@, Upstream::Expired),
            resp.query == self@,
    {
        proof {
            use_type_invariant(&self);
        }
        rejected_response(self.query, ResponseCode::ServFail)
    }
}

/// Takes a decoded request in: either it is to be resolved, or its response
/// is already decided.
pub fn receive(query: Query) -> (s: Step)
    ensures
        match s {
            Step::Resolve(p) => decision_of(query) is Proceed && p@ == query,
            Step::Reply(r) => {
                &&& !(decision_of(query) is Proceed)
                &&& r.query == query
                &&& forall|u: Upstream| r@ == #[trigger] pipeline(query, u)
            },
        },
{
    match classify(&query) {
        Decision::Proceed => Step::Resolve(Pending { query }),
        Decision::Reject(code) => Step::Reply(rejected_response(query, code)),
    }
}

/// The code that a request ends with: that of its response once it was sent,
/// a server failure when the send failed.
pub fn final_code(code: ResponseCode, sent: bool) -> (c: ResponseCode)
    ensures
        c == (if sent { code } else { ResponseCode::ServFail }),
{
    if sent {
        code
    } else {
        ResponseCode::ServFail
    }
}

} // verus!
