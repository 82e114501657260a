//! What one upstream lookup amounts to for the client.

use vstd::prelude::*;

use hickory_resolver::error::ResolveError;
use hickory_resolver::lookup::Lookup;
use hickory_resolver::proto::op::ResponseCode;

use crate::proto::{lookup_records, lookup_records_of, upstream_error, DnsRecord, UpstreamError};

verus! {

/// The result of resolving one request.
pub enum ResolutionOutcome {
    /// At least one record, in the order the resolver gave them.
    Answers(Vec<DnsRecord>),
    /// No record of the requested type: an answer, not a failure.
    Empty,
    Failed(ResponseCode),
}

/// The upstream result with its records as a sequence.
pub open spec fn upstream_view(r: Result<Vec<DnsRecord>, UpstreamError>) -> Result<
    Seq<DnsRecord>,
    UpstreamError,
> {
    match r {
        Ok(v) => Ok(v@),
        Err(e) => Err(e),
    }
}

/// The response code that an upstream result yields: only a failure other
/// than an absence of records is a server failure.
pub open spec fn code_for(r: Result<Seq<DnsRecord>, UpstreamError>) -> ResponseCode {
    match r {
        Err(UpstreamError::Other) => ResponseCode::ServFail,
        _ => ResponseCode::NoError,
    }
}

/// The answers that an upstream result yields.
pub open spec fn answers_for(r: Result<Seq<DnsRecord>, UpstreamError>) -> Seq<DnsRecord> {
    match r {
        Ok(s) => s,
        Err(_) => Seq::empty(),
    }
}

impl ResolutionOutcome {
    pub open spec fn code(self) -> ResponseCode {
        match self {
            ResolutionOutcome::Failed(c) => c,
            _ => ResponseCode::NoError,
        }
    }

    pub open spec fn answers(self) -> Seq<DnsRecord> {
        match self {
            ResolutionOutcome::Answers(v) => v@,
            _ => Seq::empty(),
        }
    }

    /// Whether the outcome counts as a final answer.
    pub open spec fn is_answer(self) -> bool {
        !(self is Failed)
    }
}

/// Maps what the upstream resolver reported onto an outcome: records are
/// answers, an absence of records is an empty answer, any other failure is a
/// server failure.
pub fn resolution_outcome(r: Result<Vec<DnsRecord>, UpstreamError>) -> (o: ResolutionOutcome)
    ensures
        o.code() == code_for(upstream_view(r)),
        o.answers() == answers_for(upstream_view(r)),
        o.is_answer() == (code_for(upstream_view(r)) is NoError),
        o is Answers ==> o.answers().len() > 0,
{
    match r {
        Ok(v) => {
            if v.len() == 0 {
                ResolutionOutcome::Empty
            } else {
                ResolutionOutcome::Answers(v)
            }
        },
        Err(UpstreamError::NoRecordsFound) => ResolutionOutcome::Empty,
        Err(UpstreamError::Other) => ResolutionOutcome::Failed(ResponseCode::ServFail),
    }
}

/// Flattens a lookup of the upstream resolver into an outcome: every record of
/// a successful lookup, in order; an error as `resolution_outcome` maps it,
/// after it has been told apart.
pub fn lookup_outcome(r: Result<Lookup, ResolveError>) -> (o: ResolutionOutcome)
    ensures
        r is Ok ==> o.code() == ResponseCode::NoError && o.answers() == lookup_records_of(
            r->Ok_0,
        ),
        r is Err ==> o.answers().len() == 0 && (o.code() == ResponseCode::NoError || o.code()
            == ResponseCode::ServFail),
        o.is_answer() == (o.code() is NoError),
{
    let upstream = match r {
        Ok(l) => Ok(lookup_records(&l)),
        Err(e) => Err(upstream_error(&e)),
    };
    resolution_outcome(upstream)
}

} // verus!
