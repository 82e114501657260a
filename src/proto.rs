//! The hickory types that the core reads, and the calls made on them.

use vstd::prelude::*;

use hickory_resolver::error::{ResolveError, ResolveErrorKind};
use hickory_resolver::lookup::Lookup;
use hickory_resolver::proto::op::{MessageType, OpCode, ResponseCode};
use hickory_resolver::proto::rr::{Record, RecordType};
use hickory_resolver::Name;

verus! {

// The header fields and codes are hickory's own enums; the core matches on
// their public variants.
#[verifier::external_type_specification]
pub struct ExRecordType(RecordType);

#[verifier::external_type_specification]
pub struct ExOpCode(OpCode);

#[verifier::external_type_specification]
pub struct ExMessageType(MessageType);

#[verifier::external_type_specification]
pub struct ExResponseCode(ResponseCode);

// Names, lookups and resolver errors are carried through without being read.
#[verifier::external_type_specification]
#[verifier::external_body]
pub struct ExName(Name);

/// One resource record as the upstream resolver returned it. The core counts
/// and forwards records and never reads inside one. Verus refuses to declare
/// hickory's `Record` itself (its parameter is bound by an outside trait), so
/// the record is held here, hidden from the verifier.
#[verifier::external_body]
pub struct DnsRecord(pub Record);

#[verifier::external_type_specification]
#[verifier::external_body]
pub struct ExLookup(Lookup);

#[verifier::external_type_specification]
#[verifier::external_body]
pub struct ExResolveError(ResolveError);

/// How the core tells upstream failures apart: an absence of records is an
/// answer, anything else is a failure.
#[derive(Clone, Copy, Debug, PartialEq, Eq, Structural)]
pub enum UpstreamError {
    NoRecordsFound,
    Other,
}

/// The records that a lookup holds, in the order the resolver gave them.
pub uninterp spec fn lookup_records_of(l: Lookup) -> Seq<DnsRecord>;

/// Relies on `Lookup::record_iter`: every record of the lookup, cloned out in
/// order.
#[verifier::external_body]
pub(crate) fn lookup_records(l: &Lookup) -> (r: Vec<DnsRecord>)
    ensures
        r@ == lookup_records_of(*l),
{
    l.record_iter().cloned().map(DnsRecord).collect()
}

/// Relies on `ResolveError::kind`: tells the `NoRecordsFound` kind from the
/// others. Nothing is known of an opaque error, so nothing is promised.
#[verifier::external_body]
pub(crate) fn upstream_error(e: &ResolveError) -> (r: UpstreamError) {
    match e.kind() {
        ResolveErrorKind::NoRecordsFound { .. } => UpstreamError::NoRecordsFound,
        _ => UpstreamError::Other,
    }
}

} // verus!
