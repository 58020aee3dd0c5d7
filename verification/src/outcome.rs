//! The status taxonomy, the call outcome, and its wire encoding.
//!
//! A call ends in either a payload handle (ownership of an encoded buffer,
//! represented as a pointer-sized token) or an error descriptor carrying a
//! status from a closed taxonomy and a human-readable message. The outcome
//! crosses the foreign boundary through a flat wire record of plain fields;
//! encoding to and decoding from that record are verified here, together with
//! the round-trip law.

use vstd::prelude::*;

verus! {

/// The closed taxonomy of call failures.
#[derive(Clone, Copy, Debug, PartialEq, Eq, Structural)]
pub enum Status {
    /// Malformed address: a caller error, not retried.
    InvalidInput,
    /// The underlying data source failed or returned an unexpected state.
    TransportError,
    /// A serialization, deserialization or encoding step failed.
    ConversionError,
    /// The transport handle was not available at acquisition time.
    MutexError,
}

/// An error descriptor delivered on the completion channel.
#[derive(Debug)]
pub struct CallError {
    pub status: Status,
    pub message: String,
}

/// The outcome of one bridge call: an owning payload handle, or an error.
#[derive(Debug)]
pub enum CallOutcome {
    Success(u64),
    Failure(CallError),
}

/// The flat record in which an outcome crosses the foreign boundary: a
/// numeric code (zero for success, else the status code), the payload handle
/// (zero on failure) and the message (empty on success).
#[derive(Debug)]
pub struct WireOutcome {
    pub code: u64,
    pub payload: u64,
    pub message: String,
}

/// The numeric code of each status on the wire; never zero, which marks
/// success.
pub open spec fn status_code(s: Status) -> u64 {
    match s {
        Status::InvalidInput => 1,
        Status::TransportError => 2,
        Status::ConversionError => 3,
        Status::MutexError => 4,
    }
}

/// The status a wire code stands for, if any; zero and unknown codes have
/// none.
pub open spec fn code_status(c: u64) -> Option<Status> {
    if c == 1 {
        Some(Status::InvalidInput)
    } else if c == 2 {
        Some(Status::TransportError)
    } else if c == 3 {
        Some(Status::ConversionError)
    } else if c == 4 {
        Some(Status::MutexError)
    } else {
        None
    }
}

/// Whether the wire record `w` is the encoding of the outcome `o`.
pub open spec fn encodes(o: CallOutcome, w: WireOutcome) -> bool {
    match o {
        CallOutcome::Success(p) => w.code == 0 && w.payload == p && w.message@.len() == 0,
        CallOutcome::Failure(e) => w.code == status_code(e.status) && w.payload == 0
            && w.message@ == e.message@,
    }
}

/// Whether the outcome `o` is a correct reading of the wire record `w`.
pub open spec fn wire_decodes_to(w: WireOutcome, o: CallOutcome) -> bool {
    match o {
        CallOutcome::Success(p) => w.code == 0 && p == w.payload,
        CallOutcome::Failure(e) => code_status(w.code) == Some(e.status)
            && e.message@ == w.message@,
    }
}

/// Equivalence of outcomes: equal payload handles, or equal status and
/// message.
pub open spec fn outcome_equiv(a: CallOutcome, b: CallOutcome) -> bool {
    match (a, b) {
        (CallOutcome::Success(p), CallOutcome::Success(q)) => p == q,
        (CallOutcome::Failure(e), CallOutcome::Failure(f)) => e.status == f.status
            && e.message@ == f.message@,
        _ => false,
    }
}

/// The wire code of a status.
pub fn code_of_status(s: Status) -> (c: u64)
    ensures
        c == status_code(s),
{
    match s {
        Status::InvalidInput => 1,
        Status::TransportError => 2,
        Status::ConversionError => 3,
        Status::MutexError => 4,
    }
}

/// Encode an outcome into the flat wire record.
pub fn encode_outcome(o: CallOutcome) -> (w: WireOutcome)
    ensures
        encodes(o, w),
{
    match o {
        CallOutcome::Success(p) => WireOutcome { code: 0, payload: p, message: String::new() },
        CallOutcome::Failure(e) => WireOutcome {
            code: code_of_status(e.status),
            payload: 0,
            message: e.message,
        },
    }
}

/// Decode a wire record back into an outcome; an unknown nonzero code yields
/// `None`.
pub fn decode_outcome(w: WireOutcome) -> (r: Option<CallOutcome>)
    ensures
        r is Some <==> (w.code == 0 || code_status(w.code) is Some),
        r matches Some(o) ==> wire_decodes_to(w, o),
{
    if w.code == 0 {
        Some(CallOutcome::Success(w.payload))
    } else if w.code == 1 {
        Some(CallOutcome::Failure(CallError { status: Status::InvalidInput, message: w.message }))
    } else if w.code == 2 {
        Some(CallOutcome::Failure(CallError { status: Status::TransportError, message: w.message }))
    } else if w.code == 3 {
        Some(CallOutcome::Failure(CallError { status: Status::ConversionError, message: w.message }))
    } else if w.code == 4 {
        Some(CallOutcome::Failure(CallError { status: Status::MutexError, message: w.message }))
    } else {
        None
    }
}

/// Every encoded outcome decodes: an encoding never carries an unknown code.
pub proof fn lemma_encode_decodes(o: CallOutcome, w: WireOutcome)
    requires
        encodes(o, w),
    ensures
        w.code == 0 || code_status(w.code) is Some,
{
}

/// Round trip: decoding any encoding of an outcome recovers an equivalent
/// outcome, for every status kind.
pub proof fn lemma_outcome_round_trip(o: CallOutcome, w: WireOutcome, o2: CallOutcome)
    requires
        encodes(o, w),
        wire_decodes_to(w, o2),
    ensures
        outcome_equiv(o, o2),
{
}

} // verus!
