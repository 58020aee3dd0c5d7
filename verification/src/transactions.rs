//! The transaction-history workflow: cursor decoding, lenient filtering,
//! continuation derivation and batch-range computation.

use vstd::prelude::*;
use crate::models::{
    BatchInfo, BatchType, RawTransaction, Transaction, TransactionId, TransactionsList,
};
use crate::outcome::{CallError, Status};

verus! {

/// What the collaborator's JSON decoder yields for a continuation cursor
/// text: the logical time and hash of the resume point, or nothing when the
/// text is malformed. The result depends on the text alone.
pub uninterp spec fn cursor_of(s: Seq<char>) -> Option<(u64, Seq<char>)>;

/// Relies on serde_json::from_str: decodes a cursor text of the shape
/// `{"lt": <number or decimal string>, "hash": <string>}`; the result is a
/// function of the text alone.
#[verifier::external_body]
fn parse_cursor(s: &str) -> (r: Option<TransactionId>)
    ensures
        r is Some <==> cursor_of(s@) is Some,
        r matches Some(id) ==> (cursor_of(s@) matches Some(p) && id.lt == p.0 && id.hash@ == p.1),
{
    let v: serde_json::Value = serde_json::from_str(s).ok()?;
    let lt = match v.get("lt") {
        Some(serde_json::Value::Number(n)) => n.as_u64()?,
        Some(serde_json::Value::String(t)) => t.parse::<u64>().ok()?,
        _ => return None,
    };
    let hash = v.get("hash")?.as_str()?.to_string();
    Some(TransactionId { lt, hash })
}

/// The parameters of one history fetch against the transport: fetch up to
/// `limit` transactions at or before logical time `before_lt`, newest first.
#[derive(Clone, Copy, Debug)]
pub struct FetchPlan {
    pub before_lt: u64,
    pub limit: u8,
}

/// Decode the optional continuation cursor into the fetch parameters. An
/// absent cursor starts from the newest transaction, so the bound is the
/// maximum logical time; a malformed cursor fails with `ConversionError`.
pub fn plan_transactions_fetch(continuation: Option<&str>, limit: u8) -> (r: Result<
    FetchPlan,
    CallError,
>)
    ensures
        match continuation {
            None => r matches Ok(p) && p.before_lt == u64::MAX && p.limit == limit,
            Some(c) => match cursor_of(c@) {
                Some(cur) => r matches Ok(p) && p.before_lt == cur.0 && p.limit == limit,
                None => r matches Err(e) && e.status == Status::ConversionError,
            },
        },
{
    match continuation {
        None => Ok(FetchPlan { before_lt: u64::MAX, limit }),
        Some(c) => match parse_cursor(c) {
            Some(id) => Ok(FetchPlan { before_lt: id.lt, limit }),
            None => Err(CallError {
                status: Status::ConversionError,
                message: "malformed continuation".to_string(),
            }),
        },
    }
}

/// The decoded records of a raw sequence, in order, with the undecodable
/// ones silently dropped.
pub open spec fn decoded_seq(s: Seq<RawTransaction>) -> Seq<Transaction>
    decreases s.len(),
{
    if s.len() == 0 {
        Seq::empty()
    } else {
        match s.last().decoded {
            Some(t) => decoded_seq(s.drop_last()).push(t),
            None => decoded_seq(s.drop_last()),
        }
    }
}

/// How many records of a raw sequence fail to decode.
pub open spec fn undecodable_count(s: Seq<RawTransaction>) -> nat
    decreases s.len(),
{
    if s.len() == 0 {
        0
    } else {
        undecodable_count(s.drop_last()) + (if s.last().decoded is Some {
            0nat
        } else {
            1nat
        })
    }
}

/// Lenient filtering drops exactly the undecodable records: the output page
/// holds one record for every raw transaction that decodes, and no other.
pub proof fn lemma_lenient_filter(s: Seq<RawTransaction>)
    ensures
        decoded_seq(s).len() + undecodable_count(s) == s.len(),
    decreases s.len(),
{
    if s.len() > 0 {
        lemma_lenient_filter(s.drop_last());
    }
}

/// The continuation a raw sequence yields: the previous-transaction id of
/// its last (oldest) element, absent when the sequence is empty or that
/// element has no predecessor (previous logical time zero).
pub open spec fn continuation_of(s: Seq<RawTransaction>) -> Option<(u64, Seq<char>)> {
    if s.len() == 0 {
        None
    } else if s.last().prev_trans_lt == 0 {
        None
    } else {
        Some((s.last().prev_trans_lt, s.last().prev_trans_hash@))
    }
}

/// The batch range a raw sequence covers: from the oldest element's logical
/// time to the newest's, absent for an empty sequence.
pub open spec fn batch_info_of(s: Seq<RawTransaction>) -> Option<BatchInfo> {
    if s.len() == 0 {
        None
    } else {
        Some(BatchInfo { min_lt: s.last().lt, max_lt: s[0].lt, batch_type: BatchType::New })
    }
}

/// Collect the decoded records of a raw page, dropping the undecodable ones.
pub fn collect_decoded(raw: &Vec<RawTransaction>) -> (r: Vec<Transaction>)
    ensures
        r@ == decoded_seq(raw@),
{
    let mut out: Vec<Transaction> = Vec::new();
    let mut i: usize = 0;
    while i < raw.len()
        invariant
            i <= raw.len(),
            out@ == decoded_seq(raw@.take(i as int)),
        decreases raw.len() - i,
    {
        proof {
            assert(raw@.take(i as int + 1).drop_last() =~= raw@.take(i as int));
            assert(raw@.take(i as int + 1).last() == raw@[i as int]);
        }
        match &raw[i].decoded {
            Some(t) => out.push(t.clone()),
            None => (),
        }
        i = i + 1;
    }
    proof {
        assert(raw@.take(raw@.len() as int) =~= raw@);
    }
    out
}

/// Derive the continuation cursor for the next older page from the raw
/// fetched sequence: the last element's previous-transaction id, absent at
/// the genesis of the account's chain.
pub fn derive_continuation(raw: &Vec<RawTransaction>) -> (r: Option<TransactionId>)
    ensures
        r is Some <==> continuation_of(raw@) is Some,
        r matches Some(id) ==> (continuation_of(raw@) matches Some(c) && id.lt == c.0
            && id.hash@ == c.1),
{
    if raw.len() == 0 {
        None
    } else {
        let last = &raw[raw.len() - 1];
        if last.prev_trans_lt == 0 {
            None
        } else {
            Some(TransactionId { lt: last.prev_trans_lt, hash: last.prev_trans_hash.clone() })
        }
    }
}

/// Compute the batch range of the raw fetched sequence: `max_lt` from its
/// first (newest) element, `min_lt` from its last (oldest), absent for an
/// empty page.
pub fn compute_batch_info(raw: &Vec<RawTransaction>) -> (r: Option<BatchInfo>)
    ensures
        r == batch_info_of(raw@),
{
    if raw.len() == 0 {
        None
    } else {
        Some(BatchInfo {
            min_lt: raw[raw.len() - 1].lt,
            max_lt: raw[0].lt,
            batch_type: BatchType::New,
        })
    }
}

/// Whether a transactions list is the page a raw fetched sequence yields:
/// the decoded records in order, the continuation and the batch range all
/// derived from the full raw sequence.
pub open spec fn list_matches_raw(list: TransactionsList, raw: Seq<RawTransaction>) -> bool {
    &&& list.transactions@ == decoded_seq(raw)
    &&& (list.continuation is Some <==> continuation_of(raw) is Some)
    &&& (list.continuation matches Some(id) ==> (continuation_of(raw) matches Some(c)
        && id.lt == c.0 && id.hash@ == c.1))
    &&& list.info == batch_info_of(raw)
}

/// Assemble one page of history from the raw fetched sequence: lenient
/// filtering for the records, continuation and batch range from the full
/// raw sequence, so a page whose last raw transaction failed to decode
/// still yields a valid continuation.
pub fn build_transactions_list(raw: &Vec<RawTransaction>) -> (r: TransactionsList)
    ensures
        list_matches_raw(r, raw@),
{
    let transactions = collect_decoded(raw);
    let continuation = derive_continuation(raw);
    let info = compute_batch_info(raw);
    TransactionsList { transactions, continuation, info }
}

} // verus!
