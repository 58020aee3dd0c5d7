//! The account-state workflow: building the caller's snapshot from the raw
//! contract state fetched over the transport.

use vstd::prelude::*;
use crate::models::{ExistingContract, FullContractState, RawContractState, opt_id_equiv};
use crate::outcome::{CallError, Status};

verus! {

/// What base64 encoding yields for a byte sequence; the result depends on
/// the bytes alone.
pub uninterp spec fn b64_of(b: Seq<u8>) -> Seq<char>;

/// Relies on base64::encode: the standard text encoding of a byte string,
/// a function of the bytes alone; encoding no bytes yields no text.
#[verifier::external_body]
fn encode_base64(b: &Vec<u8>) -> (r: String)
    ensures
        r@ == b64_of(b@),
        b@.len() == 0 ==> r@.len() == 0,
{
    base64::encode(b)
}

/// Whether a snapshot result is the one owed for a raw contract state: an
/// absent account yields an empty snapshot (not an error); an existing
/// account whose container serialized yields the full snapshot, with the
/// deployed flag taken from the state variant and the container in its text
/// encoding; a failed serialization yields `ConversionError`.
pub open spec fn snapshot_matches_state(
    r: Result<Option<FullContractState>, CallError>,
    state: RawContractState,
) -> bool {
    match state {
        RawContractState::NotExists => r matches Ok(o) && o is None,
        RawContractState::Exists(c) => match c.account_cells {
            Ok(bytes) => r matches Ok(o) && o matches Some(f) && f.balance@ == c.balance@
                && f.gen_timings == c.gen_timings
                && opt_id_equiv(f.last_transaction_id, c.last_transaction_id)
                && f.is_deployed == c.is_active && f.boc@ == b64_of(bytes@),
            Err(_) => r matches Err(e) && e.status == Status::ConversionError,
        },
    }
}

/// Build the snapshot delivered to the caller from the raw contract state.
/// An account absent on chain is a successful call with an empty snapshot.
pub fn build_account_snapshot(state: RawContractState) -> (r: Result<
    Option<FullContractState>,
    CallError,
>)
    ensures
        snapshot_matches_state(r, state),
{
    match state {
        RawContractState::NotExists => Ok(None),
        RawContractState::Exists(c) => {
            let ExistingContract {
                balance,
                gen_timings,
                last_transaction_id,
                is_active,
                account_cells,
            } = c;
            match account_cells {
                Ok(bytes) => {
                    let boc = encode_base64(&bytes);
                    Ok(Some(FullContractState {
                        balance,
                        gen_timings,
                        last_transaction_id,
                        is_deployed: is_active,
                        boc,
                    }))
                },
                Err(_) => Err(CallError {
                    status: Status::ConversionError,
                    message: "account state serialization failed".to_string(),
                }),
            }
        },
    }
}

} // verus!
