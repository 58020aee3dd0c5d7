//! The bridge calls: one sequential model of each foreign entry point.
//!
//! A foreign call validates its arguments, acquires the handle guard, runs
//! its query workflow against the transport, restores the guard, and
//! delivers exactly one outcome on the caller's result port. The transport
//! fetch itself is the collaborator's asynchronous work; its reply enters
//! here as a plain argument, and every clause below holds whatever that
//! reply was. The guard clauses state the serialization discipline: a call
//! on an initialized handle never reports the handle missing, and always
//! leaves the slot holding the same transport it found.

use vstd::prelude::*;
use crate::account::{build_account_snapshot, snapshot_matches_state};
use crate::guard::HandleSlot;
use crate::models::{FullContractState, RawContractState, RawTransaction, TransactionsList};
use crate::outcome::{CallError, CallOutcome, Status};
use crate::transactions::{
    build_transactions_list, cursor_of, list_matches_raw, plan_transactions_fetch,
};

verus! {

/// One completion-channel delivery: the caller's result port and the call's
/// result, of which the caller sees the wire encoding.
pub struct Delivery<T> {
    pub port: i64,
    pub result: Result<T, CallError>,
}

/// The account-state workflow after acquisition: address validation, then
/// the transport's reply, then the snapshot.
pub fn internal_get_full_account_state(
    address_valid: bool,
    state: Result<RawContractState, String>,
) -> (r: Result<Option<FullContractState>, CallError>)
    ensures
        !address_valid ==> (r matches Err(e) && e.status == Status::InvalidInput),
        address_valid ==> match state {
            Result::Err(m) => r matches Err(e) && e.status == Status::TransportError
                && e.message@ == m@,
            Result::Ok(st) => snapshot_matches_state(r, st),
        },
{
    if !address_valid {
        return Err(CallError {
            status: Status::InvalidInput,
            message: "invalid address".to_string(),
        });
    }
    match state {
        Ok(st) => build_account_snapshot(st),
        Err(m) => Err(CallError { status: Status::TransportError, message: m }),
    }
}

/// The transaction-history workflow after acquisition: address validation,
/// cursor decoding, then the transport's reply, then the assembled page.
pub fn internal_get_transactions(
    address_valid: bool,
    continuation: Option<String>,
    limit: u8,
    fetched: Result<Vec<RawTransaction>, String>,
) -> (r: Result<TransactionsList, CallError>)
    ensures
        !address_valid ==> (r matches Err(e) && e.status == Status::InvalidInput),
        address_valid && (continuation matches Some(c) && cursor_of(c@) is None) ==> (
        r matches Err(e) && e.status == Status::ConversionError),
        address_valid && (continuation matches Some(c) ==> cursor_of(c@) is Some) ==> match fetched {
            Result::Err(m) => r matches Err(e) && e.status == Status::TransportError
                && e.message@ == m@,
            Result::Ok(raw) => r matches Ok(list) && list_matches_raw(list, raw@),
        },
{
    if !address_valid {
        return Err(CallError {
            status: Status::InvalidInput,
            message: "invalid address".to_string(),
        });
    }
    let cursor_text = match &continuation {
        Some(s) => Some(s.as_str()),
        None => None,
    };
    let _plan = match plan_transactions_fetch(cursor_text, limit) {
        Ok(p) => p,
        Err(e) => {
            return Err(e);
        },
    };
    match fetched {
        Ok(raw) => Ok(build_transactions_list(&raw)),
        Err(m) => Err(CallError { status: Status::TransportError, message: m }),
    }
}

/// The account-state entry point: acquire the guard, run the workflow on
/// the transport's reply, restore the guard, deliver on the caller's port.
pub fn get_full_account_state(
    result_port: i64,
    slot: &mut HandleSlot,
    address_valid: bool,
    state: Result<RawContractState, String>,
) -> (d: Delivery<Option<FullContractState>>)
    ensures
        d.port == result_port,
        (d.result matches Err(e) && e.status == Status::MutexError) <==> old(slot).contents()
            is None,
        old(slot).contents() is None ==> final(slot).contents() is None,
        old(slot).contents() matches Some(t) ==> final(slot).contents() == Some(t),
        old(slot).contents() is Some ==> {
            &&& !address_valid ==> (d.result matches Err(e) && e.status == Status::InvalidInput)
            &&& address_valid ==> match state {
                Result::Err(m) => d.result matches Err(e) && e.status == Status::TransportError
                    && e.message@ == m@,
                Result::Ok(st) => snapshot_matches_state(d.result, st),
            }
        },
{
    let token = match slot.acquire() {
        Ok(t) => t,
        Err(e) => {
            return Delivery { port: result_port, result: Err(e) };
        },
    };
    let result = internal_get_full_account_state(address_valid, state);
    slot.restore(token);
    Delivery { port: result_port, result }
}

/// The transaction-history entry point: acquire the guard, run the workflow
/// on the transport's reply, restore the guard, deliver on the caller's
/// port.
pub fn get_transactions(
    result_port: i64,
    slot: &mut HandleSlot,
    address_valid: bool,
    continuation: Option<String>,
    limit: u8,
    fetched: Result<Vec<RawTransaction>, String>,
) -> (d: Delivery<TransactionsList>)
    ensures
        d.port == result_port,
        (d.result matches Err(e) && e.status == Status::MutexError) <==> old(slot).contents()
            is None,
        old(slot).contents() is None ==> final(slot).contents() is None,
        old(slot).contents() matches Some(t) ==> final(slot).contents() == Some(t),
        old(slot).contents() is Some ==> {
            &&& !address_valid ==> (d.result matches Err(e) && e.status == Status::InvalidInput)
            &&& address_valid && (continuation matches Some(c) && cursor_of(c@) is None)
                ==> (d.result matches Err(e) && e.status == Status::ConversionError)
            &&& address_valid && (continuation matches Some(c) ==> cursor_of(c@) is Some)
                ==> match fetched {
                Result::Err(m) => d.result matches Err(e) && e.status == Status::TransportError
                    && e.message@ == m@,
                Result::Ok(raw) => d.result matches Ok(list) && list_matches_raw(list, raw@),
            }
        },
{
    let token = match slot.acquire() {
        Ok(t) => t,
        Err(e) => {
            return Delivery { port: result_port, result: Err(e) };
        },
    };
    let result = internal_get_transactions(address_valid, continuation, limit, fetched);
    slot.restore(token);
    Delivery { port: result_port, result }
}

/// Map the collaborator's JSON rendering of a payload into the call
/// outcome: the owning buffer handle on success, `ConversionError` when the
/// encoding step failed.
pub fn outcome_from_encoding(encoded: Result<u64, String>) -> (o: CallOutcome)
    ensures
        encoded matches Ok(p) ==> (o matches CallOutcome::Success(q) && q == p),
        encoded is Err ==> (o matches CallOutcome::Failure(e) && e.status
            == Status::ConversionError),
{
    match encoded {
        Ok(p) => CallOutcome::Success(p),
        Err(_) => CallOutcome::Failure(CallError {
            status: Status::ConversionError,
            message: "payload encoding failed".to_string(),
        }),
    }
}

} // verus!
