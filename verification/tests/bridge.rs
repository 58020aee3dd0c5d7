use ton_bridge::account::build_account_snapshot;
use ton_bridge::bridge::{
    get_full_account_state, get_transactions, internal_get_full_account_state,
    internal_get_transactions, outcome_from_encoding,
};
use ton_bridge::guard::HandleSlot;
use ton_bridge::models::{
    BatchType, ExistingContract, GenTimings, RawContractState, RawTransaction, Transaction,
    TransactionId,
};
use ton_bridge::outcome::{
    decode_outcome, encode_outcome, CallError, CallOutcome, Status, WireOutcome,
};
use ton_bridge::transactions::plan_transactions_fetch;

fn raw_tx(lt: u64, prev_lt: u64, prev_hash: &str, decoded: Option<Transaction>) -> RawTransaction {
    RawTransaction {
        lt,
        prev_trans_lt: prev_lt,
        prev_trans_hash: prev_hash.to_string(),
        decoded,
    }
}

fn decoded_tx(lt: u64, hash: &str) -> Transaction {
    Transaction {
        id: TransactionId {
            lt,
            hash: hash.to_string(),
        },
        prev_trans_id: None,
        aborted: false,
    }
}

#[test]
fn outcome_round_trip_success() {
    let w = encode_outcome(CallOutcome::Success(77));
    assert_eq!(w.code, 0);
    assert_eq!(w.payload, 77);
    assert_eq!(w.message, "");
    match decode_outcome(w) {
        Some(CallOutcome::Success(p)) => assert_eq!(p, 77),
        _ => panic!("success outcome did not round trip"),
    }
}

#[test]
fn outcome_round_trip_every_status() {
    let statuses = [
        Status::InvalidInput,
        Status::TransportError,
        Status::ConversionError,
        Status::MutexError,
    ];
    for status in statuses {
        let w = encode_outcome(CallOutcome::Failure(CallError {
            status,
            message: "details".to_string(),
        }));
        assert_ne!(w.code, 0);
        assert_eq!(w.payload, 0);
        match decode_outcome(w) {
            Some(CallOutcome::Failure(e)) => {
                assert_eq!(e.status, status);
                assert_eq!(e.message, "details");
            }
            _ => panic!("failure outcome did not round trip"),
        }
    }
}

#[test]
fn decode_rejects_unknown_code() {
    let w = WireOutcome {
        code: 9,
        payload: 0,
        message: String::new(),
    };
    assert!(decode_outcome(w).is_none());
}

#[test]
fn guard_take_and_restore() {
    let mut slot = HandleSlot::new(5);
    assert_eq!(slot.peek(), Some(5));
    let taken = slot.acquire().expect("full slot must acquire");
    assert_eq!(taken, 5);
    assert_eq!(slot.peek(), None);
    slot.restore(taken);
    assert_eq!(slot.peek(), Some(5));
}

#[test]
fn guard_vacant_reports_mutex_error() {
    let mut slot = HandleSlot::vacant();
    match slot.acquire() {
        Err(e) => assert_eq!(e.status, Status::MutexError),
        Ok(_) => panic!("vacant slot must not acquire"),
    }
}

#[test]
fn continuation_absent_at_genesis() {
    let raw = vec![raw_tx(100, 50, "aa", None), raw_tx(90, 0, "bb", None)];
    let d = internal_get_transactions(true, None, 10, Ok(raw)).expect("page must build");
    assert!(d.continuation.is_none());
}

#[test]
fn continuation_from_last_raw_entry() {
    let raw = vec![raw_tx(100, 5000, "prevhash", None)];
    let d = internal_get_transactions(true, None, 10, Ok(raw)).expect("page must build");
    let c = d.continuation.expect("nonzero prev lt must yield a continuation");
    assert_eq!(c.lt, 5000);
    assert_eq!(c.hash, "prevhash");
}

#[test]
fn batch_range_from_first_and_last() {
    let raw = vec![
        raw_tx(100, 95, "aa", None),
        raw_tx(95, 90, "bb", None),
        raw_tx(90, 0, "cc", None),
    ];
    let d = internal_get_transactions(true, None, 10, Ok(raw)).expect("page must build");
    let info = d.info.expect("non-empty page must carry a batch range");
    assert_eq!(info.max_lt, 100);
    assert_eq!(info.min_lt, 90);
    assert_eq!(info.batch_type, BatchType::New);
}

#[test]
fn empty_page_still_succeeds() {
    let d = internal_get_transactions(true, None, 10, Ok(Vec::new())).expect("empty page is ok");
    assert!(d.transactions.is_empty());
    assert!(d.continuation.is_none());
    assert!(d.info.is_none());
}

#[test]
fn lenient_filter_drops_only_undecodable() {
    let raw = vec![
        raw_tx(100, 95, "aa", Some(decoded_tx(100, "h100"))),
        raw_tx(95, 90, "bb", None),
        raw_tx(90, 7, "cc", Some(decoded_tx(90, "h90"))),
    ];
    let d = internal_get_transactions(true, None, 10, Ok(raw)).expect("page must build");
    assert_eq!(d.transactions.len(), 2);
    assert_eq!(d.transactions[0].id.lt, 100);
    assert_eq!(d.transactions[1].id.lt, 90);
    let info = d.info.expect("batch range comes from the full raw sequence");
    assert_eq!(info.max_lt, 100);
    assert_eq!(info.min_lt, 90);
    let c = d.continuation.expect("continuation comes from the full raw sequence");
    assert_eq!(c.lt, 7);
    assert_eq!(c.hash, "cc");
}

#[test]
fn plan_without_cursor_starts_at_newest() {
    let plan = plan_transactions_fetch(None, 30).expect("absent cursor is ok");
    assert_eq!(plan.before_lt, u64::MAX);
    assert_eq!(plan.limit, 30);
}

#[test]
fn plan_decodes_cursor_text() {
    let plan =
        plan_transactions_fetch(Some("{\"lt\":5000,\"hash\":\"abc\"}"), 7).expect("cursor is ok");
    assert_eq!(plan.before_lt, 5000);
    assert_eq!(plan.limit, 7);
}

#[test]
fn plan_decodes_cursor_with_string_lt() {
    let plan = plan_transactions_fetch(Some("{\"lt\":\"1234\",\"hash\":\"abc\"}"), 1)
        .expect("decimal string lt is ok");
    assert_eq!(plan.before_lt, 1234);
}

#[test]
fn malformed_cursor_is_conversion_error() {
    match plan_transactions_fetch(Some("not json"), 7) {
        Err(e) => assert_eq!(e.status, Status::ConversionError),
        Ok(_) => panic!("malformed cursor must fail"),
    }
    match internal_get_transactions(true, Some("{}".to_string()), 7, Ok(Vec::new())) {
        Err(e) => assert_eq!(e.status, Status::ConversionError),
        Ok(_) => panic!("malformed cursor must fail the call"),
    }
}

#[test]
fn invalid_address_is_invalid_input() {
    match internal_get_transactions(false, None, 7, Ok(Vec::new())) {
        Err(e) => assert_eq!(e.status, Status::InvalidInput),
        Ok(_) => panic!("invalid address must fail"),
    }
    match internal_get_full_account_state(false, Ok(RawContractState::NotExists)) {
        Err(e) => assert_eq!(e.status, Status::InvalidInput),
        Ok(_) => panic!("invalid address must fail"),
    }
}

#[test]
fn transport_fault_is_transport_error() {
    match internal_get_transactions(true, None, 7, Err("backend down".to_string())) {
        Err(e) => {
            assert_eq!(e.status, Status::TransportError);
            assert_eq!(e.message, "backend down");
        }
        Ok(_) => panic!("transport fault must fail"),
    }
    match internal_get_full_account_state(true, Err("backend down".to_string())) {
        Err(e) => assert_eq!(e.status, Status::TransportError),
        Ok(_) => panic!("transport fault must fail"),
    }
}

#[test]
fn absent_account_is_successful_empty_snapshot() {
    let r = internal_get_full_account_state(true, Ok(RawContractState::NotExists));
    match r {
        Ok(None) => {}
        _ => panic!("an absent account is a success with an empty snapshot"),
    }
}

#[test]
fn account_snapshot_carries_encoded_container() {
    let state = RawContractState::Exists(ExistingContract {
        balance: "123456".to_string(),
        gen_timings: GenTimings::Known {
            gen_lt: 44,
            gen_utime: 55,
        },
        last_transaction_id: Some(TransactionId {
            lt: 10,
            hash: "ff".to_string(),
        }),
        is_active: true,
        account_cells: Ok(b"hello".to_vec()),
    });
    let snapshot = build_account_snapshot(state)
        .expect("serialized state is ok")
        .expect("existing account yields a snapshot");
    assert_eq!(snapshot.balance, "123456");
    assert_eq!(
        snapshot.gen_timings,
        GenTimings::Known {
            gen_lt: 44,
            gen_utime: 55
        }
    );
    assert_eq!(snapshot.last_transaction_id.unwrap().lt, 10);
    assert!(snapshot.is_deployed);
    assert_eq!(snapshot.boc, "aGVsbG8=");
}

#[test]
fn frozen_account_is_not_deployed() {
    let state = RawContractState::Exists(ExistingContract {
        balance: "0".to_string(),
        gen_timings: GenTimings::Unknown,
        last_transaction_id: None,
        is_active: false,
        account_cells: Ok(Vec::new()),
    });
    let snapshot = build_account_snapshot(state)
        .expect("serialized state is ok")
        .expect("existing account yields a snapshot");
    assert!(!snapshot.is_deployed);
    assert_eq!(snapshot.boc, "");
}

#[test]
fn serialization_fault_is_conversion_error() {
    let state = RawContractState::Exists(ExistingContract {
        balance: "0".to_string(),
        gen_timings: GenTimings::Unknown,
        last_transaction_id: None,
        is_active: true,
        account_cells: Err("cell overflow".to_string()),
    });
    match build_account_snapshot(state) {
        Err(e) => assert_eq!(e.status, Status::ConversionError),
        Ok(_) => panic!("a serialization fault must fail"),
    }
}

#[test]
fn call_on_vacant_handle_is_mutex_error() {
    let mut slot = HandleSlot::vacant();
    let d = get_full_account_state(3, &mut slot, true, Ok(RawContractState::NotExists));
    assert_eq!(d.port, 3);
    match d.result {
        Err(e) => assert_eq!(e.status, Status::MutexError),
        Ok(_) => panic!("a vacant handle must fail the call"),
    }
    assert_eq!(slot.peek(), None);
}

#[test]
fn call_restores_handle_on_success_and_failure() {
    let mut slot = HandleSlot::new(42);
    let d = get_full_account_state(1, &mut slot, true, Ok(RawContractState::NotExists));
    assert!(d.result.is_ok());
    assert_eq!(slot.peek(), Some(42));

    let d = get_transactions(2, &mut slot, false, None, 5, Ok(Vec::new()));
    match d.result {
        Err(e) => assert_eq!(e.status, Status::InvalidInput),
        Ok(_) => panic!("invalid address must fail"),
    }
    assert_eq!(slot.peek(), Some(42));

    let d = get_transactions(3, &mut slot, true, None, 5, Err("down".to_string()));
    match d.result {
        Err(e) => assert_eq!(e.status, Status::TransportError),
        Ok(_) => panic!("transport fault must fail"),
    }
    assert_eq!(slot.peek(), Some(42));
}

#[test]
fn end_to_end_two_transaction_page() {
    let mut slot = HandleSlot::new(9);
    let raw = vec![
        raw_tx(100, 50, "h50", Some(decoded_tx(100, "h100"))),
        raw_tx(90, 0, "h0", Some(decoded_tx(90, "h90"))),
    ];
    let d = get_transactions(7, &mut slot, true, None, 2, Ok(raw));
    assert_eq!(d.port, 7);
    let list = d.result.expect("the call succeeds");
    assert_eq!(list.transactions.len(), 2);
    assert_eq!(list.transactions[0].id.lt, 100);
    assert_eq!(list.transactions[1].id.lt, 90);
    assert!(list.continuation.is_none());
    let info = list.info.expect("two transactions yield a batch range");
    assert_eq!(info.min_lt, 90);
    assert_eq!(info.max_lt, 100);
    assert_eq!(slot.peek(), Some(9));
}

#[test]
fn encoding_outcome_keeps_payload_and_maps_fault() {
    match outcome_from_encoding(Ok(123)) {
        CallOutcome::Success(p) => assert_eq!(p, 123),
        _ => panic!("a successful encoding keeps its payload handle"),
    }
    match outcome_from_encoding(Err("bad utf8".to_string())) {
        CallOutcome::Failure(e) => assert_eq!(e.status, Status::ConversionError),
        _ => panic!("an encoding fault maps to a conversion error"),
    }
}

#[test]
fn concurrent_calls_never_observe_missing_handle() {
    let rt = tokio::runtime::Runtime::new().expect("runtime starts");
    let slot = std::sync::Arc::new(tokio::sync::Mutex::new(HandleSlot::new(1)));
    rt.block_on(async {
        let mut joins = Vec::new();
        for i in 0..64i64 {
            let slot = std::sync::Arc::clone(&slot);
            joins.push(tokio::spawn(async move {
                let mut guard = slot.lock().await;
                let d = get_transactions(i, &mut guard, true, None, 1, Ok(Vec::new()));
                assert_eq!(d.port, i);
                if let Err(e) = d.result {
                    assert_ne!(e.status, Status::MutexError, "spurious missing-handle report");
                }
            }));
        }
        for j in joins {
            j.await.expect("no concurrent call may fail");
        }
    });
    let guard = rt.block_on(slot.lock());
    assert_eq!(guard.peek(), Some(1));
}

#[test]
fn destroyed_handle_fails_until_reinitialized() {
    let mut slot = HandleSlot::new(8);
    slot.destroy();
    let d = get_transactions(11, &mut slot, true, None, 4, Ok(Vec::new()));
    match d.result {
        Err(e) => assert_eq!(e.status, Status::MutexError),
        Ok(_) => panic!("a destroyed handle must fail the call"),
    }
    assert_eq!(slot.peek(), None);
    slot.restore(8);
    let d = get_transactions(12, &mut slot, true, None, 4, Ok(Vec::new()));
    assert!(d.result.is_ok());
    assert_eq!(slot.peek(), Some(8));
}
