//! Plain models of the chain data the bridge logic reads.
//!
//! The transport hands back rich foreign values (raw contract states, raw
//! transactions). The bridge's decisions depend only on a few plain fields of
//! them, so the boundary converts each foreign value into one of the models
//! below, and everything from there on is verified. What only the outside
//! collaborators can compute — parsing an address, serializing an account,
//! decoding one transaction — arrives as a plain value or a ready outcome
//! inside these models.

use vstd::prelude::*;

verus! {

/// A transaction's position on one account's chain: its logical time and
/// hash. Also the continuation cursor for pagination.
#[derive(Debug)]
pub struct TransactionId {
    pub lt: u64,
    pub hash: String,
}

impl Clone for TransactionId {
    fn clone(&self) -> (r: Self)
        ensures
            r == *self,
    {
        TransactionId { lt: self.lt, hash: self.hash.clone() }
    }
}

/// Equivalence of transaction ids: equal logical times and hash texts.
pub open spec fn id_equiv(a: TransactionId, b: TransactionId) -> bool {
    a.lt == b.lt && a.hash@ == b.hash@
}

/// Equivalence of optional transaction ids.
pub open spec fn opt_id_equiv(a: Option<TransactionId>, b: Option<TransactionId>) -> bool {
    match (a, b) {
        (Option::None, Option::None) => true,
        (Option::Some(x), Option::Some(y)) => id_equiv(x, y),
        _ => false,
    }
}

/// A decoded transaction record as delivered to the caller.
#[derive(Debug)]
pub struct Transaction {
    /// This transaction's id on the account's chain.
    pub id: TransactionId,
    /// The id of the previous transaction on the chain, absent at genesis.
    pub prev_trans_id: Option<TransactionId>,
    /// Whether the transaction was aborted.
    pub aborted: bool,
}

impl Clone for Transaction {
    fn clone(&self) -> (r: Self)
        ensures
            r == *self,
    {
        let prev_trans_id = match &self.prev_trans_id {
            Some(id) => Some(id.clone()),
            None => None,
        };
        Transaction { id: self.id.clone(), prev_trans_id, aborted: self.aborted }
    }
}

/// One raw transaction as fetched from the transport: the plain fields the
/// pagination logic reads, and the outcome of decoding it into a full
/// record. Decoding is the collaborator's work; a failed decode leaves
/// `decoded` empty and the record is silently dropped from the output page.
#[derive(Debug)]
pub struct RawTransaction {
    /// This transaction's logical time.
    pub lt: u64,
    /// The previous transaction's logical time; zero marks the genesis of
    /// the account's chain.
    pub prev_trans_lt: u64,
    /// The previous transaction's hash.
    pub prev_trans_hash: String,
    /// The decoded record, where decoding succeeded.
    pub decoded: Option<Transaction>,
}

/// Whether a fetched page's batch covers old or new transactions; a history
/// fetch always reports new.
#[derive(Clone, Copy, Debug, PartialEq, Eq, Structural)]
pub enum BatchType {
    Old,
    New,
}

/// The logical-time span covered by one fetched page.
#[derive(Clone, Copy, Debug, PartialEq, Eq, Structural)]
pub struct BatchInfo {
    pub min_lt: u64,
    pub max_lt: u64,
    pub batch_type: BatchType,
}

/// One page of transaction history: the decoded records newest first, the
/// cursor for the next older page, and the page's batch range.
#[derive(Debug)]
pub struct TransactionsList {
    pub transactions: Vec<Transaction>,
    pub continuation: Option<TransactionId>,
    pub info: Option<BatchInfo>,
}

/// When the observed account state was produced, where the transport knows
/// it.
#[derive(Clone, Copy, Debug, PartialEq, Eq, Structural)]
pub enum GenTimings {
    Unknown,
    Known { gen_lt: u64, gen_utime: u32 },
}

/// An existing account's raw state as converted at the transport boundary:
/// the plain fields the snapshot is built from, and the outcome of
/// serializing the account into its binary container.
#[derive(Debug)]
pub struct ExistingContract {
    /// The account balance as a decimal string.
    pub balance: String,
    /// Generation timing metadata.
    pub gen_timings: GenTimings,
    /// The account's last transaction, if any.
    pub last_transaction_id: Option<TransactionId>,
    /// Whether the account's state variant is active (deployed code).
    pub is_active: bool,
    /// The serialized binary container of the account, or the serializer's
    /// error message.
    pub account_cells: Result<Vec<u8>, String>,
}

/// The raw contract state a transport query yields: the account exists with
/// a state, or it is absent on chain.
#[derive(Debug)]
pub enum RawContractState {
    NotExists,
    Exists(ExistingContract),
}

/// The account snapshot delivered to the caller.
#[derive(Debug)]
pub struct FullContractState {
    /// The account balance as a decimal string.
    pub balance: String,
    /// Generation timing metadata.
    pub gen_timings: GenTimings,
    /// The account's last transaction, if any.
    pub last_transaction_id: Option<TransactionId>,
    /// Whether the account is deployed: its state variant is active.
    pub is_deployed: bool,
    /// The account's binary container in its text encoding.
    pub boc: String,
}

} // verus!
