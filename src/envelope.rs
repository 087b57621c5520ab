//! The transaction shapes a rollup block carries, and their normalization
//! into the one executable record.

use vstd::prelude::*;
use crate::primitives::{Address, B256, U256};
use crate::tx::{AccessListItem, Authorization, DepositTransactionParts, OpTransaction, TxEnv, TxKind, DEPOSIT_TRANSACTION_TYPE};

verus! {

/// A transaction priced by a single gas price.
#[derive(Debug, Clone, PartialEq, Eq)]
pub struct TxLegacy {
    pub chain_id: Option<u64>,
    pub nonce: u64,
    pub gas_price: u128,
    pub gas_limit: u64,
    pub to: TxKind,
    pub value: U256,
    pub input: Vec<u8>,
}

/// A gas-price transaction with an access list.
#[derive(Debug, Clone, PartialEq, Eq)]
pub struct TxEip2930 {
    pub chain_id: u64,
    pub nonce: u64,
    pub gas_price: u128,
    pub gas_limit: u64,
    pub to: TxKind,
    pub value: U256,
    pub access_list: Vec<AccessListItem>,
    pub input: Vec<u8>,
}

/// A fee-market transaction.
#[derive(Debug, Clone, PartialEq, Eq)]
pub struct TxEip1559 {
    pub chain_id: u64,
    pub nonce: u64,
    pub gas_limit: u64,
    pub max_fee_per_gas: u128,
    pub max_priority_fee_per_gas: u128,
    pub to: TxKind,
    pub value: U256,
    pub access_list: Vec<AccessListItem>,
    pub input: Vec<u8>,
}

/// A fee-market transaction that carries blobs; it always calls.
#[derive(Debug, Clone, PartialEq, Eq)]
pub struct TxEip4844 {
    pub chain_id: u64,
    pub nonce: u64,
    pub gas_limit: u64,
    pub max_fee_per_gas: u128,
    pub max_priority_fee_per_gas: u128,
    pub to: Address,
    pub value: U256,
    pub access_list: Vec<AccessListItem>,
    pub blob_versioned_hashes: Vec<B256>,
    pub max_fee_per_blob_gas: u128,
    pub input: Vec<u8>,
}

/// A fee-market transaction that carries code authorizations; it always
/// calls.
#[derive(Debug, Clone, PartialEq, Eq)]
pub struct TxEip7702 {
    pub chain_id: u64,
    pub nonce: u64,
    pub gas_limit: u64,
    pub max_fee_per_gas: u128,
    pub max_priority_fee_per_gas: u128,
    pub to: Address,
    pub value: U256,
    pub access_list: Vec<AccessListItem>,
    pub authorization_list: Vec<Authorization>,
    pub input: Vec<u8>,
}

/// A deposit from the settlement layer.
#[derive(Debug, Clone, PartialEq, Eq)]
pub struct TxDeposit {
    pub source_hash: B256,
    pub from: Address,
    pub to: TxKind,
    pub mint: u128,
    pub value: U256,
    pub gas_limit: u64,
    pub is_system_transaction: bool,
    pub input: Vec<u8>,
}

/// Every transaction shape of a rollup block.
#[derive(Debug, Clone, PartialEq, Eq)]
pub enum OpTxEnvelope {
    Legacy(TxLegacy),
    Eip2930(TxEip2930),
    Eip1559(TxEip1559),
    Eip7702(TxEip7702),
    Deposit(TxDeposit),
}

/// The record's fields that every shape sets alike from its own.
pub open spec fn common_fields(t: TxEnv, tx_type: u8, caller: Address, gas_limit: u64, kind: TxKind, value: U256, input: Seq<u8>, nonce: u64) -> bool {
    &&& t.tx_type == tx_type
    &&& t.caller == caller
    &&& t.gas_limit == gas_limit
    &&& t.kind == kind
    &&& t.value == value
    &&& t.data@ == input
    &&& t.nonce == nonce
}

/// The record's fields that a shape without them leaves at their defaults.
pub open spec fn no_blobs_or_authorizations(t: TxEnv) -> bool {
    &&& t.blob_hashes@.len() == 0
    &&& t.max_fee_per_blob_gas == 0
    &&& t.authorization_list@.len() == 0
}

/// How each shape fills the executable record: a gas price is the price, a
/// fee-market cap is the price with its priority fee beside it; deposits
/// pay nothing and carry no chain id or nonce.
pub open spec fn normalized(tx: OpTxEnvelope, caller: Address, t: TxEnv) -> bool {
    match tx {
        OpTxEnvelope::Legacy(x) => common_fields(t, 0, caller, x.gas_limit, x.to, x.value, x.input@, x.nonce)
            && t.gas_price == x.gas_price && t.gas_priority_fee.is_none() && t.chain_id == x.chain_id
            && t.access_list@.len() == 0 && no_blobs_or_authorizations(t),
        OpTxEnvelope::Eip2930(x) => common_fields(t, 1, caller, x.gas_limit, x.to, x.value, x.input@, x.nonce)
            && t.gas_price == x.gas_price && t.gas_priority_fee.is_none() && t.chain_id == Some(x.chain_id)
            && t.access_list@ == x.access_list@ && no_blobs_or_authorizations(t),
        OpTxEnvelope::Eip1559(x) => common_fields(t, 2, caller, x.gas_limit, x.to, x.value, x.input@, x.nonce)
            && t.gas_price == x.max_fee_per_gas && t.gas_priority_fee == Some(x.max_priority_fee_per_gas)
            && t.chain_id == Some(x.chain_id) && t.access_list@ == x.access_list@ && no_blobs_or_authorizations(t),
        OpTxEnvelope::Eip7702(x) => common_fields(t, 4, caller, x.gas_limit, TxKind::Call(x.to), x.value, x.input@, x.nonce)
            && t.gas_price == x.max_fee_per_gas && t.gas_priority_fee == Some(x.max_priority_fee_per_gas)
            && t.chain_id == Some(x.chain_id) && t.access_list@ == x.access_list@
            && t.authorization_list@ == x.authorization_list@ && t.blob_hashes@.len() == 0 && t.max_fee_per_blob_gas == 0,
        OpTxEnvelope::Deposit(x) => common_fields(t, DEPOSIT_TRANSACTION_TYPE, caller, x.gas_limit, x.to, x.value, x.input@, 0)
            && t.gas_price == 0 && t.gas_priority_fee.is_none() && t.chain_id.is_none()
            && t.access_list@.len() == 0 && no_blobs_or_authorizations(t),
    }
}

/// The blob-carrying shape fills the record likewise, with its blob hashes
/// and blob fee cap.
pub open spec fn normalized_blob(x: TxEip4844, caller: Address, t: TxEnv) -> bool {
    &&& common_fields(t, 3, caller, x.gas_limit, TxKind::Call(x.to), x.value, x.input@, x.nonce)
    &&& t.gas_price == x.max_fee_per_gas
    &&& t.gas_priority_fee == Some(x.max_priority_fee_per_gas)
    &&& t.chain_id == Some(x.chain_id)
    &&& t.access_list@ == x.access_list@
    &&& t.blob_hashes@ == x.blob_versioned_hashes@
    &&& t.max_fee_per_blob_gas == x.max_fee_per_blob_gas
    &&& t.authorization_list@.len() == 0
}

impl TxEnv {
    /// Normalizes a recovered transaction of any rollup shape.
    pub fn from_recovered_tx(tx: OpTxEnvelope, caller: Address) -> (r: TxEnv)
        ensures
            normalized(tx, caller, r),
    {
        match tx {
            OpTxEnvelope::Legacy(x) => TxEnv {
                tx_type: 0,
                caller,
                gas_limit: x.gas_limit,
                gas_price: x.gas_price,
                kind: x.to,
                value: x.value,
                data: x.input,
                nonce: x.nonce,
                chain_id: x.chain_id,
                access_list: Vec::new(),
                gas_priority_fee: None,
                blob_hashes: Vec::new(),
                max_fee_per_blob_gas: 0,
                authorization_list: Vec::new(),
            },
            OpTxEnvelope::Eip2930(x) => TxEnv {
                tx_type: 1,
                caller,
                gas_limit: x.gas_limit,
                gas_price: x.gas_price,
                kind: x.to,
                value: x.value,
                data: x.input,
                nonce: x.nonce,
                chain_id: Some(x.chain_id),
                access_list: x.access_list,
                gas_priority_fee: None,
                blob_hashes: Vec::new(),
                max_fee_per_blob_gas: 0,
                authorization_list: Vec::new(),
            },
            OpTxEnvelope::Eip1559(x) => TxEnv {
                tx_type: 2,
                caller,
                gas_limit: x.gas_limit,
                gas_price: x.max_fee_per_gas,
                kind: x.to,
                value: x.value,
                data: x.input,
                nonce: x.nonce,
                chain_id: Some(x.chain_id),
                access_list: x.access_list,
                gas_priority_fee: Some(x.max_priority_fee_per_gas),
                blob_hashes: Vec::new(),
                max_fee_per_blob_gas: 0,
                authorization_list: Vec::new(),
            },
            OpTxEnvelope::Eip7702(x) => TxEnv {
                tx_type: 4,
                caller,
                gas_limit: x.gas_limit,
                gas_price: x.max_fee_per_gas,
                kind: TxKind::Call(x.to),
                value: x.value,
                data: x.input,
                nonce: x.nonce,
                chain_id: Some(x.chain_id),
                access_list: x.access_list,
                gas_priority_fee: Some(x.max_priority_fee_per_gas),
                blob_hashes: Vec::new(),
                max_fee_per_blob_gas: 0,
                authorization_list: x.authorization_list,
            },
            OpTxEnvelope::Deposit(x) => TxEnv {
                tx_type: DEPOSIT_TRANSACTION_TYPE,
                caller,
                gas_limit: x.gas_limit,
                gas_price: 0,
                kind: x.to,
                value: x.value,
                data: x.input,
                nonce: 0,
                chain_id: None,
                access_list: Vec::new(),
                gas_priority_fee: None,
                blob_hashes: Vec::new(),
                max_fee_per_blob_gas: 0,
                authorization_list: Vec::new(),
            },
        }
    }

    /// Normalizes a recovered blob-carrying transaction.
    pub fn from_recovered_blob_tx(x: TxEip4844, caller: Address) -> (r: TxEnv)
        ensures
            normalized_blob(x, caller, r),
    {
        TxEnv {
            tx_type: 3,
            caller,
            gas_limit: x.gas_limit,
            gas_price: x.max_fee_per_gas,
            kind: TxKind::Call(x.to),
            value: x.value,
            data: x.input,
            nonce: x.nonce,
            chain_id: Some(x.chain_id),
            access_list: x.access_list,
            gas_priority_fee: Some(x.max_priority_fee_per_gas),
            blob_hashes: x.blob_versioned_hashes,
            max_fee_per_blob_gas: x.max_fee_per_blob_gas,
            authorization_list: Vec::new(),
        }
    }
}

/// The deposit parts of a shape: a deposit's source hash, mint and system
/// flag; none for the others.
pub open spec fn deposit_parts_of(tx: OpTxEnvelope) -> (Option<u128>, bool) {
    match tx {
        OpTxEnvelope::Deposit(x) => (Some(x.mint), x.is_system_transaction),
        _ => (None, false),
    }
}

impl OpTransaction {
    /// The rollup record of a recovered transaction with its wire bytes:
    /// the normalized record, the bytes, and a deposit's own parts.
    pub fn from_encoded_tx(tx: OpTxEnvelope, caller: Address, encoded: Vec<u8>) -> (r: OpTransaction)
        ensures
            normalized(tx, caller, r.base),
            r.enveloped_tx is Some && r.enveloped_tx->Some_0@ == encoded@,
            (r.deposit.mint, r.deposit.is_system_transaction) == deposit_parts_of(tx),
            tx matches OpTxEnvelope::Deposit(d) ==> r.deposit.source_hash == d.source_hash,
    {
        let deposit = match &tx {
            OpTxEnvelope::Deposit(d) => DepositTransactionParts {
                source_hash: d.source_hash,
                mint: Some(d.mint),
                is_system_transaction: d.is_system_transaction,
            },
            _ => DepositTransactionParts::none(),
        };
        let base = TxEnv::from_recovered_tx(tx, caller);
        OpTransaction { base, enveloped_tx: Some(encoded), deposit }
    }
}

} // verus!
