//! The executable transaction record, its rollup extension, and the
//! adapter that turns a call request into one.

use vstd::prelude::*;
use crate::primitives::{Address, B256, U256, zero_address, zero_word};
use crate::env::EvmEnv;
use crate::env::ProtocolSpec;

verus! {

/// Type byte of a rollup deposit transaction.
pub const DEPOSIT_TRANSACTION_TYPE: u8 = 126;

/// Whether a transaction creates a contract or calls an address.
#[derive(Debug, Clone, Copy, PartialEq, Eq)]
pub enum TxKind {
    Create,
    Call(Address),
}

/// One entry of an access list.
#[derive(Debug, Clone, PartialEq, Eq)]
pub struct AccessListItem {
    pub address: Address,
    pub storage_keys: Vec<B256>,
}

/// A signed authorization to install delegated code.
#[derive(Debug, Clone, Copy, PartialEq, Eq)]
pub struct Authorization {
    pub chain_id: U256,
    pub address: Address,
    pub nonce: u64,
    pub y_parity: u8,
    pub r: U256,
    pub s: U256,
}

/// The call data of a request, which may come under either of two names.
#[derive(Debug, Clone, PartialEq, Eq)]
pub struct TransactionInput {
    pub input: Option<Vec<u8>>,
    pub data: Option<Vec<u8>>,
}

/// Both names of the call data were set, to different bytes.
#[derive(Debug, Clone, Copy, PartialEq, Eq, Structural)]
pub struct TransactionInputError;

/// A call request: any transaction shape, with any field left out.
#[derive(Debug, Clone, PartialEq, Eq)]
pub struct TransactionRequest {
    pub from: Option<Address>,
    pub to: Option<TxKind>,
    pub gas_price: Option<u128>,
    pub max_fee_per_gas: Option<u128>,
    pub max_priority_fee_per_gas: Option<u128>,
    pub gas: Option<u64>,
    pub value: Option<U256>,
    pub input: TransactionInput,
    pub nonce: Option<u64>,
    pub access_list: Option<Vec<AccessListItem>>,
    pub chain_id: Option<u64>,
    pub blob_versioned_hashes: Option<Vec<B256>>,
    pub max_fee_per_blob_gas: Option<u128>,
    pub authorization_list: Option<Vec<Authorization>>,
}

/// The executable record of a transaction.
#[derive(Debug, Clone, PartialEq, Eq)]
pub struct TxEnv {
    pub tx_type: u8,
    pub caller: Address,
    pub gas_limit: u64,
    /// Legacy gas price, or the fee cap of a fee-market transaction.
    pub gas_price: u128,
    pub kind: TxKind,
    pub value: U256,
    pub data: Vec<u8>,
    pub nonce: u64,
    pub chain_id: Option<u64>,
    pub access_list: Vec<AccessListItem>,
    pub gas_priority_fee: Option<u128>,
    pub blob_hashes: Vec<B256>,
    pub max_fee_per_blob_gas: u128,
    pub authorization_list: Vec<Authorization>,
}

/// What a rollup deposit carries besides the common record.
#[derive(Debug, Clone, Copy, PartialEq, Eq)]
pub struct DepositTransactionParts {
    pub source_hash: B256,
    pub mint: Option<u128>,
    pub is_system_transaction: bool,
}

impl DepositTransactionParts {
    /// The parts of a transaction that is no deposit.
    pub fn none() -> (r: DepositTransactionParts)
        ensures
            forall|i: int| 0 <= i < 32 ==> r.source_hash[i] == 0u8,
            r.mint.is_none(),
            !r.is_system_transaction,
    {
        DepositTransactionParts { source_hash: zero_word(), mint: None, is_system_transaction: false }
    }
}

/// The executable record of a rollup transaction: the common record, the
/// transaction's wire bytes where known, and the deposit parts.
#[derive(Debug, Clone, PartialEq, Eq)]
pub struct OpTransaction {
    pub base: TxEnv,
    pub enveloped_tx: Option<Vec<u8>>,
    pub deposit: DepositTransactionParts,
}

impl OpTransaction {
    /// The transaction's wire bytes, where known.
    pub fn encoded_bytes(&self) -> (r: Option<&Vec<u8>>)
        ensures
            r == match &self.enveloped_tx {
                Some(b) => Some(b),
                None => None::<&Vec<u8>>,
            },
    {
        match &self.enveloped_tx {
            Some(b) => Some(b),
            None => None,
        }
    }
}

/// Why fee fields of a request were refused.
#[derive(Debug, Clone, Copy, PartialEq, Eq, Structural)]
pub enum CallFeesError {
    /// A blob fee was given, or a blob-hash list was present, without hashes.
    BlobTransactionMissingBlobHashes,
    /// The priority fee exceeds the fee cap.
    TipAboveFeeCap,
    /// Base fee plus priority fee does not fit.
    TipVeryHigh,
    /// A legacy gas price was given together with fee-market fields.
    ConflictingFeeFieldsInRequest,
}

/// Why a request could not be adapted.
#[derive(Debug, Clone, Copy, PartialEq, Eq, Structural)]
pub enum EthTxEnvError {
    CallFees(CallFeesError),
    Input(TransactionInputError),
}

/// Fees settled for a request.
#[derive(Debug, Clone, Copy, PartialEq, Eq, Structural)]
pub struct CallFees {
    pub max_priority_fee_per_gas: Option<u128>,
    /// Legacy price, or the fee cap.
    pub gas_price: u128,
    pub max_fee_per_blob_gas: Option<u128>,
}

/// The fee settlement: a legacy price serves as price and priority fee;
/// fee-market fields need a cap at least the priority fee (a missing cap is
/// base fee plus priority fee, a missing priority fee is zero); with no fee
/// field the price is the base fee with zero priority fee. A blob fee is
/// taken as given where hashes are present, else the block's blob price.
pub open spec fn call_fees_of(
    gas_price: Option<u128>,
    max_fee: Option<u128>,
    prio: Option<u128>,
    base_fee: u128,
    has_hashes: bool,
    blob_fee: Option<u128>,
    block_blob_fee: Option<u128>,
) -> Result<CallFees, CallFeesError> {
    let blob = match blob_fee {
        Some(b) => Some(b),
        None => if has_hashes { block_blob_fee } else { None },
    };
    if gas_price.is_some() && (max_fee.is_some() || prio.is_some() || blob_fee.is_some()) {
        Err(CallFeesError::ConflictingFeeFieldsInRequest)
    } else if blob_fee.is_some() && !has_hashes {
        Err(CallFeesError::BlobTransactionMissingBlobHashes)
    } else {
        match (gas_price, max_fee, prio) {
            (Some(p), _, _) => Ok(CallFees { gas_price: p, max_priority_fee_per_gas: Some(p), max_fee_per_blob_gas: blob }),
            (None, None, None) => Ok(CallFees { gas_price: base_fee, max_priority_fee_per_gas: Some(0), max_fee_per_blob_gas: blob }),
            (None, Some(m), None) => Ok(CallFees { gas_price: m, max_priority_fee_per_gas: Some(0), max_fee_per_blob_gas: blob }),
            (None, Some(m), Some(t)) => if m < t {
                Err(CallFeesError::TipAboveFeeCap)
            } else {
                Ok(CallFees { gas_price: m, max_priority_fee_per_gas: Some(t), max_fee_per_blob_gas: blob })
            },
            (None, None, Some(t)) => if base_fee + t > u128::MAX {
                Err(CallFeesError::TipVeryHigh)
            } else {
                Ok(CallFees { gas_price: (base_fee + t) as u128, max_priority_fee_per_gas: Some(t), max_fee_per_blob_gas: blob })
            },
        }
    }
}

impl CallFees {
    /// Settles the fee fields of a request against the block's base fee and
    /// blob price.
    pub fn ensure_fees(
        gas_price: Option<u128>,
        max_fee: Option<u128>,
        prio: Option<u128>,
        base_fee: u128,
        has_hashes: bool,
        blob_fee: Option<u128>,
        block_blob_fee: Option<u128>,
    ) -> (r: Result<CallFees, CallFeesError>)
        ensures
            r == call_fees_of(gas_price, max_fee, prio, base_fee, has_hashes, blob_fee, block_blob_fee),
            r matches Ok(f) ==> f.max_priority_fee_per_gas matches Some(t) && t <= f.gas_price,
    {
        let blob = match blob_fee {
            Some(b) => Some(b),
            None => if has_hashes { block_blob_fee } else { None },
        };
        if gas_price.is_some() && (max_fee.is_some() || prio.is_some() || blob_fee.is_some()) {
            return Err(CallFeesError::ConflictingFeeFieldsInRequest);
        }
        if blob_fee.is_some() && !has_hashes {
            return Err(CallFeesError::BlobTransactionMissingBlobHashes);
        }
        match (gas_price, max_fee, prio) {
            (Some(p), _, _) => Ok(CallFees { gas_price: p, max_priority_fee_per_gas: Some(p), max_fee_per_blob_gas: blob }),
            (None, None, None) => Ok(CallFees { gas_price: base_fee, max_priority_fee_per_gas: Some(0), max_fee_per_blob_gas: blob }),
            (None, Some(m), None) => Ok(CallFees { gas_price: m, max_priority_fee_per_gas: Some(0), max_fee_per_blob_gas: blob }),
            (None, Some(m), Some(t)) => if m < t {
                Err(CallFeesError::TipAboveFeeCap)
            } else {
                Ok(CallFees { gas_price: m, max_priority_fee_per_gas: Some(t), max_fee_per_blob_gas: blob })
            },
            (None, None, Some(t)) => if t > u128::MAX - base_fee {
                Err(CallFeesError::TipVeryHigh)
            } else {
                Ok(CallFees { gas_price: base_fee + t, max_priority_fee_per_gas: Some(t), max_fee_per_blob_gas: blob })
            },
        }
    }
}

/// The smallest transaction type that carries the request's fields.
pub open spec fn minimal_tx_type_of(r: TransactionRequest) -> u8 {
    if r.authorization_list.is_some() { 4 }
    else if r.blob_versioned_hashes.is_some() || r.max_fee_per_blob_gas.is_some() { 3 }
    else if r.max_fee_per_gas.is_some() || r.max_priority_fee_per_gas.is_some() { 2 }
    else if r.access_list.is_some() { 1 }
    else { 0 }
}

/// The call data of a request: the bytes under either name, the first
/// name preferred; refused where both are set and differ.
pub open spec fn unique_input_of(i: TransactionInput) -> Result<Seq<u8>, TransactionInputError> {
    match (i.input, i.data) {
        (Some(a), Some(b)) => if a@ != b@ { Err(TransactionInputError) } else { Ok(a@) },
        (Some(a), None) => Ok(a@),
        (None, Some(b)) => Ok(b@),
        (None, None) => Ok(Seq::<u8>::empty()),
    }
}

fn bytes_equal(a: &Vec<u8>, b: &Vec<u8>) -> (r: bool)
    ensures
        r == (a@ == b@),
{
    if a.len() != b.len() {
        return false;
    }
    let mut i: usize = 0;
    while i < a.len()
        invariant
            a.len() == b.len(),
            0 <= i <= a.len(),
            forall|j: int| 0 <= j < i ==> a@[j] == b@[j],
        decreases a.len() - i,
    {
        if a[i] != b[i] {
            return false;
        }
        i += 1;
    }
    assert(a@ =~= b@);
    true
}

impl TransactionRequest {
    pub fn minimal_tx_type(&self) -> (r: u8)
        ensures
            r == minimal_tx_type_of(*self),
    {
        if self.authorization_list.is_some() {
            4
        } else if self.blob_versioned_hashes.is_some() || self.max_fee_per_blob_gas.is_some() {
            3
        } else if self.max_fee_per_gas.is_some() || self.max_priority_fee_per_gas.is_some() {
            2
        } else if self.access_list.is_some() {
            1
        } else {
            0
        }
    }
}

impl TransactionInput {
    /// The call data under either name; an error where both are set and
    /// differ.
    pub fn try_into_unique_input(self) -> (r: Result<Vec<u8>, TransactionInputError>)
        ensures
            match (r, unique_input_of(self)) {
                (Ok(v), Ok(s)) => v@ == s,
                (Err(e), Err(f)) => e == f,
                _ => false,
            },
    {
        match (self.input, self.data) {
            (Some(a), Some(b)) => if bytes_equal(&a, &b) { Ok(a) } else { Err(TransactionInputError) },
            (Some(a), None) => Ok(a),
            (None, Some(b)) => Ok(b),
            (None, None) => Ok(Vec::new()),
        }
    }
}

/// Whether a request's blob-hash list is present and empty.
pub open spec fn has_empty_hash_list(r: TransactionRequest) -> bool {
    r.blob_versioned_hashes matches Some(h) && h@.len() == 0
}

pub open spec fn has_hashes(r: TransactionRequest) -> bool {
    r.blob_versioned_hashes matches Some(h) && h@.len() > 0
}

/// The fee settlement of a request against an environment.
pub open spec fn request_fees<S>(r: TransactionRequest, env: EvmEnv<S>) -> Result<CallFees, CallFeesError> {
    call_fees_of(
        r.gas_price,
        r.max_fee_per_gas,
        r.max_priority_fee_per_gas,
        env.block_env.basefee as u128,
        has_hashes(r),
        r.max_fee_per_blob_gas,
        match env.block_env.blob_excess_gas_and_price {
            Some(b) => Some(b.blob_gasprice),
            None => None,
        },
    )
}

/// When adaptation fails, and with which error: an empty blob-hash list
/// first, then conflicting call data, then the fee settlement.
pub open spec fn adapt_error<S>(r: TransactionRequest, env: EvmEnv<S>) -> Option<EthTxEnvError> {
    if has_empty_hash_list(r) {
        Some(EthTxEnvError::CallFees(CallFeesError::BlobTransactionMissingBlobHashes))
    } else if unique_input_of(r.input) is Err {
        Some(EthTxEnvError::Input(TransactionInputError))
    } else {
        match request_fees(r, env) {
            Err(e) => Some(EthTxEnvError::CallFees(e)),
            Ok(_) => None,
        }
    }
}

pub open spec fn is_zero_address(a: Address) -> bool {
    forall|i: int| 0 <= i < 20 ==> a[i] == 0u8
}

/// What a successful adaptation yields, field by field.
pub open spec fn adapted<S>(r: TransactionRequest, env: EvmEnv<S>, t: TxEnv) -> bool {
    let fees = request_fees(r, env)->Ok_0;
    &&& t.tx_type == minimal_tx_type_of(r)
    &&& t.gas_limit == match r.gas { Some(g) => g, None => env.block_env.gas_limit }
    &&& t.nonce == match r.nonce { Some(n) => n, None => 0 }
    &&& match r.from { Some(a) => t.caller == a, None => is_zero_address(t.caller) }
    &&& t.gas_price == fees.gas_price
    &&& t.gas_priority_fee == fees.max_priority_fee_per_gas
    &&& t.kind == match r.to { Some(k) => k, None => TxKind::Create }
    &&& t.value == match r.value { Some(v) => v, None => U256 { hi: 0, lo: 0 } }
    &&& t.data@ == unique_input_of(r.input)->Ok_0
    &&& t.chain_id == Some(match r.chain_id { Some(c) => c, None => env.cfg_env.chain_id })
    &&& t.access_list@ == match r.access_list { Some(l) => l@, None => Seq::<AccessListItem>::empty() }
    &&& t.blob_hashes@ == match r.blob_versioned_hashes { Some(h) => h@, None => Seq::<B256>::empty() }
    &&& t.max_fee_per_blob_gas == match fees.max_fee_per_blob_gas { Some(b) => b, None => 0 }
    &&& t.authorization_list@ == match r.authorization_list { Some(l) => l@, None => Seq::<Authorization>::empty() }
}

impl TransactionRequest {
    /// Adapts a call request to an executable record against a block's
    /// environment, validating before defaulting.
    pub fn try_into_tx_env<S: ProtocolSpec>(self, env: &EvmEnv<S>) -> (r: Result<TxEnv, EthTxEnvError>)
        ensures
            match adapt_error(self, *env) {
                Some(e) => r == Err::<TxEnv, EthTxEnvError>(e),
                None => r matches Ok(t) && adapted(self, *env, t),
            },
            r matches Ok(t) ==> t.gas_priority_fee matches Some(p) && p <= t.gas_price,
    {
        let hashes_present = match &self.blob_versioned_hashes {
            Some(h) => h.len() > 0,
            None => false,
        };
        let hashes_empty = match &self.blob_versioned_hashes {
            Some(h) => h.len() == 0,
            None => false,
        };
        if hashes_empty {
            return Err(EthTxEnvError::CallFees(CallFeesError::BlobTransactionMissingBlobHashes));
        }
        let tx_type = self.minimal_tx_type();
        let data = match self.input.try_into_unique_input() {
            Ok(d) => d,
            Err(e) => {
                return Err(EthTxEnvError::Input(e));
            },
        };
        let fees = match CallFees::ensure_fees(
            self.gas_price,
            self.max_fee_per_gas,
            self.max_priority_fee_per_gas,
            env.block_env.basefee as u128,
            hashes_present,
            self.max_fee_per_blob_gas,
            env.block_env.blob_gasprice(),
        ) {
            Ok(f) => f,
            Err(e) => {
                return Err(EthTxEnvError::CallFees(e));
            },
        };
        let gas_limit = match self.gas {
            Some(g) => g,
            None => env.block_env.gas_limit,
        };
        let chain_id = match self.chain_id {
            Some(c) => c,
            None => env.cfg_env.chain_id,
        };
        let caller = match self.from {
            Some(a) => a,
            None => zero_address(),
        };
        let t = TxEnv {
            tx_type,
            caller,
            gas_limit,
            gas_price: fees.gas_price,
            kind: match self.to {
                Some(k) => k,
                None => TxKind::Create,
            },
            value: match self.value {
                Some(v) => v,
                None => U256::zero(),
            },
            data,
            nonce: match self.nonce {
                Some(n) => n,
                None => 0,
            },
            chain_id: Some(chain_id),
            access_list: match self.access_list {
                Some(l) => l,
                None => Vec::new(),
            },
            gas_priority_fee: fees.max_priority_fee_per_gas,
            blob_hashes: match self.blob_versioned_hashes {
                Some(h) => h,
                None => Vec::new(),
            },
            max_fee_per_blob_gas: match fees.max_fee_per_blob_gas {
                Some(b) => b,
                None => 0,
            },
            authorization_list: match self.authorization_list {
                Some(l) => l,
                None => Vec::new(),
            },
        };
        Ok(t)
    }
}

/// A call request addressed to the rollup.
#[derive(Debug, Clone, PartialEq, Eq)]
pub struct OpTransactionRequest {
    pub inner: TransactionRequest,
}

impl OpTransactionRequest {
    /// Adapts a rollup call request: the common record as for the base
    /// chain, empty wire bytes, and no deposit parts.
    pub fn try_into_tx_env<S: ProtocolSpec>(self, env: &EvmEnv<S>) -> (r: Result<OpTransaction, EthTxEnvError>)
        ensures
            match adapt_error(self.inner, *env) {
                Some(e) => r == Err::<OpTransaction, EthTxEnvError>(e),
                None => r is Ok && adapted(self.inner, *env, r->Ok_0.base)
                    && r->Ok_0.enveloped_tx is Some && r->Ok_0.enveloped_tx->Some_0@.len() == 0
                    && r->Ok_0.deposit.mint is None && !r->Ok_0.deposit.is_system_transaction,
            },
    {
        match self.inner.try_into_tx_env(env) {
            Ok(base) => Ok(OpTransaction { base, enveloped_tx: Some(Vec::new()), deposit: DepositTransactionParts::none() }),
            Err(e) => Err(e),
        }
    }
}

} // verus!
