//! The rollup block executor: a state machine that takes a block from
//! pre-execution through per-transaction admission and commit to its
//! finished result. The interpreter and the state store stand outside; the
//! executor decides and accounts, the caller performs.

use vstd::prelude::*;
use crate::primitives::{Address, B256, U256};
use crate::op_hardfork::OpHardforks;
use crate::env::BlockEnv;
use crate::tx::{OpTransaction, DEPOSIT_TRANSACTION_TYPE};
use crate::error::{EVMError, OpTransactionError};

verus! {

/// Byte offset, within the fee-parameter storage word, of the DA-footprint
/// scalar.
pub const DA_FOOTPRINT_GAS_SCALAR_OFFSET: usize = 18;

/// Size units per unit of DA footprint.
pub const DA_FOOTPRINT_SIZE_UNIT: u64 = 1000000;

/// Longest byte string whose compressed size is estimated.
pub const MAX_ESTIMABLE_LEN: usize = 0x7fff_ffff;

/// Smallest compressed-size estimate of any transaction.
pub const MIN_TX_SIZE_SCALED: u64 = 100000000;

/// The compressed-size estimate of a transaction's bytes, scaled by a
/// million, as the rollup's fee model computes it.
pub uninterp spec fn compressed_size_estimate(bytes: Seq<u8>) -> u64;

/// Relies on op_revm `estimate_tx_compressed_size`: the estimate depends on
/// the bytes alone and is never below `MIN_TX_SIZE_SCALED` (its last step
/// takes the maximum with that floor). Its compressor keeps positions and
/// its running size in 32 bits; the size grows by at most 33 per 32 input
/// bytes plus a few per match, so inputs below 2^31 bytes cannot overflow.
#[verifier::external_body]
fn estimate_tx_compressed_size(bytes: &Vec<u8>) -> (r: u64)
    requires
        bytes@.len() <= MAX_ESTIMABLE_LEN,
    ensures
        r == compressed_size_estimate(bytes@),
        r >= MIN_TX_SIZE_SCALED,
{
    op_revm::estimate_tx_compressed_size(bytes)
}

/// The DA-footprint scalar held in big-endian order at its offset of the
/// fee-parameter storage word.
pub open spec fn scalar_of_word(word: B256) -> int {
    word[DA_FOOTPRINT_GAS_SCALAR_OFFSET as int] as int * 256 + word[DA_FOOTPRINT_GAS_SCALAR_OFFSET as int + 1] as int
}

/// Reads the DA-footprint scalar from the fee-parameter storage word.
pub fn da_footprint_scalar(word: &B256) -> (r: u16)
    ensures
        r as int == scalar_of_word(*word),
{
    let hi = word[DA_FOOTPRINT_GAS_SCALAR_OFFSET] as u16;
    let lo = word[DA_FOOTPRINT_GAS_SCALAR_OFFSET + 1] as u16;
    hi * 256 + lo
}

/// The DA footprint of a transaction: its compressed-size estimate in
/// millions, rounded up, times the scalar.
pub open spec fn da_footprint_of(bytes: Seq<u8>, scalar: u16) -> int {
    let size = compressed_size_estimate(bytes) as int;
    let units = if size % (DA_FOOTPRINT_SIZE_UNIT as int) == 0 {
        size / (DA_FOOTPRINT_SIZE_UNIT as int)
    } else {
        size / (DA_FOOTPRINT_SIZE_UNIT as int) + 1
    };
    units * scalar
}

/// A log emitted during execution.
#[derive(Debug, Clone, PartialEq, Eq)]
pub struct Log {
    pub address: Address,
    pub topics: Vec<B256>,
    pub data: Vec<u8>,
}

/// What the interpreter reports of one transaction.
#[derive(Debug, Clone, PartialEq, Eq)]
pub struct ExecutionOutcome {
    pub success: bool,
    pub gas_used: u64,
    pub logs: Vec<Log>,
}

/// A transaction of the block, as the executor sees it.
#[derive(Debug, Clone, PartialEq, Eq)]
pub struct BlockTransaction {
    pub tx_type: u8,
    pub gas_limit: u64,
    /// The recovered sender.
    pub signer: Address,
    /// The canonical hash.
    pub hash: B256,
    /// A fresh typed encoding of the transaction.
    pub encoded_2718: Vec<u8>,
    /// The executable record, with the wire bytes as received, where known.
    pub env: OpTransaction,
}

pub open spec fn is_deposit(tx: BlockTransaction) -> bool {
    tx.tx_type == DEPOSIT_TRANSACTION_TYPE
}

/// The bytes the DA footprint is estimated from: the wire bytes as received
/// where known, else the fresh encoding.
pub open spec fn footprint_bytes(tx: BlockTransaction) -> Seq<u8> {
    match tx.env.enveloped_tx {
        Some(b) => b@,
        None => tx.encoded_2718@,
    }
}

/// The bytes a footprint is estimated from are within the estimator's
/// 32-bit arithmetic.
pub open spec fn estimable(tx: BlockTransaction) -> bool {
    footprint_bytes(tx).len() <= MAX_ESTIMABLE_LEN
}

/// A consensus receipt.
#[derive(Debug, Clone, PartialEq, Eq)]
pub struct OpReceipt {
    pub tx_type: u8,
    pub success: bool,
    pub cumulative_gas_used: u64,
    pub logs: Vec<Log>,
    /// The depositor's nonce before execution; deposits only.
    pub deposit_nonce: Option<u64>,
    /// Receipt-format version; deposits from Canyon on only.
    pub deposit_receipt_version: Option<u64>,
}

/// Failures particular to rollup block execution.
#[derive(Debug, Clone, PartialEq, Eq)]
pub enum OpBlockExecutionError {
    /// The depositor's account could not be loaded.
    LoadCacheAccount,
    /// The DA-footprint scalar could not be read from the store.
    GetJovianDaFootprintScalar(String),
    /// The transaction's DA footprint exceeds what is left of the block's.
    TransactionDaFootprintAboveGasLimit { transaction_da_footprint: u64, available_block_da_footprint: u64 },
}

/// Failures that indict the whole block.
#[derive(Debug, Clone, PartialEq, Eq)]
pub enum BlockValidationError {
    /// The transaction's gas limit exceeds what is left of the block's.
    TransactionGasLimitMoreThanAvailableBlockGas { transaction_gas_limit: u64, block_available_gas: u64 },
    /// Post-block balance increments could not be applied.
    IncrementBalanceFailed,
    /// A rollup-specific block validation failure.
    Other(OpBlockExecutionError),
}

/// Failures of block execution.
#[derive(Debug, Clone, PartialEq, Eq)]
pub enum BlockExecutionError {
    /// The block is invalid.
    Validation(BlockValidationError),
    /// Executing a transaction failed; carries the transaction's hash.
    Evm { error: EVMError<OpTransactionError>, hash: B256 },
    /// An infrastructure failure particular to the rollup.
    Other(OpBlockExecutionError),
}

impl BlockExecutionError {
    /// Attaches a transaction's hash to its execution failure.
    pub fn evm(error: EVMError<OpTransactionError>, hash: B256) -> (r: BlockExecutionError)
        ensures
            r == (BlockExecutionError::Evm { error, hash }),
    {
        BlockExecutionError::Evm { error, hash }
    }

    /// Whether the failure is a transaction's own validation failure, after
    /// which building may go on without that transaction.
    pub fn is_invalid_tx_err(&self) -> (r: bool)
        ensures
            r == (*self matches BlockExecutionError::Evm { error: EVMError::Transaction(_), .. }),
    {
        match self {
            BlockExecutionError::Evm { error: EVMError::Transaction(_), .. } => true,
            _ => false,
        }
    }
}

/// Parent-block data the executor needs.
#[derive(Debug, Clone, PartialEq, Eq)]
pub struct OpBlockExecutionCtx {
    pub parent_hash: B256,
    pub parent_beacon_block_root: Option<B256>,
    pub extra_data: Vec<u8>,
}

/// What pre-execution asks of the caller: the state-clearing flag, the
/// two system calls and whether the deployer contract is to be installed.
#[derive(Debug, Clone, Copy, PartialEq, Eq)]
pub struct PreExecutionChanges {
    pub state_clear_flag: bool,
    /// Parent hash for the historical block-hash system call.
    pub parent_hash: B256,
    /// Root for the beacon-root system call.
    pub parent_beacon_block_root: Option<B256>,
    /// Whether this block is the deployer contract's activation boundary.
    pub deploy_create2_deployer: bool,
}

/// The outcome of a finished block.
#[derive(Debug, Clone, PartialEq, Eq)]
pub struct BlockExecutionResult {
    pub receipts: Vec<OpReceipt>,
    /// Legacy gas used: the last receipt's cumulative gas.
    pub gas_used: u64,
    /// The DA footprint consumed, reported in the blob-gas slot.
    pub blob_gas_used: u64,
    /// Balance increments applied after the last transaction.
    pub balance_increments: Vec<(Address, u128)>,
}

pub open spec fn sat_u64(v: U256) -> u64 {
    if v.value() <= u64::MAX { v.value() as u64 } else { u64::MAX }
}

pub open spec fn seq_sum(s: Seq<u64>) -> int
    decreases s.len(),
{
    if s.len() == 0 { 0 } else { seq_sum(s.drop_last()) + s.last() }
}

/// The rollup block executor.
pub struct OpBlockExecutor {
    pub spec: OpHardforks,
    pub ctx: OpBlockExecutionCtx,
    pub block: BlockEnv,
    pub receipts: Vec<OpReceipt>,
    /// Total gas used by committed transactions.
    pub gas_used: u64,
    /// DA footprint consumed by committed transactions.
    pub da_footprint_used: u64,
    pub is_regolith: bool,
    /// Gas reported by each committed transaction, in order.
    pub gas_reports: Ghost<Seq<u64>>,
}

/// The admission decision for a transaction: the block gas check (deposits
/// before Regolith exempt), then the DA-footprint budget for non-deposits
/// from Jovian on.
pub open spec fn admission_of(e: OpBlockExecutor, tx: BlockTransaction, scalar: u16) -> Result<(), BlockExecutionError> {
    let available = (e.block.gas_limit - e.gas_used) as u64;
    let da_available = (e.block.gas_limit - e.da_footprint_used) as u64;
    let footprint = da_footprint_of(footprint_bytes(tx), scalar) as u64;
    if tx.gas_limit > available && (e.is_regolith || !is_deposit(tx)) {
        Err(BlockExecutionError::Validation(BlockValidationError::TransactionGasLimitMoreThanAvailableBlockGas {
            transaction_gas_limit: tx.gas_limit,
            block_available_gas: available,
        }))
    } else if e.spec.jovian.spec_active_at_timestamp(sat_u64(e.block.timestamp)) && !is_deposit(tx)
        && footprint > da_available {
        Err(BlockExecutionError::Validation(BlockValidationError::Other(
            OpBlockExecutionError::TransactionDaFootprintAboveGasLimit {
                transaction_da_footprint: footprint,
                available_block_da_footprint: da_available,
            },
        )))
    } else {
        Ok(())
    }
}

impl OpBlockExecutor {
    /// Running totals agree with the receipts and the reported gas.
    pub open spec fn wf(&self) -> bool {
        &&& self.receipts@.len() == self.gas_reports@.len()
        &&& self.gas_used == seq_sum(self.gas_reports@)
        &&& forall|i: int| 0 <= i < self.receipts@.len() ==>
            #[trigger] self.receipts@[i].cumulative_gas_used == seq_sum(self.gas_reports@.take(i + 1))
    }

    pub open spec fn block_timestamp(&self) -> u64 {
        sat_u64(self.block.timestamp)
    }

    pub open spec fn tracks_da_footprint(&self, tx: BlockTransaction) -> bool {
        self.spec.jovian.spec_active_at_timestamp(self.block_timestamp()) && !is_deposit(tx)
    }

    /// A fresh executor for a block: nothing committed, Regolith judged at
    /// the block's timestamp.
    pub fn new(block: BlockEnv, ctx: OpBlockExecutionCtx, spec: OpHardforks) -> (r: OpBlockExecutor)
        ensures
            r.wf(),
            r.block == block,
            r.ctx == ctx,
            r.spec == spec,
            r.receipts@.len() == 0,
            r.gas_used == 0,
            r.da_footprint_used == 0,
            r.is_regolith == spec.regolith.spec_active_at_timestamp(sat_u64(block.timestamp)),
    {
        let is_regolith = spec.is_regolith_active_at_timestamp(block.timestamp.saturating_to_u64());
        OpBlockExecutor {
            spec,
            ctx,
            block,
            receipts: Vec::new(),
            gas_used: 0,
            da_footprint_used: 0,
            is_regolith,
            gas_reports: Ghost(Seq::empty()),
        }
    }

    /// Pre-execution: the state-clearing flag from Spurious Dragon on, the
    /// parent data for the two system calls, and whether the deployer
    /// contract is due (Canyon active now and not two seconds earlier).
    pub fn apply_pre_execution_changes(&self) -> (r: PreExecutionChanges)
        ensures
            r.state_clear_flag == self.spec.base.spurious_dragon.spec_active_at_block(sat_u64(self.block.number)),
            r.parent_hash == self.ctx.parent_hash,
            r.parent_beacon_block_root == self.ctx.parent_beacon_block_root,
            r.deploy_create2_deployer == (self.spec.canyon.spec_active_at_timestamp(self.block_timestamp())
                && !self.spec.canyon.spec_active_at_timestamp(
                    if self.block_timestamp() >= 2 { (self.block_timestamp() - 2) as u64 } else { 0 },
                )),
    {
        let number = self.block.number.saturating_to_u64();
        let ts = self.block.timestamp.saturating_to_u64();
        let earlier = if ts >= 2 { ts - 2 } else { 0 };
        PreExecutionChanges {
            state_clear_flag: self.spec.is_spurious_dragon_active_at_block(number),
            parent_hash: self.ctx.parent_hash,
            parent_beacon_block_root: self.ctx.parent_beacon_block_root,
            deploy_create2_deployer: self.spec.is_canyon_active_at_timestamp(ts)
                && !self.spec.is_canyon_active_at_timestamp(earlier),
        }
    }

    /// Whether a transaction's DA footprint is accounted, so that the
    /// caller must read the scalar for it.
    pub fn needs_da_footprint_scalar(&self, tx: &BlockTransaction) -> (r: bool)
        ensures
            r == self.tracks_da_footprint(*tx),
    {
        self.spec.is_jovian_active_at_timestamp(self.block.timestamp.saturating_to_u64())
            && tx.tx_type != DEPOSIT_TRANSACTION_TYPE
    }

    /// Whether committing a transaction needs the depositor's nonce: deposits
    /// from Regolith on.
    pub fn needs_depositor_nonce(&self, tx: &BlockTransaction) -> (r: bool)
        ensures
            r == (self.is_regolith && is_deposit(*tx)),
    {
        self.is_regolith && tx.tx_type == DEPOSIT_TRANSACTION_TYPE
    }

    /// The DA footprint of a transaction under the given scalar.
    pub fn jovian_da_footprint_estimation(&self, tx: &BlockTransaction, scalar: u16) -> (r: u64)
        requires
            estimable(*tx),
        ensures
            r as int == da_footprint_of(footprint_bytes(*tx), scalar),
    {
        let size = match &tx.env.enveloped_tx {
            Some(b) => estimate_tx_compressed_size(b),
            None => estimate_tx_compressed_size(&tx.encoded_2718),
        };
        let units = if size % DA_FOOTPRINT_SIZE_UNIT == 0 {
            size / DA_FOOTPRINT_SIZE_UNIT
        } else {
            size / DA_FOOTPRINT_SIZE_UNIT + 1
        };
        assert(units <= 18446744073710u64);
        proof {
            lemma_units_times_scalar(units, scalar);
        }
        units * scalar as u64
    }

    /// Admission of a transaction before execution. A refusal is a block
    /// validation failure and leaves the executor as it was.
    pub fn admit_transaction(&self, tx: &BlockTransaction, scalar: u16) -> (r: Result<(), BlockExecutionError>)
        requires
            self.gas_used <= self.block.gas_limit,
            self.da_footprint_used <= self.block.gas_limit,
            self.tracks_da_footprint(*tx) ==> estimable(*tx),
        ensures
            r == admission_of(*self, *tx, scalar),
    {
        let is_deposit = tx.tx_type == DEPOSIT_TRANSACTION_TYPE;
        let available = self.block.gas_limit - self.gas_used;
        if tx.gas_limit > available && (self.is_regolith || !is_deposit) {
            return Err(BlockExecutionError::Validation(
                BlockValidationError::TransactionGasLimitMoreThanAvailableBlockGas {
                    transaction_gas_limit: tx.gas_limit,
                    block_available_gas: available,
                },
            ));
        }
        if self.needs_da_footprint_scalar(tx) {
            let da_available = self.block.gas_limit - self.da_footprint_used;
            let footprint = self.jovian_da_footprint_estimation(tx, scalar);
            if footprint > da_available {
                return Err(BlockExecutionError::Validation(BlockValidationError::Other(
                    OpBlockExecutionError::TransactionDaFootprintAboveGasLimit {
                        transaction_da_footprint: footprint,
                        available_block_da_footprint: da_available,
                    },
                )));
            }
        }
        Ok(())
    }
}


/// Builds consensus receipts from execution outcomes.
#[derive(Debug, Clone, Copy, PartialEq, Eq, Structural)]
pub struct OpAlloyReceiptBuilder;

impl OpAlloyReceiptBuilder {
    /// The receipt of a non-deposit transaction; a deposit's outcome is
    /// handed back for a deposit receipt.
    pub fn build_receipt(&self, tx_type: u8, outcome: ExecutionOutcome, cumulative_gas_used: u64) -> (r: Result<OpReceipt, ExecutionOutcome>)
        ensures
            tx_type == DEPOSIT_TRANSACTION_TYPE ==> r == Err::<OpReceipt, ExecutionOutcome>(outcome),
            tx_type != DEPOSIT_TRANSACTION_TYPE ==> r == Ok::<OpReceipt, ExecutionOutcome>(OpReceipt {
                tx_type,
                success: outcome.success,
                cumulative_gas_used,
                logs: outcome.logs,
                deposit_nonce: None,
                deposit_receipt_version: None,
            }),
    {
        if tx_type == DEPOSIT_TRANSACTION_TYPE {
            Err(outcome)
        } else {
            Ok(OpReceipt {
                tx_type,
                success: outcome.success,
                cumulative_gas_used,
                logs: outcome.logs,
                deposit_nonce: None,
                deposit_receipt_version: None,
            })
        }
    }

    /// The receipt of a deposit.
    pub fn build_deposit_receipt(
        &self,
        outcome: ExecutionOutcome,
        cumulative_gas_used: u64,
        deposit_nonce: Option<u64>,
        deposit_receipt_version: Option<u64>,
    ) -> (r: OpReceipt)
        ensures
            r == (OpReceipt {
                tx_type: DEPOSIT_TRANSACTION_TYPE,
                success: outcome.success,
                cumulative_gas_used,
                logs: outcome.logs,
                deposit_nonce,
                deposit_receipt_version,
            }),
    {
        OpReceipt {
            tx_type: DEPOSIT_TRANSACTION_TYPE,
            success: outcome.success,
            cumulative_gas_used,
            logs: outcome.logs,
            deposit_nonce,
            deposit_receipt_version,
        }
    }
}

/// The receipt committed for a transaction: success, cumulative gas and
/// logs; deposits also carry the depositor's nonce from Regolith on and the
/// version marker 1 from Canyon on.
pub open spec fn receipt_of(e: OpBlockExecutor, outcome: ExecutionOutcome, tx: BlockTransaction, depositor_nonce: Option<u64>) -> OpReceipt {
    OpReceipt {
        tx_type: tx.tx_type,
        success: outcome.success,
        cumulative_gas_used: (e.gas_used + outcome.gas_used) as u64,
        logs: outcome.logs,
        deposit_nonce: if is_deposit(tx) && e.is_regolith { depositor_nonce } else { None },
        deposit_receipt_version: if is_deposit(tx) && e.spec.canyon.spec_active_at_timestamp(e.block_timestamp()) {
            Some(1u64)
        } else {
            None
        },
    }
}

proof fn lemma_sum_push(s: Seq<u64>, g: u64)
    ensures
        seq_sum(s.push(g)) == seq_sum(s) + g,
{
    assert(s.push(g).drop_last() =~= s);
}

proof fn lemma_sum_prefix_monotone(s: Seq<u64>, i: int, j: int)
    requires
        0 <= i <= j <= s.len(),
    ensures
        seq_sum(s.take(i)) <= seq_sum(s.take(j)),
    decreases j - i,
{
    if i < j {
        lemma_sum_prefix_monotone(s, i, j - 1);
        assert(s.take(j).drop_last() =~= s.take(j - 1));
    }
}

impl OpBlockExecutor {
    /// Commits an executed transaction: advances the gas and DA-footprint
    /// totals, appends its receipt, and returns the gas it used.
    pub fn commit_transaction(
        &mut self,
        outcome: ExecutionOutcome,
        tx: &BlockTransaction,
        depositor_nonce: Option<u64>,
        scalar: u16,
    ) -> (r: u64)
        requires
            old(self).wf(),
            old(self).gas_used + outcome.gas_used <= u64::MAX,
            old(self).tracks_da_footprint(*tx) ==> estimable(*tx),
            old(self).is_regolith && is_deposit(*tx) ==> depositor_nonce is Some,
        ensures
            final(self).wf(),
            r == outcome.gas_used,
            final(self).gas_used == old(self).gas_used + outcome.gas_used,
            final(self).gas_reports@ == old(self).gas_reports@.push(outcome.gas_used),
            final(self).receipts@ == old(self).receipts@.push(receipt_of(*old(self), outcome, *tx, depositor_nonce)),
            final(self).da_footprint_used == if old(self).tracks_da_footprint(*tx) {
                let sum = old(self).da_footprint_used + da_footprint_of(footprint_bytes(*tx), scalar);
                if sum <= u64::MAX { sum as u64 } else { u64::MAX }
            } else {
                old(self).da_footprint_used
            },
            final(self).spec == old(self).spec,
            final(self).ctx == old(self).ctx,
            final(self).block == old(self).block,
            final(self).is_regolith == old(self).is_regolith,
            old(self).gas_used + tx.gas_limit <= old(self).block.gas_limit && outcome.gas_used <= tx.gas_limit
                ==> final(self).gas_used <= final(self).block.gas_limit,
    {
        let is_deposit = tx.tx_type == DEPOSIT_TRANSACTION_TYPE;
        let depositor = if self.is_regolith && is_deposit { depositor_nonce } else { None };
        let gas_used = outcome.gas_used;
        let ghost reports = self.gas_reports@;
        let ghost receipts = self.receipts@;
        self.gas_used = self.gas_used + gas_used;
        self.gas_reports = Ghost(self.gas_reports@.push(gas_used));
        proof {
            lemma_sum_push(reports, gas_used);
        }
        if self.needs_da_footprint_scalar(tx) {
            let footprint = self.jovian_da_footprint_estimation(tx, scalar);
            self.da_footprint_used = if footprint > u64::MAX - self.da_footprint_used {
                u64::MAX
            } else {
                self.da_footprint_used + footprint
            };
        }
        let canyon = self.spec.is_canyon_active_at_timestamp(self.block.timestamp.saturating_to_u64());
        let builder = OpAlloyReceiptBuilder;
        let receipt = match builder.build_receipt(tx.tx_type, outcome, self.gas_used) {
            Ok(receipt) => receipt,
            Err(outcome) => builder.build_deposit_receipt(
                outcome,
                self.gas_used,
                depositor,
                if is_deposit && canyon { Some(1) } else { None },
            ),
        };
        self.receipts.push(receipt);
        proof {
            let n = reports.len() as int;
            assert forall|i: int| 0 <= i < self.receipts@.len() implies
                #[trigger] self.receipts@[i].cumulative_gas_used == seq_sum(self.gas_reports@.take(i + 1)) by {
                if i < n {
                    assert(self.gas_reports@.take(i + 1) =~= reports.take(i + 1));
                    assert(self.receipts@[i] == receipts[i]);
                } else {
                    assert(self.gas_reports@.take(i + 1) =~= reports.push(gas_used));
                }
            }
        }
        gas_used
    }

    /// Finishes the block: hands over the post-block balance increments to
    /// apply, the receipts, the legacy gas used (the last receipt's
    /// cumulative gas) and the DA footprint consumed.
    pub fn finish(self, balance_increments: Vec<(Address, u128)>) -> (r: BlockExecutionResult)
        requires
            self.wf(),
            forall|i: int| 0 <= i < balance_increments@.len() ==> #[trigger] balance_increments@[i].1 > 0,
        ensures
            r.receipts@ == self.receipts@,
            r.gas_used == self.gas_used,
            r.gas_used == if self.receipts@.len() == 0 { 0 } else { self.receipts@.last().cumulative_gas_used },
            r.blob_gas_used == self.da_footprint_used,
            r.balance_increments@ == balance_increments@,
    {
        let n = self.receipts.len();
        let legacy_gas_used = if n == 0 { 0 } else { self.receipts[n - 1].cumulative_gas_used };
        proof {
            if n > 0 {
                let reports = self.gas_reports@;
                assert(reports.take(n as int) =~= reports);
                assert(self.receipts@[n - 1].cumulative_gas_used == seq_sum(reports.take(n as int)));
            }
        }
        BlockExecutionResult {
            receipts: self.receipts,
            gas_used: legacy_gas_used,
            blob_gas_used: self.da_footprint_used,
            balance_increments,
        }
    }
}

/// Makes executors for blocks of one chain.
#[derive(Debug, Clone, Copy, PartialEq, Eq)]
pub struct OpBlockExecutorFactory {
    receipt_builder: OpAlloyReceiptBuilder,
    spec: OpHardforks,
}

impl OpBlockExecutorFactory {
    pub fn new(receipt_builder: OpAlloyReceiptBuilder, spec: OpHardforks) -> (r: OpBlockExecutorFactory)
        ensures
            r.spec_rules() == spec,
    {
        OpBlockExecutorFactory { receipt_builder, spec }
    }

    pub closed spec fn spec_rules(&self) -> OpHardforks {
        self.spec
    }

    /// The receipt builder.
    pub fn receipt_builder(&self) -> (r: &OpAlloyReceiptBuilder) {
        &self.receipt_builder
    }

    /// The chain's hardfork schedule.
    pub fn spec(&self) -> (r: &OpHardforks)
        ensures
            *r == self.spec_rules(),
    {
        &self.spec
    }

    /// A fresh executor for a block of this chain.
    pub fn create_executor(&self, block: BlockEnv, ctx: OpBlockExecutionCtx) -> (r: OpBlockExecutor)
        ensures
            r.wf(),
            r.spec == self.spec_rules(),
            r.block == block,
            r.ctx == ctx,
            r.receipts@.len() == 0,
            r.gas_used == 0,
            r.da_footprint_used == 0,
    {
        OpBlockExecutor::new(block, ctx, self.spec)
    }
}

/// Gas accounting over any committed sequence: the total is the sum of the
/// gas each transaction reported, receipts' cumulative gas never decreases,
/// and the last receipt's cumulative gas is the total.
pub proof fn lemma_gas_accounting(e: OpBlockExecutor)
    requires
        e.wf(),
    ensures
        e.gas_used == seq_sum(e.gas_reports@),
        forall|i: int, j: int| 0 <= i <= j < e.receipts@.len() ==>
            e.receipts@[i].cumulative_gas_used <= e.receipts@[j].cumulative_gas_used,
        e.receipts@.len() > 0 ==> e.receipts@.last().cumulative_gas_used == e.gas_used,
{
    assert forall|i: int, j: int| 0 <= i <= j < e.receipts@.len() implies
        e.receipts@[i].cumulative_gas_used <= e.receipts@[j].cumulative_gas_used by {
        assert(e.receipts@[i].cumulative_gas_used == seq_sum(e.gas_reports@.take(i + 1)));
        assert(e.receipts@[j].cumulative_gas_used == seq_sum(e.gas_reports@.take(j + 1)));
        lemma_sum_prefix_monotone(e.gas_reports@, i + 1, j + 1);
    }
    if e.receipts@.len() > 0 {
        let n = e.receipts@.len() as int;
        assert(e.gas_reports@.take(n) =~= e.gas_reports@);
        assert(e.receipts@[n - 1].cumulative_gas_used == seq_sum(e.gas_reports@.take(n)));
    }
}

/// A transaction admitted under the block gas check (not as an exempt
/// deposit) whose reported gas stays within its own limit leaves the
/// block's gas used within the block gas limit.
pub proof fn lemma_admitted_within_block_limit(e: OpBlockExecutor, tx: BlockTransaction, scalar: u16, reported: u64)
    requires
        e.gas_used <= e.block.gas_limit,
        admission_of(e, tx, scalar) is Ok,
        e.is_regolith || !is_deposit(tx),
        reported <= tx.gas_limit,
    ensures
        e.gas_used + reported <= e.block.gas_limit,
{
}

/// A non-deposit transaction whose DA footprint exceeds what is left of the
/// block's budget, from Jovian on, is refused with a block validation
/// error (admission leaves the executor unchanged); where it passes the gas
/// check, the error names its footprint and the budget left.
pub proof fn lemma_da_footprint_over_budget_rejected(e: OpBlockExecutor, tx: BlockTransaction, scalar: u16)
    requires
        e.gas_used <= e.block.gas_limit,
        e.da_footprint_used <= e.block.gas_limit,
        e.tracks_da_footprint(tx),
        da_footprint_of(footprint_bytes(tx), scalar) > e.block.gas_limit - e.da_footprint_used,
    ensures
        admission_of(e, tx, scalar) matches Err(BlockExecutionError::Validation(_)),
        tx.gas_limit <= e.block.gas_limit - e.gas_used ==> admission_of(e, tx, scalar) == Err::<(), BlockExecutionError>(
            BlockExecutionError::Validation(BlockValidationError::Other(
                OpBlockExecutionError::TransactionDaFootprintAboveGasLimit {
                    transaction_da_footprint: da_footprint_of(footprint_bytes(tx), scalar) as u64,
                    available_block_da_footprint: (e.block.gas_limit - e.da_footprint_used) as u64,
                },
            )),
        ),
{
    let f = da_footprint_of(footprint_bytes(tx), scalar);
    assert(0 <= f);
    assert(f <= u64::MAX) by {
        lemma_footprint_fits(footprint_bytes(tx), scalar);
    }
}

/// Before Regolith a deposit, system deposits included, bypasses the block
/// gas check even where its own gas limit exceeds the block's.
pub proof fn lemma_pre_regolith_deposit_bypasses_gas_check(e: OpBlockExecutor, tx: BlockTransaction, scalar: u16)
    requires
        !e.is_regolith,
        is_deposit(tx),
        tx.env.deposit.is_system_transaction,
    ensures
        admission_of(e, tx, scalar) is Ok,
{
}

proof fn lemma_footprint_fits(bytes: Seq<u8>, scalar: u16)
    ensures
        0 <= da_footprint_of(bytes, scalar) <= u64::MAX,
{
    let size = compressed_size_estimate(bytes) as int;
    let units = if size % 1000000 == 0 { size / 1000000 } else { size / 1000000 + 1 };
    assert(0 <= units <= 18446744073710);
    assert(units * scalar <= 18446744073710 * 65535) by (nonlinear_arith)
        requires
            0 <= units <= 18446744073710,
            scalar <= 65535,
    ;
    assert(0 <= units * scalar) by (nonlinear_arith)
        requires
            0 <= units,
            0 <= scalar,
    ;
}

proof fn lemma_units_times_scalar(units: u64, scalar: u16)
    requires
        units <= 18446744073710u64,
    ensures
        units * scalar <= u64::MAX,
{
    assert(units * scalar <= 18446744073710 * 65535) by (nonlinear_arith)
        requires
            units <= 18446744073710u64,
            scalar <= 65535,
    ;
}

} // verus!
