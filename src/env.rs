//! The per-block execution environment: chain configuration plus block
//! fields, and the builders that derive it from a header, from a parent
//! header and builder attributes, or from a payload.

use vstd::prelude::*;
use crate::spec_id::{SpecId, OpSpecId, spec_rank, spec_eth_of};
use crate::primitives::{Address, B256, U256, zero_address, zero_word};

verus! {

/// Largest deployed contract code, in bytes.
pub const MAX_CODE_SIZE: usize = 24576;

/// Largest contract-creation code, in bytes.
pub const MAX_INITCODE_SIZE: usize = 49152;

/// Transaction gas limit cap in force from Osaka on.
pub const TX_GAS_LIMIT_CAP: u64 = 16777216;

/// A protocol-version tag that can be judged against the base chain's
/// versions.
pub trait ProtocolSpec: Copy + Sized {
    spec fn spec_eth(&self) -> SpecId;

    /// The base-chain version whose rules this version builds on.
    fn eth_spec(&self) -> (r: SpecId)
        ensures
            r == self.spec_eth(),
    ;

    spec fn spec_default() -> Self;

    /// The version a fresh configuration starts from.
    fn default_spec() -> (r: Self)
        ensures
            r == Self::spec_default(),
    ;
}

impl ProtocolSpec for SpecId {
    open spec fn spec_eth(&self) -> SpecId {
        *self
    }

    fn eth_spec(&self) -> (r: SpecId) {
        *self
    }

    open spec fn spec_default() -> SpecId {
        SpecId::PRAGUE
    }

    fn default_spec() -> (r: SpecId) {
        SpecId::default_spec()
    }
}

impl ProtocolSpec for OpSpecId {
    open spec fn spec_eth(&self) -> SpecId {
        spec_eth_of(*self)
    }

    fn eth_spec(&self) -> (r: SpecId) {
        self.into_eth_spec()
    }

    open spec fn spec_default() -> OpSpecId {
        OpSpecId::ISTHMUS
    }

    fn default_spec() -> (r: OpSpecId) {
        OpSpecId::default_spec()
    }
}

/// Chain configuration in force for a block.
#[derive(Debug, Clone, Copy, PartialEq, Eq)]
pub struct CfgEnv<S> {
    pub chain_id: u64,
    pub spec: S,
    /// Override of the deployed-code size limit.
    pub limit_contract_code_size: Option<usize>,
    /// Override of the creation-code size limit.
    pub limit_contract_initcode_size: Option<usize>,
    /// Override of the per-transaction gas limit cap.
    pub tx_gas_limit_cap: Option<u64>,
    /// Most blobs one transaction may carry, where limited.
    pub max_blobs_per_tx: Option<u64>,
}

/// A fresh configuration for a version: chain id 1, no overrides.
pub open spec fn fresh_cfg<S>(spec: S) -> CfgEnv<S> {
    CfgEnv {
        chain_id: 1,
        spec,
        limit_contract_code_size: None,
        limit_contract_initcode_size: None,
        tx_gas_limit_cap: None,
        max_blobs_per_tx: None,
    }
}

/// The gas limit cap a configuration enforces: its override, else the
/// Osaka cap from Osaka on, else none.
pub open spec fn spec_tx_gas_limit_cap<S: ProtocolSpec>(c: CfgEnv<S>) -> u64 {
    match c.tx_gas_limit_cap {
        Some(cap) => cap,
        None => if spec_rank(c.spec.spec_eth()) >= spec_rank(SpecId::OSAKA) { TX_GAS_LIMIT_CAP } else { u64::MAX },
    }
}

impl<S: ProtocolSpec> CfgEnv<S> {
    pub fn new_with_spec(spec: S) -> (r: CfgEnv<S>)
        ensures
            r == fresh_cfg(spec),
    {
        CfgEnv {
            chain_id: 1,
            spec,
            limit_contract_code_size: None,
            limit_contract_initcode_size: None,
            tx_gas_limit_cap: None,
            max_blobs_per_tx: None,
        }
    }

    pub fn with_chain_id(self, chain_id: u64) -> (r: CfgEnv<S>)
        ensures
            r == (CfgEnv { chain_id, ..self }),
    {
        CfgEnv { chain_id, ..self }
    }

    /// Largest deployed code: the override, else the protocol limit.
    pub fn max_code_size(&self) -> (r: usize)
        ensures
            r == match self.limit_contract_code_size {
                Some(l) => l,
                None => MAX_CODE_SIZE,
            },
    {
        match self.limit_contract_code_size {
            Some(l) => l,
            None => MAX_CODE_SIZE,
        }
    }

    /// Largest creation code: the override, else twice the code-size
    /// override (saturating), else the protocol limit.
    pub fn max_initcode_size(&self) -> (r: usize)
        ensures
            r == match (self.limit_contract_initcode_size, self.limit_contract_code_size) {
                (Some(l), _) => l,
                (None, Some(c)) => if 2 * c <= usize::MAX { (2 * c) as usize } else { usize::MAX },
                (None, None) => MAX_INITCODE_SIZE,
            },
    {
        match self.limit_contract_initcode_size {
            Some(l) => l,
            None => match self.limit_contract_code_size {
                Some(c) => if c <= usize::MAX / 2 { 2 * c } else { usize::MAX },
                None => MAX_INITCODE_SIZE,
            },
        }
    }

    /// The per-transaction gas limit cap in force.
    pub fn tx_gas_limit_cap(&self) -> (r: u64)
        ensures
            r == spec_tx_gas_limit_cap(*self),
    {
        match self.tx_gas_limit_cap {
            Some(cap) => cap,
            None => if self.spec.eth_spec().is_enabled_in(SpecId::OSAKA) {
                TX_GAS_LIMIT_CAP
            } else {
                u64::MAX
            },
        }
    }
}

/// Excess blob gas of a block and the blob price derived from it.
#[derive(Debug, Clone, Copy, PartialEq, Eq, Structural)]
pub struct BlobExcessGasAndPrice {
    pub excess_blob_gas: u64,
    pub blob_gasprice: u128,
}

/// Block fields in force for execution.
#[derive(Debug, Clone, Copy, PartialEq, Eq)]
pub struct BlockEnv {
    pub number: U256,
    pub beneficiary: Address,
    pub timestamp: U256,
    pub gas_limit: u64,
    pub basefee: u64,
    pub difficulty: U256,
    pub prevrandao: Option<B256>,
    pub blob_excess_gas_and_price: Option<BlobExcessGasAndPrice>,
}

impl BlockEnv {
    /// The block fields of an empty environment: block 0 at timestamp 1,
    /// unbounded gas, zero fees, zero randomness.
    pub fn default_block() -> (r: BlockEnv)
        ensures
            r.number.value() == 0,
            r.timestamp.value() == 1,
            r.gas_limit == u64::MAX,
            r.basefee == 0,
            r.difficulty.value() == 0,
            forall|i: int| 0 <= i < 20 ==> r.beneficiary[i] == 0u8,
            r.prevrandao is Some && forall|i: int| 0 <= i < 32 ==> r.prevrandao->Some_0[i] == 0u8,
            r.blob_excess_gas_and_price == Some(BlobExcessGasAndPrice { excess_blob_gas: 0, blob_gasprice: 1 }),
    {
        BlockEnv {
            number: U256::zero(),
            beneficiary: zero_address(),
            timestamp: U256::from_u64(1),
            gas_limit: u64::MAX,
            basefee: 0,
            difficulty: U256::zero(),
            prevrandao: Some(zero_word()),
            blob_excess_gas_and_price: Some(BlobExcessGasAndPrice { excess_blob_gas: 0, blob_gasprice: 1 }),
        }
    }

    /// The blob price, where the block has one.
    pub fn blob_gasprice(&self) -> (r: Option<u128>)
        ensures
            r == match self.blob_excess_gas_and_price {
                Some(b) => Some(b.blob_gasprice),
                None => None::<u128>,
            },
    {
        match self.blob_excess_gas_and_price {
            Some(b) => Some(b.blob_gasprice),
            None => None,
        }
    }
}

/// Configurable execution limits.
#[derive(Debug, Clone, Copy, PartialEq, Eq, Structural)]
pub struct EvmLimitParams {
    /// Largest deployed contract code.
    pub max_code_size: usize,
    /// Largest contract-creation code.
    pub max_initcode_size: usize,
    /// Transaction gas limit cap; `None` keeps the version's default.
    pub tx_gas_limit_cap: Option<u64>,
}

impl Default for EvmLimitParams {
    /// The protocol limits, with the version's default gas cap.
    fn default() -> (r: EvmLimitParams)
        ensures
            r == (EvmLimitParams { max_code_size: MAX_CODE_SIZE, max_initcode_size: MAX_INITCODE_SIZE, tx_gas_limit_cap: None }),
    {
        EvmLimitParams { max_code_size: MAX_CODE_SIZE, max_initcode_size: MAX_INITCODE_SIZE, tx_gas_limit_cap: None }
    }
}

impl EvmLimitParams {
    /// The limits of Osaka: protocol code sizes and the Osaka gas cap.
    pub fn osaka() -> (r: EvmLimitParams)
        ensures
            r == (EvmLimitParams {
                max_code_size: MAX_CODE_SIZE,
                max_initcode_size: MAX_INITCODE_SIZE,
                tx_gas_limit_cap: Some(TX_GAS_LIMIT_CAP),
            }),
    {
        EvmLimitParams { max_code_size: MAX_CODE_SIZE, max_initcode_size: MAX_INITCODE_SIZE, tx_gas_limit_cap: Some(TX_GAS_LIMIT_CAP) }
    }
}

/// Chain configuration and block fields for executing one block.
#[derive(Debug, Clone, Copy, PartialEq, Eq)]
pub struct EvmEnv<S> {
    pub cfg_env: CfgEnv<S>,
    pub block_env: BlockEnv,
}

impl<S: ProtocolSpec> Default for EvmEnv<S> {
    /// An environment with the default version and an empty block.
    fn default() -> (r: EvmEnv<S>)
        ensures
            r.cfg_env == fresh_cfg(S::spec_default()),
            r.block_env.gas_limit == u64::MAX,
            r.block_env.basefee == 0,
            r.block_env.blob_excess_gas_and_price == Some(BlobExcessGasAndPrice { excess_blob_gas: 0, blob_gasprice: 1 }),
    {
        EvmEnv { cfg_env: CfgEnv::new_with_spec(S::default_spec()), block_env: BlockEnv::default_block() }
    }
}

impl<S: ProtocolSpec> EvmEnv<S> {
    pub fn new(cfg_env: CfgEnv<S>, block_env: BlockEnv) -> (r: EvmEnv<S>)
        ensures
            r == (EvmEnv { cfg_env, block_env }),
    {
        EvmEnv { cfg_env, block_env }
    }

    /// Sets the code-size limits and the gas cap from `limits`.
    pub fn with_limits(self, limits: EvmLimitParams) -> (r: EvmEnv<S>)
        ensures
            r == (EvmEnv {
                cfg_env: CfgEnv {
                    limit_contract_code_size: Some(limits.max_code_size),
                    limit_contract_initcode_size: Some(limits.max_initcode_size),
                    tx_gas_limit_cap: limits.tx_gas_limit_cap,
                    ..self.cfg_env
                },
                ..self
            }),
    {
        let mut s = self;
        s.cfg_env.limit_contract_code_size = Some(limits.max_code_size);
        s.cfg_env.limit_contract_initcode_size = Some(limits.max_initcode_size);
        s.cfg_env.tx_gas_limit_cap = limits.tx_gas_limit_cap;
        s
    }

    pub fn block_env(&self) -> (r: &BlockEnv)
        ensures
            *r == self.block_env,
    {
        &self.block_env
    }

    pub fn cfg_env(&self) -> (r: &CfgEnv<S>)
        ensures
            *r == self.cfg_env,
    {
        &self.cfg_env
    }

    pub fn chainid(&self) -> (r: u64)
        ensures
            r == self.cfg_env.chain_id,
    {
        self.cfg_env.chain_id
    }

    pub fn spec_id(&self) -> (r: &S)
        ensures
            *r == self.cfg_env.spec,
    {
        &self.cfg_env.spec
    }

    /// Overrides the block number.
    pub fn with_block_number(self, number: U256) -> (r: EvmEnv<S>)
        ensures
            r == (EvmEnv { block_env: BlockEnv { number, ..self.block_env }, ..self }),
    {
        let mut s = self;
        s.block_env.number = number;
        s
    }

    /// Overrides the block number where one is given.
    pub fn with_block_number_opt(self, number: Option<U256>) -> (r: EvmEnv<S>)
        ensures
            r == match number {
                Some(n) => EvmEnv { block_env: BlockEnv { number: n, ..self.block_env }, ..self },
                None => self,
            },
    {
        let mut s = self;
        s.set_block_number_opt(number);
        s
    }

    /// Sets the block number where one is given.
    pub fn set_block_number_opt(&mut self, number: Option<U256>)
        ensures
            *final(self) == match number {
                Some(n) => EvmEnv { block_env: BlockEnv { number: n, ..old(self).block_env }, ..*old(self) },
                None => *old(self),
            },
    {
        if let Some(n) = number {
            self.block_env.number = n;
        }
    }

    /// Overrides the block timestamp.
    pub fn with_timestamp(self, timestamp: U256) -> (r: EvmEnv<S>)
        ensures
            r == (EvmEnv { block_env: BlockEnv { timestamp, ..self.block_env }, ..self }),
    {
        let mut s = self;
        s.block_env.timestamp = timestamp;
        s
    }

    /// Overrides the block timestamp where one is given.
    pub fn with_timestamp_opt(self, timestamp: Option<U256>) -> (r: EvmEnv<S>)
        ensures
            r == match timestamp {
                Some(t) => EvmEnv { block_env: BlockEnv { timestamp: t, ..self.block_env }, ..self },
                None => self,
            },
    {
        let mut s = self;
        s.set_timestamp_opt(timestamp);
        s
    }

    /// Sets the block timestamp where one is given.
    pub fn set_timestamp_opt(&mut self, timestamp: Option<U256>)
        ensures
            *final(self) == match timestamp {
                Some(t) => EvmEnv { block_env: BlockEnv { timestamp: t, ..old(self).block_env }, ..*old(self) },
                None => *old(self),
            },
    {
        if let Some(t) = timestamp {
            self.block_env.timestamp = t;
        }
    }

    /// Overrides the base fee.
    pub fn with_base_fee(self, base_fee: u64) -> (r: EvmEnv<S>)
        ensures
            r == (EvmEnv { block_env: BlockEnv { basefee: base_fee, ..self.block_env }, ..self }),
    {
        let mut s = self;
        s.block_env.basefee = base_fee;
        s
    }

    /// Overrides the base fee where one is given.
    pub fn with_base_fee_opt(self, base_fee: Option<u64>) -> (r: EvmEnv<S>)
        ensures
            r == match base_fee {
                Some(b) => EvmEnv { block_env: BlockEnv { basefee: b, ..self.block_env }, ..self },
                None => self,
            },
    {
        let mut s = self;
        s.set_base_fee_opt(base_fee);
        s
    }

    /// Sets the base fee where one is given.
    pub fn set_base_fee_opt(&mut self, base_fee: Option<u64>)
        ensures
            *final(self) == match base_fee {
                Some(b) => EvmEnv { block_env: BlockEnv { basefee: b, ..old(self).block_env }, ..*old(self) },
                None => *old(self),
            },
    {
        if let Some(b) = base_fee {
            self.block_env.basefee = b;
        }
    }
}

} // verus!
