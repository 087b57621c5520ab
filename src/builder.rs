//! Builders of the execution environment from a header, from a parent
//! header with builder attributes, or from an execution payload.

use vstd::prelude::*;
use crate::spec_id::{SpecId, OpSpecId, spec_rank, spec_eth_of};
use crate::hardfork::{EthereumHardforks, eth_spec_at, spec_by_timestamp_and_block_number};
use crate::op_hardfork::{OpHardforks, op_spec_at, spec_by_timestamp_after_bedrock};
use crate::primitives::{Address, B256, U256, u256_of_be};
use crate::blob::{BlobParams, blob_fee, fee_defined, next_excess_of, excess_update_defined};
use crate::env::{CfgEnv, BlockEnv, EvmEnv, BlobExcessGasAndPrice, fresh_cfg, TX_GAS_LIMIT_CAP};

verus! {

/// The fields of a block header that the environment is built from.
#[derive(Debug, Clone, Copy, PartialEq, Eq)]
pub struct BlockHeader {
    pub number: u64,
    pub timestamp: u64,
    pub beneficiary: Address,
    pub mix_hash: Option<B256>,
    pub difficulty: U256,
    pub gas_limit: u64,
    pub excess_blob_gas: Option<u64>,
    pub base_fee_per_gas: Option<u64>,
    pub blob_gas_used: Option<u64>,
}

/// Attributes of the next block that the parent header does not give,
/// supplied by the block builder.
#[derive(Debug, Clone, Copy, PartialEq, Eq)]
pub struct NextEvmEnvAttributes {
    pub timestamp: u64,
    pub suggested_fee_recipient: Address,
    pub prev_randao: B256,
    pub gas_limit: u64,
}

/// The fields of an execution payload that the environment is built from.
#[derive(Debug, Clone, Copy, PartialEq, Eq)]
pub struct ExecutionPayload {
    pub block_number: u64,
    pub timestamp: u64,
    pub fee_recipient: Address,
    pub prev_randao: B256,
    pub gas_limit: u64,
    pub excess_blob_gas: Option<u64>,
    pub base_fee_per_gas: U256,
}

/// The values an environment is built from, whatever their source.
#[derive(Debug, Clone, Copy, PartialEq, Eq)]
pub struct EvmEnvInput {
    pub timestamp: u64,
    pub height: u64,
    pub beneficiary: Address,
    pub mix_hash: Option<B256>,
    pub difficulty: U256,
    pub gas_limit: u64,
    pub excess_blob_gas: Option<u64>,
    pub base_fee_per_gas: u64,
    pub blob_gas_used: Option<u64>,
}

pub open spec fn input_of_header(h: BlockHeader) -> EvmEnvInput {
    EvmEnvInput {
        timestamp: h.timestamp,
        height: h.number,
        beneficiary: h.beneficiary,
        mix_hash: h.mix_hash,
        difficulty: h.difficulty,
        gas_limit: h.gas_limit,
        excess_blob_gas: h.excess_blob_gas,
        base_fee_per_gas: match h.base_fee_per_gas { Some(b) => b, None => 0 },
        blob_gas_used: None,
    }
}

pub open spec fn input_of_parent(h: BlockHeader, a: NextEvmEnvAttributes, base_fee: u64) -> EvmEnvInput {
    EvmEnvInput {
        timestamp: a.timestamp,
        height: (h.number + 1) as u64,
        beneficiary: a.suggested_fee_recipient,
        mix_hash: Some(a.prev_randao),
        difficulty: h.difficulty,
        gas_limit: a.gas_limit,
        excess_blob_gas: h.excess_blob_gas,
        base_fee_per_gas: base_fee,
        blob_gas_used: h.blob_gas_used,
    }
}

pub open spec fn input_of_payload(p: ExecutionPayload) -> EvmEnvInput {
    EvmEnvInput {
        timestamp: p.timestamp,
        height: p.block_number,
        beneficiary: p.fee_recipient,
        mix_hash: Some(p.prev_randao),
        difficulty: u256_of_be(p.prev_randao),
        gas_limit: p.gas_limit,
        excess_blob_gas: p.excess_blob_gas,
        base_fee_per_gas: if p.base_fee_per_gas.value() <= u64::MAX { p.base_fee_per_gas.value() as u64 } else { u64::MAX },
        blob_gas_used: None,
    }
}

impl EvmEnvInput {
    /// Reads the fields of a header; a missing base fee reads as zero.
    pub fn from_block_header(h: &BlockHeader) -> (r: EvmEnvInput)
        ensures
            r == input_of_header(*h),
    {
        EvmEnvInput {
            timestamp: h.timestamp,
            height: h.number,
            beneficiary: h.beneficiary,
            mix_hash: h.mix_hash,
            difficulty: h.difficulty,
            gas_limit: h.gas_limit,
            excess_blob_gas: h.excess_blob_gas,
            base_fee_per_gas: match h.base_fee_per_gas {
                Some(b) => b,
                None => 0,
            },
            blob_gas_used: None,
        }
    }

    /// The next block's values: height one above the parent, timestamp,
    /// recipient, randomness and gas limit from the attributes, blob
    /// accounting from the parent.
    pub fn from_parent_header(h: &BlockHeader, a: &NextEvmEnvAttributes, base_fee_per_gas: u64) -> (r: EvmEnvInput)
        requires
            h.number < u64::MAX,
        ensures
            r == input_of_parent(*h, *a, base_fee_per_gas),
    {
        EvmEnvInput {
            timestamp: a.timestamp,
            height: h.number + 1,
            beneficiary: a.suggested_fee_recipient,
            mix_hash: Some(a.prev_randao),
            difficulty: h.difficulty,
            gas_limit: a.gas_limit,
            excess_blob_gas: h.excess_blob_gas,
            base_fee_per_gas,
            blob_gas_used: h.blob_gas_used,
        }
    }

    /// Reads the fields of a payload; the randomness stands in for the
    /// difficulty and the base fee saturates to 64 bits.
    pub fn from_payload(p: &ExecutionPayload) -> (r: EvmEnvInput)
        ensures
            r == input_of_payload(*p),
    {
        EvmEnvInput {
            timestamp: p.timestamp,
            height: p.block_number,
            beneficiary: p.fee_recipient,
            mix_hash: Some(p.prev_randao),
            difficulty: U256::from_be_bytes(&p.prev_randao),
            gas_limit: p.gas_limit,
            excess_blob_gas: p.excess_blob_gas,
            base_fee_per_gas: p.base_fee_per_gas.saturating_to_u64(),
            blob_gas_used: None,
        }
    }
}

/// Base-chain configuration: the resolved version, the chain id, the blob
/// limit of the parameters and the Osaka gas cap where Osaka is active.
pub open spec fn eth_cfg(input: EvmEnvInput, rules: EthereumHardforks, chain_id: u64, bp: Option<BlobParams>) -> CfgEnv<SpecId> {
    CfgEnv {
        chain_id,
        spec: eth_spec_at(rules, input.timestamp, input.height),
        max_blobs_per_tx: match bp { Some(p) => Some(p.max_blobs_per_tx), None => None },
        tx_gas_limit_cap: if rules.osaka.spec_active_at_timestamp(input.timestamp) { Some(TX_GAS_LIMIT_CAP) } else { None },
        ..fresh_cfg(eth_spec_at(rules, input.timestamp, input.height))
    }
}

/// The environment of an existing base-chain block: all fields read as
/// given; after the merge the difficulty is zero and the mix hash is the
/// randomness; the blob price is derived where both the excess and the
/// parameters are known.
pub open spec fn eth_env_of(input: EvmEnvInput, rules: EthereumHardforks, chain_id: u64, bp: Option<BlobParams>) -> EvmEnv<SpecId> {
    let merged = rules.paris.spec_active_at_block(input.height);
    EvmEnv {
        cfg_env: eth_cfg(input, rules, chain_id, bp),
        block_env: BlockEnv {
            number: U256 { hi: 0, lo: input.height as u128 },
            beneficiary: input.beneficiary,
            timestamp: U256 { hi: 0, lo: input.timestamp as u128 },
            difficulty: if merged { U256 { hi: 0, lo: 0 } } else { input.difficulty },
            prevrandao: if merged { input.mix_hash } else { None },
            gas_limit: input.gas_limit,
            basefee: input.base_fee_per_gas,
            blob_excess_gas_and_price: match (input.excess_blob_gas, bp) {
                (Some(e), Some(p)) => Some(BlobExcessGasAndPrice { excess_blob_gas: e, blob_gasprice: blob_fee(p.min_blob_fee, p.update_fraction, e) }),
                _ => None,
            },
        },
    }
}

/// The excess blob gas of the next base-chain block: the update from the
/// parent where parameters and the parent's blob accounting are known, zero
/// when the next block is the first of Cancun, else none.
pub open spec fn next_excess(input: EvmEnvInput, spec: SpecId, bp: Option<BlobParams>) -> Option<u64> {
    match (bp, input.excess_blob_gas, input.blob_gas_used) {
        (Some(p), Some(e), Some(u)) => Some(next_excess_of(p, e, u, input.base_fee_per_gas) as u64),
        _ => if spec == SpecId::CANCUN { Some(0u64) } else { None },
    }
}

/// The blob fee of an existing block is computable: where both its excess
/// and the parameters are known, the fee does not overflow.
pub open spec fn blob_inputs_defined(input: EvmEnvInput, bp: Option<BlobParams>) -> bool {
    match (input.excess_blob_gas, bp) {
        (Some(e), Some(p)) => fee_defined(p, e),
        _ => true,
    }
}

/// The parameters the next block's blob price is computed with: the given
/// ones, else Cancun's.
pub open spec fn pricing_of(bp: Option<BlobParams>) -> BlobParams {
    match bp {
        Some(p) => p,
        None => BlobParams {
            target_blob_count: 3,
            max_blob_count: 6,
            update_fraction: 3338477,
            min_blob_fee: 1,
            max_blobs_per_tx: 6,
            blob_base_cost: 0,
        },
    }
}

/// The next block's blob price is computable at its updated excess.
pub open spec fn next_price_defined(input: EvmEnvInput, rules: EthereumHardforks, bp: Option<BlobParams>) -> bool {
    match next_excess(input, eth_spec_at(rules, input.timestamp, input.height), bp) {
        Some(e) => fee_defined(pricing_of(bp), e),
        None => true,
    }
}

/// The excess update from the parent computes without overflow.
pub open spec fn next_inputs_defined(input: EvmEnvInput, bp: Option<BlobParams>) -> bool {
    match (bp, input.excess_blob_gas, input.blob_gas_used) {
        (Some(p), Some(e), Some(u)) => excess_update_defined(p, e, u),
        _ => true,
    }
}

/// The environment of the next base-chain block: difficulty zero, the
/// attributes' randomness, and the excess blob gas updated from the parent
/// and priced with the given parameters, or Cancun's where none are given.
pub open spec fn eth_next_env_of(input: EvmEnvInput, rules: EthereumHardforks, chain_id: u64, bp: Option<BlobParams>) -> EvmEnv<SpecId> {
    let spec = eth_spec_at(rules, input.timestamp, input.height);
    let pricing = pricing_of(bp);
    EvmEnv {
        cfg_env: eth_cfg(input, rules, chain_id, bp),
        block_env: BlockEnv {
            number: U256 { hi: 0, lo: input.height as u128 },
            beneficiary: input.beneficiary,
            timestamp: U256 { hi: 0, lo: input.timestamp as u128 },
            difficulty: U256 { hi: 0, lo: 0 },
            prevrandao: input.mix_hash,
            gas_limit: input.gas_limit,
            basefee: input.base_fee_per_gas,
            blob_excess_gas_and_price: match next_excess(input, spec, bp) {
                Some(e) => Some(BlobExcessGasAndPrice { excess_blob_gas: e, blob_gasprice: blob_fee(pricing.min_blob_fee, pricing.update_fraction, e) }),
                None => None,
            },
        },
    }
}

/// The environment of a rollup block: the resolved rollup version, fixed
/// blob pricing (zero excess, price one) from Cancun's rules on, and the
/// merge's difficulty and randomness rules.
pub open spec fn op_env_of(input: EvmEnvInput, rules: OpHardforks, chain_id: u64) -> EvmEnv<OpSpecId> {
    let spec = op_spec_at(rules, input.timestamp);
    let merged = spec_rank(spec_eth_of(spec)) >= spec_rank(SpecId::MERGE);
    EvmEnv {
        cfg_env: CfgEnv { chain_id, ..fresh_cfg(spec) },
        block_env: BlockEnv {
            number: U256 { hi: 0, lo: input.height as u128 },
            beneficiary: input.beneficiary,
            timestamp: U256 { hi: 0, lo: input.timestamp as u128 },
            difficulty: if merged { U256 { hi: 0, lo: 0 } } else { input.difficulty },
            prevrandao: if merged { input.mix_hash } else { None },
            gas_limit: input.gas_limit,
            basefee: input.base_fee_per_gas,
            blob_excess_gas_and_price: if spec_rank(spec_eth_of(spec)) >= spec_rank(SpecId::CANCUN) {
                Some(BlobExcessGasAndPrice { excess_blob_gas: 0, blob_gasprice: 1 })
            } else {
                None
            },
        },
    }
}

fn eth_cfg_for(input: &EvmEnvInput, rules: &EthereumHardforks, chain_id: u64, bp: Option<BlobParams>) -> (r: CfgEnv<SpecId>)
    ensures
        r == eth_cfg(*input, *rules, chain_id, bp),
{
    let spec = spec_by_timestamp_and_block_number(rules, input.timestamp, input.height);
    let mut cfg = CfgEnv::new_with_spec(spec).with_chain_id(chain_id);
    if let Some(p) = bp {
        cfg.max_blobs_per_tx = Some(p.max_blobs_per_tx);
    }
    if rules.is_osaka_active_at_timestamp(input.timestamp) {
        cfg.tx_gas_limit_cap = Some(TX_GAS_LIMIT_CAP);
    }
    cfg
}

impl EvmEnv<SpecId> {
    /// The environment of a base-chain block from its own header.
    pub fn for_eth_block(header: &BlockHeader, rules: &EthereumHardforks, chain_id: u64, blob_params: Option<BlobParams>) -> (r: EvmEnv<SpecId>)
        requires
            blob_inputs_defined(input_of_header(*header), blob_params),
        ensures
            r == eth_env_of(input_of_header(*header), *rules, chain_id, blob_params),
    {
        Self::for_eth(&EvmEnvInput::from_block_header(header), rules, chain_id, blob_params)
    }

    /// The environment of a base-chain block from an execution payload.
    pub fn for_eth_payload(payload: &ExecutionPayload, rules: &EthereumHardforks, chain_id: u64, blob_params: Option<BlobParams>) -> (r: EvmEnv<SpecId>)
        requires
            blob_inputs_defined(input_of_payload(*payload), blob_params),
        ensures
            r == eth_env_of(input_of_payload(*payload), *rules, chain_id, blob_params),
    {
        Self::for_eth(&EvmEnvInput::from_payload(payload), rules, chain_id, blob_params)
    }

    /// The environment of the block after `header`, from builder attributes
    /// and the next block's base fee.
    pub fn for_eth_next_block(
        header: &BlockHeader,
        attributes: &NextEvmEnvAttributes,
        base_fee_per_gas: u64,
        rules: &EthereumHardforks,
        chain_id: u64,
        blob_params: Option<BlobParams>,
    ) -> (r: EvmEnv<SpecId>)
        requires
            header.number < u64::MAX,
            next_inputs_defined(input_of_parent(*header, *attributes, base_fee_per_gas), blob_params),
            next_price_defined(input_of_parent(*header, *attributes, base_fee_per_gas), *rules, blob_params),
        ensures
            r == eth_next_env_of(input_of_parent(*header, *attributes, base_fee_per_gas), *rules, chain_id, blob_params),
    {
        Self::for_eth_next(&EvmEnvInput::from_parent_header(header, attributes, base_fee_per_gas), rules, chain_id, blob_params)
    }

    pub fn for_eth(input: &EvmEnvInput, rules: &EthereumHardforks, chain_id: u64, blob_params: Option<BlobParams>) -> (r: EvmEnv<SpecId>)
        requires
            blob_inputs_defined(*input, blob_params),
        ensures
            r == eth_env_of(*input, *rules, chain_id, blob_params),
    {
        let cfg_env = eth_cfg_for(input, rules, chain_id, blob_params);
        let blob_excess_gas_and_price = match (input.excess_blob_gas, blob_params) {
            (Some(e), Some(p)) => Some(BlobExcessGasAndPrice { excess_blob_gas: e, blob_gasprice: p.blob_fee_at(e) }),
            _ => None,
        };
        let merged = rules.is_paris_active_at_block(input.height);
        let block_env = BlockEnv {
            number: U256::from_u64(input.height),
            beneficiary: input.beneficiary,
            timestamp: U256::from_u64(input.timestamp),
            difficulty: if merged { U256::zero() } else { input.difficulty },
            prevrandao: if merged { input.mix_hash } else { None },
            gas_limit: input.gas_limit,
            basefee: input.base_fee_per_gas,
            blob_excess_gas_and_price,
        };
        EvmEnv::new(cfg_env, block_env)
    }

    pub fn for_eth_next(input: &EvmEnvInput, rules: &EthereumHardforks, chain_id: u64, blob_params: Option<BlobParams>) -> (r: EvmEnv<SpecId>)
        requires
            next_inputs_defined(*input, blob_params),
            next_price_defined(*input, *rules, blob_params),
        ensures
            r == eth_next_env_of(*input, *rules, chain_id, blob_params),
    {
        let cfg_env = eth_cfg_for(input, rules, chain_id, blob_params);
        let updated = next_excess_for(input, cfg_env.spec, blob_params);
        let pricing = pricing_for(blob_params);
        let blob_excess_gas_and_price = match updated {
            Some(e) => Some(BlobExcessGasAndPrice { excess_blob_gas: e, blob_gasprice: pricing.blob_fee_at(e) }),
            None => None,
        };
        let block_env = BlockEnv {
            number: U256::from_u64(input.height),
            beneficiary: input.beneficiary,
            timestamp: U256::from_u64(input.timestamp),
            difficulty: U256::zero(),
            prevrandao: input.mix_hash,
            gas_limit: input.gas_limit,
            basefee: input.base_fee_per_gas,
            blob_excess_gas_and_price,
        };
        EvmEnv::new(cfg_env, block_env)
    }

    /// The environment of the block after `header`, or `None` where the
    /// next block's blob price overflows at its updated excess.
    pub fn try_for_eth_next_block(
        header: &BlockHeader,
        attributes: &NextEvmEnvAttributes,
        base_fee_per_gas: u64,
        rules: &EthereumHardforks,
        chain_id: u64,
        blob_params: Option<BlobParams>,
    ) -> (r: Option<EvmEnv<SpecId>>)
        requires
            header.number < u64::MAX,
            next_inputs_defined(input_of_parent(*header, *attributes, base_fee_per_gas), blob_params),
        ensures
            r is Some <==> next_price_defined(input_of_parent(*header, *attributes, base_fee_per_gas), *rules, blob_params),
            r is Some ==> r->Some_0 == eth_next_env_of(input_of_parent(*header, *attributes, base_fee_per_gas), *rules, chain_id, blob_params),
    {
        let input = EvmEnvInput::from_parent_header(header, attributes, base_fee_per_gas);
        let spec = spec_by_timestamp_and_block_number(rules, input.timestamp, input.height);
        let priced = match next_excess_for(&input, spec, blob_params) {
            Some(e) => pricing_for(blob_params).fee_defined_at(e),
            None => true,
        };
        if priced {
            Some(Self::for_eth_next_block(header, attributes, base_fee_per_gas, rules, chain_id, blob_params))
        } else {
            None
        }
    }
}

fn pricing_for(bp: Option<BlobParams>) -> (r: BlobParams)
    ensures
        r == pricing_of(bp),
{
    match bp {
        Some(p) => p,
        None => BlobParams::cancun(),
    }
}

fn next_excess_for(input: &EvmEnvInput, spec: SpecId, bp: Option<BlobParams>) -> (r: Option<u64>)
    requires
        next_inputs_defined(*input, bp),
    ensures
        r == next_excess(*input, spec, bp),
{
    match (bp, input.excess_blob_gas, input.blob_gas_used) {
        (Some(p), Some(e), Some(u)) => Some(p.next_block_excess_blob_gas(e, u, input.base_fee_per_gas)),
        _ => if spec == SpecId::CANCUN { Some(0u64) } else { None },
    }
}

impl EvmEnv<OpSpecId> {
    /// The environment of a rollup block from its own header.
    pub fn for_op_block(header: &BlockHeader, rules: &OpHardforks, chain_id: u64) -> (r: EvmEnv<OpSpecId>)
        ensures
            r == op_env_of(input_of_header(*header), *rules, chain_id),
    {
        Self::for_op(&EvmEnvInput::from_block_header(header), rules, chain_id)
    }

    /// The environment of the rollup block after `header`.
    pub fn for_op_next_block(
        header: &BlockHeader,
        attributes: &NextEvmEnvAttributes,
        base_fee_per_gas: u64,
        rules: &OpHardforks,
        chain_id: u64,
    ) -> (r: EvmEnv<OpSpecId>)
        requires
            header.number < u64::MAX,
        ensures
            r == op_env_of(input_of_parent(*header, *attributes, base_fee_per_gas), *rules, chain_id),
    {
        Self::for_op(&EvmEnvInput::from_parent_header(header, attributes, base_fee_per_gas), rules, chain_id)
    }

    /// The environment of a rollup block from an execution payload.
    pub fn for_op_payload(payload: &ExecutionPayload, rules: &OpHardforks, chain_id: u64) -> (r: EvmEnv<OpSpecId>)
        ensures
            r == op_env_of(input_of_payload(*payload), *rules, chain_id),
    {
        Self::for_op(&EvmEnvInput::from_payload(payload), rules, chain_id)
    }

    pub fn for_op(input: &EvmEnvInput, rules: &OpHardforks, chain_id: u64) -> (r: EvmEnv<OpSpecId>)
        ensures
            r == op_env_of(*input, *rules, chain_id),
    {
        let spec = spec_by_timestamp_after_bedrock(rules, input.timestamp);
        let cfg_env = CfgEnv::new_with_spec(spec).with_chain_id(chain_id);
        let eth = spec.into_eth_spec();
        let blob_excess_gas_and_price = if eth.is_enabled_in(SpecId::CANCUN) {
            Some(BlobExcessGasAndPrice { excess_blob_gas: 0, blob_gasprice: 1 })
        } else {
            None
        };
        let merged = eth.is_enabled_in(SpecId::MERGE);
        let block_env = BlockEnv {
            number: U256::from_u64(input.height),
            beneficiary: input.beneficiary,
            timestamp: U256::from_u64(input.timestamp),
            difficulty: if merged { U256::zero() } else { input.difficulty },
            prevrandao: if merged { input.mix_hash } else { None },
            gas_limit: input.gas_limit,
            basefee: input.base_fee_per_gas,
            blob_excess_gas_and_price,
        };
        EvmEnv::new(cfg_env, block_env)
    }
}

/// Building the environment is deterministic: two builds from the same
/// header, schedule, chain id and blob parameters are identical.
pub proof fn lemma_env_build_idempotent(
    header: BlockHeader,
    rules: EthereumHardforks,
    chain_id: u64,
    bp: Option<BlobParams>,
    first: EvmEnv<SpecId>,
    second: EvmEnv<SpecId>,
)
    requires
        first == eth_env_of(input_of_header(header), rules, chain_id, bp),
        second == eth_env_of(input_of_header(header), rules, chain_id, bp),
    ensures
        first == second,
{
}

/// Building a rollup environment twice from the same header, schedule and
/// chain id gives identical results.
pub proof fn lemma_op_env_build_idempotent(
    header: BlockHeader,
    rules: OpHardforks,
    chain_id: u64,
    first: EvmEnv<OpSpecId>,
    second: EvmEnv<OpSpecId>,
)
    requires
        first == op_env_of(input_of_header(header), rules, chain_id),
        second == op_env_of(input_of_header(header), rules, chain_id),
    ensures
        first == second,
{
}

/// Resolving the version again from the timestamp and number recorded in a
/// built base-chain environment gives the version it was built with, for
/// both the existing-block and the next-block builders.
pub proof fn lemma_eth_env_reresolves(input: EvmEnvInput, rules: EthereumHardforks, chain_id: u64, bp: Option<BlobParams>)
    ensures
        ({
            let env = eth_env_of(input, rules, chain_id, bp);
            eth_spec_at(rules, env.block_env.timestamp.value() as u64, env.block_env.number.value() as u64) == env.cfg_env.spec
        }),
        ({
            let env = eth_next_env_of(input, rules, chain_id, bp);
            eth_spec_at(rules, env.block_env.timestamp.value() as u64, env.block_env.number.value() as u64) == env.cfg_env.spec
        }),
{
}

/// Resolving the rollup version again from the timestamp recorded in a
/// built rollup environment gives the version it was built with.
pub proof fn lemma_op_env_reresolves(input: EvmEnvInput, rules: OpHardforks, chain_id: u64)
    ensures
        ({
            let env = op_env_of(input, rules, chain_id);
            op_spec_at(rules, env.block_env.timestamp.value() as u64) == env.cfg_env.spec
        }),
{
}

} // verus!
