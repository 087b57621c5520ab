//! Hardfork activation schedules and the resolver that maps a block's
//! timestamp and number to the protocol version in force.

use vstd::prelude::*;
use crate::spec_id::{SpecId, spec_rank};
use crate::builder::BlockHeader;

verus! {

/// When a hardfork becomes active.
#[derive(Debug, Clone, Copy, PartialEq, Eq, Structural)]
pub enum ForkCondition {
    /// Active from this block number on.
    Block(u64),
    /// Active once the terminal total difficulty was reached; the first
    /// post-merge block number is what activation is judged by.
    Ttd(u64),
    /// Active from this timestamp on.
    Timestamp(u64),
    /// Never active.
    Never,
}

impl ForkCondition {
    pub open spec fn spec_active_at_block(self, n: u64) -> bool {
        match self {
            ForkCondition::Block(b) => n >= b,
            ForkCondition::Ttd(b) => n >= b,
            _ => false,
        }
    }

    pub open spec fn spec_active_at_timestamp(self, ts: u64) -> bool {
        match self {
            ForkCondition::Timestamp(t) => ts >= t,
            _ => false,
        }
    }

    /// Whether the condition holds at block `n`; only block-based
    /// conditions can hold.
    pub fn active_at_block(&self, n: u64) -> (r: bool)
        ensures
            r == self.spec_active_at_block(n),
    {
        match self {
            ForkCondition::Block(b) => n >= *b,
            ForkCondition::Ttd(b) => n >= *b,
            _ => false,
        }
    }

    /// Whether the condition holds at timestamp `ts`; only timestamp-based
    /// conditions can hold.
    pub fn active_at_timestamp(&self, ts: u64) -> (r: bool)
        ensures
            r == self.spec_active_at_timestamp(ts),
    {
        match self {
            ForkCondition::Timestamp(t) => ts >= *t,
            _ => false,
        }
    }
}

/// Activation schedule of the base chain's hardforks.
#[derive(Debug, Clone, Copy, PartialEq, Eq, Structural)]
pub struct EthereumHardforks {
    pub homestead: ForkCondition,
    pub tangerine: ForkCondition,
    pub spurious_dragon: ForkCondition,
    pub byzantium: ForkCondition,
    pub petersburg: ForkCondition,
    pub istanbul: ForkCondition,
    pub berlin: ForkCondition,
    pub london: ForkCondition,
    pub paris: ForkCondition,
    pub shanghai: ForkCondition,
    pub cancun: ForkCondition,
    pub prague: ForkCondition,
    pub osaka: ForkCondition,
}

/// Versions from Shanghai on are gated by timestamp, older ones by block number.
pub open spec fn is_time_gated(s: SpecId) -> bool {
    spec_rank(s) >= 10
}

/// The activation condition that the schedule gives a version; the genesis
/// version is active from the first block.
pub open spec fn eth_condition(rules: EthereumHardforks, s: SpecId) -> ForkCondition {
    match s {
        SpecId::FRONTIER => ForkCondition::Block(0),
        SpecId::HOMESTEAD => rules.homestead,
        SpecId::TANGERINE => rules.tangerine,
        SpecId::SPURIOUS_DRAGON => rules.spurious_dragon,
        SpecId::BYZANTIUM => rules.byzantium,
        SpecId::PETERSBURG => rules.petersburg,
        SpecId::ISTANBUL => rules.istanbul,
        SpecId::BERLIN => rules.berlin,
        SpecId::LONDON => rules.london,
        SpecId::MERGE => rules.paris,
        SpecId::SHANGHAI => rules.shanghai,
        SpecId::CANCUN => rules.cancun,
        SpecId::PRAGUE => rules.prague,
        SpecId::OSAKA => rules.osaka,
    }
}

/// Whether version `s` is active at the given timestamp and block number,
/// judged by timestamp or by number as the version is gated.
pub open spec fn eth_fork_active(rules: EthereumHardforks, s: SpecId, ts: u64, n: u64) -> bool {
    if is_time_gated(s) {
        eth_condition(rules, s).spec_active_at_timestamp(ts)
    } else {
        eth_condition(rules, s).spec_active_at_block(n)
    }
}

/// The newest base-chain version active at `(ts, n)`, trying versions from
/// newest to oldest and falling back to genesis.
pub open spec fn eth_spec_at(rules: EthereumHardforks, ts: u64, n: u64) -> SpecId {
    if eth_fork_active(rules, SpecId::OSAKA, ts, n) { SpecId::OSAKA }
    else if eth_fork_active(rules, SpecId::PRAGUE, ts, n) { SpecId::PRAGUE }
    else if eth_fork_active(rules, SpecId::CANCUN, ts, n) { SpecId::CANCUN }
    else if eth_fork_active(rules, SpecId::SHANGHAI, ts, n) { SpecId::SHANGHAI }
    else if eth_fork_active(rules, SpecId::MERGE, ts, n) { SpecId::MERGE }
    else if eth_fork_active(rules, SpecId::LONDON, ts, n) { SpecId::LONDON }
    else if eth_fork_active(rules, SpecId::BERLIN, ts, n) { SpecId::BERLIN }
    else if eth_fork_active(rules, SpecId::ISTANBUL, ts, n) { SpecId::ISTANBUL }
    else if eth_fork_active(rules, SpecId::PETERSBURG, ts, n) { SpecId::PETERSBURG }
    else if eth_fork_active(rules, SpecId::BYZANTIUM, ts, n) { SpecId::BYZANTIUM }
    else if eth_fork_active(rules, SpecId::SPURIOUS_DRAGON, ts, n) { SpecId::SPURIOUS_DRAGON }
    else if eth_fork_active(rules, SpecId::TANGERINE, ts, n) { SpecId::TANGERINE }
    else if eth_fork_active(rules, SpecId::HOMESTEAD, ts, n) { SpecId::HOMESTEAD }
    else { SpecId::FRONTIER }
}

impl EthereumHardforks {
    pub fn is_osaka_active_at_timestamp(&self, ts: u64) -> (r: bool)
        ensures
            r == self.osaka.spec_active_at_timestamp(ts),
    {
        self.osaka.active_at_timestamp(ts)
    }

    pub fn is_paris_active_at_block(&self, n: u64) -> (r: bool)
        ensures
            r == self.paris.spec_active_at_block(n),
    {
        self.paris.active_at_block(n)
    }

    pub fn is_spurious_dragon_active_at_block(&self, n: u64) -> (r: bool)
        ensures
            r == self.spurious_dragon.spec_active_at_block(n),
    {
        self.spurious_dragon.active_at_block(n)
    }
}

/// Maps the newest hardfork active at the given timestamp or block number to
/// a protocol version: timestamp-gated forks are tried first, newest first,
/// then block-gated ones, then genesis.
pub fn spec_by_timestamp_and_block_number(rules: &EthereumHardforks, timestamp: u64, block_number: u64) -> (r: SpecId)
    ensures
        r == eth_spec_at(*rules, timestamp, block_number),
{
    if rules.osaka.active_at_timestamp(timestamp) {
        SpecId::OSAKA
    } else if rules.prague.active_at_timestamp(timestamp) {
        SpecId::PRAGUE
    } else if rules.cancun.active_at_timestamp(timestamp) {
        SpecId::CANCUN
    } else if rules.shanghai.active_at_timestamp(timestamp) {
        SpecId::SHANGHAI
    } else if rules.paris.active_at_block(block_number) {
        SpecId::MERGE
    } else if rules.london.active_at_block(block_number) {
        SpecId::LONDON
    } else if rules.berlin.active_at_block(block_number) {
        SpecId::BERLIN
    } else if rules.istanbul.active_at_block(block_number) {
        SpecId::ISTANBUL
    } else if rules.petersburg.active_at_block(block_number) {
        SpecId::PETERSBURG
    } else if rules.byzantium.active_at_block(block_number) {
        SpecId::BYZANTIUM
    } else if rules.spurious_dragon.active_at_block(block_number) {
        SpecId::SPURIOUS_DRAGON
    } else if rules.tangerine.active_at_block(block_number) {
        SpecId::TANGERINE
    } else if rules.homestead.active_at_block(block_number) {
        SpecId::HOMESTEAD
    } else {
        SpecId::FRONTIER
    }
}

/// Resolution at genesis: when no hardfork of the schedule is active at
/// `(ts, n)`, the genesis version is returned.
pub proof fn lemma_eth_genesis(rules: EthereumHardforks, ts: u64, n: u64)
    requires
        forall|s: SpecId| s != SpecId::FRONTIER ==> !#[trigger] eth_fork_active(rules, s, ts, n),
    ensures
        eth_spec_at(rules, ts, n) == SpecId::FRONTIER,
{
}

/// Activation boundaries are inclusive: at exactly the timestamp (for
/// timestamp-gated versions) or block number (for the others) at which a
/// version is scheduled, and with no newer version active there, that
/// version is the one resolved.
pub proof fn lemma_eth_boundary_inclusive(rules: EthereumHardforks, s: SpecId, ts: u64, n: u64)
    requires
        is_time_gated(s) ==> eth_condition(rules, s) == ForkCondition::Timestamp(ts),
        !is_time_gated(s) && s != SpecId::FRONTIER ==> eth_condition(rules, s) == ForkCondition::Block(n),
        forall|s2: SpecId| spec_rank(s2) > spec_rank(s) ==> !#[trigger] eth_fork_active(rules, s2, ts, n),
    ensures
        eth_spec_at(rules, ts, n) == s,
{
}

/// Maps the hardfork active at a header's timestamp and number to a
/// protocol version.
pub fn spec(rules: &EthereumHardforks, header: &BlockHeader) -> (r: SpecId)
    ensures
        r == eth_spec_at(*rules, header.timestamp, header.number),
{
    spec_by_timestamp_and_block_number(rules, header.timestamp, header.number)
}

} // verus!
