//! The rollup's hardfork schedule and its resolver, in force after the
//! rollup's first version, when every fork is gated by timestamp.

use vstd::prelude::*;
use crate::spec_id::{OpSpecId, op_spec_rank};
use crate::hardfork::{EthereumHardforks, ForkCondition};
use crate::builder::BlockHeader;

verus! {

/// Activation schedule of the rollup's hardforks, all gated by timestamp.
#[derive(Debug, Clone, Copy, PartialEq, Eq, Structural)]
pub struct OpHardforks {
    pub regolith: ForkCondition,
    pub canyon: ForkCondition,
    pub ecotone: ForkCondition,
    pub fjord: ForkCondition,
    pub granite: ForkCondition,
    pub holocene: ForkCondition,
    pub isthmus: ForkCondition,
    pub jovian: ForkCondition,
    pub interop: ForkCondition,
    /// Schedule of the base chain the rollup builds on.
    pub base: EthereumHardforks,
}

/// The activation condition that the schedule gives a rollup version; the
/// first one is in force from the start.
pub open spec fn op_condition(rules: OpHardforks, s: OpSpecId) -> ForkCondition {
    match s {
        OpSpecId::BEDROCK => ForkCondition::Timestamp(0),
        OpSpecId::REGOLITH => rules.regolith,
        OpSpecId::CANYON => rules.canyon,
        OpSpecId::ECOTONE => rules.ecotone,
        OpSpecId::FJORD => rules.fjord,
        OpSpecId::GRANITE => rules.granite,
        OpSpecId::HOLOCENE => rules.holocene,
        OpSpecId::ISTHMUS => rules.isthmus,
        OpSpecId::JOVIAN => rules.jovian,
        OpSpecId::INTEROP => rules.interop,
    }
}

pub open spec fn op_fork_active(rules: OpHardforks, s: OpSpecId, ts: u64) -> bool {
    op_condition(rules, s).spec_active_at_timestamp(ts)
}

/// The newest rollup version active at `ts`, trying versions from newest to
/// oldest and falling back to the first one.
pub open spec fn op_spec_at(rules: OpHardforks, ts: u64) -> OpSpecId {
    if op_fork_active(rules, OpSpecId::INTEROP, ts) { OpSpecId::INTEROP }
    else if op_fork_active(rules, OpSpecId::JOVIAN, ts) { OpSpecId::JOVIAN }
    else if op_fork_active(rules, OpSpecId::ISTHMUS, ts) { OpSpecId::ISTHMUS }
    else if op_fork_active(rules, OpSpecId::HOLOCENE, ts) { OpSpecId::HOLOCENE }
    else if op_fork_active(rules, OpSpecId::GRANITE, ts) { OpSpecId::GRANITE }
    else if op_fork_active(rules, OpSpecId::FJORD, ts) { OpSpecId::FJORD }
    else if op_fork_active(rules, OpSpecId::ECOTONE, ts) { OpSpecId::ECOTONE }
    else if op_fork_active(rules, OpSpecId::CANYON, ts) { OpSpecId::CANYON }
    else if op_fork_active(rules, OpSpecId::REGOLITH, ts) { OpSpecId::REGOLITH }
    else { OpSpecId::BEDROCK }
}

impl OpHardforks {
    pub fn is_regolith_active_at_timestamp(&self, ts: u64) -> (r: bool)
        ensures
            r == self.regolith.spec_active_at_timestamp(ts),
    {
        self.regolith.active_at_timestamp(ts)
    }

    pub fn is_canyon_active_at_timestamp(&self, ts: u64) -> (r: bool)
        ensures
            r == self.canyon.spec_active_at_timestamp(ts),
    {
        self.canyon.active_at_timestamp(ts)
    }

    pub fn is_jovian_active_at_timestamp(&self, ts: u64) -> (r: bool)
        ensures
            r == self.jovian.spec_active_at_timestamp(ts),
    {
        self.jovian.active_at_timestamp(ts)
    }

    pub fn is_spurious_dragon_active_at_block(&self, n: u64) -> (r: bool)
        ensures
            r == self.base.spurious_dragon.spec_active_at_block(n),
    {
        self.base.is_spurious_dragon_active_at_block(n)
    }
}

/// Maps the newest rollup hardfork active at `timestamp` to a protocol
/// version; meant for blocks after the first rollup version, when all forks
/// are gated by timestamp.
pub fn spec_by_timestamp_after_bedrock(rules: &OpHardforks, timestamp: u64) -> (r: OpSpecId)
    ensures
        r == op_spec_at(*rules, timestamp),
{
    if rules.interop.active_at_timestamp(timestamp) {
        OpSpecId::INTEROP
    } else if rules.jovian.active_at_timestamp(timestamp) {
        OpSpecId::JOVIAN
    } else if rules.isthmus.active_at_timestamp(timestamp) {
        OpSpecId::ISTHMUS
    } else if rules.holocene.active_at_timestamp(timestamp) {
        OpSpecId::HOLOCENE
    } else if rules.granite.active_at_timestamp(timestamp) {
        OpSpecId::GRANITE
    } else if rules.fjord.active_at_timestamp(timestamp) {
        OpSpecId::FJORD
    } else if rules.ecotone.active_at_timestamp(timestamp) {
        OpSpecId::ECOTONE
    } else if rules.canyon.active_at_timestamp(timestamp) {
        OpSpecId::CANYON
    } else if rules.regolith.active_at_timestamp(timestamp) {
        OpSpecId::REGOLITH
    } else {
        OpSpecId::BEDROCK
    }
}

/// Resolution at genesis for the rollup: with no rollup hardfork active at
/// `ts`, the first rollup version is returned.
pub proof fn lemma_op_genesis(rules: OpHardforks, ts: u64)
    requires
        forall|s: OpSpecId| s != OpSpecId::BEDROCK ==> !#[trigger] op_fork_active(rules, s, ts),
    ensures
        op_spec_at(rules, ts) == OpSpecId::BEDROCK,
{
}

/// Rollup activation boundaries are inclusive: at exactly a version's
/// scheduled timestamp, with no newer version active, that version is the
/// one resolved.
pub proof fn lemma_op_boundary_inclusive(rules: OpHardforks, s: OpSpecId, ts: u64)
    requires
        s != OpSpecId::BEDROCK ==> op_condition(rules, s) == ForkCondition::Timestamp(ts),
        forall|s2: OpSpecId| op_spec_rank(s2) > op_spec_rank(s) ==> !#[trigger] op_fork_active(rules, s2, ts),
    ensures
        op_spec_at(rules, ts) == s,
{
}

/// Maps the rollup hardfork active at a header's timestamp to a protocol
/// version.
pub fn spec(rules: &OpHardforks, header: &BlockHeader) -> (r: OpSpecId)
    ensures
        r == op_spec_at(*rules, header.timestamp),
{
    spec_by_timestamp_after_bedrock(rules, header.timestamp)
}

} // verus!
