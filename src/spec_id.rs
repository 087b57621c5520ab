//! Totally ordered protocol-version tags.

use vstd::prelude::*;

verus! {

/// Protocol version of the base chain, ordered by activation.
#[derive(Debug, Clone, Copy, PartialEq, Eq, Structural)]
#[allow(non_camel_case_types)]
pub enum SpecId {
    FRONTIER,
    HOMESTEAD,
    TANGERINE,
    SPURIOUS_DRAGON,
    BYZANTIUM,
    PETERSBURG,
    ISTANBUL,
    BERLIN,
    LONDON,
    MERGE,
    SHANGHAI,
    CANCUN,
    PRAGUE,
    OSAKA,
}

/// Position of a base-chain version in activation order.
pub open spec fn spec_rank(s: SpecId) -> nat {
    match s {
        SpecId::FRONTIER => 0,
        SpecId::HOMESTEAD => 1,
        SpecId::TANGERINE => 2,
        SpecId::SPURIOUS_DRAGON => 3,
        SpecId::BYZANTIUM => 4,
        SpecId::PETERSBURG => 5,
        SpecId::ISTANBUL => 6,
        SpecId::BERLIN => 7,
        SpecId::LONDON => 8,
        SpecId::MERGE => 9,
        SpecId::SHANGHAI => 10,
        SpecId::CANCUN => 11,
        SpecId::PRAGUE => 12,
        SpecId::OSAKA => 13,
    }
}

impl SpecId {
    /// Position of this version in activation order.
    pub fn rank(self) -> (r: u8)
        ensures
            r as nat == spec_rank(self),
    {
        match self {
            SpecId::FRONTIER => 0,
            SpecId::HOMESTEAD => 1,
            SpecId::TANGERINE => 2,
            SpecId::SPURIOUS_DRAGON => 3,
            SpecId::BYZANTIUM => 4,
            SpecId::PETERSBURG => 5,
            SpecId::ISTANBUL => 6,
            SpecId::BERLIN => 7,
            SpecId::LONDON => 8,
            SpecId::MERGE => 9,
            SpecId::SHANGHAI => 10,
            SpecId::CANCUN => 11,
            SpecId::PRAGUE => 12,
            SpecId::OSAKA => 13,
        }
    }

    /// Whether the rules of `other` are in force under `self`.
    pub fn is_enabled_in(self, other: SpecId) -> (r: bool)
        ensures
            r == (spec_rank(other) <= spec_rank(self)),
    {
        other.rank() <= self.rank()
    }

    /// The version a fresh configuration starts from.
    pub fn default_spec() -> (r: SpecId)
        ensures
            r == SpecId::PRAGUE,
    {
        SpecId::PRAGUE
    }
}

/// Protocol version of the rollup, ordered by activation.
#[derive(Debug, Clone, Copy, PartialEq, Eq, Structural)]
#[allow(non_camel_case_types)]
pub enum OpSpecId {
    BEDROCK,
    REGOLITH,
    CANYON,
    ECOTONE,
    FJORD,
    GRANITE,
    HOLOCENE,
    ISTHMUS,
    JOVIAN,
    INTEROP,
}

/// Position of a rollup version in activation order.
pub open spec fn op_spec_rank(s: OpSpecId) -> nat {
    match s {
        OpSpecId::BEDROCK => 0,
        OpSpecId::REGOLITH => 1,
        OpSpecId::CANYON => 2,
        OpSpecId::ECOTONE => 3,
        OpSpecId::FJORD => 4,
        OpSpecId::GRANITE => 5,
        OpSpecId::HOLOCENE => 6,
        OpSpecId::ISTHMUS => 7,
        OpSpecId::JOVIAN => 8,
        OpSpecId::INTEROP => 9,
    }
}

/// The base-chain version whose rules a rollup version builds on.
pub open spec fn spec_eth_of(s: OpSpecId) -> SpecId {
    match s {
        OpSpecId::BEDROCK | OpSpecId::REGOLITH => SpecId::MERGE,
        OpSpecId::CANYON => SpecId::SHANGHAI,
        OpSpecId::ECOTONE | OpSpecId::FJORD | OpSpecId::GRANITE | OpSpecId::HOLOCENE => SpecId::CANCUN,
        OpSpecId::ISTHMUS | OpSpecId::JOVIAN | OpSpecId::INTEROP => SpecId::PRAGUE,
    }
}

impl OpSpecId {
    /// Position of this version in activation order.
    pub fn rank(self) -> (r: u8)
        ensures
            r as nat == op_spec_rank(self),
    {
        match self {
            OpSpecId::BEDROCK => 0,
            OpSpecId::REGOLITH => 1,
            OpSpecId::CANYON => 2,
            OpSpecId::ECOTONE => 3,
            OpSpecId::FJORD => 4,
            OpSpecId::GRANITE => 5,
            OpSpecId::HOLOCENE => 6,
            OpSpecId::ISTHMUS => 7,
            OpSpecId::JOVIAN => 8,
            OpSpecId::INTEROP => 9,
        }
    }

    /// Whether the rules of `other` are in force under `self`.
    pub fn is_enabled_in(self, other: OpSpecId) -> (r: bool)
        ensures
            r == (op_spec_rank(other) <= op_spec_rank(self)),
    {
        other.rank() <= self.rank()
    }

    /// The base-chain version whose rules this rollup version builds on.
    pub fn into_eth_spec(self) -> (r: SpecId)
        ensures
            r == spec_eth_of(self),
    {
        match self {
            OpSpecId::BEDROCK | OpSpecId::REGOLITH => SpecId::MERGE,
            OpSpecId::CANYON => SpecId::SHANGHAI,
            OpSpecId::ECOTONE | OpSpecId::FJORD | OpSpecId::GRANITE | OpSpecId::HOLOCENE => SpecId::CANCUN,
            OpSpecId::ISTHMUS | OpSpecId::JOVIAN | OpSpecId::INTEROP => SpecId::PRAGUE,
        }
    }

    /// The version a fresh rollup configuration starts from.
    pub fn default_spec() -> (r: OpSpecId)
        ensures
            r == OpSpecId::ISTHMUS,
    {
        OpSpecId::ISTHMUS
    }
}

} // verus!
