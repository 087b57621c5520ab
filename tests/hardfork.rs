use block_exec::builder::BlockHeader;
use block_exec::hardfork::{spec, spec_by_timestamp_and_block_number, EthereumHardforks, ForkCondition};
use block_exec::op_hardfork::{spec_by_timestamp_after_bedrock, OpHardforks};
use block_exec::primitives::U256;
use block_exec::spec_id::{OpSpecId, SpecId};

fn never() -> EthereumHardforks {
    EthereumHardforks {
        homestead: ForkCondition::Never,
        tangerine: ForkCondition::Never,
        spurious_dragon: ForkCondition::Never,
        byzantium: ForkCondition::Never,
        petersburg: ForkCondition::Never,
        istanbul: ForkCondition::Never,
        berlin: ForkCondition::Never,
        london: ForkCondition::Never,
        paris: ForkCondition::Never,
        shanghai: ForkCondition::Never,
        cancun: ForkCondition::Never,
        prague: ForkCondition::Never,
        osaka: ForkCondition::Never,
    }
}

fn op_never() -> OpHardforks {
    OpHardforks {
        regolith: ForkCondition::Never,
        canyon: ForkCondition::Never,
        ecotone: ForkCondition::Never,
        fjord: ForkCondition::Never,
        granite: ForkCondition::Never,
        holocene: ForkCondition::Never,
        isthmus: ForkCondition::Never,
        jovian: ForkCondition::Never,
        interop: ForkCondition::Never,
        base: never(),
    }
}

fn mainnet() -> EthereumHardforks {
    EthereumHardforks {
        homestead: ForkCondition::Block(alloy_hardforks::mainnet::MAINNET_HOMESTEAD_BLOCK),
        tangerine: ForkCondition::Block(alloy_hardforks::mainnet::MAINNET_TANGERINE_BLOCK),
        spurious_dragon: ForkCondition::Block(alloy_hardforks::mainnet::MAINNET_SPURIOUS_DRAGON_BLOCK),
        byzantium: ForkCondition::Block(alloy_hardforks::mainnet::MAINNET_BYZANTIUM_BLOCK),
        petersburg: ForkCondition::Block(alloy_hardforks::mainnet::MAINNET_PETERSBURG_BLOCK),
        istanbul: ForkCondition::Block(alloy_hardforks::mainnet::MAINNET_ISTANBUL_BLOCK),
        berlin: ForkCondition::Block(alloy_hardforks::mainnet::MAINNET_BERLIN_BLOCK),
        london: ForkCondition::Block(alloy_hardforks::mainnet::MAINNET_LONDON_BLOCK),
        paris: ForkCondition::Ttd(alloy_hardforks::mainnet::MAINNET_PARIS_BLOCK),
        shanghai: ForkCondition::Timestamp(alloy_hardforks::mainnet::MAINNET_SHANGHAI_TIMESTAMP),
        cancun: ForkCondition::Timestamp(alloy_hardforks::mainnet::MAINNET_CANCUN_TIMESTAMP),
        prague: ForkCondition::Timestamp(alloy_hardforks::mainnet::MAINNET_PRAGUE_TIMESTAMP),
        osaka: ForkCondition::Timestamp(alloy_hardforks::mainnet::MAINNET_OSAKA_TIMESTAMP),
    }
}

fn op_mainnet() -> OpHardforks {
    OpHardforks {
        regolith: ForkCondition::Timestamp(alloy_op_hardforks::OP_MAINNET_REGOLITH_TIMESTAMP),
        canyon: ForkCondition::Timestamp(alloy_op_hardforks::OP_MAINNET_CANYON_TIMESTAMP),
        ecotone: ForkCondition::Timestamp(alloy_op_hardforks::OP_MAINNET_ECOTONE_TIMESTAMP),
        fjord: ForkCondition::Timestamp(alloy_op_hardforks::OP_MAINNET_FJORD_TIMESTAMP),
        granite: ForkCondition::Timestamp(alloy_op_hardforks::OP_MAINNET_GRANITE_TIMESTAMP),
        holocene: ForkCondition::Timestamp(alloy_op_hardforks::OP_MAINNET_HOLOCENE_TIMESTAMP),
        isthmus: ForkCondition::Timestamp(alloy_op_hardforks::OP_MAINNET_ISTHMUS_TIMESTAMP),
        jovian: ForkCondition::Timestamp(alloy_op_hardforks::OP_MAINNET_JOVIAN_TIMESTAMP),
        interop: ForkCondition::Never,
        base: mainnet(),
    }
}

#[test]
fn genesis_parameters_resolve_to_genesis() {
    assert_eq!(spec_by_timestamp_and_block_number(&never(), 0, 0), SpecId::FRONTIER);
    assert_eq!(spec_by_timestamp_and_block_number(&mainnet(), 0, 0), SpecId::FRONTIER);
    assert_eq!(spec_by_timestamp_after_bedrock(&op_never(), 0), OpSpecId::BEDROCK);
}

#[test]
fn single_fork_at_zero_maps_to_its_version() {
    let cases = [
        (EthereumHardforks { osaka: ForkCondition::Timestamp(0), ..never() }, SpecId::OSAKA),
        (EthereumHardforks { prague: ForkCondition::Timestamp(0), ..never() }, SpecId::PRAGUE),
        (EthereumHardforks { cancun: ForkCondition::Timestamp(0), ..never() }, SpecId::CANCUN),
        (EthereumHardforks { shanghai: ForkCondition::Timestamp(0), ..never() }, SpecId::SHANGHAI),
        (EthereumHardforks { paris: ForkCondition::Block(0), ..never() }, SpecId::MERGE),
        (EthereumHardforks { london: ForkCondition::Block(0), ..never() }, SpecId::LONDON),
        (EthereumHardforks { berlin: ForkCondition::Block(0), ..never() }, SpecId::BERLIN),
        (EthereumHardforks { istanbul: ForkCondition::Block(0), ..never() }, SpecId::ISTANBUL),
        (EthereumHardforks { petersburg: ForkCondition::Block(0), ..never() }, SpecId::PETERSBURG),
        (EthereumHardforks { spurious_dragon: ForkCondition::Block(0), ..never() }, SpecId::SPURIOUS_DRAGON),
        (EthereumHardforks { homestead: ForkCondition::Block(0), ..never() }, SpecId::HOMESTEAD),
        (never(), SpecId::FRONTIER),
    ];
    for (rules, expected) in cases {
        assert_eq!(spec_by_timestamp_and_block_number(&rules, 0, 0), expected);
    }
}

#[test]
fn mainnet_activation_points_are_inclusive() {
    let cases = [
        (alloy_hardforks::mainnet::MAINNET_PRAGUE_TIMESTAMP, 0, SpecId::PRAGUE),
        (alloy_hardforks::mainnet::MAINNET_CANCUN_TIMESTAMP, 0, SpecId::CANCUN),
        (alloy_hardforks::mainnet::MAINNET_SHANGHAI_TIMESTAMP, 0, SpecId::SHANGHAI),
        (0, alloy_hardforks::mainnet::MAINNET_PARIS_BLOCK, SpecId::MERGE),
        (0, alloy_hardforks::mainnet::MAINNET_LONDON_BLOCK, SpecId::LONDON),
        (0, alloy_hardforks::mainnet::MAINNET_BERLIN_BLOCK, SpecId::BERLIN),
        (0, alloy_hardforks::mainnet::MAINNET_ISTANBUL_BLOCK, SpecId::ISTANBUL),
        (0, alloy_hardforks::mainnet::MAINNET_PETERSBURG_BLOCK, SpecId::PETERSBURG),
        (0, alloy_hardforks::mainnet::MAINNET_BYZANTIUM_BLOCK, SpecId::BYZANTIUM),
        (0, alloy_hardforks::mainnet::MAINNET_SPURIOUS_DRAGON_BLOCK, SpecId::SPURIOUS_DRAGON),
        (0, alloy_hardforks::mainnet::MAINNET_TANGERINE_BLOCK, SpecId::TANGERINE),
        (0, alloy_hardforks::mainnet::MAINNET_HOMESTEAD_BLOCK, SpecId::HOMESTEAD),
        (0, alloy_hardforks::mainnet::MAINNET_FRONTIER_BLOCK, SpecId::FRONTIER),
    ];
    for (ts, n, expected) in cases {
        assert_eq!(spec_by_timestamp_and_block_number(&mainnet(), ts, n), expected);
    }
    assert_eq!(spec_by_timestamp_and_block_number(&mainnet(), alloy_hardforks::mainnet::MAINNET_CANCUN_TIMESTAMP - 1, 0), SpecId::SHANGHAI);
    assert_eq!(spec_by_timestamp_and_block_number(&mainnet(), 0, alloy_hardforks::mainnet::MAINNET_LONDON_BLOCK - 1), SpecId::BERLIN);
}

#[test]
fn op_single_fork_at_zero_maps_to_its_version() {
    let cases = [
        (OpHardforks { interop: ForkCondition::Timestamp(0), ..op_never() }, OpSpecId::INTEROP),
        (OpHardforks { jovian: ForkCondition::Timestamp(0), ..op_never() }, OpSpecId::JOVIAN),
        (OpHardforks { isthmus: ForkCondition::Timestamp(0), ..op_never() }, OpSpecId::ISTHMUS),
        (OpHardforks { holocene: ForkCondition::Timestamp(0), ..op_never() }, OpSpecId::HOLOCENE),
        (OpHardforks { granite: ForkCondition::Timestamp(0), ..op_never() }, OpSpecId::GRANITE),
        (OpHardforks { fjord: ForkCondition::Timestamp(0), ..op_never() }, OpSpecId::FJORD),
        (OpHardforks { ecotone: ForkCondition::Timestamp(0), ..op_never() }, OpSpecId::ECOTONE),
        (OpHardforks { canyon: ForkCondition::Timestamp(0), ..op_never() }, OpSpecId::CANYON),
        (OpHardforks { regolith: ForkCondition::Timestamp(0), ..op_never() }, OpSpecId::REGOLITH),
        (op_never(), OpSpecId::BEDROCK),
    ];
    for (rules, expected) in cases {
        assert_eq!(spec_by_timestamp_after_bedrock(&rules, 0), expected);
    }
}

#[test]
fn op_mainnet_activation_points_are_inclusive() {
    let cases = [
        (alloy_op_hardforks::OP_MAINNET_JOVIAN_TIMESTAMP, OpSpecId::JOVIAN),
        (alloy_op_hardforks::OP_MAINNET_ISTHMUS_TIMESTAMP, OpSpecId::ISTHMUS),
        (alloy_op_hardforks::OP_MAINNET_HOLOCENE_TIMESTAMP, OpSpecId::HOLOCENE),
        (alloy_op_hardforks::OP_MAINNET_GRANITE_TIMESTAMP, OpSpecId::GRANITE),
        (alloy_op_hardforks::OP_MAINNET_FJORD_TIMESTAMP, OpSpecId::FJORD),
        (alloy_op_hardforks::OP_MAINNET_ECOTONE_TIMESTAMP, OpSpecId::ECOTONE),
        (alloy_op_hardforks::OP_MAINNET_CANYON_TIMESTAMP, OpSpecId::CANYON),
        (alloy_op_hardforks::OP_MAINNET_REGOLITH_TIMESTAMP, OpSpecId::REGOLITH),
    ];
    for (ts, expected) in cases {
        assert_eq!(spec_by_timestamp_after_bedrock(&op_mainnet(), ts), expected);
    }
    assert_eq!(spec_by_timestamp_after_bedrock(&op_mainnet(), alloy_op_hardforks::OP_MAINNET_CANYON_TIMESTAMP - 1), OpSpecId::REGOLITH);
}

#[test]
fn rollup_versions_map_to_base_versions() {
    assert_eq!(OpSpecId::BEDROCK.into_eth_spec(), SpecId::MERGE);
    assert_eq!(OpSpecId::CANYON.into_eth_spec(), SpecId::SHANGHAI);
    assert_eq!(OpSpecId::HOLOCENE.into_eth_spec(), SpecId::CANCUN);
    assert_eq!(OpSpecId::JOVIAN.into_eth_spec(), SpecId::PRAGUE);
    assert!(SpecId::OSAKA.is_enabled_in(SpecId::CANCUN));
    assert!(!SpecId::MERGE.is_enabled_in(SpecId::CANCUN));
    assert!(OpSpecId::JOVIAN.is_enabled_in(OpSpecId::REGOLITH));
}

#[test]
fn ttd_condition_is_judged_by_activation_block() {
    assert!(ForkCondition::Ttd(10).active_at_block(10));
    assert!(!ForkCondition::Ttd(10).active_at_block(9));
    assert!(!ForkCondition::Ttd(10).active_at_timestamp(100));
    assert!(!ForkCondition::Timestamp(10).active_at_block(100));
}

fn default_header(number: u64, timestamp: u64) -> BlockHeader {
    BlockHeader {
        number,
        timestamp,
        beneficiary: [0u8; 20],
        mix_hash: None,
        difficulty: U256::zero(),
        gas_limit: 0,
        excess_blob_gas: None,
        base_fee_per_gas: None,
        blob_gas_used: None,
    }
}

#[test]
fn header_spec_uses_its_timestamp_and_number() {
    let h = default_header(alloy_hardforks::mainnet::MAINNET_LONDON_BLOCK, 0);
    assert_eq!(spec(&mainnet(), &h), SpecId::LONDON);
    assert_eq!(spec(&EthereumHardforks { osaka: ForkCondition::Timestamp(0), ..never() }, &default_header(0, 0)), SpecId::OSAKA);
    let op = default_header(0, alloy_op_hardforks::OP_MAINNET_GRANITE_TIMESTAMP);
    assert_eq!(block_exec::op_hardfork::spec(&op_mainnet(), &op), OpSpecId::GRANITE);
}
