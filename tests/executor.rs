use alloy_consensus::{SignableTransaction, TxLegacy};
use alloy_eips::Encodable2718;
use alloy_primitives::{Signature, U256 as AlloyU256};
use block_exec::env::BlockEnv;
use block_exec::executor::{
    da_footprint_scalar, BlockExecutionError, BlockTransaction, BlockValidationError, ExecutionOutcome, Log, OpBlockExecutionCtx,
    OpBlockExecutionError, OpBlockExecutor, DA_FOOTPRINT_GAS_SCALAR_OFFSET,
};
use block_exec::hardfork::{EthereumHardforks, ForkCondition};
use block_exec::op_hardfork::OpHardforks;
use block_exec::primitives::U256;
use block_exec::tx::{DepositTransactionParts, OpTransaction, TxEnv, TxKind, DEPOSIT_TRANSACTION_TYPE};

fn base_rules() -> EthereumHardforks {
    let zero = ForkCondition::Block(0);
    EthereumHardforks {
        homestead: zero,
        tangerine: zero,
        spurious_dragon: zero,
        byzantium: zero,
        petersburg: zero,
        istanbul: zero,
        berlin: zero,
        london: zero,
        paris: zero,
        shanghai: ForkCondition::Timestamp(0),
        cancun: ForkCondition::Timestamp(0),
        prague: ForkCondition::Timestamp(0),
        osaka: ForkCondition::Never,
    }
}

fn op_mainnet_with_jovian(jovian: u64) -> OpHardforks {
    OpHardforks {
        regolith: ForkCondition::Timestamp(alloy_op_hardforks::OP_MAINNET_REGOLITH_TIMESTAMP),
        canyon: ForkCondition::Timestamp(alloy_op_hardforks::OP_MAINNET_CANYON_TIMESTAMP),
        ecotone: ForkCondition::Timestamp(alloy_op_hardforks::OP_MAINNET_ECOTONE_TIMESTAMP),
        fjord: ForkCondition::Timestamp(alloy_op_hardforks::OP_MAINNET_FJORD_TIMESTAMP),
        granite: ForkCondition::Timestamp(alloy_op_hardforks::OP_MAINNET_GRANITE_TIMESTAMP),
        holocene: ForkCondition::Timestamp(alloy_op_hardforks::OP_MAINNET_HOLOCENE_TIMESTAMP),
        isthmus: ForkCondition::Timestamp(alloy_op_hardforks::OP_MAINNET_ISTHMUS_TIMESTAMP),
        jovian: ForkCondition::Timestamp(jovian),
        interop: ForkCondition::Never,
        base: base_rules(),
    }
}

fn ctx() -> OpBlockExecutionCtx {
    OpBlockExecutionCtx { parent_hash: [0u8; 32], parent_beacon_block_root: None, extra_data: vec![] }
}

fn block(gas_limit: u64, timestamp: u64) -> BlockEnv {
    BlockEnv { timestamp: U256::from_u64(timestamp), gas_limit, ..BlockEnv::default_block() }
}

fn base_env(tx_type: u8, gas_limit: u64) -> TxEnv {
    TxEnv {
        tx_type,
        caller: [0u8; 20],
        gas_limit,
        gas_price: 0,
        kind: TxKind::Create,
        value: U256::zero(),
        data: vec![],
        nonce: 0,
        chain_id: None,
        access_list: vec![],
        gas_priority_fee: None,
        blob_hashes: vec![],
        max_fee_per_blob_gas: 0,
        authorization_list: vec![],
    }
}

/// A signed legacy transaction with the given gas limit, as a block carries it.
fn legacy_tx(gas_limit: u64, with_wire_bytes: bool) -> BlockTransaction {
    let signed = TxLegacy { gas_limit, ..Default::default() }.into_signed(Signature::new(AlloyU256::ZERO, AlloyU256::ZERO, false));
    let encoded = signed.encoded_2718();
    BlockTransaction {
        tx_type: 0,
        gas_limit,
        signer: [0u8; 20],
        hash: signed.hash().0,
        encoded_2718: encoded.clone(),
        env: OpTransaction {
            base: base_env(0, gas_limit),
            enveloped_tx: if with_wire_bytes { Some(encoded) } else { None },
            deposit: DepositTransactionParts::none(),
        },
    }
}

fn deposit_tx(gas_limit: u64, system: bool) -> BlockTransaction {
    BlockTransaction {
        tx_type: DEPOSIT_TRANSACTION_TYPE,
        gas_limit,
        signer: [7u8; 20],
        hash: [8u8; 32],
        encoded_2718: vec![DEPOSIT_TRANSACTION_TYPE, 1, 2, 3],
        env: OpTransaction {
            base: base_env(DEPOSIT_TRANSACTION_TYPE, gas_limit),
            enveloped_tx: None,
            deposit: DepositTransactionParts { source_hash: [9u8; 32], mint: Some(0), is_system_transaction: system },
        },
    }
}

fn outcome(gas_used: u64) -> ExecutionOutcome {
    ExecutionOutcome { success: true, gas_used, logs: vec![] }
}

const JOVIAN_TIMESTAMP: u64 = 1746806402;

#[test]
fn test_with_encoded() {
    let executor = OpBlockExecutor::new(BlockEnv::default_block(), OpBlockExecutionCtx { parent_hash: [0u8; 32], parent_beacon_block_root: None, extra_data: vec![] }, op_mainnet_with_jovian(alloy_op_hardforks::OP_MAINNET_JOVIAN_TIMESTAMP));
    let tx = legacy_tx(0, false);
    let tx_with_encoded = legacy_tx(0, true);
    let _ = executor.admit_transaction(&tx, 0);
    let _ = executor.admit_transaction(&tx_with_encoded, 0);
}

#[test]
fn test_jovian_da_footprint_estimation() {
    const DA_FOOTPRINT_GAS_SCALAR: u16 = 7;
    const GAS_LIMIT: u64 = 100_000;
    let mut executor = OpBlockExecutor::new(block(GAS_LIMIT, JOVIAN_TIMESTAMP), ctx(), op_mainnet_with_jovian(JOVIAN_TIMESTAMP));
    let tx = legacy_tx(GAS_LIMIT, false);
    assert!(executor.da_footprint_used == 0);
    let expected_da_footprint = executor.jovian_da_footprint_estimation(&tx, DA_FOOTPRINT_GAS_SCALAR);
    let res = executor.admit_transaction(&tx, DA_FOOTPRINT_GAS_SCALAR);
    assert!(res.is_ok());
    executor.commit_transaction(outcome(21_000), &tx, None, DA_FOOTPRINT_GAS_SCALAR);
    assert!(executor.da_footprint_used == expected_da_footprint);
}

#[test]
fn test_jovian_da_footprint_estimation_out_of_gas() {
    const DA_FOOTPRINT_GAS_SCALAR: u16 = 7;
    const GAS_LIMIT: u64 = 100;
    let executor = OpBlockExecutor::new(block(GAS_LIMIT, JOVIAN_TIMESTAMP), ctx(), op_mainnet_with_jovian(JOVIAN_TIMESTAMP));
    let tx = legacy_tx(GAS_LIMIT, false);
    assert!(executor.da_footprint_used == 0);
    let expected_da_footprint = executor.jovian_da_footprint_estimation(&tx, DA_FOOTPRINT_GAS_SCALAR);
    let res = executor.admit_transaction(&tx, DA_FOOTPRINT_GAS_SCALAR);
    assert!(res.is_err());
    match res.unwrap_err() {
        BlockExecutionError::Validation(BlockValidationError::Other(err)) => {
            assert_eq!(
                err,
                OpBlockExecutionError::TransactionDaFootprintAboveGasLimit {
                    transaction_da_footprint: expected_da_footprint,
                    available_block_da_footprint: GAS_LIMIT,
                }
            );
        }
        _ => panic!("expected TransactionDaFootprintAboveGasLimit error"),
    }
    assert_eq!(executor.receipts.len(), 0);
    assert_eq!(executor.gas_used, 0);
    assert_eq!(executor.da_footprint_used, 0);
}

#[test]
fn test_jovian_da_footprint_estimation_maxed_out_da_footprint() {
    const DA_FOOTPRINT_GAS_SCALAR: u16 = 2000;
    const GAS_LIMIT: u64 = 200_000;
    let mut executor = OpBlockExecutor::new(block(GAS_LIMIT, JOVIAN_TIMESTAMP), ctx(), op_mainnet_with_jovian(JOVIAN_TIMESTAMP));
    let tx = legacy_tx(GAS_LIMIT, false);
    assert!(executor.da_footprint_used == 0);
    let expected_da_footprint = executor.jovian_da_footprint_estimation(&tx, DA_FOOTPRINT_GAS_SCALAR);
    executor.admit_transaction(&tx, DA_FOOTPRINT_GAS_SCALAR).expect("failed to execute transaction");
    let gas_used_tx = executor.commit_transaction(outcome(21_000), &tx, None, DA_FOOTPRINT_GAS_SCALAR);
    assert!(gas_used_tx < expected_da_footprint);
    let result = executor.finish(vec![]);
    assert_eq!(result.blob_gas_used, expected_da_footprint);
    assert_eq!(result.gas_used, gas_used_tx);
    assert!(result.blob_gas_used > result.gas_used);
}

#[test]
fn footprint_rounds_size_up_to_whole_units() {
    let executor = OpBlockExecutor::new(block(1_000_000, JOVIAN_TIMESTAMP), ctx(), op_mainnet_with_jovian(JOVIAN_TIMESTAMP));
    let tx = legacy_tx(21_000, true);
    let size = op_revm::estimate_tx_compressed_size(&tx.encoded_2718);
    let units = (size + 999_999) / 1_000_000;
    assert_eq!(executor.jovian_da_footprint_estimation(&tx, 3), units * 3);
    assert!(executor.jovian_da_footprint_estimation(&tx, 1) >= 100);
}

#[test]
fn footprint_prefers_original_wire_bytes() {
    let executor = OpBlockExecutor::new(block(1_000_000, JOVIAN_TIMESTAMP), ctx(), op_mainnet_with_jovian(JOVIAN_TIMESTAMP));
    let mut tx = legacy_tx(21_000, false);
    let long: Vec<u8> = (0..5000u32).map(|i| (i * 7919 % 251) as u8).collect();
    tx.env.enveloped_tx = Some(long.clone());
    let size = op_revm::estimate_tx_compressed_size(&long);
    assert_eq!(executor.jovian_da_footprint_estimation(&tx, 1), (size + 999_999) / 1_000_000);
}

#[test]
fn scalar_is_read_big_endian_at_its_offset() {
    assert_eq!(DA_FOOTPRINT_GAS_SCALAR_OFFSET, op_revm::constants::DA_FOOTPRINT_GAS_SCALAR_OFFSET);
    let mut word = [0u8; 32];
    word[DA_FOOTPRINT_GAS_SCALAR_OFFSET] = 0x07;
    word[DA_FOOTPRINT_GAS_SCALAR_OFFSET + 1] = 0xd0;
    assert_eq!(da_footprint_scalar(&word), 2000);
}

#[test]
fn gas_limit_above_available_is_a_block_error() {
    let mut executor = OpBlockExecutor::new(block(50_000, 10), ctx(), op_mainnet_with_jovian(u64::MAX));
    executor.commit_transaction(outcome(30_000), &legacy_tx(30_000, true), None, 0);
    let res = executor.admit_transaction(&legacy_tx(30_000, true), 0);
    assert_eq!(
        res,
        Err(BlockExecutionError::Validation(BlockValidationError::TransactionGasLimitMoreThanAvailableBlockGas {
            transaction_gas_limit: 30_000,
            block_available_gas: 20_000,
        }))
    );
}

#[test]
fn pre_regolith_system_deposit_bypasses_gas_check() {
    let mut rules = op_mainnet_with_jovian(u64::MAX);
    rules.regolith = ForkCondition::Timestamp(1_000);
    let executor = OpBlockExecutor::new(block(10_000, 500), ctx(), rules);
    assert!(!executor.is_regolith);
    assert_eq!(executor.admit_transaction(&deposit_tx(1_000_000, true), 0), Ok(()));
    let after = OpBlockExecutor::new(block(10_000, 2_000), ctx(), rules);
    assert!(after.admit_transaction(&deposit_tx(1_000_000, true), 0).is_err());
}

#[test]
fn gas_used_is_the_sum_of_reported_gas() {
    let mut executor = OpBlockExecutor::new(block(1_000_000, 10), ctx(), op_mainnet_with_jovian(u64::MAX));
    let mut total = 0;
    for (i, g) in [21_000u64, 50_000, 0, 73_123].into_iter().enumerate() {
        let tx = legacy_tx(100_000, true);
        assert!(executor.admit_transaction(&tx, 0).is_ok());
        let before = executor.gas_used;
        assert_eq!(executor.commit_transaction(outcome(g), &tx, None, 0), g);
        total += g;
        assert!(executor.gas_used >= before);
        assert_eq!(executor.gas_used, total);
        assert_eq!(executor.receipts[i].cumulative_gas_used, total);
        assert!(executor.gas_used <= executor.block.gas_limit);
    }
    let result = executor.finish(vec![]);
    assert_eq!(result.gas_used, total);
    assert_eq!(result.receipts.len(), 4);
}

#[test]
fn deposit_receipts_carry_nonce_and_version() {
    let mut executor = OpBlockExecutor::new(block(1_000_000, alloy_op_hardforks::OP_MAINNET_CANYON_TIMESTAMP), ctx(), op_mainnet_with_jovian(u64::MAX));
    assert!(executor.needs_depositor_nonce(&deposit_tx(50_000, false)));
    let logs = vec![Log { address: [1u8; 20], topics: vec![[2u8; 32]], data: vec![3] }];
    executor.commit_transaction(ExecutionOutcome { success: false, gas_used: 40_000, logs: logs.clone() }, &deposit_tx(50_000, false), Some(5), 0);
    executor.commit_transaction(outcome(21_000), &legacy_tx(21_000, true), Some(9), 0);
    let r0 = &executor.receipts[0];
    assert_eq!((r0.tx_type, r0.success, r0.cumulative_gas_used), (DEPOSIT_TRANSACTION_TYPE, false, 40_000));
    assert_eq!((r0.deposit_nonce, r0.deposit_receipt_version), (Some(5), Some(1)));
    assert_eq!(r0.logs, logs);
    let r1 = &executor.receipts[1];
    assert_eq!((r1.tx_type, r1.cumulative_gas_used, r1.deposit_nonce, r1.deposit_receipt_version), (0, 61_000, None, None));
}

#[test]
fn deposit_before_canyon_has_no_receipt_version() {
    let mut executor = OpBlockExecutor::new(block(1_000_000, 100), ctx(), op_mainnet_with_jovian(u64::MAX));
    executor.commit_transaction(outcome(1), &deposit_tx(50_000, false), Some(3), 0);
    assert_eq!(executor.receipts[0].deposit_receipt_version, None);
    assert_eq!(executor.receipts[0].deposit_nonce, Some(3));
}

#[test]
fn finish_without_transactions_applies_increments() {
    let executor = OpBlockExecutor::new(block(1_000_000, 10), ctx(), op_mainnet_with_jovian(u64::MAX));
    let increments = vec![([4u8; 20], 1_000_000_000u128)];
    let result = executor.finish(increments.clone());
    assert!(result.receipts.is_empty());
    assert_eq!(result.gas_used, 0);
    assert_eq!(result.blob_gas_used, 0);
    assert_eq!(result.balance_increments, increments);
}

#[test]
fn pre_execution_flags() {
    let rules = op_mainnet_with_jovian(u64::MAX);
    let canyon = alloy_op_hardforks::OP_MAINNET_CANYON_TIMESTAMP;
    let at = OpBlockExecutor::new(block(1, canyon + 1), OpBlockExecutionCtx { parent_hash: [6u8; 32], parent_beacon_block_root: Some([5u8; 32]), extra_data: vec![] }, rules);
    let changes = at.apply_pre_execution_changes();
    assert!(changes.deploy_create2_deployer);
    assert!(changes.state_clear_flag);
    assert_eq!(changes.parent_hash, [6u8; 32]);
    assert_eq!(changes.parent_beacon_block_root, Some([5u8; 32]));
    let later = OpBlockExecutor::new(block(1, canyon + 2), ctx(), rules);
    assert!(!later.apply_pre_execution_changes().deploy_create2_deployer);
}
