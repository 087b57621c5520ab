use block_exec::envelope::{OpTxEnvelope, TxDeposit, TxEip1559, TxEip4844, TxEip7702, TxLegacy};
use block_exec::executor::{OpAlloyReceiptBuilder, OpBlockExecutionCtx, OpBlockExecutorFactory};
use block_exec::env::BlockEnv;
use block_exec::hardfork::{EthereumHardforks, ForkCondition};
use block_exec::op_hardfork::OpHardforks;
use block_exec::primitives::U256;
use block_exec::tx::{AccessListItem, Authorization, OpTransaction, TxEnv, TxKind, DEPOSIT_TRANSACTION_TYPE};

fn never_rules() -> OpHardforks {
    let n = ForkCondition::Never;
    OpHardforks {
        regolith: n,
        canyon: n,
        ecotone: n,
        fjord: n,
        granite: n,
        holocene: n,
        isthmus: n,
        jovian: n,
        interop: n,
        base: EthereumHardforks {
            homestead: n,
            tangerine: n,
            spurious_dragon: n,
            byzantium: n,
            petersburg: n,
            istanbul: n,
            berlin: n,
            london: n,
            paris: n,
            shanghai: n,
            cancun: n,
            prague: n,
            osaka: n,
        },
    }
}

#[test]
fn legacy_shape_keeps_its_price() {
    let tx = OpTxEnvelope::Legacy(TxLegacy {
        chain_id: Some(10),
        nonce: 4,
        gas_price: 99,
        gas_limit: 21_000,
        to: TxKind::Call([1u8; 20]),
        value: U256::from_u64(5),
        input: vec![0xab],
    });
    let env = TxEnv::from_recovered_tx(tx, [2u8; 20]);
    assert_eq!((env.tx_type, env.gas_price, env.gas_priority_fee, env.chain_id, env.nonce), (0, 99, None, Some(10), 4));
    assert_eq!(env.caller, [2u8; 20]);
    assert_eq!(env.data, vec![0xab]);
}

#[test]
fn fee_market_shape_puts_cap_and_tip() {
    let list = vec![AccessListItem { address: [3u8; 20], storage_keys: vec![[4u8; 32]] }];
    let tx = OpTxEnvelope::Eip1559(TxEip1559 {
        chain_id: 10,
        nonce: 1,
        gas_limit: 50_000,
        max_fee_per_gas: 30,
        max_priority_fee_per_gas: 2,
        to: TxKind::Create,
        value: U256::zero(),
        access_list: list.clone(),
        input: vec![],
    });
    let env = TxEnv::from_recovered_tx(tx, [2u8; 20]);
    assert_eq!((env.tx_type, env.gas_price, env.gas_priority_fee, env.kind), (2, 30, Some(2), TxKind::Create));
    assert_eq!(env.access_list, list);
}

#[test]
fn authorization_shape_always_calls() {
    let auth = Authorization { chain_id: U256::from_u64(10), address: [5u8; 20], nonce: 0, y_parity: 1, r: U256::from_u64(1), s: U256::from_u64(2) };
    let tx = OpTxEnvelope::Eip7702(TxEip7702 {
        chain_id: 10,
        nonce: 0,
        gas_limit: 60_000,
        max_fee_per_gas: 5,
        max_priority_fee_per_gas: 5,
        to: [6u8; 20],
        value: U256::zero(),
        access_list: vec![],
        authorization_list: vec![auth],
        input: vec![],
    });
    let env = TxEnv::from_recovered_tx(tx, [2u8; 20]);
    assert_eq!(env.tx_type, 4);
    assert_eq!(env.kind, TxKind::Call([6u8; 20]));
    assert_eq!(env.authorization_list, vec![auth]);
}

#[test]
fn blob_shape_carries_blob_fields() {
    let tx = TxEip4844 {
        chain_id: 1,
        nonce: 0,
        gas_limit: 60_000,
        max_fee_per_gas: 5,
        max_priority_fee_per_gas: 1,
        to: [6u8; 20],
        value: U256::zero(),
        access_list: vec![],
        blob_versioned_hashes: vec![[1u8; 32]],
        max_fee_per_blob_gas: 7,
        input: vec![],
    };
    let env = TxEnv::from_recovered_blob_tx(tx, [2u8; 20]);
    assert_eq!((env.tx_type, env.max_fee_per_blob_gas), (3, 7));
    assert_eq!(env.blob_hashes, vec![[1u8; 32]]);
}

#[test]
fn deposit_shape_carries_its_parts_and_bytes() {
    let tx = OpTxEnvelope::Deposit(TxDeposit {
        source_hash: [8u8; 32],
        from: [7u8; 20],
        to: TxKind::Call([1u8; 20]),
        mint: 1000,
        value: U256::from_u64(3),
        gas_limit: 1_000_000,
        is_system_transaction: true,
        input: vec![1, 2],
    });
    let op = OpTransaction::from_encoded_tx(tx, [7u8; 20], vec![DEPOSIT_TRANSACTION_TYPE, 9]);
    assert_eq!((op.base.tx_type, op.base.gas_price, op.base.nonce, op.base.chain_id), (DEPOSIT_TRANSACTION_TYPE, 0, 0, None));
    assert_eq!(op.deposit.source_hash, [8u8; 32]);
    assert_eq!(op.deposit.mint, Some(1000));
    assert!(op.deposit.is_system_transaction);
    assert_eq!(op.enveloped_tx, Some(vec![DEPOSIT_TRANSACTION_TYPE, 9]));
    assert_eq!(op.encoded_bytes(), Some(&vec![DEPOSIT_TRANSACTION_TYPE, 9]));
}

#[test]
fn factory_makes_fresh_executors() {
    let factory = OpBlockExecutorFactory::new(OpAlloyReceiptBuilder, never_rules());
    assert_eq!(*factory.spec(), never_rules());
    let ctx = OpBlockExecutionCtx { parent_hash: [1u8; 32], parent_beacon_block_root: None, extra_data: vec![] };
    let executor = factory.create_executor(BlockEnv::default_block(), ctx.clone());
    assert_eq!(executor.ctx, ctx);
    assert_eq!(executor.gas_used, 0);
    assert!(executor.receipts.is_empty());
    assert!(!executor.is_regolith);
}
