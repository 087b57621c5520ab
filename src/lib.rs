//! Block-execution core for an EVM chain and its rollup variant: protocol
//! version resolution, execution-environment construction, transaction
//! adaptation, error classification and the block executor state machine.

pub mod spec_id;
pub mod hardfork;
pub mod op_hardfork;
pub mod primitives;
pub mod blob;
pub mod env;
pub mod builder;
pub mod tx;
pub mod envelope;
pub mod error;
pub mod executor;
