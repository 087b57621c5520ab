//! Error taxonomy: per-transaction validation failures, which leave block
//! building free to go on, against infrastructure failures, which abort it.

use vstd::prelude::*;

verus! {

/// Why a transaction was found invalid.
#[derive(Debug, Clone, Copy, PartialEq, Eq, Structural)]
pub enum InvalidTransaction {
    NonceTooLow { tx: u64, state: u64 },
    NonceTooHigh { tx: u64, state: u64 },
    TxGasLimitGreaterThanCap { gas_limit: u64, cap: u64 },
    CallerGasLimitMoreThanBlock,
    CallGasCostMoreThanGasLimit { initial_gas: u64, gas_limit: u64 },
    GasFloorMoreThanGasLimit { gas_floor: u64, gas_limit: u64 },
    PriorityFeeGreaterThanMaxFee,
    GasPriceLessThanBasefee,
    LackOfFundForMaxFee,
    RejectCallerWithCode,
    InvalidChainId,
    TooManyBlobs { max: u64, have: u64 },
}

/// Why a rollup transaction was found invalid.
#[derive(Debug, Clone, Copy, PartialEq, Eq, Structural)]
pub enum OpTransactionError {
    /// A failure shared with the base chain.
    Base(InvalidTransaction),
    /// A system deposit after system deposits were retired.
    DepositSystemTxPostRegolith,
    /// A deposit that halted after deposits began to record failures.
    HaltedDepositPostRegolith,
    /// A transaction without the wire bytes its fee needs.
    MissingEnvelopedTx,
}

pub open spec fn spec_is_nonce_too_low(r: Option<InvalidTransaction>) -> bool {
    r matches Some(InvalidTransaction::NonceTooLow { .. })
}

pub open spec fn spec_is_gas_limit_too_high(r: Option<InvalidTransaction>) -> bool {
    r matches Some(InvalidTransaction::TxGasLimitGreaterThanCap { .. })
        || r matches Some(InvalidTransaction::CallerGasLimitMoreThanBlock)
}

pub open spec fn spec_is_gas_limit_too_low(r: Option<InvalidTransaction>) -> bool {
    r matches Some(InvalidTransaction::CallGasCostMoreThanGasLimit { .. })
        || r matches Some(InvalidTransaction::GasFloorMoreThanGasLimit { .. })
}

/// Classification of validation failures; the three predicates are views
/// of one underlying base-chain reason.
pub trait InvalidTxError: Sized {
    spec fn spec_reason(&self) -> Option<InvalidTransaction>;

    /// The base-chain reason, where there is one.
    fn as_invalid_tx_err(&self) -> (r: Option<InvalidTransaction>)
        ensures
            r == self.spec_reason(),
    ;

    /// Whether the reason is a nonce lower than the account's.
    fn is_nonce_too_low(&self) -> (r: bool)
        ensures
            r == spec_is_nonce_too_low(self.spec_reason()),
    {
        match self.as_invalid_tx_err() {
            Some(InvalidTransaction::NonceTooLow { .. }) => true,
            _ => false,
        }
    }

    /// Whether the reason is a gas limit above the protocol cap or the
    /// block's.
    fn is_gas_limit_too_high(&self) -> (r: bool)
        ensures
            r == spec_is_gas_limit_too_high(self.spec_reason()),
    {
        match self.as_invalid_tx_err() {
            Some(InvalidTransaction::TxGasLimitGreaterThanCap { .. }) => true,
            Some(InvalidTransaction::CallerGasLimitMoreThanBlock) => true,
            _ => false,
        }
    }

    /// Whether the reason is a gas limit below the intrinsic cost or floor.
    fn is_gas_limit_too_low(&self) -> (r: bool)
        ensures
            r == spec_is_gas_limit_too_low(self.spec_reason()),
    {
        match self.as_invalid_tx_err() {
            Some(InvalidTransaction::CallGasCostMoreThanGasLimit { .. }) => true,
            Some(InvalidTransaction::GasFloorMoreThanGasLimit { .. }) => true,
            _ => false,
        }
    }
}

impl InvalidTxError for InvalidTransaction {
    open spec fn spec_reason(&self) -> Option<InvalidTransaction> {
        Some(*self)
    }

    fn as_invalid_tx_err(&self) -> (r: Option<InvalidTransaction>) {
        Some(*self)
    }
}

impl InvalidTxError for OpTransactionError {
    open spec fn spec_reason(&self) -> Option<InvalidTransaction> {
        match *self {
            OpTransactionError::Base(t) => Some(t),
            _ => None,
        }
    }

    fn as_invalid_tx_err(&self) -> (r: Option<InvalidTransaction>) {
        match self {
            OpTransactionError::Base(t) => Some(*t),
            _ => None,
        }
    }
}

/// A backing-store failure, with its kind erased to a message.
#[derive(Debug, Clone, PartialEq, Eq)]
pub struct ErasedError {
    pub message: String,
}

impl ErasedError {
    pub fn new(message: String) -> (r: ErasedError)
        ensures
            r.message@ == message@,
    {
        ErasedError { message }
    }
}

/// Failures of the state facade.
#[derive(Debug, Clone, PartialEq, Eq)]
pub enum EvmInternalsError {
    /// The backing store failed.
    Database(ErasedError),
}

impl EvmInternalsError {
    /// A backing-store failure with the given message.
    pub fn database(message: String) -> (r: EvmInternalsError)
        ensures
            r matches EvmInternalsError::Database(e) && e.message@ == message@,
    {
        EvmInternalsError::Database(ErasedError::new(message))
    }
}

/// A failure of executing one transaction: invalid transaction, or an
/// infrastructure failure.
#[derive(Debug, Clone, PartialEq, Eq)]
pub enum EVMError<T> {
    /// The transaction is invalid; other transactions may still succeed.
    Transaction(T),
    /// The block header is unfit for execution.
    Header(String),
    /// The backing store failed.
    Database(ErasedError),
    /// Any other infrastructure failure.
    Custom(String),
}

impl<T: Copy> EVMError<T> {
    /// Whether the failure is the transaction's own.
    pub fn is_invalid_tx_err(&self) -> (r: bool)
        ensures
            r == (*self is Transaction),
    {
        match self {
            EVMError::Transaction(_) => true,
            _ => false,
        }
    }

    /// The transaction's validation failure, where that is what this is.
    pub fn as_invalid_tx_err(&self) -> (r: Option<T>)
        ensures
            r == match *self {
                EVMError::Transaction(t) => Some(t),
                _ => None::<T>,
            },
    {
        match self {
            EVMError::Transaction(t) => Some(*t),
            _ => None,
        }
    }

    /// The validation failure, or the failure itself where it is of the
    /// infrastructure.
    pub fn try_into_invalid_tx_err(self) -> (r: Result<T, EVMError<T>>)
        ensures
            match self {
                EVMError::Transaction(t) => r == Ok::<T, EVMError<T>>(t),
                _ => r == Err::<T, EVMError<T>>(self),
            },
    {
        match self {
            EVMError::Transaction(t) => Ok(t),
            other => Err(other),
        }
    }
}

} // verus!
