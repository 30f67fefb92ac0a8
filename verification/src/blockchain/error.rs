//! What can go wrong in the chain engine.
use crate::zk::StateManagerError;
use vstd::prelude::*;

verus! {

/// An error of the chain engine. Any error leaves the store as it was.
#[derive(Clone, Copy, Debug, PartialEq, Eq, Hash)]
pub enum BlockchainError {
    /// The store holds something that the engine cannot have written.
    Inconsistency,
    DifferentGenesis,
    ExtendFromGenesis,
    ExtendFromFuture,
    NoBlocksToRollback,
    BlockNotFound,
    InvalidBlockNumber,
    InvalidParentHash,
    DifficultyTargetWrong,
    DifficultyTargetUnmet,
    InvalidTimestamp,
    InvalidMerkleRoot,
    MinerRewardNotFound,
    InvalidMinerReward,
    BlockTooBig,
    StateDeltaTooBig,
    InsufficientMpnUpdates,
    SignatureError,
    IllegalTreasuryAccess,
    InvalidTransactionNonce,
    BalanceInsufficient,
    SelfPaymentNotAllowed,
    InvalidStateModel,
    ContractFunctionNotFound,
    ContractNotFound,
    CannotExecuteOwnPayments,
    ContractBalanceInsufficient,
    IncorrectZkProof,
    InvalidContractPaymentSignature,
    InvalidZeroTransaction,
    CompressedStateNotFound,
    StatesOutdated,
    StatesUnavailable,
    FullStateNotFound,
    FullStateNotValid,
    DeltasInvalid,
    /// The state manager refused an operation.
    StateManagerError(StateManagerError),
}

} // verus!
