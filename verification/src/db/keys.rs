//! The key under which each piece of the chain state is stored.
use crate::db::Key;
use crate::types::{Address, ContractId};
use vstd::prelude::*;

verus! {

/// The account of an address.
pub fn account(address: &Address) -> (key: Key)
    ensures
        key == Key::Account(*address),
{
    Key::Account(*address)
}

/// The description of a contract.
pub fn contract(contract_id: &ContractId) -> (key: Key)
    ensures
        key == Key::Contract(*contract_id),
{
    Key::Contract(*contract_id)
}

/// The on-chain account of a contract.
pub fn contract_account(contract_id: &ContractId) -> (key: Key)
    ensures
        key == Key::ContractAccount(*contract_id),
{
    Key::ContractAccount(*contract_id)
}

/// The state summary that a contract had at a height.
pub fn compressed_state_at(contract_id: &ContractId, index: u64) -> (key: Key)
    ensures
        key == Key::CompressedStateAt(*contract_id, index),
{
    Key::CompressedStateAt(*contract_id, index)
}

/// The number of blocks in the chain.
pub fn height() -> (key: Key)
    ensures
        key == Key::Height,
{
    Key::Height
}

/// The header of a block.
pub fn header(index: u64) -> (key: Key)
    ensures
        key == Key::Header(index),
{
    Key::Header(index)
}

/// A block.
pub fn block(index: u64) -> (key: Key)
    ensures
        key == Key::Block(index),
{
    Key::Block(index)
}

/// The hash tree of a block.
pub fn merkle(index: u64) -> (key: Key)
    ensures
        key == Key::Merkle(index),
{
    Key::Merkle(index)
}

/// The cumulative power of the chain up to a block.
pub fn power(index: u64) -> (key: Key)
    ensures
        key == Key::Power(index),
{
    Key::Power(index)
}

/// The writes that undo a block.
pub fn rollback(index: u64) -> (key: Key)
    ensures
        key == Key::Rollback(index),
{
    Key::Rollback(index)
}

/// The contracts whose state tree lags behind the chain.
pub fn outdated() -> (key: Key)
    ensures
        key == Key::Outdated,
{
    Key::Outdated
}

/// The contract state changes of the last block.
pub fn contract_updates() -> (key: Key)
    ensures
        key == Key::ContractUpdates,
{
    Key::ContractUpdates
}

} // verus!
