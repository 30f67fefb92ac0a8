//! The line that a node logs about its state.
use crate::blockchain::model::{account_of, height_of, outdated_of, Config, Outcome};
use crate::blockchain::{BlockchainError, KvStoreChain, Primitives};
use crate::db::{KvStore, StoreView};
use crate::wallet::Wallet;
use vstd::prelude::*;

verus! {

/// What a node logs about its state: labelled numbers, in the order in which
/// they are shown. The balance of the wallet is shown if there is a wallet.
pub open spec fn log_info_of(
    cfg: Config,
    s: StoreView,
    wallet: Option<Wallet>,
    timestamp: u32,
    active_nodes: usize,
    tx_pool: usize,
    tx_zk_pool: usize,
    zk_pool: usize,
) -> Outcome<Seq<(&'static str, u64)>> {
    match height_of(s) {
        Err(e) => Err(e),
        Ok(height) => match outdated_of(s) {
            Err(e) => Err(e),
            Ok(outdated) => {
                let always = seq![
                    ("Height", height),
                    ("Outdated states", outdated.len() as u64),
                    ("Timestamp", timestamp as u64),
                    ("Active nodes", active_nodes as u64),
                    ("Tx Pool", tx_pool as u64),
                    ("Tx/Zk Pool", tx_zk_pool as u64),
                    ("Zk Pool", zk_pool as u64),
                ];
                match wallet {
                    None => Ok(always),
                    Some(wallet) => match account_of(cfg, s, wallet.address) {
                        Err(e) => Err(e),
                        Ok(account) => Ok(always.push(("Balance", account.balance))),
                    },
                }
            },
        },
    }
}

/// Gathers what a node logs about its state.
pub fn log_info<K: KvStore, P: Primitives>(
    blockchain: &KvStoreChain<K, P>,
    wallet: Option<Wallet>,
    timestamp: u32,
    active_nodes: usize,
    tx_pool: usize,
    tx_zk_pool: usize,
    zk_pool: usize,
) -> (r: Result<Vec<(&'static str, u64)>, BlockchainError>)
    ensures
        match r {
            Ok(inf) => log_info_of(
                blockchain.cfg(),
                blockchain.store(),
                wallet,
                timestamp,
                active_nodes,
                tx_pool,
                tx_zk_pool,
                zk_pool,
            ) == Ok::<_, BlockchainError>(inf@),
            Err(e) => log_info_of(
                blockchain.cfg(),
                blockchain.store(),
                wallet,
                timestamp,
                active_nodes,
                tx_pool,
                tx_zk_pool,
                zk_pool,
            ) == Err::<Seq<(&'static str, u64)>, _>(e),
        },
{
    let mut inf: Vec<(&'static str, u64)> = Vec::new();
    inf.push(("Height", blockchain.get_height()?));
    inf.push(("Outdated states", blockchain.get_outdated_contracts()?.len() as u64));
    inf.push(("Timestamp", timestamp as u64));
    inf.push(("Active nodes", active_nodes as u64));
    inf.push(("Tx Pool", tx_pool as u64));
    inf.push(("Tx/Zk Pool", tx_zk_pool as u64));
    inf.push(("Zk Pool", zk_pool as u64));
    if let Some(wallet) = wallet {
        let acc = blockchain.get_account(wallet.get_address())?;
        inf.push(("Balance", acc.balance));
    }
    proof {
        assert(inf@.subrange(0, 7) =~= seq![
            ("Height", inf@[0].1),
            ("Outdated states", inf@[1].1),
            ("Timestamp", timestamp as u64),
            ("Active nodes", active_nodes as u64),
            ("Tx Pool", tx_pool as u64),
            ("Tx/Zk Pool", tx_zk_pool as u64),
            ("Zk Pool", zk_pool as u64),
        ]);
        if wallet is None {
            assert(inf@ =~= inf@.subrange(0, 7));
        } else {
            assert(inf@ =~= inf@.subrange(0, 7).push(inf@[7]));
        }
    }
    Ok(inf)
}

} // verus!
