use yuki_ledger::chain::Blockchain;
use yuki_ledger::errors::LedgerError;
use yuki_ledger::market::Marketplace;
use yuki_ledger::wallet::Wallet;

#[test]
fn new_ledger_has_genesis() {
    let bc = Blockchain::new();
    assert_eq!(bc.chain.len(), 1);
    assert_eq!(bc.chain[0].index, 0);
    assert_eq!(bc.chain[0].previous_hash, "0");
    assert!(bc.chain[0].transactions.is_empty());
    assert_eq!(bc.chain[0].hash.len(), 64);
    assert_eq!(bc.mining_reward, 10);
    assert_eq!(bc.stake_amount, 5);
    assert!(bc.marketplace.listings.is_empty());
    assert!(bc.wallets.account_ids().is_empty());
}

#[test]
fn wallet_new_has_starting_balances() {
    let w = Wallet::new();
    assert_eq!(w.balance_yuki, 10);
    assert_eq!(w.balance_yg, 0);
    assert_eq!(w.balance_yt, 0);
}

#[test]
fn marketplace_new_is_empty() {
    let m = Marketplace::new();
    assert_eq!(m.len(), 0);
    assert!(m.listings().is_empty());
}

#[test]
fn create_wallet_starting_balance() {
    let mut bc = Blockchain::new();
    bc.create_wallet("alice".to_string());
    let w = bc.wallets.get("alice").unwrap();
    assert_eq!(w.balance_yuki, 10);
    assert_eq!(w.balance_yg, 0);
    assert_eq!(w.balance_yt, 0);
}

#[test]
fn create_wallet_overwrites_existing() {
    let mut bc = Blockchain::new();
    bc.create_wallet("alice".to_string());
    bc.submit_task("alice", "t".to_string(), "m".to_string()).unwrap();
    assert_eq!(bc.wallets.get("alice").unwrap().balance_yuki, 15);
    bc.create_wallet("alice".to_string());
    assert_eq!(bc.wallets.get("alice").unwrap().balance_yuki, 10);
    assert_eq!(bc.wallets.account_ids().len(), 1);
}

#[test]
fn account_ids_keep_insertion_order() {
    let mut bc = Blockchain::new();
    bc.create_wallet("a".to_string());
    bc.create_wallet("b".to_string());
    bc.create_wallet("c".to_string());
    let ids = bc.wallets.account_ids();
    assert_eq!(ids.len(), 3);
    assert_eq!(ids[0], "a");
    assert_eq!(ids[1], "b");
    assert_eq!(ids[2], "c");
}

#[test]
fn submit_task_stake_and_reward() {
    let mut bc = Blockchain::new();
    bc.create_wallet("alice".to_string());
    let r = bc.submit_task("alice", "t1".to_string(), "m1".to_string());
    assert!(r.is_ok());
    // spendable: 10 - 5 + 10 = 15
    assert_eq!(bc.wallets.get("alice").unwrap().balance_yuki, 15);
    assert_eq!(bc.chain.len(), 2);
    let block = &bc.chain[1];
    assert_eq!(block.index, 1);
    assert_eq!(block.transactions.len(), 1);
    let tx = &block.transactions[0];
    assert_eq!(tx.sender, "System");
    assert_eq!(tx.receiver, "alice");
    assert_eq!(tx.amount, 10);
    assert_eq!(tx.task, "t1");
    assert_eq!(tx.proof_metadata, "m1");
    assert!(tx.verified);
}

#[test]
fn submit_task_unknown_wallet() {
    let mut bc = Blockchain::new();
    let r = bc.submit_task("ghost", "t".to_string(), "m".to_string());
    assert_eq!(r, Err(LedgerError::WalletNotFound));
    assert_eq!(bc.chain.len(), 1);
}

#[test]
fn submit_task_insufficient_stake() {
    let mut bc = Blockchain::new();
    bc.wallets.insert(
        "poor".to_string(),
        Wallet { balance_yuki: 4, balance_yg: 0, balance_yt: 0 },
    );
    let r = bc.submit_task("poor", "t".to_string(), "m".to_string());
    assert_eq!(r, Err(LedgerError::InsufficientStake));
    assert_eq!(bc.wallets.get("poor").unwrap().balance_yuki, 4);
    assert_eq!(bc.chain.len(), 1);
}

#[test]
fn submit_task_overflow() {
    let mut bc = Blockchain::new();
    bc.wallets.insert(
        "rich".to_string(),
        Wallet { balance_yuki: u64::MAX, balance_yg: 0, balance_yt: 0 },
    );
    let r = bc.submit_task("rich", "t".to_string(), "m".to_string());
    assert_eq!(r, Err(LedgerError::Overflow));
    assert_eq!(bc.wallets.get("rich").unwrap().balance_yuki, u64::MAX);
    assert_eq!(bc.chain.len(), 1);
}

#[test]
fn chain_linkage_holds() {
    let mut bc = Blockchain::new();
    bc.create_wallet("alice".to_string());
    bc.submit_task("alice", "t1".to_string(), "m1".to_string()).unwrap();
    bc.submit_task("alice", "t2".to_string(), "m2".to_string()).unwrap();
    bc.submit_task("alice", "t3".to_string(), "m3".to_string()).unwrap();
    assert_eq!(bc.chain.len(), 4);
    for i in 1..bc.chain.len() {
        assert_eq!(bc.chain[i].previous_hash, bc.chain[i - 1].hash);
    }
    for block in &bc.chain {
        let recomputed = yuki_ledger::block::Block::calculate_hash(
            block.index,
            block.timestamp,
            &block.transactions,
            &block.previous_hash,
        );
        assert_eq!(block.hash, recomputed);
    }
}

#[test]
fn monotonic_indices_hold() {
    let mut bc = Blockchain::new();
    bc.create_wallet("alice".to_string());
    bc.submit_task("alice", "t1".to_string(), "m1".to_string()).unwrap();
    bc.submit_task("alice", "t2".to_string(), "m2".to_string()).unwrap();
    for (i, block) in bc.chain.iter().enumerate() {
        assert_eq!(block.index, i as u64);
    }
}

#[test]
fn list_tokens_escrows_and_appends() {
    let mut bc = Blockchain::new();
    bc.wallets.insert(
        "alice".to_string(),
        Wallet { balance_yuki: 10, balance_yg: 0, balance_yt: 20 },
    );
    let r = bc.list_tokens("alice", 3, 5);
    assert!(r.is_ok());
    assert_eq!(bc.wallets.get("alice").unwrap().balance_yt, 15);
    assert_eq!(bc.marketplace.listings.len(), 1);
    let listing = &bc.marketplace.listings[0];
    assert_eq!(listing.seller, "alice");
    assert_eq!(listing.price_per_token, 3);
    assert_eq!(listing.tokens_available, 5);
}

#[test]
fn list_tokens_insufficient() {
    let mut bc = Blockchain::new();
    bc.create_wallet("alice".to_string());
    let r = bc.list_tokens("alice", 3, 5);
    assert_eq!(r, Err(LedgerError::InsufficientTokens));
    assert!(bc.marketplace.listings.is_empty());
}

#[test]
fn list_tokens_unknown_wallet() {
    let mut bc = Blockchain::new();
    let r = bc.list_tokens("ghost", 3, 5);
    assert_eq!(r, Err(LedgerError::WalletNotFound));
}

fn two_party_market() -> Blockchain {
    let mut bc = Blockchain::new();
    bc.wallets.insert(
        "alice".to_string(),
        Wallet { balance_yuki: 10, balance_yg: 0, balance_yt: 20 },
    );
    bc.wallets.insert(
        "bob".to_string(),
        Wallet { balance_yuki: 20, balance_yg: 0, balance_yt: 0 },
    );
    bc.list_tokens("alice", 3, 5).unwrap();
    bc
}

#[test]
fn buy_full_quantity_removes_listing() {
    let mut bc = two_party_market();
    let alice_yuki_before = bc.wallets.get("alice").unwrap().balance_yuki;
    let r = bc.buy_tokens("bob", 1, 5);
    assert!(r.is_ok());
    // bob pays 3 * 5 = 15
    assert_eq!(bc.wallets.get("bob").unwrap().balance_yuki, 5);
    assert_eq!(bc.wallets.get("bob").unwrap().balance_yt, 5);
    assert_eq!(
        bc.wallets.get("alice").unwrap().balance_yuki,
        alice_yuki_before + 15
    );
    assert!(bc.marketplace.listings.is_empty());
}

#[test]
fn buy_partial_quantity_reduces_listing() {
    let mut bc = two_party_market();
    let r = bc.buy_tokens("bob", 1, 2);
    assert!(r.is_ok());
    assert_eq!(bc.marketplace.listings.len(), 1);
    assert_eq!(bc.marketplace.listings[0].tokens_available, 3);
    assert_eq!(bc.wallets.get("bob").unwrap().balance_yuki, 14);
    assert_eq!(bc.wallets.get("bob").unwrap().balance_yt, 2);
    assert_eq!(bc.wallets.get("alice").unwrap().balance_yuki, 16);
}

#[test]
fn buy_conserves_balances() {
    let mut bc = two_party_market();
    let before_spendable = bc.wallets.get("bob").unwrap().balance_yuki
        + bc.wallets.get("alice").unwrap().balance_yuki;
    let before_tradable =
        bc.wallets.get("bob").unwrap().balance_yt + bc.marketplace.listings[0].tokens_available;
    bc.buy_tokens("bob", 1, 2).unwrap();
    let after_spendable = bc.wallets.get("bob").unwrap().balance_yuki
        + bc.wallets.get("alice").unwrap().balance_yuki;
    let after_tradable =
        bc.wallets.get("bob").unwrap().balance_yt + bc.marketplace.listings[0].tokens_available;
    assert_eq!(before_spendable, after_spendable);
    assert_eq!(before_tradable, after_tradable);
}

#[test]
fn buy_invalid_listing_number() {
    let mut bc = two_party_market();
    assert_eq!(bc.buy_tokens("bob", 0, 1), Err(LedgerError::InvalidListing));
    assert_eq!(bc.buy_tokens("bob", 2, 1), Err(LedgerError::InvalidListing));
}

#[test]
fn buy_more_than_available() {
    let mut bc = two_party_market();
    let r = bc.buy_tokens("bob", 1, 6);
    assert_eq!(r, Err(LedgerError::InsufficientListingQuantity));
    assert_eq!(bc.marketplace.listings[0].tokens_available, 5);
}

#[test]
fn buy_insufficient_funds() {
    let mut bc = two_party_market();
    bc.wallets.insert(
        "bob".to_string(),
        Wallet { balance_yuki: 14, balance_yg: 0, balance_yt: 0 },
    );
    let r = bc.buy_tokens("bob", 1, 5);
    assert_eq!(r, Err(LedgerError::InsufficientFunds));
    assert_eq!(bc.wallets.get("bob").unwrap().balance_yuki, 14);
    assert_eq!(bc.marketplace.listings[0].tokens_available, 5);
}

#[test]
fn buy_price_overflow() {
    let mut bc = Blockchain::new();
    bc.wallets.insert(
        "alice".to_string(),
        Wallet { balance_yuki: 0, balance_yg: 0, balance_yt: 20 },
    );
    bc.wallets.insert(
        "bob".to_string(),
        Wallet { balance_yuki: u64::MAX, balance_yg: 0, balance_yt: 0 },
    );
    bc.list_tokens("alice", u64::MAX, 5).unwrap();
    let r = bc.buy_tokens("bob", 1, 2);
    assert_eq!(r, Err(LedgerError::Overflow));
}

#[test]
fn buy_unknown_buyer() {
    let mut bc = two_party_market();
    assert_eq!(bc.buy_tokens("ghost", 1, 1), Err(LedgerError::WalletNotFound));
}

#[test]
fn buy_own_listing_keeps_spendable() {
    let mut bc = Blockchain::new();
    bc.wallets.insert(
        "alice".to_string(),
        Wallet { balance_yuki: 30, balance_yg: 0, balance_yt: 20 },
    );
    bc.list_tokens("alice", 3, 5).unwrap();
    let r = bc.buy_tokens("alice", 1, 5);
    assert!(r.is_ok());
    let w = bc.wallets.get("alice").unwrap();
    assert_eq!(w.balance_yuki, 30);
    assert_eq!(w.balance_yt, 20);
    assert!(bc.marketplace.listings.is_empty());
}

#[test]
fn zero_price_and_quantity_listing_accepted() {
    let mut bc = Blockchain::new();
    bc.create_wallet("alice".to_string());
    bc.create_wallet("bob".to_string());
    bc.list_tokens("alice", 0, 0).unwrap();
    assert_eq!(bc.marketplace.listings.len(), 1);
    // buying the full (zero) remaining quantity exhausts the listing
    bc.buy_tokens("bob", 1, 0).unwrap();
    assert!(bc.marketplace.listings.is_empty());
    assert_eq!(bc.wallets.get("bob").unwrap().balance_yuki, 10);
}

#[test]
fn buy_resolves_one_based_position() {
    let mut bc = Blockchain::new();
    bc.wallets.insert(
        "alice".to_string(),
        Wallet { balance_yuki: 10, balance_yg: 0, balance_yt: 20 },
    );
    bc.wallets.insert(
        "bob".to_string(),
        Wallet { balance_yuki: 20, balance_yg: 0, balance_yt: 0 },
    );
    bc.list_tokens("alice", 3, 5).unwrap();
    bc.list_tokens("alice", 7, 2).unwrap();
    bc.buy_tokens("bob", 2, 2).unwrap();
    // the second listing (price 7) was exhausted and removed; the first stays
    assert_eq!(bc.marketplace.listings.len(), 1);
    assert_eq!(bc.marketplace.listings[0].price_per_token, 3);
    assert_eq!(bc.wallets.get("bob").unwrap().balance_yuki, 6);
    assert_eq!(bc.wallets.get("bob").unwrap().balance_yt, 2);
}

#[test]
fn wallet_store_credit_and_debit() {
    let mut bc = Blockchain::new();
    bc.create_wallet("alice".to_string());
    bc.wallets.credit_governance("alice", 7).unwrap();
    assert_eq!(bc.wallets.get("alice").unwrap().balance_yg, 7);
    bc.wallets.credit_tradable("alice", 3).unwrap();
    assert_eq!(bc.wallets.get("alice").unwrap().balance_yt, 3);
    bc.wallets.debit_tradable("alice", 2).unwrap();
    assert_eq!(bc.wallets.get("alice").unwrap().balance_yt, 1);
    assert_eq!(
        bc.wallets.debit_spendable("alice", 11),
        Err(LedgerError::InsufficientFunds)
    );
    bc.wallets.debit_spendable("alice", 10).unwrap();
    assert_eq!(bc.wallets.get("alice").unwrap().balance_yuki, 0);
    assert_eq!(
        bc.wallets.credit_spendable("ghost", 1),
        Err(LedgerError::WalletNotFound)
    );
    bc.wallets.credit_spendable("alice", u64::MAX).unwrap();
    assert_eq!(
        bc.wallets.credit_spendable("alice", 1),
        Err(LedgerError::Overflow)
    );
}
