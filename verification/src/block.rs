//! Blocks and the transactions they carry, with the canonical hash-input
//! encoding and the digest computation that links the chain.

use vstd::prelude::*;
use vstd::string::StringExecFns;
use chrono::Utc;
use crate::encode::{dec_digits, int_digits, u64_to_dec, i64_to_dec};
use crate::hashing::{spec_sha256_hex, sha256_hex};

verus! {

/// One system-issued reward event, embedded immutably in its block.
#[derive(Debug, Clone)]
pub struct Transaction {
    /// Fixed sentinel for system-issued rewards.
    pub sender: String,
    /// The rewarded account.
    pub receiver: String,
    /// The reward amount.
    pub amount: u64,
    /// Free-text task label.
    pub task: String,
    /// Free-text proof-of-completion metadata.
    pub proof_metadata: String,
    /// Always true in this design: the ledger trusts the caller.
    pub verified: bool,
}

/// One block of the hash-linked ledger.
#[derive(Debug, Clone)]
pub struct Block {
    /// Position in the chain, starting at 0 for the genesis block.
    pub index: u64,
    /// Wall-clock creation time, whole seconds since the Unix epoch.
    pub timestamp: i64,
    /// The reward events this block records.
    pub transactions: Vec<Transaction>,
    /// The digest of the immediately preceding block; `"0"` for genesis.
    pub previous_hash: String,
    /// This block's own digest over its other fields.
    pub hash: String,
}

/// The textual form of `b` inside the hash input.
pub open spec fn spec_bool_text(b: bool) -> Seq<char> {
    if b {
        "true"@
    } else {
        "false"@
    }
}

/// Canonical text of one transaction: the fields in order, separated by
/// `'|'` and terminated by `';'`.
pub open spec fn tx_text(t: Transaction) -> Seq<char> {
    t.sender@ + seq!['|'] + t.receiver@ + seq!['|'] + dec_digits(t.amount as nat) + seq!['|']
        + t.task@ + seq!['|'] + t.proof_metadata@ + seq!['|'] + spec_bool_text(t.verified)
        + seq![';']
}

/// Canonical text of a transaction list: each transaction's text, in order.
pub open spec fn txs_text(txs: Seq<Transaction>) -> Seq<char>
    decreases txs.len(),
{
    if txs.len() == 0 {
        Seq::<char>::empty()
    } else {
        txs_text(txs.drop_last()) + tx_text(txs.last())
    }
}

/// The canonical hash input of a block: index, timestamp, transaction list
/// and previous digest, concatenated in that fixed field order.
pub open spec fn block_hash_input(
    index: u64,
    timestamp: i64,
    txs: Seq<Transaction>,
    previous_hash: Seq<char>,
) -> Seq<char> {
    dec_digits(index as nat) + int_digits(timestamp as int) + txs_text(txs) + previous_hash
}

/// The digest a block must carry: SHA-256 of its canonical hash input,
/// as 64 lowercase hexadecimal characters.
pub open spec fn spec_block_hash(
    index: u64,
    timestamp: i64,
    txs: Seq<Transaction>,
    previous_hash: Seq<char>,
) -> Seq<char> {
    spec_sha256_hex(block_hash_input(index, timestamp, txs, previous_hash))
}

fn bool_text(b: bool) -> (r: &'static str)
    ensures
        r@ == spec_bool_text(b),
{
    if b {
        "true"
    } else {
        "false"
    }
}

fn separator() -> (r: &'static str)
    ensures
        r@ == seq!['|'],
{
    proof {
        reveal_strlit("|");
    }
    "|"
}

/// Build the canonical text of one transaction.
fn transaction_text(t: &Transaction) -> (s: String)
    ensures
        s@ == tx_text(*t),
{
    let mut s = t.sender.clone();
    s.append(separator());
    s.append(t.receiver.as_str());
    s.append(separator());
    s.append(u64_to_dec(t.amount).as_str());
    s.append(separator());
    s.append(t.task.as_str());
    s.append(separator());
    s.append(t.proof_metadata.as_str());
    s.append(separator());
    s.append(bool_text(t.verified));
    s.append(";");
    proof {
        reveal_strlit(";");
    }
    s
}

/// Build the canonical text of a transaction list.
fn transactions_text(txs: &Vec<Transaction>) -> (s: String)
    ensures
        s@ == txs_text(txs@),
{
    let mut s = String::new();
    let mut i: usize = 0;
    while i < txs.len()
        invariant
            i <= txs@.len(),
            s@ == txs_text(txs@.subrange(0, i as int)),
        decreases txs@.len() - i,
    {
        let t = transaction_text(&txs[i]);
        s.append(t.as_str());
        proof {
            let prefix = txs@.subrange(0, i + 1);
            assert(prefix.drop_last() =~= txs@.subrange(0, i as int));
            assert(prefix.last() == txs@[i as int]);
            assert(txs_text(txs@.subrange(0, i as int)) + tx_text(txs@[i as int])
                =~= txs_text(prefix));
        }
        i = i + 1;
    }
    proof {
        assert(txs@.subrange(0, txs@.len() as int) =~= txs@);
    }
    s
}

/// Relies on `chrono::Utc::now` and `chrono::DateTime::timestamp`: the
/// current wall-clock time as whole seconds since the Unix epoch. Nothing is
/// assumed of the value, which depends on the clock.
#[verifier::external_body]
fn now_timestamp() -> i64 {
    Utc::now().timestamp()
}

impl Block {
    /// The digest of a block with the given fields: deterministic for
    /// identical inputs, always 64 lowercase hexadecimal characters.
    pub fn calculate_hash(
        index: u64,
        timestamp: i64,
        transactions: &Vec<Transaction>,
        previous_hash: &str,
    ) -> (h: String)
        ensures
            h@ == spec_block_hash(index, timestamp, transactions@, previous_hash@),
            h@.len() == 64,
    {
        let mut input = u64_to_dec(index);
        input.append(i64_to_dec(timestamp).as_str());
        input.append(transactions_text(transactions).as_str());
        input.append(previous_hash);
        sha256_hex(input.as_str())
    }

    /// A new block at `index` over the given transactions, stamped with the
    /// current wall-clock time and carrying its own digest.
    pub fn new(index: u64, transactions: Vec<Transaction>, previous_hash: String) -> (b: Block)
        ensures
            b.index == index,
            b.transactions == transactions,
            b.previous_hash == previous_hash,
            b.hash@ == spec_block_hash(index, b.timestamp, transactions@, previous_hash@),
            b.hash@.len() == 64,
    {
        let timestamp = now_timestamp();
        let hash = Block::calculate_hash(index, timestamp, &transactions, previous_hash.as_str());
        Block { index, timestamp, transactions, previous_hash, hash }
    }
}

} // verus!
