//! The ledger: a hash-linked, append-only chain of blocks, the wallet store
//! it rewards into, and the marketplace it hosts.

use vstd::prelude::*;
use vstd::string::StringExecFns;
use crate::block::{Block, Transaction, spec_block_hash};
use crate::errors::LedgerError;
use crate::market::{Listing, Marketplace};
use crate::wallet::{Wallet, WalletStore, STARTING_BALANCE};

verus! {

/// Fixed reward credited for a successful task submission.
pub const MINING_REWARD: u64 = 10;

/// Fixed stake debited (and burned) on a successful task submission.
pub const STAKE_AMOUNT: u64 = 5;

/// Chain integrity: exactly one genesis block at index 0 whose previous
/// digest is `"0"`, indices 0, 1, ..., n-1 in order, every later block naming
/// the previous block's digest, and every block carrying the digest of its
/// own fields.
pub open spec fn chain_wf(chain: Seq<Block>) -> bool {
    &&& chain.len() >= 1
    &&& (forall|i: int| 0 <= i < chain.len() ==> (#[trigger] chain[i]).index == i)
    &&& chain[0].previous_hash@ == seq!['0']
    &&& (forall|i: int|
        1 <= i < chain.len() ==> (#[trigger] chain[i]).previous_hash@ == chain[i - 1].hash@)
    &&& (forall|i: int|
        0 <= i < chain.len() ==> (#[trigger] chain[i]).hash@ == spec_block_hash(
            chain[i].index,
            chain[i].timestamp,
            chain[i].transactions@,
            chain[i].previous_hash@,
        ))
}

/// The combined spendable balance of two parties; counted once when the two
/// are the same account.
pub open spec fn pair_spendable(m: Map<Seq<char>, Wallet>, a: Seq<char>, b: Seq<char>) -> int {
    if a == b {
        m[a].balance_yuki as int
    } else {
        m[a].balance_yuki + m[b].balance_yuki
    }
}

/// The whole single-writer ledger state.
pub struct Blockchain {
    /// The hash-linked chain, genesis first.
    pub chain: Vec<Block>,
    /// Account balances.
    pub wallets: WalletStore,
    /// Fixed reward per successful task submission.
    pub mining_reward: u64,
    /// Fixed stake per task submission.
    pub stake_amount: u64,
    /// Active sell listings.
    pub marketplace: Marketplace,
}

/// What a successful task submission appends: one block, carrying exactly
/// one system-issued reward transaction for `account`, linked to the prior
/// chain tip and hashed over its own fields.
pub open spec fn reward_block_appended(
    pre: Blockchain,
    post: Blockchain,
    account: Seq<char>,
    task: Seq<char>,
    proof_metadata: Seq<char>,
) -> bool {
    let b = post.chain@.last();
    &&& post.chain@.len() == pre.chain@.len() + 1
    &&& post.chain@.subrange(0, pre.chain@.len() as int) == pre.chain@
    &&& b.index == pre.chain@.len()
    &&& b.previous_hash@ == pre.chain@.last().hash@
    &&& b.transactions@.len() == 1
    &&& b.transactions@[0].sender@ == "System"@
    &&& b.transactions@[0].receiver@ == account
    &&& b.transactions@[0].amount == pre.mining_reward
    &&& b.transactions@[0].task@ == task
    &&& b.transactions@[0].proof_metadata@ == proof_metadata
    &&& b.transactions@[0].verified
    &&& b.hash@ == spec_block_hash(b.index, b.timestamp, b.transactions@, b.previous_hash@)
}

impl Blockchain {
    /// Well-formedness: sound wallet store, intact chain, and every active
    /// listing's seller known to the wallet store.
    pub open spec fn wf(self) -> bool {
        &&& self.wallets.wf()
        &&& chain_wf(self.chain@)
        &&& (forall|j: int|
            0 <= j < self.marketplace.listings@.len() ==> self.wallets.map@.contains_key(
                (#[trigger] self.marketplace.listings@[j]).seller@,
            ))
    }

    /// The listing position `listing_number` (1-based) names a listing.
    pub open spec fn listing_in_range(self, listing_number: usize) -> bool {
        1 <= listing_number <= self.marketplace.listings@.len()
    }

    /// The listing at the 1-based position `listing_number`.
    pub open spec fn listing_at(self, listing_number: usize) -> Listing {
        self.marketplace.listings@[listing_number - 1]
    }

    /// Total price of `amount` tokens of that listing, as an unbounded
    /// integer.
    pub open spec fn purchase_total(self, listing_number: usize, amount: u64) -> int {
        self.listing_at(listing_number).price_per_token * amount
    }

    /// The two credits of a purchase stay within the counters' range.
    pub open spec fn purchase_credits_fit(
        self,
        buyer: Seq<char>,
        listing_number: usize,
        amount: u64,
    ) -> bool {
        let l = self.listing_at(listing_number);
        let m = self.wallets.map@;
        &&& m[buyer].balance_yt + amount <= u64::MAX
        &&& (l.seller@ != buyer ==> m[l.seller@].balance_yuki + self.purchase_total(
            listing_number,
            amount,
        ) <= u64::MAX)
    }

    /// Every check a purchase must pass before any state changes.
    pub open spec fn purchase_ok(self, buyer: Seq<char>, listing_number: usize, amount: u64) -> bool {
        &&& self.wallets.map@.contains_key(buyer)
        &&& self.listing_in_range(listing_number)
        &&& amount <= self.listing_at(listing_number).tokens_available
        &&& self.purchase_total(listing_number, amount) <= u64::MAX
        &&& self.wallets.map@[buyer].balance_yuki >= self.purchase_total(listing_number, amount)
        &&& self.purchase_credits_fit(buyer, listing_number, amount)
    }

    /// A fresh ledger: one genesis block (index 0, no transactions, previous
    /// digest `"0"`), an empty wallet store, an empty marketplace, and the
    /// fixed stake and reward amounts.
    pub fn new() -> (bc: Blockchain)
        ensures
            bc.wf(),
            bc.chain@.len() == 1,
            bc.chain@[0].index == 0,
            bc.chain@[0].transactions@.len() == 0,
            bc.wallets.map@ == Map::<Seq<char>, Wallet>::empty(),
            bc.wallets.ids@.len() == 0,
            bc.marketplace.listings@.len() == 0,
            bc.mining_reward == MINING_REWARD,
            bc.stake_amount == STAKE_AMOUNT,
    {
        let genesis = Block::new(0, Vec::new(), "0".to_owned());
        proof {
            reveal_strlit("0");
        }
        let mut chain: Vec<Block> = Vec::new();
        chain.push(genesis);
        let bc = Blockchain {
            chain,
            wallets: WalletStore::new(),
            mining_reward: MINING_REWARD,
            stake_amount: STAKE_AMOUNT,
            marketplace: Marketplace::new(),
        };
        proof {
            assert(bc.chain@.len() == 1);
            assert(bc.chain@[0] == genesis);
            assert(genesis.previous_hash@ =~= seq!['0']);
            assert(chain_wf(bc.chain@));
        }
        bc
    }

    /// Create `account` with the fixed starting spendable balance and zero
    /// token balances, silently overwriting any prior record.
    pub fn create_wallet(&mut self, account: String)
        requires
            old(self).wf(),
        ensures
            final(self).wf(),
            final(self).wallets.map@ == old(self).wallets.map@.insert(
                account@,
                (Wallet { balance_yuki: STARTING_BALANCE, balance_yg: 0, balance_yt: 0 }),
            ),
            final(self).chain@ == old(self).chain@,
            final(self).marketplace.listings@ == old(self).marketplace.listings@,
            final(self).mining_reward == old(self).mining_reward,
            final(self).stake_amount == old(self).stake_amount,
    {
        self.wallets.create(account);
    }

    /// Submit a completed task for `account`: burn the fixed stake, credit
    /// the fixed mining reward, and append one block recording the reward.
    /// Fails, leaving all state unchanged, when the account does not exist,
    /// its spendable balance is below the stake, or the net credit would
    /// exceed the balance counter's range.
    pub fn submit_task(&mut self, account: &str, task: String, proof_metadata: String) -> (r:
        Result<(), LedgerError>)
        requires
            old(self).wf(),
        ensures
            final(self).wf(),
            final(self).mining_reward == old(self).mining_reward,
            final(self).stake_amount == old(self).stake_amount,
            final(self).marketplace.listings@ == old(self).marketplace.listings@,
            final(self).wallets.ids@ == old(self).wallets.ids@,
            (r is Ok <==> old(self).wallets.map@.contains_key(account@) && old(
                self,
            ).wallets.map@[account@].balance_yuki >= old(self).stake_amount && old(
                self,
            ).wallets.map@[account@].balance_yuki - old(self).stake_amount + old(
                self,
            ).mining_reward <= u64::MAX),
            (r == Err::<(), LedgerError>(LedgerError::WalletNotFound) <==> !old(
                self,
            ).wallets.map@.contains_key(account@)),
            (r == Err::<(), LedgerError>(LedgerError::InsufficientStake) <==> old(
                self,
            ).wallets.map@.contains_key(account@) && old(self).wallets.map@[account@].balance_yuki
                < old(self).stake_amount),
            (r == Err::<(), LedgerError>(LedgerError::Overflow) <==> old(
                self,
            ).wallets.map@.contains_key(account@) && old(self).wallets.map@[account@].balance_yuki
                >= old(self).stake_amount && old(self).wallets.map@[account@].balance_yuki - old(
                self,
            ).stake_amount + old(self).mining_reward > u64::MAX),
            r is Err ==> *final(self) == *old(self),
            r is Ok ==> final(self).wallets.map@ == old(self).wallets.map@.insert(
                account@,
                (Wallet {
                    balance_yuki: (old(self).wallets.map@[account@].balance_yuki - old(
                        self,
                    ).stake_amount + old(self).mining_reward) as u64,
                    balance_yg: old(self).wallets.map@[account@].balance_yg,
                    balance_yt: old(self).wallets.map@[account@].balance_yt,
                }),
            ),
            r is Ok ==> final(self).wallets.map@[account@].balance_yuki == old(
                self,
            ).wallets.map@[account@].balance_yuki - old(self).stake_amount + old(
                self,
            ).mining_reward,
            r is Ok ==> reward_block_appended(
                *old(self),
                *final(self),
                account@,
                task@,
                proof_metadata@,
            ),
    {
        let ghost pre = *self;
        let stake = self.stake_amount;
        let reward = self.mining_reward;
        let w = match self.wallets.get(account) {
            None => {
                return Err(LedgerError::WalletNotFound);
            },
            Some(w) => *w,
        };
        if w.balance_yuki < stake {
            return Err(LedgerError::InsufficientStake);
        }
        let after_stake = w.balance_yuki - stake;
        if reward > u64::MAX - after_stake {
            return Err(LedgerError::Overflow);
        }
        match self.wallets.debit_spendable(account, stake) {
            Ok(()) => {},
            Err(e) => {
                return Err(e);
            },
        }
        match self.wallets.credit_spendable(account, reward) {
            Ok(()) => {},
            Err(e) => {
                return Err(e);
            },
        }
        proof {
            assert(self.wallets.map@ =~= pre.wallets.map@.insert(
                account@,
                (Wallet {
                    balance_yuki: (pre.wallets.map@[account@].balance_yuki - stake + reward) as u64,
                    balance_yg: pre.wallets.map@[account@].balance_yg,
                    balance_yt: pre.wallets.map@[account@].balance_yt,
                }),
            ));
        }
        let transaction = Transaction {
            sender: "System".to_owned(),
            receiver: account.to_owned(),
            amount: reward,
            task,
            proof_metadata,
            verified: true,
        };
        let mut transactions: Vec<Transaction> = Vec::new();
        transactions.push(transaction);
        let last_idx = self.chain.len() - 1;
        let previous_index = self.chain[last_idx].index;
        let previous_hash = self.chain[last_idx].hash.clone();
        let new_block = Block::new(previous_index + 1, transactions, previous_hash);
        self.chain.push(new_block);
        proof {
            let c = self.chain@;
            let n = pre.chain@.len() as int;
            assert(c.subrange(0, n) =~= pre.chain@);
            assert forall|j: int|
                0 <= j < self.marketplace.listings@.len() implies self.wallets.map@.contains_key(
                (#[trigger] self.marketplace.listings@[j]).seller@,
            ) by {
                assert(pre.wallets.map@.contains_key(pre.marketplace.listings@[j].seller@));
            }
        }
        Ok(())
    }

    /// Escrow `amount` tradable tokens of `seller` into a new listing at
    /// `price` per token. Fails, leaving all state unchanged, when the
    /// account does not exist or holds fewer than `amount` tradable tokens.
    pub fn list_tokens(&mut self, seller: &str, price: u64, amount: u64) -> (r: Result<
        (),
        LedgerError,
    >)
        requires
            old(self).wf(),
        ensures
            final(self).wf(),
            final(self).chain@ == old(self).chain@,
            final(self).mining_reward == old(self).mining_reward,
            final(self).stake_amount == old(self).stake_amount,
            final(self).wallets.ids@ == old(self).wallets.ids@,
            (r is Ok <==> old(self).wallets.map@.contains_key(seller@) && old(
                self,
            ).wallets.map@[seller@].balance_yt >= amount),
            (r == Err::<(), LedgerError>(LedgerError::WalletNotFound) <==> !old(
                self,
            ).wallets.map@.contains_key(seller@)),
            (r == Err::<(), LedgerError>(LedgerError::InsufficientTokens) <==> old(
                self,
            ).wallets.map@.contains_key(seller@) && old(self).wallets.map@[seller@].balance_yt
                < amount),
            r is Err ==> *final(self) == *old(self),
            r is Ok ==> final(self).wallets.map@ == old(self).wallets.map@.insert(
                seller@,
                (Wallet {
                    balance_yuki: old(self).wallets.map@[seller@].balance_yuki,
                    balance_yg: old(self).wallets.map@[seller@].balance_yg,
                    balance_yt: (old(self).wallets.map@[seller@].balance_yt - amount) as u64,
                }),
            ),
            r is Ok ==> ({
                let pre_listings = old(self).marketplace.listings@;
                let post_listings = final(self).marketplace.listings@;
                &&& post_listings.len() == pre_listings.len() + 1
                &&& (forall|j: int|
                    0 <= j < pre_listings.len() ==> post_listings[j] == pre_listings[j])
                &&& post_listings.last().seller@ == seller@
                &&& post_listings.last().price_per_token == price
                &&& post_listings.last().tokens_available == amount
            }),
    {
        let w = match self.wallets.get(seller) {
            None => {
                return Err(LedgerError::WalletNotFound);
            },
            Some(w) => *w,
        };
        if w.balance_yt < amount {
            return Err(LedgerError::InsufficientTokens);
        }
        match self.wallets.debit_tradable(seller, amount) {
            Ok(()) => {},
            Err(e) => {
                return Err(e);
            },
        }
        self.marketplace.list_tokens(seller.to_owned(), price, amount);
        Ok(())
    }

    /// Buy `amount` tokens from the listing at the 1-based position
    /// `listing_number`: debit the total price from the buyer, credit the
    /// tokens to the buyer, credit the total price to the seller, and shrink
    /// (or, once exhausted, remove) the listing — all as one unit. Fails,
    /// leaving all state unchanged, when any check fails.
    pub fn buy_tokens(&mut self, buyer: &str, listing_number: usize, amount: u64) -> (r: Result<
        (),
        LedgerError,
    >)
        requires
            old(self).wf(),
        ensures
            final(self).wf(),
            final(self).chain@ == old(self).chain@,
            final(self).mining_reward == old(self).mining_reward,
            final(self).stake_amount == old(self).stake_amount,
            final(self).wallets.ids@ == old(self).wallets.ids@,
            (r is Ok <==> old(self).purchase_ok(buyer@, listing_number, amount)),
            (r == Err::<(), LedgerError>(LedgerError::WalletNotFound) <==> !old(
                self,
            ).wallets.map@.contains_key(buyer@)),
            (r == Err::<(), LedgerError>(LedgerError::InvalidListing) <==> old(
                self,
            ).wallets.map@.contains_key(buyer@) && !old(self).listing_in_range(listing_number)),
            (r == Err::<(), LedgerError>(LedgerError::InsufficientListingQuantity) <==> old(
                self,
            ).wallets.map@.contains_key(buyer@) && old(self).listing_in_range(listing_number)
                && amount > old(self).listing_at(listing_number).tokens_available),
            (r == Err::<(), LedgerError>(LedgerError::InsufficientFunds) <==> old(
                self,
            ).wallets.map@.contains_key(buyer@) && old(self).listing_in_range(listing_number)
                && amount <= old(self).listing_at(listing_number).tokens_available && old(
                self,
            ).purchase_total(listing_number, amount) <= u64::MAX && old(
                self,
            ).wallets.map@[buyer@].balance_yuki < old(self).purchase_total(listing_number, amount)),
            (r == Err::<(), LedgerError>(LedgerError::Overflow) <==> old(
                self,
            ).wallets.map@.contains_key(buyer@) && old(self).listing_in_range(listing_number)
                && amount <= old(self).listing_at(listing_number).tokens_available && (old(
                self,
            ).purchase_total(listing_number, amount) > u64::MAX || (old(
                self,
            ).wallets.map@[buyer@].balance_yuki >= old(self).purchase_total(listing_number, amount)
                && !old(self).purchase_credits_fit(buyer@, listing_number, amount)))),
            r is Err ==> *final(self) == *old(self),
            r is Ok ==> ({
                let m = old(self).wallets.map@;
                let l = old(self).listing_at(listing_number);
                let total = old(self).purchase_total(listing_number, amount);
                if l.seller@ == buyer@ {
                    final(self).wallets.map@ == m.insert(
                        buyer@,
                        (Wallet {
                            balance_yuki: m[buyer@].balance_yuki,
                            balance_yg: m[buyer@].balance_yg,
                            balance_yt: (m[buyer@].balance_yt + amount) as u64,
                        }),
                    )
                } else {
                    final(self).wallets.map@ == m.insert(
                        buyer@,
                        (Wallet {
                            balance_yuki: (m[buyer@].balance_yuki - total) as u64,
                            balance_yg: m[buyer@].balance_yg,
                            balance_yt: (m[buyer@].balance_yt + amount) as u64,
                        }),
                    ).insert(
                        l.seller@,
                        (Wallet {
                            balance_yuki: (m[l.seller@].balance_yuki + total) as u64,
                            balance_yg: m[l.seller@].balance_yg,
                            balance_yt: m[l.seller@].balance_yt,
                        }),
                    )
                }
            }),
            r is Ok ==> ({
                let idx = listing_number - 1;
                let l = old(self).listing_at(listing_number);
                if amount == l.tokens_available {
                    final(self).marketplace.listings@ == old(self).marketplace.listings@.remove(idx)
                } else {
                    let pre_listings = old(self).marketplace.listings@;
                    let post_listings = final(self).marketplace.listings@;
                    &&& post_listings.len() == pre_listings.len()
                    &&& (forall|j: int|
                        0 <= j < pre_listings.len() && j != idx ==> post_listings[j]
                            == pre_listings[j])
                    &&& post_listings[idx].seller@ == l.seller@
                    &&& post_listings[idx].price_per_token == l.price_per_token
                    &&& post_listings[idx].tokens_available == l.tokens_available - amount
                }
            }),
            r is Ok ==> pair_spendable(
                final(self).wallets.map@,
                buyer@,
                old(self).listing_at(listing_number).seller@,
            ) == pair_spendable(
                old(self).wallets.map@,
                buyer@,
                old(self).listing_at(listing_number).seller@,
            ),
            r is Ok ==> final(self).wallets.map@[buyer@].balance_yt + (old(self).listing_at(
                listing_number,
            ).tokens_available - amount) == old(self).wallets.map@[buyer@].balance_yt + old(
                self,
            ).listing_at(listing_number).tokens_available,
    {
        let ghost pre = *self;
        let buyer_w = match self.wallets.get(buyer) {
            None => {
                return Err(LedgerError::WalletNotFound);
            },
            Some(w) => *w,
        };
        if listing_number == 0 || listing_number > self.marketplace.listings.len() {
            return Err(LedgerError::InvalidListing);
        }
        let idx = listing_number - 1;
        let seller: String = self.marketplace.listings[idx].seller.clone();
        let price = self.marketplace.listings[idx].price_per_token;
        let avail = self.marketplace.listings[idx].tokens_available;
        if amount > avail {
            return Err(LedgerError::InsufficientListingQuantity);
        }
        let total = match price.checked_mul(amount) {
            None => {
                return Err(LedgerError::Overflow);
            },
            Some(t) => t,
        };
        if buyer_w.balance_yuki < total {
            return Err(LedgerError::InsufficientFunds);
        }
        if amount > u64::MAX - buyer_w.balance_yt {
            return Err(LedgerError::Overflow);
        }
        let buyer_string: String = buyer.to_owned();
        let same_party = seller == buyer_string;
        if !same_party {
            let seller_w = match self.wallets.get(seller.as_str()) {
                None => {
                    return Err(LedgerError::WalletNotFound);
                },
                Some(w) => *w,
            };
            if total > u64::MAX - seller_w.balance_yuki {
                return Err(LedgerError::Overflow);
            }
        }
        match self.wallets.debit_spendable(buyer, total) {
            Ok(()) => {},
            Err(e) => {
                return Err(e);
            },
        }
        match self.wallets.credit_tradable(buyer, amount) {
            Ok(()) => {},
            Err(e) => {
                return Err(e);
            },
        }
        match self.wallets.credit_spendable(seller.as_str(), total) {
            Ok(()) => {},
            Err(e) => {
                return Err(e);
            },
        }
        proof {
            let m = pre.wallets.map@;
            if seller@ == buyer@ {
                assert(self.wallets.map@ =~= m.insert(
                    buyer@,
                    (Wallet {
                        balance_yuki: m[buyer@].balance_yuki,
                        balance_yg: m[buyer@].balance_yg,
                        balance_yt: (m[buyer@].balance_yt + amount) as u64,
                    }),
                ));
            } else {
                assert(self.wallets.map@ =~= m.insert(
                    buyer@,
                    (Wallet {
                        balance_yuki: (m[buyer@].balance_yuki - total) as u64,
                        balance_yg: m[buyer@].balance_yg,
                        balance_yt: (m[buyer@].balance_yt + amount) as u64,
                    }),
                ).insert(
                    seller@,
                    (Wallet {
                        balance_yuki: (m[seller@].balance_yuki + total) as u64,
                        balance_yg: m[seller@].balance_yg,
                        balance_yt: m[seller@].balance_yt,
                    }),
                ));
            }
        }
        if amount == avail {
            self.marketplace.listings.remove(idx);
        } else {
            let updated = Listing {
                seller,
                price_per_token: price,
                tokens_available: avail - amount,
            };
            self.marketplace.listings[idx] = updated;
        }
        proof {
            assert forall|j: int|
                0 <= j < self.marketplace.listings@.len() implies self.wallets.map@.contains_key(
                (#[trigger] self.marketplace.listings@[j]).seller@,
            ) by {
                if amount == avail {
                    if j < idx {
                        assert(self.marketplace.listings@[j] == pre.marketplace.listings@[j]);
                    } else {
                        assert(self.marketplace.listings@[j] == pre.marketplace.listings@[j + 1]);
                    }
                } else {
                    if j != idx {
                        assert(self.marketplace.listings@[j] == pre.marketplace.listings@[j]);
                    } else {
                        assert(self.marketplace.listings@[j].seller@
                            == pre.marketplace.listings@[idx as int].seller@);
                    }
                }
            }
        }
        Ok(())
    }
}

/// Chain linkage law: in a well-formed ledger every block after the genesis
/// names the previous block's digest, and every block's digest is the hash
/// of its own index, timestamp, transactions and previous digest.
pub proof fn lemma_chain_linkage(bc: Blockchain)
    requires
        bc.wf(),
    ensures
        forall|i: int|
            1 <= i < bc.chain@.len() ==> (#[trigger] bc.chain@[i]).previous_hash@ == bc.chain@[i
                - 1].hash@,
        forall|i: int|
            0 <= i < bc.chain@.len() ==> (#[trigger] bc.chain@[i]).hash@ == spec_block_hash(
                bc.chain@[i].index,
                bc.chain@[i].timestamp,
                bc.chain@[i].transactions@,
                bc.chain@[i].previous_hash@,
            ),
{
}

/// Monotonic indices law: in a well-formed ledger the block indices are
/// exactly 0, 1, ..., n-1, with no gaps and no repeats.
pub proof fn lemma_monotonic_indices(bc: Blockchain)
    requires
        bc.wf(),
    ensures
        forall|i: int| 0 <= i < bc.chain@.len() ==> (#[trigger] bc.chain@[i]).index == i,
{
}

} // verus!
