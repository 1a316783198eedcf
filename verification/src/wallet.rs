//! Account balance records and the wallet store.
//!
//! A `Wallet` holds three independent non-negative counters: the spendable
//! currency balance (`balance_yuki`), a governance token balance
//! (`balance_yg`) and a tradable token balance (`balance_yt`). The
//! `WalletStore` maps account identifiers to wallets and is the only way the
//! rest of the system reads or changes balances.

use vstd::prelude::*;
use vstd::hash_map::StringHashMap;
use crate::errors::LedgerError;

verus! {

/// Starting spendable balance of a freshly created wallet.
pub const STARTING_BALANCE: u64 = 10;

/// One account's balances: spendable currency, governance tokens and
/// tradable tokens.
#[derive(Debug, Clone, Copy, PartialEq, Eq, Structural)]
pub struct Wallet {
    pub balance_yuki: u64,
    pub balance_yg: u64,
    pub balance_yt: u64,
}

impl Wallet {
    /// A new wallet: the fixed starting spendable balance, no tokens.
    pub fn new() -> (w: Wallet)
        ensures
            w.balance_yuki == STARTING_BALANCE,
            w.balance_yg == 0,
            w.balance_yt == 0,
    {
        Wallet { balance_yuki: STARTING_BALANCE, balance_yg: 0, balance_yt: 0 }
    }
}

/// The wallet store: account identifier to wallet, together with the list of
/// account identifiers in insertion order (for enumeration and persistence).
pub struct WalletStore {
    /// The mapping itself.
    pub map: StringHashMap<Wallet>,
    /// Every account identifier exactly once, in insertion order.
    pub ids: Vec<String>,
}

impl WalletStore {
    /// Well-formedness: `ids` lists each key of `map` exactly once.
    pub open spec fn wf(self) -> bool {
        &&& (forall|i: int, j: int|
            0 <= i < j < self.ids@.len() ==> (#[trigger] self.ids@[i])@ != (#[trigger] self.ids@[j])@)
        &&& (forall|i: int|
            0 <= i < self.ids@.len() ==> self.map@.contains_key((#[trigger] self.ids@[i])@))
        &&& (forall|k: Seq<char>|
            #[trigger] self.map@.contains_key(k) ==> exists|i: int|
                0 <= i < self.ids@.len() && (#[trigger] self.ids@[i])@ == k)
    }

    /// An empty store.
    pub fn new() -> (s: WalletStore)
        ensures
            s.map@ == Map::<Seq<char>, Wallet>::empty(),
            s.ids@.len() == 0,
            s.wf(),
    {
        let s = WalletStore { map: StringHashMap::new(), ids: Vec::new() };
        proof {
            assert(forall|k: Seq<char>| !s.map@.contains_key(k));
        }
        s
    }

    /// The wallet of `account`, or `None` if the account does not exist.
    pub fn get<'a>(&'a self, account: &str) -> (r: Option<&'a Wallet>)
        ensures
            match r {
                Some(w) => self.map@.contains_key(account@) && *w == self.map@[account@],
                None => !self.map@.contains_key(account@),
            },
    {
        self.map.get(account)
    }

    /// The account identifiers, in insertion order.
    pub fn account_ids(&self) -> (r: &Vec<String>)
        ensures
            r@ == self.ids@,
    {
        &self.ids
    }

    /// Put `w` under `account`, silently overwriting any prior record.
    pub fn insert(&mut self, account: String, w: Wallet)
        requires
            old(self).wf(),
        ensures
            final(self).map@ == old(self).map@.insert(account@, w),
            final(self).wf(),
            old(self).map@.contains_key(account@) ==> final(self).ids@ == old(self).ids@,
            !old(self).map@.contains_key(account@) ==> final(self).ids@.len() == old(
                self,
            ).ids@.len() + 1 && (forall|i: int|
                0 <= i < old(self).ids@.len() ==> final(self).ids@[i] == old(self).ids@[i])
                && final(self).ids@.last()@ == account@,
    {
        let ghost pre = *self;
        let existed = self.map.contains_key(account.as_str());
        if !existed {
            self.ids.push(account.clone());
        }
        self.map.insert(account, w);
        proof {
            if existed {
                assert forall|k: Seq<char>| #[trigger] self.map@.contains_key(k) implies exists|
                    i: int,
                |
                    0 <= i < self.ids@.len() && (#[trigger] self.ids@[i])@ == k by {
                    assert(pre.map@.contains_key(k));
                }
            } else {
                let n = pre.ids@.len() as int;
                assert(self.ids@[n]@ == account@);
                assert forall|i: int, j: int|
                    0 <= i < j < self.ids@.len() implies (#[trigger] self.ids@[i])@ != (
                #[trigger] self.ids@[j])@ by {
                    if j == n {
                        assert(pre.map@.contains_key(pre.ids@[i]@));
                    }
                }
                assert forall|i: int|
                    0 <= i < self.ids@.len() implies self.map@.contains_key(
                    (#[trigger] self.ids@[i])@,
                ) by {
                    if i < n {
                        assert(self.ids@[i] == pre.ids@[i]);
                        assert(pre.map@.contains_key(pre.ids@[i]@));
                    }
                }
                assert forall|k: Seq<char>| #[trigger] self.map@.contains_key(k) implies exists|
                    i: int,
                |
                    0 <= i < self.ids@.len() && (#[trigger] self.ids@[i])@ == k by {
                    if k == account@ {
                        assert(0 <= n < self.ids@.len() && self.ids@[n]@ == k);
                    } else {
                        assert(pre.map@.contains_key(k));
                        let i = choose|i: int|
                            0 <= i < pre.ids@.len() && (#[trigger] pre.ids@[i])@ == k;
                        assert(0 <= i < self.ids@.len() && self.ids@[i]@ == k);
                    }
                }
            }
        }
    }

    /// Create `account` with the fixed starting spendable balance and zero
    /// token balances, silently overwriting any prior record.
    pub fn create(&mut self, account: String)
        requires
            old(self).wf(),
        ensures
            final(self).map@ == old(self).map@.insert(
                account@,
                (Wallet { balance_yuki: STARTING_BALANCE, balance_yg: 0, balance_yt: 0 }),
            ),
            final(self).wf(),
            old(self).map@.contains_key(account@) ==> final(self).ids@ == old(self).ids@,
            !old(self).map@.contains_key(account@) ==> final(self).ids@.len() == old(
                self,
            ).ids@.len() + 1 && (forall|i: int|
                0 <= i < old(self).ids@.len() ==> final(self).ids@[i] == old(self).ids@[i])
                && final(self).ids@.last()@ == account@,
    {
        let w = Wallet::new();
        self.insert(account, w);
    }

    /// Replace the record of an existing account.
    fn set_existing(&mut self, account: &str, w: Wallet)
        requires
            old(self).wf(),
            old(self).map@.contains_key(account@),
        ensures
            final(self).map@ == old(self).map@.insert(account@, w),
            final(self).ids@ == old(self).ids@,
            final(self).wf(),
    {
        let ghost pre = *self;
        self.map.insert(account.to_owned(), w);
        proof {
            assert forall|k: Seq<char>| #[trigger] self.map@.contains_key(k) implies exists|i: int|
                0 <= i < self.ids@.len() && (#[trigger] self.ids@[i])@ == k by {
                assert(pre.map@.contains_key(k));
                let i = choose|i: int| 0 <= i < pre.ids@.len() && (#[trigger] pre.ids@[i])@ == k;
                assert(0 <= i < self.ids@.len() && self.ids@[i]@ == k);
            }
        }
    }

    /// Decrease the spendable balance of `account` by `amount`.
    pub fn debit_spendable(&mut self, account: &str, amount: u64) -> (r: Result<(), LedgerError>)
        requires
            old(self).wf(),
        ensures
            final(self).wf(),
            final(self).ids@ == old(self).ids@,
            (r is Ok <==> old(self).map@.contains_key(account@) && old(self).map@[account@].balance_yuki
                >= amount),
            (r == Err::<(), LedgerError>(LedgerError::WalletNotFound) <==> !old(
                self,
            ).map@.contains_key(account@)),
            (r == Err::<(), LedgerError>(LedgerError::InsufficientFunds) <==> old(
                self,
            ).map@.contains_key(account@) && old(self).map@[account@].balance_yuki < amount),
            r is Ok ==> final(self).map@ == old(self).map@.insert(
                account@,
                (Wallet {
                    balance_yuki: (old(self).map@[account@].balance_yuki - amount) as u64,
                    balance_yg: old(self).map@[account@].balance_yg,
                    balance_yt: old(self).map@[account@].balance_yt,
                }),
            ),
            r is Err ==> final(self).map@ == old(self).map@,
    {
        let w = match self.get(account) {
            None => {
                return Err(LedgerError::WalletNotFound);
            },
            Some(w) => *w,
        };
        if w.balance_yuki < amount {
            return Err(LedgerError::InsufficientFunds);
        }
        let nw = Wallet {
            balance_yuki: w.balance_yuki - amount,
            balance_yg: w.balance_yg,
            balance_yt: w.balance_yt,
        };
        self.set_existing(account, nw);
        Ok(())
    }

    /// Increase the spendable balance of `account` by `amount`.
    pub fn credit_spendable(&mut self, account: &str, amount: u64) -> (r: Result<(), LedgerError>)
        requires
            old(self).wf(),
        ensures
            final(self).wf(),
            final(self).ids@ == old(self).ids@,
            (r is Ok <==> old(self).map@.contains_key(account@) && old(self).map@[account@].balance_yuki
                + amount <= u64::MAX),
            (r == Err::<(), LedgerError>(LedgerError::WalletNotFound) <==> !old(
                self,
            ).map@.contains_key(account@)),
            (r == Err::<(), LedgerError>(LedgerError::Overflow) <==> old(self).map@.contains_key(
                account@,
            ) && old(self).map@[account@].balance_yuki + amount > u64::MAX),
            r is Ok ==> final(self).map@ == old(self).map@.insert(
                account@,
                (Wallet {
                    balance_yuki: (old(self).map@[account@].balance_yuki + amount) as u64,
                    balance_yg: old(self).map@[account@].balance_yg,
                    balance_yt: old(self).map@[account@].balance_yt,
                }),
            ),
            r is Err ==> final(self).map@ == old(self).map@,
    {
        let w = match self.get(account) {
            None => {
                return Err(LedgerError::WalletNotFound);
            },
            Some(w) => *w,
        };
        if amount > u64::MAX - w.balance_yuki {
            return Err(LedgerError::Overflow);
        }
        let nw = Wallet {
            balance_yuki: w.balance_yuki + amount,
            balance_yg: w.balance_yg,
            balance_yt: w.balance_yt,
        };
        self.set_existing(account, nw);
        Ok(())
    }

    /// Decrease the tradable-token balance of `account` by `amount`.
    pub fn debit_tradable(&mut self, account: &str, amount: u64) -> (r: Result<(), LedgerError>)
        requires
            old(self).wf(),
        ensures
            final(self).wf(),
            final(self).ids@ == old(self).ids@,
            (r is Ok <==> old(self).map@.contains_key(account@) && old(self).map@[account@].balance_yt
                >= amount),
            (r == Err::<(), LedgerError>(LedgerError::WalletNotFound) <==> !old(
                self,
            ).map@.contains_key(account@)),
            (r == Err::<(), LedgerError>(LedgerError::InsufficientFunds) <==> old(
                self,
            ).map@.contains_key(account@) && old(self).map@[account@].balance_yt < amount),
            r is Ok ==> final(self).map@ == old(self).map@.insert(
                account@,
                (Wallet {
                    balance_yuki: old(self).map@[account@].balance_yuki,
                    balance_yg: old(self).map@[account@].balance_yg,
                    balance_yt: (old(self).map@[account@].balance_yt - amount) as u64,
                }),
            ),
            r is Err ==> final(self).map@ == old(self).map@,
    {
        let w = match self.get(account) {
            None => {
                return Err(LedgerError::WalletNotFound);
            },
            Some(w) => *w,
        };
        if w.balance_yt < amount {
            return Err(LedgerError::InsufficientFunds);
        }
        let nw = Wallet {
            balance_yuki: w.balance_yuki,
            balance_yg: w.balance_yg,
            balance_yt: w.balance_yt - amount,
        };
        self.set_existing(account, nw);
        Ok(())
    }

    /// Increase the tradable-token balance of `account` by `amount`.
    pub fn credit_tradable(&mut self, account: &str, amount: u64) -> (r: Result<(), LedgerError>)
        requires
            old(self).wf(),
        ensures
            final(self).wf(),
            final(self).ids@ == old(self).ids@,
            (r is Ok <==> old(self).map@.contains_key(account@) && old(self).map@[account@].balance_yt
                + amount <= u64::MAX),
            (r == Err::<(), LedgerError>(LedgerError::WalletNotFound) <==> !old(
                self,
            ).map@.contains_key(account@)),
            (r == Err::<(), LedgerError>(LedgerError::Overflow) <==> old(self).map@.contains_key(
                account@,
            ) && old(self).map@[account@].balance_yt + amount > u64::MAX),
            r is Ok ==> final(self).map@ == old(self).map@.insert(
                account@,
                (Wallet {
                    balance_yuki: old(self).map@[account@].balance_yuki,
                    balance_yg: old(self).map@[account@].balance_yg,
                    balance_yt: (old(self).map@[account@].balance_yt + amount) as u64,
                }),
            ),
            r is Err ==> final(self).map@ == old(self).map@,
    {
        let w = match self.get(account) {
            None => {
                return Err(LedgerError::WalletNotFound);
            },
            Some(w) => *w,
        };
        if amount > u64::MAX - w.balance_yt {
            return Err(LedgerError::Overflow);
        }
        let nw = Wallet {
            balance_yuki: w.balance_yuki,
            balance_yg: w.balance_yg,
            balance_yt: w.balance_yt + amount,
        };
        self.set_existing(account, nw);
        Ok(())
    }

    /// Increase the governance-token balance of `account` by `amount`.
    pub fn credit_governance(&mut self, account: &str, amount: u64) -> (r: Result<(), LedgerError>)
        requires
            old(self).wf(),
        ensures
            final(self).wf(),
            final(self).ids@ == old(self).ids@,
            (r is Ok <==> old(self).map@.contains_key(account@) && old(self).map@[account@].balance_yg
                + amount <= u64::MAX),
            (r == Err::<(), LedgerError>(LedgerError::WalletNotFound) <==> !old(
                self,
            ).map@.contains_key(account@)),
            (r == Err::<(), LedgerError>(LedgerError::Overflow) <==> old(self).map@.contains_key(
                account@,
            ) && old(self).map@[account@].balance_yg + amount > u64::MAX),
            r is Ok ==> final(self).map@ == old(self).map@.insert(
                account@,
                (Wallet {
                    balance_yuki: old(self).map@[account@].balance_yuki,
                    balance_yg: (old(self).map@[account@].balance_yg + amount) as u64,
                    balance_yt: old(self).map@[account@].balance_yt,
                }),
            ),
            r is Err ==> final(self).map@ == old(self).map@,
    {
        let w = match self.get(account) {
            None => {
                return Err(LedgerError::WalletNotFound);
            },
            Some(w) => *w,
        };
        if amount > u64::MAX - w.balance_yg {
            return Err(LedgerError::Overflow);
        }
        let nw = Wallet {
            balance_yuki: w.balance_yuki,
            balance_yg: w.balance_yg + amount,
            balance_yt: w.balance_yt,
        };
        self.set_existing(account, nw);
        Ok(())
    }
}

} // verus!
