//! Marketplace listings: open offers to sell tradable tokens at a fixed
//! per-unit price. The marketplace owns the listing collection; escrowed
//! tokens are debited from the seller when a listing is created.

use vstd::prelude::*;

verus! {

/// One open offer: seller, price per token and the quantity still for sale.
#[derive(Debug, Clone)]
pub struct Listing {
    /// The account that escrowed the tokens.
    pub seller: String,
    /// Price of one token, in spendable-currency units.
    pub price_per_token: u64,
    /// Tokens still available in this listing.
    pub tokens_available: u64,
}

/// The collection of active listings, in insertion order.
#[derive(Debug)]
pub struct Marketplace {
    /// Active listings; exhausted listings are removed.
    pub listings: Vec<Listing>,
}

impl Marketplace {
    /// An empty marketplace.
    pub fn new() -> (m: Marketplace)
        ensures
            m.listings@.len() == 0,
    {
        Marketplace { listings: Vec::new() }
    }

    /// Append a new listing offering `amount` tokens at `price` per token.
    pub fn list_tokens(&mut self, seller: String, price: u64, amount: u64)
        ensures
            final(self).listings@ == old(self).listings@.push(
                (Listing { seller, price_per_token: price, tokens_available: amount }),
            ),
    {
        self.listings.push(Listing { seller, price_per_token: price, tokens_available: amount });
    }

    /// The number of active listings.
    pub fn len(&self) -> (n: usize)
        ensures
            n == self.listings@.len(),
    {
        self.listings.len()
    }

    /// The active listings, in insertion order.
    pub fn listings(&self) -> (r: &Vec<Listing>)
        ensures
            r@ == self.listings@,
    {
        &self.listings
    }
}

} // verus!
