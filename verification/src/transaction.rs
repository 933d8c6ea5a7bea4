//! The record of one brew.

use crate::rarity::CoffeeRarity;
use vstd::prelude::*;

verus! {

/// One brewing event, as the ledger keeps it.
#[derive(Debug)]
pub struct CoffeeTransaction {
    pub id: usize,
    pub coffee_type: String,
    pub timestamp: u64,
    pub proof_of_coffee_hash: String,
    pub rarity: CoffeeRarity,
    pub brewer: String,
}

/// What a transaction says, with its texts as sequences of characters.
pub struct TransactionView {
    pub id: nat,
    pub coffee_type: Seq<char>,
    pub timestamp: u64,
    pub proof_of_coffee_hash: Seq<char>,
    pub rarity: CoffeeRarity,
    pub brewer: Seq<char>,
}

impl View for CoffeeTransaction {
    type V = TransactionView;

    open spec fn view(&self) -> TransactionView {
        TransactionView {
            id: self.id as nat,
            coffee_type: self.coffee_type@,
            timestamp: self.timestamp,
            proof_of_coffee_hash: self.proof_of_coffee_hash@,
            rarity: self.rarity,
            brewer: self.brewer@,
        }
    }
}

impl Clone for CoffeeTransaction {
    fn clone(&self) -> (copy: Self)
        ensures
            copy@ == self@,
    {
        CoffeeTransaction {
            id: self.id,
            coffee_type: self.coffee_type.clone(),
            timestamp: self.timestamp,
            proof_of_coffee_hash: self.proof_of_coffee_hash.clone(),
            rarity: self.rarity,
            brewer: self.brewer.clone(),
        }
    }
}

/// The views of a run of transactions, in the same order.
pub open spec fn views_of(transactions: Seq<CoffeeTransaction>) -> Seq<TransactionView> {
    transactions.map_values(|t: CoffeeTransaction| t@)
}

} // verus!
