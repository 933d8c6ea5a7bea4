//! Coin balances, one entry per user that was ever seen.

use vstd::prelude::*;

verus! {

/// The coins of one user.
#[derive(Debug)]
pub struct Wallet {
    pub owner: String,
    pub coins: u32,
}

/// The coins that `balances` records for `user`: zero without an entry.
pub open spec fn coins_of(balances: Map<Seq<char>, nat>, user: Seq<char>) -> nat {
    if balances.dom().contains(user) {
        balances[user]
    } else {
        0
    }
}

/// The balances after `amount` coins were added to those of `user`. A user
/// without an entry gets one.
pub open spec fn credited(balances: Map<Seq<char>, nat>, user: Seq<char>, amount: nat) -> Map<
    Seq<char>,
    nat,
> {
    balances.insert(user, coins_of(balances, user) + amount)
}

/// The balances after `user` was given an entry of `amount` coins, unless
/// there was an entry already.
pub open spec fn opened(balances: Map<Seq<char>, nat>, user: Seq<char>, amount: nat) -> Map<
    Seq<char>,
    nat,
> {
    if balances.dom().contains(user) {
        balances
    } else {
        balances.insert(user, amount)
    }
}

/// Whether `entries` holds the wallet of `owner` at `index`.
pub open spec fn held_at(entries: Seq<Wallet>, owner: Seq<char>, index: int) -> bool {
    0 <= index < entries.len() && entries[index].owner@ == owner
}

/// The balances by user. No user has two entries.
pub struct BalanceBook {
    entries: Vec<Wallet>,
}

impl View for BalanceBook {
    type V = Map<Seq<char>, nat>;

    closed spec fn view(&self) -> Map<Seq<char>, nat> {
        Map::new(
            |owner: Seq<char>| exists|i: int| held_at(self.entries@, owner, i),
            |owner: Seq<char>|
                self.entries@[choose|i: int| held_at(self.entries@, owner, i)].coins as nat,
        )
    }
}

impl BalanceBook {
    /// No user has two entries.
    pub closed spec fn wf(&self) -> bool {
        forall|i: int, j: int|
            0 <= i < j < self.entries@.len() ==> self.entries@[i].owner@ != self.entries@[j].owner@
    }

    /// Every balance fits the machine integer that holds it.
    pub proof fn lemma_bounded(&self, user: Seq<char>)
        ensures
            coins_of(self@, user) <= u32::MAX,
    {
    }

    proof fn lemma_entry(&self, index: int)
        requires
            self.wf(),
            0 <= index < self.entries@.len(),
        ensures
            self@.dom().contains(self.entries@[index].owner@),
            self@[self.entries@[index].owner@] == self.entries@[index].coins,
    {
        let owner = self.entries@[index].owner@;
        assert(held_at(self.entries@, owner, index));
    }

    pub fn new() -> (book: Self)
        ensures
            book.wf(),
            book@ == Map::<Seq<char>, nat>::empty(),
    {
        let book = BalanceBook { entries: Vec::new() };
        assert(book@ =~= Map::<Seq<char>, nat>::empty());
        book
    }

    /// Where the wallet of `owner` is kept, if there is one.
    fn find(&self, owner: &String) -> (place: Option<usize>)
        requires
            self.wf(),
        ensures
            place is Some <==> self@.dom().contains(owner@),
            place matches Some(index) ==> held_at(self.entries@, owner@, index as int),
    {
        let mut index: usize = 0;
        while index < self.entries.len()
            invariant
                index <= self.entries@.len(),
                forall|i: int| 0 <= i < index ==> !held_at(self.entries@, owner@, i),
            decreases self.entries@.len() - index,
        {
            if self.entries[index].owner == *owner {
                assert(held_at(self.entries@, owner@, index as int));
                return Some(index);
            }
            index += 1;
        }
        None
    }

    /// The coins of `owner`, or `None` for a user without an entry.
    pub fn get(&self, owner: &str) -> (coins: Option<u32>)
        requires
            self.wf(),
        ensures
            coins is Some <==> self@.dom().contains(owner@),
            coins matches Some(amount) ==> self@[owner@] == amount,
    {
        let key = owner.to_owned();
        match self.find(&key) {
            Some(index) => {
                proof {
                    self.lemma_entry(index as int);
                }
                Some(self.entries[index].coins)
            },
            None => None,
        }
    }

    /// The coins of `owner`: zero for a user without an entry.
    pub fn balance_of(&self, owner: &str) -> (coins: u32)
        requires
            self.wf(),
        ensures
            coins == coins_of(self@, owner@),
    {
        match self.get(owner) {
            Some(amount) => amount,
            None => 0,
        }
    }

    /// Gives `owner` an entry of `initial` coins, unless there is one already.
    pub fn open(&mut self, owner: &str, initial: u32)
        requires
            old(self).wf(),
        ensures
            final(self).wf(),
            final(self)@ == opened(old(self)@, owner@, initial as nat),
    {
        let key = owner.to_owned();
        if self.find(&key).is_none() {
            self.insert_new(key, initial);
        }
    }

    /// Adds `amount` coins to those of `owner`, who gets an entry if there
    /// was none.
    pub fn credit(&mut self, owner: &str, amount: u32)
        requires
            old(self).wf(),
            coins_of(old(self)@, owner@) + amount <= u32::MAX,
        ensures
            final(self).wf(),
            final(self)@ == credited(old(self)@, owner@, amount as nat),
    {
        let key = owner.to_owned();
        match self.find(&key) {
            Some(index) => {
                proof {
                    self.lemma_entry(index as int);
                }
                let coins = self.entries[index].coins;
                self.entries[index].coins = coins + amount;
                proof {
                    let before = old(self).entries@;
                    let after = self.entries@;
                    assert forall|i: int| 0 <= i < after.len() implies after[i].owner@
                        == before[i].owner@ by {}
                    assert forall|name: Seq<char>, i: int|
                        held_at(after, name, i) <==> held_at(before, name, i) by {}
                    assert forall|name: Seq<char>| #[trigger]
                        self@.dom().contains(name) implies self@[name] == credited(
                        old(self)@,
                        owner@,
                        amount as nat,
                    )[name] by {
                        let i = choose|i: int| held_at(after, name, i);
                        let j = choose|j: int| held_at(before, name, j);
                        assert(held_at(before, name, i));
                        assert(i == j);
                        if name == owner@ {
                            assert(i == index);
                        }
                    }
                    assert(self@ =~= credited(old(self)@, owner@, amount as nat));
                }
            },
            None => {
                self.insert_new(key, amount);
            },
        }
    }

    /// Appends the wallet of a user who has none.
    fn insert_new(&mut self, owner: String, coins: u32)
        requires
            old(self).wf(),
            !old(self)@.dom().contains(owner@),
        ensures
            final(self).wf(),
            final(self)@ == old(self)@.insert(owner@, coins as nat),
    {
        let ghost name = owner@;
        self.entries.push(Wallet { owner, coins });
        proof {
            let before = old(self).entries@;
            let after = self.entries@;
            let last = before.len() as int;
            assert forall|i: int| 0 <= i < last implies before[i].owner@ != name by {
                if before[i].owner@ == name {
                    assert(held_at(before, name, i));
                }
            }
            assert(held_at(after, name, last));
            assert forall|other: Seq<char>, i: int| other != name implies (held_at(after, other, i)
                <==> held_at(before, other, i)) by {}
            assert forall|other: Seq<char>| #[trigger]
                self@.dom().contains(other) implies self@[other] == old(self)@.insert(
                name,
                coins as nat,
            )[other] by {
                let i = choose|i: int| held_at(after, other, i);
                if other == name {
                    assert(i == last);
                } else {
                    let j = choose|j: int| held_at(before, other, j);
                    assert(held_at(before, other, i));
                    assert(i == j);
                }
            }
            assert(self@ =~= old(self)@.insert(name, coins as nat));
        }
    }
}

} // verus!
