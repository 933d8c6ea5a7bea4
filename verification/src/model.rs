//! The ledger as a mathematical value, and what each operation makes of it.
//!
//! The executable ledger is specified against this model: numbers are
//! unbounded here, texts are sequences of characters, and the balances are a
//! map.

use crate::achievement::AchievementKind;
use crate::rarity::reward_of;
use crate::rarity::CoffeeRarity;
use crate::transaction::TransactionView;
use crate::wallet::coins_of;
use crate::wallet::credited;
use crate::wallet::opened;
use vstd::prelude::*;

verus! {

/// The user of a ledger on which no name was set yet.
pub open spec fn initial_user() -> Seq<char> {
    "CoffeeChain"@
}

/// The user that stands in for an empty name.
pub open spec fn fallback_user() -> Seq<char> {
    "Anonymous"@
}

/// The coins that a user is given when first seen by name.
pub open spec fn starting_grant() -> nat {
    10
}

/// The number of distinct coffees that make a legendary barista.
pub open spec fn label_goal() -> nat {
    3
}

/// Whether the transaction at `index` records that `brewer` brewed `label`.
pub open spec fn brewed_at(
    transactions: Seq<TransactionView>,
    brewer: Seq<char>,
    label: Seq<char>,
    index: int,
) -> bool {
    &&& 0 <= index < transactions.len()
    &&& transactions[index].brewer == brewer
    &&& transactions[index].coffee_type == label
}

/// The distinct coffee labels that `brewer` has brewed. Labels are compared
/// character by character.
pub open spec fn labels_by(transactions: Seq<TransactionView>, brewer: Seq<char>) -> Set<
    Seq<char>,
> {
    Set::new(|label: Seq<char>| exists|i: int| brewed_at(transactions, brewer, label, i))
}

/// What one brew is made of, apart from the ledger it is recorded in.
pub struct BrewInput {
    pub label: Seq<char>,
    pub timestamp: u64,
    pub hash: Seq<char>,
    pub rarity: CoffeeRarity,
}

/// The brew of `label` at `timestamp`, with `hash` and `rarity`.
pub open spec fn brew_input(
    label: Seq<char>,
    timestamp: u64,
    hash: Seq<char>,
    rarity: CoffeeRarity,
) -> BrewInput {
    BrewInput { label, timestamp, hash, rarity }
}

/// One call that changes a ledger.
pub enum LedgerOp {
    /// The current user is set by a name.
    SetUser(Seq<char>),
    /// A coffee is brewed.
    Brew(BrewInput),
}

/// The number of brews among `ops`.
pub open spec fn brews_in(ops: Seq<LedgerOp>) -> nat
    decreases ops.len(),
{
    if ops.len() == 0 {
        0
    } else if ops.last() is Brew {
        brews_in(ops.drop_last()) + 1
    } else {
        brews_in(ops.drop_last())
    }
}

/// The rewards that the rarities of `inputs` pay, added up.
pub open spec fn rarity_rewards(inputs: Seq<BrewInput>) -> nat
    decreases inputs.len(),
{
    if inputs.len() == 0 {
        0
    } else {
        rarity_rewards(inputs.drop_last()) + reward_of(inputs.last().rarity)
    }
}

/// The reward of `kind` if it is unlocked in `after` and was not in `before`.
pub open spec fn reward_gained(
    before: Set<AchievementKind>,
    after: Set<AchievementKind>,
    kind: AchievementKind,
) -> nat {
    if after.contains(kind) && !before.contains(kind) {
        kind.reward()
    } else {
        0
    }
}

/// The rewards of the achievements that are unlocked in `after` and were not
/// in `before`, added up.
pub open spec fn rewards_gained(before: Set<AchievementKind>, after: Set<AchievementKind>) -> nat {
    reward_gained(before, after, AchievementKind::FirstBrew) + reward_gained(
        before,
        after,
        AchievementKind::RareFind,
    ) + reward_gained(before, after, AchievementKind::LegendaryBarista)
}

/// What one brew hands back to its caller.
pub struct BrewOutcome {
    pub transaction: TransactionView,
    pub unlocked: Seq<AchievementKind>,
    pub reward: nat,
}

/// Everything a ledger holds.
pub struct LedgerState {
    pub transactions: Seq<TransactionView>,
    pub current_id: nat,
    pub unlocked: Set<AchievementKind>,
    pub balances: Map<Seq<char>, nat>,
    pub current_user: Seq<char>,
}

impl LedgerState {
    /// The ledger at the start: nothing brewed, nothing unlocked, nobody paid.
    pub open spec fn initial() -> LedgerState {
        LedgerState {
            transactions: Seq::empty(),
            current_id: 0,
            unlocked: Set::empty(),
            balances: Map::empty(),
            current_user: initial_user(),
        }
    }

    /// The coins of `user`: zero for somebody who was never credited.
    pub open spec fn balance(self, user: Seq<char>) -> nat {
        coins_of(self.balances, user)
    }

    /// The user that a given name selects: the name itself, or the fallback
    /// for an empty name.
    pub open spec fn user_named(name: Seq<char>) -> Seq<char> {
        if name.len() == 0 {
            fallback_user()
        } else {
            name
        }
    }

    /// The ledger after the current user was set by `name`. A user who has no
    /// balance entry yet is given the starting grant.
    pub open spec fn set_user(self, name: Seq<char>) -> LedgerState {
        let user = Self::user_named(name);
        LedgerState {
            current_user: user,
            balances: opened(self.balances, user, starting_grant()),
            ..self
        }
    }

    /// The transaction that the next brew creates.
    pub open spec fn next_transaction(self, input: BrewInput) -> TransactionView {
        TransactionView {
            id: self.current_id + 1,
            coffee_type: input.label,
            timestamp: input.timestamp,
            proof_of_coffee_hash: input.hash,
            rarity: input.rarity,
            brewer: self.current_user,
        }
    }

    /// The ledger after the next transaction was appended, before anything
    /// was paid for it.
    pub open spec fn append(self, input: BrewInput) -> LedgerState {
        LedgerState {
            transactions: self.transactions.push(self.next_transaction(input)),
            current_id: self.current_id + 1,
            ..self
        }
    }

    /// Whether the rule of `kind` is met in a ledger whose last transaction,
    /// of the given rarity, was brewed by the current user.
    pub open spec fn earns(self, kind: AchievementKind, rarity: CoffeeRarity) -> bool {
        match kind {
            AchievementKind::FirstBrew => self.transactions.len() == 1,
            AchievementKind::RareFind => rarity.is_prized(),
            AchievementKind::LegendaryBarista => labels_by(
                self.transactions,
                self.current_user,
            ).len() >= label_goal(),
        }
    }

    /// Whether `kind` is unlocked by the evaluation: its rule is met and it
    /// was locked.
    pub open spec fn unlocks(self, kind: AchievementKind, rarity: CoffeeRarity) -> bool {
        !self.unlocked.contains(kind) && self.earns(kind, rarity)
    }

    /// `kind` alone if the evaluation unlocks it, nothing otherwise.
    pub open spec fn fired(self, kind: AchievementKind, rarity: CoffeeRarity) -> Seq<
        AchievementKind,
    > {
        if self.unlocks(kind, rarity) {
            seq![kind]
        } else {
            Seq::empty()
        }
    }

    /// The coins that the evaluation pays for `kind`.
    pub open spec fn prize(self, kind: AchievementKind, rarity: CoffeeRarity) -> nat {
        if self.unlocks(kind, rarity) {
            kind.reward()
        } else {
            0
        }
    }

    /// The achievements that the evaluation unlocks, in catalog order.
    pub open spec fn newly_unlocked(self, rarity: CoffeeRarity) -> Seq<AchievementKind> {
        self.fired(AchievementKind::FirstBrew, rarity) + self.fired(
            AchievementKind::RareFind,
            rarity,
        ) + self.fired(AchievementKind::LegendaryBarista, rarity)
    }

    /// The coins that the evaluation pays for all that it unlocks.
    pub open spec fn unlock_payout(self, rarity: CoffeeRarity) -> nat {
        self.prize(AchievementKind::FirstBrew, rarity) + self.prize(
            AchievementKind::RareFind,
            rarity,
        ) + self.prize(AchievementKind::LegendaryBarista, rarity)
    }

    /// The ledger after the achievement rules were evaluated: what a rule
    /// newly unlocks is unlocked, and its reward goes to the current user.
    /// Without an unlock the balances stay as they are.
    pub open spec fn evaluate(self, rarity: CoffeeRarity) -> LedgerState {
        LedgerState {
            unlocked: Set::new(
                |kind: AchievementKind| self.unlocked.contains(kind) || self.earns(kind, rarity),
            ),
            balances: if self.unlock_payout(rarity) > 0 {
                credited(self.balances, self.current_user, self.unlock_payout(rarity))
            } else {
                self.balances
            },
            ..self
        }
    }

    /// The ledger after `kind` was unlocked for `brewer`, who is paid its
    /// reward. Unlocking what is unlocked already changes nothing.
    pub open spec fn unlock(self, kind: AchievementKind, brewer: Seq<char>) -> LedgerState {
        if self.unlocked.contains(kind) {
            self
        } else {
            LedgerState {
                unlocked: self.unlocked.insert(kind),
                balances: credited(self.balances, brewer, kind.reward()),
                ..self
            }
        }
    }

    /// The ledger after the rule of `kind` alone was applied: if the rule is
    /// met, `kind` is unlocked for the current user.
    pub open spec fn apply_rule(self, kind: AchievementKind, rarity: CoffeeRarity) -> LedgerState {
        if self.earns(kind, rarity) {
            self.unlock(kind, self.current_user)
        } else {
            self
        }
    }

    /// Up to `count` of the latest transactions, the most recent first.
    pub open spec fn recent(self, count: nat) -> Seq<TransactionView> {
        let total = self.transactions.len();
        let shown = if count < total {
            count
        } else {
            total
        };
        Seq::new(shown, |k: int| self.transactions[total - 1 - k])
    }

    /// The ledger after `amount` coins were added to those of `user`.
    pub open spec fn credit(self, user: Seq<char>, amount: nat) -> LedgerState {
        LedgerState { balances: credited(self.balances, user, amount), ..self }
    }

    /// The ledger after one brew: the transaction is appended, the
    /// achievement rules are evaluated, and the reward of the rarity is paid
    /// to the current user.
    pub open spec fn brew(self, input: BrewInput) -> LedgerState {
        self.append(input).evaluate(input.rarity).credit(
            self.current_user,
            reward_of(input.rarity),
        )
    }

    /// What one brew hands back.
    pub open spec fn brew_outcome(self, input: BrewInput) -> BrewOutcome {
        BrewOutcome {
            transaction: self.next_transaction(input),
            unlocked: self.append(input).newly_unlocked(input.rarity),
            reward: reward_of(input.rarity),
        }
    }

    /// The ledger after the brews of `inputs`, one after the other.
    pub open spec fn brew_all(self, inputs: Seq<BrewInput>) -> LedgerState
        decreases inputs.len(),
    {
        if inputs.len() == 0 {
            self
        } else {
            self.brew_all(inputs.drop_last()).brew(inputs.last())
        }
    }

    /// The ledger after one call.
    pub open spec fn step(self, op: LedgerOp) -> LedgerState {
        match op {
            LedgerOp::SetUser(name) => self.set_user(name),
            LedgerOp::Brew(input) => self.brew(input),
        }
    }

    /// The ledger after the calls of `ops`, one after the other.
    pub open spec fn run(self, ops: Seq<LedgerOp>) -> LedgerState
        decreases ops.len(),
    {
        if ops.len() == 0 {
            self
        } else {
            self.run(ops.drop_last()).step(ops.last())
        }
    }

    /// Transaction ids count up from 1 in steps of 1, and the counter holds
    /// the last one given out.
    pub open spec fn numbered(self) -> bool {
        &&& self.current_id == self.transactions.len()
        &&& forall|i: int|
            0 <= i < self.transactions.len() ==> (#[trigger] self.transactions[i]).id == i + 1
    }

    /// Whether any transaction has a rarity that counts as a rare find.
    pub open spec fn has_prized(self) -> bool {
        exists|i: int|
            0 <= i < self.transactions.len() && (#[trigger] self.transactions[i]).rarity.is_prized()
    }

    /// Whether any brewer has reached the goal of distinct labels.
    pub open spec fn has_barista(self) -> bool {
        exists|i: int|
            0 <= i < self.transactions.len() && labels_by(
                self.transactions,
                (#[trigger] self.transactions[i]).brewer,
            ).len() >= label_goal()
    }

    /// The unlock flags say of the history what their rules ask: each
    /// achievement is unlocked exactly if some brew so far has earned it.
    pub open spec fn consistent(self) -> bool {
        &&& self.unlocked.contains(AchievementKind::FirstBrew) <==> self.transactions.len() >= 1
        &&& self.unlocked.contains(AchievementKind::RareFind) <==> self.has_prized()
        &&& self.unlocked.contains(AchievementKind::LegendaryBarista) <==> self.has_barista()
    }

    /// Every counter and balance fits the machine integer that holds it.
    pub open spec fn fits(self) -> bool {
        &&& self.current_id <= usize::MAX
        &&& forall|user: Seq<char>| self.balance(user) <= u32::MAX
    }
}

/// Appending a transaction adds its label to the labels of its brewer and
/// leaves the labels of everybody else alone.
pub proof fn lemma_labels_push(
    transactions: Seq<TransactionView>,
    added: TransactionView,
    brewer: Seq<char>,
)
    ensures
        labels_by(transactions.push(added), brewer) == if added.brewer == brewer {
            labels_by(transactions, brewer).insert(added.coffee_type)
        } else {
            labels_by(transactions, brewer)
        },
{
    let longer = transactions.push(added);
    let last = transactions.len() as int;
    let expected = if added.brewer == brewer {
        labels_by(transactions, brewer).insert(added.coffee_type)
    } else {
        labels_by(transactions, brewer)
    };
    assert forall|label: Seq<char>| labels_by(longer, brewer).contains(label) implies expected.contains(
        label,
    ) by {
        let i = choose|i: int| brewed_at(longer, brewer, label, i);
        if i < last {
            assert(brewed_at(transactions, brewer, label, i));
        }
    }
    assert forall|label: Seq<char>| expected.contains(label) implies labels_by(
        longer,
        brewer,
    ).contains(label) by {
        if labels_by(transactions, brewer).contains(label) {
            let i = choose|i: int| brewed_at(transactions, brewer, label, i);
            assert(brewed_at(longer, brewer, label, i));
        } else {
            assert(brewed_at(longer, brewer, label, last));
        }
    }
    assert(labels_by(longer, brewer) =~= expected);
}

/// A brewer has brewed finitely many labels.
pub proof fn lemma_labels_finite(transactions: Seq<TransactionView>, brewer: Seq<char>)
    ensures
        labels_by(transactions, brewer).finite(),
    decreases transactions.len(),
{
    if transactions.len() == 0 {
        assert(labels_by(transactions, brewer) =~= Set::empty());
    } else {
        let shorter = transactions.drop_last();
        lemma_labels_finite(shorter, brewer);
        lemma_labels_push(shorter, transactions.last(), brewer);
        assert(shorter.push(transactions.last()) =~= transactions);
    }
}

/// Appending a transaction never takes a label away, and adds at most one.
pub proof fn lemma_labels_grow(
    transactions: Seq<TransactionView>,
    added: TransactionView,
    brewer: Seq<char>,
)
    ensures
        labels_by(transactions, brewer).len() <= labels_by(transactions.push(added), brewer).len(),
        labels_by(transactions.push(added), brewer).len() <= labels_by(transactions, brewer).len()
            + 1,
        added.brewer != brewer ==> labels_by(transactions.push(added), brewer) == labels_by(
            transactions,
            brewer,
        ),
{
    lemma_labels_push(transactions, added, brewer);
    lemma_labels_finite(transactions, brewer);
}

} // verus!
