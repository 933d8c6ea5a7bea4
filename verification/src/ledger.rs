//! The ledger itself: the one place where transactions are created, rewards
//! paid and achievements unlocked.

use crate::achievement::lists;
use crate::achievement::Achievement;
use crate::achievement::AchievementCatalog;
use crate::achievement::AchievementKind;
use crate::clock::unix_seconds;
use crate::hash::generate_fake_hash;
use crate::hash::is_proof_hash;
use crate::laws::law_brew_keeps_consistent;
use crate::laws::law_initial_in_order;
use crate::laws::law_set_user_keeps_history;
use crate::model::brew_input;
use crate::model::labels_by;
use crate::model::lemma_labels_push;
use crate::model::BrewInput;
use crate::model::BrewOutcome;
use crate::model::LedgerState;
use crate::rarity::draw_roll;
use crate::rarity::rarity_for_roll;
use crate::rarity::rarity_of_roll;
use crate::rarity::reward_for;
use crate::rarity::roll_bound;
use crate::rarity::CoffeeRarity;
use crate::transaction::views_of;
use crate::transaction::CoffeeTransaction;
use crate::transaction::TransactionView;
use crate::wallet::BalanceBook;
use std::collections::VecDeque;
use vstd::prelude::*;

verus! {

/// Why a brew was not recorded.
#[derive(Clone, Copy, Debug, PartialEq, Eq, Structural)]
pub enum BrewError {
    /// The system clock is set to a moment before the Unix epoch.
    ClockBeforeEpoch,
    /// The transaction counter has no number left to give out.
    LedgerFull,
    /// The brewer's balance cannot hold what the brew would pay.
    BalanceOverflow,
}

/// What a recorded brew hands back.
#[derive(Debug)]
pub struct BrewResult {
    /// The transaction that was appended.
    pub transaction: CoffeeTransaction,
    /// The achievements that this brew unlocked, in catalog order.
    pub unlocked: Vec<AchievementKind>,
    /// The coins paid for the rarity of the brew.
    pub reward: u32,
}

impl View for BrewResult {
    type V = BrewOutcome;

    open spec fn view(&self) -> BrewOutcome {
        BrewOutcome {
            transaction: self.transaction@,
            unlocked: self.unlocked@,
            reward: self.reward as nat,
        }
    }
}

/// What a brew takes from outside the ledger: the reading of the clock, in
/// seconds since the Unix epoch or `None` where the clock failed, the
/// decorative hash, and the roll that decides the rarity.
pub struct Draw {
    pub clock: Option<u64>,
    pub hash: Seq<char>,
    pub roll: u32,
}

/// The draw made of a clock reading, a hash and a roll.
pub open spec fn draw_of(clock: Option<u64>, hash: Seq<char>, roll: u32) -> Draw {
    Draw { clock, hash, roll }
}

impl Draw {
    /// The brew of `label` that this draw makes, once the clock has given
    /// `seconds`.
    pub open spec fn input(self, label: Seq<char>, seconds: u64) -> BrewInput {
        brew_input(label, seconds, self.hash, rarity_of_roll(self.roll as nat))
    }

    /// Whether the hash and the roll are such as the ledger draws them
    /// itself: a decorative hash, and a roll below the roll bound.
    pub open spec fn regular(self) -> bool {
        is_proof_hash(self.hash) && self.roll < roll_bound()
    }
}

/// Why the brew of `label` with `draw` cannot be recorded in `state`, if it
/// cannot: the clock failed; or else the counter is at its limit; or else the
/// balance of the brewer would pass its limit.
pub open spec fn refusal(state: LedgerState, label: Seq<char>, draw: Draw) -> Option<BrewError> {
    match draw.clock {
        None => Some(BrewError::ClockBeforeEpoch),
        Some(seconds) => {
            if state.current_id >= usize::MAX {
                Some(BrewError::LedgerFull)
            } else if state.brew(draw.input(label, seconds)).balance(state.current_user)
                > u32::MAX {
                Some(BrewError::BalanceOverflow)
            } else {
                None
            }
        },
    }
}

/// What a brew of `label` with `draw` owes: a refused brew leaves the ledger
/// as it was and names the reason, a recorded one makes one brew of the
/// ledger and hands back what that brew made.
pub open spec fn recorded(
    before: LedgerState,
    label: Seq<char>,
    draw: Draw,
    outcome: Result<BrewResult, BrewError>,
    after: LedgerState,
) -> bool {
    match outcome {
        Ok(brew) => {
            &&& refusal(before, label, draw) is None
            &&& draw.clock matches Some(seconds)
            &&& after == before.brew(draw.input(label, seconds))
            &&& brew@ == before.brew_outcome(draw.input(label, seconds))
        },
        Err(error) => {
            &&& refusal(before, label, draw) == Some(error)
            &&& after == before
        },
    }
}

/// What `mine_coffee` owes for a brew of `label`: for some reading of the
/// clock, some decorative hash and some roll below the roll bound, the brew
/// was recorded or refused as a brew with that draw is.
pub open spec fn mined(
    before: LedgerState,
    label: Seq<char>,
    outcome: Result<BrewResult, BrewError>,
    after: LedgerState,
) -> bool {
    exists|draw: Draw| draw.regular() && #[trigger] recorded(before, label, draw, outcome, after)
}

/// The labels of the transactions at the given places.
spec fn labels_at(transactions: Seq<TransactionView>, places: Seq<usize>) -> Seq<Seq<char>> {
    Seq::new(places.len(), |k: int| transactions[places[k] as int].coffee_type)
}

/// Which achievement rules a ledger meets.
struct Earned {
    first_brew: bool,
    rare_find: bool,
    legendary_barista: bool,
}

impl Earned {
    spec fn agrees(self, state: LedgerState, rarity: CoffeeRarity) -> bool {
        &&& self.first_brew == state.earns(AchievementKind::FirstBrew, rarity)
        &&& self.rare_find == state.earns(AchievementKind::RareFind, rarity)
        &&& self.legendary_barista == state.earns(AchievementKind::LegendaryBarista, rarity)
    }
}

/// The ledger of coffee brews.
pub struct CoffeeLedger {
    transactions: VecDeque<CoffeeTransaction>,
    current_id: usize,
    achievements: AchievementCatalog,
    user_balance: BalanceBook,
    current_user: String,
}

impl View for CoffeeLedger {
    type V = LedgerState;

    closed spec fn view(&self) -> LedgerState {
        LedgerState {
            transactions: views_of(self.transactions@),
            current_id: self.current_id as nat,
            unlocked: self.achievements@,
            balances: self.user_balance@,
            current_user: self.current_user@,
        }
    }
}

impl CoffeeLedger {
    /// The catalog and the balances are in order.
    pub closed spec fn parts_wf(&self) -> bool {
        self.achievements.wf() && self.user_balance.wf()
    }

    /// The ledger is in order: its parts are, and its transactions are
    /// numbered from 1 without a gap.
    pub open spec fn wf(&self) -> bool {
        self.parts_wf() && self@.numbered()
    }

    /// What a ledger holds fits the machine integers it is kept in.
    pub proof fn lemma_view_fits(&self)
        ensures
            self@.fits(),
    {
        assert forall|user: Seq<char>| self@.balance(user) <= u32::MAX by {
            self.user_balance.lemma_bounded(user);
        }
    }

    /// A ledger at its start.
    pub fn new() -> (ledger: Self)
        ensures
            ledger.wf(),
            ledger@ == LedgerState::initial(),
            ledger@.consistent(),
    {
        let ledger = CoffeeLedger {
            transactions: VecDeque::new(),
            current_id: 0,
            achievements: AchievementCatalog::new(),
            user_balance: BalanceBook::new(),
            current_user: "CoffeeChain".to_owned(),
        };
        assert(ledger@.transactions =~= Seq::empty());
        proof {
            law_initial_in_order();
        }
        ledger
    }

    /// Makes `username` the current user, or the fallback user if the name is
    /// empty. A user without a balance entry is given the starting grant.
    pub fn set_username(&mut self, username: String)
        requires
            old(self).wf(),
        ensures
            final(self).wf(),
            final(self)@ == old(self)@.set_user(username@),
            old(self)@.consistent() ==> final(self)@.consistent(),
    {
        proof {
            law_set_user_keeps_history(self@, username@);
        }
        if !username.as_str().is_empty() {
            self.current_user = username;
        } else {
            self.current_user = "Anonymous".to_owned();
        }
        self.user_balance.open(self.current_user.as_str(), 10);
    }

    /// The name of the current user.
    pub fn current_user(&self) -> (name: &str)
        ensures
            name@ == self@.current_user,
    {
        self.current_user.as_str()
    }

    /// The number of transactions recorded so far.
    pub fn transaction_count(&self) -> (count: usize)
        ensures
            count == self@.transactions.len(),
    {
        self.transactions.len()
    }

    /// The coins of `user`: zero for somebody who was never credited.
    pub fn balance_of(&self, user: &str) -> (coins: u32)
        requires
            self.wf(),
        ensures
            coins == self@.balance(user@),
    {
        self.user_balance.balance_of(user)
    }

    /// Whether `kind` is unlocked.
    pub fn is_unlocked(&self, kind: AchievementKind) -> (unlocked: bool)
        requires
            self.wf(),
        ensures
            unlocked == self@.unlocked.contains(kind),
    {
        self.achievements.is_unlocked(kind)
    }

    /// Every achievement of the catalog with its unlock flag, in catalog
    /// order.
    pub fn all_achievements(&self) -> (listing: &Vec<Achievement>)
        requires
            self.wf(),
        ensures
            lists(listing@, self@.unlocked),
    {
        self.achievements.all()
    }

    /// Up to `count` of the latest transactions, the most recent first.
    pub fn recent_transactions(&self, count: usize) -> (recent: Vec<CoffeeTransaction>)
        ensures
            views_of(recent@) == self@.recent(count as nat),
    {
        let total = self.transactions.len();
        let shown = if count < total {
            count
        } else {
            total
        };
        let mut recent: Vec<CoffeeTransaction> = Vec::new();
        let mut taken: usize = 0;
        while taken < shown
            invariant
                total == self.transactions@.len(),
                taken <= shown <= total,
                recent@.len() == taken,
                forall|k: int|
                    0 <= k < taken ==> (#[trigger] recent@[k])@ == self.transactions@[total - 1
                        - k]@,
            decreases shown - taken,
        {
            recent.push(self.transactions[total - 1 - taken].clone());
            taken += 1;
        }
        assert(views_of(recent@) =~= self@.recent(count as nat));
        recent
    }

    /// Whether one of the transactions at `places` carries `label`.
    fn lists_label(&self, places: &Vec<usize>, label: &String) -> (known: bool)
        requires
            forall|k: int| 0 <= k < places@.len() ==> places@[k] < self.transactions@.len(),
        ensures
            known == labels_at(self@.transactions, places@).contains(label@),
    {
        let ghost labels = labels_at(self@.transactions, places@);
        let mut at: usize = 0;
        while at < places.len()
            invariant
                at <= places@.len(),
                labels == labels_at(self@.transactions, places@),
                forall|k: int| 0 <= k < places@.len() ==> places@[k] < self.transactions@.len(),
                forall|k: int| 0 <= k < at ==> labels[k] != label@,
            decreases places@.len() - at,
        {
            let place = places[at];
            assert(place < self.transactions@.len());
            if self.transactions[place].coffee_type == *label {
                assert(labels[at as int] == label@);
                return true;
            }
            at += 1;
        }
        false
    }

    /// The number of distinct coffee labels that `brewer` has brewed.
    fn distinct_label_count(&self, brewer: &String) -> (count: usize)
        ensures
            count == labels_by(self@.transactions, brewer@).len(),
    {
        let ghost all = self@.transactions;
        let mut firsts: Vec<usize> = Vec::new();
        let mut index: usize = 0;
        assert(all.subrange(0, 0) =~= Seq::empty());
        assert(labels_by(all.subrange(0, 0), brewer@) =~= Set::empty());
        assert(labels_at(all, firsts@).to_set() =~= Set::empty());
        while index < self.transactions.len()
            invariant
                index <= self.transactions@.len(),
                all == self@.transactions,
                forall|k: int| 0 <= k < firsts@.len() ==> firsts@[k] < self.transactions@.len(),
                labels_at(all, firsts@).no_duplicates(),
                labels_at(all, firsts@).to_set() == labels_by(
                    all.subrange(0, index as int),
                    brewer@,
                ),
            decreases self.transactions@.len() - index,
        {
            let ghost seen = labels_at(all, firsts@);
            let current = &self.transactions[index];
            proof {
                lemma_labels_push(all.subrange(0, index as int), all[index as int], brewer@);
                assert(all.subrange(0, index as int).push(all[index as int]) =~= all.subrange(
                    0,
                    index + 1,
                ));
            }
            if current.brewer == *brewer {
                let known = self.lists_label(&firsts, &current.coffee_type);
                if !known {
                    firsts.push(index);
                    proof {
                        let grown = labels_at(all, firsts@);
                        assert(grown =~= seen.push(current.coffee_type@));
                        assert(grown.to_set() =~= seen.to_set().insert(current.coffee_type@)) by {
                            assert forall|label: Seq<char>|
                                grown.contains(label) <==> seen.contains(label) || label
                                    == current.coffee_type@ by {
                                if grown.contains(label) {
                                    let k = choose|k: int| 0 <= k < grown.len() && grown[k] == label;
                                    if k < seen.len() {
                                        assert(seen[k] == label);
                                    }
                                }
                                if seen.contains(label) {
                                    let k = choose|k: int| 0 <= k < seen.len() && seen[k] == label;
                                    assert(grown[k] == label);
                                }
                                if label == current.coffee_type@ {
                                    assert(grown[seen.len() as int] == label);
                                }
                            }
                        }
                    }
                } else {
                    assert(seen.to_set().insert(current.coffee_type@) =~= seen.to_set());
                }
            }
            index += 1;
        }
        proof {
            assert(all.subrange(0, index as int) =~= all);
            labels_at(all, firsts@).unique_seq_to_set();
        }
        firsts.len()
    }

    /// Which achievement rules the ledger meets, given the rarity of its last
    /// transaction.
    fn rules_met(&self, rarity: CoffeeRarity) -> (earned: Earned)
        ensures
            earned.agrees(self@, rarity),
    {
        Earned {
            first_brew: self.transactions.len() == 1,
            rare_find: rarity.prized(),
            legendary_barista: self.distinct_label_count(&self.current_user) >= 3,
        }
    }

    /// The coins that the evaluation of the rules would pay.
    fn pending_payout(&self, earned: &Earned, Ghost(rarity): Ghost<CoffeeRarity>) -> (coins: u32)
        requires
            self.wf(),
            earned.agrees(self@, rarity),
        ensures
            coins == self@.unlock_payout(rarity),
    {
        let mut coins: u32 = 0;
        if earned.first_brew && !self.achievements.is_unlocked(AchievementKind::FirstBrew) {
            coins = coins + AchievementKind::FirstBrew.coins();
        }
        if earned.rare_find && !self.achievements.is_unlocked(AchievementKind::RareFind) {
            coins = coins + AchievementKind::RareFind.coins();
        }
        if earned.legendary_barista && !self.achievements.is_unlocked(
            AchievementKind::LegendaryBarista,
        ) {
            coins = coins + AchievementKind::LegendaryBarista.coins();
        }
        coins
    }

    /// Unlocks `kind` and pays its reward to `brewer_name`, unless it is
    /// unlocked already. Says whether this call unlocked it.
    fn unlock_achievement(&mut self, kind: AchievementKind, brewer_name: &str) -> (fresh: bool)
        requires
            old(self).wf(),
            old(self)@.unlock(kind, brewer_name@).balance(brewer_name@) <= u32::MAX,
        ensures
            final(self).wf(),
            final(self)@ == old(self)@.unlock(kind, brewer_name@),
            fresh == !old(self)@.unlocked.contains(kind),
    {
        let fresh = self.achievements.unlock(kind);
        if fresh {
            self.user_balance.credit(brewer_name, kind.coins());
        } else {
            assert(self.achievements@ =~= old(self).achievements@);
        }
        fresh
    }

    /// Unlocks what the met rules newly unlock, and pays the current user.
    fn grant(&mut self, earned: &Earned, Ghost(rarity): Ghost<CoffeeRarity>) -> (fired: Vec<
        AchievementKind,
    >)
        requires
            old(self).wf(),
            earned.agrees(old(self)@, rarity),
            old(self)@.evaluate(rarity).balance(old(self)@.current_user) <= u32::MAX,
        ensures
            final(self).wf(),
            final(self)@ == old(self)@.evaluate(rarity),
            fired@ == old(self)@.newly_unlocked(rarity),
    {
        let ghost start = self@;
        let brewer = self.current_user.clone();
        let mut fired: Vec<AchievementKind> = Vec::new();
        if earned.first_brew {
            if self.unlock_achievement(AchievementKind::FirstBrew, brewer.as_str()) {
                fired.push(AchievementKind::FirstBrew);
            }
        }
        assert(fired@ =~= start.fired(AchievementKind::FirstBrew, rarity));
        if earned.rare_find {
            if self.unlock_achievement(AchievementKind::RareFind, brewer.as_str()) {
                fired.push(AchievementKind::RareFind);
            }
        }
        assert(fired@ =~= start.fired(AchievementKind::FirstBrew, rarity) + start.fired(
            AchievementKind::RareFind,
            rarity,
        ));
        if earned.legendary_barista {
            if self.unlock_achievement(AchievementKind::LegendaryBarista, brewer.as_str()) {
                fired.push(AchievementKind::LegendaryBarista);
            }
        }
        assert(fired@ =~= start.newly_unlocked(rarity));
        assert(self@.unlocked =~= start.evaluate(rarity).unlocked);
        assert(self@.balances =~= start.evaluate(rarity).balances);
        fired
    }

    /// Evaluates the achievement rules on a ledger whose last transaction, of
    /// the given rarity, was brewed by the current user. What a rule newly
    /// unlocks is unlocked and paid to the current user; the achievements
    /// unlocked by this call come back in catalog order.
    pub fn check_achievements(&mut self, rarity: &CoffeeRarity) -> (fired: Vec<AchievementKind>)
        requires
            old(self).wf(),
            old(self)@.evaluate(*rarity).balance(old(self)@.current_user) <= u32::MAX,
        ensures
            final(self).wf(),
            final(self)@ == old(self)@.evaluate(*rarity),
            fired@ == old(self)@.newly_unlocked(*rarity),
    {
        let earned = self.rules_met(*rarity);
        self.grant(&earned, Ghost(*rarity))
    }

    /// Records one brew of `coffee_type` by the current user, given what the
    /// clock, the hash generator and the rarity roll came up with: appends
    /// the transaction, evaluates the achievement rules and pays the reward
    /// of the rarity. A brew without a clock reading, or one that the machine
    /// integers cannot hold, is refused and changes nothing.
    pub fn record_brew(
        &mut self,
        coffee_type: &str,
        clock: Option<u64>,
        hash: String,
        roll: u32,
    ) -> (outcome: Result<BrewResult, BrewError>)
        requires
            old(self).wf(),
        ensures
            final(self).wf(),
            recorded(old(self)@, coffee_type@, draw_of(clock, hash@, roll), outcome, final(self)@),
            old(self)@.consistent() ==> final(self)@.consistent(),
    {
        let ghost before = self@;
        let timestamp = match clock {
            Some(seconds) => seconds,
            None => {
                return Err(BrewError::ClockBeforeEpoch);
            },
        };
        let rarity = rarity_for_roll(roll);
        let ghost input = draw_of(clock, hash@, roll).input(coffee_type@, timestamp);
        if self.current_id == usize::MAX {
            return Err(BrewError::LedgerFull);
        }
        let id = self.current_id + 1;
        let transaction = CoffeeTransaction {
            id,
            coffee_type: coffee_type.to_owned(),
            timestamp,
            proof_of_coffee_hash: hash,
            rarity,
            brewer: self.current_user.clone(),
        };
        let receipt = transaction.clone();
        assert(transaction@ == before.next_transaction(input));
        self.transactions.push_back(transaction);
        self.current_id = id;
        assert(self@.transactions =~= before.append(input).transactions);
        assert(self@ == before.append(input));

        let earned = self.rules_met(rarity);
        let reward = reward_for(rarity);
        let payout = self.pending_payout(&earned, Ghost(rarity)) + reward;
        let balance = self.user_balance.balance_of(self.current_user.as_str());
        assert(before.brew(input).balance(before.current_user) == balance + payout);
        if balance > u32::MAX - payout {
            self.transactions.pop_back();
            self.current_id = id - 1;
            assert(self.transactions@ =~= old(self).transactions@);
            return Err(BrewError::BalanceOverflow);
        }
        let fired = self.grant(&earned, Ghost(rarity));
        self.user_balance.credit(self.current_user.as_str(), reward);
        proof {
            if before.consistent() {
                law_brew_keeps_consistent(before, input);
            }
        }
        Ok(BrewResult { transaction: receipt, unlocked: fired, reward })
    }

    /// Brews `coffee_type` for the current user: reads the clock, draws a
    /// decorative hash, rolls the rarity and records the brew.
    pub fn mine_coffee(&mut self, coffee_type: &str) -> (outcome: Result<BrewResult, BrewError>)
        requires
            old(self).wf(),
        ensures
            final(self).wf(),
            mined(old(self)@, coffee_type@, outcome, final(self)@),
            old(self)@.consistent() ==> final(self)@.consistent(),
    {
        let clock = unix_seconds();
        let hash = generate_fake_hash();
        let roll = draw_roll();
        let ghost draw = draw_of(clock, hash@, roll);
        let outcome = self.record_brew(coffee_type, clock, hash, roll);
        assert(draw.regular() && recorded(old(self)@, coffee_type@, draw, outcome, self@));
        outcome
    }
}

} // verus!
