//! What holds of every ledger, proved of the model that the executable
//! ledger is specified against.

use crate::achievement::AchievementKind;
use crate::model::brewed_at;
use crate::model::brews_in;
use crate::model::label_goal;
use crate::model::labels_by;
use crate::model::lemma_labels_finite;
use crate::model::lemma_labels_grow;
use crate::model::lemma_labels_push;
use crate::model::rarity_rewards;
use crate::model::rewards_gained;
use crate::model::starting_grant;
use crate::model::BrewInput;
use crate::model::LedgerOp;
use crate::model::LedgerState;
use crate::rarity::reward_of;
use crate::rarity::CoffeeRarity;
use vstd::prelude::*;

verus! {

/// An evaluation hands back exactly the achievements that it unlocks.
pub proof fn law_handed_back_is_unlocked(
    state: LedgerState,
    rarity: CoffeeRarity,
    kind: AchievementKind,
)
    ensures
        state.newly_unlocked(rarity).contains(kind) <==> state.unlocks(kind, rarity),
{
    let first = state.fired(AchievementKind::FirstBrew, rarity);
    let second = state.fired(AchievementKind::RareFind, rarity);
    let third = state.fired(AchievementKind::LegendaryBarista, rarity);
    let all = state.newly_unlocked(rarity);
    if state.unlocks(kind, rarity) {
        match kind {
            AchievementKind::FirstBrew => {
                assert(all[0] == kind);
            },
            AchievementKind::RareFind => {
                assert(all[first.len() as int] == kind);
            },
            AchievementKind::LegendaryBarista => {
                assert(all[(first.len() + second.len()) as int] == kind);
            },
        }
    }
    if all.contains(kind) {
        let i = choose|i: int| 0 <= i < all.len() && all[i] == kind;
        if i < first.len() {
            assert(first[i] == kind);
        } else if i < first.len() + second.len() {
            assert(second[i - first.len()] == kind);
        } else {
            assert(third[i - first.len() - second.len()] == kind);
        }
    }
}

/// A ledger at its start is in order: it holds no transaction, and none of
/// its achievements is unlocked.
pub proof fn law_initial_in_order()
    ensures
        LedgerState::initial().numbered(),
        LedgerState::initial().consistent(),
{
    let start = LedgerState::initial();
    assert(!start.has_prized());
    assert(!start.has_barista());
}

/// Evaluating the achievement rules a second time changes nothing and hands
/// nothing back.
pub proof fn law_evaluation_is_idempotent(state: LedgerState, rarity: CoffeeRarity)
    ensures
        state.evaluate(rarity).evaluate(rarity) == state.evaluate(rarity),
        state.evaluate(rarity).newly_unlocked(rarity) == Seq::<AchievementKind>::empty(),
{
    let once = state.evaluate(rarity);
    let twice = once.evaluate(rarity);
    assert(twice.unlocked =~= once.unlocked);
    assert(once.newly_unlocked(rarity) =~= Seq::<AchievementKind>::empty());
}

/// The achievement rules can be applied one by one, in any order: the
/// outcome is that of evaluating them together.
pub proof fn law_rules_in_any_order(
    state: LedgerState,
    rarity: CoffeeRarity,
    first: AchievementKind,
    second: AchievementKind,
    third: AchievementKind,
)
    requires
        first != second,
        first != third,
        second != third,
    ensures
        state.apply_rule(first, rarity).apply_rule(second, rarity).apply_rule(third, rarity)
            == state.evaluate(rarity),
{
    let one = state.apply_rule(first, rarity);
    let two = one.apply_rule(second, rarity);
    let three = two.apply_rule(third, rarity);
    let together = state.evaluate(rarity);
    assert(three.unlocked =~= together.unlocked);
    assert(three.balances =~= together.balances);
}

/// A brew appends exactly one transaction, whose id is one more than the
/// number of transactions before it; everything recorded earlier stays as it
/// was.
pub proof fn law_brew_appends_one(state: LedgerState, input: BrewInput)
    requires
        state.numbered(),
    ensures
        state.brew(input).numbered(),
        state.brew(input).transactions == state.transactions.push(state.next_transaction(input)),
        state.brew_outcome(input).transaction.id == state.transactions.len() + 1,
        state.brew(input).current_user == state.current_user,
{
}

/// A brew keeps the unlock flags in agreement with the history.
pub proof fn law_brew_keeps_consistent(state: LedgerState, input: BrewInput)
    requires
        state.consistent(),
    ensures
        state.brew(input).consistent(),
{
    let user = state.current_user;
    let added = state.next_transaction(input);
    let after = state.brew(input);
    let last = state.transactions.len() as int;
    assert(after.transactions == state.transactions.push(added));
    assert(after.transactions[last] == added);

    // The first brew.
    assert(after.unlocked.contains(AchievementKind::FirstBrew));

    // The rare find.
    if after.unlocked.contains(AchievementKind::RareFind) {
        if state.unlocked.contains(AchievementKind::RareFind) {
            let i = choose|i: int|
                0 <= i < state.transactions.len() && (
                #[trigger] state.transactions[i]).rarity.is_prized();
            assert(after.transactions[i].rarity.is_prized());
        } else {
            assert(after.transactions[last].rarity.is_prized());
        }
    }
    if after.has_prized() {
        let i = choose|i: int|
            0 <= i < after.transactions.len() && (
            #[trigger] after.transactions[i]).rarity.is_prized();
        if i < last {
            assert(state.transactions[i].rarity.is_prized());
        }
    }

    // The legendary barista.
    if after.unlocked.contains(AchievementKind::LegendaryBarista) {
        if state.unlocked.contains(AchievementKind::LegendaryBarista) {
            let i = choose|i: int|
                0 <= i < state.transactions.len() && labels_by(
                    state.transactions,
                    (#[trigger] state.transactions[i]).brewer,
                ).len() >= label_goal();
            lemma_labels_grow(state.transactions, added, state.transactions[i].brewer);
            assert(after.transactions[i].brewer == state.transactions[i].brewer);
        } else {
            assert(after.transactions[last].brewer == user);
        }
    }
    if after.has_barista() {
        let i = choose|i: int|
            0 <= i < after.transactions.len() && labels_by(
                after.transactions,
                (#[trigger] after.transactions[i]).brewer,
            ).len() >= label_goal();
        let brewer = after.transactions[i].brewer;
        if brewer != user {
            lemma_labels_grow(state.transactions, added, brewer);
            assert(state.transactions[i].brewer == brewer);
        }
    }
}

/// Once a brew is recorded, evaluating the achievement rules for it again
/// changes nothing and hands nothing back.
pub proof fn law_reevaluation_changes_nothing(state: LedgerState, rarity: CoffeeRarity)
    requires
        state.consistent(),
        state.transactions.len() > 0,
        state.transactions.last().rarity == rarity,
        state.transactions.last().brewer == state.current_user,
    ensures
        state.evaluate(rarity) == state,
        state.newly_unlocked(rarity) == Seq::<AchievementKind>::empty(),
{
    let last = state.transactions.len() - 1;
    assert(state.transactions[last] == state.transactions.last());
    assert(state.unlocked.contains(AchievementKind::FirstBrew));
    if rarity.is_prized() {
        assert(state.transactions[last].rarity.is_prized());
    }
    if state.earns(AchievementKind::LegendaryBarista, rarity) {
        assert(labels_by(state.transactions, state.transactions[last].brewer).len()
            >= label_goal());
    }
    assert(state.evaluate(rarity).unlocked =~= state.unlocked);
    assert(state.newly_unlocked(rarity) =~= Seq::<AchievementKind>::empty());
}

/// Setting the user touches neither the history nor the unlock flags.
pub proof fn law_set_user_keeps_history(state: LedgerState, name: Seq<char>)
    ensures
        state.set_user(name).transactions == state.transactions,
        state.set_user(name).current_id == state.current_id,
        state.set_user(name).unlocked == state.unlocked,
        state.numbered() ==> state.set_user(name).numbered(),
        state.consistent() ==> state.set_user(name).consistent(),
{
    let after = state.set_user(name);
    if state.consistent() {
        if state.has_prized() {
            let i = choose|i: int|
                0 <= i < state.transactions.len() && (
                #[trigger] state.transactions[i]).rarity.is_prized();
            assert(after.transactions[i].rarity.is_prized());
        }
        if state.has_barista() {
            let i = choose|i: int|
                0 <= i < state.transactions.len() && labels_by(
                    state.transactions,
                    (#[trigger] state.transactions[i]).brewer,
                ).len() >= label_goal();
            assert(labels_by(after.transactions, after.transactions[i].brewer).len()
                >= label_goal());
        }
    }
}

/// Whatever calls were made on a new ledger, its transactions are numbered
/// 1, 2, 3 and so on in the order of the brews, its unlock flags agree with
/// its history, and the next brew is handed the id that follows the number
/// of brews made so far.
pub proof fn law_ids_count_up(ops: Seq<LedgerOp>, next: BrewInput)
    ensures
        LedgerState::initial().run(ops).numbered(),
        LedgerState::initial().run(ops).consistent(),
        LedgerState::initial().run(ops).transactions.len() == brews_in(ops),
        LedgerState::initial().run(ops).brew_outcome(next).transaction.id == brews_in(ops) + 1,
    decreases ops.len(),
{
    let start = LedgerState::initial();
    if ops.len() == 0 {
        law_initial_in_order();
    } else {
        let before = start.run(ops.drop_last());
        law_ids_count_up(ops.drop_last(), next);
        match ops.last() {
            LedgerOp::SetUser(name) => {
                law_set_user_keeps_history(before, name);
            },
            LedgerOp::Brew(input) => {
                law_brew_appends_one(before, input);
                law_brew_keeps_consistent(before, input);
            },
        }
    }
}

/// The first-brew achievement is unlocked by the brew that finds the ledger
/// empty, whoever brews, and by no other.
pub proof fn law_first_brew_once(state: LedgerState, input: BrewInput)
    requires
        state.consistent(),
    ensures
        state.brew_outcome(input).unlocked.contains(AchievementKind::FirstBrew)
            <==> state.transactions.len() == 0,
        state.brew(input).unlocked.contains(AchievementKind::FirstBrew),
{
    law_handed_back_is_unlocked(
        state.append(input),
        input.rarity,
        AchievementKind::FirstBrew,
    );
}

/// The rare-find achievement is unlocked by the first brew whose rarity is
/// Rare or Legendary, and is unlocked from then on.
pub proof fn law_rare_find_once(state: LedgerState, input: BrewInput)
    requires
        state.consistent(),
    ensures
        state.brew_outcome(input).unlocked.contains(AchievementKind::RareFind) <==> (
        input.rarity.is_prized() && !state.has_prized()),
        state.brew(input).unlocked.contains(AchievementKind::RareFind) <==> (
        input.rarity.is_prized() || state.has_prized()),
{
    law_handed_back_is_unlocked(state.append(input), input.rarity, AchievementKind::RareFind);
}

/// While the legendary-barista achievement is locked, no brewer has reached
/// the goal of distinct labels.
pub proof fn law_locked_barista_below_goal(state: LedgerState, brewer: Seq<char>)
    requires
        state.consistent(),
        !state.unlocked.contains(AchievementKind::LegendaryBarista),
    ensures
        labels_by(state.transactions, brewer).len() < label_goal(),
{
    let labels = labels_by(state.transactions, brewer);
    lemma_labels_finite(state.transactions, brewer);
    if labels.len() != 0 {
        let label = labels.choose();
        assert(labels.contains(label));
        let i = choose|i: int| brewed_at(state.transactions, brewer, label, i);
        assert(state.transactions[i].brewer == brewer);
    }
}

/// While the legendary-barista achievement is locked, a brew unlocks it
/// exactly if it takes the distinct labels of its brewer to the goal: the
/// brewer had one label less than the goal, and the label brewed is new.
pub proof fn law_legendary_barista_at_goal(state: LedgerState, input: BrewInput)
    requires
        state.consistent(),
        !state.unlocked.contains(AchievementKind::LegendaryBarista),
    ensures
        state.brew_outcome(input).unlocked.contains(AchievementKind::LegendaryBarista) <==> (
        labels_by(state.transactions, state.current_user).len() + 1 == label_goal()
            && !labels_by(state.transactions, state.current_user).contains(input.label)),
        state.brew_outcome(input).unlocked.contains(AchievementKind::LegendaryBarista)
            <==> labels_by(state.brew(input).transactions, state.current_user).len()
            == label_goal(),
{
    let user = state.current_user;
    let appended = state.append(input);
    law_handed_back_is_unlocked(appended, input.rarity, AchievementKind::LegendaryBarista);
    law_locked_barista_below_goal(state, user);
    lemma_labels_push(state.transactions, state.next_transaction(input), user);
    lemma_labels_finite(state.transactions, user);
}

/// Once unlocked, an achievement is handed back by no later brew.
pub proof fn law_unlocked_once(state: LedgerState, input: BrewInput, kind: AchievementKind)
    requires
        state.unlocked.contains(kind),
    ensures
        !state.brew_outcome(input).unlocked.contains(kind),
{
    law_handed_back_is_unlocked(state.append(input), input.rarity, kind);
}

/// No call locks an achievement again, and what a brew hands back as
/// unlocked is unlocked after it.
pub proof fn law_unlocks_never_revert(state: LedgerState, op: LedgerOp, kind: AchievementKind)
    ensures
        state.unlocked.contains(kind) ==> state.step(op).unlocked.contains(kind),
        op matches LedgerOp::Brew(input) && state.brew_outcome(input).unlocked.contains(kind)
            ==> state.step(op).unlocked.contains(kind),
{
    if let LedgerOp::Brew(input) = op {
        law_handed_back_is_unlocked(state.append(input), input.rarity, kind);
    }
}

/// No call takes coins away from anybody.
pub proof fn law_balances_never_decrease(state: LedgerState, op: LedgerOp, user: Seq<char>)
    ensures
        state.balance(user) <= state.step(op).balance(user),
{
}

/// Whatever calls are made, nothing is taken back: what was recorded stays
/// at the front of the history as it was, what was unlocked stays unlocked,
/// and nobody has fewer coins than before.
pub proof fn law_nothing_is_taken_back(state: LedgerState, ops: Seq<LedgerOp>)
    ensures
        state.transactions.is_prefix_of(state.run(ops).transactions),
        state.unlocked.subset_of(state.run(ops).unlocked),
        forall|user: Seq<char>| state.balance(user) <= #[trigger] state.run(ops).balance(user),
    decreases ops.len(),
{
    if ops.len() > 0 {
        let middle = state.run(ops.drop_last());
        let after = state.run(ops);
        law_nothing_is_taken_back(state, ops.drop_last());
        assert(middle.transactions.is_prefix_of(after.transactions)) by {
            if let LedgerOp::Brew(input) = ops.last() {
                assert(after.transactions == middle.transactions.push(
                    middle.next_transaction(input),
                ));
            }
        }
        assert forall|kind: AchievementKind| state.unlocked.contains(kind) implies after.unlocked.contains(
            kind,
        ) by {
            law_unlocks_never_revert(middle, ops.last(), kind);
        }
        assert forall|user: Seq<char>| state.balance(user) <= #[trigger] after.balance(user) by {
            law_balances_never_decrease(middle, ops.last(), user);
        }
    }
}

/// A brew pays its brewer the reward of the rarity and the rewards of the
/// achievements it unlocks, and pays nobody else.
pub proof fn law_brew_pays_brewer(state: LedgerState, input: BrewInput, user: Seq<char>)
    ensures
        state.brew(input).balance(state.current_user) == state.balance(state.current_user)
            + reward_of(input.rarity) + rewards_gained(state.unlocked, state.brew(input).unlocked),
        user != state.current_user ==> state.brew(input).balance(user) == state.balance(user),
        state.brew(input).balances.dom().contains(state.current_user),
{
}

/// After any number of brews by one user, the balance of that user is what
/// it was before them, plus the rewards of the rarities brewed, plus the
/// rewards of the achievements unlocked by these brews.
pub proof fn law_balance_after_brews(state: LedgerState, inputs: Seq<BrewInput>)
    ensures
        state.brew_all(inputs).current_user == state.current_user,
        state.unlocked.subset_of(state.brew_all(inputs).unlocked),
        state.brew_all(inputs).balance(state.current_user) == state.balance(state.current_user)
            + rarity_rewards(inputs) + rewards_gained(
            state.unlocked,
            state.brew_all(inputs).unlocked,
        ),
    decreases inputs.len(),
{
    if inputs.len() > 0 {
        let middle = state.brew_all(inputs.drop_last());
        law_balance_after_brews(state, inputs.drop_last());
        law_brew_pays_brewer(middle, inputs.last(), state.current_user);
        assert forall|kind: AchievementKind| middle.unlocked.contains(kind) implies middle.brew(
            inputs.last(),
        ).unlocked.contains(kind) by {
            law_unlocks_never_revert(middle, LedgerOp::Brew(inputs.last()), kind);
        }
    }
}

/// A user who is set by name for the first time starts with the grant, and
/// the brews that follow add to it as `law_balance_after_brews` says.
pub proof fn law_new_user_starts_with_grant(
    state: LedgerState,
    name: Seq<char>,
    inputs: Seq<BrewInput>,
)
    requires
        !state.balances.dom().contains(LedgerState::user_named(name)),
    ensures
        state.set_user(name).balance(LedgerState::user_named(name)) == starting_grant(),
        state.set_user(name).brew_all(inputs).balance(LedgerState::user_named(name))
            == starting_grant() + rarity_rewards(inputs) + rewards_gained(
            state.unlocked,
            state.set_user(name).brew_all(inputs).unlocked,
        ),
{
    law_balance_after_brews(state.set_user(name), inputs);
}

/// A user who was seen before keeps the balance when set again.
pub proof fn law_known_user_keeps_balance(state: LedgerState, name: Seq<char>, user: Seq<char>)
    requires
        state.balances.dom().contains(LedgerState::user_named(name)),
    ensures
        state.set_user(name).balance(user) == state.balance(user),
{
}

} // verus!
