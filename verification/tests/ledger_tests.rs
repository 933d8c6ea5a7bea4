use proof_of_coffee::achievement::AchievementKind;
use proof_of_coffee::ledger::BrewError;
use proof_of_coffee::ledger::BrewResult;
use proof_of_coffee::ledger::CoffeeLedger;
use proof_of_coffee::rarity::CoffeeRarity;

const COMMON: u32 = 50;
const UNCOMMON: u32 = 20;
const RARE: u32 = 5;
const LEGENDARY: u32 = 0;

fn brew(ledger: &mut CoffeeLedger, label: &str, roll: u32) -> BrewResult {
    ledger
        .record_brew(
            label,
            Some(1_700_000_000),
            "proof-of-coffee-0123456789".to_string(),
            roll,
        )
        .unwrap()
}

fn ledger_of(user: &str) -> CoffeeLedger {
    let mut ledger = CoffeeLedger::new();
    ledger.set_username(user.to_string());
    ledger
}

#[test]
fn new_ledger_is_empty() {
    let ledger = CoffeeLedger::new();
    assert_eq!(ledger.transaction_count(), 0);
    assert_eq!(ledger.current_user(), "CoffeeChain");
    assert_eq!(ledger.balance_of("CoffeeChain"), 0);
    assert!(ledger.recent_transactions(5).is_empty());
    assert!(!ledger.is_unlocked(AchievementKind::FirstBrew));
    assert!(!ledger.is_unlocked(AchievementKind::RareFind));
    assert!(!ledger.is_unlocked(AchievementKind::LegendaryBarista));
}

#[test]
fn empty_name_becomes_anonymous_with_the_grant() {
    let mut ledger = CoffeeLedger::new();
    ledger.set_username(String::new());
    assert_eq!(ledger.current_user(), "Anonymous");
    assert_eq!(ledger.balance_of("Anonymous"), 10);
}

#[test]
fn anonymous_keeps_a_prior_balance() {
    let mut ledger = ledger_of("Anonymous");
    brew(&mut ledger, "Latte", COMMON);
    assert_eq!(ledger.balance_of("Anonymous"), 65);
    ledger.set_username("Ann".to_string());
    ledger.set_username(String::new());
    assert_eq!(ledger.current_user(), "Anonymous");
    assert_eq!(ledger.balance_of("Anonymous"), 65);
}

#[test]
fn a_name_selects_its_user_and_grants_once() {
    let mut ledger = ledger_of("Ann");
    assert_eq!(ledger.current_user(), "Ann");
    assert_eq!(ledger.balance_of("Ann"), 10);
    ledger.set_username("Ann".to_string());
    assert_eq!(ledger.balance_of("Ann"), 10);
    ledger.set_username("Bob".to_string());
    assert_eq!(ledger.current_user(), "Bob");
    assert_eq!(ledger.balance_of("Bob"), 10);
    assert_eq!(ledger.balance_of("Ann"), 10);
}

#[test]
fn a_user_never_seen_has_no_coins() {
    let ledger = ledger_of("Ann");
    assert_eq!(ledger.balance_of("Bob"), 0);
    assert_eq!(ledger.balance_of(""), 0);
}

#[test]
fn the_initial_user_brews_without_a_grant() {
    let mut ledger = CoffeeLedger::new();
    let result = brew(&mut ledger, "Latte", COMMON);
    assert_eq!(result.transaction.brewer, "CoffeeChain");
    assert_eq!(ledger.balance_of("CoffeeChain"), 55);
    ledger.set_username("CoffeeChain".to_string());
    assert_eq!(ledger.balance_of("CoffeeChain"), 55);
}

#[test]
fn brew_hands_back_the_transaction_it_made() {
    let mut ledger = ledger_of("Ann");
    let result = ledger
        .record_brew("Flat White", Some(42), "any text".to_string(), UNCOMMON)
        .unwrap();
    assert_eq!(result.transaction.id, 1);
    assert_eq!(result.transaction.coffee_type, "Flat White");
    assert_eq!(result.transaction.timestamp, 42);
    assert_eq!(result.transaction.proof_of_coffee_hash, "any text");
    assert_eq!(result.transaction.rarity, CoffeeRarity::Uncommon);
    assert_eq!(result.transaction.brewer, "Ann");
    assert_eq!(result.reward, 10);
    assert_eq!(ledger.transaction_count(), 1);
}

#[test]
fn ids_count_up_from_one_without_gaps() {
    let mut ledger = ledger_of("Ann");
    for expected in 1..=25usize {
        let result = brew(&mut ledger, "Latte", COMMON);
        assert_eq!(result.transaction.id, expected);
        assert_eq!(ledger.transaction_count(), expected);
    }
    let all = ledger.recent_transactions(25);
    for (behind, transaction) in all.iter().enumerate() {
        assert_eq!(transaction.id, 25 - behind);
    }
}

#[test]
fn ids_count_up_across_users() {
    let mut ledger = CoffeeLedger::new();
    assert_eq!(brew(&mut ledger, "Latte", COMMON).transaction.id, 1);
    ledger.set_username("Ann".to_string());
    assert_eq!(brew(&mut ledger, "Latte", RARE).transaction.id, 2);
    ledger.set_username("Bob".to_string());
    assert_eq!(brew(&mut ledger, "Mocha", LEGENDARY).transaction.id, 3);
    ledger.set_username("Ann".to_string());
    assert_eq!(brew(&mut ledger, "", UNCOMMON).transaction.id, 4);
}

#[test]
fn mined_coffee_is_stamped_and_numbered() {
    let mut ledger = ledger_of("Ann");
    for expected in 1..=5usize {
        let result = ledger.mine_coffee("Espresso").unwrap();
        let transaction = &result.transaction;
        assert_eq!(transaction.id, expected);
        assert_eq!(transaction.coffee_type, "Espresso");
        assert_eq!(transaction.brewer, "Ann");
        assert!(transaction.timestamp >= 1_600_000_000);
        assert_eq!(transaction.proof_of_coffee_hash.len(), 26);
        assert!(transaction.proof_of_coffee_hash.starts_with("proof-of-coffee-"));
        let expected_reward = match transaction.rarity {
            CoffeeRarity::Common => 5,
            CoffeeRarity::Uncommon => 10,
            CoffeeRarity::Rare => 25,
            CoffeeRarity::Legendary => 50,
        };
        assert_eq!(result.reward, expected_reward);
    }
    assert_eq!(ledger.transaction_count(), 5);
}

#[test]
fn mined_coffee_pays_what_it_hands_back() {
    let mut ledger = ledger_of("Ann");
    let mut expected = 10;
    for _ in 0..20 {
        let result = ledger.mine_coffee("Espresso").unwrap();
        expected += result.reward;
        for kind in &result.unlocked {
            expected += kind.coins();
        }
        assert_eq!(ledger.balance_of("Ann"), expected);
    }
}

#[test]
fn first_brew_unlocks_on_the_first_call_only() {
    let mut ledger = ledger_of("Ann");
    let first = brew(&mut ledger, "Latte", COMMON);
    assert_eq!(first.unlocked, vec![AchievementKind::FirstBrew]);
    assert!(ledger.is_unlocked(AchievementKind::FirstBrew));
    let second = brew(&mut ledger, "Latte", COMMON);
    assert!(second.unlocked.is_empty());
    ledger.set_username("Bob".to_string());
    let third = brew(&mut ledger, "Latte", COMMON);
    assert!(third.unlocked.is_empty());
    assert!(ledger.is_unlocked(AchievementKind::FirstBrew));
    assert_eq!(ledger.balance_of("Ann"), 10 + 50 + 5 + 5);
    assert_eq!(ledger.balance_of("Bob"), 10 + 5);
}

#[test]
fn first_brew_goes_to_whoever_brews_first() {
    let mut ledger = ledger_of("Ann");
    ledger.set_username("Bob".to_string());
    let first = brew(&mut ledger, "Mocha", UNCOMMON);
    assert_eq!(first.unlocked, vec![AchievementKind::FirstBrew]);
    assert_eq!(ledger.balance_of("Bob"), 10 + 50 + 10);
    assert_eq!(ledger.balance_of("Ann"), 10);
}

#[test]
fn rare_find_unlocks_on_the_first_rare_brew() {
    let mut ledger = ledger_of("Ann");
    brew(&mut ledger, "Latte", COMMON);
    let plain = brew(&mut ledger, "Latte", UNCOMMON);
    assert!(plain.unlocked.is_empty());
    assert!(!ledger.is_unlocked(AchievementKind::RareFind));
    let rare = brew(&mut ledger, "Latte", RARE);
    assert_eq!(rare.transaction.rarity, CoffeeRarity::Rare);
    assert_eq!(rare.unlocked, vec![AchievementKind::RareFind]);
    assert!(ledger.is_unlocked(AchievementKind::RareFind));
    let again = brew(&mut ledger, "Latte", RARE);
    assert!(again.unlocked.is_empty());
    let legendary = brew(&mut ledger, "Latte", LEGENDARY);
    assert!(legendary.unlocked.is_empty());
    let common = brew(&mut ledger, "Latte", COMMON);
    assert!(common.unlocked.is_empty());
    assert!(ledger.is_unlocked(AchievementKind::RareFind));
}

#[test]
fn rare_find_unlocks_on_a_legendary_brew() {
    let mut ledger = ledger_of("Ann");
    brew(&mut ledger, "Latte", COMMON);
    let legendary = brew(&mut ledger, "Latte", LEGENDARY);
    assert_eq!(legendary.transaction.rarity, CoffeeRarity::Legendary);
    assert_eq!(legendary.unlocked, vec![AchievementKind::RareFind]);
}

#[test]
fn a_first_brew_that_is_rare_unlocks_both() {
    let mut ledger = ledger_of("Ann");
    let result = brew(&mut ledger, "Latte", RARE);
    assert_eq!(
        result.unlocked,
        vec![AchievementKind::FirstBrew, AchievementKind::RareFind]
    );
    assert_eq!(ledger.balance_of("Ann"), 10 + 25 + 50 + 100);
}

#[test]
fn legendary_barista_unlocks_on_the_third_distinct_label() {
    let mut ledger = ledger_of("A");
    assert_eq!(brew(&mut ledger, "Latte", COMMON).unlocked, vec![AchievementKind::FirstBrew]);
    assert!(brew(&mut ledger, "Latte", COMMON).unlocked.is_empty());
    assert!(brew(&mut ledger, "Espresso", COMMON).unlocked.is_empty());
    assert!(!ledger.is_unlocked(AchievementKind::LegendaryBarista));
    let fourth = brew(&mut ledger, "Mocha", COMMON);
    assert_eq!(fourth.unlocked, vec![AchievementKind::LegendaryBarista]);
    assert!(ledger.is_unlocked(AchievementKind::LegendaryBarista));
    assert!(brew(&mut ledger, "Cortado", COMMON).unlocked.is_empty());
    assert!(ledger.is_unlocked(AchievementKind::LegendaryBarista));
}

#[test]
fn labels_differ_by_case() {
    let mut ledger = ledger_of("A");
    brew(&mut ledger, "latte", COMMON);
    brew(&mut ledger, "Latte", COMMON);
    let third = brew(&mut ledger, "LATTE", COMMON);
    assert_eq!(third.unlocked, vec![AchievementKind::LegendaryBarista]);
}

#[test]
fn the_empty_label_is_kept_and_counts() {
    let mut ledger = ledger_of("A");
    let empty = brew(&mut ledger, "", COMMON);
    assert_eq!(empty.transaction.coffee_type, "");
    brew(&mut ledger, "", COMMON);
    brew(&mut ledger, "Latte", COMMON);
    assert!(!ledger.is_unlocked(AchievementKind::LegendaryBarista));
    let third = brew(&mut ledger, "Mocha", COMMON);
    assert_eq!(third.unlocked, vec![AchievementKind::LegendaryBarista]);
    assert_eq!(ledger.recent_transactions(4)[3].coffee_type, "");
}

#[test]
fn labels_are_counted_for_each_brewer_apart() {
    let mut ledger = ledger_of("A");
    brew(&mut ledger, "Latte", COMMON);
    ledger.set_username("B".to_string());
    brew(&mut ledger, "Espresso", COMMON);
    ledger.set_username("A".to_string());
    assert!(brew(&mut ledger, "Mocha", COMMON).unlocked.is_empty());
    ledger.set_username("B".to_string());
    assert!(brew(&mut ledger, "Mocha", COMMON).unlocked.is_empty());
    let third = brew(&mut ledger, "Latte", COMMON);
    assert_eq!(third.transaction.brewer, "B");
    assert_eq!(third.unlocked, vec![AchievementKind::LegendaryBarista]);
    assert_eq!(ledger.balance_of("B"), 10 + 5 + 5 + 5 + 500);
    assert_eq!(ledger.balance_of("A"), 10 + 5 + 50 + 5);
}

#[test]
fn legendary_barista_is_unlocked_for_everybody_at_once() {
    let mut ledger = ledger_of("A");
    brew(&mut ledger, "Latte", COMMON);
    brew(&mut ledger, "Espresso", COMMON);
    let third = brew(&mut ledger, "Mocha", COMMON);
    assert_eq!(third.unlocked, vec![AchievementKind::LegendaryBarista]);
    ledger.set_username("B".to_string());
    brew(&mut ledger, "Latte", COMMON);
    brew(&mut ledger, "Espresso", COMMON);
    let late = brew(&mut ledger, "Mocha", COMMON);
    assert!(late.unlocked.is_empty());
    assert_eq!(ledger.balance_of("B"), 10 + 15);
}

#[test]
fn unlocks_of_one_brew_come_in_catalog_order() {
    let mut ledger = ledger_of("A");
    brew(&mut ledger, "Latte", COMMON);
    brew(&mut ledger, "Espresso", COMMON);
    let third = brew(&mut ledger, "Mocha", LEGENDARY);
    assert_eq!(
        third.unlocked,
        vec![AchievementKind::RareFind, AchievementKind::LegendaryBarista]
    );
    assert_eq!(ledger.balance_of("A"), 10 + 55 + 5 + 50 + 100 + 500);
}

#[test]
fn balance_is_grant_plus_rewards_plus_achievements() {
    let mut ledger = ledger_of("Ann");
    assert_eq!(ledger.balance_of("Ann"), 10);
    brew(&mut ledger, "Latte", COMMON);
    assert_eq!(ledger.balance_of("Ann"), 65);
    brew(&mut ledger, "Latte", UNCOMMON);
    assert_eq!(ledger.balance_of("Ann"), 75);
    brew(&mut ledger, "Espresso", RARE);
    assert_eq!(ledger.balance_of("Ann"), 200);
    brew(&mut ledger, "Mocha", LEGENDARY);
    assert_eq!(ledger.balance_of("Ann"), 750);
    brew(&mut ledger, "Mocha", 99);
    assert_eq!(ledger.balance_of("Ann"), 755);
    assert_eq!(ledger.balance_of("Ann"), 10 + (5 + 10 + 25 + 50 + 5) + (50 + 100 + 500));
}

#[test]
fn no_call_takes_coins_away() {
    let mut ledger = CoffeeLedger::new();
    let users = ["CoffeeChain", "Ann", "Bob", "Anonymous"];
    let names = ["Ann", "", "Bob", "Ann", "", "Bob"];
    let labels = ["Latte", "Espresso", "Mocha", "Latte"];
    let rolls = [COMMON, RARE, UNCOMMON, LEGENDARY, 99, 14, 15];
    let mut before: Vec<u32> = users.iter().map(|user| ledger.balance_of(user)).collect();
    for step in 0..60usize {
        if step % 4 == 0 {
            ledger.set_username(names[(step / 4) % names.len()].to_string());
        } else {
            brew(&mut ledger, labels[step % labels.len()], rolls[step % rolls.len()]);
        }
        let after: Vec<u32> = users.iter().map(|user| ledger.balance_of(user)).collect();
        for (old, new) in before.iter().zip(after.iter()) {
            assert!(old <= new);
        }
        before = after;
    }
}

#[test]
fn a_brew_pays_only_its_brewer() {
    let mut ledger = ledger_of("Ann");
    ledger.set_username("Bob".to_string());
    brew(&mut ledger, "Latte", LEGENDARY);
    assert_eq!(ledger.balance_of("Ann"), 10);
    assert_eq!(ledger.balance_of("Bob"), 10 + 50 + 50 + 100);
}

#[test]
fn the_brewer_is_kept_as_it_was_at_the_brew() {
    let mut ledger = ledger_of("Ann");
    brew(&mut ledger, "Latte", COMMON);
    ledger.set_username("Bob".to_string());
    brew(&mut ledger, "Mocha", COMMON);
    let recent = ledger.recent_transactions(2);
    assert_eq!(recent[0].brewer, "Bob");
    assert_eq!(recent[1].brewer, "Ann");
}

#[test]
fn recent_transactions_come_most_recent_first() {
    let mut ledger = ledger_of("Ann");
    for _ in 0..7 {
        brew(&mut ledger, "Latte", COMMON);
    }
    let recent = ledger.recent_transactions(5);
    let ids: Vec<usize> = recent.iter().map(|transaction| transaction.id).collect();
    assert_eq!(ids, vec![7, 6, 5, 4, 3]);
    assert_eq!(ledger.transaction_count(), 7);
}

#[test]
fn recent_transactions_are_all_when_fewer_exist() {
    let mut ledger = ledger_of("Ann");
    brew(&mut ledger, "Latte", COMMON);
    brew(&mut ledger, "Mocha", RARE);
    let recent = ledger.recent_transactions(5);
    assert_eq!(recent.len(), 2);
    assert_eq!(recent[0].id, 2);
    assert_eq!(recent[0].coffee_type, "Mocha");
    assert_eq!(recent[0].rarity, CoffeeRarity::Rare);
    assert_eq!(recent[1].id, 1);
    assert_eq!(recent[1].coffee_type, "Latte");
    assert!(ledger.recent_transactions(0).is_empty());
    assert_eq!(ledger.recent_transactions(usize::MAX).len(), 2);
}

#[test]
fn reading_the_ledger_changes_nothing() {
    let mut ledger = ledger_of("Ann");
    brew(&mut ledger, "Latte", COMMON);
    brew(&mut ledger, "Mocha", COMMON);
    let once: Vec<usize> = ledger.recent_transactions(5).iter().map(|t| t.id).collect();
    let twice: Vec<usize> = ledger.recent_transactions(5).iter().map(|t| t.id).collect();
    assert_eq!(once, twice);
    assert_eq!(ledger.transaction_count(), 2);
    assert_eq!(brew(&mut ledger, "Mocha", COMMON).transaction.id, 3);
}

#[test]
fn a_failed_clock_refuses_the_brew() {
    let mut ledger = ledger_of("Ann");
    let outcome = ledger.record_brew("Latte", None, "proof-of-coffee-0000000000".to_string(), RARE);
    assert_eq!(outcome.err(), Some(BrewError::ClockBeforeEpoch));
    assert_eq!(ledger.transaction_count(), 0);
    assert_eq!(ledger.balance_of("Ann"), 10);
    assert!(!ledger.is_unlocked(AchievementKind::FirstBrew));
    assert!(!ledger.is_unlocked(AchievementKind::RareFind));
    let next = brew(&mut ledger, "Latte", COMMON);
    assert_eq!(next.transaction.id, 1);
    assert_eq!(next.unlocked, vec![AchievementKind::FirstBrew]);
}

#[test]
fn achievements_are_listed_with_their_flags() {
    let mut ledger = ledger_of("Ann");
    brew(&mut ledger, "Latte", RARE);
    let listing = ledger.all_achievements();
    assert_eq!(listing.len(), 3);
    assert_eq!(listing[0].id, "first_brew");
    assert_eq!(listing[0].name, "First Cup");
    assert_eq!(listing[0].description, "Brew your first coffee on the chain");
    assert_eq!(listing[0].reward, 50);
    assert!(listing[0].unlocked);
    assert_eq!(listing[1].id, "rare_find");
    assert_eq!(listing[1].name, "Rare Find");
    assert_eq!(listing[1].description, "Discover a rare coffee blend");
    assert_eq!(listing[1].reward, 100);
    assert!(listing[1].unlocked);
    assert_eq!(listing[2].id, "legendary_barista");
    assert_eq!(listing[2].name, "Legendary Barista");
    assert_eq!(listing[2].description, "Brew 10 different types of coffee");
    assert_eq!(listing[2].reward, 500);
    assert!(!listing[2].unlocked);
}

#[test]
fn checking_achievements_pays_the_current_user() {
    let mut ledger = ledger_of("Ann");
    let fired = ledger.check_achievements(&CoffeeRarity::Legendary);
    assert_eq!(fired, vec![AchievementKind::RareFind]);
    assert_eq!(ledger.balance_of("Ann"), 110);
    assert!(ledger.is_unlocked(AchievementKind::RareFind));
    assert!(!ledger.is_unlocked(AchievementKind::FirstBrew));
}

#[test]
fn checking_achievements_again_changes_nothing() {
    let mut ledger = ledger_of("Ann");
    brew(&mut ledger, "Latte", RARE);
    let balance = ledger.balance_of("Ann");
    let fired = ledger.check_achievements(&CoffeeRarity::Rare);
    assert!(fired.is_empty());
    assert_eq!(ledger.balance_of("Ann"), balance);
    assert!(ledger.is_unlocked(AchievementKind::FirstBrew));
    assert!(ledger.is_unlocked(AchievementKind::RareFind));
}

#[test]
fn checking_achievements_without_a_find_opens_no_entry() {
    let mut ledger = CoffeeLedger::new();
    let fired = ledger.check_achievements(&CoffeeRarity::Common);
    assert!(fired.is_empty());
    ledger.set_username("CoffeeChain".to_string());
    assert_eq!(ledger.balance_of("CoffeeChain"), 10);
}
