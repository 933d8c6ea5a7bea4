//! The one-time achievements and the catalog that remembers which are unlocked.

use vstd::prelude::*;

verus! {

/// The achievements that exist. Each is unlocked at most once, for everybody.
#[derive(Clone, Copy, Debug, PartialEq, Eq, Structural)]
pub enum AchievementKind {
    FirstBrew,
    RareFind,
    LegendaryBarista,
}

impl AchievementKind {
    /// The stable key of the achievement.
    pub open spec fn key(self) -> Seq<char> {
        match self {
            AchievementKind::FirstBrew => "first_brew"@,
            AchievementKind::RareFind => "rare_find"@,
            AchievementKind::LegendaryBarista => "legendary_barista"@,
        }
    }

    /// The name under which the achievement is shown.
    pub open spec fn title(self) -> Seq<char> {
        match self {
            AchievementKind::FirstBrew => "First Cup"@,
            AchievementKind::RareFind => "Rare Find"@,
            AchievementKind::LegendaryBarista => "Legendary Barista"@,
        }
    }

    /// The sentence that explains the achievement.
    pub open spec fn blurb(self) -> Seq<char> {
        match self {
            AchievementKind::FirstBrew => "Brew your first coffee on the chain"@,
            AchievementKind::RareFind => "Discover a rare coffee blend"@,
            AchievementKind::LegendaryBarista => "Brew 10 different types of coffee"@,
        }
    }

    /// The coins paid once, when the achievement is unlocked.
    pub open spec fn reward(self) -> nat {
        match self {
            AchievementKind::FirstBrew => 50,
            AchievementKind::RareFind => 100,
            AchievementKind::LegendaryBarista => 500,
        }
    }

    /// The place of the achievement in the catalog's listing.
    pub open spec fn slot(self) -> int {
        match self {
            AchievementKind::FirstBrew => 0,
            AchievementKind::RareFind => 1,
            AchievementKind::LegendaryBarista => 2,
        }
    }

    pub fn id(&self) -> (text: &'static str)
        ensures
            text@ == self.key(),
    {
        match self {
            AchievementKind::FirstBrew => "first_brew",
            AchievementKind::RareFind => "rare_find",
            AchievementKind::LegendaryBarista => "legendary_barista",
        }
    }

    pub fn name(&self) -> (text: &'static str)
        ensures
            text@ == self.title(),
    {
        match self {
            AchievementKind::FirstBrew => "First Cup",
            AchievementKind::RareFind => "Rare Find",
            AchievementKind::LegendaryBarista => "Legendary Barista",
        }
    }

    pub fn description(&self) -> (text: &'static str)
        ensures
            text@ == self.blurb(),
    {
        match self {
            AchievementKind::FirstBrew => "Brew your first coffee on the chain",
            AchievementKind::RareFind => "Discover a rare coffee blend",
            AchievementKind::LegendaryBarista => "Brew 10 different types of coffee",
        }
    }

    pub fn coins(&self) -> (amount: u32)
        ensures
            amount == self.reward(),
    {
        match self {
            AchievementKind::FirstBrew => 50,
            AchievementKind::RareFind => 100,
            AchievementKind::LegendaryBarista => 500,
        }
    }

    pub fn position(&self) -> (index: usize)
        ensures
            index == self.slot(),
    {
        match self {
            AchievementKind::FirstBrew => 0,
            AchievementKind::RareFind => 1,
            AchievementKind::LegendaryBarista => 2,
        }
    }
}

/// One entry of the catalog.
#[derive(Debug)]
pub struct Achievement {
    pub id: String,
    pub name: String,
    pub description: String,
    pub unlocked: bool,
    pub reward: u32,
}

impl Achievement {
    /// Whether the entry carries the fixed texts and reward of `kind`.
    pub open spec fn describes(&self, kind: AchievementKind) -> bool {
        &&& self.id@ == kind.key()
        &&& self.name@ == kind.title()
        &&& self.description@ == kind.blurb()
        &&& self.reward == kind.reward()
    }

    /// The entry of `kind` before anybody has unlocked it.
    pub fn locked(kind: AchievementKind) -> (entry: Achievement)
        ensures
            entry.describes(kind),
            !entry.unlocked,
    {
        Achievement {
            id: kind.id().to_owned(),
            name: kind.name().to_owned(),
            description: kind.description().to_owned(),
            unlocked: false,
            reward: kind.coins(),
        }
    }
}

/// Whether `listing` shows every achievement in its slot, unlocked exactly
/// where `unlocked` holds it.
pub open spec fn lists(listing: Seq<Achievement>, unlocked: Set<AchievementKind>) -> bool {
    &&& listing.len() == 3
    &&& forall|kind: AchievementKind|
        {
            &&& (#[trigger] listing[kind.slot()]).describes(kind)
            &&& listing[kind.slot()].unlocked == unlocked.contains(kind)
        }
}

/// The fixed set of achievements, each with its unlock flag.
pub struct AchievementCatalog {
    entries: Vec<Achievement>,
}

impl View for AchievementCatalog {
    type V = Set<AchievementKind>;

    /// The achievements that are unlocked.
    closed spec fn view(&self) -> Set<AchievementKind> {
        Set::new(|kind: AchievementKind| self.entries@[kind.slot()].unlocked)
    }
}

impl AchievementCatalog {
    /// Every achievement has its entry, in its slot, with its fixed texts.
    pub closed spec fn wf(&self) -> bool {
        &&& self.entries@.len() == 3
        &&& self.entries@[0].describes(AchievementKind::FirstBrew)
        &&& self.entries@[1].describes(AchievementKind::RareFind)
        &&& self.entries@[2].describes(AchievementKind::LegendaryBarista)
    }

    pub fn new() -> (catalog: Self)
        ensures
            catalog.wf(),
            catalog@ == Set::<AchievementKind>::empty(),
    {
        let mut entries: Vec<Achievement> = Vec::new();
        entries.push(Achievement::locked(AchievementKind::FirstBrew));
        entries.push(Achievement::locked(AchievementKind::RareFind));
        entries.push(Achievement::locked(AchievementKind::LegendaryBarista));
        let catalog = AchievementCatalog { entries };
        assert(catalog@ =~= Set::<AchievementKind>::empty());
        catalog
    }

    pub fn is_unlocked(&self, kind: AchievementKind) -> (unlocked: bool)
        requires
            self.wf(),
        ensures
            unlocked == self@.contains(kind),
    {
        self.entries[kind.position()].unlocked
    }

    /// Unlocks `kind` and says whether this call did it. Unlocking what is
    /// unlocked already changes nothing.
    pub fn unlock(&mut self, kind: AchievementKind) -> (fresh: bool)
        requires
            old(self).wf(),
        ensures
            final(self).wf(),
            final(self)@ == old(self)@.insert(kind),
            fresh == !old(self)@.contains(kind),
    {
        let index = kind.position();
        let fresh = !self.entries[index].unlocked;
        self.entries[index].unlocked = true;
        assert(self@ =~= old(self)@.insert(kind));
        fresh
    }

    /// Every entry of the catalog, in slot order.
    pub fn all(&self) -> (listing: &Vec<Achievement>)
        requires
            self.wf(),
        ensures
            lists(listing@, self@),
    {
        &self.entries
    }
}

} // verus!
