//! The character model and the rules that fold a per-level plan into a
//! derived snapshot.

use vstd::prelude::*;

use crate::skills::spec_apply_training;
use crate::skills::spec_default_skill_training;
use crate::skills::spec_default_skills;
use crate::skills::spec_modifiers;
use crate::skills::SkillTraining;
use crate::skills::Skills;

verus! {

broadcast use vstd::array::group_array_axioms;

/// A character level. Valid values are 1 through 20.
pub type Level = u8;

/// The highest character level the ruleset knows.
pub const MAX_LEVEL: u8 = 20;

/// A proficiency rank on the five-step scale. A rank only ever advances, one
/// step at a time, and saturates at `Legendary`.
#[derive(Clone, Copy, Debug, PartialEq, Eq, Structural)]
pub enum Training {
    Untrained,
    Trained,
    Expert,
    Master,
    Legendary,
}

impl Training {
    /// Ordinal position of the rank on the five-step scale.
    pub open spec fn rank(self) -> nat {
        match self {
            Training::Untrained => 0,
            Training::Trained => 1,
            Training::Expert => 2,
            Training::Master => 3,
            Training::Legendary => 4,
        }
    }

    /// The rank one step above this one; `Legendary` stays `Legendary`.
    pub open spec fn spec_increase(self) -> Training {
        match self {
            Training::Untrained => Training::Trained,
            Training::Trained => Training::Expert,
            Training::Expert => Training::Master,
            Training::Master => Training::Legendary,
            Training::Legendary => Training::Legendary,
        }
    }

    /// The proficiency bonus a rank grants at a given level: zero when
    /// untrained, otherwise the level plus 2, 4, 6 or 8.
    pub open spec fn spec_proficiency_bonus(self, level: Level) -> int {
        match self {
            Training::Untrained => 0,
            Training::Trained => level + 2,
            Training::Expert => level + 4,
            Training::Master => level + 6,
            Training::Legendary => level + 8,
        }
    }

    /// One-letter display label of the rank.
    pub open spec fn spec_label(self) -> Seq<char> {
        match self {
            Training::Untrained => seq!['U'],
            Training::Trained => seq!['T'],
            Training::Expert => seq!['E'],
            Training::Master => seq!['M'],
            Training::Legendary => seq!['L'],
        }
    }

    pub fn label(&self) -> (r: &'static str)
        ensures
            r@ == self.spec_label(),
    {
        proof {
            reveal_strlit("U");
            reveal_strlit("T");
            reveal_strlit("E");
            reveal_strlit("M");
            reveal_strlit("L");
        }
        match self {
            Training::Untrained => "U",
            Training::Trained => "T",
            Training::Expert => "E",
            Training::Master => "M",
            Training::Legendary => "L",
        }
    }

    /// Advance the rank one step, saturating at `Legendary`.
    pub fn increase(&mut self)
        ensures
            *final(self) == old(self).spec_increase(),
    {
        *self = match *self {
            Training::Untrained => Training::Trained,
            Training::Trained => Training::Expert,
            Training::Expert => Training::Master,
            Training::Master => Training::Legendary,
            Training::Legendary => Training::Legendary,
        };
    }

    /// The proficiency bonus this rank grants at the given level.
    pub fn proficiency_bonus(&self, level: Level) -> (r: u8)
        requires
            1 <= level <= MAX_LEVEL,
        ensures
            r == self.spec_proficiency_bonus(level),
    {
        match self {
            Training::Untrained => 0,
            Training::Trained => level + 2,
            Training::Expert => level + 4,
            Training::Master => level + 6,
            Training::Legendary => level + 8,
        }
    }
}

impl Default for Training {
    fn default() -> (r: Self)
        ensures
            r == Training::Untrained,
    {
        Training::Untrained
    }
}

/// The four core ability modifiers. They default to zero and change only by
/// folding the ability boosts of the active levels.
#[derive(Clone, Copy, Debug, PartialEq, Eq, Structural)]
pub struct Abilities {
    pub strength: i8,
    pub dexterity: i8,
    pub mind: i8,
    pub charisma: i8,
}

/// The ability-boost choices of one level-up: true means a permanent +1 to
/// that ability.
#[derive(Clone, Copy, Debug, PartialEq, Eq, Structural)]
pub struct AbilityBoosts {
    pub strength: bool,
    pub dexterity: bool,
    pub mind: bool,
    pub charisma: bool,
}

/// One level's boost selections applied to the ability values: each flagged
/// ability gains +1.
pub open spec fn spec_apply_boosts(a: Abilities, b: AbilityBoosts) -> Abilities {
    Abilities {
        strength: (a.strength + (if b.strength { 1int } else { 0 })) as i8,
        dexterity: (a.dexterity + (if b.dexterity { 1int } else { 0 })) as i8,
        mind: (a.mind + (if b.mind { 1int } else { 0 })) as i8,
        charisma: (a.charisma + (if b.charisma { 1int } else { 0 })) as i8,
    }
}

impl Abilities {
    /// Add +1 to every ability flagged in the boost selection.
    pub fn apply_boosts(&mut self, boosts: &AbilityBoosts)
        requires
            boosts.strength ==> old(self).strength < i8::MAX,
            boosts.dexterity ==> old(self).dexterity < i8::MAX,
            boosts.mind ==> old(self).mind < i8::MAX,
            boosts.charisma ==> old(self).charisma < i8::MAX,
        ensures
            *final(self) == spec_apply_boosts(*old(self), *boosts),
    {
        if boosts.strength {
            self.strength = self.strength + 1;
        }
        if boosts.dexterity {
            self.dexterity = self.dexterity + 1;
        }
        if boosts.mind {
            self.mind = self.mind + 1;
        }
        if boosts.charisma {
            self.charisma = self.charisma + 1;
        }
    }
}

/// The ability values every recompute starts from: all zero.
pub open spec fn spec_default_abilities() -> Abilities {
    Abilities { strength: 0, dexterity: 0, mind: 0, charisma: 0 }
}

/// The boost selection a fresh level plan starts with: nothing flagged.
pub open spec fn spec_default_ability_boosts() -> AbilityBoosts {
    AbilityBoosts { strength: false, dexterity: false, mind: false, charisma: false }
}

impl Default for Abilities {
    fn default() -> (r: Self)
        ensures
            r == spec_default_abilities(),
    {
        Abilities { strength: 0, dexterity: 0, mind: 0, charisma: 0 }
    }
}

impl Default for AbilityBoosts {
    fn default() -> (r: Self)
        ensures
            r == spec_default_ability_boosts(),
    {
        AbilityBoosts { strength: false, dexterity: false, mind: false, charisma: false }
    }
}

/// Two levels' boost selections commute: the fold's result does not depend
/// on the order in which levels are applied, only on which levels are active.
pub proof fn lemma_apply_boosts_commutes(a: Abilities, b1: AbilityBoosts, b2: AbilityBoosts)
    requires
        a.strength + (if b1.strength { 1int } else { 0 }) + (if b2.strength { 1int } else { 0 }) <= i8::MAX,
        a.dexterity + (if b1.dexterity { 1int } else { 0 }) + (if b2.dexterity { 1int } else { 0 }) <= i8::MAX,
        a.mind + (if b1.mind { 1int } else { 0 }) + (if b2.mind { 1int } else { 0 }) <= i8::MAX,
        a.charisma + (if b1.charisma { 1int } else { 0 }) + (if b2.charisma { 1int } else { 0 }) <= i8::MAX,
    ensures
        spec_apply_boosts(spec_apply_boosts(a, b1), b2) == spec_apply_boosts(spec_apply_boosts(a, b2), b1),
{
}

/// Repeated training strictly advances a rank one step at a time until
/// `Legendary`; increasing `Legendary` is a no-op.
pub proof fn lemma_increase_monotonic(t: Training)
    ensures
        t != Training::Legendary ==> t.spec_increase().rank() == t.rank() + 1,
        Training::Legendary.spec_increase() == Training::Legendary,
{
}

/// The proficiency bonus a rank grants, by rank: zero when untrained,
/// otherwise the level plus 2, 4, 6 or 8.
pub proof fn lemma_proficiency_bonus_table(level: Level)
    ensures
        Training::Untrained.spec_proficiency_bonus(level) == 0,
        Training::Trained.spec_proficiency_bonus(level) == level + 2,
        Training::Expert.spec_proficiency_bonus(level) == level + 4,
        Training::Master.spec_proficiency_bonus(level) == level + 6,
        Training::Legendary.spec_proficiency_bonus(level) == level + 8,
{
}

#[derive(Clone, Copy, Debug, PartialEq, Eq, Structural)]
#[non_exhaustive]
pub enum Species {
    Human,
}

impl Default for Species {
    fn default() -> (r: Self)
        ensures
            r == Species::Human,
    {
        Species::Human
    }
}

#[derive(Clone, Copy, Debug, PartialEq, Eq, Structural)]
pub enum Gender {
    Female,
    Male,
}

impl Default for Gender {
    fn default() -> (r: Self)
        ensures
            r == Gender::Female,
    {
        Gender::Female
    }
}

#[derive(Clone, Copy, Debug, PartialEq, Eq, Structural)]
pub enum Class {
    Engineer,
    Scout,
}

impl Default for Class {
    fn default() -> (r: Self)
        ensures
            r == Class::Engineer,
    {
        Class::Engineer
    }
}

/// An inventory entry definition. User-created items get the placeholder id
/// zero; ids are not yet allocated uniquely.
#[derive(Clone, Debug, PartialEq, Eq)]
pub struct Item {
    pub id: u64,
    pub name: String,
    pub bulk: u32,
}

impl Default for Item {
    fn default() -> (r: Self)
        ensures
            r.id == 0,
            r.name@ == Seq::<char>::empty(),
            r.bulk == 0,
    {
        Item { id: 0, name: String::new(), bulk: 0 }
    }
}

/// Currency counters and the list of carried items with their counts.
#[derive(Clone, Debug, PartialEq, Eq)]
pub struct Inventory {
    pub platinum: u32,
    pub gold: u32,
    pub silver: u32,
    pub copper: u32,

    pub items: Vec<(Item, u32)>,
}

impl Inventory {
    /// Append a user-created item with the given name and bulk, carried once.
    /// The id is left as the placeholder zero.
    pub fn add_item(&mut self, name: String, bulk: u32)
        ensures
            final(self).items@ == old(self).items@.push((Item { id: 0, name: name, bulk: bulk }, 1u32)),
            final(self).platinum == old(self).platinum,
            final(self).gold == old(self).gold,
            final(self).silver == old(self).silver,
            final(self).copper == old(self).copper,
    {
        self.items.push((Item { id: 0, name: name, bulk: bulk }, 1));
    }
}

impl Default for Inventory {
    fn default() -> (r: Self)
        ensures
            r.platinum == 0,
            r.gold == 0,
            r.silver == 0,
            r.copper == 0,
            r.items@.len() == 0,
    {
        Inventory { platinum: 0, gold: 0, silver: 0, copper: 0, items: Vec::new() }
    }
}

/// Ephemeral state of the "add item" dialogue; never persisted.
#[derive(Clone, Debug, PartialEq, Eq)]
pub struct AddItem {
    pub item_search: String,
    pub custom_item_name: String,
    pub custom_item_bulk: u32,
}

impl Default for AddItem {
    fn default() -> (r: Self)
        ensures
            r.item_search@ == Seq::<char>::empty(),
            r.custom_item_name@ == Seq::<char>::empty(),
            r.custom_item_bulk == 0,
    {
        AddItem { item_search: String::new(), custom_item_name: String::new(), custom_item_bulk: 0 }
    }
}

/// Everything a level-up can contain: the skill-training and ability-boost
/// selections made upon reaching that level, and a feat count placeholder.
#[derive(Clone, Copy, Debug, PartialEq, Eq, Structural)]
pub struct LevelPlan {
    pub skill_training: SkillTraining,
    pub ability_boosts: AbilityBoosts,

    pub feats: u8,
}

/// The plan entry a fresh sheet starts with: nothing selected.
pub open spec fn spec_default_level_plan() -> LevelPlan {
    LevelPlan {
        skill_training: spec_default_skill_training(),
        ability_boosts: spec_default_ability_boosts(),
        feats: 0,
    }
}

impl Default for LevelPlan {
    fn default() -> (r: Self)
        ensures
            r == spec_default_level_plan(),
    {
        LevelPlan {
            skill_training: SkillTraining::default(),
            ability_boosts: AbilityBoosts::default(),
            feats: 0,
        }
    }
}

/// The derived snapshot: rebuilt wholesale on every recompute, never
/// persisted.
#[derive(Clone, Copy, Debug, PartialEq, Eq)]
pub struct Computed {
    pub fortitude: Training,
    pub reflex: Training,
    pub will: Training,

    pub abilities: Abilities,
    pub skills: Skills,
}

/// The snapshot every recompute starts from: untrained saves, zero abilities,
/// default skills.
pub open spec fn spec_default_computed() -> Computed {
    Computed {
        fortitude: Training::Untrained,
        reflex: Training::Untrained,
        will: Training::Untrained,
        abilities: spec_default_abilities(),
        skills: spec_default_skills(),
    }
}

impl Default for Computed {
    fn default() -> (r: Self)
        ensures
            r == spec_default_computed(),
    {
        Computed {
            fortitude: Training::Untrained,
            reflex: Training::Untrained,
            will: Training::Untrained,
            abilities: Abilities::default(),
            skills: Skills::default(),
        }
    }
}

/// The ability values after folding the boost selections of the first `n`
/// plan entries, in ascending level order.
pub open spec fn spec_abilities_after(plan: Seq<LevelPlan>, n: int) -> Abilities
    decreases n,
{
    if n <= 0 {
        spec_default_abilities()
    } else {
        spec_apply_boosts(spec_abilities_after(plan, n - 1), plan[n - 1].ability_boosts)
    }
}

/// The skill ranks after folding the training selections of the first `n`
/// plan entries, in ascending level order.
pub open spec fn spec_skills_after(plan: Seq<LevelPlan>, n: int) -> Skills
    decreases n,
{
    if n <= 0 {
        spec_default_skills()
    } else {
        spec_apply_training(spec_skills_after(plan, n - 1), plan[n - 1].skill_training)
    }
}

/// Each ability value after folding `n` plan entries lies between zero and
/// `n`: every level adds at most one.
pub proof fn lemma_abilities_after_bounds(plan: Seq<LevelPlan>, n: int)
    requires
        0 <= n <= MAX_LEVEL,
    ensures
        0 <= spec_abilities_after(plan, n).strength <= n,
        0 <= spec_abilities_after(plan, n).dexterity <= n,
        0 <= spec_abilities_after(plan, n).mind <= n,
        0 <= spec_abilities_after(plan, n).charisma <= n,
    decreases n,
{
    if n > 0 {
        lemma_abilities_after_bounds(plan, n - 1);
    }
}

/// The character sheet: identity, the fixed plan of twenty level-ups, the
/// inventory, and the ephemeral derived snapshot.
#[derive(Clone, Debug, PartialEq, Eq)]
pub struct CharSheet {
    pub name: String,

    pub level: Level,
    pub ethnicity: String,
    pub species: Species,
    /// Body size in centimeters.
    pub size: u8,

    pub class: Class,

    pub plan: [LevelPlan; 20],

    pub inventory: Inventory,

    /// Derived snapshot; rebuilt by `compute`, never persisted.
    pub computed: Computed,

    /// Ephemeral dialogue state; never persisted.
    pub add_item: AddItem,
}

/// The derived snapshot a recompute yields: the ability and rank folds over
/// the active plan entries, with every skill modifier taken against the
/// sheet's current level.
pub open spec fn spec_computed(sheet: CharSheet) -> Computed {
    let abilities = spec_abilities_after(sheet.plan@, sheet.level as int);
    let skills = spec_skills_after(sheet.plan@, sheet.level as int);
    Computed {
        fortitude: Training::Untrained,
        reflex: Training::Untrained,
        will: Training::Untrained,
        abilities: abilities,
        skills: spec_modifiers(skills, sheet.level, abilities),
    }
}

impl CharSheet {
    /// Rebuild the derived snapshot from scratch: fold the training and boost
    /// selections of levels one through the current level, then derive every
    /// skill modifier against the current level. Touches nothing but
    /// `computed`.
    pub fn compute(&mut self)
        requires
            1 <= old(self).level <= MAX_LEVEL,
        ensures
            *final(self) == (CharSheet { computed: spec_computed(*old(self)), ..*old(self) }),
    {
        let mut computed = Computed::default();

        let level = self.level;
        let bound = level as usize;
        let mut idx: usize = 0;
        while idx < bound
            invariant
                0 <= idx <= bound,
                bound == level as usize,
                level == self.level,
                1 <= level <= MAX_LEVEL,
                computed.fortitude == Training::Untrained,
                computed.reflex == Training::Untrained,
                computed.will == Training::Untrained,
                computed.skills == spec_skills_after(self.plan@, idx as int),
                computed.abilities == spec_abilities_after(self.plan@, idx as int),
            decreases bound - idx,
        {
            proof {
                lemma_abilities_after_bounds(self.plan@, idx as int);
            }
            computed.skills.apply_training(&self.plan[idx].skill_training);
            computed.abilities.apply_boosts(&self.plan[idx].ability_boosts);
            idx = idx + 1;
        }

        proof {
            lemma_abilities_after_bounds(self.plan@, level as int);
        }
        computed.skills.compute_modifiers(level, &computed.abilities);

        self.computed = computed;
    }

    /// The plan entry for the given one-based level.
    pub fn level_plan(&mut self, level: Level) -> (r: &mut LevelPlan)
        requires
            1 <= level <= MAX_LEVEL,
        ensures
            *r == old(self).plan@[level - 1],
            final(self).plan@ == old(self).plan@.update(level - 1, *final(r)),
            final(self).name == old(self).name,
            final(self).level == old(self).level,
            final(self).ethnicity == old(self).ethnicity,
            final(self).species == old(self).species,
            final(self).size == old(self).size,
            final(self).class == old(self).class,
            final(self).inventory == old(self).inventory,
            final(self).computed == old(self).computed,
            final(self).add_item == old(self).add_item,
    {
        &mut self.plan[(level - 1) as usize]
    }
}

impl Default for CharSheet {
    fn default() -> (r: Self)
        ensures
            r.name@ == Seq::<char>::empty(),
            r.level == 1,
            r.ethnicity@ == Seq::<char>::empty(),
            r.species == Species::Human,
            r.size == 170,
            r.class == Class::Engineer,
            r.plan@.len() == 20,
            forall|i: int| 0 <= i < 20 ==> r.plan@[i] == spec_default_level_plan(),
            r.inventory.platinum == 0,
            r.inventory.gold == 0,
            r.inventory.silver == 0,
            r.inventory.copper == 0,
            r.inventory.items@.len() == 0,
            r.computed == spec_default_computed(),
            r.add_item.item_search@ == Seq::<char>::empty(),
            r.add_item.custom_item_name@ == Seq::<char>::empty(),
            r.add_item.custom_item_bulk == 0,
    {
        CharSheet {
            name: String::new(),
            level: 1,
            ethnicity: String::new(),
            species: Species::default(),
            size: 170,
            class: Class::default(),
            plan: [LevelPlan::default(); 20],
            inventory: Inventory::default(),
            computed: Computed::default(),
            add_item: AddItem::default(),
        }
    }
}

/// Two folds over plans that agree on the first `n` entries yield the same
/// ability values.
proof fn lemma_abilities_after_agree(p1: Seq<LevelPlan>, p2: Seq<LevelPlan>, n: int)
    requires
        forall|i: int| 0 <= i < n ==> p1[i] == p2[i],
    ensures
        spec_abilities_after(p1, n) == spec_abilities_after(p2, n),
    decreases n,
{
    if n > 0 {
        lemma_abilities_after_agree(p1, p2, n - 1);
    }
}

/// Two folds over plans that agree on the first `n` entries yield the same
/// skill ranks.
proof fn lemma_skills_after_agree(p1: Seq<LevelPlan>, p2: Seq<LevelPlan>, n: int)
    requires
        forall|i: int| 0 <= i < n ==> p1[i] == p2[i],
    ensures
        spec_skills_after(p1, n) == spec_skills_after(p2, n),
    decreases n,
{
    if n > 0 {
        lemma_skills_after_agree(p1, p2, n - 1);
    }
}

/// Only the active plan entries contribute: two sheets at the same level
/// whose plans agree below that level — whatever stands at or beyond it, and
/// whatever their other fields hold — get identical derived snapshots.
pub proof fn lemma_computed_reads_only_active_plan(a: CharSheet, b: CharSheet)
    requires
        a.level == b.level,
        forall|i: int| 0 <= i < a.level ==> a.plan@[i] == b.plan@[i],
    ensures
        spec_computed(a) == spec_computed(b),
{
    lemma_abilities_after_agree(a.plan@, b.plan@, a.level as int);
    lemma_skills_after_agree(a.plan@, b.plan@, a.level as int);
}

/// Recomputing is idempotent: a recompute changes only the `computed` field,
/// which the snapshot never reads, so a second recompute with no intervening
/// edits yields the identical snapshot.
pub proof fn lemma_compute_idempotent(s: CharSheet)
    ensures
        spec_computed(CharSheet { computed: spec_computed(s), ..s }) == spec_computed(s),
{
    lemma_computed_reads_only_active_plan(CharSheet { computed: spec_computed(s), ..s }, s);
}

} // verus!
