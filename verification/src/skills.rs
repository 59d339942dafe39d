//! The fixed table of fifteen skills, each linked to one of the four
//! abilities, and the per-skill derived state.
//!
//! Each skill carries a pair: its proficiency rank and its derived numeric
//! modifier (linked ability value plus the rank's proficiency bonus at the
//! current level). The skill-to-ability mapping is part of the ruleset:
//!
//! | skill        | ability   |
//! |--------------|-----------|
//! | acrobatics   | dexterity |
//! | athletics    | strength  |
//! | computers    | mind      |
//! | crafting     | mind      |
//! | deception    | charisma  |
//! | diplomacy    | charisma  |
//! | medicine     | mind      |
//! | nature       | mind      |
//! | performance  | charisma  |
//! | piloting     | mind      |
//! | society      | mind      |
//! | stealth      | dexterity |
//! | survival     | mind      |
//! | thievery     | dexterity |
//! | intimidation | charisma  |

use vstd::prelude::*;

use crate::state::Abilities;
use crate::state::Level;
use crate::state::Training;
use crate::state::MAX_LEVEL;

verus! {

/// Per-skill derived state: the proficiency rank and the numeric modifier.
#[derive(Clone, Copy, Debug, PartialEq, Eq)]
pub struct Skills {
    pub acrobatics: (Training, i8),
    pub athletics: (Training, i8),
    pub computers: (Training, i8),
    pub crafting: (Training, i8),
    pub deception: (Training, i8),
    pub diplomacy: (Training, i8),
    pub medicine: (Training, i8),
    pub nature: (Training, i8),
    pub performance: (Training, i8),
    pub piloting: (Training, i8),
    pub society: (Training, i8),
    pub stealth: (Training, i8),
    pub survival: (Training, i8),
    pub thievery: (Training, i8),
    pub intimidation: (Training, i8),
}

/// The skill-training choices of one level-up: true means the skill's rank
/// is increased by one at that level.
#[derive(Clone, Copy, Debug, PartialEq, Eq, Structural)]
pub struct SkillTraining {
    pub acrobatics: bool,
    pub athletics: bool,
    pub computers: bool,
    pub crafting: bool,
    pub deception: bool,
    pub diplomacy: bool,
    pub medicine: bool,
    pub nature: bool,
    pub performance: bool,
    pub piloting: bool,
    pub society: bool,
    pub stealth: bool,
    pub survival: bool,
    pub thievery: bool,
    pub intimidation: bool,
}

/// One level's training selections applied to the skill ranks: each flagged
/// skill advances one step (saturating); modifiers are untouched.
pub open spec fn spec_apply_training(s: Skills, t: SkillTraining) -> Skills {
    Skills {
        acrobatics: (if t.acrobatics { s.acrobatics.0.spec_increase() } else { s.acrobatics.0 }, s.acrobatics.1),
        athletics: (if t.athletics { s.athletics.0.spec_increase() } else { s.athletics.0 }, s.athletics.1),
        computers: (if t.computers { s.computers.0.spec_increase() } else { s.computers.0 }, s.computers.1),
        crafting: (if t.crafting { s.crafting.0.spec_increase() } else { s.crafting.0 }, s.crafting.1),
        deception: (if t.deception { s.deception.0.spec_increase() } else { s.deception.0 }, s.deception.1),
        diplomacy: (if t.diplomacy { s.diplomacy.0.spec_increase() } else { s.diplomacy.0 }, s.diplomacy.1),
        medicine: (if t.medicine { s.medicine.0.spec_increase() } else { s.medicine.0 }, s.medicine.1),
        nature: (if t.nature { s.nature.0.spec_increase() } else { s.nature.0 }, s.nature.1),
        performance: (if t.performance { s.performance.0.spec_increase() } else { s.performance.0 }, s.performance.1),
        piloting: (if t.piloting { s.piloting.0.spec_increase() } else { s.piloting.0 }, s.piloting.1),
        society: (if t.society { s.society.0.spec_increase() } else { s.society.0 }, s.society.1),
        stealth: (if t.stealth { s.stealth.0.spec_increase() } else { s.stealth.0 }, s.stealth.1),
        survival: (if t.survival { s.survival.0.spec_increase() } else { s.survival.0 }, s.survival.1),
        thievery: (if t.thievery { s.thievery.0.spec_increase() } else { s.thievery.0 }, s.thievery.1),
        intimidation: (if t.intimidation { s.intimidation.0.spec_increase() } else { s.intimidation.0 }, s.intimidation.1),
    }
}

/// Final modifiers at the given level: for each skill, the linked ability's
/// value plus the rank's proficiency bonus; ranks are untouched.
pub open spec fn spec_modifiers(s: Skills, level: Level, a: Abilities) -> Skills {
    Skills {
        acrobatics: (s.acrobatics.0, (a.dexterity + s.acrobatics.0.spec_proficiency_bonus(level)) as i8),
        athletics: (s.athletics.0, (a.strength + s.athletics.0.spec_proficiency_bonus(level)) as i8),
        computers: (s.computers.0, (a.mind + s.computers.0.spec_proficiency_bonus(level)) as i8),
        crafting: (s.crafting.0, (a.mind + s.crafting.0.spec_proficiency_bonus(level)) as i8),
        deception: (s.deception.0, (a.charisma + s.deception.0.spec_proficiency_bonus(level)) as i8),
        diplomacy: (s.diplomacy.0, (a.charisma + s.diplomacy.0.spec_proficiency_bonus(level)) as i8),
        medicine: (s.medicine.0, (a.mind + s.medicine.0.spec_proficiency_bonus(level)) as i8),
        nature: (s.nature.0, (a.mind + s.nature.0.spec_proficiency_bonus(level)) as i8),
        performance: (s.performance.0, (a.charisma + s.performance.0.spec_proficiency_bonus(level)) as i8),
        piloting: (s.piloting.0, (a.mind + s.piloting.0.spec_proficiency_bonus(level)) as i8),
        society: (s.society.0, (a.mind + s.society.0.spec_proficiency_bonus(level)) as i8),
        stealth: (s.stealth.0, (a.dexterity + s.stealth.0.spec_proficiency_bonus(level)) as i8),
        survival: (s.survival.0, (a.mind + s.survival.0.spec_proficiency_bonus(level)) as i8),
        thievery: (s.thievery.0, (a.dexterity + s.thievery.0.spec_proficiency_bonus(level)) as i8),
        intimidation: (s.intimidation.0, (a.charisma + s.intimidation.0.spec_proficiency_bonus(level)) as i8),
    }
}

/// One skill's modifier fits the signed byte it is stored in.
pub open spec fn modifier_fits(ability: i8, t: Training, level: Level) -> bool {
    i8::MIN <= ability + t.spec_proficiency_bonus(level) <= i8::MAX
}

/// Every skill's modifier fits the signed byte it is stored in.
pub open spec fn modifiers_fit(s: Skills, level: Level, a: Abilities) -> bool {
    &&& modifier_fits(a.dexterity, s.acrobatics.0, level)
    &&& modifier_fits(a.strength, s.athletics.0, level)
    &&& modifier_fits(a.mind, s.computers.0, level)
    &&& modifier_fits(a.mind, s.crafting.0, level)
    &&& modifier_fits(a.charisma, s.deception.0, level)
    &&& modifier_fits(a.charisma, s.diplomacy.0, level)
    &&& modifier_fits(a.mind, s.medicine.0, level)
    &&& modifier_fits(a.mind, s.nature.0, level)
    &&& modifier_fits(a.charisma, s.performance.0, level)
    &&& modifier_fits(a.mind, s.piloting.0, level)
    &&& modifier_fits(a.mind, s.society.0, level)
    &&& modifier_fits(a.dexterity, s.stealth.0, level)
    &&& modifier_fits(a.mind, s.survival.0, level)
    &&& modifier_fits(a.dexterity, s.thievery.0, level)
    &&& modifier_fits(a.charisma, s.intimidation.0, level)
}

/// Two levels' training selections commute: the fold's result does not
/// depend on the order in which levels are applied, only on which levels are
/// active.
pub proof fn lemma_apply_training_commutes(s: Skills, t1: SkillTraining, t2: SkillTraining)
    ensures
        spec_apply_training(spec_apply_training(s, t1), t2) == spec_apply_training(
            spec_apply_training(s, t2),
            t1,
        ),
{
}

/// One skill's rank after one level's selection: one step up when flagged,
/// unchanged otherwise.
fn trained_step(entry: (Training, i8), flagged: bool) -> (r: (Training, i8))
    ensures
        r == ((if flagged { entry.0.spec_increase() } else { entry.0 }, entry.1)),
{
    if flagged {
        let mut rank = entry.0;
        rank.increase();
        (rank, entry.1)
    } else {
        entry
    }
}

/// One skill's entry with its modifier recomputed from the linked ability
/// and the rank's proficiency bonus at the given level.
fn modifier_step(entry: (Training, i8), ability: i8, level: Level) -> (r: (Training, i8))
    requires
        1 <= level <= MAX_LEVEL,
        modifier_fits(ability, entry.0, level),
    ensures
        r == ((entry.0, (ability + entry.0.spec_proficiency_bonus(level)) as i8)),
{
    (entry.0, ability + (entry.0.proficiency_bonus(level) as i8))
}

impl Skills {
    /// Advance the rank of every skill flagged in the training selection.
    pub fn apply_training(&mut self, training: &SkillTraining)
        ensures
            *final(self) == spec_apply_training(*old(self), *training),
    {
        *self = Skills {
            acrobatics: trained_step(self.acrobatics, training.acrobatics),
            athletics: trained_step(self.athletics, training.athletics),
            computers: trained_step(self.computers, training.computers),
            crafting: trained_step(self.crafting, training.crafting),
            deception: trained_step(self.deception, training.deception),
            diplomacy: trained_step(self.diplomacy, training.diplomacy),
            medicine: trained_step(self.medicine, training.medicine),
            nature: trained_step(self.nature, training.nature),
            performance: trained_step(self.performance, training.performance),
            piloting: trained_step(self.piloting, training.piloting),
            society: trained_step(self.society, training.society),
            stealth: trained_step(self.stealth, training.stealth),
            survival: trained_step(self.survival, training.survival),
            thievery: trained_step(self.thievery, training.thievery),
            intimidation: trained_step(self.intimidation, training.intimidation),
        };
    }

    /// Recompute every skill's numeric modifier for the given level and
    /// ability values.
    pub fn compute_modifiers(&mut self, level: Level, abilities: &Abilities)
        requires
            1 <= level <= MAX_LEVEL,
            modifiers_fit(*old(self), level, *abilities),
        ensures
            *final(self) == spec_modifiers(*old(self), level, *abilities),
    {
        *self = Skills {
            acrobatics: modifier_step(self.acrobatics, abilities.dexterity, level),
            athletics: modifier_step(self.athletics, abilities.strength, level),
            computers: modifier_step(self.computers, abilities.mind, level),
            crafting: modifier_step(self.crafting, abilities.mind, level),
            deception: modifier_step(self.deception, abilities.charisma, level),
            diplomacy: modifier_step(self.diplomacy, abilities.charisma, level),
            medicine: modifier_step(self.medicine, abilities.mind, level),
            nature: modifier_step(self.nature, abilities.mind, level),
            performance: modifier_step(self.performance, abilities.charisma, level),
            piloting: modifier_step(self.piloting, abilities.mind, level),
            society: modifier_step(self.society, abilities.mind, level),
            stealth: modifier_step(self.stealth, abilities.dexterity, level),
            survival: modifier_step(self.survival, abilities.mind, level),
            thievery: modifier_step(self.thievery, abilities.dexterity, level),
            intimidation: modifier_step(self.intimidation, abilities.charisma, level),
        };
    }
}

impl Default for Skills {
    fn default() -> (r: Self)
        ensures
            r == spec_default_skills(),
    {
        Skills {
            acrobatics: (Training::Untrained, 0),
            athletics: (Training::Untrained, 0),
            computers: (Training::Untrained, 0),
            crafting: (Training::Untrained, 0),
            deception: (Training::Untrained, 0),
            diplomacy: (Training::Untrained, 0),
            medicine: (Training::Untrained, 0),
            nature: (Training::Untrained, 0),
            performance: (Training::Untrained, 0),
            piloting: (Training::Untrained, 0),
            society: (Training::Untrained, 0),
            stealth: (Training::Untrained, 0),
            survival: (Training::Untrained, 0),
            thievery: (Training::Untrained, 0),
            intimidation: (Training::Untrained, 0),
        }
    }
}

/// The skill state every recompute starts from: all ranks untrained, all
/// modifiers zero.
pub open spec fn spec_default_skills() -> Skills {
    Skills {
        acrobatics: (Training::Untrained, 0),
        athletics: (Training::Untrained, 0),
        computers: (Training::Untrained, 0),
        crafting: (Training::Untrained, 0),
        deception: (Training::Untrained, 0),
        diplomacy: (Training::Untrained, 0),
        medicine: (Training::Untrained, 0),
        nature: (Training::Untrained, 0),
        performance: (Training::Untrained, 0),
        piloting: (Training::Untrained, 0),
        society: (Training::Untrained, 0),
        stealth: (Training::Untrained, 0),
        survival: (Training::Untrained, 0),
        thievery: (Training::Untrained, 0),
        intimidation: (Training::Untrained, 0),
    }
}

impl Default for SkillTraining {
    fn default() -> (r: Self)
        ensures
            r == spec_default_skill_training(),
    {
        SkillTraining {
            acrobatics: false,
            athletics: false,
            computers: false,
            crafting: false,
            deception: false,
            diplomacy: false,
            medicine: false,
            nature: false,
            performance: false,
            piloting: false,
            society: false,
            stealth: false,
            survival: false,
            thievery: false,
            intimidation: false,
        }
    }
}

/// The training selection a fresh level plan starts with: nothing flagged.
pub open spec fn spec_default_skill_training() -> SkillTraining {
    SkillTraining {
        acrobatics: false,
        athletics: false,
        computers: false,
        crafting: false,
        deception: false,
        diplomacy: false,
        medicine: false,
        nature: false,
        performance: false,
        piloting: false,
        society: false,
        stealth: false,
        survival: false,
        thievery: false,
        intimidation: false,
    }
}

} // verus!
