//! Tests of the rules engine: the recompute fold, the proficiency-bonus
//! table, and the rank scale.

use charsheet::state::CharSheet;
use charsheet::state::Training;

#[test]
fn recompute_is_idempotent() {
    let mut sheet = CharSheet::default();
    sheet.level = 7;
    sheet.plan[0].skill_training.athletics = true;
    sheet.plan[0].skill_training.stealth = true;
    sheet.plan[0].ability_boosts.strength = true;
    sheet.plan[0].ability_boosts.mind = true;
    sheet.plan[2].skill_training.athletics = true;
    sheet.plan[4].ability_boosts.strength = true;

    sheet.compute();
    let first = sheet.computed;
    sheet.compute();
    assert_eq!(sheet.computed, first);
}

#[test]
fn training_increase_is_monotonic_and_saturates() {
    let mut t = Training::Untrained;
    t.increase();
    assert_eq!(t, Training::Trained);
    t.increase();
    assert_eq!(t, Training::Expert);
    t.increase();
    assert_eq!(t, Training::Master);
    t.increase();
    assert_eq!(t, Training::Legendary);
    t.increase();
    assert_eq!(t, Training::Legendary);
}

#[test]
fn plan_entries_at_or_beyond_level_do_not_contribute() {
    let mut sheet = CharSheet::default();
    sheet.level = 3;
    sheet.plan[0].skill_training.medicine = true;
    sheet.plan[1].ability_boosts.charisma = true;
    sheet.compute();
    let active_only = sheet.computed;

    // Edits at indices >= level must never change the snapshot.
    sheet.plan[3].skill_training.medicine = true;
    sheet.plan[3].ability_boosts.charisma = true;
    sheet.plan[19].skill_training.acrobatics = true;
    sheet.plan[19].ability_boosts.strength = true;
    sheet.compute();
    assert_eq!(sheet.computed, active_only);
}

#[test]
fn proficiency_bonus_table() {
    for level in 1..=20u8 {
        assert_eq!(Training::Untrained.proficiency_bonus(level), 0);
        assert_eq!(Training::Trained.proficiency_bonus(level), level + 2);
        assert_eq!(Training::Expert.proficiency_bonus(level), level + 4);
        assert_eq!(Training::Master.proficiency_bonus(level), level + 6);
        assert_eq!(Training::Legendary.proficiency_bonus(level), level + 8);
    }
}

#[test]
fn ability_fold_adds_one_per_flagged_level() {
    let mut sheet = CharSheet::default();
    sheet.level = 5;
    sheet.plan[0].ability_boosts.strength = true;
    sheet.plan[0].ability_boosts.dexterity = true;
    sheet.plan[4].ability_boosts.strength = true;
    sheet.compute();
    assert_eq!(sheet.computed.abilities.strength, 2);
    assert_eq!(sheet.computed.abilities.dexterity, 1);
    assert_eq!(sheet.computed.abilities.mind, 0);
    assert_eq!(sheet.computed.abilities.charisma, 0);
}

#[test]
fn skill_modifier_end_to_end() {
    let mut sheet = CharSheet::default();
    sheet.level = 5;
    sheet.plan[0].skill_training.acrobatics = true;
    sheet.plan[0].ability_boosts.dexterity = true;
    sheet.compute();
    assert_eq!(sheet.computed.skills.acrobatics.0, Training::Trained);
    assert_eq!(sheet.computed.abilities.dexterity, 1);
    // dexterity (+1) plus trained bonus at level 5 (5 + 2).
    assert_eq!(sheet.computed.skills.acrobatics.1, 8);
}

#[test]
fn modifier_uses_current_level_not_training_level() {
    let mut sheet = CharSheet::default();
    sheet.level = 1;
    sheet.plan[0].skill_training.diplomacy = true;
    sheet.compute();
    assert_eq!(sheet.computed.skills.diplomacy.1, 1 + 2);

    // Same training, higher level: the bonus follows the current level.
    sheet.level = 9;
    sheet.compute();
    assert_eq!(sheet.computed.skills.diplomacy.1, 9 + 2);
}

#[test]
fn rank_saturates_within_the_fold() {
    let mut sheet = CharSheet::default();
    sheet.level = 11;
    // Six increases across active levels: the rank stops at Legendary.
    for idx in 0..6 {
        sheet.plan[idx].skill_training.piloting = true;
    }
    sheet.compute();
    assert_eq!(sheet.computed.skills.piloting.0, Training::Legendary);
}

#[test]
fn full_plan_at_highest_level() {
    let mut sheet = CharSheet::default();
    sheet.level = 20;
    for idx in 0..20 {
        sheet.plan[idx].ability_boosts.strength = true;
        sheet.plan[idx].ability_boosts.dexterity = true;
        sheet.plan[idx].ability_boosts.mind = true;
        sheet.plan[idx].ability_boosts.charisma = true;
        sheet.plan[idx].skill_training.athletics = true;
    }
    sheet.compute();
    assert_eq!(sheet.computed.abilities.strength, 20);
    assert_eq!(sheet.computed.abilities.charisma, 20);
    assert_eq!(sheet.computed.skills.athletics.0, Training::Legendary);
    // strength (+20) plus legendary bonus at level 20 (20 + 8).
    assert_eq!(sheet.computed.skills.athletics.1, 48);
}

#[test]
fn recompute_discards_stale_snapshot() {
    let mut sheet = CharSheet::default();
    sheet.level = 2;
    sheet.plan[0].skill_training.nature = true;
    sheet.compute();
    let fresh = sheet.computed;

    // A garbled snapshot is rebuilt wholesale, not patched.
    sheet.computed.abilities.mind = 100;
    sheet.computed.skills.nature.0 = Training::Legendary;
    sheet.computed.fortitude = Training::Master;
    sheet.compute();
    assert_eq!(sheet.computed, fresh);
    assert_eq!(sheet.computed.fortitude, Training::Untrained);
}

#[test]
fn every_skill_reads_its_linked_ability() {
    let mut sheet = CharSheet::default();
    sheet.level = 1;
    sheet.plan[0].ability_boosts.strength = true;
    sheet.compute();
    let skills = sheet.computed.skills;
    // Strength feeds athletics alone; every other skill stays at zero.
    assert_eq!(skills.athletics.1, 1);
    assert_eq!(skills.acrobatics.1, 0);
    assert_eq!(skills.stealth.1, 0);
    assert_eq!(skills.thievery.1, 0);
    assert_eq!(skills.computers.1, 0);
    assert_eq!(skills.crafting.1, 0);
    assert_eq!(skills.medicine.1, 0);
    assert_eq!(skills.nature.1, 0);
    assert_eq!(skills.piloting.1, 0);
    assert_eq!(skills.society.1, 0);
    assert_eq!(skills.survival.1, 0);
    assert_eq!(skills.deception.1, 0);
    assert_eq!(skills.diplomacy.1, 0);
    assert_eq!(skills.performance.1, 0);
    assert_eq!(skills.intimidation.1, 0);
}

#[test]
fn level_application_order_is_irrelevant() {
    let mut first = charsheet::skills::Skills::default();
    let mut second = first;
    let mut one = charsheet::skills::SkillTraining::default();
    one.acrobatics = true;
    one.society = true;
    let mut two = charsheet::skills::SkillTraining::default();
    two.acrobatics = true;
    two.medicine = true;

    first.apply_training(&one);
    first.apply_training(&two);
    second.apply_training(&two);
    second.apply_training(&one);
    assert_eq!(first, second);

    let mut left = charsheet::state::Abilities::default();
    let mut right = left;
    let mut b1 = charsheet::state::AbilityBoosts::default();
    b1.strength = true;
    b1.mind = true;
    let mut b2 = charsheet::state::AbilityBoosts::default();
    b2.strength = true;
    b2.charisma = true;

    left.apply_boosts(&b1);
    left.apply_boosts(&b2);
    right.apply_boosts(&b2);
    right.apply_boosts(&b1);
    assert_eq!(left, right);
    assert_eq!(left.strength, 2);
    assert_eq!(left.dexterity, 0);
}

#[test]
fn training_labels() {
    assert_eq!(Training::Untrained.label(), "U");
    assert_eq!(Training::Trained.label(), "T");
    assert_eq!(Training::Expert.label(), "E");
    assert_eq!(Training::Master.label(), "M");
    assert_eq!(Training::Legendary.label(), "L");
}
