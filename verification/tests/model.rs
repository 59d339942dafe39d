//! Tests of the character model: default construction, plan access and
//! inventory edits.

use charsheet::state::CharSheet;
use charsheet::state::Class;
use charsheet::state::Inventory;
use charsheet::state::LevelPlan;
use charsheet::state::Species;
use charsheet::state::Training;

#[test]
fn default_sheet() {
    let sheet = CharSheet::default();
    assert_eq!(sheet.name, "");
    assert_eq!(sheet.level, 1);
    assert_eq!(sheet.ethnicity, "");
    assert_eq!(sheet.species, Species::Human);
    assert_eq!(sheet.size, 170);
    assert_eq!(sheet.class, Class::Engineer);
    assert_eq!(sheet.plan.len(), 20);
    for entry in &sheet.plan {
        assert_eq!(*entry, LevelPlan::default());
        assert_eq!(entry.feats, 0);
        assert!(!entry.skill_training.acrobatics);
        assert!(!entry.ability_boosts.strength);
    }
    assert_eq!(sheet.inventory, Inventory::default());
    assert!(sheet.inventory.items.is_empty());
    assert_eq!(sheet.computed.abilities.strength, 0);
    assert_eq!(sheet.computed.skills.acrobatics.0, Training::Untrained);
    assert_eq!(sheet.computed.skills.acrobatics.1, 0);
    assert_eq!(sheet.computed.fortitude, Training::Untrained);
    assert_eq!(sheet.add_item.item_search, "");
    assert_eq!(sheet.add_item.custom_item_name, "");
    assert_eq!(sheet.add_item.custom_item_bulk, 0);
}

#[test]
fn level_plan_gives_the_one_based_entry() {
    let mut sheet = CharSheet::default();
    sheet.plan[3].feats = 9;
    assert_eq!(sheet.level_plan(4).feats, 9);

    sheet.level_plan(1).skill_training.crafting = true;
    assert!(sheet.plan[0].skill_training.crafting);
    sheet.level_plan(20).ability_boosts.mind = true;
    assert!(sheet.plan[19].ability_boosts.mind);
}

#[test]
fn add_item_appends_one_carried_item_with_placeholder_id() {
    let mut inventory = Inventory::default();
    inventory.gold = 12;
    inventory.add_item(String::from("Rope"), 1);
    inventory.add_item(String::from("Crowbar"), 2);

    assert_eq!(inventory.items.len(), 2);
    let (item, count) = &inventory.items[0];
    assert_eq!(item.id, 0);
    assert_eq!(item.name, "Rope");
    assert_eq!(item.bulk, 1);
    assert_eq!(*count, 1);
    let (item, count) = &inventory.items[1];
    assert_eq!(item.name, "Crowbar");
    assert_eq!(item.bulk, 2);
    assert_eq!(*count, 1);
    // Currency is untouched by an item edit.
    assert_eq!(inventory.gold, 12);
}
