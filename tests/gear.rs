use wynn_tools::gear::{
    fallback_catalog, gear_to_some, remove_gear, select_gear, Gear, GearList, GearType,
};

fn catalog() -> GearList {
    GearList {
        items: vec![
            Gear::default_for_type(GearType::Helmet, "Cap", 1),
            Gear::default_for_type(GearType::Relik, "Relik A", 2),
            Gear::default_for_type(GearType::Spear, "Spear A", 3),
            Gear::default_for_type(GearType::Helmet, "Crown", 4),
            Gear::default_for_type(GearType::Bow, "Bow A", 5),
            Gear::default_for_type(GearType::Wand, "Wand A", 6),
            Gear::default_for_type(GearType::Dagger, "Dagger A", 7),
            Gear::default_for_type(GearType::Ring, "Ring A", 8),
            Gear::default_for_type(GearType::Spear, "Spear B", 9),
            Gear::default_for_type(GearType::Untyped, "Thing", 10),
        ],
    }
}

#[test]
fn gear_by_type_keeps_catalog_order() {
    let list = catalog();
    assert_eq!(list.get_gear_by_type(GearType::Helmet), vec!["Cap", "Crown"]);
    assert_eq!(list.helmets(), vec!["Cap", "Crown"]);
    assert_eq!(list.rings(), vec!["Ring A"]);
    assert!(list.chestplates().is_empty());
    assert!(list.leggings().is_empty());
    assert!(list.boots().is_empty());
    assert!(list.bracelets().is_empty());
    assert!(list.necklaces().is_empty());
}

#[test]
fn weapons_are_grouped_by_kind() {
    assert_eq!(
        catalog().weapons(),
        vec!["Spear A", "Spear B", "Wand A", "Bow A", "Dagger A", "Relik A"]
    );
}

#[test]
fn empty_catalog_has_no_names() {
    let list = GearList { items: vec![] };
    assert!(list.helmets().is_empty());
    assert!(list.weapons().is_empty());
}

#[test]
fn default_gear_is_common() {
    let gear = Gear::default_for_type(GearType::Boots, "No boots found", -4);
    assert_eq!(gear.id, -4);
    assert_eq!(gear.name, "No boots found");
    assert_eq!(gear.tier, "Common");
    assert_eq!(gear.gear_type, GearType::Boots);
}

#[test]
fn selections_hold_each_name() {
    let names = vec!["Cap".to_string(), "Crown".to_string()];
    assert_eq!(gear_to_some(names), vec![Some("Cap".to_string()), Some("Crown".to_string())]);
    assert!(gear_to_some(vec![]).is_empty());
}

#[test]
fn selecting_fills_slot_and_records_name() {
    let mut selections = vec![None, None];
    let mut chosen = vec!["Cap".to_string()];
    select_gear(&mut selections, &mut chosen, 1, "Crown".to_string());
    assert_eq!(selections, vec![None, Some("Crown".to_string())]);
    assert_eq!(chosen, vec!["Cap", "Crown"]);
    select_gear(&mut selections, &mut chosen, 7, "Hood".to_string());
    assert_eq!(selections.len(), 2);
    assert_eq!(chosen, vec!["Cap", "Crown", "Hood"]);
}

#[test]
fn removing_drops_slot_and_every_copy_of_name() {
    let mut selections = vec![Some("Cap".to_string()), Some("Crown".to_string()), None];
    let mut chosen = vec!["Cap".to_string(), "Crown".to_string(), "Cap".to_string()];
    remove_gear(&mut selections, &mut chosen, 0);
    assert_eq!(selections, vec![Some("Crown".to_string()), None]);
    assert_eq!(chosen, vec!["Crown"]);
}

#[test]
fn removing_slot_without_chosen_name_keeps_names() {
    let mut selections = vec![None, None];
    let mut chosen = vec!["Cap".to_string()];
    remove_gear(&mut selections, &mut chosen, 1);
    assert_eq!(selections, vec![None]);
    assert_eq!(chosen, vec!["Cap"]);
}

#[test]
fn fallback_catalog_has_one_placeholder_per_kind() {
    let list = fallback_catalog();
    assert_eq!(list.items.len(), 8);
    assert_eq!(list.helmets(), vec!["No helmets found"]);
    assert_eq!(list.necklaces(), vec!["No necklaces found"]);
    assert_eq!(list.weapons(), vec!["No weapons found"]);
    assert_eq!(list.items[7].id, -8);
    assert!(list.items.iter().all(|g| g.tier == "Common"));
}
