use shito::models::{all_skills, skill_to_ability, Character};
use shito::record::{decode_names, decode_slots, encode_lists};
use shito::view::{general_lines, inventory_lines, list_label, skill_lines, slots_line};

fn hero() -> Character {
    Character::default()
}

#[test]
fn ability_mod_known_values() {
    assert_eq!(Character::ability_mod(10), 0);
    assert_eq!(Character::ability_mod(9), -1);
    assert_eq!(Character::ability_mod(20), 5);
    assert_eq!(Character::ability_mod(1), -5);
    assert_eq!(Character::ability_mod(11), 0);
    assert_eq!(Character::ability_mod(i32::MIN), -1073741829);
    assert_eq!(Character::ability_mod(i32::MAX), 1073741818);
}

#[test]
fn ability_mod_is_monotonic() {
    let mut prev = Character::ability_mod(-40);
    for s in -39..60 {
        let m = Character::ability_mod(s);
        assert!(m >= prev);
        prev = m;
    }
}

#[test]
fn named_modifiers() {
    let mut c = hero();
    c.strength = 15;
    c.dexterity = 8;
    c.constitution = 14;
    c.intelligence = 12;
    c.wisdom = 13;
    c.charisma = 20;
    assert_eq!(c.str_mod(), 2);
    assert_eq!(c.dex_mod(), -1);
    assert_eq!(c.con_mod(), 2);
    assert_eq!(c.int_mod(), 1);
    assert_eq!(c.wis_mod(), 1);
    assert_eq!(c.cha_mod(), 5);
    assert_eq!(c.ability_modifier_by_name("STR"), 2);
    assert_eq!(c.ability_modifier_by_name("Dexterity"), -1);
    assert_eq!(c.ability_modifier_by_name("cha"), 5);
    assert_eq!(c.ability_modifier_by_name("luck"), 0);
    assert_eq!(c.ability_modifier_by_key("wisdom"), 1);
    assert_eq!(c.ability_modifier_by_key("WIS"), 0);
}

#[test]
fn proficiency_bonus_tiers() {
    let mut c = hero();
    for level in 1..=20 {
        c.level = level;
        let want = match level {
            1..=4 => 2,
            5..=8 => 3,
            9..=12 => 4,
            13..=16 => 5,
            _ => 6,
        };
        assert_eq!(c.proficiency_bonus(), want);
    }
}

#[test]
fn change_hp_stays_in_bounds() {
    let mut c = hero();
    c.hp_max = 12;
    c.hp_current = 5;
    c.change_hp(3);
    assert_eq!(c.hp_current, 8);
    c.change_hp(100);
    assert_eq!(c.hp_current, 12);
    c.change_hp(-7);
    assert_eq!(c.hp_current, 5);
    c.change_hp(i32::MIN);
    assert_eq!(c.hp_current, 0);
    c.change_hp(i32::MAX);
    assert_eq!(c.hp_current, 12);
    for delta in -30..30 {
        c.change_hp(delta);
        assert!(c.hp_current >= 0 && c.hp_current <= c.hp_max);
    }
}

#[test]
fn set_hp_clamps() {
    let mut c = hero();
    c.set_hp(4);
    assert_eq!(c.hp_current, 4);
    c.set_hp(-3);
    assert_eq!(c.hp_current, 0);
    c.set_hp(99);
    assert_eq!(c.hp_current, 10);
}

#[test]
fn level_up_adds_one() {
    let mut c = hero();
    c.level_up();
    assert_eq!(c.level, 2);
    assert_eq!(c.hp_max, 10);
}

#[test]
fn inventory_edits() {
    let mut c = hero();
    c.add_item(String::from("rope"));
    c.add_item(String::from("   "));
    c.add_item(String::from(""));
    c.add_item(String::from("rope"));
    c.add_item(String::from("torch"));
    assert_eq!(c.inventory, vec!["rope", "rope", "torch"]);
    c.remove_item(7);
    assert_eq!(c.inventory.len(), 3);
    c.remove_item(0);
    assert_eq!(c.inventory, vec!["rope", "torch"]);
}

#[test]
fn spell_slot_adjustments() {
    let mut c = hero();
    c.adjust_spell_slot(1, 2);
    c.adjust_spell_slot(9, 1);
    assert_eq!(c.spell_slots, vec![2, 0, 0, 0, 0, 0, 0, 0, 1]);
    c.adjust_spell_slot(1, -5);
    assert_eq!(c.spell_slots[0], 0);
    c.adjust_spell_slot(0, 3);
    c.adjust_spell_slot(10, 3);
    assert_eq!(c.spell_slots, vec![0, 0, 0, 0, 0, 0, 0, 0, 1]);
}

#[test]
fn skill_modifier_athletics_at_level_five() {
    let mut c = hero();
    c.strength = 10;
    c.level = 5;
    c.skill_proficiencies = vec![String::from("athletics")];
    assert_eq!(c.skill_modifier("athletics"), 3);
    assert_eq!(c.skill_modifier("Athletics"), 3);
    assert_eq!(c.skill_modifier("stealth"), 0);
}

#[test]
fn skill_modifier_matches_proficiency_in_any_case() {
    let mut c = hero();
    c.dexterity = 16;
    c.skill_proficiencies = vec![String::from("Stealth")];
    assert_eq!(c.skill_modifier("stealth"), 5);
    assert_eq!(c.skill_modifier_by_key("stealth"), 5);
    assert_eq!(c.skill_modifier("acrobatics"), 3);
}

#[test]
fn unknown_skill_falls_back_to_strength() {
    let mut c = hero();
    c.strength = 14;
    assert_eq!(c.skill_modifier("juggling"), 2);
    let (ability, key) = skill_to_ability("juggling");
    assert_eq!(ability, "str");
    assert_eq!(key, "");
}

#[test]
fn skill_lookup() {
    let (ability, key) = skill_to_ability("Sleight of Hand");
    assert_eq!(ability, "dex");
    assert_eq!(key, "sleight of hand");
    let skills = all_skills();
    assert_eq!(skills.len(), 18);
    assert_eq!(skills[0], ("acrobatics", "dex"));
    assert_eq!(skills[17], ("survival", "wis"));
    assert!(shito::models::catalog_has("medicine"));
    assert!(!shito::models::catalog_has("Medicine"));
}

#[test]
fn default_character() {
    let c = Character::default();
    assert_eq!(c.name, "Unnamed");
    assert_eq!(c.class_name, "Fighter");
    assert_eq!(c.race, "Human");
    assert_eq!(c.level, 1);
    assert_eq!(c.hp_current, 10);
    assert_eq!(c.speed, 30);
    assert_eq!(c.spell_slots, vec![0; 9]);
    assert!(c.id.is_none());
}

#[test]
fn record_lists_round_trip() {
    let mut c = Character::default();
    c.spell_slots = vec![4, 3, 0, 0, 0, 0, 0, 0, 1];
    c.inventory = vec![String::from("rope"), String::from("a \"quoted\" lamp")];
    c.skill_proficiencies = vec![String::from("stealth")];
    let e = encode_lists(&c).unwrap();
    assert_eq!(e.spell_slots, "[4,3,0,0,0,0,0,0,1]");
    assert_eq!(e.skill_proficiencies, "[\"stealth\"]");
    assert_eq!(decode_slots(&e.spell_slots), c.spell_slots);
    assert_eq!(decode_names(&e.inventory), c.inventory);
    assert_eq!(decode_slots("not json"), vec![0; 9]);
    assert_eq!(decode_slots("[1,2]"), vec![1, 2]);
    assert!(decode_names("{}").is_empty());
}

#[test]
fn view_lines() {
    let mut c = Character::default();
    c.name = String::from("Ann");
    c.hp_current = 7;
    assert_eq!(list_label(&c), "Ann (Lv 1) - 7/10 HP - AC 10");
    assert_eq!(slots_line(&c), "1:0  2:0  3:0  4:0  5:0  6:0  7:0  8:0  9:0");
    assert_eq!(inventory_lines(&c), vec!["Inventory:", "  (empty)"]);
    c.inventory = vec![String::from("rope")];
    assert_eq!(inventory_lines(&c), vec!["Inventory:", "  - rope"]);
}

#[test]
fn view_general_and_skills() {
    let mut c = Character::default();
    c.name = String::from("Ann");
    c.strength = 15;
    c.dexterity = 8;
    c.notes = Some(String::from("brave"));
    c.skill_proficiencies = vec![String::from("stealth")];
    let g = general_lines(&c);
    assert_eq!(g[0], "Ann the Human Fighter (Lv 1)");
    assert_eq!(g[2], "HP 10/10  AC 10  SPD 30");
    assert_eq!(
        g[3],
        "STR 15 (2), DEX 8 (-1), CON 10 (0), INT 10 (0), WIS 10 (0), CHA 10 (0)"
    );
    assert_eq!(g[4], "Prof bonus: +2");
    assert_eq!(&g[8..], &["", "Notes:", "brave"]);
    let s = skill_lines(&c);
    assert_eq!(s.len(), 19);
    assert_eq!(s[0], "Skills:");
    assert_eq!(s[1], "  Acrobatics (DEX): -1");
    assert_eq!(s[4], "  Athletics (STR): +2");
    assert_eq!(s[17], "  Stealth* (DEX): +1");
}
