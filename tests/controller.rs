use shito::controller::{capitalize, default_status, Action, App, Key, Mode};
use shito::models::Character;

fn named(name: &str, id: i64) -> Character {
    let mut c = Character::default();
    c.name = String::from(name);
    c.id = Some(id);
    c
}

fn type_text(app: &mut App, text: &str) {
    for ch in text.chars() {
        let r = app.on_key(Key::Char(ch));
        assert!(matches!(r, Action::Nothing));
    }
}

fn enter(app: &mut App, text: &str) -> Action {
    type_text(app, text);
    app.on_key(Key::Enter)
}

fn rolled(status: &str) -> (Vec<i64>, i64) {
    let open = status.find('[').unwrap();
    let close = status.find(']').unwrap();
    let inner = &status[open + 1..close];
    let rolls = inner.split(", ").map(|s| s.parse::<i64>().unwrap()).collect();
    let total = status.rsplit(' ').next().unwrap().parse::<i64>().unwrap();
    (rolls, total)
}

#[test]
fn wizard_builds_character_from_six_scores() {
    let mut app = App::new(vec![]);
    app.on_key(Key::Char('n'));
    assert_eq!(app.mode, Mode::CreateName);
    assert!(matches!(enter(&mut app, "  Ann "), Action::Nothing));
    assert_eq!(app.mode, Mode::CreateClass);
    enter(&mut app, "Wizard");
    enter(&mut app, "");
    assert_eq!(app.mode, Mode::CreateAbilities);
    enter(&mut app, "15 14 13 12 10 8");
    assert_eq!(app.mode, Mode::CreateHpMax);
    enter(&mut app, "12");
    enter(&mut app, "14");
    enter(&mut app, "30");
    assert_eq!(app.mode, Mode::CreateSkills);
    let r = enter(&mut app, "Stealth, flying;  perception ;");
    assert_eq!(app.mode, Mode::List);
    assert_eq!(app.input, "");
    assert_eq!(app.status, default_status());
    match r {
        Action::Insert(c) => {
            assert_eq!(c.name, "Ann");
            assert_eq!(c.class_name, "Wizard");
            assert_eq!(c.race, "Human");
            assert_eq!(
                [c.strength, c.dexterity, c.constitution, c.intelligence, c.wisdom, c.charisma],
                [15, 14, 13, 12, 10, 8]
            );
            assert_eq!(c.hp_max, 12);
            assert_eq!(c.hp_current, c.hp_max);
            assert_eq!(c.armor_class, 14);
            assert_eq!(c.speed, 30);
            assert_eq!(c.level, 1);
            assert_eq!(c.skill_proficiencies, vec!["stealth", "perception"]);
            assert!(c.id.is_none());
        }
        other => panic!("expected an insert, got {:?}", other),
    }
}

#[test]
fn wizard_rejects_five_scores() {
    let mut app = App::new(vec![]);
    app.on_key(Key::Char('n'));
    enter(&mut app, "A");
    enter(&mut app, "B");
    enter(&mut app, "C");
    enter(&mut app, "15 14 13 12 10");
    assert_eq!(app.mode, Mode::CreateAbilities);
    assert_eq!(app.status, "Please enter exactly 6 numbers");
    assert_eq!(app.input, "15 14 13 12 10");
    app.on_key(Key::Char(' '));
    enter(&mut app, "x 9");
    assert_eq!(app.mode, Mode::CreateHpMax);
}

#[test]
fn wizard_number_steps_reprompt_and_floor_hp() {
    let mut app = App::new(vec![]);
    app.on_key(Key::Char('n'));
    enter(&mut app, "");
    enter(&mut app, "");
    enter(&mut app, "");
    enter(&mut app, "10 10 10 10 10 10");
    enter(&mut app, "lots");
    assert_eq!(app.mode, Mode::CreateHpMax);
    assert_eq!(app.status, "Please enter a valid number");
    app.on_key(Key::Backspace);
    app.on_key(Key::Backspace);
    app.on_key(Key::Backspace);
    app.on_key(Key::Backspace);
    assert_eq!(app.input, "");
    enter(&mut app, "-4");
    enter(&mut app, "12");
    enter(&mut app, "25");
    match enter(&mut app, "") {
        Action::Insert(c) => {
            assert_eq!(c.name, "Unnamed");
            assert_eq!(c.class_name, "Fighter");
            assert_eq!(c.race, "Human");
            assert_eq!(c.hp_max, 1);
            assert_eq!(c.hp_current, 1);
            assert!(c.skill_proficiencies.is_empty());
        }
        other => panic!("expected an insert, got {:?}", other),
    }
}

#[test]
fn wizard_escape_returns_to_list() {
    let mut app = App::new(vec![]);
    app.on_key(Key::Char('n'));
    enter(&mut app, "Bo");
    let r = app.on_key(Key::Esc);
    assert!(matches!(r, Action::Nothing));
    assert_eq!(app.mode, Mode::List);
    assert_eq!(app.status, default_status());
}

#[test]
fn deleting_last_selected_moves_selection_back() {
    let mut app = App::new(vec![named("A", 1), named("B", 2), named("C", 3)]);
    app.on_key(Key::Down);
    app.on_key(Key::Char('j'));
    app.on_key(Key::Down);
    assert_eq!(app.selected, 2);
    match app.on_key(Key::Char('d')) {
        Action::Delete(id) => assert_eq!(id, Some(3)),
        other => panic!("expected a delete, got {:?}", other),
    }
    assert_eq!(app.items.len(), 2);
    assert_eq!(app.selected, 1);
    app.on_key(Key::Char('d'));
    assert_eq!(app.selected, 0);
    app.on_key(Key::Char('d'));
    assert!(app.items.is_empty());
    assert_eq!(app.selected, 0);
    assert!(matches!(app.on_key(Key::Char('d')), Action::Nothing));
    assert_eq!(app.selected, 0);
}

#[test]
fn reload_clamps_selection() {
    let mut app = App::new(vec![named("A", 1), named("B", 2), named("C", 3)]);
    app.on_key(Key::Down);
    app.on_key(Key::Down);
    app.reload(vec![named("A", 1)]);
    assert_eq!(app.selected, 0);
    app.reload(vec![]);
    assert_eq!(app.selected, 0);
}

#[test]
fn list_navigation_is_clamped() {
    let mut app = App::new(vec![named("A", 1), named("B", 2)]);
    app.on_key(Key::Up);
    assert_eq!(app.selected, 0);
    app.on_key(Key::Down);
    app.on_key(Key::Down);
    assert_eq!(app.selected, 1);
    app.on_key(Key::Char('k'));
    assert_eq!(app.selected, 0);
    assert!(matches!(app.on_key(Key::Char('q')), Action::Quit));
}

#[test]
fn enter_on_empty_list_stays() {
    let mut app = App::new(vec![]);
    app.on_key(Key::Enter);
    assert_eq!(app.mode, Mode::List);
    app.on_key(Key::Char('e'));
    assert_eq!(app.mode, Mode::List);
}

#[test]
fn details_tabs_are_clamped() {
    let mut app = App::new(vec![named("A", 1)]);
    app.on_key(Key::Enter);
    assert_eq!(app.mode, Mode::Details);
    app.on_key(Key::Left);
    assert_eq!(app.detail_tab, 0);
    app.on_key(Key::Right);
    app.on_key(Key::Char('l'));
    app.on_key(Key::Right);
    assert_eq!(app.detail_tab, 2);
    app.on_key(Key::Char('h'));
    assert_eq!(app.detail_tab, 1);
    app.on_key(Key::Char('e'));
    assert_eq!(app.mode, Mode::Edit);
}

#[test]
fn edit_keys_change_and_save() {
    let mut c = named("A", 1);
    c.hp_current = 9;
    let mut app = App::new(vec![c]);
    app.on_key(Key::Char('e'));
    assert_eq!(app.mode, Mode::Edit);
    assert!(matches!(app.on_key(Key::Char('+')), Action::Save));
    assert!(matches!(app.on_key(Key::Char('+')), Action::Save));
    assert_eq!(app.items[0].hp_current, 10);
    app.on_key(Key::Char('-'));
    assert_eq!(app.items[0].hp_current, 9);
    assert!(matches!(app.on_key(Key::Char('l')), Action::Save));
    assert_eq!(app.items[0].level, 2);
    app.on_key(Key::Char('3'));
    assert_eq!(app.selected_spell_level, 3);
    assert_eq!(app.status, "Editing: Slot L3 selected");
    assert!(matches!(app.on_key(Key::Char(']')), Action::Save));
    app.on_key(Key::Char(']'));
    app.on_key(Key::Char('['));
    assert_eq!(app.items[0].spell_slots[2], 1);
    app.on_key(Key::Char('a'));
    assert_eq!(app.mode, Mode::EditAddItem);
    assert!(matches!(enter(&mut app, "  lantern "), Action::Save));
    assert_eq!(app.mode, Mode::Edit);
    assert_eq!(app.items[0].inventory, vec!["lantern"]);
    app.on_key(Key::Char('a'));
    enter(&mut app, "   ");
    assert_eq!(app.items[0].inventory.len(), 1);
    assert!(matches!(app.on_key(Key::Char('A')), Action::Save));
    assert!(app.items[0].inventory.is_empty());
    assert!(matches!(app.on_key(Key::Char('A')), Action::Nothing));
    assert!(matches!(app.on_key(Key::Char('s')), Action::Save));
    assert_eq!(app.status, "Saved.");
    app.on_key(Key::Esc);
    assert_eq!(app.mode, Mode::List);
}

#[test]
fn roll_skill_name_is_a_skill_check() {
    let mut c = named("Zed", 1);
    c.dexterity = 14;
    c.skill_proficiencies = vec![String::from("stealth")];
    let mut app = App::new(vec![c]);
    app.on_key(Key::Char('r'));
    assert_eq!(app.mode, Mode::Roll);
    enter(&mut app, "Stealth ");
    assert_eq!(app.mode, Mode::List);
    assert!(app.status.starts_with("Zed rolls Stealth check: ["));
    let (rolls, total) = rolled(&app.status);
    assert_eq!(rolls.len(), 1);
    assert!(rolls[0] >= 1 && rolls[0] <= 20);
    assert_eq!(total, rolls[0] + 4);
}

#[test]
fn roll_dice_spec_first() {
    let mut app = App::new(vec![named("Zed", 1)]);
    app.on_key(Key::Char('r'));
    enter(&mut app, "3d1");
    assert_eq!(app.status, "Zed rolls 3d1: [1, 1, 1] total 3");
}

#[test]
fn roll_ability_and_fallback() {
    let mut c = named("Zed", 1);
    c.wisdom = 6;
    let mut app = App::new(vec![c]);
    app.on_key(Key::Char('r'));
    enter(&mut app, "WIS");
    assert!(app.status.starts_with("Zed rolls WIS ability: ["));
    let (rolls, total) = rolled(&app.status);
    assert_eq!(total, rolls[0] - 2);
    app.on_key(Key::Char('r'));
    enter(&mut app, "wisdom");
    assert!(app.status.starts_with("Zed rolls d20: ["));
    let (rolls, total) = rolled(&app.status);
    assert_eq!(total, rolls[0]);
}

#[test]
fn roll_without_character_is_plain_d20() {
    let mut app = App::new(vec![]);
    app.on_key(Key::Char('r'));
    enter(&mut app, "2d1");
    assert!(app.status.starts_with(" rolls 2d1: ["));
    let (rolls, total) = rolled(&app.status);
    assert_eq!(rolls.len(), 1);
    assert!(rolls[0] >= 1 && rolls[0] <= 20);
    assert_eq!(total, rolls[0]);
}

#[test]
fn roll_list_and_capitalize() {
    assert_eq!(App::rolls_list(&vec![]), "[]");
    assert_eq!(App::rolls_list(&vec![4, -12, 600]), "[4, -12, 600]");
    assert_eq!(capitalize("animal handling"), "Animal handling");
    assert_eq!(capitalize(""), "");
    assert_eq!(capitalize("\u{df}x"), "SSx");
}
