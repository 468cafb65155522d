//! The modal controller: it holds the character list, the selection and the
//! text being typed, and turns each key press into a new state and an action
//! for the store.
use vstd::prelude::*;
use vstd::string::*;
use crate::dice::{dice_of, lemma_not_dice, parse_dice_text, roll_dice, sum_of};
use crate::models::{
    catalog_has, clamp_of, first_skill_at, in_catalog, skill_catalog, skill_entry, Character,
};
use crate::text::{
    decimal, decimal_of, i32_value, same_text, lower_of, lowercase, parse_i32, pop_char, push_char,
    trim, trim_of, upper_of, uppercase_char, words, words_of,
};

verus! {

/// What the controller is doing, and so how it reads keys.
#[derive(Clone, Copy, Debug, PartialEq, Eq, Structural)]
pub enum Mode {
    List,
    Details,
    Edit,
    EditAddItem,
    CreateName,
    CreateClass,
    CreateRace,
    CreateAbilities,
    CreateHpMax,
    CreateAc,
    CreateSpeed,
    CreateSkills,
    Roll,
}

/// A key press, as the terminal reports it.
#[derive(Clone, Copy, Debug, PartialEq, Eq, Structural)]
pub enum Key {
    Char(char),
    Up,
    Down,
    Left,
    Right,
    Enter,
    Esc,
    Backspace,
    Other,
}

/// What the store, or the program, has to do after a key press.
#[derive(Debug)]
pub enum Action {
    Nothing,
    /// Leave the program.
    Quit,
    /// Write the selected character back to the store.
    Save,
    /// Insert a newly created character, then reload the list.
    Insert(Character),
    /// Delete the stored character with this id (if it has one), then
    /// reload the list.
    Delete(Option<i64>),
}

/// What the creation wizard has collected so far.
#[derive(Debug, Clone)]
pub struct NewCharDraft {
    pub name: String,
    pub class_name: String,
    pub race: String,
    /// STR, DEX, CON, INT, WIS, CHA.
    pub abilities: [i32; 6],
    pub hp_max: i32,
    pub hp_current: i32,
    pub armor_class: i32,
    pub speed: i32,
    pub skill_proficiencies: Vec<String>,
}

/// The controller's whole state.
pub struct App {
    pub items: Vec<Character>,
    pub selected: usize,
    pub mode: Mode,
    pub input: String,
    pub status: String,
    pub wizard: Option<NewCharDraft>,
    pub selected_spell_level: usize,
    pub detail_tab: usize,
}

/// Whether the mode is one of the creation wizard's steps.
pub open spec fn is_create_mode(m: Mode) -> bool {
    match m {
        Mode::CreateName | Mode::CreateClass | Mode::CreateRace | Mode::CreateAbilities
        | Mode::CreateHpMax | Mode::CreateAc | Mode::CreateSpeed | Mode::CreateSkills => true,
        _ => false,
    }
}

pub open spec fn default_status_text() -> Seq<char> {
    "Enter: open details \u{2022} q: quit \u{2022} n: new \u{2022} d: delete \u{2022} r: roll"@
}

pub open spec fn details_status_text() -> Seq<char> {
    "Arrows/Tabs: switch tabs \u{2022} e: edit \u{2022} r: roll \u{2022} Esc: back"@
}

pub open spec fn edit_status_text() -> Seq<char> {
    "Editing: +/- hp \u{2022} [/] adjust slot \u{2022} 1-9 select \u{2022} a/A add/remove item \u{2022} l level up \u{2022} s save \u{2022} Esc: back"@
}

pub fn default_status() -> (r: String)
    ensures
        r@ == default_status_text(),
{
    String::from_str("Enter: open details \u{2022} q: quit \u{2022} n: new \u{2022} d: delete \u{2022} r: roll")
}

pub fn details_status() -> (r: String)
    ensures
        r@ == details_status_text(),
{
    String::from_str("Arrows/Tabs: switch tabs \u{2022} e: edit \u{2022} r: roll \u{2022} Esc: back")
}

pub fn edit_status() -> (r: String)
    ensures
        r@ == edit_status_text(),
{
    String::from_str("Editing: +/- hp \u{2022} [/] adjust slot \u{2022} 1-9 select \u{2022} a/A add/remove item \u{2022} l level up \u{2022} s save \u{2022} Esc: back")
}

/// A text with its first character in upper case.
pub open spec fn capitalized(s: Seq<char>) -> Seq<char> {
    if s.len() == 0 {
        s
    } else {
        upper_of(s[0]) + s.drop_first()
    }
}

/// A text with its first character in upper case.
pub fn capitalize(s: &str) -> (r: String)
    ensures
        r@ == capitalized(s@),
{
    let n = s.unicode_len();
    if n == 0 {
        return String::new();
    }
    let first = uppercase_char(s.get_char(0));
    let rest = s.substring_char(1, n);
    assert(rest@ =~= s@.drop_first());
    first.concat(rest)
}

/// The selection after the list has changed: kept where it is still in
/// the list, else moved to the last item, or 0 for an empty list.
pub open spec fn clamp_selection(selected: int, len: int) -> int {
    if selected < len {
        selected
    } else if len > 0 {
        len - 1
    } else {
        0
    }
}

impl App {
    /// The controller's invariant: the selection is in the list (or 0 when
    /// the list is empty), a spell level between 1 and 9 is picked, the
    /// detail tab is one of three, a draft exists while creating, and its
    /// current hit points are its maximum, at least 1 once that was entered.
    pub open spec fn wf(&self) -> bool {
        &&& (self.items@.len() == 0 ==> self.selected == 0)
        &&& (self.items@.len() > 0 ==> self.selected < self.items@.len())
        &&& 1 <= self.selected_spell_level <= 9
        &&& self.detail_tab <= 2
        &&& (is_create_mode(self.mode) ==> self.wizard.is_some())
        &&& (self.wizard matches Some(d) ==> d.hp_current == d.hp_max)
        &&& (self.mode == Mode::CreateAc || self.mode == Mode::CreateSpeed || self.mode
            == Mode::CreateSkills ==> (self.wizard matches Some(d) && d.hp_max >= 1))
    }

    /// Whether a character is selected.
    pub open spec fn has_current(&self) -> bool {
        self.selected < self.items@.len()
    }

    /// A controller in List mode over the given characters.
    pub fn new(items: Vec<Character>) -> (r: App)
        ensures
            r.wf(),
            r.items@ == items@,
            r.selected == 0,
            r.mode == Mode::List,
            r.input@.len() == 0,
            r.wizard.is_none(),
            r.selected_spell_level == 1,
            r.detail_tab == 0,
    {
        App {
            items,
            selected: 0,
            mode: Mode::List,
            input: String::new(),
            status: String::from_str("q: quit \u{2022} n: new \u{2022} e: edit \u{2022} d: delete \u{2022} r: roll \u{2022} +/- hp \u{2022} [/] slot \u{2022} 1-9 select slot"),
            wizard: None,
            selected_spell_level: 1,
            detail_tab: 0,
        }
    }

    /// Replaces the list with what the store holds now, keeping the
    /// selection within it.
    pub fn reload(&mut self, items: Vec<Character>)
        requires
            old(self).wf(),
        ensures
            final(self).wf(),
            *final(self) == (App {
                items: final(self).items,
                selected: clamp_selection(old(self).selected as int, items@.len() as int) as usize,
                ..*old(self)
            }),
            final(self).items@ == items@,
    {
        self.items = items;
        if self.selected >= self.items.len() {
            self.selected = if self.items.len() > 0 {
                self.items.len() - 1
            } else {
                0
            };
        }
    }

    /// Types a key into the input line.
    fn type_key(&mut self, key: Key)
        ensures
            typed(*old(self), key, *final(self)),
    {
        match key {
            Key::Char(c) => push_char(&mut self.input, c),
            Key::Backspace => {
                pop_char(&mut self.input);
            },
            _ => {},
        }
    }

    fn new_draft() -> (d: NewCharDraft)
        ensures
            fresh_draft(d),
    {
        let d = NewCharDraft {
            name: String::new(),
            class_name: String::new(),
            race: String::new(),
            abilities: [0, 0, 0, 0, 0, 0],
            hp_max: 0,
            hp_current: 0,
            armor_class: 0,
            speed: 0,
            skill_proficiencies: Vec::new(),
        };
        assert(d.abilities@ =~= seq![0i32, 0, 0, 0, 0, 0]);
        d
    }

    fn on_list_key(&mut self, key: Key) -> (r: Action)
        requires
            old(self).wf(),
            old(self).mode == Mode::List,
        ensures
            list_step(*old(self), key, *final(self), r),
    {
        let len = self.items.len();
        if key == Key::Char('q') {
            Action::Quit
        } else if key == Key::Down || key == Key::Char('j') {
            if len > 0 {
                self.selected = if self.selected + 1 < len {
                    self.selected + 1
                } else {
                    len - 1
                };
            }
            Action::Nothing
        } else if key == Key::Up || key == Key::Char('k') {
            if len > 0 && self.selected > 0 {
                self.selected = self.selected - 1;
            }
            Action::Nothing
        } else if key == Key::Enter {
            if len > 0 {
                self.mode = Mode::Details;
                self.status = details_status();
            }
            Action::Nothing
        } else if key == Key::Char('n') {
            self.mode = Mode::CreateName;
            self.input = String::new();
            self.status = String::from_str("Create: Enter name. Enter to confirm. Esc to cancel.");
            self.wizard = Some(Self::new_draft());
            Action::Nothing
        } else if key == Key::Char('e') {
            if self.selected < len {
                self.mode = Mode::Edit;
                self.status = String::from_str("Editing: +/- hp \u{2022} [/] adjust \u{2022} 1-9 select slot \u{2022} a/A add/remove item \u{2022} l level up \u{2022} s save \u{2022} Esc cancel");
            }
            Action::Nothing
        } else if key == Key::Char('d') {
            if self.selected < len {
                let gone = self.items.remove(self.selected);
                if self.selected >= self.items.len() {
                    self.selected = if self.items.len() > 0 {
                        self.items.len() - 1
                    } else {
                        0
                    };
                }
                Action::Delete(gone.id)
            } else {
                Action::Nothing
            }
        } else if key == Key::Char('r') {
            self.mode = Mode::Roll;
            self.input = String::new();
            self.status = String::from_str("Type dice (e.g., d20, 2d6) then Enter. Esc cancel");
            Action::Nothing
        } else {
            Action::Nothing
        }
    }

    /// The trimmed input line, or the default when it is empty.
    fn entered_text(&self, dflt: &str) -> (r: String)
        ensures
            r@ == text_or(trim_of(self.input@), dflt@),
    {
        let t = trim(self.input.as_str());
        if t.unicode_len() == 0 {
            String::from_str(dflt)
        } else {
            String::from_str(t)
        }
    }

    /// Takes a text entry of the wizard and moves to the next step.
    fn set_draft_text(&mut self, dflt: &str, next: Mode, prompt: &str)
        requires
            old(self).wf(),
            old(self).mode == Mode::CreateName || old(self).mode == Mode::CreateClass
                || old(self).mode == Mode::CreateRace,
            dflt@ == text_default(old(self).mode),
            next == next_text_step(old(self).mode),
            prompt@ == next_text_prompt(old(self).mode),
        ensures
            advanced(*old(self), *final(self), next, prompt@),
            draft_text_set(
                old(self).mode,
                old(self).wizard.unwrap(),
                final(self).wizard.unwrap(),
                text_or(trim_of(old(self).input@), dflt@),
            ),
    {
        let v = self.entered_text(dflt);
        let mode = self.mode;
        match self.wizard {
            Some(ref mut w) => {
                if mode == Mode::CreateName {
                    w.name = v;
                } else if mode == Mode::CreateClass {
                    w.class_name = v;
                } else {
                    w.race = v;
                }
            },
            None => {},
        }
        self.input = String::new();
        self.mode = next;
        self.status = String::from_str(prompt);
    }

    fn on_create_text_key(&mut self, key: Key) -> (r: Action)
        requires
            old(self).wf(),
            old(self).mode == Mode::CreateName || old(self).mode == Mode::CreateClass
                || old(self).mode == Mode::CreateRace,
        ensures
            create_text_step(*old(self), key, *final(self), r),
    {
        if key == Key::Esc {
            self.mode = Mode::List;
            self.status = default_status();
        } else if key == Key::Enter {
            if self.mode == Mode::CreateName {
                self.set_draft_text("Unnamed", Mode::CreateClass, "Enter class");
            } else if self.mode == Mode::CreateClass {
                self.set_draft_text("Fighter", Mode::CreateRace, "Enter race");
            } else {
                self.set_draft_text(
                    "Human",
                    Mode::CreateAbilities,
                    "Enter abilities as STR DEX CON INT WIS CHA (e.g., 15 14 13 12 10 8)",
                );
            }
        } else {
            self.type_key(key);
        }
        Action::Nothing
    }

    /// The integers typed on the input line, in order.
    fn typed_numbers(&self) -> (r: Vec<i32>)
        ensures
            r@ == numbers_of(words_of(self.input@)),
    {
        let ws = words(self.input.as_str());
        let ghost all = words_of(self.input@);
        let mut nums: Vec<i32> = Vec::new();
        let mut i: usize = 0;
        while i < ws.len()
            invariant
                ws@.len() == all.len(),
                forall|k: int| 0 <= k < ws@.len() ==> (#[trigger] ws@[k])@ == all[k],
                i <= ws@.len(),
                nums@ == numbers_of(all.subrange(0, i as int)),
            decreases ws@.len() - i,
        {
            assert(all.subrange(0, i + 1).drop_last() =~= all.subrange(0, i as int));
            match parse_i32(ws[i].as_str()) {
                Some(v) => nums.push(v),
                None => {},
            }
            i += 1;
        }
        assert(all.subrange(0, ws@.len() as int) =~= all);
        nums
    }

    fn on_create_abilities_key(&mut self, key: Key) -> (r: Action)
        requires
            old(self).wf(),
            old(self).mode == Mode::CreateAbilities,
        ensures
            create_abilities_step(*old(self), key, *final(self), r),
    {
        if key == Key::Esc {
            self.mode = Mode::List;
            self.status = default_status();
        } else if key == Key::Enter {
            let nums = self.typed_numbers();
            if nums.len() != 6 {
                self.status = String::from_str("Please enter exactly 6 numbers");
            } else {
                match self.wizard {
                    Some(ref mut w) => {
                        w.abilities = [nums[0], nums[1], nums[2], nums[3], nums[4], nums[5]];
                        assert(w.abilities@ =~= nums@);
                    },
                    None => {},
                }
                self.input = String::new();
                self.mode = Mode::CreateHpMax;
                self.status = String::from_str("Enter HP Max (number)");
            }
        } else {
            self.type_key(key);
        }
        Action::Nothing
    }

    fn on_create_number_key(&mut self, key: Key) -> (r: Action)
        requires
            old(self).wf(),
            old(self).mode == Mode::CreateHpMax || old(self).mode == Mode::CreateAc
                || old(self).mode == Mode::CreateSpeed,
        ensures
            create_number_step(*old(self), key, *final(self), r),
    {
        if key == Key::Esc {
            self.mode = Mode::List;
            self.status = default_status();
        } else if key == Key::Enter {
            match parse_i32(trim(self.input.as_str())) {
                Some(v) => {
                    let mode = self.mode;
                    match self.wizard {
                        Some(ref mut w) => {
                            if mode == Mode::CreateHpMax {
                                w.hp_max = if v < 1 {
                                    1
                                } else {
                                    v
                                };
                                w.hp_current = w.hp_max;
                            } else if mode == Mode::CreateAc {
                                w.armor_class = v;
                            } else {
                                w.speed = v;
                            }
                        },
                        None => {},
                    }
                    self.input = String::new();
                    if mode == Mode::CreateHpMax {
                        self.mode = Mode::CreateAc;
                        self.status = String::from_str("Enter Armor Class (AC) number");
                    } else if mode == Mode::CreateAc {
                        self.mode = Mode::CreateSpeed;
                        self.status = String::from_str("Enter Speed (ft) number");
                    } else {
                        self.mode = Mode::CreateSkills;
                        self.status = String::from_str("Enter skills separated by comma or semicolon (e.g., perception, stealth or stealth; perception)");
                    }
                },
                None => {
                    self.status = String::from_str("Please enter a valid number");
                },
            }
        } else {
            self.type_key(key);
        }
        Action::Nothing
    }

    /// The pieces of the input line between commas and semicolons.
    fn typed_pieces(&self) -> (r: Vec<String>)
        ensures
            r@.len() == pieces_of(self.input@).len(),
            forall|k: int| 0 <= k < r@.len() ==> (#[trigger] r@[k])@ == pieces_of(self.input@)[k],
    {
        let s = self.input.as_str();
        let n = s.unicode_len();
        let mut done: Vec<String> = Vec::new();
        let mut cur = String::new();
        let mut i: usize = 0;
        while i < n
            invariant
                n == s@.len(),
                s@ == self.input@,
                i <= n,
                done@.len() == split_state(s@.subrange(0, i as int)).0.len(),
                forall|k: int|
                    0 <= k < done@.len() ==> (#[trigger] done@[k])@ == split_state(
                        s@.subrange(0, i as int),
                    ).0[k],
                cur@ == split_state(s@.subrange(0, i as int)).1,
            decreases n - i,
        {
            assert(s@.subrange(0, i + 1).drop_last() =~= s@.subrange(0, i as int));
            let c = s.get_char(i);
            if c == ',' || c == ';' {
                let piece = cur;
                done.push(piece);
                cur = String::new();
            } else {
                push_char(&mut cur, c);
            }
            i += 1;
        }
        assert(s@.subrange(0, n as int) =~= s@);
        done.push(cur);
        done
    }

    /// The pieces that name catalog skills, trimmed and lowercased.
    fn picked_from(pieces: &Vec<String>) -> (r: Vec<String>)
        ensures
            r@.len() == picked_skills(pieces@.map_values(|p: String| p@)).len(),
            forall|k: int|
                0 <= k < r@.len() ==> (#[trigger] r@[k])@ == picked_skills(
                    pieces@.map_values(|p: String| p@),
                )[k],
    {
        let ghost ps = pieces@.map_values(|p: String| p@);
        let mut picked: Vec<String> = Vec::new();
        let mut i: usize = 0;
        while i < pieces.len()
            invariant
                ps == pieces@.map_values(|p: String| p@),
                i <= pieces@.len(),
                picked@.len() == picked_skills(ps.subrange(0, i as int)).len(),
                forall|k: int|
                    0 <= k < picked@.len() ==> (#[trigger] picked@[k])@ == picked_skills(
                        ps.subrange(0, i as int),
                    )[k],
            decreases pieces@.len() - i,
        {
            assert(ps.subrange(0, i + 1).drop_last() =~= ps.subrange(0, i as int));
            let t = lowercase(trim(pieces[i].as_str()));
            if t.unicode_len() > 0 {
                let (_, key) = skill_entry(t.as_str());
                if key == t {
                    picked.push(t);
                }
            }
            i += 1;
        }
        assert(ps.subrange(0, pieces@.len() as int) =~= ps);
        picked
    }

    /// The character that a finished draft makes.
    fn character_from(w: NewCharDraft, picked: Vec<String>) -> (c: Character)
        ensures
            c.skill_proficiencies@ == picked@,
            drafted(w, picked@.map_values(|p: String| p@), c),
    {
        let mut c = Character::default();
        let hp_max = if w.hp_max < 1 {
            1
        } else {
            w.hp_max
        };
        c.name = w.name;
        c.class_name = w.class_name;
        c.race = w.race;
        c.strength = w.abilities[0];
        c.dexterity = w.abilities[1];
        c.constitution = w.abilities[2];
        c.intelligence = w.abilities[3];
        c.wisdom = w.abilities[4];
        c.charisma = w.abilities[5];
        c.hp_max = hp_max;
        c.hp_current = if w.hp_current < 0 {
            0
        } else if w.hp_current > hp_max {
            hp_max
        } else {
            w.hp_current
        };
        c.armor_class = w.armor_class;
        c.speed = w.speed;
        c.skill_proficiencies = picked;
        c
    }

    fn on_create_skills_key(&mut self, key: Key) -> (r: Action)
        requires
            old(self).wf(),
            old(self).mode == Mode::CreateSkills,
        ensures
            create_skills_step(*old(self), key, *final(self), r),
    {
        if key == Key::Esc {
            self.mode = Mode::List;
            self.status = default_status();
            Action::Nothing
        } else if key == Key::Enter {
            let pieces = self.typed_pieces();
            assert(pieces@.map_values(|p: String| p@) =~= pieces_of(self.input@));
            let picked = Self::picked_from(&pieces);
            let ghost want = picked_skills(pieces_of(self.input@));
            assert(picked@.map_values(|p: String| p@) =~= want);
            let r = match self.wizard.take() {
                Some(w) => Action::Insert(Self::character_from(w, picked)),
                None => Action::Nothing,
            };
            self.mode = Mode::List;
            self.input = String::new();
            self.status = default_status();
            r
        } else {
            match key {
                Key::Char(c) => push_char(&mut self.input, c),
                _ => {},
            }
            Action::Nothing
        }
    }

    fn on_details_key(&mut self, key: Key) -> (r: Action)
        requires
            old(self).wf(),
            old(self).mode == Mode::Details,
        ensures
            details_step(*old(self), key, *final(self), r),
    {
        if key == Key::Esc {
            self.mode = Mode::List;
            self.status = default_status();
        } else if key == Key::Left || key == Key::Char('h') {
            if self.detail_tab > 0 {
                self.detail_tab = self.detail_tab - 1;
            }
        } else if key == Key::Right || key == Key::Char('l') {
            if self.detail_tab < 2 {
                self.detail_tab = self.detail_tab + 1;
            }
        } else if key == Key::Char('e') {
            if self.selected < self.items.len() {
                self.mode = Mode::Edit;
                self.status = edit_status();
            }
        } else if key == Key::Char('r') {
            self.mode = Mode::Roll;
            self.input = String::new();
            self.status = String::from_str("Type: NdM, skill, or ability. Esc cancel");
        }
        Action::Nothing
    }

    /// Takes the selected character out of the list, to be changed and put
    /// back with `put_current`.
    fn take_current(&mut self) -> (c: Character)
        requires
            old(self).has_current(),
        ensures
            c == old(self).items@[old(self).selected as int],
            *final(self) == (App { items: final(self).items, ..*old(self) }),
            final(self).items@ == old(self).items@.remove(old(self).selected as int),
    {
        self.items.remove(self.selected)
    }

    /// Puts a character back where `take_current` took it from.
    fn put_current(&mut self, c: Character)
        requires
            old(self).selected <= old(self).items@.len(),
        ensures
            *final(self) == (App { items: final(self).items, ..*old(self) }),
            final(self).items@ == old(self).items@.insert(old(self).selected as int, c),
    {
        self.items.insert(self.selected, c);
    }

    fn on_edit_key(&mut self, key: Key) -> (r: Action)
        requires
            old(self).wf(),
            old(self).mode == Mode::Edit,
        ensures
            edit_step(*old(self), key, *final(self), r),
    {
        let ghost pre = *self;
        let present = self.selected < self.items.len();
        if key == Key::Esc {
            self.mode = Mode::List;
            self.status = default_status();
            Action::Nothing
        } else if key == Key::Char('+') || key == Key::Char('-') {
            if present && self.items[self.selected].hp_max >= 0 {
                let mut c = self.take_current();
                c.change_hp(if key == Key::Char('+') { 1 } else { -1 });
                self.put_current(c);
                assert(self.items@ =~= pre.items@.update(pre.selected as int, c));
                Action::Save
            } else {
                Action::Nothing
            }
        } else if key == Key::Char('l') {
            if present && self.items[self.selected].level < i32::MAX {
                let mut c = self.take_current();
                c.level_up();
                self.put_current(c);
                assert(self.items@ =~= pre.items@.update(pre.selected as int, c));
                Action::Save
            } else {
                Action::Nothing
            }
        } else if key == Key::Left || key == Key::Char('h') {
            if self.detail_tab > 0 {
                self.detail_tab = self.detail_tab - 1;
            }
            Action::Nothing
        } else if key == Key::Right {
            if self.detail_tab < 2 {
                self.detail_tab = self.detail_tab + 1;
            }
            Action::Nothing
        } else if key == Key::Char('[') || key == Key::Char(']') {
            if !present {
                return Action::Nothing;
            }
            let delta: i32 = if key == Key::Char(']') {
                1
            } else {
                -1
            };
            let lvl = self.selected_spell_level;
            let n = self.items[self.selected].spell_slots.len();
            if lvl - 1 < n && (delta < 0 || self.items[self.selected].spell_slots[lvl - 1] < i32::MAX) {
                let mut c = self.take_current();
                c.adjust_spell_slot(lvl, delta);
                self.put_current(c);
                assert(self.items@ =~= pre.items@.update(pre.selected as int, c));
            }
            Action::Save
        } else if key == Key::Char('a') {
            self.mode = Mode::EditAddItem;
            self.status = String::from_str("Type item then Enter to add. Esc cancel");
            self.input = String::new();
            Action::Nothing
        } else if key == Key::Char('A') {
            if present && self.items[self.selected].inventory.len() > 0 {
                let mut c = self.take_current();
                let last = c.inventory.len() - 1;
                c.remove_item(last);
                assert(c.inventory@ =~= pre.items@[pre.selected as int].inventory@.drop_last());
                self.put_current(c);
                assert(self.items@ =~= pre.items@.update(pre.selected as int, c));
                Action::Save
            } else {
                Action::Nothing
            }
        } else if key == Key::Char('s') {
            self.status = String::from_str("Saved.");
            if present {
                Action::Save
            } else {
                Action::Nothing
            }
        } else {
            match key {
                Key::Char(d) => {
                    if '1' <= d && d <= '9' {
                        self.selected_spell_level = (d as u32 - '0' as u32) as usize;
                        let mut st = String::from_str("Editing: Slot L");
                        push_char(&mut st, d);
                        assert(st@ =~= "Editing: Slot L"@ + seq![d]);
                        self.status = st.concat(" selected");
                    }
                },
                _ => {},
            }
            Action::Nothing
        }
    }

    fn on_add_item_key(&mut self, key: Key) -> (r: Action)
        requires
            old(self).wf(),
            old(self).mode == Mode::EditAddItem,
        ensures
            add_item_step(*old(self), key, *final(self), r),
    {
        let ghost pre = *self;
        if key == Key::Esc {
            self.mode = Mode::Edit;
            self.status = edit_status();
            Action::Nothing
        } else if key == Key::Enter {
            let item = String::from_str(trim(self.input.as_str()));
            self.input = String::new();
            self.mode = Mode::Edit;
            if self.selected < self.items.len() {
                if trim(item.as_str()).unicode_len() == 0 {
                    return Action::Save;
                }
                let mut c = self.take_current();
                c.add_item(item);
                assert(c.inventory@.drop_last() =~= pre.items@[pre.selected as int].inventory@);
                self.put_current(c);
                assert(self.items@ =~= pre.items@.update(pre.selected as int, c));
                Action::Save
            } else {
                Action::Nothing
            }
        } else {
            self.type_key(key);
            Action::Nothing
        }
    }

    /// Reads a typed roll (trimmed and lowercase) for a character: the
    /// label, count, sides and modifier to roll with.
    pub fn plan_roll(c: &Character, inp: &str) -> (r: (String, i32, i32, i32))
        ensures
            r.0@ == roll_plan(*c, inp@).0,
            r.1 == roll_plan(*c, inp@).1,
            r.2 == roll_plan(*c, inp@).2,
            r.3 == roll_plan(*c, inp@).3,
            r.1 >= 1,
            r.2 >= 1,
    {
        match parse_dice_text(inp) {
            Some((n, s)) => (String::from_str(inp), n, s, 0),
            None => {
                if catalog_has(inp) {
                    let label = capitalize(inp).concat(" check");
                    (label, 1, 20, c.skill_modifier_by_key(inp))
                } else {
                    let abbr = if same_text(inp, "str") {
                        "STR"
                    } else if same_text(inp, "dex") {
                        "DEX"
                    } else if same_text(inp, "con") {
                        "CON"
                    } else if same_text(inp, "int") {
                        "INT"
                    } else if same_text(inp, "wis") {
                        "WIS"
                    } else if same_text(inp, "cha") {
                        "CHA"
                    } else {
                        return (String::from_str("d20"), 1, 20, 0);
                    };
                    let label = String::from_str(abbr).concat(" ability");
                    (label, 1, 20, c.ability_modifier_by_key(inp))
                }
            },
        }
    }

    /// The rolls as a bracketed list: `[4, 1, 6]`.
    pub fn rolls_list(rolls: &Vec<i32>) -> (r: String)
        ensures
            r@ == rolls_text(rolls@),
    {
        let mut t = String::new();
        let mut i: usize = 0;
        while i < rolls.len()
            invariant
                i <= rolls@.len(),
                t@ == rolls_items(rolls@.subrange(0, i as int)),
            decreases rolls@.len() - i,
        {
            let ghost sub = rolls@.subrange(0, i + 1);
            assert(sub.drop_last() =~= rolls@.subrange(0, i as int));
            if i > 0 {
                t.append(", ");
            }
            let d = decimal(rolls[i] as i128);
            t.append(d.as_str());
            proof {
                if i == 0 {
                    assert(t@ =~= decimal_of(sub[0] as int));
                }
            }
            i += 1;
        }
        assert(rolls@.subrange(0, rolls@.len() as int) =~= rolls@);
        String::from_str("[").concat(t.as_str()).concat("]")
    }

    fn on_roll_key(&mut self, key: Key) -> (r: Action)
        requires
            old(self).wf(),
            old(self).mode == Mode::Roll,
        ensures
            roll_step(*old(self), key, *final(self), r),
    {
        if key == Key::Esc {
            self.mode = Mode::List;
            self.input = String::new();
            self.status = default_status();
        } else if key == Key::Enter {
            let ghost pre = *self;
            let inp = lowercase(trim(self.input.as_str()));
            let (name, plan) = if self.selected < self.items.len() {
                let c = &self.items[self.selected];
                (c.name.clone(), Self::plan_roll(c, inp.as_str()))
            } else {
                (String::new(), (inp.clone(), 1, 20, 0))
            };
            let (label, count, sides, modifier) = plan;
            let (total, rolls) = roll_dice(count, sides, modifier);
            let st = name.concat(" rolls ").concat(label.as_str()).concat(": ").concat(
                Self::rolls_list(&rolls).as_str(),
            ).concat(" total ").concat(decimal(total as i128).as_str());
            self.status = st;
            self.mode = Mode::List;
            self.input = String::new();
            proof {
                let cur = pre.items@[pre.selected as int];
                let want_name = if pre.has_current() {
                    cur.name@
                } else {
                    Seq::empty()
                };
                let want = if pre.has_current() {
                    roll_plan(cur, lower_of(trim_of(pre.input@)))
                } else {
                    (lower_of(trim_of(pre.input@)), 1int, 20int, 0int)
                };
                assert(name@ == want_name);
                assert(label@ == want.0 && count == want.1 && sides == want.2 && modifier
                    == want.3);
                let w = rolls@;
                assert(w.len() == want.1);
                assert(forall|i: int| 0 <= i < w.len() ==> 1 <= #[trigger] w[i] <= want.2);
                assert(self.status@ == roll_line(want_name, want.0, w, sum_of(w) + want.3));
                assert(reports_roll(self.status@, want_name, want.0, want.1, want.2, want.3));
            }
        } else {
            self.type_key(key);
        }
        Action::Nothing
    }

    /// Handles one key press: updates the state and says what the store (or
    /// the program) has to do.
    pub fn on_key(&mut self, key: Key) -> (r: Action)
        requires
            old(self).wf(),
        ensures
            final(self).wf(),
            step(*old(self), key, *final(self), r),
    {
        match self.mode {
            Mode::List => self.on_list_key(key),
            Mode::Details => self.on_details_key(key),
            Mode::Edit => self.on_edit_key(key),
            Mode::EditAddItem => self.on_add_item_key(key),
            Mode::CreateName | Mode::CreateClass | Mode::CreateRace => self.on_create_text_key(key),
            Mode::CreateAbilities => self.on_create_abilities_key(key),
            Mode::CreateHpMax | Mode::CreateAc | Mode::CreateSpeed => self.on_create_number_key(
                key,
            ),
            Mode::CreateSkills => self.on_create_skills_key(key),
            Mode::Roll => self.on_roll_key(key),
        }
    }
}

/// What typing does to the input line: a character goes at its end,
/// Backspace takes the last one off, and any other key changes nothing.
pub open spec fn typed(pre: App, key: Key, post: App) -> bool {
    match key {
        Key::Char(c) => post == (App { input: post.input, ..pre }) && post.input@ == pre.input@.push(
            c,
        ),
        Key::Backspace => post == (App { input: post.input, ..pre }) && post.input@ == (
        if pre.input@.len() == 0 {
            pre.input@
        } else {
            pre.input@.drop_last()
        }),
        _ => post == pre,
    }
}

/// Only the mode and the status line change, to the given ones.
pub open spec fn moved_to(pre: App, post: App, m: Mode, status: Seq<char>) -> bool {
    post == (App { mode: m, status: post.status, ..pre }) && post.status@ == status
}

/// Like `moved_to`, and the input line is cleared too.
pub open spec fn moved_to_cleared(pre: App, post: App, m: Mode, status: Seq<char>) -> bool {
    post == (App { mode: m, status: post.status, input: post.input, ..pre }) && post.status@
        == status && post.input@.len() == 0
}

/// A fresh, empty draft.
pub open spec fn fresh_draft(d: NewCharDraft) -> bool {
    &&& d.name@.len() == 0
    &&& d.class_name@.len() == 0
    &&& d.race@.len() == 0
    &&& d.abilities@ == seq![0i32, 0, 0, 0, 0, 0]
    &&& d.hp_max == 0
    &&& d.hp_current == 0
    &&& d.armor_class == 0
    &&& d.speed == 0
    &&& d.skill_proficiencies@.len() == 0
}

/// A key press in List mode.
pub open spec fn list_step(pre: App, key: Key, post: App, r: Action) -> bool {
    let len = pre.items@.len() as int;
    if key == Key::Char('q') {
        r is Quit && post == pre
    } else if key == Key::Down || key == Key::Char('j') {
        r is Nothing && post == (App {
            selected: if len > 0 && pre.selected + 1 < len {
                (pre.selected + 1) as usize
            } else if len > 0 {
                (len - 1) as usize
            } else {
                pre.selected
            },
            ..pre
        })
    } else if key == Key::Up || key == Key::Char('k') {
        r is Nothing && post == (App {
            selected: if len > 0 && pre.selected > 0 {
                (pre.selected - 1) as usize
            } else {
                pre.selected
            },
            ..pre
        })
    } else if key == Key::Enter {
        r is Nothing && if len > 0 {
            moved_to(pre, post, Mode::Details, details_status_text())
        } else {
            post == pre
        }
    } else if key == Key::Char('n') {
        &&& r is Nothing
        &&& post == (App {
            mode: Mode::CreateName,
            input: post.input,
            status: post.status,
            wizard: post.wizard,
            ..pre
        })
        &&& post.input@.len() == 0
        &&& post.status@ == "Create: Enter name. Enter to confirm. Esc to cancel."@
        &&& post.wizard is Some && fresh_draft(post.wizard.unwrap())
    } else if key == Key::Char('e') {
        r is Nothing && if pre.has_current() {
            moved_to(
                pre,
                post,
                Mode::Edit,
                "Editing: +/- hp \u{2022} [/] adjust \u{2022} 1-9 select slot \u{2022} a/A add/remove item \u{2022} l level up \u{2022} s save \u{2022} Esc cancel"@,
            )
        } else {
            post == pre
        }
    } else if key == Key::Char('d') {
        if pre.has_current() {
            &&& r == Action::Delete(pre.items@[pre.selected as int].id)
            &&& post == (App {
                items: post.items,
                selected: clamp_selection(pre.selected as int, len - 1) as usize,
                ..pre
            })
            &&& post.items@ == pre.items@.remove(pre.selected as int)
        } else {
            r is Nothing && post == pre
        }
    } else if key == Key::Char('r') {
        r is Nothing && moved_to_cleared(
            pre,
            post,
            Mode::Roll,
            "Type dice (e.g., d20, 2d6) then Enter. Esc cancel"@,
        )
    } else {
        r is Nothing && post == pre
    }
}

/// Esc in a wizard step, or in Details, Edit or Roll: back to the list.
pub open spec fn cancelled(pre: App, post: App, r: Action) -> bool {
    r is Nothing && moved_to(pre, post, Mode::List, default_status_text())
}

/// A trimmed entry, or the default when it is empty.
pub open spec fn text_or(t: Seq<char>, dflt: Seq<char>) -> Seq<char> {
    if t.len() == 0 {
        dflt
    } else {
        t
    }
}

/// The step that follows a text step of the wizard.
pub open spec fn next_text_step(m: Mode) -> Mode {
    match m {
        Mode::CreateName => Mode::CreateClass,
        Mode::CreateClass => Mode::CreateRace,
        _ => Mode::CreateAbilities,
    }
}

/// The prompt of the step that follows a text step.
pub open spec fn next_text_prompt(m: Mode) -> Seq<char> {
    match m {
        Mode::CreateName => "Enter class"@,
        Mode::CreateClass => "Enter race"@,
        _ => "Enter abilities as STR DEX CON INT WIS CHA (e.g., 15 14 13 12 10 8)"@,
    }
}

/// The default of a text step: name, class or race.
pub open spec fn text_default(m: Mode) -> Seq<char> {
    match m {
        Mode::CreateName => "Unnamed"@,
        Mode::CreateClass => "Fighter"@,
        _ => "Human"@,
    }
}

/// The draft with the field of a text step set to `v`.
pub open spec fn draft_text_set(m: Mode, pre: NewCharDraft, post: NewCharDraft, v: Seq<char>) -> bool {
    match m {
        Mode::CreateName => post == (NewCharDraft { name: post.name, ..pre }) && post.name@ == v,
        Mode::CreateClass => post == (NewCharDraft { class_name: post.class_name, ..pre })
            && post.class_name@ == v,
        _ => post == (NewCharDraft { race: post.race, ..pre }) && post.race@ == v,
    }
}

/// The state after a wizard step accepted its entry: the draft is updated,
/// the input line cleared, and the next step prompted.
pub open spec fn advanced(pre: App, post: App, next: Mode, prompt: Seq<char>) -> bool {
    &&& post == (App {
        mode: next,
        input: post.input,
        status: post.status,
        wizard: post.wizard,
        ..pre
    })
    &&& post.input@.len() == 0
    &&& post.status@ == prompt
    &&& post.wizard is Some
}

/// A key press in the name, class or race step.
pub open spec fn create_text_step(pre: App, key: Key, post: App, r: Action) -> bool {
    if key == Key::Esc {
        cancelled(pre, post, r)
    } else if key == Key::Enter {
        &&& r is Nothing
        &&& advanced(pre, post, next_text_step(pre.mode), next_text_prompt(pre.mode))
        &&& draft_text_set(
            pre.mode,
            pre.wizard.unwrap(),
            post.wizard.unwrap(),
            text_or(trim_of(pre.input@), text_default(pre.mode)),
        )
    } else {
        r is Nothing && typed(pre, key, post)
    }
}

/// The integers among the words, in order; other words are left out.
pub open spec fn numbers_of(ws: Seq<Seq<char>>) -> Seq<i32>
    decreases ws.len(),
{
    if ws.len() == 0 {
        seq![]
    } else {
        let rest = numbers_of(ws.drop_last());
        match i32_value(ws.last()) {
            Some(v) => rest.push(v),
            None => rest,
        }
    }
}

/// A key press in the abilities step: exactly six integers are taken, in
/// the order STR, DEX, CON, INT, WIS, CHA.
pub open spec fn create_abilities_step(pre: App, key: Key, post: App, r: Action) -> bool {
    let nums = numbers_of(words_of(pre.input@));
    if key == Key::Esc {
        cancelled(pre, post, r)
    } else if key == Key::Enter {
        r is Nothing && if nums.len() == 6 {
            &&& advanced(pre, post, Mode::CreateHpMax, "Enter HP Max (number)"@)
            &&& post.wizard.unwrap() == (NewCharDraft {
                abilities: post.wizard.unwrap().abilities,
                ..pre.wizard.unwrap()
            })
            &&& post.wizard.unwrap().abilities@ == nums
        } else {
            post == (App { status: post.status, ..pre }) && post.status@
                == "Please enter exactly 6 numbers"@
        }
    } else {
        r is Nothing && typed(pre, key, post)
    }
}

/// The step that follows a number step of the wizard.
pub open spec fn next_number_step(m: Mode) -> Mode {
    match m {
        Mode::CreateHpMax => Mode::CreateAc,
        Mode::CreateAc => Mode::CreateSpeed,
        _ => Mode::CreateSkills,
    }
}

/// The prompt of the step that follows a number step.
pub open spec fn next_number_prompt(m: Mode) -> Seq<char> {
    match m {
        Mode::CreateHpMax => "Enter Armor Class (AC) number"@,
        Mode::CreateAc => "Enter Speed (ft) number"@,
        _ => "Enter skills separated by comma or semicolon (e.g., perception, stealth or stealth; perception)"@,
    }
}

/// The draft with the field of a number step set from `v`; hit points are
/// at least 1, and the current ones start at the maximum.
pub open spec fn draft_number_set(m: Mode, pre: NewCharDraft, post: NewCharDraft, v: i32) -> bool {
    match m {
        Mode::CreateHpMax => post == (NewCharDraft {
            hp_max: if v < 1 {
                1
            } else {
                v
            },
            hp_current: if v < 1 {
                1
            } else {
                v
            },
            ..pre
        }),
        Mode::CreateAc => post == (NewCharDraft { armor_class: v, ..pre }),
        _ => post == (NewCharDraft { speed: v, ..pre }),
    }
}

/// A key press in the hit points, armor class or speed step.
pub open spec fn create_number_step(pre: App, key: Key, post: App, r: Action) -> bool {
    if key == Key::Esc {
        cancelled(pre, post, r)
    } else if key == Key::Enter {
        r is Nothing && match i32_value(trim_of(pre.input@)) {
            Some(v) => advanced(pre, post, next_number_step(pre.mode), next_number_prompt(pre.mode))
                && draft_number_set(pre.mode, pre.wizard.unwrap(), post.wizard.unwrap(), v),
            None => post == (App { status: post.status, ..pre }) && post.status@
                == "Please enter a valid number"@,
        }
    } else {
        r is Nothing && typed(pre, key, post)
    }
}

/// A separator of the skills entry.
pub open spec fn is_sep(c: char) -> bool {
    c == ',' || c == ';'
}

/// The pieces of a text before its last separator, and the piece after it.
pub open spec fn split_state(s: Seq<char>) -> (Seq<Seq<char>>, Seq<char>)
    decreases s.len(),
{
    if s.len() == 0 {
        (seq![], seq![])
    } else {
        let (done, cur) = split_state(s.drop_last());
        if is_sep(s.last()) {
            (done.push(cur), seq![])
        } else {
            (done, cur.push(s.last()))
        }
    }
}

/// The pieces of a text between its separators (commas or semicolons).
pub open spec fn pieces_of(s: Seq<char>) -> Seq<Seq<char>> {
    split_state(s).0.push(split_state(s).1)
}

/// The pieces, trimmed and lowercased, that name skills of the catalog.
pub open spec fn picked_skills(ps: Seq<Seq<char>>) -> Seq<Seq<char>>
    decreases ps.len(),
{
    if ps.len() == 0 {
        seq![]
    } else {
        let rest = picked_skills(ps.drop_last());
        let t = lower_of(trim_of(ps.last()));
        if t.len() > 0 && in_catalog(t) {
            rest.push(t)
        } else {
            rest
        }
    }
}

/// The character that a finished draft makes, with the picked skills.
pub open spec fn drafted(d: NewCharDraft, picked: Seq<Seq<char>>, c: Character) -> bool {
    let hp_max: i32 = if d.hp_max < 1 {
        1
    } else {
        d.hp_max
    };
    &&& c.id is None
    &&& c.name@ == d.name@
    &&& c.class_name@ == d.class_name@
    &&& c.race@ == d.race@
    &&& c.level == 1
    &&& c.strength == d.abilities@[0]
    &&& c.dexterity == d.abilities@[1]
    &&& c.constitution == d.abilities@[2]
    &&& c.intelligence == d.abilities@[3]
    &&& c.wisdom == d.abilities@[4]
    &&& c.charisma == d.abilities@[5]
    &&& c.hp_max == hp_max
    &&& c.hp_current == clamp_of(d.hp_current as int, 0, hp_max as int)
    &&& c.armor_class == d.armor_class
    &&& c.speed == d.speed
    &&& c.spell_slots@.len() == 9
    &&& (forall|i: int| 0 <= i < 9 ==> #[trigger] c.spell_slots@[i] == 0)
    &&& c.inventory@.len() == 0
    &&& c.skill_proficiencies@.len() == picked.len()
    &&& (forall|i: int|
        0 <= i < picked.len() ==> (#[trigger] c.skill_proficiencies@[i])@ == picked[i])
    &&& c.notes is None
}

/// A key press in the skills step: Enter finishes the wizard and hands the
/// new character to the store.
pub open spec fn create_skills_step(pre: App, key: Key, post: App, r: Action) -> bool {
    if key == Key::Esc {
        cancelled(pre, post, r)
    } else if key == Key::Enter {
        &&& post == (App {
            mode: Mode::List,
            input: post.input,
            status: post.status,
            wizard: None,
            ..pre
        })
        &&& post.input@.len() == 0
        &&& post.status@ == default_status_text()
        &&& match r {
            Action::Insert(c) => drafted(
                pre.wizard.unwrap(),
                picked_skills(pieces_of(pre.input@)),
                c,
            ),
            _ => false,
        }
    } else if key is Char {
        r is Nothing && typed(pre, key, post)
    } else {
        r is Nothing && post == pre
    }
}

/// A key press in Details mode.
pub open spec fn details_step(pre: App, key: Key, post: App, r: Action) -> bool {
    if key == Key::Esc {
        cancelled(pre, post, r)
    } else if key == Key::Left || key == Key::Char('h') {
        r is Nothing && post == (App {
            detail_tab: if pre.detail_tab > 0 {
                (pre.detail_tab - 1) as usize
            } else {
                0
            },
            ..pre
        })
    } else if key == Key::Right || key == Key::Char('l') {
        r is Nothing && post == (App {
            detail_tab: if pre.detail_tab < 2 {
                (pre.detail_tab + 1) as usize
            } else {
                2
            },
            ..pre
        })
    } else if key == Key::Char('e') {
        r is Nothing && if pre.has_current() {
            moved_to(pre, post, Mode::Edit, edit_status_text())
        } else {
            post == pre
        }
    } else if key == Key::Char('r') {
        r is Nothing && moved_to_cleared(
            pre,
            post,
            Mode::Roll,
            "Type: NdM, skill, or ability. Esc cancel"@,
        )
    } else {
        r is Nothing && post == pre
    }
}

/// Only the selected character changed, to `c`.
pub open spec fn current_became(pre: App, post: App, c: Character) -> bool {
    post == (App { items: post.items, ..pre }) && post.items@ == pre.items@.update(
        pre.selected as int,
        c,
    )
}

/// The spell slots after adjusting the slot of `level` by `delta`, floored
/// at 0.
pub open spec fn slots_adjusted(slots: Seq<i32>, level: int, delta: int) -> Seq<i32> {
    slots.update(
        level - 1,
        (if slots[level - 1] + delta < 0 {
            0
        } else {
            slots[level - 1] + delta
        }) as i32,
    )
}

/// The digit keys that pick a spell level.
pub open spec fn spell_digit(c: char) -> bool {
    '1' <= c && c <= '9'
}

/// A key press in Edit mode. Each change to the selected character asks
/// the store to save it.
pub open spec fn edit_step(pre: App, key: Key, post: App, r: Action) -> bool {
    let cur = pre.items@[pre.selected as int];
    if key == Key::Esc {
        cancelled(pre, post, r)
    } else if key == Key::Char('+') || key == Key::Char('-') {
        let delta: int = if key == Key::Char('+') {
            1
        } else {
            -1
        };
        if pre.has_current() && cur.hp_max >= 0 {
            r is Save && current_became(
                pre,
                post,
                Character {
                    hp_current: clamp_of(cur.hp_current + delta, 0, cur.hp_max as int) as i32,
                    ..cur
                },
            )
        } else {
            r is Nothing && post == pre
        }
    } else if key == Key::Char('l') {
        if pre.has_current() && cur.level < i32::MAX {
            r is Save && current_became(
                pre,
                post,
                Character { level: (cur.level + 1) as i32, ..cur },
            )
        } else {
            r is Nothing && post == pre
        }
    } else if key == Key::Left || key == Key::Char('h') {
        r is Nothing && post == (App {
            detail_tab: if pre.detail_tab > 0 {
                (pre.detail_tab - 1) as usize
            } else {
                0
            },
            ..pre
        })
    } else if key == Key::Right {
        r is Nothing && post == (App {
            detail_tab: if pre.detail_tab < 2 {
                (pre.detail_tab + 1) as usize
            } else {
                2
            },
            ..pre
        })
    } else if key matches Key::Char(d) && spell_digit(d) {
        &&& r is Nothing
        &&& post == (App {
            selected_spell_level: ((key->Char_0) as u32 - '0' as u32) as usize,
            status: post.status,
            ..pre
        })
        &&& post.status@ == "Editing: Slot L"@ + seq![key->Char_0] + " selected"@
    } else if key == Key::Char('[') || key == Key::Char(']') {
        let delta: int = if key == Key::Char(']') {
            1
        } else {
            -1
        };
        let lvl = pre.selected_spell_level as int;
        if !pre.has_current() {
            r is Nothing && post == pre
        } else if lvl - 1 < cur.spell_slots@.len() && cur.spell_slots@[lvl - 1] + delta
            <= i32::MAX {
            r is Save && current_became(
                pre,
                post,
                Character { spell_slots: post.items@[pre.selected as int].spell_slots, ..cur },
            ) && post.items@[pre.selected as int].spell_slots@ == slots_adjusted(
                cur.spell_slots@,
                lvl,
                delta,
            )
        } else {
            r is Save && post == pre
        }
    } else if key == Key::Char('a') {
        r is Nothing && moved_to_cleared(
            pre,
            post,
            Mode::EditAddItem,
            "Type item then Enter to add. Esc cancel"@,
        )
    } else if key == Key::Char('A') {
        if pre.has_current() && cur.inventory@.len() > 0 {
            r is Save && current_became(
                pre,
                post,
                Character { inventory: post.items@[pre.selected as int].inventory, ..cur },
            ) && post.items@[pre.selected as int].inventory@ == cur.inventory@.drop_last()
        } else {
            r is Nothing && post == pre
        }
    } else if key == Key::Char('s') {
        &&& (if pre.has_current() {
            r is Save
        } else {
            r is Nothing
        })
        &&& post == (App { status: post.status, ..pre })
        &&& post.status@ == "Saved."@
    } else {
        r is Nothing && post == pre
    }
}

/// A key press while typing an item to add.
pub open spec fn add_item_step(pre: App, key: Key, post: App, r: Action) -> bool {
    let cur = pre.items@[pre.selected as int];
    let item = trim_of(pre.input@);
    if key == Key::Esc {
        r is Nothing && moved_to(pre, post, Mode::Edit, edit_status_text())
    } else if key == Key::Enter {
        &&& post.input@.len() == 0
        &&& post.mode == Mode::Edit
        &&& if !pre.has_current() {
            r is Nothing && post == (App { input: post.input, mode: Mode::Edit, ..pre })
        } else if trim_of(item).len() == 0 {
            r is Save && post == (App { input: post.input, mode: Mode::Edit, ..pre })
        } else {
            let now = post.items@[pre.selected as int];
            &&& r is Save
            &&& post == (App { input: post.input, mode: Mode::Edit, items: post.items, ..pre })
            &&& post.items@ == pre.items@.update(pre.selected as int, now)
            &&& now == (Character { inventory: now.inventory, ..cur })
            &&& now.inventory@.len() == cur.inventory@.len() + 1
            &&& now.inventory@.drop_last() == cur.inventory@
            &&& now.inventory@.last()@ == item
        }
    } else {
        r is Nothing && typed(pre, key, post)
    }
}

/// The upper-case label of an ability abbreviation.
pub open spec fn ability_label(n: Seq<char>) -> Option<Seq<char>> {
    if n == "str"@ {
        Some("STR"@)
    } else if n == "dex"@ {
        Some("DEX"@)
    } else if n == "con"@ {
        Some("CON"@)
    } else if n == "int"@ {
        Some("INT"@)
    } else if n == "wis"@ {
        Some("WIS"@)
    } else if n == "cha"@ {
        Some("CHA"@)
    } else {
        None
    }
}

/// How a typed roll is read for a character, first match wins: a dice
/// spec; a skill of the catalog (a d20 plus the skill's modifier); an
/// ability abbreviation (a d20 plus its modifier); else a plain d20.
/// The result is the label, the count, the sides and the modifier.
pub open spec fn roll_plan(c: Character, inp: Seq<char>) -> (Seq<char>, int, int, int) {
    match dice_of(inp) {
        Some(p) => (inp, p.0 as int, p.1 as int, 0),
        None => if in_catalog(inp) {
            (capitalized(inp) + " check"@, 1, 20, c.skill_modifier_of(inp))
        } else {
            match ability_label(inp) {
                Some(l) => (l + " ability"@, 1, 20, c.modifier_named(inp)),
                None => ("d20"@, 1, 20, 0),
            }
        },
    }
}

/// The rolls written out, separated by a comma and a space.
pub open spec fn rolls_items(s: Seq<i32>) -> Seq<char>
    decreases s.len(),
{
    if s.len() == 0 {
        seq![]
    } else if s.len() == 1 {
        decimal_of(s[0] as int)
    } else {
        rolls_items(s.drop_last()) + ", "@ + decimal_of(s.last() as int)
    }
}

/// The rolls as a bracketed list.
pub open spec fn rolls_text(s: Seq<i32>) -> Seq<char> {
    "["@ + rolls_items(s) + "]"@
}

/// The status line that reports a roll.
pub open spec fn roll_line(name: Seq<char>, label: Seq<char>, rolls: Seq<i32>, total: int) -> Seq<
    char,
> {
    name + " rolls "@ + label + ": "@ + rolls_text(rolls) + " total "@ + decimal_of(total)
}

/// Whether a status line reports some roll of `count` dice of `sides`
/// sides, plus `modifier`, for the given name and label.
pub open spec fn reports_roll(
    status: Seq<char>,
    name: Seq<char>,
    label: Seq<char>,
    count: int,
    sides: int,
    modifier: int,
) -> bool {
    exists|rolls: Seq<i32>|
        {
            &&& rolls.len() == count
            &&& (forall|i: int| 0 <= i < rolls.len() ==> 1 <= #[trigger] rolls[i] <= sides)
            &&& status == #[trigger] roll_line(name, label, rolls, sum_of(rolls) + modifier)
        }
}

/// A key press in Roll mode. Enter rolls what was typed, for the selected
/// character (with no character: a plain d20 under an empty name), and
/// reports it on the status line.
pub open spec fn roll_step(pre: App, key: Key, post: App, r: Action) -> bool {
    let inp = lower_of(trim_of(pre.input@));
    let cur = pre.items@[pre.selected as int];
    let name = if pre.has_current() {
        cur.name@
    } else {
        Seq::empty()
    };
    let plan = if pre.has_current() {
        roll_plan(cur, inp)
    } else {
        (inp, 1int, 20int, 0int)
    };
    if key == Key::Esc {
        r is Nothing && moved_to_cleared(pre, post, Mode::List, default_status_text())
    } else if key == Key::Enter {
        &&& r is Nothing
        &&& post == (App { mode: Mode::List, input: post.input, status: post.status, ..pre })
        &&& post.input@.len() == 0
        &&& reports_roll(post.status@, name, plan.0, plan.1, plan.2, plan.3)
    } else {
        r is Nothing && typed(pre, key, post)
    }
}

/// Deleting the selected character takes it out of the list and keeps the
/// selection in bounds: it stays where it was, or moves to the new last
/// item when the deleted one was last, or to 0 when the list is now empty.
pub proof fn lemma_delete_selection(pre: App, post: App, r: Action)
    requires
        pre.wf(),
        pre.mode == Mode::List,
        pre.has_current(),
        step(pre, Key::Char('d'), post, r),
    ensures
        post.wf(),
        post.items@.len() == pre.items@.len() - 1,
        post.selected == (if pre.selected < post.items@.len() {
            pre.selected as int
        } else if post.items@.len() > 0 {
            post.items@.len() - 1
        } else {
            0
        }),
{
}

/// Every skill picked from an entry names a skill of the catalog.
pub proof fn lemma_picked_in_catalog(ps: Seq<Seq<char>>)
    ensures
        forall|i: int|
            0 <= i < picked_skills(ps).len() ==> in_catalog(#[trigger] picked_skills(ps)[i]),
    decreases ps.len(),
{
    if ps.len() > 0 {
        let rest = picked_skills(ps.drop_last());
        lemma_picked_in_catalog(ps.drop_last());
        assert forall|i: int|
            0 <= i < picked_skills(ps).len() implies in_catalog(#[trigger] picked_skills(ps)[i]) by {
            if i < rest.len() {
                assert(in_catalog(rest[i]));
            }
        }
    }
}

/// Finishing the wizard hands the store a well-formed character at full hit
/// points, at level 1, whose proficiencies all name catalog skills.
pub proof fn lemma_created_character(pre: App, post: App, r: Action)
    requires
        pre.wf(),
        pre.mode == Mode::CreateSkills,
        step(pre, Key::Enter, post, r),
    ensures
        post.wf(),
        post.mode == Mode::List,
        r matches Action::Insert(c) && c.wf() && c.hp_current == c.hp_max && c.level == 1
            && forall|i: int|
            0 <= i < c.skill_proficiencies@.len() ==> in_catalog(
                #[trigger] c.skill_proficiencies@[i]@,
            ),
{
    lemma_picked_in_catalog(pieces_of(pre.input@));
    let c = r->Insert_0;
    assert forall|i: int| 0 <= i < c.skill_proficiencies@.len() implies in_catalog(
        #[trigger] c.skill_proficiencies@[i]@,
    ) by {
        assert(in_catalog(picked_skills(pieces_of(pre.input@))[i]));
    }
}

/// A key press in any mode.
pub open spec fn step(pre: App, key: Key, post: App, r: Action) -> bool {
    match pre.mode {
        Mode::List => list_step(pre, key, post, r),
        Mode::Details => details_step(pre, key, post, r),
        Mode::Edit => edit_step(pre, key, post, r),
        Mode::EditAddItem => add_item_step(pre, key, post, r),
        Mode::CreateName | Mode::CreateClass | Mode::CreateRace => create_text_step(
            pre,
            key,
            post,
            r,
        ),
        Mode::CreateAbilities => create_abilities_step(pre, key, post, r),
        Mode::CreateHpMax | Mode::CreateAc | Mode::CreateSpeed => create_number_step(
            pre,
            key,
            post,
            r,
        ),
        Mode::CreateSkills => create_skills_step(pre, key, post, r),
        Mode::Roll => roll_step(pre, key, post, r),
    }
}

/// Typed in Roll mode, each skill of the catalog is read as a check of that
/// skill: a d20 plus the skill's modifier, never as dice or an ability.
pub proof fn lemma_skill_names_roll_as_checks(c: Character, k: int)
    requires
        0 <= k < skill_catalog().len(),
    ensures
        roll_plan(c, skill_catalog()[k].0) == (
            capitalized(skill_catalog()[k].0) + " check"@,
            1int,
            20int,
            c.skill_modifier_of(skill_catalog()[k].0),
        ),
{
    let name = skill_catalog()[k].0;
    reveal_strlit("acrobatics");
    reveal_strlit("animal handling");
    reveal_strlit("arcana");
    reveal_strlit("athletics");
    reveal_strlit("deception");
    reveal_strlit("history");
    reveal_strlit("insight");
    reveal_strlit("intimidation");
    reveal_strlit("investigation");
    reveal_strlit("medicine");
    reveal_strlit("nature");
    reveal_strlit("perception");
    reveal_strlit("performance");
    reveal_strlit("persuasion");
    reveal_strlit("religion");
    reveal_strlit("sleight of hand");
    reveal_strlit("stealth");
    reveal_strlit("survival");
    lemma_not_dice(name);
    assert forall|j: int| 0 <= j < k implies skill_catalog()[j].0 != name by {
        let other = skill_catalog()[j].0;
        if other == name {
            assert(other.len() == name.len() && other[0] == name[0] && other[3] == name[3]);
        }
    }
    assert(first_skill_at(name, k));
}

} // verus!
