//! What the screen shows: the lines of each panel, as plain text, for the
//! terminal front end to lay out.
use vstd::prelude::*;
use vstd::string::*;
use crate::controller::{ability_label, capitalized, capitalize, App, Mode};
use crate::models::{
    all_skills, bonus_of, modifier_of, skill_catalog, Character,
};
use crate::text::{decimal, decimal_of, same_text};

verus! {

/// The line of a character in the list.
pub open spec fn list_label_of(c: Character) -> Seq<char> {
    c.name@ + " (Lv "@ + decimal_of(c.level as int) + ") - "@ + decimal_of(c.hp_current as int) + "/"@ + decimal_of(c.hp_max as int) + " HP - AC "@ + decimal_of(c.armor_class as int)
}

/// The line of a character in the list.
pub fn list_label(c: &Character) -> (r: String)
    ensures
        r@ == list_label_of(*c),
{
    let mut s = String::from_str(c.name.as_str());
    s.append(" (Lv ");
    s.append(decimal(c.level as i128).as_str());
    s.append(") - ");
    s.append(decimal(c.hp_current as i128).as_str());
    s.append("/");
    s.append(decimal(c.hp_max as i128).as_str());
    s.append(" HP - AC ");
    s.append(decimal(c.armor_class as i128).as_str());
    s
}

/// The heading of the general tab.
pub open spec fn header_of(c: Character) -> Seq<char> {
    c.name@ + " the "@ + c.race@ + " "@ + c.class_name@ + " (Lv "@ + decimal_of(c.level as int) + ")"@
}

/// The heading of the general tab.
pub fn header_line(c: &Character) -> (r: String)
    ensures
        r@ == header_of(*c),
{
    let mut s = String::from_str(c.name.as_str());
    s.append(" the ");
    s.append(c.race.as_str());
    s.append(" ");
    s.append(c.class_name.as_str());
    s.append(" (Lv ");
    s.append(decimal(c.level as i128).as_str());
    s.append(")");
    s
}

/// Hit points, armor class and speed.
pub open spec fn vitals_of(c: Character) -> Seq<char> {
    "HP "@ + decimal_of(c.hp_current as int) + "/"@ + decimal_of(c.hp_max as int) + "  AC "@ + decimal_of(c.armor_class as int) + "  SPD "@ + decimal_of(c.speed as int)
}

/// Hit points, armor class and speed.
pub fn vitals_line(c: &Character) -> (r: String)
    ensures
        r@ == vitals_of(*c),
{
    let mut s = String::from_str("HP ");
    s.append(decimal(c.hp_current as i128).as_str());
    s.append("/");
    s.append(decimal(c.hp_max as i128).as_str());
    s.append("  AC ");
    s.append(decimal(c.armor_class as i128).as_str());
    s.append("  SPD ");
    s.append(decimal(c.speed as i128).as_str());
    s
}

/// The six scores, each with its modifier.
pub open spec fn abilities_of(c: Character) -> Seq<char> {
    "STR "@ + decimal_of(c.strength as int) + " ("@ + decimal_of(modifier_of(c.strength as int) as int) + "), DEX "@ + decimal_of(c.dexterity as int) + " ("@ + decimal_of(modifier_of(c.dexterity as int) as int) + "), CON "@ + decimal_of(c.constitution as int) + " ("@ + decimal_of(modifier_of(c.constitution as int) as int) + "), INT "@ + decimal_of(c.intelligence as int) + " ("@ + decimal_of(modifier_of(c.intelligence as int) as int) + "), WIS "@ + decimal_of(c.wisdom as int) + " ("@ + decimal_of(modifier_of(c.wisdom as int) as int) + "), CHA "@ + decimal_of(c.charisma as int) + " ("@ + decimal_of(modifier_of(c.charisma as int) as int) + ")"@
}

/// The six scores, each with its modifier.
pub fn abilities_line(c: &Character) -> (r: String)
    ensures
        r@ == abilities_of(*c),
{
    let mut s = String::from_str("STR ");
    s.append(decimal(c.strength as i128).as_str());
    s.append(" (");
    s.append(decimal(Character::ability_mod(c.strength) as i128).as_str());
    s.append("), DEX ");
    s.append(decimal(c.dexterity as i128).as_str());
    s.append(" (");
    s.append(decimal(Character::ability_mod(c.dexterity) as i128).as_str());
    s.append("), CON ");
    s.append(decimal(c.constitution as i128).as_str());
    s.append(" (");
    s.append(decimal(Character::ability_mod(c.constitution) as i128).as_str());
    s.append("), INT ");
    s.append(decimal(c.intelligence as i128).as_str());
    s.append(" (");
    s.append(decimal(Character::ability_mod(c.intelligence) as i128).as_str());
    s.append("), WIS ");
    s.append(decimal(c.wisdom as i128).as_str());
    s.append(" (");
    s.append(decimal(Character::ability_mod(c.wisdom) as i128).as_str());
    s.append("), CHA ");
    s.append(decimal(c.charisma as i128).as_str());
    s.append(" (");
    s.append(decimal(Character::ability_mod(c.charisma) as i128).as_str());
    s.append(")");
    s
}

/// The proficiency bonus.
pub open spec fn bonus_line_of(c: Character) -> Seq<char> {
    "Prof bonus: +"@ + decimal_of(bonus_of(c.level as int) as int)
}

/// The proficiency bonus.
pub fn bonus_line(c: &Character) -> (r: String)
    ensures
        r@ == bonus_line_of(*c),
{
    let mut s = String::from_str("Prof bonus: +");
    s.append(decimal(c.proficiency_bonus() as i128).as_str());
    s
}

/// The spell slots, `level:count`, two spaces apart.
pub open spec fn slot_items(s: Seq<i32>) -> Seq<char>
    decreases s.len(),
{
    if s.len() == 0 {
        seq![]
    } else if s.len() == 1 {
        "1:"@ + decimal_of(s[0] as int)
    } else {
        slot_items(s.drop_last()) + "  "@ + decimal_of(s.len() as int) + ":"@ + decimal_of(
            s.last() as int,
        )
    }
}

/// The spell slots, `level:count`, two spaces apart.
pub fn slots_line(c: &Character) -> (r: String)
    ensures
        r@ == slot_items(c.spell_slots@),
{
    let slots = &c.spell_slots;
    let mut t = String::new();
    let mut i: usize = 0;
    while i < slots.len()
        invariant
            i <= slots@.len(),
            t@ == slot_items(slots@.subrange(0, i as int)),
        decreases slots@.len() - i,
    {
        let ghost sub = slots@.subrange(0, i + 1);
        assert(sub.drop_last() =~= slots@.subrange(0, i as int));
        if i > 0 {
            t.append("  ");
            t.append(decimal((i + 1) as i128).as_str());
            t.append(":");
        } else {
            t.append("1:");
        }
        t.append(decimal(slots[i] as i128).as_str());
        proof {
            if i == 0 {
                assert(t@ =~= "1:"@ + decimal_of(sub[0] as int));
            }
        }
        i += 1;
    }
    assert(slots@.subrange(0, slots@.len() as int) =~= slots@);
    t
}

/// Whether the lines hold exactly the given texts, in order.
pub open spec fn lines_are(r: Seq<String>, want: Seq<Seq<char>>) -> bool {
    r.len() == want.len() && forall|i: int| 0 <= i < r.len() ==> (#[trigger] r[i])@ == want[i]
}

/// The general tab: who the character is, vitals, scores, bonus, slots and
/// any notes.
pub open spec fn general_view(c: Character) -> Seq<Seq<char>> {
    let base = seq![
        header_of(c),
        Seq::<char>::empty(),
        vitals_of(c),
        abilities_of(c),
        bonus_line_of(c),
        Seq::<char>::empty(),
        "Spell slots (1-9):"@,
        slot_items(c.spell_slots@),
    ];
    match c.notes {
        Some(n) => base + seq![Seq::<char>::empty(), "Notes:"@, n@],
        None => base,
    }
}

/// The general tab's lines.
pub fn general_lines(c: &Character) -> (r: Vec<String>)
    ensures
        lines_are(r@, general_view(*c)),
{
    let mut r: Vec<String> = Vec::new();
    r.push(header_line(c));
    r.push(String::new());
    r.push(vitals_line(c));
    r.push(abilities_line(c));
    r.push(bonus_line(c));
    r.push(String::new());
    r.push(String::from_str("Spell slots (1-9):"));
    r.push(slots_line(c));
    match &c.notes {
        Some(n) => {
            r.push(String::new());
            r.push(String::from_str("Notes:"));
            r.push(n.clone());
        },
        None => {},
    }
    r
}

/// An ability abbreviation in upper case; other texts as they are.
pub open spec fn ability_upper(a: Seq<char>) -> Seq<char> {
    match ability_label(a) {
        Some(l) => l,
        None => a,
    }
}

/// An ability abbreviation in upper case; other texts as they are.
pub fn upper_ability(a: &str) -> (r: String)
    ensures
        r@ == ability_upper(a@),
{
    let l = if same_text(a, "str") {
        "STR"
    } else if same_text(a, "dex") {
        "DEX"
    } else if same_text(a, "con") {
        "CON"
    } else if same_text(a, "int") {
        "INT"
    } else if same_text(a, "wis") {
        "WIS"
    } else if same_text(a, "cha") {
        "CHA"
    } else {
        return String::from_str(a);
    };
    String::from_str(l)
}

/// One line of the skills tab: the skill, a star when proficient, its
/// ability, and the signed modifier.
pub open spec fn skill_line_of(c: Character, name: Seq<char>, ability: Seq<char>) -> Seq<char> {
    let m = c.skill_modifier_of(name);
    "  "@ + capitalized(name) + (if c.proficient_in(name) {
        "*"@
    } else {
        Seq::<char>::empty()
    }) + " ("@ + ability_upper(ability) + "): "@ + (if m >= 0 {
        "+"@
    } else {
        Seq::<char>::empty()
    }) + decimal_of(m)
}

/// One line of the skills tab.
pub fn skill_line(c: &Character, name: &str, ability: &str) -> (r: String)
    ensures
        r@ == skill_line_of(*c, name@, ability@),
{
    let m = c.skill_modifier_by_key(name);
    let mut s = String::from_str("  ");
    s.append(capitalize(name).as_str());
    let ghost a = s@;
    if c.is_proficient(name) {
        s.append("*");
    } else {
        assert(s@ =~= a + Seq::<char>::empty());
    }
    s.append(" (");
    s.append(upper_ability(ability).as_str());
    s.append("): ");
    let ghost b = s@;
    if m >= 0 {
        s.append("+");
    } else {
        assert(s@ =~= b + Seq::<char>::empty());
    }
    s.append(decimal(m as i128).as_str());
    s
}

/// The skills tab: a heading, then one line per catalog skill.
pub open spec fn skills_view(c: Character) -> Seq<Seq<char>> {
    seq!["Skills:"@] + Seq::new(
        skill_catalog().len(),
        |i: int| skill_line_of(c, skill_catalog()[i].0, skill_catalog()[i].1),
    )
}

/// The skills tab's lines.
pub fn skill_lines(c: &Character) -> (r: Vec<String>)
    ensures
        lines_are(r@, skills_view(*c)),
{
    let cat = all_skills();
    let mut r: Vec<String> = Vec::new();
    r.push(String::from_str("Skills:"));
    let mut i: usize = 0;
    while i < cat.len()
        invariant
            cat@.len() == skill_catalog().len(),
            forall|k: int|
                0 <= k < cat@.len() ==> (#[trigger] cat@[k]).0@ == skill_catalog()[k].0
                    && cat@[k].1@ == skill_catalog()[k].1,
            i <= cat@.len(),
            r@.len() == i + 1,
            r@[0]@ == "Skills:"@,
            forall|k: int|
                1 <= k <= i ==> (#[trigger] r@[k])@ == skill_line_of(
                    *c,
                    skill_catalog()[k - 1].0,
                    skill_catalog()[k - 1].1,
                ),
        decreases cat@.len() - i,
    {
        let (name, ability) = cat[i];
        r.push(skill_line(c, name, ability));
        i += 1;
    }
    r
}

/// The inventory tab: a heading, then the items, or a note that there
/// are none.
pub open spec fn inventory_view(c: Character) -> Seq<Seq<char>> {
    if c.inventory@.len() == 0 {
        seq!["Inventory:"@, "  (empty)"@]
    } else {
        seq!["Inventory:"@] + Seq::new(c.inventory@.len(), |i: int| "  - "@ + c.inventory@[i]@)
    }
}

/// The inventory tab's lines.
pub fn inventory_lines(c: &Character) -> (r: Vec<String>)
    ensures
        lines_are(r@, inventory_view(*c)),
{
    let mut r: Vec<String> = Vec::new();
    r.push(String::from_str("Inventory:"));
    if c.inventory.len() == 0 {
        r.push(String::from_str("  (empty)"));
        return r;
    }
    let mut i: usize = 0;
    while i < c.inventory.len()
        invariant
            i <= c.inventory@.len(),
            r@.len() == i + 1,
            r@[0]@ == "Inventory:"@,
            forall|k: int|
                1 <= k <= i ==> (#[trigger] r@[k])@ == "  - "@ + c.inventory@[k - 1]@,
        decreases c.inventory@.len() - i,
    {
        r.push(String::from_str("  - ").concat(c.inventory[i].as_str()));
        i += 1;
    }
    r
}

/// The detail panel of a tab: 0 general, 1 skills, anything else inventory.
pub open spec fn tab_view(c: Character, tab: int) -> Seq<Seq<char>> {
    if tab == 0 {
        general_view(c)
    } else if tab == 1 {
        skills_view(c)
    } else {
        inventory_view(c)
    }
}

/// The title of the input panel in the modes that read a line of text.
pub open spec fn title_of(m: Mode) -> Option<Seq<char>> {
    match m {
        Mode::CreateName => Some("Create: Name"@),
        Mode::CreateClass => Some("Create: Class"@),
        Mode::CreateRace => Some("Create: Race"@),
        Mode::CreateAbilities => Some("Create: Abilities STR DEX CON INT WIS CHA"@),
        Mode::CreateHpMax => Some("Create: HP Max"@),
        Mode::CreateAc => Some("Create: Armor Class (AC)"@),
        Mode::CreateSpeed => Some("Create: Speed (ft)"@),
        Mode::CreateSkills => Some("Create: Skills (comma or semicolon-separated)"@),
        Mode::Roll => Some("Roll: NdM or skill name"@),
        _ => None,
    }
}

/// The title of the input panel in the modes that read a line of text;
/// `None` in the list and detail modes.
pub fn mode_title(m: Mode) -> (r: Option<&'static str>)
    ensures
        r matches Some(t) ==> title_of(m) == Some(t@),
        r is None ==> title_of(m) is None,
{
    match m {
        Mode::CreateName => Some("Create: Name"),
        Mode::CreateClass => Some("Create: Class"),
        Mode::CreateRace => Some("Create: Race"),
        Mode::CreateAbilities => Some("Create: Abilities STR DEX CON INT WIS CHA"),
        Mode::CreateHpMax => Some("Create: HP Max"),
        Mode::CreateAc => Some("Create: Armor Class (AC)"),
        Mode::CreateSpeed => Some("Create: Speed (ft)"),
        Mode::CreateSkills => Some("Create: Skills (comma or semicolon-separated)"),
        Mode::Roll => Some("Roll: NdM or skill name"),
        _ => None,
    }
}

impl App {
    /// The list panel: one line per character, in list order.
    pub fn list_lines(&self) -> (r: Vec<String>)
        ensures
            lines_are(r@, Seq::new(self.items@.len(), |i: int| list_label_of(self.items@[i]))),
    {
        let mut r: Vec<String> = Vec::new();
        let mut i: usize = 0;
        while i < self.items.len()
            invariant
                i <= self.items@.len(),
                r@.len() == i,
                forall|k: int| 0 <= k < i ==> (#[trigger] r@[k])@ == list_label_of(self.items@[k]),
            decreases self.items@.len() - i,
        {
            r.push(list_label(&self.items[i]));
            i += 1;
        }
        r
    }

    /// The detail panel: the selected character's tab, or a note that no
    /// character is selected.
    pub fn detail_lines(&self) -> (r: Vec<String>)
        ensures
            self.has_current() ==> lines_are(
                r@,
                tab_view(self.items@[self.selected as int], self.detail_tab as int),
            ),
            !self.has_current() ==> lines_are(r@, seq!["No character selected"@]),
    {
        if self.selected < self.items.len() {
            let c = &self.items[self.selected];
            if self.detail_tab == 0 {
                general_lines(c)
            } else if self.detail_tab == 1 {
                skill_lines(c)
            } else {
                inventory_lines(c)
            }
        } else {
            let mut r: Vec<String> = Vec::new();
            r.push(String::from_str("No character selected"));
            r
        }
    }
}

} // verus!
