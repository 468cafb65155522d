//! The character record and the rules that derive its numbers.
use vstd::prelude::*;
use vstd::string::*;
use crate::text::{lowercase, lower_of, same_text, trim, trim_of};

verus! {

/// One character sheet.
#[derive(Debug, Clone)]
pub struct Character {
    /// Assigned by the store on first insert; `None` until then.
    pub id: Option<i64>,
    pub name: String,
    pub class_name: String,
    pub race: String,
    pub level: i32,
    pub hp_current: i32,
    pub hp_max: i32,
    pub armor_class: i32,
    pub speed: i32,
    pub strength: i32,
    pub dexterity: i32,
    pub constitution: i32,
    pub intelligence: i32,
    pub wisdom: i32,
    pub charisma: i32,
    /// Slots for spell level 1..=9, index 0..=8.
    pub spell_slots: Vec<i32>,
    /// Item names, in the order they were added.
    pub inventory: Vec<String>,
    /// Names of proficient skills (e.g. "perception").
    pub skill_proficiencies: Vec<String>,
    pub notes: Option<String>,
}

/// The modifier of an ability score: half its distance from 10, rounded down.
pub open spec fn modifier_of(score: int) -> int {
    (score - 10) / 2
}

/// The proficiency bonus at a level: 2, and 1 more every 4 levels.
pub open spec fn bonus_of(level: int) -> int {
    2 + (level - 1) / 4
}

/// `v` brought into `[lo, hi]`.
pub open spec fn clamp_of(v: int, lo: int, hi: int) -> int {
    if v < lo {
        lo
    } else if v > hi {
        hi
    } else {
        v
    }
}

impl Character {
    /// The shape every stored character keeps: at least one hit point of
    /// maximum, current hit points within `[0, hp_max]`, a level of at least
    /// one and nine non-negative spell-slot counts.
    pub open spec fn wf(&self) -> bool {
        &&& self.hp_max >= 1
        &&& 0 <= self.hp_current <= self.hp_max
        &&& self.level >= 1
        &&& self.spell_slots@.len() == 9
        &&& forall|i: int| 0 <= i < 9 ==> #[trigger] self.spell_slots@[i] >= 0
    }

    /// The score named by a lowercase ability name, short or long.
    pub open spec fn score_named(&self, n: Seq<char>) -> Option<i32> {
        if n == "str"@ || n == "strength"@ {
            Some(self.strength)
        } else if n == "dex"@ || n == "dexterity"@ {
            Some(self.dexterity)
        } else if n == "con"@ || n == "constitution"@ {
            Some(self.constitution)
        } else if n == "int"@ || n == "intelligence"@ {
            Some(self.intelligence)
        } else if n == "wis"@ || n == "wisdom"@ {
            Some(self.wisdom)
        } else if n == "cha"@ || n == "charisma"@ {
            Some(self.charisma)
        } else {
            None
        }
    }

    /// The modifier for a lowercase ability name; 0 for an unknown name.
    pub open spec fn modifier_named(&self, n: Seq<char>) -> int {
        match self.score_named(n) {
            Some(s) => modifier_of(s as int),
            None => 0,
        }
    }

    /// Whether some proficiency, lowercased, is the given key.
    pub open spec fn proficient_in(&self, key: Seq<char>) -> bool {
        exists|j: int|
            0 <= j < self.skill_proficiencies@.len() && lower_of(
                #[trigger] self.skill_proficiencies@[j]@,
            ) == key
    }

    /// The modifier of a skill check for a lowercase skill name.
    pub open spec fn skill_modifier_of(&self, s: Seq<char>) -> int {
        self.modifier_named(skill_ability(s)) + if self.proficient_in(skill_key(s)) {
            bonus_of(self.level as int)
        } else {
            0
        }
    }

    pub fn ability_mod(score: i32) -> (r: i32)
        ensures
            r == modifier_of(score as int),
    {
        let d: i64 = score as i64 - 10;
        match d.checked_div_euclid(2) {
            Some(q) => q as i32,
            None => 0,
        }
    }

    pub fn str_mod(&self) -> (r: i32)
        ensures
            r == modifier_of(self.strength as int),
    {
        Self::ability_mod(self.strength)
    }

    pub fn dex_mod(&self) -> (r: i32)
        ensures
            r == modifier_of(self.dexterity as int),
    {
        Self::ability_mod(self.dexterity)
    }

    pub fn con_mod(&self) -> (r: i32)
        ensures
            r == modifier_of(self.constitution as int),
    {
        Self::ability_mod(self.constitution)
    }

    pub fn int_mod(&self) -> (r: i32)
        ensures
            r == modifier_of(self.intelligence as int),
    {
        Self::ability_mod(self.intelligence)
    }

    pub fn wis_mod(&self) -> (r: i32)
        ensures
            r == modifier_of(self.wisdom as int),
    {
        Self::ability_mod(self.wisdom)
    }

    pub fn cha_mod(&self) -> (r: i32)
        ensures
            r == modifier_of(self.charisma as int),
    {
        Self::ability_mod(self.charisma)
    }

    pub fn proficiency_bonus(&self) -> (r: i32)
        ensures
            r == bonus_of(self.level as int),
    {
        let d: i64 = self.level as i64 - 1;
        match d.checked_div_euclid(4) {
            Some(q) => (2 + q) as i32,
            None => 2,
        }
    }

    pub fn level_up(&mut self)
        requires
            old(self).level < i32::MAX,
        ensures
            old(self).wf() ==> final(self).wf(),
            *final(self) == (Character { level: (old(self).level + 1) as i32, ..*old(self) }),
    {
        self.level = self.level + 1;
    }

    pub fn change_hp(&mut self, delta: i32)
        requires
            old(self).hp_max >= 0,
        ensures
            old(self).wf() ==> final(self).wf(),
            *final(self) == (Character {
                hp_current: clamp_of(
                    old(self).hp_current + delta,
                    0,
                    old(self).hp_max as int,
                ) as i32,
                ..*old(self)
            }),
    {
        let v: i64 = self.hp_current as i64 + delta as i64;
        self.hp_current = if v < 0 {
            0
        } else if v > self.hp_max as i64 {
            self.hp_max
        } else {
            v as i32
        };
    }

    pub fn set_hp(&mut self, new_hp: i32)
        requires
            old(self).hp_max >= 0,
        ensures
            old(self).wf() ==> final(self).wf(),
            *final(self) == (Character {
                hp_current: clamp_of(new_hp as int, 0, old(self).hp_max as int) as i32,
                ..*old(self)
            }),
    {
        self.hp_current = if new_hp < 0 {
            0
        } else if new_hp > self.hp_max {
            self.hp_max
        } else {
            new_hp
        };
    }

    pub fn add_item(&mut self, item: String)
        ensures
            old(self).wf() ==> final(self).wf(),
            trim_of(item@).len() == 0 ==> *final(self) == *old(self),
            trim_of(item@).len() != 0 ==> *final(self) == (Character {
                inventory: final(self).inventory,
                ..*old(self)
            }) && final(self).inventory@ == old(self).inventory@.push(item),
    {
        let keep = trim(item.as_str()).unicode_len() != 0;
        if keep {
            self.inventory.push(item);
        }
    }

    pub fn remove_item(&mut self, index: usize)
        ensures
            old(self).wf() ==> final(self).wf(),
            index >= old(self).inventory@.len() ==> *final(self) == *old(self),
            index < old(self).inventory@.len() ==> *final(self) == (Character {
                inventory: final(self).inventory,
                ..*old(self)
            }) && final(self).inventory@ == old(self).inventory@.remove(index as int),
    {
        if index < self.inventory.len() {
            self.inventory.remove(index);
        }
    }

    pub fn adjust_spell_slot(&mut self, level: usize, delta: i32)
        requires
            1 <= level <= 9 ==> level - 1 < old(self).spell_slots@.len()
                && old(self).spell_slots@[level - 1] + delta <= i32::MAX,
        ensures
            old(self).wf() ==> final(self).wf(),
            !(1 <= level <= 9) ==> *final(self) == *old(self),
            1 <= level <= 9 ==> *final(self) == (Character {
                spell_slots: final(self).spell_slots,
                ..*old(self)
            }) && final(self).spell_slots@ == old(self).spell_slots@.update(
                level - 1,
                (if old(self).spell_slots@[level - 1] + delta < 0 {
                    0
                } else {
                    old(self).spell_slots@[level - 1] + delta
                }) as i32,
            ),
    {
        if 1 <= level && level <= 9 {
            let idx = level - 1;
            let v: i64 = self.spell_slots[idx] as i64 + delta as i64;
            let new_val: i32 = if v < 0 {
                0
            } else {
                v as i32
            };
            self.spell_slots.set(idx, new_val);
        }
    }

    /// The modifier for a lowercase ability name; 0 for an unknown one.
    pub fn ability_modifier_by_key(&self, n: &str) -> (r: i32)
        ensures
            r == self.modifier_named(n@),
    {
        let score = if same_text(n, "str") || same_text(n, "strength") {
            self.strength
        } else if same_text(n, "dex") || same_text(n, "dexterity") {
            self.dexterity
        } else if same_text(n, "con") || same_text(n, "constitution") {
            self.constitution
        } else if same_text(n, "int") || same_text(n, "intelligence") {
            self.intelligence
        } else if same_text(n, "wis") || same_text(n, "wisdom") {
            self.wisdom
        } else if same_text(n, "cha") || same_text(n, "charisma") {
            self.charisma
        } else {
            return 0;
        };
        Self::ability_mod(score)
    }

    /// The modifier for an ability name in any case; 0 for an unknown one.
    pub fn ability_modifier_by_name(&self, name: &str) -> (r: i32)
        ensures
            r == self.modifier_named(lower_of(name@)),
    {
        let n = lowercase(name);
        self.ability_modifier_by_key(n.as_str())
    }

    /// The modifier of a skill check for a lowercase skill name: the
    /// governing ability's modifier, plus the proficiency bonus when some
    /// proficiency matches the skill.
    pub fn skill_modifier_by_key(&self, s: &str) -> (r: i32)
        ensures
            r == self.skill_modifier_of(s@),
    {
        let (ability, key) = skill_entry(s);
        let base = self.ability_modifier_by_key(ability);
        let bonus = if self.is_proficient(key.as_str()) {
            self.proficiency_bonus()
        } else {
            0
        };
        base + bonus
    }

    /// Whether some proficiency, lowercased, is the given key.
    pub fn is_proficient(&self, key: &str) -> (r: bool)
        ensures
            r == self.proficient_in(key@),
    {
        let mut j: usize = 0;
        while j < self.skill_proficiencies.len()
            invariant
                j <= self.skill_proficiencies@.len(),
                forall|k: int|
                    0 <= k < j ==> lower_of(#[trigger] self.skill_proficiencies@[k]@) != key@,
            decreases self.skill_proficiencies@.len() - j,
        {
            let l = lowercase(self.skill_proficiencies[j].as_str());
            if same_text(l.as_str(), key) {
                return true;
            }
            j += 1;
        }
        false
    }

    /// The modifier of a skill check, for a skill name in any case.
    pub fn skill_modifier(&self, skill: &str) -> (r: i32)
        ensures
            r == self.skill_modifier_of(lower_of(skill@)),
    {
        let s = lowercase(skill);
        self.skill_modifier_by_key(s.as_str())
    }
}

impl Default for Character {
    /// A fresh level-1 character with every score at 10.
    fn default() -> (r: Self)
        ensures
            r.wf(),
            r.id.is_none(),
            r.name@ == "Unnamed"@,
            r.class_name@ == "Fighter"@,
            r.race@ == "Human"@,
            r.level == 1,
            r.hp_current == 10,
            r.hp_max == 10,
            r.armor_class == 10,
            r.speed == 30,
            r.strength == 10,
            r.dexterity == 10,
            r.constitution == 10,
            r.intelligence == 10,
            r.wisdom == 10,
            r.charisma == 10,
            r.spell_slots@.len() == 9,
            forall|i: int| 0 <= i < 9 ==> #[trigger] r.spell_slots@[i] == 0,
            r.inventory@.len() == 0,
            r.skill_proficiencies@.len() == 0,
            r.notes.is_none(),
    {
        Character {
            id: None,
            name: String::from_str("Unnamed"),
            class_name: String::from_str("Fighter"),
            race: String::from_str("Human"),
            level: 1,
            hp_current: 10,
            hp_max: 10,
            armor_class: 10,
            speed: 30,
            strength: 10,
            dexterity: 10,
            constitution: 10,
            intelligence: 10,
            wisdom: 10,
            charisma: 10,
            spell_slots: vec![0; 9],
            inventory: Vec::new(),
            skill_proficiencies: Vec::new(),
            notes: None,
        }
    }
}


/// The skills, each with the lowercase short name of its governing ability.
pub open spec fn skill_catalog() -> Seq<(Seq<char>, Seq<char>)> {
    seq![
        ("acrobatics"@, "dex"@),
        ("animal handling"@, "wis"@),
        ("arcana"@, "int"@),
        ("athletics"@, "str"@),
        ("deception"@, "cha"@),
        ("history"@, "int"@),
        ("insight"@, "wis"@),
        ("intimidation"@, "cha"@),
        ("investigation"@, "int"@),
        ("medicine"@, "wis"@),
        ("nature"@, "int"@),
        ("perception"@, "wis"@),
        ("performance"@, "cha"@),
        ("persuasion"@, "cha"@),
        ("religion"@, "int"@),
        ("sleight of hand"@, "dex"@),
        ("stealth"@, "dex"@),
        ("survival"@, "wis"@),
    ]
}

/// Whether `i` is the first place of the catalog that names skill `s`.
pub open spec fn first_skill_at(s: Seq<char>, i: int) -> bool {
    &&& 0 <= i < skill_catalog().len()
    &&& skill_catalog()[i].0 == s
    &&& forall|j: int| 0 <= j < i ==> skill_catalog()[j].0 != s
}

/// Whether the catalog holds a skill of that name.
pub open spec fn in_catalog(s: Seq<char>) -> bool {
    exists|i: int| first_skill_at(s, i)
}

/// The ability that governs a skill; "str" for a name outside the catalog.
pub open spec fn skill_ability(s: Seq<char>) -> Seq<char> {
    if in_catalog(s) {
        skill_catalog()[choose|i: int| first_skill_at(s, i)].1
    } else {
        "str"@
    }
}

/// The proficiency key of a skill: its name, or empty outside the catalog.
pub open spec fn skill_key(s: Seq<char>) -> Seq<char> {
    if in_catalog(s) {
        s
    } else {
        Seq::empty()
    }
}

/// A higher score never gives a lower modifier.
pub proof fn lemma_modifier_monotonic(a: int, b: int)
    requires
        a <= b,
    ensures
        modifier_of(a) <= modifier_of(b),
{
    assert((a - 10) / 2 <= (b - 10) / 2) by (nonlinear_arith)
        requires
            a <= b,
    ;
}

/// The proficiency bonus by tier: 2 for levels 1-4, 3 for 5-8, 4 for 9-12,
/// 5 for 13-16 and 6 for 17-20.
pub proof fn lemma_bonus_tiers(level: int)
    requires
        1 <= level <= 20,
    ensures
        bonus_of(level) == (if level <= 4 {
            2int
        } else if level <= 8 {
            3int
        } else if level <= 12 {
            4int
        } else if level <= 16 {
            5int
        } else {
            6int
        }),
{
}

/// Whatever the change, hit points after `change_hp` lie in `[0, hp_max]`.
pub proof fn lemma_change_hp_in_bounds(c: Character, delta: i32)
    requires
        c.hp_max >= 0,
    ensures
        0 <= clamp_of(c.hp_current + delta, 0, c.hp_max as int) <= c.hp_max,
{
}

/// Whether a lowercase text names a skill of the catalog.
pub fn catalog_has(s: &str) -> (r: bool)
    ensures
        r == in_catalog(s@),
{
    let cat = all_skills();
    let mut i: usize = 0;
    while i < cat.len()
        invariant
            cat@.len() == skill_catalog().len(),
            forall|k: int|
                0 <= k < cat@.len() ==> (#[trigger] cat@[k]).0@ == skill_catalog()[k].0
                    && cat@[k].1@ == skill_catalog()[k].1,
            i <= cat@.len(),
            forall|j: int| 0 <= j < i ==> skill_catalog()[j].0 != s@,
        decreases cat@.len() - i,
    {
        if same_text(s, cat[i].0) {
            assert(first_skill_at(s@, i as int));
            return true;
        }
        i += 1;
    }
    false
}

/// The skills with their governing abilities, in catalog order.
pub fn all_skills() -> (r: Vec<(&'static str, &'static str)>)
    ensures
        r@.len() == skill_catalog().len(),
        forall|i: int|
            0 <= i < r@.len() ==> (#[trigger] r@[i]).0@ == skill_catalog()[i].0 && r@[i].1@
                == skill_catalog()[i].1,
{
    let r = vec![
        ("acrobatics", "dex"),
        ("animal handling", "wis"),
        ("arcana", "int"),
        ("athletics", "str"),
        ("deception", "cha"),
        ("history", "int"),
        ("insight", "wis"),
        ("intimidation", "cha"),
        ("investigation", "int"),
        ("medicine", "wis"),
        ("nature", "int"),
        ("perception", "wis"),
        ("performance", "cha"),
        ("persuasion", "cha"),
        ("religion", "int"),
        ("sleight of hand", "dex"),
        ("stealth", "dex"),
        ("survival", "wis"),
    ];
    assert(r@.len() == skill_catalog().len());
    r
}

/// The governing ability and the proficiency key of a lowercase skill name.
pub fn skill_entry(s: &str) -> (r: (&'static str, String))
    ensures
        r.0@ == skill_ability(s@),
        r.1@ == skill_key(s@),
{
    let cat = all_skills();
    let mut i: usize = 0;
    while i < cat.len()
        invariant
            cat@.len() == skill_catalog().len(),
            forall|k: int|
                0 <= k < cat@.len() ==> (#[trigger] cat@[k]).0@ == skill_catalog()[k].0
                    && cat@[k].1@ == skill_catalog()[k].1,
            i <= cat@.len(),
            forall|j: int| 0 <= j < i ==> skill_catalog()[j].0 != s@,
        decreases cat@.len() - i,
    {
        let (name, ability) = cat[i];
        if same_text(s, name) {
            assert(first_skill_at(s@, i as int));
            proof {
                let k = choose|k: int| first_skill_at(s@, k);
                if k < i {
                } else if k > i {
                    assert(skill_catalog()[i as int].0 == s@);
                }
                assert(k == i);
            }
            return (ability, String::from_str(name));
        }
        i += 1;
    }
    assert(!in_catalog(s@));
    ("str", String::new())
}

/// The governing ability and the proficiency key of a skill name, in any case.
pub fn skill_to_ability(skill: &str) -> (r: (&'static str, String))
    ensures
        r.0@ == skill_ability(lower_of(skill@)),
        r.1@ == skill_key(lower_of(skill@)),
{
    let s = lowercase(skill);
    skill_entry(s.as_str())
}

} // verus!
