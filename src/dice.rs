//! Dice specs of the form `[count]d<sides>` and rolls of them.
use vstd::prelude::*;
use vstd::string::*;
use rand::Rng;
use crate::text::{all_digits, i32_value, is_digit, lower_of, lowercase, parse_i32, trim, trim_of};

verus! {

/// Whether `k` is the one place of `t` that holds a `d`.
pub open spec fn only_d_at(t: Seq<char>, k: int) -> bool {
    &&& 0 <= k < t.len()
    &&& t[k] == 'd'
    &&& forall|j: int| 0 <= j < t.len() && j != k ==> t[j] != 'd'
}

/// The count that the text before the `d` names: 1 when it is empty.
pub open spec fn count_value(c: Seq<char>) -> Option<i32> {
    if c.len() == 0 {
        Some(1i32)
    } else {
        i32_value(c)
    }
}

/// The count and sides that a lowercase, trimmed dice text names: exactly
/// one `d`, a count before it (empty means 1) and sides after it, both
/// positive integers.
pub open spec fn dice_of(t: Seq<char>) -> Option<(i32, i32)> {
    if exists|k: int| only_d_at(t, k) {
        let k = choose|k: int| only_d_at(t, k);
        match (count_value(t.subrange(0, k)), i32_value(t.subrange(k + 1, t.len() as int))) {
            (Some(c), Some(s)) => if c > 0 && s > 0 {
                Some((c, s))
            } else {
                None
            },
            _ => None,
        }
    } else {
        None
    }
}

/// The count and sides that a dice text names, after trimming and
/// lowercasing it.
pub open spec fn dice_spec_of(text: Seq<char>) -> Option<(i32, i32)> {
    dice_of(lower_of(trim_of(text)))
}

/// What a roll of a text rolls: the dice it names, else a single d20.
pub open spec fn dice_or_d20(text: Seq<char>) -> (i32, i32) {
    match dice_spec_of(text) {
        Some(p) => p,
        None => (1i32, 20i32),
    }
}

/// The sum of a sequence of rolls.
pub open spec fn sum_of(s: Seq<i32>) -> int
    decreases s.len(),
{
    if s.len() == 0 {
        0
    } else {
        sum_of(s.drop_last()) + s.last() as int
    }
}

/// A text whose first character (or, when that is the `d`, whose second)
/// is neither a digit nor a sign names no dice.
pub proof fn lemma_not_dice(t: Seq<char>)
    requires
        t.len() > 0,
        !is_digit(t[0]) && t[0] != '+' && t[0] != '-',
        t[0] == 'd' ==> t.len() > 1 && !is_digit(t[1]) && t[1] != '+' && t[1] != '-',
    ensures
        dice_of(t) is None,
{
    if exists|k: int| only_d_at(t, k) {
        let k = choose|k: int| only_d_at(t, k);
        if k > 0 {
            let c = t.subrange(0, k);
            assert(c[0] == t[0]);
            assert(!all_digits(c));
        } else {
            let d = t.subrange(1, t.len() as int);
            assert(d[0] == t[1]);
            assert(!all_digits(d));
        }
    }
}

/// Parses a dice text that is already trimmed and lowercase.
pub fn parse_dice_text(t: &str) -> (r: Option<(i32, i32)>)
    ensures
        r == dice_of(t@),
{
    let n = t.unicode_len();
    let mut first: Option<usize> = None;
    let mut many = false;
    let mut i: usize = 0;
    while i < n
        invariant
            n == t@.len(),
            i <= n,
            first.is_none() ==> !many && forall|j: int| 0 <= j < i ==> t@[j] != 'd',
            first.is_some() ==> {
                let k = first.unwrap() as int;
                &&& k < i
                &&& t@[k] == 'd'
                &&& forall|j: int| 0 <= j < k ==> t@[j] != 'd'
                &&& !many ==> forall|j: int| k < j < i ==> t@[j] != 'd'
                &&& many ==> exists|j: int| k < j < i && t@[j] == 'd'
            },
        decreases n - i,
    {
        if t.get_char(i) == 'd' {
            if first.is_none() {
                first = Some(i);
            } else {
                many = true;
                assert(t@[i as int] == 'd');
            }
        }
        i += 1;
    }
    let k = match first {
        None => {
            assert(forall|k: int| !only_d_at(t@, k));
            return None;
        },
        Some(k) => k,
    };
    if many {
        assert forall|k2: int| !only_d_at(t@, k2) by {
            let j = choose|j: int| k < j < n && t@[j] == 'd';
            if only_d_at(t@, k2) {
                assert(k2 == k as int);
                assert(false);
            }
        }
        return None;
    }
    assert(only_d_at(t@, k as int));
    proof {
        let k2 = choose|k2: int| only_d_at(t@, k2);
        assert(k2 == k as int);
    }
    let count = if k == 0 {
        1
    } else {
        match parse_i32(t.substring_char(0, k)) {
            Some(c) => c,
            None => {
                return None;
            },
        }
    };
    assert(count_value(t@.subrange(0, k as int)) == Some(count));
    let sides = match parse_i32(t.substring_char(k + 1, n)) {
        Some(s) => s,
        None => {
            return None;
        },
    };
    if count <= 0 || sides <= 0 {
        return None;
    }
    Some((count, sides))
}

/// Parses a dice spec such as `2d6` or `d20`, ignoring surrounding blanks
/// and case. `None` is an ordinary answer: the text names no dice.
pub fn parse_dice(spec: &str) -> (r: Option<(i32, i32)>)
    ensures
        r == dice_spec_of(spec@),
{
    let t = lowercase(trim(spec));
    parse_dice_text(t.as_str())
}

/// Relies on rand's `thread_rng` and `Rng::gen_range` over `1..=sides`:
/// a value within that range (the range is never empty here).
#[verifier::external_body]
fn draw(sides: i32) -> (r: i32)
    requires
        sides >= 1,
    ensures
        1 <= r <= sides,
{
    rand::thread_rng().gen_range(1..=sides)
}

/// Rolls `count` dice of `sides` sides each; the total is their sum plus
/// `modifier`.
pub fn roll_dice(count: i32, sides: i32, modifier: i32) -> (r: (i64, Vec<i32>))
    requires
        count >= 1,
        sides >= 1,
    ensures
        r.1@.len() == count,
        forall|i: int| 0 <= i < r.1@.len() ==> 1 <= #[trigger] r.1@[i] <= sides,
        r.0 == sum_of(r.1@) + modifier,
{
    let mut rolls: Vec<i32> = Vec::new();
    let mut total: i64 = 0;
    let mut i: i32 = 0;
    while i < count
        invariant
            0 <= i <= count,
            sides >= 1,
            rolls@.len() == i,
            forall|j: int| 0 <= j < rolls@.len() ==> 1 <= #[trigger] rolls@[j] <= sides,
            total == sum_of(rolls@),
            0 <= total <= i as int * sides as int,
        decreases count - i,
    {
        let v = draw(sides);
        proof {
            assert((i as int + 1) * sides as int == i as int * sides as int + sides as int)
                by (nonlinear_arith);
            assert((i as int + 1) * sides as int <= 0x8000_0000int * 0x8000_0000int)
                by (nonlinear_arith)
                requires
                    0 <= i < 0x8000_0000,
                    1 <= sides < 0x8000_0000,
            ;
        }
        let ghost before = rolls@;
        rolls.push(v);
        assert(rolls@.drop_last() =~= before);
        total = total + v as i64;
        i += 1;
    }
    proof {
        assert(count as int * sides as int <= 0x8000_0000int * 0x8000_0000int) by (nonlinear_arith)
            requires
                0 <= count < 0x8000_0000,
                1 <= sides < 0x8000_0000,
        ;
    }
    (total + modifier as i64, rolls)
}

/// Rolls what a dice text names (a single d20 when it names nothing) and
/// adds `modifier` to the sum.
pub fn roll(dice: &str, modifier: i32) -> (r: (i64, Vec<i32>))
    ensures
        r.1@.len() == dice_or_d20(dice@).0,
        forall|i: int| 0 <= i < r.1@.len() ==> 1 <= #[trigger] r.1@[i] <= dice_or_d20(dice@).1,
        r.0 == sum_of(r.1@) + modifier,
{
    let (count, sides) = match parse_dice(dice) {
        Some(p) => p,
        None => (1, 20),
    };
    roll_dice(count, sides, modifier)
}

} // verus!
