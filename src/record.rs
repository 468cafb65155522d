//! How a character's lists are kept in the store: each as a JSON text. A
//! text that does not decode reads as the list's default.
use vstd::prelude::*;
use crate::models::Character;

verus! {

/// The list of `i32` that `serde_json::from_str` reads from a text, if any.
pub uninterp spec fn json_ints_of(s: Seq<char>) -> Option<Seq<i32>>;

/// The list of strings that `serde_json::from_str` reads from a text, if any.
pub uninterp spec fn json_texts_of(s: Seq<char>) -> Option<Seq<Seq<char>>>;

/// The text that `serde_json::to_string` writes for a list of `i32`.
pub uninterp spec fn ints_json_of(v: Seq<i32>) -> Option<Seq<char>>;

/// The text that `serde_json::to_string` writes for a list of strings.
pub uninterp spec fn texts_json_of(v: Seq<Seq<char>>) -> Option<Seq<char>>;

/// The views of a list of strings.
pub open spec fn texts_view(v: Seq<String>) -> Seq<Seq<char>> {
    v.map_values(|s: String| s@)
}

/// Relies on `serde_json::from_str` into a `Vec<i32>`: the list, or an
/// error when the text is not a JSON array of such integers.
#[verifier::external_body]
fn read_ints(s: &str) -> (r: Option<Vec<i32>>)
    ensures
        r.is_some() == json_ints_of(s@).is_some(),
        r matches Some(v) ==> v@ == json_ints_of(s@).unwrap(),
{
    serde_json::from_str::<Vec<i32>>(s).ok()
}

/// Relies on `serde_json::from_str` into a `Vec<String>`: the list, or an
/// error when the text is not a JSON array of strings.
#[verifier::external_body]
fn read_texts(s: &str) -> (r: Option<Vec<String>>)
    ensures
        r.is_some() == json_texts_of(s@).is_some(),
        r matches Some(v) ==> texts_view(v@) == json_texts_of(s@).unwrap(),
{
    serde_json::from_str::<Vec<String>>(s).ok()
}

/// Relies on `serde_json::to_string` of a `Vec<i32>`.
#[verifier::external_body]
fn write_ints(v: &Vec<i32>) -> (r: Option<String>)
    ensures
        r.is_some() == ints_json_of(v@).is_some(),
        r matches Some(t) ==> t@ == ints_json_of(v@).unwrap(),
{
    serde_json::to_string(v).ok()
}

/// Relies on `serde_json::to_string` of a `Vec<String>`.
#[verifier::external_body]
fn write_texts(v: &Vec<String>) -> (r: Option<String>)
    ensures
        r.is_some() == texts_json_of(texts_view(v@)).is_some(),
        r matches Some(t) ==> t@ == texts_json_of(texts_view(v@)).unwrap(),
{
    serde_json::to_string(v).ok()
}

/// The spell slots kept in a text: the list it holds, else nine zeros.
pub fn decode_slots(text: &str) -> (r: Vec<i32>)
    ensures
        r@ == (match json_ints_of(text@) {
            Some(v) => v,
            None => Seq::new(9, |i: int| 0i32),
        }),
{
    match read_ints(text) {
        Some(v) => v,
        None => {
            let r: Vec<i32> = vec![0; 9];
            assert(r@ =~= Seq::new(9, |i: int| 0i32));
            r
        },
    }
}

/// The inventory or proficiencies kept in a text: the list it holds, else
/// an empty list.
pub fn decode_names(text: &str) -> (r: Vec<String>)
    ensures
        texts_view(r@) == (match json_texts_of(text@) {
            Some(v) => v,
            None => Seq::empty(),
        }),
{
    match read_texts(text) {
        Some(v) => v,
        None => {
            let r: Vec<String> = Vec::new();
            assert(texts_view(r@) =~= Seq::empty());
            r
        },
    }
}

/// A character's lists as the texts the store keeps.
pub struct EncodedLists {
    pub spell_slots: String,
    pub inventory: String,
    pub skill_proficiencies: String,
}

/// Encodes a character's three lists; `None` when one of them cannot be
/// written.
pub fn encode_lists(c: &Character) -> (r: Option<EncodedLists>)
    ensures
        r.is_some() == (ints_json_of(c.spell_slots@).is_some() && texts_json_of(
            texts_view(c.inventory@),
        ).is_some() && texts_json_of(texts_view(c.skill_proficiencies@)).is_some()),
        r matches Some(e) ==> {
            &&& e.spell_slots@ == ints_json_of(c.spell_slots@).unwrap()
            &&& e.inventory@ == texts_json_of(texts_view(c.inventory@)).unwrap()
            &&& e.skill_proficiencies@ == texts_json_of(texts_view(c.skill_proficiencies@)).unwrap()
        },
{
    let spell_slots = match write_ints(&c.spell_slots) {
        Some(t) => t,
        None => {
            return None;
        },
    };
    let inventory = match write_texts(&c.inventory) {
        Some(t) => t,
        None => {
            return None;
        },
    };
    let skill_proficiencies = match write_texts(&c.skill_proficiencies) {
        Some(t) => t,
        None => {
            return None;
        },
    };
    Some(EncodedLists { spell_slots, inventory, skill_proficiencies })
}

} // verus!
