//! The raw statistics of one poll: what a backend reports, as far as the
//! renderer reads it.

use vstd::prelude::*;
use std::collections::HashMap;
use crate::config::names_view;
use crate::text::str_eq;

verus! {

/// `serde_json::Value`: a decoded JSON value, which only the functions
/// below that call into `serde_json` look into.
#[verifier::external_type_specification]
#[verifier::external_body]
pub struct ExJsonValue(serde_json::Value);

/// `serde_json::Error`: why a text was not decoded.
#[verifier::external_type_specification]
#[verifier::external_body]
pub struct ExJsonError(serde_json::Error);

/// What the renderer reads of one reported value.
#[derive(Debug)]
pub enum StatValue {
    /// A number, as the text that stands for it in the exposition.
    Number(String),
    /// An array, of which only the length counts.
    Array(usize),
    /// Anything else.
    Other,
}

/// What a `StatValue` says.
pub enum StatView {
    Number(Seq<char>),
    Array(nat),
    Other,
}

impl View for StatValue {
    type V = StatView;

    open spec fn view(&self) -> StatView {
        match self {
            StatValue::Number(text) => StatView::Number(text@),
            StatValue::Array(len) => StatView::Array(*len as nat),
            StatValue::Other => StatView::Other,
        }
    }
}

impl Clone for StatValue {
    fn clone(&self) -> (copy: StatValue)
        ensures
            copy@ == self@,
    {
        match self {
            StatValue::Number(text) => StatValue::Number(text.clone()),
            StatValue::Array(len) => StatValue::Array(*len),
            StatValue::Other => StatValue::Other,
        }
    }
}

/// One reported statistic.
#[derive(Debug)]
pub struct StatEntry {
    pub name: String,
    pub value: StatValue,
}

impl View for StatEntry {
    type V = (Seq<char>, StatView);

    open spec fn view(&self) -> (Seq<char>, StatView) {
        (self.name@, self.value@)
    }
}

/// What statistics say: names with their values, in order.
pub type StatsView = Seq<(Seq<char>, StatView)>;

/// No name occurs twice among `entries`.
pub open spec fn names_distinct(entries: StatsView) -> bool {
    forall|i: int, j: int|
        0 <= i < entries.len() && 0 <= j < entries.len() && i != j ==> (#[trigger] entries[i]).0
            != (#[trigger] entries[j]).0
}

/// Whether some entry has the name `name`.
pub open spec fn has_name(entries: StatsView, name: Seq<char>) -> bool {
    exists|i: int| 0 <= i < entries.len() && (#[trigger] entries[i]).0 == name
}

/// The place of an entry named `name`, if there is one.
pub open spec fn place_of(entries: StatsView, name: Seq<char>) -> int {
    choose|i: int| 0 <= i < entries.len() && (#[trigger] entries[i]).0 == name
}

/// The value reported under `name`, if any.
pub open spec fn lookup(entries: StatsView, name: Seq<char>) -> Option<StatView> {
    if has_name(entries, name) {
        Some(entries[place_of(entries, name)].1)
    } else {
        None
    }
}

/// The entries as a mapping from name to value.
pub open spec fn entries_map(entries: StatsView) -> Map<Seq<char>, StatView> {
    Map::new(
        |name: Seq<char>| has_name(entries, name),
        |name: Seq<char>| entries[place_of(entries, name)].1,
    )
}

/// Where no name occurs twice, each entry is what `lookup` finds under its
/// name.
pub proof fn lookup_finds_entry(entries: StatsView, i: int)
    requires
        names_distinct(entries),
        0 <= i < entries.len(),
    ensures
        lookup(entries, entries[i].0) == Some(entries[i].1),
{
    let name = entries[i].0;
    assert(has_name(entries, name));
    let place = place_of(entries, name);
    assert(0 <= place < entries.len() && entries[place].0 == name);
}

/// The statistics of one poll, in the order in which they are rendered. No
/// name occurs twice.
#[derive(Debug)]
pub struct Stats {
    entries: Vec<StatEntry>,
}

impl View for Stats {
    type V = StatsView;

    closed spec fn view(&self) -> StatsView {
        self.entries@.map_values(|entry: StatEntry| entry@)
    }
}

impl Stats {
    /// No name occurs twice.
    #[verifier::type_invariant]
    pub open spec fn names_occur_once(self) -> bool {
        names_distinct(self@)
    }

    /// Statistics with no entry.
    pub fn new() -> (stats: Stats)
        ensures
            stats@ == StatsView::empty(),
    {
        let stats = Stats { entries: Vec::new() };
        assert(stats@ =~= StatsView::empty());
        stats
    }

    /// The number of entries.
    pub fn len(&self) -> (len: usize)
        ensures
            len == self@.len(),
    {
        self.entries.len()
    }

    /// The entry at place `i`.
    pub fn entry(&self, i: usize) -> (entry: &StatEntry)
        requires
            i < self@.len(),
        ensures
            entry@ == self@[i as int],
    {
        &self.entries[i]
    }

    /// The place of the entry named `name`, if there is one.
    pub fn position(&self, name: &str) -> (place: Option<usize>)
        ensures
            match place {
                Some(i) => i < self@.len() && self@[i as int].0 == name@,
                None => !has_name(self@, name@),
            },
    {
        let mut i: usize = 0;
        while i < self.entries.len()
            invariant
                i <= self.entries.len(),
                forall|j: int| 0 <= j < i ==> (#[trigger] self@[j]).0 != name@,
            decreases self.entries.len() - i,
        {
            if str_eq(self.entries[i].name.as_str(), name) {
                return Some(i);
            }
            i += 1;
        }
        None
    }

    /// The value reported under `name`, if any.
    pub fn get(&self, name: &str) -> (value: Option<&StatValue>)
        ensures
            match value {
                Some(found) => lookup(self@, name@) == Some(found@),
                None => lookup(self@, name@) is None,
            },
    {
        match self.position(name) {
            Some(i) => {
                proof {
                    use_type_invariant(self);
                    lookup_finds_entry(self@, i as int);
                }
                Some(&self.entries[i].value)
            },
            None => None,
        }
    }

    /// Reports `value` under `name`: in place of what was reported under that
    /// name before, or else as a new last entry.
    pub fn insert(&mut self, name: String, value: StatValue)
        ensures
            has_name(old(self)@, name@) ==> final(self)@ == old(self)@.update(
                place_of(old(self)@, name@),
                (name@, value@),
            ),
            !has_name(old(self)@, name@) ==> final(self)@ == old(self)@.push((name@, value@)),
    {
        proof {
            use_type_invariant(&*self);
        }
        let ghost before = self@;
        match self.position(name.as_str()) {
            Some(i) => {
                let ghost place = place_of(before, name@);
                assert(place == i) by {
                    assert(has_name(before, name@));
                }
                let mut entries: Vec<StatEntry> = Vec::new();
                std::mem::swap(&mut entries, &mut self.entries);
                entries.set(i, StatEntry { name, value });
                proof {
                    let after = entries@.map_values(|entry: StatEntry| entry@);
                    assert(after =~= before.update(place, (name@, value@)));
                    assert forall|a: int, b: int|
                        0 <= a < after.len() && 0 <= b < after.len() && a != b implies (
                    #[trigger] after[a]).0 != (#[trigger] after[b]).0 by {
                        assert(after[a].0 == before[a].0);
                        assert(after[b].0 == before[b].0);
                    }
                }
                std::mem::swap(&mut entries, &mut self.entries);
            },
            None => {
                let mut entries: Vec<StatEntry> = Vec::new();
                std::mem::swap(&mut entries, &mut self.entries);
                entries.push(StatEntry { name, value });
                proof {
                    let after = entries@.map_values(|entry: StatEntry| entry@);
                    assert(after =~= before.push((name@, value@)));
                    assert forall|a: int, b: int|
                        0 <= a < after.len() && 0 <= b < after.len() && a != b implies (
                    #[trigger] after[a]).0 != (#[trigger] after[b]).0 by {
                        if a < before.len() {
                            assert(after[a] == before[a]);
                        }
                        if b < before.len() {
                            assert(after[b] == before[b]);
                        }
                    }
                }
                std::mem::swap(&mut entries, &mut self.entries);
            },
        }
    }
}

/// A decoded JSON object: its keys with their values.
pub type JsonObject = HashMap<String, serde_json::Value>;

/// What a decoded JSON object reports, as the renderer reads it. Under each
/// key of the object stands `Number`, where `serde_json::Value::as_f64`
/// reads the value as a 64-bit float, with the text that `Display` gives
/// that float; `Array` with the number of elements, where the value is an
/// array; and `Other` for the rest.
pub uninterp spec fn object_stats(object: JsonObject) -> Map<Seq<char>, StatView>;

/// What `body` reports when it is decoded as one JSON object: `None` where
/// it is not the text of a JSON object.
pub uninterp spec fn json_object(body: Seq<u8>) -> Option<Map<Seq<char>, StatView>>;

/// The text of the number reported under `name`, where a number is.
pub open spec fn number_under(reported: Map<Seq<char>, StatView>, name: Seq<char>) -> Option<
    Seq<char>,
> {
    match reported.get(name) {
        Some(StatView::Number(text)) => Some(text),
        _ => None,
    }
}

/// The length of the array reported under `name`, where an array is.
pub open spec fn array_len_under(reported: Map<Seq<char>, StatView>, name: Seq<char>) -> Option<
    nat,
> {
    match reported.get(name) {
        Some(StatView::Array(len)) => Some(len),
        _ => None,
    }
}

/// Calls `serde_json::from_slice` for a map from strings to JSON values.
/// Not proved: that the outcome depends on the bytes alone, which is what
/// `json_object` names.
#[verifier::external_body]
fn parse_object(body: &[u8]) -> (parsed: Result<JsonObject, serde_json::Error>)
    ensures
        match parsed {
            Ok(object) => json_object(body@) == Some(object_stats(object)),
            Err(_) => json_object(body@) is None,
        },
{
    serde_json::from_slice(body)
}

/// Calls `HashMap::keys` and copies each key. Not proved: that every key of
/// the object comes out once, in an order that is left open.
#[verifier::external_body]
fn object_names(object: &JsonObject) -> (names: Vec<String>)
    ensures
        names_view(names@).no_duplicates(),
        names_view(names@).to_set() == object_stats(*object).dom(),
{
    object.keys().cloned().collect()
}

/// Calls `HashMap::get` and, on what is found, `serde_json::Value::as_f64`,
/// and writes the float with `Display`. Not proved: that the text is the one
/// that `object_stats` holds under `name`, and that there is none where the
/// object has no number there.
#[verifier::external_body]
fn object_number(object: &JsonObject, name: &str) -> (text: Option<String>)
    ensures
        match text {
            Some(digits) => number_under(object_stats(*object), name@) == Some(digits@),
            None => number_under(object_stats(*object), name@) is None,
        },
{
    match object.get(name)?.as_f64() {
        Some(number) => Some(format!("{}", number)),
        None => None,
    }
}

/// Calls `HashMap::get` and, on what is found, `serde_json::Value::as_array`
/// and `Vec::len`. Not proved: that the length is the one that
/// `object_stats` holds under `name`, and that there is none where the
/// object has no array there.
#[verifier::external_body]
fn object_array_len(object: &JsonObject, name: &str) -> (len: Option<usize>)
    ensures
        match len {
            Some(count) => array_len_under(object_stats(*object), name@) == Some(count as nat),
            None => array_len_under(object_stats(*object), name@) is None,
        },
{
    match object.get(name)?.as_array() {
        Some(items) => Some(items.len()),
        None => None,
    }
}

/// Calls `to_string` on a `serde_json::Error`, for the diagnostics. Nothing
/// is claimed of the text.
#[verifier::external_body]
fn error_text(error: &serde_json::Error) -> String {
    error.to_string()
}

/// Why a response body was not accepted as statistics.
#[derive(Debug)]
pub struct DecodeError {
    /// What the decoder said.
    pub message: String,
}

impl Stats {
    /// The statistics that a decoded JSON object reports, in the order in
    /// which the object hands out its keys.
    pub fn from_object(object: &JsonObject) -> (stats: Stats)
        ensures
            entries_map(stats@) == object_stats(*object),
    {
        let names = object_names(object);
        let ghost reported = object_stats(*object);
        let mut entries: Vec<StatEntry> = Vec::new();
        let mut i: usize = 0;
        while i < names.len()
            invariant
                i <= names.len(),
                entries@.len() == i,
                reported == object_stats(*object),
                names_view(names@).no_duplicates(),
                names_view(names@).to_set() == reported.dom(),
                forall|j: int|
                    0 <= j < i ==> (#[trigger] entries@[j])@ == (
                        names@[j]@,
                        reported[names@[j]@],
                    ),
            decreases names.len() - i,
        {
            assert(names_view(names@)[i as int] == names@[i as int]@);
            assert(names_view(names@).to_set().contains(names@[i as int]@));
            let name = names[i].as_str();
            let value = match object_number(object, name) {
                Some(text) => StatValue::Number(text),
                None => match object_array_len(object, name) {
                    Some(len) => StatValue::Array(len),
                    None => StatValue::Other,
                },
            };
            entries.push(StatEntry { name: names[i].clone(), value });
            i += 1;
        }
        proof {
            let listed = entries@.map_values(|entry: StatEntry| entry@);
            assert forall|a: int, b: int|
                0 <= a < listed.len() && 0 <= b < listed.len() && a != b implies (
            #[trigger] listed[a]).0 != (#[trigger] listed[b]).0 by {
                assert(names_view(names@)[a] == listed[a].0);
                assert(names_view(names@)[b] == listed[b].0);
            }
            assert forall|name: Seq<char>| has_name(listed, name) <==> reported.dom().contains(
                name,
            ) by {
                if has_name(listed, name) {
                    let place = place_of(listed, name);
                    assert(names_view(names@)[place] == name);
                    assert(names_view(names@).to_set().contains(name));
                }
                if reported.dom().contains(name) {
                    assert(names_view(names@).to_set().contains(name));
                    let place = choose|place: int|
                        0 <= place < names_view(names@).len() && names_view(names@)[place] == name;
                    assert(listed[place].0 == name);
                }
            }
            assert forall|name: Seq<char>| has_name(listed, name) implies entries_map(
                listed,
            )[name] == reported[name] by {
                let place = place_of(listed, name);
                assert(listed[place].0 == name);
            }
            assert(entries_map(listed) =~= reported);
        }
        Stats { entries }
    }
}

/// Decodes a response body: the statistics it reports where it is the text
/// of a JSON object, an error where it is not.
pub fn decode_stats(body: &[u8]) -> (decoded: Result<Stats, DecodeError>)
    ensures
        match json_object(body@) {
            Some(reported) => decoded matches Ok(stats) && entries_map(stats@) == reported,
            None => decoded is Err,
        },
{
    match parse_object(body) {
        Ok(object) => Ok(Stats::from_object(&object)),
        Err(error) => Err(DecodeError { message: error_text(&error) }),
    }
}

} // verus!
