//! JSON values of the protocols that the host speaks.
//!
//! The values are trees of plain data. Turning text into such a tree and back is the business
//! of a JSON codec, which the functions of this crate that need one take as an argument.
use crate::text::{chars_of, same_text, text_result};
use vstd::prelude::*;
use vstd::string::*;

verus! {

/// A JSON number as a codec delivers it.
#[derive(Clone, Copy, Debug, PartialEq, Eq, Structural)]
pub enum JsonNumber {
    /// A non-negative integer.
    Unsigned(u64),
    /// An integer.
    Signed(i64),
    /// Any other number, by the bits of its IEEE 754 binary64 representation.
    Float(u64),
}

/// The mathematical content of a [`JsonValue`].
#[verifier::ext_equal]
pub enum Json {
    Null,
    Bool(bool),
    Number(JsonNumber),
    Text(Seq<char>),
    Array(Seq<Json>),
    Object(Map<Seq<char>, Json>),
}

/// A JSON value.
#[derive(Debug, PartialEq, Eq)]
pub enum JsonValue {
    Null,
    Bool(bool),
    Number(JsonNumber),
    String(String),
    Array(Vec<JsonValue>),
    Object(JsonObject),
}

/// The fields of a JSON object. The fields are kept in the order of their names, and no name
/// occurs twice, so that two objects with the same fields are equal.
#[derive(Debug, PartialEq, Eq)]
pub struct JsonObject {
    entries: Vec<(String, JsonValue)>,
}

// ---------------------------------------------------------------------------------------------
// Model
// ---------------------------------------------------------------------------------------------
impl JsonValue {
    /// The content of the value.
    pub open spec fn view(&self) -> Json
        decreases self,
    {
        match self {
            JsonValue::Null => Json::Null,
            JsonValue::Bool(b) => Json::Bool(*b),
            JsonValue::Number(n) => Json::Number(*n),
            JsonValue::String(s) => Json::Text(s@),
            JsonValue::Array(items) => Json::Array(values_view(items@)),
            JsonValue::Object(object) => Json::Object(object.view()),
        }
    }
}

impl JsonObject {
    /// The fields by their names.
    pub closed spec fn view(&self) -> Map<Seq<char>, Json>
        decreases self,
    {
        entries_view(self.entries@)
    }

    #[verifier::type_invariant]
    closed spec fn ordered(self) -> bool {
        sorted(self.entries@)
    }
}

/// The contents of a list of values.
pub open spec fn values_view(items: Seq<JsonValue>) -> Seq<Json>
    decreases items,
{
    Seq::new(
        items.len(),
        |i: int|
            if 0 <= i < items.len() {
                items[i].view()
            } else {
                Json::Null
            },
    )
}

/// The fields of a list of names and values; of two fields with one name the later one counts.
pub open spec fn entries_view(entries: Seq<(String, JsonValue)>) -> Map<Seq<char>, Json>
    decreases entries,
{
    if entries.len() == 0 {
        Map::empty()
    } else {
        entries_view(entries.drop_last()).insert(entries.last().0@, entries.last().1.view())
    }
}

/// The content of a value that may be absent.
pub open spec fn opt_json(value: Option<JsonValue>) -> Option<Json> {
    match value {
        Some(value) => Some(value@),
        None => None,
    }
}

/// The content of a borrowed value that may be absent.
pub open spec fn opt_json_ref(value: Option<&JsonValue>) -> Option<Json> {
    match value {
        Some(value) => Some(value@),
        None => None,
    }
}

impl Json {
    /// The field of an object; there is none in a value that is no object.
    pub open spec fn field(self, name: Seq<char>) -> Option<Json> {
        match self {
            Json::Object(fields) => if fields.contains_key(name) {
                Some(fields[name])
            } else {
                None
            },
            _ => None,
        }
    }
}

// ---------------------------------------------------------------------------------------------
// Codecs
// ---------------------------------------------------------------------------------------------
/// The content of a parsed JSON text.
pub open spec fn json_result(r: Result<JsonValue, String>) -> Result<Json, Seq<char>> {
    match r {
        Ok(value) => Ok(value@),
        Err(message) => Err(message@),
    }
}

/// Whether a closure computes the given function from JSON texts to JSON values.
pub open spec fn parses<P: Fn(&str) -> Result<JsonValue, String>>(
    parse: P,
    meaning: spec_fn(Seq<char>) -> Result<Json, Seq<char>>,
) -> bool {
    forall|text: &str, r: Result<JsonValue, String>|
        #[trigger] call_ensures(parse, (text,), r) ==> json_result(r) == meaning(text@)
}

/// Whether a closure computes the given function from JSON values to JSON texts.
pub open spec fn encodes<E: Fn(&JsonValue) -> Result<String, String>>(
    encode: E,
    meaning: spec_fn(Json) -> Result<Seq<char>, Seq<char>>,
) -> bool {
    forall|value: &JsonValue, r: Result<String, String>|
        #[trigger] call_ensures(encode, (value,), r) ==> text_result(r) == meaning(value@)
}

// ---------------------------------------------------------------------------------------------
// Order of the names
// ---------------------------------------------------------------------------------------------
/// The order of texts by their characters, first character first.
pub open spec fn text_before(a: Seq<char>, b: Seq<char>) -> bool
    decreases a.len(),
{
    if b.len() == 0 {
        false
    } else if a.len() == 0 {
        true
    } else if a[0] != b[0] {
        a[0] < b[0]
    } else {
        text_before(a.drop_first(), b.drop_first())
    }
}

/// Whether the names of the entries are in strictly ascending order.
pub open spec fn sorted(entries: Seq<(String, JsonValue)>) -> bool {
    forall|i: int, j: int|
        0 <= i < j < entries.len() ==> #[trigger] text_before(entries[i].0@, entries[j].0@)
}

proof fn lemma_before_irreflexive(a: Seq<char>)
    ensures
        !text_before(a, a),
    decreases a.len(),
{
    if a.len() > 0 {
        lemma_before_irreflexive(a.drop_first());
    }
}

proof fn lemma_before_transitive(a: Seq<char>, b: Seq<char>, c: Seq<char>)
    requires
        text_before(a, b),
        text_before(b, c),
    ensures
        text_before(a, c),
    decreases a.len(),
{
    if a.len() > 0 && b.len() > 0 && c.len() > 0 && a[0] == b[0] && b[0] == c[0] {
        lemma_before_transitive(a.drop_first(), b.drop_first(), c.drop_first());
    }
}

proof fn lemma_before_total(a: Seq<char>, b: Seq<char>)
    ensures
        a == b || text_before(a, b) || text_before(b, a),
    decreases a.len(),
{
    if a.len() > 0 && b.len() > 0 && a[0] == b[0] {
        lemma_before_total(a.drop_first(), b.drop_first());
        if a.drop_first() == b.drop_first() {
            assert(a =~= seq![a[0]] + a.drop_first());
            assert(b =~= seq![b[0]] + b.drop_first());
        }
    } else if a.len() == 0 && b.len() == 0 {
        assert(a =~= b);
    }
}

/// Whether one text comes before another one.
fn comes_before(a: &str, b: &str) -> (r: bool)
    ensures
        r == text_before(a@, b@),
{
    let left = chars_of(a);
    let right = chars_of(b);
    let mut i: usize = 0;
    proof {
        assert(a@.skip(0) =~= a@);
        assert(b@.skip(0) =~= b@);
    }
    while i < left.len() && i < right.len() && left[i] == right[i]
        invariant
            left@ == a@,
            right@ == b@,
            i <= a@.len(),
            i <= b@.len(),
            text_before(a@, b@) == text_before(a@.skip(i as int), b@.skip(i as int)),
        decreases a@.len() - i,
    {
        proof {
            assert(a@.skip(i as int).drop_first() =~= a@.skip(i + 1));
            assert(b@.skip(i as int).drop_first() =~= b@.skip(i + 1));
        }
        i = i + 1;
    }
    if i == right.len() {
        false
    } else if i == left.len() {
        true
    } else {
        smaller(left[i], right[i])
    }
}

/// Whether one character has a smaller code point than another one.
fn smaller(a: char, b: char) -> (r: bool)
    ensures
        r == (a < b),
{
    (a as u32) < (b as u32)
}

// ---------------------------------------------------------------------------------------------
// Looking up entries
// ---------------------------------------------------------------------------------------------
/// Whether an entry of that name exists.
spec fn named(entries: Seq<(String, JsonValue)>, name: Seq<char>) -> bool {
    exists|i: int| 0 <= i < entries.len() && #[trigger] entries[i].0@ == name
}

proof fn lemma_named(entries: Seq<(String, JsonValue)>, name: Seq<char>)
    ensures
        entries_view(entries).contains_key(name) <==> named(entries, name),
    decreases entries.len(),
{
    if entries.len() > 0 {
        let shorter = entries.drop_last();
        lemma_named(shorter, name);
        if named(shorter, name) {
            let i = choose|i: int| 0 <= i < shorter.len() && #[trigger] shorter[i].0@ == name;
            assert(entries[i].0@ == name);
        }
        if named(entries, name) && entries.last().0@ != name {
            let i = choose|i: int| 0 <= i < entries.len() && #[trigger] entries[i].0@ == name;
            assert(shorter[i].0@ == name);
        }
        if entries.last().0@ == name {
            assert(entries[entries.len() - 1].0@ == name);
        }
    }
}

proof fn lemma_entry(entries: Seq<(String, JsonValue)>, i: int)
    requires
        sorted(entries),
        0 <= i < entries.len(),
    ensures
        entries_view(entries).contains_key(entries[i].0@),
        entries_view(entries)[entries[i].0@] == entries[i].1@,
    decreases entries.len(),
{
    let last = entries.len() - 1;
    if i < last {
        let shorter = entries.drop_last();
        assert forall|a: int, b: int| 0 <= a < b < shorter.len() implies #[trigger] text_before(
            shorter[a].0@,
            shorter[b].0@,
        ) by {
            assert(text_before(entries[a].0@, entries[b].0@));
        }
        lemma_entry(shorter, i);
        assert(text_before(entries[i].0@, entries[last].0@));
        lemma_before_irreflexive(entries[i].0@);
    }
}

impl JsonObject {
    /// An object without fields.
    pub fn new() -> (r: Self)
        ensures
            r@ == Map::<Seq<char>, Json>::empty(),
    {
        JsonObject { entries: Vec::new() }
    }

    /// The fields in the order of their names.
    pub fn entries(&self) -> (r: &Vec<(String, JsonValue)>)
        ensures
            entries_view(r@) == self@,
            sorted(r@),
    {
        proof {
            use_type_invariant(self);
        }
        &self.entries
    }

    /// The place of the first entry whose name does not come before the given one.
    fn place(entries: &Vec<(String, JsonValue)>, name: &str) -> (r: usize)
        requires
            sorted(entries@),
        ensures
            r <= entries@.len(),
            forall|i: int| 0 <= i < r ==> text_before(#[trigger] entries@[i].0@, name@),
            r < entries@.len() ==> !text_before(entries@[r as int].0@, name@),
    {
        let mut i: usize = 0;
        while i < entries.len() && comes_before(entries[i].0.as_str(), name)
            invariant
                i <= entries@.len(),
                forall|j: int| 0 <= j < i ==> text_before(#[trigger] entries@[j].0@, name@),
            decreases entries@.len() - i,
        {
            i = i + 1;
        }
        i
    }

    /// The place of the entry of that name.
    fn find(entries: &Vec<(String, JsonValue)>, name: &str) -> (r: Option<usize>)
        requires
            sorted(entries@),
        ensures
            r is Some <==> entries_view(entries@).contains_key(name@),
            r matches Some(i) ==> i < entries@.len() && entries@[i as int].0@ == name@,
    {
        let at = Self::place(entries, name);
        proof {
            lemma_named(entries@, name@);
        }
        if at < entries.len() && same_text(entries[at].0.as_str(), name) {
            Some(at)
        } else {
            proof {
                if named(entries@, name@) {
                    let j = choose|j: int|
                        0 <= j < entries@.len() && #[trigger] entries@[j].0@ == name@;
                    lemma_before_irreflexive(name@);
                    if j > at {
                        assert(text_before(entries@[at as int].0@, entries@[j].0@));
                    }
                    assert(false);
                }
            }
            None
        }
    }

    /// The field of that name.
    pub fn get(&self, name: &str) -> (r: Option<&JsonValue>)
        ensures
            opt_json_ref(r) == Json::Object(self@).field(name@),
    {
        proof {
            use_type_invariant(self);
        }
        match Self::find(&self.entries, name) {
            Some(i) => {
                proof {
                    lemma_entry(self.entries@, i as int);
                }
                Some(&self.entries[i].1)
            },
            None => None,
        }
    }

    /// Sets the field of that name.
    pub fn insert(&mut self, name: String, value: JsonValue)
        ensures
            final(self)@ == old(self)@.insert(name@, value@),
    {
        proof {
            use_type_invariant(&*self);
        }
        let mut entries: Vec<(String, JsonValue)> = Vec::new();
        std::mem::swap(&mut entries, &mut self.entries);
        let ghost before = entries@;
        let at = Self::place(&entries, name.as_str());
        let ghost key = name@;
        let ghost content = value@;
        if at < entries.len() && same_text(entries[at].0.as_str(), name.as_str()) {
            entries.remove(at);
            entries.insert(at, (name, value));
            proof {
                let after = entries@;
                assert(after =~= before.update(at as int, (name, value)));
                assert forall|i: int, j: int|
                    0 <= i < j < after.len() implies #[trigger] text_before(
                    after[i].0@,
                    after[j].0@,
                ) by {
                    assert(text_before(before[i].0@, before[j].0@));
                }
                lemma_same_view(before, after, key, at as int);
            }
        } else {
            entries.insert(at, (name, value));
            proof {
                let after = entries@;
                assert(after =~= before.insert(at as int, (name, value)));
                assert forall|i: int| at <= i < before.len() implies text_before(
                    key,
                    #[trigger] before[i].0@,
                ) by {
                    lemma_before_total(key, before[at as int].0@);
                    if i > at {
                        assert(text_before(before[at as int].0@, before[i].0@));
                        lemma_before_transitive(key, before[at as int].0@, before[i].0@);
                    }
                }
                assert forall|i: int, j: int|
                    0 <= i < j < after.len() implies #[trigger] text_before(
                    after[i].0@,
                    after[j].0@,
                ) by {
                    let bi = if i < at { i } else { i - 1 };
                    let bj = if j < at { j } else { j - 1 };
                    if i != at && j != at {
                        assert(text_before(before[bi].0@, before[bj].0@));
                    } else if i == at {
                        assert(text_before(key, before[bj].0@));
                    } else {
                        assert(text_before(before[bi].0@, key));
                    }
                }
                lemma_same_view(before, after, key, at as int);
            }
        }
        self.entries = entries;
    }

    /// Removes the field of that name and hands its value out.
    pub fn remove(&mut self, name: &str) -> (r: Option<JsonValue>)
        ensures
            opt_json(r) == Json::Object(old(self)@).field(name@),
            final(self)@ == old(self)@.remove(name@),
    {
        proof {
            use_type_invariant(&*self);
        }
        let mut entries: Vec<(String, JsonValue)> = Vec::new();
        std::mem::swap(&mut entries, &mut self.entries);
        let ghost before = entries@;
        match Self::find(&entries, name) {
            Some(at) => {
                proof {
                    lemma_entry(before, at as int);
                }
                let entry = entries.remove(at);
                proof {
                    let after = entries@;
                    assert(after =~= before.remove(at as int));
                    assert forall|i: int, j: int|
                        0 <= i < j < after.len() implies #[trigger] text_before(
                        after[i].0@,
                        after[j].0@,
                    ) by {
                        let bi = if i < at { i } else { i + 1 };
                        let bj = if j < at { j } else { j + 1 };
                        assert(text_before(before[bi].0@, before[bj].0@));
                    }
                    lemma_removed_view(before, after, name@, at as int);
                }
                self.entries = entries;
                Some(entry.1)
            },
            None => {
                assert(entries_view(before).remove(name@) =~= entries_view(before));
                self.entries = entries;
                None
            },
        }
    }
}

impl JsonValue {
    /// The field of that name; there is none in a value that is no object.
    pub fn get(&self, name: &str) -> (r: Option<&JsonValue>)
        ensures
            opt_json_ref(r) == self@.field(name@),
    {
        match self {
            JsonValue::Object(object) => object.get(name),
            _ => None,
        }
    }

    /// A JSON string with the given text.
    pub fn text(s: &str) -> (r: JsonValue)
        ensures
            r@ == Json::Text(s@),
    {
        JsonValue::String(s.to_owned())
    }
}

/// An object without fields.
pub fn empty_object() -> (r: JsonValue)
    ensures
        r@ == Json::Object(Map::empty()),
{
    JsonValue::Object(JsonObject::new())
}

/// The names and contents of a list of entries.
pub open spec fn entry_contents(entries: Seq<(String, JsonValue)>) -> Seq<(Seq<char>, Json)> {
    entries.map_values(|entry: (String, JsonValue)| (entry.0@, entry.1@))
}

/// Objects have one representation: two ordered lists of entries with the same fields hold the
/// same names and values in the same places.
pub proof fn ordered_entries_are_canonical(
    a: Seq<(String, JsonValue)>,
    b: Seq<(String, JsonValue)>,
)
    requires
        sorted(a),
        sorted(b),
        entries_view(a) == entries_view(b),
    ensures
        entry_contents(a) == entry_contents(b),
    decreases a.len() + b.len(),
{
    if a.len() == 0 {
        if b.len() > 0 {
            lemma_entry(b, 0);
        }
    } else if b.len() == 0 {
        lemma_entry(a, 0);
    } else {
        let la = a.len() - 1;
        let lb = b.len() - 1;
        let ka = a[la].0@;
        let kb = b[lb].0@;
        lemma_entry(a, la);
        lemma_entry(b, lb);
        // The last name of each list is named in the other one too, so neither comes before
        // the other.
        lemma_named(b, ka);
        lemma_named(a, kb);
        let j = choose|j: int| 0 <= j < b.len() && #[trigger] b[j].0@ == ka;
        let i = choose|i: int| 0 <= i < a.len() && #[trigger] a[i].0@ == kb;
        if ka != kb {
            assert(text_before(b[j].0@, b[lb].0@));
            assert(text_before(a[i].0@, a[la].0@));
            lemma_before_transitive(ka, kb, ka);
            lemma_before_irreflexive(ka);
        }
        let sa = a.drop_last();
        let sb = b.drop_last();
        assert(a.remove(la) =~= sa);
        assert(b.remove(lb) =~= sb);
        assert forall|m: int, n: int| 0 <= m < n < sa.len() implies #[trigger] text_before(
            sa[m].0@,
            sa[n].0@,
        ) by {
            assert(text_before(a[m].0@, a[n].0@));
        }
        assert forall|m: int, n: int| 0 <= m < n < sb.len() implies #[trigger] text_before(
            sb[m].0@,
            sb[n].0@,
        ) by {
            assert(text_before(b[m].0@, b[n].0@));
        }
        lemma_removed_view(a, sa, ka, la);
        lemma_removed_view(b, sb, ka, lb);
        ordered_entries_are_canonical(sa, sb);
        assert(entry_contents(a) =~= entry_contents(sa).push((ka, a[la].1@)));
        assert(entry_contents(b) =~= entry_contents(sb).push((ka, b[lb].1@)));
    }
}

/// Putting an entry among others, or over the one of the same name, sets its field.
proof fn lemma_same_view(
    before: Seq<(String, JsonValue)>,
    after: Seq<(String, JsonValue)>,
    key: Seq<char>,
    at: int,
)
    requires
        sorted(before),
        sorted(after),
        0 <= at < after.len(),
        after[at].0@ == key,
        (at < before.len() && before[at].0@ == key && after == before.update(at, after[at])) || (at
            <= before.len() && after == before.insert(at, after[at])),
    ensures
        entries_view(after) == entries_view(before).insert(key, after[at].1@),
{
    let left = entries_view(after);
    let right = entries_view(before).insert(key, after[at].1@);
    lemma_entry(after, at);
    assert forall|name: Seq<char>| #[trigger]
        left.contains_key(name) == right.contains_key(name) && (left.contains_key(name)
            ==> left[name] == right[name]) by {
        lemma_named(after, name);
        lemma_named(before, name);
        if name != key {
            if named(before, name) {
                let i = choose|i: int| 0 <= i < before.len() && #[trigger] before[i].0@ == name;
                lemma_entry(before, i);
                let j = if after.len() == before.len() || i < at { i } else { i + 1 };
                assert(after[j] == before[i]);
                lemma_entry(after, j);
            }
            if named(after, name) {
                let i = choose|i: int| 0 <= i < after.len() && #[trigger] after[i].0@ == name;
                let j = if after.len() == before.len() || i < at { i } else { i - 1 };
                assert(before[j] == after[i]);
                lemma_entry(after, i);
                lemma_entry(before, j);
            }
        }
    }
    assert(left =~= right);
}

/// Taking the entry of a name away removes its field.
proof fn lemma_removed_view(
    before: Seq<(String, JsonValue)>,
    after: Seq<(String, JsonValue)>,
    key: Seq<char>,
    at: int,
)
    requires
        sorted(before),
        sorted(after),
        0 <= at < before.len(),
        before[at].0@ == key,
        after == before.remove(at),
    ensures
        entries_view(after) == entries_view(before).remove(key),
{
    let left = entries_view(after);
    let right = entries_view(before).remove(key);
    assert forall|name: Seq<char>| #[trigger]
        left.contains_key(name) == right.contains_key(name) && (left.contains_key(name)
            ==> left[name] == right[name]) by {
        lemma_named(after, name);
        lemma_named(before, name);
        if named(after, name) {
            let i = choose|i: int| 0 <= i < after.len() && #[trigger] after[i].0@ == name;
            let j = if i < at { i } else { i + 1 };
            assert(before[j] == after[i]);
            lemma_entry(after, i);
            lemma_entry(before, j);
            lemma_before_irreflexive(key);
            if j < at {
                assert(text_before(before[j].0@, before[at].0@));
            } else {
                assert(text_before(before[at].0@, before[j].0@));
            }
            assert(name != key);
        }
        if named(before, name) && name != key {
            let i = choose|i: int| 0 <= i < before.len() && #[trigger] before[i].0@ == name;
            let j = if i < at { i } else { i - 1 };
            assert(after[j] == before[i]);
            assert(named(after, name));
        }
    }
    assert(left =~= right);
}

// ---------------------------------------------------------------------------------------------
// Copies
// ---------------------------------------------------------------------------------------------
impl Clone for JsonValue {
    fn clone(&self) -> (r: Self)
        ensures
            r@ == self@,
        decreases self,
    {
        match self {
            JsonValue::Null => JsonValue::Null,
            JsonValue::Bool(b) => JsonValue::Bool(*b),
            JsonValue::Number(n) => JsonValue::Number(*n),
            JsonValue::String(s) => JsonValue::String(s.clone()),
            JsonValue::Array(items) => JsonValue::Array(copy_values(items)),
            JsonValue::Object(object) => JsonValue::Object(object.clone()),
        }
    }
}

impl Clone for JsonObject {
    fn clone(&self) -> (r: Self)
        ensures
            r@ == self@,
        decreases self,
    {
        let mut entries: Vec<(String, JsonValue)> = Vec::new();
        let mut i: usize = 0;
        while i < self.entries.len()
            invariant
                i <= self.entries@.len(),
                entries@.len() == i,
                forall|j: int| 0 <= j < i ==> (#[trigger] entries@[j]).0@ == self.entries@[j].0@,
                forall|j: int| 0 <= j < i ==> (#[trigger] entries@[j]).1@ == self.entries@[j].1@,
            decreases self.entries@.len() - i,
        {
            entries.push((self.entries[i].0.clone(), self.entries[i].1.clone()));
            i = i + 1;
        }
        proof {
            use_type_invariant(self);
            lemma_copied_entries(self.entries@, entries@);
        }
        JsonObject { entries }
    }
}

/// Copies a list of values.
pub fn copy_values(items: &Vec<JsonValue>) -> (r: Vec<JsonValue>)
    ensures
        values_view(r@) == values_view(items@),
    decreases items,
{
    let mut out: Vec<JsonValue> = Vec::new();
    let mut i: usize = 0;
    while i < items.len()
        invariant
            i <= items@.len(),
            out@.len() == i,
            forall|j: int| 0 <= j < i ==> (#[trigger] out@[j])@ == items@[j]@,
        decreases items@.len() - i,
    {
        out.push(items[i].clone());
        i = i + 1;
    }
    assert(values_view(out@) =~= values_view(items@));
    out
}

proof fn lemma_copied_entries(a: Seq<(String, JsonValue)>, b: Seq<(String, JsonValue)>)
    requires
        a.len() == b.len(),
        sorted(a),
        forall|j: int| 0 <= j < b.len() ==> (#[trigger] b[j]).0@ == a[j].0@,
        forall|j: int| 0 <= j < b.len() ==> (#[trigger] b[j]).1@ == a[j].1@,
    ensures
        entries_view(a) == entries_view(b),
        sorted(b),
    decreases a.len(),
{
    assert forall|i: int, j: int| 0 <= i < j < b.len() implies #[trigger] text_before(
        b[i].0@,
        b[j].0@,
    ) by {
        assert(text_before(a[i].0@, a[j].0@));
    }
    if a.len() > 0 {
        let sa = a.drop_last();
        let sb = b.drop_last();
        assert forall|i: int, j: int| 0 <= i < j < sa.len() implies #[trigger] text_before(
            sa[i].0@,
            sa[j].0@,
        ) by {
            assert(text_before(a[i].0@, a[j].0@));
        }
        assert forall|j: int| 0 <= j < sb.len() implies (#[trigger] sb[j]).0@ == sa[j].0@
            && sb[j].1@ == sa[j].1@ by {
            assert(b[j].0@ == a[j].0@);
        }
        lemma_copied_entries(sa, sb);
        assert(b[b.len() - 1].0@ == a[a.len() - 1].0@);
    }
}

/// A field that is set is found with its value, whatever the value is, and one that is removed is
/// not found; all other fields stay as they are. A value that is no object has no fields.
pub proof fn fields_are_found_as_they_are_set(
    fields: Map<Seq<char>, Json>,
    name: Seq<char>,
    value: Json,
    other: Seq<char>,
)
    ensures
        Json::Object(fields.insert(name, value)).field(name) == Some(value),
        Json::Object(fields.remove(name)).field(name) is None,
        other != name ==> Json::Object(fields.insert(name, value)).field(other) == Json::Object(
            fields,
        ).field(other),
        other != name ==> Json::Object(fields.remove(name)).field(other) == Json::Object(
            fields,
        ).field(other),
        Json::Object(Map::empty()).field(name) is None,
        !(value is Object) ==> value.field(name) is None,
{
}

}
