//! JSON values as the logic reads them: what a parser hands over, with a
//! number kept as the text it prints as and an object as its entries in order.
use vstd::prelude::*;

use crate::text::{chars_of, eq_str, slice_vec, string_from_str, string_of, string_views, trim_char, trim_matches_char, views};

verus! {

/// A JSON value.
pub enum JsonValue {
    Null,
    Bool(bool),
    /// A number: the text it prints as, and its value when it is a
    /// non-negative integer that fits in 64 bits.
    Number(String, Option<u64>),
    Str(String),
    Array(Vec<JsonValue>),
    /// An object's entries, in order.
    Object(Vec<(String, JsonValue)>),
}

/// The value of the first entry named `key`.
pub open spec fn lookup(entries: Seq<(String, JsonValue)>, key: Seq<char>) -> Option<JsonValue>
    decreases entries.len(),
{
    if entries.len() == 0 {
        None
    } else if entries[0].0@ == key {
        Some(entries[0].1)
    } else {
        lookup(entries.drop_first(), key)
    }
}

/// The value of the first entry named by the first key that occurs.
pub open spec fn lookup_first(entries: Seq<(String, JsonValue)>, keys: Seq<Seq<char>>) -> Option<JsonValue>
    decreases keys.len(),
{
    if keys.len() == 0 {
        None
    } else {
        match lookup(entries, keys[0]) {
            Some(v) => Some(v),
            None => lookup_first(entries, keys.drop_first()),
        }
    }
}

/// The texts of the string items, in order (other items are skipped).
pub open spec fn str_items(items: Seq<JsonValue>) -> Seq<Seq<char>>
    decreases items.len(),
{
    if items.len() == 0 {
        Seq::empty()
    } else {
        str_items(items.drop_last()) + match items.last() {
            JsonValue::Str(s) => seq![s@],
            _ => Seq::empty(),
        }
    }
}

/// The position of the first entry named `key` (`Map::get`).
pub fn find_key(entries: &Vec<(String, JsonValue)>, key: &str) -> (r: Option<usize>)
    ensures
        match r {
            Some(i) => i < entries@.len() && entries@[i as int].0@ == key@ && lookup(entries@, key@) == Some(
                entries@[i as int].1,
            ),
            None => lookup(entries@, key@) is None,
        },
{
    let mut k: usize = 0;
    proof {
        assert(entries@.skip(0) =~= entries@);
    }
    while k < entries.len()
        invariant
            k <= entries@.len(),
            lookup(entries@, key@) == lookup(entries@.skip(k as int), key@),
        decreases entries@.len() - k,
    {
        proof {
            assert(entries@.skip(k as int).drop_first() =~= entries@.skip(k + 1));
        }
        if crate::text::eq_str(&crate::text::chars_of(entries[k].0.as_str()), key) {
            return Some(k);
        }
        k = k + 1;
    }
    None
}

proof fn lemma_lookup_remove_other(m: Seq<(String, JsonValue)>, i: int, k: Seq<char>)
    requires
        0 <= i < m.len(),
        m[i].0@ != k,
    ensures
        lookup(m.remove(i), k) == lookup(m, k),
    decreases i,
{
    if i == 0 {
        assert(m.remove(0) =~= m.drop_first());
    } else {
        assert(m.remove(i)[0] == m[0]);
        assert(m.remove(i).drop_first() =~= m.drop_first().remove(i - 1));
        lemma_lookup_remove_other(m.drop_first(), i - 1, k);
    }
}

/// Takes the value of the first entry named `key` out of an object; the
/// other keys look up as before.
pub fn take_entry(m: &mut Vec<(String, JsonValue)>, key: &str) -> (r: Option<JsonValue>)
    ensures
        r == lookup(old(m)@, key@),
        forall|k: Seq<char>| k != key@ ==> #[trigger] lookup(final(m)@, k) == lookup(old(m)@, k),
{
    match find_key(m, key) {
        Some(i) => {
            let ghost m0 = m@;
            let e = m.remove(i);
            proof {
                assert forall|k: Seq<char>| k != key@ implies #[trigger] lookup(m@, k) == lookup(m0, k) by {
                    lemma_lookup_remove_other(m0, i as int, k);
                }
            }
            Some(e.1)
        },
        None => None,
    }
}

/// The position of the first entry named by the first of `keys` that occurs.
pub fn find_first_key(entries: &Vec<(String, JsonValue)>, keys: &Vec<&str>) -> (r: Option<usize>)
    ensures
        match r {
            Some(i) => i < entries@.len() && lookup_first(entries@, keys@.map_values(|k: &str| k@)) == Some(
                entries@[i as int].1,
            ),
            None => lookup_first(entries@, keys@.map_values(|k: &str| k@)) is None,
        },
{
    let ghost kv = keys@.map_values(|k: &str| k@);
    let mut j: usize = 0;
    proof {
        assert(kv.skip(0) =~= kv);
    }
    while j < keys.len()
        invariant
            j <= keys@.len(),
            kv == keys@.map_values(|k: &str| k@),
            lookup_first(entries@, kv) == lookup_first(entries@, kv.skip(j as int)),
        decreases keys@.len() - j,
    {
        proof {
            assert(kv.skip(j as int).drop_first() =~= kv.skip(j + 1));
            assert(kv.skip(j as int)[0] == keys@[j as int]@);
        }
        match find_key(entries, keys[j]) {
            Some(i) => return Some(i),
            None => {},
        }
        j = j + 1;
    }
    None
}

/// The texts of the string items of an array, in order.
pub fn string_items(items: &Vec<JsonValue>) -> (r: Vec<String>)
    ensures
        string_views(r@) == str_items(items@),
{
    let mut out: Vec<String> = Vec::new();
    let mut k: usize = 0;
    while k < items.len()
        invariant
            k <= items@.len(),
            string_views(out@) == str_items(items@.take(k as int)),
        decreases items@.len() - k,
    {
        proof {
            assert(items@.take(k + 1).drop_last() =~= items@.take(k as int));
        }
        match &items[k] {
            JsonValue::Str(s) => {
                let ghost o = out@;
                out.push(string_from_str(s.as_str()));
                proof {
                    assert(string_views(out@) =~= string_views(o).push(s@));
                }
            },
            _ => {},
        }
        k = k + 1;
    }
    proof {
        assert(items@.take(items@.len() as int) =~= items@);
    }
    out
}

/// Each string as its characters.
pub fn to_char_vecs(v: &Vec<String>) -> (r: Vec<Vec<char>>)
    ensures
        views(r@) == string_views(v@),
{
    let mut out: Vec<Vec<char>> = Vec::new();
    let mut k: usize = 0;
    while k < v.len()
        invariant
            k <= v@.len(),
            views(out@) == string_views(v@.take(k as int)),
        decreases v@.len() - k,
    {
        let ghost o = out@;
        out.push(chars_of(v[k].as_str()));
        k = k + 1;
        proof {
            assert(views(out@) =~= views(o).push(v@[k - 1]@));
            assert(string_views(v@.take(k as int)) =~= string_views(v@.take(k - 1)).push(v@[k - 1]@));
        }
    }
    proof {
        assert(v@.take(v@.len() as int) =~= v@);
    }
    out
}

/// The value a JSON reference points to, if any.
pub open spec fn deref_json(v: Option<&JsonValue>) -> Option<JsonValue> {
    match v {
        Some(x) => Some(*x),
        None => None,
    }
}

/// The entry `key` of a value that is an object (`Value::get`).
pub open spec fn field(v: JsonValue, key: Seq<char>) -> Option<JsonValue> {
    match v {
        JsonValue::Object(m) => lookup(m@, key),
        _ => None,
    }
}

/// The text of the entry `key` of an object, when it is a string.
pub open spec fn field_text(v: JsonValue, key: Seq<char>) -> Option<Seq<char>> {
    match field(v, key) {
        Some(JsonValue::Str(s)) => Some(s@),
        _ => None,
    }
}

/// The entry `key` of a value that is an object.
pub fn get_field<'a>(v: &'a JsonValue, key: &str) -> (r: Option<&'a JsonValue>)
    ensures
        deref_json(r) == field(*v, key@),
{
    match v {
        JsonValue::Object(m) => match find_key(m, key) {
            Some(i) => Some(&m[i].1),
            None => None,
        },
        _ => None,
    }
}

/// The text of the entry `key` of an object, when it is a string.
pub fn get_text(v: &JsonValue, key: &str) -> (r: Option<String>)
    ensures
        crate::text::opt_view(r) == field_text(*v, key@),
{
    match get_field(v, key) {
        Some(JsonValue::Str(s)) => Some(string_from_str(s.as_str())),
        _ => None,
    }
}

/// The entries without those named `key`.
pub open spec fn without_key(entries: Seq<(String, JsonValue)>, key: Seq<char>) -> Seq<(String, JsonValue)>
    decreases entries.len(),
{
    if entries.len() == 0 {
        entries
    } else if entries[0].0@ == key {
        without_key(entries.drop_first(), key)
    } else {
        seq![entries[0]] + without_key(entries.drop_first(), key)
    }
}

/// Whether `v` is the JSON string `t`.
pub open spec fn is_text(v: Option<JsonValue>, t: Seq<char>) -> bool {
    v matches Some(JsonValue::Str(x)) && x@ == t
}

/// Whether the object `after` is `before` with `key` set to the string `t`:
/// looking up `key` gives `t`, and every other key gives what it gave.
pub open spec fn sets_text(
    after: Seq<(String, JsonValue)>,
    before: Seq<(String, JsonValue)>,
    key: Seq<char>,
    t: Seq<char>,
) -> bool {
    &&& is_text(lookup(after, key), t)
    &&& forall|j: Seq<char>| j != key ==> #[trigger] lookup(after, j) == lookup(before, j)
}

proof fn lemma_lookup_without(entries: Seq<(String, JsonValue)>, key: Seq<char>, j: Seq<char>)
    ensures
        lookup(without_key(entries, key), j) == if j == key {
            None
        } else {
            lookup(entries, j)
        },
    decreases entries.len(),
{
    if entries.len() > 0 {
        lemma_lookup_without(entries.drop_first(), key, j);
        if entries[0].0@ != key {
            let w = without_key(entries.drop_first(), key);
            assert((seq![entries[0]] + w).drop_first() =~= w);
            assert((seq![entries[0]] + w)[0] == entries[0]);
        }
    }
}

proof fn lemma_lookup_push(entries: Seq<(String, JsonValue)>, p: (String, JsonValue), j: Seq<char>)
    ensures
        lookup(entries.push(p), j) == match lookup(entries, j) {
            Some(v) => Some(v),
            None => if p.0@ == j {
                Some(p.1)
            } else {
                None
            },
        },
    decreases entries.len(),
{
    if entries.len() == 0 {
        assert(entries.push(p).drop_first() =~= Seq::<(String, JsonValue)>::empty());
        assert(entries.push(p)[0] == p);
        assert(lookup(Seq::<(String, JsonValue)>::empty(), j) is None);
    } else {
        assert(entries.push(p).drop_first() =~= entries.drop_first().push(p));
        assert(entries.push(p)[0] == entries[0]);
        lemma_lookup_push(entries.drop_first(), p, j);
    }
}

/// The entries without those named `key` (`Map::remove`).
pub fn remove_key(entries: Vec<(String, JsonValue)>, key: &str) -> (r: Vec<(String, JsonValue)>)
    ensures
        r@ == without_key(entries@, key@),
{
    let ghost e0 = entries@;
    let mut src = entries;
    let mut out: Vec<(String, JsonValue)> = Vec::new();
    while src.len() > 0
        invariant
            without_key(e0, key@) == out@ + without_key(src@, key@),
        decreases src@.len(),
    {
        let ghost before = src@;
        let e = src.remove(0);
        proof {
            assert(before.drop_first() =~= src@);
        }
        if !eq_str(&chars_of(e.0.as_str()), key) {
            let ghost o = out@;
            out.push(e);
            proof {
                assert(o + (seq![before[0]] + without_key(src@, key@)) =~= out@ + without_key(src@, key@));
            }
        }
    }
    proof {
        assert(out@ + without_key(src@, key@) =~= out@);
    }
    out
}

/// Whether the object `after` is `before` with `key` set to `v`: looking
/// up `key` gives `v`, and every other key gives what it gave.
pub open spec fn sets_entry(
    after: Seq<(String, JsonValue)>,
    before: Seq<(String, JsonValue)>,
    key: Seq<char>,
    v: JsonValue,
) -> bool {
    &&& lookup(after, key) == Some(v)
    &&& forall|j: Seq<char>| j != key ==> #[trigger] lookup(after, j) == lookup(before, j)
}

/// The object with `key` set to `value` (`Map::insert`).
pub fn set_entry(entries: Vec<(String, JsonValue)>, key: &str, value: JsonValue) -> (r: Vec<(String, JsonValue)>)
    ensures
        sets_entry(r@, entries@, key@, value),
{
    let ghost e0 = entries@;
    let mut out = remove_key(entries, key);
    let ghost w = out@;
    let p = (string_from_str(key), value);
    out.push(p);
    proof {
        lemma_lookup_without(e0, key@, key@);
        lemma_lookup_push(w, p, key@);
        assert forall|j: Seq<char>| j != key@ implies #[trigger] lookup(out@, j) == lookup(e0, j) by {
            lemma_lookup_without(e0, key@, j);
            lemma_lookup_push(w, p, j);
        }
    }
    out
}

/// The object with `key` set to the string `text` (`Map::insert`).
pub fn set_text(entries: Vec<(String, JsonValue)>, key: &str, text: String) -> (r: Vec<(String, JsonValue)>)
    ensures
        sets_text(r@, entries@, key@, text@),
{
    set_entry(entries, key, JsonValue::Str(text))
}

/// The text after the first `:`, if there is one (`str::split_once(':')`).
pub open spec fn after_colon(s: Seq<char>) -> Option<Seq<char>>
    decreases s.len(),
{
    if s.len() == 0 {
        None
    } else if s[0] == ':' {
        Some(s.drop_first())
    } else {
        after_colon(s.drop_first())
    }
}

/// An id without surrounding backticks and angle brackets.
pub open spec fn strip_id_marks(t: Seq<char>) -> Seq<char> {
    trim_char(trim_char(trim_char(t, '`'), '⟨'), '⟩')
}

/// The text after the first `:` of `s`.
fn after_first_colon(s: &Vec<char>) -> (r: Option<Vec<char>>)
    ensures
        match r {
            Some(t) => after_colon(s@) == Some(t@),
            None => after_colon(s@) is None,
        },
{
    let mut i: usize = 0;
    proof {
        assert(s@.skip(0) =~= s@);
    }
    while i < s.len()
        invariant
            i <= s@.len(),
            after_colon(s@) == after_colon(s@.skip(i as int)),
        decreases s@.len() - i,
    {
        proof {
            assert(s@.skip(i as int).drop_first() =~= s@.skip(i + 1));
            assert(s@.skip(i as int)[0] == s@[i as int]);
        }
        if s[i] == ':' {
            return Some(slice_vec(s, i + 1, s.len()));
        }
        i = i + 1;
    }
    None
}

/// `t` without surrounding backticks and angle brackets.
fn strip_marks(t: &Vec<char>) -> (r: String)
    ensures
        r@ == strip_id_marks(t@),
{
    let a = trim_matches_char(t, '`');
    let b = trim_matches_char(&a, '⟨');
    let c = trim_matches_char(&b, '⟩');
    string_of(&c)
}

/// What normalizing a stored object's id does. A non-object is left as it
/// is. An `id_string` entry is removed; when it is a string, its text
/// after the first `:` (or all of it) without backticks and angle brackets
/// becomes the `id`. Otherwise a string `id` with a `:` becomes its text
/// after the first `:` so stripped, and an object `id` whose own `id` is a
/// string becomes that string so stripped; any other object is left as it is.
pub open spec fn normalized_id(before: JsonValue, after: JsonValue) -> bool {
    match before {
        JsonValue::Object(m) => match after {
            JsonValue::Object(n) => match lookup(m@, "id_string"@) {
                Some(JsonValue::Str(s)) => sets_text(
                    n@,
                    without_key(m@, "id_string"@),
                    "id"@,
                    strip_id_marks(
                        match after_colon(s@) {
                            Some(raw) => raw,
                            None => s@,
                        },
                    ),
                ),
                Some(_) => n@ == without_key(m@, "id_string"@),
                None => match lookup(m@, "id"@) {
                    Some(JsonValue::Str(s)) => match after_colon(s@) {
                        Some(raw) => sets_text(n@, m@, "id"@, strip_id_marks(raw)),
                        None => n@ == m@,
                    },
                    Some(JsonValue::Object(inner)) => match lookup(inner@, "id"@) {
                        Some(JsonValue::Str(raw)) => sets_text(n@, m@, "id"@, strip_id_marks(raw@)),
                        _ => n@ == m@,
                    },
                    _ => n@ == m@,
                },
            },
            _ => false,
        },
        _ => after == before,
    }
}

/// The stored object with its id normalized.
pub fn normalized_object(value: JsonValue) -> (r: JsonValue)
    ensures
        normalized_id(value, r),
{
    let m = match value {
        JsonValue::Object(m) => m,
        other => return other,
    };
    match find_key(&m, "id_string") {
        Some(i) => {
            let text = match &m[i].1 {
                JsonValue::Str(s) => {
                    let cs = chars_of(s.as_str());
                    match after_first_colon(&cs) {
                        Some(raw) => Some(strip_marks(&raw)),
                        None => Some(strip_marks(&cs)),
                    }
                },
                _ => None,
            };
            let rest = remove_key(m, "id_string");
            match text {
                Some(t) => JsonValue::Object(set_text(rest, "id", t)),
                None => JsonValue::Object(rest),
            }
        },
        None => {
            let text = match find_key(&m, "id") {
                Some(i) => match &m[i].1 {
                    JsonValue::Str(s) => {
                        let cs = chars_of(s.as_str());
                        match after_first_colon(&cs) {
                            Some(raw) => Some(strip_marks(&raw)),
                            None => None,
                        }
                    },
                    JsonValue::Object(inner) => match find_key(inner, "id") {
                        Some(j) => match &inner[j].1 {
                            JsonValue::Str(raw) => Some(strip_marks(&chars_of(raw.as_str()))),
                            _ => None,
                        },
                        None => None,
                    },
                    _ => None,
                },
                None => None,
            };
            match text {
                Some(t) => JsonValue::Object(set_text(m, "id", t)),
                None => JsonValue::Object(m),
            }
        },
    }
}

/// Normalizes a stored object's id in place.
pub fn normalize_object_id(value: &mut JsonValue)
    ensures
        normalized_id(*old(value), *final(value)),
{
    let mut taken = JsonValue::Null;
    std::mem::swap(&mut taken, value);
    *value = normalized_object(taken);
}

/// Normalizes the ids of stored objects, each in place.
pub fn normalize_object_ids(values: &mut Vec<JsonValue>)
    ensures
        final(values)@.len() == old(values)@.len(),
        forall|i: int| 0 <= i < old(values)@.len() ==> normalized_id(#[trigger] old(values)@[i], final(values)@[i]),
{
    let ghost v0 = values@;
    let mut i: usize = 0;
    while i < values.len()
        invariant
            i <= values@.len(),
            values@.len() == v0.len(),
            forall|j: int| 0 <= j < i ==> normalized_id(#[trigger] v0[j], values@[j]),
            forall|j: int| i <= j < v0.len() ==> #[trigger] values@[j] == v0[j],
        decreases values@.len() - i,
    {
        let mut taken = JsonValue::Null;
        std::mem::swap(&mut taken, &mut values[i]);
        let n = normalized_object(taken);
        values.set(i, n);
        i = i + 1;
    }
}

} // verus!
