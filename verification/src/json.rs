use vstd::prelude::*;

verus! {

/// Mathematical model of a JSON document: the view of [`JsonValue`].
///
/// Numbers are split into those representable as `i64` (the only numbers the
/// wire formats use) and a marker for everything else (fractional or
/// out-of-range numbers), which every decoder treats as a shape mismatch.
#[verifier::ext_equal]
pub enum JVal {
    Null,
    Bool(bool),
    Int(int),
    OtherNumber,
    Str(Seq<char>),
    Arr(Seq<JVal>),
    Obj(Seq<(Seq<char>, JVal)>),
}

/// A JSON document held as plain values, so that decoding logic over it can
/// be verified. Object members keep the order the parser produced, and a
/// number that does not fit an `i64` is only remembered as [`JsonValue::OtherNumber`].
#[derive(Debug)]
pub enum JsonValue {
    Null,
    Bool(bool),
    Int(i64),
    OtherNumber,
    Str(String),
    Arr(Vec<JsonValue>),
    Obj(Vec<(String, JsonValue)>),
}

impl View for JsonValue {
    type V = JVal;

    open spec fn view(&self) -> JVal {
        jval_of(*self)
    }
}

/// The model of a [`JsonValue`], member by member and element by element.
pub open spec fn jval_of(v: JsonValue) -> JVal
    decreases v,
{
    match v {
        JsonValue::Null => JVal::Null,
        JsonValue::Bool(b) => JVal::Bool(b),
        JsonValue::Int(i) => JVal::Int(i as int),
        JsonValue::OtherNumber => JVal::OtherNumber,
        JsonValue::Str(s) => JVal::Str(s@),
        JsonValue::Arr(items) => JVal::Arr(jvals_of(items@)),
        JsonValue::Obj(members) => JVal::Obj(jmembers_of(members@)),
    }
}

/// The models of a sequence of JSON values, element by element.
pub open spec fn jvals_of(s: Seq<JsonValue>) -> Seq<JVal>
    decreases s,
{
    if s.len() == 0 {
        Seq::empty()
    } else {
        jvals_of(s.subrange(0, s.len() - 1)).push(jval_of(s[s.len() - 1]))
    }
}

/// The models of a sequence of JSON object members, element by element.
pub open spec fn jmembers_of(s: Seq<(String, JsonValue)>) -> Seq<(Seq<char>, JVal)>
    decreases s,
{
    if s.len() == 0 {
        Seq::empty()
    } else {
        jmembers_of(s.subrange(0, s.len() - 1)).push(
            (s[s.len() - 1].0@, jval_of(s[s.len() - 1].1)),
        )
    }
}

/// `jvals_of` maps the model over the sequence: same length, element `i` is
/// the model of element `i`.
pub proof fn lemma_jvals_of_index(s: Seq<JsonValue>)
    ensures
        jvals_of(s).len() == s.len(),
        forall|i: int| 0 <= i < s.len() ==> jvals_of(s)[i] == jval_of(s[i]),
    decreases s.len(),
{
    if s.len() > 0 {
        lemma_jvals_of_index(s.subrange(0, s.len() - 1));
    }
}

/// `jmembers_of` maps the model over the members: same length, member `i`
/// keeps its key and carries the model of its value.
pub proof fn lemma_jmembers_of_index(s: Seq<(String, JsonValue)>)
    ensures
        jmembers_of(s).len() == s.len(),
        forall|i: int| 0 <= i < s.len() ==> jmembers_of(s)[i] == (s[i].0@, jval_of(s[i].1)),
    decreases s.len(),
{
    if s.len() > 0 {
        lemma_jmembers_of_index(s.subrange(0, s.len() - 1));
    }
}

/// The value of the first member of `members` whose key is `key`, if any.
pub open spec fn jlookup(members: Seq<(Seq<char>, JVal)>, key: Seq<char>) -> Option<JVal>
    decreases members.len(),
{
    if members.len() == 0 {
        None
    } else if members[0].0 == key {
        Some(members[0].1)
    } else {
        jlookup(members.subrange(1, members.len() as int), key)
    }
}

/// If member `i` is the first one keyed `key`, the lookup returns its value.
pub proof fn lemma_jlookup_at(members: Seq<(Seq<char>, JVal)>, key: Seq<char>, i: int)
    requires
        0 <= i < members.len(),
        members[i].0 == key,
        forall|j: int| 0 <= j < i ==> members[j].0 != key,
    ensures
        jlookup(members, key) == Some(members[i].1),
    decreases i,
{
    if i > 0 {
        lemma_jlookup_at(members.subrange(1, members.len() as int), key, i - 1);
    }
}

/// If no member is keyed `key`, the lookup returns nothing.
pub proof fn lemma_jlookup_none(members: Seq<(Seq<char>, JVal)>, key: Seq<char>)
    requires
        forall|j: int| 0 <= j < members.len() ==> members[j].0 != key,
    ensures
        jlookup(members, key) is None,
    decreases members.len(),
{
    if members.len() > 0 {
        lemma_jlookup_none(members.subrange(1, members.len() as int), key);
    }
}

/// Finds the first member of `members` whose key is `key` and borrows its
/// value; returns nothing when no member has that key.
pub fn obj_get<'a>(members: &'a Vec<(String, JsonValue)>, key: &str) -> (r: Option<
    &'a JsonValue,
>)
    ensures
        match r {
            Some(v) => jlookup(jmembers_of(members@), key@) == Some(v@),
            None => jlookup(jmembers_of(members@), key@) is None,
        },
{
    proof {
        lemma_jmembers_of_index(members@);
    }
    let wanted: String = key.to_owned();
    let n = members.len();
    let mut i: usize = 0;
    while i < n
        invariant
            n == members@.len(),
            0 <= i <= n,
            wanted@ == key@,
            forall|j: int| 0 <= j < i ==> members@[j].0@ != key@,
            jmembers_of(members@).len() == members@.len(),
            forall|j: int|
                0 <= j < members@.len() ==> jmembers_of(members@)[j] == (
                    members@[j].0@,
                    jval_of(members@[j].1),
                ),
        decreases n - i,
    {
        if members[i].0 == wanted {
            proof {
                lemma_jlookup_at(jmembers_of(members@), key@, i as int);
            }
            return Some(&members[i].1);
        }
        i += 1;
    }
    proof {
        lemma_jlookup_none(jmembers_of(members@), key@);
    }
    None
}

/// Copies a JSON value; the copy has the same model as the original.
pub fn clone_json(v: &JsonValue) -> (r: JsonValue)
    ensures
        r@ == v@,
    decreases v,
{
    match v {
        JsonValue::Null => JsonValue::Null,
        JsonValue::Bool(b) => JsonValue::Bool(*b),
        JsonValue::Int(i) => JsonValue::Int(*i),
        JsonValue::OtherNumber => JsonValue::OtherNumber,
        JsonValue::Str(s) => JsonValue::Str(s.clone()),
        JsonValue::Arr(items) => {
            let n = items.len();
            let mut out: Vec<JsonValue> = Vec::new();
            let mut i: usize = 0;
            while i < n
                invariant
                    *v == JsonValue::Arr(*items),
                    n == items@.len(),
                    0 <= i <= n,
                    out@.len() == i,
                    forall|j: int| 0 <= j < i ==> jval_of(out@[j]) == jval_of(items@[j]),
                decreases n - i,
            {
                proof {
                    assert(*v == JsonValue::Arr(*items));
                    assert(decreases_to!(*v => (*v)->Arr_0));
                    assert(decreases_to!(*items => items@));
                    assert(decreases_to!(items@ => items@[i as int]));
                    assert(decreases_to!(*v => items@[i as int]));
                }
                let e = clone_json(&items[i]);
                out.push(e);
                i += 1;
            }
            proof {
                lemma_jvals_of_index(out@);
                lemma_jvals_of_index(items@);
                assert(jvals_of(out@) =~= jvals_of(items@));
            }
            JsonValue::Arr(out)
        },
        JsonValue::Obj(members) => {
            let n = members.len();
            let mut out: Vec<(String, JsonValue)> = Vec::new();
            let mut i: usize = 0;
            while i < n
                invariant
                    *v == JsonValue::Obj(*members),
                    n == members@.len(),
                    0 <= i <= n,
                    out@.len() == i,
                    forall|j: int|
                        0 <= j < i ==> out@[j].0@ == members@[j].0@ && jval_of(out@[j].1)
                            == jval_of(members@[j].1),
                decreases n - i,
            {
                proof {
                    assert(*v == JsonValue::Obj(*members));
                    assert(decreases_to!(*v => (*v)->Obj_0));
                    assert(decreases_to!(*members => members@));
                    assert(decreases_to!(members@ => members@[i as int]));
                    assert(decreases_to!(members@[i as int] => members@[i as int].1));
                    assert(decreases_to!(*v => members@[i as int].1));
                }
                let val = clone_json(&members[i].1);
                let k = members[i].0.clone();
                out.push((k, val));
                i += 1;
            }
            proof {
                lemma_jmembers_of_index(out@);
                lemma_jmembers_of_index(members@);
                assert(jmembers_of(out@) =~= jmembers_of(members@));
            }
            JsonValue::Obj(out)
        },
    }
}

/// Holds when a model contains no unrepresentable-number marker, so that
/// writing it out as JSON text loses nothing.
pub open spec fn jval_serializable(v: JVal) -> bool
    decreases v,
{
    match v {
        JVal::OtherNumber => false,
        JVal::Arr(items) => forall|i: int|
            0 <= i < items.len() ==> jval_serializable(#[trigger] items[i]),
        JVal::Obj(members) => forall|i: int|
            0 <= i < members.len() ==> jval_serializable(#[trigger] members[i].1),
        _ => true,
    }
}

/// The model of the JSON document that the parser produces from `b`, if `b`
/// is well-formed JSON text.
pub uninterp spec fn json_of(b: Seq<u8>) -> Option<JVal>;

/// The JSON text that the writer produces for a value with model `v`.
pub uninterp spec fn json_bytes_of(v: JVal) -> Seq<u8>;

#[verifier::external_type_specification]
#[verifier::external_body]
pub struct ExValue(serde_json::Value);

/// Converts a parsed `serde_json::Value` into the library's value type,
/// variant by variant; a number outside `i64` becomes the marker variant.
/// Trusted together with `parse_json`, whose contract covers the pair.
#[verifier::external_body]
fn from_outside_value(v: serde_json::Value) -> JsonValue {
    match v {
        serde_json::Value::Null => JsonValue::Null,
        serde_json::Value::Bool(b) => JsonValue::Bool(b),
        serde_json::Value::Number(n) => match n.as_i64() {
            Some(i) => JsonValue::Int(i),
            None => JsonValue::OtherNumber,
        },
        serde_json::Value::String(s) => JsonValue::Str(s),
        serde_json::Value::Array(items) => JsonValue::Arr(
            items.into_iter().map(from_outside_value).collect(),
        ),
        serde_json::Value::Object(members) => JsonValue::Obj(
            members.into_iter().map(|(k, item)| (k, from_outside_value(item))).collect(),
        ),
    }
}

/// Relies on `serde_json::from_slice` to parse the bytes: the outcome, named
/// `json_of`, depends on the bytes alone, and parse errors come back as
/// nothing. Object members arrive with unique keys (of duplicates on the
/// wire, the parser keeps the last) in the parser's map order.
#[verifier::external_body]
pub(crate) fn parse_json(bytes: &[u8]) -> (r: Option<JsonValue>)
    ensures
        match r {
            Some(v) => json_of(bytes@) == Some(v@),
            None => json_of(bytes@) is None,
        },
{
    match serde_json::from_slice::<serde_json::Value>(bytes) {
        Ok(v) => Some(from_outside_value(v)),
        Err(_) => None,
    }
}

/// Converts the library's value type into a `serde_json::Value`, variant by
/// variant. Trusted together with `write_json`, whose contract covers the
/// pair; `write_json` is never handed the marker variant that this function
/// has to map to null.
#[verifier::external_body]
fn to_outside_value(v: &JsonValue) -> serde_json::Value {
    match v {
        JsonValue::Null => serde_json::Value::Null,
        JsonValue::Bool(b) => serde_json::Value::Bool(*b),
        JsonValue::Int(i) => serde_json::Value::Number(serde_json::Number::from(*i)),
        JsonValue::OtherNumber => serde_json::Value::Null,
        JsonValue::Str(s) => serde_json::Value::String(s.clone()),
        JsonValue::Arr(items) => serde_json::Value::Array(items.iter().map(to_outside_value).collect()),
        JsonValue::Obj(members) => serde_json::Value::Object(
            members.iter().map(|(k, item)| (k.clone(), to_outside_value(item))).collect(),
        ),
    }
}

/// Relies on `serde_json::to_vec` to write the converted value as JSON text:
/// the output, named `json_bytes_of`, depends on the value's model alone.
/// `serde_json::to_vec` cannot fail on a `serde_json::Value` (its `Serialize`
/// never errors and all of its map keys are strings), so the error branch is
/// unreachable.
#[verifier::external_body]
pub(crate) fn write_json(v: &JsonValue) -> (r: Vec<u8>)
    requires
        jval_serializable(v@),
    ensures
        r@ == json_bytes_of(v@),
{
    match serde_json::to_vec(&to_outside_value(v)) {
        Ok(bytes) => bytes,
        Err(_) => Vec::new(),
    }
}

} // verus!
