//! A JSON document as plain values, and reading it along a path of keys and
//! indices, as `value["a"][0]["b"]` reads it: a missing key, an index past
//! the end, or a step into a value of the wrong kind reads as null.
use vstd::prelude::*;

verus! {

/// A JSON value. A number is kept as its value when it is a non-negative
/// integer that fits in 64 bits, and as `None` otherwise.
#[derive(Debug)]
pub enum Json {
    Null,
    Bool(bool),
    Number(Option<u64>),
    Str(String),
    Array(Vec<Json>),
    Object(Vec<(String, Json)>),
}

/// A JSON value as `serde_json` parses it.
#[verifier::external_type_specification]
#[verifier::external_body]
pub struct ExJsonValue(serde_json::Value);

/// The JSON value that `serde_json` parses from `text`, if the text is
/// JSON, in the model above.
pub uninterp spec fn json_of_text(text: Seq<char>) -> Option<Json>;

/// Turns a `serde_json::Value` into the model above, one for one: numbers
/// by `serde_json::Number::as_u64`, objects in the order of their map.
#[verifier::external_body]
fn json_of_value(v: serde_json::Value) -> Json {
    match v {
        serde_json::Value::Null => Json::Null,
        serde_json::Value::Bool(b) => Json::Bool(b),
        serde_json::Value::Number(n) => Json::Number(n.as_u64()),
        serde_json::Value::String(s) => Json::Str(s),
        serde_json::Value::Array(a) => Json::Array(a.into_iter().map(json_of_value).collect()),
        serde_json::Value::Object(o) => Json::Object(o.into_iter().map(|(k, x)| (k, json_of_value(x))).collect()),
    }
}

/// Parses JSON text with `serde_json::from_str` into a `serde_json::Value`
/// and turns it into the model above. Claimed of it: the result is the
/// named parse of the text; `None` when `serde_json` refuses the text.
#[verifier::external_body]
pub fn parse_json(text: &str) -> (r: Option<Json>)
    ensures
        r == json_of_text(text@),
{
    serde_json::from_str::<serde_json::Value>(text).ok().map(json_of_value)
}

/// The texts of an array of strings, when `j` is one.
pub open spec fn strings_view(j: Json) -> Option<Seq<Seq<char>>> {
    match j {
        Json::Array(a) => if forall|i: int| 0 <= i < a@.len() ==> (#[trigger] a@[i]) is Str {
            Some(Seq::new(a@.len(), |i: int| a@[i]->Str_0@))
        } else {
            None
        },
        _ => None,
    }
}

/// The strings of an array of strings, as a list; `None` when `j` is not
/// an array or holds something other than a string.
pub fn strings_of(j: &Json) -> (r: Option<Vec<String>>)
    ensures
        match r {
            Some(v) => strings_view(*j) == Some(v@.map_values(|s: String| s@)),
            None => strings_view(*j) is None,
        },
{
    match j {
        Json::Array(a) => {
            let mut v: Vec<String> = Vec::new();
            let mut i: usize = 0;
            while i < a.len()
                invariant
                    *j == Json::Array(*a),
                    i <= a@.len(),
                    v@.len() == i,
                    forall|k: int| 0 <= k < i ==> (#[trigger] a@[k]) is Str && v@[k]@ == a@[k]->Str_0@,
                decreases a.len() - i,
            {
                match &a[i] {
                    Json::Str(s) => v.push(s.clone()),
                    _ => {
                        assert(!(a@[i as int] is Str));
                        return None;
                    },
                }
                i = i + 1;
            }
            assert(v@.map_values(|s: String| s@) =~= Seq::new(a@.len(), |i: int| a@[i]->Str_0@));
            Some(v)
        },
        _ => None,
    }
}

/// One step of a path: a key of an object or an index into an array.
#[derive(Debug)]
pub enum Step {
    Key(String),
    Idx(usize),
}

/// A step of a path, as text and number.
pub enum StepV {
    Key(Seq<char>),
    Idx(nat),
}

impl View for Step {
    type V = StepV;

    open spec fn view(&self) -> StepV {
        match self {
            Step::Key(k) => StepV::Key(k@),
            Step::Idx(i) => StepV::Idx(*i as nat),
        }
    }
}

/// The value of the first field named `k`, or null.
pub open spec fn field_of(fields: Seq<(String, Json)>, k: Seq<char>) -> Json
    decreases fields.len(),
{
    if fields.len() == 0 {
        Json::Null
    } else if fields[0].0@ == k {
        fields[0].1
    } else {
        field_of(fields.drop_first(), k)
    }
}

/// The value one step below `j`.
pub open spec fn index_step(j: Json, s: StepV) -> Json {
    match s {
        StepV::Key(k) => match j {
            Json::Object(f) => field_of(f@, k),
            _ => Json::Null,
        },
        StepV::Idx(i) => match j {
            Json::Array(a) => if i < a@.len() { a@[i as int] } else { Json::Null },
            _ => Json::Null,
        },
    }
}

/// The value reached from `j` along `path`.
pub open spec fn travel(j: Json, path: Seq<StepV>) -> Json
    decreases path.len(),
{
    if path.len() == 0 {
        j
    } else {
        travel(index_step(j, path[0]), path.drop_first())
    }
}

/// The string reached along `path`, or the empty string when what is
/// reached is not a string.
pub open spec fn text_at(j: Json, path: Seq<StepV>) -> Seq<char> {
    match travel(j, path) {
        Json::Str(s) => s@,
        _ => Seq::empty(),
    }
}

/// The string reached along `path`, if what is reached is one.
pub open spec fn str_at(j: Json, path: Seq<StepV>) -> Option<Seq<char>> {
    match travel(j, path) {
        Json::Str(s) => Some(s@),
        _ => None,
    }
}

/// Reading along a path in two parts reads along the whole path: what
/// `json["a"]["b"]` gives, `(json["a"])["b"]` gives.
pub proof fn lemma_travel_concat(j: Json, a: Seq<StepV>, b: Seq<StepV>)
    ensures
        travel(j, a + b) == travel(travel(j, a), b),
    decreases a.len(),
{
    if a.len() > 0 {
        assert((a + b).drop_first() =~= a.drop_first() + b);
        assert((a + b)[0] == a[0]);
        lemma_travel_concat(index_step(j, a[0]), a.drop_first(), b);
    } else {
        assert(a + b =~= b);
    }
}

/// Reading past a missing value reads null, whatever the path.
pub proof fn lemma_travel_null(path: Seq<StepV>)
    ensures
        travel(Json::Null, path) == Json::Null,
    decreases path.len(),
{
    if path.len() > 0 {
        lemma_travel_null(path.drop_first());
    }
}

/// The views of a path.
pub open spec fn path_view(p: Seq<Step>) -> Seq<StepV> {
    p.map_values(|s: Step| s@)
}

/// A key step.
pub fn key(k: &str) -> (s: Step)
    ensures
        s@ == StepV::Key(k@),
{
    Step::Key(String::from_str(k))
}

/// An index step.
pub fn idx(i: usize) -> (s: Step)
    ensures
        s@ == StepV::Idx(i as nat),
{
    Step::Idx(i)
}

fn field_lookup<'a>(fields: &'a Vec<(String, Json)>, k: &String) -> (r: Option<&'a Json>)
    ensures
        field_of(fields@, k@) == match r {
            Some(x) => *x,
            None => Json::Null,
        },
{
    let mut i: usize = 0;
    assert(fields@.skip(0) =~= fields@);
    while i < fields.len()
        invariant
            i <= fields.len(),
            field_of(fields@, k@) == field_of(fields@.skip(i as int), k@),
        decreases fields.len() - i,
    {
        assert(fields@.skip(i as int).drop_first() =~= fields@.skip(i + 1));
        if fields[i].0 == *k {
            return Some(&fields[i].1);
        }
        i = i + 1;
    }
    assert(fields@.skip(i as int) =~= Seq::<(String, Json)>::empty());
    None
}

/// The value one step below `j`; `None` stands for null.
pub fn step_into<'a>(j: &'a Json, s: &Step) -> (r: Option<&'a Json>)
    ensures
        index_step(*j, s@) == match r {
            Some(x) => *x,
            None => Json::Null,
        },
{
    match s {
        Step::Key(k) => match j {
            Json::Object(f) => field_lookup(f, k),
            _ => None,
        },
        Step::Idx(i) => match j {
            Json::Array(a) => if *i < a.len() {
                Some(&a[*i])
            } else {
                None
            },
            _ => None,
        },
    }
}

/// The value reached from `j` along `path`; `None` stands for null.
pub fn travel_path<'a>(j: &'a Json, path: &Vec<Step>) -> (r: Option<&'a Json>)
    ensures
        travel(*j, path_view(path@)) == match r {
            Some(x) => *x,
            None => Json::Null,
        },
{
    let ghost pv = path_view(path@);
    let mut cur: Option<&'a Json> = Some(j);
    let mut i: usize = 0;
    assert(pv.skip(0) =~= pv);
    while i < path.len()
        invariant
            i <= path.len(),
            pv == path_view(path@),
            travel(*j, pv) == travel(
                match cur {
                    Some(x) => *x,
                    None => Json::Null,
                },
                pv.skip(i as int),
            ),
        decreases path.len() - i,
    {
        assert(pv.skip(i as int)[0] == path@[i as int]@);
        assert(pv.skip(i as int).drop_first() =~= pv.skip(i + 1));
        cur = match cur {
            Some(x) => step_into(x, &path[i]),
            None => {
                assert(index_step(Json::Null, path@[i as int]@) == Json::Null);
                None
            },
        };
        i = i + 1;
    }
    assert(pv.skip(path.len() as int) =~= Seq::<StepV>::empty());
    cur
}

/// The string reached along `path`, or the empty string.
pub fn text_along(j: &Json, path: &Vec<Step>) -> (r: String)
    ensures
        r@ == text_at(*j, path_view(path@)),
{
    match travel_path(j, path) {
        Some(Json::Str(s)) => s.clone(),
        _ => String::new(),
    }
}

/// The string reached along `path`, if what is reached is one.
pub fn str_along(j: &Json, path: &Vec<Step>) -> (r: Option<String>)
    ensures
        match r {
            Some(s) => str_at(*j, path_view(path@)) == Some(s@),
            None => str_at(*j, path_view(path@)) is None,
        },
{
    match travel_path(j, path) {
        Some(Json::Str(s)) => Some(s.clone()),
        _ => None,
    }
}


/// The number reached along `path`, if it is a non-negative integer that
/// fits in 64 bits.
pub open spec fn num_at(j: Json, path: Seq<StepV>) -> Option<u64> {
    match travel(j, path) {
        Json::Number(Some(n)) => Some(n),
        _ => None,
    }
}

/// The number reached along `path`, if it is a non-negative integer that
/// fits in 64 bits.
pub fn num_along(j: &Json, path: &Vec<Step>) -> (r: Option<u64>)
    ensures
        r == num_at(*j, path_view(path@)),
{
    match travel_path(j, path) {
        Some(Json::Number(Some(n))) => Some(*n),
        _ => None,
    }
}

/// A path with no steps.
pub fn empty_path() -> (p: Vec<Step>)
    ensures
        path_view(p@) == Seq::<StepV>::empty(),
{
    let p: Vec<Step> = Vec::new();
    assert(path_view(p@) =~= Seq::<StepV>::empty());
    p
}

/// Adds a key step to the end of a path.
pub fn push_key(p: &mut Vec<Step>, k: &str)
    ensures
        path_view(final(p)@) == path_view(old(p)@).push(StepV::Key(k@)),
{
    p.push(key(k));
    assert(path_view(p@) =~= path_view(old(p)@).push(StepV::Key(k@)));
}

/// Adds an index step to the end of a path.
pub fn push_idx(p: &mut Vec<Step>, i: usize)
    ensures
        path_view(final(p)@) == path_view(old(p)@).push(StepV::Idx(i as nat)),
{
    p.push(idx(i));
    assert(path_view(p@) =~= path_view(old(p)@).push(StepV::Idx(i as nat)));
}

/// The array reached along `path`, if what is reached is one.
pub fn array_along<'a>(j: &'a Json, path: &Vec<Step>) -> (r: Option<&'a Vec<Json>>)
    ensures
        match r {
            Some(a) => travel(*j, path_view(path@)) == Json::Array(*a),
            None => !(travel(*j, path_view(path@)) is Array),
        },
{
    match travel_path(j, path) {
        Some(Json::Array(a)) => Some(a),
        _ => None,
    }
}

} // verus!
