use vstd::prelude::*;
use vstd::string::*;

verus! {

/// The mathematical value of a JSON document: strings are character sequences,
/// objects are sequences of (key, value) entries in document order.
pub enum JsonModel {
    Null,
    Bool(bool),
    Number(Seq<char>),
    Str(Seq<char>),
    Array(Seq<JsonModel>),
    Object(Seq<(Seq<char>, JsonModel)>),
}

/// A JSON value. Numbers are kept in their textual form. An object's keys are
/// meant to be unique, as those of a parsed document are; should one repeat,
/// every read and write here uses its first entry.
#[derive(Debug, PartialEq)]
pub enum Json {
    Null,
    Bool(bool),
    Number(String),
    Str(String),
    Array(Vec<Json>),
    Object(Vec<(String, Json)>),
}

pub type Entries = Seq<(Seq<char>, JsonModel)>;

impl Json {
    pub open spec fn model(self) -> JsonModel
        decreases self,
    {
        match self {
            Json::Null => JsonModel::Null,
            Json::Bool(b) => JsonModel::Bool(b),
            Json::Number(n) => JsonModel::Number(n@),
            Json::Str(s) => JsonModel::Str(s@),
            Json::Array(v) => JsonModel::Array(
                Seq::new(
                    v.len() as nat,
                    |i: int|
                        if 0 <= i < v.len() {
                            v[i].model()
                        } else {
                            JsonModel::Null
                        },
                ),
            ),
            Json::Object(es) => JsonModel::Object(
                Seq::new(
                    es.len() as nat,
                    |i: int|
                        if 0 <= i < es.len() {
                            (es[i].0@, es[i].1.model())
                        } else {
                            (Seq::empty(), JsonModel::Null)
                        },
                ),
            ),
        }
    }
}

/// The model of a list of object entries.
pub open spec fn entries_model(es: Seq<(String, Json)>) -> Entries {
    Seq::new(es.len(), |i: int| (es[i].0@, es[i].1.model()))
}

pub proof fn lemma_object_model(es: Vec<(String, Json)>)
    ensures
        Json::Object(es).model() == JsonModel::Object(entries_model(es@)),
{
    if let JsonModel::Object(s) = Json::Object(es).model() {
        assert(s =~= entries_model(es@));
    }
}

pub proof fn lemma_array_model(v: Vec<Json>)
    ensures
        Json::Array(v).model() == JsonModel::Array(Seq::new(v.len() as nat, |i: int| v@[i].model())),
{
    if let JsonModel::Array(s) = Json::Array(v).model() {
        assert(s =~= Seq::new(v.len() as nat, |i: int| v@[i].model()));
    }
}

/// `i` is the position of the first entry whose key is `k`.
pub open spec fn first_key(es: Entries, k: Seq<char>, i: int) -> bool {
    &&& 0 <= i < es.len()
    &&& es[i].0 == k
    &&& forall|j: int| 0 <= j < i ==> es[j].0 != k
}

pub open spec fn has_key(es: Entries, k: Seq<char>) -> bool {
    exists|i: int| 0 <= i < es.len() && es[i].0 == k
}

/// Position of the first entry with key `k`, or -1.
pub open spec fn key_index(es: Entries, k: Seq<char>) -> int {
    if exists|i: int| first_key(es, k, i) {
        choose|i: int| first_key(es, k, i)
    } else {
        -1
    }
}

/// The value stored under `k` (the first one, should a key repeat).
pub open spec fn field(es: Entries, k: Seq<char>) -> Option<JsonModel> {
    let i = key_index(es, k);
    if i >= 0 {
        Some(es[i].1)
    } else {
        None
    }
}

/// Sets `k` to `v`: in place where the key is present, appended otherwise.
pub open spec fn put(es: Entries, k: Seq<char>, v: JsonModel) -> Entries {
    let i = key_index(es, k);
    if i >= 0 {
        es.update(i, (k, v))
    } else {
        es.push((k, v))
    }
}

/// Sets `k` to `v` only where `k` is absent.
pub open spec fn put_default(es: Entries, k: Seq<char>, v: JsonModel) -> Entries {
    if field(es, k) is Some {
        es
    } else {
        put(es, k, v)
    }
}

/// The entries of an object value; anything else counts as an empty object.
pub open spec fn entries_of(v: Option<JsonModel>) -> Entries {
    match v {
        Some(JsonModel::Object(es)) => es,
        _ => Seq::empty(),
    }
}

/// The string held by a value, if it is a string.
pub open spec fn str_of(v: Option<JsonModel>) -> Option<Seq<char>> {
    match v {
        Some(JsonModel::Str(s)) => Some(s),
        _ => None,
    }
}

pub proof fn lemma_first_key_exists(es: Entries, k: Seq<char>, i: int)
    requires
        0 <= i < es.len(),
        es[i].0 == k,
    ensures
        exists|j: int| first_key(es, k, j),
    decreases i,
{
    if exists|j: int| 0 <= j < i && es[j].0 == k {
        let j = choose|j: int| 0 <= j < i && es[j].0 == k;
        lemma_first_key_exists(es, k, j);
    } else {
        assert(first_key(es, k, i));
    }
}

pub proof fn lemma_key_index(es: Entries, k: Seq<char>)
    ensures
        -1 <= key_index(es, k) < es.len(),
        key_index(es, k) >= 0 ==> first_key(es, k, key_index(es, k)),
        key_index(es, k) < 0 ==> !has_key(es, k),
        key_index(es, k) >= 0 <==> field(es, k) is Some,
{
    if has_key(es, k) {
        let i = choose|i: int| 0 <= i < es.len() && es[i].0 == k;
        lemma_first_key_exists(es, k, i);
    }
}

pub proof fn lemma_key_index_at(es: Entries, k: Seq<char>, i: int)
    requires
        first_key(es, k, i),
    ensures
        key_index(es, k) == i,
{
    lemma_key_index(es, k);
}

/// Reading back the key just written gives the written value.
pub proof fn lemma_field_put_same(es: Entries, k: Seq<char>, v: JsonModel)
    ensures
        field(put(es, k, v), k) == Some(v),
        put(es, k, v).len() >= es.len(),
{
    lemma_key_index(es, k);
    let i = key_index(es, k);
    let r = put(es, k, v);
    if i >= 0 {
        assert(first_key(r, k, i));
        lemma_key_index_at(r, k, i);
    } else {
        assert(first_key(r, k, es.len() as int));
        lemma_key_index_at(r, k, es.len() as int);
    }
}

/// Writing one key leaves every other key as it was.
pub proof fn lemma_field_put_other(es: Entries, k: Seq<char>, v: JsonModel, k2: Seq<char>)
    requires
        k != k2,
    ensures
        field(put(es, k, v), k2) == field(es, k2),
{
    lemma_key_index(es, k);
    lemma_key_index(es, k2);
    let r = put(es, k, v);
    let j = key_index(es, k2);
    if j >= 0 {
        assert(first_key(r, k2, j));
        lemma_key_index_at(r, k2, j);
    } else {
        lemma_key_index(r, k2);
        if key_index(r, k2) >= 0 {
            let j2 = key_index(r, k2);
            assert(r[j2].0 == k2);
            if j2 < es.len() {
                assert(es[j2].0 == k2);
            }
        }
    }
}

/// Writing the value that is already stored changes nothing.
pub proof fn lemma_put_present(es: Entries, k: Seq<char>, v: JsonModel)
    requires
        field(es, k) == Some(v),
    ensures
        put(es, k, v) == es,
{
    lemma_key_index(es, k);
    assert(put(es, k, v) =~= es);
}

/// No key occurs twice.
pub open spec fn keys_unique(es: Entries) -> bool {
    forall|i: int, j: int| 0 <= i < j < es.len() ==> es[i].0 != es[j].0
}

/// Writes keep keys unique.
pub proof fn lemma_put_keeps_keys_unique(es: Entries, k: Seq<char>, v: JsonModel)
    requires
        keys_unique(es),
    ensures
        keys_unique(put(es, k, v)),
        keys_unique(put_default(es, k, v)),
{
    lemma_key_index(es, k);
    let r = put(es, k, v);
    if key_index(es, k) < 0 {
        assert forall|i: int, j: int| 0 <= i < j < r.len() implies r[i].0 != r[j].0 by {
            if j == es.len() {
                assert(es[i].0 != k);
            }
        }
    }
}

/// With unique keys, the value stored under a key is that of its one entry.
pub proof fn lemma_field_unique(es: Entries, i: int)
    requires
        keys_unique(es),
        0 <= i < es.len(),
    ensures
        field(es, es[i].0) == Some(es[i].1),
{
    assert(first_key(es, es[i].0, i));
    lemma_key_index_at(es, es[i].0, i);
}

/// What a lookup sees after a write.
pub broadcast proof fn lemma_field_put(es: Entries, k: Seq<char>, v: JsonModel, k2: Seq<char>)
    ensures
        #[trigger] field(put(es, k, v), k2) == if k == k2 {
            Some(v)
        } else {
            field(es, k2)
        },
{
    if k == k2 {
        lemma_field_put_same(es, k, v);
    } else {
        lemma_field_put_other(es, k, v, k2);
    }
}

/// What a lookup sees after a write of a default.
pub broadcast proof fn lemma_field_put_default(
    es: Entries,
    k: Seq<char>,
    v: JsonModel,
    k2: Seq<char>,
)
    ensures
        #[trigger] field(put_default(es, k, v), k2) == if k == k2 && field(es, k) is None {
            Some(v)
        } else {
            field(es, k2)
        },
{
    if field(es, k) is None {
        lemma_field_put(es, k, v, k2);
    }
}

pub broadcast group group_field_lemmas {
    lemma_field_put,
    lemma_field_put_default,
}

impl Json {
    /// A copy of this value.
    pub fn deep_copy(&self) -> (r: Json)
        ensures
            r.model() == self.model(),
        decreases self,
    {
        match self {
            Json::Null => Json::Null,
            Json::Bool(b) => Json::Bool(*b),
            Json::Number(n) => Json::Number(n.clone()),
            Json::Str(s) => Json::Str(s.clone()),
            Json::Array(v) => {
                let out = copy_items(v);
                proof {
                    lemma_array_model(out);
                    lemma_array_model(*v);
                    assert(Seq::new(out.len() as nat, |i: int| out@[i].model()) =~= Seq::new(
                        v.len() as nat,
                        |i: int| v@[i].model(),
                    ));
                }
                Json::Array(out)
            },
            Json::Object(es) => {
                let out = copy_entries(es);
                proof {
                    lemma_object_model(out);
                    lemma_object_model(*es);
                }
                Json::Object(out)
            },
        }
    }

    /// The entries of this value where it is an object.
    pub open spec fn object_entries(self) -> Option<Entries> {
        match self.model() {
            JsonModel::Object(es) => Some(es),
            _ => None,
        }
    }

    /// The value stored under `key`, where this is an object that has it.
    pub fn get(&self, key: &str) -> (r: Option<&Json>)
        ensures
            match self.model() {
                JsonModel::Object(es) => match r {
                    Some(v) => field(es, key@) == Some(v.model()),
                    None => field(es, key@) is None,
                },
                _ => r is None,
            },
    {
        match self {
            Json::Object(es) => {
                proof {
                    lemma_object_model(*es);
                }
                get_field(es, &String::from_str(key))
            },
            _ => None,
        }
    }

    /// The text of a string value.
    pub fn as_str(&self) -> (r: Option<&str>)
        ensures
            match self.model() {
                JsonModel::Str(s) => r is Some && r->0@ == s,
                _ => r is None,
            },
    {
        match self {
            Json::Str(s) => Some(s.as_str()),
            _ => None,
        }
    }

    /// A new, empty object.
    pub fn empty_object() -> (r: Json)
        ensures
            r.model() == JsonModel::Object(Seq::empty()),
    {
        let v: Vec<(String, Json)> = Vec::new();
        proof {
            lemma_object_model(v);
            assert(entries_model(v@) =~= Seq::empty());
        }
        Json::Object(v)
    }

    /// A string value.
    pub fn string(s: &str) -> (r: Json)
        ensures
            r.model() == JsonModel::Str(s@),
    {
        Json::Str(String::from_str(s))
    }

    /// Builds an object from its entries.
    pub fn object(es: Vec<(String, Json)>) -> (r: Json)
        ensures
            r.model() == JsonModel::Object(entries_model(es@)),
    {
        proof {
            lemma_object_model(es);
        }
        Json::Object(es)
    }
}

/// A copy of a list of values.
pub fn copy_items(v: &Vec<Json>) -> (r: Vec<Json>)
    ensures
        r@.len() == v@.len(),
        forall|j: int| 0 <= j < v@.len() ==> #[trigger] r@[j].model() == v@[j].model(),
    decreases v,
{
    let mut out: Vec<Json> = Vec::new();
    let mut i: usize = 0;
    while i < v.len()
        invariant
            i <= v.len(),
            out@.len() == i,
            forall|j: int| 0 <= j < i ==> #[trigger] out@[j].model() == v@[j].model(),
        decreases v.len() - i,
    {
        proof {
            vstd::std_specs::vec::axiom_vec_index_decreases(*v, i as int);
        }
        let c = v[i].deep_copy();
        out.push(c);
        i = i + 1;
    }
    out
}

/// A copy of a list of entries.
pub fn copy_entries(es: &Vec<(String, Json)>) -> (r: Vec<(String, Json)>)
    ensures
        entries_model(r@) == entries_model(es@),
    decreases es,
{
    let mut out: Vec<(String, Json)> = Vec::new();
    let mut i: usize = 0;
    while i < es.len()
        invariant
            i <= es.len(),
            out@.len() == i,
            forall|j: int|
                0 <= j < i ==> #[trigger] out@[j].0@ == es@[j].0@ && out@[j].1.model()
                    == es@[j].1.model(),
        decreases es.len() - i,
    {
        proof {
            vstd::std_specs::vec::axiom_vec_index_decreases(*es, i as int);
            assert(decreases_to!(*es => es@[i as int].1));
        }
        let k = es[i].0.clone();
        let c = es[i].1.deep_copy();
        out.push((k, c));
        i = i + 1;
    }
    assert(entries_model(out@) =~= entries_model(es@));
    out
}

/// Position of the first entry with key `k`.
pub fn find_key(es: &Vec<(String, Json)>, k: &String) -> (r: Option<usize>)
    ensures
        match r {
            Some(i) => key_index(entries_model(es@), k@) == i as int,
            None => key_index(entries_model(es@), k@) == -1,
        },
{
    let ghost m = entries_model(es@);
    let mut i: usize = 0;
    while i < es.len()
        invariant
            i <= es.len(),
            m == entries_model(es@),
            forall|j: int| 0 <= j < i ==> m[j].0 != k@,
        decreases es.len() - i,
    {
        if es[i].0 == *k {
            proof {
                lemma_key_index_at(m, k@, i as int);
            }
            return Some(i);
        }
        i = i + 1;
    }
    proof {
        lemma_key_index(m, k@);
        if key_index(m, k@) >= 0 {
            assert(m[key_index(m, k@)].0 == k@);
        }
    }
    None
}

/// The value stored under `k`.
pub fn get_field<'a>(es: &'a Vec<(String, Json)>, k: &String) -> (r: Option<&'a Json>)
    ensures
        match r {
            Some(v) => field(entries_model(es@), k@) == Some(v.model()),
            None => field(entries_model(es@), k@) is None,
        },
{
    match find_key(es, k) {
        Some(i) => Some(&es[i].1),
        None => None,
    }
}

/// Stores `v` under `k`, in place where `k` is present.
pub fn set_field(es: &mut Vec<(String, Json)>, k: String, v: Json)
    ensures
        entries_model(final(es)@) == put(entries_model(old(es)@), k@, v.model()),
{
    let ghost m = entries_model(es@);
    let ghost vm = v.model();
    let ghost kv = k@;
    match find_key(es, &k) {
        Some(i) => {
            es.set(i, (k, v));
            assert(entries_model(es@) =~= m.update(i as int, (kv, vm)));
        },
        None => {
            es.push((k, v));
            assert(entries_model(es@) =~= m.push((kv, vm)));
        },
    }
}

/// Stores `v` under `k` only where `k` is absent.
pub fn set_default(es: &mut Vec<(String, Json)>, k: String, v: Json)
    ensures
        entries_model(final(es)@) == put_default(entries_model(old(es)@), k@, v.model()),
{
    let ghost m = entries_model(es@);
    match find_key(es, &k) {
        Some(_) => {
            proof {
                lemma_key_index(m, k@);
            }
        },
        None => {
            proof {
                lemma_key_index(m, k@);
            }
            set_field(es, k, v);
        },
    }
}

/// A copy of the entries of the object stored under `k`; empty where there is none.
pub fn object_at(es: &Vec<(String, Json)>, k: &String) -> (r: Vec<(String, Json)>)
    ensures
        entries_model(r@) == entries_of(field(entries_model(es@), k@)),
{
    match get_field(es, k) {
        Some(Json::Object(inner)) => {
            proof {
                lemma_object_model(*inner);
            }
            copy_entries(inner)
        },
        _ => {
            let r: Vec<(String, Json)> = Vec::new();
            assert(entries_model(r@) =~= Seq::empty());
            r
        },
    }
}

/// The string stored under `k`, where it is a string.
pub fn string_at<'a>(es: &'a Vec<(String, Json)>, k: &String) -> (r: Option<&'a String>)
    ensures
        match r {
            Some(s) => str_of(field(entries_model(es@), k@)) == Some(s@),
            None => str_of(field(entries_model(es@), k@)) is None,
        },
{
    match get_field(es, k) {
        Some(Json::Str(s)) => Some(s),
        _ => None,
    }
}

/// An owned string built from a literal.
pub fn text(s: &str) -> (r: String)
    ensures
        r@ == s@,
{
    String::from_str(s)
}

} // verus!
