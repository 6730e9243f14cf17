use vstd::prelude::*;

verus! {

/// A JSON value as the interchange text holds it.
/// Numbers are non-negative integers: every numeric attribute of the tree is one.
#[derive(Debug)]
pub enum Json {
    Null,
    Bool(bool),
    Number(u64),
    Str(String),
    Array(Vec<Json>),
    Object(Vec<(String, Json)>),
}

/// Mathematical model of a `Json` value.
pub enum JsonModel {
    Null,
    Bool(bool),
    Number(u64),
    Str(Seq<char>),
    Array(Seq<JsonModel>),
    Object(Seq<(Seq<char>, JsonModel)>),
}

pub open spec fn json_model(j: Json) -> JsonModel
    decreases j,
{
    match j {
        Json::Null => JsonModel::Null,
        Json::Bool(b) => JsonModel::Bool(b),
        Json::Number(n) => JsonModel::Number(n),
        Json::Str(s) => JsonModel::Str(s@),
        Json::Array(a) => JsonModel::Array(jsons_model(a@)),
        Json::Object(ms) => JsonModel::Object(members_model(ms@)),
    }
}

pub open spec fn jsons_model(s: Seq<Json>) -> Seq<JsonModel>
    decreases s,
{
    if s.len() == 0 {
        Seq::empty()
    } else {
        jsons_model(s.subrange(0, s.len() - 1)).push(json_model(s[s.len() - 1]))
    }
}

pub open spec fn members_model(s: Seq<(String, Json)>) -> Seq<(Seq<char>, JsonModel)>
    decreases s,
{
    if s.len() == 0 {
        Seq::empty()
    } else {
        members_model(s.subrange(0, s.len() - 1)).push(
            (s[s.len() - 1].0@, json_model(s[s.len() - 1].1)),
        )
    }
}

pub proof fn lemma_jsons_model(s: Seq<Json>)
    ensures
        jsons_model(s).len() == s.len(),
        forall|i: int| 0 <= i < s.len() ==> #[trigger] jsons_model(s)[i] == json_model(s[i]),
    decreases s.len(),
{
    if s.len() > 0 {
        lemma_jsons_model(s.subrange(0, s.len() - 1));
    }
}

pub proof fn lemma_members_model(s: Seq<(String, Json)>)
    ensures
        members_model(s).len() == s.len(),
        forall|i: int|
            0 <= i < s.len() ==> #[trigger] members_model(s)[i] == (s[i].0@, json_model(s[i].1)),
    decreases s.len(),
{
    if s.len() > 0 {
        lemma_members_model(s.subrange(0, s.len() - 1));
    }
}

/// Index of the first member named `key` at or after `from`, or -1 when there is none.
pub open spec fn find_key_from(ms: Seq<(Seq<char>, JsonModel)>, key: Seq<char>, from: int) -> int
    decreases ms.len() - from,
{
    if from < 0 || from >= ms.len() {
        -1
    } else if ms[from].0 == key {
        from
    } else {
        find_key_from(ms, key, from + 1)
    }
}

/// Index of the first member named `key`, or -1 when there is none.
pub open spec fn find_key(ms: Seq<(Seq<char>, JsonModel)>, key: Seq<char>) -> int {
    find_key_from(ms, key, 0)
}

pub proof fn lemma_find_key_range(ms: Seq<(Seq<char>, JsonModel)>, key: Seq<char>, from: int)
    requires
        0 <= from,
    ensures
        -1 <= find_key_from(ms, key, from) < ms.len(),
        find_key_from(ms, key, from) >= 0 ==> ms[find_key_from(ms, key, from)].0 == key,
    decreases ms.len() - from,
{
    if from < ms.len() {
        lemma_find_key_range(ms, key, from + 1);
    }
}

/// The value of the first member named `key` of an object.
pub open spec fn field(j: JsonModel, key: Seq<char>) -> Option<JsonModel> {
    match j {
        JsonModel::Object(ms) => {
            let k = find_key(ms, key);
            if 0 <= k < ms.len() {
                Some(ms[k].1)
            } else {
                None
            }
        },
        _ => None,
    }
}

/// Index of the first member named `key`.
pub fn find_member(ms: &Vec<(String, Json)>, key: &str) -> (r: Option<usize>)
    ensures
        match r {
            Some(i) => find_key(members_model(ms@), key@) == i as int,
            None => find_key(members_model(ms@), key@) == -1,
        },
{
    proof {
        lemma_members_model(ms@);
    }
    let mut i: usize = 0;
    while i < ms.len()
        invariant
            i <= ms.len(),
            members_model(ms@).len() == ms@.len(),
            forall|j: int|
                0 <= j < ms.len() ==> #[trigger] members_model(ms@)[j] == (
                    ms@[j].0@,
                    json_model(ms@[j].1),
                ),
            find_key(members_model(ms@), key@) == find_key_from(members_model(ms@), key@, i as int),
        decreases ms.len() - i,
    {
        if crate::text::same_text(ms[i].0.as_str(), key) {
            return Some(i);
        }
        i = i + 1;
    }
    None
}

} // verus!
