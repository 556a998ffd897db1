//! JSON values and their deep merge.
use vstd::prelude::*;

verus! {

/// A JSON value. Objects keep their entries in order; a well-formed object
/// holds each key once.
#[derive(Debug)]
pub enum Json {
    Null,
    Bool(bool),
    Number(i64),
    Str(String),
    Array(Vec<Json>),
    Object(Vec<(String, Json)>),
}

/// The mathematical value of a `Json`.
pub enum JsonModel {
    Null,
    Bool(bool),
    Number(int),
    Str(Seq<char>),
    Array(Seq<JsonModel>),
    Object(Seq<(Seq<char>, JsonModel)>),
}

impl Json {
    pub open spec fn model(self) -> JsonModel
        decreases self,
    {
        match self {
            Json::Null => JsonModel::Null,
            Json::Bool(b) => JsonModel::Bool(b),
            Json::Number(n) => JsonModel::Number(n as int),
            Json::Str(s) => JsonModel::Str(s@),
            Json::Array(items) => JsonModel::Array(items_model(items@)),
            Json::Object(entries) => JsonModel::Object(entries_model(entries@)),
        }
    }
}

pub open spec fn items_model(s: Seq<Json>) -> Seq<JsonModel>
    decreases s,
{
    Seq::new(s.len(), |i: int| if 0 <= i < s.len() { s[i].model() } else { JsonModel::Null })
}

pub open spec fn entries_model(s: Seq<(String, Json)>) -> Seq<(Seq<char>, JsonModel)>
    decreases s,
{
    Seq::new(
        s.len(),
        |i: int|
            if 0 <= i < s.len() {
                (s[i].0@, s[i].1.model())
            } else {
                (Seq::empty(), JsonModel::Null)
            },
    )
}

/// Whether `es` holds key `k` at `j` and nowhere before it.
pub open spec fn first_key_at(es: Seq<(Seq<char>, JsonModel)>, k: Seq<char>, j: int) -> bool {
    &&& 0 <= j < es.len()
    &&& es[j].0 == k
    &&& forall|i: int| 0 <= i < j ==> es[i].0 != k
}

/// The deep merge of `addition` into `target`: two objects merge key by key,
/// any other pair gives `addition`.
pub open spec fn merged(target: JsonModel, addition: JsonModel) -> JsonModel
    decreases addition,
{
    if target is Object && addition is Object {
        JsonModel::Object(merged_entries(target->Object_0, addition->Object_0))
    } else {
        addition
    }
}

/// The entries of `es` after merging in each entry of `add`, first to last.
pub open spec fn merged_entries(
    es: Seq<(Seq<char>, JsonModel)>,
    add: Seq<(Seq<char>, JsonModel)>,
) -> Seq<(Seq<char>, JsonModel)>
    decreases add,
{
    if add.len() == 0 {
        es
    } else {
        merged_entry(merged_entries(es, add.subrange(0, add.len() - 1)), add[add.len() - 1])
    }
}

/// The entries of `es` after merging in one entry: an existing key has its
/// value merged, a new key is appended.
pub open spec fn merged_entry(
    es: Seq<(Seq<char>, JsonModel)>,
    e: (Seq<char>, JsonModel),
) -> Seq<(Seq<char>, JsonModel)>
    decreases e,
{
    if exists|j: int| first_key_at(es, e.0, j) {
        let j = choose|j: int| first_key_at(es, e.0, j);
        es.update(j, (es[j].0, merged(es[j].1, e.1)))
    } else {
        es.push(e)
    }
}

/// Merging where either side is not an object gives the addition unchanged.
pub proof fn lemma_merge_overwrites(target: JsonModel, addition: JsonModel)
    requires
        !(target is Object && addition is Object),
    ensures
        merged(target, addition) == addition,
{
}

/// Merging an object of one entry into an object that already holds its key
/// merges the two values under that key, recursively, and keeps the rest.
pub proof fn lemma_merge_shared_key(
    es: Seq<(Seq<char>, JsonModel)>,
    k: Seq<char>,
    v: JsonModel,
    j: int,
)
    requires
        first_key_at(es, k, j),
    ensures
        merged(JsonModel::Object(es), JsonModel::Object(seq![(k, v)])) == JsonModel::Object(
            es.update(j, (k, merged(es[j].1, v))),
        ),
{
    let add = seq![(k, v)];
    assert(add.subrange(0, 0) =~= Seq::<(Seq<char>, JsonModel)>::empty());
    assert(merged_entries(es, add) == merged_entry(es, (k, v)));
    let c = choose|c: int| first_key_at(es, k, c);
    assert(c == j);
}

/// Merging an object of one entry into an object without its key appends
/// the entry.
pub proof fn lemma_merge_new_key(es: Seq<(Seq<char>, JsonModel)>, k: Seq<char>, v: JsonModel)
    requires
        forall|i: int| 0 <= i < es.len() ==> es[i].0 != k,
    ensures
        merged(JsonModel::Object(es), JsonModel::Object(seq![(k, v)])) == JsonModel::Object(
            es.push((k, v)),
        ),
{
    let add = seq![(k, v)];
    assert(add.subrange(0, 0) =~= Seq::<(Seq<char>, JsonModel)>::empty());
    assert(merged_entries(es, add) == merged_entry(es, (k, v)));
}

/// Merges `addition` into `target` in place (see `merged`).
pub fn merge(target: &mut Json, addition: Json)
    ensures
        final(target).model() == merged(old(target).model(), addition.model()),
{
    let mut current = Json::Null;
    std::mem::swap(target, &mut current);
    *target = merge_values(current, addition);
}

fn merge_values(target: Json, addition: Json) -> (r: Json)
    ensures
        r.model() == merged(target.model(), addition.model()),
    decreases addition, 0int,
{
    match addition {
        Json::Object(add) => match target {
            Json::Object(es) => Json::Object(merge_entries(es, add)),
            _ => Json::Object(add),
        },
        _ => addition,
    }
}

fn merge_entries(es: Vec<(String, Json)>, add: Vec<(String, Json)>) -> (r: Vec<(String, Json)>)
    ensures
        entries_model(r@) == merged_entries(entries_model(es@), entries_model(add@)),
    decreases add, 0int,
{
    let ghost start = entries_model(es@);
    let ghost all = entries_model(add@);
    let mut es = es;
    let mut rest = add;
    let ghost done: int = 0;
    proof {
        assert(all.subrange(0, 0) =~= Seq::empty());
    }
    while rest.len() > 0
        invariant
            0 <= done <= add@.len(),
            all == entries_model(add@),
            rest@ == add@.subrange(done, add@.len() as int),
            entries_model(es@) == merged_entries(start, all.subrange(0, done)),
        decreases rest.len(),
    {
        let (k, v) = rest.remove(0);
        proof {
            assert(add@[done] == (k, v));
            assert(decreases_to!(add => add@));
            assert(decreases_to!(add@ => add@[done]));
        }
        es = merge_entry(es, k, v);
        proof {
            assert(all.subrange(0, done + 1).subrange(0, done) =~= all.subrange(0, done));
            done = done + 1;
        }
    }
    proof {
        assert(all.subrange(0, done) =~= all);
    }
    es
}

fn merge_entry(es: Vec<(String, Json)>, k: String, v: Json) -> (r: Vec<(String, Json)>)
    ensures
        entries_model(r@) == merged_entry(entries_model(es@), (k@, v.model())),
    decreases v, 1int,
{
    let ghost m = entries_model(es@);
    let mut es = es;
    let mut j: usize = 0;
    let mut found = false;
    while !found && j < es.len()
        invariant
            j <= es.len(),
            found ==> j < es.len() && es@[j as int].0@ == k@,
            forall|i: int| 0 <= i < j ==> es@[i].0@ != k@,
        decreases es.len() - j + (if found { 0int } else { 1int }),
    {
        if es[j].0 == k {
            found = true;
        } else {
            j += 1;
        }
    }
    if found {
        proof {
            assert(first_key_at(m, k@, j as int));
            let c = choose|c: int| first_key_at(m, k@, c);
            assert(c == j);
        }
        let (k0, v0) = es.remove(j);
        let nv = merge_values(v0, v);
        es.insert(j, (k0, nv));
        proof {
            assert(entries_model(es@) =~= m.update(j as int, (m[j as int].0, merged(m[j as int].1, v.model()))));
        }
    } else {
        proof {
            assert(!exists|c: int| first_key_at(m, k@, c));
        }
        es.push((k, v));
        proof {
            assert(entries_model(es@) =~= m.push((k@, v.model())));
        }
    }
    es
}

} // verus!
