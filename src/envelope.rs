//! The response envelope wrapped around every payload.
use vstd::prelude::*;
use crate::json::{Json, JsonModel, lemma_merge_new_key, merge, merged};

verus! {

/// An HTTP response: its status, its content type and its JSON body.
#[derive(Debug)]
pub struct ApiResponse {
    pub status: u16,
    pub content_type: String,
    pub body: Json,
}

/// Whether `status` lies in the success class 200 to 299.
pub open spec fn success_status(status: int) -> bool {
    200 <= status <= 299
}

/// The object with the given entries, in order.
pub open spec fn object2(k0: Seq<char>, v0: JsonModel, k1: Seq<char>, v1: JsonModel) -> JsonModel {
    JsonModel::Object(seq![(k0, v0), (k1, v1)])
}

/// The envelope for `status` around `payload`: on success
/// `{success, errors: null, data: payload}`, else
/// `{success, data: null, errors: payload}`.
pub open spec fn envelope_model(status: int, payload: JsonModel) -> JsonModel {
    if success_status(status) {
        JsonModel::Object(
            seq![
                ("success"@, JsonModel::Bool(true)),
                ("errors"@, JsonModel::Null),
                ("data"@, payload),
            ],
        )
    } else {
        JsonModel::Object(
            seq![
                ("success"@, JsonModel::Bool(false)),
                ("data"@, JsonModel::Null),
                ("errors"@, payload),
            ],
        )
    }
}

/// The value stored under `key` in an object, or null where there is none.
pub open spec fn member(j: JsonModel, key: Seq<char>) -> JsonModel {
    if j is Object && exists|i: int| 0 <= i < j->Object_0.len() && j->Object_0[i].0 == key {
        let es = j->Object_0;
        let i = choose|i: int| 0 <= i < es.len() && es[i].0 == key;
        es[i].1
    } else {
        JsonModel::Null
    }
}

/// The three envelope keys differ from each other.
pub proof fn lemma_distinct_keys()
    ensures
        "success"@ != "errors"@,
        "success"@ != "data"@,
        "errors"@ != "data"@,
{
    reveal_strlit("success");
    reveal_strlit("errors");
    reveal_strlit("data");
    assert("success"@.len() != "errors"@.len());
    assert("success"@.len() != "data"@.len());
    assert("errors"@.len() != "data"@.len());
}

proof fn lemma_merge_fresh_key(flag: JsonModel, k1: Seq<char>, k2: Seq<char>, p: JsonModel)
    requires
        k2 != "success"@,
        k2 != k1,
    ensures
        merged(object2("success"@, flag, k1, JsonModel::Null), JsonModel::Object(seq![(k2, p)]))
            == JsonModel::Object(seq![("success"@, flag), (k1, JsonModel::Null), (k2, p)]),
{
    let es = seq![("success"@, flag), (k1, JsonModel::Null)];
    assert(es[0].0 == "success"@ && es[1].0 == k1);
    lemma_merge_new_key(es, k2, p);
    assert(es.push((k2, p)) =~= seq![("success"@, flag), (k1, JsonModel::Null), (k2, p)]);
}

/// An object whose only entry under `key` is the one at `i` gives that
/// entry's value as its member.
pub proof fn lemma_member_at(es: Seq<(Seq<char>, JsonModel)>, key: Seq<char>, i: int)
    requires
        0 <= i < es.len(),
        es[i].0 == key,
        forall|j: int| 0 <= j < es.len() && j != i ==> es[j].0 != key,
    ensures
        member(JsonModel::Object(es), key) == es[i].1,
{
}

/// In the envelope around any payload but null, exactly one of `data` and
/// `errors` is non-null, and `success` tells whether the status is in the
/// success class.
pub proof fn lemma_envelope_invariant(status: int, payload: JsonModel)
    requires
        !(payload is Null),
    ensures
        (member(envelope_model(status, payload), "data"@) is Null) != (member(
            envelope_model(status, payload),
            "errors"@,
        ) is Null),
        member(envelope_model(status, payload), "success"@) == JsonModel::Bool(
            success_status(status),
        ),
{
    lemma_distinct_keys();
    let es = envelope_model(status, payload)->Object_0;
    if success_status(status) {
        lemma_member_at(es, "success"@, 0);
        lemma_member_at(es, "errors"@, 1);
        lemma_member_at(es, "data"@, 2);
    } else {
        lemma_member_at(es, "success"@, 0);
        lemma_member_at(es, "data"@, 1);
        lemma_member_at(es, "errors"@, 2);
    }
}

/// Whether `status` is in the success class.
pub fn is_success(status: u16) -> (r: bool)
    ensures
        r == success_status(status as int),
{
    200 <= status && status <= 299
}

fn pair(key: &str, value: Json) -> (r: Json)
    ensures
        r.model() == JsonModel::Object(seq![(key@, value.model())]),
{
    let mut es: Vec<(String, Json)> = Vec::new();
    es.push((key.to_string(), value));
    let r = Json::Object(es);
    proof {
        assert(crate::json::entries_model(es@) =~= seq![(key@, value.model())]);
    }
    r
}

fn two(k0: &str, v0: Json, k1: &str, v1: Json) -> (r: Json)
    ensures
        r.model() == object2(k0@, v0.model(), k1@, v1.model()),
{
    let mut es: Vec<(String, Json)> = Vec::new();
    es.push((k0.to_string(), v0));
    es.push((k1.to_string(), v1));
    let r = Json::Object(es);
    proof {
        assert(crate::json::entries_model(es@) =~= seq![(k0@, v0.model()), (k1@, v1.model())]);
    }
    r
}

/// Wraps `payload` in the envelope for `status`, as a JSON response.
pub fn api_response(status: u16, payload: Json) -> (r: ApiResponse)
    ensures
        r.status == status,
        r.content_type@ == "application/json"@,
        r.body.model() == envelope_model(status as int, payload.model()),
{
    let success = is_success(status);
    let ghost p = payload.model();
    let mut body;
    if success {
        body = two("success", Json::Bool(success), "errors", Json::Null);
        merge(&mut body, pair("data", payload));
        proof {
            lemma_distinct_keys();
            lemma_merge_fresh_key(Json::Bool(success).model(), "errors"@, "data"@, p);
        }
    } else {
        body = two("success", Json::Bool(success), "data", Json::Null);
        merge(&mut body, pair("errors", payload));
        proof {
            lemma_distinct_keys();
            lemma_merge_fresh_key(Json::Bool(success).model(), "data"@, "errors"@, p);
        }
    }
    ApiResponse { status, content_type: "application/json".to_string(), body }
}

} // verus!
