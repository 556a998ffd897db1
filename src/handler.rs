//! The decisions of a request: decode, validate, build, store, respond.
use vstd::prelude::*;
use crate::envelope::{
    ApiResponse, api_response, envelope_model, lemma_distinct_keys, lemma_envelope_invariant,
    lemma_member_at, member, success_status,
};
use crate::json::{Json, JsonModel, entries_model};
use crate::person::{AttributeModel, Person, decimal, is_id_text};
use crate::validate::{PersonInput, errors_json};

verus! {

/// What decoding the request body gave.
#[derive(Debug, PartialEq, Eq)]
pub enum Payload {
    /// A body of the expected shape.
    Parsed(PersonInput),
    /// No body at all.
    Missing,
    /// A body that could not be decoded, with the decoder's message.
    Malformed(String),
}

/// What to do next with a request.
#[derive(Debug)]
pub enum Step {
    /// Answer at once with this response.
    Respond(ApiResponse),
    /// Write this person to the store, then call `finish`.
    Store(Person),
}

/// Whether `s` answers with `status` and an envelope around `payload`.
pub open spec fn responds(s: Step, status: int, payload: JsonModel) -> bool {
    &&& s is Respond
    &&& is_response(s->Respond_0, status, payload)
}

/// Whether `r` has `status` and an envelope around `payload` as JSON body.
pub open spec fn is_response(r: ApiResponse, status: int, payload: JsonModel) -> bool {
    &&& r.status == status
    &&& r.content_type@ == "application/json"@
    &&& r.body.model() == envelope_model(status, payload)
}

/// Whether `s` stores a person with identifier `id` and the fields of `input`.
pub open spec fn stores(s: Step, input: PersonInput, id: Seq<char>) -> bool {
    &&& s is Store
    &&& s->Store_0.id@ == id
    &&& s->Store_0.first_name@ == input.first_name@
    &&& s->Store_0.last_name@ == input.last_name@
    &&& s->Store_0.age == input.age
}

/// The payload of a successful response: `{person: ...}`.
pub open spec fn stored_payload(p: Person) -> JsonModel {
    JsonModel::Object(seq![("person"@, p.json_model())])
}

/// What happens to a request whose body decoded as `payload`, where a stored
/// person would get the identifier `id`.
pub open spec fn accepted(s: Step, payload: Payload, id: Seq<char>) -> bool {
    match payload {
        Payload::Missing => responds(s, 400, JsonModel::Str("Invalid payload"@)),
        Payload::Malformed(m) => responds(s, 400, JsonModel::Str(m@)),
        Payload::Parsed(input) => if input.is_valid() {
            stores(s, input, id)
        } else {
            responds(s, 400, errors_json(input.violations()))
        },
    }
}

/// The store write for a person holds its identifier and its three fields,
/// and the response once that write succeeded carries the same identifier
/// under `data.person.id`.
pub proof fn lemma_stored_id_round_trip(p: Person)
    ensures
        p.item_model() == seq![
            ("id"@, AttributeModel::S(p.id@)),
            ("firstName"@, AttributeModel::S(p.first_name@)),
            ("lastName"@, AttributeModel::S(p.last_name@)),
            ("age"@, AttributeModel::N(decimal(p.age as nat))),
        ],
        member(
            member(member(envelope_model(200, stored_payload(p)), "data"@), "person"@),
            "id"@,
        ) == JsonModel::Str(p.id@),
{
    reveal_strlit("id");
    reveal_strlit("first_name");
    reveal_strlit("last_name");
    reveal_strlit("age");
    lemma_distinct_keys();
    let env = envelope_model(200, stored_payload(p))->Object_0;
    lemma_member_at(env, "data"@, 2);
    lemma_member_at(stored_payload(p)->Object_0, "person"@, 0);
    let fields = p.json_model()->Object_0;
    assert("id"@.len() == 2);
    lemma_member_at(fields, "id"@, 0);
}

/// Whether a response body has exactly one of `data` and `errors` non-null,
/// and `success` set to whether `status` is in the success class.
pub open spec fn envelope_holds(status: int, body: JsonModel) -> bool {
    &&& (member(body, "data"@) is Null) != (member(body, "errors"@) is Null)
    &&& member(body, "success"@) == JsonModel::Bool(success_status(status))
}

/// Every response that the handler gives, at once or after the store
/// write, keeps the envelope invariant.
pub proof fn lemma_handler_envelopes(s: Step, payload: Payload, id: Seq<char>, p: Person)
    requires
        accepted(s, payload, id),
    ensures
        s is Respond ==> envelope_holds(
            s->Respond_0.status as int,
            s->Respond_0.body.model(),
        ),
        envelope_holds(200, envelope_model(200, stored_payload(p))),
        envelope_holds(500, envelope_model(500, JsonModel::Str("Error storing person info"@))),
{
    if s is Respond {
        match payload {
            Payload::Missing => lemma_envelope_invariant(400, JsonModel::Str("Invalid payload"@)),
            Payload::Malformed(m) => lemma_envelope_invariant(400, JsonModel::Str(m@)),
            Payload::Parsed(input) => lemma_envelope_invariant(
                400,
                errors_json(input.violations()),
            ),
        }
    }
    lemma_envelope_invariant(200, stored_payload(p));
    lemma_envelope_invariant(500, JsonModel::Str("Error storing person info"@));
}

/// Decides on a decoded body, giving a stored person the identifier `id`.
pub fn accept_with_id(payload: Payload, id: String) -> (s: Step)
    ensures
        accepted(s, payload, id@),
{
    match payload {
        Payload::Missing => Step::Respond(
            api_response(400, Json::Str("Invalid payload".to_string())),
        ),
        Payload::Malformed(m) => Step::Respond(api_response(400, Json::Str(m))),
        Payload::Parsed(input) => match input.validate() {
            Ok(()) => Step::Store(Person::with_id(id, input)),
            Err(e) => Step::Respond(api_response(400, e.to_json())),
        },
    }
}

/// Decides on a decoded body; a stored person gets a fresh identifier.
pub fn accept(payload: Payload) -> (s: Step)
    ensures
        accepted(s, payload, s->Store_0.id@),
        s is Store ==> is_id_text(s->Store_0.id@),
{
    match payload {
        Payload::Parsed(input) => {
            if input.validate().is_ok() {
                Step::Store(Person::from_input(input))
            } else {
                accept_with_id(Payload::Parsed(input), String::new())
            }
        },
        _ => accept_with_id(payload, String::new()),
    }
}

/// The response once the store write for `person` is done: 200 with the
/// person where it succeeded, else 500 with a fixed message.
pub fn finish(person: &Person, stored: bool) -> (r: ApiResponse)
    ensures
        stored ==> is_response(r, 200, stored_payload(*person)),
        !stored ==> is_response(r, 500, JsonModel::Str("Error storing person info"@)),
{
    if stored {
        let mut es: Vec<(String, Json)> = Vec::new();
        es.push(("person".to_string(), person.to_json()));
        let payload = Json::Object(es);
        proof {
            assert(entries_model(es@) =~= stored_payload(*person)->Object_0);
        }
        api_response(200, payload)
    } else {
        api_response(500, Json::Str("Error storing person info".to_string()))
    }
}

} // verus!
