//! The request payload and its field rules.
use vstd::prelude::*;
use crate::json::{Json, JsonModel, entries_model, items_model};

verus! {

/// A decoded request payload.
#[derive(Debug, PartialEq, Eq)]
pub struct PersonInput {
    pub first_name: String,
    pub last_name: String,
    pub age: u32,
}

/// One broken rule, with the value that broke it.
#[derive(Debug, PartialEq, Eq)]
pub enum Violation {
    /// A text field is shorter than one character.
    TooShort(String),
    /// A number is below its minimum of one.
    OutOfRange(u32),
}

/// The mathematical value of a `Violation`.
pub enum ViolationModel {
    TooShort(Seq<char>),
    OutOfRange(int),
}

/// A field whose rule was broken.
#[derive(Debug, PartialEq, Eq)]
pub struct FieldError {
    pub field: String,
    pub violation: Violation,
}

/// All the broken rules of one payload, in field order.
#[derive(Debug, PartialEq, Eq)]
pub struct ValidationErrors {
    pub errors: Vec<FieldError>,
}

impl Violation {
    pub open spec fn model(self) -> ViolationModel {
        match self {
            Violation::TooShort(s) => ViolationModel::TooShort(s@),
            Violation::OutOfRange(n) => ViolationModel::OutOfRange(n as int),
        }
    }
}

impl PersonInput {
    pub open spec fn first_name_ok(self) -> bool {
        self.first_name@.len() >= 1
    }

    pub open spec fn last_name_ok(self) -> bool {
        self.last_name@.len() >= 1
    }

    pub open spec fn age_ok(self) -> bool {
        self.age >= 1
    }

    /// Whether every field meets its rule.
    pub open spec fn is_valid(self) -> bool {
        self.first_name_ok() && self.last_name_ok() && self.age_ok()
    }

    /// The broken rules, keyed by field name, in field order.
    pub open spec fn violations(self) -> Seq<(Seq<char>, ViolationModel)> {
        (if self.first_name_ok() {
            Seq::empty()
        } else {
            seq![("first_name"@, ViolationModel::TooShort(self.first_name@))]
        }) + (if self.last_name_ok() {
            Seq::empty()
        } else {
            seq![("last_name"@, ViolationModel::TooShort(self.last_name@))]
        }) + (if self.age_ok() {
            Seq::empty()
        } else {
            seq![("age"@, ViolationModel::OutOfRange(self.age as int))]
        })
    }

    /// Checks every field rule, collecting all that are broken.
    pub fn validate(&self) -> (r: Result<(), ValidationErrors>)
        ensures
            r is Ok <==> self.is_valid(),
            r is Err ==> r->Err_0.model() == self.violations(),
    {
        let mut errors: Vec<FieldError> = Vec::new();
        if self.first_name.as_str().is_empty() {
            errors.push(
                FieldError {
                    field: "first_name".to_string(),
                    violation: Violation::TooShort(self.first_name.clone()),
                },
            );
        }
        let ghost after_first = errors@;
        if self.last_name.as_str().is_empty() {
            errors.push(
                FieldError {
                    field: "last_name".to_string(),
                    violation: Violation::TooShort(self.last_name.clone()),
                },
            );
        }
        let ghost after_last = errors@;
        if self.age < 1 {
            errors.push(
                FieldError { field: "age".to_string(), violation: Violation::OutOfRange(self.age) },
            );
        }
        let e = ValidationErrors { errors };
        proof {
            assert(e.model() =~= self.violations());
        }
        if e.errors.len() == 0 {
            Ok(())
        } else {
            Err(e)
        }
    }
}

/// The JSON form of a broken rule: its code, and the minimum with the value.
pub open spec fn violation_json(v: ViolationModel) -> JsonModel {
    match v {
        ViolationModel::TooShort(s) => JsonModel::Object(
            seq![
                ("code"@, JsonModel::Str("length"@)),
                ("params"@, JsonModel::Object(
                    seq![("min"@, JsonModel::Number(1)), ("value"@, JsonModel::Str(s))],
                )),
            ],
        ),
        ViolationModel::OutOfRange(n) => JsonModel::Object(
            seq![
                ("code"@, JsonModel::Str("range"@)),
                ("params"@, JsonModel::Object(
                    seq![("min"@, JsonModel::Number(1)), ("value"@, JsonModel::Number(n))],
                )),
            ],
        ),
    }
}

/// The JSON form of a set of broken rules: each field name mapped to the
/// list of its broken rules.
pub open spec fn errors_json(es: Seq<(Seq<char>, ViolationModel)>) -> JsonModel {
    JsonModel::Object(
        Seq::new(es.len(), |i: int| (es[i].0, JsonModel::Array(seq![violation_json(es[i].1)]))),
    )
}

impl ValidationErrors {
    pub open spec fn model(self) -> Seq<(Seq<char>, ViolationModel)> {
        Seq::new(
            self.errors@.len(),
            |i: int| (self.errors@[i].field@, self.errors@[i].violation.model()),
        )
    }

    /// The JSON form of these errors (see `errors_json`).
    pub fn to_json(&self) -> (r: Json)
        ensures
            r.model() == errors_json(self.model()),
    {
        let mut entries: Vec<(String, Json)> = Vec::new();
        let mut i: usize = 0;
        while i < self.errors.len()
            invariant
                i <= self.errors@.len(),
                entries@.len() == i,
                entries_model(entries@) =~= errors_json(self.model())->Object_0.subrange(0, i as int),
            decreases self.errors@.len() - i,
        {
            let fe = &self.errors[i];
            let mut list: Vec<Json> = Vec::new();
            list.push(violation_to_json(&fe.violation));
            proof {
                assert(items_model(list@) =~= seq![violation_json(fe.violation.model())]);
            }
            let ghost before = entries@;
            entries.push((fe.field.clone(), Json::Array(list)));
            proof {
                let target = errors_json(self.model())->Object_0;
                assert(entries_model(entries@)[i as int] == target[i as int]);
                assert(entries_model(entries@).subrange(0, i as int) =~= entries_model(before));
                assert(entries_model(entries@) =~= target.subrange(0, i + 1));
            }
            i += 1;
        }
        proof {
            let target = errors_json(self.model())->Object_0;
            assert(target.subrange(0, i as int) =~= target);
        }
        Json::Object(entries)
    }
}

fn obj(k0: &str, v0: Json, k1: &str, v1: Json) -> (r: Json)
    ensures
        r.model() == JsonModel::Object(seq![(k0@, v0.model()), (k1@, v1.model())]),
{
    let mut es: Vec<(String, Json)> = Vec::new();
    es.push((k0.to_string(), v0));
    es.push((k1.to_string(), v1));
    let r = Json::Object(es);
    proof {
        assert(entries_model(es@) =~= seq![(k0@, v0.model()), (k1@, v1.model())]);
    }
    r
}

fn violation_to_json(v: &Violation) -> (r: Json)
    ensures
        r.model() == violation_json(v.model()),
{
    match v {
        Violation::TooShort(s) => obj(
            "code",
            Json::Str("length".to_string()),
            "params",
            obj("min", Json::Number(1), "value", Json::Str(s.clone())),
        ),
        Violation::OutOfRange(n) => obj(
            "code",
            Json::Str("range".to_string()),
            "params",
            obj("min", Json::Number(1), "value", Json::Number(*n as i64)),
        ),
    }
}

} // verus!
