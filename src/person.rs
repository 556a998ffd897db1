//! The stored person record.
use vstd::prelude::*;
use crate::json::{Json, JsonModel, entries_model};
use crate::validate::PersonInput;

verus! {

/// A stored person, keyed by a generated identifier.
#[derive(Debug, PartialEq, Eq)]
pub struct Person {
    pub id: String,
    pub first_name: String,
    pub last_name: String,
    pub age: u32,
}

/// A value written to the store: text, or a number in decimal text.
#[derive(Debug, PartialEq, Eq)]
pub enum Attribute {
    S(String),
    N(String),
}

/// The mathematical value of an `Attribute`.
pub enum AttributeModel {
    S(Seq<char>),
    N(Seq<char>),
}

impl Attribute {
    pub open spec fn model(self) -> AttributeModel {
        match self {
            Attribute::S(s) => AttributeModel::S(s@),
            Attribute::N(s) => AttributeModel::N(s@),
        }
    }
}

/// The mathematical value of a list of named attributes.
pub open spec fn item_seq_model(s: Seq<(String, Attribute)>) -> Seq<(Seq<char>, AttributeModel)> {
    Seq::new(s.len(), |i: int| (s[i].0@, s[i].1.model()))
}

/// The alphabet of an identifier: Crockford's base 32 digits.
pub open spec fn id_alphabet() -> Seq<char> {
    seq![
        '0', '1', '2', '3', '4', '5', '6', '7', '8', '9', 'A', 'B', 'C', 'D', 'E', 'F',
        'G', 'H', 'J', 'K', 'M', 'N', 'P', 'Q', 'R', 'S', 'T', 'V', 'W', 'X', 'Y', 'Z',
    ]
}

/// Whether `s` has the shape of a generated identifier: 26 base 32 digits.
pub open spec fn is_id_text(s: Seq<char>) -> bool {
    &&& s.len() == 26
    &&& forall|i: int| 0 <= i < s.len() ==> id_alphabet().contains(#[trigger] s[i])
}

/// The decimal digit for `d`, below ten.
pub open spec fn digit_char(d: nat) -> char {
    seq!['0', '1', '2', '3', '4', '5', '6', '7', '8', '9'][d as int]
}

/// The decimal digits of `n`, most significant first, without leading zeros.
pub open spec fn decimal(n: nat) -> Seq<char>
    decreases n,
{
    if n < 10 {
        seq![digit_char(n)]
    } else {
        decimal(n / 10).push(digit_char(n % 10))
    }
}

/// Relies on `ulid::Ulid::new` and `Ulid::to_string`: a fresh identifier from
/// the clock and a random source, written as 26 Crockford base 32 digits.
#[verifier::external_body]
fn fresh_id() -> (r: String)
    ensures
        is_id_text(r@),
{
    ulid::Ulid::new().to_string()
}

/// Relies on `u32::to_string`: the decimal digits of `n`.
#[verifier::external_body]
fn decimal_text(n: u32) -> (r: String)
    ensures
        r@ == decimal(n as nat),
{
    n.to_string()
}

impl Person {
    /// The person with identifier `id` and the fields of `input`.
    pub fn with_id(id: String, input: PersonInput) -> (p: Person)
        ensures
            p.id@ == id@,
            p.first_name@ == input.first_name@,
            p.last_name@ == input.last_name@,
            p.age == input.age,
    {
        Person { id, first_name: input.first_name, last_name: input.last_name, age: input.age }
    }

    /// The person with the fields of `input` and a freshly generated
    /// identifier.
    pub fn from_input(input: PersonInput) -> (p: Person)
        ensures
            is_id_text(p.id@),
            p.first_name@ == input.first_name@,
            p.last_name@ == input.last_name@,
            p.age == input.age,
    {
        Person::with_id(fresh_id(), input)
    }

    /// The JSON form: `{id, first_name, last_name, age}`.
    pub open spec fn json_model(self) -> JsonModel {
        JsonModel::Object(
            seq![
                ("id"@, JsonModel::Str(self.id@)),
                ("first_name"@, JsonModel::Str(self.first_name@)),
                ("last_name"@, JsonModel::Str(self.last_name@)),
                ("age"@, JsonModel::Number(self.age as int)),
            ],
        )
    }

    /// The attributes written to the store, under their stored names.
    pub open spec fn item_model(self) -> Seq<(Seq<char>, AttributeModel)> {
        seq![
            ("id"@, AttributeModel::S(self.id@)),
            ("firstName"@, AttributeModel::S(self.first_name@)),
            ("lastName"@, AttributeModel::S(self.last_name@)),
            ("age"@, AttributeModel::N(decimal(self.age as nat))),
        ]
    }

    /// The attributes to write to the store (see `item_model`).
    pub fn store_item(&self) -> (r: Vec<(String, Attribute)>)
        ensures
            item_seq_model(r@) == self.item_model(),
    {
        let mut r: Vec<(String, Attribute)> = Vec::new();
        r.push(("id".to_string(), Attribute::S(self.id.clone())));
        r.push(("firstName".to_string(), Attribute::S(self.first_name.clone())));
        r.push(("lastName".to_string(), Attribute::S(self.last_name.clone())));
        r.push(("age".to_string(), Attribute::N(decimal_text(self.age))));
        proof {
            assert(item_seq_model(r@) =~= self.item_model());
        }
        r
    }

    /// The JSON form of this person (see `json_model`).
    pub fn to_json(&self) -> (r: Json)
        ensures
            r.model() == self.json_model(),
    {
        let mut es: Vec<(String, Json)> = Vec::new();
        es.push(("id".to_string(), Json::Str(self.id.clone())));
        es.push(("first_name".to_string(), Json::Str(self.first_name.clone())));
        es.push(("last_name".to_string(), Json::Str(self.last_name.clone())));
        es.push(("age".to_string(), Json::Number(self.age as i64)));
        let r = Json::Object(es);
        proof {
            assert(entries_model(es@) =~= self.json_model()->Object_0);
        }
        r
    }
}

} // verus!
