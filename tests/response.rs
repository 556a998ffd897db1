use simple_fn::envelope::{api_response, is_success, ApiResponse};
use simple_fn::handler::{accept, accept_with_id, finish, Payload, Step};
use simple_fn::json::Json;
use simple_fn::person::Person;
use simple_fn::validate::PersonInput;

fn get<'a>(j: &'a Json, k: &str) -> Option<&'a Json> {
    match j {
        Json::Object(es) => es.iter().find(|e| e.0 == k).map(|e| &e.1),
        _ => None,
    }
}

fn keys(j: &Json) -> Vec<String> {
    match j {
        Json::Object(es) => es.iter().map(|e| e.0.clone()).collect(),
        _ => vec![],
    }
}

fn is_null(j: Option<&Json>) -> bool {
    matches!(j, Some(Json::Null))
}

fn text(j: Option<&Json>) -> Option<String> {
    match j {
        Some(Json::Str(s)) => Some(s.clone()),
        _ => None,
    }
}

fn input(first: &str, last: &str, age: u32) -> PersonInput {
    PersonInput { first_name: first.to_string(), last_name: last.to_string(), age }
}

fn response(s: Step) -> ApiResponse {
    match s {
        Step::Respond(r) => r,
        Step::Store(p) => panic!("unexpected store of {:?}", p),
    }
}

fn envelope_holds(r: &ApiResponse) {
    let ok = (200..=299).contains(&r.status);
    assert!(matches!(get(&r.body, "success"), Some(Json::Bool(b)) if *b == ok));
    assert!(is_null(get(&r.body, "data")) != is_null(get(&r.body, "errors")));
    assert_eq!(r.content_type, "application/json");
}

#[test]
fn success_class_bounds() {
    assert!(!is_success(199));
    assert!(is_success(200));
    assert!(is_success(204));
    assert!(is_success(299));
    assert!(!is_success(300));
    assert!(!is_success(400));
    assert!(!is_success(500));
}

#[test]
fn api_response_success_shape() {
    let r = api_response(200, Json::Str("hi".to_string()));
    assert_eq!(r.status, 200);
    assert_eq!(keys(&r.body), vec!["success", "errors", "data"]);
    assert!(matches!(get(&r.body, "success"), Some(Json::Bool(true))));
    assert!(is_null(get(&r.body, "errors")));
    assert_eq!(text(get(&r.body, "data")), Some("hi".to_string()));
    envelope_holds(&r);
}

#[test]
fn api_response_failure_shape() {
    let r = api_response(404, Json::Str("gone".to_string()));
    assert_eq!(r.status, 404);
    assert_eq!(keys(&r.body), vec!["success", "data", "errors"]);
    assert!(matches!(get(&r.body, "success"), Some(Json::Bool(false))));
    assert!(is_null(get(&r.body, "data")));
    assert_eq!(text(get(&r.body, "errors")), Some("gone".to_string()));
    envelope_holds(&r);
}

#[test]
fn api_response_edge_statuses() {
    envelope_holds(&api_response(299, Json::Number(1)));
    envelope_holds(&api_response(300, Json::Number(1)));
    envelope_holds(&api_response(199, Json::Bool(false)));
}

#[test]
fn empty_first_name_is_rejected_for_that_field_only() {
    let r = response(accept(Payload::Parsed(input("", "Doe", 30))));
    assert_eq!(r.status, 400);
    envelope_holds(&r);
    let errors = get(&r.body, "errors").unwrap();
    assert_eq!(keys(errors), vec!["first_name"]);
}

#[test]
fn zero_age_is_rejected() {
    let r = response(accept(Payload::Parsed(input("Jane", "Doe", 0))));
    assert_eq!(r.status, 400);
    envelope_holds(&r);
    let errors = get(&r.body, "errors").unwrap();
    assert_eq!(keys(errors), vec!["age"]);
    let list = get(errors, "age").unwrap();
    match list {
        Json::Array(items) => {
            assert_eq!(items.len(), 1);
            assert_eq!(text(get(&items[0], "code")), Some("range".to_string()));
        }
        _ => panic!("not a list"),
    }
}

#[test]
fn malformed_body_is_rejected() {
    let r = response(accept(Payload::Malformed("expected value at line 1 column 1".to_string())));
    assert_eq!(r.status, 400);
    assert!(matches!(get(&r.body, "success"), Some(Json::Bool(false))));
    assert!(is_null(get(&r.body, "data")));
    assert_eq!(
        text(get(&r.body, "errors")),
        Some("expected value at line 1 column 1".to_string())
    );
}

#[test]
fn missing_body_is_rejected() {
    let r = response(accept(Payload::Missing));
    assert_eq!(r.status, 400);
    assert_eq!(text(get(&r.body, "errors")), Some("Invalid payload".to_string()));
    envelope_holds(&r);
}

#[test]
fn valid_input_is_stored_then_answered_with_its_id() {
    let id = "01ARZ3NDEKTSV4RRFFQ69G5FAV".to_string();
    let step = accept_with_id(Payload::Parsed(input("Jane", "Doe", 30)), id.clone());
    let p = match step {
        Step::Store(p) => p,
        Step::Respond(r) => panic!("unexpected response {:?}", r),
    };
    let item = p.store_item();
    assert_eq!(item.len(), 4);
    assert_eq!(item[0].0, "id");
    let r = finish(&p, true);
    assert_eq!(r.status, 200);
    envelope_holds(&r);
    let person = get(get(&r.body, "data").unwrap(), "person").unwrap();
    assert_eq!(text(get(person, "id")), Some(id));
    assert_eq!(text(get(person, "first_name")), Some("Jane".to_string()));
    assert_eq!(text(get(person, "last_name")), Some("Doe".to_string()));
    assert!(matches!(get(person, "age"), Some(Json::Number(30))));
}

#[test]
fn accept_gives_a_fresh_id_to_a_valid_input() {
    match accept(Payload::Parsed(input("Jane", "Doe", 30))) {
        Step::Store(p) => {
            assert_eq!(p.id.len(), 26);
            assert_eq!(p.first_name, "Jane");
            assert_eq!(p.age, 30);
        }
        Step::Respond(r) => panic!("unexpected response {:?}", r),
    }
}

#[test]
fn store_failure_gives_fixed_message() {
    let p = Person::with_id("01ARZ3NDEKTSV4RRFFQ69G5FAV".to_string(), input("Jane", "Doe", 30));
    let r = finish(&p, false);
    assert_eq!(r.status, 500);
    envelope_holds(&r);
    assert!(is_null(get(&r.body, "data")));
    assert_eq!(text(get(&r.body, "errors")), Some("Error storing person info".to_string()));
}
