use forum_backend::error::AppError;
use forum_backend::validation::{validation_error, FieldFault, FieldReport};

fn field(name: &str, messages: &[&str]) -> FieldReport {
    FieldReport {
        field: name.to_string(),
        fault: FieldFault::Field(messages.iter().map(|m| m.to_string()).collect()),
    }
}

fn nested(name: &str) -> FieldReport {
    FieldReport { field: name.to_string(), fault: FieldFault::Struct }
}

fn list(name: &str, positions: &[usize]) -> FieldReport {
    FieldReport { field: name.to_string(), fault: FieldFault::List(positions.to_vec()) }
}

fn detail(reports: Vec<FieldReport>) -> String {
    match validation_error(&reports) {
        AppError::ValidationError(detail) => detail,
        other => panic!("not a validation error: {:?}", other),
    }
}

#[test]
fn no_findings_give_an_empty_detail() {
    assert_eq!(detail(Vec::new()), "");
}

#[test]
fn messages_of_a_field_are_joined_by_commas() {
    assert_eq!(detail(vec![field("username", &["too short"])]), "username: too short");
    assert_eq!(
        detail(vec![field("password", &["too short", "too common", "no digit"])]),
        "password: too short, too common, no digit"
    );
    assert_eq!(detail(vec![field("email", &[])]), "email: ");
}

#[test]
fn fields_are_separated_by_semicolons() {
    assert_eq!(
        detail(vec![field("username", &["too short"]), field("email", &["not an address"])]),
        "username: too short; email: not an address"
    );
}

#[test]
fn nested_structures_and_lists_come_after_the_fields() {
    assert_eq!(
        detail(vec![
            nested("profile"),
            field("name", &["empty"]),
            list("tags", &[0, 12, 345]),
            field("bio", &["too long"]),
        ]),
        "name: empty; bio: too long; Struct profile: Invalid; tags[0]: Invalid; tags[12]: Invalid; tags[345]: Invalid"
    );
    assert_eq!(detail(vec![nested("profile")]), "Struct profile: Invalid");
    assert_eq!(detail(vec![list("tags", &[])]), "");
    assert_eq!(detail(vec![list("tags", &[usize::MAX])]), format!("tags[{}]: Invalid", usize::MAX));
}

#[test]
fn every_trailing_separator_is_dropped() {
    assert_eq!(detail(vec![field("note", &["odd; "])]), "note: odd");
    assert_eq!(detail(vec![field("note", &["odd;"])]), "note: odd;");
    assert_eq!(detail(vec![field("", &[""])]), ": ");
}
