use forum_backend::models::user::Model;
use forum_backend::time::Timestamp;

fn named(username: &str) -> Model {
    Model::new(
        1,
        username.to_string(),
        "a@example.org".to_string(),
        "hash".to_string(),
        Timestamp::new(0, 0).unwrap(),
    )
}

#[test]
fn user_names_need_three_bytes() {
    let short = Err("Username must be at least 3 characters long".to_string());
    assert_eq!(named("").before_save(), short);
    assert_eq!(named("ab").before_save(), short);
    assert_eq!(named("abc").before_save(), Ok(()));
    assert_eq!(named("alice").before_save(), Ok(()));
}

#[test]
fn user_name_length_counts_bytes() {
    assert_eq!(named("\u{e9}\u{e9}").before_save(), Ok(()));
    assert_eq!(named("\u{e9}").before_save(), Err("Username must be at least 3 characters long".to_string()));
}
