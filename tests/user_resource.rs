use rest_demo::server::user;
use rest_demo::server::user::{User, UserAttributes, UserQSParameters, UserTuple};
use rest_demo::substring;

fn query(name_contains: &str, email_contains: &str) -> UserQSParameters {
    UserQSParameters::with_defaults(Some(name_contains.to_string()), Some(email_contains.to_string()))
}

#[test]
fn create_user_demo() {
    let rt = user::create_user_demo();
    assert!(rt.contains("User created successfully"), "response doesn't contain expected <{}>", "User created successfully");
    assert!(rt.contains("successfully"), "response doesn't contain expected <{}>", "successfully");
}

#[test]
fn list_users() {
    let expected = ["Elijah", "John"];
    let rt = user::list_users().users;
    assert!(rt.len() > 0, "response not long enough");
    assert!(rt[0].name == expected[0]);
    assert!(rt[1].name == expected[1]);
}

#[test]
fn create_user() {
    let post_body = UserAttributes::new("foo", "bar");
    let expected = User::new(42, "foo", "bar");
    let rt = user::create_user(post_body);
    assert!(rt == expected);
}

#[test]
fn filter_users_no_filters() {
    let rt = UserTuple(user::filter_users(&UserQSParameters::with_defaults(None, None)));
    assert!(rt == user::sample_user_tuple());
}

#[test]
fn filter_users_noop_filter() {
    let rt = UserTuple(user::filter_users(&UserQSParameters::with_defaults(None, Some(String::new()))));
    assert!(rt == user::sample_user_tuple());
}

#[test]
fn filter_users_noop_filter_name() {
    let rt = UserTuple(user::filter_users(&UserQSParameters::with_defaults(Some(String::new()), None)));
    assert!(rt == user::sample_user_tuple());
}

#[test]
#[should_panic]
fn filter_users() {
    let rt = UserTuple(user::filter_users(&UserQSParameters::with_defaults(None, Some("aa".to_string()))));
    assert!(rt == user::sample_user_tuple());
}

#[test]
fn filter_users_selects_name() {
    let rt = UserTuple(user::filter_users(&query("Jo", "")));
    let expected = UserTuple(vec![User { id: 2, name: "John".into(), email: "john@doe.com".into() }]);
    assert!(rt == expected);
}

#[test]
fn test_contains() {
    assert!(substring::contains("abc", "b"));
    assert!(substring::contains("abc", "bc"));
    assert!(substring::contains("abc", ""));
}

#[test]
fn contains_rejects_absent_and_longer_patterns() {
    assert!(!substring::contains("abc", "ac"));
    assert!(!substring::contains("abc", "abcd"));
    assert!(!substring::contains("", "a"));
    assert!(substring::contains("", ""));
    assert!(substring::contains("héllo", "éll"));
}

#[test]
fn create_keeps_arbitrary_attributes() {
    let rt = user::create_user(UserAttributes::new("", "x@y"));
    assert_eq!(rt, User::new(42, "", "x@y"));
}

#[test]
fn read_user_has_empty_fields() {
    assert_eq!(user::read_user(7), User::new(7, "", ""));
    assert_eq!(user::read_user(u64::MAX), User::new(u64::MAX, "", ""));
}

#[test]
fn update_user_discards_body_id() {
    let body = User::new(99, "Ann", "ann@example.com");
    assert_eq!(user::update_user(5, body), User::new(5, "Ann", "ann@example.com"));
}

#[test]
fn delete_user_returns_id() {
    assert_eq!(user::delete_user(0), 0);
    assert_eq!(user::delete_user(123), 123);
}

#[test]
fn filter_empty_query_gives_sample_set_in_order() {
    let rt = user::filter_users(&query("", ""));
    assert_eq!(rt.len(), 2);
    assert_eq!(rt[0], User::new(1, "Elijah", "elijah@example.com"));
    assert_eq!(rt[1], User::new(2, "John", "john@doe.com"));
}

#[test]
fn filter_by_email_excludes_all() {
    let rt = user::filter_users(&query("", "aa"));
    assert!(rt.is_empty());
}

#[test]
fn filter_by_both_fields() {
    let rt = user::filter_users(&query("li", "example"));
    assert_eq!(rt, vec![User::new(1, "Elijah", "elijah@example.com")]);
    let rt = user::filter_users(&query("li", "doe"));
    assert!(rt.is_empty());
}

#[test]
fn missing_fields_take_defaults() {
    let attrs = UserAttributes::with_defaults(None, None);
    assert_eq!(attrs, UserAttributes::new("", ""));
    let u = User::with_defaults(None, None, None);
    assert_eq!(u, User::new(42, "", ""));
    let u = User::with_defaults(Some(3), Some("a".to_string()), None);
    assert_eq!(u, User::new(3, "a", ""));
    assert_eq!(user::def_id(), 42);
    assert_eq!(user::def_str(), "");
}

#[test]
fn list_and_filter_are_repeatable() {
    let a = user::list_users().users;
    let b = user::list_users().users;
    assert_eq!(a, b);
    let c = user::filter_users(&query("", ""));
    let d = user::filter_users(&query("", ""));
    assert_eq!(c, d);
    assert_eq!(a, c);
}

#[test]
fn settings_defaults() {
    let s = rest_demo::settings::Settings::default();
    assert_eq!(s.main.level, "error");
    assert_eq!(s.server.addr, "0.0.0.0:3001");
}
