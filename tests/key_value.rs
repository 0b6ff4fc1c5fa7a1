use motor_link::keyvalue::{find_value, parse_str};

#[test]
fn value_of_key() {
    assert_eq!(parse_str::<u32>("a=1;b=2", "b"), Some(2));
    assert_eq!(parse_str::<u32>("a=1;b=2", "a"), Some(1));
    assert_eq!(parse_str::<i32>(" speed =-40;x=1", "speed"), Some(-40));
}

#[test]
fn key_is_trimmed_value_is_not() {
    assert_eq!(find_value("\u{3000}k\t=5", "k"), Some("5"));
    assert_eq!(find_value("k= 5", "k"), Some(" 5"));
    assert_eq!(parse_str::<u32>("k= 5", "k"), None);
}

#[test]
fn first_match_wins() {
    assert_eq!(find_value("k=1;k=2", "k"), Some("1"));
    assert_eq!(find_value("k=a=b", "k"), Some("a=b"));
}

#[test]
fn missing_key_or_value() {
    assert_eq!(find_value("a=1;b=2", "c"), None);
    assert_eq!(find_value("a;b=2", "a"), None);
    assert_eq!(find_value("", "a"), None);
    assert_eq!(parse_str::<String>("name=motor é", "name"), Some("motor é".to_string()));
    assert_eq!(parse_str::<u8>("v=300", "v"), None);
}
