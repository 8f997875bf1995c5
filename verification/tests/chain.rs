use chained_error::custom_error::BetterError;
use chained_error::custom_error::ErrorMessage;
use chained_error::custom_error::dumb_error_type;

#[test]
fn describe_without_cause_is_message() {
    let e = BetterError::new(String::from("file not found"), None);
    assert_eq!(e.describe(), "file not found");
}

#[test]
fn describe_with_one_cause_joins_with_separator() {
    let root = BetterError::new(String::from("file not found"), None);
    let top = BetterError::new(String::from("failed to load config"), Some(root));
    assert_eq!(top.describe(), "failed to load config: file not found");
}

#[test]
fn describe_unwinds_whole_chain() {
    let root = BetterError::new(String::from("file not found"), None);
    let mid = BetterError::new(String::from("failed to load config"), Some(root));
    let top = BetterError::new(String::from("startup failed"), Some(mid));
    assert_eq!(top.describe(), "startup failed: failed to load config: file not found");
}

#[test]
fn walking_causes_preserves_depth() {
    let root = BetterError::new(String::from("file not found"), None);
    let mid = BetterError::new(String::from("failed to load config"), Some(root));
    let top = BetterError::new(String::from("startup failed"), Some(mid));
    assert_eq!(top.message(), "startup failed");
    let first = top.cause();
    assert!(first.is_some());
    assert_eq!(first.unwrap().message(), "failed to load config");
    let second = first.unwrap().cause();
    assert!(second.is_some());
    assert_eq!(second.unwrap().message(), "file not found");
    let third = second.unwrap().cause();
    assert!(third.is_none());
}

#[test]
fn describe_is_deterministic() {
    let root = BetterError::new(String::from("disk error"), None);
    let top = BetterError::new(String::from("write failed"), Some(root));
    let first = top.describe();
    let second = top.describe();
    assert_eq!(first, second);
}

#[test]
fn construction_accepts_empty_message() {
    let e = BetterError::new(String::new(), None);
    assert_eq!(e.describe(), "");
    let wrapped = BetterError::new(String::new(), Some(e));
    assert_eq!(wrapped.describe(), ": ");
}

#[test]
fn error_message_describes_verbatim() {
    let e = ErrorMessage(String::from("something broke"));
    assert_eq!(e.describe(), "something broke");
}

#[test]
fn dumb_error_is_a_bare_number() {
    assert_eq!(dumb_error_type(), Err(1u64));
}
