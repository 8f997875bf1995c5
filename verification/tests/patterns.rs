use chained_error::Foo;
use chained_error::enums_with_and_without_data::example;
use chained_error::question_mark_into_call::returns_error_type_one;
use chained_error::question_mark_into_call::returns_error_type_two;
use chained_error::some_trait::ClashingTrait;
use chained_error::tuple_structs::Color;
use chained_error::tuple_structs::Point;
use chained_error::tuple_structs::use_color;
use chained_error::tuple_structs::use_point;
use chained_error::user::User;
use chained_error::user::build_user;
use chained_error::user::increment_sign_in_count;
use chained_error::user::no_shorthand;
use chained_error::user::shorthand;
use chained_error::utils::frobincators::frobnicate;
use chained_error::x::X;

#[test]
fn test() {
    X {};
}

#[test]
fn constructors_build_the_same_user() {
    let a = build_user(String::from("a@b.c"), String::from("ab"));
    let b = User::new(String::from("a@b.c"), String::from("ab"));
    let c = no_shorthand(String::from("a@b.c"), String::from("ab"));
    let d = shorthand(String::from("a@b.c"), String::from("ab"));
    assert_eq!(a.email, b.email);
    assert_eq!(b.email, c.email);
    assert_eq!(c.email, d.email);
    assert_eq!(a.username, d.username);
    assert!(a.active && b.active && c.active && d.active);
    assert_eq!(a.sign_in_count, 1);
    assert_eq!(d.sign_in_count, 1);
}

#[test]
fn increment_keeps_other_fields() {
    let user = build_user(String::from("a@b.c"), String::from("ab"));
    let bumped = increment_sign_in_count(user);
    assert_eq!(bumped.sign_in_count, 2);
    assert_eq!(bumped.email, "a@b.c");
    assert_eq!(bumped.username, "ab");
    assert!(bumped.active);
}

#[test]
fn point_and_color_read_back_their_fields() {
    let point = Point(1, 2, 3);
    let color = Color(4, 5, 6);
    assert_eq!(use_point(&point), (1, 2, 3));
    assert_eq!(use_color(&color), (4, 5, 6));
}

#[test]
fn example_matches_the_inline_fields_arm() {
    assert_eq!(example(), 2);
}

#[test]
fn foo_reports_its_name() {
    let x = Foo;
    assert_eq!(x.foo(), "foo");
}

#[test]
fn option_foo_reports_none_only_when_empty() {
    let none: Option<u64> = None;
    let some: Option<u64> = Some(7);
    assert_eq!(none.foo(), "none");
    assert_eq!(some.foo(), "");
}

#[test]
fn question_mark_converts_the_error() {
    assert!(returns_error_type_one().is_err());
    assert!(returns_error_type_two().is_err());
}

#[test]
fn frobnicate_runs() {
    frobnicate();
}
