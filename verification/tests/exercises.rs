use basics::branches::{pick, report, LIMIT};
use basics::enums::{
    do_something_with_enum, do_something_with_enum_with_placeholder, do_something_with_option,
    Message,
};
use basics::loops::countdown;
use basics::structs::Rectangle;
use basics::vectors::{count_up, drop_ends, lookup};

#[test]
fn report_compares_with_five() {
    assert_eq!(LIMIT, 5);
    assert_eq!(report(3), "condition was true");
    assert_eq!(report(4), "condition was true");
    assert_eq!(report(5), "condition was false");
    assert_eq!(report(6), "condition was false");
    assert_eq!(report(i32::MIN), "condition was true");
    assert_eq!(report(i32::MAX), "condition was false");
}

#[test]
fn pick_is_five_or_six() {
    assert_eq!(pick(true), 5);
    assert_eq!(pick(false), 6);
}

#[test]
fn each_variant_has_its_arm() {
    assert_eq!(do_something_with_enum(Message::Quit), "gone into quit");
    assert_eq!(do_something_with_enum(Message::Move { x: 1, y: 2 }), "gone into move");
    assert_eq!(do_something_with_enum(Message::Write(String::from("string"))), "gone into write");
    assert_eq!(do_something_with_enum(Message::ChangeColor(1, 2, 3)), "gone into change colour");
}

#[test]
fn placeholder_takes_all_but_quit() {
    assert_eq!(do_something_with_enum_with_placeholder(Message::Quit), "gone into quit");
    assert_eq!(
        do_something_with_enum_with_placeholder(Message::Move { x: 1, y: 2 }),
        "I have gone into the placeholder"
    );
    assert_eq!(
        do_something_with_enum_with_placeholder(Message::Write(String::new())),
        "I have gone into the placeholder"
    );
    assert_eq!(
        do_something_with_enum_with_placeholder(Message::ChangeColor(0, 0, 0)),
        "I have gone into the placeholder"
    );
}

#[test]
fn option_is_present_or_absent() {
    assert_eq!(do_something_with_option(None), "did nothing");
    assert_eq!(do_something_with_option(Some(String::from("String"))), "did something");
    assert_eq!(do_something_with_option(Some(String::new())), "did something");
}

#[test]
fn message_prints_and_takes_a_method_call() {
    let written = Message::Write(String::from("string"));
    written.some_method("string");
    assert_eq!(format!("{:?}", written), "Write(\"string\")");
    assert_eq!(format!("{:?}", Message::Quit), "Quit");
    assert_eq!(format!("{:?}", Message::Move { x: 1, y: 2 }), "Move { x: 1, y: 2 }");
    assert_eq!(format!("{:?}", Message::ChangeColor(1, 2, 3)), "ChangeColor(1, 2, 3)");
}

#[test]
fn area_is_width_times_height() {
    assert_eq!(Rectangle { width: 30, height: 30 }.area(), 900);
    assert_eq!(Rectangle { width: 20, height: 100 }.area(), 2000);
    assert_eq!(Rectangle { width: 0, height: 7 }.area(), 0);
    assert_eq!(Rectangle { width: 65535, height: 65537 }.area(), u32::MAX);
}

#[test]
fn square_has_equal_sides() {
    let square = Rectangle::square(40);
    assert_eq!(square.width, 40);
    assert_eq!(square.height, 40);
    assert_eq!(square.area(), 1600);
}

#[test]
fn can_hold_measures_against_the_width() {
    let rectangle = Rectangle { width: 30, height: 30 };
    assert!(rectangle.can_hold(&Rectangle { width: 20, height: 100 }));
    assert!(rectangle.can_hold(&Rectangle { width: 29, height: 29 }));
    assert!(!rectangle.can_hold(&Rectangle { width: 30, height: 1 }));
    assert!(!rectangle.can_hold(&Rectangle { width: 31, height: 1 }));
    assert!(!Rectangle { width: 30, height: 20 }.can_hold(&Rectangle { width: 20, height: 1 }));
    assert!(!Rectangle { width: 20, height: 30 }.can_hold(&Rectangle { width: 20, height: 1 }));
}

#[test]
fn countdown_from_three() {
    assert_eq!(countdown(3), vec![3, 2, 1]);
}

#[test]
fn countdown_from_zero_and_one() {
    assert_eq!(countdown(0), Vec::<u32>::new());
    assert_eq!(countdown(1), vec![1]);
}

#[test]
fn countdown_matches_a_reversed_range() {
    for from in 0..50u32 {
        let expected: Vec<u32> = (1..from + 1).rev().collect();
        assert_eq!(countdown(from), expected);
    }
}

#[test]
fn count_up_pushes_one_to_count() {
    assert_eq!(count_up(3), vec![1, 2, 3]);
    assert_eq!(count_up(5), vec![1, 2, 3, 4, 5]);
    assert_eq!(count_up(0), Vec::<i32>::new());
    assert_eq!(count_up(-3), Vec::<i32>::new());
    assert_eq!(count_up(i32::MIN), Vec::<i32>::new());
}

#[test]
fn strip_drops_the_last_then_the_first() {
    let mut numbers = count_up(3);
    drop_ends(&mut numbers);
    assert_eq!(numbers, vec![2]);
    let mut pair = vec![8, 9];
    drop_ends(&mut pair);
    assert_eq!(pair, Vec::<i32>::new());
    let mut longer = vec![5, 6, 7, 8, 9];
    drop_ends(&mut longer);
    assert_eq!(longer, vec![6, 7, 8]);
}

#[test]
fn lookup_finds_what_is_there() {
    let numbers = count_up(4);
    assert_eq!(lookup(&numbers, 0), Some(1));
    assert_eq!(lookup(&numbers, 3), Some(4));
    assert_eq!(lookup(&numbers, 4), None);
    assert_eq!(lookup(&numbers, 100), None);
    assert_eq!(lookup(&Vec::new(), 0), None);
}
