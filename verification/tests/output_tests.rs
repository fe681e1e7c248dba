use scenarios::choices::{
    color_name, direction_message, greeting, is_big, size_message, Color, Direction,
};
use scenarios::coordinate::{coordinate, y_message};
use scenarios::drink::{drink_lines, flavor_line, oz_line, Drink, Flavor};
use scenarios::names::name_reply;
use scenarios::runner::{run, Scenario};
use scenarios::tuples::{one_two_three, pair_line};

#[test]
fn threshold_boundary_is_small() {
    let value: i32 = 100;
    let gt_100 = is_big(value);
    assert!(!gt_100);
    assert_eq!(size_message(gt_100), "it's small");
}

#[test]
fn threshold_above_is_big() {
    assert!(is_big(101));
    assert_eq!(size_message(true), "it's big");
}

#[test]
fn greeting_messages() {
    assert_eq!(greeting(true), "hello");
    assert_eq!(greeting(false), "goodbye");
}

#[test]
fn direction_messages() {
    assert_eq!(direction_message(Direction::Left), "go left");
    assert_eq!(direction_message(Direction::Right), "go right");
}

#[test]
fn color_names() {
    assert_eq!(color_name(Color::Blue), "blue");
    assert_eq!(color_name(Color::Red), "red");
    assert_eq!(color_name(Color::Yellow), "yellow");
}

#[test]
fn drink_sweet_six_ounces() {
    let sweet = Drink { flavor: Flavor::Sweet, tenths_oz: 60 };
    let lines = drink_lines(&sweet);
    assert_eq!(lines, vec!["flavor: sweet".to_string(), "OZ: 6.0".to_string()]);
}

#[test]
fn drink_fruity_seven_ounces() {
    let fruity = Drink { flavor: Flavor::Fruity, tenths_oz: 70 };
    let lines = drink_lines(&fruity);
    assert_eq!(lines, vec!["flavor: fruity".to_string(), "OZ: 7.0".to_string()]);
}

#[test]
fn drink_sparking_flavor_line() {
    assert_eq!(flavor_line(Flavor::Sparking), "flavor: sparking");
}

#[test]
fn oz_line_fractional() {
    assert_eq!(oz_line(123), "OZ: 12.3");
    assert_eq!(oz_line(0), "OZ: 0.0");
    assert_eq!(oz_line(7), "OZ: 0.7");
}

#[test]
fn coordinate_is_fixed() {
    assert_eq!(coordinate(), (1, 7));
}

#[test]
fn y_value_classification() {
    assert_eq!(y_message(7), ">5");
    assert_eq!(y_message(5), "=5");
    assert_eq!(y_message(3), "<5");
    assert_eq!(y_message(-10), "<5");
}

#[test]
fn name_replies() {
    assert_eq!(name_reply("Bob"), "not my name");
    assert_eq!(name_reply("Jayson"), "that is my name");
    assert_eq!(name_reply("Alice"), "hello alice");
}

#[test]
fn name_fallback() {
    assert_eq!(name_reply("Zoe"), "nice to meet you!");
    assert_eq!(name_reply(""), "nice to meet you!");
    assert_eq!(name_reply("bob"), "nice to meet you!");
}

#[test]
fn triple_is_fixed() {
    assert_eq!(one_two_three(), (1, 2, 3));
}

#[test]
fn pair_lines() {
    assert_eq!(pair_line(2, 3), "2, 3");
    assert_eq!(pair_line(1, 1), "1, 1");
    assert_eq!(pair_line(-4, 10), "-4, 10");
}

#[test]
fn run_threshold() {
    assert_eq!(run(Scenario::Threshold), vec!["it's small".to_string()]);
}

#[test]
fn run_greeting() {
    assert_eq!(run(Scenario::Greeting), vec!["hello".to_string()]);
}

#[test]
fn run_direction() {
    assert_eq!(run(Scenario::Direction), vec!["go left".to_string()]);
}

#[test]
fn run_color() {
    assert_eq!(run(Scenario::Color), vec!["blue".to_string()]);
}

#[test]
fn run_drink() {
    assert_eq!(
        run(Scenario::Drink),
        vec![
            "flavor: sweet".to_string(),
            "OZ: 6.0".to_string(),
            "flavor: fruity".to_string(),
            "OZ: 7.0".to_string(),
        ]
    );
}

#[test]
fn run_coordinate() {
    assert_eq!(run(Scenario::Coordinate), vec![">5".to_string()]);
}

#[test]
fn run_name_match() {
    assert_eq!(run(Scenario::NameMatch), vec!["not my name".to_string()]);
}

#[test]
fn run_tuples() {
    assert_eq!(
        run(Scenario::Tuples),
        vec![
            "1, 1".to_string(),
            "2, 2".to_string(),
            "3, 3".to_string(),
            "2, 3".to_string(),
            "2, 3".to_string(),
        ]
    );
}

#[test]
fn rerun_is_byte_identical() {
    let all = [
        Scenario::Threshold,
        Scenario::Greeting,
        Scenario::Direction,
        Scenario::Color,
        Scenario::Drink,
        Scenario::Coordinate,
        Scenario::NameMatch,
        Scenario::Tuples,
    ];
    for s in all {
        let first = run(s);
        let second = run(s);
        assert_eq!(first, second);
    }
}
