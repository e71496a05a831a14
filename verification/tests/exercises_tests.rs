//! The smaller exercises, each on concrete values.

use bookwork::coins::{value_in_cents, Coin, UsState};
use bookwork::company::{parse_add_request, Company};
use bookwork::generics::{find_nth, find_nth2, largest, largest2, largest_char, largest_i32,
    longest, longest2, ImportantExcerpt, Point, Point2};
use bookwork::gui::{Button, Draw, Screen};
use bookwork::mylist::List;
use bookwork::numbers::fib;
use bookwork::rectangles::Rectangle;
use bookwork::restaurant;
use bookwork::restaurant::back_of_house::Breakfast;
use bookwork::shirts::{Inventory, ShirtColor};
use bookwork::strings::{add_suffix, first_word, get_or_default2, get_or_default3,
    get_or_default4, pig_latinize, str_eq};
use bookwork::workout::{workout_plan, WorkoutPlan};

#[test]
fn rectangles_hold_and_measure() {
    let rect1 = Rectangle { width: 30, height: 50 };
    let rect2 = Rectangle { width: 10, height: 40 };
    let rect3 = Rectangle { width: 60, height: 45 };

    assert!(rect1.can_hold(&rect2));
    assert!(!rect1.can_hold(&rect3));
    assert_eq!(rect1.area(), 1500);

    let square = Rectangle::square(7);
    assert_eq!(square.area(), 49);

    let mut resized = Rectangle { width: 1, height: 2 };
    resized.set_width(9);
    assert_eq!(resized.area(), 18);

    let max_rect = rect1.max(rect3);
    assert_eq!(max_rect.width, 60);
    assert_eq!(max_rect.height, 50);
}

#[test]
fn fib_walks_the_sequence() {
    let expected = [0u32, 1, 1, 2, 3, 5, 8, 13, 21, 34, 55];
    let mut i = 0u32;
    while (i as usize) < expected.len() {
        assert_eq!(fib(i), expected[i as usize]);
        i += 1;
    }
}

#[test]
fn first_words_stop_at_separators() {
    assert_eq!(first_word("hello, i am a sentence"), "hello");
    assert_eq!(first_word("hello world"), "hello");
    assert_eq!(first_word("oneword"), "oneword");
    assert_eq!(first_word(""), "");
    assert_eq!(first_word(".leading"), "");
}

#[test]
fn suffixes_and_defaults() {
    assert_eq!(add_suffix(String::from("Ferris")), "Ferris Jr.");
    assert_eq!(get_or_default2(&Some(String::from("a"))), "a");
    assert_eq!(get_or_default2(&None), "");
    let mut arg = Some(String::from("b"));
    assert_eq!(get_or_default3(&mut arg), "b");
    assert_eq!(arg, Some(String::from("b")));
    assert_eq!(get_or_default4(&Some("c")), "c");
    assert_eq!(get_or_default4(&None), "");
    assert!(str_eq("same", "same"));
    assert!(!str_eq("same", "sane"));
    assert!(!str_eq("same", "sam"));
}

#[test]
fn pig_latin_follows_the_first_letter() {
    assert_eq!(pig_latinize(&String::from("apple")), "apple-hay");
    assert_eq!(pig_latinize(&String::from("word")), "Ord-way");
    assert_eq!(pig_latinize(&String::from("Ubiquity")), "Biquity-uay");
    assert_eq!(pig_latinize(&String::from("7th")), "7Th");
    assert_eq!(pig_latinize(&String::from("")), "");
    assert_eq!(pig_latinize(&String::from("b")), "-bay");
}

#[test]
fn largest_of_each_kind() {
    let numbers = vec![34, 50, 25, 100, 65];
    assert_eq!(*largest(&numbers), 100);
    assert_eq!(*largest_i32(&numbers), 100);
    let chars = vec!['y', 'm', 'a', 'q'];
    assert_eq!(*largest_char(&chars), 'y');
    assert_eq!(*largest2(&numbers), 100);
}

#[test]
fn longest_prefers_more_bytes() {
    assert_eq!(longest("abcd", "xyz"), "abcd");
    assert_eq!(longest("ab", "xyz"), "xyz");
    assert_eq!(longest("ab", "xy"), "xy");
    assert_eq!(longest2("abcd", "xyz"), "abcd");
}

#[test]
fn points_mix_and_tell() {
    let integer = Point { x: 5, y: 10 };
    assert_eq!(*integer.x(), 5);
    assert_eq!(integer.y, 10);

    let will_work = Point2 { x: 5, y: 4u8 };
    let p2 = Point2 { x: "Hello", y: 'c' };
    let p3 = will_work.mixup(p2);
    assert_eq!(p3.x, 5);
    assert_eq!(p3.y, 'c');

    let novel = String::from("Call me Ishmael. Some years ago...");
    let first_sentence = novel.split('.').next().expect("Could not find a '.'");
    let excerpt = ImportantExcerpt { part: first_sentence };
    assert_eq!(excerpt.level(), 3);
    assert_eq!(excerpt.part, "Call me Ishmael");
}

#[test]
fn ranks_come_from_the_sorted_order() {
    let values = [9, 1, 7, 3, 3];
    assert_eq!(find_nth(&values, 0), 1);
    assert_eq!(find_nth(&values, 2), 3);
    assert_eq!(find_nth(&values, 4), 9);
    assert_eq!(find_nth2(&values, 1), 3);
    assert_eq!(find_nth2(&values, 3), 7);
}

#[test]
fn coins_are_worth_their_cents() {
    assert_eq!(value_in_cents(Coin::Penny), 1);
    assert_eq!(value_in_cents(Coin::Nickel), 5);
    assert_eq!(value_in_cents(Coin::Dime), 10);
    assert_eq!(value_in_cents(Coin::Quarter(UsState::Alaska)), 25);
}

#[test]
fn giveaways_follow_preference_then_stock() {
    let store = Inventory {
        shirts: vec![ShirtColor::Blue, ShirtColor::Red, ShirtColor::Blue],
    };

    assert_eq!(store.giveaway(Some(ShirtColor::Red)), ShirtColor::Red);
    assert_eq!(store.giveaway(None), ShirtColor::Blue);

    let reds = Inventory { shirts: vec![ShirtColor::Red, ShirtColor::Red, ShirtColor::Blue] };
    assert_eq!(reds.most_stocked(), ShirtColor::Red);
    let empty = Inventory { shirts: vec![] };
    assert_eq!(empty.most_stocked(), ShirtColor::Blue);
}

#[test]
fn workouts_follow_intensity_and_luck() {
    assert_eq!(workout_plan(10, 7), WorkoutPlan::Exercises(10));
    assert_eq!(workout_plan(30, 3), WorkoutPlan::Rest);
    assert_eq!(workout_plan(30, 7), WorkoutPlan::Run(30));
}

#[test]
fn the_company_files_and_lists_employees() {
    let mut company = Company::new();

    let words = vec![
        String::from("Add"),
        String::from("Sally"),
        String::from("to"),
        String::from("Engineering"),
    ];
    let parsed = parse_add_request(&words).unwrap();
    assert_eq!(parsed.0, "Sally");
    assert_eq!(parsed.1, "Engineering");

    assert!(parse_add_request(&vec![String::from("Add")]).is_none());
    let odd = vec![
        String::from("Add"),
        String::from("to"),
        String::from("to"),
        String::from("Sales"),
    ];
    assert!(parse_add_request(&odd).is_none());

    company.add_employee(String::from("Sally"), String::from("Engineering"));
    company.add_employee(String::from("Amir"), String::from("Sales"));
    company.add_employee(String::from("Ed"), String::from("Engineering"));

    let eng = company.department_employees("Engineering").unwrap();
    assert_eq!(eng, &vec![String::from("Sally"), String::from("Ed")]);
    assert!(company.department_employees("Legal").is_none());

    let all = company.all_employees();
    assert_eq!(all, vec![String::from("Sally"), String::from("Ed"), String::from("Amir")]);
}

#[test]
fn breakfast_comes_with_toast() {
    let meal = Breakfast::summer("Rye");
    assert_eq!(meal.toast, "Rye");
    restaurant::eat_at_restaurant2();
    restaurant::eat_at_restaurant3();
    restaurant::eat_at_restaurant4();
    restaurant::customer1::eat_at_restaurant3();
    restaurant::customer2::eat_at_restaurant3();
}

struct CountingButton<'a> {
    inner: Button,
    drawn: &'a std::cell::Cell<u32>,
}

impl<'a> Draw for CountingButton<'a> {
    fn draw(&self) {
        let _ = &self.inner;
        self.drawn.set(self.drawn.get() + 1);
    }
}

#[test]
fn screens_draw_their_components() {
    let drawn = std::cell::Cell::new(0u32);
    let screen = Screen {
        components: vec![
            CountingButton {
                inner: Button { width: 50, height: 10, label: String::from("OK") },
                drawn: &drawn,
            },
            CountingButton {
                inner: Button { width: 75, height: 10, label: String::from("Maybe") },
                drawn: &drawn,
            },
        ],
    };
    screen.run();
    assert_eq!(drawn.get(), 2);
}

#[test]
fn lists_have_tails() {
    let list = List::Cons(5, Box::new(List::Cons(10, Box::new(List::Nil))));
    match list.tail() {
        Some(rest) => match **rest {
            List::Cons(v, _) => assert_eq!(v, 10),
            List::Nil => panic!("expected another link"),
        },
        None => panic!("expected a tail"),
    }
    assert!(List::Nil.tail().is_none());
}
