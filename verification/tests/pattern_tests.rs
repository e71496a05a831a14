//! Pattern-matching walkthroughs: shadowing, destructuring, guards,
//! ranges and bindings.

#[allow(dead_code)]
enum Color {
    Rgb(i32, i32, i32),
    Hsv(i32, i32, i32),
}

#[allow(dead_code)]
enum Message {
    Exit,
    Quit,
    Move { x: i32, y: i32 },
    Write(String),
    ChangeColor(i32, i32, i32),
    ChangeColor2(Color),
}

#[allow(dead_code)]
struct Point {
    x: i32,
    y: i32,
}

#[allow(dead_code)]
struct Point3 {
    x: i32,
    y: i32,
    z: i32,
}

#[test]
fn c18_3_pattern_syntax_main2() {
    let x = Some(5);
    let y = 10;

    match x {
        Some(50) => println!("Got 50"),
        Some(y) => println!("Matched, y = {y}"),
        _ => println!("Default case, x = {:?}", x),
    }

    println!("at the end: x = {:?}, y = {y}", x);
}

#[test]
#[allow(unused_variables)]
fn main8() {
    let msg = Message::ChangeColor2(Color::Hsv(0, 0, 0));

    match msg {
        Message::Quit | Message::Exit => {
            println!("The Quit and Exit variants have no data to destructure.")
        }
        Message::Move { x: f, y: g } => {
            println!("Move in the x direction {} and in the y direction {}", f, g);
        }
        Message::Write(text) => println!("Text message: {}", text),
        Message::ChangeColor(r, g, b) => {
            println!("Change the color to red {}, green {}, and blue {}", r, g, b)
        }
        Message::ChangeColor2(Color::Hsv(0, 0, 0)) => {
            println!("Change the color to red 0, green 0, and blue 0")
        }
        Message::ChangeColor2(Color::Rgb(r, g, b)) => {
            println!("Change the color to red {}, green {}, and blue {}", r, g, b)
        }
        Message::ChangeColor2(Color::Hsv(h, s, v)) => {
            println!("Change the color to hue {}, saturation {}, and value {}", h, s, v)
        }
    }

    let ((feet, inches), Point { x, y }) = ((3, 10), Point { x: 3, y: -10 });
}

#[test]
fn main10() {
    let mut setting_value = Some(5);
    let new_setting_value = Some(10);

    match (setting_value, new_setting_value) {
        (Some(_), Some(_)) => {
            println!("Can't overwrite an existing customized value");
        }
        _ => {
            setting_value = new_setting_value;
        }
    }

    println!("setting is {:?}", setting_value);

    let numbers = (2, 4, 8, 16, 32);
    let _numbers2 = (2, 4, 8, 16, 32);

    match numbers {
        (first, _, third, _, fifth) => {
            println!("Some numbers: {first}, {third}, {fifth}")
        }
    }
}

#[test]
fn main11() {
    let s = Some(String::from("Hello!"));

    if let Some(_) = s {
        println!("found a string");
    }

    println!("{:?}", s);
}

#[test]
fn main12() {
    let origin = Point3 { x: 0, y: 0, z: 0 };

    match origin {
        Point3 { z, .. } => println!("z is {}", z),
    }

    match origin {
        Point3 { x, z, .. } => println!("x + z is {}", x + z),
    }
}

#[test]
fn main13() {
    let num = Some(64);

    match num {
        Some(x) if (50..=100).contains(&x) => println!("Between 50 and 100"),
        Some(x) if x % 2 == 0 => println!("The number {} is even", x),
        Some(x) => println!("The number {} is odd", x),
        None => (),
    }
}

#[test]
fn main14() {
    let x = Some(5);
    let y = 10;

    match x {
        Some(50) => println!("Got 50"),
        Some(n) if n == y => println!("Matched, n = {n}"),
        _ => println!("Default case, x = {:?}", x),
    }

    println!("at the end: x = {:?}, y = {y}", x);
}

#[test]
fn main15() {
    let x = Some(4);
    let y = false;

    match x {
        Some(4 | 5 | 6) | Some(14..=19) if !y => println!("yes"),
        _ => println!("no"),
    }
}
