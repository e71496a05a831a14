//! Borrowing one field while the whole struct is mutably borrowed.

#[derive(Debug)]
struct B {
    b: u8,
}

#[derive(Debug)]
#[allow(dead_code)]
struct A {
    a: u8,
    b: B,
}

#[test]
fn test() {
    let b = B { b: 9 };
    let mut a = A { a: 10, b };

    let y = &mut a.b;
    println!("{:?}", y);
}
