//! Rectangles: areas, containment and a width/height-wise maximum.

use vstd::prelude::*;

verus! {

#[derive(Debug)]
pub struct Rectangle {
    pub width: u32,
    pub height: u32,
}

impl Rectangle {
    /// Whether `other` fits strictly inside `self` in both dimensions.
    pub fn can_hold(&self, other: &Rectangle) -> (r: bool)
        ensures
            r == (self.width > other.width && self.height > other.height),
    {
        if self.width > other.width && self.height > other.height {
            true
        } else {
            false
        }
    }

    pub fn square(size: u32) -> (r: Self)
        ensures
            r.width == size,
            r.height == size,
    {
        Self { width: size, height: size }
    }

    pub fn area(&self) -> (r: u32)
        requires
            self.width * self.height <= u32::MAX,
        ensures
            r == self.width * self.height,
    {
        self.width * self.height
    }

    pub fn set_width(&mut self, width: u32)
        ensures
            final(self).width == width,
            final(self).height == old(self).height,
    {
        self.width = width;
    }

    /// The rectangle that is as wide as the wider and as tall as the
    /// taller of the two.
    pub fn max(self, other: Rectangle) -> (r: Rectangle)
        ensures
            r.width == if self.width >= other.width { self.width } else { other.width },
            r.height == if self.height >= other.height { self.height } else { other.height },
    {
        Rectangle { width: self.width.max(other.width), height: self.height.max(other.height) }
    }
}

pub struct Point {
    pub x: i32,
    pub y: i32,
}

impl Point {
    /// A mutable view of the x coordinate alone.
    pub fn get_x(&mut self) -> (r: &mut i32)
        ensures
            *r == old(self).x,
            *final(self) == (Point { x: *final(r), y: old(self).y }),
    {
        &mut self.x
    }
}

} // verus!
