//! A little drawing surface: a screen draws each of its components in
//! turn. Components share the [`Draw`] trait; the screen is generic over
//! it, so one screen holds components of one concrete kind.

use vstd::prelude::*;

verus! {

pub trait Draw {
    fn draw(&self);
}

pub struct Screen<T: Draw> {
    pub components: Vec<T>,
}

impl<T: Draw> Screen<T> {
    /// Draw every component, first to last.
    pub fn run(&self) {
        let mut i: usize = 0;
        while i < self.components.len()
            invariant
                i <= self.components@.len(),
            decreases self.components@.len() - i,
        {
            let component = &self.components[i];
            component.draw();
            i += 1;
        }
    }
}

pub struct Button {
    pub width: u32,
    pub height: u32,
    pub label: String,
}

impl Draw for Button {
    fn draw(&self) {
        // Drawing proper is the embedder's affair.
    }
}

} // verus!
