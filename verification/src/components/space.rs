//! One blank cell.

use vstd::prelude::*;
use vstd::string::*;

verus! {

/// A widget that shows a single blank.
#[derive(Debug, Default, Clone)]
pub struct Space;

impl Space {
    pub fn new() -> (s: Self) {
        Space
    }

    /// The widget's text: one blank.
    pub fn render(&self) -> (r: String)
        ensures
            r@ == " "@,
    {
        String::from_str(" ")
    }
}

} // verus!
