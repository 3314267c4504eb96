//! A fixed piece of text between two widgets.

use vstd::prelude::*;
use vstd::string::*;

verus! {

/// A widget that shows a separator text.
#[derive(Debug, Default)]
pub struct Separator {
    pub separator: String,
}

impl Separator {
    /// A separator that shows a bar between two blanks.
    pub fn new() -> (s: Self)
        ensures
            s.separator@ == " | "@,
    {
        Separator::with_separator(" | ")
    }

    /// A separator that shows `separator`.
    pub fn with_separator(separator: &str) -> (s: Self)
        ensures
            s.separator@ == separator@,
    {
        Separator { separator: String::from_str(separator) }
    }

    /// The widget's text: the separator.
    pub fn render(&self) -> (r: String)
        ensures
            r@ == self.separator@,
    {
        self.separator.clone()
    }
}

} // verus!
