//! A trivial named source of program text.

use vstd::prelude::*;

verus! {

/// Holds one piece of source text and hands out copies of it under any
/// name.
#[derive(Debug, Clone)]
pub struct TextDataSrc {
    data: String,
}

impl View for TextDataSrc {
    type V = Seq<char>;

    closed spec fn view(&self) -> Seq<char> {
        self.data@
    }
}

impl TextDataSrc {
    pub fn new(code: String) -> (r: Self)
        ensures
            r@ == code@,
    {
        TextDataSrc { data: code }
    }

    /// The stored text; the name is ignored, there is only one entry.
    pub fn get(&self, _name: &str) -> (r: Option<String>)
        ensures
            r is Some,
            r.unwrap()@ == self@,
    {
        Some(self.data.clone())
    }
}

} // verus!
