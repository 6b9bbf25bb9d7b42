//! A record whose written form is empty.

use vstd::prelude::*;

verus! {

/// A record of one piece of text.
pub struct MyStruct {
    pub field: String,
}

impl MyStruct {
    /// The written form of the record: nothing, whatever the field holds.
    pub fn to_text(&self) -> (text: String)
        ensures
            text@ == Seq::<char>::empty(),
    {
        String::new()
    }
}

} // verus!
