use vstd::prelude::*;

verus! {

/// One piece of text to be spoken.
pub struct Utterance(pub String);

impl Utterance {
    pub fn new(text: String) -> (u: Utterance)
        ensures
            u.0@ == text@,
    {
        Utterance(text)
    }

    pub fn text(&self) -> (t: &str)
        ensures
            t@ == self.0@,
    {
        self.0.as_str()
    }
}

} // verus!
