//! The control keys that a sink can be asked to press.

use vstd::prelude::*;

verus! {

/// A control key, as opposed to a character of the text.
#[derive(Clone, Copy, Debug, PartialEq, Eq, Structural)]
pub enum Key {
    /// Ends a line.
    Return,
    /// Erases the character before the cursor.
    Backspace,
}

impl Key {
    /// The name of the key, as a sequence of characters.
    pub open spec fn name(self) -> Seq<char> {
        match self {
            Key::Return => seq!['r', 'e', 't', 'u', 'r', 'n'],
            Key::Backspace => seq!['b', 'a', 'c', 'k', 's', 'p', 'a', 'c', 'e'],
        }
    }

    /// The name under which key-injection tools know the key.
    pub fn to_str(&self) -> (name: &'static str)
        ensures
            name@ == self.name(),
    {
        match self {
            Key::Return => {
                proof {
                    reveal_strlit("return");
                }
                assert("return"@ =~= self.name());
                "return"
            },
            Key::Backspace => {
                proof {
                    reveal_strlit("backspace");
                }
                assert("backspace"@ =~= self.name());
                "backspace"
            },
        }
    }
}

} // verus!
