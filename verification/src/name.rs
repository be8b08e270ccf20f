//! Names of generated variables.

use vstd::prelude::*;

verus! {

/// The name of a variable of a generated program: any characters, but at
/// least one.
#[derive(Debug, PartialEq, Eq, Hash)]
pub struct Identifier {
    text: String,
}

impl View for Identifier {
    type V = Seq<char>;

    closed spec fn view(&self) -> Seq<char> {
        self.text@
    }
}

impl Identifier {
    /// What holds of every name: it has at least one character.
    #[verifier::type_invariant]
    pub open spec fn is_named(self) -> bool {
        self@.len() > 0
    }

    /// Makes a name of `raw`, which is taken as it is.
    pub fn new(raw: &str) -> (name: Identifier)
        requires
            raw@.len() > 0,
        ensures
            name@ == raw@,
    {
        Identifier { text: String::from_str(raw) }
    }

    /// The characters of the name.
    pub fn as_str(&self) -> (text: &str)
        ensures
            text@ == self@,
            text@.len() > 0,
    {
        proof {
            use_type_invariant(self);
        }
        self.text.as_str()
    }
}

impl Clone for Identifier {
    fn clone(&self) -> (copy: Identifier)
        ensures
            copy@ == self@,
    {
        proof {
            use_type_invariant(self);
        }
        Identifier { text: self.text.clone() }
    }
}

/// Whether `c` is one of the ten decimal digits.
pub open spec fn is_digit(c: char) -> bool {
    '0' <= c <= '9'
}

/// Whether every character of `name` is a decimal digit. The empty name
/// is numeric.
pub open spec fn is_numeric(name: Seq<char>) -> bool {
    forall|i: int| 0 <= i < name.len() ==> is_digit(#[trigger] name[i])
}

/// The name that a tensor goes by: a numeric name gets an underscore in
/// front of it, any other name is kept as it is.
pub open spec fn escaped(name: Seq<char>) -> Seq<char> {
    if is_numeric(name) {
        seq!['_'] + name
    } else {
        name
    }
}

/// Decides whether `name` is numeric.
pub(crate) fn numeric(name: &str) -> (b: bool)
    ensures
        b == is_numeric(name@),
{
    for c in it: name.chars()
        invariant
            it.seq() == name@,
            forall|i: int| 0 <= i < it.index() ==> is_digit(#[trigger] name@[i]),
    {
        if !('0' <= c && c <= '9') {
            return false;
        }
    }
    true
}

} // verus!
