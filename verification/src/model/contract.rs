//! Token contract addresses.

use vstd::prelude::*;

verus! {

/// The address of a token's contract on its network.
#[derive(Debug, Eq, PartialEq, Hash)]
pub struct Contract(pub String);

impl Contract {
    /// The contract with address `s`.
    pub fn from_text(s: &str) -> (c: Contract)
        ensures
            c.0@ == s@,
    {
        Contract(s.to_owned())
    }

    /// The address as text, as it is displayed.
    pub fn to_text(&self) -> (s: String)
        ensures
            s@ == self.0@,
    {
        self.0.clone()
    }
}

impl Clone for Contract {
    fn clone(&self) -> (c: Self)
        ensures
            c == *self,
    {
        Contract(self.0.clone())
    }
}

impl From<String> for Contract {
    fn from(value: String) -> (c: Contract) {
        Contract(value)
    }
}

impl vstd::std_specs::convert::FromSpecImpl<String> for Contract {
    open spec fn obeys_from_spec() -> bool {
        true
    }

    open spec fn from_spec(v: String) -> Contract {
        Contract(v)
    }
}

} // verus!
