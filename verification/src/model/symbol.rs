//! Ticker symbols.

use vstd::prelude::*;

verus! {

/// The ticker symbol of an asset, such as `BTC`.
#[derive(Debug, Eq, PartialEq, Hash)]
pub struct Symbol(pub String);

impl Symbol {
    /// The symbol as text, as it is displayed.
    pub fn to_text(&self) -> (s: String)
        ensures
            s@ == self.0@,
    {
        self.0.clone()
    }
}

impl Clone for Symbol {
    fn clone(&self) -> (c: Self)
        ensures
            c == *self,
    {
        Symbol(self.0.clone())
    }
}

} // verus!
