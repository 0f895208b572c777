//! The clipboard setter: a program that reads the payload to copy on its
//! input. Running it is left to the caller.
use vstd::prelude::*;

verus! {

/// The clipboard setter, reached through its command-line program.
pub struct Clipboard {
    bin: String,
}

/// A clipboard setter reached through the program `bin`.
pub fn new(bin: &str) -> (r: Clipboard)
    ensures
        r.program() == bin@,
{
    Clipboard { bin: bin.to_owned() }
}

impl Clipboard {
    /// The setter's program.
    pub closed spec fn program(&self) -> Seq<char> {
        self.bin@
    }

    /// The setter's program.
    pub fn bin(&self) -> (r: &String)
        ensures
            r@ == self.program(),
    {
        &self.bin
    }
}

} // verus!
