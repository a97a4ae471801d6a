//! A command paired with a payload of an arbitrary type.

use vstd::prelude::*;

verus! {

/// A named command carrying a payload of any type.
pub struct WebCommand<T> {
    command: String,
    payload: T,
}

impl<T> WebCommand<T> {
    /// The command text.
    pub closed spec fn spec_command(&self) -> Seq<char> {
        self.command@
    }

    /// The payload value.
    pub closed spec fn spec_payload(&self) -> T {
        self.payload
    }

    /// Packs a command text and a payload into a `WebCommand`.
    pub fn new(command: String, payload: T) -> (r: Self)
        ensures
            r.spec_command() == command@,
            r.spec_payload() == payload,
    {
        WebCommand { command, payload }
    }

    /// Borrows the payload.
    pub fn get_payload(&self) -> (r: &T)
        ensures
            *r == self.spec_payload(),
    {
        &self.payload
    }
}

} // verus!
