//! A credential's access value, renewed in place by its renewal task.
use vstd::prelude::*;

verus! {

/// An access token. Holders share one cell of it; its renewal task replaces
/// the whole value at once, so a reader sees either the old or the new value.
pub struct Credential {
    access: String,
}

impl View for Credential {
    type V = Seq<char>;

    closed spec fn view(&self) -> Seq<char> {
        self.access@
    }
}

impl Credential {
    /// The credential as first granted.
    pub fn new(access: String) -> (r: Credential)
        ensures
            r@ == access@,
    {
        Credential { access }
    }

    /// The current access value.
    pub fn read(&self) -> (r: String)
        ensures
            r@ == self@,
    {
        self.access.clone()
    }

    /// Replaces the access value with a renewed one.
    pub fn renew(&mut self, access: String)
        ensures
            final(self)@ == access@,
    {
        self.access = access;
    }
}

} // verus!
