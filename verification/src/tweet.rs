//! A value borrowing its content, demonstrating lifetimes.

use vstd::prelude::*;

verus! {

/// A short message borrowing its text.
pub struct Tweet<'a> {
    content: &'a str,
}

impl<'a> Tweet<'a> {
    /// The current content.
    pub closed spec fn spec_content(&self) -> Seq<char> {
        self.content@
    }

    /// Wraps a borrowed text.
    pub fn new(content: &'a str) -> (r: Self)
        ensures
            r.spec_content() == content@,
    {
        Tweet { content }
    }

    /// Swaps in new content and hands back the old content.
    pub fn replace_content(&mut self, new_content: &'a str) -> (r: &'a str)
        ensures
            final(self).spec_content() == new_content@,
            r@ == old(self).spec_content(),
    {
        let old_content = self.content;
        self.content = new_content;
        old_content
    }
}

} // verus!
