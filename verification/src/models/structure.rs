//! Names of song sections.
use vstd::prelude::*;
use crate::text::{trim, trim_spec};

verus! {

/// The name by which a section of a song is referred to, such as `Chorus` or `Verse 1`.
#[derive(Debug, PartialEq)]
pub struct SectionIdentifier {
    name: String,
}

impl View for SectionIdentifier {
    type V = Seq<char>;

    closed spec fn view(&self) -> Seq<char> {
        self.name@
    }
}

impl SectionIdentifier {
    #[verifier::type_invariant]
    closed spec fn inv(self) -> bool {
        self.name@.len() > 0
    }

    /// An identifier from `s` with its surrounding white space removed; an error if nothing is left.
    pub fn try_from_str(s: &str) -> (r: Result<SectionIdentifier, String>)
        ensures
            trim_spec(s@).len() > 0 <==> r is Ok,
            r matches Ok(id) ==> id@ == trim_spec(s@),
            r matches Err(m) ==> m@ == "Section identifier must not be empty"@,
    {
        let t = trim(s);
        if t.as_str().is_empty() {
            return Err("Section identifier must not be empty".to_owned());
        }
        Ok(SectionIdentifier { name: t })
    }

    /// The name of the section.
    pub fn as_str(&self) -> (r: &str)
        ensures
            r@ == self@,
    {
        self.name.as_str()
    }
}

} // verus!
