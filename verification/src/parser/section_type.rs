//! The kinds of sections a song consists of.
use vstd::prelude::*;
use crate::tokenizer::modifier::Modifier;

verus! {

#[derive(Debug, Copy, Clone, PartialEq, Eq, Structural, PartialOrd)]
pub enum SectionType {
    Chorus,
    Bridge,
    Unknown,
    /// A reference to another section, written as a quote (`> Chorus`)
    Reference,
}

/// The section type that a headline modifier opens.
pub open spec fn section_type_of(m: Modifier) -> SectionType {
    match m {
        Modifier::Chorus => SectionType::Chorus,
        Modifier::Bridge => SectionType::Bridge,
        Modifier::Plain => SectionType::Unknown,
    }
}

/// The headline modifier that opens a section type.
pub open spec fn modifier_of(t: SectionType) -> Modifier {
    match t {
        SectionType::Chorus => Modifier::Chorus,
        SectionType::Bridge => Modifier::Bridge,
        SectionType::Unknown => Modifier::Plain,
        SectionType::Reference => Modifier::Plain,
    }
}

impl SectionType {
    /// The section type that a headline modifier opens.
    pub fn from_modifier(m: Modifier) -> (r: SectionType)
        ensures
            r == section_type_of(m),
    {
        match m {
            Modifier::Chorus => SectionType::Chorus,
            Modifier::Bridge => SectionType::Bridge,
            Modifier::Plain => SectionType::Unknown,
        }
    }

    /// The headline modifier that opens this section type.
    pub fn to_modifier(self) -> (r: Modifier)
        ensures
            r == modifier_of(self),
    {
        match self {
            SectionType::Chorus => Modifier::Chorus,
            SectionType::Bridge => Modifier::Bridge,
            SectionType::Unknown => Modifier::Plain,
            SectionType::Reference => Modifier::Plain,
        }
    }
}

/// A headline modifier and the section type it opens name each other one to one; references
/// are opened by quotes, not by headlines.
pub proof fn lemma_section_type_modifier_round_trip(m: Modifier, t: SectionType)
    requires
        t != SectionType::Reference,
    ensures
        modifier_of(section_type_of(m)) == m,
        section_type_of(modifier_of(t)) == t,
{
}

} // verus!
