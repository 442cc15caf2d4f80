//! Marks that turn a headline into the head of a chorus or a bridge.
use vstd::prelude::*;
use crate::text::{chars_of, string_from_range};

verus! {

/// The kind of section that a headline opens.
#[derive(Debug, Copy, Clone, PartialEq, Eq, Structural, PartialOrd)]
pub enum Modifier {
    Chorus,
    Bridge,
    Plain,
}

/// The modifier that a character marks: `!` a chorus, `-` a bridge.
pub open spec fn modifier_of_char(c: char) -> Modifier {
    if c == '!' {
        Modifier::Chorus
    } else if c == '-' {
        Modifier::Bridge
    } else {
        Modifier::Plain
    }
}

/// The modifier that the first character of a text marks.
pub open spec fn modifier_of_text(s: Seq<char>) -> Modifier {
    if s.len() == 0 {
        Modifier::Plain
    } else {
        modifier_of_char(s[0])
    }
}

/// The modifier at the start of `s` and the rest of `s`; `s` itself where no mark leads it.
pub open spec fn split_spec(s: Seq<char>) -> (Modifier, Seq<char>) {
    if modifier_of_text(s) != Modifier::Plain {
        (modifier_of_text(s), s.drop_first())
    } else {
        (Modifier::Plain, s)
    }
}

/// The mark that writes a modifier in front of a headline's text.
pub open spec fn modifier_mark(m: Modifier) -> Seq<char> {
    match m {
        Modifier::Chorus => seq!['!'],
        Modifier::Bridge => seq!['-'],
        Modifier::Plain => seq![],
    }
}

/// Splitting loses nothing: the mark of the modifier followed by the rest is the text itself.
pub proof fn lemma_split_round_trip(s: Seq<char>)
    ensures
        modifier_mark(split_spec(s).0) + split_spec(s).1 == s,
{
    if modifier_of_text(s) != Modifier::Plain {
        assert(seq![s[0]] + s.drop_first() =~= s);
    } else {
        assert(Seq::<char>::empty() + s =~= s);
    }
}

impl Modifier {
    /// The modifier that a character marks.
    pub fn from_char(c: char) -> (r: Modifier)
        ensures
            r == modifier_of_char(c),
    {
        if c == '!' {
            Modifier::Chorus
        } else if c == '-' {
            Modifier::Bridge
        } else {
            Modifier::Plain
        }
    }

    /// The modifier that the first character of `s` marks.
    pub fn from_str(s: &str) -> (r: Modifier)
        ensures
            r == modifier_of_text(s@),
    {
        let v = chars_of(s);
        if v.len() == 0 {
            Modifier::Plain
        } else {
            Modifier::from_char(v[0])
        }
    }

    /// Split a leading modifier mark off a headline text.
    pub fn split(input: &str) -> (r: (Modifier, String))
        ensures
            (r.0, r.1@) == split_spec(input@),
    {
        let v = chars_of(input);
        if v.len() > 0 {
            let m = Modifier::from_char(v[0]);
            if m != Modifier::Plain {
                let rest = string_from_range(&v, 1, v.len());
                assert(v@.subrange(1, v@.len() as int) =~= v@.drop_first());
                return (m, rest);
            }
        }
        (Modifier::Plain, input.to_owned())
    }
}

} // verus!
