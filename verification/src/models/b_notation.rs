//! How the note between A and C is written.
use vstd::prelude::*;
use crate::text::{chars_of, is_ws, is_whitespace};

verus! {

/// The spelling of the note between A♯ and C: `B` (English) or `H` (German).
#[derive(Debug, Clone, Copy, PartialEq, Eq, Structural, PartialOrd)]
pub enum BNotation {
    B,
    H,
}

impl Default for BNotation {
    fn default() -> (r: Self)
        ensures
            r == BNotation::B,
    {
        BNotation::B
    }
}

/// The notation a text names, if it names one.
pub open spec fn b_notation_of(s: Seq<char>) -> Option<BNotation> {
    if s == seq!['B'] || s == seq!['b'] {
        Some(BNotation::B)
    } else if s == seq!['H'] || s == seq!['h'] {
        Some(BNotation::H)
    } else {
        None
    }
}

/// Whether the chord text starts with the German note `H`.
pub open spec fn is_european_chord_spec(s: Seq<char>) -> bool {
    s.len() > 0 && s[0] == 'H'
}

/// Whether one of the chords in the text (parts split by white space or `/`) is a German `H`.
pub open spec fn contains_european_chord_spec(s: Seq<char>) -> bool {
    exists|i: int|
        0 <= i < s.len() && #[trigger] s[i] == 'H' && (i == 0 || is_ws(s[i - 1]) || s[i - 1] == '/')
}

impl BNotation {
    /// Read the notation from `B` or `H` (either case).
    pub fn try_from_str(s: &str) -> (r: Result<BNotation, ()>)
        ensures
            match b_notation_of(s@) {
                Some(n) => r == Ok::<BNotation, ()>(n),
                None => r is Err,
            },
    {
        let v = chars_of(s);
        if v.len() == 1 {
            let c = v[0];
            if c == 'B' || c == 'b' {
                assert(v@ =~= seq![c]);
                return Ok(BNotation::B);
            } else if c == 'H' || c == 'h' {
                assert(v@ =~= seq![c]);
                return Ok(BNotation::H);
            }
            assert(v@ =~= seq![c]);
            assert(v@ != seq!['B'] && v@ != seq!['b'] && v@ != seq!['H'] && v@ != seq!['h']) by {
                assert(seq!['B'][0] == 'B');
                assert(seq!['b'][0] == 'b');
                assert(seq!['H'][0] == 'H');
                assert(seq!['h'][0] == 'h');
            }
        } else {
            assert(seq!['B'].len() == 1 && seq!['b'].len() == 1 && seq!['H'].len() == 1
                && seq!['h'].len() == 1);
        }
        Err(())
    }

    /// Read the notation, falling back to the default `B` where the text names none.
    pub fn from_str_or_default(s: &str) -> (r: BNotation)
        ensures
            r == match b_notation_of(s@) {
                Some(n) => n,
                None => BNotation::B,
            },
    {
        match BNotation::try_from_str(s) {
            Ok(n) => n,
            Err(_) => BNotation::default(),
        }
    }

    /// The letter that names the notation.
    pub fn as_str(&self) -> (r: &'static str)
        ensures
            r@ == (match self {
                BNotation::B => "B"@,
                BNotation::H => "H"@,
            }),
    {
        match self {
            BNotation::B => "B",
            BNotation::H => "H",
        }
    }

    /// Whether the chord is written with the German `H`.
    pub fn is_european_chord(chord: &str) -> (r: bool)
        ensures
            r == is_european_chord_spec(chord@),
    {
        let v = chars_of(chord);
        v.len() > 0 && v[0] == 'H'
    }

    /// Whether any of the chords in the text is written with the German `H`.
    pub fn contains_european_chord(chords: &str) -> (r: bool)
        ensures
            r == contains_european_chord_spec(chords@),
    {
        let v = chars_of(chords);
        let mut i: usize = 0;
        while i < v.len()
            invariant
                i <= v.len(),
                v@ == chords@,
                forall|k: int|
                    0 <= k < i ==> !(#[trigger] v@[k] == 'H' && (k == 0 || is_ws(v@[k - 1]) || v@[k
                        - 1] == '/')),
            decreases v.len() - i,
        {
            if v[i] == 'H' && (i == 0 || is_whitespace(v[i - 1]) || v[i - 1] == '/') {
                return true;
            }
            i = i + 1;
        }
        false
    }
}

} // verus!
