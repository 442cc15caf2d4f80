//! Notes and chords.
use vstd::prelude::*;
use crate::error::Error;
use crate::models::b_notation::BNotation;
use crate::text::{chars_of, is_ws, is_whitespace, string_from_range};

verus! {

/// The twelve notes of the chromatic scale, starting at C.
#[derive(Debug, Clone, Copy, PartialEq, Eq, Structural, PartialOrd)]
pub enum Note {
    C,
    Cis,
    D,
    Dis,
    E,
    F,
    Fis,
    G,
    Gis,
    A,
    Ais,
    B,
}

impl Note {
    /// Semitones above C.
    pub open spec fn index(self) -> int {
        match self {
            Note::C => 0,
            Note::Cis => 1,
            Note::D => 2,
            Note::Dis => 3,
            Note::E => 4,
            Note::F => 5,
            Note::Fis => 6,
            Note::G => 7,
            Note::Gis => 8,
            Note::A => 9,
            Note::Ais => 10,
            Note::B => 11,
        }
    }

    /// The note `i` semitones above C (for `0 <= i < 12`).
    pub open spec fn from_index(i: int) -> Note {
        if i == 0 {
            Note::C
        } else if i == 1 {
            Note::Cis
        } else if i == 2 {
            Note::D
        } else if i == 3 {
            Note::Dis
        } else if i == 4 {
            Note::E
        } else if i == 5 {
            Note::F
        } else if i == 6 {
            Note::Fis
        } else if i == 7 {
            Note::G
        } else if i == 8 {
            Note::Gis
        } else if i == 9 {
            Note::A
        } else if i == 10 {
            Note::Ais
        } else {
            Note::B
        }
    }

    /// Semitones above C.
    pub fn semitone(&self) -> (r: u8)
        ensures
            r == self.index(),
            r < 12,
    {
        match self {
            Note::C => 0,
            Note::Cis => 1,
            Note::D => 2,
            Note::Dis => 3,
            Note::E => 4,
            Note::F => 5,
            Note::Fis => 6,
            Note::G => 7,
            Note::Gis => 8,
            Note::A => 9,
            Note::Ais => 10,
            Note::B => 11,
        }
    }

    /// The note `i` semitones above C.
    pub fn from_semitone(i: u8) -> (n: Note)
        requires
            i < 12,
        ensures
            n == Note::from_index(i as int),
            n.index() == i,
    {
        if i == 0 {
            Note::C
        } else if i == 1 {
            Note::Cis
        } else if i == 2 {
            Note::D
        } else if i == 3 {
            Note::Dis
        } else if i == 4 {
            Note::E
        } else if i == 5 {
            Note::F
        } else if i == 6 {
            Note::Fis
        } else if i == 7 {
            Note::G
        } else if i == 8 {
            Note::Gis
        } else if i == 9 {
            Note::A
        } else if i == 10 {
            Note::Ais
        } else {
            Note::B
        }
    }

    /// The note `semitones` semitones higher (lower where negative), wrapping around the octave.
    pub fn transpose(self, semitones: isize) -> (r: Note)
        ensures
            r.index() == (self.index() + semitones) % 12,
            r == transposed_note(self, semitones as int),
    {
        let i = self.semitone() as usize;
        let shift: usize = if semitones >= 0 {
            (semitones as usize) % 12
        } else {
            let q = (-(semitones + 1)) as usize;
            11 - q % 12
        };
        proof {
            lemma_shift_mod(self.index(), semitones as int, shift as int);
        }
        let r = Note::from_semitone(((i + shift) % 12) as u8);
        proof {
            lemma_note_from_index(r);
        }
        r
    }
}

/// The note `semitones` semitones above `n` (below where negative), within the octave.
pub open spec fn transposed_note(n: Note, semitones: int) -> Note {
    Note::from_index((n.index() + semitones) % 12)
}

/// The chord with its root moved by `semitones`; what follows the root stays.
pub open spec fn transposed_chord(c: ChordModel, semitones: int) -> ChordModel {
    ChordModel { root: transposed_note(c.root, semitones), variant: c.variant }
}

/// A note is the note at its own index.
pub proof fn lemma_note_from_index(n: Note)
    ensures
        Note::from_index(n.index()) == n,
        0 <= n.index() < 12,
{
}

/// The index of the note at `i` is `i`, for `i` within the octave.
pub proof fn lemma_index_from_index(i: int)
    requires
        0 <= i < 12,
    ensures
        Note::from_index(i).index() == i,
{
}

/// Transposing by `a` and then by `b` is transposing by `a + b`.
pub proof fn lemma_transpose_compose(n: Note, a: int, b: int)
    ensures
        transposed_note(transposed_note(n, a), b) == transposed_note(n, a + b),
{
    let i = n.index();
    let j = (i + a) % 12;
    lemma_index_from_index(j);
    vstd::arithmetic::div_mod::lemma_add_mod_noop(i + a, b, 12);
    vstd::arithmetic::div_mod::lemma_mod_twice(b, 12);
    vstd::arithmetic::div_mod::lemma_add_mod_noop(i + a, b, 12);
    assert((j + b) % 12 == (i + a + b) % 12) by {
        vstd::arithmetic::div_mod::lemma_add_mod_noop(i + a, b, 12);
        vstd::arithmetic::div_mod::lemma_add_mod_noop(j, b, 12);
        vstd::arithmetic::div_mod::lemma_mod_twice(i + a, 12);
    }
}

/// Transposing up and then down by the same amount gives the note back.
pub proof fn lemma_transpose_inverse(n: Note, semitones: int)
    ensures
        transposed_note(transposed_note(n, semitones), -semitones) == n,
{
    lemma_transpose_compose(n, semitones, -semitones);
    lemma_note_from_index(n);
    vstd::arithmetic::div_mod::lemma_small_mod(n.index() as nat, 12);
}

/// Transposing by a whole octave leaves the note as it is.
pub proof fn lemma_transpose_octave(n: Note)
    ensures
        transposed_note(n, 12) == n,
{
    lemma_note_from_index(n);
    vstd::arithmetic::div_mod::lemma_mod_add_multiples_vanish(n.index(), 12);
    vstd::arithmetic::div_mod::lemma_small_mod(n.index() as nat, 12);
}

/// Shifting by the reduced amount lands on the same note as shifting by the full amount.
proof fn lemma_shift_mod(i: int, s: int, shift: int)
    requires
        0 <= i < 12,
        s >= 0 ==> shift == s % 12,
        s < 0 ==> shift == 11 - (-(s + 1)) % 12,
    ensures
        (i + shift) % 12 == (i + s) % 12,
{
    if s >= 0 {
        vstd::arithmetic::div_mod::lemma_add_mod_noop_right(i, s, 12);
        vstd::arithmetic::div_mod::lemma_mod_twice(s, 12);
    } else {
        let q = -(s + 1);
        let a = q % 12;
        vstd::arithmetic::div_mod::lemma_fundamental_div_mod(q, 12);
        let k = q / 12;
        assert(q == 12 * k + a);
        assert(i + s + 12 * (k + 1) == i + shift) by (nonlinear_arith)
            requires
                q == 12 * k + a,
                q == -(s + 1),
                shift == 11 - a,
        ;
        vstd::arithmetic::div_mod::lemma_mod_multiples_vanish(k + 1, i + s, 12);
    }
}

/// A chord: its root note and what follows the root (`m`, `7`, `maj7/B`, ...).
#[derive(Debug, Clone, PartialEq, PartialOrd)]
pub struct Chord {
    pub root: Note,
    pub variant: Option<String>,
}

/// The abstract value of a chord.
pub struct ChordModel {
    pub root: Note,
    pub variant: Option<Seq<char>>,
}

impl View for Chord {
    type V = ChordModel;

    open spec fn view(&self) -> ChordModel {
        ChordModel {
            root: self.root,
            variant: match self.variant {
                Some(v) => Some(v@),
                None => None,
            },
        }
    }
}

/// Semitones above C of a note letter, or `None` for a character that is no note letter.
pub open spec fn letter_index(c: char, notation: BNotation) -> Option<int> {
    if c == 'C' {
        Some(0)
    } else if c == 'D' {
        Some(2)
    } else if c == 'E' {
        Some(4)
    } else if c == 'F' {
        Some(5)
    } else if c == 'G' {
        Some(7)
    } else if c == 'A' {
        Some(9)
    } else if c == 'H' {
        Some(11)
    } else if c == 'B' {
        Some(
            if notation == BNotation::B {
                11
            } else {
                10
            },
        )
    } else {
        None
    }
}

/// Whether `c` raises a note by a semitone.
pub open spec fn is_sharp(c: char) -> bool {
    c == '#' || c == '♯'
}

/// Whether `c` lowers a note by a semitone.
pub open spec fn is_flat(c: char) -> bool {
    c == 'b' || c == '♭'
}

/// The root and the length of the root's spelling at the start of `s`.
///
/// `B` with a flat is A♯ in both notations (in the German one the flat is redundant).
pub open spec fn root_of(s: Seq<char>, notation: BNotation) -> Option<(Note, int)> {
    if s.len() == 0 {
        None
    } else {
        match letter_index(s[0], notation) {
            None => None,
            Some(base) => if s.len() > 1 && is_sharp(s[1]) {
                Some((Note::from_index((base + 1) % 12), 2))
            } else if s.len() > 1 && is_flat(s[1]) {
                if s[0] == 'B' {
                    Some((Note::Ais, 2))
                } else {
                    Some((Note::from_index((base + 11) % 12), 2))
                }
            } else {
                Some((Note::from_index(base), 1))
            },
        }
    }
}

/// The chord that `s` spells in the given notation.
pub open spec fn parse_chord(s: Seq<char>, notation: BNotation) -> Result<ChordModel, Error> {
    if s.len() == 0 {
        Err(Error::EmptyChord)
    } else {
        match root_of(s, notation) {
            None => Err(Error::UnknownNote),
            Some((root, n)) => Ok(
                ChordModel {
                    root,
                    variant: if n == s.len() {
                        None
                    } else {
                        Some(s.skip(n))
                    },
                },
            ),
        }
    }
}

/// A sharp raises a note by a semitone and a flat lowers it by one (a `B` in the German
/// notation is already lowered, and a flat on it changes nothing).
pub proof fn lemma_accidentals(l: char, notation: BNotation)
    requires
        letter_index(l, notation) is Some,
    ensures
        parse_chord(seq![l], notation) matches Ok(p) && parse_chord(seq![l, '#'], notation) matches Ok(
            q,
        ) && q.root == transposed_note(p.root, 1) && q.variant is None,
        parse_chord(seq![l], notation) matches Ok(p) && parse_chord(seq![l, 'b'], notation) matches Ok(
            q,
        ) && q.variant is None && (if l == 'B' && notation == BNotation::H {
            q.root == p.root
        } else {
            q.root == transposed_note(p.root, -1)
        }),
{
    let base = letter_index(l, notation)->0;
    assert(0 <= base < 12);
    lemma_index_from_index(base);
    assert(seq![l, '#'][1] == '#');
    assert(seq![l, 'b'][1] == 'b');
    assert(seq![l, '#'][0] == l);
    assert(seq![l, 'b'][0] == l);
    assert((base + 1) % 12 == (Note::from_index(base).index() + 1) % 12);
    assert((base + 11) % 12 == (base - 1) % 12);
}

/// `H` names the same note in both notations: a chord written with `H` is the chord written
/// with `B` in the standard notation.
pub proof fn lemma_h_is_standard_b(v: Seq<char>, notation: BNotation)
    ensures
        parse_chord(seq!['H'] + v, notation) == parse_chord(seq!['B'] + v, BNotation::B),
{
    let a = seq!['H'] + v;
    let b = seq!['B'] + v;
    assert(a[0] == 'H' && b[0] == 'B');
    assert(a.skip(1) =~= b.skip(1));
    if v.len() > 0 {
        assert(a[1] == v[0] && b[1] == v[0]);
        assert(a.skip(2) =~= b.skip(2));
    }
}

/// The notation matters for `B` alone: every other letter spells the same chord in both.
pub proof fn lemma_notation_only_changes_b(l: char, v: Seq<char>)
    requires
        l != 'B',
    ensures
        parse_chord(seq![l] + v, BNotation::H) == parse_chord(seq![l] + v, BNotation::B),
{
    let s = seq![l] + v;
    assert(s[0] == l);
}

/// The view of a chord result.
pub open spec fn chord_result_view(r: Result<Chord, Error>) -> Result<ChordModel, Error> {
    match r {
        Ok(c) => Ok(c@),
        Err(e) => Err(e),
    }
}

/// The view of an optional chord.
pub open spec fn chord_option_view(r: Option<Chord>) -> Option<ChordModel> {
    match r {
        Some(c) => Some(c@),
        None => None,
    }
}

/// The chord of a parse result, if it succeeded.
pub open spec fn parsed_chord_or_none(s: Seq<char>, notation: BNotation) -> Option<ChordModel> {
    match parse_chord(s, notation) {
        Ok(c) => Some(c),
        Err(_) => None,
    }
}

fn letter_semitone(c: char, notation: BNotation) -> (r: Option<u8>)
    ensures
        match letter_index(c, notation) {
            Some(i) => r == Some(i as u8) && i < 12,
            None => r is None,
        },
{
    if c == 'C' {
        Some(0)
    } else if c == 'D' {
        Some(2)
    } else if c == 'E' {
        Some(4)
    } else if c == 'F' {
        Some(5)
    } else if c == 'G' {
        Some(7)
    } else if c == 'A' {
        Some(9)
    } else if c == 'H' {
        Some(11)
    } else if c == 'B' {
        match notation {
            BNotation::B => Some(11),
            BNotation::H => Some(10),
        }
    } else {
        None
    }
}

impl Chord {
    /// A chord with nothing after its root.
    pub fn new_without_variant(root: Note) -> (r: Chord)
        ensures
            r@ == (ChordModel { root, variant: None }),
    {
        Chord { root, variant: None }
    }

    /// A chord with `variant` after its root.
    pub fn new_with_variant(root: Note, variant: &str) -> (r: Chord)
        ensures
            r@ == (ChordModel { root, variant: Some(variant@) }),
    {
        Chord { root, variant: Some(variant.to_owned()) }
    }

    /// Read a chord such as `Dm7`, `F#`, `Bb` or `H7` in the given notation.
    pub fn try_from(s: &str, notation: BNotation) -> (r: Result<Chord, Error>)
        ensures
            chord_result_view(r) == parse_chord(s@, notation),
    {
        let v = chars_of(s);
        if v.len() == 0 {
            return Err(Error::EmptyChord);
        }
        let base = match letter_semitone(v[0], notation) {
            Some(b) => b,
            None => return Err(Error::UnknownNote),
        };
        let (root, n): (Note, usize) = if v.len() > 1 && (v[1] == '#' || v[1] == '♯') {
            (Note::from_semitone((base + 1) % 12), 2)
        } else if v.len() > 1 && (v[1] == 'b' || v[1] == '♭') {
            if v[0] == 'B' {
                (Note::Ais, 2)
            } else {
                (Note::from_semitone((base + 11) % 12), 2)
            }
        } else {
            (Note::from_semitone(base), 1)
        };
        let variant = if n == v.len() {
            None
        } else {
            let t = string_from_range(&v, n, v.len());
            assert(v@.subrange(n as int, v@.len() as int) =~= v@.skip(n as int));
            Some(t)
        };
        Ok(Chord { root, variant })
    }

    /// A copy of the chord.
    pub fn duplicate(&self) -> (r: Chord)
        ensures
            r@ == self@,
    {
        Chord {
            root: self.root,
            variant: match &self.variant {
                Some(v) => Some(v.clone()),
                None => None,
            },
        }
    }

    /// The same chord with its root moved by `semitones`.
    pub fn transpose(self, semitones: isize) -> (r: Chord)
        ensures
            r.root.index() == (self.root.index() + semitones) % 12,
            r@ == transposed_chord(self@, semitones as int),
    {
        Chord { root: self.root.transpose(semitones), variant: self.variant }
    }
}

/// The white-space separated parts of `s` (no part is empty).
pub open spec fn words(s: Seq<char>) -> Seq<Seq<char>>
    decreases s.len(),
{
    if s.len() == 0 {
        seq![]
    } else if is_ws(s[0]) {
        words(s.drop_first())
    } else {
        let n = word_len(s);
        proof {
            lemma_word_len_bounds(s);
            lemma_word_len_bounds(s.drop_first());
        }
        seq![s.take(n)] + words(s.skip(n))
    }
}

/// The length of the run of characters that are not white space at the start of `s`.
pub open spec fn word_len(s: Seq<char>) -> int
    decreases s.len(),
{
    if s.len() == 0 || is_ws(s[0]) {
        0
    } else {
        1 + word_len(s.drop_first())
    }
}

/// A sequence of chords written in one chord mark, such as `[A D]`.
#[derive(Debug, Clone, PartialEq, PartialOrd)]
pub struct Chords {
    pub chords: Vec<Chord>,
}

/// The chords that the parts of a chord mark spell, or the first error.
pub open spec fn parse_chords_parts(parts: Seq<Seq<char>>, notation: BNotation) -> Result<
    Seq<ChordModel>,
    Error,
>
    decreases parts.len(),
{
    if parts.len() == 0 {
        Ok(seq![])
    } else {
        match parse_chord(parts[0], notation) {
            Err(e) => Err(e),
            Ok(c) => match parse_chords_parts(parts.drop_first(), notation) {
                Err(e) => Err(e),
                Ok(rest) => Ok(seq![c] + rest),
            },
        }
    }
}

/// The chords of a chord mark: at least one, each one readable.
pub open spec fn parse_chords(s: Seq<char>, notation: BNotation) -> Result<Seq<ChordModel>, Error> {
    if words(s).len() == 0 {
        Err(Error::EmptyChord)
    } else {
        parse_chords_parts(words(s), notation)
    }
}

impl View for Chords {
    type V = Seq<ChordModel>;

    open spec fn view(&self) -> Seq<ChordModel> {
        self.chords@.map_values(|c: Chord| c@)
    }
}

/// The view of a result holding chords.
pub open spec fn chords_result_view(r: Result<Chords, Error>) -> Result<Seq<ChordModel>, Error> {
    match r {
        Ok(c) => Ok(c@),
        Err(e) => Err(e),
    }
}

pub proof fn lemma_word_len_bounds(s: Seq<char>)
    ensures
        0 <= word_len(s) <= s.len(),
        forall|k: int| 0 <= k < word_len(s) ==> !is_ws(#[trigger] s[k]),
        word_len(s) < s.len() ==> is_ws(s[word_len(s)]),
    decreases s.len(),
{
    if s.len() > 0 && !is_ws(s[0]) {
        lemma_word_len_bounds(s.drop_first());
        assert forall|k: int| 0 <= k < word_len(s) implies !is_ws(#[trigger] s[k]) by {
            if k > 0 {
                assert(s[k] == s.drop_first()[k - 1]);
            }
        }
    }
}

proof fn lemma_word_len_exact(s: Seq<char>, n: int)
    requires
        0 <= n <= s.len(),
        forall|k: int| 0 <= k < n ==> !is_ws(#[trigger] s[k]),
        n < s.len() ==> is_ws(s[n]),
    ensures
        word_len(s) == n,
    decreases s.len(),
{
    if n > 0 {
        assert forall|k: int| 0 <= k < n - 1 implies !is_ws(#[trigger] s.drop_first()[k]) by {
            assert(s.drop_first()[k] == s[k + 1]);
        }
        if n - 1 < s.len() - 1 {
            assert(s.drop_first()[n - 1] == s[n]);
        }
        lemma_word_len_exact(s.drop_first(), n - 1);
    }
}

impl Chords {
    /// Read the white-space separated chords of a chord mark; at least one must be there.
    pub fn try_from(s: &str, notation: BNotation) -> (r: Result<Chords, Error>)
        ensures
            chords_result_view(r) == parse_chords(s@, notation),
    {
        let v = chars_of(s);
        let mut chords: Vec<Chord> = Vec::new();
        let mut i: usize = 0;
        let ghost mut seen: Seq<Seq<char>> = seq![];
        assert(v@.skip(0) =~= v@);
        assert(chords@.map_values(|c: Chord| c@) =~= Seq::<ChordModel>::empty());
        while i < v.len()
            invariant
                i <= v.len(),
                v@ == s@,
                words(s@) == seen + words(v@.skip(i as int)),
                parse_chords_parts(seen, notation) == Ok::<Seq<ChordModel>, Error>(
                    chords@.map_values(|c: Chord| c@),
                ),
            decreases v.len() - i,
        {
            if is_whitespace(v[i]) {
                assert(v@.skip(i as int).drop_first() =~= v@.skip(i + 1));
                i = i + 1;
            } else {
                let start = i;
                while i < v.len() && !is_whitespace(v[i])
                    invariant
                        start <= i <= v.len(),
                        forall|k: int| start <= k < i ==> !is_ws(#[trigger] v@[k]),
                    decreases v.len() - i,
                {
                    i = i + 1;
                }
                let ghost rest = v@.skip(start as int);
                proof {
                    assert(rest[0] == v@[start as int]);
                    assert forall|k: int| 0 <= k < i - start implies !is_ws(#[trigger] rest[k]) by {
                        assert(rest[k] == v@[start + k]);
                    }
                    if i < v.len() {
                        assert(rest[i - start] == v@[i as int]);
                    }
                    lemma_word_len_exact(rest, i - start);
                    assert(rest.take(i - start) =~= v@.subrange(start as int, i as int));
                    assert(rest.skip(i - start) =~= v@.skip(i as int));
                }
                let word = string_from_range(&v, start, i);
                let ghost old_seen = seen;
                proof {
                    seen = seen + seq![word@];
                    lemma_parse_parts_push(old_seen, word@, notation);
                    assert(words(s@) =~= seen + words(v@.skip(i as int)));
                }
                match Chord::try_from(word.as_str(), notation) {
                    Ok(c) => {
                        let ghost before = chords@;
                        chords.push(c);
                        assert(chords@.map_values(|c: Chord| c@) =~= before.map_values(
                            |c: Chord| c@,
                        ).push(c@));
                    },
                    Err(e) => {
                        proof {
                            lemma_parse_parts_error_prefix(seen, words(v@.skip(i as int)), notation);
                        }
                        return Err(e);
                    },
                }
            }
        }
        assert(v@.skip(i as int) =~= Seq::<char>::empty());
        assert(words(s@) =~= seen);
        proof {
            lemma_parse_parts_len(seen, notation);
        }
        if chords.len() == 0 {
            return Err(Error::EmptyChord);
        }
        assert(seen.len() > 0) by {
            if seen.len() == 0 {
                assert(seen =~= Seq::<Seq<char>>::empty());
            }
        }
        Ok(Chords { chords })
    }
}

proof fn lemma_parse_parts_len(parts: Seq<Seq<char>>, notation: BNotation)
    ensures
        parse_chords_parts(parts, notation) matches Ok(cs) ==> cs.len() == parts.len(),
    decreases parts.len(),
{
    if parts.len() > 0 {
        lemma_parse_parts_len(parts.drop_first(), notation);
    }
}

#[verifier::spinoff_prover]
proof fn lemma_parse_parts_push(parts: Seq<Seq<char>>, last: Seq<char>, notation: BNotation)
    ensures
        parse_chords_parts(parts + seq![last], notation) == match parse_chords_parts(
            parts,
            notation,
        ) {
            Err(e) => Err(e),
            Ok(cs) => match parse_chord(last, notation) {
                Err(e) => Err(e),
                Ok(c) => Ok(cs.push(c)),
            },
        },
    decreases parts.len(),
{
    if parts.len() == 0 {
        assert(parts + seq![last] =~= seq![last]);
        assert(seq![last].drop_first() =~= Seq::<Seq<char>>::empty());
        assert(parse_chords_parts(Seq::<Seq<char>>::empty(), notation) == Ok::<Seq<ChordModel>, Error>(seq![]));
        match parse_chord(last, notation) {
            Ok(c) => {
                assert(seq![c] + Seq::<ChordModel>::empty() =~= Seq::<ChordModel>::empty().push(c));
            },
            Err(_) => {},
        }
    } else {
        assert((parts + seq![last]).drop_first() =~= parts.drop_first() + seq![last]);
        lemma_parse_parts_push(parts.drop_first(), last, notation);
        match parse_chord(parts[0], notation) {
            Ok(c) => match parse_chords_parts(parts.drop_first(), notation) {
                Ok(rest) => match parse_chord(last, notation) {
                    Ok(d) => {
                        assert(seq![c] + rest.push(d) =~= (seq![c] + rest).push(d));
                    },
                    Err(_) => {},
                },
                Err(_) => {},
            },
            Err(_) => {},
        }
    }
}

proof fn lemma_parse_parts_error_prefix(
    prefix: Seq<Seq<char>>,
    rest: Seq<Seq<char>>,
    notation: BNotation,
)
    requires
        parse_chords_parts(prefix, notation) is Err,
    ensures
        parse_chords_parts(prefix + rest, notation) == parse_chords_parts(prefix, notation),
    decreases prefix.len(),
{
    if prefix.len() > 0 {
        assert((prefix + rest).drop_first() =~= prefix.drop_first() + rest);
        assert((prefix + rest)[0] == prefix[0]);
        if parse_chord(prefix[0], notation) is Ok {
            lemma_parse_parts_error_prefix(prefix.drop_first(), rest, notation);
        }
    }
}

} // verus!
