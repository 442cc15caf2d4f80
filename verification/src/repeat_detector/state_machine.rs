//! The state machine that finds a repeat mark such as `2x ` or ` 5*` in a section reference.
use vstd::prelude::*;
use crate::text::{chars_of, is_whitespace, is_ws, push_char};

verus! {

#[derive(Debug, PartialEq, Eq, Copy, Clone, Structural)]
pub enum RepeatState {
    Start,
    Digits,
    Multiplier,
    Whitespace,
    MatchEnd,
    NoMatch,
}

/// Whether `c` is an ASCII digit.
pub open spec fn is_digit(c: char) -> bool {
    '0' <= c <= '9'
}

/// The state after `c`, and whether `c` is one of the digits of the count.
pub open spec fn visit_spec(c: char, state: RepeatState, is_last: bool) -> (RepeatState, bool) {
    match state {
        RepeatState::Start => if is_digit(c) {
            (RepeatState::Digits, true)
        } else if is_ws(c) {
            (RepeatState::Whitespace, false)
        } else {
            (RepeatState::NoMatch, false)
        },
        RepeatState::Digits => if is_digit(c) {
            (RepeatState::Digits, true)
        } else if c == '*' || c == 'x' {
            if is_last {
                (RepeatState::MatchEnd, false)
            } else {
                (RepeatState::Multiplier, false)
            }
        } else {
            (RepeatState::NoMatch, false)
        },
        RepeatState::Multiplier => if is_ws(c) {
            (RepeatState::MatchEnd, false)
        } else {
            (RepeatState::Whitespace, false)
        },
        RepeatState::Whitespace => if is_digit(c) {
            (RepeatState::Digits, true)
        } else if is_ws(c) {
            (RepeatState::Whitespace, false)
        } else {
            (RepeatState::NoMatch, false)
        },
        RepeatState::NoMatch => if is_ws(c) {
            (RepeatState::Whitespace, false)
        } else {
            (RepeatState::NoMatch, false)
        },
        RepeatState::MatchEnd => (RepeatState::MatchEnd, false),
    }
}

/// What the machine has gathered after some characters.
pub struct RepeatAcc {
    pub state: RepeatState,
    pub capture: Seq<char>,
    pub digits: Seq<char>,
    pub start: Option<int>,
}

/// The machine after the character `c` at index `idx` (the last one where `is_last`).
/// A failed match drops what was captured; once the mark is found nothing changes.
pub open spec fn repeat_step(acc: RepeatAcc, c: char, idx: int, is_last: bool) -> RepeatAcc {
    if acc.state == RepeatState::MatchEnd {
        acc
    } else {
        let (st, is_count_digit) = visit_spec(c, acc.state, is_last);
        let capture = acc.capture.push(c);
        let digits = if is_count_digit {
            acc.digits.push(c)
        } else {
            acc.digits
        };
        if st == RepeatState::MatchEnd {
            RepeatAcc { state: st, capture, digits, start: acc.start }
        } else if st == RepeatState::NoMatch {
            RepeatAcc { state: st, capture: seq![], digits: seq![], start: acc.start }
        } else {
            RepeatAcc {
                state: st,
                capture,
                digits,
                start: if (st == RepeatState::Digits || st == RepeatState::Multiplier)
                    && acc.start is None {
                    Some(idx)
                } else {
                    acc.start
                },
            }
        }
    }
}

/// What the machine has gathered after the first `n` characters of `s`.
pub open spec fn repeat_scan(s: Seq<char>, n: nat) -> RepeatAcc
    decreases n,
{
    if n == 0 {
        RepeatAcc { state: RepeatState::Start, capture: seq![], digits: seq![], start: None }
    } else {
        repeat_step(
            repeat_scan(s, (n - 1) as nat),
            s[n - 1],
            n - 1,
            n - 1 == s.len() - 1,
        )
    }
}

/// What the machine has gathered after all of `s`.
pub open spec fn repeat_result(s: Seq<char>) -> RepeatAcc {
    repeat_scan(s, s.len())
}

/// Whether `s` holds a repeat mark.
pub open spec fn has_repeat_mark(s: Seq<char>) -> bool {
    s.len() > 0 && repeat_result(s).state == RepeatState::MatchEnd
}

#[derive(Debug, PartialEq)]
pub struct RepeatMatch {
    /// Where the mark starts (its first digit, or its multiplier)
    pub capture_start: usize,
    /// The text of the mark (e.g. prefixes like `4x `, `13* `, or a suffix ` 5*`)
    pub capture: String,
    /// The digits of the mark only
    pub digit_capture: String,
}

impl RepeatMatch {
    /// A match with the given parts.
    pub fn new(capture_start: usize, capture: &str, digit_capture: &str) -> (r: RepeatMatch)
        ensures
            r.capture_start == capture_start,
            r.capture@ == capture@,
            r.digit_capture@ == digit_capture@,
    {
        RepeatMatch {
            capture_start,
            capture: capture.to_owned(),
            digit_capture: digit_capture.to_owned(),
        }
    }
}

pub struct StateMachine {}

fn is_ascii_digit(c: char) -> (r: bool)
    ensures
        r == is_digit(c),
{
    '0' <= c && c <= '9'
}

pub proof fn lemma_start_set(s: Seq<char>, n: nat)
    requires
        n <= s.len(),
    ensures
        ({
            let acc = repeat_scan(s, n);
            (acc.state == RepeatState::Digits || acc.state == RepeatState::Multiplier
                || acc.state == RepeatState::MatchEnd) ==> acc.start is Some
        }),
        ({
            let acc = repeat_scan(s, n);
            acc.start matches Some(i) ==> 0 <= i < n
        }),
        ({
            let acc = repeat_scan(s, n);
            (acc.state == RepeatState::Digits || acc.state == RepeatState::Multiplier
                || acc.state == RepeatState::MatchEnd) ==> acc.digits.len() > 0
        }),
        forall|k: int|
            0 <= k < repeat_scan(s, n).digits.len() ==> is_digit(#[trigger] repeat_scan(s, n).digits[k]),
    decreases n,
{
    if n > 0 {
        lemma_start_set(s, (n - 1) as nat);
        let prev = repeat_scan(s, (n - 1) as nat);
        let acc = repeat_scan(s, n);
        if prev.state != RepeatState::MatchEnd {
            let (st, d) = visit_spec(s[n - 1], prev.state, n - 1 == s.len() - 1);
            if d {
                assert forall|k: int| 0 <= k < acc.digits.len() implies is_digit(
                    #[trigger] acc.digits[k],
                ) by {
                    if k < prev.digits.len() {
                        assert(acc.digits[k] == prev.digits[k]);
                    }
                }
            }
        }
    }
}

impl StateMachine {
    pub fn new() -> (r: StateMachine) {
        StateMachine {  }
    }

    /// Find the repeat mark in `value`.
    pub fn matches(&self, value: &str) -> (r: Result<RepeatMatch, String>)
        ensures
            value@.len() == 0 ==> (r matches Err(m) && m@ == "Value is empty"@),
            value@.len() > 0 && !has_repeat_mark(value@) ==> (r matches Err(m) && m@
                == "No match"@),
            has_repeat_mark(value@) ==> (r matches Ok(rm) && ({
                let acc = repeat_result(value@);
                &&& acc.start == Some(rm.capture_start as int)
                &&& rm.capture@ == acc.capture
                &&& rm.digit_capture@ == acc.digits
            })),
    {
        let v = chars_of(value);
        if v.len() == 0 {
            return Err("Value is empty".to_owned());
        }
        let mut state = RepeatState::Start;
        let mut capture = String::new();
        let mut digit_capture = String::new();
        let mut capture_start: Option<usize> = None;
        let count = v.len();
        let mut index: usize = 0;
        while index < count && state != RepeatState::MatchEnd
            invariant
                count == v.len() > 0,
                v@ == value@,
                index <= count,
                ({
                    let acc = repeat_scan(value@, index as nat);
                    &&& acc.state == state
                    &&& acc.capture == capture@
                    &&& acc.digits == digit_capture@
                    &&& acc.start == match capture_start {
                        Some(x) => Some(x as int),
                        None => None,
                    }
                }),
            decreases count - index,
        {
            let character = v[index];
            push_char(&mut capture, character);
            state = self.visit(character, state, &mut digit_capture, index == count - 1);
            if state != RepeatState::MatchEnd {
                if state == RepeatState::NoMatch {
                    digit_capture = String::new();
                    capture = String::new();
                }
                if (state == RepeatState::Digits || state == RepeatState::Multiplier)
                    && capture_start.is_none() {
                    capture_start = Some(index);
                }
            }
            index = index + 1;
        }
        if state == RepeatState::MatchEnd {
            proof {
                lemma_scan_ignores_after_end(value@, index as nat, value@.len());
            }
        }
        if state != RepeatState::MatchEnd {
            assert(index == count);
            return Err("No match".to_owned());
        }
        proof {
            lemma_start_set(value@, value@.len());
        }
        let capture_start = match capture_start {
            Some(c) => c,
            None => 0,
        };
        Ok(RepeatMatch { capture, digit_capture, capture_start })
    }

    /// The state after `character`; a digit of the count is appended to `capture`.
    fn visit(
        &self,
        character: char,
        state: RepeatState,
        capture: &mut String,
        is_last_character: bool,
    ) -> (r: RepeatState)
        requires
            state != RepeatState::MatchEnd,
        ensures
            r == visit_spec(character, state, is_last_character).0,
            final(capture)@ == if visit_spec(character, state, is_last_character).1 {
                old(capture)@.push(character)
            } else {
                old(capture)@
            },
    {
        match state {
            RepeatState::Start => {
                if is_ascii_digit(character) {
                    push_char(capture, character);
                    RepeatState::Digits
                } else if is_whitespace(character) {
                    RepeatState::Whitespace
                } else {
                    RepeatState::NoMatch
                }
            },
            RepeatState::Digits => {
                if is_ascii_digit(character) {
                    push_char(capture, character);
                    RepeatState::Digits
                } else if character == '*' || character == 'x' {
                    if is_last_character {
                        RepeatState::MatchEnd
                    } else {
                        RepeatState::Multiplier
                    }
                } else {
                    RepeatState::NoMatch
                }
            },
            RepeatState::Multiplier => {
                if is_whitespace(character) {
                    RepeatState::MatchEnd
                } else {
                    RepeatState::Whitespace
                }
            },
            RepeatState::Whitespace => {
                if is_ascii_digit(character) {
                    push_char(capture, character);
                    RepeatState::Digits
                } else if is_whitespace(character) {
                    RepeatState::Whitespace
                } else {
                    RepeatState::NoMatch
                }
            },
            RepeatState::NoMatch => {
                if is_whitespace(character) {
                    RepeatState::Whitespace
                } else {
                    RepeatState::NoMatch
                }
            },
            RepeatState::MatchEnd => RepeatState::MatchEnd,
        }
    }
}

/// Once the mark is found, later characters change nothing.
pub proof fn lemma_scan_ignores_after_end(s: Seq<char>, n: nat, m: nat)
    requires
        n <= m <= s.len(),
        repeat_scan(s, n).state == RepeatState::MatchEnd,
    ensures
        repeat_scan(s, m) == repeat_scan(s, n),
    decreases m - n,
{
    if m > n {
        lemma_scan_ignores_after_end(s, n, (m - 1) as nat);
    }
}

} // verus!
