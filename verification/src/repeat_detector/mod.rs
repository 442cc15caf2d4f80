//! The repeat detector scans texts for patterns like
//!  - 2x Chorus 1
//!  - 2* Bridge
//!  - Interlude 6x
//! resembling the regular expressions `^\d+(x|\*)\s` and `\s\d+(x|\*)$`.
use vstd::prelude::*;
use crate::models::structure::SectionIdentifier;
use crate::text::{chars_of, is_blank, is_ws, lemma_trim_empty_iff_blank, lemma_trim_trailing_ws, string_from_range, trim_spec};
use self::state_machine::{
    has_repeat_mark, is_digit, lemma_scan_ignores_after_end, lemma_start_set, repeat_result,
    repeat_scan, RepeatAcc, RepeatMatch, RepeatState, StateMachine,
};

pub mod state_machine;

verus! {

/// The number that a run of decimal digits spells.
pub open spec fn decimal_value(ds: Seq<char>) -> nat
    decreases ds.len(),
{
    if ds.len() == 0 {
        0
    } else {
        decimal_value(ds.drop_last()) * 10 + ((ds.last() as nat) - ('0' as nat)) as nat
    }
}

/// `s` without its first `n` characters (nothing where it has fewer).
pub open spec fn skip_chars(s: Seq<char>, n: int) -> Seq<char> {
    if n >= s.len() {
        seq![]
    } else {
        s.skip(n)
    }
}

/// The first `n` characters of `s` (all of it where it has fewer).
pub open spec fn take_chars(s: Seq<char>, n: int) -> Seq<char> {
    if n >= s.len() {
        s
    } else {
        s.take(n)
    }
}

/// The text that names the section: what follows a leading mark, or what precedes a
/// trailing one.
pub open spec fn identifier_text(s: Seq<char>, capture: Seq<char>, start: int) -> Seq<char> {
    if start == 0 {
        skip_chars(s, capture.len() as int)
    } else {
        take_chars(s, start)
    }
}

/// What `detect` finds in `s`: the count and the section name, or the message of the error.
pub open spec fn detect_spec(s: Seq<char>) -> Result<(nat, Seq<char>), Seq<char>> {
    if s.len() == 0 {
        Err("Value is empty"@)
    } else if !has_repeat_mark(s) {
        Err("No match"@)
    } else {
        let acc = repeat_result(s);
        if decimal_value(acc.digits) > usize::MAX {
            Err("Parsing the count failed: number too large to fit in target type"@)
        } else {
            let name = trim_spec(identifier_text(s, acc.capture, acc.start->0));
            if name.len() == 0 {
                Err("Section identifier must not be empty"@)
            } else {
                Ok((decimal_value(acc.digits), name))
            }
        }
    }
}

/// Whether every character of `d` is a decimal digit, and there is at least one.
pub open spec fn is_count(d: Seq<char>) -> bool {
    d.len() > 0 && forall|k: int| 0 <= k < d.len() ==> is_digit(#[trigger] d[k])
}

/// Reading the digits of a count that starts at `at` in `s` from the state `Start` or
/// `Whitespace`: the machine is in `Digits` with the digits read so far.
proof fn lemma_scan_digits(s: Seq<char>, at: int, d: Seq<char>, k: nat, before: RepeatAcc)
    requires
        is_count(d),
        0 <= at,
        at + d.len() < s.len(),
        s.subrange(at, at + d.len()) == d,
        repeat_scan(s, at as nat) == before,
        before.state == RepeatState::Start || before.state == RepeatState::Whitespace,
        before.digits.len() == 0,
        before.start is None,
        1 <= k <= d.len(),
    ensures
        repeat_scan(s, (at + k) as nat).state == RepeatState::Digits,
        repeat_scan(s, (at + k) as nat).digits == d.take(k as int),
        repeat_scan(s, (at + k) as nat).start == Some(at),
    decreases k,
{
    assert(s[at + k - 1] == d[k - 1]);
    assert(is_digit(d[k - 1]));
    if k == 1 {
        assert(d.take(1) =~= seq![d[0]]);
        assert(Seq::<char>::empty().push(d[0]) =~= seq![d[0]]);
    } else {
        lemma_scan_digits(s, at, d, (k - 1) as nat, before);
        assert(d.take(k - 1).push(d[k - 1]) =~= d.take(k as int));
    }
}

/// A reference that starts with a repeat mark, such as `2x Chorus`, repeats the section named
/// by the rest of the text that many times.
pub proof fn lemma_detect_prefix(d: Seq<char>, m: char, w: char, rest: Seq<char>)
    requires
        is_count(d),
        m == 'x' || m == '*',
        is_ws(w),
        !is_blank(rest),
        decimal_value(d) <= usize::MAX,
    ensures
        detect_spec(d + seq![m, w] + rest) == Ok::<(nat, Seq<char>), Seq<char>>(
            (decimal_value(d), trim_spec(rest)),
        ),
{
    let s = d + seq![m, w] + rest;
    let n: int = d.len() as int;
    let start = RepeatAcc { state: RepeatState::Start, capture: seq![], digits: seq![], start: None };
    assert(s.subrange(0, n) =~= d);
    assert(repeat_scan(s, 0) == start);
    lemma_scan_digits(s, 0, d, n as nat, start);
    assert(d.take(n) =~= d);
    assert(s[n] == m);
    assert(s[n + 1] == w);
    assert(repeat_scan(s, (n + 1) as nat).state == RepeatState::Multiplier);
    assert(repeat_scan(s, (n + 2) as nat).state == RepeatState::MatchEnd);
    assert(repeat_scan(s, (n + 2) as nat).digits == d);
    assert(repeat_scan(s, (n + 2) as nat).start == Some(0int));
    lemma_scan_ignores_after_end(s, (n + 2) as nat, s.len());
    let acc = repeat_result(s);
    assert forall|j: nat| 1 <= j <= n implies (#[trigger] repeat_scan(s, j)).state
        == RepeatState::Digits by {
        lemma_scan_digits(s, 0, d, j, start);
    }
    assert forall|k: int| 0 <= k < n implies is_digit(#[trigger] s[k]) by {
        assert(s[k] == d[k]);
    }
    lemma_capture_len_prefix(s, n);
    assert(acc.capture.len() == n + 2);
    assert(s.skip(n + 2) =~= rest);
    lemma_trim_empty_iff_blank(rest);
}

proof fn lemma_capture_len_prefix(s: Seq<char>, n: int)
    requires
        0 < n,
        n + 2 <= s.len(),
        forall|k: int| 0 <= k < n ==> is_digit(#[trigger] s[k]),
        repeat_scan(s, (n + 2) as nat).state == RepeatState::MatchEnd,
        forall|j: nat| 1 <= j <= n ==> (#[trigger] repeat_scan(s, j)).state == RepeatState::Digits,
        repeat_scan(s, (n + 1) as nat).state == RepeatState::Multiplier,
    ensures
        repeat_result(s).capture.len() == n + 2,
{
    assert forall|j: nat| j <= n + 2 implies (#[trigger] repeat_scan(s, j)).capture.len() == j by {
        lemma_capture_grows(s, j, n);
    }
    lemma_scan_ignores_after_end(s, (n + 2) as nat, s.len());
}

proof fn lemma_capture_grows(s: Seq<char>, j: nat, n: int)
    requires
        0 < n,
        n + 2 <= s.len(),
        j <= n + 2,
        forall|i: nat| 1 <= i <= n ==> (#[trigger] repeat_scan(s, i)).state == RepeatState::Digits,
        repeat_scan(s, (n + 1) as nat).state == RepeatState::Multiplier,
        repeat_scan(s, (n + 2) as nat).state == RepeatState::MatchEnd,
    ensures
        repeat_scan(s, j).capture.len() == j,
    decreases j,
{
    if j > 0 {
        lemma_capture_grows(s, (j - 1) as nat, n);
        if j >= 2 {
            assert(repeat_scan(s, (j - 1) as nat).state != RepeatState::MatchEnd);
        }
    }
}

/// A reference that ends with a repeat mark, such as `Interlude 6x`, repeats the section named
/// by the text before the mark that many times (where that text holds no digits).
pub proof fn lemma_detect_suffix(pre: Seq<char>, w: char, d: Seq<char>, m: char)
    requires
        forall|k: int| 0 <= k < pre.len() ==> !is_digit(#[trigger] pre[k]),
        !is_blank(pre),
        is_ws(w),
        is_count(d),
        m == 'x' || m == '*',
        decimal_value(d) <= usize::MAX,
    ensures
        detect_spec(pre + seq![w] + d + seq![m]) == Ok::<(nat, Seq<char>), Seq<char>>(
            (decimal_value(d), trim_spec(pre)),
        ),
{
    let s = pre + seq![w] + d + seq![m];
    let p: int = pre.len() as int;
    let n: int = d.len() as int;
    assert forall|k: int| 0 <= k < p implies s[k] == #[trigger] pre[k] by {}
    lemma_scan_no_digits(s, p as nat, p as nat);
    assert(s[p] == w);
    let after_ws = repeat_scan(s, (p + 1) as nat);
    assert(after_ws.state == RepeatState::Whitespace);
    assert(after_ws.digits.len() == 0);
    assert(after_ws.start is None);
    assert(s.subrange(p + 1, p + 1 + n) =~= d);
    lemma_scan_digits(s, p + 1, d, n as nat, after_ws);
    assert(d.take(n) =~= d);
    assert(s[p + 1 + n] == m);
    assert(repeat_scan(s, s.len()).state == RepeatState::MatchEnd);
    let acc = repeat_result(s);
    assert(acc.start == Some(p + 1));
    assert(acc.digits == d);
    assert(s.take(p + 1) =~= pre.push(w));
    lemma_trim_trailing_ws(pre, w);
    lemma_trim_empty_iff_blank(pre);
}

/// Reading a text without digits leaves the machine waiting for one: nothing is gathered and
/// no mark has started.
proof fn lemma_scan_no_digits(s: Seq<char>, p: nat, j: nat)
    requires
        p < s.len(),
        j <= p,
        forall|k: int| 0 <= k < p ==> !is_digit(#[trigger] s[k]),
    ensures
        ({
            let acc = repeat_scan(s, j);
            &&& acc.state == RepeatState::Start || acc.state == RepeatState::Whitespace
                || acc.state == RepeatState::NoMatch
            &&& acc.digits.len() == 0
            &&& acc.start is None
        }),
    decreases j,
{
    if j > 0 {
        lemma_scan_no_digits(s, p, (j - 1) as nat);
        assert(!is_digit(s[j - 1]));
    }
}

#[derive(Debug, PartialEq)]
pub struct RepeatInfo {
    pub count: usize,
    pub identifier: SectionIdentifier,
}

/// The view of a detection result.
pub open spec fn detect_view(r: Result<RepeatInfo, String>) -> Result<(nat, Seq<char>), Seq<char>> {
    match r {
        Ok(info) => Ok((info.count as nat, info.identifier@)),
        Err(m) => Err(m@),
    }
}

impl RepeatInfo {
    pub fn new(count: usize, identifier: SectionIdentifier) -> (r: RepeatInfo)
        ensures
            r.count == count,
            r.identifier == identifier,
    {
        RepeatInfo { count, identifier }
    }
}

proof fn lemma_decimal_prefix_monotone(ds: Seq<char>, i: int, j: int)
    requires
        0 <= i <= j <= ds.len(),
        forall|k: int| 0 <= k < ds.len() ==> is_digit(#[trigger] ds[k]),
    ensures
        decimal_value(ds.take(i)) <= decimal_value(ds.take(j)),
    decreases j - i,
{
    if i < j {
        lemma_decimal_prefix_monotone(ds, i, j - 1);
        assert(ds.take(j).drop_last() =~= ds.take(j - 1));
        assert(ds.take(j).last() == ds[j - 1]);
    }
}

/// The number that the decimal digits `s` spell, or `None` where it does not fit in `usize`.
pub fn parse_count(s: &str) -> (r: Option<usize>)
    requires
        forall|k: int| 0 <= k < s@.len() ==> is_digit(#[trigger] s@[k]),
    ensures
        r is Some <==> decimal_value(s@) <= usize::MAX,
        r matches Some(n) ==> n == decimal_value(s@),
{
    let v = chars_of(s);
    let mut n: usize = 0;
    let mut i: usize = 0;
    assert(v@.take(0) =~= Seq::<char>::empty());
    while i < v.len()
        invariant
            i <= v.len(),
            v@ == s@,
            forall|k: int| 0 <= k < s@.len() ==> is_digit(#[trigger] s@[k]),
            n == decimal_value(v@.take(i as int)),
        decreases v.len() - i,
    {
        let d = (v[i] as u32 - '0' as u32) as usize;
        assert(v@.take(i + 1).drop_last() =~= v@.take(i as int));
        assert(v@.take(i + 1).last() == v@[i as int]);
        match n.checked_mul(10) {
            Some(m) => match m.checked_add(d) {
                Some(k) => {
                    n = k;
                },
                None => {
                    proof {
                        lemma_decimal_prefix_monotone(v@, i + 1, v@.len() as int);
                        assert(v@.take(v@.len() as int) =~= v@);
                    }
                    return None;
                },
            },
            None => {
                proof {
                    lemma_decimal_prefix_monotone(v@, i + 1, v@.len() as int);
                    assert(v@.take(v@.len() as int) =~= v@);
                }
                return None;
            },
        }
        i = i + 1;
    }
    assert(v@.take(v@.len() as int) =~= v@);
    Some(n)
}

/// The first `end` characters of `value`.
pub fn substring_to(value: &str, end: usize) -> (r: String)
    ensures
        r@ == take_chars(value@, end as int),
{
    let v = chars_of(value);
    if end >= v.len() {
        return value.to_owned();
    }
    let r = string_from_range(&v, 0, end);
    assert(v@.subrange(0, end as int) =~= v@.take(end as int));
    r
}

/// `value` without its first `start` characters.
pub fn substring_from(value: &str, start: usize) -> (r: String)
    ensures
        r@ == skip_chars(value@, start as int),
{
    let v = chars_of(value);
    if start >= v.len() {
        return String::new();
    }
    let r = string_from_range(&v, start, v.len());
    assert(v@.subrange(start as int, v@.len() as int) =~= v@.skip(start as int));
    r
}

#[derive(Default)]
pub struct RepeatDetector {}

impl RepeatDetector {
    pub fn new() -> (r: RepeatDetector) {
        RepeatDetector {  }
    }

    /// Find the repeat count and the section name in a reference such as `2x Chorus`.
    pub fn detect(&self, value: &str) -> (r: Result<RepeatInfo, String>)
        ensures
            detect_view(r) == detect_spec(value@),
    {
        let repeat_match = match StateMachine::new().matches(value) {
            Ok(m) => m,
            Err(e) => return Err(e),
        };
        proof {
            lemma_start_set(value@, value@.len());
        }
        let RepeatMatch { capture_start, capture, digit_capture } = repeat_match;
        let repeat_count = match parse_count(digit_capture.as_str()) {
            Some(c) => c,
            None => {
                return Err(
                    "Parsing the count failed: number too large to fit in target type".to_owned(),
                )
            },
        };
        let identifier = match self.get_identifier_for_capture(
            value,
            capture.as_str(),
            capture_start,
        ) {
            Ok(i) => i,
            Err(e) => return Err(e),
        };
        Ok(RepeatInfo::new(repeat_count, identifier))
    }

    fn get_identifier_for_capture(&self, value: &str, capture: &str, capture_start: usize) -> (r:
        Result<SectionIdentifier, String>)
        ensures
            trim_spec(identifier_text(value@, capture@, capture_start as int)).len() > 0 <==> r is Ok,
            r matches Ok(id) ==> id@ == trim_spec(
                identifier_text(value@, capture@, capture_start as int),
            ),
            r matches Err(m) ==> m@ == "Section identifier must not be empty"@,
    {
        let s = self.get_substring_for_identifier(value, capture_start, capture);
        SectionIdentifier::try_from_str(s.as_str())
    }

    fn get_substring_for_identifier(&self, value: &str, capture_start: usize, capture: &str) -> (r:
        String)
        ensures
            r@ == identifier_text(value@, capture@, capture_start as int),
    {
        if capture_start == 0 {
            // `value` starts with `capture`: cut the prefix off
            let n = chars_of(capture).len();
            substring_from(value, n)
        } else {
            substring_to(value, capture_start)
        }
    }
}

} // verus!
