//! Reading the version that `codex --version` prints.

use vstd::prelude::*;
use crate::text::chars_of;

verus! {

/// The characters that Unicode gives the `White_Space` property
/// (those for which `char::is_whitespace` holds).
pub open spec fn is_white_space(c: char) -> bool {
    let code = c as u32;
    (9 <= code <= 13) || code == 32 || code == 0x85 || code == 0xa0 || code == 0x1680 || (0x2000
        <= code <= 0x200a) || code == 0x2028 || code == 0x2029 || code == 0x202f || code == 0x205f
        || code == 0x3000
}

pub open spec fn is_ascii_digit(c: char) -> bool {
    48 <= (c as u32) <= 57
}

/// The characters that are (`white`) or are not white space.
pub open spec fn white(white: bool) -> spec_fn(char) -> bool {
    |c: char| is_white_space(c) == white
}

/// The characters that are (`equal`) or are not `target`.
pub open spec fn matching(target: char, equal: bool) -> spec_fn(char) -> bool {
    |c: char| (c == target) == equal
}

/// The first position from `i` on whose character is not kept (the length
/// when all are kept).
pub open spec fn advance_while(s: Seq<char>, i: int, keep: spec_fn(char) -> bool) -> int
    decreases s.len() - i,
{
    if 0 <= i < s.len() && keep(s[i]) {
        advance_while(s, i + 1, keep)
    } else {
        i
    }
}

pub proof fn lemma_advance_while(s: Seq<char>, i: int, keep: spec_fn(char) -> bool)
    requires
        0 <= i <= s.len(),
    ensures
        i <= advance_while(s, i, keep) <= s.len(),
        advance_while(s, i, keep) < s.len() ==> !keep(s[advance_while(s, i, keep)]),
        forall|j: int| i <= j < advance_while(s, i, keep) ==> keep(#[trigger] s[j]),
    decreases s.len() - i,
{
    if i < s.len() && keep(s[i]) {
        lemma_advance_while(s, i + 1, keep);
    }
}

/// The first whitespace-separated token from position `i` on whose first
/// character after any leading `v`s is a decimal digit.
pub open spec fn version_token(s: Seq<char>, i: int) -> Option<Seq<char>>
    decreases s.len() - i,
{
    if i < 0 || i >= s.len() {
        None
    } else {
        let start = advance_while(s, i, white(true));
        if start >= s.len() {
            None
        } else {
            let end = advance_while(s, start, white(false));
            proof {
                lemma_advance_while(s, i, white(true));
                lemma_advance_while(s, start, white(false));
            }
            let token = s.subrange(start, end);
            if is_version_like(token) {
                Some(token)
            } else {
                version_token(s, end)
            }
        }
    }
}

/// The token without its leading `v`s.
pub open spec fn strip_v(token: Seq<char>) -> Seq<char> {
    token.skip(advance_while(token, 0, matching('v', true)))
}

pub open spec fn is_version_like(token: Seq<char>) -> bool {
    let rest = strip_v(token);
    rest.len() > 0 && is_ascii_digit(rest[0])
}

/// The text before the first `c` (all of it when there is none).
pub open spec fn before(text: Seq<char>, c: char) -> Seq<char> {
    text.take(advance_while(text, 0, matching(c, false)))
}

/// The text after the first `c`, if there is one.
pub open spec fn after(text: Seq<char>, c: char) -> Option<Seq<char>> {
    let at = advance_while(text, 0, matching(c, false));
    if at < text.len() {
        Some(text.skip(at + 1))
    } else {
        None
    }
}

/// The value of a string of decimal digits.
pub open spec fn decimal(digits: Seq<char>) -> int
    decreases digits.len(),
{
    if digits.len() == 0 {
        0
    } else {
        decimal(digits.drop_last()) * 10 + (digits.last() as u32 - 48)
    }
}

/// The text without one leading `+`.
pub open spec fn unsigned_digits(text: Seq<char>) -> Seq<char> {
    if text.len() > 0 && text[0] == '+' {
        text.drop_first()
    } else {
        text
    }
}

pub open spec fn all_digits(digits: Seq<char>) -> bool {
    forall|i: int| 0 <= i < digits.len() ==> is_ascii_digit(#[trigger] digits[i])
}

/// `u16::from_str`: an optional `+`, then at least one decimal digit, of a
/// value that fits.
pub open spec fn parse_u16(text: Seq<char>) -> Option<u16> {
    let digits = unsigned_digits(text);
    if digits.len() > 0 && all_digits(digits) && decimal(digits) <= 65535 {
        Some(decimal(digits) as u16)
    } else {
        None
    }
}

/// The version in the output of `codex --version`: in the first token that
/// looks like a version, the dot-separated major, minor and patch numbers,
/// where a `-` ends the patch number.
pub open spec fn parsed_version(value: Seq<char>) -> Option<(u16, u16, u16)> {
    match version_token(value, 0) {
        None => None,
        Some(token) => {
            let rest = strip_v(token);
            match after(rest, '.') {
                None => None,
                Some(tail) => match after(tail, '.') {
                    None => None,
                    Some(last) => match (
                        parse_u16(before(rest, '.')),
                        parse_u16(before(tail, '.')),
                        parse_u16(before(before(last, '.'), '-')),
                    ) {
                        (Some(major), Some(minor), Some(patch)) => Some((major, minor, patch)),
                        _ => None,
                    },
                },
            }
        },
    }
}

/// Lexicographic order of versions.
pub open spec fn version_at_least(version: (u16, u16, u16), minimum: (u16, u16, u16)) -> bool {
    version.0 > minimum.0 || (version.0 == minimum.0 && (version.1 > minimum.1 || (version.1
        == minimum.1 && version.2 >= minimum.2)))
}

fn is_white_char(c: char) -> (white: bool)
    ensures
        white == is_white_space(c),
{
    let code = c as u32;
    (9 <= code && code <= 13) || code == 32 || code == 0x85 || code == 0xa0 || code == 0x1680 || (
    0x2000 <= code && code <= 0x200a) || code == 0x2028 || code == 0x2029 || code == 0x202f || code
        == 0x205f || code == 0x3000
}

/// `advance_while` over white space (`white`) or over other characters.
fn advance_white(s: &Vec<char>, i: usize, white_chars: bool) -> (end: usize)
    requires
        i <= s@.len(),
    ensures
        end == advance_while(s@, i as int, white(white_chars)),
{
    let mut j = i;
    while j < s.len() && is_white_char(s[j]) == white_chars
        invariant
            i <= j <= s@.len(),
            advance_while(s@, i as int, white(white_chars)) == advance_while(s@, j as int, white(white_chars)),
        decreases s@.len() - j,
    {
        j = j + 1;
    }
    j
}

/// `advance_while` over the character `target` (`equal`) or over others.
fn advance_char(s: &Vec<char>, i: usize, target: char, equal: bool) -> (end: usize)
    requires
        i <= s@.len(),
    ensures
        end == advance_while(s@, i as int, matching(target, equal)),
{
    let mut j = i;
    while j < s.len() && (s[j] == target) == equal
        invariant
            i <= j <= s@.len(),
            advance_while(s@, i as int, matching(target, equal)) == advance_while(
                s@,
                j as int,
                matching(target, equal),
            ),
        decreases s@.len() - j,
    {
        j = j + 1;
    }
    j
}

fn sub_chars(s: &Vec<char>, start: usize, end: usize) -> (part: Vec<char>)
    requires
        start <= end <= s@.len(),
    ensures
        part@ == s@.subrange(start as int, end as int),
{
    let mut part: Vec<char> = Vec::new();
    let mut i = start;
    while i < end
        invariant
            start <= i <= end <= s@.len(),
            part@ == s@.subrange(start as int, i as int),
        decreases end - i,
    {
        part.push(s[i]);
        assert(s@.subrange(start as int, i + 1) =~= s@.subrange(start as int, i as int).push(s@[i as int]));
        i = i + 1;
    }
    part
}

proof fn lemma_decimal_grows(digits: Seq<char>, k: int)
    requires
        0 <= k <= digits.len(),
        forall|i: int| 0 <= i < digits.len() ==> is_ascii_digit(#[trigger] digits[i]),
    ensures
        decimal(digits.take(k)) <= decimal(digits),
    decreases digits.len(),
{
    if k < digits.len() {
        let shorter = digits.drop_last();
        assert forall|i: int| 0 <= i < shorter.len() implies is_ascii_digit(#[trigger] shorter[i]) by {
            assert(shorter[i] == digits[i]);
        }
        lemma_decimal_grows(shorter, k);
        assert(shorter.take(k) =~= digits.take(k));
        assert(decimal(shorter) >= 0) by {
            lemma_decimal_nonnegative(shorter);
        }
    } else {
        assert(digits.take(k) =~= digits);
    }
}

proof fn lemma_decimal_nonnegative(digits: Seq<char>)
    requires
        forall|i: int| 0 <= i < digits.len() ==> is_ascii_digit(#[trigger] digits[i]),
    ensures
        decimal(digits) >= 0,
    decreases digits.len(),
{
    if digits.len() > 0 {
        let shorter = digits.drop_last();
        assert forall|i: int| 0 <= i < shorter.len() implies is_ascii_digit(#[trigger] shorter[i]) by {
            assert(shorter[i] == digits[i]);
        }
        lemma_decimal_nonnegative(shorter);
        assert(is_ascii_digit(digits[digits.len() - 1]));
    }
}

fn parse_u16_chars(text: &Vec<char>) -> (value: Option<u16>)
    ensures
        value == parse_u16(text@),
{
    let n = text.len();
    let start: usize = if n > 0 && text[0] == '+' { 1 } else { 0 };
    let ghost digits = unsigned_digits(text@);
    assert(digits =~= text@.subrange(start as int, n as int));
    if start == n {
        return None;
    }
    let mut value: u32 = 0;
    let mut i = start;
    while i < n
        invariant
            start <= i <= n,
            n == text@.len(),
            digits == text@.subrange(start as int, n as int),
            digits == unsigned_digits(text@),
            forall|j: int| 0 <= j < i - start ==> is_ascii_digit(#[trigger] digits[j]),
            value as int == decimal(digits.take(i - start)),
            value <= 65535,
        decreases n - i,
    {
        let code = text[i] as u32;
        assert(digits[i - start] == text@[i as int]);
        if code < 48 || code > 57 {
            assert(!is_ascii_digit(digits[i - start]));
            assert(!all_digits(digits));
            return None;
        }
        let ghost taken = digits.take(i + 1 - start);
        assert(taken.drop_last() =~= digits.take(i - start));
        assert(taken.last() == text@[i as int]);
        assert(decimal(taken) == decimal(digits.take(i - start)) * 10 + (code - 48));
        let next = value * 10 + (code - 48);
        if next > 65535 {
            proof {
                if all_digits(digits) {
                    lemma_decimal_grows(digits, i + 1 - start);
                }
            }
            return None;
        }
        value = next;
        i = i + 1;
    }
    assert(digits.take(n - start) =~= digits);
    Some(value as u16)
}

/// The version that `codex --version` printed, if any.
pub fn parse_version(value: &str) -> (version: Option<(u16, u16, u16)>)
    ensures
        version == parsed_version(value@),
{
    let s = chars_of(value);
    let token = match find_version_token(&s) {
        Some(token) => token,
        None => {
            return None;
        },
    };
    let skipped = advance_char(&token, 0, 'v', true);
    proof {
        lemma_advance_while(token@, 0, matching('v', true));
    }
    let rest = sub_chars(&token, skipped, token.len());
    assert(rest@ =~= strip_v(token@));
    let first_dot = advance_char(&rest, 0, '.', false);
    proof {
        lemma_advance_while(rest@, 0, matching('.', false));
    }
    if first_dot >= rest.len() {
        return None;
    }
    let major_text = sub_chars(&rest, 0, first_dot);
    let tail = sub_chars(&rest, first_dot + 1, rest.len());
    assert(tail@ =~= rest@.skip(first_dot + 1));
    let second_dot = advance_char(&tail, 0, '.', false);
    proof {
        lemma_advance_while(tail@, 0, matching('.', false));
    }
    if second_dot >= tail.len() {
        return None;
    }
    let minor_text = sub_chars(&tail, 0, second_dot);
    let last = sub_chars(&tail, second_dot + 1, tail.len());
    assert(last@ =~= tail@.skip(second_dot + 1));
    let third_dot = advance_char(&last, 0, '.', false);
    proof {
        lemma_advance_while(last@, 0, matching('.', false));
    }
    let patch_field = sub_chars(&last, 0, third_dot);
    let dash = advance_char(&patch_field, 0, '-', false);
    proof {
        lemma_advance_while(patch_field@, 0, matching('-', false));
    }
    let patch_text = sub_chars(&patch_field, 0, dash);
    let major = match parse_u16_chars(&major_text) {
        Some(major) => major,
        None => {
            return None;
        },
    };
    let minor = match parse_u16_chars(&minor_text) {
        Some(minor) => minor,
        None => {
            return None;
        },
    };
    let patch = match parse_u16_chars(&patch_text) {
        Some(patch) => patch,
        None => {
            return None;
        },
    };
    Some((major, minor, patch))
}

fn find_version_token(s: &Vec<char>) -> (token: Option<Vec<char>>)
    ensures
        match token {
            Some(token) => version_token(s@, 0) == Some(token@),
            None => version_token(s@, 0).is_none(),
        },
{
    let n = s.len();
    let mut i: usize = 0;
    loop
        invariant
            i <= n,
            n == s@.len(),
            version_token(s@, 0) == version_token(s@, i as int),
        decreases n - i,
    {
        if i >= n {
            return None;
        }
        let start = advance_white(s, i, true);
        proof {
            lemma_advance_while(s@, i as int, white(true));
        }
        if start >= n {
            return None;
        }
        let end = advance_white(s, start, false);
        proof {
            lemma_advance_while(s@, start as int, white(false));
        }
        let candidate = sub_chars(s, start, end);
        let skipped = advance_char(&candidate, 0, 'v', true);
        proof {
            lemma_advance_while(candidate@, 0, matching('v', true));
        }
        if skipped < candidate.len() && is_digit_char(candidate[skipped]) {
            return Some(candidate);
        }
        i = end;
    }
}

fn is_digit_char(c: char) -> (digit: bool)
    ensures
        digit == is_ascii_digit(c),
{
    let code = c as u32;
    48 <= code && code <= 57
}

} // verus!
