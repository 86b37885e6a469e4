//! Recognition of control sequences of the form `ESC [ ? params letter` in
//! decoded text.

use vstd::prelude::*;

verus! {

/// The escape character that opens a control sequence.
pub const ESC: char = '\u{1b}';

/// A control sequence as it was read: its numeric parameters in order,
/// whether it was marked private by a `?`, and the letter that ended it.
#[derive(Debug)]
pub struct EscapeSequence {
    pub params: Vec<u32>,
    pub private: bool,
    pub final_byte: char,
}

/// A recognised control sequence and the number of characters it takes up,
/// the two introducers included.
pub struct Csi {
    pub params: Seq<u32>,
    pub private: bool,
    pub final_byte: char,
    pub len: int,
}

impl EscapeSequence {
    /// The sequence that this value holds, taking up `len` characters.
    pub open spec fn as_csi(self, len: int) -> Csi {
        Csi { params: self.params@, private: self.private, final_byte: self.final_byte, len }
    }
}

/// What a result of reading says was recognised.
pub open spec fn read_as(found: Option<(EscapeSequence, usize)>) -> Option<Csi> {
    match found {
        Some((sequence, len)) => Some(sequence.as_csi(len as int)),
        None => None,
    }
}

/// A decimal digit.
pub open spec fn is_digit(c: char) -> bool {
    '0' as u32 <= c as u32 <= '9' as u32
}

/// A letter `A-Z` or `a-z`: what ends a control sequence.
pub open spec fn is_final(c: char) -> bool {
    ||| 'A' as u32 <= c as u32 <= 'Z' as u32
    ||| 'a' as u32 <= c as u32 <= 'z' as u32
}

/// The number that a run of decimal digits writes.
pub open spec fn digits_value(digits: Seq<char>) -> nat
    decreases digits.len(),
{
    if digits.len() == 0 {
        0
    } else {
        (digits_value(digits.drop_last()) * 10 + (digits.last() as u32 - '0' as u32)) as nat
    }
}

/// The parameter that a run of digits stands for: its value, or 0 where the
/// run is empty or its value is beyond `u32`.
pub open spec fn param_value(digits: Seq<char>) -> u32 {
    if digits_value(digits) <= u32::MAX {
        digits_value(digits) as u32
    } else {
        0
    }
}

/// Reads on from index `i`, with the parameters `params` finished and the
/// digits `digits` of the current one read so far. A digit joins the current
/// parameter, a `;` finishes it, and a letter ends the sequence, finishing a
/// current parameter that has digits. Gives the parameters, the letter and the
/// index after it; or `None` where another character or the end of the text
/// comes first.
pub open spec fn scan_from(text: Seq<char>, i: int, params: Seq<u32>, digits: Seq<char>) -> Option<
    (Seq<u32>, char, int),
>
    decreases text.len() - i,
{
    if i < 0 || i >= text.len() {
        None
    } else if is_digit(text[i]) {
        scan_from(text, i + 1, params, digits.push(text[i]))
    } else if text[i] == ';' {
        scan_from(text, i + 1, params.push(param_value(digits)), Seq::empty())
    } else if is_final(text[i]) {
        Some(
            (
                if digits.len() > 0 {
                    params.push(param_value(digits))
                } else {
                    params
                },
                text[i],
                i + 1,
            ),
        )
    } else {
        None
    }
}

/// The control sequence that begins at `start`, where the two introducers
/// `ESC [` stand: an optional `?`, then parameters, then the letter. `None`
/// where fewer than three characters are left or no letter ends the sequence.
pub open spec fn csi_at(text: Seq<char>, start: int) -> Option<Csi> {
    if start < 0 || text.len() - start < 3 {
        None
    } else {
        let private = text[start + 2] == '?';
        let body = if private {
            start + 3
        } else {
            start + 2
        };
        match scan_from(text, body, Seq::empty(), Seq::empty()) {
            Some((params, final_byte, end)) => Some(
                Csi { params, private, final_byte, len: end - start },
            ),
            None => None,
        }
    }
}

/// An introducer pair `ESC [` stands at `start`.
pub open spec fn introducer_at(text: Seq<char>, start: int) -> bool {
    &&& 0 <= start
    &&& start + 1 < text.len()
    &&& text[start] == ESC
    &&& text[start + 1] == '['
}

proof fn lemma_digits_push(digits: Seq<char>, c: char)
    requires
        is_digit(c),
    ensures
        digits_value(digits.push(c)) == digits_value(digits) * 10 + (c as u32 - '0' as u32),
{
    assert(digits.push(c).drop_last() =~= digits);
}

/// A scan ends after the index it began at, and within the text.
pub proof fn lemma_scan_bounds(text: Seq<char>, i: int, params: Seq<u32>, digits: Seq<char>)
    requires
        0 <= i,
    ensures
        match scan_from(text, i, params, digits) {
            Some((_, c, end)) => i < end <= text.len() && is_final(c) && text[end - 1] == c,
            None => true,
        },
    decreases text.len() - i,
{
    if i >= text.len() {
    } else if is_digit(text[i]) {
        lemma_scan_bounds(text, i + 1, params, digits.push(text[i]));
    } else if text[i] == ';' {
        lemma_scan_bounds(text, i + 1, params.push(param_value(digits)), Seq::empty());
    }
}

/// Every character that a scan passes is a digit, a `;` or the final letter:
/// all of them ASCII.
pub proof fn lemma_scan_ascii(text: Seq<char>, i: int, params: Seq<u32>, digits: Seq<char>)
    requires
        0 <= i,
    ensures
        match scan_from(text, i, params, digits) {
            Some((_, _, end)) => forall|k: int| i <= k < end ==> (#[trigger] text[k]) as u32 <= 127,
            None => true,
        },
    decreases text.len() - i,
{
    if i >= text.len() {
    } else if is_digit(text[i]) {
        lemma_scan_ascii(text, i + 1, params, digits.push(text[i]));
    } else if text[i] == ';' {
        lemma_scan_ascii(text, i + 1, params.push(param_value(digits)), Seq::empty());
    }
}

/// A recognised control sequence takes up at least three characters, lies
/// within the text, and consists of ASCII characters only: one byte each in
/// the encoded text, so that its length is the same counted in bytes.
pub proof fn lemma_csi_extent(text: Seq<char>, start: int)
    requires
        introducer_at(text, start),
    ensures
        match csi_at(text, start) {
            Some(csi) => {
                &&& 3 <= csi.len
                &&& start + csi.len <= text.len()
                &&& is_final(csi.final_byte)
                &&& forall|k: int|
                    start <= k < start + csi.len ==> (#[trigger] text[k]) as u32 <= 127
            },
            None => true,
        },
{
    if text.len() - start >= 3 {
        let private = text[start + 2] == '?';
        let body = if private {
            start + 3
        } else {
            start + 2
        };
        lemma_scan_bounds(text, body, Seq::empty(), Seq::empty());
        lemma_scan_ascii(text, body, Seq::empty(), Seq::empty());
    }
}

/// Reads the control sequence that begins at `start`, where `ESC [` stands.
/// Gives the sequence and the number of characters it takes up, or `None`
/// where the text holds no complete sequence there.
pub fn scan_escape_sequence(text: &[char], start: usize) -> (found: Option<(EscapeSequence, usize)>)
    requires
        start <= text.len(),
    ensures
        read_as(found) == csi_at(text@, start as int),
{
    if text.len() - start < 3 {
        return None;
    }
    let mut i: usize = start + 2;
    let private = text[i] == '?';
    if private {
        i = i + 1;
    }
    let ghost body = i as int;
    let mut params: Vec<u32> = Vec::new();
    let mut value: u32 = 0;
    let mut overflow = false;
    let mut has_digits = false;
    let ghost mut digits: Seq<char> = Seq::empty();
    while i < text.len()
        invariant
            start + 2 <= body <= i <= text.len(),
            private == (text@[start + 2] == '?'),
            body == if private {
                start + 3
            } else {
                start + 2
            },
            has_digits == (digits.len() > 0),
            !overflow ==> value == digits_value(digits),
            overflow ==> digits_value(digits) > u32::MAX,
            scan_from(text@, i as int, params@, digits) == scan_from(
                text@,
                body,
                Seq::empty(),
                Seq::empty(),
            ),
        decreases text.len() - i,
    {
        let c: char = text[i];
        let code: u32 = c as u32;
        if 48 <= code && code <= 57 {
            proof {
                lemma_digits_push(digits, c);
                digits = digits.push(c);
            }
            let digit: u32 = code - 48;
            if !overflow {
                if value > (u32::MAX - digit) / 10 {
                    overflow = true;
                } else {
                    value = value * 10 + digit;
                }
            }
            has_digits = true;
        } else if c == ';' {
            params.push(
                if overflow {
                    0
                } else {
                    value
                },
            );
            value = 0;
            overflow = false;
            has_digits = false;
            proof {
                digits = Seq::empty();
            }
        } else if (65 <= code && code <= 90) || (97 <= code && code <= 122) {
            if has_digits {
                params.push(
                    if overflow {
                        0
                    } else {
                        value
                    },
                );
            }
            let len: usize = i + 1 - start;
            return Some((EscapeSequence { params, private, final_byte: c }, len));
        } else {
            return None;
        }
        i = i + 1;
    }
    None
}

} // verus!
