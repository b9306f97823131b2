//! Texts as sequences of characters.

use vstd::prelude::*;

verus! {

/// Whether a character has the Unicode property White_Space.
pub uninterp spec fn whitespace(c: char) -> bool;

/// Whether a character has the Unicode property Alphabetic.
pub uninterp spec fn alphabetic(c: char) -> bool;

/// Whether a character has the Unicode property Uppercase.
pub uninterp spec fn uppercase(c: char) -> bool;

/// `char::is_whitespace` says whether the character has the property
/// White_Space of the Unicode character database; that is all that is
/// claimed of it here.
pub assume_specification[ char::is_whitespace ](c: char) -> (res: bool)
    ensures
        res == whitespace(c),
;

/// `char::is_alphabetic` says whether the character has the property
/// Alphabetic of the Unicode character database.
pub assume_specification[ char::is_alphabetic ](c: char) -> (res: bool)
    ensures
        res == alphabetic(c),
;

/// `char::is_uppercase` says whether the character has the property
/// Uppercase of the Unicode character database.
pub assume_specification[ char::is_uppercase ](c: char) -> (res: bool)
    ensures
        res == uppercase(c),
;

/// `String::push` appends the character to the end of the string.
pub assume_specification[ std::string::String::push ](s: &mut std::string::String, ch: char)
    ensures
        final(s)@ == old(s)@.push(ch),
;

/// The text of the characters `chars[from..to]`.
pub(crate) fn string_of(chars: &Vec<char>, from: usize, to: usize) -> (res: String)
    requires
        from <= to <= chars@.len(),
    ensures
        res@ == chars@.subrange(from as int, to as int),
{
    let mut out = String::new();
    let mut i: usize = from;
    while i < to
        invariant
            from <= i <= to <= chars@.len(),
            out@ == chars@.subrange(from as int, i as int),
        decreases to - i,
    {
        out.push(chars[i]);
        i += 1;
        assert(out@ =~= chars@.subrange(from as int, i as int));
    }
    out
}

/// The characters of a text.
pub fn chars_of(s: &str) -> (res: Vec<char>)
    ensures
        res@ == s@,
{
    let mut out: Vec<char> = Vec::new();
    for c in iter: s.chars()
        invariant
            iter.seq() == s@,
            out@ == s@.take(iter.index()),
    {
        out.push(c);
        assert(out@ =~= s@.take(iter.index() + 1));
    }
    assert(out@ =~= s@);
    out
}


/// What a decimal digit counts.
pub open spec fn digit_value(c: char) -> Option<nat> {
    if '0' <= c <= '9' {
        Some((c as u32 - '0' as u32) as nat)
    } else {
        None
    }
}

/// The number that a text of decimal digits spells. A text with anything
/// else in it spells none; the empty text spells 0.
pub open spec fn natural_of(s: Seq<char>) -> Option<nat>
    decreases s.len(),
{
    if s.len() == 0 {
        Some(0)
    } else {
        match (natural_of(s.drop_last()), digit_value(s.last())) {
            (Some(n), Some(d)) => Some(n * 10 + d),
            _ => None,
        }
    }
}

/// The integer that a text spells: an optional sign, then at least one
/// decimal digit and nothing else, for a number that fits in 64 bits.
pub open spec fn integer_of(s: Seq<char>) -> Option<i64> {
    let signed = s.len() > 0 && (s[0] == '-' || s[0] == '+');
    let negative = s.len() > 0 && s[0] == '-';
    let body = if signed {
        s.drop_first()
    } else {
        s
    };
    if body.len() == 0 {
        None
    } else {
        match natural_of(body) {
            None => None,
            Some(n) => if negative {
                if n <= 0x8000_0000_0000_0000 {
                    Some((-n) as i64)
                } else {
                    None
                }
            } else {
                if n <= 0x7fff_ffff_ffff_ffff {
                    Some(n as i64)
                } else {
                    None
                }
            },
        }
    }
}

/// Reads the digits `chars[from..]` as a number. `None` stands for a text
/// that is no number or a number above 2^63.
fn parse_natural(chars: &Vec<char>, from: usize) -> (res: Option<u64>)
    requires
        from <= chars@.len(),
    ensures
        match res {
            Some(n) => natural_of(chars@.skip(from as int)) == Some(n as nat) && n
                <= 0x8000_0000_0000_0000,
            None => match natural_of(chars@.skip(from as int)) {
                Some(n) => n > 0x8000_0000_0000_0000,
                None => true,
            },
        },
{
    let ghost body = chars@.skip(from as int);
    let mut acc: u64 = 0;
    let mut too_big = false;
    let mut i: usize = from;
    assert(body.take(0) =~= Seq::empty());
    while i < chars.len()
        invariant
            from <= i <= chars@.len(),
            body == chars@.skip(from as int),
            acc <= 0x8000_0000_0000_0000,
            natural_of(body.take(i - from)) matches Some(n) && if too_big {
                n > 0x8000_0000_0000_0000
            } else {
                n == acc
            },
        decreases chars.len() - i,
    {
        let c = chars[i];
        let ghost prefix = body.take(i - from + 1);
        proof {
            assert(prefix.drop_last() =~= body.take(i - from));
            assert(prefix.last() == c);
        }
        if c < '0' || c > '9' {
            proof {
                lemma_natural_of_needs_digits(body, i - from);
            }
            return None;
        }
        let d: u64 = (c as u32 - '0' as u32) as u64;
        if too_big || acc > 922337203685477580 {
            too_big = true;
        } else {
            acc = acc * 10 + d;
            if acc > 0x8000_0000_0000_0000 {
                too_big = true;
                acc = 0;
            }
        }
        i += 1;
    }
    assert(body.take(i - from) =~= body);
    if too_big {
        None
    } else {
        Some(acc)
    }
}

/// A text with something else than a digit at `at` spells no number.
proof fn lemma_natural_of_needs_digits(s: Seq<char>, at: int)
    requires
        0 <= at < s.len(),
        digit_value(s[at]) is None,
    ensures
        natural_of(s) is None,
    decreases s.len(),
{
    if at < s.len() - 1 {
        lemma_natural_of_needs_digits(s.drop_last(), at);
    }
}

/// Reads a text as an integer.
pub fn parse_integer(s: &str) -> (res: Option<i64>)
    ensures
        res == integer_of(s@),
{
    let chars = chars_of(s);
    let n = chars.len();
    if n == 0 {
        return None;
    }
    let signed = chars[0] == '-' || chars[0] == '+';
    let negative = chars[0] == '-';
    let from: usize = if signed {
        1
    } else {
        0
    };
    assert(chars@.skip(1) =~= chars@.drop_first());
    assert(chars@.skip(0) =~= chars@);
    if from == n {
        return None;
    }
    match parse_natural(&chars, from) {
        None => None,
        Some(magnitude) => {
            if negative {
                if magnitude == 0x8000_0000_0000_0000 {
                    Some(i64::MIN)
                } else {
                    Some(-(magnitude as i64))
                }
            } else if magnitude <= 0x7fff_ffff_ffff_ffff {
                Some(magnitude as i64)
            } else {
                None
            }
        },
    }
}

} // verus!
