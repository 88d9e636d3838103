//! A fixed 128-bit seed for a deterministic random number generator, and a
//! byte-level parser for its bracketed text form `[w0, w1, w2, w3]`.

use vstd::prelude::*;

verus! {

/// Error returned when a seed string does not parse.
#[derive(Clone, Copy, Debug, Eq, PartialEq, Structural)]
pub struct ParseError;

/// Four 32-bit words seeding a deterministic random number generator.
#[derive(Clone, Copy, Debug, Eq, PartialEq, Hash)]
pub struct Seed(pub [u32; 4]);

/// ASCII whitespace, the only whitespace this byte-level parser skips.
pub open spec fn is_ws(b: u8) -> bool {
    b == 0x20 || (0x09 <= b && b <= 0x0d)
}

/// ASCII decimal digit.
pub open spec fn is_digit(b: u8) -> bool {
    0x30 <= b && b <= 0x39
}

/// Index of the first non-whitespace byte at or after `i`.
pub open spec fn ws_end(s: Seq<u8>, i: int) -> int
    decreases s.len() - i,
{
    if 0 <= i && i < s.len() && is_ws(s[i]) {
        ws_end(s, i + 1)
    } else {
        i
    }
}

/// Index just past the run of digits starting at `i`.
pub open spec fn digits_end(s: Seq<u8>, i: int) -> int
    decreases s.len() - i,
{
    if 0 <= i && i < s.len() && is_digit(s[i]) {
        digits_end(s, i + 1)
    } else {
        i
    }
}

/// 32-bit wrapping multiplication.
pub open spec fn w_mul(a: u32, b: u32) -> u32 {
    (((a as int) * (b as int)) % 0x1_0000_0000) as u32
}

/// 32-bit wrapping addition.
pub open spec fn w_add(a: u32, b: u32) -> u32 {
    (((a as int) + (b as int)) % 0x1_0000_0000) as u32
}

/// Value of the digit run `s[i..j)`, accumulated left to right with 32-bit
/// wrapping arithmetic.
pub open spec fn num_val(s: Seq<u8>, i: int, j: int) -> u32
    decreases j - i,
{
    if j <= i {
        0u32
    } else {
        w_add(w_mul(num_val(s, i, j - 1), 10), (s[j - 1] - 0x30) as u32)
    }
}

/// A digit run of length at least one starting at `i`, its value and its end.
pub open spec fn parse_num(s: Seq<u8>, i: int) -> Option<(u32, int)> {
    let j = digits_end(s, i);
    if j > i {
        Some((num_val(s, i, j), j))
    } else {
        None
    }
}

/// One element of the bracketed list: optional whitespace, a comma when the
/// element is not the first, optional whitespace again, then a digit run.
pub open spec fn parse_elem(s: Seq<u8>, i: int, need_comma: bool) -> Option<(u32, int)> {
    let a = ws_end(s, i);
    if need_comma {
        if a < s.len() && s[a] == 0x2c {
            parse_num(s, ws_end(s, a + 1))
        } else {
            None
        }
    } else {
        parse_num(s, a)
    }
}

/// Remaining elements of the list from position `i`, when `done` of the four
/// have already been read, followed by optional whitespace and the closing
/// bracket; pairs the values with the position where the elements ended.
pub open spec fn seed_parse_from(s: Seq<u8>, i: int, done: int) -> Option<(Seq<u32>, int)>
    decreases 4 - done,
{
    if done >= 4 {
        let e = ws_end(s, i);
        if e < s.len() && s[e] == 0x5d {
            Some((Seq::empty(), i))
        } else {
            None
        }
    } else {
        match parse_elem(s, i, done > 0) {
            Some(p) => match seed_parse_from(s, p.1, done + 1) {
                Some(q) => Some((seq![p.0] + q.0, q.1)),
                None => None,
            },
            None => None,
        }
    }
}

/// The whole grammar: `ws* '[' ws* n (ws* ',' ws* n){3} ws* ']'`, anything
/// after the closing bracket ignored.
pub open spec fn seed_parse(s: Seq<u8>) -> Option<Seq<u32>> {
    let a = ws_end(s, 0);
    if a < s.len() && s[a] == 0x5b {
        match seed_parse_from(s, a + 1, 0) {
            Some(p) => Some(p.0),
            None => None,
        }
    } else {
        None
    }
}

/// Advances past ASCII whitespace.
pub fn skip_whitespace(s: &[u8], i: usize) -> (r: usize)
    requires
        i <= s@.len(),
    ensures
        r == ws_end(s@, i as int),
        i <= r <= s@.len(),
{
    let mut k: usize = i;
    while k < s.len() && (s[k] == 0x20 || (0x09 <= s[k] && s[k] <= 0x0d))
        invariant
            i <= k <= s@.len(),
            ws_end(s@, i as int) == ws_end(s@, k as int),
        decreases s@.len() - k,
    {
        k = k + 1;
    }
    k
}

/// Consumes exactly the byte `ch` at position `i`, or reports where the
/// input deviates from the grammar.
pub fn skip(s: &[u8], i: usize, ch: u8) -> (r: Result<usize, ParseError>)
    requires
        i <= s@.len(),
    ensures
        match r {
            Ok(j) => i < s@.len() && s@[i as int] == ch && j == i + 1,
            Err(_) => i == s@.len() || s@[i as int] != ch,
        },
{
    if i < s.len() && s[i] == ch {
        Ok(i + 1)
    } else {
        Err(ParseError)
    }
}

/// Reads a run of one or more ASCII digits starting at `i`, accumulating
/// their value with wrapping 32-bit arithmetic.
pub fn parse_u32(s: &[u8], i: usize) -> (r: Result<(u32, usize), ParseError>)
    requires
        i <= s@.len(),
    ensures
        match r {
            Ok(p) => {
                &&& parse_num(s@, i as int) == Some((p.0, p.1 as int))
                &&& i < p.1 <= s@.len()
            },
            Err(_) => parse_num(s@, i as int) is None,
        },
{
    let mut k: usize = i;
    let mut output: u32 = 0;
    while k < s.len() && 0x30 <= s[k] && s[k] <= 0x39
        invariant
            i <= k <= s@.len(),
            digits_end(s@, i as int) == digits_end(s@, k as int),
            output == num_val(s@, i as int, k as int),
        decreases s@.len() - k,
    {
        let digit: u32 = (s[k] - 0x30) as u32;
        output = output.wrapping_mul(10).wrapping_add(digit);
        k = k + 1;
    }
    if k == i {
        Err(ParseError)
    } else {
        Ok((output, k))
    }
}

impl Seed {
    /// Parses the bracketed text form from raw bytes; returns the seed
    /// exactly when the input matches the grammar of `seed_parse`.
    pub fn from_bytes(s: &[u8]) -> (r: Result<Seed, ParseError>)
        ensures
            match r {
                Ok(seed) => seed_parse(s@) == Some(seed.0@),
                Err(_) => seed_parse(s@) is None,
            },
    {
        let mut i = skip_whitespace(s, 0);
        i = match skip(s, i, 0x5b) {
            Ok(j) => j,
            Err(e) => {
                return Err(e);
            },
        };
        let mut seed: [u32; 4] = [0, 0, 0, 0];
        let mut index: usize = 0;
        while index < 4
            invariant
                i <= s@.len(),
                0 <= index <= 4,
                match seed_parse_from(s@, i as int, index as int) {
                    Some(p) => seed_parse(s@) == Some(seed@.subrange(0, index as int) + p.0),
                    None => seed_parse(s@) is None,
                },
            decreases 4 - index,
        {
            let ghost i_at_entry = i as int;
            i = skip_whitespace(s, i);
            if index > 0 {
                i = match skip(s, i, 0x2c) {
                    Ok(j) => j,
                    Err(e) => {
                        return Err(e);
                    },
                };
                i = skip_whitespace(s, i);
            }
            let (value, j) = match parse_u32(s, i) {
                Ok(p) => p,
                Err(e) => {
                    return Err(e);
                },
            };
            proof {
                assert(parse_elem(s@, i_at_entry, index > 0) == Some((value, j as int)));
            }
            seed[index] = value;
            i = j;
            index = index + 1;
            proof {
                let prev = seed@.subrange(0, index - 1);
                assert(prev + seq![value] =~= seed@.subrange(0, index as int));
                if let Some(q) = seed_parse_from(s@, j as int, index as int) {
                    assert(prev + (seq![value] + q.0) =~= seed@.subrange(0, index as int) + q.0);
                }
            }
        }
        i = skip_whitespace(s, i);
        match skip(s, i, 0x5d) {
            Ok(_) => {
                proof {
                    assert(seed@.subrange(0, 4) + Seq::<u32>::empty() =~= seed@);
                }
                Ok(Seed(seed))
            },
            Err(e) => Err(e),
        }
    }
}

impl core::str::FromStr for Seed {
    type Err = ParseError;

    fn from_str(input: &str) -> Result<Self, Self::Err> {
        Seed::from_bytes(input.as_bytes())
    }
}

} // verus!
