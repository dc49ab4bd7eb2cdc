use vstd::prelude::*;

verus! {

/// Why a text is not a colour code.
#[derive(Clone, Copy, Debug, PartialEq, Eq, Structural)]
pub enum HexColorError {
    /// After the leading `#` signs the code has this many bytes and not six.
    Length(usize),
    /// The first two bytes are not a number in base sixteen.
    Red,
    /// The third and fourth bytes are not a number in base sixteen.
    Green,
    /// The last two bytes are not a number in base sixteen.
    Blue,
}

/// The value of a digit in base sixteen, in either case.
pub open spec fn hex_digit(b: u8) -> Option<u8> {
    if 0x30 <= b <= 0x39 {
        Some((b - 0x30) as u8)
    } else if 0x61 <= b <= 0x66 {
        Some((b - 0x61 + 10) as u8)
    } else if 0x41 <= b <= 0x46 {
        Some((b - 0x41 + 10) as u8)
    } else {
        None
    }
}

/// The number that two bytes spell in base sixteen: two digits, or a plus
/// sign and one digit.
pub open spec fn hex_pair(a: u8, b: u8) -> Option<u8> {
    if a == 0x2b {
        hex_digit(b)
    } else {
        match (hex_digit(a), hex_digit(b)) {
            (Some(high), Some(low)) => Some((16 * high + low) as u8),
            _ => None,
        }
    }
}

/// How many `#` signs the text begins with.
pub open spec fn leading_hashes(text: Seq<u8>) -> nat
    decreases text.len(),
{
    if text.len() > 0 && text[0] == 0x23 {
        1 + leading_hashes(text.skip(1))
    } else {
        0
    }
}

/// The colour that a code spells. The code is six bytes after any number of
/// leading `#` signs: red, green and blue, each as a pair of bytes. The
/// first fault found is the one reported.
pub open spec fn spec_hex_to_rgb(hex: Seq<u8>) -> Result<(u8, u8, u8), HexColorError> {
    let code = hex.skip(leading_hashes(hex) as int);
    if code.len() != 6 {
        Err(HexColorError::Length(code.len() as usize))
    } else {
        match hex_pair(code[0], code[1]) {
            None => Err(HexColorError::Red),
            Some(r) => match hex_pair(code[2], code[3]) {
                None => Err(HexColorError::Green),
                Some(g) => match hex_pair(code[4], code[5]) {
                    None => Err(HexColorError::Blue),
                    Some(b) => Ok((r, g, b)),
                },
            },
        }
    }
}

fn digit_value(b: u8) -> (value: Option<u8>)
    ensures
        value == hex_digit(b),
        value matches Some(v) ==> v < 16,
{
    if 0x30 <= b && b <= 0x39 {
        Some(b - 0x30)
    } else if 0x61 <= b && b <= 0x66 {
        Some(b - 0x61 + 10)
    } else if 0x41 <= b && b <= 0x46 {
        Some(b - 0x41 + 10)
    } else {
        None
    }
}

fn pair_value(a: u8, b: u8) -> (value: Option<u8>)
    ensures
        value == hex_pair(a, b),
{
    if a == 0x2b {
        digit_value(b)
    } else {
        match (digit_value(a), digit_value(b)) {
            (Some(high), Some(low)) => Some(16 * high + low),
            _ => None,
        }
    }
}

/// Reads a colour code such as `#ca5a2e` into its red, green and blue
/// parts.
pub fn hex_to_rgb(hex: &[u8]) -> (color: Result<(u8, u8, u8), HexColorError>)
    ensures
        color == spec_hex_to_rgb(hex@),
{
    let len: usize = hex.len();
    let mut at: usize = 0;
    proof {
        assert(hex@.skip(0) =~= hex@);
    }
    while at < len && hex[at] == 0x23
        invariant
            at <= len,
            len == hex@.len(),
            leading_hashes(hex@) == at + leading_hashes(hex@.skip(at as int)),
        decreases len - at,
    {
        proof {
            assert(hex@.skip(at as int).skip(1) =~= hex@.skip(at as int + 1));
        }
        at += 1;
    }
    proof {
        assert(leading_hashes(hex@.skip(at as int)) == 0);
        assert(hex@.skip(at as int).len() == len - at);
    }
    if len - at != 6 {
        return Err(HexColorError::Length(len - at));
    }
    let r = match pair_value(hex[at], hex[at + 1]) {
        Some(r) => r,
        None => {
            return Err(HexColorError::Red);
        },
    };
    let g = match pair_value(hex[at + 2], hex[at + 3]) {
        Some(g) => g,
        None => {
            return Err(HexColorError::Green);
        },
    };
    let b = match pair_value(hex[at + 4], hex[at + 5]) {
        Some(b) => b,
        None => {
            return Err(HexColorError::Blue);
        },
    };
    Ok((r, g, b))
}

/// A code of six digits, with or without one leading `#`, is read as the
/// three numbers that its pairs of digits spell.
pub proof fn law_six_digits_read_as_pairs(hex: Seq<u8>)
    requires
        hex.len() == 6,
        forall|i: int| 0 <= i < 6 ==> hex_digit(#[trigger] hex[i]) is Some,
    ensures
        spec_hex_to_rgb(hex) == Ok::<(u8, u8, u8), HexColorError>(
            (
                (16 * hex_digit(hex[0]).unwrap() + hex_digit(hex[1]).unwrap()) as u8,
                (16 * hex_digit(hex[2]).unwrap() + hex_digit(hex[3]).unwrap()) as u8,
                (16 * hex_digit(hex[4]).unwrap() + hex_digit(hex[5]).unwrap()) as u8,
            ),
        ),
        spec_hex_to_rgb(seq![0x23u8] + hex) == spec_hex_to_rgb(hex),
{
    assert(hex_digit(hex[0]) is Some);
    assert(hex[0] != 0x23 && hex[0] != 0x2b);
    assert(hex_digit(hex[2]) is Some);
    assert(hex_digit(hex[4]) is Some);
    assert(hex_digit(hex[1]) is Some);
    assert(hex_digit(hex[3]) is Some);
    assert(hex_digit(hex[5]) is Some);
    assert(leading_hashes(hex) == 0);
    assert(hex.skip(0) =~= hex);
    let longer = seq![0x23u8] + hex;
    assert(longer.skip(1) =~= hex);
    assert(leading_hashes(longer) == 1);
}

} // verus!
