//! Verified hexadecimal codec for 20-byte content digests: parsing a
//! 40-character digest string and rendering a digest as lowercase hex.

use vstd::prelude::*;

verus! {

/// Value of a hexadecimal digit; 255 marks a character that is no digit.
pub open spec fn hex_val(c: char) -> u8 {
    if c == '0' {
        0
    } else if c == '1' {
        1
    } else if c == '2' {
        2
    } else if c == '3' {
        3
    } else if c == '4' {
        4
    } else if c == '5' {
        5
    } else if c == '6' {
        6
    } else if c == '7' {
        7
    } else if c == '8' {
        8
    } else if c == '9' {
        9
    } else if c == 'a' || c == 'A' {
        10
    } else if c == 'b' || c == 'B' {
        11
    } else if c == 'c' || c == 'C' {
        12
    } else if c == 'd' || c == 'D' {
        13
    } else if c == 'e' || c == 'E' {
        14
    } else if c == 'f' || c == 'F' {
        15
    } else {
        255
    }
}

pub open spec fn is_hex_digit(c: char) -> bool {
    hex_val(c) < 16
}

/// Lowercase digit character for a nibble below 16.
pub open spec fn hex_char_of(n: u8) -> char {
    if n == 0 {
        '0'
    } else if n == 1 {
        '1'
    } else if n == 2 {
        '2'
    } else if n == 3 {
        '3'
    } else if n == 4 {
        '4'
    } else if n == 5 {
        '5'
    } else if n == 6 {
        '6'
    } else if n == 7 {
        '7'
    } else if n == 8 {
        '8'
    } else if n == 9 {
        '9'
    } else if n == 10 {
        'a'
    } else if n == 11 {
        'b'
    } else if n == 12 {
        'c'
    } else if n == 13 {
        'd'
    } else if n == 14 {
        'e'
    } else {
        'f'
    }
}

/// A well-formed 40-character digest string.
pub open spec fn is_hex40(s: Seq<char>) -> bool {
    s.len() == 40 && (forall|i: int| 0 <= i < 40 ==> is_hex_digit(#[trigger] s[i]))
}

/// The 20 bytes encoded by a well-formed digest string.
pub open spec fn hex_bytes20(s: Seq<char>) -> Seq<u8> {
    Seq::new(20, |i: int| (hex_val(s[2 * i]) * 16 + hex_val(s[2 * i + 1])) as u8)
}

/// Lowercase hexadecimal rendering of a byte sequence.
pub open spec fn hex_str_of(b: Seq<u8>) -> Seq<char> {
    Seq::new(
        2 * b.len(),
        |i: int|
            if i % 2 == 0 {
                hex_char_of(b[i / 2] / 16)
            } else {
                hex_char_of(b[i / 2] % 16)
            },
    )
}

/// Hexadecimal value of one character; 255 when it is no hexadecimal digit.
pub fn hex_digit_val(c: char) -> (r: u8)
    ensures
        r == hex_val(c),
{
    if c == '0' {
        0
    } else if c == '1' {
        1
    } else if c == '2' {
        2
    } else if c == '3' {
        3
    } else if c == '4' {
        4
    } else if c == '5' {
        5
    } else if c == '6' {
        6
    } else if c == '7' {
        7
    } else if c == '8' {
        8
    } else if c == '9' {
        9
    } else if c == 'a' || c == 'A' {
        10
    } else if c == 'b' || c == 'B' {
        11
    } else if c == 'c' || c == 'C' {
        12
    } else if c == 'd' || c == 'D' {
        13
    } else if c == 'e' || c == 'E' {
        14
    } else if c == 'f' || c == 'F' {
        15
    } else {
        255
    }
}

/// Parse a 40-character hexadecimal digest into its 20 bytes. Returns `None`
/// exactly when the string has the wrong length or holds a non-digit.
pub fn parse_hex20(s: &str) -> (r: Option<[u8; 20]>)
    ensures
        match r {
            Some(h) => is_hex40(s@) && h@ == hex_bytes20(s@),
            None => !is_hex40(s@),
        },
{
    if s.unicode_len() != 40 {
        return None;
    }
    let mut out: [u8; 20] = [0;20];
    let mut i: usize = 0;
    while i < 20
        invariant
            i <= 20,
            s@.len() == 40,
            out@.len() == 20,
            forall|k: int| 0 <= k < 2 * i ==> is_hex_digit(#[trigger] s@[k]),
            forall|j: int|
                0 <= j < i ==> (#[trigger] out@[j]) == hex_val(s@[2 * j]) * 16 + hex_val(
                    s@[2 * j + 1],
                ),
        decreases 20 - i,
    {
        let hi = hex_digit_val(s.get_char(2 * i));
        let lo = hex_digit_val(s.get_char(2 * i + 1));
        if hi >= 16 || lo >= 16 {
            return None;
        }
        out.set(i, hi * 16 + lo);
        proof {
            assert(is_hex_digit(s@[2 * (i as int)]));
            assert(is_hex_digit(s@[2 * (i as int) + 1]));
        }
        i += 1;
    }
    proof {
        assert(out@ =~= hex_bytes20(s@));
    }
    Some(out)
}

/// Law: rendering a 20-byte digest as hexadecimal and parsing it back
/// yields the digest again — the two directions of the codec agree.
pub proof fn lemma_hex_round_trip(b: Seq<u8>)
    requires
        b.len() == 20,
    ensures
        is_hex40(hex_str_of(b)),
        hex_bytes20(hex_str_of(b)) == b,
{
    let s = hex_str_of(b);
    assert forall|i: int| 0 <= i < 40 implies is_hex_digit(#[trigger] s[i]) by {
        if i % 2 == 0 {
            assert(s[i] == hex_char_of(b[i / 2] / 16));
        } else {
            assert(s[i] == hex_char_of(b[i / 2] % 16));
        }
    }
    assert forall|j: int| 0 <= j < 20 implies #[trigger] hex_bytes20(s)[j] == b[j] by {
        assert(s[2 * j] == hex_char_of(b[j] / 16));
        assert(s[2 * j + 1] == hex_char_of(b[j] % 16));
        assert(hex_val(hex_char_of(b[j] / 16)) == b[j] / 16);
        assert(hex_val(hex_char_of(b[j] % 16)) == b[j] % 16);
        assert(b[j] / 16 * 16 + b[j] % 16 == b[j]) by (nonlinear_arith);
    }
    assert(hex_bytes20(s) =~= b);
}

/// One lowercase digit as a string.
fn nibble_str(n: u8) -> (r: &'static str)
    requires
        n < 16,
    ensures
        r@ =~= seq![hex_char_of(n)],
{
    proof {
        reveal_strlit("0");
        reveal_strlit("1");
        reveal_strlit("2");
        reveal_strlit("3");
        reveal_strlit("4");
        reveal_strlit("5");
        reveal_strlit("6");
        reveal_strlit("7");
        reveal_strlit("8");
        reveal_strlit("9");
        reveal_strlit("a");
        reveal_strlit("b");
        reveal_strlit("c");
        reveal_strlit("d");
        reveal_strlit("e");
        reveal_strlit("f");
    }
    if n == 0 {
        "0"
    } else if n == 1 {
        "1"
    } else if n == 2 {
        "2"
    } else if n == 3 {
        "3"
    } else if n == 4 {
        "4"
    } else if n == 5 {
        "5"
    } else if n == 6 {
        "6"
    } else if n == 7 {
        "7"
    } else if n == 8 {
        "8"
    } else if n == 9 {
        "9"
    } else if n == 10 {
        "a"
    } else if n == 11 {
        "b"
    } else if n == 12 {
        "c"
    } else if n == 13 {
        "d"
    } else if n == 14 {
        "e"
    } else {
        "f"
    }
}

/// Render a 20-byte digest as its 40-character lowercase hexadecimal string.
pub fn hex_str20(b: &[u8; 20]) -> (r: String)
    ensures
        r@ == hex_str_of(b@),
{
    let mut out = String::new();
    let mut i: usize = 0;
    while i < 20
        invariant
            i <= 20,
            b@.len() == 20,
            out@ =~= hex_str_of(b@.take(i as int)),
        decreases 20 - i,
    {
        let ghost prefix = out@;
        let byte = *vstd::array::array_index_get(b, i);
        out.append(nibble_str(byte / 16));
        out.append(nibble_str(byte % 16));
        proof {
            assert(out@ =~= hex_str_of(b@.take(i + 1 as int)));
        }
        i += 1;
    }
    proof {
        assert(b@.take(20) =~= b@);
    }
    out
}

} // verus!
