//! Hex codec and IV generation.
//!
//! Key material crosses the library boundary as lower-case hex strings; this
//! module states exactly how those strings relate to the byte buffers the
//! ciphers work on, and proves that decoding inverts encoding.

use vstd::prelude::*;
use vstd::string::{StrSliceExecFns, StringExecFns, is_ascii_spec_bytes};
use crate::error::FileCipherError;

verus! {

/// Whether `c` is an ASCII hexadecimal digit.
pub open spec fn is_hex_digit(c: char) -> bool {
    ('0' <= c && c <= '9') || ('a' <= c && c <= 'f') || ('A' <= c && c <= 'F')
}

/// The numeric value of a hexadecimal digit.
pub open spec fn hex_digit_val(c: char) -> u8 {
    if '0' <= c && c <= '9' {
        (c as u32 - 48) as u8
    } else if 'a' <= c && c <= 'f' {
        (c as u32 - 87) as u8
    } else {
        (c as u32 - 55) as u8
    }
}

/// The lower-case hexadecimal digit with value `v`.
pub open spec fn hex_char(v: u8) -> char {
    if v < 10 {
        ((v + 48) as u8) as char
    } else {
        ((v + 87) as u8) as char
    }
}

/// A string decodes as hex iff its length is even and every character is a
/// hexadecimal digit.
pub open spec fn valid_hex(s: Seq<char>) -> bool {
    s.len() % 2 == 0 && (forall|i: int| 0 <= i < s.len() ==> is_hex_digit(#[trigger] s[i]))
}

/// The bytes a hex string stands for: one byte per pair of digits.
pub open spec fn hex_decoded(s: Seq<char>) -> Seq<u8>
    decreases s.len(),
{
    if s.len() < 2 {
        Seq::empty()
    } else {
        seq![((hex_digit_val(s[0]) as int) * 16 + hex_digit_val(s[1]) as int) as u8]
            + hex_decoded(s.skip(2))
    }
}

/// The lower-case hex spelling of a byte sequence: two digits per byte.
pub open spec fn hex_encoded(b: Seq<u8>) -> Seq<char>
    decreases b.len(),
{
    if b.len() == 0 {
        Seq::empty()
    } else {
        seq![hex_char(b[0] / 16), hex_char(b[0] % 16)] + hex_encoded(b.skip(1))
    }
}

/// Decoding distributes over concatenation at a pair boundary.
pub proof fn lemma_hex_decoded_concat(a: Seq<char>, b: Seq<char>)
    requires
        a.len() % 2 == 0,
    ensures
        hex_decoded(a + b) =~= hex_decoded(a) + hex_decoded(b),
    decreases a.len(),
{
    if a.len() == 0 {
        assert(a + b =~= b);
    } else {
        assert((a + b).skip(2) =~= a.skip(2) + b);
        lemma_hex_decoded_concat(a.skip(2), b);
    }
}

/// Encoding distributes over concatenation.
pub proof fn lemma_hex_encoded_concat(a: Seq<u8>, b: Seq<u8>)
    ensures
        hex_encoded(a + b) =~= hex_encoded(a) + hex_encoded(b),
    decreases a.len(),
{
    if a.len() == 0 {
        assert(a + b =~= b);
    } else {
        assert((a + b).skip(1) =~= a.skip(1) + b);
        lemma_hex_encoded_concat(a.skip(1), b);
    }
}

/// An encoded sequence is twice as long as its source, is valid hex, and
/// decodes back to the source: `hex_decoded(hex_encoded(b)) == b`.
pub proof fn lemma_hex_round_trip(b: Seq<u8>)
    ensures
        hex_encoded(b).len() == 2 * b.len(),
        valid_hex(hex_encoded(b)),
        hex_decoded(hex_encoded(b)) =~= b,
    decreases b.len(),
{
    if b.len() == 0 {
    } else {
        lemma_hex_round_trip(b.skip(1));
        let pair = seq![hex_char(b[0] / 16), hex_char(b[0] % 16)];
        assert(hex_encoded(b) =~= pair + hex_encoded(b.skip(1)));
        assert(is_hex_digit(hex_char(b[0] / 16)));
        assert(is_hex_digit(hex_char(b[0] % 16)));
        assert(hex_digit_val(hex_char(b[0] / 16)) == b[0] / 16);
        assert(hex_digit_val(hex_char(b[0] % 16)) == b[0] % 16);
        lemma_hex_decoded_concat(pair, hex_encoded(b.skip(1)));
        assert(pair.skip(2).len() == 0);
        assert(hex_decoded(pair.skip(2)) =~= Seq::<u8>::empty());
        assert(hex_decoded(pair) =~= seq![b[0]]);
        assert(hex_decoded(hex_encoded(b)) =~= b);
    }
}

/// Decodes a hex string, failing with [`FileCipherError::MalformedHex`] if the
/// length is odd or any character is not a base-16 digit.
pub fn decode_hex(s: &str) -> (r: Result<Vec<u8>, FileCipherError>)
    ensures
        valid_hex(s@) ==> (r matches Ok(v) && v@ == hex_decoded(s@)),
        !valid_hex(s@) ==> (r matches Err(e) && e == FileCipherError::MalformedHex),
{
    broadcast use is_ascii_spec_bytes;

    if !s.is_ascii() {
        proof {
            let i = choose|i: int| !(0 <= i < s@.len() ==> '\0' <= #[trigger] s@[i] <= '\u{7f}');
            assert(!is_hex_digit(s@[i]));
        }
        return Err(FileCipherError::MalformedHex);
    }
    let bytes = s.as_bytes_vec();
    if bytes.len() % 2 != 0 {
        return Err(FileCipherError::MalformedHex);
    }
    let ghost cs = s@;
    let mut out: Vec<u8> = Vec::new();
    let mut i: usize = 0;
    while i < bytes.len()
        invariant
            i % 2 == 0,
            i <= bytes.len(),
            bytes@.len() == cs.len(),
            cs.len() % 2 == 0,
            forall|j: int| 0 <= j < cs.len() ==> '\0' <= #[trigger] cs[j] <= '\u{7f}',
            forall|j: int| 0 <= j < cs.len() ==> #[trigger] bytes@[j] == cs[j] as u8,
            forall|j: int| 0 <= j < i ==> is_hex_digit(#[trigger] cs[j]),
            out@ =~= hex_decoded(cs.subrange(0, i as int)),
            cs == s@,
        decreases bytes@.len() - i,
    {
        let b0 = bytes[i];
        let b1 = bytes[i + 1];
        let hi: u8;
        let lo: u8;
        if 48 <= b0 && b0 <= 57 {
            hi = b0 - 48;
        } else if 97 <= b0 && b0 <= 102 {
            hi = b0 - 87;
        } else if 65 <= b0 && b0 <= 70 {
            hi = b0 - 55;
        } else {
            proof {
                assert(!is_hex_digit(cs[i as int]));
            }
            return Err(FileCipherError::MalformedHex);
        }
        if 48 <= b1 && b1 <= 57 {
            lo = b1 - 48;
        } else if 97 <= b1 && b1 <= 102 {
            lo = b1 - 87;
        } else if 65 <= b1 && b1 <= 70 {
            lo = b1 - 55;
        } else {
            proof {
                assert(!is_hex_digit(cs[i as int + 1]));
            }
            return Err(FileCipherError::MalformedHex);
        }
        out.push(hi * 16 + lo);
        proof {
            let prefix = cs.subrange(0, i as int);
            let pair = cs.subrange(i as int, i as int + 2);
            assert(cs.subrange(0, i as int + 2) =~= prefix + pair);
            lemma_hex_decoded_concat(prefix, pair);
            assert(pair.skip(2).len() == 0);
            assert(hex_decoded(pair.skip(2)) =~= Seq::<u8>::empty());
            assert(hex_decoded(pair) =~= seq![((hex_digit_val(pair[0]) as int) * 16
                + hex_digit_val(pair[1]) as int) as u8]);
            assert(hex_digit_val(cs[i as int]) == hi);
            assert(hex_digit_val(cs[i as int + 1]) == lo);
        }
        i = i + 2;
    }
    proof {
        assert(cs.subrange(0, i as int) =~= cs);
    }
    Ok(out)
}

/// One-character string slices for the sixteen lower-case hex digits.
pub(crate) fn hex_char_str(v: u8) -> (r: &'static str)
    requires
        v < 16,
    ensures
        r@ =~= seq![hex_char(v)],
{
    proof {
        reveal_strlit("0");
        reveal_strlit("1");
        reveal_strlit("2");
        reveal_strlit("3");
        reveal_strlit("4");
        reveal_strlit("5");
        reveal_strlit("6");
        reveal_strlit("7");
        reveal_strlit("8");
        reveal_strlit("9");
        reveal_strlit("a");
        reveal_strlit("b");
        reveal_strlit("c");
        reveal_strlit("d");
        reveal_strlit("e");
        reveal_strlit("f");
    }
    match v {
        0 => "0",
        1 => "1",
        2 => "2",
        3 => "3",
        4 => "4",
        5 => "5",
        6 => "6",
        7 => "7",
        8 => "8",
        9 => "9",
        10 => "a",
        11 => "b",
        12 => "c",
        13 => "d",
        14 => "e",
        _ => "f",
    }
}

/// The decimal spelling of `n`, most significant digit first.
pub open spec fn spec_decimal(n: nat) -> Seq<char>
    decreases n,
{
    if n < 10 {
        seq![hex_char(n as u8)]
    } else {
        spec_decimal(n / 10) + seq![hex_char((n % 10) as u8)]
    }
}

/// Renders `n` in decimal, for error messages that name a violated bound.
pub(crate) fn decimal_string(n: u64) -> (s: String)
    ensures
        s@ == spec_decimal(n as nat),
    decreases n,
{
    if n < 10 {
        String::from_str(hex_char_str(n as u8))
    } else {
        let mut s = decimal_string(n / 10);
        s.append(hex_char_str((n % 10) as u8));
        s
    }
}

/// Encodes bytes as a lower-case hex string, two digits per byte.
pub fn encode_hex(bytes: &[u8]) -> (r: String)
    ensures
        r@ == hex_encoded(bytes@),
        r@.len() == 2 * bytes@.len(),
{
    let mut s = String::new();
    let mut i: usize = 0;
    while i < bytes.len()
        invariant
            i <= bytes@.len(),
            s@ =~= hex_encoded(bytes@.subrange(0, i as int)),
        decreases bytes@.len() - i,
    {
        let b = *vstd::slice::slice_index_get(bytes, i);
        s.append(hex_char_str(b / 16));
        s.append(hex_char_str(b % 16));
        proof {
            let prefix = bytes@.subrange(0, i as int);
            let one = bytes@.subrange(i as int, i as int + 1);
            assert(bytes@.subrange(0, i as int + 1) =~= prefix + one);
            lemma_hex_encoded_concat(prefix, one);
            assert(one.skip(1).len() == 0);
            assert(hex_encoded(one.skip(1)) =~= Seq::<char>::empty());
            assert(hex_encoded(one) =~= seq![hex_char(one[0] / 16), hex_char(one[0] % 16)]);
        }
        i = i + 1;
    }
    proof {
        assert(bytes@.subrange(0, bytes@.len() as int) =~= bytes@);
        lemma_hex_round_trip(bytes@);
    }
    s
}

/// Relies on `rand::fill` with the thread-local generator: the buffer is
/// filled from a cryptographically secure source. Nothing is promised of the
/// bytes' values, only of how many there are.
#[verifier::external_body]
pub(crate) fn generate_random_iv() -> (iv: Vec<u8>)
    ensures
        iv@.len() == 16,
{
    let mut buf = [0u8; 16];
    rand::fill(&mut buf[..]);
    buf.to_vec()
}

} // verus!
