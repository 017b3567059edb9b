//! Lowercase hexadecimal encoding of byte strings, used to persist a
//! fingerprint digest inside a cache metadata record.

use vstd::prelude::*;

verus! {

/// The lowercase hex digit (as an ASCII byte) for a value below 16.
pub open spec fn hex_digit(n: u8) -> u8
    recommends
        n < 16,
{
    if n < 10 {
        (0x30 + n) as u8
    } else {
        (0x61 + (n - 10)) as u8
    }
}

/// The value of an ASCII hex digit byte, or `None` when the byte is not a
/// lowercase hex digit.
pub open spec fn hex_value(d: u8) -> Option<u8> {
    if 0x30 <= d && d <= 0x39 {
        Some((d - 0x30) as u8)
    } else if 0x61 <= d && d <= 0x66 {
        Some((d - 0x61 + 10) as u8)
    } else {
        None
    }
}

/// Hex encoding of a byte string: two digits per byte, high nibble first.
pub open spec fn hex_encoding(bytes: Seq<u8>) -> Seq<u8>
    decreases bytes.len(),
{
    if bytes.len() == 0 {
        Seq::empty()
    } else {
        seq![hex_digit(bytes[0] / 16), hex_digit(bytes[0] % 16)] + hex_encoding(bytes.skip(1))
    }
}

/// Decoding of a hex digit pair back into one byte, `None` when either
/// byte is not a lowercase hex digit.
pub open spec fn hex_pair_value(hi: u8, lo: u8) -> Option<u8> {
    match (hex_value(hi), hex_value(lo)) {
        (Some(h), Some(l)) => Some((h * 16 + l) as u8),
        _ => None,
    }
}

/// Decoding of a hex string back into bytes; `None` when the length is odd
/// or any byte is not a lowercase hex digit.
pub open spec fn hex_decoding(digits: Seq<u8>) -> Option<Seq<u8>>
    decreases digits.len(),
{
    if digits.len() == 0 {
        Some(Seq::empty())
    } else if digits.len() == 1 {
        None
    } else {
        match (hex_pair_value(digits[0], digits[1]), hex_decoding(digits.skip(2))) {
            (Some(b), Some(rest)) => Some(seq![b] + rest),
            _ => None,
        }
    }
}

/// A hex digit decodes back to the nibble it encodes.
proof fn lemma_hex_digit_value(n: u8)
    requires
        n < 16,
    ensures
        hex_value(hex_digit(n)) == Some(n),
{
}

/// Decoding inverts encoding, byte string by byte string.
pub proof fn lemma_hex_round_trip(bytes: Seq<u8>)
    ensures
        hex_encoding(bytes).len() == 2 * bytes.len(),
        hex_decoding(hex_encoding(bytes)) == Some(bytes),
    decreases bytes.len(),
{
    if bytes.len() == 0 {
        assert(hex_decoding(hex_encoding(bytes)) == Some(bytes));
    } else {
        let b = bytes[0];
        lemma_hex_digit_value(b / 16);
        lemma_hex_digit_value(b % 16);
        lemma_hex_round_trip(bytes.skip(1));
        let enc = hex_encoding(bytes);
        assert(enc.skip(2) =~= hex_encoding(bytes.skip(1)));
        assert(hex_pair_value(enc[0], enc[1]) == Some(b)) by {
            assert(b / 16 * 16 + b % 16 == b) by (nonlinear_arith);
        }
        assert(hex_decoding(enc) == Some(seq![b] + bytes.skip(1)));
        assert(seq![b] + bytes.skip(1) =~= bytes);
    }
}

/// Encodes bytes as lowercase hex, two digits per byte, high nibble first.
pub fn hex_encode(bytes: &Vec<u8>) -> (r: Vec<u8>)
    ensures
        r@ == hex_encoding(bytes@),
{
    let mut out: Vec<u8> = Vec::new();
    let mut i: usize = 0;
    while i < bytes.len()
        invariant
            i <= bytes.len(),
            out@ == hex_encoding(bytes@.take(i as int)),
        decreases bytes.len() - i,
    {
        let b = bytes[i];
        let hi = b / 16;
        let lo = b % 16;
        let hi_d = if hi < 10 {
            0x30 + hi
        } else {
            0x61 + (hi - 10)
        };
        let lo_d = if lo < 10 {
            0x30 + lo
        } else {
            0x61 + (lo - 10)
        };
        out.push(hi_d);
        out.push(lo_d);
        proof {
            lemma_hex_encoding_snoc(bytes@.take(i as int), b);
            assert(bytes@.take(i as int).push(b) =~= bytes@.take(i + 1));
        }
        i = i + 1;
    }
    proof {
        assert(bytes@.take(bytes@.len() as int) =~= bytes@);
    }
    out
}

/// Appending one byte to the input appends its two digits to the encoding.
proof fn lemma_hex_encoding_snoc(bytes: Seq<u8>, b: u8)
    ensures
        hex_encoding(bytes.push(b)) == hex_encoding(bytes) + seq![
            hex_digit(b / 16),
            hex_digit(b % 16),
        ],
    decreases bytes.len(),
{
    let d = seq![hex_digit(b / 16), hex_digit(b % 16)];
    if bytes.len() == 0 {
        assert(bytes.push(b).skip(1) =~= Seq::<u8>::empty());
        assert(bytes.push(b)[0] == b);
        assert(hex_encoding(bytes.push(b)) == d + hex_encoding(Seq::<u8>::empty()));
        assert(d + hex_encoding(Seq::<u8>::empty()) =~= hex_encoding(bytes) + d);
    } else {
        let d0 = seq![hex_digit(bytes[0] / 16), hex_digit(bytes[0] % 16)];
        assert(bytes.push(b)[0] == bytes[0]);
        assert(bytes.push(b).skip(1) =~= bytes.skip(1).push(b));
        lemma_hex_encoding_snoc(bytes.skip(1), b);
        assert(hex_encoding(bytes.push(b)) == d0 + hex_encoding(bytes.skip(1).push(b)));
        assert(hex_encoding(bytes.push(b)) == d0 + (hex_encoding(bytes.skip(1)) + d));
        assert(hex_encoding(bytes) == d0 + hex_encoding(bytes.skip(1)));
        assert(d0 + (hex_encoding(bytes.skip(1)) + d) =~= (d0 + hex_encoding(bytes.skip(1))) + d);
    }
}

/// A decoded byte string is half as long as its hex digits.
pub proof fn lemma_hex_decoding_len(digits: Seq<u8>)
    ensures
        hex_decoding(digits) matches Some(b) ==> 2 * b.len() == digits.len(),
    decreases digits.len(),
{
    if digits.len() >= 2 {
        lemma_hex_decoding_len(digits.skip(2));
    }
}

/// Decodes lowercase hex back into bytes; `None` when the length is odd or
/// a byte is not a lowercase hex digit.
pub fn hex_decode(digits: &Vec<u8>) -> (r: Option<Vec<u8>>)
    ensures
        match r {
            Some(bytes) => hex_decoding(digits@) == Some(bytes@),
            None => hex_decoding(digits@) is None,
        },
{
    if digits.len() % 2 != 0 {
        proof {
            lemma_hex_decoding_odd(digits@);
        }
        return None;
    }
    let mut out: Vec<u8> = Vec::new();
    let mut i: usize = 0;
    proof {
        assert(digits@.skip(0) =~= digits@);
        match hex_decoding(digits@) {
            Some(rest) => {
                assert(Seq::<u8>::empty() + rest =~= rest);
            },
            None => {},
        }
    }
    while i < digits.len()
        invariant
            i <= digits.len(),
            digits.len() % 2 == 0,
            i % 2 == 0,
            hex_decoding_from(digits@, i as int, out@),
        decreases digits.len() - i,
    {
        let hi = digits[i];
        let lo = digits[i + 1];
        let hv = hex_value_exec(hi);
        let lv = hex_value_exec(lo);
        proof {
            assert(digits@.skip(i as int).len() >= 2);
            assert(digits@.skip(i as int)[0] == digits@[i as int]);
            assert(digits@.skip(i as int)[1] == digits@[i as int + 1]);
            assert(digits@.skip(i as int).skip(2) =~= digits@.skip(i as int + 2));
        }
        match (hv, lv) {
            (Some(h), Some(l)) => {
                let ghost prev = out@;
                out.push(h * 16 + l);
                proof {
                    let b = (h * 16 + l) as u8;
                    assert(hex_pair_value(digits@[i as int], digits@[i as int + 1]) == Some(b));
                    match hex_decoding(digits@.skip(i as int + 2)) {
                        Some(rest2) => {
                            assert(hex_decoding(digits@.skip(i as int)) == Some(seq![b] + rest2));
                            assert(prev + (seq![b] + rest2) =~= out@ + rest2);
                        },
                        None => {
                            assert(hex_decoding(digits@.skip(i as int)) is None);
                        },
                    }
                }
            },
            _ => {
                proof {
                    assert(hex_decoding(digits@.skip(i as int)) is None);
                }
                return None;
            },
        }
        i = i + 2;
    }
    proof {
        assert(digits@.skip(digits@.len() as int) =~= Seq::<u8>::empty());
        assert(out@ + Seq::<u8>::empty() =~= out@);
    }
    Some(out)
}

/// Relates a partially decoded prefix to the decoding of the whole input:
/// the bytes decoded so far, plus the decoding of the remainder, is the
/// decoding of the whole.
pub open spec fn hex_decoding_from(digits: Seq<u8>, i: int, done: Seq<u8>) -> bool {
    match hex_decoding(digits.skip(i)) {
        Some(rest) => hex_decoding(digits) == Some(done + rest),
        None => hex_decoding(digits) is None,
    }
}

proof fn lemma_hex_decoding_odd(digits: Seq<u8>)
    requires
        digits.len() % 2 == 1,
    ensures
        hex_decoding(digits) is None,
    decreases digits.len(),
{
    if digits.len() > 1 {
        lemma_hex_decoding_odd(digits.skip(2));
    }
}

/// The value of a lowercase ASCII hex digit byte, or `None`.
fn hex_value_exec(d: u8) -> (r: Option<u8>)
    ensures
        r == hex_value(d),
{
    if 0x30 <= d && d <= 0x39 {
        Some(d - 0x30)
    } else if 0x61 <= d && d <= 0x66 {
        Some(d - 0x61 + 10)
    } else {
        None
    }
}

} // verus!
