//! UTF-8 validation of raw body bytes, and the conversion of validated
//! bytes into a borrowed string slice.
//!
//! Validity is decided by [`check_utf8`], a verified decoder loop proved
//! equivalent to [`vstd::utf8::valid_utf8`]; only the final conversion of a
//! proven-valid byte slice into `&str` is delegated to the standard library.

use vstd::prelude::*;
use vstd::string::StringSliceAdditionalSpecFns;
use vstd::utf8::*;

verus! {

broadcast use vstd::seq::group_seq_axioms;

/// From a position `i` that ends a valid prefix, an invalid first scalar in
/// the remainder makes the whole sequence invalid.
proof fn lemma_invalid_at(bytes: Seq<u8>, i: int)
    requires
        0 <= i < bytes.len(),
        partial_valid_utf8(bytes, i),
        !valid_first_scalar(bytes.subrange(i, bytes.len() as int)),
    ensures
        !valid_utf8(bytes),
{
    let s = bytes.subrange(i, bytes.len() as int);
    assert(s.len() > 0);
    assert(!valid_utf8(s));
    partial_valid_partial_invalid_utf8(bytes, i);
}

/// Decides whether `bytes` is a valid UTF-8 encoding, by walking the
/// scalars one encoded codepoint at a time and rejecting stray or missing
/// continuation bytes, overlong encodings, surrogate codepoints, and values
/// beyond the scalar range.
pub fn check_utf8(bytes: &[u8]) -> (r: bool)
    ensures
        r == valid_utf8(bytes@),
{
    let n: usize = bytes.len();
    let mut i: usize = 0;
    proof {
        assert(bytes@.subrange(0, 0) =~= Seq::<u8>::empty());
    }
    while i < n
        invariant
            i <= n,
            n == bytes@.len(),
            partial_valid_utf8(bytes@, i as int),
        decreases n - i,
    {
        let ghost s = bytes@.subrange(i as int, n as int);
        let b0 = bytes[i];
        if b0 < 0x80 {
            // One-byte scalar.
            proof {
                assert(is_leading_byte_width_1(s[0]));
                assert(valid_first_scalar(s));
                assert(length_of_first_scalar(s) == 1);
                partial_valid_utf8_extend(bytes@, i as int);
            }
            i = i + 1;
        } else if b0 < 0xc0 {
            // A continuation byte where a leading byte is required.
            proof {
                assert(!valid_leading_and_continuation_bytes_first_codepoint(s));
                lemma_invalid_at(bytes@, i as int);
            }
            return false;
        } else if b0 < 0xe0 {
            // Two-byte scalar.
            if n - i < 2 {
                proof {
                    assert(s.len() == 1);
                    assert(!valid_leading_and_continuation_bytes_first_codepoint(s));
                    lemma_invalid_at(bytes@, i as int);
                }
                return false;
            }
            let b1 = bytes[i + 1];
            if !(0x80 <= b1 && b1 < 0xc0) {
                proof {
                    assert(!is_continuation_byte(s[1]));
                    assert(!valid_leading_and_continuation_bytes_first_codepoint(s));
                    lemma_invalid_at(bytes@, i as int);
                }
                return false;
            }
            let cp: u32 = (((b0 & 0x1f) as u32) << 6) | ((b1 & 0x3f) as u32);
            proof {
                assert(decode_first_codepoint(s) == cp);
                assert(length_of_first_codepoint(s) == 2);
            }
            if cp < 0x80 {
                // Overlong two-byte encoding.
                proof {
                    assert(!not_overlong_encoding(decode_first_codepoint(s), 2));
                    lemma_invalid_at(bytes@, i as int);
                }
                return false;
            }
            proof {
                assert(cp <= 0x7ff) by (bit_vector)
                    requires
                        cp == (((b0 & 0x1f) as u32) << 6) | ((b1 & 0x3f) as u32),
                ;
                assert(valid_first_scalar(s));
                assert(length_of_first_scalar(s) == 2);
                partial_valid_utf8_extend(bytes@, i as int);
            }
            i = i + 2;
        } else if b0 < 0xf0 {
            // Three-byte scalar.
            if n - i < 3 {
                proof {
                    assert(s.len() <= 2);
                    assert(!valid_leading_and_continuation_bytes_first_codepoint(s));
                    lemma_invalid_at(bytes@, i as int);
                }
                return false;
            }
            let b1 = bytes[i + 1];
            let b2 = bytes[i + 2];
            if !(0x80 <= b1 && b1 < 0xc0) || !(0x80 <= b2 && b2 < 0xc0) {
                proof {
                    assert(!is_continuation_byte(s[1]) || !is_continuation_byte(s[2]));
                    assert(!valid_leading_and_continuation_bytes_first_codepoint(s));
                    lemma_invalid_at(bytes@, i as int);
                }
                return false;
            }
            let cp: u32 = (((b0 & 0x0f) as u32) << 12) | (((b1 & 0x3f) as u32) << 6) | ((b2
                & 0x3f) as u32);
            proof {
                assert(decode_first_codepoint(s) == cp);
                assert(length_of_first_codepoint(s) == 3);
            }
            if cp < 0x800 {
                // Overlong three-byte encoding.
                proof {
                    assert(!not_overlong_encoding(decode_first_codepoint(s), 3));
                    lemma_invalid_at(bytes@, i as int);
                }
                return false;
            }
            if 0xd800 <= cp && cp <= 0xdfff {
                // A surrogate codepoint, which UTF-8 must not encode.
                proof {
                    assert(!not_surrogate(decode_first_codepoint(s)));
                    lemma_invalid_at(bytes@, i as int);
                }
                return false;
            }
            proof {
                assert(valid_first_scalar(s));
                assert(length_of_first_scalar(s) == 3);
                partial_valid_utf8_extend(bytes@, i as int);
            }
            i = i + 3;
        } else if b0 < 0xf8 {
            // Four-byte scalar.
            if n - i < 4 {
                proof {
                    assert(s.len() <= 3);
                    assert(!valid_leading_and_continuation_bytes_first_codepoint(s));
                    lemma_invalid_at(bytes@, i as int);
                }
                return false;
            }
            let b1 = bytes[i + 1];
            let b2 = bytes[i + 2];
            let b3 = bytes[i + 3];
            if !(0x80 <= b1 && b1 < 0xc0) || !(0x80 <= b2 && b2 < 0xc0) || !(0x80 <= b3 && b3
                < 0xc0) {
                proof {
                    assert(!is_continuation_byte(s[1]) || !is_continuation_byte(s[2])
                        || !is_continuation_byte(s[3]));
                    assert(!valid_leading_and_continuation_bytes_first_codepoint(s));
                    lemma_invalid_at(bytes@, i as int);
                }
                return false;
            }
            let cp: u32 = (((b0 & 0x07) as u32) << 18) | (((b1 & 0x3f) as u32) << 12) | (((b2
                & 0x3f) as u32) << 6) | ((b3 & 0x3f) as u32);
            proof {
                assert(decode_first_codepoint(s) == cp);
                assert(length_of_first_codepoint(s) == 4);
            }
            if cp < 0x10000 || cp > 0x10ffff {
                // Overlong, or beyond the Unicode scalar range.
                proof {
                    assert(!not_overlong_encoding(decode_first_codepoint(s), 4));
                    lemma_invalid_at(bytes@, i as int);
                }
                return false;
            }
            proof {
                assert(not_surrogate(cp));
                assert(valid_first_scalar(s));
                assert(length_of_first_scalar(s) == 4);
                partial_valid_utf8_extend(bytes@, i as int);
            }
            i = i + 4;
        } else {
            // 0xf8 and above is never a leading byte.
            proof {
                assert(!valid_leading_and_continuation_bytes_first_codepoint(s));
                lemma_invalid_at(bytes@, i as int);
            }
            return false;
        }
    }
    proof {
        assert(bytes@.subrange(0, n as int) =~= bytes@);
    }
    true
}

/// Relies on `core::str::from_utf8`: on a byte slice that is valid UTF-8 it
/// returns `Ok` with a string slice over exactly those bytes.
#[verifier::external_body]
pub(crate) fn bytes_as_str(v: &[u8]) -> (r: &str)
    requires
        valid_utf8(v@),
    ensures
        r.spec_bytes() == v@,
{
    match core::str::from_utf8(v) {
        Ok(s) => s,
        Err(_) => "",
    }
}

} // verus!
