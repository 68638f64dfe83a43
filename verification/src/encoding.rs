//! A UTF-8 validity check over a region of wire bytes, proved against
//! vstd's model of UTF-8. The decoders use it to tell a text-decoding
//! failure apart from a numeric-format failure, as the wire protocol
//! demands.

use vstd::prelude::*;
use vstd::utf8::*;

verus! {

/// Check whether `bytes[from..to]` is a valid UTF-8 encoding.
#[verifier::loop_isolation(false)]
pub fn is_valid_utf8_region(bytes: &[u8], from: usize, to: usize) -> (r: bool)
    requires
        from <= to <= bytes@.len(),
    ensures
        r == valid_utf8(bytes@.subrange(from as int, to as int)),
{
    let ghost region = bytes@.subrange(from as int, to as int);
    let mut i = from;
    while i < to
        invariant
            from <= i <= to,
            valid_utf8(region) <==> valid_utf8(bytes@.subrange(i as int, to as int)),
        decreases to - i,
    {
        let ghost suffix = bytes@.subrange(i as int, to as int);
        let b0 = bytes[i];
        let width: usize;
        if b0 <= 0x7f {
            // One-byte scalar: never overlong, never a surrogate.
            proof {
                assert(decode_first_codepoint(suffix) == (b0 & 0x7f) as u32);
                assert((b0 & 0x7f) == b0) by (bit_vector)
                    requires
                        b0 <= 0x7f,
                ;
            }
            width = 1;
        } else if 0xc0 <= b0 && b0 <= 0xdf {
            if to - i < 2 {
                proof {
                    assert(!valid_leading_and_continuation_bytes_first_codepoint(suffix));
                }
                return false;
            }
            let b1 = bytes[i + 1];
            if !(0x80 <= b1 && b1 <= 0xbf) {
                proof {
                    assert(!valid_leading_and_continuation_bytes_first_codepoint(suffix));
                }
                return false;
            }
            let cp = (((b0 & 0x1f) as u32) << 6u32) | ((b1 & 0x3f) as u32);
            proof {
                assert(decode_first_codepoint(suffix) == cp);
                assert(cp <= 0x7ff) by (bit_vector)
                    requires
                        cp == (((b0 & 0x1f) as u32) << 6u32) | ((b1 & 0x3f) as u32),
                ;
            }
            if cp < 0x80 {
                // Overlong two-byte encoding.
                return false;
            }
            width = 2;
        } else if 0xe0 <= b0 && b0 <= 0xef {
            if to - i < 3 {
                proof {
                    assert(!valid_leading_and_continuation_bytes_first_codepoint(suffix));
                }
                return false;
            }
            let b1 = bytes[i + 1];
            let b2 = bytes[i + 2];
            if !(0x80 <= b1 && b1 <= 0xbf) || !(0x80 <= b2 && b2 <= 0xbf) {
                proof {
                    assert(!valid_leading_and_continuation_bytes_first_codepoint(suffix));
                }
                return false;
            }
            let cp = (((b0 & 0x0f) as u32) << 12u32) | (((b1 & 0x3f) as u32) << 6u32) | ((b2
                & 0x3f) as u32);
            proof {
                assert(decode_first_codepoint(suffix) == cp);
            }
            if cp < 0x800 {
                // Overlong three-byte encoding.
                return false;
            }
            if 0xd800 <= cp && cp <= 0xdfff {
                // Surrogate range.
                return false;
            }
            width = 3;
        } else if 0xf0 <= b0 && b0 <= 0xf7 {
            if to - i < 4 {
                proof {
                    assert(!valid_leading_and_continuation_bytes_first_codepoint(suffix));
                }
                return false;
            }
            let b1 = bytes[i + 1];
            let b2 = bytes[i + 2];
            let b3 = bytes[i + 3];
            if !(0x80 <= b1 && b1 <= 0xbf) || !(0x80 <= b2 && b2 <= 0xbf) || !(0x80 <= b3 && b3
                <= 0xbf) {
                proof {
                    assert(!valid_leading_and_continuation_bytes_first_codepoint(suffix));
                }
                return false;
            }
            let cp = (((b0 & 0x07) as u32) << 18u32) | (((b1 & 0x3f) as u32) << 12u32) | (((b2
                & 0x3f) as u32) << 6u32) | ((b3 & 0x3f) as u32);
            proof {
                assert(decode_first_codepoint(suffix) == cp);
            }
            if cp < 0x10000 {
                // Overlong four-byte encoding.
                return false;
            }
            if cp > 0x10ffff {
                // Beyond the last Unicode scalar.
                return false;
            }
            width = 4;
        } else {
            // A stray continuation byte or an impossible leading byte.
            proof {
                assert(!valid_leading_and_continuation_bytes_first_codepoint(suffix));
            }
            return false;
        }
        proof {
            assert(valid_first_scalar(suffix));
            assert(length_of_first_scalar(suffix) == width);
            assert(pop_first_scalar(suffix) =~= bytes@.subrange(i + width, to as int));
        }
        i = i + width;
    }
    proof {
        assert(bytes@.subrange(to as int, to as int).len() == 0);
    }
    true
}

} // verus!
