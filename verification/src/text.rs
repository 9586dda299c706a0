//! Checking that a byte run is well-formed UTF-8 text. The header schema
//! types its URL and status-message fields as text, so the decoders refuse
//! byte runs that no text could have produced.

use vstd::prelude::*;
use vstd::utf8::{
    codepoint_width_2, codepoint_width_3, codepoint_width_4, pop_first_scalar, valid_first_scalar,
    valid_utf8,
};

verus! {

/// Whether `buf` is well-formed UTF-8.
pub fn check_utf8(buf: &Vec<u8>) -> (b: bool)
    ensures
        b == valid_utf8(buf@),
{
    proof {
        assert(buf@.skip(0) =~= buf@);
    }
    check_utf8_from(buf, 0)
}

/// Whether the bytes of `buf` from `pos` on are well-formed UTF-8: one
/// scalar at a time, each with the right leading byte, its continuation
/// bytes, no overlong encoding, and no surrogate.
fn check_utf8_from(buf: &Vec<u8>, pos: usize) -> (b: bool)
    requires
        pos <= buf.len(),
    ensures
        b == valid_utf8(buf@.skip(pos as int)),
    decreases buf.len() - pos,
{
    let ghost s = buf@.skip(pos as int);
    let n = buf.len();
    if pos == n {
        proof {
            assert(s =~= Seq::<u8>::empty());
        }
        return true;
    }
    let b0 = buf[pos];
    assert(s[0] == b0);
    if b0 <= 0x7f {
        // one-byte scalar
        proof {
            assert(valid_first_scalar(s));
            assert(pop_first_scalar(s) =~= buf@.skip(pos as int + 1));
        }
        check_utf8_from(buf, pos + 1)
    } else if 0xc0 <= b0 && b0 <= 0xdf {
        // two-byte scalar
        if n - pos < 2 {
            return false;
        }
        let b1 = buf[pos + 1];
        assert(s[1] == b1);
        if !(0x80 <= b1 && b1 <= 0xbf) {
            return false;
        }
        let cp: u32 = (((b0 & 0x1f) as u32) << 6u32) | ((b1 & 0x3f) as u32);
        assert(cp == codepoint_width_2(b0, b1));
        if cp < 0x80 {
            // overlong encoding
            return false;
        }
        proof {
            // two-byte scalars stay below the surrogate range
            assert(cp <= 0x7ff) by (bit_vector)
                requires
                    cp == (((b0 & 0x1f) as u32) << 6u32) | ((b1 & 0x3f) as u32),
            ;
            assert(valid_first_scalar(s));
            assert(pop_first_scalar(s) =~= buf@.skip(pos as int + 2));
        }
        check_utf8_from(buf, pos + 2)
    } else if 0xe0 <= b0 && b0 <= 0xef {
        // three-byte scalar
        if n - pos < 3 {
            return false;
        }
        let b1 = buf[pos + 1];
        let b2 = buf[pos + 2];
        assert(s[1] == b1 && s[2] == b2);
        if !(0x80 <= b1 && b1 <= 0xbf) || !(0x80 <= b2 && b2 <= 0xbf) {
            return false;
        }
        let cp: u32 = (((b0 & 0x0f) as u32) << 12u32) | (((b1 & 0x3f) as u32) << 6u32) | ((b2
            & 0x3f) as u32);
        assert(cp == codepoint_width_3(b0, b1, b2));
        if cp < 0x800 {
            // overlong encoding
            return false;
        }
        if 0xd800 <= cp && cp <= 0xdfff {
            // surrogate range
            return false;
        }
        proof {
            assert(valid_first_scalar(s));
            assert(pop_first_scalar(s) =~= buf@.skip(pos as int + 3));
        }
        check_utf8_from(buf, pos + 3)
    } else if 0xf0 <= b0 && b0 <= 0xf7 {
        // four-byte scalar
        if n - pos < 4 {
            return false;
        }
        let b1 = buf[pos + 1];
        let b2 = buf[pos + 2];
        let b3 = buf[pos + 3];
        assert(s[1] == b1 && s[2] == b2 && s[3] == b3);
        if !(0x80 <= b1 && b1 <= 0xbf) || !(0x80 <= b2 && b2 <= 0xbf) || !(0x80 <= b3 && b3
            <= 0xbf) {
            return false;
        }
        let cp: u32 = (((b0 & 0x07) as u32) << 18u32) | (((b1 & 0x3f) as u32) << 12u32) | (((b2
            & 0x3f) as u32) << 6u32) | ((b3 & 0x3f) as u32);
        assert(cp == codepoint_width_4(b0, b1, b2, b3));
        if cp < 0x10000 || cp > 0x10ffff {
            // overlong encoding or beyond the last scalar
            return false;
        }
        proof {
            assert(valid_first_scalar(s));
            assert(pop_first_scalar(s) =~= buf@.skip(pos as int + 4));
        }
        check_utf8_from(buf, pos + 4)
    } else {
        // a stray continuation byte, or a byte no encoding uses
        false
    }
}

} // verus!
