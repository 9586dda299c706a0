//! Base-128 variable-length integers: the scalar building block of the
//! header wire format. Seven value bits per byte, least-significant group
//! first; the high bit of a byte says that more bytes follow.

use vstd::arithmetic::div_mod::lemma_fundamental_div_mod;
use vstd::arithmetic::power2::{lemma2_to64, lemma_pow2_adds, lemma_pow2_pos, pow2};
use vstd::prelude::*;

verus! {

/// The wire bytes of `n`.
pub open spec fn spec_varint_encode(n: nat) -> Seq<u8>
    decreases n,
{
    if n < 128 {
        seq![n as u8]
    } else {
        seq![(128 + n % 128) as u8] + spec_varint_encode(n / 128)
    }
}

/// Reads one varint from the front of `s`: the value and how many bytes it
/// took, or `None` when `s` ends inside the varint.
pub open spec fn spec_varint_decode(s: Seq<u8>) -> Option<(nat, int)>
    decreases s.len(),
{
    if s.len() == 0 {
        None
    } else if s[0] < 128 {
        Some((s[0] as nat, 1))
    } else {
        match spec_varint_decode(s.skip(1)) {
            Some(r) => Some(((s[0] - 128) as nat + 128 * r.0, r.1 + 1)),
            None => None,
        }
    }
}

/// Reading as a sixty-four bit value: encodings longer than ten bytes and
/// values beyond `u64::MAX` are refused, as the schema codec refuses them.
pub open spec fn spec_varint_decode_u64(s: Seq<u8>) -> Option<(u64, int)> {
    match spec_varint_decode(s) {
        Some(r) => if r.0 <= u64::MAX && r.1 <= 10 {
            Some((r.0 as u64, r.1))
        } else {
            None
        },
        None => None,
    }
}

/// Every value that fits sixty-four bits encodes in at most ten bytes, so
/// an encoded value is never refused for its length.
pub proof fn lemma_varint_encode_len(n: nat)
    requires
        n <= u64::MAX,
    ensures
        spec_varint_encode(n).len() <= 10,
{
    lemma2_to64();
    lemma_pow2_adds(64, 6);
    assert(pow2(70) == pow2(64) * pow2(6));
    lemma_varint_encode_len_rec(n, 10);
}

proof fn lemma_varint_encode_len_rec(n: nat, k: nat)
    requires
        1 <= k,
        n < pow2(7 * k),
    ensures
        spec_varint_encode(n).len() <= k,
    decreases k,
{
    if n < 128 {
    } else {
        lemma2_to64();
        lemma_pow2_pos((7 * (k - 1)) as nat);
        lemma_pow2_adds(7, (7 * (k - 1)) as nat);
        assert(pow2(7 * k) == 128 * pow2((7 * (k - 1)) as nat));
        assert(n / 128 < pow2((7 * (k - 1)) as nat)) by (nonlinear_arith)
            requires
                n < 128 * pow2((7 * (k - 1)) as nat),
                pow2((7 * (k - 1)) as nat) > 0,
        ;
        lemma_varint_encode_len_rec(n / 128, (k - 1) as nat);
    }
}

/// A successful read takes at least one byte and no more than `s` holds.
pub proof fn lemma_varint_decode_bounds(s: Seq<u8>)
    ensures
        spec_varint_decode(s) matches Some(r) ==> 1 <= r.1 <= s.len(),
    decreases s.len(),
{
    if s.len() > 0 && s[0] >= 128 {
        lemma_varint_decode_bounds(s.skip(1));
    }
}

/// Decoding undoes encoding, whatever bytes follow the varint.
pub proof fn lemma_varint_roundtrip(n: nat, rest: Seq<u8>)
    ensures
        spec_varint_decode(spec_varint_encode(n) + rest) == Some(
            (n, spec_varint_encode(n).len() as int),
        ),
    decreases n,
{
    let enc = spec_varint_encode(n);
    if n < 128 {
        assert((enc + rest)[0] == n as u8);
    } else {
        let b: u8 = (128 + n % 128) as u8;
        assert((enc + rest)[0] == b);
        lemma_varint_roundtrip(n / 128, rest);
        assert((enc + rest).skip(1) =~= spec_varint_encode(n / 128) + rest);
        assert((b - 128) as nat + 128 * (n / 128) == n) by {
            lemma_fundamental_div_mod(n as int, 128);
        };
    }
}

/// Appends the varint encoding of `n` to `out`.
pub fn write_varint(out: &mut Vec<u8>, n: u64)
    ensures
        final(out)@ == old(out)@ + spec_varint_encode(n as nat),
    decreases n,
{
    if n < 128 {
        out.push(n as u8);
        assert(out@ =~= old(out)@ + spec_varint_encode(n as nat));
    } else {
        let b: u8 = (n % 128) as u8 + 128;
        out.push(b);
        assert(b == (128 + (n as nat) % 128) as u8);
        write_varint(out, n / 128);
        assert(out@ =~= old(out)@ + spec_varint_encode(n as nat));
    }
}

/// Reads one varint starting at `pos`; returns the value and the position
/// just past it, or `None` when the bytes there are not a varint of at most
/// ten bytes whose value fits in sixty-four bits.
pub fn read_varint(buf: &Vec<u8>, pos: usize) -> (r: Option<(u64, usize)>)
    requires
        pos <= buf.len(),
    ensures
        match r {
            Some(v) => {
                &&& pos < v.1 <= buf.len()
                &&& spec_varint_decode_u64(buf@.skip(pos as int)) == Some((v.0, v.1 - pos))
            },
            None => spec_varint_decode_u64(buf@.skip(pos as int)) is None,
        },
{
    match read_varint_from(buf, pos) {
        None => None,
        Some((v, end)) => {
            if end - pos <= 10 {
                Some((v, end))
            } else {
                None
            }
        },
    }
}

/// Reads one varint of any length starting at `pos`; refuses only values
/// beyond sixty-four bits.
fn read_varint_from(buf: &Vec<u8>, pos: usize) -> (r: Option<(u64, usize)>)
    requires
        pos <= buf.len(),
    ensures
        match r {
            Some(v) => {
                &&& pos < v.1 <= buf.len()
                &&& spec_varint_decode(buf@.skip(pos as int)) == Some((v.0 as nat, v.1 - pos))
            },
            None => match spec_varint_decode(buf@.skip(pos as int)) {
                Some(raw) => raw.0 > u64::MAX,
                None => true,
            },
        },
    decreases buf.len() - pos,
{
    let ghost s = buf@.skip(pos as int);
    if pos == buf.len() {
        return None;
    }
    let b = buf[pos];
    assert(s[0] == b);
    if b < 128 {
        Some((b as u64, pos + 1))
    } else {
        assert(s.skip(1) =~= buf@.skip(pos as int + 1));
        match read_varint_from(buf, pos + 1) {
            None => {
                proof {
                    if spec_varint_decode(s.skip(1)) is Some {
                        let r = spec_varint_decode(s.skip(1)).unwrap();
                        assert(r.0 > u64::MAX);
                        assert((b - 128) as nat + 128 * r.0 > u64::MAX);
                    }
                }
                None
            },
            Some((v, end)) => {
                if v <= (u64::MAX - 127) / 128 {
                    Some(((b - 128) as u64 + 128 * v, end))
                } else {
                    proof {
                        assert((b - 128) as nat + 128 * (v as nat) > u64::MAX);
                    }
                    None
                }
            },
        }
    }
}

} // verus!
