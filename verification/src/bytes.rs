use vstd::prelude::*;
use crate::geometry::{Geometry, Tri};

verus! {

// Little-endian encodings and decimal digits: the building blocks of
// the binary streams and of the JSON text.

/// The two little-endian bytes of a 16-bit word.
pub open spec fn le16(x: u16) -> Seq<u8> {
    seq![(x % 256) as u8, (x / 256) as u8]
}

/// The four little-endian bytes of a 32-bit word.
pub open spec fn le32(x: u32) -> Seq<u8> {
    seq![(x % 256) as u8, ((x / 256) % 256) as u8, ((x / 65536) % 256) as u8, (x / 16777216) as u8]
}

/// Decimal digits of `n`, most significant first.
pub open spec fn dec(n: nat) -> Seq<u8>
    decreases n,
{
    if n < 10 {
        seq![(48 + n) as u8]
    } else {
        dec(n / 10) + seq![(48 + n % 10) as u8]
    }
}

/// A triangle's three indices as little-endian 16-bit words.
pub open spec fn tri_bytes16(t: Tri) -> Seq<u8> {
    le16(t.a as u16) + le16(t.b as u16) + le16(t.c as u16)
}

/// A triangle's three indices as little-endian 32-bit words.
pub open spec fn tri_bytes32(t: Tri) -> Seq<u8> {
    le32(t.a) + le32(t.b) + le32(t.c)
}

/// The index stream: each triangle's indices in order, 16-bit words
/// unless `wide`.
pub open spec fn tris_bytes(tris: Seq<Tri>, wide: bool) -> Seq<u8>
    decreases tris.len(),
{
    if tris.len() == 0 {
        Seq::empty()
    } else {
        tris_bytes(tris.drop_last(), wide) + (if wide {
            tri_bytes32(tris.last())
        } else {
            tri_bytes16(tris.last())
        })
    }
}

/// The positions stream: each 32-bit word (a single-precision bit
/// pattern) in little-endian order.
pub open spec fn words_bytes(ws: Seq<u32>) -> Seq<u8>
    decreases ws.len(),
{
    if ws.len() == 0 {
        Seq::empty()
    } else {
        words_bytes(ws.drop_last()) + le32(ws.last())
    }
}

pub proof fn lemma_tris_bytes_len(tris: Seq<Tri>, wide: bool)
    ensures
        tris_bytes(tris, wide).len() == tris.len() * (if wide {
            12int
        } else {
            6int
        }),
    decreases tris.len(),
{
    if tris.len() > 0 {
        lemma_tris_bytes_len(tris.drop_last(), wide);
    }
}

pub proof fn lemma_words_bytes_len(ws: Seq<u32>)
    ensures
        words_bytes(ws).len() == ws.len() * 4,
    decreases ws.len(),
{
    if ws.len() > 0 {
        lemma_words_bytes_len(ws.drop_last());
    }
}

/// Appends the two little-endian bytes of `x`.
pub fn push_le16(out: &mut Vec<u8>, x: u16)
    ensures
        final(out)@ == old(out)@ + le16(x),
{
    out.push((x % 256) as u8);
    out.push((x / 256) as u8);
    proof {
        assert(out@ =~= old(out)@ + le16(x));
    }
}

/// Appends the four little-endian bytes of `x`.
pub fn push_le32(out: &mut Vec<u8>, x: u32)
    ensures
        final(out)@ == old(out)@ + le32(x),
{
    out.push((x % 256) as u8);
    out.push(((x / 256) % 256) as u8);
    out.push(((x / 65536) % 256) as u8);
    out.push((x / 16777216) as u8);
    proof {
        assert(out@ =~= old(out)@ + le32(x));
    }
}

/// Appends the decimal digits of `x`.
pub fn push_dec(out: &mut Vec<u8>, x: u64)
    ensures
        final(out)@ == old(out)@ + dec(x as nat),
{
    if x < 10 {
        out.push((48 + x) as u8);
        proof {
            assert(out@ =~= old(out)@ + dec(x as nat));
        }
        return;
    }
    let mut digits: Vec<u8> = Vec::new();
    let mut v: u64 = x;
    while v >= 10
        invariant
            dec(x as nat) == dec(v as nat) + digits@.reverse(),
        decreases v,
    {
        proof {
            let d = (48 + v % 10) as u8;
            assert(dec(v as nat) == dec((v / 10) as nat) + seq![d]);
            assert(seq![d] + digits@.reverse() =~= digits@.push(d).reverse());
            assert(dec((v / 10) as nat) + (seq![d] + digits@.reverse()) =~= (dec((v / 10) as nat)
                + seq![d]) + digits@.reverse());
        }
        digits.push((48 + v % 10) as u8);
        v = v / 10;
    }
    out.push((48 + v) as u8);
    proof {
        assert(dec(v as nat) == seq![(48 + v) as u8]);
    }
    let m = digits.len();
    let mut i: usize = m;
    while i > 0
        invariant
            m == digits@.len(),
            0 <= i <= m,
            out@ == old(out)@ + dec(v as nat) + digits@.reverse().take((m - i) as int),
            dec(x as nat) == dec(v as nat) + digits@.reverse(),
        decreases i,
    {
        i -= 1;
        proof {
            let r = digits@.reverse();
            assert(r[m - i - 1] == digits@[i as int]);
            assert(r.take((m - i) as int) =~= r.take((m - i - 1) as int).push(r[m - i - 1]));
            assert((old(out)@ + dec(v as nat) + r.take((m - i - 1) as int)).push(r[m - i - 1])
                =~= old(out)@ + dec(v as nat) + r.take((m - i) as int));
        }
        let d = digits[i];
        out.push(d);
    }
    proof {
        assert(digits@.reverse().take(m as int) =~= digits@.reverse());
        assert(old(out)@ + dec(v as nat) + digits@.reverse() =~= old(out)@ + (dec(v as nat)
            + digits@.reverse()));
    }
}

impl Geometry {
    /// The index stream for packing: 16-bit little-endian words while
    /// the vertex count fits, else 32-bit.
    pub fn tris_raw(&self) -> (r: Vec<u8>)
        ensures
            r@ == tris_bytes(self@.tris, self@.vtcs.len() >= 0x10000),
    {
        let wide = self.vtcs.len() >= 0x10000;
        let n = self.tris.len();
        let mut r: Vec<u8> = Vec::new();
        proof {
            assert(self@.tris.take(0) =~= Seq::<Tri>::empty());
        }
        let mut k: usize = 0;
        while k < n
            invariant
                wide == (self@.vtcs.len() >= 0x10000),
                n == self@.tris.len(),
                0 <= k <= n,
                r@ == tris_bytes(self@.tris.take(k as int), wide),
            decreases n - k,
        {
            proof {
                let pre = self@.tris.take(k as int);
                let cur = self@.tris.take(k as int + 1);
                assert(cur.drop_last() =~= pre);
                assert(cur.last() == self@.tris[k as int]);
            }
            let t = self.tris[k];
            if wide {
                push_le32(&mut r, t.a);
                push_le32(&mut r, t.b);
                push_le32(&mut r, t.c);
                proof {
                    assert(r@ =~= tris_bytes(self@.tris.take(k as int), wide) + tri_bytes32(
                        self@.tris[k as int],
                    ));
                }
            } else {
                push_le16(&mut r, (t.a % 0x10000) as u16);
                push_le16(&mut r, (t.b % 0x10000) as u16);
                push_le16(&mut r, (t.c % 0x10000) as u16);
                proof {
                    let xa = t.a;
                    let xb = t.b;
                    let xc = t.c;
                    assert((xa % 0x10000) as u16 == xa as u16) by (bit_vector);
                    assert((xb % 0x10000) as u16 == xb as u16) by (bit_vector);
                    assert((xc % 0x10000) as u16 == xc as u16) by (bit_vector);
                    assert(r@ =~= tris_bytes(self@.tris.take(k as int), wide) + tri_bytes16(
                        self@.tris[k as int],
                    ));
                }
            }
            k += 1;
        }
        proof {
            assert(self@.tris.take(n as int) =~= self@.tris);
        }
        r
    }
}

} // verus!
