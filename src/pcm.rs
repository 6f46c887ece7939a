use vstd::prelude::*;

verus! {

/// The signed 16-bit value of a sample stored as two bytes, low byte first.
pub open spec fn sample_value(lo: u8, hi: u8) -> int {
    let u = hi as int * 256 + lo as int;
    if u < 32768 {
        u
    } else {
        u - 65536
    }
}

/// The samples held by a raw PCM byte stream: one per complete pair of bytes,
/// a trailing odd byte left out.
pub open spec fn samples_of(bytes: Seq<u8>) -> Seq<i16> {
    Seq::new((bytes.len() / 2) as nat, |i: int| sample_value(bytes[2 * i], bytes[2 * i + 1]) as i16)
}

/// Reads one little-endian 16-bit sample from two bytes.
pub fn sample_from_pair(lo: u8, hi: u8) -> (r: i16)
    ensures
        r as int == sample_value(lo, hi),
{
    let u: u16 = (hi as u16) * 256 + (lo as u16);
    if u < 32768 {
        u as i16
    } else {
        ((u as i32) - 65536) as i16
    }
}

/// Reinterprets raw PCM bytes as 16-bit samples, two bytes per sample; a
/// trailing odd byte is dropped.
pub fn samples_from_bytes(bytes: &Vec<u8>) -> (r: Vec<i16>)
    ensures
        r@ == samples_of(bytes@),
        r@.len() == bytes@.len() / 2,
{
    let len: usize = bytes.len();
    let n: usize = len / 2;
    let mut out: Vec<i16> = Vec::with_capacity(n);
    let mut i: usize = 0;
    while i < n
        invariant
            n == bytes@.len() / 2,
            len == bytes@.len(),
            2 * n <= len,
            i <= n,
            out@.len() == i,
            forall|k: int| 0 <= k < i ==> out@[k] as int == sample_value(bytes@[2 * k], bytes@[2 * k + 1]),
        decreases n - i,
    {
        let s = sample_from_pair(bytes[2 * i], bytes[2 * i + 1]);
        out.push(s);
        i = i + 1;
    }
    assert(out@ =~= samples_of(bytes@)) by {
        assert forall|k: int| 0 <= k < n implies out@[k] == samples_of(bytes@)[k] by {
            let v = sample_value(bytes@[2 * k], bytes@[2 * k + 1]);
            assert(-32768 <= v < 32768);
        }
    }
    out
}

} // verus!
