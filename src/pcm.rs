use vstd::prelude::*;

verus! {

/// The signed value of the little-endian 16-bit word made of `lo` and `hi`.
pub open spec fn s16le_sample(lo: u8, hi: u8) -> int {
    let u = lo as int + 256 * hi as int;
    if u >= 0x8000 {
        u - 0x1_0000
    } else {
        u
    }
}

/// The samples that a little-endian 16-bit byte stream of even length holds.
pub open spec fn s16le_samples(bytes: Seq<u8>) -> Seq<i16> {
    Seq::new(
        bytes.len() / 2,
        |i: int| s16le_sample(bytes[2 * i], bytes[2 * i + 1]) as i16,
    )
}

/// Decodes interleaved signed 16-bit little-endian PCM.
///
/// Returns `None` exactly when the buffer holds an odd number of bytes, that
/// is a trailing half sample.
pub fn decode_s16le(bytes: &[u8]) -> (r: Option<Vec<i16>>)
    ensures
        r is None <==> bytes@.len() % 2 == 1,
        r matches Some(v) ==> v@ == s16le_samples(bytes@),
{
    if bytes.len() % 2 == 1 {
        return None;
    }
    let n = bytes.len() / 2;
    let mut out: Vec<i16> = Vec::with_capacity(n);
    let mut i: usize = 0;
    while i < n
        invariant
            n == bytes@.len() / 2,
            bytes@.len() == 2 * n,
            bytes@.len() == bytes.len(),
            i <= n,
            out@.len() == i,
            forall|k: int| 0 <= k < i ==> out@[k] == s16le_samples(bytes@)[k],
        decreases n - i,
    {
        let lo = bytes[2 * i];
        let hi = bytes[2 * i + 1];
        let u: i32 = lo as i32 + 256 * (hi as i32);
        let s: i16 = if u >= 0x8000 {
            (u - 0x1_0000) as i16
        } else {
            u as i16
        };
        out.push(s);
        i = i + 1;
    }
    assert(out@ =~= s16le_samples(bytes@));
    Some(out)
}

} // verus!
