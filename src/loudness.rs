use vstd::prelude::*;

verus! {

/// Largest magnitude of a signed 16-bit sample; the loudness scale's unit.
pub const SAMPLE_MAX: u128 = 32767;

/// Magnitude of a sample, saturated at `SAMPLE_MAX` so that `i16::MIN`
/// counts as full scale rather than above it.
pub open spec fn magnitude(s: i16) -> int {
    if s < -32767 {
        32767
    } else if s < 0 {
        -s
    } else {
        s as int
    }
}

/// Sum of the squared (saturated) magnitudes of a window's samples.
pub open spec fn window_energy(w: Seq<i16>) -> int
    decreases w.len(),
{
    if w.len() == 0 {
        0
    } else {
        window_energy(w.drop_last()) + magnitude(w.last()) * magnitude(w.last())
    }
}

/// Energy of a window of the same length held at full scale throughout.
pub open spec fn full_scale_energy(len: nat) -> int {
    len * (SAMPLE_MAX * SAMPLE_MAX)
}

/// Loudness of a window as an exact ratio.
///
/// The normalised root-mean-square loudness is `sqrt(energy / full_scale)`,
/// a value in `[0, 1]`; it is left to the consumer to take the square root.
#[derive(Clone, Copy, Debug, PartialEq, Eq)]
pub struct Loudness {
    pub energy: u128,
    pub full_scale: u128,
}

/// `l` is the loudness of the samples `w`.
pub open spec fn measures(l: Loudness, w: Seq<i16>) -> bool {
    &&& l.energy == window_energy(w)
    &&& l.full_scale == full_scale_energy(w.len())
}

proof fn lemma_magnitude_square_bounded(s: i16)
    ensures
        0 <= magnitude(s) * magnitude(s) <= SAMPLE_MAX * SAMPLE_MAX,
{
    let m = magnitude(s);
    assert(0 <= m <= 32767);
    assert(0 <= m * m <= 32767 * 32767) by (nonlinear_arith)
        requires
            0 <= m <= 32767,
    ;
}

/// A window's energy never exceeds that of a full-scale window of its length.
pub proof fn lemma_energy_bounded(w: Seq<i16>)
    ensures
        0 <= window_energy(w) <= full_scale_energy(w.len()),
    decreases w.len(),
{
    if w.len() > 0 {
        lemma_energy_bounded(w.drop_last());
        lemma_magnitude_square_bounded(w.last());
        assert(full_scale_energy(w.len()) == full_scale_energy(w.drop_last().len()) + SAMPLE_MAX
            * SAMPLE_MAX) by (nonlinear_arith)
            requires
                w.len() == w.drop_last().len() + 1,
        ;
    }
}

/// A silent window, all of whose samples are zero, has no energy: its
/// loudness is exactly zero.
pub proof fn lemma_silence_is_zero(w: Seq<i16>)
    requires
        forall|i: int| 0 <= i < w.len() ==> w[i] == 0,
    ensures
        window_energy(w) == 0,
    decreases w.len(),
{
    if w.len() > 0 {
        lemma_silence_is_zero(w.drop_last());
        assert(w.last() == 0);
        assert(magnitude(w.last()) == 0);
    }
}

/// A window held at full-scale amplitude (every sample at `SAMPLE_MAX` in
/// magnitude, or beyond it) has exactly the full-scale energy: its loudness
/// is one.
pub proof fn lemma_full_scale_is_one(w: Seq<i16>)
    requires
        forall|i: int| 0 <= i < w.len() ==> (w[i] >= 32767 || w[i] <= -32767),
    ensures
        window_energy(w) == full_scale_energy(w.len()),
    decreases w.len(),
{
    if w.len() > 0 {
        lemma_full_scale_is_one(w.drop_last());
        assert(w.last() == w[w.len() - 1]);
        assert(full_scale_energy(w.len()) == full_scale_energy(w.drop_last().len()) + SAMPLE_MAX
            * SAMPLE_MAX) by (nonlinear_arith)
            requires
                w.len() == w.drop_last().len() + 1,
        ;
    }
}

/// Measures the loudness of a window of samples.
pub fn loudness(window: &[i16]) -> (r: Loudness)
    ensures
        measures(r, window@),
{
    let n = window.len();
    let mut energy: u128 = 0;
    let mut i: usize = 0;
    while i < n
        invariant
            n == window@.len(),
            i <= n,
            energy == window_energy(window@.subrange(0, i as int)),
        decreases n - i,
    {
        let s = window[i];
        let v: i32 = s as i32;
        let m: u128 = if v < -32767 {
            32767
        } else if v < 0 {
            (-v) as u128
        } else {
            v as u128
        };
        proof {
            let prefix = window@.subrange(0, i as int);
            let next = window@.subrange(0, i + 1);
            assert(next.drop_last() =~= prefix);
            assert(next.last() == s);
            lemma_energy_bounded(prefix);
            lemma_magnitude_square_bounded(s);
            assert(full_scale_energy(i as nat) <= 18446744073709551615 * (SAMPLE_MAX * SAMPLE_MAX))
                by (nonlinear_arith)
                requires
                    i <= 18446744073709551615,
            ;
            assert(m == magnitude(s));
        }
        energy = energy + m * m;
        i = i + 1;
    }
    assert(window@.subrange(0, n as int) =~= window@);
    assert((n as u128) * (SAMPLE_MAX * SAMPLE_MAX) <= 18446744073709551615 * (SAMPLE_MAX
        * SAMPLE_MAX)) by (nonlinear_arith)
        requires
            n <= 18446744073709551615,
    ;
    let full_scale: u128 = (n as u128) * (SAMPLE_MAX * SAMPLE_MAX);
    Loudness { energy, full_scale }
}

} // verus!
