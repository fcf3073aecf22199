//! Channel remapper: turns frames of `in_ch` interleaved samples into frames
//! of `out_ch` samples.
//!
//! The mapping optimises for correctness of the channel count, not for
//! perceptual fidelity: mono to stereo duplicates, stereo to mono averages,
//! a general downmix keeps the first `out_ch` channels verbatim, and a
//! general upmix broadcasts the first channel everywhere.

use crate::sample::{mix_pair, mixed_pair};
use vstd::arithmetic::div_mod::{
    lemma_fundamental_div_mod, lemma_fundamental_div_mod_converse, lemma_mod_bound,
};
use vstd::arithmetic::mul::lemma_mul_inequality;
use vstd::prelude::*;

verus! {

/// One remapped frame: what a frame of `in_ch` samples becomes at `out_ch`
/// channels.
pub open spec fn remap_frame(frame: Seq<i32>, in_ch: int, out_ch: int) -> Seq<i32>
    recommends
        frame.len() == in_ch,
        1 <= in_ch,
        1 <= out_ch,
{
    if in_ch == 1 && out_ch == 2 {
        seq![frame[0], frame[0]]
    } else if in_ch == 2 && out_ch == 1 {
        seq![mixed_pair(frame[0] as int, frame[1] as int) as i32]
    } else if in_ch >= out_ch {
        frame.take(out_ch)
    } else {
        Seq::new(out_ch as nat, |i: int| frame[0])
    }
}

/// A whole decoded chunk remapped frame by frame. Trailing samples that do
/// not fill a frame are dropped; output index `j` belongs to frame
/// `j / out_ch`, slot `j % out_ch`.
pub open spec fn remapped_chunk(samples: Seq<i32>, in_ch: int, out_ch: int) -> Seq<i32>
    recommends
        1 <= in_ch,
        1 <= out_ch,
{
    let frames = samples.len() as int / in_ch;
    Seq::new(
        (frames * out_ch) as nat,
        |j: int|
            remap_frame(
                samples.subrange((j / out_ch) * in_ch, (j / out_ch) * in_ch + in_ch),
                in_ch,
                out_ch,
            )[j % out_ch],
    )
}

/// Remaps one frame. The output always has exactly `out_ch` samples:
/// mono to stereo duplicates the sample, stereo to mono takes the mean,
/// a downmix keeps the first `out_ch` samples, an upmix broadcasts the
/// first sample.
pub fn remap(frame: &Vec<i32>, in_ch: usize, out_ch: usize) -> (out: Vec<i32>)
    requires
        frame@.len() == in_ch,
        1 <= in_ch,
        1 <= out_ch,
    ensures
        out@ == remap_frame(frame@, in_ch as int, out_ch as int),
        out@.len() == out_ch,
{
    let mut out: Vec<i32> = Vec::new();
    if in_ch == 1 && out_ch == 2 {
        let s = frame[0];
        out.push(s);
        out.push(s);
        proof {
            assert(out@ =~= remap_frame(frame@, in_ch as int, out_ch as int));
        }
    } else if in_ch == 2 && out_ch == 1 {
        let m = mix_pair(frame[0], frame[1]);
        out.push(m);
        proof {
            assert(out@ =~= remap_frame(frame@, in_ch as int, out_ch as int));
        }
    } else if in_ch >= out_ch {
        let mut i: usize = 0;
        while i < out_ch
            invariant
                i <= out_ch <= in_ch,
                in_ch == frame@.len(),
                out@ == frame@.take(i as int),
            decreases out_ch - i,
        {
            out.push(frame[i]);
            i = i + 1;
            proof {
                assert(frame@.take(i as int) =~= frame@.take(i - 1).push(frame@[i - 1]));
            }
        }
        proof {
            assert(out@ =~= remap_frame(frame@, in_ch as int, out_ch as int));
        }
    } else {
        let s = frame[0];
        let mut i: usize = 0;
        while i < out_ch
            invariant
                i <= out_ch,
                1 <= in_ch < out_ch,
                in_ch == frame@.len(),
                s == frame@[0],
                out@.len() == i,
                forall|j: int| 0 <= j < i ==> out@[j] == s,
            decreases out_ch - i,
        {
            out.push(s);
            i = i + 1;
        }
        proof {
            assert(out@ =~= remap_frame(frame@, in_ch as int, out_ch as int));
        }
    }
    out
}

/// Remaps every complete frame of a decoded chunk, in order.
pub fn remap_chunk(samples: &Vec<i32>, in_ch: usize, out_ch: usize) -> (out: Vec<i32>)
    requires
        1 <= in_ch,
        1 <= out_ch,
    ensures
        out@ == remapped_chunk(samples@, in_ch as int, out_ch as int),
{
    let ghost whole = remapped_chunk(samples@, in_ch as int, out_ch as int);
    let n = samples.len();
    let frames = n / in_ch;
    proof {
        lemma_fundamental_div_mod(samples@.len() as int, in_ch as int);
        lemma_mod_bound(samples@.len() as int, in_ch as int);
        assert(whole.len() == frames * out_ch);
    }
    let mut out: Vec<i32> = Vec::new();
    let mut fidx: usize = 0;
    while fidx < frames
        invariant
            1 <= in_ch,
            1 <= out_ch,
            n == samples@.len(),
            frames == samples@.len() as int / in_ch as int,
            frames * in_ch <= n,
            whole == remapped_chunk(samples@, in_ch as int, out_ch as int),
            whole.len() == frames * out_ch,
            fidx <= frames,
            out@.len() == fidx * out_ch,
            forall|j: int| 0 <= j < out@.len() ==> out@[j] == whole[j],
        decreases frames - fidx,
    {
        proof {
            lemma_mul_inequality(fidx + 1, frames as int, in_ch as int);
            lemma_mul_inequality(fidx + 1, frames as int, out_ch as int);
            assert((fidx + 1) * (in_ch as int) == fidx * in_ch + in_ch) by (nonlinear_arith);
            assert((fidx + 1) * (out_ch as int) == fidx * out_ch + out_ch) by (nonlinear_arith);
        }
        let base = fidx * in_ch;
        let mut fr: Vec<i32> = Vec::new();
        let mut k: usize = 0;
        while k < in_ch
            invariant
                k <= in_ch,
                base == fidx * in_ch,
                n == samples@.len(),
                base + in_ch <= n,
                fr@ == samples@.subrange(base as int, base + k),
            decreases in_ch - k,
        {
            fr.push(samples[base + k]);
            k = k + 1;
            proof {
                assert(samples@.subrange(base as int, base + k as int) =~= samples@.subrange(
                    base as int,
                    base + k - 1,
                ).push(samples@[base + k - 1]));
            }
        }
        let mapped = remap(&fr, in_ch, out_ch);
        let ghost frame_seq = samples@.subrange(base as int, base + in_ch);
        let mut s: usize = 0;
        while s < out_ch
            invariant
                s <= out_ch,
                1 <= out_ch,
                base == fidx * in_ch,
                fidx < frames,
                whole.len() == frames * out_ch,
                mapped@ == remap_frame(frame_seq, in_ch as int, out_ch as int),
                mapped@.len() == out_ch,
                frame_seq == samples@.subrange(base as int, base + in_ch),
                out@.len() == fidx * out_ch + s,
                forall|j: int| 0 <= j < out@.len() ==> out@[j] == whole[j],
                whole == remapped_chunk(samples@, in_ch as int, out_ch as int),
            decreases out_ch - s,
        {
            out.push(mapped[s]);
            proof {
                let j: int = fidx * out_ch + s;
                lemma_fundamental_div_mod_converse(j, out_ch as int, fidx as int, s as int);
                lemma_mul_inequality(fidx + 1, frames as int, out_ch as int);
                assert((fidx + 1) * (out_ch as int) == fidx * out_ch + out_ch)
                    by (nonlinear_arith);
                assert(0 <= j < whole.len());
                assert(j / out_ch as int == fidx && j % out_ch as int == s);
                assert(whole[j] == remap_frame(
                    samples@.subrange(fidx * in_ch, fidx * in_ch + in_ch),
                    in_ch as int,
                    out_ch as int,
                )[s as int]);
                assert(whole[j] == mapped@[s as int]);
            }
            s = s + 1;
        }
        fidx = fidx + 1;
    }
    proof {
        assert(out@ =~= whole);
    }
    out
}

} // verus!
