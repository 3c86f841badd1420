//! The block accounting of the sample-rate converter.
//!
//! The converter works on blocks of a fixed number of frames, its stride.
//! Decoded blocks may be shorter, so frames are held back until a whole
//! block is there; at the end of the stream what is held is padded with
//! silence to one last block. The arithmetic of the conversion itself is
//! not done here.

use crate::audio::types::SourceSpec;
use vstd::arithmetic::div_mod::{
    lemma_basic_div,
    lemma_div_plus_one,
    lemma_fundamental_div_mod,
    lemma_mod_add_multiples_vanish,
    lemma_small_mod,
};
use vstd::prelude::*;

verus! {

/// The mathematical content of a `Resampler`.
pub ghost struct ResamplerState {
    /// Frames per second that come in.
    pub source_rate: u32,
    /// Frames per second that go out.
    pub target_rate: u32,
    /// Samples per frame.
    pub channels: u16,
    /// Frames per block.
    pub stride: nat,
    /// Frames held back, fewer than a block.
    pub held: nat,
}

impl ResamplerState {
    /// Whether the stride is positive and less than a block is held.
    pub open spec fn valid(self) -> bool {
        0 < self.stride && self.held < self.stride
    }

    /// The number of whole blocks that are there once `frames` more frames
    /// have come in.
    pub open spec fn blocks_after(self, frames: nat) -> nat {
        (self.held + frames) / self.stride
    }

    /// The state after `frames` more frames have come in and the whole
    /// blocks have gone out.
    pub open spec fn fed(self, frames: nat) -> ResamplerState {
        ResamplerState { held: (self.held + frames) % self.stride, ..self }
    }

    /// The number of silent frames that fill what is held up to a block.
    pub open spec fn padding(self) -> nat {
        (self.stride - self.held) as nat
    }

    /// The state after a flush: nothing is held.
    pub open spec fn drained(self) -> ResamplerState {
        ResamplerState { held: 0, ..self }
    }
}

/// The block accounting of a sample-rate converter.
#[derive(Debug, Clone, Copy)]
pub struct Resampler {
    source_rate: u32,
    target_rate: u32,
    channels: u16,
    stride: u64,
    held: u64,
}

impl View for Resampler {
    type V = ResamplerState;

    closed spec fn view(&self) -> ResamplerState {
        ResamplerState {
            source_rate: self.source_rate,
            target_rate: self.target_rate,
            channels: self.channels,
            stride: self.stride as nat,
            held: self.held as nat,
        }
    }
}

impl Resampler {
    #[verifier::type_invariant]
    spec fn well_formed(self) -> bool {
        0 < self.stride && self.held < self.stride
    }

    /// The accounting for a converter from the rate of `spec` to
    /// `target_rate`, on blocks of `duration` frames. There is none for
    /// blocks of no frames.
    pub fn new(spec: SourceSpec, target_rate: u32, duration: u64) -> (r: Option<Resampler>)
        ensures
            r is Some <==> duration > 0,
            r matches Some(resampler) ==> resampler@ == (ResamplerState {
                source_rate: spec.rate,
                target_rate,
                channels: spec.channels,
                stride: duration as nat,
                held: 0,
            }) && resampler@.valid(),
    {
        if duration == 0 {
            return None;
        }
        Some(
            Resampler {
                source_rate: spec.rate,
                target_rate,
                channels: spec.channels,
                stride: duration,
                held: 0,
            },
        )
    }

    /// The number of frames per block.
    pub fn stride(&self) -> (r: u64)
        ensures
            r == self@.stride,
            self@.valid(),
    {
        proof {
            use_type_invariant(self);
        }
        self.stride
    }

    /// The number of frames held back.
    pub fn held(&self) -> (r: u64)
        ensures
            r == self@.held,
            self@.valid(),
    {
        proof {
            use_type_invariant(self);
        }
        self.held
    }

    /// Takes in a decoded block of `frames` frames. Returns the number of
    /// whole blocks to convert now, or `None` while the frames held do not
    /// make a block. What is left over stays held.
    pub fn resample(&mut self, frames: u64) -> (r: Option<u64>)
        ensures
            final(self)@ == old(self)@.fed(frames as nat),
            final(self)@.valid(),
            old(self)@.blocks_after(frames as nat) == 0 <==> r is None,
            r matches Some(blocks) ==> blocks == old(self)@.blocks_after(frames as nat),
            old(self)@.held + frames == old(self)@.blocks_after(frames as nat) * old(self)@.stride
                + final(self)@.held,
    {
        proof {
            use_type_invariant(&*self);
        }
        let ghost total = self.held as int + frames as int;
        let ghost stride = self.stride as int;
        proof {
            lemma_fundamental_div_mod(total, stride);
            assert(stride * (total / stride) == (total / stride) * stride) by (nonlinear_arith);
        }
        let room = self.stride - self.held;
        if frames < room {
            proof {
                lemma_basic_div(total, stride);
                lemma_small_mod(total as nat, stride as nat);
            }
            self.held = self.held + frames;
            None
        } else {
            let rest = frames - room;
            proof {
                assert(total == stride + rest);
                lemma_div_plus_one(rest as int, stride);
                lemma_mod_add_multiples_vanish(rest as int, stride);
                assert(rest as int / stride <= rest) by (nonlinear_arith)
                    requires
                        0 <= rest,
                        0 < stride,
                ;
                assert(0 <= rest as int % stride < stride) by (nonlinear_arith)
                    requires
                        0 < stride,
                ;
            }
            let blocks = 1 + rest / self.stride;
            self.held = rest % self.stride;
            Some(blocks)
        }
    }

    /// Ends the stream. Returns the number of silent frames that fill what
    /// is held up to one last block, or `None` if nothing is held. After it
    /// nothing is held.
    pub fn flush(&mut self) -> (r: Option<u64>)
        ensures
            final(self)@ == old(self)@.drained(),
            final(self)@.valid(),
            old(self)@.held == 0 <==> r is None,
            r matches Some(padding) ==> padding == old(self)@.padding() && old(self)@.held
                + padding == old(self)@.stride,
    {
        proof {
            use_type_invariant(&*self);
        }
        if self.held == 0 {
            return None;
        }
        let padding = self.stride - self.held;
        self.held = 0;
        Some(padding)
    }
}

} // verus!
