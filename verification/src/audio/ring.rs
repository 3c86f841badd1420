//! The sample ring: the bounded queue between the playback thread, which
//! writes and may wait, and the render callback, which reads and never
//! waits.
//!
//! Samples travel as the bit patterns of single-precision numbers. The
//! queue itself is the ring buffer of the `rb` crate.

use rb::{RbConsumer, RbProducer, RB};
use vstd::prelude::*;
use vstd::slice::slice_subrange;

verus! {

/// The bit pattern of a silent sample.
pub const SILENT_SAMPLE: u32 = 0;

/// Makes `rb::SpscRb`, the ring itself, known as a type of which nothing
/// is seen.
#[verifier::external_type_specification]
#[verifier::external_body]
#[verifier::reject_recursive_types(T)]
pub struct ExSpscRb<T>(rb::SpscRb<T>);

/// Makes `rb::Producer`, the writing end of a ring, known as a type of
/// which nothing is seen.
#[verifier::external_type_specification]
#[verifier::external_body]
#[verifier::reject_recursive_types(T)]
pub struct ExProducer<T>(rb::Producer<T>);

/// Makes `rb::Consumer`, the reading end of a ring, known as a type of
/// which nothing is seen.
#[verifier::external_type_specification]
#[verifier::external_body]
#[verifier::reject_recursive_types(T)]
pub struct ExConsumer<T>(rb::Consumer<T>);

/// The number of samples that a ring was made to hold.
pub uninterp spec fn ring_limit(ring: rb::SpscRb<u32>) -> nat;

/// The number of samples that the ring behind a producer was made to hold.
pub uninterp spec fn producer_limit(producer: rb::Producer<u32>) -> nat;

/// The samples that have gone into the ring through a producer, in the
/// order in which they went in.
pub uninterp spec fn producer_pushed(producer: rb::Producer<u32>) -> Seq<u32>;

/// Whether a ring for `len` samples can be made: it holds something, and
/// its samples and one more, of four bytes each, are not more bytes than
/// one allocation may have.
pub open spec fn ring_fits(len: nat) -> bool {
    0 < len && (len + 1) * 4 <= isize::MAX
}

/// Makes a ring.
///
/// Trusted: stands for `rb::SpscRb::new`, which allocates a vector of `len`
/// samples and one more, so that many must be allowed in one allocation.
#[verifier::external_body]
fn ring_new(len: usize) -> (ring: rb::SpscRb<u32>)
    requires
        (len + 1) * 4 <= isize::MAX,
    ensures
        ring_limit(ring) == len,
{
    rb::SpscRb::new(len)
}

/// The writing end of a ring.
///
/// Trusted: stands for `rb::RB::producer`, which hands out a new view of
/// the same ring, through which nothing has gone in yet.
#[verifier::external_body]
fn ring_producer(ring: &rb::SpscRb<u32>) -> (producer: rb::Producer<u32>)
    ensures
        producer_limit(producer) == ring_limit(*ring),
        producer_pushed(producer) == Seq::<u32>::empty(),
{
    ring.producer()
}

/// The reading end of a ring.
///
/// Trusted: stands for `rb::RB::consumer`, of whose result nothing is
/// claimed.
#[verifier::external_body]
fn ring_consumer(ring: &rb::SpscRb<u32>) -> rb::Consumer<u32> {
    ring.consumer()
}

/// The number of samples that a write took, given what it reported.
pub open spec fn taken_by(written: Option<usize>) -> int {
    match written {
        Some(n) => n as int,
        None => 0,
    }
}

/// Reads from the ring without waiting.
///
/// Trusted: stands for `rb::RbConsumer::read`. It copies the samples that
/// are waiting, as many as fit, to the front of `out` and returns their
/// number; behind them `out` stays as it was. From an empty ring it takes
/// nothing and reports an error, which becomes `None` here.
#[verifier::external_body]
fn ring_read(consumer: &rb::Consumer<u32>, out: &mut [u32]) -> (read: Option<usize>)
    ensures
        final(out)@.len() == old(out)@.len(),
        read is None ==> final(out)@ == old(out)@,
        read matches Some(n) ==> n <= old(out)@.len() && forall|i: int|
            n <= i < old(out)@.len() ==> final(out)@[i] == old(out)@[i],
{
    consumer.read(out).ok()
}

/// Where the writer may stand in a block after a push from `from`: at
/// `from` where no sample was left to write, and otherwise between `from`
/// and the end of the block.
pub open spec fn advanced(len: nat, from: nat, position: nat) -> bool {
    if from >= len {
        position == from
    } else {
        from <= position <= len
    }
}

/// Where a push goes on after a write that began at `position` in a block
/// of `len` samples: behind the samples that the write took, if it took
/// any and no more than were left; nowhere, if it took none.
pub open spec fn next_position(len: nat, position: nat, written: Option<usize>) -> Option<nat> {
    match written {
        Some(n) => if 0 < n && position + n <= len {
            Some(position + n as nat)
        } else {
            None
        },
        None => None,
    }
}

/// The samples of `block` that a push from `from` has written when it
/// stands at `position`: those from `from` up to `position`, and none
/// where `from` lies behind the block.
pub open spec fn pushed_part(block: Seq<u32>, from: int, position: int) -> Seq<u32> {
    if 0 <= from <= position <= block.len() {
        block.subrange(from, position)
    } else {
        Seq::empty()
    }
}

/// Whether every sample of `out` from `from` on is silent.
pub open spec fn silent_from(out: Seq<u32>, from: int) -> bool {
    forall|i: int| from <= i < out.len() ==> out[i] == SILENT_SAMPLE
}

/// The writing end of the sample ring, held by the playback thread, with
/// the number of samples that the ring was made to hold.
pub struct RingWriter {
    producer: rb::Producer<u32>,
    size: usize,
}

/// The reading end of the sample ring, held by the render callback.
pub struct RingReader {
    consumer: rb::Consumer<u32>,
}

/// Writes into the ring, waiting while it is full.
///
/// Trusted: stands for `rb::RbProducer::write_blocking`. It returns `None`
/// for no samples at all. Otherwise it waits until the reader has made
/// room, copies as many of the first samples as fit into the ring behind
/// what is there, in their order, and returns their number, which may be
/// any from zero to all: a wait can end with the ring still full. The
/// ring stays the size it was made, and the number kept beside it is not
/// touched. On a ring made to hold nothing the wait would never end.
#[verifier::external_body]
fn ring_write_blocking(writer: &mut RingWriter, samples: &[u32]) -> (written: Option<usize>)
    requires
        samples@.len() > 0 ==> producer_limit(old(writer).producer) > 0,
    ensures
        written is None <==> samples@.len() == 0,
        written matches Some(n) ==> n <= samples@.len(),
        producer_limit(final(writer).producer) == producer_limit(old(writer).producer),
        final(writer).size == old(writer).size,
        producer_pushed(final(writer).producer) == producer_pushed(old(writer).producer)
            + samples@.take(taken_by(written)),
{
    writer.producer.write_blocking(samples)
}

/// Makes a sample ring for `len` samples and hands out its two ends. A ring
/// for no samples, or for more than the machine can allocate at once, is
/// not made.
pub fn sample_ring(len: u64) -> (r: Option<(RingWriter, RingReader)>)
    ensures
        r is Some <==> ring_fits(len as nat),
        r matches Some(ends) ==> ends.0.capacity() == len && ends.0.pushed() == Seq::<
            u32,
        >::empty(),
{
    if len == 0 || len >= (isize::MAX as u64) / 4 {
        return None;
    }
    let size = len as usize;
    let ring = ring_new(size);
    let producer = ring_producer(&ring);
    let consumer = ring_consumer(&ring);
    Some((RingWriter { producer, size }, RingReader { consumer }))
}

/// Says where a push goes on after a write that began at `position` in a
/// block of `len` samples and reported `written`: behind the samples
/// taken, or `None` where the push ends because the write took nothing.
pub fn advance(len: usize, position: usize, written: Option<usize>) -> (next: Option<usize>)
    ensures
        next is Some <==> next_position(len as nat, position as nat, written) is Some,
        next matches Some(place) ==> next_position(len as nat, position as nat, written) == Some(
            place as nat,
        ),
{
    match written {
        Some(n) => {
            if 0 < n && position <= len && n <= len - position {
                Some(position + n)
            } else {
                None
            }
        },
        None => None,
    }
}

impl RingWriter {
    #[verifier::type_invariant]
    spec fn holds_something(self) -> bool {
        producer_limit(self.producer) > 0 && self.size == producer_limit(self.producer)
    }

    /// The number of samples that the ring was made to hold.
    pub closed spec fn capacity(&self) -> nat {
        producer_limit(self.producer)
    }

    /// The number of samples that the ring was made to hold, which is not
    /// zero.
    pub fn size(&self) -> (r: usize)
        ensures
            r == self.capacity(),
            r > 0,
    {
        proof {
            use_type_invariant(self);
        }
        self.size
    }

    /// The samples that have gone into the ring through this end, in the
    /// order in which they went in.
    pub closed spec fn pushed(&self) -> Seq<u32> {
        producer_pushed(self.producer)
    }

    /// Writes the samples of `block` from place `from` on into the ring,
    /// in order, waiting while the ring is full, for as long as each write
    /// takes at least one sample. Returns the place of the first sample not
    /// written, which is the end of the block unless a write took nothing;
    /// the caller then goes on from that place. The samples from `from` up
    /// to that place, and no others, have gone into the ring behind those
    /// that went in before.
    pub fn push(&mut self, block: &[u32], from: usize) -> (position: usize)
        ensures
            advanced(block@.len(), from as nat, position as nat),
            final(self).pushed() == old(self).pushed() + pushed_part(
                block@,
                from as int,
                position as int,
            ),
            final(self).capacity() == old(self).capacity(),
    {
        proof {
            use_type_invariant(&*self);
        }
        if from >= block.len() {
            proof {
                assert(pushed_part(block@, from as int, from as int) =~= Seq::<u32>::empty());
                assert(old(self).pushed() + Seq::<u32>::empty() =~= old(self).pushed());
            }
            return from;
        }
        proof {
            assert(block@.subrange(from as int, from as int) =~= Seq::<u32>::empty());
            assert(old(self).pushed() + Seq::<u32>::empty() =~= old(self).pushed());
        }
        let mut position = from;
        while position < block.len()
            invariant
                from <= position <= block@.len(),
                producer_limit(self.producer) > 0,
                producer_limit(self.producer) == producer_limit(old(self).producer),
                self.size == old(self).size,
                producer_pushed(self.producer) == producer_pushed(old(self).producer)
                    + block@.subrange(from as int, position as int),
            decreases block@.len() - position,
        {
            let rest = slice_subrange(block, position, block.len());
            let ghost before = producer_pushed(self.producer);
            let written = ring_write_blocking(self, rest);
            match advance(block.len(), position, written) {
                Some(next) => {
                    proof {
                        assert(rest@.take(taken_by(written)) =~= block@.subrange(
                            position as int,
                            next as int,
                        ));
                        assert(block@.subrange(from as int, position as int) + block@.subrange(
                            position as int,
                            next as int,
                        ) =~= block@.subrange(from as int, next as int));
                        assert(producer_pushed(self.producer) == before + block@.subrange(
                            position as int,
                            next as int,
                        ));
                        assert(before + block@.subrange(position as int, next as int)
                            =~= producer_pushed(old(self).producer) + block@.subrange(
                            from as int,
                            next as int,
                        ));
                    }
                    position = next;
                },
                None => {
                    proof {
                        assert(taken_by(written) == 0);
                        assert(rest@.take(0) =~= Seq::<u32>::empty());
                        assert(before + Seq::<u32>::empty() =~= before);
                    }
                    return position;
                },
            }
        }
        position
    }
}

/// Makes every sample of `out` from place `from` on silent and leaves the
/// samples before it.
pub fn fill_silence(out: &mut [u32], from: usize)
    ensures
        final(out)@.len() == old(out)@.len(),
        forall|i: int| 0 <= i < from && i < old(out)@.len() ==> final(out)@[i] == old(out)@[i],
        silent_from(final(out)@, from as int),
{
    let mut i: usize = from;
    let n = out.len();
    while i < n
        invariant
            from <= i,
            n == out@.len(),
            out@.len() == old(out)@.len(),
            forall|k: int| 0 <= k < from && k < out@.len() ==> out@[k] == old(out)@[k],
            forall|k: int| from <= k < i && k < out@.len() ==> out@[k] == SILENT_SAMPLE,
        decreases n - i,
    {
        out[i] = SILENT_SAMPLE;
        i += 1;
    }
}

impl RingReader {
    /// Fills `out` for the sound device: with the samples that wait in the
    /// ring, as many as fit, and with silence behind them. Returns the
    /// number of samples that came from the ring. It never waits.
    pub fn render(&self, out: &mut [u32]) -> (taken: usize)
        ensures
            final(out)@.len() == old(out)@.len(),
            taken <= old(out)@.len(),
            silent_from(final(out)@, taken as int),
    {
        let taken = match ring_read(&self.consumer, out) {
            Some(n) => n,
            None => 0,
        };
        fill_silence(out, taken);
        taken
    }
}

} // verus!
