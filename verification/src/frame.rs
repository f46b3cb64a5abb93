//! The mixed frame: one fixed-size buffer of interleaved signed 16-bit samples.

use vstd::prelude::*;

verus! {

/// Interleaved channels in a frame.
pub const CHANNELS: usize = 2;

/// Samples that each channel holds in one frame.
pub const SAMPLES_PER_CHANNEL: usize = 1920;

/// Interleaved samples in one frame, all channels together.
pub const FRAME_SAMPLES: usize = 3840;

/// Bytes that one frame takes on the wire, two per sample.
pub const FRAME_BYTES: usize = 7680;

/// The nearest 16-bit sample to `x`: values past either bound stick to it.
pub open spec fn saturate(x: int) -> i16 {
    if x > i16::MAX {
        i16::MAX
    } else if x < i16::MIN {
        i16::MIN
    } else {
        x as i16
    }
}

/// The sample as an unsigned 16-bit number, in two's complement.
pub open spec fn twos_complement(s: i16) -> int {
    if s >= 0 {
        s as int
    } else {
        s + 65536
    }
}

/// The byte that a sample puts first on the wire.
pub open spec fn low_byte(s: i16) -> u8 {
    (twos_complement(s) % 256) as u8
}

/// The byte that a sample puts second on the wire.
pub open spec fn high_byte(s: i16) -> u8 {
    (twos_complement(s) / 256) as u8
}

/// Samples laid out as little-endian bytes, two per sample, in order.
pub open spec fn le_bytes(samples: Seq<i16>) -> Seq<u8> {
    Seq::new(
        2 * samples.len(),
        |j: int|
            if j % 2 == 0 {
                low_byte(samples[j / 2])
            } else {
                high_byte(samples[j / 2])
            },
    )
}

/// A sequence of `FRAME_SAMPLES` zero samples.
pub open spec fn silence() -> Seq<i16> {
    Seq::new(FRAME_SAMPLES as nat, |i: int| 0i16)
}

/// One tick's worth of mixed audio. It always holds exactly `FRAME_SAMPLES`
/// samples.
#[derive(Debug)]
pub struct MixedFrame {
    samples: Vec<i16>,
}

impl View for MixedFrame {
    type V = Seq<i16>;

    closed spec fn view(&self) -> Seq<i16> {
        self.samples@
    }
}

impl MixedFrame {
    #[verifier::type_invariant]
    spec fn well_formed(&self) -> bool {
        self.samples@.len() == FRAME_SAMPLES
    }

    /// Wraps a buffer of exactly `FRAME_SAMPLES` samples.
    pub(crate) fn from_samples(samples: Vec<i16>) -> (frame: MixedFrame)
        requires
            samples@.len() == FRAME_SAMPLES,
        ensures
            frame@ == samples@,
    {
        MixedFrame { samples }
    }

    /// A frame of electrical silence.
    pub fn silent() -> (frame: MixedFrame)
        ensures
            frame@ == silence(),
    {
        let mut samples: Vec<i16> = Vec::with_capacity(FRAME_SAMPLES);
        let mut i: usize = 0;
        while i < FRAME_SAMPLES
            invariant
                i <= FRAME_SAMPLES,
                samples@.len() == i,
                forall|k: int| 0 <= k < i ==> samples@[k] == 0i16,
            decreases FRAME_SAMPLES - i,
        {
            samples.push(0i16);
            i = i + 1;
        }
        assert(samples@ =~= silence());
        MixedFrame { samples }
    }

    /// The samples, interleaved by channel.
    pub fn samples(&self) -> (out: &Vec<i16>)
        ensures
            out@ == self@,
            out@.len() == FRAME_SAMPLES,
    {
        proof {
            use_type_invariant(self);
        }
        &self.samples
    }

    /// The sample at position `index`, or `None` past the end of the frame.
    pub fn sample(&self, index: usize) -> (out: Option<i16>)
        ensures
            self@.len() == FRAME_SAMPLES,
            out == if index < FRAME_SAMPLES {
                Some(self@[index as int])
            } else {
                None
            },
    {
        proof {
            use_type_invariant(self);
        }
        if index < FRAME_SAMPLES {
            Some(self.samples[index])
        } else {
            None
        }
    }

    /// The frame as it goes on the wire: signed 16-bit little-endian.
    pub fn to_le_bytes(&self) -> (bytes: Vec<u8>)
        ensures
            bytes@ == le_bytes(self@),
            bytes@.len() == FRAME_BYTES,
    {
        proof {
            use_type_invariant(self);
        }
        let mut bytes: Vec<u8> = Vec::with_capacity(FRAME_BYTES);
        let mut i: usize = 0;
        while i < FRAME_SAMPLES
            invariant
                i <= FRAME_SAMPLES,
                self.samples@.len() == FRAME_SAMPLES,
                bytes@.len() == 2 * i,
                forall|j: int| 0 <= j < 2 * i ==> bytes@[j] == le_bytes(self.samples@)[j],
            decreases FRAME_SAMPLES - i,
        {
            let s: i16 = self.samples[i];
            let unsigned: i32 = if s >= 0 {
                s as i32
            } else {
                s as i32 + 65536
            };
            let low: u8 = (unsigned % 256) as u8;
            let high: u8 = (unsigned / 256) as u8;
            assert(unsigned == twos_complement(s));
            assert(low == low_byte(s));
            assert(high == high_byte(s));
            bytes.push(low);
            bytes.push(high);
            i = i + 1;
        }
        assert(bytes@ =~= le_bytes(self.samples@));
        bytes
    }
}

} // verus!
