use vstd::prelude::*;

use crate::avif::codec::Codec;

verus! {

/// The AVIF encoder's settings, as plain values: what it is set up with
/// before it encodes.
#[derive(Debug, Clone, Copy, PartialEq, Eq, Structural)]
pub struct Encoder {
    pub max_threads: i32,
    pub min_quantizer: i32,
    pub max_quantizer: i32,
    pub min_quantizer_alpha: i32,
    pub max_quantizer_alpha: i32,
    pub speed: i32,
    pub timescale: u64,
    pub codec: Codec,
}

/// The largest quantizer: the lowest quality.
pub const MAX_QUANTIZER: u8 = 63;

/// The largest speed: the fastest encoding.
pub const MAX_SPEED: u8 = 10;

/// A quantizer, limited to `0..=63`.
pub open spec fn spec_quantizer(q: u8) -> i32 {
    if q > MAX_QUANTIZER {
        MAX_QUANTIZER as i32
    } else {
        q as i32
    }
}

/// A speed, limited to `0..=10`.
pub open spec fn spec_speed(s: u8) -> i32 {
    if s > MAX_SPEED {
        MAX_SPEED as i32
    } else {
        s as i32
    }
}

/// A thread limit of at least one, as the encoder's 32-bit field holds it.
pub open spec fn spec_thread_limit(n: usize) -> i32 {
    (if n < 1 {
        1usize
    } else {
        n
    }) as i32
}

pub fn quantizer_value(q: u8) -> (r: i32)
    ensures
        r == spec_quantizer(q),
{
    if q > MAX_QUANTIZER {
        MAX_QUANTIZER as i32
    } else {
        q as i32
    }
}

pub fn speed_value(s: u8) -> (r: i32)
    ensures
        r == spec_speed(s),
{
    if s > MAX_SPEED {
        MAX_SPEED as i32
    } else {
        s as i32
    }
}

pub fn thread_limit(n: usize) -> (r: i32)
    ensures
        r == spec_thread_limit(n),
{
    let at_least_one: usize = if n < 1 {
        1
    } else {
        n
    };
    at_least_one as i32
}

impl Encoder {
    /// Sets the thread limit; zero counts as one.
    pub fn set_max_threads(&mut self, max_threads: usize)
        ensures
            *final(self) == (Encoder { max_threads: spec_thread_limit(max_threads), ..*old(self) }),
    {
        self.max_threads = thread_limit(max_threads);
    }

    /// Sets the quantizer of the color channels, at most 63 (0 is lossless).
    pub fn set_quantizer(&mut self, quantizer: u8)
        ensures
            *final(self) == (Encoder {
                min_quantizer: spec_quantizer(quantizer),
                max_quantizer: spec_quantizer(quantizer),
                ..*old(self)
            }),
    {
        let q = quantizer_value(quantizer);
        self.min_quantizer = q;
        self.max_quantizer = q;
    }

    /// Sets the quantizer of the alpha channel, at most 63 (0 is lossless).
    pub fn set_quantizer_alpha(&mut self, quantizer_alpha: u8)
        ensures
            *final(self) == (Encoder {
                min_quantizer_alpha: spec_quantizer(quantizer_alpha),
                max_quantizer_alpha: spec_quantizer(quantizer_alpha),
                ..*old(self)
            }),
    {
        let q = quantizer_value(quantizer_alpha);
        self.min_quantizer_alpha = q;
        self.max_quantizer_alpha = q;
    }

    /// Sets the speed, at most 10 (10 is the fastest).
    pub fn set_speed(&mut self, speed: u8)
        ensures
            *final(self) == (Encoder { speed: spec_speed(speed), ..*old(self) }),
    {
        self.speed = speed_value(speed);
    }

    pub fn set_timescale(&mut self, timescale: u64)
        ensures
            *final(self) == (Encoder { timescale, ..*old(self) }),
    {
        self.timescale = timescale;
    }

    pub fn set_codec(&mut self, codec: Codec)
        ensures
            *final(self) == (Encoder { codec, ..*old(self) }),
    {
        self.codec = codec;
    }

    /// The thread limit.
    pub fn max_threads(&self) -> (r: usize)
        ensures
            r == self.max_threads as usize,
    {
        self.max_threads as usize
    }

    pub fn speed(&self) -> (r: u8)
        ensures
            r == self.speed as u8,
    {
        self.speed as u8
    }

    pub fn timescale(&self) -> (r: u64)
        ensures
            r == self.timescale,
    {
        self.timescale
    }

    pub fn codec(&self) -> (r: Codec)
        ensures
            r == self.codec,
    {
        self.codec
    }

    /// The quantizer of the color channels.
    pub fn quantizer(&self) -> (r: u8)
        ensures
            r == self.min_quantizer as u8,
    {
        self.min_quantizer as u8
    }

    /// The quantizer of the alpha channel.
    pub fn quantizer_alpha(&self) -> (r: u8)
        ensures
            r == self.min_quantizer_alpha as u8,
    {
        self.min_quantizer_alpha as u8
    }
}

} // verus!
