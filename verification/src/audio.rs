//! The sample history of the captured audio and the decoding of captured sample formats.
use std::collections::VecDeque;
use vstd::prelude::*;

verus! {

/// How many samples the capture history keeps.
pub const SAMPLE_BUFFER: usize = 8192;

/// How many points the drawn waveform has.
pub const WAVEFORM_POINTS: usize = 512;

/// The sample format of a capture device.
#[derive(Clone, Copy, Debug, PartialEq, Eq, Structural)]
pub enum SampleKind {
    Float32,
    Int16,
    Int24,
    Int32,
}

pub open spec fn spec_kind_from_bits(bits: u16) -> SampleKind {
    if bits == 16 {
        SampleKind::Int16
    } else if bits == 24 {
        SampleKind::Int24
    } else if bits == 32 {
        SampleKind::Int32
    } else {
        SampleKind::Float32
    }
}

/// The integer format of a given sample width; any other width is read as
/// 32-bit float.
pub fn sample_kind_from_bits(bits: u16) -> (kind: SampleKind)
    ensures
        kind == spec_kind_from_bits(bits),
{
    match bits {
        16 => SampleKind::Int16,
        24 => SampleKind::Int24,
        32 => SampleKind::Int32,
        _ => SampleKind::Float32,
    }
}

/// The wave format tag of IEEE floating-point samples.
pub const WAVE_FORMAT_IEEE_FLOAT: u16 = 3;

/// The wave format tag of integer PCM samples.
pub const WAVE_FORMAT_PCM: u16 = 1;

/// The wave format tag of the extensible format, whose sub-format names the sample type.
pub const WAVE_FORMAT_EXTENSIBLE: u16 = 0xFFFE;

/// The sample format of a device format: float for the float tag, by width
/// for PCM, by sub-format (float, else by width) for the extensible tag, and
/// float for any other tag. `sub_format_is_float` matters only for the
/// extensible tag.
pub fn sample_kind_from_format(tag: u16, bits: u16, sub_format_is_float: bool) -> (kind:
    SampleKind)
    ensures
        kind == (if tag == WAVE_FORMAT_IEEE_FLOAT {
            SampleKind::Float32
        } else if tag == WAVE_FORMAT_PCM {
            spec_kind_from_bits(bits)
        } else if tag == WAVE_FORMAT_EXTENSIBLE {
            if sub_format_is_float {
                SampleKind::Float32
            } else {
                spec_kind_from_bits(bits)
            }
        } else {
            SampleKind::Float32
        }),
{
    if tag == WAVE_FORMAT_IEEE_FLOAT {
        SampleKind::Float32
    } else if tag == WAVE_FORMAT_PCM {
        sample_kind_from_bits(bits)
    } else if tag == WAVE_FORMAT_EXTENSIBLE {
        if sub_format_is_float {
            SampleKind::Float32
        } else {
            sample_kind_from_bits(bits)
        }
    } else {
        SampleKind::Float32
    }
}

/// The value of a little-endian 24-bit two's-complement sample.
pub open spec fn int24_value(b0: u8, b1: u8, b2: u8) -> int {
    let unsigned = b0 + 256 * b1 + 65536 * b2;
    if b2 >= 128 {
        unsigned - 16777216
    } else {
        unsigned
    }
}

/// Decodes a little-endian 24-bit two's-complement sample.
pub fn decode_int24(b0: u8, b1: u8, b2: u8) -> (v: i32)
    ensures
        v as int == int24_value(b0, b1, b2),
{
    let x0 = b0 as i32;
    let x1 = b1 as i32;
    let x2 = b2 as i32;
    let mut value: i32 = x0 | (x1 << 8) | (x2 << 16);
    assert(value == x0 + 256 * x1 + 65536 * x2) by (bit_vector)
        requires
            0 <= x0 < 256,
            0 <= x1 < 256,
            0 <= x2 < 256,
            value == x0 | (x1 << 8) | (x2 << 16),
    ;
    if value & 0x800000 != 0 {
        assert(x2 >= 128) by (bit_vector)
            requires
                0 <= x0 < 256,
                0 <= x1 < 256,
                0 <= x2 < 256,
                value == x0 + 256 * x1 + 65536 * x2,
                value & 0x800000 != 0,
        ;
        let before = value;
        value = value | !0xFFFFFF;
        assert(value == before - 16777216) by (bit_vector)
            requires
                0 <= before < 16777216,
                before & 0x800000 != 0,
                value == before | !0xFFFFFF,
        ;
    } else {
        assert(x2 < 128) by (bit_vector)
            requires
                0 <= x0 < 256,
                0 <= x1 < 256,
                0 <= x2 < 256,
                value == x0 + 256 * x1 + 65536 * x2,
                value & 0x800000 == 0,
        ;
    }
    value
}

/// The last `cap` items of `s` (all of them where there are fewer).
pub open spec fn keep_last<T>(s: Seq<T>, cap: nat) -> Seq<T> {
    if s.len() <= cap {
        s
    } else {
        s.subrange(s.len() - cap, s.len() as int)
    }
}

proof fn lemma_keep_last_push<T>(s: Seq<T>, x: T, cap: nat)
    requires
        cap > 0,
    ensures
        keep_last(keep_last(s, cap).push(x), cap) == keep_last(s.push(x), cap),
{
    assert(keep_last(keep_last(s, cap).push(x), cap) =~= keep_last(s.push(x), cap));
}

/// The most recent samples, at most a fixed number of them.
pub struct SampleBuffer<T> {
    samples: VecDeque<T>,
    capacity: usize,
}

impl<T> View for SampleBuffer<T> {
    type V = Seq<T>;

    closed spec fn view(&self) -> Seq<T> {
        self.samples@
    }
}

impl<T> SampleBuffer<T> {
    /// How many samples the buffer keeps.
    pub closed spec fn spec_capacity(&self) -> nat {
        self.capacity as nat
    }

    /// The buffer keeps at least one sample and holds no more than it keeps.
    pub closed spec fn wf(&self) -> bool {
        &&& self.capacity > 0
        &&& self.samples@.len() <= self.capacity
    }
}

impl<T: Copy> SampleBuffer<T> {

    /// An empty buffer that keeps the last `capacity` samples.
    pub fn new(capacity: usize) -> (b: Self)
        requires
            capacity > 0,
        ensures
            b.wf(),
            b@ == Seq::<T>::empty(),
            b.spec_capacity() == capacity,
    {
        SampleBuffer { samples: VecDeque::new(), capacity }
    }

    /// The number of samples held.
    pub fn len(&self) -> (n: usize)
        requires
            self.wf(),
        ensures
            n == self@.len(),
            n <= self.spec_capacity(),
    {
        self.samples.len()
    }

    /// Appends `x`, dropping the oldest sample where the buffer is full.
    pub fn push(&mut self, x: T)
        requires
            old(self).wf(),
        ensures
            final(self).wf(),
            final(self)@ == keep_last(old(self)@.push(x), old(self).spec_capacity()),
            final(self).spec_capacity() == old(self).spec_capacity(),
            final(self)@.len() <= final(self).spec_capacity(),
    {
        if self.samples.len() >= self.capacity {
            let _ = self.samples.pop_front();
        }
        self.samples.push_back(x);
        proof {
            assert(self.samples@ =~= keep_last(old(self)@.push(x), old(self).spec_capacity()));
        }
    }

    /// Appends every sample of `xs` in order, keeping the most recent ones.
    pub fn extend_from_slice(&mut self, xs: &[T])
        requires
            old(self).wf(),
        ensures
            final(self).wf(),
            final(self)@ == keep_last(old(self)@ + xs@, old(self).spec_capacity()),
            final(self).spec_capacity() == old(self).spec_capacity(),
            final(self)@.len() <= final(self).spec_capacity(),
    {
        let ghost cap = old(self).spec_capacity();
        let ghost start = old(self)@;
        assert(keep_last(start, cap) == start);
        assert(start + xs@.subrange(0, 0) =~= start);
        let mut i: usize = 0;
        while i < xs.len()
            invariant
                i <= xs@.len(),
                cap > 0,
                self.spec_capacity() == cap,
                self.wf(),
                self@ == keep_last(start + xs@.subrange(0, i as int), cap),
                self@.len() <= cap,
            decreases xs.len() - i,
        {
            let x = xs[i];
            proof {
                lemma_keep_last_push(start + xs@.subrange(0, i as int), x, cap);
                assert((start + xs@.subrange(0, i as int)).push(x) =~= start + xs@.subrange(
                    0,
                    i + 1,
                ));
            }
            self.push(x);
            i += 1;
        }
        assert(xs@.subrange(0, xs@.len() as int) =~= xs@);
    }

    /// The most recent `limit` samples (all of them where there are fewer),
    /// oldest first.
    pub fn latest(&self, limit: usize) -> (v: Vec<T>)
        ensures
            v@ == keep_last(self@, limit as nat),
    {
        let n = self.samples.len();
        let start = if n > limit {
            n - limit
        } else {
            0
        };
        let mut v: Vec<T> = Vec::new();
        let mut i: usize = start;
        while i < n
            invariant
                n == self.samples@.len(),
                start <= i <= n,
                v@ == self.samples@.subrange(start as int, i as int),
            decreases n - i,
        {
            v.push(self.samples[i]);
            i += 1;
        }
        assert(self.samples@.subrange(0, n as int) =~= self.samples@);
        v
    }
}

/// The slice of `len` samples from which waveform point `i` of `points`
/// takes its peak: from `i * len / points` to `(i + 1) * len / points`, at
/// least one sample wide and within the samples.
pub fn waveform_window(i: usize, len: usize, points: usize) -> (r: (usize, usize))
    requires
        points > 0,
        len > 0,
        i < points,
        (i + 1) * len <= usize::MAX,
    ensures
        r.0 as int == (i as int * len as int) / (points as int),
        r.1 as int == (if (i as int + 1) * len as int / (points as int) > r.0 as int + 1 {
            (i as int + 1) * len as int / (points as int)
        } else {
            r.0 as int + 1
        }),
        r.0 < r.1 <= len,
{
    let ghost (ii, ll, pp) = (i as int, len as int, points as int);
    assert(ii * ll <= (ii + 1) * ll) by (nonlinear_arith)
        requires
            ll > 0,
    ;
    let start = i * len / points;
    let stop = (i + 1) * len / points;
    assert((ii * ll) / pp < ll) by (nonlinear_arith)
        requires
            0 <= ii < pp,
            ll > 0,
    ;
    assert(((ii + 1) * ll) / pp <= ll) by (nonlinear_arith)
        requires
            0 <= ii,
            ii + 1 <= pp,
            ll > 0,
    ;
    let end = if stop > start + 1 {
        stop
    } else {
        start + 1
    };
    (start, end)
}

} // verus!
