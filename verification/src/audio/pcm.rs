//! Integer PCM: byte parsing, exact normalisation and mono mixing.
//!
//! A normalised sample is held as an exact fraction; turning it into a
//! machine float is left to the caller.

use vstd::arithmetic::div_mod::lemma_fundamental_div_mod_converse;
use vstd::arithmetic::power2::{lemma2_to64, lemma_pow2_strictly_increases, pow2};
use vstd::prelude::*;

verus! {

/// Integer sample encodings that a decoder hands out.
#[derive(Clone, Copy, Debug, PartialEq, Eq, Structural)]
pub enum SampleFormat {
    /// Unsigned 8-bit, silence at 128.
    U8,
    /// Signed 16-bit.
    S16,
    /// Signed 24-bit.
    S24,
    /// Signed 32-bit.
    S32,
}

/// An exact fraction `num / den`, with `den > 0`.
#[derive(Clone, Copy, Debug, PartialEq, Eq, Structural)]
pub struct Ratio {
    pub num: i64,
    pub den: i64,
}

impl Ratio {
    /// The fraction lies in `[-1, 1]`.
    pub open spec fn in_unit_range(self) -> bool {
        self.den > 0 && -self.den <= self.num <= self.den
    }

    /// The fraction equals the integer `v`.
    pub open spec fn equals_int(self, v: int) -> bool {
        self.den > 0 && self.num == v * self.den
    }
}

impl SampleFormat {
    /// The code that stands for silence.
    pub open spec fn spec_offset(self) -> int {
        match self {
            SampleFormat::U8 => 128,
            _ => 0,
        }
    }

    /// What a centred code is divided by: the format's signed maximum.
    pub open spec fn spec_divisor(self) -> int {
        match self {
            SampleFormat::U8 => 128,
            SampleFormat::S16 => 32767,
            SampleFormat::S24 => 8388607,
            SampleFormat::S32 => 2147483647,
        }
    }

    /// The smallest code of the format.
    pub open spec fn spec_min_code(self) -> int {
        match self {
            SampleFormat::U8 => 0,
            SampleFormat::S16 => -32768,
            SampleFormat::S24 => -8388608,
            SampleFormat::S32 => -2147483648,
        }
    }

    /// The largest code of the format.
    pub open spec fn spec_max_code(self) -> int {
        match self {
            SampleFormat::U8 => 255,
            SampleFormat::S16 => 32767,
            SampleFormat::S24 => 8388607,
            SampleFormat::S32 => 2147483647,
        }
    }

    /// `code` is a code of the format.
    pub open spec fn holds(self, code: int) -> bool {
        self.spec_min_code() <= code <= self.spec_max_code()
    }

    /// The code that stands for silence.
    pub fn offset(self) -> (r: i64)
        ensures
            r == self.spec_offset(),
    {
        match self {
            SampleFormat::U8 => 128,
            _ => 0,
        }
    }

    /// What a centred code is divided by.
    pub fn divisor(self) -> (r: i64)
        ensures
            r == self.spec_divisor(),
    {
        match self {
            SampleFormat::U8 => 128,
            SampleFormat::S16 => 32767,
            SampleFormat::S24 => 8388607,
            SampleFormat::S32 => 2147483647,
        }
    }

    /// Whether `code` is a code of the format.
    pub fn contains(self, code: i64) -> (r: bool)
        ensures
            r == self.holds(code as int),
    {
        match self {
            SampleFormat::U8 => 0 <= code && code <= 255,
            SampleFormat::S16 => -32768 <= code && code <= 32767,
            SampleFormat::S24 => -8388608 <= code && code <= 8388607,
            SampleFormat::S32 => -2147483648 <= code && code <= 2147483647,
        }
    }

    /// The normalised value of `code`: centred, over the signed maximum, and
    /// not below -1. `None` where `code` is no code of the format.
    pub fn normalize(self, code: i64) -> (r: Option<Ratio>)
        ensures
            r == if self.holds(code as int) {
                Some(normalized_of(self, code as int))
            } else {
                None
            },
    {
        if self.contains(code) {
            let centred = code - self.offset();
            let divisor = self.divisor();
            let num = if centred < -divisor {
                -divisor
            } else {
                centred
            };
            Some(Ratio { num, den: divisor })
        } else {
            None
        }
    }
}

/// The normalised value of a code: the centred code over the format's
/// signed maximum. The one code that would come out below -1, the most
/// negative of a signed format, comes out as -1.
pub open spec fn normalized_of(format: SampleFormat, code: int) -> Ratio {
    let centred = code - format.spec_offset();
    Ratio {
        num: (if centred < -format.spec_divisor() {
            -format.spec_divisor()
        } else {
            centred
        }) as i64,
        den: format.spec_divisor() as i64,
    }
}

/// Every code of every format normalises into `[-1, 1]`, and every code
/// but the most negative one of a signed format to exactly the centred
/// code over the signed maximum.
pub proof fn law_normalized_within_unit_range(format: SampleFormat, code: int)
    requires
        format.holds(code),
    ensures
        normalized_of(format, code).in_unit_range(),
        normalized_of(format, code).den == format.spec_divisor(),
        format == SampleFormat::U8 || code != format.spec_min_code() ==> normalized_of(
            format,
            code,
        ).num == code - format.spec_offset(),
        format != SampleFormat::U8 && code == format.spec_min_code() ==> normalized_of(
            format,
            code,
        ).num == -format.spec_divisor(),
{
}

/// The signed 16-bit value whose little-endian bytes are `lo`, `hi`.
pub open spec fn le_i16(lo: u8, hi: u8) -> int {
    let u = lo as int + 256 * (hi as int);
    if u >= 32768 {
        u - 65536
    } else {
        u
    }
}

/// The samples of raw little-endian 16-bit PCM: one for each whole pair of
/// bytes; an odd byte at the end is left out.
pub open spec fn pcm_s16le_samples(bytes: Seq<u8>) -> Seq<i16> {
    Seq::new(bytes.len() / 2, |i: int| le_i16(bytes[2 * i], bytes[2 * i + 1]) as i16)
}

/// The normalised samples of raw little-endian 16-bit PCM.
pub open spec fn pcm_s16le_normalized(bytes: Seq<u8>) -> Seq<Ratio> {
    Seq::new(
        bytes.len() / 2,
        |i: int| normalized_of(SampleFormat::S16, le_i16(bytes[2 * i], bytes[2 * i + 1])),
    )
}

/// The channels of the audio that is kept on disk: mono.
pub const STORED_CHANNELS: u16 = 1;

/// The depth of the audio that is kept on disk: 16-bit integer PCM.
pub const STORED_BITS_PER_SAMPLE: u16 = 16;

/// Parses raw signed 16-bit little-endian PCM into sample codes.
pub fn pcm_s16le_to_samples(bytes: &Vec<u8>) -> (r: Vec<i16>)
    ensures
        r@ == pcm_s16le_samples(bytes@),
{
    let n: usize = bytes.len() / 2;
    let mut out: Vec<i16> = Vec::new();
    let mut i: usize = 0;
    while i < n
        invariant
            i <= n,
            n == bytes.len() / 2,
            out@.len() == i,
            forall|j: int| 0 <= j < i ==> out@[j] == pcm_s16le_samples(bytes@)[j],
        decreases n - i,
    {
        let lo: i32 = bytes[2 * i] as i32;
        let hi: i32 = bytes[2 * i + 1] as i32;
        let u: i32 = lo + 256 * hi;
        let v: i16 = if u >= 32768 {
            (u - 65536) as i16
        } else {
            u as i16
        };
        out.push(v);
        i += 1;
    }
    assert(out@ =~= pcm_s16le_samples(bytes@));
    out
}

/// Parses raw signed 16-bit little-endian PCM into normalised samples,
/// each within `[-1, 1]`.
pub fn pcm_s16le_to_normalized(bytes: &Vec<u8>) -> (r: Vec<Ratio>)
    ensures
        r@ == pcm_s16le_normalized(bytes@),
        forall|i: int| 0 <= i < r@.len() ==> (#[trigger] r@[i]).in_unit_range(),
{
    let codes = pcm_s16le_to_samples(bytes);
    let mut out: Vec<Ratio> = Vec::new();
    let mut i: usize = 0;
    while i < codes.len()
        invariant
            i <= codes.len(),
            codes@ == pcm_s16le_samples(bytes@),
            out@.len() == i,
            forall|j: int| 0 <= j < i ==> out@[j] == pcm_s16le_normalized(bytes@)[j],
            forall|j: int| 0 <= j < i ==> (#[trigger] out@[j]).in_unit_range(),
        decreases codes.len() - i,
    {
        let code = codes[i] as i64;
        let num: i64 = if code < -32767 {
            -32767
        } else {
            code
        };
        out.push(Ratio { num, den: 32767 });
        i += 1;
    }
    assert(out@ =~= pcm_s16le_normalized(bytes@));
    out
}

/// What the integer samples of a WAV file of the given depth are divided by:
/// two to the power of the depth less one. `None` for a depth outside 1..=32.
pub fn wav_int_divisor(bits_per_sample: u16) -> (r: Option<i64>)
    ensures
        r == if 1 <= bits_per_sample <= 32 {
            Some(pow2((bits_per_sample - 1) as nat) as i64)
        } else {
            None
        },
        r matches Some(d) ==> 1 <= d <= 0x8000_0000,
{
    if bits_per_sample < 1 || bits_per_sample > 32 {
        return None;
    }
    let mut d: i64 = 1;
    let mut k: u16 = 1;
    proof {
        lemma2_to64();
    }
    while k < bits_per_sample
        invariant
            1 <= k <= bits_per_sample <= 32,
            d == pow2((k - 1) as nat),
            1 <= d <= 0x8000_0000,
        decreases bits_per_sample - k,
    {
        proof {
            lemma2_to64();
            if k < 32 {
                lemma_pow2_strictly_increases((k - 1) as nat, 31);
            }
            vstd::arithmetic::power2::lemma_pow2_unfold(k as nat);
        }
        d = d * 2;
        k += 1;
    }
    Some(d)
}

/// A WAV sample of depth `bits` lies in `[-2^(bits-1), 2^(bits-1) - 1]`, so
/// over `2^(bits-1)` it lies in `[-1, 1]`.
pub proof fn law_wav_sample_within_unit_range(bits: nat, code: int)
    requires
        1 <= bits,
        -pow2((bits - 1) as nat) <= code < pow2((bits - 1) as nat),
    ensures
        pow2((bits - 1) as nat) > 0,
        -pow2((bits - 1) as nat) <= code <= pow2((bits - 1) as nat),
{
    vstd::arithmetic::power2::lemma_pow2_pos((bits - 1) as nat);
}

/// The number of mono frames in `len` interleaved samples: one for each
/// started group of `channels` samples.
pub open spec fn frame_count(len: nat, channels: nat) -> nat {
    if channels == 0 {
        0
    } else {
        ((len + channels - 1) / channels as int) as nat
    }
}

/// Where frame `index` starts among the interleaved samples.
pub open spec fn frame_start(channels: nat, index: nat) -> nat {
    index * channels
}

/// Where frame `index` ends: the last frame may be short.
pub open spec fn frame_end(len: nat, channels: nat, index: nat) -> nat {
    if (index + 1) * channels <= len {
        (index + 1) * channels
    } else {
        len
    }
}

/// The sum of `s[from..to]`.
pub open spec fn sum_range(s: Seq<i32>, from: int, to: int) -> int
    decreases to - from,
{
    if from >= to {
        0
    } else {
        sum_range(s, from, to - 1) + s[to - 1]
    }
}

/// One mixed frame: the sum of its samples and how many they are. The mono
/// sample is the arithmetic mean `sum / count`.
#[derive(Clone, Copy, Debug, PartialEq, Eq, Structural)]
pub struct MixedFrame {
    pub sum: i128,
    pub count: usize,
}

/// The mixed frames of `samples` taken `channels` at a time.
pub open spec fn mixed_frames(samples: Seq<i32>, channels: nat) -> Seq<MixedFrame> {
    Seq::new(
        frame_count(samples.len(), channels),
        |k: int|
            MixedFrame {
                sum: sum_range(
                    samples,
                    frame_start(channels, k as nat) as int,
                    frame_end(samples.len(), channels, k as nat) as int,
                ) as i128,
                count: (frame_end(samples.len(), channels, k as nat) - frame_start(
                    channels,
                    k as nat,
                )) as usize,
            },
    )
}

/// The sum of a range is bounded by its length times the sample bounds.
pub proof fn lemma_sum_range_bounds(s: Seq<i32>, from: int, to: int)
    requires
        0 <= from <= to <= s.len(),
    ensures
        -(to - from) * 0x8000_0000 <= sum_range(s, from, to) <= (to - from) * 0x8000_0000,
    decreases to - from,
{
    if from < to {
        lemma_sum_range_bounds(s, from, to - 1);
        assert((to - from) * 0x8000_0000 == (to - 1 - from) * 0x8000_0000 + 0x8000_0000)
            by (nonlinear_arith);
    }
}

/// Mixes interleaved samples down to mono, frame by frame, by arithmetic
/// mean: each frame is handed out as its exact sum and count.
pub fn stereo_to_mono(samples: &Vec<i32>, channels: usize) -> (r: Vec<MixedFrame>)
    requires
        channels >= 1,
    ensures
        r@ == mixed_frames(samples@, channels as nat),
        forall|k: int| 0 <= k < r@.len() ==> 1 <= (#[trigger] r@[k]).count <= channels,
{
    let n = samples.len();
    let whole: usize = n / channels;
    assert(n % channels != 0 ==> whole < n) by (nonlinear_arith)
        requires
            channels >= 1,
            whole == n / channels,
    ;
    let frames: usize = if n % channels == 0 {
        whole
    } else {
        whole + 1
    };
    proof {
        lemma_frame_count(n as nat, channels as nat);
    }
    let mut out: Vec<MixedFrame> = Vec::new();
    let mut k: usize = 0;
    while k < frames
        invariant
            channels >= 1,
            n == samples.len(),
            k <= frames,
            frames == frame_count(n as nat, channels as nat),
            out@.len() == k,
            forall|j: int|
                0 <= j < k ==> out@[j] == mixed_frames(samples@, channels as nat)[j],
            forall|j: int| 0 <= j < k ==> 1 <= (#[trigger] out@[j]).count <= channels,
        decreases frames - k,
    {
        proof {
            lemma_frame_bounds(n as nat, channels as nat, k as nat);
        }
        let start: usize = k * channels;
        let end: usize = if channels <= n - start {
            start + channels
        } else {
            n
        };
        assert(frame_start(channels as nat, k as nat) == start);
        assert(frame_end(n as nat, channels as nat, k as nat) == end) by (nonlinear_arith)
            requires
                start == k * channels,
                end == if channels <= n - start {
                    start + channels
                } else {
                    n as int
                },
                frame_end(n as nat, channels as nat, k as nat) == if (k + 1) * channels <= n {
                    (k + 1) * channels
                } else {
                    n as int
                },
        ;
        let mut sum: i128 = 0;
        let mut i: usize = start;
        while i < end
            invariant
                start <= i <= end <= n,
                n == samples.len(),
                sum == sum_range(samples@, start as int, i as int),
            decreases end - i,
        {
            proof {
                lemma_sum_range_bounds(samples@, start as int, i as int);
                assert((i - start) * 0x8000_0000 <= 0x1_0000_0000_0000_0000 * 0x8000_0000)
                    by (nonlinear_arith)
                    requires
                        0 <= i - start <= 0x1_0000_0000_0000_0000,
                ;
            }
            sum = sum + samples[i] as i128;
            i += 1;
        }
        out.push(MixedFrame { sum, count: end - start });
        k += 1;
    }
    assert(out@ =~= mixed_frames(samples@, channels as nat));
    out
}

/// The number of mono frames in `len` interleaved samples.
pub fn mono_frame_count(len: usize, channels: usize) -> (r: usize)
    requires
        channels >= 1,
    ensures
        r == frame_count(len as nat, channels as nat),
{
    proof {
        lemma_frame_count(len as nat, channels as nat);
    }
    let whole: usize = len / channels;
    assert(len % channels != 0 ==> whole < len) by (nonlinear_arith)
        requires
            channels >= 1,
            whole == len / channels,
    ;
    if len % channels == 0 {
        whole
    } else {
        whole + 1
    }
}

/// Where frame `index` of `len` interleaved samples starts and ends.
pub fn frame_bounds(len: usize, channels: usize, index: usize) -> (r: (usize, usize))
    requires
        channels >= 1,
        index < frame_count(len as nat, channels as nat),
    ensures
        r.0 == frame_start(channels as nat, index as nat),
        r.1 == frame_end(len as nat, channels as nat, index as nat),
        r.0 < r.1 <= len,
        r.1 - r.0 <= channels,
{
    proof {
        lemma_frame_bounds(len as nat, channels as nat, index as nat);
    }
    let start: usize = index * channels;
    let end: usize = if channels <= len - start {
        start + channels
    } else {
        len
    };
    assert(frame_end(len as nat, channels as nat, index as nat) == end) by (nonlinear_arith)
        requires
            start == index * channels,
            end == if channels <= len - start {
                start + channels
            } else {
                len as int
            },
            frame_end(len as nat, channels as nat, index as nat) == if (index + 1) * channels
                <= len {
                (index + 1) * channels
            } else {
                len as int
            },
    ;
    (start, end)
}

/// The number of frames is the number of whole groups, and one more where
/// samples are left over.
pub proof fn lemma_frame_count(len: nat, channels: nat)
    requires
        channels >= 1,
    ensures
        frame_count(len, channels) == len / channels + if len % channels == 0 {
            0nat
        } else {
            1nat
        },
{
    let q = len / channels;
    let r = len % channels;
    assert(len == q * channels + r && 0 <= r < channels) by (nonlinear_arith)
        requires
            channels >= 1,
            q == len / channels,
            r == len % channels,
    ;
    if r == 0 {
        assert((len + channels - 1) / channels as int == q) by (nonlinear_arith)
            requires
                channels >= 1,
                len == q * channels,
        ;
    } else {
        assert((len + channels - 1) / channels as int == q + 1) by (nonlinear_arith)
            requires
                channels >= 1,
                len == q * channels + r,
                0 < r < channels,
        ;
    }
}

/// Each frame starts before the end of the samples, is not empty and holds
/// at most `channels` samples.
pub proof fn lemma_frame_bounds(len: nat, channels: nat, k: nat)
    requires
        channels >= 1,
        k < frame_count(len, channels),
    ensures
        k * channels < len,
        frame_start(channels, k) < frame_end(len, channels, k) <= len,
        frame_end(len, channels, k) - frame_start(channels, k) <= channels,
{
    assert(k * channels < len) by (nonlinear_arith)
        requires
            channels >= 1,
            k < (len + channels - 1) / channels as int,
    ;
    assert((k + 1) * channels == k * channels + channels) by (nonlinear_arith);
}

/// Where every sample of a range holds the same value `v`, the range sums to
/// `v` times its length.
pub proof fn lemma_sum_of_equal(s: Seq<i32>, from: int, to: int, v: int)
    requires
        0 <= from <= to <= s.len(),
        forall|i: int| from <= i < to ==> s[i] == v,
    ensures
        sum_range(s, from, to) == v * (to - from),
    decreases to - from,
{
    if from < to {
        lemma_sum_of_equal(s, from, to - 1, v);
        assert(s[to - 1] == v);
        assert(v * (to - from) == v * (to - 1 - from) + v) by (nonlinear_arith);
    } else {
        assert(v * (to - from) == 0) by (nonlinear_arith)
            requires
                to - from == 0,
        ;
    }
}

/// Mixing a buffer whose channels all hold the same value gives that value:
/// where every sample of frame `k` is `v`, the frame's mean `sum / count` is
/// exactly `v`.
pub proof fn law_identical_channels_mix_to_same(samples: Seq<i32>, channels: nat, k: int, v: int)
    requires
        channels >= 1,
        samples.len() <= usize::MAX,
        0 <= k < frame_count(samples.len(), channels),
        forall|i: int|
            frame_start(channels, k as nat) <= i < frame_end(samples.len(), channels, k as nat)
                ==> samples[i] == v,
    ensures
        mixed_frames(samples, channels)[k].count >= 1,
        mixed_frames(samples, channels)[k].sum == v * mixed_frames(samples, channels)[k].count,
{
    let len = samples.len();
    let start = frame_start(channels, k as nat) as int;
    let end = frame_end(len, channels, k as nat) as int;
    lemma_frame_bounds(len, channels, k as nat);
    lemma_sum_of_equal(samples, start, end, v);
    lemma_sum_range_bounds(samples, start, end);
    assert((end - start) * 0x8000_0000 <= 0x1_0000_0000_0000_0000 * 0x8000_0000)
        by (nonlinear_arith)
        requires
            0 <= end - start <= 0x1_0000_0000_0000_0000,
    ;
}

/// The length of the shortest of the planes; zero where there is none.
pub open spec fn shortest_plane<T>(planes: Seq<Vec<T>>) -> nat
    decreases planes.len(),
{
    if planes.len() == 0 {
        0
    } else if planes.len() == 1 {
        planes[0]@.len()
    } else {
        let rest = shortest_plane(planes.drop_last());
        if planes.last()@.len() < rest {
            planes.last()@.len()
        } else {
            rest
        }
    }
}

/// The planes of a decoded buffer, one per channel, woven into frames:
/// the first sample of every channel, then the second of every channel,
/// and so on, for as many frames as every plane holds.
pub open spec fn interleaved<T>(planes: Seq<Vec<T>>) -> Seq<T> {
    Seq::new(
        shortest_plane(planes) * planes.len(),
        |i: int| planes[i % planes.len() as int]@[i / planes.len() as int],
    )
}

/// No plane is shorter than the shortest.
pub proof fn lemma_shortest_plane<T>(planes: Seq<Vec<T>>, ch: int)
    requires
        0 <= ch < planes.len(),
    ensures
        shortest_plane(planes) <= planes[ch]@.len(),
    decreases planes.len(),
{
    if planes.len() > 1 {
        if ch < planes.len() - 1 {
            lemma_shortest_plane(planes.drop_last(), ch);
        }
    }
}

/// In the woven samples, the sample of channel `ch` in frame `frame` stands
/// at `frame * channels + ch`.
pub proof fn law_interleaved_places<T>(planes: Seq<Vec<T>>, frame: int, ch: int)
    requires
        0 <= ch < planes.len(),
        0 <= frame < shortest_plane(planes),
    ensures
        0 <= frame * planes.len() + ch < interleaved(planes).len(),
        interleaved(planes)[frame * planes.len() + ch] == planes[ch]@[frame],
{
    let c = planes.len() as int;
    let n = shortest_plane(planes) as int;
    assert(0 <= frame * c && frame * c + c <= n * c) by (nonlinear_arith)
        requires
            0 <= frame < n,
            c > 0,
    ;
    lemma_fundamental_div_mod_converse(frame * c + ch, c, frame, ch);
}

/// The length of the shortest of the planes.
pub fn shortest_plane_len<T>(planes: &Vec<Vec<T>>) -> (r: usize)
    ensures
        r == shortest_plane(planes@),
{
    if planes.len() == 0 {
        return 0;
    }
    let mut shortest: usize = planes[0].len();
    let mut i: usize = 1;
    assert(planes@.subrange(0, 1).len() == 1 && planes@.subrange(0, 1)[0] == planes@[0]);
    while i < planes.len()
        invariant
            1 <= i <= planes.len(),
            shortest == shortest_plane(planes@.subrange(0, i as int)),
        decreases planes.len() - i,
    {
        assert(planes@.subrange(0, i + 1).drop_last() =~= planes@.subrange(0, i as int));
        assert(planes@.subrange(0, i + 1).last() == planes@[i as int]);
        if planes[i].len() < shortest {
            shortest = planes[i].len();
        }
        i += 1;
    }
    assert(planes@.subrange(0, i as int) =~= planes@);
    shortest
}

/// Weaves the planes of a decoded buffer, one per channel, into frames.
pub fn interleave<T: Copy>(planes: &Vec<Vec<T>>) -> (r: Vec<T>)
    ensures
        r@ == interleaved(planes@),
        r@.len() == shortest_plane(planes@) * planes@.len(),
{
    let frames = shortest_plane_len(planes);
    let channels = planes.len();
    let mut out: Vec<T> = Vec::new();
    let mut frame: usize = 0;
    while frame < frames
        invariant
            frame <= frames,
            frames == shortest_plane(planes@),
            channels == planes@.len(),
            out@.len() == frame * channels,
            forall|i: int|
                0 <= i < out@.len() ==> out@[i] == planes@[i % channels as int]@[i
                    / channels as int],
        decreases frames - frame,
    {
        let mut ch: usize = 0;
        while ch < channels
            invariant
                frame < frames,
                ch <= channels,
                frames == shortest_plane(planes@),
                channels == planes@.len(),
                out@.len() == frame * channels + ch,
                forall|i: int|
                    0 <= i < out@.len() ==> out@[i] == planes@[i % channels as int]@[i
                        / channels as int],
            decreases channels - ch,
        {
            proof {
                lemma_shortest_plane(planes@, ch as int);
                lemma_fundamental_div_mod_converse(
                    frame * channels + ch,
                    channels as int,
                    frame as int,
                    ch as int,
                );
            }
            out.push(planes[ch][frame]);
            ch += 1;
        }
        assert((frame + 1) * channels == frame * channels + channels) by (nonlinear_arith);
        frame += 1;
    }
    assert(out@.len() == frames * channels) by {
        if channels == 0 {
            assert(frames == 0);
        }
    }
    assert(out@ =~= interleaved(planes@));
    out
}

} // verus!
