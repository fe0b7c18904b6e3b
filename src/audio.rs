//! Captured audio buffers and their byte encodings.

use vstd::prelude::*;

verus! {

/// Sample rate of every buffer this pipeline captures.
pub const DEFAULT_SAMPLE_RATE: u32 = 16000;

/// Channel count of every buffer this pipeline captures.
pub const DEFAULT_CHANNELS: u16 = 1;

/// A buffer is long enough when it spans at least half a second:
/// `n / (rate * channels) >= 1/2`.
pub open spec fn long_enough(n_samples: nat, sample_rate: nat, channels: nat) -> bool {
    2 * n_samples >= sample_rate * channels
}

/// Byte `k` (0 = low, 1 = high) of a sample in little-endian order.
pub open spec fn sample_byte(s: i16, k: int) -> u8 {
    let u = (s as int) % 65536;
    if k == 0 {
        (u % 256) as u8
    } else {
        (u / 256) as u8
    }
}

/// Little-endian 16-bit PCM bytes of a sample sequence.
pub open spec fn pcm_le(samples: Seq<i16>) -> Seq<u8> {
    Seq::new(2 * samples.len(), |k: int| sample_byte(samples[k / 2], k % 2))
}

/// Little-endian bytes of a 16-bit field.
pub open spec fn le16(x: nat) -> Seq<u8> {
    seq![(x % 256) as u8, ((x / 256) % 256) as u8]
}

/// Little-endian bytes of a 32-bit field.
pub open spec fn le32(x: nat) -> Seq<u8> {
    seq![
        (x % 256) as u8,
        ((x / 256) % 256) as u8,
        ((x / 65536) % 256) as u8,
        ((x / 16777216) % 256) as u8,
    ]
}

/// The four ASCII bytes of a chunk tag.
pub open spec fn tag(a: u8, b: u8, c: u8, d: u8) -> Seq<u8> {
    seq![a, b, c, d]
}

/// Whether every header field of a WAV file for this buffer fits its width.
pub open spec fn wav_fits(n_samples: nat, sample_rate: nat, channels: nat) -> bool {
    &&& 36 + 2 * n_samples <= u32::MAX
    &&& sample_rate * channels * 2 <= u32::MAX
    &&& channels * 2 <= u16::MAX
}

/// The 44-byte header of an uncompressed 16-bit PCM WAV file:
/// "RIFF", size, "WAVE", the "fmt " chunk, and the "data" chunk header.
pub open spec fn wav_header(n_samples: nat, sample_rate: nat, channels: nat) -> Seq<u8> {
    let data_len = 2 * n_samples;
    tag(82, 73, 70, 70) + le32(36 + data_len) + tag(87, 65, 86, 69) + tag(102, 109, 116, 32)
        + le32(16) + le16(1) + le16(channels) + le32(sample_rate) + le32(
        sample_rate * channels * 2,
    ) + le16(channels * 2) + le16(16) + tag(100, 97, 116, 97) + le32(data_len)
}

/// A complete WAV file: header, then the samples in little-endian order.
pub open spec fn wav_file(samples: Seq<i16>, sample_rate: nat, channels: nat) -> Seq<u8> {
    wav_header(samples.len(), sample_rate, channels) + pcm_le(samples)
}

fn push_le16(out: &mut Vec<u8>, x: u16)
    ensures
        final(out)@ == old(out)@ + le16(x as nat),
{
    out.push((x % 256) as u8);
    out.push(((x / 256) % 256) as u8);
    assert(final(out)@ =~= old(out)@ + le16(x as nat));
}

fn push_le32(out: &mut Vec<u8>, x: u32)
    ensures
        final(out)@ == old(out)@ + le32(x as nat),
{
    out.push((x % 256) as u8);
    out.push(((x / 256) % 256) as u8);
    out.push(((x / 65536) % 256) as u8);
    out.push(((x / 16777216) % 256) as u8);
    assert(final(out)@ =~= old(out)@ + le32(x as nat));
}

fn push_tag(out: &mut Vec<u8>, a: u8, b: u8, c: u8, d: u8)
    ensures
        final(out)@ == old(out)@ + tag(a, b, c, d),
{
    out.push(a);
    out.push(b);
    out.push(c);
    out.push(d);
    assert(final(out)@ =~= old(out)@ + tag(a, b, c, d));
}

/// A time-bounded span of recognized text. Times are in hundredths of a second,
/// the unit the local engine reports; backends without timing give zeros.
pub struct Segment {
    pub start_cs: i64,
    pub end_cs: i64,
    pub text: String,
}

/// The outcome of one transcription.
pub struct TranscribeResult {
    pub text: String,
    /// Detected or declared language tag.
    pub language: Option<String>,
    /// Confidence in percent, where a backend reports one.
    pub confidence: Option<u32>,
    pub segments: Vec<Segment>,
}

/// A finalized, immutable buffer of 16-bit PCM samples.
pub struct AudioData {
    pub samples: Vec<i16>,
    pub sample_rate: u32,
    pub channels: u16,
}

impl AudioData {
    pub fn new(samples: Vec<i16>, sample_rate: u32, channels: u16) -> (r: AudioData)
        ensures
            r.samples@ == samples@,
            r.sample_rate == sample_rate,
            r.channels == channels,
    {
        AudioData { samples, sample_rate, channels }
    }

    /// Whether the buffer lasts at least half a second.
    pub fn is_valid(&self) -> (r: bool)
        ensures
            r == long_enough(self.samples@.len(), self.sample_rate as nat, self.channels as nat),
    {
        let rate: u64 = self.sample_rate as u64;
        let ch: u64 = self.channels as u64;
        assert(rate * ch <= 0xffff_ffff * 0xffff) by (nonlinear_arith)
            requires
                rate <= 0xffff_ffff,
                ch <= 0xffff,
        ;
        let per_second: u64 = rate * ch;
        let needed: u64 = (per_second + 1) / 2;
        (self.samples.len() as u64) >= needed
    }

    /// Encodes the buffer as a self-contained WAV file.
    pub fn to_wav_bytes(&self) -> (r: Vec<u8>)
        requires
            wav_fits(self.samples@.len(), self.sample_rate as nat, self.channels as nat),
        ensures
            r@ == wav_file(self.samples@, self.sample_rate as nat, self.channels as nat),
    {
        let n: usize = self.samples.len();
        let data_len: u32 = (2 * n) as u32;
        let rate: u32 = self.sample_rate;
        let ch: u16 = self.channels;
        let mut out: Vec<u8> = Vec::new();
        push_tag(&mut out, 82, 73, 70, 70);
        push_le32(&mut out, 36 + data_len);
        push_tag(&mut out, 87, 65, 86, 69);
        push_tag(&mut out, 102, 109, 116, 32);
        push_le32(&mut out, 16);
        push_le16(&mut out, 1);
        push_le16(&mut out, ch);
        push_le32(&mut out, rate);
        push_le32(&mut out, rate * (ch as u32) * 2);
        push_le16(&mut out, ch * 2);
        push_le16(&mut out, 16);
        push_tag(&mut out, 100, 97, 116, 97);
        push_le32(&mut out, data_len);
        let header = out;
        let body = pcm_le_bytes(self.samples.as_slice());
        let mut out = header;
        let mut tail = body;
        out.append(&mut tail);
        assert(out@ =~= wav_file(self.samples@, self.sample_rate as nat, self.channels as nat));
        out
    }

    /// Little-endian 16-bit PCM bytes of the samples.
    pub fn to_pcm_bytes(&self) -> (r: Vec<u8>)
        requires
            2 * self.samples@.len() <= usize::MAX,
        ensures
            r@ == pcm_le(self.samples@),
    {
        pcm_le_bytes(self.samples.as_slice())
    }
}

/// Little-endian bytes of each sample, in order.
pub fn pcm_le_bytes(samples: &[i16]) -> (r: Vec<u8>)
    requires
        2 * samples@.len() <= usize::MAX,
    ensures
        r@ == pcm_le(samples@),
{
    let mut out: Vec<u8> = Vec::new();
    let mut i: usize = 0;
    while i < samples.len()
        invariant
            i <= samples@.len(),
            2 * samples@.len() <= usize::MAX,
            out@ =~= Seq::new(2 * i as nat, |k: int| sample_byte(samples@[k / 2], k % 2)),
        decreases samples@.len() - i,
    {
        let s: i16 = samples[i];
        let u: u16 = if s >= 0 {
            s as u16
        } else {
            (s as i32 + 65536) as u16
        };
        assert(u as int == (s as int) % 65536);
        let lo: u8 = (u % 256) as u8;
        let hi: u8 = (u / 256) as u8;
        out.push(lo);
        out.push(hi);
        assert(lo == sample_byte(samples@[i as int], 0));
        assert(hi == sample_byte(samples@[i as int], 1));
        i = i + 1;
    }
    out
}

} // verus!
