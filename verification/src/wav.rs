//! The WAV container: an append-only sink of 16-bit PCM samples that
//! renders a complete RIFF/WAVE file image on finalize.
//!
//! The sink mirrors the writer handed to the realtime callback: while its
//! active flag is set, incoming fixed-point sample blocks are encoded and
//! appended; once the flag is cleared every further write is rejected
//! whole, so a block that races a stop either lands completely or not at
//! all.  Finalizing consumes the sink, so nothing can write after it.

use vstd::prelude::*;

use crate::pcm::encode_sample;
use crate::pcm::encode_sample_spec;
use vstd::assert_seqs_equal;

verus! {

/// Most samples a single file can carry: the RIFF chunk size field is a
/// 32-bit byte count covering the 36 header bytes after it plus two bytes
/// per sample.
pub const MAX_DATA_SAMPLES: usize = 2_147_483_629;

/// The negotiated capture format a file is written with; bit depth is
/// fixed at 16.
#[derive(Clone, Copy, PartialEq, Eq, Structural, Debug)]
pub struct WavFormat {
    pub channels: u16,
    pub sample_rate: u32,
}

impl WavFormat {
    /// A usable format: at least one channel, a positive rate, and the
    /// derived 16-bit header fields (block align, byte rate) in range.
    pub open spec fn wf(self) -> bool {
        &&& 1 <= self.channels <= 32767
        &&& 1 <= self.sample_rate
        &&& 2 * self.sample_rate * self.channels <= u32::MAX
    }
}

/// The two little-endian bytes of a 16-bit value.
pub open spec fn le16(x: u16) -> Seq<u8> {
    seq![(x % 256) as u8, (x / 256) as u8]
}

/// The four little-endian bytes of a 32-bit value.
pub open spec fn le32(x: u32) -> Seq<u8> {
    seq![
        (x % 256) as u8,
        (x / 256 % 256) as u8,
        (x / 65536 % 256) as u8,
        (x / 16777216) as u8,
    ]
}

/// A 16-bit PCM sample reinterpreted as its unsigned wire value.
pub open spec fn sample_to_u16_spec(s: i16) -> u16 {
    (if s < 0 {
        s + 0x10000
    } else {
        s as int
    }) as u16
}

/// The PCM data chunk: each sample as two little-endian bytes, in order.
pub open spec fn pcm_data_bytes(samples: Seq<i16>) -> Seq<u8>
    decreases samples.len(),
{
    if samples.len() == 0 {
        Seq::empty()
    } else {
        le16(sample_to_u16_spec(samples[0])) + pcm_data_bytes(samples.drop_first())
    }
}

/// The 44-byte RIFF/WAVE header for a 16-bit PCM file of `n` samples.
pub open spec fn wav_header(fmt: WavFormat, n: nat) -> Seq<u8>
    recommends
        fmt.wf(),
        n <= MAX_DATA_SAMPLES,
{
    seq![0x52u8, 0x49u8, 0x46u8, 0x46u8] + le32((36 + 2 * n) as u32) + seq![
        0x57u8,
        0x41u8,
        0x56u8,
        0x45u8,
    ] + seq![0x66u8, 0x6du8, 0x74u8, 0x20u8] + le32(16) + le16(1) + le16(fmt.channels) + le32(
        fmt.sample_rate,
    ) + le32((2 * fmt.sample_rate * fmt.channels) as u32) + le16((2 * fmt.channels) as u16) + le16(
        16,
    ) + seq![0x64u8, 0x61u8, 0x74u8, 0x61u8] + le32((2 * n) as u32)
}

/// A complete WAV file image: header, then the data chunk.
pub open spec fn wav_bytes(fmt: WavFormat, samples: Seq<i16>) -> Seq<u8>
    recommends
        fmt.wf(),
        samples.len() <= MAX_DATA_SAMPLES,
{
    wav_header(fmt, samples.len()) + pcm_data_bytes(samples)
}

/// One encoded block: every sample scaled, rounded and clamped.
pub open spec fn encode_block_spec(block: Seq<i64>) -> Seq<i16> {
    block.map_values(|q: i64| encode_sample_spec(q as int) as i16)
}

/// How many samples of a block a sink with `have` stored samples accepts.
pub open spec fn accept_count(have: int, want: int) -> int {
    if want <= MAX_DATA_SAMPLES - have {
        want
    } else {
        MAX_DATA_SAMPLES - have
    }
}

/// What a write leaves behind: nothing when the sink is inactive, else
/// the encoded block, truncated only at the file size limit.
pub open spec fn accepted_samples(active: bool, have: int, block: Seq<i64>) -> Seq<i16> {
    if active {
        encode_block_spec(block.take(accept_count(have, block.len() as int)))
    } else {
        Seq::empty()
    }
}

/// Law: a write that races a stop is never torn.  A block reaching the
/// sink after its active flag fell is excluded whole, and a block the
/// sink accepted below the size limit is included whole; no prefix of a
/// block ever lands on its own.
pub proof fn lemma_no_torn_block(have: int, block: Seq<i64>)
    ensures
        accepted_samples(false, have, block) == Seq::<i16>::empty(),
        have + block.len() <= MAX_DATA_SAMPLES ==> accepted_samples(true, have, block)
            == encode_block_spec(block),
{
    if have + block.len() <= MAX_DATA_SAMPLES {
        assert(block.take(block.len() as int) =~= block);
    }
}

/// The buffered encoder behind a recording: converts incoming blocks to
/// 16-bit PCM while active and renders the finished file on finalize.
pub struct SampleSink {
    pub format: WavFormat,
    pub data: Vec<i16>,
    pub active: bool,
}

impl SampleSink {
    /// A well-formed sink: a usable format, and never more samples than
    /// the header's byte counts can describe.
    pub open spec fn wf(self) -> bool {
        &&& self.format.wf()
        &&& self.data@.len() <= MAX_DATA_SAMPLES
    }

    /// Open a fresh, active sink for one recording.
    pub fn new(format: WavFormat) -> (s: SampleSink)
        requires
            format.wf(),
        ensures
            s.wf(),
            s.format == format,
            s.data@ == Seq::<i16>::empty(),
            s.active,
    {
        SampleSink { format, data: Vec::new(), active: true }
    }

    /// Quiesce the sink: every later write is rejected whole.
    pub fn deactivate(&mut self)
        ensures
            final(self).format == old(self).format,
            final(self).data@ == old(self).data@,
            !final(self).active,
    {
        self.active = false;
    }

    /// Append one callback block of fixed-point samples.  An inactive
    /// sink ignores the block; an active sink encodes and appends it,
    /// stopping only at the file size limit (an overfull write is
    /// swallowed, as the realtime path must never block or fail).
    pub fn write_block(&mut self, block: &Vec<i64>)
        requires
            old(self).wf(),
        ensures
            final(self).wf(),
            final(self).format == old(self).format,
            final(self).active == old(self).active,
            final(self).data@ == old(self).data@ + accepted_samples(
                old(self).active,
                old(self).data@.len() as int,
                block@,
            ),
    {
        if !self.active {
            proof {
                assert(self.data@ + Seq::<i16>::empty() =~= self.data@);
            }
            return ;
        }
        let ghost start = self.data@;
        let mut i: usize = 0;
        while i < block.len() && self.data.len() < MAX_DATA_SAMPLES
            invariant
                self.wf(),
                self.format == old(self).format,
                self.active,
                i <= block@.len(),
                self.data@.len() == start.len() + i,
                self.data@ == start + encode_block_spec(block@.take(i as int)),
            decreases block@.len() - i,
        {
            let p = encode_sample(block[i]);
            self.data.push(p);
            proof {
                assert(block@.take(i + 1) =~= block@.take(i as int).push(block@[i as int]));
                assert(encode_block_spec(block@.take(i + 1)) =~= encode_block_spec(
                    block@.take(i as int),
                ).push(encode_sample_spec(block@[i as int] as int) as i16));
                assert(self.data@ =~= start + encode_block_spec(block@.take(i + 1)));
            }
            i = i + 1;
        }
        proof {
            let accept = accept_count(start.len() as int, block@.len() as int);
            assert(i == accept);
            assert(self.data@ == start + accepted_samples(true, start.len() as int, block@));
        }
    }

    /// Render the finished file: the header, then every stored sample.
    /// Taking the sink by value retires it; no write can follow.
    pub fn finalize(self) -> (bytes: Vec<u8>)
        requires
            self.wf(),
        ensures
            bytes@ == wav_bytes(self.format, self.data@),
    {
        let n: usize = self.data.len();
        let ds: u32 = 2 * (n as u32);
        let mut out: Vec<u8> = Vec::new();
        out.push(0x52);
        out.push(0x49);
        out.push(0x46);
        out.push(0x46);
        push_le32(&mut out, 36 + ds);
        out.push(0x57);
        out.push(0x41);
        out.push(0x56);
        out.push(0x45);
        out.push(0x66);
        out.push(0x6d);
        out.push(0x74);
        out.push(0x20);
        push_le32(&mut out, 16);
        push_le16(&mut out, 1);
        push_le16(&mut out, self.format.channels);
        push_le32(&mut out, self.format.sample_rate);
        proof {
            assert(2 * (self.format.sample_rate as int) * (self.format.channels as int) <= u32::MAX
                && 2 * (self.format.sample_rate as int) >= 0) by (nonlinear_arith)
                requires
                    2 * self.format.sample_rate * self.format.channels <= u32::MAX,
                    1 <= self.format.channels,
                    1 <= self.format.sample_rate,
            ;
        }
        let byte_rate: u64 = 2 * (self.format.sample_rate as u64) * (self.format.channels as u64);
        push_le32(&mut out, byte_rate as u32);
        push_le16(&mut out, 2 * self.format.channels);
        push_le16(&mut out, 16);
        out.push(0x64);
        out.push(0x61);
        out.push(0x74);
        out.push(0x61);
        push_le32(&mut out, ds);
        proof {
            assert(out@ =~= wav_header(self.format, self.data@.len()));
        }
        let ghost header = out@;
        let mut i: usize = 0;
        while i < self.data.len()
            invariant
                self.wf(),
                i <= self.data@.len(),
                out@ == header + pcm_data_bytes(self.data@.take(i as int)),
            decreases self.data@.len() - i,
        {
            let s: i16 = self.data[i];
            let w: i32 = s as i32;
            let u: u16 = if w < 0 {
                (w + 0x10000) as u16
            } else {
                w as u16
            };
            push_le16(&mut out, u);
            proof {
                assert(u == sample_to_u16_spec(self.data@[i as int]));
                lemma_pcm_data_bytes_snoc(self.data@.take(i as int), self.data@[i as int]);
                assert(self.data@.take(i + 1) =~= self.data@.take(i as int).push(
                    self.data@[i as int],
                ));
            }
            i = i + 1;
        }
        proof {
            assert(self.data@.take(self.data@.len() as int) =~= self.data@);
        }
        out
    }
}

/// Append the two little-endian bytes of a 16-bit value.
fn push_le16(out: &mut Vec<u8>, x: u16)
    ensures
        final(out)@ == old(out)@ + le16(x),
{
    out.push((x % 256) as u8);
    out.push((x / 256) as u8);
    proof {
        assert(out@ =~= old(out)@ + le16(x));
    }
}

/// Append the four little-endian bytes of a 32-bit value.
fn push_le32(out: &mut Vec<u8>, x: u32)
    ensures
        final(out)@ == old(out)@ + le32(x),
{
    out.push((x % 256) as u8);
    out.push((x / 256 % 256) as u8);
    out.push((x / 65536 % 256) as u8);
    out.push((x / 16777216) as u8);
    proof {
        assert(out@ =~= old(out)@ + le32(x));
    }
}

/// The data chunk of a sequence with one more sample appends that
/// sample's two bytes.
pub proof fn lemma_pcm_data_bytes_snoc(samples: Seq<i16>, s: i16)
    ensures
        pcm_data_bytes(samples.push(s)) == pcm_data_bytes(samples) + le16(sample_to_u16_spec(s)),
    decreases samples.len(),
{
    if samples.len() == 0 {
        assert(samples.push(s).drop_first() =~= Seq::<i16>::empty());
        assert(samples.push(s)[0] == s);
        assert(pcm_data_bytes(samples.push(s).drop_first()) == Seq::<u8>::empty());
        assert(pcm_data_bytes(samples) == Seq::<u8>::empty());
        assert_seqs_equal!(
            pcm_data_bytes(samples.push(s)) == pcm_data_bytes(samples) + le16(sample_to_u16_spec(s))
        );
    } else {
        assert(samples.push(s).drop_first() =~= samples.drop_first().push(s));
        lemma_pcm_data_bytes_snoc(samples.drop_first(), s);
        assert(samples.push(s)[0] == samples[0]);
        assert(pcm_data_bytes(samples.push(s)) == le16(sample_to_u16_spec(samples[0]))
            + (pcm_data_bytes(samples.drop_first()) + le16(sample_to_u16_spec(s))));
        assert_seqs_equal!(
            pcm_data_bytes(samples.push(s)) == pcm_data_bytes(samples) + le16(sample_to_u16_spec(s))
        );
    }
}

/// The data chunk holds exactly two bytes per sample.
pub proof fn lemma_pcm_data_bytes_len(samples: Seq<i16>)
    ensures
        pcm_data_bytes(samples).len() == 2 * samples.len(),
    decreases samples.len(),
{
    if samples.len() > 0 {
        lemma_pcm_data_bytes_len(samples.drop_first());
    }
}

/// Law: a finished file's header carries the negotiated channel count
/// and sample rate, and its size fields count exactly two bytes per
/// stored sample.
pub proof fn lemma_wav_header_fields(fmt: WavFormat, samples: Seq<i16>)
    requires
        fmt.wf(),
        samples.len() <= MAX_DATA_SAMPLES,
    ensures
        wav_bytes(fmt, samples).len() == 44 + 2 * samples.len(),
        wav_bytes(fmt, samples).subrange(22, 24) == le16(fmt.channels),
        wav_bytes(fmt, samples).subrange(24, 28) == le32(fmt.sample_rate),
        wav_bytes(fmt, samples).subrange(40, 44) == le32((2 * samples.len()) as u32),
{
    lemma_pcm_data_bytes_len(samples);
    assert(wav_bytes(fmt, samples).subrange(22, 24) =~= le16(fmt.channels));
    assert(wav_bytes(fmt, samples).subrange(24, 28) =~= le32(fmt.sample_rate));
    assert(wav_bytes(fmt, samples).subrange(40, 44) =~= le32((2 * samples.len()) as u32));
}

/// The two little-endian bytes of a 16-bit value determine it.
pub proof fn lemma_le16_recovers(x: u16)
    ensures
        le16(x)[0] + 256 * le16(x)[1] == x,
{
}

/// The four little-endian bytes of a 32-bit value determine it.
pub proof fn lemma_le32_recovers(x: u32)
    ensures
        le32(x)[0] + 256 * le32(x)[1] + 65536 * le32(x)[2] + 16777216 * le32(x)[3] == x,
{
    vstd::arithmetic::div_mod::lemma_fundamental_div_mod(x as int, 256);
    vstd::arithmetic::div_mod::lemma_fundamental_div_mod(x as int / 256, 256);
    vstd::arithmetic::div_mod::lemma_fundamental_div_mod(x as int / 65536, 256);
    assert(x as int / 256 / 256 == x as int / 65536) by {
        vstd::arithmetic::div_mod::lemma_div_denominator(x as int, 256, 256);
    };
    assert(x as int / 65536 / 256 == x as int / 16777216) by {
        vstd::arithmetic::div_mod::lemma_div_denominator(x as int, 65536, 256);
    };
}

} // verus!
