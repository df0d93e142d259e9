use vstd::prelude::*;

verus! {

/// Sample rate of every recording, in samples per second.
pub const SAMPLE_RATE: u32 = 16000;

/// Size of the RIFF header, the 16-byte `fmt ` chunk and the `data` chunk header.
pub const HEADER_LEN: usize = 44;

/// The most samples one container can hold: the RIFF size field,
/// `36 + 2 * n`, must fit in 32 bits.
pub const MAX_SAMPLES: usize = 2147483629;

#[verifier::external_type_specification]
#[verifier::external_body]
pub struct ExWavError(hound::Error);

/// Two bytes of `x`, least significant first (`0 <= x < 2^16`).
pub open spec fn le16(x: int) -> Seq<u8> {
    seq![(x % 256) as u8, (x / 256 % 256) as u8]
}

/// Four bytes of `x`, least significant first (`0 <= x < 2^32`).
pub open spec fn le32(x: int) -> Seq<u8> {
    seq![
        (x % 256) as u8,
        (x / 256 % 256) as u8,
        (x / 65536 % 256) as u8,
        (x / 16777216 % 256) as u8,
    ]
}

/// The 16 bits of a sample in two's complement.
pub open spec fn sample_bits(s: i16) -> int {
    if s < 0 {
        s + 65536
    } else {
        s as int
    }
}

/// The data section: each sample as two little-endian bytes, in order.
pub open spec fn pcm_bytes(samples: Seq<i16>) -> Seq<u8>
    decreases samples.len(),
{
    if samples.len() == 0 {
        Seq::empty()
    } else {
        pcm_bytes(samples.drop_last()) + le16(sample_bits(samples.last()))
    }
}

/// The canonical 44-byte header of a mono 16-bit integer PCM container
/// holding `n` samples at `rate` samples per second.
pub open spec fn wav_header(n: nat, rate: nat) -> Seq<u8> {
    seq![0x52u8, 0x49, 0x46, 0x46] + le32(36 + 2 * n as int) + seq![0x57u8, 0x41, 0x56, 0x45]
        + seq![0x66u8, 0x6d, 0x74, 0x20] + le32(16) + le16(1) + le16(1) + le32(rate as int)
        + le32(2 * rate as int) + le16(2) + le16(16) + seq![0x64u8, 0x61, 0x74, 0x61] + le32(2 * n as int)
}

/// The whole container for a run of samples.
pub open spec fn wav_file(samples: Seq<i16>, rate: nat) -> Seq<u8> {
    wav_header(samples.len(), rate) + pcm_bytes(samples)
}

/// Reads a little-endian 16-bit field.
pub open spec fn read_le16(bytes: Seq<u8>, at: int) -> int {
    bytes[at] + 256 * bytes[at + 1]
}

/// Reads a little-endian 32-bit field.
pub open spec fn read_le32(bytes: Seq<u8>, at: int) -> int {
    bytes[at] + 256 * bytes[at + 1] + 65536 * bytes[at + 2] + 16777216 * bytes[at + 3]
}

/// The sample that two data bytes encode.
pub open spec fn sample_of(lo: u8, hi: u8) -> int {
    let v = lo + 256 * hi;
    if v >= 32768 {
        v - 65536
    } else {
        v
    }
}

/// Decodes a data section into samples, two bytes each.
pub open spec fn decode_pcm(data: Seq<u8>) -> Seq<int>
    decreases data.len(),
{
    if data.len() < 2 {
        Seq::empty()
    } else {
        decode_pcm(data.subrange(0, data.len() - 2)).push(
            sample_of(data[data.len() - 2], data[data.len() - 1]),
        )
    }
}

/// The samples held by a container, as a reader decodes them.
pub open spec fn decoded_samples(file: Seq<u8>) -> Seq<int> {
    decode_pcm(file.skip(HEADER_LEN as int))
}

proof fn lemma_le16_round_trip(x: int)
    requires
        0 <= x < 65536,
    ensures
        le16(x).len() == 2,
        le16(x)[0] + 256 * le16(x)[1] == x,
{
    assert(x / 256 < 256);
    assert(x == 256 * (x / 256) + x % 256);
}

proof fn lemma_le32_round_trip(x: int)
    requires
        0 <= x < 0x1_0000_0000,
    ensures
        le32(x).len() == 4,
        read_le32(le32(x), 0) == x,
{
    let b0 = x % 256;
    let q0 = x / 256;
    let b1 = q0 % 256;
    let q1 = q0 / 256;
    let b2 = q1 % 256;
    let q2 = q1 / 256;
    assert(x == 256 * q0 + b0);
    assert(q0 == 256 * q1 + b1);
    assert(q1 == 256 * q2 + b2);
    assert(q0 == x / 256);
    assert(q1 == x / 65536) by {
        vstd::arithmetic::div_mod::lemma_div_denominator(x, 256, 256);
    }
    assert(q2 == x / 16777216) by {
        vstd::arithmetic::div_mod::lemma_div_denominator(x, 65536, 256);
    }
    assert(q2 < 256) by {
        vstd::arithmetic::div_mod::lemma_div_is_ordered(x, 0x1_0000_0000 - 1, 16777216);
    }
    assert(q2 % 256 == q2);
    assert(x == b0 + 256 * b1 + 65536 * b2 + 16777216 * q2) by (nonlinear_arith)
        requires
            x == 256 * q0 + b0,
            q0 == 256 * q1 + b1,
            q1 == 256 * q2 + b2,
    ;
}

proof fn lemma_sample_round_trip(s: i16)
    ensures
        le16(sample_bits(s)).len() == 2,
        sample_of(le16(sample_bits(s))[0], le16(sample_bits(s))[1]) == s as int,
{
    lemma_le16_round_trip(sample_bits(s));
}

proof fn lemma_pcm_round_trip(samples: Seq<i16>)
    ensures
        pcm_bytes(samples).len() == 2 * samples.len(),
        decode_pcm(pcm_bytes(samples)) == samples.map_values(|x: i16| x as int),
    decreases samples.len(),
{
    if samples.len() > 0 {
        let pre = samples.drop_last();
        lemma_pcm_round_trip(pre);
        lemma_sample_round_trip(samples.last());
        let bytes = pcm_bytes(samples);
        assert(bytes.subrange(0, bytes.len() - 2) =~= pcm_bytes(pre));
        assert(samples.map_values(|x: i16| x as int) =~= pre.map_values(|x: i16| x as int).push(
            samples.last() as int,
        ));
    } else {
        assert(samples.map_values(|x: i16| x as int) =~= Seq::<int>::empty());
    }
}

proof fn lemma_header_fields(n: nat, rate: nat)
    requires
        36 + 2 * n < 0x1_0000_0000,
        2 * rate < 0x1_0000_0000,
    ensures
        wav_header(n, rate).len() == HEADER_LEN,
        read_le32(wav_header(n, rate), 4) == 36 + 2 * n,
        read_le32(wav_header(n, rate), 24) == rate,
        read_le16(wav_header(n, rate), 22) == 1,
        read_le16(wav_header(n, rate), 34) == 16,
        read_le32(wav_header(n, rate), 40) == 2 * n,
{
    lemma_le32_round_trip(36 + 2 * n as int);
    lemma_le32_round_trip(rate as int);
    lemma_le32_round_trip(2 * n as int);
    let h = wav_header(n, rate);
    assert(h.len() == 44);
    assert(h.subrange(4, 8) =~= le32(36 + 2 * n as int));
    assert(h.subrange(24, 28) =~= le32(rate as int));
    assert(h.subrange(40, 44) =~= le32(2 * n as int));
}

/// An empty recording gives a complete container: a header whose RIFF size
/// is 36, whose format fields say mono 16-bit at the given rate, whose data
/// size is zero, and no data after it.
pub proof fn lemma_empty_recording(rate: nat)
    requires
        0 < rate <= 0x7fff_ffff,
    ensures
        wav_file(Seq::<i16>::empty(), rate).len() == HEADER_LEN,
        read_le32(wav_file(Seq::<i16>::empty(), rate), 4) == 36,
        read_le16(wav_file(Seq::<i16>::empty(), rate), 22) == 1,
        read_le32(wav_file(Seq::<i16>::empty(), rate), 24) == rate,
        read_le16(wav_file(Seq::<i16>::empty(), rate), 34) == 16,
        read_le32(wav_file(Seq::<i16>::empty(), rate), 40) == 0,
        decoded_samples(wav_file(Seq::<i16>::empty(), rate)) == Seq::<int>::empty(),
{
    lemma_header_fields(0, rate);
    let f = wav_file(Seq::<i16>::empty(), rate);
    assert(pcm_bytes(Seq::<i16>::empty()) =~= Seq::<u8>::empty());
    assert(f =~= wav_header(0, rate));
    assert(f.skip(HEADER_LEN as int) =~= Seq::<u8>::empty());
}

/// Any run of samples survives the container: the data size field counts
/// two bytes per sample, and decoding the data gives back the same samples,
/// in order.
pub proof fn lemma_round_trip(samples: Seq<i16>, rate: nat)
    requires
        samples.len() <= MAX_SAMPLES,
        0 < rate <= 0x7fff_ffff,
    ensures
        wav_file(samples, rate).len() == HEADER_LEN + 2 * samples.len(),
        read_le32(wav_file(samples, rate), 40) == 2 * samples.len(),
        decoded_samples(wav_file(samples, rate)) == samples.map_values(|x: i16| x as int),
{
    lemma_header_fields(samples.len(), rate);
    lemma_pcm_round_trip(samples);
    let f = wav_file(samples, rate);
    assert(f.skip(HEADER_LEN as int) =~= pcm_bytes(samples));
}

/// Relies on hound::WavWriter::new, write_sample and finalize, writing to an
/// in-memory cursor: for a mono, 16-bit, integer spec hound writes the
/// PCMWAVEFORMAT header (RIFF size and data size filled in at finalize), then
/// each sample as two little-endian bytes. `rate` must be nonzero and
/// `2 * rate` fit in 32 bits, since hound divides by it and multiplies it in
/// `u32`; the sample count must keep the RIFF size within 32 bits. Under
/// those bounds hound cannot fail here: 16 bits is a supported depth, an
/// `i16` sample at 16 bits is only written, one channel never leaves a frame
/// unfinished, and writes, seeks and flushes on a `Cursor<Vec<u8>>` succeed.
#[verifier::external_body]
fn write_mono_pcm16(samples: &Vec<i16>, rate: u32) -> (r: Result<Vec<u8>, hound::Error>)
    requires
        0 < rate <= 0x7fff_ffff,
        samples.len() <= MAX_SAMPLES,
    ensures
        r is Ok,
        r matches Ok(bytes) ==> bytes@ == wav_file(samples@, rate as nat),
{
    let spec = hound::WavSpec {
        channels: 1,
        sample_rate: rate,
        bits_per_sample: 16,
        sample_format: hound::SampleFormat::Int,
    };
    let mut cursor = std::io::Cursor::new(Vec::new());
    let mut writer = hound::WavWriter::new(&mut cursor, spec)?;
    for &s in samples.iter() {
        writer.write_sample(s)?;
    }
    writer.finalize()?;
    Ok(cursor.into_inner())
}

/// Why a recording could not be turned into a container.
#[derive(Clone, Copy, Debug, PartialEq, Eq, Structural)]
pub enum EncodeError {
    /// More samples than one container can describe.
    TooLong,
}

/// Encodes a recording as a mono 16-bit PCM container at the fixed sample
/// rate. An empty recording still gives a complete, header-only container.
pub fn encode_recording(samples: &Vec<i16>) -> (r: Result<Vec<u8>, EncodeError>)
    ensures
        samples@.len() <= MAX_SAMPLES ==> r is Ok,
        samples@.len() > MAX_SAMPLES ==> r == Err::<Vec<u8>, EncodeError>(EncodeError::TooLong),
        r matches Ok(bytes) ==> bytes@ == wav_file(samples@, SAMPLE_RATE as nat),
{
    if samples.len() > MAX_SAMPLES {
        return Err(EncodeError::TooLong);
    }
    match write_mono_pcm16(samples, SAMPLE_RATE) {
        Ok(bytes) => Ok(bytes),
        Err(_) => vstd::pervasive::unreached(),
    }
}

} // verus!
