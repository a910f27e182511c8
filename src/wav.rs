//! WAV decoding and encoding, in memory, through the hound crate.
use vstd::prelude::*;
use crate::bytes::{le16, le32};

verus! {

#[verifier::external_type_specification]
#[verifier::external_body]
pub struct ExHoundError(hound::Error);

/// The format fields of a WAV header that admission compares.
#[derive(Clone, Copy, Debug, PartialEq, Eq, Structural)]
pub struct AudioFormat {
    pub channels: u16,
    pub sample_rate: u32,
    pub bits_per_sample: u16,
    /// Integer samples (as opposed to floating point).
    pub is_int: bool,
}

/// Largest sample count whose 16-bit data chunk and RIFF size fit the
/// 32-bit size fields that the writer keeps.
pub const MAX_WAV_SAMPLES: usize = 0x7FFF_FF00;

/// Largest sample rate whose byte rate (two bytes per mono sample) the
/// writer computes within 32 bits.
pub const MAX_WAV_RATE: u32 = 0x7FFF_FFFF;

/// What a WAV header in `b` says of the format: channels, sample rate, bits
/// per sample and integer encoding; `None` where no header can be read.
pub uninterp spec fn wav_format_of(b: Seq<u8>) -> Option<(u16, u32, u16, bool)>;

/// The samples of the WAV file in `b`, read as 16-bit integers; `None` where
/// they cannot be read so.
pub uninterp spec fn wav_samples_of(b: Seq<u8>) -> Option<Seq<i16>>;

/// The samples, two little-endian bytes each.
pub open spec fn pcm16_bytes(samples: Seq<i16>) -> Seq<u8>
    decreases samples.len(),
{
    if samples.len() == 0 {
        Seq::empty()
    } else {
        pcm16_bytes(samples.drop_last()) + le16(samples.last() as u16)
    }
}

/// A mono 16-bit integer WAV file at `sample_rate` holding `samples`: the
/// RIFF header, a 16-byte PCM fmt chunk, then the data chunk.
pub open spec fn wav_file_bytes(sample_rate: u32, samples: Seq<i16>) -> Seq<u8> {
    let data_len = 2 * samples.len();
    seq![0x52u8, 0x49u8, 0x46u8, 0x46u8] + le32((36 + data_len) as u32) + seq![
        0x57u8,
        0x41u8,
        0x56u8,
        0x45u8,
        0x66u8,
        0x6Du8,
        0x74u8,
        0x20u8,
    ] + le32(16) + le16(1) + le16(1) + le32(sample_rate) + le32((2 * sample_rate) as u32) + le16(
        2,
    ) + le16(16) + seq![0x64u8, 0x61u8, 0x74u8, 0x61u8] + le32(data_len as u32) + pcm16_bytes(
        samples,
    )
}

/// The fields of `f` in the order that `wav_format_of` gives them.
pub open spec fn format_fields(f: AudioFormat) -> (u16, u32, u16, bool) {
    (f.channels, f.sample_rate, f.bits_per_sample, f.is_int)
}

/// The only format that is admitted and written: mono 16-bit integer samples.
pub open spec fn is_mono16(f: AudioFormat) -> bool {
    f.channels == 1 && f.bits_per_sample == 16 && f.is_int
}

/// Relies on hound::WavReader::new over an in-memory reader, and on its
/// `spec()`: the format that the header declares.
#[verifier::external_body]
pub(crate) fn read_wav_format(bytes: &[u8]) -> (r: Result<AudioFormat, hound::Error>)
    ensures
        r is Ok <==> wav_format_of(bytes@) is Some,
        r matches Ok(f) ==> wav_format_of(bytes@) == Some(format_fields(f)),
{
    let spec = hound::WavReader::new(std::io::Cursor::new(bytes))?.spec();
    let is_int = match spec.sample_format {
        hound::SampleFormat::Int => true,
        hound::SampleFormat::Float => false,
    };
    Ok(AudioFormat {
        channels: spec.channels,
        sample_rate: spec.sample_rate,
        bits_per_sample: spec.bits_per_sample,
        is_int,
    })
}

/// Relies on hound::WavReader::samples::<i16> over an in-memory reader: every
/// sample of the data chunk, or the first error met while reading them.
#[verifier::external_body]
pub(crate) fn read_wav_samples(bytes: &[u8]) -> (r: Result<Vec<i16>, hound::Error>)
    ensures
        r is Ok <==> wav_samples_of(bytes@) is Some,
        r matches Ok(s) ==> wav_samples_of(bytes@) == Some(s@),
{
    let mut reader = hound::WavReader::new(std::io::Cursor::new(bytes))?;
    reader.samples::<i16>().collect()
}

/// Relies on hound::WavWriter (new, write_sample, finalize) over an in-memory
/// cursor. For mono 16-bit integer samples it writes the 44-byte header with
/// a PCM fmt chunk, then each sample little-endian; at a rate in
/// `1..=MAX_WAV_RATE`, with a data chunk whose sizes fit 32 bits, every step
/// writes to the cursor and succeeds.
#[verifier::external_body]
pub(crate) fn write_wav(format: &AudioFormat, samples: &Vec<i16>) -> (r: Result<Vec<u8>, hound::Error>)
    requires
        is_mono16(*format),
        0 < format.sample_rate <= MAX_WAV_RATE,
        samples.len() <= MAX_WAV_SAMPLES,
    ensures
        r is Ok,
        r matches Ok(b) ==> b@ == wav_file_bytes(format.sample_rate, samples@),
{
    let spec = hound::WavSpec {
        channels: format.channels,
        sample_rate: format.sample_rate,
        bits_per_sample: format.bits_per_sample,
        sample_format: hound::SampleFormat::Int,
    };
    let mut cursor = std::io::Cursor::new(Vec::new());
    let mut writer = hound::WavWriter::new(&mut cursor, spec)?;
    for s in samples.iter() {
        writer.write_sample(*s)?;
    }
    writer.finalize()?;
    Ok(cursor.into_inner())
}

} // verus!
