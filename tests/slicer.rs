use ot_slicer::chain::{materialize, LoopMode, NO_LOOP};
use ot_slicer::metadata::{encode, OTSlice, METADATA_LEN};
use ot_slicer::slicer::{Slicer, SliceError};
use ot_slicer::wav::AudioFormat;
use std::io::Cursor;

fn wav_bytes(channels: u16, sample_rate: u32, bits: u16, n: usize) -> Vec<u8> {
    let spec = hound::WavSpec {
        channels,
        sample_rate,
        bits_per_sample: bits,
        sample_format: hound::SampleFormat::Int,
    };
    let mut cursor = Cursor::new(Vec::new());
    {
        let mut w = hound::WavWriter::new(&mut cursor, spec).unwrap();
        for i in 0..n * channels as usize {
            w.write_sample((i % 100) as i16 + 1).unwrap();
        }
        w.finalize().unwrap();
    }
    cursor.into_inner()
}

fn mono(n: usize) -> Vec<u8> {
    wav_bytes(1, 44100, 16, n)
}

fn be32_at(b: &[u8], off: usize) -> u32 {
    u32::from_be_bytes([b[off], b[off + 1], b[off + 2], b[off + 3]])
}

fn decode(b: &[u8]) -> Vec<i16> {
    let mut r = hound::WavReader::new(Cursor::new(b)).unwrap();
    r.samples::<i16>().map(|s| s.unwrap()).collect()
}

fn two_input_slicer() -> Slicer {
    let mut s = Slicer::default();
    assert_eq!(s.add_file(Some(&mono(22050))), Ok(()));
    assert_eq!(s.add_file(Some(&mono(44100))), Ok(()));
    s
}

#[test]
fn non_padded_example() {
    let mut s = two_input_slicer();
    let b = s.generate_ot_file(false).unwrap();
    assert_eq!(b.slices.len(), 2);
    assert_eq!((b.slices[0].start_point, b.slices[0].length), (0, 22050));
    assert_eq!((b.slices[1].start_point, b.slices[1].length), (22050, 44100));
    assert_eq!(b.slices[0].loop_point, 22050);
    assert_eq!(b.total_samples, 66150);
    let m = &b.metadata;
    assert_eq!(m.len(), METADATA_LEN);
    assert_eq!(be32_at(m, 23), 2976);
    assert_eq!(be32_at(m, 27), 75);
    assert_eq!(be32_at(m, 31), 75);
    assert_eq!(be32_at(m, 50), 66150);
    assert_eq!(be32_at(m, 58), 0);
    assert_eq!(be32_at(m, 62), 22050);
    assert_eq!(be32_at(m, 70), 22050);
    assert_eq!(be32_at(m, 74), 66150);
    assert_eq!(be32_at(m, 826), 2);
    let audio = decode(b.audio.as_ref().unwrap());
    assert_eq!(audio.len(), 66150);
}

#[test]
fn evenly_spaced_example() {
    let mut s = two_input_slicer();
    assert_eq!(s.max_file_length(), 44100);
    let b = s.generate_ot_file(true).unwrap();
    assert_eq!((b.slices[0].start_point, b.slices[0].length), (0, 22050));
    assert_eq!((b.slices[1].start_point, b.slices[1].length), (44100, 44100));
    assert_eq!(b.total_samples, 88200);
    let audio = decode(b.audio.as_ref().unwrap());
    assert_eq!(audio.len(), 88200);
    assert!(audio[22050..44100].iter().all(|&x| x == 0));
    assert_eq!(audio[0], 1);
    assert_eq!(audio[44100], 1);
    assert_eq!(be32_at(&b.metadata, 50), 66150);
}

#[test]
fn lengths_sum_to_inputs_in_both_modes() {
    for evenly in [false, true] {
        let mut s = Slicer::default();
        for n in [10usize, 300, 7] {
            s.add_file(Some(&mono(n))).unwrap();
        }
        let b = s.generate_ot_file(evenly).unwrap();
        let sum: u32 = b.slices.iter().map(|x| x.length).sum();
        assert_eq!(sum, 317);
    }
}

#[test]
fn slices_are_contiguous_in_both_modes() {
    for evenly in [false, true] {
        let mut s = Slicer::default();
        for n in [10usize, 300, 7] {
            s.add_file(Some(&mono(n))).unwrap();
        }
        let b = s.generate_ot_file(evenly).unwrap();
        for i in 0..2 {
            let w = if evenly { 300 } else { b.slices[i].length };
            assert_eq!(b.slices[i + 1].start_point, b.slices[i].start_point + w);
        }
    }
}

#[test]
fn sixty_fifth_admission_is_refused() {
    let mut s = Slicer::default();
    let one = mono(1);
    for _ in 0..64 {
        assert_eq!(s.add_file(Some(&one)), Ok(()));
    }
    assert_eq!(s.add_file(Some(&one)), Err(SliceError::CapacityExceeded));
    assert_eq!(s.pending_count(), 64);
    let b = s.generate_ot_file(false).unwrap();
    assert_eq!(b.slices.len(), 64);
    assert_eq!(b.slices[63].start_point, 63);
}

#[test]
fn capacity_counts_placed_slices() {
    let placed = vec![OTSlice { loop_point: 1, start_point: 0, length: 1 }; 64];
    let mut s = Slicer::new(placed, 44100, 124);
    assert_eq!(s.add_file(Some(&mono(1))), Err(SliceError::CapacityExceeded));
    assert_eq!(s.pending_count(), 0);
}

#[test]
fn stereo_or_wrong_rate_is_refused() {
    let mut s = Slicer::default();
    assert_eq!(s.add_file(Some(&wav_bytes(2, 44100, 16, 10))), Err(SliceError::FormatMismatch));
    assert_eq!(s.add_file(Some(&wav_bytes(1, 48000, 16, 10))), Err(SliceError::FormatMismatch));
    assert_eq!(s.add_file(Some(&wav_bytes(1, 44100, 24, 10))), Err(SliceError::FormatMismatch));
    assert_eq!(s.pending_count(), 0);
    assert_eq!(s.max_file_length(), 0);
}

#[test]
fn missing_and_undecodable_files() {
    let mut s = Slicer::default();
    assert_eq!(s.add_file(None), Err(SliceError::NotFound));
    assert_eq!(s.add_file(Some(b"not a wav file")), Err(SliceError::DecodeError));
    let mut truncated = mono(100);
    truncated.truncate(truncated.len() - 11);
    assert_eq!(s.add_file(Some(&truncated)), Err(SliceError::DecodeError));
    assert_eq!(s.pending_count(), 0);
}

#[test]
fn add_samples_checks_format() {
    let mut s = Slicer::default();
    let good = AudioFormat { channels: 1, sample_rate: 44100, bits_per_sample: 16, is_int: true };
    let float = AudioFormat { is_int: false, ..good };
    assert_eq!(s.add_samples(&float, vec![1, 2]), Err(SliceError::FormatMismatch));
    assert_eq!(s.add_samples(&good, vec![1, 2]), Ok(()));
    assert_eq!(s.add_samples(&good, vec![5]), Ok(()));
    assert_eq!(s.pending_count(), 2);
    assert_eq!(s.max_file_length(), 2);
    assert!(s.accepts(&good));
    assert!(!s.accepts(&float));
}

#[test]
fn generate_resets_state() {
    let mut s = Slicer::new(Vec::new(), 48000, 90);
    s.output_filename = "chain".to_string();
    s.add_file(Some(&wav_bytes(1, 48000, 16, 5))).unwrap();
    let b = s.generate_ot_file(false).unwrap();
    assert_eq!(be32_at(&b.metadata, 23), 90 * 24);
    assert_eq!(s.sample_rate, 44100);
    assert_eq!(s.tempo, 124);
    assert!(s.slices.is_empty());
    assert_eq!(s.pending_count(), 0);
    assert_eq!(s.max_file_length(), 0);
    assert_eq!(s.output_filename, "chain");
    let r = hound::WavReader::new(Cursor::new(b.audio.unwrap().as_slice())).unwrap().spec();
    assert_eq!((r.channels, r.sample_rate, r.bits_per_sample), (1, 48000, 16));
}

#[test]
fn generate_without_inputs_writes_only_metadata() {
    let placed = vec![OTSlice { loop_point: 5, start_point: 0, length: 5 }];
    let mut s = Slicer::new(placed, 44100, 124);
    let b = s.generate_ot_file(false).unwrap();
    assert!(b.audio.is_none());
    assert_eq!(b.total_samples, 0);
    assert_eq!(b.slices.len(), 1);
    assert_eq!(be32_at(&b.metadata, 826), 1);
    assert_eq!(be32_at(&b.metadata, 50), 5);
}

#[test]
fn generate_refuses_out_of_range_settings() {
    let mut s = Slicer::new(Vec::new(), 0, 124);
    assert_eq!(s.generate_ot_file(false).err(), Some(SliceError::OutOfRange));
    let mut t = Slicer::new(Vec::new(), 44100, u32::MAX / 24 + 1);
    assert_eq!(t.generate_ot_file(false).err(), Some(SliceError::OutOfRange));
    assert_eq!(t.tempo, u32::MAX / 24 + 1);
    let mut u = Slicer::new(vec![OTSlice { loop_point: 0, start_point: 0, length: 0 }; 65], 44100, 124);
    assert_eq!(u.generate_ot_file(false).err(), Some(SliceError::CapacityExceeded));
    assert_eq!(u.slices.len(), 65);
}

#[test]
fn no_loop_mode_marks_slices() {
    let mut s = Slicer::default();
    s.loop_mode = LoopMode::NoLoop;
    s.add_file(Some(&mono(8))).unwrap();
    let b = s.generate_ot_file(false).unwrap();
    assert_eq!(b.slices[0].loop_point, NO_LOOP);
    assert_eq!(be32_at(&b.metadata, 66), 0xFFFF_FFFF);
}

#[test]
fn clear_resets_settings() {
    let mut s = Slicer::new(vec![OTSlice { loop_point: 1, start_point: 2, length: 3 }], 22050, 99);
    s.clear();
    assert!(s.slices.is_empty());
    assert_eq!(s.sample_rate, 44100);
    assert_eq!(s.tempo, 124);
    let d = Slicer::default();
    assert_eq!(d.output_filename, "output");
    assert_eq!(d.output_folder, "");
    assert!(!d.stereo);
}

#[test]
fn materialize_pads_when_evenly_spaced() {
    let inputs = vec![vec![1i16, 2], vec![3i16, 4, 5]];
    let (slices, audio) = materialize(&inputs, 3, 10, true, LoopMode::ToLength);
    assert_eq!(audio, vec![1, 2, 0, 3, 4, 5]);
    assert_eq!(slices[0], OTSlice { loop_point: 2, start_point: 10, length: 2 });
    assert_eq!(slices[1], OTSlice { loop_point: 3, start_point: 13, length: 3 });
    let (slices, audio) = materialize(&inputs, 3, 10, false, LoopMode::ToLength);
    assert_eq!(audio, vec![1, 2, 3, 4, 5]);
    assert_eq!(slices[1].start_point, 12);
}

#[test]
fn wav_round_trip_through_batch() {
    let mut s = Slicer::default();
    let input = mono(50);
    s.add_file(Some(&input)).unwrap();
    let b = s.generate_ot_file(false).unwrap();
    let audio = b.audio.unwrap();
    assert_ne!(audio, Vec::<u8>::new());
    assert_eq!(decode(&audio), decode(&input));
}

#[test]
fn evenly_spaced_loop_point_is_length() {
    let mut s = Slicer::default();
    s.loop_mode = LoopMode::NoLoop;
    s.add_file(Some(&mono(3))).unwrap();
    s.add_file(Some(&mono(1))).unwrap();
    let b = s.generate_ot_file(true).unwrap();
    assert_eq!(b.slices[0].loop_point, 3);
    assert_eq!(b.slices[1].loop_point, 1);
    assert_eq!(be32_at(&b.metadata, 66), 3);
}

#[test]
fn audio_rate_beyond_wav_limit_is_refused() {
    let rate = 0x8000_0000u32;
    let mut s = Slicer::new(Vec::new(), rate, 124);
    let f = AudioFormat { channels: 1, sample_rate: rate, bits_per_sample: 16, is_int: true };
    assert_eq!(s.add_samples(&f, vec![1, 2, 3]), Ok(()));
    assert_eq!(s.generate_ot_file(false).err(), Some(SliceError::OutOfRange));
    assert_eq!(s.pending_count(), 1);
    let mut t = Slicer::new(Vec::new(), rate, 124);
    assert!(t.generate_ot_file(false).is_ok());
}

#[test]
fn written_wav_layout() {
    let mut s = Slicer::default();
    let f = AudioFormat { channels: 1, sample_rate: 44100, bits_per_sample: 16, is_int: true };
    s.add_samples(&f, vec![0x0102, -2]).unwrap();
    let audio = s.generate_ot_file(false).unwrap().audio.unwrap();
    let mut expected: Vec<u8> = Vec::new();
    expected.extend_from_slice(b"RIFF");
    expected.extend_from_slice(&40u32.to_le_bytes());
    expected.extend_from_slice(b"WAVEfmt ");
    expected.extend_from_slice(&16u32.to_le_bytes());
    expected.extend_from_slice(&[1, 0, 1, 0]);
    expected.extend_from_slice(&44100u32.to_le_bytes());
    expected.extend_from_slice(&88200u32.to_le_bytes());
    expected.extend_from_slice(&[2, 0, 16, 0]);
    expected.extend_from_slice(b"data");
    expected.extend_from_slice(&4u32.to_le_bytes());
    expected.extend_from_slice(&[0x02, 0x01, 0xFE, 0xFF]);
    assert_eq!(audio, expected);
}
