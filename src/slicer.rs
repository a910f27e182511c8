//! The slice accumulator: admits inputs one by one, then materializes the
//! batch into concatenated audio and its metadata record.
use vstd::prelude::*;
use crate::chain::{
    LoopMode, inputs_view, emitted_total, planned_slices, chained_audio, within_max,
    materialize, lemma_emitted_prefix, lemma_chained_len,
};
use crate::metadata::{OTSlice, SLOT_COUNT, encodable, metadata_bytes, is_encodable, encode};
use crate::wav::{
    AudioFormat, MAX_WAV_SAMPLES, MAX_WAV_RATE, wav_format_of, wav_samples_of, wav_file_bytes, is_mono16,
    read_wav_format, read_wav_samples, write_wav,
};

verus! {

/// Sample rate that a new or reset slicer uses.
pub const DEFAULT_SAMPLE_RATE: u32 = 44100;

/// Tempo, in BPM, that a new or reset slicer uses.
pub const DEFAULT_TEMPO: u32 = 124;

/// Why an input was refused or a batch could not be produced.
#[derive(Clone, Copy, Debug, PartialEq, Eq, Structural)]
pub enum SliceError {
    /// The input file is missing or unreadable.
    NotFound,
    /// The input is not mono 16-bit integer audio at the slicer's sample rate.
    FormatMismatch,
    /// All slice slots are taken.
    CapacityExceeded,
    /// The input's WAV data could not be decoded.
    DecodeError,
    /// The concatenated WAV data could not be encoded.
    WriteError,
    /// A setting or a sample position does not fit the record's fields:
    /// a zero sample rate, a tempo above what 32 bits hold in 1/24 BPM,
    /// a batch longer than 32-bit positions or one WAV file reach, or audio
    /// to write at a rate above `MAX_WAV_RATE`.
    OutOfRange,
}

/// What a successful batch produces.
pub struct Batch {
    /// Every slice of the record, in slot order.
    pub slices: Vec<OTSlice>,
    /// Samples written to the concatenated audio, padding included.
    pub total_samples: u64,
    /// The concatenated WAV file; `None` when the batch had no inputs.
    pub audio: Option<Vec<u8>>,
    /// The `.ot` metadata record.
    pub metadata: Vec<u8>,
}

/// Accumulates inputs into one sample chain for the Octatrack.
pub struct Slicer {
    /// Folder to which the chain's `.wav` and `.ot` files are written.
    pub output_folder: String,
    /// Name of the chain's files, without extension.
    pub output_filename: String,
    /// Sample rate that every input must have and the chain is written at.
    pub sample_rate: u32,
    /// Slices already placed, in slot order.
    pub slices: Vec<OTSlice>,
    /// Stereo output (not supported: the chain is always mono).
    pub stereo: bool,
    /// Tempo of the chain, in BPM.
    pub tempo: u32,
    /// What each new slice's loop point is set to outside evenly spaced
    /// batches (in those it is always the slice's length).
    pub loop_mode: LoopMode,
    pending: Vec<Vec<i16>>,
    max_file_length: usize,
    start_offset: u32,
}

/// The abstract state of a `Slicer`.
pub struct SlicerView {
    pub output_folder: Seq<char>,
    pub output_filename: Seq<char>,
    pub sample_rate: u32,
    pub slices: Seq<OTSlice>,
    pub stereo: bool,
    pub tempo: u32,
    pub loop_mode: LoopMode,
    /// The samples of the admitted inputs not yet placed, in admission order.
    pub pending: Seq<Seq<i16>>,
    /// Length of the longest input admitted since the last batch.
    pub max_len: nat,
    /// Sample position at which the next batch's first slice starts.
    pub cursor: nat,
}

impl SlicerView {
    /// No pending input is longer than the recorded maximum.
    pub open spec fn wf(self) -> bool {
        within_max(self.pending, self.max_len)
    }

    /// Slices placed plus inputs pending: the slots that are spoken for.
    pub open spec fn admitted_count(self) -> nat {
        self.slices.len() + self.pending.len()
    }

    /// Whether a header's (channels, rate, bits, integer) is the format inputs must have.
    pub open spec fn accepts_spec(self, f: (u16, u32, u16, bool)) -> bool {
        f.0 == 1 && f.1 == self.sample_rate && f.2 == 16 && f.3
    }

    /// `new` is `self` with one more input of `samples` admitted.
    pub open spec fn admits(self, new: SlicerView, samples: Seq<i16>) -> bool {
        new == SlicerView {
            pending: self.pending.push(samples),
            max_len: if samples.len() > self.max_len {
                samples.len()
            } else {
                self.max_len
            },
            ..self
        }
    }

    /// The slices of the record that a batch of `self` produces.
    pub open spec fn batch_slices(self, evenly_spaced: bool) -> Seq<OTSlice> {
        self.slices + planned_slices(
            self.pending,
            self.cursor,
            self.max_len,
            evenly_spaced,
            self.loop_mode,
        )
    }

    /// Samples that a batch of `self` writes, padding included.
    pub open spec fn batch_width(self, evenly_spaced: bool) -> nat {
        emitted_total(self.pending, self.max_len, evenly_spaced)
    }

    /// Every position and field of the batch fits its width.
    pub open spec fn batch_fits(self, evenly_spaced: bool) -> bool {
        &&& self.cursor + self.batch_width(evenly_spaced) <= u32::MAX
        &&& self.batch_width(evenly_spaced) <= MAX_WAV_SAMPLES
        &&& self.pending.len() > 0 ==> self.sample_rate <= MAX_WAV_RATE
        &&& encodable(self.batch_slices(evenly_spaced), self.sample_rate, self.tempo)
    }

    /// `self` with no slice placed, and the cursor, sample rate and tempo
    /// back at their defaults.
    pub open spec fn cleared(self) -> SlicerView {
        SlicerView {
            slices: Seq::empty(),
            cursor: 0,
            sample_rate: DEFAULT_SAMPLE_RATE,
            tempo: DEFAULT_TEMPO,
            ..self
        }
    }

    /// `self` after a batch: cleared, with nothing pending.
    pub open spec fn reset(self) -> SlicerView {
        SlicerView { pending: Seq::empty(), max_len: 0, ..self.cleared() }
    }
}

impl View for Slicer {
    type V = SlicerView;

    closed spec fn view(&self) -> SlicerView {
        SlicerView {
            output_folder: self.output_folder@,
            output_filename: self.output_filename@,
            sample_rate: self.sample_rate,
            slices: self.slices@,
            stereo: self.stereo,
            tempo: self.tempo,
            loop_mode: self.loop_mode,
            pending: inputs_view(self.pending@),
            max_len: self.max_file_length as nat,
            cursor: self.start_offset as nat,
        }
    }
}

impl Slicer {
    /// A slicer that starts from `slices`, with the given sample rate and tempo.
    pub fn new(slices: Vec<OTSlice>, sample_rate: u32, tempo: u32) -> (r: Self)
        ensures
            r@.wf(),
            r@.slices == slices@,
            r@.sample_rate == sample_rate,
            r@.tempo == tempo,
            r@.pending.len() == 0,
            r@.max_len == 0,
            r@.cursor == 0,
            r@.loop_mode == LoopMode::ToLength,
            !r@.stereo,
            r@.output_folder == Seq::<char>::empty(),
            r@.output_filename == "output"@,
    {
        let r = Self {
            output_folder: String::new(),
            output_filename: "output".to_owned(),
            sample_rate,
            slices,
            stereo: false,
            tempo,
            loop_mode: LoopMode::ToLength,
            pending: Vec::new(),
            max_file_length: 0,
            start_offset: 0,
        };
        assert(r@.pending =~= Seq::empty());
        r
    }

    /// An empty slicer at 44100 Hz and 124 BPM.
    pub fn default() -> (r: Self)
        ensures
            r@.wf(),
            r@.slices.len() == 0,
            r@.sample_rate == DEFAULT_SAMPLE_RATE,
            r@.tempo == DEFAULT_TEMPO,
            r@.pending.len() == 0,
            r@.max_len == 0,
            r@.cursor == 0,
            r@.loop_mode == LoopMode::ToLength,
            !r@.stereo,
            r@.output_folder == Seq::<char>::empty(),
            r@.output_filename == "output"@,
    {
        Self::new(Vec::new(), DEFAULT_SAMPLE_RATE, DEFAULT_TEMPO)
    }

    /// Clears the slices and resets the cursor, sample rate and tempo.
    pub fn clear(&mut self)
        ensures
            final(self)@ == old(self)@.cleared(),
    {
        self.slices.clear();
        self.start_offset = 0;
        self.sample_rate = DEFAULT_SAMPLE_RATE;
        self.tempo = DEFAULT_TEMPO;
        assert(self.slices@ =~= Seq::empty());
    }

    /// Number of inputs admitted and not yet placed.
    pub fn pending_count(&self) -> (r: usize)
        ensures
            r == self@.pending.len(),
    {
        self.pending.len()
    }

    /// Length of the longest input admitted since the last batch.
    pub fn max_file_length(&self) -> (r: usize)
        ensures
            r == self@.max_len,
    {
        self.max_file_length
    }

    /// Whether every slot is spoken for, by a placed slice or a pending input.
    pub fn is_full(&self) -> (r: bool)
        ensures
            r == (self@.admitted_count() >= SLOT_COUNT),
    {
        self.slices.len() >= SLOT_COUNT || self.pending.len() >= SLOT_COUNT - self.slices.len()
    }

    /// Whether `format` is the one inputs must have: mono, 16-bit integer
    /// samples at the slicer's sample rate.
    pub fn accepts(&self, format: &AudioFormat) -> (r: bool)
        ensures
            r == (is_mono16(*format) && format.sample_rate == self@.sample_rate),
    {
        format.channels == 1 && format.sample_rate == self.sample_rate && format.bits_per_sample
            == 16 && format.is_int
    }

    /// Admits an input already decoded to `samples` in `format`. Refused,
    /// with the slicer unchanged, when every slot is spoken for or the
    /// format is not the one inputs must have.
    pub fn add_samples(&mut self, format: &AudioFormat, samples: Vec<i16>) -> (r: Result<
        (),
        SliceError,
    >)
        requires
            old(self)@.wf(),
        ensures
            final(self)@.wf(),
            old(self)@.admitted_count() >= SLOT_COUNT ==> r == Err::<(), SliceError>(
                SliceError::CapacityExceeded,
            ),
            old(self)@.admitted_count() < SLOT_COUNT && !(is_mono16(*format) && format.sample_rate
                == old(self)@.sample_rate) ==> r == Err::<(), SliceError>(
                SliceError::FormatMismatch,
            ),
            r is Err ==> final(self)@ == old(self)@,
            r is Ok ==> old(self)@.admits(final(self)@, samples@),
            r is Ok <==> old(self)@.admitted_count() < SLOT_COUNT && is_mono16(*format)
                && format.sample_rate == old(self)@.sample_rate,
    {
        if self.is_full() {
            return Err(SliceError::CapacityExceeded);
        }
        if !self.accepts(format) {
            return Err(SliceError::FormatMismatch);
        }
        if samples.len() > self.max_file_length {
            self.max_file_length = samples.len();
        }
        let ghost before = self.pending@;
        self.pending.push(samples);
        assert(self@.pending =~= old(self)@.pending.push(samples@)) by {
            assert(self.pending@ == before.push(samples));
        }
        Ok(())
    }

    /// Admits the WAV file whose bytes are `contents` (`None`: the file is
    /// missing or unreadable). Checks, in order: a free slot, the file, its
    /// header, its format, its samples; the first that fails gives the error
    /// and leaves the slicer unchanged.
    pub fn add_file(&mut self, contents: Option<&[u8]>) -> (r: Result<(), SliceError>)
        requires
            old(self)@.wf(),
        ensures
            final(self)@.wf(),
            r is Err ==> final(self)@ == old(self)@,
            old(self)@.admitted_count() >= SLOT_COUNT ==> r == Err::<(), SliceError>(
                SliceError::CapacityExceeded,
            ),
            old(self)@.admitted_count() < SLOT_COUNT ==> match contents {
                None => r == Err::<(), SliceError>(SliceError::NotFound),
                Some(b) => match wav_format_of(b@) {
                    None => r == Err::<(), SliceError>(SliceError::DecodeError),
                    Some(f) => if !old(self)@.accepts_spec(f) {
                        r == Err::<(), SliceError>(SliceError::FormatMismatch)
                    } else {
                        match wav_samples_of(b@) {
                            None => r == Err::<(), SliceError>(SliceError::DecodeError),
                            Some(s) => r is Ok && old(self)@.admits(final(self)@, s),
                        }
                    },
                },
            },
    {
        if self.is_full() {
            return Err(SliceError::CapacityExceeded);
        }
        let bytes = match contents {
            None => return Err(SliceError::NotFound),
            Some(b) => b,
        };
        let format = match read_wav_format(bytes) {
            Ok(f) => f,
            Err(_) => return Err(SliceError::DecodeError),
        };
        if !self.accepts(&format) {
            return Err(SliceError::FormatMismatch);
        }
        let samples = match read_wav_samples(bytes) {
            Ok(s) => s,
            Err(_) => return Err(SliceError::DecodeError),
        };
        self.add_samples(&format, samples)
    }

    /// Samples that a batch would write, padding included; `None` when that
    /// exceeds what 32 bits hold.
    fn batch_width_checked(&self, evenly_spaced: bool) -> (r: Option<u64>)
        ensures
            r matches Some(w) ==> w == self@.batch_width(evenly_spaced) && w <= u32::MAX,
            r is None ==> self@.batch_width(evenly_spaced) > u32::MAX,
    {
        let ghost view = self@.pending;
        let ghost max = self@.max_len;
        let mut sum: u64 = 0;
        let mut i: usize = 0;
        while i < self.pending.len()
            invariant
                i <= self.pending.len(),
                view == self@.pending,
                max == self@.max_len,
                sum == emitted_total(view.subrange(0, i as int), max, evenly_spaced),
                sum <= u32::MAX,
            decreases self.pending.len() - i,
        {
            proof {
                assert(view.subrange(0, i + 1).drop_last() =~= view.subrange(0, i as int));
                assert(view.subrange(0, i + 1).last() == self.pending@[i as int]@);
            }
            let e: u64 = if evenly_spaced {
                self.max_file_length as u64
            } else {
                self.pending[i].len() as u64
            };
            if e > u32::MAX as u64 - sum {
                proof {
                    lemma_emitted_prefix(view, max, evenly_spaced, i + 1);
                }
                return None;
            }
            sum = sum + e;
            i = i + 1;
        }
        assert(view.subrange(0, i as int) =~= view);
        Some(sum)
    }

    /// Places the pending inputs as slices after those already placed, and
    /// produces the concatenated audio and the metadata record. When
    /// `evenly_spaced`, every input is padded with zeros to the longest one,
    /// so the slices start on a uniform grid; each slice's length is still
    /// its input's real length. On success the slicer is reset: nothing
    /// placed or pending, the cursor, sample rate and tempo at their
    /// defaults. On failure it is unchanged.
    pub fn generate_ot_file(&mut self, evenly_spaced: bool) -> (r: Result<Batch, SliceError>)
        requires
            old(self)@.wf(),
        ensures
            final(self)@.wf(),
            r is Err ==> final(self)@ == old(self)@,
            old(self)@.admitted_count() > SLOT_COUNT ==> r == Err::<Batch, SliceError>(
                SliceError::CapacityExceeded,
            ),
            old(self)@.admitted_count() <= SLOT_COUNT && !old(self)@.batch_fits(evenly_spaced)
                ==> r == Err::<Batch, SliceError>(SliceError::OutOfRange),
            old(self)@.admitted_count() <= SLOT_COUNT && old(self)@.batch_fits(evenly_spaced)
                ==> r is Ok,
            r is Ok ==> final(self)@ == old(self)@.reset(),
            r matches Ok(b) ==> b.slices@ == old(self)@.batch_slices(evenly_spaced),
            r matches Ok(b) ==> b.metadata@ == metadata_bytes(
                old(self)@.batch_slices(evenly_spaced),
                old(self)@.sample_rate,
                old(self)@.tempo,
            ),
            r matches Ok(b) ==> b.total_samples == old(self)@.batch_width(evenly_spaced),
            r matches Ok(b) ==> (b.audio is None <==> old(self)@.pending.len() == 0),
            r matches Ok(b) ==> (b.audio matches Some(a) ==> a@ == wav_file_bytes(
                old(self)@.sample_rate,
                chained_audio(old(self)@.pending, old(self)@.max_len, evenly_spaced),
            )),
    {
        if self.slices.len() > SLOT_COUNT || self.pending.len() > SLOT_COUNT - self.slices.len() {
            return Err(SliceError::CapacityExceeded);
        }
        let width = match self.batch_width_checked(evenly_spaced) {
            None => return Err(SliceError::OutOfRange),
            Some(w) => w,
        };
        if width > u32::MAX as u64 - self.start_offset as u64 || width > MAX_WAV_SAMPLES as u64 {
            return Err(SliceError::OutOfRange);
        }
        if self.pending.len() > 0 && self.sample_rate > MAX_WAV_RATE {
            return Err(SliceError::OutOfRange);
        }
        let (placed, audio) = materialize(
            &self.pending,
            self.max_file_length,
            self.start_offset,
            evenly_spaced,
            self.loop_mode,
        );
        let all = concat_slices(&self.slices, &placed);
        if !is_encodable(&all, self.sample_rate, self.tempo) {
            return Err(SliceError::OutOfRange);
        }
        let audio_file = if self.pending.len() == 0 {
            None
        } else {
            let format = AudioFormat {
                channels: 1,
                sample_rate: self.sample_rate,
                bits_per_sample: 16,
                is_int: true,
            };
            proof {
                lemma_chained_len(self@.pending, self@.max_len, evenly_spaced);
            }
            match write_wav(&format, &audio) {
                Ok(b) => Some(b),
                Err(_) => return Err(SliceError::WriteError),
            }
        };
        let metadata = encode(&all, self.sample_rate, self.tempo);
        self.pending = Vec::new();
        self.max_file_length = 0;
        self.clear();
        assert(self@.pending =~= Seq::empty());
        Ok(Batch { slices: all, total_samples: width, audio: audio_file, metadata })
    }
}

/// The slices of `a` followed by those of `b`.
fn concat_slices(a: &Vec<OTSlice>, b: &Vec<OTSlice>) -> (r: Vec<OTSlice>)
    ensures
        r@ == a@ + b@,
{
    let mut r: Vec<OTSlice> = Vec::new();
    let mut i: usize = 0;
    while i < a.len()
        invariant
            i <= a.len(),
            r@ == a@.subrange(0, i as int),
        decreases a.len() - i,
    {
        r.push(a[i]);
        i = i + 1;
        assert(r@ =~= a@.subrange(0, i as int));
    }
    let mut j: usize = 0;
    while j < b.len()
        invariant
            j <= b.len(),
            r@ == a@ + b@.subrange(0, j as int),
        decreases b.len() - j,
    {
        r.push(b[j]);
        j = j + 1;
        assert(r@ =~= a@ + b@.subrange(0, j as int));
    }
    assert(r@ =~= a@ + b@);
    r
}

} // verus!
