//! Materialization of a batch: the slice positions and the concatenated,
//! optionally padded, audio of the admitted inputs.
use vstd::prelude::*;
use crate::metadata::{OTSlice, total_length};

verus! {

/// What a slice's loop point is set to when the batch is not evenly spaced
/// (in an evenly spaced batch it is always the slice's real length).
#[derive(Clone, Copy, Debug, PartialEq, Eq, Structural)]
pub enum LoopMode {
    /// The loop point equals the slice's real length.
    ToLength,
    /// The loop point is the "no loop" marker `NO_LOOP`.
    NoLoop,
}

/// Loop point value that marks a slice without a loop.
pub const NO_LOOP: u32 = 0xFFFF_FFFF;

/// The loop point of a slice of `length` real samples.
pub open spec fn loop_point_for(mode: LoopMode, length: nat) -> u32 {
    match mode {
        LoopMode::ToLength => length as u32,
        LoopMode::NoLoop => NO_LOOP,
    }
}

/// The samples of each input.
pub open spec fn inputs_view(p: Seq<Vec<i16>>) -> Seq<Seq<i16>> {
    p.map_values(|v: Vec<i16>| v@)
}

/// Width that an input of `len` samples takes in the output: the batch's
/// maximum when evenly spaced, else its own length.
pub open spec fn emitted_len(len: nat, max_len: nat, evenly_spaced: bool) -> nat {
    if evenly_spaced {
        max_len
    } else {
        len
    }
}

/// Sum of the emitted widths of the inputs.
pub open spec fn emitted_total(inputs: Seq<Seq<i16>>, max_len: nat, evenly_spaced: bool) -> nat
    decreases inputs.len(),
{
    if inputs.len() == 0 {
        0
    } else {
        emitted_total(inputs.drop_last(), max_len, evenly_spaced) + emitted_len(
            inputs.last().len(),
            max_len,
            evenly_spaced,
        )
    }
}

/// Sum of the real lengths of the inputs.
pub open spec fn real_total(inputs: Seq<Seq<i16>>) -> nat
    decreases inputs.len(),
{
    if inputs.len() == 0 {
        0
    } else {
        real_total(inputs.drop_last()) + inputs.last().len()
    }
}

/// The loop point of a slice of `length` real samples: its length when the
/// batch is evenly spaced, else as `mode` says.
pub open spec fn slice_loop_point(mode: LoopMode, evenly_spaced: bool, length: nat) -> u32 {
    if evenly_spaced {
        length as u32
    } else {
        loop_point_for(mode, length)
    }
}

/// Slice `i` of a batch whose first slice starts at `start`.
pub open spec fn planned_slice(
    inputs: Seq<Seq<i16>>,
    start: nat,
    max_len: nat,
    evenly_spaced: bool,
    mode: LoopMode,
    i: int,
) -> OTSlice {
    OTSlice {
        loop_point: slice_loop_point(mode, evenly_spaced, inputs[i].len()),
        start_point: (start + emitted_total(inputs.subrange(0, i), max_len, evenly_spaced)) as u32,
        length: inputs[i].len() as u32,
    }
}

/// The slices of a batch, one per input, in order.
pub open spec fn planned_slices(
    inputs: Seq<Seq<i16>>,
    start: nat,
    max_len: nat,
    evenly_spaced: bool,
    mode: LoopMode,
) -> Seq<OTSlice> {
    Seq::new(
        inputs.len(),
        |i: int| planned_slice(inputs, start, max_len, evenly_spaced, mode, i),
    )
}

/// An input as written: followed by zeros up to `max_len` when evenly spaced.
pub open spec fn padded(s: Seq<i16>, max_len: nat, evenly_spaced: bool) -> Seq<i16> {
    if evenly_spaced {
        s + Seq::new((max_len - s.len()) as nat, |k: int| 0i16)
    } else {
        s
    }
}

/// The concatenated audio of a batch.
pub open spec fn chained_audio(inputs: Seq<Seq<i16>>, max_len: nat, evenly_spaced: bool) -> Seq<
    i16,
>
    decreases inputs.len(),
{
    if inputs.len() == 0 {
        Seq::empty()
    } else {
        chained_audio(inputs.drop_last(), max_len, evenly_spaced) + padded(
            inputs.last(),
            max_len,
            evenly_spaced,
        )
    }
}

/// No input is longer than `max_len`.
pub open spec fn within_max(inputs: Seq<Seq<i16>>, max_len: nat) -> bool {
    forall|i: int| 0 <= i < inputs.len() ==> #[trigger] inputs[i].len() <= max_len
}

/// The emitted width of a prefix never exceeds that of the whole.
pub proof fn lemma_emitted_prefix(inputs: Seq<Seq<i16>>, max_len: nat, evenly_spaced: bool, i: int)
    requires
        0 <= i <= inputs.len(),
    ensures
        emitted_total(inputs.subrange(0, i), max_len, evenly_spaced) <= emitted_total(
            inputs,
            max_len,
            evenly_spaced,
        ),
    decreases inputs.len(),
{
    if i < inputs.len() {
        assert(inputs.drop_last().subrange(0, i) =~= inputs.subrange(0, i));
        lemma_emitted_prefix(inputs.drop_last(), max_len, evenly_spaced, i);
    } else {
        assert(inputs.subrange(0, i) =~= inputs);
    }
}

/// A real length never exceeds its emitted width, so no input is longer
/// than the emitted width of the batch.
pub proof fn lemma_len_within_emitted(inputs: Seq<Seq<i16>>, max_len: nat, evenly_spaced: bool, i: int)
    requires
        0 <= i < inputs.len(),
        within_max(inputs, max_len),
    ensures
        emitted_total(inputs.subrange(0, i), max_len, evenly_spaced) + inputs[i].len()
            <= emitted_total(inputs, max_len, evenly_spaced),
{
    assert(inputs.subrange(0, i + 1).drop_last() =~= inputs.subrange(0, i));
    assert(inputs.subrange(0, i + 1).last() == inputs[i]);
    lemma_emitted_prefix(inputs, max_len, evenly_spaced, i + 1);
}

/// The chained audio is as long as the emitted width of the batch.
pub proof fn lemma_chained_len(inputs: Seq<Seq<i16>>, max_len: nat, evenly_spaced: bool)
    requires
        within_max(inputs, max_len),
    ensures
        chained_audio(inputs, max_len, evenly_spaced).len() == emitted_total(
            inputs,
            max_len,
            evenly_spaced,
        ),
    decreases inputs.len(),
{
    if inputs.len() > 0 {
        lemma_chained_len(inputs.drop_last(), max_len, evenly_spaced);
    }
}

/// Planning a batch slice by slice: the slices of all but the last input
/// are those planned for that shorter batch.
pub proof fn lemma_planned_drop_last(
    inputs: Seq<Seq<i16>>,
    start: nat,
    max_len: nat,
    evenly_spaced: bool,
    mode: LoopMode,
)
    requires
        inputs.len() > 0,
    ensures
        planned_slices(inputs, start, max_len, evenly_spaced, mode).drop_last() == planned_slices(
            inputs.drop_last(),
            start,
            max_len,
            evenly_spaced,
            mode,
        ),
{
    let a = planned_slices(inputs, start, max_len, evenly_spaced, mode).drop_last();
    let b = planned_slices(inputs.drop_last(), start, max_len, evenly_spaced, mode);
    assert forall|i: int| 0 <= i < b.len() implies a[i] == b[i] by {
        assert(inputs.drop_last().subrange(0, i) =~= inputs.subrange(0, i));
    }
    assert(a =~= b);
}

/// Padding does not change what the slices say: whether or not the batch is
/// evenly spaced, the slice lengths add up to the real lengths of the inputs.
pub proof fn slice_lengths_sum_to_inputs(
    inputs: Seq<Seq<i16>>,
    start: nat,
    max_len: nat,
    evenly_spaced: bool,
    mode: LoopMode,
)
    requires
        forall|i: int| 0 <= i < inputs.len() ==> #[trigger] inputs[i].len() <= u32::MAX,
    ensures
        total_length(planned_slices(inputs, start, max_len, evenly_spaced, mode)) == real_total(
            inputs,
        ),
    decreases inputs.len(),
{
    if inputs.len() > 0 {
        let planned = planned_slices(inputs, start, max_len, evenly_spaced, mode);
        lemma_planned_drop_last(inputs, start, max_len, evenly_spaced, mode);
        assert forall|i: int| 0 <= i < inputs.drop_last().len() implies #[trigger] inputs.drop_last()[i].len() <= u32::MAX by {
            assert(inputs.drop_last()[i] == inputs[i]);
        }
        slice_lengths_sum_to_inputs(inputs.drop_last(), start, max_len, evenly_spaced, mode);
        assert(inputs[inputs.len() - 1].len() <= u32::MAX);
    }
}

/// Each slice starts where the previous one's emitted width ends: the
/// batch's maximum length when evenly spaced, else the previous slice's length.
pub proof fn slices_are_contiguous(
    inputs: Seq<Seq<i16>>,
    start: nat,
    max_len: nat,
    evenly_spaced: bool,
    mode: LoopMode,
    i: int,
)
    requires
        0 <= i,
        i + 1 < inputs.len(),
        within_max(inputs, max_len),
        start + emitted_total(inputs, max_len, evenly_spaced) <= u32::MAX,
    ensures
        ({
            let s = planned_slices(inputs, start, max_len, evenly_spaced, mode);
            s[i + 1].start_point == s[i].start_point + if evenly_spaced {
                max_len
            } else {
                s[i].length as nat
            }
        }),
{
    assert(inputs.subrange(0, i + 1).drop_last() =~= inputs.subrange(0, i));
    assert(inputs.subrange(0, i + 1).last() == inputs[i]);
    lemma_emitted_prefix(inputs, max_len, evenly_spaced, i + 1);
    lemma_len_within_emitted(inputs, max_len, evenly_spaced, i);
}

/// Copies the samples of `src` to the end of `out`.
fn append_samples(out: &mut Vec<i16>, src: &Vec<i16>)
    ensures
        final(out)@ == old(out)@ + src@,
{
    let mut j: usize = 0;
    while j < src.len()
        invariant
            j <= src.len(),
            out@ == old(out)@ + src@.subrange(0, j as int),
        decreases src.len() - j,
    {
        out.push(src[j]);
        j = j + 1;
        assert(out@ =~= old(out)@ + src@.subrange(0, j as int));
    }
    assert(src@.subrange(0, j as int) =~= src@);
}

/// Appends `count` zero samples to `out`.
fn append_silence(out: &mut Vec<i16>, count: usize)
    ensures
        final(out)@ == old(out)@ + Seq::new(count as nat, |k: int| 0i16),
{
    let mut j: usize = 0;
    while j < count
        invariant
            j <= count,
            out@ == old(out)@ + Seq::new(j as nat, |k: int| 0i16),
        decreases count - j,
    {
        out.push(0);
        j = j + 1;
        assert(out@ =~= old(out)@ + Seq::new(j as nat, |k: int| 0i16));
    }
}

/// Lays the inputs out one after another from sample `start`: returns one
/// slice per input and the concatenated audio. When `evenly_spaced`, each
/// input is followed by zeros up to `max_len` and the next slice starts
/// `max_len` samples later; otherwise it starts right after the input.
pub fn materialize(
    inputs: &Vec<Vec<i16>>,
    max_len: usize,
    start: u32,
    evenly_spaced: bool,
    mode: LoopMode,
) -> (r: (Vec<OTSlice>, Vec<i16>))
    requires
        within_max(inputs_view(inputs@), max_len as nat),
        start + emitted_total(inputs_view(inputs@), max_len as nat, evenly_spaced) <= u32::MAX,
    ensures
        r.0@ == planned_slices(inputs_view(inputs@), start as nat, max_len as nat, evenly_spaced, mode),
        r.1@ == chained_audio(inputs_view(inputs@), max_len as nat, evenly_spaced),
        r.1@.len() == emitted_total(inputs_view(inputs@), max_len as nat, evenly_spaced),
        total_length(r.0@) == real_total(inputs_view(inputs@)),
        forall|i: int| 0 <= i < inputs.len() ==> #[trigger] r.0@[i].length == inputs@[i].len(),
        inputs.len() > 0 ==> r.0@[0].start_point == start,
        forall|i: int|
            0 <= i && i + 1 < inputs.len() ==> #[trigger] r.0@[i + 1].start_point
                == r.0@[i].start_point + if evenly_spaced {
                max_len as nat
            } else {
                r.0@[i].length as nat
            },
{
    let ghost view = inputs_view(inputs@);
    let ghost planned = planned_slices(view, start as nat, max_len as nat, evenly_spaced, mode);
    let mut slices: Vec<OTSlice> = Vec::new();
    let mut audio: Vec<i16> = Vec::new();
    let mut cursor: u32 = start;
    let mut i: usize = 0;
    while i < inputs.len()
        invariant
            i <= inputs.len(),
            view == inputs_view(inputs@),
            planned == planned_slices(view, start as nat, max_len as nat, evenly_spaced, mode),
            within_max(view, max_len as nat),
            start + emitted_total(view, max_len as nat, evenly_spaced) <= u32::MAX,
            cursor == start + emitted_total(view.subrange(0, i as int), max_len as nat, evenly_spaced),
            slices@ == planned.subrange(0, i as int),
            audio@ == chained_audio(view.subrange(0, i as int), max_len as nat, evenly_spaced),
        decreases inputs.len() - i,
    {
        let input = &inputs[i];
        assert(view[i as int] == input@);
        proof {
            lemma_len_within_emitted(view, max_len as nat, evenly_spaced, i as int);
            lemma_emitted_prefix(view, max_len as nat, evenly_spaced, i + 1);
            assert(view.subrange(0, i + 1).drop_last() =~= view.subrange(0, i as int));
            assert(view.subrange(0, i + 1).last() == input@);
        }
        let length: u32 = input.len() as u32;
        let loop_point: u32 = if evenly_spaced {
            length
        } else {
            match mode {
                LoopMode::ToLength => length,
                LoopMode::NoLoop => NO_LOOP,
            }
        };
        slices.push(OTSlice { loop_point, start_point: cursor, length });
        append_samples(&mut audio, input);
        if evenly_spaced {
            append_silence(&mut audio, max_len - input.len());
            cursor = cursor + max_len as u32;
        } else {
            cursor = cursor + length;
        }
        i = i + 1;
        assert(slices@ =~= planned.subrange(0, i as int));
    }
    assert(view.subrange(0, i as int) =~= view);
    assert(planned.subrange(0, i as int) =~= planned);
    proof {
        lemma_chained_len(view, max_len as nat, evenly_spaced);
        assert forall|k: int| 0 <= k < view.len() implies #[trigger] view[k].len() <= u32::MAX by {
            lemma_len_within_emitted(view, max_len as nat, evenly_spaced, k);
        }
        slice_lengths_sum_to_inputs(view, start as nat, max_len as nat, evenly_spaced, mode);
        assert forall|k: int| 0 <= k && k + 1 < inputs.len() implies #[trigger] planned[k + 1].start_point
            == planned[k].start_point + if evenly_spaced {
            max_len as nat
        } else {
            planned[k].length as nat
        } by {
            slices_are_contiguous(view, start as nat, max_len as nat, evenly_spaced, mode, k);
        }
        if inputs.len() > 0 {
            assert(view.subrange(0, 0) =~= Seq::<Seq<i16>>::empty());
        }
        assert forall|k: int| 0 <= k < inputs.len() implies #[trigger] planned[k].length == inputs@[k].len() by {
            lemma_len_within_emitted(view, max_len as nat, evenly_spaced, k);
            assert(view[k] == inputs@[k]@);
        }
    }
    (slices, audio)
}

} // verus!
