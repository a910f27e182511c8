//! The `.ot` metadata record: a fixed 832-byte, big-endian layout with 64
//! slice slots and a trailing 16-bit additive checksum.
use vstd::prelude::*;
use crate::bytes::{be16, be32, push_u16, push_u32, lemma_be16_value, lemma_be32_zero};

verus! {

/// One slice: where an input landed inside the concatenated audio.
#[derive(Clone, Copy, Debug, PartialEq, Eq, Structural)]
pub struct OTSlice {
    pub loop_point: u32,
    pub start_point: u32,
    pub length: u32,
}

/// Number of slice slots the record always holds.
pub const SLOT_COUNT: usize = 64;

/// Length in bytes of a complete metadata record.
pub const METADATA_LEN: usize = 832;

/// Offset of the first slot field.
pub const SLOTS_OFFSET: usize = 58;

/// Offset of the slice-count field that follows the last slot.
pub const SLICE_COUNT_OFFSET: usize = 826;

/// The checksum covers every byte from this offset up to the checksum itself.
pub const CHECKSUM_START: usize = 16;

/// The tempo multiplier used for the bar count (not the run's own tempo).
pub const REFERENCE_TEMPO: u64 = 124;

/// Fixed magic/version prefix of every record.
pub open spec fn header_bytes() -> Seq<u8> {
    seq![
        0x46u8, 0x4Fu8, 0x52u8, 0x4Du8, 0x00u8, 0x00u8, 0x00u8, 0x00u8, 0x44u8, 0x50u8, 0x53u8,
        0x31u8, 0x53u8, 0x4Du8, 0x50u8, 0x41u8, 0x00u8, 0x00u8, 0x00u8, 0x00u8, 0x00u8, 0x02u8,
        0x00u8,
    ]
}

/// Sum of the real lengths of the slices.
pub open spec fn total_length(slices: Seq<OTSlice>) -> nat
    decreases slices.len(),
{
    if slices.len() == 0 {
        0
    } else {
        total_length(slices.drop_last()) + slices.last().length as nat
    }
}

/// `round(124 * total / (60 * sample_rate)) * 25`, rounding halves up.
pub open spec fn bar_count(total: nat, sample_rate: nat) -> nat {
    ((REFERENCE_TEMPO * total + 30 * sample_rate) as nat / (60 * sample_rate) as nat) * 25
}

/// The inputs whose every field fits the record.
pub open spec fn encodable(slices: Seq<OTSlice>, sample_rate: u32, tempo: u32) -> bool {
    &&& sample_rate > 0
    &&& slices.len() <= SLOT_COUNT
    &&& tempo * 24 <= u32::MAX
    &&& total_length(slices) <= u32::MAX
    &&& bar_count(total_length(slices), sample_rate as nat) <= u32::MAX
    &&& forall|i: int|
        0 <= i < slices.len() ==> slices[i].start_point + slices[i].length <= u32::MAX
}

/// The twelve bytes of slot `i`: start, end and loop point, or zeros past the last slice.
pub open spec fn slot_bytes(slices: Seq<OTSlice>, i: int) -> Seq<u8> {
    if 0 <= i < slices.len() {
        let s = slices[i];
        be32(s.start_point) + be32((s.start_point + s.length) as u32) + be32(s.loop_point)
    } else {
        be32(0) + be32(0) + be32(0)
    }
}

/// The first `n` slots, in order.
pub open spec fn slots_bytes(slices: Seq<OTSlice>, n: nat) -> Seq<u8>
    decreases n,
{
    if n == 0 {
        Seq::empty()
    } else {
        slots_bytes(slices, (n - 1) as nat) + slot_bytes(slices, n - 1)
    }
}

/// The record up to, and without, its checksum.
pub open spec fn body_bytes(slices: Seq<OTSlice>, sample_rate: u32, tempo: u32) -> Seq<u8> {
    let total = total_length(slices);
    let bars = bar_count(total, sample_rate as nat) as u32;
    header_bytes() + be32((tempo * 24) as u32) + be32(bars) + be32(bars) + be32(0) + be32(0)
        + be16(48) + seq![255u8] + be32(0) + be32(total as u32) + be32(0) + slots_bytes(
        slices,
        SLOT_COUNT as nat,
    ) + be32(slices.len() as u32)
}

/// Sum of the bytes of `b`.
pub open spec fn byte_sum(b: Seq<u8>) -> nat
    decreases b.len(),
{
    if b.len() == 0 {
        0
    } else {
        byte_sum(b.drop_last()) + b.last() as nat
    }
}

/// Sum, modulo 2^16, of every byte of `body` from `CHECKSUM_START` on.
pub open spec fn checksum_of(body: Seq<u8>) -> u16 {
    (byte_sum(body.subrange(CHECKSUM_START as int, body.len() as int)) % 65536) as u16
}

/// The complete metadata record for `slices`.
pub open spec fn metadata_bytes(slices: Seq<OTSlice>, sample_rate: u32, tempo: u32) -> Seq<u8> {
    let body = body_bytes(slices, sample_rate, tempo);
    body + be16(checksum_of(body))
}

/// Sum of the real lengths of `slices`.
pub fn total_samples(slices: &Vec<OTSlice>) -> (r: u64)
    requires
        slices.len() <= SLOT_COUNT,
    ensures
        r == total_length(slices@),
{
    let mut sum: u64 = 0;
    let mut i: usize = 0;
    while i < slices.len()
        invariant
            i <= slices.len() <= SLOT_COUNT,
            sum == total_length(slices@.subrange(0, i as int)),
            sum <= i * 0xFFFF_FFFF,
        decreases slices.len() - i,
    {
        proof {
            assert(slices@.subrange(0, i + 1).drop_last() =~= slices@.subrange(0, i as int));
        }
        sum = sum + slices[i].length as u64;
        i = i + 1;
    }
    assert(slices@.subrange(0, i as int) =~= slices@);
    sum
}

/// The bar count written as trim and loop length.
pub fn bars_for(total: u64, sample_rate: u32) -> (r: u64)
    requires
        total <= u32::MAX,
        sample_rate > 0,
    ensures
        r == bar_count(total as nat, sample_rate as nat),
{
    let num: u64 = REFERENCE_TEMPO * total + 30 * sample_rate as u64;
    let den: u64 = 60 * sample_rate as u64;
    let q: u64 = num / den;
    assert(q <= num) by (nonlinear_arith)
        requires
            den >= 1,
            q == num / den,
    ;
    q * 25
}

/// Whether every field of the record for these inputs fits its width.
pub fn is_encodable(slices: &Vec<OTSlice>, sample_rate: u32, tempo: u32) -> (r: bool)
    ensures
        r == encodable(slices@, sample_rate, tempo),
{
    if sample_rate == 0 || slices.len() > SLOT_COUNT || tempo as u64 * 24 > u32::MAX as u64 {
        return false;
    }
    let total: u64 = total_samples(slices);
    if total > u32::MAX as u64 || bars_for(total, sample_rate) > u32::MAX as u64 {
        return false;
    }
    let mut i: usize = 0;
    while i < slices.len()
        invariant
            i <= slices.len(),
            forall|j: int| 0 <= j < i ==> slices@[j].start_point + slices@[j].length <= u32::MAX,
        decreases slices.len() - i,
    {
        if slices[i].start_point as u64 + slices[i].length as u64 > u32::MAX as u64 {
            return false;
        }
        i = i + 1;
    }
    true
}

/// Sum, modulo 2^16, of the bytes of `buf` from `CHECKSUM_START` on.
fn checksum(buf: &Vec<u8>) -> (r: u16)
    requires
        CHECKSUM_START <= buf.len() <= 4096,
    ensures
        r == checksum_of(buf@),
{
    let mut sum: u32 = 0;
    let mut i: usize = CHECKSUM_START;
    while i < buf.len()
        invariant
            CHECKSUM_START <= i <= buf.len() <= 4096,
            sum == byte_sum(buf@.subrange(CHECKSUM_START as int, i as int)),
            sum <= 255 * i,
        decreases buf.len() - i,
    {
        proof {
            assert(buf@.subrange(CHECKSUM_START as int, i + 1).drop_last() =~= buf@.subrange(
                CHECKSUM_START as int,
                i as int,
            ));
        }
        sum = sum + buf[i] as u32;
        i = i + 1;
    }
    (sum % 65536) as u16
}

/// Encodes the metadata record for `slices` at the given sample rate and tempo.
pub fn encode(slices: &Vec<OTSlice>, sample_rate: u32, tempo: u32) -> (r: Vec<u8>)
    requires
        encodable(slices@, sample_rate, tempo),
    ensures
        r@ == metadata_bytes(slices@, sample_rate, tempo),
        r@.len() == METADATA_LEN,
{
    let mut buf: Vec<u8> = vec![
        0x46, 0x4F, 0x52, 0x4D, 0x00, 0x00, 0x00, 0x00, 0x44, 0x50, 0x53, 0x31, 0x53, 0x4D,
        0x50, 0x41, 0x00, 0x00, 0x00, 0x00, 0x00, 0x02, 0x00,
    ];
    assert(buf@ =~= header_bytes());
    let total: u64 = total_samples(slices);
    let bars: u32 = bars_for(total, sample_rate) as u32;
    push_u32(&mut buf, tempo * 24);
    push_u32(&mut buf, bars);
    push_u32(&mut buf, bars);
    push_u32(&mut buf, 0);
    push_u32(&mut buf, 0);
    push_u16(&mut buf, 48);
    buf.push(255);
    push_u32(&mut buf, 0);
    push_u32(&mut buf, total as u32);
    push_u32(&mut buf, 0);
    let ghost prefix = buf@;
    assert(prefix.len() == SLOTS_OFFSET);
    let mut i: usize = 0;
    while i < SLOT_COUNT
        invariant
            i <= SLOT_COUNT,
            encodable(slices@, sample_rate, tempo),
            buf@ == prefix + slots_bytes(slices@, i as nat),
            buf@.len() == SLOTS_OFFSET + 12 * i,
        decreases SLOT_COUNT - i,
    {
        let ghost before = buf@;
        if i < slices.len() {
            let s = slices[i];
            push_u32(&mut buf, s.start_point);
            push_u32(&mut buf, s.start_point + s.length);
            push_u32(&mut buf, s.loop_point);
        } else {
            push_u32(&mut buf, 0);
            push_u32(&mut buf, 0);
            push_u32(&mut buf, 0);
        }
        assert(buf@ =~= prefix + slots_bytes(slices@, (i + 1) as nat)) by {
            assert(buf@ =~= before + slot_bytes(slices@, i as int));
        }
        i = i + 1;
    }
    push_u32(&mut buf, slices.len() as u32);
    assert(buf@ =~= body_bytes(slices@, sample_rate, tempo));
    let sum = checksum(&buf);
    push_u16(&mut buf, sum);
    buf
}

/// The first `n` slots take twelve bytes each.
pub proof fn lemma_slots_len(slices: Seq<OTSlice>, n: nat)
    ensures
        slots_bytes(slices, n).len() == 12 * n,
    decreases n,
{
    if n > 0 {
        lemma_slots_len(slices, (n - 1) as nat);
    }
}

/// Past the bytes of the last slice, every slot byte is zero.
pub proof fn lemma_slots_zero(slices: Seq<OTSlice>, n: nat, k: int)
    requires
        12 * slices.len() <= k < 12 * n,
    ensures
        slots_bytes(slices, n)[k] == 0,
    decreases n,
{
    lemma_slots_len(slices, (n - 1) as nat);
    lemma_be32_zero();
    if k < 12 * (n - 1) {
        lemma_slots_zero(slices, (n - 1) as nat, k);
    } else {
        assert(n - 1 >= slices.len());
    }
}

/// Every record is `METADATA_LEN` bytes long, its body two bytes shorter.
pub proof fn lemma_metadata_len(slices: Seq<OTSlice>, sample_rate: u32, tempo: u32)
    ensures
        body_bytes(slices, sample_rate, tempo).len() == SLICE_COUNT_OFFSET + 4,
        metadata_bytes(slices, sample_rate, tempo).len() == METADATA_LEN,
{
    lemma_slots_len(slices, SLOT_COUNT as nat);
}

/// Encoding is a function of the slices, sample rate and tempo: two records
/// produced from the same inputs are byte-identical.
pub proof fn encode_deterministic(
    slices: Seq<OTSlice>,
    sample_rate: u32,
    tempo: u32,
    first: Seq<u8>,
    second: Seq<u8>,
)
    requires
        first == metadata_bytes(slices, sample_rate, tempo),
        second == metadata_bytes(slices, sample_rate, tempo),
    ensures
        first == second,
{
}

/// The stored checksum, read big-endian from its two bytes, equals the sum
/// modulo 2^16 of every record byte from `CHECKSUM_START` up to the checksum.
pub proof fn checksum_round_trip(slices: Seq<OTSlice>, sample_rate: u32, tempo: u32)
    ensures
        ({
            let b = metadata_bytes(slices, sample_rate, tempo);
            byte_sum(b.subrange(CHECKSUM_START as int, SLICE_COUNT_OFFSET + 4)) % 65536 == b[830]
                as int * 256 + b[831] as int
        }),
{
    let body = body_bytes(slices, sample_rate, tempo);
    let b = metadata_bytes(slices, sample_rate, tempo);
    lemma_metadata_len(slices, sample_rate, tempo);
    assert(b.subrange(CHECKSUM_START as int, 830) =~= body.subrange(
        CHECKSUM_START as int,
        body.len() as int,
    ));
    lemma_be16_value(checksum_of(body));
    assert(b[830] == be16(checksum_of(body))[0]);
    assert(b[831] == be16(checksum_of(body))[1]);
}

/// The slots that no slice occupies are zero-filled: every byte from the end
/// of the last slice's slot up to the slice-count field is zero.
pub proof fn unused_slots_zero(slices: Seq<OTSlice>, sample_rate: u32, tempo: u32, k: int)
    requires
        slices.len() <= SLOT_COUNT,
        SLOTS_OFFSET + 12 * slices.len() <= k < SLICE_COUNT_OFFSET,
    ensures
        metadata_bytes(slices, sample_rate, tempo)[k] == 0,
{
    let body = body_bytes(slices, sample_rate, tempo);
    lemma_metadata_len(slices, sample_rate, tempo);
    lemma_slots_len(slices, SLOT_COUNT as nat);
    lemma_slots_zero(slices, SLOT_COUNT as nat, k - SLOTS_OFFSET);
    let total = total_length(slices);
    let bars = bar_count(total, sample_rate as nat) as u32;
    let prefix = header_bytes() + be32((tempo * 24) as u32) + be32(bars) + be32(bars) + be32(0)
        + be32(0) + be16(48) + seq![255u8] + be32(0) + be32(total as u32) + be32(0);
    assert(prefix.len() == SLOTS_OFFSET);
    assert(body[k] == slots_bytes(slices, SLOT_COUNT as nat)[k - SLOTS_OFFSET]);
}

} // verus!
