use vstd::prelude::*;

verus! {

/// The `width` bits of `raw` that start at bit `offset`, moved down to bit 0.
pub open spec fn field(raw: u32, offset: u32, width: u32) -> u32 {
    (raw >> offset) & (0xffff_ffffu32 >> ((32 - width) as u32))
}

/// One bit standing for a flag.
#[verifier::opaque]
pub open spec fn flag(b: bool) -> u32 {
    if b {
        1u32
    } else {
        0u32
    }
}

/// Reads the bit field of `width` bits at `offset`.
pub fn get_field(raw: u32, offset: u32, width: u32) -> (r: u32)
    requires
        1 <= width,
        offset + width <= 32,
    ensures
        r == field(raw, offset, width),
{
    (raw >> offset) & (0xffff_ffffu32 >> (32 - width))
}

/// A flag's bit is 0 or 1.
pub proof fn lemma_flag_bit(b: bool)
    ensures
        flag(b) < 2,
{
    reveal(flag);
}

/// A flag's bit is 1 exactly when the flag is set.
pub proof fn lemma_flag_is_set(b: bool)
    ensures
        (flag(b) == 1) == b,
{
    reveal(flag);
}

/// Reads a one-bit field as a flag.
pub fn get_flag(raw: u32, offset: u32) -> (r: bool)
    requires
        offset < 32,
    ensures
        r == (field(raw, offset, 1) == 1),
{
    get_field(raw, offset, 1) == 1
}

/// The bit of a flag.
pub fn flag_bit(b: bool) -> (r: u32)
    ensures
        r == flag(b),
{
    reveal(flag);
    if b {
        1
    } else {
        0
    }
}

/// Each field starts where the one before it ends, the first at bit 0.
pub open spec fn contiguous(offsets: Seq<u32>, widths: Seq<u32>) -> bool {
    &&& offsets.len() == widths.len()
    &&& offsets.len() > 0
    &&& offsets[0] == 0
    &&& forall|k: int|
        0 <= k < offsets.len() - 1 ==> offsets[k + 1] == offsets[k] + #[trigger] widths[k]
}

/// No two fields share a bit.
pub open spec fn ranges_disjoint(offsets: Seq<u32>, widths: Seq<u32>) -> bool {
    forall|i: int, j: int|
        0 <= i < j < offsets.len() ==> #[trigger] offsets[i] + widths[i] <= #[trigger] offsets[j]
}

/// The sum of all widths.
pub open spec fn width_sum(widths: Seq<u32>) -> int
    decreases widths.len(),
{
    if widths.len() == 0 {
        0
    } else {
        width_sum(widths.drop_last()) + widths.last()
    }
}

/// Where a layout ends: the bit after its last field.
pub open spec fn layout_end(offsets: Seq<u32>, widths: Seq<u32>) -> int {
    offsets.last() + widths.last()
}

proof fn lemma_offset_is_prefix_sum(offsets: Seq<u32>, widths: Seq<u32>, k: int)
    requires
        contiguous(offsets, widths),
        0 <= k < offsets.len(),
    ensures
        offsets[k] == width_sum(widths.take(k)),
    decreases k,
{
    if k > 0 {
        lemma_offset_is_prefix_sum(offsets, widths, k - 1);
        assert(widths.take(k).drop_last() =~= widths.take(k - 1));
        assert(offsets[k] == offsets[k - 1] + widths[k - 1]);
    } else {
        assert(widths.take(0).len() == 0);
    }
}

proof fn lemma_offsets_grow(offsets: Seq<u32>, widths: Seq<u32>, i: int, j: int)
    requires
        contiguous(offsets, widths),
        0 <= i < j < offsets.len(),
    ensures
        offsets[i] + widths[i] <= offsets[j],
    decreases j - i,
{
    if j > i + 1 {
        lemma_offsets_grow(offsets, widths, i, j - 1);
        assert(offsets[j] == offsets[j - 1] + widths[j - 1]);
    } else {
        assert(offsets[i + 1] == offsets[i] + widths[i]);
    }
}

/// A contiguous layout has disjoint fields, and its widths add up to where it ends.
pub proof fn lemma_contiguous_layout(offsets: Seq<u32>, widths: Seq<u32>)
    requires
        contiguous(offsets, widths),
    ensures
        ranges_disjoint(offsets, widths),
        width_sum(widths) == layout_end(offsets, widths),
{
    assert forall|i: int, j: int| 0 <= i < j < offsets.len() implies #[trigger] offsets[i]
        + widths[i] <= #[trigger] offsets[j] by {
        lemma_offsets_grow(offsets, widths, i, j);
    }
    let n = offsets.len() - 1;
    lemma_offset_is_prefix_sum(offsets, widths, n);
    assert(widths.drop_last() =~= widths.take(n));
}

/// The little-endian value of four bytes.
pub open spec fn le32(b: Seq<u8>) -> u32 {
    (b[0] as int + 0x100 * b[1] + 0x1_0000 * b[2] + 0x100_0000 * b[3]) as u32
}

/// The little-endian value of two bytes.
pub open spec fn le16(b: Seq<u8>) -> u16 {
    (b[0] as int + 0x100 * b[1]) as u16
}

/// Reads a little-endian `u32` from exactly four bytes.
pub fn read_le32(b: &[u8]) -> (r: Option<u32>)
    ensures
        r == (if b@.len() == 4 {
            Some(le32(b@))
        } else {
            None::<u32>
        }),
{
    if b.len() != 4 {
        return None;
    }
    let (b0, b1, b2, b3) = (b[0], b[1], b[2], b[3]);
    let v: u32 = (b0 as u32) | ((b1 as u32) << 8) | ((b2 as u32) << 16) | ((b3 as u32) << 24);
    assert(v == (b0 as int + 0x100 * b1 + 0x1_0000 * b2 + 0x100_0000 * b3)) by (bit_vector)
        requires
            v == (b0 as u32) | ((b1 as u32) << 8) | ((b2 as u32) << 16) | ((b3 as u32) << 24),
    ;
    Some(v)
}

/// Reads a little-endian `u16` from exactly two bytes.
pub fn read_le16(b: &[u8]) -> (r: Option<u16>)
    ensures
        r == (if b@.len() == 2 {
            Some(le16(b@))
        } else {
            None::<u16>
        }),
{
    if b.len() != 2 {
        return None;
    }
    let (b0, b1) = (b[0], b[1]);
    let v: u16 = (b0 as u16) | ((b1 as u16) << 8);
    assert(v == (b0 as int + 0x100 * b1)) by (bit_vector)
        requires
            v == (b0 as u16) | ((b1 as u16) << 8),
    ;
    Some(v)
}

} // verus!
