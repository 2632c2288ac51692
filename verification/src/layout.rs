//! Uniform blocks: the fields a shader declares, where each one lies, and the
//! buffer image that carries their values.
//!
//! A three-component vector occupies a 16-byte slot when another field
//! follows it, a matrix occupies four such slots, and a scalar occupies four
//! bytes.  No padding follows the last field of a block.

use vstd::prelude::*;
use crate::words::{le_image, pack_words};

verus! {

/// The type of one field of a uniform block.
#[derive(Clone, Copy, Debug, PartialEq, Eq, Structural)]
pub enum FieldKind {
    /// One 32-bit value.
    Scalar,
    /// Three 32-bit values.
    Vec3,
    /// A 4x4 matrix of 32-bit values, column after column.
    Mat4,
}

/// Why a uniform block or its image was refused.
#[derive(Clone, Copy, Debug, PartialEq, Eq, Structural)]
pub enum LayoutError {
    /// The block has no field.
    Empty,
    /// A vector or a matrix would not start on a 16-byte boundary.
    Misaligned,
    /// The block does not fit in a 32-bit size.
    TooLarge,
    /// The number of values differs from what the fields hold.
    ValueCount,
}

impl FieldKind {
    /// The number of 32-bit values the field holds.
    pub open spec fn spec_words(self) -> nat {
        match self {
            FieldKind::Scalar => 1,
            FieldKind::Vec3 => 3,
            FieldKind::Mat4 => 16,
        }
    }

    /// The number of 32-bit words the field occupies when another follows.
    pub open spec fn spec_slot(self) -> nat {
        match self {
            FieldKind::Scalar => 1,
            FieldKind::Vec3 => 4,
            FieldKind::Mat4 => 16,
        }
    }

    /// The byte boundary on which the field must start.
    pub open spec fn spec_align(self) -> nat {
        match self {
            FieldKind::Scalar => 4,
            FieldKind::Vec3 => 16,
            FieldKind::Mat4 => 16,
        }
    }

    pub fn words(self) -> (n: usize)
        ensures
            n == self.spec_words(),
    {
        match self {
            FieldKind::Scalar => 1,
            FieldKind::Vec3 => 3,
            FieldKind::Mat4 => 16,
        }
    }

    pub fn slot(self) -> (n: usize)
        ensures
            n == self.spec_slot(),
    {
        match self {
            FieldKind::Scalar => 1,
            FieldKind::Vec3 => 4,
            FieldKind::Mat4 => 16,
        }
    }

    pub fn align(self) -> (n: u32)
        ensures
            n == self.spec_align(),
    {
        match self {
            FieldKind::Scalar => 4,
            FieldKind::Vec3 => 16,
            FieldKind::Mat4 => 16,
        }
    }
}

/// The number of values that the fields hold together.
pub open spec fn data_words(kinds: Seq<FieldKind>) -> nat
    decreases kinds.len(),
{
    if kinds.len() == 0 {
        0
    } else {
        data_words(kinds.drop_last()) + kinds.last().spec_words()
    }
}

/// The number of words that the fields occupy when another field follows
/// them.
pub open spec fn slot_words(kinds: Seq<FieldKind>) -> nat
    decreases kinds.len(),
{
    if kinds.len() == 0 {
        0
    } else {
        slot_words(kinds.drop_last()) + kinds.last().spec_slot()
    }
}

/// The byte offset of field `i`.
pub open spec fn field_offset(kinds: Seq<FieldKind>, i: int) -> nat {
    4 * slot_words(kinds.take(i))
}

/// The size of the block in bytes.
pub open spec fn block_size(kinds: Seq<FieldKind>) -> nat {
    if kinds.len() == 0 {
        0
    } else {
        4 * (slot_words(kinds.drop_last()) + kinds.last().spec_words())
    }
}

/// Each of the first `n` fields starts on its boundary.
pub open spec fn aligned_upto(kinds: Seq<FieldKind>, n: int) -> bool {
    forall|i: int|
        0 <= i < n ==> #[trigger] field_offset(kinds, i) % kinds[i].spec_align() == 0
}

/// Every field starts on its boundary.
pub open spec fn aligned(kinds: Seq<FieldKind>) -> bool {
    aligned_upto(kinds, kinds.len() as int)
}

/// What is wrong with a block of these fields, if anything.
pub open spec fn layout_fault(kinds: Seq<FieldKind>) -> Option<LayoutError> {
    if kinds.len() == 0 {
        Some(LayoutError::Empty)
    } else if !aligned(kinds) {
        Some(LayoutError::Misaligned)
    } else if block_size(kinds) > u32::MAX {
        Some(LayoutError::TooLarge)
    } else {
        None
    }
}

/// The words of one field followed by the padding that fills its slot.
pub open spec fn slot_image(kind: FieldKind, data: Seq<u32>) -> Seq<u32> {
    data + Seq::new((kind.spec_slot() - kind.spec_words()) as nat, |i: int| 0u32)
}

/// The values of field `i` among `values`.
pub open spec fn field_values(kinds: Seq<FieldKind>, values: Seq<u32>, i: int) -> Seq<u32> {
    values.subrange(data_words(kinds.take(i)) as int, data_words(kinds.take(i + 1)) as int)
}

/// The image of the fields, each one filling its slot.
pub open spec fn padded_image(kinds: Seq<FieldKind>, values: Seq<u32>) -> Seq<u32>
    decreases kinds.len(),
{
    if kinds.len() == 0 {
        Seq::empty()
    } else {
        padded_image(kinds.drop_last(), values) + slot_image(
            kinds.last(),
            field_values(kinds, values, kinds.len() - 1),
        )
    }
}

/// The image of a block: every field but the last fills its slot, the last
/// is followed by nothing.
pub open spec fn block_image(kinds: Seq<FieldKind>, values: Seq<u32>) -> Seq<u32> {
    if kinds.len() == 0 {
        Seq::empty()
    } else {
        padded_image(kinds.drop_last(), values) + field_values(kinds, values, kinds.len() - 1)
    }
}

/// A longer list of fields occupies no less and holds no fewer values, and
/// no list holds more values than it occupies words.
pub proof fn lemma_slot_words_monotone(kinds: Seq<FieldKind>, i: int, j: int)
    requires
        0 <= i <= j <= kinds.len(),
    ensures
        slot_words(kinds.take(i)) <= slot_words(kinds.take(j)),
        slot_words(kinds.take(j)) <= slot_words(kinds.take(i)) + 16 * (j - i),
        data_words(kinds.take(i)) <= data_words(kinds.take(j)),
        data_words(kinds.take(j)) <= slot_words(kinds.take(j)),
    decreases j,
{
    if j == 0 {
        assert(kinds.take(0).len() == 0);
    } else {
        assert(kinds.take(j).drop_last() =~= kinds.take(j - 1));
        if i < j {
            lemma_slot_words_monotone(kinds, i, j - 1);
        } else {
            lemma_slot_words_monotone(kinds, i - 1, j - 1);
            assert(kinds.take(i).drop_last() =~= kinds.take(i - 1));
        }
    }
}

/// What one more field adds to a list of fields.
pub proof fn lemma_push_field(kinds: Seq<FieldKind>, kind: FieldKind, values: Seq<u32>)
    ensures
        data_words(kinds.push(kind)) == data_words(kinds) + kind.spec_words(),
        slot_words(kinds.push(kind)) == slot_words(kinds) + kind.spec_slot(),
        field_offset(kinds.push(kind), kinds.len() as int) == 4 * slot_words(kinds),
        block_size(kinds.push(kind)) == 4 * (slot_words(kinds) + kind.spec_words()),
        field_values(kinds.push(kind), values, kinds.len() as int) == values.subrange(
            data_words(kinds) as int,
            (data_words(kinds) + kind.spec_words()) as int,
        ),
        padded_image(kinds.push(kind), values) == padded_image(kinds, values) + slot_image(
            kind,
            field_values(kinds.push(kind), values, kinds.len() as int),
        ),
        block_image(kinds.push(kind), values) == padded_image(kinds, values) + field_values(
            kinds.push(kind),
            values,
            kinds.len() as int,
        ),
{
    let more = kinds.push(kind);
    assert(more.drop_last() =~= kinds);
    assert(more.take(kinds.len() as int) =~= kinds);
    assert(more.take(more.len() as int) =~= more);
}

/// A uniform block whose fields have been placed.
#[derive(Clone, Debug, PartialEq, Eq)]
pub struct BlockLayout {
    /// The fields, in the order of their declaration.
    pub kinds: Vec<FieldKind>,
    /// The byte offset of each field.
    pub offsets: Vec<u32>,
    /// The size of the block in bytes.
    pub size: u32,
}

impl BlockLayout {
    /// The offsets and the size are those that the fields call for, and the
    /// fields can be laid out at all.
    pub open spec fn wf(&self) -> bool {
        &&& layout_fault(self.kinds@) is None
        &&& self.offsets@.len() == self.kinds@.len()
        &&& forall|i: int|
            0 <= i < self.kinds@.len() ==> #[trigger] self.offsets@[i] == field_offset(
                self.kinds@,
                i,
            )
        &&& self.size == block_size(self.kinds@)
    }

    /// Places the fields one after another.
    pub fn new(kinds: Vec<FieldKind>) -> (r: Result<BlockLayout, LayoutError>)
        ensures
            r is Ok <==> layout_fault(kinds@) is None,
            r matches Err(e) ==> layout_fault(kinds@) == Some(e),
            r matches Ok(l) ==> l.wf() && l.kinds@ == kinds@,
    {
        let n: usize = kinds.len();
        if n == 0 {
            return Err(LayoutError::Empty);
        }
        let mut offsets: Vec<u32> = Vec::new();
        let mut at: u128 = 0;
        let mut ok: bool = true;
        let mut i: usize = 0;
        while i < n
            invariant
                n == kinds.len(),
                i <= n,
                at == 4 * slot_words(kinds@.take(i as int)),
                at <= 64 * i,
                ok <==> aligned_upto(kinds@, i as int),
                offsets@.len() == i,
                forall|j: int|
                    0 <= j < i && field_offset(kinds@, j) <= u32::MAX ==> #[trigger] offsets@[j]
                        == field_offset(kinds@, j),
            decreases n - i,
        {
            let kind: FieldKind = kinds[i];
            proof {
                assert(at == field_offset(kinds@, i as int));
                assert(aligned_upto(kinds@, i + 1) <==> aligned_upto(kinds@, i as int)
                    && field_offset(kinds@, i as int) % kinds@[i as int].spec_align() == 0);
            }
            if at % (kind.align() as u128) != 0 {
                ok = false;
            }
            let off: u32 = if at <= 0xffff_ffff {
                at as u32
            } else {
                0
            };
            offsets.push(off);
            proof {
                assert(kinds@.take(i + 1).drop_last() =~= kinds@.take(i as int));
                assert(kinds@.take(i + 1).last() == kind);
            }
            at = at + 4 * (kind.slot() as u128);
            i += 1;
        }
        let last: FieldKind = kinds[n - 1];
        proof {
            assert(kinds@.take(n as int) =~= kinds@);
        }
        let size: u128 = at - 4 * (last.slot() as u128) + 4 * (last.words() as u128);
        if !ok {
            return Err(LayoutError::Misaligned);
        }
        if size > 0xffff_ffff {
            return Err(LayoutError::TooLarge);
        }
        proof {
            assert forall|j: int| 0 <= j < n implies #[trigger] offsets@[j] == field_offset(
                kinds@,
                j,
            ) by {
                lemma_slot_words_monotone(kinds@, j, n - 1);
                assert(kinds@.take(n - 1) =~= kinds@.drop_last());
            }
        }
        Ok(BlockLayout { kinds, offsets, size: size as u32 })
    }

    /// The word image of the block that holds `values`, field after field.
    pub fn arrange(&self, values: &[u32]) -> (r: Result<Vec<u32>, LayoutError>)
        ensures
            r is Ok <==> values@.len() == data_words(self.kinds@),
            r matches Ok(w) ==> w@ == block_image(self.kinds@, values@),
            r matches Err(e) ==> e == LayoutError::ValueCount,
    {
        let n: usize = self.kinds.len();
        let ghost kinds = self.kinds@;
        let mut out: Vec<u32> = Vec::new();
        if n == 0 {
            if values.len() != 0 {
                return Err(LayoutError::ValueCount);
            }
            return Ok(out);
        }
        let mut cursor: usize = 0;
        let mut i: usize = 0;
        while i + 1 < n
            invariant
                kinds == self.kinds@,
                n == kinds.len(),
                n > 0,
                i < n,
                cursor == data_words(kinds.take(i as int)),
                cursor <= values@.len(),
                out@ == padded_image(kinds.take(i as int), values@),
            decreases n - i,
        {
            let kind: FieldKind = self.kinds[i];
            let count: usize = kind.words();
            proof {
                assert(kinds.take(i + 1).drop_last() =~= kinds.take(i as int));
                assert(kinds.take(i + 1).take(i as int) =~= kinds.take(i as int));
                assert(kinds.take(i + 1).take(i + 1) =~= kinds.take(i + 1));
                assert(kinds.take(i + 1).last() == kind);
                lemma_slot_words_monotone(kinds, i + 1, n as int);
                assert(kinds.take(n as int) =~= kinds);
            }
            if values.len() - cursor < count {
                return Err(LayoutError::ValueCount);
            }
            push_values(&mut out, values, cursor, count);
            push_zeros(&mut out, kind.slot() - count);
            cursor += count;
            i += 1;
        }
        let kind: FieldKind = self.kinds[i];
        let count: usize = kind.words();
        proof {
            assert(kinds.take(i as int) =~= kinds.drop_last());
            assert(kinds.take(i + 1) =~= kinds);
        }
        if values.len() - cursor != count {
            return Err(LayoutError::ValueCount);
        }
        push_values(&mut out, values, cursor, count);
        Ok(out)
    }

    /// The bytes of the buffer that holds `values` in this block.
    pub fn pack(&self, values: &[u32]) -> (r: Result<Vec<u8>, LayoutError>)
        ensures
            r is Ok <==> values@.len() == data_words(self.kinds@),
            r matches Ok(b) ==> b@ == le_image(block_image(self.kinds@, values@)),
            r matches Err(e) ==> e == LayoutError::ValueCount,
    {
        match self.arrange(values) {
            Err(e) => Err(e),
            Ok(image) => Ok(pack_words(image.as_slice())),
        }
    }
}

/// Appends `count` of `values`, starting at `from`.
fn push_values(out: &mut Vec<u32>, values: &[u32], from: usize, count: usize)
    requires
        from + count <= values@.len(),
    ensures
        final(out)@ == old(out)@ + values@.subrange(from as int, from + count),
{
    let mut k: usize = 0;
    while k < count
        invariant
            k <= count,
            from + count <= values@.len() == values.len(),
            out@ == old(out)@ + values@.subrange(from as int, from + k),
        decreases count - k,
    {
        out.push(values[from + k]);
        assert(out@ =~= old(out)@ + values@.subrange(from as int, from + k + 1));
        k += 1;
    }
}

/// Appends `count` zero words.
fn push_zeros(out: &mut Vec<u32>, count: usize)
    ensures
        final(out)@ == old(out)@ + Seq::new(count as nat, |i: int| 0u32),
{
    let mut k: usize = 0;
    while k < count
        invariant
            k <= count,
            out@ == old(out)@ + Seq::new(k as nat, |i: int| 0u32),
        decreases count - k,
    {
        out.push(0);
        assert(out@ =~= old(out)@ + Seq::new((k + 1) as nat, |i: int| 0u32));
        k += 1;
    }
}

} // verus!
