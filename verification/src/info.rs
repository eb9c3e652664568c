//! The flags of one architecture, stored in a `bitvec` bit array.

use crate::feat::NUM_FIELDS;
use bitvec::array::BitArray;
use bitvec::order::Lsb0;
use vstd::prelude::*;

verus! {

/// The underlying array storing the architecture info: a `bitvec` bit array
/// over four bytes, which counts the bits of each byte from the least
/// significant one. The verifier does not look inside it.
#[verifier::external_body]
#[derive(Debug)]
pub struct ArchInfoArray {
    bits: BitArray<[u8; 4], Lsb0>,
}

/// The bits that a bit array holds, in the order of their indices.
pub uninterp spec fn array_bits(array: ArchInfoArray) -> Seq<bool>;

/// `BitArray::ZERO`: an array over four bytes has 32 bits, and all of them
/// start cleared.
#[verifier::external_body]
fn zeroed() -> (array: ArchInfoArray)
    ensures
        array_bits(array) == Seq::new(32, |i: int| false),
{
    ArchInfoArray { bits: BitArray::ZERO }
}

/// `BitSlice::set`: writes `value` into the bit at `index` and leaves every
/// other bit as it was. It panics on an index out of bounds, which the
/// precondition excludes.
#[verifier::external_body]
fn set_bit(array: &mut ArchInfoArray, index: usize, value: bool)
    requires
        index < array_bits(*old(array)).len(),
    ensures
        array_bits(*final(array)) == array_bits(*old(array)).update(index as int, value),
{
    array.bits.set(index, value)
}

/// `BitSlice::get` with a single index: the bit at `index`, or `None` if
/// `index` is out of bounds.
#[verifier::external_body]
fn get_bit(array: &ArchInfoArray, index: usize) -> (bit: Option<bool>)
    ensures
        bit == (if index < array_bits(*array).len() {
            Some(array_bits(*array)[index as int])
        } else {
            None
        }),
{
    array.bits.get(index).as_deref().copied()
}

/// `BitSlice::iter_ones`, collected: the index of each bit that is set,
/// from the lowest index to the highest.
#[verifier::external_body]
fn ones(array: &ArchInfoArray) -> (indices: Vec<usize>)
    ensures
        forall|k: int|
            0 <= k < indices@.len() ==> (#[trigger] indices@[k]) < array_bits(*array).len()
                && array_bits(*array)[indices@[k] as int],
        forall|j: int, k: int| 0 <= j < k < indices@.len() ==> indices@[j] < indices@[k],
        forall|i: int|
            0 <= i < array_bits(*array).len() && #[trigger] array_bits(*array)[i]
                ==> indices@.contains(i as usize),
{
    array.bits.iter_ones().collect()
}

/// The information known about an architecture: one flag for each column
/// of the architecture table.
///
/// Its view is the sequence of the `NUM_FIELDS` flags, in column order.
#[derive(Debug)]
pub struct ArchInfo(ArchInfoArray);

impl View for ArchInfo {
    type V = Seq<bool>;

    closed spec fn view(&self) -> Seq<bool> {
        Seq::new(NUM_FIELDS as nat, |i: int| array_bits(self.0)[i])
    }
}

impl ArchInfo {
    /// The array has room for more bits than there are columns; the bits
    /// past the last column stay cleared.
    #[verifier::type_invariant]
    spec fn well_formed(&self) -> bool {
        &&& array_bits(self.0).len() == 32
        &&& forall|i: int| NUM_FIELDS <= i < 32 ==> !(#[trigger] array_bits(self.0)[i])
    }

    /// There is exactly one flag for each column.
    pub proof fn lemma_len(&self)
        ensures
            self@.len() == NUM_FIELDS,
    {
    }

    /// The information with no flag set.
    pub fn new() -> (info: ArchInfo)
        ensures
            info@ == Seq::new(NUM_FIELDS as nat, |i: int| false),
    {
        ArchInfo(zeroed())
    }

    /// The same information with `value` written into the flag of the
    /// column `index`.
    pub fn set(self, index: usize, value: bool) -> (info: ArchInfo)
        requires
            index < NUM_FIELDS,
        ensures
            info@ == self@.update(index as int, value),
    {
        proof {
            use_type_invariant(&self);
        }
        let ArchInfo(mut array) = self;
        set_bit(&mut array, index, value);
        ArchInfo(array)
    }

    /// The flag of the column `index`, if there is such a column.
    pub fn get(&self, index: usize) -> (flag: Option<bool>)
        ensures
            flag == (if index < NUM_FIELDS {
                Some(self@[index as int])
            } else {
                None
            }),
    {
        proof {
            use_type_invariant(self);
        }
        if index < NUM_FIELDS {
            get_bit(&self.0, index)
        } else {
            None
        }
    }

    /// The columns whose flag is set, from the first to the last.
    pub fn iter_ones(&self) -> (columns: Vec<usize>)
        ensures
            forall|k: int|
                0 <= k < columns@.len() ==> (#[trigger] columns@[k]) < NUM_FIELDS
                    && self@[columns@[k] as int],
            forall|j: int, k: int| 0 <= j < k < columns@.len() ==> columns@[j] < columns@[k],
            forall|i: int|
                0 <= i < NUM_FIELDS && #[trigger] self@[i] ==> columns@.contains(i as usize),
    {
        proof {
            use_type_invariant(self);
        }
        let columns = ones(&self.0);
        assert forall|i: int| 0 <= i < NUM_FIELDS && #[trigger] self@[i] implies columns@.contains(
            i as usize,
        ) by {
            assert(array_bits(self.0)[i]);
        }
        columns
    }
}

} // verus!
