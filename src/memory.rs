//! What the library assumes of collenchyma's native memory.
use vstd::prelude::*;

use collenchyma::frameworks::native::flatbox::FlatBox;
use collenchyma::device::DeviceType;
use collenchyma::memory::MemoryType;
use collenchyma::tensor::SharedTensor;

verus! {

#[verifier::external_type_specification]
#[verifier::external_body]
pub struct ExFlatBox(FlatBox);

/// The contents of a native memory block, read as a slice of 32-bit words.
pub uninterp spec fn box_words(b: FlatBox) -> Seq<u32>;

/// Relies on FlatBox::byte_size: the block's length in bytes, of which every
/// four make one word of `as_slice::<u32>()`.
pub assume_specification[ FlatBox::byte_size ](b: &FlatBox) -> (r: usize)
    ensures
        r / 4 == box_words(*b).len(),
;

/// Relies on FlatBox::as_mut_slice: a mutable view of the whole block as
/// 32-bit words; what is written through it is what the block holds after.
/// An empty block is left out: its pointer is that of an empty byte
/// allocation, not aligned for words. A non-empty block comes from the system
/// allocator, whose blocks are aligned for words.
#[verifier::external_body]
pub(crate) fn words_mut(b: &mut FlatBox) -> (s: &mut [u32])
    requires
        box_words(*old(b)).len() > 0,
    ensures
        s@ == box_words(*old(b)),
        box_words(*final(b)) == final(s)@,
{
    b.as_mut_slice::<u32>()
}

#[verifier::external_type_specification]
#[verifier::external_body]
pub struct ExMemoryType(MemoryType);

/// The contents of a memory region, read as 32-bit words.
pub uninterp spec fn memory_words(m: MemoryType) -> Seq<u32>;

/// Relies on MemoryType having the single variant `Native`, as collenchyma is
/// built with its native framework alone: the region is that block.
#[verifier::external_body]
pub(crate) fn native_mut(m: &mut MemoryType) -> (b: &mut FlatBox)
    ensures
        box_words(*b) == memory_words(*old(m)),
        memory_words(*final(m)) == box_words(*final(b)),
{
    match m {
        MemoryType::Native(b) => b,
    }
}

#[verifier::external_type_specification]
#[verifier::external_body]
pub struct ExDeviceType(DeviceType);

#[verifier::external_type_specification]
#[verifier::external_body]
#[verifier::reject_recursive_types(T)]
pub struct ExSharedTensor<T>(SharedTensor<T>);

/// The words held by a tensor's copy on its latest device.
pub uninterp spec fn tensor_words(t: SharedTensor<u32>) -> Seq<u32>;

/// The shape a tensor was described with.
pub uninterp spec fn tensor_shape(t: SharedTensor<u32>) -> Seq<usize>;

/// The device that holds a tensor's up-to-date copy.
pub uninterp spec fn tensor_location(t: SharedTensor<u32>) -> DeviceType;

/// The number of elements a shape describes: the product of its dimensions,
/// one for the empty shape.
pub open spec fn shape_size(shape: Seq<usize>) -> nat
    decreases shape.len(),
{
    if shape.len() == 0 {
        1
    } else {
        shape_size(shape.drop_last()) * (shape.last() as nat)
    }
}

/// Every partial product of the shape, counted in bytes of 32-bit words, fits
/// in a `usize`.
pub open spec fn shape_fits(shape: Seq<usize>) -> bool {
    forall|k: int| 0 <= k <= shape.len() ==> #[trigger] shape_size(shape.take(k)) * 4 <= usize::MAX
}

/// Relies on SharedTensor::new: on a native device it allocates a zeroed block
/// of four bytes per element of the shape, places it on that device and keeps
/// the shape as the tensor's descriptor.
#[verifier::external_body]
pub(crate) fn alloc_tensor(dev: &DeviceType, shape: &Vec<usize>) -> (t: SharedTensor<u32>)
    requires
        shape_fits(shape@),
    ensures
        tensor_words(t) == Seq::new(shape_size(shape@), |i: int| 0u32),
        tensor_location(t) == *dev,
        tensor_shape(t) == shape@,
{
    SharedTensor::<u32>::new(dev, shape).unwrap()
}

/// Relies on SharedTensor::get_mut: the copy on the tensor's latest device is
/// always present and is handed out mutably; location and shape stay.
#[verifier::external_body]
pub(crate) fn latest_memory<'a>(t: &'a mut SharedTensor<u32>, dev: &DeviceType) -> (m: &'a mut MemoryType)
    requires
        tensor_location(*old(t)) == *dev,
    ensures
        memory_words(*m) == tensor_words(*old(t)),
        tensor_words(*final(t)) == memory_words(*final(m)),
        tensor_location(*final(t)) == tensor_location(*old(t)),
        tensor_shape(*final(t)) == tensor_shape(*old(t)),
{
    t.get_mut(dev).unwrap()
}

} // verus!
