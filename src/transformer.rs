//! The conversion contract and the shape-checked copy into memory.
use vstd::prelude::*;

use collenchyma::frameworks::native::flatbox::FlatBox;
use collenchyma::device::DeviceType;
use collenchyma::memory::MemoryType;
use collenchyma::tensor::SharedTensor;

use crate::memory::{
    alloc_tensor, box_words, latest_memory, memory_words, native_mut, shape_fits, shape_size,
    tensor_location, tensor_shape, tensor_words, words_mut,
};

verus! {

/// The ways in which a conversion can be refused.
#[derive(Debug, Copy, Clone, PartialEq, Eq, Structural)]
pub enum TransformerError {
    /// The capacity given by the shape differs from the length of the flat sequence.
    InvalidShape,
    /// The image's pixel buffer cannot be read as RGB.
    InvalidRgbPixels,
    /// The image's pixel buffer cannot be read as RGBA.
    InvalidRgbaPixels,
    /// The image's pixel buffer cannot be read as greyscale.
    InvalidLumaPixels,
    /// The image's pixel buffer cannot be read as greyscale with alpha.
    InvalidLumaAlphaPixels,
}

/// Copies `data` into a native memory block whose capacity in words equals its
/// length; otherwise fails with `InvalidShape` and leaves the block untouched.
pub fn write_into_native(data: &Vec<u32>, mem: &mut FlatBox) -> (r: Result<(), TransformerError>)
    ensures
        r is Ok <==> box_words(*old(mem)).len() == data@.len(),
        r is Ok ==> box_words(*final(mem)) == data@,
        r is Err ==> r == Err::<(), TransformerError>(TransformerError::InvalidShape),
        r is Err ==> box_words(*final(mem)) == box_words(*old(mem)),
{
    if mem.byte_size() / 4 != data.len() {
        return Err(TransformerError::InvalidShape);
    }
    if data.len() == 0 {
        assert(box_words(*mem) =~= data@);
        return Ok(());
    }
    let buffer = words_mut(mem);
    let n = data.len();
    let mut i: usize = 0;
    while i < n
        invariant
            n == data@.len(),
            buffer@.len() == n,
            i <= n,
            forall|k: int| 0 <= k < i ==> buffer@[k] == data@[k],
        decreases n - i,
    {
        buffer[i] = data[i];
        i = i + 1;
    }
    assert(buffer@ == data@);
    Ok(())
}

/// A value that can be turned into a flat sequence of 32-bit floats, each held
/// as its bit pattern.
///
/// An implementor supplies the flat sequence; checking it against a memory
/// region and copying it in come with the trait.
pub trait Transformer {
    /// The flat sequence this value stands for: a function of its content alone.
    spec fn flat(&self) -> Seq<u32>;

    /// Transforms the value into its flat numeric sequence.
    fn transform_to_vec(&self) -> (r: Vec<u32>)
        ensures
            r@ == self.flat(),
    ;

    /// Writes the flat sequence into a memory region whose capacity in words
    /// equals its length; on any other capacity fails with `InvalidShape` and
    /// writes nothing.
    fn write_into_tensor(&self, mem: &mut MemoryType) -> (r: Result<(), TransformerError>)
        ensures
            r is Ok <==> memory_words(*old(mem)).len() == self.flat().len(),
            r is Ok ==> memory_words(*final(mem)) == self.flat(),
            r is Err ==> r == Err::<(), TransformerError>(TransformerError::InvalidShape),
            r is Err ==> memory_words(*final(mem)) == memory_words(*old(mem)),
    {
        let data = self.transform_to_vec();
        let native = native_mut(mem);
        write_into_native(&data, native)
    }

    /// Builds a tensor of the given shape on `device` and writes the flat
    /// sequence into it; fails with `InvalidShape` when the shape's element
    /// count differs from the sequence's length, and then hands out no tensor.
    fn transform(&self, device: &DeviceType, shape: Vec<usize>) -> (r: Result<SharedTensor<u32>, TransformerError>)
        requires
            shape_fits(shape@),
        ensures
            r is Ok <==> shape_size(shape@) == self.flat().len(),
            r matches Ok(t) ==> tensor_words(t) == self.flat() && tensor_location(t) == *device
                && tensor_shape(t) == shape@,
            r is Err ==> r == Err::<SharedTensor<u32>, TransformerError>(TransformerError::InvalidShape),
    {
        let mut tensor = alloc_tensor(device, &shape);
        let written = self.write_into_tensor(latest_memory(&mut tensor, device));
        match written {
            Ok(_) => Ok(tensor),
            Err(e) => Err(e),
        }
    }
}

/// A sequence that is already numeric stands for itself.
impl Transformer for Vec<u32> {
    open spec fn flat(&self) -> Seq<u32> {
        self@
    }

    fn transform_to_vec(&self) -> (r: Vec<u32>) {
        let mut r: Vec<u32> = Vec::with_capacity(self.len());
        let mut i: usize = 0;
        while i < self.len()
            invariant
                i <= self@.len(),
                r@ == self@.take(i as int),
            decreases self@.len() - i,
        {
            r.push(self[i]);
            i = i + 1;
            assert(r@ =~= self@.take(i as int));
        }
        assert(self@.take(self@.len() as int) =~= self@);
        r
    }
}

/// Producing the flat sequence twice from one value gives the same sequence
/// both times: same length, same elements, same order.
pub proof fn lemma_transform_deterministic<T: Transformer>(value: &T, first: Seq<u32>, second: Seq<u32>)
    requires
        first == value.flat(),
        second == value.flat(),
    ensures
        first.len() == second.len(),
        forall|i: int| 0 <= i < first.len() ==> first[i] == second[i],
{
}

} // verus!
