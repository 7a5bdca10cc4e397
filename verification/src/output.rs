//! The output buffer: the bytes of one response, at most 128 of them, held
//! inline in an `arrayvec::ArrayVec`.

use arrayvec::ArrayVec;
use arrayvec::CapacityError;
use vstd::prelude::*;

verus! {

/// Number of bytes an output buffer can hold. The buffer never grows past it.
pub const OUTPUT_CAPACITY: usize = 128;

/// `arrayvec::ArrayVec`, a vector of at most `CAP` items stored inline. The
/// verifier sees nothing inside it.
#[verifier::external_type_specification]
#[verifier::external_body]
#[verifier::reject_recursive_types(T)]
pub struct ExArrayVec<T, const CAP: usize>(ArrayVec<T, CAP>);

/// `arrayvec::CapacityError`, the error of an `ArrayVec` that is asked to
/// hold more than its capacity. The verifier sees nothing inside it.
#[verifier::external_type_specification]
#[verifier::external_body]
#[verifier::reject_recursive_types(T)]
pub struct ExCapacityError<T>(CapacityError<T>);

/// The bytes that an `ArrayVec<u8, 128>` holds, in the order in which they
/// were appended.
pub uninterp spec fn buffer_bytes(buffer: ArrayVec<u8, OUTPUT_CAPACITY>) -> Seq<u8>;

/// `ArrayVec::new`: the vector it returns holds nothing. (It panics only for
/// a capacity above `u32::MAX`, which 128 is not.)
#[verifier::external_body]
fn buffer_new() -> (buffer: ArrayVec<u8, OUTPUT_CAPACITY>)
    ensures
        buffer_bytes(buffer) == Seq::<u8>::empty(),
{
    ArrayVec::new()
}

/// `ArrayVec::try_extend_from_slice`: where the slice fits into what is left
/// of the capacity, it is copied behind the bytes already held and the call
/// returns `Ok`; where it does not fit, the call returns `Err` and the vector
/// is as it was.
#[verifier::external_body]
fn buffer_extend(buffer: &mut ArrayVec<u8, OUTPUT_CAPACITY>, bytes: &[u8]) -> (r: Result<
    (),
    CapacityError<()>,
>)
    ensures
        r is Ok <==> buffer_bytes(*old(buffer)).len() + bytes@.len() <= OUTPUT_CAPACITY,
        r is Ok ==> buffer_bytes(*final(buffer)) == buffer_bytes(*old(buffer)) + bytes@,
        r is Err ==> buffer_bytes(*final(buffer)) == buffer_bytes(*old(buffer)),
{
    buffer.try_extend_from_slice(bytes)
}

/// `ArrayVec::as_slice`: the slice it returns is the bytes held, and a vector
/// of capacity 128 never holds more than 128.
#[verifier::external_body]
fn buffer_as_slice(buffer: &ArrayVec<u8, OUTPUT_CAPACITY>) -> (bytes: &[u8])
    ensures
        bytes@ == buffer_bytes(*buffer),
        bytes@.len() <= OUTPUT_CAPACITY,
{
    buffer.as_slice()
}

/// A fixed-capacity, append-only sequence of bytes: what a finished parse
/// hands over and what a response carries. Bytes can be added at the end and
/// read; nothing is ever removed or overwritten.
#[derive(Debug, PartialEq, Eq)]
pub struct OutputBuffer {
    bytes: ArrayVec<u8, OUTPUT_CAPACITY>,
}

impl View for OutputBuffer {
    type V = Seq<u8>;

    closed spec fn view(&self) -> Seq<u8> {
        buffer_bytes(self.bytes)
    }
}

impl OutputBuffer {
    /// An empty buffer.
    pub fn new() -> (out: OutputBuffer)
        ensures
            out@ == Seq::<u8>::empty(),
    {
        OutputBuffer { bytes: buffer_new() }
    }

    /// The buffer that holds the bytes of `bytes`.
    pub fn from_array_vec(bytes: ArrayVec<u8, OUTPUT_CAPACITY>) -> (out: OutputBuffer)
        ensures
            out@ == buffer_bytes(bytes),
    {
        OutputBuffer { bytes }
    }

    /// Appends `bytes` if they fit into what is left of the capacity, and
    /// says whether they did. A buffer that cannot take all of them takes
    /// none.
    pub fn append(&mut self, bytes: &[u8]) -> (appended: bool)
        ensures
            appended <==> old(self)@.len() + bytes@.len() <= OUTPUT_CAPACITY,
            appended ==> final(self)@ == old(self)@ + bytes@,
            !appended ==> final(self)@ == old(self)@,
    {
        match buffer_extend(&mut self.bytes, bytes) {
            Ok(()) => true,
            Err(_) => false,
        }
    }

    /// The bytes held.
    pub fn as_slice(&self) -> (bytes: &[u8])
        ensures
            bytes@ == self@,
            bytes@.len() <= OUTPUT_CAPACITY,
    {
        buffer_as_slice(&self.bytes)
    }

    /// The number of bytes held.
    pub fn len(&self) -> (n: usize)
        ensures
            n == self@.len(),
            n <= OUTPUT_CAPACITY,
    {
        buffer_as_slice(&self.bytes).len()
    }

    /// Whether the buffer holds no byte.
    pub fn is_empty(&self) -> (empty: bool)
        ensures
            empty <==> self@.len() == 0,
    {
        buffer_as_slice(&self.bytes).len() == 0
    }
}

} // verus!
