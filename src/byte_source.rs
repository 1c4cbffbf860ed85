use vstd::prelude::*;

verus! {

/// A source of bytes, read one at a time.
pub trait ByteSource {
    /// Gets the next byte from the byte source.
    fn next(&mut self) -> u8;

    /// Gets the total number of bytes the source will provide.
    fn len(&self) -> u64;
}

} // verus!
