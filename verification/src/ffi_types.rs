//! The rules for buffers that Zig hands to Rust.

use vstd::prelude::*;

verus! {

/// Why a buffer is refused.
#[derive(Debug, Clone, Copy, PartialEq, Eq, Structural)]
pub enum BufferError {
    /// The pointer is null and the length is not zero, or the other way
    /// round.
    NullPointerWithLength,
    /// The capacity is less than the length.
    CapacityBelowLength,
}

impl BufferError {
    /// The message of the error.
    pub open spec fn text(self) -> Seq<char> {
        match self {
            BufferError::NullPointerWithLength => "Null pointer with non-zero length"@,
            BufferError::CapacityBelowLength => "Capacity less than length"@,
        }
    }

    /// The message of the error.
    pub fn message(&self) -> (m: &'static str)
        ensures
            m@ == self.text(),
    {
        match self {
            BufferError::NullPointerWithLength => "Null pointer with non-zero length",
            BufferError::CapacityBelowLength => "Capacity less than length",
        }
    }
}

/// What the check of a buffer comes to: the pointer must be null exactly
/// where the length is zero, and the capacity must not be less than the
/// length; the first rule goes first.
pub open spec fn buffer_check(ptr_is_null: bool, len: usize, cap: usize) -> Result<
    (),
    BufferError,
> {
    if ptr_is_null != (len == 0) {
        Err(BufferError::NullPointerWithLength)
    } else if cap < len {
        Err(BufferError::CapacityBelowLength)
    } else {
        Ok(())
    }
}

/// Checks the parts of a buffer before it is taken into ownership.
pub fn validate_buffer(ptr_is_null: bool, len: usize, cap: usize) -> (r: Result<(), BufferError>)
    ensures
        r == buffer_check(ptr_is_null, len, cap),
{
    if ptr_is_null != (len == 0) {
        return Err(BufferError::NullPointerWithLength);
    }
    if cap < len {
        return Err(BufferError::CapacityBelowLength);
    }
    Ok(())
}

/// The number of whole elements of `size` bytes in a buffer of `len`
/// bytes.
pub fn element_count(len: usize, size: usize) -> (count: usize)
    requires
        size > 0,
    ensures
        count == len / size,
{
    len / size
}

} // verus!
