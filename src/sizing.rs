use vstd::prelude::*;

verus! {

/// Worst-case size of the engine's output for `n` bytes of input: the
/// engine may expand data that does not compress by at most an eighth of
/// its length plus 256 bytes.
pub open spec fn min_capacity(n: int) -> int {
    n + n / 8 + 256
}

/// The destination capacity that [`crate::handoff::prepare_compress`]
/// demands for `src_len` bytes of input.
///
/// The bound holds for every length that a slice can have: such a length
/// is at most `isize::MAX`, and nine eighths of it plus 256 fit a `usize`.
pub fn minimum_compression_buffer_size(src_len: usize) -> (r: usize)
    requires
        min_capacity(src_len as int) <= usize::MAX,
    ensures
        r == min_capacity(src_len as int),
{
    src_len + src_len / 8 + 256
}

} // verus!
