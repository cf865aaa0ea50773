use vstd::prelude::*;

use crate::error::{kind_of_status, UclErrorKind};
use crate::sizing::min_capacity;

verus! {

/// The lengths handed to the engine: the source length, and the initial
/// value of the length cell, which is the destination's capacity on the
/// way in and the used length on the way out.
#[derive(Debug, PartialEq, Eq, Clone, Copy, Structural)]
pub struct NativeLengths {
    pub src_len: u32,
    pub dst_capacity: u32,
}

/// Whether a length fits the engine's 32-bit length parameters.
pub open spec fn fits_native(n: int) -> bool {
    0 <= n <= u32::MAX
}

/// The lengths as the engine sees them, once both fit.
pub open spec fn native_lengths(src_len: int, dst_capacity: int) -> NativeLengths {
    NativeLengths { src_len: src_len as u32, dst_capacity: dst_capacity as u32 }
}

/// What the guards before a decompression decide: the source length is
/// checked first, then the destination's capacity.
pub open spec fn decompress_guard(src_len: int, dst_capacity: int) -> Result<
    NativeLengths,
    UclErrorKind,
> {
    if !fits_native(src_len) {
        Err(UclErrorKind::SrcTooLarge)
    } else if !fits_native(dst_capacity) {
        Err(UclErrorKind::DstTooLarge)
    } else {
        Ok(native_lengths(src_len, dst_capacity))
    }
}

/// What the guards before a compression decide: a destination below the
/// worst-case size is refused first, so the engine is never handed room
/// that it might overrun; then, as for a decompression, the source length
/// is checked, then the destination's capacity.
pub open spec fn compress_guard(src_len: int, dst_capacity: int) -> Result<
    NativeLengths,
    UclErrorKind,
> {
    if dst_capacity < min_capacity(src_len) {
        Err(UclErrorKind::DstTooSmall)
    } else if !fits_native(src_len) {
        Err(UclErrorKind::SrcTooLarge)
    } else if !fits_native(dst_capacity) {
        Err(UclErrorKind::DstTooLarge)
    } else {
        Ok(native_lengths(src_len, dst_capacity))
    }
}

/// What the guards decide when the destination is allocated for the
/// purpose, with the worst-case size as its capacity: the source length
/// is checked first, then that capacity.
pub open spec fn owned_compress_guard(src_len: int) -> Result<NativeLengths, UclErrorKind> {
    if !fits_native(src_len) {
        Err(UclErrorKind::SrcTooLarge)
    } else if !fits_native(min_capacity(src_len)) {
        Err(UclErrorKind::DstTooLarge)
    } else {
        Ok(native_lengths(src_len, min_capacity(src_len)))
    }
}

/// The guards before a decompression of `src_len` bytes into a buffer of
/// `dst_capacity` bytes.
///
/// `Ok` holds the lengths for the engine call; on `Err` no call may be made.
pub fn prepare_decompress(src_len: usize, dst_capacity: usize) -> (r: Result<
    NativeLengths,
    UclErrorKind,
>)
    ensures
        r == decompress_guard(src_len as int, dst_capacity as int),
{
    if src_len > u32::MAX as usize {
        return Err(UclErrorKind::SrcTooLarge);
    }
    if dst_capacity > u32::MAX as usize {
        return Err(UclErrorKind::DstTooLarge);
    }
    Ok(NativeLengths { src_len: src_len as u32, dst_capacity: dst_capacity as u32 })
}

/// The guards before a compression of `src_len` bytes into a buffer of
/// `dst_capacity` bytes.
///
/// `Ok` holds the lengths for the engine call; on `Err` no call may be
/// made, so the buffer stays as it was.
pub fn prepare_compress(src_len: usize, dst_capacity: usize) -> (r: Result<
    NativeLengths,
    UclErrorKind,
>)
    ensures
        r == compress_guard(src_len as int, dst_capacity as int),
{
    let need: u128 = src_len as u128 + src_len as u128 / 8 + 256;
    if (dst_capacity as u128) < need {
        return Err(UclErrorKind::DstTooSmall);
    }
    if src_len > u32::MAX as usize {
        return Err(UclErrorKind::SrcTooLarge);
    }
    if dst_capacity > u32::MAX as usize {
        return Err(UclErrorKind::DstTooLarge);
    }
    Ok(NativeLengths { src_len: src_len as u32, dst_capacity: dst_capacity as u32 })
}

/// The guards before compressing `src_len` bytes into a buffer that is
/// allocated for the purpose; `Ok` also gives the capacity to allocate.
pub fn prepare_compress_owned(src_len: usize) -> (r: Result<NativeLengths, UclErrorKind>)
    ensures
        r == owned_compress_guard(src_len as int),
{
    if src_len > u32::MAX as usize {
        return Err(UclErrorKind::SrcTooLarge);
    }
    let need: u64 = src_len as u64 + src_len as u64 / 8 + 256;
    if need > u32::MAX as u64 {
        return Err(UclErrorKind::DstTooLarge);
    }
    Ok(NativeLengths { src_len: src_len as u32, dst_capacity: need as u32 })
}

/// A buffer allocated with the worst-case size always passes the size
/// guard: compressing into it decides exactly as compressing into a
/// caller's buffer of that size would, and never fails with `DstTooSmall`.
pub proof fn lemma_owned_buffer_passes_guard(src_len: nat)
    ensures
        owned_compress_guard(src_len as int) == compress_guard(
            src_len as int,
            min_capacity(src_len as int),
        ),
        owned_compress_guard(src_len as int) != Err::<NativeLengths, UclErrorKind>(
            UclErrorKind::DstTooSmall,
        ),
{
}

/// Whatever the guards let through hands the engine a capacity at least as
/// large as the worst-case size of the output, and lengths that are the
/// caller's own.
pub proof fn lemma_compress_guard_bounds_engine(src_len: nat, dst_capacity: nat)
    ensures
        compress_guard(src_len as int, dst_capacity as int) matches Ok(l) ==> {
            &&& l.src_len == src_len
            &&& l.dst_capacity == dst_capacity
            &&& l.dst_capacity >= min_capacity(l.src_len as int)
        },
{
}

/// Turns what the engine handed back into the call's result: its status
/// code, and the used length left in the length cell that started at
/// `dst_capacity`.
///
/// On success the used length must not exceed the capacity; a caller that
/// sees a breach of that bound has to stop the process rather than call
/// this.
pub fn finish_call(status: i32, dst_capacity: u32, used: u32) -> (r: Result<u32, UclErrorKind>)
    requires
        status == 0 ==> used <= dst_capacity,
    ensures
        status == 0 ==> r == Ok::<u32, UclErrorKind>(used),
        status != 0 ==> r == Err::<u32, UclErrorKind>(kind_of_status(status as int)),
        r matches Ok(n) ==> n <= dst_capacity,
{
    if status == 0 {
        Ok(used)
    } else {
        Err(UclErrorKind::from(status))
    }
}

} // verus!
