//! Limits of the block device.

use vstd::prelude::*;

verus! {

/// The most segments of one request on a Windows host, whatever the size of
/// the queue: one, since there requests are not scattered over segments.
pub fn get_seg_max(_queue_size: u16) -> (seg_max: u32)
    ensures
        seg_max == 1,
{
    1
}

/// Flag of Windows: the file is read and written without a cache.
pub const FILE_FLAG_NO_BUFFERING: u32 = 0x2000_0000;

/// Flag of Windows: the file is read and written without waiting.
pub const FILE_FLAG_OVERLAPPED: u32 = 0x4000_0000;

/// The flags with which the file of a disk is opened on Windows: without a
/// cache where `direct` is asked for, without waiting where the executor
/// works `overlapped`. With 0 the file is opened without special flags.
pub fn open_flags(direct: bool, overlapped: bool) -> (flags: u32)
    ensures
        flags == (if direct {
            FILE_FLAG_NO_BUFFERING
        } else {
            0u32
        }) + (if overlapped {
            FILE_FLAG_OVERLAPPED
        } else {
            0u32
        }),
{
    assert(0u32 | 0x2000_0000u32 == 0x2000_0000u32 && 0x2000_0000u32 | 0x4000_0000u32
        == 0x6000_0000u32 && 0u32 | 0x4000_0000u32 == 0x4000_0000u32) by (bit_vector);
    let mut flags: u32 = 0;
    if direct {
        flags |= FILE_FLAG_NO_BUFFERING;
    }
    if overlapped {
        flags |= FILE_FLAG_OVERLAPPED;
    }
    flags
}

} // verus!
