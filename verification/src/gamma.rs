//! The checks around reading and writing a display's gamma transfer table.
//! The table values are floating point and stay with the caller; this
//! module decides, from the counts and status codes that CoreGraphics
//! reports, whether a capture or an update succeeded and how many samples
//! a captured table holds.

use vstd::prelude::*;

verus! {

/// The CoreGraphics status code for success (`kCGErrorSuccess`).
pub const CG_SUCCESS: i32 = 0;

/// Why reading or writing a gamma table failed.
#[derive(Debug, Clone, Copy, PartialEq, Eq, Structural)]
pub enum GammaError {
    /// The display reports a gamma table capacity of 0.
    NoCapacity { display_id: u32 },
    /// Reading the table failed with this CoreGraphics status.
    CaptureFailed { display_id: u32, status: i32 },
    /// Writing the table failed with this CoreGraphics status.
    ApplyFailed { display_id: u32, status: i32 },
}

/// The number of samples to make room for before reading the table of
/// `display_id`: its reported capacity, which must not be 0.
pub fn capture_buffer_len(display_id: u32, capacity: u32) -> (len: Result<u32, GammaError>)
    ensures
        capacity == 0 ==> len == Err::<u32, GammaError>(GammaError::NoCapacity { display_id }),
        capacity != 0 ==> len == Ok::<u32, GammaError>(capacity),
{
    if capacity == 0 {
        Err(GammaError::NoCapacity { display_id })
    } else {
        Ok(capacity)
    }
}

/// The number of samples a captured table keeps: the buffers of
/// `capacity` samples are cut to the `sample_count` that CoreGraphics
/// reported (they never grow), once the read returned `status`.
pub fn captured_sample_count(display_id: u32, capacity: u32, status: i32, sample_count: u32) -> (kept: Result<u32, GammaError>)
    ensures
        status != CG_SUCCESS ==> kept == Err::<u32, GammaError>(
            GammaError::CaptureFailed { display_id, status },
        ),
        status == CG_SUCCESS ==> kept == Ok::<u32, GammaError>(
            if sample_count < capacity { sample_count } else { capacity },
        ),
{
    if status != CG_SUCCESS {
        Err(GammaError::CaptureFailed { display_id, status })
    } else if sample_count < capacity {
        Ok(sample_count)
    } else {
        Ok(capacity)
    }
}

/// Whether writing the table of `display_id` succeeded, given the status
/// CoreGraphics returned.
pub fn check_apply_status(display_id: u32, status: i32) -> (checked: Result<(), GammaError>)
    ensures
        status == CG_SUCCESS ==> checked == Ok::<(), GammaError>(()),
        status != CG_SUCCESS ==> checked == Err::<(), GammaError>(
            GammaError::ApplyFailed { display_id, status },
        ),
{
    if status == CG_SUCCESS {
        Ok(())
    } else {
        Err(GammaError::ApplyFailed { display_id, status })
    }
}

} // verus!
