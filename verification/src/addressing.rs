//! CAN arbitration-id flag bits and the rule that marks an identifier
//! wider than the 11-bit standard range as a 29-bit extended-format id.

use vstd::prelude::*;

verus! {

/// if set, indicate 29 bit extended format
pub const EFF_FLAG: u32 = 0x8000_0000;

/// remote transmission request flag
pub const RTR_FLAG: u32 = 0x4000_0000;

/// error flag
pub const ERR_FLAG: u32 = 0x2000_0000;

/// valid bits in standard frame id
pub const SFF_MASK: u32 = 0x0000_07FF;

/// valid bits in extended frame id
pub const EFF_MASK: u32 = 0x1FFF_FFFF;

/// valid bits in error frame
pub const ERR_MASK: u32 = 0x1FFF_FFFF;

/// an error mask that reports all errors
pub const ERR_MASK_ALL: u32 = ERR_MASK;

/// an error mask that silently drops all errors
pub const ERR_MASK_NONE: u32 = 0;

/// The arbitration id as the link layer carries it: an id beyond the
/// 11-bit standard range gets the extended-format flag bit.
pub open spec fn spec_effective_can_id(id: u32) -> u32 {
    if id > SFF_MASK {
        id | EFF_FLAG
    } else {
        id
    }
}

/// Mark an arbitration id wider than the 11-bit standard range as
/// extended-format; a standard id passes unchanged.
pub fn effective_can_id(id: u32) -> (r: u32)
    ensures
        r == spec_effective_can_id(id),
        id <= SFF_MASK ==> r == id,
        id > SFF_MASK ==> r & EFF_FLAG == EFF_FLAG && r & EFF_MASK == id & EFF_MASK,
{
    if id > SFF_MASK {
        proof {
            assert((id | 0x8000_0000u32) & 0x8000_0000u32 == 0x8000_0000u32 && (id
                | 0x8000_0000u32) & 0x1FFF_FFFFu32 == id & 0x1FFF_FFFFu32) by (bit_vector);
        }
        id | EFF_FLAG
    } else {
        id
    }
}

} // verus!
