//! Named bit positions of the header's `internal_flags` bitmask.

use vstd::prelude::*;

verus! {

/// This DTX has fullbrite colors.
pub const DTX_FULLBRITE: i32 = 1i32 << 0;

/// Use 16-bit, even if in 32-bit mode.
pub const DTX_PREFER16BIT: i32 = 1i32 << 1;

/// Each mipmap has its texture data allocated.
pub const DTX_MIPSALLOCED: i32 = 1i32 << 2;

/// Set once the section count has been fixed.
pub const DTX_SECTIONSFIXED: i32 = 1i32 << 3;

/// Used internally: keep the texture out of the texture cache list.
pub const DTX_NOSYSCACHE: i32 = 1i32 << 6;

/// If in 16-bit mode, use a 4444 texture for this.
pub const DTX_PREFER4444: i32 = 1i32 << 7;

/// Use 5551 if 16-bit.
pub const DTX_PREFER5551: i32 = 1i32 << 8;

/// If there is a sys copy, keep it 32 bit.
pub const DTX_32BITSYSCOPY: i32 = 1i32 << 9;

/// Cube environment map.
pub const DTX_CUBEMAP: i32 = 1i32 << 10;

/// Bump mapped texture, with 8-bit U and V components for the bump normal.
pub const DTX_BUMPMAP: i32 = 1i32 << 11;

/// Bump mapped texture with luminance.
pub const DTX_LUMBUMPMAP: i32 = 1i32 << 12;

/// Whether `flag` is set in the bitmask `flags`.
pub open spec fn spec_flag_set(flags: i32, flag: i32) -> bool {
    flags & flag != 0
}

/// Tests one flag of a bitmask.
pub fn flag_set(flags: i32, flag: i32) -> (r: bool)
    ensures
        r == spec_flag_set(flags, flag),
{
    flags & flag != 0
}

/// Each named flag constant holds exactly one bit, and no two of them share
/// a bit position: ANDing a header's `internal_flags` with one constant
/// isolates that single bit.
pub proof fn lemma_flags_isolate_distinct_bits()
    by (bit_vector)
    ensures
        DTX_FULLBRITE & ((DTX_FULLBRITE - 1) as i32) == 0 && DTX_FULLBRITE != 0,
        DTX_PREFER16BIT & ((DTX_PREFER16BIT - 1) as i32) == 0 && DTX_PREFER16BIT != 0,
        DTX_MIPSALLOCED & ((DTX_MIPSALLOCED - 1) as i32) == 0 && DTX_MIPSALLOCED != 0,
        DTX_SECTIONSFIXED & ((DTX_SECTIONSFIXED - 1) as i32) == 0 && DTX_SECTIONSFIXED != 0,
        DTX_NOSYSCACHE & ((DTX_NOSYSCACHE - 1) as i32) == 0 && DTX_NOSYSCACHE != 0,
        DTX_PREFER4444 & ((DTX_PREFER4444 - 1) as i32) == 0 && DTX_PREFER4444 != 0,
        DTX_PREFER5551 & ((DTX_PREFER5551 - 1) as i32) == 0 && DTX_PREFER5551 != 0,
        DTX_32BITSYSCOPY & ((DTX_32BITSYSCOPY - 1) as i32) == 0 && DTX_32BITSYSCOPY != 0,
        DTX_CUBEMAP & ((DTX_CUBEMAP - 1) as i32) == 0 && DTX_CUBEMAP != 0,
        DTX_BUMPMAP & ((DTX_BUMPMAP - 1) as i32) == 0 && DTX_BUMPMAP != 0,
        DTX_LUMBUMPMAP & ((DTX_LUMBUMPMAP - 1) as i32) == 0 && DTX_LUMBUMPMAP != 0,
        DTX_FULLBRITE & DTX_PREFER16BIT == 0,
        DTX_FULLBRITE & DTX_MIPSALLOCED == 0,
        DTX_FULLBRITE & DTX_SECTIONSFIXED == 0,
        DTX_FULLBRITE & DTX_NOSYSCACHE == 0,
        DTX_FULLBRITE & DTX_PREFER4444 == 0,
        DTX_FULLBRITE & DTX_PREFER5551 == 0,
        DTX_FULLBRITE & DTX_32BITSYSCOPY == 0,
        DTX_FULLBRITE & DTX_CUBEMAP == 0,
        DTX_FULLBRITE & DTX_BUMPMAP == 0,
        DTX_FULLBRITE & DTX_LUMBUMPMAP == 0,
        DTX_PREFER16BIT & DTX_MIPSALLOCED == 0,
        DTX_PREFER16BIT & DTX_SECTIONSFIXED == 0,
        DTX_PREFER16BIT & DTX_NOSYSCACHE == 0,
        DTX_PREFER16BIT & DTX_PREFER4444 == 0,
        DTX_PREFER16BIT & DTX_PREFER5551 == 0,
        DTX_PREFER16BIT & DTX_32BITSYSCOPY == 0,
        DTX_PREFER16BIT & DTX_CUBEMAP == 0,
        DTX_PREFER16BIT & DTX_BUMPMAP == 0,
        DTX_PREFER16BIT & DTX_LUMBUMPMAP == 0,
        DTX_MIPSALLOCED & DTX_SECTIONSFIXED == 0,
        DTX_MIPSALLOCED & DTX_NOSYSCACHE == 0,
        DTX_MIPSALLOCED & DTX_PREFER4444 == 0,
        DTX_MIPSALLOCED & DTX_PREFER5551 == 0,
        DTX_MIPSALLOCED & DTX_32BITSYSCOPY == 0,
        DTX_MIPSALLOCED & DTX_CUBEMAP == 0,
        DTX_MIPSALLOCED & DTX_BUMPMAP == 0,
        DTX_MIPSALLOCED & DTX_LUMBUMPMAP == 0,
        DTX_SECTIONSFIXED & DTX_NOSYSCACHE == 0,
        DTX_SECTIONSFIXED & DTX_PREFER4444 == 0,
        DTX_SECTIONSFIXED & DTX_PREFER5551 == 0,
        DTX_SECTIONSFIXED & DTX_32BITSYSCOPY == 0,
        DTX_SECTIONSFIXED & DTX_CUBEMAP == 0,
        DTX_SECTIONSFIXED & DTX_BUMPMAP == 0,
        DTX_SECTIONSFIXED & DTX_LUMBUMPMAP == 0,
        DTX_NOSYSCACHE & DTX_PREFER4444 == 0,
        DTX_NOSYSCACHE & DTX_PREFER5551 == 0,
        DTX_NOSYSCACHE & DTX_32BITSYSCOPY == 0,
        DTX_NOSYSCACHE & DTX_CUBEMAP == 0,
        DTX_NOSYSCACHE & DTX_BUMPMAP == 0,
        DTX_NOSYSCACHE & DTX_LUMBUMPMAP == 0,
        DTX_PREFER4444 & DTX_PREFER5551 == 0,
        DTX_PREFER4444 & DTX_32BITSYSCOPY == 0,
        DTX_PREFER4444 & DTX_CUBEMAP == 0,
        DTX_PREFER4444 & DTX_BUMPMAP == 0,
        DTX_PREFER4444 & DTX_LUMBUMPMAP == 0,
        DTX_PREFER5551 & DTX_32BITSYSCOPY == 0,
        DTX_PREFER5551 & DTX_CUBEMAP == 0,
        DTX_PREFER5551 & DTX_BUMPMAP == 0,
        DTX_PREFER5551 & DTX_LUMBUMPMAP == 0,
        DTX_32BITSYSCOPY & DTX_CUBEMAP == 0,
        DTX_32BITSYSCOPY & DTX_BUMPMAP == 0,
        DTX_32BITSYSCOPY & DTX_LUMBUMPMAP == 0,
        DTX_CUBEMAP & DTX_BUMPMAP == 0,
        DTX_CUBEMAP & DTX_LUMBUMPMAP == 0,
        DTX_BUMPMAP & DTX_LUMBUMPMAP == 0,
{
}

} // verus!
