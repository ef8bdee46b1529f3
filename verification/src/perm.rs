//! Mode words: the permission and file-type bit conventions shared by every
//! operation of the volume.
//!
//! A mode word is a `u32` holding a file-type field and a permission field.
//! The constants follow the classical Unix layout, which the surrounding
//! system also speaks.

use vstd::prelude::*;

verus! {

/// Permission bits a freshly begun mount starts with (rwxr-xr-x).
pub const DEFAULT_MODE: u32 = 0o755;

/// Every bit a mount option may set: permission bits plus the set-id and
/// sticky bits.  Parsed mode values are masked to this range.
pub const MODE_MASK: u32 = 0o7777;

/// The file-type field of a mode word.
pub const TYPE_MASK: u32 = 0o170000;

/// File-type value of a directory.
pub const TYPE_DIR: u32 = 0o040000;

/// File-type value of a regular file.
pub const TYPE_REG: u32 = 0o100000;

/// File-type value of a symbolic link.
pub const TYPE_LNK: u32 = 0o120000;

/// Read, write and execute for user, group and other: the conventional
/// permission bits of a symbolic link.
pub const PERM_ALL: u32 = 0o777;

/// The permission part of a mode word.
pub open spec fn perm_part(mode: u32) -> u32 {
    mode & MODE_MASK
}

/// The file-type part of a mode word.
pub open spec fn type_part(mode: u32) -> u32 {
    mode & TYPE_MASK
}

/// Holds of a mode word that carries permission bits only.
pub open spec fn perm_only(mode: u32) -> bool {
    mode & MODE_MASK == mode
}

/// Masking is a projection: a masked value is within the mask and masking it
/// again changes nothing.
pub proof fn lemma_mask_is_projection(m: u32)
    by (bit_vector)
    ensures
        m & MODE_MASK <= MODE_MASK,
        (m & MODE_MASK) & MODE_MASK == m & MODE_MASK,
{
}

/// The default mode carries permission bits only.
pub proof fn lemma_default_mode_perm_only()
    by (bit_vector)
    ensures
        perm_only(DEFAULT_MODE),
{
}

/// The conventional symbolic-link permissions carry permission bits only.
pub proof fn lemma_perm_all_perm_only()
    by (bit_vector)
    ensures
        perm_only(PERM_ALL),
{
}

/// Law of mode flow: or-ing a file-type value onto a permission-only value
/// disturbs neither field, so the permission bits stored at mount time are
/// exactly the permission bits found on the node.
pub proof fn lemma_type_or_perm(m: u32)
    by (bit_vector)
    requires
        perm_only(m),
    ensures
        perm_part(TYPE_DIR | m) == m,
        type_part(TYPE_DIR | m) == TYPE_DIR,
        perm_part(TYPE_REG | m) == m,
        type_part(TYPE_REG | m) == TYPE_REG,
        perm_part(TYPE_LNK | m) == m,
        type_part(TYPE_LNK | m) == TYPE_LNK,
{
}

} // verus!
