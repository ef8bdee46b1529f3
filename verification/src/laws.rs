//! The volume's laws: statements that span more than one operation, each
//! proved from the operations' contracts alone.

use vstd::prelude::*;

use crate::context::{free_post, mount_begun, parse_post, FsContext, FsInfo};
use crate::dirops::{create_post, symlink_post, tmpfile_post};
use crate::options::{is_octal_text, lemma_octal_round_trip, octal_text, octal_val};
use crate::perm::{perm_part, DEFAULT_MODE, MODE_MASK, TYPE_DIR};
use crate::status::FsError;
use crate::superblock::{kill_post, populate_post, SuperBlock};

verus! {

/// Law: a mode option parsed before population determines the root node
/// exactly — its permission bits are the parsed value masked to the valid
/// permission range.
pub proof fn lemma_parsed_mode_reaches_root(
    c0: FsContext,
    c1: FsContext,
    c2: FsContext,
    sb: SuperBlock,
    key: Seq<char>,
    value: Seq<char>,
    pr: Result<(), FsError>,
    st: Result<(), FsError>,
    units: usize,
    now: i64,
)
    requires
        parse_post(c0, c1, key, value, pr),
        key == "mode"@,
        is_octal_text(value),
        octal_val(value) <= u32::MAX,
        populate_post(c1, c2, sb, st, units, now),
        units > 0,
    ensures
        pr is Ok,
        st is Ok,
        perm_part(sb.nodes@[0].mode) == (octal_val(value) as u32) & MODE_MASK,
{
}

/// Law: for every permission value, parsing its octal text as the mode
/// option and then populating yields a root node whose permission bits are
/// that value masked to the valid permission range.
pub proof fn lemma_any_mode_value_reaches_root(
    c0: FsContext,
    c1: FsContext,
    c2: FsContext,
    sb: SuperBlock,
    v: u32,
    pr: Result<(), FsError>,
    st: Result<(), FsError>,
    units: usize,
    now: i64,
)
    requires
        parse_post(c0, c1, "mode"@, octal_text(v as nat), pr),
        populate_post(c1, c2, sb, st, units, now),
        units > 0,
    ensures
        pr is Ok,
        st is Ok,
        perm_part(sb.nodes@[0].mode) == v & MODE_MASK,
{
    lemma_octal_round_trip(v as nat);
}

/// Law: a later mode option overwrites an earlier one — what is stored is
/// the last value parsed, masked.
pub proof fn lemma_mode_overwrites(
    c0: FsContext,
    c1: FsContext,
    c2: FsContext,
    v1: Seq<char>,
    v2: Seq<char>,
    r1: Result<(), FsError>,
    r2: Result<(), FsError>,
)
    requires
        parse_post(c0, c1, "mode"@, v1, r1),
        parse_post(c1, c2, "mode"@, v2, r2),
        is_octal_text(v2),
        octal_val(v2) <= u32::MAX,
    ensures
        r2 is Ok,
        c2.stored_mode() == (octal_val(v2) as u32) & MODE_MASK,
{
}

/// Law: a mount that never stored a mode option roots at the default mode.
pub proof fn lemma_default_mode_reaches_root(
    c0: FsContext,
    c1: FsContext,
    sb: SuperBlock,
    st: Result<(), FsError>,
    units: usize,
    now: i64,
)
    requires
        mount_begun(c0),
        populate_post(c0, c1, sb, st, units, now),
        units > 0,
    ensures
        st is Ok,
        perm_part(sb.nodes@[0].mode) == DEFAULT_MODE,
{
}

/// Law: creating a directory leaves the parent's link count exactly one
/// above what creating a plain node from the same state leaves, and only on
/// the success path; on failure the parent's link count is untouched.
pub proof fn lemma_mkdir_parent_link(
    s0: SuperBlock,
    s1: SuperBlock,
    s2: SuperBlock,
    parent: int,
    name: Seq<char>,
    mode: u32,
    dev: u64,
    now: i64,
    r1: Result<usize, FsError>,
    r2: Result<usize, FsError>,
)
    requires
        0 <= parent < s0.nodes@.len(),
        create_post(s0, s1, parent, name, TYPE_DIR | mode, dev, now, r1, 1),
        create_post(s0, s2, parent, name, TYPE_DIR | mode, dev, now, r2, 0),
    ensures
        r1 is Ok ==> s1.nodes@[parent].nlink == s2.nodes@[parent].nlink + 1,
        r1 is Err ==> s1.nodes@[parent].nlink == s0.nodes@[parent].nlink,
{
}

/// Law: when storing a symbolic link's body fails, the parent directory's
/// child count and timestamps are exactly as before, and the volume holds no
/// node and no allocation unit more or less than before — the orphan node
/// was released, nothing leaked.
pub proof fn lemma_symlink_rollback(
    s0: SuperBlock,
    s1: SuperBlock,
    parent: int,
    name: Seq<char>,
    target: Seq<char>,
    now: i64,
    r: Result<usize, FsError>,
)
    requires
        0 <= parent < s0.nodes@.len(),
        symlink_post(s0, s1, parent, name, target, now, r),
        s0.free_units == 1,
    ensures
        r == Err::<usize, FsError>(FsError::OutOfMemory),
        s1.nodes@[parent].children@.len() == s0.nodes@[parent].children@.len(),
        s1.nodes@[parent].mtime == s0.nodes@[parent].mtime,
        s1.nodes@[parent].ctime == s0.nodes@[parent].ctime,
        s1.nodes@.len() == s0.nodes@.len(),
        s1.free_units == s0.free_units,
{
}

/// Law: a temporary file never mutates its parent — no node that existed
/// before moved, timestamps included — and never appears as a named child:
/// no entry of any directory links the new node.
pub proof fn lemma_tmpfile_invisible(
    s0: SuperBlock,
    s1: SuperBlock,
    parent: int,
    mode: u32,
    now: i64,
    r: Result<usize, FsError>,
)
    requires
        0 <= parent < s0.nodes@.len(),
        tmpfile_post(s0, s1, mode, now, r),
        r is Ok,
    ensures
        forall|i: int| 0 <= i < s0.nodes@.len() ==> s1.nodes@[i] == s0.nodes@[i],
        s1.nodes@[parent].mtime == s0.nodes@[parent].mtime,
        s1.nodes@[parent].ctime == s0.nodes@[parent].ctime,
        forall|i: int|
            0 <= i < s1.nodes@.len() ==> !(#[trigger] s1.nodes@[i]).names_child(
                s0.nodes@.len() as int,
            ),
{
}

/// Law: along begin → populate → teardown, the configuration record created
/// at the beginning is handed back for release exactly once — by the
/// teardown — and afterwards no live holder of it remains.
pub proof fn lemma_record_released_once_mounted(
    c0: FsContext,
    c1: FsContext,
    sb0: SuperBlock,
    sb1: SuperBlock,
    st: Result<(), FsError>,
    units: usize,
    now: i64,
    r: Option<FsInfo>,
)
    requires
        mount_begun(c0),
        populate_post(c0, c1, sb0, st, units, now),
        kill_post(sb0, sb1, r),
    ensures
        r == c0.fs_info,
        r is Some,
        c1.fs_info is None,
        sb1.fs_info is None,
{
}

/// Law: along begin → abandon, the context hands the record back for
/// release exactly once and keeps no live copy.
pub proof fn lemma_record_released_once_abandoned(
    c0: FsContext,
    c1: FsContext,
    r: Option<FsInfo>,
)
    requires
        mount_begun(c0),
        free_post(c0, c1, r),
    ensures
        r == c0.fs_info,
        r is Some,
        c1.fs_info is None,
{
}

} // verus!
