//! Mount lifecycle: begin, option parsing, population, options shown,
//! teardown.

use ramfs::context::FsContext;
use ramfs::perm::{DEFAULT_MODE, MODE_MASK, PERM_ALL, TYPE_DIR, TYPE_LNK, TYPE_REG};
use ramfs::status::FsError;
use ramfs::superblock::{SuperBlock, BLOCK_SIZE, BLOCK_SIZE_BITS, MAX_FILE_SIZE, TIME_GRANULARITY,
    VOLUME_MAGIC};

fn stored_mode(fc: &FsContext) -> u32 {
    fc.fs_info.as_ref().expect("record attached").mount_opts.mode
}

#[test]
fn default_mount_roots_at_default_mode() {
    let mut fc = FsContext::begin_context();
    assert_eq!(stored_mode(&fc), 0o755);
    let (sb, st) = SuperBlock::populate_superblock(&mut fc, 5, 100);
    assert_eq!(st, Ok(()));
    assert!(fc.fs_info.is_none());
    assert_eq!(sb.root, Some(0));
    assert_eq!(sb.nodes.len(), 1);
    assert_eq!(sb.nodes[0].mode, TYPE_DIR | DEFAULT_MODE);
    assert_eq!(sb.nodes[0].mode & MODE_MASK, 0o755);
    assert_eq!(sb.nodes[0].nlink, 2);
    assert_eq!(sb.nodes[0].mtime, 100);
    assert_eq!(sb.nodes[0].ctime, 100);
    assert_eq!(sb.max_file_size, MAX_FILE_SIZE);
    assert_eq!(sb.block_size, BLOCK_SIZE);
    assert_eq!(sb.block_size_bits, BLOCK_SIZE_BITS);
    assert_eq!(sb.magic, VOLUME_MAGIC);
    assert_eq!(sb.time_granularity, TIME_GRANULARITY);
    assert_eq!(sb.free_units, 4);
}

#[test]
fn parsed_mode_reaches_root() {
    let mut fc = FsContext::begin_context();
    assert_eq!(fc.parse_param("mode", "644"), Ok(()));
    assert_eq!(stored_mode(&fc), 0o644);
    let (sb, st) = SuperBlock::populate_superblock(&mut fc, 2, 7);
    assert_eq!(st, Ok(()));
    assert_eq!(sb.nodes[0].mode & MODE_MASK, 0o644);
    assert_eq!(sb.nodes[0].mode, TYPE_DIR | 0o644);
    assert_eq!(sb.show_options(), ",mode=644");
}

#[test]
fn parsed_mode_is_masked() {
    let mut fc = FsContext::begin_context();
    // 0o473123 has bits above the permission range; they must not survive.
    assert_eq!(fc.parse_param("mode", "473123"), Ok(()));
    assert_eq!(stored_mode(&fc), 0o473123 & MODE_MASK);
    assert_eq!(stored_mode(&fc), 0o3123);
}

#[test]
fn later_mode_overwrites_earlier() {
    let mut fc = FsContext::begin_context();
    assert_eq!(fc.parse_param("mode", "700"), Ok(()));
    assert_eq!(fc.parse_param("mode", "111"), Ok(()));
    assert_eq!(stored_mode(&fc), 0o111);
}

#[test]
fn unknown_option_is_ignored() {
    let mut fc = FsContext::begin_context();
    assert_eq!(fc.parse_param("bogus", "x"), Ok(()));
    assert_eq!(stored_mode(&fc), DEFAULT_MODE);
    assert_eq!(fc.parse_param("size", "10m"), Ok(()));
    assert_eq!(stored_mode(&fc), DEFAULT_MODE);
}

#[test]
fn bad_mode_value_is_fatal() {
    let mut fc = FsContext::begin_context();
    assert_eq!(fc.parse_param("mode", "9"), Err(FsError::BadParameter));
    assert_eq!(fc.parse_param("mode", ""), Err(FsError::BadParameter));
    assert_eq!(fc.parse_param("mode", "6x4"), Err(FsError::BadParameter));
    // One octal digit past the largest representable value.
    assert_eq!(fc.parse_param("mode", "40000000000"), Err(FsError::BadParameter));
    assert_eq!(stored_mode(&fc), DEFAULT_MODE);
}

#[test]
fn show_options_is_empty_at_default() {
    let mut fc = FsContext::begin_context();
    let (sb, st) = SuperBlock::populate_superblock(&mut fc, 1, 0);
    assert_eq!(st, Ok(()));
    assert_eq!(sb.show_options(), "");
}

#[test]
fn show_options_prints_full_mask() {
    let mut fc = FsContext::begin_context();
    assert_eq!(fc.parse_param("mode", "7777"), Ok(()));
    let (sb, st) = SuperBlock::populate_superblock(&mut fc, 1, 0);
    assert_eq!(st, Ok(()));
    assert_eq!(sb.show_options(), ",mode=7777");
}

#[test]
fn populate_without_units_reports_no_space() {
    let mut fc = FsContext::begin_context();
    let (mut sb, st) = SuperBlock::populate_superblock(&mut fc, 0, 3);
    assert_eq!(st, Err(FsError::NoSpace));
    assert_eq!(sb.root, None);
    assert_eq!(sb.nodes.len(), 0);
    // The record changed hands anyway; teardown still reclaims it.
    assert!(fc.fs_info.is_none());
    assert!(sb.fs_info.is_some());
    let released = sb.kill_superblock();
    assert!(released.is_some());
}

#[test]
fn teardown_releases_record_exactly_once() {
    let mut fc = FsContext::begin_context();
    let (mut sb, st) = SuperBlock::populate_superblock(&mut fc, 4, 9);
    assert_eq!(st, Ok(()));
    let first = sb.kill_superblock();
    assert!(first.is_some());
    assert_eq!(first.unwrap().mount_opts.mode, DEFAULT_MODE);
    assert!(sb.fs_info.is_none());
    assert_eq!(sb.nodes.len(), 0);
    assert_eq!(sb.root, None);
    // A second teardown finds nothing left to release.
    let second = sb.kill_superblock();
    assert!(second.is_none());
    // The context gave its record away at population.
    assert!(fc.free_context().is_none());
}

#[test]
fn abandoned_context_releases_record_exactly_once() {
    let mut fc = FsContext::begin_context();
    assert_eq!(fc.parse_param("mode", "711"), Ok(()));
    let first = fc.free_context();
    assert!(first.is_some());
    assert_eq!(first.unwrap().mount_opts.mode, 0o711);
    let second = fc.free_context();
    assert!(second.is_none());
}

#[test]
fn type_constants_follow_convention() {
    assert_eq!(TYPE_DIR, 0o040000);
    assert_eq!(TYPE_REG, 0o100000);
    assert_eq!(TYPE_LNK, 0o120000);
    assert_eq!(PERM_ALL, 0o777);
}
