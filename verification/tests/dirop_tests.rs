//! Directory operations on a populated volume.

use ramfs::context::FsContext;
use ramfs::perm::{PERM_ALL, TYPE_DIR, TYPE_LNK, TYPE_REG};
use ramfs::status::FsError;
use ramfs::superblock::SuperBlock;

/// A freshly populated volume with the given allocation budget left after
/// the root; root timestamps are 100.
fn mounted(extra_units: usize) -> SuperBlock {
    let mut fc = FsContext::begin_context();
    let (sb, st) = SuperBlock::populate_superblock(&mut fc, extra_units + 1, 100);
    assert_eq!(st, Ok(()));
    sb
}

#[test]
fn mkdir_links_and_bumps_parent() {
    let mut sb = mounted(3);
    let r = sb.mkdir(0, "sub", 0o750, 200);
    assert_eq!(r, Ok(1));
    assert_eq!(sb.nodes.len(), 2);
    assert_eq!(sb.nodes[1].mode, TYPE_DIR | 0o750);
    // The new directory accounts its own self-reference.
    assert_eq!(sb.nodes[1].nlink, 2);
    assert_eq!(sb.nodes[1].mtime, 200);
    assert_eq!(sb.nodes[1].ctime, 200);
    // The parent gained the back-reference and one pinned entry.
    assert_eq!(sb.nodes[0].nlink, 3);
    assert_eq!(sb.nodes[0].children.len(), 1);
    assert_eq!(sb.nodes[0].children[0].name, "sub");
    assert_eq!(sb.nodes[0].children[0].node_id, 1);
    assert!(sb.nodes[0].children[0].pinned);
    assert_eq!(sb.nodes[0].mtime, 200);
    assert_eq!(sb.nodes[0].ctime, 200);
}

#[test]
fn mkdir_without_units_leaves_parent_alone() {
    let mut sb = mounted(0);
    let r = sb.mkdir(0, "sub", 0o750, 200);
    assert_eq!(r, Err(FsError::NoSpace));
    assert_eq!(sb.nodes.len(), 1);
    assert_eq!(sb.nodes[0].nlink, 2);
    assert_eq!(sb.nodes[0].children.len(), 0);
    assert_eq!(sb.nodes[0].mtime, 100);
    assert_eq!(sb.nodes[0].ctime, 100);
}

#[test]
fn create_links_regular_file() {
    let mut sb = mounted(1);
    let r = sb.create(0, "file", 0o644, 300);
    assert_eq!(r, Ok(1));
    assert_eq!(sb.nodes[1].mode, TYPE_REG | 0o644);
    assert_eq!(sb.nodes[1].nlink, 1);
    // A regular file adds no link to the parent.
    assert_eq!(sb.nodes[0].nlink, 2);
    assert_eq!(sb.nodes[0].children.len(), 1);
    assert_eq!(sb.nodes[0].children[0].name, "file");
    assert_eq!(sb.nodes[0].mtime, 300);
    assert_eq!(sb.nodes[0].ctime, 300);
}

#[test]
fn mknod_stamps_both_parent_times_alike() {
    let mut sb = mounted(1);
    let r = sb.mknod(0, "dev", 0o020644, 7, 400);
    assert_eq!(r, Ok(1));
    assert_eq!(sb.nodes[1].mode, 0o020644);
    assert_eq!(sb.nodes[1].dev, 7);
    assert_eq!(sb.nodes[1].nlink, 1);
    assert_eq!(sb.nodes[0].mtime, sb.nodes[0].ctime);
    assert_eq!(sb.nodes[0].mtime, 400);
}

#[test]
fn symlink_stores_body_and_links() {
    let mut sb = mounted(2);
    let r = sb.symlink(0, "link", "a/b/c", 500);
    assert_eq!(r, Ok(1));
    assert_eq!(sb.nodes[1].mode, TYPE_LNK | PERM_ALL);
    assert_eq!(sb.nodes[1].nlink, 1);
    assert_eq!(sb.nodes[1].link_target.as_deref(), Some("a/b/c"));
    assert_eq!(sb.nodes[0].children.len(), 1);
    assert_eq!(sb.nodes[0].children[0].name, "link");
    assert_eq!(sb.nodes[0].mtime, 500);
    // A symbolic link costs a node and a body page.
    assert_eq!(sb.free_units, 0);
}

#[test]
fn symlink_without_any_unit_reports_no_space() {
    let mut sb = mounted(0);
    let r = sb.symlink(0, "link", "a", 500);
    assert_eq!(r, Err(FsError::NoSpace));
    assert_eq!(sb.nodes.len(), 1);
}

#[test]
fn symlink_store_failure_rolls_back() {
    // One unit: the node allocates, the body finds no page.
    let mut sb = mounted(1);
    let r = sb.symlink(0, "link", "a/b/c", 500);
    assert_eq!(r, Err(FsError::OutOfMemory));
    // The orphan node was released: no node, no unit leaked.
    assert_eq!(sb.nodes.len(), 1);
    assert_eq!(sb.free_units, 1);
    // The parent saw nothing: no entry, no timestamp movement.
    assert_eq!(sb.nodes[0].children.len(), 0);
    assert_eq!(sb.nodes[0].mtime, 100);
    assert_eq!(sb.nodes[0].ctime, 100);
}

#[test]
fn tmpfile_never_enters_the_namespace() {
    let mut sb = mounted(1);
    let r = sb.tmpfile(0, 0o100600, 600);
    assert_eq!(r, Ok(1));
    // Open but unlinked: no name anywhere, link count zero.
    assert_eq!(sb.nodes[1].nlink, 0);
    assert_eq!(sb.nodes[1].mode, 0o100600);
    assert_eq!(sb.nodes[1].mtime, 600);
    assert_eq!(sb.nodes[0].children.len(), 0);
    // The parent's timestamps never move.
    assert_eq!(sb.nodes[0].mtime, 100);
    assert_eq!(sb.nodes[0].ctime, 100);
}

#[test]
fn tmpfile_without_units_reports_no_space() {
    let mut sb = mounted(0);
    let r = sb.tmpfile(0, 0o100600, 600);
    assert_eq!(r, Err(FsError::NoSpace));
    assert_eq!(sb.nodes.len(), 1);
}

#[test]
fn tmpfile_stays_invisible_among_siblings() {
    let mut sb = mounted(3);
    assert_eq!(sb.create(0, "kept", 0o644, 110), Ok(1));
    assert_eq!(sb.tmpfile(0, 0o100600, 120), Ok(2));
    // The named child is still the only entry; nothing names node 2.
    assert_eq!(sb.nodes[0].children.len(), 1);
    assert_eq!(sb.nodes[0].children[0].node_id, 1);
    // The timestamps still say what the named creation left.
    assert_eq!(sb.nodes[0].mtime, 110);
    assert_eq!(sb.nodes[0].ctime, 110);
}

#[test]
fn operations_compose_in_one_tree() {
    let mut sb = mounted(10);
    assert_eq!(sb.mkdir(0, "a", 0o755, 1), Ok(1));
    assert_eq!(sb.mkdir(1, "b", 0o755, 2), Ok(2));
    assert_eq!(sb.create(2, "f", 0o644, 3), Ok(3));
    assert_eq!(sb.symlink(1, "l", "b/f", 4), Ok(4));
    assert_eq!(sb.nodes[0].nlink, 3);
    assert_eq!(sb.nodes[1].nlink, 3);
    assert_eq!(sb.nodes[1].children.len(), 2);
    assert_eq!(sb.nodes[2].children.len(), 1);
    assert_eq!(sb.free_units, 10 - 5);
    let released = sb.kill_superblock();
    assert!(released.is_some());
    assert_eq!(sb.nodes.len(), 0);
}
