//! Directory operations: creating regular files, directories, symbolic links
//! and anonymous temporary files inside a mounted volume.
//!
//! Each operation composes the node factory with path-entry linking and
//! timestamp stamping.  The caller serializes tree mutation per directory;
//! here every call runs to completion or failure atomically, leaving either
//! the stated new state or — on failure — the volume exactly as it was.

use vstd::prelude::*;

use crate::node::{entry_linked, node_fresh, DirEntry};
use crate::perm::{lemma_type_or_perm, perm_only, PERM_ALL, TYPE_DIR, TYPE_LNK, TYPE_REG};
use crate::status::FsError;
use crate::superblock::{mount_frame, SuperBlock};

verus! {

/// The transition of one node-creating operation under `parent`: on success
/// a fresh node of `mode` sits at the end of the arena, one pinned entry
/// named `name` links it, the parent's timestamps are stamped to `now` and
/// its link count grows by `gain`; on exhaustion nothing moved at all.
pub open spec fn create_post(
    s0: SuperBlock,
    s1: SuperBlock,
    parent: int,
    name: Seq<char>,
    mode: u32,
    dev: u64,
    now: i64,
    r: Result<usize, FsError>,
    gain: int,
) -> bool {
    &&& mount_frame(s0, s1)
    &&& if s0.free_units == 0 {
        &&& r == Err::<usize, FsError>(FsError::NoSpace)
        &&& s1 == s0
    } else {
        let id = s0.nodes@.len() as int;
        &&& r == Ok::<usize, FsError>(id as usize)
        &&& s1.nodes@.len() == s0.nodes@.len() + 1
        &&& node_fresh(s1.nodes@.last(), mode, dev, now)
        &&& entry_linked(s0.nodes@[parent], s1.nodes@[parent], name, id, now)
        &&& s1.nodes@[parent].nlink == s0.nodes@[parent].nlink + gain
        &&& forall|i: int|
            0 <= i < s0.nodes@.len() && i != parent ==> s1.nodes@[i] == s0.nodes@[i]
        &&& s1.free_units == s0.free_units - 1
    }
}

/// The transition of creating a symbolic link under `parent`.  Allocation
/// may fail for lack of space; storing the body may fail for lack of memory,
/// in which case the orphan node — linked nowhere yet — is released again
/// and the volume is exactly as before, the parent's entries and timestamps
/// included.
pub open spec fn symlink_post(
    s0: SuperBlock,
    s1: SuperBlock,
    parent: int,
    name: Seq<char>,
    target: Seq<char>,
    now: i64,
    r: Result<usize, FsError>,
) -> bool {
    &&& mount_frame(s0, s1)
    &&& if s0.free_units == 0 {
        &&& r == Err::<usize, FsError>(FsError::NoSpace)
        &&& s1 == s0
    } else if s0.free_units == 1 {
        &&& r == Err::<usize, FsError>(FsError::OutOfMemory)
        &&& s1.nodes@ == s0.nodes@
        &&& s1.free_units == s0.free_units
    } else {
        let id = s0.nodes@.len() as int;
        &&& r == Ok::<usize, FsError>(id as usize)
        &&& s1.nodes@.len() == s0.nodes@.len() + 1
        &&& s1.nodes@.last().mode == TYPE_LNK | PERM_ALL
        &&& s1.nodes@.last().nlink == 1
        &&& s1.nodes@.last().mtime == now
        &&& s1.nodes@.last().ctime == now
        &&& s1.nodes@.last().dev == 0
        &&& s1.nodes@.last().link_target matches Some(t) && t@ == target
        &&& s1.nodes@.last().children@.len() == 0
        &&& entry_linked(s0.nodes@[parent], s1.nodes@[parent], name, id, now)
        &&& s1.nodes@[parent].nlink == s0.nodes@[parent].nlink
        &&& forall|i: int|
            0 <= i < s0.nodes@.len() && i != parent ==> s1.nodes@[i] == s0.nodes@[i]
        &&& s1.free_units == s0.free_units - 2
    }
}

/// The transition of creating an anonymous temporary file: the node exists,
/// open but unlinked — no entry of any directory names it, and no node that
/// existed before moved, the parent and its timestamps included.
pub open spec fn tmpfile_post(
    s0: SuperBlock,
    s1: SuperBlock,
    mode: u32,
    now: i64,
    r: Result<usize, FsError>,
) -> bool {
    &&& mount_frame(s0, s1)
    &&& if s0.free_units == 0 {
        &&& r == Err::<usize, FsError>(FsError::NoSpace)
        &&& s1 == s0
    } else {
        let id = s0.nodes@.len() as int;
        &&& r == Ok::<usize, FsError>(id as usize)
        &&& s1.nodes@.len() == s0.nodes@.len() + 1
        &&& s1.nodes@.last().mode == mode
        &&& s1.nodes@.last().nlink == 0
        &&& s1.nodes@.last().mtime == now
        &&& s1.nodes@.last().ctime == now
        &&& s1.nodes@.last().dev == 0
        &&& s1.nodes@.last().link_target is None
        &&& s1.nodes@.last().children@.len() == 0
        &&& forall|i: int| 0 <= i < s0.nodes@.len() ==> s1.nodes@[i] == s0.nodes@[i]
        &&& forall|i: int, j: int|
            0 <= i < s1.nodes@.len() && 0 <= j < s1.nodes@[i].children@.len()
                ==> (#[trigger] s1.nodes@[i].children@[j]).node_id != id
        &&& s1.free_units == s0.free_units - 1
    }
}

impl SuperBlock {
    /// Links `child` under `parent` with a pinned entry named `name` and
    /// stamps both parent timestamps to the same instant.
    fn link_child(&mut self, parent: usize, name: &str, child: usize, now: i64)
        requires
            old(self).wf(),
            parent < old(self).nodes@.len(),
            child < old(self).nodes@.len(),
        ensures
            final(self).wf(),
            mount_frame(*old(self), *final(self)),
            final(self).nodes@.len() == old(self).nodes@.len(),
            final(self).free_units == old(self).free_units,
            entry_linked(
                old(self).nodes@[parent as int],
                final(self).nodes@[parent as int],
                name@,
                child as int,
                now,
            ),
            final(self).nodes@[parent as int].nlink == old(self).nodes@[parent as int].nlink,
            forall|i: int|
                0 <= i < old(self).nodes@.len() && i != parent ==> final(self).nodes@[i] == old(
                    self,
                ).nodes@[i],
    {
        let entry = DirEntry { name: name.to_owned(), node_id: child, pinned: true };
        let dir = &mut self.nodes[parent];
        dir.children.push(entry);
        dir.mtime = now;
        dir.ctime = now;
    }

    /// Creates a node of the given mode and device under `parent`, links it
    /// there and stamps the parent's timestamps; on exhaustion reports
    /// `NoSpace` with no partial state left.
    pub fn mknod(&mut self, parent: usize, name: &str, mode: u32, dev: u64, now: i64) -> (r:
        Result<usize, FsError>)
        requires
            old(self).wf(),
            parent < old(self).nodes@.len(),
        ensures
            final(self).wf(),
            create_post(*old(self), *final(self), parent as int, name@, mode, dev, now, r, 0),
    {
        match self.make_node(mode, dev, now) {
            Some(id) => {
                self.link_child(parent, name, id, now);
                Ok(id)
            },
            None => Err(FsError::NoSpace),
        }
    }

    /// Creates a directory under `parent`: a node carrying the directory
    /// type whose own link count accounts its self-reference, and — only on
    /// success — one more link on the parent.
    pub fn mkdir(&mut self, parent: usize, name: &str, mode: u32, now: i64) -> (r: Result<
        usize,
        FsError,
    >)
        requires
            old(self).wf(),
            parent < old(self).nodes@.len(),
            perm_only(mode),
            old(self).nodes@[parent as int].nlink < u32::MAX,
        ensures
            final(self).wf(),
            create_post(
                *old(self),
                *final(self),
                parent as int,
                name@,
                TYPE_DIR | mode,
                0,
                now,
                r,
                1,
            ),
            r is Ok ==> final(self).nodes@.last().is_dir(),
    {
        proof {
            lemma_type_or_perm(mode);
        }
        match self.mknod(parent, name, TYPE_DIR | mode, 0, now) {
            Ok(id) => {
                let dir = &mut self.nodes[parent];
                dir.nlink = dir.nlink + 1;
                Ok(id)
            },
            Err(e) => Err(e),
        }
    }

    /// Creates a regular file under `parent`; nothing but the new node, the
    /// new entry and the parent's timestamps moves.
    pub fn create(&mut self, parent: usize, name: &str, mode: u32, now: i64) -> (r: Result<
        usize,
        FsError,
    >)
        requires
            old(self).wf(),
            parent < old(self).nodes@.len(),
            perm_only(mode),
        ensures
            final(self).wf(),
            create_post(
                *old(self),
                *final(self),
                parent as int,
                name@,
                TYPE_REG | mode,
                0,
                now,
                r,
                0,
            ),
            r is Ok ==> final(self).nodes@.last().is_reg(),
    {
        proof {
            lemma_type_or_perm(mode);
        }
        self.mknod(parent, name, TYPE_REG | mode, 0, now)
    }

    /// Creates a symbolic link to `target` under `parent`.  The node takes
    /// the conventional world-readable link permissions; if the body cannot
    /// be stored, the freshly allocated, never linked node is released again
    /// and the failure is reported with the volume exactly as before.
    pub fn symlink(&mut self, parent: usize, name: &str, target: &str, now: i64) -> (r: Result<
        usize,
        FsError,
    >)
        requires
            old(self).wf(),
            parent < old(self).nodes@.len(),
        ensures
            final(self).wf(),
            symlink_post(*old(self), *final(self), parent as int, name@, target@, now, r),
            r is Ok ==> final(self).nodes@.last().is_symlink(),
    {
        proof {
            crate::perm::lemma_perm_all_perm_only();
            lemma_type_or_perm(PERM_ALL);
        }
        match self.make_node(TYPE_LNK | PERM_ALL, 0, now) {
            Some(id) => {
                if self.free_units == 0 {
                    // The body found no page: release the orphan node; it was
                    // never linked, so nothing else can reach or reclaim it.
                    let _orphan = self.nodes.pop();
                    self.free_units = self.free_units + 1;
                    proof {
                        assert(final(self).nodes@ =~= old(self).nodes@);
                    }
                    Err(FsError::OutOfMemory)
                } else {
                    self.free_units = self.free_units - 1;
                    let node = &mut self.nodes[id];
                    node.link_target = Some(target.to_owned());
                    self.link_child(parent, name, id, now);
                    Ok(id)
                }
            },
            None => Err(FsError::NoSpace),
        }
    }

    /// Creates an anonymous temporary file under `parent`: allocated with
    /// the given mode, instantiated as open but unlinked — it never becomes
    /// a named child and the parent's timestamps never move.  The parent
    /// only anchors the file in the volume; by design it is not written to.
    pub fn tmpfile(&mut self, parent: usize, mode: u32, now: i64) -> (r: Result<usize, FsError>)
        requires
            old(self).wf(),
            parent < old(self).nodes@.len(),
        ensures
            final(self).wf(),
            tmpfile_post(*old(self), *final(self), mode, now, r),
    {
        match self.make_node(mode, 0, now) {
            Some(id) => {
                let node = &mut self.nodes[id];
                node.nlink = 0;
                Ok(id)
            },
            None => Err(FsError::NoSpace),
        }
    }
}

} // verus!
