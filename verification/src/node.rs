//! Nodes and path entries: what the volume's directory tree is made of.
//!
//! A node is one file, directory or symbolic link, held in the arena of its
//! superblock and addressed by arena index.  A path entry is a named link
//! from a directory to such an index.  Nodes are shared and reference-counted
//! by the surrounding system; the link count recorded here is the count this
//! core is responsible for.

use vstd::prelude::*;

use crate::perm::{type_part, TYPE_DIR, TYPE_LNK, TYPE_REG};

verus! {

/// A named link from a directory to a node of the same volume.
pub struct DirEntry {
    /// The entry's name.
    pub name: String,
    /// Arena index of the node this entry links.
    pub node_id: usize,
    /// Whether an extra reference pins this entry, as the directory
    /// operations take one right after linking.
    pub pinned: bool,
}

/// One node of the volume.
pub struct Node {
    /// File-type and permission bits.
    pub mode: u32,
    /// Link count: the self-reference of a directory and the named links
    /// accounted by the directory operations.
    pub nlink: u32,
    /// Modification timestamp.
    pub mtime: i64,
    /// Change timestamp.
    pub ctime: i64,
    /// Device number handed to the node factory, for special nodes.
    pub dev: u64,
    /// The body of a symbolic link, once stored.
    pub link_target: Option<String>,
    /// The named children; only a directory has any.
    pub children: Vec<DirEntry>,
}

impl Node {
    /// The node is a directory.
    pub open spec fn is_dir(self) -> bool {
        type_part(self.mode) == TYPE_DIR
    }

    /// The node is a regular file.
    pub open spec fn is_reg(self) -> bool {
        type_part(self.mode) == TYPE_REG
    }

    /// The node is a symbolic link.
    pub open spec fn is_symlink(self) -> bool {
        type_part(self.mode) == TYPE_LNK
    }

    /// Some entry of this directory links the given node.
    pub open spec fn names_child(self, id: int) -> bool {
        exists|j: int|
            0 <= j < self.children@.len() && (#[trigger] self.children@[j]).node_id == id
    }
}

/// Holds of a node just produced by the node factory: the requested mode and
/// device, both timestamps at the present instant, no body, no children, and
/// a link count of one — two for a directory, whose self-reference is
/// accounted at allocation.
pub open spec fn node_fresh(n: Node, mode: u32, dev: u64, now: i64) -> bool {
    &&& n.mode == mode
    &&& n.nlink == if type_part(mode) == TYPE_DIR {
        2u32
    } else {
        1u32
    }
    &&& n.mtime == now
    &&& n.ctime == now
    &&& n.dev == dev
    &&& n.link_target is None
    &&& n.children@.len() == 0
}

/// Holds when a directory gained exactly one path entry — named `name`,
/// linking `child`, pinned — and had both of its timestamps stamped to the
/// same instant `now`, while its mode, device, body and link count are left
/// for the operation itself to account.
pub open spec fn entry_linked(d0: Node, d1: Node, name: Seq<char>, child: int, now: i64) -> bool {
    &&& d1.children@.len() == d0.children@.len() + 1
    &&& forall|j: int| 0 <= j < d0.children@.len() ==> d1.children@[j] == d0.children@[j]
    &&& d1.children@.last().name@ == name
    &&& d1.children@.last().node_id == child
    &&& d1.children@.last().pinned
    &&& d1.mtime == now
    &&& d1.ctime == now
    &&& d1.mode == d0.mode
    &&& d1.dev == d0.dev
    &&& d1.link_target == d0.link_target
}

} // verus!
