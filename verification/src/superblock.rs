//! The superblock: one live mounted volume, and its lifecycle.
//!
//! Population takes the configuration record from a mount context, stamps the
//! volume's fixed capabilities, and installs the root directory; teardown
//! detaches the record for its single release and discards the node arena.
//! The host's memory is modelled as a budget of allocation units the volume
//! draws on: one unit per node, one per stored symbolic-link body.

use vstd::prelude::*;

use crate::context::{FsContext, FsInfo};
use crate::node::{node_fresh, Node};
use crate::options::{octal_text, render_octal};
use crate::perm::{lemma_type_or_perm, perm_only, perm_part, DEFAULT_MODE, TYPE_DIR, TYPE_MASK};
use crate::status::FsError;

verus! {

/// Largest byte offset a file of this volume may reach.
pub const MAX_FILE_SIZE: u64 = 0x7fff_ffff_ffff_ffff;

/// Block size reported by the volume: one page.
pub const BLOCK_SIZE: u64 = 4096;

/// Bit width of the block size.
pub const BLOCK_SIZE_BITS: u8 = 12;

/// The volume's magic number.
pub const VOLUME_MAGIC: u64 = 0x858458f6;

/// Timestamp granularity: nanoseconds, since no backing store rounds them.
pub const TIME_GRANULARITY: u32 = 1;

/// One live mounted volume.
pub struct SuperBlock {
    /// The per-mount configuration record, owned here from population until
    /// teardown detaches it.
    pub fs_info: Option<FsInfo>,
    /// Fixed capability: largest file size.
    pub max_file_size: u64,
    /// Fixed capability: block size.
    pub block_size: u64,
    /// Fixed capability: bit width of the block size.
    pub block_size_bits: u8,
    /// Fixed capability: magic number.
    pub magic: u64,
    /// Fixed capability: timestamp granularity.
    pub time_granularity: u32,
    /// The node arena; a node's identity is its index.
    pub nodes: Vec<Node>,
    /// Arena index of the root directory, once installed.
    pub root: Option<usize>,
    /// Allocation units the host still grants this volume.
    pub free_units: usize,
}

impl SuperBlock {
    /// Every path entry links a node of the arena, and a stored mode is
    /// within the valid permission range.
    pub open spec fn wf(self) -> bool {
        &&& forall|i: int, j: int|
            0 <= i < self.nodes@.len() && 0 <= j < self.nodes@[i].children@.len()
                ==> (#[trigger] self.nodes@[i].children@[j]).node_id < self.nodes@.len()
        &&& self.fs_info matches Some(f) ==> perm_only(f.mount_opts.mode)
    }

    /// The stored default mode, while the configuration record is attached.
    pub open spec fn stored_mode(self) -> u32 {
        self.fs_info->Some_0.mount_opts.mode
    }

    /// Node factory: draws one allocation unit and places a fresh node in
    /// the arena, or reports exhaustion with the volume untouched.
    pub fn make_node(&mut self, mode: u32, dev: u64, now: i64) -> (r: Option<usize>)
        requires
            old(self).wf(),
        ensures
            final(self).wf(),
            mount_frame(*old(self), *final(self)),
            old(self).free_units == 0 ==> r is None && *final(self) == *old(self),
            old(self).free_units > 0 ==> {
                &&& r is Some
                &&& r->Some_0 == old(self).nodes@.len()
                &&& final(self).nodes@.len() == old(self).nodes@.len() + 1
                &&& node_fresh(final(self).nodes@.last(), mode, dev, now)
                &&& forall|i: int|
                    0 <= i < old(self).nodes@.len() ==> final(self).nodes@[i] == old(
                        self,
                    ).nodes@[i]
                &&& final(self).free_units == old(self).free_units - 1
            },
    {
        if self.free_units == 0 {
            return None;
        }
        self.free_units = self.free_units - 1;
        let id = self.nodes.len();
        let dir = (mode & TYPE_MASK) == TYPE_DIR;
        let node = Node {
            mode,
            nlink: if dir {
                2
            } else {
                1
            },
            mtime: now,
            ctime: now,
            dev,
            link_target: None,
            children: Vec::new(),
        };
        self.nodes.push(node);
        Some(id)
    }

    /// Populates a superblock from a context whose option parsing is done:
    /// the configuration record changes hands, the fixed capabilities are
    /// stamped, and the root directory is allocated with the stored mode and
    /// installed.  With no allocation unit left the mount fails for lack of
    /// space — and leaks nothing, since the record is now the superblock's
    /// and is reclaimed at teardown.
    pub fn populate_superblock(fc: &mut FsContext, free_units: usize, now: i64) -> (res: (
        SuperBlock,
        Result<(), FsError>,
    ))
        requires
            old(fc).fs_info is Some,
            old(fc).wf(),
        ensures
            final(fc).wf(),
            populate_post(*old(fc), *final(fc), res.0, res.1, free_units, now),
    {
        let mode = match &fc.fs_info {
            Some(f) => f.mount_opts.mode,
            None => DEFAULT_MODE,
        };
        let info = fc.free_context();
        let mut sb = SuperBlock {
            fs_info: info,
            max_file_size: MAX_FILE_SIZE,
            block_size: BLOCK_SIZE,
            block_size_bits: BLOCK_SIZE_BITS,
            magic: VOLUME_MAGIC,
            time_granularity: TIME_GRANULARITY,
            nodes: Vec::new(),
            root: None,
            free_units,
        };
        proof {
            lemma_type_or_perm(mode);
        }
        match sb.make_node(TYPE_DIR | mode, 0, now) {
            Some(id) => {
                sb.root = Some(id);
                (sb, Ok(()))
            },
            None => (sb, Err(FsError::NoSpace)),
        }
    }

    /// Tears the mount down: detaches the configuration record — handing it
    /// back for its single release — and discards every node still reachable
    /// from the root, which is the whole arena.
    pub fn kill_superblock(&mut self) -> (r: Option<FsInfo>)
        ensures
            kill_post(*old(self), *final(self), r),
            final(self).wf(),
    {
        let info = self.fs_info.take();
        self.nodes = Vec::new();
        self.root = None;
        info
    }

    /// Shows the mount's options: the mode in octal when it differs from the
    /// default, nothing otherwise.  Never fails.
    pub fn show_options(&self) -> (s: String)
        requires
            self.fs_info is Some,
        ensures
            self.stored_mode() == DEFAULT_MODE ==> s@ == Seq::<char>::empty(),
            self.stored_mode() != DEFAULT_MODE ==> s@ == ",mode="@ + octal_text(
                self.stored_mode() as nat,
            ),
    {
        let mode = match &self.fs_info {
            Some(f) => f.mount_opts.mode,
            None => DEFAULT_MODE,
        };
        if mode != DEFAULT_MODE {
            let mut s = String::from_str(",mode=");
            let digits = render_octal(mode);
            s.append(digits.as_str());
            s
        } else {
            let s = String::new();
            proof {
                assert(s@ =~= Seq::<char>::empty());
            }
            s
        }
    }
}

/// The parts of a volume no directory operation may move: the configuration
/// record, the root, and the fixed capabilities.
pub open spec fn mount_frame(s0: SuperBlock, s1: SuperBlock) -> bool {
    &&& s1.fs_info == s0.fs_info
    &&& s1.root == s0.root
    &&& s1.max_file_size == s0.max_file_size
    &&& s1.block_size == s0.block_size
    &&& s1.block_size_bits == s0.block_size_bits
    &&& s1.magic == s0.magic
    &&& s1.time_granularity == s0.time_granularity
}

/// The transition of a successful or failed superblock population.
pub open spec fn populate_post(
    c0: FsContext,
    c1: FsContext,
    sb: SuperBlock,
    st: Result<(), FsError>,
    units: usize,
    now: i64,
) -> bool {
    &&& c1.fs_info is None
    &&& sb.fs_info == c0.fs_info
    &&& sb.wf()
    &&& sb.max_file_size == MAX_FILE_SIZE
    &&& sb.block_size == BLOCK_SIZE
    &&& sb.block_size_bits == BLOCK_SIZE_BITS
    &&& sb.magic == VOLUME_MAGIC
    &&& sb.time_granularity == TIME_GRANULARITY
    &&& if units == 0 {
        &&& st == Err::<(), FsError>(FsError::NoSpace)
        &&& sb.nodes@.len() == 0
        &&& sb.root is None
        &&& sb.free_units == 0
    } else {
        &&& st == Ok::<(), FsError>(())
        &&& sb.nodes@.len() == 1
        &&& sb.root == Some(0usize)
        &&& node_fresh(sb.nodes@[0], TYPE_DIR | c0.stored_mode(), 0, now)
        &&& sb.nodes@[0].is_dir()
        &&& perm_part(sb.nodes@[0].mode) == c0.stored_mode()
        &&& sb.free_units == units - 1
    }
}

/// The transition of a teardown: the record leaves exactly once, the arena
/// is discarded, the capabilities remain readable.
pub open spec fn kill_post(s0: SuperBlock, s1: SuperBlock, r: Option<FsInfo>) -> bool {
    &&& r == s0.fs_info
    &&& s1.fs_info is None
    &&& s1.nodes@.len() == 0
    &&& s1.root is None
    &&& s1.free_units == s0.free_units
    &&& s1.max_file_size == s0.max_file_size
    &&& s1.block_size == s0.block_size
    &&& s1.block_size_bits == s0.block_size_bits
    &&& s1.magic == s0.magic
    &&& s1.time_granularity == s0.time_granularity
}

} // verus!
