//! Mount context: the transient state between "begin mount" and "mount
//! complete or abandoned".
//!
//! A context carries the per-mount configuration record while options are
//! parsed.  The record is owned by exactly one live entity at a time: first
//! the context, then — once the superblock is populated — the mounted volume.
//! The `Option` holding it makes that single hand-off explicit.

use vstd::prelude::*;

use crate::options::{is_octal_text, octal_val, parse_octal_u32};
use crate::perm::{lemma_default_mode_perm_only, lemma_mask_is_projection, perm_only, DEFAULT_MODE,
    MODE_MASK};
use crate::status::FsError;

verus! {

/// The single configurable property of a mount: the permission mode given to
/// the root node, and shown again when the mount's options are listed.
#[derive(Clone, Copy, Debug, PartialEq, Eq, Structural)]
pub struct MountOpts {
    /// Permission bits within [`MODE_MASK`].
    pub mode: u32,
}

/// The per-mount configuration record.  Created when a mount begins, released
/// exactly once: by the context if the mount never completes, by the
/// superblock's teardown if it did.
#[derive(Clone, Copy, Debug, PartialEq, Eq, Structural)]
pub struct FsInfo {
    /// The options gathered while the mount was configured.
    pub mount_opts: MountOpts,
}

/// The mount context.  `fs_info` holds the configuration record for as long
/// as this context owns it.
pub struct FsContext {
    /// The configuration record, until it is handed to a superblock or
    /// released.
    pub fs_info: Option<FsInfo>,
}

impl FsContext {
    /// While a record is attached, its stored mode is within the valid
    /// permission range.
    pub open spec fn wf(self) -> bool {
        self.fs_info matches Some(f) ==> perm_only(f.mount_opts.mode)
    }

    /// The stored default mode, while the record is attached.
    pub open spec fn stored_mode(self) -> u32 {
        self.fs_info->Some_0.mount_opts.mode
    }

    /// Begins a mount: attaches a fresh configuration record holding the
    /// default mode.
    pub fn begin_context() -> (c: FsContext)
        ensures
            mount_begun(c),
            c.fs_info == Some(FsInfo { mount_opts: MountOpts { mode: DEFAULT_MODE } }),
            c.wf(),
    {
        proof {
            lemma_default_mode_perm_only();
        }
        FsContext { fs_info: Some(FsInfo { mount_opts: MountOpts { mode: DEFAULT_MODE } }) }
    }

    /// Accepts one raw mount parameter.
    ///
    /// The only recognized key is `mode`; its value is read as octal text,
    /// masked to the valid permission range and stored, overwriting any
    /// earlier value.  A `mode` value that does not read as octal text, or
    /// does not fit, is fatal to the mount attempt.  Every other key is
    /// accepted and ignored: this volume is commonly substituted for a richer
    /// filesystem, so foreign options must not fail the mount.
    pub fn parse_param(&mut self, key: &str, value: &str) -> (r: Result<(), FsError>)
        requires
            old(self).fs_info is Some,
            old(self).wf(),
        ensures
            parse_post(*old(self), *final(self), key@, value@, r),
    {
        if str_text_eq(key, "mode") {
            match parse_octal_u32(value) {
                Some(v) => {
                    proof {
                        lemma_mask_is_projection(v);
                    }
                    let m = v & MODE_MASK;
                    self.fs_info = Some(FsInfo { mount_opts: MountOpts { mode: m } });
                    Ok(())
                },
                None => Err(FsError::BadParameter),
            }
        } else {
            Ok(())
        }
    }

    /// Abandons or finishes the context: detaches the configuration record,
    /// if one is still attached, and hands it back for release.  Calling this
    /// on a context that already gave its record away detaches nothing.
    pub fn free_context(&mut self) -> (r: Option<FsInfo>)
        ensures
            free_post(*old(self), *final(self), r),
            final(self).fs_info is None,
            r == old(self).fs_info,
            final(self).wf(),
    {
        self.fs_info.take()
    }
}

/// A context exactly as `begin_context` hands it out: the fresh
/// configuration record holding the default mode.
pub open spec fn mount_begun(c: FsContext) -> bool {
    c.fs_info == Some(FsInfo { mount_opts: MountOpts { mode: DEFAULT_MODE } })
}

/// The transition of accepting one raw mount parameter: a recognized key
/// stores its masked value or fails the mount on a bad value; every other
/// key changes nothing and succeeds.
pub open spec fn parse_post(
    c0: FsContext,
    c1: FsContext,
    key: Seq<char>,
    value: Seq<char>,
    r: Result<(), FsError>,
) -> bool {
    &&& c1.fs_info is Some
    &&& c1.wf()
    &&& if key != "mode"@ {
        &&& r == Ok::<(), FsError>(())
        &&& c1 == c0
    } else if is_octal_text(value) && octal_val(value) <= u32::MAX {
        &&& r == Ok::<(), FsError>(())
        &&& c1.stored_mode() == (octal_val(value) as u32) & MODE_MASK
    } else {
        &&& r == Err::<(), FsError>(FsError::BadParameter)
        &&& c1 == c0
    }
}

/// The transition of abandoning or finishing a context: the record, if still
/// attached, leaves exactly once.
pub open spec fn free_post(c0: FsContext, c1: FsContext, r: Option<FsInfo>) -> bool {
    &&& c1.fs_info is None
    &&& r == c0.fs_info
}

/// Compares two strings by their text.
fn str_text_eq(a: &str, b: &str) -> (r: bool)
    ensures
        r == (a@ == b@),
{
    let owned_a: String = a.to_owned();
    let owned_b: String = b.to_owned();
    owned_a == owned_b
}

} // verus!
