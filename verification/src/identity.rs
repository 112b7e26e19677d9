//! Stable names of filesystem objects.

use vstd::prelude::*;

verus! {

/// Identity of one mounted filesystem instance. Zero is reserved for "none".
#[derive(Clone, Copy, PartialEq, Eq, Structural, Debug)]
pub struct FsInstanceId(pub u64);

impl FsInstanceId {
    /// The identity that no mount has.
    #[verifier::allow_in_spec]
    pub fn invalid() -> (r: FsInstanceId)
        returns
            FsInstanceId(0),
    {
        FsInstanceId(0)
    }
}

/// A backend's name for one of its nodes: inode number and reuse sequence.
#[derive(Clone, Copy, PartialEq, Eq, Structural, Debug)]
pub struct BackendNodeId {
    pub ino: u64,
    pub seq: u32,
}

impl BackendNodeId {
    /// The name that no node has.
    #[verifier::allow_in_spec]
    pub fn invalid() -> (r: BackendNodeId)
        returns
            (BackendNodeId { ino: 0, seq: 0 }),
    {
        BackendNodeId { ino: 0, seq: 0 }
    }
}

/// Structural identity of a vnode: the mount it belongs to and its name there.
#[derive(Clone, Copy, PartialEq, Eq, Structural, Debug)]
pub struct VnodeKey {
    pub fs_instance_id: FsInstanceId,
    pub backend_id: BackendNodeId,
}

impl VnodeKey {
    /// The key that no vnode is found under.
    #[verifier::allow_in_spec]
    pub fn invalid() -> (r: VnodeKey)
        returns
            (VnodeKey {
                fs_instance_id: FsInstanceId(0),
                backend_id: BackendNodeId { ino: 0, seq: 0 },
            }),
    {
        VnodeKey { fs_instance_id: FsInstanceId(0), backend_id: BackendNodeId { ino: 0, seq: 0 } }
    }
}

} // verus!
