//! Vnodes: the one record that the service keeps per live filesystem object.

use crate::arena::Handle;
use crate::identity::{BackendNodeId, FsInstanceId, VnodeKey};
use vstd::prelude::*;

verus! {

pub const S_IFMT: u32 = 0o170000;
pub const S_IFSOCK: u32 = 0o140000;
pub const S_IFLNK: u32 = 0o120000;
pub const S_IFREG: u32 = 0o100000;
pub const S_IFDIR: u32 = 0o040000;
pub const S_IFCHR: u32 = 0o020000;
pub const S_IFIFO: u32 = 0o010000;

pub const DT_UNKNOWN: u8 = 0;
pub const DT_FIFO: u8 = 1;
pub const DT_CHR: u8 = 2;
pub const DT_DIR: u8 = 4;
pub const DT_REG: u8 = 8;
pub const DT_LNK: u8 = 10;
pub const DT_SOCK: u8 = 12;

/// What kind of object a vnode stands for.
#[derive(Clone, Copy, PartialEq, Eq, Structural, Debug)]
pub enum VnodeType {
    Unset,
    Reg,
    Dir,
    Lnk,
    Chr,
    Blk,
    Fifo,
    Sock,
}

/// Number of a vnode type in generated inode numbers.
#[verifier::allow_in_spec]
pub fn type_code(t: VnodeType) -> (r: u8)
    returns
        (match t {
            VnodeType::Unset => 0u8,
            VnodeType::Reg => 1u8,
            VnodeType::Dir => 2u8,
            VnodeType::Lnk => 3u8,
            VnodeType::Chr => 4u8,
            VnodeType::Blk => 5u8,
            VnodeType::Fifo => 6u8,
            VnodeType::Sock => 7u8,
        }),
{
    match t {
        VnodeType::Unset => 0u8,
        VnodeType::Reg => 1u8,
        VnodeType::Dir => 2u8,
        VnodeType::Lnk => 3u8,
        VnodeType::Chr => 4u8,
        VnodeType::Blk => 5u8,
        VnodeType::Fifo => 6u8,
        VnodeType::Sock => 7u8,
    }
}

/// Entry type that a directory listing reports for a vnode type. Block devices are
/// reported as unknown.
#[verifier::allow_in_spec]
pub fn dirent_type(t: VnodeType) -> (r: u8)
    returns
        (match t {
            VnodeType::Dir => DT_DIR,
            VnodeType::Reg => DT_REG,
            VnodeType::Chr => DT_CHR,
            VnodeType::Fifo => DT_FIFO,
            VnodeType::Sock => DT_SOCK,
            VnodeType::Lnk => DT_LNK,
            VnodeType::Blk => DT_UNKNOWN,
            VnodeType::Unset => DT_UNKNOWN,
        }),
{
    match t {
        VnodeType::Dir => DT_DIR,
        VnodeType::Reg => DT_REG,
        VnodeType::Chr => DT_CHR,
        VnodeType::Fifo => DT_FIFO,
        VnodeType::Sock => DT_SOCK,
        VnodeType::Lnk => DT_LNK,
        VnodeType::Blk => DT_UNKNOWN,
        VnodeType::Unset => DT_UNKNOWN,
    }
}

/// Filesystem implementation behind a vnode or a mount.
#[derive(Clone, Copy, PartialEq, Eq, Structural, Debug)]
pub enum Backend {
    Boot,
    Tmpfs,
    Devfs,
    Procfs,
    Sysctlfs,
    Pipefs,
    Saltyfs,
}

/// Reference to a mount: its stable identity and the handle it was last seen under.
#[derive(Clone, Copy, PartialEq, Eq, Structural, Debug)]
pub struct MountRef {
    pub id: FsInstanceId,
    pub handle: Handle,
}

impl MountRef {
    /// Reference to no mount.
    #[verifier::allow_in_spec]
    pub fn invalid() -> (r: MountRef)
        returns
            (MountRef { id: FsInstanceId(0), handle: Handle { slot: u32::MAX, epoch: 0 } }),
    {
        MountRef { id: FsInstanceId(0), handle: Handle { slot: u32::MAX, epoch: 0 } }
    }
}

/// One live filesystem object.
#[derive(Clone, Copy, PartialEq, Eq, Structural, Debug)]
pub struct Vnode {
    pub vtype: VnodeType,
    pub backend: Backend,
    /// Held in place: never reclaimed while set.
    pub pinned: bool,
    /// Root of a mount.
    pub root: bool,
    /// The last name is gone.
    pub doomed: bool,
    /// Some mount sits on top.
    pub covered: bool,
    pub pin_count: u32,
    pub mode: u32,
    pub id: u64,
    pub backend_seq: u32,
    pub uid: u32,
    pub gid: u32,
    pub atime_ns: u64,
    pub mtime_ns: u64,
    pub size: u64,
    pub fs_instance_id: FsInstanceId,
    pub mount: MountRef,
    pub covered_by: MountRef,
    /// Backend whose operations serve the vnode.
    pub ops: Option<Backend>,
    /// Stored bytes of the vnode, in the table of stored bytes.
    pub data: Handle,
    pub open_count: u32,
    pub nlink: u32,
    /// Record of the vnode in its backend's own table.
    pub backend_ref: Handle,
}

impl View for Vnode {
    type V = Vnode;

    open spec fn view(&self) -> Vnode {
        *self
    }
}

impl Vnode {
    /// A record with nothing set.
    #[verifier::allow_in_spec]
    pub fn zeroed() -> (r: Vnode)
        returns
            (Vnode {
                vtype: VnodeType::Unset,
                backend: Backend::Boot,
                pinned: false,
                root: false,
                doomed: false,
                covered: false,
                pin_count: 0,
                mode: 0,
                id: 0,
                backend_seq: 0,
                uid: 0,
                gid: 0,
                atime_ns: 0,
                mtime_ns: 0,
                size: 0,
                fs_instance_id: FsInstanceId(0),
                mount: MountRef {
                    id: FsInstanceId(0),
                    handle: Handle { slot: u32::MAX, epoch: 0 },
                },
                covered_by: MountRef {
                    id: FsInstanceId(0),
                    handle: Handle { slot: u32::MAX, epoch: 0 },
                },
                ops: None,
                data: Handle { slot: u32::MAX, epoch: 0 },
                open_count: 0,
                nlink: 0,
                backend_ref: Handle { slot: u32::MAX, epoch: 0 },
            }),
    {
        let no_handle = Handle { slot: u32::MAX, epoch: 0 };
        let no_mount = MountRef { id: FsInstanceId(0), handle: no_handle };
        Vnode {
            vtype: VnodeType::Unset,
            backend: Backend::Boot,
            pinned: false,
            root: false,
            doomed: false,
            covered: false,
            pin_count: 0,
            mode: 0,
            id: 0,
            backend_seq: 0,
            uid: 0,
            gid: 0,
            atime_ns: 0,
            mtime_ns: 0,
            size: 0,
            fs_instance_id: FsInstanceId(0),
            mount: no_mount,
            covered_by: no_mount,
            ops: None,
            data: no_handle,
            open_count: 0,
            nlink: 0,
            backend_ref: no_handle,
        }
    }

    /// Root directory of a mount of instance `fs_id`: pinned in place.
    #[verifier::allow_in_spec]
    pub fn new_root_dir(fs_id: FsInstanceId) -> (r: Vnode)
        returns
            (Vnode {
                vtype: VnodeType::Dir,
                pinned: true,
                root: true,
                pin_count: 1,
                mode: S_IFDIR | 0o755,
                id: 1,
                fs_instance_id: fs_id,
                nlink: 1,
                ..Vnode::zeroed()
            }),
    {
        let mut v = Vnode::zeroed();
        v.vtype = VnodeType::Dir;
        v.pinned = true;
        v.root = true;
        v.pin_count = 1;
        v.mode = S_IFDIR | 0o755;
        v.id = 1;
        v.fs_instance_id = fs_id;
        v.nlink = 1;
        v
    }

    /// An object of the bootstrap tree: one name, nobody has it open.
    #[verifier::allow_in_spec]
    pub fn new_bootstrap(
        vtype: VnodeType,
        fs_id: FsInstanceId,
        mount: Handle,
        mode: u32,
    ) -> (r: Vnode)
        returns
            (Vnode {
                vtype,
                mode,
                fs_instance_id: fs_id,
                mount: MountRef { id: fs_id, handle: mount },
                nlink: 1,
                ..Vnode::zeroed()
            }),
    {
        let mut v = Vnode::zeroed();
        v.vtype = vtype;
        v.mode = mode;
        v.fs_instance_id = fs_id;
        v.mount = MountRef { id: fs_id, handle: mount };
        v.nlink = 1;
        v
    }

    /// Stable identity of the vnode.
    #[verifier::allow_in_spec]
    pub fn vnode_key(&self) -> (r: VnodeKey)
        returns
            (VnodeKey {
                fs_instance_id: self.fs_instance_id,
                backend_id: BackendNodeId { ino: self.id, seq: self.backend_seq },
            }),
    {
        VnodeKey {
            fs_instance_id: self.fs_instance_id,
            backend_id: BackendNodeId { ino: self.id, seq: self.backend_seq },
        }
    }

    /// The vnode with one more hold on it.
    pub open spec fn held(self) -> Vnode {
        Vnode {
            pinned: true,
            pin_count: if self.pin_count < u32::MAX {
                (self.pin_count + 1) as u32
            } else {
                u32::MAX
            },
            ..self
        }
    }

    /// The vnode with one hold less; without holds it is no longer pinned.
    pub open spec fn let_go(self) -> Vnode {
        Vnode {
            pinned: self.pin_count > 1 && self.pinned,
            pin_count: if self.pin_count > 0 {
                (self.pin_count - 1) as u32
            } else {
                0
            },
            ..self
        }
    }

    /// Takes a hold on the vnode.
    pub fn pin(&mut self)
        ensures
            *final(self) == old(self).held(),
    {
        self.pinned = true;
        self.pin_count = self.pin_count.saturating_add(1);
    }

    /// Gives a hold back.
    pub fn unpin(&mut self)
        ensures
            *final(self) == old(self).let_go(),
    {
        self.pin_count = self.pin_count.saturating_sub(1);
        if self.pin_count == 0 {
            self.pinned = false;
        }
    }
}

/// Inode number made from the slot that a vnode lives in.
pub open spec fn dynamic_id(vh: Handle, vtype: VnodeType) -> u64 {
    ((type_code(vtype) as u64) << 56) | ((vh.slot as u64) << 24) | (vh.epoch as u64)
}

/// Inode number for a vnode that its backend gave none.
pub fn bootstrap_dynamic_vnode_id(vh: Handle, vtype: VnodeType) -> (r: u64)
    ensures
        r == dynamic_id(vh, vtype),
{
    ((type_code(vtype) as u64) << 56) | ((vh.slot as u64) << 24) | (vh.epoch as u64)
}

/// In the first generations of their slots, vnodes of one type get distinct numbers.
pub proof fn law_dynamic_ids_are_distinct(a: Handle, b: Handle, t: VnodeType)
    requires
        a.epoch < 0x100_0000,
        b.epoch < 0x100_0000,
        dynamic_id(a, t) == dynamic_id(b, t),
    ensures
        a == b,
{
    let c: u64 = type_code(t) as u64;
    let s1: u64 = a.slot as u64;
    let s2: u64 = b.slot as u64;
    let e1: u64 = a.epoch as u64;
    let e2: u64 = b.epoch as u64;
    assert(s1 == s2 && e1 == e2) by (bit_vector)
        requires
            c < 8,
            s1 <= 0xffff_ffff,
            s2 <= 0xffff_ffff,
            e1 < 0x100_0000,
            e2 < 0x100_0000,
            (c << 56) | (s1 << 24) | e1 == (c << 56) | (s2 << 24) | e2,
    ;
}

} // verus!
