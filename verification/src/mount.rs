//! Mounts, mount namespaces and the operations that a backend offers.

use crate::arena::Handle;
use crate::identity::{FsInstanceId, VnodeKey};
use crate::vnode::{Backend, MountRef};
use vstd::prelude::*;
use vstd::slice::slice_to_vec;
use vstd::string::*;

verus! {

pub const MNT_RDONLY: u32 = 0x1;
pub const MNT_NOATIME: u32 = 0x2;
pub const MNT_CASEFOLD: u32 = 0x4;
pub const MNT_POSIX_ONLY: u32 = 0x8;
pub const MNT_WIN32_ONLY: u32 = 0x10;

/// Longest path that a mount keeps of the place it sits at.
pub const MOUNT_PATH_MAX: usize = 128;

/// Reference to a vnode: its stable identity and the handle it was last seen under.
#[derive(Clone, Copy, PartialEq, Eq, Structural, Debug)]
pub struct VnodeRef {
    pub id: VnodeKey,
    pub handle: Handle,
}

impl VnodeRef {
    /// Reference to no vnode.
    #[verifier::allow_in_spec]
    pub fn invalid() -> (r: VnodeRef)
        returns
            (VnodeRef { id: VnodeKey::invalid(), handle: Handle::invalid() }),
    {
        VnodeRef { id: VnodeKey::invalid(), handle: Handle::invalid() }
    }
}

/// Mount-level operations of a backend: which ones it offers.
#[derive(Clone, Copy, PartialEq, Eq, Structural, Debug)]
pub struct VfsOps {
    pub statfs: bool,
    pub sync: bool,
    pub remount: bool,
    pub resolve_backing: bool,
    pub reclaim_vnode: bool,
}

impl VfsOps {
    /// No operation.
    #[verifier::allow_in_spec]
    pub fn empty() -> (r: VfsOps)
        returns
            (VfsOps {
                statfs: false,
                sync: false,
                remount: false,
                resolve_backing: false,
                reclaim_vnode: false,
            }),
    {
        VfsOps {
            statfs: false,
            sync: false,
            remount: false,
            resolve_backing: false,
            reclaim_vnode: false,
        }
    }
}

/// Vnode-level operations of a backend: which ones it offers.
#[derive(Clone, Copy, PartialEq, Eq, Structural, Debug)]
pub struct VnodeOps {
    pub lookup_child: bool,
    pub build_path: bool,
    pub ensure_symlink_target: bool,
    pub readlink_inline: bool,
    pub read_regular: bool,
    pub write_regular: bool,
    pub create_regular_child: bool,
    pub mkdir_child: bool,
    pub symlink_child: bool,
    pub remove_child: bool,
    pub rename_child: bool,
    pub link_vnode_into: bool,
    pub set_mode: bool,
    pub set_owner: bool,
    pub set_times: bool,
    pub truncate: bool,
    pub validate_open_regular: bool,
    pub readdir_dir: bool,
    pub supports_pager_backing: bool,
}

impl VnodeOps {
    /// No operation.
    #[verifier::allow_in_spec]
    pub fn empty() -> (r: VnodeOps)
        returns
            (VnodeOps {
                lookup_child: false,
                build_path: false,
                ensure_symlink_target: false,
                readlink_inline: false,
                read_regular: false,
                write_regular: false,
                create_regular_child: false,
                mkdir_child: false,
                symlink_child: false,
                remove_child: false,
                rename_child: false,
                link_vnode_into: false,
                set_mode: false,
                set_owner: false,
                set_times: false,
                truncate: false,
                validate_open_regular: false,
                readdir_dir: false,
                supports_pager_backing: false,
            }),
    {
        VnodeOps {
            lookup_child: false,
            build_path: false,
            ensure_symlink_target: false,
            readlink_inline: false,
            read_regular: false,
            write_regular: false,
            create_regular_child: false,
            mkdir_child: false,
            symlink_child: false,
            remove_child: false,
            rename_child: false,
            link_vnode_into: false,
            set_mode: false,
            set_owner: false,
            set_times: false,
            truncate: false,
            validate_open_regular: false,
            readdir_dir: false,
            supports_pager_backing: false,
        }
    }
}

/// One mounted filesystem.
pub struct Mount {
    pub id: u16,
    pub flags: u32,
    pub fs_instance_id: FsInstanceId,
    pub root_vnode: Handle,
    pub backend: Backend,
    /// Backend whose mount operations serve the mount.
    pub vfsops: Option<Backend>,
    /// Backend whose vnode operations new vnodes of the mount get.
    pub vops: Option<Backend>,
    pub parent: MountRef,
    /// The vnode that the mount sits on.
    pub covered: VnodeRef,
    pub fs_type: Vec<u8>,
    pub mount_path: Vec<u8>,
    /// The options that the mount was made with.
    pub opts: Vec<u8>,
}

/// A mount with its names as byte sequences.
#[verifier::ext_equal]
pub struct MountView {
    pub id: u16,
    pub flags: u32,
    pub fs_instance_id: FsInstanceId,
    pub root_vnode: Handle,
    pub backend: Backend,
    pub vfsops: Option<Backend>,
    pub vops: Option<Backend>,
    pub parent: MountRef,
    pub covered: VnodeRef,
    pub fs_type: Seq<u8>,
    pub mount_path: Seq<u8>,
    pub opts: Seq<u8>,
}

impl View for Mount {
    type V = MountView;

    open spec fn view(&self) -> MountView {
        MountView {
            id: self.id,
            flags: self.flags,
            fs_instance_id: self.fs_instance_id,
            root_vnode: self.root_vnode,
            backend: self.backend,
            vfsops: self.vfsops,
            vops: self.vops,
            parent: self.parent,
            covered: self.covered,
            fs_type: self.fs_type@,
            mount_path: self.mount_path@,
            opts: self.opts@,
        }
    }
}

impl MountView {
    /// A record with nothing set.
    pub open spec fn blank() -> MountView {
        MountView {
            id: 0,
            flags: 0,
            fs_instance_id: FsInstanceId::invalid(),
            root_vnode: Handle::invalid(),
            backend: Backend::Boot,
            vfsops: None,
            vops: None,
            parent: MountRef::invalid(),
            covered: VnodeRef::invalid(),
            fs_type: Seq::empty(),
            mount_path: Seq::empty(),
            opts: Seq::empty(),
        }
    }

    /// The mount with `path` as the place it sits at; a path that is too long is not kept.
    pub open spec fn placed(self, path: Seq<u8>) -> MountView {
        if path.len() <= MOUNT_PATH_MAX {
            MountView { mount_path: path, ..self }
        } else {
            self
        }
    }

    /// A new mount, attached nowhere.
    pub open spec fn structural(
        id: u16,
        flags: u32,
        fs_id: FsInstanceId,
        root: Handle,
        backend: Backend,
        fs_type: Seq<u8>,
        path: Seq<u8>,
    ) -> MountView {
        MountView {
            id,
            flags,
            fs_instance_id: fs_id,
            root_vnode: root,
            backend,
            vfsops: Some(backend),
            vops: Some(backend),
            fs_type,
            ..MountView::blank()
        }.placed(path)
    }

    /// The mount that the namespace starts with: no backend serves it.
    pub open spec fn boot_root(fs_id: FsInstanceId, root: Handle) -> MountView {
        MountView {
            id: 1,
            fs_instance_id: fs_id,
            root_vnode: root,
            fs_type: "bootfs".spec_bytes(),
            mount_path: "/".spec_bytes(),
            ..MountView::blank()
        }
    }
}

impl Mount {
    /// A record with nothing set.
    pub fn blank() -> (r: Mount)
        ensures
            r@ == MountView::blank(),
    {
        let r = Mount {
            id: 0,
            flags: 0,
            fs_instance_id: FsInstanceId::invalid(),
            root_vnode: Handle::invalid(),
            backend: Backend::Boot,
            vfsops: None,
            vops: None,
            parent: MountRef::invalid(),
            covered: VnodeRef::invalid(),
            fs_type: Vec::new(),
            mount_path: Vec::new(),
            opts: Vec::new(),
        };
        assert(r@ =~= MountView::blank());
        r
    }

    /// Records the place that the mount sits at; `false`, with nothing changed, when the
    /// path is too long to keep.
    pub fn set_mount_path(&mut self, path: &[u8]) -> (r: bool)
        ensures
            r == (path@.len() <= MOUNT_PATH_MAX),
            final(self)@ == old(self)@.placed(path@),
    {
        if path.len() > MOUNT_PATH_MAX {
            return false;
        }
        self.mount_path = slice_to_vec(path);
        true
    }

    /// A new mount of `backend`, attached nowhere.
    pub fn new_structural(
        id: u16,
        flags: u32,
        fs_id: FsInstanceId,
        root: Handle,
        backend: Backend,
        fs_type: &[u8],
        path: &[u8],
    ) -> (r: Mount)
        ensures
            r@ == MountView::structural(id, flags, fs_id, root, backend, fs_type@, path@),
    {
        let mut m = Mount::blank();
        m.id = id;
        m.flags = flags;
        m.fs_instance_id = fs_id;
        m.root_vnode = root;
        m.backend = backend;
        m.vfsops = Some(backend);
        m.vops = Some(backend);
        m.fs_type = slice_to_vec(fs_type);
        let _ = m.set_mount_path(path);
        m
    }

    /// The mount that the namespace starts with.
    pub fn new_boot_root(fs_id: FsInstanceId, root: Handle) -> (r: Mount)
        ensures
            r@ == MountView::boot_root(fs_id, root),
    {
        let mut m = Mount::blank();
        m.id = 1;
        m.fs_instance_id = fs_id;
        m.root_vnode = root;
        m.fs_type = slice_to_vec("bootfs".as_bytes());
        m.mount_path = slice_to_vec("/".as_bytes());
        m
    }
}

/// One view of the mount tree.
pub struct MountNamespace {
    pub refcount: u32,
    pub root_mount: Handle,
    pub mounts: Vec<Handle>,
}

/// A mount namespace with its mounts as a sequence.
#[verifier::ext_equal]
pub struct NamespaceView {
    pub refcount: u32,
    pub root_mount: Handle,
    pub mounts: Seq<Handle>,
}

impl View for MountNamespace {
    type V = NamespaceView;

    open spec fn view(&self) -> NamespaceView {
        NamespaceView {
            refcount: self.refcount,
            root_mount: self.root_mount,
            mounts: self.mounts@,
        }
    }
}

/// Whether files of a backend may be mapped through the pager, where the backend has a say:
/// generated files may not.
#[verifier::allow_in_spec]
pub fn pager_backing(backend: Backend) -> (r: Option<bool>)
    returns
        (if backend == Backend::Procfs || backend == Backend::Sysctlfs {
            Some(false)
        } else {
            None
        }),
{
    if backend == Backend::Procfs || backend == Backend::Sysctlfs {
        Some(false)
    } else {
        None
    }
}

} // verus!
