//! Changes to the bootstrap tree: making, linking, removing and renaming its objects.

use crate::arena::Handle;
use crate::bootstrap::{
    boot_child, dir_empty, entry_index, lemma_entry_index, lemma_only_entry, lemma_same_entry,
    mode_for, name_fits, names_apart, service_mode, BOOTSTRAP_NAME_MAX,
};
use crate::bytes::{cut, law_same_name_is_equivalence, same_name};
use crate::files::{PERS_POSIX, PERS_WIN32};
use crate::fs::records::Blob;
use crate::fs::tmpfs::alloc_inode;
use crate::fs::tmpfs_dir::{create_regular_child, mkdir_child, one_less, one_more, symlink_child};
use crate::fs::tmpfs_file::{
    overwritten, owner_or, pick_owner, pick_time, time_or, write_over,
};
use crate::identity::FsInstanceId;
use crate::state::{BootEntry, BootEntryView, VfsModel, VfsState};
use crate::status::Status;
use crate::vnode::{
    bootstrap_dynamic_vnode_id, dynamic_id, Backend, Vnode, VnodeType, S_IFDIR, S_IFMT, S_IFREG,
};
use vstd::prelude::*;
use vstd::slice::slice_to_vec;
use vstd::string::*;

verus! {

/// Inode number of a device: its kind and its number within the kind.
#[verifier::allow_in_spec]
pub fn device_inode(kind: u8, sub_id: u32) -> (r: u64)
    returns
        (((kind as u64) << 32) | (sub_id as u64)),
{
    ((kind as u64) << 32) | (sub_id as u64)
}

/// Mode of a file of the bootstrap tree: a regular file with these permissions.
#[verifier::allow_in_spec]
pub fn bootstrap_file_mode(mode: u32) -> (r: u32)
    returns
        ((mode & !S_IFMT) | S_IFREG),
{
    (mode & !S_IFMT) | S_IFREG
}

/// Whether case counts for clients of a personality.
#[verifier::allow_in_spec]
pub fn personality_ignore_case(personality: u8) -> (r: bool)
    returns
        personality == PERS_WIN32,
{
    personality == PERS_WIN32
}

impl VfsModel {
    /// The mount that objects in directory `parent` belong to.
    pub open spec fn home_mount(self, parent: Handle) -> Handle {
        if self.vnodes.at(parent).mount.handle.is_valid() {
            self.vnodes.at(parent).mount.handle
        } else {
            self.root_mount
        }
    }

    /// Why nothing can be made in `parent`: it is not a directory, or not there.
    pub open spec fn parent_refused(self, parent: Handle) -> Option<Status> {
        match self.vnodes.entry(parent) {
            None => Some(Status::NotFound),
            Some(vn) => if vn.vtype != VnodeType::Dir {
                Some(Status::NotDirectory)
            } else {
                None
            },
        }
    }

    /// The state with vnode `v` under another inode number.
    pub open spec fn renumbered(self, v: Handle, id: u64) -> VfsModel {
        match self.vnodes.entry(v) {
            Some(vn) => self.with_vnode(v, Vnode { id, ..vn }),
            None => self,
        }
    }

    /// The state with what vnode `v` lacks taken from its mount: an inode number, the
    /// operations and the backend.
    pub open spec fn defaults_applied(self, v: Handle, t: VnodeType) -> VfsModel {
        match self.vnodes.entry(v) {
            None => self,
            Some(vn) => {
                let mount = vn.mount.handle;
                if !mount.is_valid() {
                    if vn.id == 0 {
                        self.renumbered(v, dynamic_id(v, t))
                    } else {
                        self
                    }
                } else {
                    let tmpfs = self.mounts.has(mount) && self.mounts.at(mount).backend
                        == Backend::Tmpfs;
                    let id = match self.fresh_inode(mount) {
                        Some(i) => if tmpfs {
                            i
                        } else {
                            dynamic_id(v, t)
                        },
                        None => dynamic_id(v, t),
                    };
                    let s = if tmpfs {
                        self.inode_numbered(mount)
                    } else {
                        self
                    };
                    s.with_vnode(
                        v,
                        Vnode {
                            id: if vn.id == 0 {
                                id
                            } else {
                                vn.id
                            },
                            ops: if vn.ops is Some {
                                vn.ops
                            } else {
                                match self.mounts.entry(mount) {
                                    Some(mt) => mt.vops,
                                    None => None,
                                }
                            },
                            backend: if vn.backend == Backend::Boot {
                                match self.mounts.entry(mount) {
                                    Some(mt) => mt.backend,
                                    None => Backend::Boot,
                                }
                            } else {
                                vn.backend
                            },
                            ..vn
                        },
                    ).cached(v)
                }
            },
        }
    }

    /// The state with an object `vn` called `name` in `parent`, and the object. Without a
    /// free vnode nothing happens; without room for the name the vnode stays.
    pub open spec fn object_added(self, parent: Handle, name: Seq<u8>, vn: Vnode) -> (
        VfsModel,
        Option<Handle>,
    ) {
        match self.vnodes.next() {
            None => (self, None),
            Some(v) => {
                let s = VfsModel { vnodes: self.vnodes.grown(vn), ..self }.defaults_applied(
                    v,
                    vn.vtype,
                );
                (
                    s.named(parent, v, name),
                    if name_fits(s.boot_entries, name) {
                        Some(v)
                    } else {
                        None
                    },
                )
            },
        }
    }

    /// The state with bytes stored, and where. Nothing is stored of no bytes.
    pub open spec fn bytes_stored(self, content: Seq<u8>) -> (VfsModel, Option<Handle>) {
        if content.len() == 0 {
            (self, Some(Handle::invalid()))
        } else {
            (
                VfsModel { blobs: self.blobs.grown(content), ..self },
                self.blobs.next(),
            )
        }
    }

    /// The state with a file called `name` in `parent`, and the file. What already has the
    /// name is taken as the file.
    pub open spec fn file_added(
        self,
        parent: Handle,
        mount: Handle,
        fs_id: FsInstanceId,
        name: Seq<u8>,
        id: u64,
        mode: u32,
        content: Seq<u8>,
    ) -> (VfsModel, Option<Handle>) {
        match boot_child(self.boot_entries, parent, name, false) {
            Some(v) => (self, Some(v)),
            None => {
                let (s, stored) = self.bytes_stored(content);
                match stored {
                    None => (s, None),
                    Some(data) => s.object_added(
                        parent,
                        name,
                        Vnode {
                            id,
                            size: content.len() as u64,
                            data,
                            ..Vnode::new_bootstrap(
                                VnodeType::Reg,
                                fs_id,
                                mount,
                                bootstrap_file_mode(mode),
                            )
                        },
                    ),
                }
            },
        }
    }

    /// The state with a character device called `name` in `parent`, and the device.
    pub open spec fn device_added(
        self,
        parent: Handle,
        mount: Handle,
        fs_id: FsInstanceId,
        name: Seq<u8>,
        mode: u32,
        ino: u64,
        generation: u32,
    ) -> (VfsModel, Option<Handle>) {
        match boot_child(self.boot_entries, parent, name, false) {
            Some(v) => (self, Some(v)),
            None => {
                let (s, made) = self.object_added(
                    parent,
                    name,
                    Vnode {
                        id: ino,
                        backend_seq: generation,
                        ..Vnode::new_bootstrap(VnodeType::Chr, fs_id, mount, mode)
                    },
                );
                match (self.vnodes.next(), made) {
                    (Some(v), None) => {
                        let t = s.uncached(v);
                        (VfsModel { vnodes: t.vnodes.dropped(v), ..t }, None)
                    },
                    _ => (s, made),
                }
            },
        }
    }

    /// The state with a made object under the number of its slot, and what came of it.
    pub open spec fn slot_numbered(
        made: (VfsModel, Option<Handle>),
        t: VnodeType,
    ) -> (VfsModel, Result<Handle, Status>) {
        match made.1 {
            Some(v) => (made.0.renumbered(v, dynamic_id(v, t)).cached(v), Ok(v)),
            None => (made.0, Err(Status::OutOfMemory)),
        }
    }

    /// What comes of making an empty file called `name` in `parent`.
    pub open spec fn regular_made(self, parent: Handle, name: Seq<u8>, mode: u32, fold: bool) -> (
        VfsModel,
        Result<Handle, Status>,
    ) {
        match self.parent_refused(parent) {
            Some(e) => (self, Err(e)),
            None => if boot_child(self.boot_entries, parent, name, fold) is Some {
                (self, Err(Status::AlreadyExists))
            } else {
                VfsModel::slot_numbered(
                    self.file_added(
                        parent,
                        self.home_mount(parent),
                        self.vnodes.at(parent).fs_instance_id,
                        name,
                        0,
                        mode,
                        Seq::empty(),
                    ),
                    VnodeType::Reg,
                )
            },
        }
    }

    /// What comes of making a directory called `name` in `parent`.
    pub open spec fn dir_made(self, parent: Handle, name: Seq<u8>, mode: u32, fold: bool) -> (
        VfsModel,
        Result<Handle, Status>,
    ) {
        match self.parent_refused(parent) {
            Some(e) => (self, Err(e)),
            None => if boot_child(self.boot_entries, parent, name, fold) is Some {
                (self, Err(Status::AlreadyExists))
            } else {
                VfsModel::slot_numbered(
                    self.object_added(
                        parent,
                        name,
                        Vnode::new_bootstrap(
                            VnodeType::Dir,
                            self.vnodes.at(parent).fs_instance_id,
                            self.home_mount(parent),
                            mode,
                        ),
                    ),
                    VnodeType::Dir,
                )
            },
        }
    }

    /// What comes of making an object without defaults from the mount in `parent`: when the
    /// name does not fit, the vnode is reclaimed as far as its link count lets it.
    pub open spec fn plain_made(self, parent: Handle, name: Seq<u8>, vn: Vnode) -> (
        VfsModel,
        Result<Handle, Status>,
    ) {
        match self.vnodes.next() {
            None => (self, Err(Status::OutOfMemory)),
            Some(v) => {
                let s = VfsModel {
                    vnodes: self.vnodes.grown(Vnode { id: dynamic_id(v, vn.vtype), ..vn }),
                    ..self
                }.cached(v);
                if name_fits(s.boot_entries, name) {
                    (s.named(parent, v, name), Ok(v))
                } else {
                    (s.reclaimed(v), Err(Status::OutOfMemory))
                }
            },
        }
    }

    /// What comes of making a symlink called `name` to `target` in `parent`.
    pub open spec fn link_made(
        self,
        parent: Handle,
        name: Seq<u8>,
        mode: u32,
        target: Seq<u8>,
        fold: bool,
    ) -> (VfsModel, Result<Handle, Status>) {
        match self.parent_refused(parent) {
            Some(e) => (self, Err(e)),
            None => if boot_child(self.boot_entries, parent, name, fold) is Some {
                (self, Err(Status::AlreadyExists))
            } else {
                let (s, stored) = self.bytes_stored(target);
                match stored {
                    None => (s, Err(Status::OutOfMemory)),
                    Some(data) => s.plain_made(
                        parent,
                        name,
                        Vnode {
                            size: target.len() as u64,
                            data,
                            ..Vnode::new_bootstrap(
                                VnodeType::Lnk,
                                self.vnodes.at(parent).fs_instance_id,
                                self.home_mount(parent),
                                mode,
                            )
                        },
                    ),
                }
            },
        }
    }

    /// What comes of making a named pipe or a socket called `name` in `parent`.
    pub open spec fn special_made(
        self,
        parent: Handle,
        name: Seq<u8>,
        mode: u32,
        t: VnodeType,
        fold: bool,
    ) -> (VfsModel, Result<Handle, Status>) {
        match self.parent_refused(parent) {
            Some(e) => (self, Err(e)),
            None => if boot_child(self.boot_entries, parent, name, fold) is Some {
                (self, Err(Status::AlreadyExists))
            } else {
                self.plain_made(
                    parent,
                    name,
                    Vnode::new_bootstrap(
                        t,
                        self.vnodes.at(parent).fs_instance_id,
                        self.home_mount(parent),
                        mode,
                    ),
                )
            },
        }
    }
}

impl VfsState {
    /// Gives a vnode what it lacks from its mount.
    pub fn apply_mount_vnode_defaults(&mut self, vnode: Handle, fallback_vtype: VnodeType)
        ensures
            final(self)@ == old(self)@.defaults_applied(vnode, fallback_vtype),
    {
        let vn: Vnode = match self.vnodes.get(vnode) {
            Some(vn) => *vn,
            None => {
                return;
            },
        };
        let fallback: u64 = bootstrap_dynamic_vnode_id(vnode, fallback_vtype);
        let mount = vn.mount.handle;
        if !mount.is_valid() {
            if vn.id == 0 {
                let mut changed = vn;
                changed.id = fallback;
                let _ = self.vnodes.set(vnode, changed);
            }
            return;
        }
        let (vops, backend) = match self.mounts.get(mount) {
            Some(mt) => (mt.vops, mt.backend),
            None => (None, Backend::Boot),
        };
        let assigned: u64 = if backend == Backend::Tmpfs {
            match alloc_inode(self, mount) {
                Some(i) => i,
                None => fallback,
            }
        } else {
            fallback
        };
        let mut changed = vn;
        if vn.id == 0 {
            changed.id = assigned;
        }
        if vn.ops.is_none() {
            changed.ops = vops;
        }
        if vn.backend == Backend::Boot {
            changed.backend = backend;
        }
        let _ = self.vnodes.set(vnode, changed);
        self.cache_vnode_key(vnode);
    }

    fn add_object(&mut self, parent: Handle, name: &[u8], vn: Vnode) -> (r: Option<Handle>)
        ensures
            final(self)@ == old(self)@.object_added(parent, name@, vn).0,
            r == old(self)@.object_added(parent, name@, vn).1,
    {
        let v = match self.vnodes.reserve(vn) {
            Some(v) => v,
            None => {
                return None;
            },
        };
        self.apply_mount_vnode_defaults(v, vn.vtype);
        if !self.add_bootstrap_dir_entry(parent, v, name) {
            return None;
        }
        Some(v)
    }

    fn renumber(&mut self, v: Handle, id: u64)
        ensures
            final(self)@ == old(self)@.renumbered(v, id),
    {
        if let Some(vn) = self.vnodes.get_mut(v) {
            vn.id = id;
        }
    }

    /// Makes a directory in the bootstrap tree.
    pub fn create_bootstrap_dir(
        &mut self,
        parent: Handle,
        mount: Handle,
        fs_id: FsInstanceId,
        name: &[u8],
        vnode_id: u64,
        mode: u32,
    ) -> (r: Option<Handle>)
        ensures
            ({
                let made = old(self)@.object_added(
                    parent,
                    name@,
                    Vnode {
                        id: vnode_id,
                        ..Vnode::new_bootstrap(VnodeType::Dir, fs_id, mount, mode)
                    },
                );
                r == made.1 && final(self)@ == made.0
            }),
    {
        let mut vn = Vnode::new_bootstrap(VnodeType::Dir, fs_id, mount, mode);
        vn.id = vnode_id;
        self.add_object(parent, name, vn)
    }

    /// Stores the bytes of a file or a link.
    pub fn bootstrap_file_storage(&mut self, content: &[u8]) -> (r: Option<Handle>)
        ensures
            final(self)@ == old(self)@.bytes_stored(content@).0,
            r == old(self)@.bytes_stored(content@).1,
    {
        if content.len() == 0 {
            return Some(Handle::invalid());
        }
        self.blobs.reserve(Blob { bytes: slice_to_vec(content) })
    }

    /// Makes a file in the bootstrap tree.
    pub fn create_bootstrap_file(
        &mut self,
        parent: Handle,
        mount: Handle,
        fs_id: FsInstanceId,
        name: &[u8],
        vnode_id: u64,
        mode: u32,
        content: &[u8],
    ) -> (r: Option<Handle>)
        ensures
            ({
                let made = old(self)@.file_added(
                    parent,
                    mount,
                    fs_id,
                    name@,
                    vnode_id,
                    mode,
                    content@,
                );
                r == made.1 && final(self)@ == made.0
            }),
    {
        if let Some(v) = self.bootstrap_lookup_child(parent, name) {
            return Some(v);
        }
        let data = match self.bootstrap_file_storage(content) {
            Some(d) => d,
            None => {
                return None;
            },
        };
        let mut vn = Vnode::new_bootstrap(VnodeType::Reg, fs_id, mount, bootstrap_file_mode(mode));
        vn.id = vnode_id;
        vn.size = content.len() as u64;
        vn.data = data;
        self.add_object(parent, name, vn)
    }

    /// Makes a character device in the bootstrap tree.
    pub fn create_bootstrap_char_device(
        &mut self,
        parent: Handle,
        mount: Handle,
        fs_id: FsInstanceId,
        name: &[u8],
        mode: u32,
        kind: u8,
        sub_id: u32,
        generation: u32,
    ) -> (r: Option<Handle>)
        ensures
            ({
                let made = old(self)@.device_added(
                    parent,
                    mount,
                    fs_id,
                    name@,
                    mode,
                    device_inode(kind, sub_id),
                    generation,
                );
                r == made.1 && final(self)@ == made.0
            }),
    {
        if let Some(v) = self.bootstrap_lookup_child(parent, name) {
            return Some(v);
        }
        let mut vn = Vnode::new_bootstrap(VnodeType::Chr, fs_id, mount, mode);
        vn.id = device_inode(kind, sub_id);
        vn.backend_seq = generation;
        let v = match self.vnodes.reserve(vn) {
            Some(v) => v,
            None => {
                return None;
            },
        };
        self.apply_mount_vnode_defaults(v, VnodeType::Chr);
        if !self.add_bootstrap_dir_entry(parent, v, name) {
            self.uncache_vnode_key(v);
            let _ = self.vnodes.release(v);
            return None;
        }
        Some(v)
    }

    /// How a client sees the namespace.
    pub fn client_personality(&self, client: Handle) -> (r: u8)
        ensures
            r == (match self@.clients.entry(client) {
                Some(c) => c.personality,
                None => PERS_POSIX,
            }),
    {
        match self.clients.get(client) {
            Some(c) => c.personality_of(),
            None => PERS_POSIX,
        }
    }

    fn parent_check(&self, parent: Handle) -> (r: Result<Vnode, Status>)
        ensures
            match self@.parent_refused(parent) {
                Some(e) => r == Err::<Vnode, Status>(e),
                None => r == Ok::<Vnode, Status>(self@.vnodes.at(parent)) && self@.vnodes.has(
                    parent,
                ),
            },
    {
        match self.vnodes.get(parent) {
            None => Err(Status::NotFound),
            Some(vn) => if vn.vtype != VnodeType::Dir {
                Err(Status::NotDirectory)
            } else {
                Ok(*vn)
            },
        }
    }

    fn home_of(&self, vn: &Vnode) -> (r: Handle)
        ensures
            r == (if vn.mount.handle.is_valid() {
                vn.mount.handle
            } else {
                self@.root_mount
            }),
    {
        if vn.mount.handle.is_valid() {
            vn.mount.handle
        } else {
            self.root_mount
        }
    }

    fn make_regular(&mut self, parent: Handle, name: &[u8], mode: u32, fold: bool) -> (r: Result<
        Handle,
        Status,
    >)
        ensures
            final(self)@ == old(self)@.regular_made(parent, name@, mode, fold).0,
            r == old(self)@.regular_made(parent, name@, mode, fold).1,
    {
        let vn = match self.parent_check(parent) {
            Ok(vn) => vn,
            Err(e) => {
                return Err(e);
            },
        };
        if self.bootstrap_lookup_child_with_case(parent, name, fold).is_some() {
            return Err(Status::AlreadyExists);
        }
        let mount = self.home_of(&vn);
        let nothing: Vec<u8> = Vec::new();
        assert(nothing@ =~= Seq::<u8>::empty());
        let v = match self.create_bootstrap_file(
            parent,
            mount,
            vn.fs_instance_id,
            name,
            0,
            mode,
            nothing.as_slice(),
        ) {
            Some(v) => v,
            None => {
                return Err(Status::OutOfMemory);
            },
        };
        self.renumber(v, bootstrap_dynamic_vnode_id(v, VnodeType::Reg));
        self.cache_vnode_key(v);
        Ok(v)
    }

    fn make_dir(&mut self, parent: Handle, name: &[u8], mode: u32, fold: bool) -> (r: Result<
        Handle,
        Status,
    >)
        ensures
            final(self)@ == old(self)@.dir_made(parent, name@, mode, fold).0,
            r == old(self)@.dir_made(parent, name@, mode, fold).1,
    {
        let vn = match self.parent_check(parent) {
            Ok(vn) => vn,
            Err(e) => {
                return Err(e);
            },
        };
        if self.bootstrap_lookup_child_with_case(parent, name, fold).is_some() {
            return Err(Status::AlreadyExists);
        }
        let mount = self.home_of(&vn);
        let v = match self.create_bootstrap_dir(parent, mount, vn.fs_instance_id, name, 0, mode) {
            Some(v) => v,
            None => {
                return Err(Status::OutOfMemory);
            },
        };
        self.renumber(v, bootstrap_dynamic_vnode_id(v, VnodeType::Dir));
        self.cache_vnode_key(v);
        Ok(v)
    }

    fn make_plain(&mut self, parent: Handle, name: &[u8], vn: Vnode) -> (r: Result<Handle, Status>)
        ensures
            final(self)@ == old(self)@.plain_made(parent, name@, vn).0,
            r == old(self)@.plain_made(parent, name@, vn).1,
    {
        let ghost before = self@;
        let v = match self.vnodes.reserve(vn) {
            Some(v) => v,
            None => {
                return Err(Status::OutOfMemory);
            },
        };
        let mut numbered = vn;
        numbered.id = bootstrap_dynamic_vnode_id(v, vn.vtype);
        let _ = self.vnodes.set(v, numbered);
        proof {
            before.vnodes.lemma_grown_put(vn, numbered);
        }
        self.cache_vnode_key(v);
        if !self.add_bootstrap_dir_entry(parent, v, name) {
            self.reclaim_bootstrap_vnode(v);
            return Err(Status::OutOfMemory);
        }
        Ok(v)
    }

    fn make_link(&mut self, parent: Handle, name: &[u8], mode: u32, target: &[u8], fold: bool) -> (r:
        Result<Handle, Status>)
        ensures
            final(self)@ == old(self)@.link_made(parent, name@, mode, target@, fold).0,
            r == old(self)@.link_made(parent, name@, mode, target@, fold).1,
    {
        let pvn = match self.parent_check(parent) {
            Ok(vn) => vn,
            Err(e) => {
                return Err(e);
            },
        };
        if self.bootstrap_lookup_child_with_case(parent, name, fold).is_some() {
            return Err(Status::AlreadyExists);
        }
        let mount = self.home_of(&pvn);
        let data = match self.bootstrap_file_storage(target) {
            Some(d) => d,
            None => {
                return Err(Status::OutOfMemory);
            },
        };
        let mut vn = Vnode::new_bootstrap(VnodeType::Lnk, pvn.fs_instance_id, mount, mode);
        vn.size = target.len() as u64;
        vn.data = data;
        self.make_plain(parent, name, vn)
    }

    fn make_special(&mut self, parent: Handle, name: &[u8], mode: u32, t: VnodeType, fold: bool)
        -> (r: Result<Handle, Status>)
        ensures
            final(self)@ == old(self)@.special_made(parent, name@, mode, t, fold).0,
            r == old(self)@.special_made(parent, name@, mode, t, fold).1,
    {
        let pvn = match self.parent_check(parent) {
            Ok(vn) => vn,
            Err(e) => {
                return Err(e);
            },
        };
        if self.bootstrap_lookup_child_with_case(parent, name, fold).is_some() {
            return Err(Status::AlreadyExists);
        }
        let mount = self.home_of(&pvn);
        self.make_plain(parent, name, Vnode::new_bootstrap(t, pvn.fs_instance_id, mount, mode))
    }
}

impl VfsModel {
    /// What comes of making an empty file at `path`. In a directory of the in-memory
    /// filesystem the file is made there.
    pub open spec fn regular_path_made(self, path: Seq<u8>, mode: u32, now: u64) -> (
        VfsModel,
        Result<Handle, Status>,
    ) {
        match self.boot_parent_of_path(path, service_mode()) {
            None => (self, Err(Status::InvalidArgument)),
            Some((parent, leaf)) => {
                let name = path.skip(leaf);
                if self.parent_refused(parent) is None && self.vnodes.at(parent).backend
                    == Backend::Tmpfs {
                    (
                        self.child_made(
                            parent,
                            name,
                            (mode & !S_IFMT) | S_IFREG,
                            VnodeType::Reg,
                            now,
                        ),
                        self.child_outcome(parent, name),
                    )
                } else {
                    self.regular_made(parent, name, mode, false)
                }
            },
        }
    }

    /// What comes of making a directory at `path`. In a directory of the in-memory
    /// filesystem the directory is made there.
    pub open spec fn dir_path_made(self, path: Seq<u8>, mode: u32, now: u64) -> (
        VfsModel,
        Result<Handle, Status>,
    ) {
        match self.boot_parent_of_path(path, service_mode()) {
            None => (self, Err(Status::InvalidArgument)),
            Some((parent, leaf)) => {
                let name = path.skip(leaf);
                if self.parent_refused(parent) is None && self.vnodes.at(parent).backend
                    == Backend::Tmpfs {
                    (
                        self.child_made(
                            parent,
                            name,
                            (mode & !S_IFMT) | S_IFDIR,
                            VnodeType::Dir,
                            now,
                        ),
                        self.child_outcome(parent, name),
                    )
                } else {
                    self.dir_made(parent, name, mode, false)
                }
            },
        }
    }

    /// What comes of making a symlink to `target` at `path`. In a directory of the in-memory
    /// filesystem the link is made there.
    pub open spec fn link_path_made(self, path: Seq<u8>, mode: u32, target: Seq<u8>, now: u64) -> (
        VfsModel,
        Result<Handle, Status>,
    ) {
        match self.boot_parent_of_path(path, service_mode()) {
            None => (self, Err(Status::InvalidArgument)),
            Some((parent, leaf)) => {
                let name = path.skip(leaf);
                if self.parent_refused(parent) is None && self.vnodes.at(parent).backend
                    == Backend::Tmpfs {
                    (
                        self.symlink_made(parent, name, target, now),
                        match self.symlink_refused(parent, name, target) {
                            Some(e) => Err(e),
                            None => Ok(self.vnodes.next()->0),
                        },
                    )
                } else {
                    self.link_made(parent, name, mode, target, false)
                }
            },
        }
    }

    /// Why the name at position `i` cannot be taken away.
    pub open spec fn unlink_refused(self, i: int, want_dir: bool) -> Option<Status> {
        let child = self.boot_entries[i].vnode;
        match self.vnodes.entry(child) {
            None => Some(Status::NotFound),
            Some(vn) => if want_dir && vn.vtype != VnodeType::Dir {
                Some(Status::NotDirectory)
            } else if want_dir && !dir_empty(self.boot_entries, child) {
                Some(Status::Busy)
            } else if !want_dir && vn.vtype == VnodeType::Dir {
                Some(Status::IsDirectory)
            } else if vn.root || vn.covered_by.handle.is_valid() {
                Some(Status::Busy)
            } else {
                None
            },
        }
    }

    /// The state with vnode `v` one name poorer; without a name it is doomed.
    pub open spec fn name_lost(self, v: Handle) -> VfsModel {
        match self.vnodes.entry(v) {
            None => self,
            Some(vn) => self.with_vnode(
                v,
                Vnode {
                    nlink: one_less(vn.nlink),
                    doomed: vn.doomed || one_less(vn.nlink) == 0,
                    ..vn
                },
            ),
        }
    }

    /// What comes of taking away the name `name` in `parent`.
    pub open spec fn unlinked(self, parent: Handle, name: Seq<u8>, want_dir: bool, fold: bool) -> (
        VfsModel,
        Status,
    ) {
        match entry_index(self.boot_entries, parent, name, fold, 0) {
            None => (self, Status::NotFound),
            Some(i) => match self.unlink_refused(i, want_dir) {
                Some(e) => (self, e),
                None => {
                    let child = self.boot_entries[i].vnode;
                    (
                        self.unnamed(i).name_lost(child).fifo_unlinked(child).reclaimed(child),
                        Status::Success,
                    )
                },
            },
        }
    }

    /// What comes of taking away the name at `path`.
    pub open spec fn path_unlinked(
        self,
        path: Seq<u8>,
        want_dir: bool,
        parent: Option<(Handle, int)>,
        fold: bool,
    ) -> (VfsModel, Status) {
        match parent {
            None => (self, Status::InvalidArgument),
            Some((p, leaf)) => self.unlinked(p, path.skip(leaf), want_dir, fold),
        }
    }

    /// What comes of making a named pipe at `path`: when there is no room for its record,
    /// the name goes again.
    pub open spec fn fifo_path_made(self, path: Seq<u8>, mode: u32, personality: u8) -> (
        VfsModel,
        Result<Handle, Status>,
    ) {
        let walk = mode_for(personality, true);
        match self.boot_parent_of_path(path, walk) {
            None => (self, Err(Status::InvalidArgument)),
            Some((parent, leaf)) => {
                let (s, made) = self.special_made(
                    parent,
                    path.skip(leaf),
                    mode,
                    VnodeType::Fifo,
                    walk.fold,
                );
                match made {
                    Err(e) => (s, Err(e)),
                    Ok(v) => if s.fifo_for(v) is Some {
                        (s.with_fifo(v), Ok(v))
                    } else {
                        let t = s.with_fifo(v);
                        (
                            t.path_unlinked(
                                path,
                                false,
                                t.boot_parent_of_path(path, walk),
                                walk.fold,
                            ).0,
                            Err(Status::OutOfMemory),
                        )
                    },
                }
            },
        }
    }

    /// What comes of making a socket at `path`.
    pub open spec fn socket_path_made(self, path: Seq<u8>, mode: u32, personality: u8) -> (
        VfsModel,
        Result<Handle, Status>,
    ) {
        let walk = mode_for(personality, true);
        match self.boot_parent_of_path(path, walk) {
            None => (self, Err(Status::InvalidArgument)),
            Some((parent, leaf)) => self.special_made(
                parent,
                path.skip(leaf),
                mode,
                VnodeType::Sock,
                walk.fold,
            ),
        }
    }
}

impl VfsState {
    /// Makes an empty file at a path.
    pub fn bootstrap_create_regular_file_path(&mut self, path: &[u8], mode: u32, now: u64) -> (r:
        Result<Handle, Status>)
        ensures
            final(self)@ == old(self)@.regular_path_made(path@, mode, now).0,
            r == old(self)@.regular_path_made(path@, mode, now).1,
    {
        let (parent, leaf) = match self.bootstrap_lookup_parent_and_name(path) {
            Some(p) => p,
            None => {
                return Err(Status::InvalidArgument);
            },
        };
        let name = cut(path, leaf, path.len());
        assert(name@ =~= path@.skip(leaf as int));
        match self.parent_check(parent) {
            Ok(vn) => {
                if vn.backend == Backend::Tmpfs {
                    return create_regular_child(self, parent, name, mode, now);
                }
            },
            Err(e) => {
                return Err(e);
            },
        }
        self.make_regular(parent, name, mode, false)
    }

    /// Makes an empty file in a directory for clients of a personality.
    pub fn bootstrap_create_regular_child_for_personality(
        &mut self,
        parent: Handle,
        name: &[u8],
        mode: u32,
        personality: u8,
    ) -> (r: Result<Handle, Status>)
        ensures
            ({
                let made = old(self)@.regular_made(
                    parent,
                    name@,
                    mode,
                    personality_ignore_case(personality),
                );
                final(self)@ == made.0 && r == made.1
            }),
    {
        self.make_regular(parent, name, mode, personality_ignore_case(personality))
    }

    /// Makes a directory at a path.
    pub fn bootstrap_mkdir_path(&mut self, path: &[u8], mode: u32, now: u64) -> (r: Result<
        Handle,
        Status,
    >)
        ensures
            final(self)@ == old(self)@.dir_path_made(path@, mode, now).0,
            r == old(self)@.dir_path_made(path@, mode, now).1,
    {
        let (parent, leaf) = match self.bootstrap_lookup_parent_and_name(path) {
            Some(p) => p,
            None => {
                return Err(Status::InvalidArgument);
            },
        };
        let name = cut(path, leaf, path.len());
        assert(name@ =~= path@.skip(leaf as int));
        match self.parent_check(parent) {
            Ok(vn) => {
                if vn.backend == Backend::Tmpfs {
                    return mkdir_child(self, parent, name, mode, now);
                }
            },
            Err(e) => {
                return Err(e);
            },
        }
        self.make_dir(parent, name, mode, false)
    }

    /// Makes a directory in a directory for clients of a personality.
    pub fn bootstrap_mkdir_child_for_personality(
        &mut self,
        parent: Handle,
        name: &[u8],
        mode: u32,
        personality: u8,
    ) -> (r: Result<Handle, Status>)
        ensures
            ({
                let made = old(self)@.dir_made(
                    parent,
                    name@,
                    mode,
                    personality_ignore_case(personality),
                );
                final(self)@ == made.0 && r == made.1
            }),
    {
        self.make_dir(parent, name, mode, personality_ignore_case(personality))
    }

    /// Makes a symlink at a path.
    pub fn bootstrap_create_symlink_path(&mut self, path: &[u8], mode: u32, target: &[u8], now: u64)
        -> (r: Result<Handle, Status>)
        ensures
            final(self)@ == old(self)@.link_path_made(path@, mode, target@, now).0,
            r == old(self)@.link_path_made(path@, mode, target@, now).1,
    {
        let (parent, leaf) = match self.bootstrap_lookup_parent_and_name(path) {
            Some(p) => p,
            None => {
                return Err(Status::InvalidArgument);
            },
        };
        let name = cut(path, leaf, path.len());
        assert(name@ =~= path@.skip(leaf as int));
        match self.parent_check(parent) {
            Ok(vn) => {
                if vn.backend == Backend::Tmpfs {
                    return symlink_child(self, parent, name, target, now);
                }
            },
            Err(e) => {
                return Err(e);
            },
        }
        self.make_link(parent, name, mode, target, false)
    }

    /// Makes a symlink in a directory for clients of a personality.
    pub fn bootstrap_create_symlink_child_for_personality(
        &mut self,
        parent: Handle,
        name: &[u8],
        mode: u32,
        target: &[u8],
        personality: u8,
    ) -> (r: Result<Handle, Status>)
        ensures
            ({
                let made = old(self)@.link_made(
                    parent,
                    name@,
                    mode,
                    target@,
                    personality_ignore_case(personality),
                );
                final(self)@ == made.0 && r == made.1
            }),
    {
        self.make_link(parent, name, mode, target, personality_ignore_case(personality))
    }

    /// Makes a socket at a path.
    pub fn bootstrap_create_socket_path_for_personality(
        &mut self,
        path: &[u8],
        mode: u32,
        personality: u8,
    ) -> (r: Result<Handle, Status>)
        ensures
            final(self)@ == old(self)@.socket_path_made(path@, mode, personality).0,
            r == old(self)@.socket_path_made(path@, mode, personality).1,
    {
        let (parent, leaf) = match self.bootstrap_lookup_parent_and_name_for_personality(
            path,
            personality,
        ) {
            Some(p) => p,
            None => {
                return Err(Status::InvalidArgument);
            },
        };
        let name = cut(path, leaf, path.len());
        assert(name@ =~= path@.skip(leaf as int));
        self.make_special(
            parent,
            name,
            mode,
            VnodeType::Sock,
            personality_ignore_case(personality),
        )
    }

    /// Makes a named pipe at a path.
    pub fn bootstrap_create_fifo_path_for_personality(
        &mut self,
        path: &[u8],
        mode: u32,
        personality: u8,
    ) -> (r: Result<Handle, Status>)
        ensures
            final(self)@ == old(self)@.fifo_path_made(path@, mode, personality).0,
            r == old(self)@.fifo_path_made(path@, mode, personality).1,
    {
        let (parent, leaf) = match self.bootstrap_lookup_parent_and_name_for_personality(
            path,
            personality,
        ) {
            Some(p) => p,
            None => {
                return Err(Status::InvalidArgument);
            },
        };
        let name = cut(path, leaf, path.len());
        assert(name@ =~= path@.skip(leaf as int));
        let v = match self.make_special(
            parent,
            name,
            mode,
            VnodeType::Fifo,
            personality_ignore_case(personality),
        ) {
            Ok(v) => v,
            Err(e) => {
                return Err(e);
            },
        };
        if self.ensure_fifo_state_for_vnode(v).is_none() {
            let _ = self.bootstrap_remove_path_for_personality(path, false, personality);
            return Err(Status::OutOfMemory);
        }
        Ok(v)
    }

    fn unlink_at(&mut self, parent: Handle, name: &[u8], want_dir: bool, fold: bool) -> (r: Status)
        ensures
            final(self)@ == old(self)@.unlinked(parent, name@, want_dir, fold).0,
            r == old(self)@.unlinked(parent, name@, want_dir, fold).1,
    {
        let i: usize = match self.bootstrap_entry_index_with_case(parent, name, fold) {
            Some(i) => i,
            None => {
                return Status::NotFound;
            },
        };
        assert(self@.boot_entries[i as int] == self.boot_entries@[i as int]@);
        let child = self.boot_entries[i].vnode;
        let vn: Vnode = match self.vnodes.get(child) {
            Some(vn) => *vn,
            None => {
                return Status::NotFound;
            },
        };
        if want_dir {
            if vn.vtype != VnodeType::Dir {
                return Status::NotDirectory;
            }
            if !self.bootstrap_dir_is_empty(child) {
                return Status::Busy;
            }
        } else if vn.vtype == VnodeType::Dir {
            return Status::IsDirectory;
        }
        if vn.root || vn.covered_by.handle.is_valid() {
            return Status::Busy;
        }
        self.clear_bootstrap_entry(i);
        self.lose_name(child);
        self.mark_fifo_unlinked(child);
        self.reclaim_bootstrap_vnode(child);
        Status::Success
    }

    fn lose_name(&mut self, v: Handle)
        ensures
            final(self)@ == old(self)@.name_lost(v),
    {
        if let Some(vn) = self.vnodes.get_mut(v) {
            vn.nlink = vn.nlink.saturating_sub(1);
            if vn.nlink == 0 {
                vn.doomed = true;
            }
        }
    }

    /// Takes away the name at a path.
    pub fn bootstrap_remove_path(&mut self, path: &[u8], want_dir: bool) -> (r: Status)
        ensures
            ({
                let done = old(self)@.path_unlinked(
                    path@,
                    want_dir,
                    old(self)@.boot_parent_of_path(path@, service_mode()),
                    false,
                );
                final(self)@ == done.0 && r == done.1
            }),
    {
        let (parent, leaf) = match self.bootstrap_lookup_parent_and_name(path) {
            Some(p) => p,
            None => {
                return Status::InvalidArgument;
            },
        };
        let name = cut(path, leaf, path.len());
        assert(name@ =~= path@.skip(leaf as int));
        self.unlink_at(parent, name, want_dir, false)
    }

    /// Takes away the name at a path for clients of a personality.
    pub fn bootstrap_remove_path_for_personality(
        &mut self,
        path: &[u8],
        want_dir: bool,
        personality: u8,
    ) -> (r: Status)
        ensures
            ({
                let walk = mode_for(personality, true);
                let done = old(self)@.path_unlinked(
                    path@,
                    want_dir,
                    old(self)@.boot_parent_of_path(path@, walk),
                    walk.fold,
                );
                final(self)@ == done.0 && r == done.1
            }),
    {
        let (parent, leaf) = match self.bootstrap_lookup_parent_and_name_for_personality(
            path,
            personality,
        ) {
            Some(p) => p,
            None => {
                return Status::InvalidArgument;
            },
        };
        let name = cut(path, leaf, path.len());
        assert(name@ =~= path@.skip(leaf as int));
        self.unlink_at(parent, name, want_dir, personality_ignore_case(personality))
    }

    /// Takes away a name in a directory for clients of a personality.
    pub fn bootstrap_remove_child_for_personality(
        &mut self,
        parent: Handle,
        name: &[u8],
        want_dir: bool,
        personality: u8,
    ) -> (r: Status)
        ensures
            ({
                let done = old(self)@.unlinked(
                    parent,
                    name@,
                    want_dir,
                    personality_ignore_case(personality),
                );
                final(self)@ == done.0 && r == done.1
            }),
    {
        self.unlink_at(parent, name, want_dir, personality_ignore_case(personality))
    }
}

impl VfsModel {
    /// Vnode `v` may not be moved or replaced: the namespace hangs on it, it is the root of
    /// a mount, or a mount sits on it.
    pub open spec fn held_fast(self, v: Handle) -> bool {
        self.is_anchor(v) || self.vnodes.at(v).root || self.vnodes.at(
            v,
        ).covered_by.handle.is_valid()
    }

    /// Why `source` cannot be given the name `name` in `parent`.
    pub open spec fn second_name_refused(
        self,
        source: Handle,
        parent: Handle,
        name: Seq<u8>,
        fold: bool,
    ) -> Option<Status> {
        match self.vnodes.entry(source) {
            None => Some(Status::NotFound),
            Some(vn) => if vn.vtype == VnodeType::Dir {
                Some(Status::InvalidOperation)
            } else if self.held_fast(source) {
                Some(Status::Busy)
            } else {
                match self.parent_refused(parent) {
                    Some(e) => Some(e),
                    None => if vn.fs_instance_id != self.vnodes.at(parent).fs_instance_id {
                        Some(Status::CrossDevice)
                    } else if boot_child(self.boot_entries, parent, name, fold) is Some {
                        Some(Status::AlreadyExists)
                    } else if !name_fits(self.boot_entries, name) {
                        Some(Status::OutOfMemory)
                    } else {
                        None
                    },
                }
            },
        }
    }

    /// Why the name at position `i` cannot become `new_name` in `new_parent`.
    pub open spec fn move_refused(self, i: int, new_parent: Handle, new_name: Seq<u8>, fold: bool) -> Option<
        Status,
    > {
        let moved = self.boot_entries[i].vnode;
        if !self.vnodes.has(moved) {
            Some(Status::NotFound)
        } else if self.held_fast(moved) {
            Some(Status::Busy)
        } else if !self.vnodes.has(new_parent) || self.vnodes.at(new_parent).vtype
            != VnodeType::Dir {
            Some(Status::NotDirectory)
        } else if self.vnodes.at(moved).vtype == VnodeType::Dir && self.below(new_parent, moved) {
            Some(Status::InvalidArgument)
        } else {
            match entry_index(self.boot_entries, new_parent, new_name, fold, 0) {
                None => None,
                Some(j) => if j == i {
                    None
                } else {
                    let target = self.boot_entries[j].vnode;
                    let moved_dir = self.vnodes.at(moved).vtype == VnodeType::Dir;
                    if !self.vnodes.has(target) {
                        Some(Status::NotFound)
                    } else if self.held_fast(target) {
                        Some(Status::Busy)
                    } else {
                        let target_dir = self.vnodes.at(target).vtype == VnodeType::Dir;
                        if moved_dir && !target_dir {
                            Some(Status::NotDirectory)
                        } else if !moved_dir && target_dir {
                            Some(Status::IsDirectory)
                        } else if target_dir && !dir_empty(self.boot_entries, target) {
                            Some(Status::Busy)
                        } else {
                            None
                        }
                    }
                },
            }
        }
    }

    /// The state with the name at position `i` now `new_name` in `new_parent`.
    pub open spec fn entry_retitled(self, i: int, new_parent: Handle, new_name: Seq<u8>) -> VfsModel {
        VfsModel {
            boot_entries: self.boot_entries.update(
                i,
                BootEntryView { parent: new_parent, name: new_name, ..self.boot_entries[i] },
            ),
            ..self
        }
    }

    /// The state after the move; what had the new name has lost it.
    pub open spec fn entry_shifted(
        self,
        i: int,
        new_parent: Handle,
        new_name: Seq<u8>,
        fold: bool,
    ) -> VfsModel {
        match entry_index(self.boot_entries, new_parent, new_name, fold, 0) {
            Some(j) => if j == i {
                self.entry_retitled(i, new_parent, new_name)
            } else {
                let target = self.boot_entries[j].vnode;
                self.unnamed(j).name_lost(target).reclaimed(target).entry_retitled(
                    i,
                    new_parent,
                    new_name,
                )
            },
            None => self.entry_retitled(i, new_parent, new_name),
        }
    }

    /// What comes of renaming.
    pub open spec fn renamed(
        self,
        old_parent: Handle,
        old_name: Seq<u8>,
        new_parent: Handle,
        new_name: Seq<u8>,
        fold: bool,
    ) -> (VfsModel, Status) {
        match entry_index(self.boot_entries, old_parent, old_name, fold, 0) {
            None => (self, Status::NotFound),
            Some(i) => match self.move_refused(i, new_parent, new_name, fold) {
                Some(e) => (self, e),
                None => (self.entry_shifted(i, new_parent, new_name, fold), Status::Success),
            },
        }
    }

    /// Reclaiming a vnode leaves the names of the tree.
    pub proof fn lemma_reclaim_keeps_names(self, v: Handle)
        ensures
            self.reclaimed(v).boot_entries == self.boot_entries,
    {
        reveal(VfsModel::reclaimed);
    }
}

impl VfsState {
    /// Gives an object of the bootstrap tree one more name.
    pub fn bootstrap_link_vnode_child_for_personality(
        &mut self,
        source: Handle,
        new_parent: Handle,
        new_name: &[u8],
        personality: u8,
    ) -> (r: Status)
        ensures
            match old(self)@.second_name_refused(
                source,
                new_parent,
                new_name@,
                personality_ignore_case(personality),
            ) {
                Some(e) => r == e && final(self)@ == old(self)@,
                None => r == Status::Success && final(self)@ == old(self)@.named(
                    new_parent,
                    source,
                    new_name@,
                ).with_vnode(
                    source,
                    Vnode {
                        nlink: one_more(old(self)@.vnodes.at(source).nlink),
                        ..old(self)@.vnodes.at(source)
                    },
                ),
            },
    {
        let vn: Vnode = match self.vnodes.get(source) {
            Some(vn) => *vn,
            None => {
                return Status::NotFound;
            },
        };
        if vn.vtype == VnodeType::Dir {
            return Status::InvalidOperation;
        }
        if self.bootstrap_is_anchor(source) || vn.root || vn.covered_by.handle.is_valid() {
            return Status::Busy;
        }
        let pvn = match self.parent_check(new_parent) {
            Ok(p) => p,
            Err(e) => {
                return e;
            },
        };
        if vn.fs_instance_id != pvn.fs_instance_id {
            return Status::CrossDevice;
        }
        if self.bootstrap_lookup_child_with_case(
            new_parent,
            new_name,
            personality_ignore_case(personality),
        ).is_some() {
            return Status::AlreadyExists;
        }
        if !self.add_bootstrap_dir_entry(new_parent, source, new_name) {
            return Status::OutOfMemory;
        }
        if let Some(vn) = self.vnodes.get_mut(source) {
            vn.nlink = vn.nlink.saturating_add(1);
        }
        Status::Success
    }

    /// Changes the permission bits of a vnode; the type bits stay.
    pub fn bootstrap_set_mode_vnode(&mut self, vnode: Handle, mode: u32) -> (r: Status)
        ensures
            match old(self)@.vnodes.entry(vnode) {
                None => r == Status::NotFound && final(self)@ == old(self)@,
                Some(vn) => r == Status::Success && final(self)@ == old(self)@.with_vnode(
                    vnode,
                    Vnode { mode: (vn.mode & !0o7777u32) | (mode & 0o7777), ..vn },
                ),
            },
    {
        match self.vnodes.get_mut(vnode) {
            Some(vn) => {
                vn.mode = (vn.mode & !0o7777u32) | (mode & 0o7777);
                Status::Success
            },
            None => Status::NotFound,
        }
    }

    /// Changes owner and group of a vnode.
    pub fn bootstrap_set_owner_vnode(&mut self, vnode: Handle, uid: u32, gid: u32) -> (r: Status)
        ensures
            match old(self)@.vnodes.entry(vnode) {
                None => r == Status::NotFound && final(self)@ == old(self)@,
                Some(vn) => r == Status::Success && final(self)@ == old(self)@.with_vnode(
                    vnode,
                    Vnode { uid: owner_or(uid, vn.uid), gid: owner_or(gid, vn.gid), ..vn },
                ),
            },
    {
        match self.vnodes.get_mut(vnode) {
            Some(vn) => {
                vn.uid = pick_owner(uid, vn.uid);
                vn.gid = pick_owner(gid, vn.gid);
                Status::Success
            },
            None => Status::NotFound,
        }
    }

    /// Changes access and modification times of a vnode.
    pub fn bootstrap_set_times_vnode(
        &mut self,
        vnode: Handle,
        atime_ns: Option<u64>,
        mtime_ns: Option<u64>,
    ) -> (r: Status)
        ensures
            match old(self)@.vnodes.entry(vnode) {
                None => r == Status::NotFound && final(self)@ == old(self)@,
                Some(vn) => r == Status::Success && final(self)@ == old(self)@.with_vnode(
                    vnode,
                    Vnode {
                        atime_ns: time_or(atime_ns, vn.atime_ns),
                        mtime_ns: time_or(mtime_ns, vn.mtime_ns),
                        ..vn
                    },
                ),
            },
    {
        match self.vnodes.get_mut(vnode) {
            Some(vn) => {
                vn.atime_ns = pick_time(atime_ns, vn.atime_ns);
                vn.mtime_ns = pick_time(mtime_ns, vn.mtime_ns);
                Status::Success
            },
            None => Status::NotFound,
        }
    }

    fn retitle_entry(&mut self, i: usize, new_parent: Handle, new_name: &[u8])
        requires
            i < old(self)@.boot_entries.len(),
        ensures
            final(self)@ == old(self)@.entry_retitled(i as int, new_parent, new_name@),
    {
        let ghost before = self@;
        assert(before.boot_entries[i as int] == self.boot_entries@[i as int]@);
        let active: bool = self.boot_entries[i].active;
        let vnode = self.boot_entries[i].vnode;
        self.boot_entries.set(
            i,
            BootEntry { active, parent: new_parent, vnode, name: slice_to_vec(new_name) },
        );
        assert(self@.boot_entries =~= before.entry_retitled(
            i as int,
            new_parent,
            new_name@,
        ).boot_entries);
    }

    fn fast_held(&self, v: Handle, vn: &Vnode) -> (r: bool)
        requires
            *vn == self@.vnodes.at(v),
        ensures
            r == self@.held_fast(v),
    {
        self.bootstrap_is_anchor(v) || vn.root || vn.covered_by.handle.is_valid()
    }

    /// Gives what `old_name` names in `old_parent` the name `new_name` in `new_parent`; what
    /// had that name loses it.
    pub fn bootstrap_rename_child_for_personality(
        &mut self,
        old_parent: Handle,
        old_name: &[u8],
        new_parent: Handle,
        new_name: &[u8],
        personality: u8,
    ) -> (r: Status)
        requires
            new_name@.len() <= BOOTSTRAP_NAME_MAX,
        ensures
            ({
                let done = old(self)@.renamed(
                    old_parent,
                    old_name@,
                    new_parent,
                    new_name@,
                    personality_ignore_case(personality),
                );
                final(self)@ == done.0 && r == done.1
            }),
    {
        let fold: bool = personality_ignore_case(personality);
        let i: usize = match self.bootstrap_entry_index_with_case(old_parent, old_name, fold) {
            Some(i) => i,
            None => {
                return Status::NotFound;
            },
        };
        assert(self@.boot_entries[i as int] == self.boot_entries@[i as int]@);
        let moved = self.boot_entries[i].vnode;
        let mvn: Vnode = match self.vnodes.get(moved) {
            Some(vn) => *vn,
            None => {
                return Status::NotFound;
            },
        };
        if self.fast_held(moved, &mvn) {
            return Status::Busy;
        }
        match self.vnodes.get(new_parent) {
            Some(vn) => {
                if vn.vtype != VnodeType::Dir {
                    return Status::NotDirectory;
                }
            },
            None => {
                return Status::NotDirectory;
            },
        }
        if mvn.vtype == VnodeType::Dir && self.bootstrap_is_descendant_of(new_parent, moved) {
            return Status::InvalidArgument;
        }
        if let Some(j) = self.bootstrap_entry_index_with_case(new_parent, new_name, fold) {
            if j != i {
                assert(self@.boot_entries[j as int] == self.boot_entries@[j as int]@);
                let target = self.boot_entries[j].vnode;
                let tvn: Vnode = match self.vnodes.get(target) {
                    Some(vn) => *vn,
                    None => {
                        return Status::NotFound;
                    },
                };
                if self.fast_held(target, &tvn) {
                    return Status::Busy;
                }
                if mvn.vtype == VnodeType::Dir && tvn.vtype != VnodeType::Dir {
                    return Status::NotDirectory;
                }
                if mvn.vtype != VnodeType::Dir && tvn.vtype == VnodeType::Dir {
                    return Status::IsDirectory;
                }
                if tvn.vtype == VnodeType::Dir && !self.bootstrap_dir_is_empty(target) {
                    return Status::Busy;
                }
                self.clear_bootstrap_entry(j);
                self.lose_name(target);
                proof {
                    self@.lemma_reclaim_keeps_names(target);
                }
                self.reclaim_bootstrap_vnode(target);
            }
        }
        self.retitle_entry(i, new_parent, new_name);
        Status::Success
    }
}

/// The list `fs` is `es` with name `i` now `name` in `parent`, which no other name is.
spec fn one_moved(
    es: Seq<BootEntryView>,
    fs: Seq<BootEntryView>,
    i: int,
    parent: Handle,
    name: Seq<u8>,
    fold: bool,
) -> bool {
    &&& fs.len() == es.len()
    &&& 0 <= i < es.len()
    &&& es[i].active
    &&& fs[i] == (BootEntryView { parent, name, ..es[i] })
    &&& forall|k: int|
        #![trigger fs[k]]
        #![trigger es[k]]
        0 <= k < es.len() && k != i ==> if es[k].active && es[k].parent == parent && same_name(
            es[k].name,
            name,
            fold,
        ) {
            !fs[k].active
        } else {
            fs[k] == es[k]
        }
}

proof fn lemma_moved_apart(
    es: Seq<BootEntryView>,
    fs: Seq<BootEntryView>,
    i: int,
    parent: Handle,
    name: Seq<u8>,
    fold: bool,
)
    requires
        names_apart(es, fold),
        one_moved(es, fs, i, parent, name, fold),
    ensures
        names_apart(fs, fold),
        entry_index(fs, parent, name, fold, 0) == Some(i),
{
    assert forall|a: int, b: int|
        #![trigger fs[a], fs[b]]
        0 <= a < b < fs.len() && fs[a].active && fs[b].active && fs[a].parent
            == fs[b].parent implies !same_name(fs[a].name, fs[b].name, fold) by {
        law_same_name_is_equivalence(fs[a].name, fs[b].name, name, fold);
        if a != i && b != i {
            assert(fs[a] == es[a] && fs[b] == es[b]);
        }
    }
    law_same_name_is_equivalence(name, name, name, fold);
    lemma_only_entry(fs, parent, name, fold, i);
}

proof fn lemma_moved_others(
    es: Seq<BootEntryView>,
    fs: Seq<BootEntryView>,
    i: int,
    parent: Handle,
    name: Seq<u8>,
    fold: bool,
    other_parent: Handle,
    other: Seq<u8>,
)
    requires
        one_moved(es, fs, i, parent, name, fold),
        !(other_parent == parent && same_name(other, name, fold)),
        !(other_parent == es[i].parent && same_name(other, es[i].name, fold)),
    ensures
        boot_child(fs, other_parent, other, fold) == boot_child(es, other_parent, other, fold),
{
    assert forall|k: int|
        #![trigger es[k]]
        #![trigger fs[k]]
        0 <= k < es.len() && ((es[k].active && es[k].parent == other_parent && same_name(
            es[k].name,
            other,
            fold,
        )) || (fs[k].active && fs[k].parent == other_parent && same_name(
            fs[k].name,
            other,
            fold,
        ))) implies es[k] == fs[k] by {
        law_same_name_is_equivalence(es[k].name, other, other, fold);
        law_same_name_is_equivalence(other, es[k].name, name, fold);
        law_same_name_is_equivalence(fs[k].name, other, other, fold);
    }
    lemma_same_entry(es, fs, other_parent, other, fold);
}

proof fn lemma_moved_old(
    es: Seq<BootEntryView>,
    fs: Seq<BootEntryView>,
    i: int,
    parent: Handle,
    name: Seq<u8>,
    fold: bool,
    old_parent: Handle,
    old_name: Seq<u8>,
)
    requires
        names_apart(es, fold),
        one_moved(es, fs, i, parent, name, fold),
        entry_index(es, old_parent, old_name, fold, 0) == Some(i),
        !(old_parent == parent && same_name(old_name, name, fold)),
    ensures
        entry_index(fs, old_parent, old_name, fold, 0) is None,
{
    lemma_entry_index(fs, old_parent, old_name, fold, 0);
    if let Some(k) = entry_index(fs, old_parent, old_name, fold, 0) {
        if k == i {
            law_same_name_is_equivalence(name, old_name, name, fold);
        } else {
            assert(fs[k] == es[k]);
            lemma_only_entry(es, old_parent, old_name, fold, k);
        }
    }
}

/// The names after name `i` became `name` in `parent` and took the place of name `j`.
spec fn names_moved(
    es: Seq<BootEntryView>,
    i: int,
    j: Option<int>,
    parent: Handle,
    name: Seq<u8>,
) -> Seq<BootEntryView> {
    let e = BootEntryView { parent, name, ..es[i] };
    if j is Some && j->0 != i {
        es.update(j->0, BootEntryView::removed()).update(i, e)
    } else {
        es.update(i, e)
    }
}

proof fn lemma_names_moved(
    es: Seq<BootEntryView>,
    i: int,
    parent: Handle,
    name: Seq<u8>,
    fold: bool,
)
    requires
        names_apart(es, fold),
        0 <= i < es.len(),
        es[i].active,
    ensures
        one_moved(
            es,
            names_moved(es, i, entry_index(es, parent, name, fold, 0), parent, name),
            i,
            parent,
            name,
            fold,
        ),
{
    lemma_entry_index(es, parent, name, fold, 0);
    let j = entry_index(es, parent, name, fold, 0);
    let fs = names_moved(es, i, j, parent, name);
    assert forall|k: int|
        #![trigger fs[k]]
        #![trigger es[k]]
        0 <= k < es.len() && k != i implies if es[k].active && es[k].parent == parent && same_name(
        es[k].name,
        name,
        fold,
    ) {
        !fs[k].active
    } else {
        fs[k] == es[k]
    } by {
        if es[k].active && es[k].parent == parent && same_name(es[k].name, name, fold) {
            lemma_only_entry(es, parent, name, fold, k);
        }
    }
}

proof fn lemma_shifted_names(m: VfsModel, i: int, new_parent: Handle, new_name: Seq<u8>, fold: bool)
    requires
        0 <= i < m.boot_entries.len(),
    ensures
        ({
            let after = m.entry_shifted(i, new_parent, new_name, fold);
            &&& after.boot_entries == names_moved(
                m.boot_entries,
                i,
                entry_index(m.boot_entries, new_parent, new_name, fold, 0),
                new_parent,
                new_name,
            )
            &&& after.mounts == m.mounts
            &&& after.clients == m.clients
        }),
{
    lemma_entry_index(m.boot_entries, new_parent, new_name, fold, 0);
    match entry_index(m.boot_entries, new_parent, new_name, fold, 0) {
        Some(j) => {
            if j != i {
                let target = m.boot_entries[j].vnode;
                let n = m.unnamed(j).name_lost(target);
                n.lemma_reclaim_keeps_names(target);
                n.lemma_reclaim_frame(target);
                assert(n.boot_entries == m.unnamed(j).boot_entries);
                assert(n.mounts == m.mounts && n.clients == m.clients);
                let s = n.reclaimed(target);
                assert(m.entry_shifted(i, new_parent, new_name, fold) == s.entry_retitled(
                    i,
                    new_parent,
                    new_name,
                ));
                assert(s.boot_entries[i] == m.boot_entries[i]);
            }
        },
        None => {},
    }
}

/// After a rename the object is found under its new name and under the old one nothing is,
/// unless the two agree in one directory. Every other name in the tree names what it named.
/// Names that were apart stay so.
pub proof fn law_rename_moves_one_name(
    m: VfsModel,
    old_parent: Handle,
    old_name: Seq<u8>,
    new_parent: Handle,
    new_name: Seq<u8>,
    fold: bool,
    other_parent: Handle,
    other: Seq<u8>,
)
    requires
        names_apart(m.boot_entries, fold),
        m.renamed(old_parent, old_name, new_parent, new_name, fold).1 == Status::Success,
    ensures
        ({
            let es = m.boot_entries;
            let after = m.renamed(old_parent, old_name, new_parent, new_name, fold).0;
            let same = old_parent == new_parent && same_name(old_name, new_name, fold);
            let is_old = other_parent == old_parent && same_name(other, old_name, fold);
            let is_new = other_parent == new_parent && same_name(other, new_name, fold);
            &&& boot_child(es, old_parent, old_name, fold) is Some
            &&& boot_child(after.boot_entries, new_parent, new_name, fold) == boot_child(
                es,
                old_parent,
                old_name,
                fold,
            )
            &&& !same ==> boot_child(after.boot_entries, old_parent, old_name, fold) is None
            &&& !is_old && !is_new ==> boot_child(after.boot_entries, other_parent, other, fold)
                == boot_child(es, other_parent, other, fold)
            &&& names_apart(after.boot_entries, fold)
            &&& after.mounts == m.mounts
            &&& after.clients == m.clients
        }),
{
    let es = m.boot_entries;
    let fs = m.renamed(old_parent, old_name, new_parent, new_name, fold).0.boot_entries;
    lemma_entry_index(es, old_parent, old_name, fold, 0);
    let i = entry_index(es, old_parent, old_name, fold, 0)->0;
    lemma_shifted_names(m, i, new_parent, new_name, fold);
    lemma_names_moved(es, i, new_parent, new_name, fold);
    lemma_moved_apart(es, fs, i, new_parent, new_name, fold);
    if !(old_parent == new_parent && same_name(old_name, new_name, fold)) {
        lemma_moved_old(es, fs, i, new_parent, new_name, fold, old_parent, old_name);
    }
    if !(other_parent == old_parent && same_name(other, old_name, fold)) && !(other_parent
        == new_parent && same_name(other, new_name, fold)) {
        law_same_name_is_equivalence(other, es[i].name, old_name, fold);
        lemma_moved_others(es, fs, i, new_parent, new_name, fold, other_parent, other);
    }
}

/// A name that was taken away is no longer found, and every other name in the tree names what
/// it named. Names that were apart stay so.
pub proof fn law_unlink_takes_one_name(
    m: VfsModel,
    parent: Handle,
    name: Seq<u8>,
    want_dir: bool,
    fold: bool,
    other_parent: Handle,
    other: Seq<u8>,
)
    requires
        names_apart(m.boot_entries, fold),
        m.unlinked(parent, name, want_dir, fold).1 == Status::Success,
    ensures
        ({
            let after = m.unlinked(parent, name, want_dir, fold).0;
            &&& boot_child(m.boot_entries, parent, name, fold) is Some
            &&& boot_child(after.boot_entries, parent, name, fold) is None
            &&& !(other_parent == parent && same_name(other, name, fold)) ==> boot_child(
                after.boot_entries,
                other_parent,
                other,
                fold,
            ) == boot_child(m.boot_entries, other_parent, other, fold)
            &&& names_apart(after.boot_entries, fold)
        }),
{
    let es = m.boot_entries;
    lemma_entry_index(es, parent, name, fold, 0);
    let i = entry_index(es, parent, name, fold, 0)->0;
    let child = es[i].vnode;
    m.unnamed(i).name_lost(child).fifo_unlinked(child).lemma_reclaim_keeps_names(child);
    let fs = m.unlinked(parent, name, want_dir, fold).0.boot_entries;
    assert(fs == es.update(i, fs[i]) && !fs[i].active);
    assert(names_apart(fs, fold)) by {
        assert forall|a: int, b: int|
            #![trigger fs[a], fs[b]]
            0 <= a < b < fs.len() && fs[a].active && fs[b].active && fs[a].parent
                == fs[b].parent implies !same_name(fs[a].name, fs[b].name, fold) by {
            assert(fs[a] == es[a] && fs[b] == es[b]);
        }
    }
    lemma_entry_index(fs, parent, name, fold, 0);
    if let Some(k) = entry_index(fs, parent, name, fold, 0) {
        lemma_only_entry(es, parent, name, fold, k);
    }
    if !(other_parent == parent && same_name(other, name, fold)) {
        assert forall|k: int|
            #![trigger es[k]]
            #![trigger fs[k]]
            0 <= k < es.len() && ((es[k].active && es[k].parent == other_parent && same_name(
                es[k].name,
                other,
                fold,
            )) || (fs[k].active && fs[k].parent == other_parent && same_name(
                fs[k].name,
                other,
                fold,
            ))) implies es[k] == fs[k] by {
            law_same_name_is_equivalence(es[k].name, other, other, fold);
            law_same_name_is_equivalence(other, es[k].name, name, fold);
        }
        lemma_same_entry(es, fs, other_parent, other, fold);
    }
}

/// The first `old_size` stored bytes of a file, cut off or filled with zeros to `size`.
pub open spec fn resized(stored: Option<Seq<u8>>, old_size: u64, size: u64) -> Seq<u8> {
    Seq::new(
        size as nat,
        |i: int|
            match stored {
                Some(b) => if i < old_size && i < b.len() {
                    b[i]
                } else {
                    0u8
                },
                None => 0u8,
            },
    )
}

/// One more nanosecond, up to the largest value.
pub open spec fn later(t: u64) -> u64 {
    if t < u64::MAX {
        (t + 1) as u64
    } else {
        t
    }
}

impl VfsModel {
    /// A file of the bootstrap tree can be given the size `size`.
    pub open spec fn can_resize(self, v: Handle, size: u64) -> bool {
        match self.vnodes.entry(v) {
            None => false,
            Some(vn) => vn.vtype == VnodeType::Reg && (size == vn.size || size == 0
                || self.blobs.next() is Some),
        }
    }

    /// The state with a file of the bootstrap tree at another size.
    pub open spec fn file_resized(self, v: Handle, size: u64) -> VfsModel {
        let vn = self.vnodes.at(v);
        if size == vn.size {
            self
        } else {
            let grown = if size == 0 {
                self.blobs
            } else {
                self.blobs.grown(resized(self.blobs.entry(vn.data), vn.size, size))
            };
            VfsModel { blobs: grown.dropped(vn.data), ..self }.with_vnode(
                v,
                Vnode {
                    data: if size == 0 {
                        Handle::invalid()
                    } else {
                        self.blobs.next()->0
                    },
                    size,
                    mtime_ns: later(vn.mtime_ns),
                    ..vn
                },
            )
        }
    }

    /// What comes of writing `src` at `offset` of a file of the bootstrap tree.
    pub open spec fn file_written(self, v: Handle, offset: u64, src: Seq<u8>) -> (
        VfsModel,
        Option<u64>,
    ) {
        if offset + src.len() > u64::MAX || !self.vnodes.has(v) {
            (self, None)
        } else {
            let end = (offset + src.len()) as u64;
            let grows = end > self.vnodes.at(v).size;
            if grows && !self.can_resize(v, end) {
                (self, None)
            } else {
                let s = if grows {
                    self.file_resized(v, end)
                } else {
                    self
                };
                let vn = s.vnodes.at(v);
                if vn.vtype != VnodeType::Reg {
                    (s, None)
                } else if src.len() != 0 && !s.blobs.has(vn.data) {
                    (s, None)
                } else {
                    (
                        VfsModel {
                            blobs: if src.len() != 0 {
                                s.blobs.put(
                                    vn.data,
                                    overwritten(s.blobs.at(vn.data), offset as int, src),
                                )
                            } else {
                                s.blobs
                            },
                            ..s
                        }.with_vnode(v, Vnode { mtime_ns: later(vn.mtime_ns), ..vn }),
                        Some(src.len() as u64),
                    )
                }
            }
        }
    }
}

impl VfsState {
    /// Gives a file of the bootstrap tree another size; `false` when it is no regular file
    /// or the bytes cannot be stored.
    pub fn bootstrap_resize_file(&mut self, vnode: Handle, new_size: u64) -> (r: bool)
        requires
            new_size <= usize::MAX,
        ensures
            r == old(self)@.can_resize(vnode, new_size),
            final(self)@ == (if r {
                old(self)@.file_resized(vnode, new_size)
            } else {
                old(self)@
            }),
    {
        let vn: Vnode = match self.vnodes.get(vnode) {
            Some(vn) => *vn,
            None => {
                return false;
            },
        };
        if vn.vtype != VnodeType::Reg {
            return false;
        }
        if new_size == vn.size {
            return true;
        }
        let mut data = Handle::invalid();
        if new_size != 0 {
            let n: usize = new_size as usize;
            let ghost want = resized(self@.blobs.entry(vn.data), vn.size, new_size);
            let mut bytes: Vec<u8> = Vec::new();
            let stored = self.blobs.get(vn.data);
            let mut i: usize = 0;
            while i < n
                invariant
                    i <= n,
                    n == new_size,
                    want == resized(self@.blobs.entry(vn.data), vn.size, new_size),
                    bytes@ == want.take(i as int),
                    match stored {
                        Some(b) => self@.blobs.entry(vn.data) == Some(b@),
                        None => self@.blobs.entry(vn.data) is None,
                    },
                decreases n - i,
            {
                let byte: u8 = match stored {
                    Some(b) => if (i as u64) < vn.size && i < b.bytes.len() {
                        b.bytes[i]
                    } else {
                        0
                    },
                    None => 0,
                };
                bytes.push(byte);
                i = i + 1;
                assert(bytes@ =~= want.take(i as int));
            }
            assert(bytes@ =~= want);
            data = match self.blobs.reserve(Blob { bytes }) {
                Some(h) => h,
                None => {
                    return false;
                },
            };
        }
        let _ = self.blobs.release(vn.data);
        let mut changed = vn;
        changed.data = data;
        changed.size = new_size;
        changed.mtime_ns = vn.mtime_ns.saturating_add(1);
        let _ = self.vnodes.set(vnode, changed);
        true
    }

    /// Writes to a file of the bootstrap tree and says how many bytes were written.
    pub fn bootstrap_write_file(&mut self, vnode: Handle, offset: u64, src: &[u8]) -> (r: Option<
        u64,
    >)
        requires
            offset + src@.len() <= u64::MAX ==> offset + src@.len() <= usize::MAX,
        ensures
            final(self)@ == old(self)@.file_written(vnode, offset, src@).0,
            r == old(self)@.file_written(vnode, offset, src@).1,
    {
        let end: u64 = match offset.checked_add(src.len() as u64) {
            Some(e) => e,
            None => {
                return None;
            },
        };
        let size: u64 = match self.vnodes.get(vnode) {
            Some(vn) => vn.size,
            None => {
                return None;
            },
        };
        if end > size && !self.bootstrap_resize_file(vnode, end) {
            return None;
        }
        let vn: Vnode = match self.vnodes.get(vnode) {
            Some(vn) => *vn,
            None => {
                return None;
            },
        };
        if vn.vtype != VnodeType::Reg {
            return None;
        }
        if src.len() != 0 {
            match self.blobs.get_mut(vn.data) {
                Some(b) => {
                    write_over(&mut b.bytes, offset as usize, src);
                },
                None => {
                    return None;
                },
            }
        }
        let mut changed = vn;
        changed.mtime_ns = vn.mtime_ns.saturating_add(1);
        let _ = self.vnodes.set(vnode, changed);
        Some(src.len() as u64)
    }
}

/// What was written to a file of the bootstrap tree is what it holds there.
pub proof fn law_written_bytes_are_kept(m: VfsModel, v: Handle, offset: u64, src: Seq<u8>)
    requires
        m.blobs.wf(),
        src.len() > 0,
        m.file_written(v, offset, src).1 is Some,
    ensures
        ({
            let s = m.file_written(v, offset, src).0;
            let stored = s.blobs.at(s.vnodes.at(v).data);
            &&& s.blobs.has(s.vnodes.at(v).data)
            &&& stored.len() >= offset + src.len()
            &&& stored.subrange(offset as int, offset + src.len()) == src
            &&& s.vnodes.at(v).size >= offset + src.len()
        }),
{
    m.blobs.lemma_vacant(0);
    let s = m.file_written(v, offset, src).0;
    let stored = s.blobs.at(s.vnodes.at(v).data);
    assert(stored.subrange(offset as int, offset + src.len()) =~= src);
}

} // verus!
