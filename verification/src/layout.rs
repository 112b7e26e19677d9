//! Laying out the namespace at the start: the root, its directories, the files below them
//! and the pseudo filesystems.

use crate::arena::Handle;
use crate::boot_ops::device_inode;
use crate::bootstrap::{boot_child, name_of_vnode, service_mode, WalkMode};
use crate::bytes::bytes_eq;
use crate::fs::mounting::{
    alloc_devfs_mount, alloc_pipefs_mount, alloc_tmpfs_mount, fill_mount, reserve_slots,
};
use crate::fs::procfs::{alloc_procfs_mount, populate_proc_tree};
use crate::fs::sysctlfs::{alloc_sysctlfs_mount, populate_sysctl_tree};
use crate::identity::{FsInstanceId, VnodeKey};
use crate::mount::{Mount, MountNamespace, MountView, NamespaceView};
use crate::namei_state::{BOOTSTRAP_PATH_DEPTH_MAX, BOOTSTRAP_SYMLINK_DEPTH_MAX};
use crate::namespace::{bootstrap_dir_mode, dir_mode};
use crate::path::{lemma_scan_bounds, past_component, past_slashes};
use crate::state::{BootDirs, VfsModel, VfsState};
use crate::status::Status;
use crate::vnode::{Backend, MountRef, Vnode, VnodeType, S_IFDIR, S_IFLNK};
use vstd::prelude::*;
use vstd::string::*;

verus! {

/// A file that the namespace starts with.
pub struct FileSeed {
    pub name: Vec<u8>,
    pub mode: u32,
    pub content: Vec<u8>,
}

/// A device that the namespace starts with.
pub struct DeviceSeed {
    pub name: Vec<u8>,
    pub mode: u32,
    pub kind: u8,
}

/// What the namespace starts with: directories of the root, files of `/etc`, devices of
/// `/dev`.
pub struct Layout {
    pub root_dirs: Vec<Vec<u8>>,
    pub etc_files: Vec<FileSeed>,
    pub devices: Vec<DeviceSeed>,
}

/// A file with its name and content as sequences.
#[verifier::ext_equal]
pub struct FileSeedView {
    pub name: Seq<u8>,
    pub mode: u32,
    pub content: Seq<u8>,
}

/// A device with its name as a sequence.
#[verifier::ext_equal]
pub struct DeviceSeedView {
    pub name: Seq<u8>,
    pub mode: u32,
    pub kind: u8,
}

/// A layout with its parts as sequences.
#[verifier::ext_equal]
pub struct LayoutView {
    pub root_dirs: Seq<Seq<u8>>,
    pub etc_files: Seq<FileSeedView>,
    pub devices: Seq<DeviceSeedView>,
}

impl View for FileSeed {
    type V = FileSeedView;

    open spec fn view(&self) -> FileSeedView {
        FileSeedView { name: self.name@, mode: self.mode, content: self.content@ }
    }
}

impl View for DeviceSeed {
    type V = DeviceSeedView;

    open spec fn view(&self) -> DeviceSeedView {
        DeviceSeedView { name: self.name@, mode: self.mode, kind: self.kind }
    }
}

impl Layout {
    /// Whether the parts can be numbered.
    pub open spec fn fits(self) -> bool {
        self.root_dirs@.len() <= u32::MAX && self.etc_files@.len() <= u32::MAX
    }
}

impl View for Layout {
    type V = LayoutView;

    open spec fn view(&self) -> LayoutView {
        LayoutView {
            root_dirs: self.root_dirs@.map_values(|n: Vec<u8>| n@),
            etc_files: self.etc_files@.map_values(|f: FileSeed| f@),
            devices: self.devices@.map_values(|d: DeviceSeed| d@),
        }
    }
}

/// The directories remembered with `v` under the role that `name` gives it.
pub open spec fn remembered(d: BootDirs, name: Seq<u8>, v: Handle) -> BootDirs {
    if name == "etc".spec_bytes() {
        BootDirs { etc_dir: v, ..d }
    } else if name == "dev".spec_bytes() {
        BootDirs { dev_dir: v, ..d }
    } else if name == "proc".spec_bytes() {
        BootDirs { proc_dir: v, ..d }
    } else if name == "sys".spec_bytes() {
        BootDirs { sys_dir: v, ..d }
    } else if name == "tmp".spec_bytes() {
        BootDirs { tmp_dir: v, ..d }
    } else if name == "pipe".spec_bytes() {
        BootDirs { pipe_dir: v, ..d }
    } else if name == "initramfs".spec_bytes() {
        BootDirs { initramfs_dir: v, put_old_dir: v, ..d }
    } else if name == "newroot".spec_bytes() {
        BootDirs { new_root_dir: v, ..d }
    } else {
        d
    }
}

fn remember(d: BootDirs, name: &[u8], v: Handle) -> (r: BootDirs)
    ensures
        r == remembered(d, name@, v),
{
    let mut out = d;
    if bytes_eq(name, "etc".as_bytes()) {
        out.etc_dir = v;
    } else if bytes_eq(name, "dev".as_bytes()) {
        out.dev_dir = v;
    } else if bytes_eq(name, "proc".as_bytes()) {
        out.proc_dir = v;
    } else if bytes_eq(name, "sys".as_bytes()) {
        out.sys_dir = v;
    } else if bytes_eq(name, "tmp".as_bytes()) {
        out.tmp_dir = v;
    } else if bytes_eq(name, "pipe".as_bytes()) {
        out.pipe_dir = v;
    } else if bytes_eq(name, "initramfs".as_bytes()) {
        out.initramfs_dir = v;
        out.put_old_dir = v;
    } else if bytes_eq(name, "newroot".as_bytes()) {
        out.new_root_dir = v;
    }
    out
}

impl VfsModel {
    /// A directory called `name` in `parent`, made if it is not there. A directory of the
    /// disk filesystem cannot be given one at once.
    pub open spec fn dir_ensured(
        self,
        parent: Handle,
        mount: Handle,
        fs_id: FsInstanceId,
        name: Seq<u8>,
        id: u64,
    ) -> (VfsModel, Option<Handle>) {
        match boot_child(self.boot_entries, parent, name, false) {
            Some(v) => (self, Some(v)),
            None => if self.vnodes.has(parent) && self.vnodes.at(parent).backend
                == Backend::Saltyfs {
                (self, None)
            } else {
                self.object_added(
                    parent,
                    name,
                    Vnode {
                        id,
                        ..Vnode::new_bootstrap(VnodeType::Dir, fs_id, mount, dir_mode(name))
                    },
                )
            },
        }
    }

    /// The directories `names` from the one at `i` on made in the root, up to one that
    /// cannot be.
    pub open spec fn scaffolded(
        self,
        root: Handle,
        mount: Handle,
        fs_id: FsInstanceId,
        names: Seq<Seq<u8>>,
        i: int,
    ) -> (VfsModel, bool)
        decreases names.len() - i,
    {
        if i < 0 || i >= names.len() {
            (self, true)
        } else {
            let (t, made) = self.dir_ensured(root, mount, fs_id, names[i], (i + 2) as u64);
            match made {
                None => (t, false),
                Some(v) => VfsModel {
                    boot_dirs: remembered(t.boot_dirs, names[i], v),
                    ..t
                }.scaffolded(root, mount, fs_id, names, i + 1),
            }
        }
    }

    /// The files `files` from the one at `i` on made in `/etc`, up to one that cannot be.
    pub open spec fn seeded(
        self,
        etc: Handle,
        mount: Handle,
        fs_id: FsInstanceId,
        files: Seq<FileSeedView>,
        i: int,
    ) -> (VfsModel, bool)
        decreases files.len() - i,
    {
        if i < 0 || i >= files.len() {
            (self, true)
        } else {
            let f = files[i];
            let (t, made) = self.file_added(
                etc,
                mount,
                fs_id,
                f.name,
                (0x200 + i) as u64,
                f.mode,
                f.content,
            );
            if made is Some {
                t.seeded(etc, mount, fs_id, files, i + 1)
            } else {
                (t, false)
            }
        }
    }

    /// The devices `ds` from the one at `i` on made in `/dev`, up to one that cannot be.
    pub open spec fn devices_made(
        self,
        dev: Handle,
        mount: Handle,
        fs_id: FsInstanceId,
        ds: Seq<DeviceSeedView>,
        i: int,
    ) -> (VfsModel, bool)
        decreases ds.len() - i,
    {
        if i < 0 || i >= ds.len() {
            (self, true)
        } else {
            let d = ds[i];
            let (t, made) = self.device_added(
                dev,
                mount,
                fs_id,
                d.name,
                d.mode,
                device_inode(d.kind, 0),
                0,
            );
            if made is Some {
                t.devices_made(dev, mount, fs_id, ds, i + 1)
            } else {
                (t, false)
            }
        }
    }

    /// A link at `path` to `target`, made if nothing is there, and whether it is there.
    pub open spec fn link_ensured(self, path: Seq<u8>, target: Seq<u8>, now: u64) -> (VfsModel, bool) {
        if self.boot_named(path) is Some {
            (self, true)
        } else {
            let (s, made) = self.link_path_made(path, S_IFLNK | 0o777u32, target, now);
            (s, made is Ok)
        }
    }

    /// The links of `/dev`.
    pub open spec fn dev_links_made(self, now: u64) -> (VfsModel, bool) {
        let (a, ok) = self.link_ensured("/dev/random".spec_bytes(), "/dev/urandom".spec_bytes(), now);
        if !ok {
            (a, false)
        } else {
            let (b, ok) = a.link_ensured("/dev/fb".spec_bytes(), "/dev/fb0".spec_bytes(), now);
            if !ok {
                (b, false)
            } else {
                let (c, ok) = b.link_ensured(
                    "/dev/tty0".spec_bytes(),
                    "/dev/console".spec_bytes(),
                    now,
                );
                if !ok {
                    (c, false)
                } else {
                    c.link_ensured("/dev/pts/ptmx".spec_bytes(), "/dev/ptmx".spec_bytes(), now)
                }
            }
        }
    }

    /// Devices and links of `/dev` laid out.
    pub open spec fn dev_laid_out(self, ds: Seq<DeviceSeedView>, now: u64) -> (VfsModel, bool) {
        match self.boot_named("/dev".spec_bytes()) {
            None => (self, false),
            Some(dev) => match self.vnodes.entry(dev) {
                None => (self, false),
                Some(vn) => {
                    let mount = vn.mount.handle;
                    let fs_id = vn.fs_instance_id;
                    if !mount.is_valid() {
                        (self, false)
                    } else {
                        let (s, pts) = self.dir_ensured(
                            dev,
                            mount,
                            fs_id,
                            "pts".spec_bytes(),
                            0x310,
                        );
                        if pts is None {
                            (s, false)
                        } else {
                            let (t, ok) = s.devices_made(
                                dev,
                                mount,
                                fs_id,
                                ds,
                                0,
                            );
                            if ok {
                                t.dev_links_made(now)
                            } else {
                                (t, false)
                            }
                        }
                    }
                },
            },
        }
    }

    /// A made mount put on `path`.
    pub open spec fn put_on(made: (VfsModel, Option<Handle>), path: Seq<u8>) -> (VfsModel, bool) {
        match made.1 {
            None => (made.0, false),
            Some(mh) => made.0.grafted(mh, path),
        }
    }

    /// The pseudo filesystems mounted at their places.
    pub open spec fn pseudo_mounted(self, now: u64) -> (VfsModel, bool) {
        let none = Seq::<u8>::empty();
        let (a, ok) = VfsModel::put_on(
            self.devfs_made("/dev".spec_bytes(), 0),
            "/dev".spec_bytes(),
        );
        if !ok {
            (a, false)
        } else {
            let (b, ok) = VfsModel::put_on(
                a.procfs_made("/proc".spec_bytes(), 0, none),
                "/proc".spec_bytes(),
            );
            if !ok {
                (b, false)
            } else {
                let (c, ok) = VfsModel::put_on(
                    b.tmpfs_made("/tmp".spec_bytes(), 0, none, now),
                    "/tmp".spec_bytes(),
                );
                if !ok {
                    (c, false)
                } else {
                    let (d, ok) = VfsModel::put_on(
                        c.sysctlfs_made("/sys".spec_bytes(), 0, none),
                        "/sys".spec_bytes(),
                    );
                    if !ok {
                        (d, false)
                    } else {
                        VfsModel::put_on(
                            d.pipefs_made("/pipe".spec_bytes(), 0),
                            "/pipe".spec_bytes(),
                        )
                    }
                }
            }
        }
    }
}

/// Most mounts that a namespace lists.
pub const MAX_NS_MOUNTS: usize = 64;

/// Every mount.
pub open spec fn any_mount() -> spec_fn(Handle, MountView) -> bool {
    |h: Handle, mt: MountView| true
}

impl VfsModel {
    /// The state with the slots of the first root taken, as far as they can be had.
    pub open spec fn first_slots_reserved(self) -> VfsModel {
        let s = self.slots_reserved();
        if self.mount_slots() is None {
            s
        } else {
            VfsModel {
                namespaces: s.namespaces.grown(
                    NamespaceView {
                        refcount: 0,
                        root_mount: Handle::invalid(),
                        mounts: Seq::empty(),
                    },
                ),
                ..s
            }
        }
    }

    /// The slots of the first root: its vnode, its mount and the namespace.
    pub open spec fn first_slots(self) -> Option<(Handle, Handle, Handle)> {
        match (self.mount_slots(), self.namespaces.next()) {
            (Some(p), Some(ns)) => Some((p.0, p.1, ns)),
            _ => None,
        }
    }

    /// The state with the first root in its slots and nothing below it.
    pub open spec fn bare_root(self, rv: Handle, mh: Handle, ns: Handle) -> VfsModel {
        let fs_id = self.next_fs_instance_id;
        let s = self.instance_taken().mount_filled(
            rv,
            Vnode { mount: MountRef { id: fs_id, handle: mh }, ..Vnode::new_root_dir(fs_id) },
            mh,
            MountView::boot_root(fs_id, rv),
        );
        VfsModel {
            namespaces: s.namespaces.put(
                ns,
                NamespaceView { refcount: 1, root_mount: mh, mounts: seq![mh] },
            ),
            root_mount: mh,
            global_ns: ns,
            boot_dirs: BootDirs { boot_root_mount: mh, ..BootDirs::unset() },
            ..s
        }
    }

    /// The state with directories, files and pseudo filesystems below the first root.
    pub open spec fn base_laid_out(
        self,
        rv: Handle,
        mh: Handle,
        fs_id: FsInstanceId,
        l: LayoutView,
        now: u64,
    ) -> (VfsModel, bool) {
        let (a, ok) = self.scaffolded(rv, mh, fs_id, l.root_dirs, 0);
        if !ok || !a.boot_dirs.etc_dir.is_valid() {
            (a, false)
        } else {
            let (b, ok) = a.seeded(
                a.boot_dirs.etc_dir,
                mh,
                fs_id,
                l.etc_files,
                0,
            );
            if !ok {
                (b, false)
            } else {
                b.pseudo_mounted(now)
            }
        }
    }

    /// The state with the roots of the pseudo filesystems remembered, if all are found.
    pub open spec fn pseudo_remembered(self) -> (VfsModel, bool) {
        match (
            self.boot_named("/dev".spec_bytes()),
            self.boot_named("/proc".spec_bytes()),
            self.boot_named("/tmp".spec_bytes()),
            self.boot_named("/sys".spec_bytes()),
            self.boot_named("/pipe".spec_bytes()),
        ) {
            (Some(dev), Some(proc_dir), Some(tmp), Some(sys), Some(pipe)) => (
                VfsModel {
                    boot_dirs: BootDirs {
                        dev_dir: dev,
                        proc_dir,
                        tmp_dir: tmp,
                        sys_dir: sys,
                        pipe_dir: pipe,
                        ..self.boot_dirs
                    },
                    ..self
                },
                true,
            ),
            _ => (self, false),
        }
    }

    /// The state with the directory of shared memory there and open to all.
    pub open spec fn shm_dir_made(self, now: u64) -> (VfsModel, bool) {
        let (s, dir) = match self.boot_named("/tmp/shm".spec_bytes()) {
            Some(v) => (self, Some(v)),
            None => {
                let (s, made) = self.dir_path_made(
                    "/tmp/shm".spec_bytes(),
                    S_IFDIR | 0o1777u32,
                    now,
                );
                (
                    s,
                    match made {
                        Ok(v) => Some(v),
                        Err(_) => None,
                    },
                )
            },
        };
        match dir {
            None => (s, false),
            Some(v) => match s.vnodes.entry(v) {
                None => (s, false),
                Some(vn) => (
                    s.with_vnode(
                        v,
                        Vnode { mode: (vn.mode & !0o7777u32) | (0o1777u32 & 0o7777), ..vn },
                    ),
                    true,
                ),
            },
        }
    }

    /// The state with the pseudo filesystems filled.
    pub open spec fn pseudo_filled(self, ds: Seq<DeviceSeedView>, now: u64) -> (VfsModel, bool) {
        let (a, ok) = self.pseudo_remembered();
        if !ok {
            (a, false)
        } else {
            let (b, ok) = a.sysctl_populated(now);
            if !ok {
                (b, false)
            } else {
                let (c, ok) = b.proc_populated(now);
                if !ok {
                    (c, false)
                } else {
                    let (d, ok) = c.shm_dir_made(now);
                    if !ok {
                        (d, false)
                    } else {
                        d.dev_laid_out(ds, now)
                    }
                }
            }
        }
    }

    /// Whether every place that the service itself uses is found where it was put.
    pub open spec fn places_found(self) -> bool {
        &&& self.boot_named("/etc".spec_bytes()) == Some(self.boot_dirs.etc_dir)
        &&& self.boot_named("/dev".spec_bytes()) == Some(self.boot_dirs.dev_dir)
        &&& self.boot_named("/dev/console".spec_bytes()) is Some
        &&& self.boot_named("/dev/pts".spec_bytes()) is Some
        &&& self.boot_named("/proc".spec_bytes()) == Some(self.boot_dirs.proc_dir)
        &&& self.boot_named("/sys".spec_bytes()) == Some(self.boot_dirs.sys_dir)
        &&& self.boot_named("/tmp".spec_bytes()) == Some(self.boot_dirs.tmp_dir)
        &&& self.boot_named("/pipe".spec_bytes()) == Some(self.boot_dirs.pipe_dir)
        &&& self.boot_named("/initramfs".spec_bytes()) == Some(self.boot_dirs.initramfs_dir)
        &&& self.boot_named("/newroot".spec_bytes()) == Some(self.boot_dirs.new_root_dir)
        &&& self.boot_named("/etc/passwd".spec_bytes()) is Some
    }

    /// The state with the global namespace listing the mounts that there are.
    pub open spec fn ns_refreshed(self) -> VfsModel {
        match self.namespaces.entry(self.global_ns) {
            None => self,
            Some(ns) => VfsModel {
                namespaces: self.namespaces.put(
                    self.global_ns,
                    NamespaceView {
                        mounts: self.mounts.listed(any_mount(), 0, MAX_NS_MOUNTS as nat),
                        ..ns
                    },
                ),
                ..self
            },
        }
    }

    /// The state after the first root was looked up again, and whether it and all places
    /// are where they belong.
    pub open spec fn layout_confirmed(
        self,
        rv: Handle,
        mh: Handle,
        ns: Handle,
        fs_id: FsInstanceId,
    ) -> (VfsModel, bool) {
        match self.vnodes.entry(rv) {
            None => (self, false),
            Some(vn) => if self.mount_of_instance(fs_id) != Some(mh) {
                (self, false)
            } else {
                let key = vn.vnode_key();
                let s = self.key_looked_up(key);
                if self.vnode_of_key(key) == Some(rv) && s.namespaces.has(ns) && s.places_found() {
                    (s.ns_refreshed(), true)
                } else {
                    (s, false)
                }
            },
        }
    }

    /// The whole namespace laid out from nothing.
    pub open spec fn laid_out(self, l: LayoutView, now: u64) -> (VfsModel, bool) {
        let s = self.first_slots_reserved();
        match self.first_slots() {
            None => (s, false),
            Some((rv, mh, ns)) => {
                let fs_id = self.next_fs_instance_id;
                let (a, ok) = s.bare_root(rv, mh, ns).base_laid_out(rv, mh, fs_id, l, now);
                if !ok {
                    (a, false)
                } else {
                    let (b, ok) = a.pseudo_filled(l.devices, now);
                    if !ok {
                        (b, false)
                    } else {
                        b.layout_confirmed(rv, mh, ns, fs_id)
                    }
                }
            },
        }
    }
}

impl VfsState {
    /// A directory of the bootstrap tree, made if it is not there; nothing when it cannot
    /// be made, as in a directory of the disk filesystem.
    pub fn ensure_bootstrap_dir(
        &mut self,
        parent: Handle,
        mount: Handle,
        fs_id: FsInstanceId,
        name: &[u8],
        vnode_id: u64,
    ) -> (r: Option<Handle>)
        ensures
            (final(self)@, r) == old(self)@.dir_ensured(parent, mount, fs_id, name@, vnode_id),
    {
        if let Some(v) = self.bootstrap_lookup_child(parent, name) {
            return Some(v);
        }
        let on_disk: bool = match self.vnodes.get(parent) {
            Some(vn) => matches!(vn.backend, Backend::Saltyfs),
            None => false,
        };
        if on_disk {
            return None;
        }
        self.create_bootstrap_dir(parent, mount, fs_id, name, vnode_id, bootstrap_dir_mode(name))
    }

    /// Makes the directories of the root and remembers those that the service uses.
    pub fn initialize_bootstrap_scaffold(
        &mut self,
        root: Handle,
        mount: Handle,
        fs_id: FsInstanceId,
        layout: &Layout,
    ) -> (r: bool)
        requires
            layout.fits(),
        ensures
            (final(self)@, r) == old(self)@.scaffolded(root, mount, fs_id, layout@.root_dirs, 0),
    {
        let mut i: usize = 0;
        while i < layout.root_dirs.len()
            invariant
                layout.fits(),
                i <= layout.root_dirs@.len(),
                self@.scaffolded(root, mount, fs_id, layout@.root_dirs, i as int)
                    == old(self)@.scaffolded(root, mount, fs_id, layout@.root_dirs, 0),
            decreases layout.root_dirs@.len() - i,
        {
            let name = layout.root_dirs[i].as_slice();
            assert(layout@.root_dirs[i as int] == name@);
            match self.ensure_bootstrap_dir(root, mount, fs_id, name, i as u64 + 2) {
                Some(v) => {
                    self.boot_dirs = remember(self.boot_dirs, name, v);
                },
                None => {
                    return false;
                },
            }
            i += 1;
        }
        true
    }

    /// Makes the files of `/etc`.
    pub fn initialize_bootstrap_seed_files(
        &mut self,
        mount: Handle,
        fs_id: FsInstanceId,
        layout: &Layout,
    ) -> (r: bool)
        requires
            layout.fits(),
        ensures
            (final(self)@, r) == (if old(self)@.boot_dirs.etc_dir.is_valid() {
                old(self)@.seeded(
                    old(self)@.boot_dirs.etc_dir,
                    mount,
                    fs_id,
                    layout@.etc_files,
                    0,
                )
            } else {
                (old(self)@, false)
            }),
    {
        let etc: Handle = self.boot_dirs.etc_dir;
        if !etc.is_valid() {
            return false;
        }
        let mut i: usize = 0;
        while i < layout.etc_files.len()
            invariant
                layout.fits(),
                etc == old(self)@.boot_dirs.etc_dir,
                etc.is_valid(),
                i <= layout.etc_files@.len(),
                self@.seeded(etc, mount, fs_id, layout@.etc_files, i as int)
                    == old(self)@.seeded(etc, mount, fs_id, layout@.etc_files, 0),
            decreases layout.etc_files@.len() - i,
        {
            let f = &layout.etc_files[i];
            assert(layout@.etc_files[i as int] == f@);
            let made = self.create_bootstrap_file(
                etc,
                mount,
                fs_id,
                f.name.as_slice(),
                0x200 + i as u64,
                f.mode,
                f.content.as_slice(),
            );
            if made.is_none() {
                return false;
            }
            i += 1;
        }
        true
    }

    fn make_devices(&mut self, dev: Handle, mount: Handle, fs_id: FsInstanceId, layout: &Layout) -> (r:
        bool)
        ensures
            (final(self)@, r) == old(self)@.devices_made(dev, mount, fs_id, layout@.devices, 0),
    {
        let mut i: usize = 0;
        while i < layout.devices.len()
            invariant
                i <= layout.devices@.len(),
                self@.devices_made(dev, mount, fs_id, layout@.devices, i as int)
                    == old(self)@.devices_made(dev, mount, fs_id, layout@.devices, 0),
            decreases layout.devices@.len() - i,
        {
            let d = &layout.devices[i];
            assert(layout@.devices[i as int] == d@);
            let made = self.create_bootstrap_char_device(
                dev,
                mount,
                fs_id,
                d.name.as_slice(),
                d.mode,
                d.kind,
                0,
                0,
            );
            if made.is_none() {
                return false;
            }
            i += 1;
        }
        true
    }

    fn ensure_link(&mut self, path: &[u8], target: &[u8], now: u64) -> (r: bool)
        ensures
            (final(self)@, r) == old(self)@.link_ensured(path@, target@, now),
    {
        if self.bootstrap_lookup_path(path).is_some() {
            return true;
        }
        self.bootstrap_create_symlink_path(path, S_IFLNK | 0o777, target, now).is_ok()
    }

    fn make_dev_links(&mut self, now: u64) -> (r: bool)
        ensures
            (final(self)@, r) == old(self)@.dev_links_made(now),
    {
        self.ensure_link("/dev/random".as_bytes(), "/dev/urandom".as_bytes(), now)
            && self.ensure_link("/dev/fb".as_bytes(), "/dev/fb0".as_bytes(), now)
            && self.ensure_link("/dev/tty0".as_bytes(), "/dev/console".as_bytes(), now)
            && self.ensure_link("/dev/pts/ptmx".as_bytes(), "/dev/ptmx".as_bytes(), now)
    }

    /// Makes the devices and links of `/dev`.
    pub fn initialize_bootstrap_devfs_nodes(&mut self, layout: &Layout, now: u64) -> (r: bool)
        ensures
            (final(self)@, r) == old(self)@.dev_laid_out(layout@.devices, now),
    {
        let dev: Handle = match self.bootstrap_lookup_path("/dev".as_bytes()) {
            Some(v) => v,
            None => {
                return false;
            },
        };
        let (mount, fs_id): (Handle, FsInstanceId) = match self.vnodes.get(dev) {
            Some(vn) => (vn.mount.handle, vn.fs_instance_id),
            None => {
                return false;
            },
        };
        if !mount.is_valid() {
            return false;
        }
        if self.ensure_bootstrap_dir(dev, mount, fs_id, "pts".as_bytes(), 0x310).is_none() {
            return false;
        }
        self.make_devices(dev, mount, fs_id, layout) && self.make_dev_links(now)
    }

    fn put_mount(&mut self, made: Option<Handle>, path: &[u8]) -> (r: bool)
        ensures
            (final(self)@, r) == VfsModel::put_on((old(self)@, made), path@),
    {
        match made {
            Some(mh) => self.graft_mount_at_bootstrap_path(mh, path),
            None => false,
        }
    }

    /// Mounts the pseudo filesystems at their places.
    pub fn mount_bootstrap_pseudo_filesystems(&mut self, now: u64) -> (r: bool)
        ensures
            (final(self)@, r) == old(self)@.pseudo_mounted(now),
    {
        let none: Vec<u8> = Vec::new();
        assert(none@ =~= Seq::<u8>::empty());
        let dev = alloc_devfs_mount(self, "/dev".as_bytes(), 0);
        if !self.put_mount(dev, "/dev".as_bytes()) {
            return false;
        }
        let proc_mount = alloc_procfs_mount(self, "/proc".as_bytes(), 0, none.as_slice());
        if !self.put_mount(proc_mount, "/proc".as_bytes()) {
            return false;
        }
        let tmp = alloc_tmpfs_mount(self, "/tmp".as_bytes(), 0, none.as_slice(), now);
        if !self.put_mount(tmp, "/tmp".as_bytes()) {
            return false;
        }
        let sys = alloc_sysctlfs_mount(self, "/sys".as_bytes(), 0, none.as_slice());
        if !self.put_mount(sys, "/sys".as_bytes()) {
            return false;
        }
        let pipe = alloc_pipefs_mount(self, "/pipe".as_bytes(), 0);
        self.put_mount(pipe, "/pipe".as_bytes())
    }
}

impl VfsState {
    fn reserve_first_slots(&mut self) -> (r: Option<(Handle, Handle, Handle)>)
        ensures
            r == old(self)@.first_slots(),
            final(self)@ == old(self)@.first_slots_reserved(),
    {
        let (rv, mh): (Handle, Handle) = match reserve_slots(self) {
            Some(p) => p,
            None => {
                return None;
            },
        };
        let blank = MountNamespace {
            refcount: 0,
            root_mount: Handle::invalid(),
            mounts: Vec::new(),
        };
        assert(blank@.mounts =~= Seq::<Handle>::empty());
        match self.namespaces.reserve(blank) {
            Some(ns) => Some((rv, mh, ns)),
            None => None,
        }
    }

    fn fill_bare_root(&mut self, rv: Handle, mh: Handle, ns: Handle)
        ensures
            final(self)@ == old(self)@.bare_root(rv, mh, ns),
    {
        let fs_id: FsInstanceId = self.alloc_fs_instance_id();
        let mut root = Vnode::new_root_dir(fs_id);
        root.mount = MountRef { id: fs_id, handle: mh };
        fill_mount(self, rv, root, mh, Mount::new_boot_root(fs_id, rv));
        let mut mounts: Vec<Handle> = Vec::new();
        mounts.push(mh);
        let space = MountNamespace { refcount: 1, root_mount: mh, mounts };
        assert(space@.mounts =~= seq![mh]);
        let _ = self.namespaces.set(ns, space);
        self.root_mount = mh;
        self.global_ns = ns;
        self.boot_dirs = BootDirs::unset();
        self.boot_dirs.boot_root_mount = mh;
    }

    fn lay_out_base(&mut self, rv: Handle, mh: Handle, fs_id: FsInstanceId, layout: &Layout, now: u64)
        -> (r: bool)
        requires
            layout.fits(),
        ensures
            (final(self)@, r) == old(self)@.base_laid_out(rv, mh, fs_id, layout@, now),
    {
        self.initialize_bootstrap_scaffold(rv, mh, fs_id, layout)
            && self.initialize_bootstrap_seed_files(mh, fs_id, layout)
            && self.mount_bootstrap_pseudo_filesystems(now)
    }

    fn remember_pseudo(&mut self) -> (r: bool)
        ensures
            (final(self)@, r) == old(self)@.pseudo_remembered(),
    {
        match (
            self.bootstrap_lookup_path("/dev".as_bytes()),
            self.bootstrap_lookup_path("/proc".as_bytes()),
            self.bootstrap_lookup_path("/tmp".as_bytes()),
            self.bootstrap_lookup_path("/sys".as_bytes()),
            self.bootstrap_lookup_path("/pipe".as_bytes()),
        ) {
            (Some(dev), Some(proc_dir), Some(tmp), Some(sys), Some(pipe)) => {
                self.boot_dirs.dev_dir = dev;
                self.boot_dirs.proc_dir = proc_dir;
                self.boot_dirs.tmp_dir = tmp;
                self.boot_dirs.sys_dir = sys;
                self.boot_dirs.pipe_dir = pipe;
                true
            },
            _ => false,
        }
    }

    fn make_shm_dir(&mut self, now: u64) -> (r: bool)
        ensures
            (final(self)@, r) == old(self)@.shm_dir_made(now),
    {
        let found = self.bootstrap_lookup_path("/tmp/shm".as_bytes());
        let dir: Handle = match found {
            Some(v) => v,
            None => match self.bootstrap_mkdir_path("/tmp/shm".as_bytes(), S_IFDIR | 0o1777, now) {
                Ok(v) => v,
                Err(_) => {
                    return false;
                },
            },
        };
        matches!(self.bootstrap_set_mode_vnode(dir, 0o1777), Status::Success)
    }

    fn fill_pseudo(&mut self, layout: &Layout, now: u64) -> (r: bool)
        ensures
            (final(self)@, r) == old(self)@.pseudo_filled(layout@.devices, now),
    {
        self.remember_pseudo() && populate_sysctl_tree(self, now) && populate_proc_tree(self, now)
            && self.make_shm_dir(now) && self.initialize_bootstrap_devfs_nodes(layout, now)
    }

    fn places_are_found(&self) -> (r: bool)
        ensures
            r == self@.places_found(),
    {
        self.is_named("/etc".as_bytes(), self.boot_dirs.etc_dir)
            && self.is_named("/dev".as_bytes(), self.boot_dirs.dev_dir)
            && self.bootstrap_lookup_path("/dev/console".as_bytes()).is_some()
            && self.bootstrap_lookup_path("/dev/pts".as_bytes()).is_some()
            && self.is_named("/proc".as_bytes(), self.boot_dirs.proc_dir)
            && self.is_named("/sys".as_bytes(), self.boot_dirs.sys_dir)
            && self.is_named("/tmp".as_bytes(), self.boot_dirs.tmp_dir)
            && self.is_named("/pipe".as_bytes(), self.boot_dirs.pipe_dir)
            && self.is_named("/initramfs".as_bytes(), self.boot_dirs.initramfs_dir)
            && self.is_named("/newroot".as_bytes(), self.boot_dirs.new_root_dir)
            && self.bootstrap_lookup_path("/etc/passwd".as_bytes()).is_some()
    }

    fn is_named(&self, path: &[u8], v: Handle) -> (r: bool)
        ensures
            r == (self@.boot_named(path@) == Some(v)),
    {
        match self.bootstrap_lookup_path(path) {
            Some(h) => h == v,
            None => false,
        }
    }

    /// Makes the global namespace list the mounts that there are.
    pub fn refresh_global_ns(&mut self)
        ensures
            final(self)@ == old(self)@.ns_refreshed(),
    {
        let list = self.mounts.collect(
            |h: Handle, mt: &Mount| -> (b: bool) ensures b == true { true },
            MAX_NS_MOUNTS,
            Ghost(any_mount()),
        );
        if let Some(ns) = self.namespaces.get_mut(self.global_ns) {
            ns.mounts = list;
        }
    }

    fn confirm_layout(&mut self, rv: Handle, mh: Handle, ns: Handle, fs_id: FsInstanceId) -> (r: bool)
        ensures
            (final(self)@, r) == old(self)@.layout_confirmed(rv, mh, ns, fs_id),
    {
        let key: VnodeKey = match self.vnodes.get(rv) {
            Some(vn) => vn.vnode_key(),
            None => {
                return false;
            },
        };
        let same_mount: bool = match self.mount_by_fs_instance_id(fs_id) {
            Some(h) => h == mh,
            None => false,
        };
        if !same_mount {
            return false;
        }
        let same_root: bool = match self.vnode_by_key(key) {
            Some(h) => h == rv,
            None => false,
        };
        if !same_root || !self.namespaces.contains(ns) || !self.places_are_found() {
            return false;
        }
        self.refresh_global_ns();
        true
    }

    /// Lays out the namespace from nothing: the root, its directories and files, the pseudo
    /// filesystems and what is in them. `false` when a part cannot be made or is not found
    /// where it belongs; what was made until then stays.
    pub fn initialize_bootstrap_namespace(&mut self, layout: &Layout, now: u64) -> (r: bool)
        requires
            layout.fits(),
        ensures
            (final(self)@, r) == old(self)@.laid_out(layout@, now),
    {
        let (rv, mh, ns): (Handle, Handle, Handle) = match self.reserve_first_slots() {
            Some(p) => p,
            None => {
                return false;
            },
        };
        let fs_id: FsInstanceId = self.next_fs_instance_id;
        self.fill_bare_root(rv, mh, ns);
        self.lay_out_base(rv, mh, fs_id, layout, now) && self.fill_pseudo(layout, now)
            && self.confirm_layout(rv, mh, ns, fs_id)
    }
}

impl VfsModel {
    /// Whether both states hold the same tree.
    pub open spec fn same_tree(self, other: VfsModel) -> bool {
        &&& self.vnodes == other.vnodes
        &&& self.mounts == other.mounts
        &&& self.root_mount == other.root_mount
        &&& self.boot_entries == other.boot_entries
        &&& self.blobs == other.blobs
    }

    proof fn lemma_same_path(self, other: VfsModel, v: Handle, n: nat)
        requires
            self.same_tree(other),
        ensures
            self.boot_path_within(v, n) == other.boot_path_within(v, n),
        decreases n,
    {
        if n > 0 {
            if let Some(i) = name_of_vnode(self.boot_entries, v, 0) {
                self.lemma_same_path(other, self.boot_entries[i].parent, (n - 1) as nat);
            }
        }
    }

    proof fn lemma_same_walk(
        self,
        other: VfsModel,
        path: Seq<u8>,
        pos: int,
        cur: Handle,
        depth: nat,
        mode: WalkMode,
    )
        requires
            self.same_tree(other),
        ensures
            self.boot_walk(path, pos, cur, depth, mode) == other.boot_walk(
                path,
                pos,
                cur,
                depth,
                mode,
            ),
        decreases BOOTSTRAP_SYMLINK_DEPTH_MAX + 1 - depth, path.len() - pos,
    {
        if depth <= BOOTSTRAP_SYMLINK_DEPTH_MAX && 0 <= pos < path.len() {
            let end = past_component(path, pos);
            let next = past_slashes(path, end);
            lemma_scan_bounds(path, pos);
            lemma_scan_bounds(path, end);
            lemma_scan_bounds(path, pos + 1);
            if end == pos {
                self.lemma_same_walk(other, path, next, cur, depth, mode);
            } else if let Some(c) = boot_child(
                self.boot_entries,
                cur,
                path.subrange(pos, end),
                mode.fold,
            ) {
                assert(self.crossed(c, mode) == other.crossed(c, mode));
                if let Some(v) = self.crossed(c, mode) {
                    if self.vnodes.at(v).vtype != VnodeType::Lnk {
                        self.lemma_same_walk(other, path, next, v, depth, mode);
                    } else if let Some(t) = self.link_bytes(self.vnodes.at(v)) {
                        self.lemma_same_path(
                            other,
                            self.boot_parent(v),
                            BOOTSTRAP_PATH_DEPTH_MAX as nat,
                        );
                        if let Some(p) = self.link_leads_to(v, t, path.skip(next)) {
                            self.lemma_same_lookup(other, p, depth + 1, mode);
                        }
                    }
                }
            }
        }
    }

    /// What a path names depends on the tree alone.
    pub proof fn lemma_same_lookup(
        self,
        other: VfsModel,
        path: Seq<u8>,
        depth: nat,
        mode: WalkMode,
    )
        requires
            self.same_tree(other),
        ensures
            self.boot_lookup(path, depth, mode) == other.boot_lookup(path, depth, mode),
        decreases BOOTSTRAP_SYMLINK_DEPTH_MAX + 1 - depth, path.len() + 1,
    {
        if depth <= BOOTSTRAP_SYMLINK_DEPTH_MAX {
            if let Some(root) = self.root_vnode() {
                lemma_scan_bounds(path, 0);
                self.lemma_same_walk(other, path, past_slashes(path, 0), root, depth, mode);
            }
        }
    }
}

/// A namespace that was laid out has every place that the service uses: the root mount is
/// the one that was made, the directories that are remembered are those that their paths
/// name, and the global namespace lists the mounts.
pub proof fn law_layout_is_complete(m: VfsModel, l: LayoutView, now: u64)
    requires
        m.laid_out(l, now).1,
    ensures
        ({
            let s = m.laid_out(l, now).0;
            let (rv, mh, ns) = m.first_slots().unwrap();
            &&& s.mount_of_instance(m.next_fs_instance_id) == Some(mh)
            &&& s.vnodes.has(rv)
            &&& s.namespaces.has(ns)
            &&& s.places_found()
        }),
{
    let (rv, mh, ns) = m.first_slots().unwrap();
    let fs_id = m.next_fs_instance_id;
    let a = m.first_slots_reserved().bare_root(rv, mh, ns).base_laid_out(rv, mh, fs_id, l, now).0;
    let b = a.pseudo_filled(l.devices, now).0;
    let t = b.key_looked_up(b.vnodes.at(rv).vnode_key());
    assert forall|path: Seq<u8>| #[trigger]
        t.ns_refreshed().boot_named(path) == t.boot_named(path) by {
        t.ns_refreshed().lemma_same_lookup(t, path, 0, service_mode());
    }
    assert(t.ns_refreshed().mount_of_instance(fs_id) == t.mount_of_instance(fs_id));
}

} // verus!
