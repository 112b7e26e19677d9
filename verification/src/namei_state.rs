//! State of a suspended path walk and of the request that waits for it.

use vstd::prelude::*;

use crate::arena::Handle;

verus! {

/// Longest path that a suspended walk keeps.
pub const BOOTSTRAP_PATH_MAX: usize = 256;

/// Deepest nesting of components in a normalised path.
pub const BOOTSTRAP_PATH_DEPTH_MAX: usize = 64;

/// How many symlinks a walk follows before it gives up.
pub const BOOTSTRAP_SYMLINK_DEPTH_MAX: u8 = 8;

pub const NAMEI_AUX_NONE: u8 = 0;

pub const NAMEI_AUX_PTS: u8 = 1;

pub const NAMEI_AUX_OPEN: u8 = 2;

pub const NAMEI_AUX_STAT: u8 = 3;

pub const NAMEI_AUX_ACCESS: u8 = 4;

pub const NAMEI_AUX_CHMOD: u8 = 5;

pub const NAMEI_AUX_CHOWN: u8 = 6;

pub const NAMEI_AUX_UTIMES: u8 = 7;

pub const NAMEI_AUX_TRUNCATE: u8 = 8;

pub const NAMEI_AUX_READLINK: u8 = 9;

pub const NAMEI_AUX_UNLINK: u8 = 10;

pub const NAMEI_AUX_MKDIR: u8 = 11;

pub const NAMEI_AUX_RENAME: u8 = 12;

pub const NAMEI_AUX_SYMLINK: u8 = 13;

pub const NAMEI_AUX_LINK: u8 = 14;

pub const NAMEI_AUX_MKNOD: u8 = 15;

pub const NAMEI_AUX_CHDIR: u8 = 16;

pub const NAMEI_AUX_STATVFS: u8 = 17;

pub const NAMEI_AUX_MOUNT: u8 = 18;

pub const NAMEI_AUX_UMOUNT: u8 = 19;

pub const OPEN_STAGE_LOOKUP: u8 = 0;

pub const OPEN_STAGE_PARENT_LOOKUP: u8 = 1;

pub const OPEN_STAGE_CREATE: u8 = 2;

pub const OPEN_STAGE_TRUNCATE: u8 = 3;

pub const UTIMENS_OPT_NORMAL: u8 = 0;

pub const UTIMENS_OPT_NOW: u8 = 1;

pub const UTIMENS_OPT_OMIT: u8 = 2;

pub const NAMEI_STEP_AFTER_LOOKUP_CHILD: u8 = 1;

pub const NAMEI_STEP_AFTER_ENSURE_SYMLINK: u8 = 2;

/// The walk has ended; what is left is the tail of the request.
pub const NAMEI_STEP_DONE: u8 = 3;

pub const NAMEI_STEP_AFTER_PTS_LOOKUP: u8 = 4;

/// Longest new path that a suspended rename carries.
pub const RENAME_NEW_PATH_MAX: usize = 88;

/// Longest target that a suspended symlink creation carries.
pub const SYMLINK_TARGET_INLINE_MAX: usize = 64;

/// Longest new path that a suspended link creation carries.
pub const LINK_NEW_PATH_MAX: usize = 88;

#[derive(Clone, Copy)]
pub struct NameiAuxPts {
    pub pty_id: u32,
    pub generation: u32,
    pub pts_dir: Handle,
}

#[derive(Clone, Copy)]
pub struct OpenContBody {
    pub flags: u32,
    pub mode: u32,
    pub dirfd_packed: u64,
    pub result_fd_hint: i32,
    pub force_directory: bool,
    pub stage: u8,
    pub leaf_offset: u16,
}

#[derive(Clone, Copy)]
pub struct StatContBody {
    pub follow_symlink: bool,
    pub for_exec: bool,
    pub dirfd_packed: u64,
}

#[derive(Clone, Copy)]
pub struct AccessContBody {
    pub mode: u32,
    pub flags: u32,
    pub dirfd_packed: u64,
}

#[derive(Clone, Copy)]
pub struct ChmodContBody {
    pub mode: u32,
}

#[derive(Clone, Copy)]
pub struct ChownContBody {
    pub uid: u32,
    pub gid: u32,
}

/// Each time has a selector, one of the `UTIMENS_OPT_*` values, and a value in
/// nanoseconds that counts only under `UTIMENS_OPT_NORMAL`.
#[derive(Clone, Copy)]
pub struct UtimesContBody {
    pub atime_opt: u8,
    pub mtime_opt: u8,
    pub atime_ns: u64,
    pub mtime_ns: u64,
    pub dirfd_packed: u64,
    pub flags: u32,
}

#[derive(Clone, Copy)]
pub struct TruncateContBody {
    pub length: u64,
}

#[derive(Clone, Copy)]
pub struct ReadlinkContBody {}

#[derive(Clone, Copy)]
pub struct UnlinkContBody {
    pub flags: u32,
}

#[derive(Clone, Copy)]
pub struct MkdirContBody {
    pub mode: u32,
}

/// The old path is the one that the walk keeps; the new one is here.
#[derive(Clone, Copy)]
pub struct RenameContBody {
    pub new_path_len: u8,
    pub new_path: [u8; 88],
}

/// The link's path is the one that the walk keeps; its target is here.
#[derive(Clone, Copy)]
pub struct SymlinkContBody {
    pub target_len: u8,
    pub target: [u8; 64],
}

/// The source is the vnode that the walk ends at; the new path is here.
#[derive(Clone, Copy)]
pub struct LinkContBody {
    pub new_path_len: u8,
    pub new_path: [u8; 88],
}

#[derive(Clone, Copy)]
pub struct MknodContBody {
    pub mode: u32,
    pub dev: u64,
}

#[derive(Clone, Copy)]
pub struct ChdirContBody {
    pub explicit_drive: i8,
}

#[derive(Clone, Copy)]
pub struct StatvfsContBody {}

#[derive(Clone, Copy)]
pub struct MountContBody {}

#[derive(Clone, Copy)]
pub struct UmountContBody {
    pub flags: u32,
}

/// What a suspended operation carries beside the walk itself: nothing, the pty that a
/// walk step waits for, or the tail of the request that started the walk.
#[derive(Clone, Copy)]
pub enum NameiResumeAux {
    Nothing,
    Pts(NameiAuxPts),
    Open(OpenContBody),
    Stat(StatContBody),
    Access(AccessContBody),
    Chmod(ChmodContBody),
    Chown(ChownContBody),
    Utimes(UtimesContBody),
    Truncate(TruncateContBody),
    Readlink(ReadlinkContBody),
    Unlink(UnlinkContBody),
    Mkdir(MkdirContBody),
    Rename(RenameContBody),
    Symlink(SymlinkContBody),
    Link(LinkContBody),
    Mknod(MknodContBody),
    Chdir(ChdirContBody),
    Statvfs(StatvfsContBody),
    Mount(MountContBody),
    Umount(UmountContBody),
}

/// The `NAMEI_AUX_*` number of a body.
pub open spec fn aux_kind(aux: NameiResumeAux) -> u8 {
    match aux {
        NameiResumeAux::Nothing => NAMEI_AUX_NONE,
        NameiResumeAux::Pts(_) => NAMEI_AUX_PTS,
        NameiResumeAux::Open(_) => NAMEI_AUX_OPEN,
        NameiResumeAux::Stat(_) => NAMEI_AUX_STAT,
        NameiResumeAux::Access(_) => NAMEI_AUX_ACCESS,
        NameiResumeAux::Chmod(_) => NAMEI_AUX_CHMOD,
        NameiResumeAux::Chown(_) => NAMEI_AUX_CHOWN,
        NameiResumeAux::Utimes(_) => NAMEI_AUX_UTIMES,
        NameiResumeAux::Truncate(_) => NAMEI_AUX_TRUNCATE,
        NameiResumeAux::Readlink(_) => NAMEI_AUX_READLINK,
        NameiResumeAux::Unlink(_) => NAMEI_AUX_UNLINK,
        NameiResumeAux::Mkdir(_) => NAMEI_AUX_MKDIR,
        NameiResumeAux::Rename(_) => NAMEI_AUX_RENAME,
        NameiResumeAux::Symlink(_) => NAMEI_AUX_SYMLINK,
        NameiResumeAux::Link(_) => NAMEI_AUX_LINK,
        NameiResumeAux::Mknod(_) => NAMEI_AUX_MKNOD,
        NameiResumeAux::Chdir(_) => NAMEI_AUX_CHDIR,
        NameiResumeAux::Statvfs(_) => NAMEI_AUX_STATVFS,
        NameiResumeAux::Mount(_) => NAMEI_AUX_MOUNT,
        NameiResumeAux::Umount(_) => NAMEI_AUX_UMOUNT,
    }
}

/// The body that carries nothing.
pub fn namei_aux_none() -> (r: NameiResumeAux)
    ensures
        r == NameiResumeAux::Nothing,
        aux_kind(r) == NAMEI_AUX_NONE,
{
    NameiResumeAux::Nothing
}

/// The tail of an open request.
pub fn namei_aux_open(body: OpenContBody) -> (r: NameiResumeAux)
    ensures
        r == NameiResumeAux::Open(body),
        aux_kind(r) == NAMEI_AUX_OPEN,
{
    NameiResumeAux::Open(body)
}

/// The tail of a stat request.
pub fn namei_aux_stat(body: StatContBody) -> (r: NameiResumeAux)
    ensures
        r == NameiResumeAux::Stat(body),
        aux_kind(r) == NAMEI_AUX_STAT,
{
    NameiResumeAux::Stat(body)
}

/// The tail of an access request.
pub fn namei_aux_access(body: AccessContBody) -> (r: NameiResumeAux)
    ensures
        r == NameiResumeAux::Access(body),
        aux_kind(r) == NAMEI_AUX_ACCESS,
{
    NameiResumeAux::Access(body)
}

/// The tail of a chmod request.
pub fn namei_aux_chmod(body: ChmodContBody) -> (r: NameiResumeAux)
    ensures
        r == NameiResumeAux::Chmod(body),
        aux_kind(r) == NAMEI_AUX_CHMOD,
{
    NameiResumeAux::Chmod(body)
}

/// The tail of a chown request.
pub fn namei_aux_chown(body: ChownContBody) -> (r: NameiResumeAux)
    ensures
        r == NameiResumeAux::Chown(body),
        aux_kind(r) == NAMEI_AUX_CHOWN,
{
    NameiResumeAux::Chown(body)
}

/// The tail of an utimes request.
pub fn namei_aux_utimes(body: UtimesContBody) -> (r: NameiResumeAux)
    ensures
        r == NameiResumeAux::Utimes(body),
        aux_kind(r) == NAMEI_AUX_UTIMES,
{
    NameiResumeAux::Utimes(body)
}

/// The tail of a truncate request.
pub fn namei_aux_truncate(body: TruncateContBody) -> (r: NameiResumeAux)
    ensures
        r == NameiResumeAux::Truncate(body),
        aux_kind(r) == NAMEI_AUX_TRUNCATE,
{
    NameiResumeAux::Truncate(body)
}

/// The tail of a readlink request.
pub fn namei_aux_readlink(body: ReadlinkContBody) -> (r: NameiResumeAux)
    ensures
        r == NameiResumeAux::Readlink(body),
        aux_kind(r) == NAMEI_AUX_READLINK,
{
    NameiResumeAux::Readlink(body)
}

/// The tail of an unlink request.
pub fn namei_aux_unlink(body: UnlinkContBody) -> (r: NameiResumeAux)
    ensures
        r == NameiResumeAux::Unlink(body),
        aux_kind(r) == NAMEI_AUX_UNLINK,
{
    NameiResumeAux::Unlink(body)
}

/// The tail of a mkdir request.
pub fn namei_aux_mkdir(body: MkdirContBody) -> (r: NameiResumeAux)
    ensures
        r == NameiResumeAux::Mkdir(body),
        aux_kind(r) == NAMEI_AUX_MKDIR,
{
    NameiResumeAux::Mkdir(body)
}

/// The tail of a rename request.
pub fn namei_aux_rename(body: RenameContBody) -> (r: NameiResumeAux)
    ensures
        r == NameiResumeAux::Rename(body),
        aux_kind(r) == NAMEI_AUX_RENAME,
{
    NameiResumeAux::Rename(body)
}

/// The tail of a symlink request.
pub fn namei_aux_symlink(body: SymlinkContBody) -> (r: NameiResumeAux)
    ensures
        r == NameiResumeAux::Symlink(body),
        aux_kind(r) == NAMEI_AUX_SYMLINK,
{
    NameiResumeAux::Symlink(body)
}

/// The tail of a link request.
pub fn namei_aux_link(body: LinkContBody) -> (r: NameiResumeAux)
    ensures
        r == NameiResumeAux::Link(body),
        aux_kind(r) == NAMEI_AUX_LINK,
{
    NameiResumeAux::Link(body)
}

/// The tail of a mknod request.
pub fn namei_aux_mknod(body: MknodContBody) -> (r: NameiResumeAux)
    ensures
        r == NameiResumeAux::Mknod(body),
        aux_kind(r) == NAMEI_AUX_MKNOD,
{
    NameiResumeAux::Mknod(body)
}

/// The tail of a chdir request.
pub fn namei_aux_chdir(body: ChdirContBody) -> (r: NameiResumeAux)
    ensures
        r == NameiResumeAux::Chdir(body),
        aux_kind(r) == NAMEI_AUX_CHDIR,
{
    NameiResumeAux::Chdir(body)
}

/// The tail of a statvfs request.
pub fn namei_aux_statvfs(body: StatvfsContBody) -> (r: NameiResumeAux)
    ensures
        r == NameiResumeAux::Statvfs(body),
        aux_kind(r) == NAMEI_AUX_STATVFS,
{
    NameiResumeAux::Statvfs(body)
}

/// The tail of a mount request.
pub fn namei_aux_mount(body: MountContBody) -> (r: NameiResumeAux)
    ensures
        r == NameiResumeAux::Mount(body),
        aux_kind(r) == NAMEI_AUX_MOUNT,
{
    NameiResumeAux::Mount(body)
}

/// The tail of an umount request.
pub fn namei_aux_umount(body: UmountContBody) -> (r: NameiResumeAux)
    ensures
        r == NameiResumeAux::Umount(body),
        aux_kind(r) == NAMEI_AUX_UMOUNT,
{
    NameiResumeAux::Umount(body)
}

/// A suspended walk: the path, how far the walk has come, and what is to happen next.
pub struct NameiResumeState {
    pub path: Vec<u8>,
    pub pos: u16,
    pub depth: u8,
    pub follow_final_symlink: bool,
    pub ignore_case: bool,
    pub skip_posix_only: bool,
    pub skip_win32_only: bool,
    pub resume_step: u8,
    pub current: Handle,
    pub aux: NameiResumeAux,
}

/// Value of a [`NameiResumeState`].
#[verifier::ext_equal]
pub struct ResumeView {
    pub path: Seq<u8>,
    pub pos: u16,
    pub depth: u8,
    pub follow_final_symlink: bool,
    pub ignore_case: bool,
    pub skip_posix_only: bool,
    pub skip_win32_only: bool,
    pub resume_step: u8,
    pub current: Handle,
    pub aux: NameiResumeAux,
}

impl View for NameiResumeState {
    type V = ResumeView;

    open spec fn view(&self) -> ResumeView {
        ResumeView {
            path: self.path@,
            pos: self.pos,
            depth: self.depth,
            follow_final_symlink: self.follow_final_symlink,
            ignore_case: self.ignore_case,
            skip_posix_only: self.skip_posix_only,
            skip_win32_only: self.skip_win32_only,
            resume_step: self.resume_step,
            current: self.current,
            aux: self.aux,
        }
    }
}

impl NameiResumeState {
    /// A copy with the same value.
    pub fn duplicate(&self) -> (r: NameiResumeState)
        ensures
            r@ == self@,
    {
        NameiResumeState {
            path: vstd::slice::slice_to_vec(self.path.as_slice()),
            pos: self.pos,
            depth: self.depth,
            follow_final_symlink: self.follow_final_symlink,
            ignore_case: self.ignore_case,
            skip_posix_only: self.skip_posix_only,
            skip_win32_only: self.skip_win32_only,
            resume_step: self.resume_step,
            current: self.current,
            aux: self.aux,
        }
    }
}

} // verus!
