//! The filesystems that the service implements or fronts.

pub mod mounting;
pub mod proc_rpc;
pub mod procfs;
pub mod proctext;
pub mod records;
pub mod saltyfs;
pub mod saltyfs_done;
pub mod saltyfs_laws;
pub mod saltyfs_ops;
pub mod saltyfs_wire;
pub mod statfs;
pub mod sysctlfs;
pub mod tmpfs;
pub mod tmpfs_data_laws;
pub mod tmpfs_dir;
pub mod tmpfs_file;
pub mod tmpfs_laws;
pub mod tmpfs_name_laws;
pub mod tmpfs_sound;
