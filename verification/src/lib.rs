//! Namespace service of a microkernel file server, with its behaviour proved.
//!
//! The crate holds the rules of the service: tables of vnodes, mounts, clients and
//! open files, path resolution, the in-memory and generated filesystems, the table of
//! deferred operations and the bookkeeping around backend calls. Everything that talks
//! to the kernel or to another server stays outside and hands plain values in.

pub mod arena;
pub mod backend_rpc;
pub mod boot_laws;
pub mod boot_ops;
pub mod bootstrap;
pub mod bytes;
pub mod clients;
pub mod continuation;
pub mod descriptor_laws;
pub mod dispatch;
pub mod files;
pub mod fs;
pub mod identity;
pub mod layout;
pub mod lifecycle;
pub mod mount;
pub mod mount_laws;
pub mod mount_requests;
pub mod namei;
pub mod namei_laws;
pub mod namei_path;
pub mod namei_resume;
pub mod namei_state;
pub mod namespace;
pub mod object_laws;
pub mod objects;
pub mod owner_loop;
pub mod path;
pub mod pending_ops;
pub mod provision;
pub mod release;
pub mod ring;
pub mod state;
pub mod status;
pub mod text;
pub mod vnode;
pub mod vnode_index;
pub mod win32;
pub mod wire;
