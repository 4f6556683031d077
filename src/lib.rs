//! Core of a user-space NFS version 3 server: ONC-RPC record framing and
//! message codec, XDR encoding of the Portmapper, MOUNT and NFS wire
//! structures, the portmap registry, the file-handle directory, and the
//! procedure handlers that drive a pluggable file system backend.
pub mod xdr;
pub mod record;
pub mod rpc;
pub mod fsal;
pub mod handle;
pub mod registry;
pub mod nfs3;
pub mod portmap;
pub mod mount;
pub mod nfs;
pub mod nfs_modify;
pub mod nfs_names;
pub mod nfs_info;
pub mod nfs_readdir;
pub mod server;
pub mod laws;
