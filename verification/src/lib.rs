//! Client-side core of the WebHDFS REST protocol: URI assembly, query
//! encoding, response classification, redirect handling, NameNode failover
//! and the position arithmetic of sequential file handles.
//!
//! The crate performs no I/O. Every operation is a small state machine: it
//! hands out the request to send and takes back what the transport saw.

pub mod async_client;
pub mod commandline;
pub mod config;
pub mod datatypes;
pub mod error;
pub mod https;
pub mod natmap;
pub mod op;
pub mod outside;
pub mod rest_client;
pub mod sync_client;
pub mod text;
pub mod uri;
pub mod uri_tools;

pub use async_client::{HdfsClient, HdfsClientBuilder};
pub use datatypes::{
    dirent_type, Boolean, FileStatus, FileStatusResponse, FileStatuses, ListStatusResponse,
    RemoteException, RemoteExceptionResponse,
};
pub use error::{Error, Result};
pub use natmap::NatMap;
pub use op::{
    AppendOptions, CreateOptions, CreateSymlinkOptions, DeleteOptions, MkdirsOptions, OpenOptions,
};
pub use sync_client::{SyncHdfsClient, SyncHdfsClientBuilder};
pub use uri::Uri;
