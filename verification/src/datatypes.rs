//! Payloads of WebHDFS responses.

use vstd::prelude::*;
use vstd::string::StringExecFns;

pub mod dirent_type;

verus! {

/// Envelope of a server-side failure: `{"RemoteException": {...}}`.
#[derive(Debug)]
pub struct RemoteExceptionResponse {
    pub remote_exception: RemoteException,
}

/// A failure reported by the server.
#[derive(Debug)]
pub struct RemoteException {
    pub exception: String,
    pub java_class_name: String,
    pub message: String,
}

impl RemoteException {
    /// The text of `to_string`.
    pub open spec fn render(self) -> Seq<char> {
        "RemoteException[exception="@ + self.exception@ + ", java_class_name="@
            + self.java_class_name@ + ", msg='"@ + self.message@ + "']"@
    }

    /// `RemoteException[exception=.., java_class_name=.., msg='..']`.
    pub fn to_string(&self) -> (r: String)
        ensures
            r@ == self.render(),
    {
        let mut s = String::from_str("RemoteException[exception=");
        s.append(self.exception.as_str());
        s.append(", java_class_name=");
        s.append(self.java_class_name.as_str());
        s.append(", msg='");
        s.append(self.message.as_str());
        s.append("']");
        s
    }

    /// A copy with the same three texts.
    pub fn duplicate(&self) -> (r: RemoteException)
        ensures
            r == *self,
    {
        RemoteException {
            exception: self.exception.clone(),
            java_class_name: self.java_class_name.clone(),
            message: self.message.clone(),
        }
    }
}

/// Answer to `LISTSTATUS`.
#[derive(Debug)]
pub struct ListStatusResponse {
    pub file_statuses: FileStatuses,
}

#[derive(Debug)]
pub struct FileStatuses {
    pub file_status: Vec<FileStatus>,
}

/// Status of one file, directory or link.
#[derive(Debug)]
pub struct FileStatus {
    pub access_time: i64,
    pub block_size: i64,
    pub group: String,
    pub length: i64,
    pub modification_time: i64,
    pub owner: String,
    pub path_suffix: String,
    pub permission: String,
    pub replication: i32,
    pub type_: String,
}

/// Answer to `GETFILESTATUS`.
#[derive(Debug)]
pub struct FileStatusResponse {
    pub file_status: FileStatus,
}

/// Answer to `MKDIRS`, `DELETE` and `RENAME`.
#[derive(Debug)]
pub struct Boolean {
    pub boolean: bool,
}

} // verus!
