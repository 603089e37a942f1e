//! The request/response protocol between the command line tool and the
//! service, and where the service's socket lives.

use vstd::prelude::*;

use vstd::slice::slice_to_vec;
use vstd::string::StringSliceAdditionalSpecFns;

use crate::text::{join_path, path_join, SEPARATOR};

verus! {

/// What a client asks of the service.
#[derive(Debug, Clone, Copy, PartialEq, Eq, Structural)]
pub enum Request {
    Enable,
    Disable,
    Toggle,
    Status,
    SetBrightness { value: u8 },
}

/// What the service answers: a message, the service state after the
/// request, the backend's name, and whether the client should show the
/// state.
#[derive(Debug, Clone)]
pub struct Response {
    pub message: String,
    pub enabled: bool,
    pub brightness: u8,
    pub backend: String,
    pub show_state: bool,
}

/// The socket's file name inside the runtime directory.
pub const SOCKET_FILE_NAME: &'static str = "nitora.sock";

/// The socket path used when neither `NITORA_SOCKET` nor a runtime
/// directory is available.
pub const DEFAULT_SOCKET_PATH: &'static str = "/tmp/nitora.sock";

/// The socket path (as the raw bytes of its name): `NITORA_SOCKET` when
/// set, else `nitora.sock` inside the user's runtime directory when there
/// is one, else `/tmp/nitora.sock`.
pub open spec fn socket_path_from(env_override: Option<Seq<u8>>, runtime_dir: Option<Seq<u8>>) -> Seq<u8> {
    match env_override {
        Some(p) => p,
        None => match runtime_dir {
            Some(d) => path_join(d, SOCKET_FILE_NAME.spec_bytes()),
            None => DEFAULT_SOCKET_PATH.spec_bytes(),
        },
    }
}

/// The view of an optional byte string.
pub open spec fn opt_bytes(s: Option<Vec<u8>>) -> Option<Seq<u8>> {
    match s {
        Some(t) => Some(t@),
        None => None,
    }
}

/// Chooses the socket path from the value of `NITORA_SOCKET` (if set) and
/// the user's runtime directory (if any), all as raw path bytes.
pub fn resolve_socket_path(env_override: Option<Vec<u8>>, runtime_dir: Option<Vec<u8>>) -> (path: Vec<u8>)
    ensures
        path@ == socket_path_from(opt_bytes(env_override), opt_bytes(runtime_dir)),
{
    match env_override {
        Some(p) => p,
        None => match runtime_dir {
            Some(d) => join_path(d.as_slice(), SOCKET_FILE_NAME.as_bytes()),
            None => slice_to_vec(DEFAULT_SOCKET_PATH.as_bytes()),
        },
    }
}

/// The user's runtime directory (`dirs::runtime_dir`), as the bytes of
/// its path. On Linux the crate returns `$XDG_RUNTIME_DIR` only when it is
/// an absolute path; on macOS and Windows it returns `None`. The bytes are
/// `OsString::into_encoded_bytes`, whose encoding std documents as a
/// superset of 7-bit ASCII, so a returned path starts with the byte `/`.
/// Which directory it is depends on the environment and is not stated.
#[verifier::external_body]
fn runtime_dir() -> (dir: Option<Vec<u8>>)
    ensures
        dir matches Some(d) ==> d@.len() > 0 && d@[0] == SEPARATOR,
{
    dirs::runtime_dir().map(|p| p.into_os_string().into_encoded_bytes())
}

/// The service socket path, given the raw value of `NITORA_SOCKET` if it
/// is set. Without it, the path is `nitora.sock` in some absolute runtime
/// directory, or `/tmp/nitora.sock`.
pub fn socket_path(env_override: Option<Vec<u8>>) -> (path: Vec<u8>)
    ensures
        env_override matches Some(p) ==> path@ == p@,
        env_override is None ==> (path@ == DEFAULT_SOCKET_PATH.spec_bytes() || exists|dir: Seq<u8>|
            dir.len() > 0 && dir[0] == SEPARATOR && path@ == #[trigger] path_join(
                dir,
                SOCKET_FILE_NAME.spec_bytes(),
            )),
{
    match env_override {
        Some(p) => p,
        None => {
            let dir = runtime_dir();
            resolve_socket_path(None, dir)
        },
    }
}

} // verus!
