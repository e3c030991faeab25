//! Network addresses and file-system paths as the commands carry them.
//! Paths are held as their text.

use vstd::prelude::*;

verus! {

/// An IP address, version 4 or 6, by its octets or segments.
#[derive(Clone, Copy, Debug, PartialEq, Eq, Structural)]
pub enum IpAddress {
    V4(u8, u8, u8, u8),
    V6(u16, u16, u16, u16, u16, u16, u16, u16),
}

/// A socket address: an IP address and a port.
#[derive(Clone, Copy, Debug, PartialEq, Eq, Structural)]
pub struct SocketAddress {
    pub ip: IpAddress,
    pub port: u16,
}

/// What `Path::parent` returns for the path with this text: the path
/// without its final component, or `None` for a root or empty path.
pub uninterp spec fn path_parent(path: Seq<char>) -> Option<Seq<char>>;

/// What `{:?}` renders for the path with this text.
pub uninterp spec fn path_debug_text(path: Seq<char>) -> Seq<char>;

/// Calls `Path::exists`, which asks the file system whether the path names
/// an existing file or directory. The answer depends on the file system at
/// the time of the call, so nothing is stated of it.
#[verifier::external_body]
pub(crate) fn path_exists(path: &str) -> bool {
    std::path::Path::new(path).exists()
}

/// Calls `Path::parent`; its result is named `path_parent`. The parent of
/// a path given as text is a prefix of that text, so it is text too.
#[verifier::external_body]
pub(crate) fn parent_of(path: &str) -> (r: Option<String>)
    ensures
        r matches Some(p) ==> path_parent(path@) == Some(p@),
        r is None ==> path_parent(path@) is None,
{
    match std::path::Path::new(path).parent() {
        Some(p) => Some(p.to_string_lossy().into_owned()),
        None => None,
    }
}

/// Renders the path with `{:?}`; the text is named `path_debug_text`.
#[verifier::external_body]
pub(crate) fn path_debug(path: &str) -> (r: String)
    ensures
        r@ == path_debug_text(path@),
{
    format!("{:?}", std::path::Path::new(path))
}

} // verus!
