//! What only the machine and its path syntax can tell.
//!
//! Paths are taken apart by the standard library, under the path syntax of
//! the platform that the library is built for. What it answers is given a
//! name here, so that contracts can speak of it; nothing is claimed of the
//! answers but that the same path always gets the same one.

use vstd::prelude::*;

verus! {

/// The extension of the last component of `path`, without its dot, as
/// `std::path::Path::extension` finds it; `None` where there is none.
pub uninterp spec fn path_extension(path: Seq<char>) -> Option<Seq<char>>;

/// `path` without its last component, as `std::path::Path::parent` finds
/// it; `None` where the path ends in a root or is empty.
pub uninterp spec fn path_parent(path: Seq<char>) -> Option<Seq<char>>;

/// `path` with the extension of its last component replaced by
/// `extension`, as `std::path::Path::with_extension` does it.
pub uninterp spec fn path_with_extension(path: Seq<char>, extension: Seq<char>) -> Seq<char>;

/// The number of logical CPUs that this process may use, as
/// `num_cpus::get` reports it. That crate documents that the number is
/// never below one; nothing else is known of it, and two calls may differ.
#[verifier::external_body]
pub(crate) fn logical_cpus() -> (n: usize)
    ensures
        n >= 1,
{
    num_cpus::get()
}

/// Calls `std::path::Path::extension` on `path`. The contract only names
/// the answer.
#[verifier::external_body]
pub(crate) fn extension_of(path: &str) -> (r: Option<String>)
    ensures
        match r {
            Some(extension) => path_extension(path@) == Some(extension@),
            None => path_extension(path@) is None,
        },
{
    std::path::Path::new(path).extension().map(|e| e.to_string_lossy().into_owned())
}

/// Calls `std::path::Path::parent` on `path`. The contract only names the
/// answer.
#[verifier::external_body]
pub(crate) fn parent_of(path: &str) -> (r: Option<String>)
    ensures
        match r {
            Some(parent) => path_parent(path@) == Some(parent@),
            None => path_parent(path@) is None,
        },
{
    std::path::Path::new(path).parent().map(|p| p.to_string_lossy().into_owned())
}

/// Calls `std::path::Path::with_extension` on `path`. The standard library
/// panics on an extension that holds a path separator, so such an extension
/// is not admitted. The contract only names the answer.
#[verifier::external_body]
pub(crate) fn with_extension(path: &str, extension: &str) -> (r: String)
    requires
        !extension@.contains('/'),
        !extension@.contains('\\'),
    ensures
        r@ == path_with_extension(path@, extension@),
{
    std::path::Path::new(path).with_extension(extension).to_string_lossy().into_owned()
}

} // verus!
