//! Path operations of the standard library, as the scan logic uses them.
//!
//! Paths are handled as UTF-8 strings; each function here makes one call of
//! `std::path::Path` and converts its result to a string.  What such a call
//! returns follows the path conventions of the compilation target.
use vstd::prelude::*;

verus! {

/// What `std::path::Path::extension` returns for the path `path`.
pub uninterp spec fn extension_of(path: Seq<char>) -> Option<Seq<char>>;

/// What `std::path::Path::file_name` returns for the path `path`.
pub uninterp spec fn file_name_of(path: Seq<char>) -> Option<Seq<char>>;

/// What `std::path::Path::with_file_name` returns for the path `path` and
/// the file name `name`.
pub uninterp spec fn with_file_name_of(path: Seq<char>, name: Seq<char>) -> Seq<char>;

/// What comparing the paths `a` and `b` with `==` (`std::path::Path`'s
/// `PartialEq`, which compares components) gives.
pub uninterp spec fn same_path(a: Seq<char>, b: Seq<char>) -> bool;

/// Calls `std::path::Path`'s `==` on `a` and `b`: whether the two paths have
/// the same components.  The contract names the result and states that
/// identical texts are equal paths (they have the same components).
#[verifier::external_body]
pub(crate) fn paths_equal(a: &str, b: &str) -> (r: bool)
    ensures
        r == same_path(a@, b@),
        a@ == b@ ==> r,
{
    std::path::Path::new(a) == std::path::Path::new(b)
}

/// Calls `std::path::Path::extension` on `path`: the extension of the file
/// name, without the leading dot.  The contract only names the result; the
/// extension is valid UTF-8 because `path` is.
#[verifier::external_body]
pub(crate) fn path_extension(path: &str) -> (r: Option<&str>)
    ensures
        match r {
            Some(e) => extension_of(path@) == Some(e@),
            None => extension_of(path@) is None,
        },
{
    match std::path::Path::new(path).extension() {
        Some(e) => e.to_str(),
        None => None,
    }
}

/// Calls `std::path::Path::file_name` on `path`: the final component of the
/// path, if there is one.  The contract only names the result.
#[verifier::external_body]
pub(crate) fn path_file_name(path: &str) -> (r: Option<&str>)
    ensures
        match r {
            Some(n) => file_name_of(path@) == Some(n@),
            None => file_name_of(path@) is None,
        },
{
    match std::path::Path::new(path).file_name() {
        Some(n) => n.to_str(),
        None => None,
    }
}

/// Calls `std::path::Path::with_file_name`: `path` with its final component
/// replaced by `name`.  The contract only names the result.
#[verifier::external_body]
pub(crate) fn path_with_file_name(path: &str, name: &str) -> (r: String)
    ensures
        r@ == with_file_name_of(path@, name@),
{
    std::path::Path::new(path).with_file_name(name).to_string_lossy().into_owned()
}

} // verus!
