use vstd::prelude::*;

verus! {

// Paths are read by `std::path`. What it makes of a path is named here and
// assumed to depend on the path alone; nothing more is said of it.

/// The path without its last component, as `std::path` reads paths on the
/// platform that the library is built for; `None` for a root and for the
/// empty path.
pub uninterp spec fn parent_of(path: Seq<char>) -> Option<Seq<char>>;

/// The last component of the path, where it is a name; `None` where the
/// path ends in `..` or is a root.
pub uninterp spec fn file_name_of(path: Seq<char>) -> Option<Seq<char>>;

/// What follows the last dot of the path's file name, where there is such a part.
pub uninterp spec fn extension_of(path: Seq<char>) -> Option<Seq<char>>;

/// The path with the child appended; an absolute child replaces the path.
pub uninterp spec fn joined(path: Seq<char>, child: Seq<char>) -> Seq<char>;

/// Whether an optional text reads as the optional sequence does.
pub open spec fn reads_as(text: Option<String>, chars: Option<Seq<char>>) -> bool {
    match (text, chars) {
        (Some(t), Some(c)) => t@ == c,
        (None, None) => true,
        _ => false,
    }
}

/// `Path::parent`.
#[verifier::external_body]
pub(crate) fn path_parent(path: &str) -> (r: Option<String>)
    ensures
        reads_as(r, parent_of(path@)),
{
    match std::path::Path::new(path).parent() {
        Some(parent) => Some(parent.to_string_lossy().into_owned()),
        None => None,
    }
}

/// `Path::file_name`.
#[verifier::external_body]
pub(crate) fn path_file_name(path: &str) -> (r: Option<String>)
    ensures
        reads_as(r, file_name_of(path@)),
{
    match std::path::Path::new(path).file_name() {
        Some(name) => Some(name.to_string_lossy().into_owned()),
        None => None,
    }
}

/// `Path::extension`.
#[verifier::external_body]
pub(crate) fn path_extension(path: &str) -> (r: Option<String>)
    ensures
        reads_as(r, extension_of(path@)),
{
    match std::path::Path::new(path).extension() {
        Some(extension) => Some(extension.to_string_lossy().into_owned()),
        None => None,
    }
}

/// `Path::join`.
#[verifier::external_body]
pub(crate) fn path_join(path: &str, child: &str) -> (r: String)
    ensures
        r@ == joined(path@, child@),
{
    std::path::Path::new(path).join(child).to_string_lossy().into_owned()
}

} // verus!
