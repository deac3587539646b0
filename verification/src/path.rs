//! File system paths as text, and the operations of `std::path` that the
//! library relies on. Nothing in this module touches the file system.
//!
//! The three operations are carried out by the standard library. Their
//! results are not derived here: each has a name in specifications, and the
//! contracts of the library speak of paths through those names.

use vstd::prelude::*;
use crate::text::text_of;

verus! {

/// The text of `base` with `path` adjoined, as `std::path::Path::join`
/// forms it on the platform the library is built for.
pub uninterp spec fn joined(base: Seq<char>, path: Seq<char>) -> Seq<char>;

/// The final component of `path`, as `std::path::Path::file_name` gives it,
/// or `None` where the path has none.
pub uninterp spec fn file_name_of(path: Seq<char>) -> Option<Seq<char>>;

/// The text of `path` with its extension set to `extension`, as
/// `std::path::Path::with_extension` forms it.
pub uninterp spec fn with_extension_of(path: Seq<char>, extension: Seq<char>) -> Seq<char>;

/// Whether `c` separates the components of a path on some platform.
pub open spec fn is_separator(c: char) -> bool {
    c == '/' || c == '\\'
}

/// Calls `std::path::Path::join`. Trusted: the result is the text that the
/// standard library forms, which [`joined`] names; nothing more is claimed
/// of it.
#[verifier::external_body]
pub(crate) fn join(base: &str, path: &str) -> (r: String)
    ensures
        r@ == joined(base@, path@),
{
    std::path::Path::new(base).join(path).to_string_lossy().into_owned()
}

/// Calls `std::path::Path::file_name`. Trusted: the result is the final
/// component that the standard library finds, which [`file_name_of`] names,
/// and `None` exactly where it finds none.
#[verifier::external_body]
pub(crate) fn file_name(path: &str) -> (r: Option<String>)
    ensures
        text_of(r) == file_name_of(path@),
{
    match std::path::Path::new(path).file_name() {
        Some(name) => Some(name.to_string_lossy().into_owned()),
        None => None,
    }
}

/// Calls `std::path::Path::with_extension`. Trusted: the result is the text
/// that the standard library forms, which [`with_extension_of`] names. The
/// standard library panics on an extension that holds a separator, so such
/// an extension is not accepted.
#[verifier::external_body]
pub(crate) fn with_extension(path: &str, extension: &str) -> (r: String)
    requires
        forall|i: int| 0 <= i < extension@.len() ==> !is_separator(#[trigger] extension@[i]),
    ensures
        r@ == with_extension_of(path@, extension@),
{
    std::path::Path::new(path).with_extension(extension).to_string_lossy().into_owned()
}

} // verus!
