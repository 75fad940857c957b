//! Paths as text, joined the way a Unix path buffer joins them.

use vstd::prelude::*;

verus! {

/// `dir` followed by `name`: a separator is put between them unless `dir` is
/// empty or already ends in one; an absolute `name` replaces `dir`.
pub open spec fn joined(dir: Seq<char>, name: Seq<char>) -> Seq<char> {
    if name.len() > 0 && name[0] == '/' {
        name
    } else if dir.len() == 0 || dir.last() == '/' {
        dir + name
    } else {
        dir.push('/') + name
    }
}

/// Joins `name` onto `dir`.
pub fn join(dir: &str, name: &str) -> (r: String)
    ensures
        r@ == joined(dir@, name@),
{
    let nl = name.unicode_len();
    if nl > 0 && name.get_char(0) == '/' {
        return name.to_owned();
    }
    let dl = dir.unicode_len();
    let mut out = dir.to_owned();
    if dl > 0 && dir.get_char(dl - 1) != '/' {
        out.push('/');
    }
    out.append(name);
    out
}

/// The path with the extension of its last component replaced by `ext`.
pub uninterp spec fn with_extension_of(path: Seq<char>, ext: Seq<char>) -> Seq<char>;

/// The path with its last component replaced by `name`.
pub uninterp spec fn with_file_name_of(path: Seq<char>, name: Seq<char>) -> Seq<char>;

/// Whether a text holds no path separator.
pub open spec fn has_no_separator(text: Seq<char>) -> bool {
    forall|i: int| 0 <= i < text.len() ==> text[i] != '/' && text[i] != '\\'
}

/// Relies on `std::path::Path::with_extension`, which panics on an extension
/// that holds a path separator; a path made from a `str` converts back
/// losslessly.
#[verifier::external_body]
pub fn with_extension(path: &str, ext: &str) -> (r: String)
    requires
        has_no_separator(ext@),
    ensures
        r@ == with_extension_of(path@, ext@),
{
    std::path::Path::new(path).with_extension(ext).to_string_lossy().into_owned()
}

/// Relies on `std::path::Path::with_file_name`; a path made from a `str`
/// converts back losslessly.
#[verifier::external_body]
pub fn with_file_name(path: &str, name: &str) -> (r: String)
    ensures
        r@ == with_file_name_of(path@, name@),
{
    std::path::Path::new(path).with_file_name(name).to_string_lossy().into_owned()
}

} // verus!
