//! File names derived from input paths.

use vstd::prelude::*;

verus! {

/// The stem (the final component without its extension) that
/// `std::path::Path::file_stem` finds in `path`, if any.
pub uninterp spec fn file_stem_of(path: Seq<char>) -> Option<Seq<char>>;

/// A stem: a non-empty piece of one path component, so without `/`.
pub open spec fn is_stem(s: Seq<char>) -> bool {
    s.len() > 0 && forall|i: int| 0 <= i < s.len() ==> #[trigger] s[i] != '/'
}

/// Relies on `std::path::Path::file_stem`: the stem, when there is one, is
/// taken from the final component (the file name, never empty) and is
/// either all of it or the non-empty part before its last dot. The stem of
/// a `str` path is valid UTF-8, so the lossy conversion keeps it as it is.
#[verifier::external_body]
fn file_stem(path: &str) -> (r: Option<String>)
    ensures
        match r {
            Some(s) => file_stem_of(path@) == Some(s@),
            None => file_stem_of(path@) == None::<Seq<char>>,
        },
        r matches Some(s) ==> is_stem(s@),
{
    std::path::Path::new(path).file_stem().map(|s| s.to_string_lossy().into_owned())
}

/// The stem of the input's file name, from which preview file names are
/// made; empty where the path has no file name.
pub fn generate_preview_path(epd_path: &str) -> (r: String)
    ensures
        r@ == match file_stem_of(epd_path@) {
            Some(s) => s,
            None => Seq::<char>::empty(),
        },
        forall|i: int| 0 <= i < r@.len() ==> #[trigger] r@[i] != '/',
{
    match file_stem(epd_path) {
        Some(s) => s,
        None => String::new(),
    }
}

} // verus!
