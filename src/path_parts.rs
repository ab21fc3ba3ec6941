use vstd::prelude::*;
use vstd::string::StringExecFns;

verus! {

/// The directory that holds what `path` names, as `Path::parent` gives it.
pub uninterp spec fn parent_of(path: Seq<char>) -> Option<Seq<char>>;

/// The last component of `path` without its extension, as `Path::file_stem` gives it.
pub uninterp spec fn stem_of(path: Seq<char>) -> Option<Seq<char>>;

/// The extension of the last component of `path`, without its dot, as
/// `Path::extension` gives it.
pub uninterp spec fn extension_of(path: Seq<char>) -> Option<Seq<char>>;

pub open spec fn string_opt_view(o: Option<String>) -> Option<Seq<char>> {
    match o {
        Some(s) => Some(s@),
        None => None,
    }
}

/// The prefix and suffix a tempfile is given so that its name is exactly the
/// stem followed by the dotted extension: a missing stem is an empty prefix, a
/// missing extension an empty suffix.
pub open spec fn name_parts_of(stem: Option<Seq<char>>, ext: Option<Seq<char>>) -> (Seq<char>, Seq<char>) {
    (
        match stem {
            Some(s) => s,
            None => Seq::empty(),
        },
        match ext {
            Some(e) => seq!['.'] + e,
            None => Seq::empty(),
        },
    )
}

/// Relies on `std::path::Path::parent`.
#[verifier::external_body]
pub(crate) fn path_parent(path: &str) -> (r: Option<String>)
    ensures
        string_opt_view(r) == parent_of(path@),
{
    match std::path::Path::new(path).parent() {
        Some(p) => Some(p.to_string_lossy().into_owned()),
        None => None,
    }
}

/// Relies on `std::path::Path::file_stem`.
#[verifier::external_body]
fn path_file_stem(path: &str) -> (r: Option<String>)
    ensures
        string_opt_view(r) == stem_of(path@),
{
    match std::path::Path::new(path).file_stem() {
        Some(s) => Some(s.to_string_lossy().into_owned()),
        None => None,
    }
}

/// Relies on `std::path::Path::extension`.
#[verifier::external_body]
fn path_extension(path: &str) -> (r: Option<String>)
    ensures
        string_opt_view(r) == extension_of(path@),
{
    match std::path::Path::new(path).extension() {
        Some(e) => Some(e.to_string_lossy().into_owned()),
        None => None,
    }
}

/// The prefix and suffix that make a tempfile's name exactly `stem` followed by
/// `.` and `ext`, leaving out what is absent.
pub fn file_name_parts(stem: Option<String>, ext: Option<String>) -> (r: (String, String))
    ensures
        (r.0@, r.1@) == name_parts_of(string_opt_view(stem), string_opt_view(ext)),
{
    let prefix = match stem {
        Some(s) => s,
        None => String::new(),
    };
    let suffix = match ext {
        Some(e) => {
            proof {
                reveal_strlit(".");
            }
            let dot: String = ".".to_owned();
            let dotted = dot.concat(e.as_str());
            assert(dotted@ == seq!['.'] + e@);
            dotted
        },
        None => String::new(),
    };
    (prefix, suffix)
}

/// The prefix and suffix under which a tempfile at `path` keeps the file name
/// that `path` ends in.
pub fn path_name_parts(path: &str) -> (r: (String, String))
    ensures
        (r.0@, r.1@) == name_parts_of(stem_of(path@), extension_of(path@)),
{
    file_name_parts(path_file_stem(path), path_extension(path))
}

} // verus!
