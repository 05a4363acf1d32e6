//! High-density ("retina") icons, told apart by a file stem ending in `@2x`.

use vstd::prelude::*;

verus! {

/// The file stem of a path: its final file name without the extension.
pub uninterp spec fn file_stem_of(path: Seq<char>) -> Option<Seq<char>>;

/// Relies on `Path::file_stem`: the stem of the path's final component,
/// which depends on the path's text alone.
#[verifier::external_body]
fn file_stem(path: &str) -> (r: Option<String>)
    ensures
        match r {
            Some(s) => file_stem_of(path@) == Some(s@),
            None => file_stem_of(path@) is None,
        },
{
    match std::path::Path::new(path).file_stem() {
        Some(stem) => stem.to_str().map(|s| s.to_string()),
        None => None,
    }
}

pub open spec fn ends_with(s: Seq<char>, suffix: Seq<char>) -> bool {
    s.len() >= suffix.len() && s.subrange(s.len() - suffix.len(), s.len() as int) == suffix
}

/// Whether a file stem marks a high-density icon.
pub fn stem_is_retina(stem: &str) -> (r: bool)
    ensures
        r == ends_with(stem@, "@2x"@),
{
    proof {
        reveal_strlit("@2x");
    }
    let n = stem.unicode_len();
    if n < 3 {
        return false;
    }
    let r = stem.get_char(n - 3) == '@' && stem.get_char(n - 2) == '2' && stem.get_char(n - 1) == 'x';
    proof {
        let tail = stem@.subrange(n - 3, n as int);
        let want = "@2x"@;
        assert(want.len() == 3 && want[0] == '@' && want[1] == '2' && want[2] == 'x');
        if r {
            assert(tail =~= want);
        } else {
            assert(tail[0] != want[0] || tail[1] != want[1] || tail[2] != want[2]);
        }
    }
    r
}

/// Whether the path names a high-density icon: its file stem ends in `@2x`.
/// A path without a file stem is no such icon.
pub fn is_retina(path: &str) -> (r: bool)
    ensures
        r == match file_stem_of(path@) {
            Some(stem) => ends_with(stem, "@2x"@),
            None => false,
        },
{
    match file_stem(path) {
        Some(stem) => stem_is_retina(stem.as_str()),
        None => false,
    }
}

} // verus!
