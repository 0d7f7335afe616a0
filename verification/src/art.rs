//! Where cover images are cached on disk.

use std::path::PathBuf;
use vstd::prelude::*;

use crate::models::CoverArtId;
use crate::text::join_str;

verus! {

#[verifier::external_type_specification]
#[verifier::external_body]
pub struct ExPathBuf(PathBuf);

/// The path that `dir.join(name)` gives.
pub uninterp spec fn joined_path(dir: PathBuf, name: Seq<char>) -> PathBuf;

/// `s` names one plain file: it is not empty, not `.` or `..`, and holds no
/// `/`, backslash or `:` (which could separate components or start a
/// prefix).
pub open spec fn plain_name(s: Seq<char>) -> bool {
    &&& s.len() > 0
    &&& !(s.len() == 1 && s[0] == '.')
    &&& !(s.len() == 2 && s[0] == '.' && s[1] == '.')
    &&& forall|i: int| 0 <= i < s.len() ==> s[i] != '/' && s[i] != '\\' && s[i] != ':'
}

/// `PathBuf::join` (through `Path::join`): `name` appended to `dir` as one
/// more component, or in its place when `name` is absolute. What the path
/// holds is left to the name [`joined_path`]; its result depends on its
/// arguments alone. Trusted beyond that: a plain file name becomes the last
/// component, and paths compare component by component, so two different
/// plain names joined to the same directory give different paths.
#[verifier::external_body]
fn join_path(dir: &PathBuf, name: &str) -> (r: PathBuf)
    ensures
        r == joined_path(*dir, name@),
        forall|other: Seq<char>|
            plain_name(name@) && plain_name(other) && other != name@ ==> #[trigger] joined_path(*dir, other) != r,
{
    dir.join(name)
}

/// The file name under which the cover `id` is cached.
pub open spec fn cover_file_text(id: CoverArtId) -> Seq<char> {
    id.0@ + ".png"@
}

/// `s` holds no `/`, backslash or `:`.
pub open spec fn separator_free(s: Seq<char>) -> bool {
    forall|i: int| 0 <= i < s.len() ==> s[i] != '/' && s[i] != '\\' && s[i] != ':'
}

proof fn lemma_cover_file_plain(id: Seq<char>)
    requires
        separator_free(id),
    ensures
        plain_name(id + ".png"@),
{
    reveal_strlit(".png");
    let s = id + ".png"@;
    assert(s.len() >= 4);
    assert forall|i: int| 0 <= i < s.len() implies s[i] != '/' && s[i] != '\\' && s[i] != ':' by {
        if i >= id.len() {
            assert(s[i] == ".png"@[i - id.len()]);
        }
    }
}

proof fn lemma_suffix_cancels(a: Seq<char>, b: Seq<char>, t: Seq<char>)
    requires
        a != b,
    ensures
        a + t != b + t,
{
    if a + t == b + t {
        assert((a + t).len() == a.len() + t.len());
        assert((b + t).len() == b.len() + t.len());
        assert(a.len() == b.len());
        assert forall|i: int| 0 <= i < a.len() implies a[i] == b[i] by {
            assert((a + t)[i] == (b + t)[i]);
        }
        assert(a =~= b);
    }
}

/// The file name under which a cover image is cached.
pub fn cover_file_name(id: &CoverArtId) -> (r: String)
    ensures
        r@ == cover_file_text(*id),
{
    join_str(id.0.as_str(), ".png")
}

/// A directory of cached cover images, one PNG file per cover.
pub struct ArtCache {
    dir: PathBuf,
}

impl ArtCache {
    /// A cache kept in `dir`, which the caller has found and created.
    pub fn in_dir(dir: PathBuf) -> (r: Self)
        ensures
            r.dir() == dir,
    {
        ArtCache { dir }
    }

    /// The directory of the cache.
    pub closed spec fn dir(&self) -> PathBuf {
        self.dir
    }

    /// The directory of the cache.
    pub fn directory(&self) -> (r: &PathBuf)
        ensures
            *r == self.dir(),
    {
        &self.dir
    }

    /// The file that holds (or will hold) the cover `id`. Covers whose ids
    /// differ and hold no separator get different files.
    pub fn get_path(&self, id: &CoverArtId) -> (r: PathBuf)
        ensures
            r == joined_path(self.dir(), cover_file_text(*id)),
            forall|other: CoverArtId|
                separator_free(id.0@) && separator_free(other.0@) && other.0@ != id.0@ ==> #[trigger] joined_path(
                    self.dir(),
                    cover_file_text(other),
                ) != r,
    {
        let name = cover_file_name(id);
        let r = join_path(&self.dir, name.as_str());
        proof {
            assert forall|other: CoverArtId|
                separator_free(id.0@) && separator_free(other.0@) && other.0@ != id.0@ implies #[trigger] joined_path(
                    self.dir(),
                    cover_file_text(other),
                ) != r by {
                lemma_cover_file_plain(id.0@);
                lemma_cover_file_plain(other.0@);
                lemma_suffix_cancels(id.0@, other.0@, ".png"@);
            }
        }
        r
    }
}

} // verus!
