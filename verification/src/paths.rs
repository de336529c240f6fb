//! Asset path conventions of the editor.
//!
//! Assets live under the asset root in a `ref/` folder, named after the
//! prefab that owns them. Paths handed around the editor are
//! slash-separated and relative to the asset root.

use vstd::prelude::*;

use crate::text::last_index_of;

verus! {

/// The index of the last occurrence of `c` in `s`, or -1 when `s` does
/// not hold `c`.
pub open spec fn last_pos(s: Seq<char>, c: char) -> int
    decreases s.len(),
{
    if s.len() == 0 {
        -1
    } else if s.last() == c {
        s.len() - 1
    } else {
        last_pos(s.drop_last(), c)
    }
}

pub proof fn lemma_last_pos(s: Seq<char>, c: char)
    ensures
        -1 <= last_pos(s, c) < s.len(),
        last_pos(s, c) >= 0 ==> s[last_pos(s, c)] == c,
        forall|j: int| last_pos(s, c) < j < s.len() ==> s[j] != c,
    decreases s.len(),
{
    if s.len() > 0 && s.last() != c {
        lemma_last_pos(s.drop_last(), c);
        assert forall|j: int| last_pos(s, c) < j < s.len() implies s[j] != c by {
            if j < s.len() - 1 {
                assert(s.drop_last()[j] == s[j]);
            }
        }
    }
}

/// The final component of a slash-separated path: everything after the
/// last slash, or the whole path when there is none.
pub open spec fn file_name_spec(s: Seq<char>) -> Seq<char> {
    s.subrange(last_pos(s, '/') + 1, s.len() as int)
}

/// The stem of a file name: the part before the last dot, except that a
/// name whose only dot leads it (or that has no dot) is kept whole.
pub open spec fn stem_spec(f: Seq<char>) -> Seq<char> {
    if last_pos(f, '.') <= 0 {
        f
    } else {
        f.subrange(0, last_pos(f, '.'))
    }
}

/// The extension of a file name: the part after the last dot, absent when
/// there is no dot or the only dot leads the name.
pub open spec fn ext_spec(f: Seq<char>) -> Option<Seq<char>> {
    if last_pos(f, '.') <= 0 {
        None
    } else {
        Some(f.subrange(last_pos(f, '.') + 1, f.len() as int))
    }
}

/// The extension of a path's file name, with `png` standing in when the
/// name has none.
pub open spec fn ext_or_png_spec(s: Seq<char>) -> Seq<char> {
    match ext_spec(file_name_spec(s)) {
        Some(e) => e,
        None => "png"@,
    }
}

/// An asset path under the `ref/` folder: `ref/<name>.<ext>`.
pub open spec fn ref_asset_path_spec(name: Seq<char>, ext: Seq<char>) -> Seq<char> {
    "ref/"@ + name + "."@ + ext
}

/// A path's final component holds no slash of its own.
pub proof fn lemma_file_name_no_slash(s: Seq<char>)
    ensures
        forall|j: int|
            0 <= j < file_name_spec(s).len() ==> #[trigger] file_name_spec(s)[j] != '/',
{
    lemma_last_pos(s, '/');
    assert forall|j: int|
        0 <= j < file_name_spec(s).len() implies #[trigger] file_name_spec(s)[j] != '/' by {
        assert(file_name_spec(s)[j] == s[last_pos(s, '/') + 1 + j]);
    }
}

/// Stem and extension carve a file name in two: when the name has an
/// extension, stem, dot and extension rebuild it; otherwise the stem is
/// the whole name and there is no extension.
pub proof fn lemma_stem_ext_recompose(f: Seq<char>)
    ensures
        match ext_spec(f) {
            Some(e) => stem_spec(f) + seq!['.'] + e =~= f,
            None => stem_spec(f) == f,
        },
{
    lemma_last_pos(f, '.');
    if last_pos(f, '.') > 0 {
        assert(f[last_pos(f, '.')] == '.');
    }
}

/// Finds the last slash of a path, as `last_pos` sees it.
fn find_last_slash(path: &str) -> (r: Option<usize>)
    ensures
        r matches Some(p) ==> p == last_pos(path@, '/'),
        r is None ==> last_pos(path@, '/') == -1,
{
    proof {
        lemma_last_pos(path@, '/');
    }
    let r = last_index_of(path, '/');
    proof {
        let lp = last_pos(path@, '/');
        match r {
            Some(p) => {
                assert(lp >= 0) by {
                    if lp == -1 {
                        assert(path@[p as int] != '/');
                    }
                }
                assert(p == lp) by {
                    if p < lp {
                        assert(path@[lp] != '/');
                    } else if lp < p {
                        assert(path@[p as int] != '/');
                    }
                }
            },
            None => {
                if lp >= 0 {
                    assert(path@[lp] == '/');
                }
            },
        }
    }
    r
}

/// Finds the last dot of a file name, as `last_pos` sees it.
fn find_last_dot(f: &str) -> (r: Option<usize>)
    ensures
        r matches Some(p) ==> p == last_pos(f@, '.'),
        r is None ==> last_pos(f@, '.') == -1,
{
    proof {
        lemma_last_pos(f@, '.');
    }
    let r = last_index_of(f, '.');
    proof {
        let lp = last_pos(f@, '.');
        match r {
            Some(p) => {
                assert(lp >= 0) by {
                    if lp == -1 {
                        assert(f@[p as int] != '.');
                    }
                }
                assert(p == lp) by {
                    if p < lp {
                        assert(f@[lp] != '.');
                    } else if lp < p {
                        assert(f@[p as int] != '.');
                    }
                }
            },
            None => {
                if lp >= 0 {
                    assert(f@[lp] == '.');
                }
            },
        }
    }
    r
}

/// The final component of a slash-separated path.
pub fn file_name_part(path: &str) -> (r: String)
    ensures
        r@ == file_name_spec(path@),
{
    let len = path.unicode_len();
    proof {
        lemma_last_pos(path@, '/');
    }
    match find_last_slash(path) {
        Some(p) => String::from_str(path.substring_char(p + 1, len)),
        None => {
            proof {
                assert(file_name_spec(path@) =~= path@);
            }
            String::from_str(path)
        },
    }
}

/// The stem of a path's final component.
pub fn file_stem_part(path: &str) -> (r: String)
    ensures
        r@ == stem_spec(file_name_spec(path@)),
{
    let name = file_name_part(path);
    proof {
        lemma_last_pos(name@, '.');
    }
    match find_last_dot(name.as_str()) {
        Some(p) => {
            if p == 0 {
                name
            } else {
                String::from_str(name.as_str().substring_char(0, p))
            }
        },
        None => name,
    }
}

/// The extension of a path's final component, with `png` standing in when
/// it has none.
pub fn extension_or_png(path: &str) -> (r: String)
    ensures
        r@ == ext_or_png_spec(path@),
{
    let name = file_name_part(path);
    let name_len = name.as_str().unicode_len();
    proof {
        lemma_last_pos(name@, '.');
    }
    match find_last_dot(name.as_str()) {
        Some(p) => {
            if p == 0 {
                String::from_str("png")
            } else {
                String::from_str(name.as_str().substring_char(p + 1, name_len))
            }
        },
        None => String::from_str("png"),
    }
}

/// The `ref/<name>.<ext>` asset path.
pub fn ref_asset_path(name: &str, ext: &str) -> (r: String)
    ensures
        r@ == ref_asset_path_spec(name@, ext@),
{
    let mut r = String::from_str("ref/");
    r.append(name);
    r.append(".");
    r.append(ext);
    proof {
        assert(r@ =~= ref_asset_path_spec(name@, ext@));
    }
    r
}

/// Where a prefab's asset lands when copied or renamed to follow a new
/// prefab name: same extension (or `png` when the old path had none),
/// under `ref/`.
pub fn replaced_asset_path(old_path: &str, name: &str) -> (r: String)
    ensures
        r@ == ref_asset_path_spec(name@, ext_or_png_spec(old_path@)),
{
    let ext = extension_or_png(old_path);
    ref_asset_path(name, ext.as_str())
}

/// A prefab's image path: the stored one when present, else
/// `ref/<name>.png`.
pub fn get_image_path(name: &String, image: &Option<String>) -> (r: String)
    ensures
        match image {
            Some(p) => r@ == p@,
            None => r@ == ref_asset_path_spec(name@, "png"@),
        },
{
    match image {
        Some(p) => p.clone(),
        None => ref_asset_path(name.as_str(), "png"),
    }
}

/// A prefab's model path: the stored one when present, else
/// `ref/<name>.glb`.
pub fn get_model_path(name: &String, model: &Option<String>) -> (r: String)
    ensures
        match model {
            Some(p) => r@ == p@,
            None => r@ == ref_asset_path_spec(name@, "glb"@),
        },
{
    match model {
        Some(p) => p.clone(),
        None => ref_asset_path(name.as_str(), "glb"),
    }
}

/// Whether a path is absolute, that is, begins with a slash.
pub open spec fn is_absolute(s: Seq<char>) -> bool {
    s.len() > 0 && s[0] == '/'
}

/// Joins a relative path onto a base directory, as the host's path type
/// does for slash-separated paths: an absolute path replaces the base, and
/// a base with a trailing slash gains no second one.
pub open spec fn joined(base: Seq<char>, path: Seq<char>) -> Seq<char> {
    if is_absolute(path) {
        path
    } else if base.len() == 0 {
        path
    } else if base.last() == '/' {
        base + path
    } else {
        base + seq!['/'] + path
    }
}

/// Joins a relative path onto a base directory.
pub fn join_path(base: &str, path: &str) -> (r: String)
    ensures
        r@ == joined(base@, path@),
{
    let path_len = path.unicode_len();
    if path_len > 0 && path.get_char(0) == '/' {
        return String::from_str(path);
    }
    let base_len = base.unicode_len();
    if base_len == 0 {
        return String::from_str(path);
    }
    if base.get_char(base_len - 1) == '/' {
        let mut r = String::from_str(base);
        r.append(path);
        r
    } else {
        let mut r = String::from_str(base);
        r.append("/");
        r.append(path);
        proof {
            reveal_strlit("/");
            assert("/"@ =~= seq!['/']);
            assert(r@ =~= joined(base@, path@));
        }
        r
    }
}

/// A stored asset path, resolved against the on-disk asset folder.
pub fn under_assets(path: &str) -> (r: String)
    ensures
        r@ == joined("assets"@, path@),
{
    join_path("assets", path)
}

/// Where the editor's scene file lives under a given root directory.
pub fn config_file_path(root: &str) -> (r: String)
    ensures
        r@ == joined(root@, "assets/ref/config.ron"@),
{
    join_path(root, "assets/ref/config.ron")
}

} // verus!
