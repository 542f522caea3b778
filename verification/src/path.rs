//! Where the backend executable lies: in the `resources` directory beside
//! the running executable.
//!
//! Paths are text. A path is a run of components parted by separators; which
//! characters separate depends on the [`Platform`].

use crate::error::PathFailure;
use crate::platform::{backend_file_name, is_separator, separator, Platform};
use vstd::prelude::*;

verus! {

/// The length of `path` without the separators at its end.
pub open spec fn trimmed_len(path: Seq<char>, platform: Platform) -> nat
    decreases path.len(),
{
    if path.len() > 0 && is_separator(path.last(), platform) {
        trimmed_len(path.drop_last(), platform)
    } else {
        path.len()
    }
}

/// The length of `path` without the component at its end: what is left is
/// empty or ends in a separator.
pub open spec fn stem_len(path: Seq<char>, platform: Platform) -> nat
    decreases path.len(),
{
    if path.len() > 0 && !is_separator(path.last(), platform) {
        stem_len(path.drop_last(), platform)
    } else {
        path.len()
    }
}

/// The directory that holds `path`.
///
/// Separators at the end of `path` do not count. If nothing is left, `path`
/// names no entry and has no parent. Otherwise the parent is what precedes
/// the last component, without the separators between the two; where only
/// separators precede it, the parent is the root, written as the first of
/// them; where nothing precedes it, the parent is the empty path.
pub open spec fn parent_of(path: Seq<char>, platform: Platform) -> Option<Seq<char>> {
    let body = path.take(trimmed_len(path, platform) as int);
    if body.len() == 0 {
        None
    } else {
        let stem = body.take(stem_len(body, platform) as int);
        let dir = stem.take(trimmed_len(stem, platform) as int);
        if stem.len() > 0 && dir.len() == 0 {
            Some(stem.take(1))
        } else {
            Some(dir)
        }
    }
}

/// The path of the entry `name` in the directory `dir`: the two with one
/// separator between them, unless `dir` is empty or brings its own.
pub open spec fn joined(dir: Seq<char>, name: Seq<char>, platform: Platform) -> Seq<char> {
    if dir.len() == 0 || is_separator(dir.last(), platform) {
        dir + name
    } else {
        dir.push(separator(platform)) + name
    }
}

/// The path of the backend executable of an application installed in `dir`.
pub open spec fn backend_path_in(dir: Seq<char>, platform: Platform) -> Seq<char> {
    joined(joined(dir, "resources"@, platform), backend_file_name(platform), platform)
}

/// The path of the backend executable, from what the system said of the
/// running executable: its path, or why it has none to give.
pub open spec fn resolved(located: Result<String, String>, platform: Platform) -> Result<
    Seq<char>,
    PathFailure,
> {
    match located {
        Err(cause) => Err(PathFailure::ExecutableUnknown(cause)),
        Ok(exe) => match parent_of(exe@, platform) {
            None => Err(PathFailure::NoParentDirectory),
            Some(dir) => Ok(backend_path_in(dir, platform)),
        },
    }
}

/// A component at the end of a path does not count towards its stem.
proof fn lemma_stem_skips_component(front: Seq<char>, name: Seq<char>, platform: Platform)
    requires
        forall|i: int| 0 <= i < name.len() ==> !is_separator(name[i], platform),
    ensures
        stem_len(front + name, platform) == stem_len(front, platform),
    decreases name.len(),
{
    if name.len() == 0 {
        assert(front + name == front);
    } else {
        assert((front + name).drop_last() == front + name.drop_last());
        lemma_stem_skips_component(front, name.drop_last(), platform);
    }
}

/// The parent of an entry of a directory is that directory: for a `dir`
/// that is not empty and does not end in a separator, and a `name` of one
/// component.
pub proof fn lemma_parent_of_entry(dir: Seq<char>, name: Seq<char>, platform: Platform)
    requires
        dir.len() > 0,
        !is_separator(dir.last(), platform),
        name.len() > 0,
        forall|i: int| 0 <= i < name.len() ==> !is_separator(name[i], platform),
    ensures
        parent_of(joined(dir, name, platform), platform) == Some(dir),
{
    let stem = dir.push(separator(platform));
    let path = stem + name;
    // The path ends in the name, so nothing is trimmed from it.
    assert(path.last() == name.last());
    assert(path.take(path.len() as int) == path);
    // Its stem is the directory and the separator after it.
    lemma_stem_skips_component(stem, name, platform);
    assert(path.take(stem.len() as int) == stem);
    // Trimmed, that is the directory.
    assert(stem.drop_last() == dir);
    assert(trimmed_len(dir, platform) == dir.len());
    assert(stem.take(dir.len() as int) == dir);
}

/// The backend executable lies in `resources` under the install directory,
/// as `backend` or, on Windows, as `backend.exe`. For an install directory
/// that is written without a separator at its end, the path is the
/// directory followed by `/resources/backend`, on Windows by
/// `\resources\backend.exe`.
pub proof fn lemma_backend_path_layout(dir: Seq<char>, platform: Platform)
    ensures
        backend_path_in(dir, Platform::Other) == joined(dir, "resources"@, Platform::Other)
            + "/backend"@,
        backend_path_in(dir, Platform::Windows) == joined(dir, "resources"@, Platform::Windows)
            + "\\backend.exe"@,
        dir.len() > 0 && !is_separator(dir.last(), platform) ==> backend_path_in(dir, platform)
            == dir + (match platform {
            Platform::Other => "/resources/backend"@,
            Platform::Windows => "\\resources\\backend.exe"@,
        }),
{
    reveal_strlit("resources");
    reveal_strlit("backend");
    reveal_strlit("backend.exe");
    reveal_strlit("/backend");
    reveal_strlit("\\backend.exe");
    reveal_strlit("/resources/backend");
    reveal_strlit("\\resources\\backend.exe");
    assert(backend_path_in(dir, Platform::Other) =~= joined(dir, "resources"@, Platform::Other)
        + "/backend"@);
    assert(backend_path_in(dir, Platform::Windows) =~= joined(
        dir,
        "resources"@,
        Platform::Windows,
    ) + "\\backend.exe"@);
    if dir.len() > 0 && !is_separator(dir.last(), platform) {
        match platform {
            Platform::Other => {
                assert(backend_path_in(dir, platform) =~= dir + "/resources/backend"@);
            },
            Platform::Windows => {
                assert(backend_path_in(dir, platform) =~= dir + "\\resources\\backend.exe"@);
            },
        }
    }
}

/// Given where the running executable is, the backend lies beside it in
/// `resources`: for an executable `name` in a directory `dir` written
/// without a separator at its end, at `dir/resources/backend`, on Windows
/// at `dir\resources\backend.exe`.
pub proof fn lemma_backend_beside_executable(
    exe: String,
    dir: Seq<char>,
    name: Seq<char>,
    platform: Platform,
)
    requires
        exe@ == joined(dir, name, platform),
        dir.len() > 0,
        !is_separator(dir.last(), platform),
        name.len() > 0,
        forall|i: int| 0 <= i < name.len() ==> !is_separator(name[i], platform),
    ensures
        resolved(Ok(exe), platform) == Ok::<Seq<char>, PathFailure>(
            dir + (match platform {
                Platform::Other => "/resources/backend"@,
                Platform::Windows => "\\resources\\backend.exe"@,
            }),
        ),
{
    lemma_parent_of_entry(dir, name, platform);
    lemma_backend_path_layout(dir, platform);
}

/// `trimmed_len` of the first `end` characters of `path`.
fn trim_end(path: &str, end: usize, platform: Platform) -> (len: usize)
    requires
        end <= path@.len(),
    ensures
        len == trimmed_len(path@.take(end as int), platform),
        len <= end,
{
    let mut len: usize = end;
    while len > 0 && platform.is_separator(path.get_char(len - 1))
        invariant
            len <= end <= path@.len(),
            trimmed_len(path@.take(end as int), platform) == trimmed_len(
                path@.take(len as int),
                platform,
            ),
        decreases len,
    {
        assert(path@.take(len as int).drop_last() == path@.take(len - 1));
        len -= 1;
    }
    len
}

/// `stem_len` of the first `end` characters of `path`.
fn stem_end(path: &str, end: usize, platform: Platform) -> (len: usize)
    requires
        end <= path@.len(),
    ensures
        len == stem_len(path@.take(end as int), platform),
        len <= end,
{
    let mut len: usize = end;
    while len > 0 && !platform.is_separator(path.get_char(len - 1))
        invariant
            len <= end <= path@.len(),
            stem_len(path@.take(end as int), platform) == stem_len(
                path@.take(len as int),
                platform,
            ),
        decreases len,
    {
        assert(path@.take(len as int).drop_last() == path@.take(len - 1));
        len -= 1;
    }
    len
}

/// The directory that holds `path`, if `path` names an entry.
pub fn parent_dir(path: &str, platform: Platform) -> (dir: Option<String>)
    ensures
        match parent_of(path@, platform) {
            Some(d) => dir matches Some(s) && s@ == d,
            None => dir is None,
        },
{
    let n: usize = path.unicode_len();
    assert(path@.take(n as int) == path@);
    let body: usize = trim_end(path, n, platform);
    if body == 0 {
        return None;
    }
    let stem: usize = stem_end(path, body, platform);
    assert(path@.take(body as int).take(stem as int) == path@.take(stem as int));
    let kept: usize = trim_end(path, stem, platform);
    assert(path@.take(stem as int).take(kept as int) == path@.take(kept as int));
    if stem > 0 && kept == 0 {
        assert(path@.take(stem as int).take(1) == path@.subrange(0, 1));
        Some(path.substring_char(0, 1).to_owned())
    } else {
        assert(path@.take(kept as int) == path@.subrange(0, kept as int));
        Some(path.substring_char(0, kept).to_owned())
    }
}

/// The path of the entry `name` in the directory `dir`.
pub fn join(dir: &str, name: &str, platform: Platform) -> (path: String)
    ensures
        path@ == joined(dir@, name@, platform),
{
    let n: usize = dir.unicode_len();
    let mut path = dir.to_owned();
    if n > 0 && !platform.is_separator(dir.get_char(n - 1)) {
        path.append(platform.separator_str());
        assert(path@ == dir@.push(separator(platform)));
    }
    path.append(name);
    path
}

/// The path of the backend executable of an application installed in `dir`:
/// `resources`, then the platform's name for the executable.
pub fn backend_path(dir: &str, platform: Platform) -> (path: String)
    ensures
        path@ == backend_path_in(dir@, platform),
{
    let resources = join(dir, "resources", platform);
    join(resources.as_str(), platform.backend_file_name(), platform)
}

/// Locates the backend executable from what the system said of the running
/// executable. Fails where the system had no path to give, and where the
/// path it gave has no parent directory.
pub fn resolve_backend_path(located: Result<String, String>, platform: Platform) -> (found: Result<
    String,
    PathFailure,
>)
    ensures
        match resolved(located, platform) {
            Ok(path) => found matches Ok(p) && p@ == path,
            Err(failure) => found == Err::<String, PathFailure>(failure),
        },
{
    match located {
        Err(cause) => Err(PathFailure::ExecutableUnknown(cause)),
        Ok(exe) => match parent_dir(exe.as_str(), platform) {
            None => Err(PathFailure::NoParentDirectory),
            Some(dir) => Ok(backend_path(dir.as_str(), platform)),
        },
    }
}

} // verus!
