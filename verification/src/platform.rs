//! The two families of operating system the supervisor tells apart.

use vstd::prelude::*;

verus! {

/// The operating system family that the application runs on.
#[derive(Clone, Copy, Debug, PartialEq, Eq, Structural)]
pub enum Platform {
    /// Windows: executables end in `.exe`, directories are joined by `\`.
    Windows,
    /// Every other system: no suffix, directories are joined by `/`.
    Other,
}

/// The character that this platform puts between a directory and an entry.
pub open spec fn separator(platform: Platform) -> char {
    match platform {
        Platform::Windows => '\\',
        Platform::Other => '/',
    }
}

/// Whether `c` ends a path component on this platform.
pub open spec fn is_separator(c: char, platform: Platform) -> bool {
    c == '/' || (platform == Platform::Windows && c == '\\')
}

/// The name of the backend executable on this platform.
pub open spec fn backend_file_name(platform: Platform) -> Seq<char> {
    match platform {
        Platform::Windows => "backend.exe"@,
        Platform::Other => "backend"@,
    }
}

impl Platform {
    /// The platform for a target operating system name as Rust spells it
    /// (`"windows"`, `"linux"`, `"macos"`, ...).
    pub fn for_target_os(name: &str) -> (platform: Platform)
        ensures
            platform == (if name@ == "windows"@ {
                Platform::Windows
            } else {
                Platform::Other
            }),
    {
        if same_text(name, "windows") {
            Platform::Windows
        } else {
            Platform::Other
        }
    }

    /// Executable form of [`separator`], as a one-character string.
    pub fn separator_str(self) -> (s: &'static str)
        ensures
            s@ == seq![separator(self)],
    {
        match self {
            Platform::Windows => {
                proof {
                    reveal_strlit("\\");
                }
                assert("\\"@ =~= seq!['\\']);
                "\\"
            },
            Platform::Other => {
                proof {
                    reveal_strlit("/");
                }
                assert("/"@ =~= seq!['/']);
                "/"
            },
        }
    }

    /// Executable form of [`is_separator`].
    pub fn is_separator(self, c: char) -> (b: bool)
        ensures
            b == is_separator(c, self),
    {
        c == '/' || (self == Platform::Windows && c == '\\')
    }

    /// Executable form of [`backend_file_name`].
    pub fn backend_file_name(self) -> (name: &'static str)
        ensures
            name@ == backend_file_name(self),
    {
        match self {
            Platform::Windows => "backend.exe",
            Platform::Other => "backend",
        }
    }
}

/// Whether two strings hold the same characters.
fn same_text(a: &str, b: &str) -> (same: bool)
    ensures
        same == (a@ == b@),
{
    let n: usize = a.unicode_len();
    if n != b.unicode_len() {
        return false;
    }
    let mut i: usize = 0;
    while i < n
        invariant
            n == a@.len(),
            n == b@.len(),
            i <= n,
            a@.take(i as int) == b@.take(i as int),
        decreases n - i,
    {
        if a.get_char(i) != b.get_char(i) {
            return false;
        }
        assert(a@.take(i + 1) == a@.take(i as int).push(a@[i as int]));
        assert(b@.take(i + 1) == b@.take(i as int).push(b@[i as int]));
        i += 1;
    }
    assert(a@ == a@.take(n as int));
    assert(b@ == b@.take(n as int));
    true
}

} // verus!
