//! The path resolver: builds the augmented search-path string handed
//! to every subprocess, so that tools installed by common package
//! managers are found even when the host process was launched with a
//! minimal search path.
//!
//! Pure string construction.  What only the file system knows — which
//! node-version directories exist under the version manager's tree on
//! the Apple platform — is passed in as a list of already-discovered
//! `bin` directories.

use vstd::prelude::*;

verus! {

/// The platform the host process runs on, as far as the resolver
/// cares: it selects the set of well-known extra directories.
#[derive(Clone, Copy, PartialEq, Eq, Structural)]
pub enum Platform {
    MacOs,
    Linux,
    Other,
}

/// The pieces joined with `:` separators.
pub open spec fn join_colon(parts: Seq<Seq<char>>) -> Seq<char>
    decreases parts.len(),
{
    if parts.len() == 0 {
        Seq::empty()
    } else if parts.len() == 1 {
        parts[0]
    } else {
        join_colon(parts.drop_last()) + ":"@ + parts.last()
    }
}

/// The well-known installation directories on the Apple platform, in
/// search order: package managers, TeX, the user's own bin
/// directories, and the global node module tree.
pub open spec fn macos_dirs(home: Seq<char>) -> Seq<Seq<char>> {
    seq![
        "/usr/local/bin"@,
        "/opt/homebrew/bin"@,
        "/opt/local/bin"@,
        "/Library/TeX/texbin"@,
        "/usr/texbin"@,
        home + "/bin"@,
        home + "/.local/bin"@,
        home + "/.cargo/bin"@,
        home + "/.npm-global/bin"@,
        home + "/node_modules/.bin"@,
        "/usr/local/lib/node_modules/.bin"@,
    ]
}

/// The well-known installation directories on Linux.
pub open spec fn linux_dirs(home: Seq<char>) -> Seq<Seq<char>> {
    seq![
        "/usr/local/bin"@,
        home + "/bin"@,
        home + "/.local/bin"@,
        home + "/.cargo/bin"@,
        "/usr/local/texlive/2024/bin/x86_64-linux"@,
        "/usr/local/texlive/2023/bin/x86_64-linux"@,
        home + "/.npm-global/bin"@,
        "/usr/local/lib/node_modules/.bin"@,
    ]
}

/// The augmented search path: the platform's extra directories (on the
/// Apple platform also every discovered node-version `bin` directory),
/// then the original path.  On other platforms the path is unchanged.
pub open spec fn spec_extended_path(
    platform: Platform,
    current_path: Seq<char>,
    home: Seq<char>,
    nvm_bins: Seq<Seq<char>>,
) -> Seq<char> {
    match platform {
        Platform::MacOs => join_colon(macos_dirs(home) + nvm_bins) + ":"@ + current_path,
        Platform::Linux => join_colon(linux_dirs(home)) + ":"@ + current_path,
        Platform::Other => current_path,
    }
}

fn home_join(home: &str, tail: &str) -> (r: String)
    ensures
        r@ == home@ + tail@,
{
    let mut s = String::from_str(home);
    s.append(tail);
    s
}

fn join_colon_exec(parts: &Vec<String>) -> (r: String)
    requires
        parts@.len() > 0,
    ensures
        r@ == join_colon(parts.deep_view()),
{
    let mut s = parts[0].clone();
    let n = parts.len();
    let mut i: usize = 1;
    while i < n
        invariant
            n == parts@.len(),
            1 <= i <= n,
            s@ == join_colon(parts.deep_view().subrange(0, i as int)),
        decreases n - i,
    {
        s.append(":");
        s.append(parts[i].as_str());
        proof {
            let dv = parts.deep_view();
            assert(dv.subrange(0, i + 1).drop_last() =~= dv.subrange(0, i as int));
            assert(dv.subrange(0, i + 1).last() == dv[i as int]);
            assert(dv[i as int] == parts@[i as int]@);
        }
        i = i + 1;
    }
    proof {
        assert(parts.deep_view().subrange(0, n as int) =~= parts.deep_view());
    }
    s
}

/// Builds the augmented search path from the current path, the home
/// directory, and (on the Apple platform) the discovered node-version
/// `bin` directories, which are appended after the well-known
/// directories in the order given.
pub fn get_extended_path(
    platform: Platform,
    current_path: &str,
    home: &str,
    nvm_bins: &Vec<String>,
) -> (r: String)
    ensures
        r@ == spec_extended_path(platform, current_path@, home@, nvm_bins.deep_view()),
{
    match platform {
        Platform::MacOs => {
            let mut parts: Vec<String> = Vec::new();
            parts.push(String::from_str("/usr/local/bin"));
            parts.push(String::from_str("/opt/homebrew/bin"));
            parts.push(String::from_str("/opt/local/bin"));
            parts.push(String::from_str("/Library/TeX/texbin"));
            parts.push(String::from_str("/usr/texbin"));
            parts.push(home_join(home, "/bin"));
            parts.push(home_join(home, "/.local/bin"));
            parts.push(home_join(home, "/.cargo/bin"));
            parts.push(home_join(home, "/.npm-global/bin"));
            parts.push(home_join(home, "/node_modules/.bin"));
            parts.push(String::from_str("/usr/local/lib/node_modules/.bin"));
            proof {
                assert(parts.deep_view() =~= macos_dirs(home@) + nvm_bins.deep_view().subrange(
                    0,
                    0,
                ));
            }
            let n = nvm_bins.len();
            let mut i: usize = 0;
            while i < n
                invariant
                    n == nvm_bins@.len(),
                    i <= n,
                    parts@.len() == 11 + i,
                    parts.deep_view() == macos_dirs(home@) + nvm_bins.deep_view().subrange(
                        0,
                        i as int,
                    ),
                decreases n - i,
            {
                let piece = nvm_bins[i].clone();
                let ghost old_parts = parts@;
                let ghost old_deep = parts.deep_view();
                parts.push(piece);
                proof {
                    assert forall|j: int| 0 <= j < old_parts.len() implies #[trigger] parts.deep_view()[j]
                        == old_deep[j] by {
                        assert(parts@[j] == old_parts[j]);
                    }
                    assert(parts.deep_view()[11 + i] == piece@);
                    assert(parts.deep_view() =~= macos_dirs(home@)
                        + nvm_bins.deep_view().subrange(0, i + 1));
                }
                i = i + 1;
            }
            proof {
                assert(nvm_bins.deep_view().subrange(0, n as int) =~= nvm_bins.deep_view());
            }
            let mut s = join_colon_exec(&parts);
            s.append(":");
            s.append(current_path);
            s
        },
        Platform::Linux => {
            let mut parts: Vec<String> = Vec::new();
            parts.push(String::from_str("/usr/local/bin"));
            parts.push(home_join(home, "/bin"));
            parts.push(home_join(home, "/.local/bin"));
            parts.push(home_join(home, "/.cargo/bin"));
            parts.push(String::from_str("/usr/local/texlive/2024/bin/x86_64-linux"));
            parts.push(String::from_str("/usr/local/texlive/2023/bin/x86_64-linux"));
            parts.push(home_join(home, "/.npm-global/bin"));
            parts.push(String::from_str("/usr/local/lib/node_modules/.bin"));
            proof {
                assert(parts.deep_view() =~= linux_dirs(home@));
            }
            let mut s = join_colon_exec(&parts);
            s.append(":");
            s.append(current_path);
            s
        },
        Platform::Other => String::from_str(current_path),
    }
}

} // verus!
