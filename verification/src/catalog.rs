//! Static catalog mapping a dependency name (and, for installs, a
//! method such as a package manager) to the literal shell command that
//! installs or uninstalls it.  Pure lookup data: no entry is ever added
//! or removed at run time.

use vstd::prelude::*;
use crate::text::str_eq;

verus! {

/// The install command for a `(name, method)` pair, or `None` when the
/// pair is not in the catalog.
pub open spec fn spec_install_command(name: Seq<char>, method: Seq<char>) -> Option<Seq<char>> {
    if name == "tectonic"@ && method == "brew"@ {
        Some("brew install tectonic 2>&1"@)
    } else if name == "tectonic"@ && method == "cargo"@ {
        Some("cargo install tectonic 2>&1"@)
    } else if name == "texlive"@ && method == "brew"@ {
        Some("brew install --cask basictex 2>&1"@)
    } else if name == "texlive"@ && method == "apt"@ {
        Some(
            "sudo apt install texlive-latex-base texlive-fonts-recommended texlive-latex-extra 2>&1"@,
        )
    } else if name == "mermaid-filter"@ && method == "npm"@ {
        Some("npm install -g mermaid-filter 2>&1"@)
    } else if name == "pandoc-crossref"@ && method == "brew"@ {
        Some("brew install pandoc-crossref 2>&1"@)
    } else if name == "pandoc"@ && method == "brew"@ {
        Some("brew install pandoc 2>&1"@)
    } else {
        None
    }
}

/// The uninstall command for a dependency name, or `None` when the name
/// is not in the catalog.
pub open spec fn spec_uninstall_command(name: Seq<char>) -> Option<Seq<char>> {
    if name == "tectonic"@ {
        Some("brew uninstall tectonic 2>&1 || cargo uninstall tectonic 2>&1"@)
    } else if name == "texlive"@ {
        Some("brew uninstall --cask basictex 2>&1 || brew uninstall --cask mactex 2>&1"@)
    } else if name == "mermaid-filter"@ {
        Some("npm uninstall -g mermaid-filter 2>&1"@)
    } else if name == "pandoc-crossref"@ {
        Some("brew uninstall pandoc-crossref 2>&1"@)
    } else if name == "pandoc"@ {
        Some("brew uninstall pandoc 2>&1"@)
    } else {
        None
    }
}

/// Looks up the install command for a dependency and an install method.
pub fn get_install_command(name: &str, method: &str) -> (r: Option<String>)
    ensures
        r.deep_view() == spec_install_command(name@, method@),
{
    if str_eq(name, "tectonic") && str_eq(method, "brew") {
        Some(String::from_str("brew install tectonic 2>&1"))
    } else if str_eq(name, "tectonic") && str_eq(method, "cargo") {
        Some(String::from_str("cargo install tectonic 2>&1"))
    } else if str_eq(name, "texlive") && str_eq(method, "brew") {
        Some(String::from_str("brew install --cask basictex 2>&1"))
    } else if str_eq(name, "texlive") && str_eq(method, "apt") {
        Some(
            String::from_str(
                "sudo apt install texlive-latex-base texlive-fonts-recommended texlive-latex-extra 2>&1",
            ),
        )
    } else if str_eq(name, "mermaid-filter") && str_eq(method, "npm") {
        Some(String::from_str("npm install -g mermaid-filter 2>&1"))
    } else if str_eq(name, "pandoc-crossref") && str_eq(method, "brew") {
        Some(String::from_str("brew install pandoc-crossref 2>&1"))
    } else if str_eq(name, "pandoc") && str_eq(method, "brew") {
        Some(String::from_str("brew install pandoc 2>&1"))
    } else {
        None
    }
}

/// Looks up the uninstall command for a dependency.
pub fn get_uninstall_command(name: &str) -> (r: Option<&'static str>)
    ensures
        r.deep_view() == spec_uninstall_command(name@),
{
    if str_eq(name, "tectonic") {
        Some("brew uninstall tectonic 2>&1 || cargo uninstall tectonic 2>&1")
    } else if str_eq(name, "texlive") {
        Some("brew uninstall --cask basictex 2>&1 || brew uninstall --cask mactex 2>&1")
    } else if str_eq(name, "mermaid-filter") {
        Some("npm uninstall -g mermaid-filter 2>&1")
    } else if str_eq(name, "pandoc-crossref") {
        Some("brew uninstall pandoc-crossref 2>&1")
    } else if str_eq(name, "pandoc") {
        Some("brew uninstall pandoc 2>&1")
    } else {
        None
    }
}

} // verus!
