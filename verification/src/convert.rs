//! The pure halves of the one-shot commands around the converter: how
//! a captured run of a probe command or of the converter itself is
//! turned into a result, which diagram format the converter's filter
//! should produce, and the LaTeX header snippets written for it.
//! Running the subprocess and touching the file system stay outside.

use vstd::prelude::*;
use crate::text::{contains_seq, str_contains};

verus! {

/// What a one-shot command run produced: either the interpreter could
/// not be started, or the command ran and exited.
pub enum CommandCapture {
    /// The interpreter or binary could not be started.
    Failed { detail: String },
    /// The command ran; its exit status and captured streams.
    Completed { success: bool, stdout: String, stderr: String },
}

/// How a probe command's capture is reported: its standard output on
/// success, a diagnostic with the captured standard error otherwise.
pub open spec fn check_outcome(cap: CommandCapture, r: Result<String, String>) -> bool {
    match cap {
        CommandCapture::Failed { detail } => r matches Err(m) && m@ == "Failed to execute: "@
            + detail@,
        CommandCapture::Completed { success, stdout, stderr } => {
            if success {
                r matches Ok(m) && m@ == stdout@
            } else {
                r matches Err(m) && m@ == "Command failed: "@ + stderr@
            }
        },
    }
}

/// Turns a probe command's capture into the caller's result.  A
/// non-zero exit is reported with the captured standard error; a spawn
/// failure is reported distinctly.
pub fn check_command_result(cap: CommandCapture) -> (r: Result<String, String>)
    ensures
        check_outcome(cap, r),
{
    match cap {
        CommandCapture::Failed { detail } => {
            let mut m = String::from_str("Failed to execute: ");
            m.append(detail.as_str());
            Err(m)
        },
        CommandCapture::Completed { success, stdout, stderr } => {
            if success {
                Ok(stdout)
            } else {
                let mut m = String::from_str("Command failed: ");
                m.append(stderr.as_str());
                Err(m)
            }
        },
    }
}

/// How a converter run's capture is reported: standard output on
/// success; otherwise both captured streams, standard error first, so
/// the tool's diagnostics reach the caller verbatim.
pub open spec fn conversion_outcome(cap: CommandCapture, r: Result<String, String>) -> bool {
    match cap {
        CommandCapture::Failed { detail } => r matches Err(m) && m@
            == "Failed to execute pandoc: "@ + detail@,
        CommandCapture::Completed { success, stdout, stderr } => {
            if success {
                r matches Ok(m) && m@ == stdout@
            } else {
                r matches Err(m) && m@ == stderr@ + "\n"@ + stdout@
            }
        },
    }
}

/// Turns a converter run's capture into the caller's result.
pub fn conversion_result(cap: CommandCapture) -> (r: Result<String, String>)
    ensures
        conversion_outcome(cap, r),
{
    match cap {
        CommandCapture::Failed { detail } => {
            let mut m = String::from_str("Failed to execute pandoc: ");
            m.append(detail.as_str());
            Err(m)
        },
        CommandCapture::Completed { success, stdout, stderr } => {
            if success {
                Ok(stdout)
            } else {
                let mut m = stderr;
                m.append("\n");
                m.append(stdout.as_str());
                Err(m)
            }
        },
    }
}

/// The diagram format the converter's filter should produce for this
/// command line: `pdf` when the command targets PDF output (best
/// embedding quality there), `svg` otherwise.
pub open spec fn spec_mermaid_format(command: Seq<char>) -> Seq<char> {
    if contains_seq(command, "-t pdf"@) || contains_seq(command, "-t=pdf"@) {
        "pdf"@
    } else {
        "svg"@
    }
}

/// Picks the diagram format for this converter command line.
pub fn mermaid_format(command: &str) -> (r: &'static str)
    ensures
        r@ == spec_mermaid_format(command@),
{
    if str_contains(command, "-t pdf") || str_contains(command, "-t=pdf") {
        "pdf"
    } else {
        "svg"
    }
}

/// The name of the header file that switches the produced document to
/// dark colours.
pub fn dark_mode_header_name() -> (r: &'static str)
    ensures
        r@ == "pandoc-dark-mode.tex"@,
{
    "pandoc-dark-mode.tex"
}

/// The LaTeX header that switches page and text colours to a dark
/// scheme.
pub fn dark_mode_header_text() -> (r: String)
    ensures
        r@ == "\\usepackage{pagecolor}\n\\usepackage{xcolor}\n\\definecolor{darkbg}{HTML}{1e1e2e}\n\\definecolor{lighttext}{HTML}{cdd6f4}\n\\pagecolor{darkbg}\n\\color{lighttext}\n"@,
{
    String::from_str(
        "\\usepackage{pagecolor}\n\\usepackage{xcolor}\n\\definecolor{darkbg}{HTML}{1e1e2e}\n\\definecolor{lighttext}{HTML}{cdd6f4}\n\\pagecolor{darkbg}\n\\color{lighttext}\n",
    )
}

/// The name of the header file that fixes box-drawing characters in
/// monospace output.
pub fn unicode_header_name() -> (r: &'static str)
    ensures
        r@ == "pandoc-unicode-fix.tex"@,
{
    "pandoc-unicode-fix.tex"
}

/// The LaTeX header that installs fallback monospace fonts with wide
/// coverage, so box-drawing characters render.
pub fn unicode_header_text() -> (r: String)
    ensures
        r@
            == "\\usepackage{fontspec}\n\\directlua{\n  luaotfload.add_fallback(\"monofallback\", {\n    \"Menlo:mode=harf;\",\n    \"DejaVu Sans Mono:mode=harf;\",\n    \"Apple Symbols:mode=harf;\",\n  })\n}\n\\setmonofont{Noto Mono}[RawFeature={fallback=monofallback}]\n"@,
{
    String::from_str(
        "\\usepackage{fontspec}\n\\directlua{\n  luaotfload.add_fallback(\"monofallback\", {\n    \"Menlo:mode=harf;\",\n    \"DejaVu Sans Mono:mode=harf;\",\n    \"Apple Symbols:mode=harf;\",\n  })\n}\n\\setmonofont{Noto Mono}[RawFeature={fallback=monofallback}]\n",
    )
}

} // verus!
