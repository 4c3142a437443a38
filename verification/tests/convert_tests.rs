use conductor::convert::{
    check_command_result, conversion_result, dark_mode_header_name, dark_mode_header_text,
    mermaid_format, unicode_header_name, unicode_header_text, CommandCapture,
};
use conductor::pathres::{get_extended_path, Platform};

fn completed(success: bool, stdout: &str, stderr: &str) -> CommandCapture {
    CommandCapture::Completed {
        success,
        stdout: stdout.to_string(),
        stderr: stderr.to_string(),
    }
}

#[test]
fn check_success_returns_stdout() {
    let r = check_command_result(completed(true, "pandoc 3.1\n", ""));
    assert_eq!(r.unwrap(), "pandoc 3.1\n");
}

#[test]
fn check_failure_reports_stderr() {
    let r = check_command_result(completed(false, "", "command not found"));
    assert_eq!(r.unwrap_err(), "Command failed: command not found");
}

#[test]
fn check_spawn_failure_is_distinct() {
    let r = check_command_result(CommandCapture::Failed { detail: "no shell".to_string() });
    assert_eq!(r.unwrap_err(), "Failed to execute: no shell");
}

#[test]
fn conversion_success_returns_stdout() {
    let r = conversion_result(completed(true, "done", "warning: slow"));
    assert_eq!(r.unwrap(), "done");
}

#[test]
fn conversion_failure_merges_both_streams() {
    let r = conversion_result(completed(false, "partial output", "pdf engine missing"));
    assert_eq!(r.unwrap_err(), "pdf engine missing\npartial output");
}

#[test]
fn conversion_spawn_failure_is_distinct() {
    let r = conversion_result(CommandCapture::Failed { detail: "not found".to_string() });
    assert_eq!(r.unwrap_err(), "Failed to execute pandoc: not found");
}

#[test]
fn mermaid_format_follows_output_target() {
    assert_eq!(mermaid_format("pandoc in.md -t pdf -o out.pdf"), "pdf");
    assert_eq!(mermaid_format("pandoc in.md -t=pdf -o out.pdf"), "pdf");
    assert_eq!(mermaid_format("pandoc in.md -t html -o out.html"), "svg");
    assert_eq!(mermaid_format(""), "svg");
    assert_eq!(mermaid_format("-t pd f"), "svg");
}

#[test]
fn header_files_have_fixed_names_and_content() {
    assert_eq!(dark_mode_header_name(), "pandoc-dark-mode.tex");
    assert_eq!(unicode_header_name(), "pandoc-unicode-fix.tex");
    let dark = dark_mode_header_text();
    assert!(dark.starts_with("\\usepackage{pagecolor}\n"));
    assert!(dark.contains("\\definecolor{darkbg}{HTML}{1e1e2e}\n"));
    assert!(dark.ends_with("\\color{lighttext}\n"));
    let unicode = unicode_header_text();
    assert!(unicode.starts_with("\\usepackage{fontspec}\n"));
    assert!(unicode.contains("DejaVu Sans Mono:mode=harf;"));
    assert!(unicode.ends_with("\\setmonofont{Noto Mono}[RawFeature={fallback=monofallback}]\n"));
}

#[test]
fn macos_path_prepends_wellknown_and_node_dirs() {
    let nvm = vec!["/Users/u/.nvm/versions/node/v20.1.0/bin".to_string()];
    let r = get_extended_path(Platform::MacOs, "/usr/bin:/bin", "/Users/u", &nvm);
    assert_eq!(
        r,
        "/usr/local/bin:/opt/homebrew/bin:/opt/local/bin:/Library/TeX/texbin:/usr/texbin:\
         /Users/u/bin:/Users/u/.local/bin:/Users/u/.cargo/bin:/Users/u/.npm-global/bin:\
         /Users/u/node_modules/.bin:/usr/local/lib/node_modules/.bin:\
         /Users/u/.nvm/versions/node/v20.1.0/bin:/usr/bin:/bin"
    );
}

#[test]
fn linux_path_prepends_wellknown_dirs() {
    let r = get_extended_path(Platform::Linux, "/usr/bin", "/home/u", &Vec::new());
    assert_eq!(
        r,
        "/usr/local/bin:/home/u/bin:/home/u/.local/bin:/home/u/.cargo/bin:\
         /usr/local/texlive/2024/bin/x86_64-linux:/usr/local/texlive/2023/bin/x86_64-linux:\
         /home/u/.npm-global/bin:/usr/local/lib/node_modules/.bin:/usr/bin"
    );
}

#[test]
fn other_platforms_keep_the_path_unchanged() {
    let r = get_extended_path(Platform::Other, "C:\\Windows", "C:\\Users\\u", &Vec::new());
    assert_eq!(r, "C:\\Windows");
}
