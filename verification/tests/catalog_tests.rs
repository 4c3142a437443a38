use conductor::catalog::{get_install_command, get_uninstall_command};

#[test]
fn install_commands_match_catalog() {
    assert_eq!(
        get_install_command("tectonic", "brew").unwrap(),
        "brew install tectonic 2>&1"
    );
    assert_eq!(
        get_install_command("tectonic", "cargo").unwrap(),
        "cargo install tectonic 2>&1"
    );
    assert_eq!(
        get_install_command("texlive", "brew").unwrap(),
        "brew install --cask basictex 2>&1"
    );
    assert_eq!(
        get_install_command("texlive", "apt").unwrap(),
        "sudo apt install texlive-latex-base texlive-fonts-recommended texlive-latex-extra 2>&1"
    );
    assert_eq!(
        get_install_command("mermaid-filter", "npm").unwrap(),
        "npm install -g mermaid-filter 2>&1"
    );
    assert_eq!(
        get_install_command("pandoc-crossref", "brew").unwrap(),
        "brew install pandoc-crossref 2>&1"
    );
    assert_eq!(
        get_install_command("pandoc", "brew").unwrap(),
        "brew install pandoc 2>&1"
    );
}

#[test]
fn uninstall_commands_match_catalog() {
    assert_eq!(
        get_uninstall_command("tectonic").unwrap(),
        "brew uninstall tectonic 2>&1 || cargo uninstall tectonic 2>&1"
    );
    assert_eq!(
        get_uninstall_command("texlive").unwrap(),
        "brew uninstall --cask basictex 2>&1 || brew uninstall --cask mactex 2>&1"
    );
    assert_eq!(
        get_uninstall_command("mermaid-filter").unwrap(),
        "npm uninstall -g mermaid-filter 2>&1"
    );
    assert_eq!(
        get_uninstall_command("pandoc-crossref").unwrap(),
        "brew uninstall pandoc-crossref 2>&1"
    );
    assert_eq!(
        get_uninstall_command("pandoc").unwrap(),
        "brew uninstall pandoc 2>&1"
    );
}

#[test]
fn unknown_pairs_are_rejected() {
    assert!(get_install_command("pandoc", "ftp").is_none());
    assert!(get_install_command("pandoc", "cargo").is_none());
    assert!(get_install_command("nonexistent", "brew").is_none());
    assert!(get_install_command("", "").is_none());
    assert!(get_uninstall_command("nonexistent").is_none());
    assert!(get_uninstall_command("").is_none());
}
