use conductor::fonts::list_system_fonts;

#[test]
fn fonts_are_parsed_and_sorted() {
    let r = list_system_fonts("Zapfino\nArial\nComic Sans MS\n");
    assert_eq!(r, ["Arial", "Comic Sans MS", "Zapfino"]);
}

#[test]
fn fonts_are_split_on_commas_and_trimmed() {
    let r = list_system_fonts("DejaVu Sans,DejaVu Sans Mono\n  Noto Sans  \n");
    assert_eq!(r, ["DejaVu Sans", "DejaVu Sans Mono", "Noto Sans"]);
}

#[test]
fn hidden_comment_and_short_entries_are_dropped() {
    let r = list_system_fonts(".SF Compact\n#system\nA\nAvenir\n\n");
    assert_eq!(r, ["Avenir"]);
}

#[test]
fn duplicate_families_are_kept_once() {
    let r = list_system_fonts("Arial\nArial,Arial\nArial\n");
    assert_eq!(r, ["Arial"]);
}

#[test]
fn ordering_ignores_letter_case() {
    let r = list_system_fonts("zebra\nApple\nmango\n");
    assert_eq!(r, ["Apple", "mango", "zebra"]);
}

#[test]
fn carriage_returns_are_trimmed() {
    let r = list_system_fonts("Arial\r\nBookman\r\n");
    assert_eq!(r, ["Arial", "Bookman"]);
}

#[test]
fn empty_output_yields_no_fonts() {
    let r = list_system_fonts("");
    assert!(r.is_empty());
    let r = list_system_fonts("\n\n, ,\n");
    assert!(r.is_empty());
}
