use hostfetch::art::IconArt;
use hostfetch::style::visible_width;

#[test]
fn unrecognized_name_resolves_to_unknown() {
    let art = IconArt::resolve(None, "Unknownxyz");
    assert!(matches!(art, IconArt::Unknown));
}

#[test]
fn override_ignores_detected_name() {
    let art = IconArt::resolve(Some(IconArt::Arch), "Windows");
    assert!(matches!(art, IconArt::Arch));
    let art = IconArt::resolve(Some(IconArt::Windows), "Arch");
    assert!(matches!(art, IconArt::Windows));
}

#[test]
fn exact_names_parse() {
    assert!(matches!(IconArt::from_str("Windows"), Some(IconArt::Windows)));
    assert!(matches!(IconArt::from_str("Arch"), Some(IconArt::Arch)));
    assert!(matches!(IconArt::from_str("Unknown"), Some(IconArt::Unknown)));
}

#[test]
fn parsing_is_case_sensitive() {
    assert!(IconArt::from_str("windows").is_none());
    assert!(IconArt::from_str("ARCH").is_none());
    assert!(IconArt::from_str("").is_none());
}

#[test]
fn every_variant_has_lines() {
    assert_eq!(IconArt::Windows.to_lines().len(), 15);
    assert_eq!(IconArt::Arch.to_lines().len(), 19);
    assert_eq!(IconArt::Unknown.to_lines().len(), 18);
}

#[test]
fn widths_measure_stripped_characters() {
    // The Windows rows are 34 visible characters behind their styling codes.
    assert_eq!(IconArt::Windows.get_length(), 34);
    assert_eq!(IconArt::Arch.get_length(), 38);
    assert_eq!(IconArt::Unknown.get_length(), 24);
}

#[test]
fn width_agrees_with_an_independent_strip() {
    for art in [IconArt::Windows, IconArt::Arch, IconArt::Unknown] {
        let expected = art
            .to_lines()
            .iter()
            .map(|l| strip_ansi_escapes::strip_str(l).chars().count())
            .max()
            .unwrap();
        assert_eq!(art.get_length(), expected);
    }
}

#[test]
fn styling_only_content_counts_its_two_visible_characters() {
    let lines = vec![format!("\u{1b}[33m\u{1b}[1ma\u{1b}[32mb\u{1b}[0m")];
    assert_eq!(visible_width(&lines), 2);
}

#[test]
fn styled_lines_are_wider_raw_than_visible() {
    let lines = IconArt::Arch.to_lines();
    assert!(lines[0].chars().count() > 38);
    assert_eq!(visible_width(&lines), 38);
}
