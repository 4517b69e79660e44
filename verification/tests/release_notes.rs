use whereami::release::{
    get_ansi_color, get_release_info, get_release_note, release_note_unavailable, ReleaseInfo,
};

fn empty_info() -> ReleaseInfo {
    ReleaseInfo {
        id: None,
        id_like: None,
        pretty_name: None,
        version: None,
        version_id: None,
        version_codename: None,
        ansi_color: None,
        logo: None,
        cpe_name: None,
        build_id: None,
        variant: None,
        variant_id: None,
        home_url: None,
        documentation_url: None,
        support_url: None,
        bug_report_url: None,
        privacy_policy_url: None,
    }
}

#[test]
fn absent_fields_are_omitted_entirely() {
    let out = get_release_note(&empty_info());
    // Only the header and the two sub-headers remain; no placeholder
    // lines for the sixteen absent fields.
    assert_eq!(out, "Release notes:\n\tDistribution:\t\n\tURL:\t\n");
}

#[test]
fn present_fields_render_one_line_each() {
    let mut info = empty_info();
    info.id = Some("arch".to_string());
    info.version = Some("1.0".to_string());
    let out = get_release_note(&info);
    assert_eq!(
        out,
        "Release notes:\n\tDistribution:\t\n\t\tID:\t\tarch\n\t\tVersion:\t1.0\n\tURL:\t\n"
    );
}

#[test]
fn url_fields_keep_their_text() {
    let mut info = empty_info();
    info.home_url = Some("https://example.org".to_string());
    let out = get_release_note(&info);
    assert!(out.contains("\tHome:\t"));
    assert!(out.contains("https://example.org"));
    assert!(!out.contains("Documentation:"));
}

#[test]
fn ansi_color_becomes_escape_block() {
    assert_eq!(
        get_ansi_color(Some("36".to_string())),
        Some("\x1b[36m\u{2588}\u{2588}\u{2588}\u{2588}\u{2588}\u{2588}\u{2588}\x1b[0m".to_string())
    );
    assert_eq!(get_ansi_color(None), None);
}

#[test]
fn ansi_color_appears_in_note() {
    let mut info = empty_info();
    info.ansi_color = Some("1;31".to_string());
    let out = get_release_note(&info);
    assert!(out.contains(
        "\t\tANSI color:\t\x1b[1;31m\u{2588}\u{2588}\u{2588}\u{2588}\u{2588}\u{2588}\u{2588}\x1b[0m\n"
    ));
}

#[test]
fn release_line_rendering() {
    assert_eq!(get_release_info("\tName:\t", None), "");
    assert_eq!(
        get_release_info("\tName:\t", Some("Arch Linux".to_string())),
        "\t\tName:\t\tArch Linux\n"
    );
}

#[test]
fn fallback_note_is_a_single_line() {
    assert_eq!(release_note_unavailable(), "Release notes:\t\t\tNo notes");
}
