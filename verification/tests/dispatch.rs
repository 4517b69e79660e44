use whereami::args::dispatch;
use whereami::help::help_note;

fn strings(args: &[&str]) -> Vec<String> {
    args.iter().map(|a| a.to_string()).collect()
}

#[test]
fn duplicate_flags_collapse() {
    let once = dispatch(strings(&["-d", "-m"]), "D", "R", "M", "H");
    let twice = dispatch(strings(&["-d", "-d", "-m"]), "D", "R", "M", "H");
    assert_eq!(once, twice);
    assert_eq!(once, "DM\n");
}

#[test]
fn recognized_flags_concatenate_in_order() {
    assert_eq!(dispatch(strings(&[]), "D", "R", "M", "H"), "");
    assert_eq!(dispatch(strings(&["-d"]), "D", "R", "M", "H"), "D");
    assert_eq!(dispatch(strings(&["--disk"]), "D", "R", "M", "H"), "D");
    assert_eq!(dispatch(strings(&["-r"]), "D", "R", "M", "H"), "R");
    assert_eq!(
        dispatch(strings(&["--release-notes"]), "D", "R", "M", "H"),
        "R"
    );
    assert_eq!(dispatch(strings(&["-m"]), "D", "R", "M", "H"), "M\n");
    assert_eq!(dispatch(strings(&["--memory"]), "D", "R", "M", "H"), "M\n");
    assert_eq!(
        dispatch(strings(&["-m", "-d", "-r"]), "D", "R", "M", "H"),
        "M\nDR"
    );
}

#[test]
fn deduplication_keeps_first_occurrence_order() {
    let out = dispatch(strings(&["-m", "-d", "-m"]), "D", "R", "M", "H");
    assert_eq!(out, "M\nD");
}

#[test]
fn unrecognized_flag_short_circuits() {
    let out = dispatch(strings(&["-m", "--bogus", "-d"]), "D", "R", "M", "H");
    assert_eq!(
        out,
        "M\nInvalid option '--bogus'\nrunning 'whereami --help' for more information\n\nH"
    );
    assert!(!out.contains("D"));
}

#[test]
fn help_flag_output_is_position_independent() {
    assert_eq!(dispatch(strings(&["-h"]), "D", "R", "M", "H"), "H");
    assert_eq!(dispatch(strings(&["--help"]), "D", "R", "M", "H"), "H");
    assert_eq!(dispatch(strings(&["-m", "-h"]), "D", "R", "M", "H"), "M\nH");
    assert_eq!(dispatch(strings(&["-h", "-m"]), "D", "R", "M", "H"), "HM\n");
    // The two spellings are distinct tokens, so both survive deduplication.
    assert_eq!(
        dispatch(strings(&["-h", "--help"]), "D", "R", "M", "H"),
        "HH"
    );
}

#[test]
fn help_note_identical_on_every_call() {
    let first = help_note();
    let second = help_note();
    assert_eq!(first, second);
    assert!(first.contains("whereami [options]"));
    assert!(first.contains("Simple program to get quick info on the current machine"));
    assert!(first.contains("-d,\t--disk\t\t\tget hard-disk information"));
    assert!(first.contains("-r,\t--release-notes\t\tget the OS release notes"));
    assert!(first.contains("-m,\t--memory\t\tget ram and swap memory information"));
    assert!(first.contains("-h,\t--help\t\t\tdisplay this help"));
    assert!(first.contains("Usage"));
    assert!(first.contains("Options"));
    assert!(first.contains("AVAILABLE INFO IN MEMORY INFO"));
    assert!(first.contains("AVAILABLE INFO IN DISK INFO"));
}
