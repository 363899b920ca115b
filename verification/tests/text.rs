use mdtouch::text::{banner, build_datetime, error_message, help_message};

#[test]
fn test_help_message_contains_usage() {
    let help = help_message();
    assert!(help.contains("Usage:"), "Help message should contain 'Usage:'");
    assert!(help.contains("-h"), "Help message should mention '-h' option");
    assert!(help.contains("-?"), "Help message should mention '-?' option");
}

#[test]
fn help_message_is_the_full_usage_text() {
    let expected = "Usage: mdtouch [OPTIONS] <file> [file...]\n\n\
A command line tool to mimic the behaviour of the Unix touch command on Windows.\n\
If the file does not exist, it will be created. Otherwise, its access and modification\n\
times will be updated to the current time.\n\n\
Options:\n\
\x20 -h, -?      Display this help message and exit.\n";
    assert_eq!(help_message(), expected);
}

#[test]
fn banner_shows_name_stamp_and_description() {
    assert_eq!(
        banner("2025-02-03 10:00:00"),
        "mdtouch  2025-02-03 10:00:00\nA tool to update file timestamps or create empty files, mimicking the Unix touch command."
    );
}

#[test]
fn banner_with_empty_stamp_still_names_the_tool() {
    let text = banner("");
    assert!(text.starts_with("mdtouch  \n"));
    assert!(text.contains("mimicking the Unix touch command."));
}

#[test]
fn build_datetime_defaults_to_fixed_date() {
    assert_eq!(build_datetime(None), "2025-02-03 10:00:00");
}

#[test]
fn build_datetime_prefers_supplied_stamp() {
    assert_eq!(build_datetime(Some("2031-12-24 18:30:00")), "2031-12-24 18:30:00");
    assert_eq!(build_datetime(Some("")), "");
}

#[test]
fn error_message_joins_path_and_cause() {
    assert_eq!(
        error_message("missing/file.txt", "No such file or directory (os error 2)"),
        "Error touching missing/file.txt: No such file or directory (os error 2)"
    );
}

#[test]
fn error_message_keeps_empty_parts() {
    assert_eq!(error_message("", ""), "Error touching : ");
}

#[test]
fn error_message_keeps_non_ascii_text() {
    assert_eq!(
        error_message("données/été.txt", "Accès refusé"),
        "Error touching données/été.txt: Accès refusé"
    );
}
