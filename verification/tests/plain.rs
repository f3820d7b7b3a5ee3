use ra_batch::error::{BatchError, ErrorKind};
use ra_batch::metrics::{metric_line, push_decimal, report_metric};
use ra_batch::paths::{join_onto, normalize, AbsolutePath};
use ra_batch::verbosity::Verbosity;

#[test]
fn verbose_levels() {
    assert!(Verbosity::Spammy.is_verbose());
    assert!(Verbosity::Verbose.is_verbose());
    assert!(!Verbosity::Normal.is_verbose());
    assert!(!Verbosity::Quiet.is_verbose());
}

#[test]
fn spammy_level() {
    assert!(Verbosity::Spammy.is_spammy());
    assert!(!Verbosity::Verbose.is_spammy());
    assert!(!Verbosity::Normal.is_spammy());
    assert!(!Verbosity::Quiet.is_spammy());
}

#[test]
fn metric_line_has_all_parts() {
    assert_eq!(metric_line("build", 1234567890, "ms"), "METRIC:build:1234567890:ms");
    assert_eq!(metric_line("", 0, ""), "METRIC::0:");
    assert_eq!(metric_line("n", 10, "#"), "METRIC:n:10:#");
}

#[test]
fn decimal_of_extremes() {
    let mut line = String::from("x=");
    push_decimal(&mut line, u64::MAX);
    assert_eq!(line, "x=18446744073709551615");
    let mut line = String::new();
    push_decimal(&mut line, 0);
    assert_eq!(line, "0");
    let mut line = String::new();
    push_decimal(&mut line, 9);
    push_decimal(&mut line, 100);
    assert_eq!(line, "9100");
}

#[test]
fn metric_is_silent_when_disabled() {
    assert_eq!(report_metric(false, "build", 7, "ms"), None);
    assert_eq!(report_metric(true, "build", 7, "ms"), Some(String::from("METRIC:build:7:ms")));
}

#[test]
fn absolute_path_wants_a_root() {
    let path = AbsolutePath::new(String::from("/work/src/lib.rs")).unwrap();
    assert_eq!(path.as_str(), "/work/src/lib.rs");
    assert!(AbsolutePath::new(String::from("src/lib.rs")).is_none());
    assert!(AbsolutePath::new(String::new()).is_none());
}

#[test]
fn join_keeps_an_absolute_input() {
    assert_eq!(join_onto("/work", "src/lib.rs"), "/work/src/lib.rs");
    assert_eq!(join_onto("/work/", "src/lib.rs"), "/work/src/lib.rs");
    assert_eq!(join_onto("/work", "/etc/hosts"), "/etc/hosts");
}

#[test]
fn normalize_takes_a_canonical_path() {
    let path = normalize(Ok(String::from("/work/src/lib.rs"))).unwrap();
    assert_eq!(path.as_str(), "/work/src/lib.rs");
}

#[test]
fn normalize_reports_what_the_file_system_said() {
    let why = normalize(Err(String::from("No such file or directory"))).err().unwrap();
    assert_eq!(why.kind, ErrorKind::PathResolution);
    assert_eq!(why.message(), "No such file or directory");
}

#[test]
fn normalize_refuses_a_relative_path() {
    let why = normalize(Ok(String::from("src/lib.rs"))).err().unwrap();
    assert_eq!(why.kind, ErrorKind::PathResolution);
    assert_eq!(why.message(), "src/lib.rs");
}

#[test]
fn error_keeps_kind_and_message() {
    let why = BatchError::new(ErrorKind::Loader, "no manifest");
    assert_eq!(why.kind, ErrorKind::Loader);
    assert_eq!(why.message(), "no manifest");
    assert_eq!(BatchError::new(ErrorKind::Io, "stdin closed").kind, ErrorKind::Io);
}
