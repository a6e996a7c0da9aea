use controller::logging::{debug, error, info, verbose, warn, LOG_LEVEL};

#[test]
fn every_severity_is_logged() {
    assert_eq!(LOG_LEVEL, 5);
    assert!(error("a").is_some());
    assert!(warn("a").is_some());
    assert!(info("a").is_some());
    assert!(debug("a").is_some());
    assert!(verbose("a").is_some());
}

#[test]
fn error_line() {
    assert_eq!(error("no port"), Some(String::from("ERRO: no port")));
}

#[test]
fn warn_line() {
    assert_eq!(
        warn("Could not calculate inverse kinematics"),
        Some(String::from("WARN: Could not calculate inverse kinematics"))
    );
}

#[test]
fn info_line() {
    assert_eq!(info("connected"), Some(String::from("INFO: connected")));
}

#[test]
fn debug_line() {
    assert_eq!(
        debug("Not writing due to no_connect flag"),
        Some(String::from("DEBG: Not writing due to no_connect flag"))
    );
}

#[test]
fn verbose_line() {
    assert_eq!(verbose("tick"), Some(String::from("VERB: tick")));
}

#[test]
fn empty_message_leaves_the_tag() {
    assert_eq!(error(""), Some(String::from("ERRO: ")));
    assert_eq!(verbose(""), Some(String::from("VERB: ")));
}

#[test]
fn message_is_kept_as_it_is() {
    assert_eq!(
        info("  two  spaces: and a colon "),
        Some(String::from("INFO:   two  spaces: and a colon "))
    );
}
