use z2pgh::error_chain::{error_chain_fmt, ErrorReport};

#[test]
fn an_error_without_cause_is_followed_by_an_empty_line() {
    let report = ErrorReport::new("boom".to_string());
    assert_eq!(error_chain_fmt(&report), "boom\n\n");
}

#[test]
fn each_cause_gets_its_own_block() {
    let report = ErrorReport {
        message: "outer".to_string(),
        causes: vec!["inner".to_string(), "root".to_string()],
    };
    assert_eq!(
        error_chain_fmt(&report),
        "outer\n\nCaused by:\n\tinner\nCaused by:\n\troot\n"
    );
}

#[test]
fn context_wraps_the_error_as_first_cause() {
    let report = ErrorReport {
        message: "connection refused".to_string(),
        causes: vec!["os error 111".to_string()],
    };
    let wrapped = report.context("Failed to commit".to_string());
    assert_eq!(wrapped.message, "Failed to commit");
    assert_eq!(wrapped.causes, vec!["connection refused".to_string(), "os error 111".to_string()]);
    assert_eq!(
        error_chain_fmt(&wrapped),
        "Failed to commit\n\nCaused by:\n\tconnection refused\nCaused by:\n\tos error 111\n"
    );
    let copy = wrapped.duplicate();
    assert_eq!(copy.message, wrapped.message);
    assert_eq!(copy.causes, wrapped.causes);
}
