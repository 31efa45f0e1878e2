use prodder::session::{launch_plan, max_level, read_token, Launch, Level, TokenMissing};

#[test]
fn max_level_matches_build_profile() {
    assert_eq!(max_level(true), Level::Debug);
    assert_eq!(max_level(false), Level::Info);
}

#[test]
fn read_token_errors_when_unset() {
    let err = read_token(None).unwrap_err();
    assert_eq!(err, TokenMissing);
    assert!(err.message().contains("GH_TOKEN"));
    assert_eq!(err.message(), "GH_TOKEN not set");
}

#[test]
fn read_token_returns_what_is_set() {
    assert_eq!(read_token(Some("hunter2".to_string())).unwrap(), "hunter2");
    assert_eq!(read_token(Some(String::new())).unwrap(), "");
}

#[test]
fn the_sidecar_needs_its_key() {
    assert_eq!(
        launch_plan(true),
        Launch::WithSidecar(vec!["--config".to_string(), "/etc/vector/vector.toml".to_string()])
    );
    assert_eq!(
        launch_plan(false),
        Launch::Alone(
            "launcher: DATADOG_API_KEY not set; running prodder without vector sidecar".to_string()
        )
    );
}
