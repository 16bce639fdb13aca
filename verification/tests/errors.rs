use vulcan_agent::error::{
    CoreError, GuardrailError, LlmError, RecallError, ServerError, SkillError, StorageError, ToolError,
};

#[test]
fn test_error_formatting() {
    let err = CoreError::Validation("bad input".into());
    assert_eq!(err.message(), "Validation error: bad input");

    let err = CoreError::NotFound("session".into());
    assert_eq!(err.message(), "Not found: session");

    let err = CoreError::Conflict("duplicate".into());
    assert_eq!(err.message(), "Conflict: duplicate");

    let err = CoreError::Internal("oops".into());
    assert_eq!(err.message(), "Internal error: oops");
}

#[test]
fn serialization_error_shows_the_json_error() {
    let json_err = serde_json::from_str::<serde_json::Value>("{").unwrap_err();
    let text = json_err.to_string();
    let err = CoreError::Serialization(json_err);
    assert_eq!(err.message(), format!("Serialization error: {}", text));
}

#[test]
fn every_error_variant_has_its_prefix() {
    assert_eq!(StorageError::Database("locked".into()).message(), "Database error: locked");
    assert_eq!(StorageError::Serialization("bad".into()).message(), "Serialization error: bad");
    assert_eq!(StorageError::Conflict("dup".into()).message(), "Conflict: dup");
    assert_eq!(ServerError::Config("port".into()).message(), "Config error: port");
    assert_eq!(
        ServerError::Storage(StorageError::Conflict("dup".into())).message(),
        "Storage error: Conflict: dup"
    );
    let io = std::io::Error::new(std::io::ErrorKind::Other, "disk gone");
    assert_eq!(ServerError::Io(io).message(), "Io error: disk gone");
    assert_eq!(ServerError::Internal("x".into()).message(), "Internal error: x");
    assert_eq!(
        RecallError::Storage(StorageError::Database("d".into())).message(),
        "Storage error: Database error: d"
    );
    assert_eq!(RecallError::NotFound("q".into()).message(), "Not found: q");
    assert_eq!(RecallError::Internal("i".into()).message(), "Internal error: i");
    assert_eq!(SkillError::NotFound("s".into()).message(), "Not found: s");
    assert_eq!(SkillError::Parse("p".into()).message(), "Parse error: p");
    assert_eq!(SkillError::Path("../x".into()).message(), "Path error: ../x");
    assert_eq!(SkillError::Internal("i".into()).message(), "Internal error: i");
    assert_eq!(GuardrailError::Denied("rm".into()).message(), "Denied: rm");
    assert_eq!(GuardrailError::ApprovalRequired("bash".into()).message(), "Approval required: bash");
    assert_eq!(GuardrailError::Internal("i".into()).message(), "Internal error: i");
    assert_eq!(ToolError::Conflict("c".into()).message(), "Conflict: c");
    assert_eq!(LlmError::Provider("p".into()).message(), "Provider error: p");
}
