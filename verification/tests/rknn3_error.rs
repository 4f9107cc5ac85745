use lingbase::rknn3::error::code;
use lingbase::rknn3::error::Error;

#[test]
fn check_success() {
    assert!(Error::check("rknn3_init", 0).is_ok());
}

#[test]
fn check_fail() {
    let err = Error::check("rknn3_init", code::FAIL).unwrap_err();
    assert!(matches!(err, Error::ApiFail { .. }));
    assert!(err.message().contains("rknn3_init"));
}

#[test]
fn check_timeout() {
    let err = Error::check("rknn3_run", code::TIMEOUT).unwrap_err();
    assert!(matches!(err, Error::ApiTimeout { .. }));
    assert!(err.message().contains("timed out"));
}

#[test]
fn check_unknown_code() {
    let err = Error::check("rknn3_query", 99).unwrap_err();
    assert!(matches!(err, Error::ApiUnknown { code: 99, .. }));
}

#[test]
fn check_warning_code() {
    let err = Error::check("rknn3_model_init", code::WARN_NPU_CORE_UNUSED).unwrap_err();
    assert!(matches!(err, Error::ApiUnknown { code: -100, .. }));
}

#[test]
fn nul_byte() {
    let err = Error::nul_byte("model_path");
    assert!(err.message().contains("model_path"));
    assert!(err.message().contains("null byte"));
}

#[test]
fn null_handle() {
    let err = Error::null_handle("rknn3_run");
    assert!(err.message().contains("rknn3_run"));
}

#[test]
fn invalid_config() {
    let err = Error::invalid_config("max_context_len", "must be positive");
    assert!(err.message().contains("max_context_len"));
    assert!(err.message().contains("must be positive"));
}

#[test]
fn code_constants() {
    assert_eq!(code::SUCCESS, 0);
    assert_eq!(code::FAIL, -1);
    assert_eq!(code::ARGUMENT_INVALID, -2);
    assert_eq!(code::MODEL_INVALID, -3);
    assert_eq!(code::CTX_INVALID, -4);
    assert_eq!(code::RUN_TASK_FAILED, -5);
    assert_eq!(code::OUT_OF_MEMORY, -6);
    assert_eq!(code::TIMEOUT, -7);
    assert_eq!(code::INPUT_INVALID, -8);
    assert_eq!(code::OUTPUT_INVALID, -9);
    assert_eq!(code::DEVICE_UNAVAILABLE, -10);
    assert_eq!(code::DEVICE_UNMATCH, -11);
    assert_eq!(code::TARGET_PLATFORM_UNMATCH, -12);
    assert_eq!(code::COMMUNICATION, -13);
    assert_eq!(code::MEM_SYNC_FAILED, -14);
    assert_eq!(code::WARN_NPU_CORE_UNUSED, -100);
}

#[test]
fn unknown_code_message_has_exact_text() {
    let err = Error::check("rknn3_query", -100).unwrap_err();
    assert_eq!(err.message(), "rknn3_query: unknown RKNN3 error (code: -100)");
    let err = Error::check("rknn3_query", i32::MIN).unwrap_err();
    assert_eq!(err.message(), "rknn3_query: unknown RKNN3 error (code: -2147483648)");
    let err = Error::check("f", 1234567).unwrap_err();
    assert_eq!(err.message(), "f: unknown RKNN3 error (code: 1234567)");
}

#[test]
fn every_documented_code_has_its_variant() {
    let codes = [
        code::FAIL, code::ARGUMENT_INVALID, code::MODEL_INVALID, code::CTX_INVALID,
        code::RUN_TASK_FAILED, code::OUT_OF_MEMORY, code::TIMEOUT, code::INPUT_INVALID,
        code::OUTPUT_INVALID, code::DEVICE_UNAVAILABLE, code::DEVICE_UNMATCH,
        code::TARGET_PLATFORM_UNMATCH, code::COMMUNICATION, code::MEM_SYNC_FAILED,
    ];
    for c in codes {
        let err = Error::from_code("rknn3_run", c);
        assert!(!matches!(err, Error::ApiUnknown { .. }));
        assert!(err.message().starts_with("rknn3_run: "));
    }
    assert!(matches!(Error::from_code("x", -15), Error::ApiUnknown { code: -15, .. }));
    assert!(matches!(Error::from_code("x", 0), Error::ApiUnknown { code: 0, .. }));
}

#[test]
fn messages_of_local_errors() {
    assert_eq!(Error::null_handle("rknn3_session_init").message(), "context handle is null: rknn3_session_init");
    assert_eq!(Error::nul_byte("prompt").message(), "prompt contains a null byte");
    assert_eq!(Error::from_code("rknn3_wait", code::MEM_SYNC_FAILED).message(), "rknn3_wait: memory sync failed (RKNN3_ERR_MEM_SYNC_FAILED)");
}
