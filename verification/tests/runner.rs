use awsbridge::runner::aws_command_name;
use awsbridge::runner::build_s3_ls_args;
use awsbridge::runner::is_default_profile;
use awsbridge::runner::list_s3_buckets_result;
use awsbridge::runner::ProcessOutcome;

#[test]
fn default_profile_omits_selection_pair() {
    assert_eq!(build_s3_ls_args("default"), vec!["s3", "ls"]);
}

#[test]
fn named_profile_prepends_selection_pair() {
    assert_eq!(
        build_s3_ls_args("work"),
        vec!["--profile", "work", "s3", "ls"]
    );
}

#[test]
fn any_non_default_name_is_passed_through() {
    assert_eq!(
        build_s3_ls_args("not in the discovered list"),
        vec!["--profile", "not in the discovered list", "s3", "ls"]
    );
}

#[test]
fn empty_profile_name_gets_selection_pair() {
    assert_eq!(build_s3_ls_args(""), vec!["--profile", "", "s3", "ls"]);
}

#[test]
fn command_name_is_aws() {
    assert_eq!(aws_command_name(), "aws");
}

#[test]
fn default_literal_is_recognized() {
    assert!(is_default_profile("default"));
    assert!(!is_default_profile("Default"));
    assert!(!is_default_profile("defaultx"));
    assert!(!is_default_profile(""));
}

#[test]
fn successful_exit_returns_stdout_verbatim() {
    let outcome = ProcessOutcome::Completed {
        success: true,
        stdout: b"2024-01-01 bucket-one\n2024-01-02 bucket-two\n".to_vec(),
        stderr: b"ignored diagnostics".to_vec(),
    };
    assert_eq!(
        list_s3_buckets_result(outcome),
        Ok("2024-01-01 bucket-one\n2024-01-02 bucket-two\n".to_string())
    );
}

#[test]
fn failed_exit_returns_stderr() {
    let outcome = ProcessOutcome::Completed {
        success: false,
        stdout: b"partial output".to_vec(),
        stderr: b"An error occurred (AccessDenied)\n".to_vec(),
    };
    assert_eq!(
        list_s3_buckets_result(outcome),
        Err("An error occurred (AccessDenied)\n".to_string())
    );
}

#[test]
fn invalid_output_bytes_are_replaced_not_rejected() {
    let outcome = ProcessOutcome::Completed {
        success: true,
        stdout: b"ok\xff\xfeend".to_vec(),
        stderr: Vec::new(),
    };
    assert_eq!(
        list_s3_buckets_result(outcome),
        Ok("ok\u{fffd}\u{fffd}end".to_string())
    );
}

#[test]
fn invalid_stderr_bytes_are_replaced_not_rejected() {
    let outcome = ProcessOutcome::Completed {
        success: false,
        stdout: Vec::new(),
        stderr: b"bad \xf0\x28\x8c\x28 byte".to_vec(),
    };
    assert_eq!(
        list_s3_buckets_result(outcome),
        Err("bad \u{fffd}(\u{fffd}( byte".to_string())
    );
}

#[test]
fn spawn_failure_returns_its_description() {
    let outcome = ProcessOutcome::SpawnFailed {
        message: "No such file or directory (os error 2)".to_string(),
    };
    assert_eq!(
        list_s3_buckets_result(outcome),
        Err("No such file or directory (os error 2)".to_string())
    );
}
