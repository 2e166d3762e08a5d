use awsbridge::discovery::aws_config_path;
use awsbridge::discovery::discover_profiles;
use awsbridge::discovery::home_missing_error;
use awsbridge::discovery::read_failure_error;

fn names(content: &str) -> Vec<String> {
    discover_profiles(content)
}

#[test]
fn no_headers_returns_default_only() {
    let content = "region = us-east-1\noutput = json\n";
    assert_eq!(names(content), vec!["default".to_string()]);
}

#[test]
fn empty_content_returns_default() {
    assert_eq!(names(""), vec!["default".to_string()]);
}

#[test]
fn two_profiles_in_file_order() {
    let content = "[profile alpha]\nregion = us-east-1\n\n[profile beta]\nregion = eu-west-1\n";
    assert_eq!(names(content), vec!["default", "alpha", "beta"]);
}

#[test]
fn default_header_adds_nothing() {
    let content = "[default]\nregion = us-east-1\n";
    assert_eq!(names(content), vec!["default"]);
}

#[test]
fn default_header_between_profiles() {
    let content = "[profile alpha]\n[default]\n[profile beta]\n";
    assert_eq!(names(content), vec!["default", "alpha", "beta"]);
}

#[test]
fn duplicate_profiles_kept() {
    let content = "[profile dup]\n[profile dup]\n";
    assert_eq!(names(content), vec!["default", "dup", "dup"]);
}

#[test]
fn name_with_internal_spaces() {
    let content = "[profile my work account]\n";
    assert_eq!(names(content), vec!["default", "my work account"]);
}

#[test]
fn newline_separates_keyword_from_name() {
    let content = "[profile\nweird]\n";
    assert_eq!(names(content), vec!["default", "weird"]);
}

#[test]
fn unicode_whitespace_separates_keyword_from_name() {
    let content = "[profile\u{00a0}name]";
    assert_eq!(names(content), vec!["default", "name"]);
}

#[test]
fn unicode_profile_name_kept() {
    let content = "[profile h\u{00e9}llo]";
    assert_eq!(names(content), vec!["default", "h\u{00e9}llo"]);
}

#[test]
fn whitespace_only_name_is_captured() {
    // The header pattern tolerates a name made of whitespace: with three
    // spaces between the keyword and the bracket, the last one is the name.
    let content = "[profile   ]";
    assert_eq!(names(content), vec!["default", " "]);
}

#[test]
fn single_space_before_bracket_is_no_header() {
    let content = "[profile ]";
    assert_eq!(names(content), vec!["default"]);
}

#[test]
fn missing_whitespace_is_no_header() {
    let content = "[profilealpha]";
    assert_eq!(names(content), vec!["default"]);
}

#[test]
fn unclosed_header_is_ignored() {
    let content = "[profile alpha";
    assert_eq!(names(content), vec!["default"]);
}

#[test]
fn name_stops_at_first_closing_bracket() {
    let content = "[profile [default] x]";
    assert_eq!(names(content), vec!["default", "[default"]);
}

#[test]
fn header_matching_is_case_sensitive() {
    let content = "[Profile alpha]\n[PROFILE beta]\n";
    assert_eq!(names(content), vec!["default"]);
}

#[test]
fn discovery_is_repeatable() {
    let content = "[profile alpha]\n[default]\n[profile beta]\n";
    let first = names(content);
    let second = names(content);
    assert_eq!(first, second);
}

#[test]
fn read_failure_error_includes_cause() {
    let cause = "No such file or directory (os error 2)";
    let message = read_failure_error(cause);
    assert_eq!(
        message,
        "Failed to read AWS config: No such file or directory (os error 2)"
    );
    assert!(message.contains(cause));
}

#[test]
fn home_missing_error_text() {
    assert_eq!(home_missing_error(), "Could not find home directory");
}

#[test]
fn config_path_under_home_or_exact_error() {
    match aws_config_path() {
        Ok(path) => assert!(path.ends_with("/.aws/config")),
        Err(message) => assert_eq!(message, "Could not find home directory"),
    }
}

#[test]
fn successful_read_is_parsed() {
    let read = Ok("[profile alpha]\n".to_string());
    assert_eq!(
        awsbridge::discovery::profiles_from_read(read),
        Ok(vec!["default".to_string(), "alpha".to_string()])
    );
}

#[test]
fn failed_read_is_wrapped() {
    let read = Err("No such file or directory (os error 2)".to_string());
    assert_eq!(
        awsbridge::discovery::profiles_from_read(read),
        Err("Failed to read AWS config: No such file or directory (os error 2)".to_string())
    );
}
