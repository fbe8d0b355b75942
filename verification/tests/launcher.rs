use winstart::launcher::{plan, usage_text, Action, EncodingPlace, Error};
use winstart::status::LaunchFailure;

fn args_of(v: &[&str]) -> Vec<String> {
    v.iter().map(|s| s.to_string()).collect()
}

#[test]
fn missing_target_is_a_usage_error() {
    assert_eq!(plan(&args_of(&["launcher"])), Action::Reject(Error::Usage));
    assert_eq!(plan(&args_of(&[])), Action::Reject(Error::Usage));
    assert_eq!(Error::Usage.message(), "no file specified");
}

#[test]
fn each_help_flag_asks_for_the_usage_text() {
    assert_eq!(plan(&args_of(&["launcher", "-h"])), Action::Help);
    assert_eq!(plan(&args_of(&["launcher", "--help"])), Action::Help);
    assert_eq!(plan(&args_of(&["launcher", "/?"])), Action::Help);
}

#[test]
fn target_alone_invokes_with_no_parameter_string() {
    let action = plan(&args_of(&["launcher", "doc.txt"]));
    assert_eq!(
        action,
        Action::Invoke { file: "doc.txt".to_string(), params: None }
    );
}

#[test]
fn parameters_are_joined_with_the_quoting_rule() {
    let action = plan(&args_of(&["launcher", "tool.exe", "a", "b c"]));
    assert_eq!(
        action,
        Action::Invoke {
            file: "tool.exe".to_string(),
            params: Some("a \"b c\"".to_string()),
        }
    );
}

#[test]
fn nul_in_the_target_is_an_encoding_error() {
    let action = plan(&args_of(&["launcher", "doc\0.txt"]));
    assert_eq!(action, Action::Reject(Error::Encoding(EncodingPlace::Target)));
    assert_eq!(
        Error::Encoding(EncodingPlace::Target).message(),
        "invalid filename (contains NULL)"
    );
}

#[test]
fn nul_in_a_parameter_is_an_encoding_error() {
    let action = plan(&args_of(&["launcher", "tool.exe", "a\0b"]));
    assert_eq!(action, Action::Reject(Error::Encoding(EncodingPlace::Parameters)));
    assert_eq!(
        Error::Encoding(EncodingPlace::Parameters).message(),
        "invalid arguments (contains NULL)"
    );
}

#[test]
fn a_help_flag_in_parameter_position_is_just_a_parameter() {
    let action = plan(&args_of(&["launcher", "tool.exe", "-h"]));
    assert_eq!(
        action,
        Action::Invoke { file: "tool.exe".to_string(), params: Some("-h".to_string()) }
    );
}

#[test]
fn launch_failures_carry_the_shellexecute_prefix() {
    assert_eq!(
        Error::Launch(LaunchFailure::FileNotFound).message(),
        "ShellExecute: The specified file was not found"
    );
    assert_eq!(
        Error::Launch(LaunchFailure::OutOfResources).message(),
        "ShellExecute:  The operating system is out of memory or resources."
    );
}

#[test]
fn usage_text_names_the_program_and_its_arguments() {
    let text = usage_text();
    assert_eq!(
        text,
        "usage: winstart.exe FILE [ARGUMENTS...]\n\nFILE may be a filename, URL, or executable file.\nIf FILE is an executable, ARGUMENTS are joined with spaces when passed\nto the programs Windows-style command-line. Any arguments with spaces\nwill be surrounded by double quotes."
    );
}
