use winstart::environment::{clean_environment, EnvSnapshot};

#[test]
fn absent_marker_leaves_the_environment_untouched() {
    let env = EnvSnapshot {
        msystem: None,
        home: Some("/home/user".to_string()),
        shell: Some("/bin/bash".to_string()),
    };
    assert_eq!(clean_environment(env.clone()), env);
}

#[test]
fn absent_marker_leaves_even_an_empty_environment_untouched() {
    let env = EnvSnapshot { msystem: None, home: None, shell: None };
    assert_eq!(clean_environment(env.clone()), env);
}

#[test]
fn present_marker_removes_all_three_variables() {
    let env = EnvSnapshot {
        msystem: Some("MINGW64".to_string()),
        home: Some("/home/user".to_string()),
        shell: Some("/usr/bin/zsh".to_string()),
    };
    let cleaned = clean_environment(env);
    assert_eq!(cleaned, EnvSnapshot { msystem: None, home: None, shell: None });
}

#[test]
fn present_marker_clears_regardless_of_prior_values() {
    let env = EnvSnapshot { msystem: Some(String::new()), home: None, shell: None };
    let cleaned = clean_environment(env);
    assert_eq!(cleaned, EnvSnapshot { msystem: None, home: None, shell: None });
}
