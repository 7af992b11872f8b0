use aws_login::fish::{
    Environment, Setup, BIN_PLACEHOLDER, INSTALLED_COMMENT, SCRIPT_PATH, SHELL_NAME,
    SHELL_PLACEHOLDER,
};

fn appended(contents: Option<String>, block: &str) -> Option<String> {
    let mut text = contents.unwrap_or_default();
    text.push_str(block);
    Some(text)
}

#[test]
fn names_of_the_integration() {
    assert_eq!(SCRIPT_PATH, "AWS_LOGIN_SCRIPT");
    assert_eq!(SHELL_NAME, "fish");
    assert_eq!(
        INSTALLED_COMMENT,
        "# Integrate aws-login into the shell environment."
    );
}

#[test]
fn set_var_writes_one_statement_per_line() {
    let mut environment = Environment::new();
    assert_eq!(environment.script(), "");
    environment.set_var("AWS_PROFILE", "dev");
    assert_eq!(environment.script(), "set -gx AWS_PROFILE \"dev\"\n");
    environment.set_var("AWS_REGION", "eu-west-1");
    assert_eq!(
        environment.script(),
        "set -gx AWS_PROFILE \"dev\"\nset -gx AWS_REGION \"eu-west-1\"\n"
    );
}

#[test]
fn write_failure_has_code_one_and_context() {
    let error = Environment::write_failure("disk full".to_owned());
    assert_eq!(error.code, 1);
    assert_eq!(error.message.as_deref(), Some("disk full"));
    assert_eq!(error.context, vec!["Could not set environment variable."]);
}

#[test]
fn setup_uses_the_given_profile() {
    let setup = Setup::new(Some("/tmp/custom.fish")).unwrap();
    assert_eq!(setup.script(), "/tmp/custom.fish");
    let setup = Setup::resolve(Some("relative.fish"), Some("/home/user".to_owned())).unwrap();
    assert_eq!(setup.script(), "relative.fish");
    let setup = Setup::resolve(Some("relative.fish"), None).unwrap();
    assert_eq!(setup.script(), "relative.fish");
}

#[test]
fn setup_defaults_below_the_home_directory() {
    let setup = Setup::resolve(None, Some("/home/user".to_owned())).unwrap();
    let expected = std::path::Path::new("/home/user")
        .join(".config")
        .join("fish")
        .join("config.fish");
    assert_eq!(std::path::Path::new(setup.script()), expected.as_path());
    assert_ne!(setup.script(), "/home/user");
    assert!(setup.script().starts_with("/home/user"));
    assert!(setup.script().ends_with("config.fish"));
    assert!(setup.script().contains(".config"));
    assert!(setup.script().contains("fish"));
}

#[test]
fn setup_without_profile_or_home_is_none() {
    assert!(Setup::resolve(None, None).is_none());
}

#[test]
fn setup_default_follows_the_home_crate() {
    let expected = home::home_dir().map(|home| {
        std::path::Path::new(home.to_string_lossy().as_ref())
            .join(".config")
            .join("fish")
            .join("config.fish")
    });
    let setup = Setup::new(None);
    match (setup, expected) {
        (Some(setup), Some(path)) => {
            assert_eq!(std::path::Path::new(setup.script()), path.as_path())
        }
        (None, None) => {}
        _ => panic!("the default profile does not follow the home directory"),
    }
}

#[test]
fn install_block_is_exact() {
    let setup = Setup::new(Some("config.fish")).unwrap();
    assert_eq!(
        setup.install("aws-login"),
        "\n# Integrate aws-login into the shell environment.\naws-login shell init -s fish | source\n"
    );
}

#[test]
fn is_installed_follows_install() {
    let setup = Setup::new(Some("config.fish")).unwrap();
    assert_eq!(setup.is_installed(Ok(None)).unwrap(), false);

    let once = appended(None, &setup.install("aws-login"));
    assert_eq!(setup.is_installed(Ok(once.clone())).unwrap(), true);

    let twice = appended(once.clone(), &setup.install("aws-login"));
    assert_eq!(setup.is_installed(Ok(twice.clone())).unwrap(), true);
    assert_eq!(
        twice.unwrap().matches(INSTALLED_COMMENT).count(),
        2
    );
}

#[test]
fn is_installed_reads_the_marker_only() {
    let setup = Setup::new(Some("config.fish")).unwrap();
    assert_eq!(setup.is_installed(Ok(Some(String::new()))).unwrap(), false);
    assert_eq!(
        setup
            .is_installed(Ok(Some("set -gx EDITOR vim\n".to_owned())))
            .unwrap(),
        false
    );
    let existing = appended(Some("set -gx EDITOR vim\n".to_owned()), &setup.install("tool"));
    assert_eq!(setup.is_installed(Ok(existing)).unwrap(), true);
    assert_eq!(
        setup
            .is_installed(Ok(Some(
                "# Integrate aws-login into the shell environment".to_owned()
            )))
            .unwrap(),
        false
    );
}

#[test]
fn is_installed_passes_io_errors_on() {
    let setup = Setup::new(Some("config.fish")).unwrap();
    let error = setup
        .is_installed(Err("Permission denied (os error 13)".to_owned()))
        .unwrap_err();
    assert_eq!(error.code, 1);
    assert_eq!(error.message.as_deref(), Some("Permission denied (os error 13)"));
    assert!(error.context.is_empty());
}

#[test]
fn directory_failure_takes_the_os_code() {
    let error = Setup::directory_failure(Some(13), "Permission denied".to_owned());
    assert_eq!(error.code, 13);
    assert_eq!(error.message.as_deref(), Some("Permission denied"));
    assert_eq!(
        error.context,
        vec!["Could not create the directory containing the profile script."]
    );
    let error = Setup::directory_failure(None, "unknown".to_owned());
    assert_eq!(error.code, 1);
}

#[test]
fn generated_script_has_the_names_in_place() {
    let setup = Setup::new(Some("config.fish")).unwrap();
    let script = setup.generate_script("aws-login");
    assert!(script.contains("aws-login"));
    assert!(script.contains("fish"));
    assert!(!script.contains(BIN_PLACEHOLDER));
    assert!(!script.contains(SHELL_PLACEHOLDER));
    assert!(!script.contains('{'));
    assert!(script.starts_with("function aws-login --description"));
    assert!(script.contains("\n    set -lx AWS_LOGIN_SHELL fish\n    command aws-login $argv\n"));
    assert!(script.ends_with("    return $result\nend\n"));
}

#[test]
fn generated_script_is_exact() {
    let setup = Setup::new(Some("config.fish")).unwrap();
    assert_eq!(
        setup.generate_script("al"),
        "function al --description \"Log into AWS accounts and services\"\n    set -lx AWS_LOGIN_SCRIPT (mktemp)\n    set -lx AWS_LOGIN_SHELL fish\n    command al $argv\n    set -l result $status\n    if test -s \"$AWS_LOGIN_SCRIPT\"\n        source \"$AWS_LOGIN_SCRIPT\"\n    end\n    rm -f \"$AWS_LOGIN_SCRIPT\"\n    return $result\nend\n"
    );
}
