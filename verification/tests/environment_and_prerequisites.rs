use adapter_supervisor::environment::{adapter_environment, extended_path, forwards, lookup};
use adapter_supervisor::prerequisites::{
    check_prerequisites, first_word, prerequisite_status, search_places, Platform, Tool,
};

fn vars(pairs: &[(&str, &str)]) -> Vec<(String, String)> {
    pairs.iter().map(|(k, v)| (k.to_string(), v.to_string())).collect()
}

#[test]
fn the_search_path_reaches_the_usual_places() {
    assert_eq!(
        extended_path("/usr/bin:/bin", "/home/me"),
        "/usr/bin:/bin:/usr/local/bin:/opt/homebrew/bin:/home/linuxbrew/.linuxbrew/bin:/home/me/.local/bin"
    );
    assert_eq!(
        extended_path("", ""),
        ":/usr/local/bin:/opt/homebrew/bin:/home/linuxbrew/.linuxbrew/bin:/.local/bin"
    );
}

#[test]
fn the_cloud_variables_are_handed_on_but_for_the_vault_marker() {
    assert!(forwards("AWS_PROFILE"));
    assert!(forwards("AWS_"));
    assert!(forwards("AWS_VAULT_BACKEND"));
    assert!(!forwards("AWS_VAULT"));
    assert!(!forwards("AWS"));
    assert!(!forwards("aws_profile"));
    assert!(forwards("HOME"));
    assert!(forwards("USER"));
    assert!(forwards("SHELL"));
    assert!(!forwards("PATH"));
    assert!(!forwards("HOME2"));
    assert!(!forwards(""));
}

#[test]
fn a_variable_that_is_not_set_reads_as_empty() {
    let all = vars(&[("A", "1"), ("B", "2"), ("A", "3")]);
    assert_eq!(lookup(&all, "A"), "1");
    assert_eq!(lookup(&all, "B"), "2");
    assert_eq!(lookup(&all, "C"), "");
    assert_eq!(lookup(&Vec::new(), "A"), "");
}

#[test]
fn the_environment_of_the_adapter_is_built_in_order() {
    let all = vars(&[
        ("PATH", "/bin"),
        ("EDITOR", "vi"),
        ("AWS_VAULT", "session"),
        ("AWS_REGION", "eu-west-1"),
        ("HOME", "/home/me"),
        ("SHELL", "/bin/sh"),
        ("USER", "me"),
        ("AWS_PROFILE", "dev"),
    ]);
    let want = vars(&[
        ("PATH", "/bin:/usr/local/bin:/opt/homebrew/bin:/home/linuxbrew/.linuxbrew/bin:/home/me/.local/bin"),
        ("AWS_REGION", "eu-west-1"),
        ("HOME", "/home/me"),
        ("SHELL", "/bin/sh"),
        ("USER", "me"),
        ("AWS_PROFILE", "dev"),
        ("AWS_VAULT", ""),
    ]);
    assert_eq!(adapter_environment(&all), want);
}

#[test]
fn an_empty_environment_still_sets_the_path_and_clears_the_vault_marker() {
    let want = vars(&[
        ("PATH", ":/usr/local/bin:/opt/homebrew/bin:/home/linuxbrew/.linuxbrew/bin:/.local/bin"),
        ("AWS_VAULT", ""),
    ]);
    assert_eq!(adapter_environment(&Vec::new()), want);
}

#[test]
fn tools_are_looked_for_in_fixed_places() {
    assert_eq!(
        search_places("/home/me"),
        vec!["/usr/local/bin", "/opt/homebrew/bin", "/usr/bin", "/bin", "/home/me/.local/bin"]
    );
    assert_eq!(search_places("")[4], "/.local/bin");
}

#[test]
fn the_first_word_is_the_first_run_without_white_space() {
    let word = |s: &str| -> String { first_word(&s.chars().collect()).iter().collect() };
    for s in ["aws-cli/2.15.0 Python/3.11.6 Linux/6.1", "  lead\ttail", "single", "", "   ", "\u{a0}x\u{3000}y"] {
        let want: String = s.split_whitespace().take(1).collect();
        assert_eq!(word(s), want, "first word of {:?}", s);
    }
    assert_eq!(word("aws-cli/2.15.0 Python/3.11.6"), "aws-cli/2.15.0");
}

#[test]
fn each_tool_has_its_names() {
    assert_eq!(Tool::AwsVault.name(), "aws-vault");
    assert_eq!(Tool::AwsVault.binary(), "aws-vault");
    assert_eq!(Tool::AwsCli.name(), "AWS CLI");
    assert_eq!(Tool::AwsCli.binary(), "aws");
    assert_eq!(Tool::SessionManagerPlugin.name(), "Session Manager Plugin");
    assert_eq!(Tool::SessionManagerPlugin.binary(), "session-manager-plugin");
    assert_eq!(Tool::AwsVault.install_url(), "https://github.com/99designs/aws-vault#installing");
    assert_eq!(
        Tool::AwsCli.install_url(),
        "https://docs.aws.amazon.com/cli/latest/userguide/getting-started-install.html"
    );
    assert_eq!(
        Tool::SessionManagerPlugin.install_url(),
        "https://docs.aws.amazon.com/systems-manager/latest/userguide/session-manager-working-with-install-plugin.html"
    );
}

#[test]
fn install_commands_depend_on_the_system() {
    assert_eq!(Tool::AwsVault.install_command(Platform::MacOs).as_deref(), Some("brew install aws-vault"));
    assert_eq!(
        Tool::AwsVault.install_command(Platform::Linux).as_deref(),
        Some("See install URL for Linux packages")
    );
    assert_eq!(Tool::AwsVault.install_command(Platform::Windows), None);
    assert_eq!(Tool::AwsVault.install_command(Platform::Other), None);
    assert_eq!(Tool::AwsCli.install_command(Platform::MacOs).as_deref(), Some("brew install awscli"));
    assert_eq!(
        Tool::AwsCli.install_command(Platform::Linux).as_deref(),
        Some("curl \"https://awscli.amazonaws.com/awscli-exe-linux-x86_64.zip\" -o awscliv2.zip && unzip awscliv2.zip && sudo ./aws/install")
    );
    assert_eq!(Tool::AwsCli.install_command(Platform::Windows), None);
    for platform in [Platform::MacOs, Platform::Linux, Platform::Windows, Platform::Other] {
        assert_eq!(Tool::SessionManagerPlugin.install_command(platform), None);
    }
}

#[test]
fn a_tool_that_answered_is_installed_with_its_version() {
    let vault = prerequisite_status(Tool::AwsVault, &Some("v7.2.0\n".to_string()), Platform::MacOs);
    assert_eq!(vault.name, "aws-vault");
    assert!(vault.installed);
    assert_eq!(vault.version.as_deref(), Some("v7.2.0"));
    assert_eq!(vault.install_url, "https://github.com/99designs/aws-vault#installing");
    assert_eq!(vault.install_command.as_deref(), Some("brew install aws-vault"));
    let cli = prerequisite_status(
        Tool::AwsCli,
        &Some("aws-cli/2.15.0 Python/3.11.6 Linux/6.1 exe/x86_64\n".to_string()),
        Platform::Linux,
    );
    assert!(cli.installed);
    assert_eq!(cli.version.as_deref(), Some("aws-cli/2.15.0"));
    let plugin = prerequisite_status(Tool::SessionManagerPlugin, &Some("  1.2.553.0 \n".to_string()), Platform::Linux);
    assert_eq!(plugin.version.as_deref(), Some("1.2.553.0"));
    assert_eq!(plugin.install_command, None);
}

#[test]
fn a_tool_that_printed_nothing_is_installed_with_an_empty_version() {
    let cli = prerequisite_status(Tool::AwsCli, &Some(String::new()), Platform::Linux);
    assert!(cli.installed);
    assert_eq!(cli.version.as_deref(), Some(""));
}

#[test]
fn a_tool_that_did_not_answer_is_not_installed() {
    let cli = prerequisite_status(Tool::AwsCli, &None, Platform::Windows);
    assert_eq!(cli.name, "AWS CLI");
    assert!(!cli.installed);
    assert_eq!(cli.version, None);
    assert_eq!(cli.install_command, None);
    assert_eq!(cli.install_url, "https://docs.aws.amazon.com/cli/latest/userguide/getting-started-install.html");
}

#[test]
fn all_are_installed_where_each_one_is() {
    let yes = Some("1.0\n".to_string());
    let all = check_prerequisites(&yes, &yes, &yes, Platform::Linux);
    assert!(all.all_installed);
    let names: Vec<&str> = all.prerequisites.iter().map(|p| p.name.as_str()).collect();
    assert_eq!(names, vec!["aws-vault", "AWS CLI", "Session Manager Plugin"]);
    for missing in 0..3 {
        let probe = |i: usize| if i == missing { None } else { yes.clone() };
        let some = check_prerequisites(&probe(0), &probe(1), &probe(2), Platform::Linux);
        assert!(!some.all_installed);
        let installed: Vec<bool> = some.prerequisites.iter().map(|p| p.installed).collect();
        assert_eq!(installed, (0..3).map(|i| i != missing).collect::<Vec<bool>>());
    }
    let none = check_prerequisites(&None, &None, &None, Platform::MacOs);
    assert!(!none.all_installed);
    assert_eq!(none.prerequisites.len(), 3);
}
