use adapter_supervisor::profiles::{
    delete_aws_profile, read_aws_config, read_heading, read_profile_name, read_setting,
    save_aws_profile, AwsProfile,
};

fn chars(s: &str) -> Vec<char> {
    s.chars().collect()
}

fn text(v: &[char]) -> String {
    v.iter().collect()
}

fn profile(name: &str, raw: &str) -> AwsProfile {
    AwsProfile {
        name: name.to_string(),
        region: None,
        source_profile: None,
        role_arn: None,
        mfa_serial: None,
        sso_start_url: None,
        sso_region: None,
        sso_account_id: None,
        sso_role_name: None,
        raw_content: raw.to_string(),
    }
}

const CONFIG: &str = "# global comment\nstray = value\n[default]\nregion = eu-west-1\n\n[profile dev]\n  region=us-east-1  \nsource_profile = default\nrole_arn = arn:aws:iam::1:role/x=y\n# a comment\n; another\nmfa_serial=arn:mfa\nunknown = kept in text only\n[profile sso]\r\nsso_start_url = https://example.test/start\r\nsso_region = eu-central-1\r\nsso_account_id = 123\r\nsso_role_name = Admin\r\n[bare]\nregion = a\nregion = b\n";

#[test]
fn the_profiles_of_a_configuration_text_come_in_the_order_of_their_sections() {
    let profiles = read_aws_config(CONFIG);
    let names: Vec<&str> = profiles.iter().map(|p| p.name.as_str()).collect();
    assert_eq!(names, vec!["default", "dev", "sso", "bare"]);
}

#[test]
fn the_known_settings_of_a_section_are_read() {
    let profiles = read_aws_config(CONFIG);
    let default = &profiles[0];
    assert_eq!(default.region.as_deref(), Some("eu-west-1"));
    assert_eq!(default.source_profile, None);
    assert_eq!(default.raw_content, "region = eu-west-1");
    let dev = &profiles[1];
    assert_eq!(dev.region.as_deref(), Some("us-east-1"));
    assert_eq!(dev.source_profile.as_deref(), Some("default"));
    assert_eq!(dev.role_arn.as_deref(), Some("arn:aws:iam::1:role/x=y"));
    assert_eq!(dev.mfa_serial.as_deref(), Some("arn:mfa"));
    assert_eq!(dev.sso_start_url, None);
    assert_eq!(
        dev.raw_content,
        "region=us-east-1  \nsource_profile = default\nrole_arn = arn:aws:iam::1:role/x=y\n# a comment\n; another\nmfa_serial=arn:mfa\nunknown = kept in text only"
    );
    let sso = &profiles[2];
    assert_eq!(sso.sso_start_url.as_deref(), Some("https://example.test/start"));
    assert_eq!(sso.sso_region.as_deref(), Some("eu-central-1"));
    assert_eq!(sso.sso_account_id.as_deref(), Some("123"));
    assert_eq!(sso.sso_role_name.as_deref(), Some("Admin"));
    assert_eq!(
        sso.raw_content,
        "sso_start_url = https://example.test/start\nsso_region = eu-central-1\nsso_account_id = 123\nsso_role_name = Admin"
    );
}

#[test]
fn a_later_setting_of_the_same_key_wins() {
    let profiles = read_aws_config(CONFIG);
    assert_eq!(profiles[3].region.as_deref(), Some("b"));
    assert_eq!(profiles[3].raw_content, "region = a\nregion = b");
}

#[test]
fn a_text_without_a_heading_has_no_profiles() {
    assert!(read_aws_config("").is_empty());
    assert!(read_aws_config("region = x\n# nothing\n").is_empty());
}

#[test]
fn a_section_without_lines_is_a_profile_without_text() {
    let profiles = read_aws_config("[profile empty]\n\n   \n[default]");
    assert_eq!(profiles.len(), 2);
    assert_eq!(profiles[0].name, "empty");
    assert_eq!(profiles[0].raw_content, "");
    assert_eq!(profiles[0].region, None);
    assert_eq!(profiles[1].name, "default");
    assert_eq!(profiles[1].raw_content, "");
}

#[test]
fn a_commented_setting_is_kept_in_the_text_and_not_read() {
    let profiles = read_aws_config("[default]\n#region = x\n ;region = y\nregion\n");
    assert_eq!(profiles[0].region, None);
    assert_eq!(profiles[0].raw_content, "#region = x\n ;region = y\nregion");
}

#[test]
fn headings_are_lines_in_brackets() {
    assert_eq!(read_heading(&chars("[default]")).map(|s| text(&s)), Some("default".to_string()));
    assert_eq!(read_heading(&chars("[profile a b]")).map(|s| text(&s)), Some("profile a b".to_string()));
    assert_eq!(read_heading(&chars("[]")).map(|s| text(&s)), Some(String::new()));
    assert_eq!(read_heading(&chars("[")), None);
    assert_eq!(read_heading(&chars("]")), None);
    assert_eq!(read_heading(&chars("")), None);
    assert_eq!(read_heading(&chars("[x] y")), None);
    assert_eq!(read_heading(&chars("x [y]")), None);
}

#[test]
fn the_word_profile_and_a_blank_are_dropped_from_a_section_name() {
    assert_eq!(text(&read_profile_name(&chars("profile dev"))), "dev");
    assert_eq!(text(&read_profile_name(&chars("default"))), "default");
    assert_eq!(text(&read_profile_name(&chars("dev"))), "dev");
    assert_eq!(text(&read_profile_name(&chars("profile "))), "");
    assert_eq!(text(&read_profile_name(&chars("profile"))), "profile");
    assert_eq!(text(&read_profile_name(&chars("profile  two"))), " two");
}

#[test]
fn a_setting_is_split_at_the_first_equals_sign() {
    let pair = |s: &str| read_setting(&chars(s)).map(|(k, v)| (text(&k), text(&v)));
    assert_eq!(pair("a = b"), Some(("a".to_string(), "b".to_string())));
    assert_eq!(pair("a=b=c"), Some(("a".to_string(), "b=c".to_string())));
    assert_eq!(pair("=b"), Some((String::new(), "b".to_string())));
    assert_eq!(pair("a="), Some(("a".to_string(), String::new())));
    assert_eq!(pair("a"), None);
    assert_eq!(pair("#a=b"), None);
    assert_eq!(pair(";a=b"), None);
    assert_eq!(pair(""), None);
}

#[test]
fn saving_a_known_profile_replaces_its_section() {
    let existing = "[default]\nregion = a\n\n[profile dev]\nregion = old\nrole_arn = r\n\n[profile other]\nregion = c\n";
    let saved = save_aws_profile(existing, &profile("dev", "region = new"));
    assert_eq!(saved, "[default]\nregion = a\n\n[profile dev]\nregion = new\n[profile other]\nregion = c");
}

#[test]
fn saving_a_profile_headed_by_its_bare_name_gives_it_the_usual_heading() {
    let saved = save_aws_profile("[dev]\nregion = old\n", &profile("dev", "region = new"));
    assert_eq!(saved, "[profile dev]\nregion = new");
}

#[test]
fn saving_the_default_profile_uses_its_own_heading() {
    let saved = save_aws_profile("[profile default]\nx = 1\n[default]\nregion = a\n", &profile("default", "region = b"));
    assert_eq!(saved, "[profile default]\nx = 1\n[default]\nregion = b");
}

#[test]
fn saving_a_new_profile_adds_it_after_an_empty_line() {
    let saved = save_aws_profile("[default]\nregion = a", &profile("dev", "region = b\nrole_arn = r"));
    assert_eq!(saved, "[default]\nregion = a\n\n[profile dev]\nregion = b\nrole_arn = r");
    let spaced = save_aws_profile("[default]\nregion = a\n\n", &profile("dev", "region = b"));
    assert_eq!(spaced, "[default]\nregion = a\n\n[profile dev]\nregion = b");
}

#[test]
fn saving_into_an_empty_text_gives_the_profile_alone() {
    assert_eq!(save_aws_profile("", &profile("dev", "region = b")), "[profile dev]\nregion = b");
    assert_eq!(save_aws_profile("", &profile("default", "")), "[default]");
}

#[test]
fn every_section_of_the_profile_is_replaced() {
    let saved = save_aws_profile("[profile dev]\na = 1\n[dev]\nb = 2\n[x]\nc = 3\n", &profile("dev", "r = 1"));
    assert_eq!(saved, "[profile dev]\nr = 1\n[profile dev]\nr = 1\n[x]\nc = 3");
}

#[test]
fn lines_before_the_first_heading_are_kept() {
    let saved = save_aws_profile("# note\n[default]\nregion = a\n", &profile("default", "region = z"));
    assert_eq!(saved, "# note\n[default]\nregion = z");
}

#[test]
fn what_was_saved_is_read_back() {
    let saved = save_aws_profile(CONFIG, &profile("dev", "region = eu-north-1\nsso_region = x"));
    let profiles = read_aws_config(&saved);
    let names: Vec<&str> = profiles.iter().map(|p| p.name.as_str()).collect();
    assert_eq!(names, vec!["default", "dev", "sso", "bare"]);
    assert_eq!(profiles[1].region.as_deref(), Some("eu-north-1"));
    assert_eq!(profiles[1].sso_region.as_deref(), Some("x"));
    assert_eq!(profiles[1].role_arn, None);
    assert_eq!(profiles[1].raw_content, "region = eu-north-1\nsso_region = x");
    assert_eq!(profiles[2].sso_account_id.as_deref(), Some("123"));
}

#[test]
fn deleting_a_profile_takes_out_its_sections() {
    let content = "[default]\nregion = a\n\n[profile dev]\nregion = b\n# note\n\n[profile other]\nregion = c\n[dev]\nx = 1\n";
    assert_eq!(delete_aws_profile(content, "dev"), "[default]\nregion = a\n\n[profile other]\nregion = c");
}

#[test]
fn deleting_an_unknown_profile_only_drops_white_space_at_the_end() {
    assert_eq!(delete_aws_profile("[default]\nregion = a\n\n", "dev"), "[default]\nregion = a");
    assert_eq!(delete_aws_profile("", "dev"), "");
}

#[test]
fn deleting_the_default_profile_leaves_a_section_named_profile_default() {
    let content = "[default]\na = 1\n[profile default]\nb = 2\n";
    assert_eq!(delete_aws_profile(content, "default"), "[profile default]\nb = 2");
}

#[test]
fn deleting_the_only_profile_leaves_nothing() {
    assert_eq!(delete_aws_profile("[profile dev]\nregion = b\n", "dev"), "");
    assert!(read_aws_config(&delete_aws_profile("[profile dev]\nregion = b\n", "dev")).is_empty());
}
