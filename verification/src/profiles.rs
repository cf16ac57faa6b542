//! The profile configuration text: sections headed `[default]` or
//! `[profile <name>]`, each followed by its settings.

use crate::model::optional_text;
use crate::text::{
    chars_of, find_from, index_of, lemma_index_of, lines, lines_of, push_all, same_text, slice_of,
    starts_with, string_of, texts, trim, trim_end, trim_end_of, trimmed,
};
use vstd::prelude::*;

verus! {

/// Whether a section heading names the profile: the default profile is
/// headed `default` only, any other by its name, alone or after the word
/// `profile` and a blank.
pub open spec fn section_names_profile(section: Seq<char>, profile_name: Seq<char>) -> bool {
    if profile_name == "default"@ {
        section == "default"@
    } else {
        section == "profile "@ + profile_name || section == profile_name
    }
}

/// Whether a section heading names the profile, on characters.
pub fn heading_names_profile(section: &Vec<char>, profile_name: &Vec<char>) -> (b: bool)
    ensures
        b == section_names_profile(section@, profile_name@),
{
    let default_name = chars_of("default");
    if same_text(profile_name, &default_name) {
        same_text(section, &default_name)
    } else {
        let mut long_form = chars_of("profile ");
        push_all(&mut long_form, profile_name);
        same_text(section, &long_form) || same_text(section, profile_name)
    }
}

/// Whether a section heading names the profile.
pub fn section_matches_profile(section: &str, profile_name: &str) -> (b: bool)
    ensures
        b == section_names_profile(section@, profile_name@),
{
    let section_chars = chars_of(section);
    let name_chars = chars_of(profile_name);
    heading_names_profile(&section_chars, &name_chars)
}

/// A profile of the configuration text: its name, the settings that the
/// library knows by name, and the text of the section as it stands.
#[derive(Debug)]
pub struct AwsProfile {
    pub name: String,
    pub region: Option<String>,
    pub source_profile: Option<String>,
    pub role_arn: Option<String>,
    pub mfa_serial: Option<String>,
    pub sso_start_url: Option<String>,
    pub sso_region: Option<String>,
    pub sso_account_id: Option<String>,
    pub sso_role_name: Option<String>,
    pub raw_content: String,
}

/// The settings of a section that the library knows by name.
pub ghost struct Settings {
    pub region: Option<Seq<char>>,
    pub source_profile: Option<Seq<char>>,
    pub role_arn: Option<Seq<char>>,
    pub mfa_serial: Option<Seq<char>>,
    pub sso_start_url: Option<Seq<char>>,
    pub sso_region: Option<Seq<char>>,
    pub sso_account_id: Option<Seq<char>>,
    pub sso_role_name: Option<Seq<char>>,
}

/// The view of an [`AwsProfile`].
pub ghost struct AwsProfileView {
    pub name: Seq<char>,
    pub settings: Settings,
    pub raw_content: Seq<char>,
}

impl View for AwsProfile {
    type V = AwsProfileView;

    open spec fn view(&self) -> AwsProfileView {
        AwsProfileView {
            name: self.name@,
            settings: Settings {
                region: optional_text(self.region),
                source_profile: optional_text(self.source_profile),
                role_arn: optional_text(self.role_arn),
                mfa_serial: optional_text(self.mfa_serial),
                sso_start_url: optional_text(self.sso_start_url),
                sso_region: optional_text(self.sso_region),
                sso_account_id: optional_text(self.sso_account_id),
                sso_role_name: optional_text(self.sso_role_name),
            },
            raw_content: self.raw_content@,
        }
    }
}

/// No setting.
pub open spec fn no_settings() -> Settings {
    Settings {
        region: None,
        source_profile: None,
        role_arn: None,
        mfa_serial: None,
        sso_start_url: None,
        sso_region: None,
        sso_account_id: None,
        sso_role_name: None,
    }
}

/// The settings after one was read: a key that the library knows takes the
/// value, any other key changes nothing.
pub open spec fn with_setting(settings: Settings, key: Seq<char>, value: Seq<char>) -> Settings {
    if key == "region"@ {
        Settings { region: Some(value), ..settings }
    } else if key == "source_profile"@ {
        Settings { source_profile: Some(value), ..settings }
    } else if key == "role_arn"@ {
        Settings { role_arn: Some(value), ..settings }
    } else if key == "mfa_serial"@ {
        Settings { mfa_serial: Some(value), ..settings }
    } else if key == "sso_start_url"@ {
        Settings { sso_start_url: Some(value), ..settings }
    } else if key == "sso_region"@ {
        Settings { sso_region: Some(value), ..settings }
    } else if key == "sso_account_id"@ {
        Settings { sso_account_id: Some(value), ..settings }
    } else if key == "sso_role_name"@ {
        Settings { sso_role_name: Some(value), ..settings }
    } else {
        settings
    }
}

/// The section that a line heads, the line taken without the white space
/// around it: what stands between an opening bracket at its start and a
/// closing bracket at its end. `None` for a line that heads no section.
pub open spec fn heading_of(line: Seq<char>) -> Option<Seq<char>> {
    if line.len() >= 2 && line[0] == '[' && line.last() == ']' {
        Some(line.subrange(1, line.len() - 1))
    } else {
        None
    }
}

/// The name of the profile that a section is about: what follows the word
/// `profile` and a blank, or the section's whole name.
pub open spec fn profile_name_of(section: Seq<char>) -> Seq<char> {
    if "profile "@.is_prefix_of(section) {
        section.skip("profile "@.len() as int)
    } else {
        section
    }
}

/// The setting that a line makes, the line taken without the white space
/// around it: key and value on the two sides of the first equals sign, each
/// without the white space around it. `None` for a comment, which starts
/// with `#` or `;`, and for a line without an equals sign.
pub open spec fn setting_of(line: Seq<char>) -> Option<(Seq<char>, Seq<char>)> {
    let at = index_of(line, '=');
    if line.len() > 0 && (line[0] == '#' || line[0] == ';') {
        None
    } else if 0 <= at < line.len() {
        Some((trimmed(line.take(at)), trimmed(line.skip(at + 1))))
    } else {
        None
    }
}

/// The section that is being read: the name of its profile, or `None`
/// before the first heading; its lines so far; its settings so far.
pub ghost struct Draft {
    pub name: Option<Seq<char>>,
    pub content: Seq<char>,
    pub settings: Settings,
}

/// What has been read of a configuration text: the profiles that are
/// complete, and the section that is being read.
pub ghost struct Scan {
    pub profiles: Seq<AwsProfileView>,
    pub draft: Draft,
}

/// The profiles once the section that is being read is complete: its text
/// is kept without the white space around it.
pub open spec fn completed(scan: Scan) -> Seq<AwsProfileView> {
    match scan.draft.name {
        Some(name) => scan.profiles.push(
            AwsProfileView {
                name,
                settings: scan.draft.settings,
                raw_content: trimmed(scan.draft.content),
            },
        ),
        None => scan.profiles,
    }
}

/// What has been read after one more line. A heading completes the section
/// before it and begins the next. Any other line that is not blank belongs
/// to the section that is being read, comments too, and may make a setting;
/// before the first heading it is passed over.
pub open spec fn scan_line(scan: Scan, line: Seq<char>) -> Scan {
    let bare = trimmed(line);
    match heading_of(bare) {
        Some(section) => Scan {
            profiles: completed(scan),
            draft: Draft {
                name: Some(profile_name_of(section)),
                content: Seq::empty(),
                settings: no_settings(),
            },
        },
        None => if scan.draft.name is Some && bare.len() > 0 {
            Scan {
                profiles: scan.profiles,
                draft: Draft {
                    name: scan.draft.name,
                    content: (scan.draft.content + line).push('\n'),
                    settings: match setting_of(bare) {
                        Some((key, value)) => with_setting(scan.draft.settings, key, value),
                        None => scan.draft.settings,
                    },
                },
            }
        } else {
            scan
        },
    }
}

/// What has been read after the given lines, the first one first.
pub open spec fn scan_lines(lines: Seq<Seq<char>>) -> Scan
    decreases lines.len(),
{
    if lines.len() == 0 {
        Scan {
            profiles: Seq::empty(),
            draft: Draft { name: None, content: Seq::empty(), settings: no_settings() },
        }
    } else {
        scan_line(scan_lines(lines.drop_last()), lines.last())
    }
}

/// The profiles of a configuration text, in the order of their sections.
pub open spec fn profiles_of(content: Seq<char>) -> Seq<AwsProfileView> {
    completed(scan_lines(lines_of(content)))
}

/// The views of profiles.
pub open spec fn profile_views(profiles: Seq<AwsProfile>) -> Seq<AwsProfileView> {
    profiles.map_values(|p: AwsProfile| p@)
}

/// The settings of the section that is being read.
struct SettingsDraft {
    region: Option<Vec<char>>,
    source_profile: Option<Vec<char>>,
    role_arn: Option<Vec<char>>,
    mfa_serial: Option<Vec<char>>,
    sso_start_url: Option<Vec<char>>,
    sso_region: Option<Vec<char>>,
    sso_account_id: Option<Vec<char>>,
    sso_role_name: Option<Vec<char>>,
}

/// The text that optional characters hold.
pub open spec fn optional_chars(o: Option<Vec<char>>) -> Option<Seq<char>> {
    match o {
        Some(chars) => Some(chars@),
        None => None,
    }
}

impl View for SettingsDraft {
    type V = Settings;

    closed spec fn view(&self) -> Settings {
        Settings {
            region: optional_chars(self.region),
            source_profile: optional_chars(self.source_profile),
            role_arn: optional_chars(self.role_arn),
            mfa_serial: optional_chars(self.mfa_serial),
            sso_start_url: optional_chars(self.sso_start_url),
            sso_region: optional_chars(self.sso_region),
            sso_account_id: optional_chars(self.sso_account_id),
            sso_role_name: optional_chars(self.sso_role_name),
        }
    }
}

/// No setting.
fn empty_settings() -> (settings: SettingsDraft)
    ensures
        settings@ == no_settings(),
{
    SettingsDraft {
        region: None,
        source_profile: None,
        role_arn: None,
        mfa_serial: None,
        sso_start_url: None,
        sso_region: None,
        sso_account_id: None,
        sso_role_name: None,
    }
}

/// Whether the characters spell the word.
fn spells(chars: &Vec<char>, word: &str) -> (b: bool)
    ensures
        b == (chars@ == word@),
{
    let word_chars = chars_of(word);
    same_text(chars, &word_chars)
}

/// Takes in one setting.
fn put_setting(settings: &mut SettingsDraft, key: &Vec<char>, value: Vec<char>)
    ensures
        final(settings)@ == with_setting(old(settings)@, key@, value@),
{
    if spells(key, "region") {
        settings.region = Some(value);
    } else if spells(key, "source_profile") {
        settings.source_profile = Some(value);
    } else if spells(key, "role_arn") {
        settings.role_arn = Some(value);
    } else if spells(key, "mfa_serial") {
        settings.mfa_serial = Some(value);
    } else if spells(key, "sso_start_url") {
        settings.sso_start_url = Some(value);
    } else if spells(key, "sso_region") {
        settings.sso_region = Some(value);
    } else if spells(key, "sso_account_id") {
        settings.sso_account_id = Some(value);
    } else if spells(key, "sso_role_name") {
        settings.sso_role_name = Some(value);
    }
}

/// The section that a line heads, the line taken without the white space
/// around it.
pub fn read_heading(line: &Vec<char>) -> (section: Option<Vec<char>>)
    ensures
        optional_chars(section) == heading_of(line@),
{
    if line.len() >= 2 && line[0] == '[' && line[line.len() - 1] == ']' {
        Some(slice_of(line, 1, line.len() - 1))
    } else {
        None
    }
}

/// The name of the profile that a section is about.
pub fn read_profile_name(section: &Vec<char>) -> (name: Vec<char>)
    ensures
        name@ == profile_name_of(section@),
{
    let lead = chars_of("profile ");
    if starts_with(section, &lead) {
        let name = slice_of(section, lead.len(), section.len());
        name
    } else {
        slice_of(section, 0, section.len())
    }
}

/// The setting that a line makes, the line taken without the white space
/// around it.
pub fn read_setting(line: &Vec<char>) -> (setting: Option<(Vec<char>, Vec<char>)>)
    ensures
        match setting {
            Some((key, value)) => setting_of(line@) == Some((key@, value@)),
            None => setting_of(line@) is None,
        },
{
    if line.len() > 0 && (line[0] == '#' || line[0] == ';') {
        return None;
    }
    proof {
        assert(line@.skip(0) =~= line@);
        lemma_index_of(line@, '=');
    }
    let at = find_from(line, 0, '=');
    if at < line.len() {
        let left = slice_of(line, 0, at);
        let right = slice_of(line, at + 1, line.len());
        Some((trim(&left), trim(&right)))
    } else {
        None
    }
}

/// The string that optional characters spell.
fn string_of_optional(o: &Option<Vec<char>>) -> (s: Option<String>)
    ensures
        optional_text(s) == optional_chars(*o),
{
    match o {
        Some(chars) => Some(string_of(chars)),
        None => None,
    }
}

/// The profile of a section that is complete.
fn finish_profile(name: &Vec<char>, content: &Vec<char>, settings: &SettingsDraft) -> (profile:
    AwsProfile)
    ensures
        profile@ == (AwsProfileView {
            name: name@,
            settings: settings@,
            raw_content: trimmed(content@),
        }),
{
    let raw = trim(content);
    AwsProfile {
        name: string_of(name),
        region: string_of_optional(&settings.region),
        source_profile: string_of_optional(&settings.source_profile),
        role_arn: string_of_optional(&settings.role_arn),
        mfa_serial: string_of_optional(&settings.mfa_serial),
        sso_start_url: string_of_optional(&settings.sso_start_url),
        sso_region: string_of_optional(&settings.sso_region),
        sso_account_id: string_of_optional(&settings.sso_account_id),
        sso_role_name: string_of_optional(&settings.sso_role_name),
        raw_content: string_of(&raw),
    }
}

/// Reads the profiles of a configuration text, in the order of their
/// sections.
pub fn read_aws_config(content: &str) -> (profiles: Vec<AwsProfile>)
    ensures
        profile_views(profiles@) == profiles_of(content@),
{
    let chars = chars_of(content);
    let all = lines(&chars);
    let ghost wanted = lines_of(content@);
    let mut profiles: Vec<AwsProfile> = Vec::new();
    let mut name: Option<Vec<char>> = None;
    let mut text: Vec<char> = Vec::new();
    let mut settings = empty_settings();
    let mut i: usize = 0;
    proof {
        assert(wanted.take(0) =~= Seq::<Seq<char>>::empty());
        assert(profile_views(profiles@) =~= Seq::<AwsProfileView>::empty());
    }
    while i < all.len()
        invariant
            i <= all.len(),
            texts(all@) == wanted,
            scan_lines(wanted.take(i as int)) == (Scan {
                profiles: profile_views(profiles@),
                draft: Draft { name: optional_chars(name), content: text@, settings: settings@ },
            }),
        decreases all.len() - i,
    {
        let line = &all[i];
        let ghost before = scan_lines(wanted.take(i as int));
        proof {
            assert(line@ == wanted[i as int]);
            assert(wanted.take(i + 1).drop_last() =~= wanted.take(i as int));
            assert(wanted.take(i + 1).last() == wanted[i as int]);
        }
        let bare = trim(line);
        match read_heading(&bare) {
            Some(section) => {
                match &name {
                    Some(current) => {
                        let profile = finish_profile(current, &text, &settings);
                        let ghost earlier = profile_views(profiles@);
                        profiles.push(profile);
                        proof {
                            assert(profile_views(profiles@) =~= earlier.push(profile@));
                        }
                    },
                    None => {},
                }
                name = Some(read_profile_name(&section));
                text = Vec::new();
                settings = empty_settings();
            },
            None => {
                if name.is_some() && bare.len() > 0 {
                    push_all(&mut text, line);
                    text.push('\n');
                    match read_setting(&bare) {
                        Some((key, value)) => {
                            put_setting(&mut settings, &key, value);
                        },
                        None => {},
                    }
                }
            },
        }
        i += 1;
    }
    proof {
        assert(wanted.take(all.len() as int) =~= wanted);
    }
    match &name {
        Some(current) => {
            let profile = finish_profile(current, &text, &settings);
            let ghost earlier = profile_views(profiles@);
            profiles.push(profile);
            proof {
                assert(profile_views(profiles@) =~= earlier.push(profile@));
            }
        },
        None => {},
    }
    profiles
}

/// The heading of a profile's section, brackets included: the default
/// profile is headed by its name alone, any other by the word `profile`, a
/// blank and its name.
pub open spec fn header_of(profile_name: Seq<char>) -> Seq<char> {
    if profile_name == "default"@ {
        "[default]"@
    } else {
        ("[profile "@ + profile_name).push(']')
    }
}

/// The section of a profile as it is written: its heading on a line, then
/// its text, then a line feed.
pub open spec fn block_of(profile_name: Seq<char>, raw_content: Seq<char>) -> Seq<char> {
    (header_of(profile_name).push('\n') + raw_content).push('\n')
}

/// What has been written of a configuration text that is being rewritten:
/// the text so far, whether a section of the profile was met, and whether
/// the lines at hand belong to such a section.
pub ghost struct Rewrite {
    pub out: Seq<char>,
    pub found: bool,
    pub in_target: bool,
}

/// What has been written after one more line. The heading of a section of
/// the profile is replaced by `block`, and the lines of that section are
/// left out; every other line is kept, with a line feed.
pub open spec fn rewrite_line(
    state: Rewrite,
    line: Seq<char>,
    profile_name: Seq<char>,
    block: Seq<char>,
) -> Rewrite {
    match heading_of(trimmed(line)) {
        Some(section) => if section_names_profile(section, profile_name) {
            Rewrite { out: state.out + block, found: true, in_target: true }
        } else {
            Rewrite { out: (state.out + line).push('\n'), found: state.found, in_target: false }
        },
        None => if state.in_target {
            state
        } else {
            Rewrite { out: (state.out + line).push('\n'), ..state }
        },
    }
}

/// What has been written after the given lines, the first one first.
pub open spec fn rewrite_lines(
    lines: Seq<Seq<char>>,
    profile_name: Seq<char>,
    block: Seq<char>,
) -> Rewrite
    decreases lines.len(),
{
    if lines.len() == 0 {
        Rewrite { out: Seq::empty(), found: false, in_target: false }
    } else {
        rewrite_line(
            rewrite_lines(lines.drop_last(), profile_name, block),
            lines.last(),
            profile_name,
            block,
        )
    }
}

/// Whether the text ends in an empty line.
pub open spec fn ends_with_empty_line(text: Seq<char>) -> bool {
    text.len() >= 2 && text[text.len() - 1] == '\n' && text[text.len() - 2] == '\n'
}

/// The configuration text with the profile saved: each section of the
/// profile replaced by the profile as it is written; where there is no such
/// section, the profile added at the end, after an empty line. White space
/// at the end is dropped.
pub open spec fn with_profile(
    existing: Seq<char>,
    profile_name: Seq<char>,
    raw_content: Seq<char>,
) -> Seq<char> {
    let block = block_of(profile_name, raw_content);
    let state = rewrite_lines(lines_of(existing), profile_name, block);
    if state.found {
        trim_end_of(state.out)
    } else if state.out.len() > 0 && !ends_with_empty_line(state.out) {
        trim_end_of(state.out.push('\n') + block)
    } else {
        trim_end_of(state.out + block)
    }
}

/// The configuration text without the sections of the profile. White space
/// at the end is dropped.
pub open spec fn without_profile(content: Seq<char>, profile_name: Seq<char>) -> Seq<char> {
    trim_end_of(rewrite_lines(lines_of(content), profile_name, Seq::empty()).out)
}

/// The heading of a profile's section, brackets included.
pub fn profile_header(profile_name: &Vec<char>) -> (header: Vec<char>)
    ensures
        header@ == header_of(profile_name@),
{
    if spells(profile_name, "default") {
        chars_of("[default]")
    } else {
        let mut header = chars_of("[profile ");
        push_all(&mut header, profile_name);
        header.push(']');
        header
    }
}

/// Rewrites a configuration text line by line, as `rewrite_lines` has it.
fn rewrite(content: &Vec<char>, profile_name: &Vec<char>, block: &Vec<char>) -> (result: (
    Vec<char>,
    bool,
))
    ensures
        result.0@ == rewrite_lines(lines_of(content@), profile_name@, block@).out,
        result.1 == rewrite_lines(lines_of(content@), profile_name@, block@).found,
{
    let all = lines(content);
    let ghost wanted = lines_of(content@);
    let mut out: Vec<char> = Vec::new();
    let mut found = false;
    let mut in_target = false;
    let mut i: usize = 0;
    proof {
        assert(wanted.take(0) =~= Seq::<Seq<char>>::empty());
    }
    while i < all.len()
        invariant
            i <= all.len(),
            texts(all@) == wanted,
            rewrite_lines(wanted.take(i as int), profile_name@, block@) == (Rewrite {
                out: out@,
                found,
                in_target,
            }),
        decreases all.len() - i,
    {
        let line = &all[i];
        proof {
            assert(line@ == wanted[i as int]);
            assert(wanted.take(i + 1).drop_last() =~= wanted.take(i as int));
            assert(wanted.take(i + 1).last() == wanted[i as int]);
        }
        let bare = trim(line);
        match read_heading(&bare) {
            Some(section) => {
                if heading_names_profile(&section, profile_name) {
                    push_all(&mut out, block);
                    found = true;
                    in_target = true;
                } else {
                    push_all(&mut out, line);
                    out.push('\n');
                    in_target = false;
                }
            },
            None => {
                if !in_target {
                    push_all(&mut out, line);
                    out.push('\n');
                }
            },
        }
        i += 1;
    }
    proof {
        assert(wanted.take(all.len() as int) =~= wanted);
    }
    (out, found)
}

/// Saves a profile into a configuration text, as `with_profile` has it.
pub fn save_aws_profile(existing: &str, profile: &AwsProfile) -> (content: String)
    ensures
        content@ == with_profile(existing@, profile.name@, profile.raw_content@),
{
    let name = chars_of(profile.name.as_str());
    let raw = chars_of(profile.raw_content.as_str());
    let mut block = profile_header(&name);
    block.push('\n');
    push_all(&mut block, &raw);
    block.push('\n');
    let chars = chars_of(existing);
    let (mut out, found) = rewrite(&chars, &name, &block);
    if !found {
        let n = out.len();
        if n > 0 && !(n >= 2 && out[n - 1] == '\n' && out[n - 2] == '\n') {
            out.push('\n');
        }
        push_all(&mut out, &block);
    }
    let kept = trim_end(&out);
    string_of(&kept)
}

/// Takes the sections of a profile out of a configuration text, as
/// `without_profile` has it.
pub fn delete_aws_profile(content: &str, profile_name: &str) -> (remaining: String)
    ensures
        remaining@ == without_profile(content@, profile_name@),
{
    let name = chars_of(profile_name);
    let chars = chars_of(content);
    let nothing: Vec<char> = Vec::new();
    let (out, _found) = rewrite(&chars, &name, &nothing);
    let kept = trim_end(&out);
    string_of(&kept)
}

} // verus!
