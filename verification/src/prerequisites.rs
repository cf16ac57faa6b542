//! The tools that must be installed beside the program, and what is
//! reported of each once it was looked for.

use crate::model::optional_text;
use crate::text::{
    chars_of, count_leading_spaces, is_space, is_whitespace, push_all, slice_of, string_of, trim,
    trim_start_of, trimmed,
};
use vstd::prelude::*;

verus! {

/// What is reported of one tool.
#[derive(Debug)]
pub struct PrerequisiteStatus {
    pub name: String,
    pub installed: bool,
    pub version: Option<String>,
    pub install_url: String,
    pub install_command: Option<String>,
}

/// The view of a [`PrerequisiteStatus`].
pub ghost struct PrerequisiteStatusView {
    pub name: Seq<char>,
    pub installed: bool,
    pub version: Option<Seq<char>>,
    pub install_url: Seq<char>,
    pub install_command: Option<Seq<char>>,
}

impl View for PrerequisiteStatus {
    type V = PrerequisiteStatusView;

    open spec fn view(&self) -> PrerequisiteStatusView {
        PrerequisiteStatusView {
            name: self.name@,
            installed: self.installed,
            version: optional_text(self.version),
            install_url: self.install_url@,
            install_command: optional_text(self.install_command),
        }
    }
}

/// What is reported of all the tools.
#[derive(Debug)]
pub struct PrerequisitesResult {
    pub all_installed: bool,
    pub prerequisites: Vec<PrerequisiteStatus>,
}

/// The tools that are looked for.
#[derive(Clone, Copy, Debug, PartialEq, Eq, Structural)]
pub enum Tool {
    AwsVault,
    AwsCli,
    SessionManagerPlugin,
}

/// The kind of system that the program runs on.
#[derive(Clone, Copy, Debug, PartialEq, Eq, Structural)]
pub enum Platform {
    MacOs,
    Linux,
    Windows,
    Other,
}

/// The name under which a tool is reported.
pub open spec fn name_of(tool: Tool) -> Seq<char> {
    match tool {
        Tool::AwsVault => "aws-vault"@,
        Tool::AwsCli => "AWS CLI"@,
        Tool::SessionManagerPlugin => "Session Manager Plugin"@,
    }
}

/// The name of a tool's program file.
pub open spec fn binary_of(tool: Tool) -> Seq<char> {
    match tool {
        Tool::AwsVault => "aws-vault"@,
        Tool::AwsCli => "aws"@,
        Tool::SessionManagerPlugin => "session-manager-plugin"@,
    }
}

/// Where to read how a tool is installed.
pub open spec fn install_url_of(tool: Tool) -> Seq<char> {
    match tool {
        Tool::AwsVault => "https://github.com/99designs/aws-vault#installing"@,
        Tool::AwsCli => "https://docs.aws.amazon.com/cli/latest/userguide/getting-started-install.html"@,
        Tool::SessionManagerPlugin => "https://docs.aws.amazon.com/systems-manager/latest/userguide/session-manager-working-with-install-plugin.html"@,
    }
}

/// The command that installs a tool on a system, where one can be given.
pub open spec fn install_command_of(tool: Tool, platform: Platform) -> Option<Seq<char>> {
    match tool {
        Tool::AwsVault => match platform {
            Platform::MacOs => Some("brew install aws-vault"@),
            Platform::Linux => Some("See install URL for Linux packages"@),
            _ => None,
        },
        Tool::AwsCli => match platform {
            Platform::MacOs => Some("brew install awscli"@),
            Platform::Linux => Some(
                "curl \"https://awscli.amazonaws.com/awscli-exe-linux-x86_64.zip\" -o awscliv2.zip && unzip awscliv2.zip && sudo ./aws/install"@,
            ),
            _ => None,
        },
        Tool::SessionManagerPlugin => None,
    }
}

/// The number of characters at the start of the text that are not white
/// space.
pub open spec fn word_length(s: Seq<char>) -> nat
    decreases s.len(),
{
    if s.len() > 0 && !is_space(s[0]) {
        1 + word_length(s.drop_first())
    } else {
        0
    }
}

/// The first word of a text: its first run of characters that are not
/// white space, or the empty text where it has none.
pub open spec fn first_word_of(s: Seq<char>) -> Seq<char> {
    trim_start_of(s).take(word_length(trim_start_of(s)) as int)
}

/// The version of a tool, read from what the tool printed when asked for
/// it: the first word for the command-line interface, which prints more
/// than its own version; for the others the whole text, without the white
/// space around it.
pub open spec fn version_of(tool: Tool, output: Seq<char>) -> Seq<char> {
    match tool {
        Tool::AwsCli => first_word_of(output),
        _ => trimmed(output),
    }
}

/// What is reported of a tool. `output` is what the tool printed when it
/// was asked for its version, or `None` where the tool was not found or
/// did not answer with success.
pub open spec fn status_of(
    tool: Tool,
    output: Option<Seq<char>>,
    platform: Platform,
) -> PrerequisiteStatusView {
    PrerequisiteStatusView {
        name: name_of(tool),
        installed: output is Some,
        version: match output {
            Some(text) => Some(version_of(tool, text)),
            None => None,
        },
        install_url: install_url_of(tool),
        install_command: install_command_of(tool, platform),
    }
}

/// The places where a tool is looked for beside the search path, the last
/// of them below the home directory.
pub open spec fn search_places_of(home: Seq<char>) -> Seq<Seq<char>> {
    seq![
        "/usr/local/bin"@,
        "/opt/homebrew/bin"@,
        "/usr/bin"@,
        "/bin"@,
        home + "/.local/bin"@,
    ]
}

/// The places where a tool is looked for beside the search path.
pub fn search_places(home: &str) -> (places: Vec<String>)
    ensures
        places@.map_values(|p: String| p@) == search_places_of(home@),
{
    let mut local = chars_of(home);
    let tail = chars_of("/.local/bin");
    push_all(&mut local, &tail);
    let mut places: Vec<String> = Vec::new();
    places.push("/usr/local/bin".to_owned());
    places.push("/opt/homebrew/bin".to_owned());
    places.push("/usr/bin".to_owned());
    places.push("/bin".to_owned());
    places.push(string_of(&local));
    proof {
        assert(places@.map_values(|p: String| p@) =~= search_places_of(home@));
    }
    places
}

/// The first word of a text.
pub fn first_word(chars: &Vec<char>) -> (word: Vec<char>)
    ensures
        word@ == first_word_of(chars@),
{
    let from = count_leading_spaces(chars);
    let ghost rest = chars@.skip(from as int);
    let mut to: usize = from;
    proof {
        assert(rest.skip(0) =~= rest);
    }
    while to < chars.len() && !is_whitespace(chars[to])
        invariant
            from <= to <= chars.len(),
            rest == chars@.skip(from as int),
            word_length(rest) == (to - from) + word_length(rest.skip(to - from)),
        decreases chars.len() - to,
    {
        proof {
            let tail = rest.skip(to - from);
            assert(tail[0] == chars@[to as int]);
            assert(tail.drop_first() =~= rest.skip(to - from + 1));
        }
        to += 1;
    }
    proof {
        let tail = rest.skip(to - from);
        if to < chars.len() {
            assert(tail[0] == chars@[to as int]);
        }
        assert(chars@.subrange(from as int, to as int) =~= rest.take(to - from));
    }
    slice_of(chars, from, to)
}

impl Tool {
    /// The name under which the tool is reported.
    pub fn name(&self) -> (name: &'static str)
        ensures
            name@ == name_of(*self),
    {
        match self {
            Tool::AwsVault => "aws-vault",
            Tool::AwsCli => "AWS CLI",
            Tool::SessionManagerPlugin => "Session Manager Plugin",
        }
    }

    /// The name of the tool's program file.
    pub fn binary(&self) -> (binary: &'static str)
        ensures
            binary@ == binary_of(*self),
    {
        match self {
            Tool::AwsVault => "aws-vault",
            Tool::AwsCli => "aws",
            Tool::SessionManagerPlugin => "session-manager-plugin",
        }
    }

    /// Where to read how the tool is installed.
    pub fn install_url(&self) -> (url: &'static str)
        ensures
            url@ == install_url_of(*self),
    {
        match self {
            Tool::AwsVault => "https://github.com/99designs/aws-vault#installing",
            Tool::AwsCli => "https://docs.aws.amazon.com/cli/latest/userguide/getting-started-install.html",
            Tool::SessionManagerPlugin => "https://docs.aws.amazon.com/systems-manager/latest/userguide/session-manager-working-with-install-plugin.html",
        }
    }

    /// The command that installs the tool on a system, where one can be
    /// given.
    pub fn install_command(&self, platform: Platform) -> (command: Option<String>)
        ensures
            optional_text(command) == install_command_of(*self, platform),
    {
        match self {
            Tool::AwsVault => match platform {
                Platform::MacOs => Some("brew install aws-vault".to_owned()),
                Platform::Linux => Some("See install URL for Linux packages".to_owned()),
                _ => None,
            },
            Tool::AwsCli => match platform {
                Platform::MacOs => Some("brew install awscli".to_owned()),
                Platform::Linux => Some(
                    "curl \"https://awscli.amazonaws.com/awscli-exe-linux-x86_64.zip\" -o awscliv2.zip && unzip awscliv2.zip && sudo ./aws/install".to_owned(),
                ),
                _ => None,
            },
            Tool::SessionManagerPlugin => None,
        }
    }

    /// The version of the tool, read from what it printed when asked.
    pub fn version(&self, output: &str) -> (version: String)
        ensures
            version@ == version_of(*self, output@),
    {
        let chars = chars_of(output);
        let read = match self {
            Tool::AwsCli => first_word(&chars),
            _ => trim(&chars),
        };
        string_of(&read)
    }
}

/// What is reported of a tool. `output` is what the tool printed when it
/// was asked for its version, or `None` where the tool was not found or
/// did not answer with success.
pub fn prerequisite_status(tool: Tool, output: &Option<String>, platform: Platform) -> (status:
    PrerequisiteStatus)
    ensures
        status@ == status_of(tool, optional_text(*output), platform),
{
    let version = match output {
        Some(text) => Some(tool.version(text.as_str())),
        None => None,
    };
    PrerequisiteStatus {
        name: tool.name().to_owned(),
        installed: output.is_some(),
        version,
        install_url: tool.install_url().to_owned(),
        install_command: tool.install_command(platform),
    }
}

/// What is reported of all the tools, in their fixed order, given what each
/// printed when it was asked for its version. All are installed where each
/// one is.
pub fn check_prerequisites(
    aws_vault: &Option<String>,
    aws_cli: &Option<String>,
    session_manager_plugin: &Option<String>,
    platform: Platform,
) -> (result: PrerequisitesResult)
    ensures
        result.prerequisites@.map_values(|s: PrerequisiteStatus| s@) == seq![
            status_of(Tool::AwsVault, optional_text(*aws_vault), platform),
            status_of(Tool::AwsCli, optional_text(*aws_cli), platform),
            status_of(Tool::SessionManagerPlugin, optional_text(*session_manager_plugin), platform),
        ],
        result.all_installed == (aws_vault is Some && aws_cli is Some && session_manager_plugin
            is Some),
{
    let mut prerequisites: Vec<PrerequisiteStatus> = Vec::new();
    prerequisites.push(prerequisite_status(Tool::AwsVault, aws_vault, platform));
    prerequisites.push(prerequisite_status(Tool::AwsCli, aws_cli, platform));
    prerequisites.push(
        prerequisite_status(Tool::SessionManagerPlugin, session_manager_plugin, platform),
    );
    let all_installed = prerequisites[0].installed && prerequisites[1].installed
        && prerequisites[2].installed;
    proof {
        assert(prerequisites@.map_values(|s: PrerequisiteStatus| s@) =~= seq![
            status_of(Tool::AwsVault, optional_text(*aws_vault), platform),
            status_of(Tool::AwsCli, optional_text(*aws_cli), platform),
            status_of(Tool::SessionManagerPlugin, optional_text(*session_manager_plugin), platform),
        ]);
    }
    PrerequisitesResult { all_installed, prerequisites }
}

} // verus!
