//! The commands that the adapter understands, and how each goes on the
//! wire: as one JSON object with the command's identifier, its action and
//! its parameters side by side, on a line of its own.

use crate::model::optional_text;
use crate::wire::{
    json_object, json_of_text, json_of_texts, json_of_u64, json_rendering, number_value,
    object_value, render, text_value, text_views, texts_value, field_views,
};
use vstd::prelude::*;

verus! {

/// How long the adapter gets to announce readiness, in milliseconds.
pub const READINESS_TIMEOUT_MS: u64 = 10000;

/// The value of one parameter of a command.
#[derive(Debug)]
pub enum Param {
    /// A text, or nothing: nothing goes on the wire as `null`.
    Text(Option<String>),
    /// A list of texts.
    Texts(Vec<String>),
}

/// The view of a [`Param`].
pub ghost enum ParamView {
    Text(Option<Seq<char>>),
    Texts(Seq<Seq<char>>),
}

impl View for Param {
    type V = ParamView;

    open spec fn view(&self) -> ParamView {
        match self {
            Param::Text(text) => ParamView::Text(optional_text(*text)),
            Param::Texts(texts) => ParamView::Texts(text_views(texts@)),
        }
    }
}

/// The views of parameters with their names.
pub open spec fn param_views(params: Seq<(String, Param)>) -> Seq<(Seq<char>, ParamView)> {
    params.map_values(|p: (String, Param)| (p.0@, p.1@))
}

/// The JSON value of a parameter.
pub open spec fn param_value(param: ParamView) -> serde_json::Value {
    match param {
        ParamView::Text(text) => json_of_text(text),
        ParamView::Texts(texts) => json_of_texts(texts),
    }
}

/// The members of the object that a command goes on the wire as: the
/// identifier, the action, then the parameters, each under its name.
pub open spec fn command_members(
    id: u64,
    action: Seq<char>,
    params: Seq<(Seq<char>, ParamView)>,
) -> Seq<(Seq<char>, serde_json::Value)> {
    seq![("id"@, json_of_u64(id)), ("action"@, json_of_text(Some(action)))] + params.map_values(
        |p: (Seq<char>, ParamView)| (p.0, param_value(p.1)),
    )
}

/// The line that a command goes on the wire as: its object rendered as
/// JSON, then a line feed. `None` where the object cannot be rendered.
pub open spec fn command_line(
    id: u64,
    action: Seq<char>,
    params: Seq<(Seq<char>, ParamView)>,
) -> Option<Seq<char>> {
    match json_rendering(json_object(command_members(id, action, params))) {
        Some(text) => Some(text.push('\n')),
        None => None,
    }
}

/// The JSON value of a parameter.
fn value_of_param(param: &Param) -> (value: serde_json::Value)
    ensures
        value == param_value(param@),
{
    match param {
        Param::Text(text) => match text {
            Some(t) => text_value(Some(t.as_str())),
            None => text_value(None),
        },
        Param::Texts(texts) => texts_value(texts),
    }
}

/// Renders a command for the wire, as `command_line` has it.
pub fn encode_command(id: u64, action: &str, params: &Vec<(String, Param)>) -> (line: Option<String>)
    ensures
        optional_text(line) == command_line(id, action@, param_views(params@)),
{
    let mut members: Vec<(String, serde_json::Value)> = Vec::new();
    members.push(("id".to_owned(), number_value(id)));
    members.push(("action".to_owned(), text_value(Some(action))));
    let ghost head = field_views(members@);
    let ghost wanted = param_views(params@).map_values(
        |p: (Seq<char>, ParamView)| (p.0, param_value(p.1)),
    );
    let mut i: usize = 0;
    proof {
        assert(head =~= seq![("id"@, json_of_u64(id)), ("action"@, json_of_text(Some(action@)))]);
        assert(field_views(members@) =~= head + wanted.take(0));
    }
    while i < params.len()
        invariant
            i <= params.len(),
            wanted == param_views(params@).map_values(
                |p: (Seq<char>, ParamView)| (p.0, param_value(p.1)),
            ),
            field_views(members@) == head + wanted.take(i as int),
        decreases params.len() - i,
    {
        let ghost before = members@;
        let name = params[i].0.clone();
        let value = value_of_param(&params[i].1);
        members.push((name, value));
        proof {
            assert(members@ == before.push((name, value)));
            assert(wanted[i as int] == (name@, value));
            assert(field_views(members@) =~= field_views(before).push((name@, value)));
            assert((head + wanted.take(i as int)).push(wanted[i as int]) =~= head + wanted.take(
                i + 1,
            ));
        }
        i += 1;
    }
    proof {
        assert(wanted.take(params.len() as int) =~= wanted);
        assert(field_views(members@) == command_members(id, action@, param_views(params@)));
    }
    let object = object_value(members);
    match render(&object) {
        Some(text) => {
            let mut line = crate::text::chars_of(text.as_str());
            line.push('\n');
            Some(crate::text::string_of(&line))
        },
        None => None,
    }
}

/// A command to the adapter.
#[derive(Debug)]
pub enum Command {
    /// Lists the projects.
    ListProjects,
    /// Lists the profiles of a project.
    ListProfiles { project_key: String },
    /// Establishes a session. The adapter picks a local port where none is
    /// asked for, and keeps off the ports in use.
    Connect {
        project_key: String,
        profile: String,
        local_port: Option<String>,
        used_ports: Vec<String>,
    },
    /// Ends the named session, or every session where none is named.
    Disconnect { connection_id: Option<String> },
    /// Ends every session.
    DisconnectAll,
}

/// The action of each command.
pub open spec fn action_of(command: Command) -> Seq<char> {
    match command {
        Command::ListProjects => "list-projects"@,
        Command::ListProfiles { .. } => "list-profiles"@,
        Command::Connect { .. } => "connect"@,
        Command::Disconnect { .. } => "disconnect"@,
        Command::DisconnectAll => "disconnect-all"@,
    }
}

/// How long a reply to each command is waited for, in milliseconds.
pub open spec fn timeout_of(command: Command) -> u64 {
    match command {
        Command::ListProjects => 30000,
        Command::ListProfiles { .. } => 30000,
        Command::Connect { .. } => 120000,
        Command::Disconnect { .. } => 5000,
        Command::DisconnectAll => 5000,
    }
}

/// The parameters of each command, under their names on the wire.
pub open spec fn params_of(command: Command) -> Seq<(Seq<char>, ParamView)> {
    match command {
        Command::ListProjects => Seq::empty(),
        Command::ListProfiles { project_key } => seq![
            ("projectKey"@, ParamView::Text(Some(project_key@))),
        ],
        Command::Connect { project_key, profile, local_port, used_ports } => seq![
            ("projectKey"@, ParamView::Text(Some(project_key@))),
            ("profile"@, ParamView::Text(Some(profile@))),
            ("localPort"@, ParamView::Text(optional_text(local_port))),
            ("usedPorts"@, ParamView::Texts(text_views(used_ports@))),
        ],
        Command::Disconnect { connection_id } => seq![
            ("connectionId"@, ParamView::Text(optional_text(connection_id))),
        ],
        Command::DisconnectAll => Seq::empty(),
    }
}

/// A copy of a list of texts.
fn clone_texts(texts: &Vec<String>) -> (copy: Vec<String>)
    ensures
        copy@ == texts@,
{
    let mut copy: Vec<String> = Vec::new();
    let mut i: usize = 0;
    while i < texts.len()
        invariant
            i <= texts.len(),
            copy@ == texts@.take(i as int),
        decreases texts.len() - i,
    {
        copy.push(texts[i].clone());
        proof {
            assert(texts@.take(i as int).push(texts@[i as int]) =~= texts@.take(i + 1));
        }
        i += 1;
    }
    proof {
        assert(texts@.take(texts.len() as int) =~= texts@);
    }
    copy
}

impl Command {
    /// The action of the command.
    pub fn action(&self) -> (action: &'static str)
        ensures
            action@ == action_of(*self),
    {
        match self {
            Command::ListProjects => "list-projects",
            Command::ListProfiles { .. } => "list-profiles",
            Command::Connect { .. } => "connect",
            Command::Disconnect { .. } => "disconnect",
            Command::DisconnectAll => "disconnect-all",
        }
    }

    /// How long a reply to the command is waited for, in milliseconds.
    pub fn timeout_ms(&self) -> (millis: u64)
        ensures
            millis == timeout_of(*self),
    {
        match self {
            Command::ListProjects => 30000,
            Command::ListProfiles { .. } => 30000,
            Command::Connect { .. } => 120000,
            Command::Disconnect { .. } => 5000,
            Command::DisconnectAll => 5000,
        }
    }

    /// The parameters of the command, under their names on the wire.
    pub fn params(&self) -> (params: Vec<(String, Param)>)
        ensures
            param_views(params@) == params_of(*self),
    {
        let mut params: Vec<(String, Param)> = Vec::new();
        match self {
            Command::ListProjects => {},
            Command::ListProfiles { project_key } => {
                params.push(("projectKey".to_owned(), Param::Text(Some(project_key.clone()))));
            },
            Command::Connect { project_key, profile, local_port, used_ports } => {
                params.push(("projectKey".to_owned(), Param::Text(Some(project_key.clone()))));
                params.push(("profile".to_owned(), Param::Text(Some(profile.clone()))));
                params.push(
                    ("localPort".to_owned(), Param::Text(crate::model::clone_optional(local_port))),
                );
                params.push(("usedPorts".to_owned(), Param::Texts(clone_texts(used_ports))));
            },
            Command::Disconnect { connection_id } => {
                params.push(
                    (
                        "connectionId".to_owned(),
                        Param::Text(crate::model::clone_optional(connection_id)),
                    ),
                );
            },
            Command::DisconnectAll => {},
        }
        proof {
            assert(param_views(params@) =~= params_of(*self));
        }
        params
    }

    /// Renders the command for the wire under the identifier `id`: its
    /// object as JSON, then a line feed.
    pub fn encode(&self, id: u64) -> (line: Option<String>)
        ensures
            optional_text(line) == command_line(id, action_of(*self), params_of(*self)),
    {
        let params = self.params();
        encode_command(id, self.action(), &params)
    }
}

} // verus!
