//! From a reply to `connect` to a registered session.

use crate::envelope::{read_text, text_member};
use crate::failure::Failure;
use crate::model::{
    clone_optional, optional_text, ActiveConnection, ActiveConnectionView, ConnectResult,
    ConnectionInfo, ConnectionInfoView,
};
use crate::registry::{with_session, Registry};
use crate::wire::{json_member, member};
use vstd::prelude::*;

verus! {

/// A fresh random identifier in text form, by `Uuid::new_v4`. Nothing is
/// claimed of the text: it depends on the system's source of randomness,
/// and the call panics where that source fails.
#[verifier::external_body]
pub(crate) fn fresh_identifier() -> String {
    uuid::Uuid::new_v4().to_string()
}

/// The session that a successful connect establishes: its local port is
/// the port of its connection information, and it counts as connected.
pub open spec fn established(
    id: Seq<char>,
    saved_connection_id: Option<Seq<char>>,
    project_key: Seq<char>,
    profile: Seq<char>,
    info: ConnectionInfoView,
) -> ActiveConnectionView {
    ActiveConnectionView {
        id,
        saved_connection_id,
        project_key,
        profile,
        local_port: info.port,
        connection_info: info,
        status: "connected"@,
    }
}

/// The member `connectionInfo` of a reply to `connect`, which the caller
/// reads the connection information from. A reply without one is a bad
/// reply.
pub fn connection_info_member<'a>(reply: &'a serde_json::Value) -> (found: Result<
    &'a serde_json::Value,
    Failure,
>)
    ensures
        match found {
            Ok(m) => json_member(*reply, "connectionInfo"@) == Some(*m),
            Err(failure) => {
                &&& json_member(*reply, "connectionInfo"@) is None
                &&& failure matches Failure::BadReply(text)
                &&& text@ == "No connection info in response"@
            },
        },
{
    match member(reply, "connectionInfo") {
        Some(m) => Ok(m),
        None => Err(Failure::BadReply("No connection info in response".to_owned())),
    }
}

/// The identifier under which the adapter knows the new session: the text
/// under `connectionId` of its reply, where there is one.
pub fn reported_connection_id(reply: &serde_json::Value) -> (id: Option<String>)
    ensures
        optional_text(id) == text_member(*reply, "connectionId"@),
{
    read_text(reply, "connectionId")
}

/// The session that a successful connect establishes.
pub fn open_session(
    id: String,
    saved_connection_id: Option<String>,
    project_key: String,
    profile: String,
    info: ConnectionInfo,
) -> (session: ActiveConnection)
    ensures
        session@ == established(
            id@,
            optional_text(saved_connection_id),
            project_key@,
            profile@,
            info@,
        ),
{
    ActiveConnection {
        id,
        saved_connection_id,
        project_key,
        profile,
        local_port: info.port.clone(),
        connection_info: info,
        status: "connected".to_owned(),
    }
}

impl Registry {
    /// Registers the session that a successful connect established under
    /// the identifier `id`, and makes the result for the caller.
    pub fn track_as(
        &mut self,
        id: String,
        saved_connection_id: &Option<String>,
        project_key: &String,
        profile: &String,
        info: ConnectionInfo,
    ) -> (result: ConnectResult)
        ensures
            final(self)@ == with_session(
                old(self)@,
                established(
                    id@,
                    optional_text(*saved_connection_id),
                    project_key@,
                    profile@,
                    info@,
                ),
            ),
            old(self).wf() ==> final(self).wf(),
            result.connection_id@ == id@,
            result.connection_info@ == info@,
    {
        let session = open_session(
            id.clone(),
            clone_optional(saved_connection_id),
            project_key.clone(),
            profile.clone(),
            info.clone(),
        );
        self.insert(session);
        ConnectResult { connection_id: id, connection_info: info }
    }

    /// Registers the session that a successful connect established. It goes
    /// under the identifier that the adapter reported; where the adapter
    /// reported none, under a fresh random one, which the adapter does not
    /// know the session by.
    pub fn track(
        &mut self,
        reported_id: Option<String>,
        saved_connection_id: &Option<String>,
        project_key: &String,
        profile: &String,
        info: ConnectionInfo,
    ) -> (result: ConnectResult)
        ensures
            reported_id matches Some(id) ==> result.connection_id@ == id@,
            final(self)@ == with_session(
                old(self)@,
                established(
                    result.connection_id@,
                    optional_text(*saved_connection_id),
                    project_key@,
                    profile@,
                    info@,
                ),
            ),
            old(self).wf() ==> final(self).wf(),
            result.connection_info@ == info@,
    {
        let id = match reported_id {
            Some(id) => id,
            None => fresh_identifier(),
        };
        self.track_as(id, saved_connection_id, project_key, profile, info)
    }
}

} // verus!
