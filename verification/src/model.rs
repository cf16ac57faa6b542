//! The records that travel between the library and its callers, each with
//! its view: the same record with texts as sequences of characters.

use vstd::prelude::*;

verus! {

/// The text that an optional string holds.
pub open spec fn optional_text(o: Option<String>) -> Option<Seq<char>> {
    match o {
        Some(s) => Some(s@),
        None => None,
    }
}

/// A copy of an optional string.
pub fn clone_optional(o: &Option<String>) -> (copy: Option<String>)
    ensures
        copy == *o,
{
    match o {
        Some(s) => Some(s.clone()),
        None => None,
    }
}

/// A project that the adapter can connect to.
#[derive(Debug)]
pub struct Project {
    pub key: String,
    pub name: String,
}

/// How to reach a database through an established tunnel. The adapter
/// makes this record; the library passes it on as it is.
#[derive(Debug)]
pub struct ConnectionInfo {
    pub host: String,
    pub port: String,
    pub username: String,
    pub password: String,
    pub database: String,
    pub rds_endpoint: Option<String>,
    pub instance_id: Option<String>,
}

/// The view of a [`ConnectionInfo`].
pub ghost struct ConnectionInfoView {
    pub host: Seq<char>,
    pub port: Seq<char>,
    pub username: Seq<char>,
    pub password: Seq<char>,
    pub database: Seq<char>,
    pub rds_endpoint: Option<Seq<char>>,
    pub instance_id: Option<Seq<char>>,
}

impl View for ConnectionInfo {
    type V = ConnectionInfoView;

    open spec fn view(&self) -> ConnectionInfoView {
        ConnectionInfoView {
            host: self.host@,
            port: self.port@,
            username: self.username@,
            password: self.password@,
            database: self.database@,
            rds_endpoint: optional_text(self.rds_endpoint),
            instance_id: optional_text(self.instance_id),
        }
    }
}

impl Clone for ConnectionInfo {
    fn clone(&self) -> (copy: Self)
        ensures
            copy == *self,
    {
        ConnectionInfo {
            host: self.host.clone(),
            port: self.port.clone(),
            username: self.username.clone(),
            password: self.password.clone(),
            database: self.database.clone(),
            rds_endpoint: clone_optional(&self.rds_endpoint),
            instance_id: clone_optional(&self.instance_id),
        }
    }
}

/// What a successful connect hands to its caller.
#[derive(Debug)]
pub struct ConnectResult {
    pub connection_id: String,
    pub connection_info: ConnectionInfo,
}

/// A connection that the user saved under a name.
#[derive(Debug)]
pub struct SavedConnection {
    pub id: String,
    pub name: String,
    pub project_key: String,
    pub profile: String,
    pub last_used_at: Option<String>,
}

/// The view of a [`SavedConnection`].
pub ghost struct SavedConnectionView {
    pub id: Seq<char>,
    pub name: Seq<char>,
    pub project_key: Seq<char>,
    pub profile: Seq<char>,
    pub last_used_at: Option<Seq<char>>,
}

impl View for SavedConnection {
    type V = SavedConnectionView;

    open spec fn view(&self) -> SavedConnectionView {
        SavedConnectionView {
            id: self.id@,
            name: self.name@,
            project_key: self.project_key@,
            profile: self.profile@,
            last_used_at: optional_text(self.last_used_at),
        }
    }
}

impl Clone for SavedConnection {
    fn clone(&self) -> (copy: Self)
        ensures
            copy == *self,
    {
        SavedConnection {
            id: self.id.clone(),
            name: self.name.clone(),
            project_key: self.project_key.clone(),
            profile: self.profile.clone(),
            last_used_at: clone_optional(&self.last_used_at),
        }
    }
}

/// A session that is established at the moment.
#[derive(Debug)]
pub struct ActiveConnection {
    pub id: String,
    pub saved_connection_id: Option<String>,
    pub project_key: String,
    pub profile: String,
    pub local_port: String,
    pub connection_info: ConnectionInfo,
    pub status: String,
}

/// The view of an [`ActiveConnection`].
pub ghost struct ActiveConnectionView {
    pub id: Seq<char>,
    pub saved_connection_id: Option<Seq<char>>,
    pub project_key: Seq<char>,
    pub profile: Seq<char>,
    pub local_port: Seq<char>,
    pub connection_info: ConnectionInfoView,
    pub status: Seq<char>,
}

impl View for ActiveConnection {
    type V = ActiveConnectionView;

    open spec fn view(&self) -> ActiveConnectionView {
        ActiveConnectionView {
            id: self.id@,
            saved_connection_id: optional_text(self.saved_connection_id),
            project_key: self.project_key@,
            profile: self.profile@,
            local_port: self.local_port@,
            connection_info: self.connection_info@,
            status: self.status@,
        }
    }
}

impl Clone for ActiveConnection {
    fn clone(&self) -> (copy: Self)
        ensures
            copy == *self,
    {
        ActiveConnection {
            id: self.id.clone(),
            saved_connection_id: clone_optional(&self.saved_connection_id),
            project_key: self.project_key.clone(),
            profile: self.profile.clone(),
            local_port: self.local_port.clone(),
            connection_info: self.connection_info.clone(),
            status: self.status.clone(),
        }
    }
}

/// Whether a newer version of the program can be had.
#[derive(Debug)]
pub struct UpdateInfo {
    pub update_available: bool,
    pub current_version: String,
    pub latest_version: Option<String>,
    pub download_url: Option<String>,
}

/// The view of an [`UpdateInfo`].
pub ghost struct UpdateInfoView {
    pub update_available: bool,
    pub current_version: Seq<char>,
    pub latest_version: Option<Seq<char>>,
    pub download_url: Option<Seq<char>>,
}

impl View for UpdateInfo {
    type V = UpdateInfoView;

    open spec fn view(&self) -> UpdateInfoView {
        UpdateInfoView {
            update_available: self.update_available,
            current_version: self.current_version@,
            latest_version: optional_text(self.latest_version),
            download_url: optional_text(self.download_url),
        }
    }
}

impl UpdateInfo {
    /// What a check for updates comes to. `found` is the version that the
    /// check found, or `None` where it found none or failed: a failed check
    /// counts as no update. No address to download from is given, as the
    /// update installs itself.
    pub fn from_check(current_version: &str, found: Option<String>) -> (info: UpdateInfo)
        ensures
            info@ == (UpdateInfoView {
                update_available: found is Some,
                current_version: current_version@,
                latest_version: optional_text(found),
                download_url: None,
            }),
    {
        UpdateInfo {
            update_available: found.is_some(),
            current_version: current_version.to_owned(),
            latest_version: found,
            download_url: None,
        }
    }
}

} // verus!
