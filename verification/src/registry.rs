//! The sessions that are established at the moment, each under its
//! identifier. The registry lives in memory only.

use crate::model::{ActiveConnection, ActiveConnectionView};
use vstd::prelude::*;

verus! {

/// The place of the first session with this identifier, or the number of
/// sessions where none has it.
pub open spec fn place_of(sessions: Seq<ActiveConnectionView>, id: Seq<char>) -> int
    decreases sessions.len(),
{
    if sessions.len() == 0 || sessions[0].id == id {
        0
    } else {
        1 + place_of(sessions.drop_first(), id)
    }
}

/// Whether a session with this identifier is among the sessions.
pub open spec fn holds(sessions: Seq<ActiveConnectionView>, id: Seq<char>) -> bool {
    place_of(sessions, id) < sessions.len()
}

/// Whether no two sessions have the same identifier.
pub open spec fn distinct_ids(sessions: Seq<ActiveConnectionView>) -> bool {
    forall|i: int, j: int|
        0 <= i < j < sessions.len() ==> (#[trigger] sessions[i]).id != (#[trigger] sessions[j]).id
}

/// The sessions after one was registered: it takes the place of the session
/// with its identifier, or comes last where there was none.
pub open spec fn with_session(
    sessions: Seq<ActiveConnectionView>,
    session: ActiveConnectionView,
) -> Seq<ActiveConnectionView> {
    if holds(sessions, session.id) {
        sessions.update(place_of(sessions, session.id), session)
    } else {
        sessions.push(session)
    }
}

/// The sessions without the one that has this identifier; all of them where
/// none has it.
pub open spec fn without_session(
    sessions: Seq<ActiveConnectionView>,
    id: Seq<char>,
) -> Seq<ActiveConnectionView> {
    if holds(sessions, id) {
        sessions.remove(place_of(sessions, id))
    } else {
        sessions
    }
}

/// The sessions after a disconnect went through: without the named one, or
/// without any where none was named.
pub open spec fn after_disconnect(
    sessions: Seq<ActiveConnectionView>,
    id: Option<Seq<char>>,
) -> Seq<ActiveConnectionView> {
    match id {
        Some(id) => without_session(sessions, id),
        None => Seq::empty(),
    }
}

/// The local ports of the sessions, in the order of the sessions.
pub open spec fn ports_of(sessions: Seq<ActiveConnectionView>) -> Seq<Seq<char>> {
    sessions.map_values(|s: ActiveConnectionView| s.local_port)
}

/// `place_of` is a place among the sessions or their number; no earlier
/// session has the identifier, and the session at the place has it.
pub proof fn lemma_place_of(sessions: Seq<ActiveConnectionView>, id: Seq<char>)
    ensures
        0 <= place_of(sessions, id) <= sessions.len(),
        holds(sessions, id) ==> sessions[place_of(sessions, id)].id == id,
        forall|j: int| 0 <= j < place_of(sessions, id) ==> (#[trigger] sessions[j]).id != id,
    decreases sessions.len(),
{
    if !(sessions.len() == 0 || sessions[0].id == id) {
        let rest = sessions.drop_first();
        lemma_place_of(rest, id);
        assert forall|j: int| 0 <= j < place_of(sessions, id) implies (#[trigger] sessions[j]).id
            != id by {
            if j > 0 {
                assert(rest[j - 1] == sessions[j]);
            }
        }
    }
}

/// The registry of the sessions that are established at the moment.
pub struct Registry {
    sessions: Vec<ActiveConnection>,
}

impl View for Registry {
    type V = Seq<ActiveConnectionView>;

    closed spec fn view(&self) -> Seq<ActiveConnectionView> {
        self.sessions@.map_values(|s: ActiveConnection| s@)
    }
}

impl Registry {
    /// Whether the registry is well formed: no two sessions share an
    /// identifier.
    pub open spec fn wf(&self) -> bool {
        distinct_ids(self@)
    }

    /// A registry without sessions.
    pub fn new() -> (registry: Self)
        ensures
            registry@ == Seq::<ActiveConnectionView>::empty(),
            registry.wf(),
    {
        let registry = Registry { sessions: Vec::new() };
        proof {
            assert(registry@ =~= Seq::<ActiveConnectionView>::empty());
        }
        registry
    }

    /// The number of sessions.
    pub fn len(&self) -> (count: usize)
        ensures
            count == self@.len(),
    {
        self.sessions.len()
    }

    /// The place of the session with this identifier, or the number of
    /// sessions where none has it.
    fn find(&self, id: &String) -> (place: usize)
        ensures
            place == place_of(self@, id@),
            place <= self@.len(),
    {
        let mut i: usize = 0;
        while i < self.sessions.len() && self.sessions[i].id != *id
            invariant
                i <= self.sessions.len(),
                forall|j: int| 0 <= j < i ==> (#[trigger] self@[j]).id != id@,
            decreases self.sessions.len() - i,
        {
            i += 1;
        }
        proof {
            lemma_place_of(self@, id@);
            let p = place_of(self@, id@);
            if p < i {
                assert(self@[p].id == id@);
            }
            if i < p {
                assert(self@[i as int].id == id@);
            }
        }
        i
    }

    /// Whether a session with this identifier is registered.
    pub fn contains(&self, id: &str) -> (found: bool)
        ensures
            found == holds(self@, id@),
    {
        let key = id.to_owned();
        self.find(&key) < self.sessions.len()
    }

    /// Registers a session. It takes the place of the session with the same
    /// identifier, or comes last where there was none.
    pub fn insert(&mut self, session: ActiveConnection)
        ensures
            final(self)@ == with_session(old(self)@, session@),
            old(self).wf() ==> final(self).wf(),
    {
        let place = self.find(&session.id);
        proof {
            lemma_place_of(self@, session.id@);
            if self.wf() {
                law_registering_keeps_identifiers_distinct(self@, session@);
            }
        }
        if place < self.sessions.len() {
            self.sessions.set(place, session);
            proof {
                assert(self@ =~= old(self)@.update(place as int, session@));
            }
        } else {
            self.sessions.push(session);
            proof {
                assert(self@ =~= old(self)@.push(session@));
            }
        }
    }

    /// Takes the session with this identifier out of the registry. Answers
    /// whether there was one: where there was none, nothing changes.
    pub fn remove(&mut self, id: &str) -> (found: bool)
        ensures
            found == holds(old(self)@, id@),
            final(self)@ == without_session(old(self)@, id@),
            old(self).wf() ==> final(self).wf(),
    {
        let key = id.to_owned();
        let place = self.find(&key);
        proof {
            if self.wf() {
                law_removing_keeps_identifiers_distinct(self@, id@);
            }
        }
        if place < self.sessions.len() {
            self.sessions.remove(place);
            proof {
                assert(self@ =~= old(self)@.remove(place as int));
            }
            true
        } else {
            false
        }
    }

    /// Takes every session out of the registry.
    pub fn clear(&mut self)
        ensures
            final(self)@ == Seq::<ActiveConnectionView>::empty(),
            final(self).wf(),
    {
        self.sessions.clear();
        proof {
            assert(self@ =~= Seq::<ActiveConnectionView>::empty());
        }
    }

    /// Follows a disconnect that went through: takes out the named session,
    /// or every session where none was named.
    pub fn disconnect(&mut self, id: &Option<String>)
        ensures
            final(self)@ == after_disconnect(old(self)@, crate::model::optional_text(*id)),
            old(self).wf() ==> final(self).wf(),
    {
        match id {
            Some(id) => {
                self.remove(id.as_str());
            },
            None => {
                self.clear();
            },
        }
    }

    /// A copy of every session, in the order of the registry.
    pub fn list(&self) -> (snapshot: Vec<ActiveConnection>)
        ensures
            snapshot@.map_values(|s: ActiveConnection| s@) == self@,
            snapshot@.len() == self@.len(),
            forall|i: int| 0 <= i < snapshot@.len() ==> (#[trigger] snapshot@[i])@ == self@[i],
    {
        let mut snapshot: Vec<ActiveConnection> = Vec::new();
        let mut i: usize = 0;
        while i < self.sessions.len()
            invariant
                i <= self.sessions.len(),
                snapshot@.len() == i,
                forall|j: int| 0 <= j < i ==> (#[trigger] snapshot@[j])@ == self@[j],
            decreases self.sessions.len() - i,
        {
            snapshot.push(self.sessions[i].clone());
            i += 1;
        }
        proof {
            assert(snapshot@.map_values(|s: ActiveConnection| s@) =~= self@);
        }
        snapshot
    }

    /// The local port of every session, in the order of the registry.
    pub fn list_used_ports(&self) -> (ports: Vec<String>)
        ensures
            ports@.map_values(|p: String| p@) == ports_of(self@),
            ports@.len() == self@.len(),
            forall|i: int| 0 <= i < ports@.len() ==> (#[trigger] ports@[i])@ == self@[i].local_port,
    {
        let mut ports: Vec<String> = Vec::new();
        let mut i: usize = 0;
        while i < self.sessions.len()
            invariant
                i <= self.sessions.len(),
                ports@.len() == i,
                forall|j: int| 0 <= j < i ==> (#[trigger] ports@[j])@ == self@[j].local_port,
            decreases self.sessions.len() - i,
        {
            ports.push(self.sessions[i].local_port.clone());
            i += 1;
        }
        proof {
            assert(ports@.map_values(|p: String| p@) =~= ports_of(self@));
        }
        ports
    }
}

/// The used ports are exactly the local ports of the registered sessions:
/// a port is among them if and only if some session has it.
pub proof fn law_ports_reflect_sessions(sessions: Seq<ActiveConnectionView>, port: Seq<char>)
    ensures
        ports_of(sessions).len() == sessions.len(),
        ports_of(sessions).contains(port) <==> exists|i: int|
            0 <= i < sessions.len() && (#[trigger] sessions[i]).local_port == port,
{
    let ports = ports_of(sessions);
    if ports.contains(port) {
        let i = choose|i: int| 0 <= i < ports.len() && ports[i] == port;
        assert(sessions[i].local_port == port);
    }
    if exists|i: int| 0 <= i < sessions.len() && (#[trigger] sessions[i]).local_port == port {
        let i = choose|i: int| 0 <= i < sessions.len() && (#[trigger] sessions[i]).local_port == port;
        assert(ports[i] == port);
    }
}

/// A session that was registered is found under its identifier, as it was
/// handed in, and its local port is among the used ports.
pub proof fn law_registered_session_is_listed(
    sessions: Seq<ActiveConnectionView>,
    session: ActiveConnectionView,
)
    ensures
        holds(with_session(sessions, session), session.id),
        with_session(sessions, session)[place_of(with_session(sessions, session), session.id)]
            == session,
        ports_of(with_session(sessions, session)).contains(session.local_port),
{
    let after = with_session(sessions, session);
    let p = place_of(sessions, session.id);
    lemma_place_of(sessions, session.id);
    lemma_place_of(after, session.id);
    assert(after[p] == session);
    let q = place_of(after, session.id);
    if q < p {
        assert(after[q].id == session.id);
        assert(after[q] == sessions[q]);
    }
    if p < q {
        assert(after[p].id != session.id);
    }
    assert(ports_of(after)[p] == session.local_port);
}

/// After a session was taken out, no session has its identifier, and every
/// other session is still registered.
pub proof fn law_removed_session_is_gone(sessions: Seq<ActiveConnectionView>, id: Seq<char>)
    requires
        distinct_ids(sessions),
    ensures
        !holds(without_session(sessions, id), id),
        forall|i: int|
            0 <= i < sessions.len() && (#[trigger] sessions[i]).id != id ==> without_session(
                sessions,
                id,
            ).contains(sessions[i]),
        forall|k: int|
            0 <= k < without_session(sessions, id).len() ==> sessions.contains(
                #[trigger] without_session(sessions, id)[k],
            ),
{
    let after = without_session(sessions, id);
    let p = place_of(sessions, id);
    lemma_place_of(sessions, id);
    lemma_place_of(after, id);
    if holds(after, id) {
        let q = place_of(after, id);
        assert(after[q].id == id);
        if holds(sessions, id) {
            let original = if q < p { q } else { q + 1 };
            assert(sessions[original].id == id);
            assert(sessions[p].id == id);
        } else {
            assert(sessions[q].id == id);
        }
    }
    assert forall|i: int| 0 <= i < sessions.len() && (#[trigger] sessions[i]).id != id implies after.contains(
        sessions[i],
    ) by {
        if holds(sessions, id) {
            let k = if i < p { i } else { i - 1 };
            assert(after[k] == sessions[i]);
        } else {
            assert(after[i] == sessions[i]);
        }
    }
    assert forall|k: int| 0 <= k < after.len() implies sessions.contains(#[trigger] after[k]) by {
        if holds(sessions, id) {
            let original = if k < p { k } else { k + 1 };
            assert(sessions[original] == after[k]);
        } else {
            assert(sessions[k] == after[k]);
        }
    }
}

/// After a session was taken out, its local port is no longer among the
/// used ports, unless another session uses the same port.
pub proof fn law_port_is_free_after_disconnect(sessions: Seq<ActiveConnectionView>, id: Seq<char>)
    requires
        distinct_ids(sessions),
        holds(sessions, id),
        forall|i: int|
            0 <= i < sessions.len() && (#[trigger] sessions[i]).id != id ==> sessions[i].local_port
                != sessions[place_of(sessions, id)].local_port,
    ensures
        !ports_of(without_session(sessions, id)).contains(
            sessions[place_of(sessions, id)].local_port,
        ),
{
    let after = without_session(sessions, id);
    let p = place_of(sessions, id);
    let port = sessions[p].local_port;
    lemma_place_of(sessions, id);
    law_ports_reflect_sessions(after, port);
    if ports_of(after).contains(port) {
        let k = choose|k: int| 0 <= k < after.len() && (#[trigger] after[k]).local_port == port;
        let original = if k < p { k } else { k + 1 };
        assert(sessions[original] == after[k]);
        assert(sessions[original].id != sessions[p].id);
    }
}

/// After every session was disconnected, no port is in use.
pub proof fn law_no_port_is_used_after_disconnect_all(sessions: Seq<ActiveConnectionView>)
    ensures
        ports_of(after_disconnect(sessions, None)) == Seq::<Seq<char>>::empty(),
{
    assert(ports_of(Seq::<ActiveConnectionView>::empty()) =~= Seq::<Seq<char>>::empty());
}

/// Registering a session keeps the identifiers distinct.
pub proof fn law_registering_keeps_identifiers_distinct(
    sessions: Seq<ActiveConnectionView>,
    session: ActiveConnectionView,
)
    requires
        distinct_ids(sessions),
    ensures
        distinct_ids(with_session(sessions, session)),
{
    let added = with_session(sessions, session);
    let p = place_of(sessions, session.id);
    lemma_place_of(sessions, session.id);
    assert forall|i: int, j: int| 0 <= i < j < added.len() implies (#[trigger] added[i]).id
        != (#[trigger] added[j]).id by {
        if holds(sessions, session.id) {
            assert(sessions[i].id != sessions[j].id);
            if i != p {
                assert(sessions[i].id != sessions[p].id || i == p);
            }
            if j != p {
                assert(sessions[j].id != sessions[p].id || j == p);
            }
        } else if j == sessions.len() {
            assert(sessions[i].id != session.id);
        } else {
            assert(sessions[i].id != sessions[j].id);
        }
    }
}

/// Taking a session out keeps the identifiers distinct.
pub proof fn law_removing_keeps_identifiers_distinct(
    sessions: Seq<ActiveConnectionView>,
    id: Seq<char>,
)
    requires
        distinct_ids(sessions),
    ensures
        distinct_ids(without_session(sessions, id)),
{
    let removed = without_session(sessions, id);
    let q = place_of(sessions, id);
    lemma_place_of(sessions, id);
    assert forall|i: int, j: int| 0 <= i < j < removed.len() implies (#[trigger] removed[i]).id
        != (#[trigger] removed[j]).id by {
        if holds(sessions, id) {
            let a = if i < q { i } else { i + 1 };
            let b = if j < q { j } else { j + 1 };
            assert(sessions[a].id != sessions[b].id);
        } else {
            assert(sessions[i].id != sessions[j].id);
        }
    }
}

} // verus!
