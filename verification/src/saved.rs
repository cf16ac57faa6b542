//! The connections that the user saved under a name, as a list that the
//! caller loads from and stores to its store.

use crate::clock::{chrono_now, stamp_of};
use crate::model::{SavedConnection, SavedConnectionView};
use crate::session::fresh_identifier;
use vstd::prelude::*;

verus! {

/// The views of saved connections.
pub open spec fn saved_views(list: Seq<SavedConnection>) -> Seq<SavedConnectionView> {
    list.map_values(|c: SavedConnection| c@)
}

/// The place of the first saved connection for this project and profile,
/// or the length of the list where there is none.
pub open spec fn place_for(
    list: Seq<SavedConnectionView>,
    project_key: Seq<char>,
    profile: Seq<char>,
) -> int
    decreases list.len(),
{
    if list.len() == 0 || (list[0].project_key == project_key && list[0].profile == profile) {
        0
    } else {
        1 + place_for(list.drop_first(), project_key, profile)
    }
}

/// The place of the first saved connection with this identifier, or the
/// length of the list where there is none.
pub open spec fn place_of_saved(list: Seq<SavedConnectionView>, id: Seq<char>) -> int
    decreases list.len(),
{
    if list.len() == 0 || list[0].id == id {
        0
    } else {
        1 + place_of_saved(list.drop_first(), id)
    }
}

/// The entry that saving leaves in the list: the first one for this project
/// and profile under the new name and used at `stamp`, or, where there is
/// none, a new one under the identifier `fresh_id`.
pub open spec fn saved_entry(
    list: Seq<SavedConnectionView>,
    name: Seq<char>,
    project_key: Seq<char>,
    profile: Seq<char>,
    stamp: Seq<char>,
    fresh_id: Seq<char>,
) -> SavedConnectionView {
    let place = place_for(list, project_key, profile);
    if place < list.len() {
        SavedConnectionView { name, last_used_at: Some(stamp), ..list[place] }
    } else {
        SavedConnectionView { id: fresh_id, name, project_key, profile, last_used_at: Some(stamp) }
    }
}

/// The list after saving: the entry stands in the place of the one it
/// renews, or last where it is new.
pub open spec fn saved_list(
    list: Seq<SavedConnectionView>,
    name: Seq<char>,
    project_key: Seq<char>,
    profile: Seq<char>,
    stamp: Seq<char>,
    fresh_id: Seq<char>,
) -> Seq<SavedConnectionView> {
    let place = place_for(list, project_key, profile);
    let entry = saved_entry(list, name, project_key, profile, stamp, fresh_id);
    if place < list.len() {
        list.update(place, entry)
    } else {
        list.push(entry)
    }
}

/// The list without the saved connections that have this identifier.
pub open spec fn without_saved(list: Seq<SavedConnectionView>, id: Seq<char>) -> Seq<
    SavedConnectionView,
>
    decreases list.len(),
{
    if list.len() == 0 {
        list
    } else if list.last().id == id {
        without_saved(list.drop_last(), id)
    } else {
        without_saved(list.drop_last(), id).push(list.last())
    }
}

/// The list after the first saved connection with this identifier was used
/// at `stamp`; the list as it is where none has the identifier.
pub open spec fn touched(list: Seq<SavedConnectionView>, id: Seq<char>, stamp: Seq<char>) -> Seq<
    SavedConnectionView,
> {
    let place = place_of_saved(list, id);
    if place < list.len() {
        list.update(place, SavedConnectionView { last_used_at: Some(stamp), ..list[place] })
    } else {
        list
    }
}

/// `place_for` is a place in the list or its length; no earlier entry is for
/// the project and profile, and the entry at the place is.
pub proof fn lemma_place_for(
    list: Seq<SavedConnectionView>,
    project_key: Seq<char>,
    profile: Seq<char>,
)
    ensures
        0 <= place_for(list, project_key, profile) <= list.len(),
        place_for(list, project_key, profile) < list.len() ==> {
            let found = list[place_for(list, project_key, profile)];
            found.project_key == project_key && found.profile == profile
        },
        forall|j: int|
            0 <= j < place_for(list, project_key, profile) ==> !((#[trigger] list[j]).project_key
                == project_key && list[j].profile == profile),
    decreases list.len(),
{
    if !(list.len() == 0 || (list[0].project_key == project_key && list[0].profile == profile)) {
        let rest = list.drop_first();
        lemma_place_for(rest, project_key, profile);
        assert forall|j: int| 0 <= j < place_for(list, project_key, profile) implies !((
        #[trigger] list[j]).project_key == project_key && list[j].profile == profile) by {
            if j > 0 {
                assert(rest[j - 1] == list[j]);
            }
        }
    }
}

/// `place_of_saved` is a place in the list or its length; no earlier entry
/// has the identifier, and the entry at the place has it.
pub proof fn lemma_place_of_saved(list: Seq<SavedConnectionView>, id: Seq<char>)
    ensures
        0 <= place_of_saved(list, id) <= list.len(),
        place_of_saved(list, id) < list.len() ==> list[place_of_saved(list, id)].id == id,
        forall|j: int| 0 <= j < place_of_saved(list, id) ==> (#[trigger] list[j]).id != id,
    decreases list.len(),
{
    if !(list.len() == 0 || list[0].id == id) {
        let rest = list.drop_first();
        lemma_place_of_saved(rest, id);
        assert forall|j: int| 0 <= j < place_of_saved(list, id) implies (#[trigger] list[j]).id
            != id by {
            if j > 0 {
                assert(rest[j - 1] == list[j]);
            }
        }
    }
}

/// The place of the first saved connection for this project and profile.
fn find_for(connections: &Vec<SavedConnection>, project_key: &String, profile: &String) -> (place:
    usize)
    ensures
        place == place_for(saved_views(connections@), project_key@, profile@),
        place <= connections.len(),
{
    let ghost list = saved_views(connections@);
    let mut i: usize = 0;
    while i < connections.len() && !(connections[i].project_key == *project_key
        && connections[i].profile == *profile)
        invariant
            i <= connections.len(),
            list == saved_views(connections@),
            forall|j: int|
                0 <= j < i ==> !((#[trigger] list[j]).project_key == project_key@
                    && list[j].profile == profile@),
        decreases connections.len() - i,
    {
        assert(list[i as int] == connections@[i as int]@);
        i += 1;
    }
    proof {
        lemma_place_for(list, project_key@, profile@);
        let p = place_for(list, project_key@, profile@);
        if i < connections.len() {
            assert(list[i as int] == connections@[i as int]@);
        }
        if p < i {
            assert(list[p].project_key == project_key@);
        }
    }
    i
}

/// The place of the first saved connection with this identifier.
fn find_saved(connections: &Vec<SavedConnection>, id: &String) -> (place: usize)
    ensures
        place == place_of_saved(saved_views(connections@), id@),
        place <= connections.len(),
{
    let ghost list = saved_views(connections@);
    let mut i: usize = 0;
    while i < connections.len() && connections[i].id != *id
        invariant
            i <= connections.len(),
            list == saved_views(connections@),
            forall|j: int| 0 <= j < i ==> (#[trigger] list[j]).id != id@,
        decreases connections.len() - i,
    {
        assert(list[i as int] == connections@[i as int]@);
        i += 1;
    }
    proof {
        lemma_place_of_saved(list, id@);
        let p = place_of_saved(list, id@);
        if i < connections.len() {
            assert(list[i as int] == connections@[i as int]@);
        }
        if p < i {
            assert(list[p].id == id@);
        }
    }
    i
}

/// Saves a connection for a project and profile at the moment `stamp`. The
/// first entry for the same project and profile gets the new name and
/// moment; where there is none, a new entry under `fresh_id` comes last.
/// Hands out a copy of the entry.
pub fn save_connection_at(
    connections: &mut Vec<SavedConnection>,
    name: String,
    project_key: String,
    profile: String,
    stamp: String,
    fresh_id: String,
) -> (entry: SavedConnection)
    ensures
        saved_views(final(connections)@) == saved_list(
            saved_views(old(connections)@),
            name@,
            project_key@,
            profile@,
            stamp@,
            fresh_id@,
        ),
        entry@ == saved_entry(
            saved_views(old(connections)@),
            name@,
            project_key@,
            profile@,
            stamp@,
            fresh_id@,
        ),
{
    let place = find_for(connections, &project_key, &profile);
    if place < connections.len() {
        let renewed = SavedConnection {
            id: connections[place].id.clone(),
            name,
            project_key: connections[place].project_key.clone(),
            profile: connections[place].profile.clone(),
            last_used_at: Some(stamp),
        };
        let entry = renewed.clone();
        proof {
            assert(saved_views(old(connections)@)[place as int] == old(connections)@[place as int]@);
        }
        connections.set(place, renewed);
        proof {
            assert(saved_views(connections@) =~= saved_views(old(connections)@).update(
                place as int,
                entry@,
            ));
        }
        entry
    } else {
        let added = SavedConnection {
            id: fresh_id,
            name,
            project_key,
            profile,
            last_used_at: Some(stamp),
        };
        let entry = added.clone();
        connections.push(added);
        proof {
            assert(saved_views(connections@) =~= saved_views(old(connections)@).push(entry@));
        }
        entry
    }
}

/// Saves a connection for a project and profile now: as `save_connection_at`
/// does, at the present moment, and under a fresh random identifier where
/// the entry is new.
pub fn save_connection(
    connections: &mut Vec<SavedConnection>,
    name: String,
    project_key: String,
    profile: String,
) -> (entry: SavedConnection)
    ensures
        exists|secs: u64, fresh_id: Seq<char>|
            {
                &&& saved_views(final(connections)@) == #[trigger] saved_list(
                    saved_views(old(connections)@),
                    name@,
                    project_key@,
                    profile@,
                    stamp_of(secs),
                    fresh_id,
                )
                &&& entry@ == saved_entry(
                    saved_views(old(connections)@),
                    name@,
                    project_key@,
                    profile@,
                    stamp_of(secs),
                    fresh_id,
                )
            },
{
    let place = find_for(connections, &project_key, &profile);
    let fresh_id = if place < connections.len() {
        String::new()
    } else {
        fresh_identifier()
    };
    let stamp = chrono_now();
    let ghost secs = choose|secs: u64| stamp@ == #[trigger] stamp_of(secs);
    let entry = save_connection_at(connections, name, project_key, profile, stamp, fresh_id);
    proof {
        assert(saved_views(connections@) == saved_list(
            saved_views(old(connections)@),
            name@,
            project_key@,
            profile@,
            stamp_of(secs),
            fresh_id@,
        ));
    }
    entry
}

/// Takes the saved connections with this identifier out of the list.
pub fn delete_saved_connection(connections: &mut Vec<SavedConnection>, id: &str)
    ensures
        saved_views(final(connections)@) == without_saved(saved_views(old(connections)@), id@),
{
    let key = id.to_owned();
    let mut kept: Vec<SavedConnection> = Vec::new();
    let ghost list = saved_views(connections@);
    let mut i: usize = 0;
    proof {
        assert(list.take(0) =~= Seq::<SavedConnectionView>::empty());
        assert(saved_views(kept@) =~= Seq::<SavedConnectionView>::empty());
    }
    while i < connections.len()
        invariant
            i <= connections.len(),
            connections@ == old(connections)@,
            list == saved_views(connections@),
            key@ == id@,
            saved_views(kept@) == without_saved(list.take(i as int), id@),
        decreases connections.len() - i,
    {
        let ghost before = saved_views(kept@);
        proof {
            assert(list.take(i + 1).drop_last() =~= list.take(i as int));
            assert(list.take(i + 1).last() == connections@[i as int]@);
        }
        if connections[i].id != key {
            let copy = connections[i].clone();
            kept.push(copy);
            proof {
                assert(saved_views(kept@) =~= before.push(copy@));
            }
        }
        i += 1;
    }
    proof {
        assert(list.take(connections.len() as int) =~= list);
    }
    *connections = kept;
}

/// Records that the first saved connection with this identifier was used at
/// the moment `stamp`. Where none has the identifier, nothing changes.
pub fn update_saved_connection_last_used_at(
    connections: &mut Vec<SavedConnection>,
    id: &str,
    stamp: String,
)
    ensures
        saved_views(final(connections)@) == touched(saved_views(old(connections)@), id@, stamp@),
{
    let key = id.to_owned();
    let place = find_saved(connections, &key);
    if place < connections.len() {
        let renewed = SavedConnection {
            id: connections[place].id.clone(),
            name: connections[place].name.clone(),
            project_key: connections[place].project_key.clone(),
            profile: connections[place].profile.clone(),
            last_used_at: Some(stamp),
        };
        proof {
            assert(saved_views(old(connections)@)[place as int] == old(connections)@[place as int]@);
        }
        connections.set(place, renewed);
        proof {
            assert(saved_views(connections@) =~= saved_views(old(connections)@).update(
                place as int,
                renewed@,
            ));
        }
    }
}

/// Records that the first saved connection with this identifier was used
/// now.
pub fn update_saved_connection_last_used(connections: &mut Vec<SavedConnection>, id: &str)
    ensures
        exists|secs: u64|
            saved_views(final(connections)@) == #[trigger] touched(
                saved_views(old(connections)@),
                id@,
                stamp_of(secs),
            ),
{
    let stamp = chrono_now();
    let ghost secs = choose|secs: u64| stamp@ == #[trigger] stamp_of(secs);
    update_saved_connection_last_used_at(connections, id, stamp);
    proof {
        assert(saved_views(connections@) == touched(
            saved_views(old(connections)@),
            id@,
            stamp_of(secs),
        ));
    }
}

} // verus!
