//! The deletion orchestrator. Deleting an entity (an album, or one group)
//! fans out one independent remote deletion per child picture, counts every
//! resolution — success or failure alike — and only once all `total` attempts
//! have resolved does it issue the parent deletion: the barrier. On parent
//! success the entity is spliced out of its list; on parent failure the row
//! returns to its implicit active phase. Per-row progress lives in the
//! [`crate::store::StateStore`], so rows never interfere.

use vstd::prelude::*;
use crate::models::album::{Album, AlbumView};
use crate::models::group::{Group, GroupView};
use crate::models::picture::PictureView;
use crate::models::state::{DeleteStatus, State};
use crate::reducer::{find_group, find_group_index};
use crate::store::StateStore;

verus! {

/// What the caller must dispatch after feeding the orchestrator one event:
/// nothing, one remote deletion per child key, or the parent deletion (the
/// barrier has been satisfied).
pub enum Dispatch {
    Nothing,
    Children(Vec<String>),
    Parent,
}

/// How a parent-deletion resolution was absorbed: the entity left its list,
/// the row reverted to active after a failure, or the event matched no row
/// in flight and was ignored.
#[derive(Clone, Copy, PartialEq, Eq, Structural, Debug)]
pub enum ParentOutcome {
    Removed,
    Reverted,
    Ignored,
}

/// One orchestrator event, as the spec-level machine sees it.
pub enum OrchEvent {
    Ask { id: Seq<char> },
    Cancel { id: Seq<char> },
    Confirm { id: Seq<char>, total: usize },
    ChildResolved { id: Seq<char> },
    ParentResolved { id: Seq<char> },
}

impl OrchEvent {
    /// The row an event addresses.
    pub open spec fn id(self) -> Seq<char> {
        match self {
            OrchEvent::Ask { id } => id,
            OrchEvent::Cancel { id } => id,
            OrchEvent::Confirm { id, .. } => id,
            OrchEvent::ChildResolved { id } => id,
            OrchEvent::ParentResolved { id } => id,
        }
    }
}

/// What one event does to the per-row state map. Every arm guards on the
/// row's current phase; an event that arrives in the wrong phase — or for a
/// row with no entry at all — changes nothing.
pub open spec fn orch_step(m: Map<Seq<char>, State>, e: OrchEvent) -> Map<Seq<char>, State> {
    match e {
        OrchEvent::Ask { id } => if m.contains_key(id) {
            m
        } else {
            m.insert(id, State::spec_ask_delete())
        },
        OrchEvent::Cancel { id } => if m.contains_key(id) && m[id].delete_status
            is AskDelete {
            m.remove(id)
        } else {
            m
        },
        OrchEvent::Confirm { id, total } => if m.contains_key(id) && m[id].delete_status
            is AskDelete {
            m.insert(id, State { delete_status: DeleteStatus::Deleting, total, current: 0 })
        } else {
            m
        },
        OrchEvent::ChildResolved { id } => if m.contains_key(id) && m[id].delete_status
            is Deleting && m[id].current < m[id].total {
            m.insert(
                id,
                State {
                    delete_status: DeleteStatus::Deleting,
                    total: m[id].total,
                    current: (m[id].current + 1) as usize,
                },
            )
        } else {
            m
        },
        OrchEvent::ParentResolved { id } => if m.contains_key(id) && m[id].delete_status
            is Deleting {
            m.remove(id)
        } else {
            m
        },
    }
}

/// Whether a child resolution arriving now is the one that satisfies the
/// barrier, so that the parent deletion must be dispatched. (A confirm with
/// no children at all satisfies the barrier by itself; that case is decided
/// at confirm time, not here.)
pub open spec fn barrier_reached(m: Map<Seq<char>, State>, id: Seq<char>) -> bool {
    &&& m.contains_key(id)
    &&& m[id].delete_status is Deleting
    &&& m[id].current < m[id].total
    &&& m[id].current + 1 == m[id].total
}

/// The remote storage keys of one group's pictures, in order.
pub open spec fn group_public_ids_spec(g: GroupView) -> Seq<Seq<char>> {
    g.pictures.map_values(|p: PictureView| p.public_id)
}

/// The remote storage keys of every picture in every listed group, group by
/// group, in order.
pub open spec fn album_public_ids_of(gs: Seq<GroupView>) -> Seq<Seq<char>>
    decreases gs.len(),
{
    if gs.len() == 0 {
        Seq::empty()
    } else {
        album_public_ids_of(gs.drop_last()) + group_public_ids_spec(gs.last())
    }
}

/// The remote storage keys of every picture of an album.
pub open spec fn album_public_ids(a: AlbumView) -> Seq<Seq<char>> {
    album_public_ids_of(a.groups)
}

/// Collects the remote storage keys of one group's pictures.
pub fn group_public_ids(group: &Group) -> (r: Vec<String>)
    ensures
        r@.map_values(|s: String| s@) == group_public_ids_spec(group@),
{
    let mut r: Vec<String> = Vec::new();
    let n = group.pictures.len();
    for j in 0..n
        invariant
            n == group.pictures@.len(),
            r@.map_values(|s: String| s@) =~= group@.pictures.take(j as int).map_values(
                |p: PictureView| p.public_id,
            ),
    {
        let ghost r0 = r@;
        let pid = group.pictures[j].public_id.clone();
        let ghost pid0 = pid;
        r.push(pid);
        proof {
            let pics = group@.pictures;
            let f = |s: String| s@;
            let g2 = |p: PictureView| p.public_id;
            assert(pics[j as int] == group.pictures@[j as int]@);
            r0.lemma_push_map_commute(f, pid0);
            pics.lemma_map_take_succ(g2, j as int);
            assert(r@.map_values(f) =~= pics.take(j + 1).map_values(g2));
        }
    }
    proof {
        assert(group@.pictures.take(n as int) =~= group@.pictures);
    }
    r
}

/// Collects the remote storage keys of every picture of an album: the full
/// fan-out set of its deletion.
pub fn all_public_ids(album: &Album) -> (r: Vec<String>)
    ensures
        r@.map_values(|s: String| s@) == album_public_ids(album@),
{
    let mut r: Vec<String> = Vec::new();
    let n = album.groups.len();
    for k in 0..n
        invariant
            n == album.groups@.len(),
            r@.map_values(|s: String| s@) =~= album_public_ids_of(album@.groups.take(k as int)),
    {
        let mut ks = group_public_ids(&album.groups[k]);
        let ghost r_before = r@;
        let ghost ks_before = ks@;
        r.append(&mut ks);
        proof {
            assert(album@.groups[k as int] == album.groups@[k as int]@);
            let f = |s: String| s@;
            assert(r@.map_values(f) =~= r_before.map_values(f) + ks_before.map_values(f));
            let taken = album@.groups.take(k + 1);
            assert(taken.drop_last() =~= album@.groups.take(k as int));
            assert(taken.last() == album@.groups[k as int]);
            assert(r@.map_values(f) =~= album_public_ids_of(taken));
        }
    }
    proof {
        assert(album@.groups.take(n as int) =~= album@.groups);
    }
    r
}

/// Position of the first album with the given key, or -1.
pub open spec fn find_album(albums: Seq<AlbumView>, id: Seq<char>) -> int
    decreases albums.len(),
{
    if albums.len() == 0 {
        -1
    } else if albums[0].id == id {
        0
    } else {
        let r = find_album(albums.drop_first(), id);
        if r < 0 {
            -1
        } else {
            r + 1
        }
    }
}

/// `find_album` returns -1 exactly when the key is absent, and otherwise the
/// first position holding it.
pub proof fn lemma_find_album(albums: Seq<AlbumView>, id: Seq<char>)
    ensures
        find_album(albums, id) == -1 <==> (forall|i: int|
            0 <= i < albums.len() ==> (#[trigger] albums[i]).id != id),
        find_album(albums, id) >= 0 ==> {
            let r = find_album(albums, id);
            &&& r < albums.len()
            &&& albums[r].id == id
            &&& forall|i: int| 0 <= i < r ==> (#[trigger] albums[i]).id != id
        },
    decreases albums.len(),
{
    if albums.len() > 0 && albums[0].id != id {
        let rest = albums.drop_first();
        lemma_find_album(rest, id);
        let r = find_album(albums, id);
        if find_album(rest, id) == -1 {
            assert forall|i: int| 0 <= i < albums.len() implies (#[trigger] albums[i]).id
                != id by {
                if i > 0 {
                    assert(albums[i] == rest[i - 1]);
                }
            }
        } else {
            let rr = find_album(rest, id);
            assert(albums[r] == rest[rr]);
            assert forall|i: int| 0 <= i < r implies (#[trigger] albums[i]).id != id by {
                if i > 0 {
                    assert(albums[i] == rest[i - 1]);
                }
            }
        }
    }
}

/// Position of the first album with the given key, or `None`.
pub fn find_album_index(albums: &Vec<Album>, id: &String) -> (r: Option<usize>)
    ensures
        ({
            let views = albums@.map_values(|a: Album| a@);
            match r {
                Some(k) => k < albums@.len() && find_album(views, id@) == k,
                None => find_album(views, id@) == -1,
            }
        }),
{
    let ghost views = albums@.map_values(|a: Album| a@);
    let n = albums.len();
    for k in 0..n
        invariant
            n == albums@.len(),
            views == albums@.map_values(|a: Album| a@),
            forall|i: int| 0 <= i < k ==> (#[trigger] views[i]).id != id@,
    {
        if albums[k].id.eq(id) {
            proof {
                lemma_find_album(views, id@);
                assert(views[k as int] == albums@[k as int]@);
            }
            return Some(k);
        }
        proof {
            assert(views[k as int] == albums@[k as int]@);
        }
    }
    proof {
        lemma_find_album(views, id@);
    }
    None
}

/// A row is asked about: it gains an ask-delete entry if it had none; no
/// remote call is made. A row already in a deletion workflow is unchanged.
pub fn ask_delete(store: &mut StateStore, id: &String)
    requires
        old(store).wf(),
    ensures
        final(store).wf(),
        final(store)@ == orch_step(old(store)@, OrchEvent::Ask { id: id@ }),
{
    match store.get(id) {
        None => {
            store.set(
                id,
                State { delete_status: DeleteStatus::AskDelete, total: 0, current: 0 },
            );
        },
        Some(_) => {
        },
    }
}

/// The user thought better of it: an ask-delete entry is dropped and the row
/// is active again. A row already deleting cannot be cancelled — its fan-out
/// is in flight — and a row with no entry is unchanged.
pub fn cancel_delete(store: &mut StateStore, id: &String)
    requires
        old(store).wf(),
    ensures
        final(store).wf(),
        final(store)@ == orch_step(old(store)@, OrchEvent::Cancel { id: id@ }),
{
    match store.get(id) {
        Some(st) => {
            match st.delete_status {
                DeleteStatus::AskDelete => {
                    store.remove(id);
                },
                DeleteStatus::Deleting => {
                },
            }
        },
        None => {
        },
    }
}

/// The user confirmed: the row moves to `Deleting` with `total` set to the
/// number of child keys handed in and no resolution counted yet, and the
/// caller must dispatch one remote deletion per key — or, when there are no
/// children at all, the barrier is already satisfied and the parent deletion
/// is due at once. Ignored unless the row was at `AskDelete`.
pub fn confirm_delete(store: &mut StateStore, id: &String, keys: Vec<String>) -> (d: Dispatch)
    requires
        old(store).wf(),
    ensures
        final(store).wf(),
        final(store)@ == orch_step(
            old(store)@,
            OrchEvent::Confirm { id: id@, total: keys@.len() as usize },
        ),
        ({
            let m = old(store)@;
            if m.contains_key(id@) && m[id@].delete_status is AskDelete {
                if keys@.len() == 0 {
                    d is Parent
                } else {
                    d == Dispatch::Children(keys)
                }
            } else {
                d is Nothing
            }
        }),
{
    match store.get(id) {
        Some(st) => {
            match st.delete_status {
                DeleteStatus::AskDelete => {
                    let total = keys.len();
                    store.set(
                        id,
                        State { delete_status: DeleteStatus::Deleting, total, current: 0 },
                    );
                    if total == 0 {
                        Dispatch::Parent
                    } else {
                        Dispatch::Children(keys)
                    }
                },
                DeleteStatus::Deleting => Dispatch::Nothing,
            }
        },
        None => Dispatch::Nothing,
    }
}

/// The confirm step for a whole album: the fan-out set is every picture of
/// every group of the album named by the key. Ignored when no such album is
/// listed.
pub fn confirm_delete_album(store: &mut StateStore, albums: &Vec<Album>, id: &String) -> (d:
    Dispatch)
    requires
        old(store).wf(),
    ensures
        final(store).wf(),
        ({
            let avs = albums@.map_values(|a: Album| a@);
            let k = find_album(avs, id@);
            if k >= 0 {
                let total = album_public_ids(avs[k]).len();
                &&& final(store)@ == orch_step(
                    old(store)@,
                    OrchEvent::Confirm { id: id@, total: total as usize },
                )
                &&& ({
                    let m = old(store)@;
                    if m.contains_key(id@) && m[id@].delete_status is AskDelete {
                        if total == 0 {
                            d is Parent
                        } else {
                            d matches Dispatch::Children(keys) && keys@.map_values(|s: String| s@)
                                == album_public_ids(avs[k])
                        }
                    } else {
                        d is Nothing
                    }
                })
            } else {
                final(store)@ == old(store)@ && d is Nothing
            }
        }),
{
    match find_album_index(albums, id) {
        Some(k) => {
            let keys = all_public_ids(&albums[k]);
            proof {
                assert(albums@.map_values(|a: Album| a@)[k as int] == albums@[k as int]@);
            }
            confirm_delete(store, id, keys)
        },
        None => Dispatch::Nothing,
    }
}

/// One fanned-out child deletion resolved — successfully or not, it counts
/// exactly once. Returns `Parent` exactly when this was the last outstanding
/// child, i.e. the barrier is now satisfied and the parent deletion must be
/// dispatched. A resolution for a row not in `Deleting` (say, long since
/// removed) is ignored.
#[allow(unused_variables)]
pub fn child_resolved(store: &mut StateStore, id: &String, success: bool) -> (d: Dispatch)
    requires
        old(store).wf(),
    ensures
        final(store).wf(),
        final(store)@ == orch_step(old(store)@, OrchEvent::ChildResolved { id: id@ }),
        d is Parent <==> barrier_reached(old(store)@, id@),
        d is Parent || d is Nothing,
{
    match store.get(id) {
        Some(st) => {
            match st.delete_status {
                DeleteStatus::Deleting => {
                    if st.current < st.total {
                        let next = st.current + 1;
                        store.set(
                            id,
                            State {
                                delete_status: DeleteStatus::Deleting,
                                total: st.total,
                                current: next,
                            },
                        );
                        if next == st.total {
                            Dispatch::Parent
                        } else {
                            Dispatch::Nothing
                        }
                    } else {
                        Dispatch::Nothing
                    }
                },
                DeleteStatus::AskDelete => Dispatch::Nothing,
            }
        },
        None => Dispatch::Nothing,
    }
}

/// The parent deletion resolved. On success the album leaves the list and the
/// row's entry is dropped: the row is terminally removed. On failure the
/// entry is dropped too, reverting the row to active, and the list is
/// untouched. Ignored unless the row was in `Deleting`.
pub fn parent_resolved(
    store: &mut StateStore,
    albums: &mut Vec<Album>,
    id: &String,
    success: bool,
) -> (r: ParentOutcome)
    requires
        old(store).wf(),
    ensures
        final(store).wf(),
        final(store)@ == orch_step(old(store)@, OrchEvent::ParentResolved { id: id@ }),
        ({
            let m = old(store)@;
            let avs = old(albums)@.map_values(|a: Album| a@);
            if m.contains_key(id@) && m[id@].delete_status is Deleting {
                if success {
                    r is Removed && ({
                        let k = find_album(avs, id@);
                        if k >= 0 {
                            final(albums)@ == old(albums)@.remove(k)
                        } else {
                            final(albums)@ == old(albums)@
                        }
                    })
                } else {
                    r is Reverted && final(albums)@ == old(albums)@
                }
            } else {
                r is Ignored && final(albums)@ == old(albums)@
            }
        }),
{
    match store.get(id) {
        Some(st) => {
            match st.delete_status {
                DeleteStatus::Deleting => {
                    store.remove(id);
                    if success {
                        match find_album_index(albums, id) {
                            Some(k) => {
                                albums.remove(k);
                            },
                            None => {
                            },
                        }
                        ParentOutcome::Removed
                    } else {
                        ParentOutcome::Reverted
                    }
                },
                DeleteStatus::AskDelete => ParentOutcome::Ignored,
            }
        },
        None => ParentOutcome::Ignored,
    }
}

/// Splices the group with the given key out of the album; the group-variant
/// counterpart of an album leaving the list. A no-op when the key is absent.
pub open spec fn remove_group_spec(a: AlbumView, id: Seq<char>) -> AlbumView {
    let i = find_group(a.groups, id);
    if i < 0 {
        a
    } else {
        AlbumView { groups: a.groups.remove(i), ..a }
    }
}

/// Splices one group out of the album by its key.
pub fn remove_group(album: &mut Album, id: &String)
    ensures
        final(album)@ == remove_group_spec(old(album)@, id@),
{
    match find_group_index(&album.groups, id) {
        Some(k) => {
            let ghost a0 = album@;
            album.groups.remove(k);
            proof {
                assert(album@ =~~= remove_group_spec(a0, id@));
            }
        },
        None => {
        },
    }
}

/// The map left behind by a whole sequence of events, first event first.
pub open spec fn orch_run(m: Map<Seq<char>, State>, es: Seq<OrchEvent>) -> Map<Seq<char>, State>
    decreases es.len(),
{
    if es.len() == 0 {
        m
    } else {
        orch_step(orch_run(m, es.drop_last()), es.last())
    }
}

/// The map after `k` child resolutions for one row, nothing else happening.
pub open spec fn after_resolutions(m: Map<Seq<char>, State>, id: Seq<char>, k: nat) -> Map<
    Seq<char>,
    State,
>
    decreases k,
{
    if k == 0 {
        m
    } else {
        orch_step(after_resolutions(m, id, (k - 1) as nat), OrchEvent::ChildResolved { id })
    }
}

/// Resolutions drive `current` up by exactly one each, saturating at `total`,
/// and touch no other row.
pub proof fn lemma_resolutions_progress(m: Map<Seq<char>, State>, id: Seq<char>, k: nat)
    requires
        m.contains_key(id),
        m[id].delete_status is Deleting,
        m[id].current == 0,
    ensures
        ({
            let m2 = after_resolutions(m, id, k);
            &&& m2.dom() == m.dom()
            &&& forall|k2: Seq<char>| k2 != id && m.contains_key(k2) ==> m2[k2] == m[k2]
            &&& m2[id] == (State {
                delete_status: DeleteStatus::Deleting,
                total: m[id].total,
                current: if k <= m[id].total {
                    k as usize
                } else {
                    m[id].total
                },
            })
        }),
    decreases k,
{
    if k > 0 {
        lemma_resolutions_progress(m, id, (k - 1) as nat);
        let m1 = after_resolutions(m, id, (k - 1) as nat);
        let m2 = after_resolutions(m, id, k);
        assert(m2 == orch_step(m1, OrchEvent::ChildResolved { id }));
        assert(m2.dom() =~= m.dom());
    }
}

/// Law (deletion barrier): starting a fan-out of `total` children with no
/// resolution counted, the `j`-th child resolution satisfies the barrier —
/// and so dispatches the parent deletion — exactly when `j == total`: never
/// before the last outstanding child resolved, never twice. (A fan-out of
/// zero children dispatches the parent at confirm time instead, and no
/// resolution ever triggers it.)
pub proof fn lemma_deletion_barrier(m: Map<Seq<char>, State>, id: Seq<char>, j: nat)
    requires
        m.contains_key(id),
        m[id].delete_status is Deleting,
        m[id].current == 0,
        j >= 1,
    ensures
        barrier_reached(after_resolutions(m, id, (j - 1) as nat), id) <==> j == m[id].total,
{
    lemma_resolutions_progress(m, id, (j - 1) as nat);
}

/// Law (deletion barrier, from the confirmation on): confirm a row that was
/// asked about, fanning out `total` children, and let child resolutions
/// arrive one by one; the `j`-th resolution is the one that dispatches the
/// parent deletion exactly when `j == total`. With no children at all the
/// confirm step itself owes the parent deletion, and no resolution ever
/// dispatches it.
pub proof fn lemma_confirm_then_barrier(m: Map<Seq<char>, State>, id: Seq<char>, total: usize, j: nat)
    requires
        m.contains_key(id),
        m[id].delete_status is AskDelete,
        j >= 1,
    ensures
        ({
            let m1 = orch_step(m, OrchEvent::Confirm { id, total });
            barrier_reached(after_resolutions(m1, id, (j - 1) as nat), id) <==> j == total
        }),
{
    let m1 = orch_step(m, OrchEvent::Confirm { id, total });
    lemma_deletion_barrier(m1, id, j);
}

/// Law (sound progress): whatever event arrives, every row the store then
/// holds still counts at most as many resolutions as it has children.
pub proof fn lemma_step_preserves_soundness(m: Map<Seq<char>, State>, e: OrchEvent)
    requires
        forall|k: Seq<char>| m.contains_key(k) ==> (#[trigger] m[k]).wf(),
    ensures
        forall|k: Seq<char>|
            orch_step(m, e).contains_key(k) ==> (#[trigger] orch_step(m, e)[k]).wf(),
{
    let m2 = orch_step(m, e);
    assert forall|k: Seq<char>| m2.contains_key(k) implies (#[trigger] m2[k]).wf() by {
        if k != e.id() {
            assert(m2[k] == m[k]);
        }
    }
}

/// Law (row independence): a run of events none of which addresses this row
/// leaves the row exactly as it was — present or absent, and if present with
/// the same progress record. Two rows each being driven through their own
/// deletion cannot affect one another.
pub proof fn lemma_row_independence(m: Map<Seq<char>, State>, es: Seq<OrchEvent>, id: Seq<char>)
    requires
        forall|i: int| 0 <= i < es.len() ==> (#[trigger] es[i]).id() != id,
    ensures
        orch_run(m, es).contains_key(id) <==> m.contains_key(id),
        m.contains_key(id) ==> orch_run(m, es)[id] == m[id],
    decreases es.len(),
{
    if es.len() > 0 {
        let prefix = es.drop_last();
        assert(forall|i: int| 0 <= i < prefix.len() ==> #[trigger] prefix[i] == es[i]);
        lemma_row_independence(m, prefix, id);
    }
}

} // verus!
