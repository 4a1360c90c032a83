use album_maker::models::album::Album;
use album_maker::models::group::Group;
use album_maker::models::picture::Picture;
use album_maker::models::state::DeleteStatus;
use album_maker::orchestrator::{
    all_public_ids, ask_delete, cancel_delete, child_resolved, confirm_delete,
    confirm_delete_album, group_public_ids, parent_resolved, remove_group, Dispatch, ParentOutcome,
};
use album_maker::store::StateStore;

fn pic(asset_id: &str, public_id: &str) -> Picture {
    Picture {
        asset_id: asset_id.to_string(),
        public_id: public_id.to_string(),
        format: "jpg".to_string(),
        caption: None,
    }
}

/// An album with group A holding three pictures and group B holding none.
fn three_child_album(id: &str) -> Album {
    let mut album = Album::new();
    album.id = id.to_string();
    album.title = "Trip".to_string();
    let mut a = Group::with_id("grp-a".to_string());
    a.pictures.push(pic("a-1", "p-1"));
    a.pictures.push(pic("a-2", "p-2"));
    a.pictures.push(pic("a-3", "p-3"));
    let b = Group::with_id("grp-b".to_string());
    album.groups.push(a);
    album.groups.push(b);
    album
}

#[test]
fn fan_out_barrier_then_parent_removal() {
    let id = "col-1".to_string();
    let mut albums = vec![three_child_album("col-1")];
    let mut store = StateStore::new();

    ask_delete(&mut store, &id);
    let st = store.get(&id).expect("entry created on ask");
    assert!(st.delete_status == DeleteStatus::AskDelete);

    let d = confirm_delete_album(&mut store, &albums, &id);
    match d {
        Dispatch::Children(keys) => {
            assert_eq!(keys, vec!["p-1", "p-2", "p-3"]);
        }
        _ => panic!("expected a fan-out of three child deletions"),
    }
    let st = store.get(&id).expect("entry kept on confirm");
    assert!(st.delete_status == DeleteStatus::Deleting);
    assert_eq!(st.total, 3);
    assert_eq!(st.current, 0);

    // Two succeed, one fails; every resolution counts, and the parent
    // deletion is dispatched exactly at the third.
    assert!(matches!(child_resolved(&mut store, &id, true), Dispatch::Nothing));
    assert!(matches!(child_resolved(&mut store, &id, false), Dispatch::Nothing));
    assert_eq!(store.get(&id).unwrap().current, 2);
    assert!(matches!(child_resolved(&mut store, &id, true), Dispatch::Parent));

    let r = parent_resolved(&mut store, &mut albums, &id, true);
    assert!(r == ParentOutcome::Removed);
    assert!(albums.is_empty());
    assert!(store.get(&id).is_none());
}

#[test]
fn barrier_holds_when_every_child_fails() {
    let id = "col-2".to_string();
    let albums = vec![three_child_album("col-2")];
    let mut store = StateStore::new();
    ask_delete(&mut store, &id);
    assert!(matches!(
        confirm_delete_album(&mut store, &albums, &id),
        Dispatch::Children(_)
    ));
    assert!(matches!(child_resolved(&mut store, &id, false), Dispatch::Nothing));
    assert!(matches!(child_resolved(&mut store, &id, false), Dispatch::Nothing));
    assert!(matches!(child_resolved(&mut store, &id, false), Dispatch::Parent));
    // A stray late resolution changes nothing and never re-fires the parent.
    assert!(matches!(child_resolved(&mut store, &id, true), Dispatch::Nothing));
    assert_eq!(store.get(&id).unwrap().current, 3);
}

#[test]
fn zero_children_dispatches_parent_at_confirm() {
    let id = "col-3".to_string();
    let mut album = Album::new();
    album.id = "col-3".to_string();
    album.groups.push(Group::with_id("empty".to_string()));
    let albums = vec![album];
    let mut store = StateStore::new();
    ask_delete(&mut store, &id);
    assert!(matches!(
        confirm_delete_album(&mut store, &albums, &id),
        Dispatch::Parent
    ));
    let st = store.get(&id).unwrap();
    assert_eq!(st.total, 0);
    assert_eq!(st.current, 0);
}

#[test]
fn ask_then_cancel_leaves_row_active() {
    let id = "x".to_string();
    let mut store = StateStore::new();
    ask_delete(&mut store, &id);
    assert!(store.get(&id).is_some());
    cancel_delete(&mut store, &id);
    assert!(store.get(&id).is_none());
}

#[test]
fn cancel_cannot_abort_running_fan_out() {
    let id = "col-4".to_string();
    let mut store = StateStore::new();
    ask_delete(&mut store, &id);
    let keys = vec!["p-1".to_string()];
    assert!(matches!(
        confirm_delete(&mut store, &id, keys),
        Dispatch::Children(_)
    ));
    cancel_delete(&mut store, &id);
    let st = store.get(&id).expect("deleting row survives a cancel");
    assert!(st.delete_status == DeleteStatus::Deleting);
}

#[test]
fn rows_progress_independently() {
    let id1 = "row-1".to_string();
    let id2 = "row-2".to_string();
    let mut store = StateStore::new();

    ask_delete(&mut store, &id1);
    ask_delete(&mut store, &id2);
    assert!(matches!(
        confirm_delete(&mut store, &id1, vec!["a".to_string(), "b".to_string()]),
        Dispatch::Children(_)
    ));
    assert!(matches!(
        confirm_delete(&mut store, &id2, vec!["c".to_string()]),
        Dispatch::Children(_)
    ));

    // Interleave: the rows' counters never leak into each other.
    assert!(matches!(child_resolved(&mut store, &id1, true), Dispatch::Nothing));
    assert!(matches!(child_resolved(&mut store, &id2, false), Dispatch::Parent));
    assert_eq!(store.get(&id1).unwrap().current, 1);
    assert_eq!(store.get(&id1).unwrap().total, 2);
    assert_eq!(store.get(&id2).unwrap().current, 1);
    assert!(matches!(child_resolved(&mut store, &id1, true), Dispatch::Parent));
    assert_eq!(store.get(&id2).unwrap().current, 1);
}

#[test]
fn parent_failure_reverts_row_and_keeps_album() {
    let id = "col-5".to_string();
    let mut albums = vec![three_child_album("col-5")];
    let mut store = StateStore::new();
    ask_delete(&mut store, &id);
    assert!(matches!(
        confirm_delete_album(&mut store, &albums, &id),
        Dispatch::Children(_)
    ));
    child_resolved(&mut store, &id, true);
    child_resolved(&mut store, &id, true);
    child_resolved(&mut store, &id, true);
    let r = parent_resolved(&mut store, &mut albums, &id, false);
    assert!(r == ParentOutcome::Reverted);
    assert_eq!(albums.len(), 1);
    assert!(store.get(&id).is_none());
    // The row is active again: a fresh ask starts over.
    ask_delete(&mut store, &id);
    assert!(store.get(&id).unwrap().delete_status == DeleteStatus::AskDelete);
}

#[test]
fn stray_events_are_ignored() {
    let id = "ghost".to_string();
    let mut albums: Vec<Album> = Vec::new();
    let mut store = StateStore::new();
    assert!(matches!(child_resolved(&mut store, &id, true), Dispatch::Nothing));
    let r = parent_resolved(&mut store, &mut albums, &id, true);
    assert!(r == ParentOutcome::Ignored);
    assert!(matches!(
        confirm_delete(&mut store, &id, Vec::new()),
        Dispatch::Nothing
    ));
}

#[test]
fn public_id_collection_walks_groups_in_order() {
    let album = three_child_album("col-6");
    let keys = all_public_ids(&album);
    assert_eq!(keys, vec!["p-1", "p-2", "p-3"]);
    let group_keys = group_public_ids(&album.groups[0]);
    assert_eq!(group_keys, vec!["p-1", "p-2", "p-3"]);
    assert!(group_public_ids(&album.groups[1]).is_empty());
}

#[test]
fn remove_group_splices_by_key() {
    let mut album = three_child_album("col-7");
    remove_group(&mut album, &"grp-a".to_string());
    assert_eq!(album.groups.len(), 1);
    assert_eq!(album.groups[0].id, "grp-b");
    remove_group(&mut album, &"missing".to_string());
    assert_eq!(album.groups.len(), 1);
}

#[test]
fn ask_delete_does_not_reset_running_row() {
    let id = "col-8".to_string();
    let mut store = StateStore::new();
    ask_delete(&mut store, &id);
    assert!(matches!(
        confirm_delete(&mut store, &id, vec!["k".to_string()]),
        Dispatch::Children(_)
    ));
    ask_delete(&mut store, &id);
    let st = store.get(&id).unwrap();
    assert!(st.delete_status == DeleteStatus::Deleting);
    assert_eq!(st.total, 1);
}
