use album_maker::models::album::Album;
use album_maker::models::group::Group;
use album_maker::models::group_update::GroupUpdate;
use album_maker::models::picture::Picture;
use album_maker::models::trip::{TranspMode, Trip};
use album_maker::reducer::{apply, drop_pic};

fn pic(asset_id: &str, public_id: &str) -> Picture {
    Picture {
        asset_id: asset_id.to_string(),
        public_id: public_id.to_string(),
        format: "jpg".to_string(),
        caption: None,
    }
}

fn album_with_group(group_id: &str) -> Album {
    let mut album = Album::new();
    album.id = "alb-1".to_string();
    album.title = "Holidays".to_string();
    album.groups.push(Group::with_id(group_id.to_string()));
    album
}

#[test]
fn set_group_cover_sets_then_unsets() {
    let mut album = album_with_group("g");
    assert_eq!(album.groups[0].cover, "");

    apply(
        &mut album,
        &GroupUpdate::set_group_cover("g".to_string(), "pic-1".to_string()),
    );
    assert_eq!(album.groups[0].cover, "pic-1");

    apply(
        &mut album,
        &GroupUpdate::set_group_cover("g".to_string(), "pic-1".to_string()),
    );
    assert_eq!(album.groups[0].cover, "");
}

#[test]
fn set_album_cover_toggles() {
    let mut album = album_with_group("g");
    apply(
        &mut album,
        &GroupUpdate::set_album_cover("g".to_string(), "pic-9".to_string()),
    );
    assert_eq!(album.cover, "pic-9");
    apply(
        &mut album,
        &GroupUpdate::set_album_cover("g".to_string(), "pic-9".to_string()),
    );
    assert_eq!(album.cover, "");
}

#[test]
fn add_picture_appends_and_decrements_counter() {
    let mut album = album_with_group("g");
    apply(&mut album, &GroupUpdate::count_fake_pictures("g".to_string(), 2));
    assert_eq!(album.groups[0].count_fake_pictures, 2);

    apply(
        &mut album,
        &GroupUpdate::add_picture("g".to_string(), pic("a-1", "p-1")),
    );
    assert_eq!(album.groups[0].pictures.len(), 1);
    assert_eq!(album.groups[0].pictures[0].asset_id, "a-1");
    assert_eq!(album.groups[0].count_fake_pictures, 1);
}

#[test]
fn add_picture_counter_clamps_at_zero() {
    let mut album = album_with_group("g");
    assert_eq!(album.groups[0].count_fake_pictures, 0);
    apply(
        &mut album,
        &GroupUpdate::add_picture("g".to_string(), pic("a-1", "p-1")),
    );
    assert_eq!(album.groups[0].count_fake_pictures, 0);
    assert_eq!(album.groups[0].pictures.len(), 1);
}

#[test]
fn delete_picture_missing_asset_is_no_op() {
    let mut album = album_with_group("g");
    apply(
        &mut album,
        &GroupUpdate::add_picture("g".to_string(), pic("a-1", "p-1")),
    );
    apply(
        &mut album,
        &GroupUpdate::delete_picture("g".to_string(), "missing-asset".to_string()),
    );
    assert_eq!(album.groups[0].pictures.len(), 1);
    assert_eq!(album.groups[0].pictures[0].asset_id, "a-1");
}

#[test]
fn delete_picture_removes_first_match() {
    let mut album = album_with_group("g");
    apply(&mut album, &GroupUpdate::add_picture("g".to_string(), pic("a-1", "p-1")));
    apply(&mut album, &GroupUpdate::add_picture("g".to_string(), pic("a-2", "p-2")));
    apply(
        &mut album,
        &GroupUpdate::delete_picture("g".to_string(), "a-1".to_string()),
    );
    assert_eq!(album.groups[0].pictures.len(), 1);
    assert_eq!(album.groups[0].pictures[0].asset_id, "a-2");
}

#[test]
fn event_with_unknown_id_leaves_document_unchanged() {
    let mut album = album_with_group("g");
    apply(&mut album, &GroupUpdate::add_picture("g".to_string(), pic("a-1", "p-1")));
    apply(
        &mut album,
        &GroupUpdate::title("other-group".to_string(), "New title".to_string()),
    );
    apply(
        &mut album,
        &GroupUpdate::set_album_cover("other-group".to_string(), "a-1".to_string()),
    );
    assert_eq!(album.title, "Holidays");
    assert_eq!(album.cover, "");
    assert_eq!(album.groups.len(), 1);
    assert_eq!(album.groups[0].title, "");
    assert_eq!(album.groups[0].pictures.len(), 1);
}

#[test]
fn title_update_renames_only_target_group() {
    let mut album = album_with_group("g1");
    album.groups.push(Group::with_id("g2".to_string()));
    apply(
        &mut album,
        &GroupUpdate::title("g2".to_string(), "Second".to_string()),
    );
    assert_eq!(album.groups[0].title, "");
    assert_eq!(album.groups[1].title, "Second");
}

#[test]
fn caption_update_rewrites_caption() {
    let mut album = album_with_group("g");
    apply(&mut album, &GroupUpdate::add_picture("g".to_string(), pic("a-1", "p-1")));
    apply(
        &mut album,
        &GroupUpdate::caption("g".to_string(), "a-1".to_string(), "Sunset".to_string()),
    );
    assert_eq!(album.groups[0].pictures[0].caption.as_deref(), Some("Sunset"));
}

#[test]
fn trip_change_sets_and_clears() {
    let mut album = album_with_group("g");
    let trip = Trip {
        transp_mode: TranspMode::Plane,
        origin: "Paris".to_string(),
        destination: "Rome".to_string(),
    };
    apply(&mut album, &GroupUpdate::trip_changed("g".to_string(), Some(trip)));
    let stored = album.groups[0].trip.as_ref().expect("trip should be set");
    assert!(stored.transp_mode == TranspMode::Plane);
    assert_eq!(stored.origin, "Paris");
    assert_eq!(stored.destination, "Rome");

    apply(&mut album, &GroupUpdate::trip_changed("g".to_string(), None));
    assert!(album.groups[0].trip.is_none());
}

#[test]
fn drop_pic_swaps_pictures() {
    let mut album = album_with_group("g");
    apply(&mut album, &GroupUpdate::add_picture("g".to_string(), pic("a-1", "p-1")));
    apply(&mut album, &GroupUpdate::add_picture("g".to_string(), pic("a-2", "p-2")));
    apply(&mut album, &GroupUpdate::add_picture("g".to_string(), pic("a-3", "p-3")));
    drop_pic(
        &mut album,
        &"g".to_string(),
        &"a-1".to_string(),
        &"a-3".to_string(),
    );
    assert_eq!(album.groups[0].pictures[0].asset_id, "a-3");
    assert_eq!(album.groups[0].pictures[1].asset_id, "a-2");
    assert_eq!(album.groups[0].pictures[2].asset_id, "a-1");
}

#[test]
fn drop_pic_missing_picture_is_no_op() {
    let mut album = album_with_group("g");
    apply(&mut album, &GroupUpdate::add_picture("g".to_string(), pic("a-1", "p-1")));
    drop_pic(
        &mut album,
        &"g".to_string(),
        &"a-1".to_string(),
        &"missing".to_string(),
    );
    assert_eq!(album.groups[0].pictures[0].asset_id, "a-1");
}

#[test]
fn count_fake_pictures_event_sets_counter() {
    let mut album = album_with_group("g");
    apply(&mut album, &GroupUpdate::count_fake_pictures("g".to_string(), 7));
    assert_eq!(album.groups[0].count_fake_pictures, 7);
    apply(&mut album, &GroupUpdate::count_fake_pictures("g".to_string(), 0));
    assert_eq!(album.groups[0].count_fake_pictures, 0);
}
