use album_maker::models::album::Album;
use album_maker::models::caption::{Color, Style};
use album_maker::models::group::Group;
use album_maker::models::notif::{notif_timeout_ms, Notif, TypeNotifs};
use album_maker::models::page::{page_of_path, Page};
use album_maker::models::picture::Picture;
use album_maker::models::sharing::{remove_sharing, AddViewLike, Sharing};
use album_maker::models::trip::TranspMode;
use album_maker::slides::{cover_picture, init_slides};

fn pic(asset_id: &str, public_id: &str) -> Picture {
    Picture {
        asset_id: asset_id.to_string(),
        public_id: public_id.to_string(),
        format: "jpg".to_string(),
        caption: Some(format!("caption of {asset_id}")),
    }
}

#[test]
fn new_album_is_blank() {
    let album = Album::new();
    assert_eq!(album.id, "");
    assert_eq!(album.title, "");
    assert!(album.caption_style == Style::Round);
    assert!(album.caption_color == Color::Black);
    assert_eq!(album.cover, "");
    assert!(album.groups.is_empty());
}

#[test]
fn new_group_has_fresh_uuid_key() {
    let g = Group::new();
    assert_eq!(g.id.len(), 36);
    assert_eq!(g.title, "");
    assert!(g.pictures.is_empty());
    assert_eq!(g.cover, "");
    assert!(g.trip.is_none());
    assert_eq!(g.count_fake_pictures, 0);
}

#[test]
fn validation_requires_all_titles() {
    let mut album = Album::new();
    assert!(album.is_not_valid());
    album.title = "Summer".to_string();
    assert!(!album.is_not_valid());
    album.groups.push(Group::with_id("g".to_string()));
    assert!(album.is_not_valid());
    album.groups[0].title = "Beach".to_string();
    assert!(!album.is_not_valid());
}

#[test]
fn remove_sharing_drops_only_the_named_record() {
    let mut sharings = vec![
        Sharing {
            id: "s1".to_string(),
            album_id: "a1".to_string(),
            album_name: "One".to_string(),
            nb_like: 1,
            nb_view: 2,
        },
        Sharing {
            id: "s2".to_string(),
            album_id: "a2".to_string(),
            album_name: "Two".to_string(),
            nb_like: 0,
            nb_view: 0,
        },
    ];
    remove_sharing(&mut sharings, &"s1".to_string());
    assert_eq!(sharings.len(), 1);
    assert_eq!(sharings[0].id, "s2");
    remove_sharing(&mut sharings, &"missing".to_string());
    assert_eq!(sharings.len(), 1);
}

#[test]
fn sharing_request_bodies() {
    let s = Sharing::for_album("alb-7".to_string());
    assert_eq!(s.id, "");
    assert_eq!(s.album_id, "alb-7");
    assert_eq!(s.nb_like, 0);
    assert_eq!(s.nb_view, 0);
    let v = AddViewLike::new("share-1".to_string(), true, false);
    assert_eq!(v.share_id, "share-1");
    assert!(v.view);
    assert!(!v.like);
}

#[test]
fn routing_maps_path_segments() {
    assert!(page_of_path(&"album".to_string()) == Page::ViewAlbum);
    assert!(page_of_path(&"new-album".to_string()) == Page::NewAlbum);
    assert!(page_of_path(&"edit-album".to_string()) == Page::EditAlbum);
    assert!(page_of_path(&"slideshow".to_string()) == Page::Slideshow);
    assert!(page_of_path(&"login".to_string()) == Page::Login);
    assert!(page_of_path(&"my-sharings".to_string()) == Page::MySharings);
    assert!(page_of_path(&"share".to_string()) == Page::Share);
    assert!(page_of_path(&"shareslide".to_string()) == Page::ShareSlide);
    assert!(page_of_path(&"anything-else".to_string()) == Page::MyAlbums);
    assert!(page_of_path(&"".to_string()) == Page::MyAlbums);
}

#[test]
fn enum_display_names() {
    assert_eq!(Style::Round.name(), "Round");
    assert_eq!(Style::Square.name(), "Square");
    assert_eq!(Color::Black.name(), "Black");
    assert_eq!(Color::DeepPurple.name(), "DeepPurple");
    assert_eq!(Color::BlueGrey.name(), "BlueGrey");
    assert_eq!(TranspMode::Plane.name(), "Plane");
}

#[test]
fn notification_defaults_and_timeouts() {
    let n = Notif::new();
    assert_eq!(n.message, "");
    assert!(matches!(n.notif_type, TypeNotifs::Success));
    assert_eq!(notif_timeout_ms(&TypeNotifs::Share), 20000);
    assert_eq!(notif_timeout_ms(&TypeNotifs::Success), 3000);
    assert_eq!(notif_timeout_ms(&TypeNotifs::Error), 3000);
}

#[test]
fn slides_flatten_album_in_order() {
    let mut album = Album::new();
    album.title = "Voyage".to_string();
    let mut g1 = Group::with_id("g1".to_string());
    g1.title = "Alps".to_string();
    g1.pictures.push(pic("a-1", "p-1"));
    g1.pictures.push(pic("a-2", "p-2"));
    let mut g2 = Group::with_id("g2".to_string());
    g2.title = "Coast".to_string();
    album.groups.push(g1);
    album.groups.push(g2);

    let slides = init_slides(&album);
    assert_eq!(slides.len(), 5);
    assert!(slides[0].is_title);
    assert_eq!(slides[1].group_title.as_deref(), Some("Alps"));
    assert!(slides[1].picture.is_none());
    assert_eq!(
        slides[2].picture.as_ref().map(|p| p.asset_id.as_str()),
        Some("a-1")
    );
    assert_eq!(
        slides[3].picture.as_ref().map(|p| p.asset_id.as_str()),
        Some("a-2")
    );
    assert_eq!(slides[4].group_title.as_deref(), Some("Coast"));
}

#[test]
fn backdrop_is_first_picture_of_first_nonempty_group() {
    let mut album = Album::new();
    album.groups.push(Group::with_id("empty".to_string()));
    let mut g = Group::with_id("full".to_string());
    g.pictures.push(pic("a-9", "p-9"));
    album.groups.push(g);
    let cover = cover_picture(&album).expect("an album with pictures has a backdrop");
    assert_eq!(cover.public_id, "p-9");

    let bare = Album::new();
    assert!(cover_picture(&bare).is_none());
}
