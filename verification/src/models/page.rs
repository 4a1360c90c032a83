use vstd::prelude::*;

verus! {

/// Path segment of each page.
pub const LK_MY_ALBUMS: &'static str = "my-albums";

pub const LK_NEW_ALBUM: &'static str = "new-album";

pub const LK_VIEW_ALBUM: &'static str = "album";

pub const LK_EDIT_ALBUM: &'static str = "edit-album";

pub const LK_SLIDESHOW: &'static str = "slideshow";

pub const LK_LOGIN: &'static str = "login";

pub const LK_MY_SHARINGS: &'static str = "my-sharings";

pub const LK_SHARE: &'static str = "share";

pub const LK_SHARESLIDE: &'static str = "shareslide";

/// The pages of the application.
#[derive(Debug, Clone, PartialEq, Eq, Structural)]
pub enum Page {
    MyAlbums,
    NewAlbum,
    EditAlbum,
    ViewAlbum,
    Slideshow,
    Login,
    MySharings,
    Share,
    ShareSlide,
}

/// Which page the first path segment of a URL names; anything unknown lands
/// on the album list.
pub open spec fn spec_page_of_path(s: Seq<char>) -> Page {
    if s == "new-album"@ {
        Page::NewAlbum
    } else if s == "album"@ {
        Page::ViewAlbum
    } else if s == "edit-album"@ {
        Page::EditAlbum
    } else if s == "slideshow"@ {
        Page::Slideshow
    } else if s == "login"@ {
        Page::Login
    } else if s == "my-sharings"@ {
        Page::MySharings
    } else if s == "share"@ {
        Page::Share
    } else if s == "shareslide"@ {
        Page::ShareSlide
    } else {
        Page::MyAlbums
    }
}

/// Routes the first path segment of a URL to its page.
pub fn page_of_path(part: &String) -> (r: Page)
    ensures
        r == spec_page_of_path(part@),
{
    if string_is(part, LK_NEW_ALBUM) {
        Page::NewAlbum
    } else if string_is(part, LK_VIEW_ALBUM) {
        Page::ViewAlbum
    } else if string_is(part, LK_EDIT_ALBUM) {
        Page::EditAlbum
    } else if string_is(part, LK_SLIDESHOW) {
        Page::Slideshow
    } else if string_is(part, LK_LOGIN) {
        Page::Login
    } else if string_is(part, LK_MY_SHARINGS) {
        Page::MySharings
    } else if string_is(part, LK_SHARE) {
        Page::Share
    } else if string_is(part, LK_SHARESLIDE) {
        Page::ShareSlide
    } else {
        Page::MyAlbums
    }
}

/// String comparison against a literal.
pub fn string_is(s: &String, lit: &str) -> (r: bool)
    ensures
        r == (s@ == lit@),
{
    let owned: String = lit.to_owned();
    *s == owned
}

} // verus!
