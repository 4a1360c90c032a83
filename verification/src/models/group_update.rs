use vstd::prelude::*;
use crate::models::picture::{Picture, PictureView};
use crate::models::trip::{Trip, TripView};

verus! {

/// The closed set of edit events a leaf editor may emit. Each event targets
/// one group by its stable key; deletion of whole entities is not an edit
/// event, it belongs to the deletion workflow.
#[derive(Clone, Copy, PartialEq, Eq, Structural, Debug)]
pub enum UpdateType {
    Title,
    CountFakePictures,
    AddPicture,
    DeletePicture,
    Caption,
    SetGroupCover,
    SetAlbumCover,
    TripChanged,
}

/// One tagged delta: the event kind, the stable key of the group it targets,
/// and the payload fields the kind reads (the others stay `None`).
pub struct GroupUpdate {
    pub upd_type: UpdateType,
    pub id: String,
    pub grp_data: Option<String>,
    pub picture: Option<Picture>,
    pub count_fake_pictures: Option<u32>,
    pub asset_id: Option<String>,
    pub caption: Option<String>,
    pub trip: Option<Trip>,
}

/// The mathematical value of a `GroupUpdate`.
#[verifier::ext_equal]
pub struct GroupUpdateView {
    pub upd_type: UpdateType,
    pub id: Seq<char>,
    pub grp_data: Option<Seq<char>>,
    pub picture: Option<PictureView>,
    pub count_fake_pictures: Option<u32>,
    pub asset_id: Option<Seq<char>>,
    pub caption: Option<Seq<char>>,
    pub trip: Option<TripView>,
}

impl View for GroupUpdate {
    type V = GroupUpdateView;

    open spec fn view(&self) -> GroupUpdateView {
        GroupUpdateView {
            upd_type: self.upd_type,
            id: self.id@,
            grp_data: match self.grp_data {
                Some(s) => Some(s@),
                None => None,
            },
            picture: match self.picture {
                Some(p) => Some(p@),
                None => None,
            },
            count_fake_pictures: self.count_fake_pictures,
            asset_id: match self.asset_id {
                Some(s) => Some(s@),
                None => None,
            },
            caption: match self.caption {
                Some(s) => Some(s@),
                None => None,
            },
            trip: match self.trip {
                Some(t) => Some(t@),
                None => None,
            },
        }
    }
}

/// A delta with every payload field empty; the constructors below fill in
/// exactly the fields their event kind reads.
fn blank_update(upd_type: UpdateType, id: String) -> (r: GroupUpdate)
    ensures
        r@ == (GroupUpdateView {
            upd_type,
            id: id@,
            grp_data: None,
            picture: None,
            count_fake_pictures: None,
            asset_id: None,
            caption: None,
            trip: None,
        }),
{
    GroupUpdate {
        upd_type,
        id,
        grp_data: None,
        picture: None,
        count_fake_pictures: None,
        asset_id: None,
        caption: None,
        trip: None,
    }
}

impl GroupUpdate {
    /// The delta a group title editor emits.
    pub fn title(id: String, text: String) -> (r: GroupUpdate)
        ensures
            r@ == (GroupUpdateView { grp_data: Some(text@), ..blank_view(UpdateType::Title, id@) }),
    {
        let mut u = blank_update(UpdateType::Title, id);
        u.grp_data = Some(text);
        u
    }

    /// The delta the uploader emits when it starts `n` uploads: render `n`
    /// placeholder pictures.
    pub fn count_fake_pictures(id: String, n: u32) -> (r: GroupUpdate)
        ensures
            r@ == (GroupUpdateView {
                count_fake_pictures: Some(n),
                ..blank_view(UpdateType::CountFakePictures, id@)
            }),
    {
        let mut u = blank_update(UpdateType::CountFakePictures, id);
        u.count_fake_pictures = Some(n);
        u
    }

    /// The delta the uploader emits when one upload has resolved successfully.
    pub fn add_picture(id: String, picture: Picture) -> (r: GroupUpdate)
        ensures
            r@ == (GroupUpdateView {
                picture: Some(picture@),
                ..blank_view(UpdateType::AddPicture, id@)
            }),
    {
        let mut u = blank_update(UpdateType::AddPicture, id);
        u.picture = Some(picture);
        u
    }

    /// The delta a picture row emits when its remote deletion succeeded.
    pub fn delete_picture(id: String, asset_id: String) -> (r: GroupUpdate)
        ensures
            r@ == (GroupUpdateView {
                asset_id: Some(asset_id@),
                ..blank_view(UpdateType::DeletePicture, id@)
            }),
    {
        let mut u = blank_update(UpdateType::DeletePicture, id);
        u.asset_id = Some(asset_id);
        u
    }

    /// The delta a caption editor emits.
    pub fn caption(id: String, asset_id: String, caption: String) -> (r: GroupUpdate)
        ensures
            r@ == (GroupUpdateView {
                asset_id: Some(asset_id@),
                caption: Some(caption@),
                ..blank_view(UpdateType::Caption, id@)
            }),
    {
        let mut u = blank_update(UpdateType::Caption, id);
        u.asset_id = Some(asset_id);
        u.caption = Some(caption);
        u
    }

    /// The delta a picture row emits to toggle the album cover.
    pub fn set_album_cover(id: String, asset_id: String) -> (r: GroupUpdate)
        ensures
            r@ == (GroupUpdateView {
                asset_id: Some(asset_id@),
                ..blank_view(UpdateType::SetAlbumCover, id@)
            }),
    {
        let mut u = blank_update(UpdateType::SetAlbumCover, id);
        u.asset_id = Some(asset_id);
        u
    }

    /// The delta a picture row emits to toggle its group's cover.
    pub fn set_group_cover(id: String, asset_id: String) -> (r: GroupUpdate)
        ensures
            r@ == (GroupUpdateView {
                asset_id: Some(asset_id@),
                ..blank_view(UpdateType::SetGroupCover, id@)
            }),
    {
        let mut u = blank_update(UpdateType::SetGroupCover, id);
        u.asset_id = Some(asset_id);
        u
    }

    /// The delta the trip editor emits; `None` clears the trip.
    pub fn trip_changed(id: String, trip: Option<Trip>) -> (r: GroupUpdate)
        ensures
            r@ == (GroupUpdateView {
                trip: match trip {
                    Some(t) => Some(t@),
                    None => None,
                },
                ..blank_view(UpdateType::TripChanged, id@)
            }),
    {
        let mut u = blank_update(UpdateType::TripChanged, id);
        u.trip = trip;
        u
    }
}

/// The view of a delta with every payload field empty.
pub open spec fn blank_view(upd_type: UpdateType, id: Seq<char>) -> GroupUpdateView {
    GroupUpdateView {
        upd_type,
        id,
        grp_data: None,
        picture: None,
        count_fake_pictures: None,
        asset_id: None,
        caption: None,
        trip: None,
    }
}

} // verus!
