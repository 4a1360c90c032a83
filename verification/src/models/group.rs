use vstd::prelude::*;
use crate::models::picture::{Picture, PictureView};
use crate::models::trip::{Trip, TripView};

verus! {

/// A named sub-section of an album holding an ordered sequence of pictures.
/// `id` is a stable client-generated key, never reused. `cover` holds the
/// `asset_id` of the chosen cover picture, or is empty. `count_fake_pictures`
/// counts uploads still in flight (transient, never persisted).
pub struct Group {
    pub id: String,
    pub title: String,
    pub pictures: Vec<Picture>,
    pub cover: String,
    pub trip: Option<Trip>,
    pub count_fake_pictures: u32,
}

/// The mathematical value of a `Group`.
#[verifier::ext_equal]
pub struct GroupView {
    pub id: Seq<char>,
    pub title: Seq<char>,
    pub pictures: Seq<PictureView>,
    pub cover: Seq<char>,
    pub trip: Option<TripView>,
    pub count_fake_pictures: u32,
}

impl View for Group {
    type V = GroupView;

    open spec fn view(&self) -> GroupView {
        GroupView {
            id: self.id@,
            title: self.title@,
            pictures: self.pictures@.map_values(|p: Picture| p@),
            cover: self.cover@,
            trip: match self.trip {
                Some(t) => Some(t@),
                None => None,
            },
            count_fake_pictures: self.count_fake_pictures,
        }
    }
}

impl GroupView {
    /// Within one group every picture has its own `asset_id`.
    pub open spec fn wf(self) -> bool {
        forall|i: int, j: int|
            0 <= i < self.pictures.len() && 0 <= j < self.pictures.len() && i != j
                ==> self.pictures[i].asset_id != self.pictures[j].asset_id
    }
}

impl Clone for Group {
    fn clone(&self) -> (r: Self)
        ensures
            r@ == self@,
    {
        let mut pictures: Vec<Picture> = Vec::new();
        let n = self.pictures.len();
        for k in 0..n
            invariant
                n == self.pictures.len(),
                pictures@ =~= self.pictures@.take(k as int),
        {
            pictures.push(self.pictures[k].clone());
            proof {
                assert(pictures@ =~= self.pictures@.take(k + 1));
            }
        }
        proof {
            assert(pictures@ =~= self.pictures@);
        }
        Group {
            id: self.id.clone(),
            title: self.title.clone(),
            pictures,
            cover: self.cover.clone(),
            trip: match &self.trip {
                Some(t) => Some(t.clone()),
                None => None,
            },
            count_fake_pictures: self.count_fake_pictures,
        }
    }
}

/// A freshly generated stable group key.
///
/// Relies on `uuid::Uuid::new_v4` and the `Display` impl of `uuid::Uuid`:
/// a version-4 UUID rendered in the hyphenated form, which is always 36
/// characters. The value itself is random, so nothing more is promised.
#[verifier::external_body]
fn fresh_group_id() -> (r: String)
    ensures
        r@.len() == 36,
{
    uuid::Uuid::new_v4().to_string()
}

impl Group {
    /// An empty group under a caller-chosen stable key.
    pub fn with_id(id: String) -> (r: Self)
        ensures
            r@.id == id@,
            r@.title.len() == 0,
            r@.pictures.len() == 0,
            r@.cover.len() == 0,
            r@.trip is None,
            r@.count_fake_pictures == 0,
            r@.wf(),
    {
        Group {
            id,
            title: String::new(),
            pictures: Vec::new(),
            cover: String::new(),
            trip: None,
            count_fake_pictures: 0,
        }
    }

    /// An empty group under a freshly generated stable key.
    pub fn new() -> (r: Self)
        ensures
            r@.id.len() == 36,
            r@.title.len() == 0,
            r@.pictures.len() == 0,
            r@.cover.len() == 0,
            r@.trip is None,
            r@.count_fake_pictures == 0,
            r@.wf(),
    {
        Group::with_id(fresh_group_id())
    }
}

} // verus!
