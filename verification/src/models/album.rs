use vstd::prelude::*;
use crate::models::caption::{Color, Style};
use crate::models::group::{Group, GroupView};

verus! {

/// The top-level curated item. `id` is the remote key; while it is empty the
/// album has never been persisted. `cover` holds the `asset_id` of the chosen
/// cover picture, or is empty. Groups are an ordered sequence.
pub struct Album {
    pub id: String,
    pub title: String,
    pub caption_style: Style,
    pub caption_color: Color,
    pub cover: String,
    pub groups: Vec<Group>,
}

/// The mathematical value of an `Album`.
#[verifier::ext_equal]
pub struct AlbumView {
    pub id: Seq<char>,
    pub title: Seq<char>,
    pub caption_style: Style,
    pub caption_color: Color,
    pub cover: Seq<char>,
    pub groups: Seq<GroupView>,
}

impl View for Album {
    type V = AlbumView;

    open spec fn view(&self) -> AlbumView {
        AlbumView {
            id: self.id@,
            title: self.title@,
            caption_style: self.caption_style,
            caption_color: self.caption_color,
            cover: self.cover@,
            groups: self.groups@.map_values(|g: Group| g@),
        }
    }
}

impl AlbumView {
    /// Group keys are unique within an album, and each group is itself
    /// well formed.
    pub open spec fn wf(self) -> bool {
        &&& forall|i: int, j: int|
            0 <= i < self.groups.len() && 0 <= j < self.groups.len() && i != j
                ==> self.groups[i].id != self.groups[j].id
        &&& forall|i: int| 0 <= i < self.groups.len() ==> (#[trigger] self.groups[i]).wf()
    }
}

impl Album {
    /// A blank, never-persisted album.
    pub fn new() -> (r: Self)
        ensures
            r@.id.len() == 0,
            r@.title.len() == 0,
            r@.caption_style is Round,
            r@.caption_color is Black,
            r@.cover.len() == 0,
            r@.groups.len() == 0,
            r@.wf(),
    {
        Album {
            id: String::new(),
            title: String::new(),
            caption_style: Style::Round,
            caption_color: Color::Black,
            cover: String::new(),
            groups: Vec::new(),
        }
    }

    /// An album may only be saved when it and all of its groups are titled:
    /// true exactly when the album title or some group title is still empty.
    pub fn is_not_valid(&self) -> (r: bool)
        ensures
            r == (self@.title.len() == 0 || exists|i: int|
                0 <= i < self@.groups.len() && (#[trigger] self@.groups[i]).title.len() == 0),
    {
        if self.title.as_str().is_empty() {
            return true;
        }
        let n = self.groups.len();
        for k in 0..n
            invariant
                n == self.groups.len(),
                forall|i: int| 0 <= i < k ==> (#[trigger] self@.groups[i]).title.len() != 0,
        {
            if self.groups[k].title.as_str().is_empty() {
                proof {
                    assert(self@.groups[k as int] == self.groups@[k as int]@);
                }
                return true;
            }
        }
        false
    }
}

} // verus!
