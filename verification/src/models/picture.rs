use vstd::prelude::*;

verus! {

/// A leaf media item: `asset_id` is the stable client-side key (unique within
/// its group), `public_id` is the remote storage key used for deletion and
/// signing, `format` is the stored file format, and `caption` is optional
/// display text.
pub struct Picture {
    pub asset_id: String,
    pub public_id: String,
    pub format: String,
    pub caption: Option<String>,
}

/// The mathematical value of a `Picture`: every string as a sequence of
/// characters.
#[verifier::ext_equal]
pub struct PictureView {
    pub asset_id: Seq<char>,
    pub public_id: Seq<char>,
    pub format: Seq<char>,
    pub caption: Option<Seq<char>>,
}

impl View for Picture {
    type V = PictureView;

    open spec fn view(&self) -> PictureView {
        PictureView {
            asset_id: self.asset_id@,
            public_id: self.public_id@,
            format: self.format@,
            caption: match self.caption {
                Some(c) => Some(c@),
                None => None,
            },
        }
    }
}

impl Clone for Picture {
    fn clone(&self) -> (r: Self)
        ensures
            r == *self,
    {
        Picture {
            asset_id: self.asset_id.clone(),
            public_id: self.public_id.clone(),
            format: self.format.clone(),
            caption: match &self.caption {
                Some(c) => Some(c.clone()),
                None => None,
            },
        }
    }
}

impl Default for Picture {
    /// An empty, not-yet-uploaded picture.
    fn default() -> (r: Self)
        ensures
            r@.asset_id.len() == 0,
            r@.public_id.len() == 0,
            r@.format.len() == 0,
            r@.caption is None,
    {
        Picture {
            asset_id: String::new(),
            public_id: String::new(),
            format: String::new(),
            caption: None,
        }
    }
}

} // verus!
