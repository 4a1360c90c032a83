use vstd::prelude::*;

verus! {

/// A share record: a public handle onto one album, with its view/like tallies.
pub struct Sharing {
    pub id: String,
    pub album_id: String,
    pub album_name: String,
    pub nb_like: u32,
    pub nb_view: u32,
}

/// The mathematical value of a `Sharing`.
#[verifier::ext_equal]
pub struct SharingView {
    pub id: Seq<char>,
    pub album_id: Seq<char>,
    pub album_name: Seq<char>,
    pub nb_like: u32,
    pub nb_view: u32,
}

impl View for Sharing {
    type V = SharingView;

    open spec fn view(&self) -> SharingView {
        SharingView {
            id: self.id@,
            album_id: self.album_id@,
            album_name: self.album_name@,
            nb_like: self.nb_like,
            nb_view: self.nb_view,
        }
    }
}

impl Sharing {
    /// The request body for sharing one album: only the album key is filled
    /// in, the remote store assigns the share key and starts the tallies.
    pub fn for_album(album_id: String) -> (r: Self)
        ensures
            r@.id.len() == 0,
            r@.album_id == album_id@,
            r@.album_name.len() == 0,
            r@.nb_like == 0,
            r@.nb_view == 0,
    {
        Sharing {
            id: String::new(),
            album_id,
            album_name: String::new(),
            nb_like: 0,
            nb_view: 0,
        }
    }
}

/// The request body for registering a view or a like of a shared album.
pub struct AddViewLike {
    pub share_id: String,
    pub like: bool,
    pub view: bool,
}

impl AddViewLike {
    /// Exactly one of a view or a like, for the given share.
    pub fn new(share_id: String, view: bool, like: bool) -> (r: Self)
        ensures
            r.share_id@ == share_id@,
            r.view == view,
            r.like == like,
    {
        AddViewLike { share_id, view, like }
    }
}

/// Drops the share record with the given key from the list, as happens after
/// its remote deletion succeeded; the list is unchanged when the key is
/// absent. Only the first record with the key leaves.
pub fn remove_sharing(sharings: &mut Vec<Sharing>, id: &String)
    ensures
        (exists|i: int|
            0 <= i < old(sharings)@.len() && (#[trigger] old(sharings)@[i]).id@ == id@) ==> {
            let i = first_sharing_index(old(sharings)@.map_values(|s: Sharing| s@), id@);
            final(sharings)@ == old(sharings)@.remove(i)
        },
        !(exists|i: int|
            0 <= i < old(sharings)@.len() && (#[trigger] old(sharings)@[i]).id@ == id@)
            ==> final(sharings)@ == old(sharings)@,
{
    let n = sharings.len();
    for k in 0..n
        invariant
            n == sharings@.len(),
            sharings@ == old(sharings)@,
            forall|i: int| 0 <= i < k ==> (#[trigger] sharings@[i]).id@ != id@,
    {
        if sharings[k].id.eq(id) {
            proof {
                let views = sharings@.map_values(|s: Sharing| s@);
                assert forall|i: int| 0 <= i < views.len() implies views[i] == sharings@[i]@ by {}
                lemma_first_sharing_index(views, id@, k as int);
                assert(old(sharings)@[k as int].id@ == id@);
            }
            sharings.remove(k);
            return ;
        }
    }
}

/// The position of the first share record with the given key.
pub open spec fn first_sharing_index(s: Seq<SharingView>, id: Seq<char>) -> int
    decreases s.len(),
{
    if s.len() == 0 {
        -1
    } else if s[0].id == id {
        0
    } else {
        let r = first_sharing_index(s.drop_first(), id);
        if r < 0 {
            -1
        } else {
            r + 1
        }
    }
}

proof fn lemma_first_sharing_index(s: Seq<SharingView>, id: Seq<char>, k: int)
    requires
        0 <= k < s.len(),
        s[k].id == id,
        forall|i: int| 0 <= i < k ==> (#[trigger] s[i]).id != id,
    ensures
        first_sharing_index(s, id) == k,
    decreases k,
{
    if k > 0 {
        lemma_first_sharing_index(s.drop_first(), id, k - 1);
    }
}

} // verus!
