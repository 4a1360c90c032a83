//! The update reducer: the single authority that applies one typed delta to
//! the document. Lookup is by the target's stable key; a delta whose key is
//! absent leaves the document exactly as it was.

use vstd::prelude::*;
use crate::models::album::{Album, AlbumView};
use crate::models::group::{Group, GroupView};
use crate::models::group_update::{GroupUpdate, GroupUpdateView, UpdateType};
use crate::models::picture::{Picture, PictureView};

verus! {

/// Position of the first group with the given key, or -1.
pub open spec fn find_group(groups: Seq<GroupView>, id: Seq<char>) -> int
    decreases groups.len(),
{
    if groups.len() == 0 {
        -1
    } else if groups[0].id == id {
        0
    } else {
        let r = find_group(groups.drop_first(), id);
        if r < 0 {
            -1
        } else {
            r + 1
        }
    }
}

/// Position of the first picture with the given asset key, or -1.
pub open spec fn find_picture(pics: Seq<PictureView>, asset_id: Seq<char>) -> int
    decreases pics.len(),
{
    if pics.len() == 0 {
        -1
    } else if pics[0].asset_id == asset_id {
        0
    } else {
        let r = find_picture(pics.drop_first(), asset_id);
        if r < 0 {
            -1
        } else {
            r + 1
        }
    }
}

/// `find_group` returns -1 exactly when the key is absent, and otherwise the
/// first position holding it.
pub proof fn lemma_find_group(groups: Seq<GroupView>, id: Seq<char>)
    ensures
        find_group(groups, id) == -1 <==> (forall|i: int|
            0 <= i < groups.len() ==> (#[trigger] groups[i]).id != id),
        find_group(groups, id) >= 0 ==> {
            let r = find_group(groups, id);
            &&& r < groups.len()
            &&& groups[r].id == id
            &&& forall|i: int| 0 <= i < r ==> (#[trigger] groups[i]).id != id
        },
    decreases groups.len(),
{
    if groups.len() > 0 && groups[0].id != id {
        let rest = groups.drop_first();
        lemma_find_group(rest, id);
        let r = find_group(groups, id);
        if find_group(rest, id) == -1 {
            assert forall|i: int| 0 <= i < groups.len() implies (#[trigger] groups[i]).id
                != id by {
                if i > 0 {
                    assert(groups[i] == rest[i - 1]);
                }
            }
        } else {
            let rr = find_group(rest, id);
            assert(groups[r] == rest[rr]);
            assert forall|i: int| 0 <= i < r implies (#[trigger] groups[i]).id != id by {
                if i > 0 {
                    assert(groups[i] == rest[i - 1]);
                }
            }
        }
    }
}

/// `find_picture` returns -1 exactly when the asset key is absent, and
/// otherwise the first position holding it.
pub proof fn lemma_find_picture(pics: Seq<PictureView>, asset_id: Seq<char>)
    ensures
        find_picture(pics, asset_id) == -1 <==> (forall|i: int|
            0 <= i < pics.len() ==> (#[trigger] pics[i]).asset_id != asset_id),
        find_picture(pics, asset_id) >= 0 ==> {
            let r = find_picture(pics, asset_id);
            &&& r < pics.len()
            &&& pics[r].asset_id == asset_id
            &&& forall|i: int| 0 <= i < r ==> (#[trigger] pics[i]).asset_id != asset_id
        },
    decreases pics.len(),
{
    if pics.len() > 0 && pics[0].asset_id != asset_id {
        let rest = pics.drop_first();
        lemma_find_picture(rest, asset_id);
        let r = find_picture(pics, asset_id);
        if find_picture(rest, asset_id) == -1 {
            assert forall|i: int| 0 <= i < pics.len() implies (#[trigger] pics[i]).asset_id
                != asset_id by {
                if i > 0 {
                    assert(pics[i] == rest[i - 1]);
                }
            }
        } else {
            let rr = find_picture(rest, asset_id);
            assert(pics[r] == rest[rr]);
            assert forall|i: int| 0 <= i < r implies (#[trigger] pics[i]).asset_id != asset_id by {
                if i > 0 {
                    assert(pics[i] == rest[i - 1]);
                }
            }
        }
    }
}

/// A missing optional text payload reads as the empty text.
pub open spec fn opt_seq(o: Option<Seq<char>>) -> Seq<char> {
    match o {
        Some(s) => s,
        None => Seq::empty(),
    }
}

/// A missing optional count payload reads as zero.
pub open spec fn opt_u32(o: Option<u32>) -> u32 {
    match o {
        Some(n) => n,
        None => 0,
    }
}

/// A missing optional picture payload reads as an empty picture.
pub open spec fn opt_picture(o: Option<PictureView>) -> PictureView {
    match o {
        Some(p) => p,
        None => PictureView {
            asset_id: Seq::empty(),
            public_id: Seq::empty(),
            format: Seq::empty(),
            caption: None,
        },
    }
}

/// Toggle semantics of the cover fields: setting the value the cover already
/// holds clears it, anything else overwrites it.
pub open spec fn toggle_cover(cover: Seq<char>, asset_id: Seq<char>) -> Seq<char> {
    if cover == asset_id {
        Seq::empty()
    } else {
        asset_id
    }
}

/// What one delta does to the group it targets (every kind except the
/// album-cover toggle, which edits the album itself).
pub open spec fn apply_to_group(g: GroupView, u: GroupUpdateView) -> GroupView {
    match u.upd_type {
        UpdateType::Title => GroupView { title: opt_seq(u.grp_data), ..g },
        UpdateType::CountFakePictures => GroupView {
            count_fake_pictures: opt_u32(u.count_fake_pictures),
            ..g
        },
        UpdateType::AddPicture => GroupView {
            pictures: g.pictures.push(opt_picture(u.picture)),
            count_fake_pictures: if g.count_fake_pictures > 0 {
                (g.count_fake_pictures - 1) as u32
            } else {
                0u32
            },
            ..g
        },
        UpdateType::DeletePicture => {
            let p = find_picture(g.pictures, opt_seq(u.asset_id));
            if p < 0 {
                g
            } else {
                GroupView { pictures: g.pictures.remove(p), ..g }
            }
        },
        UpdateType::Caption => {
            let p = find_picture(g.pictures, opt_seq(u.asset_id));
            if p < 0 {
                g
            } else {
                GroupView {
                    pictures: g.pictures.update(
                        p,
                        PictureView { caption: u.caption, ..g.pictures[p] },
                    ),
                    ..g
                }
            }
        },
        UpdateType::SetGroupCover => GroupView {
            cover: toggle_cover(g.cover, opt_seq(u.asset_id)),
            ..g
        },
        UpdateType::SetAlbumCover => g,
        UpdateType::TripChanged => GroupView { trip: u.trip, ..g },
    }
}

/// The reducer: what one delta does to the whole document. A delta whose
/// target key names no group is a silent no-op.
pub open spec fn apply_spec(a: AlbumView, u: GroupUpdateView) -> AlbumView {
    let i = find_group(a.groups, u.id);
    if i < 0 {
        a
    } else if u.upd_type is SetAlbumCover {
        AlbumView { cover: toggle_cover(a.cover, opt_seq(u.asset_id)), ..a }
    } else {
        AlbumView { groups: a.groups.update(i, apply_to_group(a.groups[i], u)), ..a }
    }
}

/// Where a group is known to sit first, `find_group` says so.
pub proof fn lemma_find_group_at(groups: Seq<GroupView>, id: Seq<char>, k: int)
    requires
        0 <= k < groups.len(),
        groups[k].id == id,
        forall|j: int| 0 <= j < k ==> (#[trigger] groups[j]).id != id,
    ensures
        find_group(groups, id) == k,
{
    lemma_find_group(groups, id);
    let r = find_group(groups, id);
    assert(groups[k].id == id);
    assert(r != -1);
}

/// The document a sequence of deltas leaves behind, first delta first.
pub open spec fn apply_all(a: AlbumView, us: Seq<GroupUpdateView>) -> AlbumView
    decreases us.len(),
{
    if us.len() == 0 {
        a
    } else {
        apply_all(apply_spec(a, us[0]), us.drop_first())
    }
}

/// Law (no-op on missing id): a delta whose target key matches no group in
/// the document leaves the document exactly as it was.
pub proof fn lemma_no_op_on_missing_id(a: AlbumView, u: GroupUpdateView)
    requires
        forall|i: int| 0 <= i < a.groups.len() ==> (#[trigger] a.groups[i]).id != u.id,
    ensures
        apply_spec(a, u) == a,
{
    lemma_find_group(a.groups, u.id);
}

/// Law (non-negative counter): after any sequence of deltas, every group's
/// pending-upload counter is still at least zero. The counter is unsigned and
/// the reducer's only decrement, on picture arrival, is clamped at zero, so
/// no reachable document can hold a negative count of in-flight uploads.
pub proof fn lemma_counter_non_negative(a: AlbumView, us: Seq<GroupUpdateView>, i: int)
    requires
        0 <= i < apply_all(a, us).groups.len(),
    ensures
        apply_all(a, us).groups[i].count_fake_pictures >= 0,
{
}

/// Law (toggle idempotence): applying the same group-cover toggle twice
/// returns the cover to its original value, provided the cover started empty
/// or already at the toggled key — the set-then-unset and unset-then-set
/// round trips. (From any third value the first toggle overwrites it, so the
/// pair ends at empty instead.)
pub proof fn lemma_group_cover_toggle(a: AlbumView, id: Seq<char>, asset: Seq<char>)
    requires
        ({
            let k = find_group(a.groups, id);
            k >= 0 ==> a.groups[k].cover == asset || a.groups[k].cover == Seq::<char>::empty()
        }),
    ensures
        ({
            let u = GroupUpdateView {
                asset_id: Some(asset),
                ..crate::models::group_update::blank_view(UpdateType::SetGroupCover, id)
            };
            apply_spec(apply_spec(a, u), u) == a
        }),
{
    let u = GroupUpdateView {
        asset_id: Some(asset),
        ..crate::models::group_update::blank_view(UpdateType::SetGroupCover, id)
    };
    lemma_find_group(a.groups, id);
    let k = find_group(a.groups, id);
    if k >= 0 {
        let a1 = apply_spec(a, u);
        assert forall|j: int| 0 <= j < k implies (#[trigger] a1.groups[j]).id != id by {
            assert(a1.groups[j] == a.groups[j]);
        }
        lemma_find_group_at(a1.groups, id, k);
        assert(apply_spec(a1, u) =~~= a);
    }
}

/// The document invariants survive every delta: group keys stay unique and
/// picture keys stay unique within their group — provided a picture arriving
/// by upload carries a key fresh in its group, which the client guarantees by
/// generating stable keys once and never reusing them.
pub proof fn lemma_apply_preserves_wf(a: AlbumView, u: GroupUpdateView)
    requires
        a.wf(),
        ({
            let k = find_group(a.groups, u.id);
            u.upd_type is AddPicture && k >= 0 ==> forall|j: int|
                0 <= j < a.groups[k].pictures.len() ==> (#[trigger] a.groups[k].pictures[j]).asset_id
                    != opt_picture(u.picture).asset_id
        }),
    ensures
        apply_spec(a, u).wf(),
{
    lemma_find_group(a.groups, u.id);
    let k = find_group(a.groups, u.id);
    let a2 = apply_spec(a, u);
    if k >= 0 && !(u.upd_type is SetAlbumCover) {
        let g = a.groups[k];
        let g2 = apply_to_group(g, u);
        assert forall|i: int| 0 <= i < a2.groups.len() implies (#[trigger] a2.groups[i]).id
            == a.groups[i].id by {
            if i != k {
                assert(a2.groups[i] == a.groups[i]);
            }
        }
        assert forall|i: int| 0 <= i < a2.groups.len() implies (#[trigger] a2.groups[i]).wf() by {
            if i != k {
                assert(a2.groups[i] == a.groups[i]);
            } else {
                assert(a2.groups[i] == g2);
                match u.upd_type {
                    UpdateType::AddPicture => {
                        let np = opt_picture(u.picture);
                        assert forall|x: int, y: int|
                            0 <= x < g2.pictures.len() && 0 <= y < g2.pictures.len() && x
                                != y implies g2.pictures[x].asset_id != g2.pictures[y].asset_id by {
                            if x < g.pictures.len() && y < g.pictures.len() {
                                assert(g.wf());
                            } else if x == g.pictures.len() {
                                assert(g2.pictures[y] == g.pictures[y]);
                                assert(g2.pictures[x] == np);
                            } else {
                                assert(g2.pictures[x] == g.pictures[x]);
                                assert(g2.pictures[y] == np);
                            }
                        }
                    },
                    UpdateType::DeletePicture => {
                        let p = find_picture(g.pictures, opt_seq(u.asset_id));
                        if p >= 0 {
                            lemma_find_picture(g.pictures, opt_seq(u.asset_id));
                            g.pictures.remove_ensures(p);
                            assert forall|x: int, y: int|
                                0 <= x < g2.pictures.len() && 0 <= y < g2.pictures.len() && x
                                    != y implies g2.pictures[x].asset_id
                                    != g2.pictures[y].asset_id by {
                                let sx: int = if x < p {
                                    x
                                } else {
                                    x + 1
                                };
                                let sy: int = if y < p {
                                    y
                                } else {
                                    y + 1
                                };
                                assert(g2.pictures[x] == g.pictures[sx]);
                                assert(g2.pictures[y] == g.pictures[sy]);
                            }
                        }
                    },
                    UpdateType::Caption => {
                        let p = find_picture(g.pictures, opt_seq(u.asset_id));
                        if p >= 0 {
                            lemma_find_picture(g.pictures, opt_seq(u.asset_id));
                            assert forall|x: int|
                                0 <= x < g2.pictures.len() implies (#[trigger] g2.pictures[x]).asset_id
                                    == g.pictures[x].asset_id by {
                                if x != p {
                                    assert(g2.pictures[x] == g.pictures[x]);
                                }
                            }
                        }
                    },
                    _ => {
                        assert(g2.pictures == g.pictures);
                    },
                }
            }
        }
    }
}

/// Position of the first group with the given key, or `None`.
pub fn find_group_index(groups: &Vec<Group>, id: &String) -> (r: Option<usize>)
    ensures
        ({
            let views = groups@.map_values(|g: Group| g@);
            match r {
                Some(k) => k < groups@.len() && find_group(views, id@) == k,
                None => find_group(views, id@) == -1,
            }
        }),
{
    let ghost views = groups@.map_values(|g: Group| g@);
    let n = groups.len();
    for k in 0..n
        invariant
            n == groups@.len(),
            views == groups@.map_values(|g: Group| g@),
            forall|i: int| 0 <= i < k ==> (#[trigger] views[i]).id != id@,
    {
        if groups[k].id.eq(id) {
            proof {
                lemma_find_group(views, id@);
                assert(views[k as int] == groups@[k as int]@);
            }
            return Some(k);
        }
        proof {
            assert(views[k as int] == groups@[k as int]@);
        }
    }
    proof {
        lemma_find_group(views, id@);
    }
    None
}

/// Position of the first picture with the given asset key, or `None`.
pub fn find_picture_index(pics: &Vec<Picture>, asset_id: &String) -> (r: Option<usize>)
    ensures
        ({
            let views = pics@.map_values(|p: Picture| p@);
            match r {
                Some(k) => k < pics@.len() && find_picture(views, asset_id@) == k,
                None => find_picture(views, asset_id@) == -1,
            }
        }),
{
    let ghost views = pics@.map_values(|p: Picture| p@);
    let n = pics.len();
    for k in 0..n
        invariant
            n == pics@.len(),
            views == pics@.map_values(|p: Picture| p@),
            forall|i: int| 0 <= i < k ==> (#[trigger] views[i]).asset_id != asset_id@,
    {
        if pics[k].asset_id.eq(asset_id) {
            proof {
                lemma_find_picture(views, asset_id@);
                assert(views[k as int] == pics@[k as int]@);
            }
            return Some(k);
        }
        proof {
            assert(views[k as int] == pics@[k as int]@);
        }
    }
    proof {
        lemma_find_picture(views, asset_id@);
    }
    None
}

/// Applies one delta to the document: looks the target group up by its key,
/// rewrites exactly what the delta's kind prescribes, and does nothing at all
/// when the key is absent.
pub fn apply(album: &mut Album, u: &GroupUpdate)
    ensures
        final(album)@ == apply_spec(old(album)@, u@),
{
    let k_opt = find_group_index(&album.groups, &u.id);
    let k = match k_opt {
        Some(k) => k,
        None => {
            return ;
        },
    };
    let ghost a0 = album@;
    let ghost g0 = album@.groups[k as int];
    match u.upd_type {
        UpdateType::Title => {
            let t = match &u.grp_data {
                Some(s) => s.clone(),
                None => String::new(),
            };
            album.groups[k].title = t;
        },
        UpdateType::CountFakePictures => {
            let c = match &u.count_fake_pictures {
                Some(n) => *n,
                None => 0,
            };
            album.groups[k].count_fake_pictures = c;
        },
        UpdateType::AddPicture => {
            let p = match &u.picture {
                Some(p) => p.clone(),
                None => Picture::default(),
            };
            album.groups[k].pictures.push(p);
            let c = album.groups[k].count_fake_pictures;
            album.groups[k].count_fake_pictures = if c > 0 {
                c - 1
            } else {
                0
            };
        },
        UpdateType::DeletePicture => {
            let aid = match &u.asset_id {
                Some(s) => s.clone(),
                None => String::new(),
            };
            let p_opt = find_picture_index(&album.groups[k].pictures, &aid);
            if let Some(p) = p_opt {
                album.groups[k].pictures.remove(p);
            }
        },
        UpdateType::Caption => {
            let aid = match &u.asset_id {
                Some(s) => s.clone(),
                None => String::new(),
            };
            let p_opt = find_picture_index(&album.groups[k].pictures, &aid);
            if let Some(p) = p_opt {
                let c = match &u.caption {
                    Some(s) => Some(s.clone()),
                    None => None,
                };
                album.groups[k].pictures[p].caption = c;
            }
        },
        UpdateType::SetGroupCover => {
            let aid = match &u.asset_id {
                Some(s) => s.clone(),
                None => String::new(),
            };
            if album.groups[k].cover.eq(&aid) {
                album.groups[k].cover = String::new();
            } else {
                album.groups[k].cover = aid;
            }
        },
        UpdateType::SetAlbumCover => {
            let aid = match &u.asset_id {
                Some(s) => s.clone(),
                None => String::new(),
            };
            if album.cover.eq(&aid) {
                album.cover = String::new();
            } else {
                album.cover = aid;
            }
        },
        UpdateType::TripChanged => {
            let t = match &u.trip {
                Some(t) => Some(t.clone()),
                None => None,
            };
            album.groups[k].trip = t;
        },
    }
    proof {
        lemma_view_after_group_edit(a0, old(album)@, album@, u@, k as int);
    }
}

/// After the reducer edited position `k` of the group list (or, for the
/// album-cover toggle, the album's own cover), the document's value is
/// exactly what `apply_spec` prescribes.
proof fn lemma_view_after_group_edit(
    a0: AlbumView,
    a_old: AlbumView,
    a_new: AlbumView,
    u: GroupUpdateView,
    k: int,
)
    requires
        a0 == a_old,
        0 <= k < a_old.groups.len(),
        find_group(a_old.groups, u.id) == k,
        u.upd_type is SetAlbumCover ==> a_new == (AlbumView {
            cover: toggle_cover(a_old.cover, opt_seq(u.asset_id)),
            ..a_old
        }),
        !(u.upd_type is SetAlbumCover) ==> a_new =~~= (AlbumView {
            groups: a_old.groups.update(k, apply_to_group(a_old.groups[k], u)),
            ..a_old
        }),
    ensures
        a_new == apply_spec(a_old, u),
{
    if !(u.upd_type is SetAlbumCover) {
        assert(a_new =~~= apply_spec(a_old, u));
    }
}

/// Reorders pictures inside a group by swapping the dragged picture with the
/// one it was dropped on; a no-op when the group or either picture is absent.
pub open spec fn drop_pic_spec(
    a: AlbumView,
    group_id: Seq<char>,
    drag_id: Seq<char>,
    drop_id: Seq<char>,
) -> AlbumView {
    let i = find_group(a.groups, group_id);
    if i < 0 {
        a
    } else {
        let g = a.groups[i];
        let p1 = find_picture(g.pictures, drag_id);
        let p2 = find_picture(g.pictures, drop_id);
        if p1 < 0 || p2 < 0 {
            a
        } else {
            let swapped = g.pictures.update(p1, g.pictures[p2]).update(p2, g.pictures[p1]);
            AlbumView { groups: a.groups.update(i, GroupView { pictures: swapped, ..g }), ..a }
        }
    }
}

/// Swaps the dragged picture with the picture it was dropped on, inside the
/// given group; nothing changes when the group or either picture is missing.
pub fn drop_pic(album: &mut Album, group_id: &String, drag_id: &String, drop_id: &String)
    ensures
        final(album)@ == drop_pic_spec(old(album)@, group_id@, drag_id@, drop_id@),
{
    let k_opt = find_group_index(&album.groups, group_id);
    let k = match k_opt {
        Some(k) => k,
        None => {
            return ;
        },
    };
    let p1_opt = find_picture_index(&album.groups[k].pictures, drag_id);
    let p2_opt = find_picture_index(&album.groups[k].pictures, drop_id);
    if let (Some(p1), Some(p2)) = (p1_opt, p2_opt) {
        let ghost a0 = album@;
        let pic1 = album.groups[k].pictures[p1].clone();
        let pic2 = album.groups[k].pictures[p2].clone();
        album.groups[k].pictures[p1] = pic2;
        album.groups[k].pictures[p2] = pic1;
        proof {
            assert(album@ =~~= drop_pic_spec(a0, group_id@, drag_id@, drop_id@));
        }
    }
}

} // verus!
