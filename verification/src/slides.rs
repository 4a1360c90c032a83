//! The slideshow projection: flattening an album into the ordered sequence
//! of slides the viewer steps through — one title slide, then for each group
//! a header slide followed by one slide per picture — plus the choice of the
//! backdrop picture. Pure functions of the document; timing and rendering
//! live elsewhere.

use vstd::prelude::*;
use crate::models::album::{Album, AlbumView};
use crate::models::group::GroupView;
use crate::models::picture::{Picture, PictureView};
use crate::models::trip::{Trip, TripView};

verus! {

/// One slide: the album title, a group header (its title and trip), or a
/// single picture.
pub struct Slide {
    pub is_title: bool,
    pub group_title: Option<String>,
    pub trip: Option<Trip>,
    pub picture: Option<Picture>,
}

/// The mathematical value of a `Slide`.
#[verifier::ext_equal]
pub struct SlideView {
    pub is_title: bool,
    pub group_title: Option<Seq<char>>,
    pub trip: Option<TripView>,
    pub picture: Option<PictureView>,
}

impl View for Slide {
    type V = SlideView;

    open spec fn view(&self) -> SlideView {
        SlideView {
            is_title: self.is_title,
            group_title: match self.group_title {
                Some(t) => Some(t@),
                None => None,
            },
            trip: match self.trip {
                Some(t) => Some(t@),
                None => None,
            },
            picture: match self.picture {
                Some(p) => Some(p@),
                None => None,
            },
        }
    }
}

/// The opening slide, showing the album's own title.
pub open spec fn title_slide() -> SlideView {
    SlideView { is_title: true, group_title: None, trip: None, picture: None }
}

/// A group's header slide: its title and, if it has one, its trip.
pub open spec fn group_header_slide(g: GroupView) -> SlideView {
    SlideView { is_title: false, group_title: Some(g.title), trip: g.trip, picture: None }
}

/// One picture's slide.
pub open spec fn picture_slide(p: PictureView) -> SlideView {
    SlideView { is_title: false, group_title: None, trip: None, picture: Some(p) }
}

/// The slides one group contributes: its header, then its pictures in order.
pub open spec fn group_slides(g: GroupView) -> Seq<SlideView> {
    seq![group_header_slide(g)] + g.pictures.map_values(|p: PictureView| picture_slide(p))
}

/// The slides a list of groups contributes, group by group.
pub open spec fn slides_of_groups(gs: Seq<GroupView>) -> Seq<SlideView>
    decreases gs.len(),
{
    if gs.len() == 0 {
        Seq::empty()
    } else {
        slides_of_groups(gs.drop_last()) + group_slides(gs.last())
    }
}

/// Every slide of an album, in presentation order.
pub open spec fn slides_of(a: AlbumView) -> Seq<SlideView> {
    seq![title_slide()] + slides_of_groups(a.groups)
}

/// Builds the full slide sequence of an album: the title slide, then for
/// each group its header slide followed by one slide per picture.
pub fn init_slides(album: &Album) -> (r: Vec<Slide>)
    ensures
        r@.map_values(|s: Slide| s@) == slides_of(album@),
{
    let ghost f = |s: Slide| s@;
    let mut r: Vec<Slide> = Vec::new();
    let ghost r0 = r@;
    let title = Slide { is_title: true, group_title: None, trip: None, picture: None };
    let ghost title0 = title;
    r.push(title);
    proof {
        r0.lemma_push_map_commute(f, title0);
        assert(r@.map_values(f) =~= seq![title_slide()] + slides_of_groups(
            album@.groups.take(0),
        ));
    }
    let n = album.groups.len();
    for k in 0..n
        invariant
            n == album.groups@.len(),
            f == (|s: Slide| s@),
            r@.map_values(f) =~= seq![title_slide()] + slides_of_groups(
                album@.groups.take(k as int),
            ),
    {
        let g = &album.groups[k];
        proof {
            assert(album@.groups[k as int] == album.groups@[k as int]@);
        }
        let ghost r1 = r@;
        let header = Slide {
            is_title: false,
            group_title: Some(g.title.clone()),
            trip: match &g.trip {
                Some(t) => Some(t.clone()),
                None => None,
            },
            picture: None,
        };
        let ghost header0 = header;
        r.push(header);
        proof {
            r1.lemma_push_map_commute(f, header0);
            assert(r@.map_values(f) =~= seq![title_slide()] + slides_of_groups(
                album@.groups.take(k as int),
            ) + seq![group_header_slide(album@.groups[k as int])]);
        }
        let m = g.pictures.len();
        for j in 0..m
            invariant
                n == album.groups@.len(),
                k < n,
                m == g.pictures@.len(),
                g == &album.groups[k as int],
                f == (|s: Slide| s@),
                album@.groups[k as int] == album.groups@[k as int]@,
                r@.map_values(f) =~= seq![title_slide()] + slides_of_groups(
                    album@.groups.take(k as int),
                ) + seq![group_header_slide(album@.groups[k as int])] + album@.groups[
                    k as int
                ].pictures.take(j as int).map_values(|p: PictureView| picture_slide(p)),
        {
            let ghost r2 = r@;
            let pic_slide = Slide {
                is_title: false,
                group_title: None,
                trip: None,
                picture: Some(g.pictures[j].clone()),
            };
            let ghost pic_slide0 = pic_slide;
            r.push(pic_slide);
            proof {
                let gv = album@.groups[k as int];
                let ps = |p: PictureView| picture_slide(p);
                r2.lemma_push_map_commute(f, pic_slide0);
                gv.pictures.lemma_map_take_succ(ps, j as int);
                assert(gv.pictures[j as int] == g.pictures@[j as int]@);
                assert(f(pic_slide0) == ps(gv.pictures[j as int]));
                assert(r@.map_values(f) =~= seq![title_slide()] + slides_of_groups(
                    album@.groups.take(k as int),
                ) + seq![group_header_slide(gv)] + gv.pictures.take(j + 1).map_values(ps));
            }
        }
        proof {
            let gv = album@.groups[k as int];
            let taken = album@.groups.take(k + 1);
            assert(gv.pictures.take(m as int) =~= gv.pictures);
            assert(taken.drop_last() =~= album@.groups.take(k as int));
            assert(taken.last() == gv);
            assert(r@.map_values(f) =~= seq![title_slide()] + slides_of_groups(taken));
        }
    }
    proof {
        assert(album@.groups.take(n as int) =~= album@.groups);
    }
    r
}

/// The first picture of the first group that has any: the slideshow's
/// backdrop.
pub open spec fn first_picture(gs: Seq<GroupView>) -> Option<PictureView>
    decreases gs.len(),
{
    if gs.len() == 0 {
        None
    } else if gs[0].pictures.len() > 0 {
        Some(gs[0].pictures[0])
    } else {
        first_picture(gs.drop_first())
    }
}

/// Picks the slideshow's backdrop: the first picture of the first group that
/// has any, or nothing for an album with no pictures at all.
pub fn cover_picture(album: &Album) -> (r: Option<Picture>)
    ensures
        match r {
            Some(p) => first_picture(album@.groups) == Some(p@),
            None => first_picture(album@.groups) is None,
        },
{
    let n = album.groups.len();
    proof {
        assert(album@.groups.skip(0) =~= album@.groups);
    }
    for k in 0..n
        invariant
            n == album.groups@.len(),
            first_picture(album@.groups) == first_picture(album@.groups.skip(k as int)),
    {
        proof {
            assert(album@.groups[k as int] == album.groups@[k as int]@);
            assert(album@.groups.skip(k as int)[0] == album@.groups[k as int]);
        }
        if album.groups[k].pictures.len() > 0 {
            let p = album.groups[k].pictures[0].clone();
            proof {
                assert(album@.groups[k as int].pictures[0] == album.groups@[k as int]@.pictures[0]);
            }
            return Some(p);
        }
        proof {
            assert(album@.groups.skip(k as int).drop_first() =~= album@.groups.skip(k + 1));
        }
    }
    proof {
        assert(album@.groups.skip(n as int).len() == 0);
    }
    None
}

} // verus!
