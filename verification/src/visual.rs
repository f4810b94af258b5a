//! The visual/depth negotiator: inspects a screen's depth and visual-class
//! catalogue and selects a 32-bit true-color visual for transparency, or
//! falls back to the screen's default visual with the copy-from-parent depth
//! sentinel.

use vstd::prelude::*;

verus! {

/// The true-color visual class code of the core protocol.
pub const VISUAL_CLASS_TRUE_COLOR: u8 = 4;

/// Depth sentinel: the window inherits its parent's depth.
pub const COPY_DEPTH_FROM_PARENT: u8 = 0;

/// One visual the server offers: its identifier, its color class and how
/// many bits each color component carries.
#[derive(Debug, Clone, Copy, PartialEq, Eq, Structural)]
pub struct VisualType {
    pub visual_id: u32,
    pub class: u8,
    pub bits_per_rgb_value: u8,
}

/// One supported depth and the visuals available at it.
#[derive(Debug, Clone)]
pub struct Depth {
    pub depth: u8,
    pub visuals: Vec<VisualType>,
}

/// A screen as the server reports it: pixel and physical dimensions, the
/// root window, the default visual, the supported depth/visual catalogue and
/// the black pixel value.
#[derive(Debug, Clone)]
pub struct Screen {
    pub root: u32,
    pub root_visual: u32,
    pub black_pixel: u32,
    pub width_in_pixels: u16,
    pub height_in_pixels: u16,
    pub width_in_millimeters: u16,
    pub height_in_millimeters: u16,
    pub allowed_depths: Vec<Depth>,
}

/// A visual that can carry an alpha channel: true-color class with 32-bit
/// color components.
pub open spec fn visual_is_rgba(v: VisualType) -> bool {
    v.class == VISUAL_CLASS_TRUE_COLOR && v.bits_per_rgb_value == 32
}

/// A catalogue entry that offers transparency: depth exactly 32 with an
/// alpha-capable visual.
pub open spec fn depth_has_rgba(d: Depth) -> bool {
    d.depth == 32 && exists|j: int| 0 <= j < d.visuals@.len() && visual_is_rgba(d.visuals@[j])
}

/// The first alpha-capable visual of a list, if any.
pub open spec fn first_rgba_visual(vs: Seq<VisualType>) -> Option<VisualType>
    decreases vs.len(),
{
    if vs.len() == 0 {
        None
    } else if visual_is_rgba(vs[0]) {
        Some(vs[0])
    } else {
        first_rgba_visual(vs.drop_first())
    }
}

/// The first catalogue entry of depth 32 that holds an alpha-capable visual,
/// together with that visual.
pub open spec fn first_rgba(depths: Seq<Depth>) -> Option<(u8, VisualType)>
    decreases depths.len(),
{
    if depths.len() == 0 {
        None
    } else if depths[0].depth == 32 && first_rgba_visual(depths[0].visuals@) is Some {
        Some((depths[0].depth, first_rgba_visual(depths[0].visuals@).unwrap()))
    } else {
        first_rgba(depths.drop_first())
    }
}

/// The first alpha-capable visual exists exactly when some visual of the
/// list is alpha-capable, and it is one of them.
pub proof fn lemma_first_rgba_visual_characterizes(vs: Seq<VisualType>)
    ensures
        first_rgba_visual(vs) is Some <==> exists|j: int|
            0 <= j < vs.len() && visual_is_rgba(vs[j]),
        first_rgba_visual(vs) matches Some(v) ==> visual_is_rgba(v) && exists|j: int|
            0 <= j < vs.len() && vs[j] == v,
    decreases vs.len(),
{
    if vs.len() > 0 {
        if visual_is_rgba(vs[0]) {
        } else {
            lemma_first_rgba_visual_characterizes(vs.drop_first());
            assert forall|j: int| 0 <= j < vs.len() && visual_is_rgba(vs[j]) implies first_rgba_visual(
                vs,
            ) is Some by {
                if j > 0 {
                    assert(vs.drop_first()[j - 1] == vs[j]);
                }
            }
            match first_rgba_visual(vs) {
                Some(v) => {
                    let j = choose|j: int|
                        0 <= j < vs.drop_first().len() && vs.drop_first()[j] == v;
                    assert(vs[j + 1] == v);
                },
                None => {},
            }
        }
    }
}

/// A catalogue's first transparency-capable entry exists exactly when some
/// entry offers transparency, and what it returns is depth 32 with an
/// alpha-capable visual of that entry.
pub proof fn lemma_first_rgba_characterizes(depths: Seq<Depth>)
    ensures
        first_rgba(depths) is Some <==> exists|i: int|
            0 <= i < depths.len() && depth_has_rgba(depths[i]),
        first_rgba(depths) matches Some((dep, vis)) ==> dep == 32 && visual_is_rgba(vis),
    decreases depths.len(),
{
    if depths.len() > 0 {
        lemma_first_rgba_visual_characterizes(depths[0].visuals@);
        if depths[0].depth == 32 && first_rgba_visual(depths[0].visuals@) is Some {
            assert(depth_has_rgba(depths[0]));
        } else {
            lemma_first_rgba_characterizes(depths.drop_first());
            assert forall|i: int| 0 <= i < depths.len() && depth_has_rgba(depths[i]) implies first_rgba(
                depths,
            ) is Some by {
                if i > 0 {
                    assert(depths.drop_first()[i - 1] == depths[i]);
                } else {
                    assert(first_rgba_visual(depths[0].visuals@) is Some);
                }
            }
        }
    }
}

/// Finds the first 32-bit true-color visual of a screen's catalogue.
#[verifier::loop_isolation(false)]
pub fn filter_depth_visual_rgba(screen: &Screen) -> (r: Option<(u8, VisualType)>)
    ensures
        r == first_rgba(screen.allowed_depths@),
{
    let depths = &screen.allowed_depths;
    let n = depths.len();
    let mut i: usize = 0;
    proof {
        assert(depths@.skip(0) =~= depths@);
    }
    while i < n
        invariant
            i <= n,
            n == depths@.len(),
            first_rgba(depths@) == first_rgba(depths@.skip(i as int)),
        decreases n - i,
    {
        let d = &depths[i];
        proof {
            assert(depths@.skip(i as int)[0] == depths@[i as int]);
        }
        if d.depth == 32 {
            let vs = &d.visuals;
            let m = vs.len();
            let mut j: usize = 0;
            proof {
                assert(vs@.skip(0) =~= vs@);
            }
            while j < m
                invariant
                    j <= m,
                    m == vs@.len(),
                    first_rgba_visual(vs@) == first_rgba_visual(vs@.skip(j as int)),
                decreases m - j,
            {
                let v = vs[j];
                proof {
                    assert(vs@.skip(j as int)[0] == vs@[j as int]);
                }
                if v.class == VISUAL_CLASS_TRUE_COLOR && v.bits_per_rgb_value == 32 {
                    proof {
                        assert(first_rgba_visual(vs@.skip(j as int)) == Some(v));
                        assert(first_rgba(depths@.skip(i as int)) == Some((
                            depths@[i as int].depth,
                            v,
                        )));
                    }
                    return Some((d.depth, v));
                }
                proof {
                    assert(vs@.skip(j as int).drop_first() =~= vs@.skip(j as int + 1));
                }
                j += 1;
            }
            proof {
                assert(vs@.skip(m as int) =~= Seq::<VisualType>::empty());
                assert(first_rgba_visual(vs@) is None);
            }
        }
        proof {
            assert(depths@.skip(i as int).drop_first() =~= depths@.skip(i as int + 1));
        }
        i += 1;
    }
    proof {
        assert(depths@.skip(n as int) =~= Seq::<Depth>::empty());
    }
    None
}

/// What window creation will use: the visual, the depth, whether a dedicated
/// colormap must be allocated for it, and the border pixel to set with it.
#[derive(Debug, Clone, Copy, PartialEq, Eq, Structural)]
pub struct VisualSelection {
    pub visual: u32,
    pub depth: u8,
    pub colormap_needed: bool,
    pub border_pixel: Option<u32>,
}

/// The negotiated selection: with transparency requested and an
/// alpha-capable catalogue entry present, that visual and depth with a
/// dedicated colormap and the screen's black pixel as border; otherwise the
/// screen's default visual, the copy-from-parent depth sentinel, and no
/// colormap.
pub open spec fn negotiate_visual_spec(screen: Screen, transparency: bool) -> VisualSelection {
    if transparency && first_rgba(screen.allowed_depths@) is Some {
        let (dep, vis) = first_rgba(screen.allowed_depths@).unwrap();
        VisualSelection {
            visual: vis.visual_id,
            depth: dep,
            colormap_needed: true,
            border_pixel: Some(screen.black_pixel),
        }
    } else {
        VisualSelection {
            visual: screen.root_visual,
            depth: COPY_DEPTH_FROM_PARENT,
            colormap_needed: false,
            border_pixel: None,
        }
    }
}

/// Negotiates the visual and depth for one screen.
pub fn negotiate_visual(screen: &Screen, transparency: bool) -> (r: VisualSelection)
    ensures
        r == negotiate_visual_spec(*screen, transparency),
{
    if transparency {
        match filter_depth_visual_rgba(screen) {
            Some((dep, vis)) => VisualSelection {
                visual: vis.visual_id,
                depth: dep,
                colormap_needed: true,
                border_pixel: Some(screen.black_pixel),
            },
            None => VisualSelection {
                visual: screen.root_visual,
                depth: COPY_DEPTH_FROM_PARENT,
                colormap_needed: false,
                border_pixel: None,
            },
        }
    } else {
        VisualSelection {
            visual: screen.root_visual,
            depth: COPY_DEPTH_FROM_PARENT,
            colormap_needed: false,
            border_pixel: None,
        }
    }
}

/// Law: with transparency off, negotiation never asks for a colormap and
/// always selects the screen's default visual and the copy-from-parent
/// depth.
pub proof fn lemma_opaque_negotiation(screen: Screen)
    ensures
        negotiate_visual_spec(screen, false) == (VisualSelection {
            visual: screen.root_visual,
            depth: COPY_DEPTH_FROM_PARENT,
            colormap_needed: false,
            border_pixel: None,
        }),
{
}

/// Law: with transparency on, a screen offering a 32-bit true-color visual
/// gets exactly that visual at depth 32 with one dedicated colormap asked
/// for; a screen offering none falls back to exactly the opaque selection.
pub proof fn lemma_transparent_negotiation(screen: Screen)
    ensures
        (exists|i: int|
            0 <= i < screen.allowed_depths@.len() && depth_has_rgba(screen.allowed_depths@[i]))
            <==> first_rgba(screen.allowed_depths@) is Some,
        first_rgba(screen.allowed_depths@) matches Some((dep, vis)) ==> negotiate_visual_spec(
            screen,
            true,
        ) == (VisualSelection {
            visual: vis.visual_id,
            depth: dep,
            colormap_needed: true,
            border_pixel: Some(screen.black_pixel),
        }) && dep == 32 && visual_is_rgba(vis),
        first_rgba(screen.allowed_depths@) is None ==> negotiate_visual_spec(screen, true)
            == negotiate_visual_spec(screen, false),
{
    lemma_first_rgba_characterizes(screen.allowed_depths@);
}

} // verus!
