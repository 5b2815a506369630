//! Routing of pointer drags on the crop overlay: which crop handle (or the
//! body) a drag manipulates, and the cursor that names each gesture.
use vstd::prelude::*;

verus! {

/// Which crop-rect handle (or the body) a drag is manipulating.
#[derive(Clone, Copy, PartialEq, Eq, Debug, Structural)]
pub enum Handle {
    TopLeft,
    Top,
    TopRight,
    Right,
    BottomRight,
    Bottom,
    BottomLeft,
    Left,
    Body,
}

/// What a drag does, given the press-position hit test.
#[derive(Clone, Copy, Debug, PartialEq, Eq, Structural)]
pub enum DragRoute {
    Resize(Handle),
    MoveBody,
    Pan,
}

/// A handle resizes, the body moves the rect, anywhere else pans the canvas.
pub fn route_drag(hit: Option<Handle>) -> (r: DragRoute)
    ensures
        r == (match hit {
            Some(Handle::Body) => DragRoute::MoveBody,
            Some(h) => DragRoute::Resize(h),
            None => DragRoute::Pan,
        }),
{
    match hit {
        Some(Handle::Body) => DragRoute::MoveBody,
        Some(h) => DragRoute::Resize(h),
        None => DragRoute::Pan,
    }
}

/// Pointer cursor shapes used by the crop overlay.
#[derive(Clone, Copy, Debug, PartialEq, Eq, Structural)]
pub enum CursorKind {
    ResizeNwSe,
    ResizeNeSw,
    ResizeVertical,
    ResizeHorizontal,
    Move,
}

/// The hover/drag cursor for each crop target: the cursor names the gesture.
pub fn cursor_for(h: Handle) -> (c: CursorKind)
    ensures
        c == (match h {
            Handle::TopLeft | Handle::BottomRight => CursorKind::ResizeNwSe,
            Handle::TopRight | Handle::BottomLeft => CursorKind::ResizeNeSw,
            Handle::Top | Handle::Bottom => CursorKind::ResizeVertical,
            Handle::Left | Handle::Right => CursorKind::ResizeHorizontal,
            Handle::Body => CursorKind::Move,
        }),
{
    match h {
        Handle::TopLeft | Handle::BottomRight => CursorKind::ResizeNwSe,
        Handle::TopRight | Handle::BottomLeft => CursorKind::ResizeNeSw,
        Handle::Top | Handle::Bottom => CursorKind::ResizeVertical,
        Handle::Left | Handle::Right => CursorKind::ResizeHorizontal,
        Handle::Body => CursorKind::Move,
    }
}

/// Crop aspect-ratio presets: free, fixed landscape/portrait ratios, or the
/// source image's own shape.
#[derive(Clone, Copy, Debug, PartialEq, Eq, Structural)]
pub enum Aspect {
    Free,
    Square,
    ThreeTwo,
    FourThree,
    SixteenNine,
    FiveFour,
    ThreeFour,
    TwoThree,
    NineSixteen,
    FourFive,
    Original,
}

/// The exact image-space (pixel) ratio `w : h` a preset locks, as
/// `(w, h)`; `None` for a free crop, or for `Original` on a zero-height image.
pub open spec fn aspect_spec(aspect: Aspect, img_w: u32, img_h: u32) -> Option<(u32, u32)> {
    match aspect {
        Aspect::Free => None,
        Aspect::Square => Some((1u32, 1u32)),
        Aspect::ThreeTwo => Some((3u32, 2u32)),
        Aspect::FourThree => Some((4u32, 3u32)),
        Aspect::SixteenNine => Some((16u32, 9u32)),
        Aspect::FiveFour => Some((5u32, 4u32)),
        Aspect::ThreeFour => Some((3u32, 4u32)),
        Aspect::TwoThree => Some((2u32, 3u32)),
        Aspect::NineSixteen => Some((9u32, 16u32)),
        Aspect::FourFive => Some((4u32, 5u32)),
        Aspect::Original => if img_h == 0 {
            None
        } else {
            Some((img_w, img_h))
        },
    }
}

/// The exact pixel ratio a preset locks, as `(w, h)`: the value whose
/// quotient `w / h` the crop tool uses as its aspect ratio.
pub fn aspect_fraction(aspect: Aspect, img_w: u32, img_h: u32) -> (r: Option<(u32, u32)>)
    ensures
        r == aspect_spec(aspect, img_w, img_h),
{
    match aspect {
        Aspect::Free => None,
        Aspect::Square => Some((1, 1)),
        Aspect::ThreeTwo => Some((3, 2)),
        Aspect::FourThree => Some((4, 3)),
        Aspect::SixteenNine => Some((16, 9)),
        Aspect::FiveFour => Some((5, 4)),
        Aspect::ThreeFour => Some((3, 4)),
        Aspect::TwoThree => Some((2, 3)),
        Aspect::NineSixteen => Some((9, 16)),
        Aspect::FourFive => Some((4, 5)),
        Aspect::Original => {
            if img_h == 0 {
                None
            } else {
                Some((img_w, img_h))
            }
        },
    }
}

/// The preset's ratio converted into the normalized `[0,1]^2` crop space,
/// where a rect `(w, h)` spans `(w * img_w, h * img_h)` pixels: the pixel
/// ratio `a : b` becomes `a * img_h : b * img_w`. `None` for a free crop or
/// an empty image.
pub fn normalized_aspect_fraction(aspect: Aspect, img_w: u32, img_h: u32) -> (r: Option<(u64, u64)>)
    ensures
        r == (if img_w == 0 || img_h == 0 {
            None
        } else {
            match aspect_spec(aspect, img_w, img_h) {
                Some((a, b)) => Some(((a * img_h) as u64, (b * img_w) as u64)),
                None => None,
            }
        }),
{
    if img_w == 0 || img_h == 0 {
        return None;
    }
    match aspect_fraction(aspect, img_w, img_h) {
        Some((a, b)) => {
            proof {
                assert(a * img_h <= u32::MAX * u32::MAX) by (nonlinear_arith)
                    requires
                        a <= u32::MAX,
                        img_h <= u32::MAX,
                ;
                assert(b * img_w <= u32::MAX * u32::MAX) by (nonlinear_arith)
                    requires
                        b <= u32::MAX,
                        img_w <= u32::MAX,
                ;
            }
            Some((a as u64 * img_h as u64, b as u64 * img_w as u64))
        },
        None => None,
    }
}

/// Each portrait preset locks the reciprocal of its landscape counterpart.
pub proof fn lemma_portrait_presets_are_reciprocal(img_w: u32, img_h: u32)
    ensures
        aspect_spec(Aspect::ThreeFour, img_w, img_h) == Some(
            (aspect_spec(Aspect::FourThree, img_w, img_h).unwrap().1, aspect_spec(Aspect::FourThree, img_w, img_h).unwrap().0),
        ),
        aspect_spec(Aspect::TwoThree, img_w, img_h) == Some(
            (aspect_spec(Aspect::ThreeTwo, img_w, img_h).unwrap().1, aspect_spec(Aspect::ThreeTwo, img_w, img_h).unwrap().0),
        ),
        aspect_spec(Aspect::NineSixteen, img_w, img_h) == Some(
            (aspect_spec(Aspect::SixteenNine, img_w, img_h).unwrap().1, aspect_spec(Aspect::SixteenNine, img_w, img_h).unwrap().0),
        ),
        aspect_spec(Aspect::FourFive, img_w, img_h) == Some(
            (aspect_spec(Aspect::FiveFour, img_w, img_h).unwrap().1, aspect_spec(Aspect::FiveFour, img_w, img_h).unwrap().0),
        ),
{
}

/// In normalized space the `Original` preset is always the unit ratio (the
/// full frame), whatever the source's shape.
pub proof fn lemma_original_is_unit_in_normalized_space(img_w: u32, img_h: u32)
    requires
        img_w > 0,
        img_h > 0,
    ensures
        ({
            let (a, b) = aspect_spec(Aspect::Original, img_w, img_h).unwrap();
            a * img_h == b * img_w
        }),
{
    assert(img_w * img_h == img_h * img_w) by (nonlinear_arith);
}

/// Each fixed preset locks the pixel ratio it is named after (`FourThree`
/// is width 4 to height 3, and so on) whatever the source image; every
/// landscape preset is wider than tall, every portrait preset taller than
/// wide, and the square preset is as wide as tall.
pub proof fn lemma_presets_lock_their_named_ratio(img_w: u32, img_h: u32)
    ensures
        aspect_spec(Aspect::Square, img_w, img_h) == Some((1u32, 1u32)),
        aspect_spec(Aspect::ThreeTwo, img_w, img_h) == Some((3u32, 2u32)),
        aspect_spec(Aspect::FourThree, img_w, img_h) == Some((4u32, 3u32)),
        aspect_spec(Aspect::SixteenNine, img_w, img_h) == Some((16u32, 9u32)),
        aspect_spec(Aspect::FiveFour, img_w, img_h) == Some((5u32, 4u32)),
        aspect_spec(Aspect::ThreeFour, img_w, img_h) == Some((3u32, 4u32)),
        aspect_spec(Aspect::TwoThree, img_w, img_h) == Some((2u32, 3u32)),
        aspect_spec(Aspect::NineSixteen, img_w, img_h) == Some((9u32, 16u32)),
        aspect_spec(Aspect::FourFive, img_w, img_h) == Some((4u32, 5u32)),
        aspect_spec(Aspect::Free, img_w, img_h) is None,
        forall|a: Aspect|
            (a == Aspect::ThreeTwo || a == Aspect::FourThree || a == Aspect::SixteenNine || a
                == Aspect::FiveFour) ==> (#[trigger] aspect_spec(a, img_w, img_h)) is Some
                && aspect_spec(a, img_w, img_h).unwrap().0 > aspect_spec(a, img_w, img_h).unwrap().1,
        forall|a: Aspect|
            (a == Aspect::TwoThree || a == Aspect::ThreeFour || a == Aspect::NineSixteen || a
                == Aspect::FourFive) ==> (#[trigger] aspect_spec(a, img_w, img_h)) is Some
                && aspect_spec(a, img_w, img_h).unwrap().0 < aspect_spec(a, img_w, img_h).unwrap().1,
{
}

} // verus!
