//! The Develop canvas viewer handle and the canvas's per-frame state.
use vstd::prelude::*;

verus! {

/// The interactive Develop canvas for one open image.
pub struct Viewer {
    image_id: i64,
}

impl Viewer {
    pub fn new(image_id: i64) -> (v: Self)
        ensures
            v.image_id() == image_id,
    {
        Viewer { image_id }
    }

    /// The image this viewer shows.
    pub closed spec fn image_id(&self) -> i64 {
        self.image_id
    }
}

/// Canvas state carried between frames: whether the crop tool was active on
/// the previous frame.
#[derive(Clone, Copy, Debug)]
pub struct ViewerCanvasState {
    pub crop_active_prev: bool,
}

impl Default for ViewerCanvasState {
    fn default() -> (s: Self)
        ensures
            !s.crop_active_prev,
    {
        ViewerCanvasState { crop_active_prev: false }
    }
}

} // verus!
