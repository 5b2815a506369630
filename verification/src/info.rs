//! Read-only photographic facts of the open image and their display rows
//! (Camera, Lens, Focal, Aperture, Shutter, ISO, Captured, Size, Zoom).
use vstd::prelude::*;

verus! {

/// Display strings for the open image's EXIF facts and live zoom. An empty
/// string means the fact is unknown.
pub struct ImageFacts {
    pub camera: String,
    pub lens: String,
    pub focal: String,
    pub aperture: String,
    pub shutter: String,
    pub iso: String,
    pub capture_time: String,
    pub dimensions: String,
    pub zoom: String,
}

/// The row labels of the info panel, in display order.
pub open spec fn info_labels() -> Seq<Seq<char>> {
    seq![
        "Camera"@,
        "Lens"@,
        "Focal"@,
        "Aperture"@,
        "Shutter"@,
        "ISO"@,
        "Captured"@,
        "Size"@,
        "Zoom"@,
    ]
}

/// The facts in row order.
pub open spec fn fact_values(f: ImageFacts) -> Seq<Seq<char>> {
    seq![
        f.camera@,
        f.lens@,
        f.focal@,
        f.aperture@,
        f.shutter@,
        f.iso@,
        f.capture_time@,
        f.dimensions@,
        f.zoom@,
    ]
}

/// How a fact is shown: as itself, or `-` when unknown (empty).
pub open spec fn shown(s: Seq<char>) -> Seq<char> {
    if s.len() == 0 {
        "-"@
    } else {
        s
    }
}

fn show_fact(s: &String) -> (r: String)
    ensures
        r@ == shown(s@),
{
    if s.as_str().is_empty() {
        String::from_str("-")
    } else {
        s.clone()
    }
}

/// The info panel rows: nine (label, value) pairs in fixed order; every
/// value is `-` when there are no facts or the fact is unknown.
pub fn format_info_rows(facts: Option<&ImageFacts>) -> (rows: Vec<(&'static str, String)>)
    ensures
        rows@.len() == 9,
        forall|i: int|
            0 <= i < 9 ==> {
                &&& rows@[i].0@ == info_labels()[i]
                &&& rows@[i].1@ == (match facts {
                    Some(f) => shown(fact_values(*f)[i]),
                    None => "-"@,
                })
            },
{
    let mut rows: Vec<(&'static str, String)> = Vec::new();
    match facts {
        Some(f) => {
            rows.push(("Camera", show_fact(&f.camera)));
            rows.push(("Lens", show_fact(&f.lens)));
            rows.push(("Focal", show_fact(&f.focal)));
            rows.push(("Aperture", show_fact(&f.aperture)));
            rows.push(("Shutter", show_fact(&f.shutter)));
            rows.push(("ISO", show_fact(&f.iso)));
            rows.push(("Captured", show_fact(&f.capture_time)));
            rows.push(("Size", show_fact(&f.dimensions)));
            rows.push(("Zoom", show_fact(&f.zoom)));
        },
        None => {
            rows.push(("Camera", String::from_str("-")));
            rows.push(("Lens", String::from_str("-")));
            rows.push(("Focal", String::from_str("-")));
            rows.push(("Aperture", String::from_str("-")));
            rows.push(("Shutter", String::from_str("-")));
            rows.push(("ISO", String::from_str("-")));
            rows.push(("Captured", String::from_str("-")));
            rows.push(("Size", String::from_str("-")));
            rows.push(("Zoom", String::from_str("-")));
        },
    }
    rows
}

/// Flip the info-panel visibility flag.
pub fn toggle_info_panel(show: &mut bool)
    ensures
        *final(show) == !*old(show),
{
    *show = !*show;
}

} // verus!
